//! Session-identifier resolution.
//!
//! A session-targeted log-out needs the current session's identifier.  It
//! is resolved afresh on every call from two sources: the kernel-exposed
//! session file, whose contents are stripped of surrounding blanks, and,
//! when that yields nothing, an environment variable taken verbatim.  The
//! caller reads both sources and hands them over; `None` stands for an
//! unreadable file or an unset variable.  When neither source yields an
//! identifier the result is empty, and the log-out chain then omits every
//! step that would carry an empty identifier as an argument.

use vstd::prelude::*;

verus! {

/// The blank characters stripped from the session file's contents: the
/// ASCII whitespace set.
pub open spec fn is_blank(c: char) -> bool {
    c == ' ' || c == '\t' || c == '\n' || c == '\r' || c == '\u{000B}' || c == '\u{000C}'
}

/// `s` without its leading blanks.
pub open spec fn drop_leading_blanks(s: Seq<char>) -> Seq<char>
    decreases s.len(),
{
    if s.len() > 0 && is_blank(s[0]) {
        drop_leading_blanks(s.drop_first())
    } else {
        s
    }
}

/// `s` without its trailing blanks.
pub open spec fn drop_trailing_blanks(s: Seq<char>) -> Seq<char>
    decreases s.len(),
{
    if s.len() > 0 && is_blank(s.last()) {
        drop_trailing_blanks(s.drop_last())
    } else {
        s
    }
}

/// `s` without its leading and trailing blanks.
pub open spec fn trimmed(s: Seq<char>) -> Seq<char> {
    drop_trailing_blanks(drop_leading_blanks(s))
}

/// The resolved session identifier: the session file's contents stripped
/// of blanks when that is non-empty, otherwise the environment variable's
/// value, otherwise empty.
pub open spec fn resolved_session(
    proc_file: Option<Seq<char>>,
    env_var: Option<Seq<char>>,
) -> Seq<char> {
    let stripped = match proc_file {
        Some(s) => trimmed(s),
        None => Seq::<char>::empty(),
    };
    if stripped.len() > 0 {
        stripped
    } else {
        match env_var {
            Some(v) => v,
            None => Seq::<char>::empty(),
        }
    }
}

/// Dropping leading blanks keeps the suffix that starts at the first
/// non-blank position.
proof fn lemma_drop_leading_blanks_at(s: Seq<char>, i: int)
    requires
        0 <= i <= s.len(),
        forall|k: int| 0 <= k < i ==> is_blank(s[k]),
        i < s.len() ==> !is_blank(s[i]),
    ensures
        drop_leading_blanks(s) =~= s.subrange(i, s.len() as int),
    decreases i,
{
    if i == 0 {
        assert(s.subrange(0, s.len() as int) =~= s);
    } else {
        assert(is_blank(s[0]));
        lemma_drop_leading_blanks_at(s.drop_first(), i - 1);
        assert(s.drop_first().subrange(i - 1, s.drop_first().len() as int) =~= s.subrange(
            i,
            s.len() as int,
        ));
    }
}

/// Dropping trailing blanks keeps the prefix that ends at the last
/// non-blank position.
proof fn lemma_drop_trailing_blanks_at(s: Seq<char>, j: int)
    requires
        0 <= j <= s.len(),
        forall|k: int| j <= k < s.len() ==> is_blank(s[k]),
        j > 0 ==> !is_blank(s[j - 1]),
    ensures
        drop_trailing_blanks(s) =~= s.subrange(0, j),
    decreases s.len() - j,
{
    if j == s.len() {
        assert(s.subrange(0, s.len() as int) =~= s);
    } else {
        assert(is_blank(s.last()));
        lemma_drop_trailing_blanks_at(s.drop_last(), j);
        assert(s.drop_last().subrange(0, j) =~= s.subrange(0, j));
    }
}

/// Whether `c` is one of the blanks stripped by [`trim_blanks`].
fn blank(c: char) -> (r: bool)
    ensures
        r == is_blank(c),
{
    c == ' ' || c == '\t' || c == '\n' || c == '\r' || c == '\u{000B}' || c == '\u{000C}'
}

/// `s` without its leading and trailing blanks.
pub fn trim_blanks(s: &str) -> (r: String)
    ensures
        r@ == trimmed(s@),
{
    let n = s.unicode_len();
    let mut start: usize = 0;
    while start < n && blank(s.get_char(start))
        invariant
            n == s@.len(),
            0 <= start <= n,
            forall|k: int| 0 <= k < start ==> is_blank(s@[k]),
        decreases n - start,
    {
        start = start + 1;
    }
    let mut end: usize = n;
    while end > start && blank(s.get_char(end - 1))
        invariant
            n == s@.len(),
            start <= end <= n,
            forall|k: int| end <= k < n ==> is_blank(s@[k]),
        decreases end,
    {
        end = end - 1;
    }
    let r = s.substring_char(start, end);
    proof {
        lemma_drop_leading_blanks_at(s@, start as int);
        let sub = s@.subrange(start as int, s@.len() as int);
        lemma_drop_trailing_blanks_at(sub, end - start);
        assert(sub.subrange(0, end - start) =~= s@.subrange(start as int, end as int));
    }
    r.to_owned()
}

/// Resolves the session identifier from the session file's contents and
/// the environment variable's value, either of which may be missing.
pub fn resolve_session_id(proc_file: Option<String>, env_var: Option<String>) -> (r: String)
    ensures
        r@ == resolved_session(proc_file.deep_view(), env_var.deep_view()),
{
    let stripped = match &proc_file {
        Some(s) => trim_blanks(s.as_str()),
        None => String::new(),
    };
    if !stripped.as_str().is_empty() {
        stripped
    } else {
        match env_var {
            Some(v) => v,
            None => String::new(),
        }
    }
}

} // verus!
