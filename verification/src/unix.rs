//! The generic Unix fallback chains.
//!
//! For minimal environments without a session bus — a server, an
//! initramfs, a container — every operation here is a single spawned
//! utility, judged by its exit status alone.  Shut-down and reboot use
//! the `shutdown` utility, with the immediacy argument appended exactly
//! when the operation is forced; log-out resolves the current user's
//! name and kills that user's processes.

use vstd::prelude::*;

use crate::dispatch::{Dispatch, DispatchV};
use crate::mechanism::{command, CmdCheck, Mechanism, MechanismV};

verus! {

/// The arguments of the `shutdown` utility: `-r` to reboot or `-P` to
/// power off, with `now` appended exactly when the operation is forced.
pub open spec fn shutdown_args(rebooting: bool, forced: bool) -> Seq<Seq<char>> {
    let flag = if rebooting {
        "-r"@
    } else {
        "-P"@
    };
    if forced {
        seq![flag, "now"@]
    } else {
        seq![flag]
    }
}

/// The shut-down or reboot chain: the `shutdown` utility alone, judged
/// by its exit status.
pub open spec fn shutdown_chain(rebooting: bool, forced: bool) -> Seq<MechanismV> {
    seq![
        MechanismV::Cmd {
            program: "shutdown"@,
            args: shutdown_args(rebooting, forced),
            check: CmdCheck::ExitOnly,
        },
    ]
}

/// The log-out chain: resolve the current user's name, then kill that
/// user's processes, with the kill signal forced when asked to.
pub open spec fn logout_chain(forced: bool) -> Seq<MechanismV> {
    seq![MechanismV::PkillUser { forced }]
}

/// Builds the `shutdown` invocation shared by shut-down and reboot.
fn perform_shutdown(rebooting: bool, forced: bool) -> (d: Dispatch)
    ensures
        d@ == DispatchV::fresh(shutdown_chain(rebooting, forced)),
{
    let mut args: Vec<String> = Vec::new();
    if rebooting {
        args.push("-r".to_owned());
    } else {
        args.push("-P".to_owned());
    }
    if forced {
        args.push("now".to_owned());
    }
    proof {
        assert(args.deep_view() =~= shutdown_args(rebooting, forced));
    }
    let mut v: Vec<Mechanism> = Vec::new();
    v.push(command("shutdown", args, CmdCheck::ExitOnly));
    proof {
        assert(v.deep_view() =~= shutdown_chain(rebooting, forced));
    }
    Dispatch::new(v)
}

/// Starts a shut-down run: the `shutdown` utility with the power-off
/// argument, instantly when `forced`.
pub fn shutdown(forced: bool) -> (d: Dispatch)
    ensures
        d@ == DispatchV::fresh(shutdown_chain(false, forced)),
{
    perform_shutdown(false, forced)
}

/// Starts a reboot run: the `shutdown` utility with the reboot argument,
/// instantly when `forced`.
pub fn reboot(forced: bool) -> (d: Dispatch)
    ensures
        d@ == DispatchV::fresh(shutdown_chain(true, forced)),
{
    perform_shutdown(true, forced)
}

/// Starts a log-out run: resolve the current user's name with `whoami`,
/// then kill that user's processes, with `-KILL` when `forced`.
pub fn logout(forced: bool) -> (d: Dispatch)
    ensures
        d@ == DispatchV::fresh(logout_chain(forced)),
{
    let mut v: Vec<Mechanism> = Vec::new();
    v.push(Mechanism::PkillUser { forced });
    proof {
        assert(v.deep_view() =~= logout_chain(forced));
    }
    Dispatch::new(v)
}

} // verus!
