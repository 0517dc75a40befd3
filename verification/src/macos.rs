//! The macOS fallback chains.
//!
//! Each operation shells out to the system scripting interpreter with an
//! inline automation script naming a target application and an action.
//! The interpreter may emit warnings on standard error even when it exits
//! successfully, so an attempt counts as a success only when the exit
//! status is good and the captured standard-error stream is empty.  The
//! first such call prompts the user for permission; a benign keystroke
//! script is offered to provoke that prompt ahead of time.  Hibernation
//! is not supported on this platform, and the forced shut-down has no
//! mechanism of its own either; the forced reboot uses the kernel trigger
//! files of the generic Unix design.

use vstd::prelude::*;

use crate::dispatch::{Dispatch, DispatchV};
use crate::mechanism::{command, CmdCheck, Mechanism, MechanismV};

verus! {

/// A scripting-interpreter call: `osascript -e` with the script body as
/// the inline argument, judged by exit status and an empty standard
/// error.
pub open spec fn script_call(body: Seq<char>) -> MechanismV {
    MechanismV::Cmd {
        program: "osascript"@,
        args: seq!["-e"@, body],
        check: CmdCheck::QuietStderr,
    }
}

/// Builds a scripting-interpreter mechanism from a script body.
pub fn script_mech(body: &str) -> (m: Mechanism)
    ensures
        m@ == script_call(body@),
{
    let mut args: Vec<String> = Vec::new();
    args.push("-e".to_owned());
    args.push(body.to_owned());
    proof {
        assert(args.deep_view() =~= seq!["-e"@, body@]);
    }
    command("osascript", args, CmdCheck::QuietStderr)
}

/// Starts a run whose only mechanism is the given script.
fn script_run(body: &str) -> (d: Dispatch)
    ensures
        d@ == DispatchV::fresh(seq![script_call(body@)]),
{
    let mut v: Vec<Mechanism> = Vec::new();
    v.push(script_mech(body));
    proof {
        assert(v.deep_view() =~= seq![script_call(body@)]);
    }
    Dispatch::new(v)
}

/// Asks the system-events service to press a key — a harmless call whose
/// only purpose is to provoke the one-time permission prompt before a
/// real operation needs it.
pub fn request_permission_dialog() -> (d: Dispatch)
    ensures
        d@ == DispatchV::fresh(
            seq![script_call("tell application \"System Events\" to keystroke key code 16"@)],
        ),
{
    script_run("tell application \"System Events\" to keystroke key code 16")
}

/// Starts a shut-down run: the system-events shut-down script.
pub fn shutdown() -> (d: Dispatch)
    ensures
        d@ == DispatchV::fresh(
            seq![script_call("tell application \"System Events\" to shut down"@)],
        ),
{
    script_run("tell application \"System Events\" to shut down")
}

/// The forced shut-down has no mechanism on this platform: the run
/// reports the operation unsupported without any side effect.
pub fn force_shutdown() -> (d: Dispatch)
    ensures
        d@ == DispatchV::fresh(Seq::<MechanismV>::empty()),
{
    Dispatch::unsupported()
}

/// Starts a reboot run: the system-events restart script.
pub fn reboot() -> (d: Dispatch)
    ensures
        d@ == DispatchV::fresh(
            seq![script_call("tell application \"System Events\" to restart"@)],
        ),
{
    script_run("tell application \"System Events\" to restart")
}

/// Starts a forced-reboot run over the kernel trigger files of the
/// generic Unix design, bypassing user space entirely.
pub fn force_reboot() -> (d: Dispatch)
    ensures
        d@ == DispatchV::fresh(seq![MechanismV::KernelReboot]),
{
    let mut v: Vec<Mechanism> = Vec::new();
    v.push(Mechanism::KernelReboot);
    proof {
        assert(v.deep_view() =~= seq![MechanismV::KernelReboot]);
    }
    Dispatch::new(v)
}

/// Starts a log-out run: the system-events log-out script, which shows a
/// confirmation dialog.
pub fn logout() -> (d: Dispatch)
    ensures
        d@ == DispatchV::fresh(
            seq![script_call("tell application \"System Events\" to log out"@)],
        ),
{
    script_run("tell application \"System Events\" to log out")
}

/// Starts a forced log-out run: the raw low-level log-out event sent to
/// the login window, skipping any confirmation.
pub fn force_logout() -> (d: Dispatch)
    ensures
        d@ == DispatchV::fresh(
            seq![script_call("tell application \"loginwindow\" to \u{ab}event aevtrlgo\u{bb}"@)],
        ),
{
    script_run("tell application \"loginwindow\" to \u{ab}event aevtrlgo\u{bb}")
}

/// Starts a sleep run: the system-events sleep script.
pub fn sleep() -> (d: Dispatch)
    ensures
        d@ == DispatchV::fresh(seq![script_call("tell application \"System Events\" to sleep"@)]),
{
    script_run("tell application \"System Events\" to sleep")
}

/// Hibernation is not supported on this platform: the run reports the
/// operation unsupported without any side effect.
pub fn hibernate() -> (d: Dispatch)
    ensures
        d@ == DispatchV::fresh(Seq::<MechanismV>::empty()),
{
    Dispatch::unsupported()
}

} // verus!
