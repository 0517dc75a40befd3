//! The Windows fallback chains.
//!
//! Every operation is one native power-transition call.  Before it, the
//! dispatcher asks for the shutdown privilege to be enabled on the
//! process token; the call is then attempted whatever that came to, so
//! that its own error surface dominates — on current systems a privilege
//! failure does not always block the call.  Shut-down, reboot and
//! log-out use the immediate exit call with the force-if-hung modifier
//! always set and the force modifier added for the forced variants; two
//! extended operations use the shutdown request that shows a message and
//! a timeout; sleep and hibernate use the suspend primitive.

use vstd::prelude::*;

use crate::dispatch::{Dispatch, DispatchV};
use crate::mechanism::{Mechanism, MechanismV, NativeCall, NativeCallV};

verus! {

/// The exit call's log-off operation.
pub const EWX_LOGOFF: u32 = 0x00000000;

/// The exit call's shut-down operation.
pub const EWX_SHUTDOWN: u32 = 0x00000001;

/// The exit call's reboot operation.
pub const EWX_REBOOT: u32 = 0x00000002;

/// The modifier that forces processes to terminate without consent.
pub const EWX_FORCE: u32 = 0x00000004;

/// The modifier that forces only hung processes to terminate.
pub const EWX_FORCEIFHUNG: u32 = 0x00000010;

/// The reason's major category: an operating-system concern.
pub const SHTDN_REASON_MAJOR_OPERATINGSYSTEM: u32 = 0x00020000;

/// The reason's minor category: an upgrade.
pub const SHTDN_REASON_MINOR_UPGRADE: u32 = 0x00000003;

/// The flag marking the transition as planned.
pub const SHTDN_REASON_FLAG_PLANNED: u32 = 0x80000000;

/// The fixed reason code every exit call carries: a planned
/// operating-system upgrade.
pub const EXIT_REASON: u32 = SHTDN_REASON_MAJOR_OPERATINGSYSTEM | SHTDN_REASON_MINOR_UPGRADE
    | SHTDN_REASON_FLAG_PLANNED;

/// The chain of one immediate exit call with the given flag word.
pub open spec fn exit_chain(flags: u32) -> Seq<MechanismV> {
    seq![MechanismV::Native(NativeCallV::Exit { flags, reason: EXIT_REASON })]
}

/// The chain of one shutdown request with a message, a timeout in
/// seconds, a force-close-applications flag and reboot selection.
pub open spec fn request_chain(
    message: Seq<char>,
    timeout: u32,
    force_close_apps: bool,
    restart: bool,
) -> Seq<MechanismV> {
    seq![MechanismV::Native(NativeCallV::Request { message, timeout, force_close_apps, restart })]
}

/// The chain of one suspend call, hibernating when asked to.
pub open spec fn suspend_chain(hibernate: bool) -> Seq<MechanismV> {
    seq![MechanismV::Native(NativeCallV::Suspend { hibernate })]
}

/// Builds the immediate exit call, adding the force-if-hung modifier as
/// every variant does.
fn exit_windows(flag: u32) -> (d: Dispatch)
    ensures
        d@ == DispatchV::fresh(exit_chain(flag | EWX_FORCEIFHUNG)),
{
    let mut v: Vec<Mechanism> = Vec::new();
    v.push(Mechanism::Native(NativeCall::Exit { flags: flag | EWX_FORCEIFHUNG, reason: EXIT_REASON }));
    proof {
        assert(v.deep_view() =~= exit_chain(flag | EWX_FORCEIFHUNG));
    }
    Dispatch::new(v)
}

/// Builds the shutdown request shared by the two extended operations.
fn initiate_system_shutdown(
    message: &str,
    timeout: u32,
    force_close_apps: bool,
    restart: bool,
) -> (d: Dispatch)
    ensures
        d@ == DispatchV::fresh(request_chain(message@, timeout, force_close_apps, restart)),
{
    let mut v: Vec<Mechanism> = Vec::new();
    v.push(
        Mechanism::Native(
            NativeCall::Request {
                message: message.to_owned(),
                timeout,
                force_close_apps,
                restart,
            },
        ),
    );
    proof {
        assert(v.deep_view() =~= request_chain(message@, timeout, force_close_apps, restart));
    }
    Dispatch::new(v)
}

/// Starts a graceful shut-down request showing `message`, waiting
/// `timeout` seconds, and force-closing applications when asked to.
pub fn shutdown_with_message(message: &str, timeout: u32, force_close_apps: bool) -> (d: Dispatch)
    ensures
        d@ == DispatchV::fresh(request_chain(message@, timeout, force_close_apps, false)),
{
    initiate_system_shutdown(message, timeout, force_close_apps, false)
}

/// Starts a graceful reboot request showing `message`, waiting `timeout`
/// seconds, and force-closing applications when asked to.
pub fn reboot_with_message(message: &str, timeout: u32, force_close_apps: bool) -> (d: Dispatch)
    ensures
        d@ == DispatchV::fresh(request_chain(message@, timeout, force_close_apps, true)),
{
    initiate_system_shutdown(message, timeout, force_close_apps, true)
}

/// Starts a shut-down run over the immediate exit call.
pub fn shutdown() -> (d: Dispatch)
    ensures
        d@ == DispatchV::fresh(exit_chain(EWX_SHUTDOWN | EWX_FORCEIFHUNG)),
{
    exit_windows(EWX_SHUTDOWN)
}

/// Starts a forced shut-down run: the exit call with the force modifier.
pub fn force_shutdown() -> (d: Dispatch)
    ensures
        d@ == DispatchV::fresh(exit_chain((EWX_SHUTDOWN | EWX_FORCE) | EWX_FORCEIFHUNG)),
{
    exit_windows(EWX_SHUTDOWN | EWX_FORCE)
}

/// Starts a reboot run over the immediate exit call.
pub fn reboot() -> (d: Dispatch)
    ensures
        d@ == DispatchV::fresh(exit_chain(EWX_REBOOT | EWX_FORCEIFHUNG)),
{
    exit_windows(EWX_REBOOT)
}

/// Starts a forced reboot run: the exit call with the force modifier.
pub fn force_reboot() -> (d: Dispatch)
    ensures
        d@ == DispatchV::fresh(exit_chain((EWX_REBOOT | EWX_FORCE) | EWX_FORCEIFHUNG)),
{
    exit_windows(EWX_REBOOT | EWX_FORCE)
}

/// Starts a log-out run over the immediate exit call.
pub fn logout() -> (d: Dispatch)
    ensures
        d@ == DispatchV::fresh(exit_chain(EWX_LOGOFF | EWX_FORCEIFHUNG)),
{
    exit_windows(EWX_LOGOFF)
}

/// Starts a forced log-out run: the exit call with the force modifier.
pub fn force_logout() -> (d: Dispatch)
    ensures
        d@ == DispatchV::fresh(exit_chain((EWX_LOGOFF | EWX_FORCE) | EWX_FORCEIFHUNG)),
{
    exit_windows(EWX_LOGOFF | EWX_FORCE)
}

/// Starts a sleep run over the native suspend call.
pub fn sleep() -> (d: Dispatch)
    ensures
        d@ == DispatchV::fresh(suspend_chain(false)),
{
    let mut v: Vec<Mechanism> = Vec::new();
    v.push(Mechanism::Native(NativeCall::Suspend { hibernate: false }));
    proof {
        assert(v.deep_view() =~= suspend_chain(false));
    }
    Dispatch::new(v)
}

/// Starts a hibernate run over the native suspend call.
pub fn hibernate() -> (d: Dispatch)
    ensures
        d@ == DispatchV::fresh(suspend_chain(true)),
{
    let mut v: Vec<Mechanism> = Vec::new();
    v.push(Mechanism::Native(NativeCall::Suspend { hibernate: true }));
    proof {
        assert(v.deep_view() =~= suspend_chain(true));
    }
    Dispatch::new(v)
}

} // verus!
