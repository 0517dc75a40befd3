//! Cross-platform power-state transitions: shut down, reboot, log out,
//! sleep and hibernate, each with a forced variant.
//!
//! Every operation is realised as an ordered fallback chain of mechanisms
//! (session-bus method calls, spawned system utilities, kernel trigger
//! files, native OS calls) tried in sequence until one succeeds.  The
//! library models that chain as a verified state machine, the
//! [`dispatch::Dispatch`] run: it decides which mechanism to attempt next
//! and how to judge each outcome, while the caller performs the actual
//! bus calls, process spawns and file writes and reports what happened.
//! The functions at the crate root pick the chain for a platform chosen
//! once at start-up; the per-platform modules expose the same operations
//! directly, and [`unix`] holds the single-utility variants for minimal
//! environments without a session bus.

pub mod dispatch;
pub mod linux;
pub mod macos;
pub mod mechanism;
pub mod session;
pub mod unix;
pub mod windows;

use vstd::prelude::*;

use dispatch::{Dispatch, DispatchV};
use mechanism::MechanismV;

verus! {

/// The platforms the operation dispatcher knows fallback chains for.
#[derive(Clone, Copy, PartialEq, Eq, Structural, Debug)]
pub enum Platform {
    Linux,
    MacOs,
    Windows,
}

/// Starts a shut-down run over the platform's chain.
pub fn shutdown(platform: Platform) -> (d: Dispatch)
    ensures
        platform is Linux ==> d@ == DispatchV::fresh(linux::shutdown_chain()),
        platform is MacOs ==> d@ == DispatchV::fresh(
            seq![macos::script_call("tell application \"System Events\" to shut down"@)],
        ),
        platform is Windows ==> d@ == DispatchV::fresh(
            windows::exit_chain(windows::EWX_SHUTDOWN | windows::EWX_FORCEIFHUNG),
        ),
{
    match platform {
        Platform::Linux => linux::shutdown(),
        Platform::MacOs => macos::shutdown(),
        Platform::Windows => windows::shutdown(),
    }
}

/// Starts a forced shut-down run over the platform's chain; on Linux and
/// macOS the operation is unsupported.
pub fn force_shutdown(platform: Platform) -> (d: Dispatch)
    ensures
        platform is Linux ==> d@ == DispatchV::fresh(Seq::<MechanismV>::empty()),
        platform is MacOs ==> d@ == DispatchV::fresh(Seq::<MechanismV>::empty()),
        platform is Windows ==> d@ == DispatchV::fresh(
            windows::exit_chain((windows::EWX_SHUTDOWN | windows::EWX_FORCE)
                | windows::EWX_FORCEIFHUNG),
        ),
{
    match platform {
        Platform::Linux => linux::force_shutdown(),
        Platform::MacOs => macos::force_shutdown(),
        Platform::Windows => windows::force_shutdown(),
    }
}

/// Starts a reboot run over the platform's chain.
pub fn reboot(platform: Platform) -> (d: Dispatch)
    ensures
        platform is Linux ==> d@ == DispatchV::fresh(linux::reboot_chain()),
        platform is MacOs ==> d@ == DispatchV::fresh(
            seq![macos::script_call("tell application \"System Events\" to restart"@)],
        ),
        platform is Windows ==> d@ == DispatchV::fresh(
            windows::exit_chain(windows::EWX_REBOOT | windows::EWX_FORCEIFHUNG),
        ),
{
    match platform {
        Platform::Linux => linux::reboot(),
        Platform::MacOs => macos::reboot(),
        Platform::Windows => windows::reboot(),
    }
}

/// Starts a forced reboot run over the platform's chain; on Linux and
/// macOS it is the kernel trigger, which waits for no session manager.
pub fn force_reboot(platform: Platform) -> (d: Dispatch)
    ensures
        platform is Linux ==> d@ == DispatchV::fresh(linux::force_reboot_chain()),
        platform is MacOs ==> d@ == DispatchV::fresh(seq![MechanismV::KernelReboot]),
        platform is Windows ==> d@ == DispatchV::fresh(
            windows::exit_chain((windows::EWX_REBOOT | windows::EWX_FORCE)
                | windows::EWX_FORCEIFHUNG),
        ),
{
    match platform {
        Platform::Linux => linux::force_reboot(),
        Platform::MacOs => macos::force_reboot(),
        Platform::Windows => windows::force_reboot(),
    }
}

/// Starts a log-out run over the platform's chain; on Linux the session
/// identifier is resolved first and the chain is built from it.
pub fn logout(platform: Platform) -> (d: Dispatch)
    ensures
        platform is Linux ==> d@ == DispatchV::resolving(),
        platform is MacOs ==> d@ == DispatchV::fresh(
            seq![macos::script_call("tell application \"System Events\" to log out"@)],
        ),
        platform is Windows ==> d@ == DispatchV::fresh(
            windows::exit_chain(windows::EWX_LOGOFF | windows::EWX_FORCEIFHUNG),
        ),
{
    match platform {
        Platform::Linux => linux::logout(),
        Platform::MacOs => macos::logout(),
        Platform::Windows => windows::logout(),
    }
}

/// Starts a forced log-out run over the platform's chain; on Linux the
/// operation is unsupported.
pub fn force_logout(platform: Platform) -> (d: Dispatch)
    ensures
        platform is Linux ==> d@ == DispatchV::fresh(Seq::<MechanismV>::empty()),
        platform is MacOs ==> d@ == DispatchV::fresh(
            seq![
                macos::script_call(
                    "tell application \"loginwindow\" to \u{ab}event aevtrlgo\u{bb}"@,
                ),
            ],
        ),
        platform is Windows ==> d@ == DispatchV::fresh(
            windows::exit_chain((windows::EWX_LOGOFF | windows::EWX_FORCE)
                | windows::EWX_FORCEIFHUNG),
        ),
{
    match platform {
        Platform::Linux => linux::force_logout(),
        Platform::MacOs => macos::force_logout(),
        Platform::Windows => windows::force_logout(),
    }
}

/// Starts a sleep run over the platform's chain.
pub fn sleep(platform: Platform) -> (d: Dispatch)
    ensures
        platform is Linux ==> d@ == DispatchV::fresh(linux::sleep_chain()),
        platform is MacOs ==> d@ == DispatchV::fresh(
            seq![macos::script_call("tell application \"System Events\" to sleep"@)],
        ),
        platform is Windows ==> d@ == DispatchV::fresh(windows::suspend_chain(false)),
{
    match platform {
        Platform::Linux => linux::sleep(),
        Platform::MacOs => macos::sleep(),
        Platform::Windows => windows::sleep(),
    }
}

/// Starts a hibernate run over the platform's chain; on macOS the
/// operation is unsupported.
pub fn hibernate(platform: Platform) -> (d: Dispatch)
    ensures
        platform is Linux ==> d@ == DispatchV::fresh(linux::hibernate_chain()),
        platform is MacOs ==> d@ == DispatchV::fresh(Seq::<MechanismV>::empty()),
        platform is Windows ==> d@ == DispatchV::fresh(windows::suspend_chain(true)),
{
    match platform {
        Platform::Linux => linux::hibernate(),
        Platform::MacOs => macos::hibernate(),
        Platform::Windows => windows::hibernate(),
    }
}

} // verus!
