//! The Linux fallback chains.
//!
//! Each operation attempts a fixed, ordered list of session-bus method
//! calls against the desktop session managers that may be present — the
//! systemd-login manager, the freedesktop power- and session-management
//! services, the console manager, the legacy hardware-abstraction service
//! and the GNOME or KDE session manager — and falls back to a spawned
//! system utility when every call is skipped or fails.  The forced reboot
//! bypasses user space entirely through the kernel trigger files.  The
//! forced variants of shut-down and log-out have no mechanism here and
//! report the operation unsupported.

use vstd::prelude::*;

use crate::dispatch::{Dispatch, DispatchV, EventV};
use crate::mechanism::{
    bus_call, bus_mech, command, BusArg, BusArgV, CmdCheck, Mechanism, MechanismV,
};
use crate::session::resolved_session;

verus! {

/// The shut-down chain: PowerOff on the systemd-login manager, Shutdown
/// or Stop on the freedesktop power-management, session-management,
/// console-manager and hardware-abstraction services and on the GNOME
/// session manager, and as a last resort `shutdown -h now`.
pub open spec fn shutdown_chain() -> Seq<MechanismV> {
    seq![
        bus_call(
            "org.freedesktop.login1"@,
            "/org/freedesktop/login1"@,
            "org.freedesktop.login1.Manager"@,
            "PowerOff"@,
            BusArgV::Flag(false),
        ),
        bus_call(
            "org.freedesktop.PowerManagement"@,
            "/org/freedesktop/PowerManagement"@,
            "org.freedesktop.PowerManagement"@,
            "Shutdown"@,
            BusArgV::Unit,
        ),
        bus_call(
            "org.freedesktop.SessionManagement"@,
            "/org/freedesktop/SessionManagement"@,
            "org.freedesktop.SessionManagement"@,
            "Shutdown"@,
            BusArgV::Unit,
        ),
        bus_call(
            "org.freedesktop.ConsoleKit"@,
            "/org/freedesktop/ConsoleKit/Manager"@,
            "org.freedesktop.ConsoleKit.Manager"@,
            "Stop"@,
            BusArgV::Unit,
        ),
        bus_call(
            "org.freedesktop.Hal"@,
            "/org/freedesktop/Hal/devices/computer"@,
            "org.freedesktop.Hal.Device.SystemPowerManagement"@,
            "Shutdown"@,
            BusArgV::Unit,
        ),
        bus_call(
            "org.gnome.SessionManager"@,
            "/org/gnome/SessionManager"@,
            "org.gnome.SessionManager"@,
            "Shutdown"@,
            BusArgV::Unit,
        ),
        MechanismV::Cmd {
            program: "shutdown"@,
            args: seq!["-h"@, "now"@],
            check: CmdCheck::QuietStderr,
        },
    ]
}

/// The reboot chain: Reboot on the systemd-login manager, Reboot or
/// Restart on the freedesktop power-management, session-management,
/// console-manager and hardware-abstraction services and on the GNOME
/// session manager, and as a last resort `shutdown -r now`.
pub open spec fn reboot_chain() -> Seq<MechanismV> {
    seq![
        bus_call(
            "org.freedesktop.login1"@,
            "/org/freedesktop/login1"@,
            "org.freedesktop.login1.Manager"@,
            "Reboot"@,
            BusArgV::Flag(false),
        ),
        bus_call(
            "org.freedesktop.PowerManagement"@,
            "/org/freedesktop/PowerManagement"@,
            "org.freedesktop.PowerManagement"@,
            "Reboot"@,
            BusArgV::Unit,
        ),
        bus_call(
            "org.freedesktop.SessionManagement"@,
            "/org/freedesktop/SessionManagement"@,
            "org.freedesktop.SessionManagement"@,
            "Reboot"@,
            BusArgV::Unit,
        ),
        bus_call(
            "org.freedesktop.ConsoleKit"@,
            "/org/freedesktop/ConsoleKit/Manager"@,
            "org.freedesktop.ConsoleKit.Manager"@,
            "Restart"@,
            BusArgV::Unit,
        ),
        bus_call(
            "org.freedesktop.Hal"@,
            "/org/freedesktop/Hal/devices/computer"@,
            "org.freedesktop.Hal.Device.SystemPowerManagement"@,
            "Reboot"@,
            BusArgV::Unit,
        ),
        bus_call(
            "org.gnome.SessionManager"@,
            "/org/gnome/SessionManager"@,
            "org.gnome.SessionManager"@,
            "Reboot"@,
            BusArgV::Unit,
        ),
        MechanismV::Cmd {
            program: "shutdown"@,
            args: seq!["-r"@, "now"@],
            check: CmdCheck::QuietStderr,
        },
    ]
}

/// The sleep chain: Suspend on the systemd-login manager, the power
/// daemon and the hardware-abstraction service, and as a last resort
/// `systemctl suspend`.
pub open spec fn sleep_chain() -> Seq<MechanismV> {
    seq![
        bus_call(
            "org.freedesktop.login1"@,
            "/org/freedesktop/login1"@,
            "org.freedesktop.login1.Manager"@,
            "Suspend"@,
            BusArgV::Flag(false),
        ),
        bus_call(
            "org.freedesktop.UPower"@,
            "/org/freedesktop/UPower"@,
            "org.freedesktop.UPower"@,
            "Suspend"@,
            BusArgV::Unit,
        ),
        bus_call(
            "org.freedesktop.Hal"@,
            "/org/freedesktop/Hal/devices/computer"@,
            "org.freedesktop.Hal.Device.SystemPowerManagement"@,
            "Suspend"@,
            BusArgV::Unit,
        ),
        MechanismV::Cmd { program: "systemctl"@, args: seq!["suspend"@], check: CmdCheck::QuietStderr },
    ]
}

/// The hibernate chain: Hibernate on the systemd-login manager, the
/// power daemon and the hardware-abstraction service, and as a last
/// resort `systemctl hibernate`.
pub open spec fn hibernate_chain() -> Seq<MechanismV> {
    seq![
        bus_call(
            "org.freedesktop.login1"@,
            "/org/freedesktop/login1"@,
            "org.freedesktop.login1.Manager"@,
            "Hibernate"@,
            BusArgV::Flag(false),
        ),
        bus_call(
            "org.freedesktop.UPower"@,
            "/org/freedesktop/UPower"@,
            "org.freedesktop.UPower"@,
            "Hibernate"@,
            BusArgV::Unit,
        ),
        bus_call(
            "org.freedesktop.Hal"@,
            "/org/freedesktop/Hal/devices/computer"@,
            "org.freedesktop.Hal.Device.SystemPowerManagement"@,
            "Hibernate"@,
            BusArgV::Unit,
        ),
        MechanismV::Cmd {
            program: "systemctl"@,
            args: seq!["hibernate"@],
            check: CmdCheck::QuietStderr,
        },
    ]
}

/// The forced-reboot chain: the kernel trigger alone, which must not
/// wait for any session manager.
pub open spec fn force_reboot_chain() -> Seq<MechanismV> {
    seq![MechanismV::KernelReboot]
}

/// The session-terminating call of the systemd-login manager, targeting
/// the resolved session identifier.
pub open spec fn terminate_session_call(id: Seq<char>) -> MechanismV {
    bus_call(
        "org.freedesktop.login1"@,
        "/org/freedesktop/login1"@,
        "org.freedesktop.login1.Manager"@,
        "TerminateSession"@,
        BusArgV::Text(id),
    )
}

/// The GNOME session manager's log-out call; the argument `1` asks for no
/// confirmation dialog.
pub open spec fn gnome_logout_call() -> MechanismV {
    bus_call(
        "org.gnome.SessionManager"@,
        "/org/gnome/SessionManager"@,
        "org.gnome.SessionManager"@,
        "Logout"@,
        BusArgV::Number(1),
    )
}

/// The KDE session manager's close-session call.
pub open spec fn kde_logout_call() -> MechanismV {
    bus_call(
        "org.kde.ksmserver"@,
        "/KSMServer"@,
        "org.kde.KSMServerInterface"@,
        "closeSession"@,
        BusArgV::Unit,
    )
}

/// The last-resort log-out command, killing the resolved session.
pub open spec fn kill_session_call(id: Seq<char>) -> MechanismV {
    MechanismV::Cmd {
        program: "loginctl"@,
        args: seq!["kill-session"@, id],
        check: CmdCheck::QuietStderr,
    }
}

/// The log-out fallback chain for a resolved session identifier.  When
/// the identifier is empty, every step that would carry it as an argument
/// is omitted: neither the session-terminating call nor the session-kill
/// command is attempted with an empty identifier.
pub open spec fn logout_chain(id: Seq<char>) -> Seq<MechanismV> {
    if id.len() > 0 {
        seq![
            terminate_session_call(id),
            gnome_logout_call(),
            kde_logout_call(),
            kill_session_call(id),
        ]
    } else {
        seq![gnome_logout_call(), kde_logout_call()]
    }
}

/// When neither source yields a session identifier, the log-out chain is
/// built without any step that would carry the empty identifier as an
/// argument: no session-terminating call and no session-kill command.
/// An exhausted run then ends in a failure rather than in a call with an
/// empty argument.
pub proof fn lemma_empty_session_logout(e: EventV)
    requires
        e matches EventV::Session { proc_file, env_var } && resolved_session(
            proc_file,
            env_var,
        ).len() == 0,
    ensures
        DispatchV::resolving().stepped(e).plan =~= seq![gnome_logout_call(), kde_logout_call()],
{
}

/// Builds the log-out fallback chain for the given session identifier.
pub fn build_logout_chain(id: String) -> (v: Vec<Mechanism>)
    ensures
        v.deep_view() == logout_chain(id@),
{
    let mut v: Vec<Mechanism> = Vec::new();
    if !id.as_str().is_empty() {
        v.push(
            bus_mech(
                "org.freedesktop.login1",
                "/org/freedesktop/login1",
                "org.freedesktop.login1.Manager",
                "TerminateSession",
                BusArg::Text(id.clone()),
            ),
        );
        v.push(gnome_logout());
        v.push(kde_logout());
        let mut args: Vec<String> = Vec::new();
        args.push("kill-session".to_owned());
        args.push(id);
        proof {
            assert(args.deep_view() =~= seq!["kill-session"@, args@[1]@]);
        }
        v.push(command("loginctl", args, CmdCheck::QuietStderr));
        proof {
            assert(v.deep_view() =~= logout_chain(id@));
        }
    } else {
        v.push(gnome_logout());
        v.push(kde_logout());
        proof {
            assert(v.deep_view() =~= logout_chain(id@));
        }
    }
    v
}

/// Builds the GNOME log-out call.
fn gnome_logout() -> (m: Mechanism)
    ensures
        m@ == gnome_logout_call(),
{
    bus_mech(
        "org.gnome.SessionManager",
        "/org/gnome/SessionManager",
        "org.gnome.SessionManager",
        "Logout",
        BusArg::Number(1),
    )
}

/// Builds the KDE close-session call.
fn kde_logout() -> (m: Mechanism)
    ensures
        m@ == kde_logout_call(),
{
    bus_mech(
        "org.kde.ksmserver",
        "/KSMServer",
        "org.kde.KSMServerInterface",
        "closeSession",
        BusArg::Unit,
    )
}

/// Starts a shut-down run over [`shutdown_chain`].
pub fn shutdown() -> (d: Dispatch)
    ensures
        d@ == DispatchV::fresh(shutdown_chain()),
{
    let mut v: Vec<Mechanism> = Vec::new();
    v.push(
        bus_mech(
            "org.freedesktop.login1",
            "/org/freedesktop/login1",
            "org.freedesktop.login1.Manager",
            "PowerOff",
            BusArg::Flag(false),
        ),
    );
    v.push(
        bus_mech(
            "org.freedesktop.PowerManagement",
            "/org/freedesktop/PowerManagement",
            "org.freedesktop.PowerManagement",
            "Shutdown",
            BusArg::Unit,
        ),
    );
    v.push(
        bus_mech(
            "org.freedesktop.SessionManagement",
            "/org/freedesktop/SessionManagement",
            "org.freedesktop.SessionManagement",
            "Shutdown",
            BusArg::Unit,
        ),
    );
    v.push(
        bus_mech(
            "org.freedesktop.ConsoleKit",
            "/org/freedesktop/ConsoleKit/Manager",
            "org.freedesktop.ConsoleKit.Manager",
            "Stop",
            BusArg::Unit,
        ),
    );
    v.push(
        bus_mech(
            "org.freedesktop.Hal",
            "/org/freedesktop/Hal/devices/computer",
            "org.freedesktop.Hal.Device.SystemPowerManagement",
            "Shutdown",
            BusArg::Unit,
        ),
    );
    v.push(
        bus_mech(
            "org.gnome.SessionManager",
            "/org/gnome/SessionManager",
            "org.gnome.SessionManager",
            "Shutdown",
            BusArg::Unit,
        ),
    );
    let mut args: Vec<String> = Vec::new();
    args.push("-h".to_owned());
    args.push("now".to_owned());
    proof {
        assert(args.deep_view() =~= seq!["-h"@, "now"@]);
    }
    v.push(command("shutdown", args, CmdCheck::QuietStderr));
    proof {
        assert(v.deep_view() =~= shutdown_chain());
    }
    Dispatch::new(v)
}

/// The forced shut-down has no mechanism on this platform: the run
/// reports the operation unsupported without any side effect.
pub fn force_shutdown() -> (d: Dispatch)
    ensures
        d@ == DispatchV::fresh(Seq::<MechanismV>::empty()),
{
    Dispatch::unsupported()
}

/// Starts a reboot run over [`reboot_chain`].
pub fn reboot() -> (d: Dispatch)
    ensures
        d@ == DispatchV::fresh(reboot_chain()),
{
    let mut v: Vec<Mechanism> = Vec::new();
    v.push(
        bus_mech(
            "org.freedesktop.login1",
            "/org/freedesktop/login1",
            "org.freedesktop.login1.Manager",
            "Reboot",
            BusArg::Flag(false),
        ),
    );
    v.push(
        bus_mech(
            "org.freedesktop.PowerManagement",
            "/org/freedesktop/PowerManagement",
            "org.freedesktop.PowerManagement",
            "Reboot",
            BusArg::Unit,
        ),
    );
    v.push(
        bus_mech(
            "org.freedesktop.SessionManagement",
            "/org/freedesktop/SessionManagement",
            "org.freedesktop.SessionManagement",
            "Reboot",
            BusArg::Unit,
        ),
    );
    v.push(
        bus_mech(
            "org.freedesktop.ConsoleKit",
            "/org/freedesktop/ConsoleKit/Manager",
            "org.freedesktop.ConsoleKit.Manager",
            "Restart",
            BusArg::Unit,
        ),
    );
    v.push(
        bus_mech(
            "org.freedesktop.Hal",
            "/org/freedesktop/Hal/devices/computer",
            "org.freedesktop.Hal.Device.SystemPowerManagement",
            "Reboot",
            BusArg::Unit,
        ),
    );
    v.push(
        bus_mech(
            "org.gnome.SessionManager",
            "/org/gnome/SessionManager",
            "org.gnome.SessionManager",
            "Reboot",
            BusArg::Unit,
        ),
    );
    let mut args: Vec<String> = Vec::new();
    args.push("-r".to_owned());
    args.push("now".to_owned());
    proof {
        assert(args.deep_view() =~= seq!["-r"@, "now"@]);
    }
    v.push(command("shutdown", args, CmdCheck::QuietStderr));
    proof {
        assert(v.deep_view() =~= reboot_chain());
    }
    Dispatch::new(v)
}

/// Starts a forced-reboot run over [`force_reboot_chain`]: the kernel
/// trigger files, with no session manager asked first.
pub fn force_reboot() -> (d: Dispatch)
    ensures
        d@ == DispatchV::fresh(force_reboot_chain()),
{
    let mut v: Vec<Mechanism> = Vec::new();
    v.push(Mechanism::KernelReboot);
    proof {
        assert(v.deep_view() =~= force_reboot_chain());
    }
    Dispatch::new(v)
}

/// Starts a log-out run: the session identifier is resolved first, and
/// the chain of [`logout_chain`] is built from it.
pub fn logout() -> (d: Dispatch)
    ensures
        d@ == DispatchV::resolving(),
{
    Dispatch::resolving()
}

/// The forced log-out has no mechanism on this platform: the run reports
/// the operation unsupported without any side effect.
pub fn force_logout() -> (d: Dispatch)
    ensures
        d@ == DispatchV::fresh(Seq::<MechanismV>::empty()),
{
    Dispatch::unsupported()
}

/// Starts a sleep run over [`sleep_chain`].
pub fn sleep() -> (d: Dispatch)
    ensures
        d@ == DispatchV::fresh(sleep_chain()),
{
    let mut v: Vec<Mechanism> = Vec::new();
    v.push(
        bus_mech(
            "org.freedesktop.login1",
            "/org/freedesktop/login1",
            "org.freedesktop.login1.Manager",
            "Suspend",
            BusArg::Flag(false),
        ),
    );
    v.push(
        bus_mech(
            "org.freedesktop.UPower",
            "/org/freedesktop/UPower",
            "org.freedesktop.UPower",
            "Suspend",
            BusArg::Unit,
        ),
    );
    v.push(
        bus_mech(
            "org.freedesktop.Hal",
            "/org/freedesktop/Hal/devices/computer",
            "org.freedesktop.Hal.Device.SystemPowerManagement",
            "Suspend",
            BusArg::Unit,
        ),
    );
    let mut args: Vec<String> = Vec::new();
    args.push("suspend".to_owned());
    proof {
        assert(args.deep_view() =~= seq!["suspend"@]);
    }
    v.push(command("systemctl", args, CmdCheck::QuietStderr));
    proof {
        assert(v.deep_view() =~= sleep_chain());
    }
    Dispatch::new(v)
}

/// Starts a hibernate run over [`hibernate_chain`].
pub fn hibernate() -> (d: Dispatch)
    ensures
        d@ == DispatchV::fresh(hibernate_chain()),
{
    let mut v: Vec<Mechanism> = Vec::new();
    v.push(
        bus_mech(
            "org.freedesktop.login1",
            "/org/freedesktop/login1",
            "org.freedesktop.login1.Manager",
            "Hibernate",
            BusArg::Flag(false),
        ),
    );
    v.push(
        bus_mech(
            "org.freedesktop.UPower",
            "/org/freedesktop/UPower",
            "org.freedesktop.UPower",
            "Hibernate",
            BusArg::Unit,
        ),
    );
    v.push(
        bus_mech(
            "org.freedesktop.Hal",
            "/org/freedesktop/Hal/devices/computer",
            "org.freedesktop.Hal.Device.SystemPowerManagement",
            "Hibernate",
            BusArg::Unit,
        ),
    );
    let mut args: Vec<String> = Vec::new();
    args.push("hibernate".to_owned());
    proof {
        assert(args.deep_view() =~= seq!["hibernate"@]);
    }
    v.push(command("systemctl", args, CmdCheck::QuietStderr));
    proof {
        assert(v.deep_view() =~= hibernate_chain());
    }
    Dispatch::new(v)
}

} // verus!
