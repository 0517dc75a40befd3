use system_shutdown::dispatch::{Action, Dispatch, Event, ShutdownError};
use system_shutdown::{force_logout, force_shutdown, hibernate, Platform};

/// Answers an ownership query or a bus call according to `owned_ok`:
/// the k-th bus mechanism is owned and succeeds exactly when
/// `owned_ok[k]` is true, every other mechanism fails.
fn drive_bus_chain(mut d: Dispatch, owned_ok: &[bool]) -> (Vec<Action>, Result<(), ShutdownError>) {
    let mut seen: Vec<Action> = Vec::new();
    let mut bus_at: usize = 0;
    while let Some(a) = d.next_action() {
        let e = match &a {
            Action::CheckOwner { .. } => {
                let owned = bus_at < owned_ok.len() && owned_ok[bus_at];
                if !owned {
                    bus_at += 1;
                }
                Event::Owner { owned }
            }
            Action::BusInvoke { .. } => {
                let ok = owned_ok[bus_at];
                bus_at += 1;
                Event::Bus { ok }
            }
            Action::RunCommand { .. } => Event::Ran {
                exit_ok: false,
                exit_code: 1,
                stdout: String::new(),
                stderr: "the last resort failed".to_string(),
            },
            other => panic!("unexpected action in a bus chain: {:?}", other),
        };
        seen.push(a);
        d.step(e);
    }
    (seen, d.into_outcome())
}

#[test]
fn first_success_stops_the_chain() {
    // The third session manager answers: two failed attempts, one
    // success, and not a single action after it.
    let d = system_shutdown::linux::shutdown();
    let (seen, outcome) = drive_bus_chain(d, &[false, false, true]);
    assert_eq!(outcome, Ok(()));
    // mechanism 1: skipped at the ownership query; mechanism 2: skipped
    // as well; mechanism 3: owned, invoked, succeeded.
    assert_eq!(seen.len(), 4);
    assert!(matches!(&seen[0], Action::CheckOwner { destination } if destination == "org.freedesktop.login1"));
    assert!(matches!(&seen[1], Action::CheckOwner { destination } if destination == "org.freedesktop.PowerManagement"));
    assert!(matches!(&seen[2], Action::CheckOwner { destination } if destination == "org.freedesktop.SessionManagement"));
    assert!(matches!(&seen[3], Action::BusInvoke { endpoint } if endpoint.destination == "org.freedesktop.SessionManagement"));
}

#[test]
fn mechanisms_are_attempted_in_declared_order() {
    let d = system_shutdown::linux::shutdown();
    let (seen, outcome) = drive_bus_chain(d, &[false, false, false, false, false, false]);
    // Every bus mechanism is skipped, in order, then the last resort runs.
    let destinations: Vec<&str> = seen
        .iter()
        .filter_map(|a| match a {
            Action::CheckOwner { destination } => Some(destination.as_str()),
            _ => None,
        })
        .collect();
    assert_eq!(
        destinations,
        vec![
            "org.freedesktop.login1",
            "org.freedesktop.PowerManagement",
            "org.freedesktop.SessionManagement",
            "org.freedesktop.ConsoleKit",
            "org.freedesktop.Hal",
            "org.gnome.SessionManager",
        ]
    );
    match seen.last().unwrap() {
        Action::RunCommand { program, args } => {
            assert_eq!(program, "shutdown");
            assert_eq!(args, &vec!["-h".to_string(), "now".to_string()]);
        }
        other => panic!("expected the last-resort command, got {:?}", other),
    }
    assert_eq!(
        outcome,
        Err(ShutdownError::Output { text: "the last resort failed".to_string() })
    );
}

#[test]
fn exhausted_chain_returns_last_mechanism_error() {
    // Three bus mechanisms fail, then the last resort fails too: the
    // result carries the last resort's error text, not an earlier one.
    let d = system_shutdown::linux::sleep();
    let (seen, outcome) = drive_bus_chain(d, &[false, false, false]);
    assert_eq!(seen.len(), 4);
    assert_eq!(
        outcome,
        Err(ShutdownError::Output { text: "the last resort failed".to_string() })
    );
}

#[test]
fn unsupported_operation_reports_without_side_effects() {
    // Hibernation is not supported on macOS: no spawn, no bus call, no
    // write is ever requested, and the static unsupported failure comes
    // back at once.
    let d = system_shutdown::macos::hibernate();
    assert!(d.is_done());
    assert!(d.next_action().is_none());
    assert_eq!(d.into_outcome(), Err(ShutdownError::Unsupported));
}

#[test]
fn unsupported_forced_variants_on_linux() {
    let d = system_shutdown::linux::force_shutdown();
    assert!(d.next_action().is_none());
    assert_eq!(d.into_outcome(), Err(ShutdownError::Unsupported));
    let d = system_shutdown::linux::force_logout();
    assert!(d.next_action().is_none());
    assert_eq!(d.into_outcome(), Err(ShutdownError::Unsupported));
}

#[test]
fn unsupported_operations_through_the_dispatcher() {
    let d = hibernate(Platform::MacOs);
    assert_eq!(d.into_outcome(), Err(ShutdownError::Unsupported));
    let d = force_shutdown(Platform::Linux);
    assert_eq!(d.into_outcome(), Err(ShutdownError::Unsupported));
    let d = force_logout(Platform::Linux);
    assert_eq!(d.into_outcome(), Err(ShutdownError::Unsupported));
    let d = force_shutdown(Platform::MacOs);
    assert_eq!(d.into_outcome(), Err(ShutdownError::Unsupported));
}

#[test]
fn unowned_destination_is_skipped_without_a_connection() {
    // The registry reports no owner for the first destination: the
    // dispatcher must move on without ever asking for the method call.
    let mut d = system_shutdown::linux::reboot();
    let first = d.next_action().unwrap();
    assert!(matches!(&first, Action::CheckOwner { destination } if destination == "org.freedesktop.login1"));
    d.step(Event::Owner { owned: false });
    let second = d.next_action().unwrap();
    match &second {
        Action::CheckOwner { destination } => {
            assert_eq!(destination, "org.freedesktop.PowerManagement");
        }
        other => panic!("expected the next ownership query, got {:?}", other),
    }
    assert!(!matches!(&second, Action::BusInvoke { .. }));
}

#[test]
fn owned_destination_gets_exactly_one_invocation() {
    let mut d = system_shutdown::linux::reboot();
    d.next_action().unwrap();
    d.step(Event::Owner { owned: true });
    let a = d.next_action().unwrap();
    match &a {
        Action::BusInvoke { endpoint } => {
            assert_eq!(endpoint.destination, "org.freedesktop.login1");
            assert_eq!(endpoint.object_path, "/org/freedesktop/login1");
            assert_eq!(endpoint.interface, "org.freedesktop.login1.Manager");
            assert_eq!(endpoint.method, "Reboot");
            assert_eq!(endpoint.arg, system_shutdown::mechanism::BusArg::Flag(false));
        }
        other => panic!("expected the method call, got {:?}", other),
    }
    d.step(Event::Bus { ok: true });
    assert!(d.next_action().is_none());
    assert_eq!(d.into_outcome(), Ok(()));
}

#[test]
fn failed_bus_call_surfaces_when_it_is_last() {
    // A log-out chain without a session identifier ends in bus
    // mechanisms; when every one is skipped the run ends as skipped.
    let mut d = system_shutdown::linux::logout();
    let a = d.next_action().unwrap();
    assert_eq!(a, Action::QuerySession);
    d.step(Event::Session { proc_file: None, env_var: None });
    let a = d.next_action().unwrap();
    assert!(matches!(&a, Action::CheckOwner { destination } if destination == "org.gnome.SessionManager"));
    d.step(Event::Owner { owned: false });
    let a = d.next_action().unwrap();
    assert!(matches!(&a, Action::CheckOwner { destination } if destination == "org.kde.ksmserver"));
    d.step(Event::Owner { owned: true });
    let a = d.next_action().unwrap();
    assert!(matches!(&a, Action::BusInvoke { endpoint } if endpoint.method == "closeSession"));
    d.step(Event::Bus { ok: false });
    assert!(d.is_done());
    assert_eq!(d.into_outcome(), Err(ShutdownError::Bus { skipped: false }));
}
