use system_shutdown::dispatch::{Action, Event, ShutdownError};
use system_shutdown::mechanism::BusArg;
use system_shutdown::session::{resolve_session_id, trim_blanks};

#[test]
fn trim_strips_surrounding_blanks() {
    assert_eq!(trim_blanks(" \t42\n"), "42");
    assert_eq!(trim_blanks("alice\n"), "alice");
    assert_eq!(trim_blanks("  a b  "), "a b");
    assert_eq!(trim_blanks(""), "");
    assert_eq!(trim_blanks(" \n\t "), "");
    assert_eq!(trim_blanks("plain"), "plain");
}

#[test]
fn session_file_wins_when_it_has_content() {
    let id = resolve_session_id(Some(" 42\n".to_string()), Some("7".to_string()));
    assert_eq!(id, "42");
}

#[test]
fn environment_variable_is_the_fallback() {
    let id = resolve_session_id(Some("  \n".to_string()), Some("9".to_string()));
    assert_eq!(id, "9");
    let id = resolve_session_id(None, Some("9".to_string()));
    assert_eq!(id, "9");
}

#[test]
fn missing_sources_resolve_to_an_empty_identifier() {
    let id = resolve_session_id(None, None);
    assert_eq!(id, "");
    let id = resolve_session_id(Some("\n\t".to_string()), None);
    assert_eq!(id, "");
}

#[test]
fn resolved_identifier_reaches_the_terminate_call() {
    let mut d = system_shutdown::linux::logout();
    assert_eq!(d.next_action().unwrap(), Action::QuerySession);
    d.step(Event::Session { proc_file: Some(" 42\n".to_string()), env_var: None });
    let a = d.next_action().unwrap();
    match &a {
        Action::CheckOwner { destination } => assert_eq!(destination, "org.freedesktop.login1"),
        other => panic!("expected the ownership query, got {:?}", other),
    }
    d.step(Event::Owner { owned: true });
    let a = d.next_action().unwrap();
    match &a {
        Action::BusInvoke { endpoint } => {
            assert_eq!(endpoint.method, "TerminateSession");
            assert_eq!(endpoint.arg, BusArg::Text("42".to_string()));
        }
        other => panic!("expected the terminate call, got {:?}", other),
    }
}

#[test]
fn resolved_identifier_reaches_the_kill_session_command() {
    let mut d = system_shutdown::linux::logout();
    d.next_action().unwrap();
    d.step(Event::Session { proc_file: None, env_var: Some("7".to_string()) });
    // Skip the three bus mechanisms.
    for _ in 0..3 {
        match d.next_action().unwrap() {
            Action::CheckOwner { .. } => d.step(Event::Owner { owned: false }),
            other => panic!("expected an ownership query, got {:?}", other),
        }
    }
    let a = d.next_action().unwrap();
    assert_eq!(
        a,
        Action::RunCommand {
            program: "loginctl".to_string(),
            args: vec!["kill-session".to_string(), "7".to_string()],
        }
    );
}

#[test]
fn unresolved_session_fails_without_an_empty_argument() {
    // Neither source yields an identifier: the chain holds only the two
    // session managers that need no identifier, and exhausting them is a
    // failure — no call ever carries an empty argument.
    let mut d = system_shutdown::linux::logout();
    assert_eq!(d.next_action().unwrap(), Action::QuerySession);
    d.step(Event::Session { proc_file: Some("\n".to_string()), env_var: None });
    let mut queried: Vec<String> = Vec::new();
    while let Some(a) = d.next_action() {
        match a {
            Action::CheckOwner { destination } => {
                queried.push(destination);
                d.step(Event::Owner { owned: false });
            }
            other => panic!("no other action may appear, got {:?}", other),
        }
    }
    assert_eq!(
        queried,
        vec!["org.gnome.SessionManager".to_string(), "org.kde.ksmserver".to_string()]
    );
    assert_eq!(d.into_outcome(), Err(ShutdownError::Bus { skipped: true }));
}
