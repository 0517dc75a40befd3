use system_shutdown::dispatch::{Action, Event, ShutdownError};
use system_shutdown::{reboot, sleep, Platform};

#[test]
fn forced_reboot_appends_the_immediacy_argument() {
    // Forced: the reboot utility gets the immediacy argument.
    let d = system_shutdown::unix::reboot(true);
    let a = d.next_action().unwrap();
    assert_eq!(
        a,
        Action::RunCommand {
            program: "shutdown".to_string(),
            args: vec!["-r".to_string(), "now".to_string()],
        }
    );
}

#[test]
fn unforced_reboot_omits_the_immediacy_argument() {
    let d = system_shutdown::unix::reboot(false);
    let a = d.next_action().unwrap();
    assert_eq!(
        a,
        Action::RunCommand { program: "shutdown".to_string(), args: vec!["-r".to_string()] }
    );
}

#[test]
fn unix_shutdown_uses_the_power_off_argument() {
    let d = system_shutdown::unix::shutdown(true);
    let a = d.next_action().unwrap();
    assert_eq!(
        a,
        Action::RunCommand {
            program: "shutdown".to_string(),
            args: vec!["-P".to_string(), "now".to_string()],
        }
    );
    let d = system_shutdown::unix::shutdown(false);
    let a = d.next_action().unwrap();
    assert_eq!(
        a,
        Action::RunCommand { program: "shutdown".to_string(), args: vec!["-P".to_string()] }
    );
}

#[test]
fn unix_exit_code_failure_is_reported() {
    let mut d = system_shutdown::unix::shutdown(false);
    d.next_action().unwrap();
    d.step(Event::Ran {
        exit_ok: false,
        exit_code: 1,
        stdout: String::new(),
        stderr: "shutdown: not permitted".to_string(),
    });
    // The lenient rule reports the exit code, not the stderr text.
    assert_eq!(d.into_outcome(), Err(ShutdownError::ExitCode { code: 1 }));
}

#[test]
fn spawn_failure_carries_the_os_error() {
    let mut d = system_shutdown::unix::shutdown(false);
    d.next_action().unwrap();
    d.step(Event::SpawnFailed { code: Some(2), message: "no such file".to_string() });
    assert_eq!(
        d.into_outcome(),
        Err(ShutdownError::Io { code: Some(2), message: "no such file".to_string() })
    );
}

#[test]
fn unix_logout_kills_the_resolved_user() {
    let mut d = system_shutdown::unix::logout(false);
    let a = d.next_action().unwrap();
    assert_eq!(a, Action::RunCommand { program: "whoami".to_string(), args: vec![] });
    d.step(Event::Ran {
        exit_ok: true,
        exit_code: 0,
        stdout: "alice\n".to_string(),
        stderr: String::new(),
    });
    let a = d.next_action().unwrap();
    assert_eq!(
        a,
        Action::RunCommand {
            program: "pkill".to_string(),
            args: vec!["-u".to_string(), "alice".to_string()],
        }
    );
    d.step(Event::Ran { exit_ok: true, exit_code: 0, stdout: String::new(), stderr: String::new() });
    assert_eq!(d.into_outcome(), Ok(()));
}

#[test]
fn forced_unix_logout_adds_the_kill_signal() {
    let mut d = system_shutdown::unix::logout(true);
    d.next_action().unwrap();
    d.step(Event::Ran {
        exit_ok: true,
        exit_code: 0,
        stdout: "bob\n".to_string(),
        stderr: String::new(),
    });
    let a = d.next_action().unwrap();
    assert_eq!(
        a,
        Action::RunCommand {
            program: "pkill".to_string(),
            args: vec!["-u".to_string(), "bob".to_string(), "-KILL".to_string()],
        }
    );
    d.step(Event::Ran { exit_ok: false, exit_code: 1, stdout: String::new(), stderr: String::new() });
    assert_eq!(d.into_outcome(), Err(ShutdownError::ExitCode { code: 1 }));
}

#[test]
fn script_with_noisy_stderr_fails_despite_good_exit() {
    // Exit code zero but a non-empty standard error: the script attempt
    // is a failure carrying the stderr text verbatim.
    let mut d = system_shutdown::macos::shutdown();
    let a = d.next_action().unwrap();
    assert_eq!(
        a,
        Action::RunCommand {
            program: "osascript".to_string(),
            args: vec![
                "-e".to_string(),
                "tell application \"System Events\" to shut down".to_string(),
            ],
        }
    );
    d.step(Event::Ran {
        exit_ok: true,
        exit_code: 0,
        stdout: String::new(),
        stderr: "warning: automation consent expired".to_string(),
    });
    assert_eq!(
        d.into_outcome(),
        Err(ShutdownError::Output { text: "warning: automation consent expired".to_string() })
    );
}

#[test]
fn quiet_successful_script_succeeds() {
    let mut d = system_shutdown::macos::logout();
    let a = d.next_action().unwrap();
    assert!(matches!(&a, Action::RunCommand { program, args }
        if program == "osascript" && args[1] == "tell application \"System Events\" to log out"));
    d.step(Event::Ran { exit_ok: true, exit_code: 0, stdout: String::new(), stderr: String::new() });
    assert_eq!(d.into_outcome(), Ok(()));
}

#[test]
fn permission_dialog_uses_the_benign_keystroke() {
    let d = system_shutdown::macos::request_permission_dialog();
    let a = d.next_action().unwrap();
    assert!(matches!(&a, Action::RunCommand { program, args }
        if program == "osascript"
            && args == &vec![
                "-e".to_string(),
                "tell application \"System Events\" to keystroke key code 16".to_string(),
            ]));
}

#[test]
fn forced_macos_logout_sends_the_raw_event() {
    let d = system_shutdown::macos::force_logout();
    let a = d.next_action().unwrap();
    assert!(matches!(&a, Action::RunCommand { program, args }
        if program == "osascript"
            && args[1] == "tell application \"loginwindow\" to \u{ab}event aevtrlgo\u{bb}"));
}

#[test]
fn kernel_trigger_writes_both_files_in_order() {
    let mut d = system_shutdown::linux::force_reboot();
    let a = d.next_action().unwrap();
    assert_eq!(
        a,
        Action::KernelWrite { path: "/proc/sys/kernel/sysrq".to_string(), data: "128".to_string() }
    );
    d.step(Event::Io { ok: true, code: None, message: String::new() });
    let a = d.next_action().unwrap();
    assert_eq!(
        a,
        Action::KernelWrite { path: "/proc/sysrq-trigger".to_string(), data: "b".to_string() }
    );
    d.step(Event::Io { ok: true, code: None, message: String::new() });
    assert!(d.next_action().is_none());
    assert_eq!(d.into_outcome(), Ok(()));
}

#[test]
fn kernel_trigger_surfaces_the_write_error() {
    let mut d = system_shutdown::macos::force_reboot();
    d.next_action().unwrap();
    d.step(Event::Io { ok: false, code: Some(13), message: "permission denied".to_string() });
    assert_eq!(
        d.into_outcome(),
        Err(ShutdownError::Io { code: Some(13), message: "permission denied".to_string() })
    );
}

#[test]
fn windows_exit_call_runs_after_privilege_failure() {
    // The privilege acquisition fails, and the exit call is attempted
    // regardless: its own error surface dominates.
    let mut d = system_shutdown::windows::shutdown();
    let a = d.next_action().unwrap();
    assert_eq!(a, Action::AcquirePrivilege);
    d.step(Event::Native { ok: false, code: 1300 });
    let a = d.next_action().unwrap();
    assert_eq!(a, Action::NativeExit { flags: 0x11, reason: 0x8002_0003 });
    d.step(Event::Native { ok: true, code: 0 });
    assert_eq!(d.into_outcome(), Ok(()));
}

#[test]
fn windows_flag_words_per_operation() {
    let expected: [(system_shutdown::dispatch::Dispatch, u32); 6] = [
        (system_shutdown::windows::shutdown(), 0x11),
        (system_shutdown::windows::force_shutdown(), 0x15),
        (system_shutdown::windows::reboot(), 0x12),
        (system_shutdown::windows::force_reboot(), 0x16),
        (system_shutdown::windows::logout(), 0x10),
        (system_shutdown::windows::force_logout(), 0x14),
    ];
    for (mut d, flags) in expected {
        d.next_action().unwrap();
        d.step(Event::Native { ok: true, code: 0 });
        let a = d.next_action().unwrap();
        assert_eq!(a, Action::NativeExit { flags, reason: 0x8002_0003 });
    }
}

#[test]
fn windows_native_failure_carries_the_code() {
    let mut d = system_shutdown::windows::logout();
    d.next_action().unwrap();
    d.step(Event::Native { ok: true, code: 0 });
    d.next_action().unwrap();
    d.step(Event::Native { ok: false, code: 1314 });
    assert_eq!(d.into_outcome(), Err(ShutdownError::Native { code: 1314 }));
}

#[test]
fn windows_message_requests_keep_their_parameters() {
    let mut d = system_shutdown::windows::shutdown_with_message("going down", 30, true);
    d.next_action().unwrap();
    d.step(Event::Native { ok: true, code: 0 });
    let a = d.next_action().unwrap();
    assert_eq!(
        a,
        Action::NativeRequest {
            message: "going down".to_string(),
            timeout: 30,
            force_close_apps: true,
            restart: false,
        }
    );
    let mut d = system_shutdown::windows::reboot_with_message("back soon", 5, false);
    d.next_action().unwrap();
    d.step(Event::Native { ok: true, code: 0 });
    let a = d.next_action().unwrap();
    assert_eq!(
        a,
        Action::NativeRequest {
            message: "back soon".to_string(),
            timeout: 5,
            force_close_apps: false,
            restart: true,
        }
    );
}

#[test]
fn windows_suspend_selects_hibernation_by_flag() {
    let mut d = system_shutdown::windows::sleep();
    d.next_action().unwrap();
    d.step(Event::Native { ok: true, code: 0 });
    assert_eq!(d.next_action().unwrap(), Action::NativeSuspend { hibernate: false });
    let mut d = system_shutdown::windows::hibernate();
    d.next_action().unwrap();
    d.step(Event::Native { ok: true, code: 0 });
    assert_eq!(d.next_action().unwrap(), Action::NativeSuspend { hibernate: true });
}

#[test]
fn dispatcher_routes_by_platform() {
    let d = reboot(Platform::MacOs);
    assert!(matches!(d.next_action().unwrap(), Action::RunCommand { program, .. } if program == "osascript"));
    let d = reboot(Platform::Linux);
    assert!(matches!(d.next_action().unwrap(), Action::CheckOwner { .. }));
    let d = reboot(Platform::Windows);
    assert_eq!(d.next_action().unwrap(), Action::AcquirePrivilege);
    let d = sleep(Platform::Windows);
    assert_eq!(d.next_action().unwrap(), Action::AcquirePrivilege);
}
