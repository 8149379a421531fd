use jumpbox_typer::command::CommandOutcome;
use jumpbox_typer::system_check::{
    command_available, ensure_ydotool_ready, require_command, run_system_check, uinput_status,
    user_groups, ydotool_socket_path, ydotool_socket_status, ReadyAction, ReadyEvent, ReadyPhase,
    SocketStatus, UinputStatus,
};

fn exited(success: bool, stdout: &str, stderr: &str) -> CommandOutcome {
    CommandOutcome::Exited {
        success,
        status: if success { "exit status: 0" } else { "exit status: 1" }.to_string(),
        stdout: stdout.to_string(),
        stderr: stderr.to_string(),
    }
}

#[test]
fn socket_path_prefers_ydotool_socket() {
    assert_eq!(
        ydotool_socket_path(Some("/tmp/s".to_string()), Some("/run/user/1000".to_string())),
        Some("/tmp/s".to_string())
    );
    assert_eq!(
        ydotool_socket_path(None, Some("/run/user/1000".to_string())),
        Some("/run/user/1000/.ydotool_socket".to_string())
    );
    assert_eq!(
        ydotool_socket_path(None, Some("/run/user/1000/".to_string())),
        Some("/run/user/1000/.ydotool_socket".to_string())
    );
    assert_eq!(ydotool_socket_path(None, Some(String::new())), Some(".ydotool_socket".to_string()));
    assert_eq!(ydotool_socket_path(None, None), None);
}

#[test]
fn socket_status_messages() {
    let s = ydotool_socket_status(Some("/run/x"), true);
    assert!(s.is_ready());
    assert_eq!(s.message, "OK ydotoold socket found at /run/x.");
    let s = ydotool_socket_status(Some("/run/x"), false);
    assert!(!s.is_ready());
    assert_eq!(
        s.message,
        "ydotoold is not running or its socket is missing at /run/x. Start/Check will not type until ydotoold is running. Try: systemctl --user start ydotool.service"
    );
    let s = ydotool_socket_status(None, true);
    assert!(!s.ready);
    assert_eq!(
        s.message,
        "Could not determine the ydotoold socket path because XDG_RUNTIME_DIR is not set."
    );
}

#[test]
fn uinput_status_cases() {
    let s = uinput_status(false, true, None);
    assert!(!s.ready);
    assert!(s.message.starts_with("/dev/uinput is missing."));
    let s = uinput_status(true, true, None);
    assert!(s.ready);
    assert_eq!(s.message, "OK current user can open /dev/uinput if ydotoold needs to start.");
    let s = uinput_status(true, false, Some(vec!["adm".to_string(), "input".to_string()]));
    assert!(!s.ready);
    assert!(s.message.contains("this process cannot open it"));
    let s = uinput_status(true, false, Some(vec!["inputs".to_string()]));
    assert!(s.message.contains("common fix: sudo usermod -aG input $USER"));
    let s = uinput_status(true, false, None);
    assert!(s.message.contains("this user cannot open it"));
}

#[test]
fn user_groups_from_id_output() {
    assert_eq!(
        user_groups(&exited(true, "alice adm input\n", "")),
        Some(vec!["alice".to_string(), "adm".to_string(), "input".to_string()])
    );
    assert_eq!(user_groups(&exited(false, "alice", "")), None);
    assert_eq!(user_groups(&CommandOutcome::NotStarted("no id".to_string())), None);
}

#[test]
fn command_availability() {
    assert!(command_available(&exited(true, "", "")));
    assert!(!command_available(&exited(false, "", "")));
    assert!(!command_available(&CommandOutcome::NotStarted("x".to_string())));
    assert_eq!(require_command(&exited(false, "", ""), "install it"), Ok(()));
    assert_eq!(
        require_command(&CommandOutcome::NotStarted("x".to_string()), "install it"),
        Err("install it".to_string())
    );
}

#[test]
fn system_check_report() {
    let check = run_system_check(
        true,
        false,
        SocketStatus { ready: true, message: "sock ok".to_string() },
        UinputStatus { ready: false, message: "uinput bad".to_string() },
    );
    assert!(check.can_type);
    assert!(!check.can_ocr);
    let titles: Vec<&str> = check.items.iter().map(|i| i.title.as_str()).collect();
    assert_eq!(
        titles,
        ["ydotool installed", "ydotoold socket", "/dev/uinput access", "tesseract OCR installed"]
    );
    assert_eq!(check.items[0].detail, "ydotool is installed.");
    assert!(check.items[1].ok);
    assert_eq!(check.items[1].detail, "sock ok");
    assert!(!check.items[2].ok);
    assert_eq!(check.items[3].detail, "Install tesseract OCR: sudo apt install tesseract-ocr");
    assert!(check.items.iter().all(|i| !i.help.is_empty()));
    assert!(check.items[2].help.contains("/dev/uinput"));

    let check = run_system_check(
        false,
        true,
        SocketStatus { ready: true, message: String::new() },
        UinputStatus { ready: true, message: String::new() },
    );
    assert!(!check.can_type);
    assert!(check.can_ocr);
    assert_eq!(check.items[0].detail, "Install ydotool: sudo apt install ydotool");
}

fn run_cmd(a: &ReadyAction) -> (Vec<String>, bool) {
    match a {
        ReadyAction::Run { command, capture } => (command.clone(), *capture),
        _ => panic!("expected run"),
    }
}

#[test]
fn ready_when_socket_exists() {
    let mut phase = ReadyPhase::NotStarted;
    let a = ensure_ydotool_ready(&mut phase, ReadyEvent::Started);
    assert_eq!(run_cmd(&a), (vec!["ydotool".to_string(), "--help".to_string()], true));
    let a = ensure_ydotool_ready(&mut phase, ReadyEvent::Ran(exited(false, "", "")));
    assert!(matches!(a, ReadyAction::CheckSocket));
    let a = ensure_ydotool_ready(&mut phase, ReadyEvent::SocketChecked { exists: true });
    assert!(matches!(a, ReadyAction::Finish(Ok(()))));
    assert_eq!(phase, ReadyPhase::Done);
}

#[test]
fn ready_fails_without_ydotool() {
    let mut phase = ReadyPhase::NotStarted;
    ensure_ydotool_ready(&mut phase, ReadyEvent::Started);
    match ensure_ydotool_ready(&mut phase, ReadyEvent::Ran(CommandOutcome::NotStarted("nf".to_string()))) {
        ReadyAction::Finish(Err(e)) => assert_eq!(e, "ydotool is required: sudo apt install ydotool"),
        _ => panic!("expected failure"),
    }
}

#[test]
fn ready_starts_service_and_polls() {
    let mut phase = ReadyPhase::NotStarted;
    ensure_ydotool_ready(&mut phase, ReadyEvent::Started);
    ensure_ydotool_ready(&mut phase, ReadyEvent::Ran(exited(true, "", "")));
    let a = ensure_ydotool_ready(&mut phase, ReadyEvent::SocketChecked { exists: false });
    assert_eq!(
        run_cmd(&a),
        (vec!["systemctl", "--user", "reset-failed", "ydotool.service"].iter().map(|s| s.to_string()).collect(), false)
    );
    let a = ensure_ydotool_ready(&mut phase, ReadyEvent::Ran(exited(false, "", "")));
    assert_eq!(
        run_cmd(&a),
        (vec!["systemctl", "--user", "start", "ydotool.service"].iter().map(|s| s.to_string()).collect(), true)
    );
    let a = ensure_ydotool_ready(&mut phase, ReadyEvent::Ran(exited(true, "", "")));
    assert!(matches!(a, ReadyAction::CheckSocket));
    let mut looks = 1;
    loop {
        match ensure_ydotool_ready(&mut phase, ReadyEvent::SocketChecked { exists: false }) {
            ReadyAction::Sleep { millis } => assert_eq!(millis, 100),
            _ => panic!("expected sleep"),
        }
        match ensure_ydotool_ready(&mut phase, ReadyEvent::Slept) {
            ReadyAction::CheckSocket => looks += 1,
            ReadyAction::Finish(Err(e)) => {
                assert!(e.starts_with("ydotool.service started but no socket appeared."));
                break;
            }
            _ => panic!("unexpected"),
        }
    }
    assert_eq!(looks, 10);
    assert_eq!(phase, ReadyPhase::Done);
}

#[test]
fn ready_reports_service_failure() {
    let mut phase = ReadyPhase::StartingService;
    match ensure_ydotool_ready(&mut phase, ReadyEvent::Ran(exited(false, "", "Unit not found.\n"))) {
        ReadyAction::Finish(Err(e)) => assert_eq!(e, "failed to start ydotool.service: Unit not found."),
        _ => panic!("expected failure"),
    }
    let mut phase = ReadyPhase::StartingService;
    match ensure_ydotool_ready(&mut phase, ReadyEvent::Ran(CommandOutcome::NotStarted("no systemctl".to_string()))) {
        ReadyAction::Finish(Err(e)) => assert_eq!(e, "failed to start ydotool.service: no systemctl"),
        _ => panic!("expected failure"),
    }
    let mut phase = ReadyPhase::Polling { attempt: 3 };
    assert!(matches!(
        ensure_ydotool_ready(&mut phase, ReadyEvent::SocketChecked { exists: true }),
        ReadyAction::Finish(Ok(()))
    ));
    let mut phase = ReadyPhase::Done;
    assert!(matches!(ensure_ydotool_ready(&mut phase, ReadyEvent::Slept), ReadyAction::Nothing));
}
