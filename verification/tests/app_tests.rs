use jumpbox_typer::app::{
    keybind_action, Buttons, KeybindAction,
    begin_typing, check_summary, check_text, handle_ui_event, keyboard_layout_from_index,
    layout_index_from_saved, layout_label, new_app_state, request_system_check,
};
use jumpbox_typer::command::CommandOutcome;
use jumpbox_typer::ocr::{ocr_finished_event, ocr_image_file_name, ocr_result};
use jumpbox_typer::types::{KeyboardLayout, SystemCheck, SystemCheckItem, UiEvent};

fn check(can_type: bool, can_ocr: bool, all_ok: bool) -> SystemCheck {
    SystemCheck {
        items: vec![
            SystemCheckItem { title: "a".to_string(), ok: true, detail: String::new(), help: String::new() },
            SystemCheckItem { title: "b".to_string(), ok: all_ok, detail: String::new(), help: String::new() },
        ],
        can_type,
        can_ocr,
    }
}

#[test]
fn typing_begins_once() {
    let mut s = new_app_state();
    assert!(begin_typing(&mut s, 12));
    assert!(s.running);
    assert_eq!((s.progress, s.total), (0, 12));
    assert!(!begin_typing(&mut s, 5));
    assert_eq!(s.total, 12);
}

#[test]
fn progress_and_finish_events() {
    let mut s = new_app_state();
    s.can_type = true;
    begin_typing(&mut s, 30);
    let u = handle_ui_event(&mut s, UiEvent::Progress { done: 25, total: 30, status: "Typing 25 of 30 characters...".to_string() });
    assert_eq!(u.progress, Some((25, 30)));
    assert_eq!(u.status.as_deref(), Some("Typing 25 of 30 characters..."));
    assert!(u.start_sensitive.is_none());
    assert_eq!((s.progress, s.total, s.running), (25, 30, true));
    let u = handle_ui_event(&mut s, UiEvent::Finished { status: "Done.".to_string(), done: 30, total: 30 });
    assert!(!s.running);
    assert_eq!(u.start_sensitive, Some(true));
    assert_eq!(u.stop_sensitive, Some(false));
    assert_eq!(u.progress, Some((30, 30)));
}

#[test]
fn status_and_ocr_events() {
    let mut s = new_app_state();
    let u = handle_ui_event(&mut s, UiEvent::Status("Starting in 2.0 seconds.".to_string()));
    assert_eq!(u.status.as_deref(), Some("Starting in 2.0 seconds."));
    assert!(u.progress.is_none());
    let u = handle_ui_event(&mut s, UiEvent::OcrFinished { status: "Inserted 3 OCR characters.".to_string(), text: Some("abc".to_string()) });
    assert_eq!(u.insert_text.as_deref(), Some("abc"));
    assert_eq!(u.ocr_sensitive, Some(false));
}

#[test]
fn system_check_event_updates_buttons() {
    let mut s = new_app_state();
    request_system_check(&mut s);
    let u = handle_ui_event(&mut s, UiEvent::SystemCheckFinished(check(true, true, true)));
    assert_eq!(u.status.as_deref(), Some("Ready to type."));
    assert_eq!(u.start_sensitive, Some(true));
    assert_eq!(u.ocr_sensitive, Some(true));
    assert_eq!(u.check_sensitive, Some(true));
    assert!(u.show_check_popup);
    assert!(u.latest_check.is_some());
    assert!(s.can_type && s.can_ocr && !s.check_popup_pending);

    begin_typing(&mut s, 4);
    let u = handle_ui_event(&mut s, UiEvent::SystemCheckFinished(check(false, false, false)));
    assert_eq!(u.status.as_deref(), Some("Some system checks failed."));
    assert_eq!(u.start_sensitive, Some(false));
    assert!(!u.show_check_popup);
}

#[test]
fn layout_settings() {
    assert_eq!(keyboard_layout_from_index(1), KeyboardLayout::Us);
    assert_eq!(keyboard_layout_from_index(0), KeyboardLayout::Norwegian);
    assert_eq!(keyboard_layout_from_index(7), KeyboardLayout::Norwegian);
    assert_eq!(layout_index_from_saved("US\n"), 1);
    assert_eq!(layout_index_from_saved("Norwegian\n"), 0);
    assert_eq!(layout_index_from_saved("us"), 0);
    assert_eq!(layout_label(1), "US");
    assert_eq!(layout_label(0), "Norwegian");
    for i in [0u32, 1] {
        assert_eq!(layout_index_from_saved(&format!("{}\n", layout_label(i))), i);
    }
}

#[test]
fn text_must_not_be_empty() {
    assert_eq!(check_text(""), Err("Paste or write text before starting.".to_string()));
    assert_eq!(check_text(" "), Ok(()));
}

#[test]
fn summaries() {
    assert_eq!(check_summary(None), "Running system checks...");
    assert_eq!(check_summary(Some(&check(true, true, true))), "Everything looks ready.");
    assert_eq!(check_summary(Some(&check(true, true, false))), "Fix the red items before starting.");
}

#[test]
fn ocr_outcomes() {
    let ok = CommandOutcome::Exited {
        success: true,
        status: "exit status: 0".to_string(),
        stdout: "héllo\n".to_string(),
        stderr: String::new(),
    };
    assert_eq!(ocr_result(ok), Ok("héllo\n".to_string()));
    assert_eq!(
        ocr_result(CommandOutcome::NotStarted("not found".to_string())),
        Err("failed to run tesseract: not found".to_string())
    );
    let bad = CommandOutcome::Exited {
        success: false,
        status: "exit status: 1".to_string(),
        stdout: String::new(),
        stderr: "Error opening data file\n".to_string(),
    };
    assert_eq!(ocr_result(bad), Err("tesseract failed: Error opening data file".to_string()));
}

#[test]
fn ocr_events() {
    match ocr_finished_event(Ok("héllo\n".to_string())) {
        UiEvent::OcrFinished { status, text } => {
            assert_eq!(status, "Inserted 6 OCR characters.");
            assert_eq!(text.as_deref(), Some("héllo\n"));
        }
        _ => panic!(),
    }
    match ocr_finished_event(Ok(" \n ".to_string())) {
        UiEvent::OcrFinished { status, text } => {
            assert_eq!(status, "No text found in clipboard image.");
            assert!(text.is_none());
        }
        _ => panic!(),
    }
    match ocr_finished_event(Err("boom".to_string())) {
        UiEvent::OcrFinished { status, text } => {
            assert_eq!(status, "boom");
            assert!(text.is_none());
        }
        _ => panic!(),
    }
}

#[test]
fn ocr_image_names() {
    assert_eq!(ocr_image_file_name(4242, 1700000000123), "jumpbox-typer-ocr-4242-1700000000123.png");
}

#[test]
fn keybind_starts_when_idle_and_stops_while_typing() {
    let mut s = new_app_state();
    assert_eq!(keybind_action(&s, false), KeybindAction::Ignore);
    assert_eq!(keybind_action(&s, true), KeybindAction::Start);
    begin_typing(&mut s, 3);
    assert_eq!(keybind_action(&s, true), KeybindAction::Stop);
    assert_eq!(keybind_action(&s, false), KeybindAction::Ignore);
}

/// Stop is enabled exactly while a job runs; Start only when idle and typing is possible.
#[test]
fn buttons_follow_running_state() {
    let consistent = |b: Buttons, running: bool, can_type: bool| {
        b.stop == running && (!b.start || (can_type && !running))
    };
    let mut s = new_app_state();
    let mut b = Buttons { start: false, stop: false };
    let apply = |b: &mut Buttons, u: &jumpbox_typer::app::UiUpdate| {
        if let Some(x) = u.start_sensitive { b.start = x; }
        if let Some(x) = u.stop_sensitive { b.stop = x; }
    };
    let u = handle_ui_event(&mut s, UiEvent::SystemCheckFinished(check(true, true, true)));
    apply(&mut b, &u);
    assert!(consistent(b, s.running, s.can_type));
    assert!(begin_typing(&mut s, 2));
    b = Buttons { start: false, stop: true };
    assert!(consistent(b, s.running, s.can_type));
    let u = handle_ui_event(&mut s, UiEvent::SystemCheckFinished(check(true, true, true)));
    apply(&mut b, &u);
    assert!(consistent(b, s.running, s.can_type));
    let u = handle_ui_event(&mut s, UiEvent::Finished { status: String::new(), done: 2, total: 2 });
    apply(&mut b, &u);
    assert!(consistent(b, s.running, s.can_type));
    assert!(b.start && !b.stop);
}
