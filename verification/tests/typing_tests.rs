use jumpbox_typer::command::CommandOutcome;
use jumpbox_typer::types::{KeyboardLayout, UiEvent};
use jumpbox_typer::typing::{
    finish_stopped, key_arg_string, key_sequence, key_sequence_with_mods, letter_sequence,
    norwegian_sequence, pause_for, run_typing, send_sequence, sleep_step, type_char,
    type_char_result, us_sequence, SleepStep, TypingAction, TypingEvent, TypingPhase, TypingRun,
};

fn strs(v: &[&str]) -> Vec<String> {
    v.iter().map(|s| s.to_string()).collect()
}

fn ok_outcome() -> CommandOutcome {
    CommandOutcome::Exited {
        success: true,
        status: "exit status: 0".to_string(),
        stdout: String::new(),
        stderr: String::new(),
    }
}

#[test]
fn key_arg_renders_keycode_and_state() {
    assert_eq!(key_arg_string(28, true), "28:1");
    assert_eq!(key_arg_string(0, false), "0:0");
    assert_eq!(key_arg_string(4294967295, true), "4294967295:1");
}

#[test]
fn key_sequence_with_all_modifiers_nests_them() {
    assert_eq!(
        key_sequence_with_mods(18, true, true),
        strs(&["100:1", "42:1", "18:1", "18:0", "42:0", "100:0"])
    );
    assert_eq!(key_sequence_with_mods(3, false, true), strs(&["100:1", "3:1", "3:0", "100:0"]));
    assert_eq!(key_sequence(30, true), strs(&["42:1", "30:1", "30:0", "42:0"]));
    assert_eq!(letter_sequence(30, false), strs(&["30:1", "30:0"]));
}

#[test]
fn us_layout_sequences() {
    assert_eq!(us_sequence('\n'), Some(strs(&["28:1", "28:0"])));
    assert_eq!(us_sequence('\t'), Some(strs(&["15:1", "15:0"])));
    assert_eq!(us_sequence(' '), Some(strs(&["57:1", "57:0"])));
    assert_eq!(us_sequence('a'), Some(strs(&["30:1", "30:0"])));
    assert_eq!(us_sequence('A'), Some(strs(&["42:1", "30:1", "30:0", "42:0"])));
    assert_eq!(us_sequence('0'), Some(strs(&["11:1", "11:0"])));
    assert_eq!(us_sequence('?'), Some(strs(&["42:1", "12:1", "12:0", "42:0"])));
    assert_eq!(us_sequence('/'), Some(strs(&["86:1", "86:0"])));
    assert_eq!(us_sequence('å'), None);
    assert_eq!(us_sequence('€'), None);
}

#[test]
fn norwegian_layout_sequences() {
    assert_eq!(norwegian_sequence('a'), Some(strs(&["30:1", "30:0"])));
    assert_eq!(norwegian_sequence('Z'), Some(strs(&["42:1", "44:1", "44:0", "42:0"])));
    assert_eq!(norwegian_sequence('@'), Some(strs(&["100:1", "3:1", "3:0", "100:0"])));
    assert_eq!(norwegian_sequence('Å'), Some(strs(&["42:1", "26:1", "26:0", "42:0"])));
    assert_eq!(norwegian_sequence('€'), Some(strs(&["100:1", "18:1", "18:0", "100:0"])));
    assert_eq!(norwegian_sequence('"'), Some(strs(&["42:1", "3:1", "3:0", "42:0"])));
    assert_eq!(norwegian_sequence('é'), None);
}

#[test]
fn type_char_uses_key_or_type() {
    assert_eq!(type_char('\n', KeyboardLayout::Us), strs(&["key", "28:1", "28:0"]));
    assert_eq!(
        type_char('{', KeyboardLayout::Norwegian),
        strs(&["key", "100:1", "8:1", "8:0", "100:0"])
    );
    assert_eq!(type_char('é', KeyboardLayout::Norwegian), strs(&["type", "é"]));
    assert_eq!(send_sequence(None, 'x'), strs(&["type", "x"]));
    assert_eq!(send_sequence(Some(strs(&["1:1"])), 'x'), strs(&["key", "1:1"]));
}

#[test]
fn type_char_result_maps_failures() {
    assert_eq!(type_char_result(&ok_outcome()), Ok(()));
    assert_eq!(
        type_char_result(&CommandOutcome::NotStarted("No such file or directory".to_string())),
        Err("failed to run ydotool: No such file or directory".to_string())
    );
    assert_eq!(
        type_char_result(&CommandOutcome::Exited {
            success: false,
            status: "exit status: 1".to_string(),
            stdout: String::new(),
            stderr: " socket\nmissing \n".to_string(),
        }),
        Err("ydotool exited with exit status: 1: socket missing".to_string())
    );
    assert_eq!(
        type_char_result(&CommandOutcome::Exited {
            success: false,
            status: "exit status: 2".to_string(),
            stdout: String::new(),
            stderr: "  ".to_string(),
        }),
        Err("ydotool exited with exit status: 2: exit status: 2".to_string())
    );
}

#[test]
fn finish_stopped_reports_counts() {
    match finish_stopped(3, 10) {
        UiEvent::Finished { status, done, total } => {
            assert_eq!(status, "Stopped after 3 of 10 characters.");
            assert_eq!((done, total), (3, 10));
        }
        other => panic!("unexpected {other:?}"),
    }
}

#[test]
fn pause_after_enter_only_when_longer() {
    assert_eq!(pause_for('\n', 100, 500), 500);
    assert_eq!(pause_for('\n', 600, 500), 600);
    assert_eq!(pause_for('a', 100, 500), 100);
}

#[test]
fn sleep_step_decides() {
    assert_eq!(sleep_step(true, 5), SleepStep::Cancelled);
    assert_eq!(sleep_step(true, 0), SleepStep::Cancelled);
    assert_eq!(sleep_step(false, 0), SleepStep::Elapsed);
    assert_eq!(
        sleep_step(false, 50),
        SleepStep::Sleep { remaining_nanos: 50, sleep_nanos: 50 }
    );
    assert_eq!(
        sleep_step(false, 250_000_000),
        SleepStep::Sleep { remaining_nanos: 250_000_000, sleep_nanos: 100_000_000 }
    );
}

fn new_run(text: &str, layout: KeyboardLayout) -> TypingRun {
    TypingRun::new(text.chars().collect(), layout, 1000, 10, 50)
}

#[test]
fn run_types_every_character_in_order() {
    let mut run = new_run("a\nB", KeyboardLayout::Us);
    match run_typing(&mut run, TypingEvent::Started) {
        TypingAction::Wait { nanos, countdown } => assert_eq!((nanos, countdown), (1000, true)),
        _ => panic!("expected countdown"),
    }
    assert_eq!(run.phase, TypingPhase::Countdown);
    assert!(matches!(run_typing(&mut run, TypingEvent::Waited { cancelled: false }), TypingAction::CheckCancel));
    let expected = [
        (strs(&["key", "30:1", "30:0"]), 10u64),
        (strs(&["key", "28:1", "28:0"]), 50u64),
        (strs(&["key", "42:1", "48:1", "48:0", "42:0"]), 10u64),
    ];
    for (i, (args, pause)) in expected.iter().enumerate() {
        match run_typing(&mut run, TypingEvent::CancelChecked { cancelled: false }) {
            TypingAction::Send(a) => assert_eq!(&a, args),
            _ => panic!("expected send"),
        }
        assert_eq!(run.phase, TypingPhase::Sending { index: i });
        match run_typing(&mut run, TypingEvent::Sent(ok_outcome())) {
            TypingAction::Wait { nanos, countdown } => assert_eq!((nanos, countdown), (*pause, false)),
            _ => panic!("expected pause"),
        }
        let next = run_typing(&mut run, TypingEvent::Waited { cancelled: false });
        if i + 1 < 3 {
            assert!(matches!(next, TypingAction::CheckCancel));
        } else {
            match next {
                TypingAction::Report(UiEvent::Progress { done, total, status }) => {
                    assert_eq!((done, total), (3, 3));
                    assert_eq!(status, "Typing 3 of 3 characters...");
                }
                _ => panic!("expected progress"),
            }
        }
    }
    match run_typing(&mut run, TypingEvent::Reported) {
        TypingAction::Finish(UiEvent::Finished { status, done, total }) => {
            assert_eq!(status, "Done. Typed 3 characters.");
            assert_eq!((done, total), (3, 3));
        }
        _ => panic!("expected finish"),
    }
    assert!(run.is_done());
    assert!(matches!(run_typing(&mut run, TypingEvent::Reported), TypingAction::Nothing));
    assert_eq!(run.phase, TypingPhase::Done { done: 3 });
}

#[test]
fn run_of_empty_text_finishes_after_countdown() {
    let mut run = new_run("", KeyboardLayout::Norwegian);
    run_typing(&mut run, TypingEvent::Started);
    match run_typing(&mut run, TypingEvent::Waited { cancelled: false }) {
        TypingAction::Finish(UiEvent::Finished { status, done, total }) => {
            assert_eq!(status, "Done. Typed 0 characters.");
            assert_eq!((done, total), (0, 0));
        }
        _ => panic!("expected finish"),
    }
}

#[test]
fn run_cancelled_in_countdown_stops_at_zero() {
    let mut run = new_run("hello", KeyboardLayout::Us);
    run_typing(&mut run, TypingEvent::Started);
    match run_typing(&mut run, TypingEvent::Waited { cancelled: true }) {
        TypingAction::Finish(UiEvent::Finished { status, done, total }) => {
            assert_eq!(status, "Stopped after 0 of 5 characters.");
            assert_eq!((done, total), (0, 5));
        }
        _ => panic!("expected stop"),
    }
}

#[test]
fn run_cancelled_before_and_during_pause() {
    let mut run = new_run("hello", KeyboardLayout::Us);
    run_typing(&mut run, TypingEvent::Started);
    run_typing(&mut run, TypingEvent::Waited { cancelled: false });
    run_typing(&mut run, TypingEvent::CancelChecked { cancelled: false });
    run_typing(&mut run, TypingEvent::Sent(ok_outcome()));
    match run_typing(&mut run, TypingEvent::Waited { cancelled: true }) {
        TypingAction::Finish(UiEvent::Finished { status, done, .. }) => {
            assert_eq!(status, "Stopped after 1 of 5 characters.");
            assert_eq!(done, 1);
        }
        _ => panic!("expected stop"),
    }

    let mut run = new_run("hello", KeyboardLayout::Us);
    run_typing(&mut run, TypingEvent::Started);
    run_typing(&mut run, TypingEvent::Waited { cancelled: false });
    match run_typing(&mut run, TypingEvent::CancelChecked { cancelled: true }) {
        TypingAction::Finish(UiEvent::Finished { status, .. }) => {
            assert_eq!(status, "Stopped after 0 of 5 characters.")
        }
        _ => panic!("expected stop"),
    }
}

#[test]
fn run_ends_on_send_error() {
    let mut run = new_run("hi", KeyboardLayout::Us);
    run_typing(&mut run, TypingEvent::Started);
    run_typing(&mut run, TypingEvent::Waited { cancelled: false });
    run_typing(&mut run, TypingEvent::CancelChecked { cancelled: false });
    match run_typing(&mut run, TypingEvent::Sent(CommandOutcome::NotStarted("denied".to_string()))) {
        TypingAction::Finish(UiEvent::Finished { status, done, total }) => {
            assert_eq!(status, "Error: failed to run ydotool: denied");
            assert_eq!((done, total), (0, 2));
        }
        _ => panic!("expected error"),
    }
}

#[test]
fn run_reports_progress_every_25_characters() {
    let text: String = "x".repeat(30);
    let mut run = new_run(&text, KeyboardLayout::Us);
    run_typing(&mut run, TypingEvent::Started);
    run_typing(&mut run, TypingEvent::Waited { cancelled: false });
    let mut reports = Vec::new();
    loop {
        let action = match run.phase {
            TypingPhase::CheckingCancel { .. } => run_typing(&mut run, TypingEvent::CancelChecked { cancelled: false }),
            TypingPhase::Sending { .. } => run_typing(&mut run, TypingEvent::Sent(ok_outcome())),
            TypingPhase::Pausing { .. } => run_typing(&mut run, TypingEvent::Waited { cancelled: false }),
            TypingPhase::Reporting { .. } => run_typing(&mut run, TypingEvent::Reported),
            _ => break,
        };
        if let TypingAction::Report(UiEvent::Progress { done, .. }) = action {
            reports.push(done);
        }
    }
    assert_eq!(reports, vec![25, 30]);
    assert_eq!(run.phase, TypingPhase::Done { done: 30 });
}

#[test]
fn run_ignores_events_that_do_not_fit() {
    let mut run = new_run("a", KeyboardLayout::Us);
    assert!(matches!(run_typing(&mut run, TypingEvent::Reported), TypingAction::Nothing));
    assert_eq!(run.phase, TypingPhase::NotStarted);
    run_typing(&mut run, TypingEvent::Started);
    assert!(matches!(run_typing(&mut run, TypingEvent::Sent(ok_outcome())), TypingAction::Nothing));
    assert_eq!(run.phase, TypingPhase::Countdown);
}

/// Typing any character never leaves a key held down.
#[test]
fn every_sequence_releases_what_it_presses() {
    let chars: Vec<char> = (0u32..0x3000).filter_map(char::from_u32).collect();
    for layout in [KeyboardLayout::Us, KeyboardLayout::Norwegian] {
        for &c in &chars {
            let seq = match layout {
                KeyboardLayout::Us => us_sequence(c),
                KeyboardLayout::Norwegian => norwegian_sequence(c),
            };
            if let Some(seq) = seq {
                assert_eq!(seq.len() % 2, 0);
                let n = seq.len();
                for i in 0..n / 2 {
                    let (k, s) = seq[i].split_once(':').unwrap();
                    assert_eq!(s, "1");
                    assert_eq!(seq[n - 1 - i], format!("{k}:0"));
                }
            }
        }
    }
}

/// Upper-case letters use the lower-case key with Shift.
#[test]
fn upper_case_letter_is_shifted_key() {
    for c in 'a'..='z' {
        let upper = c.to_ascii_uppercase();
        let lower_keys = us_sequence(c).unwrap();
        assert_eq!(us_sequence(upper).unwrap(), [vec!["42:1".to_string()], lower_keys, vec!["42:0".to_string()]].concat());
        let lower_keys = norwegian_sequence(c).unwrap();
        assert_eq!(norwegian_sequence(upper).unwrap(), [vec!["42:1".to_string()], lower_keys, vec!["42:0".to_string()]].concat());
    }
}

#[test]
fn us_quotes_and_asterisk_have_their_own_keys() {
    assert_eq!(us_sequence('\''), Some(strs(&["40:1", "40:0"])));
    assert_eq!(us_sequence('"'), Some(strs(&["42:1", "40:1", "40:0", "42:0"])));
    assert_eq!(us_sequence('*'), Some(strs(&["42:1", "9:1", "9:0", "42:0"])));
    assert_eq!(us_sequence('\\'), Some(strs(&["43:1", "43:0"])));
}

/// Different characters never get the same keystrokes.
#[test]
fn distinct_characters_get_distinct_keystrokes() {
    let chars: Vec<char> = (0u32..0x3000).filter_map(char::from_u32).collect();
    for layout in [KeyboardLayout::Us, KeyboardLayout::Norwegian] {
        let mut seen = std::collections::HashMap::new();
        for &c in &chars {
            let seq = match layout {
                KeyboardLayout::Us => us_sequence(c),
                KeyboardLayout::Norwegian => norwegian_sequence(c),
            };
            if let Some(seq) = seq {
                if let Some(other) = seen.insert(seq.clone(), c) {
                    panic!("{other:?} and {c:?} share {seq:?}");
                }
            }
        }
    }
}

/// A whole run sends exactly one finishing event, last, with progress counts rising.
#[test]
fn whole_run_finishes_once_and_last() {
    let text: String = "ab\ncd".repeat(20);
    let mut run = new_run(&text, KeyboardLayout::Norwegian);
    let mut event = TypingEvent::Started;
    let mut finishes = 0;
    let mut progress = Vec::new();
    let mut countdowns = 0;
    loop {
        match run_typing(&mut run, event) {
            TypingAction::Wait { countdown, .. } => {
                if countdown { countdowns += 1; }
                event = TypingEvent::Waited { cancelled: false };
            }
            TypingAction::CheckCancel => event = TypingEvent::CancelChecked { cancelled: false },
            TypingAction::Send(_) => event = TypingEvent::Sent(ok_outcome()),
            TypingAction::Report(UiEvent::Progress { done, total, .. }) => {
                assert_eq!(total, 100);
                progress.push(done);
                event = TypingEvent::Reported;
            }
            TypingAction::Finish(UiEvent::Finished { done, total, .. }) => {
                assert_eq!((done, total), (100, 100));
                finishes += 1;
                break;
            }
            _ => panic!("unexpected action"),
        }
    }
    assert_eq!(finishes, 1);
    assert_eq!(countdowns, 1);
    assert_eq!(progress, vec![25, 50, 75, 100]);
    assert!(matches!(run_typing(&mut run, TypingEvent::Reported), TypingAction::Nothing));
}
