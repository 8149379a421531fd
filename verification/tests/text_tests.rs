use jumpbox_typer::command::command_stderr;
use jumpbox_typer::text::{decimal_string, split_whitespace};

#[test]
fn decimal_rendering() {
    assert_eq!(decimal_string(0), "0");
    assert_eq!(decimal_string(7), "7");
    assert_eq!(decimal_string(10), "10");
    assert_eq!(decimal_string(1234567890), "1234567890");
    assert_eq!(decimal_string(u128::MAX), u128::MAX.to_string());
}

#[test]
fn words_of_text() {
    assert_eq!(split_whitespace("  adm  input\tsudo\n"), vec!["adm", "input", "sudo"]);
    assert_eq!(split_whitespace(""), Vec::<String>::new());
    assert_eq!(split_whitespace(" \u{a0} "), Vec::<String>::new());
    assert_eq!(split_whitespace("one"), vec!["one"]);
}

#[test]
fn stderr_summary() {
    assert_eq!(command_stderr("  line one\nline two \n", "exit status: 1"), "line one line two");
    assert_eq!(command_stderr(" \n\t", "exit status: 3"), "exit status: 3");
    assert_eq!(command_stderr("", "signal: 9"), "signal: 9");
}

/// The summary of a non-blank error output has no line break.
#[test]
fn stderr_summary_is_one_line() {
    for s in ["a\nb\nc", "\nx\n", "x\r\ny"] {
        assert!(!command_stderr(s, "status").contains('\n'));
    }
}
