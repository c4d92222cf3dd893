use vigilant::cmd::{CmdOutput, DiffError, HeaderError};
use vigilant::runner::{capture, split_command, RawCapture, RunError};

fn ok_capture(stdout: &[u8]) -> Result<RawCapture, String> {
    Ok(RawCapture { stdout: stdout.to_vec(), exit_ok: true })
}

fn failed_capture(stdout: &[u8]) -> Result<RawCapture, String> {
    Ok(RawCapture { stdout: stdout.to_vec(), exit_ok: false })
}

#[test]
fn new_captures_initial_lines() {
    let co = CmdOutput::new("printf ab", ok_capture(b"A\nB")).unwrap();
    assert_eq!(co.output, vec!["A".to_string(), "B".to_string()]);
    assert_eq!(co.cmdline, "printf ab".to_string());
}

#[test]
fn new_trims_trailing_newline_like_lines_does() {
    let co = CmdOutput::new("echo", ok_capture(b"x\ny\n")).unwrap();
    assert_eq!(co.output, vec!["x".to_string(), "y".to_string()]);
}

#[test]
fn new_decodes_invalid_utf8_lossily() {
    let co = CmdOutput::new("cat file", ok_capture(b"A\xFF")).unwrap();
    assert_eq!(co.output, vec!["A\u{FFFD}".to_string()]);
}

#[test]
fn new_with_empty_stdout_has_no_lines() {
    let co = CmdOutput::new("true", ok_capture(b"")).unwrap();
    assert!(co.output.is_empty());
}

#[test]
fn new_rejects_empty_command_line() {
    let r = CmdOutput::new("", ok_capture(b"A"));
    assert!(matches!(r, Err(RunError::NoCommand)));
}

#[test]
fn new_rejects_whitespace_only_command_line() {
    let r = CmdOutput::new("   \t ", ok_capture(b"A"));
    assert!(matches!(r, Err(RunError::NoCommand)));
}

#[test]
fn new_reports_nonzero_exit() {
    let r = CmdOutput::new("false", failed_capture(b""));
    assert!(matches!(r, Err(RunError::NonZeroExit)));
}

#[test]
fn new_reports_spawn_failure_with_cause() {
    let r = CmdOutput::new("nosuchbinary", Err("entity not found".to_string()));
    assert_eq!(r.err(), Some(RunError::SpawnFailed("entity not found".to_string())));
}

#[test]
fn drain_yields_lines_in_order_then_none() {
    let mut co = CmdOutput::new("echo", ok_capture(b"one\ntwo\nthree")).unwrap();
    assert_eq!(co.next(), Some("one".to_string()));
    assert_eq!(co.next(), Some("two".to_string()));
    assert_eq!(co.next(), Some("three".to_string()));
    assert_eq!(co.next(), None);
    assert_eq!(co.next(), None);
}

#[test]
fn update_with_identical_lines_changes_nothing_and_resets_cursor() {
    let mut co = CmdOutput::new("echo", ok_capture(b"a\nb")).unwrap();
    assert_eq!(co.next(), Some("a".to_string()));
    let changed = co.update_lines(vec!["a".to_string(), "b".to_string()]).unwrap();
    assert_eq!(changed, Vec::<usize>::new());
    // The cursor went back to the start even though nothing changed.
    assert_eq!(co.next(), Some("a".to_string()));
}

#[test]
fn update_reports_changed_indices_in_ascending_order() {
    let mut co = CmdOutput::new("echo", ok_capture(b"l0\nl1\nl2\nl3\nl4\nl5")).unwrap();
    let fresh = vec![
        "l0".to_string(),
        "l1".to_string(),
        "x2".to_string(),
        "l3".to_string(),
        "l4".to_string(),
        "x5".to_string(),
    ];
    let changed = co.update_lines(fresh.clone()).unwrap();
    assert_eq!(changed, vec![2, 5]);
    assert_eq!(co.output, fresh);
}

#[test]
fn update_with_shorter_capture_fails_and_preserves_lines() {
    let mut co = CmdOutput::new("echo", ok_capture(b"a\nb\nc")).unwrap();
    let before = co.output.clone();
    let r = co.update_lines(vec!["a".to_string(), "b".to_string()]);
    assert_eq!(r, Err(DiffError::ShorterOutput));
    assert_eq!(co.output, before);
}

#[test]
fn update_ignores_extra_trailing_lines() {
    let mut co = CmdOutput::new("echo", ok_capture(b"a\nb")).unwrap();
    let changed = co
        .update_lines(vec!["a".to_string(), "c".to_string(), "d".to_string()])
        .unwrap();
    assert_eq!(changed, vec![1]);
    assert_eq!(co.output, vec!["a".to_string(), "c".to_string()]);
}

#[test]
fn detect_header_on_all_caps_line() {
    let mut co = CmdOutput::new("ps", ok_capture(b"NAME AGE COUNTRY\nalice 30 US")).unwrap();
    let headers = co.get_headers().unwrap();
    assert_eq!(
        headers,
        vec!["NAME".to_string(), "AGE".to_string(), "COUNTRY".to_string()]
    );
}

#[test]
fn detect_header_tolerates_digits_and_punctuation() {
    let mut co = CmdOutput::new("ps", ok_capture(b"PID %CPU TTY-2\nrow")).unwrap();
    let headers = co.get_headers().unwrap();
    assert_eq!(
        headers,
        vec!["PID".to_string(), "%CPU".to_string(), "TTY-2".to_string()]
    );
}

#[test]
fn detect_header_rejects_lowercase_line() {
    let mut co = CmdOutput::new("ps", ok_capture(b"Name Age\nrow")).unwrap();
    let r = co.get_headers();
    assert_eq!(r, Err(HeaderError::NotAllCaps));
}

#[test]
fn detect_header_rejects_empty_output() {
    let mut co = CmdOutput::new("true", ok_capture(b"")).unwrap();
    let r = co.get_headers();
    assert_eq!(r, Err(HeaderError::NoOutput));
}

#[test]
fn end_to_end_second_poll_updates_one_line() {
    let mut co = CmdOutput::new("echo", ok_capture(b"A\nB")).unwrap();
    assert_eq!(co.output, vec!["A".to_string(), "B".to_string()]);
    let fresh = co.execute(ok_capture(b"A\nC")).unwrap();
    let changed = co.update_lines(fresh).unwrap();
    assert_eq!(changed, vec![1]);
    assert_eq!(co.output, vec!["A".to_string(), "C".to_string()]);
}

#[test]
fn failed_poll_leaves_lines_untouched() {
    let mut co = CmdOutput::new("echo", ok_capture(b"A\nB")).unwrap();
    let before = co.output.clone();
    let r = co.execute(failed_capture(b"garbage"));
    assert_eq!(r, Err(RunError::NonZeroExit));
    assert_eq!(co.output, before);
}

#[test]
fn failed_spawn_on_poll_reports_cause() {
    let mut co = CmdOutput::new("echo", ok_capture(b"A")).unwrap();
    let r = co.execute(Err("permission denied".to_string()));
    assert_eq!(r, Err(RunError::SpawnFailed("permission denied".to_string())));
    assert_eq!(co.output, vec!["A".to_string()]);
}

#[test]
fn command_name_is_first_token() {
    let co = CmdOutput::new("watch -n 1", ok_capture(b"")).unwrap();
    assert_eq!(co.command_name().as_str(), "watch");
}

#[test]
fn get_output_line_in_and_out_of_bounds() {
    let co = CmdOutput::new("echo", ok_capture(b"a\nb")).unwrap();
    assert_eq!(co.clone().get_output_line(1), Some("b".to_string()));
    assert_eq!(co.get_output_line(2), None);
}

#[test]
fn line_at_borrows_the_line() {
    let co = CmdOutput::new("echo", ok_capture(b"a\nb")).unwrap();
    assert_eq!(co.line_at(0).as_str(), "a");
}

#[test]
fn split_command_tokenizes_on_any_whitespace() {
    let toks = split_command("  echo   a \t b ").unwrap();
    assert_eq!(toks, vec!["echo".to_string(), "a".to_string(), "b".to_string()]);
}

#[test]
fn split_command_rejects_blank_input() {
    assert!(matches!(split_command(""), Err(RunError::NoCommand)));
    assert!(matches!(split_command(" \t "), Err(RunError::NoCommand)));
}

#[test]
fn capture_splits_lines_and_stamps_time() {
    let cap = capture(ok_capture(b"x\ny\n")).unwrap();
    assert_eq!(cap.lines, vec!["x".to_string(), "y".to_string()]);
}

#[test]
fn capture_surfaces_both_failure_kinds() {
    assert!(matches!(capture(failed_capture(b"x")), Err(RunError::NonZeroExit)));
    assert_eq!(
        capture(Err("boom".to_string())).err(),
        Some(RunError::SpawnFailed("boom".to_string()))
    );
}
