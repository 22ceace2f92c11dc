use foundry_server::command::{command_result, CommandError, ProcessOutput};

fn finished(success: bool, code: Option<i32>, stdout: &[u8], stderr: &[u8]) -> ProcessOutput {
    ProcessOutput { success, code, stdout: stdout.to_vec(), stderr: stderr.to_vec() }
}

#[test]
fn launch_failure_carries_command_and_args() {
    let r = command_result("no-such-program", &["--flag", "value"], None);
    match r {
        Err(CommandError::LaunchFailure { command, args }) => {
            assert_eq!(command, "no-such-program");
            assert_eq!(args, vec!["--flag".to_string(), "value".to_string()]);
        }
        Ok(s) => panic!("expected a launch failure, got {:?}", s),
    }
}

#[test]
fn launch_failure_without_args() {
    let r = command_result("missing", &[], None);
    assert!(matches!(r, Err(CommandError::LaunchFailure { ref args, .. }) if args.is_empty()));
}

#[test]
fn false_command_yields_empty_stdout() {
    let r = command_result("false", &[], Some(finished(false, Some(1), b"", b"")));
    assert_eq!(r.unwrap(), "");
}

#[test]
fn non_zero_exit_still_returns_stdout() {
    let r = command_result(
        "sh",
        &["-c", "echo out; echo err >&2; exit 3"],
        Some(finished(false, Some(3), b"out\n", b"err\n")),
    );
    assert_eq!(r.unwrap(), "out\n");
}

#[test]
fn killed_child_still_returns_stdout() {
    let r = command_result("sleep", &["100"], Some(finished(false, None, b"partial", b"")));
    assert_eq!(r.unwrap(), "partial");
}

#[test]
fn successful_command_returns_stdout() {
    let r = command_result("echo", &["hello"], Some(finished(true, Some(0), b"hello\n", b"")));
    assert_eq!(r.unwrap(), "hello\n");
}

#[test]
fn multibyte_stdout_is_decoded() {
    let r = command_result("cat", &[], Some(finished(true, Some(0), "h\u{e9}llo \u{1F600}".as_bytes(), b"")));
    assert_eq!(r.unwrap(), "h\u{e9}llo \u{1F600}");
}

#[test]
fn invalid_utf8_is_replaced() {
    let r = command_result("cat", &[], Some(finished(true, Some(0), &[0x66, 0xff, 0x6f], b"")));
    assert_eq!(r.unwrap(), "f\u{FFFD}o");
}
