use assert_cmd::Assert;
use assert_cmd::EqBytes;
use assert_cmd::EqCode;
use assert_cmd::Matcher;
use assert_cmd::Output;
use assert_cmd::OutputAssertExt;

fn completed(code: i32, stdout: &[u8], stderr: &[u8]) -> Output {
    Output {
        exit_code: Some(code),
        succeeded: code == 0,
        stdout: stdout.to_vec(),
        stderr: stderr.to_vec(),
    }
}

fn signaled() -> Output {
    Output { exit_code: None, succeeded: false, stdout: vec![], stderr: vec![] }
}

fn eq_bytes(expected: &[u8]) -> EqBytes {
    EqBytes { expected: expected.to_vec() }
}

#[test]
fn success_passes_on_succeeded() {
    let r = Assert::new(completed(0, b"", b"")).success();
    assert!(r.is_ok());
}

#[test]
fn failure_halts_on_succeeded() {
    let r = Assert::new(completed(0, b"", b"")).failure();
    let m = r.err().unwrap();
    assert!(m.contains("Unexpected success"));
}

#[test]
fn failure_passes_on_failed() {
    let r = Assert::new(completed(3, b"", b"")).failure();
    assert!(r.is_ok());
}

#[test]
fn success_halts_on_failed() {
    let m = Assert::new(completed(3, b"", b"")).success().err().unwrap();
    assert!(m.contains("Unexpected failure"));
}

#[test]
fn interrupted_passes_without_exit_code() {
    let r = Assert::new(signaled()).interrupted();
    assert!(r.is_ok());
}

#[test]
fn interrupted_halts_on_completion() {
    let m = Assert::new(completed(0, b"", b"")).interrupted().err().unwrap();
    assert!(m.contains("Unexpected completion"));
}

#[test]
fn code_halts_without_exit_code_whatever_the_matcher() {
    let m = Assert::new(signaled()).code(&EqCode { expected: 0 }).err().unwrap();
    assert!(m.contains("Command interrupted"));
    let m2 = Assert::new(signaled()).code(&EqCode { expected: 1 }).err().unwrap();
    assert!(m2.contains("Command interrupted"));
}

#[test]
fn stdout_passes_iff_matcher_accepts() {
    let ok = Assert::new(completed(0, b"hello", b"")).stdout(&eq_bytes(b"hello"));
    assert!(ok.is_ok());
    let m = Assert::new(completed(0, b"hello", b"")).stdout(&eq_bytes(b"nope")).err().unwrap();
    assert!(m.contains("Unexpected stdout"));
}

#[test]
fn stderr_passes_iff_matcher_accepts() {
    let ok = Assert::new(completed(0, b"", b"world")).stderr(&eq_bytes(b"world"));
    assert!(ok.is_ok());
    let m = Assert::new(completed(0, b"", b"world")).stderr(&eq_bytes(b"nope")).err().unwrap();
    assert!(m.contains("Unexpected stderr"));
}

#[test]
fn set_cmd_last_value_wins() {
    let a = Assert::new(completed(0, b"", b""))
        .set_cmd(String::from("first"))
        .set_cmd(String::from("second"));
    let envelope = a.render();
    assert!(envelope.contains("command=`second`"));
    assert!(!envelope.contains("first"));
}

#[test]
fn set_stdin_last_value_wins() {
    let a = Assert::new(completed(0, b"", b""))
        .set_stdin(b"one".to_vec())
        .set_stdin(b"two".to_vec());
    let envelope = a.render();
    assert!(envelope.contains("stdin=```two```"));
    assert!(!envelope.contains("one"));
}

#[test]
fn failure_message_carries_the_envelope() {
    let m = Assert::new(completed(7, b"out", b"err"))
        .set_cmd(String::from("tool --flag"))
        .set_stdin(b"fed".to_vec())
        .success()
        .err()
        .unwrap();
    assert!(m.contains("Unexpected failure"));
    assert!(m.contains("command=`tool --flag`"));
    assert!(m.contains("stdin=```fed```"));
    assert!(m.contains("code=7"));
    assert!(m.contains("stdout=```out```"));
    assert!(m.contains("stderr=```err```"));
}

#[test]
fn get_output_peeks_without_consuming() {
    let a = Assert::new(completed(5, b"x", b"y"));
    let o = a.get_output();
    assert_eq!(o.exit_code, Some(5));
    assert!(!o.succeeded);
    assert_eq!(o.stdout, b"x".to_vec());
    assert_eq!(o.stderr, b"y".to_vec());
    assert!(a.failure().is_ok());
}

#[test]
fn into_assert_wraps_without_context() {
    let a = completed(0, b"", b"").into_assert();
    let envelope = a.render();
    assert!(!envelope.contains("command="));
    assert!(!envelope.contains("stdin="));
    assert!(a.success().is_ok());
}

#[test]
fn matchers_decide_as_stated() {
    assert!(EqCode { expected: 42 }.matches(&42));
    assert!(!EqCode { expected: 42 }.matches(&41));
    assert!(eq_bytes(b"ab").matches(&b"ab".to_vec()));
    assert!(!eq_bytes(b"ab").matches(&b"abc".to_vec()));
    assert!(!eq_bytes(b"ab").matches(&b"aB".to_vec()));
}

#[test]
fn scenario_clean_exit() {
    let r = Assert::new(completed(0, b"", b"")).success();
    assert!(r.is_ok());
    let r = Assert::new(completed(0, b"", b"")).code(&EqCode { expected: 0 });
    assert!(r.is_ok());
}

#[test]
fn scenario_exit_code_42() {
    let m = Assert::new(completed(42, b"", b"")).success().err().unwrap();
    assert!(m.contains("Unexpected failure"));
    let r = Assert::new(completed(42, b"", b"")).code(&EqCode { expected: 42 });
    assert!(r.is_ok());
    let m = Assert::new(completed(42, b"", b"")).code(&EqCode { expected: 1 }).err().unwrap();
    assert!(m.contains("Unexpected return code"));
}

#[test]
fn scenario_stream_contents() {
    let r = Assert::new(completed(0, b"hello", b"world"))
        .stdout(&eq_bytes(b"hello"))
        .and_then(|a| a.stderr(&eq_bytes(b"world")));
    assert!(r.is_ok());
    let m = Assert::new(completed(0, b"hello", b"world"))
        .stdout(&eq_bytes(b"nope"))
        .err()
        .unwrap();
    assert!(m.contains("Unexpected stdout"));
    assert!(m.contains("hello"));
}

#[test]
fn scenario_terminated_by_signal() {
    let r = Assert::new(signaled()).interrupted();
    assert!(r.is_ok());
    let m = Assert::new(signaled()).code(&EqCode { expected: 0 }).err().unwrap();
    assert!(m.contains("Command interrupted"));
}
