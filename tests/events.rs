use signalbot::events::{decimal_of, error_event, log_event, stopped_event, StderrLog, NO_EXIT_CODE};

#[test]
fn stderr_lines_are_summed_up() {
    let mut log = StderrLog::new();
    assert!(log.summary().is_none());
    assert_eq!(log.record("a"), "{\"type\":\"log\",\"message\":\"a\"}");
    assert_eq!(log.record("b"), "{\"type\":\"log\",\"message\":\"b\"}");
    let s = log.summary().unwrap();
    assert_eq!(s.event, "{\"type\":\"error\",\"message\":\"a | b\"}");
    assert_eq!(s.last_error, "a\nb");
}

#[test]
fn log_event_escapes_quotes_and_backslashes() {
    assert_eq!(
        log_event("say \"hi\" to C:\\tmp"),
        "{\"type\":\"log\",\"message\":\"say \\\"hi\\\" to C:\\\\tmp\"}"
    );
    assert_eq!(log_event(""), "{\"type\":\"log\",\"message\":\"\"}");
}

#[test]
fn error_event_escapes_the_joined_text() {
    let lines = vec!["x \"1\"".to_string(), "y\\2".to_string()];
    assert_eq!(error_event(&lines), "{\"type\":\"error\",\"message\":\"x \\\"1\\\" | y\\\\2\"}");
}

#[test]
fn single_stderr_line_summary() {
    let mut log = StderrLog::new();
    log.record("fatal: no key");
    let s = log.summary().unwrap();
    assert_eq!(s.event, "{\"type\":\"error\",\"message\":\"fatal: no key\"}");
    assert_eq!(s.last_error, "fatal: no key");
}

#[test]
fn stopped_event_carries_the_code() {
    assert_eq!(stopped_event(Some(0)), "{\"type\":\"stopped\",\"code\":0}");
    assert_eq!(stopped_event(Some(137)), "{\"type\":\"stopped\",\"code\":137}");
    assert_eq!(stopped_event(Some(-2)), "{\"type\":\"stopped\",\"code\":-2}");
    assert_eq!(stopped_event(None), "{\"type\":\"stopped\",\"code\":-1}");
    assert_eq!(NO_EXIT_CODE, -1);
}

#[test]
fn decimal_of_extremes() {
    assert_eq!(decimal_of(i32::MIN), i32::MIN.to_string());
    assert_eq!(decimal_of(i32::MAX), i32::MAX.to_string());
    assert_eq!(decimal_of(10), "10");
    assert_eq!(decimal_of(9), "9");
}
