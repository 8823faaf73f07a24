use kix::{render_report, Error, TraceStatus};

const LABEL: &str = "\nBacktrace: ";
const DISABLED: &str = "Disabled. Turn on by environment variable 'RUST_BACKTRACE=1'.";

fn address_in_use() -> std::io::Error {
    std::io::Error::new(std::io::ErrorKind::AddrInUse, "An error happened")
}

fn ends_with_a_trace_state(text: &str) -> bool {
    text.ends_with("Unsupported.")
        || text.ends_with(DISABLED)
        || text.ends_with("Unknown.")
        || text.contains("Backtrace: \n")
}

#[test]
fn report_with_captured_frames() {
    let r = render_report("boom", TraceStatus::Captured, "   0: main\n   1: start");
    assert_eq!(r, "boom\nBacktrace: \n   0: main\n   1: start");
}

#[test]
fn report_when_unsupported() {
    let r = render_report("boom", TraceStatus::Unsupported, "");
    assert_eq!(r, "boom\nBacktrace: Unsupported.");
}

#[test]
fn report_when_disabled() {
    let r = render_report("An error happened", TraceStatus::Disabled, "");
    assert_eq!(
        r,
        "An error happened\nBacktrace: Disabled. Turn on by environment variable 'RUST_BACKTRACE=1'."
    );
    assert!(r.ends_with(DISABLED));
}

#[test]
fn report_when_unknown() {
    let r = render_report("boom", TraceStatus::Unknown, "");
    assert_eq!(r, "boom\nBacktrace: Unknown.");
}

#[test]
fn report_ignores_frames_unless_captured() {
    let r = render_report("boom", TraceStatus::Disabled, "   0: main");
    assert_eq!(r, format!("boom{}{}", LABEL, DISABLED));
}

#[test]
fn report_of_empty_message() {
    let r = render_report("", TraceStatus::Unsupported, "");
    assert_eq!(r, "\nBacktrace: Unsupported.");
}

#[test]
fn wrapped_io_error_renders_message_and_label() {
    let text = Error::from(address_in_use()).to_string();
    assert!(text.starts_with("An error happened\nBacktrace: "));
    assert!(text.contains("An error happened"));
    assert!(text.contains("Backtrace: "));
    assert!(ends_with_a_trace_state(&text));
}

#[test]
fn display_and_debug_agree() {
    let err = Error::from(address_in_use());
    assert_eq!(err.to_string(), err.to_debug_string());
    let err = Error::new("plain words");
    assert_eq!(err.to_string(), err.to_debug_string());
}

#[test]
fn lent_cause_keeps_message() {
    let err = Error::from(address_in_use());
    let cause = err.as_std_error();
    assert_eq!(cause.to_string(), "An error happened");
    assert_eq!(cause.kind(), std::io::ErrorKind::Other);
}

#[test]
fn message_error_keeps_its_text() {
    let err = Error::new(String::from("An error happened"));
    assert_eq!(err.as_std_error().to_string(), "An error happened");
    assert!(err.to_string().starts_with("An error happened\nBacktrace: "));
}

#[test]
fn new_takes_the_display_text_of_an_error() {
    let err = Error::new(address_in_use());
    assert_eq!(err.as_std_error().to_string(), "An error happened");
    assert!(err.to_string().starts_with("An error happened\nBacktrace: "));
}

#[test]
fn given_up_cause_keeps_message() {
    let err = Error::from(address_in_use());
    let cause = std::io::Error::from(err);
    assert_eq!(cause.to_string(), "An error happened");
    assert_eq!(cause.kind(), std::io::ErrorKind::Other);
    let boxed: Box<dyn std::error::Error> = Box::new(cause);
    assert_eq!(boxed.to_string(), "An error happened");
}

fn fails_with_io_error() -> kix::Result {
    Err(address_in_use())?;
    Ok(())
}

fn parse_number(text: &str) -> kix::Result<u32> {
    let n: u32 = text.parse()?;
    Ok(n)
}

fn answer() -> kix::Result<u32> {
    Ok(42)
}

fn is_send<T: Send + 'static>(_: &T) -> bool {
    true
}

#[test]
fn question_mark_wraps_io_error() {
    let err = fails_with_io_error().unwrap_err();
    assert!(err.to_string().starts_with("An error happened\nBacktrace: "));
}

#[test]
fn question_mark_wraps_parse_error() {
    assert_eq!(parse_number("17").unwrap_or(0), 17);
    let expected = "x".parse::<u32>().unwrap_err().to_string();
    let err = parse_number("x").unwrap_err();
    assert_eq!(err.as_std_error().to_string(), expected);
    assert!(err.to_string().starts_with(&format!("{}\nBacktrace: ", expected)));
}

#[test]
fn payload_result_carries_value() {
    assert_eq!(answer().unwrap_or(0), 42);
}

#[test]
fn error_can_cross_threads() {
    let result: kix::Result<&str> = Err(Error::from(address_in_use()));
    assert!(is_send(&result));
    match result {
        Ok(_) => panic!("expected an error"),
        Err(e) => assert!(e.to_string().starts_with("An error happened\nBacktrace: ")),
    }
}

#[test]
fn test_can_return_result() -> kix::Result {
    let n = parse_number("17")?;
    assert_eq!(n, 17);
    assert!(parse_number("x").is_err());
    Ok(())
}
