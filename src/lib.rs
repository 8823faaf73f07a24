//! An error type for tests, so that a test can return [`Result`] and pass
//! errors on with `?` instead of calling `unwrap`.
//!
//! An [`Error`] records the call stack where it was made and renders the
//! message of its cause followed by that trace. Set the environment variable
//! `RUST_BACKTRACE=1` to have traces captured. The first frames of a trace
//! point into this crate and the standard library, not at the place where the
//! error arose; the caller's frame comes a few frames further down.
//!
//! Any value with a display text converts into an [`Error`], so `?` passes on
//! every standard or user error; the error keeps the cause's display text.
//!
//! Do not use [`Result`] outside tests: [`Error`] is not a
//! `std::error::Error`. Where one is needed, [`Error::as_std_error`] lends the
//! cause out and `std::io::Error::from` gives it up.
use vstd::prelude::*;
use vstd::string::{to_string_from_display_ensures, StringExecFns};

verus! {

/// The state of the stack trace that was taken when an [`Error`] was made.
#[derive(Clone, Copy, Debug, PartialEq, Eq, Structural)]
pub enum TraceStatus {
    /// The trace was captured and has frames to show.
    Captured,
    /// The platform cannot capture a trace.
    Unsupported,
    /// Capture is turned off by the environment.
    Disabled,
    /// A state of the runtime's trace that this crate does not know.
    Unknown,
}

/// The text that follows the label of a report: the frames when they were
/// captured, else a fixed sentence for the state.
pub open spec fn trace_text(status: TraceStatus, frames: Seq<char>) -> Seq<char> {
    match status {
        TraceStatus::Captured => "\n"@ + frames,
        TraceStatus::Unsupported => "Unsupported."@,
        TraceStatus::Disabled => "Disabled. Turn on by environment variable 'RUST_BACKTRACE=1'."@,
        TraceStatus::Unknown => "Unknown."@,
    }
}

/// The label between the message and the trace.
pub open spec fn trace_label() -> Seq<char> {
    "\nBacktrace: "@
}

/// A full report: the message, the label, then the trace.
pub open spec fn report_text(message: Seq<char>, status: TraceStatus, frames: Seq<char>) -> Seq<char> {
    message + trace_label() + trace_text(status, frames)
}

/// Renders `message` and the trace as one report; `frames` is shown only
/// where `status` is `Captured`.
pub fn render_report(message: &str, status: TraceStatus, frames: &str) -> (r: String)
    ensures
        r@ == report_text(message@, status, frames@),
{
    let mut r = String::from_str(message);
    r.append("\nBacktrace: ");
    match status {
        TraceStatus::Captured => {
            r.append("\n");
            r.append(frames);
        },
        TraceStatus::Unsupported => r.append("Unsupported."),
        TraceStatus::Disabled => r.append(
            "Disabled. Turn on by environment variable 'RUST_BACKTRACE=1'.",
        ),
        TraceStatus::Unknown => r.append("Unknown."),
    }
    assert(r@ =~= report_text(message@, status, frames@));
    r
}

/// `std::io::Error`, carried through as an opaque value.
#[verifier::external_type_specification]
#[verifier::external_body]
pub struct ExIoError(std::io::Error);

/// `std::backtrace::Backtrace`, carried through as an opaque value.
#[verifier::external_type_specification]
#[verifier::external_body]
pub struct ExBacktrace(std::backtrace::Backtrace);

/// Relies on `Backtrace::capture`: a trace of the current call stack, or a
/// trace that records why none was taken.
#[verifier::external_body]
fn capture_backtrace() -> std::backtrace::Backtrace {
    std::backtrace::Backtrace::capture()
}

/// Relies on `Backtrace::status`, one arm for each of its states.
#[verifier::external_body]
fn backtrace_status(trace: &std::backtrace::Backtrace) -> TraceStatus {
    match trace.status() {
        std::backtrace::BacktraceStatus::Captured => TraceStatus::Captured,
        std::backtrace::BacktraceStatus::Unsupported => TraceStatus::Unsupported,
        std::backtrace::BacktraceStatus::Disabled => TraceStatus::Disabled,
        _ => TraceStatus::Unknown,
    }
}

/// Relies on `std::io::Error::other`: an error of kind `Other` that carries
/// `message` as its payload, and displays as that payload.
#[verifier::external_body]
fn message_error(message: String) -> (r: std::io::Error)
    ensures
        to_string_from_display_ensures::<std::io::Error>(&r, message),
{
    std::io::Error::other(message)
}

/// Whether `frames` is what a trace in state `status` leaves to show: the
/// display text of a captured trace, or else nothing.
pub open spec fn recorded_frames(status: TraceStatus, frames: String) -> bool {
    if status == TraceStatus::Captured {
        exists|trace: std::backtrace::Backtrace|
            #[trigger] to_string_from_display_ensures::<std::backtrace::Backtrace>(&trace, frames)
    } else {
        frames@ == Seq::<char>::empty()
    }
}

/// Records the call stack of the caller: the state of the trace, and its
/// frames as text where it was captured (else an empty text).
fn capture_trace() -> (r: (TraceStatus, String))
    ensures
        recorded_frames(r.0, r.1),
{
    let backtrace = capture_backtrace();
    let status = backtrace_status(&backtrace);
    if status == TraceStatus::Captured {
        (status, backtrace.to_string())
    } else {
        (status, String::new())
    }
}

/// The result of a test, or of a helper that a test calls: success, or an
/// [`Error`].
pub type Result<T = ()> = std::result::Result<T, Error>;

/// One error of any kind, with the call stack recorded where it was made.
///
/// It is one pointer wide, whatever its cause and trace. Its `Debug` form
/// lets a test return [`Result`]; [`Error::to_debug_string`] gives the report.
#[derive(Debug)]
pub struct Error {
    inner: Box<InnerError>,
}

/// The cause is held as a `std::io::Error` of kind `Other` whose payload is
/// the display text of what was wrapped; that error's own kind, debug form
/// and chain of sources are not kept.
/// The trace is rendered once, when it is taken, so that every report of the
/// error shows the same frames.
#[derive(Debug)]
struct InnerError {
    source: std::io::Error,
    message: String,
    status: TraceStatus,
    frames: String,
}

impl Error {
    /// The wrapped cause.
    pub closed spec fn source(&self) -> std::io::Error {
        self.inner.source
    }

    /// The display text of the cause, taken when the error was made.
    pub closed spec fn message(&self) -> String {
        self.inner.message
    }

    /// The state of the trace taken when the error was made.
    pub closed spec fn trace_status(&self) -> TraceStatus {
        self.inner.status
    }

    /// The frames of the trace, as text; empty unless it was captured.
    pub closed spec fn frames(&self) -> String {
        self.inner.frames
    }

    /// What every error holds: its cause displays as its message, and its
    /// frames are what its trace left to show.
    pub open spec fn wf(&self) -> bool {
        &&& to_string_from_display_ensures::<std::io::Error>(&self.source(), self.message())
        &&& recorded_frames(self.trace_status(), self.frames())
    }

    /// What the error renders as.
    pub open spec fn report(&self) -> Seq<char> {
        report_text(self.message()@, self.trace_status(), self.frames()@)
    }

    fn with_source(source: std::io::Error, message: String) -> (r: Error)
        ensures
            r.source() == source,
            r.message() == message,
            recorded_frames(r.trace_status(), r.frames()),
    {
        let (status, frames) = capture_trace();
        Error { inner: Box::new(InnerError { source, message, status, frames }) }
    }

    /// Makes an error whose cause is `error`'s display text, and records the
    /// caller's stack. Never fails.
    pub fn new<E: std::fmt::Display>(error: E) -> (r: Error)
        ensures
            to_string_from_display_ensures::<E>(&error, r.message()),
            r.wf(),
    {
        let message = error.to_string();
        let source = message_error(message.clone());
        Error::with_source(source, message)
    }

    /// The wrapped cause, lent out as a `std::error::Error`.
    pub fn as_std_error(&self) -> (r: &std::io::Error)
        ensures
            *r == self.source(),
    {
        &self.inner.source
    }

    /// The report: the cause's message, the label `Backtrace: ` on a line
    /// of its own, then the frames or why there are none.
    pub fn to_string(&self) -> (r: String)
        ensures
            r@ == self.report(),
    {
        render_report(self.inner.message.as_str(), self.inner.status, self.inner.frames.as_str())
    }

    /// The same report as [`Error::to_string`], byte for byte.
    pub fn to_debug_string(&self) -> (r: String)
        ensures
            r@ == self.report(),
    {
        self.to_string()
    }
}

/// Every report opens with the cause's message, followed at once by the
/// label `Backtrace: ` on a new line.
pub proof fn lemma_report_starts_with_message(err: &Error)
    ensures
        err.report().subrange(0, err.message()@.len() as int) == err.message()@,
        err.report().subrange(
            err.message()@.len() as int,
            (err.message()@.len() + trace_label().len()) as int,
        ) == trace_label(),
{
    let m = err.message()@;
    let t = trace_text(err.trace_status(), err.frames()@);
    assert(err.report() == m + trace_label() + t);
    assert(err.report().subrange(0, m.len() as int) =~= m);
    assert(err.report().subrange(m.len() as int, (m.len() + trace_label().len()) as int) =~= trace_label());
}

impl<E: std::fmt::Display + std::fmt::Debug + Send + Sync + 'static> From<E> for Error {
    /// Wraps any error, or any other value with a display text, as
    /// [`Error::new`] does; this is the conversion that `?` makes.
    fn from(error: E) -> (r: Error)
        ensures
            to_string_from_display_ensures::<E>(&error, r.message()),
            r.wf(),
    {
        Error::new(error)
    }
}

impl<E: std::fmt::Display + std::fmt::Debug + Send + Sync + 'static> vstd::std_specs::convert::FromSpecImpl<E> for Error {
    open spec fn obeys_from_spec() -> bool {
        false
    }

    open spec fn from_spec(v: E) -> Error {
        arbitrary()
    }
}

impl From<Error> for std::io::Error {
    /// Gives up the wrapped cause.
    fn from(error: Error) -> std::io::Error {
        error.inner.source
    }
}

impl vstd::std_specs::convert::FromSpecImpl<Error> for std::io::Error {
    open spec fn obeys_from_spec() -> bool {
        true
    }

    open spec fn from_spec(v: Error) -> std::io::Error {
        v.source()
    }
}

/// Giving an error up with `std::io::Error::from` yields the very cause that
/// [`Error::as_std_error`] lends, and that cause displays as the message the
/// error reports.
pub proof fn lemma_given_up_cause_is_lent_cause(err: Error)
    requires
        err.wf(),
    ensures
        <std::io::Error as vstd::std_specs::convert::FromSpec<Error>>::obeys_from_spec(),
        <std::io::Error as vstd::std_specs::convert::FromSpec<Error>>::from_spec(err)
            == err.source(),
        to_string_from_display_ensures::<std::io::Error>(
            &<std::io::Error as vstd::std_specs::convert::FromSpec<Error>>::from_spec(err),
            err.message(),
        ),
{
}

} // verus!
