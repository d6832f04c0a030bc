//! What can go wrong in provisioning, running and talking to rclone.
use vstd::prelude::*;
use vstd::string::*;

use crate::text::decimal_text;

verus! {

/// A failure of an engine operation or of an rc call.
#[derive(Debug)]
pub enum Error {
    /// The binary could not be obtained or placed.
    Provision(String),
    /// The downloaded file does not have the pinned SHA-256.
    ChecksumMismatch { expected: String, actual: String },
    /// The daemon did not answer its health-check in time.
    StartupTimeout { seconds: u64 },
    /// The engine is in a state in which rc calls are not possible.
    NotReady { state: String },
    /// The rc API answered with an HTTP error.
    Rc(String),
    /// An async job failed.
    JobFailed(String),
    /// A file or process operation failed; holds the system's message.
    Io(String),
    /// An HTTP exchange failed; holds the transport's message.
    Http(String),
    /// A JSON document could not be written or read; holds the reason.
    Json(String),
}

/// An [`Error`] with its texts as character sequences.
pub enum ErrorView {
    Provision(Seq<char>),
    ChecksumMismatch { expected: Seq<char>, actual: Seq<char> },
    StartupTimeout { seconds: u64 },
    NotReady { state: Seq<char> },
    Rc(Seq<char>),
    JobFailed(Seq<char>),
    Io(Seq<char>),
    Http(Seq<char>),
    Json(Seq<char>),
}

impl View for Error {
    type V = ErrorView;

    open spec fn view(&self) -> ErrorView {
        match self {
            Error::Provision(m) => ErrorView::Provision(m@),
            Error::ChecksumMismatch { expected, actual } => ErrorView::ChecksumMismatch {
                expected: expected@,
                actual: actual@,
            },
            Error::StartupTimeout { seconds } => ErrorView::StartupTimeout { seconds: *seconds },
            Error::NotReady { state } => ErrorView::NotReady { state: state@ },
            Error::Rc(m) => ErrorView::Rc(m@),
            Error::JobFailed(m) => ErrorView::JobFailed(m@),
            Error::Io(m) => ErrorView::Io(m@),
            Error::Http(m) => ErrorView::Http(m@),
            Error::Json(m) => ErrorView::Json(m@),
        }
    }
}

impl ErrorView {
    /// The message shown to the user.
    pub open spec fn message(self) -> Seq<char> {
        match self {
            ErrorView::Provision(m) => "provision error: "@ + m,
            ErrorView::ChecksumMismatch { expected, actual } => "checksum mismatch — expected "@
                + expected + ", got "@ + actual,
            ErrorView::StartupTimeout { seconds } => "rclone rcd startup timed out after "@
                + crate::text::decimal(seconds as nat) + "s"@,
            ErrorView::NotReady { state } => "rclone is not ready (state: "@ + state + ")"@,
            ErrorView::Rc(m) => "rclone rc error: "@ + m,
            ErrorView::JobFailed(m) => "async job failed: "@ + m,
            ErrorView::Io(m) => "I/O error: "@ + m,
            ErrorView::Http(m) => "HTTP error: "@ + m,
            ErrorView::Json(m) => "JSON error: "@ + m,
        }
    }
}

impl Error {
    /// The message shown to the user.
    pub fn to_string(&self) -> (text: String)
        ensures
            text@ == self@.message(),
    {
        match self {
            Error::Provision(m) => labelled("provision error: ", m.as_str()),
            Error::ChecksumMismatch { expected, actual } => {
                let mut text = labelled("checksum mismatch — expected ", expected.as_str());
                text.append(", got ");
                text.append(actual.as_str());
                text
            },
            Error::StartupTimeout { seconds } => {
                let mut text = labelled(
                    "rclone rcd startup timed out after ",
                    decimal_text(*seconds).as_str(),
                );
                text.append("s");
                text
            },
            Error::NotReady { state } => {
                let mut text = labelled("rclone is not ready (state: ", state.as_str());
                text.append(")");
                text
            },
            Error::Rc(m) => labelled("rclone rc error: ", m.as_str()),
            Error::JobFailed(m) => labelled("async job failed: ", m.as_str()),
            Error::Io(m) => labelled("I/O error: ", m.as_str()),
            Error::Http(m) => labelled("HTTP error: ", m.as_str()),
            Error::Json(m) => labelled("JSON error: ", m.as_str()),
        }
    }
}

/// `label` followed by `rest`.
pub(crate) fn labelled(label: &str, rest: &str) -> (text: String)
    ensures
        text@ == label@ + rest@,
{
    let mut text = label.to_owned();
    text.append(rest);
    text
}

/// A message says what went wrong, in the words that came with it: they stand in it whole,
/// behind what kind of failure it was.
pub proof fn messages_say_what_went_wrong(text: Seq<char>, other: Seq<char>, seconds: u64)
    ensures
        ErrorView::Provision(text).message() == "provision error: "@ + text,
        (ErrorView::ChecksumMismatch { expected: text, actual: other }).message()
            == "checksum mismatch — expected "@ + text + ", got "@ + other,
        (ErrorView::StartupTimeout { seconds }).message() == "rclone rcd startup timed out after "@
            + crate::text::decimal(seconds as nat) + "s"@,
        (ErrorView::NotReady { state: text }).message() == "rclone is not ready (state: "@ + text
            + ")"@,
        ErrorView::Rc(text).message() == "rclone rc error: "@ + text,
        ErrorView::JobFailed(text).message() == "async job failed: "@ + text,
        ErrorView::Io(text).message() == "I/O error: "@ + text,
        ErrorView::Http(text).message() == "HTTP error: "@ + text,
        ErrorView::Json(text).message() == "JSON error: "@ + text,
{
}

/// Views of errors keep their kind and all their texts.
pub proof fn errors_are_viewed_whole(text: String, other: String, seconds: u64)
    ensures
        Error::Provision(text)@ == ErrorView::Provision(text@),
        (Error::ChecksumMismatch { expected: text, actual: other })@
            == (ErrorView::ChecksumMismatch { expected: text@, actual: other@ }),
        (Error::StartupTimeout { seconds })@ == (ErrorView::StartupTimeout { seconds }),
        (Error::NotReady { state: text })@ == (ErrorView::NotReady { state: text@ }),
        Error::Rc(text)@ == ErrorView::Rc(text@),
        Error::JobFailed(text)@ == ErrorView::JobFailed(text@),
        Error::Io(text)@ == ErrorView::Io(text@),
        Error::Http(text)@ == ErrorView::Http(text@),
        Error::Json(text)@ == ErrorView::Json(text@),
{
}

} // verus!
