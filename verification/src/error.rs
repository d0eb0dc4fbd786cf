//! Exit statuses and the errors of an orchestration attempt.

use vstd::prelude::*;
use crate::help::{Help, HelpView};
use crate::text::{decimal, decimal_text};

verus! {

/// The I/O error type of the standard library, carried through unopened.
#[verifier::external_type_specification]
#[verifier::external_body]
pub struct ExIoError(std::io::Error);

/// How a child process ended: with an exit code, or without one when a
/// signal ended it.
#[derive(Clone, Copy, Debug, PartialEq, Eq, Structural)]
pub struct ExitStatus {
    pub code: Option<i32>,
}

impl ExitStatus {
    /// A process succeeded when it left with code zero.
    pub open spec fn succeeded(self) -> bool {
        self.code == Some(0i32)
    }

    /// The status of a process that left with `code`.
    pub fn exited(code: i32) -> (s: ExitStatus)
        ensures
            s.code == Some(code),
    {
        ExitStatus { code: Some(code) }
    }

    /// The status of a process that a signal ended.
    pub fn signaled() -> (s: ExitStatus)
        ensures
            s.code.is_none(),
    {
        ExitStatus { code: None }
    }

    /// Whether the process left with code zero.
    pub fn success(&self) -> (b: bool)
        ensures
            b == self.succeeded(),
    {
        match self.code {
            Some(c) => c == 0,
            None => false,
        }
    }

    /// The status in words: `exit status: <code>`, or `signal` when no code was left.
    pub open spec fn text(self) -> Seq<char> {
        match self.code {
            Some(c) => "exit status: "@ + decimal(c as int),
            None => "signal"@,
        }
    }

    /// Writes the status in words.
    pub fn to_string(&self) -> (out: String)
        ensures
            out@ == self.text(),
    {
        match self.code {
            Some(c) => {
                let mut out = String::from_str("exit status: ");
                let digits = decimal_text(c);
                out.append(digits.as_str());
                out
            },
            None => String::from_str("signal"),
        }
    }
}

/// The kinds of fault that the library raises on its own account.
#[derive(Clone, Copy, Debug, PartialEq, Eq, Structural)]
pub enum FaultKind {
    /// Something that is needed was not found.
    NotFound,
    /// Anything else.
    Other,
}

/// A fault raised by the library where its caller deals in I/O errors:
/// the kind and the message that the caller's I/O error is to carry.
#[derive(Debug)]
pub struct Fault {
    pub kind: FaultKind,
    pub message: String,
}

/// Mathematical model of a fault.
pub struct FaultView {
    pub kind: FaultKind,
    pub message: Seq<char>,
}

impl View for Fault {
    type V = FaultView;

    open spec fn view(&self) -> FaultView {
        FaultView { kind: self.kind, message: self.message@ }
    }
}

/// What can go wrong in an orchestration attempt. None of these is retried
/// by the library.
#[derive(Debug)]
pub enum Error {
    /// A pipe or the child process failed.
    IoError(std::io::Error),
    /// Authentication was denied or timed out, or elevation is missing.
    PermissionDenied,
    /// No known package manager was found.
    NotSupported,
    /// The child left with a failure status; the topic says where to look for help.
    ProcessFailed(ExitStatus, Help),
}

/// Mathematical model of an error: the variant and, for a failed process,
/// its status and help topic. The contents of an I/O error stay opaque.
pub enum ErrorView {
    IoError(std::io::Error),
    PermissionDenied,
    NotSupported,
    ProcessFailed(ExitStatus, HelpView),
}

impl View for Error {
    type V = ErrorView;

    open spec fn view(&self) -> ErrorView {
        match *self {
            Error::IoError(e) => ErrorView::IoError(e),
            Error::PermissionDenied => ErrorView::PermissionDenied,
            Error::NotSupported => ErrorView::NotSupported,
            Error::ProcessFailed(status, help) => ErrorView::ProcessFailed(status, help@),
        }
    }
}

impl From<std::io::Error> for Error {
    fn from(e: std::io::Error) -> (r: Error) {
        Error::IoError(e)
    }
}

impl vstd::std_specs::convert::FromSpecImpl<std::io::Error> for Error {
    open spec fn obeys_from_spec() -> bool {
        true
    }

    open spec fn from_spec(e: std::io::Error) -> Error {
        Error::IoError(e)
    }
}

/// The message of an error that is not an I/O error.
pub open spec fn message_of(e: ErrorView) -> Seq<char>
    recommends
        !(e is IoError),
{
    match e {
        ErrorView::IoError(_) => Seq::empty(),
        ErrorView::PermissionDenied => "Permission denied"@,
        ErrorView::NotSupported => "Unsupported package manager or platform"@,
        ErrorView::ProcessFailed(status, help) => "Package manager exit with "@ + status.text()
            + "\n\n"@ + help.text(),
    }
}

/// Calls the `Display` implementation of `std::io::Error`. The text depends
/// on the platform, so nothing is claimed about it.
#[verifier::external_body]
fn io_error_text(e: &std::io::Error) -> (out: String) {
    format!("{}", e)
}

impl Error {
    /// The message shown to the user. For an I/O error it is the text the
    /// standard library gives; for every other error it is `message_of`.
    pub fn to_string(&self) -> (out: String)
        ensures
            !(self@ is IoError) ==> out@ == message_of(self@),
    {
        match self {
            Error::IoError(e) => io_error_text(e),
            Error::PermissionDenied => String::from_str("Permission denied"),
            Error::NotSupported => String::from_str("Unsupported package manager or platform"),
            Error::ProcessFailed(status, help) => {
                let mut out = String::from_str("Package manager exit with ");
                let status_text = status.to_string();
                out.append(status_text.as_str());
                out.append("\n\n");
                let help_text = help.to_string();
                out.append(help_text.as_str());
                out
            },
        }
    }
}

} // verus!
