//! The error type shared by every component.

use vstd::prelude::*;
use vstd::string::*;

verus! {

/// The machine-readable category of a failure.
#[derive(Clone, Copy, PartialEq, Eq, Debug, Structural)]
pub enum ErrorKind {
    /// A file-system operation failed.
    Io,
    /// The HTTP layer failed.
    Network,
    /// The package is malformed or unreadable.
    Archive,
    /// The OS-level opener or the child process could not be launched.
    ExternalTool,
    /// A precondition of the operation does not hold.
    Logic,
}

/// A hard failure: a category and a message fit for display.
#[derive(Debug, PartialEq, Eq)]
pub enum AppError {
    Io(String),
    Network(String),
    Zip(String),
    Tauri(String),
    Logic(String),
}

/// What an [`AppError`] stands for in contracts.
pub struct ErrorView {
    pub kind: ErrorKind,
    pub message: Seq<char>,
}

impl View for AppError {
    type V = ErrorView;

    open spec fn view(&self) -> ErrorView {
        match self {
            AppError::Io(m) => ErrorView { kind: ErrorKind::Io, message: m@ },
            AppError::Network(m) => ErrorView { kind: ErrorKind::Network, message: m@ },
            AppError::Zip(m) => ErrorView { kind: ErrorKind::Archive, message: m@ },
            AppError::Tauri(m) => ErrorView { kind: ErrorKind::ExternalTool, message: m@ },
            AppError::Logic(m) => ErrorView { kind: ErrorKind::Logic, message: m@ },
        }
    }
}

/// The code under which a category is reported to the front end.
pub open spec fn code_of(kind: ErrorKind) -> Seq<char> {
    match kind {
        ErrorKind::Io => "IO_ERROR"@,
        ErrorKind::Network => "NETWORK_ERROR"@,
        ErrorKind::Archive => "ZIP_ERROR"@,
        ErrorKind::ExternalTool => "TAURI_ERROR"@,
        ErrorKind::Logic => "LOGIC_ERROR"@,
    }
}

/// What stands before the message when an error is displayed.
pub open spec fn display_prefix(kind: ErrorKind) -> Seq<char> {
    match kind {
        ErrorKind::Io => "I/O error: "@,
        ErrorKind::Network => "Network error: "@,
        ErrorKind::Archive => "ZIP extraction error: "@,
        ErrorKind::ExternalTool => "Tauri error: "@,
        ErrorKind::Logic => Seq::empty(),
    }
}

/// The text under which an error is displayed.
pub open spec fn display_text(e: ErrorView) -> Seq<char> {
    display_prefix(e.kind) + e.message
}

impl AppError {
    /// A precondition violation with the given message.
    pub fn logic(msg: &str) -> (e: Self)
        ensures
            e@ == (ErrorView { kind: ErrorKind::Logic, message: msg@ }),
    {
        AppError::Logic(String::from_str(msg))
    }

    /// A failure of the host runtime or of an external tool.
    pub fn tauri(msg: &str) -> (e: Self)
        ensures
            e@ == (ErrorView { kind: ErrorKind::ExternalTool, message: msg@ }),
    {
        AppError::Tauri(String::from_str(msg))
    }

    /// The category of the failure.
    pub fn kind(&self) -> (kind: ErrorKind)
        ensures
            kind == self@.kind,
    {
        match self {
            AppError::Io(_) => ErrorKind::Io,
            AppError::Network(_) => ErrorKind::Network,
            AppError::Zip(_) => ErrorKind::Archive,
            AppError::Tauri(_) => ErrorKind::ExternalTool,
            AppError::Logic(_) => ErrorKind::Logic,
        }
    }

    /// The code under which the failure is reported to the front end.
    pub fn code(&self) -> (code: &'static str)
        ensures
            code@ == code_of(self@.kind),
    {
        match self {
            AppError::Io(_) => "IO_ERROR",
            AppError::Network(_) => "NETWORK_ERROR",
            AppError::Zip(_) => "ZIP_ERROR",
            AppError::Tauri(_) => "TAURI_ERROR",
            AppError::Logic(_) => "LOGIC_ERROR",
        }
    }

    /// The message reported to the front end beside the code.
    pub fn message(&self) -> (message: String)
        ensures
            message@ == self@.message,
    {
        match self {
            AppError::Io(m) => m.clone(),
            AppError::Network(m) => m.clone(),
            AppError::Zip(m) => m.clone(),
            AppError::Tauri(m) => m.clone(),
            AppError::Logic(m) => m.clone(),
        }
    }

    /// The text under which the failure is displayed: the message, behind
    /// the words that name its category.
    pub fn describe(&self) -> (text: String)
        ensures
            text@ == display_text(self@),
    {
        let mut text = String::new();
        match self {
            AppError::Io(m) => {
                text.append("I/O error: ");
                text.append(m.as_str());
            },
            AppError::Network(m) => {
                text.append("Network error: ");
                text.append(m.as_str());
            },
            AppError::Zip(m) => {
                text.append("ZIP extraction error: ");
                text.append(m.as_str());
            },
            AppError::Tauri(m) => {
                text.append("Tauri error: ");
                text.append(m.as_str());
            },
            AppError::Logic(m) => {
                text.append(m.as_str());
            },
        }
        text
    }

    /// A copy of the failure.
    pub fn duplicate(&self) -> (copy: Self)
        ensures
            copy@ == self@,
    {
        match self {
            AppError::Io(m) => AppError::Io(m.clone()),
            AppError::Network(m) => AppError::Network(m.clone()),
            AppError::Zip(m) => AppError::Zip(m.clone()),
            AppError::Tauri(m) => AppError::Tauri(m.clone()),
            AppError::Logic(m) => AppError::Logic(m.clone()),
        }
    }
}

} // verus!
