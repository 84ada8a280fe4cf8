//! The status line of an HTTP response, as the components see it.

use vstd::prelude::*;
use vstd::string::*;

use crate::error::{AppError, ErrorKind, ErrorView};
use crate::text::{concat2, concat3};

verus! {

/// The status line of an HTTP response.
#[derive(Debug, PartialEq, Eq)]
pub struct HttpStatus {
    /// The status code.
    pub code: u16,
    /// The status as it is displayed: the code and its name.
    pub text: String,
    /// The canonical reason phrase of the code, where it has one.
    pub reason: Option<String>,
}

/// A status that stands for success: 200 up to 299.
pub open spec fn is_success(code: u16) -> bool {
    200 <= code < 300
}

/// A status as failure messages show it: the displayed status, a dash, and
/// the reason phrase or, where the code has none, the words that stand for it.
pub open spec fn status_line(text: Seq<char>, reason: Option<Seq<char>>) -> Seq<char> {
    text + " - "@ + match reason {
        Some(r) => r,
        None => "Unknown error"@,
    }
}

/// The failure that an HTTP client that cannot be built is reported as.
pub open spec fn client_failure_view(cause: Seq<char>) -> ErrorView {
    ErrorView { kind: ErrorKind::Network, message: "Failed to create HTTP client: "@ + cause }
}

/// The failure that an HTTP client that cannot be built is reported as.
pub fn client_failure(cause: &str) -> (error: AppError)
    ensures
        error@ == client_failure_view(cause@),
{
    AppError::Network(concat2("Failed to create HTTP client: ", cause))
}

/// The failure that a request or a body lost below HTTP is reported as.
pub fn network_failure(cause: &str) -> (error: AppError)
    ensures
        error@ == (ErrorView { kind: ErrorKind::Network, message: cause@ }),
{
    AppError::Network(String::from_str(cause))
}

impl HttpStatus {
    /// Whether the status stands for success.
    pub fn is_success(&self) -> (yes: bool)
        ensures
            yes == is_success(self.code),
    {
        200 <= self.code && self.code < 300
    }

    /// The status as failure messages show it.
    pub fn line(&self) -> (line: String)
        ensures
            line@ == status_line(self.text@, self.reason.deep_view()),
    {
        match &self.reason {
            Some(reason) => concat3(self.text.as_str(), " - ", reason.as_str()),
            None => concat3(self.text.as_str(), " - ", "Unknown error"),
        }
    }
}

} // verus!
