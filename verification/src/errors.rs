//! The error taxonomy of the store.
use vstd::prelude::*;

verus! {

/// The kind of a failure.
#[derive(Debug, PartialEq, Eq, Clone, Copy, Structural)]
pub enum ErrorCode {
    Unknown,
    NotFound,
    Internal,
    Unauthorized,
    OutOfOrder,
    Exists,
}

/// A failure: its kind and a message for the caller.
#[derive(Debug, Clone)]
pub struct Error {
    code: ErrorCode,
    message: String,
}

/// What an [`Error`] holds, as mathematical values.
pub ghost struct ErrorView {
    pub code: ErrorCode,
    pub message: Seq<char>,
}

impl View for Error {
    type V = ErrorView;

    closed spec fn view(&self) -> ErrorView {
        ErrorView { code: self.code, message: self.message@ }
    }
}

/// The name of an error code, as it is printed.
pub open spec fn code_name(code: ErrorCode) -> Seq<char> {
    match code {
        ErrorCode::Unknown => "Unknown"@,
        ErrorCode::NotFound => "NotFound"@,
        ErrorCode::Internal => "Internal"@,
        ErrorCode::Unauthorized => "Unauthorized"@,
        ErrorCode::OutOfOrder => "OutOfOrder"@,
        ErrorCode::Exists => "Exists"@,
    }
}

/// The printed form of an error: the name of its code, a colon and a space,
/// and the message.
pub open spec fn rendered(e: ErrorView) -> Seq<char> {
    code_name(e.code) + ": "@ + e.message
}

/// Whether `r` is a failure of the given kind with the given message.
pub open spec fn fails_with<T>(r: Result<T, Error>, code: ErrorCode, message: Seq<char>) -> bool {
    r matches Err(e) && e@ == (ErrorView { code, message })
}

impl Default for ErrorCode {
    fn default() -> (r: ErrorCode)
        ensures
            r == ErrorCode::Unknown,
    {
        ErrorCode::Unknown
    }
}

impl ErrorCode {
    /// The name of the code.
    pub fn name(&self) -> (r: &'static str)
        ensures
            r@ == code_name(*self),
    {
        match self {
            ErrorCode::Unknown => "Unknown",
            ErrorCode::NotFound => "NotFound",
            ErrorCode::Internal => "Internal",
            ErrorCode::Unauthorized => "Unauthorized",
            ErrorCode::OutOfOrder => "OutOfOrder",
            ErrorCode::Exists => "Exists",
        }
    }
}

impl Error {
    pub fn new(code: ErrorCode, message: &str) -> (r: Error)
        ensures
            r@ == (ErrorView { code, message: message@ }),
    {
        Error { code, message: message.to_owned() }
    }

    pub fn message(&self) -> (r: String)
        ensures
            r@ == self@.message,
    {
        self.message.clone()
    }

    pub fn code(&self) -> (r: ErrorCode)
        ensures
            r == self@.code,
    {
        self.code
    }

    /// The printed form of the error.
    pub fn to_string(&self) -> (r: String)
        ensures
            r@ == rendered(self@),
    {
        let mut out = self.code.name().to_owned();
        out.append(": ");
        out.append(self.message.as_str());
        out
    }
}

impl PartialEq for Error {
    fn eq(&self, other: &Error) -> (r: bool) {
        self.code == other.code && self.message == other.message
    }
}

impl vstd::std_specs::cmp::PartialEqSpecImpl for Error {
    open spec fn obeys_eq_spec() -> bool {
        true
    }

    open spec fn eq_spec(&self, other: &Error) -> bool {
        self@ == other@
    }
}

} // verus!
