//! How a failure of the store is told to a remote caller.
use vstd::prelude::*;
use vstd::std_specs::convert::FromSpecImpl;
use crate::errors::{rendered, Error, ErrorCode, ErrorView};

verus! {

/// The status codes of the transport that the service answers with.
#[derive(Debug, PartialEq, Eq, Clone, Copy, Structural)]
pub enum RpcStatusCode {
    Unknown,
    InvalidArgument,
    NotFound,
    AlreadyExists,
    PermissionDenied,
    Unimplemented,
    Internal,
}

/// The status code that stands for an error code.
pub open spec fn status_code(code: ErrorCode) -> RpcStatusCode {
    match code {
        ErrorCode::Unknown => RpcStatusCode::Unknown,
        ErrorCode::NotFound => RpcStatusCode::NotFound,
        ErrorCode::Internal => RpcStatusCode::Internal,
        ErrorCode::Unauthorized => RpcStatusCode::PermissionDenied,
        ErrorCode::OutOfOrder => RpcStatusCode::InvalidArgument,
        ErrorCode::Exists => RpcStatusCode::AlreadyExists,
    }
}

/// The number of a status code on the wire.
pub open spec fn status_number(code: RpcStatusCode) -> i32 {
    match code {
        RpcStatusCode::Unknown => 2,
        RpcStatusCode::InvalidArgument => 3,
        RpcStatusCode::NotFound => 5,
        RpcStatusCode::AlreadyExists => 6,
        RpcStatusCode::PermissionDenied => 7,
        RpcStatusCode::Unimplemented => 12,
        RpcStatusCode::Internal => 13,
    }
}

impl RpcStatusCode {
    /// The number of the code on the wire.
    pub fn number(&self) -> (r: i32)
        ensures
            r == status_number(*self),
    {
        match self {
            RpcStatusCode::Unknown => 2,
            RpcStatusCode::InvalidArgument => 3,
            RpcStatusCode::NotFound => 5,
            RpcStatusCode::AlreadyExists => 6,
            RpcStatusCode::PermissionDenied => 7,
            RpcStatusCode::Unimplemented => 12,
            RpcStatusCode::Internal => 13,
        }
    }
}

impl From<ErrorCode> for RpcStatusCode {
    fn from(val: ErrorCode) -> (r: RpcStatusCode) {
        match val {
            ErrorCode::Unknown => RpcStatusCode::Unknown,
            ErrorCode::NotFound => RpcStatusCode::NotFound,
            ErrorCode::Internal => RpcStatusCode::Internal,
            ErrorCode::Unauthorized => RpcStatusCode::PermissionDenied,
            ErrorCode::OutOfOrder => RpcStatusCode::InvalidArgument,
            ErrorCode::Exists => RpcStatusCode::AlreadyExists,
        }
    }
}

impl FromSpecImpl<ErrorCode> for RpcStatusCode {
    open spec fn obeys_from_spec() -> bool {
        true
    }

    open spec fn from_spec(val: ErrorCode) -> RpcStatusCode {
        status_code(val)
    }
}

/// A status: its code and a message.
#[derive(Debug, Clone)]
pub struct RpcStatus {
    pub code: RpcStatusCode,
    pub message: String,
}

/// A status as mathematical values.
pub ghost struct RpcStatusView {
    pub code: RpcStatusCode,
    pub message: Seq<char>,
}

impl View for RpcStatus {
    type V = RpcStatusView;

    open spec fn view(&self) -> RpcStatusView {
        RpcStatusView { code: self.code, message: self.message@ }
    }
}

/// The status that tells of a failure: the code that stands for its kind,
/// and its printed form as the message.
pub open spec fn status_of(e: ErrorView) -> RpcStatusView {
    RpcStatusView { code: status_code(e.code), message: rendered(e) }
}

impl RpcStatus {
    /// A status with a message.
    pub fn with_message(code: RpcStatusCode, message: String) -> (r: RpcStatus)
        ensures
            r@ == (RpcStatusView { code, message: message@ }),
    {
        RpcStatus { code, message }
    }

    /// The status of an operation that the service does not offer.
    pub fn unimplemented() -> (r: RpcStatus)
        ensures
            r@ == (RpcStatusView { code: RpcStatusCode::Unimplemented, message: Seq::empty() }),
    {
        RpcStatus { code: RpcStatusCode::Unimplemented, message: String::new() }
    }

    /// The status that tells of a failure of the store.
    pub fn of(val: &Error) -> (r: RpcStatus)
        ensures
            r@ == status_of(val@),
    {
        RpcStatus::with_message(RpcStatusCode::from(val.code()), val.to_string())
    }
}

/// The conversion is [`RpcStatus::of`], which states what it gives.
impl From<Error> for RpcStatus {
    fn from(val: Error) -> (r: RpcStatus) {
        RpcStatus::of(&val)
    }
}

impl FromSpecImpl<Error> for RpcStatus {
    open spec fn obeys_from_spec() -> bool {
        false
    }

    open spec fn from_spec(val: Error) -> RpcStatus {
        choose|status: RpcStatus| status@ == status_of(val@)
    }
}

} // verus!
