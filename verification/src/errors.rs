//! Wire-visible error codes and the structured API error they ride in.

use vstd::prelude::*;

verus! {

/// Error kinds visible on the wire.
#[derive(Debug, Clone, Copy, PartialEq, Eq, Structural)]
pub enum ErrorCode {
    InvalidArgument,
    NotFound,
    AlreadyClosed,
    ConnectTimeout,
    ConnectFailed,
    AuthFailed,
    HostkeyMismatch,
    IoError,
    RemoteClosed,
    ExecTimeout,
    Unsupported,
}

/// The wire spelling of each error code.
pub open spec fn error_code_str(code: ErrorCode) -> Seq<char> {
    match code {
        ErrorCode::InvalidArgument => "invalid_argument"@,
        ErrorCode::NotFound => "not_found"@,
        ErrorCode::AlreadyClosed => "already_closed"@,
        ErrorCode::ConnectTimeout => "connect_timeout"@,
        ErrorCode::ConnectFailed => "connect_failed"@,
        ErrorCode::AuthFailed => "auth_failed"@,
        ErrorCode::HostkeyMismatch => "hostkey_mismatch"@,
        ErrorCode::IoError => "io_error"@,
        ErrorCode::RemoteClosed => "remote_closed"@,
        ErrorCode::ExecTimeout => "exec_timeout"@,
        ErrorCode::Unsupported => "unsupported"@,
    }
}

impl ErrorCode {
    /// The lowercase name used on the wire.
    pub fn as_str(&self) -> (r: &'static str)
        ensures
            r@ == error_code_str(*self),
    {
        match self {
            ErrorCode::InvalidArgument => "invalid_argument",
            ErrorCode::NotFound => "not_found",
            ErrorCode::AlreadyClosed => "already_closed",
            ErrorCode::ConnectTimeout => "connect_timeout",
            ErrorCode::ConnectFailed => "connect_failed",
            ErrorCode::AuthFailed => "auth_failed",
            ErrorCode::HostkeyMismatch => "hostkey_mismatch",
            ErrorCode::IoError => "io_error",
            ErrorCode::RemoteClosed => "remote_closed",
            ErrorCode::ExecTimeout => "exec_timeout",
            ErrorCode::Unsupported => "unsupported",
        }
    }
}

/// An error as reported to callers: a code, a human message, and optional
/// free-form details.
#[derive(Debug, Clone)]
pub struct ApiError {
    pub error_code: ErrorCode,
    pub message: String,
    pub details: Option<String>,
}

impl ApiError {
    /// An error with no details.
    pub fn new(error_code: ErrorCode, message: String) -> (r: Self)
        ensures
            r.error_code == error_code,
            r.message@ == message@,
            r.details is None,
    {
        ApiError { error_code, message, details: None }
    }

    /// The same error with details attached.
    pub fn with_details(self, details: String) -> (r: Self)
        ensures
            r.error_code == self.error_code,
            r.message@ == self.message@,
            r.details is Some,
            r.details.unwrap()@ == details@,
    {
        ApiError { details: Some(details), ..self }
    }
}

/// The failure mapping for backend construction: a connect that ran out of
/// time reports `connect_timeout`; any other construction failure reports
/// `connect_failed`.
pub fn connect_failure_error(timed_out: bool, message: String) -> (r: ApiError)
    ensures
        r.error_code == if timed_out {
            ErrorCode::ConnectTimeout
        } else {
            ErrorCode::ConnectFailed
        },
        r.message@ == message@,
        r.details is None,
{
    ApiError {
        error_code: if timed_out {
            ErrorCode::ConnectTimeout
        } else {
            ErrorCode::ConnectFailed
        },
        message,
        details: None,
    }
}

/// Result type of the library's fallible operations.
pub type ApiResult<T> = Result<T, ApiError>;

} // verus!
