//! The outcome of a refused request: a status code and a message, as the
//! service reports it to callers.

use vstd::prelude::*;

verus! {

/// Why a request was refused.
#[derive(Debug, Clone, Copy, PartialEq, Eq, Structural)]
pub enum Code {
    InvalidArgument,
    NotFound,
    PermissionDenied,
    FailedPrecondition,
    Unauthenticated,
    Internal,
}

/// A refused request: its code and message.
#[derive(Debug, Clone)]
pub struct Status {
    pub code: Code,
    pub message: String,
}

impl Status {
    /// A status with `code` and `message`.
    pub fn new(code: Code, message: &str) -> (r: Status)
        ensures
            r.code == code,
            r.message@ == message@,
    {
        Status { code, message: String::from_str(message) }
    }

    pub fn invalid_argument(message: &str) -> (r: Status)
        ensures
            r.code == Code::InvalidArgument,
            r.message@ == message@,
    {
        Status::new(Code::InvalidArgument, message)
    }

    pub fn not_found(message: &str) -> (r: Status)
        ensures
            r.code == Code::NotFound,
            r.message@ == message@,
    {
        Status::new(Code::NotFound, message)
    }

    pub fn permission_denied(message: &str) -> (r: Status)
        ensures
            r.code == Code::PermissionDenied,
            r.message@ == message@,
    {
        Status::new(Code::PermissionDenied, message)
    }

    pub fn failed_precondition(message: &str) -> (r: Status)
        ensures
            r.code == Code::FailedPrecondition,
            r.message@ == message@,
    {
        Status::new(Code::FailedPrecondition, message)
    }

    pub fn unauthenticated(message: &str) -> (r: Status)
        ensures
            r.code == Code::Unauthenticated,
            r.message@ == message@,
    {
        Status::new(Code::Unauthenticated, message)
    }

    pub fn internal(message: &str) -> (r: Status)
        ensures
            r.code == Code::Internal,
            r.message@ == message@,
    {
        Status::new(Code::Internal, message)
    }

    /// The message.
    pub fn message(&self) -> (r: &str)
        ensures
            r@ == self.message@,
    {
        self.message.as_str()
    }
}

/// The status `r` has `code` and `message`.
pub open spec fn is_status(r: Status, code: Code, message: Seq<char>) -> bool {
    r.code == code && r.message@ == message
}

} // verus!
