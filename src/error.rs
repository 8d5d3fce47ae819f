use vstd::prelude::*;

verus! {

/// The closed set of failure kinds that every component reports.
#[derive(Clone, Copy, Debug, PartialEq, Eq, Structural)]
pub enum ErrorCode {
    InvalidData,
    ResourceNotFound,
    ResourceAlreadyExists,
    NotAuthorized,
    InvalidCredentials,
    DatabaseError,
    CorruptResource,
    Unknown,
}

/// A failure: its kind and a message for diagnostics.
pub struct Error {
    pub code: ErrorCode,
    pub msg: String,
}

impl Error {
    pub fn new(code: ErrorCode) -> (e: Error)
        ensures
            e.code == code,
            e.msg@ == Seq::<char>::empty(),
    {
        Error { code, msg: String::new() }
    }

    pub fn custom(code: ErrorCode, msg: String) -> (e: Error)
        ensures
            e.code == code,
            e.msg@ == msg@,
    {
        Error { code, msg }
    }
}

/// The message that a successful operation reports.
pub struct Success {
    pub msg: String,
}

impl Success {
    pub fn new(msg: &str) -> (s: Success)
        ensures
            s.msg@ == msg@,
    {
        Success { msg: String::from_str(msg) }
    }
}

} // verus!
