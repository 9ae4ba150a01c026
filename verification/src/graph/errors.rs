//! Failures as the request surface shows them: a code and a message.

use vstd::prelude::*;
use vstd::string::StringExecFns;
use crate::errors::{AppError, Kind};

verus! {

/// A failure as shown to the caller of the request surface.
#[derive(Debug)]
pub struct Error {
    pub code: String,
    pub message: String,
}

/// The code under which a kind of failure is shown.
pub open spec fn code_of(kind: Kind) -> Seq<char> {
    match kind {
        Kind::BadRequest => "BadRequest"@,
        Kind::Unauthorized => "UnAuthorized"@,
        Kind::Forbidden => "Forbidden"@,
        Kind::NotFound => "NotFound"@,
        Kind::Internal => "Internal"@,
    }
}

impl Error {
    /// The failure with the given code and message.
    pub fn new(code: String, message: String) -> (err: Self)
        ensures
            err.code == code,
            err.message == message,
    {
        Error { code, message }
    }

    /// Shows a failure of the service: the code of its kind, and its message,
    /// or an empty message where it has none.
    pub fn from(v: AppError) -> (err: Self)
        ensures
            err.code@ == code_of(v.kind),
            err.message@ == match v.msg_view() {
                Some(m) => m,
                None => Seq::<char>::empty(),
            },
    {
        let code = match v.kind {
            Kind::BadRequest => String::from_str("BadRequest"),
            Kind::Unauthorized => String::from_str("UnAuthorized"),
            Kind::Forbidden => String::from_str("Forbidden"),
            Kind::NotFound => String::from_str("NotFound"),
            Kind::Internal => String::from_str("Internal"),
        };
        let message = match v.msg {
            Some(m) => m,
            None => String::new(),
        };
        Error::new(code, message)
    }
}

} // verus!
