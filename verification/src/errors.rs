//! The five kinds of failure that every operation of the service reports.

use vstd::prelude::*;
use vstd::string::StringExecFns;

verus! {

/// The kind of a failure, as shown to the caller.
#[derive(Debug, Clone, Copy, PartialEq, Eq, Structural)]
pub enum Kind {
    BadRequest,
    Unauthorized,
    Forbidden,
    NotFound,
    Internal,
}

impl Kind {
    /// The canonical name of the kind.
    pub open spec fn name(self) -> Seq<char> {
        match self {
            Kind::BadRequest => "BadRequest"@,
            Kind::Unauthorized => "Unauthorized"@,
            Kind::Forbidden => "Forbidden"@,
            Kind::NotFound => "NotFound"@,
            Kind::Internal => "Internal"@,
        }
    }

    /// Renders the kind as its canonical name.
    pub fn to_string(&self) -> (text: String)
        ensures
            text@ == self.name(),
    {
        match self {
            Kind::BadRequest => String::from_str("BadRequest"),
            Kind::Unauthorized => String::from_str("Unauthorized"),
            Kind::Forbidden => String::from_str("Forbidden"),
            Kind::NotFound => String::from_str("NotFound"),
            Kind::Internal => String::from_str("Internal"),
        }
    }
}

/// A failure: its kind and an optional message for the caller.
#[derive(Debug, Clone)]
pub struct AppError {
    pub kind: Kind,
    pub msg: Option<String>,
}

impl AppError {
    /// The message as a sequence of characters, if there is one.
    pub open spec fn msg_view(self) -> Option<Seq<char>> {
        match self.msg {
            Some(m) => Some(m@),
            None => None,
        }
    }

    /// A failure of the given kind that carries `msg`.
    pub fn new(kind: Kind, msg: &str) -> (err: Self)
        ensures
            err.kind == kind,
            err.msg_view() == Some(msg@),
    {
        AppError { kind, msg: Some(String::from_str(msg)) }
    }

    /// An `Internal` failure without a message.
    pub fn internal() -> (err: Self)
        ensures
            err.kind == Kind::Internal,
            err.msg.is_none(),
    {
        AppError { kind: Kind::Internal, msg: None }
    }

    /// A `NotFound` failure without a message.
    pub fn not_found() -> (err: Self)
        ensures
            err.kind == Kind::NotFound,
            err.msg.is_none(),
    {
        AppError { kind: Kind::NotFound, msg: None }
    }

    /// A `BadRequest` failure without a message.
    pub fn bad_request() -> (err: Self)
        ensures
            err.kind == Kind::BadRequest,
            err.msg.is_none(),
    {
        AppError { kind: Kind::BadRequest, msg: None }
    }

    /// An `Unauthorized` failure without a message.
    pub fn un_authorized() -> (err: Self)
        ensures
            err.kind == Kind::Unauthorized,
            err.msg.is_none(),
    {
        AppError { kind: Kind::Unauthorized, msg: None }
    }

    /// A `Forbidden` failure without a message.
    pub fn forbidden() -> (err: Self)
        ensures
            err.kind == Kind::Forbidden,
            err.msg.is_none(),
    {
        AppError { kind: Kind::Forbidden, msg: None }
    }

    /// Normalises the text of a failure reported by a collaborator into an
    /// `Internal` failure that carries that text.
    pub fn from_message(msg: String) -> (err: Self)
        ensures
            err.kind == Kind::Internal,
            err.msg == Some(msg),
    {
        AppError { kind: Kind::Internal, msg: Some(msg) }
    }

    /// Normalises the failure of a point lookup: a failure that says that the
    /// resource asked for does not exist is `NotFound`, any other is
    /// `Internal`. Either carries the text of the failure.
    pub fn from_lookup_failure(not_found: bool, msg: String) -> (err: Self)
        ensures
            err.kind == (if not_found {
                Kind::NotFound
            } else {
                Kind::Internal
            }),
            err.msg == Some(msg),
    {
        if not_found {
            AppError { kind: Kind::NotFound, msg: Some(msg) }
        } else {
            AppError { kind: Kind::Internal, msg: Some(msg) }
        }
    }
}

} // verus!
