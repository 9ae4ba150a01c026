//! What the request surface decides for itself: who is authorized, how a
//! failure is shown, and whether an operation runs now or is queued.

pub mod errors;
pub mod mutation;
pub mod types;

use vstd::prelude::*;
use crate::errors::{AppError, Kind};

verus! {

/// The proof that a request carried a valid signature.
#[derive(Debug, Clone)]
pub struct Authorized {}

impl Authorized {
    /// Decides whether a request is authorized, from the outcome of checking
    /// the signature that it carried, or `None` when it carried none.
    ///
    /// A request without a signature is `Unauthorized`; a signature that did
    /// not check fails as the check failed.
    pub fn check(verification: Option<Result<(), AppError>>) -> (res: Result<Authorized, AppError>)
        ensures
            match verification {
                None => (res matches Err(e) && e.kind == Kind::Unauthorized),
                Some(Err(failure)) => res == Err::<Authorized, AppError>(failure),
                Some(Ok(_)) => res.is_ok(),
            },
    {
        match verification {
            None => Err(AppError::new(Kind::Unauthorized, "the signature is missing")),
            Some(Err(failure)) => Err(failure),
            Some(Ok(_)) => Ok(Authorized {  }),
        }
    }
}

} // verus!
