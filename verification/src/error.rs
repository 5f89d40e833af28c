//! The error type a job may return.

use vstd::prelude::*;

verus! {

/// A typed failure value returned by a job. A failing job is reported and
/// discarded; its error never reaches the submitter.
#[derive(Debug, Clone)]
pub enum ServerError {
    InternalError(String),
    OtherError(String),
}

impl ServerError {
    /// The human-readable text carried by the error.
    pub open spec fn text(&self) -> Seq<char> {
        match self {
            ServerError::InternalError(e) => e@,
            ServerError::OtherError(e) => e@,
        }
    }

    /// Returns the text carried by the error, whichever variant holds it.
    pub fn message(&self) -> (r: String)
        ensures
            r@ == self.text(),
    {
        match self {
            ServerError::InternalError(e) => e.clone(),
            ServerError::OtherError(e) => e.clone(),
        }
    }
}

} // verus!
