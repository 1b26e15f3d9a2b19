//! How a flow fails.

use crate::chain::Header;
use vstd::prelude::*;

verus! {

/// A failure of a collaborator, with the collaborator's own account of it.
#[derive(Clone, Debug, PartialEq, Eq)]
pub enum Failure {
    /// The header breaks a consensus or ledger rule.
    Validation(String),
    /// The ledger or the storage could not take the block.
    Apply(String),
    /// The collaborator itself could not do its work.
    Infrastructure(String),
}

/// The error a flow ends with.
#[derive(Clone, Debug, PartialEq, Eq)]
pub enum Error {
    /// The parent of this header is not in the chain index, and the flow
    /// cannot go on without it.
    MissingParentBlockFromStorage(Header),
    /// The header was rejected by the validator.
    Validation(String),
    /// The block could not be applied; the chain index is as it was.
    Apply(String),
    /// A collaborator failed.
    Infrastructure(String),
}

/// The error that hands a collaborator's failure on: a rejected header stays
/// a rejected header, a failed application a failed application, and the
/// account is the collaborator's.
pub open spec fn error_of(failure: Failure) -> Error {
    match failure {
        Failure::Validation(reason) => Error::Validation(reason),
        Failure::Apply(reason) => Error::Apply(reason),
        Failure::Infrastructure(reason) => Error::Infrastructure(reason),
    }
}

impl Error {
    /// Hands a collaborator's failure on unchanged.
    pub fn from_failure(failure: Failure) -> (error: Error)
        ensures
            error == error_of(failure),
    {
        match failure {
            Failure::Validation(reason) => Error::Validation(reason),
            Failure::Apply(reason) => Error::Apply(reason),
            Failure::Infrastructure(reason) => Error::Infrastructure(reason),
        }
    }

    /// Whether this is the error for a header whose parent is unknown.
    pub open spec fn is_missing_parent(self) -> bool {
        self is MissingParentBlockFromStorage
    }
}

/// No failure of a collaborator turns into the error for a missing parent.
pub proof fn lemma_failure_is_never_missing_parent(failure: Failure)
    ensures
        !error_of(failure).is_missing_parent(),
{
}

} // verus!
