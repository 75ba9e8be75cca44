//! The errors that the contract returns.

use vstd::prelude::*;

verus! {

/// The error type returned by the contract's functions.
#[derive(Debug, Clone, PartialEq, Eq)]
pub enum ContractError {
    /// A failure of the host's storage, with its message.
    Std(String),
    /// The caller may not perform the operation.
    Unauthorized {},
    /// Groth16 verification failed; the verifier's own diagnostic.
    Groth16Error(String),
    /// PLONK verification failed; the verifier's own diagnostic.
    PlonkError(String),
    /// The verification-key hash is not `0x` followed by 64 hex digits.
    InvalidVkeyHash,
}

/// What a [`ContractError`] says, with its messages as character sequences.
pub ghost enum ContractErrorView {
    Std(Seq<char>),
    Unauthorized,
    Groth16Error(Seq<char>),
    PlonkError(Seq<char>),
    InvalidVkeyHash,
}

impl View for ContractError {
    type V = ContractErrorView;

    open spec fn view(&self) -> ContractErrorView {
        match self {
            ContractError::Std(m) => ContractErrorView::Std(m@),
            ContractError::Unauthorized {} => ContractErrorView::Unauthorized,
            ContractError::Groth16Error(m) => ContractErrorView::Groth16Error(m@),
            ContractError::PlonkError(m) => ContractErrorView::PlonkError(m@),
            ContractError::InvalidVkeyHash => ContractErrorView::InvalidVkeyHash,
        }
    }
}

/// The view of a result whose success carries nothing.
pub open spec fn outcome_view(r: Result<(), ContractError>) -> Result<(), ContractErrorView> {
    match r {
        Ok(_) => Ok(()),
        Err(e) => Err(e@),
    }
}

} // verus!
