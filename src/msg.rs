//! The messages that the contract receives.

use vstd::prelude::*;

verus! {

/// The message to instantiate the contract.
#[derive(Debug, Clone, PartialEq, Eq)]
pub struct InstantiateMsg {}

/// Verifies an SP1 proof.
#[derive(Debug, Clone, PartialEq, Eq)]
pub struct VerifyProofMsg {
    /// The proof to verify.
    pub proof: Vec<u8>,
    /// The public values to verify the proof against.
    pub public_values: Vec<u8>,
    /// The hash of the SP1 program's verification key, `0x` and 64 hex digits.
    pub vk_hash: String,
}

/// The execute messages supported by the contract.
#[derive(Debug, Clone, PartialEq, Eq)]
pub enum ExecuteMsg {
    /// Verifies an SP1 proof.
    VerifyProof(VerifyProofMsg),
}

/// The query messages supported by the contract.
#[derive(Debug, Clone, PartialEq, Eq)]
pub enum QueryMsg {
    /// Verifies an SP1 proof.
    VerifyProof(VerifyProofMsg),
}

impl From<VerifyProofMsg> for QueryMsg {
    fn from(msg: VerifyProofMsg) -> (r: Self)
        ensures
            r == QueryMsg::VerifyProof(msg),
    {
        QueryMsg::VerifyProof(msg)
    }
}

impl vstd::std_specs::convert::FromSpecImpl<VerifyProofMsg> for QueryMsg {
    open spec fn obeys_from_spec() -> bool {
        true
    }

    open spec fn from_spec(v: VerifyProofMsg) -> QueryMsg {
        QueryMsg::VerifyProof(v)
    }
}

impl From<VerifyProofMsg> for ExecuteMsg {
    fn from(msg: VerifyProofMsg) -> (r: Self)
        ensures
            r == ExecuteMsg::VerifyProof(msg),
    {
        ExecuteMsg::VerifyProof(msg)
    }
}

impl vstd::std_specs::convert::FromSpecImpl<VerifyProofMsg> for ExecuteMsg {
    open spec fn obeys_from_spec() -> bool {
        true
    }

    open spec fn from_spec(v: VerifyProofMsg) -> ExecuteMsg {
        ExecuteMsg::VerifyProof(v)
    }
}

} // verus!
