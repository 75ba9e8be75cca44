//! A CosmWasm contract that verifies SP1 Groth16 and PLONK proofs.
//!
//! The library holds the request handling: messages, the check of the
//! verification-key hash, dispatch to the selected proof system, and the
//! mapping of every failure to a [`ContractError`].

pub mod backend;
pub mod contract;
pub mod error;
pub mod msg;
pub mod vkey;

pub use backend::ProofSystem;
pub use contract::{
    contract_version, execute, outcome_from_verdict, query, verify_proof, verify_proof_with,
    ContractVersion, CONTRACT_NAME, CONTRACT_VERSION, PROOF_SYSTEM,
};
pub use error::ContractError;
pub use msg::{ExecuteMsg, InstantiateMsg, QueryMsg, VerifyProofMsg};
pub use vkey::decode_vk_hash;
