//! The contract's entry logic: which proof system it verifies with, what it
//! records at instantiation, and how a verification request is answered.

use vstd::prelude::*;

use crate::backend::{
    accepted_proof_len, backend_verdict, backend_verify, verdict_view, ProofSystem,
};
use crate::error::{outcome_view, ContractError, ContractErrorView};
use crate::msg::{ExecuteMsg, QueryMsg, VerifyProofMsg};
use crate::vkey::{decode_vk_hash, is_vkey_hash};

verus! {

/// The proof system this contract verifies with.
pub const PROOF_SYSTEM: ProofSystem = ProofSystem::Groth16;

/// The name of the contract recorded with its version.
pub const CONTRACT_NAME: &'static str = "crates.io:cw-sp1-verifier-groth16";

/// The version of the contract recorded at instantiation.
pub const CONTRACT_VERSION: &'static str = "0.1.0";

/// The name and version that instantiation records.
#[derive(Debug, Clone, PartialEq, Eq)]
pub struct ContractVersion {
    pub contract: String,
    pub version: String,
}

/// The error that reports a rejection by the verifier of `system`.
pub open spec fn rejection(system: ProofSystem, message: Seq<char>) -> ContractErrorView {
    match system {
        ProofSystem::Groth16 => ContractErrorView::Groth16Error(message),
        ProofSystem::Plonk => ContractErrorView::PlonkError(message),
    }
}

/// The outcome of a request, given what the verifier said.
pub open spec fn verdict_outcome(
    system: ProofSystem,
    verdict: Result<(), Seq<char>>,
) -> Result<(), ContractErrorView> {
    match verdict {
        Ok(_) => Ok(()),
        Err(m) => Err(rejection(system, m)),
    }
}

/// The outcome of verifying a proof with `system`: a malformed key hash is
/// refused before the verifier runs; otherwise the verifier decides.
pub open spec fn verification_outcome(
    system: ProofSystem,
    proof: Seq<u8>,
    public_values: Seq<u8>,
    vk_hash: Seq<char>,
) -> Result<(), ContractErrorView> {
    if !is_vkey_hash(vk_hash) {
        Err(ContractErrorView::InvalidVkeyHash)
    } else {
        verdict_outcome(system, backend_verdict(system, proof, public_values, vk_hash))
    }
}

/// What every result of verifying a proof with `system` satisfies: its
/// outcome, that only a proof of the system's length is accepted, and that a
/// rejection carries a diagnostic.
pub open spec fn is_verification_result(
    system: ProofSystem,
    proof: Seq<u8>,
    public_values: Seq<u8>,
    vk_hash: Seq<char>,
    r: Result<(), ContractError>,
) -> bool {
    &&& outcome_view(r) == verification_outcome(system, proof, public_values, vk_hash)
    &&& r is Ok ==> proof.len() == accepted_proof_len(system)
    &&& r matches Err(e) ==> is_diagnosed(e@)
}

/// A rejection by a verifier carries a non-empty message.
pub open spec fn is_diagnosed(e: ContractErrorView) -> bool {
    match e {
        ContractErrorView::Groth16Error(m) => m.len() > 0,
        ContractErrorView::PlonkError(m) => m.len() > 0,
        _ => true,
    }
}

/// The payload of a successful query: the JSON of an empty object, `{}`.
pub open spec fn empty_payload() -> Seq<u8> {
    seq![0x7Bu8, 0x7Du8]
}

/// The answer to a query.
pub open spec fn query_outcome(msg: QueryMsg) -> Result<Seq<u8>, ContractErrorView> {
    match msg {
        QueryMsg::VerifyProof(m) => match verification_outcome(
            PROOF_SYSTEM,
            m.proof@,
            m.public_values@,
            m.vk_hash@,
        ) {
            Ok(_) => Ok(empty_payload()),
            Err(e) => Err(e),
        },
    }
}

/// The view of a query's answer.
pub open spec fn payload_view(
    r: Result<Vec<u8>, ContractError>,
) -> Result<Seq<u8>, ContractErrorView> {
    match r {
        Ok(v) => Ok(v@),
        Err(e) => Err(e@),
    }
}

/// The name and version to record at instantiation.
pub fn contract_version() -> (r: ContractVersion)
    ensures
        r.contract@ == CONTRACT_NAME@,
        r.version@ == CONTRACT_VERSION@,
{
    ContractVersion { contract: CONTRACT_NAME.to_owned(), version: CONTRACT_VERSION.to_owned() }
}

/// Maps what the verifier of `system` said to the contract's outcome: an
/// acceptance is success, a rejection keeps the verifier's message.
pub fn outcome_from_verdict(
    system: ProofSystem,
    verdict: Result<(), String>,
) -> (r: Result<(), ContractError>)
    ensures
        outcome_view(r) == verdict_outcome(system, verdict_view(verdict)),
{
    match verdict {
        Ok(()) => Ok(()),
        Err(m) => match system {
            ProofSystem::Groth16 => Err(ContractError::Groth16Error(m)),
            ProofSystem::Plonk => Err(ContractError::PlonkError(m)),
        },
    }
}

/// Verifies an SP1 proof with the verifier of `system`. The key hash is
/// decoded first, so that one that does not decode is refused with its own
/// error before the verifier runs.
pub fn verify_proof_with(
    system: ProofSystem,
    proof: &[u8],
    public_values: &[u8],
    vk_hash: &str,
) -> (r: Result<(), ContractError>)
    ensures
        is_verification_result(system, proof@, public_values@, vk_hash@, r),
{
    match decode_vk_hash(vk_hash) {
        Err(e) => Err(e),
        Ok(_) => {
            let verdict = backend_verify(system, proof, public_values, vk_hash);
            outcome_from_verdict(system, verdict)
        },
    }
}

/// Verifies an SP1 proof with the contract's proof system.
pub fn verify_proof(
    proof: Vec<u8>,
    public_values: Vec<u8>,
    vk_hash: String,
) -> (r: Result<(), ContractError>)
    ensures
        is_verification_result(PROOF_SYSTEM, proof@, public_values@, vk_hash@, r),
{
    verify_proof_with(PROOF_SYSTEM, proof.as_slice(), public_values.as_slice(), vk_hash.as_str())
}

/// Answers a query: `{}` when the proof verifies, the error otherwise.
pub fn query(msg: QueryMsg) -> (r: Result<Vec<u8>, ContractError>)
    ensures
        payload_view(r) == query_outcome(msg),
        r matches Err(e) ==> is_diagnosed(e@),
{
    match msg {
        QueryMsg::VerifyProof(m) => {
            let VerifyProofMsg { proof, public_values, vk_hash } = m;
            match verify_proof(proof, public_values, vk_hash) {
                Ok(()) => Ok(vec![0x7Bu8, 0x7Du8]),
                Err(e) => Err(e),
            }
        },
    }
}

/// Handles an execute message; verification records nothing.
pub fn execute(msg: ExecuteMsg) -> (r: Result<(), ContractError>)
    ensures
        match msg {
            ExecuteMsg::VerifyProof(m) => is_verification_result(
                PROOF_SYSTEM,
                m.proof@,
                m.public_values@,
                m.vk_hash@,
                r,
            ),
        },
{
    match msg {
        ExecuteMsg::VerifyProof(m) => verify_proof(m.proof, m.public_values, m.vk_hash),
    }
}

/// Verification has no hidden state: any two results for the same request
/// have the same view, error messages included.
pub proof fn verification_is_deterministic(
    system: ProofSystem,
    proof: Seq<u8>,
    public_values: Seq<u8>,
    vk_hash: Seq<char>,
    r1: Result<(), ContractError>,
    r2: Result<(), ContractError>,
)
    requires
        is_verification_result(system, proof, public_values, vk_hash, r1),
        is_verification_result(system, proof, public_values, vk_hash, r2),
    ensures
        outcome_view(r1) == outcome_view(r2),
{
}

/// Two answers to the same query are the same.
pub proof fn query_is_deterministic(
    msg: QueryMsg,
    r1: Result<Vec<u8>, ContractError>,
    r2: Result<Vec<u8>, ContractError>,
)
    requires
        payload_view(r1) == query_outcome(msg),
        payload_view(r2) == query_outcome(msg),
    ensures
        payload_view(r1) == payload_view(r2),
{
}

/// A proof that the verifier accepts, with a well-formed key hash, makes the
/// query answer with the payload `{}`.
pub proof fn accepted_proof_answers_empty_payload(msg: QueryMsg, r: Result<Vec<u8>, ContractError>)
    requires
        payload_view(r) == query_outcome(msg),
        match msg {
            QueryMsg::VerifyProof(m) => {
                &&& is_vkey_hash(m.vk_hash@)
                &&& backend_verdict(PROOF_SYSTEM, m.proof@, m.public_values@, m.vk_hash@) is Ok
            },
        },
    ensures
        r matches Ok(v) && v@ == empty_payload(),
{
}

/// With a well-formed key hash, a request either succeeds or fails with the
/// verifier's own error and a non-empty diagnostic, never anything else; a
/// proof of the wrong length always fails that way.
pub proof fn rejection_is_a_verifier_error(
    system: ProofSystem,
    proof: Seq<u8>,
    public_values: Seq<u8>,
    vk_hash: Seq<char>,
    r: Result<(), ContractError>,
)
    requires
        is_verification_result(system, proof, public_values, vk_hash, r),
        is_vkey_hash(vk_hash),
    ensures
        r matches Err(e) ==> exists|m: Seq<char>| m.len() > 0 && e@ == rejection(system, m),
        proof.len() != accepted_proof_len(system) ==> r is Err,
{
    if let Err(e) = r {
        if let Err(m) = backend_verdict(system, proof, public_values, vk_hash) {
            assert(e@ == rejection(system, m));
            assert(m.len() > 0);
        }
    }
}

/// A key hash that does not decode is reported as its own error, before any
/// verifier runs.
pub proof fn malformed_vkey_hash_is_reported(
    system: ProofSystem,
    proof: Seq<u8>,
    public_values: Seq<u8>,
    vk_hash: Seq<char>,
    r: Result<(), ContractError>,
)
    requires
        is_verification_result(system, proof, public_values, vk_hash, r),
        !is_vkey_hash(vk_hash),
    ensures
        r matches Err(e) && e@ == ContractErrorView::InvalidVkeyHash,
{
}

/// Dropping the last byte of an accepted proof makes the same request fail
/// with the verifier's error and a non-empty diagnostic.
pub proof fn truncated_proof_is_rejected(
    system: ProofSystem,
    proof: Seq<u8>,
    public_values: Seq<u8>,
    vk_hash: Seq<char>,
    accepted: Result<(), ContractError>,
    truncated: Result<(), ContractError>,
)
    requires
        is_verification_result(system, proof, public_values, vk_hash, accepted),
        is_verification_result(system, proof.drop_last(), public_values, vk_hash, truncated),
        accepted is Ok,
    ensures
        truncated matches Err(e) && exists|m: Seq<char>|
            m.len() > 0 && e@ == rejection(system, m),
{
    rejection_is_a_verifier_error(system, proof.drop_last(), public_values, vk_hash, truncated);
}

} // verus!
