use cosmwasm_std::MemoryStorage;
use cw_sp1_verifier::{
    contract_version, decode_vk_hash, execute, outcome_from_verdict, query, verify_proof,
    verify_proof_with, ContractError, ExecuteMsg, ProofSystem, QueryMsg, VerifyProofMsg,
    CONTRACT_NAME, CONTRACT_VERSION, PROOF_SYSTEM,
};

fn vk_hash_of(hex_digits: &str) -> String {
    format!("0x{}", hex_digits)
}

fn sample_vk_hash() -> String {
    vk_hash_of(&format!("{}1f", "00".repeat(31)))
}

fn message(proof: Vec<u8>, public_values: Vec<u8>, vk_hash: String) -> VerifyProofMsg {
    VerifyProofMsg { proof, public_values, vk_hash }
}

fn backend_message(e: &ContractError) -> String {
    match e {
        ContractError::Groth16Error(m) => m.clone(),
        ContractError::PlonkError(m) => m.clone(),
        other => panic!("not a verifier error: {:?}", other),
    }
}

#[test]
fn decodes_lowercase_vk_hash() {
    let mut expected = vec![0u8; 31];
    expected.push(0x1f);
    assert_eq!(decode_vk_hash(&sample_vk_hash()), Ok(expected));
}

#[test]
fn decodes_mixed_case_vk_hash() {
    let vk = vk_hash_of(&"aB".repeat(32));
    assert_eq!(decode_vk_hash(&vk), Ok(vec![0xab; 32]));
}

#[test]
fn rejects_vk_hash_without_prefix() {
    let vk = format!("00{}", "11".repeat(32));
    assert_eq!(decode_vk_hash(&vk), Err(ContractError::InvalidVkeyHash));
    let vk = format!("0X{}", "11".repeat(32));
    assert_eq!(decode_vk_hash(&vk), Err(ContractError::InvalidVkeyHash));
}

#[test]
fn rejects_vk_hash_of_wrong_length() {
    assert_eq!(decode_vk_hash(""), Err(ContractError::InvalidVkeyHash));
    assert_eq!(decode_vk_hash("0x"), Err(ContractError::InvalidVkeyHash));
    assert_eq!(decode_vk_hash(&vk_hash_of(&"11".repeat(31))), Err(ContractError::InvalidVkeyHash));
    assert_eq!(decode_vk_hash(&vk_hash_of(&"11".repeat(33))), Err(ContractError::InvalidVkeyHash));
    assert_eq!(decode_vk_hash(&vk_hash_of(&"1".repeat(63))), Err(ContractError::InvalidVkeyHash));
}

#[test]
fn rejects_vk_hash_with_non_hex_digit() {
    let vk = vk_hash_of(&format!("{}zz", "11".repeat(31)));
    assert_eq!(decode_vk_hash(&vk), Err(ContractError::InvalidVkeyHash));
}

#[test]
fn rejects_non_ascii_vk_hash_without_panicking() {
    assert_eq!(decode_vk_hash("\u{20ac}"), Err(ContractError::InvalidVkeyHash));
    let vk = format!("\u{e9}{}", "11".repeat(32));
    assert_eq!(decode_vk_hash(&vk), Err(ContractError::InvalidVkeyHash));
    let vk = format!("0x{}\u{e9}", "11".repeat(31));
    assert_eq!(decode_vk_hash(&vk), Err(ContractError::InvalidVkeyHash));
}

#[test]
fn accepted_verdict_is_success() {
    assert_eq!(outcome_from_verdict(ProofSystem::Groth16, Ok(())), Ok(()));
    assert_eq!(outcome_from_verdict(ProofSystem::Plonk, Ok(())), Ok(()));
}

#[test]
fn rejected_verdict_keeps_the_message() {
    assert_eq!(
        outcome_from_verdict(ProofSystem::Groth16, Err("Proof verification failed".to_string())),
        Err(ContractError::Groth16Error("Proof verification failed".to_string()))
    );
    assert_eq!(
        outcome_from_verdict(ProofSystem::Plonk, Err("Pairing check failed".to_string())),
        Err(ContractError::PlonkError("Pairing check failed".to_string()))
    );
}

#[test]
fn zeroed_groth16_proof_is_a_verifier_error() {
    let proof = vec![0u8; 356];
    let r = verify_proof_with(ProofSystem::Groth16, &proof, &[1, 2, 3], &sample_vk_hash());
    assert_eq!(r, Err(ContractError::Groth16Error("Groth16 vkey hash mismatch".to_string())));
}

#[test]
fn zeroed_plonk_proof_is_a_verifier_error() {
    let proof = vec![0u8; 964];
    let r = verify_proof_with(ProofSystem::Plonk, &proof, &[1, 2, 3], &sample_vk_hash());
    assert_eq!(r, Err(ContractError::PlonkError("Plonk vkey hash mismatch".to_string())));
}

#[test]
fn short_proof_is_a_verifier_error_with_a_message() {
    for system in [ProofSystem::Groth16, ProofSystem::Plonk] {
        let r = verify_proof_with(system, &[0u8; 99], &[], &sample_vk_hash());
        let e = r.unwrap_err();
        assert!(!backend_message(&e).is_empty());
    }
    let r = verify_proof_with(ProofSystem::Groth16, &[0u8; 355], &[], &sample_vk_hash());
    assert_eq!(r, Err(ContractError::Groth16Error("Groth16 vkey hash mismatch".to_string())));
}

fn sp1_header(vk: &[u8]) -> Vec<u8> {
    let mut header = sp1_verifier::sha256_hash(vk)[..4].to_vec();
    header.extend_from_slice(&[0u8; 32]);
    header.extend_from_slice(&*sp1_verifier::VK_ROOT_BYTES);
    header.extend_from_slice(&[0u8; 32]);
    header
}

#[test]
fn truncated_groth16_proof_is_a_verifier_error() {
    let mut proof = sp1_header(*sp1_verifier::GROTH16_VK_BYTES);
    proof.extend_from_slice(&[0u8; 255]);
    assert_eq!(proof.len(), 355);
    let r = verify_proof_with(ProofSystem::Groth16, &proof, &[], &sample_vk_hash());
    assert_eq!(r, Err(ContractError::Groth16Error("General error: Invalid data".to_string())));
}

#[test]
fn truncated_plonk_proof_is_a_verifier_error() {
    let mut proof = sp1_header(*sp1_verifier::PLONK_VK_BYTES);
    proof.extend_from_slice(&[0u8; 863]);
    let r = verify_proof_with(ProofSystem::Plonk, &proof, &[], &sample_vk_hash());
    assert_eq!(r, Err(ContractError::PlonkError("General error: Invalid data".to_string())));
}

#[test]
fn full_length_forged_proof_is_a_verifier_error() {
    let mut proof = sp1_header(*sp1_verifier::GROTH16_VK_BYTES);
    proof.extend_from_slice(&[0u8; 256]);
    let r = verify_proof_with(ProofSystem::Groth16, &proof, &[0xff; 32], &sample_vk_hash());
    assert!(!backend_message(&r.unwrap_err()).is_empty());
}

#[test]
fn empty_proof_is_rejected() {
    let r = verify_proof(vec![], vec![], sample_vk_hash());
    assert!(!backend_message(&r.unwrap_err()).is_empty());
}

#[test]
fn malformed_vk_hash_is_reported_before_verification() {
    let r = verify_proof(vec![0u8; 356], vec![0xff; 32], "0xnot-a-hash".to_string());
    assert_eq!(r, Err(ContractError::InvalidVkeyHash));
    let r = verify_proof_with(ProofSystem::Plonk, &[0u8; 964], &[], "");
    assert_eq!(r, Err(ContractError::InvalidVkeyHash));
}

#[test]
fn unreduced_public_values_do_not_abort() {
    let r = verify_proof(vec![0u8; 356], vec![0xff; 64], sample_vk_hash());
    assert!(!backend_message(&r.unwrap_err()).is_empty());
}

#[test]
fn query_twice_gives_the_same_answer() {
    let msg = QueryMsg::VerifyProof(message(vec![7u8; 356], vec![1, 2], sample_vk_hash()));
    let first = query(msg.clone());
    let second = query(msg);
    assert!(first.is_err());
    assert_eq!(first, second);
}

#[test]
fn query_with_invalid_proof_is_an_error() {
    let msg = QueryMsg::from(message(vec![0u8; 356], vec![], sample_vk_hash()));
    let r = query(msg);
    assert_eq!(r, Err(ContractError::Groth16Error("Groth16 vkey hash mismatch".to_string())));
}

#[test]
fn query_with_malformed_vk_hash_is_an_error() {
    let msg = QueryMsg::from(message(vec![0u8; 356], vec![], "0x12".to_string()));
    assert_eq!(query(msg), Err(ContractError::InvalidVkeyHash));
}

#[test]
fn execute_routes_to_verification() {
    let msg = ExecuteMsg::from(message(vec![0u8; 356], vec![], sample_vk_hash()));
    assert_eq!(
        execute(msg),
        Err(ContractError::Groth16Error("Groth16 vkey hash mismatch".to_string()))
    );
    let msg = ExecuteMsg::VerifyProof(message(vec![], vec![], "bad".to_string()));
    assert_eq!(execute(msg), Err(ContractError::InvalidVkeyHash));
}

#[test]
fn messages_wrap_the_request() {
    let m = message(vec![1], vec![2], sample_vk_hash());
    assert_eq!(QueryMsg::from(m.clone()), QueryMsg::VerifyProof(m.clone()));
    assert_eq!(ExecuteMsg::from(m.clone()), ExecuteMsg::VerifyProof(m));
}

#[test]
fn contract_version_is_the_build_name_and_version() {
    let v = contract_version();
    assert_eq!(v.contract, "crates.io:cw-sp1-verifier-groth16");
    assert_eq!(v.contract, CONTRACT_NAME);
    assert_eq!(v.version, "0.1.0");
    assert_eq!(v.version, CONTRACT_VERSION);
    assert_eq!(PROOF_SYSTEM, ProofSystem::Groth16);
}

#[test]
fn recorded_version_reads_back_exactly() {
    let mut storage = MemoryStorage::new();
    let v = contract_version();
    cw2::set_contract_version(&mut storage, v.contract.clone(), v.version.clone()).unwrap();
    let stored = cw2::get_contract_version(&storage).unwrap();
    assert_eq!(stored.contract.as_bytes(), CONTRACT_NAME.as_bytes());
    assert_eq!(stored.version.as_bytes(), CONTRACT_VERSION.as_bytes());
}
