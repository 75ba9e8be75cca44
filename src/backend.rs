//! The two proof systems, each behind the SP1 verifier for it, with the
//! verification key that SP1 ships for its current version.

use vstd::prelude::*;

verus! {

/// The proof systems that SP1 wraps its proofs in.
#[derive(Debug, Clone, Copy, PartialEq, Eq)]
pub enum ProofSystem {
    Groth16,
    Plonk,
}

/// Bytes that SP1 puts before the proof proper: the first four bytes of the
/// verifying key's SHA-256, then the exit code, the key root and a nonce of
/// 32 bytes each.
pub const SP1_PROOF_HEADER: usize = 100;

/// Length of the gnark Groth16 proof after the header.
pub const GROTH16_PROOF_BODY: usize = 256;

/// Length of the gnark PLONK proof after the header, with its one BSB22
/// commitment.
pub const PLONK_PROOF_BODY: usize = 864;

/// The only proof length that a verifier of `system` can accept.
pub open spec fn accepted_proof_len(system: ProofSystem) -> nat {
    match system {
        ProofSystem::Groth16 => (SP1_PROOF_HEADER + GROTH16_PROOF_BODY) as nat,
        ProofSystem::Plonk => (SP1_PROOF_HEADER + PLONK_PROOF_BODY) as nat,
    }
}

/// What the Groth16 verifier says of a proof: accepted, or its diagnostic.
pub uninterp spec fn groth16_verdict(
    proof: Seq<u8>,
    public_values: Seq<u8>,
    vk_hash: Seq<char>,
) -> Result<(), Seq<char>>;

/// What the PLONK verifier says of a proof: accepted, or its diagnostic.
pub uninterp spec fn plonk_verdict(
    proof: Seq<u8>,
    public_values: Seq<u8>,
    vk_hash: Seq<char>,
) -> Result<(), Seq<char>>;

/// The view of what a verifier returned.
pub open spec fn verdict_view(r: Result<(), String>) -> Result<(), Seq<char>> {
    match r {
        Ok(_) => Ok(()),
        Err(m) => Err(m@),
    }
}

/// What the verifier of `system` says of a proof.
pub open spec fn backend_verdict(
    system: ProofSystem,
    proof: Seq<u8>,
    public_values: Seq<u8>,
    vk_hash: Seq<char>,
) -> Result<(), Seq<char>> {
    match system {
        ProofSystem::Groth16 => groth16_verdict(proof, public_values, vk_hash),
        ProofSystem::Plonk => plonk_verdict(proof, public_values, vk_hash),
    }
}

/// Relies on sp1_verifier::Groth16Verifier::verify with the embedded
/// GROTH16_VK_BYTES: a pure function of its inputs. It returns Ok only for a
/// proof of 100 header bytes and a 256-byte gnark proof. Every Groth16Error
/// displays a non-empty message. It slices the key hash at byte 2.
#[verifier::external_body]
fn groth16_verify(proof: &[u8], public_values: &[u8], vk_hash: &str) -> (r: Result<(), String>)
    requires
        vk_hash@.len() >= 2,
        vk_hash@[0] <= '\u{7f}',
        vk_hash@[1] <= '\u{7f}',
    ensures
        verdict_view(r) == groth16_verdict(proof@, public_values@, vk_hash@),
        r is Ok ==> proof@.len() == accepted_proof_len(ProofSystem::Groth16),
        r matches Err(m) ==> m@.len() > 0,
{
    match sp1_verifier::Groth16Verifier::verify(
        proof,
        public_values,
        vk_hash,
        *sp1_verifier::GROTH16_VK_BYTES,
    ) {
        Ok(()) => Ok(()),
        Err(e) => Err(e.to_string()),
    }
}

/// Relies on sp1_verifier::PlonkVerifier::verify with the embedded
/// PLONK_VK_BYTES: a pure function of its inputs. It returns Ok only for a
/// proof of 100 header bytes and an 864-byte gnark proof (one BSB22
/// commitment). Every PlonkError displays a non-empty message. It slices the
/// key hash at byte 2.
#[verifier::external_body]
fn plonk_verify(proof: &[u8], public_values: &[u8], vk_hash: &str) -> (r: Result<(), String>)
    requires
        vk_hash@.len() >= 2,
        vk_hash@[0] <= '\u{7f}',
        vk_hash@[1] <= '\u{7f}',
    ensures
        verdict_view(r) == plonk_verdict(proof@, public_values@, vk_hash@),
        r is Ok ==> proof@.len() == accepted_proof_len(ProofSystem::Plonk),
        r matches Err(m) ==> m@.len() > 0,
{
    match sp1_verifier::PlonkVerifier::verify(
        proof,
        public_values,
        vk_hash,
        *sp1_verifier::PLONK_VK_BYTES,
    ) {
        Ok(()) => Ok(()),
        Err(e) => Err(e.to_string()),
    }
}

/// Runs the verifier of `system` on a proof.
pub fn backend_verify(
    system: ProofSystem,
    proof: &[u8],
    public_values: &[u8],
    vk_hash: &str,
) -> (r: Result<(), String>)
    requires
        vk_hash@.len() >= 2,
        vk_hash@[0] <= '\u{7f}',
        vk_hash@[1] <= '\u{7f}',
    ensures
        verdict_view(r) == backend_verdict(system, proof@, public_values@, vk_hash@),
        r is Ok ==> proof@.len() == accepted_proof_len(system),
        r matches Err(m) ==> m@.len() > 0,
{
    match system {
        ProofSystem::Groth16 => groth16_verify(proof, public_values, vk_hash),
        ProofSystem::Plonk => plonk_verify(proof, public_values, vk_hash),
    }
}

} // verus!
