//! Keccak-256, as the host computes it.
use vstd::prelude::*;
use crate::primitives::Digest;

verus! {

/// The Keccak-256 digest of `input`.
pub uninterp spec fn keccak256_digest(input: Seq<u8>) -> Digest;

/// Calls `ink::env::hash_bytes` with the `Keccak256` hasher.
///
/// Trusted: the 32 bytes written to the output buffer are the Keccak-256
/// digest of `input`, and depend on nothing but `input`.
#[verifier::external_body]
fn keccak_256(input: &[u8]) -> (digest: Digest)
    ensures
        digest == keccak256_digest(input@),
{
    let mut digest = [0u8; 32];
    ink::env::hash_bytes::<ink::env::hash::Keccak256>(input, &mut digest);
    digest
}

/// The content address of `data`: its Keccak-256 digest.
pub fn hash_data(data: &[u8]) -> (digest: Digest)
    ensures
        digest == keccak256_digest(data@),
{
    keccak_256(data)
}

/// The digest that binds a proof to a payment: Keccak-256 over the proof
/// bytes followed by the public inputs.
pub fn calculate_proof_hash(proof_data: &Vec<u8>, public_inputs: &Vec<u8>) -> (digest: Digest)
    ensures
        digest == keccak256_digest(proof_data@ + public_inputs@),
{
    let mut message: Vec<u8> = proof_data.clone();
    let mut i: usize = 0;
    while i < public_inputs.len()
        invariant
            i <= public_inputs.len(),
            message@ == proof_data@ + public_inputs@.subrange(0, i as int),
        decreases public_inputs.len() - i,
    {
        message.push(public_inputs[i]);
        i += 1;
    }
    assert(public_inputs@.subrange(0, public_inputs.len() as int) =~= public_inputs@);
    keccak_256(message.as_slice())
}

} // verus!
