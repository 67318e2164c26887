//! Structural validation of a submitted proof.
//!
//! This is not a cryptographic check. A proof passes as soon as none of its
//! components is all zero, the public signals are present and the commitment
//! is not all zero; no pairing equation is evaluated and the public signals
//! are not bound to the commitment. Any proof with non-zero bytes is accepted.

use vstd::prelude::*;
use crate::error::KisanError;

verus! {

/// Every byte of the sequence is zero (true of the empty sequence).
pub open spec fn all_zero(bytes: Seq<u8>) -> bool {
    forall|i: int| 0 <= i < bytes.len() ==> bytes[i] == 0
}

/// The verdict on a submission: the first of the five checks that fails
/// decides the error.
pub open spec fn verify_spec(
    proof_a: Seq<u8>,
    proof_b: Seq<u8>,
    proof_c: Seq<u8>,
    public_signals: Seq<u8>,
    commitment: Seq<u8>,
) -> Result<(), KisanError> {
    if all_zero(proof_a) || all_zero(proof_b) || all_zero(proof_c) {
        Err(KisanError::InvalidProof)
    } else if public_signals.len() == 0 {
        Err(KisanError::InvalidPublicSignals)
    } else if all_zero(commitment) {
        Err(KisanError::InvalidCommitment)
    } else {
        Ok(())
    }
}

/// Whether every byte is zero.
pub fn is_all_zero(bytes: &[u8]) -> (zero: bool)
    ensures
        zero == all_zero(bytes@),
{
    let mut i: usize = 0;
    while i < bytes.len()
        invariant
            i <= bytes.len(),
            forall|k: int| 0 <= k < i ==> bytes@[k] == 0,
        decreases bytes.len() - i,
    {
        if bytes[i] != 0 {
            return false;
        }
        i += 1;
    }
    true
}

/// Checks a submission's structure: each proof component in turn, then the
/// public signals, then the commitment. Reads its arguments and nothing else.
pub fn verify(
    proof_a: &[u8; 64],
    proof_b: &[u8; 128],
    proof_c: &[u8; 64],
    public_signals: &[u8],
    commitment: &[u8; 32],
) -> (verdict: Result<(), KisanError>)
    ensures
        verdict == verify_spec(proof_a@, proof_b@, proof_c@, public_signals@, commitment@),
{
    if is_all_zero(proof_a.as_slice()) {
        return Err(KisanError::InvalidProof);
    }
    if is_all_zero(proof_b.as_slice()) {
        return Err(KisanError::InvalidProof);
    }
    if is_all_zero(proof_c.as_slice()) {
        return Err(KisanError::InvalidProof);
    }
    if public_signals.len() == 0 {
        return Err(KisanError::InvalidPublicSignals);
    }
    if is_all_zero(commitment.as_slice()) {
        return Err(KisanError::InvalidCommitment);
    }
    Ok(())
}

} // verus!
