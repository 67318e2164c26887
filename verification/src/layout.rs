//! The persisted layout of the program's two records: an eight-byte
//! discriminator, then the fields in order, identities and the commitment as
//! they are, integers little-endian, the flag as one byte.

use vstd::prelude::*;
use vstd::bytes::{
    lemma_auto_spec_u64_to_from_le_bytes, spec_u64_to_le_bytes, u64_from_le_bytes, u64_to_le_bytes,
};
use vstd::slice::slice_subrange;
use crate::address::Address;
use crate::state::{ProgramState, ProofRecord};

verus! {

/// Prefix of every persisted program state.
pub const PROGRAM_STATE_DISCRIMINATOR: [u8; 8] = [77, 209, 137, 229, 149, 67, 167, 230];

/// Prefix of every persisted proof record.
pub const PROOF_RECORD_DISCRIMINATOR: [u8; 8] = [237, 59, 155, 172, 204, 117, 87, 44];

/// Bytes that a persisted program state takes: the discriminator, two
/// identities, two counters and two bumps.
pub const PROGRAM_STATE_SPACE: usize = 90;

/// Bytes that a persisted proof record takes: the discriminator, the
/// commitment, the farmer, the timestamp and the flag.
pub const PROOF_RECORD_SPACE: usize = 81;

/// The byte of a flag.
pub open spec fn flag_byte(flag: bool) -> u8 {
    if flag {
        1
    } else {
        0
    }
}

/// A program state as it is persisted.
pub open spec fn program_state_bytes(state: ProgramState) -> Seq<u8> {
    PROGRAM_STATE_DISCRIMINATOR@ + state.authority@ + state.mint@ + spec_u64_to_le_bytes(
        state.total_proofs_verified,
    ) + spec_u64_to_le_bytes(state.total_tokens_minted) + seq![state.bump, state.mint_bump]
}

/// A proof record as it is persisted.
pub open spec fn proof_record_bytes(record: ProofRecord) -> Seq<u8> {
    PROOF_RECORD_DISCRIMINATOR@ + record.commitment@ + record.farmer@ + spec_u64_to_le_bytes(
        record.timestamp as u64,
    ) + seq![flag_byte(record.verified)]
}

/// Copies the 32 bytes at `at`.
fn address_at(bytes: &[u8], at: usize) -> (address: Address)
    requires
        at + 32 <= bytes@.len(),
    ensures
        address@ == bytes@.subrange(at as int, at + 32),
{
    let mut address: Address = [0u8; 32];
    let len = bytes.len();
    let mut i: usize = 0;
    while i < 32
        invariant
            i <= 32,
            len == bytes@.len(),
            at + 32 <= len,
            forall|k: int| 0 <= k < i ==> address@[k] == bytes@[at + k],
        decreases 32 - i,
    {
        address[i] = bytes[at + i];
        i += 1;
    }
    address
}

/// Whether `bytes` begins with `prefix`.
fn begins_with(bytes: &[u8], prefix: &[u8; 8]) -> (begins: bool)
    requires
        bytes@.len() >= 8,
    ensures
        begins == (bytes@.subrange(0, 8) == prefix@),
{
    let mut i: usize = 0;
    while i < 8
        invariant
            i <= 8,
            bytes@.len() >= 8,
            forall|k: int| 0 <= k < i ==> bytes@[k] == prefix@[k],
        decreases 8 - i,
    {
        if bytes[i] != prefix[i] {
            return false;
        }
        i += 1;
    }
    assert(bytes@.subrange(0, 8) =~= prefix@);
    true
}

/// The bytes under which a program state is persisted.
pub fn encode_program_state(state: &ProgramState) -> (bytes: Vec<u8>)
    ensures
        bytes@ == program_state_bytes(*state),
        bytes@.len() == PROGRAM_STATE_SPACE,
{
    let mut bytes: Vec<u8> = Vec::new();
    bytes.extend_from_slice(PROGRAM_STATE_DISCRIMINATOR.as_slice());
    bytes.extend_from_slice(state.authority.as_slice());
    bytes.extend_from_slice(state.mint.as_slice());
    let proofs = u64_to_le_bytes(state.total_proofs_verified);
    bytes.extend_from_slice(proofs.as_slice());
    let tokens = u64_to_le_bytes(state.total_tokens_minted);
    bytes.extend_from_slice(tokens.as_slice());
    bytes.push(state.bump);
    bytes.push(state.mint_bump);
    bytes
}

/// Reads a persisted program state. `None` where the bytes are not those
/// of any program state: the length or the discriminator is wrong.
pub fn decode_program_state(bytes: &[u8]) -> (state: Option<ProgramState>)
    ensures
        match state {
            Some(state) => bytes@ == program_state_bytes(state),
            None => forall|state: ProgramState| bytes@ != program_state_bytes(state),
        },
{
    proof {
        lemma_auto_spec_u64_to_from_le_bytes();
    }
    if bytes.len() != PROGRAM_STATE_SPACE {
        return None;
    }
    if !begins_with(bytes, &PROGRAM_STATE_DISCRIMINATOR) {
        assert forall|state: ProgramState| bytes@ != program_state_bytes(state) by {
            assert(program_state_bytes(state).subrange(0, 8) =~= PROGRAM_STATE_DISCRIMINATOR@);
        }
        return None;
    }
    let state = ProgramState {
        authority: address_at(bytes, 8),
        mint: address_at(bytes, 40),
        total_proofs_verified: u64_from_le_bytes(slice_subrange(bytes, 72, 80)),
        total_tokens_minted: u64_from_le_bytes(slice_subrange(bytes, 80, 88)),
        bump: bytes[88],
        mint_bump: bytes[89],
    };
    Some(state)
}

/// The bytes under which a proof record is persisted.
pub fn encode_proof_record(record: &ProofRecord) -> (bytes: Vec<u8>)
    ensures
        bytes@ == proof_record_bytes(*record),
        bytes@.len() == PROOF_RECORD_SPACE,
{
    let mut bytes: Vec<u8> = Vec::new();
    bytes.extend_from_slice(PROOF_RECORD_DISCRIMINATOR.as_slice());
    bytes.extend_from_slice(record.commitment.as_slice());
    bytes.extend_from_slice(record.farmer.as_slice());
    let timestamp = u64_to_le_bytes(record.timestamp as u64);
    bytes.extend_from_slice(timestamp.as_slice());
    bytes.push(if record.verified { 1 } else { 0 });
    bytes
}

/// Reads a persisted proof record. `None` where the bytes are not those of
/// any proof record: the length or the discriminator is wrong, or the flag
/// is neither 0 nor 1.
pub fn decode_proof_record(bytes: &[u8]) -> (record: Option<ProofRecord>)
    ensures
        match record {
            Some(record) => bytes@ == proof_record_bytes(record),
            None => forall|record: ProofRecord| bytes@ != proof_record_bytes(record),
        },
{
    proof {
        lemma_auto_spec_u64_to_from_le_bytes();
    }
    if bytes.len() != PROOF_RECORD_SPACE {
        return None;
    }
    if !begins_with(bytes, &PROOF_RECORD_DISCRIMINATOR) {
        assert forall|record: ProofRecord| bytes@ != proof_record_bytes(record) by {
            assert(proof_record_bytes(record).subrange(0, 8) =~= PROOF_RECORD_DISCRIMINATOR@);
        }
        return None;
    }
    if bytes[80] > 1 {
        assert forall|record: ProofRecord| bytes@ != proof_record_bytes(record) by {
            assert(proof_record_bytes(record)[80] == flag_byte(record.verified));
        }
        return None;
    }
    let stamp = u64_from_le_bytes(slice_subrange(bytes, 72, 80));
    let record = ProofRecord {
        commitment: address_at(bytes, 8),
        farmer: address_at(bytes, 40),
        timestamp: stamp as i64,
        verified: bytes[80] == 1,
    };
    assert((stamp as i64) as u64 == stamp) by (bit_vector);
    Some(record)
}

/// Different program states are persisted under different bytes, so that
/// what is read back is what was written.
pub proof fn program_state_bytes_are_unambiguous(one: ProgramState, other: ProgramState)
    requires
        program_state_bytes(one) == program_state_bytes(other),
    ensures
        one == other,
{
    lemma_auto_spec_u64_to_from_le_bytes();
    let a = program_state_bytes(one);
    let b = program_state_bytes(other);
    assert(one.authority@ =~= a.subrange(8, 40));
    assert(other.authority@ =~= b.subrange(8, 40));
    assert(one.mint@ =~= a.subrange(40, 72));
    assert(other.mint@ =~= b.subrange(40, 72));
    assert(spec_u64_to_le_bytes(one.total_proofs_verified) =~= a.subrange(72, 80));
    assert(spec_u64_to_le_bytes(other.total_proofs_verified) =~= b.subrange(72, 80));
    assert(spec_u64_to_le_bytes(one.total_tokens_minted) =~= a.subrange(80, 88));
    assert(spec_u64_to_le_bytes(other.total_tokens_minted) =~= b.subrange(80, 88));
    assert(one.bump == a[88] && other.bump == b[88]);
    assert(one.mint_bump == a[89] && other.mint_bump == b[89]);
    assert(one.authority =~= other.authority);
    assert(one.mint =~= other.mint);
}

/// Different proof records are persisted under different bytes.
pub proof fn proof_record_bytes_are_unambiguous(one: ProofRecord, other: ProofRecord)
    requires
        proof_record_bytes(one) == proof_record_bytes(other),
    ensures
        one == other,
{
    lemma_auto_spec_u64_to_from_le_bytes();
    let a = proof_record_bytes(one);
    let b = proof_record_bytes(other);
    assert(one.commitment@ =~= a.subrange(8, 40));
    assert(other.commitment@ =~= b.subrange(8, 40));
    assert(one.farmer@ =~= a.subrange(40, 72));
    assert(other.farmer@ =~= b.subrange(40, 72));
    assert(spec_u64_to_le_bytes(one.timestamp as u64) =~= a.subrange(72, 80));
    assert(spec_u64_to_le_bytes(other.timestamp as u64) =~= b.subrange(72, 80));
    assert(flag_byte(one.verified) == a[80] && flag_byte(other.verified) == b[80]);
    assert(one.commitment =~= other.commitment);
    assert(one.farmer =~= other.farmer);
    let s = one.timestamp;
    let t = other.timestamp;
    assert(s as u64 == t as u64 ==> s == t) by (bit_vector);
}

} // verus!
