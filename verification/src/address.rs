//! Deterministic addressing: every account of the program lives at an
//! address computed from fixed seed bytes and the program's own identity.
//!
//! The computation itself (a hash over the seeds, and a search for the bump
//! byte that moves the result off the ed25519 curve, so that no private key
//! exists for it) is done by `anchor_lang`'s `Pubkey`. Here it is known by
//! name only: [`program_address`].

use vstd::prelude::*;
use anchor_lang::prelude::Pubkey;

verus! {

/// An account address or an identity: 32 opaque bytes.
pub type Address = [u8; 32];

/// The identity of the program itself, under which all addresses are derived.
pub const PROGRAM_ID: Address = [
    218, 7, 92, 178, 255, 94, 198, 129, 118, 19, 222, 83, 11, 105, 42, 135,
    53, 71, 119, 105, 218, 71, 67, 12, 189, 129, 84, 51, 92, 74, 131, 39,
];

/// Seed of the program state's address: the bytes of `kisan-depin-state`.
pub const STATE_SEED: [u8; 17] = [
    107, 105, 115, 97, 110, 45, 100, 101, 112, 105, 110, 45, 115, 116, 97, 116, 101,
];

/// Seed of the mint's address: the bytes of `green-token-mint`.
pub const MINT_SEED: [u8; 16] = [
    103, 114, 101, 101, 110, 45, 116, 111, 107, 101, 110, 45, 109, 105, 110, 116,
];

/// First seed of every proof record's address: the bytes of `proof`.
pub const PROOF_SEED: [u8; 5] = [112, 114, 111, 111, 102];

/// Whether two addresses hold the same bytes.
pub fn same_address(a: &Address, b: &Address) -> (same: bool)
    ensures
        same == (a@ == b@),
{
    let mut i: usize = 0;
    while i < 32
        invariant
            i <= 32,
            forall|k: int| 0 <= k < i ==> a@[k] == b@[k],
        decreases 32 - i,
    {
        if a[i] != b[i] {
            return false;
        }
        i += 1;
    }
    assert(a@ =~= b@);
    true
}

/// What `Pubkey::try_find_program_address` returns for the given seeds and
/// program identity: the derived address with its canonical bump, or `None`
/// where the search finds no address.
pub uninterp spec fn program_address(seeds: Seq<Seq<u8>>, program_id: Seq<u8>) -> Option<(Seq<u8>, u8)>;

/// The bytes of each seed in turn.
pub open spec fn seed_bytes(seeds: Seq<&[u8]>) -> Seq<Seq<u8>> {
    Seq::new(seeds.len(), |i: int| seeds[i]@)
}

/// A derivation's outcome with the address as a byte sequence.
pub open spec fn found_view(found: Option<(Address, u8)>) -> Option<(Seq<u8>, u8)> {
    match found {
        Some((address, bump)) => Some((address@, bump)),
        None => None,
    }
}

/// Calls `Pubkey::try_find_program_address`. The contract claims only that
/// the outcome is a function of the seeds' bytes and the program identity,
/// named [`program_address`]; the call neither panics nor reads anything
/// else.
#[verifier::external_body]
fn find_program_address(seeds: &Vec<&[u8]>, program_id: &Address) -> (found: Option<(Address, u8)>)
    ensures
        found_view(found) == program_address(seed_bytes(seeds@), program_id@),
{
    match Pubkey::try_find_program_address(seeds.as_slice(), &Pubkey::new_from_array(*program_id)) {
        Some((address, bump)) => Some((address.to_bytes(), bump)),
        None => None,
    }
}

/// The seed list that a namespace seed and an optional extra seed make.
pub open spec fn seeds_of(namespace_seed: Seq<u8>, extra_seed: Option<Seq<u8>>) -> Seq<Seq<u8>> {
    match extra_seed {
        Some(extra) => seq![namespace_seed, extra],
        None => seq![namespace_seed],
    }
}

/// The address and canonical bump derived from a namespace seed and an
/// optional extra seed under [`PROGRAM_ID`].
pub open spec fn derived(namespace_seed: Seq<u8>, extra_seed: Option<Seq<u8>>) -> Option<(Seq<u8>, u8)> {
    program_address(seeds_of(namespace_seed, extra_seed), PROGRAM_ID@)
}

/// The bytes of an optional seed.
pub open spec fn extra_view(extra_seed: Option<&[u8]>) -> Option<Seq<u8>> {
    match extra_seed {
        Some(extra) => Some(extra@),
        None => None,
    }
}

/// Derives the address, and its canonical bump, for a namespace seed and an
/// optional extra seed. Equal seeds give equal outcomes, whoever derives.
pub fn derive(namespace_seed: &[u8], extra_seed: Option<&[u8]>) -> (found: Option<(Address, u8)>)
    ensures
        found_view(found) == derived(namespace_seed@, extra_view(extra_seed)),
{
    let mut seeds: Vec<&[u8]> = Vec::new();
    seeds.push(namespace_seed);
    match extra_seed {
        Some(extra) => {
            seeds.push(extra);
        },
        None => {},
    }
    assert(seed_bytes(seeds@) =~= seeds_of(namespace_seed@, extra_view(extra_seed)));
    find_program_address(&seeds, &PROGRAM_ID)
}

/// The fixed address of the program state, with its bump.
pub open spec fn state_address_spec() -> Option<(Seq<u8>, u8)> {
    derived(STATE_SEED@, None)
}

/// The fixed address of the mint, with its bump.
pub open spec fn mint_address_spec() -> Option<(Seq<u8>, u8)> {
    derived(MINT_SEED@, None)
}

/// The address of the proof record of a commitment, with its bump.
pub open spec fn proof_record_address_spec(commitment: Seq<u8>) -> Option<(Seq<u8>, u8)> {
    derived(PROOF_SEED@, Some(commitment))
}

/// Derives the fixed address of the program state.
pub fn state_address() -> (found: Option<(Address, u8)>)
    ensures
        found_view(found) == state_address_spec(),
{
    derive(STATE_SEED.as_slice(), None)
}

/// Derives the fixed address of the mint.
pub fn mint_address() -> (found: Option<(Address, u8)>)
    ensures
        found_view(found) == mint_address_spec(),
{
    derive(MINT_SEED.as_slice(), None)
}

/// Derives the address at which the proof record of `commitment` lives.
pub fn proof_record_address(commitment: &[u8; 32]) -> (found: Option<(Address, u8)>)
    ensures
        found_view(found) == proof_record_address_spec(commitment@),
{
    derive(PROOF_SEED.as_slice(), Some(commitment.as_slice()))
}

} // verus!
