//! The ways in which an operation on the ledger can be refused.

use vstd::prelude::*;

verus! {

/// Why an operation was refused. Every refusal leaves the ledger exactly as
/// it was before the call.
#[derive(Clone, Copy, Debug, PartialEq, Eq, Structural)]
pub enum KisanError {
    /// One of the three proof components consists of zero bytes only.
    InvalidProof,
    /// The public signals are empty.
    InvalidPublicSignals,
    /// The commitment consists of zero bytes only.
    InvalidCommitment,
    /// The address derived from the commitment already holds an account:
    /// the commitment has been used. Reuse is reported under this kind of
    /// its own rather than as a general creation failure.
    ProofAlreadyUsed,
    /// One of the two fixed addresses already holds an account.
    AlreadyInitialized,
    /// The program state or its mint does not exist yet.
    NotInitialized,
    /// An account was to be created at an address that holds one already.
    AddressInUse,
    /// The search for a derived address found none for the given seeds.
    NoProgramAddress,
    /// The identity that asked for a mint is not the one the mint names as
    /// holder of its minting capability.
    MintAuthorityMismatch,
    /// The destination is not a token account of the mint that belongs to
    /// the farmer.
    TokenAccountMismatch,
    /// A counter, the supply or a balance would exceed 64 bits.
    Overflow,
}

} // verus!
