//! The two operations of the program: `initialize`, which sets up the
//! program state and the mint, and `verify_and_mint`, which accepts a proof
//! once per commitment and pays the farmer for it.
//!
//! Each operation is all or nothing: it decides on the ledger as it found
//! it, and writes only when nothing can fail any more. Operations take the
//! ledger by exclusive reference, so that calls reach it one after the
//! other: of two submissions of one commitment the later one finds the
//! record of the earlier.

use vstd::prelude::*;
use crate::address::{
    mint_address, mint_address_spec, proof_record_address, proof_record_address_spec, same_address,
    state_address, state_address_spec, Address,
};
use crate::error::KisanError;
use crate::ledger::Ledger;
use crate::state::{
    Account, AccountView, MintAuthority, MintAuthorityView, ProgramState, ProgramStateView, ProofRecord,
    ProofRecordView, MINT_AMOUNT,
};
use crate::token::{holds_token, minted_spec};
use crate::verification::{verify, verify_spec};

verus! {

/// What `initialize` is called with: the identity that sets the program up.
#[derive(Clone, Copy, Debug, PartialEq, Eq)]
pub struct Initialize {
    pub authority: Address,
}

/// What `verify_and_mint` is called with, besides the proof: the farmer,
/// the token account to be paid, and the time of the call.
#[derive(Clone, Copy, Debug, PartialEq, Eq)]
pub struct VerifyAndMint {
    pub farmer: Address,
    pub farmer_token_account: Address,
    pub unix_timestamp: i64,
}

/// One call of `verify_and_mint` as a mathematical value.
pub struct Submission {
    pub farmer: Seq<u8>,
    pub farmer_token_account: Seq<u8>,
    pub unix_timestamp: int,
    pub proof_a: Seq<u8>,
    pub proof_b: Seq<u8>,
    pub proof_c: Seq<u8>,
    pub public_signals: Seq<u8>,
    pub commitment: Seq<u8>,
}

/// The submission that the arguments of a call make.
pub open spec fn submission(
    ctx: VerifyAndMint,
    proof_a: [u8; 64],
    proof_b: [u8; 128],
    proof_c: [u8; 64],
    public_signals: Vec<u8>,
    compliance_commitment: [u8; 32],
) -> Submission {
    Submission {
        farmer: ctx.farmer@,
        farmer_token_account: ctx.farmer_token_account@,
        unix_timestamp: ctx.unix_timestamp as int,
        proof_a: proof_a@,
        proof_b: proof_b@,
        proof_c: proof_c@,
        public_signals: public_signals@,
        commitment: compliance_commitment@,
    }
}

/// Where a commitment stands: it starts `Unseen`, becomes `Issued` when a
/// submission of it is accepted, and stays so.
#[derive(Clone, Copy, Debug, PartialEq, Eq, Structural)]
pub enum CommitmentStatus {
    /// No proof record exists for the commitment.
    Unseen,
    /// The commitment has been paid for: its proof record exists.
    Issued,
}

/// The status of the commitment whose proof record lives at `record_address`.
pub open spec fn status_at_spec(ledger: Map<Seq<u8>, AccountView>, record_address: Seq<u8>) -> CommitmentStatus {
    if ledger.dom().contains(record_address) && ledger[record_address] is Proof {
        CommitmentStatus::Issued
    } else {
        CommitmentStatus::Unseen
    }
}

/// The status of a commitment; `None` where no record address can be
/// derived from it.
pub open spec fn commitment_status_spec(ledger: Map<Seq<u8>, AccountView>, commitment: Seq<u8>) -> Option<
    CommitmentStatus,
> {
    match proof_record_address_spec(commitment) {
        Some(record) => Some(status_at_spec(ledger, record.0)),
        None => None,
    }
}

/// `address` holds a program state.
pub open spec fn holds_state(ledger: Map<Seq<u8>, AccountView>, address: Seq<u8>) -> bool {
    ledger.dom().contains(address) && ledger[address] is State
}

/// The ledger that an operation leaves: the one it decided on, or, where it
/// was refused, the ledger as it was.
pub open spec fn ledger_after(
    before: Map<Seq<u8>, AccountView>,
    decided: Result<Map<Seq<u8>, AccountView>, KisanError>,
) -> Map<Seq<u8>, AccountView> {
    match decided {
        Ok(next) => next,
        Err(_) => before,
    }
}

/// An operation has done what was decided: it returns `Ok` exactly where
/// the decision is `Ok`, returns the decision's error otherwise, and leaves
/// the ledger given by [`ledger_after`].
pub open spec fn settles(
    outcome: Result<(), KisanError>,
    before: Map<Seq<u8>, AccountView>,
    after: Map<Seq<u8>, AccountView>,
    decided: Result<Map<Seq<u8>, AccountView>, KisanError>,
) -> bool {
    &&& after == ledger_after(before, decided)
    &&& match decided {
        Ok(_) => outcome is Ok,
        Err(error) => outcome == Err::<(), KisanError>(error),
    }
}

/// `initialize` with the two fixed addresses given, each with its bump. It
/// is refused where either address is occupied, or where the two coincide;
/// else the program state and the mint are created, the mint's authority
/// being the address of the program state.
pub open spec fn initialize_at_spec(
    ledger: Map<Seq<u8>, AccountView>,
    authority: Seq<u8>,
    state: (Seq<u8>, u8),
    mint: (Seq<u8>, u8),
) -> Result<Map<Seq<u8>, AccountView>, KisanError> {
    if ledger.dom().contains(state.0) || ledger.dom().contains(mint.0) || state.0 == mint.0 {
        Err(KisanError::AlreadyInitialized)
    } else {
        Ok(
            ledger.insert(
                state.0,
                AccountView::State(ProgramStateView::fresh(authority, mint.0, state.1, mint.1)),
            ).insert(mint.0, AccountView::Mint(MintAuthorityView::fresh(state.0))),
        )
    }
}

/// `initialize` on a ledger: the two addresses are the derived ones.
pub open spec fn initialize_spec(ledger: Map<Seq<u8>, AccountView>, authority: Seq<u8>) -> Result<
    Map<Seq<u8>, AccountView>,
    KisanError,
> {
    match (state_address_spec(), mint_address_spec()) {
        (Some(state), Some(mint)) => initialize_at_spec(ledger, authority, state, mint),
        _ => Err(KisanError::NoProgramAddress),
    }
}

/// `verify_and_mint` with the address of the program state and that of the
/// commitment's proof record given. In this order: the program state must
/// exist; the record's address must be vacant; the proof must pass
/// verification; the destination must be a token account of the state's
/// mint that belongs to the farmer; the mint must grant the amount to the
/// program state's address; the counters must have room. Then the record is
/// created, supply and balance grow by [`MINT_AMOUNT`], and the counters are
/// advanced.
pub open spec fn verify_and_mint_at_spec(
    ledger: Map<Seq<u8>, AccountView>,
    state_address: Seq<u8>,
    record_address: Seq<u8>,
    call: Submission,
) -> Result<Map<Seq<u8>, AccountView>, KisanError> {
    if !holds_state(ledger, state_address) {
        Err(KisanError::NotInitialized)
    } else if ledger.dom().contains(record_address) {
        Err(KisanError::ProofAlreadyUsed)
    } else {
        let state = ledger[state_address]->State_0;
        match verify_spec(call.proof_a, call.proof_b, call.proof_c, call.public_signals, call.commitment) {
            Err(error) => Err(error),
            Ok(_) => if !holds_token(ledger, call.farmer_token_account)
                || ledger[call.farmer_token_account]->Token_0.mint != state.mint
                || ledger[call.farmer_token_account]->Token_0.owner != call.farmer {
                Err(KisanError::TokenAccountMismatch)
            } else {
                match minted_spec(
                    ledger,
                    state.mint,
                    call.farmer_token_account,
                    MINT_AMOUNT as nat,
                    state_address,
                ) {
                    Err(error) => Err(error),
                    Ok((mint, destination)) => if !state.can_issue() {
                        Err(KisanError::Overflow)
                    } else {
                        Ok(
                            ledger.insert(
                                record_address,
                                AccountView::Proof(
                                    ProofRecordView::accepted(
                                        call.commitment,
                                        call.farmer,
                                        call.unix_timestamp,
                                    ),
                                ),
                            ).insert(state.mint, AccountView::Mint(mint)).insert(
                                call.farmer_token_account,
                                AccountView::Token(destination),
                            ).insert(state_address, AccountView::State(state.issued())),
                        )
                    },
                }
            },
        }
    }
}

/// `verify_and_mint` on a ledger: the program state is looked for at its
/// fixed address, the proof record at the address derived from the
/// commitment.
pub open spec fn verify_and_mint_spec(ledger: Map<Seq<u8>, AccountView>, call: Submission) -> Result<
    Map<Seq<u8>, AccountView>,
    KisanError,
> {
    match (state_address_spec(), proof_record_address_spec(call.commitment)) {
        (Some(state), Some(record)) => verify_and_mint_at_spec(ledger, state.0, record.0, call),
        _ => Err(KisanError::NoProgramAddress),
    }
}

/// The status of the commitment whose proof record lives at `record_address`.
pub fn status_at(ledger: &Ledger, record_address: &Address) -> (status: CommitmentStatus)
    ensures
        status == status_at_spec(ledger@, record_address@),
{
    match ledger.account(record_address) {
        Some(Account::Proof(_)) => CommitmentStatus::Issued,
        _ => CommitmentStatus::Unseen,
    }
}

/// The status of a commitment; `None` where no record address can be
/// derived from it.
pub fn commitment_status(ledger: &Ledger, commitment: &[u8; 32]) -> (status: Option<CommitmentStatus>)
    ensures
        status == commitment_status_spec(ledger@, commitment@),
{
    match proof_record_address(commitment) {
        Some(record) => Some(status_at(ledger, &record.0)),
        None => None,
    }
}

/// Creates the program state at `state.0` and the mint at `mint.0`, the two
/// addresses being handed in with their bumps. See [`initialize_at_spec`].
///
/// [`initialize`] derives the two addresses and is the operation proper;
/// this function is the part of it that decides and writes.
pub fn initialize_at(ledger: &mut Ledger, ctx: Initialize, state: (Address, u8), mint: (Address, u8)) -> (outcome:
    Result<(), KisanError>)
    ensures
        settles(
            outcome,
            old(ledger)@,
            final(ledger)@,
            initialize_at_spec(old(ledger)@, ctx.authority@, (state.0@, state.1), (mint.0@, mint.1)),
        ),
{
    if ledger.contains(&state.0) || ledger.contains(&mint.0) || same_address(&state.0, &mint.0) {
        return Err(KisanError::AlreadyInitialized);
    }
    ledger.put(&state.0, Account::State(ProgramState::new(ctx.authority, mint.0, state.1, mint.1)));
    ledger.put(&mint.0, Account::Mint(MintAuthority::new(state.0)));
    Ok(())
}

/// Initializes the program: creates the program state at its fixed address,
/// with `ctx.authority` as authority, both counters at zero and the two
/// bumps stored, and the mint at its fixed address, with nine decimals, no
/// supply and the program state's address as its only minter.
///
/// Fails with `AlreadyInitialized` where either address is occupied, and
/// with `NoProgramAddress` where one of the two cannot be derived; the
/// ledger is then unchanged.
pub fn initialize(ledger: &mut Ledger, ctx: Initialize) -> (outcome: Result<(), KisanError>)
    ensures
        settles(outcome, old(ledger)@, final(ledger)@, initialize_spec(old(ledger)@, ctx.authority@)),
{
    match (state_address(), mint_address()) {
        (Some(state), Some(mint)) => initialize_at(ledger, ctx, state, mint),
        _ => Err(KisanError::NoProgramAddress),
    }
}

/// Accepts a proof and pays for it, the address of the program state and
/// that of the commitment's proof record being handed in. See
/// [`verify_and_mint_at_spec`].
///
/// [`verify_and_mint`] derives the two addresses and is the operation
/// proper. The protection against reuse rests on `record_address` being the
/// address derived from the commitment: a caller of this function vouches
/// for that.
pub fn verify_and_mint_at(
    ledger: &mut Ledger,
    state_address: &Address,
    record_address: &Address,
    ctx: VerifyAndMint,
    proof_a: [u8; 64],
    proof_b: [u8; 128],
    proof_c: [u8; 64],
    public_signals: Vec<u8>,
    compliance_commitment: [u8; 32],
) -> (outcome: Result<(), KisanError>)
    ensures
        settles(
            outcome,
            old(ledger)@,
            final(ledger)@,
            verify_and_mint_at_spec(
                old(ledger)@,
                state_address@,
                record_address@,
                submission(ctx, proof_a, proof_b, proof_c, public_signals, compliance_commitment),
            ),
        ),
{
    let mut state = match ledger.account(state_address) {
        Some(Account::State(state)) => state,
        _ => {
            return Err(KisanError::NotInitialized);
        },
    };
    if ledger.contains(record_address) {
        return Err(KisanError::ProofAlreadyUsed);
    }
    match verify(&proof_a, &proof_b, &proof_c, public_signals.as_slice(), &compliance_commitment) {
        Err(error) => {
            return Err(error);
        },
        Ok(_) => {},
    }
    let record = ProofRecord::new(compliance_commitment, ctx.farmer, ctx.unix_timestamp);
    match ledger.account(&ctx.farmer_token_account) {
        Some(Account::Token(balance)) => {
            if !same_address(&balance.mint, &state.mint) || !same_address(&balance.owner, &ctx.farmer) {
                return Err(KisanError::TokenAccountMismatch);
            }
        },
        _ => {
            return Err(KisanError::TokenAccountMismatch);
        },
    }
    let (mint, destination) = match ledger.minted(
        &state.mint,
        &ctx.farmer_token_account,
        MINT_AMOUNT,
        state_address,
    ) {
        Ok(pair) => pair,
        Err(error) => {
            return Err(error);
        },
    };
    match state.record_issuance() {
        Err(error) => {
            return Err(error);
        },
        Ok(_) => {},
    }
    ledger.put(record_address, Account::Proof(record));
    ledger.put(&state.mint, Account::Mint(mint));
    ledger.put(&ctx.farmer_token_account, Account::Token(destination));
    ledger.put(state_address, Account::State(state));
    Ok(())
}

/// Verifies a proof and mints [`MINT_AMOUNT`] base units to the farmer.
///
/// The proof record of the commitment is created at the address derived
/// from it, which is what makes a commitment usable once: a call whose
/// record address is occupied fails with `ProofAlreadyUsed`. The proof is
/// then checked for structure, the farmer's token account is paid by the
/// mint on the word of the program state's own address, and the program
/// state counts one proof and the amount more. Any failure leaves the
/// ledger unchanged.
pub fn verify_and_mint(
    ledger: &mut Ledger,
    ctx: VerifyAndMint,
    proof_a: [u8; 64],
    proof_b: [u8; 128],
    proof_c: [u8; 64],
    public_signals: Vec<u8>,
    compliance_commitment: [u8; 32],
) -> (outcome: Result<(), KisanError>)
    ensures
        settles(
            outcome,
            old(ledger)@,
            final(ledger)@,
            verify_and_mint_spec(
                old(ledger)@,
                submission(ctx, proof_a, proof_b, proof_c, public_signals, compliance_commitment),
            ),
        ),
{
    match (state_address(), proof_record_address(&compliance_commitment)) {
        (Some(state), Some(record)) => verify_and_mint_at(
            ledger,
            &state.0,
            &record.0,
            ctx,
            proof_a,
            proof_b,
            proof_c,
            public_signals,
            compliance_commitment,
        ),
        _ => Err(KisanError::NoProgramAddress),
    }
}

} // verus!
