//! What holds of the operations across calls: a commitment pays once, the
//! program is set up once, nothing that exists is ever removed, and the
//! books of the program state and of its mint agree.
//!
//! Every statement here is about the decisions of the two operations,
//! `initialize_spec` and `verify_and_mint_spec`, to which the functions
//! `initialize` and `verify_and_mint` are held by their contracts.

use vstd::prelude::*;
use crate::address::{proof_record_address_spec, state_address_spec};
use crate::error::KisanError;
use crate::program::{
    commitment_status_spec, holds_state, initialize_at_spec, initialize_spec, ledger_after,
    verify_and_mint_at_spec, verify_and_mint_spec, CommitmentStatus, Submission,
};
use crate::state::{AccountView, ProofRecordView, GREEN_TOKEN_DECIMALS, MINT_AMOUNT};
use crate::token::{holds_mint, holds_token, minted_spec};
use crate::verification::verify_spec;

verus! {

/// The books agree at `state_address`: a program state there names a mint
/// that exists, has nine decimals and grants its minting capability to
/// `state_address` alone; the supply is what the state counts as minted; and
/// that is [`MINT_AMOUNT`] for each proof counted.
pub open spec fn coherent(ledger: Map<Seq<u8>, AccountView>, state_address: Seq<u8>) -> bool {
    holds_state(ledger, state_address) ==> {
        let state = ledger[state_address]->State_0;
        &&& holds_mint(ledger, state.mint)
        &&& ledger[state.mint]->Mint_0.mint_authority == state_address
        &&& ledger[state.mint]->Mint_0.decimals == GREEN_TOKEN_DECIMALS
        &&& ledger[state.mint]->Mint_0.supply == state.total_tokens_minted
        &&& state.total_tokens_minted == state.total_proofs_verified * MINT_AMOUNT
    }
}

/// The number of proofs that the program state at `state_address` counts;
/// zero where there is none.
pub open spec fn proofs_verified(ledger: Map<Seq<u8>, AccountView>, state_address: Seq<u8>) -> nat {
    if holds_state(ledger, state_address) {
        ledger[state_address]->State_0.total_proofs_verified
    } else {
        0
    }
}

/// The base units that the program state at `state_address` counts as
/// minted; zero where there is none.
pub open spec fn tokens_minted(ledger: Map<Seq<u8>, AccountView>, state_address: Seq<u8>) -> nat {
    if holds_state(ledger, state_address) {
        ledger[state_address]->State_0.total_tokens_minted
    } else {
        0
    }
}

/// The balance of the token account at `address`; zero where there is none.
pub open spec fn balance(ledger: Map<Seq<u8>, AccountView>, address: Seq<u8>) -> nat {
    if holds_token(ledger, address) {
        ledger[address]->Token_0.amount
    } else {
        0
    }
}

/// The ledger is ready to pay `call`: the program state exists at
/// `state_address` and its books agree, the destination is a token account
/// of the state's mint that belongs to the farmer, and one more issuance
/// fits the counters and the balance.
pub open spec fn payable(ledger: Map<Seq<u8>, AccountView>, state_address: Seq<u8>, call: Submission) -> bool {
    &&& holds_state(ledger, state_address)
    &&& coherent(ledger, state_address)
    &&& holds_token(ledger, call.farmer_token_account)
    &&& ledger[call.farmer_token_account]->Token_0.mint == ledger[state_address]->State_0.mint
    &&& ledger[call.farmer_token_account]->Token_0.owner == call.farmer
    &&& tokens_minted(ledger, state_address) + MINT_AMOUNT <= u64::MAX
    &&& balance(ledger, call.farmer_token_account) + MINT_AMOUNT <= u64::MAX
}

/// A first submission is paid. Where the ledger is ready to pay, the record
/// address of the commitment is vacant and the proof passes verification, the
/// submission is accepted: the farmer's balance and the supply grow by
/// exactly [`MINT_AMOUNT`], the program state counts exactly one proof and
/// [`MINT_AMOUNT`] base units more, the proof record is created, and no
/// other account changes.
pub proof fn first_submission_is_paid(ledger: Map<Seq<u8>, AccountView>, call: Submission)
    requires
        state_address_spec() is Some,
        proof_record_address_spec(call.commitment) is Some,
        payable(ledger, state_address_spec()->Some_0.0, call),
        !ledger.dom().contains(proof_record_address_spec(call.commitment)->Some_0.0),
        verify_spec(call.proof_a, call.proof_b, call.proof_c, call.public_signals, call.commitment) is Ok,
    ensures
        verify_and_mint_spec(ledger, call) is Ok,
        ({
            let state_address = state_address_spec()->Some_0.0;
            let record_address = proof_record_address_spec(call.commitment)->Some_0.0;
            let mint_address = ledger[state_address]->State_0.mint;
            let after = verify_and_mint_spec(ledger, call)->Ok_0;
            &&& balance(after, call.farmer_token_account) == balance(ledger, call.farmer_token_account)
                + MINT_AMOUNT
            &&& proofs_verified(after, state_address) == proofs_verified(ledger, state_address) + 1
            &&& tokens_minted(after, state_address) == tokens_minted(ledger, state_address) + MINT_AMOUNT
            &&& after[state_address] == AccountView::State(ledger[state_address]->State_0.issued())
            &&& after[mint_address] == AccountView::Mint(
                ledger[mint_address]->Mint_0.minted(MINT_AMOUNT as nat),
            )
            &&& after[call.farmer_token_account] == AccountView::Token(
                ledger[call.farmer_token_account]->Token_0.credited(MINT_AMOUNT as nat),
            )
            &&& after[record_address] == AccountView::Proof(
                ProofRecordView::accepted(call.commitment, call.farmer, call.unix_timestamp),
            )
            &&& after.dom() == ledger.dom().insert(record_address)
            &&& forall|address: Seq<u8>|
                ledger.dom().contains(address) && address != state_address && address != mint_address
                    && address != call.farmer_token_account ==> #[trigger] after[address]
                    == ledger[address]
        }),
{
}

/// A commitment pays once. After a submission has been accepted, every
/// submission with the same commitment, whatever else it holds, is refused
/// with `ProofAlreadyUsed`; by the operation's contract nothing is minted
/// then and the counters stay as they are.
pub proof fn reused_commitment_is_refused(ledger: Map<Seq<u8>, AccountView>, first: Submission, second: Submission)
    requires
        first.commitment == second.commitment,
        verify_and_mint_spec(ledger, first) is Ok,
    ensures
        verify_and_mint_spec(verify_and_mint_spec(ledger, first)->Ok_0, second) == Err::<
            Map<Seq<u8>, AccountView>,
            KisanError,
        >(KisanError::ProofAlreadyUsed),
        ledger_after(
            verify_and_mint_spec(ledger, first)->Ok_0,
            verify_and_mint_spec(verify_and_mint_spec(ledger, first)->Ok_0, second),
        ) == verify_and_mint_spec(ledger, first)->Ok_0,
{
}

/// Once a commitment's record address is occupied, by whatever account,
/// every submission of that commitment is refused: with `ProofAlreadyUsed`
/// where the program state exists, with `NotInitialized` where it does not.
pub proof fn occupied_record_address_refuses(ledger: Map<Seq<u8>, AccountView>, call: Submission)
    requires
        proof_record_address_spec(call.commitment) is Some,
        ledger.dom().contains(proof_record_address_spec(call.commitment)->Some_0.0),
    ensures
        verify_and_mint_spec(ledger, call) is Err,
        state_address_spec() is Some && holds_state(ledger, state_address_spec()->Some_0.0)
            ==> verify_and_mint_spec(ledger, call) == Err::<Map<Seq<u8>, AccountView>, KisanError>(
            KisanError::ProofAlreadyUsed,
        ),
{
}

/// An accepted submission takes its commitment from `Unseen` to `Issued`.
pub proof fn acceptance_issues(ledger: Map<Seq<u8>, AccountView>, call: Submission)
    requires
        verify_and_mint_spec(ledger, call) is Ok,
    ensures
        commitment_status_spec(ledger, call.commitment) == Some(CommitmentStatus::Unseen),
        commitment_status_spec(verify_and_mint_spec(ledger, call)->Ok_0, call.commitment) == Some(
            CommitmentStatus::Issued,
        ),
{
}

/// Nothing but an accepted submission of it takes a commitment to `Issued`:
/// where a commitment is `Unseen` before a `verify_and_mint` and `Issued`
/// after it, the submission was accepted and its commitment has the same
/// record address. `initialize` issues nothing.
pub proof fn only_acceptance_issues(
    ledger: Map<Seq<u8>, AccountView>,
    call: Submission,
    authority: Seq<u8>,
    commitment: Seq<u8>,
)
    requires
        commitment_status_spec(ledger, commitment) == Some(CommitmentStatus::Unseen),
    ensures
        commitment_status_spec(ledger_after(ledger, verify_and_mint_spec(ledger, call)), commitment) == Some(
            CommitmentStatus::Issued,
        ) ==> verify_and_mint_spec(ledger, call) is Ok && proof_record_address_spec(call.commitment)->Some_0.0
            == proof_record_address_spec(commitment)->Some_0.0,
        commitment_status_spec(ledger_after(ledger, initialize_spec(ledger, authority)), commitment) == Some(
            CommitmentStatus::Unseen,
        ),
{
}

/// `Issued` is final: no operation takes a commitment back to `Unseen`.
pub proof fn issued_is_final(
    ledger: Map<Seq<u8>, AccountView>,
    call: Submission,
    authority: Seq<u8>,
    commitment: Seq<u8>,
)
    requires
        commitment_status_spec(ledger, commitment) == Some(CommitmentStatus::Issued),
    ensures
        commitment_status_spec(ledger_after(ledger, verify_and_mint_spec(ledger, call)), commitment) == Some(
            CommitmentStatus::Issued,
        ),
        commitment_status_spec(ledger_after(ledger, initialize_spec(ledger, authority)), commitment) == Some(
            CommitmentStatus::Issued,
        ),
{
}

/// The address of a proof record depends on the commitment alone: equal
/// commitments have the same record address and the same bump.
pub proof fn same_commitment_same_address(one: Seq<u8>, other: Seq<u8>)
    requires
        one == other,
    ensures
        proof_record_address_spec(one) == proof_record_address_spec(other),
{
}

/// The program is set up once. After an accepted `initialize`, every
/// further one, by whatever authority, is refused with `AlreadyInitialized`
/// and leaves the ledger, and with it the counters, as it was.
pub proof fn second_initialize_is_refused(ledger: Map<Seq<u8>, AccountView>, first: Seq<u8>, second: Seq<u8>)
    requires
        initialize_spec(ledger, first) is Ok,
    ensures
        initialize_spec(initialize_spec(ledger, first)->Ok_0, second) == Err::<
            Map<Seq<u8>, AccountView>,
            KisanError,
        >(KisanError::AlreadyInitialized),
        ledger_after(
            initialize_spec(ledger, first)->Ok_0,
            initialize_spec(initialize_spec(ledger, first)->Ok_0, second),
        ) == initialize_spec(ledger, first)->Ok_0,
{
}

/// Of two submissions with the same commitment that reach the ledger one
/// after the other, in whichever order, at most one is accepted. Where
/// either would have been accepted on its own, exactly one is, and the
/// program state counts one proof more, not two.
pub proof fn concurrent_submissions_issue_once(ledger: Map<Seq<u8>, AccountView>, one: Submission, other: Submission)
    requires
        one.commitment == other.commitment,
    ensures
        ({
            let first = verify_and_mint_spec(ledger, one);
            let between = ledger_after(ledger, first);
            let second = verify_and_mint_spec(between, other);
            let end = ledger_after(between, second);
            &&& !(first is Ok && second is Ok)
            &&& (first is Ok || second is Ok) <==> (verify_and_mint_spec(ledger, one) is Ok
                || verify_and_mint_spec(ledger, other) is Ok)
            &&& first is Ok || second is Ok ==> proofs_verified(end, state_address_spec()->Some_0.0)
                == proofs_verified(ledger, state_address_spec()->Some_0.0) + 1
            &&& !(first is Ok || second is Ok) ==> end == ledger
        }),
{
}

/// Nothing is ever removed or rewritten behind the program's back: after
/// `verify_and_mint`, accepted or not, every address that was occupied still
/// is, and every proof record is what it was.
pub proof fn verify_and_mint_keeps_accounts(ledger: Map<Seq<u8>, AccountView>, call: Submission, address: Seq<u8>)
    requires
        ledger.dom().contains(address),
    ensures
        ledger_after(ledger, verify_and_mint_spec(ledger, call)).dom().contains(address),
        ledger[address] is Proof ==> ledger_after(ledger, verify_and_mint_spec(ledger, call))[address]
            == ledger[address],
{
}

/// After `initialize`, accepted or not, every account that existed is what
/// it was.
pub proof fn initialize_keeps_accounts(ledger: Map<Seq<u8>, AccountView>, authority: Seq<u8>, address: Seq<u8>)
    requires
        ledger.dom().contains(address),
    ensures
        ledger_after(ledger, initialize_spec(ledger, authority)).dom().contains(address),
        ledger_after(ledger, initialize_spec(ledger, authority))[address] == ledger[address],
{
}

/// The counters of the program state never decrease.
pub proof fn counters_never_decrease(ledger: Map<Seq<u8>, AccountView>, call: Submission)
    requires
        state_address_spec() is Some,
    ensures
        proofs_verified(ledger, state_address_spec()->Some_0.0) <= proofs_verified(
            ledger_after(ledger, verify_and_mint_spec(ledger, call)),
            state_address_spec()->Some_0.0,
        ),
        tokens_minted(ledger, state_address_spec()->Some_0.0) <= tokens_minted(
            ledger_after(ledger, verify_and_mint_spec(ledger, call)),
            state_address_spec()->Some_0.0,
        ),
{
}

/// Every proof record on the ledger is marked verified.
pub open spec fn records_are_verified(ledger: Map<Seq<u8>, AccountView>) -> bool {
    forall|address: Seq<u8>|
        ledger.dom().contains(address) && #[trigger] ledger[address] is Proof
            ==> ledger[address]->Proof_0.verified
}

/// A proof record exists only as verified: neither operation creates one
/// that is not, whichever addresses it acts at.
pub proof fn records_stay_verified(
    ledger: Map<Seq<u8>, AccountView>,
    authority: Seq<u8>,
    state: (Seq<u8>, u8),
    mint: (Seq<u8>, u8),
    acting_state: Seq<u8>,
    record_address: Seq<u8>,
    call: Submission,
)
    requires
        records_are_verified(ledger),
    ensures
        records_are_verified(ledger_after(ledger, initialize_at_spec(ledger, authority, state, mint))),
        records_are_verified(
            ledger_after(ledger, verify_and_mint_at_spec(ledger, acting_state, record_address, call)),
        ),
{
}

/// A ledger without accounts has its books in order.
pub proof fn empty_ledger_is_coherent(state_address: Seq<u8>)
    ensures
        coherent(Map::<Seq<u8>, AccountView>::empty(), state_address),
{
}

/// `initialize` leaves the books in order, at whichever addresses it acts.
pub proof fn initialize_keeps_coherence(
    ledger: Map<Seq<u8>, AccountView>,
    authority: Seq<u8>,
    state: (Seq<u8>, u8),
    mint: (Seq<u8>, u8),
    state_address: Seq<u8>,
)
    requires
        coherent(ledger, state_address),
    ensures
        coherent(ledger_after(ledger, initialize_at_spec(ledger, authority, state, mint)), state_address),
{
}

/// `verify_and_mint` leaves the books in order, at whichever addresses it
/// acts: no mint is ever granted to another identity than the one the mint
/// names, so a supply only grows together with the counters of the program
/// state that controls it.
pub proof fn verify_and_mint_keeps_coherence(
    ledger: Map<Seq<u8>, AccountView>,
    acting_state: Seq<u8>,
    record_address: Seq<u8>,
    call: Submission,
    state_address: Seq<u8>,
)
    requires
        coherent(ledger, state_address),
    ensures
        coherent(
            ledger_after(ledger, verify_and_mint_at_spec(ledger, acting_state, record_address, call)),
            state_address,
        ),
{
}

/// Opening a token account leaves the books in order.
pub proof fn open_token_account_keeps_coherence(
    ledger: Map<Seq<u8>, AccountView>,
    address: Seq<u8>,
    account: AccountView,
    state_address: Seq<u8>,
)
    requires
        coherent(ledger, state_address),
        !ledger.dom().contains(address),
        account is Token,
    ensures
        coherent(ledger.insert(address, account), state_address),
{
}

/// A mint is granted to the identity that the mint names and to no other.
pub proof fn only_the_named_authority_mints(
    ledger: Map<Seq<u8>, AccountView>,
    mint: Seq<u8>,
    destination: Seq<u8>,
    amount: nat,
    authority: Seq<u8>,
)
    requires
        minted_spec(ledger, mint, destination, amount, authority) is Ok,
    ensures
        holds_mint(ledger, mint),
        ledger[mint]->Mint_0.mint_authority == authority,
        minted_spec(ledger, mint, destination, amount, authority)->Ok_0.0.mint_authority == authority,
{
}

} // verus!
