use kisan_depin::address::{mint_address, proof_record_address, state_address};
use kisan_depin::error::KisanError;
use kisan_depin::ledger::Ledger;
use kisan_depin::program::{
    commitment_status, initialize, initialize_at, status_at, verify_and_mint, verify_and_mint_at,
    CommitmentStatus, Initialize, VerifyAndMint,
};
use kisan_depin::state::{Account, MintAuthority, ProgramState, ProofRecord, TokenAccount};

const AUTHORITY: [u8; 32] = [0xa1; 32];
const FARMER: [u8; 32] = [0xf1; 32];
const FARMER_TOKENS: [u8; 32] = [0xf2; 32];
const NOW: i64 = 1_700_000_000;

fn proof_a() -> [u8; 64] {
    let mut bytes = [0u8; 64];
    bytes[0] = 0x07;
    bytes
}

fn proof_b() -> [u8; 128] {
    let mut bytes = [0u8; 128];
    bytes[0] = 0x03;
    bytes
}

fn proof_c() -> [u8; 64] {
    let mut bytes = [0u8; 64];
    bytes[0] = 0x09;
    bytes
}

fn context() -> VerifyAndMint {
    VerifyAndMint { farmer: FARMER, farmer_token_account: FARMER_TOKENS, unix_timestamp: NOW }
}

/// An initialized ledger on which the farmer holds an empty token account.
fn ready() -> Ledger {
    let mut ledger = Ledger::new();
    assert_eq!(initialize(&mut ledger, Initialize { authority: AUTHORITY }), Ok(()));
    let (mint, _) = mint_address().unwrap();
    assert_eq!(ledger.open_token_account(&FARMER_TOKENS, &mint, &FARMER), Ok(()));
    ledger
}

fn submit(ledger: &mut Ledger, commitment: [u8; 32]) -> Result<(), KisanError> {
    verify_and_mint(ledger, context(), proof_a(), proof_b(), proof_c(), vec![0x01, 0x02], commitment)
}

fn program_state(ledger: &Ledger) -> ProgramState {
    match ledger.account(&state_address().unwrap().0) {
        Some(Account::State(state)) => state,
        other => panic!("no program state: {:?}", other),
    }
}

fn mint(ledger: &Ledger) -> MintAuthority {
    match ledger.account(&mint_address().unwrap().0) {
        Some(Account::Mint(mint)) => mint,
        other => panic!("no mint: {:?}", other),
    }
}

fn balance(ledger: &Ledger, address: &[u8; 32]) -> u64 {
    match ledger.account(address) {
        Some(Account::Token(account)) => account.amount,
        other => panic!("no token account: {:?}", other),
    }
}

/// Everything the tests can see of a ledger.
fn snapshot(ledger: &Ledger, commitments: &[[u8; 32]]) -> Vec<Option<Account>> {
    let mut seen = vec![
        ledger.account(&state_address().unwrap().0),
        ledger.account(&mint_address().unwrap().0),
        ledger.account(&FARMER_TOKENS),
    ];
    for commitment in commitments {
        seen.push(ledger.account(&proof_record_address(commitment).unwrap().0));
    }
    seen
}

#[test]
fn initialize_creates_state_and_mint() {
    let mut ledger = Ledger::new();
    assert_eq!(initialize(&mut ledger, Initialize { authority: AUTHORITY }), Ok(()));
    let (state_at, state_bump) = state_address().unwrap();
    let (mint_at, mint_bump) = mint_address().unwrap();
    assert_eq!(
        program_state(&ledger),
        ProgramState {
            authority: AUTHORITY,
            mint: mint_at,
            total_proofs_verified: 0,
            total_tokens_minted: 0,
            bump: state_bump,
            mint_bump,
        }
    );
    assert_eq!(mint(&ledger), MintAuthority { decimals: 9, supply: 0, mint_authority: state_at });
}

#[test]
fn second_initialize_fails_and_keeps_the_counters() {
    let mut ledger = ready();
    assert_eq!(submit(&mut ledger, [1u8; 32]), Ok(()));
    let before = snapshot(&ledger, &[[1u8; 32]]);
    assert_eq!(initialize(&mut ledger, Initialize { authority: [0xbb; 32] }), Err(KisanError::AlreadyInitialized));
    assert_eq!(snapshot(&ledger, &[[1u8; 32]]), before);
    assert_eq!(program_state(&ledger).authority, AUTHORITY);
    assert_eq!(program_state(&ledger).total_proofs_verified, 1);
    assert_eq!(program_state(&ledger).total_tokens_minted, 1_000_000_000);
}

#[test]
fn initialize_fails_where_only_the_mint_address_is_taken() {
    let mut ledger = Ledger::new();
    let (mint_at, _) = mint_address().unwrap();
    assert_eq!(ledger.open_token_account(&mint_at, &[2u8; 32], &FARMER), Ok(()));
    assert_eq!(initialize(&mut ledger, Initialize { authority: AUTHORITY }), Err(KisanError::AlreadyInitialized));
    assert_eq!(ledger.account(&state_address().unwrap().0), None);
    assert_eq!(ledger.account(&mint_at), Some(Account::Token(TokenAccount::new([2u8; 32], FARMER))));
}

#[test]
fn initialize_at_refuses_one_address_for_both() {
    let mut ledger = Ledger::new();
    let outcome = initialize_at(&mut ledger, Initialize { authority: AUTHORITY }, ([5u8; 32], 255), ([5u8; 32], 254));
    assert_eq!(outcome, Err(KisanError::AlreadyInitialized));
    assert_eq!(ledger.account(&[5u8; 32]), None);
}

#[test]
fn first_submission_mints_the_fixed_amount() {
    let mut ledger = ready();
    let commitment = [0x42u8; 32];
    assert_eq!(commitment_status(&ledger, &commitment), Some(CommitmentStatus::Unseen));
    assert_eq!(submit(&mut ledger, commitment), Ok(()));
    assert_eq!(balance(&ledger, &FARMER_TOKENS), 1_000_000_000);
    assert_eq!(mint(&ledger).supply, 1_000_000_000);
    assert_eq!(program_state(&ledger).total_proofs_verified, 1);
    assert_eq!(program_state(&ledger).total_tokens_minted, 1_000_000_000);
    assert_eq!(
        ledger.account(&proof_record_address(&commitment).unwrap().0),
        Some(Account::Proof(ProofRecord { commitment, farmer: FARMER, timestamp: NOW, verified: true }))
    );
    assert_eq!(commitment_status(&ledger, &commitment), Some(CommitmentStatus::Issued));
}

#[test]
fn distinct_commitments_are_each_paid() {
    let mut ledger = ready();
    for k in 1..=5u8 {
        assert_eq!(submit(&mut ledger, [k; 32]), Ok(()));
        assert_eq!(balance(&ledger, &FARMER_TOKENS), k as u64 * 1_000_000_000);
        assert_eq!(program_state(&ledger).total_proofs_verified, k as u64);
        assert_eq!(program_state(&ledger).total_tokens_minted, k as u64 * 1_000_000_000);
        assert_eq!(mint(&ledger).supply, k as u64 * 1_000_000_000);
    }
}

#[test]
fn reused_commitment_fails_whatever_else_is_sent() {
    let mut ledger = ready();
    let commitment = [0x42u8; 32];
    assert_eq!(submit(&mut ledger, commitment), Ok(()));
    let before = snapshot(&ledger, &[commitment]);

    // The same call again.
    assert_eq!(submit(&mut ledger, commitment), Err(KisanError::ProofAlreadyUsed));
    assert_eq!(snapshot(&ledger, &[commitment]), before);

    // Another farmer, another proof, another time.
    let other = [0xe1u8; 32];
    let other_tokens = [0xe2u8; 32];
    assert_eq!(ledger.open_token_account(&other_tokens, &mint_address().unwrap().0, &other), Ok(()));
    let outcome = verify_and_mint(
        &mut ledger,
        VerifyAndMint { farmer: other, farmer_token_account: other_tokens, unix_timestamp: NOW + 60 },
        [0xffu8; 64],
        [0xeeu8; 128],
        [0xddu8; 64],
        vec![9, 9, 9],
        commitment,
    );
    assert_eq!(outcome, Err(KisanError::ProofAlreadyUsed));
    assert_eq!(snapshot(&ledger, &[commitment]), before);
    assert_eq!(balance(&ledger, &other_tokens), 0);
}

#[test]
fn zero_proof_a_fails_without_a_trace() {
    let mut ledger = ready();
    let before = snapshot(&ledger, &[[1u8; 32]]);
    let outcome =
        verify_and_mint(&mut ledger, context(), [0u8; 64], proof_b(), proof_c(), vec![0x01, 0x02], [1u8; 32]);
    assert_eq!(outcome, Err(KisanError::InvalidProof));
    assert_eq!(snapshot(&ledger, &[[1u8; 32]]), before);
}

#[test]
fn empty_public_signals_fail_without_a_trace() {
    let mut ledger = ready();
    let before = snapshot(&ledger, &[[1u8; 32]]);
    let outcome = verify_and_mint(&mut ledger, context(), proof_a(), proof_b(), proof_c(), vec![], [1u8; 32]);
    assert_eq!(outcome, Err(KisanError::InvalidPublicSignals));
    assert_eq!(snapshot(&ledger, &[[1u8; 32]]), before);
}

#[test]
fn zero_commitment_fails_without_a_trace() {
    let mut ledger = ready();
    let before = snapshot(&ledger, &[[0u8; 32]]);
    let outcome =
        verify_and_mint(&mut ledger, context(), proof_a(), proof_b(), proof_c(), vec![0x01, 0x02], [0u8; 32]);
    assert_eq!(outcome, Err(KisanError::InvalidCommitment));
    assert_eq!(snapshot(&ledger, &[[0u8; 32]]), before);
}

#[test]
fn rejected_commitment_can_be_submitted_with_a_valid_proof() {
    let mut ledger = ready();
    let commitment = [1u8; 32];
    let outcome =
        verify_and_mint(&mut ledger, context(), proof_a(), [0u8; 128], proof_c(), vec![0x01], commitment);
    assert_eq!(outcome, Err(KisanError::InvalidProof));
    assert_eq!(commitment_status(&ledger, &commitment), Some(CommitmentStatus::Unseen));
    assert_eq!(submit(&mut ledger, commitment), Ok(()));
    assert_eq!(balance(&ledger, &FARMER_TOKENS), 1_000_000_000);
}

#[test]
fn worked_example() {
    let mut ledger = ready();
    let commitment = [0x01u8; 32];
    assert_eq!(balance(&ledger, &FARMER_TOKENS), 0);
    assert_eq!(program_state(&ledger).total_proofs_verified, 0);

    assert_eq!(submit(&mut ledger, commitment), Ok(()));
    assert_eq!(balance(&ledger, &FARMER_TOKENS), 1_000_000_000);
    assert_eq!(program_state(&ledger).total_proofs_verified, 1);
    assert_eq!(program_state(&ledger).total_tokens_minted, 1_000_000_000);

    assert!(submit(&mut ledger, commitment).is_err());
    assert_eq!(balance(&ledger, &FARMER_TOKENS), 1_000_000_000);
    assert_eq!(program_state(&ledger).total_proofs_verified, 1);
    assert_eq!(program_state(&ledger).total_tokens_minted, 1_000_000_000);
}

#[test]
fn two_submissions_of_one_commitment_count_once_in_either_order() {
    let commitment = [0x77u8; 32];
    let other = [0xe1u8; 32];
    let other_tokens = [0xe2u8; 32];
    let other_context = VerifyAndMint { farmer: other, farmer_token_account: other_tokens, unix_timestamp: NOW };
    for farmer_first in [true, false] {
        let mut ledger = ready();
        assert_eq!(ledger.open_token_account(&other_tokens, &mint_address().unwrap().0, &other), Ok(()));
        let mut outcomes = Vec::new();
        for turn in 0..2 {
            let ctx = if (turn == 0) == farmer_first { context() } else { other_context };
            outcomes.push(verify_and_mint(
                &mut ledger,
                ctx,
                proof_a(),
                proof_b(),
                proof_c(),
                vec![0x01, 0x02],
                commitment,
            ));
        }
        assert_eq!(outcomes, vec![Ok(()), Err(KisanError::ProofAlreadyUsed)]);
        assert_eq!(program_state(&ledger).total_proofs_verified, 1);
        assert_eq!(program_state(&ledger).total_tokens_minted, 1_000_000_000);
        assert_eq!(mint(&ledger).supply, 1_000_000_000);
        let (winner, loser) = if farmer_first { (FARMER_TOKENS, other_tokens) } else { (other_tokens, FARMER_TOKENS) };
        assert_eq!(balance(&ledger, &winner), 1_000_000_000);
        assert_eq!(balance(&ledger, &loser), 0);
    }
}

#[test]
fn submission_before_initialize_is_refused() {
    let mut ledger = Ledger::new();
    assert_eq!(ledger.open_token_account(&FARMER_TOKENS, &[2u8; 32], &FARMER), Ok(()));
    assert_eq!(submit(&mut ledger, [1u8; 32]), Err(KisanError::NotInitialized));
    assert_eq!(ledger.account(&proof_record_address(&[1u8; 32]).unwrap().0), None);
    assert_eq!(balance(&ledger, &FARMER_TOKENS), 0);
}

#[test]
fn missing_token_account_is_refused() {
    let mut ledger = Ledger::new();
    assert_eq!(initialize(&mut ledger, Initialize { authority: AUTHORITY }), Ok(()));
    assert_eq!(submit(&mut ledger, [1u8; 32]), Err(KisanError::TokenAccountMismatch));
    assert_eq!(program_state(&ledger).total_proofs_verified, 0);
    assert_eq!(commitment_status(&ledger, &[1u8; 32]), Some(CommitmentStatus::Unseen));
}

#[test]
fn token_account_of_another_owner_is_refused() {
    let mut ledger = Ledger::new();
    assert_eq!(initialize(&mut ledger, Initialize { authority: AUTHORITY }), Ok(()));
    assert_eq!(ledger.open_token_account(&FARMER_TOKENS, &mint_address().unwrap().0, &[0xe1; 32]), Ok(()));
    assert_eq!(submit(&mut ledger, [1u8; 32]), Err(KisanError::TokenAccountMismatch));
    assert_eq!(balance(&ledger, &FARMER_TOKENS), 0);
    assert_eq!(mint(&ledger).supply, 0);
}

#[test]
fn token_account_of_another_mint_is_refused() {
    let mut ledger = Ledger::new();
    assert_eq!(initialize(&mut ledger, Initialize { authority: AUTHORITY }), Ok(()));
    assert_eq!(ledger.open_token_account(&FARMER_TOKENS, &[0x33; 32], &FARMER), Ok(()));
    assert_eq!(submit(&mut ledger, [1u8; 32]), Err(KisanError::TokenAccountMismatch));
    assert_eq!(balance(&ledger, &FARMER_TOKENS), 0);
}

#[test]
fn destination_that_is_no_token_account_is_refused() {
    let mut ledger = Ledger::new();
    assert_eq!(initialize(&mut ledger, Initialize { authority: AUTHORITY }), Ok(()));
    let ctx = VerifyAndMint { farmer: FARMER, farmer_token_account: mint_address().unwrap().0, unix_timestamp: NOW };
    let outcome = verify_and_mint(&mut ledger, ctx, proof_a(), proof_b(), proof_c(), vec![1], [1u8; 32]);
    assert_eq!(outcome, Err(KisanError::TokenAccountMismatch));
    assert_eq!(mint(&ledger).supply, 0);
}

#[test]
fn reuse_is_reported_before_the_proof_is_looked_at() {
    let mut ledger = ready();
    assert_eq!(submit(&mut ledger, [1u8; 32]), Ok(()));
    let outcome = verify_and_mint(&mut ledger, context(), [0u8; 64], [0u8; 128], [0u8; 64], vec![], [1u8; 32]);
    assert_eq!(outcome, Err(KisanError::ProofAlreadyUsed));
}

#[test]
fn invalid_proof_is_reported_before_the_token_account_is_looked_at() {
    let mut ledger = Ledger::new();
    assert_eq!(initialize(&mut ledger, Initialize { authority: AUTHORITY }), Ok(()));
    let outcome = verify_and_mint(&mut ledger, context(), [0u8; 64], proof_b(), proof_c(), vec![1], [1u8; 32]);
    assert_eq!(outcome, Err(KisanError::InvalidProof));
}

#[test]
fn occupied_record_address_blocks_the_commitment() {
    let mut ledger = ready();
    let commitment = [0x10u8; 32];
    let (record_at, _) = proof_record_address(&commitment).unwrap();
    assert_eq!(ledger.open_token_account(&record_at, &mint_address().unwrap().0, &FARMER), Ok(()));
    assert_eq!(submit(&mut ledger, commitment), Err(KisanError::ProofAlreadyUsed));
    assert_eq!(commitment_status(&ledger, &commitment), Some(CommitmentStatus::Unseen));
    assert_eq!(status_at(&ledger, &record_at), CommitmentStatus::Unseen);
}

#[test]
fn mint_that_names_another_authority_refuses_the_program() {
    // A program state set up at one address, asked to act from another: the
    // mint grants nothing to an identity it does not name.
    let mut ledger = Ledger::new();
    let state_at = [0x51u8; 32];
    let mint_at = [0x52u8; 32];
    let impostor_at = [0x53u8; 32];
    assert_eq!(
        initialize_at(&mut ledger, Initialize { authority: AUTHORITY }, (state_at, 255), (mint_at, 255)),
        Ok(())
    );
    assert_eq!(ledger.open_token_account(&FARMER_TOKENS, &mint_at, &FARMER), Ok(()));
    assert_eq!(
        ledger.minted(&mint_at, &FARMER_TOKENS, 5, &impostor_at),
        Err(KisanError::MintAuthorityMismatch)
    );
    assert_eq!(
        ledger.minted(&mint_at, &FARMER_TOKENS, 5, &state_at),
        Ok((
            MintAuthority { decimals: 9, supply: 5, mint_authority: state_at },
            TokenAccount { mint: mint_at, owner: FARMER, amount: 5 },
        ))
    );
    // Deciding a mint writes nothing.
    assert_eq!(balance(&ledger, &FARMER_TOKENS), 0);
}

#[test]
fn minted_checks_the_mint_and_the_destination() {
    let mut ledger = ready();
    let (state_at, _) = state_address().unwrap();
    let (mint_at, _) = mint_address().unwrap();
    assert_eq!(ledger.minted(&[0x99; 32], &FARMER_TOKENS, 1, &state_at), Err(KisanError::NotInitialized));
    assert_eq!(ledger.minted(&FARMER_TOKENS, &FARMER_TOKENS, 1, &state_at), Err(KisanError::NotInitialized));
    assert_eq!(ledger.minted(&mint_at, &[0x99; 32], 1, &state_at), Err(KisanError::TokenAccountMismatch));
    assert_eq!(ledger.minted(&mint_at, &state_at, 1, &state_at), Err(KisanError::TokenAccountMismatch));
    assert_eq!(ledger.open_token_account(&[0x98; 32], &[0x97; 32], &FARMER), Ok(()));
    assert_eq!(ledger.minted(&mint_at, &[0x98; 32], 1, &state_at), Err(KisanError::TokenAccountMismatch));
    assert_eq!(submit(&mut ledger, [1u8; 32]), Ok(()));
    assert_eq!(
        ledger.minted(&mint_at, &FARMER_TOKENS, u64::MAX - 1_000_000_000 + 1, &state_at),
        Err(KisanError::Overflow)
    );
    assert_eq!(
        ledger.minted(&mint_at, &FARMER_TOKENS, u64::MAX - 1_000_000_000, &state_at),
        Ok((
            MintAuthority { decimals: 9, supply: u64::MAX, mint_authority: state_at },
            TokenAccount { mint: mint_at, owner: FARMER, amount: u64::MAX },
        ))
    );
}

#[test]
fn verify_and_mint_at_writes_at_the_given_addresses() {
    let mut ledger = Ledger::new();
    let state_at = [0x51u8; 32];
    let mint_at = [0x52u8; 32];
    let record_at = [0x54u8; 32];
    assert_eq!(
        initialize_at(&mut ledger, Initialize { authority: AUTHORITY }, (state_at, 200), (mint_at, 201)),
        Ok(())
    );
    assert_eq!(ledger.open_token_account(&FARMER_TOKENS, &mint_at, &FARMER), Ok(()));
    let commitment = [0x21u8; 32];
    let outcome = verify_and_mint_at(
        &mut ledger,
        &state_at,
        &record_at,
        context(),
        proof_a(),
        proof_b(),
        proof_c(),
        vec![0x01, 0x02],
        commitment,
    );
    assert_eq!(outcome, Ok(()));
    assert_eq!(
        ledger.account(&state_at),
        Some(Account::State(ProgramState {
            authority: AUTHORITY,
            mint: mint_at,
            total_proofs_verified: 1,
            total_tokens_minted: 1_000_000_000,
            bump: 200,
            mint_bump: 201,
        }))
    );
    assert_eq!(
        ledger.account(&mint_at),
        Some(Account::Mint(MintAuthority { decimals: 9, supply: 1_000_000_000, mint_authority: state_at }))
    );
    assert_eq!(
        ledger.account(&FARMER_TOKENS),
        Some(Account::Token(TokenAccount { mint: mint_at, owner: FARMER, amount: 1_000_000_000 }))
    );
    assert_eq!(
        ledger.account(&record_at),
        Some(Account::Proof(ProofRecord { commitment, farmer: FARMER, timestamp: NOW, verified: true }))
    );
    assert_eq!(status_at(&ledger, &record_at), CommitmentStatus::Issued);

    // Asked to act from an address that holds no program state.
    let outcome = verify_and_mint_at(
        &mut ledger,
        &mint_at,
        &[0x55u8; 32],
        context(),
        proof_a(),
        proof_b(),
        proof_c(),
        vec![0x01],
        [0x22u8; 32],
    );
    assert_eq!(outcome, Err(KisanError::NotInitialized));
    assert_eq!(ledger.account(&[0x55u8; 32]), None);
}

#[test]
fn open_token_account_is_insert_if_absent() {
    let mut ledger = Ledger::new();
    assert!(!ledger.contains(&FARMER_TOKENS));
    assert_eq!(ledger.account(&FARMER_TOKENS), None);
    assert_eq!(ledger.open_token_account(&FARMER_TOKENS, &[2u8; 32], &FARMER), Ok(()));
    assert!(ledger.contains(&FARMER_TOKENS));
    assert_eq!(
        ledger.open_token_account(&FARMER_TOKENS, &[3u8; 32], &[4u8; 32]),
        Err(KisanError::AddressInUse)
    );
    assert_eq!(
        ledger.account(&FARMER_TOKENS),
        Some(Account::Token(TokenAccount { mint: [2u8; 32], owner: FARMER, amount: 0 }))
    );
}

#[test]
fn books_agree_after_every_operation() {
    let mut ledger = ready();
    for k in 1..=20u8 {
        let commitment = [k % 7 + 1; 32];
        let _ = submit(&mut ledger, commitment);
        let state = program_state(&ledger);
        let mint = mint(&ledger);
        assert_eq!(mint.supply, state.total_tokens_minted);
        assert_eq!(state.total_tokens_minted, state.total_proofs_verified * 1_000_000_000);
        assert_eq!(mint.mint_authority, state_address().unwrap().0);
        assert_eq!(balance(&ledger, &FARMER_TOKENS), mint.supply);
    }
    assert_eq!(program_state(&ledger).total_proofs_verified, 7);
}
