use kisan_depin::error::KisanError;
use kisan_depin::state::{
    MintAuthority, ProgramState, ProofRecord, TokenAccount, GREEN_TOKEN_DECIMALS, MINT_AMOUNT,
};

#[test]
fn mint_amount_is_one_token_at_nine_decimals() {
    assert_eq!(GREEN_TOKEN_DECIMALS, 9);
    assert_eq!(MINT_AMOUNT, 1_000_000_000);
    assert_eq!(MINT_AMOUNT, 10u64.pow(GREEN_TOKEN_DECIMALS as u32));
}

#[test]
fn new_program_state_has_counted_nothing() {
    let state = ProgramState::new([1u8; 32], [2u8; 32], 254, 253);
    assert_eq!(
        state,
        ProgramState {
            authority: [1u8; 32],
            mint: [2u8; 32],
            total_proofs_verified: 0,
            total_tokens_minted: 0,
            bump: 254,
            mint_bump: 253,
        }
    );
}

#[test]
fn record_issuance_counts_one_proof_and_the_amount() {
    let mut state = ProgramState::new([1u8; 32], [2u8; 32], 254, 253);
    assert_eq!(state.record_issuance(), Ok(()));
    assert_eq!(state.total_proofs_verified, 1);
    assert_eq!(state.total_tokens_minted, 1_000_000_000);
    assert_eq!(state.record_issuance(), Ok(()));
    assert_eq!(state.total_proofs_verified, 2);
    assert_eq!(state.total_tokens_minted, 2_000_000_000);
    assert_eq!(state.authority, [1u8; 32]);
    assert_eq!(state.mint, [2u8; 32]);
    assert_eq!((state.bump, state.mint_bump), (254, 253));
}

#[test]
fn record_issuance_fills_the_counter_to_the_last_unit() {
    let mut state = ProgramState::new([1u8; 32], [2u8; 32], 254, 253);
    state.total_tokens_minted = u64::MAX - MINT_AMOUNT;
    assert_eq!(state.record_issuance(), Ok(()));
    assert_eq!(state.total_tokens_minted, u64::MAX);
}

#[test]
fn record_issuance_refuses_to_wrap_the_token_counter() {
    let mut state = ProgramState::new([1u8; 32], [2u8; 32], 254, 253);
    state.total_proofs_verified = 5;
    state.total_tokens_minted = u64::MAX - MINT_AMOUNT + 1;
    let before = state;
    assert_eq!(state.record_issuance(), Err(KisanError::Overflow));
    assert_eq!(state, before);
}

#[test]
fn record_issuance_refuses_to_wrap_the_proof_counter() {
    let mut state = ProgramState::new([1u8; 32], [2u8; 32], 254, 253);
    state.total_proofs_verified = u64::MAX;
    let before = state;
    assert_eq!(state.record_issuance(), Err(KisanError::Overflow));
    assert_eq!(state, before);
}

#[test]
fn new_mint_has_nine_decimals_and_no_supply() {
    assert_eq!(
        MintAuthority::new([3u8; 32]),
        MintAuthority { decimals: 9, supply: 0, mint_authority: [3u8; 32] }
    );
}

#[test]
fn new_token_account_is_empty() {
    assert_eq!(
        TokenAccount::new([2u8; 32], [7u8; 32]),
        TokenAccount { mint: [2u8; 32], owner: [7u8; 32], amount: 0 }
    );
}

#[test]
fn new_proof_record_is_verified() {
    assert_eq!(
        ProofRecord::new([1u8; 32], [7u8; 32], -5),
        ProofRecord { commitment: [1u8; 32], farmer: [7u8; 32], timestamp: -5, verified: true }
    );
}
