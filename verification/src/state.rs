//! The records that the ledger keeps, each with its mathematical view.

use vstd::prelude::*;
use crate::address::Address;
use crate::error::KisanError;

verus! {

/// Decimal precision of the reward token.
pub const GREEN_TOKEN_DECIMALS: u8 = 9;

/// Base units minted per accepted proof: one token at nine decimals.
pub const MINT_AMOUNT: u64 = 1_000_000_000;

/// The program's singleton record: who set it up, which mint it controls,
/// how much it has issued, and the bumps of its own and the mint's address.
#[derive(Clone, Copy, Debug, PartialEq, Eq)]
pub struct ProgramState {
    pub authority: Address,
    pub mint: Address,
    pub total_proofs_verified: u64,
    pub total_tokens_minted: u64,
    pub bump: u8,
    pub mint_bump: u8,
}

/// [`ProgramState`] as a mathematical value.
pub struct ProgramStateView {
    pub authority: Seq<u8>,
    pub mint: Seq<u8>,
    pub total_proofs_verified: nat,
    pub total_tokens_minted: nat,
    pub bump: u8,
    pub mint_bump: u8,
}

impl View for ProgramState {
    type V = ProgramStateView;

    open spec fn view(&self) -> ProgramStateView {
        ProgramStateView {
            authority: self.authority@,
            mint: self.mint@,
            total_proofs_verified: self.total_proofs_verified as nat,
            total_tokens_minted: self.total_tokens_minted as nat,
            bump: self.bump,
            mint_bump: self.mint_bump,
        }
    }
}

impl ProgramStateView {
    /// The state as `initialize` writes it: nothing issued yet.
    pub open spec fn fresh(authority: Seq<u8>, mint: Seq<u8>, bump: u8, mint_bump: u8) -> ProgramStateView {
        ProgramStateView {
            authority,
            mint,
            total_proofs_verified: 0,
            total_tokens_minted: 0,
            bump,
            mint_bump,
        }
    }

    /// Whether one more issuance still fits both counters.
    pub open spec fn can_issue(self) -> bool {
        self.total_proofs_verified + 1 <= u64::MAX && self.total_tokens_minted + MINT_AMOUNT <= u64::MAX
    }

    /// The state after one more issuance: one proof and [`MINT_AMOUNT`] base
    /// units more, all else as before.
    pub open spec fn issued(self) -> ProgramStateView {
        ProgramStateView {
            total_proofs_verified: self.total_proofs_verified + 1,
            total_tokens_minted: self.total_tokens_minted + MINT_AMOUNT as nat,
            ..self
        }
    }
}

impl ProgramState {
    /// The state of a program that has issued nothing yet.
    pub fn new(authority: Address, mint: Address, bump: u8, mint_bump: u8) -> (state: ProgramState)
        ensures
            state@ == ProgramStateView::fresh(authority@, mint@, bump, mint_bump),
    {
        ProgramState { authority, mint, total_proofs_verified: 0, total_tokens_minted: 0, bump, mint_bump }
    }

    /// Counts one issuance: one proof more, [`MINT_AMOUNT`] base units more.
    /// Where either counter would exceed 64 bits nothing is changed and
    /// `Overflow` is returned.
    pub fn record_issuance(&mut self) -> (outcome: Result<(), KisanError>)
        ensures
            old(self)@.can_issue() ==> outcome is Ok && final(self)@ == old(self)@.issued(),
            !old(self)@.can_issue() ==> outcome == Err::<(), KisanError>(KisanError::Overflow) && *final(self) == *old(self),
    {
        match (self.total_proofs_verified.checked_add(1), self.total_tokens_minted.checked_add(MINT_AMOUNT)) {
            (Some(proofs), Some(tokens)) => {
                self.total_proofs_verified = proofs;
                self.total_tokens_minted = tokens;
                Ok(())
            },
            _ => Err(KisanError::Overflow),
        }
    }
}

/// The token's supply record. Only the identity it names may mint.
#[derive(Clone, Copy, Debug, PartialEq, Eq)]
pub struct MintAuthority {
    pub decimals: u8,
    pub supply: u64,
    pub mint_authority: Address,
}

/// [`MintAuthority`] as a mathematical value.
pub struct MintAuthorityView {
    pub decimals: u8,
    pub supply: nat,
    pub mint_authority: Seq<u8>,
}

impl View for MintAuthority {
    type V = MintAuthorityView;

    open spec fn view(&self) -> MintAuthorityView {
        MintAuthorityView {
            decimals: self.decimals,
            supply: self.supply as nat,
            mint_authority: self.mint_authority@,
        }
    }
}

impl MintAuthorityView {
    /// The mint as `initialize` creates it: nine decimals, no supply, and the
    /// given holder of the minting capability.
    pub open spec fn fresh(mint_authority: Seq<u8>) -> MintAuthorityView {
        MintAuthorityView { decimals: GREEN_TOKEN_DECIMALS, supply: 0, mint_authority }
    }

    /// The mint with `amount` base units more in supply.
    pub open spec fn minted(self, amount: nat) -> MintAuthorityView {
        MintAuthorityView { supply: self.supply + amount, ..self }
    }
}

impl MintAuthority {
    /// A mint with nine decimals and no supply, whose minting capability
    /// `mint_authority` holds.
    pub fn new(mint_authority: Address) -> (mint: MintAuthority)
        ensures
            mint@ == MintAuthorityView::fresh(mint_authority@),
    {
        MintAuthority { decimals: GREEN_TOKEN_DECIMALS, supply: 0, mint_authority }
    }
}

/// A balance of one token, bound to one owner.
#[derive(Clone, Copy, Debug, PartialEq, Eq)]
pub struct TokenAccount {
    pub mint: Address,
    pub owner: Address,
    pub amount: u64,
}

/// [`TokenAccount`] as a mathematical value.
pub struct TokenAccountView {
    pub mint: Seq<u8>,
    pub owner: Seq<u8>,
    pub amount: nat,
}

impl View for TokenAccount {
    type V = TokenAccountView;

    open spec fn view(&self) -> TokenAccountView {
        TokenAccountView { mint: self.mint@, owner: self.owner@, amount: self.amount as nat }
    }
}

impl TokenAccountView {
    /// An empty balance of `mint` that belongs to `owner`.
    pub open spec fn fresh(mint: Seq<u8>, owner: Seq<u8>) -> TokenAccountView {
        TokenAccountView { mint, owner, amount: 0 }
    }

    /// The account with `amount` base units more.
    pub open spec fn credited(self, amount: nat) -> TokenAccountView {
        TokenAccountView { amount: self.amount + amount, ..self }
    }
}

impl TokenAccount {
    /// An empty balance of `mint` that belongs to `owner`.
    pub fn new(mint: Address, owner: Address) -> (account: TokenAccount)
        ensures
            account@ == TokenAccountView::fresh(mint@, owner@),
    {
        TokenAccount { mint, owner, amount: 0 }
    }
}

/// The trace that an accepted proof leaves: its presence at the address
/// derived from the commitment is what forbids a second issuance.
#[derive(Clone, Copy, Debug, PartialEq, Eq)]
pub struct ProofRecord {
    pub commitment: [u8; 32],
    pub farmer: Address,
    pub timestamp: i64,
    pub verified: bool,
}

/// [`ProofRecord`] as a mathematical value.
pub struct ProofRecordView {
    pub commitment: Seq<u8>,
    pub farmer: Seq<u8>,
    pub timestamp: int,
    pub verified: bool,
}

impl View for ProofRecord {
    type V = ProofRecordView;

    open spec fn view(&self) -> ProofRecordView {
        ProofRecordView {
            commitment: self.commitment@,
            farmer: self.farmer@,
            timestamp: self.timestamp as int,
            verified: self.verified,
        }
    }
}

impl ProofRecordView {
    /// The record of a proof accepted from `farmer` at `timestamp`.
    pub open spec fn accepted(commitment: Seq<u8>, farmer: Seq<u8>, timestamp: int) -> ProofRecordView {
        ProofRecordView { commitment, farmer, timestamp, verified: true }
    }
}

impl ProofRecord {
    /// The record of a proof accepted from `farmer` at `timestamp`. A record
    /// is only ever made for an accepted proof, so `verified` is set.
    pub fn new(commitment: [u8; 32], farmer: Address, timestamp: i64) -> (record: ProofRecord)
        ensures
            record@ == ProofRecordView::accepted(commitment@, farmer@, timestamp as int),
    {
        ProofRecord { commitment, farmer, timestamp, verified: true }
    }
}

/// What an address of the ledger can hold.
#[derive(Clone, Copy, Debug, PartialEq, Eq)]
pub enum Account {
    State(ProgramState),
    Mint(MintAuthority),
    Token(TokenAccount),
    Proof(ProofRecord),
}

/// [`Account`] as a mathematical value.
pub enum AccountView {
    State(ProgramStateView),
    Mint(MintAuthorityView),
    Token(TokenAccountView),
    Proof(ProofRecordView),
}

impl View for Account {
    type V = AccountView;

    open spec fn view(&self) -> AccountView {
        match *self {
            Account::State(state) => AccountView::State(state@),
            Account::Mint(mint) => AccountView::Mint(mint@),
            Account::Token(token) => AccountView::Token(token@),
            Account::Proof(record) => AccountView::Proof(record@),
        }
    }
}

} // verus!
