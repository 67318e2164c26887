//! The token ledger's minting capability: supply and a balance grow
//! together, and only for the identity that the mint names as its authority.

use vstd::prelude::*;
use crate::address::{same_address, Address};
use crate::error::KisanError;
use crate::ledger::Ledger;
use crate::state::{Account, AccountView, MintAuthority, MintAuthorityView, TokenAccount, TokenAccountView};

verus! {

/// `address` holds a mint.
pub open spec fn holds_mint(ledger: Map<Seq<u8>, AccountView>, address: Seq<u8>) -> bool {
    ledger.dom().contains(address) && ledger[address] is Mint
}

/// `address` holds a token account.
pub open spec fn holds_token(ledger: Map<Seq<u8>, AccountView>, address: Seq<u8>) -> bool {
    ledger.dom().contains(address) && ledger[address] is Token
}

/// What minting `amount` base units of `mint` to `destination` on the word
/// of `authority` makes of the mint and of the destination, or why it is
/// refused. The checks run in this order: the mint exists; `authority` is the
/// holder that the mint names; the destination is a token account of the
/// mint; supply and balance stay within 64 bits.
pub open spec fn minted_spec(
    ledger: Map<Seq<u8>, AccountView>,
    mint: Seq<u8>,
    destination: Seq<u8>,
    amount: nat,
    authority: Seq<u8>,
) -> Result<(MintAuthorityView, TokenAccountView), KisanError> {
    if !holds_mint(ledger, mint) {
        Err(KisanError::NotInitialized)
    } else if ledger[mint]->Mint_0.mint_authority != authority {
        Err(KisanError::MintAuthorityMismatch)
    } else if !holds_token(ledger, destination) || ledger[destination]->Token_0.mint != mint {
        Err(KisanError::TokenAccountMismatch)
    } else if ledger[mint]->Mint_0.supply + amount > u64::MAX || ledger[destination]->Token_0.amount
        + amount > u64::MAX {
        Err(KisanError::Overflow)
    } else {
        Ok((ledger[mint]->Mint_0.minted(amount), ledger[destination]->Token_0.credited(amount)))
    }
}

/// A pair of accounts as mathematical values.
pub open spec fn minted_view(outcome: Result<(MintAuthority, TokenAccount), KisanError>) -> Result<
    (MintAuthorityView, TokenAccountView),
    KisanError,
> {
    match outcome {
        Ok((mint, destination)) => Ok((mint@, destination@)),
        Err(error) => Err(error),
    }
}

impl Ledger {
    /// Decides a mint of `amount` base units of `mint` to `destination`,
    /// asked for by `authority`: returns the mint and the destination as they
    /// are to be written, or the reason for the refusal. Nothing is written
    /// here, so that the caller can commit the mint together with its other
    /// changes or not at all.
    pub fn minted(&self, mint: &Address, destination: &Address, amount: u64, authority: &Address) -> (outcome:
        Result<(MintAuthority, TokenAccount), KisanError>)
        ensures
            minted_view(outcome) == minted_spec(self@, mint@, destination@, amount as nat, authority@),
    {
        let supply = match self.account(mint) {
            Some(Account::Mint(supply)) => supply,
            _ => {
                return Err(KisanError::NotInitialized);
            },
        };
        if !same_address(&supply.mint_authority, authority) {
            return Err(KisanError::MintAuthorityMismatch);
        }
        let balance = match self.account(destination) {
            Some(Account::Token(balance)) => balance,
            _ => {
                return Err(KisanError::TokenAccountMismatch);
            },
        };
        if !same_address(&balance.mint, mint) {
            return Err(KisanError::TokenAccountMismatch);
        }
        match (supply.supply.checked_add(amount), balance.amount.checked_add(amount)) {
            (Some(new_supply), Some(new_amount)) => Ok(
                (
                    MintAuthority { supply: new_supply, ..supply },
                    TokenAccount { amount: new_amount, ..balance },
                ),
            ),
            _ => Err(KisanError::Overflow),
        }
    }
}

} // verus!
