use vstd::prelude::*;

use crate::address::Address;
use crate::error::StakeError;

verus! {

/// A balance of one asset, under one signing authority.
#[derive(Clone, Copy)]
pub struct TokenAccount {
    pub address: Address,
    /// The asset that the account holds.
    pub mint: Address,
    /// The authority that signs for the account.
    pub owner: Address,
    pub amount: u64,
}

/// An asset class: its issuing authority and its total supply.
#[derive(Clone, Copy)]
pub struct Mint {
    pub address: Address,
    /// The authority that may issue more; `None` once issuing is closed.
    pub mint_authority: Option<Address>,
    pub supply: u64,
}

pub open spec fn with_amount(acct: TokenAccount, amount: int) -> TokenAccount {
    TokenAccount { amount: amount as u64, ..acct }
}

pub open spec fn with_supply(mint: Mint, supply: int) -> Mint {
    Mint { supply: supply as u64, ..mint }
}

/// Issuing `amount` of `mint` into `to`, signed by `authority`.
pub open spec fn mint_to_spec(mint: Mint, to: TokenAccount, authority: Address, amount: u64) -> Result<(Mint, TokenAccount), StakeError> {
    if to.mint@ != mint.address@ {
        Err(StakeError::AssetMismatch)
    } else if !(mint.mint_authority matches Some(m) && m@ == authority@) {
        Err(StakeError::OwnerMismatch)
    } else if mint.supply + amount > u64::MAX || to.amount + amount > u64::MAX {
        Err(StakeError::Overflow)
    } else {
        Ok((with_supply(mint, mint.supply + amount), with_amount(to, to.amount + amount)))
    }
}

/// Moving `amount` from `from` to `to`, signed by `authority`.
pub open spec fn transfer_spec(from: TokenAccount, to: TokenAccount, authority: Address, amount: u64) -> Result<(TokenAccount, TokenAccount), StakeError> {
    if from.mint@ != to.mint@ {
        Err(StakeError::AssetMismatch)
    } else if authority@ != from.owner@ {
        Err(StakeError::OwnerMismatch)
    } else if from.amount < amount {
        Err(StakeError::InsufficientBalance)
    } else if to.amount + amount > u64::MAX {
        Err(StakeError::Overflow)
    } else {
        Ok((with_amount(from, from.amount - amount), with_amount(to, to.amount + amount)))
    }
}

/// Destroying `amount` of `mint` held in `from`, signed by `authority`.
pub open spec fn burn_spec(mint: Mint, from: TokenAccount, authority: Address, amount: u64) -> Result<(Mint, TokenAccount), StakeError> {
    if from.mint@ != mint.address@ {
        Err(StakeError::AssetMismatch)
    } else if authority@ != from.owner@ {
        Err(StakeError::OwnerMismatch)
    } else if from.amount < amount {
        Err(StakeError::InsufficientBalance)
    } else if mint.supply < amount {
        Err(StakeError::Overflow)
    } else {
        Ok((with_supply(mint, mint.supply - amount), with_amount(from, from.amount - amount)))
    }
}

fn may_issue(mint: &Mint, authority: &Address) -> (r: bool)
    ensures
        r == (mint.mint_authority matches Some(m) && m@ == authority@),
{
    match mint.mint_authority {
        Some(m) => m == *authority,
        None => false,
    }
}

/// Issues `amount` of `mint` into `to`; returns both updated, or why not.
pub fn mint_to(mint: &Mint, to: &TokenAccount, authority: &Address, amount: u64) -> (r: Result<(Mint, TokenAccount), StakeError>)
    ensures
        r == mint_to_spec(*mint, *to, *authority, amount),
{
    if to.mint != mint.address {
        Err(StakeError::AssetMismatch)
    } else if !may_issue(mint, authority) {
        Err(StakeError::OwnerMismatch)
    } else if mint.supply > u64::MAX - amount || to.amount > u64::MAX - amount {
        Err(StakeError::Overflow)
    } else {
        Ok((Mint { supply: mint.supply + amount, ..*mint }, TokenAccount { amount: to.amount + amount, ..*to }))
    }
}

/// Moves `amount` from `from` to `to`; returns both updated, or why not.
pub fn transfer(from: &TokenAccount, to: &TokenAccount, authority: &Address, amount: u64) -> (r: Result<(TokenAccount, TokenAccount), StakeError>)
    ensures
        r == transfer_spec(*from, *to, *authority, amount),
{
    if from.mint != to.mint {
        Err(StakeError::AssetMismatch)
    } else if *authority != from.owner {
        Err(StakeError::OwnerMismatch)
    } else if from.amount < amount {
        Err(StakeError::InsufficientBalance)
    } else if to.amount > u64::MAX - amount {
        Err(StakeError::Overflow)
    } else {
        Ok((TokenAccount { amount: from.amount - amount, ..*from }, TokenAccount { amount: to.amount + amount, ..*to }))
    }
}

/// Destroys `amount` held in `from`; returns the mint and the account updated, or why not.
pub fn burn(mint: &Mint, from: &TokenAccount, authority: &Address, amount: u64) -> (r: Result<(Mint, TokenAccount), StakeError>)
    ensures
        r == burn_spec(*mint, *from, *authority, amount),
{
    if from.mint != mint.address {
        Err(StakeError::AssetMismatch)
    } else if *authority != from.owner {
        Err(StakeError::OwnerMismatch)
    } else if from.amount < amount {
        Err(StakeError::InsufficientBalance)
    } else if mint.supply < amount {
        Err(StakeError::Overflow)
    } else {
        Ok((Mint { supply: mint.supply - amount, ..*mint }, TokenAccount { amount: from.amount - amount, ..*from }))
    }
}

} // verus!
