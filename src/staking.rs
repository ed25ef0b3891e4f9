use vstd::prelude::*;

use crate::address::{base58_address, find_derived_address, is_canonical, parse_address, verify_derived_address, Address};
use crate::error::StakeError;
use crate::token::{burn, burn_spec, mint_to, mint_to_spec, transfer, transfer_spec, Mint, TokenAccount};

verus! {

/// The fixed identifiers of a deployment: this module and the two assets.
#[derive(Clone, Copy)]
pub struct Config {
    pub program_id: Address,
    /// The receipt asset, issued on deposit and destroyed on withdrawal.
    pub stake_mint_address: Address,
    /// The collateral asset, held in the vault.
    pub beef_mint_address: Address,
}

impl Config {
    /// The configuration named by three base58 addresses, or `None` if one of
    /// them is no address.
    pub fn from_base58(program_id: &str, stake_mint_address: &str, beef_mint_address: &str) -> (r: Option<Config>)
        ensures
            r is Some <==> (base58_address(program_id@) is Some && base58_address(stake_mint_address@) is Some
                && base58_address(beef_mint_address@) is Some),
            r matches Some(c) ==> (base58_address(program_id@) == Some(c.program_id@)
                && base58_address(stake_mint_address@) == Some(c.stake_mint_address@)
                && base58_address(beef_mint_address@) == Some(c.beef_mint_address@)),
    {
        let program_id = match parse_address(program_id) {
            Some(a) => a,
            None => return None,
        };
        let stake_mint_address = match parse_address(stake_mint_address) {
            Some(a) => a,
            None => return None,
        };
        let beef_mint_address = match parse_address(beef_mint_address) {
            Some(a) => a,
            None => return None,
        };
        Some(Config { program_id, stake_mint_address, beef_mint_address })
    }
}

/// The accounts of a deposit.
#[derive(Clone, Copy)]
pub struct Stake {
    pub stake_mint: Mint,
    /// The derived authority that issues receipt tokens.
    pub stake_mint_authority: Address,
    pub user_stake_token_bag: TokenAccount,
    pub user_beef_token_bag: TokenAccount,
    /// The user's key, which signed the call.
    pub user_beef_token_bag_authority: Address,
    /// The vault.
    pub program_beef_token_bag: TokenAccount,
    pub beef_mint: Mint,
}

/// The accounts of a withdrawal.
#[derive(Clone, Copy)]
pub struct UnStake {
    pub stake_mint: Mint,
    pub user_stake_token_bag: TokenAccount,
    /// The user's key, which signed the call.
    pub user_stake_token_bag_authority: Address,
    /// The vault.
    pub program_beef_token_bag: TokenAccount,
    pub user_beef_token_bag: TokenAccount,
    pub beef_mint: Mint,
}

/// The accounts of the vault's creation. The vault is `None` until it exists.
#[derive(Clone, Copy)]
pub struct CreateBeefTokenBag {
    pub program_beef_token_bag_address: Address,
    pub program_beef_token_bag: Option<TokenAccount>,
    pub beef_mint: Mint,
}

/// Receipt tokens issued for `beef_amount` of collateral.
pub open spec fn stake_amount_of(beef_amount: u64) -> u64 {
    beef_amount
}

/// Collateral released for `stake_amount` receipt tokens.
pub open spec fn beef_amount_of(stake_amount: u64) -> u64 {
    stake_amount
}

/// The exchange rate of a deposit: one receipt token per unit of collateral.
pub fn stake_amount_for(beef_amount: u64) -> (r: u64)
    ensures
        r == stake_amount_of(beef_amount),
{
    beef_amount
}

/// The exchange rate of a withdrawal: one unit of collateral per receipt token.
pub fn beef_amount_for(stake_amount: u64) -> (r: u64)
    ensures
        r == beef_amount_of(stake_amount),
{
    stake_amount
}

pub open spec fn distinct3(a: Address, b: Address, c: Address) -> bool {
    a@ != b@ && a@ != c@ && b@ != c@
}

/// What a deposit of `beef_amount` makes of the accounts `ctx`: first the
/// derived addresses, then the assets, then the mint, then the transfer.
pub open spec fn stake_spec(config: Config, ctx: Stake, mint_bump: u8, bag_bump: u8, beef_amount: u64) -> Result<Stake, StakeError> {
    if !is_canonical(config.program_id@, config.stake_mint_address@, mint_bump, ctx.stake_mint_authority@)
        || !is_canonical(config.program_id@, config.beef_mint_address@, bag_bump, ctx.program_beef_token_bag.address@) {
        Err(StakeError::AuthorityMismatch)
    } else if ctx.stake_mint.address@ != config.stake_mint_address@ || ctx.beef_mint.address@ != config.beef_mint_address@ {
        Err(StakeError::AssetMismatch)
    } else if !distinct3(ctx.user_stake_token_bag.address, ctx.user_beef_token_bag.address, ctx.program_beef_token_bag.address) {
        Err(StakeError::DuplicateAccount)
    } else {
        match mint_to_spec(ctx.stake_mint, ctx.user_stake_token_bag, ctx.stake_mint_authority, stake_amount_of(beef_amount)) {
            Err(e) => Err(e),
            Ok((m, receipt)) => match transfer_spec(ctx.user_beef_token_bag, ctx.program_beef_token_bag, ctx.user_beef_token_bag_authority, beef_amount) {
                Err(e) => Err(e),
                Ok((collateral, vault)) => Ok(Stake {
                    stake_mint: m,
                    user_stake_token_bag: receipt,
                    user_beef_token_bag: collateral,
                    program_beef_token_bag: vault,
                    ..ctx
                }),
            },
        }
    }
}

/// What a withdrawal of `stake_amount` makes of the accounts `ctx`: first the
/// vault's derived address, then the assets, then the burn, then the release.
pub open spec fn unstake_spec(config: Config, ctx: UnStake, bag_bump: u8, stake_amount: u64) -> Result<UnStake, StakeError> {
    if !is_canonical(config.program_id@, config.beef_mint_address@, bag_bump, ctx.program_beef_token_bag.address@) {
        Err(StakeError::AuthorityMismatch)
    } else if ctx.stake_mint.address@ != config.stake_mint_address@ || ctx.beef_mint.address@ != config.beef_mint_address@ {
        Err(StakeError::AssetMismatch)
    } else if !distinct3(ctx.user_stake_token_bag.address, ctx.user_beef_token_bag.address, ctx.program_beef_token_bag.address) {
        Err(StakeError::DuplicateAccount)
    } else {
        match burn_spec(ctx.stake_mint, ctx.user_stake_token_bag, ctx.user_stake_token_bag_authority, stake_amount) {
            Err(e) => Err(e),
            Ok((m, receipt)) => match transfer_spec(ctx.program_beef_token_bag, ctx.user_beef_token_bag, ctx.program_beef_token_bag.address, beef_amount_of(stake_amount)) {
                Err(StakeError::InsufficientBalance) => Err(StakeError::InsufficientVaultBalance),
                Err(e) => Err(e),
                Ok((vault, collateral)) => Ok(UnStake {
                    stake_mint: m,
                    user_stake_token_bag: receipt,
                    program_beef_token_bag: vault,
                    user_beef_token_bag: collateral,
                    ..ctx
                }),
            },
        }
    }
}

/// The vault as it is created: empty, holding the collateral asset, and its
/// own authority.
pub open spec fn new_vault(address: Address, mint: Address) -> TokenAccount {
    TokenAccount { address, mint, owner: address, amount: 0 }
}

/// What creating the vault makes of the accounts `ctx`: first the derived
/// address, then whether the vault exists, then the asset.
pub open spec fn create_beef_token_bag_spec(config: Config, ctx: CreateBeefTokenBag) -> Result<CreateBeefTokenBag, StakeError> {
    if !(exists|b: u8| is_canonical(config.program_id@, config.beef_mint_address@, b, ctx.program_beef_token_bag_address@)) {
        Err(StakeError::AuthorityMismatch)
    } else if ctx.program_beef_token_bag is Some {
        Err(StakeError::AlreadyInitialized)
    } else if ctx.beef_mint.address@ != config.beef_mint_address@ {
        Err(StakeError::AssetMismatch)
    } else {
        Ok(CreateBeefTokenBag {
            program_beef_token_bag: Some(new_vault(ctx.program_beef_token_bag_address, ctx.beef_mint.address)),
            ..ctx
        })
    }
}

fn distinct(a: &Address, b: &Address, c: &Address) -> (r: bool)
    ensures
        r == distinct3(*a, *b, *c),
{
    *a != *b && *a != *c && *b != *c
}

/// Deposits `beef_amount` of collateral: issues as many receipt tokens to the
/// user under the derived mint authority, then moves the collateral from the
/// user into the vault. Either both happen or nothing changes.
pub fn stake(
    config: &Config,
    ctx: &mut Stake,
    stake_mint_authority_bump: u8,
    program_beef_bag_bump: u8,
    beef_amount: u64,
) -> (r: Result<(), StakeError>)
    ensures
        match r {
            Ok(()) => stake_spec(*config, *old(ctx), stake_mint_authority_bump, program_beef_bag_bump, beef_amount) == Ok::<Stake, StakeError>(*final(ctx)),
            Err(e) => stake_spec(*config, *old(ctx), stake_mint_authority_bump, program_beef_bag_bump, beef_amount) == Err::<Stake, StakeError>(e)
                && *final(ctx) == *old(ctx),
        },
{
    if !verify_derived_address(&config.program_id, &config.stake_mint_address, stake_mint_authority_bump, &ctx.stake_mint_authority)
        || !verify_derived_address(&config.program_id, &config.beef_mint_address, program_beef_bag_bump, &ctx.program_beef_token_bag.address) {
        return Err(StakeError::AuthorityMismatch);
    }
    if ctx.stake_mint.address != config.stake_mint_address || ctx.beef_mint.address != config.beef_mint_address {
        return Err(StakeError::AssetMismatch);
    }
    if !distinct(&ctx.user_stake_token_bag.address, &ctx.user_beef_token_bag.address, &ctx.program_beef_token_bag.address) {
        return Err(StakeError::DuplicateAccount);
    }
    let stake_amount = stake_amount_for(beef_amount);
    let (m, receipt) = match mint_to(&ctx.stake_mint, &ctx.user_stake_token_bag, &ctx.stake_mint_authority, stake_amount) {
        Ok(p) => p,
        Err(e) => return Err(e),
    };
    let (collateral, vault) = match transfer(&ctx.user_beef_token_bag, &ctx.program_beef_token_bag, &ctx.user_beef_token_bag_authority, beef_amount) {
        Ok(p) => p,
        Err(e) => return Err(e),
    };
    ctx.stake_mint = m;
    ctx.user_stake_token_bag = receipt;
    ctx.user_beef_token_bag = collateral;
    ctx.program_beef_token_bag = vault;
    Ok(())
}

/// Withdraws `stake_amount`: destroys as many of the user's receipt tokens,
/// then releases as much collateral from the vault to the user under the
/// vault's own derived authority. Either both happen or nothing changes.
pub fn unstake(config: &Config, ctx: &mut UnStake, program_beef_bag_bump: u8, stake_amount: u64) -> (r: Result<(), StakeError>)
    ensures
        match r {
            Ok(()) => unstake_spec(*config, *old(ctx), program_beef_bag_bump, stake_amount) == Ok::<UnStake, StakeError>(*final(ctx)),
            Err(e) => unstake_spec(*config, *old(ctx), program_beef_bag_bump, stake_amount) == Err::<UnStake, StakeError>(e)
                && *final(ctx) == *old(ctx),
        },
{
    if !verify_derived_address(&config.program_id, &config.beef_mint_address, program_beef_bag_bump, &ctx.program_beef_token_bag.address) {
        return Err(StakeError::AuthorityMismatch);
    }
    if ctx.stake_mint.address != config.stake_mint_address || ctx.beef_mint.address != config.beef_mint_address {
        return Err(StakeError::AssetMismatch);
    }
    if !distinct(&ctx.user_stake_token_bag.address, &ctx.user_beef_token_bag.address, &ctx.program_beef_token_bag.address) {
        return Err(StakeError::DuplicateAccount);
    }
    let (m, receipt) = match burn(&ctx.stake_mint, &ctx.user_stake_token_bag, &ctx.user_stake_token_bag_authority, stake_amount) {
        Ok(p) => p,
        Err(e) => return Err(e),
    };
    let beef_amount = beef_amount_for(stake_amount);
    let (vault, collateral) = match transfer(&ctx.program_beef_token_bag, &ctx.user_beef_token_bag, &ctx.program_beef_token_bag.address, beef_amount) {
        Ok(p) => p,
        Err(StakeError::InsufficientBalance) => return Err(StakeError::InsufficientVaultBalance),
        Err(e) => return Err(e),
    };
    ctx.stake_mint = m;
    ctx.user_stake_token_bag = receipt;
    ctx.program_beef_token_bag = vault;
    ctx.user_beef_token_bag = collateral;
    Ok(())
}

/// Creates the vault at the canonical derived address of the collateral
/// asset, holding that asset and signing for itself. Returns the vault's
/// verifier byte, with which it signs.
pub fn create_beef_token_bag(config: &Config, ctx: &mut CreateBeefTokenBag) -> (r: Result<u8, StakeError>)
    ensures
        match r {
            Ok(bump) => create_beef_token_bag_spec(*config, *old(ctx)) == Ok::<CreateBeefTokenBag, StakeError>(*final(ctx))
                && is_canonical(config.program_id@, config.beef_mint_address@, bump, old(ctx).program_beef_token_bag_address@),
            Err(e) => create_beef_token_bag_spec(*config, *old(ctx)) == Err::<CreateBeefTokenBag, StakeError>(e)
                && *final(ctx) == *old(ctx),
        },
{
    let bump = match find_derived_address(&config.program_id, &config.beef_mint_address) {
        Some((a, b)) => {
            proof {
                if exists|c: u8| is_canonical(config.program_id@, config.beef_mint_address@, c, ctx.program_beef_token_bag_address@) {
                    let c = choose|c: u8| is_canonical(config.program_id@, config.beef_mint_address@, c, ctx.program_beef_token_bag_address@);
                    crate::address::lemma_canonical_unique(config.program_id@, config.beef_mint_address@, c, ctx.program_beef_token_bag_address@, b, a@);
                }
            }
            if a != ctx.program_beef_token_bag_address {
                return Err(StakeError::AuthorityMismatch);
            }
            b
        },
        None => {
            return Err(StakeError::AuthorityMismatch);
        },
    };
    if ctx.program_beef_token_bag.is_some() {
        return Err(StakeError::AlreadyInitialized);
    }
    if ctx.beef_mint.address != config.beef_mint_address {
        return Err(StakeError::AssetMismatch);
    }
    let address = ctx.program_beef_token_bag_address;
    ctx.program_beef_token_bag = Some(TokenAccount { address, mint: ctx.beef_mint.address, owner: address, amount: 0 });
    Ok(bump)
}

} // verus!
