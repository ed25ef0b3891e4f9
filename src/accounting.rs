use vstd::prelude::*;

use crate::address::is_canonical;
use crate::error::StakeError;
use crate::staking::{
    create_beef_token_bag_spec, distinct3, stake_spec, unstake_spec, Config, CreateBeefTokenBag, Stake, UnStake,
};
use crate::token::{with_amount, with_supply};

verus! {

/// `bump` is the canonical verifier byte of `(program_id, seed)`.
pub open spec fn is_canonical_bump(program_id: Seq<u8>, seed: Seq<u8>, bump: u8) -> bool {
    exists|a: Seq<u8>| is_canonical(program_id, seed, bump, a)
}

/// A deposit of `a` on `ctx` meets every check: derived addresses, assets,
/// distinct accounts, signers, the user's collateral and room in every
/// balance that grows.
pub open spec fn stake_accepted(config: Config, ctx: Stake, mint_bump: u8, bag_bump: u8, a: u64) -> bool {
    &&& is_canonical(config.program_id@, config.stake_mint_address@, mint_bump, ctx.stake_mint_authority@)
    &&& is_canonical(config.program_id@, config.beef_mint_address@, bag_bump, ctx.program_beef_token_bag.address@)
    &&& ctx.stake_mint.address@ == config.stake_mint_address@
    &&& ctx.beef_mint.address@ == config.beef_mint_address@
    &&& distinct3(ctx.user_stake_token_bag.address, ctx.user_beef_token_bag.address, ctx.program_beef_token_bag.address)
    &&& ctx.user_stake_token_bag.mint@ == ctx.stake_mint.address@
    &&& ctx.stake_mint.mint_authority matches Some(m) && m@ == ctx.stake_mint_authority@
    &&& ctx.user_beef_token_bag.mint@ == ctx.program_beef_token_bag.mint@
    &&& ctx.user_beef_token_bag_authority@ == ctx.user_beef_token_bag.owner@
    &&& a <= ctx.user_beef_token_bag.amount
    &&& ctx.stake_mint.supply + a <= u64::MAX
    &&& ctx.user_stake_token_bag.amount + a <= u64::MAX
    &&& ctx.program_beef_token_bag.amount + a <= u64::MAX
}

/// A withdrawal of `s` on `ctx` meets every check: the vault's derived
/// address, assets, distinct accounts, signers, the user's receipt tokens
/// and the vault's collateral.
pub open spec fn unstake_accepted(config: Config, ctx: UnStake, bag_bump: u8, s: u64) -> bool {
    &&& is_canonical(config.program_id@, config.beef_mint_address@, bag_bump, ctx.program_beef_token_bag.address@)
    &&& ctx.stake_mint.address@ == config.stake_mint_address@
    &&& ctx.beef_mint.address@ == config.beef_mint_address@
    &&& distinct3(ctx.user_stake_token_bag.address, ctx.user_beef_token_bag.address, ctx.program_beef_token_bag.address)
    &&& ctx.user_stake_token_bag.mint@ == ctx.stake_mint.address@
    &&& ctx.user_stake_token_bag_authority@ == ctx.user_stake_token_bag.owner@
    &&& ctx.program_beef_token_bag.mint@ == ctx.user_beef_token_bag.mint@
    &&& ctx.program_beef_token_bag.owner@ == ctx.program_beef_token_bag.address@
    &&& s <= ctx.user_stake_token_bag.amount
    &&& s <= ctx.stake_mint.supply
    &&& s <= ctx.program_beef_token_bag.amount
    &&& ctx.user_beef_token_bag.amount + s <= u64::MAX
}

/// A deposit of `a` succeeds exactly when every check passes, and then the
/// user's receipt balance and the receipt supply grow by `a`, the vault
/// grows by `a`, the user's collateral shrinks by `a`, and nothing else
/// changes.
pub proof fn lemma_stake_moves_exactly(config: Config, ctx: Stake, mint_bump: u8, bag_bump: u8, a: u64)
    ensures
        stake_spec(config, ctx, mint_bump, bag_bump, a) is Ok <==> stake_accepted(config, ctx, mint_bump, bag_bump, a),
        stake_spec(config, ctx, mint_bump, bag_bump, a) is Ok ==> stake_spec(config, ctx, mint_bump, bag_bump, a) == Ok::<Stake, StakeError>(Stake {
            stake_mint: with_supply(ctx.stake_mint, ctx.stake_mint.supply + a),
            user_stake_token_bag: with_amount(ctx.user_stake_token_bag, ctx.user_stake_token_bag.amount + a),
            user_beef_token_bag: with_amount(ctx.user_beef_token_bag, ctx.user_beef_token_bag.amount - a),
            program_beef_token_bag: with_amount(ctx.program_beef_token_bag, ctx.program_beef_token_bag.amount + a),
            ..ctx
        }),
{
}

/// A withdrawal of `s` succeeds exactly when every check passes, and then the
/// user's receipt balance and the receipt supply shrink by `s`, the vault
/// shrinks by `s`, the user's collateral grows by `s`, and nothing else
/// changes.
pub proof fn lemma_unstake_moves_exactly(config: Config, ctx: UnStake, bag_bump: u8, s: u64)
    ensures
        unstake_spec(config, ctx, bag_bump, s) is Ok <==> unstake_accepted(config, ctx, bag_bump, s),
        unstake_spec(config, ctx, bag_bump, s) is Ok ==> unstake_spec(config, ctx, bag_bump, s) == Ok::<UnStake, StakeError>(UnStake {
            stake_mint: with_supply(ctx.stake_mint, ctx.stake_mint.supply - s),
            user_stake_token_bag: with_amount(ctx.user_stake_token_bag, ctx.user_stake_token_bag.amount - s),
            program_beef_token_bag: with_amount(ctx.program_beef_token_bag, ctx.program_beef_token_bag.amount - s),
            user_beef_token_bag: with_amount(ctx.user_beef_token_bag, ctx.user_beef_token_bag.amount + s),
            ..ctx
        }),
{
}

/// What any ledger state shows of the accounts of a deposit: no account holds
/// more than its asset's supply, and the user's collateral and the vault,
/// two accounts of one asset, hold no more than its supply together.
pub open spec fn stake_within_supply(ctx: Stake) -> bool {
    &&& ctx.user_stake_token_bag.amount <= ctx.stake_mint.supply
    &&& ctx.user_beef_token_bag.amount + ctx.program_beef_token_bag.amount <= ctx.beef_mint.supply
}

/// What any ledger state shows of the accounts of a withdrawal, as for a
/// deposit.
pub open spec fn unstake_within_supply(ctx: UnStake) -> bool {
    &&& ctx.user_stake_token_bag.amount <= ctx.stake_mint.supply
    &&& ctx.user_beef_token_bag.amount + ctx.program_beef_token_bag.amount <= ctx.beef_mint.supply
}

/// A valid deposit of `a` succeeds: with canonical verifier bytes, the
/// configured assets in their places, the derived authority issuing receipt
/// tokens, the user signing for their collateral, at least `a` of it, and
/// room in the receipt supply, the user's receipt balance, the receipt supply
/// and the vault grow by exactly `a`, the user's collateral shrinks by
/// exactly `a`, and nothing else changes.
pub proof fn lemma_valid_deposit(config: Config, ctx: Stake, mint_bump: u8, bag_bump: u8, a: u64)
    requires
        is_canonical(config.program_id@, config.stake_mint_address@, mint_bump, ctx.stake_mint_authority@),
        is_canonical(config.program_id@, config.beef_mint_address@, bag_bump, ctx.program_beef_token_bag.address@),
        ctx.stake_mint.address@ == config.stake_mint_address@,
        ctx.beef_mint.address@ == config.beef_mint_address@,
        distinct3(ctx.user_stake_token_bag.address, ctx.user_beef_token_bag.address, ctx.program_beef_token_bag.address),
        ctx.stake_mint.mint_authority matches Some(m) && m@ == ctx.stake_mint_authority@,
        ctx.user_stake_token_bag.mint@ == config.stake_mint_address@,
        ctx.user_beef_token_bag.mint@ == config.beef_mint_address@,
        ctx.program_beef_token_bag.mint@ == config.beef_mint_address@,
        ctx.user_beef_token_bag_authority@ == ctx.user_beef_token_bag.owner@,
        a <= ctx.user_beef_token_bag.amount,
        ctx.stake_mint.supply + a <= u64::MAX,
        stake_within_supply(ctx),
    ensures
        stake_spec(config, ctx, mint_bump, bag_bump, a) == Ok::<Stake, StakeError>(Stake {
            stake_mint: with_supply(ctx.stake_mint, ctx.stake_mint.supply + a),
            user_stake_token_bag: with_amount(ctx.user_stake_token_bag, ctx.user_stake_token_bag.amount + a),
            user_beef_token_bag: with_amount(ctx.user_beef_token_bag, ctx.user_beef_token_bag.amount - a),
            program_beef_token_bag: with_amount(ctx.program_beef_token_bag, ctx.program_beef_token_bag.amount + a),
            ..ctx
        }),
{
    lemma_stake_moves_exactly(config, ctx, mint_bump, bag_bump, a);
    assert(stake_accepted(config, ctx, mint_bump, bag_bump, a));
}

/// A valid withdrawal of `s` succeeds: with the canonical verifier byte, the
/// configured assets in their places, a vault that signs for itself, the
/// user signing for at least `s` receipt tokens and the vault holding at
/// least `s`, the receipt supply, the user's receipt balance and the vault
/// shrink by exactly `s`, the user's collateral grows by exactly `s`, and
/// nothing else changes.
pub proof fn lemma_valid_withdrawal(config: Config, ctx: UnStake, bag_bump: u8, s: u64)
    requires
        is_canonical(config.program_id@, config.beef_mint_address@, bag_bump, ctx.program_beef_token_bag.address@),
        ctx.stake_mint.address@ == config.stake_mint_address@,
        ctx.beef_mint.address@ == config.beef_mint_address@,
        distinct3(ctx.user_stake_token_bag.address, ctx.user_beef_token_bag.address, ctx.program_beef_token_bag.address),
        ctx.user_stake_token_bag.mint@ == config.stake_mint_address@,
        ctx.user_beef_token_bag.mint@ == config.beef_mint_address@,
        ctx.program_beef_token_bag.mint@ == config.beef_mint_address@,
        ctx.program_beef_token_bag.owner@ == ctx.program_beef_token_bag.address@,
        ctx.user_stake_token_bag_authority@ == ctx.user_stake_token_bag.owner@,
        s <= ctx.user_stake_token_bag.amount,
        s <= ctx.program_beef_token_bag.amount,
        unstake_within_supply(ctx),
    ensures
        unstake_spec(config, ctx, bag_bump, s) == Ok::<UnStake, StakeError>(UnStake {
            stake_mint: with_supply(ctx.stake_mint, ctx.stake_mint.supply - s),
            user_stake_token_bag: with_amount(ctx.user_stake_token_bag, ctx.user_stake_token_bag.amount - s),
            program_beef_token_bag: with_amount(ctx.program_beef_token_bag, ctx.program_beef_token_bag.amount - s),
            user_beef_token_bag: with_amount(ctx.user_beef_token_bag, ctx.user_beef_token_bag.amount + s),
            ..ctx
        }),
{
    lemma_unstake_moves_exactly(config, ctx, bag_bump, s);
    assert(unstake_accepted(config, ctx, bag_bump, s));
}

/// The accounts of a withdrawal by the user who made the deposit `ctx`.
pub open spec fn withdrawal_accounts(ctx: Stake) -> UnStake {
    UnStake {
        stake_mint: ctx.stake_mint,
        user_stake_token_bag: ctx.user_stake_token_bag,
        user_stake_token_bag_authority: ctx.user_beef_token_bag_authority,
        program_beef_token_bag: ctx.program_beef_token_bag,
        user_beef_token_bag: ctx.user_beef_token_bag,
        beef_mint: ctx.beef_mint,
    }
}

/// Depositing `a` and then withdrawing `a` at once gives every account back
/// its balance from before the deposit, when the user signs for both of
/// their accounts and the vault signs for itself.
pub proof fn lemma_round_trip(config: Config, ctx: Stake, mint_bump: u8, bag_bump: u8, a: u64, after: Stake)
    requires
        stake_spec(config, ctx, mint_bump, bag_bump, a) == Ok::<Stake, StakeError>(after),
        ctx.user_stake_token_bag.owner@ == ctx.user_beef_token_bag_authority@,
        ctx.program_beef_token_bag.owner@ == ctx.program_beef_token_bag.address@,
    ensures
        unstake_spec(config, withdrawal_accounts(after), bag_bump, a) == Ok::<UnStake, StakeError>(withdrawal_accounts(ctx)),
{
    lemma_stake_moves_exactly(config, ctx, mint_bump, bag_bump, a);
    lemma_unstake_moves_exactly(config, withdrawal_accounts(after), bag_bump, a);
    assert(unstake_accepted(config, withdrawal_accounts(after), bag_bump, a));
}

/// A withdrawal on accounts within supply that passes every check up to the
/// release, and asks for more collateral than the vault holds, fails with
/// `InsufficientVaultBalance`: the burn before it does not take effect.
pub proof fn lemma_vault_shortfall(config: Config, ctx: UnStake, bag_bump: u8, s: u64)
    requires
        is_canonical(config.program_id@, config.beef_mint_address@, bag_bump, ctx.program_beef_token_bag.address@),
        ctx.stake_mint.address@ == config.stake_mint_address@,
        ctx.beef_mint.address@ == config.beef_mint_address@,
        distinct3(ctx.user_stake_token_bag.address, ctx.user_beef_token_bag.address, ctx.program_beef_token_bag.address),
        ctx.user_stake_token_bag.mint@ == ctx.stake_mint.address@,
        ctx.user_stake_token_bag_authority@ == ctx.user_stake_token_bag.owner@,
        ctx.program_beef_token_bag.mint@ == ctx.user_beef_token_bag.mint@,
        ctx.program_beef_token_bag.owner@ == ctx.program_beef_token_bag.address@,
        s <= ctx.user_stake_token_bag.amount,
        s > ctx.program_beef_token_bag.amount,
        unstake_within_supply(ctx),
    ensures
        unstake_spec(config, ctx, bag_bump, s) == Err::<UnStake, StakeError>(StakeError::InsufficientVaultBalance),
{
}

/// A deposit with a verifier byte that is not the canonical one, for either
/// derived address, fails with `AuthorityMismatch`.
pub proof fn lemma_stake_wrong_bump(config: Config, ctx: Stake, mint_bump: u8, bag_bump: u8, a: u64)
    requires
        !is_canonical_bump(config.program_id@, config.stake_mint_address@, mint_bump)
            || !is_canonical_bump(config.program_id@, config.beef_mint_address@, bag_bump),
    ensures
        stake_spec(config, ctx, mint_bump, bag_bump, a) == Err::<Stake, StakeError>(StakeError::AuthorityMismatch),
{
}

/// A withdrawal with a verifier byte for the vault that is not the canonical
/// one fails with `AuthorityMismatch`.
pub proof fn lemma_unstake_wrong_bump(config: Config, ctx: UnStake, bag_bump: u8, s: u64)
    requires
        !is_canonical_bump(config.program_id@, config.beef_mint_address@, bag_bump),
    ensures
        unstake_spec(config, ctx, bag_bump, s) == Err::<UnStake, StakeError>(StakeError::AuthorityMismatch),
{
}

/// Creating the vault where it exists fails with `AlreadyInitialized`; in
/// particular a second creation after a successful one does.
pub proof fn lemma_create_once(config: Config, ctx: CreateBeefTokenBag, after: CreateBeefTokenBag)
    requires
        create_beef_token_bag_spec(config, ctx) == Ok::<CreateBeefTokenBag, StakeError>(after),
    ensures
        after.program_beef_token_bag is Some,
        create_beef_token_bag_spec(config, after) == Err::<CreateBeefTokenBag, StakeError>(StakeError::AlreadyInitialized),
{
}

} // verus!
