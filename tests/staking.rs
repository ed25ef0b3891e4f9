use anchor_staking::address::{derive_address, find_derived_address, parse_address, verify_derived_address, Address};
use anchor_staking::error::StakeError;
use anchor_staking::staking::{
    beef_amount_for, create_beef_token_bag, stake, stake_amount_for, unstake, Config, CreateBeefTokenBag, Stake, UnStake,
};
use anchor_staking::token::{burn, mint_to, transfer, Mint, TokenAccount};

fn addr(b: u8) -> Address {
    Address { bytes: [b; 32] }
}

fn config() -> Config {
    Config { program_id: addr(7), stake_mint_address: addr(1), beef_mint_address: addr(2) }
}

fn user() -> Address {
    addr(3)
}

fn vault_and_bump() -> (Address, u8) {
    let c = config();
    find_derived_address(&c.program_id, &c.beef_mint_address).unwrap()
}

fn authority_and_bump() -> (Address, u8) {
    let c = config();
    find_derived_address(&c.program_id, &c.stake_mint_address).unwrap()
}

fn deposit_accounts(user_beef: u64, vault_beef: u64, user_stake: u64) -> Stake {
    let (vault, _) = vault_and_bump();
    let (authority, _) = authority_and_bump();
    Stake {
        stake_mint: Mint { address: addr(1), mint_authority: Some(authority), supply: user_stake },
        stake_mint_authority: authority,
        user_stake_token_bag: TokenAccount { address: addr(4), mint: addr(1), owner: user(), amount: user_stake },
        user_beef_token_bag: TokenAccount { address: addr(5), mint: addr(2), owner: user(), amount: user_beef },
        user_beef_token_bag_authority: user(),
        program_beef_token_bag: TokenAccount { address: vault, mint: addr(2), owner: vault, amount: vault_beef },
        beef_mint: Mint { address: addr(2), mint_authority: None, supply: 1_000_000 },
    }
}

fn withdrawal_accounts(s: &Stake) -> UnStake {
    UnStake {
        stake_mint: s.stake_mint,
        user_stake_token_bag: s.user_stake_token_bag,
        user_stake_token_bag_authority: s.user_beef_token_bag_authority,
        program_beef_token_bag: s.program_beef_token_bag,
        user_beef_token_bag: s.user_beef_token_bag,
        beef_mint: s.beef_mint,
    }
}

fn balances_of_stake(s: &Stake) -> (u64, u64, u64, u64) {
    (s.user_beef_token_bag.amount, s.program_beef_token_bag.amount, s.user_stake_token_bag.amount, s.stake_mint.supply)
}

fn balances_of_unstake(s: &UnStake) -> (u64, u64, u64, u64) {
    (s.user_beef_token_bag.amount, s.program_beef_token_bag.amount, s.user_stake_token_bag.amount, s.stake_mint.supply)
}

#[test]
fn deposit_then_partial_withdrawal_scenario() {
    let c = config();
    let (_, vault_bump) = vault_and_bump();
    let (_, auth_bump) = authority_and_bump();
    let mut s = deposit_accounts(1000, 0, 0);
    assert_eq!(stake(&c, &mut s, auth_bump, vault_bump, 400), Ok(()));
    assert_eq!(s.user_beef_token_bag.amount, 600);
    assert_eq!(s.program_beef_token_bag.amount, 400);
    assert_eq!(s.user_stake_token_bag.amount, 400);
    let mut u = withdrawal_accounts(&s);
    assert_eq!(unstake(&c, &mut u, vault_bump, 150), Ok(()));
    assert_eq!(u.user_beef_token_bag.amount, 750);
    assert_eq!(u.program_beef_token_bag.amount, 250);
    assert_eq!(u.user_stake_token_bag.amount, 250);
}

#[test]
fn deposit_moves_exactly_the_amount() {
    let c = config();
    let (_, vault_bump) = vault_and_bump();
    let (_, auth_bump) = authority_and_bump();
    let mut s = deposit_accounts(500, 20, 30);
    let beef_supply = s.beef_mint.supply;
    assert_eq!(stake(&c, &mut s, auth_bump, vault_bump, 123), Ok(()));
    assert_eq!(balances_of_stake(&s), (377, 143, 153, 153));
    assert_eq!(s.beef_mint.supply, beef_supply);
}

#[test]
fn deposit_of_zero_changes_nothing() {
    let c = config();
    let (_, vault_bump) = vault_and_bump();
    let (_, auth_bump) = authority_and_bump();
    let mut s = deposit_accounts(500, 20, 30);
    assert_eq!(stake(&c, &mut s, auth_bump, vault_bump, 0), Ok(()));
    assert_eq!(balances_of_stake(&s), (500, 20, 30, 30));
}

#[test]
fn withdrawal_moves_exactly_the_amount() {
    let c = config();
    let (_, vault_bump) = vault_and_bump();
    let mut u = withdrawal_accounts(&deposit_accounts(10, 80, 70));
    assert_eq!(unstake(&c, &mut u, vault_bump, 70), Ok(()));
    assert_eq!(balances_of_unstake(&u), (80, 10, 0, 0));
}

#[test]
fn deposit_then_withdrawal_restores_balances() {
    let c = config();
    let (_, vault_bump) = vault_and_bump();
    let (_, auth_bump) = authority_and_bump();
    let before = deposit_accounts(900, 35, 12);
    let mut s = before;
    assert_eq!(stake(&c, &mut s, auth_bump, vault_bump, 321), Ok(()));
    let mut u = withdrawal_accounts(&s);
    assert_eq!(unstake(&c, &mut u, vault_bump, 321), Ok(()));
    assert_eq!(balances_of_unstake(&u), balances_of_stake(&before));
}

#[test]
fn withdrawal_beyond_vault_fails_and_rolls_back_the_burn() {
    let c = config();
    let (_, vault_bump) = vault_and_bump();
    let mut u = withdrawal_accounts(&deposit_accounts(0, 50, 100));
    let before = balances_of_unstake(&u);
    assert_eq!(unstake(&c, &mut u, vault_bump, 60), Err(StakeError::InsufficientVaultBalance));
    assert_eq!(balances_of_unstake(&u), before);
}

#[test]
fn withdrawal_beyond_receipt_balance_fails() {
    let c = config();
    let (_, vault_bump) = vault_and_bump();
    let mut u = withdrawal_accounts(&deposit_accounts(0, 500, 100));
    assert_eq!(unstake(&c, &mut u, vault_bump, 101), Err(StakeError::InsufficientBalance));
    assert_eq!(balances_of_unstake(&u), (0, 500, 100, 100));
}

#[test]
fn deposit_beyond_collateral_fails_and_rolls_back_the_mint() {
    let c = config();
    let (_, vault_bump) = vault_and_bump();
    let (_, auth_bump) = authority_and_bump();
    let mut s = deposit_accounts(10, 0, 0);
    assert_eq!(stake(&c, &mut s, auth_bump, vault_bump, 11), Err(StakeError::InsufficientBalance));
    assert_eq!(balances_of_stake(&s), (10, 0, 0, 0));
}

#[test]
fn wrong_verifier_byte_on_deposit_fails() {
    let c = config();
    let (_, vault_bump) = vault_and_bump();
    let (_, auth_bump) = authority_and_bump();
    let mut s = deposit_accounts(1000, 0, 0);
    assert_eq!(stake(&c, &mut s, auth_bump.wrapping_sub(1), vault_bump, 5), Err(StakeError::AuthorityMismatch));
    assert_eq!(stake(&c, &mut s, auth_bump, vault_bump.wrapping_sub(1), 5), Err(StakeError::AuthorityMismatch));
    assert_eq!(balances_of_stake(&s), (1000, 0, 0, 0));
}

#[test]
fn wrong_verifier_byte_on_withdrawal_fails() {
    let c = config();
    let (_, vault_bump) = vault_and_bump();
    let mut u = withdrawal_accounts(&deposit_accounts(0, 50, 50));
    assert_eq!(unstake(&c, &mut u, vault_bump.wrapping_add(1), 5), Err(StakeError::AuthorityMismatch));
    assert_eq!(balances_of_unstake(&u), (0, 50, 50, 50));
}

#[test]
fn substituted_vault_fails() {
    let c = config();
    let (_, vault_bump) = vault_and_bump();
    let (_, auth_bump) = authority_and_bump();
    let mut s = deposit_accounts(1000, 0, 0);
    s.program_beef_token_bag.address = addr(8);
    assert_eq!(stake(&c, &mut s, auth_bump, vault_bump, 5), Err(StakeError::AuthorityMismatch));
}

#[test]
fn wrong_receipt_mint_fails() {
    let c = config();
    let (_, vault_bump) = vault_and_bump();
    let (_, auth_bump) = authority_and_bump();
    let mut s = deposit_accounts(1000, 0, 0);
    s.stake_mint.address = addr(8);
    assert_eq!(stake(&c, &mut s, auth_bump, vault_bump, 5), Err(StakeError::AssetMismatch));
}

#[test]
fn wrong_user_signer_fails() {
    let c = config();
    let (_, vault_bump) = vault_and_bump();
    let (_, auth_bump) = authority_and_bump();
    let mut s = deposit_accounts(1000, 0, 0);
    s.user_beef_token_bag_authority = addr(8);
    assert_eq!(stake(&c, &mut s, auth_bump, vault_bump, 5), Err(StakeError::OwnerMismatch));
    assert_eq!(balances_of_stake(&s), (1000, 0, 0, 0));
}

#[test]
fn same_account_twice_fails() {
    let c = config();
    let (_, vault_bump) = vault_and_bump();
    let (_, auth_bump) = authority_and_bump();
    let mut s = deposit_accounts(1000, 0, 0);
    s.user_stake_token_bag.address = s.user_beef_token_bag.address;
    assert_eq!(stake(&c, &mut s, auth_bump, vault_bump, 5), Err(StakeError::DuplicateAccount));
}

#[test]
fn deposit_past_largest_supply_fails() {
    let c = config();
    let (_, vault_bump) = vault_and_bump();
    let (_, auth_bump) = authority_and_bump();
    let mut s = deposit_accounts(1000, 0, u64::MAX - 2);
    assert_eq!(stake(&c, &mut s, auth_bump, vault_bump, 3), Err(StakeError::Overflow));
    let mut t = deposit_accounts(1000, 0, u64::MAX - 3);
    assert_eq!(stake(&c, &mut t, auth_bump, vault_bump, 3), Ok(()));
    assert_eq!(t.stake_mint.supply, u64::MAX);
}

#[test]
fn creating_the_vault_twice_fails() {
    let c = config();
    let (vault, bump) = vault_and_bump();
    let mut b = CreateBeefTokenBag {
        program_beef_token_bag_address: vault,
        program_beef_token_bag: None,
        beef_mint: Mint { address: addr(2), mint_authority: None, supply: 10 },
    };
    assert_eq!(create_beef_token_bag(&c, &mut b), Ok(bump));
    let created = b.program_beef_token_bag.unwrap();
    assert!(created.address == vault && created.owner == vault && created.mint == addr(2));
    assert_eq!(created.amount, 0);
    assert_eq!(create_beef_token_bag(&c, &mut b), Err(StakeError::AlreadyInitialized));
    let again = b.program_beef_token_bag.unwrap();
    assert!(again.owner == vault);
    assert_eq!(again.amount, 0);
}

#[test]
fn creating_the_vault_elsewhere_fails() {
    let c = config();
    let mut b = CreateBeefTokenBag {
        program_beef_token_bag_address: addr(8),
        program_beef_token_bag: None,
        beef_mint: Mint { address: addr(2), mint_authority: None, supply: 10 },
    };
    assert_eq!(create_beef_token_bag(&c, &mut b), Err(StakeError::AuthorityMismatch));
    assert!(b.program_beef_token_bag.is_none());
}

#[test]
fn existing_account_elsewhere_is_refused_as_not_derived() {
    let c = config();
    let elsewhere = addr(8);
    let existing = TokenAccount { address: elsewhere, mint: addr(2), owner: elsewhere, amount: 77 };
    let mut b = CreateBeefTokenBag {
        program_beef_token_bag_address: elsewhere,
        program_beef_token_bag: Some(existing),
        beef_mint: Mint { address: addr(2), mint_authority: None, supply: 100 },
    };
    assert_eq!(create_beef_token_bag(&c, &mut b), Err(StakeError::AuthorityMismatch));
    assert_eq!(b.program_beef_token_bag.unwrap().amount, 77);
}

#[test]
fn creating_the_vault_for_another_asset_fails() {
    let c = config();
    let (vault, _) = vault_and_bump();
    let mut b = CreateBeefTokenBag {
        program_beef_token_bag_address: vault,
        program_beef_token_bag: None,
        beef_mint: Mint { address: addr(1), mint_authority: None, supply: 10 },
    };
    assert_eq!(create_beef_token_bag(&c, &mut b), Err(StakeError::AssetMismatch));
}

#[test]
fn derived_address_is_recomputed() {
    let c = config();
    let (vault, bump) = vault_and_bump();
    assert!(vault != c.beef_mint_address && vault != c.program_id);
    assert!(derive_address(&c.program_id, &c.beef_mint_address, bump) == Some(vault));
    assert!(verify_derived_address(&c.program_id, &c.beef_mint_address, bump, &vault));
    assert!(!verify_derived_address(&c.program_id, &c.beef_mint_address, bump, &addr(8)));
    assert!(!verify_derived_address(&c.program_id, &c.stake_mint_address, bump, &vault));
    for b in (bump as u16 + 1)..256 {
        assert!(derive_address(&c.program_id, &c.beef_mint_address, b as u8).is_none());
    }
}

#[test]
fn base58_addresses_are_read() {
    assert!(parse_address("11111111111111111111111111111111") == Some(addr(0)));
    let a = parse_address("342rhowqN3Up7uhm559bZMLs2NkaUGb3kjPG7SmnBoLV").unwrap();
    assert!(a != addr(0));
    assert!(parse_address("not base58 0OIl").is_none());
    let c = Config::from_base58(
        "71RRavF9hhoqRePEMEXYJPJoYeG6HSp1YqorBJMY7cLw",
        "342rhowqN3Up7uhm559bZMLs2NkaUGb3kjPG7SmnBoLV",
        "3xmco6A5tPCXPUtRmVPNTbEtCfj3hmizqPmTF1Xz1xif",
    )
    .unwrap();
    assert!(c.stake_mint_address == a);
    assert!(c.beef_mint_address != a);
    assert!(Config::from_base58("11111111111111111111111111111111", "bad!", "11111111111111111111111111111111").is_none());
}

#[test]
fn primitives_apply_exact_changes() {
    let m = Mint { address: addr(1), mint_authority: Some(addr(6)), supply: 10 };
    let a = TokenAccount { address: addr(4), mint: addr(1), owner: user(), amount: 4 };
    let b = TokenAccount { address: addr(5), mint: addr(1), owner: user(), amount: 1 };
    let (m2, a2) = mint_to(&m, &a, &addr(6), 5).unwrap();
    assert_eq!((m2.supply, a2.amount), (15, 9));
    assert!(matches!(mint_to(&m, &a, &user(), 5), Err(StakeError::OwnerMismatch)));
    let closed = Mint { mint_authority: None, ..m };
    assert!(matches!(mint_to(&closed, &a, &addr(6), 5), Err(StakeError::OwnerMismatch)));
    let (a3, b3) = transfer(&a, &b, &user(), 3).unwrap();
    assert_eq!((a3.amount, b3.amount), (1, 4));
    assert!(matches!(transfer(&a, &b, &user(), 5), Err(StakeError::InsufficientBalance)));
    let (m4, a4) = burn(&m, &a, &user(), 4).unwrap();
    assert_eq!((m4.supply, a4.amount), (6, 0));
    let other = TokenAccount { mint: addr(2), ..b };
    assert!(matches!(transfer(&a, &other, &user(), 1), Err(StakeError::AssetMismatch)));
}

#[test]
fn exchange_is_one_to_one() {
    assert_eq!(stake_amount_for(400), 400);
    assert_eq!(beef_amount_for(150), 150);
    assert_eq!(stake_amount_for(u64::MAX), u64::MAX);
}
