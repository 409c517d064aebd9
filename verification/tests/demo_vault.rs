use token_demo::address::Address;
use token_demo::demo_token::{DemoToken, TokenError, TokenStorage};
use token_demo::demo_vault::{DemoVault, InvokeError, VaultError, VaultStorage};
use token_demo::env::Env;

fn addr(n: u8) -> Address {
    Address::contract([n; 32])
}

struct Setup {
    vault: Env<VaultStorage>,
    token: Env<TokenStorage>,
    alice: Address,
    vault_id: Address,
}

fn setup() -> Setup {
    let admin = addr(1);
    let alice = addr(2);
    let token_id = addr(50);
    let vault_id = addr(60);
    let mut token = Env::new(token_id, vec![admin, alice], TokenStorage::new());
    let mut vault = Env::new(vault_id, vec![admin, alice], VaultStorage::new());

    DemoToken::initialize(&mut token, &admin).unwrap();
    DemoVault::initialize(&mut vault, &admin, &token_id).unwrap();

    DemoToken::mint(&mut token, &alice, 10_000).unwrap();
    DemoToken::approve(&mut token, &alice, &vault_id, 10_000).unwrap();

    Setup { vault, token, alice, vault_id }
}

#[test]
fn test_deposit_and_withdraw() {
    let mut s = setup();
    DemoVault::deposit(&mut s.vault, &mut s.token, &s.alice, 3000).unwrap();
    assert_eq!(DemoVault::get_deposit(&s.vault, &s.alice), 3000);
    assert_eq!(DemoVault::total_deposited(&s.vault), 3000);
    assert_eq!(DemoToken::balance(&s.token, &s.alice), 7000);

    DemoVault::withdraw(&mut s.vault, &mut s.token, &s.alice, 1000).unwrap();
    assert_eq!(DemoVault::get_deposit(&s.vault, &s.alice), 2000);
    assert_eq!(DemoToken::balance(&s.token, &s.alice), 8000);
}

#[test]
fn test_deposit_exceeds_allowance() {
    let mut s = setup();
    let result = DemoVault::deposit(&mut s.vault, &mut s.token, &s.alice, 20_000);
    assert!(result.is_err());
}

#[test]
fn test_withdraw_exceeds_deposit() {
    let mut s = setup();
    DemoVault::deposit(&mut s.vault, &mut s.token, &s.alice, 1000).unwrap();
    let result = DemoVault::withdraw(&mut s.vault, &mut s.token, &s.alice, 5000);
    assert!(result.is_err());
}

#[test]
fn vault_token_error_comes_through() {
    let mut s = setup();
    let result = DemoVault::deposit(&mut s.vault, &mut s.token, &s.alice, 20_000);
    assert_eq!(result, Err(VaultError::Token(TokenError::InsufficientAllowance)));
    assert_eq!(result.unwrap_err().code(), 8);
    assert_eq!(DemoVault::total_deposited(&s.vault), 0);
    assert_eq!(DemoToken::balance(&s.token, &s.alice), 10_000);
    assert_eq!(DemoToken::allowance(&s.token, &s.alice, &s.vault_id), 10_000);
}

#[test]
fn vault_own_errors() {
    let mut s = setup();
    assert_eq!(DemoVault::deposit(&mut s.vault, &mut s.token, &s.alice, 0), Err(VaultError::InvalidAmount));
    assert_eq!(DemoVault::withdraw(&mut s.vault, &mut s.token, &s.alice, -1), Err(VaultError::InvalidAmount));
    assert_eq!(DemoVault::withdraw(&mut s.vault, &mut s.token, &s.alice, 1), Err(VaultError::InsufficientDeposit));
    let admin = addr(1);
    assert_eq!(DemoVault::initialize(&mut s.vault, &admin, &admin), Err(VaultError::AlreadyInitialized));

    let mut fresh = Env::new(addr(61), vec![s.alice], VaultStorage::new());
    assert_eq!(DemoVault::deposit(&mut fresh, &mut s.token, &s.alice, 5), Err(VaultError::NotInitialized));
    assert_eq!(DemoVault::total_deposited(&fresh), 0);
}

#[test]
fn vault_error_codes() {
    assert_eq!(VaultError::Aborted.code(), 0);
    assert_eq!(VaultError::AlreadyInitialized.code(), 1);
    assert_eq!(VaultError::NotInitialized.code(), 2);
    assert_eq!(VaultError::InvalidAmount.code(), 3);
    assert_eq!(VaultError::InsufficientDeposit.code(), 4);
    assert_eq!(VaultError::Token(TokenError::AlreadyInitialized).code(), 5);
    assert_eq!(VaultError::Token(TokenError::InvalidAmount).code(), 9);
    assert_eq!(VaultError::UnknownError.code(), 2147483647);
    assert_eq!(VaultError::from_code(7), Some(VaultError::Token(TokenError::InsufficientBalance)));
    assert_eq!(VaultError::from_code(10), None);
    assert_eq!(VaultError::from_code(0), Some(VaultError::Aborted));
    assert_eq!(VaultError::from_code(2147483647), Some(VaultError::UnknownError));
}

#[test]
fn vault_call_errors() {
    assert_eq!(VaultError::from_call_error(InvokeError::Contract(3)), VaultError::Token(TokenError::InsufficientBalance));
    assert_eq!(VaultError::from_call_error(InvokeError::Contract(42)), VaultError::UnknownError);
    assert_eq!(VaultError::from_call_error(InvokeError::Abort), VaultError::Aborted);
}

#[test]
fn vault_in_two_steps() {
    let mut s = setup();
    let call = DemoVault::begin_deposit(&s.vault, &s.alice, 700).unwrap();
    assert!(call.token.same(&addr(50)));
    assert!(call.spender.same(&s.vault_id));
    assert!(call.from.same(&s.alice));
    assert!(call.to.same(&s.vault_id));
    assert_eq!(call.amount, 700);

    let failed = DemoVault::settle_deposit(&mut s.vault, &s.alice, 700, Err(InvokeError::Abort));
    assert_eq!(failed, Err(VaultError::Aborted));
    assert_eq!(DemoVault::get_deposit(&s.vault, &s.alice), 0);

    DemoVault::settle_deposit(&mut s.vault, &s.alice, 700, Ok(())).unwrap();
    assert_eq!(DemoVault::get_deposit(&s.vault, &s.alice), 700);
    assert_eq!(DemoVault::total_deposited(&s.vault), 700);

    let pay = DemoVault::begin_withdraw(&s.vault, &s.alice, 200).unwrap();
    assert!(pay.from.same(&s.vault_id));
    assert!(pay.to.same(&s.alice));
    assert_eq!(pay.amount, 200);
    DemoVault::settle_withdraw(&mut s.vault, &s.alice, 200);
    assert_eq!(DemoVault::get_deposit(&s.vault, &s.alice), 500);
    assert_eq!(DemoVault::total_deposited(&s.vault), 500);
}

#[test]
fn vault_withdraw_undoes_deposit() {
    let mut s = setup();
    DemoVault::deposit(&mut s.vault, &mut s.token, &s.alice, 2500).unwrap();
    assert_eq!(DemoToken::balance(&s.token, &s.vault_id), 2500);
    DemoVault::withdraw(&mut s.vault, &mut s.token, &s.alice, 2500).unwrap();
    assert_eq!(DemoVault::get_deposit(&s.vault, &s.alice), 0);
    assert_eq!(DemoVault::total_deposited(&s.vault), 0);
    assert_eq!(DemoToken::balance(&s.token, &s.alice), 10_000);
    assert_eq!(DemoToken::balance(&s.token, &s.vault_id), 0);
    assert_eq!(DemoToken::allowance(&s.token, &s.alice, &s.vault_id), 7_500);
    assert_eq!(DemoToken::total_supply(&s.token), 10_000);
}

#[test]
fn vault_balance_covers_deposits() {
    let mut s = setup();
    let bob = addr(3);
    DemoToken::mint(&mut s.token, &bob, 500).unwrap();
    s.token.authorized.push(bob);
    s.vault.authorized.push(bob);
    DemoToken::approve(&mut s.token, &bob, &s.vault_id, 500).unwrap();
    DemoVault::deposit(&mut s.vault, &mut s.token, &s.alice, 4000).unwrap();
    DemoVault::deposit(&mut s.vault, &mut s.token, &bob, 300).unwrap();
    DemoVault::withdraw(&mut s.vault, &mut s.token, &s.alice, 1500).unwrap();
    assert_eq!(DemoVault::total_deposited(&s.vault), 2800);
    assert_eq!(DemoVault::get_deposit(&s.vault, &s.alice) + DemoVault::get_deposit(&s.vault, &bob), 2800);
    assert_eq!(DemoToken::balance(&s.token, &s.vault_id), 2800);
    assert_eq!(DemoToken::allowance(&s.token, &bob, &s.vault_id), 200);
}

#[test]
fn vault_refused_deposit_after_deposit_reports_token_error() {
    let mut s = setup();
    DemoVault::deposit(&mut s.vault, &mut s.token, &s.alice, 1).unwrap();
    let result = DemoVault::deposit(&mut s.vault, &mut s.token, &s.alice, i128::MAX);
    assert_eq!(result, Err(VaultError::Token(TokenError::InsufficientAllowance)));
    assert_eq!(result.unwrap_err().code(), 8);
    assert_eq!(DemoVault::get_deposit(&s.vault, &s.alice), 1);
    assert_eq!(DemoVault::total_deposited(&s.vault), 1);
    assert_eq!(DemoToken::balance(&s.token, &s.alice), 9_999);
}

#[test]
fn vault_deposit_aborts_when_token_would_overflow() {
    let mut s = setup();
    s.token.storage.balances.set(s.vault_id, i128::MAX);
    let result = DemoVault::deposit(&mut s.vault, &mut s.token, &s.alice, 3000);
    assert_eq!(result, Err(VaultError::Aborted));
    assert_eq!(DemoVault::get_deposit(&s.vault, &s.alice), 0);
    assert_eq!(DemoToken::balance(&s.token, &s.alice), 10_000);
    assert_eq!(DemoToken::allowance(&s.token, &s.alice, &s.vault_id), 10_000);
}
