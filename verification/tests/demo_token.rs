use token_demo::address::Address;
use token_demo::demo_token::{DemoToken, TokenError, TokenStorage};
use token_demo::env::Env;
use token_demo::storage_map::StorageMap;

fn addr(n: u8) -> Address {
    Address::contract([n; 32])
}

fn setup() -> (Env<TokenStorage>, Address, Address, Address) {
    let contract_id = addr(100);
    let admin = addr(1);
    let alice = addr(2);
    let bob = addr(3);
    let mut env = Env::new(contract_id, vec![admin, alice, bob], TokenStorage::new());
    DemoToken::initialize(&mut env, &admin).unwrap();
    DemoToken::mint(&mut env, &alice, 1000).unwrap();
    (env, admin, alice, bob)
}

#[test]
fn test_test_mint_and_balance() {
    let (env, _, alice, _) = setup();
    assert_eq!(DemoToken::balance(&env, &alice), 1000);
    assert_eq!(DemoToken::total_supply(&env), 1000);
}

#[test]
fn test_test_transfer() {
    let (mut env, _, alice, bob) = setup();
    DemoToken::transfer(&mut env, &alice, &bob, 300).unwrap();
    assert_eq!(DemoToken::balance(&env, &alice), 700);
    assert_eq!(DemoToken::balance(&env, &bob), 300);
    assert_eq!(DemoToken::total_supply(&env), 1000);
}

#[test]
fn test_test_approve_and_transfer_from() {
    let (mut env, _, alice, bob) = setup();
    let spender = addr(4);
    env.authorized.push(spender);
    DemoToken::approve(&mut env, &alice, &spender, 500).unwrap();
    assert_eq!(DemoToken::allowance(&env, &alice, &spender), 500);
    DemoToken::transfer_from(&mut env, &spender, &alice, &bob, 200).unwrap();
    assert_eq!(DemoToken::balance(&env, &alice), 800);
    assert_eq!(DemoToken::balance(&env, &bob), 200);
    assert_eq!(DemoToken::allowance(&env, &alice, &spender), 300);
}

#[test]
fn test_test_insufficient_balance_error() {
    let (mut env, _, alice, bob) = setup();
    let result = DemoToken::transfer(&mut env, &alice, &bob, 5000);
    assert!(result.is_err());
}

#[test]
fn test_test_already_initialized_error() {
    let (mut env, admin, _, _) = setup();
    let result = DemoToken::initialize(&mut env, &admin);
    assert!(result.is_err());
}

#[test]
fn test_transfer_with_auth_client() {
    let contract_id = addr(100);
    let admin = addr(1);
    let alice = addr(2);
    let bob = addr(3);
    let mut env = Env::new(contract_id, vec![admin, alice, bob], TokenStorage::new());
    DemoToken::initialize(&mut env, &admin).unwrap();
    DemoToken::mint(&mut env, &alice, 1000).unwrap();

    // The transfer carries alice's authorization alone.
    env.authorized = vec![alice];
    DemoToken::transfer(&mut env, &alice, &bob, 300).unwrap();

    assert_eq!(DemoToken::balance(&env, &alice), 700);
    assert_eq!(DemoToken::balance(&env, &bob), 300);
}

#[test]
fn test_transfer_with_ed25519_signature() {
    let contract_id = addr(100);
    let admin = addr(1);
    let bob = addr(3);
    // an account address, named by its ed25519 public key; the host checks its
    // signature and the call then carries its authorization
    let alice = Address::account([7; 32]);
    let mut env = Env::new(contract_id, vec![admin], TokenStorage::new());
    DemoToken::initialize(&mut env, &admin).unwrap();
    DemoToken::mint(&mut env, &alice, 1000).unwrap();

    env.authorized = vec![alice];
    DemoToken::transfer(&mut env, &alice, &bob, 300).unwrap();

    assert_eq!(DemoToken::balance(&env, &alice), 700);
    assert_eq!(DemoToken::balance(&env, &bob), 300);
}

#[test]
fn test_transfer_with_passkey_signature() {
    let contract_id = addr(100);
    let admin = addr(1);
    let bob = addr(3);
    // a custom account contract that checks the passkey signature
    let signer_addr = Address::contract([9; 32]);
    let mut env = Env::new(contract_id, vec![admin], TokenStorage::new());
    DemoToken::initialize(&mut env, &admin).unwrap();
    DemoToken::mint(&mut env, &signer_addr, 1000).unwrap();

    env.authorized = vec![signer_addr];
    DemoToken::transfer(&mut env, &signer_addr, &bob, 500).unwrap();

    assert_eq!(DemoToken::balance(&env, &signer_addr), 500);
    assert_eq!(DemoToken::balance(&env, &bob), 500);
}

#[test]
fn demo_errors_and_their_codes() {
    let (mut env, _, alice, bob) = setup();
    assert_eq!(DemoToken::transfer(&mut env, &alice, &bob, 5000), Err(TokenError::InsufficientBalance));
    assert_eq!(DemoToken::mint(&mut env, &bob, 0), Err(TokenError::InvalidAmount));
    assert_eq!(DemoToken::transfer_from(&mut env, &bob, &alice, &bob, 1), Err(TokenError::InsufficientAllowance));
    assert_eq!(DemoToken::balance(&env, &alice), 1000);
    assert_eq!(DemoToken::total_supply(&env), 1000);

    assert_eq!(TokenError::AlreadyInitialized.code(), 1);
    assert_eq!(TokenError::NotInitialized.code(), 2);
    assert_eq!(TokenError::InsufficientBalance.code(), 3);
    assert_eq!(TokenError::InsufficientAllowance.code(), 4);
    assert_eq!(TokenError::InvalidAmount.code(), 5);
    assert_eq!(TokenError::from_code(2), Some(TokenError::NotInitialized));
    assert_eq!(TokenError::from_code(9), None);
}

#[test]
fn demo_supply_is_sum_of_balances() {
    let (mut env, _, alice, bob) = setup();
    let carol = addr(5);
    DemoToken::mint(&mut env, &bob, 250).unwrap();
    DemoToken::transfer(&mut env, &alice, &carol, 125).unwrap();
    DemoToken::transfer(&mut env, &bob, &alice, 50).unwrap();
    let sum = DemoToken::balance(&env, &alice) + DemoToken::balance(&env, &bob) + DemoToken::balance(&env, &carol);
    assert_eq!(sum, 1250);
    assert_eq!(DemoToken::total_supply(&env), 1250);
}

#[test]
fn demo_transfer_back_restores() {
    let (mut env, _, alice, bob) = setup();
    DemoToken::transfer(&mut env, &alice, &bob, 400).unwrap();
    DemoToken::transfer(&mut env, &bob, &alice, 400).unwrap();
    assert_eq!(DemoToken::balance(&env, &alice), 1000);
    assert_eq!(DemoToken::balance(&env, &bob), 0);
}

#[test]
fn demo_approve_overwrites_and_takes_any_amount() {
    let (mut env, _, alice, bob) = setup();
    DemoToken::approve(&mut env, &alice, &bob, 30).unwrap();
    DemoToken::approve(&mut env, &alice, &bob, -7).unwrap();
    assert_eq!(DemoToken::allowance(&env, &alice, &bob), -7);
    assert_eq!(DemoToken::allowance(&env, &bob, &alice), 0);
}

#[test]
fn addresses_compare_by_kind_and_key() {
    let a = Address::account([3; 32]);
    let c = Address::contract([3; 32]);
    let mut k = [3u8; 32];
    k[31] = 4;
    assert!(a.same(&Address::new(token_demo::address::AddressKind::Account, [3; 32])));
    assert!(!a.same(&c));
    assert!(!a.same(&Address::account(k)));
}

#[test]
fn storage_map_reads_what_was_written() {
    let mut m: StorageMap<Address> = StorageMap::new();
    assert_eq!(m.get(&addr(1)), None);
    m.set(addr(1), 5);
    m.set(addr(2), -3);
    m.set(addr(1), 8);
    assert_eq!(m.get(&addr(1)), Some(8));
    assert_eq!(m.get(&addr(2)), Some(-3));
    assert_eq!(m.get(&addr(3)), None);
}

#[test]
fn fits_checks_flag_overflow() {
    let (mut env, _, alice, bob) = setup();
    assert!(DemoToken::mint_fits(&env, &bob, 5));
    assert!(!DemoToken::mint_fits(&env, &bob, i128::MAX));
    DemoToken::mint(&mut env, &bob, i128::MAX - 1000).unwrap();
    assert_eq!(DemoToken::total_supply(&env), i128::MAX);
    assert!(DemoToken::transfer_fits(&env, &alice, &bob, 1000));
    assert!(DemoToken::transfer_fits(&env, &alice, &alice, 1000));
    assert!(DemoToken::transfer_from_fits(&env, &bob, &alice, &bob, 1000));
}

#[test]
fn allowance_is_last_approval_less_spending() {
    let (mut env, _, alice, bob) = setup();
    let spender = addr(4);
    let carol = addr(5);
    env.authorized.push(spender);
    DemoToken::approve(&mut env, &alice, &spender, 900).unwrap();
    DemoToken::approve(&mut env, &alice, &spender, 500).unwrap();
    DemoToken::transfer_from(&mut env, &spender, &alice, &bob, 100).unwrap();
    assert!(DemoToken::transfer_from(&mut env, &spender, &alice, &bob, 1000).is_err());
    DemoToken::transfer_from(&mut env, &spender, &alice, &carol, 50).unwrap();
    assert_eq!(DemoToken::allowance(&env, &alice, &spender), 350);
    assert_eq!(DemoToken::allowance(&env, &spender, &alice), 0);
    assert_eq!(DemoToken::balance(&env, &addr(6)), 0);
    assert_eq!(DemoToken::total_supply(&env), 1000);
}
