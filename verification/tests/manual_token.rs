use token_demo::demo_token::{DemoToken, TokenStorage};
use token_demo::address::Address;
use token_demo::env::Env;
use token_demo::manual_token::{ManualStorage, ManualToken, TokenError};

fn addr(n: u8) -> Address {
    Address::contract([n; 32])
}

fn setup() -> (Env<ManualStorage>, Address, Address, Address) {
    let contract_id = addr(100);
    let admin = addr(1);
    let alice = addr(2);
    let bob = addr(3);
    let mut env = Env::new(contract_id, vec![admin, alice, bob], ManualStorage::new());
    ManualToken::initialize(&mut env, &admin).unwrap();
    ManualToken::mint(&mut env, &alice, 1000).unwrap();
    (env, admin, alice, bob)
}

#[test]
fn test_mint_and_balance() {
    let (env, _, alice, _) = setup();
    assert_eq!(ManualToken::balance(&env, &alice), 1000);
    assert_eq!(ManualToken::total_supply(&env), 1000);
}

#[test]
fn test_transfer() {
    let (mut env, _, alice, bob) = setup();
    ManualToken::transfer(&mut env, &alice, &bob, 300).unwrap();
    assert_eq!(ManualToken::balance(&env, &alice), 700);
    assert_eq!(ManualToken::balance(&env, &bob), 300);
    assert_eq!(ManualToken::total_supply(&env), 1000);
}

#[test]
fn test_approve_and_transfer_from() {
    let (mut env, _, alice, bob) = setup();
    let spender = addr(4);
    env.authorized.push(spender);
    ManualToken::approve(&mut env, &alice, &spender, 500).unwrap();
    assert_eq!(ManualToken::allowance(&env, &alice, &spender), 500);
    ManualToken::transfer_from(&mut env, &spender, &alice, &bob, 200).unwrap();
    assert_eq!(ManualToken::balance(&env, &alice), 800);
    assert_eq!(ManualToken::balance(&env, &bob), 200);
    assert_eq!(ManualToken::allowance(&env, &alice, &spender), 300);
}

#[test]
fn test_insufficient_balance_error() {
    let (mut env, _, alice, bob) = setup();
    let result = ManualToken::transfer(&mut env, &alice, &bob, 5000);
    assert!(result.is_err());
}

#[test]
fn test_already_initialized_error() {
    let (mut env, admin, _, _) = setup();
    let result = ManualToken::initialize(&mut env, &admin);
    assert!(result.is_err());
}

#[test]
fn test_transfer_with_manual_mock_auth() {
    let contract_id = addr(100);
    let admin = addr(1);
    let alice = addr(2);
    let bob = addr(3);
    let mut env = Env::new(contract_id, vec![admin, alice, bob], ManualStorage::new());
    ManualToken::initialize(&mut env, &admin).unwrap();
    ManualToken::mint(&mut env, &alice, 1000).unwrap();

    // Only alice authorizes the transfer.
    env.authorized = vec![alice];
    ManualToken::transfer(&mut env, &alice, &bob, 300).unwrap();

    assert_eq!(ManualToken::balance(&env, &alice), 700);
    assert_eq!(ManualToken::balance(&env, &bob), 300);
}

#[test]
fn manual_errors_and_their_codes() {
    let (mut env, _, alice, bob) = setup();
    assert_eq!(ManualToken::transfer(&mut env, &alice, &bob, 5000), Err(TokenError::InsufficientBalance));
    assert_eq!(ManualToken::transfer(&mut env, &alice, &bob, 0), Err(TokenError::InvalidAmount));
    assert_eq!(ManualToken::transfer(&mut env, &alice, &bob, -5), Err(TokenError::InvalidAmount));
    assert_eq!(ManualToken::transfer_from(&mut env, &bob, &alice, &bob, 1), Err(TokenError::InsufficientAllowance));
    assert_eq!(ManualToken::initialize(&mut env, &bob), Err(TokenError::AlreadyInitialized));
    // failures change nothing
    assert_eq!(ManualToken::balance(&env, &alice), 1000);
    assert_eq!(ManualToken::balance(&env, &bob), 0);

    let codes: Vec<u32> = [
        TokenError::AlreadyInitialized,
        TokenError::NotInitialized,
        TokenError::InsufficientBalance,
        TokenError::InsufficientAllowance,
        TokenError::InvalidAmount,
    ]
    .iter()
    .map(|e| e.code())
    .collect();
    assert_eq!(codes, vec![1, 2, 3, 4, 5]);
    assert_eq!(TokenError::from_code(4), Some(TokenError::InsufficientAllowance));
    assert_eq!(TokenError::from_code(0), None);
    assert_eq!(TokenError::from_code(6), None);
}

#[test]
fn manual_mint_before_initialize_fails() {
    let alice = addr(2);
    let mut env = Env::new(addr(100), vec![alice], ManualStorage::new());
    assert_eq!(ManualToken::mint(&mut env, &alice, 10), Err(TokenError::NotInitialized));
    assert_eq!(ManualToken::total_supply(&env), 0);
    assert_eq!(ManualToken::balance(&env, &alice), 0);
}

#[test]
fn manual_transfer_from_without_balance_keeps_allowance() {
    let (mut env, _, alice, bob) = setup();
    let spender = addr(4);
    env.authorized.push(spender);
    ManualToken::approve(&mut env, &bob, &spender, 500).unwrap();
    // bob holds nothing: the allowance covers the amount, the balance does not
    assert_eq!(ManualToken::transfer_from(&mut env, &spender, &bob, &alice, 100), Err(TokenError::InsufficientBalance));
    assert_eq!(ManualToken::allowance(&env, &bob, &spender), 500);
    assert_eq!(ManualToken::balance(&env, &alice), 1000);
}

#[test]
fn manual_transfer_to_self_keeps_balance() {
    let (mut env, _, alice, _) = setup();
    ManualToken::transfer(&mut env, &alice, &alice, 400).unwrap();
    assert_eq!(ManualToken::balance(&env, &alice), 1000);
    assert_eq!(ManualToken::total_supply(&env), 1000);
}

#[test]
fn manual_and_demo_tokens_agree() {
    let (admin, alice, bob, spender) = (addr(1), addr(2), addr(3), addr(4));
    let who = vec![admin, alice, bob, spender];
    let mut m = Env::new(addr(100), who.clone(), ManualStorage::new());
    let mut d = Env::new(addr(101), who, TokenStorage::new());
    let r = (ManualToken::mint(&mut m, &alice, 5), DemoToken::mint(&mut d, &alice, 5));
    assert_eq!(r.0.unwrap_err().code(), r.1.unwrap_err().code());
    ManualToken::initialize(&mut m, &admin).unwrap();
    DemoToken::initialize(&mut d, &admin).unwrap();
    ManualToken::mint(&mut m, &alice, 1000).unwrap();
    DemoToken::mint(&mut d, &alice, 1000).unwrap();
    ManualToken::approve(&mut m, &alice, &spender, 400).unwrap();
    DemoToken::approve(&mut d, &alice, &spender, 400).unwrap();
    let ops = [(300i128, 150i128), (5000, 10), (0, 500)];
    for (t, f) in ops {
        let a = ManualToken::transfer(&mut m, &alice, &bob, t).map_err(|e| e.code());
        let b = DemoToken::transfer(&mut d, &alice, &bob, t).map_err(|e| e.code());
        assert_eq!(a, b);
        let a = ManualToken::transfer_from(&mut m, &spender, &alice, &bob, f).map_err(|e| e.code());
        let b = DemoToken::transfer_from(&mut d, &spender, &alice, &bob, f).map_err(|e| e.code());
        assert_eq!(a, b);
    }
    for x in [admin, alice, bob, spender] {
        assert_eq!(ManualToken::balance(&m, &x), DemoToken::balance(&d, &x));
        assert_eq!(ManualToken::allowance(&m, &alice, &x), DemoToken::allowance(&d, &alice, &x));
    }
    assert_eq!(ManualToken::balance(&m, &alice), 540);
    assert_eq!(ManualToken::total_supply(&m), DemoToken::total_supply(&d));
}
