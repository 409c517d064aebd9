//! The token whose storage is laid out as typed fields: an admin, a map of
//! balances, a map of allowances keyed by (owner, spender), and a supply.
use vstd::prelude::*;
use crate::address::Address;
use crate::env::Env;
use crate::storage_map::StorageMap;
use crate::ledger;
use crate::ledger::{TokenFault, TokenState};

verus! {

/// The errors of the token, numbered from 1 in the order declared.
#[derive(Clone, Copy, Debug, PartialEq, Eq, Structural)]
pub enum TokenError {
    /// already initialized
    AlreadyInitialized,
    /// not initialized
    NotInitialized,
    /// insufficient balance
    InsufficientBalance,
    /// insufficient allowance
    InsufficientAllowance,
    /// amount must be positive
    InvalidAmount,
}

impl TokenError {
    /// The reason this error reports.
    pub open spec fn fault(self) -> TokenFault {
        match self {
            TokenError::AlreadyInitialized => TokenFault::AlreadyInitialized,
            TokenError::NotInitialized => TokenFault::NotInitialized,
            TokenError::InsufficientBalance => TokenFault::InsufficientBalance,
            TokenError::InsufficientAllowance => TokenFault::InsufficientAllowance,
            TokenError::InvalidAmount => TokenFault::InvalidAmount,
        }
    }

    /// The error that reports `f`.
    pub open spec fn of_fault(f: TokenFault) -> TokenError {
        match f {
            TokenFault::AlreadyInitialized => TokenError::AlreadyInitialized,
            TokenFault::NotInitialized => TokenError::NotInitialized,
            TokenFault::InsufficientBalance => TokenError::InsufficientBalance,
            TokenFault::InsufficientAllowance => TokenError::InsufficientAllowance,
            TokenFault::InvalidAmount => TokenError::InvalidAmount,
        }
    }

    /// The contract error code: the position of the variant, counting from 1.
    pub open spec fn code_of(self) -> u32 {
        match self {
            TokenError::AlreadyInitialized => 1,
            TokenError::NotInitialized => 2,
            TokenError::InsufficientBalance => 3,
            TokenError::InsufficientAllowance => 4,
            TokenError::InvalidAmount => 5,
        }
    }

    /// The error with contract error code `code`, if there is one.
    pub open spec fn of_code(code: u32) -> Option<TokenError> {
        if code == 1 {
            Some(TokenError::AlreadyInitialized)
        } else if code == 2 {
            Some(TokenError::NotInitialized)
        } else if code == 3 {
            Some(TokenError::InsufficientBalance)
        } else if code == 4 {
            Some(TokenError::InsufficientAllowance)
        } else if code == 5 {
            Some(TokenError::InvalidAmount)
        } else {
            None
        }
    }

    /// The contract error code of this error.
    pub fn code(&self) -> (c: u32)
        ensures
            c == self.code_of(),
    {
        match self {
            TokenError::AlreadyInitialized => 1,
            TokenError::NotInitialized => 2,
            TokenError::InsufficientBalance => 3,
            TokenError::InsufficientAllowance => 4,
            TokenError::InvalidAmount => 5,
        }
    }

    /// The error with contract error code `code`, if there is one.
    pub fn from_code(code: u32) -> (r: Option<TokenError>)
        ensures
            r == TokenError::of_code(code),
    {
        if code == 1 {
            Some(TokenError::AlreadyInitialized)
        } else if code == 2 {
            Some(TokenError::NotInitialized)
        } else if code == 3 {
            Some(TokenError::InsufficientBalance)
        } else if code == 4 {
            Some(TokenError::InsufficientAllowance)
        } else if code == 5 {
            Some(TokenError::InvalidAmount)
        } else {
            None
        }
    }
}

/// `r` and the storage after a call are what `expected` prescribes: on success
/// the new state, on failure the matching error and the state unchanged.
pub open spec fn settles(r: Result<(), TokenError>, before: TokenState, after: TokenState, expected: Result<TokenState, TokenFault>) -> bool {
    match expected {
        Ok(t) => r is Ok && after == t,
        Err(f) => r == Err::<(), TokenError>(TokenError::of_fault(f)) && after == before,
    }
}

/// The token's storage.
pub struct TokenStorage {
    pub admin: Option<Address>,
    pub balances: StorageMap<Address>,
    pub allowances: StorageMap<(Address, Address)>,
    pub total_supply: Option<i128>,
}

impl View for TokenStorage {
    type V = TokenState;

    open spec fn view(&self) -> TokenState {
        TokenState {
            admin: self.admin,
            balances: self.balances@,
            allowances: self.allowances@,
            total_supply: self.total_supply,
        }
    }
}

impl TokenStorage {
    /// Storage with nothing written.
    pub fn new() -> (r: Self)
        ensures
            r@ == TokenState::empty(),
    {
        let r = TokenStorage {
            admin: None,
            balances: StorageMap::new(),
            allowances: StorageMap::new(),
            total_supply: None,
        };
        assert(r@ =~= TokenState::empty());
        r
    }
}

/// The token contract.
pub struct DemoToken;

impl DemoToken {
    /// Makes `admin` the admin and sets the supply to zero; fails if an admin is
    /// already set.
    pub fn initialize(env: &mut Env<TokenStorage>, admin: &Address) -> (r: Result<(), TokenError>)
        ensures
            final(env).same_context(old(env)),
            settles(r, old(env).storage@, final(env).storage@, ledger::initialize(old(env).storage@, *admin)),
    {
        if env.storage.admin.is_some() {
            return Err(TokenError::AlreadyInitialized);
        }
        env.storage.admin = Some(*admin);
        env.storage.total_supply = Some(0);
        assert(env.storage@ =~= ledger::initialize(old(env).storage@, *admin).unwrap());
        Ok(())
    }

    /// The admin creates `amount` tokens for `to`.
    pub fn mint(env: &mut Env<TokenStorage>, to: &Address, amount: i128) -> (r: Result<(), TokenError>)
        requires
            old(env).storage.admin matches Some(admin) ==> old(env).authorizes(admin),
            ledger::mint_fits(old(env).storage@, *to, amount),
        ensures
            final(env).same_context(old(env)),
            settles(r, old(env).storage@, final(env).storage@, ledger::mint(old(env).storage@, *to, amount)),
    {
        if env.storage.admin.is_none() {
            return Err(TokenError::NotInitialized);
        }
        if amount <= 0 {
            return Err(TokenError::InvalidAmount);
        }
        let bal = env.storage.balances.get(to).unwrap_or(0);
        env.storage.balances.set(*to, bal + amount);
        let supply = env.storage.total_supply.unwrap_or(0);
        env.storage.total_supply = Some(supply + amount);
        assert(env.storage@ =~= ledger::mint(old(env).storage@, *to, amount).unwrap());
        Ok(())
    }

    /// `from` moves `amount` of its balance to `to`.
    pub fn transfer(env: &mut Env<TokenStorage>, from: &Address, to: &Address, amount: i128) -> (r: Result<(), TokenError>)
        requires
            old(env).authorizes(*from),
            ledger::transfer_fits(old(env).storage@, *from, *to, amount),
        ensures
            final(env).same_context(old(env)),
            settles(r, old(env).storage@, final(env).storage@, ledger::transfer(old(env).storage@, *from, *to, amount)),
    {
        if amount <= 0 {
            return Err(TokenError::InvalidAmount);
        }
        let from_bal = env.storage.balances.get(from).unwrap_or(0);
        if from_bal < amount {
            return Err(TokenError::InsufficientBalance);
        }
        env.storage.balances.set(*from, from_bal - amount);
        let to_bal = env.storage.balances.get(to).unwrap_or(0);
        env.storage.balances.set(*to, to_bal + amount);
        assert(env.storage@ =~= ledger::transfer(old(env).storage@, *from, *to, amount).unwrap());
        Ok(())
    }

    /// `owner` lets `spender` move up to `amount` of its balance.
    pub fn approve(env: &mut Env<TokenStorage>, owner: &Address, spender: &Address, amount: i128) -> (r: Result<(), TokenError>)
        requires
            old(env).authorizes(*owner),
        ensures
            final(env).same_context(old(env)),
            settles(r, old(env).storage@, final(env).storage@, ledger::approve(old(env).storage@, *owner, *spender, amount)),
    {
        env.storage.allowances.set((*owner, *spender), amount);
        assert(env.storage@ =~= ledger::approve(old(env).storage@, *owner, *spender, amount).unwrap());
        Ok(())
    }

    /// `spender` moves `amount` from `from` to `to`, out of the allowance that
    /// `from` gave it.
    pub fn transfer_from(
        env: &mut Env<TokenStorage>,
        spender: &Address,
        from: &Address,
        to: &Address,
        amount: i128,
    ) -> (r: Result<(), TokenError>)
        requires
            old(env).authorizes(*spender),
            ledger::transfer_from_fits(old(env).storage@, *spender, *from, *to, amount),
        ensures
            final(env).same_context(old(env)),
            settles(r, old(env).storage@, final(env).storage@, ledger::transfer_from(old(env).storage@, *spender, *from, *to, amount)),
    {
        if amount <= 0 {
            return Err(TokenError::InvalidAmount);
        }
        let pair = (*from, *spender);
        let allowance = env.storage.allowances.get(&pair).unwrap_or(0);
        if allowance < amount {
            return Err(TokenError::InsufficientAllowance);
        }
        let from_bal = env.storage.balances.get(from).unwrap_or(0);
        if from_bal < amount {
            return Err(TokenError::InsufficientBalance);
        }
        env.storage.allowances.set(pair, allowance - amount);
        env.storage.balances.set(*from, from_bal - amount);
        let to_bal = env.storage.balances.get(to).unwrap_or(0);
        env.storage.balances.set(*to, to_bal + amount);
        assert(env.storage@ =~= ledger::transfer_from(old(env).storage@, *spender, *from, *to, amount).unwrap());
        Ok(())
    }

    /// Whether a mint of `amount` for `to` stays within `i128`; a call for
    /// which this is false would overflow.
    pub fn mint_fits(env: &Env<TokenStorage>, to: &Address, amount: i128) -> (r: bool)
        ensures
            r == ledger::mint_fits(env.storage@, *to, amount),
    {
        if env.storage.admin.is_none() || amount <= 0 {
            return true;
        }
        let bal = env.storage.balances.get(to).unwrap_or(0);
        let supply = env.storage.total_supply.unwrap_or(0);
        bal <= i128::MAX - amount && supply <= i128::MAX - amount
    }

    /// Whether a transfer of `amount` from `from` to `to` stays within
    /// `i128`; a call for which this is false would overflow.
    pub fn transfer_fits(env: &Env<TokenStorage>, from: &Address, to: &Address, amount: i128) -> (r: bool)
        ensures
            r == ledger::transfer_fits(env.storage@, *from, *to, amount),
    {
        if amount <= 0 {
            return true;
        }
        let from_bal = env.storage.balances.get(from).unwrap_or(0);
        if from_bal < amount {
            return true;
        }
        let to_bal = if from.same(to) { from_bal - amount } else { env.storage.balances.get(to).unwrap_or(0) };
        to_bal <= i128::MAX - amount
    }

    /// Whether a delegated transfer of `amount` from `from` to `to` stays
    /// within `i128`; a call for which this is false would overflow.
    pub fn transfer_from_fits(
        env: &Env<TokenStorage>,
        spender: &Address,
        from: &Address,
        to: &Address,
        amount: i128,
    ) -> (r: bool)
        ensures
            r == ledger::transfer_from_fits(env.storage@, *spender, *from, *to, amount),
    {
        if amount <= 0 {
            return true;
        }
        let allowance = env.storage.allowances.get(&(*from, *spender)).unwrap_or(0);
        if allowance < amount {
            return true;
        }
        let from_bal = env.storage.balances.get(from).unwrap_or(0);
        if from_bal < amount {
            return true;
        }
        let to_bal = if from.same(to) { from_bal - amount } else { env.storage.balances.get(to).unwrap_or(0) };
        to_bal <= i128::MAX - amount
    }

    /// The balance of `addr`; zero if it holds none.
    pub fn balance(env: &Env<TokenStorage>, addr: &Address) -> (r: i128)
        ensures
            r == env.storage@.balance(*addr),
    {
        env.storage.balances.get(addr).unwrap_or(0)
    }

    /// What `spender` may still move out of `owner`'s balance.
    pub fn allowance(env: &Env<TokenStorage>, owner: &Address, spender: &Address) -> (r: i128)
        ensures
            r == env.storage@.allowance(*owner, *spender),
    {
        env.storage.allowances.get(&(*owner, *spender)).unwrap_or(0)
    }

    /// The total supply; zero before the first mint.
    pub fn total_supply(env: &Env<TokenStorage>) -> (r: i128)
        ensures
            r == env.storage@.supply(),
    {
        env.storage.total_supply.unwrap_or(0)
    }
}

} // verus!
