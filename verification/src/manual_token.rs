//! The token whose storage is addressed by an explicit key enum: the admin and
//! the supply are kept in instance storage, and every balance and allowance in
//! persistent storage under its own key.
use vstd::prelude::*;
use crate::address::Address;
use crate::env::Env;
use crate::storage_map::{StorageKey, StorageMap};
use crate::ledger;
use crate::ledger::{TokenFault, TokenState};

verus! {

/// The storage keys of the token.
#[derive(Clone, Copy, Debug)]
pub enum DataKey {
    Admin,
    Balance(Address),
    Allowance(Address, Address),
    TotalSupply,
}

impl StorageKey for DataKey {
    fn same_key(&self, other: &Self) -> (r: bool) {
        match (self, other) {
            (DataKey::Admin, DataKey::Admin) => true,
            (DataKey::Balance(a), DataKey::Balance(b)) => a.same(b),
            (DataKey::Allowance(a1, a2), DataKey::Allowance(b1, b2)) => a1.same(b1) && a2.same(b2),
            (DataKey::TotalSupply, DataKey::TotalSupply) => true,
            _ => false,
        }
    }
}

/// The errors of the token, with the codes 1 to 5.
#[derive(Clone, Copy, Debug, PartialEq, Eq, Structural)]
pub enum TokenError {
    AlreadyInitialized,
    NotInitialized,
    InsufficientBalance,
    InsufficientAllowance,
    InvalidAmount,
}

impl TokenError {
    /// The reason this error reports.
    pub open spec fn fault(self) -> TokenFault {
        match self {
            TokenError::AlreadyInitialized => TokenFault::AlreadyInitialized,
            TokenError::NotInitialized => TokenFault::NotInitialized,
            TokenError::InsufficientBalance => TokenFault::InsufficientBalance,
            TokenError::InsufficientAllowance => TokenFault::InsufficientAllowance,
            TokenError::InvalidAmount => TokenFault::InvalidAmount,
        }
    }

    /// The error that reports `f`.
    pub open spec fn of_fault(f: TokenFault) -> TokenError {
        match f {
            TokenFault::AlreadyInitialized => TokenError::AlreadyInitialized,
            TokenFault::NotInitialized => TokenError::NotInitialized,
            TokenFault::InsufficientBalance => TokenError::InsufficientBalance,
            TokenFault::InsufficientAllowance => TokenError::InsufficientAllowance,
            TokenFault::InvalidAmount => TokenError::InvalidAmount,
        }
    }

    /// The contract error code assigned to each error.
    pub open spec fn code_of(self) -> u32 {
        match self {
            TokenError::AlreadyInitialized => 1,
            TokenError::NotInitialized => 2,
            TokenError::InsufficientBalance => 3,
            TokenError::InsufficientAllowance => 4,
            TokenError::InvalidAmount => 5,
        }
    }

    /// The error with contract error code `code`, if there is one.
    pub open spec fn of_code(code: u32) -> Option<TokenError> {
        if code == 1 {
            Some(TokenError::AlreadyInitialized)
        } else if code == 2 {
            Some(TokenError::NotInitialized)
        } else if code == 3 {
            Some(TokenError::InsufficientBalance)
        } else if code == 4 {
            Some(TokenError::InsufficientAllowance)
        } else if code == 5 {
            Some(TokenError::InvalidAmount)
        } else {
            None
        }
    }

    /// The contract error code of this error.
    pub fn code(&self) -> (c: u32)
        ensures
            c == self.code_of(),
    {
        match self {
            TokenError::AlreadyInitialized => 1,
            TokenError::NotInitialized => 2,
            TokenError::InsufficientBalance => 3,
            TokenError::InsufficientAllowance => 4,
            TokenError::InvalidAmount => 5,
        }
    }

    /// The error with contract error code `code`, if there is one.
    pub fn from_code(code: u32) -> (r: Option<TokenError>)
        ensures
            r == TokenError::of_code(code),
    {
        if code == 1 {
            Some(TokenError::AlreadyInitialized)
        } else if code == 2 {
            Some(TokenError::NotInitialized)
        } else if code == 3 {
            Some(TokenError::InsufficientBalance)
        } else if code == 4 {
            Some(TokenError::InsufficientAllowance)
        } else if code == 5 {
            Some(TokenError::InvalidAmount)
        } else {
            None
        }
    }
}

/// `r` and the storage after a call are what `expected` prescribes: on success
/// the new state, on failure the matching error and the state unchanged.
pub open spec fn settles(r: Result<(), TokenError>, before: TokenState, after: TokenState, expected: Result<TokenState, TokenFault>) -> bool {
    match expected {
        Ok(t) => r is Ok && after == t,
        Err(f) => r == Err::<(), TokenError>(TokenError::of_fault(f)) && after == before,
    }
}

/// The balances held in persistent storage, by address.
pub open spec fn balances_of(p: Map<DataKey, i128>) -> Map<Address, i128> {
    Map::new(
        |a: Address| p.contains_key(DataKey::Balance(a)),
        |a: Address| p[DataKey::Balance(a)],
    )
}

/// The allowances held in persistent storage, by (owner, spender).
pub open spec fn allowances_of(p: Map<DataKey, i128>) -> Map<(Address, Address), i128> {
    Map::new(
        |k: (Address, Address)| p.contains_key(DataKey::Allowance(k.0, k.1)),
        |k: (Address, Address)| p[DataKey::Allowance(k.0, k.1)],
    )
}

/// The token's storage: the instance entries under `DataKey::Admin` and
/// `DataKey::TotalSupply`, and the persistent entries.
pub struct ManualStorage {
    pub admin: Option<Address>,
    pub total_supply: Option<i128>,
    pub persistent: StorageMap<DataKey>,
}

impl View for ManualStorage {
    type V = TokenState;

    open spec fn view(&self) -> TokenState {
        TokenState {
            admin: self.admin,
            balances: balances_of(self.persistent@),
            allowances: allowances_of(self.persistent@),
            total_supply: self.total_supply,
        }
    }
}

impl ManualStorage {
    /// Storage with nothing written.
    pub fn new() -> (r: Self)
        ensures
            r@ == TokenState::empty(),
    {
        let r = ManualStorage { admin: None, total_supply: None, persistent: StorageMap::new() };
        assert(r@ =~= TokenState::empty());
        r
    }
}

/// Writing a balance entry changes that balance only.
proof fn lemma_write_balance(p: Map<DataKey, i128>, a: Address, v: i128)
    ensures
        balances_of(p.insert(DataKey::Balance(a), v)) == balances_of(p).insert(a, v),
        allowances_of(p.insert(DataKey::Balance(a), v)) == allowances_of(p),
{
    assert(balances_of(p.insert(DataKey::Balance(a), v)) =~= balances_of(p).insert(a, v));
    assert(allowances_of(p.insert(DataKey::Balance(a), v)) =~= allowances_of(p));
}

/// Writing an allowance entry changes that allowance only.
proof fn lemma_write_allowance(p: Map<DataKey, i128>, o: Address, s: Address, v: i128)
    ensures
        balances_of(p.insert(DataKey::Allowance(o, s), v)) == balances_of(p),
        allowances_of(p.insert(DataKey::Allowance(o, s), v)) == allowances_of(p).insert((o, s), v),
{
    assert(balances_of(p.insert(DataKey::Allowance(o, s), v)) =~= balances_of(p));
    assert(allowances_of(p.insert(DataKey::Allowance(o, s), v)) =~= allowances_of(p).insert((o, s), v));
}

/// The token contract.
pub struct ManualToken;

impl ManualToken {
    /// Makes `admin` the admin and sets the supply to zero; fails if an admin is
    /// already set.
    pub fn initialize(env: &mut Env<ManualStorage>, admin: &Address) -> (r: Result<(), TokenError>)
        ensures
            final(env).same_context(old(env)),
            settles(r, old(env).storage@, final(env).storage@, ledger::initialize(old(env).storage@, *admin)),
    {
        if env.storage.admin.is_some() {
            return Err(TokenError::AlreadyInitialized);
        }
        env.storage.admin = Some(*admin);
        env.storage.total_supply = Some(0i128);
        assert(env.storage@ =~= ledger::initialize(old(env).storage@, *admin).unwrap());
        Ok(())
    }

    /// The admin creates `amount` tokens for `to`.
    pub fn mint(env: &mut Env<ManualStorage>, to: &Address, amount: i128) -> (r: Result<(), TokenError>)
        requires
            old(env).storage.admin matches Some(admin) ==> old(env).authorizes(admin),
            ledger::mint_fits(old(env).storage@, *to, amount),
        ensures
            final(env).same_context(old(env)),
            settles(r, old(env).storage@, final(env).storage@, ledger::mint(old(env).storage@, *to, amount)),
    {
        if env.storage.admin.is_none() {
            return Err(TokenError::NotInitialized);
        }
        if amount <= 0 {
            return Err(TokenError::InvalidAmount);
        }
        let key = DataKey::Balance(*to);
        let balance = env.storage.persistent.get(&key).unwrap_or(0);
        env.storage.persistent.set(key, balance + amount);
        proof {
            lemma_write_balance(old(env).storage.persistent@, *to, (balance + amount) as i128);
        }
        let supply = env.storage.total_supply.unwrap_or(0);
        env.storage.total_supply = Some(supply + amount);
        assert(env.storage@ =~= ledger::mint(old(env).storage@, *to, amount).unwrap());
        Ok(())
    }

    /// `from` moves `amount` of its balance to `to`.
    pub fn transfer(env: &mut Env<ManualStorage>, from: &Address, to: &Address, amount: i128) -> (r: Result<(), TokenError>)
        requires
            old(env).authorizes(*from),
            ledger::transfer_fits(old(env).storage@, *from, *to, amount),
        ensures
            final(env).same_context(old(env)),
            settles(r, old(env).storage@, final(env).storage@, ledger::transfer(old(env).storage@, *from, *to, amount)),
    {
        if amount <= 0 {
            return Err(TokenError::InvalidAmount);
        }
        let from_key = DataKey::Balance(*from);
        let from_bal = env.storage.persistent.get(&from_key).unwrap_or(0);
        if from_bal < amount {
            return Err(TokenError::InsufficientBalance);
        }
        let ghost p0 = env.storage.persistent@;
        env.storage.persistent.set(from_key, from_bal - amount);
        proof {
            lemma_write_balance(p0, *from, (from_bal - amount) as i128);
        }
        let to_key = DataKey::Balance(*to);
        let ghost p1 = env.storage.persistent@;
        let to_bal = env.storage.persistent.get(&to_key).unwrap_or(0);
        env.storage.persistent.set(to_key, to_bal + amount);
        proof {
            lemma_write_balance(p1, *to, (to_bal + amount) as i128);
        }
        assert(env.storage@ =~= ledger::transfer(old(env).storage@, *from, *to, amount).unwrap());
        Ok(())
    }

    /// `owner` lets `spender` move up to `amount` of its balance.
    pub fn approve(env: &mut Env<ManualStorage>, owner: &Address, spender: &Address, amount: i128) -> (r: Result<(), TokenError>)
        requires
            old(env).authorizes(*owner),
        ensures
            final(env).same_context(old(env)),
            settles(r, old(env).storage@, final(env).storage@, ledger::approve(old(env).storage@, *owner, *spender, amount)),
    {
        let key = DataKey::Allowance(*owner, *spender);
        env.storage.persistent.set(key, amount);
        proof {
            lemma_write_allowance(old(env).storage.persistent@, *owner, *spender, amount);
        }
        assert(env.storage@ =~= ledger::approve(old(env).storage@, *owner, *spender, amount).unwrap());
        Ok(())
    }

    /// `spender` moves `amount` from `from` to `to`, out of the allowance that
    /// `from` gave it.
    pub fn transfer_from(
        env: &mut Env<ManualStorage>,
        spender: &Address,
        from: &Address,
        to: &Address,
        amount: i128,
    ) -> (r: Result<(), TokenError>)
        requires
            old(env).authorizes(*spender),
            ledger::transfer_from_fits(old(env).storage@, *spender, *from, *to, amount),
        ensures
            final(env).same_context(old(env)),
            settles(r, old(env).storage@, final(env).storage@, ledger::transfer_from(old(env).storage@, *spender, *from, *to, amount)),
    {
        if amount <= 0 {
            return Err(TokenError::InvalidAmount);
        }
        let allowance_key = DataKey::Allowance(*from, *spender);
        let allowance = env.storage.persistent.get(&allowance_key).unwrap_or(0);
        if allowance < amount {
            return Err(TokenError::InsufficientAllowance);
        }
        let from_key = DataKey::Balance(*from);
        let from_bal = env.storage.persistent.get(&from_key).unwrap_or(0);
        if from_bal < amount {
            return Err(TokenError::InsufficientBalance);
        }
        let ghost p0 = env.storage.persistent@;
        env.storage.persistent.set(allowance_key, allowance - amount);
        proof {
            lemma_write_allowance(p0, *from, *spender, (allowance - amount) as i128);
        }
        let ghost p1 = env.storage.persistent@;
        env.storage.persistent.set(from_key, from_bal - amount);
        proof {
            lemma_write_balance(p1, *from, (from_bal - amount) as i128);
        }
        let to_key = DataKey::Balance(*to);
        let ghost p2 = env.storage.persistent@;
        let to_bal = env.storage.persistent.get(&to_key).unwrap_or(0);
        env.storage.persistent.set(to_key, to_bal + amount);
        proof {
            lemma_write_balance(p2, *to, (to_bal + amount) as i128);
        }
        assert(env.storage@ =~= ledger::transfer_from(old(env).storage@, *spender, *from, *to, amount).unwrap());
        Ok(())
    }

    /// Whether a mint of `amount` for `to` stays within `i128`; a call for
    /// which this is false would overflow.
    pub fn mint_fits(env: &Env<ManualStorage>, to: &Address, amount: i128) -> (r: bool)
        ensures
            r == ledger::mint_fits(env.storage@, *to, amount),
    {
        if env.storage.admin.is_none() || amount <= 0 {
            return true;
        }
        let bal = env.storage.persistent.get(&DataKey::Balance(*to)).unwrap_or(0);
        let supply = env.storage.total_supply.unwrap_or(0);
        bal <= i128::MAX - amount && supply <= i128::MAX - amount
    }

    /// Whether a transfer of `amount` from `from` to `to` stays within
    /// `i128`; a call for which this is false would overflow.
    pub fn transfer_fits(env: &Env<ManualStorage>, from: &Address, to: &Address, amount: i128) -> (r: bool)
        ensures
            r == ledger::transfer_fits(env.storage@, *from, *to, amount),
    {
        if amount <= 0 {
            return true;
        }
        let from_bal = env.storage.persistent.get(&DataKey::Balance(*from)).unwrap_or(0);
        if from_bal < amount {
            return true;
        }
        let to_bal = if from.same(to) { from_bal - amount } else { env.storage.persistent.get(&DataKey::Balance(*to)).unwrap_or(0) };
        to_bal <= i128::MAX - amount
    }

    /// Whether a delegated transfer of `amount` from `from` to `to` stays
    /// within `i128`; a call for which this is false would overflow.
    pub fn transfer_from_fits(
        env: &Env<ManualStorage>,
        spender: &Address,
        from: &Address,
        to: &Address,
        amount: i128,
    ) -> (r: bool)
        ensures
            r == ledger::transfer_from_fits(env.storage@, *spender, *from, *to, amount),
    {
        if amount <= 0 {
            return true;
        }
        let allowance = env.storage.persistent.get(&DataKey::Allowance(*from, *spender)).unwrap_or(0);
        if allowance < amount {
            return true;
        }
        let from_bal = env.storage.persistent.get(&DataKey::Balance(*from)).unwrap_or(0);
        if from_bal < amount {
            return true;
        }
        let to_bal = if from.same(to) { from_bal - amount } else { env.storage.persistent.get(&DataKey::Balance(*to)).unwrap_or(0) };
        to_bal <= i128::MAX - amount
    }

    /// The balance of `addr`; zero if it holds none.
    pub fn balance(env: &Env<ManualStorage>, addr: &Address) -> (r: i128)
        ensures
            r == env.storage@.balance(*addr),
    {
        let key = DataKey::Balance(*addr);
        env.storage.persistent.get(&key).unwrap_or(0)
    }

    /// What `spender` may still move out of `owner`'s balance.
    pub fn allowance(env: &Env<ManualStorage>, owner: &Address, spender: &Address) -> (r: i128)
        ensures
            r == env.storage@.allowance(*owner, *spender),
    {
        let key = DataKey::Allowance(*owner, *spender);
        env.storage.persistent.get(&key).unwrap_or(0)
    }

    /// The total supply; zero before the first mint.
    pub fn total_supply(env: &Env<ManualStorage>) -> (r: i128)
        ensures
            r == env.storage@.supply(),
    {
        env.storage.total_supply.unwrap_or(0)
    }
}

} // verus!
