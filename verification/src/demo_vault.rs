//! The vault: users deposit tokens of one token contract into it and withdraw
//! them again. A deposit has the token move the tokens from the user to the
//! vault out of an allowance the user gave the vault; a withdrawal has the
//! token pay them back.
//!
//! Each operation that calls the token is split at the call: `begin_*` makes
//! the checks and names the call to make, `settle_*` records the result. The
//! composed `deposit` and `withdraw` make the call into a `DemoToken`.
use vstd::prelude::*;
use crate::address::Address;
use crate::env::Env;
use crate::storage_map::StorageMap;
use crate::demo_token::{DemoToken, TokenError, TokenStorage};
use crate::ledger;
use crate::vault_ledger;
use crate::vault_ledger::VaultState;

verus! {

/// How a call into another contract failed: with that contract's error code,
/// or by aborting.
#[derive(Clone, Copy, Debug, PartialEq, Eq, Structural)]
pub enum InvokeError {
    Contract(u32),
    Abort,
}

/// The errors of the vault. Its own errors are numbered from 1; the token's
/// errors follow them in the token's order; `Aborted` is 0 and `UnknownError`
/// is `i32::MAX`.
#[derive(Clone, Copy, Debug, PartialEq, Eq, Structural)]
pub enum VaultError {
    /// vault already initialized
    AlreadyInitialized,
    /// vault not initialized
    NotInitialized,
    /// deposit amount must be positive
    InvalidAmount,
    /// withdrawal exceeds deposit
    InsufficientDeposit,
    /// the token contract failed with one of its errors
    Token(TokenError),
    /// Cross-contract call aborted
    Aborted,
    /// Unknown error from cross-contract call
    UnknownError,
}

/// The code of `UnknownError`.
pub const UNKNOWN_ERROR_CODE: u32 = 2147483647u32;

impl VaultError {
    /// The contract error code of each error.
    pub open spec fn code_of(self) -> u32 {
        match self {
            VaultError::AlreadyInitialized => 1,
            VaultError::NotInitialized => 2,
            VaultError::InvalidAmount => 3,
            VaultError::InsufficientDeposit => 4,
            VaultError::Token(t) => (4 + t.code_of()) as u32,
            VaultError::Aborted => 0,
            VaultError::UnknownError => UNKNOWN_ERROR_CODE,
        }
    }

    /// The error with contract error code `code`, if there is one.
    pub open spec fn of_code(code: u32) -> Option<VaultError> {
        if code == 0 {
            Some(VaultError::Aborted)
        } else if code == 1 {
            Some(VaultError::AlreadyInitialized)
        } else if code == 2 {
            Some(VaultError::NotInitialized)
        } else if code == 3 {
            Some(VaultError::InvalidAmount)
        } else if code == 4 {
            Some(VaultError::InsufficientDeposit)
        } else if 5 <= code < 10 {
            match TokenError::of_code((code - 4) as u32) {
                Some(t) => Some(VaultError::Token(t)),
                None => None,
            }
        } else if code == UNKNOWN_ERROR_CODE {
            Some(VaultError::UnknownError)
        } else {
            None
        }
    }

    /// The contract error code of this error.
    pub fn code(&self) -> (c: u32)
        ensures
            c == self.code_of(),
    {
        match self {
            VaultError::AlreadyInitialized => 1,
            VaultError::NotInitialized => 2,
            VaultError::InvalidAmount => 3,
            VaultError::InsufficientDeposit => 4,
            VaultError::Token(t) => 4 + t.code(),
            VaultError::Aborted => 0,
            VaultError::UnknownError => UNKNOWN_ERROR_CODE,
        }
    }

    /// The error with contract error code `code`, if there is one.
    pub fn from_code(code: u32) -> (r: Option<VaultError>)
        ensures
            r == VaultError::of_code(code),
    {
        if code == 0 {
            Some(VaultError::Aborted)
        } else if code == 1 {
            Some(VaultError::AlreadyInitialized)
        } else if code == 2 {
            Some(VaultError::NotInitialized)
        } else if code == 3 {
            Some(VaultError::InvalidAmount)
        } else if code == 4 {
            Some(VaultError::InsufficientDeposit)
        } else if 5 <= code && code < 10 {
            match TokenError::from_code(code - 4) {
                Some(t) => Some(VaultError::Token(t)),
                None => None,
            }
        } else if code == UNKNOWN_ERROR_CODE {
            Some(VaultError::UnknownError)
        } else {
            None
        }
    }

    /// The error that a failed call into the token becomes: the token's own
    /// error where its code names one, `UnknownError` for another code, and
    /// `Aborted` for an aborted call.
    pub fn from_call_error(e: InvokeError) -> (r: VaultError)
        ensures
            r == vault_ledger::call_error(e),
    {
        match e {
            InvokeError::Contract(c) => match TokenError::from_code(c) {
                Some(t) => VaultError::Token(t),
                None => VaultError::UnknownError,
            },
            InvokeError::Abort => VaultError::Aborted,
        }
    }
}

/// `r` and the storage after a call are what `expected` prescribes: on success
/// the new state, on failure that error and the state unchanged.
pub open spec fn settles(r: Result<(), VaultError>, before: VaultState, after: VaultState, expected: Result<VaultState, VaultError>) -> bool {
    match expected {
        Ok(w) => r is Ok && after == w,
        Err(e) => r == Err::<(), VaultError>(e) && after == before,
    }
}

/// The call a deposit makes: `token.transfer_from(spender, from, to, amount)`.
#[derive(Clone, Copy, Debug)]
pub struct TransferFromCall {
    pub token: Address,
    pub spender: Address,
    pub from: Address,
    pub to: Address,
    pub amount: i128,
}

/// The call a withdrawal makes: `token.transfer(from, to, amount)`.
#[derive(Clone, Copy, Debug)]
pub struct TransferCall {
    pub token: Address,
    pub from: Address,
    pub to: Address,
    pub amount: i128,
}

/// The vault's storage.
pub struct VaultStorage {
    pub token_id: Option<Address>,
    pub admin: Option<Address>,
    pub deposits: StorageMap<Address>,
    pub total_deposited: Option<i128>,
}

impl View for VaultStorage {
    type V = VaultState;

    open spec fn view(&self) -> VaultState {
        VaultState {
            token_id: self.token_id,
            admin: self.admin,
            deposits: self.deposits@,
            total_deposited: self.total_deposited,
        }
    }
}

impl VaultStorage {
    /// Storage with nothing written.
    pub fn new() -> (r: Self)
        ensures
            r@ == VaultState::empty(),
    {
        let r = VaultStorage { token_id: None, admin: None, deposits: StorageMap::new(), total_deposited: None };
        assert(r@ =~= VaultState::empty());
        r
    }
}

/// The vault contract.
pub struct DemoVault;

impl DemoVault {
    /// Sets the admin, the token and a zero total; fails if an admin is already
    /// set.
    pub fn initialize(env: &mut Env<VaultStorage>, admin: &Address, token_id: &Address) -> (r: Result<(), VaultError>)
        ensures
            final(env).same_context(old(env)),
            settles(r, old(env).storage@, final(env).storage@, vault_ledger::initialize(old(env).storage@, *admin, *token_id)),
    {
        if env.storage.admin.is_some() {
            return Err(VaultError::AlreadyInitialized);
        }
        env.storage.admin = Some(*admin);
        env.storage.token_id = Some(*token_id);
        env.storage.total_deposited = Some(0);
        assert(env.storage@ =~= vault_ledger::initialize(old(env).storage@, *admin, *token_id).unwrap());
        Ok(())
    }

    /// The checks of a deposit by `user`; on success, the token call to make:
    /// the vault, as spender, moves `amount` from `user` to itself.
    pub fn begin_deposit(env: &Env<VaultStorage>, user: &Address, amount: i128) -> (r: Result<TransferFromCall, VaultError>)
        requires
            env.authorizes(*user),
        ensures
            match vault_ledger::begin_deposit(env.storage@, amount) {
                Ok(token) => r == Ok::<TransferFromCall, VaultError>(TransferFromCall {
                    token,
                    spender: env.current_contract,
                    from: *user,
                    to: env.current_contract,
                    amount,
                }),
                Err(e) => r == Err::<TransferFromCall, VaultError>(e),
            },
    {
        if amount <= 0 {
            return Err(VaultError::InvalidAmount);
        }
        let token_id = match env.storage.token_id {
            Some(t) => t,
            None => return Err(VaultError::NotInitialized),
        };
        let vault_addr = env.current_contract_address();
        Ok(TransferFromCall { token: token_id, spender: vault_addr, from: *user, to: vault_addr, amount })
    }

    /// Records a deposit of `amount` by `user` once the token call returned
    /// `outcome`: on success the deposit and the total grow by `amount`; a failed
    /// call becomes the vault's error.
    pub fn settle_deposit(
        env: &mut Env<VaultStorage>,
        user: &Address,
        amount: i128,
        outcome: Result<(), InvokeError>,
    ) -> (r: Result<(), VaultError>)
        requires
            outcome is Ok ==> vault_ledger::begin_deposit(old(env).storage@, amount) is Ok,
            outcome is Ok ==> vault_ledger::deposit_fits(old(env).storage@, *user, amount),
        ensures
            final(env).same_context(old(env)),
            settles(r, old(env).storage@, final(env).storage@, vault_ledger::settle_deposit(old(env).storage@, *user, amount, outcome)),
    {
        match outcome {
            Ok(()) => {},
            Err(e) => return Err(VaultError::from_call_error(e)),
        }
        let d = env.storage.deposits.get(user).unwrap_or(0);
        env.storage.deposits.set(*user, d + amount);
        let t = env.storage.total_deposited.unwrap_or(0);
        env.storage.total_deposited = Some(t + amount);
        assert(env.storage@ =~= vault_ledger::credited(old(env).storage@, *user, amount));
        Ok(())
    }

    /// `user` deposits `amount` of the token held in `token`: the token moves it
    /// from `user` to the vault out of the allowance `user` gave the vault.
    pub fn deposit(
        env: &mut Env<VaultStorage>,
        token: &mut Env<TokenStorage>,
        user: &Address,
        amount: i128,
    ) -> (r: Result<(), VaultError>)
        requires
            old(env).authorizes(*user),
            old(env).storage.token_id matches Some(id) ==> old(token).current_contract == id,
            (vault_ledger::begin_deposit(old(env).storage@, amount) is Ok
                && ledger::transfer_from_fits(old(token).storage@, old(env).current_contract, *user, old(env).current_contract, amount)
                && ledger::transfer_from(old(token).storage@, old(env).current_contract, *user, old(env).current_contract, amount) is Ok)
                ==> vault_ledger::deposit_fits(old(env).storage@, *user, amount),
        ensures
            final(env).same_context(old(env)),
            final(token).same_context(old(token)),
            match vault_ledger::deposit(old(env).storage@, old(token).storage@, old(env).current_contract, *user, amount) {
                Ok((w, t)) => r is Ok && final(env).storage@ == w && final(token).storage@ == t,
                Err(e) => r == Err::<(), VaultError>(e) && final(env).storage@ == old(env).storage@
                    && final(token).storage@ == old(token).storage@,
            },
    {
        let call = match DemoVault::begin_deposit(env, user, amount) {
            Ok(c) => c,
            Err(e) => return Err(e),
        };
        if !DemoToken::transfer_from_fits(token, &call.spender, &call.from, &call.to, call.amount) {
            // the token would overflow and abort
            return DemoVault::settle_deposit(env, user, amount, Err(InvokeError::Abort));
        }
        let mut callers: Vec<Address> = Vec::new();
        callers.push(call.spender);
        core::mem::swap(&mut token.authorized, &mut callers);
        assert(token.authorized@[0] == call.spender);
        let called = DemoToken::transfer_from(token, &call.spender, &call.from, &call.to, call.amount);
        core::mem::swap(&mut token.authorized, &mut callers);
        let outcome = match called {
            Ok(()) => Ok(()),
            Err(e) => Err(InvokeError::Contract(e.code())),
        };
        DemoVault::settle_deposit(env, user, amount, outcome)
    }

    /// The checks of a withdrawal by `user`; on success, the token call to make:
    /// the vault pays `amount` to `user`.
    pub fn begin_withdraw(env: &Env<VaultStorage>, user: &Address, amount: i128) -> (r: Result<TransferCall, VaultError>)
        requires
            env.authorizes(*user),
        ensures
            match vault_ledger::begin_withdraw(env.storage@, *user, amount) {
                Ok(token) => r == Ok::<TransferCall, VaultError>(TransferCall {
                    token,
                    from: env.current_contract,
                    to: *user,
                    amount,
                }),
                Err(e) => r == Err::<TransferCall, VaultError>(e),
            },
    {
        if amount <= 0 {
            return Err(VaultError::InvalidAmount);
        }
        let deposit = env.storage.deposits.get(user).unwrap_or(0);
        if deposit < amount {
            return Err(VaultError::InsufficientDeposit);
        }
        let token_id = match env.storage.token_id {
            Some(t) => t,
            None => return Err(VaultError::NotInitialized),
        };
        Ok(TransferCall { token: token_id, from: env.current_contract_address(), to: *user, amount })
    }

    /// Records a withdrawal of `amount` by `user` once the token has paid it
    /// out: the deposit and the total shrink by `amount`.
    pub fn settle_withdraw(env: &mut Env<VaultStorage>, user: &Address, amount: i128)
        requires
            vault_ledger::begin_withdraw(old(env).storage@, *user, amount) is Ok,
            vault_ledger::withdraw_fits(old(env).storage@, amount),
        ensures
            final(env).same_context(old(env)),
            final(env).storage@ == vault_ledger::debited(old(env).storage@, *user, amount),
    {
        let d = env.storage.deposits.get(user).unwrap_or(0);
        env.storage.deposits.set(*user, d - amount);
        let t = env.storage.total_deposited.unwrap_or(0);
        env.storage.total_deposited = Some(t - amount);
        assert(env.storage@ =~= vault_ledger::debited(old(env).storage@, *user, amount));
    }

    /// `user` withdraws `amount` of its deposit: the token held in `token` pays
    /// it from the vault to `user`.
    pub fn withdraw(
        env: &mut Env<VaultStorage>,
        token: &mut Env<TokenStorage>,
        user: &Address,
        amount: i128,
    ) -> (r: Result<(), VaultError>)
        requires
            old(env).authorizes(*user),
            old(env).storage.token_id matches Some(id) ==> old(token).current_contract == id,
            vault_ledger::begin_withdraw(old(env).storage@, *user, amount) is Ok ==> {
                &&& ledger::transfer(old(token).storage@, old(env).current_contract, *user, amount) is Ok
                &&& ledger::transfer_fits(old(token).storage@, old(env).current_contract, *user, amount)
                &&& vault_ledger::withdraw_fits(old(env).storage@, amount)
            },
        ensures
            final(env).same_context(old(env)),
            final(token).same_context(old(token)),
            match vault_ledger::withdraw(old(env).storage@, old(token).storage@, old(env).current_contract, *user, amount) {
                Ok((w, t)) => r is Ok && final(env).storage@ == w && final(token).storage@ == t,
                Err(e) => r == Err::<(), VaultError>(e) && final(env).storage@ == old(env).storage@
                    && final(token).storage@ == old(token).storage@,
            },
    {
        let call = match DemoVault::begin_withdraw(env, user, amount) {
            Ok(c) => c,
            Err(e) => return Err(e),
        };
        let mut callers: Vec<Address> = Vec::new();
        callers.push(call.from);
        core::mem::swap(&mut token.authorized, &mut callers);
        assert(token.authorized@[0] == call.from);
        let paid = DemoToken::transfer(token, &call.from, &call.to, call.amount);
        core::mem::swap(&mut token.authorized, &mut callers);
        assert(paid is Ok);
        DemoVault::settle_withdraw(env, user, amount);
        Ok(())
    }

    /// Whether recording a deposit of `amount` by `user` stays within `i128`;
    /// a call for which this is false would overflow.
    pub fn deposit_fits(env: &Env<VaultStorage>, user: &Address, amount: i128) -> (r: bool)
        ensures
            r == vault_ledger::deposit_fits(env.storage@, *user, amount),
    {
        let d = env.storage.deposits.get(user).unwrap_or(0);
        let t = env.storage.total_deposited.unwrap_or(0);
        if amount >= 0 {
            d <= i128::MAX - amount && t <= i128::MAX - amount
        } else {
            true
        }
    }

    /// Whether recording a withdrawal of `amount` stays within `i128`; a call
    /// for which this is false would overflow.
    pub fn withdraw_fits(env: &Env<VaultStorage>, amount: i128) -> (r: bool)
        ensures
            r == vault_ledger::withdraw_fits(env.storage@, amount),
    {
        let t = env.storage.total_deposited.unwrap_or(0);
        if amount >= 0 {
            t >= i128::MIN + amount
        } else {
            t <= i128::MAX + amount
        }
    }

    /// What `user` has deposited; zero if nothing.
    pub fn get_deposit(env: &Env<VaultStorage>, user: &Address) -> (r: i128)
        ensures
            r == env.storage@.deposit_of(*user),
    {
        env.storage.deposits.get(user).unwrap_or(0)
    }

    /// The total deposited; zero before initialization.
    pub fn total_deposited(env: &Env<VaultStorage>) -> (r: i128)
        ensures
            r == env.storage@.total(),
    {
        env.storage.total_deposited.unwrap_or(0)
    }
}

} // verus!
