//! The abstract vault: the token it holds, its admin, a deposit per user and
//! the total deposited, with the effect of each vault operation on it.
use vstd::prelude::*;
use crate::address::Address;
use crate::totals::{amount_or_zero, total, all_nonnegative, lemma_total_insert, lemma_total_empty, lemma_total_bounds};
use crate::ledger;
use crate::ledger::TokenState;
use crate::demo_token::TokenError;
use crate::demo_vault::{InvokeError, VaultError};

verus! {

/// The state of a vault.
#[verifier::ext_equal]
pub struct VaultState {
    pub token_id: Option<Address>,
    pub admin: Option<Address>,
    pub deposits: Map<Address, i128>,
    pub total_deposited: Option<i128>,
}

impl VaultState {
    /// A vault with nothing stored.
    pub open spec fn empty() -> VaultState {
        VaultState { token_id: None, admin: None, deposits: Map::empty(), total_deposited: None }
    }

    /// What `user` has deposited.
    pub open spec fn deposit_of(self, user: Address) -> int {
        amount_or_zero(self.deposits, user)
    }

    /// The total deposited.
    pub open spec fn total(self) -> int {
        match self.total_deposited {
            Some(v) => v as int,
            None => 0,
        }
    }

    /// The total is the sum of the deposits, and no deposit is below zero.
    pub open spec fn balanced(self) -> bool {
        &&& self.deposits.dom().finite()
        &&& all_nonnegative(self.deposits)
        &&& total(self.deposits) == self.total()
    }

    /// The vault is balanced, and before the admin is set there is neither a
    /// token nor anything deposited.
    pub open spec fn consistent(self) -> bool {
        &&& self.balanced()
        &&& self.admin is None ==> self.total() == 0 && self.token_id is None
    }
}

/// Sets the admin, the token and a zero total, once.
pub open spec fn initialize(v: VaultState, admin: Address, token_id: Address) -> Result<VaultState, VaultError> {
    if v.admin is Some {
        Err(VaultError::AlreadyInitialized)
    } else {
        Ok(VaultState { admin: Some(admin), token_id: Some(token_id), total_deposited: Some(0), ..v })
    }
}

/// The checks made before a deposit calls the token: the token to call.
pub open spec fn begin_deposit(v: VaultState, amount: i128) -> Result<Address, VaultError> {
    if amount <= 0 {
        Err(VaultError::InvalidAmount)
    } else if v.token_id is None {
        Err(VaultError::NotInitialized)
    } else {
        Ok(v.token_id.unwrap())
    }
}

/// The error that a failed call into the token becomes.
pub open spec fn call_error(e: InvokeError) -> VaultError {
    match e {
        InvokeError::Contract(c) => match TokenError::of_code(c) {
            Some(t) => VaultError::Token(t),
            None => VaultError::UnknownError,
        },
        InvokeError::Abort => VaultError::Aborted,
    }
}

/// Recording a deposit overflows neither the user's deposit nor the total.
pub open spec fn deposit_fits(v: VaultState, user: Address, amount: i128) -> bool {
    &&& v.deposit_of(user) + amount <= i128::MAX
    &&& v.total() + amount <= i128::MAX
}

/// `v` with `amount` more deposited by `user`.
pub open spec fn credited(v: VaultState, user: Address, amount: i128) -> VaultState {
    VaultState {
        deposits: v.deposits.insert(user, (v.deposit_of(user) + amount) as i128),
        total_deposited: Some((v.total() + amount) as i128),
        ..v
    }
}

/// The outcome of a deposit once the token call has returned `outcome`.
pub open spec fn settle_deposit(v: VaultState, user: Address, amount: i128, outcome: Result<(), InvokeError>) -> Result<VaultState, VaultError> {
    match outcome {
        Ok(()) => Ok(credited(v, user, amount)),
        Err(e) => Err(call_error(e)),
    }
}

/// A deposit of `amount` by `user` into the vault at `vault`, which calls the
/// token with state `t`: the new vault and token states. A token call that
/// would overflow aborts, and the deposit then fails with `Aborted`.
pub open spec fn deposit(v: VaultState, t: TokenState, vault: Address, user: Address, amount: i128) -> Result<(VaultState, TokenState), VaultError> {
    match begin_deposit(v, amount) {
        Err(e) => Err(e),
        Ok(_) => if !ledger::transfer_from_fits(t, vault, user, vault, amount) {
            Err(VaultError::Aborted)
        } else {
            match ledger::transfer_from(t, vault, user, vault, amount) {
                Err(f) => Err(VaultError::Token(TokenError::of_fault(f))),
                Ok(t2) => Ok((credited(v, user, amount), t2)),
            }
        },
    }
}

/// The checks made before a withdrawal calls the token: the token to call.
pub open spec fn begin_withdraw(v: VaultState, user: Address, amount: i128) -> Result<Address, VaultError> {
    if amount <= 0 {
        Err(VaultError::InvalidAmount)
    } else if v.deposit_of(user) < amount {
        Err(VaultError::InsufficientDeposit)
    } else if v.token_id is None {
        Err(VaultError::NotInitialized)
    } else {
        Ok(v.token_id.unwrap())
    }
}

/// Recording a withdrawal keeps the total within `i128`.
pub open spec fn withdraw_fits(v: VaultState, amount: i128) -> bool {
    i128::MIN <= v.total() - amount <= i128::MAX
}

/// `v` with `amount` of `user`'s deposit taken out.
pub open spec fn debited(v: VaultState, user: Address, amount: i128) -> VaultState {
    VaultState {
        deposits: v.deposits.insert(user, (v.deposit_of(user) - amount) as i128),
        total_deposited: Some((v.total() - amount) as i128),
        ..v
    }
}

/// A withdrawal of `amount` by `user` from the vault at `vault`, which has the
/// token with state `t` pay it out: the new vault and token states.
pub open spec fn withdraw(v: VaultState, t: TokenState, vault: Address, user: Address, amount: i128) -> Result<(VaultState, TokenState), VaultError> {
    match begin_withdraw(v, user, amount) {
        Err(e) => Err(e),
        Ok(_) => Ok((debited(v, user, amount), ledger::transfer(t, vault, user, amount).unwrap())),
    }
}

/// Initializing an empty vault gives a consistent one.
pub proof fn law_initialize_consistent(admin: Address, token_id: Address)
    ensures
        initialize(VaultState::empty(), admin, token_id) matches Ok(w) && w.consistent(),
{
    lemma_total_empty::<Address>();
}

/// Every vault operation on a consistent vault leaves it consistent: the total
/// stays the sum of the deposits, and no deposit goes below zero.
pub proof fn law_operations_keep_consistency(
    v: VaultState,
    t: TokenState,
    vault: Address,
    user: Address,
    other: Address,
    amount: i128,
    outcome: Result<(), InvokeError>,
)
    requires
        v.consistent(),
        deposit_fits(v, user, amount),
    ensures
        initialize(v, user, other) matches Ok(w) ==> w.consistent(),
        begin_deposit(v, amount) is Ok ==> (settle_deposit(v, user, amount, outcome) matches Ok(w) ==> w.consistent()),
        deposit(v, t, vault, user, amount) matches Ok((w, _)) ==> w.consistent(),
        withdraw(v, t, vault, user, amount) matches Ok((w, _)) ==> w.consistent(),
        begin_withdraw(v, user, amount) is Ok ==> withdraw_fits(v, amount),
{
    lemma_total_bounds(v.deposits, user, user);
    if amount > 0 {
        lemma_total_insert(v.deposits, user, (v.deposit_of(user) + amount) as i128);
        if v.deposit_of(user) >= amount {
            lemma_total_insert(v.deposits, user, (v.deposit_of(user) - amount) as i128);
        }
    }
}

} // verus!
