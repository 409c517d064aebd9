//! The abstract token ledger: an admin, a balance per address, an allowance per
//! (owner, spender) pair and a total supply, with the effect of each token
//! operation on it.
//!
//! A missing balance or allowance reads as zero, and a missing supply as zero.
//! A failed operation changes nothing.
use vstd::prelude::*;
use crate::address::Address;
use crate::totals::{amount_or_zero, total, all_nonnegative, lemma_total_insert, lemma_total_bounds, lemma_total_empty};

verus! {

/// Why a token operation fails.
#[derive(Clone, Copy, Debug, PartialEq, Eq, Structural)]
pub enum TokenFault {
    AlreadyInitialized,
    NotInitialized,
    InsufficientBalance,
    InsufficientAllowance,
    InvalidAmount,
}

/// The state of a token contract.
#[verifier::ext_equal]
pub struct TokenState {
    pub admin: Option<Address>,
    pub balances: Map<Address, i128>,
    pub allowances: Map<(Address, Address), i128>,
    pub total_supply: Option<i128>,
}

impl TokenState {
    /// A ledger with nothing stored.
    pub open spec fn empty() -> TokenState {
        TokenState {
            admin: None,
            balances: Map::empty(),
            allowances: Map::empty(),
            total_supply: None,
        }
    }

    /// The balance of `a`.
    pub open spec fn balance(self, a: Address) -> int {
        amount_or_zero(self.balances, a)
    }

    /// What `spender` may still move out of `owner`'s balance.
    pub open spec fn allowance(self, owner: Address, spender: Address) -> int {
        amount_or_zero(self.allowances, (owner, spender))
    }

    /// The total supply.
    pub open spec fn supply(self) -> int {
        match self.total_supply {
            Some(v) => v as int,
            None => 0,
        }
    }

    /// The supply is the sum of the balances, no balance is below zero, and
    /// before the admin is set there is no supply.
    pub open spec fn consistent(self) -> bool {
        &&& self.balances.dom().finite()
        &&& all_nonnegative(self.balances)
        &&& total(self.balances) == self.supply()
        &&& self.admin is None ==> self.supply() == 0
    }
}

/// `balances` with `amount` moved from `from` to `to`: first `from` is debited,
/// then `to` is credited on what it then holds.
pub open spec fn moved(balances: Map<Address, i128>, from: Address, to: Address, amount: i128) -> Map<Address, i128> {
    let debited = balances.insert(from, (amount_or_zero(balances, from) - amount) as i128);
    debited.insert(to, (amount_or_zero(debited, to) + amount) as i128)
}

/// Crediting `to` after debiting `from` stays within `i128`.
pub open spec fn move_fits(balances: Map<Address, i128>, from: Address, to: Address, amount: i128) -> bool {
    let debited = balances.insert(from, (amount_or_zero(balances, from) - amount) as i128);
    amount_or_zero(debited, to) + amount <= i128::MAX
}

/// Sets the admin and a zero supply, once.
pub open spec fn initialize(s: TokenState, admin: Address) -> Result<TokenState, TokenFault> {
    if s.admin is Some {
        Err(TokenFault::AlreadyInitialized)
    } else {
        Ok(TokenState { admin: Some(admin), total_supply: Some(0), ..s })
    }
}

/// Minting neither overflows the balance of `to` nor the supply.
pub open spec fn mint_fits(s: TokenState, to: Address, amount: i128) -> bool {
    (s.admin is Some && amount > 0) ==> {
        &&& s.balance(to) + amount <= i128::MAX
        &&& s.supply() + amount <= i128::MAX
    }
}

/// Creates `amount` new tokens for `to`.
pub open spec fn mint(s: TokenState, to: Address, amount: i128) -> Result<TokenState, TokenFault> {
    if s.admin is None {
        Err(TokenFault::NotInitialized)
    } else if amount <= 0 {
        Err(TokenFault::InvalidAmount)
    } else {
        Ok(TokenState {
            balances: s.balances.insert(to, (s.balance(to) + amount) as i128),
            total_supply: Some((s.supply() + amount) as i128),
            ..s
        })
    }
}

/// A transfer that passes its checks does not overflow the receiver.
pub open spec fn transfer_fits(s: TokenState, from: Address, to: Address, amount: i128) -> bool {
    (amount > 0 && s.balance(from) >= amount) ==> move_fits(s.balances, from, to, amount)
}

/// Moves `amount` from `from` to `to`.
pub open spec fn transfer(s: TokenState, from: Address, to: Address, amount: i128) -> Result<TokenState, TokenFault> {
    if amount <= 0 {
        Err(TokenFault::InvalidAmount)
    } else if s.balance(from) < amount {
        Err(TokenFault::InsufficientBalance)
    } else {
        Ok(TokenState { balances: moved(s.balances, from, to, amount), ..s })
    }
}

/// Sets what `spender` may move out of `owner`'s balance; any amount is taken.
pub open spec fn approve(s: TokenState, owner: Address, spender: Address, amount: i128) -> Result<TokenState, TokenFault> {
    Ok(TokenState { allowances: s.allowances.insert((owner, spender), amount), ..s })
}

/// A delegated transfer that passes its checks does not overflow the receiver.
pub open spec fn transfer_from_fits(s: TokenState, spender: Address, from: Address, to: Address, amount: i128) -> bool {
    (amount > 0 && s.allowance(from, spender) >= amount && s.balance(from) >= amount)
        ==> move_fits(s.balances, from, to, amount)
}

/// `spender` moves `amount` from `from` to `to`, using up that much of the
/// allowance `from` gave it.
pub open spec fn transfer_from(s: TokenState, spender: Address, from: Address, to: Address, amount: i128) -> Result<TokenState, TokenFault> {
    if amount <= 0 {
        Err(TokenFault::InvalidAmount)
    } else if s.allowance(from, spender) < amount {
        Err(TokenFault::InsufficientAllowance)
    } else if s.balance(from) < amount {
        Err(TokenFault::InsufficientBalance)
    } else {
        Ok(TokenState {
            allowances: s.allowances.insert((from, spender), (s.allowance(from, spender) - amount) as i128),
            balances: moved(s.balances, from, to, amount),
            ..s
        })
    }
}

/// Moving an amount between balances keeps their total, keeps them at least
/// zero when the debited balance covers it, and gives the expected balances.
pub proof fn lemma_moved(balances: Map<Address, i128>, from: Address, to: Address, amount: i128)
    requires
        balances.dom().finite(),
        all_nonnegative(balances),
        amount > 0,
        amount_or_zero(balances, from) >= amount,
        move_fits(balances, from, to, amount),
    ensures
        moved(balances, from, to, amount).dom().finite(),
        all_nonnegative(moved(balances, from, to, amount)),
        total(moved(balances, from, to, amount)) == total(balances),
        forall|a: Address| a != from && a != to ==>
            amount_or_zero(#[trigger] moved(balances, from, to, amount), a) == amount_or_zero(balances, a),
        from != to ==> amount_or_zero(moved(balances, from, to, amount), from) == amount_or_zero(balances, from) - amount,
        from != to ==> amount_or_zero(moved(balances, from, to, amount), to) == amount_or_zero(balances, to) + amount,
        from == to ==> amount_or_zero(moved(balances, from, to, amount), to) == amount_or_zero(balances, to),
{
    let debited = balances.insert(from, (amount_or_zero(balances, from) - amount) as i128);
    lemma_total_insert(balances, from, (amount_or_zero(balances, from) - amount) as i128);
    lemma_total_insert(debited, to, (amount_or_zero(debited, to) + amount) as i128);
}

/// Initializing an empty ledger gives a consistent one.
pub proof fn law_initialize_consistent(admin: Address)
    ensures
        initialize(TokenState::empty(), admin) matches Ok(t) && t.consistent(),
{
    lemma_total_empty::<Address>();
}

/// Every token operation on a consistent ledger leaves it consistent: the supply
/// stays the sum of the balances, and no balance goes below zero. A mint is
/// covered where it does not overflow; an operation that fails leaves the
/// ledger as it was, and so consistent too.
pub proof fn law_operations_keep_consistency(s: TokenState, a: Address, b: Address, c: Address, amount: i128)
    requires
        s.consistent(),
    ensures
        initialize(s, a) matches Ok(t) ==> t.consistent(),
        mint_fits(s, a, amount) ==> (mint(s, a, amount) matches Ok(t) ==> t.consistent()),
        transfer(s, a, b, amount) matches Ok(t) ==> t.consistent(),
        approve(s, a, b, amount) matches Ok(t) ==> t.consistent(),
        transfer_from(s, a, b, c, amount) matches Ok(t) ==> t.consistent(),
{
    if s.admin is Some && amount > 0 && mint_fits(s, a, amount) {
        lemma_total_insert(s.balances, a, (s.balance(a) + amount) as i128);
    }
    if amount > 0 && s.balance(a) >= amount {
        lemma_consistent_move_fits(s, a, b, amount);
        lemma_moved(s.balances, a, b, amount);
    }
    if amount > 0 && s.balance(b) >= amount {
        lemma_consistent_move_fits(s, b, c, amount);
        lemma_moved(s.balances, b, c, amount);
    }
}

/// In a consistent ledger, moving a covered amount never overflows the receiver.
pub proof fn lemma_consistent_move_fits(s: TokenState, from: Address, to: Address, amount: i128)
    requires
        s.consistent(),
        amount > 0,
        s.balance(from) >= amount,
    ensures
        move_fits(s.balances, from, to, amount),
        transfer_fits(s, from, to, amount),
        forall|spender: Address| transfer_from_fits(s, spender, from, to, amount),
{
    lemma_total_bounds(s.balances, from, to);
}

} // verus!
