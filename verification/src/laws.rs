//! Properties of the contracts that relate several operations.
use vstd::prelude::*;
use crate::address::Address;
use crate::ledger;
use crate::ledger::{TokenFault, TokenState, lemma_moved, lemma_consistent_move_fits};
use crate::vault_ledger;
use crate::vault_ledger::VaultState;
use crate::demo_token;
use crate::manual_token;
use crate::demo_vault::{InvokeError, VaultError};
use crate::totals::lemma_total_bounds;

verus! {

/// Each token error is found again from its code, and no two token errors share
/// a code; the same holds of both token contracts' errors.
pub proof fn law_token_error_codes(e: demo_token::TokenError, f: manual_token::TokenError, c: u32)
    ensures
        demo_token::TokenError::of_code(e.code_of()) == Some(e),
        demo_token::TokenError::of_code(c) matches Some(e2) ==> e2.code_of() == c,
        manual_token::TokenError::of_code(f.code_of()) == Some(f),
        manual_token::TokenError::of_code(c) matches Some(f2) ==> f2.code_of() == c,
{
}

/// Both token contracts report every failure with the same error code.
pub proof fn law_tokens_report_alike(f: TokenFault)
    ensures
        demo_token::TokenError::of_fault(f).code_of() == manual_token::TokenError::of_fault(f).code_of(),
        demo_token::TokenError::of_fault(f).fault() == f,
        manual_token::TokenError::of_fault(f).fault() == f,
{
}

/// Each vault error is found again from its code, and no two vault errors share
/// a code. The token's errors sit right after the vault's own: the token error
/// with code `k` has the vault code `k + 4`.
pub proof fn law_vault_error_codes(e: VaultError, c: u32)
    ensures
        VaultError::of_code(e.code_of()) == Some(e),
        VaultError::of_code(c) matches Some(e2) ==> e2.code_of() == c,
        e matches VaultError::Token(t) ==> e.code_of() == t.code_of() + 4,
{
}

/// Moving an amount back undoes a transfer: on a consistent ledger, after a
/// transfer from `a` to `b` succeeds, the same transfer from `b` to `a`
/// succeeds and every balance and the supply are as before.
pub proof fn law_transfer_back_restores(s: TokenState, a: Address, b: Address, x: i128)
    requires
        s.consistent(),
        ledger::transfer(s, a, b, x) is Ok,
    ensures
        ({
            let t = ledger::transfer(s, a, b, x).unwrap();
            &&& ledger::transfer_fits(t, b, a, x)
            &&& ledger::transfer(t, b, a, x) matches Ok(u) && {
                &&& forall|c: Address| #[trigger] u.balance(c) == s.balance(c)
                &&& u.supply() == s.supply()
            }
        }),
{
    let t = ledger::transfer(s, a, b, x).unwrap();
    lemma_consistent_move_fits(s, a, b, x);
    lemma_moved(s.balances, a, b, x);
    lemma_total_bounds(s.balances, b, b);
    assert(t.consistent());
    lemma_consistent_move_fits(t, b, a, x);
    lemma_moved(t.balances, b, a, x);
    let u = ledger::transfer(t, b, a, x).unwrap();
    assert forall|c: Address| #[trigger] u.balance(c) == s.balance(c) by {}
}

/// A withdrawal undoes a deposit: for a user whose deposit is not below zero
/// (and, where the user is not the vault itself, a vault whose token balance is
/// not below zero), after a deposit of `x` succeeds, withdrawing `x` passes the vault's
/// checks, the token call it makes succeeds without overflow, and every
/// deposit, the total deposited and every token balance are as before; the
/// allowance the user gave the vault stays used up by `x`.
pub proof fn law_withdraw_undoes_deposit(v: VaultState, t: TokenState, vault: Address, user: Address, x: i128)
    requires
        v.deposit_of(user) >= 0,
        user != vault ==> t.balance(vault) >= 0,
        vault_ledger::deposit_fits(v, user, x),
        vault_ledger::deposit(v, t, vault, user, x) is Ok,
    ensures
        ({
            let (v2, t2) = vault_ledger::deposit(v, t, vault, user, x).unwrap();
            &&& vault_ledger::begin_withdraw(v2, user, x) is Ok
            &&& ledger::transfer(t2, vault, user, x) is Ok
            &&& ledger::transfer_fits(t2, vault, user, x)
            &&& vault_ledger::withdraw_fits(v2, x)
            &&& vault_ledger::withdraw(v2, t2, vault, user, x) matches Ok((v3, t3)) && {
                &&& forall|c: Address| #[trigger] v3.deposit_of(c) == v.deposit_of(c)
                &&& v3.total() == v.total()
                &&& forall|c: Address| #[trigger] t3.balance(c) == t.balance(c)
                &&& t3.supply() == t.supply()
                &&& t3.allowance(user, vault) == t.allowance(user, vault) - x
            }
        }),
{
    let (v2, t2) = vault_ledger::deposit(v, t, vault, user, x).unwrap();
    assert(v2.deposit_of(user) == v.deposit_of(user) + x);
    assert(vault_ledger::begin_withdraw(v2, user, x) is Ok);
    if user != vault {
        assert(t2.balance(vault) == t.balance(vault) + x);
        assert(t2.balance(user) == t.balance(user) - x);
    } else {
        assert(t2.balance(vault) == t.balance(vault));
    }
    let (v3, t3) = vault_ledger::withdraw(v2, t2, vault, user, x).unwrap();
    assert forall|c: Address| #[trigger] v3.deposit_of(c) == v.deposit_of(c) by {
        if c != user {
            assert(v2.deposit_of(c) == v.deposit_of(c));
        }
    }
    assert forall|c: Address| #[trigger] t3.balance(c) == t.balance(c) by {
        if c != user && c != vault {
            assert(t2.balance(c) == t.balance(c));
        }
    }
}

/// The vault stays balanced and solvent: while the total deposited is the sum
/// of the deposits, none below zero, and the vault's token balance covers the
/// total, this still holds after a deposit by a user other than the vault,
/// whatever its result (a failed deposit changes nothing); a withdrawal that
/// passes the vault's checks can be paid by the token, without overflow where
/// the token is consistent, and afterwards the same still holds.
pub proof fn law_vault_stays_solvent(v: VaultState, t: TokenState, vault: Address, user: Address, x: i128)
    requires
        v.balanced(),
        user != vault,
        t.balance(vault) >= v.total(),
        (vault_ledger::begin_deposit(v, x) is Ok
            && ledger::transfer_from_fits(t, vault, user, vault, x)
            && ledger::transfer_from(t, vault, user, vault, x) is Ok)
            ==> vault_ledger::deposit_fits(v, user, x),
    ensures
        vault_ledger::deposit(v, t, vault, user, x) matches Ok((v2, t2)) ==> {
            &&& v2.balanced()
            &&& t2.balance(vault) >= v2.total()
        },
        vault_ledger::begin_withdraw(v, user, x) is Ok ==> {
            &&& ledger::transfer(t, vault, user, x) is Ok
            &&& vault_ledger::withdraw_fits(v, x)
            &&& t.consistent() ==> ledger::transfer_fits(t, vault, user, x)
        },
        vault_ledger::withdraw(v, t, vault, user, x) matches Ok((v2, t2)) ==> {
            &&& v2.balanced()
            &&& t2.balance(vault) >= v2.total()
        },
{
    lemma_total_bounds(v.deposits, user, user);
    if vault_ledger::deposit(v, t, vault, user, x) is Ok {
        let (v2, t2) = vault_ledger::deposit(v, t, vault, user, x).unwrap();
        crate::totals::lemma_total_insert(v.deposits, user, (v.deposit_of(user) + x) as i128);
        assert(t2.balance(vault) == t.balance(vault) + x);
    }
    if vault_ledger::begin_withdraw(v, user, x) is Ok {
        crate::totals::lemma_total_insert(v.deposits, user, (v.deposit_of(user) - x) as i128);
        if t.consistent() {
            lemma_consistent_move_fits(t, vault, user, x);
        }
        let (v2, t2) = vault_ledger::withdraw(v, t, vault, user, x).unwrap();
        assert(t2.balance(vault) == t.balance(vault) - x);
    }
}

/// Only the owner of a balance lowers it, directly or through an allowance it
/// gave: a transfer lowers no balance but that of `from` (whose authorization
/// the call needs); a delegated transfer lowers no balance but that of `from`,
/// by no more than it uses of the allowance `from` gave the spender (whose
/// authorization the call needs), and touches no other allowance; minting,
/// approving and initializing lower no balance.
pub proof fn law_only_owner_lowers_balance(
    s: TokenState,
    spender: Address,
    from: Address,
    to: Address,
    x: i128,
    c: Address,
)
    requires
        s.consistent(),
        ledger::mint_fits(s, to, x),
    ensures
        ledger::transfer(s, from, to, x) matches Ok(t) ==> (c != from ==> t.balance(c) >= s.balance(c)),
        ledger::transfer_from(s, spender, from, to, x) matches Ok(t) ==> {
            &&& c != from ==> t.balance(c) >= s.balance(c)
            &&& s.balance(from) - t.balance(from) <= s.allowance(from, spender) - t.allowance(from, spender)
            &&& forall|o: Address, p: Address| (o, p) != (from, spender) ==> #[trigger] t.allowance(o, p) == s.allowance(o, p)
        },
        ledger::mint(s, to, x) matches Ok(t) ==> t.balance(c) >= s.balance(c),
        ledger::approve(s, from, spender, x) matches Ok(t) ==> t.balance(c) == s.balance(c),
        ledger::initialize(s, from) matches Ok(t) ==> t.balance(c) == s.balance(c),
{
    if x > 0 && s.balance(from) >= x {
        lemma_consistent_move_fits(s, from, to, x);
        lemma_moved(s.balances, from, to, x);
    }
    lemma_total_bounds(s.balances, to, to);
}

/// Reads give back what the operations wrote: after an approval the allowance
/// is the amount approved; after a mint the receiver's balance and the supply
/// have grown by the amount; after a transfer or a delegated transfer between
/// two different addresses the sender has the amount less and the receiver the
/// amount more, the supply is unchanged, and a delegated transfer has used up
/// that much of the allowance.
pub proof fn law_reads_follow_writes(
    s: TokenState,
    spender: Address,
    from: Address,
    to: Address,
    x: i128,
    c: Address,
)
    requires
        s.consistent(),
        ledger::mint_fits(s, to, x),
    ensures
        ledger::approve(s, from, spender, x) matches Ok(t) && t.allowance(from, spender) == x,
        ledger::mint(s, to, x) matches Ok(t) ==> {
            &&& t.balance(to) == s.balance(to) + x
            &&& t.supply() == s.supply() + x
            &&& c != to ==> t.balance(c) == s.balance(c)
        },
        ledger::transfer(s, from, to, x) matches Ok(t) ==> {
            &&& from != to ==> t.balance(from) == s.balance(from) - x
            &&& from != to ==> t.balance(to) == s.balance(to) + x
            &&& c != from && c != to ==> t.balance(c) == s.balance(c)
            &&& t.supply() == s.supply()
        },
        ledger::transfer_from(s, spender, from, to, x) matches Ok(t) ==> {
            &&& from != to ==> t.balance(from) == s.balance(from) - x
            &&& from != to ==> t.balance(to) == s.balance(to) + x
            &&& c != from && c != to ==> t.balance(c) == s.balance(c)
            &&& t.allowance(from, spender) == s.allowance(from, spender) - x
            &&& t.supply() == s.supply()
        },
{
    if x > 0 && s.balance(from) >= x {
        lemma_consistent_move_fits(s, from, to, x);
        lemma_moved(s.balances, from, to, x);
    }
}

/// A deposit moves the tokens: after a deposit of `x` by a user other than the
/// vault succeeds, whatever state the vault and the token were in, the user's token balance is `x` lower, the vault's `x`
/// higher, the user's deposit and the total deposited `x` higher, and the
/// allowance the user gave the vault `x` lower.
pub proof fn law_deposit_moves_tokens(v: VaultState, t: TokenState, vault: Address, user: Address, x: i128)
    requires
        user != vault,
        vault_ledger::deposit_fits(v, user, x),
    ensures
        vault_ledger::deposit(v, t, vault, user, x) matches Ok((v2, t2)) ==> {
            &&& t2.balance(user) == t.balance(user) - x
            &&& t2.balance(vault) == t.balance(vault) + x
            &&& t2.supply() == t.supply()
            &&& t2.allowance(user, vault) == t.allowance(user, vault) - x
            &&& v2.deposit_of(user) == v.deposit_of(user) + x
            &&& v2.total() == v.total() + x
        },
{
    if vault_ledger::deposit(v, t, vault, user, x) is Ok {
        let (v2, t2) = vault_ledger::deposit(v, t, vault, user, x).unwrap();
        assert(t2.balance(vault) == t.balance(vault) + x);
        assert(t2.balance(user) == t.balance(user) - x);
    }
}

/// Two token states agree through the getters: the same admin, and the same
/// balance, allowance and supply for every argument.
pub open spec fn agree(s1: TokenState, s2: TokenState) -> bool {
    &&& s1.admin == s2.admin
    &&& forall|a: Address| #[trigger] s1.balance(a) == s2.balance(a)
    &&& forall|o: Address, p: Address| #[trigger] s1.allowance(o, p) == s2.allowance(o, p)
    &&& s1.supply() == s2.supply()
}

/// Two outcomes agree: both succeed with states that agree through the
/// getters, or both fail for the same reason.
pub open spec fn outcomes_agree(r1: Result<TokenState, TokenFault>, r2: Result<TokenState, TokenFault>) -> bool {
    match (r1, r2) {
        (Ok(t1), Ok(t2)) => agree(t1, t2),
        (Err(f1), Err(f2)) => f1 == f2,
        _ => false,
    }
}

/// The two token contracts do the same thing: `ManualToken` and `DemoToken`
/// settle every operation over the same ledger function, so from states that
/// agree through the getters the same call, with the same authorizations, is
/// accepted by both or by neither, returns the same result (with the same code,
/// by `law_tokens_report_alike`), and leaves states that agree again.
pub proof fn law_tokens_agree(s1: TokenState, s2: TokenState, spender: Address, from: Address, to: Address, amount: i128)
    requires
        agree(s1, s2),
    ensures
        outcomes_agree(ledger::initialize(s1, from), ledger::initialize(s2, from)),
        ledger::mint_fits(s1, to, amount) == ledger::mint_fits(s2, to, amount),
        outcomes_agree(ledger::mint(s1, to, amount), ledger::mint(s2, to, amount)),
        ledger::transfer_fits(s1, from, to, amount) == ledger::transfer_fits(s2, from, to, amount),
        outcomes_agree(ledger::transfer(s1, from, to, amount), ledger::transfer(s2, from, to, amount)),
        outcomes_agree(ledger::approve(s1, from, spender, amount), ledger::approve(s2, from, spender, amount)),
        ledger::transfer_from_fits(s1, spender, from, to, amount) == ledger::transfer_from_fits(s2, spender, from, to, amount),
        outcomes_agree(
            ledger::transfer_from(s1, spender, from, to, amount),
            ledger::transfer_from(s2, spender, from, to, amount),
        ),
{
    assert(s1.balance(from) == s2.balance(from));
    assert(s1.balance(to) == s2.balance(to));
    assert(s1.allowance(from, spender) == s2.allowance(from, spender));
    if ledger::initialize(s1, from) is Ok {
        let t1 = ledger::initialize(s1, from).unwrap();
        let t2 = ledger::initialize(s2, from).unwrap();
        assert forall|a: Address| #[trigger] t1.balance(a) == t2.balance(a) by {
            assert(s1.balance(a) == s2.balance(a));
        }
        assert forall|o: Address, p: Address| #[trigger] t1.allowance(o, p) == t2.allowance(o, p) by {
            assert(s1.allowance(o, p) == s2.allowance(o, p));
        }
    }
    if ledger::mint(s1, to, amount) is Ok {
        let t1 = ledger::mint(s1, to, amount).unwrap();
        let t2 = ledger::mint(s2, to, amount).unwrap();
        assert forall|a: Address| #[trigger] t1.balance(a) == t2.balance(a) by {
            assert(s1.balance(a) == s2.balance(a));
        }
        assert forall|o: Address, p: Address| #[trigger] t1.allowance(o, p) == t2.allowance(o, p) by {
            assert(s1.allowance(o, p) == s2.allowance(o, p));
        }
    }
    if ledger::transfer(s1, from, to, amount) is Ok {
        let t1 = ledger::transfer(s1, from, to, amount).unwrap();
        let t2 = ledger::transfer(s2, from, to, amount).unwrap();
        assert forall|a: Address| #[trigger] t1.balance(a) == t2.balance(a) by {
            assert(s1.balance(a) == s2.balance(a));
        }
        assert forall|o: Address, p: Address| #[trigger] t1.allowance(o, p) == t2.allowance(o, p) by {
            assert(s1.allowance(o, p) == s2.allowance(o, p));
        }
    }
    if ledger::transfer_from(s1, spender, from, to, amount) is Ok {
        let t1 = ledger::transfer_from(s1, spender, from, to, amount).unwrap();
        let t2 = ledger::transfer_from(s2, spender, from, to, amount).unwrap();
        assert forall|a: Address| #[trigger] t1.balance(a) == t2.balance(a) by {
            assert(s1.balance(a) == s2.balance(a));
        }
        assert forall|o: Address, p: Address| #[trigger] t1.allowance(o, p) == t2.allowance(o, p) by {
            assert(s1.allowance(o, p) == s2.allowance(o, p));
        }
    }
    {
        let t1 = ledger::approve(s1, from, spender, amount).unwrap();
        let t2 = ledger::approve(s2, from, spender, amount).unwrap();
        assert forall|a: Address| #[trigger] t1.balance(a) == t2.balance(a) by {
            assert(s1.balance(a) == s2.balance(a));
        }
        assert forall|o: Address, p: Address| #[trigger] t1.allowance(o, p) == t2.allowance(o, p) by {
            assert(s1.allowance(o, p) == s2.allowance(o, p));
        }
    }
}

/// What initializing does: it fails with `AlreadyInitialized` exactly when an
/// admin is set; otherwise it sets the admin and a zero supply and touches no
/// balance or allowance.
pub proof fn law_initialize_behaviour(s: TokenState, admin: Address)
    ensures
        s.admin is Some ==> ledger::initialize(s, admin) == Err::<TokenState, TokenFault>(TokenFault::AlreadyInitialized),
        s.admin is None ==> (ledger::initialize(s, admin) matches Ok(t) && {
            &&& t.admin == Some(admin)
            &&& t.supply() == 0
            &&& forall|c: Address| #[trigger] t.balance(c) == s.balance(c)
            &&& forall|o: Address, p: Address| #[trigger] t.allowance(o, p) == s.allowance(o, p)
        }),
{
}

/// What minting does: before initialization it fails with `NotInitialized`; a
/// non-positive amount fails with `InvalidAmount`; any positive amount that
/// does not overflow succeeds, for every recipient (the admin included) and
/// whatever the recipient already holds, raising the recipient's balance and
/// the supply by the amount and changing nothing else.
pub proof fn law_mint_behaviour(s: TokenState, to: Address, amount: i128)
    ensures
        (s.balance(to) + amount <= i128::MAX && s.supply() + amount <= i128::MAX) ==> ledger::mint_fits(s, to, amount),
        s.admin is None ==> ledger::mint(s, to, amount) == Err::<TokenState, TokenFault>(TokenFault::NotInitialized),
        s.admin is Some && amount <= 0 ==> ledger::mint(s, to, amount) == Err::<TokenState, TokenFault>(TokenFault::InvalidAmount),
        (s.admin is Some && amount > 0 && s.balance(to) + amount <= i128::MAX && s.supply() + amount <= i128::MAX)
            ==> (ledger::mint(s, to, amount) matches Ok(t) && {
            &&& t.balance(to) == s.balance(to) + amount
            &&& t.supply() == s.supply() + amount
            &&& t.admin == s.admin
            &&& forall|c: Address| c != to ==> #[trigger] t.balance(c) == s.balance(c)
            &&& forall|o: Address, p: Address| #[trigger] t.allowance(o, p) == s.allowance(o, p)
        }),
{
}

/// What a transfer does: a non-positive amount fails with `InvalidAmount`; an
/// amount above the sender's balance fails with `InsufficientBalance`; any
/// other amount that does not overflow the receiver succeeds, the whole
/// balance included, moving the amount from `from` to `to` and changing
/// nothing else.
pub proof fn law_transfer_behaviour(s: TokenState, from: Address, to: Address, amount: i128)
    ensures
        (from != to ==> s.balance(to) + amount <= i128::MAX) ==> ledger::transfer_fits(s, from, to, amount),
        amount <= 0 ==> ledger::transfer(s, from, to, amount) == Err::<TokenState, TokenFault>(TokenFault::InvalidAmount),
        amount > 0 && s.balance(from) < amount
            ==> ledger::transfer(s, from, to, amount) == Err::<TokenState, TokenFault>(TokenFault::InsufficientBalance),
        (amount > 0 && amount <= s.balance(from) && (from != to ==> s.balance(to) + amount <= i128::MAX))
            ==> (ledger::transfer(s, from, to, amount) matches Ok(t) && {
            &&& from != to ==> t.balance(from) == s.balance(from) - amount
            &&& from != to ==> t.balance(to) == s.balance(to) + amount
            &&& from == to ==> t.balance(from) == s.balance(from)
            &&& forall|c: Address| c != from && c != to ==> #[trigger] t.balance(c) == s.balance(c)
            &&& t.supply() == s.supply()
            &&& t.admin == s.admin
            &&& forall|o: Address, p: Address| #[trigger] t.allowance(o, p) == s.allowance(o, p)
        }),
{
}

/// What an approval does: it always succeeds, sets what `spender` may move
/// out of `owner`'s balance to the amount, and changes nothing else.
pub proof fn law_approve_behaviour(s: TokenState, owner: Address, spender: Address, amount: i128)
    ensures
        (ledger::approve(s, owner, spender, amount) matches Ok(t) && {
            &&& t.allowance(owner, spender) == amount
            &&& forall|o: Address, p: Address| (o, p) != (owner, spender) ==> #[trigger] t.allowance(o, p) == s.allowance(o, p)
            &&& forall|c: Address| #[trigger] t.balance(c) == s.balance(c)
            &&& t.supply() == s.supply()
            &&& t.admin == s.admin
        }),
{
}

/// What a delegated transfer does: a non-positive amount fails with
/// `InvalidAmount`; an amount above the allowance `from` gave `spender` fails
/// with `InsufficientAllowance`; an amount within it but above `from`'s
/// balance fails with `InsufficientBalance`; any other amount that does not
/// overflow the receiver succeeds, the whole allowance and the whole balance
/// included, moving the amount from `from` to `to`, lowering that allowance by
/// the amount, and changing nothing else.
pub proof fn law_transfer_from_behaviour(s: TokenState, spender: Address, from: Address, to: Address, amount: i128)
    ensures
        (from != to ==> s.balance(to) + amount <= i128::MAX) ==> ledger::transfer_from_fits(s, spender, from, to, amount),
        amount <= 0 ==> ledger::transfer_from(s, spender, from, to, amount) == Err::<TokenState, TokenFault>(TokenFault::InvalidAmount),
        amount > 0 && s.allowance(from, spender) < amount
            ==> ledger::transfer_from(s, spender, from, to, amount) == Err::<TokenState, TokenFault>(TokenFault::InsufficientAllowance),
        amount > 0 && amount <= s.allowance(from, spender) && s.balance(from) < amount
            ==> ledger::transfer_from(s, spender, from, to, amount) == Err::<TokenState, TokenFault>(TokenFault::InsufficientBalance),
        (amount > 0 && amount <= s.allowance(from, spender) && amount <= s.balance(from)
            && (from != to ==> s.balance(to) + amount <= i128::MAX))
            ==> (ledger::transfer_from(s, spender, from, to, amount) matches Ok(t) && {
            &&& from != to ==> t.balance(from) == s.balance(from) - amount
            &&& from != to ==> t.balance(to) == s.balance(to) + amount
            &&& from == to ==> t.balance(from) == s.balance(from)
            &&& forall|c: Address| c != from && c != to ==> #[trigger] t.balance(c) == s.balance(c)
            &&& t.allowance(from, spender) == s.allowance(from, spender) - amount
            &&& forall|o: Address, p: Address| (o, p) != (from, spender) ==> #[trigger] t.allowance(o, p) == s.allowance(o, p)
            &&& t.supply() == s.supply()
            &&& t.admin == s.admin
        }),
{
}

/// What a deposit does, for a user other than the vault: a non-positive
/// amount fails with `InvalidAmount`; a vault with no token fails with
/// `NotInitialized`; otherwise the token's refusal comes through as
/// `Token(InsufficientAllowance)` when the amount is above the allowance the
/// user gave the vault, and as `Token(InsufficientBalance)` when it is above
/// the user's balance; any other amount that overflows nothing succeeds,
/// whatever the user had deposited before: the token moves the amount from
/// the user to the vault out of that allowance, and the user's deposit and
/// the total deposited grow by the amount, no other deposit changing.
pub proof fn law_deposit_behaviour(v: VaultState, t: TokenState, vault: Address, user: Address, amount: i128)
    requires
        user != vault,
    ensures
        amount <= 0 ==> vault_ledger::deposit(v, t, vault, user, amount) == Err::<(VaultState, TokenState), VaultError>(VaultError::InvalidAmount),
        amount > 0 && v.token_id is None
            ==> vault_ledger::deposit(v, t, vault, user, amount) == Err::<(VaultState, TokenState), VaultError>(VaultError::NotInitialized),
        amount > 0 && v.token_id is Some && t.allowance(user, vault) < amount
            ==> vault_ledger::deposit(v, t, vault, user, amount)
                == Err::<(VaultState, TokenState), VaultError>(VaultError::Token(demo_token::TokenError::InsufficientAllowance)),
        amount > 0 && v.token_id is Some && amount <= t.allowance(user, vault) && t.balance(user) < amount
            ==> vault_ledger::deposit(v, t, vault, user, amount)
                == Err::<(VaultState, TokenState), VaultError>(VaultError::Token(demo_token::TokenError::InsufficientBalance)),
        (amount > 0 && v.token_id is Some && amount <= t.allowance(user, vault) && amount <= t.balance(user)
            && t.balance(vault) + amount <= i128::MAX
            && v.deposit_of(user) + amount <= i128::MAX && v.total() + amount <= i128::MAX)
            ==> (vault_ledger::deposit(v, t, vault, user, amount) matches Ok((v2, t2)) && {
            &&& v2.deposit_of(user) == v.deposit_of(user) + amount
            &&& v2.total() == v.total() + amount
            &&& forall|c: Address| c != user ==> #[trigger] v2.deposit_of(c) == v.deposit_of(c)
            &&& v2.token_id == v.token_id && v2.admin == v.admin
            &&& t2.balance(user) == t.balance(user) - amount
            &&& t2.balance(vault) == t.balance(vault) + amount
            &&& forall|c: Address| c != user && c != vault ==> #[trigger] t2.balance(c) == t.balance(c)
            &&& t2.allowance(user, vault) == t.allowance(user, vault) - amount
            &&& t2.supply() == t.supply()
        }),
{
}

/// What a withdrawal does: a non-positive amount fails with `InvalidAmount`;
/// an amount above the user's deposit fails with `InsufficientDeposit`; a
/// vault with no token fails with `NotInitialized`; otherwise, where the vault
/// holds the amount in the token and nothing overflows, it succeeds, the whole
/// deposit included: the user's deposit and the total shrink by the amount,
/// and the token moves it from the vault to the user.
pub proof fn law_withdraw_behaviour(v: VaultState, t: TokenState, vault: Address, user: Address, amount: i128)
    requires
        user != vault,
    ensures
        i128::MIN <= v.total() - amount <= i128::MAX ==> vault_ledger::withdraw_fits(v, amount),
        amount <= 0 ==> vault_ledger::withdraw(v, t, vault, user, amount) == Err::<(VaultState, TokenState), VaultError>(VaultError::InvalidAmount),
        amount > 0 && v.deposit_of(user) < amount
            ==> vault_ledger::withdraw(v, t, vault, user, amount) == Err::<(VaultState, TokenState), VaultError>(VaultError::InsufficientDeposit),
        amount > 0 && amount <= v.deposit_of(user) && v.token_id is None
            ==> vault_ledger::withdraw(v, t, vault, user, amount) == Err::<(VaultState, TokenState), VaultError>(VaultError::NotInitialized),
        (amount > 0 && amount <= v.deposit_of(user) && v.token_id is Some
            && amount <= t.balance(vault) && t.balance(user) + amount <= i128::MAX
            && v.total() - amount >= i128::MIN)
            ==> (vault_ledger::withdraw(v, t, vault, user, amount) matches Ok((v2, t2)) && {
            &&& v2.deposit_of(user) == v.deposit_of(user) - amount
            &&& v2.total() == v.total() - amount
            &&& forall|c: Address| c != user ==> #[trigger] v2.deposit_of(c) == v.deposit_of(c)
            &&& t2.balance(vault) == t.balance(vault) - amount
            &&& t2.balance(user) == t.balance(user) + amount
            &&& forall|c: Address| c != user && c != vault ==> #[trigger] t2.balance(c) == t.balance(c)
        }),
{
}

/// What a failed call into the token becomes in the vault: a token error's
/// own code gives back that token error, any other code `UnknownError`, and an
/// aborted call `Aborted`.
pub proof fn law_call_error_behaviour(e: demo_token::TokenError, c: u32)
    ensures
        vault_ledger::call_error(InvokeError::Contract(e.code_of())) == VaultError::Token(e),
        (forall|t: demo_token::TokenError| t.code_of() != c)
            ==> vault_ledger::call_error(InvokeError::Contract(c)) == VaultError::UnknownError,
        vault_ledger::call_error(InvokeError::Abort) == VaultError::Aborted,
{
    if forall|t: demo_token::TokenError| t.code_of() != c {
        assert(demo_token::TokenError::AlreadyInitialized.code_of() != c);
        assert(demo_token::TokenError::NotInitialized.code_of() != c);
        assert(demo_token::TokenError::InsufficientBalance.code_of() != c);
        assert(demo_token::TokenError::InsufficientAllowance.code_of() != c);
        assert(demo_token::TokenError::InvalidAmount.code_of() != c);
    }
}

/// What initializing the vault does: it fails with `AlreadyInitialized`
/// exactly when an admin is set; otherwise it sets the admin, the token and a
/// zero total, and touches no deposit.
pub proof fn law_vault_initialize_behaviour(v: VaultState, admin: Address, token_id: Address)
    ensures
        v.admin is Some ==> vault_ledger::initialize(v, admin, token_id) == Err::<VaultState, VaultError>(VaultError::AlreadyInitialized),
        v.admin is None ==> (vault_ledger::initialize(v, admin, token_id) matches Ok(w) && {
            &&& w.admin == Some(admin)
            &&& w.token_id == Some(token_id)
            &&& w.total() == 0
            &&& forall|c: Address| #[trigger] w.deposit_of(c) == v.deposit_of(c)
        }),
{
}

/// What recording a deposit does once the token call has returned: a failed
/// call becomes the vault's error; a successful one raises the user's deposit
/// and the total by the amount, whatever the user had deposited before, and
/// changes no other deposit. Recording never overflows where those sums fit.
pub proof fn law_settle_deposit_behaviour(v: VaultState, user: Address, amount: i128, outcome: Result<(), InvokeError>)
    ensures
        (v.deposit_of(user) + amount <= i128::MAX && v.total() + amount <= i128::MAX) ==> vault_ledger::deposit_fits(v, user, amount),
        outcome matches Err(e) ==> vault_ledger::settle_deposit(v, user, amount, outcome) == Err::<VaultState, VaultError>(vault_ledger::call_error(e)),
        (outcome is Ok && i128::MIN <= v.deposit_of(user) + amount <= i128::MAX && i128::MIN <= v.total() + amount <= i128::MAX)
            ==> (vault_ledger::settle_deposit(v, user, amount, outcome) matches Ok(w) && {
            &&& w.deposit_of(user) == v.deposit_of(user) + amount
            &&& w.total() == v.total() + amount
            &&& forall|c: Address| c != user ==> #[trigger] w.deposit_of(c) == v.deposit_of(c)
        }),
{
}

} // verus!
