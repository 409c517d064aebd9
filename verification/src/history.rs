//! Sequences of token calls. A call that fails with an error leaves the ledger
//! as it was, and so does a call that would overflow: it panics and the host
//! rolls it back. So any sequence of calls on the token contracts, whatever
//! their results, takes the ledger from `s` to `run(s, calls)`.
use vstd::prelude::*;
use crate::address::Address;
use crate::ledger;
use crate::ledger::{TokenFault, TokenState, lemma_moved, lemma_consistent_move_fits, law_operations_keep_consistency};

verus! {

/// One call on a token contract, with its arguments.
#[derive(Clone, Copy, Debug)]
pub enum TokenCall {
    Initialize { admin: Address },
    Mint { to: Address, amount: i128 },
    Transfer { from: Address, to: Address, amount: i128 },
    Approve { owner: Address, spender: Address, amount: i128 },
    TransferFrom { spender: Address, from: Address, to: Address, amount: i128 },
}

/// The outcome of call `c` on ledger `s`.
pub open spec fn apply(s: TokenState, c: TokenCall) -> Result<TokenState, TokenFault> {
    match c {
        TokenCall::Initialize { admin } => ledger::initialize(s, admin),
        TokenCall::Mint { to, amount } => ledger::mint(s, to, amount),
        TokenCall::Transfer { from, to, amount } => ledger::transfer(s, from, to, amount),
        TokenCall::Approve { owner, spender, amount } => ledger::approve(s, owner, spender, amount),
        TokenCall::TransferFrom { spender, from, to, amount } => ledger::transfer_from(s, spender, from, to, amount),
    }
}

/// Call `c` on `s` does not overflow.
pub open spec fn call_fits(s: TokenState, c: TokenCall) -> bool {
    match c {
        TokenCall::Mint { to, amount } => ledger::mint_fits(s, to, amount),
        TokenCall::Transfer { from, to, amount } => ledger::transfer_fits(s, from, to, amount),
        TokenCall::TransferFrom { spender, from, to, amount } => ledger::transfer_from_fits(s, spender, from, to, amount),
        _ => true,
    }
}

/// Call `c` on `s` succeeds: it does not overflow and returns no error.
pub open spec fn succeeds(s: TokenState, c: TokenCall) -> bool {
    call_fits(s, c) && apply(s, c) is Ok
}

/// The ledger after call `c`: the new ledger if it succeeds, `s` if it fails
/// or would overflow.
pub open spec fn after(s: TokenState, c: TokenCall) -> TokenState {
    if succeeds(s, c) {
        apply(s, c).unwrap()
    } else {
        s
    }
}

/// The ledger after the calls `calls`, in order.
pub open spec fn run(s: TokenState, calls: Seq<TokenCall>) -> TokenState
    decreases calls.len(),
{
    if calls.len() == 0 {
        s
    } else {
        after(run(s, calls.drop_last()), calls.last())
    }
}

/// The sum of the amounts of the mints in the sequence that succeed.
pub open spec fn minted(s: TokenState, calls: Seq<TokenCall>) -> int
    decreases calls.len(),
{
    if calls.len() == 0 {
        0
    } else {
        let before = run(s, calls.drop_last());
        minted(s, calls.drop_last()) + match calls.last() {
            TokenCall::Mint { to, amount } => if succeeds(before, calls.last()) { amount as int } else { 0 },
            _ => 0,
        }
    }
}

/// Call `c` on `s` succeeds and credits `a`: a mint to `a`, or a transfer or
/// delegated transfer to `a`.
pub open spec fn credits(s: TokenState, c: TokenCall, a: Address) -> bool {
    &&& succeeds(s, c)
    &&& match c {
        TokenCall::Mint { to, .. } => to == a,
        TokenCall::Transfer { to, .. } => to == a,
        TokenCall::TransferFrom { to, .. } => to == a,
        _ => false,
    }
}

/// Some call of the sequence credits `a`.
pub open spec fn credited(s: TokenState, calls: Seq<TokenCall>, a: Address) -> bool
    decreases calls.len(),
{
    if calls.len() == 0 {
        false
    } else {
        credited(s, calls.drop_last(), a) || credits(run(s, calls.drop_last()), calls.last(), a)
    }
}

/// The sum of the amounts that `spender` moved out of `owner`'s balance by
/// successful delegated transfers in the sequence.
pub open spec fn spent(s: TokenState, calls: Seq<TokenCall>, owner: Address, spender: Address) -> int
    decreases calls.len(),
{
    if calls.len() == 0 {
        0
    } else {
        let before = run(s, calls.drop_last());
        spent(s, calls.drop_last(), owner, spender) + match calls.last() {
            TokenCall::TransferFrom { spender: sp, from, amount, .. } =>
                if sp == spender && from == owner && succeeds(before, calls.last()) { amount as int } else { 0 },
            _ => 0,
        }
    }
}

/// Call `c` is an approval by `owner` for `spender`.
pub open spec fn is_approval(c: TokenCall, owner: Address, spender: Address) -> bool {
    match c {
        TokenCall::Approve { owner: o, spender: sp, .. } => o == owner && sp == spender,
        _ => false,
    }
}

/// Some call of the sequence is an approval by `owner` for `spender`.
pub open spec fn approves(calls: Seq<TokenCall>, owner: Address, spender: Address) -> bool {
    exists|i: int| 0 <= i < calls.len() && is_approval(#[trigger] calls[i], owner, spender)
}

/// Running two sequences one after the other is running them joined.
pub proof fn lemma_run_append(s: TokenState, a: Seq<TokenCall>, b: Seq<TokenCall>)
    ensures
        run(s, a + b) == run(run(s, a), b),
    decreases b.len(),
{
    if b.len() == 0 {
        assert(a + b =~= a);
    } else {
        assert((a + b).drop_last() =~= a + b.drop_last());
        assert((a + b).last() == b.last());
        lemma_run_append(s, a, b.drop_last());
    }
}

/// Any one call, whatever its result, leaves a consistent ledger consistent.
pub proof fn law_every_call_keeps_consistency(s: TokenState, c: TokenCall)
    requires
        s.consistent(),
    ensures
        after(s, c).consistent(),
{
    law_supply_follows_mints(s, seq![c]);
    assert(seq![c].drop_last() =~= Seq::<TokenCall>::empty());
}

/// Over any sequence of calls, whatever their results, starting from a consistent
/// ledger, the ledger stays consistent (the supply is the sum of the balances,
/// no balance below zero) and the supply grows by exactly the amounts of the
/// successful mints.
pub proof fn law_supply_follows_mints(s: TokenState, calls: Seq<TokenCall>)
    requires
        s.consistent(),
    ensures
        run(s, calls).consistent(),
        run(s, calls).supply() == s.supply() + minted(s, calls),
    decreases calls.len(),
{
    if calls.len() > 0 {
        let pre = calls.drop_last();
        law_supply_follows_mints(s, pre);
        let p = run(s, pre);
        match calls.last() {
            TokenCall::Initialize { admin } => {
                law_operations_keep_consistency(p, admin, admin, admin, 0);
            },
            TokenCall::Mint { to, amount } => {
                law_operations_keep_consistency(p, to, to, to, amount);
            },
            TokenCall::Transfer { from, to, amount } => {
                law_operations_keep_consistency(p, from, to, to, 0);
                if amount > 0 && p.balance(from) >= amount {
                    lemma_consistent_move_fits(p, from, to, amount);
                    lemma_moved(p.balances, from, to, amount);
                }
            },
            TokenCall::Approve { owner, spender, amount } => {
                law_operations_keep_consistency(p, owner, spender, spender, 0);
            },
            TokenCall::TransferFrom { spender, from, to, amount } => {
                if amount > 0 && p.balance(from) >= amount {
                    lemma_consistent_move_fits(p, from, to, amount);
                    lemma_moved(p.balances, from, to, amount);
                }
            },
        }
    }
}

/// On a fresh token, after any sequence of calls, whatever their results, the supply
/// is the sum of the balances and the sum of the successful mints, and no
/// balance is below zero.
pub proof fn law_fresh_supply_is_minted(calls: Seq<TokenCall>)
    requires
    ensures
        run(TokenState::empty(), calls).consistent(),
        run(TokenState::empty(), calls).supply() == minted(TokenState::empty(), calls),
{
    crate::totals::lemma_total_empty::<Address>();
    law_supply_follows_mints(TokenState::empty(), calls);
}

/// Over any sequence of calls, whatever their results, starting from a consistent
/// ledger, a balance that no call credits never grows.
pub proof fn law_uncredited_balance_never_grows(s: TokenState, calls: Seq<TokenCall>, a: Address)
    requires
        s.consistent(),
        !credited(s, calls, a),
    ensures
        0 <= run(s, calls).balance(a) <= s.balance(a),
    decreases calls.len(),
{
    if calls.len() > 0 {
        let pre = calls.drop_last();
        law_uncredited_balance_never_grows(s, pre, a);
        law_supply_follows_mints(s, pre);
        let p = run(s, pre);
        law_supply_follows_mints(s, calls);
        crate::totals::lemma_total_bounds(run(s, calls).balances, a, a);
        match calls.last() {
            TokenCall::Transfer { from, to, amount } => {
                if amount > 0 && p.balance(from) >= amount {
                    lemma_consistent_move_fits(p, from, to, amount);
                    lemma_moved(p.balances, from, to, amount);
                }
            },
            TokenCall::TransferFrom { spender, from, to, amount } => {
                if amount > 0 && p.balance(from) >= amount {
                    lemma_consistent_move_fits(p, from, to, amount);
                    lemma_moved(p.balances, from, to, amount);
                }
            },
            _ => {},
        }
    }
}

/// On a fresh token, after any sequence of calls, whatever their results, an address
/// that no call credited has balance zero.
pub proof fn law_fresh_uncredited_balance_is_zero(calls: Seq<TokenCall>, a: Address)
    requires
        !credited(TokenState::empty(), calls, a),
    ensures
        run(TokenState::empty(), calls).balance(a) == 0,
{
    crate::totals::lemma_total_empty::<Address>();
    law_uncredited_balance_never_grows(TokenState::empty(), calls, a);
}

/// Over any sequence of calls with no approval by `owner` for `spender`, that
/// allowance goes down by exactly what `spender` moved out of `owner`'s balance
/// in successful delegated transfers.
pub proof fn law_allowance_follows_spending(s: TokenState, calls: Seq<TokenCall>, owner: Address, spender: Address)
    requires
        !approves(calls, owner, spender),
    ensures
        run(s, calls).allowance(owner, spender) == s.allowance(owner, spender) - spent(s, calls, owner, spender),
    decreases calls.len(),
{
    if calls.len() > 0 {
        let pre = calls.drop_last();
        assert(!approves(pre, owner, spender)) by {
            if approves(pre, owner, spender) {
                let i = choose|i: int| 0 <= i < pre.len() && is_approval(#[trigger] pre[i], owner, spender);
                assert(calls[i] == pre[i]);
            }
        }
        law_allowance_follows_spending(s, pre, owner, spender);
        let last_index = calls.len() - 1;
        assert(calls[last_index] == calls.last());
    }
}

/// After the last approval by `owner` for `spender`, of amount `x`, at
/// position `j`, the allowance is `x` less what `spender` moved out of
/// `owner`'s balance in successful delegated transfers since.
pub proof fn law_allowance_after_last_approval(
    s: TokenState,
    calls: Seq<TokenCall>,
    j: int,
    owner: Address,
    spender: Address,
    x: i128,
)
    requires
        0 <= j < calls.len(),
        calls[j] == (TokenCall::Approve { owner, spender, amount: x }),
        !approves(calls.skip(j + 1), owner, spender),
    ensures
        run(s, calls).allowance(owner, spender)
            == x - spent(run(s, calls.take(j + 1)), calls.skip(j + 1), owner, spender),
{
    let head = calls.take(j + 1);
    let tail = calls.skip(j + 1);
    assert(head + tail =~= calls);
    lemma_run_append(s, head, tail);
    assert(head.drop_last() =~= calls.take(j));
    assert(head.last() == calls[j]);
    law_allowance_follows_spending(run(s, head), tail, owner, spender);
}

/// Over any sequence of calls with no approval by `owner` for `spender`, an
/// allowance of zero stays zero and nothing is moved through it.
pub proof fn law_unapproved_allowance_stays_zero(s: TokenState, calls: Seq<TokenCall>, owner: Address, spender: Address)
    requires
        s.allowance(owner, spender) == 0,
        !approves(calls, owner, spender),
    ensures
        run(s, calls).allowance(owner, spender) == 0,
        spent(s, calls, owner, spender) == 0,
    decreases calls.len(),
{
    if calls.len() > 0 {
        let pre = calls.drop_last();
        assert(!approves(pre, owner, spender)) by {
            if approves(pre, owner, spender) {
                let i = choose|i: int| 0 <= i < pre.len() && is_approval(#[trigger] pre[i], owner, spender);
                assert(calls[i] == pre[i]);
            }
        }
        law_unapproved_allowance_stays_zero(s, pre, owner, spender);
        law_allowance_follows_spending(s, calls, owner, spender);
    }
}

/// On a fresh token, an allowance that no call approved reads zero.
pub proof fn law_fresh_unapproved_allowance_is_zero(calls: Seq<TokenCall>, owner: Address, spender: Address)
    requires
        !approves(calls, owner, spender),
    ensures
        run(TokenState::empty(), calls).allowance(owner, spender) == 0,
{
    law_unapproved_allowance_stays_zero(TokenState::empty(), calls, owner, spender);
}

} // verus!
