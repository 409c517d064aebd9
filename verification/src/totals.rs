//! Totals of the amounts held in a finite map, and how they change when one
//! entry is written.
use vstd::prelude::*;

verus! {

/// The sum of `m[k]` over the keys `k` in `keys`.
pub open spec fn sum_over<K>(keys: Set<K>, m: Map<K, i128>) -> int
    decreases keys.len(),
    when keys.finite()
{
    if keys.len() == 0 {
        0
    } else {
        proof {
            vstd::set_lib::lemma_set_empty_equivalency_len(keys);
        }
        let k = keys.choose();
        m[k] + sum_over(keys.remove(k), m)
    }
}

/// The sum of all amounts held in `m`.
pub open spec fn total<K>(m: Map<K, i128>) -> int {
    sum_over(m.dom(), m)
}

/// The amount held under `k`, reading a missing key as zero.
pub open spec fn amount_or_zero<K>(m: Map<K, i128>, k: K) -> int {
    if m.contains_key(k) { m[k] as int } else { 0 }
}

/// Every amount held in `m` is at least zero.
pub open spec fn all_nonnegative<K>(m: Map<K, i128>) -> bool {
    forall|k: K| #[trigger] m.contains_key(k) ==> m[k] >= 0
}

/// Any held key can be taken out of the sum first.
pub proof fn lemma_sum_remove<K>(keys: Set<K>, m: Map<K, i128>, k: K)
    requires
        keys.finite(),
        keys.contains(k),
    ensures
        sum_over(keys, m) == m[k] + sum_over(keys.remove(k), m),
    decreases keys.len(),
{
    vstd::set_lib::lemma_set_empty_equivalency_len(keys);
    let c = keys.choose();
    if c != k {
        lemma_sum_remove(keys.remove(c), m, k);
        lemma_sum_remove(keys.remove(k), m, c);
        assert(keys.remove(c).remove(k) =~= keys.remove(k).remove(c));
    }
}

/// Sums over the same keys agree where the maps agree on those keys.
pub proof fn lemma_sum_agree<K>(keys: Set<K>, m1: Map<K, i128>, m2: Map<K, i128>)
    requires
        keys.finite(),
        forall|k: K| #[trigger] keys.contains(k) ==> m1[k] == m2[k],
    ensures
        sum_over(keys, m1) == sum_over(keys, m2),
    decreases keys.len(),
{
    if keys.len() != 0 {
        vstd::set_lib::lemma_set_empty_equivalency_len(keys);
        let c = keys.choose();
        lemma_sum_agree(keys.remove(c), m1, m2);
    }
}

/// The sum of amounts that are all at least zero is at least zero.
pub proof fn lemma_sum_nonnegative<K>(keys: Set<K>, m: Map<K, i128>)
    requires
        keys.finite(),
        forall|k: K| #[trigger] keys.contains(k) ==> m[k] >= 0,
    ensures
        sum_over(keys, m) >= 0,
    decreases keys.len(),
{
    if keys.len() != 0 {
        vstd::set_lib::lemma_set_empty_equivalency_len(keys);
        let c = keys.choose();
        lemma_sum_nonnegative(keys.remove(c), m);
    }
}

/// The total of an empty map is zero.
pub proof fn lemma_total_empty<K>()
    ensures
        total(Map::<K, i128>::empty()) == 0,
{
    assert(Map::<K, i128>::empty().dom() =~= Set::<K>::empty());
}

/// Writing `v` under `k` changes the total by `v` less what `k` held before.
pub proof fn lemma_total_insert<K>(m: Map<K, i128>, k: K, v: i128)
    requires
        m.dom().finite(),
    ensures
        total(m.insert(k, v)) == total(m) - amount_or_zero(m, k) + v,
{
    let m2 = m.insert(k, v);
    let rest = m.dom().remove(k);
    assert(m2.dom().remove(k) =~= rest);
    lemma_sum_remove(m2.dom(), m2, k);
    lemma_sum_agree(rest, m2, m);
    if m.contains_key(k) {
        lemma_sum_remove(m.dom(), m, k);
    } else {
        assert(rest =~= m.dom());
    }
}

/// In a map of amounts at least zero, the total is at least any one amount,
/// and at least the sum of the amounts under two different keys.
pub proof fn lemma_total_bounds<K>(m: Map<K, i128>, a: K, b: K)
    requires
        m.dom().finite(),
        all_nonnegative(m),
    ensures
        total(m) >= amount_or_zero(m, a),
        a != b ==> total(m) >= amount_or_zero(m, a) + amount_or_zero(m, b),
{
    lemma_sum_nonnegative(m.dom(), m);
    if m.contains_key(a) {
        lemma_sum_remove(m.dom(), m, a);
        lemma_sum_nonnegative(m.dom().remove(a), m);
        if a != b && m.contains_key(b) {
            lemma_sum_remove(m.dom().remove(a), m, b);
            lemma_sum_nonnegative(m.dom().remove(a).remove(b), m);
        }
    } else if m.contains_key(b) {
        lemma_sum_remove(m.dom(), m, b);
        lemma_sum_nonnegative(m.dom().remove(b), m);
    }
}

} // verus!
