//! Amounts kept under keys in a list, where a key that is not listed holds
//! zero and the entry nearest the end speaks for its key.

use crate::uint::U256;
use vstd::prelude::*;

verus! {

/// The amount that the list holds under `key`.
pub open spec fn lookup<K>(entries: Seq<(K, U256)>, key: K) -> nat
    decreases entries.len(),
{
    if entries.len() == 0 {
        0
    } else if entries.last().0 == key {
        entries.last().1@
    } else {
        lookup(entries.drop_last(), key)
    }
}

/// The list as a map that is defined on every key.
pub open spec fn contents<K>(entries: Seq<(K, U256)>) -> Map<K, nat> {
    Map::total(|key: K| lookup(entries, key))
}

/// The keys under which the map holds more than zero.
pub open spec fn support<K>(amounts: Map<K, nat>) -> Set<K> {
    Set::new(|key: K| amounts[key] > 0)
}

/// A key that no entry carries holds zero.
pub proof fn lemma_lookup_absent<K>(entries: Seq<(K, U256)>, key: K)
    requires
        forall|j: int| 0 <= j < entries.len() ==> entries[j].0 != key,
    ensures
        lookup(entries, key) == 0,
    decreases entries.len(),
{
    if entries.len() > 0 {
        lemma_lookup_absent(entries.drop_last(), key);
    }
}

/// The last entry that carries a key gives the amount under that key.
pub proof fn lemma_lookup_found<K>(entries: Seq<(K, U256)>, at: int, key: K)
    requires
        0 <= at < entries.len(),
        entries[at].0 == key,
        forall|j: int| at < j < entries.len() ==> entries[j].0 != key,
    ensures
        lookup(entries, key) == entries[at].1@,
    decreases entries.len(),
{
    if at < entries.len() - 1 {
        lemma_lookup_found(entries.drop_last(), at, key);
    }
}

/// Replacing the last entry that carries a key changes the amount under that
/// key and under no other.
pub proof fn lemma_lookup_replace<K>(entries: Seq<(K, U256)>, at: int, key: K, amount: U256)
    requires
        0 <= at < entries.len(),
        entries[at].0 == key,
        forall|j: int| at < j < entries.len() ==> entries[j].0 != key,
    ensures
        contents(entries.update(at, (key, amount))) == contents(entries).insert(key, amount@),
{
    let after = entries.update(at, (key, amount));
    assert forall|other: K| lookup(after, other) == if other == key {
        amount@
    } else {
        lookup(entries, other)
    } by {
        lemma_lookup_replace_at(entries, at, key, amount, other);
    }
    assert(contents(after) =~= contents(entries).insert(key, amount@));
}

proof fn lemma_lookup_replace_at<K>(
    entries: Seq<(K, U256)>,
    at: int,
    key: K,
    amount: U256,
    other: K,
)
    requires
        0 <= at < entries.len(),
        entries[at].0 == key,
        forall|j: int| at < j < entries.len() ==> entries[j].0 != key,
    ensures
        lookup(entries.update(at, (key, amount)), other) == if other == key {
            amount@
        } else {
            lookup(entries, other)
        },
    decreases entries.len(),
{
    let after = entries.update(at, (key, amount));
    if at == entries.len() - 1 {
        assert(after.drop_last() =~= entries.drop_last());
    } else {
        assert(after.drop_last() =~= entries.drop_last().update(at, (key, amount)));
        lemma_lookup_replace_at(entries.drop_last(), at, key, amount, other);
    }
}

/// A new entry at the end changes the amount under its key and under no
/// other.
pub proof fn lemma_lookup_push<K>(entries: Seq<(K, U256)>, key: K, amount: U256)
    ensures
        contents(entries.push((key, amount))) == contents(entries).insert(key, amount@),
{
    let after = entries.push((key, amount));
    assert(after.drop_last() =~= entries);
    assert(contents(after) =~= contents(entries).insert(key, amount@));
}

/// A list holds more than zero under finitely many keys.
pub proof fn lemma_support_finite<K>(entries: Seq<(K, U256)>)
    ensures
        support(contents(entries)).finite(),
    decreases entries.len(),
{
    if entries.len() == 0 {
        assert(support(contents(entries)) =~= Set::<K>::empty());
    } else {
        let before = entries.drop_last();
        lemma_support_finite(before);
        let wider = support(contents(before)).insert(entries.last().0);
        assert(support(contents(entries)).subset_of(wider));
        vstd::set_lib::lemma_set_subset_finite(wider, support(contents(entries)));
    }
}

/// The sum of the amounts that the map holds under the given keys.
pub open spec fn sum_over<K>(keys: Set<K>, amounts: Map<K, nat>) -> nat
    decreases keys.len(),
    when keys.finite()
{
    if keys.len() == 0 {
        0
    } else {
        let key = keys.choose();
        amounts[key] + sum_over(keys.remove(key), amounts)
    }
}

/// The sum of all the amounts of a map that holds more than zero under
/// finitely many keys.
pub open spec fn total<K>(amounts: Map<K, nat>) -> nat {
    sum_over(support(amounts), amounts)
}

/// Any key of the set may be taken out of the sum first.
pub proof fn lemma_sum_pick<K>(keys: Set<K>, amounts: Map<K, nat>, key: K)
    requires
        keys.finite(),
        keys.contains(key),
    ensures
        sum_over(keys, amounts) == amounts[key] + sum_over(keys.remove(key), amounts),
    decreases keys.len(),
{
    let first = keys.choose();
    if first != key {
        lemma_sum_pick(keys.remove(first), amounts, key);
        lemma_sum_pick(keys.remove(key), amounts, first);
        assert(keys.remove(first).remove(key) =~= keys.remove(key).remove(first));
    }
}

/// Two maps that agree on the keys of the set have the same sum over it.
pub proof fn lemma_sum_agree<K>(keys: Set<K>, left: Map<K, nat>, right: Map<K, nat>)
    requires
        keys.finite(),
        forall|key: K| keys.contains(key) ==> left[key] == right[key],
    ensures
        sum_over(keys, left) == sum_over(keys, right),
    decreases keys.len(),
{
    if keys.len() > 0 {
        lemma_sum_agree(keys.remove(keys.choose()), left, right);
    }
}

/// Writing `amount` under `key` changes the sum of all amounts by the
/// difference between `amount` and what stood under `key` before.
pub proof fn lemma_total_insert<K>(amounts: Map<K, nat>, key: K, amount: nat)
    requires
        support(amounts).finite(),
    ensures
        support(amounts.insert(key, amount)).finite(),
        total(amounts.insert(key, amount)) + amounts[key] == total(amounts) + amount,
{
    let after = amounts.insert(key, amount);
    let rest = support(amounts).remove(key);
    assert(support(after).remove(key) =~= rest);
    if amount > 0 {
        assert(support(after) =~= rest.insert(key));
        lemma_sum_pick(support(after), after, key);
    } else {
        assert(support(after) =~= rest);
    }
    if amounts[key] > 0 {
        lemma_sum_pick(support(amounts), amounts, key);
    } else {
        assert(support(amounts) =~= rest);
    }
    lemma_sum_agree(rest, amounts, after);
}

} // verus!
