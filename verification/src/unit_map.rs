//! Loan and collateral units by asset, kept in an `IndexMap`: a hash map
//! that remembers the order in which its keys were inserted.
//!
//! The map is the `indexmap` crate's. What it holds is named by
//! `unit_entries`; the functions below call its methods and say, over that
//! name, what each does.

use crate::decimal::Decimal;
use crate::utils::ResourceAddress;
use scrypto::prelude::IndexMap;
use vstd::prelude::*;

verus! {

#[verifier::external_type_specification]
#[verifier::external_body]
#[verifier::reject_recursive_types(K)]
#[verifier::reject_recursive_types(V)]
#[verifier::reject_recursive_types(S)]
pub struct ExIndexMap<K, V, S>(IndexMap<K, V, S>);

/// The entries of a map of units, in iteration order.
pub uninterp spec fn unit_entries(m: IndexMap<ResourceAddress, Decimal>) -> Seq<(ResourceAddress, Decimal)>;

/// Whether no asset occurs twice.
pub open spec fn keys_distinct(entries: Seq<(ResourceAddress, Decimal)>) -> bool {
    forall|i: int, j: int| 0 <= i < j < entries.len() ==> entries[i].0 != entries[j].0
}

/// Whether some entry is for the asset.
pub open spec fn has_key(entries: Seq<(ResourceAddress, Decimal)>, key: ResourceAddress) -> bool {
    exists|i: int| 0 <= i < entries.len() && #[trigger] entries[i].0 == key
}

/// The index of an entry for the asset.
pub open spec fn index_of(entries: Seq<(ResourceAddress, Decimal)>, key: ResourceAddress) -> int {
    choose|i: int| 0 <= i < entries.len() && #[trigger] entries[i].0 == key
}

/// The units entered for the asset; zero if there is no entry.
pub open spec fn units_of(entries: Seq<(ResourceAddress, Decimal)>, key: ResourceAddress) -> int {
    if has_key(entries, key) {
        entries[index_of(entries, key)].1@
    } else {
        0
    }
}

/// The entries after `value` is stored under `key`: in place if the key was
/// there, else at the end.
pub open spec fn entries_with(
    entries: Seq<(ResourceAddress, Decimal)>,
    key: ResourceAddress,
    value: Decimal,
) -> Seq<(ResourceAddress, Decimal)> {
    if has_key(entries, key) {
        entries.update(index_of(entries, key), (key, value))
    } else {
        entries.push((key, value))
    }
}

/// The entries after the one for `key`, if any, is taken out and the later
/// ones move up.
pub open spec fn entries_without(entries: Seq<(ResourceAddress, Decimal)>, key: ResourceAddress) -> Seq<
    (ResourceAddress, Decimal),
> {
    if has_key(entries, key) {
        entries.remove(index_of(entries, key))
    } else {
        entries
    }
}

/// Calls `IndexMap::default`: a map without entries.
#[verifier::external_body]
pub(crate) fn units_new() -> (r: IndexMap<ResourceAddress, Decimal>)
    ensures
        unit_entries(r).len() == 0,
{
    IndexMap::default()
}

/// Calls `IndexMap::len`: the number of entries.
#[verifier::external_body]
pub(crate) fn units_len(m: &IndexMap<ResourceAddress, Decimal>) -> (r: usize)
    ensures
        r == unit_entries(*m).len(),
{
    m.len()
}

/// Calls `IndexMap::get_index`, which returns the entry at a position of the
/// iteration order. A map holds no key twice, so no other position has the
/// entry's asset.
#[verifier::external_body]
pub(crate) fn units_entry_at(m: &IndexMap<ResourceAddress, Decimal>, i: usize) -> (r: (
    ResourceAddress,
    Decimal,
))
    requires
        i < unit_entries(*m).len(),
    ensures
        r == unit_entries(*m)[i as int],
        forall|j: int| 0 <= j < unit_entries(*m).len() && j != i ==> unit_entries(*m)[j].0 != r.0,
{
    let (key, value) = m.get_index(i).unwrap();
    (*key, *value)
}

/// Calls `IndexMap::get`, which returns the value stored for the key if it
/// is present, else nothing. A map holds no key twice, so the entry found is
/// the only one for the asset.
#[verifier::external_body]
pub(crate) fn units_get(m: &IndexMap<ResourceAddress, Decimal>, key: ResourceAddress) -> (r: Option<
    Decimal,
>)
    ensures
        match r {
            Some(v) => exists|i: int|
                0 <= i < unit_entries(*m).len() && #[trigger] unit_entries(*m)[i] == (key, v)
                    && forall|j: int|
                    0 <= j < unit_entries(*m).len() && j != i ==> unit_entries(*m)[j].0 != key,
            None => !has_key(unit_entries(*m), key),
        },
{
    m.get(&key).copied()
}

/// Calls `IndexMap::insert`. If the key is in the map it keeps its place and
/// gets the new value; if not, the pair goes last. The map still holds no key
/// twice.
#[verifier::external_body]
pub(crate) fn units_insert(m: &mut IndexMap<ResourceAddress, Decimal>, key: ResourceAddress, value: Decimal)
    ensures
        unit_entries(*final(m)) == entries_with(unit_entries(*old(m)), key, value),
        keys_distinct(unit_entries(*final(m))),
{
    m.insert(key, value);
}

/// Calls `IndexMap::shift_remove`, which removes the pair of the key, if
/// there is one, and moves every later pair one place up. The map still
/// holds no key twice.
#[verifier::external_body]
pub(crate) fn units_remove(m: &mut IndexMap<ResourceAddress, Decimal>, key: ResourceAddress)
    ensures
        unit_entries(*final(m)) == entries_without(unit_entries(*old(m)), key),
        keys_distinct(unit_entries(*final(m))),
{
    m.shift_remove(&key);
}

/// Calls `IndexMap::clone`: a map with the same entries in the same order.
#[verifier::external_body]
pub(crate) fn units_clone(m: &IndexMap<ResourceAddress, Decimal>) -> (r: IndexMap<
    ResourceAddress,
    Decimal,
>)
    ensures
        unit_entries(r) == unit_entries(*m),
{
    m.clone()
}

/// Walks the map and finds at every place an entry whose asset no other
/// place has: the map holds no asset twice.
pub fn units_walk(m: &IndexMap<ResourceAddress, Decimal>)
    ensures
        keys_distinct(unit_entries(*m)),
{
    let n = units_len(m);
    let mut i: usize = 0;
    while i < n
        invariant
            n == unit_entries(*m).len(),
            0 <= i <= n,
            forall|a: int, b: int|
                0 <= a < i && a < b < n ==> unit_entries(*m)[a].0 != unit_entries(*m)[b].0,
        decreases n - i,
    {
        let _ = units_entry_at(m, i);
        i = i + 1;
    }
}

/// Whether the map has an entry for the asset.
pub fn units_contains(m: &IndexMap<ResourceAddress, Decimal>, key: ResourceAddress) -> (r: bool)
    ensures
        r == has_key(unit_entries(*m), key),
{
    match units_get(m, key) {
        Some(v) => {
            proof {
                let entries = unit_entries(*m);
                let i = choose|i: int|
                    0 <= i < entries.len() && #[trigger] entries[i] == (key, v) && forall|j: int|
                        0 <= j < entries.len() && j != i ==> entries[j].0 != key;
                assert(entries[i].0 == key);
            }
            true
        },
        None => false,
    }
}

/// The units stored for an asset; zero if there are none.
pub fn units_or_zero(m: &IndexMap<ResourceAddress, Decimal>, key: ResourceAddress) -> (r: Decimal)
    ensures
        r@ == units_of(unit_entries(*m), key),
{
    match units_get(m, key) {
        Some(v) => {
            proof {
                let entries = unit_entries(*m);
                let i = choose|i: int|
                    0 <= i < entries.len() && #[trigger] entries[i] == (key, v) && forall|j: int|
                        0 <= j < entries.len() && j != i ==> entries[j].0 != key;
                assert(entries[i].0 == key);
                assert(has_key(entries, key));
                let k = index_of(entries, key);
                assert(k == i);
            }
            v
        },
        None => Decimal::zero(),
    }
}

/// Storing under an asset that has an entry keeps the number of entries,
/// storing under a new one adds one; removing an asset that has an entry
/// takes one off.
pub proof fn lemma_entries_len(
    entries: Seq<(ResourceAddress, Decimal)>,
    key: ResourceAddress,
    value: Decimal,
)
    ensures
        entries_with(entries, key, value).len() == if has_key(entries, key) {
            entries.len()
        } else {
            entries.len() + 1
        },
        entries_without(entries, key).len() == if has_key(entries, key) {
            entries.len() - 1
        } else {
            entries.len() as int
        },
{
    if has_key(entries, key) {
        let i = index_of(entries, key);
        assert(0 <= i < entries.len());
    }
}

/// Storing units under an asset changes the units of that asset and of no
/// other.
pub proof fn lemma_units_after_insert(
    entries: Seq<(ResourceAddress, Decimal)>,
    key: ResourceAddress,
    value: Decimal,
    other: ResourceAddress,
)
    requires
        keys_distinct(entries),
    ensures
        units_of(entries_with(entries, key, value), other) == if other == key {
            value@
        } else {
            units_of(entries, other)
        },
        has_key(entries_with(entries, key, value), other) == (other == key || has_key(entries, other)),
        keys_distinct(entries_with(entries, key, value)),
{
    let after = entries_with(entries, key, value);
    if has_key(entries, key) {
        let i = index_of(entries, key);
        assert(after[i].0 == key);
        assert(has_key(after, key));
        assert(after[index_of(after, key)].0 == key);
        assert(entries[index_of(after, key)].0 == key);
        if has_key(entries, other) {
            let j = index_of(entries, other);
            assert(after[j].0 == other);
        }
        if has_key(after, other) {
            let j = index_of(after, other);
            assert(entries[j].0 == other);
            if other != key {
                assert(index_of(entries, other) == j);
            }
        }
    } else {
        let n = entries.len() as int;
        assert(after[n].0 == key);
        assert(has_key(after, key));
        let k = index_of(after, key);
        if k < n {
            assert(entries[k].0 == key);
        }
        if has_key(entries, other) {
            let j = index_of(entries, other);
            assert(after[j].0 == other);
        }
        if has_key(after, other) {
            let j = index_of(after, other);
            if j < n {
                assert(entries[j].0 == other);
                if other != key {
                    assert(index_of(entries, other) == j);
                }
            }
        }
    }
}

/// Removing an asset sets its units to zero and changes those of no other.
pub proof fn lemma_units_after_remove(
    entries: Seq<(ResourceAddress, Decimal)>,
    key: ResourceAddress,
    other: ResourceAddress,
)
    requires
        keys_distinct(entries),
    ensures
        units_of(entries_without(entries, key), other) == if other == key {
            0
        } else {
            units_of(entries, other)
        },
        has_key(entries_without(entries, key), other) == (other != key && has_key(entries, other)),
        keys_distinct(entries_without(entries, key)),
{
    let after = entries_without(entries, key);
    if has_key(entries, key) {
        let i = index_of(entries, key);
        assert(after == entries.remove(i));
        if has_key(after, other) {
            let j = index_of(after, other);
            if j < i {
                assert(entries[j].0 == other);
                assert(index_of(entries, other) == j);
            } else {
                assert(entries[j + 1].0 == other);
                assert(index_of(entries, other) == j + 1);
            }
        }
        if has_key(entries, other) && other != key {
            let j = index_of(entries, other);
            if j < i {
                assert(after[j].0 == other);
            } else {
                assert(after[j - 1].0 == other);
            }
        }
    }
}

} // verus!
