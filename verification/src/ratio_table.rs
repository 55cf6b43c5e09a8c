//! A small table from integer keys to ratios, kept as a list without
//! repeated keys.

use crate::decimal::Decimal;
use crate::utils::{is_valid_rate, spec_is_valid_rate};
use vstd::prelude::*;

verus! {

/// One row of the table.
#[derive(Clone, Copy, Debug, PartialEq, Eq, Structural)]
pub struct RatioEntry {
    pub key: u16,
    pub ratio: Decimal,
}

/// Whether no key occurs twice.
pub open spec fn keys_distinct(entries: Seq<RatioEntry>) -> bool {
    forall|i: int, j: int| 0 <= i < j < entries.len() ==> entries[i].key != entries[j].key
}

/// Whether some row has the key.
pub open spec fn has_key(entries: Seq<RatioEntry>, key: u16) -> bool {
    exists|i: int| 0 <= i < entries.len() && #[trigger] entries[i].key == key
}

/// The index of a row with the key.
pub open spec fn row_of(entries: Seq<RatioEntry>, key: u16) -> int {
    choose|i: int| 0 <= i < entries.len() && #[trigger] entries[i].key == key
}

/// The table that the rows stand for.
pub open spec fn rows_as_map(entries: Seq<RatioEntry>) -> Map<u16, Decimal> {
    Map::new(|k: u16| has_key(entries, k), |k: u16| entries[row_of(entries, k)].ratio)
}

/// A table from keys to ratios.
#[derive(Debug)]
pub struct RatioTable {
    entries: Vec<RatioEntry>,
}

impl View for RatioTable {
    type V = Map<u16, Decimal>;

    closed spec fn view(&self) -> Map<u16, Decimal> {
        rows_as_map(self.entries@)
    }
}

impl RatioTable {
    /// No key is stored twice. Holds of every table made by `new`, `set`,
    /// `remove` and `clone`.
    pub closed spec fn well_formed(self) -> bool {
        keys_distinct(self.entries@)
    }

    /// The empty table.
    pub fn new() -> (r: RatioTable)
        ensures
            r@ == Map::<u16, Decimal>::empty(),
            r.well_formed(),
    {
        let r = RatioTable { entries: Vec::new() };
        assert(r@ =~= Map::<u16, Decimal>::empty());
        r
    }

    fn position(&self, key: u16) -> (r: Option<usize>)
        ensures
            match r {
                Some(i) => i < self.entries@.len() && self.entries@[i as int].key == key,
                None => !has_key(self.entries@, key),
            },
    {
        let n = self.entries.len();
        let mut i: usize = 0;
        while i < n
            invariant
                n == self.entries@.len(),
                0 <= i <= n,
                forall|k: int| 0 <= k < i ==> self.entries@[k].key != key,
            decreases n - i,
        {
            if self.entries[i].key == key {
                return Some(i);
            }
            i = i + 1;
        }
        None
    }

    /// The ratio stored under a key, if any.
    pub fn get(&self, key: u16) -> (r: Option<Decimal>)
        requires
            self.well_formed(),
        ensures
            r == if self@.contains_key(key) {
                Some(self@[key])
            } else {
                None
            },
    {
        match self.position(key) {
            Some(i) => {
                assert(has_key(self.entries@, key));
                assert(row_of(self.entries@, key) == i as int);
                Some(self.entries[i].ratio)
            },
            None => None,
        }
    }

    /// The rows of the table: one for each key. Their order is not part of
    /// what the table means.
    pub fn entries(&self) -> (r: Vec<RatioEntry>)
        requires
            self.well_formed(),
        ensures
            keys_distinct(r@),
            rows_as_map(r@) == self@,
    {
        let mut rows: Vec<RatioEntry> = Vec::new();
        let n = self.entries.len();
        let mut i: usize = 0;
        while i < n
            invariant
                n == self.entries@.len(),
                0 <= i <= n,
                rows@ == self.entries@.subrange(0, i as int),
            decreases n - i,
        {
            rows.push(self.entries[i]);
            assert(rows@ == self.entries@.subrange(0, i + 1));
            i = i + 1;
        }
        assert(rows@ == self.entries@);
        rows
    }

    /// Whether every stored ratio lies between zero and one.
    pub fn all_rates_valid(&self) -> (r: bool)
        requires
            self.well_formed(),
        ensures
            r == (forall|k: u16| self@.contains_key(k) ==> spec_is_valid_rate(#[trigger] self@[k]@)),
    {
        let n = self.entries.len();
        let mut i: usize = 0;
        while i < n
            invariant
                n == self.entries@.len(),
                0 <= i <= n,
                keys_distinct(self.entries@),
                forall|k: int| 0 <= k < i ==> spec_is_valid_rate(#[trigger] self.entries@[k].ratio@),
            decreases n - i,
        {
            let entry = self.entries[i];
            if !is_valid_rate(entry.ratio) {
                assert(has_key(self.entries@, entry.key));
                assert(row_of(self.entries@, entry.key) == i as int);
                assert(self@.contains_key(entry.key));
                assert(self@[entry.key] == entry.ratio);
                assert(!spec_is_valid_rate(self@[entry.key]@));
                return false;
            }
            i = i + 1;
        }
        assert forall|k: u16| self@.contains_key(k) implies spec_is_valid_rate(#[trigger] self@[k]@) by {
            let j = row_of(self.entries@, k);
            assert(spec_is_valid_rate(self.entries@[j].ratio@));
        }
        true
    }

    /// Stores a ratio under a key, replacing the one that was there.
    pub fn set(&mut self, key: u16, ratio: Decimal)
        requires
            old(self).well_formed(),
        ensures
            final(self).well_formed(),
            final(self)@ == old(self)@.insert(key, ratio),
    {
        let ghost before = self.entries@;
        match self.position(key) {
            Some(i) => {
                self.entries.set(i, RatioEntry { key, ratio });
                let ghost after = self.entries@;
                assert forall|k: u16| has_key(after, k) == (k == key || has_key(before, k)) by {
                    if has_key(before, k) {
                        let j = row_of(before, k);
                        assert(after[j].key == k);
                    }
                    if has_key(after, k) {
                        let j = row_of(after, k);
                        assert(before[j].key == k);
                    }
                    if k == key {
                        assert(after[i as int].key == k);
                    }
                }
                assert forall|k: u16| has_key(after, k) implies after[row_of(after, k)].ratio == (if k
                    == key {
                    ratio
                } else {
                    before[row_of(before, k)].ratio
                }) by {
                    let j = row_of(after, k);
                    assert(before[j].key == k);
                    if k != key {
                        assert(has_key(before, k));
                        assert(row_of(before, k) == j);
                    } else {
                        assert(j == i as int);
                    }
                }
                assert(rows_as_map(after) =~= rows_as_map(before).insert(key, ratio));
            },
            None => {
                self.entries.push(RatioEntry { key, ratio });
                let ghost after = self.entries@;
                assert(after[before.len() as int].key == key);
                assert forall|k: u16| has_key(after, k) == (k == key || has_key(before, k)) by {
                    if has_key(before, k) {
                        let j = row_of(before, k);
                        assert(after[j].key == k);
                    }
                    if has_key(after, k) {
                        let j = row_of(after, k);
                        if j < before.len() {
                            assert(before[j].key == k);
                        }
                    }
                }
                assert forall|k: u16| has_key(after, k) implies after[row_of(after, k)].ratio == (if k
                    == key {
                    ratio
                } else {
                    before[row_of(before, k)].ratio
                }) by {
                    let j = row_of(after, k);
                    if k != key {
                        assert(before[j].key == k);
                        assert(has_key(before, k));
                        assert(row_of(before, k) == j);
                    } else {
                        if j < before.len() {
                            assert(before[j].key == k);
                        }
                    }
                }
                assert(rows_as_map(after) =~= rows_as_map(before).insert(key, ratio));
            },
        }
    }

    /// Drops the ratio stored under a key, if there is one.
    pub fn remove(&mut self, key: u16)
        requires
            old(self).well_formed(),
        ensures
            final(self).well_formed(),
            final(self)@ == old(self)@.remove(key),
    {
        let ghost before = self.entries@;
        match self.position(key) {
            Some(i) => {
                self.entries.remove(i);
                let ghost after = self.entries@;
                assert(after == before.remove(i as int));
                assert forall|k: u16| has_key(after, k) == (k != key && has_key(before, k)) by {
                    if has_key(before, k) && k != key {
                        let j = row_of(before, k);
                        if j < i {
                            assert(after[j].key == k);
                        } else {
                            assert(after[j - 1].key == k);
                        }
                    }
                    if has_key(after, k) {
                        let j = row_of(after, k);
                        if j < i {
                            assert(before[j].key == k);
                        } else {
                            assert(before[j + 1].key == k);
                        }
                    }
                }
                assert forall|k: u16| has_key(after, k) implies after[row_of(after, k)].ratio
                    == before[row_of(before, k)].ratio by {
                    let j = row_of(after, k);
                    assert(has_key(before, k));
                    if j < i {
                        assert(before[j].key == k);
                        assert(row_of(before, k) == j);
                    } else {
                        assert(before[j + 1].key == k);
                        assert(row_of(before, k) == j + 1);
                    }
                }
                assert(rows_as_map(after) =~= rows_as_map(before).remove(key));
            },
            None => {
                assert(rows_as_map(before) =~= rows_as_map(before).remove(key));
            },
        }
    }
}

impl Clone for RatioTable {
    fn clone(&self) -> (r: RatioTable)
        ensures
            r@ == self@,
            r.well_formed() == self.well_formed(),
    {
        let mut entries: Vec<RatioEntry> = Vec::new();
        let n = self.entries.len();
        let mut i: usize = 0;
        while i < n
            invariant
                n == self.entries@.len(),
                0 <= i <= n,
                entries@ == self.entries@.subrange(0, i as int),
            decreases n - i,
        {
            entries.push(self.entries[i]);
            assert(entries@ == self.entries@.subrange(0, i + 1));
            i = i + 1;
        }
        assert(entries@ == self.entries@);
        RatioTable { entries }
    }
}

} // verus!
