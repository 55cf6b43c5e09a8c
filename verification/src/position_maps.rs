//! The positions of a health check by asset, kept in `IndexMap`s: hash maps
//! that remember the order in which their keys were inserted.
//!
//! The maps are the `indexmap` crate's. What they hold is named by
//! `loan_entries` and `collateral_entries`; the functions that call their
//! methods say, over those names, what each does. A position is filed under
//! the asset of its pool, and that key is the asset that the position
//! counts for.

use crate::cdp_health_checker::{
    ExtendedCollateralPositionData, ExtendedLoanPositionData, PositionData,
};
use crate::utils::ResourceAddress;
use scrypto::prelude::IndexMap;
use vstd::prelude::*;

verus! {

/// The entries of a map of loan positions, in iteration order.
pub uninterp spec fn loan_entries(m: IndexMap<ResourceAddress, ExtendedLoanPositionData>) -> Seq<
    (ResourceAddress, ExtendedLoanPositionData),
>;

/// The entries of a map of collateral positions, in iteration order.
pub uninterp spec fn collateral_entries(
    m: IndexMap<ResourceAddress, ExtendedCollateralPositionData>,
) -> Seq<(ResourceAddress, ExtendedCollateralPositionData)>;

/// Calls `IndexMap::default`: a map without entries.
#[verifier::external_body]
pub(crate) fn loans_new() -> (r: IndexMap<ResourceAddress, ExtendedLoanPositionData>)
    ensures
        loan_entries(r).len() == 0,
{
    IndexMap::default()
}

/// Calls `IndexMap::len`: the number of entries.
#[verifier::external_body]
pub(crate) fn loans_len(m: &IndexMap<ResourceAddress, ExtendedLoanPositionData>) -> (r: usize)
    ensures
        r == loan_entries(*m).len(),
{
    m.len()
}

/// Calls `IndexMap::get_index`, which returns the entry at a position of the
/// iteration order.
#[verifier::external_body]
pub(crate) fn loans_entry_at(m: &IndexMap<ResourceAddress, ExtendedLoanPositionData>, i: usize) -> (r: (
    ResourceAddress,
    ExtendedLoanPositionData,
))
    requires
        i < loan_entries(*m).len(),
    ensures
        r == loan_entries(*m)[i as int],
{
    let (key, value) = m.get_index(i).unwrap();
    (*key, *value)
}

/// Calls `IndexMap::insert`. If the key is in the map it keeps its place and
/// gets the new value; if not, the pair goes last.
#[verifier::external_body]
pub(crate) fn loans_insert(
    m: &mut IndexMap<ResourceAddress, ExtendedLoanPositionData>,
    key: ResourceAddress,
    value: ExtendedLoanPositionData,
)
    ensures
        (forall|j: int| 0 <= j < loan_entries(*old(m)).len() ==> (#[trigger] loan_entries(*old(m))[j]).0 != key)
            ==> loan_entries(*final(m)) == loan_entries(*old(m)).push((key, value)),
        forall|i: int|
            0 <= i < loan_entries(*old(m)).len() && (#[trigger] loan_entries(*old(m))[i]).0 == key
                ==> loan_entries(*final(m)) == loan_entries(*old(m)).update(i, (key, value)),
{
    m.insert(key, value);
}

/// Calls `IndexMap::get_index_mut`, which lends the value at a position of
/// the iteration order for writing, and writes the new value there. The key
/// and the other entries stay.
#[verifier::external_body]
pub(crate) fn loans_set_at(
    m: &mut IndexMap<ResourceAddress, ExtendedLoanPositionData>,
    i: usize,
    value: ExtendedLoanPositionData,
)
    requires
        i < loan_entries(*old(m)).len(),
    ensures
        loan_entries(*final(m)) == loan_entries(*old(m)).update(
            i as int,
            (loan_entries(*old(m))[i as int].0, value),
        ),
{
    *m.get_index_mut(i).unwrap().1 = value;
}

/// Calls `IndexMap::default`: a map without entries.
#[verifier::external_body]
pub(crate) fn collaterals_new() -> (r: IndexMap<ResourceAddress, ExtendedCollateralPositionData>)
    ensures
        collateral_entries(r).len() == 0,
{
    IndexMap::default()
}

/// Calls `IndexMap::len`: the number of entries.
#[verifier::external_body]
pub(crate) fn collaterals_len(m: &IndexMap<ResourceAddress, ExtendedCollateralPositionData>) -> (r: usize)
    ensures
        r == collateral_entries(*m).len(),
{
    m.len()
}

/// Calls `IndexMap::get_index`, which returns the entry at a position of the
/// iteration order.
#[verifier::external_body]
pub(crate) fn collaterals_entry_at(
    m: &IndexMap<ResourceAddress, ExtendedCollateralPositionData>,
    i: usize,
) -> (r: (ResourceAddress, &ExtendedCollateralPositionData))
    requires
        i < collateral_entries(*m).len(),
    ensures
        r.0 == collateral_entries(*m)[i as int].0,
        *r.1 == collateral_entries(*m)[i as int].1,
{
    let (key, value) = m.get_index(i).unwrap();
    (*key, value)
}

/// Calls `IndexMap::insert`. If the key is in the map it keeps its place and
/// gets the new value; if not, the pair goes last.
#[verifier::external_body]
pub(crate) fn collaterals_insert(
    m: &mut IndexMap<ResourceAddress, ExtendedCollateralPositionData>,
    key: ResourceAddress,
    value: ExtendedCollateralPositionData,
)
    ensures
        (forall|j: int|
            0 <= j < collateral_entries(*old(m)).len() ==> (#[trigger] collateral_entries(*old(m))[j]).0
                != key) ==> collateral_entries(*final(m)) == collateral_entries(*old(m)).push(
            (key, value),
        ),
        forall|i: int|
            0 <= i < collateral_entries(*old(m)).len() && (#[trigger] collateral_entries(
                *old(m),
            )[i]).0 == key ==> collateral_entries(*final(m)) == collateral_entries(*old(m)).update(
                i,
                (key, value),
            ),
{
    m.insert(key, value);
}

/// Calls `IndexMap::get_index_mut`, which lends the value at a position of
/// the iteration order for writing, and writes the new data into it. The
/// key, the rest of the value and the other entries stay.
#[verifier::external_body]
pub(crate) fn collaterals_set_data(
    m: &mut IndexMap<ResourceAddress, ExtendedCollateralPositionData>,
    i: usize,
    data: PositionData,
)
    requires
        i < collateral_entries(*old(m)).len(),
    ensures
        collateral_entries(*final(m)) == collateral_entries(*old(m)).update(
            i as int,
            (
                collateral_entries(*old(m))[i as int].0,
                ExtendedCollateralPositionData { data, ..collateral_entries(*old(m))[i as int].1 },
            ),
        ),
{
    m.get_index_mut(i).unwrap().1.data = data;
}

/// The loan positions of a health check, by asset, in the order in which
/// their assets were first loaded.
#[derive(Debug)]
pub struct LoanPositions {
    map: IndexMap<ResourceAddress, ExtendedLoanPositionData>,
}

impl View for LoanPositions {
    type V = Seq<ExtendedLoanPositionData>;

    /// The positions in order, each for the asset that it is filed under.
    closed spec fn view(&self) -> Seq<ExtendedLoanPositionData> {
        Seq::new(
            loan_entries(self.map).len(),
            |i: int|
                ExtendedLoanPositionData {
                    pool_res_address: loan_entries(self.map)[i].0,
                    ..loan_entries(self.map)[i].1
                },
        )
    }
}

impl LoanPositions {
    /// No positions.
    pub fn new() -> (r: LoanPositions)
        ensures
            r@ == Seq::<ExtendedLoanPositionData>::empty(),
    {
        let r = LoanPositions { map: loans_new() };
        assert(r@ =~= Seq::<ExtendedLoanPositionData>::empty());
        r
    }

    /// The number of positions.
    pub fn len(&self) -> (r: usize)
        ensures
            r == self@.len(),
    {
        loans_len(&self.map)
    }

    /// The position at a place.
    pub fn at(&self, i: usize) -> (r: ExtendedLoanPositionData)
        requires
            i < self@.len(),
        ensures
            r == self@[i as int],
    {
        let (key, value) = loans_entry_at(&self.map, i);
        ExtendedLoanPositionData { pool_res_address: key, ..value }
    }

    /// Files a position under its asset: at the end if the asset has no
    /// position yet, else in place of the asset's position.
    pub fn push(&mut self, value: ExtendedLoanPositionData)
        ensures
            (forall|j: int|
                0 <= j < old(self)@.len() ==> (#[trigger] old(self)@[j]).pool_res_address
                    != value.pool_res_address) ==> final(self)@ == old(self)@.push(value),
            forall|i: int|
                0 <= i < old(self)@.len() && (#[trigger] old(self)@[i]).pool_res_address
                    == value.pool_res_address ==> final(self)@ == old(self)@.update(i, value),
    {
        let ghost before = loan_entries(self.map);
        let ghost views = self@;
        loans_insert(&mut self.map, value.pool_res_address, value);
        proof {
            assert forall|j: int| 0 <= j < before.len() implies (#[trigger] before[j]).0
                == views[j].pool_res_address by {}
            if forall|j: int|
                0 <= j < views.len() ==> (#[trigger] views[j]).pool_res_address != value.pool_res_address {
                assert forall|j: int| 0 <= j < before.len() implies (#[trigger] before[j]).0
                    != value.pool_res_address by {
                    assert(views[j].pool_res_address != value.pool_res_address);
                }
                assert(self@ =~= views.push(value));
            }
            assert forall|i: int|
                0 <= i < views.len() && (#[trigger] views[i]).pool_res_address
                    == value.pool_res_address implies self@ == views.update(i, value) by {
                assert(before[i].0 == value.pool_res_address);
                assert(self@ =~= views.update(i, value));
            }
        }
    }

    /// Replaces the position at a place. The new position counts for the
    /// asset that the place is filed under.
    pub fn set_at(&mut self, i: usize, value: ExtendedLoanPositionData)
        requires
            i < old(self)@.len(),
        ensures
            final(self)@ == old(self)@.update(
                i as int,
                ExtendedLoanPositionData {
                    pool_res_address: old(self)@[i as int].pool_res_address,
                    ..value
                },
            ),
    {
        let ghost views = self@;
        loans_set_at(&mut self.map, i, value);
        assert(self@ =~= views.update(
            i as int,
            ExtendedLoanPositionData { pool_res_address: views[i as int].pool_res_address, ..value },
        ));
    }

    /// Replaces every position by the one at its place in `loans`. Each new
    /// position counts for the asset that its place is filed under.
    pub fn set_all(&mut self, loans: &Vec<ExtendedLoanPositionData>)
        requires
            loans@.len() == old(self)@.len(),
        ensures
            final(self)@.len() == loans@.len(),
            forall|j: int|
                0 <= j < loans@.len() ==> #[trigger] final(self)@[j] == (ExtendedLoanPositionData {
                    pool_res_address: old(self)@[j].pool_res_address,
                    ..loans@[j]
                }),
    {
        let n = loans.len();
        let mut k: usize = 0;
        while k < n
            invariant
                n == loans@.len(),
                n == self@.len(),
                n == old(self)@.len(),
                0 <= k <= n,
                forall|j: int|
                    0 <= j < k ==> #[trigger] self@[j] == (ExtendedLoanPositionData {
                        pool_res_address: old(self)@[j].pool_res_address,
                        ..loans@[j]
                    }),
                forall|j: int| k <= j < n ==> #[trigger] self@[j] == old(self)@[j],
            decreases n - k,
        {
            self.set_at(k, loans[k]);
            k = k + 1;
        }
    }
}

/// The collateral positions of a health check, by asset, in the order in
/// which their assets were first loaded.
#[derive(Debug)]
pub struct CollateralPositions {
    map: IndexMap<ResourceAddress, ExtendedCollateralPositionData>,
}

impl View for CollateralPositions {
    type V = Seq<ExtendedCollateralPositionData>;

    /// The positions in order, each for the asset that it is filed under.
    closed spec fn view(&self) -> Seq<ExtendedCollateralPositionData> {
        Seq::new(
            collateral_entries(self.map).len(),
            |i: int|
                ExtendedCollateralPositionData {
                    pool_res_address: collateral_entries(self.map)[i].0,
                    ..collateral_entries(self.map)[i].1
                },
        )
    }
}

impl CollateralPositions {
    /// No positions.
    pub fn new() -> (r: CollateralPositions)
        ensures
            r@ == Seq::<ExtendedCollateralPositionData>::empty(),
    {
        let r = CollateralPositions { map: collaterals_new() };
        assert(r@ =~= Seq::<ExtendedCollateralPositionData>::empty());
        r
    }

    /// The number of positions.
    pub fn len(&self) -> (r: usize)
        ensures
            r == self@.len(),
    {
        collaterals_len(&self.map)
    }

    /// The asset that the position at a place counts for.
    pub fn key_at(&self, i: usize) -> (r: ResourceAddress)
        requires
            i < self@.len(),
        ensures
            r == self@[i as int].pool_res_address,
    {
        collaterals_entry_at(&self.map, i).0
    }

    /// The position at a place, as it was filed; its asset is `key_at`.
    pub fn at(&self, i: usize) -> (r: &ExtendedCollateralPositionData)
        requires
            i < self@.len(),
        ensures
            (ExtendedCollateralPositionData {
                pool_res_address: self@[i as int].pool_res_address,
                ..*r
            }) == self@[i as int],
    {
        collaterals_entry_at(&self.map, i).1
    }

    /// Files a position under its asset: at the end if the asset has no
    /// position yet, else in place of the asset's position.
    pub fn push(&mut self, value: ExtendedCollateralPositionData)
        ensures
            (forall|j: int|
                0 <= j < old(self)@.len() ==> (#[trigger] old(self)@[j]).pool_res_address
                    != value.pool_res_address) ==> final(self)@ == old(self)@.push(value),
            forall|i: int|
                0 <= i < old(self)@.len() && (#[trigger] old(self)@[i]).pool_res_address
                    == value.pool_res_address ==> final(self)@ == old(self)@.update(i, value),
    {
        let ghost before = collateral_entries(self.map);
        let ghost views = self@;
        let key = value.pool_res_address;
        collaterals_insert(&mut self.map, key, value);
        proof {
            assert forall|j: int| 0 <= j < before.len() implies (#[trigger] before[j]).0
                == views[j].pool_res_address by {}
            if forall|j: int|
                0 <= j < views.len() ==> (#[trigger] views[j]).pool_res_address != value.pool_res_address {
                assert forall|j: int| 0 <= j < before.len() implies (#[trigger] before[j]).0
                    != value.pool_res_address by {
                    assert(views[j].pool_res_address != value.pool_res_address);
                }
                assert(self@ =~= views.push(value));
            }
            assert forall|i: int|
                0 <= i < views.len() && (#[trigger] views[i]).pool_res_address
                    == value.pool_res_address implies self@ == views.update(i, value) by {
                assert(before[i].0 == value.pool_res_address);
                assert(self@ =~= views.update(i, value));
            }
        }
    }

    /// Replaces the data of the position at a place.
    pub fn set_data(&mut self, i: usize, data: PositionData)
        requires
            i < old(self)@.len(),
        ensures
            final(self)@ == old(self)@.update(
                i as int,
                ExtendedCollateralPositionData { data, ..old(self)@[i as int] },
            ),
    {
        let ghost views = self@;
        collaterals_set_data(&mut self.map, i, data);
        assert(self@ =~= views.update(
            i as int,
            ExtendedCollateralPositionData { data, ..views[i as int] },
        ));
    }
}

} // verus!
