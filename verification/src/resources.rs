//! The records that the market mints as tokens: the terms of a batch of flash
//! loans and the terms of a liquidation.

use crate::decimal::Decimal;
use crate::utils::ResourceAddress;
use scrypto::prelude::IndexMap;
use vstd::prelude::*;

verus! {

/// The data of an administrator's badge: none.
#[derive(Clone, Copy, Debug, PartialEq, Eq, Structural)]
pub struct AdminBadgeData {}

/// What is owed for one flash loan.
#[derive(Clone, Copy, Debug, PartialEq, Eq, Structural)]
pub struct BatchFlashloanItem {
    pub loan_amount: Decimal,
    pub fee_amount: Decimal,
}

/// What is owed for a batch of flash loans, by asset, in the order in which
/// the loans were taken.
#[derive(Debug)]
pub struct BatchFlashloanTerm {
    pub terms: IndexMap<ResourceAddress, BatchFlashloanItem>,
}

/// The entries of a map of terms, in iteration order.
pub uninterp spec fn term_entries(m: IndexMap<ResourceAddress, BatchFlashloanItem>) -> Seq<
    (ResourceAddress, BatchFlashloanItem),
>;

impl View for BatchFlashloanTerm {
    type V = Seq<(ResourceAddress, BatchFlashloanItem)>;

    open spec fn view(&self) -> Seq<(ResourceAddress, BatchFlashloanItem)> {
        term_entries(self.terms)
    }
}

/// What a liquidator owes for the collateral it seized from a position.
#[derive(Clone, Copy, Debug, PartialEq, Eq, Structural)]
pub struct LiquidationTerm {
    pub cdp_id: u64,
    pub payement_value: Decimal,
}

/// The first index from `i` on of the terms for an asset; the number of
/// terms if there are none.
pub open spec fn term_index(terms: Seq<(ResourceAddress, BatchFlashloanItem)>,
    res: ResourceAddress, i: int) -> int
    decreases terms.len() - i,
{
    if i < 0 || i >= terms.len() {
        terms.len() as int
    } else if terms[i].0 == res {
        i
    } else {
        term_index(terms, res, i + 1)
    }
}

/// The index of the terms found from `i` on lies between `i` and the number
/// of terms, and terms found are terms for the asset.
pub proof fn lemma_term_index_bounds(
    terms: Seq<(ResourceAddress, BatchFlashloanItem)>,
    res: ResourceAddress,
    i: int,
)
    requires
        0 <= i <= terms.len(),
    ensures
        i <= term_index(terms, res, i) <= terms.len(),
        term_index(terms, res, i) < terms.len() ==> terms[term_index(terms, res, i)].0 == res,
    decreases terms.len() - i,
{
    if i < terms.len() && terms[i].0 != res {
        lemma_term_index_bounds(terms, res, i + 1);
    }
}

/// The terms after `item` is stored for an asset: in place if the asset had
/// terms, else at the end.
pub open spec fn terms_with(
    terms: Seq<(ResourceAddress, BatchFlashloanItem)>,
    res: ResourceAddress,
    item: BatchFlashloanItem,
) -> Seq<(ResourceAddress, BatchFlashloanItem)> {
    let t = term_index(terms, res, 0);
    if t < terms.len() {
        terms.update(t, (res, item))
    } else {
        terms.push((res, item))
    }
}

/// Calls `IndexMap::default`: a map without entries.
#[verifier::external_body]
pub(crate) fn terms_new() -> (r: IndexMap<ResourceAddress, BatchFlashloanItem>)
    ensures
        term_entries(r).len() == 0,
{
    IndexMap::default()
}

/// Calls `IndexMap::len`: the number of entries.
#[verifier::external_body]
pub(crate) fn terms_len(m: &IndexMap<ResourceAddress, BatchFlashloanItem>) -> (r: usize)
    ensures
        r == term_entries(*m).len(),
{
    m.len()
}

/// Calls `IndexMap::get_index`, which returns the entry at a position of the
/// iteration order. A map holds no key twice, so no other position has the
/// entry's asset.
#[verifier::external_body]
pub(crate) fn terms_entry_at(m: &IndexMap<ResourceAddress, BatchFlashloanItem>, i: usize) -> (r: (
    ResourceAddress,
    BatchFlashloanItem,
))
    requires
        i < term_entries(*m).len(),
    ensures
        r == term_entries(*m)[i as int],
        forall|j: int| 0 <= j < term_entries(*m).len() && j != i ==> term_entries(*m)[j].0 != r.0,
{
    let (key, value) = m.get_index(i).unwrap();
    (*key, *value)
}

/// Calls `IndexMap::insert`. If the key is in the map it keeps its place and
/// gets the new value; if not, the pair goes last. A map holds no key twice,
/// so the first entry for the key is the only one.
#[verifier::external_body]
pub(crate) fn terms_insert(
    m: &mut IndexMap<ResourceAddress, BatchFlashloanItem>,
    key: ResourceAddress,
    value: BatchFlashloanItem,
)
    ensures
        term_entries(*final(m)) == terms_with(term_entries(*old(m)), key, value),
{
    m.insert(key, value);
}

impl BatchFlashloanTerm {
    /// Terms for no loan.
    pub fn new() -> (r: BatchFlashloanTerm)
        ensures
            r@.len() == 0,
    {
        BatchFlashloanTerm { terms: terms_new() }
    }

    /// Records what is owed for the loan of an asset, in place of what was
    /// recorded for that asset before, if anything.
    pub fn set(&mut self, res: ResourceAddress, item: BatchFlashloanItem)
        ensures
            final(self)@ == terms_with(old(self)@, res, item),
    {
        terms_insert(&mut self.terms, res, item);
    }

    /// The number of assets with terms.
    pub fn len(&self) -> (r: usize)
        ensures
            r == self@.len(),
    {
        terms_len(&self.terms)
    }

    /// The asset and the terms at a position.
    pub fn entry_at(&self, i: usize) -> (r: (ResourceAddress, BatchFlashloanItem))
        requires
            i < self@.len(),
        ensures
            r == self@[i as int],
    {
        terms_entry_at(&self.terms, i)
    }

    /// The position of the terms for an asset; the number of terms if there
    /// are none.
    pub fn find(&self, res: ResourceAddress) -> (r: usize)
        ensures
            r == term_index(self@, res, 0),
            r <= self@.len(),
            r < self@.len() ==> self@[r as int].0 == res,
    {
        let n = terms_len(&self.terms);
        let mut i: usize = 0;
        while i < n
            invariant
                n == self@.len(),
                0 <= i <= n,
                term_index(self@, res, 0) == term_index(self@, res, i as int),
            decreases n - i,
        {
            if terms_entry_at(&self.terms, i).0 == res {
                return i;
            }
            i = i + 1;
        }
        n
    }
}

} // verus!
