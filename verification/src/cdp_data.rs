//! A collateralized debt position: what it has pledged and borrowed, how it
//! is linked to a delegator, and a wrapper that collects changes until they
//! are saved.

use crate::decimal::{dec_of, lemma_dec_of, spec_add, Decimal};
use crate::decimal::{lemma_dec_of_fits, spec_sub};
use crate::unit_map::{
    entries_with, entries_without, has_key, index_of, keys_distinct, lemma_entries_len,
    lemma_units_after_insert, lemma_units_after_remove, unit_entries, units_clone, units_contains,
    units_entry_at, units_insert, units_len, units_new, units_of, units_or_zero, units_remove,
    units_walk,
};
use crate::utils::{err_text, is_valid_rate, message, spec_is_valid_rate, ResourceAddress};
use scrypto::prelude::IndexMap;
use vstd::prelude::*;

verus! {

/// How a delegatee is tied to its delegator.
#[derive(Clone, Copy, Debug, PartialEq, Eq, Structural)]
pub struct DelegatorInfo {
    /// The delegator's position.
    pub cdp_id: u64,
    /// The delegatee's number among the delegator's delegatees.
    pub delegatee_index: u64,
    /// The most that the delegatee may owe, in value.
    pub max_loan_value: Option<Decimal>,
    /// The most that the delegatee may owe, as a share of the discounted
    /// collateral.
    pub max_loan_value_ratio: Option<Decimal>,
}

/// The kind of a position. A delegator is a standard position with
/// delegatees.
#[derive(Clone, Copy, Debug, PartialEq, Eq, Structural)]
pub enum CDPType {
    Standard,
    Delegatee(DelegatorInfo),
}

/// The three maps of units that a position holds.
#[derive(Clone, Copy, Debug, PartialEq, Eq, Structural)]
pub enum PositionKind {
    /// Pool units pledged, by asset.
    Collateral,
    /// Loan units owed, by asset.
    Loan,
    /// Loan units owed by the position and its delegatees together.
    DelegateeLoan,
}

/// The data of a position as the ledger stores it.
#[derive(Debug)]
pub struct CollaterizedDebtPositionData {
    pub name: String,
    pub description: String,
    pub key_image_url: String,
    pub cdp_type: CDPType,
    /// Pool units pledged, by asset.
    pub collaterals: IndexMap<ResourceAddress, Decimal>,
    /// Loan units that the position owes itself, by asset.
    pub loans: IndexMap<ResourceAddress, Decimal>,
    /// The aggregate: loan units that the position and the delegatees
    /// linked to it owe together, by asset. A loan or a repayment moves
    /// it with the loans of the position and, for a delegatee, moves the
    /// aggregate of its delegator too; linking and unlinking move the
    /// delegatee's loans into it and out of it.
    pub delegatee_loans: IndexMap<ResourceAddress, Decimal>,
    /// The number of delegatees linked to this position.
    pub delegatee_count: u64,
    pub minted_at: i64,
    pub updated_at: i64,
}

/// A position loaded from the ledger, with the changes made since.
#[derive(Debug)]
pub struct WrappedCDPData {
    pub cdp_id: u64,
    pub cdp_data: CollaterizedDebtPositionData,
    /// Whether the data differs from what the ledger stores.
    pub cdp_data_updated: bool,
}

/// What a health check and the rules of delegation read of a position: its
/// kind, the number of its delegatees and the entries of its three maps.
pub struct CdpView {
    pub cdp_type: CDPType,
    pub delegatee_count: u64,
    pub collaterals: Seq<(ResourceAddress, Decimal)>,
    pub loans: Seq<(ResourceAddress, Decimal)>,
    pub delegatee_loans: Seq<(ResourceAddress, Decimal)>,
}

impl CdpView {
    pub open spec fn is_delegatee(self) -> bool {
        self.cdp_type is Delegatee
    }

    /// Whether the position is a standard one with delegatees.
    pub open spec fn is_delegator(self) -> bool {
        self.cdp_type is Standard && self.delegatee_count > 0
    }

    /// The entries of one of the three maps.
    pub open spec fn entries(self, kind: PositionKind) -> Seq<(ResourceAddress, Decimal)> {
        match kind {
            PositionKind::Collateral => self.collaterals,
            PositionKind::Loan => self.loans,
            PositionKind::DelegateeLoan => self.delegatee_loans,
        }
    }

    /// The units of an asset in one of the three maps.
    pub open spec fn units(self, kind: PositionKind, res: ResourceAddress) -> int {
        units_of(self.entries(kind), res)
    }
}

impl View for WrappedCDPData {
    type V = CdpView;

    open spec fn view(&self) -> CdpView {
        CdpView {
            cdp_type: self.cdp_data.cdp_type,
            delegatee_count: self.cdp_data.delegatee_count,
            collaterals: unit_entries(self.cdp_data.collaterals),
            loans: unit_entries(self.cdp_data.loans),
            delegatee_loans: unit_entries(self.cdp_data.delegatee_loans),
        }
    }
}

/// The view of a position that may not be there.
pub open spec fn view_of(position: Option<&WrappedCDPData>) -> Option<CdpView> {
    match position {
        Some(p) => Some(p@),
        None => None,
    }
}

/// Whether entries after the units of an asset were set hold no asset
/// twice and, if that held before, hold the new units for that asset and
/// the old units for every other.
pub open spec fn units_follow(
    after: Seq<(ResourceAddress, Decimal)>,
    before: Seq<(ResourceAddress, Decimal)>,
    res: ResourceAddress,
    units: int,
) -> bool {
    &&& keys_distinct(after)
    &&& keys_distinct(before) ==> forall|other: ResourceAddress| #[trigger]
        units_of(after, other) == if other == res {
            units
        } else {
            units_of(before, other)
        }
}

pub open spec fn err_units_overflow() -> Seq<char> {
    "Position units overflow"@
}

pub open spec fn err_units_negative() -> Seq<char> {
    "Position units cannot be negative"@
}

pub open spec fn err_not_delegatee() -> Seq<char> {
    "CDP is not a delegatee"@
}

pub open spec fn err_delegatee_as_delegator() -> Seq<char> {
    "Delegatee CDP can not have delegatees"@
}

pub open spec fn err_delegatee_count_overflow() -> Seq<char> {
    "Delegatee count overflow"@
}

pub open spec fn err_delegatee_count_underflow() -> Seq<char> {
    "Delegatee count underflow"@
}

pub open spec fn err_delegatee_limits() -> Seq<char> {
    "Delegatee limits out of range"@
}

pub open spec fn err_too_many_positions() -> Seq<char> {
    "Max CDP position exceeded"@
}

/// The units of an asset after a change by `delta`: the sum, which must fit
/// and must not be negative.
pub open spec fn spec_changed_units(current: int, delta: int) -> Result<int, Seq<char>> {
    match spec_add(current, delta) {
        None => Err(err_units_overflow()),
        Some(v) => if v < 0 {
            Err(err_units_negative())
        } else {
            Ok(v)
        },
    }
}

/// The units of an asset after a change by `delta`, or why the change is
/// refused.
pub fn changed_units(current: Decimal, delta: Decimal) -> (r: Result<Decimal, String>)
    ensures
        match spec_changed_units(current@, delta@) {
            Ok(units) => r.is_ok() && r.unwrap()@ == units,
            Err(e) => err_text(r) == Some(e),
        },
{
    let units = match current.checked_add(delta) {
        Some(v) => v,
        None => {
            return Err(message("Position units overflow"));
        },
    };
    if units.is_negative() {
        return Err(message("Position units cannot be negative"));
    }
    Ok(units)
}

/// An amount of units with its sign kept or changed, if it fits.
pub open spec fn spec_signed(units: int, add: bool) -> Option<int> {
    if add {
        Some(units)
    } else {
        spec_sub(0, units)
    }
}

/// The units of an aggregate for one asset after the loan units of a
/// position are added to it or taken off it.
pub open spec fn spec_shifted_units(current: int, units: int, add: bool) -> Result<int, Seq<char>> {
    match spec_signed(units, add) {
        None => Err(err_units_overflow()),
        Some(delta) => spec_changed_units(current, delta),
    }
}

/// The complaint about the first loan, from index `i` on, that cannot be
/// added to the aggregate or taken off it.
pub open spec fn spec_aggregate_error(
    aggregate: Seq<(ResourceAddress, Decimal)>,
    loans: Seq<(ResourceAddress, Decimal)>,
    i: int,
    add: bool,
) -> Option<Seq<char>>
    decreases loans.len() - i,
{
    if i < 0 || i >= loans.len() {
        None
    } else {
        match spec_shifted_units(units_of(aggregate, loans[i].0), loans[i].1@, add) {
            Err(e) => Some(e),
            Ok(_) => spec_aggregate_error(aggregate, loans, i + 1, add),
        }
    }
}

/// The aggregate after the loans from index `i` on are added to it or taken
/// off it, asset by asset.
pub open spec fn spec_aggregate_after(
    aggregate: Seq<(ResourceAddress, Decimal)>,
    loans: Seq<(ResourceAddress, Decimal)>,
    i: int,
    add: bool,
) -> Seq<(ResourceAddress, Decimal)>
    decreases loans.len() - i,
{
    if i < 0 || i >= loans.len() {
        aggregate
    } else {
        spec_aggregate_after(
            entries_set(
                aggregate,
                loans[i].0,
                units_of(aggregate, loans[i].0) + (if add {
                    loans[i].1@
                } else {
                    -loans[i].1@
                }),
            ),
            loans,
            i + 1,
            add,
        )
    }
}

/// The loan units of an asset among the loans from index `i` on.
pub open spec fn units_from(loans: Seq<(ResourceAddress, Decimal)>, res: ResourceAddress, i: int) -> int
    decreases loans.len() - i,
{
    if i < 0 || i >= loans.len() {
        0
    } else {
        (if loans[i].0 == res {
            loans[i].1@
        } else {
            0
        }) + units_from(loans, res, i + 1)
    }
}

proof fn lemma_units_from_absent(loans: Seq<(ResourceAddress, Decimal)>, res: ResourceAddress, i: int)
    requires
        0 <= i <= loans.len(),
        forall|k: int| i <= k < loans.len() ==> loans[k].0 != res,
    ensures
        units_from(loans, res, i) == 0,
    decreases loans.len() - i,
{
    if i < loans.len() {
        lemma_units_from_absent(loans, res, i + 1);
    }
}

proof fn lemma_units_from_found(
    loans: Seq<(ResourceAddress, Decimal)>,
    res: ResourceAddress,
    i: int,
    j: int,
)
    requires
        keys_distinct(loans),
        0 <= i <= j < loans.len(),
        loans[j].0 == res,
    ensures
        units_from(loans, res, i) == loans[j].1@,
    decreases j - i,
{
    if i == j {
        lemma_units_from_absent(loans, res, j + 1);
    } else {
        lemma_units_from_found(loans, res, i + 1, j);
    }
}

proof fn lemma_aggregate_after_from(
    start: Seq<(ResourceAddress, Decimal)>,
    aggregate: Seq<(ResourceAddress, Decimal)>,
    loans: Seq<(ResourceAddress, Decimal)>,
    i: int,
    add: bool,
    res: ResourceAddress,
)
    requires
        keys_distinct(aggregate),
        keys_distinct(loans),
        0 <= i <= loans.len(),
        spec_aggregate_error(start, loans, i, add).is_none(),
        forall|j: int|
            i <= j < loans.len() ==> units_of(aggregate, #[trigger] loans[j].0) == units_of(
                start,
                loans[j].0,
            ),
    ensures
        keys_distinct(spec_aggregate_after(aggregate, loans, i, add)),
        units_of(spec_aggregate_after(aggregate, loans, i, add), res) == if add {
            units_of(aggregate, res) + units_from(loans, res, i)
        } else {
            units_of(aggregate, res) - units_from(loans, res, i)
        },
    decreases loans.len() - i,
{
    if i < loans.len() {
        let key = loans[i].0;
        let units = units_of(aggregate, key) + (if add {
            loans[i].1@
        } else {
            -loans[i].1@
        });
        assert(units_of(aggregate, loans[i].0) == units_of(start, loans[i].0));
        assert(spec_shifted_units(units_of(start, key), loans[i].1@, add) == Ok::<int, Seq<char>>(units));
        let next = entries_set(aggregate, key, units);
        if units == 0 {
            lemma_units_after_remove(aggregate, key, res);
        } else {
            lemma_dec_of_fits(units);
            lemma_units_after_insert(aggregate, key, dec_of(units), res);
        }
        assert forall|j: int| i + 1 <= j < loans.len() implies units_of(next, #[trigger] loans[j].0)
            == units_of(start, loans[j].0) by {
            assert(loans[j].0 != key);
            if units == 0 {
                lemma_units_after_remove(aggregate, key, loans[j].0);
            } else {
                lemma_units_after_insert(aggregate, key, dec_of(units), loans[j].0);
            }
        }
        lemma_aggregate_after_from(start, next, loans, i + 1, add, res);
    }
}

/// Adding the loans of a position to an aggregate raises the aggregate of
/// every asset by the loan units of that asset, and taking them off lowers
/// it by as much.
pub proof fn lemma_shifted_aggregate_units(
    aggregate: Seq<(ResourceAddress, Decimal)>,
    loans: Seq<(ResourceAddress, Decimal)>,
    add: bool,
    res: ResourceAddress,
)
    requires
        keys_distinct(aggregate),
        keys_distinct(loans),
        spec_aggregate_error(aggregate, loans, 0, add).is_none(),
    ensures
        keys_distinct(spec_aggregate_after(aggregate, loans, 0, add)),
        units_of(spec_aggregate_after(aggregate, loans, 0, add), res) == if add {
            units_of(aggregate, res) + units_of(loans, res)
        } else {
            units_of(aggregate, res) - units_of(loans, res)
        },
{
    lemma_aggregate_after_from(aggregate, aggregate, loans, 0, add, res);
    if has_key(loans, res) {
        lemma_units_from_found(loans, res, 0, index_of(loans, res));
    } else {
        lemma_units_from_absent(loans, res, 0);
    }
}

/// The entries after the units of an asset are set to `units`: a position
/// of zero units is dropped.
pub open spec fn entries_set(
    entries: Seq<(ResourceAddress, Decimal)>,
    key: ResourceAddress,
    units: int,
) -> Seq<(ResourceAddress, Decimal)> {
    if units == 0 {
        entries_without(entries, key)
    } else {
        entries_with(entries, key, dec_of(units))
    }
}

/// Whether the limits of a delegatee are in range: the value not negative,
/// the ratio in `[0, 1]`.
pub open spec fn delegatee_limits_valid(max_loan_value: Option<Decimal>,
    max_loan_value_ratio: Option<Decimal>) -> bool {
    &&& match max_loan_value {
        Some(v) => v@ >= 0,
        None => true,
    }
    &&& match max_loan_value_ratio {
        Some(r) => spec_is_valid_rate(r@),
        None => true,
    }
}

/// Whether the limits of a delegatee are in range.
pub fn check_delegatee_limits(max_loan_value: Option<Decimal>, max_loan_value_ratio: Option<Decimal>) -> (r:
    bool)
    ensures
        r == delegatee_limits_valid(max_loan_value, max_loan_value_ratio),
{
    let value_ok = match max_loan_value {
        Some(v) => !v.is_negative(),
        None => true,
    };
    let ratio_ok = match max_loan_value_ratio {
        Some(r) => is_valid_rate(r),
        None => true,
    };
    value_ok && ratio_ok
}

impl CDPType {
    pub open spec fn spec_is_delegatee(&self) -> bool {
        self is Delegatee
    }

    #[verifier::when_used_as_spec(spec_is_delegatee)]
    pub fn is_delegatee(&self) -> (r: bool)
        ensures
            r == self.spec_is_delegatee(),
    {
        match self {
            CDPType::Delegatee(_) => true,
            CDPType::Standard => false,
        }
    }
}

impl CollaterizedDebtPositionData {
    /// The entries of one of the three maps.
    pub open spec fn entries(self, kind: PositionKind) -> Seq<(ResourceAddress, Decimal)> {
        match kind {
            PositionKind::Collateral => unit_entries(self.collaterals),
            PositionKind::Loan => unit_entries(self.loans),
            PositionKind::DelegateeLoan => unit_entries(self.delegatee_loans),
        }
    }

    /// The units of an asset in one of the three maps.
    pub open spec fn units(self, kind: PositionKind, res: ResourceAddress) -> int {
        units_of(self.entries(kind), res)
    }

    /// None of the three maps holds an asset twice. Holds of every position
    /// made by `new` and is kept by every change.
    pub open spec fn valid(self) -> bool {
        &&& keys_distinct(unit_entries(self.collaterals))
        &&& keys_distinct(unit_entries(self.loans))
        &&& keys_distinct(unit_entries(self.delegatee_loans))
    }

    /// Whether the two agree in everything but the entries of one map.
    pub open spec fn same_but(self, other: CollaterizedDebtPositionData, kind: PositionKind) -> bool {
        &&& self.name == other.name
        &&& self.description == other.description
        &&& self.key_image_url == other.key_image_url
        &&& self.cdp_type == other.cdp_type
        &&& self.delegatee_count == other.delegatee_count
        &&& self.minted_at == other.minted_at
        &&& self.updated_at == other.updated_at
        &&& kind != PositionKind::Collateral ==> self.collaterals == other.collaterals
        &&& kind != PositionKind::Loan ==> self.loans == other.loans
        &&& kind != PositionKind::DelegateeLoan ==> self.delegatee_loans == other.delegatee_loans
    }

    /// Whether the two hold the same three maps.
    pub open spec fn same_maps(self, other: CollaterizedDebtPositionData) -> bool {
        &&& self.collaterals == other.collaterals
        &&& self.loans == other.loans
        &&& self.delegatee_loans == other.delegatee_loans
    }

    /// The number of collateral and loan positions.
    pub open spec fn position_count(self) -> nat {
        unit_entries(self.collaterals).len() + unit_entries(self.loans).len()
    }

    /// A standard position without collateral, loans or delegatees, minted
    /// at `now`.
    pub fn new(name: String, description: String, key_image_url: String, cdp_type: CDPType, now: i64) -> (r:
        CollaterizedDebtPositionData)
        ensures
            r.name == name,
            r.description == description,
            r.key_image_url == key_image_url,
            r.cdp_type == cdp_type,
            r.delegatee_count == 0,
            r.minted_at == now,
            r.updated_at == now,
            r.entries(PositionKind::Collateral).len() == 0,
            r.entries(PositionKind::Loan).len() == 0,
            r.entries(PositionKind::DelegateeLoan).len() == 0,
            r.valid(),
    {
        CollaterizedDebtPositionData {
            name,
            description,
            key_image_url,
            cdp_type,
            collaterals: units_new(),
            loans: units_new(),
            delegatee_loans: units_new(),
            delegatee_count: 0,
            minted_at: now,
            updated_at: now,
        }
    }
}

impl WrappedCDPData {
    /// The position with another count of delegatees, marked as changed.
    pub open spec fn with_delegatee_count(self, count: u64) -> WrappedCDPData {
        WrappedCDPData {
            cdp_data: CollaterizedDebtPositionData { delegatee_count: count, ..self.cdp_data },
            cdp_data_updated: true,
            ..self
        }
    }

    /// The position with another type, marked as changed.
    pub open spec fn with_type(self, cdp_type: CDPType) -> WrappedCDPData {
        WrappedCDPData {
            cdp_data: CollaterizedDebtPositionData { cdp_type, ..self.cdp_data },
            cdp_data_updated: true,
            ..self
        }
    }

    /// The position as it is written back at `now`.
    pub open spec fn saved(self, now: i64) -> WrappedCDPData {
        WrappedCDPData {
            cdp_data: CollaterizedDebtPositionData { updated_at: now, ..self.cdp_data },
            cdp_data_updated: false,
            ..self
        }
    }

    /// Whether the position is a standard one with delegatees.
    pub open spec fn spec_is_delegator(&self) -> bool {
        self.cdp_data.cdp_type is Standard && self.cdp_data.delegatee_count > 0
    }

    pub open spec fn spec_is_delegatee(&self) -> bool {
        self.cdp_data.cdp_type is Delegatee
    }

    /// Wraps data that was just read from the ledger.
    pub fn new(cdp_id: u64, cdp_data: CollaterizedDebtPositionData) -> (r: WrappedCDPData)
        ensures
            r.cdp_id == cdp_id,
            r.cdp_data == cdp_data,
            !r.cdp_data_updated,
    {
        WrappedCDPData { cdp_id, cdp_data, cdp_data_updated: false }
    }

    pub fn get_data(&self) -> (r: &CollaterizedDebtPositionData)
        ensures
            *r == self.cdp_data,
    {
        &self.cdp_data
    }

    pub fn get_type(&self) -> (r: CDPType)
        ensures
            r == self.cdp_data.cdp_type,
    {
        self.cdp_data.cdp_type
    }

    #[verifier::when_used_as_spec(spec_is_delegatee)]
    pub fn is_delegatee(&self) -> (r: bool)
        ensures
            r == self.spec_is_delegatee(),
    {
        self.cdp_data.cdp_type.is_delegatee()
    }

    #[verifier::when_used_as_spec(spec_is_delegator)]
    pub fn is_delegator(&self) -> (r: bool)
        ensures
            r == self.spec_is_delegator(),
    {
        !self.cdp_data.cdp_type.is_delegatee() && self.cdp_data.delegatee_count > 0
    }

    /// The delegator's position, for a delegatee.
    pub fn get_delegator_id(&self) -> (r: Result<u64, String>)
        ensures
            match self.cdp_data.cdp_type {
                CDPType::Delegatee(info) => r == Ok::<u64, String>(info.cdp_id),
                CDPType::Standard => err_text(r) == Some(err_not_delegatee()),
            },
    {
        match self.cdp_data.cdp_type {
            CDPType::Delegatee(info) => Ok(info.cdp_id),
            CDPType::Standard => Err(message("CDP is not a delegatee")),
        }
    }

    /// The units of one map for an asset; zero if it has none.
    pub fn get_units(&self, kind: PositionKind, res_address: ResourceAddress) -> (r: Decimal)
        ensures
            r@ == self.cdp_data.units(kind, res_address),
    {
        match kind {
            PositionKind::Collateral => units_or_zero(&self.cdp_data.collaterals, res_address),
            PositionKind::Loan => units_or_zero(&self.cdp_data.loans, res_address),
            PositionKind::DelegateeLoan => units_or_zero(&self.cdp_data.delegatee_loans, res_address),
        }
    }

    pub fn get_collateral_units(&self, res_address: ResourceAddress) -> (r: Decimal)
        ensures
            r@ == self.cdp_data.units(PositionKind::Collateral, res_address),
    {
        self.get_units(PositionKind::Collateral, res_address)
    }

    pub fn get_loan_unit(&self, res_address: ResourceAddress) -> (r: Decimal)
        ensures
            r@ == self.cdp_data.units(PositionKind::Loan, res_address),
    {
        self.get_units(PositionKind::Loan, res_address)
    }

    pub fn get_delegatee_loan_unit(&self, res_address: ResourceAddress) -> (r: Decimal)
        ensures
            r@ == self.cdp_data.units(PositionKind::DelegateeLoan, res_address),
    {
        self.get_units(PositionKind::DelegateeLoan, res_address)
    }

    /// Changes the units of an asset in one map by `delta`. A position that
    /// reaches zero is dropped; one that would go below zero, or beyond the
    /// range, is refused and nothing changes.
    pub fn update_units(&mut self, kind: PositionKind, res_address: ResourceAddress, delta: Decimal) -> (r:
        Result<(), String>)
        ensures
            final(self).cdp_id == old(self).cdp_id,
            old(self).cdp_data.valid() ==> final(self).cdp_data.valid(),
            match spec_changed_units(old(self).cdp_data.units(kind, res_address), delta@) {
                Ok(units) => {
                    &&& r.is_ok()
                    &&& final(self).cdp_data_updated
                    &&& final(self).cdp_data.same_but(old(self).cdp_data, kind)
                    &&& final(self).cdp_data.entries(kind) == entries_set(
                        old(self).cdp_data.entries(kind),
                        res_address,
                        units,
                    )
                    &&& units_follow(
                        final(self).cdp_data.entries(kind),
                        old(self).cdp_data.entries(kind),
                        res_address,
                        units,
                    )
                },
                Err(e) => err_text(r) == Some(e) && *final(self) == *old(self),
            },
    {
        let current = self.get_units(kind, res_address);
        let units = match current.checked_add(delta) {
            Some(v) => v,
            None => {
                return Err(message("Position units overflow"));
            },
        };
        if units.is_negative() {
            return Err(message("Position units cannot be negative"));
        }
        proof {
            lemma_dec_of(units);
        }
        if units.is_zero() {
            match kind {
                PositionKind::Collateral => units_remove(&mut self.cdp_data.collaterals, res_address),
                PositionKind::Loan => units_remove(&mut self.cdp_data.loans, res_address),
                PositionKind::DelegateeLoan => units_remove(
                    &mut self.cdp_data.delegatee_loans,
                    res_address,
                ),
            }
        } else {
            match kind {
                PositionKind::Collateral => units_insert(
                    &mut self.cdp_data.collaterals,
                    res_address,
                    units,
                ),
                PositionKind::Loan => units_insert(&mut self.cdp_data.loans, res_address, units),
                PositionKind::DelegateeLoan => units_insert(
                    &mut self.cdp_data.delegatee_loans,
                    res_address,
                    units,
                ),
            }
        }
        self.cdp_data_updated = true;
        proof {
            let before = old(self).cdp_data.entries(kind);
            let after = self.cdp_data.entries(kind);
            lemma_dec_of_fits(units@);
            if keys_distinct(before) {
                assert forall|other: ResourceAddress| #[trigger]
                    units_of(after, other) == if other == res_address {
                        units@
                    } else {
                        units_of(before, other)
                    } by {
                    if units@ == 0 {
                        lemma_units_after_remove(before, res_address, other);
                    } else {
                        lemma_units_after_insert(before, res_address, dec_of(units@), other);
                    }
                }
            }
        }
        Ok(())
    }

    pub fn update_collateral(&mut self, res_address: ResourceAddress, delta: Decimal) -> (r: Result<
        (),
        String,
    >)
        ensures
            final(self).cdp_id == old(self).cdp_id,
            old(self).cdp_data.valid() ==> final(self).cdp_data.valid(),
            match spec_changed_units(
                old(self).cdp_data.units(PositionKind::Collateral, res_address),
                delta@,
            ) {
                Ok(units) => {
                    &&& r.is_ok()
                    &&& final(self).cdp_data_updated
                    &&& final(self).cdp_data.same_but(old(self).cdp_data, PositionKind::Collateral)
                    &&& final(self).cdp_data.entries(PositionKind::Collateral) == entries_set(
                        old(self).cdp_data.entries(PositionKind::Collateral),
                        res_address,
                        units,
                    )
                    &&& units_follow(
                        final(self).cdp_data.entries(PositionKind::Collateral),
                        old(self).cdp_data.entries(PositionKind::Collateral),
                        res_address,
                        units,
                    )
                },
                Err(e) => err_text(r) == Some(e) && *final(self) == *old(self),
            },
    {
        self.update_units(PositionKind::Collateral, res_address, delta)
    }

    pub fn update_loan(&mut self, res_address: ResourceAddress, delta: Decimal) -> (r: Result<(), String>)
        ensures
            final(self).cdp_id == old(self).cdp_id,
            old(self).cdp_data.valid() ==> final(self).cdp_data.valid(),
            match spec_changed_units(old(self).cdp_data.units(PositionKind::Loan, res_address), delta@) {
                Ok(units) => {
                    &&& r.is_ok()
                    &&& final(self).cdp_data_updated
                    &&& final(self).cdp_data.same_but(old(self).cdp_data, PositionKind::Loan)
                    &&& final(self).cdp_data.entries(PositionKind::Loan) == entries_set(
                        old(self).cdp_data.entries(PositionKind::Loan),
                        res_address,
                        units,
                    )
                    &&& units_follow(
                        final(self).cdp_data.entries(PositionKind::Loan),
                        old(self).cdp_data.entries(PositionKind::Loan),
                        res_address,
                        units,
                    )
                },
                Err(e) => err_text(r) == Some(e) && *final(self) == *old(self),
            },
    {
        self.update_units(PositionKind::Loan, res_address, delta)
    }

    pub fn update_delegatee_loan(&mut self, res_address: ResourceAddress, delta: Decimal) -> (r: Result<
        (),
        String,
    >)
        ensures
            final(self).cdp_id == old(self).cdp_id,
            old(self).cdp_data.valid() ==> final(self).cdp_data.valid(),
            match spec_changed_units(
                old(self).cdp_data.units(PositionKind::DelegateeLoan, res_address),
                delta@,
            ) {
                Ok(units) => {
                    &&& r.is_ok()
                    &&& final(self).cdp_data_updated
                    &&& final(self).cdp_data.same_but(old(self).cdp_data, PositionKind::DelegateeLoan)
                    &&& final(self).cdp_data.entries(PositionKind::DelegateeLoan) == entries_set(
                        old(self).cdp_data.entries(PositionKind::DelegateeLoan),
                        res_address,
                        units,
                    )
                    &&& units_follow(
                        final(self).cdp_data.entries(PositionKind::DelegateeLoan),
                        old(self).cdp_data.entries(PositionKind::DelegateeLoan),
                        res_address,
                        units,
                    )
                },
                Err(e) => err_text(r) == Some(e) && *final(self) == *old(self),
            },
    {
        self.update_units(PositionKind::DelegateeLoan, res_address, delta)
    }

    /// Counts one more delegatee and returns the count before and after. A
    /// delegatee cannot have delegatees.
    pub fn increase_delegatee_count(&mut self) -> (r: Result<(u64, u64), String>)
        ensures
            final(self).cdp_id == old(self).cdp_id,
            old(self).spec_is_delegatee() ==> err_text(r) == Some(err_delegatee_as_delegator())
                && *final(self) == *old(self),
            !old(self).spec_is_delegatee() && old(self).cdp_data.delegatee_count == u64::MAX
                ==> err_text(r) == Some(err_delegatee_count_overflow()) && *final(self) == *old(self),
            !old(self).spec_is_delegatee() && old(self).cdp_data.delegatee_count < u64::MAX ==> {
                &&& r == Ok::<(u64, u64), String>(
                    (old(self).cdp_data.delegatee_count, (old(self).cdp_data.delegatee_count + 1) as u64),
                )
                &&& *final(self) == old(self).with_delegatee_count(
                    (old(self).cdp_data.delegatee_count + 1) as u64,
                )
            },
    {
        if self.cdp_data.cdp_type.is_delegatee() {
            return Err(message("Delegatee CDP can not have delegatees"));
        }
        let before = self.cdp_data.delegatee_count;
        if before == u64::MAX {
            return Err(message("Delegatee count overflow"));
        }
        self.cdp_data.delegatee_count = before + 1;
        self.cdp_data_updated = true;
        Ok((before, before + 1))
    }

    /// Counts one delegatee less and returns the count before and after.
    /// Fails if there is none.
    pub fn decrease_delegatee_count(&mut self) -> (r: Result<(u64, u64), String>)
        ensures
            final(self).cdp_id == old(self).cdp_id,
            old(self).cdp_data.delegatee_count == 0 ==> err_text(r) == Some(
                err_delegatee_count_underflow(),
            ) && *final(self) == *old(self),
            old(self).cdp_data.delegatee_count > 0 ==> {
                &&& r == Ok::<(u64, u64), String>(
                    (old(self).cdp_data.delegatee_count, (old(self).cdp_data.delegatee_count - 1) as u64),
                )
                &&& *final(self) == old(self).with_delegatee_count(
                    (old(self).cdp_data.delegatee_count - 1) as u64,
                )
            },
    {
        let before = self.cdp_data.delegatee_count;
        if before == 0 {
            return Err(message("Delegatee count underflow"));
        }
        self.cdp_data.delegatee_count = before - 1;
        self.cdp_data_updated = true;
        Ok((before, before - 1))
    }

    pub fn update_cdp_type(&mut self, cdp_type: CDPType)
        ensures
            *final(self) == old(self).with_type(cdp_type),
    {
        self.cdp_data.cdp_type = cdp_type;
        self.cdp_data_updated = true;
    }

    /// Replaces the limits of a delegatee. Fails, changing nothing, for a
    /// position that is no delegatee or for limits out of range.
    pub fn update_delegatee_info(
        &mut self,
        max_loan_value: Option<Decimal>,
        max_loan_value_ratio: Option<Decimal>,
    ) -> (r: Result<(), String>)
        ensures
            final(self).cdp_id == old(self).cdp_id,
            match old(self).cdp_data.cdp_type {
                CDPType::Standard => err_text(r) == Some(err_not_delegatee()) && *final(self) == *old(self),
                CDPType::Delegatee(info) => if delegatee_limits_valid(max_loan_value, max_loan_value_ratio) {
                    &&& r.is_ok()
                    &&& *final(self) == old(self).with_type(
                        CDPType::Delegatee(DelegatorInfo { max_loan_value, max_loan_value_ratio, ..info }),
                    )
                } else {
                    err_text(r) == Some(err_delegatee_limits()) && *final(self) == *old(self)
                },
            },
    {
        match self.cdp_data.cdp_type {
            CDPType::Standard => Err(message("CDP is not a delegatee")),
            CDPType::Delegatee(info) => {
                if !check_delegatee_limits(max_loan_value, max_loan_value_ratio) {
                    return Err(message("Delegatee limits out of range"));
                }
                self.cdp_data.cdp_type = CDPType::Delegatee(
                    DelegatorInfo {
                        cdp_id: info.cdp_id,
                        delegatee_index: info.delegatee_index,
                        max_loan_value,
                        max_loan_value_ratio,
                    },
                );
                self.cdp_data_updated = true;
                Ok(())
            },
        }
    }

    /// Whether the collateral and loan positions are no more than
    /// `max_cdp_position`.
    pub fn within_position_cap(&self, max_cdp_position: u8) -> (r: bool)
        ensures
            r == (self.cdp_data.position_count() <= max_cdp_position),
    {
        let collaterals = units_len(&self.cdp_data.collaterals);
        let loans = units_len(&self.cdp_data.loans);
        !(collaterals > max_cdp_position as usize || loans > max_cdp_position as usize - collaterals)
    }

    /// The number of collateral positions after the collateral units of an
    /// asset are set to `units`.
    pub fn collateral_count_with(&self, res_address: ResourceAddress, units: Decimal) -> (r: u128)
        ensures
            r == entries_set(self.cdp_data.entries(PositionKind::Collateral), res_address, units@).len(),
    {
        proof {
            lemma_entries_len(
                self.cdp_data.entries(PositionKind::Collateral),
                res_address,
                dec_of(units@),
            );
        }
        let held = units_contains(&self.cdp_data.collaterals, res_address);
        let count = units_len(&self.cdp_data.collaterals) as u128;
        if units.is_zero() {
            if held {
                assert(count > 0);
                count - 1
            } else {
                count
            }
        } else {
            if held {
                count
            } else {
                count + 1
            }
        }
    }

    /// Walks the three maps of the position: none holds an asset twice.
    pub fn confirm_valid(&self)
        ensures
            self.cdp_data.valid(),
    {
        units_walk(&self.cdp_data.collaterals);
        units_walk(&self.cdp_data.loans);
        units_walk(&self.cdp_data.delegatee_loans);
    }

    /// A copy of the position for trying a change on.
    pub fn scratch_copy(&self) -> (r: WrappedCDPData)
        ensures
            r@ == self@,
            r.cdp_id == self.cdp_id,
            r.cdp_data_updated == self.cdp_data_updated,
            r.cdp_data.valid() == self.cdp_data.valid(),
            r.cdp_data.position_count() == self.cdp_data.position_count(),
    {
        WrappedCDPData {
            cdp_id: self.cdp_id,
            cdp_data: CollaterizedDebtPositionData {
                name: self.cdp_data.name.clone(),
                description: self.cdp_data.description.clone(),
                key_image_url: self.cdp_data.key_image_url.clone(),
                cdp_type: self.cdp_data.cdp_type,
                collaterals: units_clone(&self.cdp_data.collaterals),
                loans: units_clone(&self.cdp_data.loans),
                delegatee_loans: units_clone(&self.cdp_data.delegatee_loans),
                delegatee_count: self.cdp_data.delegatee_count,
                minted_at: self.cdp_data.minted_at,
                updated_at: self.cdp_data.updated_at,
            },
            cdp_data_updated: self.cdp_data_updated,
        }
    }

    /// Adds the loan units of a position to this position's aggregate, or
    /// takes them off it, asset by asset. Fails, changing nothing, if the
    /// aggregate of an asset would leave the range or go below zero.
    pub fn shift_aggregate(&mut self, loans: &IndexMap<ResourceAddress, Decimal>, add: bool) -> (r: Result<
        (),
        String,
    >)
        ensures
            final(self).cdp_id == old(self).cdp_id,
            final(self).cdp_data.valid(),
            match spec_aggregate_error(
                old(self).cdp_data.entries(PositionKind::DelegateeLoan),
                unit_entries(*loans),
                0,
                add,
            ) {
                Some(e) => err_text(r) == Some(e) && *final(self) == *old(self),
                None => {
                    &&& r.is_ok()
                    &&& final(self).cdp_data_updated
                    &&& final(self).cdp_data.same_but(old(self).cdp_data, PositionKind::DelegateeLoan)
                    &&& final(self).cdp_data.entries(PositionKind::DelegateeLoan)
                        == spec_aggregate_after(
                        old(self).cdp_data.entries(PositionKind::DelegateeLoan),
                        unit_entries(*loans),
                        0,
                        add,
                    )
                },
            },
    {
        self.confirm_valid();
        let ghost aggregate = self.cdp_data.entries(PositionKind::DelegateeLoan);
        let ghost owed = unit_entries(*loans);
        let n = units_len(loans);
        let mut i: usize = 0;
        while i < n
            invariant
                n == owed.len(),
                owed == unit_entries(*loans),
                0 <= i <= n,
                *self == *old(self),
                self.cdp_data.valid(),
                aggregate == self.cdp_data.entries(PositionKind::DelegateeLoan),
                spec_aggregate_error(aggregate, owed, 0, add) == spec_aggregate_error(
                    aggregate,
                    owed,
                    i as int,
                    add,
                ),
                forall|j: int|
                    0 <= j < i ==> (#[trigger] spec_shifted_units(
                        units_of(aggregate, owed[j].0),
                        owed[j].1@,
                        add,
                    )).is_ok(),
            decreases n - i,
        {
            let (res, units) = units_entry_at(loans, i);
            let current = self.get_delegatee_loan_unit(res);
            let delta = if add {
                Some(units)
            } else {
                units.checked_neg()
            };
            match delta {
                None => {
                    return Err(message("Position units overflow"));
                },
                Some(delta) => {
                    let _ = changed_units(current, delta)?;
                },
            }
            i = i + 1;
        }
        let mut k: usize = 0;
        while k < n
            invariant
                n == owed.len(),
                owed == unit_entries(*loans),
                0 <= k <= n,
                self.cdp_id == old(self).cdp_id,
                aggregate == old(self).cdp_data.entries(PositionKind::DelegateeLoan),
                self.cdp_data.same_but(old(self).cdp_data, PositionKind::DelegateeLoan),
                k > 0 ==> self.cdp_data_updated,
                k == 0 ==> *self == *old(self),
                self.cdp_data.valid(),
                spec_aggregate_error(aggregate, owed, 0, add).is_none(),
                spec_aggregate_after(aggregate, owed, 0, add) == spec_aggregate_after(
                    self.cdp_data.entries(PositionKind::DelegateeLoan),
                    owed,
                    k as int,
                    add,
                ),
                forall|j: int|
                    0 <= j < n ==> (#[trigger] spec_shifted_units(
                        units_of(aggregate, owed[j].0),
                        owed[j].1@,
                        add,
                    )).is_ok(),
                forall|j: int|
                    k <= j < n ==> units_of(
                        self.cdp_data.entries(PositionKind::DelegateeLoan),
                        #[trigger] owed[j].0,
                    ) == units_of(aggregate, owed[j].0),
            decreases n - k,
        {
            let (res, units) = units_entry_at(loans, k);
            let ghost before = self.cdp_data.entries(PositionKind::DelegateeLoan);
            assert(spec_shifted_units(units_of(aggregate, owed[k as int].0), owed[k as int].1@, add).is_ok());
            assert(units_of(before, owed[k as int].0) == units_of(aggregate, owed[k as int].0));
            let delta = if add {
                Some(units)
            } else {
                units.checked_neg()
            };
            match delta {
                None => {
                    return Err(message("Position units overflow"));
                },
                Some(delta) => {
                    self.update_delegatee_loan(res, delta)?;
                },
            }
            proof {
                let after = self.cdp_data.entries(PositionKind::DelegateeLoan);
                assert forall|j: int| k + 1 <= j < n implies units_of(after, #[trigger] owed[j].0)
                    == units_of(aggregate, owed[j].0) by {
                    assert(owed[j].0 != res);
                    assert(units_of(after, owed[j].0) == units_of(before, owed[j].0));
                }
            }
            k = k + 1;
        }
        if n == 0 {
            self.cdp_data_updated = true;
        }
        Ok(())
    }

    /// Prepares the position for writing back. Nothing is due if nothing
    /// changed. Otherwise the number of collateral and loan positions must
    /// not exceed `max_cdp_position`; then the time of the update is set to
    /// `now` and the result says that the data is to be written.
    pub fn save_cdp(&mut self, max_cdp_position: u8, now: i64) -> (r: Result<bool, String>)
        ensures
            final(self).cdp_id == old(self).cdp_id,
            !old(self).cdp_data_updated ==> r == Ok::<bool, String>(false) && *final(self) == *old(self),
            old(self).cdp_data_updated && old(self).cdp_data.position_count() > max_cdp_position
                ==> err_text(r) == Some(err_too_many_positions()) && *final(self) == *old(self),
            old(self).cdp_data_updated && old(self).cdp_data.position_count() <= max_cdp_position ==> {
                &&& r == Ok::<bool, String>(true)
                &&& *final(self) == old(self).saved(now)
            },
    {
        if !self.cdp_data_updated {
            return Ok(false);
        }
        let collaterals = units_len(&self.cdp_data.collaterals);
        let loans = units_len(&self.cdp_data.loans);
        if collaterals > max_cdp_position as usize || loans > max_cdp_position as usize - collaterals {
            return Err(message("Max CDP position exceeded"));
        }
        self.cdp_data.updated_at = now;
        self.cdp_data_updated = false;
        Ok(true)
    }
}

} // verus!
