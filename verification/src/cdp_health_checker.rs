//! The health of a debt position: its collateral and loans valued at the
//! pools' prices, the collateral discounted by the liquidation thresholds,
//! and the loan-to-value ratios that decide what may be done with it.
//!
//! A health checker is built from a position, its delegator if it has one, and the
//! pools. A pool that a position touches must be up to date at the time of the
//! check.

use crate::cdp_data::{view_of, CDPType, CdpView, PositionKind, WrappedCDPData};
use crate::decimal::{
    dec_max, dec_of, lemma_dec_of, one_attos, spec_add, spec_div, spec_mul, spec_sub, Decimal,
};
use crate::liquidation_threshold::{LiquidationThreshold, LiquidationThresholdView};
use crate::pool_state::{find_pool, pool_index, pools_well_formed, LendingPoolState};
use crate::position_maps::{CollateralPositions, LoanPositions};
use crate::precise_decimal::{
    lemma_pdec_of, pdec_of, spec_pdiv, spec_truncate, PreciseDecimal, RoundingMode,
};
use crate::unit_map::{
    entries_with, unit_entries, units_entry_at, units_insert, units_len, units_new, units_of,
};
use crate::utils::{err_text, message, ResourceAddress};
use scrypto::prelude::IndexMap;
use vstd::prelude::*;

verus! {

/// What a map of units is loaded as.
#[derive(Clone, Copy, Debug, PartialEq, Eq, Structural)]
pub enum LoadPositionType {
    Collateral,
    Loan,
    DelegatorLoan,
    DelegatorCollateral,
}

/// Whose units are loaded: the position's own or its delegator's.
#[derive(Clone, Copy, Debug, PartialEq, Eq, Structural)]
pub enum LoadDataType {
    Own,
    Delegator,
}

/// Units of one asset with the amount and value they stand for, for the
/// position itself and for what it shares with its delegator.
#[derive(Clone, Copy, Debug, PartialEq, Eq, Structural)]
pub struct PositionData {
    pub units: Decimal,
    pub amount: Decimal,
    pub value: Decimal,
    pub delegator_units: Decimal,
    pub delegator_amount: Decimal,
    pub delegator_value: Decimal,
    /// Units per amount; zero until loaded.
    pub unit_ratio: PreciseDecimal,
}

/// Extends the collateral position with necessary information for the CDP
/// health check.
#[derive(Debug)]
pub struct ExtendedCollateralPositionData {
    pub pool_res_address: ResourceAddress,
    pub price: Decimal,
    pub asset_type: u8,
    pub liquidation_threshold: LiquidationThreshold,
    pub liquidation_bonus_rate: Decimal,
    pub protocol_liquidation_fee_rate: Decimal,
    pub data: PositionData,
}

/// A collateral position with its limits as plain tables.
pub struct ExtendedCollateralPositionView {
    pub pool_res_address: ResourceAddress,
    pub price: Decimal,
    pub asset_type: u8,
    pub liquidation_threshold: LiquidationThresholdView,
    pub liquidation_bonus_rate: Decimal,
    pub protocol_liquidation_fee_rate: Decimal,
    pub data: PositionData,
}

impl View for ExtendedCollateralPositionData {
    type V = ExtendedCollateralPositionView;

    open spec fn view(&self) -> ExtendedCollateralPositionView {
        ExtendedCollateralPositionView {
            pool_res_address: self.pool_res_address,
            price: self.price,
            asset_type: self.asset_type,
            liquidation_threshold: self.liquidation_threshold@,
            liquidation_bonus_rate: self.liquidation_bonus_rate,
            protocol_liquidation_fee_rate: self.protocol_liquidation_fee_rate,
            data: self.data,
        }
    }
}

/// Extends the loan position with necessary information for the CDP health
/// check.
#[derive(Clone, Copy, Debug, PartialEq, Eq, Structural)]
pub struct ExtendedLoanPositionData {
    pub pool_res_address: ResourceAddress,
    pub price: Decimal,
    pub asset_type: u8,
    pub loan_close_factor: Decimal,
    pub data: PositionData,
    pub discounted_collateral_value: Decimal,
}

/// The positions of a CDP, and of its delegator where it has one, with the
/// figures of the last health check.
#[derive(Debug)]
pub struct CDPHealthChecker {
    pub cdp_type: CDPType,
    /// The value of the loans, the delegator's included.
    pub total_loan_value: Decimal,
    /// The total loan value over the discounted collateral value.
    pub total_loan_to_value_ratio: Decimal,
    /// The value of the position's own loans.
    pub self_loan_value: Decimal,
    /// The most of the own loans that one liquidation may repay, in value.
    pub self_closable_loan_value: Decimal,
    /// The own loan value over the discounted collateral value.
    pub self_loan_to_value_ratio: Decimal,
    /// The collateral positions, in the order in which their assets were
    /// first loaded.
    pub collateral_positions: CollateralPositions,
    /// The loan positions, in the order in which their assets were first
    /// loaded.
    pub loan_positions: LoanPositions,
}

pub open spec fn err_pool_not_found() -> Seq<char> {
    "Pool state not found"@
}

pub open spec fn err_position_amount() -> Seq<char> {
    "Error calculating position amount"@
}

pub open spec fn err_position_delegator_amount() -> Seq<char> {
    "Error calculating position delegator amount"@
}

pub open spec fn err_pool_out_of_date() -> Seq<char> {
    "Pool state is out of date"@
}

pub open spec fn err_health_overflow() -> Seq<char> {
    "Health check overflow"@
}

pub open spec fn err_ltv_too_high() -> Seq<char> {
    "LTV need to be lower 1"@
}

pub open spec fn err_loan_value_limit() -> Seq<char> {
    "Loan value need to be lower than setted limit"@
}

pub open spec fn err_loan_value_ratio_limit() -> Seq<char> {
    "Loan value ratio need to be lower than setted limit"@
}

pub open spec fn err_cannot_liquidate() -> Seq<char> {
    "This CDP can not be liquidated: LTV ratio lower than 1"@
}

pub open spec fn err_cannot_refinance() -> Seq<char> {
    "This CDP can not be refinanced: LTV ratio greater than 1"@
}

/// The sums that a health check collects over the loan positions.
#[derive(Clone, Copy, Debug, PartialEq, Eq, Structural)]
pub struct HealthTotals {
    /// Each loan's discounted collateral value times its total value,
    /// summed.
    pub weighted_discounted_collateral_value: Decimal,
    pub total_loan_value: Decimal,
    pub self_loan_value: Decimal,
    pub self_closable_loan_value: Decimal,
}

/// The views of a list of collateral positions.
pub open spec fn collateral_views(positions: Seq<ExtendedCollateralPositionData>) -> Seq<
    ExtendedCollateralPositionView,
> {
    Seq::new(positions.len(), |i: int| positions[i]@)
}

/// The first index from `i` on of a collateral position of the asset; the
/// number of positions if there is none.
pub open spec fn collateral_index(cs: Seq<ExtendedCollateralPositionView>, res: ResourceAddress,
    i: int) -> int
    decreases cs.len() - i,
{
    if i < 0 || i >= cs.len() {
        cs.len() as int
    } else if cs[i].pool_res_address == res {
        i
    } else {
        collateral_index(cs, res, i + 1)
    }
}

/// The first index from `i` on of a loan position of the asset; the number
/// of positions if there is none.
pub open spec fn loan_index(ls: Seq<ExtendedLoanPositionData>, res: ResourceAddress, i: int) -> int
    decreases ls.len() - i,
{
    if i < 0 || i >= ls.len() {
        ls.len() as int
    } else if ls[i].pool_res_address == res {
        i
    } else {
        loan_index(ls, res, i + 1)
    }
}

/// Whose units a load adds to.
pub open spec fn load_data_type(kind: LoadPositionType) -> LoadDataType {
    match kind {
        LoadPositionType::Collateral | LoadPositionType::Loan => LoadDataType::Own,
        LoadPositionType::DelegatorCollateral | LoadPositionType::DelegatorLoan => LoadDataType::Delegator,
    }
}

/// Whether a load goes to the collateral positions.
pub open spec fn loads_collateral(kind: LoadPositionType) -> bool {
    kind == LoadPositionType::Collateral || kind == LoadPositionType::DelegatorCollateral
}

/// Position data without units.
pub open spec fn empty_position_data() -> PositionData {
    PositionData {
        units: dec_of(0),
        amount: dec_of(0),
        value: dec_of(0),
        delegator_units: dec_of(0),
        delegator_amount: dec_of(0),
        delegator_value: dec_of(0),
        unit_ratio: pdec_of(0),
    }
}

/// A collateral position of a pool's asset, without units.
pub open spec fn new_collateral_view(pool: LendingPoolState) -> ExtendedCollateralPositionView {
    ExtendedCollateralPositionView {
        pool_res_address: pool.pool_res_address,
        price: pool.last_price,
        asset_type: pool.pool_config.asset_type,
        liquidation_threshold: pool.liquidation_threshold@,
        liquidation_bonus_rate: pool.pool_config.liquidation_bonus_rate,
        protocol_liquidation_fee_rate: pool.pool_config.protocol_liquidation_fee_rate,
        data: empty_position_data(),
    }
}

/// A loan position of a pool's asset, without units.
pub open spec fn new_loan_position(pool: LendingPoolState) -> ExtendedLoanPositionData {
    ExtendedLoanPositionData {
        pool_res_address: pool.pool_res_address,
        price: pool.last_price,
        asset_type: pool.pool_config.asset_type,
        loan_close_factor: pool.pool_config.loan_close_factor,
        data: empty_position_data(),
        discounted_collateral_value: dec_of(0),
    }
}

/// The amount that units stand for at a ratio, rounded toward zero.
pub open spec fn spec_amount_of(units: int, ratio: int) -> Option<int> {
    match spec_pdiv(units * one_attos(), ratio) {
        None => None,
        Some(p) => spec_truncate(p, RoundingMode::ToZero),
    }
}

impl PositionData {
    /// The data after `units` are added to the own or the delegator's
    /// units; the unit ratio is taken from the pool if it was not set.
    pub open spec fn spec_loaded(self, units: Decimal, load_type: LoadDataType,
        pool: LendingPoolState) -> Result<
        PositionData,
        Seq<char>,
    > {
        let current = match load_type {
            LoadDataType::Own => self.units@,
            LoadDataType::Delegator => self.delegator_units@,
        };
        match spec_add(current, units@) {
            None => Err(err_health_overflow()),
            Some(sum) => {
                let loaded = match load_type {
                    LoadDataType::Own => PositionData { units: dec_of(sum), ..self },
                    LoadDataType::Delegator => PositionData { delegator_units: dec_of(sum), ..self },
                };
                if self.unit_ratio@ == 0 {
                    match pool.spec_ratio() {
                        Err(e) => Err(e),
                        Ok(ratio) => Ok(PositionData { unit_ratio: pdec_of(ratio), ..loaded }),
                    }
                } else {
                    Ok(loaded)
                }
            },
        }
    }

    /// The data with amounts and values computed from the units at a price.
    pub open spec fn spec_updated(self, price: Decimal) -> Result<PositionData, Seq<char>> {
        match spec_amount_of(self.units@, self.unit_ratio@) {
            None => Err(err_position_amount()),
            Some(amount) => match spec_mul(amount, price@) {
                None => Err(err_health_overflow()),
                Some(value) => match spec_amount_of(self.delegator_units@, self.unit_ratio@) {
                    None => Err(err_position_delegator_amount()),
                    Some(delegator_amount) => match spec_mul(delegator_amount, price@) {
                        None => Err(err_health_overflow()),
                        Some(delegator_value) => Ok(
                            PositionData {
                                amount: dec_of(amount),
                                value: dec_of(value),
                                delegator_amount: dec_of(delegator_amount),
                                delegator_value: dec_of(delegator_value),
                                ..self
                            },
                        ),
                    },
                },
            },
        }
    }

    /// Position data without units.
    pub fn empty() -> (r: PositionData)
        ensures
            r == empty_position_data(),
    {
        let zero = Decimal::zero();
        let ratio = PreciseDecimal::zero();
        proof {
            lemma_dec_of(zero);
            lemma_pdec_of(ratio);
        }
        PositionData {
            units: zero,
            amount: zero,
            value: zero,
            delegator_units: zero,
            delegator_amount: zero,
            delegator_value: zero,
            unit_ratio: ratio,
        }
    }

    /// Adds units read from the ledger to the own or the delegator's units
    /// and, the first time, takes the unit ratio from the pool. Fails,
    /// changing nothing, if the units leave the range or the pool's ratio is
    /// in error.
    pub fn load_onledger_data(&mut self, units: Decimal, load_type: LoadDataType,
        pool_state: &LendingPoolState) -> (r:
        Result<(), String>)
        ensures
            match old(self).spec_loaded(units, load_type, *pool_state) {
                Ok(data) => r.is_ok() && *final(self) == data,
                Err(e) => err_text(r) == Some(e) && *final(self) == *old(self),
            },
    {
        let current = match load_type {
            LoadDataType::Own => self.units,
            LoadDataType::Delegator => self.delegator_units,
        };
        let sum = match current.checked_add(units) {
            Some(v) => v,
            None => {
                return Err(message("Health check overflow"));
            },
        };
        proof {
            lemma_dec_of(sum);
        }
        if self.unit_ratio.is_zero() {
            let ratio = pool_state.get_loan_unit_ratio()?;
            proof {
                lemma_pdec_of(ratio);
            }
            self.unit_ratio = ratio;
        }
        match load_type {
            LoadDataType::Own => {
                self.units = sum;
            },
            LoadDataType::Delegator => {
                self.delegator_units = sum;
            },
        }
        Ok(())
    }

    /// Computes amounts and values from the units: the amount is the units
    /// over the unit ratio, rounded toward zero; the value is the amount
    /// times the price. Fails, changing nothing, if one cannot be computed.
    pub fn update_data(&mut self, price: Decimal) -> (r: Result<(), String>)
        ensures
            match old(self).spec_updated(price) {
                Ok(data) => r.is_ok() && *final(self) == data,
                Err(e) => err_text(r) == Some(e) && *final(self) == *old(self),
            },
    {
        let amount = match amount_of(self.units, self.unit_ratio) {
            Some(v) => v,
            None => {
                return Err(message("Error calculating position amount"));
            },
        };
        let value = match amount.checked_mul(price) {
            Some(v) => v,
            None => {
                return Err(message("Health check overflow"));
            },
        };
        let delegator_amount = match amount_of(self.delegator_units, self.unit_ratio) {
            Some(v) => v,
            None => {
                return Err(message("Error calculating position delegator amount"));
            },
        };
        let delegator_value = match delegator_amount.checked_mul(price) {
            Some(v) => v,
            None => {
                return Err(message("Health check overflow"));
            },
        };
        proof {
            lemma_dec_of(amount);
            lemma_dec_of(value);
            lemma_dec_of(delegator_amount);
            lemma_dec_of(delegator_value);
        }
        self.amount = amount;
        self.value = value;
        self.delegator_amount = delegator_amount;
        self.delegator_value = delegator_value;
        Ok(())
    }
}

/// The amount that units stand for at a ratio, rounded toward zero; nothing
/// for a ratio of zero or an amount out of range.
pub fn amount_of(units: Decimal, unit_ratio: PreciseDecimal) -> (r: Option<Decimal>)
    ensures
        crate::decimal::opt_view(r) == spec_amount_of(units@, unit_ratio@),
{
    match PreciseDecimal::from_decimal(units).checked_div(unit_ratio) {
        Some(p) => p.checked_truncate(RoundingMode::ToZero),
        None => None,
    }
}

impl ExtendedCollateralPositionData {
    /// Computes the amounts and values of the position at its price.
    pub fn update_data(&mut self) -> (r: Result<(), String>)
        ensures
            match old(self).data.spec_updated(old(self).price) {
                Ok(data) => r.is_ok() && final(self)@ == (ExtendedCollateralPositionView {
                    data,
                    ..old(self)@
                }),
                Err(e) => err_text(r) == Some(e) && *final(self) == *old(self),
            },
    {
        self.data.update_data(self.price)
    }
}

/// The positions after units of one asset are loaded: the asset's position
/// is created from its pool if it is not there yet, then the units are
/// added to it.
pub open spec fn spec_load_position(
    cs: Seq<ExtendedCollateralPositionView>,
    ls: Seq<ExtendedLoanPositionData>,
    pools: Seq<LendingPoolState>,
    now: i64,
    res: ResourceAddress,
    units: Decimal,
    kind: LoadPositionType,
) -> Result<(Seq<ExtendedCollateralPositionView>, Seq<ExtendedLoanPositionData>), Seq<char>> {
    let p = pool_index(pools, res, 0);
    if p >= pools.len() {
        Err(err_pool_not_found())
    } else if pools[p].spec_update_due(now) {
        Err(err_pool_out_of_date())
    } else if loads_collateral(kind) {
        let i = collateral_index(cs, res, 0);
        let with_position = if i >= cs.len() {
            cs.push(new_collateral_view(pools[p]))
        } else {
            cs
        };
        match with_position[i].data.spec_loaded(units, load_data_type(kind), pools[p]) {
            Err(e) => Err(e),
            Ok(data) => Ok(
                (
                    with_position.update(
                        i,
                        ExtendedCollateralPositionView { data, ..with_position[i] },
                    ),
                    ls,
                ),
            ),
        }
    } else {
        let i = loan_index(ls, res, 0);
        let with_position = if i >= ls.len() {
            ls.push(new_loan_position(pools[p]))
        } else {
            ls
        };
        match with_position[i].data.spec_loaded(units, load_data_type(kind), pools[p]) {
            Err(e) => Err(e),
            Ok(data) => Ok(
                (cs, with_position.update(i, ExtendedLoanPositionData { data, ..with_position[i] })),
            ),
        }
    }
}

/// The positions after the entries of a map of units, from index `i` on, are
/// loaded in order.
pub open spec fn spec_load_entries(
    cs: Seq<ExtendedCollateralPositionView>,
    ls: Seq<ExtendedLoanPositionData>,
    pools: Seq<LendingPoolState>,
    now: i64,
    entries: Seq<(ResourceAddress, Decimal)>,
    i: int,
    kind: LoadPositionType,
) -> Result<(Seq<ExtendedCollateralPositionView>, Seq<ExtendedLoanPositionData>), Seq<char>>
    decreases entries.len() - i,
{
    if i < 0 || i >= entries.len() {
        Ok((cs, ls))
    } else {
        match spec_load_position(cs, ls, pools, now, entries[i].0, entries[i].1, kind) {
            Err(e) => Err(e),
            Ok((c, l)) => spec_load_entries(c, l, pools, now, entries, i + 1, kind),
        }
    }
}

/// The positions after what an aggregate holds beyond the loans of the
/// position itself is loaded as delegator units, from index `i` of the
/// aggregate on: each entry less the loan units of the position. For a
/// delegatee that is what its delegator and the other delegatees owe, for a
/// delegator what its delegatees owe.
pub open spec fn spec_load_others(
    cs: Seq<ExtendedCollateralPositionView>,
    ls: Seq<ExtendedLoanPositionData>,
    pools: Seq<LendingPoolState>,
    now: i64,
    entries: Seq<(ResourceAddress, Decimal)>,
    own_loans: Seq<(ResourceAddress, Decimal)>,
    i: int,
) -> Result<(Seq<ExtendedCollateralPositionView>, Seq<ExtendedLoanPositionData>), Seq<char>>
    decreases entries.len() - i,
{
    if i < 0 || i >= entries.len() {
        Ok((cs, ls))
    } else {
        match spec_sub(entries[i].1@, units_of(own_loans, entries[i].0)) {
            None => Err(err_health_overflow()),
            Some(others) => match spec_load_position(
                cs,
                ls,
                pools,
                now,
                entries[i].0,
                dec_of(others),
                LoadPositionType::DelegatorLoan,
            ) {
                Err(e) => Err(e),
                Ok((c, l)) => spec_load_others(c, l, pools, now, entries, own_loans, i + 1),
            },
        }
    }
}

/// The positions after every asset of the entries from index `i` on has a
/// loan position of its own, with no units added.
pub open spec fn spec_load_assets(
    cs: Seq<ExtendedCollateralPositionView>,
    ls: Seq<ExtendedLoanPositionData>,
    pools: Seq<LendingPoolState>,
    now: i64,
    entries: Seq<(ResourceAddress, Decimal)>,
    i: int,
) -> Result<(Seq<ExtendedCollateralPositionView>, Seq<ExtendedLoanPositionData>), Seq<char>>
    decreases entries.len() - i,
{
    if i < 0 || i >= entries.len() {
        Ok((cs, ls))
    } else {
        match spec_load_position(
            cs,
            ls,
            pools,
            now,
            entries[i].0,
            dec_of(0),
            LoadPositionType::DelegatorLoan,
        ) {
            Err(e) => Err(e),
            Ok((c, l)) => spec_load_assets(c, l, pools, now, entries, i + 1),
        }
    }
}

/// What a delegator adds to the positions of its delegatee: its collateral
/// and, from its aggregate, every loan on that collateral but the
/// delegatee's own: its own loans and those of its other delegatees. Every
/// asset that the delegator owes itself has a loan position, and the
/// units are counted once, from the aggregate.
pub open spec fn spec_load_delegator(
    cs: Seq<ExtendedCollateralPositionView>,
    ls: Seq<ExtendedLoanPositionData>,
    pools: Seq<LendingPoolState>,
    now: i64,
    cdp: CdpView,
    delegator: CdpView,
) -> Result<(Seq<ExtendedCollateralPositionView>, Seq<ExtendedLoanPositionData>), Seq<char>> {
    match spec_load_entries(
        cs,
        ls,
        pools,
        now,
        delegator.collaterals,
        0,
        LoadPositionType::DelegatorCollateral,
    ) {
        Err(e) => Err(e),
        Ok((c1, l1)) => match spec_load_assets(c1, l1, pools, now, delegator.loans, 0) {
            Err(e) => Err(e),
            Ok((c2, l2)) => spec_load_others(c2, l2, pools, now, delegator.delegatee_loans, cdp.loans, 0),
        },
    }
}

/// The positions of a health checker for a CDP: its collateral and its
/// loans; if it is a delegator, its aggregate less its own loans, which
/// are the loans of its delegatees; and what its delegator adds if one is
/// given.
pub open spec fn spec_create(
    cdp: CdpView,
    delegator: Option<CdpView>,
    pools: Seq<LendingPoolState>,
    now: i64,
) -> Result<(Seq<ExtendedCollateralPositionView>, Seq<ExtendedLoanPositionData>), Seq<char>> {
    match spec_load_entries(
        Seq::empty(),
        Seq::empty(),
        pools,
        now,
        cdp.collaterals,
        0,
        LoadPositionType::Collateral,
    ) {
        Err(e) => Err(e),
        Ok((c1, l1)) => match spec_load_entries(
            c1,
            l1,
            pools,
            now,
            cdp.loans,
            0,
            LoadPositionType::Loan,
        ) {
            Err(e) => Err(e),
            Ok((c2, l2)) => match (if cdp.is_delegator() {
                spec_load_others(c2, l2, pools, now, cdp.delegatee_loans, cdp.loans, 0)
            } else {
                Ok((c2, l2))
            }) {
                Err(e) => Err(e),
                Ok((c3, l3)) => match delegator {
                    Some(d) => spec_load_delegator(c3, l3, pools, now, cdp, d),
                    None => Ok((c3, l3)),
                },
            },
        },
    }
}

/// Where no collateral position is found from `i` on, none from there on
/// is for the asset.
pub proof fn lemma_collateral_absent(cs: Seq<ExtendedCollateralPositionView>, res: ResourceAddress, i: int)
    requires
        0 <= i <= cs.len(),
        collateral_index(cs, res, i) >= cs.len(),
    ensures
        forall|j: int| i <= j < cs.len() ==> (#[trigger] cs[j]).pool_res_address != res,
    decreases cs.len() - i,
{
    if i < cs.len() {
        lemma_collateral_absent(cs, res, i + 1);
    }
}

/// Where no loan position is found from `i` on, none from there on is for
/// the asset.
pub proof fn lemma_loan_absent(ls: Seq<ExtendedLoanPositionData>, res: ResourceAddress, i: int)
    requires
        0 <= i <= ls.len(),
        loan_index(ls, res, i) >= ls.len(),
    ensures
        forall|j: int| i <= j < ls.len() ==> (#[trigger] ls[j]).pool_res_address != res,
    decreases ls.len() - i,
{
    if i < ls.len() {
        lemma_loan_absent(ls, res, i + 1);
    }
}

impl CDPHealthChecker {
    /// The views of the collateral positions.
    pub open spec fn collaterals(self) -> Seq<ExtendedCollateralPositionView> {
        collateral_views(self.collateral_positions@)
    }

    /// The tables of limits of every collateral position are well formed.
    pub open spec fn well_formed(self) -> bool {
        forall|i: int|
            0 <= i < self.collateral_positions@.len() ==> (
            #[trigger] self.collateral_positions@[i]).liquidation_threshold.well_formed()
    }

    /// Whether no figure has been computed yet.
    pub open spec fn figures_are_zero(self) -> bool {
        &&& self.total_loan_value@ == 0
        &&& self.total_loan_to_value_ratio@ == 0
        &&& self.self_loan_value@ == 0
        &&& self.self_closable_loan_value@ == 0
        &&& self.self_loan_to_value_ratio@ == 0
    }

    /// Whether the two agree in everything but their positions.
    pub open spec fn same_figures(self, other: CDPHealthChecker) -> bool {
        &&& self.cdp_type == other.cdp_type
        &&& self.total_loan_value == other.total_loan_value
        &&& self.total_loan_to_value_ratio == other.total_loan_to_value_ratio
        &&& self.self_loan_value == other.self_loan_value
        &&& self.self_closable_loan_value == other.self_closable_loan_value
        &&& self.self_loan_to_value_ratio == other.self_loan_to_value_ratio
    }

    /// The position of the first collateral position of an asset; the
    /// number of positions if there is none.
    pub fn find_collateral(&self, res: ResourceAddress) -> (r: usize)
        ensures
            r == collateral_index(self.collaterals(), res, 0),
            r <= self.collateral_positions@.len(),
    {
        let n = self.collateral_positions.len();
        let mut i: usize = 0;
        while i < n
            invariant
                n == self.collateral_positions@.len(),
                0 <= i <= n,
                collateral_index(self.collaterals(), res, 0) == collateral_index(
                    self.collaterals(),
                    res,
                    i as int,
                ),
            decreases n - i,
        {
            assert(self.collaterals()[i as int] == self.collateral_positions@[i as int]@);
            if self.collateral_positions.key_at(i) == res {
                return i;
            }
            i = i + 1;
        }
        n
    }

    /// The position of the first loan position of an asset; the number of
    /// positions if there is none.
    pub fn find_loan(&self, res: ResourceAddress) -> (r: usize)
        ensures
            r == loan_index(self.loan_positions@, res, 0),
            r <= self.loan_positions@.len(),
    {
        let n = self.loan_positions.len();
        let mut i: usize = 0;
        while i < n
            invariant
                n == self.loan_positions@.len(),
                0 <= i <= n,
                loan_index(self.loan_positions@, res, 0) == loan_index(
                    self.loan_positions@,
                    res,
                    i as int,
                ),
            decreases n - i,
        {
            if self.loan_positions.at(i).pool_res_address == res {
                return i;
            }
            i = i + 1;
        }
        n
    }

    /// Loads units of one asset: finds the asset's pool, creates the
    /// position from it if needed, and adds the units. Fails, changing
    /// nothing, if the asset has no pool or the units cannot be added.
    pub fn load_data(
        &mut self,
        pool_states: &Vec<LendingPoolState>,
        now: i64,
        pool_res_address: ResourceAddress,
        units: Decimal,
        load_type: LoadPositionType,
    ) -> (r: Result<(), String>)
        requires
            old(self).well_formed(),
            pools_well_formed(pool_states@),
        ensures
            final(self).well_formed(),
            final(self).same_figures(*old(self)),
            match spec_load_position(
                old(self).collaterals(),
                old(self).loan_positions@,
                pool_states@,
                now,
                pool_res_address,
                units,
                load_type,
            ) {
                Ok((cs, ls)) => r.is_ok() && final(self).collaterals() == cs && final(self).loan_positions@
                    == ls,
                Err(e) => err_text(r) == Some(e) && *final(self) == *old(self),
            },
    {
        let p = find_pool(pool_states, pool_res_address);
        if p >= pool_states.len() {
            return Err(message("Pool state not found"));
        }
        let pool_state = &pool_states[p];
        if pool_state.update_due(now) {
            return Err(message("Pool state is out of date"));
        }
        match load_type {
            LoadPositionType::Collateral | LoadPositionType::DelegatorCollateral => {
                let data_type = match load_type {
                    LoadPositionType::Collateral => LoadDataType::Own,
                    _ => LoadDataType::Delegator,
                };
                let i = self.find_collateral(pool_res_address);
                let ghost before = self.collaterals();
                if i >= self.collateral_positions.len() {
                    let mut data = PositionData::empty();
                    data.load_onledger_data(units, data_type, pool_state)?;
                    let threshold = pool_state.liquidation_threshold.clone();
                    proof {
                        lemma_collateral_absent(before, pool_res_address, 0);
                        assert forall|j: int| 0 <= j < self.collateral_positions@.len() implies (
                        #[trigger] self.collateral_positions@[j]).pool_res_address
                            != pool_state.pool_res_address by {
                            assert(before[j] == self.collateral_positions@[j]@);
                        }
                    }
                    self.collateral_positions.push(
                        ExtendedCollateralPositionData {
                            pool_res_address: pool_state.pool_res_address,
                            price: pool_state.last_price,
                            asset_type: pool_state.pool_config.asset_type,
                            liquidation_threshold: threshold,
                            liquidation_bonus_rate: pool_state.pool_config.liquidation_bonus_rate,
                            protocol_liquidation_fee_rate: pool_state.pool_config.protocol_liquidation_fee_rate,
                            data,
                        },
                    );
                    assert(self.collaterals() =~= before.push(new_collateral_view(*pool_state)).update(
                        i as int,
                        ExtendedCollateralPositionView { data, ..new_collateral_view(*pool_state) },
                    ));
                } else {
                    assert(before[i as int] == self.collateral_positions@[i as int]@);
                    let mut data = self.collateral_positions.at(i).data;
                    data.load_onledger_data(units, data_type, pool_state)?;
                    self.collateral_positions.set_data(i, data);
                    assert(self.collaterals() =~= before.update(
                        i as int,
                        ExtendedCollateralPositionView { data, ..before[i as int] },
                    ));
                }
            },
            LoadPositionType::Loan | LoadPositionType::DelegatorLoan => {
                let data_type = match load_type {
                    LoadPositionType::Loan => LoadDataType::Own,
                    _ => LoadDataType::Delegator,
                };
                let i = self.find_loan(pool_res_address);
                let ghost before = self.loan_positions@;
                if i >= self.loan_positions.len() {
                    let mut data = PositionData::empty();
                    data.load_onledger_data(units, data_type, pool_state)?;
                    let zero = Decimal::zero();
                    proof {
                        lemma_dec_of(zero);
                        lemma_loan_absent(before, pool_res_address, 0);
                    }
                    self.loan_positions.push(
                        ExtendedLoanPositionData {
                            pool_res_address: pool_state.pool_res_address,
                            price: pool_state.last_price,
                            asset_type: pool_state.pool_config.asset_type,
                            loan_close_factor: pool_state.pool_config.loan_close_factor,
                            data,
                            discounted_collateral_value: zero,
                        },
                    );
                    assert(self.loan_positions@ =~= before.push(new_loan_position(*pool_state)).update(
                        i as int,
                        ExtendedLoanPositionData { data, ..new_loan_position(*pool_state) },
                    ));
                } else {
                    let mut position = self.loan_positions.at(i);
                    let mut data = position.data;
                    data.load_onledger_data(units, data_type, pool_state)?;
                    position.data = data;
                    self.loan_positions.set_at(i, position);
                    assert(self.loan_positions@ =~= before.update(
                        i as int,
                        ExtendedLoanPositionData { data, ..before[i as int] },
                    ));
                }
            },
        }
        Ok(())
    }

    /// Loads every entry of a map of units, in order. On failure the
    /// checker is left with what was loaded before the failing entry.
    fn load_entries(
        &mut self,
        pool_states: &Vec<LendingPoolState>,
        now: i64,
        units: &IndexMap<ResourceAddress, Decimal>,
        load_type: LoadPositionType,
    ) -> (r: Result<(), String>)
        requires
            old(self).well_formed(),
            pools_well_formed(pool_states@),
        ensures
            final(self).well_formed(),
            final(self).same_figures(*old(self)),
            match spec_load_entries(
                old(self).collaterals(),
                old(self).loan_positions@,
                pool_states@,
                now,
                unit_entries(*units),
                0,
                load_type,
            ) {
                Ok((cs, ls)) => r.is_ok() && final(self).collaterals() == cs && final(self).loan_positions@
                    == ls,
                Err(e) => err_text(r) == Some(e),
            },
    {
        let n = units_len(units);
        let mut i: usize = 0;
        while i < n
            invariant
                n == unit_entries(*units).len(),
                0 <= i <= n,
                self.well_formed(),
                pools_well_formed(pool_states@),
                self.same_figures(*old(self)),
                spec_load_entries(
                    old(self).collaterals(),
                    old(self).loan_positions@,
                    pool_states@,
                    now,
                    unit_entries(*units),
                    0,
                    load_type,
                ) == spec_load_entries(
                    self.collaterals(),
                    self.loan_positions@,
                    pool_states@,
                    now,
                    unit_entries(*units),
                    i as int,
                    load_type,
                ),
            decreases n - i,
        {
            let (res, amount) = units_entry_at(units, i);
            self.load_data(pool_states, now, res, amount, load_type)?;
            i = i + 1;
        }
        Ok(())
    }

    /// Gives every asset of a map of units a loan position of its own,
    /// adding no units. On failure the checker is left with what was loaded
    /// before the failing entry.
    fn load_assets(
        &mut self,
        pool_states: &Vec<LendingPoolState>,
        now: i64,
        units: &IndexMap<ResourceAddress, Decimal>,
    ) -> (r: Result<(), String>)
        requires
            old(self).well_formed(),
            pools_well_formed(pool_states@),
        ensures
            final(self).well_formed(),
            final(self).same_figures(*old(self)),
            match spec_load_assets(
                old(self).collaterals(),
                old(self).loan_positions@,
                pool_states@,
                now,
                unit_entries(*units),
                0,
            ) {
                Ok((cs, ls)) => r.is_ok() && final(self).collaterals() == cs && final(self).loan_positions@
                    == ls,
                Err(e) => err_text(r) == Some(e),
            },
    {
        let n = units_len(units);
        let zero = Decimal::zero();
        proof {
            lemma_dec_of(zero);
        }
        let mut i: usize = 0;
        while i < n
            invariant
                n == unit_entries(*units).len(),
                0 <= i <= n,
                zero == dec_of(0),
                self.well_formed(),
                pools_well_formed(pool_states@),
                self.same_figures(*old(self)),
                spec_load_assets(
                    old(self).collaterals(),
                    old(self).loan_positions@,
                    pool_states@,
                    now,
                    unit_entries(*units),
                    0,
                ) == spec_load_assets(
                    self.collaterals(),
                    self.loan_positions@,
                    pool_states@,
                    now,
                    unit_entries(*units),
                    i as int,
                ),
            decreases n - i,
        {
            let (res, _) = units_entry_at(units, i);
            self.load_data(pool_states, now, res, zero, LoadPositionType::DelegatorLoan)?;
            i = i + 1;
        }
        Ok(())
    }

    /// Loads what an aggregate holds beyond the loans of the position
    /// itself: every entry of the aggregate less the loan units of the
    /// position.
    fn load_others(
        &mut self,
        pool_states: &Vec<LendingPoolState>,
        now: i64,
        delegatee_loans: &IndexMap<ResourceAddress, Decimal>,
        wrapped_cdp_data: &WrappedCDPData,
    ) -> (r: Result<(), String>)
        requires
            old(self).well_formed(),
            pools_well_formed(pool_states@),
        ensures
            final(self).well_formed(),
            final(self).same_figures(*old(self)),
            match spec_load_others(
                old(self).collaterals(),
                old(self).loan_positions@,
                pool_states@,
                now,
                unit_entries(*delegatee_loans),
                wrapped_cdp_data.cdp_data.entries(PositionKind::Loan),
                0,
            ) {
                Ok((cs, ls)) => r.is_ok() && final(self).collaterals() == cs && final(self).loan_positions@
                    == ls,
                Err(e) => err_text(r) == Some(e),
            },
    {
        let n = units_len(delegatee_loans);
        let mut i: usize = 0;
        while i < n
            invariant
                n == unit_entries(*delegatee_loans).len(),
                0 <= i <= n,
                self.well_formed(),
                pools_well_formed(pool_states@),
                self.same_figures(*old(self)),
                spec_load_others(
                    old(self).collaterals(),
                    old(self).loan_positions@,
                    pool_states@,
                    now,
                    unit_entries(*delegatee_loans),
                    wrapped_cdp_data.cdp_data.entries(PositionKind::Loan),
                    0,
                ) == spec_load_others(
                    self.collaterals(),
                    self.loan_positions@,
                    pool_states@,
                    now,
                    unit_entries(*delegatee_loans),
                    wrapped_cdp_data.cdp_data.entries(PositionKind::Loan),
                    i as int,
                ),
            decreases n - i,
        {
            let (res, delegatee_loan_units) = units_entry_at(delegatee_loans, i);
            let self_loan_unit = wrapped_cdp_data.get_loan_unit(res);
            let others = match delegatee_loan_units.checked_sub(self_loan_unit) {
                Some(v) => v,
                None => {
                    return Err(message("Health check overflow"));
                },
            };
            proof {
                lemma_dec_of(others);
            }
            self.load_data(pool_states, now, res, others, LoadPositionType::DelegatorLoan)?;
            i = i + 1;
        }
        Ok(())
    }

    /// Creates the health checker of a CDP from its data, the data of its delegator
    /// if it is a delegatee, and the pools. Fails if an asset has no pool, a
    /// pool's loan unit ratio is in error, or units leave the range.
    pub fn new(
        wrapped_cdp_data: &WrappedCDPData,
        wrapped_delegator_cdp_data: Option<&WrappedCDPData>,
        pool_states: &Vec<LendingPoolState>,
        now: i64,
    ) -> (r: Result<CDPHealthChecker, String>)
        requires
            pools_well_formed(pool_states@),
        ensures
            match spec_create(
                wrapped_cdp_data@,
                view_of(wrapped_delegator_cdp_data),
                pool_states@,
                now,
            ) {
                Ok((cs, ls)) => r.is_ok() && r.unwrap().collaterals() == cs && r.unwrap().loan_positions@
                    == ls && r.unwrap().cdp_type == wrapped_cdp_data@.cdp_type
                    && r.unwrap().figures_are_zero() && r.unwrap().well_formed(),
                Err(e) => err_text(r) == Some(e),
            },
    {
        Self::create_health_checker(wrapped_cdp_data, wrapped_delegator_cdp_data, pool_states, now)
    }

    /// Loads, in this order: the CDP's collateral, its loans, the loans of
    /// its delegatees if it is a delegator, and, if a delegator is given, the
    /// delegator's collateral, its loans, and the loans of its other
    /// delegatees.
    pub fn create_health_checker(
        wrapped_cdp_data: &WrappedCDPData,
        wrapped_delegator_cdp_data: Option<&WrappedCDPData>,
        pool_states: &Vec<LendingPoolState>,
        now: i64,
    ) -> (r: Result<CDPHealthChecker, String>)
        requires
            pools_well_formed(pool_states@),
        ensures
            match spec_create(
                wrapped_cdp_data@,
                view_of(wrapped_delegator_cdp_data),
                pool_states@,
                now,
            ) {
                Ok((cs, ls)) => r.is_ok() && r.unwrap().collaterals() == cs && r.unwrap().loan_positions@
                    == ls && r.unwrap().cdp_type == wrapped_cdp_data@.cdp_type
                    && r.unwrap().figures_are_zero() && r.unwrap().well_formed(),
                Err(e) => err_text(r) == Some(e),
            },
    {
        let cdp_data = wrapped_cdp_data.get_data();
        let zero = Decimal::zero();
        let mut extended_cdp = CDPHealthChecker {
            cdp_type: cdp_data.cdp_type,
            collateral_positions: CollateralPositions::new(),
            loan_positions: LoanPositions::new(),
            total_loan_value: zero,
            total_loan_to_value_ratio: zero,
            self_loan_value: zero,
            self_loan_to_value_ratio: zero,
            self_closable_loan_value: zero,
        };
        assert(extended_cdp.collaterals() =~= Seq::empty());
        assert(extended_cdp.loan_positions@ =~= Seq::empty());
        extended_cdp.load_entries(
            pool_states,
            now,
            &cdp_data.collaterals,
            LoadPositionType::Collateral,
        )?;
        extended_cdp.load_entries(pool_states, now, &cdp_data.loans, LoadPositionType::Loan)?;
        if wrapped_cdp_data.is_delegator() {
            extended_cdp.load_others(
                pool_states,
                now,
                &cdp_data.delegatee_loans,
                wrapped_cdp_data,
            )?;
        }
        if let Some(wrapped_delegator_cdp_data) = wrapped_delegator_cdp_data {
            let delegator_cdp_data = wrapped_delegator_cdp_data.get_data();
            extended_cdp.load_entries(
                pool_states,
                now,
                &delegator_cdp_data.collaterals,
                LoadPositionType::DelegatorCollateral,
            )?;
            extended_cdp.load_assets(pool_states, now, &delegator_cdp_data.loans)?;
            extended_cdp.load_others(
                pool_states,
                now,
                &delegator_cdp_data.delegatee_loans,
                wrapped_cdp_data,
            )?;
        }
        Ok(extended_cdp)
    }
}

/// The collateral positions with the data of those from index `i` on
/// computed anew, each at its price.
pub open spec fn spec_refresh_collaterals(cs: Seq<ExtendedCollateralPositionView>, i: int) -> Result<
    Seq<ExtendedCollateralPositionView>,
    Seq<char>,
>
    decreases cs.len() - i,
{
    if i < 0 || i >= cs.len() {
        Ok(cs)
    } else {
        match cs[i].data.spec_updated(cs[i].price) {
            Err(e) => Err(e),
            Ok(data) => spec_refresh_collaterals(
                cs.update(i, ExtendedCollateralPositionView { data, ..cs[i] }),
                i + 1,
            ),
        }
    }
}

/// The share of a collateral's value that counts against a loan of the given
/// asset type: the liquidation threshold, but no more than one less the
/// liquidation bonus.
pub open spec fn spec_effective_threshold(c: ExtendedCollateralPositionView, loan_type: u8) -> Option<int> {
    match spec_sub(one_attos(), c.liquidation_bonus_rate@) {
        None => None,
        Some(cap) => {
            let threshold = c.liquidation_threshold.get_ratio(c.asset_type, loan_type)@;
            if cap <= threshold {
                Some(cap)
            } else {
                Some(threshold)
            }
        },
    }
}

/// What one collateral position adds to the discounted collateral value of
/// a loan of the given asset type.
pub open spec fn spec_discounted_term(c: ExtendedCollateralPositionView, loan_type: u8) -> Option<int> {
    match spec_effective_threshold(c, loan_type) {
        None => None,
        Some(threshold) => match spec_add(c.data.value@, c.data.delegator_value@) {
            None => None,
            Some(value) => spec_mul(threshold, value),
        },
    }
}

/// The discounted collateral value for a loan of the given asset type: `acc`
/// plus the terms of the collateral positions from index `i` on.
pub open spec fn spec_discounted(cs: Seq<ExtendedCollateralPositionView>, loan_type: u8, i: int,
    acc: int) -> Option<
    int,
>
    decreases cs.len() - i,
{
    if i < 0 || i >= cs.len() {
        Some(acc)
    } else {
        match spec_discounted_term(cs[i], loan_type) {
            None => None,
            Some(term) => match spec_add(acc, term) {
                None => None,
                Some(sum) => spec_discounted(cs, loan_type, i + 1, sum),
            },
        }
    }
}

/// The sums with one loan position added.
pub open spec fn spec_totals_with(totals: HealthTotals, l: ExtendedLoanPositionData) -> Option<HealthTotals> {
    match (
        spec_add(totals.self_loan_value@, l.data.value@),
        spec_mul(l.data.value@, l.loan_close_factor@),
        spec_add(l.data.value@, l.data.delegator_value@),
    ) {
        (Some(self_loan_value), Some(closable), Some(position_total)) => match (
            spec_add(totals.self_closable_loan_value@, closable),
            spec_add(totals.total_loan_value@, position_total),
            spec_mul(l.discounted_collateral_value@, position_total),
        ) {
            (Some(self_closable), Some(total), Some(weighted_term)) => match spec_add(
                totals.weighted_discounted_collateral_value@,
                weighted_term,
            ) {
                Some(weighted) => Some(
                    HealthTotals {
                        weighted_discounted_collateral_value: dec_of(weighted),
                        total_loan_value: dec_of(total),
                        self_loan_value: dec_of(self_loan_value),
                        self_closable_loan_value: dec_of(self_closable),
                    },
                ),
                None => None,
            },
            _ => None,
        },
        _ => None,
    }
}

/// The loan positions with the data of those from index `i` on computed
/// anew against the collateral, and the sums with them added.
pub open spec fn spec_refresh_loans(
    ls: Seq<ExtendedLoanPositionData>,
    cs: Seq<ExtendedCollateralPositionView>,
    i: int,
    totals: HealthTotals,
) -> Result<(Seq<ExtendedLoanPositionData>, HealthTotals), Seq<char>>
    decreases ls.len() - i,
{
    if i < 0 || i >= ls.len() {
        Ok((ls, totals))
    } else {
        match ls[i].spec_updated(cs) {
            Err(e) => Err(e),
            Ok(l) => match spec_totals_with(totals, l) {
                None => Err(err_health_overflow()),
                Some(t) => spec_refresh_loans(ls.update(i, l), cs, i + 1, t),
            },
        }
    }
}

/// The sums before any loan is added.
pub open spec fn zero_totals() -> HealthTotals {
    HealthTotals {
        weighted_discounted_collateral_value: dec_of(0),
        total_loan_value: dec_of(0),
        self_loan_value: dec_of(0),
        self_closable_loan_value: dec_of(0),
    }
}

/// The loan-to-value ratios `(total, self)` for the sums. The discounted
/// collateral value is the weighted sum over the total loan value. Without
/// loans both ratios are zero; with loans and no discounted collateral both
/// are the largest amount.
pub open spec fn spec_ltv(totals: HealthTotals) -> Result<(Decimal, Decimal), Seq<char>> {
    let discounted = if totals.total_loan_value@ == 0 {
        Some(0int)
    } else {
        spec_div(totals.weighted_discounted_collateral_value@, totals.total_loan_value@)
    };
    match discounted {
        None => Err(err_health_overflow()),
        Some(d) => if d == 0 {
            if totals.total_loan_value@ == 0 {
                Ok((dec_of(0), dec_of(0)))
            } else {
                Ok((dec_of(dec_max()), dec_of(dec_max())))
            }
        } else {
            match (spec_div(totals.total_loan_value@, d), spec_div(totals.self_loan_value@, d)) {
                (Some(total), Some(own)) => Ok((dec_of(total), dec_of(own))),
                _ => Err(err_health_overflow()),
            }
        },
    }
}

/// The complaint of `check_cdp` about the figures, if any: the total ratio
/// must be below one, and a delegatee must keep within its limits.
pub open spec fn spec_check_error(
    cdp_type: CDPType,
    total_ltv: Decimal,
    self_loan_value: Decimal,
    self_ltv: Decimal,
) -> Option<Seq<char>> {
    if !(total_ltv@ < one_attos()) {
        Some(err_ltv_too_high())
    } else {
        match cdp_type {
            CDPType::Delegatee(info) => {
                if info.max_loan_value.is_some() && !(self_loan_value@
                    <= info.max_loan_value.unwrap()@) {
                    Some(err_loan_value_limit())
                } else if info.max_loan_value_ratio.is_some() && !(self_ltv@
                    <= info.max_loan_value_ratio.unwrap()@) {
                    Some(err_loan_value_ratio_limit())
                } else {
                    None
                }
            },
            CDPType::Standard => None,
        }
    }
}

impl ExtendedLoanPositionData {
    /// The position with its data computed anew and its discounted
    /// collateral value summed over the collateral.
    pub open spec fn spec_updated(self, cs: Seq<ExtendedCollateralPositionView>) -> Result<
        ExtendedLoanPositionData,
        Seq<char>,
    > {
        match self.data.spec_updated(self.price) {
            Err(e) => Err(e),
            Ok(data) => match spec_discounted(cs, self.asset_type, 0, 0) {
                None => Err(err_health_overflow()),
                Some(discounted) => Ok(
                    ExtendedLoanPositionData {
                        data,
                        discounted_collateral_value: dec_of(discounted),
                        ..self
                    },
                ),
            },
        }
    }

    /// Computes the amounts and values of the loan at its price, and the
    /// collateral value that counts against it: for each collateral
    /// position, its value times the lesser of its liquidation threshold for
    /// this loan and one less its liquidation bonus. Fails, changing
    /// nothing, if an amount cannot be computed.
    pub fn update_data(&mut self, collateral_positions: &CollateralPositions) -> (r: Result<
        (),
        String,
    >)
        requires
            forall|i: int|
                0 <= i < collateral_positions@.len() ==> (
                #[trigger] collateral_positions@[i]).liquidation_threshold.well_formed(),
        ensures
            match old(self).spec_updated(collateral_views(collateral_positions@)) {
                Ok(l) => r.is_ok() && *final(self) == l,
                Err(e) => err_text(r) == Some(e) && *final(self) == *old(self),
            },
    {
        let mut data = self.data;
        data.update_data(self.price)?;
        let ghost cs = collateral_views(collateral_positions@);
        let n = collateral_positions.len();
        let mut discounted = Decimal::zero();
        let mut i: usize = 0;
        while i < n
            invariant
                n == collateral_positions@.len(),
                0 <= i <= n,
                cs == collateral_views(collateral_positions@),
                *self == *old(self),
                old(self).data.spec_updated(old(self).price) == Ok::<PositionData, Seq<char>>(data),
                forall|k: int|
                    0 <= k < collateral_positions@.len() ==> (
                    #[trigger] collateral_positions@[k]).liquidation_threshold.well_formed(),
                spec_discounted(cs, self.asset_type, 0, 0) == spec_discounted(
                    cs,
                    self.asset_type,
                    i as int,
                    discounted@,
                ),
            decreases n - i,
        {
            let collateral = collateral_positions.at(i);
            let collateral_address = collateral_positions.key_at(i);
            assert(cs[i as int] == collateral_positions@[i as int]@);
            let threshold = collateral.liquidation_threshold.get_ratio(
                collateral_address,
                collateral.asset_type,
                self.pool_res_address,
                self.asset_type,
            );
            let cap = match Decimal::one().checked_sub(collateral.liquidation_bonus_rate) {
                Some(v) => v,
                None => {
                    return Err(message("Health check overflow"));
                },
            };
            let effective = if cap.le(threshold) {
                cap
            } else {
                threshold
            };
            let value = match collateral.data.value.checked_add(collateral.data.delegator_value) {
                Some(v) => v,
                None => {
                    return Err(message("Health check overflow"));
                },
            };
            let term = match effective.checked_mul(value) {
                Some(v) => v,
                None => {
                    return Err(message("Health check overflow"));
                },
            };
            discounted = match discounted.checked_add(term) {
                Some(v) => v,
                None => {
                    return Err(message("Health check overflow"));
                },
            };
            i = i + 1;
        }
        proof {
            lemma_dec_of(discounted);
        }
        self.data = data;
        self.discounted_collateral_value = discounted;
        Ok(())
    }
}

/// The sums with one loan position added; nothing if a sum leaves the
/// range.
pub fn totals_with(totals: HealthTotals, l: &ExtendedLoanPositionData) -> (r: Option<HealthTotals>)
    ensures
        r == spec_totals_with(totals, *l),
{
    let self_loan_value = totals.self_loan_value.checked_add(l.data.value);
    let closable = l.data.value.checked_mul(l.loan_close_factor);
    let position_total = l.data.value.checked_add(l.data.delegator_value);
    match (self_loan_value, closable, position_total) {
        (Some(self_loan_value), Some(closable), Some(position_total)) => {
            let self_closable = totals.self_closable_loan_value.checked_add(closable);
            let total = totals.total_loan_value.checked_add(position_total);
            let weighted_term = l.discounted_collateral_value.checked_mul(position_total);
            match (self_closable, total, weighted_term) {
                (Some(self_closable), Some(total), Some(weighted_term)) => {
                    match totals.weighted_discounted_collateral_value.checked_add(weighted_term) {
                        Some(weighted) => {
                            proof {
                                lemma_dec_of(weighted);
                                lemma_dec_of(total);
                                lemma_dec_of(self_loan_value);
                                lemma_dec_of(self_closable);
                            }
                            Some(
                                HealthTotals {
                                    weighted_discounted_collateral_value: weighted,
                                    total_loan_value: total,
                                    self_loan_value,
                                    self_closable_loan_value: self_closable,
                                },
                            )
                        },
                        None => None,
                    }
                },
                _ => None,
            }
        },
        _ => None,
    }
}

/// The loan-to-value ratios `(total, self)` for the sums.
pub fn loan_to_value_ratios(totals: HealthTotals) -> (r: Result<(Decimal, Decimal), String>)
    ensures
        match spec_ltv(totals) {
            Ok(ratios) => r == Ok::<(Decimal, Decimal), String>(ratios),
            Err(e) => err_text(r) == Some(e),
        },
{
    let total_discounted_collateral_value = if totals.total_loan_value.is_zero() {
        Decimal::zero()
    } else {
        match totals.weighted_discounted_collateral_value.checked_div(totals.total_loan_value) {
            Some(v) => v,
            None => {
                return Err(message("Health check overflow"));
            },
        }
    };
    if total_discounted_collateral_value.is_zero() {
        if totals.total_loan_value.is_zero() {
            let zero = Decimal::zero();
            proof {
                lemma_dec_of(zero);
            }
            Ok((zero, zero))
        } else {
            let max = Decimal::max_value();
            proof {
                lemma_dec_of(max);
            }
            Ok((max, max))
        }
    } else {
        let total = totals.total_loan_value.checked_div(total_discounted_collateral_value);
        let own = totals.self_loan_value.checked_div(total_discounted_collateral_value);
        match (total, own) {
            (Some(total), Some(own)) => {
                proof {
                    lemma_dec_of(total);
                    lemma_dec_of(own);
                }
                Ok((total, own))
            },
            _ => Err(message("Health check overflow")),
        }
    }
}

/// The collateral positions with the data of the first `n` replaced.
pub open spec fn with_fresh_data(
    cs: Seq<ExtendedCollateralPositionView>,
    fresh: Seq<PositionData>,
    n: int,
) -> Seq<ExtendedCollateralPositionView> {
    Seq::new(
        cs.len(),
        |k: int|
            if k < n {
                ExtendedCollateralPositionView { data: fresh[k], ..cs[k] }
            } else {
                cs[k]
            },
    )
}

/// The loan positions with the first `n` replaced.
pub open spec fn with_fresh_loans(
    ls: Seq<ExtendedLoanPositionData>,
    fresh: Seq<ExtendedLoanPositionData>,
    n: int,
) -> Seq<ExtendedLoanPositionData> {
    Seq::new(
        ls.len(),
        |k: int|
            if k < n {
                fresh[k]
            } else {
                ls[k]
            },
    )
}

/// The value of each loan position with units, by asset: `acc` with the
/// price times the units of the positions from index `i` on entered.
pub open spec fn spec_loan_prices(
    ls: Seq<ExtendedLoanPositionData>,
    i: int,
    acc: Seq<(ResourceAddress, Decimal)>,
) -> Option<Seq<(ResourceAddress, Decimal)>>
    decreases ls.len() - i,
{
    if i < 0 || i >= ls.len() {
        Some(acc)
    } else if ls[i].data.units@ > 0 {
        match spec_mul(ls[i].price@, ls[i].data.units@) {
            None => None,
            Some(v) => spec_loan_prices(ls, i + 1, entries_with(acc, ls[i].pool_res_address, dec_of(v))),
        }
    } else {
        spec_loan_prices(ls, i + 1, acc)
    }
}

impl CDPHealthChecker {
    /// The collateral positions with their data computed anew.
    pub open spec fn spec_collateral_phase(self) -> Result<Seq<ExtendedCollateralPositionView>, Seq<char>> {
        spec_refresh_collaterals(self.collaterals(), 0)
    }

    /// The loan positions computed anew against the given collateral, with
    /// the sums over them and the loan-to-value ratios `(total, self)`.
    pub open spec fn spec_loan_phase(self, cs: Seq<ExtendedCollateralPositionView>) -> Result<
        (Seq<ExtendedLoanPositionData>, HealthTotals, Decimal, Decimal),
        Seq<char>,
    > {
        match spec_refresh_loans(self.loan_positions@, cs, 0, zero_totals()) {
            Err(e) => Err(e),
            Ok((ls, totals)) => match spec_ltv(totals) {
                Err(e) => Err(e),
                Ok((total, own)) => Ok((ls, totals, total, own)),
            },
        }
    }

    /// The complaint of a health check data update, if it fails.
    pub open spec fn spec_refresh_error(self) -> Option<Seq<char>> {
        match self.spec_collateral_phase() {
            Err(e) => Some(e),
            Ok(cs) => match self.spec_loan_phase(cs) {
                Err(e) => Some(e),
                Ok(_) => None,
            },
        }
    }

    /// Whether `self` is what a health check data update makes of `before`.
    /// If the collateral cannot be valued, nothing changes. If the loans
    /// cannot, the collateral data is new and the rest is old. Otherwise
    /// positions and figures are new.
    pub open spec fn refreshed_from(self, before: CDPHealthChecker) -> bool {
        match before.spec_collateral_phase() {
            Err(_) => self == before,
            Ok(cs) => self.collaterals() == cs && self.cdp_type == before.cdp_type
                && match before.spec_loan_phase(cs) {
                Err(_) => self.loan_positions@ == before.loan_positions@ && self.same_figures(before),
                Ok((ls, totals, total, own)) => {
                    &&& self.loan_positions@ == ls
                    &&& self.total_loan_value == totals.total_loan_value
                    &&& self.self_loan_value == totals.self_loan_value
                    &&& self.self_closable_loan_value == totals.self_closable_loan_value
                    &&& self.total_loan_to_value_ratio == total
                    &&& self.self_loan_to_value_ratio == own
                },
            },
        }
    }

    /// The data of every collateral position computed anew, in the order
    /// of the positions. Nothing is changed.
    pub fn compute_collateral_data(&self) -> (r: Result<Vec<PositionData>, String>)
        ensures
            match self.spec_collateral_phase() {
                Ok(cs) => r.is_ok() && r.unwrap()@.len() == self.collateral_positions@.len() && cs
                    == with_fresh_data(self.collaterals(), r.unwrap()@, r.unwrap()@.len() as int),
                Err(e) => err_text(r) == Some(e),
            },
    {
        let ghost cs0 = self.collaterals();
        let n = self.collateral_positions.len();
        let mut fresh: Vec<PositionData> = Vec::new();
        let mut i: usize = 0;
        assert(with_fresh_data(cs0, fresh@, 0) =~= cs0);
        while i < n
            invariant
                n == self.collateral_positions@.len(),
                n == cs0.len(),
                0 <= i <= n,
                fresh@.len() == i,
                cs0 == self.collaterals(),
                spec_refresh_collaterals(cs0, 0) == spec_refresh_collaterals(
                    with_fresh_data(cs0, fresh@, i as int),
                    i as int,
                ),
            decreases n - i,
        {
            let ghost before = with_fresh_data(cs0, fresh@, i as int);
            assert(cs0[i as int] == self.collateral_positions@[i as int]@);
            assert(before[i as int] == cs0[i as int]);
            let mut data = self.collateral_positions.at(i).data;
            let updated = data.update_data(self.collateral_positions.at(i).price);
            if let Err(e) = updated {
                assert(spec_refresh_collaterals(before, i as int) == Err::<
                    Seq<ExtendedCollateralPositionView>,
                    Seq<char>,
                >(e@));
                return Err(e);
            }
            fresh.push(data);
            assert(with_fresh_data(cs0, fresh@, i + 1) =~= before.update(
                i as int,
                ExtendedCollateralPositionView { data, ..before[i as int] },
            ));
            assert(spec_refresh_collaterals(before, i as int) == spec_refresh_collaterals(
                with_fresh_data(cs0, fresh@, i + 1),
                i + 1,
            ));
            i = i + 1;
        }
        assert(spec_refresh_collaterals(with_fresh_data(cs0, fresh@, n as int), n as int) == Ok::<
            Seq<ExtendedCollateralPositionView>,
            Seq<char>,
        >(with_fresh_data(cs0, fresh@, n as int)));
        Ok(fresh)
    }

    /// Replaces the data of every collateral position.
    pub fn set_collateral_data(&mut self, fresh: &Vec<PositionData>)
        requires
            old(self).well_formed(),
            fresh@.len() == old(self).collateral_positions@.len(),
        ensures
            final(self).well_formed(),
            final(self).same_figures(*old(self)),
            final(self).loan_positions@ == old(self).loan_positions@,
            final(self).collaterals() == with_fresh_data(
                old(self).collaterals(),
                fresh@,
                fresh@.len() as int,
            ),
    {
        let ghost cs0 = self.collaterals();
        let n = self.collateral_positions.len();
        let mut j: usize = 0;
        assert(with_fresh_data(cs0, fresh@, 0) =~= cs0);
        while j < n
            invariant
                n == self.collateral_positions@.len(),
                n == fresh@.len(),
                n == cs0.len(),
                0 <= j <= n,
                self.well_formed(),
                self.same_figures(*old(self)),
                self.loan_positions@ == old(self).loan_positions@,
                self.collaterals() == with_fresh_data(cs0, fresh@, j as int),
            decreases n - j,
        {
            let ghost before = self.collateral_positions@;
            let ghost views = self.collaterals();
            let data = fresh[j];
            self.collateral_positions.set_data(j, data);
            let ghost after = self.collateral_positions@;
            assert(after.len() == before.len());
            assert forall|k: int| 0 <= k < n implies #[trigger] self.collaterals()[k]
                == with_fresh_data(cs0, fresh@, j + 1)[k] by {
                assert(self.collaterals()[k] == after[k]@);
                assert(views[k] == before[k]@);
                if k == j {
                    assert(after[k]@ == (ExtendedCollateralPositionView { data, ..before[k]@ }));
                } else {
                    assert(after[k] == before[k]);
                }
            }
            assert(self.collaterals() =~= with_fresh_data(cs0, fresh@, j + 1));
            j = j + 1;
        }
    }

    /// Every loan position computed anew against the collateral, with the
    /// sums over them. Nothing is changed.
    pub fn compute_loans(&self) -> (r: Result<(Vec<ExtendedLoanPositionData>, HealthTotals), String>)
        requires
            self.well_formed(),
        ensures
            match spec_refresh_loans(self.loan_positions@, self.collaterals(), 0, zero_totals()) {
                Ok((ls, totals)) => r.is_ok() && r.unwrap().0@ == ls && r.unwrap().1 == totals,
                Err(e) => err_text(r) == Some(e),
            },
            r.is_ok() ==> r.unwrap().0@.len() == self.loan_positions@.len() && forall|j: int|
                0 <= j < self.loan_positions@.len() ==> (#[trigger] r.unwrap().0@[j]).pool_res_address
                    == self.loan_positions@[j].pool_res_address,
    {
        let ghost ls0 = self.loan_positions@;
        let ghost cs = self.collaterals();
        let m = self.loan_positions.len();
        let mut loans: Vec<ExtendedLoanPositionData> = Vec::new();
        let zero = Decimal::zero();
        proof {
            lemma_dec_of(zero);
        }
        let mut totals = HealthTotals {
            weighted_discounted_collateral_value: zero,
            total_loan_value: zero,
            self_loan_value: zero,
            self_closable_loan_value: zero,
        };
        let mut k: usize = 0;
        assert(with_fresh_loans(ls0, loans@, 0) =~= ls0);
        while k < m
            invariant
                m == self.loan_positions@.len(),
                m == ls0.len(),
                0 <= k <= m,
                loans@.len() == k,
                self.well_formed(),
                self.loan_positions@ == ls0,
                forall|j: int|
                    0 <= j < k ==> (#[trigger] loans@[j]).pool_res_address == ls0[j].pool_res_address,
                self.collaterals() == cs,
                spec_refresh_loans(ls0, cs, 0, zero_totals()) == spec_refresh_loans(
                    with_fresh_loans(ls0, loans@, k as int),
                    cs,
                    k as int,
                    totals,
                ),
            decreases m - k,
        {
            let ghost before = with_fresh_loans(ls0, loans@, k as int);
            assert(before[k as int] == ls0[k as int]);
            let mut loan = self.loan_positions.at(k);
            let updated = loan.update_data(&self.collateral_positions);
            if let Err(e) = updated {
                assert(spec_refresh_loans(before, cs, k as int, totals) == Err::<
                    (Seq<ExtendedLoanPositionData>, HealthTotals),
                    Seq<char>,
                >(e@));
                return Err(e);
            }
            let ghost previous = totals;
            totals = match totals_with(totals, &loan) {
                Some(t) => t,
                None => {
                    assert(spec_refresh_loans(before, cs, k as int, previous) == Err::<
                        (Seq<ExtendedLoanPositionData>, HealthTotals),
                        Seq<char>,
                    >(err_health_overflow()));
                    return Err(message("Health check overflow"));
                },
            };
            loans.push(loan);
            assert(with_fresh_loans(ls0, loans@, k + 1) =~= before.update(k as int, loan));
            assert(spec_refresh_loans(before, cs, k as int, previous) == spec_refresh_loans(
                with_fresh_loans(ls0, loans@, k + 1),
                cs,
                k + 1,
                totals,
            ));
            k = k + 1;
        }
        assert(with_fresh_loans(ls0, loans@, m as int) =~= loans@);
        assert(spec_refresh_loans(loans@, cs, m as int, totals) == Ok::<
            (Seq<ExtendedLoanPositionData>, HealthTotals),
            Seq<char>,
        >((loans@, totals)));
        Ok((loans, totals))
    }

    /// Computes every position's amounts and values and, from them, the
    /// figures of the CDP: first the collateral, then for each loan its
    /// discounted collateral value and its share of the sums, then the
    /// loan-to-value ratios.
    #[verifier::rlimit(60)]
    pub fn _update_health_check_data(&mut self) -> (r: Result<(), String>)
        requires
            old(self).well_formed(),
        ensures
            final(self).well_formed(),
            final(self).refreshed_from(*old(self)),
            err_text(r) == old(self).spec_refresh_error(),
    {
        let ghost before = *self;
        let fresh = match self.compute_collateral_data() {
            Ok(v) => v,
            Err(e) => {
                return Err(e);
            },
        };
        let ghost cs = with_fresh_data(before.collaterals(), fresh@, fresh@.len() as int);
        assert(before.spec_collateral_phase() == Ok::<Seq<ExtendedCollateralPositionView>, Seq<char>>(cs));
        self.set_collateral_data(&fresh);
        assert(self.collaterals() == cs);
        assert(self.loan_positions@ == before.loan_positions@);
        let ghost loan_phase = spec_refresh_loans(before.loan_positions@, cs, 0, zero_totals());
        let (loans, totals) = match self.compute_loans() {
            Ok(v) => v,
            Err(e) => {
                assert(loan_phase is Err);
                assert(before.spec_loan_phase(cs) is Err);
                return Err(e);
            },
        };
        assert(loan_phase == Ok::<(Seq<ExtendedLoanPositionData>, HealthTotals), Seq<char>>(
            (loans@, totals),
        ));
        let (total_loan_to_value_ratio, self_loan_to_value_ratio) = match loan_to_value_ratios(totals) {
            Ok(v) => v,
            Err(e) => {
                assert(before.spec_loan_phase(cs) is Err);
                return Err(e);
            },
        };
        assert(before.spec_loan_phase(cs) == Ok::<
            (Seq<ExtendedLoanPositionData>, HealthTotals, Decimal, Decimal),
            Seq<char>,
        >((loans@, totals, total_loan_to_value_ratio, self_loan_to_value_ratio)));
        let ghost listed = self.loan_positions@;
        self.loan_positions.set_all(&loans);
        assert(self.loan_positions@ =~= loans@) by {
            assert forall|j: int| 0 <= j < loans@.len() implies self.loan_positions@[j] == loans@[j] by {
                assert(loans@[j].pool_res_address == listed[j].pool_res_address);
            }
        }
        self.self_closable_loan_value = totals.self_closable_loan_value;
        self.total_loan_value = totals.total_loan_value;
        self.total_loan_to_value_ratio = total_loan_to_value_ratio;
        self.self_loan_value = totals.self_loan_value;
        self.self_loan_to_value_ratio = self_loan_to_value_ratio;
        Ok(())
    }

    /// Updates the figures and passes if the CDP is healthy: the total
    /// loan-to-value ratio is below one and, for a delegatee, its own loan
    /// value and ratio are within the limits set for it.
    pub fn check_cdp(&mut self) -> (r: Result<(), String>)
        requires
            old(self).well_formed(),
        ensures
            final(self).well_formed(),
            final(self).refreshed_from(*old(self)),
            err_text(r) == match old(self).spec_refresh_error() {
                Some(e) => Some(e),
                None => spec_check_error(
                    final(self).cdp_type,
                    final(self).total_loan_to_value_ratio,
                    final(self).self_loan_value,
                    final(self).self_loan_to_value_ratio,
                ),
            },
    {
        self._update_health_check_data()?;
        if !self.total_loan_to_value_ratio.lt(Decimal::one()) {
            return Err(message("LTV need to be lower 1"));
        }
        match self.cdp_type {
            CDPType::Delegatee(delegator_info) => {
                let loan_value_check = match delegator_info.max_loan_value {
                    Some(max_loan_value) => self.self_loan_value.le(max_loan_value),
                    None => true,
                };
                if !loan_value_check {
                    return Err(message("Loan value need to be lower than setted limit"));
                }
                let loan_value_ratio_check = match delegator_info.max_loan_value_ratio {
                    Some(max_loan_value_ratio) => self.self_loan_to_value_ratio.le(max_loan_value_ratio),
                    None => true,
                };
                if !loan_value_ratio_check {
                    return Err(message("Loan value ratio need to be lower than setted limit"));
                }
            },
            CDPType::Standard => {},
        };
        Ok(())
    }

    /// Updates the figures and passes if the CDP may be liquidated: its
    /// total loan-to-value ratio is not below one.
    pub fn can_liquidate(&mut self) -> (r: Result<(), String>)
        requires
            old(self).well_formed(),
        ensures
            final(self).well_formed(),
            final(self).refreshed_from(*old(self)),
            err_text(r) == match old(self).spec_refresh_error() {
                Some(e) => Some(e),
                None => if final(self).total_loan_to_value_ratio@ < one_attos() {
                    Some(err_cannot_liquidate())
                } else {
                    None
                },
            },
    {
        self._update_health_check_data()?;
        if self.total_loan_to_value_ratio.lt(Decimal::one()) {
            return Err(message("This CDP can not be liquidated: LTV ratio lower than 1"));
        }
        Ok(())
    }

    /// Updates the figures and passes if the CDP may be refinanced: it has
    /// loans and no collateral value left, so its total loan-to-value ratio
    /// is the largest amount.
    pub fn can_refinance(&mut self) -> (r: Result<(), String>)
        requires
            old(self).well_formed(),
        ensures
            final(self).well_formed(),
            final(self).refreshed_from(*old(self)),
            err_text(r) == match old(self).spec_refresh_error() {
                Some(e) => Some(e),
                None => if final(self).total_loan_to_value_ratio@ != dec_max() {
                    Some(err_cannot_refinance())
                } else {
                    None
                },
            },
    {
        self._update_health_check_data()?;
        if !self.total_loan_to_value_ratio.same(Decimal::max_value()) {
            return Err(message("This CDP can not be refinanced: LTV ratio greater than 1"));
        }
        Ok(())
    }

    /// The price times the units of every loan position that has units, by
    /// asset. Fails if a product leaves the range.
    pub fn get_loan_positions_prices(&self) -> (r: Result<IndexMap<ResourceAddress, Decimal>, String>)
        ensures
            match spec_loan_prices(self.loan_positions@, 0, Seq::empty()) {
                Some(entries) => r.is_ok() && unit_entries(r.unwrap()) == entries,
                None => err_text(r) == Some(err_health_overflow()),
            },
    {
        let mut prices = units_new();
        assert(unit_entries(prices) =~= Seq::empty());
        let n = self.loan_positions.len();
        let mut i: usize = 0;
        while i < n
            invariant
                n == self.loan_positions@.len(),
                0 <= i <= n,
                spec_loan_prices(self.loan_positions@, 0, Seq::empty()) == spec_loan_prices(
                    self.loan_positions@,
                    i as int,
                    unit_entries(prices),
                ),
            decreases n - i,
        {
            let loan_position = self.loan_positions.at(i);
            if loan_position.data.units.gt(Decimal::zero()) {
                let value = match loan_position.price.checked_mul(loan_position.data.units) {
                    Some(v) => v,
                    None => {
                        return Err(message("Health check overflow"));
                    },
                };
                proof {
                    lemma_dec_of(value);
                }
                units_insert(&mut prices, loan_position.pool_res_address, value);
            }
            i = i + 1;
        }
        Ok(prices)
    }
}

/// The complaint of a health check on the given positions, if any: either
/// the figures cannot be computed or they fail `spec_check_error`.
pub open spec fn spec_health_check(
    cs: Seq<ExtendedCollateralPositionView>,
    ls: Seq<ExtendedLoanPositionData>,
    cdp_type: CDPType,
) -> Option<Seq<char>> {
    match spec_refresh_collaterals(cs, 0) {
        Err(e) => Some(e),
        Ok(fresh) => match spec_refresh_loans(ls, fresh, 0, zero_totals()) {
            Err(e) => Some(e),
            Ok((_, totals)) => match spec_ltv(totals) {
                Err(e) => Some(e),
                Ok((total, own)) => spec_check_error(cdp_type, total, totals.self_loan_value, own),
            },
        },
    }
}

/// The complaint of a health check on a CDP at `now`, if any. A CDP for
/// which this is `None` is healthy.
pub open spec fn spec_cdp_health(
    cdp: CdpView,
    delegator: Option<CdpView>,
    pools: Seq<LendingPoolState>,
    now: i64,
) -> Option<Seq<char>> {
    match spec_create(cdp, delegator, pools, now) {
        Err(e) => Some(e),
        Ok((cs, ls)) => spec_health_check(cs, ls, cdp.cdp_type),
    }
}

/// Builds the health checker of a CDP and runs the health check on it.
pub fn check_cdp_health(
    wrapped_cdp_data: &WrappedCDPData,
    wrapped_delegator_cdp_data: Option<&WrappedCDPData>,
    pool_states: &Vec<LendingPoolState>,
    now: i64,
) -> (r: Result<(), String>)
    requires
        pools_well_formed(pool_states@),
    ensures
        err_text(r) == spec_cdp_health(
            wrapped_cdp_data@,
            view_of(wrapped_delegator_cdp_data),
            pool_states@,
            now,
        ),
{
    let mut checker = CDPHealthChecker::new(
        wrapped_cdp_data,
        wrapped_delegator_cdp_data,
        pool_states,
        now,
    )?;
    checker.check_cdp()
}

/// The figures that decide on a liquidation or a refinancing of a CDP at
/// `now`: `(total loan-to-value ratio, closable loan value)`, or why they
/// cannot be computed.
pub open spec fn spec_liquidation_figures(
    cdp: CdpView,
    delegator: Option<CdpView>,
    pools: Seq<LendingPoolState>,
    now: i64,
) -> Result<(Decimal, Decimal), Seq<char>> {
    match spec_create(cdp, delegator, pools, now) {
        Err(e) => Err(e),
        Ok((cs, ls)) => match spec_refresh_collaterals(cs, 0) {
            Err(e) => Err(e),
            Ok(fresh) => match spec_refresh_loans(ls, fresh, 0, zero_totals()) {
                Err(e) => Err(e),
                Ok((_, totals)) => match spec_ltv(totals) {
                    Err(e) => Err(e),
                    Ok((total, _)) => Ok((total, totals.self_closable_loan_value)),
                },
            },
        },
    }
}

/// Builds the health checker of a CDP, updates its figures, and returns the total
/// loan-to-value ratio and the closable loan value.
pub fn liquidation_figures(
    wrapped_cdp_data: &WrappedCDPData,
    wrapped_delegator_cdp_data: Option<&WrappedCDPData>,
    pool_states: &Vec<LendingPoolState>,
    now: i64,
) -> (r: Result<(Decimal, Decimal), String>)
    requires
        pools_well_formed(pool_states@),
    ensures
        match spec_liquidation_figures(
            wrapped_cdp_data@,
            view_of(wrapped_delegator_cdp_data),
            pool_states@,
            now,
        ) {
            Ok(figures) => r == Ok::<(Decimal, Decimal), String>(figures),
            Err(e) => err_text(r) == Some(e),
        },
{
    let mut checker = CDPHealthChecker::new(
        wrapped_cdp_data,
        wrapped_delegator_cdp_data,
        pool_states,
        now,
    )?;
    checker._update_health_check_data()?;
    Ok((checker.total_loan_to_value_ratio, checker.self_closable_loan_value))
}

} // verus!
