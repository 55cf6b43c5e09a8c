//! The market: the pools, the switches and the rules that tie positions,
//! pools and health checks together.
//!
//! Each operation here decides and books. Reading the clock, the price feed
//! and the pools on the ledger, moving assets and storing positions is the
//! caller's part: it hands in what it read and carries out what the result
//! names.

use crate::assets::{err_put_overflow, err_put_resource, err_take_amount, Bucket, Vault};
use crate::cdp_data::{
    err_delegatee_as_delegator, err_delegatee_count_overflow, err_delegatee_count_underflow,
    err_not_delegatee, err_too_many_positions, CDPType, CollaterizedDebtPositionData, DelegatorInfo,
    changed_units, entries_set, spec_aggregate_after, spec_aggregate_error, spec_changed_units,
    units_follow, CdpView, PositionKind, WrappedCDPData,
};
use crate::cdp_health_checker::{
    check_cdp_health, err_cannot_liquidate, err_cannot_refinance, liquidation_figures,
    spec_cdp_health, spec_liquidation_figures,
};
use crate::decimal::{dec_max, one_attos, opt_view};
use crate::precise_decimal::PreciseDecimal;
use crate::pool_state::{err_seize_overflow, min_int, spec_seizable};
use crate::unit_map::units_len;
use crate::utils::{is_valid_rate, spec_is_valid_rate};
use crate::decimal::{dec_of, lemma_dec_of, spec_add, spec_mul, spec_sub, Decimal};
use crate::resources::{
    lemma_term_index_bounds, term_index, terms_with, BatchFlashloanItem, BatchFlashloanTerm,
    LiquidationTerm,
};
use crate::unit_map::{unit_entries, units_entry_at};
use scrypto::prelude::IndexMap;
use crate::interest_strategy::{breakpoints_error, ISInputBreakPoint, InterestStrategy};
use crate::liquidation_threshold::{
    err_threshold_range, ratio_in_range, LiquidationThreshold, UpdateLiquidationThresholdInput,
};
use crate::market_config::{MarketConfig, UpdateMarketConfigInput};
use crate::operation_status::{err_service_disabled, err_set_by_admin, OperatingService, OperatingStatus};
use crate::pool_config::{PoolConfig, UpdatePoolConfigInput};
use crate::pool_state::{
    find_pool, lemma_pool_index_bounds, pool_index, pools_well_formed, InterestUpdate,
    LendingPoolState,
};
use crate::utils::{err_text, message, ComponentAddress, PriceInfo, ResourceAddress};
use vstd::prelude::*;

verus! {

/// A change of the descriptive data of a position.
#[derive(Debug)]
pub enum UpdateCDPInput {
    KeyImageURL(String),
    Name(String),
    Description(String),
}

/// A change of one limit of a delegatee.
#[derive(Clone, Copy, Debug, PartialEq, Eq, Structural)]
pub enum UpdateDelegateeCDPnput {
    MaxLoanValue(Decimal),
    MaxToLoanValue(Decimal),
}

/// Says that a position changed.
#[derive(Clone, Copy, Debug, PartialEq, Eq, Structural)]
pub struct CDPUpdatedEvent {
    pub cdp_id: u64,
}

/// Says that a position was liquidated.
#[derive(Clone, Copy, Debug, PartialEq, Eq, Structural)]
pub struct CDPLiquidatedEvent {
    pub cdp_id: u64,
    pub delegator_cdp_id: Option<u64>,
}

/// What changed in a pool.
#[derive(Clone, Copy, Debug, PartialEq, Eq, Structural)]
pub enum LendingPoolUpdatedEventType {
    Deposit,
    Loan,
    Collateral,
    Interest,
    Price,
}

/// Says that a pool changed.
#[derive(Clone, Copy, Debug, PartialEq, Eq, Structural)]
pub struct LendingPoolUpdatedEvent {
    pub pool_res_address: ResourceAddress,
    pub event_type: LendingPoolUpdatedEventType,
}

/// The place of a delegatee among the delegatees of its delegator.
#[derive(Clone, Copy, Debug, PartialEq, Eq, Structural)]
pub struct DelegateeLink {
    pub delegator_cdp_id: u64,
    pub delegatee_index: u64,
    pub delegatee_cdp_id: u64,
}

/// The state of the market.
#[derive(Debug)]
pub struct LendingMarket {
    /// The number of positions minted so far.
    pub cdp_counter: u64,
    /// The pools, in the order in which their assets were listed.
    pub pool_states: Vec<LendingPoolState>,
    pub operating_status: OperatingStatus,
    pub market_config: MarketConfig,
    /// The delegatees by delegator and index.
    pub delegatee_cdp_ids: Vec<DelegateeLink>,
}

pub open spec fn err_pool_registered() -> Seq<char> {
    "The lending pool is already registered"@
}

pub open spec fn err_recallable() -> Seq<char> {
    "Recallable assets are not supported"@
}

pub open spec fn err_price_not_found() -> Seq<char> {
    "Price not found"@
}

pub open spec fn err_pool_missing() -> Seq<char> {
    "Pool state not found for provided resource"@
}

pub open spec fn err_cdp_counter() -> Seq<char> {
    "CDP counter overflow"@
}

impl LendingMarket {
    /// The tables of limits of every pool are well formed.
    pub open spec fn well_formed(self) -> bool {
        pools_well_formed(self.pool_states@)
    }

    /// Whether the two agree in everything but their pools.
    pub open spec fn same_but_pools(self, other: LendingMarket) -> bool {
        &&& self.cdp_counter == other.cdp_counter
        &&& self.operating_status == other.operating_status
        &&& self.market_config == other.market_config
        &&& self.delegatee_cdp_ids@ == other.delegatee_cdp_ids@
    }

    /// Whether the two hold the same pools but for the one at `i`.
    pub open spec fn same_pools_but(self, other: LendingMarket, i: int) -> bool {
        &&& self.pool_states@.len() == other.pool_states@.len()
        &&& forall|k: int|
            0 <= k < self.pool_states@.len() && k != i ==> self.pool_states@[k] == other.pool_states@[k]
    }

    /// A market without pools and positions, every service switched on.
    pub fn instantiate(market_config: MarketConfig) -> (r: Result<LendingMarket, String>)
        ensures
            market_config.valid() ==> r.is_ok() && r.unwrap().cdp_counter == 0
                && r.unwrap().pool_states@.len() == 0 && r.unwrap().market_config == market_config
                && r.unwrap().delegatee_cdp_ids@.len() == 0 && r.unwrap().well_formed() && r.unwrap().operating_status == OperatingStatus::spec_default(),
            !market_config.valid() ==> err_text(r) == Some(
                crate::market_config::err_max_cdp_position(),
            ),
    {
        market_config.check()?;
        Ok(
            LendingMarket {
                cdp_counter: 0,
                pool_states: Vec::new(),
                operating_status: OperatingStatus::default(),
                market_config,
                delegatee_cdp_ids: Vec::new(),
            },
        )
    }

    /// Fails when the service is switched off for the whole market.
    pub fn check_operating_status(&self, value: OperatingService) -> (r: Result<(), String>)
        ensures
            self.operating_status.spec_is_enabled(value) ==> r.is_ok(),
            !self.operating_status.spec_is_enabled(value) ==> err_text(r) == Some(err_service_disabled()),
    {
        self.operating_status.check_service(value)
    }

    /// The number of the next position.
    pub fn _get_new_cdp_id(&mut self) -> (r: Result<u64, String>)
        ensures
            old(self).well_formed() ==> final(self).well_formed(),
            old(self).cdp_counter < u64::MAX ==> r == Ok::<u64, String>((old(self).cdp_counter + 1) as u64)
                && *final(self) == (LendingMarket { cdp_counter: (old(self).cdp_counter
                    + 1) as u64, ..*old(self) }),
            old(self).cdp_counter == u64::MAX ==> err_text(r) == Some(err_cdp_counter()) && *final(self)
                == *old(self),
    {
        if self.cdp_counter == u64::MAX {
            return Err(message("CDP counter overflow"));
        }
        self.cdp_counter = self.cdp_counter + 1;
        Ok(self.cdp_counter)
    }

    /// Changes one parameter of a pool.
    pub fn update_pool_config(&mut self, pool_res_address: ResourceAddress,
        value: UpdatePoolConfigInput) -> (r:
        Result<(), String>)
        ensures
            old(self).well_formed() ==> final(self).well_formed(),
            final(self).same_but_pools(*old(self)),
            pool_index(old(self).pool_states@, pool_res_address, 0) >= old(self).pool_states@.len()
                ==> err_text(r) == Some(err_pool_missing()) && *final(self) == *old(self),
            pool_index(old(self).pool_states@, pool_res_address, 0) < old(self).pool_states@.len() ==> ({
                let i = pool_index(old(self).pool_states@, pool_res_address, 0);
                &&& final(self).same_pools_but(*old(self), i)
                &&& match old(self).pool_states@[i].pool_config.spec_update(value) {
                    Ok(c) => r.is_ok() && final(self).pool_states@[i] == (LendingPoolState {
                        pool_config: c,
                        ..old(self).pool_states@[i]
                    }),
                    Err(e) => err_text(r) == Some(e) && final(self).pool_states@[i]
                        == old(self).pool_states@[i],
                }
            }),
    {
        let i = find_pool(&self.pool_states, pool_res_address);
        if i >= self.pool_states.len() {
            return Err(message("Pool state not found for provided resource"));
        }
        self.pool_states[i].update_config(value)
    }
}

/// The position of the pool of an asset, for an operation at `now` that uses
/// the given service: the pool must exist, have the service switched on, and
/// be up to date.
pub open spec fn spec_pool_access(
    pools: Seq<LendingPoolState>,
    res: ResourceAddress,
    service: Option<OperatingService>,
    now: i64,
) -> Result<int, Seq<char>> {
    let i = pool_index(pools, res, 0);
    if i >= pools.len() {
        Err(err_pool_missing())
    } else if service.is_some() && !pools[i].operating_status.spec_is_enabled(service.unwrap()) {
        Err(err_service_disabled())
    } else if pools[i].spec_update_due(now) {
        Err(crate::cdp_health_checker::err_pool_out_of_date())
    } else {
        Ok(i)
    }
}

/// A pool as `create_lending_pool` makes it: nothing lent, nothing held,
/// priced and dated at `now`, every service switched on.
pub open spec fn is_new_pool(
    pool: LendingPoolState,
    price_feed_component: ComponentAddress,
    pool_res_address: ResourceAddress,
    pool_unit_res_address: ResourceAddress,
    pool_config: PoolConfig,
    initial_rate: Decimal,
    break_points: Seq<ISInputBreakPoint>,
    liquidation_threshold: LiquidationThreshold,
    price: Decimal,
    now: i64,
) -> bool {
    &&& pool.pool_res_address == pool_res_address
    &&& pool.price_feed_comp == price_feed_component
    &&& pool.collaterals.resource_address == pool_unit_res_address
    &&& pool.collaterals.amount@ == 0
    &&& pool.reserve.resource_address == pool_res_address
    &&& pool.reserve.amount@ == 0
    &&& pool.last_price == price
    &&& pool.price_updated_at == now
    &&& pool.total_loan@ == 0
    &&& pool.total_loan_unit@ == 0
    &&& pool.accounts_sound()
    &&& pool.interest_rate@ == 0
    &&& pool.interest_updated_at == now
    &&& pool.interest_strategy.initial_rate == initial_rate
    &&& pool.interest_strategy.break_points@ == break_points
    &&& pool.liquidation_threshold == liquidation_threshold
    &&& pool.pool_config == pool_config
    &&& pool.operating_status == OperatingStatus::spec_default()
}

/// The complaint of `create_lending_pool`, if any.
pub open spec fn spec_create_pool_error(
    pools: Seq<LendingPoolState>,
    pool_res_address: ResourceAddress,
    recallable: bool,
    pool_config: PoolConfig,
    break_points: Seq<ISInputBreakPoint>,
    liquidation_threshold: LiquidationThreshold,
    last_price_info: Option<PriceInfo>,
) -> Option<Seq<char>> {
    if pool_index(pools, pool_res_address, 0) < pools.len() {
        Some(err_pool_registered())
    } else if recallable {
        Some(err_recallable())
    } else if !liquidation_threshold.in_range() {
        Some(err_threshold_range())
    } else if pool_config.spec_check().is_some() {
        pool_config.spec_check()
    } else if breakpoints_error(break_points, 0).is_some() {
        breakpoints_error(break_points, 0)
    } else if last_price_info.is_none() {
        Some(err_price_not_found())
    } else {
        None
    }
}

impl LendingMarket {
    /// Finds the pool of an asset for an operation at `now` that uses the
    /// given service.
    pub fn _get_pool_state(
        &self,
        pool_res_address: ResourceAddress,
        operating_status: Option<OperatingService>,
        now: i64,
    ) -> (r: Result<usize, String>)
        ensures
            match spec_pool_access(self.pool_states@, pool_res_address, operating_status, now) {
                Ok(i) => r.is_ok() && r.unwrap() as int == i && 0 <= i < self.pool_states@.len(),
                Err(e) => err_text(r) == Some(e),
            },
    {
        let i = find_pool(&self.pool_states, pool_res_address);
        if i >= self.pool_states.len() {
            return Err(message("Pool state not found for provided resource"));
        }
        if let Some(service) = operating_status {
            self.pool_states[i].check_operating_status(service)?;
        }
        if self.pool_states[i].update_due(now) {
            return Err(message("Pool state is out of date"));
        }
        Ok(i)
    }

    /// Brings the interest and price of a pool up to `now`, given what the
    /// price feed returned and what the pool on the ledger holds and has
    /// lent.
    pub fn update_pool_state(
        &mut self,
        pool_res_address: ResourceAddress,
        now: i64,
        price_feed_result: Option<PriceInfo>,
        pool_available_amount: Decimal,
        pool_borrowed_amount: Decimal,
    ) -> (r: Result<Option<InterestUpdate>, String>)
        ensures
            old(self).well_formed() ==> final(self).well_formed(),
            final(self).same_but_pools(*old(self)),
            pool_index(old(self).pool_states@, pool_res_address, 0) >= old(self).pool_states@.len()
                ==> err_text(r) == Some(err_pool_missing()) && *final(self) == *old(self),
            pool_index(old(self).pool_states@, pool_res_address, 0) < old(self).pool_states@.len() ==> ({
                let i = pool_index(old(self).pool_states@, pool_res_address, 0);
                &&& final(self).same_pools_but(*old(self), i)
                &&& match old(self).pool_states@[i].spec_update_interest_and_price(
                    now,
                    price_feed_result,
                    pool_available_amount@,
                    pool_borrowed_amount@,
                ) {
                    Ok((pool, update)) => r == Ok::<Option<InterestUpdate>, String>(update)
                        && final(self).pool_states@[i] == pool,
                    Err(e) => err_text(r) == Some(e) && final(self).pool_states@[i]
                        == old(self).pool_states@[i],
                }
            }),
    {
        let i = find_pool(&self.pool_states, pool_res_address);
        if i >= self.pool_states.len() {
            return Err(message("Pool state not found for provided resource"));
        }
        self.pool_states[i].update_interest_and_price(
            now,
            price_feed_result,
            pool_available_amount,
            pool_borrowed_amount,
        )
    }

    /// Replaces the price feed of a pool. The new feed must price the
    /// asset: `price` is what it returned for it.
    pub fn set_price_feed(
        &mut self,
        pool_res_address: ResourceAddress,
        price_feed: ComponentAddress,
        price: Option<PriceInfo>,
    ) -> (r: Result<(), String>)
        ensures
            old(self).well_formed() ==> final(self).well_formed(),
            final(self).same_but_pools(*old(self)),
            pool_index(old(self).pool_states@, pool_res_address, 0) >= old(self).pool_states@.len()
                ==> err_text(r) == Some(err_pool_missing()) && *final(self) == *old(self),
            pool_index(old(self).pool_states@, pool_res_address, 0) < old(self).pool_states@.len()
                && price.is_none() ==> err_text(r) == Some(err_price_not_found()) && *final(self)
                == *old(self),
            pool_index(old(self).pool_states@, pool_res_address, 0) < old(self).pool_states@.len()
                && price.is_some() ==> ({
                let i = pool_index(old(self).pool_states@, pool_res_address, 0);
                &&& r.is_ok()
                &&& final(self).same_pools_but(*old(self), i)
                &&& final(self).pool_states@[i] == (LendingPoolState {
                    price_feed_comp: price_feed,
                    ..old(self).pool_states@[i]
                })
            }),
    {
        let i = find_pool(&self.pool_states, pool_res_address);
        if i >= self.pool_states.len() {
            return Err(message("Pool state not found for provided resource"));
        }
        if price.is_none() {
            return Err(message("Price not found"));
        }
        self.pool_states[i].set_price_feed(price_feed);
        Ok(())
    }

    /// Changes the liquidation thresholds of a pool.
    pub fn update_liquidation_threshold(
        &mut self,
        pool_res_address: ResourceAddress,
        value: UpdateLiquidationThresholdInput,
    ) -> (r: Result<(), String>)
        requires
            old(self).well_formed(),
        ensures
            final(self).well_formed(),
            final(self).same_but_pools(*old(self)),
            pool_index(old(self).pool_states@, pool_res_address, 0) >= old(self).pool_states@.len()
                ==> err_text(r) == Some(err_pool_missing()) && *final(self) == *old(self),
            pool_index(old(self).pool_states@, pool_res_address, 0) < old(self).pool_states@.len() ==> ({
                let i = pool_index(old(self).pool_states@, pool_res_address, 0);
                &&& final(self).same_pools_but(*old(self), i)
                &&& ratio_in_range(LiquidationThreshold::input_ratio(value)) ==> r.is_ok()
                    && final(self).pool_states@[i].liquidation_threshold.is_update_of(
                    old(self).pool_states@[i].liquidation_threshold,
                    value,
                )
                &&& !ratio_in_range(LiquidationThreshold::input_ratio(value)) ==> err_text(r) == Some(
                    err_threshold_range(),
                ) && final(self).pool_states@[i] == old(self).pool_states@[i]
                &&& final(self).pool_states@[i].same_but_thresholds(old(self).pool_states@[i])
            }),
    {
        let i = find_pool(&self.pool_states, pool_res_address);
        if i >= self.pool_states.len() {
            return Err(message("Pool state not found for provided resource"));
        }
        self.pool_states[i].update_liquidation_threshold(value)
    }

    /// Replaces the interest curve of a pool.
    pub fn set_interest_strategy(
        &mut self,
        pool_res_address: ResourceAddress,
        initial_rate: Decimal,
        interest_options_break_points: Vec<ISInputBreakPoint>,
    ) -> (r: Result<(), String>)
        requires
            old(self).well_formed(),
        ensures
            final(self).well_formed(),
            final(self).same_but_pools(*old(self)),
            pool_index(old(self).pool_states@, pool_res_address, 0) >= old(self).pool_states@.len()
                ==> err_text(r) == Some(err_pool_missing()) && *final(self) == *old(self),
            pool_index(old(self).pool_states@, pool_res_address, 0) < old(self).pool_states@.len() ==> ({
                let i = pool_index(old(self).pool_states@, pool_res_address, 0);
                &&& final(self).same_pools_but(*old(self), i)
                &&& err_text(r) == breakpoints_error(interest_options_break_points@, 0)
                &&& r.is_ok() ==> final(self).pool_states@[i].interest_strategy.initial_rate
                    == initial_rate && final(self).pool_states@[i].interest_strategy.break_points@
                    == interest_options_break_points@
                &&& r.is_err() ==> final(self).pool_states@[i] == old(self).pool_states@[i]
                &&& final(self).pool_states@[i].same_but_curve(old(self).pool_states@[i])
            }),
    {
        let i = find_pool(&self.pool_states, pool_res_address);
        if i >= self.pool_states.len() {
            return Err(message("Pool state not found for provided resource"));
        }
        self.pool_states[i].set_interest_strategy(initial_rate, interest_options_break_points)
    }

    /// Changes one parameter of the market.
    pub fn update_market_config(&mut self, value: UpdateMarketConfigInput) -> (r: Result<(), String>)
        ensures
            old(self).well_formed() ==> final(self).well_formed(),
            final(self).cdp_counter == old(self).cdp_counter,
            final(self).operating_status == old(self).operating_status,
            final(self).pool_states == old(self).pool_states,
            final(self).delegatee_cdp_ids == old(self).delegatee_cdp_ids,
            match value {
                UpdateMarketConfigInput::MaxCDPPosition(n) => if n > 0 {
                    r.is_ok() && final(self).market_config.max_cdp_position == n
                } else {
                    err_text(r) == Some(crate::market_config::err_max_cdp_position()) && *final(self)
                        == *old(self)
                },
            },
    {
        self.market_config.update(value)
    }

    /// Sets a switch of the market or, if an asset is given, of its pool.
    /// A moderator cannot change a switch that an administrator set.
    pub fn _update_operating_status(
        &mut self,
        value: OperatingService,
        enabled: bool,
        set_by_admin: bool,
        pool_res_address: Option<ResourceAddress>,
    ) -> (r: Result<(), String>)
        ensures
            old(self).well_formed() ==> final(self).well_formed(),
            final(self).cdp_counter == old(self).cdp_counter,
            final(self).market_config == old(self).market_config,
            final(self).delegatee_cdp_ids == old(self).delegatee_cdp_ids,
            match pool_res_address {
                None => {
                    &&& final(self).pool_states == old(self).pool_states
                    &&& if old(self).operating_status.spec_is_set_by_admin(value) && !set_by_admin {
                        err_text(r) == Some(err_set_by_admin()) && *final(self) == *old(self)
                    } else {
                        r.is_ok() && final(self).operating_status == old(self).operating_status.spec_with(
                            value,
                            enabled,
                            set_by_admin,
                        )
                    }
                },
                Some(res) => {
                    let i = pool_index(old(self).pool_states@, res, 0);
                    &&& final(self).operating_status == old(self).operating_status
                    &&& if i >= old(self).pool_states@.len() {
                        err_text(r) == Some(err_pool_missing()) && *final(self) == *old(self)
                    } else {
                        &&& final(self).same_pools_but(*old(self), i)
                        &&& if old(self).pool_states@[i].operating_status.spec_is_set_by_admin(value)
                            && !set_by_admin {
                            err_text(r) == Some(err_set_by_admin())
                                && final(self).pool_states@[i] == old(self).pool_states@[i]
                        } else {
                            r.is_ok() && final(self).pool_states@[i] == (LendingPoolState {
                                operating_status: old(self).pool_states@[i].operating_status.spec_with(
                                    value,
                                    enabled,
                                    set_by_admin,
                                ),
                                ..old(self).pool_states@[i]
                            })
                        }
                    }
                },
            },
    {
        match pool_res_address {
            Some(pool_res_address) => {
                let i = find_pool(&self.pool_states, pool_res_address);
                if i >= self.pool_states.len() {
                    return Err(message("Pool state not found for provided resource"));
                }
                self.pool_states[i].operating_status.update_service(value, enabled, set_by_admin)
            },
            None => self.operating_status.update_service(value, enabled, set_by_admin),
        }
    }

    /// A moderator's update of a switch of the market or of a pool.
    pub fn update_operating_status(
        &mut self,
        value: OperatingService,
        enabled: bool,
        pool_res_address: Option<ResourceAddress>,
    ) -> (r: Result<(), String>)
        ensures
            old(self).well_formed() ==> final(self).well_formed(),
            final(self).cdp_counter == old(self).cdp_counter,
            final(self).market_config == old(self).market_config,
            pool_res_address.is_none() ==> final(self).pool_states == old(self).pool_states
                && (if old(self).operating_status.spec_is_set_by_admin(value) {
                err_text(r) == Some(err_set_by_admin()) && *final(self) == *old(self)
            } else {
                r.is_ok() && final(self).operating_status == old(self).operating_status.spec_with(
                    value,
                    enabled,
                    false,
                )
            }),
            pool_res_address.is_some() ==> final(self).operating_status == old(self).operating_status && ({
                let i = pool_index(old(self).pool_states@, pool_res_address.unwrap(), 0);
                if i >= old(self).pool_states@.len() {
                    err_text(r) == Some(err_pool_missing()) && *final(self) == *old(self)
                } else {
                    &&& final(self).same_pools_but(*old(self), i)
                    &&& if old(self).pool_states@[i].operating_status.spec_is_set_by_admin(value) {
                        err_text(r) == Some(err_set_by_admin()) && final(self).pool_states@[i]
                            == old(self).pool_states@[i]
                    } else {
                        r.is_ok() && final(self).pool_states@[i] == (LendingPoolState {
                            operating_status: old(self).pool_states@[i].operating_status.spec_with(
                                value,
                                enabled,
                                false,
                            ),
                            ..old(self).pool_states@[i]
                        })
                    }
                }
            }),
    {
        self._update_operating_status(value, enabled, false, pool_res_address)
    }

    /// An administrator's update of a switch of the market or of a pool: it
    /// always applies where the pool exists, and a moderator cannot undo it.
    pub fn admin_update_operating_status(
        &mut self,
        value: OperatingService,
        enabled: bool,
        pool_res_address: Option<ResourceAddress>,
    ) -> (r: Result<(), String>)
        ensures
            old(self).well_formed() ==> final(self).well_formed(),
            final(self).cdp_counter == old(self).cdp_counter,
            final(self).market_config == old(self).market_config,
            pool_res_address.is_none() ==> r.is_ok() && final(self).pool_states == old(self).pool_states
                && final(self).operating_status == old(self).operating_status.spec_with(
                value,
                enabled,
                true,
            ),
            pool_res_address.is_some() ==> final(self).operating_status == old(self).operating_status && ({
                let i = pool_index(old(self).pool_states@, pool_res_address.unwrap(), 0);
                if i >= old(self).pool_states@.len() {
                    err_text(r) == Some(err_pool_missing()) && *final(self) == *old(self)
                } else {
                    &&& r.is_ok()
                    &&& final(self).same_pools_but(*old(self), i)
                    &&& final(self).pool_states@[i] == (LendingPoolState {
                        operating_status: old(self).pool_states@[i].operating_status.spec_with(
                            value,
                            enabled,
                            true,
                        ),
                        ..old(self).pool_states@[i]
                    })
                }
            }),
    {
        self._update_operating_status(value, enabled, true, pool_res_address)
    }

    /// Lists an asset: checks that it is not listed yet and cannot be
    /// recalled, validates the thresholds, the configuration and the
    /// interest curve, asks for a price, and adds a pool without loans.
    /// The caller has created the pool on the ledger and hands in the
    /// address of its pool units, whether the asset is recallable, and what
    /// the price feed returned for it.
    pub fn create_lending_pool(
        &mut self,
        price_feed_component: ComponentAddress,
        pool_res_address: ResourceAddress,
        pool_unit_res_address: ResourceAddress,
        recallable: bool,
        pool_config: PoolConfig,
        interest_strategy_break_points: (Decimal, Vec<ISInputBreakPoint>),
        liquidation_threshold: LiquidationThreshold,
        last_price_info: Option<PriceInfo>,
        now: i64,
    ) -> (r: Result<(), String>)
        requires
            old(self).well_formed(),
            liquidation_threshold.well_formed(),
        ensures
            final(self).well_formed(),
            final(self).same_but_pools(*old(self)),
            err_text(r) == spec_create_pool_error(
                old(self).pool_states@,
                pool_res_address,
                recallable,
                pool_config,
                interest_strategy_break_points.1@,
                liquidation_threshold,
                last_price_info,
            ),
            r.is_err() ==> *final(self) == *old(self),
            r.is_ok() ==> final(self).pool_states@.len() == old(self).pool_states@.len() + 1
                && final(self).pool_states@.subrange(0, old(self).pool_states@.len() as int)
                == old(self).pool_states@
                && is_new_pool(
                final(self).pool_states@[old(self).pool_states@.len() as int],
                price_feed_component,
                pool_res_address,
                pool_unit_res_address,
                pool_config,
                interest_strategy_break_points.0,
                interest_strategy_break_points.1@,
                liquidation_threshold,
                last_price_info.unwrap().price,
                now,
            ),
    {
        if find_pool(&self.pool_states, pool_res_address) < self.pool_states.len() {
            return Err(message("The lending pool is already registered"));
        }
        if recallable {
            return Err(message("Recallable assets are not supported"));
        }
        liquidation_threshold.check()?;
        pool_config.check()?;
        let mut interest_strategy = InterestStrategy::new();
        let ghost points = interest_strategy_break_points.1@;
        interest_strategy.set_breakpoints(
            interest_strategy_break_points.0,
            interest_strategy_break_points.1,
        )?;
        let last_price_info = match last_price_info {
            Some(p) => p,
            None => {
                return Err(message("Price not found"));
            },
        };
        let pool_state = LendingPoolState {
            pool_res_address,
            price_feed_comp: price_feed_component,
            collaterals: Vault::new(pool_unit_res_address),
            reserve: Vault::new(pool_res_address),
            last_price: last_price_info.price,
            price_updated_at: now,
            total_loan: Decimal::zero(),
            total_loan_unit: Decimal::zero(),
            interest_rate: Decimal::zero(),
            interest_updated_at: now,
            interest_strategy,
            liquidation_threshold,
            pool_config,
            operating_status: OperatingStatus::default(),
        };
        let ghost before = self.pool_states@;
        self.pool_states.push(pool_state);
        assert(self.pool_states@.subrange(0, before.len() as int) =~= before);
        Ok(())
    }

    /// Collects the reserve of every pool, with the pool's price.
    pub fn collect_reserve(&mut self) -> (r: Vec<(Decimal, Bucket)>)
        ensures
            old(self).well_formed() ==> final(self).well_formed(),
            final(self).same_but_pools(*old(self)),
            final(self).pool_states@.len() == old(self).pool_states@.len(),
            r@.len() == old(self).pool_states@.len(),
            forall|i: int|
                0 <= i < old(self).pool_states@.len() ==> #[trigger] r@[i] == (
                    old(self).pool_states@[i].last_price,
                    Bucket {
                        resource_address: old(self).pool_states@[i].reserve.resource_address,
                        amount: old(self).pool_states@[i].reserve.amount,
                    },
                ),
            forall|i: int|
                0 <= i < old(self).pool_states@.len() ==> #[trigger] final(self).pool_states@[i] == (
                LendingPoolState {
                    reserve: Vault {
                        resource_address: old(self).pool_states@[i].reserve.resource_address,
                        amount: dec_of(0),
                    },
                    ..old(self).pool_states@[i]
                }),
    {
        let mut collected: Vec<(Decimal, Bucket)> = Vec::new();
        let n = self.pool_states.len();
        let mut i: usize = 0;
        while i < n
            invariant
                n == self.pool_states@.len(),
                n == old(self).pool_states@.len(),
                0 <= i <= n,
                self.same_but_pools(*old(self)),
                collected@.len() == i,
                forall|k: int|
                    0 <= k < i ==> #[trigger] collected@[k] == (
                        old(self).pool_states@[k].last_price,
                        Bucket {
                            resource_address: old(self).pool_states@[k].reserve.resource_address,
                            amount: old(self).pool_states@[k].reserve.amount,
                        },
                    ),
                forall|k: int|
                    0 <= k < i ==> #[trigger] self.pool_states@[k] == (LendingPoolState {
                        reserve: Vault {
                            resource_address: old(self).pool_states@[k].reserve.resource_address,
                            amount: dec_of(0),
                        },
                        ..old(self).pool_states@[k]
                    }),
                forall|k: int| i <= k < n ==> #[trigger] self.pool_states@[k] == old(self).pool_states@[k],
            decreases n - i,
        {
            let price = self.pool_states[i].last_price;
            let fee = self.pool_states[i].reserve.take_all();
            proof {
                lemma_dec_of(self.pool_states@[i as int].reserve.amount);
            }
            collected.push((price, fee));
            i = i + 1;
        }
        collected
    }
}

pub open spec fn err_invalid_ratio() -> Seq<char> {
    "INVALID_INPUT: Max loan to value ratio must be in the range [0, 1]"@
}

pub open spec fn err_invalid_value() -> Seq<char> {
    "INVALID_INPUT: Max loan to value must be non-negative"@
}

pub open spec fn err_delegatee_creates() -> Seq<char> {
    "Delegatee CDP can not create delegatee CDP"@
}

pub open spec fn err_already_linked() -> Seq<char> {
    "Delegatee CDP already linked"@
}

pub open spec fn err_has_collateral() -> Seq<char> {
    "Delegatee CDP already has collateral"@
}

pub open spec fn err_delegator_as_delegatee() -> Seq<char> {
    "Delegator CDP can not become a delegatee"@
}

pub open spec fn err_not_linked() -> Seq<char> {
    "Delegatee CDP not linked to provided delegator CDP"@
}

pub open spec fn err_self_link() -> Seq<char> {
    "A CDP can not be its own delegator"@
}

/// The complaint about the limits of a delegatee, if any: the ratio must
/// lie in `[0, 1]`, the value must not be negative.
pub open spec fn spec_limits_error(max_loan_value: Option<Decimal>,
    max_loan_value_ratio: Option<Decimal>) -> Option<
    Seq<char>,
> {
    if max_loan_value_ratio.is_some() && !spec_is_valid_rate(max_loan_value_ratio.unwrap()@) {
        Some(err_invalid_ratio())
    } else if max_loan_value.is_some() && max_loan_value.unwrap()@ < 0 {
        Some(err_invalid_value())
    } else {
        None
    }
}

/// Checks the limits of a delegatee.
pub fn check_limits(max_loan_value: Option<Decimal>, max_loan_value_ratio: Option<Decimal>) -> (r: Result<
    (),
    String,
>)
    ensures
        err_text(r) == spec_limits_error(max_loan_value, max_loan_value_ratio),
{
    if let Some(ratio) = max_loan_value_ratio {
        if !is_valid_rate(ratio) {
            return Err(
                message("INVALID_INPUT: Max loan to value ratio must be in the range [0, 1]"),
            );
        }
    }
    if let Some(value) = max_loan_value {
        if value.is_negative() {
            return Err(message("INVALID_INPUT: Max loan to value must be non-negative"));
        }
    }
    Ok(())
}

/// The text, or the empty text if there is none.
pub open spec fn spec_text_or_empty(text: Option<String>) -> Seq<char> {
    match text {
        Some(t) => t@,
        None => ""@,
    }
}

/// The text, or the empty text if there is none.
pub fn text_or_empty(text: Option<String>) -> (r: String)
    ensures
        r@ == spec_text_or_empty(text),
{
    match text {
        Some(t) => t,
        None => message(""),
    }
}

/// The first index from `i` on of the link with the given delegator and
/// index; the number of links if there is none.
pub open spec fn link_index(links: Seq<DelegateeLink>, delegator_cdp_id: u64, delegatee_index: u64,
    i: int) -> int
    decreases links.len() - i,
{
    if i < 0 || i >= links.len() {
        links.len() as int
    } else if links[i].delegator_cdp_id == delegator_cdp_id && links[i].delegatee_index
        == delegatee_index {
        i
    } else {
        link_index(links, delegator_cdp_id, delegatee_index, i + 1)
    }
}

/// The links with one set: in place of the link with the same delegator
/// and index if there is one, else at the end.
pub open spec fn links_with(links: Seq<DelegateeLink>, link: DelegateeLink) -> Seq<DelegateeLink> {
    let i = link_index(links, link.delegator_cdp_id, link.delegatee_index, 0);
    if i < links.len() {
        links.update(i, link)
    } else {
        links.push(link)
    }
}

/// The links without the first one with the given delegator and index.
pub open spec fn links_without(links: Seq<DelegateeLink>, delegator_cdp_id: u64, delegatee_index: u64) -> Seq<
    DelegateeLink,
> {
    let i = link_index(links, delegator_cdp_id, delegatee_index, 0);
    if i < links.len() {
        links.remove(i)
    } else {
        links
    }
}

/// The data of a position as it is minted.
pub open spec fn is_minted(
    data: CollaterizedDebtPositionData,
    name: Option<String>,
    description: Option<String>,
    key_image_url: Option<String>,
    cdp_type: CDPType,
    now: i64,
) -> bool {
    &&& data.name@ == spec_text_or_empty(name)
    &&& data.description@ == spec_text_or_empty(description)
    &&& data.key_image_url@ == spec_text_or_empty(key_image_url)
    &&& data.cdp_type == cdp_type
    &&& data.delegatee_count == 0
    &&& data.minted_at == now
    &&& data.updated_at == now
    &&& data.entries(PositionKind::Collateral).len() == 0
    &&& data.entries(PositionKind::Loan).len() == 0
    &&& data.entries(PositionKind::DelegateeLoan).len() == 0
}

/// The complaint of `create_delegatee_cdp`, if any.
pub open spec fn spec_create_delegatee_error(
    market: LendingMarket,
    delegator: WrappedCDPData,
    max_loan_value: Option<Decimal>,
    max_loan_value_ratio: Option<Decimal>,
) -> Option<Seq<char>> {
    if spec_limits_error(max_loan_value, max_loan_value_ratio).is_some() {
        spec_limits_error(max_loan_value, max_loan_value_ratio)
    } else if delegator.spec_is_delegatee() {
        Some(err_delegatee_creates())
    } else if delegator.cdp_data.delegatee_count == u64::MAX {
        Some(err_delegatee_count_overflow())
    } else if delegator.cdp_data.position_count() > market.market_config.max_cdp_position {
        Some(err_too_many_positions())
    } else if market.cdp_counter == u64::MAX {
        Some(crate::lending_market::err_cdp_counter())
    } else {
        None
    }
}

/// The delegatee of `link_cdp` as it is checked and saved: a delegatee of
/// the delegator at the next index, with the given limits.
pub open spec fn spec_linked_delegatee(
    delegator: WrappedCDPData,
    delegatee: WrappedCDPData,
    max_loan_value: Option<Decimal>,
    max_loan_value_ratio: Option<Decimal>,
) -> WrappedCDPData {
    delegatee.with_type(
        CDPType::Delegatee(
            DelegatorInfo {
                cdp_id: delegator.cdp_id,
                delegatee_index: (delegator.cdp_data.delegatee_count + 1) as u64,
                max_loan_value,
                max_loan_value_ratio,
            },
        ),
    )
}

/// The aggregate of a delegator after the loans of a delegatee are added
/// to it, when it is linked, or taken off it, when it is unlinked.
pub open spec fn spec_shifted_aggregate(
    delegator: WrappedCDPData,
    delegatee: WrappedCDPData,
    add: bool,
) -> Seq<(ResourceAddress, Decimal)> {
    spec_aggregate_after(
        delegator.cdp_data.entries(PositionKind::DelegateeLoan),
        delegatee.cdp_data.entries(PositionKind::Loan),
        0,
        add,
    )
}

/// Linking adds to the delegator's aggregate of every asset the loan units
/// that the delegatee owes of that asset, and unlinking takes them off: the
/// aggregate stays the loans of the delegator and of its delegatees
/// together.
pub proof fn lemma_link_moves_loans(
    delegator: WrappedCDPData,
    delegatee: WrappedCDPData,
    add: bool,
    res: ResourceAddress,
)
    requires
        delegator.cdp_data.valid(),
        delegatee.cdp_data.valid(),
        spec_aggregate_error(
            delegator.cdp_data.entries(PositionKind::DelegateeLoan),
            delegatee.cdp_data.entries(PositionKind::Loan),
            0,
            add,
        ).is_none(),
    ensures
        crate::unit_map::units_of(spec_shifted_aggregate(delegator, delegatee, add), res) == if add {
            delegator.cdp_data.units(PositionKind::DelegateeLoan, res) + delegatee.cdp_data.units(
                PositionKind::Loan,
                res,
            )
        } else {
            delegator.cdp_data.units(PositionKind::DelegateeLoan, res) - delegatee.cdp_data.units(
                PositionKind::Loan,
                res,
            )
        },
{
    crate::cdp_data::lemma_shifted_aggregate_units(
        delegator.cdp_data.entries(PositionKind::DelegateeLoan),
        delegatee.cdp_data.entries(PositionKind::Loan),
        add,
        res,
    );
}

/// The delegator of `link_cdp` as the health check sees it: with one more
/// delegatee, and with the delegatee's loans in its aggregate.
pub open spec fn spec_linking_delegator(delegator: WrappedCDPData, delegatee: WrappedCDPData) -> CdpView {
    CdpView {
        delegatee_count: (delegator.cdp_data.delegatee_count + 1) as u64,
        delegatee_loans: spec_shifted_aggregate(delegator, delegatee, true),
        ..delegator@
    }
}

/// Whether `after` is the delegator `before` with another count of
/// delegatees and another aggregate, written back at `now`.
pub open spec fn delegator_saved_with(
    after: WrappedCDPData,
    before: WrappedCDPData,
    count: u64,
    aggregate: Seq<(ResourceAddress, Decimal)>,
    now: i64,
) -> bool {
    &&& after.cdp_id == before.cdp_id
    &&& !after.cdp_data_updated
    &&& after.cdp_data.updated_at == now
    &&& after.cdp_data.name == before.cdp_data.name
    &&& after.cdp_data.description == before.cdp_data.description
    &&& after.cdp_data.key_image_url == before.cdp_data.key_image_url
    &&& after.cdp_data.cdp_type == before.cdp_data.cdp_type
    &&& after.cdp_data.minted_at == before.cdp_data.minted_at
    &&& after.cdp_data.collaterals == before.cdp_data.collaterals
    &&& after.cdp_data.loans == before.cdp_data.loans
    &&& after.cdp_data.delegatee_count == count
    &&& after.cdp_data.entries(PositionKind::DelegateeLoan) == aggregate
    &&& after.cdp_data.valid()
}

/// The complaint of `link_cdp`, if any.
pub open spec fn spec_link_error(
    market: LendingMarket,
    delegator: WrappedCDPData,
    delegatee: WrappedCDPData,
    max_loan_value: Option<Decimal>,
    max_loan_value_ratio: Option<Decimal>,
    now: i64,
) -> Option<Seq<char>> {
    if spec_limits_error(max_loan_value, max_loan_value_ratio).is_some() {
        spec_limits_error(max_loan_value, max_loan_value_ratio)
    } else if delegator.cdp_id == delegatee.cdp_id {
        Some(err_self_link())
    } else if delegatee.cdp_data.cdp_type != CDPType::Standard {
        Some(err_already_linked())
    } else if delegatee.cdp_data.entries(PositionKind::Collateral).len() != 0 {
        Some(err_has_collateral())
    } else if delegatee.cdp_data.delegatee_count != 0 {
        Some(err_delegator_as_delegatee())
    } else if delegator.spec_is_delegatee() {
        Some(err_delegatee_as_delegator())
    } else if delegator.cdp_data.delegatee_count == u64::MAX {
        Some(err_delegatee_count_overflow())
    } else if delegator.cdp_data.position_count() > market.market_config.max_cdp_position
        || delegatee.cdp_data.position_count() > market.market_config.max_cdp_position {
        Some(err_too_many_positions())
    } else if spec_aggregate_error(
        delegator.cdp_data.entries(PositionKind::DelegateeLoan),
        delegatee.cdp_data.entries(PositionKind::Loan),
        0,
        true,
    ).is_some() {
        spec_aggregate_error(
            delegator.cdp_data.entries(PositionKind::DelegateeLoan),
            delegatee.cdp_data.entries(PositionKind::Loan),
            0,
            true,
        )
    } else {
        spec_cdp_health(
            spec_linked_delegatee(delegator, delegatee, max_loan_value, max_loan_value_ratio)@,
            Some(spec_linking_delegator(delegator, delegatee)),
            market.pool_states@,
            now,
        )
    }
}

/// The complaint of `unlink_cdp`, if any.
pub open spec fn spec_unlink_error(
    market: LendingMarket,
    delegator: WrappedCDPData,
    delegatee: WrappedCDPData,
    now: i64,
) -> Option<Seq<char>> {
    match delegatee.cdp_data.cdp_type {
        CDPType::Standard => Some(err_not_delegatee()),
        CDPType::Delegatee(info) => if info.cdp_id != delegator.cdp_id {
            Some(err_not_linked())
        } else if delegator.cdp_data.delegatee_count == 0 {
            Some(err_delegatee_count_underflow())
        } else if delegator.cdp_data.position_count() > market.market_config.max_cdp_position
            || delegatee.cdp_data.position_count() > market.market_config.max_cdp_position {
            Some(err_too_many_positions())
        } else if spec_cdp_health(
            delegatee.with_type(CDPType::Standard)@,
            None,
            market.pool_states@,
            now,
        ).is_some() {
            spec_cdp_health(delegatee.with_type(CDPType::Standard)@, None, market.pool_states@, now)
        } else {
            spec_aggregate_error(
                delegator.cdp_data.entries(PositionKind::DelegateeLoan),
                delegatee.cdp_data.entries(PositionKind::Loan),
                0,
                false,
            )
        },
    }
}

impl LendingMarket {
    /// Records the delegatee at an index of a delegator, in place of the one
    /// recorded there before, if any.
    pub fn set_link(&mut self, link: DelegateeLink)
        ensures
            old(self).well_formed() ==> final(self).well_formed(),
            final(self).delegatee_cdp_ids@ == links_with(old(self).delegatee_cdp_ids@, link),
            final(self).cdp_counter == old(self).cdp_counter,
            final(self).pool_states == old(self).pool_states,
            final(self).operating_status == old(self).operating_status,
            final(self).market_config == old(self).market_config,
    {
        let i = self.find_link(link.delegator_cdp_id, link.delegatee_index);
        if i < self.delegatee_cdp_ids.len() {
            self.delegatee_cdp_ids.set(i, link);
        } else {
            self.delegatee_cdp_ids.push(link);
        }
    }

    /// Forgets the delegatee at an index of a delegator.
    pub fn remove_link(&mut self, delegator_cdp_id: u64, delegatee_index: u64)
        ensures
            old(self).well_formed() ==> final(self).well_formed(),
            final(self).delegatee_cdp_ids@ == links_without(
                old(self).delegatee_cdp_ids@,
                delegator_cdp_id,
                delegatee_index,
            ),
            final(self).cdp_counter == old(self).cdp_counter,
            final(self).pool_states == old(self).pool_states,
            final(self).operating_status == old(self).operating_status,
            final(self).market_config == old(self).market_config,
    {
        let i = self.find_link(delegator_cdp_id, delegatee_index);
        if i < self.delegatee_cdp_ids.len() {
            self.delegatee_cdp_ids.remove(i);
        }
    }

    /// The position of the link with the given delegator and index; the
    /// number of links if there is none.
    pub fn find_link(&self, delegator_cdp_id: u64, delegatee_index: u64) -> (r: usize)
        ensures
            r == link_index(self.delegatee_cdp_ids@, delegator_cdp_id, delegatee_index, 0),
            r <= self.delegatee_cdp_ids@.len(),
    {
        let n = self.delegatee_cdp_ids.len();
        let mut i: usize = 0;
        while i < n
            invariant
                n == self.delegatee_cdp_ids@.len(),
                0 <= i <= n,
                link_index(self.delegatee_cdp_ids@, delegator_cdp_id, delegatee_index, 0) == link_index(
                    self.delegatee_cdp_ids@,
                    delegator_cdp_id,
                    delegatee_index,
                    i as int,
                ),
            decreases n - i,
        {
            let link = self.delegatee_cdp_ids[i];
            if link.delegator_cdp_id == delegator_cdp_id && link.delegatee_index == delegatee_index {
                return i;
            }
            i = i + 1;
        }
        n
    }

    /// Mints a standard position: takes the next number and makes its data.
    /// The caller stores the data on the ledger and then adds the first
    /// deposits, if any, as collateral.
    pub fn create_cdp(
        &mut self,
        name: Option<String>,
        description: Option<String>,
        key_image_url: Option<String>,
        now: i64,
    ) -> (r: Result<(u64, CollaterizedDebtPositionData), String>)
        ensures
            old(self).well_formed() ==> final(self).well_formed(),
            old(self).cdp_counter == u64::MAX ==> err_text(r) == Some(err_cdp_counter()) && *final(self)
                == *old(self),
            old(self).cdp_counter < u64::MAX ==> r.is_ok() && r.unwrap().0 == old(self).cdp_counter + 1
                && is_minted(r.unwrap().1, name, description, key_image_url, CDPType::Standard, now)
                && *final(self) == (LendingMarket {
                cdp_counter: (old(self).cdp_counter + 1) as u64,
                ..*old(self)
            }),
    {
        let cdp_id = self._get_new_cdp_id()?;
        let data = CollaterizedDebtPositionData::new(
            text_or_empty(name),
            text_or_empty(description),
            text_or_empty(key_image_url),
            CDPType::Standard,
            now,
        );
        Ok((cdp_id, data))
    }

    /// Creates a new CDP with borrowing power delegated from a delegator
    /// CDP: counts one more delegatee on the delegator and saves it, takes
    /// the next number, records the link, and makes the delegatee's data.
    /// Fails, changing nothing, on limits out of range, a delegator that is
    /// itself a delegatee, or a delegator with too many positions.
    pub fn create_delegatee_cdp(
        &mut self,
        delegator_cdp_data: &mut WrappedCDPData,
        max_loan_value: Option<Decimal>,
        max_loan_value_ratio: Option<Decimal>,
        name: Option<String>,
        description: Option<String>,
        key_image_url: Option<String>,
        now: i64,
    ) -> (r: Result<(u64, CollaterizedDebtPositionData), String>)
        ensures
            old(self).well_formed() ==> final(self).well_formed(),
            err_text(r) == spec_create_delegatee_error(
                *old(self),
                *old(delegator_cdp_data),
                max_loan_value,
                max_loan_value_ratio,
            ),
            r.is_err() ==> *final(self) == *old(self) && *final(delegator_cdp_data)
                == *old(delegator_cdp_data),
            r.is_ok() ==> ({
                let count = (old(delegator_cdp_data).cdp_data.delegatee_count + 1) as u64;
                let id = (old(self).cdp_counter + 1) as u64;
                &&& r.unwrap().0 == id
                &&& is_minted(
                    r.unwrap().1,
                    name,
                    description,
                    key_image_url,
                    CDPType::Delegatee(
                        DelegatorInfo {
                            cdp_id: old(delegator_cdp_data).cdp_id,
                            delegatee_index: count,
                            max_loan_value_ratio,
                            max_loan_value,
                        },
                    ),
                    now,
                )
                &&& *final(delegator_cdp_data) == old(delegator_cdp_data).with_delegatee_count(
                    count,
                ).saved(now)
                &&& final(self).cdp_counter == id
                &&& final(self).delegatee_cdp_ids@ == links_with(
                    old(self).delegatee_cdp_ids@,
                    DelegateeLink {
                        delegator_cdp_id: old(delegator_cdp_data).cdp_id,
                        delegatee_index: count,
                        delegatee_cdp_id: id,
                    },
                )
                &&& final(self).pool_states == old(self).pool_states
                &&& final(self).operating_status == old(self).operating_status
                &&& final(self).market_config == old(self).market_config
            }),
    {
        check_limits(max_loan_value, max_loan_value_ratio)?;
        if delegator_cdp_data.is_delegatee() {
            return Err(message("Delegatee CDP can not create delegatee CDP"));
        }
        if delegator_cdp_data.cdp_data.delegatee_count == u64::MAX {
            return Err(message("Delegatee count overflow"));
        }
        if !delegator_cdp_data.within_position_cap(self.market_config.max_cdp_position) {
            return Err(message("Max CDP position exceeded"));
        }
        if self.cdp_counter == u64::MAX {
            return Err(message("CDP counter overflow"));
        }
        let (_, linked_count) = delegator_cdp_data.increase_delegatee_count()?;
        let _ = delegator_cdp_data.save_cdp(self.market_config.max_cdp_position, now)?;
        let new_cdp_id = self._get_new_cdp_id()?;
        let delegator_cdp_id = delegator_cdp_data.cdp_id;
        self.set_link(
            DelegateeLink {
                delegator_cdp_id,
                delegatee_index: linked_count,
                delegatee_cdp_id: new_cdp_id,
            },
        );
        let delegatee_cdp_data = CollaterizedDebtPositionData::new(
            text_or_empty(name),
            text_or_empty(description),
            text_or_empty(key_image_url),
            CDPType::Delegatee(
                DelegatorInfo {
                    cdp_id: delegator_cdp_id,
                    delegatee_index: linked_count,
                    max_loan_value_ratio,
                    max_loan_value,
                },
            ),
            now,
        );
        Ok((new_cdp_id, delegatee_cdp_data))
    }

    /// Makes a standard CDP without collateral and without delegatees of
    /// its own the delegatee of another CDP, which is no delegatee itself:
    /// the delegator counts one more delegatee and takes the delegatee's
    /// loans into its aggregate. With that done the delegatee must be
    /// healthy under its delegator's collateral and the given limits. On
    /// success both are saved and the link is recorded; on failure nothing
    /// changes.
    pub fn link_cdp(
        &mut self,
        delegator_cdp_data: &mut WrappedCDPData,
        delegatee_cdp_data: &mut WrappedCDPData,
        max_loan_value: Option<Decimal>,
        max_loan_value_ratio: Option<Decimal>,
        now: i64,
    ) -> (r: Result<(), String>)
        requires
            old(self).well_formed(),
        ensures
            final(self).well_formed(),
            err_text(r) == spec_link_error(
                *old(self),
                *old(delegator_cdp_data),
                *old(delegatee_cdp_data),
                max_loan_value,
                max_loan_value_ratio,
                now,
            ),
            r.is_err() ==> *final(self) == *old(self) && *final(delegator_cdp_data)
                == *old(delegator_cdp_data) && *final(delegatee_cdp_data)
                == *old(delegatee_cdp_data),
            r.is_ok() ==> ({
                let count = (old(delegator_cdp_data).cdp_data.delegatee_count + 1) as u64;
                &&& delegator_saved_with(
                    *final(delegator_cdp_data),
                    *old(delegator_cdp_data),
                    count,
                    spec_shifted_aggregate(*old(delegator_cdp_data), *old(delegatee_cdp_data), true),
                    now,
                )
                &&& forall|res: ResourceAddress| #[trigger]
                    final(delegator_cdp_data).cdp_data.units(PositionKind::DelegateeLoan, res) == old(
                        delegator_cdp_data,
                    ).cdp_data.units(PositionKind::DelegateeLoan, res) + old(
                        delegatee_cdp_data,
                    ).cdp_data.units(PositionKind::Loan, res)
                &&& *final(delegatee_cdp_data) == spec_linked_delegatee(
                    *old(delegator_cdp_data),
                    *old(delegatee_cdp_data),
                    max_loan_value,
                    max_loan_value_ratio,
                ).saved(now)
                &&& final(self).delegatee_cdp_ids@ == links_with(
                    old(self).delegatee_cdp_ids@,
                    DelegateeLink {
                        delegator_cdp_id: old(delegator_cdp_data).cdp_id,
                        delegatee_index: count,
                        delegatee_cdp_id: old(delegatee_cdp_data).cdp_id,
                    },
                )
                &&& final(self).cdp_counter == old(self).cdp_counter
                &&& final(self).pool_states == old(self).pool_states
                &&& final(self).operating_status == old(self).operating_status
                &&& final(self).market_config == old(self).market_config
            }),
    {
        check_limits(max_loan_value, max_loan_value_ratio)?;
        if delegator_cdp_data.cdp_id == delegatee_cdp_data.cdp_id {
            return Err(message("A CDP can not be its own delegator"));
        }
        if delegatee_cdp_data.is_delegatee() {
            return Err(message("Delegatee CDP already linked"));
        }
        if units_len(&delegatee_cdp_data.cdp_data.collaterals) != 0 {
            return Err(message("Delegatee CDP already has collateral"));
        }
        if delegatee_cdp_data.cdp_data.delegatee_count != 0 {
            return Err(message("Delegator CDP can not become a delegatee"));
        }
        if delegator_cdp_data.is_delegatee() {
            return Err(message("Delegatee CDP can not have delegatees"));
        }
        if delegator_cdp_data.cdp_data.delegatee_count == u64::MAX {
            return Err(message("Delegatee count overflow"));
        }
        if !delegator_cdp_data.within_position_cap(self.market_config.max_cdp_position)
            || !delegatee_cdp_data.within_position_cap(self.market_config.max_cdp_position) {
            return Err(message("Max CDP position exceeded"));
        }
        delegator_cdp_data.confirm_valid();
        delegatee_cdp_data.confirm_valid();
        proof {
            if spec_aggregate_error(
                delegator_cdp_data.cdp_data.entries(PositionKind::DelegateeLoan),
                delegatee_cdp_data.cdp_data.entries(PositionKind::Loan),
                0,
                true,
            ).is_none() {
                assert forall|res: ResourceAddress|
                    crate::unit_map::units_of(
                        spec_shifted_aggregate(*delegator_cdp_data, *delegatee_cdp_data, true),
                        res,
                    ) == #[trigger] delegator_cdp_data.cdp_data.units(PositionKind::DelegateeLoan, res)
                        + delegatee_cdp_data.cdp_data.units(PositionKind::Loan, res) by {
                    lemma_link_moves_loans(*delegator_cdp_data, *delegatee_cdp_data, true, res);
                }
            }
        }
        let mut trial = delegator_cdp_data.scratch_copy();
        let _ = trial.increase_delegatee_count()?;
        trial.shift_aggregate(&delegatee_cdp_data.cdp_data.loans, true)?;
        let delegatee_type = delegatee_cdp_data.cdp_data.cdp_type;
        let delegatee_updated = delegatee_cdp_data.cdp_data_updated;
        delegatee_cdp_data.update_cdp_type(
            CDPType::Delegatee(
                DelegatorInfo {
                    cdp_id: delegator_cdp_data.cdp_id,
                    delegatee_index: trial.cdp_data.delegatee_count,
                    max_loan_value_ratio,
                    max_loan_value,
                },
            ),
        );
        let health = check_cdp_health(&*delegatee_cdp_data, Some(&trial), &self.pool_states, now);
        if let Err(e) = health {
            delegatee_cdp_data.cdp_data.cdp_type = delegatee_type;
            delegatee_cdp_data.cdp_data_updated = delegatee_updated;
            return Err(e);
        }
        let (_, linked_count) = delegator_cdp_data.increase_delegatee_count()?;
        delegator_cdp_data.shift_aggregate(&delegatee_cdp_data.cdp_data.loans, true)?;
        self.set_link(
            DelegateeLink {
                delegator_cdp_id: delegator_cdp_data.cdp_id,
                delegatee_index: linked_count,
                delegatee_cdp_id: delegatee_cdp_data.cdp_id,
            },
        );
        let _ = delegator_cdp_data.save_cdp(self.market_config.max_cdp_position, now)?;
        let _ = delegatee_cdp_data.save_cdp(self.market_config.max_cdp_position, now)?;
        Ok(())
    }

    /// Makes a delegatee a standard CDP again: the delegatee must be healthy
    /// on its own, and its loans leave the delegator's aggregate. On
    /// success both are saved and the link is forgotten; on failure nothing
    /// changes.
    pub fn unlink_cdp(
        &mut self,
        delegator_cdp_data: &mut WrappedCDPData,
        delegatee_cdp_data: &mut WrappedCDPData,
        now: i64,
    ) -> (r: Result<(), String>)
        requires
            old(self).well_formed(),
        ensures
            final(self).well_formed(),
            err_text(r) == spec_unlink_error(
                *old(self),
                *old(delegator_cdp_data),
                *old(delegatee_cdp_data),
                now,
            ),
            r.is_err() ==> *final(self) == *old(self) && *final(delegator_cdp_data)
                == *old(delegator_cdp_data) && *final(delegatee_cdp_data)
                == *old(delegatee_cdp_data),
            r.is_ok() ==> ({
                &&& delegator_saved_with(
                    *final(delegator_cdp_data),
                    *old(delegator_cdp_data),
                    (old(delegator_cdp_data).cdp_data.delegatee_count - 1) as u64,
                    spec_shifted_aggregate(*old(delegator_cdp_data), *old(delegatee_cdp_data), false),
                    now,
                )
                &&& forall|res: ResourceAddress| #[trigger]
                    final(delegator_cdp_data).cdp_data.units(PositionKind::DelegateeLoan, res) == old(
                        delegator_cdp_data,
                    ).cdp_data.units(PositionKind::DelegateeLoan, res) - old(
                        delegatee_cdp_data,
                    ).cdp_data.units(PositionKind::Loan, res)
                &&& *final(delegatee_cdp_data) == old(delegatee_cdp_data).with_type(
                    CDPType::Standard,
                ).saved(now)
                &&& old(delegatee_cdp_data).cdp_data.cdp_type is Delegatee
                &&& final(self).delegatee_cdp_ids@ == links_without(
                    old(self).delegatee_cdp_ids@,
                    old(delegator_cdp_data).cdp_id,
                    old(delegatee_cdp_data).cdp_data.cdp_type->Delegatee_0.delegatee_index,
                )
                &&& final(self).cdp_counter == old(self).cdp_counter
                &&& final(self).pool_states == old(self).pool_states
                &&& final(self).operating_status == old(self).operating_status
                &&& final(self).market_config == old(self).market_config
            }),
    {
        let info = match delegatee_cdp_data.get_type() {
            CDPType::Delegatee(info) => info,
            CDPType::Standard => {
                return Err(message("CDP is not a delegatee"));
            },
        };
        if info.cdp_id != delegator_cdp_data.cdp_id {
            return Err(message("Delegatee CDP not linked to provided delegator CDP"));
        }
        if delegator_cdp_data.cdp_data.delegatee_count == 0 {
            return Err(message("Delegatee count underflow"));
        }
        if !delegator_cdp_data.within_position_cap(self.market_config.max_cdp_position)
            || !delegatee_cdp_data.within_position_cap(self.market_config.max_cdp_position) {
            return Err(message("Max CDP position exceeded"));
        }
        delegator_cdp_data.confirm_valid();
        delegatee_cdp_data.confirm_valid();
        proof {
            if spec_aggregate_error(
                delegator_cdp_data.cdp_data.entries(PositionKind::DelegateeLoan),
                delegatee_cdp_data.cdp_data.entries(PositionKind::Loan),
                0,
                false,
            ).is_none() {
                assert forall|res: ResourceAddress|
                    crate::unit_map::units_of(
                        spec_shifted_aggregate(*delegator_cdp_data, *delegatee_cdp_data, false),
                        res,
                    ) == #[trigger] delegator_cdp_data.cdp_data.units(PositionKind::DelegateeLoan, res)
                        - delegatee_cdp_data.cdp_data.units(PositionKind::Loan, res) by {
                    lemma_link_moves_loans(*delegator_cdp_data, *delegatee_cdp_data, false, res);
                }
            }
        }
        let delegatee_updated = delegatee_cdp_data.cdp_data_updated;
        delegatee_cdp_data.update_cdp_type(CDPType::Standard);
        let health = check_cdp_health(&*delegatee_cdp_data, None, &self.pool_states, now);
        if let Err(e) = health {
            delegatee_cdp_data.cdp_data.cdp_type = CDPType::Delegatee(info);
            delegatee_cdp_data.cdp_data_updated = delegatee_updated;
            return Err(e);
        }
        if let Err(e) = delegator_cdp_data.shift_aggregate(&delegatee_cdp_data.cdp_data.loans, false) {
            delegatee_cdp_data.cdp_data.cdp_type = CDPType::Delegatee(info);
            delegatee_cdp_data.cdp_data_updated = delegatee_updated;
            return Err(e);
        }
        self.remove_link(delegator_cdp_data.cdp_id, info.delegatee_index);
        let _ = delegator_cdp_data.decrease_delegatee_count()?;
        let _ = delegatee_cdp_data.save_cdp(self.market_config.max_cdp_position, now)?;
        let _ = delegator_cdp_data.save_cdp(self.market_config.max_cdp_position, now)?;
        Ok(())
    }

    /// Changes the name, the description or the image of a position and
    /// dates the change.
    pub fn update_cdp(&self, cdp_data: &mut CollaterizedDebtPositionData, value: UpdateCDPInput, now: i64)
        ensures
            final(cdp_data).updated_at == now,
            final(cdp_data).minted_at == old(cdp_data).minted_at,
            final(cdp_data).cdp_type == old(cdp_data).cdp_type,
            final(cdp_data).delegatee_count == old(cdp_data).delegatee_count,
            final(cdp_data).same_maps(*old(cdp_data)),
            match value {
                UpdateCDPInput::KeyImageURL(text) => final(cdp_data).key_image_url == text
                    && final(cdp_data).name == old(cdp_data).name && final(cdp_data).description
                    == old(cdp_data).description,
                UpdateCDPInput::Name(text) => final(cdp_data).name == text
                    && final(cdp_data).key_image_url == old(cdp_data).key_image_url
                    && final(cdp_data).description == old(cdp_data).description,
                UpdateCDPInput::Description(text) => final(cdp_data).description == text
                    && final(cdp_data).name == old(cdp_data).name
                    && final(cdp_data).key_image_url == old(cdp_data).key_image_url,
            },
    {
        match value {
            UpdateCDPInput::KeyImageURL(key_image_url) => {
                cdp_data.key_image_url = key_image_url;
            },
            UpdateCDPInput::Name(name) => {
                cdp_data.name = name;
            },
            UpdateCDPInput::Description(description) => {
                cdp_data.description = description;
            },
        }
        cdp_data.updated_at = now;
    }

    /// Replaces the limits of a delegatee of the given delegator and saves
    /// it. Fails, changing nothing, on limits out of range, a CDP that is
    /// not a delegatee of that delegator, or too many positions.
    pub fn update_delegatee_cdp(
        &self,
        delegator_cdp_id: u64,
        delegatee_cdp_data: &mut WrappedCDPData,
        max_loan_value: Option<Decimal>,
        max_loan_value_ratio: Option<Decimal>,
        now: i64,
    ) -> (r: Result<(), String>)
        ensures
            r.is_err() ==> *final(delegatee_cdp_data) == *old(delegatee_cdp_data),
            err_text(r) == (if spec_limits_error(max_loan_value, max_loan_value_ratio).is_some() {
                spec_limits_error(max_loan_value, max_loan_value_ratio)
            } else {
                match old(delegatee_cdp_data).cdp_data.cdp_type {
                    CDPType::Standard => Some(err_not_delegatee()),
                    CDPType::Delegatee(info) => if info.cdp_id != delegator_cdp_id {
                        Some(err_not_linked())
                    } else if old(delegatee_cdp_data).cdp_data.position_count()
                        > self.market_config.max_cdp_position {
                        Some(err_too_many_positions())
                    } else {
                        None
                    },
                }
            }),
            r.is_ok() ==> *final(delegatee_cdp_data) == old(delegatee_cdp_data).with_type(
                CDPType::Delegatee(
                    DelegatorInfo {
                        max_loan_value,
                        max_loan_value_ratio,
                        ..old(delegatee_cdp_data).cdp_data.cdp_type->Delegatee_0
                    },
                ),
            ).saved(now),
    {
        check_limits(max_loan_value, max_loan_value_ratio)?;
        let linked_to = delegatee_cdp_data.get_delegator_id()?;
        if linked_to != delegator_cdp_id {
            return Err(message("Delegatee CDP not linked to provided delegator CDP"));
        }
        if !delegatee_cdp_data.within_position_cap(self.market_config.max_cdp_position) {
            return Err(message("Max CDP position exceeded"));
        }
        delegatee_cdp_data.update_delegatee_info(max_loan_value, max_loan_value_ratio)?;
        let _ = delegatee_cdp_data.save_cdp(self.market_config.max_cdp_position, now)?;
        Ok(())
    }
}

/// What the caller moves for one repaid flash loan: the loan back into the
/// pool as a loan coming back, the lenders' share of the fee into the pool as
/// new liquidity, and the protocol's share into the reserve.
#[derive(Clone, Copy, Debug, PartialEq, Eq, Structural)]
pub struct FlashloanRepayment {
    pub pool_res_address: ResourceAddress,
    pub loan_amount: Decimal,
    pub lp_fee_amount: Decimal,
    pub protocol_fee_amount: Decimal,
}

pub open spec fn err_flashloan_amount() -> Seq<char> {
    "INVALID_INPUT: borrowed amount must be greater than zero"@
}

pub open spec fn err_flashloan_overflow() -> Seq<char> {
    "Flashloan amount overflow"@
}

pub open spec fn err_term_not_found() -> Seq<char> {
    "flash loan term not found for provided resource"@
}

pub open spec fn err_insufficient_repayment() -> Seq<char> {
    "Insufficient repayment given for your loan!"@
}

pub open spec fn err_term_unpaid() -> Seq<char> {
    "flash loan not repaid for a resource of the term"@
}

pub open spec fn err_pool_unit_not_found() -> Seq<char> {
    "Pool unit not found"@
}

/// The loans and terms of a batch of flash loans: `loans` and `terms` with
/// those for the requests from index `i` on added. Each request must not be
/// negative and needs a pool with flash loans switched on; its fee is the
/// amount times the pool's flash loan fee rate.
pub open spec fn spec_flashloans(
    pools: Seq<LendingPoolState>,
    requests: Seq<(ResourceAddress, Decimal)>,
    i: int,
    loans: Seq<Bucket>,
    terms: Seq<(ResourceAddress, BatchFlashloanItem)>,
) -> Result<(Seq<Bucket>, Seq<(ResourceAddress, BatchFlashloanItem)>), Seq<char>>
    decreases requests.len() - i,
{
    if i < 0 || i >= requests.len() {
        Ok((loans, terms))
    } else {
        let (res, amount) = requests[i];
        let p = pool_index(pools, res, 0);
        if amount@ < 0 {
            Err(err_flashloan_amount())
        } else if p >= pools.len() {
            Err(err_pool_missing())
        } else if !pools[p].operating_status.spec_is_enabled(OperatingService::Flashloan) {
            Err(err_service_disabled())
        } else {
            match spec_mul(amount@, pools[p].pool_config.flashloan_fee_rate@) {
                None => Err(err_flashloan_overflow()),
                Some(fee) => spec_flashloans(
                    pools,
                    requests,
                    i + 1,
                    loans.push(Bucket { resource_address: res, amount }),
                    terms_with(
                        terms,
                        res,
                        BatchFlashloanItem { fee_amount: dec_of(fee), loan_amount: amount },
                    ),
                ),
            }
        }
    }
}

/// How a payment is split for one repaid flash loan: `(remainder, lenders'
/// share of the fee, protocol's share of the fee)`. The protocol's share is
/// the fee times the rate, the rest of the fee is the lenders'; each part
/// must be there to take.
pub open spec fn spec_fee_split(payment: int, loan: int, fee: int, rate: int) -> Result<
    (int, int, int),
    Seq<char>,
> {
    if !(0 <= loan <= payment) {
        Err(err_take_amount())
    } else {
        match spec_mul(fee, rate) {
            None => Err(err_flashloan_overflow()),
            Some(protocol_fee) => match spec_sub(fee, protocol_fee) {
                None => Err(err_flashloan_overflow()),
                Some(lp_fee) => if !(0 <= lp_fee <= payment - loan) {
                    Err(err_take_amount())
                } else if !(0 <= protocol_fee <= payment - loan - lp_fee) {
                    Err(err_take_amount())
                } else {
                    Ok((payment - loan - lp_fee - protocol_fee, lp_fee, protocol_fee))
                },
            },
        }
    }
}

/// The pool with an amount added to its reserve of its own asset.
pub open spec fn spec_reserve_with(pool: LendingPoolState, res: ResourceAddress, amount: int) -> Result<
    LendingPoolState,
    Seq<char>,
> {
    if pool.reserve.resource_address != res {
        Err(err_put_resource())
    } else {
        match spec_add(pool.reserve.amount@, amount) {
            None => Err(err_put_overflow()),
            Some(reserve) => Ok(
                LendingPoolState {
                    reserve: Vault { resource_address: res, amount: dec_of(reserve) },
                    ..pool
                },
            ),
        }
    }
}

/// A pool after a flash loan is repaid to it, with what is left of the
/// payment and what the caller has to move: the payment is split and the
/// protocol's share goes to the reserve.
pub open spec fn spec_settle_flashloan(pool: LendingPoolState, payment: Bucket,
    item: BatchFlashloanItem) -> Result<
    (LendingPoolState, Bucket, FlashloanRepayment),
    Seq<char>,
> {
    match spec_fee_split(
        payment.amount@,
        item.loan_amount@,
        item.fee_amount@,
        pool.pool_config.protocol_flashloan_fee_rate@,
    ) {
        Err(e) => Err(e),
        Ok((remainder, lp_fee, protocol_fee)) => match spec_reserve_with(
            pool,
            payment.resource_address,
            protocol_fee,
        ) {
            Err(e) => Err(e),
            Ok(after) => Ok(
                (
                    after,
                    Bucket { resource_address: payment.resource_address, amount: dec_of(remainder) },
                    FlashloanRepayment {
                        pool_res_address: payment.resource_address,
                        loan_amount: item.loan_amount,
                        lp_fee_amount: dec_of(lp_fee),
                        protocol_fee_amount: dec_of(protocol_fee),
                    },
                ),
            ),
        },
    }
}

/// The pools after one flash loan is repaid, with what is left of the
/// payment and what the caller has to move. The asset must have terms and
/// a pool, and the payment must cover loan and fee.
#[verifier::opaque]
pub open spec fn spec_repay_flashloan(
    pools: Seq<LendingPoolState>,
    terms: Seq<(ResourceAddress, BatchFlashloanItem)>,
    payment: Bucket,
) -> Result<(Seq<LendingPoolState>, Bucket, FlashloanRepayment), Seq<char>> {
    let res = payment.resource_address;
    let t = term_index(terms, res, 0);
    let p = pool_index(pools, res, 0);
    if t >= terms.len() {
        Err(err_term_not_found())
    } else if spec_add(terms[t].1.fee_amount@, terms[t].1.loan_amount@).is_none() {
        Err(err_flashloan_overflow())
    } else if payment.amount@ < terms[t].1.fee_amount@ + terms[t].1.loan_amount@ {
        Err(err_insufficient_repayment())
    } else if p >= pools.len() {
        Err(err_pool_missing())
    } else {
        match spec_settle_flashloan(pools[p], payment, terms[t].1) {
            Err(e) => Err(e),
            Ok((pool, remainder, repayment)) => Ok((pools.update(p, pool), remainder, repayment)),
        }
    }
}

/// The pools after the payments from index `i` on are settled in order,
/// with what is left of each payment and what the caller has to move.
pub open spec fn spec_repay_flashloans(
    pools: Seq<LendingPoolState>,
    terms: Seq<(ResourceAddress, BatchFlashloanItem)>,
    payments: Seq<Bucket>,
    i: int,
    remainders: Seq<Bucket>,
    repayments: Seq<FlashloanRepayment>,
) -> Result<(Seq<LendingPoolState>, Seq<Bucket>, Seq<FlashloanRepayment>), Seq<char>>
    decreases payments.len() - i,
{
    if i < 0 || i >= payments.len() {
        Ok((pools, remainders, repayments))
    } else {
        match spec_repay_flashloan(pools, terms, payments[i]) {
            Err(e) => Err(e),
            Ok((next, remainder, repayment)) => spec_repay_flashloans(
                next,
                terms,
                payments,
                i + 1,
                remainders.push(remainder),
                repayments.push(repayment),
            ),
        }
    }
}

/// The first index from `i` on of a payment in the given asset; the number
/// of payments if there is none.
pub open spec fn payment_index(payments: Seq<Bucket>, res: ResourceAddress, i: int) -> int
    decreases payments.len() - i,
{
    if i < 0 || i >= payments.len() {
        payments.len() as int
    } else if payments[i].resource_address == res {
        i
    } else {
        payment_index(payments, res, i + 1)
    }
}

/// The first index from `i` on of terms that owe a loan or a fee and that
/// no payment is made for; the number of terms if all that is owed has its
/// payment.
pub open spec fn unpaid_term(
    terms: Seq<(ResourceAddress, BatchFlashloanItem)>,
    payments: Seq<Bucket>,
    i: int,
) -> int
    decreases terms.len() - i,
{
    if i < 0 || i >= terms.len() {
        terms.len() as int
    } else if (terms[i].1.loan_amount@ > 0 || terms[i].1.fee_amount@ > 0) && payment_index(
        payments,
        terms[i].0,
        0,
    ) >= payments.len() {
        i
    } else {
        unpaid_term(terms, payments, i + 1)
    }
}

/// What the repayment of a batch of flash loans does, if it is accepted:
/// every asset whose terms owe a loan or a fee must have a payment, and
/// every payment must settle against its terms, in order.
pub open spec fn spec_repay_batch(
    pools: Seq<LendingPoolState>,
    terms: Seq<(ResourceAddress, BatchFlashloanItem)>,
    payments: Seq<Bucket>,
) -> Result<(Seq<LendingPoolState>, Seq<Bucket>, Seq<FlashloanRepayment>), Seq<char>> {
    if unpaid_term(terms, payments, 0) < terms.len() {
        Err(err_term_unpaid())
    } else {
        spec_repay_flashloans(pools, terms, payments, 0, Seq::empty(), Seq::empty())
    }
}

/// Whether the pools are what they were but for their reserves.
pub open spec fn same_but_reserves(after: Seq<LendingPoolState>, before: Seq<LendingPoolState>) -> bool {
    &&& after.len() == before.len()
    &&& forall|k: int|
        0 <= k < after.len() ==> #[trigger] after[k] == (LendingPoolState {
            reserve: after[k].reserve,
            ..before[k]
        })
}

/// The first index from `i` on of the pool whose pool units are the given
/// asset; the number of pools if there is none.
pub open spec fn pool_unit_index(pools: Seq<LendingPoolState>, unit_res: ResourceAddress, i: int) -> int
    decreases pools.len() - i,
{
    if i < 0 || i >= pools.len() {
        pools.len() as int
    } else if pools[i].collaterals.resource_address == unit_res {
        i
    } else {
        pool_unit_index(pools, unit_res, i + 1)
    }
}

/// Books the repayment of a flash loan to a pool: splits the payment and
/// puts the protocol's share of the fee into the reserve. Fails, changing
/// nothing, if a part is not there to take or an amount leaves the range.
pub fn settle_flashloan(pool_state: &mut LendingPoolState, payment: Bucket,
    loan_term: BatchFlashloanItem) -> (r:
    Result<(Bucket, FlashloanRepayment), String>)
    ensures
        final(pool_state).liquidation_threshold == old(pool_state).liquidation_threshold,
        match spec_settle_flashloan(*old(pool_state), payment, loan_term) {
            Ok((pool, remainder, repayment)) => r == Ok::<(Bucket, FlashloanRepayment), String>(
                (remainder, repayment),
            ) && *final(pool_state) == pool,
            Err(e) => err_text(r) == Some(e) && *final(pool_state) == *old(pool_state),
        },
{
    let ghost split = spec_fee_split(
        payment.amount@,
        loan_term.loan_amount@,
        loan_term.fee_amount@,
        pool_state.pool_config.protocol_flashloan_fee_rate@,
    );
    let (remainder, lp_fee_amount, protocol_fee_amount) = split_fee(
        payment,
        loan_term,
        pool_state.pool_config.protocol_flashloan_fee_rate,
    )?;
    proof {
        crate::decimal::lemma_dec_of_fits(split->Ok_0.2);
    }
    let mut reserve = pool_state.reserve;
    reserve.put(Bucket { resource_address: payment.resource_address, amount: protocol_fee_amount })?;
    proof {
        lemma_dec_of(reserve.amount);
    }
    pool_state.reserve = reserve;
    Ok(
        (
            remainder,
            FlashloanRepayment {
                pool_res_address: payment.resource_address,
                loan_amount: loan_term.loan_amount,
                lp_fee_amount,
                protocol_fee_amount,
            },
        ),
    )
}

/// Splits a payment for one repaid flash loan: takes the loan, the lenders'
/// share of the fee and the protocol's share out of it, and returns what is
/// left with the two shares.
pub fn split_fee(payment: Bucket, loan_term: BatchFlashloanItem, protocol_rate: Decimal) -> (r: Result<
    (Bucket, Decimal, Decimal),
    String,
>)
    ensures
        match spec_fee_split(
            payment.amount@,
            loan_term.loan_amount@,
            loan_term.fee_amount@,
            protocol_rate@,
        ) {
            Ok((remainder, lp_fee, protocol_fee)) => r == Ok::<(Bucket, Decimal, Decimal), String>(
                (
                    Bucket { resource_address: payment.resource_address, amount: dec_of(remainder) },
                    dec_of(lp_fee),
                    dec_of(protocol_fee),
                ),
            ),
            Err(e) => err_text(r) == Some(e),
        },
{
    let mut payment = payment;
    let _loan = payment.take(loan_term.loan_amount)?;
    let protocol_fee_amount = match loan_term.fee_amount.checked_mul(protocol_rate) {
        Some(v) => v,
        None => {
            return Err(message("Flashloan amount overflow"));
        },
    };
    let lp_fee_amount = match loan_term.fee_amount.checked_sub(protocol_fee_amount) {
        Some(v) => v,
        None => {
            return Err(message("Flashloan amount overflow"));
        },
    };
    let _lp_fee = payment.take(lp_fee_amount)?;
    let _protocol_fee = payment.take(protocol_fee_amount)?;
    proof {
        lemma_dec_of(payment.amount);
        lemma_dec_of(lp_fee_amount);
        lemma_dec_of(protocol_fee_amount);
    }
    Ok((payment, lp_fee_amount, protocol_fee_amount))
}

impl LendingMarket {
    /// Lends a batch of flash loans: for each requested asset the bucket to
    /// withdraw from its pool for temporary use, and one record of all that
    /// is owed. The caller withdraws the buckets and mints the record.
    pub fn take_batch_flashloan(&self, loan_amounts: &IndexMap<ResourceAddress, Decimal>) -> (r: Result<
        (Vec<Bucket>, BatchFlashloanTerm),
        String,
    >)
        ensures
            !self.operating_status.spec_is_enabled(OperatingService::Flashloan) ==> err_text(r) == Some(
                err_service_disabled(),
            ),
            self.operating_status.spec_is_enabled(OperatingService::Flashloan) ==> match spec_flashloans(
                self.pool_states@,
                unit_entries(*loan_amounts),
                0,
                Seq::empty(),
                Seq::empty(),
            ) {
                Ok((loans, terms)) => r.is_ok() && r.unwrap().0@ == loans && r.unwrap().1@ == terms,
                Err(e) => err_text(r) == Some(e),
            },
    {
        self.check_operating_status(OperatingService::Flashloan)?;
        let mut loans: Vec<Bucket> = Vec::new();
        let mut terms = BatchFlashloanTerm::new();
        let n = units_len(loan_amounts);
        let mut i: usize = 0;
        assert(loans@ =~= Seq::empty());
        assert(terms@ =~= Seq::empty());
        while i < n
            invariant
                n == unit_entries(*loan_amounts).len(),
                0 <= i <= n,
                self.operating_status.spec_is_enabled(OperatingService::Flashloan),
                spec_flashloans(
                    self.pool_states@,
                    unit_entries(*loan_amounts),
                    0,
                    Seq::empty(),
                    Seq::empty(),
                ) == spec_flashloans(
                    self.pool_states@,
                    unit_entries(*loan_amounts),
                    i as int,
                    loans@,
                    terms@,
                ),
            decreases n - i,
        {
            let (pool_res_address, amount) = units_entry_at(loan_amounts, i);
            if amount.is_negative() {
                return Err(message("INVALID_INPUT: borrowed amount must be greater than zero"));
            }
            let p = find_pool(&self.pool_states, pool_res_address);
            if p >= self.pool_states.len() {
                return Err(message("Pool state not found for provided resource"));
            }
            let pool_state = &self.pool_states[p];
            pool_state.check_operating_status(OperatingService::Flashloan)?;
            let fee_amount = match amount.checked_mul(pool_state.pool_config.flashloan_fee_rate) {
                Some(v) => v,
                None => {
                    return Err(message("Flashloan amount overflow"));
                },
            };
            proof {
                lemma_dec_of(fee_amount);
            }
            loans.push(Bucket { resource_address: pool_res_address, amount });
            terms.set(pool_res_address, BatchFlashloanItem { fee_amount, loan_amount: amount });
            i = i + 1;
        }
        Ok((loans, terms))
    }

    /// Settles one payment of a batch of flash loans against its terms.
    /// Fails, changing nothing, if the asset has no terms or no pool, or
    /// the payment does not cover loan and fee.
    pub fn repay_flashloan(&mut self, payment: Bucket, batch_loan_term: &BatchFlashloanTerm) -> (r: Result<
        (Bucket, FlashloanRepayment),
        String,
    >)
        ensures
            old(self).well_formed() ==> final(self).well_formed(),
            final(self).same_but_pools(*old(self)),
            final(self).pool_states@.len() == old(self).pool_states@.len(),
            same_but_reserves(final(self).pool_states@, old(self).pool_states@),
            match spec_repay_flashloan(old(self).pool_states@, batch_loan_term@, payment) {
                Ok((pools, remainder, repayment)) => r == Ok::<(Bucket, FlashloanRepayment), String>(
                    (remainder, repayment),
                ) && final(self).pool_states@ == pools,
                Err(e) => err_text(r) == Some(e) && final(self).pool_states@ == old(self).pool_states@,
            },
    {
        reveal(spec_repay_flashloan);
        let pool_res_address = payment.resource_address;
        proof {
            lemma_term_index_bounds(batch_loan_term@, pool_res_address, 0);
            lemma_pool_index_bounds(self.pool_states@, pool_res_address, 0);
        }
        let t = batch_loan_term.find(pool_res_address);
        if t >= batch_loan_term.len() {
            return Err(message("flash loan term not found for provided resource"));
        }
        let loan_term = batch_loan_term.entry_at(t).1;
        let due_amount = match loan_term.fee_amount.checked_add(loan_term.loan_amount) {
            Some(v) => v,
            None => {
                return Err(message("Flashloan amount overflow"));
            },
        };
        if payment.amount.lt(due_amount) {
            return Err(message("Insufficient repayment given for your loan!"));
        }
        let p = find_pool(&self.pool_states, pool_res_address);
        if p >= self.pool_states.len() {
            return Err(message("Pool state not found for provided resource"));
        }
        let ghost before = self.pool_states@;
        let settled = settle_flashloan(&mut self.pool_states[p], payment, loan_term);
        proof {
            assert(self.pool_states@ =~= before.update(p as int, self.pool_states@[p as int]));
            assert(pools_well_formed(before) ==> pools_well_formed(self.pool_states@)) by {
                if pools_well_formed(before) {
                    assert forall|k: int| 0 <= k < self.pool_states@.len() implies (
                    #[trigger] self.pool_states@[k]).well_formed() by {
                        assert(before[k].well_formed());
                    }
                }
            }
        }
        settled
    }

    /// The reserves of the pools, in the order of the pools.
    fn reserves(&self) -> (r: Vec<Vault>)
        ensures
            r@.len() == self.pool_states@.len(),
            forall|k: int| 0 <= k < r@.len() ==> #[trigger] r@[k] == self.pool_states@[k].reserve,
    {
        let mut saved: Vec<Vault> = Vec::new();
        let n = self.pool_states.len();
        let mut k: usize = 0;
        while k < n
            invariant
                n == self.pool_states@.len(),
                0 <= k <= n,
                saved@.len() == k,
                forall|j: int| 0 <= j < k ==> #[trigger] saved@[j] == self.pool_states@[j].reserve,
            decreases n - k,
        {
            saved.push(self.pool_states[k].reserve);
            k = k + 1;
        }
        saved
    }

    /// Puts back the reserves of the pools as they were recorded.
    fn restore_reserves(&mut self, saved: &Vec<Vault>)
        requires
            saved@.len() == old(self).pool_states@.len(),
        ensures
            final(self).same_but_pools(*old(self)),
            final(self).pool_states@.len() == old(self).pool_states@.len(),
            forall|k: int|
                0 <= k < saved@.len() ==> #[trigger] final(self).pool_states@[k] == (LendingPoolState {
                    reserve: saved@[k],
                    ..old(self).pool_states@[k]
                }),
    {
        let n = self.pool_states.len();
        let mut k: usize = 0;
        while k < n
            invariant
                n == self.pool_states@.len(),
                n == saved@.len(),
                n == old(self).pool_states@.len(),
                0 <= k <= n,
                self.same_but_pools(*old(self)),
                forall|j: int|
                    0 <= j < k ==> #[trigger] self.pool_states@[j] == (LendingPoolState {
                        reserve: saved@[j],
                        ..old(self).pool_states@[j]
                    }),
                forall|j: int| k <= j < n ==> #[trigger] self.pool_states@[j] == old(self).pool_states@[j],
            decreases n - k,
        {
            self.pool_states[k].reserve = saved[k];
            k = k + 1;
        }
    }

    /// The position of the first payment in the given asset; the number of
    /// payments if there is none.
    pub fn find_payment(payments: &Vec<Bucket>, res_address: ResourceAddress) -> (r: usize)
        ensures
            r == payment_index(payments@, res_address, 0),
            r <= payments@.len(),
    {
        let n = payments.len();
        let mut i: usize = 0;
        while i < n
            invariant
                n == payments@.len(),
                0 <= i <= n,
                payment_index(payments@, res_address, 0) == payment_index(payments@, res_address, i as int),
            decreases n - i,
        {
            if payments[i].resource_address == res_address {
                return i;
            }
            i = i + 1;
        }
        n
    }

    /// The position of the first terms that owe a loan or a fee and that no
    /// payment is made for; the number of terms if all that is owed has its
    /// payment.
    pub fn find_unpaid_term(payments: &Vec<Bucket>, batch_loan_term: &BatchFlashloanTerm) -> (r: usize)
        ensures
            r == unpaid_term(batch_loan_term@, payments@, 0),
            r <= batch_loan_term@.len(),
    {
        let n = batch_loan_term.len();
        let mut i: usize = 0;
        while i < n
            invariant
                n == batch_loan_term@.len(),
                0 <= i <= n,
                unpaid_term(batch_loan_term@, payments@, 0) == unpaid_term(
                    batch_loan_term@,
                    payments@,
                    i as int,
                ),
            decreases n - i,
        {
            let (res_address, item) = batch_loan_term.entry_at(i);
            if (item.loan_amount.gt(Decimal::zero()) || item.fee_amount.gt(Decimal::zero()))
                && Self::find_payment(payments, res_address) >= payments.len() {
                return i;
            }
            i = i + 1;
        }
        n
    }

    /// Settles the payments of a batch of flash loans in order and returns
    /// what is left of each with what the caller has to move. Every asset
    /// whose terms owe a loan or a fee must have a payment, and every
    /// payment must cover the loan and the fee of its asset. The caller
    /// then burns the record. On failure nothing changes.
    pub fn repay_batch_flashloan(&mut self, payments: Vec<Bucket>,
        batch_loan_term: &BatchFlashloanTerm) -> (r:
        Result<(Vec<Bucket>, Vec<FlashloanRepayment>), String>)
        ensures
            old(self).well_formed() ==> final(self).well_formed(),
            final(self).same_but_pools(*old(self)),
            final(self).pool_states@.len() == old(self).pool_states@.len(),
            match spec_repay_batch(old(self).pool_states@, batch_loan_term@, payments@) {
                Ok((pools, remainders, repayments)) => r.is_ok() && r.unwrap().0@ == remainders
                    && r.unwrap().1@ == repayments && final(self).pool_states@ == pools,
                Err(e) => err_text(r) == Some(e) && final(self).pool_states@ == old(self).pool_states@,
            },
    {
        if Self::find_unpaid_term(&payments, batch_loan_term) < batch_loan_term.len() {
            return Err(message("flash loan not repaid for a resource of the term"));
        }
        let saved = self.reserves();
        let mut remainders: Vec<Bucket> = Vec::new();
        let mut repayments: Vec<FlashloanRepayment> = Vec::new();
        let n = payments.len();
        let mut i: usize = 0;
        assert(remainders@ =~= Seq::empty());
        assert(repayments@ =~= Seq::empty());
        while i < n
            invariant
                n == payments@.len(),
                0 <= i <= n,
                self.same_but_pools(*old(self)),
                self.pool_states@.len() == old(self).pool_states@.len(),
                old(self).well_formed() ==> self.well_formed(),
                same_but_reserves(self.pool_states@, old(self).pool_states@),
                unpaid_term(batch_loan_term@, payments@, 0) >= batch_loan_term@.len(),
                saved@.len() == old(self).pool_states@.len(),
                forall|k: int| 0 <= k < saved@.len() ==> #[trigger] saved@[k] == old(self).pool_states@[k].reserve,
                spec_repay_flashloans(
                    old(self).pool_states@,
                    batch_loan_term@,
                    payments@,
                    0,
                    Seq::empty(),
                    Seq::empty(),
                ) == spec_repay_flashloans(
                    self.pool_states@,
                    batch_loan_term@,
                    payments@,
                    i as int,
                    remainders@,
                    repayments@,
                ),
            decreases n - i,
        {
            let ghost pools = self.pool_states@;
            let ghost step = spec_repay_flashloan(pools, batch_loan_term@, payments@[i as int]);
            let settled = self.repay_flashloan(payments[i], batch_loan_term);
            let (remainder, repayment) = match settled {
                Ok(v) => v,
                Err(e) => {
                    assert(step is Err);
                    self.restore_reserves(&saved);
                    assert(self.pool_states@ =~= old(self).pool_states@);
                    return Err(e);
                },
            };
            assert(step == Ok::<(Seq<LendingPoolState>, Bucket, FlashloanRepayment), Seq<char>>(
                (self.pool_states@, remainder, repayment),
            ));
            assert(spec_repay_flashloans(
                pools,
                batch_loan_term@,
                payments@,
                i as int,
                remainders@,
                repayments@,
            ) == spec_repay_flashloans(
                self.pool_states@,
                batch_loan_term@,
                payments@,
                i + 1,
                remainders@.push(remainder),
                repayments@.push(repayment),
            ));
            remainders.push(remainder);
            repayments.push(repayment);
            i = i + 1;
        }
        Ok((remainders, repayments))
    }

    /// The position of the pool whose pool units are the given asset; the
    /// number of pools if there is none.
    pub fn find_pool_by_unit(&self, pool_unit_res_address: ResourceAddress) -> (r: usize)
        ensures
            r == pool_unit_index(self.pool_states@, pool_unit_res_address, 0),
            r <= self.pool_states@.len(),
            r < self.pool_states@.len() ==> self.pool_states@[r as int].collaterals.resource_address
                == pool_unit_res_address,
    {
        let n = self.pool_states.len();
        let mut i: usize = 0;
        while i < n
            invariant
                n == self.pool_states@.len(),
                0 <= i <= n,
                pool_unit_index(self.pool_states@, pool_unit_res_address, 0) == pool_unit_index(
                    self.pool_states@,
                    pool_unit_res_address,
                    i as int,
                ),
            decreases n - i,
        {
            if self.pool_states[i].collaterals.resource_address == pool_unit_res_address {
                return i;
            }
            i = i + 1;
        }
        n
    }

    /// Decides on a contribution of liquidity at `now`, given what the pool
    /// on the ledger holds and has lent: the service must be on for the
    /// market and the pool, the pool up to date, and the deposit limit kept.
    /// On success the caller contributes the assets to the pool on the
    /// ledger.
    pub fn contribute(
        &self,
        assets: &Bucket,
        now: i64,
        pool_available_amount: Decimal,
        pool_borrowed_amount: Decimal,
    ) -> (r: Result<(), String>)
        ensures
            err_text(r) == (if !self.operating_status.spec_is_enabled(OperatingService::Contribute) {
                Some(err_service_disabled())
            } else {
                match spec_pool_access(
                    self.pool_states@,
                    assets.resource_address,
                    Some(OperatingService::Contribute),
                    now,
                ) {
                    Err(e) => Some(e),
                    Ok(i) => self.pool_states@[i].spec_contribute_error(
                        assets.amount@,
                        pool_available_amount@,
                        pool_borrowed_amount@,
                    ),
                }
            }),
    {
        self.check_operating_status(OperatingService::Contribute)?;
        let i = self._get_pool_state(
            assets.resource_address,
            Some(OperatingService::Contribute),
            now,
        )?;
        self.pool_states[i].contribute_proxy(assets, pool_available_amount, pool_borrowed_amount)
    }

    /// Decides on a redemption of pool units at `now`: the service must be
    /// on for the market and the pool, and the pool up to date. On success
    /// the caller redeems the units at the pool of the returned asset.
    pub fn redeem(&self, pool_units: &Bucket, now: i64) -> (r: Result<ResourceAddress, String>)
        ensures
            !self.operating_status.spec_is_enabled(OperatingService::Redeem) ==> err_text(r) == Some(
                err_service_disabled(),
            ),
            self.operating_status.spec_is_enabled(OperatingService::Redeem) ==> ({
                let u = pool_unit_index(self.pool_states@, pool_units.resource_address, 0);
                if u >= self.pool_states@.len() {
                    err_text(r) == Some(err_pool_unit_not_found())
                } else {
                    match spec_pool_access(
                        self.pool_states@,
                        self.pool_states@[u].pool_res_address,
                        Some(OperatingService::Redeem),
                        now,
                    ) {
                        Err(e) => err_text(r) == Some(e),
                        Ok(_) => r == Ok::<ResourceAddress, String>(
                            self.pool_states@[u].pool_res_address,
                        ),
                    }
                }
            }),
    {
        self.check_operating_status(OperatingService::Redeem)?;
        let u = self.find_pool_by_unit(pool_units.resource_address);
        if u >= self.pool_states.len() {
            return Err(message("Pool unit not found"));
        }
        let pool_res_address = self.pool_states[u].pool_res_address;
        let _ = self._get_pool_state(pool_res_address, Some(OperatingService::Redeem), now)?;
        Ok(pool_res_address)
    }
}

/// A flash loan repayment moves value and makes none: the loan, the two
/// shares of the fee and what is left of the payment add up to the payment,
/// the two shares add up to the fee, and the protocol's share is what the
/// reserve gains.
pub proof fn lemma_flashloan_repayment_conserves(
    pools: Seq<LendingPoolState>,
    terms: Seq<(ResourceAddress, BatchFlashloanItem)>,
    payment: Bucket,
)
    requires
        spec_repay_flashloan(pools, terms, payment).is_ok(),
    ensures
        ({
            let (after, remainder, repayment) = spec_repay_flashloan(pools, terms, payment)->Ok_0;
            let t = term_index(terms, payment.resource_address, 0);
            let p = pool_index(pools, payment.resource_address, 0);
            &&& 0 <= t < terms.len()
            &&& 0 <= p < pools.len()
            &&& repayment.loan_amount@ + repayment.lp_fee_amount@ + repayment.protocol_fee_amount@
                + remainder.amount@ == payment.amount@
            &&& repayment.lp_fee_amount@ + repayment.protocol_fee_amount@ == terms[t].1.fee_amount@
            &&& repayment.loan_amount == terms[t].1.loan_amount
            &&& remainder.amount@ >= 0
            &&& after[p].reserve.amount@ == pools[p].reserve.amount@ + repayment.protocol_fee_amount@
        }),
{
    reveal(spec_repay_flashloan);
    lemma_term_index_bounds(terms, payment.resource_address, 0);
    lemma_pool_index_bounds(pools, payment.resource_address, 0);
    let t = term_index(terms, payment.resource_address, 0);
    let p = pool_index(pools, payment.resource_address, 0);
    assert(spec_settle_flashloan(pools[p], payment, terms[t].1).is_ok());
    let (remainder, lp_fee, protocol_fee) = spec_fee_split(
        payment.amount@,
        terms[t].1.loan_amount@,
        terms[t].1.fee_amount@,
        pools[p].pool_config.protocol_flashloan_fee_rate@,
    )->Ok_0;
    crate::decimal::lemma_view_fits(payment.amount);
    crate::decimal::lemma_dec_of_fits(lp_fee);
    crate::decimal::lemma_dec_of_fits(protocol_fee);
    crate::decimal::lemma_dec_of_fits(remainder);
    crate::decimal::lemma_dec_of_fits(spec_add(pools[p].reserve.amount@, protocol_fee).unwrap());
}

pub open spec fn err_delegatee_collateral() -> Seq<char> {
    "Delegatee CDP can not add collateral"@
}

pub open spec fn err_delegator_missing() -> Seq<char> {
    "Delegator CDP data is missing"@
}

/// The complaint of the checks before collateral is added, if any, else the
/// position of the pool.
pub open spec fn spec_deposit_access(market: LendingMarket, cdp: WrappedCDPData,
    res: ResourceAddress, now: i64) -> Result<
    int,
    Seq<char>,
> {
    if !market.operating_status.spec_is_enabled(OperatingService::AddCollateral) {
        Err(err_service_disabled())
    } else if cdp.spec_is_delegatee() {
        Err(err_delegatee_collateral())
    } else {
        spec_pool_access(market.pool_states@, res, Some(OperatingService::AddCollateral), now)
    }
}

/// The collateral vault of a pool after pool units are added: an empty
/// bucket changes nothing; a bucket of another asset, or a sum out of range,
/// is refused.
pub open spec fn spec_collateral_added(vault: Vault, units: Bucket) -> Result<Vault, Seq<char>> {
    if units.amount@ == 0 {
        Ok(vault)
    } else if units.resource_address != vault.resource_address {
        Err(crate::pool_state::err_pool_unit_resource())
    } else {
        match spec_add(vault.amount@, units.amount@) {
            None => Err(err_put_overflow()),
            Some(sum) => Ok(Vault { resource_address: vault.resource_address, amount: dec_of(sum) }),
        }
    }
}

/// What a deposit of pool units as collateral does, if it is accepted:
/// `(pool index, the pool's collateral vault after, the position's
/// collateral units of the asset after)`. With the units added the position
/// must not have more positions than the market allows.
pub open spec fn spec_deposit(
    market: LendingMarket,
    cdp: WrappedCDPData,
    res: ResourceAddress,
    deposit_units: Bucket,
    now: i64,
) -> Result<(int, Vault, int), Seq<char>> {
    match spec_deposit_access(market, cdp, res, now) {
        Err(e) => Err(e),
        Ok(i) => match (
            spec_collateral_added(market.pool_states@[i].collaterals, deposit_units),
            spec_changed_units(cdp.cdp_data.units(PositionKind::Collateral, res), deposit_units.amount@),
        ) {
            (Err(e), _) => Err(e),
            (Ok(_), Err(e)) => Err(e),
            (Ok(vault), Ok(units)) => if entries_set(
                cdp.cdp_data.entries(PositionKind::Collateral),
                res,
                units,
            ).len() + cdp.cdp_data.entries(PositionKind::Loan).len()
                > market.market_config.max_cdp_position {
                Err(err_too_many_positions())
            } else {
                Ok((i, vault, units))
            },
        },
    }
}

/// The complaint of the checks before a loan, if any, else the position of
/// the pool.
pub open spec fn spec_borrow_access(
    market: LendingMarket,
    cdp: WrappedCDPData,
    delegator: Option<WrappedCDPData>,
    res: ResourceAddress,
    now: i64,
) -> Result<int, Seq<char>> {
    if !market.operating_status.spec_is_enabled(OperatingService::Borrow) {
        Err(err_service_disabled())
    } else if cdp.spec_is_delegatee() && delegator.is_none() {
        Err(err_delegator_missing())
    } else {
        spec_pool_access(market.pool_states@, res, Some(OperatingService::Borrow), now)
    }
}

/// Whether `after` is `before` with the units of an asset in one map set
/// to `units`, marked as changed. The map then holds no asset twice and,
/// if that held before, holds `units` for the asset and what it held for
/// every other.
pub open spec fn units_set(
    after: WrappedCDPData,
    before: WrappedCDPData,
    kind: PositionKind,
    res: ResourceAddress,
    units: int,
) -> bool {
    &&& after.cdp_id == before.cdp_id
    &&& after.cdp_data_updated
    &&& after.cdp_data.same_but(before.cdp_data, kind)
    &&& after.cdp_data.entries(kind) == entries_set(before.cdp_data.entries(kind), res, units)
    &&& units_follow(after.cdp_data.entries(kind), before.cdp_data.entries(kind), res, units)
    &&& before.cdp_data.valid() ==> after.cdp_data.valid()
}

/// Whether `after` is `before` with the units of an asset in one map set
/// to `units`, written back at `now`.
pub open spec fn units_set_and_saved(
    after: WrappedCDPData,
    before: WrappedCDPData,
    kind: PositionKind,
    res: ResourceAddress,
    units: int,
    now: i64,
) -> bool {
    &&& after.cdp_id == before.cdp_id
    &&& !after.cdp_data_updated
    &&& after.cdp_data.updated_at == now
    &&& after.cdp_data.name == before.cdp_data.name
    &&& after.cdp_data.description == before.cdp_data.description
    &&& after.cdp_data.key_image_url == before.cdp_data.key_image_url
    &&& after.cdp_data.cdp_type == before.cdp_data.cdp_type
    &&& after.cdp_data.delegatee_count == before.cdp_data.delegatee_count
    &&& after.cdp_data.minted_at == before.cdp_data.minted_at
    &&& kind != PositionKind::Collateral ==> after.cdp_data.collaterals == before.cdp_data.collaterals
    &&& kind != PositionKind::Loan ==> after.cdp_data.loans == before.cdp_data.loans
    &&& kind != PositionKind::DelegateeLoan ==> after.cdp_data.delegatee_loans
        == before.cdp_data.delegatee_loans
    &&& after.cdp_data.entries(kind) == entries_set(before.cdp_data.entries(kind), res, units)
    &&& units_follow(after.cdp_data.entries(kind), before.cdp_data.entries(kind), res, units)
    &&& before.cdp_data.valid() ==> after.cdp_data.valid()
}

impl LendingMarket {
    /// Adds pool units of one asset to the collateral of a position: books
    /// them on the position and locks them in the pool's collateral vault.
    /// The position must not be a delegatee and, with the units added, must
    /// not have more positions than the market allows. Fails, changing
    /// nothing, if a check fails. The caller has contributed the deposit to
    /// the pool where it was not in pool units already, and saves the
    /// position when all deposits are in.
    pub fn _deposit_internal(
        &mut self,
        cdp_data: &mut WrappedCDPData,
        pool_res_address: ResourceAddress,
        deposit_units: Bucket,
        now: i64,
    ) -> (r: Result<(), String>)
        ensures
            old(self).well_formed() ==> final(self).well_formed(),
            final(self).same_but_pools(*old(self)),
            final(self).pool_states@.len() == old(self).pool_states@.len(),
            match spec_deposit(*old(self), *old(cdp_data), pool_res_address, deposit_units, now) {
                Err(e) => err_text(r) == Some(e) && final(self).pool_states@ == old(self).pool_states@
                    && *final(cdp_data) == *old(cdp_data),
                Ok((i, vault, units)) => {
                    &&& r.is_ok()
                    &&& final(self).same_pools_but(*old(self), i)
                    &&& final(self).pool_states@[i] == (LendingPoolState {
                        collaterals: vault,
                        ..old(self).pool_states@[i]
                    })
                    &&& units_set(
                        *final(cdp_data),
                        *old(cdp_data),
                        PositionKind::Collateral,
                        pool_res_address,
                        units,
                    )
                },
            },
    {
        self.check_operating_status(OperatingService::AddCollateral)?;
        if cdp_data.is_delegatee() {
            return Err(message("Delegatee CDP can not add collateral"));
        }
        let i = self._get_pool_state(pool_res_address, Some(OperatingService::AddCollateral), now)?;
        let mut vault = self.pool_states[i].collaterals;
        if !deposit_units.amount.is_zero() {
            if deposit_units.resource_address != vault.resource_address {
                return Err(message("Pool unit resource address missmatch"));
            }
            vault.put(deposit_units)?;
            proof {
                lemma_dec_of(vault.amount);
            }
        }
        let units = changed_units(cdp_data.get_collateral_units(pool_res_address), deposit_units.amount)?;
        let collaterals = cdp_data.collateral_count_with(pool_res_address, units);
        let loans = units_len(&cdp_data.cdp_data.loans);
        if collaterals > self.market_config.max_cdp_position as u128 || loans as u128
            > self.market_config.max_cdp_position as u128 - collaterals {
            return Err(message("Max CDP position exceeded"));
        }
        cdp_data.update_collateral(pool_res_address, deposit_units.amount)?;
        self.pool_states[i].collaterals = vault;
        Ok(())
    }

    /// Adds pool units of one asset to the collateral of a position and
    /// saves the position. Fails, changing nothing, if a check fails.
    pub fn add_collateral(
        &mut self,
        cdp_data: &mut WrappedCDPData,
        pool_res_address: ResourceAddress,
        deposit_units: Bucket,
        now: i64,
    ) -> (r: Result<(), String>)
        ensures
            old(self).well_formed() ==> final(self).well_formed(),
            final(self).same_but_pools(*old(self)),
            final(self).pool_states@.len() == old(self).pool_states@.len(),
            match spec_deposit(*old(self), *old(cdp_data), pool_res_address, deposit_units, now) {
                Err(e) => err_text(r) == Some(e) && final(self).pool_states@ == old(self).pool_states@
                    && *final(cdp_data) == *old(cdp_data),
                Ok((i, vault, units)) => {
                    &&& r.is_ok()
                    &&& final(self).same_pools_but(*old(self), i)
                    &&& final(self).pool_states@[i] == (LendingPoolState {
                        collaterals: vault,
                        ..old(self).pool_states@[i]
                    })
                    &&& units_set_and_saved(
                        *final(cdp_data),
                        *old(cdp_data),
                        PositionKind::Collateral,
                        pool_res_address,
                        units,
                        now,
                    )
                },
            },
    {
        self._deposit_internal(cdp_data, pool_res_address, deposit_units, now)?;
        let _ = cdp_data.save_cdp(self.market_config.max_cdp_position, now)?;
        Ok(())
    }
}

/// What a check-and-save makes of a position: saved at `now` if it had
/// changed, else left alone.
pub open spec fn spec_saved_if_changed(cdp: WrappedCDPData, now: i64) -> WrappedCDPData {
    if cdp.cdp_data_updated {
        cdp.saved(now)
    } else {
        cdp
    }
}

/// The delegator as a health check sees it.
pub open spec fn delegator_view(delegator: Option<WrappedCDPData>) -> Option<CdpView> {
    match delegator {
        Some(d) => Some(d@),
        None => None,
    }
}

/// The complaint of `check_and_save`, if any: the position must be healthy,
/// and neither it nor its delegator may have too many positions.
pub open spec fn spec_check_and_save_error(
    market: LendingMarket,
    cdp: WrappedCDPData,
    delegator: Option<WrappedCDPData>,
    now: i64,
) -> Option<Seq<char>> {
    if cdp.spec_is_delegatee() && delegator.is_none() {
        Some(err_delegator_missing())
    } else if spec_cdp_health(cdp@, delegator_view(delegator), market.pool_states@, now).is_some() {
        spec_cdp_health(cdp@, delegator_view(delegator), market.pool_states@, now)
    } else if cdp.cdp_data.position_count() > market.market_config.max_cdp_position {
        Some(err_too_many_positions())
    } else if delegator.is_some() && delegator.unwrap().cdp_data.position_count()
        > market.market_config.max_cdp_position {
        Some(err_too_many_positions())
    } else {
        None
    }
}

/// The complaint of the checks before collateral is removed, if any, else
/// the position of the pool.
pub open spec fn spec_withdraw_access(market: LendingMarket, res: ResourceAddress, now: i64) -> Result<
    int,
    Seq<char>,
> {
    if !market.operating_status.spec_is_enabled(OperatingService::RemoveCollateral) {
        Err(err_service_disabled())
    } else {
        spec_pool_access(market.pool_states@, res, Some(OperatingService::RemoveCollateral), now)
    }
}

/// The collateral vault of a pool after an amount of pool units is
/// released: the amount must be positive and no more than what is locked.
pub open spec fn spec_collateral_removed(vault: Vault, amount: int) -> Result<Vault, Seq<char>> {
    if amount <= 0 {
        Err(crate::pool_state::err_pool_unit_not_positive())
    } else if amount > vault.amount@ {
        Err(crate::pool_state::err_not_enough_pool_units())
    } else {
        Ok(Vault { resource_address: vault.resource_address, amount: dec_of(vault.amount@ - amount) })
    }
}

impl LendingMarket {
    /// Ends an operation on a position: runs the health check on it, with
    /// its delegator if it is a delegatee, and saves both. Fails, changing
    /// nothing, if the position is not healthy or one of the two has more
    /// positions than the market allows. So a position that is saved here
    /// is healthy.
    pub fn check_and_save(
        &self,
        cdp_data: &mut WrappedCDPData,
        delegator_cdp_data: &mut Option<WrappedCDPData>,
        now: i64,
    ) -> (r: Result<(), String>)
        requires
            self.well_formed(),
        ensures
            err_text(r) == spec_check_and_save_error(*self, *old(cdp_data), *old(delegator_cdp_data), now),
            r.is_err() ==> *final(cdp_data) == *old(cdp_data) && *final(delegator_cdp_data)
                == *old(delegator_cdp_data),
            r.is_ok() ==> *final(cdp_data) == spec_saved_if_changed(*old(cdp_data), now)
                && (match *old(delegator_cdp_data) {
                Some(d) => *final(delegator_cdp_data) == Some(spec_saved_if_changed(d, now)),
                None => final(delegator_cdp_data).is_none(),
            }),
            r.is_ok() ==> spec_cdp_health(
                old(cdp_data)@,
                delegator_view(*old(delegator_cdp_data)),
                self.pool_states@,
                now,
            ).is_none(),
    {
        if cdp_data.is_delegatee() && delegator_cdp_data.is_none() {
            return Err(message("Delegator CDP data is missing"));
        }
        match delegator_cdp_data {
            Some(delegator) => {
                check_cdp_health(&*cdp_data, Some(&*delegator), &self.pool_states, now)?;
                if !cdp_data.within_position_cap(self.market_config.max_cdp_position) {
                    return Err(message("Max CDP position exceeded"));
                }
                if !delegator.within_position_cap(self.market_config.max_cdp_position) {
                    return Err(message("Max CDP position exceeded"));
                }
                let _ = cdp_data.save_cdp(self.market_config.max_cdp_position, now)?;
                let _ = delegator.save_cdp(self.market_config.max_cdp_position, now)?;
            },
            None => {
                check_cdp_health(&*cdp_data, None, &self.pool_states, now)?;
                if !cdp_data.within_position_cap(self.market_config.max_cdp_position) {
                    return Err(message("Max CDP position exceeded"));
                }
                let _ = cdp_data.save_cdp(self.market_config.max_cdp_position, now)?;
            },
        }
        Ok(())
    }

    /// Releases collateral of one asset from a position: the lesser of what
    /// is asked and what the position holds leaves the position and the
    /// pool's collateral vault, as pool units. The caller redeems them
    /// unless they are to be kept, and ends the operation with
    /// `check_and_save`.
    pub fn remove_collateral(
        &mut self,
        cdp_data: &mut WrappedCDPData,
        pool_res_address: ResourceAddress,
        unit_amount: Decimal,
        now: i64,
    ) -> (r: Result<Bucket, String>)
        ensures
            old(self).well_formed() ==> final(self).well_formed(),
            final(self).same_but_pools(*old(self)),
            final(self).pool_states@.len() == old(self).pool_states@.len(),
            match spec_withdraw_access(*old(self), pool_res_address, now) {
                Err(e) => err_text(r) == Some(e) && *final(self) == *old(self) && *final(cdp_data)
                    == *old(cdp_data),
                Ok(i) => {
                    let held = old(cdp_data).cdp_data.units(PositionKind::Collateral, pool_res_address);
                    let taken = min_int(held, unit_amount@);
                    &&& final(self).same_pools_but(*old(self), i)
                    &&& match (
                        spec_collateral_removed(old(self).pool_states@[i].collaterals, taken),
                        spec_changed_units(held, -taken),
                    ) {
                        (Ok(vault), Ok(units)) => r == Ok::<Bucket, String>(
                            Bucket {
                                resource_address: old(self).pool_states@[i].collaterals.resource_address,
                                amount: dec_of(taken),
                            },
                        ) && units == held - taken && units_set(
                            *final(cdp_data),
                            *old(cdp_data),
                            PositionKind::Collateral,
                            pool_res_address,
                            units,
                        ) && final(self).pool_states@[i] == (LendingPoolState {
                            collaterals: vault,
                            ..old(self).pool_states@[i]
                        }),
                        (Err(e), _) => err_text(r) == Some(e) && final(self).pool_states@[i]
                            == old(self).pool_states@[i] && *final(cdp_data) == *old(cdp_data),
                        (Ok(_), Err(e)) => err_text(r) == Some(e) && final(self).pool_states@[i]
                            == old(self).pool_states@[i] && *final(cdp_data) == *old(cdp_data),
                    }
                },
            },
    {
        self.check_operating_status(OperatingService::RemoveCollateral)?;
        let i = self._get_pool_state(
            pool_res_address,
            Some(OperatingService::RemoveCollateral),
            now,
        )?;
        let current_deposit_units = cdp_data.get_collateral_units(pool_res_address);
        let withdraw_collateral_units = current_deposit_units.min(unit_amount);
        proof {
            lemma_dec_of(withdraw_collateral_units);
        }
        let mut vault = self.pool_states[i].collaterals;
        if withdraw_collateral_units.le(Decimal::zero()) {
            return Err(message("Pool unit amount must be positive"));
        }
        if withdraw_collateral_units.gt(vault.amount) {
            return Err(message("Not enough pool units to remove from collateral"));
        }
        let deposit_units = vault.take(withdraw_collateral_units)?;
        proof {
            lemma_dec_of(vault.amount);
        }
        let delta = match withdraw_collateral_units.checked_neg() {
            Some(v) => v,
            None => {
                return Err(message("Position units overflow"));
            },
        };
        cdp_data.update_collateral(pool_res_address, delta)?;
        self.pool_states[i].collaterals = vault;
        Ok(deposit_units)
    }
}

/// A step that changes a position is followed by `check_and_save`, and
/// that accepts the changed position only if it is healthy: whenever it
/// has no complaint about a position, the health check has none either.
pub proof fn lemma_saved_position_is_healthy(
    market: LendingMarket,
    cdp: WrappedCDPData,
    delegator: Option<WrappedCDPData>,
    now: i64,
)
    requires
        spec_check_and_save_error(market, cdp, delegator, now).is_none(),
    ensures
        spec_cdp_health(cdp@, delegator_view(delegator), market.pool_states@, now).is_none(),
        cdp.spec_is_delegatee() ==> delegator.is_some(),
        cdp.cdp_data.position_count() <= market.market_config.max_cdp_position,
{
}

/// A withdrawal of collateral that `check_and_save` accepts leaves a
/// healthy position: whatever `remove_collateral` booked, the position
/// passes the health check with the units taken off its collateral.
pub proof fn lemma_checked_withdrawal_is_healthy(
    market: LendingMarket,
    cdp: WrappedCDPData,
    delegator: Option<WrappedCDPData>,
    res: ResourceAddress,
    unit_amount: Decimal,
    now: i64,
    market_after: LendingMarket,
    cdp_after: WrappedCDPData,
)
    requires
        spec_withdraw_access(market, res, now).is_ok(),
        ({
            let i = spec_withdraw_access(market, res, now)->Ok_0;
            let held = cdp.cdp_data.units(PositionKind::Collateral, res);
            let taken = min_int(held, unit_amount@);
            &&& spec_collateral_removed(market.pool_states@[i].collaterals, taken).is_ok()
            &&& spec_changed_units(held, -taken).is_ok()
            &&& market_after.same_but_pools(market)
            &&& market_after.same_pools_but(market, i)
            &&& market_after.pool_states@[i] == (LendingPoolState {
                collaterals: spec_collateral_removed(market.pool_states@[i].collaterals, taken)->Ok_0,
                ..market.pool_states@[i]
            })
            &&& units_set(cdp_after, cdp, PositionKind::Collateral, res, held - taken)
        }),
        spec_check_and_save_error(market_after, cdp_after, delegator, now).is_none(),
    ensures
        ({
            let held = cdp.cdp_data.units(PositionKind::Collateral, res);
            let taken = min_int(held, unit_amount@);
            &&& cdp_after@.collaterals == entries_set(cdp@.collaterals, res, held - taken)
            &&& cdp_after@.loans == cdp@.loans
            &&& spec_cdp_health(
                cdp_after@,
                delegator_view(delegator),
                market_after.pool_states@,
                now,
            ).is_none()
        }),
{
}

/// The complaint of the check that ends a withdrawal of collateral, if any:
/// with the units off its collateral and the pool as the withdrawal left it
/// the position must be healthy, and neither it nor its delegator may have
/// too many positions.
pub open spec fn spec_withdrawal_check(
    market: LendingMarket,
    cdp: WrappedCDPData,
    delegator: Option<WrappedCDPData>,
    res: ResourceAddress,
    i: int,
    vault: Vault,
    units: int,
    now: i64,
) -> Option<Seq<char>> {
    let position = CdpView { collaterals: entries_set(cdp@.collaterals, res, units), ..cdp@ };
    let health = spec_cdp_health(
        position,
        delegator_view(delegator),
        market.pool_states@.update(
            i,
            LendingPoolState { collaterals: vault, ..market.pool_states@[i] },
        ),
        now,
    );
    if cdp.spec_is_delegatee() && delegator.is_none() {
        Some(err_delegator_missing())
    } else if health.is_some() {
        health
    } else if position.collaterals.len() + position.loans.len() > market.market_config.max_cdp_position {
        Some(err_too_many_positions())
    } else if delegator.is_some() && delegator.unwrap().cdp_data.position_count()
        > market.market_config.max_cdp_position {
        Some(err_too_many_positions())
    } else {
        None
    }
}

/// What a withdrawal of collateral does that is made and checked in one:
/// `(pool index, the pool's collateral vault after, the pool units
/// released, the position's collateral units of the asset after)`.
pub open spec fn spec_remove_and_check(
    market: LendingMarket,
    cdp: WrappedCDPData,
    delegator: Option<WrappedCDPData>,
    res: ResourceAddress,
    unit_amount: Decimal,
    now: i64,
) -> Result<(int, Vault, int, int), Seq<char>> {
    match spec_withdraw_access(market, res, now) {
        Err(e) => Err(e),
        Ok(i) => {
            let held = cdp.cdp_data.units(PositionKind::Collateral, res);
            let taken = min_int(held, unit_amount@);
            match (
                spec_collateral_removed(market.pool_states@[i].collaterals, taken),
                spec_changed_units(held, -taken),
            ) {
                (Err(e), _) => Err(e),
                (Ok(_), Err(e)) => Err(e),
                (Ok(vault), Ok(units)) => match spec_withdrawal_check(
                    market,
                    cdp,
                    delegator,
                    res,
                    i,
                    vault,
                    units,
                    now,
                ) {
                    Some(e) => Err(e),
                    None => Ok((i, vault, taken, units)),
                },
            }
        },
    }
}

impl LendingMarket {
    /// Releases collateral of one asset from a position and ends the
    /// withdrawal with the health check, in one: the units leave the
    /// position and the pool's collateral vault as `remove_collateral`
    /// takes them, the position must then be healthy, and it is saved with
    /// its delegator. Fails, changing nothing, if the withdrawal is refused
    /// or the position would not be healthy. The caller redeems the
    /// returned pool units unless they are to be kept.
    #[verifier::rlimit(60)]
    pub fn remove_collateral_and_check(
        &mut self,
        cdp_data: &mut WrappedCDPData,
        delegator_cdp_data: &mut Option<WrappedCDPData>,
        pool_res_address: ResourceAddress,
        unit_amount: Decimal,
        now: i64,
    ) -> (r: Result<Bucket, String>)
        requires
            old(self).well_formed(),
        ensures
            final(self).well_formed(),
            final(self).same_but_pools(*old(self)),
            final(self).pool_states@.len() == old(self).pool_states@.len(),
            match spec_remove_and_check(
                *old(self),
                *old(cdp_data),
                *old(delegator_cdp_data),
                pool_res_address,
                unit_amount,
                now,
            ) {
                Ok((i, vault, taken, units)) => {
                    &&& r == Ok::<Bucket, String>(
                        Bucket {
                            resource_address: old(self).pool_states@[i].collaterals.resource_address,
                            amount: dec_of(taken),
                        },
                    )
                    &&& final(self).same_pools_but(*old(self), i)
                    &&& final(self).pool_states@[i] == (LendingPoolState {
                        collaterals: vault,
                        ..old(self).pool_states@[i]
                    })
                    &&& units_set_and_saved(
                        *final(cdp_data),
                        *old(cdp_data),
                        PositionKind::Collateral,
                        pool_res_address,
                        units,
                        now,
                    )
                    &&& match *old(delegator_cdp_data) {
                        Some(d) => *final(delegator_cdp_data) == Some(spec_saved_if_changed(d, now)),
                        None => final(delegator_cdp_data).is_none(),
                    }
                    &&& spec_cdp_health(
                        final(cdp_data)@,
                        delegator_view(*final(delegator_cdp_data)),
                        final(self).pool_states@,
                        now,
                    ).is_none()
                },
                Err(e) => err_text(r) == Some(e) && final(self).pool_states@ == old(self).pool_states@
                    && *final(cdp_data) == *old(cdp_data) && *final(delegator_cdp_data)
                        == *old(delegator_cdp_data),
            },
    {
        let ghost before = self.pool_states@;
        let ghost held = cdp_data.cdp_data.units(PositionKind::Collateral, pool_res_address);
        let ghost taken = min_int(held, unit_amount@);
        proof {
            lemma_pool_index_bounds(before, pool_res_address, 0);
            crate::decimal::lemma_view_fits(unit_amount);
            let entries = cdp_data.cdp_data.entries(PositionKind::Collateral);
            if crate::unit_map::has_key(entries, pool_res_address) {
                crate::decimal::lemma_view_fits(
                    entries[crate::unit_map::index_of(entries, pool_res_address)].1,
                );
            }
        }
        let p = find_pool(&self.pool_states, pool_res_address);
        let saved_vault = if p < self.pool_states.len() {
            Some(self.pool_states[p].collaterals)
        } else {
            None
        };
        let mut trial = cdp_data.scratch_copy();
        let mut trial_delegator = match delegator_cdp_data {
            Some(delegator) => Some(delegator.scratch_copy()),
            None => None,
        };
        let released = match self.remove_collateral(&mut trial, pool_res_address, unit_amount, now) {
            Ok(v) => v,
            Err(e) => {
                assert(self.pool_states@ =~= before);
                return Err(e);
            },
        };
        proof {
            crate::decimal::lemma_dec_of_fits(taken);
            assert(released.amount@ == taken);
            assert(self.pool_states@ =~= before.update(p as int, self.pool_states@[p as int]));
        }
        if let Err(e) = self.check_and_save(&mut trial, &mut trial_delegator, now) {
            if let Some(vault) = saved_vault {
                self.pool_states[p].collaterals = vault;
            }
            assert(self.pool_states@ =~= before);
            return Err(e);
        }
        let delta = match released.amount.checked_neg() {
            Some(v) => v,
            None => {
                return Err(message("Position units overflow"));
            },
        };
        cdp_data.update_collateral(pool_res_address, delta)?;
        let _ = cdp_data.save_cdp(self.market_config.max_cdp_position, now)?;
        match delegator_cdp_data {
            Some(delegator) => {
                let _ = delegator.save_cdp(self.market_config.max_cdp_position, now)?;
            },
            None => {},
        }
        Ok(released)
    }
}

/// Whether `after` is `before` with the loan units of an asset set to
/// `own` and the position's aggregate of that asset set to `aggregate`,
/// marked as changed. Both maps then hold no asset twice and, if that held
/// before, hold the new units for the asset and what they held for every
/// other.
pub open spec fn loan_units_set(
    after: WrappedCDPData,
    before: WrappedCDPData,
    res: ResourceAddress,
    own: int,
    aggregate: int,
) -> bool {
    &&& after.cdp_id == before.cdp_id
    &&& after.cdp_data_updated
    &&& after.cdp_data.name == before.cdp_data.name
    &&& after.cdp_data.description == before.cdp_data.description
    &&& after.cdp_data.key_image_url == before.cdp_data.key_image_url
    &&& after.cdp_data.cdp_type == before.cdp_data.cdp_type
    &&& after.cdp_data.delegatee_count == before.cdp_data.delegatee_count
    &&& after.cdp_data.minted_at == before.cdp_data.minted_at
    &&& after.cdp_data.updated_at == before.cdp_data.updated_at
    &&& after.cdp_data.collaterals == before.cdp_data.collaterals
    &&& after.cdp_data.entries(PositionKind::Loan) == entries_set(
        before.cdp_data.entries(PositionKind::Loan),
        res,
        own,
    )
    &&& after.cdp_data.entries(PositionKind::DelegateeLoan) == entries_set(
        before.cdp_data.entries(PositionKind::DelegateeLoan),
        res,
        aggregate,
    )
    &&& units_follow(
        after.cdp_data.entries(PositionKind::Loan),
        before.cdp_data.entries(PositionKind::Loan),
        res,
        own,
    )
    &&& units_follow(
        after.cdp_data.entries(PositionKind::DelegateeLoan),
        before.cdp_data.entries(PositionKind::DelegateeLoan),
        res,
        aggregate,
    )
    &&& before.cdp_data.valid() ==> after.cdp_data.valid()
}

/// Whether a delegator is what it was, but for its aggregate of an asset if
/// `units` names one.
pub open spec fn aggregate_set(
    after: Option<WrappedCDPData>,
    before: Option<WrappedCDPData>,
    res: ResourceAddress,
    units: Option<int>,
) -> bool {
    match units {
        Some(u) => before.is_some() && after.is_some() && units_set(
            after.unwrap(),
            before.unwrap(),
            PositionKind::DelegateeLoan,
            res,
            u,
        ),
        None => after == before,
    }
}

/// What a change of the loan units of a position by `delta` books: `(the
/// position's loan units after, its own aggregate after, its delegator's
/// aggregate after)`. Every aggregate that counts the loan moves with it:
/// the position's own and, for a delegatee, its delegator's. The last is
/// there for a delegatee only.
pub open spec fn spec_loan_change(
    cdp: WrappedCDPData,
    delegator: Option<WrappedCDPData>,
    res: ResourceAddress,
    delta: int,
) -> Result<(int, int, Option<int>), Seq<char>> {
    match (
        spec_changed_units(cdp.cdp_data.units(PositionKind::Loan, res), delta),
        spec_changed_units(cdp.cdp_data.units(PositionKind::DelegateeLoan, res), delta),
    ) {
        (Err(e), _) => Err(e),
        (Ok(_), Err(e)) => Err(e),
        (Ok(own), Ok(aggregate)) => if cdp.spec_is_delegatee() {
            match delegator {
                None => Err(err_delegator_missing()),
                Some(d) => match spec_changed_units(
                    d.cdp_data.units(PositionKind::DelegateeLoan, res),
                    delta,
                ) {
                    Err(e) => Err(e),
                    Ok(shared) => Ok((own, aggregate, Some(shared))),
                },
            }
        } else {
            Ok((own, aggregate, None))
        },
    }
}

/// Changes the loan units of a position for one asset by `delta`, on the
/// position, on its own aggregate and, for a delegatee, on its delegator's
/// aggregate. Fails, changing nothing, if one of them would leave the range
/// or go below zero, or if a delegatee comes without its delegator.
pub fn change_loan(
    cdp_data: &mut WrappedCDPData,
    delegator_cdp_data: &mut Option<WrappedCDPData>,
    res_address: ResourceAddress,
    delta: Decimal,
) -> (r: Result<(), String>)
    ensures
        match spec_loan_change(*old(cdp_data), *old(delegator_cdp_data), res_address, delta@) {
            Ok((own, aggregate, shared)) => {
                &&& r.is_ok()
                &&& loan_units_set(*final(cdp_data), *old(cdp_data), res_address, own, aggregate)
                &&& aggregate_set(
                    *final(delegator_cdp_data),
                    *old(delegator_cdp_data),
                    res_address,
                    shared,
                )
            },
            Err(e) => err_text(r) == Some(e) && *final(cdp_data) == *old(cdp_data)
                && *final(delegator_cdp_data) == *old(delegator_cdp_data),
        },
{
    let _ = changed_units(cdp_data.get_loan_unit(res_address), delta)?;
    let _ = changed_units(cdp_data.get_delegatee_loan_unit(res_address), delta)?;
    if cdp_data.is_delegatee() {
        match delegator_cdp_data {
            Some(delegator) => {
                let _ = changed_units(delegator.get_delegatee_loan_unit(res_address), delta)?;
                delegator.update_delegatee_loan(res_address, delta)?;
            },
            None => {
                return Err(message("Delegator CDP data is missing"));
            },
        }
    }
    cdp_data.update_loan(res_address, delta)?;
    cdp_data.update_delegatee_loan(res_address, delta)?;
    Ok(())
}

/// What a loan of `amount` of one asset does, if it is granted: `(pool
/// index, pool after, bucket to withdraw, loan units, the units booked)`,
/// the last as `spec_loan_change` gives them.
pub open spec fn spec_borrow(
    market: LendingMarket,
    cdp: WrappedCDPData,
    delegator: Option<WrappedCDPData>,
    res: ResourceAddress,
    amount: Decimal,
    now: i64,
    available: int,
    borrowed: int,
) -> Result<(int, LendingPoolState, Bucket, Decimal, (int, int, Option<int>)), Seq<char>> {
    match spec_borrow_access(market, cdp, delegator, res, now) {
        Err(e) => Err(e),
        Ok(i) => match market.pool_states@[i].spec_withdraw_for_borrow(amount, available, borrowed) {
            Err(e) => Err(e),
            Ok((pool, bucket, delta)) => match spec_loan_change(cdp, delegator, res, delta@) {
                Err(e) => Err(e),
                Ok(units) => Ok((i, pool, bucket, delta, units)),
            },
        },
    }
}

impl LendingMarket {
    /// Lends `amount` of one asset to a position at `now`, given what the
    /// pool on the ledger holds and has lent: checks the switches and the
    /// pool's limits, books the loan on the pool and the loan units on the
    /// position, on its own aggregate and, for a delegatee, on its
    /// delegator's aggregate. Fails, changing nothing, if a check fails or
    /// units leave the range. The caller withdraws the returned bucket from
    /// the pool for temporary use and ends the operation with
    /// `check_and_save`.
    pub fn borrow(
        &mut self,
        cdp_data: &mut WrappedCDPData,
        delegator_cdp_data: &mut Option<WrappedCDPData>,
        pool_res_address: ResourceAddress,
        amount: Decimal,
        now: i64,
        pool_available_amount: Decimal,
        pool_borrowed_amount: Decimal,
    ) -> (r: Result<Bucket, String>)
        ensures
            old(self).well_formed() ==> final(self).well_formed(),
            final(self).same_but_pools(*old(self)),
            final(self).pool_states@.len() == old(self).pool_states@.len(),
            match spec_borrow(
                *old(self),
                *old(cdp_data),
                *old(delegator_cdp_data),
                pool_res_address,
                amount,
                now,
                pool_available_amount@,
                pool_borrowed_amount@,
            ) {
                Ok((i, pool, bucket, delta, units)) => {
                    &&& r == Ok::<Bucket, String>(bucket)
                    &&& final(self).same_pools_but(*old(self), i)
                    &&& final(self).pool_states@[i] == pool
                    &&& loan_units_set(
                        *final(cdp_data),
                        *old(cdp_data),
                        pool_res_address,
                        units.0,
                        units.1,
                    )
                    &&& aggregate_set(
                        *final(delegator_cdp_data),
                        *old(delegator_cdp_data),
                        pool_res_address,
                        units.2,
                    )
                },
                Err(e) => err_text(r) == Some(e) && final(self).pool_states@ == old(self).pool_states@
                    && *final(cdp_data) == *old(cdp_data) && *final(delegator_cdp_data)
                        == *old(delegator_cdp_data),
            },
    {
        self.check_operating_status(OperatingService::Borrow)?;
        if cdp_data.is_delegatee() && delegator_cdp_data.is_none() {
            return Err(message("Delegator CDP data is missing"));
        }
        let i = self._get_pool_state(pool_res_address, Some(OperatingService::Borrow), now)?;
        let ghost before = self.pool_states@;
        let saved_loan = self.pool_states[i].total_loan;
        let saved_loan_unit = self.pool_states[i].total_loan_unit;
        let (borrowed_assets, delta_loan_units) = match self.pool_states[i].withdraw_for_borrow(
            amount,
            pool_available_amount,
            pool_borrowed_amount,
        ) {
            Ok(v) => v,
            Err(e) => {
                assert(self.pool_states@ =~= before);
                return Err(e);
            },
        };
        if let Err(e) = change_loan(cdp_data, delegator_cdp_data, pool_res_address, delta_loan_units) {
            self.pool_states[i].total_loan = saved_loan;
            self.pool_states[i].total_loan_unit = saved_loan_unit;
            assert(self.pool_states@ =~= before);
            return Err(e);
        }
        Ok(borrowed_assets)
    }
}

/// Whether `after` is `before` with the loan units of an asset set to
/// `own` and the position's aggregate of that asset set to `aggregate`,
/// written back at `now`.
pub open spec fn loan_units_saved(
    after: WrappedCDPData,
    before: WrappedCDPData,
    res: ResourceAddress,
    own: int,
    aggregate: int,
    now: i64,
) -> bool {
    &&& after.cdp_id == before.cdp_id
    &&& !after.cdp_data_updated
    &&& after.cdp_data.updated_at == now
    &&& after.cdp_data.name == before.cdp_data.name
    &&& after.cdp_data.description == before.cdp_data.description
    &&& after.cdp_data.key_image_url == before.cdp_data.key_image_url
    &&& after.cdp_data.cdp_type == before.cdp_data.cdp_type
    &&& after.cdp_data.delegatee_count == before.cdp_data.delegatee_count
    &&& after.cdp_data.minted_at == before.cdp_data.minted_at
    &&& after.cdp_data.collaterals == before.cdp_data.collaterals
    &&& after.cdp_data.entries(PositionKind::Loan) == entries_set(
        before.cdp_data.entries(PositionKind::Loan),
        res,
        own,
    )
    &&& after.cdp_data.entries(PositionKind::DelegateeLoan) == entries_set(
        before.cdp_data.entries(PositionKind::DelegateeLoan),
        res,
        aggregate,
    )
    &&& units_follow(
        after.cdp_data.entries(PositionKind::Loan),
        before.cdp_data.entries(PositionKind::Loan),
        res,
        own,
    )
    &&& units_follow(
        after.cdp_data.entries(PositionKind::DelegateeLoan),
        before.cdp_data.entries(PositionKind::DelegateeLoan),
        res,
        aggregate,
    )
    &&& before.cdp_data.valid() ==> after.cdp_data.valid()
}

/// Whether a delegator is what it was, but for its aggregate of an asset if
/// `units` names one, and written back at `now` if it has changed.
pub open spec fn aggregate_saved(
    after: Option<WrappedCDPData>,
    before: Option<WrappedCDPData>,
    res: ResourceAddress,
    units: Option<int>,
    now: i64,
) -> bool {
    match (before, units) {
        (Some(d), Some(u)) => after.is_some() && units_set_and_saved(
            after.unwrap(),
            d,
            PositionKind::DelegateeLoan,
            res,
            u,
            now,
        ),
        (Some(d), None) => after == Some(spec_saved_if_changed(d, now)),
        (None, _) => after.is_none(),
    }
}

/// A position as the health check sees it with the loan units of an asset
/// and its aggregate of that asset set.
pub open spec fn spec_with_loan(cdp: CdpView, res: ResourceAddress, own: int, aggregate: int) -> CdpView {
    CdpView {
        loans: entries_set(cdp.loans, res, own),
        delegatee_loans: entries_set(cdp.delegatee_loans, res, aggregate),
        ..cdp
    }
}

/// A delegator as the health check sees it with its aggregate of an asset
/// set, if `units` names one.
pub open spec fn spec_with_aggregate(
    delegator: Option<CdpView>,
    res: ResourceAddress,
    units: Option<int>,
) -> Option<CdpView> {
    match (delegator, units) {
        (Some(d), Some(u)) => Some(
            CdpView { delegatee_loans: entries_set(d.delegatee_loans, res, u), ..d },
        ),
        _ => delegator,
    }
}

/// The complaint of the check that ends a loan, if any: with the loan on
/// its books and the pool as the loan left it the position must be healthy,
/// and neither it nor its delegator may have too many positions.
pub open spec fn spec_loan_check(
    market: LendingMarket,
    cdp: WrappedCDPData,
    delegator: Option<WrappedCDPData>,
    res: ResourceAddress,
    i: int,
    pool: LendingPoolState,
    units: (int, int, Option<int>),
    now: i64,
) -> Option<Seq<char>> {
    let position = spec_with_loan(cdp@, res, units.0, units.1);
    let health = spec_cdp_health(
        position,
        spec_with_aggregate(delegator_view(delegator), res, units.2),
        market.pool_states@.update(i, pool),
        now,
    );
    if health.is_some() {
        health
    } else if position.collaterals.len() + position.loans.len() > market.market_config.max_cdp_position {
        Some(err_too_many_positions())
    } else if delegator.is_some() && delegator.unwrap().cdp_data.position_count()
        > market.market_config.max_cdp_position {
        Some(err_too_many_positions())
    } else {
        None
    }
}

/// What a loan does that is lent and checked in one: what `spec_borrow`
/// says, if the check that ends the loan has no complaint.
pub open spec fn spec_borrow_and_check(
    market: LendingMarket,
    cdp: WrappedCDPData,
    delegator: Option<WrappedCDPData>,
    res: ResourceAddress,
    amount: Decimal,
    now: i64,
    available: int,
    borrowed: int,
) -> Result<(int, LendingPoolState, Bucket, Decimal, (int, int, Option<int>)), Seq<char>> {
    match spec_borrow(market, cdp, delegator, res, amount, now, available, borrowed) {
        Err(e) => Err(e),
        Ok((i, pool, bucket, delta, units)) => match spec_loan_check(
            market,
            cdp,
            delegator,
            res,
            i,
            pool,
            units,
            now,
        ) {
            Some(e) => Err(e),
            None => Ok((i, pool, bucket, delta, units)),
        },
    }
}

impl LendingMarket {
    /// Lends `amount` of one asset to a position and ends the loan with the
    /// health check, in one: the loan is booked as `borrow` books it, the
    /// position must then be healthy, and it is saved with its delegator.
    /// Fails, changing nothing, if the loan is refused or the position
    /// would not be healthy. The caller withdraws the returned bucket from
    /// the pool for temporary use.
    pub fn borrow_and_check(
        &mut self,
        cdp_data: &mut WrappedCDPData,
        delegator_cdp_data: &mut Option<WrappedCDPData>,
        pool_res_address: ResourceAddress,
        amount: Decimal,
        now: i64,
        pool_available_amount: Decimal,
        pool_borrowed_amount: Decimal,
    ) -> (r: Result<Bucket, String>)
        requires
            old(self).well_formed(),
        ensures
            final(self).well_formed(),
            final(self).same_but_pools(*old(self)),
            final(self).pool_states@.len() == old(self).pool_states@.len(),
            match spec_borrow_and_check(
                *old(self),
                *old(cdp_data),
                *old(delegator_cdp_data),
                pool_res_address,
                amount,
                now,
                pool_available_amount@,
                pool_borrowed_amount@,
            ) {
                Ok((i, pool, bucket, delta, units)) => {
                    &&& r == Ok::<Bucket, String>(bucket)
                    &&& final(self).same_pools_but(*old(self), i)
                    &&& final(self).pool_states@[i] == pool
                    &&& loan_units_saved(
                        *final(cdp_data),
                        *old(cdp_data),
                        pool_res_address,
                        units.0,
                        units.1,
                        now,
                    )
                    &&& aggregate_saved(
                        *final(delegator_cdp_data),
                        *old(delegator_cdp_data),
                        pool_res_address,
                        units.2,
                        now,
                    )
                    &&& spec_cdp_health(
                        final(cdp_data)@,
                        delegator_view(*final(delegator_cdp_data)),
                        final(self).pool_states@,
                        now,
                    ).is_none()
                },
                Err(e) => err_text(r) == Some(e) && final(self).pool_states@ == old(self).pool_states@
                    && *final(cdp_data) == *old(cdp_data) && *final(delegator_cdp_data)
                        == *old(delegator_cdp_data),
            },
    {
        self.check_operating_status(OperatingService::Borrow)?;
        if cdp_data.is_delegatee() && delegator_cdp_data.is_none() {
            return Err(message("Delegator CDP data is missing"));
        }
        let i = self._get_pool_state(pool_res_address, Some(OperatingService::Borrow), now)?;
        let ghost before = self.pool_states@;
        let saved_loan = self.pool_states[i].total_loan;
        let saved_loan_unit = self.pool_states[i].total_loan_unit;
        let (borrowed_assets, delta_loan_units) = match self.pool_states[i].withdraw_for_borrow(
            amount,
            pool_available_amount,
            pool_borrowed_amount,
        ) {
            Ok(v) => v,
            Err(e) => {
                assert(self.pool_states@ =~= before);
                return Err(e);
            },
        };
        assert(self.pool_states@ =~= before.update(i as int, self.pool_states@[i as int]));
        let mut trial = cdp_data.scratch_copy();
        let mut trial_delegator = match delegator_cdp_data {
            Some(delegator) => Some(delegator.scratch_copy()),
            None => None,
        };
        let checked = match change_loan(
            &mut trial,
            &mut trial_delegator,
            pool_res_address,
            delta_loan_units,
        ) {
            Ok(()) => self.check_and_save(&mut trial, &mut trial_delegator, now),
            Err(e) => Err(e),
        };
        if let Err(e) = checked {
            self.pool_states[i].total_loan = saved_loan;
            self.pool_states[i].total_loan_unit = saved_loan_unit;
            assert(self.pool_states@ =~= before);
            return Err(e);
        }
        change_loan(cdp_data, delegator_cdp_data, pool_res_address, delta_loan_units)?;
        let _ = cdp_data.save_cdp(self.market_config.max_cdp_position, now)?;
        match delegator_cdp_data {
            Some(delegator) => {
                let _ = delegator.save_cdp(self.market_config.max_cdp_position, now)?;
            },
            None => {},
        }
        Ok(borrowed_assets)
    }
}

/// A loan raises by the same number of units the loan units of the
/// position, its own aggregate of the asset and, for a delegatee, its
/// delegator's aggregate. So each aggregate less the position's units is
/// what it was.
pub proof fn lemma_borrow_keeps_aggregate(
    market: LendingMarket,
    cdp: WrappedCDPData,
    delegator: Option<WrappedCDPData>,
    res: ResourceAddress,
    amount: Decimal,
    now: i64,
    available: int,
    borrowed: int,
)
    requires
        spec_borrow(market, cdp, delegator, res, amount, now, available, borrowed).is_ok(),
    ensures
        ({
            let (i, pool, bucket, delta, units) = spec_borrow(
                market,
                cdp,
                delegator,
                res,
                amount,
                now,
                available,
                borrowed,
            )->Ok_0;
            &&& units.0 == cdp.cdp_data.units(PositionKind::Loan, res) + delta@
            &&& units.1 == cdp.cdp_data.units(PositionKind::DelegateeLoan, res) + delta@
            &&& units.1 - units.0 == cdp.cdp_data.units(PositionKind::DelegateeLoan, res)
                - cdp.cdp_data.units(PositionKind::Loan, res)
            &&& cdp.spec_is_delegatee() == units.2.is_some()
            &&& cdp.spec_is_delegatee() ==> delegator.is_some() && units.2.unwrap()
                == delegator.unwrap().cdp_data.units(PositionKind::DelegateeLoan, res) + delta@
                && units.2.unwrap() - units.0 == delegator.unwrap().cdp_data.units(
                PositionKind::DelegateeLoan,
                res,
            ) - cdp.cdp_data.units(PositionKind::Loan, res)
        }),
{
}

/// A loan that `check_and_save` accepts leaves a healthy position:
/// whatever `borrow` booked, the position passes the health check with the
/// loan units on its books, under the pool as the loan left it.
pub proof fn lemma_checked_loan_is_healthy(
    market: LendingMarket,
    cdp: WrappedCDPData,
    delegator: Option<WrappedCDPData>,
    res: ResourceAddress,
    amount: Decimal,
    now: i64,
    available: int,
    borrowed: int,
    market_after: LendingMarket,
    cdp_after: WrappedCDPData,
    delegator_after: Option<WrappedCDPData>,
)
    requires
        spec_borrow(market, cdp, delegator, res, amount, now, available, borrowed).is_ok(),
        ({
            let (i, pool, bucket, delta, units) = spec_borrow(
                market,
                cdp,
                delegator,
                res,
                amount,
                now,
                available,
                borrowed,
            )->Ok_0;
            &&& market_after.same_but_pools(market)
            &&& market_after.same_pools_but(market, i)
            &&& market_after.pool_states@[i] == pool
            &&& loan_units_set(cdp_after, cdp, res, units.0, units.1)
            &&& aggregate_set(delegator_after, delegator, res, units.2)
        }),
        spec_check_and_save_error(market_after, cdp_after, delegator_after, now).is_none(),
    ensures
        ({
            let (i, pool, bucket, delta, units) = spec_borrow(
                market,
                cdp,
                delegator,
                res,
                amount,
                now,
                available,
                borrowed,
            )->Ok_0;
            &&& cdp_after@.loans == entries_set(
                cdp@.loans,
                res,
                cdp.cdp_data.units(PositionKind::Loan, res) + delta@,
            )
            &&& cdp_after@.collaterals == cdp@.collaterals
            &&& market_after.pool_states@[i].total_loan == pool.total_loan
            &&& spec_cdp_health(
                cdp_after@,
                delegator_view(delegator_after),
                market_after.pool_states@,
                now,
            ).is_none()
        }),
{
}

/// How far a repayment has come: the value still expected, in a liquidation
/// that names one, and the value repaid so far.
#[derive(Clone, Copy, Debug, PartialEq, Eq, Structural)]
pub struct RepayProgress {
    pub expected_payment_value: Option<Decimal>,
    pub total_payment_value: Decimal,
}

/// How far a seizure of collateral has come: the payment value still to be
/// covered, and the payment value covered so far.
#[derive(Clone, Copy, Debug, PartialEq, Eq, Structural)]
pub struct SeizeProgress {
    pub requested_value: Decimal,
    pub returned_value: Decimal,
}

pub open spec fn err_progress_overflow() -> Seq<char> {
    "Payment value overflow"@
}

pub open spec fn err_expected_negative() -> Seq<char> {
    "expected_payment_value should not be negative"@
}

pub open spec fn err_insufficient_payment() -> Seq<char> {
    "Insufficient payment value"@
}

pub open spec fn err_insufficient_collateral() -> Seq<char> {
    "Insufficient collateral value"@
}

pub open spec fn err_total_payment_negative() -> Seq<char> {
    "INVALID_INPUT: Total payment value must be non-negative"@
}

pub open spec fn err_term_mismatch() -> Seq<char> {
    "Total payment value does not match with the liquidation term"@
}

pub open spec fn err_term_cdp() -> Seq<char> {
    "Liquidation term is for another CDP"@
}

pub open spec fn err_invalid_delegatee() -> Seq<char> {
    "Invalid delegatee CDP"@
}

/// The progress of a repayment after `value` more is repaid.
pub open spec fn spec_repay_progress(progress: RepayProgress, value: int) -> Result<RepayProgress,
    Seq<char>> {
    match spec_add(progress.total_payment_value@, value) {
        None => Err(err_progress_overflow()),
        Some(total) => match progress.expected_payment_value {
            None => Ok(
                RepayProgress { expected_payment_value: None, total_payment_value: dec_of(total) },
            ),
            Some(expected) => match spec_sub(expected@, value) {
                None => Err(err_progress_overflow()),
                Some(rest) => if rest < 0 {
                    Err(err_expected_negative())
                } else {
                    Ok(
                        RepayProgress {
                            expected_payment_value: Some(dec_of(rest)),
                            total_payment_value: dec_of(total),
                        },
                    )
                },
            },
        },
    }
}

/// The progress of a seizure after collateral for `payment` more has been
/// seized.
pub open spec fn spec_seize_progress(progress: SeizeProgress, payment: int)
    -> Result<SeizeProgress, Seq<char>> {
    match (spec_sub(progress.requested_value@, payment), spec_add(progress.returned_value@, payment)) {
        (Some(rest), Some(returned)) => Ok(
            SeizeProgress { requested_value: dec_of(rest), returned_value: dec_of(returned) },
        ),
        _ => Err(err_progress_overflow()),
    }
}

/// The progress of a repayment after `value` more is repaid.
pub fn repay_progress(progress: RepayProgress, value: Decimal) -> (r: Result<RepayProgress, String>)
    ensures
        match spec_repay_progress(progress, value@) {
            Ok(p) => r == Ok::<RepayProgress, String>(p),
            Err(e) => err_text(r) == Some(e),
        },
{
    let total = match progress.total_payment_value.checked_add(value) {
        Some(v) => v,
        None => {
            return Err(message("Payment value overflow"));
        },
    };
    proof {
        lemma_dec_of(total);
    }
    match progress.expected_payment_value {
        None => Ok(RepayProgress { expected_payment_value: None, total_payment_value: total }),
        Some(expected) => {
            let rest = match expected.checked_sub(value) {
                Some(v) => v,
                None => {
                    return Err(message("Payment value overflow"));
                },
            };
            if rest.is_negative() {
                return Err(message("expected_payment_value should not be negative"));
            }
            proof {
                lemma_dec_of(rest);
            }
            Ok(RepayProgress { expected_payment_value: Some(rest), total_payment_value: total })
        },
    }
}

/// The progress of a seizure after collateral for `payment` more has been
/// seized.
pub fn seize_progress(progress: SeizeProgress, payment: Decimal) -> (r: Result<SeizeProgress, String>)
    ensures
        match spec_seize_progress(progress, payment@) {
            Ok(p) => r == Ok::<SeizeProgress, String>(p),
            Err(e) => err_text(r) == Some(e),
        },
{
    let rest = progress.requested_value.checked_sub(payment);
    let returned = progress.returned_value.checked_add(payment);
    match (rest, returned) {
        (Some(rest), Some(returned)) => {
            proof {
                lemma_dec_of(rest);
                lemma_dec_of(returned);
            }
            Ok(SeizeProgress { requested_value: rest, returned_value: returned })
        },
        _ => Err(message("Payment value overflow")),
    }
}

/// The complaint of the checks before a repayment, if any, else the
/// position of the pool. The pool must have the service switched on that
/// the payment is made under: repayments, refinancing or liquidations.
pub open spec fn spec_repay_access(
    market: LendingMarket,
    cdp: WrappedCDPData,
    delegator: Option<WrappedCDPData>,
    res: ResourceAddress,
    service: OperatingService,
    now: i64,
) -> Result<int, Seq<char>> {
    if cdp.spec_is_delegatee() && delegator.is_none() {
        Err(err_delegator_missing())
    } else {
        spec_pool_access(market.pool_states@, res, Some(service), now)
    }
}

/// The negation of an amount of units, if it fits.
pub open spec fn spec_negated(units: int) -> Result<int, Seq<char>> {
    match spec_sub(0, units) {
        None => Err(crate::cdp_data::err_units_overflow()),
        Some(v) => Ok(v),
    }
}

/// What a payment does to a loan of a position, if it is accepted: `(pool
/// index, pool after, rest of the payment, what goes back into the pool,
/// the units booked, the progress after)`, the units as `spec_loan_change`
/// gives them.
pub open spec fn spec_repay_step(
    market: LendingMarket,
    cdp: WrappedCDPData,
    delegator: Option<WrappedCDPData>,
    payment: Bucket,
    pool_borrowed: int,
    progress: RepayProgress,
    service: OperatingService,
    now: i64,
) -> Result<(int, LendingPoolState, Bucket, Bucket, (int, int, Option<int>), RepayProgress), Seq<char>> {
    let res = payment.resource_address;
    match spec_repay_access(market, cdp, delegator, res, service, now) {
        Err(e) => Err(e),
        Ok(i) => match market.pool_states@[i].spec_repay(
            cdp.cdp_data.units(PositionKind::Loan, res),
            payment,
            pool_borrowed,
            opt_view(progress.expected_payment_value),
        ) {
            Err(e) => Err(e),
            Ok((pool, remainder, repaid, units, value)) => match spec_negated(units@) {
                Err(e) => Err(e),
                Ok(delta) => match (
                    spec_repay_progress(progress, value@),
                    spec_loan_change(cdp, delegator, res, delta),
                ) {
                    (Err(e), _) => Err(e),
                    (Ok(_), Err(e)) => Err(e),
                    (Ok(next), Ok(booked)) => Ok((i, pool, remainder, repaid, booked, next)),
                },
            },
        },
    }
}

/// What a liquidator seizes of one collateral asset, if anything is still
/// requested: `(pool index, pool after, pool units to redeem, the holder's
/// collateral units after, the progress after)`.
pub open spec fn spec_seize_step(
    market: LendingMarket,
    holder: WrappedCDPData,
    res: ResourceAddress,
    unit_ratio: int,
    progress: SeizeProgress,
    now: i64,
) -> Result<(int, LendingPoolState, Bucket, int, SeizeProgress), Seq<char>> {
    match spec_pool_access(market.pool_states@, res, Some(OperatingService::Liquidation), now) {
        Err(e) => Err(e),
        Ok(i) => {
            let pool = market.pool_states@[i];
            match spec_seizable(
                pool.pool_config.liquidation_bonus_rate@,
                pool.last_price@,
                holder.cdp_data.units(PositionKind::Collateral, res),
                unit_ratio,
                progress.requested_value@,
            ) {
                None => Err(err_seize_overflow()),
                Some((units, payment)) => match (
                    spec_seize_progress(progress, payment),
                    spec_collateral_removed(pool.collaterals, units),
                    spec_negated(units),
                ) {
                    (Err(e), _, _) => Err(e),
                    (Ok(_), Err(e), _) => Err(e),
                    (Ok(_), Ok(_), Err(e)) => Err(e),
                    (Ok(next), Ok(vault), Ok(delta)) => match spec_changed_units(
                        holder.cdp_data.units(PositionKind::Collateral, res),
                        delta,
                    ) {
                        Err(e) => Err(e),
                        Ok(held) => Ok(
                            (
                                i,
                                LendingPoolState { collaterals: vault, ..pool },
                                Bucket {
                                    resource_address: pool.collaterals.resource_address,
                                    amount: dec_of(units),
                                },
                                held,
                                next,
                            ),
                        ),
                    },
                },
            }
        },
    }
}

/// The complaint about the first of the assets, from index `i` on, that has
/// no pool or whose pool has the service switched off.
pub open spec fn spec_pools_refuse(
    pools: Seq<LendingPoolState>,
    assets: Seq<ResourceAddress>,
    service: OperatingService,
    i: int,
) -> Option<Seq<char>>
    decreases assets.len() - i,
{
    if i < 0 || i >= assets.len() {
        None
    } else {
        let p = pool_index(pools, assets[i], 0);
        if p >= pools.len() {
            Some(err_pool_missing())
        } else if !pools[p].operating_status.spec_is_enabled(service) {
            Some(err_service_disabled())
        } else {
            spec_pools_refuse(pools, assets, service, i + 1)
        }
    }
}

/// The complaint of `refinance`, if any: refinancing must be switched on
/// for the market and for the pool of every payment, and the position's
/// total loan-to-value ratio must be the largest amount.
pub open spec fn spec_refinance(
    market: LendingMarket,
    cdp: WrappedCDPData,
    delegator: Option<WrappedCDPData>,
    payment_assets: Seq<ResourceAddress>,
    now: i64,
) -> Option<Seq<char>> {
    if !market.operating_status.spec_is_enabled(OperatingService::Refinance) {
        Some(err_service_disabled())
    } else if spec_pools_refuse(market.pool_states@, payment_assets, OperatingService::Refinance, 0).is_some() {
        spec_pools_refuse(market.pool_states@, payment_assets, OperatingService::Refinance, 0)
    } else if cdp.spec_is_delegatee() && delegator.is_none() {
        Some(err_delegator_missing())
    } else {
        match spec_liquidation_figures(cdp@, delegator_view(delegator), market.pool_states@, now) {
            Err(e) => Some(e),
            Ok((total_ltv, _)) => if total_ltv@ != dec_max() {
                Some(err_cannot_refinance())
            } else {
                None
            },
        }
    }
}

/// The payment value that a liquidation may ask collateral for: what is
/// asked, but no more than the closable loan value. Fails unless
/// liquidations are switched on, the asked value is not negative, and the
/// position's total loan-to-value ratio is at least one.
pub open spec fn spec_start_liquidation(
    market: LendingMarket,
    cdp: WrappedCDPData,
    delegator: Option<WrappedCDPData>,
    total_payment_value: Option<Decimal>,
    now: i64,
) -> Result<SeizeProgress, Seq<char>> {
    if !market.operating_status.spec_is_enabled(OperatingService::Liquidation) {
        Err(err_service_disabled())
    } else if total_payment_value.is_some() && total_payment_value.unwrap()@ < 0 {
        Err(err_total_payment_negative())
    } else if cdp.spec_is_delegatee() && delegator.is_none() {
        Err(err_delegator_missing())
    } else {
        match spec_liquidation_figures(cdp@, delegator_view(delegator), market.pool_states@, now) {
            Err(e) => Err(e),
            Ok((total_ltv, closable)) => if total_ltv@ < one_attos() {
                Err(err_cannot_liquidate())
            } else {
                Ok(
                    SeizeProgress {
                        requested_value: match total_payment_value {
                            Some(v) => if closable@ < v@ {
                                closable
                            } else {
                                v
                            },
                            None => closable,
                        },
                        returned_value: dec_of(0),
                    },
                )
            },
        }
    }
}

impl LendingMarket {
    /// Applies one payment to the loan of its asset, under the service that
    /// the payment is made for: as much of it as the position owes, the
    /// pool has lent and is still expected goes back into the pool; the
    /// loan units leave the position, its own aggregate and, for a
    /// delegatee, its delegator's aggregate. The pool must have that
    /// service switched on. The close factor is not applied here: it limits
    /// the closable loan value that a liquidation starts from. Fails,
    /// changing nothing, if a check fails or an amount cannot be computed.
    /// The caller deposits what goes back into the pool on the ledger as a
    /// loan coming back, returns the rest to the payer, and ends the
    /// operation with `finish_repay`.
    pub fn _repay_internal(
        &mut self,
        cdp_data: &mut WrappedCDPData,
        delegator_cdp_data: &mut Option<WrappedCDPData>,
        payment: Bucket,
        pool_borrowed_amount: Decimal,
        progress: &mut RepayProgress,
        service: OperatingService,
        now: i64,
    ) -> (r: Result<(Bucket, Bucket), String>)
        ensures
            old(self).well_formed() ==> final(self).well_formed(),
            final(self).same_but_pools(*old(self)),
            final(self).pool_states@.len() == old(self).pool_states@.len(),
            match spec_repay_step(
                *old(self),
                *old(cdp_data),
                *old(delegator_cdp_data),
                payment,
                pool_borrowed_amount@,
                *old(progress),
                service,
                now,
            ) {
                Ok((i, pool, remainder, repaid, booked, next)) => {
                    &&& r == Ok::<(Bucket, Bucket), String>((remainder, repaid))
                    &&& final(self).same_pools_but(*old(self), i)
                    &&& final(self).pool_states@[i] == pool
                    &&& loan_units_set(
                        *final(cdp_data),
                        *old(cdp_data),
                        payment.resource_address,
                        booked.0,
                        booked.1,
                    )
                    &&& aggregate_set(
                        *final(delegator_cdp_data),
                        *old(delegator_cdp_data),
                        payment.resource_address,
                        booked.2,
                    )
                    &&& *final(progress) == next
                },
                Err(e) => err_text(r) == Some(e) && final(self).pool_states@ == old(self).pool_states@
                    && *final(cdp_data) == *old(cdp_data) && *final(delegator_cdp_data)
                        == *old(delegator_cdp_data) && *final(progress) == *old(progress),
            },
    {
        let pool_res_address = payment.resource_address;
        if cdp_data.is_delegatee() && delegator_cdp_data.is_none() {
            return Err(message("Delegator CDP data is missing"));
        }
        let i = self._get_pool_state(pool_res_address, Some(service), now)?;
        let ghost before = self.pool_states@;
        let saved_loan = self.pool_states[i].total_loan;
        let saved_loan_unit = self.pool_states[i].total_loan_unit;
        let position_loan_units = cdp_data.get_loan_unit(pool_res_address);
        let (remainder, repaid, delta_loan_unit, value) = match self.pool_states[i].repay(
            position_loan_units,
            payment,
            pool_borrowed_amount,
            progress.expected_payment_value,
        ) {
            Ok(v) => v,
            Err(e) => {
                assert(self.pool_states@ =~= before);
                return Err(e);
            },
        };
        let delta = match delta_loan_unit.checked_neg() {
            Some(d) => Ok(d),
            None => Err(message("Position units overflow")),
        };
        let next = match delta {
            Ok(d) => match repay_progress(*progress, value) {
                Ok(next) => match change_loan(cdp_data, delegator_cdp_data, pool_res_address, d) {
                    Ok(()) => Ok(next),
                    Err(e) => Err(e),
                },
                Err(e) => Err(e),
            },
            Err(e) => Err(e),
        };
        match next {
            Ok(next) => {
                *progress = next;
                Ok((remainder, repaid))
            },
            Err(e) => {
                self.pool_states[i].total_loan = saved_loan;
                self.pool_states[i].total_loan_unit = saved_loan_unit;
                assert(self.pool_states@ =~= before);
                Err(e)
            },
        }
    }

    /// Ends a repayment: in a liquidation that names a value, all of it must
    /// have been repaid; the position and, for a delegatee, its delegator
    /// must not have more positions than the market allows. Then both are
    /// saved and the value repaid is returned. On failure nothing changes.
    pub fn finish_repay(
        &self,
        cdp_data: &mut WrappedCDPData,
        delegator_cdp_data: &mut Option<WrappedCDPData>,
        progress: &RepayProgress,
        now: i64,
    ) -> (r: Result<Decimal, String>)
        ensures
            err_text(r) == (if progress.expected_payment_value.is_some()
                && progress.expected_payment_value.unwrap()@ != 0 {
                Some(err_insufficient_payment())
            } else if old(cdp_data).cdp_data.position_count() > self.market_config.max_cdp_position {
                Some(err_too_many_positions())
            } else if old(delegator_cdp_data).is_some()
                && old(delegator_cdp_data).unwrap().cdp_data.position_count()
                > self.market_config.max_cdp_position {
                Some(err_too_many_positions())
            } else {
                None
            }),
            r.is_err() ==> *final(cdp_data) == *old(cdp_data) && *final(delegator_cdp_data)
                == *old(delegator_cdp_data),
            r.is_ok() ==> r.unwrap() == progress.total_payment_value && *final(cdp_data)
                == spec_saved_if_changed(*old(cdp_data), now) && (match *old(delegator_cdp_data) {
                Some(d) => *final(delegator_cdp_data) == Some(spec_saved_if_changed(d, now)),
                None => final(delegator_cdp_data).is_none(),
            }),
    {
        if let Some(expected) = progress.expected_payment_value {
            if !expected.is_zero() {
                return Err(message("Insufficient payment value"));
            }
        }
        if !cdp_data.within_position_cap(self.market_config.max_cdp_position) {
            return Err(message("Max CDP position exceeded"));
        }
        match delegator_cdp_data {
            Some(delegator) => {
                if !delegator.within_position_cap(self.market_config.max_cdp_position) {
                    return Err(message("Max CDP position exceeded"));
                }
                let _ = cdp_data.save_cdp(self.market_config.max_cdp_position, now)?;
                let _ = delegator.save_cdp(self.market_config.max_cdp_position, now)?;
            },
            None => {
                let _ = cdp_data.save_cdp(self.market_config.max_cdp_position, now)?;
            },
        }
        Ok(progress.total_payment_value)
    }

    /// Decides whether the holder of a position may repay the loans of a
    /// position: repayments must be switched on, and the position is either
    /// its own or a delegatee of it. Returns the progress to start from.
    pub fn repay(&self, cdp_id: u64, target_cdp_data: &WrappedCDPData) -> (r: Result<RepayProgress, String>)
        ensures
            !self.operating_status.spec_is_enabled(OperatingService::Repay) ==> err_text(r) == Some(
                err_service_disabled(),
            ),
            self.operating_status.spec_is_enabled(OperatingService::Repay) ==> (if target_cdp_data.cdp_id
                == cdp_id {
                r == Ok::<RepayProgress, String>(
                    RepayProgress { expected_payment_value: None, total_payment_value: dec_of(0) },
                )
            } else {
                match target_cdp_data.cdp_data.cdp_type {
                    CDPType::Standard => err_text(r) == Some(err_invalid_delegatee()),
                    CDPType::Delegatee(info) => if info.cdp_id == cdp_id {
                        r == Ok::<RepayProgress, String>(
                            RepayProgress {
                                expected_payment_value: None,
                                total_payment_value: dec_of(0),
                            },
                        )
                    } else {
                        err_text(r) == Some(err_not_linked())
                    },
                }
            }),
    {
        self.check_operating_status(OperatingService::Repay)?;
        if target_cdp_data.cdp_id != cdp_id {
            match target_cdp_data.get_type() {
                CDPType::Delegatee(delegator_info) => {
                    if delegator_info.cdp_id != cdp_id {
                        return Err(message("Delegatee CDP not linked to provided delegator CDP"));
                    }
                },
                CDPType::Standard => {
                    return Err(message("Invalid delegatee CDP"));
                },
            }
        }
        let zero = Decimal::zero();
        proof {
            lemma_dec_of(zero);
        }
        Ok(RepayProgress { expected_payment_value: None, total_payment_value: zero })
    }

    /// Fails unless each of the assets has a pool with the service switched
    /// on.
    pub fn check_pools(&self, assets: &Vec<ResourceAddress>, service: OperatingService) -> (r: Result<
        (),
        String,
    >)
        ensures
            err_text(r) == spec_pools_refuse(self.pool_states@, assets@, service, 0),
    {
        let n = assets.len();
        let mut i: usize = 0;
        while i < n
            invariant
                n == assets@.len(),
                0 <= i <= n,
                spec_pools_refuse(self.pool_states@, assets@, service, 0) == spec_pools_refuse(
                    self.pool_states@,
                    assets@,
                    service,
                    i as int,
                ),
            decreases n - i,
        {
            let p = find_pool(&self.pool_states, assets[i]);
            if p >= self.pool_states.len() {
                return Err(message("Pool state not found for provided resource"));
            }
            self.pool_states[p].check_operating_status(service)?;
            i = i + 1;
        }
        Ok(())
    }

    /// Decides whether anyone may repay the loans of a position that has
    /// loans and no collateral value left, with payments in the given
    /// assets: refinancing must be switched on for the market and for the
    /// pool of every payment, and the position's total loan-to-value ratio
    /// must be the largest amount. Returns the progress to start from.
    pub fn refinance(
        &self,
        cdp_data: &WrappedCDPData,
        delegator_cdp_data: &Option<WrappedCDPData>,
        payment_assets: &Vec<ResourceAddress>,
        now: i64,
    ) -> (r: Result<RepayProgress, String>)
        requires
            self.well_formed(),
        ensures
            match spec_refinance(*self, *cdp_data, *delegator_cdp_data, payment_assets@, now) {
                Some(e) => err_text(r) == Some(e),
                None => r == Ok::<RepayProgress, String>(
                    RepayProgress { expected_payment_value: None, total_payment_value: dec_of(0) },
                ),
            },
    {
        self.check_operating_status(OperatingService::Refinance)?;
        self.check_pools(payment_assets, OperatingService::Refinance)?;
        if cdp_data.is_delegatee() && delegator_cdp_data.is_none() {
            return Err(message("Delegator CDP data is missing"));
        }
        let (total_ltv, _) = match delegator_cdp_data {
            Some(d) => liquidation_figures(cdp_data, Some(d), &self.pool_states, now)?,
            None => liquidation_figures(cdp_data, None, &self.pool_states, now)?,
        };
        if !total_ltv.same(Decimal::max_value()) {
            return Err(message("This CDP can not be refinanced: LTV ratio greater than 1"));
        }
        let zero = Decimal::zero();
        proof {
            lemma_dec_of(zero);
        }
        Ok(RepayProgress { expected_payment_value: None, total_payment_value: zero })
    }

    /// Starts a liquidation: the position must be liquidatable, and the
    /// payment value to seize collateral for is what is asked, but no more
    /// than the closable loan value. The health of the position is not
    /// checked again before the liquidation ends.
    pub fn start_liquidation(
        &self,
        cdp_data: &WrappedCDPData,
        delegator_cdp_data: &Option<WrappedCDPData>,
        total_payment_value: Option<Decimal>,
        now: i64,
    ) -> (r: Result<SeizeProgress, String>)
        requires
            self.well_formed(),
        ensures
            match spec_start_liquidation(*self, *cdp_data, *delegator_cdp_data, total_payment_value, now) {
                Ok(progress) => r == Ok::<SeizeProgress, String>(progress),
                Err(e) => err_text(r) == Some(e),
            },
    {
        self.check_operating_status(OperatingService::Liquidation)?;
        if let Some(total_payment_value) = total_payment_value {
            if total_payment_value.is_negative() {
                return Err(message("INVALID_INPUT: Total payment value must be non-negative"));
            }
        }
        if cdp_data.is_delegatee() && delegator_cdp_data.is_none() {
            return Err(message("Delegator CDP data is missing"));
        }
        let (total_ltv, closable) = match delegator_cdp_data {
            Some(d) => liquidation_figures(cdp_data, Some(d), &self.pool_states, now)?,
            None => liquidation_figures(cdp_data, None, &self.pool_states, now)?,
        };
        if total_ltv.lt(Decimal::one()) {
            return Err(message("This CDP can not be liquidated: LTV ratio lower than 1"));
        }
        let temp_total_payment_value = match total_payment_value {
            Some(v) => if closable.lt(v) {
                closable
            } else {
                v
            },
            None => closable,
        };
        let zero = Decimal::zero();
        proof {
            lemma_dec_of(zero);
        }
        Ok(SeizeProgress { requested_value: temp_total_payment_value, returned_value: zero })
    }

    /// Decides whether a position may be liquidated in one step: the
    /// position must be liquidatable. The caller then repays with
    /// `_repay_internal` and seizes collateral for the value repaid.
    pub fn fast_liquidation(
        &self,
        cdp_data: &WrappedCDPData,
        delegator_cdp_data: &Option<WrappedCDPData>,
        now: i64,
    ) -> (r: Result<RepayProgress, String>)
        requires
            self.well_formed(),
        ensures
            match spec_start_liquidation(*self, *cdp_data, *delegator_cdp_data, None, now) {
                Ok(_) => r == Ok::<RepayProgress, String>(
                    RepayProgress { expected_payment_value: None, total_payment_value: dec_of(0) },
                ),
                Err(e) => err_text(r) == Some(e),
            },
    {
        let _ = self.start_liquidation(cdp_data, delegator_cdp_data, None, now)?;
        let zero = Decimal::zero();
        proof {
            lemma_dec_of(zero);
        }
        Ok(RepayProgress { expected_payment_value: None, total_payment_value: zero })
    }

    /// Seizes collateral of one asset from the holder of the collateral, the
    /// position itself or its delegator, for what is still requested, given
    /// the pool unit ratio of the pool on the ledger. Returns the pool units
    /// that leave the collateral vault, or nothing when nothing is requested
    /// any more. Fails, changing nothing, if a check fails, an amount cannot
    /// be computed, or the holder has none of the asset. The caller redeems
    /// the pool units and hands the assets to `collect_liquidation_fee`.
    pub fn _remove_collateral(
        &mut self,
        cdp_data: &mut WrappedCDPData,
        pool_res_address: ResourceAddress,
        pool_unit_ratio: PreciseDecimal,
        progress: &mut SeizeProgress,
        now: i64,
    ) -> (r: Result<Option<Bucket>, String>)
        ensures
            old(self).well_formed() ==> final(self).well_formed(),
            final(self).same_but_pools(*old(self)),
            final(self).pool_states@.len() == old(self).pool_states@.len(),
            old(progress).requested_value@ == 0 ==> r == Ok::<Option<Bucket>, String>(None)
                && final(self).pool_states@ == old(self).pool_states@ && *final(cdp_data)
                == *old(cdp_data) && *final(progress) == *old(progress),
            old(progress).requested_value@ != 0 ==> match spec_seize_step(
                *old(self),
                *old(cdp_data),
                pool_res_address,
                pool_unit_ratio@,
                *old(progress),
                now,
            ) {
                Ok((i, pool, units, held, next)) => {
                    &&& r == Ok::<Option<Bucket>, String>(Some(units))
                    &&& final(self).same_pools_but(*old(self), i)
                    &&& final(self).pool_states@[i] == pool
                    &&& units_set(
                        *final(cdp_data),
                        *old(cdp_data),
                        PositionKind::Collateral,
                        pool_res_address,
                        held,
                    )
                    &&& *final(progress) == next
                },
                Err(e) => err_text(r) == Some(e) && final(self).pool_states@ == old(self).pool_states@
                    && *final(cdp_data) == *old(cdp_data) && *final(progress) == *old(progress),
            },
    {
        if progress.requested_value.is_zero() {
            return Ok(None);
        }
        let i = self._get_pool_state(pool_res_address, Some(OperatingService::Liquidation), now)?;
        let max_collateral_units = cdp_data.get_collateral_units(pool_res_address);
        let (collateral_units, payment) = self.pool_states[i].seizable(
            max_collateral_units,
            pool_unit_ratio,
            progress.requested_value,
        )?;
        let next = seize_progress(*progress, payment)?;
        let mut vault = self.pool_states[i].collaterals;
        if collateral_units.le(Decimal::zero()) {
            return Err(message("Pool unit amount must be positive"));
        }
        if collateral_units.gt(vault.amount) {
            return Err(message("Not enough pool units to remove from collateral"));
        }
        let pool_unit = vault.take(collateral_units)?;
        proof {
            lemma_dec_of(vault.amount);
            lemma_dec_of(collateral_units);
        }
        let delta = match collateral_units.checked_neg() {
            Some(v) => v,
            None => {
                return Err(message("Position units overflow"));
            },
        };
        cdp_data.update_collateral(pool_res_address, delta)?;
        self.pool_states[i].collaterals = vault;
        *progress = next;
        Ok(Some(pool_unit))
    }

    /// Ends a seizure of collateral: where all that was requested must be
    /// covered, nothing may be left; the holder must not have more positions
    /// than the market allows. Then the holder is saved and the payment
    /// value covered is returned. On failure nothing changes.
    pub fn finish_remove_collateral(
        &self,
        cdp_data: &mut WrappedCDPData,
        progress: &SeizeProgress,
        check_requested_collaterals: bool,
        now: i64,
    ) -> (r: Result<Decimal, String>)
        ensures
            err_text(r) == (if check_requested_collaterals && progress.requested_value@ != 0 {
                Some(err_insufficient_collateral())
            } else if old(cdp_data).cdp_data.position_count() > self.market_config.max_cdp_position {
                Some(err_too_many_positions())
            } else {
                None
            }),
            r.is_err() ==> *final(cdp_data) == *old(cdp_data),
            r.is_ok() ==> r.unwrap() == progress.returned_value && *final(cdp_data)
                == spec_saved_if_changed(*old(cdp_data), now),
    {
        if check_requested_collaterals && !progress.requested_value.is_zero() {
            return Err(message("Insufficient collateral value"));
        }
        if !cdp_data.within_position_cap(self.market_config.max_cdp_position) {
            return Err(message("Max CDP position exceeded"));
        }
        let _ = cdp_data.save_cdp(self.market_config.max_cdp_position, now)?;
        Ok(progress.returned_value)
    }

    /// Puts the protocol's share of seized collateral of one asset into the
    /// reserve of its pool and returns the rest for the liquidator.
    pub fn collect_liquidation_fee(&mut self, collaterals: Bucket) -> (r: Result<Bucket, String>)
        ensures
            old(self).well_formed() ==> final(self).well_formed(),
            final(self).same_but_pools(*old(self)),
            final(self).pool_states@.len() == old(self).pool_states@.len(),
            ({
                let i = pool_index(old(self).pool_states@, collaterals.resource_address, 0);
                if i >= old(self).pool_states@.len() {
                    err_text(r) == Some(err_pool_missing()) && final(self).pool_states@
                        == old(self).pool_states@
                } else {
                    &&& final(self).same_pools_but(*old(self), i)
                    &&& match old(self).pool_states@[i].spec_liquidation_fee(collaterals) {
                        Ok((pool, rest)) => r == Ok::<Bucket, String>(rest) && final(self).pool_states@[i]
                            == pool,
                        Err(e) => err_text(r) == Some(e) && final(self).pool_states@[i]
                            == old(self).pool_states@[i],
                    }
                }
            }),
    {
        let i = find_pool(&self.pool_states, collaterals.resource_address);
        if i >= self.pool_states.len() {
            return Err(message("Pool state not found for provided resource"));
        }
        self.pool_states[i].collect_liquidation_fee(collaterals)
    }

    /// The record of what a liquidator owes for the collateral it seized.
    pub fn liquidation_term(cdp_id: u64, payement_value: Decimal) -> (r: LiquidationTerm)
        ensures
            r == (LiquidationTerm { cdp_id, payement_value }),
    {
        LiquidationTerm { cdp_id, payement_value }
    }

    /// Ends a liquidation: the repayment must be for the position that the
    /// record names and equal the value that it names. The caller then
    /// burns the record and emits the returned event.
    pub fn end_liquidation(
        &self,
        cdp_id: u64,
        delegator_cdp_id: Option<u64>,
        total_payment_value: Decimal,
        liquidation_term: &LiquidationTerm,
    ) -> (r: Result<CDPLiquidatedEvent, String>)
        ensures
            liquidation_term.cdp_id != cdp_id ==> err_text(r) == Some(err_term_cdp()),
            liquidation_term.cdp_id == cdp_id && total_payment_value@
                != liquidation_term.payement_value@ ==> err_text(r) == Some(err_term_mismatch()),
            liquidation_term.cdp_id == cdp_id && total_payment_value@
                == liquidation_term.payement_value@ ==> r == Ok::<CDPLiquidatedEvent, String>(
                CDPLiquidatedEvent { cdp_id, delegator_cdp_id },
            ),
    {
        if liquidation_term.cdp_id != cdp_id {
            return Err(message("Liquidation term is for another CDP"));
        }
        if !total_payment_value.same(liquidation_term.payement_value) {
            return Err(message("Total payment value does not match with the liquidation term"));
        }
        Ok(CDPLiquidatedEvent { cdp_id, delegator_cdp_id })
    }
}

/// A repayment lowers by the same number of units the loan units of the
/// position, its own aggregate of the asset and, for a delegatee, its
/// delegator's aggregate. So each aggregate less the position's units is
/// what it was.
pub proof fn lemma_repay_keeps_aggregate(
    market: LendingMarket,
    cdp: WrappedCDPData,
    delegator: Option<WrappedCDPData>,
    payment: Bucket,
    pool_borrowed: int,
    progress: RepayProgress,
    service: OperatingService,
    now: i64,
)
    requires
        spec_repay_step(market, cdp, delegator, payment, pool_borrowed, progress, service, now).is_ok(),
    ensures
        ({
            let (i, pool, remainder, repaid, booked, next) = spec_repay_step(
                market,
                cdp,
                delegator,
                payment,
                pool_borrowed,
                progress,
                service,
                now,
            )->Ok_0;
            let res = payment.resource_address;
            &&& booked.1 - booked.0 == cdp.cdp_data.units(PositionKind::DelegateeLoan, res)
                - cdp.cdp_data.units(PositionKind::Loan, res)
            &&& cdp.spec_is_delegatee() == booked.2.is_some()
            &&& cdp.spec_is_delegatee() ==> delegator.is_some() && booked.2.unwrap() - booked.0
                == delegator.unwrap().cdp_data.units(PositionKind::DelegateeLoan, res)
                - cdp.cdp_data.units(PositionKind::Loan, res)
        }),
{
}

/// A seizure takes from the holder's collateral exactly the pool units that
/// leave the pool's collateral vault, and the payment value that it covers
/// moves from what is requested to what is returned.
pub proof fn lemma_seizure_conserves(
    market: LendingMarket,
    holder: WrappedCDPData,
    res: ResourceAddress,
    unit_ratio: int,
    progress: SeizeProgress,
    now: i64,
)
    requires
        spec_seize_step(market, holder, res, unit_ratio, progress, now).is_ok(),
    ensures
        ({
            let (i, pool, units, held, next) = spec_seize_step(
                market,
                holder,
                res,
                unit_ratio,
                progress,
                now,
            )->Ok_0;
            let before = market.pool_states@[i];
            &&& 0 <= i < market.pool_states@.len()
            &&& units.amount@ > 0
            &&& held == holder.cdp_data.units(PositionKind::Collateral, res) - units.amount@
            &&& pool.collaterals.amount@ == before.collaterals.amount@ - units.amount@
            &&& next.requested_value@ + next.returned_value@ == progress.requested_value@
                + progress.returned_value@
        }),
{
    lemma_pool_index_bounds(market.pool_states@, res, 0);
    let i = pool_index(market.pool_states@, res, 0);
    let before = market.pool_states@[i];
    let (units, payment) = spec_seizable(
        before.pool_config.liquidation_bonus_rate@,
        before.last_price@,
        holder.cdp_data.units(PositionKind::Collateral, res),
        unit_ratio,
        progress.requested_value@,
    ).unwrap();
    crate::decimal::lemma_view_fits(before.collaterals.amount);
    crate::decimal::lemma_dec_of_fits(units);
    crate::decimal::lemma_dec_of_fits(before.collaterals.amount@ - units);
    crate::decimal::lemma_dec_of_fits(progress.requested_value@ - payment);
    crate::decimal::lemma_dec_of_fits(progress.returned_value@ + payment);
}

} // verus!
