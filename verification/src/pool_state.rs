//! The state of one lending pool: what is lent and in how many loan units,
//! the cached price, the accrued interest and the pledged collateral.
//!
//! The liquidity itself lies in a pool on the ledger. Each function here takes
//! what was read from that pool as plain amounts and says what has to be moved;
//! the caller moves it.

use crate::assets::{err_put_overflow, err_put_resource, err_take_amount, Bucket, Vault};
use crate::decimal::{
    dec_fits, dec_of, decimal_powi, lemma_dec_of, lemma_dec_of_fits, one_attos, opt_view, spec_add, spec_div,
        spec_mul, spec_round17,
    spec_sub, trunc_div, Decimal,
};
use crate::interest_strategy::{err_rate_overflow, ISInputBreakPoint, InterestStrategy};
use crate::liquidation_threshold::{LiquidationThreshold, UpdateLiquidationThresholdInput};
use crate::operation_status::{OperatingService, OperatingStatus};
use crate::pool_config::{CheckPoolConfigLimitInput, PoolConfig, UpdatePoolConfigInput};
use crate::precise_decimal::{
    one_precise, spec_pdiv, spec_pmul, spec_truncate, PreciseDecimal, RoundingMode,
};
use crate::utils::{err_text, message, ComponentAddress, PriceInfo, ResourceAddress};
use vstd::prelude::*;

verus! {

/// The state of the pool of one asset.
#[derive(Debug)]
pub struct LendingPoolState {
    /// The asset that the pool lends.
    pub pool_res_address: ResourceAddress,
    /// The component that prices the asset.
    pub price_feed_comp: ComponentAddress,
    /// Pool units locked as collateral.
    pub collaterals: Vault,
    /// Fees retained by the protocol.
    pub reserve: Vault,
    pub last_price: Decimal,
    pub price_updated_at: i64,
    /// Outstanding principal plus accrued interest.
    pub total_loan: Decimal,
    /// Sum of the loan units of all borrowers.
    pub total_loan_unit: Decimal,
    pub interest_rate: Decimal,
    pub interest_updated_at: i64,
    pub interest_strategy: InterestStrategy,
    pub liquidation_threshold: LiquidationThreshold,
    pub pool_config: PoolConfig,
    pub operating_status: OperatingStatus,
}

/// What an interest update asks the caller to do on the ledger: add the
/// accrued interest to the pool's lent liquidity, then move the protocol's
/// share from the pool to the reserve.
#[derive(Clone, Copy, Debug, PartialEq, Eq, Structural)]
pub struct InterestUpdate {
    pub accrued_interest: Decimal,
    pub protocol_fees: Decimal,
}

pub open spec fn err_ratio_above_one() -> Seq<char> {
    "Loan unit ratio cannot be greater than 1"@
}

pub open spec fn err_ratio_overflow() -> Seq<char> {
    "Loan unit ratio overflow"@
}

pub open spec fn err_loan_unit_overflow() -> Seq<char> {
    "Loan unit overflow"@
}

pub open spec fn err_negative_loan_unit() -> Seq<char> {
    "Total loan unit cannot be negative"@
}

pub open spec fn err_negative_loan() -> Seq<char> {
    "Total loan cannot be negative"@
}

pub open spec fn err_amount_not_positive() -> Seq<char> {
    "Amount must be positive"@
}

pub open spec fn err_pool_unit_not_positive() -> Seq<char> {
    "Pool unit amount must be positive"@
}

pub open spec fn err_not_enough_pool_units() -> Seq<char> {
    "Not enough pool units to remove from collateral"@
}

pub open spec fn err_pool_unit_resource() -> Seq<char> {
    "Pool unit resource address missmatch"@
}

pub open spec fn err_payment_resource() -> Seq<char> {
    "Payment resource address missmatch"@
}

pub open spec fn err_amount_overflow() -> Seq<char> {
    "Amount overflow"@
}

pub open spec fn err_price_missing() -> Seq<char> {
    "Price feed returned None"@
}

pub open spec fn err_accrual_overflow() -> Seq<char> {
    "Interest accrual overflow"@
}

pub open spec fn err_negative_accrual() -> Seq<char> {
    "Accrued interest cannot be negative"@
}

/// The number of minutes in a year, in subunits.
pub open spec fn minutes_per_year() -> int {
    525600 * one_attos()
}

pub open spec fn err_repay_overflow() -> Seq<char> {
    "Repayment amount overflow"@
}

pub open spec fn err_seize_overflow() -> Seq<char> {
    "Collateral amount overflow"@
}

/// The smaller of two subunit counts.
pub open spec fn min_int(a: int, b: int) -> int {
    if b < a {
        b
    } else {
        a
    }
}

/// The amount that units stand for at a ratio, rounded to the nearest
/// subunit.
pub open spec fn spec_amount_nearest(units: int, ratio: int) -> Option<int> {
    match spec_pdiv(units * one_attos(), ratio) {
        None => None,
        Some(p) => spec_truncate(p, RoundingMode::ToNearestMidpointToEven),
    }
}

/// The units that an amount stands for at a ratio, rounded to the nearest
/// subunit.
pub open spec fn spec_units_nearest(amount: int, ratio: int) -> Option<int> {
    match spec_pmul(amount * one_attos(), ratio) {
        None => None,
        Some(p) => spec_truncate(p, RoundingMode::ToNearestMidpointToEven),
    }
}

/// How much of a payment repays a loan, as `(amount, value)`: the value is
/// the least of what the position owes, what is paid, what the pool has
/// lent and, if given, what is still expected, each at the pool's price; the
/// amount is that value at the price.
pub open spec fn spec_repayable(
    ratio: int,
    price: int,
    position_loan_units: int,
    payment: int,
    pool_borrowed: int,
    expected: Option<int>,
) -> Option<(int, int)> {
    match spec_amount_nearest(position_loan_units, ratio) {
        None => None,
        Some(owed) => match (
            spec_mul(min_int(owed, payment), price),
            spec_mul(pool_borrowed, price),
        ) {
            (Some(payable), Some(lent)) => {
                let capped = min_int(payable, lent);
                let value = match expected {
                    Some(e) => min_int(capped, e),
                    None => capped,
                };
                match spec_div(value, price) {
                    None => None,
                    Some(amount) => Some((amount, value)),
                }
            },
            _ => None,
        },
    }
}

/// The value of the collateral that a liquidator seizes from a position for
/// what is still requested: the lesser of the value that the position holds
/// and the requested value times one plus the bonus.
pub open spec fn spec_seize_value(
    bonus_rate: int,
    price: int,
    collateral_units: int,
    unit_ratio: int,
    requested: int,
) -> Option<int> {
    match (spec_add(one_attos(), bonus_rate), spec_amount_nearest(collateral_units, unit_ratio)) {
        (Some(bonus), Some(held)) => match (spec_mul(held, price), spec_mul(bonus, requested)) {
            (Some(held_value), Some(wanted_value)) => Some(min_int(held_value, wanted_value)),
            _ => None,
        },
        _ => None,
    }
}

/// How much collateral a liquidator seizes from a position for what is
/// still requested, as `(pool units, payment value)`: the payment value is
/// the seized value over one plus the bonus; the pool units are the seized
/// value at the price and the pool unit ratio.
pub open spec fn spec_seizable(
    bonus_rate: int,
    price: int,
    collateral_units: int,
    unit_ratio: int,
    requested: int,
) -> Option<(int, int)> {
    match spec_seize_value(bonus_rate, price, collateral_units, unit_ratio, requested) {
        None => None,
        Some(value) => match (
            spec_div(value, one_attos() + bonus_rate),
            spec_div(value, price),
        ) {
            (Some(payment), Some(amount)) => match spec_units_nearest(amount, unit_ratio) {
                Some(units) => Some((units, payment)),
                None => None,
            },
            _ => None,
        },
    }
}

/// Loan units per unit of principal: one while nothing is lent, otherwise
/// the quotient of the totals in thirty-six digits. A ratio above one is an
/// error.
pub open spec fn spec_loan_unit_ratio(total_loan_unit: int, total_loan: int) -> Result<int, Seq<char>> {
    if total_loan != 0 {
        match spec_pdiv(total_loan_unit * one_attos(), total_loan * one_attos()) {
            None => Err(err_ratio_overflow()),
            Some(ratio) => if ratio > one_precise() {
                Err(err_ratio_above_one())
            } else {
                Ok(ratio)
            },
        }
    } else {
        Ok(one_precise())
    }
}

/// The loan units of an amount at a ratio, rounded toward zero.
pub open spec fn spec_units_of(amount: int, ratio: int) -> Option<int> {
    match spec_pmul(amount * one_attos(), ratio) {
        None => None,
        Some(p) => spec_truncate(p, RoundingMode::ToZero),
    }
}

/// The totals after `amount` is lent (or, if negative, repaid), with the
/// loan units that the amount stands for: `(total_loan, total_loan_unit,
/// units)`.
pub open spec fn spec_update_loan_unit(total_loan: int, total_loan_unit: int, amount: int) -> Result<
    (int, int, int),
    Seq<char>,
> {
    match spec_loan_unit_ratio(total_loan_unit, total_loan) {
        Err(e) => Err(e),
        Ok(ratio) => match spec_units_of(amount, ratio) {
            None => Err(err_loan_unit_overflow()),
            Some(units) => match (spec_add(total_loan, amount), spec_add(total_loan_unit, units)) {
                (Some(loan), Some(unit_sum)) => {
                    let unit_total = if amount <= 0 {
                        spec_round17(unit_sum)
                    } else {
                        unit_sum
                    };
                    if unit_total < 0 {
                        Err(err_negative_loan_unit())
                    } else if loan < 0 {
                        Err(err_negative_loan())
                    } else {
                        Ok((loan, unit_total, units))
                    }
                },
                _ => Err(err_loan_unit_overflow()),
            },
        },
    }
}

/// Whole minutes from `before` to `now`.
pub open spec fn spec_period_minutes(before: i64, now: i64) -> int {
    trunc_div(now - before, 60)
}

/// The share of the pool's liquidity that is lent out; zero for an empty
/// pool.
pub open spec fn spec_utilization(available: int, borrowed: int) -> Option<int> {
    match spec_add(available, borrowed) {
        None => None,
        Some(total) => if total == 0 {
            Some(0)
        } else {
            spec_div(borrowed, total)
        },
    }
}

/// One plus a yearly rate spread over the minutes of a year.
pub open spec fn spec_minute_rate(rate: int) -> Option<int> {
    match spec_div(rate, minutes_per_year()) {
        None => None,
        Some(per_minute) => spec_add(one_attos(), per_minute),
    }
}

/// The growth of a debt by a factor: `(new_total_loan, accrued_interest,
/// protocol_fees)`.
pub open spec fn spec_accrual(total_loan: int, factor: int, fee_rate: int) -> Result<
    (int, int, int),
    Seq<char>,
> {
    match spec_mul(total_loan, factor) {
        None => Err(err_accrual_overflow()),
        Some(new_total) => match spec_sub(new_total, total_loan) {
            None => Err(err_accrual_overflow()),
            Some(accrued) => if accrued < 0 {
                Err(err_negative_accrual())
            } else {
                match spec_mul(accrued, fee_rate) {
                    None => Err(err_accrual_overflow()),
                    Some(fees) => Ok((new_total, accrued, fees)),
                }
            },
        },
    }
}

impl LendingPoolState {
    /// The tables of limits are well formed.
    pub open spec fn well_formed(self) -> bool {
        self.liquidation_threshold.well_formed()
    }

    /// Whether the two agree in everything but their interest curve.
    pub open spec fn same_but_curve(self, other: LendingPoolState) -> bool {
        &&& self.pool_res_address == other.pool_res_address
        &&& self.price_feed_comp == other.price_feed_comp
        &&& self.collaterals == other.collaterals
        &&& self.reserve == other.reserve
        &&& self.last_price == other.last_price
        &&& self.price_updated_at == other.price_updated_at
        &&& self.total_loan == other.total_loan
        &&& self.total_loan_unit == other.total_loan_unit
        &&& self.interest_rate == other.interest_rate
        &&& self.interest_updated_at == other.interest_updated_at
        &&& self.liquidation_threshold == other.liquidation_threshold
        &&& self.pool_config == other.pool_config
        &&& self.operating_status == other.operating_status
    }

    /// Whether the two agree in everything but their liquidation
    /// thresholds.
    pub open spec fn same_but_thresholds(self, other: LendingPoolState) -> bool {
        &&& self.pool_res_address == other.pool_res_address
        &&& self.price_feed_comp == other.price_feed_comp
        &&& self.collaterals == other.collaterals
        &&& self.reserve == other.reserve
        &&& self.last_price == other.last_price
        &&& self.price_updated_at == other.price_updated_at
        &&& self.total_loan == other.total_loan
        &&& self.total_loan_unit == other.total_loan_unit
        &&& self.interest_rate == other.interest_rate
        &&& self.interest_updated_at == other.interest_updated_at
        &&& self.interest_strategy == other.interest_strategy
        &&& self.pool_config == other.pool_config
        &&& self.operating_status == other.operating_status
    }

    /// The books of the pool are sound: the loan units and the debt are not
    /// negative, and there are no more loan units than debt, so a loan unit
    /// never stands for less than one unit of principal.
    pub open spec fn accounts_sound(self) -> bool {
        0 <= self.total_loan_unit@ <= self.total_loan@
    }

    /// The ratio of this pool's totals.
    pub open spec fn spec_ratio(self) -> Result<int, Seq<char>> {
        spec_loan_unit_ratio(self.total_loan_unit@, self.total_loan@)
    }

    /// Whether an update at `now` does anything: more than one whole minute
    /// has passed since the last one.
    pub open spec fn spec_update_due(&self, now: i64) -> bool {
        spec_period_minutes(self.interest_updated_at, now) > 1
    }

    /// Whether an update at `now` reads the price feed.
    pub open spec fn spec_price_due(self, now: i64) -> bool {
        spec_period_minutes(self.interest_updated_at, now) >= self.pool_config.price_update_period
    }

    /// The growth factor of the debt over the minutes since the last update
    /// at the rate that the curve gives for the pool's utilization. Both the
    /// rate and the factor are amounts: a value out of the range of amounts
    /// is an overflow.
    pub open spec fn spec_growth(self, now: i64, available: int, borrowed: int) -> Result<
        (int, int),
        Seq<char>,
    > {
        match spec_utilization(available, borrowed) {
            None => Err(err_amount_overflow()),
            Some(utilization) => match self.interest_strategy.spec_rate(utilization) {
                None => Err(err_rate_overflow()),
                Some(rate) => if !dec_fits(rate) {
                    Err(err_rate_overflow())
                } else {
                    match spec_minute_rate(rate) {
                        None => Err(err_accrual_overflow()),
                        Some(minute_rate) => match decimal_powi(
                            minute_rate,
                            spec_period_minutes(self.interest_updated_at, now),
                        ) {
                            None => Err(err_accrual_overflow()),
                            Some(factor) => if !dec_fits(factor) {
                                Err(err_accrual_overflow())
                            } else {
                                Ok((rate, factor))
                            },
                        },
                    }
                },
            },
        }
    }

    /// The complaint of `contribute_proxy`, if any: the pool's liquidity
    /// after the contribution leaves the range or exceeds the deposit limit.
    pub open spec fn spec_contribute_error(self, amount: int, available: int, borrowed: int) -> Option<
        Seq<char>,
    > {
        match spec_add(available, borrowed) {
            None => Some(err_amount_overflow()),
            Some(pooled) => match spec_add(pooled, amount) {
                None => Some(err_amount_overflow()),
                Some(total) => self.pool_config.spec_check_limit(
                    CheckPoolConfigLimitInput::DepositLimit(dec_of(total)),
                ),
            },
        }
    }

    /// The pool after `amount` is lent or, if negative, repaid, with the
    /// loan units that the amount stands for.
    pub open spec fn spec_after_loan_change(self, amount: int) -> Result<(LendingPoolState,
        Decimal), Seq<char>> {
        match spec_update_loan_unit(self.total_loan@, self.total_loan_unit@, amount) {
            Err(e) => Err(e),
            Ok((loan, unit_total, units)) => Ok(
                (
                    LendingPoolState {
                        total_loan: dec_of(loan),
                        total_loan_unit: dec_of(unit_total),
                        ..self
                    },
                    dec_of(units),
                ),
            ),
        }
    }

    /// The complaint of the limits about a loan of `amount`, if any.
    pub open spec fn spec_borrow_limit_error(self, amount: int, available: int, borrowed: int) -> Option<
        Seq<char>,
    > {
        if amount <= 0 {
            Some(err_amount_not_positive())
        } else {
            match spec_add(borrowed, amount) {
                None => Some(err_amount_overflow()),
                Some(lent) => match self.pool_config.spec_check_limit(
                    CheckPoolConfigLimitInput::BorrowLimit(dec_of(lent)),
                ) {
                    Some(e) => Some(e),
                    None => match spec_add(available, borrowed) {
                        None => Some(err_amount_overflow()),
                        Some(pooled) => match spec_add(pooled, amount) {
                            None => Some(err_amount_overflow()),
                            Some(total) => match spec_div(lent, total) {
                                None => Some(err_amount_overflow()),
                                Some(utilization) => self.pool_config.spec_check_limit(
                                    CheckPoolConfigLimitInput::UtilizationLimit(dec_of(utilization)),
                                ),
                            },
                        },
                    },
                },
            }
        }
    }

    /// The pool after a loan of `amount` with the bucket to withdraw from
    /// the pool's liquidity and the loan units of the borrower.
    pub open spec fn spec_withdraw_for_borrow(self, amount: Decimal, available: int, borrowed: int) -> Result<
        (LendingPoolState, Bucket, Decimal),
        Seq<char>,
    > {
        match self.spec_borrow_limit_error(amount@, available, borrowed) {
            Some(e) => Err(e),
            None => match self.spec_after_loan_change(amount@) {
                Err(e) => Err(e),
                Ok((pool, units)) => Ok(
                    (pool, Bucket { resource_address: self.pool_res_address, amount }, units),
                ),
            },
        }
    }

    /// The pool after a repayment with the loan units that it redeems.
    pub open spec fn spec_deposit_for_repay(self, payment: Bucket) -> Result<(LendingPoolState,
        Decimal), Seq<char>> {
        if payment.resource_address != self.pool_res_address {
            Err(err_payment_resource())
        } else {
            match spec_sub(0, payment.amount@) {
                None => Err(err_amount_overflow()),
                Some(negated) => match self.spec_after_loan_change(negated) {
                    Err(e) => Err(e),
                    Ok((pool, units)) => match spec_sub(0, units@) {
                        None => Err(err_amount_overflow()),
                        Some(redeemed) => Ok((pool, dec_of(redeemed))),
                    },
                },
            }
        }
    }

    /// The pool after its debt has grown by `factor` at `now`, under the new
    /// rate and, if one was read, the new price; with what the caller has to
    /// move on the ledger.
    pub open spec fn spec_apply_accrual(
        self,
        now: i64,
        price: Option<PriceInfo>,
        rate: Decimal,
        factor: Decimal,
    ) -> Result<(LendingPoolState, InterestUpdate), Seq<char>> {
        match spec_accrual(self.total_loan@, factor@, self.pool_config.protocol_fee_rate@) {
            Err(e) => Err(e),
            Ok((new_total, accrued, fees)) => match spec_add(self.reserve.amount@, fees) {
                None => Err(err_put_overflow()),
                Some(reserve) => Ok(
                    (
                        LendingPoolState {
                            last_price: match price {
                                Some(p) => p.price,
                                None => self.last_price,
                            },
                            price_updated_at: match price {
                                Some(_) => now,
                                None => self.price_updated_at,
                            },
                            interest_rate: rate,
                            interest_updated_at: now,
                            total_loan: dec_of(new_total),
                            reserve: Vault {
                                resource_address: self.reserve.resource_address,
                                amount: dec_of(reserve),
                            },
                            ..self
                        },
                        InterestUpdate {
                            accrued_interest: dec_of(accrued),
                            protocol_fees: dec_of(fees),
                        },
                    ),
                ),
            },
        }
    }

    /// The pool after an update at `now`, given what the price feed returned
    /// and what the pool on the ledger holds and has lent. `None` stands for
    /// an update that came within a minute of the last and did nothing.
    pub open spec fn spec_update_interest_and_price(
        self,
        now: i64,
        price_feed_result: Option<PriceInfo>,
        available: int,
        borrowed: int,
    ) -> Result<(LendingPoolState, Option<InterestUpdate>), Seq<char>> {
        if !self.spec_update_due(now) {
            Ok((self, None))
        } else if self.spec_price_due(now) && price_feed_result.is_none() {
            Err(err_price_missing())
        } else {
            match self.spec_growth(now, available, borrowed) {
                Err(e) => Err(e),
                Ok((rate, factor)) => match self.spec_apply_accrual(
                    now,
                    if self.spec_price_due(now) {
                        price_feed_result
                    } else {
                        None
                    },
                    dec_of(rate),
                    dec_of(factor),
                ) {
                    Err(e) => Err(e),
                    Ok((pool, update)) => Ok((pool, Some(update))),
                },
            }
        }
    }

    /// The pool after a payment is applied to a loan of a position, with
    /// what is left of the payment, what goes back into the pool, the loan
    /// units redeemed and the value repaid.
    pub open spec fn spec_repay(
        self,
        position_loan_units: int,
        payment: Bucket,
        pool_borrowed: int,
        expected: Option<int>,
    ) -> Result<(LendingPoolState, Bucket, Bucket, Decimal, Decimal), Seq<char>> {
        match self.spec_ratio() {
            Err(e) => Err(e),
            Ok(ratio) => match spec_repayable(
                ratio,
                self.last_price@,
                position_loan_units,
                payment.amount@,
                pool_borrowed,
                expected,
            ) {
                None => Err(err_repay_overflow()),
                Some((amount, value)) => if !(0 <= amount <= payment.amount@) {
                    Err(err_take_amount())
                } else {
                    match self.spec_deposit_for_repay(
                        Bucket { resource_address: payment.resource_address, amount: dec_of(amount) },
                    ) {
                        Err(e) => Err(e),
                        Ok((pool, units)) => Ok(
                            (
                                pool,
                                Bucket {
                                    resource_address: payment.resource_address,
                                    amount: dec_of(payment.amount@ - amount),
                                },
                                Bucket {
                                    resource_address: payment.resource_address,
                                    amount: dec_of(amount),
                                },
                                units,
                                dec_of(value),
                            ),
                        ),
                    }
                },
            },
        }
    }

    /// The pool after the protocol's share of seized collateral goes to the
    /// reserve, with what is left for the liquidator.
    pub open spec fn spec_liquidation_fee(self, collaterals: Bucket) -> Result<(LendingPoolState,
        Bucket), Seq<char>> {
        match spec_mul(collaterals.amount@, self.pool_config.protocol_liquidation_fee_rate@) {
            None => Err(err_seize_overflow()),
            Some(fee) => if !(0 <= fee <= collaterals.amount@) {
                Err(err_take_amount())
            } else if collaterals.resource_address != self.reserve.resource_address {
                Err(err_put_resource())
            } else {
                match spec_add(self.reserve.amount@, fee) {
                    None => Err(err_put_overflow()),
                    Some(reserve) => Ok(
                        (
                            LendingPoolState {
                                reserve: Vault {
                                    resource_address: self.reserve.resource_address,
                                    amount: dec_of(reserve),
                                },
                                ..self
                            },
                            Bucket {
                                resource_address: collaterals.resource_address,
                                amount: dec_of(collaterals.amount@ - fee),
                            },
                        ),
                    ),
                }
            },
        }
    }

    /// Whether an update at `now` would do anything.
    #[verifier::when_used_as_spec(spec_update_due)]
    pub fn update_due(&self, now: i64) -> (r: bool)
        ensures
            r == self.spec_update_due(now),
    {
        let elapsed: i128 = now as i128 - self.interest_updated_at as i128;
        elapsed >= 120
    }

    /// Whether an update at `now` reads the price feed: it is not held back,
    /// and the price is as old as the pool lets it get.
    pub fn price_due(&self, now: i64) -> (r: bool)
        ensures
            r == (self.spec_update_due(now) && self.spec_price_due(now)),
    {
        let elapsed: i128 = now as i128 - self.interest_updated_at as i128;
        if elapsed < 120 {
            return false;
        }
        let period_in_minute: i64 = (elapsed / 60) as i64;
        assert(period_in_minute as int == spec_period_minutes(self.interest_updated_at, now));
        period_in_minute >= self.pool_config.price_update_period
    }

    pub fn set_price_feed(&mut self, price_feed: ComponentAddress)
        ensures
            *final(self) == (LendingPoolState { price_feed_comp: price_feed, ..*old(self) }),
    {
        self.price_feed_comp = price_feed;
    }

    pub fn update_config(&mut self, value: UpdatePoolConfigInput) -> (r: Result<(), String>)
        ensures
            match old(self).pool_config.spec_update(value) {
                Ok(c) => r.is_ok() && *final(self) == (LendingPoolState { pool_config: c, ..*old(self) }),
                Err(e) => err_text(r) == Some(e) && *final(self) == *old(self),
            },
    {
        self.pool_config.update(value)
    }

    pub fn set_interest_strategy(
        &mut self,
        initial_rate: Decimal,
        interest_options_break_points: Vec<ISInputBreakPoint>,
    ) -> (r: Result<(), String>)
        ensures
            err_text(r) == crate::interest_strategy::breakpoints_error(interest_options_break_points@, 0),
            r.is_ok() ==> final(self).interest_strategy.initial_rate == initial_rate
                && final(self).interest_strategy.break_points@ == interest_options_break_points@,
            r.is_err() ==> *final(self) == *old(self),
            final(self).same_but_curve(*old(self)),
    {
        self.interest_strategy.set_breakpoints(initial_rate, interest_options_break_points)
    }

    pub fn update_liquidation_threshold(&mut self, value: UpdateLiquidationThresholdInput) -> (r: Result<
        (),
        String,
    >)
        requires
            old(self).well_formed(),
        ensures
            final(self).well_formed(),
            crate::liquidation_threshold::ratio_in_range(LiquidationThreshold::input_ratio(value))
                ==> r.is_ok() && final(self).liquidation_threshold.is_update_of(
                old(self).liquidation_threshold,
                value,
            ),
            !crate::liquidation_threshold::ratio_in_range(LiquidationThreshold::input_ratio(value))
                ==> err_text(r) == Some(crate::liquidation_threshold::err_threshold_range())
                && *final(self) == *old(self),
            final(self).same_but_thresholds(*old(self)),
    {
        self.liquidation_threshold.update_liquidation_threshold(value)
    }

    /// Fails when the service is switched off for this pool.
    pub fn check_operating_status(&self, service: OperatingService) -> (r: Result<(), String>)
        ensures
            self.operating_status.spec_is_enabled(service) ==> r.is_ok(),
            !self.operating_status.spec_is_enabled(service) ==> err_text(r) == Some(
                crate::operation_status::err_service_disabled(),
            ),
    {
        self.operating_status.check_service(service)
    }

    /// How much of a payment repays a loan of a position, as `(amount,
    /// value)`, given the loan units of the position, what the pool on the
    /// ledger has lent and, in a liquidation, the value still expected.
    pub fn repayable(
        &self,
        position_loan_units: Decimal,
        payment_amount: Decimal,
        pool_borrowed_amount: Decimal,
        expected_payment_value: Option<Decimal>,
    ) -> (r: Result<(Decimal, Decimal), String>)
        ensures
            match self.spec_ratio() {
                Err(e) => err_text(r) == Some(e),
                Ok(ratio) => match spec_repayable(
                    ratio,
                    self.last_price@,
                    position_loan_units@,
                    payment_amount@,
                    pool_borrowed_amount@,
                    opt_view(expected_payment_value),
                ) {
                    Some((amount, value)) => r.is_ok() && r.unwrap().0@ == amount && r.unwrap().1@
                        == value,
                    None => err_text(r) == Some(err_repay_overflow()),
                },
            },
    {
        let unit_ratio = self.get_loan_unit_ratio()?;
        let owed = match PreciseDecimal::from_decimal(position_loan_units).checked_div(unit_ratio) {
            Some(p) => match p.checked_truncate(RoundingMode::ToNearestMidpointToEven) {
                Some(v) => v,
                None => {
                    return Err(message("Repayment amount overflow"));
                },
            },
            None => {
                return Err(message("Repayment amount overflow"));
            },
        };
        let max_loan_amount = owed.min(payment_amount);
        let payable = max_loan_amount.checked_mul(self.last_price);
        let lent = pool_borrowed_amount.checked_mul(self.last_price);
        let mut max_loan_value = match (payable, lent) {
            (Some(payable), Some(lent)) => payable.min(lent),
            _ => {
                return Err(message("Repayment amount overflow"));
            },
        };
        if let Some(expected) = expected_payment_value {
            max_loan_value = max_loan_value.min(expected);
        }
        match max_loan_value.checked_div(self.last_price) {
            Some(amount) => Ok((amount, max_loan_value)),
            None => Err(message("Repayment amount overflow")),
        }
    }

    /// How much collateral a liquidator seizes for the value still
    /// requested, as `(pool units, payment value)`, given the pool units
    /// that the position holds and the pool unit ratio of the pool on the
    /// ledger.
    pub fn seizable(&self, collateral_units: Decimal, unit_ratio: PreciseDecimal,
        requested_value: Decimal) -> (r:
        Result<(Decimal, Decimal), String>)
        ensures
            match spec_seizable(
                self.pool_config.liquidation_bonus_rate@,
                self.last_price@,
                collateral_units@,
                unit_ratio@,
                requested_value@,
            ) {
                Some((units, payment)) => r.is_ok() && r.unwrap().0@ == units && r.unwrap().1@ == payment,
                None => err_text(r) == Some(err_seize_overflow()),
            },
    {
        let bonus_rate = Decimal::one().checked_add(self.pool_config.liquidation_bonus_rate);
        let held = match PreciseDecimal::from_decimal(collateral_units).checked_div(unit_ratio) {
            Some(p) => p.checked_truncate(RoundingMode::ToNearestMidpointToEven),
            None => None,
        };
        let (bonus_rate, max_collateral_amount) = match (bonus_rate, held) {
            (Some(b), Some(h)) => (b, h),
            _ => {
                return Err(message("Collateral amount overflow"));
            },
        };
        let held_value = max_collateral_amount.checked_mul(self.last_price);
        let wanted_value = bonus_rate.checked_mul(requested_value);
        let max_collateral_value = match (held_value, wanted_value) {
            (Some(h), Some(w)) => h.min(w),
            _ => {
                return Err(message("Collateral amount overflow"));
            },
        };
        let payment = max_collateral_value.checked_div(bonus_rate);
        let amount = max_collateral_value.checked_div(self.last_price);
        let (payment, amount) = match (payment, amount) {
            (Some(p), Some(a)) => (p, a),
            _ => {
                return Err(message("Collateral amount overflow"));
            },
        };
        let units = match PreciseDecimal::from_decimal(amount).checked_mul(unit_ratio) {
            Some(p) => p.checked_truncate(RoundingMode::ToNearestMidpointToEven),
            None => None,
        };
        match units {
            Some(units) => Ok((units, payment)),
            None => Err(message("Collateral amount overflow")),
        }
    }

    /// Applies a payment to a loan of a position: as much of it as the
    /// position owes, the pool has lent and, in a liquidation, is still
    /// expected goes back into the pool, and the loan is booked down.
    /// Returns what is left of the payment, what goes back into the pool,
    /// the loan units redeemed and the value repaid. Fails, changing
    /// nothing, if an amount cannot be computed.
    pub fn repay(
        &mut self,
        position_loan_units: Decimal,
        payment: Bucket,
        pool_borrowed_amount: Decimal,
        expected_payment_value: Option<Decimal>,
    ) -> (r: Result<(Bucket, Bucket, Decimal, Decimal), String>)
        ensures
            match old(self).spec_repay(
                position_loan_units@,
                payment,
                pool_borrowed_amount@,
                opt_view(expected_payment_value),
            ) {
                Ok((pool, remainder, repaid, units, value)) => r == Ok::<
                    (Bucket, Bucket, Decimal, Decimal),
                    String,
                >((remainder, repaid, units, value)) && *final(self) == pool,
                Err(e) => err_text(r) == Some(e) && *final(self) == *old(self),
            },
    {
        let (max_loan_amount, max_loan_value) = self.repayable(
            position_loan_units,
            payment.amount,
            pool_borrowed_amount,
            expected_payment_value,
        )?;
        let mut payment = payment;
        let repaid = payment.take(max_loan_amount)?;
        proof {
            lemma_dec_of(max_loan_amount);
            lemma_dec_of(max_loan_value);
            lemma_dec_of(payment.amount);
        }
        let delta_loan_unit = self.deposit_for_repay(repaid)?;
        Ok((payment, repaid, delta_loan_unit, max_loan_value))
    }

    /// Puts the protocol's share of seized collateral into the reserve and
    /// returns the rest. Fails, changing nothing, if an amount cannot be
    /// computed or the collateral is not the pool's asset.
    pub fn collect_liquidation_fee(&mut self, collaterals: Bucket) -> (r: Result<Bucket, String>)
        ensures
            match old(self).spec_liquidation_fee(collaterals) {
                Ok((pool, rest)) => r == Ok::<Bucket, String>(rest) && *final(self) == pool,
                Err(e) => err_text(r) == Some(e) && *final(self) == *old(self),
            },
    {
        let protocol_fee_amount = match collaterals.amount.checked_mul(
            self.pool_config.protocol_liquidation_fee_rate,
        ) {
            Some(v) => v,
            None => {
                return Err(message("Collateral amount overflow"));
            },
        };
        let mut collaterals = collaterals;
        let fee = collaterals.take(protocol_fee_amount)?;
        let mut reserve = self.reserve;
        reserve.put(fee)?;
        proof {
            lemma_dec_of(reserve.amount);
            lemma_dec_of(collaterals.amount);
        }
        self.reserve = reserve;
        Ok(collaterals)
    }

    /// Get the current loan unit ratio.
    pub fn get_loan_unit_ratio(&self) -> (r: Result<PreciseDecimal, String>)
        ensures
            match r {
                Ok(ratio) => self.spec_ratio() == Ok::<int, Seq<char>>(ratio@),
                Err(e) => self.spec_ratio() == Err::<int, Seq<char>>(e@),
            },
    {
        let ratio = if !self.total_loan.is_zero() {
            let units = PreciseDecimal::from_decimal(self.total_loan_unit);
            let loan = PreciseDecimal::from_decimal(self.total_loan);
            match units.checked_div(loan) {
                Some(q) => q,
                None => {
                    return Err(message("Loan unit ratio overflow"));
                },
            }
        } else {
            PreciseDecimal::one()
        };
        if ratio.gt(PreciseDecimal::one()) {
            return Err(message("Loan unit ratio cannot be greater than 1"));
        }
        Ok(ratio)
    }
    /// Checks a contribution of `assets` against the deposit limit, given
    /// what the pool on the ledger holds and has lent. On success the caller
    /// contributes the assets to that pool.
    pub fn contribute_proxy(
        &self,
        assets: &Bucket,
        pool_available_amount: Decimal,
        pool_borrowed_amount: Decimal,
    ) -> (r: Result<(), String>)
        ensures
            err_text(r) == self.spec_contribute_error(
                assets.amount@,
                pool_available_amount@,
                pool_borrowed_amount@,
            ),
    {
        let pooled = match pool_available_amount.checked_add(pool_borrowed_amount) {
            Some(v) => v,
            None => {
                return Err(message("Amount overflow"));
            },
        };
        let total = match pooled.checked_add(assets.amount) {
            Some(v) => v,
            None => {
                return Err(message("Amount overflow"));
            },
        };
        proof {
            lemma_dec_of(total);
        }
        self.pool_config.check_limit(CheckPoolConfigLimitInput::DepositLimit(total))
    }

    /// Locks pool units as collateral. An empty bucket changes nothing; a
    /// bucket of another resource is refused.
    pub fn add_pool_units_as_collateral(&mut self, pool_units: Bucket) -> (r: Result<(), String>)
        ensures
            pool_units.amount@ == 0 ==> r.is_ok() && *final(self) == *old(self),
            pool_units.amount@ != 0
                && pool_units.resource_address != old(self).collaterals.resource_address
                ==> err_text(r) == Some(err_pool_unit_resource())
                && *final(self) == *old(self),
            pool_units.amount@ != 0 && pool_units.resource_address
                == old(self).collaterals.resource_address ==> match spec_add(
                old(self).collaterals.amount@,
                pool_units.amount@,
            ) {
                Some(sum) => r.is_ok() && *final(self) == (LendingPoolState {
                    collaterals: Vault {
                        resource_address: old(self).collaterals.resource_address,
                        amount: dec_of(sum),
                    },
                    ..*old(self)
                }),
                None => err_text(r) == Some(err_put_overflow()) && *final(self) == *old(self),
            },
    {
        if pool_units.amount.is_zero() {
            return Ok(());
        }
        if pool_units.resource_address != self.collaterals.resource_address {
            return Err(message("Pool unit resource address missmatch"));
        }
        let r = self.collaterals.put(pool_units);
        proof {
            lemma_dec_of(self.collaterals.amount);
        }
        r
    }

    /// Releases `pool_unit_amount` pool units from the collateral. The
    /// amount must be positive and no more than what is locked.
    pub fn remove_pool_units_from_collateral(&mut self, pool_unit_amount: Decimal) -> (r: Result<
        Bucket,
        String,
    >)
        ensures
            pool_unit_amount@ <= 0 ==> err_text(r) == Some(err_pool_unit_not_positive()) && *final(self)
                == *old(self),
            pool_unit_amount@ > old(self).collaterals.amount@ && pool_unit_amount@ > 0 ==> err_text(r)
                == Some(err_not_enough_pool_units()) && *final(self) == *old(self),
            0 < pool_unit_amount@ <= old(self).collaterals.amount@ ==> r == Ok::<Bucket, String>(
                Bucket {
                    resource_address: old(self).collaterals.resource_address,
                    amount: pool_unit_amount,
                },
            ) && *final(self) == (LendingPoolState {
                collaterals: Vault {
                    resource_address: old(self).collaterals.resource_address,
                    amount: dec_of(old(self).collaterals.amount@ - pool_unit_amount@),
                },
                ..*old(self)
            }),
    {
        if pool_unit_amount.le(Decimal::zero()) {
            return Err(message("Pool unit amount must be positive"));
        }
        if pool_unit_amount.gt(self.collaterals.amount) {
            return Err(message("Not enough pool units to remove from collateral"));
        }
        let r = self.collaterals.take(pool_unit_amount);
        proof {
            lemma_dec_of(self.collaterals.amount);
        }
        r
    }

    /// Handles a request to increase the borrowed amount: checks the borrow
    /// and utilization limits against what the pool on the ledger holds and
    /// has lent, and books the loan. On success the caller withdraws the
    /// returned bucket from that pool for temporary use.
    pub fn withdraw_for_borrow(
        &mut self,
        amount: Decimal,
        pool_available_amount: Decimal,
        pool_borrowed_amount: Decimal,
    ) -> (r: Result<(Bucket, Decimal), String>)
        ensures
            match old(self).spec_withdraw_for_borrow(
                amount,
                pool_available_amount@,
                pool_borrowed_amount@,
            ) {
                Ok((pool, bucket, units)) => r == Ok::<(Bucket, Decimal), String>((bucket, units))
                    && *final(self) == pool,
                Err(e) => err_text(r) == Some(e) && *final(self) == *old(self),
            },
    {
        if amount.le(Decimal::zero()) {
            return Err(message("Amount must be positive"));
        }
        let lent = match pool_borrowed_amount.checked_add(amount) {
            Some(v) => v,
            None => {
                return Err(message("Amount overflow"));
            },
        };
        proof {
            lemma_dec_of(lent);
        }
        self.pool_config.check_limit(CheckPoolConfigLimitInput::BorrowLimit(lent))?;
        let pooled = match pool_available_amount.checked_add(pool_borrowed_amount) {
            Some(v) => v,
            None => {
                return Err(message("Amount overflow"));
            },
        };
        let total = match pooled.checked_add(amount) {
            Some(v) => v,
            None => {
                return Err(message("Amount overflow"));
            },
        };
        let utilization = match lent.checked_div(total) {
            Some(v) => v,
            None => {
                return Err(message("Amount overflow"));
            },
        };
        proof {
            lemma_dec_of(utilization);
        }
        self.pool_config.check_limit(CheckPoolConfigLimitInput::UtilizationLimit(utilization))?;
        let loan_unit = self._update_loan_unit(amount)?;
        Ok((Bucket { resource_address: self.pool_res_address, amount }, loan_unit))
    }

    /// Handles a request to decrease the borrowed amount: books the
    /// repayment and returns the loan units that it redeems, as a positive
    /// number. On success the caller deposits the payment into the pool on
    /// the ledger as a loan coming back.
    pub fn deposit_for_repay(&mut self, payment: Bucket) -> (r: Result<Decimal, String>)
        ensures
            match old(self).spec_deposit_for_repay(payment) {
                Ok((pool, units)) => r == Ok::<Decimal, String>(units) && *final(self) == pool,
                Err(e) => err_text(r) == Some(e) && *final(self) == *old(self),
            },
    {
        if payment.resource_address != self.pool_res_address {
            return Err(message("Payment resource address missmatch"));
        }
        let negated = match payment.amount.checked_neg() {
            Some(v) => v,
            None => {
                return Err(message("Amount overflow"));
            },
        };
        let saved_loan = self.total_loan;
        let saved_loan_unit = self.total_loan_unit;
        match self._update_loan_unit(negated) {
            Err(e) => Err(e),
            Ok(loan_unit) => match loan_unit.checked_neg() {
                Some(v) => {
                    proof {
                        lemma_dec_of(v);
                    }
                    Ok(v)
                },
                None => {
                    self.total_loan = saved_loan;
                    self.total_loan_unit = saved_loan_unit;
                    Err(message("Amount overflow"))
                },
            },
        }
    }

    /// Books a change of the lent amount and returns the loan units that it
    /// stands for: the amount times the loan unit ratio, rounded toward zero.
    /// After a repayment the total of loan units is cut to seventeen digits.
    /// Fails, changing nothing, if a total would become negative.
    pub fn _update_loan_unit(&mut self, amount: Decimal) -> (r: Result<Decimal, String>)
        ensures
            match old(self).spec_after_loan_change(amount@) {
                Ok((pool, units)) => r == Ok::<Decimal, String>(units) && *final(self) == pool,
                Err(e) => err_text(r) == Some(e) && *final(self) == *old(self),
            },
    {
        let unit_ratio = self.get_loan_unit_ratio()?;
        let scaled = match PreciseDecimal::from_decimal(amount).checked_mul(unit_ratio) {
            Some(v) => v,
            None => {
                return Err(message("Loan unit overflow"));
            },
        };
        let unit = match scaled.checked_truncate(RoundingMode::ToZero) {
            Some(v) => v,
            None => {
                return Err(message("Loan unit overflow"));
            },
        };
        let total_loan = match self.total_loan.checked_add(amount) {
            Some(v) => v,
            None => {
                return Err(message("Loan unit overflow"));
            },
        };
        let mut total_loan_unit = match self.total_loan_unit.checked_add(unit) {
            Some(v) => v,
            None => {
                return Err(message("Loan unit overflow"));
            },
        };
        if amount.le(Decimal::zero()) {
            total_loan_unit = total_loan_unit.round_down_17();
        }
        if total_loan_unit.is_negative() {
            return Err(message("Total loan unit cannot be negative"));
        }
        if total_loan.is_negative() {
            return Err(message("Total loan cannot be negative"));
        }
        proof {
            lemma_dec_of(total_loan);
            lemma_dec_of(total_loan_unit);
            lemma_dec_of(unit);
        }
        self.total_loan = total_loan;
        self.total_loan_unit = total_loan_unit;
        Ok(unit)
    }

    /// Grows the debt by `factor`, books the protocol's share of the accrued
    /// interest to the reserve, and records the time, the rate and, if given,
    /// the price. Fails, changing nothing, if an amount leaves the range or
    /// the debt would shrink.
    pub fn apply_accrual(&mut self, now: i64, price: Option<PriceInfo>, rate: Decimal, factor: Decimal) -> (r:
        Result<InterestUpdate, String>)
        ensures
            match old(self).spec_apply_accrual(now, price, rate, factor) {
                Ok((pool, update)) => r == Ok::<InterestUpdate, String>(update) && *final(self) == pool,
                Err(e) => err_text(r) == Some(e) && *final(self) == *old(self),
            },
    {
        let new_total = match self.total_loan.checked_mul(factor) {
            Some(v) => v,
            None => {
                return Err(message("Interest accrual overflow"));
            },
        };
        let accrued = match new_total.checked_sub(self.total_loan) {
            Some(v) => v,
            None => {
                return Err(message("Interest accrual overflow"));
            },
        };
        if accrued.is_negative() {
            return Err(message("Accrued interest cannot be negative"));
        }
        let fees = match accrued.checked_mul(self.pool_config.protocol_fee_rate) {
            Some(v) => v,
            None => {
                return Err(message("Interest accrual overflow"));
            },
        };
        let reserve = match self.reserve.amount.checked_add(fees) {
            Some(v) => v,
            None => {
                return Err(message("Amount overflow"));
            },
        };
        proof {
            lemma_dec_of(new_total);
            lemma_dec_of(accrued);
            lemma_dec_of(fees);
            lemma_dec_of(reserve);
        }
        if let Some(p) = price {
            self.last_price = p.price;
            self.price_updated_at = now;
        }
        self.interest_rate = rate;
        self.interest_updated_at = now;
        self.total_loan = new_total;
        self.reserve.amount = reserve;
        Ok(InterestUpdate { accrued_interest: accrued, protocol_fees: fees })
    }

    /// Brings interest and price up to `now`. Does nothing within a minute of
    /// the last update. Otherwise takes the price from `price_feed_result` if
    /// the price is due, asks the curve for the rate at the pool's
    /// utilization, and grows the debt by that rate compounded per minute.
    /// The caller reads `now` from the clock, the price from the feed, and the
    /// two amounts from the pool on the ledger, and afterwards moves what the
    /// result names.
    pub fn update_interest_and_price(
        &mut self,
        now: i64,
        price_feed_result: Option<PriceInfo>,
        pool_available_amount: Decimal,
        pool_borrowed_amount: Decimal,
    ) -> (r: Result<Option<InterestUpdate>, String>)
        ensures
            match old(self).spec_update_interest_and_price(
                now,
                price_feed_result,
                pool_available_amount@,
                pool_borrowed_amount@,
            ) {
                Ok((pool, update)) => r == Ok::<Option<InterestUpdate>, String>(update) && *final(self)
                    == pool,
                Err(e) => err_text(r) == Some(e) && *final(self) == *old(self),
            },
    {
        let elapsed: i128 = now as i128 - self.interest_updated_at as i128;
        if elapsed < 120 {
            return Ok(None);
        }
        let period_in_minute: i64 = (elapsed / 60) as i64;
        assert(period_in_minute as int == spec_period_minutes(self.interest_updated_at, now));
        let price = if period_in_minute >= self.pool_config.price_update_period {
            if price_feed_result.is_none() {
                return Err(message("Price feed returned None"));
            }
            price_feed_result
        } else {
            None
        };
        let pool_total_liquidity = match pool_available_amount.checked_add(pool_borrowed_amount) {
            Some(v) => v,
            None => {
                return Err(message("Amount overflow"));
            },
        };
        let pool_utilization = if pool_total_liquidity.is_zero() {
            Decimal::zero()
        } else {
            match pool_borrowed_amount.checked_div(pool_total_liquidity) {
                Some(v) => v,
                None => {
                    return Err(message("Amount overflow"));
                },
            }
        };
        let rate = self.interest_strategy.get_interest_rate(pool_utilization)?;
        let per_minute = match rate.checked_div(Decimal::from_u32(525600)) {
            Some(v) => v,
            None => {
                return Err(message("Interest accrual overflow"));
            },
        };
        let minute_interest_rate = match Decimal::one().checked_add(per_minute) {
            Some(v) => v,
            None => {
                return Err(message("Interest accrual overflow"));
            },
        };
        let factor = match minute_interest_rate.checked_powi(period_in_minute) {
            Some(v) => v,
            None => {
                return Err(message("Interest accrual overflow"));
            },
        };
        proof {
            lemma_dec_of(rate);
            lemma_dec_of(factor);
            crate::decimal::lemma_view_fits(rate);
            crate::decimal::lemma_view_fits(factor);
        }
        match self.apply_accrual(now, price, rate, factor) {
            Ok(update) => Ok(Some(update)),
            Err(e) => Err(e),
        }
    }
}

/// The first index from `i` on of a pool of the asset; the number of pools
/// if there is none.
pub open spec fn pool_index(pools: Seq<LendingPoolState>, res: ResourceAddress, i: int) -> int
    decreases pools.len() - i,
{
    if i < 0 || i >= pools.len() {
        pools.len() as int
    } else if pools[i].pool_res_address == res {
        i
    } else {
        pool_index(pools, res, i + 1)
    }
}

/// The index of a pool found from `i` on lies between `i` and the number of
/// pools, and a pool found is a pool of the asset.
pub proof fn lemma_pool_index_bounds(pools: Seq<LendingPoolState>, res: ResourceAddress, i: int)
    requires
        0 <= i <= pools.len(),
    ensures
        i <= pool_index(pools, res, i) <= pools.len(),
        pool_index(pools, res, i) < pools.len() ==> pools[pool_index(pools, res, i)].pool_res_address
            == res,
    decreases pools.len() - i,
{
    if i < pools.len() && pools[i].pool_res_address != res {
        lemma_pool_index_bounds(pools, res, i + 1);
    }
}

/// Whether every pool's tables of limits are well formed.
pub open spec fn pools_well_formed(pools: Seq<LendingPoolState>) -> bool {
    forall|i: int| 0 <= i < pools.len() ==> (#[trigger] pools[i]).well_formed()
}

/// The position of the first pool of an asset among the pools; their number
/// if the asset has no pool.
pub fn find_pool(pool_states: &Vec<LendingPoolState>, pool_res_address: ResourceAddress) -> (r: usize)
    ensures
        r == pool_index(pool_states@, pool_res_address, 0),
        r <= pool_states@.len(),
        r < pool_states@.len() ==> pool_states@[r as int].pool_res_address == pool_res_address,
{
    let n = pool_states.len();
    let mut i: usize = 0;
    while i < n
        invariant
            n == pool_states@.len(),
            0 <= i <= n,
            pool_index(pool_states@, pool_res_address, 0) == pool_index(
                pool_states@,
                pool_res_address,
                i as int,
            ),
        decreases n - i,
    {
        if pool_states[i].pool_res_address == pool_res_address {
            return i;
        }
        i = i + 1;
    }
    n
}

/// An update within a minute of the last one leaves the pool as it is,
/// whatever the clock, the price feed and the pool on the ledger say.
pub proof fn lemma_update_debounced(
    pool: LendingPoolState,
    now: i64,
    price_feed_result: Option<PriceInfo>,
    available: int,
    borrowed: int,
)
    requires
        spec_period_minutes(pool.interest_updated_at, now) <= 1,
    ensures
        pool.spec_update_interest_and_price(now, price_feed_result, available, borrowed) == Ok::<
            (LendingPoolState, Option<InterestUpdate>),
            Seq<char>,
        >((pool, None)),
{
}

/// Of two updates within a minute the second changes nothing: an update
/// that did something leaves its time behind, and the next one within a
/// minute of that time is debounced.
pub proof fn lemma_second_update_is_noop(
    pool: LendingPoolState,
    first: i64,
    second: i64,
    price_a: Option<PriceInfo>,
    available_a: int,
    borrowed_a: int,
    price_b: Option<PriceInfo>,
    available_b: int,
    borrowed_b: int,
)
    requires
        spec_period_minutes(first, second) <= 1,
        pool.spec_update_interest_and_price(first, price_a, available_a, borrowed_a).is_ok(),
        pool.spec_update_interest_and_price(first, price_a, available_a, borrowed_a)->Ok_0.1.is_some(),
    ensures
        ({
            let after = pool.spec_update_interest_and_price(
                first,
                price_a,
                available_a,
                borrowed_a,
            )->Ok_0.0;
            &&& after.interest_updated_at == first
            &&& after.spec_update_interest_and_price(second, price_b, available_b, borrowed_b) == Ok::<
                (LendingPoolState, Option<InterestUpdate>),
                Seq<char>,
            >((after, None))
        }),
{
}

/// What an update that is due books, in numbers: the pool takes the rate
/// of the curve and the debt times the compounded factor, and the reserve
/// takes the protocol's share of the interest.
pub proof fn lemma_update_books_growth(
    pool: LendingPoolState,
    now: i64,
    price_feed_result: Option<PriceInfo>,
    available: int,
    borrowed: int,
)
    requires
        pool.spec_update_due(now),
        pool.spec_update_interest_and_price(now, price_feed_result, available, borrowed).is_ok(),
    ensures
        ({
            let (after, update) = pool.spec_update_interest_and_price(
                now,
                price_feed_result,
                available,
                borrowed,
            )->Ok_0;
            let (rate, factor) = pool.spec_growth(now, available, borrowed)->Ok_0;
            let (new_total, accrued, fees) = spec_accrual(
                pool.total_loan@,
                factor,
                pool.pool_config.protocol_fee_rate@,
            )->Ok_0;
            &&& pool.spec_growth(now, available, borrowed).is_ok()
            &&& spec_accrual(pool.total_loan@, factor, pool.pool_config.protocol_fee_rate@).is_ok()
            &&& update.is_some()
            &&& after.interest_rate@ == rate
            &&& after.interest_updated_at == now
            &&& after.total_loan@ == new_total
            &&& after.total_loan_unit == pool.total_loan_unit
            &&& after.reserve.amount@ == pool.reserve.amount@ + fees
            &&& update.unwrap().accrued_interest@ == accrued
            &&& update.unwrap().protocol_fees@ == fees
            &&& accrued == new_total - pool.total_loan@
        }),
{
    let (rate, factor) = pool.spec_growth(now, available, borrowed)->Ok_0;
    lemma_dec_of_fits(rate);
    lemma_dec_of_fits(factor);
    let (new_total, accrued, fees) = spec_accrual(
        pool.total_loan@,
        factor,
        pool.pool_config.protocol_fee_rate@,
    )->Ok_0;
    lemma_dec_of_fits(new_total);
    lemma_dec_of_fits(accrued);
    lemma_dec_of_fits(fees);
    lemma_dec_of_fits(spec_add(pool.reserve.amount@, fees).unwrap());
}

/// A pool with sound books has a loan unit ratio, and it lies between zero
/// and one.
pub proof fn lemma_sound_accounts_have_a_ratio(pool: LendingPoolState)
    requires
        pool.accounts_sound(),
    ensures
        pool.spec_ratio().is_ok(),
        0 <= pool.spec_ratio()->Ok_0 <= one_precise(),
{
    let units = pool.total_loan_unit@;
    let loan = pool.total_loan@;
    if loan != 0 {
        let a = units * one_attos();
        let b = loan * one_attos();
        let x = a * one_precise();
        assert(0 <= a <= b && b > 0) by (nonlinear_arith)
            requires
                a == units * one_attos(),
                b == loan * one_attos(),
                0 <= units <= loan,
                loan > 0,
                one_attos() > 0,
        ;
        assert(0 <= x <= b * one_precise()) by (nonlinear_arith)
            requires
                x == a * one_precise(),
                0 <= a <= b,
                one_precise() > 0,
        ;
        vstd::arithmetic::div_mod::lemma_div_is_ordered(x, b * one_precise(), b);
        assert(b * one_precise() == one_precise() * b) by (nonlinear_arith);
        vstd::arithmetic::div_mod::lemma_div_by_multiple(one_precise(), b);
        vstd::arithmetic::div_mod::lemma_div_pos_is_pos(x, b);
        assert(trunc_div(x, b) == x / b);
        assert(0 <= x / b <= one_precise());
    }
}

/// An update of interest and price keeps the books of a pool sound: the
/// loan units stay, the debt does not shrink, and the loan unit ratio does
/// not rise. Contributions and redemptions leave the books alone, so with
/// nothing but updates between them a loan unit stands for at least as
/// much principal afterwards as before.
pub proof fn lemma_update_keeps_accounts_sound(
    pool: LendingPoolState,
    now: i64,
    price_feed_result: Option<PriceInfo>,
    available: int,
    borrowed: int,
)
    requires
        pool.accounts_sound(),
        pool.spec_update_interest_and_price(now, price_feed_result, available, borrowed).is_ok(),
    ensures
        ({
            let after = pool.spec_update_interest_and_price(
                now,
                price_feed_result,
                available,
                borrowed,
            )->Ok_0.0;
            &&& after.accounts_sound()
            &&& after.total_loan_unit == pool.total_loan_unit
            &&& after.total_loan@ >= pool.total_loan@
            &&& pool.spec_ratio().is_ok()
            &&& after.spec_ratio().is_ok()
            &&& after.spec_ratio()->Ok_0 <= pool.spec_ratio()->Ok_0
            &&& after.spec_ratio()->Ok_0 <= one_precise()
        }),
{
    lemma_sound_accounts_have_a_ratio(pool);
    if pool.spec_update_due(now) {
        let (rate, factor) = pool.spec_growth(now, available, borrowed)->Ok_0;
        let price = if pool.spec_price_due(now) {
            price_feed_result
        } else {
            None
        };
        lemma_accrual_lowers_ratio(pool, now, price, dec_of(rate), dec_of(factor));
    }
}

/// Interest accrual never raises the loan unit ratio: the debt grows, the
/// loan units stay, so each unit stands for at least as much principal as
/// before.
pub proof fn lemma_accrual_lowers_ratio(
    pool: LendingPoolState,
    now: i64,
    price: Option<PriceInfo>,
    rate: Decimal,
    factor: Decimal,
)
    requires
        pool.accounts_sound(),
        pool.spec_apply_accrual(now, price, rate, factor).is_ok(),
    ensures
        ({
            let after = pool.spec_apply_accrual(now, price, rate, factor)->Ok_0.0;
            &&& after.accounts_sound()
            &&& after.total_loan@ >= pool.total_loan@
            &&& after.total_loan_unit == pool.total_loan_unit
            &&& after.spec_ratio().is_ok()
            &&& after.spec_ratio()->Ok_0 <= pool.spec_ratio()->Ok_0
        }),
{
    lemma_sound_accounts_have_a_ratio(pool);
    let after = pool.spec_apply_accrual(now, price, rate, factor)->Ok_0.0;
    let (new_total, accrued, fees) = spec_accrual(
        pool.total_loan@,
        factor@,
        pool.pool_config.protocol_fee_rate@,
    )->Ok_0;
    lemma_dec_of_fits(new_total);
    assert(after.total_loan@ == new_total);
    let units = pool.total_loan_unit@;
    let before_loan = pool.total_loan@;
    if before_loan == 0 {
        assert(before_loan * factor@ == 0) by (nonlinear_arith)
            requires
                before_loan == 0,
        ;
        assert(new_total == 0);
    } else {
        let x = units * one_attos() * one_precise();
        let y = before_loan * one_attos();
        let z = new_total * one_attos();
        assert(x >= 0) by (nonlinear_arith)
            requires
                x == units * one_attos() * one_precise(),
                units >= 0,
                one_attos() > 0,
                one_precise() > 0,
        ;
        assert(1 <= y <= z) by (nonlinear_arith)
            requires
                y == before_loan * one_attos(),
                z == new_total * one_attos(),
                1 <= before_loan <= new_total,
                one_attos() >= 1,
        ;
        vstd::arithmetic::div_mod::lemma_div_is_ordered_by_denominator(x, y, z);
        vstd::arithmetic::div_mod::lemma_div_pos_is_pos(x, z);
        assert(trunc_div(x, y) == x / y);
        assert(trunc_div(x, z) == x / z);
    }
}

/// A loan keeps the loan units within the debt: at a ratio of at most one
/// the units of an amount are at most the amount.
pub proof fn lemma_borrow_keeps_units_within_debt(pool: LendingPoolState, amount: int)
    requires
        amount > 0,
        pool.accounts_sound(),
        pool.spec_after_loan_change(amount).is_ok(),
    ensures
        ({
            let after = pool.spec_after_loan_change(amount)->Ok_0.0;
            &&& after.accounts_sound()
            &&& after.total_loan@ == pool.total_loan@ + amount
        }),
{
    let (loan, unit_total, units) = spec_update_loan_unit(
        pool.total_loan@,
        pool.total_loan_unit@,
        amount,
    )->Ok_0;
    lemma_dec_of_fits(loan);
    lemma_dec_of_fits(unit_total);
    let ratio = spec_loan_unit_ratio(pool.total_loan_unit@, pool.total_loan@)->Ok_0;
    assert(ratio <= one_precise());
    let scaled = amount * one_attos();
    let p = spec_pmul(scaled, ratio).unwrap();
    if ratio >= 0 {
        assert(0 <= scaled * ratio <= scaled * one_precise()) by (nonlinear_arith)
            requires
                scaled >= 0,
                0 <= ratio <= one_precise(),
        ;
        vstd::arithmetic::div_mod::lemma_div_is_ordered(
            scaled * ratio,
            scaled * one_precise(),
            one_precise(),
        );
        vstd::arithmetic::div_mod::lemma_div_by_multiple(scaled, one_precise());
        assert(p <= scaled);
        vstd::arithmetic::div_mod::lemma_div_pos_is_pos(scaled * ratio, one_precise());
        assert(p >= 0);
        vstd::arithmetic::div_mod::lemma_div_is_ordered(p, scaled, one_attos());
        vstd::arithmetic::div_mod::lemma_div_by_multiple(amount, one_attos());
        assert(units <= amount);
    } else {
        assert(scaled * ratio <= 0) by (nonlinear_arith)
            requires
                scaled >= 0,
                ratio < 0,
        ;
        if scaled * ratio < 0 {
            vstd::arithmetic::div_mod::lemma_div_pos_is_pos(-(scaled * ratio), one_precise());
        }
        assert(p <= 0);
        if p < 0 {
            vstd::arithmetic::div_mod::lemma_div_pos_is_pos(-p, one_attos());
        }
        assert(units <= 0);
    }
}

/// In a liquidation the collateral value seized is the payment value times
/// one plus the bonus, up to rounding: the payment value times that factor
/// is at most the seized value and misses it by less than one subunit of
/// payment. The payment value is never more than what was requested.
pub proof fn lemma_seized_value_matches_payment(
    bonus_rate: int,
    price: int,
    collateral_units: int,
    unit_ratio: int,
    requested: int,
)
    requires
        bonus_rate >= 0,
        requested >= 0,
        spec_seizable(bonus_rate, price, collateral_units, unit_ratio, requested).is_some(),
        spec_seize_value(bonus_rate, price, collateral_units, unit_ratio, requested).unwrap() >= 0,
    ensures
        ({
            let value = spec_seize_value(bonus_rate, price, collateral_units, unit_ratio, requested).unwrap();
            let payment = spec_seizable(bonus_rate, price, collateral_units, unit_ratio,
                requested).unwrap().1;
            let factor = one_attos() + bonus_rate;
            &&& 0 <= payment <= requested
            &&& payment * factor <= value * one_attos() < (payment + 1) * factor
        }),
{
    let value = spec_seize_value(bonus_rate, price, collateral_units, unit_ratio, requested).unwrap();
    let payment = spec_seizable(bonus_rate, price, collateral_units, unit_ratio, requested).unwrap().1;
    let factor = one_attos() + bonus_rate;
    let x = value * one_attos();
    assert(x >= 0) by (nonlinear_arith)
        requires
            x == value * one_attos(),
            value >= 0,
            one_attos() > 0,
    ;
    assert(payment == x / factor);
    vstd::arithmetic::div_mod::lemma_fundamental_div_mod(x, factor);
    vstd::arithmetic::div_mod::lemma_mod_pos_bound(x, factor);
    vstd::arithmetic::div_mod::lemma_div_pos_is_pos(x, factor);
    assert(payment * factor <= x < (payment + 1) * factor) by (nonlinear_arith)
        requires
            x == factor * payment + x % factor,
            0 <= x % factor < factor,
    ;
    let wanted = spec_mul(factor, requested).unwrap();
    let y = factor * requested;
    assert(y >= 0) by (nonlinear_arith)
        requires
            y == factor * requested,
            factor > 0,
            requested >= 0,
    ;
    assert(wanted == y / one_attos());
    vstd::arithmetic::div_mod::lemma_fundamental_div_mod(y, one_attos());
    vstd::arithmetic::div_mod::lemma_mod_pos_bound(y, one_attos());
    assert(value <= wanted);
    assert(x <= y) by (nonlinear_arith)
        requires
            x == value * one_attos(),
            value <= wanted,
            y == one_attos() * wanted + y % one_attos(),
            0 <= y % one_attos(),
    ;
    vstd::arithmetic::div_mod::lemma_div_is_ordered(x, y, factor);
    vstd::arithmetic::div_mod::lemma_div_multiples_vanish(requested, factor);
}

} // verus!
