//! The validated parameters of one lending pool.

use crate::decimal::Decimal;
use crate::utils::{err_text, is_valid_rate, message, spec_is_valid_rate};
use vstd::prelude::*;

verus! {

/// One change of one parameter.
#[derive(Clone, Copy, Debug, PartialEq, Eq, Structural)]
pub enum UpdatePoolConfigInput {
    ProtocolFeeRate(Decimal),
    FlashloanFeeRate(Decimal),
    ProtocolFlashloanFeeRate(Decimal),
    ProtocolLiquidationFeeRate(Decimal),
    DepositLimit(Option<Decimal>),
    BorrowLimit(Option<Decimal>),
    UtilizationLimit(Option<Decimal>),
    AssetType(u8),
    LiquidationBonusRate(Decimal),
    LoanCloseFactor(Decimal),
    InterestUpdatePeriod(i64),
    PriceUpdatePeriod(i64),
    PriceExpirationPeriod(i64),
}

/// A current figure to hold against the limit of its kind.
#[derive(Clone, Copy, Debug, PartialEq, Eq, Structural)]
pub enum CheckPoolConfigLimitInput {
    DepositLimit(Decimal),
    BorrowLimit(Decimal),
    UtilizationLimit(Decimal),
}

/// The parameters of a pool. Rates are fractions of one.
#[derive(Clone, Copy, Debug, PartialEq, Eq, Structural)]
pub struct PoolConfig {
    /// Share of the accrued interest that goes to the reserve.
    pub protocol_fee_rate: Decimal,
    /// Fee on a flash loan, as a share of the amount lent.
    pub flashloan_fee_rate: Decimal,
    /// Share of a flash loan fee that goes to the reserve.
    pub protocol_flashloan_fee_rate: Decimal,
    /// Share of seized collateral that goes to the reserve.
    pub protocol_liquidation_fee_rate: Decimal,
    pub asset_type: u8,
    /// Discount on seized collateral.
    pub liquidation_bonus_rate: Decimal,
    /// Largest share of a loan that one liquidation may repay.
    pub loan_close_factor: Decimal,
    pub deposit_limit: Option<Decimal>,
    pub borrow_limit: Option<Decimal>,
    pub utilization_limit: Option<Decimal>,
    pub interest_update_period: i64,
    pub price_update_period: i64,
    pub price_expiration_period: i64,
}

pub open spec fn err_protocol_fee_rate() -> Seq<char> {
    "Lending fee rate must be between 0 and 1"@
}

pub open spec fn err_flashloan_fee_rate() -> Seq<char> {
    "Flashloan fee rate must be between 0 and 1"@
}

pub open spec fn err_protocol_flashloan_fee_rate() -> Seq<char> {
    "Protocol flashloan fee rate must be between 0 and 1"@
}

pub open spec fn err_protocol_liquidation_fee_rate() -> Seq<char> {
    "Protocol liquidation fee rate must be between 0 and 1"@
}

pub open spec fn err_deposit_limit() -> Seq<char> {
    "Deposit limit must be positive"@
}

pub open spec fn err_borrow_limit() -> Seq<char> {
    "Borrow limit must be positive"@
}

pub open spec fn err_utilization_limit() -> Seq<char> {
    "Utilization limit must be between 0 and 1"@
}

pub open spec fn err_liquidation_bonus_rate() -> Seq<char> {
    "Liquidation bonus rate must be between 0 and 1"@
}

pub open spec fn err_loan_close_factor() -> Seq<char> {
    "Loan close factor must be between 0 and 1"@
}

pub open spec fn err_price_update_period() -> Seq<char> {
    "Price update period must be greater than 0"@
}

pub open spec fn err_price_expiration_period() -> Seq<char> {
    "Price expiration period must be greater than 0"@
}

pub open spec fn err_price_periods_order() -> Seq<char> {
    "Price expiration period must be greater than price update period"@
}

pub open spec fn err_interest_update_period() -> Seq<char> {
    "Interest update period must be greater than 0"@
}

pub open spec fn err_deposit_limit_reached() -> Seq<char> {
    "Deposit limit reached. Please try again with a smaller amount."@
}

pub open spec fn err_borrow_limit_reached() -> Seq<char> {
    "Borrow limit reached. Please try again with a smaller amount."@
}

pub open spec fn err_utilization_limit_reached() -> Seq<char> {
    "Utilization limit reached. Please try again with a smaller amount."@
}

/// Whether an optional limit is absent or not negative.
pub open spec fn limit_not_negative(limit: Option<Decimal>) -> bool {
    match limit {
        Some(l) => l@ >= 0,
        None => true,
    }
}

/// Whether an optional limit is absent or a rate.
pub open spec fn limit_is_rate(limit: Option<Decimal>) -> bool {
    match limit {
        Some(l) => spec_is_valid_rate(l@),
        None => true,
    }
}

impl PoolConfig {
    /// Every rate lies in `[0, 1]`, no limit is negative, every period is
    /// positive and a price expires later than it is refreshed.
    pub open spec fn valid(self) -> bool {
        &&& spec_is_valid_rate(self.protocol_fee_rate@)
        &&& spec_is_valid_rate(self.flashloan_fee_rate@)
        &&& spec_is_valid_rate(self.protocol_flashloan_fee_rate@)
        &&& spec_is_valid_rate(self.protocol_liquidation_fee_rate@)
        &&& limit_not_negative(self.deposit_limit)
        &&& limit_not_negative(self.borrow_limit)
        &&& limit_is_rate(self.utilization_limit)
        &&& spec_is_valid_rate(self.liquidation_bonus_rate@)
        &&& spec_is_valid_rate(self.loan_close_factor@)
        &&& self.price_update_period > 0
        &&& self.price_expiration_period > self.price_update_period
        &&& self.interest_update_period > 0
    }

    /// The complaint about the first parameter out of range, if any.
    pub open spec fn spec_check(self) -> Option<Seq<char>> {
        if !spec_is_valid_rate(self.protocol_fee_rate@) {
            Some(err_protocol_fee_rate())
        } else if !spec_is_valid_rate(self.flashloan_fee_rate@) {
            Some(err_flashloan_fee_rate())
        } else if !spec_is_valid_rate(self.protocol_flashloan_fee_rate@) {
            Some(err_protocol_flashloan_fee_rate())
        } else if !spec_is_valid_rate(self.protocol_liquidation_fee_rate@) {
            Some(err_protocol_liquidation_fee_rate())
        } else if !limit_not_negative(self.deposit_limit) {
            Some(err_deposit_limit())
        } else if !limit_not_negative(self.borrow_limit) {
            Some(err_borrow_limit())
        } else if !limit_is_rate(self.utilization_limit) {
            Some(err_utilization_limit())
        } else if !spec_is_valid_rate(self.liquidation_bonus_rate@) {
            Some(err_liquidation_bonus_rate())
        } else if !spec_is_valid_rate(self.loan_close_factor@) {
            Some(err_loan_close_factor())
        } else if self.price_update_period <= 0 {
            Some(err_price_update_period())
        } else if self.price_expiration_period <= 0 {
            Some(err_price_expiration_period())
        } else if self.price_expiration_period <= self.price_update_period {
            Some(err_price_periods_order())
        } else if self.interest_update_period <= 0 {
            Some(err_interest_update_period())
        } else {
            None
        }
    }

    /// The configuration after a change, or the complaint that refuses it.
    pub open spec fn spec_update(self, input: UpdatePoolConfigInput) -> Result<PoolConfig, Seq<char>> {
        match input {
            UpdatePoolConfigInput::DepositLimit(limit) => if limit_not_negative(limit) {
                Ok(PoolConfig { deposit_limit: limit, ..self })
            } else {
                Err(err_deposit_limit())
            },
            UpdatePoolConfigInput::BorrowLimit(limit) => if limit_not_negative(limit) {
                Ok(PoolConfig { borrow_limit: limit, ..self })
            } else {
                Err(err_borrow_limit())
            },
            UpdatePoolConfigInput::UtilizationLimit(limit) => if limit_is_rate(limit) {
                Ok(PoolConfig { utilization_limit: limit, ..self })
            } else {
                Err(err_utilization_limit())
            },
            UpdatePoolConfigInput::FlashloanFeeRate(rate) => if spec_is_valid_rate(rate@) {
                Ok(PoolConfig { flashloan_fee_rate: rate, ..self })
            } else {
                Err(err_flashloan_fee_rate())
            },
            UpdatePoolConfigInput::ProtocolFeeRate(rate) => if spec_is_valid_rate(rate@) {
                Ok(PoolConfig { protocol_fee_rate: rate, ..self })
            } else {
                Err(err_protocol_fee_rate())
            },
            UpdatePoolConfigInput::ProtocolFlashloanFeeRate(rate) => if spec_is_valid_rate(rate@) {
                Ok(PoolConfig { protocol_flashloan_fee_rate: rate, ..self })
            } else {
                Err(err_protocol_flashloan_fee_rate())
            },
            UpdatePoolConfigInput::ProtocolLiquidationFeeRate(rate) => if spec_is_valid_rate(rate@) {
                Ok(PoolConfig { protocol_liquidation_fee_rate: rate, ..self })
            } else {
                Err(err_protocol_liquidation_fee_rate())
            },
            UpdatePoolConfigInput::LiquidationBonusRate(rate) => if spec_is_valid_rate(rate@) {
                Ok(PoolConfig { liquidation_bonus_rate: rate, ..self })
            } else {
                Err(err_liquidation_bonus_rate())
            },
            UpdatePoolConfigInput::LoanCloseFactor(rate) => if spec_is_valid_rate(rate@) {
                Ok(PoolConfig { loan_close_factor: rate, ..self })
            } else {
                Err(err_loan_close_factor())
            },
            UpdatePoolConfigInput::AssetType(asset_type) => Ok(PoolConfig { asset_type, ..self }),
            UpdatePoolConfigInput::InterestUpdatePeriod(period) => if period > 0 {
                Ok(PoolConfig { interest_update_period: period, ..self })
            } else {
                Err(err_interest_update_period())
            },
            UpdatePoolConfigInput::PriceUpdatePeriod(period) => if period <= 0 {
                Err(err_price_update_period())
            } else if self.price_expiration_period <= period {
                Err(err_price_periods_order())
            } else {
                Ok(PoolConfig { price_update_period: period, ..self })
            },
            UpdatePoolConfigInput::PriceExpirationPeriod(period) => if period <= 0 {
                Err(err_price_expiration_period())
            } else if period <= self.price_update_period {
                Err(err_price_periods_order())
            } else {
                Ok(PoolConfig { price_expiration_period: period, ..self })
            },
        }
    }

    /// The complaint about a figure above its limit, if the limit is set and
    /// exceeded.
    pub open spec fn spec_check_limit(self, input: CheckPoolConfigLimitInput) -> Option<Seq<char>> {
        match input {
            CheckPoolConfigLimitInput::DepositLimit(current) => match self.deposit_limit {
                Some(limit) if current@ > limit@ => Some(err_deposit_limit_reached()),
                _ => None,
            },
            CheckPoolConfigLimitInput::BorrowLimit(current) => match self.borrow_limit {
                Some(limit) if current@ > limit@ => Some(err_borrow_limit_reached()),
                _ => None,
            },
            CheckPoolConfigLimitInput::UtilizationLimit(current) => match self.utilization_limit {
                Some(limit) if current@ > limit@ => Some(err_utilization_limit_reached()),
                _ => None,
            },
        }
    }

    /// Validates every parameter, reporting the first one out of range.
    pub fn check(&self) -> (r: Result<(), String>)
        ensures
            err_text(r) == self.spec_check(),
            r.is_ok() <==> self.valid(),
    {
        if !is_valid_rate(self.protocol_fee_rate) {
            return Err(message("Lending fee rate must be between 0 and 1"));
        }
        if !is_valid_rate(self.flashloan_fee_rate) {
            return Err(message("Flashloan fee rate must be between 0 and 1"));
        }
        if !is_valid_rate(self.protocol_flashloan_fee_rate) {
            return Err(message("Protocol flashloan fee rate must be between 0 and 1"));
        }
        if !is_valid_rate(self.protocol_liquidation_fee_rate) {
            return Err(message("Protocol liquidation fee rate must be between 0 and 1"));
        }
        if !limit_is_not_negative(self.deposit_limit) {
            return Err(message("Deposit limit must be positive"));
        }
        if !limit_is_not_negative(self.borrow_limit) {
            return Err(message("Borrow limit must be positive"));
        }
        if !limit_is_valid_rate(self.utilization_limit) {
            return Err(message("Utilization limit must be between 0 and 1"));
        }
        if !is_valid_rate(self.liquidation_bonus_rate) {
            return Err(message("Liquidation bonus rate must be between 0 and 1"));
        }
        if !is_valid_rate(self.loan_close_factor) {
            return Err(message("Loan close factor must be between 0 and 1"));
        }
        if self.price_update_period <= 0 {
            return Err(message("Price update period must be greater than 0"));
        }
        if self.price_expiration_period <= 0 {
            return Err(message("Price expiration period must be greater than 0"));
        }
        if self.price_expiration_period <= self.price_update_period {
            return Err(message("Price expiration period must be greater than price update period"));
        }
        if self.interest_update_period <= 0 {
            return Err(message("Interest update period must be greater than 0"));
        }
        Ok(())
    }

    /// Applies one change if the changed configuration is still in range;
    /// otherwise leaves the configuration as it was and says why.
    pub fn update(&mut self, pool_config_input: UpdatePoolConfigInput) -> (r: Result<(), String>)
        ensures
            match old(self).spec_update(pool_config_input) {
                Ok(c) => r.is_ok() && *final(self) == c,
                Err(e) => err_text(r) == Some(e) && *final(self) == *old(self),
            },
    {
        match pool_config_input {
            UpdatePoolConfigInput::DepositLimit(deposit_limit) => {
                if !limit_is_not_negative(deposit_limit) {
                    return Err(message("Deposit limit must be positive"));
                }
                self.deposit_limit = deposit_limit;
            },
            UpdatePoolConfigInput::BorrowLimit(borrow_limit) => {
                if !limit_is_not_negative(borrow_limit) {
                    return Err(message("Borrow limit must be positive"));
                }
                self.borrow_limit = borrow_limit;
            },
            UpdatePoolConfigInput::UtilizationLimit(utilization_limit) => {
                if !limit_is_valid_rate(utilization_limit) {
                    return Err(message("Utilization limit must be between 0 and 1"));
                }
                self.utilization_limit = utilization_limit;
            },
            UpdatePoolConfigInput::FlashloanFeeRate(flashloan_fee_rate) => {
                if !is_valid_rate(flashloan_fee_rate) {
                    return Err(message("Flashloan fee rate must be between 0 and 1"));
                }
                self.flashloan_fee_rate = flashloan_fee_rate;
            },
            UpdatePoolConfigInput::ProtocolFeeRate(protocol_fee_rate) => {
                if !is_valid_rate(protocol_fee_rate) {
                    return Err(message("Lending fee rate must be between 0 and 1"));
                }
                self.protocol_fee_rate = protocol_fee_rate;
            },
            UpdatePoolConfigInput::ProtocolFlashloanFeeRate(rate) => {
                if !is_valid_rate(rate) {
                    return Err(message("Protocol flashloan fee rate must be between 0 and 1"));
                }
                self.protocol_flashloan_fee_rate = rate;
            },
            UpdatePoolConfigInput::ProtocolLiquidationFeeRate(rate) => {
                if !is_valid_rate(rate) {
                    return Err(message("Protocol liquidation fee rate must be between 0 and 1"));
                }
                self.protocol_liquidation_fee_rate = rate;
            },
            UpdatePoolConfigInput::LiquidationBonusRate(liquidation_bonus_rate) => {
                if !is_valid_rate(liquidation_bonus_rate) {
                    return Err(message("Liquidation bonus rate must be between 0 and 1"));
                }
                self.liquidation_bonus_rate = liquidation_bonus_rate;
            },
            UpdatePoolConfigInput::LoanCloseFactor(loan_close_factor) => {
                if !is_valid_rate(loan_close_factor) {
                    return Err(message("Loan close factor must be between 0 and 1"));
                }
                self.loan_close_factor = loan_close_factor;
            },
            UpdatePoolConfigInput::AssetType(asset_type) => {
                self.asset_type = asset_type;
            },
            UpdatePoolConfigInput::InterestUpdatePeriod(interest_update_period) => {
                if interest_update_period <= 0 {
                    return Err(message("Interest update period must be greater than 0"));
                }
                self.interest_update_period = interest_update_period;
            },
            UpdatePoolConfigInput::PriceUpdatePeriod(price_update_period) => {
                if price_update_period <= 0 {
                    return Err(message("Price update period must be greater than 0"));
                }
                if self.price_expiration_period <= price_update_period {
                    return Err(
                        message("Price expiration period must be greater than price update period"),
                    );
                }
                self.price_update_period = price_update_period;
            },
            UpdatePoolConfigInput::PriceExpirationPeriod(price_expiration_period) => {
                if price_expiration_period <= 0 {
                    return Err(message("Price expiration period must be greater than 0"));
                }
                if price_expiration_period <= self.price_update_period {
                    return Err(
                        message("Price expiration period must be greater than price update period"),
                    );
                }
                self.price_expiration_period = price_expiration_period;
            },
        };
        Ok(())
    }

    /// Fails if the limit of the input's kind is set and the figure exceeds
    /// it.
    pub fn check_limit(&self, input: CheckPoolConfigLimitInput) -> (r: Result<(), String>)
        ensures
            err_text(r) == self.spec_check_limit(input),
    {
        match input {
            CheckPoolConfigLimitInput::DepositLimit(current_deposit) => {
                if let Some(limit) = self.deposit_limit {
                    if current_deposit.gt(limit) {
                        return Err(
                            message("Deposit limit reached. Please try again with a smaller amount."),
                        );
                    }
                }
            },
            CheckPoolConfigLimitInput::BorrowLimit(current_borrow) => {
                if let Some(limit) = self.borrow_limit {
                    if current_borrow.gt(limit) {
                        return Err(
                            message("Borrow limit reached. Please try again with a smaller amount."),
                        );
                    }
                }
            },
            CheckPoolConfigLimitInput::UtilizationLimit(current_utilization) => {
                if let Some(limit) = self.utilization_limit {
                    if current_utilization.gt(limit) {
                        return Err(
                            message(
                                "Utilization limit reached. Please try again with a smaller amount.",
                            ),
                        );
                    }
                }
            },
        };
        Ok(())
    }
}

/// Whether an optional limit is absent or not negative.
pub fn limit_is_not_negative(limit: Option<Decimal>) -> (r: bool)
    ensures
        r == limit_not_negative(limit),
{
    match limit {
        Some(l) => l.ge(Decimal::zero()),
        None => true,
    }
}

/// Whether an optional limit is absent or a rate.
pub fn limit_is_valid_rate(limit: Option<Decimal>) -> (r: bool)
    ensures
        r == limit_is_rate(limit),
{
    match limit {
        Some(l) => is_valid_rate(l),
        None => true,
    }
}

/// A change that is accepted keeps a valid configuration valid.
pub proof fn lemma_update_preserves_valid(config: PoolConfig, input: UpdatePoolConfigInput)
    requires
        config.valid(),
    ensures
        match config.spec_update(input) {
            Ok(c) => c.valid(),
            Err(_) => true,
        },
{
}

/// A configuration passes the check exactly when it is valid.
pub proof fn lemma_check_matches_valid(config: PoolConfig)
    ensures
        config.spec_check().is_none() <==> config.valid(),
{
}

} // verus!
