use lending_market::decimal::Decimal;
use lending_market::market_config::{MarketConfig, UpdateMarketConfigInput};
use lending_market::pool_config::{CheckPoolConfigLimitInput, PoolConfig, UpdatePoolConfigInput};
use lending_market::utils::is_valid_rate;

fn c(text: &str) -> Decimal {
    let parsed = scrypto::math::Decimal::try_from(text).unwrap();
    let digits = parsed.attos().to_digits();
    Decimal { d0: digits[0], d1: digits[1], d2: digits[2] }
}

fn sample_config() -> PoolConfig {
    PoolConfig {
        protocol_fee_rate: c("0.1"),
        flashloan_fee_rate: c("0.005"),
        protocol_flashloan_fee_rate: c("0.2"),
        protocol_liquidation_fee_rate: c("0.01"),
        asset_type: 1,
        liquidation_bonus_rate: c("0.05"),
        loan_close_factor: c("0.5"),
        deposit_limit: Some(c("100")),
        borrow_limit: Some(c("1000")),
        utilization_limit: Some(c("0.8")),
        interest_update_period: 60,
        price_update_period: 5,
        price_expiration_period: 10,
    }
}

fn refusal(result: Result<(), String>) -> String {
    match result {
        Ok(()) => String::new(),
        Err(text) => text,
    }
}

#[test]
fn rate_is_valid_between_zero_and_one() {
    assert!(is_valid_rate(c("0")));
    assert!(is_valid_rate(c("1")));
    assert!(is_valid_rate(c("0.5")));
    assert!(!is_valid_rate(c("-0.000000000000000001")));
    assert!(!is_valid_rate(c("1.000000000000000001")));
}

#[test]
fn check_reports_the_first_parameter_out_of_range() {
    let mut config = sample_config();
    assert!(config.check().is_ok());
    config.price_expiration_period = 5;
    assert_eq!(
        refusal(config.check()),
        "Price expiration period must be greater than price update period"
    );
    config.interest_update_period = 0;
    assert_eq!(
        refusal(config.check()),
        "Price expiration period must be greater than price update period"
    );
    config.price_expiration_period = 6;
    assert_eq!(refusal(config.check()), "Interest update period must be greater than 0");
    config.loan_close_factor = c("1.5");
    assert_eq!(refusal(config.check()), "Loan close factor must be between 0 and 1");
    config.utilization_limit = Some(c("1.1"));
    assert_eq!(refusal(config.check()), "Utilization limit must be between 0 and 1");
    config.protocol_liquidation_fee_rate = c("2");
    assert_eq!(
        refusal(config.check()),
        "Protocol liquidation fee rate must be between 0 and 1"
    );
    config.protocol_flashloan_fee_rate = c("-1");
    assert_eq!(refusal(config.check()), "Protocol flashloan fee rate must be between 0 and 1");
    config.flashloan_fee_rate = c("7");
    assert_eq!(refusal(config.check()), "Flashloan fee rate must be between 0 and 1");
    config.protocol_fee_rate = c("-0.1");
    assert_eq!(refusal(config.check()), "Lending fee rate must be between 0 and 1");
}

#[test]
fn check_accepts_absent_limits() {
    let mut config = sample_config();
    config.deposit_limit = None;
    config.borrow_limit = None;
    config.utilization_limit = None;
    assert!(config.check().is_ok());
    config.price_update_period = 0;
    assert_eq!(refusal(config.check()), "Price update period must be greater than 0");
}

#[test]
fn update_changes_one_parameter() {
    let mut config = sample_config();
    assert!(config.update(UpdatePoolConfigInput::AssetType(7)).is_ok());
    assert!(config.update(UpdatePoolConfigInput::DepositLimit(None)).is_ok());
    assert!(config.update(UpdatePoolConfigInput::BorrowLimit(Some(c("5")))).is_ok());
    assert!(config.update(UpdatePoolConfigInput::UtilizationLimit(Some(c("1")))).is_ok());
    assert!(config.update(UpdatePoolConfigInput::FlashloanFeeRate(c("0.01"))).is_ok());
    assert!(config.update(UpdatePoolConfigInput::ProtocolFlashloanFeeRate(c("0.3"))).is_ok());
    assert!(config.update(UpdatePoolConfigInput::ProtocolLiquidationFeeRate(c("0.02"))).is_ok());
    assert!(config.update(UpdatePoolConfigInput::LiquidationBonusRate(c("0.1"))).is_ok());
    assert!(config.update(UpdatePoolConfigInput::LoanCloseFactor(c("1"))).is_ok());
    assert!(config.update(UpdatePoolConfigInput::InterestUpdatePeriod(30)).is_ok());
    assert!(config.update(UpdatePoolConfigInput::PriceUpdatePeriod(9)).is_ok());
    assert!(config.update(UpdatePoolConfigInput::PriceExpirationPeriod(100)).is_ok());
    let expected = PoolConfig {
        protocol_fee_rate: c("0.1"),
        flashloan_fee_rate: c("0.01"),
        protocol_flashloan_fee_rate: c("0.3"),
        protocol_liquidation_fee_rate: c("0.02"),
        asset_type: 7,
        liquidation_bonus_rate: c("0.1"),
        loan_close_factor: c("1"),
        deposit_limit: None,
        borrow_limit: Some(c("5")),
        utilization_limit: Some(c("1")),
        interest_update_period: 30,
        price_update_period: 9,
        price_expiration_period: 100,
    };
    assert_eq!(config, expected);
    assert!(config.check().is_ok());
}

#[test]
fn refused_update_changes_nothing() {
    let mut config = sample_config();
    let before = config;
    let attempts = vec![
        (UpdatePoolConfigInput::DepositLimit(Some(c("-1"))), "Deposit limit must be positive"),
        (UpdatePoolConfigInput::BorrowLimit(Some(c("-1"))), "Borrow limit must be positive"),
        (
            UpdatePoolConfigInput::UtilizationLimit(Some(c("-0.1"))),
            "Utilization limit must be between 0 and 1",
        ),
        (
            UpdatePoolConfigInput::UtilizationLimit(Some(c("1.5"))),
            "Utilization limit must be between 0 and 1",
        ),
        (
            UpdatePoolConfigInput::FlashloanFeeRate(c("2")),
            "Flashloan fee rate must be between 0 and 1",
        ),
        (
            UpdatePoolConfigInput::ProtocolFeeRate(c("-0.01")),
            "Lending fee rate must be between 0 and 1",
        ),
        (
            UpdatePoolConfigInput::LiquidationBonusRate(c("1.01")),
            "Liquidation bonus rate must be between 0 and 1",
        ),
        (
            UpdatePoolConfigInput::LoanCloseFactor(c("-1")),
            "Loan close factor must be between 0 and 1",
        ),
        (
            UpdatePoolConfigInput::InterestUpdatePeriod(0),
            "Interest update period must be greater than 0",
        ),
        (
            UpdatePoolConfigInput::PriceUpdatePeriod(0),
            "Price update period must be greater than 0",
        ),
        (
            UpdatePoolConfigInput::PriceUpdatePeriod(10),
            "Price expiration period must be greater than price update period",
        ),
        (
            UpdatePoolConfigInput::PriceExpirationPeriod(-3),
            "Price expiration period must be greater than 0",
        ),
        (
            UpdatePoolConfigInput::PriceExpirationPeriod(5),
            "Price expiration period must be greater than price update period",
        ),
    ];
    for (input, text) in attempts {
        assert_eq!(refusal(config.update(input)), text);
        assert_eq!(config, before);
    }
}

#[test]
fn limits_are_checked_only_when_set() {
    let mut config = sample_config();
    assert!(config.check_limit(CheckPoolConfigLimitInput::DepositLimit(c("100"))).is_ok());
    assert_eq!(
        refusal(config.check_limit(CheckPoolConfigLimitInput::DepositLimit(c("100.000000000000000001")))),
        "Deposit limit reached. Please try again with a smaller amount."
    );
    assert!(config.check_limit(CheckPoolConfigLimitInput::BorrowLimit(c("1000"))).is_ok());
    assert_eq!(
        refusal(config.check_limit(CheckPoolConfigLimitInput::BorrowLimit(c("1001")))),
        "Borrow limit reached. Please try again with a smaller amount."
    );
    assert!(config.check_limit(CheckPoolConfigLimitInput::UtilizationLimit(c("0.8"))).is_ok());
    assert_eq!(
        refusal(config.check_limit(CheckPoolConfigLimitInput::UtilizationLimit(c("0.81")))),
        "Utilization limit reached. Please try again with a smaller amount."
    );
    config.deposit_limit = None;
    config.borrow_limit = None;
    config.utilization_limit = None;
    assert!(config.check_limit(CheckPoolConfigLimitInput::DepositLimit(c("1000000"))).is_ok());
    assert!(config.check_limit(CheckPoolConfigLimitInput::BorrowLimit(c("1000000"))).is_ok());
    assert!(config.check_limit(CheckPoolConfigLimitInput::UtilizationLimit(c("1"))).is_ok());
}

#[test]
fn market_config_needs_a_positive_position_cap() {
    let mut config = MarketConfig { max_cdp_position: 10 };
    assert!(config.check().is_ok());
    assert_eq!(
        refusal(config.update(UpdateMarketConfigInput::MaxCDPPosition(0))),
        "Max CDP position must be greater than 0"
    );
    assert_eq!(config.max_cdp_position, 10);
    assert!(config.update(UpdateMarketConfigInput::MaxCDPPosition(3)).is_ok());
    assert_eq!(config.max_cdp_position, 3);
    assert!(MarketConfig { max_cdp_position: 0 }.check().is_err());
}
