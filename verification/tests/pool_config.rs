use lending_market::decimal::Decimal;
use lending_market::pool_config::{PoolConfig, UpdatePoolConfigInput};

fn amount(text: &str) -> Decimal {
    let parsed = scrypto::math::Decimal::try_from(text).unwrap();
    let digits = parsed.attos().to_digits();
    Decimal { d0: digits[0], d1: digits[1], d2: digits[2] }
}

#[test]
fn test_check_valid_config() {
    let config = PoolConfig {
        protocol_fee_rate: amount("0.01"),
        flashloan_fee_rate: amount("0.005"),
        asset_type: 1,
        liquidation_bonus_rate: amount("0.05"),
        loan_close_factor: amount("0.5"),
        deposit_limit: Some(amount("100")),
        borrow_limit: Some(amount("1000")),
        utilization_limit: Some(amount("0.8")),
        protocol_flashloan_fee_rate: amount("0"),
        protocol_liquidation_fee_rate: amount("0"),
        interest_update_period: 1,
        price_update_period: 3600,
        price_expiration_period: 7200,
    };

    assert!(config.check().is_ok());
}

#[test]
fn test_check_invalid_lending_fee_rate() {
    let config = PoolConfig {
        protocol_fee_rate: amount("-0.01"),
        flashloan_fee_rate: amount("0.005"),
        asset_type: 1,
        liquidation_bonus_rate: amount("0.05"),
        loan_close_factor: amount("0.5"),
        deposit_limit: Some(amount("100")),
        borrow_limit: Some(amount("1000")),
        utilization_limit: Some(amount("0.8")),
        protocol_flashloan_fee_rate: amount("0"),
        protocol_liquidation_fee_rate: amount("0"),
        interest_update_period: 1,
        price_update_period: 3600,
        price_expiration_period: 7200,
    };

    assert!(config.check().is_err());
}

#[test]
fn test_check_invalid_flashloan_fee_rate() {
    let config = PoolConfig {
        protocol_fee_rate: amount("0.01"),
        flashloan_fee_rate: amount("-0.005"),
        asset_type: 1,
        liquidation_bonus_rate: amount("0.05"),
        loan_close_factor: amount("0.5"),
        deposit_limit: Some(amount("100")),
        borrow_limit: Some(amount("1000")),
        utilization_limit: Some(amount("0.8")),
        protocol_flashloan_fee_rate: amount("0"),
        protocol_liquidation_fee_rate: amount("0"),
        interest_update_period: 1,
        price_update_period: 3600,
        price_expiration_period: 7200,
    };

    assert!(config.check().is_err());
}

#[test]
fn test_check_invalid_deposit_limit() {
    let config = PoolConfig {
        protocol_fee_rate: amount("0.01"),
        flashloan_fee_rate: amount("0.005"),
        asset_type: 1,
        liquidation_bonus_rate: amount("0.05"),
        loan_close_factor: amount("0.5"),
        deposit_limit: Some(amount("-100")),
        borrow_limit: Some(amount("1000")),
        utilization_limit: Some(amount("0.8")),
        protocol_flashloan_fee_rate: amount("0"),
        protocol_liquidation_fee_rate: amount("0"),
        interest_update_period: 1,
        price_update_period: 3600,
        price_expiration_period: 7200,
    };

    assert!(config.check().is_err());
}

#[test]
fn test_check_invalid_borrow_limit() {
    let config = PoolConfig {
        protocol_fee_rate: amount("0.01"),
        flashloan_fee_rate: amount("0.005"),
        asset_type: 1,
        liquidation_bonus_rate: amount("0.05"),
        loan_close_factor: amount("0.5"),
        deposit_limit: Some(amount("100")),
        borrow_limit: Some(amount("-1000")),
        utilization_limit: Some(amount("0.8")),
        protocol_flashloan_fee_rate: amount("0"),
        protocol_liquidation_fee_rate: amount("0"),
        interest_update_period: 1,
        price_update_period: 3600,
        price_expiration_period: 7200,
    };

    assert!(config.check().is_err());
}

#[test]
fn test_check_invalid_utilization_limit() {
    let config = PoolConfig {
        protocol_fee_rate: amount("0.01"),
        flashloan_fee_rate: amount("0.005"),
        asset_type: 1,
        liquidation_bonus_rate: amount("0.05"),
        loan_close_factor: amount("0.5"),
        deposit_limit: Some(amount("100")),
        borrow_limit: Some(amount("1000")),
        utilization_limit: Some(amount("-0.8")),
        protocol_flashloan_fee_rate: amount("0"),
        protocol_liquidation_fee_rate: amount("0"),
        interest_update_period: 1,
        price_update_period: 3600,
        price_expiration_period: 7200,
    };

    assert!(config.check().is_err());
}

#[test]
fn test_check_invalid_liquidation_bonus_rate() {
    let config = PoolConfig {
        protocol_fee_rate: amount("0.01"),
        flashloan_fee_rate: amount("0.005"),
        asset_type: 1,
        liquidation_bonus_rate: amount("-0.05"),
        loan_close_factor: amount("0.5"),
        deposit_limit: Some(amount("100")),
        borrow_limit: Some(amount("1000")),
        utilization_limit: Some(amount("0.8")),
        protocol_flashloan_fee_rate: amount("0"),
        protocol_liquidation_fee_rate: amount("0"),
        interest_update_period: 1,
        price_update_period: 3600,
        price_expiration_period: 7200,
    };

    assert!(config.check().is_err());
}

#[test]
fn test_check_invalid_loan_close_factor() {
    let config = PoolConfig {
        protocol_fee_rate: amount("0.01"),
        flashloan_fee_rate: amount("0.005"),
        asset_type: 1,
        liquidation_bonus_rate: amount("0.05"),
        loan_close_factor: amount("-0.5"),
        deposit_limit: Some(amount("100")),
        borrow_limit: Some(amount("1000")),
        utilization_limit: Some(amount("0.8")),
        protocol_flashloan_fee_rate: amount("0"),
        protocol_liquidation_fee_rate: amount("0"),
        interest_update_period: 1,
        price_update_period: 3600,
        price_expiration_period: 7200,
    };

    assert!(config.check().is_err());
}

#[test]
fn test_check_invalid_price_update_period() {
    let config = PoolConfig {
        protocol_fee_rate: amount("0.01"),
        flashloan_fee_rate: amount("0.005"),
        asset_type: 1,
        liquidation_bonus_rate: amount("0.05"),
        loan_close_factor: amount("0.5"),
        deposit_limit: Some(amount("100")),
        borrow_limit: Some(amount("1000")),
        utilization_limit: Some(amount("0.8")),
        protocol_flashloan_fee_rate: amount("0"),
        protocol_liquidation_fee_rate: amount("0"),
        interest_update_period: 1,
        price_update_period: -3600,
        price_expiration_period: 7200,
    };

    assert!(config.check().is_err());
}

#[test]
fn test_update_config_valid_input() {
    let mut config = PoolConfig {
        protocol_fee_rate: amount("0.01"),
        flashloan_fee_rate: amount("0.005"),
        asset_type: 1,
        liquidation_bonus_rate: amount("0.05"),
        loan_close_factor: amount("0.5"),
        deposit_limit: Some(amount("100")),
        borrow_limit: Some(amount("1000")),
        utilization_limit: Some(amount("0.8")),
        protocol_flashloan_fee_rate: amount("0"),
        protocol_liquidation_fee_rate: amount("0"),
        interest_update_period: 1,
        price_update_period: 3600,
        price_expiration_period: 7200,
    };

    let input = UpdatePoolConfigInput::ProtocolFeeRate(amount("0.02"));
    assert!(config.update(input).is_ok());
    assert_eq!(config.protocol_fee_rate, amount("0.02"));
}

#[test]
fn test_update_config_invalid_input() {
    let mut config = PoolConfig {
        protocol_fee_rate: amount("0.01"),
        flashloan_fee_rate: amount("0.005"),
        asset_type: 1,
        liquidation_bonus_rate: amount("0.05"),
        loan_close_factor: amount("0.5"),
        deposit_limit: Some(amount("100")),
        borrow_limit: Some(amount("1000")),
        utilization_limit: Some(amount("0.8")),
        protocol_flashloan_fee_rate: amount("0"),
        protocol_liquidation_fee_rate: amount("0"),
        interest_update_period: 1,
        price_update_period: 3600,
        price_expiration_period: 7200,
    };

    let input = UpdatePoolConfigInput::ProtocolFeeRate(amount("-0.01"));
    assert!(config.update(input).is_err());
    assert_eq!(config.protocol_fee_rate, amount("0.01"));
}
