use lending_market::cdp_health_checker::{
    ExtendedCollateralPositionData, ExtendedLoanPositionData, PositionData,
};
use lending_market::decimal::Decimal;
use lending_market::liquidation_threshold::LiquidationThreshold;
use lending_market::position_maps::{CollateralPositions, LoanPositions};
use lending_market::utils::ResourceAddress;

fn q(text: &str) -> Decimal {
    let parsed = scrypto::math::Decimal::try_from(text).unwrap();
    let digits = parsed.attos().to_digits();
    Decimal { d0: digits[0], d1: digits[1], d2: digits[2] }
}

fn asset(n: u128) -> ResourceAddress {
    ResourceAddress { hi: 0, lo: n }
}

fn loan_of(n: u128, units: &str) -> ExtendedLoanPositionData {
    ExtendedLoanPositionData {
        pool_res_address: asset(n),
        price: q("2"),
        asset_type: 1,
        loan_close_factor: q("0.5"),
        data: PositionData { units: q(units), ..PositionData::empty() },
        discounted_collateral_value: q("0"),
    }
}

fn collateral_of(n: u128, units: &str) -> ExtendedCollateralPositionData {
    ExtendedCollateralPositionData {
        pool_res_address: asset(n),
        price: q("3"),
        asset_type: 2,
        liquidation_threshold: LiquidationThreshold::new(q("0.7")),
        liquidation_bonus_rate: q("0.05"),
        protocol_liquidation_fee_rate: q("0.01"),
        data: PositionData { units: q(units), ..PositionData::empty() },
    }
}

#[test]
fn loan_positions_are_filed_by_asset_in_order() {
    let mut loans = LoanPositions::new();
    assert_eq!(loans.len(), 0);
    loans.push(loan_of(7, "10"));
    loans.push(loan_of(5, "20"));
    assert_eq!(loans.len(), 2);
    assert_eq!(loans.at(0), loan_of(7, "10"));
    assert_eq!(loans.at(1), loan_of(5, "20"));

    // A second position of an asset takes the place of the first.
    loans.push(loan_of(7, "11"));
    assert_eq!(loans.len(), 2);
    assert_eq!(loans.at(0), loan_of(7, "11"));
    assert_eq!(loans.at(1), loan_of(5, "20"));

    // A place keeps its asset, whatever the new position says.
    loans.set_at(1, loan_of(9, "21"));
    assert_eq!(loans.at(1), loan_of(5, "21"));
    assert_eq!(loans.at(0), loan_of(7, "11"));

    loans.set_all(&vec![loan_of(7, "1"), loan_of(5, "2")]);
    assert_eq!(loans.len(), 2);
    assert_eq!(loans.at(0), loan_of(7, "1"));
    assert_eq!(loans.at(1), loan_of(5, "2"));
}

#[test]
fn collateral_positions_are_filed_by_asset_in_order() {
    let mut collaterals = CollateralPositions::new();
    assert_eq!(collaterals.len(), 0);
    collaterals.push(collateral_of(4, "100"));
    collaterals.push(collateral_of(2, "200"));
    assert_eq!(collaterals.len(), 2);
    assert_eq!(collaterals.key_at(0), asset(4));
    assert_eq!(collaterals.key_at(1), asset(2));
    assert_eq!(collaterals.at(0).data.units, q("100"));
    assert_eq!(collaterals.at(1).data.units, q("200"));
    assert_eq!(collaterals.at(1).price, q("3"));

    collaterals.set_data(1, PositionData { units: q("250"), value: q("750"), ..PositionData::empty() });
    assert_eq!(collaterals.at(1).data.units, q("250"));
    assert_eq!(collaterals.at(1).data.value, q("750"));
    assert_eq!(collaterals.at(1).liquidation_bonus_rate, q("0.05"));
    assert_eq!(collaterals.key_at(1), asset(2));
    assert_eq!(collaterals.at(0).data.units, q("100"));

    collaterals.push(collateral_of(4, "101"));
    assert_eq!(collaterals.len(), 2);
    assert_eq!(collaterals.key_at(0), asset(4));
    assert_eq!(collaterals.at(0).data.units, q("101"));
}
