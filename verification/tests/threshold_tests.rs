use lending_market::decimal::Decimal;
use lending_market::liquidation_threshold::{
    pair_key, LiquidationThreshold, UpdateLiquidationThresholdInput,
};
use lending_market::ratio_table::RatioTable;
use lending_market::utils::ResourceAddress;

fn t(text: &str) -> Decimal {
    let parsed = scrypto::math::Decimal::try_from(text).unwrap();
    let digits = parsed.attos().to_digits();
    Decimal { d0: digits[0], d1: digits[1], d2: digits[2] }
}

fn asset(n: u128) -> ResourceAddress {
    ResourceAddress { hi: 0, lo: n }
}

#[test]
fn ratio_table_stores_replaces_and_removes() {
    let mut table = RatioTable::new();
    assert_eq!(table.get(3), None);
    table.set(3, t("0.5"));
    table.set(4, t("0.6"));
    assert_eq!(table.get(3), Some(t("0.5")));
    table.set(3, t("0.7"));
    assert_eq!(table.get(3), Some(t("0.7")));
    assert_eq!(table.get(4), Some(t("0.6")));
    table.remove(3);
    assert_eq!(table.get(3), None);
    assert_eq!(table.get(4), Some(t("0.6")));
    table.remove(9);
    assert_eq!(table.get(4), Some(t("0.6")));
    assert!(table.all_rates_valid());
    table.set(5, t("1.5"));
    assert!(!table.all_rates_valid());
    let copy = table.clone();
    assert_eq!(copy.get(5), Some(t("1.5")));
    let rows: Vec<(u16, Decimal)> = copy.entries().iter().map(|row| (row.key, row.ratio)).collect();
    assert_eq!(rows, vec![(4, t("0.6")), (5, t("1.5"))]);
}

#[test]
fn pair_key_separates_the_two_types() {
    assert_eq!(pair_key(0, 0), 0);
    assert_eq!(pair_key(1, 2), 258);
    assert_eq!(pair_key(2, 1), 513);
    assert_eq!(pair_key(255, 255), 65535);
}

#[test]
fn default_ratio_applies_without_overrides() {
    let threshold = LiquidationThreshold::new(t("0.7"));
    assert_eq!(threshold.get_ratio(asset(1), 0, asset(2), 1), t("0.7"));
    assert!(threshold.check().is_ok());
}

#[test]
fn most_specific_override_wins() {
    let mut threshold = LiquidationThreshold::new(t("0.5"));
    threshold
        .update_liquidation_threshold(UpdateLiquidationThresholdInput::CollateralAssetType(1, Some(t("0.6"))))
        .unwrap();
    assert_eq!(threshold.get_ratio(asset(1), 1, asset(2), 2), t("0.6"));
    assert_eq!(threshold.get_ratio(asset(1), 3, asset(2), 2), t("0.5"));
    threshold
        .update_liquidation_threshold(UpdateLiquidationThresholdInput::LoanAssetType(2, Some(t("0.7"))))
        .unwrap();
    assert_eq!(threshold.get_ratio(asset(1), 1, asset(2), 2), t("0.7"));
    assert_eq!(threshold.get_ratio(asset(1), 1, asset(2), 9), t("0.6"));
    threshold
        .update_liquidation_threshold(UpdateLiquidationThresholdInput::AssetTypePair(1, 2, Some(t("0.9"))))
        .unwrap();
    assert_eq!(threshold.get_ratio(asset(1), 1, asset(2), 2), t("0.9"));
    assert_eq!(threshold.get_ratio(asset(1), 2, asset(2), 1), t("0.5"));
    assert_eq!(threshold.get_ratio(asset(1), 3, asset(2), 2), t("0.7"));
}

#[test]
fn removing_an_override_falls_back() {
    let mut threshold = LiquidationThreshold::new(t("0.5"));
    threshold
        .update_liquidation_threshold(UpdateLiquidationThresholdInput::AssetTypePair(1, 2, Some(t("0.9"))))
        .unwrap();
    threshold
        .update_liquidation_threshold(UpdateLiquidationThresholdInput::LoanAssetType(2, Some(t("0.7"))))
        .unwrap();
    threshold
        .update_liquidation_threshold(UpdateLiquidationThresholdInput::AssetTypePair(1, 2, None))
        .unwrap();
    assert_eq!(threshold.get_ratio(asset(1), 1, asset(2), 2), t("0.7"));
    threshold
        .update_liquidation_threshold(UpdateLiquidationThresholdInput::LoanAssetType(2, None))
        .unwrap();
    assert_eq!(threshold.get_ratio(asset(1), 1, asset(2), 2), t("0.5"));
    threshold
        .update_liquidation_threshold(UpdateLiquidationThresholdInput::DefaultValue(t("0.4")))
        .unwrap();
    assert_eq!(threshold.get_ratio(asset(1), 1, asset(2), 2), t("0.4"));
}

#[test]
fn ratio_out_of_range_is_refused() {
    let mut threshold = LiquidationThreshold::new(t("0.5"));
    let inputs = vec![
        UpdateLiquidationThresholdInput::DefaultValue(t("1.1")),
        UpdateLiquidationThresholdInput::CollateralAssetType(1, Some(t("-0.1"))),
        UpdateLiquidationThresholdInput::LoanAssetType(1, Some(t("2"))),
        UpdateLiquidationThresholdInput::AssetTypePair(1, 1, Some(t("1.000000000000000001"))),
    ];
    for input in inputs {
        assert_eq!(
            threshold.update_liquidation_threshold(input),
            Err("Liquidation threshold must be between 0 and 1".to_string())
        );
    }
    assert_eq!(threshold.get_ratio(asset(1), 1, asset(2), 1), t("0.5"));
    assert!(threshold.check().is_ok());
    let bad = LiquidationThreshold::new(t("1.5"));
    assert_eq!(bad.check(), Err("Liquidation threshold must be between 0 and 1".to_string()));
}

#[test]
fn clone_keeps_the_overrides() {
    let mut threshold = LiquidationThreshold::new(t("0.5"));
    threshold
        .update_liquidation_threshold(UpdateLiquidationThresholdInput::AssetTypePair(4, 5, Some(t("0.8"))))
        .unwrap();
    let copy = threshold.clone();
    assert_eq!(copy.get_ratio(asset(1), 4, asset(2), 5), t("0.8"));
    assert_eq!(copy.get_ratio(asset(1), 5, asset(2), 4), t("0.5"));
}
