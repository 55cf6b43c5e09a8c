use lending_market::assets::{Bucket, Vault};
use lending_market::decimal::Decimal;
use lending_market::interest_strategy::{ISInputBreakPoint, InterestStrategy};
use lending_market::liquidation_threshold::{LiquidationThreshold, UpdateLiquidationThresholdInput};
use lending_market::operation_status::{OperatingService, OperatingStatus, OperatingStatusInput};
use lending_market::pool_config::{PoolConfig, UpdatePoolConfigInput};
use lending_market::pool_state::{find_pool, InterestUpdate, LendingPoolState};
use lending_market::precise_decimal::PreciseDecimal;
use lending_market::utils::{ComponentAddress, PriceInfo, ResourceAddress};

fn p(text: &str) -> Decimal {
    let parsed = scrypto::math::Decimal::try_from(text).unwrap();
    let digits = parsed.attos().to_digits();
    Decimal { d0: digits[0], d1: digits[1], d2: digits[2] }
}

fn precise(text: &str) -> PreciseDecimal {
    let parsed = scrypto::math::PreciseDecimal::try_from(text).unwrap();
    let digits = parsed.precise_subunits().to_digits();
    PreciseDecimal { d0: digits[0], d1: digits[1], d2: digits[2], d3: digits[3] }
}

fn coin() -> ResourceAddress {
    ResourceAddress { hi: 0, lo: 7 }
}

fn coin_units() -> ResourceAddress {
    ResourceAddress { hi: 1, lo: 7 }
}

fn pool(total_loan: &str, total_loan_unit: &str) -> LendingPoolState {
    let mut interest_strategy = InterestStrategy::new();
    interest_strategy.set_breakpoints(p("0.05256"), vec![]).unwrap();
    LendingPoolState {
        pool_res_address: coin(),
        price_feed_comp: ComponentAddress { hi: 9, lo: 9 },
        collaterals: Vault::new(coin_units()),
        reserve: Vault::new(coin()),
        last_price: p("2"),
        price_updated_at: 1000,
        total_loan: p(total_loan),
        total_loan_unit: p(total_loan_unit),
        interest_rate: p("0"),
        interest_updated_at: 1000,
        interest_strategy,
        liquidation_threshold: LiquidationThreshold::new(p("0.7")),
        pool_config: PoolConfig {
            protocol_fee_rate: p("0.1"),
            flashloan_fee_rate: p("0.005"),
            protocol_flashloan_fee_rate: p("0.2"),
            protocol_liquidation_fee_rate: p("0.01"),
            asset_type: 0,
            liquidation_bonus_rate: p("0.05"),
            loan_close_factor: p("0.5"),
            deposit_limit: None,
            borrow_limit: None,
            utilization_limit: None,
            interest_update_period: 1,
            price_update_period: 5,
            price_expiration_period: 60,
        },
        operating_status: OperatingStatus::default(),
    }
}

#[test]
fn loan_unit_ratio_is_one_without_loans() {
    assert_eq!(pool("0", "0").get_loan_unit_ratio(), Ok(precise("1")));
}

#[test]
fn loan_unit_ratio_is_units_over_debt() {
    assert_eq!(pool("200", "100").get_loan_unit_ratio(), Ok(precise("0.5")));
    assert_eq!(
        pool("110", "100").get_loan_unit_ratio(),
        Ok(precise("0.909090909090909090909090909090909090"))
    );
    assert_eq!(pool("5", "0").get_loan_unit_ratio(), Ok(precise("0")));
}

#[test]
fn loan_unit_ratio_above_one_is_an_error() {
    assert_eq!(
        pool("100", "100.000000000000000001").get_loan_unit_ratio(),
        Err("Loan unit ratio cannot be greater than 1".to_string())
    );
}

#[test]
fn first_loan_gets_one_unit_per_amount() {
    let mut state = pool("0", "0");
    let (bucket, units) = state.withdraw_for_borrow(p("100"), p("1000"), p("0")).unwrap();
    assert_eq!(bucket, Bucket { resource_address: coin(), amount: p("100") });
    assert_eq!(units, p("100"));
    assert_eq!(state.total_loan, p("100"));
    assert_eq!(state.total_loan_unit, p("100"));
}

#[test]
fn later_loan_gets_fewer_units_rounded_down() {
    let mut state = pool("110", "100");
    let (_, units) = state.withdraw_for_borrow(p("11"), p("1000"), p("110")).unwrap();
    assert_eq!(units, p("9.999999999999999999"));
    assert_eq!(state.total_loan, p("121"));
    assert_eq!(state.total_loan_unit, p("109.999999999999999999"));
}

#[test]
fn loan_must_be_positive() {
    let mut state = pool("0", "0");
    for amount in ["0", "-1"] {
        assert_eq!(
            state.withdraw_for_borrow(p(amount), p("1000"), p("0")),
            Err("Amount must be positive".to_string())
        );
    }
    assert_eq!(state.total_loan, p("0"));
}

#[test]
fn loan_respects_the_borrow_limit() {
    let mut state = pool("0", "0");
    state.update_config(UpdatePoolConfigInput::BorrowLimit(Some(p("150")))).unwrap();
    assert_eq!(
        state.withdraw_for_borrow(p("51"), p("1000"), p("100")),
        Err("Borrow limit reached. Please try again with a smaller amount.".to_string())
    );
    assert!(state.withdraw_for_borrow(p("50"), p("1000"), p("100")).is_ok());
}

#[test]
fn loan_respects_the_utilization_limit() {
    let mut state = pool("0", "0");
    state.update_config(UpdatePoolConfigInput::UtilizationLimit(Some(p("0.1")))).unwrap();
    // (0 + 101) / (899 + 0 + 101) = 0.101
    assert_eq!(
        state.withdraw_for_borrow(p("101"), p("899"), p("0")),
        Err("Utilization limit reached. Please try again with a smaller amount.".to_string())
    );
    assert_eq!(state.total_loan, p("0"));
    // (0 + 100) / (900 + 0 + 100) = 0.1
    assert!(state.withdraw_for_borrow(p("100"), p("900"), p("0")).is_ok());
}

#[test]
fn repayment_redeems_units_and_trims_the_total() {
    let mut state = pool("110", "100");
    let units = state.deposit_for_repay(Bucket { resource_address: coin(), amount: p("55") }).unwrap();
    assert_eq!(units, p("49.999999999999999999"));
    assert_eq!(state.total_loan, p("55"));
    // 100 - 49.999999999999999999 = 50.000000000000000001, cut to 17 digits.
    assert_eq!(state.total_loan_unit, p("50"));
}

#[test]
fn repayment_of_another_asset_is_refused() {
    let mut state = pool("110", "100");
    assert_eq!(
        state.deposit_for_repay(Bucket { resource_address: coin_units(), amount: p("5") }),
        Err("Payment resource address missmatch".to_string())
    );
    assert_eq!(state.total_loan, p("110"));
}

#[test]
fn repayment_beyond_the_debt_is_refused() {
    let mut state = pool("10", "10");
    assert_eq!(
        state.deposit_for_repay(Bucket { resource_address: coin(), amount: p("11") }),
        Err("Total loan unit cannot be negative".to_string())
    );
    assert_eq!(state.total_loan, p("10"));
    assert_eq!(state.total_loan_unit, p("10"));
}

#[test]
fn update_within_a_minute_does_nothing() {
    let mut state = pool("1000", "1000");
    for now in [1000, 1060, 1119, 900] {
        assert_eq!(state.update_interest_and_price(now, None, p("9000"), p("1000")), Ok(None));
        assert_eq!(state.interest_updated_at, 1000);
        assert_eq!(state.total_loan, p("1000"));
    }
    assert!(!state.update_due(1119));
    assert!(state.update_due(1120));
}

#[test]
fn feed_is_read_only_when_a_price_is_due() {
    let mut state = pool("1000", "1000");
    state.pool_config.price_update_period = 5;
    // Held back: nothing is read.
    assert!(!state.price_due(1000));
    assert!(!state.price_due(1119));
    // Due, but the price is younger than five minutes.
    assert!(!state.price_due(1120));
    assert!(!state.price_due(1299));
    assert!(state.price_due(1300));
    assert!(!state.price_due(900));
    assert_eq!(
        state.update_interest_and_price(1300, None, p("9000"), p("1000")),
        Err("Price feed returned None".to_string())
    );
    assert!(state.update_interest_and_price(1299, None, p("9000"), p("1000")).unwrap().is_some());
}

#[test]
fn update_compounds_the_debt_per_minute() {
    let mut state = pool("1000", "1000");
    let update = state.update_interest_and_price(1120, None, p("9000"), p("1000")).unwrap();
    assert_eq!(
        update,
        Some(InterestUpdate {
            accrued_interest: p("0.00020000001"),
            protocol_fees: p("0.000020000001"),
        })
    );
    assert_eq!(state.total_loan, p("1000.00020000001"));
    assert_eq!(state.total_loan_unit, p("1000"));
    assert_eq!(state.interest_rate, p("0.05256"));
    assert_eq!(state.interest_updated_at, 1120);
    assert_eq!(state.reserve.amount, p("0.000020000001"));
    assert_eq!(state.price_updated_at, 1000);
    assert_eq!(state.last_price, p("2"));
}

#[test]
fn update_over_three_minutes_uses_the_cube() {
    let mut state = pool("1000", "1000");
    state.update_interest_and_price(1180, None, p("9000"), p("1000")).unwrap();
    assert_eq!(state.total_loan, p("1000.00030000003"));
}

#[test]
fn second_update_in_the_same_minute_is_a_no_op() {
    let mut state = pool("1000", "1000");
    assert!(state.update_interest_and_price(1120, None, p("9000"), p("1000")).unwrap().is_some());
    let debt = state.total_loan;
    assert_eq!(state.update_interest_and_price(1150, None, p("9000"), p("1000")), Ok(None));
    assert_eq!(state.total_loan, debt);
    assert_eq!(state.interest_updated_at, 1120);
}

#[test]
fn update_takes_the_price_when_it_is_due() {
    let mut state = pool("0", "0");
    let reading = Some(PriceInfo { timestamp: 1290, price: p("3") });
    let update = state.update_interest_and_price(1300, reading, p("500"), p("0")).unwrap();
    assert_eq!(
        update,
        Some(InterestUpdate { accrued_interest: p("0"), protocol_fees: p("0") })
    );
    assert_eq!(state.last_price, p("3"));
    assert_eq!(state.price_updated_at, 1300);
    assert_eq!(state.interest_updated_at, 1300);
}

#[test]
fn update_fails_without_a_price_when_it_is_due() {
    let mut state = pool("0", "0");
    assert_eq!(
        state.update_interest_and_price(1300, None, p("500"), p("0")),
        Err("Price feed returned None".to_string())
    );
    assert_eq!(state.interest_updated_at, 1000);
}

#[test]
fn accrual_applies_a_given_factor() {
    let mut state = pool("200", "150");
    let update = state.apply_accrual(5000, None, p("0.03"), p("1.5")).unwrap();
    assert_eq!(update, InterestUpdate { accrued_interest: p("100"), protocol_fees: p("10") });
    assert_eq!(state.total_loan, p("300"));
    assert_eq!(state.reserve.amount, p("10"));
    assert_eq!(state.get_loan_unit_ratio(), Ok(precise("0.5")));
    assert_eq!(
        state.apply_accrual(5000, None, p("0.03"), p("0.5")),
        Err("Accrued interest cannot be negative".to_string())
    );
    assert_eq!(state.total_loan, p("300"));
}

#[test]
fn contribution_is_held_against_the_deposit_limit() {
    let mut state = pool("0", "0");
    let assets = Bucket { resource_address: coin(), amount: p("100") };
    assert!(state.contribute_proxy(&assets, p("1000000"), p("1000000")).is_ok());
    state.update_config(UpdatePoolConfigInput::DepositLimit(Some(p("1000")))).unwrap();
    assert!(state.contribute_proxy(&assets, p("600"), p("300")).is_ok());
    assert_eq!(
        state.contribute_proxy(&assets, p("600"), p("300.000000000000000001")),
        Err("Deposit limit reached. Please try again with a smaller amount.".to_string())
    );
}

#[test]
fn collateral_vault_takes_and_releases_pool_units() {
    let mut state = pool("0", "0");
    assert!(state
        .add_pool_units_as_collateral(Bucket { resource_address: coin(), amount: p("0") })
        .is_ok());
    assert_eq!(
        state.add_pool_units_as_collateral(Bucket { resource_address: coin(), amount: p("1") }),
        Err("Pool unit resource address missmatch".to_string())
    );
    state
        .add_pool_units_as_collateral(Bucket { resource_address: coin_units(), amount: p("30") })
        .unwrap();
    assert_eq!(state.collaterals.amount, p("30"));
    assert_eq!(
        state.remove_pool_units_from_collateral(p("0")),
        Err("Pool unit amount must be positive".to_string())
    );
    assert_eq!(
        state.remove_pool_units_from_collateral(p("30.5")),
        Err("Not enough pool units to remove from collateral".to_string())
    );
    assert_eq!(
        state.remove_pool_units_from_collateral(p("12.5")),
        Ok(Bucket { resource_address: coin_units(), amount: p("12.5") })
    );
    assert_eq!(state.collaterals.amount, p("17.5"));
}

#[test]
fn repayable_is_capped_by_debt_payment_and_pool() {
    let state = pool("110", "100");
    // 10 units at a ratio of 100/110 are 11 of debt.
    assert_eq!(state.repayable(p("10"), p("50"), p("110"), None), Ok((p("11"), p("22"))));
    assert_eq!(state.repayable(p("10"), p("5"), p("110"), None), Ok((p("5"), p("10"))));
    assert_eq!(state.repayable(p("10"), p("50"), p("4"), None), Ok((p("4"), p("8"))));
    assert_eq!(state.repayable(p("10"), p("50"), p("110"), Some(p("3"))), Ok((p("1.5"), p("3"))));
}

#[test]
fn seizable_collateral_carries_the_bonus() {
    let state = pool("0", "0");
    // Holding 1000 units worth 2000; 210 requested at a bonus of 5%.
    assert_eq!(state.seizable(p("1000"), precise("1"), p("200")), Ok((p("105"), p("200"))));
    // Holding 50 units worth 100: all of it covers 95.238095238095238095.
    assert_eq!(
        state.seizable(p("50"), precise("1"), p("200")),
        Ok((p("50"), p("95.238095238095238095")))
    );
    // At a unit ratio of one half each unit stands for two of the asset.
    assert_eq!(state.seizable(p("1000"), precise("0.5"), p("200")), Ok((p("52.5"), p("200"))));
}

#[test]
fn seizable_rounds_to_the_nearest_unit() {
    let state = pool("0", "0");
    // 2 units at a ratio of 3 are 0.666666666666666667 of the asset, worth
    // 1.333333333333333334, which stands for 2.000000000000000001 units.
    assert_eq!(
        state.seizable(p("2"), precise("3"), p("1000")),
        Ok((p("2.000000000000000001"), p("1.269841269841269841")))
    );
}

#[test]
fn liquidation_fee_goes_to_the_reserve() {
    let mut state = pool("0", "0");
    let rest = state
        .collect_liquidation_fee(Bucket { resource_address: coin(), amount: p("200") })
        .unwrap();
    assert_eq!(rest, Bucket { resource_address: coin(), amount: p("198") });
    assert_eq!(state.reserve.amount, p("2"));
    assert_eq!(
        state.collect_liquidation_fee(Bucket { resource_address: coin_units(), amount: p("200") }),
        Err("Resource address missmatch".to_string())
    );
}

#[test]
fn pool_settings_are_forwarded() {
    let mut state = pool("0", "0");
    state.set_price_feed(ComponentAddress { hi: 5, lo: 5 });
    assert_eq!(state.price_feed_comp, ComponentAddress { hi: 5, lo: 5 });
    state
        .set_interest_strategy(p("0.01"), vec![ISInputBreakPoint { usage: p("0.5"), slope: p("1") }])
        .unwrap();
    assert_eq!(state.interest_strategy.get_interest_rate(p("1")), Ok(p("0.51")));
    state
        .update_liquidation_threshold(UpdateLiquidationThresholdInput::DefaultValue(p("0.6")))
        .unwrap();
    assert_eq!(state.liquidation_threshold.default_value, p("0.6"));
    state.operating_status.update(OperatingStatusInput::Borrow(false));
    assert!(state.check_operating_status(OperatingService::Borrow).is_err());
    assert!(state.check_operating_status(OperatingService::Repay).is_ok());
}

#[test]
fn pools_are_found_by_their_asset() {
    let mut other = pool("0", "0");
    other.pool_res_address = ResourceAddress { hi: 0, lo: 8 };
    let pools = vec![pool("0", "0"), other];
    assert_eq!(find_pool(&pools, coin()), 0);
    assert_eq!(find_pool(&pools, ResourceAddress { hi: 0, lo: 8 }), 1);
    assert_eq!(find_pool(&pools, ResourceAddress { hi: 0, lo: 9 }), 2);
}

#[test]
fn accrual_never_raises_the_loan_unit_ratio() {
    let mut state = pool("1000", "900");
    let before = state.get_loan_unit_ratio().unwrap();
    assert_eq!(before, precise("0.9"));
    state.update_interest_and_price(1120, None, p("9000"), p("1000")).unwrap();
    let after = state.get_loan_unit_ratio().unwrap();
    assert!(after.lt(before));
    assert_eq!(after, precise("0.899999820000026999996400000449999946"));
    assert_eq!(state.total_loan_unit, p("900"));
}

#[test]
fn loans_and_accrual_keep_the_units_within_the_debt() {
    let mut state = pool("0", "0");
    state.withdraw_for_borrow(p("100"), p("1000"), p("0")).unwrap();
    assert!(state.total_loan_unit.le(state.total_loan));
    state.apply_accrual(2000, None, p("0.05"), p("1.1")).unwrap();
    assert!(state.total_loan_unit.le(state.total_loan));
    state.withdraw_for_borrow(p("7"), p("900"), p("110")).unwrap();
    assert!(state.total_loan_unit.le(state.total_loan));
    assert_eq!(state.total_loan, p("117"));
    assert_eq!(state.total_loan_unit, p("106.363636363636363636"));
}

#[test]
fn seizable_rounds_a_tie_to_the_even_subunit() {
    let state = pool("0", "0");
    let atto = "0.000000000000000001";
    // Half a subunit goes to zero, one and a half and two and a half go to two.
    assert_eq!(state.seizable(p(atto), precise("2"), p("1000")), Ok((p("0"), p("0"))));
    let two_held = Ok((p("0.000000000000000004"), p("0.000000000000000003")));
    assert_eq!(state.seizable(p("0.000000000000000003"), precise("2"), p("1000")), two_held);
    assert_eq!(state.seizable(p("0.000000000000000005"), precise("2"), p("1000")), two_held);
    // Three and a half go to four.
    assert_eq!(
        state.seizable(p("0.000000000000000007"), precise("2"), p("1000")),
        Ok((p("0.000000000000000008"), p("0.000000000000000007")))
    );
}

#[test]
fn amounts_out_of_range_are_errors() {
    let mut state = pool("0", "0");
    let most = Decimal::max_value();
    assert_eq!(
        state.repayable(most, most, most, None),
        Err("Repayment amount overflow".to_string())
    );
    state.last_price = p("0");
    assert_eq!(
        state.repayable(p("0"), p("1"), p("1"), None),
        Err("Repayment amount overflow".to_string())
    );
    assert_eq!(
        state.seizable(p("1"), precise("0"), p("1")),
        Err("Collateral amount overflow".to_string())
    );
    assert_eq!(
        pool("0", "0").apply_accrual(5, None, p("0"), most).map(|u| u.accrued_interest),
        Ok(p("0"))
    );
    assert_eq!(
        pool("2", "2").apply_accrual(5, None, p("0"), most),
        Err("Interest accrual overflow".to_string())
    );
}
