use lending_market::assets::Bucket;
use lending_market::cdp_data::{CDPType, CollaterizedDebtPositionData, DelegatorInfo, WrappedCDPData};
use lending_market::decimal::Decimal;
use lending_market::interest_strategy::ISInputBreakPoint;
use lending_market::lending_market::{
    check_limits, repay_progress, seize_progress, settle_flashloan, split_fee, text_or_empty,
    CDPLiquidatedEvent, DelegateeLink, LendingMarket, RepayProgress, SeizeProgress, UpdateCDPInput,
};
use lending_market::liquidation_threshold::{LiquidationThreshold, UpdateLiquidationThresholdInput};
use lending_market::market_config::{MarketConfig, UpdateMarketConfigInput};
use lending_market::operation_status::OperatingService;
use lending_market::pool_config::{PoolConfig, UpdatePoolConfigInput};
use lending_market::precise_decimal::PreciseDecimal;
use lending_market::resources::{BatchFlashloanItem, BatchFlashloanTerm, LiquidationTerm};
use lending_market::utils::{ComponentAddress, PriceInfo, ResourceAddress};

fn m(text: &str) -> Decimal {
    let parsed = scrypto::math::Decimal::try_from(text).unwrap();
    let digits = parsed.attos().to_digits();
    Decimal { d0: digits[0], d1: digits[1], d2: digits[2] }
}

fn exact(text: &str) -> PreciseDecimal {
    let parsed = scrypto::math::PreciseDecimal::try_from(text).unwrap();
    let digits = parsed.precise_subunits().to_digits();
    PreciseDecimal { d0: digits[0], d1: digits[1], d2: digits[2], d3: digits[3] }
}

fn xrd() -> ResourceAddress {
    ResourceAddress { hi: 0, lo: 1 }
}

fn usd() -> ResourceAddress {
    ResourceAddress { hi: 0, lo: 2 }
}

fn btc() -> ResourceAddress {
    ResourceAddress { hi: 0, lo: 3 }
}

fn units_of(asset: ResourceAddress) -> ResourceAddress {
    ResourceAddress { hi: 1, lo: asset.lo }
}

fn oracle() -> ComponentAddress {
    ComponentAddress { hi: 9, lo: 9 }
}

const NOW: i64 = 50_000;

fn config() -> PoolConfig {
    PoolConfig {
        protocol_fee_rate: m("0.1"),
        flashloan_fee_rate: m("0.005"),
        protocol_flashloan_fee_rate: m("0.2"),
        protocol_liquidation_fee_rate: m("0.01"),
        asset_type: 0,
        liquidation_bonus_rate: m("0.05"),
        loan_close_factor: m("0.5"),
        deposit_limit: None,
        borrow_limit: None,
        utilization_limit: None,
        interest_update_period: 1,
        price_update_period: 5,
        price_expiration_period: 60,
    }
}

fn price(value: &str) -> Option<PriceInfo> {
    Some(PriceInfo { timestamp: NOW, price: m(value) })
}

fn list(market: &mut LendingMarket, asset: ResourceAddress, value: &str) -> Result<(), String> {
    market.create_lending_pool(
        oracle(),
        asset,
        units_of(asset),
        false,
        config(),
        (m("0"), vec![]),
        LiquidationThreshold::new(m("0.7")),
        price(value),
        NOW,
    )
}

fn market() -> LendingMarket {
    let mut market = LendingMarket::instantiate(MarketConfig { max_cdp_position: 3 }).unwrap();
    list(&mut market, xrd(), "0.04").unwrap();
    list(&mut market, usd(), "1").unwrap();
    market
}

fn standard(id: u64) -> WrappedCDPData {
    WrappedCDPData::new(
        id,
        CollaterizedDebtPositionData::new(
            String::new(),
            String::new(),
            String::new(),
            CDPType::Standard,
            NOW,
        ),
    )
}

#[test]
fn listing_a_pool_starts_it_empty() {
    let market = market();
    assert_eq!(market.pool_states.len(), 2);
    let pool = &market.pool_states[1];
    assert_eq!(pool.pool_res_address, usd());
    assert_eq!(pool.collaterals.resource_address, units_of(usd()));
    assert_eq!(pool.reserve.resource_address, usd());
    assert_eq!(pool.last_price, m("1"));
    assert_eq!(pool.total_loan, m("0"));
    assert_eq!(pool.total_loan_unit, m("0"));
    assert_eq!(pool.price_updated_at, NOW);
    assert_eq!(pool.interest_updated_at, NOW);
    assert_eq!(pool.price_feed_comp, oracle());
}

#[test]
fn listing_checks_its_inputs_in_order() {
    let mut market = market();
    assert_eq!(
        list(&mut market, usd(), "1"),
        Err("The lending pool is already registered".to_string())
    );
    let attempt = |market: &mut LendingMarket,
                   recallable: bool,
                   threshold: &str,
                   fee: &str,
                   usage: &str,
                   reading: Option<PriceInfo>| {
        let mut pool_config = config();
        pool_config.flashloan_fee_rate = m(fee);
        market.create_lending_pool(
            oracle(),
            btc(),
            units_of(btc()),
            recallable,
            pool_config,
            (m("0"), vec![ISInputBreakPoint { usage: m(usage), slope: m("1") }]),
            LiquidationThreshold::new(m(threshold)),
            reading,
            NOW,
        )
    };
    assert_eq!(
        attempt(&mut market, true, "2", "2", "2", None),
        Err("Recallable assets are not supported".to_string())
    );
    assert_eq!(
        attempt(&mut market, false, "2", "2", "2", None),
        Err("Liquidation threshold must be between 0 and 1".to_string())
    );
    assert_eq!(
        attempt(&mut market, false, "0.5", "2", "2", None),
        Err("Flashloan fee rate must be between 0 and 1".to_string())
    );
    assert_eq!(
        attempt(&mut market, false, "0.5", "0.1", "2", None),
        Err("Breakpoint usage must be between 0 and 1".to_string())
    );
    assert_eq!(
        attempt(&mut market, false, "0.5", "0.1", "0.5", None),
        Err("Price not found".to_string())
    );
    assert_eq!(market.pool_states.len(), 2);
    assert_eq!(attempt(&mut market, false, "0.5", "0.1", "0.5", price("30000")), Ok(()));
    assert_eq!(market.pool_states.len(), 3);
    assert_eq!(market.find_pool_by_unit(units_of(btc())), 2);
    assert_eq!(market.find_pool_by_unit(btc()), 3);
}

#[test]
fn pool_settings_need_a_listed_pool() {
    let mut market = market();
    let missing = Err("Pool state not found for provided resource".to_string());
    assert_eq!(market.update_pool_config(btc(), UpdatePoolConfigInput::AssetType(1)), missing);
    assert_eq!(
        market.update_liquidation_threshold(btc(), UpdateLiquidationThresholdInput::DefaultValue(m("0.5"))),
        missing
    );
    assert_eq!(market.set_interest_strategy(btc(), m("0"), vec![]), missing);
    assert_eq!(market.set_price_feed(btc(), oracle(), price("1")), missing);
    assert_eq!(market.update_pool_state(btc(), NOW, None, m("0"), m("0")).err(), missing.clone().err());
    assert_eq!(
        market.admin_update_operating_status(OperatingService::Borrow, false, Some(btc())),
        missing
    );
    assert_eq!(
        market.collect_liquidation_fee(Bucket { resource_address: btc(), amount: m("1") }).err(),
        missing.err()
    );
}

#[test]
fn pool_settings_reach_their_pool() {
    let mut market = market();
    market.update_pool_config(usd(), UpdatePoolConfigInput::AssetType(4)).unwrap();
    assert_eq!(market.pool_states[1].pool_config.asset_type, 4);
    assert_eq!(market.pool_states[0].pool_config.asset_type, 0);
    assert_eq!(
        market.update_pool_config(usd(), UpdatePoolConfigInput::LoanCloseFactor(m("2"))),
        Err("Loan close factor must be between 0 and 1".to_string())
    );
    market
        .update_liquidation_threshold(usd(), UpdateLiquidationThresholdInput::DefaultValue(m("0.5")))
        .unwrap();
    assert_eq!(market.pool_states[1].liquidation_threshold.default_value, m("0.5"));
    market.set_interest_strategy(usd(), m("0.07"), vec![]).unwrap();
    assert_eq!(market.pool_states[1].interest_strategy.initial_rate, m("0.07"));
    assert_eq!(
        market.set_price_feed(usd(), oracle(), None),
        Err("Price not found".to_string())
    );
    let other = ComponentAddress { hi: 8, lo: 8 };
    market.set_price_feed(usd(), other, price("1")).unwrap();
    assert_eq!(market.pool_states[1].price_feed_comp, other);
    market.update_market_config(UpdateMarketConfigInput::MaxCDPPosition(8)).unwrap();
    assert_eq!(market.market_config.max_cdp_position, 8);
}

#[test]
fn pool_state_update_accrues_interest() {
    let mut market = market();
    market.set_interest_strategy(usd(), m("0.05256"), vec![]).unwrap();
    market.pool_states[1].total_loan = m("1000");
    market.pool_states[1].total_loan_unit = m("1000");
    let update = market
        .update_pool_state(usd(), NOW + 120, None, m("9000"), m("1000"))
        .unwrap()
        .unwrap();
    assert_eq!(update.accrued_interest, m("0.00020000001"));
    assert_eq!(market.pool_states[1].total_loan, m("1000.00020000001"));
    assert_eq!(market.pool_states[0].interest_updated_at, NOW);
    assert_eq!(market._get_pool_state(usd(), None, NOW + 120), Ok(1));
    assert_eq!(
        market._get_pool_state(xrd(), None, NOW + 120),
        Err("Pool state is out of date".to_string())
    );
}

#[test]
fn reserves_are_collected_from_every_pool() {
    let mut market = market();
    market.pool_states[0].reserve.amount = m("3");
    market.pool_states[1].reserve.amount = m("0.5");
    let collected = market.collect_reserve();
    assert_eq!(
        collected,
        vec![
            (m("0.04"), Bucket { resource_address: xrd(), amount: m("3") }),
            (m("1"), Bucket { resource_address: usd(), amount: m("0.5") }),
        ]
    );
    assert_eq!(market.pool_states[0].reserve.amount, m("0"));
    assert_eq!(market.pool_states[1].reserve.amount, m("0"));
}

#[test]
fn positions_are_numbered_in_order() {
    let mut market = market();
    let (first, data) = market
        .create_cdp(Some("mine".to_string()), None, Some("url".to_string()), NOW)
        .unwrap();
    let (second, _) = market.create_cdp(None, None, None, NOW).unwrap();
    assert_eq!((first, second), (1, 2));
    assert_eq!(data.name, "mine");
    assert_eq!(data.description, "");
    assert_eq!(data.key_image_url, "url");
    assert_eq!(data.cdp_type, CDPType::Standard);
    assert_eq!(market._get_new_cdp_id(), Ok(3));
    market.cdp_counter = u64::MAX;
    assert_eq!(
        market.create_cdp(None, None, None, NOW).err(),
        Some("CDP counter overflow".to_string())
    );
    assert_eq!(text_or_empty(None), "");
    assert_eq!(text_or_empty(Some("x".to_string())), "x");
}

#[test]
fn delegatee_is_created_under_its_delegator() {
    let mut market = market();
    market.cdp_counter = 1;
    let mut delegator = standard(1);
    let (id, data) = market
        .create_delegatee_cdp(&mut delegator, Some(m("100")), Some(m("0.5")), None, None, None, NOW + 7)
        .unwrap();
    assert_eq!(id, 2);
    assert_eq!(
        data.cdp_type,
        CDPType::Delegatee(DelegatorInfo {
            cdp_id: 1,
            delegatee_index: 1,
            max_loan_value: Some(m("100")),
            max_loan_value_ratio: Some(m("0.5")),
        })
    );
    assert_eq!(delegator.cdp_data.delegatee_count, 1);
    assert!(!delegator.cdp_data_updated);
    assert_eq!(delegator.cdp_data.updated_at, NOW + 7);
    assert_eq!(
        market.delegatee_cdp_ids,
        vec![DelegateeLink { delegator_cdp_id: 1, delegatee_index: 1, delegatee_cdp_id: 2 }]
    );
    assert_eq!(market.find_link(1, 1), 0);
    assert_eq!(market.find_link(1, 2), 1);

    let mut delegatee = WrappedCDPData::new(id, data);
    assert_eq!(
        market
            .create_delegatee_cdp(&mut delegatee, None, None, None, None, None, NOW)
            .err(),
        Some("Delegatee CDP can not create delegatee CDP".to_string())
    );
    assert_eq!(
        market
            .create_delegatee_cdp(&mut delegator, None, Some(m("1.5")), None, None, None, NOW)
            .err(),
        Some("INVALID_INPUT: Max loan to value ratio must be in the range [0, 1]".to_string())
    );
    assert_eq!(
        market
            .create_delegatee_cdp(&mut delegator, Some(m("-1")), None, None, None, None, NOW)
            .err(),
        Some("INVALID_INPUT: Max loan to value must be non-negative".to_string())
    );
    assert_eq!(delegator.cdp_data.delegatee_count, 1);
    assert_eq!(market.cdp_counter, 2);
    assert!(check_limits(None, None).is_ok());
}

#[test]
fn linking_turns_a_standard_position_into_a_delegatee() {
    let mut market = market();
    let mut delegator = standard(1);
    delegator.update_collateral(xrd(), m("10000")).unwrap();
    let mut other = standard(2);
    other.update_loan(usd(), m("100")).unwrap();

    market.link_cdp(&mut delegator, &mut other, None, Some(m("0.5")), NOW + 3).unwrap();
    assert_eq!(other.get_delegator_id(), Ok(1));
    assert_eq!(delegator.cdp_data.delegatee_count, 1);
    assert_eq!(other.cdp_data.updated_at, NOW + 3);
    assert!(!other.cdp_data_updated && !delegator.cdp_data_updated);
    assert_eq!(
        market.delegatee_cdp_ids,
        vec![DelegateeLink { delegator_cdp_id: 1, delegatee_index: 1, delegatee_cdp_id: 2 }]
    );

    assert_eq!(
        market.link_cdp(&mut delegator, &mut other, None, None, NOW),
        Err("Delegatee CDP already linked".to_string())
    );

    market.unlink_cdp(&mut delegator, &mut other, NOW + 4).err().unwrap();
    // On its own the position has loans and no collateral.
    assert_eq!(other.get_delegator_id(), Ok(1));
    assert_eq!(delegator.cdp_data.delegatee_count, 1);

    other.update_loan(usd(), m("-100")).unwrap();
    market.unlink_cdp(&mut delegator, &mut other, NOW + 5).unwrap();
    assert_eq!(other.get_type(), CDPType::Standard);
    assert_eq!(delegator.cdp_data.delegatee_count, 0);
    assert!(market.delegatee_cdp_ids.is_empty());
    assert_eq!(
        market.unlink_cdp(&mut delegator, &mut other, NOW + 5),
        Err("CDP is not a delegatee".to_string())
    );
}

#[test]
fn linking_is_refused_for_unfit_positions() {
    let mut market = market();
    let mut delegator = standard(1);
    delegator.update_collateral(xrd(), m("1000")).unwrap();

    let mut with_collateral = standard(2);
    with_collateral.update_collateral(xrd(), m("1")).unwrap();
    assert_eq!(
        market.link_cdp(&mut delegator, &mut with_collateral, None, None, NOW),
        Err("Delegatee CDP already has collateral".to_string())
    );

    let mut itself = standard(1);
    assert_eq!(
        market.link_cdp(&mut delegator, &mut itself, None, None, NOW),
        Err("A CDP can not be its own delegator".to_string())
    );

    // 1000 XRD give 28 of discounted collateral.
    let mut too_indebted = standard(3);
    too_indebted.update_loan(usd(), m("28")).unwrap();
    assert_eq!(
        market.link_cdp(&mut delegator, &mut too_indebted, None, None, NOW),
        Err("LTV need to be lower 1".to_string())
    );
    assert_eq!(too_indebted.get_type(), CDPType::Standard);
    assert_eq!(delegator.cdp_data.delegatee_count, 0);
    assert!(market.delegatee_cdp_ids.is_empty());

    let mut wrong_delegator = standard(4);
    let mut linked = standard(5);
    market.link_cdp(&mut delegator, &mut linked, None, None, NOW).unwrap();
    assert_eq!(
        market.unlink_cdp(&mut wrong_delegator, &mut linked, NOW),
        Err("Delegatee CDP not linked to provided delegator CDP".to_string())
    );
    assert_eq!(
        market.link_cdp(&mut linked, &mut wrong_delegator, None, None, NOW),
        Err("Delegatee CDP can not have delegatees".to_string())
    );
}

#[test]
fn links_are_kept_by_delegator_and_index() {
    let mut market = market();
    market.set_link(DelegateeLink { delegator_cdp_id: 1, delegatee_index: 1, delegatee_cdp_id: 5 });
    market.set_link(DelegateeLink { delegator_cdp_id: 1, delegatee_index: 2, delegatee_cdp_id: 6 });
    market.set_link(DelegateeLink { delegator_cdp_id: 1, delegatee_index: 1, delegatee_cdp_id: 7 });
    assert_eq!(
        market.delegatee_cdp_ids,
        vec![
            DelegateeLink { delegator_cdp_id: 1, delegatee_index: 1, delegatee_cdp_id: 7 },
            DelegateeLink { delegator_cdp_id: 1, delegatee_index: 2, delegatee_cdp_id: 6 },
        ]
    );
    market.remove_link(1, 1);
    market.remove_link(3, 3);
    assert_eq!(
        market.delegatee_cdp_ids,
        vec![DelegateeLink { delegator_cdp_id: 1, delegatee_index: 2, delegatee_cdp_id: 6 }]
    );
}

#[test]
fn descriptive_data_is_updated_and_dated() {
    let market = market();
    let mut cdp = standard(1);
    market.update_cdp(&mut cdp.cdp_data, UpdateCDPInput::Name("a".to_string()), NOW + 1);
    market.update_cdp(&mut cdp.cdp_data, UpdateCDPInput::Description("b".to_string()), NOW + 2);
    market.update_cdp(&mut cdp.cdp_data, UpdateCDPInput::KeyImageURL("c".to_string()), NOW + 3);
    assert_eq!(cdp.cdp_data.name, "a");
    assert_eq!(cdp.cdp_data.description, "b");
    assert_eq!(cdp.cdp_data.key_image_url, "c");
    assert_eq!(cdp.cdp_data.updated_at, NOW + 3);
    assert_eq!(cdp.cdp_data.minted_at, NOW);
}

#[test]
fn delegatee_limits_are_updated_by_its_delegator() {
    let market = market();
    let mut delegatee = standard(2);
    assert_eq!(
        market.update_delegatee_cdp(1, &mut delegatee, None, None, NOW),
        Err("CDP is not a delegatee".to_string())
    );
    delegatee.update_cdp_type(CDPType::Delegatee(DelegatorInfo {
        cdp_id: 1,
        delegatee_index: 4,
        max_loan_value: None,
        max_loan_value_ratio: None,
    }));
    assert_eq!(
        market.update_delegatee_cdp(3, &mut delegatee, None, None, NOW),
        Err("Delegatee CDP not linked to provided delegator CDP".to_string())
    );
    market
        .update_delegatee_cdp(1, &mut delegatee, Some(m("10")), Some(m("0.25")), NOW + 9)
        .unwrap();
    assert_eq!(
        delegatee.get_type(),
        CDPType::Delegatee(DelegatorInfo {
            cdp_id: 1,
            delegatee_index: 4,
            max_loan_value: Some(m("10")),
            max_loan_value_ratio: Some(m("0.25")),
        })
    );
    assert_eq!(delegatee.cdp_data.updated_at, NOW + 9);
}

#[test]
fn collateral_is_booked_on_position_and_pool() {
    let mut market = market();
    let mut cdp = standard(1);
    let deposit = Bucket { resource_address: units_of(xrd()), amount: m("40") };
    market._deposit_internal(&mut cdp, xrd(), deposit, NOW).unwrap();
    assert_eq!(cdp.get_collateral_units(xrd()), m("40"));
    assert_eq!(market.pool_states[0].collaterals.amount, m("40"));
    assert!(cdp.cdp_data_updated);

    let wrong = Bucket { resource_address: xrd(), amount: m("40") };
    assert_eq!(
        market._deposit_internal(&mut cdp, xrd(), wrong, NOW),
        Err("Pool unit resource address missmatch".to_string())
    );
    assert_eq!(
        market._deposit_internal(&mut cdp, xrd(), deposit, NOW + 500),
        Err("Pool state is out of date".to_string())
    );
    let mut delegatee = standard(2);
    delegatee.update_cdp_type(CDPType::Delegatee(DelegatorInfo {
        cdp_id: 1,
        delegatee_index: 1,
        max_loan_value: None,
        max_loan_value_ratio: None,
    }));
    assert_eq!(
        market._deposit_internal(&mut delegatee, xrd(), deposit, NOW),
        Err("Delegatee CDP can not add collateral".to_string())
    );
    market.admin_update_operating_status(OperatingService::AddCollateral, false, None).unwrap();
    assert_eq!(
        market.add_collateral(&mut cdp, xrd(), deposit, NOW),
        Err("Operation is not allowed: the service is disabled".to_string())
    );
    assert_eq!(cdp.get_collateral_units(xrd()), m("40"));
    assert_eq!(market.pool_states[0].collaterals.amount, m("40"));
}

#[test]
fn collateral_removal_takes_at_most_what_is_held() {
    let mut market = market();
    let mut cdp = standard(1);
    market
        .add_collateral(&mut cdp, xrd(), Bucket { resource_address: units_of(xrd()), amount: m("40") }, NOW)
        .unwrap();
    assert_eq!(
        market.remove_collateral(&mut cdp, xrd(), m("100"), NOW),
        Ok(Bucket { resource_address: units_of(xrd()), amount: m("40") })
    );
    assert_eq!(cdp.get_collateral_units(xrd()), m("0"));
    assert_eq!(market.pool_states[0].collaterals.amount, m("0"));
    assert_eq!(
        market.remove_collateral(&mut cdp, xrd(), m("1"), NOW),
        Err("Pool unit amount must be positive".to_string())
    );
    market.admin_update_operating_status(OperatingService::RemoveCollateral, false, Some(xrd())).unwrap();
    assert_eq!(
        market.remove_collateral(&mut cdp, xrd(), m("1"), NOW),
        Err("Operation is not allowed: the service is disabled".to_string())
    );
}

#[test]
fn contribution_and_redemption_are_gated() {
    let mut market = market();
    let assets = Bucket { resource_address: usd(), amount: m("10") };
    assert_eq!(market.contribute(&assets, NOW, m("0"), m("0")), Ok(()));
    let units = Bucket { resource_address: units_of(usd()), amount: m("10") };
    assert_eq!(market.redeem(&units, NOW), Ok(usd()));
    assert_eq!(market.redeem(&assets, NOW), Err("Pool unit not found".to_string()));
    market.update_pool_config(usd(), UpdatePoolConfigInput::DepositLimit(Some(m("5")))).unwrap();
    assert_eq!(
        market.contribute(&assets, NOW, m("0"), m("0")),
        Err("Deposit limit reached. Please try again with a smaller amount.".to_string())
    );
    market.update_operating_status(OperatingService::Redeem, false, None).unwrap();
    market.update_operating_status(OperatingService::Contribute, false, Some(usd())).unwrap();
    assert_eq!(
        market.redeem(&units, NOW),
        Err("Operation is not allowed: the service is disabled".to_string())
    );
    assert_eq!(
        market.contribute(&assets, NOW, m("0"), m("0")),
        Err("Operation is not allowed: the service is disabled".to_string())
    );
    assert!(market.check_operating_status(OperatingService::Contribute).is_ok());
    assert!(market
        ._update_operating_status(OperatingService::Redeem, true, false, None)
        .is_ok());
}

#[test]
fn flash_loans_need_amounts_pools_and_the_switch() {
    let mut market = market();
    let mut requests = scrypto::prelude::IndexMap::default();
    requests.insert(usd(), m("-1"));
    assert_eq!(
        market.take_batch_flashloan(&requests).err(),
        Some("INVALID_INPUT: borrowed amount must be greater than zero".to_string())
    );
    let mut requests = scrypto::prelude::IndexMap::default();
    requests.insert(btc(), m("1"));
    assert_eq!(
        market.take_batch_flashloan(&requests).err(),
        Some("Pool state not found for provided resource".to_string())
    );
    let mut requests = scrypto::prelude::IndexMap::default();
    requests.insert(usd(), m("200"));
    requests.insert(xrd(), m("0"));
    let (loans, term) = market.take_batch_flashloan(&requests).unwrap();
    assert_eq!(
        loans,
        vec![
            Bucket { resource_address: usd(), amount: m("200") },
            Bucket { resource_address: xrd(), amount: m("0") },
        ]
    );
    assert_eq!(term.len(), 2);
    assert_eq!(
        (term.entry_at(0), term.entry_at(1)),
        (
            (usd(), BatchFlashloanItem { loan_amount: m("200"), fee_amount: m("1") }),
            (xrd(), BatchFlashloanItem { loan_amount: m("0"), fee_amount: m("0") }),
        )
    );
    assert_eq!(term.find(xrd()), 1);
    assert_eq!(term.find(btc()), 2);
    market.admin_update_operating_status(OperatingService::Flashloan, false, Some(xrd())).unwrap();
    assert_eq!(
        market.take_batch_flashloan(&requests).err(),
        Some("Operation is not allowed: the service is disabled".to_string())
    );
}

#[test]
fn flash_loan_repayment_splits_the_fee() {
    let mut market = market();
    let mut term = BatchFlashloanTerm::new();
    term.set(usd(), BatchFlashloanItem { loan_amount: m("200"), fee_amount: m("1") });
    assert_eq!(
        market
            .repay_flashloan(Bucket { resource_address: xrd(), amount: m("500") }, &term)
            .err(),
        Some("flash loan term not found for provided resource".to_string())
    );
    let (rest, settled) = market
        .repay_flashloan(Bucket { resource_address: usd(), amount: m("201") }, &term)
        .unwrap();
    assert_eq!(rest.amount, m("0"));
    assert_eq!(settled.loan_amount, m("200"));
    assert_eq!(settled.lp_fee_amount, m("0.8"));
    assert_eq!(settled.protocol_fee_amount, m("0.2"));
    assert_eq!(market.pool_states[1].reserve.amount, m("0.2"));
    assert_eq!(
        split_fee(
            Bucket { resource_address: usd(), amount: m("10") },
            BatchFlashloanItem { loan_amount: m("6"), fee_amount: m("3") },
            m("0.5"),
        ),
        Ok((Bucket { resource_address: usd(), amount: m("1") }, m("1.5"), m("1.5")))
    );
    let (rest, settled) = settle_flashloan(
        &mut market.pool_states[1],
        Bucket { resource_address: usd(), amount: m("10") },
        BatchFlashloanItem { loan_amount: m("6"), fee_amount: m("3") },
    )
    .unwrap();
    assert_eq!(rest.amount, m("1"));
    assert_eq!(settled.protocol_fee_amount, m("0.6"));
    assert_eq!(market.pool_states[1].reserve.amount, m("0.8"));
}

#[test]
fn repayment_needs_the_holder_or_its_delegator() {
    let market = market();
    let own = standard(1);
    let fresh = RepayProgress { expected_payment_value: None, total_payment_value: m("0") };
    assert_eq!(market.repay(1, &own), Ok(fresh));
    assert_eq!(market.repay(2, &own), Err("Invalid delegatee CDP".to_string()));
    let mut delegatee = standard(3);
    delegatee.update_cdp_type(CDPType::Delegatee(DelegatorInfo {
        cdp_id: 1,
        delegatee_index: 1,
        max_loan_value: None,
        max_loan_value_ratio: None,
    }));
    assert_eq!(market.repay(1, &delegatee), Ok(fresh));
    assert_eq!(
        market.repay(2, &delegatee),
        Err("Delegatee CDP not linked to provided delegator CDP".to_string())
    );
}

#[test]
fn progress_keeps_count_of_what_is_repaid_and_seized() {
    let start = RepayProgress { expected_payment_value: Some(m("10")), total_payment_value: m("1") };
    assert_eq!(
        repay_progress(start, m("4")),
        Ok(RepayProgress { expected_payment_value: Some(m("6")), total_payment_value: m("5") })
    );
    assert_eq!(
        repay_progress(start, m("11")),
        Err("expected_payment_value should not be negative".to_string())
    );
    let seizing = SeizeProgress { requested_value: m("10"), returned_value: m("1") };
    assert_eq!(
        seize_progress(seizing, m("4")),
        Ok(SeizeProgress { requested_value: m("6"), returned_value: m("5") })
    );
}

#[test]
fn delegatee_repayment_lowers_the_aggregate() {
    let mut market = market();
    market.pool_states[1].total_loan = m("150");
    market.pool_states[1].total_loan_unit = m("150");
    let mut delegator = standard(1);
    delegator.update_delegatee_loan(usd(), m("150")).unwrap();
    let mut delegatee = standard(2);
    delegatee.update_cdp_type(CDPType::Delegatee(DelegatorInfo {
        cdp_id: 1,
        delegatee_index: 1,
        max_loan_value: None,
        max_loan_value_ratio: None,
    }));
    delegatee.update_loan(usd(), m("100")).unwrap();
    delegatee.update_delegatee_loan(usd(), m("100")).unwrap();
    let mut progress = market.repay(1, &delegatee).unwrap();
    let mut nobody = None;
    assert_eq!(
        market
            ._repay_internal(
                &mut delegatee,
                &mut nobody,
                Bucket { resource_address: usd(), amount: m("30") },
                m("150"),
                &mut progress,
                OperatingService::Repay,
                NOW,
            )
            .err(),
        Some("Delegator CDP data is missing".to_string())
    );
    let mut delegator = Some(delegator);
    let (rest, repaid) = market
        ._repay_internal(
            &mut delegatee,
            &mut delegator,
            Bucket { resource_address: usd(), amount: m("130") },
            m("150"),
            &mut progress,
            OperatingService::Repay,
            NOW,
        )
        .unwrap();
    assert_eq!(rest.amount, m("30"));
    assert_eq!(repaid.amount, m("100"));
    assert_eq!(delegatee.get_loan_unit(usd()), m("0"));
    assert_eq!(delegatee.get_delegatee_loan_unit(usd()), m("0"));
    assert_eq!(delegator.as_ref().unwrap().get_delegatee_loan_unit(usd()), m("50"));
    assert_eq!(market.pool_states[1].total_loan, m("50"));
    assert_eq!(progress.total_payment_value, m("100"));
    assert_eq!(market.finish_repay(&mut delegatee, &mut delegator, &progress, NOW + 1), Ok(m("100")));
    assert_eq!(delegator.unwrap().cdp_data.updated_at, NOW + 1);
}

#[test]
fn liquidation_ends_only_when_the_term_is_met() {
    let market = market();
    let term = LendingMarket::liquidation_term(4, m("200"));
    assert_eq!(term, LiquidationTerm { cdp_id: 4, payement_value: m("200") });
    assert_eq!(
        market.end_liquidation(4, Some(1), m("200"), &term),
        Ok(CDPLiquidatedEvent { cdp_id: 4, delegator_cdp_id: Some(1) })
    );
    assert_eq!(
        market.end_liquidation(4, None, m("199"), &term),
        Err("Total payment value does not match with the liquidation term".to_string())
    );
    assert_eq!(
        market.end_liquidation(5, None, m("200"), &term),
        Err("Liquidation term is for another CDP".to_string())
    );
    let mut cdp = standard(4);
    let unfinished = RepayProgress {
        expected_payment_value: Some(m("1")),
        total_payment_value: m("199"),
    };
    let mut nobody = None;
    assert_eq!(
        market.finish_repay(&mut cdp, &mut nobody, &unfinished, NOW),
        Err("Insufficient payment value".to_string())
    );
}

#[test]
fn liquidation_starts_only_for_unhealthy_positions() {
    let mut market = market();
    let mut cdp = standard(1);
    cdp.update_collateral(xrd(), m("10000")).unwrap();
    cdp.update_loan(usd(), m("100")).unwrap();
    market.pool_states[0].collaterals.amount = m("10000");
    market.pool_states[1].total_loan = m("100");
    market.pool_states[1].total_loan_unit = m("100");
    assert_eq!(
        market.start_liquidation(&cdp, &None, None, NOW),
        Err("This CDP can not be liquidated: LTV ratio lower than 1".to_string())
    );
    assert!(market.fast_liquidation(&cdp, &None, NOW).is_err());
    assert_eq!(
        market.start_liquidation(&cdp, &None, Some(m("-1")), NOW),
        Err("INVALID_INPUT: Total payment value must be non-negative".to_string())
    );
    market.pool_states[0].last_price = m("0.01");
    // 10000 * 0.01 * 0.7 = 70 of discounted collateral for a loan of 100.
    assert_eq!(
        market.start_liquidation(&cdp, &None, None, NOW),
        Ok(SeizeProgress { requested_value: m("50"), returned_value: m("0") })
    );
    assert_eq!(
        market.start_liquidation(&cdp, &None, Some(m("20")), NOW),
        Ok(SeizeProgress { requested_value: m("20"), returned_value: m("0") })
    );
    assert_eq!(
        market.start_liquidation(&cdp, &None, Some(m("80")), NOW),
        Ok(SeizeProgress { requested_value: m("50"), returned_value: m("0") })
    );
    assert_eq!(
        market.fast_liquidation(&cdp, &None, NOW),
        Ok(RepayProgress { expected_payment_value: None, total_payment_value: m("0") })
    );
    market.admin_update_operating_status(OperatingService::Liquidation, false, None).unwrap();
    assert_eq!(
        market.start_liquidation(&cdp, &None, None, NOW),
        Err("Operation is not allowed: the service is disabled".to_string())
    );
}

#[test]
fn seizure_stops_when_nothing_is_requested() {
    let mut market = market();
    let mut cdp = standard(1);
    cdp.update_collateral(xrd(), m("10000")).unwrap();
    market.pool_states[0].collaterals.amount = m("10000");
    let mut progress = SeizeProgress { requested_value: m("42"), returned_value: m("0") };
    // For 42 of payment: 44.1 of collateral value, 1102.5 XRD at 0.04.
    let seized = market
        ._remove_collateral(&mut cdp, xrd(), exact("1"), &mut progress, NOW)
        .unwrap();
    assert_eq!(seized, Some(Bucket { resource_address: units_of(xrd()), amount: m("1102.5") }));
    assert_eq!(progress, SeizeProgress { requested_value: m("0"), returned_value: m("42") });
    assert_eq!(cdp.get_collateral_units(xrd()), m("8897.5"));
    assert_eq!(market.pool_states[0].collaterals.amount, m("8897.5"));
    assert_eq!(
        market._remove_collateral(&mut cdp, xrd(), exact("1"), &mut progress, NOW),
        Ok(None)
    );
    assert_eq!(market.finish_remove_collateral(&mut cdp, &progress, true, NOW + 2), Ok(m("42")));
    assert_eq!(cdp.cdp_data.updated_at, NOW + 2);
    let short = SeizeProgress { requested_value: m("1"), returned_value: m("41") };
    assert_eq!(
        market.finish_remove_collateral(&mut cdp, &short, true, NOW),
        Err("Insufficient collateral value".to_string())
    );
    assert_eq!(market.finish_remove_collateral(&mut cdp, &short, false, NOW), Ok(m("41")));
}

#[test]
fn refinancing_is_gated_by_its_switch() {
    let mut market = market();
    let mut cdp = standard(1);
    cdp.update_loan(usd(), m("5")).unwrap();
    assert_eq!(
        market.refinance(&cdp, &None, &vec![usd()], NOW),
        Ok(RepayProgress { expected_payment_value: None, total_payment_value: m("0") })
    );
    market.admin_update_operating_status(OperatingService::Refinance, false, None).unwrap();
    assert_eq!(
        market.refinance(&cdp, &None, &vec![usd()], NOW),
        Err("Operation is not allowed: the service is disabled".to_string())
    );
}

#[test]
fn saving_needs_a_healthy_position() {
    let market = market();
    let mut cdp = standard(1);
    cdp.update_collateral(xrd(), m("10000")).unwrap();
    cdp.update_loan(usd(), m("300")).unwrap();
    let mut nobody = None;
    assert_eq!(
        market.check_and_save(&mut cdp, &mut nobody, NOW + 1),
        Err("LTV need to be lower 1".to_string())
    );
    assert!(cdp.cdp_data_updated);
    cdp.update_loan(usd(), m("-100")).unwrap();
    assert_eq!(market.check_and_save(&mut cdp, &mut nobody, NOW + 1), Ok(()));
    assert!(!cdp.cdp_data_updated);
    assert_eq!(cdp.cdp_data.updated_at, NOW + 1);
    cdp.update_collateral(usd(), m("1")).unwrap();
    cdp.update_collateral(btc(), m("1")).unwrap();
    assert_eq!(
        market.check_and_save(&mut cdp, &mut nobody, NOW + 1),
        Err("Pool state not found".to_string())
    );
}
