use lending_market::assets::Bucket;
use lending_market::cdp_data::WrappedCDPData;
use lending_market::decimal::Decimal;
use lending_market::interest_strategy::ISInputBreakPoint;
use lending_market::lending_market::{CDPLiquidatedEvent, LendingMarket};
use lending_market::liquidation_threshold::LiquidationThreshold;
use lending_market::market_config::MarketConfig;
use lending_market::operation_status::OperatingService;
use lending_market::pool_config::PoolConfig;
use lending_market::precise_decimal::PreciseDecimal;
use lending_market::price_feed::{CaviarLsuPoolComponentFaucet, PriceFeed};
use lending_market::utils::{ComponentAddress, ResourceAddress};
use scrypto::math::CheckedTruncate;

type Amount = scrypto::math::Decimal;
type Ratio = scrypto::math::PreciseDecimal;

const T2022: i64 = 1640998800;
const T2023: i64 = 1672534800;

fn n(text: &str) -> Decimal {
    from_ledger(Amount::try_from(text).unwrap())
}

fn from_ledger(amount: Amount) -> Decimal {
    let digits = amount.attos().to_digits();
    Decimal { d0: digits[0], d1: digits[1], d2: digits[2] }
}

fn to_ledger(amount: Decimal) -> Amount {
    Amount::from_attos(scrypto::math::I192::from_digits([amount.d0, amount.d1, amount.d2]))
}

fn ratio_from_ledger(ratio: Ratio) -> PreciseDecimal {
    let digits = ratio.precise_subunits().to_digits();
    PreciseDecimal { d0: digits[0], d1: digits[1], d2: digits[2], d3: digits[3] }
}

fn xrd() -> ResourceAddress {
    ResourceAddress { hi: 0, lo: 1 }
}

fn usd() -> ResourceAddress {
    ResourceAddress { hi: 0, lo: 2 }
}

fn units_of(asset: ResourceAddress) -> ResourceAddress {
    ResourceAddress { hi: 1, lo: asset.lo }
}

fn feed() -> ComponentAddress {
    ComponentAddress { hi: 9, lo: 9 }
}

/// The pool of one asset as the ledger keeps it.
#[derive(Clone)]
struct LedgerPool {
    asset: ResourceAddress,
    liquidity: Amount,
    lent: Amount,
    unit_supply: Amount,
}

impl LedgerPool {
    fn unit_ratio(&self) -> Ratio {
        let total = self.liquidity + self.lent;
        if total.is_zero() {
            Ratio::ONE
        } else {
            Ratio::from(self.unit_supply) / Ratio::from(total)
        }
    }

    fn contribute(&mut self, amount: Amount) -> Amount {
        let units = (Ratio::from(amount) * self.unit_ratio())
            .checked_truncate(scrypto::math::RoundingMode::ToZero)
            .unwrap();
        self.liquidity += amount;
        self.unit_supply += units;
        units
    }

    fn redeem(&mut self, units: Amount) -> Option<Amount> {
        let amount = (Ratio::from(units) / self.unit_ratio())
            .checked_truncate(scrypto::math::RoundingMode::ToZero)
            .unwrap();
        if amount > self.liquidity || units > self.unit_supply {
            return None;
        }
        self.unit_supply -= units;
        self.liquidity -= amount;
        Some(amount)
    }

    fn withdraw_for_use(&mut self, amount: Amount) {
        assert!(amount <= self.liquidity);
        self.liquidity -= amount;
        self.lent += amount;
    }

    fn deposit_from_use(&mut self, amount: Amount) {
        self.liquidity += amount;
        self.lent -= amount;
    }

    fn supply(&mut self, amount: Amount) {
        self.liquidity += amount;
    }

    fn withdraw(&mut self, amount: Amount) {
        assert!(amount <= self.liquidity);
        self.liquidity -= amount;
    }
}

/// A market with its two pools on the ledger, the prices of the feed and
/// the clock.
struct World {
    market: LendingMarket,
    pools: Vec<LedgerPool>,
    prices: PriceFeed,
    now: i64,
}

fn pool_config() -> PoolConfig {
    PoolConfig {
        protocol_fee_rate: n("0.1"),
        flashloan_fee_rate: n("0.005"),
        protocol_flashloan_fee_rate: n("0.2"),
        protocol_liquidation_fee_rate: n("0.01"),
        asset_type: 0,
        liquidation_bonus_rate: n("0.05"),
        loan_close_factor: n("0.5"),
        deposit_limit: None,
        borrow_limit: None,
        utilization_limit: None,
        interest_update_period: 1,
        price_update_period: 1,
        price_expiration_period: 60,
    }
}

fn new_world() -> World {
    let mut prices = PriceFeed::instantiate();
    prices.admin_update_price(xrd(), n("0.04"), T2022);
    prices.admin_update_price(usd(), n("1"), T2022);
    let mut market = LendingMarket::instantiate(MarketConfig { max_cdp_position: 10 }).unwrap();
    let mut pools = Vec::new();
    for asset in [xrd(), usd()] {
        market
            .create_lending_pool(
                feed(),
                asset,
                units_of(asset),
                false,
                pool_config(),
                (n("0"), vec![ISInputBreakPoint { usage: n("0.9"), slope: n("0.5") }]),
                LiquidationThreshold::new(n("0.7")),
                prices.get_price(asset),
                T2022,
            )
            .unwrap();
        pools.push(LedgerPool {
            asset,
            liquidity: Amount::ZERO,
            lent: Amount::ZERO,
            unit_supply: Amount::ZERO,
        });
    }
    World { market, pools, prices, now: T2022 }
}

/// The market as it stands, for a transaction that may have to be undone.
fn copy_of_market(market: &LendingMarket) -> LendingMarket {
    LendingMarket {
        cdp_counter: market.cdp_counter,
        pool_states: market
            .pool_states
            .iter()
            .map(|pool| lending_market::pool_state::LendingPoolState {
                pool_res_address: pool.pool_res_address,
                price_feed_comp: pool.price_feed_comp,
                collaterals: pool.collaterals,
                reserve: pool.reserve,
                last_price: pool.last_price,
                price_updated_at: pool.price_updated_at,
                total_loan: pool.total_loan,
                total_loan_unit: pool.total_loan_unit,
                interest_rate: pool.interest_rate,
                interest_updated_at: pool.interest_updated_at,
                interest_strategy: pool.interest_strategy.clone(),
                liquidation_threshold: pool.liquidation_threshold.clone(),
                pool_config: pool.pool_config,
                operating_status: pool.operating_status,
            })
            .collect(),
        operating_status: market.operating_status,
        market_config: market.market_config,
        delegatee_cdp_ids: market.delegatee_cdp_ids.clone(),
    }
}

impl World {
    /// Runs an operation as one transaction: what it did is undone if it
    /// fails.
    fn atomically<T>(&mut self, operation: impl FnOnce(&mut World) -> Result<T, String>) -> Result<T, String> {
        let market = copy_of_market(&self.market);
        let pools = self.pools.clone();
        let result = operation(self);
        if result.is_err() {
            self.market = market;
            self.pools = pools;
        }
        result
    }

    fn pool(&mut self, asset: ResourceAddress) -> &mut LedgerPool {
        self.pools.iter_mut().find(|p| p.asset == asset).unwrap()
    }

    fn refresh(&mut self, asset: ResourceAddress) -> Result<(), String> {
        let price = self.prices.get_price(asset);
        let (available, lent) = {
            let pool = self.pool(asset);
            (pool.liquidity, pool.lent)
        };
        let now = self.now;
        let update = self.market.update_pool_state(
            asset,
            now,
            price,
            from_ledger(available),
            from_ledger(lent),
        )?;
        if let Some(update) = update {
            let pool = self.pool(asset);
            pool.lent += to_ledger(update.accrued_interest);
            pool.withdraw(to_ledger(update.protocol_fees));
        }
        Ok(())
    }

    fn refresh_all(&mut self) -> Result<(), String> {
        self.refresh(xrd())?;
        self.refresh(usd())
    }

    fn contribute(&mut self, asset: ResourceAddress, amount: &str) -> Result<Decimal, String> {
        self.atomically(|w| w.contribute_now(asset, amount))
    }

    fn contribute_now(&mut self, asset: ResourceAddress, amount: &str) -> Result<Decimal, String> {
        self.refresh(asset)?;
        let (available, lent) = {
            let pool = self.pool(asset);
            (pool.liquidity, pool.lent)
        };
        let bucket = Bucket { resource_address: asset, amount: n(amount) };
        let now = self.now;
        self.market.contribute(&bucket, now, from_ledger(available), from_ledger(lent))?;
        Ok(from_ledger(self.pool(asset).contribute(to_ledger(n(amount)))))
    }

    fn redeem(&mut self, asset: ResourceAddress, units: &str) -> Result<Decimal, String> {
        self.atomically(|w| w.redeem_now(asset, units))
    }

    fn redeem_now(&mut self, asset: ResourceAddress, units: &str) -> Result<Decimal, String> {
        self.refresh(asset)?;
        let bucket = Bucket { resource_address: units_of(asset), amount: n(units) };
        let now = self.now;
        let pool_asset = self.market.redeem(&bucket, now)?;
        match self.pool(pool_asset).redeem(to_ledger(n(units))) {
            Some(amount) => Ok(from_ledger(amount)),
            None => Err("not enough liquidity".to_string()),
        }
    }

    fn create_cdp(&mut self) -> WrappedCDPData {
        let now = self.now;
        let (id, data) = self.market.create_cdp(None, None, None, now).unwrap();
        WrappedCDPData::new(id, data)
    }

    fn add_collateral(&mut self, cdp: &mut WrappedCDPData, asset: ResourceAddress, amount: &str) -> Result<
        (),
        String,
    > {
        self.atomically(|w| w.add_collateral_now(cdp, asset, amount))
    }

    fn add_collateral_now(&mut self, cdp: &mut WrappedCDPData, asset: ResourceAddress, amount: &str) -> Result<
        (),
        String,
    > {
        self.refresh(asset)?;
        let units = self.pool(asset).contribute(to_ledger(n(amount)));
        let bucket = Bucket { resource_address: units_of(asset), amount: from_ledger(units) };
        let now = self.now;
        self.market.add_collateral(cdp, asset, bucket, now)
    }

    fn borrow(
        &mut self,
        cdp: &WrappedCDPData,
        delegator: &Option<WrappedCDPData>,
        asset: ResourceAddress,
        amount: &str,
    ) -> Result<(WrappedCDPData, Option<WrappedCDPData>), String> {
        self.atomically(|w| w.borrow_now(cdp, delegator, asset, amount))
    }

    fn borrow_now(
        &mut self,
        cdp: &WrappedCDPData,
        delegator: &Option<WrappedCDPData>,
        asset: ResourceAddress,
        amount: &str,
    ) -> Result<(WrappedCDPData, Option<WrappedCDPData>), String> {
        self.refresh_all()?;
        let mut cdp = copy_of(cdp);
        let mut delegator = delegator.as_ref().map(copy_of);
        let (available, lent) = {
            let pool = self.pool(asset);
            (pool.liquidity, pool.lent)
        };
        let now = self.now;
        let loan = self.market.borrow(
            &mut cdp,
            &mut delegator,
            asset,
            n(amount),
            now,
            from_ledger(available),
            from_ledger(lent),
        )?;
        self.market.check_and_save(&mut cdp, &mut delegator, now)?;
        self.pool(asset).withdraw_for_use(to_ledger(loan.amount));
        Ok((cdp, delegator))
    }

    fn repay(
        &mut self,
        cdp: &mut WrappedCDPData,
        delegator: &mut Option<WrappedCDPData>,
        asset: ResourceAddress,
        amount: &str,
    ) -> Result<(Decimal, Decimal), String> {
        self.refresh_all()?;
        let mut progress = self.market.repay(cdp.cdp_id, cdp)?;
        let lent = self.pool(asset).lent;
        let now = self.now;
        let payment = Bucket { resource_address: asset, amount: n(amount) };
        let (remainder, repaid) = self.market._repay_internal(
            cdp,
            delegator,
            payment,
            from_ledger(lent),
            &mut progress,
            OperatingService::Repay,
            now,
        )?;
        let value = self.market.finish_repay(cdp, delegator, &progress, now)?;
        self.pool(asset).deposit_from_use(to_ledger(repaid.amount));
        Ok((remainder.amount, value))
    }

    fn remove_collateral(
        &mut self,
        cdp: &WrappedCDPData,
        asset: ResourceAddress,
        units: &str,
    ) -> Result<(WrappedCDPData, Decimal), String> {
        self.atomically(|w| w.remove_collateral_now(cdp, asset, units))
    }

    fn remove_collateral_now(
        &mut self,
        cdp: &WrappedCDPData,
        asset: ResourceAddress,
        units: &str,
    ) -> Result<(WrappedCDPData, Decimal), String> {
        self.refresh_all()?;
        let mut cdp = copy_of(cdp);
        let mut nobody = None;
        let now = self.now;
        let taken = self.market.remove_collateral(&mut cdp, asset, n(units), now)?;
        self.market.check_and_save(&mut cdp, &mut nobody, now)?;
        let amount = self.pool(asset).redeem(to_ledger(taken.amount)).unwrap();
        Ok((cdp, from_ledger(amount)))
    }
}

/// A position as read again from the ledger.
fn copy_of(cdp: &WrappedCDPData) -> WrappedCDPData {
    let mut data = lending_market::cdp_data::CollaterizedDebtPositionData::new(
        cdp.cdp_data.name.clone(),
        cdp.cdp_data.description.clone(),
        cdp.cdp_data.key_image_url.clone(),
        cdp.cdp_data.cdp_type,
        cdp.cdp_data.minted_at,
    );
    data.collaterals = cdp.cdp_data.collaterals.clone();
    data.loans = cdp.cdp_data.loans.clone();
    data.delegatee_loans = cdp.cdp_data.delegatee_loans.clone();
    data.delegatee_count = cdp.cdp_data.delegatee_count;
    data.updated_at = cdp.cdp_data.updated_at;
    let mut copy = WrappedCDPData::new(cdp.cdp_id, data);
    copy.cdp_data_updated = cdp.cdp_data_updated;
    copy
}

#[test]
fn test_instantiate_market() {
    let market = LendingMarket::instantiate(MarketConfig { max_cdp_position: 10 }).unwrap();
    assert_eq!(market.cdp_counter, 0);
    assert!(market.pool_states.is_empty());
    assert!(market.delegatee_cdp_ids.is_empty());
    assert!(market.check_operating_status(OperatingService::Borrow).is_ok());
    assert_eq!(
        LendingMarket::instantiate(MarketConfig { max_cdp_position: 0 }).err(),
        Some("Max CDP position must be greater than 0".to_string())
    );
}

#[test]
fn test_instantiate_price_feed() {
    let feed = PriceFeed::instantiate();
    assert!(feed.prices.is_empty());
    assert_eq!(feed.updater_counter, 0);
    assert_eq!(feed.get_price(xrd()), None);
}

#[test]
fn test_instantiate_faucet() {
    let faucet = CaviarLsuPoolComponentFaucet::instantiate(n("1000"), n("1100"));
    assert_eq!(faucet.get_liquidity_token_total_supply(), n("1000"));
    assert_eq!(faucet.get_dex_valuation_xrd(), n("1100"));
}

#[test]
fn test_deposit_withdraw_borrow_repay() {
    let mut world = new_world();

    // SET UP A LP PROVIDER
    let lp_units = world.contribute(usd(), "2000").unwrap();
    assert_eq!(lp_units, n("2000"));

    // SET UP A BORROWER
    let mut cdp = world.create_cdp();
    assert_eq!(cdp.cdp_id, 1);
    world.add_collateral(&mut cdp, xrd(), "10000").unwrap();
    assert_eq!(cdp.get_collateral_units(xrd()), n("10000"));

    // BORROW
    assert_eq!(
        world.borrow(&cdp, &None, usd(), "1000").err(),
        Some("LTV need to be lower 1".to_string())
    );
    let (borrowed, _) = world.borrow(&cdp, &None, usd(), "100").unwrap();
    let mut cdp = borrowed;
    assert_eq!(cdp.get_loan_unit(usd()), n("100"));

    assert_eq!(
        world.remove_collateral(&cdp, xrd(), "10000").err(),
        Some("LTV need to be lower 1".to_string())
    );

    world.now = T2023;
    world.prices.admin_update_price(xrd(), n("0.04"), T2023);
    world.prices.admin_update_price(usd(), n("1"), T2023);

    let mut nobody = None;
    let (rest, value) = world.repay(&mut cdp, &mut nobody, usd(), "100").unwrap();
    assert_eq!(rest, n("0"));
    assert_eq!(value, n("100"));
    assert_eq!(cdp.get_loan_unit(usd()), n("0"));

    let (cdp, returned) = world.remove_collateral(&cdp, xrd(), "10000").unwrap();
    assert_eq!(returned, n("10000"));
    assert_eq!(cdp.get_collateral_units(xrd()), n("0"));

    // REDEEM
    assert!(world.redeem(usd(), "2100").is_err());
    let received = world.redeem(usd(), "2000").unwrap();
    assert!(received.ge(n("2000")));
}

fn liquidation_scenario() -> (Decimal, Decimal, Decimal, CDPLiquidatedEvent) {
    let mut world = new_world();

    // SET UP A LP PROVIDER
    world.contribute(usd(), "800").unwrap();

    // Create CDP WITH 15000 XRD AS Collateral <=> 600$
    let mut cdp = world.create_cdp();
    world.add_collateral(&mut cdp, xrd(), "15000").unwrap();

    // Borrow 400$ Of USD
    let (mut cdp, _) = world.borrow(&cdp, &None, usd(), "400").unwrap();

    // Change XRD PRICE DROP FROM 0.04 to 0.02
    world.now = T2022 + 600;
    world.prices.admin_update_price(xrd(), n("0.02"), world.now);
    world.prices.admin_update_price(usd(), n("1"), world.now);

    // The pools are not up to date yet.
    let now = world.now;
    assert_eq!(
        world.market.start_liquidation(&cdp, &None, None, now).err(),
        Some("Pool state is out of date".to_string())
    );
    world.refresh_all().unwrap();

    // START LIQUIDATION
    let mut progress = world.market.start_liquidation(&cdp, &None, None, now).unwrap();
    assert_eq!(progress.requested_value, n("200"));
    let unit_ratio = ratio_from_ledger(world.pool(xrd()).unit_ratio());
    let seized = world
        .market
        ._remove_collateral(&mut cdp, xrd(), unit_ratio, &mut progress, now)
        .unwrap()
        .unwrap();
    let payment_value = world.market.finish_remove_collateral(&mut cdp, &progress, false, now).unwrap();
    let redeemed = world.pool(xrd()).redeem(to_ledger(seized.amount)).unwrap();
    let for_liquidator = world
        .market
        .collect_liquidation_fee(Bucket { resource_address: xrd(), amount: from_ledger(redeemed) })
        .unwrap();
    let term = LendingMarket::liquidation_term(cdp.cdp_id, payment_value);

    // END LIQUIDATION
    let mut repayment = lending_market::lending_market::RepayProgress {
        expected_payment_value: Some(term.payement_value),
        total_payment_value: n("0"),
    };
    let lent = world.pool(usd()).lent;
    let mut nobody = None;
    let (rest, repaid) = world
        .market
        ._repay_internal(
            &mut cdp,
            &mut nobody,
            Bucket { resource_address: usd(), amount: term.payement_value },
            from_ledger(lent),
            &mut repayment,
            OperatingService::Liquidation,
            now,
        )
        .unwrap();
    assert_eq!(rest.amount, n("0"));
    let total = world.market.finish_repay(&mut cdp, &mut nobody, &repayment, now).unwrap();
    world.pool(usd()).deposit_from_use(to_ledger(repaid.amount));
    let event = world.market.end_liquidation(cdp.cdp_id, None, total, &term).unwrap();

    assert_eq!(cdp.get_collateral_units(xrd()), n("4500"));
    assert_eq!(cdp.get_loan_unit(usd()), n("200"));
    (seized.amount, for_liquidator.amount, total, event)
}

#[test]
fn basic_test_liquidation() {
    let (seized, for_liquidator, total, event) = liquidation_scenario();
    assert_eq!(seized, n("10500"));
    assert_eq!(for_liquidator, n("10395"));
    assert_eq!(total, n("200"));
    assert_eq!(event, CDPLiquidatedEvent { cdp_id: 1, delegator_cdp_id: None });
}

#[test]
fn liquidation_test_liquidation() {
    let (seized, _, total, _) = liquidation_scenario();
    // The collateral seized is worth the payment plus the bonus.
    let collateral_value = to_ledger(seized) * Amount::try_from("0.02").unwrap();
    assert_eq!(collateral_value, to_ledger(total) * Amount::try_from("1.05").unwrap());
}

fn flash_loan_scenario() -> (Decimal, Decimal, Decimal) {
    let mut world = new_world();
    world.contribute(xrd(), "25000").unwrap();

    let mut requests = scrypto::prelude::IndexMap::default();
    requests.insert(xrd(), n("1000"));
    let (loans, term) = world.market.take_batch_flashloan(&requests).unwrap();
    assert_eq!(loans, vec![Bucket { resource_address: xrd(), amount: n("1000") }]);
    assert_eq!(term.terms.len(), 1);
    assert_eq!(term.entry_at(0).1.fee_amount, n("5"));
    world.pool(xrd()).withdraw_for_use(to_ledger(loans[0].amount));

    // An underpayment is refused.
    assert_eq!(
        world
            .market
            .repay_batch_flashloan(vec![Bucket { resource_address: xrd(), amount: n("1004") }], &term)
            .err(),
        Some("Insufficient repayment given for your loan!".to_string())
    );

    let (remainders, repayments) = world
        .market
        .repay_batch_flashloan(vec![Bucket { resource_address: xrd(), amount: n("1100") }], &term)
        .unwrap();
    assert_eq!(remainders, vec![Bucket { resource_address: xrd(), amount: n("95") }]);
    let settled = repayments[0];
    world.pool(xrd()).deposit_from_use(to_ledger(settled.loan_amount));
    world.pool(xrd()).supply(to_ledger(settled.lp_fee_amount));
    let reserve = world.market.pool_states[0].reserve.amount;
    let claimable = from_ledger(world.pool(xrd()).liquidity);
    (reserve, settled.lp_fee_amount, claimable)
}

#[test]
fn basic_test_flash_loan() {
    let (reserve, lp_fee, claimable) = flash_loan_scenario();
    assert_eq!(reserve, n("1"));
    assert_eq!(lp_fee, n("4"));
    assert_eq!(claimable, n("25004"));
}

#[test]
fn flashloan_test_flash_loan() {
    let (reserve, lp_fee, _) = flash_loan_scenario();
    // The fee of 5 is split between the reserve and the lenders.
    assert_eq!(to_ledger(reserve) + to_ledger(lp_fee), Amount::try_from("5").unwrap());
}

#[test]
fn delegatee_borrows_within_its_limit() {
    let mut world = new_world();
    world.contribute(usd(), "2000").unwrap();
    let mut delegator = world.create_cdp();
    world.add_collateral(&mut delegator, xrd(), "10000").unwrap();

    let now = world.now;
    let (id, data) = world
        .market
        .create_delegatee_cdp(&mut delegator, None, Some(n("0.5")), None, None, None, now)
        .unwrap();
    assert_eq!(id, 2);
    assert_eq!(delegator.cdp_data.delegatee_count, 1);
    let delegatee = WrappedCDPData::new(id, data);

    // The discounted collateral is 10000 * 0.04 * 0.7 = 280; 40% of it is 112.
    let (delegatee, delegator) = world.borrow(&delegatee, &Some(delegator), usd(), "112").unwrap();
    assert_eq!(delegatee.get_loan_unit(usd()), n("112"));
    assert_eq!(
        delegator.as_ref().unwrap().get_delegatee_loan_unit(usd()),
        n("112")
    );
    assert_eq!(delegator.as_ref().unwrap().get_loan_unit(usd()), n("0"));

    // Another 20% would take the delegatee to 60% of it.
    assert_eq!(
        world.borrow(&delegatee, &delegator, usd(), "56").err(),
        Some("Loan value ratio need to be lower than setted limit".to_string())
    );
    assert_eq!(delegatee.get_loan_unit(usd()), n("112"));
    // Up to the limit it is accepted.
    let (delegatee, delegator) = world.borrow(&delegatee, &delegator, usd(), "28").unwrap();
    assert_eq!(delegatee.get_loan_unit(usd()), n("140"));
    assert_eq!(delegator.unwrap().get_delegatee_loan_unit(usd()), n("140"));
}

#[test]
fn insolvent_position_can_be_refinanced() {
    let mut world = new_world();
    world.contribute(usd(), "2000").unwrap();
    let mut cdp = world.create_cdp();
    world.add_collateral(&mut cdp, xrd(), "10000").unwrap();
    let (mut cdp, _) = world.borrow(&cdp, &None, usd(), "100").unwrap();

    let now = world.now;
    assert_eq!(
        world.market.refinance(&cdp, &None, &vec![usd()], now).err(),
        Some("This CDP can not be refinanced: LTV ratio greater than 1".to_string())
    );

    // The collateral loses all its value.
    world.now = T2022 + 600;
    world.prices.admin_update_price(xrd(), n("0"), world.now);
    world.prices.admin_update_price(usd(), n("1"), world.now);
    world.refresh_all().unwrap();
    let now = world.now;

    let mut progress = world.market.refinance(&cdp, &None, &vec![usd()], now).unwrap();
    let lent = world.pool(usd()).lent;
    let mut nobody = None;
    let (rest, repaid) = world
        .market
        ._repay_internal(
            &mut cdp,
            &mut nobody,
            Bucket { resource_address: usd(), amount: n("60") },
            from_ledger(lent),
            &mut progress,
            OperatingService::Repay,
            now,
        )
        .unwrap();
    assert_eq!(rest.amount, n("0"));
    assert_eq!(repaid.amount, n("60"));
    let value = world.market.finish_repay(&mut cdp, &mut nobody, &progress, now).unwrap();
    world.pool(usd()).deposit_from_use(to_ledger(repaid.amount));
    assert_eq!(value, n("60"));
    assert_eq!(cdp.get_loan_unit(usd()), n("40"));
    assert_eq!(world.market.pool_states[1].total_loan, n("40"));
}

#[test]
fn borrow_is_gated_for_the_market_and_per_pool() {
    let mut world = new_world();
    world.contribute(usd(), "2000").unwrap();
    world.contribute(xrd(), "50000").unwrap();
    let mut cdp = world.create_cdp();
    world.add_collateral(&mut cdp, xrd(), "10000").unwrap();

    world
        .market
        .admin_update_operating_status(OperatingService::Borrow, false, None)
        .unwrap();
    assert_eq!(
        world.borrow(&cdp, &None, usd(), "10").err(),
        Some("Operation is not allowed: the service is disabled".to_string())
    );
    world
        .market
        .admin_update_operating_status(OperatingService::Borrow, true, None)
        .unwrap();

    world
        .market
        .admin_update_operating_status(OperatingService::Borrow, false, Some(usd()))
        .unwrap();
    assert_eq!(
        world.borrow(&cdp, &None, usd(), "10").err(),
        Some("Operation is not allowed: the service is disabled".to_string())
    );
    let (cdp, _) = world.borrow(&cdp, &None, xrd(), "100").unwrap();
    assert_eq!(cdp.get_loan_unit(xrd()), n("100"));

    // A moderator cannot undo what the administrator set.
    assert_eq!(
        world
            .market
            .update_operating_status(OperatingService::Borrow, true, Some(usd()))
            .err(),
        Some("Operating status was set by an admin and cannot be changed by a moderator".to_string())
    );
}
