use lending_market::decimal::Decimal;
use lending_market::price_feed::{CaviarLsuPriceFeedProxy, PriceFeed, UpdaterBadgeData};
use lending_market::utils::{ComponentAddress, PriceInfo, ResourceAddress};

fn q(text: &str) -> Decimal {
    let parsed = scrypto::math::Decimal::try_from(text).unwrap();
    let digits = parsed.attos().to_digits();
    Decimal { d0: digits[0], d1: digits[1], d2: digits[2] }
}

fn token(n: u128) -> ResourceAddress {
    ResourceAddress { hi: 0, lo: n }
}

#[test]
fn admin_sets_and_replaces_prices() {
    let mut feed = PriceFeed::instantiate();
    feed.admin_update_price(token(1), q("0.04"), 100);
    feed.admin_update_price(token(2), q("1"), 100);
    assert_eq!(feed.get_price(token(1)), Some(PriceInfo { timestamp: 100, price: q("0.04") }));
    feed.admin_update_price(token(1), q("0.02"), 160);
    assert_eq!(feed.get_price(token(1)), Some(PriceInfo { timestamp: 160, price: q("0.02") }));
    assert_eq!(feed.get_price(token(2)), Some(PriceInfo { timestamp: 100, price: q("1") }));
    assert_eq!(feed.get_price(token(3)), None);
    assert_eq!(feed.prices.len(), 2);
}

#[test]
fn updater_needs_an_active_badge() {
    let mut feed = PriceFeed::instantiate();
    let (first, active) = feed.mint_updater_badge(true).unwrap();
    let (second, inactive) = feed.mint_updater_badge(false).unwrap();
    assert_eq!((first, second), (1, 2));
    assert_eq!(feed.updater_counter, 2);
    assert!(feed.update_price(active, token(1), q("5"), 10).is_ok());
    assert_eq!(
        feed.update_price(inactive, token(1), q("6"), 20),
        Err("Updater badge is not active.".to_string())
    );
    assert_eq!(feed.get_price(token(1)), Some(PriceInfo { timestamp: 10, price: q("5") }));
    let switched = feed.update_updater_badge(true);
    assert_eq!(switched, UpdaterBadgeData { active: true });
    assert!(feed.update_price(switched, token(1), q("6"), 20).is_ok());
    assert_eq!(feed.get_price(token(1)), Some(PriceInfo { timestamp: 20, price: q("6") }));
}

#[test]
fn badge_counter_stops_at_its_limit() {
    let mut feed = PriceFeed::instantiate();
    feed.updater_counter = u64::MAX;
    assert_eq!(
        feed.mint_updater_badge(true),
        Err("Updater badge counter overflow".to_string())
    );
    assert_eq!(feed._get_new_id(), Err("Updater badge counter overflow".to_string()));
}

#[test]
fn staking_unit_price_is_valuation_over_supply() {
    let mut proxy = CaviarLsuPriceFeedProxy::instantiate(token(7), ComponentAddress { hi: 7, lo: 70 });
    assert_eq!(
        proxy.get_price(token(7), q("1100"), q("1000"), 50),
        Ok(Some(PriceInfo { timestamp: 50, price: q("1.1") }))
    );
    assert_eq!(proxy.prices, vec![(token(7), PriceInfo { timestamp: 50, price: q("1.1") })]);
    assert_eq!(
        proxy.get_price(token(7), q("1"), q("3"), 60),
        Ok(Some(PriceInfo { timestamp: 60, price: q("0.333333333333333333") }))
    );
    assert_eq!(proxy.prices.len(), 1);
}

#[test]
fn staking_unit_price_needs_a_supply() {
    let mut proxy = CaviarLsuPriceFeedProxy::instantiate(token(7), ComponentAddress { hi: 7, lo: 70 });
    assert_eq!(proxy.get_price(token(7), q("1100"), q("0"), 50), Ok(None));
    assert_eq!(proxy.get_price(token(7), q("1100"), q("-1"), 50), Ok(None));
    assert!(proxy.prices.is_empty());
    assert_eq!(
        proxy.get_price(token(8), q("1100"), q("1000"), 50),
        Err("Invalid resource address".to_string())
    );
}

#[test]
fn staking_unit_price_is_cut_toward_zero() {
    let mut proxy = CaviarLsuPriceFeedProxy::instantiate(token(7), ComponentAddress { hi: 7, lo: 70 });
    assert_eq!(
        proxy.get_price(token(7), q("-1"), q("3"), 60),
        Ok(Some(PriceInfo { timestamp: 60, price: q("-0.333333333333333333") }))
    );
    assert_eq!(
        proxy.get_price(token(7), q("2"), q("3"), 60),
        Ok(Some(PriceInfo { timestamp: 60, price: q("0.666666666666666666") }))
    );
}
