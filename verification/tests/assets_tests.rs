use lending_market::assets::{sub_within, Bucket, Vault};
use lending_market::decimal::Decimal;
use lending_market::utils::ResourceAddress;

fn a(text: &str) -> Decimal {
    let parsed = scrypto::math::Decimal::try_from(text).unwrap();
    let digits = parsed.attos().to_digits();
    Decimal { d0: digits[0], d1: digits[1], d2: digits[2] }
}

fn gold() -> ResourceAddress {
    ResourceAddress { hi: 3, lo: 4 }
}

fn silver() -> ResourceAddress {
    ResourceAddress { hi: 3, lo: 5 }
}

#[test]
fn bucket_take_splits_the_amount() {
    let mut bucket = Bucket { resource_address: gold(), amount: a("10") };
    let taken = bucket.take(a("3.5")).unwrap();
    assert_eq!(taken, Bucket { resource_address: gold(), amount: a("3.5") });
    assert_eq!(bucket.amount, a("6.5"));
    assert_eq!(bucket.take(a("6.5")).unwrap().amount, a("6.5"));
    assert_eq!(bucket.amount, a("0"));
}

#[test]
fn bucket_take_refuses_what_is_not_there() {
    let mut bucket = Bucket { resource_address: gold(), amount: a("10") };
    for amount in ["10.000000000000000001", "-1"] {
        assert_eq!(
            bucket.take(a(amount)),
            Err("Amount to take must be between zero and the amount held".to_string())
        );
        assert_eq!(bucket.amount, a("10"));
    }
    assert_eq!(Bucket::new(gold()).amount, a("0"));
}

#[test]
fn vault_put_adds_the_same_asset_only() {
    let mut vault = Vault::new(gold());
    vault.put(Bucket { resource_address: gold(), amount: a("2") }).unwrap();
    vault.put(Bucket { resource_address: gold(), amount: a("0.5") }).unwrap();
    assert_eq!(vault.amount, a("2.5"));
    assert_eq!(
        vault.put(Bucket { resource_address: silver(), amount: a("1") }),
        Err("Resource address missmatch".to_string())
    );
    assert_eq!(vault.amount, a("2.5"));
}

#[test]
fn vault_put_refuses_an_overflow() {
    let mut vault = Vault { resource_address: gold(), amount: Decimal::max_value() };
    assert_eq!(
        vault.put(Bucket { resource_address: gold(), amount: a("0.000000000000000001") }),
        Err("Amount overflow".to_string())
    );
    assert_eq!(vault.amount, Decimal::max_value());
}

#[test]
fn vault_take_and_take_all() {
    let mut vault = Vault { resource_address: gold(), amount: a("9") };
    assert_eq!(vault.take(a("4")).unwrap(), Bucket { resource_address: gold(), amount: a("4") });
    assert!(vault.take(a("5.1")).is_err());
    assert_eq!(vault.take_all(), Bucket { resource_address: gold(), amount: a("5") });
    assert_eq!(vault.amount, a("0"));
}

#[test]
fn difference_within_bounds() {
    assert_eq!(sub_within(a("7"), a("2.25")), a("4.75"));
    assert_eq!(sub_within(a("7"), a("7")), a("0"));
}
