use lending_market::decimal::Decimal;
use lending_market::interest_strategy::{ISInputBreakPoint, InterestStrategy};

fn r(text: &str) -> Decimal {
    let parsed = scrypto::math::Decimal::try_from(text).unwrap();
    let digits = parsed.attos().to_digits();
    Decimal { d0: digits[0], d1: digits[1], d2: digits[2] }
}

fn point(usage: &str, slope: &str) -> ISInputBreakPoint {
    ISInputBreakPoint { usage: r(usage), slope: r(slope) }
}

fn curve() -> InterestStrategy {
    let mut strategy = InterestStrategy::new();
    strategy
        .set_breakpoints(r("0.02"), vec![point("0", "0.1"), point("0.8", "1")])
        .unwrap();
    strategy
}

#[test]
fn new_strategy_is_flat_at_zero() {
    let strategy = InterestStrategy::new();
    assert_eq!(strategy.get_interest_rate(r("0")), Ok(r("0")));
    assert_eq!(strategy.get_interest_rate(r("0.7")), Ok(r("0")));
}

#[test]
fn rate_is_the_initial_rate_at_zero_usage() {
    assert_eq!(curve().get_interest_rate(r("0")), Ok(r("0.02")));
}

#[test]
fn rate_grows_with_the_first_slope_below_the_kink() {
    assert_eq!(curve().get_interest_rate(r("0.5")), Ok(r("0.07")));
    assert_eq!(curve().get_interest_rate(r("0.8")), Ok(r("0.1")));
}

#[test]
fn rate_grows_with_the_second_slope_above_the_kink() {
    assert_eq!(curve().get_interest_rate(r("0.9")), Ok(r("0.2")));
    assert_eq!(curve().get_interest_rate(r("1")), Ok(r("0.3")));
}

#[test]
fn product_of_slope_and_width_is_cut_toward_zero() {
    let mut strategy = InterestStrategy::new();
    strategy
        .set_breakpoints(r("0"), vec![point("0", "0.333333333333333333")])
        .unwrap();
    assert_eq!(
        strategy.get_interest_rate(r("0.5")),
        Ok(r("0.166666666666666666"))
    );
}

#[test]
fn breakpoints_must_lie_between_zero_and_one() {
    let mut strategy = curve();
    let refused = strategy.set_breakpoints(r("0.5"), vec![point("0", "0.1"), point("1.2", "1")]);
    assert_eq!(refused, Err("Breakpoint usage must be between 0 and 1".to_string()));
    assert_eq!(strategy.get_interest_rate(r("0.9")), Ok(r("0.2")));
    let refused = strategy.set_breakpoints(r("0.5"), vec![point("-0.1", "0.1")]);
    assert_eq!(refused, Err("Breakpoint usage must be between 0 and 1".to_string()));
}

#[test]
fn breakpoints_must_strictly_increase() {
    let mut strategy = curve();
    let refused = strategy.set_breakpoints(r("0.5"), vec![point("0.4", "0.1"), point("0.4", "1")]);
    assert_eq!(refused, Err("Breakpoint usages must be strictly increasing".to_string()));
    let refused = strategy.set_breakpoints(r("0.5"), vec![point("0.4", "0.1"), point("0.3", "1")]);
    assert_eq!(refused, Err("Breakpoint usages must be strictly increasing".to_string()));
    assert_eq!(strategy.initial_rate, r("0.02"));
    assert_eq!(strategy.break_points.len(), 2);
}

#[test]
fn accepted_breakpoints_replace_the_curve() {
    let mut strategy = curve();
    assert!(strategy.set_breakpoints(r("0.01"), vec![point("0.5", "2")]).is_ok());
    assert_eq!(strategy.get_interest_rate(r("0.25")), Ok(r("0.01")));
    assert_eq!(strategy.get_interest_rate(r("0.75")), Ok(r("0.51")));
    assert!(strategy.set_breakpoints(r("0.03"), vec![]).is_ok());
    assert_eq!(strategy.get_interest_rate(r("1")), Ok(r("0.03")));
}

#[test]
fn rate_out_of_range_is_an_error() {
    let mut strategy = InterestStrategy::new();
    let huge = "3138550867693340381917894711603833208051";
    strategy.set_breakpoints(r(huge), vec![point("0", huge)]).unwrap();
    assert_eq!(
        strategy.get_interest_rate(r("1")),
        Err("Interest rate overflow".to_string())
    );
}

#[test]
fn clone_keeps_the_curve() {
    let copy = curve().clone();
    assert_eq!(copy.get_interest_rate(r("0.9")), Ok(r("0.2")));
}

#[test]
fn negative_product_is_cut_toward_zero_too() {
    let mut strategy = InterestStrategy::new();
    strategy
        .set_breakpoints(r("0"), vec![point("0", "-0.333333333333333333")])
        .unwrap();
    assert_eq!(
        strategy.get_interest_rate(r("0.5")),
        Ok(r("-0.166666666666666666"))
    );
}
