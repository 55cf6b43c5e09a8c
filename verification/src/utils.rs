//! Shared small types and helpers.

use crate::decimal::{one_attos, Decimal};
use vstd::prelude::*;

verus! {

/// Whether a rate lies between zero and one, both included.
pub open spec fn spec_is_valid_rate(rate: int) -> bool {
    0 <= rate <= one_attos()
}

/// Check if the given rate is between 0 and 1.
pub fn is_valid_rate(rate: Decimal) -> (r: bool)
    ensures
        r == spec_is_valid_rate(rate@),
{
    rate.ge(Decimal::zero()) && rate.le(Decimal::one())
}

/// The text of the error in a result, if it is one.
pub open spec fn err_text<T>(r: Result<T, String>) -> Option<Seq<char>> {
    match r {
        Ok(_) => None,
        Err(e) => Some(e@),
    }
}

/// An owned error message with the given text.
pub fn message(text: &str) -> (r: String)
    ensures
        r@ == text@,
{
    text.to_owned()
}

/// The identity of an asset on the ledger: its address as a 256-bit number.
#[derive(Clone, Copy, Debug, PartialEq, Eq, Hash, Structural)]
pub struct ResourceAddress {
    pub hi: u128,
    pub lo: u128,
}

/// The identity of a component on the ledger: its address as a 256-bit
/// number.
#[derive(Clone, Copy, Debug, PartialEq, Eq, Hash, Structural)]
pub struct ComponentAddress {
    pub hi: u128,
    pub lo: u128,
}

/// How liquidity leaves the pool.
#[derive(Clone, Copy, Debug, PartialEq, Eq, Structural)]
pub enum WithdrawType {
    /// Lent out: the amount stays owed to the pool.
    TemporaryUse,
    /// Taken out for good.
    LiquidityWithdrawal,
}

/// How liquidity enters the pool.
#[derive(Clone, Copy, Debug, PartialEq, Eq, Structural)]
pub enum DepositType {
    /// A loan coming back.
    FromTemporaryUse,
    /// New liquidity.
    LiquiditySupply,
}

/// A price reading of the oracle.
#[derive(Clone, Copy, Debug, PartialEq, Eq, Structural)]
pub struct PriceInfo {
    /// Seconds since the epoch.
    pub timestamp: i64,
    pub price: Decimal,
}

} // verus!
