//! Fixed-point amounts with eighteen fractional digits, held as three
//! little-endian 64-bit digits in two's complement.
//!
//! Comparison, constants and selection are verified here. Arithmetic on 192
//! bits is done by the `scrypto` fixed-point type; each call stands behind a
//! small function whose contract says, over plain integers, what the call
//! returns.

use scrypto::math::{CheckedAdd, CheckedDiv, CheckedMul, CheckedSub, I192};
use vstd::prelude::*;

verus! {

/// Two to the power 64.
pub open spec fn pow2_64() -> int {
    0x1_0000_0000_0000_0000int
}

/// Two to the power 128.
pub open spec fn pow2_128() -> int {
    0x1_0000_0000_0000_0000_0000_0000_0000_0000int
}

/// Two to the power 192.
pub open spec fn pow2_192() -> int {
    0x1_0000_0000_0000_0000_0000_0000_0000_0000_0000_0000_0000_0000int
}

/// The number of subunits in one whole unit: ten to the power 18.
pub open spec fn one_attos() -> int {
    1_000_000_000_000_000_000int
}

/// Smallest subunit count a `Decimal` can hold.
pub open spec fn dec_min() -> int {
    -0x8000_0000_0000_0000_0000_0000_0000_0000_0000_0000_0000_0000int
}

/// Largest subunit count a `Decimal` can hold.
pub open spec fn dec_max() -> int {
    0x7fff_ffff_ffff_ffff_ffff_ffff_ffff_ffff_ffff_ffff_ffff_ffffint
}

/// Whether a subunit count fits a `Decimal`.
pub open spec fn dec_fits(v: int) -> bool {
    dec_min() <= v <= dec_max()
}

/// `v` when it fits a `Decimal`, nothing otherwise.
pub open spec fn fit(v: int) -> Option<int> {
    if dec_fits(v) {
        Some(v)
    } else {
        None
    }
}

/// Quotient rounded toward zero. Unspecified for a zero divisor.
pub open spec fn trunc_div(a: int, b: int) -> int {
    if a >= 0 && b > 0 {
        a / b
    } else if a < 0 && b > 0 {
        -((-a) / b)
    } else if a >= 0 && b < 0 {
        -(a / (-b))
    } else {
        (-a) / (-b)
    }
}

/// Sum of two subunit counts, when it fits.
pub open spec fn spec_add(a: int, b: int) -> Option<int> {
    fit(a + b)
}

/// Difference of two subunit counts, when it fits.
pub open spec fn spec_sub(a: int, b: int) -> Option<int> {
    fit(a - b)
}

/// Fixed-point product: the product of the subunit counts divided by
/// `10^18`, rounded toward zero, when it fits.
pub open spec fn spec_mul(a: int, b: int) -> Option<int> {
    fit(trunc_div(a * b, one_attos()))
}

/// Fixed-point quotient: the dividend's subunits times `10^18` divided by the
/// divisor's, rounded toward zero, when the divisor is not zero and the
/// result fits.
pub open spec fn spec_div(a: int, b: int) -> Option<int> {
    if b == 0 {
        None
    } else {
        fit(trunc_div(a * one_attos(), b))
    }
}

/// The subunit count with its last decimal digit cleared, toward zero.
pub open spec fn spec_round17(a: int) -> int {
    trunc_div(a, 10) * 10
}

/// What `Decimal::checked_powi` of the fixed-point crate returns for a base
/// of `base` subunits and the exponent `exp`: a power by repeated squaring,
/// each step rounded toward zero, or nothing on overflow.
pub uninterp spec fn decimal_powi(base: int, exp: int) -> Option<int>;

/// A signed fixed-point number of `view()` subunits of `10^-18`.
#[derive(Clone, Copy, Debug, PartialEq, Eq, Hash, Structural)]
pub struct Decimal {
    /// Least significant digit.
    pub d0: u64,
    pub d1: u64,
    /// Most significant digit; its top bit is the sign.
    pub d2: u64,
}

impl View for Decimal {
    type V = int;

    open spec fn view(&self) -> int {
        let u = self.d0 as int + self.d1 as int * pow2_64() + self.d2 as int * pow2_128();
        if self.d2 >= 0x8000_0000_0000_0000u64 {
            u - pow2_192()
        } else {
            u
        }
    }
}

/// The amount of `v` subunits, for a `v` that fits.
#[verifier::opaque]
pub open spec fn dec_of(v: int) -> Decimal {
    let u = if v < 0 {
        v + pow2_192()
    } else {
        v
    };
    Decimal {
        d0: (u % pow2_64()) as u64,
        d1: ((u / pow2_64()) % pow2_64()) as u64,
        d2: (u / pow2_128()) as u64,
    }
}

/// Lifts the view over an optional amount.
pub open spec fn opt_view(o: Option<Decimal>) -> Option<int> {
    match o {
        Some(d) => Some(d@),
        None => None,
    }
}

/// Every `Decimal` is in range.
pub proof fn lemma_view_fits(a: Decimal)
    ensures
        dec_fits(a@),
{
}

/// Two amounts with the same subunit count have the same digits.
pub proof fn lemma_view_injective(a: Decimal, b: Decimal)
    ensures
        (a@ == b@) <==> (a == b),
{
    if a@ == b@ {
        assert(a.d2 == b.d2);
        assert(a.d1 == b.d1);
        assert(a.d0 == b.d0);
    }
}

/// `dec_of` gives the one amount with the asked subunit count.
pub proof fn lemma_dec_of(a: Decimal)
    ensures
        dec_of(a@) == a,
{
    reveal(dec_of);
    let u = a.d0 as int + a.d1 as int * pow2_64() + a.d2 as int * pow2_128();
    assert(u % pow2_64() == a.d0 as int);
    assert(u / pow2_64() == a.d1 as int + a.d2 as int * pow2_64());
    assert((u / pow2_64()) % pow2_64() == a.d1 as int);
    assert(u / pow2_128() == a.d2 as int);
    if a.d2 >= 0x8000_0000_0000_0000u64 {
        assert(a@ == u - pow2_192());
        assert(a@ < 0);
    } else {
        assert(a@ == u);
        assert(a@ >= 0);
    }
}

/// `dec_of` of a count that fits has that count.
pub proof fn lemma_dec_of_fits(v: int)
    requires
        dec_fits(v),
    ensures
        dec_of(v)@ == v,
{
    reveal(dec_of);
    let u = if v < 0 {
        v + pow2_192()
    } else {
        v
    };
    let d = dec_of(v);
    assert(0 <= u < pow2_192());
    assert(u / pow2_128() < pow2_64());
    assert(d.d2 as int == u / pow2_128());
    assert(d.d1 as int == (u / pow2_64()) % pow2_64());
    assert(d.d0 as int == u % pow2_64());
    assert(u / pow2_64() == (u / pow2_128()) * pow2_64() + (u / pow2_64()) % pow2_64());
    assert(u == (u / pow2_64()) * pow2_64() + u % pow2_64());
}

impl Decimal {
    /// Zero.
    pub fn zero() -> (r: Decimal)
        ensures
            r@ == 0,
    {
        Decimal { d0: 0, d1: 0, d2: 0 }
    }

    /// One whole unit.
    pub fn one() -> (r: Decimal)
        ensures
            r@ == one_attos(),
    {
        Decimal { d0: 1_000_000_000_000_000_000, d1: 0, d2: 0 }
    }

    /// The largest amount.
    pub fn max_value() -> (r: Decimal)
        ensures
            r@ == dec_max(),
    {
        Decimal {
            d0: 0xffff_ffff_ffff_ffff,
            d1: 0xffff_ffff_ffff_ffff,
            d2: 0x7fff_ffff_ffff_ffff,
        }
    }

    /// A whole number of units.
    pub fn from_u32(n: u32) -> (r: Decimal)
        ensures
            r@ == n as int * one_attos(),
    {
        let wide: u128 = (n as u128) * 1_000_000_000_000_000_000u128;
        let lo: u64 = (wide % 0x1_0000_0000_0000_0000u128) as u64;
        let hi: u64 = (wide / 0x1_0000_0000_0000_0000u128) as u64;
        Decimal { d0: lo, d1: hi, d2: 0 }
    }

    pub fn is_zero(self) -> (r: bool)
        ensures
            r == (self@ == 0),
    {
        self.d0 == 0 && self.d1 == 0 && self.d2 == 0
    }

    pub fn is_negative(self) -> (r: bool)
        ensures
            r == (self@ < 0),
    {
        self.d2 >= 0x8000_0000_0000_0000u64
    }

    /// Equality of values.
    pub fn same(self, other: Decimal) -> (r: bool)
        ensures
            r == (self@ == other@),
    {
        proof {
            lemma_view_injective(self, other);
        }
        self.d0 == other.d0 && self.d1 == other.d1 && self.d2 == other.d2
    }

    pub fn lt(self, other: Decimal) -> (r: bool)
        ensures
            r == (self@ < other@),
    {
        let sn = self.d2 >= 0x8000_0000_0000_0000u64;
        let on = other.d2 >= 0x8000_0000_0000_0000u64;
        if sn != on {
            sn
        } else if self.d2 != other.d2 {
            self.d2 < other.d2
        } else if self.d1 != other.d1 {
            self.d1 < other.d1
        } else {
            self.d0 < other.d0
        }
    }

    pub fn le(self, other: Decimal) -> (r: bool)
        ensures
            r == (self@ <= other@),
    {
        !other.lt(self)
    }

    pub fn gt(self, other: Decimal) -> (r: bool)
        ensures
            r == (self@ > other@),
    {
        other.lt(self)
    }

    pub fn ge(self, other: Decimal) -> (r: bool)
        ensures
            r == (self@ >= other@),
    {
        !self.lt(other)
    }

    /// The smaller of two amounts.
    pub fn min(self, other: Decimal) -> (r: Decimal)
        ensures
            r@ == if other@ < self@ { other@ } else { self@ },
            r == self || r == other,
    {
        if other.lt(self) {
            other
        } else {
            self
        }
    }

    /// Calls `Decimal::checked_add` of the fixed-point crate, which adds the
    /// two 192-bit subunit counts: the exact sum, or nothing when it leaves
    /// the range.
    #[verifier::external_body]
    pub(crate) fn checked_add(self, other: Decimal) -> (r: Option<Decimal>)
        ensures
            opt_view(r) == spec_add(self@, other@),
    {
        let a = scrypto::math::Decimal::from_attos(I192::from_digits([self.d0, self.d1, self.d2]));
        let b = scrypto::math::Decimal::from_attos(I192::from_digits([other.d0, other.d1, other.d2]));
        match a.checked_add(b) {
            Some(c) => {
                let d = c.attos().to_digits();
                Some(Decimal { d0: d[0], d1: d[1], d2: d[2] })
            },
            None => None,
        }
    }

    /// Calls `Decimal::checked_sub` of the fixed-point crate, which subtracts
    /// the two 192-bit subunit counts: the exact difference, or nothing when
    /// it leaves the range.
    #[verifier::external_body]
    pub(crate) fn checked_sub(self, other: Decimal) -> (r: Option<Decimal>)
        ensures
            opt_view(r) == spec_sub(self@, other@),
    {
        let a = scrypto::math::Decimal::from_attos(I192::from_digits([self.d0, self.d1, self.d2]));
        let b = scrypto::math::Decimal::from_attos(I192::from_digits([other.d0, other.d1, other.d2]));
        match a.checked_sub(b) {
            Some(c) => {
                let d = c.attos().to_digits();
                Some(Decimal { d0: d[0], d1: d[1], d2: d[2] })
            },
            None => None,
        }
    }

    /// Calls `Decimal::checked_mul` of the fixed-point crate. It multiplies
    /// the subunit counts in 256 bits, divides by `10^18` with the quotient
    /// rounded toward zero, and gives nothing when the result does not fit
    /// 192 bits. A product too large for 256 bits has a quotient too large
    /// for 192.
    #[verifier::external_body]
    pub(crate) fn checked_mul(self, other: Decimal) -> (r: Option<Decimal>)
        ensures
            opt_view(r) == spec_mul(self@, other@),
    {
        let a = scrypto::math::Decimal::from_attos(I192::from_digits([self.d0, self.d1, self.d2]));
        let b = scrypto::math::Decimal::from_attos(I192::from_digits([other.d0, other.d1, other.d2]));
        match a.checked_mul(b) {
            Some(c) => {
                let d = c.attos().to_digits();
                Some(Decimal { d0: d[0], d1: d[1], d2: d[2] })
            },
            None => None,
        }
    }

    /// Calls `Decimal::checked_div` of the fixed-point crate. It multiplies
    /// the dividend's subunits by `10^18` in 256 bits, divides by the
    /// divisor's with the quotient rounded toward zero, and gives nothing for
    /// a zero divisor or a result that does not fit 192 bits.
    #[verifier::external_body]
    pub(crate) fn checked_div(self, other: Decimal) -> (r: Option<Decimal>)
        ensures
            opt_view(r) == spec_div(self@, other@),
    {
        let a = scrypto::math::Decimal::from_attos(I192::from_digits([self.d0, self.d1, self.d2]));
        let b = scrypto::math::Decimal::from_attos(I192::from_digits([other.d0, other.d1, other.d2]));
        match a.checked_div(b) {
            Some(c) => {
                let d = c.attos().to_digits();
                Some(Decimal { d0: d[0], d1: d[1], d2: d[2] })
            },
            None => None,
        }
    }

    /// Calls `Decimal::checked_round` of the fixed-point crate with 17
    /// decimal places and rounding toward zero: the last digit of the
    /// subunit count is cleared, which never leaves the range.
    #[verifier::external_body]
    pub(crate) fn round_down_17(self) -> (r: Decimal)
        ensures
            r@ == spec_round17(self@),
    {
        let a = scrypto::math::Decimal::from_attos(I192::from_digits([self.d0, self.d1, self.d2]));
        match a.checked_round(17, scrypto::math::RoundingMode::ToZero) {
            Some(c) => {
                let d = c.attos().to_digits();
                Decimal { d0: d[0], d1: d[1], d2: d[2] }
            },
            None => self,
        }
    }

    /// Calls `Decimal::checked_powi` of the fixed-point crate; the result is
    /// named, not described.
    #[verifier::external_body]
    pub(crate) fn checked_powi(self, exp: i64) -> (r: Option<Decimal>)
        ensures
            opt_view(r) == decimal_powi(self@, exp as int),
    {
        let a = scrypto::math::Decimal::from_attos(I192::from_digits([self.d0, self.d1, self.d2]));
        match a.checked_powi(exp) {
            Some(c) => {
                let d = c.attos().to_digits();
                Some(Decimal { d0: d[0], d1: d[1], d2: d[2] })
            },
            None => None,
        }
    }

    /// The amount with its sign changed, or nothing for the smallest amount.
    pub fn checked_neg(self) -> (r: Option<Decimal>)
        ensures
            opt_view(r) == fit(-self@),
    {
        Decimal::zero().checked_sub(self)
    }
}

} // verus!
