//! Fixed-point ratios with thirty-six fractional digits, held as four
//! little-endian 64-bit digits in two's complement.

use crate::decimal::{dec_fits, pow2_128, pow2_192, pow2_64, trunc_div, Decimal, one_attos};
use scrypto::math::{CheckedDiv, CheckedMul, CheckedTruncate, I192, I256};
use vstd::prelude::*;

verus! {

/// Two to the power 256.
pub open spec fn pow2_256() -> int {
    0x1_0000_0000_0000_0000_0000_0000_0000_0000_0000_0000_0000_0000_0000_0000_0000_0000int
}

/// The number of precise subunits in one whole unit: ten to the power 36.
pub open spec fn one_precise() -> int {
    1_000_000_000_000_000_000_000_000_000_000_000_000int
}

/// Smallest precise subunit count a `PreciseDecimal` can hold.
pub open spec fn pdec_min() -> int {
    -0x8000_0000_0000_0000_0000_0000_0000_0000_0000_0000_0000_0000_0000_0000_0000_0000int
}

/// Largest precise subunit count a `PreciseDecimal` can hold.
pub open spec fn pdec_max() -> int {
    0x7fff_ffff_ffff_ffff_ffff_ffff_ffff_ffff_ffff_ffff_ffff_ffff_ffff_ffff_ffff_ffffint
}

/// `v` when it fits a `PreciseDecimal`, nothing otherwise.
pub open spec fn pfit(v: int) -> Option<int> {
    if pdec_min() <= v <= pdec_max() {
        Some(v)
    } else {
        None
    }
}

/// Precise product: the product of the precise subunit counts divided by
/// `10^36`, rounded toward zero, when it fits.
pub open spec fn spec_pmul(a: int, b: int) -> Option<int> {
    pfit(trunc_div(a * b, one_precise()))
}

/// Precise quotient: the dividend's precise subunits times `10^36` divided by
/// the divisor's, rounded toward zero, when the divisor is not zero and the
/// result fits.
pub open spec fn spec_pdiv(a: int, b: int) -> Option<int> {
    if b == 0 {
        None
    } else {
        pfit(trunc_div(a * one_precise(), b))
    }
}

/// Quotient by a positive divisor rounded to the nearest integer, a tie going
/// to the even neighbour.
pub open spec fn half_even_div(a: int, d: int) -> int {
    let q = a / d;
    let r = a % d;
    if 2 * r < d {
        q
    } else if 2 * r > d {
        q + 1
    } else if q % 2 == 0 {
        q
    } else {
        q + 1
    }
}

/// How the eighteen extra digits of a ratio are dropped.
#[derive(Clone, Copy, Debug, PartialEq, Eq, Structural)]
pub enum RoundingMode {
    /// Toward zero.
    ToZero,
    /// To the nearest subunit, a tie going to the even one.
    ToNearestMidpointToEven,
}

/// The subunit count of the amount nearest to `p` precise subunits under
/// `mode`, when it fits a `Decimal`.
pub open spec fn spec_truncate(p: int, mode: RoundingMode) -> Option<int> {
    let v = match mode {
        RoundingMode::ToZero => trunc_div(p, one_attos()),
        RoundingMode::ToNearestMidpointToEven => half_even_div(p, one_attos()),
    };
    if dec_fits(v) {
        Some(v)
    } else {
        None
    }
}

/// A signed fixed-point number of `view()` precise subunits of `10^-36`.
#[derive(Clone, Copy, Debug, PartialEq, Eq, Structural)]
pub struct PreciseDecimal {
    /// Least significant digit.
    pub d0: u64,
    pub d1: u64,
    pub d2: u64,
    /// Most significant digit; its top bit is the sign.
    pub d3: u64,
}

impl View for PreciseDecimal {
    type V = int;

    open spec fn view(&self) -> int {
        let u = self.d0 as int + self.d1 as int * pow2_64() + self.d2 as int * pow2_128()
            + self.d3 as int * pow2_192();
        if self.d3 >= 0x8000_0000_0000_0000u64 {
            u - pow2_256()
        } else {
            u
        }
    }
}

/// The ratio of `v` precise subunits, for a `v` that fits.
#[verifier::opaque]
pub open spec fn pdec_of(v: int) -> PreciseDecimal {
    let u = if v < 0 {
        v + pow2_256()
    } else {
        v
    };
    PreciseDecimal {
        d0: (u % pow2_64()) as u64,
        d1: ((u / pow2_64()) % pow2_64()) as u64,
        d2: ((u / pow2_128()) % pow2_64()) as u64,
        d3: (u / pow2_192()) as u64,
    }
}

/// `pdec_of` gives the one ratio with the asked count of precise subunits.
pub proof fn lemma_pdec_of(a: PreciseDecimal)
    ensures
        pdec_of(a@) == a,
{
    reveal(pdec_of);
    let d0 = a.d0 as int;
    let d1 = a.d1 as int;
    let d2 = a.d2 as int;
    let d3 = a.d3 as int;
    let u = d0 + d1 * pow2_64() + d2 * pow2_128() + d3 * pow2_192();
    let hi1 = d1 + d2 * pow2_64() + d3 * pow2_128();
    let hi2 = d2 + d3 * pow2_64();
    assert(u == hi1 * pow2_64() + d0) by (nonlinear_arith)
        requires
            u == d0 + d1 * pow2_64() + d2 * pow2_128() + d3 * pow2_192(),
            hi1 == d1 + d2 * pow2_64() + d3 * pow2_128(),
            pow2_128() == pow2_64() * pow2_64(),
            pow2_192() == pow2_128() * pow2_64(),
    ;
    vstd::arithmetic::div_mod::lemma_fundamental_div_mod_converse(u, pow2_64(), hi1, d0);
    assert(hi1 == hi2 * pow2_64() + d1) by (nonlinear_arith)
        requires
            hi1 == d1 + d2 * pow2_64() + d3 * pow2_128(),
            hi2 == d2 + d3 * pow2_64(),
            pow2_128() == pow2_64() * pow2_64(),
    ;
    vstd::arithmetic::div_mod::lemma_fundamental_div_mod_converse(hi1, pow2_64(), hi2, d1);
    let lo2 = d0 + d1 * pow2_64();
    assert(u == hi2 * pow2_128() + lo2) by (nonlinear_arith)
        requires
            u == d0 + d1 * pow2_64() + d2 * pow2_128() + d3 * pow2_192(),
            hi2 == d2 + d3 * pow2_64(),
            lo2 == d0 + d1 * pow2_64(),
            pow2_192() == pow2_128() * pow2_64(),
    ;
    assert(0 <= lo2 < pow2_128());
    vstd::arithmetic::div_mod::lemma_fundamental_div_mod_converse(u, pow2_128(), hi2, lo2);
    vstd::arithmetic::div_mod::lemma_fundamental_div_mod_converse(hi2, pow2_64(), d3, d2);
    let lo3 = d0 + d1 * pow2_64() + d2 * pow2_128();
    assert(0 <= lo3 < pow2_192());
    vstd::arithmetic::div_mod::lemma_fundamental_div_mod_converse(u, pow2_192(), d3, lo3);
    if a.d3 >= 0x8000_0000_0000_0000u64 {
        assert(a@ == u - pow2_256());
        assert(a@ < 0);
    } else {
        assert(a@ == u);
        assert(a@ >= 0);
    }
}

/// Lifts the view over an optional ratio.
pub open spec fn opt_pview(o: Option<PreciseDecimal>) -> Option<int> {
    match o {
        Some(d) => Some(d@),
        None => None,
    }
}

impl PreciseDecimal {
    /// Zero.
    pub fn zero() -> (r: PreciseDecimal)
        ensures
            r@ == 0,
    {
        PreciseDecimal { d0: 0, d1: 0, d2: 0, d3: 0 }
    }

    /// One.
    pub fn one() -> (r: PreciseDecimal)
        ensures
            r@ == one_precise(),
    {
        PreciseDecimal { d0: 12919594847110692864, d1: 54210108624275221, d2: 0, d3: 0 }
    }

    pub fn is_zero(self) -> (r: bool)
        ensures
            r == (self@ == 0),
    {
        self.d0 == 0 && self.d1 == 0 && self.d2 == 0 && self.d3 == 0
    }

    pub fn lt(self, other: PreciseDecimal) -> (r: bool)
        ensures
            r == (self@ < other@),
    {
        let sn = self.d3 >= 0x8000_0000_0000_0000u64;
        let on = other.d3 >= 0x8000_0000_0000_0000u64;
        if sn != on {
            sn
        } else if self.d3 != other.d3 {
            self.d3 < other.d3
        } else if self.d2 != other.d2 {
            self.d2 < other.d2
        } else if self.d1 != other.d1 {
            self.d1 < other.d1
        } else {
            self.d0 < other.d0
        }
    }

    pub fn gt(self, other: PreciseDecimal) -> (r: bool)
        ensures
            r == (self@ > other@),
    {
        other.lt(self)
    }

    /// Calls `PreciseDecimal::from` of the fixed-point crate on an amount:
    /// the same number with eighteen more digits, which always fits.
    #[verifier::external_body]
    pub(crate) fn from_decimal(value: Decimal) -> (r: PreciseDecimal)
        ensures
            r@ == value@ * one_attos(),
    {
        let a = scrypto::math::Decimal::from_attos(I192::from_digits([value.d0, value.d1, value.d2]));
        let d = scrypto::math::PreciseDecimal::from(a).precise_subunits().to_digits();
        PreciseDecimal { d0: d[0], d1: d[1], d2: d[2], d3: d[3] }
    }

    /// Calls `PreciseDecimal::checked_mul` of the fixed-point crate. It
    /// multiplies the precise subunit counts in 384 bits, divides by `10^36`
    /// with the quotient rounded toward zero, and gives nothing when the
    /// result does not fit 256 bits. A product too large for 384 bits has a
    /// quotient too large for 256.
    #[verifier::external_body]
    pub(crate) fn checked_mul(self, other: PreciseDecimal) -> (r: Option<PreciseDecimal>)
        ensures
            opt_pview(r) == spec_pmul(self@, other@),
    {
        let a = scrypto::math::PreciseDecimal::from_precise_subunits(I256::from_digits([self.d0,
            self.d1, self.d2, self.d3]));
        let b = scrypto::math::PreciseDecimal::from_precise_subunits(I256::from_digits([other.d0,
            other.d1, other.d2, other.d3]));
        match a.checked_mul(b) {
            Some(c) => {
                let d = c.precise_subunits().to_digits();
                Some(PreciseDecimal { d0: d[0], d1: d[1], d2: d[2], d3: d[3] })
            },
            None => None,
        }
    }

    /// Calls `PreciseDecimal::checked_div` of the fixed-point crate. It
    /// multiplies the dividend's precise subunits by `10^36` in 384 bits,
    /// divides by the divisor's with the quotient rounded toward zero, and
    /// gives nothing for a zero divisor or a result that does not fit 256
    /// bits.
    #[verifier::external_body]
    pub(crate) fn checked_div(self, other: PreciseDecimal) -> (r: Option<PreciseDecimal>)
        ensures
            opt_pview(r) == spec_pdiv(self@, other@),
    {
        let a = scrypto::math::PreciseDecimal::from_precise_subunits(I256::from_digits([self.d0,
            self.d1, self.d2, self.d3]));
        let b = scrypto::math::PreciseDecimal::from_precise_subunits(I256::from_digits([other.d0,
            other.d1, other.d2, other.d3]));
        match a.checked_div(b) {
            Some(c) => {
                let d = c.precise_subunits().to_digits();
                Some(PreciseDecimal { d0: d[0], d1: d[1], d2: d[2], d3: d[3] })
            },
            None => None,
        }
    }

    /// Calls `PreciseDecimal::checked_truncate` of the fixed-point crate,
    /// which rounds to eighteen decimal places under the given mode and
    /// drops the other eighteen digits: nothing when the amount does not fit
    /// 192 bits.
    #[verifier::external_body]
    pub(crate) fn checked_truncate(self, mode: RoundingMode) -> (r: Option<Decimal>)
        ensures
            crate::decimal::opt_view(r) == spec_truncate(self@, mode),
    {
        let a = scrypto::math::PreciseDecimal::from_precise_subunits(I256::from_digits([self.d0,
            self.d1, self.d2, self.d3]));
        let m = match mode {
            RoundingMode::ToZero => scrypto::math::RoundingMode::ToZero,
            RoundingMode::ToNearestMidpointToEven => scrypto::math::RoundingMode::ToNearestMidpointToEven,
        };
        match a.checked_truncate(m) {
            Some(c) => {
                let d = c.attos().to_digits();
                Some(Decimal { d0: d[0], d1: d[1], d2: d[2] })
            },
            None => None,
        }
    }
}

} // verus!
