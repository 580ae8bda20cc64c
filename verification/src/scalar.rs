//! Fixed-point numbers with six decimal places.

use vstd::prelude::*;

verus! {

/// Number of raw units in one whole unit.
pub const SCALE: i64 = 1_000_000;

/// The nearest value to `v` that an `i64` can hold.
pub open spec fn clamp(v: int) -> int {
    if v < i64::MIN {
        i64::MIN as int
    } else if v > i64::MAX {
        i64::MAX as int
    } else {
        v
    }
}

/// `n / d` rounded toward zero, for a positive `d`.
pub open spec fn quotient_toward_zero(n: int, d: int) -> int {
    if n >= 0 {
        n / d
    } else {
        -((-n) / d)
    }
}

/// The raw value of the product of two numbers given by their raw values,
/// before saturation: the exact product rounded toward zero to a whole
/// number of raw units.
pub open spec fn scaled_product(a: int, b: int) -> int {
    quotient_toward_zero(a * b, SCALE as int)
}

/// A signed decimal number held as a count of millionths.
///
/// Sums and products saturate at the ends of the `i64` range instead of
/// wrapping, so every operation is total.
#[derive(Clone, Copy, Debug, PartialEq, Eq, Structural)]
pub struct Scalar {
    pub raw: i64,
}

impl View for Scalar {
    type V = int;

    open spec fn view(&self) -> int {
        self.raw as int
    }
}

impl Scalar {
    /// The sum of two numbers as a specification value.
    pub open spec fn spec_plus(self, rhs: Scalar) -> Scalar {
        Scalar { raw: clamp(self@ + rhs@) as i64 }
    }

    /// The product of two numbers as a specification value.
    pub open spec fn spec_times(self, rhs: Scalar) -> Scalar {
        Scalar { raw: clamp(scaled_product(self@, rhs@)) as i64 }
    }

    /// The number with the given count of millionths.
    pub fn from_raw(raw: i64) -> (r: Scalar)
        ensures
            r@ == raw,
    {
        Scalar { raw }
    }

    /// The whole number `n`.
    pub fn from_int(n: i32) -> (r: Scalar)
        ensures
            r@ == n * SCALE,
    {
        Scalar { raw: (n as i64) * SCALE }
    }

    pub fn zero() -> (r: Scalar)
        ensures
            r@ == 0,
    {
        Scalar { raw: 0 }
    }

    /// The count of millionths.
    pub fn raw(&self) -> (r: i64)
        ensures
            r == self@,
    {
        self.raw
    }

    fn saturate(v: i128) -> (r: Scalar)
        ensures
            r@ == clamp(v as int),
    {
        if v < i64::MIN as i128 {
            Scalar { raw: i64::MIN }
        } else if v > i64::MAX as i128 {
            Scalar { raw: i64::MAX }
        } else {
            Scalar { raw: v as i64 }
        }
    }

    /// Saturating sum.
    pub fn plus(self, rhs: Scalar) -> (r: Scalar)
        ensures
            r == self.spec_plus(rhs),
            r@ == clamp(self@ + rhs@),
    {
        let sum: i128 = self.raw as i128 + rhs.raw as i128;
        Scalar::saturate(sum)
    }

    /// Saturating product, rounded toward zero.
    pub fn times(self, rhs: Scalar) -> (r: Scalar)
        ensures
            r == self.spec_times(rhs),
            r@ == clamp(scaled_product(self@, rhs@)),
    {
        let a: i128 = self.raw as i128;
        let b: i128 = rhs.raw as i128;
        assert(-0x4000_0000_0000_0000_0000_0000_0000_0000 <= a * b
            <= 0x4000_0000_0000_0000_0000_0000_0000_0000) by (nonlinear_arith)
            requires
                -0x8000_0000_0000_0000 <= a <= 0x7fff_ffff_ffff_ffff,
                -0x8000_0000_0000_0000 <= b <= 0x7fff_ffff_ffff_ffff,
        ;
        let product: i128 = a * b;
        let quotient: i128 = if product >= 0 {
            product / (SCALE as i128)
        } else {
            -((-product) / (SCALE as i128))
        };
        Scalar::saturate(quotient)
    }
}

/// Adding zero changes nothing.
pub proof fn lemma_plus_zero(a: Scalar)
    ensures
        a.spec_plus(Scalar { raw: 0 }) == a,
        (Scalar { raw: 0 }).spec_plus(a) == a,
{
}

/// A product with zero is zero.
pub proof fn lemma_times_zero(a: Scalar)
    ensures
        a.spec_times(Scalar { raw: 0 }) == (Scalar { raw: 0 }),
        (Scalar { raw: 0 }).spec_times(a) == (Scalar { raw: 0 }),
{
    assert(a@ * 0 == 0 && 0 * a@ == 0) by (nonlinear_arith);
}

/// Rounding moves a product toward zero by less than one raw unit:
/// `scaled_product(a, b)` is the whole number of raw units nearest to
/// `a * b / SCALE` on the side of zero.
pub proof fn lemma_scaled_product_bounds(a: int, b: int)
    ensures
        a * b >= 0 ==> scaled_product(a, b) * SCALE <= a * b < scaled_product(a, b) * SCALE + SCALE,
        a * b <= 0 ==> scaled_product(a, b) * SCALE - SCALE < a * b <= scaled_product(a, b) * SCALE,
{
    let n = a * b;
    let d = SCALE as int;
    if n >= 0 {
        assert((n / d) * d <= n < (n / d) * d + d) by (nonlinear_arith)
            requires
                d > 0,
        ;
    } else {
        let m = -n;
        assert((m / d) * d <= m < (m / d) * d + d) by (nonlinear_arith)
            requires
                d > 0,
        ;
        assert((-(m / d)) * d == -((m / d) * d)) by (nonlinear_arith);
    }
}

/// A product with a factor between zero and one is no further from zero
/// than the other factor, so it never saturates.
pub proof fn lemma_times_fraction(a: Scalar, fraction: Scalar)
    requires
        0 <= fraction@ <= SCALE,
    ensures
        a.spec_times(fraction)@ == scaled_product(a@, fraction@),
        a@ >= 0 ==> 0 <= a.spec_times(fraction)@ <= a@,
        a@ <= 0 ==> a@ <= a.spec_times(fraction)@ <= 0,
{
    let x = a@;
    let f = fraction@;
    let d = SCALE as int;
    lemma_scaled_product_bounds(x, f);
    let q = scaled_product(x, f);
    if x >= 0 {
        assert(0 <= x * f <= x * d) by (nonlinear_arith)
            requires
                x >= 0,
                0 <= f <= d,
        ;
        assert(0 <= q <= x) by (nonlinear_arith)
            requires
                q * d <= x * f < q * d + d,
                0 <= x * f <= x * d,
                d > 0,
        ;
    } else {
        assert(x * d <= x * f <= 0) by (nonlinear_arith)
            requires
                x < 0,
                0 <= f <= d,
        ;
        assert(x <= q <= 0) by (nonlinear_arith)
            requires
                q * d - d < x * f <= q * d,
                x * d <= x * f <= 0,
                d > 0,
        ;
    }
}

} // verus!
