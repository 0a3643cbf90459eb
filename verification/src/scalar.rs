//! Fixed-point scalars.
//!
//! Every coordinate, size, colour channel and matrix entry of the scene graph is a
//! [`Real`]: a signed 64-bit count of millionths. Arithmetic never fails: a result
//! that does not fit is pinned to the nearest representable value, and a quotient is
//! rounded towards negative infinity.

use vstd::prelude::*;

verus! {

/// Number of raw units in one whole unit.
pub const SCALE: i64 = 1_000_000;

/// The nearest value to `v` that fits in a signed 64-bit integer.
pub open spec fn saturate(v: int) -> int {
    if v < i64::MIN as int {
        i64::MIN as int
    } else if v > i64::MAX as int {
        i64::MAX as int
    } else {
        v
    }
}

/// A fixed-point number with six decimal places.
#[derive(Clone, Copy, Debug, PartialEq, Eq, Structural)]
pub struct Real {
    pub raw: i64,
}

impl View for Real {
    type V = int;

    /// The number of millionths that the scalar stands for.
    open spec fn view(&self) -> int {
        self.raw as int
    }
}

/// Quotient of `n` by a positive `d`, rounded towards negative infinity.
fn div_floor(n: i128, d: i128) -> (q: i128)
    requires
        0 < d <= 0x4000_0000_0000_0000_0000_0000_0000_0000,
        -0x4000_0000_0000_0000_0000_0000_0000_0000 <= n <= 0x4000_0000_0000_0000_0000_0000_0000_0000,
    ensures
        q == n as int / d as int,
{
    if n >= 0 {
        n / d
    } else {
        let m: i128 = -n;
        let q: i128 = (m - 1) / d;
        proof {
            let qi = q as int;
            let di = d as int;
            let ni = n as int;
            assert(ni / di == -qi - 1) by (nonlinear_arith)
                requires
                    di > 0,
                    ni < 0,
                    qi == (-ni - 1) / di,
            ;
        }
        -q - 1
    }
}

/// Pins a wide intermediate result to the range of a scalar.
fn narrow(v: i128) -> (r: Real)
    ensures
        r == Real::of(v as int),
{
    if v < i64::MIN as i128 {
        Real { raw: i64::MIN }
    } else if v > i64::MAX as i128 {
        Real { raw: i64::MAX }
    } else {
        Real { raw: v as i64 }
    }
}

/// The product of two 64-bit values fits in 127 bits.
proof fn lemma_product_bound(a: int, b: int)
    requires
        i64::MIN <= a <= i64::MAX,
        i64::MIN <= b <= i64::MAX,
    ensures
        -0x4000_0000_0000_0000_0000_0000_0000_0000 <= a * b <= 0x4000_0000_0000_0000_0000_0000_0000_0000,
{
    assert(-0x4000_0000_0000_0000_0000_0000_0000_0000 <= a * b <= 0x4000_0000_0000_0000_0000_0000_0000_0000)
        by (nonlinear_arith)
        requires
            -0x8000_0000_0000_0000 <= a <= 0x8000_0000_0000_0000,
            -0x8000_0000_0000_0000 <= b <= 0x8000_0000_0000_0000,
    ;
}

impl Real {
    /// The scalar whose raw value is `v` pinned to the representable range.
    pub open spec fn of(v: int) -> Real {
        Real { raw: saturate(v) as i64 }
    }

    pub open spec fn spec_zero() -> Real {
        Real { raw: 0 }
    }

    pub open spec fn spec_one() -> Real {
        Real { raw: SCALE }
    }

    pub open spec fn spec_from_int(n: i32) -> Real {
        Real { raw: (n as int * SCALE as int) as i64 }
    }

    pub open spec fn spec_add(self, other: Real) -> Real {
        Real::of(self@ + other@)
    }

    pub open spec fn spec_sub(self, other: Real) -> Real {
        Real::of(self@ - other@)
    }

    pub open spec fn spec_mul(self, other: Real) -> Real {
        Real::of((self@ * other@) / (SCALE as int))
    }

    pub open spec fn spec_half(self) -> Real {
        Real::of(self@ / 2)
    }

    /// `self` percent of `base`: the exact product divided by one hundred, rounded down.
    pub open spec fn spec_percent_of(self, base: Real) -> Real {
        Real::of((self@ * base@) / (100 * SCALE as int))
    }

    pub open spec fn spec_min(self, other: Real) -> Real {
        if self@ <= other@ {
            self
        } else {
            other
        }
    }

    pub open spec fn spec_max(self, other: Real) -> Real {
        if self@ >= other@ {
            self
        } else {
            other
        }
    }

    pub open spec fn spec_lt(self, other: Real) -> bool {
        self@ < other@
    }

    pub open spec fn spec_le(self, other: Real) -> bool {
        self@ <= other@
    }

    #[verifier::when_used_as_spec(spec_zero)]
    pub fn zero() -> (r: Real)
        ensures
            r == Real::spec_zero(),
            r@ == 0,
    {
        Real { raw: 0 }
    }

    #[verifier::when_used_as_spec(spec_one)]
    pub fn one() -> (r: Real)
        ensures
            r == Real::spec_one(),
            r@ == SCALE,
    {
        Real { raw: SCALE }
    }

    /// The scalar with the given number of millionths.
    pub fn from_raw(raw: i64) -> (r: Real)
        ensures
            r@ == raw,
    {
        Real { raw }
    }

    /// The whole number `n`.
    #[verifier::when_used_as_spec(spec_from_int)]
    pub fn from_int(n: i32) -> (r: Real)
        ensures
            r == Real::spec_from_int(n),
            r@ == n * SCALE,
    {
        let wide: i64 = n as i64;
        Real { raw: wide * SCALE }
    }

    /// The number of millionths.
    pub fn raw(&self) -> (r: i64)
        ensures
            r == self@,
    {
        self.raw
    }

    #[verifier::when_used_as_spec(spec_add)]
    pub fn add(self, other: Real) -> (r: Real)
        ensures
            r == self.spec_add(other),
    {
        narrow(self.raw as i128 + other.raw as i128)
    }

    #[verifier::when_used_as_spec(spec_sub)]
    pub fn sub(self, other: Real) -> (r: Real)
        ensures
            r == self.spec_sub(other),
    {
        narrow(self.raw as i128 - other.raw as i128)
    }

    #[verifier::when_used_as_spec(spec_mul)]
    pub fn mul(self, other: Real) -> (r: Real)
        ensures
            r == self.spec_mul(other),
    {
        proof {
            lemma_product_bound(self@, other@);
        }
        let product: i128 = (self.raw as i128) * (other.raw as i128);
        narrow(div_floor(product, SCALE as i128))
    }

    #[verifier::when_used_as_spec(spec_half)]
    pub fn half(self) -> (r: Real)
        ensures
            r == self.spec_half(),
    {
        narrow(div_floor(self.raw as i128, 2))
    }

    #[verifier::when_used_as_spec(spec_percent_of)]
    pub fn percent_of(self, base: Real) -> (r: Real)
        ensures
            r == self.spec_percent_of(base),
    {
        proof {
            lemma_product_bound(self@, base@);
        }
        let product: i128 = (self.raw as i128) * (base.raw as i128);
        narrow(div_floor(product, 100 * (SCALE as i128)))
    }

    #[verifier::when_used_as_spec(spec_min)]
    pub fn min(self, other: Real) -> (r: Real)
        ensures
            r == self.spec_min(other),
    {
        if self.raw <= other.raw {
            self
        } else {
            other
        }
    }

    #[verifier::when_used_as_spec(spec_max)]
    pub fn max(self, other: Real) -> (r: Real)
        ensures
            r == self.spec_max(other),
    {
        if self.raw >= other.raw {
            self
        } else {
            other
        }
    }

    #[verifier::when_used_as_spec(spec_lt)]
    pub fn lt(self, other: Real) -> (r: bool)
        ensures
            r == self.spec_lt(other),
    {
        self.raw < other.raw
    }

    #[verifier::when_used_as_spec(spec_le)]
    pub fn le(self, other: Real) -> (r: bool)
        ensures
            r == self.spec_le(other),
    {
        self.raw <= other.raw
    }
}

/// Adding zero changes nothing.
pub proof fn lemma_add_zero(a: Real)
    ensures
        a.add(Real::zero()) == a,
        Real::zero().add(a) == a,
{
}

/// Addition does not depend on the order of its operands.
pub proof fn lemma_add_commutative(a: Real, b: Real)
    ensures
        a.add(b) == b.add(a),
{
}

/// Multiplying by one changes nothing, and multiplying by zero gives zero.
pub proof fn lemma_mul_unit(a: Real)
    ensures
        a.mul(Real::one()) == a,
        Real::one().mul(a) == a,
        a.mul(Real::zero()) == Real::zero(),
        Real::zero().mul(a) == Real::zero(),
{
    assert((a@ * (SCALE as int)) / (SCALE as int) == a@) by (nonlinear_arith);
    assert(((SCALE as int) * a@) / (SCALE as int) == a@) by (nonlinear_arith);
    assert(a@ * 0 == 0) by (nonlinear_arith);
    assert(0 * a@ == 0) by (nonlinear_arith);
}

/// A sum with a non-negative term is not below the other term, and symmetrically.
pub proof fn lemma_add_monotonic(a: Real, b: Real)
    ensures
        b@ >= 0 ==> a.add(b)@ >= a@,
        b@ <= 0 ==> a.add(b)@ <= a@,
        b@ >= 0 ==> a.sub(b)@ <= a@,
        b@ <= 0 ==> a.sub(b)@ >= a@,
{
}

/// One hundred percent of a base is the base, and zero percent is zero.
pub proof fn lemma_percent_bounds(base: Real)
    ensures
        Real::from_int(100).percent_of(base) == base,
        Real::zero().percent_of(base) == Real::zero(),
        Real::from_int(100).percent_of(Real::zero()) == Real::zero(),
{
    assert((100 * (SCALE as int) * base@) / (100 * (SCALE as int)) == base@) by (nonlinear_arith);
    assert(0 * base@ == 0) by (nonlinear_arith);
    assert((100 * SCALE as int) * 0 == 0) by (nonlinear_arith);
}

} // verus!
