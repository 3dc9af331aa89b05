//! `Ratio`: an unsigned fixed-point number with 18 decimal places (`1.0 == 10^18`).
//!
//! Every arithmetic operation is checked: it returns `None` exactly when the exact
//! intermediate product (or the divisor) leaves the representable range, and otherwise the
//! floored (or, for `checked_div_value_ceil`, ceiled) result.

use vstd::prelude::*;

verus! {

/// The fixed-point scale: the inner representation of `1.0`.
pub const RATIO_ONE: u128 = 1_000_000_000_000_000_000;

/// The inner representation of one basis point (0.01%).
pub const RATIO_BPS: u128 = 100_000_000_000_000;

/// A non-negative fixed-point number `inner / 10^18`.
#[derive(Debug, Clone, Copy, PartialEq, Eq, Structural)]
pub struct Ratio {
    pub inner: u128,
}

/// `floor(a * b / 10^18)`: the fixed-point product of two inner values.
pub open spec fn mul_floor(a: int, b: int) -> int {
    (a * b) / (RATIO_ONE as int)
}

/// `floor(v * r / 10^18)`: a plain integer scaled by a ratio.
pub open spec fn scale_floor(v: int, r: int) -> int {
    (v * r) / (RATIO_ONE as int)
}

/// `floor(v * 10^18 / r)`: a plain integer divided by a ratio.
pub open spec fn unscale_floor(v: int, r: int) -> int {
    (v * RATIO_ONE) / r
}

/// `ceil(v * 10^18 / r)`: a plain integer divided by a ratio, rounded up.
pub open spec fn unscale_ceil(v: int, r: int) -> int {
    (v * RATIO_ONE + r - 1) / r
}

/// The inner value of `base^n`, multiplied step by step (each step floored), or `None` once an
/// intermediate product overflows `u128`.
pub open spec fn pow_inner(base: int, n: nat) -> Option<int>
    decreases n,
{
    if n == 0 {
        Some(RATIO_ONE as int)
    } else {
        match pow_inner(base, (n - 1) as nat) {
            Some(p) => if p * base <= u128::MAX {
                Some(mul_floor(p, base))
            } else {
                None
            },
            None => None,
        }
    }
}

proof fn lemma_div_le_num(x: int, d: int)
    requires
        x >= 0,
        d >= 1,
    ensures
        0 <= x / d <= x,
{
    assert(0 <= x / d <= x) by (nonlinear_arith)
        requires
            x >= 0,
            d >= 1,
    ;
}

proof fn lemma_mul_nonneg(a: int, b: int)
    requires
        a >= 0,
        b >= 0,
    ensures
        a * b >= 0,
{
    assert(a * b >= 0) by (nonlinear_arith)
        requires
            a >= 0,
            b >= 0,
    ;
}

impl Ratio {
    /// The ratio with the given inner (10^18-scaled) value.
    pub fn from_inner(inner: u128) -> (r: Ratio)
        ensures
            r.inner == inner,
    {
        Ratio { inner }
    }

    /// The inner (10^18-scaled) value.
    pub fn into_inner(&self) -> (v: u128)
        ensures
            v == self.inner,
    {
        self.inner
    }

    /// `1.0`.
    pub fn one() -> (r: Ratio)
        ensures
            r.inner == RATIO_ONE,
    {
        Ratio { inner: RATIO_ONE }
    }

    /// `0.0`.
    pub fn zero() -> (r: Ratio)
        ensures
            r.inner == 0,
    {
        Ratio { inner: 0 }
    }

    /// Whether the ratio is `0.0`.
    pub fn is_zero(&self) -> (b: bool)
        ensures
            b == (self.inner == 0),
    {
        self.inner == 0
    }

    /// `bps / 10_000`.
    pub fn from_basis_points(bps: u32) -> (r: Ratio)
        ensures
            r.inner == bps * RATIO_BPS,
    {
        Ratio { inner: (bps as u128) * RATIO_BPS }
    }

    /// The ratio in whole basis points (floored), or `None` when that exceeds `u32::MAX`.
    pub fn to_basis_points(&self) -> (r: Option<u32>)
        ensures
            r is Some <==> self.inner / RATIO_BPS <= u32::MAX,
            r matches Some(b) ==> b == self.inner / RATIO_BPS,
    {
        let q = self.inner / RATIO_BPS;
        if q <= u32::MAX as u128 {
            Some(q as u32)
        } else {
            None
        }
    }

    /// `n` as a ratio (`n * 10^18`), or `None` when that overflows.
    pub fn checked_from_integer(n: u128) -> (r: Option<Ratio>)
        ensures
            r is Some <==> n * RATIO_ONE <= u128::MAX,
            r matches Some(x) ==> x.inner == n * RATIO_ONE,
    {
        match n.checked_mul(RATIO_ONE) {
            Some(v) => Some(Ratio { inner: v }),
            None => None,
        }
    }

    /// `self / d` for a plain integer divisor `d`, or `None` when `d == 0`.
    pub fn checked_div_int(&self, d: u128) -> (r: Option<Ratio>)
        ensures
            r is Some <==> d != 0,
            r matches Some(x) ==> x.inner == self.inner / d,
    {
        if d == 0 {
            None
        } else {
            Some(Ratio { inner: self.inner / d })
        }
    }

    /// The fixed-point product `self * other` (floored), or `None` when the exact product of
    /// the inner values overflows `u128`.
    pub fn checked_mul(&self, other: Ratio) -> (r: Option<Ratio>)
        ensures
            r is Some <==> self.inner * other.inner <= u128::MAX,
            r matches Some(x) ==> x.inner == mul_floor(self.inner as int, other.inner as int),
    {
        match self.inner.checked_mul(other.inner) {
            Some(p) => Some(Ratio { inner: p / RATIO_ONE }),
            None => None,
        }
    }

    /// `self^n`, multiplied step by step; `None` once an intermediate product overflows.
    pub fn checked_pow(&self, n: u64) -> (r: Option<Ratio>)
        ensures
            r is Some <==> pow_inner(self.inner as int, n as nat) is Some,
            r matches Some(x) ==> pow_inner(self.inner as int, n as nat) == Some(x.inner as int),
    {
        let mut acc: u128 = RATIO_ONE;
        let mut i: u64 = 0;
        while i < n
            invariant
                i <= n,
                pow_inner(self.inner as int, i as nat) == Some(acc as int),
            decreases n - i,
        {
            match acc.checked_mul(self.inner) {
                Some(p) => {
                    proof {
                        lemma_mul_nonneg(acc as int, self.inner as int);
                        lemma_div_le_num(p as int, RATIO_ONE as int);
                    }
                    acc = p / RATIO_ONE;
                    i = i + 1;
                },
                None => {
                    proof {
                        lemma_pow_none_stays(self.inner as int, (i + 1) as nat, n as nat);
                    }
                    return None;
                },
            }
        }
        Some(Ratio { inner: acc })
    }

    /// `floor(v * self)` for a plain integer `v`, or `None` when `v * inner` overflows.
    pub fn checked_mul_value(&self, v: u128) -> (r: Option<u128>)
        ensures
            r is Some <==> v * self.inner <= u128::MAX,
            r matches Some(x) ==> x == scale_floor(v as int, self.inner as int),
    {
        match v.checked_mul(self.inner) {
            Some(p) => Some(p / RATIO_ONE),
            None => None,
        }
    }

    /// `floor(v / self)` for a plain integer `v`, or `None` when `self` is zero or
    /// `v * 10^18` overflows.
    pub fn checked_div_value(&self, v: u128) -> (r: Option<u128>)
        ensures
            r is Some <==> (self.inner != 0 && v * RATIO_ONE <= u128::MAX),
            r matches Some(x) ==> x == unscale_floor(v as int, self.inner as int),
    {
        if self.inner == 0 {
            return None;
        }
        match v.checked_mul(RATIO_ONE) {
            Some(p) => Some(p / self.inner),
            None => None,
        }
    }

    /// `ceil(v / self)` for a plain integer `v`, or `None` when `self` is zero or
    /// `v * 10^18` overflows.
    pub fn checked_div_value_ceil(&self, v: u128) -> (r: Option<u128>)
        ensures
            r is Some <==> (self.inner != 0 && v * RATIO_ONE <= u128::MAX),
            r matches Some(x) ==> x == unscale_ceil(v as int, self.inner as int),
    {
        if self.inner == 0 {
            return None;
        }
        match v.checked_mul(RATIO_ONE) {
            Some(p) => {
                let q = p / self.inner;
                let rem = p % self.inner;
                proof {
                    lemma_ceil_div(p as int, self.inner as int);
                    lemma_div_le_num(p as int, self.inner as int);
                }
                if rem > 0 {
                    Some(q + 1)
                } else {
                    Some(q)
                }
            },
            None => None,
        }
    }

    /// `|self - other|`.
    pub fn abs_diff(&self, other: Ratio) -> (r: Ratio)
        ensures
            r.inner == (if self.inner >= other.inner {
                self.inner - other.inner
            } else {
                other.inner - self.inner
            }),
    {
        if self.inner >= other.inner {
            Ratio { inner: self.inner - other.inner }
        } else {
            Ratio { inner: other.inner - self.inner }
        }
    }

    /// `self + other`, or `None` on overflow.
    pub fn checked_add(&self, other: Ratio) -> (r: Option<Ratio>)
        ensures
            r is Some <==> self.inner + other.inner <= u128::MAX,
            r matches Some(x) ==> x.inner == self.inner + other.inner,
    {
        match self.inner.checked_add(other.inner) {
            Some(v) => Some(Ratio { inner: v }),
            None => None,
        }
    }

    /// `self - other`, or `None` when `other > self`.
    pub fn checked_sub(&self, other: Ratio) -> (r: Option<Ratio>)
        ensures
            r is Some <==> other.inner <= self.inner,
            r matches Some(x) ==> x.inner == self.inner - other.inner,
    {
        if other.inner <= self.inner {
            Some(Ratio { inner: self.inner - other.inner })
        } else {
            None
        }
    }
}

proof fn lemma_ceil_div(p: int, d: int)
    requires
        p >= 0,
        d >= 1,
    ensures
        (if p % d > 0 { p / d + 1 } else { p / d }) == (p + d - 1) / d,
{
    assert((if p % d > 0 { p / d + 1 } else { p / d }) == (p + d - 1) / d) by (nonlinear_arith)
        requires
            p >= 0,
            d >= 1,
    ;
}

proof fn lemma_pow_none_stays(base: int, i: nat, n: nat)
    requires
        pow_inner(base, i) is None,
        i <= n,
    ensures
        pow_inner(base, n) is None,
    decreases n - i,
{
    if i < n {
        assert(pow_inner(base, (i + 1) as nat) is None);
        lemma_pow_none_stays(base, (i + 1) as nat, n);
    }
}

/// Ceiling scaling never understates a debt: `v` units scaled up by `ceil(v / index)` read
/// back as at least `v` at the same index.
pub proof fn law_ceil_scaling_covers_value(v: int, index: int)
    requires
        v >= 0,
        index >= 1,
    ensures
        scale_floor(unscale_ceil(v, index), index) >= v,
{
    let one = RATIO_ONE as int;
    let c = unscale_ceil(v, index);
    assert(c * index >= v * one) by (nonlinear_arith)
        requires
            c == (v * one + index - 1) / index,
            index >= 1,
            v >= 0,
            one > 0,
    ;
    assert((c * index) / one >= v) by (nonlinear_arith)
        requires
            c * index >= v * one,
            one > 0,
    ;
}

/// Every positive amount scales to at least one unit under ceiling scaling.
pub proof fn law_ceil_scaling_is_positive(v: int, index: int)
    requires
        v >= 1,
        index >= 1,
    ensures
        unscale_ceil(v, index) >= 1,
{
    let one = RATIO_ONE as int;
    assert((v * one + index - 1) / index >= 1) by (nonlinear_arith)
        requires
            v >= 1,
            one >= 1,
            index >= 1,
    ;
}

/// Reading scaled units at an index of at least 1.0 and scaling the reading back up with
/// ceiling scaling gives back exactly the scaled units.
pub proof fn law_display_then_ceil_round_trips(scaled: int, index: int)
    requires
        scaled >= 0,
        index >= RATIO_ONE,
    ensures
        unscale_ceil(scale_floor(scaled, index), index) == scaled,
{
    let one = RATIO_ONE as int;
    let f = scale_floor(scaled, index);
    assert(f * one <= scaled * index && f * one > scaled * index - one) by (nonlinear_arith)
        requires
            f == (scaled * index) / one,
            one > 0,
    ;
    assert((f * one + index - 1) / index == scaled) by (nonlinear_arith)
        requires
            f * one <= scaled * index,
            f * one > scaled * index - one,
            index >= one,
            one > 0,
            scaled >= 0,
    ;
}

/// The reading of a sum of scaled units is at least the sum of the readings of the parts.
pub proof fn law_scaled_sum_covers_parts(a: int, b: int, index: int)
    requires
        a >= 0,
        b >= 0,
        index >= 0,
    ensures
        scale_floor(a + b, index) >= scale_floor(a, index) + scale_floor(b, index),
{
    let one = RATIO_ONE as int;
    assert(((a + b) * index) / one >= (a * index) / one + (b * index) / one) by (nonlinear_arith)
        requires
            a >= 0,
            b >= 0,
            index >= 0,
            one > 0,
    ;
}

} // verus!
