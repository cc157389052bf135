//! Fixed-point numbers with nine decimal places.
//!
//! A [`Scalar`] counts billionths of a unit in an `i64`. Sums, products and
//! quotients are rounded to the nearest billionth (ties away from zero) and
//! saturate at the ends of the `i64` range, so no operation can fail.

use vstd::prelude::*;
use vstd::string::StringExecFns;

verus! {

/// How many billionths make one unit.
pub const NANOS_PER_UNIT: i64 = 1_000_000_000;

/// A fixed-point number: `nanos` billionths of a unit.
#[derive(Clone, Copy, Debug, PartialEq, Eq, Hash, Structural)]
pub struct Scalar {
    pub nanos: i64,
}

/// The nearest `i64` to `v`.
pub open spec fn saturate(v: int) -> i64 {
    if v > i64::MAX {
        i64::MAX
    } else if v < i64::MIN {
        i64::MIN
    } else {
        v as i64
    }
}

/// The absolute value of `v`.
pub open spec fn magnitude(v: int) -> nat {
    if v < 0 {
        (-v) as nat
    } else {
        v as nat
    }
}

/// `sign` applied to `m`: `-m` where `negative`, else `m`.
pub open spec fn signed(negative: bool, m: int) -> int {
    if negative {
        -m
    } else {
        m
    }
}

/// `n / d` rounded to the nearest integer, ties away from zero, for `d > 0`.
pub open spec fn round_div(n: int, d: int) -> int {
    signed(n < 0, (magnitude(n) + d / 2) / d)
}

/// Whether `r` is the integer square root of `n`: the largest `r` with `r * r <= n`.
pub open spec fn is_floor_sqrt(n: nat, r: nat) -> bool {
    r * r <= n < (r + 1) * (r + 1)
}

/// The integer square root of `n`.
pub open spec fn floor_sqrt(n: nat) -> nat {
    choose|r: nat| is_floor_sqrt(n, r)
}

/// Two integer square roots of one number are the same.
pub proof fn lemma_floor_sqrt_unique(n: nat, r: nat, s: nat)
    requires
        is_floor_sqrt(n, r),
        is_floor_sqrt(n, s),
    ensures
        r == s,
{
    if r < s {
        assert((r + 1) * (r + 1) <= s * s) by (nonlinear_arith)
            requires
                r + 1 <= s,
        ;
    } else if s < r {
        assert((s + 1) * (s + 1) <= r * r) by (nonlinear_arith)
            requires
                s + 1 <= r,
        ;
    }
}

fn magnitude_of(v: i64) -> (m: u128)
    ensures
        m == magnitude(v as int),
        m <= 0x8000_0000_0000_0000,
{
    if v < 0 {
        (-(v as i128)) as u128
    } else {
        v as u128
    }
}

fn with_sign(negative: bool, m: u128) -> (r: Scalar)
    ensures
        r.nanos == saturate(signed(negative, m as int)),
{
    if negative {
        if m >= 0x8000_0000_0000_0000 {
            Scalar { nanos: i64::MIN }
        } else {
            Scalar { nanos: -(m as i64) }
        }
    } else {
        if m > 0x7fff_ffff_ffff_ffff {
            Scalar { nanos: i64::MAX }
        } else {
            Scalar { nanos: m as i64 }
        }
    }
}

/// Every number has an integer square root.
pub proof fn lemma_floor_sqrt_exists(n: nat)
    ensures
        is_floor_sqrt(n, floor_sqrt(n)),
    decreases n,
{
    if n == 0 {
        assert(is_floor_sqrt(0, 0)) by (nonlinear_arith);
    } else {
        lemma_floor_sqrt_exists((n - 1) as nat);
        let r = floor_sqrt((n - 1) as nat);
        if n < (r + 1) * (r + 1) {
            assert(is_floor_sqrt(n, r));
        } else {
            assert((r + 1) * (r + 1) <= n < (r + 2) * (r + 2)) by (nonlinear_arith)
                requires
                    r * r <= n - 1 < (r + 1) * (r + 1),
                    n >= (r + 1) * (r + 1),
            ;
            assert(is_floor_sqrt(n, r + 1));
        }
    }
}

/// The integer square root of a sum of two squares is no less than the size
/// of what was squared.
pub proof fn lemma_floor_sqrt_of_squares(a: int, b: int)
    ensures
        a * a + b * b >= 0,
        floor_sqrt((a * a + b * b) as nat) >= magnitude(a),
        floor_sqrt((a * a + b * b) as nat) >= magnitude(b),
{
    assert(a * a >= 0 && b * b >= 0) by (nonlinear_arith);
    let n = (a * a + b * b) as nat;
    lemma_floor_sqrt_exists(n);
    let r = floor_sqrt(n);
    let ma = magnitude(a);
    let mb = magnitude(b);
    assert(ma * ma == a * a && mb * mb == b * b) by (nonlinear_arith)
        requires
            ma == magnitude(a),
            mb == magnitude(b),
    ;
    if r < ma {
        assert((r + 1) * (r + 1) <= ma * ma) by (nonlinear_arith)
            requires
                r + 1 <= ma,
        ;
    }
    if r < mb {
        assert((r + 1) * (r + 1) <= mb * mb) by (nonlinear_arith)
            requires
                r + 1 <= mb,
        ;
    }
}

/// The sum of two numbers that are given by sign and size.
fn signed_sum(negative_a: bool, a: u128, negative_b: bool, b: u128) -> (r: (bool, u128))
    requires
        a + b <= u128::MAX,
    ensures
        signed(r.0, r.1 as int) == signed(negative_a, a as int) + signed(negative_b, b as int),
        r.1 <= a + b,
{
    if negative_a == negative_b {
        (negative_a, a + b)
    } else if a >= b {
        (negative_a, a - b)
    } else {
        (negative_b, b - a)
    }
}

/// The product of two numbers, by sign and size.
fn signed_product(x: i64, y: i64) -> (r: (bool, u128))
    ensures
        signed(r.0, r.1 as int) == x * y,
        r.1 <= 0x8000_0000_0000_0000 * 0x8000_0000_0000_0000,
{
    let a: u128 = magnitude_of(x);
    let b: u128 = magnitude_of(y);
    assert(a * b <= 0x8000_0000_0000_0000 * 0x8000_0000_0000_0000) by (nonlinear_arith)
        requires
            a <= 0x8000_0000_0000_0000,
            b <= 0x8000_0000_0000_0000,
    ;
    proof {
        let p = x as int;
        let q = y as int;
        assert(magnitude(p * q) == magnitude(p) * magnitude(q)) by (nonlinear_arith);
        assert((p * q < 0) == (((p < 0) != (q < 0)) && magnitude(p) * magnitude(q) != 0))
            by (nonlinear_arith);
    }
    ((x < 0) != (y < 0), a * b)
}

/// The integer square root of `n`, found by bisection.
pub fn floor_sqrt_of(n: u128) -> (r: u128)
    ensures
        is_floor_sqrt(n as nat, r as nat),
        r == floor_sqrt(n as nat),
        r < 0x1_0000_0000_0000_0000,
{
    let mut lo: u128 = 0;
    let mut hi: u128 = 0x1_0000_0000_0000_0000;
    assert(hi * hi > n) by (nonlinear_arith)
        requires
            hi == 0x1_0000_0000_0000_0000,
            n <= 0xffff_ffff_ffff_ffff_ffff_ffff_ffff_ffff,
    ;
    while hi - lo > 1
        invariant
            lo < hi <= 0x1_0000_0000_0000_0000,
            lo * lo <= n,
            n < hi * hi,
        decreases hi - lo,
    {
        let mid: u128 = lo + (hi - lo) / 2;
        assert(mid * mid <= 0xffff_ffff_ffff_ffff * 0xffff_ffff_ffff_ffff) by (nonlinear_arith)
            requires
                mid <= 0xffff_ffff_ffff_ffff,
        ;
        if mid * mid <= n {
            lo = mid;
        } else {
            hi = mid;
        }
    }
    proof {
        assert(hi == lo + 1);
        assert(is_floor_sqrt(n as nat, lo as nat));
        lemma_floor_sqrt_exists(n as nat);
        lemma_floor_sqrt_unique(n as nat, lo as nat, floor_sqrt(n as nat));
    }
    lo
}

impl Scalar {
    /// The number that `nanos` billionths make.
    pub fn from_nanos(nanos: i64) -> (r: Scalar)
        ensures
            r.nanos == nanos,
    {
        Scalar { nanos }
    }

    /// The whole number `units`.
    pub fn from_int(units: i32) -> (r: Scalar)
        ensures
            r.nanos == units * NANOS_PER_UNIT,
    {
        Scalar { nanos: (units as i64) * NANOS_PER_UNIT }
    }

    /// Zero.
    pub fn zero() -> (r: Scalar)
        ensures
            r.nanos == 0,
    {
        Scalar { nanos: 0 }
    }

    /// One.
    pub fn one() -> (r: Scalar)
        ensures
            r.nanos == NANOS_PER_UNIT,
    {
        Scalar { nanos: NANOS_PER_UNIT }
    }

    /// This number in billionths.
    pub fn nanos(self) -> (n: i64)
        ensures
            n == self.nanos,
    {
        self.nanos
    }

    pub open spec fn spec_add(self, other: Scalar) -> Scalar {
        Scalar { nanos: saturate(self.nanos + other.nanos) }
    }

    pub open spec fn spec_sub(self, other: Scalar) -> Scalar {
        Scalar { nanos: saturate(self.nanos - other.nanos) }
    }

    pub open spec fn spec_neg(self) -> Scalar {
        Scalar { nanos: saturate(-self.nanos) }
    }

    pub open spec fn spec_abs(self) -> Scalar {
        Scalar { nanos: saturate(magnitude(self.nanos as int) as int) }
    }

    pub open spec fn spec_mul(self, other: Scalar) -> Scalar {
        Scalar { nanos: saturate(round_div(self.nanos * other.nanos, NANOS_PER_UNIT as int)) }
    }

    /// The quotient; a division by zero saturates in the direction of the
    /// dividend's sign, and zero by zero is zero.
    pub open spec fn spec_div(self, other: Scalar) -> Scalar {
        if other.nanos == 0 {
            Scalar {
                nanos: if self.nanos > 0 {
                    i64::MAX
                } else if self.nanos < 0 {
                    i64::MIN
                } else {
                    0
                },
            }
        } else {
            Scalar {
                nanos: saturate(
                    signed(
                        (self.nanos < 0) != (other.nanos < 0),
                        (magnitude(self.nanos as int) * NANOS_PER_UNIT + magnitude(
                            other.nanos as int,
                        ) / 2) / (magnitude(other.nanos as int) as int),
                    ),
                ),
            }
        }
    }

    /// The square root, rounded down to a billionth; zero for a negative number.
    pub open spec fn spec_sqrt(self) -> Scalar {
        if self.nanos <= 0 {
            Scalar { nanos: 0 }
        } else {
            Scalar { nanos: floor_sqrt((self.nanos * NANOS_PER_UNIT) as nat) as i64 }
        }
    }

    /// The length of the vector of `self` and `other`: the square root of
    /// the sum of their squares, taken exactly and rounded down to a
    /// billionth. It saturates only where the length itself is out of range.
    pub open spec fn spec_hypot(self, other: Scalar) -> Scalar {
        Scalar {
            nanos: saturate(
                floor_sqrt((self.nanos * self.nanos + other.nanos * other.nanos) as nat) as int,
            ),
        }
    }

    /// The number two thirds of the way from `self` to `other`: a third of
    /// the sum of `self` and twice `other`, rounded to the nearest billionth.
    pub open spec fn spec_two_thirds_toward(self, other: Scalar) -> Scalar {
        Scalar { nanos: saturate(round_div(self.nanos + 2 * other.nanos, 3)) }
    }

    /// `a * b + c * d + e`, taken exactly, then rounded to the nearest
    /// billionth and saturated: what is between is never rounded, and never
    /// out of range.
    pub open spec fn spec_fused(a: Scalar, b: Scalar, c: Scalar, d: Scalar, e: Scalar) -> Scalar {
        Scalar {
            nanos: saturate(
                round_div(
                    a.nanos * b.nanos + c.nanos * d.nanos + e.nanos * NANOS_PER_UNIT,
                    NANOS_PER_UNIT as int,
                ),
            ),
        }
    }

    pub open spec fn spec_min(self, other: Scalar) -> Scalar {
        if other.nanos < self.nanos {
            other
        } else {
            self
        }
    }

    pub open spec fn spec_max(self, other: Scalar) -> Scalar {
        if other.nanos > self.nanos {
            other
        } else {
            self
        }
    }

    /// `self` held between `low` and `high`; `low` wins where the two cross.
    pub open spec fn spec_clamp(self, low: Scalar, high: Scalar) -> Scalar {
        self.spec_min(high).spec_max(low)
    }

    /// The sum, saturating.
    pub fn add(self, other: Scalar) -> (r: Scalar)
        ensures
            r == self.spec_add(other),
    {
        let wide: i128 = self.nanos as i128 + other.nanos as i128;
        if wide > i64::MAX as i128 {
            Scalar { nanos: i64::MAX }
        } else if wide < i64::MIN as i128 {
            Scalar { nanos: i64::MIN }
        } else {
            Scalar { nanos: wide as i64 }
        }
    }

    /// The difference, saturating.
    pub fn sub(self, other: Scalar) -> (r: Scalar)
        ensures
            r == self.spec_sub(other),
    {
        let wide: i128 = self.nanos as i128 - other.nanos as i128;
        if wide > i64::MAX as i128 {
            Scalar { nanos: i64::MAX }
        } else if wide < i64::MIN as i128 {
            Scalar { nanos: i64::MIN }
        } else {
            Scalar { nanos: wide as i64 }
        }
    }

    /// The negation, saturating.
    pub fn neg(self) -> (r: Scalar)
        ensures
            r == self.spec_neg(),
    {
        if self.nanos == i64::MIN {
            Scalar { nanos: i64::MAX }
        } else {
            Scalar { nanos: -self.nanos }
        }
    }

    /// The absolute value, saturating.
    pub fn abs(self) -> (r: Scalar)
        ensures
            r == self.spec_abs(),
    {
        if self.nanos == i64::MIN {
            Scalar { nanos: i64::MAX }
        } else if self.nanos < 0 {
            Scalar { nanos: -self.nanos }
        } else {
            self
        }
    }

    /// The product, rounded to the nearest billionth and saturating.
    pub fn mul(self, other: Scalar) -> (r: Scalar)
        ensures
            r == self.spec_mul(other),
    {
        let a: u128 = magnitude_of(self.nanos);
        let b: u128 = magnitude_of(other.nanos);
        assert(a * b <= 0x8000_0000_0000_0000 * 0x8000_0000_0000_0000) by (nonlinear_arith)
            requires
                a <= 0x8000_0000_0000_0000,
                b <= 0x8000_0000_0000_0000,
        ;
        let product: u128 = a * b;
        let rounded: u128 = (product + 500_000_000) / 1_000_000_000;
        let negative: bool = (self.nanos < 0) != (other.nanos < 0) && product != 0;
        proof {
            let x = self.nanos as int;
            let y = other.nanos as int;
            assert(magnitude(x * y) == magnitude(x) * magnitude(y)) by (nonlinear_arith);
            assert((x * y < 0) == (((x < 0) != (y < 0)) && magnitude(x) * magnitude(y) != 0))
                by (nonlinear_arith);
        }
        with_sign(negative, rounded)
    }

    /// The quotient, rounded to the nearest billionth and saturating.
    pub fn div(self, other: Scalar) -> (r: Scalar)
        ensures
            r == self.spec_div(other),
    {
        if other.nanos == 0 {
            if self.nanos > 0 {
                Scalar { nanos: i64::MAX }
            } else if self.nanos < 0 {
                Scalar { nanos: i64::MIN }
            } else {
                Scalar { nanos: 0 }
            }
        } else {
            let a: u128 = magnitude_of(self.nanos);
            let b: u128 = magnitude_of(other.nanos);
            let quotient: u128 = (a * 1_000_000_000 + b / 2) / b;
            with_sign((self.nanos < 0) != (other.nanos < 0), quotient)
        }
    }

    /// The square root, rounded down to a billionth; zero for a negative number.
    pub fn sqrt(self) -> (r: Scalar)
        ensures
            r == self.spec_sqrt(),
    {
        if self.nanos <= 0 {
            Scalar { nanos: 0 }
        } else {
            let n: u128 = (self.nanos as u128) * 1_000_000_000;
            let root: u128 = floor_sqrt_of(n);
            assert(root < 0x1_0000_0000_0000) by (nonlinear_arith)
                requires
                    root * root <= n,
                    n < 0x1_0000_0000_0000_0000_0000_0000,
            ;
            Scalar { nanos: root as i64 }
        }
    }

    /// `a * b + c * d + e`, rounded and saturated once, at the end.
    pub fn fused(a: Scalar, b: Scalar, c: Scalar, d: Scalar, e: Scalar) -> (r: Scalar)
        ensures
            r == Scalar::spec_fused(a, b, c, d, e),
    {
        let first = signed_product(a.nanos, b.nanos);
        let second = signed_product(c.nanos, d.nanos);
        let third = signed_product(e.nanos, NANOS_PER_UNIT);
        assert(third.1 <= 0x8000_0000_0000_0000 * 1_000_000_000) by (nonlinear_arith)
            requires
                signed(third.0, third.1 as int) == e.nanos * NANOS_PER_UNIT,
                -0x8000_0000_0000_0000 <= e.nanos <= 0x7fff_ffff_ffff_ffff,
                NANOS_PER_UNIT == 1_000_000_000,
        ;
        let both = signed_sum(first.0, first.1, second.0, second.1);
        let all = signed_sum(both.0, both.1, third.0, third.1);
        let rounded: u128 = (all.1 + 500_000_000) / 1_000_000_000;
        with_sign(all.0, rounded)
    }

    /// The number two thirds of the way from `self` to `other`.
    pub fn two_thirds_toward(self, other: Scalar) -> (r: Scalar)
        ensures
            r == self.spec_two_thirds_toward(other),
    {
        let near: u128 = magnitude_of(self.nanos);
        let far: u128 = magnitude_of(other.nanos);
        let all = signed_sum(self.nanos < 0, near, other.nanos < 0, 2 * far);
        let rounded: u128 = (all.1 + 1) / 3;
        with_sign(all.0, rounded)
    }

    /// The length of the vector of `self` and `other`.
    pub fn hypot(self, other: Scalar) -> (r: Scalar)
        ensures
            r == self.spec_hypot(other),
    {
        let a: u128 = magnitude_of(self.nanos);
        let b: u128 = magnitude_of(other.nanos);
        assert(a * a <= 0x8000_0000_0000_0000 * 0x8000_0000_0000_0000 && a * a == self.nanos
            * self.nanos) by (nonlinear_arith)
            requires
                a <= 0x8000_0000_0000_0000,
                a == magnitude(self.nanos as int),
        ;
        assert(b * b <= 0x8000_0000_0000_0000 * 0x8000_0000_0000_0000 && b * b == other.nanos
            * other.nanos) by (nonlinear_arith)
            requires
                b <= 0x8000_0000_0000_0000,
                b == magnitude(other.nanos as int),
        ;
        let root: u128 = floor_sqrt_of(a * a + b * b);
        if root > 0x7fff_ffff_ffff_ffff {
            Scalar { nanos: i64::MAX }
        } else {
            Scalar { nanos: root as i64 }
        }
    }

    /// The smaller of the two.
    pub fn min(self, other: Scalar) -> (r: Scalar)
        ensures
            r == self.spec_min(other),
    {
        if other.nanos < self.nanos {
            other
        } else {
            self
        }
    }

    /// The larger of the two.
    pub fn max(self, other: Scalar) -> (r: Scalar)
        ensures
            r == self.spec_max(other),
    {
        if other.nanos > self.nanos {
            other
        } else {
            self
        }
    }

    /// `self` held between `low` and `high`.
    pub fn clamp(self, low: Scalar, high: Scalar) -> (r: Scalar)
        ensures
            r == self.spec_clamp(low, high),
    {
        self.min(high).max(low)
    }

    /// Whether `self` is less than `other`.
    pub fn lt(self, other: Scalar) -> (r: bool)
        ensures
            r == (self.nanos < other.nanos),
    {
        self.nanos < other.nanos
    }

    /// Whether `self` is at most `other`.
    pub fn le(self, other: Scalar) -> (r: bool)
        ensures
            r == (self.nanos <= other.nanos),
    {
        self.nanos <= other.nanos
    }

    /// Whether `self` is zero.
    pub fn is_zero(self) -> (r: bool)
        ensures
            r == (self.nanos == 0),
    {
        self.nanos == 0
    }

    /// Whether `self` is below zero.
    pub fn is_negative(self) -> (r: bool)
        ensures
            r == (self.nanos < 0),
    {
        self.nanos < 0
    }
}

/// The character of the decimal digit `d`.
pub open spec fn digit_char(d: nat) -> char {
    if d == 0 {
        '0'
    } else if d == 1 {
        '1'
    } else if d == 2 {
        '2'
    } else if d == 3 {
        '3'
    } else if d == 4 {
        '4'
    } else if d == 5 {
        '5'
    } else if d == 6 {
        '6'
    } else if d == 7 {
        '7'
    } else if d == 8 {
        '8'
    } else {
        '9'
    }
}

/// The decimal digits of `n`, without leading zeros.
pub open spec fn decimal(n: nat) -> Seq<char>
    decreases n,
{
    if n < 10 {
        seq![digit_char(n)]
    } else {
        decimal(n / 10) + seq![digit_char(n % 10)]
    }
}

/// The last `places` decimal digits of `n`, with leading zeros.
pub open spec fn padded(n: nat, places: nat) -> Seq<char>
    decreases places,
{
    if places == 0 {
        Seq::empty()
    } else {
        padded(n / 10, (places - 1) as nat) + seq![digit_char(n % 10)]
    }
}

/// The digits behind the decimal point of the fraction `frac / 10^places`,
/// without trailing zeros.
pub open spec fn fraction(frac: nat, places: nat) -> Seq<char>
    decreases places,
{
    if places == 0 || frac == 0 {
        Seq::empty()
    } else if frac % 10 == 0 {
        fraction(frac / 10, (places - 1) as nat)
    } else {
        padded(frac, places)
    }
}

/// The text of the digit `d`.
fn digit_text(d: u64) -> (text: &'static str)
    requires
        d < 10,
    ensures
        text@ == seq![digit_char(d as nat)],
{
    proof {
        reveal_strlit("0");
        reveal_strlit("1");
        reveal_strlit("2");
        reveal_strlit("3");
        reveal_strlit("4");
        reveal_strlit("5");
        reveal_strlit("6");
        reveal_strlit("7");
        reveal_strlit("8");
        reveal_strlit("9");
    }
    let text = if d == 0 {
        "0"
    } else if d == 1 {
        "1"
    } else if d == 2 {
        "2"
    } else if d == 3 {
        "3"
    } else if d == 4 {
        "4"
    } else if d == 5 {
        "5"
    } else if d == 6 {
        "6"
    } else if d == 7 {
        "7"
    } else if d == 8 {
        "8"
    } else {
        "9"
    };
    assert(text@ =~= seq![digit_char(d as nat)]);
    text
}

/// Appends the decimal digits of `n` to `out`.
pub fn append_decimal(out: &mut String, n: u64)
    ensures
        final(out)@ == old(out)@ + decimal(n as nat),
    decreases n,
{
    if n >= 10 {
        append_decimal(out, n / 10);
    }
    out.append(digit_text(n % 10));
    assert(out@ =~= old(out)@ + decimal(n as nat));
}

fn append_padded(out: &mut String, n: u64, places: u32)
    ensures
        final(out)@ == old(out)@ + padded(n as nat, places as nat),
    decreases places,
{
    if places > 0 {
        append_padded(out, n / 10, places - 1);
        out.append(digit_text(n % 10));
    }
    assert(out@ =~= old(out)@ + padded(n as nat, places as nat));
}

fn append_fraction(out: &mut String, frac: u64, places: u32)
    ensures
        final(out)@ == old(out)@ + fraction(frac as nat, places as nat),
    decreases places,
{
    if places == 0 || frac == 0 {
        assert(out@ =~= old(out)@ + fraction(frac as nat, places as nat));
    } else if frac % 10 == 0 {
        append_fraction(out, frac / 10, places - 1);
    } else {
        append_padded(out, frac, places);
    }
}

impl Scalar {
    /// The number in decimal: a minus sign where it is negative, the whole
    /// part, and, where there is a fraction, a point and the digits of the
    /// fraction without trailing zeros.
    pub open spec fn spec_text(self) -> Seq<char> {
        let m = magnitude(self.nanos as int);
        let sign = if self.nanos < 0 {
            seq!['-']
        } else {
            Seq::empty()
        };
        let tail = if m % 1_000_000_000 == 0 {
            Seq::empty()
        } else {
            seq!['.'] + fraction(m % 1_000_000_000, 9)
        };
        sign + decimal(m / 1_000_000_000) + tail
    }

    /// Appends the number in decimal to `out`.
    pub fn append_text(self, out: &mut String)
        ensures
            final(out)@ == old(out)@ + self.spec_text(),
    {
        proof {
            reveal_strlit("-");
            reveal_strlit(".");
        }
        let m: u64 = if self.nanos < 0 {
            (-(self.nanos as i128)) as u64
        } else {
            self.nanos as u64
        };
        if self.nanos < 0 {
            out.append("-");
        }
        append_decimal(out, m / 1_000_000_000);
        if m % 1_000_000_000 != 0 {
            out.append(".");
            append_fraction(out, m % 1_000_000_000, 9);
        }
        assert(out@ =~= old(out)@ + self.spec_text());
    }

    /// The number in decimal.
    pub fn to_text(self) -> (text: String)
        ensures
            text@ == self.spec_text(),
    {
        let mut text = String::new();
        self.append_text(&mut text);
        assert(text@ =~= self.spec_text());
        text
    }
}

/// A number in decimal has at least one digit.
pub proof fn lemma_decimal_is_not_empty(n: nat)
    ensures
        decimal(n).len() >= 1,
    decreases n,
{
    if n >= 10 {
        lemma_decimal_is_not_empty(n / 10);
    }
}

/// Two numbers that are written alike in decimal are one number.
pub proof fn lemma_decimal_is_injective(m: nat, n: nat)
    requires
        decimal(m) == decimal(n),
    ensures
        m == n,
    decreases m,
{
    lemma_decimal_is_not_empty(m / 10);
    lemma_decimal_is_not_empty(n / 10);
    if m >= 10 && n >= 10 {
        let a = decimal(m / 10);
        let b = decimal(n / 10);
        assert(decimal(m).last() == digit_char(m % 10));
        assert(decimal(n).last() == digit_char(n % 10));
        assert(decimal(m).drop_last() =~= a);
        assert(decimal(n).drop_last() =~= b);
        lemma_decimal_is_injective(m / 10, n / 10);
    } else if m < 10 && n < 10 {
        assert(decimal(m)[0] == digit_char(m));
        assert(decimal(n)[0] == digit_char(n));
    } else if m < 10 {
        assert(decimal(m).len() == 1);
        assert(decimal(n).len() == decimal(n / 10).len() + 1);
    } else {
        assert(decimal(n).len() == 1);
        assert(decimal(m).len() == decimal(m / 10).len() + 1);
    }
}

/// A component of a vector, divided by the length of the vector, lies
/// between minus one and one.
pub proof fn lemma_unit_component(x: Scalar, y: Scalar)
    requires
        x.spec_hypot(y).nanos != 0,
    ensures
        -NANOS_PER_UNIT <= x.spec_div(x.spec_hypot(y)).nanos <= NANOS_PER_UNIT,
        -NANOS_PER_UNIT <= y.spec_div(x.spec_hypot(y)).nanos <= NANOS_PER_UNIT,
{
    lemma_floor_sqrt_of_squares(x.nanos as int, y.nanos as int);
    let length = x.spec_hypot(y).nanos as int;
    lemma_quotient_within_one(magnitude(x.nanos as int) as int, length);
    lemma_quotient_within_one(magnitude(y.nanos as int) as int, length);
}

/// A size divided by a length that is no less, or less by one where the
/// length is the largest there is, is at most one.
proof fn lemma_quotient_within_one(size: int, length: int)
    requires
        0 <= size <= 0x8000_0000_0000_0000,
        0 < length <= 0x7fff_ffff_ffff_ffff,
        size <= length || length == 0x7fff_ffff_ffff_ffff,
    ensures
        0 <= (size * NANOS_PER_UNIT + length / 2) / length <= NANOS_PER_UNIT,
{
    let top = size * NANOS_PER_UNIT + length / 2;
    assert(0 <= top < length * (NANOS_PER_UNIT + 1)) by (nonlinear_arith)
        requires
            top == size * NANOS_PER_UNIT + length / 2,
            0 <= size <= 0x8000_0000_0000_0000,
            0 < length <= 0x7fff_ffff_ffff_ffff,
            size <= length || length == 0x7fff_ffff_ffff_ffff,
            NANOS_PER_UNIT == 1_000_000_000,
    ;
    assert(0 <= top / length <= NANOS_PER_UNIT) by (nonlinear_arith)
        requires
            0 <= top < length * (NANOS_PER_UNIT + 1),
            length > 0,
            NANOS_PER_UNIT == 1_000_000_000,
    ;
}

/// What a fused sum comes to where a product or the addend is nothing: a
/// product alone is the product, the addend alone is the addend, and a
/// product with one is the other factor.
pub proof fn lemma_fused_simplifies(a: Scalar, b: Scalar, c: Scalar, d: Scalar, e: Scalar)
    ensures
        (c.nanos == 0 || d.nanos == 0) && e.nanos == 0 ==> Scalar::spec_fused(a, b, c, d, e)
            == a.spec_mul(b),
        (a.nanos == 0 || b.nanos == 0) && e.nanos == 0 ==> Scalar::spec_fused(a, b, c, d, e)
            == c.spec_mul(d),
        (a.nanos == 0 || b.nanos == 0) && (c.nanos == 0 || d.nanos == 0) ==> Scalar::spec_fused(
            a,
            b,
            c,
            d,
            e,
        ) == e,
        (c.nanos == 0 || d.nanos == 0) && b.nanos == NANOS_PER_UNIT ==> Scalar::spec_fused(
            a,
            b,
            c,
            d,
            e,
        ) == (Scalar { nanos: saturate(a.nanos + e.nanos) }),
        (c.nanos == 0 || d.nanos == 0) && b.nanos == -NANOS_PER_UNIT ==> Scalar::spec_fused(
            a,
            b,
            c,
            d,
            e,
        ) == (Scalar { nanos: saturate(e.nanos - a.nanos) }),
{
    let p = a.nanos * b.nanos;
    let q = c.nanos * d.nanos;
    assert((a.nanos == 0 || b.nanos == 0) ==> p == 0) by (nonlinear_arith)
        requires
            p == a.nanos * b.nanos,
    ;
    assert((c.nanos == 0 || d.nanos == 0) ==> q == 0) by (nonlinear_arith)
        requires
            q == c.nanos * d.nanos,
    ;
    assert(b.nanos == NANOS_PER_UNIT ==> p == a.nanos * 1_000_000_000) by (nonlinear_arith)
        requires
            p == a.nanos * b.nanos,
            NANOS_PER_UNIT == 1_000_000_000,
    ;
    assert(b.nanos == -NANOS_PER_UNIT ==> p == -(a.nanos * 1_000_000_000)) by (nonlinear_arith)
        requires
            p == a.nanos * b.nanos,
            NANOS_PER_UNIT == 1_000_000_000,
    ;
    assert(round_div(e.nanos * NANOS_PER_UNIT, NANOS_PER_UNIT as int) == e.nanos);
    assert(round_div((a.nanos + e.nanos) * 1_000_000_000, NANOS_PER_UNIT as int) == a.nanos
        + e.nanos);
    assert(round_div((e.nanos - a.nanos) * 1_000_000_000, NANOS_PER_UNIT as int) == e.nanos
        - a.nanos);
}

/// The number two thirds of the way from one number to another lies between
/// the two, so it is never out of range, and it is the first number where
/// they are the same.
pub proof fn lemma_two_thirds_lies_between(from: Scalar, to: Scalar)
    ensures
        from.spec_min(to).nanos <= from.spec_two_thirds_toward(to).nanos <= from.spec_max(to).nanos,
        from.spec_two_thirds_toward(to).nanos == round_div(from.nanos + 2 * to.nanos, 3),
        from.spec_two_thirds_toward(from) == from,
{
}

/// One is neutral for the product: no rounding and no saturation occur.
pub proof fn lemma_mul_one(x: Scalar)
    ensures
        x.spec_mul(Scalar { nanos: NANOS_PER_UNIT }) == x,
        (Scalar { nanos: NANOS_PER_UNIT }).spec_mul(x) == x,
{
    let n = x.nanos as int;
    assert(n * NANOS_PER_UNIT == NANOS_PER_UNIT * n) by (nonlinear_arith);
    assert(round_div(n * NANOS_PER_UNIT, NANOS_PER_UNIT as int) == n);
}

/// Zero absorbs the product.
pub proof fn lemma_mul_zero(x: Scalar)
    ensures
        x.spec_mul(Scalar { nanos: 0 }) == (Scalar { nanos: 0 }),
        (Scalar { nanos: 0 }).spec_mul(x) == (Scalar { nanos: 0 }),
{
    let n = x.nanos as int;
    assert(n * 0 == 0 && 0 * n == 0) by (nonlinear_arith);
}

/// The product with minus one is the negation, and the quotient by one is
/// the number itself.
pub proof fn lemma_mul_minus_one(x: Scalar)
    ensures
        x.spec_mul(Scalar { nanos: -1_000_000_000i64 }) == x.spec_neg(),
        (Scalar { nanos: -1_000_000_000i64 }).spec_mul(x) == x.spec_neg(),
        x.spec_div(Scalar { nanos: NANOS_PER_UNIT }) == x,
{
    let n = x.nanos as int;
    assert(n * (-1_000_000_000) == (-1_000_000_000) * n) by (nonlinear_arith);
    assert(round_div(n * (-1_000_000_000), NANOS_PER_UNIT as int) == -n);
    assert((magnitude(n) * NANOS_PER_UNIT + NANOS_PER_UNIT / 2) / (NANOS_PER_UNIT as int)
        == magnitude(n));
}

/// An angle in radians, together with its cosine and its sine.
///
/// The engine never evaluates a trigonometric function: whoever makes an
/// `Angle` supplies the three numbers, and every operation that turns about
/// an angle reads the cosine and the sine from it.
#[derive(Clone, Copy, Debug, PartialEq, Eq, Hash, Structural)]
pub struct Angle {
    pub radians: Scalar,
    pub cos: Scalar,
    pub sin: Scalar,
}

impl Angle {
    /// The angle of `radians` whose cosine is `cos` and whose sine is `sin`.
    pub fn new(radians: Scalar, cos: Scalar, sin: Scalar) -> (r: Angle)
        ensures
            r == (Angle { radians, cos, sin }),
    {
        Angle { radians, cos, sin }
    }

    /// The angle zero: cosine one, sine zero.
    pub fn zero() -> (r: Angle)
        ensures
            r == Angle::spec_zero(),
    {
        Angle { radians: Scalar::zero(), cos: Scalar::one(), sin: Scalar::zero() }
    }

    pub open spec fn spec_zero() -> Angle {
        Angle {
            radians: Scalar { nanos: 0 },
            cos: Scalar { nanos: NANOS_PER_UNIT },
            sin: Scalar { nanos: 0 },
        }
    }
}

} // verus!
