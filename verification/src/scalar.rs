//! Fixed-point real numbers.
//!
//! Every length, angle, rate and duration in this crate is a [`Scalar`]: a
//! signed count of millionths. All arithmetic is exact on the integers that
//! stand behind the values, rounds toward zero where a quotient is taken, and
//! saturates at the ends of the representable range instead of wrapping.

use vstd::prelude::*;

verus! {

/// The number of millionths in one unit.
pub const MICROS_PER_UNIT: i64 = 1_000_000;

/// The integer nearest to `v` that an `i64` can hold.
pub open spec fn saturate(v: int) -> int {
    if v < i64::MIN as int {
        i64::MIN as int
    } else if v > i64::MAX as int {
        i64::MAX as int
    } else {
        v
    }
}

/// The quotient of `n` by `d`, rounded toward zero.
pub open spec fn trunc_div(n: int, d: int) -> int
    recommends
        d > 0,
{
    if n >= 0 {
        n / d
    } else {
        -((-n) / d)
    }
}

/// The quotient of `n` by a divisor of either sign, rounded toward zero.
pub open spec fn trunc_quot(n: int, d: int) -> int
    recommends
        d != 0,
{
    if d > 0 {
        trunc_div(n, d)
    } else {
        trunc_div(-n, -d)
    }
}

/// `v` held to the closed interval from `lo` to `hi`. Where the interval is
/// empty (`lo > hi`) the lower bound is tested first: a value at or below
/// `lo` gives `lo`, any other gives `hi`.
pub open spec fn clamp_int(v: int, lo: int, hi: int) -> int {
    if v > lo {
        if v < hi {
            v
        } else {
            hi
        }
    } else {
        lo
    }
}

/// A real number, held as a whole count of millionths.
#[derive(Clone, Copy, Debug, PartialEq, Eq, Structural)]
pub struct Scalar {
    pub micros: i64,
}

impl View for Scalar {
    type V = int;

    /// The value in millionths.
    open spec fn view(&self) -> int {
        self.micros as int
    }
}

/// The absolute value of `v`, which always fits in 128 bits.
fn magnitude(v: i64) -> (m: u128)
    ensures
        m as int == if v < 0 { -(v as int) } else { v as int },
        m <= 0x8000_0000_0000_0000,
{
    if v < 0 {
        let wide: i128 = -(v as i128);
        wide as u128
    } else {
        v as u128
    }
}

/// Brings a signed magnitude back into an `i64`, saturating.
fn from_signed_magnitude(negative: bool, m: u128) -> (r: i64)
    ensures
        r as int == saturate(if negative { -(m as int) } else { m as int }),
{
    if negative {
        if m >= 0x8000_0000_0000_0000 {
            i64::MIN
        } else {
            let wide: i128 = -(m as i128);
            wide as i64
        }
    } else {
        if m > 0x7fff_ffff_ffff_ffff {
            i64::MAX
        } else {
            m as i64
        }
    }
}

impl Scalar {
    /// The negation of this scalar, saturating.
    pub open spec fn negated(self) -> Scalar {
        Scalar { micros: saturate(-self@) as i64 }
    }

    /// The sum of this scalar and `rhs`, saturating.
    pub open spec fn plus(self, rhs: Scalar) -> Scalar {
        Scalar { micros: saturate(self@ + rhs@) as i64 }
    }

    /// The difference of this scalar and `rhs`, saturating.
    pub open spec fn minus(self, rhs: Scalar) -> Scalar {
        Scalar { micros: saturate(self@ - rhs@) as i64 }
    }

    /// The product of this scalar and `rhs`, rounded toward zero to a whole
    /// count of millionths, saturating.
    pub open spec fn times(self, rhs: Scalar) -> Scalar {
        Scalar { micros: saturate(trunc_div(self@ * rhs@, 1_000_000)) as i64 }
    }

    /// The quotient of this scalar by `rhs`, which is not zero, rounded
    /// toward zero to a whole count of millionths, saturating.
    pub open spec fn over(self, rhs: Scalar) -> Scalar
        recommends
            rhs@ != 0,
    {
        Scalar { micros: saturate(trunc_quot(self@ * 1_000_000, rhs@)) as i64 }
    }

    /// This scalar held to the closed interval from `lo` to `hi`.
    pub open spec fn clamped(self, lo: Scalar, hi: Scalar) -> Scalar {
        Scalar { micros: clamp_int(self@, lo@, hi@) as i64 }
    }

    /// The scalar that is `micros` millionths.
    pub fn from_micros(micros: i64) -> (r: Scalar)
        ensures
            r@ == micros,
    {
        Scalar { micros }
    }

    /// The scalar that is the whole number `units`.
    pub fn from_units(units: i32) -> (r: Scalar)
        ensures
            r@ == units * 1_000_000,
    {
        Scalar { micros: (units as i64) * MICROS_PER_UNIT }
    }

    /// Zero.
    pub fn zero() -> (r: Scalar)
        ensures
            r@ == 0,
    {
        Scalar { micros: 0 }
    }

    /// One.
    pub fn one() -> (r: Scalar)
        ensures
            r@ == 1_000_000,
    {
        Scalar { micros: MICROS_PER_UNIT }
    }

    /// The value in millionths.
    pub fn micros(&self) -> (m: i64)
        ensures
            m == self@,
    {
        self.micros
    }

    /// The sum, saturating.
    pub fn add(self, rhs: Scalar) -> (r: Scalar)
        ensures
            r == self.plus(rhs),
    {
        let wide: i128 = self.micros as i128 + rhs.micros as i128;
        Scalar { micros: narrow(wide) }
    }

    /// The difference, saturating.
    pub fn sub(self, rhs: Scalar) -> (r: Scalar)
        ensures
            r == self.minus(rhs),
    {
        let wide: i128 = self.micros as i128 - rhs.micros as i128;
        Scalar { micros: narrow(wide) }
    }

    /// The negation, saturating: the least value negates to the greatest.
    pub fn neg(self) -> (r: Scalar)
        ensures
            r == self.negated(),
    {
        let wide: i128 = -(self.micros as i128);
        Scalar { micros: narrow(wide) }
    }

    /// The product, rounded toward zero to a whole count of millionths,
    /// saturating.
    pub fn mul(self, rhs: Scalar) -> (r: Scalar)
        ensures
            r == self.times(rhs),
    {
        let negative = (self.micros < 0) != (rhs.micros < 0);
        let a: u128 = magnitude(self.micros);
        let b: u128 = magnitude(rhs.micros);
        assert(a * b <= 0x8000_0000_0000_0000 * 0x8000_0000_0000_0000) by (nonlinear_arith)
            requires
                a <= 0x8000_0000_0000_0000,
                b <= 0x8000_0000_0000_0000,
        ;
        assert(negative ==> (self@ * rhs@ <= 0 && -(self@ * rhs@) == a * b)) by (nonlinear_arith)
            requires
                negative == ((self@ < 0) != (rhs@ < 0)),
                a as int == if self@ < 0 { -self@ } else { self@ },
                b as int == if rhs@ < 0 { -rhs@ } else { rhs@ },
        ;
        assert(!negative ==> (self@ * rhs@ >= 0 && self@ * rhs@ == a * b)) by (nonlinear_arith)
            requires
                negative == ((self@ < 0) != (rhs@ < 0)),
                a as int == if self@ < 0 { -self@ } else { self@ },
                b as int == if rhs@ < 0 { -rhs@ } else { rhs@ },
        ;
        let q: u128 = (a * b) / 1_000_000;
        Scalar { micros: from_signed_magnitude(negative, q) }
    }

    /// The quotient, rounded toward zero to a whole count of millionths,
    /// saturating; `None` exactly when the divisor is zero.
    pub fn checked_div(self, rhs: Scalar) -> (r: Option<Scalar>)
        ensures
            r == if rhs@ == 0 {
                None
            } else {
                Some(self.over(rhs))
            },
    {
        if rhs.micros == 0 {
            return None;
        }
        let negative = (self.micros < 0) != (rhs.micros < 0);
        let a: u128 = magnitude(self.micros);
        let b: u128 = magnitude(rhs.micros);
        let q: u128 = (a * 1_000_000) / b;
        Some(Scalar { micros: from_signed_magnitude(negative, q) })
    }

    /// The whole part of the value, as far as an `i32` can hold it: the
    /// fraction is dropped and what lies beyond the ends is held to them.
    pub open spec fn whole(self) -> i32 {
        clamp_int(trunc_div(self@, 1_000_000), i32::MIN as int, i32::MAX as int) as i32
    }

    /// The whole part of the value, saturating.
    pub fn trunc_to_i32(self) -> (r: i32)
        ensures
            r == self.whole(),
    {
        let negative = self.micros < 0;
        let q: u128 = magnitude(self.micros) / 1_000_000;
        let whole: i64 = from_signed_magnitude(negative, q);
        if whole > i32::MAX as i64 {
            i32::MAX
        } else if whole > i32::MIN as i64 {
            whole as i32
        } else {
            i32::MIN
        }
    }

    /// The time of `secs` seconds and `subsec_nanos` billionths of a second,
    /// with what is less than a millionth dropped, saturating.
    pub fn from_duration(secs: u64, subsec_nanos: u32) -> (r: Scalar)
        ensures
            r@ == saturate(secs * 1_000_000 + subsec_nanos / 1000),
    {
        let wide: i128 = (secs as i128) * 1_000_000 + (subsec_nanos / 1000) as i128;
        Scalar { micros: narrow(wide) }
    }
}

/// Brings a wide value back into an `i64`, saturating.
fn narrow(wide: i128) -> (r: i64)
    ensures
        r as int == saturate(wide as int),
{
    if wide < i64::MIN as i128 {
        i64::MIN
    } else if wide > i64::MAX as i128 {
        i64::MAX
    } else {
        wide as i64
    }
}

/// `x` held to the closed interval from `min_val` to `max_val`.
///
/// The work is done by `nalgebra_glm::clamp_scalar`, on the counts of
/// millionths. What is claimed of it, and not proved here: it returns
/// `min_val` where `x` is not above `min_val`; else `max_val` where `x` is not
/// below `max_val`; else `x`. It takes every three numbers and does not
/// panic.
#[verifier::external_body]
pub(crate) fn clamp_scalar(x: Scalar, min_val: Scalar, max_val: Scalar) -> (r: Scalar)
    ensures
        r == x.clamped(min_val, max_val),
{
    Scalar { micros: nalgebra_glm::clamp_scalar(x.micros, min_val.micros, max_val.micros) }
}

/// A point or a direction in space.
#[derive(Clone, Copy, Debug, PartialEq, Eq, Structural)]
pub struct Vec3 {
    pub x: Scalar,
    pub y: Scalar,
    pub z: Scalar,
}

impl Vec3 {
    /// The vector whose components are the whole numbers given.
    pub open spec fn units(x: int, y: int, z: int) -> Vec3 {
        Vec3 {
            x: Scalar { micros: (x * 1_000_000) as i64 },
            y: Scalar { micros: (y * 1_000_000) as i64 },
            z: Scalar { micros: (z * 1_000_000) as i64 },
        }
    }

    /// The vector with the given components.
    pub fn new(x: Scalar, y: Scalar, z: Scalar) -> (v: Vec3)
        ensures
            v == (Vec3 { x, y, z }),
    {
        Vec3 { x, y, z }
    }

    /// The vector whose components are the whole numbers given.
    pub fn from_units(x: i32, y: i32, z: i32) -> (v: Vec3)
        ensures
            v == Vec3::units(x as int, y as int, z as int),
    {
        Vec3 { x: Scalar::from_units(x), y: Scalar::from_units(y), z: Scalar::from_units(z) }
    }
}

} // verus!
