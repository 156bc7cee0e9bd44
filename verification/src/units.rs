//! Fixed-point numbers and the small geometric types built from them.
//!
//! Every real quantity of the compositor (a zoom factor, a scroll delta, a
//! position in pixels) is held as a whole number of millionths. All arithmetic
//! is total: a result that does not fit is clamped to the nearest bound.

use vstd::prelude::*;

verus! {

/// The number of raw steps in one whole: values are held in millionths.
pub const UNIT: i64 = 1_000_000;

/// The value nearest to `v` that an `i64` can hold.
pub open spec fn saturate(v: int) -> i64 {
    if v < i64::MIN {
        i64::MIN
    } else if v > i64::MAX {
        i64::MAX
    } else {
        v as i64
    }
}

/// The quotient of `a` by a positive `b`, rounded toward zero.
pub open spec fn div_toward_zero(a: int, b: int) -> int
    recommends
        b > 0,
{
    if a >= 0 {
        a / b
    } else {
        -((-a) / b)
    }
}

/// A real number in fixed-point form: `raw` counts millionths.
#[derive(Clone, Copy, Debug, PartialEq, Eq, Structural)]
pub struct Fixed {
    pub raw: i64,
}

fn clamp_to_i64(v: i128) -> (r: i64)
    ensures
        r == saturate(v as int),
{
    if v < i64::MIN as i128 {
        i64::MIN
    } else if v > i64::MAX as i128 {
        i64::MAX
    } else {
        v as i64
    }
}

impl Fixed {
    /// The product of two fixed-point numbers, rounded toward zero and clamped.
    pub open spec fn spec_times(self, rhs: Fixed) -> Fixed {
        Fixed { raw: saturate(div_toward_zero(self.raw * rhs.raw, UNIT as int)) }
    }

    /// The quotient of two fixed-point numbers, rounded toward zero and
    /// clamped. Dividing by zero gives the bound on the side of the dividend,
    /// and zero for a zero dividend.
    pub open spec fn spec_over(self, rhs: Fixed) -> Fixed {
        if rhs.raw > 0 {
            Fixed { raw: saturate(div_toward_zero(self.raw * UNIT, rhs.raw as int)) }
        } else if rhs.raw < 0 {
            Fixed { raw: saturate(div_toward_zero(-(self.raw * UNIT), -(rhs.raw as int))) }
        } else if self.raw > 0 {
            Fixed { raw: i64::MAX }
        } else if self.raw < 0 {
            Fixed { raw: i64::MIN }
        } else {
            Fixed { raw: 0 }
        }
    }

    /// The sum of two numbers, clamped.
    pub open spec fn spec_plus(self, rhs: Fixed) -> Fixed {
        Fixed { raw: saturate(self.raw + rhs.raw) }
    }

    /// The difference of two numbers, clamped.
    pub open spec fn spec_minus(self, rhs: Fixed) -> Fixed {
        Fixed { raw: saturate(self.raw - rhs.raw) }
    }

    /// The number halfway between two numbers, rounded toward zero.
    pub open spec fn spec_midway(self, rhs: Fixed) -> Fixed {
        Fixed { raw: div_toward_zero(self.raw + rhs.raw, 2) as i64 }
    }

    /// The larger of two numbers.
    pub open spec fn spec_max(self, rhs: Fixed) -> Fixed {
        if self.raw >= rhs.raw {
            self
        } else {
            rhs
        }
    }

    /// The smaller of two numbers.
    pub open spec fn spec_min(self, rhs: Fixed) -> Fixed {
        if self.raw <= rhs.raw {
            self
        } else {
            rhs
        }
    }

    /// The whole number `n`.
    pub open spec fn spec_from_int(n: int) -> Fixed
        recommends
            i32::MIN <= n <= u32::MAX,
    {
        Fixed { raw: (n * UNIT) as i64 }
    }

    /// The whole part of the number, rounded toward zero and clamped to what
    /// an `i32` can hold.
    pub open spec fn spec_whole(self) -> i32 {
        let whole = div_toward_zero(self.raw as int, UNIT as int);
        if whole < i32::MIN {
            i32::MIN
        } else if whole > i32::MAX {
            i32::MAX
        } else {
            whole as i32
        }
    }

    pub fn whole(self) -> (r: i32)
        ensures
            r == self.spec_whole(),
    {
        let whole: i64 = self.raw / UNIT;
        if whole < i32::MIN as i64 {
            i32::MIN
        } else if whole > i32::MAX as i64 {
            i32::MAX
        } else {
            whole as i32
        }
    }

    pub fn new(raw: i64) -> (r: Fixed)
        ensures
            r.raw == raw,
    {
        Fixed { raw }
    }

    pub fn one() -> (r: Fixed)
        ensures
            r.raw == UNIT,
    {
        Fixed { raw: UNIT }
    }

    pub fn from_i32(n: i32) -> (r: Fixed)
        ensures
            r == Fixed::spec_from_int(n as int),
            r.raw == n * UNIT,
    {
        Fixed { raw: (n as i64) * UNIT }
    }

    pub fn from_u32(n: u32) -> (r: Fixed)
        ensures
            r == Fixed::spec_from_int(n as int),
            r.raw == n * UNIT,
    {
        Fixed { raw: (n as i64) * UNIT }
    }

    pub fn times(self, rhs: Fixed) -> (r: Fixed)
        ensures
            r == self.spec_times(rhs),
    {
        let a: i128 = self.raw as i128;
        let b: i128 = rhs.raw as i128;
        assert(-0x4000_0000_0000_0000_0000_0000_0000_0000 <= a * b
            <= 0x4000_0000_0000_0000_0000_0000_0000_0000) by (nonlinear_arith)
            requires
                -0x8000_0000_0000_0000 <= a <= 0x8000_0000_0000_0000,
                -0x8000_0000_0000_0000 <= b <= 0x8000_0000_0000_0000,
        ;
        let product: i128 = a * b;
        Fixed { raw: clamp_to_i64(product / (UNIT as i128)) }
    }

    pub fn over(self, rhs: Fixed) -> (r: Fixed)
        ensures
            r == self.spec_over(rhs),
    {
        let a: i128 = (self.raw as i128) * (UNIT as i128);
        let b: i128 = rhs.raw as i128;
        if rhs.raw > 0 {
            Fixed { raw: clamp_to_i64(a / b) }
        } else if rhs.raw < 0 {
            assert(a == self.raw * 1_000_000);
            let flipped: i128 = 0 - a;
            let divisor: i128 = 0 - b;
            Fixed { raw: clamp_to_i64(flipped / divisor) }
        } else if self.raw > 0 {
            Fixed { raw: i64::MAX }
        } else if self.raw < 0 {
            Fixed { raw: i64::MIN }
        } else {
            Fixed { raw: 0 }
        }
    }

    pub fn plus(self, rhs: Fixed) -> (r: Fixed)
        ensures
            r == self.spec_plus(rhs),
    {
        Fixed { raw: clamp_to_i64((self.raw as i128) + (rhs.raw as i128)) }
    }

    pub fn minus(self, rhs: Fixed) -> (r: Fixed)
        ensures
            r == self.spec_minus(rhs),
    {
        Fixed { raw: clamp_to_i64((self.raw as i128) - (rhs.raw as i128)) }
    }

    pub fn midway(self, rhs: Fixed) -> (r: Fixed)
        ensures
            r == self.spec_midway(rhs),
    {
        let sum: i128 = (self.raw as i128) + (rhs.raw as i128);
        let half: i128 = sum / 2;
        Fixed { raw: half as i64 }
    }

    pub fn max(self, rhs: Fixed) -> (r: Fixed)
        ensures
            r == self.spec_max(rhs),
    {
        if self.raw >= rhs.raw {
            self
        } else {
            rhs
        }
    }

    pub fn min(self, rhs: Fixed) -> (r: Fixed)
        ensures
            r == self.spec_min(rhs),
    {
        if self.raw <= rhs.raw {
            self
        } else {
            rhs
        }
    }
}

/// Whether `root` is the whole part of the square root of `n`.
pub open spec fn is_sqrt(n: int, root: int) -> bool {
    0 <= root && root * root <= n < (root + 1) * (root + 1)
}

/// The whole part of the square root of a number that is not negative.
pub open spec fn spec_isqrt(n: int) -> int {
    choose|root: int| is_sqrt(n, root)
}

/// A number has one whole square root only.
pub proof fn lemma_sqrt_is_unique(n: int, a: int, b: int)
    requires
        is_sqrt(n, a),
        is_sqrt(n, b),
    ensures
        a == b,
{
    if a < b {
        assert((a + 1) * (a + 1) <= b * b) by (nonlinear_arith)
            requires
                0 <= a,
                a + 1 <= b,
        ;
    } else if b < a {
        assert((b + 1) * (b + 1) <= a * a) by (nonlinear_arith)
            requires
                0 <= b,
                b + 1 <= a,
        ;
    }
}

/// The whole part of the square root.
pub fn isqrt(n: u128) -> (root: u128)
    ensures
        is_sqrt(n as int, root as int),
        root == spec_isqrt(n as int),
        root < 0x1_0000_0000_0000_0000,
{
    let mut low: u128 = 0;
    let mut high: u128 = 0x1_0000_0000_0000_0000;
    assert(n < high * high) by (nonlinear_arith)
        requires
            n < 0x1_0000_0000_0000_0000_0000_0000_0000_0000,
            high == 0x1_0000_0000_0000_0000,
    ;
    while high - low > 1
        invariant
            low < high <= 0x1_0000_0000_0000_0000,
            low * low <= n < high * high,
        decreases high - low,
    {
        let middle: u128 = low + (high - low) / 2;
        assert(middle * middle < 0x1_0000_0000_0000_0000_0000_0000_0000_0000) by (nonlinear_arith)
            requires
                middle < 0x1_0000_0000_0000_0000,
        ;
        if middle * middle <= n {
            low = middle;
        } else {
            high = middle;
        }
    }
    proof {
        let found = choose|root: int| is_sqrt(n as int, root);
        assert(is_sqrt(n as int, low as int));
        lemma_sqrt_is_unique(n as int, low as int, found);
    }
    low
}

fn magnitude(value: i64) -> (r: u128)
    ensures
        r == if value >= 0 {
            value as int
        } else {
            -(value as int)
        },
{
    if value >= 0 {
        value as u128
    } else {
        (0 - (value as i128)) as u128
    }
}

/// A displacement in two dimensions.
#[derive(Clone, Copy, Debug, PartialEq, Eq, Structural)]
pub struct Vector2D {
    pub x: Fixed,
    pub y: Fixed,
}

/// A position in two dimensions.
#[derive(Clone, Copy, Debug, PartialEq, Eq, Structural)]
pub struct Point2D {
    pub x: Fixed,
    pub y: Fixed,
}

/// An extent in two dimensions.
#[derive(Clone, Copy, Debug, PartialEq, Eq, Structural)]
pub struct Size2D {
    pub width: Fixed,
    pub height: Fixed,
}

/// A position on the device's pixel grid.
#[derive(Clone, Copy, Debug, PartialEq, Eq, Structural)]
pub struct IntPoint {
    pub x: i32,
    pub y: i32,
}

/// A position on the device's pixel grid that cannot be negative.
#[derive(Clone, Copy, Debug, PartialEq, Eq, Structural)]
pub struct UintPoint {
    pub x: u32,
    pub y: u32,
}

/// An extent in whole device pixels.
#[derive(Clone, Copy, Debug, PartialEq, Eq, Structural)]
pub struct UintSize {
    pub width: u32,
    pub height: u32,
}

/// A rectangle on the device's pixel grid.
#[derive(Clone, Copy, Debug, PartialEq, Eq, Structural)]
pub struct UintRect {
    pub origin: UintPoint,
    pub size: UintSize,
}

impl Vector2D {
    /// Both components divided by `scale`.
    pub open spec fn spec_over(self, scale: Fixed) -> Vector2D {
        Vector2D { x: self.x.spec_over(scale), y: self.y.spec_over(scale) }
    }

    pub fn new(x: Fixed, y: Fixed) -> (r: Vector2D)
        ensures
            r == (Vector2D { x, y }),
    {
        Vector2D { x, y }
    }

    pub fn zero() -> (r: Vector2D)
        ensures
            r == (Vector2D { x: Fixed { raw: 0 }, y: Fixed { raw: 0 } }),
    {
        Vector2D { x: Fixed { raw: 0 }, y: Fixed { raw: 0 } }
    }

    pub fn over(self, scale: Fixed) -> (r: Vector2D)
        ensures
            r == self.spec_over(scale),
    {
        Vector2D { x: self.x.over(scale), y: self.y.over(scale) }
    }

    /// The length of the displacement, rounded down and clamped.
    pub open spec fn spec_length(self) -> Fixed {
        Fixed { raw: saturate(spec_isqrt(self.x.raw * self.x.raw + self.y.raw * self.y.raw)) }
    }

    pub fn length(self) -> (r: Fixed)
        ensures
            r == self.spec_length(),
    {
        let x: u128 = magnitude(self.x.raw);
        let y: u128 = magnitude(self.y.raw);
        assert(x * x <= 0x4000_0000_0000_0000_0000_0000_0000_0000 && x * x == self.x.raw
            * self.x.raw) by (nonlinear_arith)
            requires
                x <= 0x8000_0000_0000_0000,
                x == self.x.raw || x == -self.x.raw,
        ;
        assert(y * y <= 0x4000_0000_0000_0000_0000_0000_0000_0000 && y * y == self.y.raw
            * self.y.raw) by (nonlinear_arith)
            requires
                y <= 0x8000_0000_0000_0000,
                y == self.y.raw || y == -self.y.raw,
        ;
        let root: u128 = isqrt(x * x + y * y);
        if root > 0x7fff_ffff_ffff_ffff {
            Fixed { raw: i64::MAX }
        } else {
            Fixed { raw: root as i64 }
        }
    }
}

impl Point2D {
    /// Both coordinates divided by `scale`.
    pub open spec fn spec_over(self, scale: Fixed) -> Point2D {
        Point2D { x: self.x.spec_over(scale), y: self.y.spec_over(scale) }
    }

    pub fn new(x: Fixed, y: Fixed) -> (r: Point2D)
        ensures
            r == (Point2D { x, y }),
    {
        Point2D { x, y }
    }

    pub fn over(self, scale: Fixed) -> (r: Point2D)
        ensures
            r == self.spec_over(scale),
    {
        Point2D { x: self.x.over(scale), y: self.y.over(scale) }
    }

    /// The displacement from another position to this one.
    pub open spec fn spec_minus(self, from: Point2D) -> Vector2D {
        Vector2D { x: self.x.spec_minus(from.x), y: self.y.spec_minus(from.y) }
    }

    pub fn minus(self, from: Point2D) -> (r: Vector2D)
        ensures
            r == self.spec_minus(from),
    {
        Vector2D { x: self.x.minus(from.x), y: self.y.minus(from.y) }
    }

    /// The position halfway between two positions.
    pub open spec fn spec_midway(self, other: Point2D) -> Point2D {
        Point2D { x: self.x.spec_midway(other.x), y: self.y.spec_midway(other.y) }
    }

    pub fn midway(self, other: Point2D) -> (r: Point2D)
        ensures
            r == self.spec_midway(other),
    {
        Point2D { x: self.x.midway(other.x), y: self.y.midway(other.y) }
    }

    /// Both coordinates multiplied by `scale`.
    pub open spec fn spec_times(self, scale: Fixed) -> Point2D {
        Point2D { x: self.x.spec_times(scale), y: self.y.spec_times(scale) }
    }

    pub fn times(self, scale: Fixed) -> (r: Point2D)
        ensures
            r == self.spec_times(scale),
    {
        Point2D { x: self.x.times(scale), y: self.y.times(scale) }
    }

    /// The position on the pixel grid that holds this point: both
    /// coordinates rounded toward zero and clamped.
    pub open spec fn spec_to_int(self) -> IntPoint {
        IntPoint { x: self.x.spec_whole(), y: self.y.spec_whole() }
    }

    pub fn to_int(self) -> (r: IntPoint)
        ensures
            r == self.spec_to_int(),
    {
        IntPoint { x: self.x.whole(), y: self.y.whole() }
    }
}

impl IntPoint {
    /// The same position in fixed-point form.
    pub open spec fn spec_to_fixed(self) -> Point2D {
        Point2D { x: Fixed::spec_from_int(self.x as int), y: Fixed::spec_from_int(self.y as int) }
    }

    pub fn new(x: i32, y: i32) -> (r: IntPoint)
        ensures
            r == (IntPoint { x, y }),
    {
        IntPoint { x, y }
    }

    pub fn to_fixed(self) -> (r: Point2D)
        ensures
            r == self.spec_to_fixed(),
    {
        Point2D { x: Fixed::from_i32(self.x), y: Fixed::from_i32(self.y) }
    }
}

impl UintSize {
    /// The same extent in fixed-point form.
    pub open spec fn spec_to_fixed(self) -> Size2D {
        Size2D {
            width: Fixed::spec_from_int(self.width as int),
            height: Fixed::spec_from_int(self.height as int),
        }
    }

    pub fn new(width: u32, height: u32) -> (r: UintSize)
        ensures
            r == (UintSize { width, height }),
    {
        UintSize { width, height }
    }

    pub fn to_fixed(self) -> (r: Size2D)
        ensures
            r == self.spec_to_fixed(),
    {
        Size2D { width: Fixed::from_u32(self.width), height: Fixed::from_u32(self.height) }
    }
}

impl Size2D {
    /// Both extents divided by `scale`.
    pub open spec fn spec_over(self, scale: Fixed) -> Size2D {
        Size2D { width: self.width.spec_over(scale), height: self.height.spec_over(scale) }
    }

    pub fn over(self, scale: Fixed) -> (r: Size2D)
        ensures
            r == self.spec_over(scale),
    {
        Size2D { width: self.width.over(scale), height: self.height.over(scale) }
    }
}

} // verus!
