use vstd::prelude::*;

verus! {

/// True when `v` can be stored as a coordinate.
pub open spec fn coord_fits(v: int) -> bool {
    i32::MIN <= v <= i32::MAX
}

/// Whether `v` can be stored as a coordinate.
pub fn fits_i32(v: i64) -> (r: bool)
    ensures
        r == coord_fits(v as int),
{
    i32::MIN as i64 <= v && v <= i32::MAX as i64
}

pub open spec fn int_min(a: int, b: int) -> int {
    if a <= b { a } else { b }
}

pub open spec fn int_max(a: int, b: int) -> int {
    if a >= b { a } else { b }
}

pub open spec fn int_abs(a: int) -> int {
    if a >= 0 { a } else { -a }
}

/// `dx * dx + dy * dy`, for offsets well inside the range of `i64`.
pub fn squared_norm(dx: i64, dy: i64) -> (r: u128)
    requires
        -0x4_0000_0000 <= dx <= 0x4_0000_0000,
        -0x4_0000_0000 <= dy <= 0x4_0000_0000,
    ensures
        r == dx * dx + dy * dy,
{
    let ax: u128 = if dx < 0 { (-dx) as u128 } else { dx as u128 };
    let ay: u128 = if dy < 0 { (-dy) as u128 } else { dy as u128 };
    assert(ax * ax == dx * dx && ay * ay == dy * dy) by (nonlinear_arith)
        requires
            ax == int_abs(dx as int),
            ay == int_abs(dy as int),
    ;
    assert(ax * ax <= 0x4_0000_0000 * 0x4_0000_0000) by (nonlinear_arith)
        requires
            ax <= 0x4_0000_0000,
    ;
    assert(ay * ay <= 0x4_0000_0000 * 0x4_0000_0000) by (nonlinear_arith)
        requires
            ay <= 0x4_0000_0000,
    ;
    ax * ax + ay * ay
}

/// The box that a drag from `p1` to `p2` spans: its low corner and its
/// extent, where the extent fits.
pub open spec fn box_between(p1: CanvasPoint, p2: CanvasPoint) -> (CanvasPoint, CanvasPoint) {
    (
        CanvasPoint {
            x: int_min(p1.x as int, p2.x as int) as i32,
            y: int_min(p1.y as int, p2.y as int) as i32,
        },
        CanvasPoint { x: int_abs(p2.x - p1.x) as i32, y: int_abs(p2.y - p1.y) as i32 },
    )
}

pub open spec fn box_fits(p1: CanvasPoint, p2: CanvasPoint) -> bool {
    int_abs(p2.x - p1.x) <= i32::MAX && int_abs(p2.y - p1.y) <= i32::MAX
}

/// `a / b` by Euclidean division: the quotient `q` with `a == b * q + r`
/// and `0 <= r < |b|` (rounded down when `b` is positive).
pub fn euclid_div(a: i64, b: i64) -> (r: i64)
    requires
        b != 0,
        -0x4000_0000_0000_0000 <= a <= 0x4000_0000_0000_0000,
        -0x4000_0000_0000_0000 <= b <= 0x4000_0000_0000_0000,
    ensures
        r == a as int / b as int,
{
    let m: u64 = if b > 0 { b as u64 } else { (-b) as u64 };
    let q: i64 = if a >= 0 {
        let q: u64 = a as u64 / m;
        assert(q <= a) by (nonlinear_arith)
            requires
                q == a as int / m as int,
                a >= 0,
                m > 0,
        ;
        q as i64
    } else {
        let n: u64 = (-(a + 1)) as u64;
        let q: u64 = n / m;
        assert(q <= n && -(q + 1) == a as int / m as int) by (nonlinear_arith)
            requires
                q == n as int / m as int,
                n == -a - 1,
                a < 0,
                m > 0,
        ;
        -(q as i64) - 1
    };
    if b > 0 {
        q
    } else {
        assert(-q == a as int / b as int) by (nonlinear_arith)
            requires
                q == a as int / m as int,
                m == -b,
                b < 0,
        ;
        -q
    }
}

/// The largest `r` with `r * r <= n`.
pub fn floor_sqrt(n: i32) -> (r: i32)
    requires
        n >= 0,
    ensures
        r >= 0,
        r * r <= n < (r + 1) * (r + 1),
{
    let mut r: i64 = 0;
    let mut next_square: i64 = 1;
    while next_square <= n as i64
        invariant
            0 <= r <= 46340,
            r * r <= n,
            next_square == (r + 1) * (r + 1),
            n <= i32::MAX,
        decreases 46341 - r,
    {
        assert(r < 46340 && (r + 2) * (r + 2) == next_square + 2 * r + 3) by (nonlinear_arith)
            requires
                next_square == (r + 1) * (r + 1),
                next_square <= n,
                n <= i32::MAX,
                r >= 0,
        ;
        next_square = next_square + 2 * r + 3;
        r += 1;
    }
    r as i32
}

/// A point (or a displacement) on the canvas, in integer units.
#[derive(Clone, Copy, Debug, PartialEq, Eq, Structural)]
pub struct CanvasPoint {
    pub x: i32,
    pub y: i32,
}

/// The two-component vector of the math primitives is the canvas point.
pub type Point2D = CanvasPoint;

impl CanvasPoint {
    pub fn new(x: i32, y: i32) -> (r: CanvasPoint)
        ensures
            r.x == x,
            r.y == y,
    {
        CanvasPoint { x, y }
    }

    pub fn coord(self) -> (r: (i32, i32))
        ensures
            r == (self.x, self.y),
    {
        (self.x, self.y)
    }

    pub fn one(self) -> (r: i32)
        ensures
            r == self.x,
    {
        self.x
    }

    pub fn two(self) -> (r: i32)
        ensures
            r == self.y,
    {
        self.y
    }

    /// Componentwise sum.
    pub fn add(self, o: CanvasPoint) -> (r: CanvasPoint)
        requires
            coord_fits(self.x + o.x),
            coord_fits(self.y + o.y),
        ensures
            r.x == self.x + o.x,
            r.y == self.y + o.y,
    {
        CanvasPoint { x: self.x + o.x, y: self.y + o.y }
    }

    /// Componentwise difference.
    pub fn sub(self, o: CanvasPoint) -> (r: CanvasPoint)
        requires
            coord_fits(self.x - o.x),
            coord_fits(self.y - o.y),
        ensures
            r.x == self.x - o.x,
            r.y == self.y - o.y,
    {
        CanvasPoint { x: self.x - o.x, y: self.y - o.y }
    }

    /// Componentwise product.
    pub fn mul(self, o: CanvasPoint) -> (r: CanvasPoint)
        requires
            coord_fits(self.x * o.x),
            coord_fits(self.y * o.y),
        ensures
            r.x == self.x * o.x,
            r.y == self.y * o.y,
    {
        CanvasPoint { x: self.x * o.x, y: self.y * o.y }
    }

    /// Componentwise Euclidean division (rounded down for positive divisors).
    pub fn div(self, o: CanvasPoint) -> (r: CanvasPoint)
        requires
            o.x != 0,
            o.y != 0,
            coord_fits(self.x as int / o.x as int),
            coord_fits(self.y as int / o.y as int),
        ensures
            r.x == self.x as int / o.x as int,
            r.y == self.y as int / o.y as int,
    {
        CanvasPoint {
            x: euclid_div(self.x as i64, o.x as i64) as i32,
            y: euclid_div(self.y as i64, o.y as i64) as i32,
        }
    }

    /// Each component differs from `o`'s by less than `epsilon`.
    pub fn approx_eq(self, o: CanvasPoint, epsilon: u32) -> (r: bool)
        ensures
            r == (int_abs(self.x - o.x) < epsilon && int_abs(self.y - o.y) < epsilon),
    {
        let dx: i64 = self.x as i64 - o.x as i64;
        let dy: i64 = self.y as i64 - o.y as i64;
        let ax: i64 = if dx < 0 { -dx } else { dx };
        let ay: i64 = if dy < 0 { -dy } else { dy };
        ax < epsilon as i64 && ay < epsilon as i64
    }

    /// Componentwise absolute value.
    pub fn abs(self) -> (r: CanvasPoint)
        requires
            self.x != i32::MIN,
            self.y != i32::MIN,
        ensures
            r.x == int_abs(self.x as int),
            r.y == int_abs(self.y as int),
    {
        CanvasPoint {
            x: if self.x < 0 { -self.x } else { self.x },
            y: if self.y < 0 { -self.y } else { self.y },
        }
    }

    /// Componentwise rounded-down square root of a point with no negative
    /// component.
    pub fn sqrt(self) -> (r: CanvasPoint)
        requires
            self.x >= 0,
            self.y >= 0,
        ensures
            r.x >= 0 && r.x * r.x <= self.x < (r.x + 1) * (r.x + 1),
            r.y >= 0 && r.y * r.y <= self.y < (r.y + 1) * (r.y + 1),
    {
        CanvasPoint { x: floor_sqrt(self.x), y: floor_sqrt(self.y) }
    }

    /// Componentwise minimum.
    pub fn min(self, o: CanvasPoint) -> (r: CanvasPoint)
        ensures
            r.x == int_min(self.x as int, o.x as int),
            r.y == int_min(self.y as int, o.y as int),
    {
        CanvasPoint {
            x: if self.x <= o.x { self.x } else { o.x },
            y: if self.y <= o.y { self.y } else { o.y },
        }
    }

    /// Componentwise maximum.
    pub fn max(self, o: CanvasPoint) -> (r: CanvasPoint)
        ensures
            r.x == int_max(self.x as int, o.x as int),
            r.y == int_max(self.y as int, o.y as int),
    {
        CanvasPoint {
            x: if self.x >= o.x { self.x } else { o.x },
            y: if self.y >= o.y { self.y } else { o.y },
        }
    }

    /// Raises each component to at least `lo`, then lowers it to at most `hi`.
    pub fn clamp(self, lo: CanvasPoint, hi: CanvasPoint) -> (r: CanvasPoint)
        ensures
            r.x == int_min(int_max(self.x as int, lo.x as int), hi.x as int),
            r.y == int_min(int_max(self.y as int, lo.y as int), hi.y as int),
    {
        self.max(lo).min(hi)
    }

    /// `self` is below or equal to `o` in every component.
    pub open spec fn spec_le(self, o: CanvasPoint) -> bool {
        self.x <= o.x && self.y <= o.y
    }

    /// `self` is strictly below `o` in every component.
    pub open spec fn spec_lt(self, o: CanvasPoint) -> bool {
        self.x < o.x && self.y < o.y
    }

    pub fn le(&self, o: &CanvasPoint) -> (r: bool)
        ensures
            r == self.spec_le(*o),
    {
        self.x <= o.x && self.y <= o.y
    }

    pub fn lt(&self, o: &CanvasPoint) -> (r: bool)
        ensures
            r == self.spec_lt(*o),
    {
        self.x < o.x && self.y < o.y
    }

    pub fn ge(&self, o: &CanvasPoint) -> (r: bool)
        ensures
            r == o.spec_le(*self),
    {
        o.le(self)
    }

    pub fn gt(&self, o: &CanvasPoint) -> (r: bool)
        ensures
            r == o.spec_lt(*self),
    {
        o.lt(self)
    }

    /// The componentwise partial order: `Less` when `self` is strictly below
    /// `o` in every component, `Greater` when strictly above, `Equal` when
    /// the points are equal, and no answer otherwise.
    pub fn partial_cmp(&self, o: &CanvasPoint) -> (r: Option<core::cmp::Ordering>)
        ensures
            r == if self.spec_lt(*o) {
                Some(core::cmp::Ordering::Less)
            } else if o.spec_lt(*self) {
                Some(core::cmp::Ordering::Greater)
            } else if *self == *o {
                Some(core::cmp::Ordering::Equal)
            } else {
                None
            },
    {
        if self.lt(o) {
            Some(core::cmp::Ordering::Less)
        } else if self.gt(o) {
            Some(core::cmp::Ordering::Greater)
        } else if self.x == o.x && self.y == o.y {
            Some(core::cmp::Ordering::Equal)
        } else {
            None
        }
    }

    /// `self` is below or equal to `o` in at least one component.
    pub fn le_or(&self, o: &CanvasPoint) -> (r: bool)
        ensures
            r == (self.x <= o.x || self.y <= o.y),
    {
        self.x <= o.x || self.y <= o.y
    }

    /// Squared Euclidean distance, exact.
    pub open spec fn spec_distance_squared(self, o: CanvasPoint) -> int {
        (self.x - o.x) * (self.x - o.x) + (self.y - o.y) * (self.y - o.y)
    }

    /// Squared Euclidean distance between the two points.
    pub fn euclid_dist_squared(self, o: CanvasPoint) -> (r: u128)
        ensures
            r == self.spec_distance_squared(o),
    {
        squared_norm(self.x as i64 - o.x as i64, self.y as i64 - o.y as i64)
    }
}

} // verus!
