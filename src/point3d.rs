use vstd::prelude::*;
use crate::point::{coord_fits, floor_sqrt, int_abs, CanvasPoint};

verus! {

/// Three integer components; as a camera triple, `z` is the zoom, which a
/// valid camera never has at zero.
#[derive(Clone, Copy, Debug, PartialEq, Eq, Structural)]
pub struct Point3D {
    pub x: i32,
    pub y: i32,
    pub z: i32,
}

impl Point3D {
    pub fn new(x: i32, y: i32, z: i32) -> (r: Point3D)
        ensures
            r == (Point3D { x, y, z }),
    {
        Point3D { x, y, z }
    }

    pub fn coord(self) -> (r: (i32, i32, i32))
        ensures
            r == (self.x, self.y, self.z),
    {
        (self.x, self.y, self.z)
    }

    pub fn one(self) -> (r: i32)
        ensures
            r == self.x,
    {
        self.x
    }

    pub fn two(self) -> (r: i32)
        ensures
            r == self.y,
    {
        self.y
    }

    pub fn three(self) -> (r: i32)
        ensures
            r == self.z,
    {
        self.z
    }

    /// The third component can be divided by.
    pub fn zoom_valid(self) -> (r: bool)
        ensures
            r == (self.z != 0),
    {
        self.z != 0
    }

    /// Componentwise absolute value.
    pub fn abs(self) -> (r: Point3D)
        requires
            self.x != i32::MIN,
            self.y != i32::MIN,
            self.z != i32::MIN,
        ensures
            r.x == int_abs(self.x as int),
            r.y == int_abs(self.y as int),
            r.z == int_abs(self.z as int),
    {
        Point3D {
            x: if self.x < 0 { -self.x } else { self.x },
            y: if self.y < 0 { -self.y } else { self.y },
            z: if self.z < 0 { -self.z } else { self.z },
        }
    }

    /// Componentwise rounded-down square root.
    pub fn sqrt(self) -> (r: Point3D)
        requires
            self.x >= 0,
            self.y >= 0,
            self.z >= 0,
        ensures
            r.x >= 0 && r.x * r.x <= self.x < (r.x + 1) * (r.x + 1),
            r.y >= 0 && r.y * r.y <= self.y < (r.y + 1) * (r.y + 1),
            r.z >= 0 && r.z * r.z <= self.z < (r.z + 1) * (r.z + 1),
    {
        Point3D { x: floor_sqrt(self.x), y: floor_sqrt(self.y), z: floor_sqrt(self.z) }
    }

    /// Adds a planar offset to the first two components; `z` is kept.
    pub fn add_with_point2d(self, other: CanvasPoint) -> (r: Point3D)
        requires
            coord_fits(self.x + other.x),
            coord_fits(self.y + other.y),
        ensures
            r.x == self.x + other.x,
            r.y == self.y + other.y,
            r.z == self.z,
    {
        Point3D { x: self.x + other.x, y: self.y + other.y, z: self.z }
    }

    /// Componentwise sum.
    pub fn add(self, o: Point3D) -> (r: Point3D)
        requires
            coord_fits(self.x + o.x),
            coord_fits(self.y + o.y),
            coord_fits(self.z + o.z),
        ensures
            r.x == self.x + o.x,
            r.y == self.y + o.y,
            r.z == self.z + o.z,
    {
        Point3D { x: self.x + o.x, y: self.y + o.y, z: self.z + o.z }
    }

    /// Componentwise difference.
    pub fn sub(self, o: Point3D) -> (r: Point3D)
        requires
            coord_fits(self.x - o.x),
            coord_fits(self.y - o.y),
            coord_fits(self.z - o.z),
        ensures
            r.x == self.x - o.x,
            r.y == self.y - o.y,
            r.z == self.z - o.z,
    {
        Point3D { x: self.x - o.x, y: self.y - o.y, z: self.z - o.z }
    }

    /// Below or equal to `o` in every component.
    pub fn le(&self, o: &Point3D) -> (r: bool)
        ensures
            r == (self.x <= o.x && self.y <= o.y && self.z <= o.z),
    {
        self.x <= o.x && self.y <= o.y && self.z <= o.z
    }

    /// Strictly below `o` in every component.
    pub fn lt(&self, o: &Point3D) -> (r: bool)
        ensures
            r == (self.x < o.x && self.y < o.y && self.z < o.z),
    {
        self.x < o.x && self.y < o.y && self.z < o.z
    }

    /// Above or equal to `o` in every component.
    pub fn ge(&self, o: &Point3D) -> (r: bool)
        ensures
            r == (self.x >= o.x && self.y >= o.y && self.z >= o.z),
    {
        o.le(self)
    }

    /// Strictly above `o` in every component.
    pub fn gt(&self, o: &Point3D) -> (r: bool)
        ensures
            r == (self.x > o.x && self.y > o.y && self.z > o.z),
    {
        o.lt(self)
    }

    /// The componentwise partial order: `Less` when `self` is strictly below
    /// `o` in every component, `Greater` when strictly above, `Equal` when
    /// the points are equal, and no answer otherwise.
    pub fn partial_cmp(&self, o: &Point3D) -> (r: Option<core::cmp::Ordering>)
        ensures
            r == if self.x < o.x && self.y < o.y && self.z < o.z {
                Some(core::cmp::Ordering::Less)
            } else if self.x > o.x && self.y > o.y && self.z > o.z {
                Some(core::cmp::Ordering::Greater)
            } else if *self == *o {
                Some(core::cmp::Ordering::Equal)
            } else {
                None
            },
    {
        if self.lt(o) {
            Some(core::cmp::Ordering::Less)
        } else if self.gt(o) {
            Some(core::cmp::Ordering::Greater)
        } else if self.x == o.x && self.y == o.y && self.z == o.z {
            Some(core::cmp::Ordering::Equal)
        } else {
            None
        }
    }

    /// Each component differs from `o`'s by less than `epsilon`.
    pub fn approx_eq(self, o: Point3D, epsilon: u32) -> (r: bool)
        ensures
            r == (int_abs(self.x - o.x) < epsilon && int_abs(self.y - o.y) < epsilon && int_abs(
                self.z - o.z,
            ) < epsilon),
    {
        let planar = CanvasPoint { x: self.x, y: self.y }.approx_eq(
            CanvasPoint { x: o.x, y: o.y },
            epsilon,
        );
        let dz: i64 = self.z as i64 - o.z as i64;
        let az: i64 = if dz < 0 { -dz } else { dz };
        planar && az < epsilon as i64
    }

    /// Squared Euclidean distance.
    pub fn euclid_dist_squared(self, o: Point3D) -> (r: u128)
        ensures
            r == (self.x - o.x) * (self.x - o.x) + (self.y - o.y) * (self.y - o.y) + (self.z
                - o.z) * (self.z - o.z),
    {
        let dz: i64 = self.z as i64 - o.z as i64;
        let az: u128 = if dz < 0 { (-dz) as u128 } else { dz as u128 };
        assert(az * az == dz * dz && az * az <= 0x1_0000_0000 * 0x1_0000_0000) by (nonlinear_arith)
            requires
                az == int_abs(dz as int),
                az <= 0x1_0000_0000,
        ;
        let planar = CanvasPoint { x: self.x, y: self.y }.euclid_dist_squared(
            CanvasPoint { x: o.x, y: o.y },
        );
        assert(planar <= 2 * 0x1_0000_0000 * 0x1_0000_0000) by (nonlinear_arith)
            requires
                planar == (self.x - o.x) * (self.x - o.x) + (self.y - o.y) * (self.y - o.y),
                -0x1_0000_0000 <= self.x - o.x <= 0x1_0000_0000,
                -0x1_0000_0000 <= self.y - o.y <= 0x1_0000_0000,
        ;
        planar + az * az
    }
}

} // verus!
