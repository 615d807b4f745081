//! Fixed-point three-component vectors.
use vstd::prelude::*;

verus! {

/// Number of fixed-point steps in one world unit.
pub const UNITS_PER_WORLD_UNIT: i64 = 1000;

/// A vector whose components are thousandths of a world unit.
#[derive(Clone, Copy, Debug, PartialEq, Eq, Structural)]
pub struct Vector3 {
    pub x: i64,
    pub y: i64,
    pub z: i64,
}

/// Whether a value fits in `i64`.
pub open spec fn fits_i64(v: int) -> bool {
    i64::MIN <= v <= i64::MAX
}

impl Vector3 {
    pub open spec fn is_zero_spec(self) -> bool {
        self.x == 0 && self.y == 0 && self.z == 0
    }

    /// Whether the component-wise sum of `self` and `o` is representable.
    pub open spec fn can_add(self, o: Vector3) -> bool {
        fits_i64(self.x + o.x) && fits_i64(self.y + o.y) && fits_i64(self.z + o.z)
    }

    pub open spec fn add_spec(self, o: Vector3) -> Vector3 {
        Vector3 {
            x: (self.x + o.x) as i64,
            y: (self.y + o.y) as i64,
            z: (self.z + o.z) as i64,
        }
    }

    pub open spec fn new_spec(x: int, y: int, z: int) -> Vector3 {
        Vector3 { x: x as i64, y: y as i64, z: z as i64 }
    }

    pub fn new(x: i64, y: i64, z: i64) -> (r: Vector3)
        ensures
            r == Vector3::new_spec(x as int, y as int, z as int),
    {
        Vector3 { x, y, z }
    }

    pub fn zero() -> (r: Vector3)
        ensures
            r.is_zero_spec(),
    {
        Vector3 { x: 0, y: 0, z: 0 }
    }

    pub fn is_zero(&self) -> (r: bool)
        ensures
            r == self.is_zero_spec(),
    {
        self.x == 0 && self.y == 0 && self.z == 0
    }

    /// The component-wise sum, or `None` where a component would not fit.
    pub fn checked_add(&self, o: &Vector3) -> (r: Option<Vector3>)
        ensures
            self.can_add(*o) ==> r == Some(self.add_spec(*o)),
            !self.can_add(*o) ==> r.is_none(),
    {
        match (self.x.checked_add(o.x), self.y.checked_add(o.y), self.z.checked_add(o.z)) {
            (Some(x), Some(y), Some(z)) => Some(Vector3 { x, y, z }),
            _ => None,
        }
    }
}

} // verus!
