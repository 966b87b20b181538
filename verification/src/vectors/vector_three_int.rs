//! Three-dimensional vectors with integer components.

use vstd::prelude::*;
use vstd::std_specs::convert::FromSpecImpl;
use vstd::std_specs::ops::AddSpecImpl;
use vstd::std_specs::ops::MulSpecImpl;
use vstd::std_specs::ops::SubSpecImpl;

verus! {

/// A point or a step on the integer grid.
#[derive(Default, Clone, Copy, Debug, PartialEq, PartialOrd, Eq, Hash, Structural)]
pub struct Vector3Int {
    pub x: i32,
    pub y: i32,
    pub z: i32,
}

/// `v` fits the component type.
pub open spec fn in_range(v: int) -> bool {
    i32::MIN <= v <= i32::MAX
}

impl Vector3Int {
    /// The unit step along x.
    #[allow(non_snake_case)]
    pub fn X() -> (v: Vector3Int)
        ensures
            v == (Vector3Int { x: 1, y: 0, z: 0 }),
    {
        Vector3Int { x: 1, y: 0, z: 0 }
    }

    /// The unit step along y.
    #[allow(non_snake_case)]
    pub fn Y() -> (v: Vector3Int)
        ensures
            v == (Vector3Int { x: 0, y: 1, z: 0 }),
    {
        Vector3Int { x: 0, y: 1, z: 0 }
    }

    /// The unit step along z.
    #[allow(non_snake_case)]
    pub fn Z() -> (v: Vector3Int)
        ensures
            v == (Vector3Int { x: 0, y: 0, z: 1 }),
    {
        Vector3Int { x: 0, y: 0, z: 1 }
    }

    /// The origin.
    #[allow(non_snake_case)]
    pub fn ZERO() -> (v: Vector3Int)
        ensures
            v == (Vector3Int { x: 0, y: 0, z: 0 }),
    {
        Vector3Int { x: 0, y: 0, z: 0 }
    }

    /// The vector whose components are all one.
    #[allow(non_snake_case)]
    pub fn ONE() -> (v: Vector3Int)
        ensures
            v == (Vector3Int { x: 1, y: 1, z: 1 }),
    {
        Vector3Int { x: 1, y: 1, z: 1 }
    }

    pub fn new(x: i32, y: i32, z: i32) -> (v: Vector3Int)
        ensures
            v == (Vector3Int { x, y, z }),
    {
        Vector3Int { x, y, z }
    }

    /// Subtracts `rhs` from `self` in place, component by component.
    pub fn sub_assign(&mut self, rhs: Vector3Int)
        requires
            in_range(old(self).x - rhs.x),
            in_range(old(self).y - rhs.y),
            in_range(old(self).z - rhs.z),
        ensures
            final(self).x == old(self).x - rhs.x,
            final(self).y == old(self).y - rhs.y,
            final(self).z == old(self).z - rhs.z,
    {
        self.x = self.x - rhs.x;
        self.y = self.y - rhs.y;
        self.z = self.z - rhs.z;
    }
}

impl From<Vector3Int> for [i32; 3] {
    fn from(value: Vector3Int) -> (a: [i32; 3]) {
        [value.x, value.y, value.z]
    }
}

impl FromSpecImpl<Vector3Int> for [i32; 3] {
    open spec fn obeys_from_spec() -> bool {
        true
    }

    open spec fn from_spec(value: Vector3Int) -> [i32; 3] {
        [value.x, value.y, value.z]
    }
}

impl From<[i32; 3]> for Vector3Int {
    fn from(value: [i32; 3]) -> (v: Vector3Int) {
        Vector3Int::new(value[0], value[1], value[2])
    }
}

impl FromSpecImpl<[i32; 3]> for Vector3Int {
    open spec fn obeys_from_spec() -> bool {
        true
    }

    open spec fn from_spec(value: [i32; 3]) -> Vector3Int {
        Vector3Int { x: value@[0], y: value@[1], z: value@[2] }
    }
}

impl std::ops::Mul<i32> for Vector3Int {
    type Output = Vector3Int;

    fn mul(self, rhs: i32) -> (v: Vector3Int) {
        Vector3Int::new(self.x * rhs, self.y * rhs, self.z * rhs)
    }
}

impl MulSpecImpl<i32> for Vector3Int {
    open spec fn obeys_mul_spec() -> bool {
        true
    }

    open spec fn mul_req(self, rhs: i32) -> bool {
        in_range(self.x * rhs) && in_range(self.y * rhs) && in_range(self.z * rhs)
    }

    open spec fn mul_spec(self, rhs: i32) -> Vector3Int {
        Vector3Int {
            x: (self.x * rhs) as i32,
            y: (self.y * rhs) as i32,
            z: (self.z * rhs) as i32,
        }
    }
}

impl std::ops::Add<Vector3Int> for Vector3Int {
    type Output = Vector3Int;

    fn add(self, rhs: Vector3Int) -> (v: Vector3Int) {
        Vector3Int::new(self.x + rhs.x, self.y + rhs.y, self.z + rhs.z)
    }
}

impl AddSpecImpl<Vector3Int> for Vector3Int {
    open spec fn obeys_add_spec() -> bool {
        true
    }

    open spec fn add_req(self, rhs: Vector3Int) -> bool {
        in_range(self.x + rhs.x) && in_range(self.y + rhs.y) && in_range(self.z + rhs.z)
    }

    open spec fn add_spec(self, rhs: Vector3Int) -> Vector3Int {
        Vector3Int {
            x: (self.x + rhs.x) as i32,
            y: (self.y + rhs.y) as i32,
            z: (self.z + rhs.z) as i32,
        }
    }
}

impl std::ops::Sub<Vector3Int> for Vector3Int {
    type Output = Vector3Int;

    fn sub(self, rhs: Vector3Int) -> (v: Vector3Int) {
        Vector3Int::new(self.x - rhs.x, self.y - rhs.y, self.z - rhs.z)
    }
}

impl SubSpecImpl<Vector3Int> for Vector3Int {
    open spec fn obeys_sub_spec() -> bool {
        true
    }

    open spec fn sub_req(self, rhs: Vector3Int) -> bool {
        in_range(self.x - rhs.x) && in_range(self.y - rhs.y) && in_range(self.z - rhs.z)
    }

    open spec fn sub_spec(self, rhs: Vector3Int) -> Vector3Int {
        Vector3Int {
            x: (self.x - rhs.x) as i32,
            y: (self.y - rhs.y) as i32,
            z: (self.z - rhs.z) as i32,
        }
    }
}

} // verus!
