//! Fixed-point scalars and integer vectors.

use vstd::prelude::*;

verus! {

/// One whole unit of any continuous quantity.
pub const UNIT: i64 = 1000;

/// A point of the world, in thousandths of a world unit per axis.
#[derive(Copy, Clone, PartialEq, Eq, Structural, Debug)]
pub struct Vector3 {
    pub x: i32,
    pub y: i32,
    pub z: i32,
}

/// The difference of two points. Its components are wide enough for any
/// pair of points.
#[derive(Copy, Clone, PartialEq, Eq, Structural, Debug)]
pub struct Offset {
    pub x: i64,
    pub y: i64,
    pub z: i64,
}

/// The clock of one tick: time since the simulation began and the length
/// of the tick, both in thousandths of a second.
#[derive(Copy, Clone, PartialEq, Eq, Structural, Debug)]
pub struct GameTime {
    pub elapsed: i64,
    pub delta: u32,
}

impl Offset {
    pub open spec fn spec_sqr_norm(self) -> int {
        self.x * self.x + self.y * self.y + self.z * self.z
    }

    pub open spec fn spec_is_zero(self) -> bool {
        self.x == 0 && self.y == 0 && self.z == 0
    }

    /// An offset of no length points nowhere: steps that need a
    /// direction skip it.
    pub fn is_zero(&self) -> (r: bool)
        ensures
            r == self.spec_is_zero(),
    {
        self.x == 0 && self.y == 0 && self.z == 0
    }
}

impl Vector3 {
    pub open spec fn spec_new(x: i32, y: i32, z: i32) -> Vector3 {
        Vector3 { x, y, z }
    }
    pub fn new(x: i32, y: i32, z: i32) -> (r: Vector3)
        ensures
            r == Vector3::spec_new(x, y, z),
    {
        Vector3 { x, y, z }
    }

    /// The offset that leads from `self` to `other`.
    pub open spec fn spec_offset_to(self, other: Vector3) -> Offset {
        Offset {
            x: (other.x - self.x) as i64,
            y: (other.y - self.y) as i64,
            z: (other.z - self.z) as i64,
        }
    }
    pub fn offset_to(&self, other: &Vector3) -> (r: Offset)
        ensures
            r == self.spec_offset_to(*other),
            r.x == other.x - self.x,
            r.y == other.y - self.y,
            r.z == other.z - self.z,
    {
        Offset {
            x: other.x as i64 - self.x as i64,
            y: other.y as i64 - self.y as i64,
            z: other.z as i64 - self.z as i64,
        }
    }

    /// The square of the distance between two points.
    pub open spec fn spec_sqr_distance(self, other: Vector3) -> int {
        (other.x - self.x) * (other.x - self.x) + (other.y - self.y) * (other.y - self.y) + (
        other.z - self.z) * (other.z - self.z)
    }
    pub fn sqr_distance(&self, other: &Vector3) -> (r: u128)
        ensures
            r == self.spec_sqr_distance(*other),
    {
        let dx: i128 = other.x as i128 - self.x as i128;
        let dy: i128 = other.y as i128 - self.y as i128;
        let dz: i128 = other.z as i128 - self.z as i128;
        proof {
            lemma_square_bounded(dx as int);
            lemma_square_bounded(dy as int);
            lemma_square_bounded(dz as int);
        }
        (dx * dx + dy * dy + dz * dz) as u128
    }

    /// Whether `other` lies no farther than `radius` from `self`.
    pub open spec fn spec_within(self, other: Vector3, radius: u32) -> bool {
        self.spec_sqr_distance(other) <= radius * radius
    }
    pub fn within(&self, other: &Vector3, radius: u32) -> (r: bool)
        ensures
            r == self.spec_within(*other, radius),
    {
        let limit: u128 = radius as u128;
        proof {
            lemma_square_bounded(radius as int);
        }
        self.sqr_distance(other) <= limit * limit
    }
}

/// The square of a difference of two 32-bit coordinates fits in 65 bits.
proof fn lemma_square_bounded(d: int)
    requires
        -0x1_0000_0000 <= d <= 0x1_0000_0000,
    ensures
        0 <= d * d <= 0x1_0000_0000_0000_0000,
{
    assert(0 <= d * d <= 0x1_0000_0000_0000_0000) by (nonlinear_arith)
        requires
            -0x1_0000_0000 <= d <= 0x1_0000_0000,
    ;
}

/// `value - step`, stopping at the least representable value.
pub open spec fn spec_count_down(value: i64, step: u32) -> i64 {
    if value - step >= i64::MIN {
        (value - step) as i64
    } else {
        i64::MIN
    }
}

/// Runs a countdown timer by one tick. A timer keeps falling below zero
/// once it has expired, and stays at the least value rather than wrap.
pub fn count_down(value: i64, step: u32) -> (r: i64)
    ensures
        r == spec_count_down(value, step),
{
    if value >= i64::MIN + step as i64 {
        value - step as i64
    } else {
        i64::MIN
    }
}

} // verus!
