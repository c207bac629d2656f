//! Transform descriptors: the input records of the compositor.

use vstd::prelude::*;

verus! {

/// Largest magnitude of a position scalar (32768 whole units).
pub const POS_LIMIT: i64 = 0x8000_0000;

/// Largest magnitude of a rotation scalar (2 whole units; a cosine or sine
/// lies within one).
pub const ROT_LIMIT: i64 = 0x2_0000;

/// Largest magnitude of a scale scalar (256 whole units).
pub const SIZE_LIMIT: i64 = 0x100_0000;

/// Largest magnitude of an origin scalar (16 whole units; an origin is
/// usually a fraction within [0, 1]).
pub const ORIGIN_LIMIT: i64 = 0x10_0000;

/// One 2D transform descriptor, all fields fixed-point scalars.
///
/// The rotation about the Z axis is given by its cosine and sine, since the
/// kernel's arithmetic is exact and evaluates no trigonometry; whoever
/// produces descriptors from an angle supplies the pair.  `origin_x` and
/// `origin_y` give the pivot as a fraction of `size_x` and `size_y`: the
/// offset subtracted before scaling is `(-origin_x * size_x,
/// -origin_y * size_y)`.
#[derive(Clone, Copy, Debug, PartialEq, Eq, Structural)]
pub struct Transform {
    pub x: i64,
    pub y: i64,
    pub rot_cos: i64,
    pub rot_sin: i64,
    pub size_x: i64,
    pub size_y: i64,
    pub origin_x: i64,
    pub origin_y: i64,
}

impl Transform {
    /// Every field is within the limit of its kind.  The limits keep every
    /// intermediate of the composition within `i64`; they bound nothing that
    /// the composition itself cares about.
    pub open spec fn valid(self) -> bool {
        &&& -POS_LIMIT <= self.x <= POS_LIMIT
        &&& -POS_LIMIT <= self.y <= POS_LIMIT
        &&& -ROT_LIMIT <= self.rot_cos <= ROT_LIMIT
        &&& -ROT_LIMIT <= self.rot_sin <= ROT_LIMIT
        &&& -SIZE_LIMIT <= self.size_x <= SIZE_LIMIT
        &&& -SIZE_LIMIT <= self.size_y <= SIZE_LIMIT
        &&& -ORIGIN_LIMIT <= self.origin_x <= ORIGIN_LIMIT
        &&& -ORIGIN_LIMIT <= self.origin_y <= ORIGIN_LIMIT
    }

    /// Tests `valid` at run time, for callers whose descriptors come from an
    /// unchecked boundary.
    pub fn is_valid(&self) -> (b: bool)
        ensures
            b == self.valid(),
    {
        self.x >= -POS_LIMIT && self.x <= POS_LIMIT
            && self.y >= -POS_LIMIT && self.y <= POS_LIMIT
            && self.rot_cos >= -ROT_LIMIT && self.rot_cos <= ROT_LIMIT
            && self.rot_sin >= -ROT_LIMIT && self.rot_sin <= ROT_LIMIT
            && self.size_x >= -SIZE_LIMIT && self.size_x <= SIZE_LIMIT
            && self.size_y >= -SIZE_LIMIT && self.size_y <= SIZE_LIMIT
            && self.origin_x >= -ORIGIN_LIMIT && self.origin_x <= ORIGIN_LIMIT
            && self.origin_y >= -ORIGIN_LIMIT && self.origin_y <= ORIGIN_LIMIT
    }
}

} // verus!
