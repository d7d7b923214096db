//! Fixed-point vectors and transforms.
//!
//! Coordinates are integers in thousandths of a world unit, so that the
//! placements of a scene can be stated and compared exactly. A rotation is
//! not stored as a quaternion: a transform records how it is oriented (not at
//! all, or towards a target with a given up direction), and the renderer turns
//! that into a rotation.
use vstd::prelude::*;

verus! {

/// Thousandths of a world unit that make one world unit.
pub const UNIT: i32 = 1000;

/// A point or a direction in world space, in thousandths of a world unit.
#[derive(Clone, Copy, Debug, PartialEq, Eq, Structural)]
pub struct Vec3 {
    pub x: i32,
    pub y: i32,
    pub z: i32,
}

/// The world origin.
pub open spec fn origin() -> Vec3 {
    Vec3 { x: 0, y: 0, z: 0 }
}

/// One world unit along the vertical axis.
pub open spec fn unit_y() -> Vec3 {
    Vec3 { x: 0, y: UNIT as i32, z: 0 }
}

/// One world unit along each axis: the scale that changes nothing.
pub open spec fn unit_scale() -> Vec3 {
    Vec3 { x: UNIT as i32, y: UNIT as i32, z: UNIT as i32 }
}

/// `to - from`, over unbounded integers.
pub open spec fn offset(from: Vec3, to: Vec3) -> (int, int, int) {
    (to.x - from.x, to.y - from.y, to.z - from.z)
}

/// The cross product of two integer triples.
pub open spec fn cross(a: (int, int, int), b: (int, int, int)) -> (int, int, int) {
    (a.1 * b.2 - a.2 * b.1, a.2 * b.0 - a.0 * b.2, a.0 * b.1 - a.1 * b.0)
}

pub open spec fn is_zero(a: (int, int, int)) -> bool {
    a.0 == 0 && a.1 == 0 && a.2 == 0
}

impl Vec3 {
    /// Builds a vector from its three coordinates.
    pub fn new(x: i32, y: i32, z: i32) -> (r: Vec3)
        ensures
            r == (Vec3 { x, y, z }),
    {
        Vec3 { x, y, z }
    }

    /// The world origin.
    pub fn zero() -> (r: Vec3)
        ensures
            r == origin(),
    {
        Vec3 { x: 0, y: 0, z: 0 }
    }

    /// One world unit up the vertical axis.
    pub fn up() -> (r: Vec3)
        ensures
            r == unit_y(),
    {
        Vec3 { x: 0, y: UNIT, z: 0 }
    }
}

/// How a transform is turned.
#[derive(Clone, Copy, Debug, PartialEq, Eq, Structural)]
pub enum Orientation {
    /// No rotation.
    Identity,
    /// Turned so that its forward axis points at `target` and its up axis
    /// leans towards `up`.
    LookingAt { target: Vec3, up: Vec3 },
}

/// Where an object stands, how it is turned, and how it is scaled.
#[derive(Clone, Copy, Debug, PartialEq, Eq, Structural)]
pub struct Transform {
    pub translation: Vec3,
    pub orientation: Orientation,
    pub scale: Vec3,
}

/// A transform at `at`, not rotated and not scaled.
pub open spec fn placed_at(at: Vec3) -> Transform {
    Transform { translation: at, orientation: Orientation::Identity, scale: unit_scale() }
}

/// The transform `t` turned towards `target`, with `up` as its up direction.
pub open spec fn aimed_at(t: Transform, target: Vec3, up: Vec3) -> Transform {
    Transform { orientation: Orientation::LookingAt { target, up }, ..t }
}

/// `t` is turned towards `p`, and that turn is well posed: `p` is not where
/// `t` stands, and the direction to `p` is not parallel to the up direction,
/// so exactly one rotation points the forward axis at `p` with that up.
pub open spec fn faces(t: Transform, p: Vec3) -> bool {
    match t.orientation {
        Orientation::LookingAt { target, up } => {
            &&& target == p
            &&& !is_zero(offset(t.translation, p))
            &&& !is_zero(cross(offset(t.translation, p), offset(origin(), up)))
        },
        Orientation::Identity => false,
    }
}

impl Transform {
    /// A transform at `(x, y, z)`, not rotated and not scaled.
    pub fn from_xyz(x: i32, y: i32, z: i32) -> (r: Transform)
        ensures
            r == placed_at(Vec3 { x, y, z }),
    {
        Transform {
            translation: Vec3 { x, y, z },
            orientation: Orientation::Identity,
            scale: Vec3 { x: UNIT, y: UNIT, z: UNIT },
        }
    }

    /// This transform, turned so that it looks at `target` with `up` as its
    /// up direction; where it stands and its scale are kept.
    pub fn looking_at(self, target: Vec3, up: Vec3) -> (r: Transform)
        ensures
            r == aimed_at(self, target, up),
    {
        Transform { orientation: Orientation::LookingAt { target, up }, ..self }
    }
}

} // verus!
