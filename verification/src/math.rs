//! Scene-space math on integer coordinates.
//!
//! The viewer's placement logic only ever scales and translates: a
//! looked-up node's axis-aligned bounding box is re-centred at world
//! scale and translation, never rotated. Coordinates are fixed-point
//! scene units held in `i32` components; derived world-space values are
//! widened to `i64`, so every product and sum below fits without any
//! bound on the inputs.

use vstd::prelude::*;

verus! {

/// A point or extent in local scene units.
#[derive(Debug, Clone, Copy, PartialEq, Eq, Structural)]
pub struct IVec3 {
    pub x: i32,
    pub y: i32,
    pub z: i32,
}

/// A point or extent in world scene units (wide enough to hold any
/// scaled and translated local value).
#[derive(Debug, Clone, Copy, PartialEq, Eq, Structural)]
pub struct LVec3 {
    pub x: i64,
    pub y: i64,
    pub z: i64,
}

impl IVec3 {
    pub fn new(x: i32, y: i32, z: i32) -> (v: Self)
        ensures
            v == (IVec3 { x, y, z }),
    {
        IVec3 { x, y, z }
    }
}

impl LVec3 {
    pub fn new(x: i64, y: i64, z: i64) -> (v: Self)
        ensures
            v == (LVec3 { x, y, z }),
    {
        LVec3 { x, y, z }
    }
}

/// A world transform restricted to the axes this design uses:
/// componentwise scale followed by translation.
#[derive(Debug, Clone, Copy, PartialEq, Eq, Structural)]
pub struct Transform {
    pub translation: IVec3,
    pub scale: IVec3,
}

impl Transform {
    /// The identity transform: scale one, no translation.
    pub fn identity() -> (t: Self)
        ensures
            t.translation == (IVec3 { x: 0, y: 0, z: 0 }),
            t.scale == (IVec3 { x: 1, y: 1, z: 1 }),
    {
        Transform { translation: IVec3 { x: 0, y: 0, z: 0 }, scale: IVec3 { x: 1, y: 1, z: 1 } }
    }

    /// A pure translation, as used to place sub-scene cameras.
    pub fn from_translation(translation: IVec3) -> (t: Self)
        ensures
            t.translation == translation,
            t.scale == (IVec3 { x: 1, y: 1, z: 1 }),
    {
        Transform { translation, scale: IVec3 { x: 1, y: 1, z: 1 } }
    }

    /// Where this transform sends a local point: each component is
    /// scaled, then translated.
    pub open spec fn sends(self, p: IVec3, r: LVec3) -> bool {
        &&& r.x == self.scale.x * p.x + self.translation.x
        &&& r.y == self.scale.y * p.y + self.translation.y
        &&& r.z == self.scale.z * p.z + self.translation.z
    }

    /// Apply the transform to a local point.
    pub fn apply(&self, p: IVec3) -> (r: LVec3)
        ensures
            self.sends(p, r),
    {
        proof {
            lemma_i32_products_fit(self.scale.x as int, p.x as int);
            lemma_i32_products_fit(self.scale.y as int, p.y as int);
            lemma_i32_products_fit(self.scale.z as int, p.z as int);
        }
        LVec3 {
            x: self.scale.x as i64 * p.x as i64 + self.translation.x as i64,
            y: self.scale.y as i64 * p.y as i64 + self.translation.y as i64,
            z: self.scale.z as i64 * p.z as i64 + self.translation.z as i64,
        }
    }
}

/// The product of two `i32`-range values stays well inside `i64`, with
/// room left for one `i32`-range addend and for a doubling.
pub proof fn lemma_i32_products_fit(a: int, b: int)
    requires
        -0x8000_0000 <= a < 0x8000_0000,
        -0x8000_0000 <= b < 0x8000_0000,
    ensures
        -0x4000_0000_0000_0000 <= a * b <= 0x4000_0000_0000_0000,
{
    assert(-0x4000_0000_0000_0000 <= a * b <= 0x4000_0000_0000_0000) by (nonlinear_arith)
        requires
            -0x8000_0000 <= a < 0x8000_0000,
            -0x8000_0000 <= b < 0x8000_0000,
    ;
}

/// A scale in `i32` range times a nonnegative half-extent in `i32`
/// range leaves enough headroom in `i64` to be doubled.
pub proof fn lemma_scaled_extent_fits(a: int, b: int)
    requires
        -0x8000_0000 <= a < 0x8000_0000,
        0 <= b < 0x8000_0000,
    ensures
        -0x3fff_ffff_8000_0000 <= a * b <= 0x3fff_ffff_8000_0000,
{
    assert(-0x3fff_ffff_8000_0000 <= a * b <= 0x3fff_ffff_8000_0000) by (nonlinear_arith)
        requires
            -0x8000_0000 <= a < 0x8000_0000,
            0 <= b < 0x8000_0000,
    ;
}

/// An axis-aligned bounding box in local mesh coordinates: a centre and
/// nonnegative half-extents, as computed from a mesh's vertex extents.
#[derive(Debug, Clone, Copy, PartialEq, Eq, Structural)]
pub struct Aabb {
    pub center: IVec3,
    pub half_extents: IVec3,
}

impl Aabb {
    /// Half-extents describe a distance from the centre, so they are
    /// never negative.
    pub open spec fn wf(self) -> bool {
        self.half_extents.x >= 0 && self.half_extents.y >= 0 && self.half_extents.z >= 0
    }
}

/// A box placed in world space: the geometry spawned for one painting.
#[derive(Debug, Clone, Copy, PartialEq, Eq, Structural)]
pub struct WorldBox {
    pub center: LVec3,
    pub full_extents: LVec3,
}

/// The world-space box this design derives from a local bounding box:
/// the centre is sent through the node's world transform, and each full
/// extent is twice the half-extent at world scale. The box itself is
/// never rotated; only its centre is re-positioned.
pub open spec fn is_world_box_of(r: WorldBox, aabb: Aabb, transform: Transform) -> bool {
    &&& transform.sends(aabb.center, r.center)
    &&& r.full_extents.x == 2 * (transform.scale.x * aabb.half_extents.x)
    &&& r.full_extents.y == 2 * (transform.scale.y * aabb.half_extents.y)
    &&& r.full_extents.z == 2 * (transform.scale.z * aabb.half_extents.z)
}

/// Compute the world-space box for a node's local bounding box under
/// its world transform.
pub fn world_box(aabb: &Aabb, transform: &Transform) -> (r: WorldBox)
    requires
        aabb.wf(),
    ensures
        is_world_box_of(r, *aabb, *transform),
{
    let center = transform.apply(aabb.center);
    proof {
        lemma_scaled_extent_fits(transform.scale.x as int, aabb.half_extents.x as int);
        lemma_scaled_extent_fits(transform.scale.y as int, aabb.half_extents.y as int);
        lemma_scaled_extent_fits(transform.scale.z as int, aabb.half_extents.z as int);
    }
    let full_extents = LVec3 {
        x: 2 * (transform.scale.x as i64 * aabb.half_extents.x as i64),
        y: 2 * (transform.scale.y as i64 * aabb.half_extents.y as i64),
        z: 2 * (transform.scale.z as i64 * aabb.half_extents.z as i64),
    };
    WorldBox { center, full_extents }
}

} // verus!
