//! Frustum culling of sectors.
//!
//! The camera's frustum is six planes in fixed-point form: every
//! coefficient carries `FIXED_SCALE` subunits per world unit, as
//! produced by normalizing and scaling the clip-space plane equations
//! of the combined view-projection matrix. A sector is rejected only
//! when its bounding sphere lies provably behind one plane, so sectors
//! on the fence are kept (conservative, no false negatives).

use vstd::prelude::*;

use crate::SECTOR_SIZE;

verus! {

/// Fixed-point scale: plane coefficients and world positions carry
/// this many subunits per world unit.
pub const FIXED_SCALE: i64 = 1000;

/// A 3D plane defined as (A, B, C, D), in fixed-point subunits.
#[derive(Clone, Copy, Debug, PartialEq, Eq, Structural)]
pub struct Plane {
    pub a: i64,
    pub b: i64,
    pub c: i64,
    pub d: i64,
}

impl Plane {
    /// Create a plane from these coefficients.
    pub fn new(a: i64, b: i64, c: i64, d: i64) -> (r: Plane)
        ensures
            r == (Plane { a, b, c, d }),
    {
        Plane { a, b, c, d }
    }
}

/// The signed distance from a world-space point to a plane, in
/// fixed-point subunits (the point is given in whole world units).
pub open spec fn spec_plane_dist(p: Plane, cx: int, cy: int, cz: int) -> int {
    p.a * cx + p.b * cy + p.c * cz + p.d
}

/// The world-space center of a sector at these grid coordinates.
pub open spec fn spec_sector_center(pos: (i32, i32, i32)) -> (int, int, int) {
    (
        pos.0 * (SECTOR_SIZE as int) + (SECTOR_SIZE as int) / 2,
        pos.1 * (SECTOR_SIZE as int) + (SECTOR_SIZE as int) / 2,
        pos.2 * (SECTOR_SIZE as int) + (SECTOR_SIZE as int) / 2,
    )
}

/// A sector lies provably outside a plane when its center is at least
/// a whole sector length behind it (a conservative bounding-sphere
/// radius).
pub open spec fn spec_outside_plane(p: Plane, pos: (i32, i32, i32)) -> bool {
    spec_plane_dist(
        p,
        spec_sector_center(pos).0,
        spec_sector_center(pos).1,
        spec_sector_center(pos).2,
    ) <= -(SECTOR_SIZE as int) * (FIXED_SCALE as int)
}

/// Represents the frustum of the camera: its six clip planes.
#[derive(Clone, Copy, Debug, PartialEq, Eq, Structural)]
pub struct Frustum {
    pub right: Plane,
    pub left: Plane,
    pub bottom: Plane,
    pub top: Plane,
    pub far: Plane,
    pub near: Plane,
}

/// The planes of a frustum by number, in the order right, left,
/// bottom, top, far, near.
pub open spec fn spec_plane(f: Frustum, i: int) -> Plane {
    if i == 0 {
        f.right
    } else if i == 1 {
        f.left
    } else if i == 2 {
        f.bottom
    } else if i == 3 {
        f.top
    } else if i == 4 {
        f.far
    } else {
        f.near
    }
}

/// A sector is visible unless it lies provably outside one of the six
/// planes.
pub open spec fn spec_sector_visible(f: Frustum, pos: (i32, i32, i32)) -> bool {
    !spec_outside_plane(f.right, pos) && !spec_outside_plane(f.left, pos) && !spec_outside_plane(
        f.bottom,
        pos,
    ) && !spec_outside_plane(f.top, pos) && !spec_outside_plane(f.far, pos) && !spec_outside_plane(
        f.near,
        pos,
    )
}

impl Frustum {
    /// Create the frustum from its six planes, in the order right,
    /// left, bottom, top, far, near.
    pub fn new(right: Plane, left: Plane, bottom: Plane, top: Plane, far: Plane, near: Plane) -> (r:
        Frustum)
        ensures
            r == (Frustum { right, left, bottom, top, far, near }),
    {
        Frustum { right, left, bottom, top, far, near }
    }

    /// The frustum planes in the order right, left, bottom, top, far,
    /// near.
    pub fn planes(&self) -> (r: Vec<Plane>)
        ensures
            r@.len() == 6,
            forall|i: int| 0 <= i < 6 ==> r@[i] == spec_plane(*self, i),
    {
        let mut v: Vec<Plane> = Vec::new();
        v.push(self.right);
        v.push(self.left);
        v.push(self.bottom);
        v.push(self.top);
        v.push(self.far);
        v.push(self.near);
        v
    }
}

/// Whether the sector's bounding sphere lies provably behind the
/// plane.
fn plane_outside(p: &Plane, cx: i64, cy: i64, cz: i64) -> (r: bool)
    requires
        -1099511627776 <= cx <= 1099511627776,
        -1099511627776 <= cy <= 1099511627776,
        -1099511627776 <= cz <= 1099511627776,
    ensures
        r == (p.a * cx + p.b * cy + p.c * cz + p.d <= -(SECTOR_SIZE as int) * (
        FIXED_SCALE as int)),
{
    proof {
        assert(-0x100000000000000000000000000i128 <= p.a as i128 * cx as i128
            <= 0x100000000000000000000000000i128) by (nonlinear_arith)
            requires
                i64::MIN <= p.a <= i64::MAX,
                -1099511627776 <= cx <= 1099511627776,
        ;
        assert(-0x100000000000000000000000000i128 <= p.b as i128 * cy as i128
            <= 0x100000000000000000000000000i128) by (nonlinear_arith)
            requires
                i64::MIN <= p.b <= i64::MAX,
                -1099511627776 <= cy <= 1099511627776,
        ;
        assert(-0x100000000000000000000000000i128 <= p.c as i128 * cz as i128
            <= 0x100000000000000000000000000i128) by (nonlinear_arith)
            requires
                i64::MIN <= p.c <= i64::MAX,
                -1099511627776 <= cz <= 1099511627776,
        ;
    }
    let d: i128 = p.a as i128 * cx as i128 + p.b as i128 * cy as i128 + p.c as i128 * cz as i128
        + p.d as i128;
    d <= -(SECTOR_SIZE as i128) * (FIXED_SCALE as i128)
}

/// Decide whether a sector is in the camera's view: its world-space
/// center must not lie provably outside any frustum plane.
pub fn sector_visible(frustum: &Frustum, pos: (i32, i32, i32)) -> (r: bool)
    ensures
        r == spec_sector_visible(*frustum, pos),
{
    let half: i64 = SECTOR_SIZE as i64 / 2;
    let cx: i64 = pos.0 as i64 * SECTOR_SIZE as i64 + half;
    let cy: i64 = pos.1 as i64 * SECTOR_SIZE as i64 + half;
    let cz: i64 = pos.2 as i64 * SECTOR_SIZE as i64 + half;
    if plane_outside(&frustum.right, cx, cy, cz) {
        return false;
    }
    if plane_outside(&frustum.left, cx, cy, cz) {
        return false;
    }
    if plane_outside(&frustum.bottom, cx, cy, cz) {
        return false;
    }
    if plane_outside(&frustum.top, cx, cy, cz) {
        return false;
    }
    if plane_outside(&frustum.far, cx, cy, cz) {
        return false;
    }
    if plane_outside(&frustum.near, cx, cy, cz) {
        return false;
    }
    true
}

/// A sector is classified visible exactly when no frustum plane
/// separates it from the view volume: strictly more than a sector
/// length of signed distance remains on every plane.
pub proof fn lemma_visible_iff_no_separating_plane(f: Frustum, pos: (i32, i32, i32))
    ensures
        spec_sector_visible(f, pos) <==> forall|i: int|
            0 <= i < 6 ==> !spec_outside_plane(#[trigger] spec_plane(f, i), pos),
{
    if spec_sector_visible(f, pos) {
        assert forall|i: int| 0 <= i < 6 implies !spec_outside_plane(
            #[trigger] spec_plane(f, i),
            pos,
        ) by {}
    } else {
        if spec_outside_plane(f.right, pos) {
            assert(spec_outside_plane(spec_plane(f, 0), pos));
        } else if spec_outside_plane(f.left, pos) {
            assert(spec_outside_plane(spec_plane(f, 1), pos));
        } else if spec_outside_plane(f.bottom, pos) {
            assert(spec_outside_plane(spec_plane(f, 2), pos));
        } else if spec_outside_plane(f.top, pos) {
            assert(spec_outside_plane(spec_plane(f, 3), pos));
        } else if spec_outside_plane(f.far, pos) {
            assert(spec_outside_plane(spec_plane(f, 4), pos));
        } else {
            assert(spec_outside_plane(spec_plane(f, 5), pos));
        }
    }
}

} // verus!
