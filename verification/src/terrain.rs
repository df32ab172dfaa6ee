//! Managing, drawing, and colliding with terrain.
//!
//! `Terrain` is the resident-sector map of the streaming scheduler: the
//! single-threaded side that requests missing sectors around the
//! camera, installs generated results, evicts sectors beyond the
//! retention radius, picks the visible render set, and resolves
//! collisions of a moving point against solid blocks. The worker side
//! of the pipeline claims coordinates from a shared `PendingSet` and
//! turns each into a `Generated` result with `produce`.
//!
//! World positions are carried in fixed-point subunits (`FIXED_SCALE`
//! subunits per world unit).

use vstd::prelude::*;

use crate::SECTOR_SIZE;
use crate::frustum::{FIXED_SCALE, Frustum, sector_visible, spec_sector_visible};
use crate::mesh_gen::{AdjacentSectors, AdjacentViews, Vertex, generate_block_vertices, spec_mesh};
use crate::pending::PendingSet;
use crate::voxel::{Block, BlockList, Sector, SectorSpaceCoords};
use crate::world_gen::{WorldGen, spec_generate};

verus! {

/// The farthest coordinate magnitude, in fixed-point subunits, at
/// which the terrain works: it keeps every derived sector index inside
/// `i32`.
pub const WORLD_LIMIT: i64 = 60_000_000_000_000;

/// The squared distance in sector-grid units beyond which a resident
/// sector is evicted.
pub const RETENTION_DIST_SQ: i64 = 280;

/// The cap on outstanding generation requests.
pub const MAX_PENDING_REQUESTS: usize = 32;

/// The collision margin, in fixed-point subunits, kept between the
/// player and a solid block face.
pub const COLLIDE_PADDING: i64 = 300;

/// Stores a position in world space, in fixed-point subunits.
#[derive(Clone, Copy, Debug, PartialEq, Eq, Structural)]
pub struct Translation {
    pub x: i64,
    pub y: i64,
    pub z: i64,
}

impl Translation {
    /// The position lies inside the world's working bounds.
    pub open spec fn in_world(self) -> bool {
        &&& -WORLD_LIMIT <= self.x <= WORLD_LIMIT
        &&& -WORLD_LIMIT <= self.y <= WORLD_LIMIT
        &&& -WORLD_LIMIT <= self.z <= WORLD_LIMIT
    }

    /// The position lies at most a couple of world units beyond the
    /// working bounds, as a collision clamp can briefly leave it.
    pub open spec fn in_reach(self) -> bool {
        &&& -WORLD_LIMIT - 2000 <= self.x <= WORLD_LIMIT + 2000
        &&& -WORLD_LIMIT - 2000 <= self.y <= WORLD_LIMIT + 2000
        &&& -WORLD_LIMIT - 2000 <= self.z <= WORLD_LIMIT + 2000
    }

    /// Create a new `Translation` with these values.
    pub fn new(x: i64, y: i64, z: i64) -> (r: Translation)
        ensures
            r == (Translation { x, y, z }),
    {
        Translation { x, y, z }
    }

    /// Shift the translation by this offset.
    pub fn slide(&mut self, x: i64, y: i64, z: i64)
        requires
            i64::MIN <= old(self).x + x <= i64::MAX,
            i64::MIN <= old(self).y + y <= i64::MAX,
            i64::MIN <= old(self).z + z <= i64::MAX,
        ensures
            final(self).x == old(self).x + x,
            final(self).y == old(self).y + y,
            final(self).z == old(self).z + z,
    {
        self.x = self.x + x;
        self.y = self.y + y;
        self.z = self.z + z;
    }
}

/// A fixed-point position rounded to the nearest whole world unit,
/// halves away from zero.
pub open spec fn spec_round(v: int) -> int {
    if v >= 0 {
        (v + (FIXED_SCALE as int) / 2) / (FIXED_SCALE as int)
    } else {
        -((-v + (FIXED_SCALE as int) / 2) / (FIXED_SCALE as int))
    }
}

/// Round a fixed-point value to the nearest whole world unit, halves
/// away from zero.
fn round_milli(v: i64) -> (r: i64)
    requires
        i64::MIN + 1000 < v < i64::MAX - 1000,
    ensures
        r == spec_round(v as int),
{
    if v >= 0 {
        (v + FIXED_SCALE / 2) / FIXED_SCALE
    } else {
        -((-v + FIXED_SCALE / 2) / FIXED_SCALE)
    }
}

/// The grid index of the sector that holds a whole world coordinate.
pub open spec fn spec_sector_index(w: int) -> int {
    w / (SECTOR_SIZE as int)
}

/// Divide a whole world coordinate by the sector size, rounding toward
/// negative infinity.
fn floor_div_sector(a: i64) -> (r: i64)
    requires
        -100_000_000_000 <= a <= 100_000_000_000,
    ensures
        r == spec_sector_index(a as int),
{
    if a >= 0 {
        a / (SECTOR_SIZE as i64)
    } else {
        proof {
            assert(-((-a + 31) / 32) == a as int / 32) by (nonlinear_arith)
                requires
                    -100_000_000_000 <= a < 0,
            ;
        }
        -((-a + (SECTOR_SIZE as i64 - 1)) / (SECTOR_SIZE as i64))
    }
}

/// Rounding to whole units moves a fixed-point value by at most half a
/// unit.
proof fn lemma_round_close(v: int)
    ensures
        -500 <= spec_round(v) * 1000 - v <= 500,
{
    assert(-500 <= spec_round(v) * 1000 - v <= 500) by (nonlinear_arith)
        requires
            spec_round(v) == if v >= 0 {
                (v + 500) / 1000
            } else {
                -((-v + 500) / 1000)
            },
    ;
}

/// A rounded fixed-point value stays within a thousandth of the bound,
/// plus one.
proof fn lemma_round_bound(v: int, b: int)
    requires
        b >= 0,
        -b <= v <= b,
    ensures
        -(b / 1000 + 1) <= spec_round(v) <= b / 1000 + 1,
{
    assert(-(b / 1000 + 1) <= spec_round(v) <= b / 1000 + 1) by (nonlinear_arith)
        requires
            b >= 0,
            -b <= v <= b,
            spec_round(v) == if v >= 0 {
                (v + 500) / 1000
            } else {
                -((-v + 500) / 1000)
            },
    ;
}

/// The grid coordinates of the sector holding a world position.
pub open spec fn spec_sector_at(t: Translation) -> (int, int, int) {
    (
        spec_sector_index(spec_round(t.x as int)),
        spec_sector_index(spec_round(t.y as int)),
        spec_sector_index(spec_round(t.z as int)),
    )
}

/// The nearest sector at a translation.
pub fn sector_at(pos: &Translation) -> (r: (i32, i32, i32))
    requires
        pos.in_reach(),
    ensures
        r.0 == spec_sector_at(*pos).0,
        r.1 == spec_sector_at(*pos).1,
        r.2 == spec_sector_at(*pos).2,
{
    proof {
        lemma_round_bound(pos.x as int, WORLD_LIMIT as int + 2000);
        lemma_round_bound(pos.y as int, WORLD_LIMIT as int + 2000);
        lemma_round_bound(pos.z as int, WORLD_LIMIT as int + 2000);
    }
    let wx = round_milli(pos.x);
    let wy = round_milli(pos.y);
    let wz = round_milli(pos.z);
    let sx = floor_div_sector(wx);
    let sy = floor_div_sector(wy);
    let sz = floor_div_sector(wz);
    proof {
        assert(-2000000000 <= wx as int / 32 <= 2000000000 && -2000000000 <= wy as int / 32
            <= 2000000000 && -2000000000 <= wz as int / 32 <= 2000000000) by (nonlinear_arith)
            requires
                -60000000003 <= wx <= 60000000003,
                -60000000003 <= wy <= 60000000003,
                -60000000003 <= wz <= 60000000003,
        ;
    }
    (sx as i32, sy as i32, sz as i32)
}

/// Near-to-far visitation order of sector offsets along one axis.
pub open spec fn spec_order(i: int) -> int {
    if i == 0 {
        0
    } else if i == 1 {
        -1
    } else if i == 2 {
        1
    } else if i == 3 {
        2
    } else if i == 4 {
        -2
    } else if i == 5 {
        3
    } else if i == 6 {
        -3
    } else if i == 7 {
        4
    } else {
        -4
    }
}

/// The offsets 0, -1, 1, 2, -2, 3, -3, 4, -4: nearest first, so near
/// sectors are requested (and generated) before far ones.
fn order(i: usize) -> (r: i32)
    requires
        i < 9,
    ensures
        r == spec_order(i as int),
{
    if i == 0 {
        0
    } else if i == 1 {
        -1
    } else if i == 2 {
        1
    } else if i == 3 {
        2
    } else if i == 4 {
        -2
    } else if i == 5 {
        3
    } else if i == 6 {
        -3
    } else if i == 7 {
        4
    } else {
        -4
    }
}

/// The n-th coordinate of the visitation grid around a center sector:
/// all offset triples of `spec_order`, innermost axis fastest.
pub open spec fn spec_grid_coord(center: (i32, i32, i32), n: int) -> (i32, i32, i32) {
    (
        (center.0 + spec_order(n / 81)) as i32,
        (center.1 + spec_order((n / 9) % 9)) as i32,
        (center.2 + spec_order(n % 9)) as i32,
    )
}

/// The pending set after the scheduler has walked the first `n` grid
/// coordinates around the center, requesting each one that is neither
/// resident nor already pending.
pub open spec fn spec_fill(
    p: Seq<((i32, i32, i32), bool)>,
    resident: Seq<((i32, i32, i32), Sector)>,
    center: (i32, i32, i32),
    n: int,
) -> Seq<((i32, i32, i32), bool)>
    decreases n,
{
    if n <= 0 {
        p
    } else {
        let prev = spec_fill(p, resident, center, n - 1);
        let c = spec_grid_coord(center, n - 1);
        if (exists|i: int| 0 <= i < resident.len() && (#[trigger] resident[i]).0 == c) || (
        exists|i: int| 0 <= i < prev.len() && (#[trigger] prev[i]).0 == c) {
            prev
        } else {
            prev.push((c, true))
        }
    }
}

/// The squared distance between two sector coordinates, in grid
/// units.
pub open spec fn spec_dist_sq(a: (i32, i32, i32), b: (i32, i32, i32)) -> int {
    (a.0 - b.0) * (a.0 - b.0) + (a.1 - b.1) * (a.1 - b.1) + (a.2 - b.2) * (a.2 - b.2)
}

/// Whether a resident entry survives eviction around this center: its
/// sector lies within the retention radius.
pub open spec fn spec_retained(e: ((i32, i32, i32), Sector), center: (i32, i32, i32)) -> bool {
    spec_dist_sq(e.0, center) < RETENTION_DIST_SQ as int
}

/// Whether the squared sector-grid distance of two coordinates stays
/// below a limit.
fn dist_sq_below(a: (i32, i32, i32), b: (i32, i32, i32), limit: i64) -> (r: bool)
    ensures
        r == (spec_dist_sq(a, b) < limit),
{
    let dx = a.0 as i64 - b.0 as i64;
    let dy = a.1 as i64 - b.1 as i64;
    let dz = a.2 as i64 - b.2 as i64;
    proof {
        assert(0 <= dx as i128 * dx as i128 <= 0x40000000000000000i128 && 0 <= dy as i128
            * dy as i128 <= 0x40000000000000000i128 && 0 <= dz as i128 * dz as i128
            <= 0x40000000000000000i128) by (nonlinear_arith)
            requires
                -0x100000000i128 <= dx <= 0x100000000i128,
                -0x100000000i128 <= dy <= 0x100000000i128,
                -0x100000000i128 <= dz <= 0x100000000i128,
        ;
    }
    let dd: i128 = dx as i128 * dx as i128 + dy as i128 * dy as i128 + dz as i128 * dz as i128;
    dd < limit as i128
}

/// A generated `BlockList` with its mesh, handed from a worker to the
/// render thread.
pub struct Generated {
    pub pos: (i32, i32, i32),
    pub list: BlockList,
    pub vertices: Vec<Vertex>,
}

/// The block storage of the six sectors face-adjacent to a coordinate,
/// as world generation yields them.
pub open spec fn spec_adjacent_of(pos: (i32, i32, i32)) -> AdjacentViews {
    AdjacentViews {
        back: spec_generate((pos.0, pos.1, (pos.2 - 1) as i32)),
        front: spec_generate((pos.0, pos.1, (pos.2 + 1) as i32)),
        top: spec_generate((pos.0, (pos.1 + 1) as i32, pos.2)),
        bottom: spec_generate((pos.0, (pos.1 - 1) as i32, pos.2)),
        left: spec_generate((((pos.0 - 1) as i32), pos.1, pos.2)),
        right: spec_generate((((pos.0 + 1) as i32), pos.1, pos.2)),
    }
}

/// One unit of worker work for a claimed coordinate: generate the
/// sector's blocks, generate its six face-adjacent neighbors (cheap,
/// and deterministic, so no cross-thread coordination is needed), and
/// mesh the sector against them. Pure, so it runs outside any lock.
pub fn produce(gen: &WorldGen, pos: (i32, i32, i32)) -> (r: Generated)
    requires
        -2000000000 <= pos.0 <= 2000000000,
        -2000000000 <= pos.1 <= 2000000000,
        -2000000000 <= pos.2 <= 2000000000,
    ensures
        r.pos == pos,
        r.list.wf(),
        r.list@ == spec_generate(pos),
        r.vertices@ == spec_mesh(spec_generate(pos), spec_adjacent_of(pos)),
{
    let list = gen.generate(pos);
    let back = gen.generate((pos.0, pos.1, pos.2 - 1));
    let front = gen.generate((pos.0, pos.1, pos.2 + 1));
    let top = gen.generate((pos.0, pos.1 + 1, pos.2));
    let bottom = gen.generate((pos.0, pos.1 - 1, pos.2));
    let left = gen.generate((pos.0 - 1, pos.1, pos.2));
    let right = gen.generate((pos.0 + 1, pos.1, pos.2));
    let adjacent = AdjacentSectors {
        back: &back,
        front: &front,
        top: &top,
        bottom: &bottom,
        left: &left,
        right: &right,
    };
    let vertices = generate_block_vertices(&list, &adjacent);
    proof {
        assert(adjacent@ == spec_adjacent_of(pos));
    }
    Generated { pos, list, vertices }
}

/// The block at a whole world coordinate, as collision sees it: `None`
/// when no sector is resident there, and `None` for a sector that has
/// something to draw but no render model yet, so that collision stays
/// consistent with what is visually present.
pub open spec fn spec_visible_block(t: Terrain, wx: int, wy: int, wz: int) -> Option<Block> {
    let s = ((wx / 32) as i32, (wy / 32) as i32, (wz / 32) as i32);
    match t.spec_find(s) {
        Some(sector) => {
            if sector.spec_model() is None && (exists|j: int|
                0 <= j < sector.spec_blocks()@.len() && sector.spec_blocks()@[j] != Block::Air) {
                None
            } else {
                let c = SectorSpaceCoords {
                    x: (wx - (s.0 as int) * 32) as u8,
                    y: (wy - (s.1 as int) * 32) as u8,
                    z: (wz - (s.2 as int) * 32) as u8,
                };
                Some(sector.spec_blocks()@[c.spec_index()])
            }
        },
        None => None,
    }
}

/// Whether collision treats the probed block as solid: a block is
/// there and it is not air.
pub open spec fn spec_solid_at(t: Terrain, wx: int, wy: int, wz: int) -> bool {
    match spec_visible_block(t, wx, wy, wz) {
        Some(b) => b != Block::Air,
        None => false,
    }
}

/// One collision phase: the block behind the player. When it is solid
/// and the position penetrates its margin, the z component is clamped
/// to the block face plus the margin; nothing else changes.
pub open spec fn spec_phase_back(t: Terrain, p: Translation) -> Translation {
    let rz = spec_round(p.z as int);
    let margin = rz * 1000 + COLLIDE_PADDING;
    if spec_solid_at(t, spec_round(p.x as int), spec_round(p.y as int), rz - 1) && (p.z as int)
        < margin {
        Translation { x: p.x, y: p.y, z: margin as i64 }
    } else {
        p
    }
}

/// One collision phase: the block in front of the player; the z
/// component is clamped down to the block face minus the margin.
pub open spec fn spec_phase_front(t: Terrain, p: Translation) -> Translation {
    let rz = spec_round(p.z as int);
    let margin = rz * 1000 - COLLIDE_PADDING;
    if spec_solid_at(t, spec_round(p.x as int), spec_round(p.y as int), rz + 1) && (p.z as int)
        > margin {
        Translation { x: p.x, y: p.y, z: margin as i64 }
    } else {
        p
    }
}

/// One collision phase: the block above the player; the y component is
/// clamped down to the block face minus the margin.
pub open spec fn spec_phase_above(t: Terrain, p: Translation) -> Translation {
    let ry = spec_round(p.y as int);
    let margin = ry * 1000 - COLLIDE_PADDING;
    if spec_solid_at(t, spec_round(p.x as int), ry + 1, spec_round(p.z as int)) && (p.y as int)
        > margin {
        Translation { x: p.x, y: margin as i64, z: p.z }
    } else {
        p
    }
}

/// One collision phase: the block below the player; the y component is
/// clamped up to the block face plus the margin.
pub open spec fn spec_phase_below(t: Terrain, p: Translation) -> Translation {
    let ry = spec_round(p.y as int);
    let margin = ry * 1000 + COLLIDE_PADDING;
    if spec_solid_at(t, spec_round(p.x as int), ry - 1, spec_round(p.z as int)) && (p.y as int)
        < margin {
        Translation { x: p.x, y: margin as i64, z: p.z }
    } else {
        p
    }
}

/// One collision phase: the block to the player's left; the x
/// component is clamped up to the block face plus the margin.
pub open spec fn spec_phase_left(t: Terrain, p: Translation) -> Translation {
    let rx = spec_round(p.x as int);
    let margin = rx * 1000 + COLLIDE_PADDING;
    if spec_solid_at(t, rx - 1, spec_round(p.y as int), spec_round(p.z as int)) && (p.x as int)
        < margin {
        Translation { x: margin as i64, y: p.y, z: p.z }
    } else {
        p
    }
}

/// One collision phase: the block to the player's right; the x
/// component is clamped down to the block face minus the margin.
pub open spec fn spec_phase_right(t: Terrain, p: Translation) -> Translation {
    let rx = spec_round(p.x as int);
    let margin = rx * 1000 - COLLIDE_PADDING;
    if spec_solid_at(t, rx + 1, spec_round(p.y as int), spec_round(p.z as int)) && (p.x as int)
        > margin {
        Translation { x: margin as i64, y: p.y, z: p.z }
    } else {
        p
    }
}

/// The collision-resolved position: the six per-axis phases applied in
/// a fixed order, each seeing the clamps of the previous ones.
pub open spec fn spec_collide(t: Terrain, p: Translation) -> Translation {
    spec_phase_right(
        t,
        spec_phase_left(
            t,
            spec_phase_below(t, spec_phase_above(t, spec_phase_front(t, spec_phase_back(t, p)))),
        ),
    )
}

/// Collision clamps one axis at a time: each phase leaves the two
/// orthogonal components of the position unchanged, and when it
/// clamps, the touched component lands exactly on the probed block's
/// face offset by the collision margin.
pub proof fn lemma_collide_axis_independence(t: Terrain, p: Translation)
    requires
        p.in_reach(),
    ensures
        spec_phase_back(t, p).x == p.x && spec_phase_back(t, p).y == p.y,
        spec_phase_front(t, p).x == p.x && spec_phase_front(t, p).y == p.y,
        spec_phase_above(t, p).x == p.x && spec_phase_above(t, p).z == p.z,
        spec_phase_below(t, p).x == p.x && spec_phase_below(t, p).z == p.z,
        spec_phase_left(t, p).y == p.y && spec_phase_left(t, p).z == p.z,
        spec_phase_right(t, p).y == p.y && spec_phase_right(t, p).z == p.z,
        spec_phase_back(t, p) != p ==> spec_phase_back(t, p).z == spec_round(p.z as int) * 1000
            + COLLIDE_PADDING,
        spec_phase_front(t, p) != p ==> spec_phase_front(t, p).z == spec_round(p.z as int) * 1000
            - COLLIDE_PADDING,
        spec_phase_above(t, p) != p ==> spec_phase_above(t, p).y == spec_round(p.y as int) * 1000
            - COLLIDE_PADDING,
        spec_phase_below(t, p) != p ==> spec_phase_below(t, p).y == spec_round(p.y as int) * 1000
            + COLLIDE_PADDING,
        spec_phase_left(t, p) != p ==> spec_phase_left(t, p).x == spec_round(p.x as int) * 1000
            + COLLIDE_PADDING,
        spec_phase_right(t, p) != p ==> spec_phase_right(t, p).x == spec_round(p.x as int) * 1000
            - COLLIDE_PADDING,
{
    lemma_round_bound(p.x as int, WORLD_LIMIT as int + 2000);
    lemma_round_bound(p.y as int, WORLD_LIMIT as int + 2000);
    lemma_round_bound(p.z as int, WORLD_LIMIT as int + 2000);
}

/// Eviction is exact: a resident entry within the retention radius of
/// the center survives the eviction filter, and one beyond it does
/// not appear in the result.
pub proof fn lemma_eviction_membership(
    s: Seq<((i32, i32, i32), Sector)>,
    center: (i32, i32, i32),
    i: int,
)
    requires
        0 <= i < s.len(),
    ensures
        spec_retained(s[i], center) ==> s.filter(
            |e: ((i32, i32, i32), Sector)| spec_retained(e, center),
        ).contains(s[i]),
        !spec_retained(s[i], center) ==> !s.filter(
            |e: ((i32, i32, i32), Sector)| spec_retained(e, center),
        ).contains(s[i]),
{
    s.filter_lemma(|e: ((i32, i32, i32), Sector)| spec_retained(e, center));
    let kept = s.filter(|e: ((i32, i32, i32), Sector)| spec_retained(e, center));
    if !spec_retained(s[i], center) && kept.contains(s[i]) {
        let j = choose|j: int| 0 <= j < kept.len() && kept[j] == s[i];
        assert(spec_retained(kept[j], center));
    }
}

/// Drawable manager for world terrain: the map of resident sectors,
/// keyed by sector grid coordinates.
pub struct Terrain {
    sectors: Vec<((i32, i32, i32), Sector)>,
}

impl View for Terrain {
    type V = Seq<((i32, i32, i32), Sector)>;

    closed spec fn view(&self) -> Seq<((i32, i32, i32), Sector)> {
        self.sectors@
    }
}

impl Terrain {
    /// No coordinate is resident twice, and every resident sector's
    /// storage is fully sized.
    pub open spec fn wf(self) -> bool {
        &&& forall|i: int, j: int|
            0 <= i < j < self.view().len() ==> (#[trigger] self.view()[i]).0 != (
            #[trigger] self.view()[j]).0
        &&& forall|i: int| 0 <= i < self.view().len() ==> (#[trigger] self.view()[i]).1.wf()
    }

    /// Whether a sector is resident at these grid coordinates.
    pub open spec fn spec_resident(self, k: (i32, i32, i32)) -> bool {
        exists|i: int| 0 <= i < self.view().len() && (#[trigger] self.view()[i]).0 == k
    }

    /// The resident sector at these grid coordinates, if any.
    pub open spec fn spec_find(self, k: (i32, i32, i32)) -> Option<Sector> {
        if self.spec_resident(k) {
            Some(
                self.view()[choose|i: int|
                    0 <= i < self.view().len() && (#[trigger] self.view()[i]).0 == k].1,
            )
        } else {
            None
        }
    }

    /// Create a new, empty `Terrain`.
    pub fn new() -> (r: Terrain)
        ensures
            r@ == Seq::<((i32, i32, i32), Sector)>::empty(),
            r.wf(),
    {
        Terrain { sectors: Vec::new() }
    }

    /// The number of resident sectors.
    pub fn len(&self) -> (r: usize)
        ensures
            r == self@.len(),
    {
        self.sectors.len()
    }

    /// Whether a sector is resident at these grid coordinates.
    pub fn resident(&self, k: (i32, i32, i32)) -> (r: bool)
        ensures
            r == self.spec_resident(k),
    {
        let mut i: usize = 0;
        while i < self.sectors.len()
            invariant
                i <= self@.len(),
                forall|j: int| 0 <= j < i ==> (#[trigger] self@[j]).0 != k,
            decreases self@.len() - i,
        {
            let e = &self.sectors[i];
            if e.0.0 == k.0 && e.0.1 == k.1 && e.0.2 == k.2 {
                return true;
            }
            i = i + 1;
        }
        false
    }

    /// Look up the resident sector at these grid coordinates.
    pub fn get_sector(&self, k: (i32, i32, i32)) -> (r: Option<&Sector>)
        requires
            self.wf(),
        ensures
            (r is Some) == self.spec_resident(k),
            r is Some ==> Some(*r->0) == self.spec_find(k),
    {
        let mut i: usize = 0;
        while i < self.sectors.len()
            invariant
                i <= self@.len(),
                forall|j: int| 0 <= j < i ==> (#[trigger] self@[j]).0 != k,
                self.wf(),
            decreases self@.len() - i,
        {
            let e = &self.sectors[i];
            if e.0.0 == k.0 && e.0.1 == k.1 && e.0.2 == k.2 {
                proof {
                    let w = choose|w: int|
                        0 <= w < self@.len() && (#[trigger] self@[w]).0 == k;
                    if w != i {
                        assert(self@[w].0 != self@[i as int].0);
                    }
                }
                return Some(&self.sectors[i].1);
            }
            i = i + 1;
        }
        None
    }

    /// Install a generated sector: build its `Sector` (attaching a
    /// render model only when something must be drawn) and insert it
    /// at its coordinates, replacing any sector already resident
    /// there.
    #[verifier::loop_isolation(false)]
    pub fn insert_generated(&mut self, g: Generated)
        requires
            old(self).wf(),
            g.list.wf(),
        ensures
            final(self).wf(),
            !old(self).spec_resident(g.pos) ==> {
                &&& final(self)@.len() == old(self)@.len() + 1
                &&& final(self)@.subrange(0, old(self)@.len() as int) == old(self)@
                &&& final(self)@.last().0 == g.pos
                &&& final(self)@.last().1.spec_is_new_from(g.pos, g.list, g.vertices@)
            },
            old(self).spec_resident(g.pos) ==> {
                &&& final(self)@.len() == old(self)@.len()
                &&& exists|i: int|
                    {
                        &&& 0 <= i < old(self)@.len()
                        &&& (#[trigger] old(self)@[i]).0 == g.pos
                        &&& final(self)@[i].0 == g.pos
                        &&& final(self)@[i].1.spec_is_new_from(g.pos, g.list, g.vertices@)
                        &&& forall|j: int|
                            0 <= j < old(self)@.len() && j != i ==> final(self)@[j] == old(
                                self,
                            )@[j]
                    }
            },
    {
        let ghost g0 = g;
        let pos = g.pos;
        let sector = Sector::new(g.pos, g.list, g.vertices);
        let mut i: usize = 0;
        while i < self.sectors.len()
            invariant
                i <= self@.len(),
                forall|j: int| 0 <= j < i ==> (#[trigger] self@[j]).0 != pos,
                self == old(self),
            decreases self@.len() - i,
        {
            let e = &self.sectors[i];
            if e.0.0 == pos.0 && e.0.1 == pos.1 && e.0.2 == pos.2 {
                let ghost before = self.sectors@;
                let ghost entry = (pos, sector);
                self.sectors.set(i, (pos, sector));
                proof {
                    assert(self.sectors@ == before.update(i as int, entry));
                }
                return ;
            }
            i = i + 1;
        }
        self.sectors.push((pos, sector));
        proof {
            assert(self@.subrange(0, old(self)@.len() as int) =~= old(self)@);
        }
    }

    /// Look up the block at a whole world coordinate, as collision
    /// sees it: absent when no sector is resident there, and absent
    /// for a resident sector that has something to draw but no render
    /// model.
    pub fn visible_block_at(&self, wx: i64, wy: i64, wz: i64) -> (r: Option<Block>)
        requires
            self.wf(),
            -64_000_000_000 <= wx <= 64_000_000_000,
            -64_000_000_000 <= wy <= 64_000_000_000,
            -64_000_000_000 <= wz <= 64_000_000_000,
        ensures
            r == spec_visible_block(*self, wx as int, wy as int, wz as int),
    {
        let sx = floor_div_sector(wx);
        let sy = floor_div_sector(wy);
        let sz = floor_div_sector(wz);
        proof {
            assert(-2000000000 <= wx as int / 32 <= 2000000000 && 0 <= wx - 32 * (wx as int / 32)
                < 32 && -2000000000 <= wy as int / 32 <= 2000000000 && 0 <= wy - 32 * (wy as int
                / 32) < 32 && -2000000000 <= wz as int / 32 <= 2000000000 && 0 <= wz - 32 * (
            wz as int / 32) < 32) by (nonlinear_arith)
                requires
                    -64_000_000_000 <= wx <= 64_000_000_000,
                    -64_000_000_000 <= wy <= 64_000_000_000,
                    -64_000_000_000 <= wz <= 64_000_000_000,
            ;
        }
        let s = (sx as i32, sy as i32, sz as i32);
        match self.get_sector(s) {
            Some(sector) => {
                if sector.model().is_none() && sector.blocks().needs_rendering() {
                    None
                } else {
                    let lx = (wx - sx * SECTOR_SIZE as i64) as u8;
                    let ly = (wy - sy * SECTOR_SIZE as i64) as u8;
                    let lz = (wz - sz * SECTOR_SIZE as i64) as u8;
                    Some(sector.blocks().get(SectorSpaceCoords::new(lx, ly, lz)))
                }
            },
            None => None,
        }
    }

    /// Get the block at this position in **world** coords. If no
    /// sector is resident there, or the sector is generated but not
    /// rendered, `None` is returned.
    pub fn get_visible_block(&self, pos: &Translation) -> (r: Option<Block>)
        requires
            self.wf(),
            pos.in_reach(),
        ensures
            r == spec_visible_block(
                *self,
                spec_round(pos.x as int),
                spec_round(pos.y as int),
                spec_round(pos.z as int),
            ),
    {
        proof {
            lemma_round_bound(pos.x as int, WORLD_LIMIT as int + 2000);
            lemma_round_bound(pos.y as int, WORLD_LIMIT as int + 2000);
            lemma_round_bound(pos.z as int, WORLD_LIMIT as int + 2000);
        }
        let wx = round_milli(pos.x);
        let wy = round_milli(pos.y);
        let wz = round_milli(pos.z);
        self.visible_block_at(wx, wy, wz)
    }

    /// Adjust for collisions with the terrain: resolve each of the six
    /// directions in turn, clamping the penetrating axis to the solid
    /// block's face offset by the collision margin and leaving the
    /// other axes unchanged.
    #[verifier::rlimit(100)]
    pub fn collide(&self, translation: &mut Translation)
        requires
            self.wf(),
            old(translation).in_world(),
        ensures
            *final(translation) == spec_collide(*self, *old(translation)),
            final(translation).in_reach(),
    {
        let ghost p0 = *translation;
        // back
        let rz = round_milli(translation.z);
        proof {
            lemma_round_bound(translation.z as int, WORLD_LIMIT as int + 2000);
            lemma_round_close(translation.z as int);
        }
        let solid = match self.visible_block_at(
            round_milli(translation.x),
            round_milli(translation.y),
            rz - 1,
        ) {
            Some(b) => !b.is_air(),
            None => false,
        };
        let margin = rz * FIXED_SCALE + COLLIDE_PADDING;
        if solid && translation.z < margin {
            translation.z = margin;
        }
        let ghost p1 = *translation;
        proof {
            assert(p1 == spec_phase_back(*self, p0));
            assert(p1.in_reach());
        }
        // front
        let rz = round_milli(translation.z);
        proof {
            lemma_round_bound(translation.z as int, WORLD_LIMIT as int + 2000);
            lemma_round_close(translation.z as int);
        }
        let solid = match self.visible_block_at(
            round_milli(translation.x),
            round_milli(translation.y),
            rz + 1,
        ) {
            Some(b) => !b.is_air(),
            None => false,
        };
        let margin = rz * FIXED_SCALE - COLLIDE_PADDING;
        if solid && translation.z > margin {
            translation.z = margin;
        }
        let ghost p2 = *translation;
        proof {
            assert(p2 == spec_phase_front(*self, p1));
            assert(p2.in_reach());
        }
        // above
        let ry = round_milli(translation.y);
        proof {
            lemma_round_bound(translation.y as int, WORLD_LIMIT as int + 2000);
            lemma_round_close(translation.y as int);
        }
        let solid = match self.visible_block_at(
            round_milli(translation.x),
            ry + 1,
            round_milli(translation.z),
        ) {
            Some(b) => !b.is_air(),
            None => false,
        };
        let margin = ry * FIXED_SCALE - COLLIDE_PADDING;
        if solid && translation.y > margin {
            translation.y = margin;
        }
        let ghost p3 = *translation;
        proof {
            assert(p3 == spec_phase_above(*self, p2));
            assert(p3.in_reach());
        }
        // below
        let ry = round_milli(translation.y);
        proof {
            lemma_round_bound(translation.y as int, WORLD_LIMIT as int + 2000);
            lemma_round_close(translation.y as int);
        }
        let solid = match self.visible_block_at(
            round_milli(translation.x),
            ry - 1,
            round_milli(translation.z),
        ) {
            Some(b) => !b.is_air(),
            None => false,
        };
        let margin = ry * FIXED_SCALE + COLLIDE_PADDING;
        if solid && translation.y < margin {
            translation.y = margin;
        }
        let ghost p4 = *translation;
        proof {
            assert(p4 == spec_phase_below(*self, p3));
            assert(p4.in_reach());
        }
        // left
        let rx = round_milli(translation.x);
        proof {
            lemma_round_bound(translation.x as int, WORLD_LIMIT as int + 2000);
            lemma_round_close(translation.x as int);
        }
        let solid = match self.visible_block_at(
            rx - 1,
            round_milli(translation.y),
            round_milli(translation.z),
        ) {
            Some(b) => !b.is_air(),
            None => false,
        };
        let margin = rx * FIXED_SCALE + COLLIDE_PADDING;
        if solid && translation.x < margin {
            translation.x = margin;
        }
        let ghost p5 = *translation;
        proof {
            assert(p5 == spec_phase_left(*self, p4));
            assert(p5.in_reach());
        }
        // right
        let rx = round_milli(translation.x);
        proof {
            lemma_round_bound(translation.x as int, WORLD_LIMIT as int + 2000);
            lemma_round_close(translation.x as int);
        }
        let solid = match self.visible_block_at(
            rx + 1,
            round_milli(translation.y),
            round_milli(translation.z),
        ) {
            Some(b) => !b.is_air(),
            None => false,
        };
        let margin = rx * FIXED_SCALE - COLLIDE_PADDING;
        if solid && translation.x > margin {
            translation.x = margin;
        }
        proof {
            assert(*translation == spec_phase_right(*self, p5));
            assert(translation.in_reach());
        }
    }

    /// The grid coordinates of the sectors to draw this frame: the
    /// resident sectors that have a render model and whose bounds the
    /// frustum does not reject, in residency order.
    #[verifier::loop_isolation(false)]
    pub fn render_set(&self, frustum: &Frustum) -> (r: Vec<(i32, i32, i32)>)
        requires
            self.wf(),
        ensures
            r@ == self@.filter(
                |e: ((i32, i32, i32), Sector)|
                    e.1.spec_model() is Some && spec_sector_visible(*frustum, e.0),
            ).map_values(|e: ((i32, i32, i32), Sector)| e.0),
    {
        let ghost pred = |e: ((i32, i32, i32), Sector)|
            e.1.spec_model() is Some && spec_sector_visible(*frustum, e.0);
        let mut out: Vec<(i32, i32, i32)> = Vec::new();
        let mut i: usize = 0;
        while i < self.sectors.len()
            invariant
                i <= self@.len(),
                out@ == self@.subrange(0, i as int).filter(pred).map_values(
                    |e: ((i32, i32, i32), Sector)| e.0,
                ),
            decreases self@.len() - i,
        {
            let e = &self.sectors[i];
            if e.1.model().is_some() && sector_visible(frustum, e.0) {
                out.push(e.0);
            }
            i = i + 1;
            proof {
                assert(self@.subrange(0, i as int) =~= self@.subrange(0, i - 1).push(
                    self@[i - 1],
                ));
                Seq::lemma_filter_push(self@.subrange(0, i - 1), self@[i - 1], pred);
                assert(out@ =~= self@.subrange(0, i as int).filter(pred).map_values(
                    |e: ((i32, i32, i32), Sector)| e.0,
                ));
            }
        }
        proof {
            assert(self@.subrange(0, self@.len() as int) =~= self@);
        }
        out
    }

    /// Perform a frame update of the scheduler around the camera's
    /// sector: request the missing sectors of the near-to-far
    /// visitation grid (only while the pending set is under its cap),
    /// then evict every resident sector beyond the retention radius.
    /// Requesting an already-pending or already-resident coordinate
    /// changes nothing.
    #[verifier::loop_isolation(false)]
    pub fn update(&mut self, pending: &mut PendingSet, center: (i32, i32, i32))
        requires
            old(self).wf(),
            old(pending).wf(),
            -2000000000 <= center.0 <= 2000000000,
            -2000000000 <= center.1 <= 2000000000,
            -2000000000 <= center.2 <= 2000000000,
        ensures
            final(self).wf(),
            final(pending).wf(),
            final(pending).spec_exiting() == old(pending).spec_exiting(),
            final(pending)@ == if old(pending)@.len() < MAX_PENDING_REQUESTS {
                spec_fill(old(pending)@, old(self)@, center, 729)
            } else {
                old(pending)@
            },
            final(self)@ == old(self)@.filter(
                |e: ((i32, i32, i32), Sector)| spec_retained(e, center),
            ),
    {
        if pending.len() < MAX_PENDING_REQUESTS {
            let mut n: usize = 0;
            while n < 729
                invariant
                    n <= 729,
                    pending@ == spec_fill(old(pending)@, old(self)@, center, n as int),
                    pending.wf(),
                    pending.spec_exiting() == old(pending).spec_exiting(),
                decreases 729 - n,
            {
                let xo = order(n / 81);
                let yo = order((n / 9) % 9);
                let zo = order(n % 9);
                let c = (center.0 + xo, center.1 + yo, center.2 + zo);
                proof {
                    assert(c == spec_grid_coord(center, n as int));
                }
                if !self.resident(c) {
                    pending.request(c);
                }
                n = n + 1;
                proof {
                    assert(pending@ == spec_fill(old(pending)@, old(self)@, center, n as int));
                }
            }
        }
        let ghost total = self@;
        let ghost mut done: int = 0;
        let mut kept: Vec<((i32, i32, i32), Sector)> = Vec::new();
        while self.sectors.len() > 0
            invariant
                0 <= done <= total.len(),
                self.sectors@ == total.subrange(done, total.len() as int),
                kept@ == total.subrange(0, done).filter(
                    |e: ((i32, i32, i32), Sector)| spec_retained(e, center),
                ),
                forall|a: int|
                    0 <= a < kept@.len() ==> exists|p: int|
                        0 <= p < done && total[p] == (#[trigger] kept@[a]),
                forall|a: int, b: int|
                    0 <= a < b < kept@.len() ==> (#[trigger] kept@[a]).0 != (
                    #[trigger] kept@[b]).0,
                forall|a: int| 0 <= a < kept@.len() ==> (#[trigger] kept@[a]).1.wf(),
            decreases self.sectors@.len(),
        {
            let e = self.sectors.remove(0);
            let ghost ge = e;
            proof {
                assert(ge == total[done]);
            }
            if dist_sq_below(e.0, center, RETENTION_DIST_SQ) {
                let ghost kept0 = kept@;
                kept.push(e);
                proof {
                    assert forall|a: int| 0 <= a < kept0.len() implies (
                    #[trigger] kept0[a]).0 != ge.0 by {
                        let p = choose|p: int| 0 <= p < done && total[p] == kept0[a];
                        assert(total[p].0 != total[done].0);
                    }
                }
            }
            proof {
                assert(total.subrange(0, done + 1) =~= total.subrange(0, done).push(ge));
                Seq::lemma_filter_push(
                    total.subrange(0, done),
                    ge,
                    |e: ((i32, i32, i32), Sector)| spec_retained(e, center),
                );
                assert(self.sectors@ =~= total.subrange(done + 1, total.len() as int));
                done = done + 1;
            }
        }
        self.sectors = kept;
        proof {
            assert(total.subrange(0, total.len() as int) =~= total);
            assert(self@ == old(self)@.filter(
                |e: ((i32, i32, i32), Sector)| spec_retained(e, center),
            ));
        }
    }
}

} // verus!
