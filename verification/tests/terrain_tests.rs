//! Tests for the streaming scheduler, frustum culling and collision.

use voxel_world::frustum::{Frustum, Plane, sector_visible};
use voxel_world::pending::PendingSet;
use voxel_world::terrain::{Generated, Terrain, Translation, produce, sector_at};
use voxel_world::mesh_gen::{AdjacentSectors, generate_block_vertices};
use voxel_world::voxel::{Block, BlockList, SectorSpaceCoords};
use voxel_world::world_gen::WorldGen;

/// An axis-aligned box standing in for a camera frustum: it accepts
/// everything within 100 world units of the origin along each axis and
/// in front of the near plane at z = 0 looking toward negative z.
fn box_frustum() -> Frustum {
    Frustum::new(
        Plane::new(-1000, 0, 0, 100_000),
        Plane::new(1000, 0, 0, 100_000),
        Plane::new(0, 1000, 0, 100_000),
        Plane::new(0, -1000, 0, 100_000),
        Plane::new(0, 0, 1000, 2_000_000),
        Plane::new(0, 0, -1000, 0),
    )
}

/// A frustum that rejects every sector outright.
fn empty_frustum() -> Frustum {
    let p = Plane::new(0, 0, 0, -100_000);
    Frustum::new(p, p, p, p, p, p)
}

#[test]
fn frustum_sector_on_forward_axis_is_visible() {
    // The camera looks toward negative z; a sector straight ahead
    // within the clipping planes is classified visible.
    let f = box_frustum();
    assert!(sector_visible(&f, (0, 0, -3)));
    assert!(sector_visible(&f, (0, 0, -1)));
}

#[test]
fn frustum_far_sector_is_not_visible() {
    let f = box_frustum();
    // Far outside to the right.
    assert!(!sector_visible(&f, (1000, 0, -3)));
    // Behind the near plane.
    assert!(!sector_visible(&f, (0, 0, 100)));
}

#[test]
fn frustum_boundary_sector_is_kept() {
    // A sector overlapping a plane is conservatively kept: its center
    // is outside the 100-unit box but by less than a sector length.
    let f = box_frustum();
    assert!(sector_visible(&f, (3, 0, -3)));
}

#[test]
fn pending_duplicate_request_does_not_grow() {
    let mut pending = PendingSet::new();
    pending.request((1, 2, 3));
    assert_eq!(pending.len(), 1);
    pending.request((1, 2, 3));
    assert_eq!(pending.len(), 1);
    pending.request((4, 5, 6));
    assert_eq!(pending.len(), 2);
    assert!(pending.contains((1, 2, 3)));
    assert!(pending.contains((4, 5, 6)));
    assert!(!pending.contains((7, 8, 9)));
}

#[test]
fn pending_claims_oldest_first() {
    let mut pending = PendingSet::new();
    pending.request((1, 0, 0));
    pending.request((2, 0, 0));
    pending.request((3, 0, 0));
    assert_eq!(pending.claim_next(), Some((1, 0, 0)));
    assert_eq!(pending.claim_next(), Some((2, 0, 0)));
    assert_eq!(pending.len(), 1);
    assert_eq!(pending.claim_next(), Some((3, 0, 0)));
    assert_eq!(pending.claim_next(), None);
    assert_eq!(pending.len(), 0);
}

#[test]
fn pending_exiting_flag() {
    let mut pending = PendingSet::new();
    assert!(!pending.is_exiting());
    pending.request((0, 0, 0));
    pending.set_exiting();
    assert!(pending.is_exiting());
    assert_eq!(pending.len(), 1);
}

#[test]
fn sector_at_world_positions() {
    assert_eq!(sector_at(&Translation::new(0, 0, 0)), (0, 0, 0));
    assert_eq!(sector_at(&Translation::new(31_400, 5_000, -600)), (0, 0, -1));
    assert_eq!(sector_at(&Translation::new(32_000, -33_000, 64_000)), (1, -2, 2));
    // Rounding happens before the division: 31.6 rounds to 32.
    assert_eq!(sector_at(&Translation::new(31_600, 0, 0)), (1, 0, 0));
}

#[test]
fn update_requests_missing_sectors_once() {
    let gen = WorldGen::new();
    let mut terrain = Terrain::new();
    let mut pending = PendingSet::new();
    terrain.insert_generated(produce(&gen, (0, 0, 0)));
    terrain.update(&mut pending, (0, 0, 0));
    // The visitation grid spans 9 offsets per axis; the resident
    // sector is not re-requested.
    assert_eq!(pending.len(), 9 * 9 * 9 - 1);
    assert!(!pending.contains((0, 0, 0)));
    assert!(pending.contains((0, 0, -1)));
    assert!(pending.contains((4, -4, 4)));
    // A second update finds everything pending or resident: no growth.
    terrain.update(&mut pending, (0, 0, 0));
    assert_eq!(pending.len(), 9 * 9 * 9 - 1);
}

#[test]
fn update_respects_pending_cap() {
    let mut terrain = Terrain::new();
    let mut pending = PendingSet::new();
    for i in 0..32 {
        pending.request((100 + i, 0, 0));
    }
    terrain.update(&mut pending, (0, 0, 0));
    // At the cap, the update requests nothing more.
    assert_eq!(pending.len(), 32);
    assert!(!pending.contains((0, 0, 0)));
}

#[test]
fn update_evicts_far_sectors_and_keeps_near_ones() {
    let gen = WorldGen::new();
    let mut terrain = Terrain::new();
    let mut pending = PendingSet::new();
    terrain.insert_generated(produce(&gen, (0, 0, 0)));
    terrain.insert_generated(produce(&gen, (3, 0, 0)));
    terrain.insert_generated(produce(&gen, (20, 0, 0)));
    assert!(terrain.resident((20, 0, 0)));
    terrain.update(&mut pending, (0, 0, 0));
    // Squared distance 400 is beyond the retention radius of 280;
    // 0 and 9 are within it.
    assert!(terrain.resident((0, 0, 0)));
    assert!(terrain.resident((3, 0, 0)));
    assert!(!terrain.resident((20, 0, 0)));
}

#[test]
fn collide_clamps_penetrating_axis_only() {
    // Standing just inside the margin above the ground layer: the y
    // component is clamped to the block face plus the margin, x and z
    // stay untouched.
    let gen = WorldGen::new();
    let mut terrain = Terrain::new();
    terrain.insert_generated(produce(&gen, (0, 0, 0)));
    let mut t = Translation::new(5_000, 1_200, 5_000);
    terrain.collide(&mut t);
    assert_eq!(t, Translation::new(5_000, 1_300, 5_000));
}

#[test]
fn collide_leaves_free_position_unchanged() {
    let gen = WorldGen::new();
    let mut terrain = Terrain::new();
    terrain.insert_generated(produce(&gen, (0, 0, 0)));
    let mut t = Translation::new(5_000, 5_000, 5_000);
    terrain.collide(&mut t);
    assert_eq!(t, Translation::new(5_000, 5_000, 5_000));
}

#[test]
fn collide_sideways_against_solid_block() {
    // A hand-built sector with one solid block beside the player: the
    // x component is clamped up to the face margin.
    let mut list = BlockList::new_air();
    list.set(SectorSpaceCoords::new(4, 1, 5), Block::Limestone);
    let air = BlockList::new_air();
    let adjacent = AdjacentSectors {
        back: &air,
        front: &air,
        top: &air,
        bottom: &air,
        left: &air,
        right: &air,
    };
    let vertices = generate_block_vertices(&list, &adjacent);
    let mut terrain = Terrain::new();
    terrain.insert_generated(Generated { pos: (0, 0, 0), list, vertices });
    let mut t = Translation::new(5_200, 1_000, 5_000);
    terrain.collide(&mut t);
    assert_eq!(t, Translation::new(5_300, 1_000, 5_000));
}

#[test]
fn collide_ignores_unmeshed_all_air_sector() {
    // An all-air sector has no render model and nothing solid; the
    // position is untouched.
    let gen = WorldGen::new();
    let mut terrain = Terrain::new();
    terrain.insert_generated(produce(&gen, (0, 1, 0)));
    let mut t = Translation::new(5_000, 33_000, 5_000);
    terrain.collide(&mut t);
    assert_eq!(t, Translation::new(5_000, 33_000, 5_000));
}

#[test]
fn pipeline_end_to_end() {
    // A coordinate is requested, a worker claims it, generates and
    // meshes it, the result is installed by the update side, and the
    // sector is drawn exactly when the frustum keeps it.
    let gen = WorldGen::new();
    let mut terrain = Terrain::new();
    let mut pending = PendingSet::new();

    pending.request((0, 0, 0));
    let claimed = pending.claim_next();
    assert_eq!(claimed, Some((0, 0, 0)));
    assert_eq!(pending.len(), 0);

    let result = produce(&gen, claimed.unwrap());
    assert!(!result.vertices.is_empty());
    terrain.insert_generated(result);
    assert!(terrain.resident((0, 0, 0)));

    let visible = terrain.render_set(&box_frustum());
    assert!(visible.contains(&(0, 0, 0)));
    let hidden = terrain.render_set(&empty_frustum());
    assert!(!hidden.contains(&(0, 0, 0)));
}

#[test]
fn render_set_skips_all_air_sectors() {
    // An all-air sector is resident but has no model, so it is never
    // part of the render set even under a frustum that keeps all.
    let gen = WorldGen::new();
    let mut terrain = Terrain::new();
    terrain.insert_generated(produce(&gen, (0, 1, 0)));
    terrain.insert_generated(produce(&gen, (0, 0, 0)));
    let visible = terrain.render_set(&box_frustum());
    assert!(!visible.contains(&(0, 1, 0)));
    assert!(visible.contains(&(0, 0, 0)));
}

#[test]
fn produce_is_deterministic() {
    let gen = WorldGen::new();
    let a = produce(&gen, (2, 0, -1));
    let b = produce(&gen, (2, 0, -1));
    assert_eq!(a.pos, b.pos);
    assert_eq!(a.vertices.len(), b.vertices.len());
    for (va, vb) in a.vertices.iter().zip(b.vertices.iter()) {
        assert_eq!(va, vb);
    }
}

#[test]
fn translation_slide() {
    let mut t = Translation::new(10, 20, 30);
    t.slide(1, -2, 3);
    assert_eq!(t, Translation::new(11, 18, 33));
}
