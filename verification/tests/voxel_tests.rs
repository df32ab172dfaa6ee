//! Tests for blocks, sector-local coordinates and block storage.

use voxel_world::voxel::{Block, BlockList, SectorSpaceCoords};
use voxel_world::{SECTOR_LEN, SECTOR_SIZE_PAD};

#[test]
fn block_air_predicates() {
    assert!(Block::Air.is_air());
    assert!(!Block::Air.needs_rendering());
    assert!(!Block::Grass.is_air());
    assert!(Block::Grass.needs_rendering());
    assert!(Block::Limestone.needs_rendering());
    assert!(Block::Leaves.needs_rendering());
}

#[test]
fn block_atlas_indices() {
    assert_eq!(Block::Limestone.atlas_index(), 0);
    assert_eq!(Block::Loam.atlas_index(), 1);
    assert_eq!(Block::Grass.atlas_index(), 2);
    assert_eq!(Block::Tree.atlas_index(), 3);
    assert_eq!(Block::Leaves.atlas_index(), 4);
}

#[test]
fn sector_constants() {
    assert_eq!(SECTOR_SIZE_PAD, 34);
    assert_eq!(SECTOR_LEN, 34 * 34 * 34);
}

#[test]
fn coords_accessors() {
    let c = SectorSpaceCoords::new(1, 2, 3);
    assert_eq!(c.x(), 1);
    assert_eq!(c.y(), 2);
    assert_eq!(c.z(), 3);
}

#[test]
fn coords_neighbors_inside() {
    let c = SectorSpaceCoords::new(10, 11, 12);
    assert_eq!(c.back(), Some(SectorSpaceCoords::new(10, 11, 11)));
    assert_eq!(c.front(), Some(SectorSpaceCoords::new(10, 11, 13)));
    assert_eq!(c.top(), Some(SectorSpaceCoords::new(10, 12, 12)));
    assert_eq!(c.bottom(), Some(SectorSpaceCoords::new(10, 10, 12)));
    assert_eq!(c.left(), Some(SectorSpaceCoords::new(9, 11, 12)));
    assert_eq!(c.right(), Some(SectorSpaceCoords::new(11, 11, 12)));
}

#[test]
fn coords_neighbors_at_boundaries() {
    let low = SectorSpaceCoords::new(0, 0, 0);
    assert_eq!(low.back(), None);
    assert_eq!(low.bottom(), None);
    assert_eq!(low.left(), None);
    let hi = SectorSpaceCoords::new(33, 33, 33);
    assert_eq!(hi.front(), None);
    assert_eq!(hi.top(), None);
    assert_eq!(hi.right(), None);
}

#[test]
fn index_round_trip_all_coords() {
    // The row-major index is injective and `from_index` inverts it:
    // walk every valid coordinate and check the round trip, and that
    // each index is hit exactly once.
    let mut seen = vec![false; SECTOR_LEN];
    for x in 0..SECTOR_SIZE_PAD as u8 {
        for y in 0..SECTOR_SIZE_PAD as u8 {
            for z in 0..SECTOR_SIZE_PAD as u8 {
                let c = SectorSpaceCoords::new(x, y, z);
                let i = BlockList::index(c);
                assert!(i < SECTOR_LEN);
                assert!(!seen[i], "index hit twice: not injective");
                seen[i] = true;
                let back = SectorSpaceCoords::from_index(i);
                assert_eq!(back, c);
            }
        }
    }
    assert!(seen.iter().all(|&s| s));
}

#[test]
fn index_formula() {
    let c = SectorSpaceCoords::new(1, 2, 3);
    assert_eq!(BlockList::index(c), 1 + 2 * 34 + 3 * 34 * 34);
    assert_eq!(BlockList::index(SectorSpaceCoords::new(0, 0, 0)), 0);
    assert_eq!(BlockList::index(SectorSpaceCoords::new(33, 33, 33)), SECTOR_LEN - 1);
}

#[test]
fn block_list_get_set() {
    let mut list = BlockList::new_air();
    assert_eq!(list.get(SectorSpaceCoords::new(0, 0, 0)), Block::Air);
    list.set(SectorSpaceCoords::new(0, 0, 0), Block::Tree);
    list.set(SectorSpaceCoords::new(33, 33, 33), Block::Loam);
    assert_eq!(list.get(SectorSpaceCoords::new(0, 0, 0)), Block::Tree);
    assert_eq!(list.get(SectorSpaceCoords::new(33, 33, 33)), Block::Loam);
    assert_eq!(list.get(SectorSpaceCoords::new(1, 0, 0)), Block::Air);
}

#[test]
fn block_list_needs_rendering() {
    let mut list = BlockList::new_air();
    assert!(!list.needs_rendering());
    list.set(SectorSpaceCoords::new(7, 8, 9), Block::Grass);
    assert!(list.needs_rendering());
}

#[test]
fn block_list_from_vec() {
    let blocks = vec![Block::Limestone; SECTOR_LEN];
    let list = BlockList::new(blocks);
    assert_eq!(list.get(SectorSpaceCoords::new(16, 16, 16)), Block::Limestone);
    assert!(list.needs_rendering());
}
