//! Tests for world generation and mesh generation.

use voxel_world::mesh_gen::{AdjacentSectors, generate_block_vertices};
use voxel_world::voxel::{Block, BlockList, SectorSpaceCoords};
use voxel_world::world_gen::WorldGen;
use voxel_world::{SECTOR_LEN, SECTOR_SIZE_PAD};

fn all_air() -> BlockList {
    BlockList::new_air()
}

#[test]
fn generate_is_deterministic() {
    // The same coordinates always yield byte-identical block contents.
    let gen = WorldGen::new();
    let a = gen.generate((3, -1, 2));
    let b = gen.generate((3, -1, 2));
    for i in 0..SECTOR_LEN {
        let c = SectorSpaceCoords::from_index(i);
        assert_eq!(a.get(c), b.get(c));
    }
}

#[test]
fn generate_below_band_is_all_solid() {
    let gen = WorldGen::new();
    let list = gen.generate((0, -2, 0));
    for i in 0..SECTOR_LEN {
        assert_eq!(list.get(SectorSpaceCoords::from_index(i)), Block::Grass);
    }
}

#[test]
fn generate_above_band_is_all_air() {
    let gen = WorldGen::new();
    let list = gen.generate((5, 1, -7));
    for i in 0..SECTOR_LEN {
        assert_eq!(list.get(SectorSpaceCoords::from_index(i)), Block::Air);
    }
    assert!(!list.needs_rendering());
}

#[test]
fn generate_surface_sector_has_one_ground_layer() {
    // In the sector at height zero the terrain band covers exactly the
    // bottom layer of cells.
    let gen = WorldGen::new();
    let list = gen.generate((0, 0, 0));
    for x in 0..SECTOR_SIZE_PAD as u8 {
        for z in 0..SECTOR_SIZE_PAD as u8 {
            assert_eq!(list.get(SectorSpaceCoords::new(x, 0, z)), Block::Grass);
            assert_eq!(list.get(SectorSpaceCoords::new(x, 1, z)), Block::Air);
            assert_eq!(list.get(SectorSpaceCoords::new(x, 33, z)), Block::Air);
        }
    }
}

#[test]
fn mesh_of_all_air_is_empty() {
    let list = all_air();
    let (b, f, t, bo, l, r) = (all_air(), all_air(), all_air(), all_air(), all_air(), all_air());
    let adjacent = AdjacentSectors {
        back: &b,
        front: &f,
        top: &t,
        bottom: &bo,
        left: &l,
        right: &r,
    };
    let vertices = generate_block_vertices(&list, &adjacent);
    assert_eq!(vertices.len(), 0);
}

#[test]
fn mesh_of_full_sector_has_boundary_faces_only() {
    // A sector filled with one solid block type against all-air
    // neighbors emits exactly the faces of its six outer surfaces:
    // no face between two adjacent solid blocks inside the sector.
    let gen = WorldGen::new();
    let list = gen.generate((0, -2, 0));
    let (b, f, t, bo, l, r) = (all_air(), all_air(), all_air(), all_air(), all_air(), all_air());
    let adjacent = AdjacentSectors {
        back: &b,
        front: &f,
        top: &t,
        bottom: &bo,
        left: &l,
        right: &r,
    };
    let vertices = generate_block_vertices(&list, &adjacent);
    // 6 surfaces of 34 x 34 faces, 6 vertices per face.
    assert_eq!(vertices.len(), 6 * 6 * (SECTOR_SIZE_PAD * SECTOR_SIZE_PAD));
}

#[test]
fn mesh_culls_face_between_two_solid_blocks() {
    // Two solid blocks side by side: the two faces where they touch
    // are hidden, leaving 10 visible faces instead of 12.
    let mut list = all_air();
    list.set(SectorSpaceCoords::new(5, 5, 5), Block::Grass);
    list.set(SectorSpaceCoords::new(6, 5, 5), Block::Grass);
    let (b, f, t, bo, l, r) = (all_air(), all_air(), all_air(), all_air(), all_air(), all_air());
    let adjacent = AdjacentSectors {
        back: &b,
        front: &f,
        top: &t,
        bottom: &bo,
        left: &l,
        right: &r,
    };
    let vertices = generate_block_vertices(&list, &adjacent);
    assert_eq!(vertices.len(), 10 * 6);
}

#[test]
fn mesh_single_block_vertices_exact() {
    // One solid block: 6 faces of 6 vertices, and the first quad (the
    // back face) carries the block's exact positions, atlas pixels and
    // face tag.
    let mut list = all_air();
    list.set(SectorSpaceCoords::new(10, 10, 10), Block::Grass);
    let (b, f, t, bo, l, r) = (all_air(), all_air(), all_air(), all_air(), all_air(), all_air());
    let adjacent = AdjacentSectors {
        back: &b,
        front: &f,
        top: &t,
        bottom: &bo,
        left: &l,
        right: &r,
    };
    let vertices = generate_block_vertices(&list, &adjacent);
    assert_eq!(vertices.len(), 36);
    // Grass has atlas index 2 and the tile edge is 16 pixels, so its
    // tile spans pixel columns 32..48.
    let v0 = vertices[0];
    assert_eq!((v0.x, v0.y, v0.z), (10, 10, 10));
    assert_eq!((v0.u, v0.v), (48, 16));
    assert_eq!(v0.face, 0);
    let v1 = vertices[1];
    assert_eq!((v1.x, v1.y, v1.z), (10, 11, 10));
    assert_eq!((v1.u, v1.v), (48, 0));
    let v2 = vertices[2];
    assert_eq!((v2.x, v2.y, v2.z), (11, 11, 10));
    assert_eq!((v2.u, v2.v), (32, 0));
    // The quad is two triangles: v0 v1 v2, then v0 v2 v3.
    assert_eq!(vertices[3], v0);
    assert_eq!(vertices[4], v2);
    let v5 = vertices[5];
    assert_eq!((v5.x, v5.y, v5.z), (11, 10, 10));
    assert_eq!((v5.u, v5.v), (32, 16));
}

#[test]
fn cross_sector_face_culled_when_neighbor_solid() {
    // A solid block on the sector's left boundary: when the left
    // neighbor's matching boundary block is solid too, no face is
    // emitted on the shared boundary; when it is air, the face is.
    let mut list = all_air();
    list.set(SectorSpaceCoords::new(0, 10, 10), Block::Grass);

    let mut solid_neighbor = all_air();
    solid_neighbor.set(SectorSpaceCoords::new(33, 10, 10), Block::Grass);
    let (b, f, t, bo, r) = (all_air(), all_air(), all_air(), all_air(), all_air());
    let adjacent = AdjacentSectors {
        back: &b,
        front: &f,
        top: &t,
        bottom: &bo,
        left: &solid_neighbor,
        right: &r,
    };
    let culled = generate_block_vertices(&list, &adjacent);
    assert_eq!(culled.len(), 5 * 6);

    let air_neighbor = all_air();
    let adjacent = AdjacentSectors {
        back: &b,
        front: &f,
        top: &t,
        bottom: &bo,
        left: &air_neighbor,
        right: &r,
    };
    let open = generate_block_vertices(&list, &adjacent);
    assert_eq!(open.len(), 6 * 6);
}

fn flat_columns(height: u8) -> (Vec<u8>, Vec<bool>) {
    let cols = SECTOR_SIZE_PAD * SECTOR_SIZE_PAD;
    (vec![height; cols], vec![false; cols])
}

fn column_of(x: usize, z: usize) -> usize {
    x + z * SECTOR_SIZE_PAD
}

#[test]
fn columns_fill_ground_to_elevation() {
    let gen = WorldGen::new();
    let (heights, trees) = flat_columns(5);
    let list = gen.generate_columns(&heights, &trees);
    for x in 0..SECTOR_SIZE_PAD as u8 {
        for z in 0..SECTOR_SIZE_PAD as u8 {
            assert_eq!(list.get(SectorSpaceCoords::new(x, 0, z)), Block::Grass);
            assert_eq!(list.get(SectorSpaceCoords::new(x, 4, z)), Block::Grass);
            assert_eq!(list.get(SectorSpaceCoords::new(x, 5, z)), Block::Air);
            assert_eq!(list.get(SectorSpaceCoords::new(x, 33, z)), Block::Air);
        }
    }
}

#[test]
fn columns_stamp_tree_with_canopy() {
    let gen = WorldGen::new();
    let (heights, mut trees) = flat_columns(10);
    trees[column_of(16, 16)] = true;
    let list = gen.generate_columns(&heights, &trees);
    // Ground below the stamp.
    assert_eq!(list.get(SectorSpaceCoords::new(16, 9, 16)), Block::Grass);
    // Trunk: the lower half of the stamp on the tree's own column.
    assert_eq!(list.get(SectorSpaceCoords::new(16, 10, 16)), Block::Tree);
    assert_eq!(list.get(SectorSpaceCoords::new(16, 13, 16)), Block::Tree);
    // Canopy: the upper half, spreading two blocks around the trunk.
    assert_eq!(list.get(SectorSpaceCoords::new(16, 14, 16)), Block::Leaves);
    assert_eq!(list.get(SectorSpaceCoords::new(16, 17, 16)), Block::Leaves);
    assert_eq!(list.get(SectorSpaceCoords::new(14, 15, 14)), Block::Leaves);
    assert_eq!(list.get(SectorSpaceCoords::new(18, 15, 18)), Block::Leaves);
    // Above and beyond the stamp: air.
    assert_eq!(list.get(SectorSpaceCoords::new(16, 18, 16)), Block::Air);
    assert_eq!(list.get(SectorSpaceCoords::new(13, 15, 16)), Block::Air);
    assert_eq!(list.get(SectorSpaceCoords::new(19, 15, 16)), Block::Air);
    // Next to the trunk below the canopy: air.
    assert_eq!(list.get(SectorSpaceCoords::new(15, 11, 16)), Block::Air);
}

#[test]
fn columns_skip_trees_near_edges_and_high_ground() {
    let gen = WorldGen::new();
    let (heights, mut trees) = flat_columns(10);
    // Too close to the sector edge: no tree is stamped.
    trees[column_of(2, 16)] = true;
    let list = gen.generate_columns(&heights, &trees);
    assert_eq!(list.get(SectorSpaceCoords::new(2, 10, 16)), Block::Air);

    // Ground too high for the whole stamp to stay inside the sector.
    let (mut heights, mut trees) = flat_columns(10);
    heights[column_of(16, 16)] = 24;
    trees[column_of(16, 16)] = true;
    let list = gen.generate_columns(&heights, &trees);
    assert_eq!(list.get(SectorSpaceCoords::new(16, 24, 16)), Block::Air);

    // One block lower and the stamp fits.
    heights[column_of(16, 16)] = 23;
    let list = gen.generate_columns(&heights, &trees);
    assert_eq!(list.get(SectorSpaceCoords::new(16, 23, 16)), Block::Tree);
    assert_eq!(list.get(SectorSpaceCoords::new(16, 30, 16)), Block::Leaves);
    assert_eq!(list.get(SectorSpaceCoords::new(16, 31, 16)), Block::Air);
}
