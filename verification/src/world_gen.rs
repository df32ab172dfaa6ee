//! Procedural world generation.
//!
//! Generation is a pure function of the sector coordinates, so sectors
//! can be generated on any worker in any order and the result is always
//! the same. A column's blocks are solid ground (`Grass`) at and below
//! the terrain band and air above it; the band is placed by absolute
//! world height, so whole sectors above it come out all-air and whole
//! sectors below it all-solid.
//!
//! A surface sector can instead be filled from per-column elevations
//! (sampled from coherent-noise fields by the caller) with
//! `generate_columns`: each column is solid up to its elevation, and a
//! tree — a trunk with a leaf canopy — is stamped on every column whose
//! placement gate passed and that is far enough from the sector edges
//! for the stamp to stay in bounds.

use vstd::prelude::*;

use crate::{SECTOR_LEN, SECTOR_SIZE, SECTOR_SIZE_PAD};
use crate::voxel::{Block, BlockList, SectorSpaceCoords};

verus! {

/// The world height of a block: its local height plus its sector's
/// vertical offset in blocks.
pub open spec fn spec_world_height(sector: (i32, i32, i32), pos: SectorSpaceCoords) -> int {
    pos.y + sector.1 * (SECTOR_SIZE as int)
}

/// The block generated at one cell: solid ground at or below world
/// height zero, air above it.
pub open spec fn spec_block_at(sector: (i32, i32, i32), pos: SectorSpaceCoords) -> Block {
    if spec_world_height(sector, pos) <= 0 {
        Block::Grass
    } else {
        Block::Air
    }
}

/// The full generated block array of a sector, in row-major order.
pub open spec fn spec_generate(sector: (i32, i32, i32)) -> Seq<Block> {
    Seq::new(
        SECTOR_LEN as nat,
        |i: int| spec_block_at(sector, SectorSpaceCoords::spec_from_index(i)),
    )
}

/// The world generator.
#[derive(Clone, Copy)]
pub struct WorldGen {}

impl WorldGen {
    /// Create a new `WorldGen`.
    pub fn new() -> (r: WorldGen)
        ensures
            r == (WorldGen {  }),
    {
        WorldGen {  }
    }

    /// Generate the blocks of the sector at these grid coordinates.
    /// The result depends on the coordinates alone.
    pub fn generate(&self, sector: (i32, i32, i32)) -> (r: BlockList)
        ensures
            r.wf(),
            r@ == spec_generate(sector),
    {
        let mut blocks: Vec<Block> = Vec::new();
        let mut i: usize = 0;
        while i < SECTOR_LEN
            invariant
                i <= SECTOR_LEN,
                blocks@.len() == i,
                forall|j: int|
                    0 <= j < i ==> blocks@[j] == spec_block_at(
                        sector,
                        SectorSpaceCoords::spec_from_index(j),
                    ),
            decreases SECTOR_LEN - i,
        {
            let c = SectorSpaceCoords::from_index(i);
            let h: i64 = c.y() as i64 + sector.1 as i64 * SECTOR_SIZE as i64;
            let b = if h <= 0 {
                Block::Grass
            } else {
                Block::Air
            };
            blocks.push(b);
            i = i + 1;
        }
        let r = BlockList::new(blocks);
        proof {
            assert(r@ =~= spec_generate(sector));
        }
        r
    }
}

/// The height of a tree trunk in blocks; the upper half of the stamp
/// is the leaf canopy.
pub const TREE_HEIGHT: usize = 8;

/// The horizontal reach of a leaf canopy around its trunk, in blocks.
pub const CANOPY_REACH: usize = 2;

/// The position of a column in the per-column input arrays.
pub open spec fn spec_column_index(x: int, z: int) -> int {
    x + z * (SECTOR_SIZE_PAD as int)
}

/// Whether a tree stands on this column: its placement gate passed,
/// the column is far enough from the sector edges, and the ground is
/// low enough that the whole stamp stays inside the sector.
pub open spec fn spec_tree_col(heights: Seq<u8>, trees: Seq<bool>, x: int, z: int) -> bool {
    &&& 3 <= x <= SECTOR_SIZE - 3
    &&& 3 <= z <= SECTOR_SIZE - 3
    &&& trees[spec_column_index(x, z)]
    &&& heights[spec_column_index(x, z)] < SECTOR_SIZE - TREE_HEIGHT
}

/// Whether this cell is part of a tree trunk: the lower half of the
/// stamp on the cell's own column.
pub open spec fn spec_trunk_at(heights: Seq<u8>, trees: Seq<bool>, c: SectorSpaceCoords) -> bool {
    &&& spec_tree_col(heights, trees, c.x as int, c.z as int)
    &&& heights[spec_column_index(c.x as int, c.z as int)] <= c.y
        < heights[spec_column_index(c.x as int, c.z as int)] + TREE_HEIGHT / 2
}

/// Whether this cell is part of a leaf canopy: the upper half of the
/// stamp of some tree within canopy reach.
pub open spec fn spec_canopy_at(heights: Seq<u8>, trees: Seq<bool>, c: SectorSpaceCoords) -> bool {
    exists|dx: int, dz: int|
        {
            &&& -(CANOPY_REACH as int) <= dx <= CANOPY_REACH
            &&& -(CANOPY_REACH as int) <= dz <= CANOPY_REACH
            &&& #[trigger] spec_tree_col(heights, trees, c.x + dx, c.z + dz)
            &&& heights[spec_column_index(c.x + dx, c.z + dz)] + TREE_HEIGHT / 2 <= c.y < heights[
                spec_column_index(c.x + dx, c.z + dz)] + TREE_HEIGHT
        }
}

/// The block of one cell of a surface sector filled from per-column
/// elevations: a trunk cell, else a canopy cell, else ground at and
/// below the column's elevation, else air.
pub open spec fn spec_column_block(
    heights: Seq<u8>,
    trees: Seq<bool>,
    c: SectorSpaceCoords,
) -> Block {
    if spec_trunk_at(heights, trees, c) {
        Block::Tree
    } else if spec_canopy_at(heights, trees, c) {
        Block::Leaves
    } else if (c.y as int) < heights[spec_column_index(c.x as int, c.z as int)] {
        Block::Grass
    } else {
        Block::Air
    }
}

/// The full block array of a surface sector filled from per-column
/// elevations and tree gates, in row-major order.
pub open spec fn spec_generate_columns(heights: Seq<u8>, trees: Seq<bool>) -> Seq<Block> {
    Seq::new(
        SECTOR_LEN as nat,
        |i: int| spec_column_block(heights, trees, SectorSpaceCoords::spec_from_index(i)),
    )
}

/// All inputs to the column fill are fully sized, with every elevation
/// clamped to the sector height.
pub open spec fn spec_columns_wf(heights: Seq<u8>, trees: Seq<bool>) -> bool {
    &&& heights.len() == SECTOR_SIZE_PAD * SECTOR_SIZE_PAD
    &&& trees.len() == SECTOR_SIZE_PAD * SECTOR_SIZE_PAD
    &&& forall|i: int| 0 <= i < heights.len() ==> (#[trigger] heights[i]) <= SECTOR_SIZE
}

/// Whether a tree stands on the column at these sector-local
/// coordinates.
fn tree_at(heights: &Vec<u8>, trees: &Vec<bool>, x: i32, z: i32) -> (r: bool)
    requires
        spec_columns_wf(heights@, trees@),
    ensures
        r == spec_tree_col(heights@, trees@, x as int, z as int),
{
    if x >= 3 && x <= SECTOR_SIZE as i32 - 3 && z >= 3 && z <= SECTOR_SIZE as i32 - 3 {
        let col = (x + z * SECTOR_SIZE_PAD as i32) as usize;
        proof {
            assert(col < 1156) by (nonlinear_arith)
                requires
                    3 <= x <= 29,
                    3 <= z <= 29,
                    col == x + z * 34,
            ;
        }
        trees[col] && (heights[col] as usize) < SECTOR_SIZE - TREE_HEIGHT
    } else {
        false
    }
}

/// Whether some tree within canopy reach of this cell covers it with
/// leaves.
fn canopy_at(heights: &Vec<u8>, trees: &Vec<bool>, c: SectorSpaceCoords) -> (r: bool)
    requires
        spec_columns_wf(heights@, trees@),
        c.wf(),
    ensures
        r == spec_canopy_at(heights@, trees@, c),
{
    let mut di: usize = 0;
    while di < 5
        invariant
            di <= 5,
            spec_columns_wf(heights@, trees@),
            c.wf(),
            forall|dx: int, dz: int|
                {
                    &&& -2 <= dx <= 2
                    &&& -2 <= dz <= 2
                    &&& dx < di - 2
                } ==> !(#[trigger] spec_tree_col(heights@, trees@, c.x + dx, c.z + dz) && heights@[
                spec_column_index(c.x + dx, c.z + dz)] + 4 <= c.y < heights@[spec_column_index(
                c.x + dx,
                c.z + dz,
            )] + 8),
        decreases 5 - di,
    {
        let dx = di as i32 - 2;
        let mut dj: usize = 0;
        while dj < 5
            invariant
                dj <= 5,
                di < 5,
                dx == di as i32 - 2,
                spec_columns_wf(heights@, trees@),
                c.wf(),
                forall|ox: int, oz: int|
                    {
                        &&& -2 <= ox <= 2
                        &&& -2 <= oz <= 2
                        &&& ox < di - 2
                    } ==> !(#[trigger] spec_tree_col(heights@, trees@, c.x + ox, c.z + oz)
                    && heights@[spec_column_index(c.x + ox, c.z + oz)] + 4 <= c.y < heights@[
                    spec_column_index(c.x + ox, c.z + oz)] + 8),
                forall|oz: int|
                    {
                        &&& -2 <= oz <= 2
                        &&& oz < dj - 2
                    } ==> !(#[trigger] spec_tree_col(heights@, trees@, c.x + dx, c.z + oz)
                    && heights@[spec_column_index(c.x + dx, c.z + oz)] + 4 <= c.y < heights@[
                    spec_column_index(c.x + dx, c.z + oz)] + 8),
            decreases 5 - dj,
        {
            let dz = dj as i32 - 2;
            let nx = c.x() as i32 + dx;
            let nz = c.z() as i32 + dz;
            if tree_at(heights, trees, nx, nz) {
                let col = (nx + nz * SECTOR_SIZE_PAD as i32) as usize;
                proof {
                    assert(0 <= col < 1156) by (nonlinear_arith)
                        requires
                            3 <= nx <= 29,
                            3 <= nz <= 29,
                            col == nx + nz * 34,
                    ;
                }
                let h = heights[col] as usize;
                if h + 4 <= c.y() as usize && (c.y() as usize) < h + 8 {
                    proof {
                        assert(spec_canopy_at(heights@, trees@, c));
                    }
                    return true;
                }
            }
            dj = dj + 1;
        }
        di = di + 1;
    }
    proof {
        assert(!spec_canopy_at(heights@, trees@, c));
    }
    false
}

impl WorldGen {
    /// Fill a surface sector from per-column elevations and tree
    /// gates: every column is solid ground up to its elevation, and a
    /// tree stamp — a trunk below, a leaf canopy above and around —
    /// stands on each gated column far enough from the sector edges.
    /// The result depends on the inputs alone.
    pub fn generate_columns(&self, heights: &Vec<u8>, trees: &Vec<bool>) -> (r: BlockList)
        requires
            spec_columns_wf(heights@, trees@),
        ensures
            r.wf(),
            r@ == spec_generate_columns(heights@, trees@),
    {
        let mut blocks: Vec<Block> = Vec::new();
        let mut i: usize = 0;
        while i < SECTOR_LEN
            invariant
                i <= SECTOR_LEN,
                spec_columns_wf(heights@, trees@),
                blocks@.len() == i,
                forall|j: int|
                    0 <= j < i ==> blocks@[j] == spec_column_block(
                        heights@,
                        trees@,
                        SectorSpaceCoords::spec_from_index(j),
                    ),
            decreases SECTOR_LEN - i,
        {
            let c = SectorSpaceCoords::from_index(i);
            let col = c.x() as usize + c.z() as usize * SECTOR_SIZE_PAD;
            proof {
                assert(col < 1156) by (nonlinear_arith)
                    requires
                        c.x < 34,
                        c.z < 34,
                        col == c.x + c.z * 34,
                ;
            }
            let h = heights[col] as usize;
            let trunk = tree_at(heights, trees, c.x() as i32, c.z() as i32) && h <= c.y() as usize
                && (c.y() as usize) < h + 4;
            let b = if trunk {
                Block::Tree
            } else if canopy_at(heights, trees, c) {
                Block::Leaves
            } else if (c.y() as usize) < h {
                Block::Grass
            } else {
                Block::Air
            };
            blocks.push(b);
            i = i + 1;
        }
        let r = BlockList::new(blocks);
        proof {
            assert(r@ =~= spec_generate_columns(heights@, trees@));
        }
        r
    }
}

/// Tree stamps stay within the sector: every trunk or leaf cell of a
/// column fill lies strictly below the unpadded sector height, and
/// leaves reach at most the canopy reach outside the tree-gated
/// columns, so no stamp escapes the block array.
pub proof fn lemma_tree_stamps_in_bounds(heights: Seq<u8>, trees: Seq<bool>, i: int)
    requires
        spec_columns_wf(heights, trees),
        0 <= i < SECTOR_LEN,
        spec_generate_columns(heights, trees)[i] == Block::Tree || spec_generate_columns(
            heights,
            trees,
        )[i] == Block::Leaves,
    ensures
        SectorSpaceCoords::spec_from_index(i).y < SECTOR_SIZE,
        1 <= SectorSpaceCoords::spec_from_index(i).x <= SECTOR_SIZE - 1,
        1 <= SectorSpaceCoords::spec_from_index(i).z <= SECTOR_SIZE - 1,
{
    crate::voxel::lemma_from_index_wf(i);
    let c = SectorSpaceCoords::spec_from_index(i);
    if spec_trunk_at(heights, trees, c) {
        assert(heights[spec_column_index(c.x as int, c.z as int)] < 24);
    } else {
        assert(spec_canopy_at(heights, trees, c));
        let (dx, dz) = choose|dx: int, dz: int|
            {
                &&& -(CANOPY_REACH as int) <= dx <= CANOPY_REACH
                &&& -(CANOPY_REACH as int) <= dz <= CANOPY_REACH
                &&& #[trigger] spec_tree_col(heights, trees, c.x + dx, c.z + dz)
                &&& heights[spec_column_index(c.x + dx, c.z + dz)] + TREE_HEIGHT / 2 <= c.y
                    < heights[spec_column_index(c.x + dx, c.z + dz)] + TREE_HEIGHT
            };
        assert(heights[spec_column_index(c.x + dx, c.z + dz)] < 24);
        assert(3 <= c.x + dx <= 29 && 3 <= c.z + dz <= 29);
    }
}

/// World generation is deterministic: any two block arrays generated
/// for the same sector coordinates are identical.
pub proof fn lemma_generate_deterministic(a: Seq<Block>, b: Seq<Block>, sector: (i32, i32, i32))
    requires
        a == spec_generate(sector),
        b == spec_generate(sector),
    ensures
        a == b,
{
}

/// A sector lying fully below the terrain band generates all-solid.
pub proof fn lemma_generate_below_band_solid(sector: (i32, i32, i32))
    requires
        sector.1 <= -2,
    ensures
        forall|i: int| 0 <= i < SECTOR_LEN ==> spec_generate(sector)[i] == Block::Grass,
{
    assert forall|i: int| 0 <= i < SECTOR_LEN implies spec_generate(sector)[i]
        == Block::Grass by {
        crate::voxel::lemma_from_index_wf(i);
        let c = SectorSpaceCoords::spec_from_index(i);
        assert(c.y < 34);
        assert(sector.1 * 32 <= -64) by (nonlinear_arith)
            requires
                sector.1 <= -2,
        ;
    }
}

/// A sector lying fully above the terrain band generates all-air.
pub proof fn lemma_generate_above_band_air(sector: (i32, i32, i32))
    requires
        sector.1 >= 1,
    ensures
        forall|i: int| 0 <= i < SECTOR_LEN ==> spec_generate(sector)[i] == Block::Air,
{
    assert forall|i: int| 0 <= i < SECTOR_LEN implies spec_generate(sector)[i] == Block::Air by {
        crate::voxel::lemma_from_index_wf(i);
        let c = SectorSpaceCoords::spec_from_index(i);
        assert(sector.1 * 32 >= 32) by (nonlinear_arith)
            requires
                sector.1 >= 1,
        ;
    }
}

} // verus!
