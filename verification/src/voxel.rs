//! The voxels of the world: block values, sector-local coordinates and
//! the dense block storage of one sector.

use vstd::prelude::*;

use crate::{SECTOR_LEN, SECTOR_SIZE, SECTOR_SIZE_PAD};
use crate::mesh_gen::Vertex;

verus! {

/// A block in the world.
#[derive(Clone, Copy, Debug, PartialEq, Eq, Structural)]
pub enum Block {
    Air,
    Limestone,
    Loam,
    Grass,
    Tree,
    Leaves,
}

impl Block {
    /// Determine if the block is air.
    pub fn is_air(&self) -> (r: bool)
        ensures
            r == (*self == Block::Air),
    {
        match *self {
            Block::Air => true,
            _ => false,
        }
    }

    /// Determine if the block must be drawn.
    pub fn needs_rendering(&self) -> (r: bool)
        ensures
            r == (*self != Block::Air),
    {
        !self.is_air()
    }

    /// The offset of a renderable block's tile in the texture atlas.
    pub open spec fn spec_atlas_index(self) -> u32 {
        match self {
            Block::Air => 0,
            Block::Limestone => 0,
            Block::Loam => 1,
            Block::Grass => 2,
            Block::Tree => 3,
            Block::Leaves => 4,
        }
    }

    /// The offset of this block's tile in the texture atlas.
    /// Only renderable (non-air) blocks have a tile.
    pub fn atlas_index(&self) -> (r: u32)
        requires
            *self != Block::Air,
        ensures
            r == self.spec_atlas_index(),
    {
        match *self {
            Block::Air => 0,
            Block::Limestone => 0,
            Block::Loam => 1,
            Block::Grass => 2,
            Block::Tree => 3,
            Block::Leaves => 4,
        }
    }
}

/// The type of sector space coordinates: a bounds-checked local
/// coordinate triple, each component below `SECTOR_SIZE_PAD`.
#[derive(Clone, Copy, Debug, PartialEq, Eq, Structural)]
pub struct SectorSpaceCoords {
    pub x: u8,
    pub y: u8,
    pub z: u8,
}

impl SectorSpaceCoords {
    /// All components lie inside the padded sector bounds.
    pub open spec fn wf(self) -> bool {
        self.x < SECTOR_SIZE_PAD && self.y < SECTOR_SIZE_PAD && self.z < SECTOR_SIZE_PAD
    }

    /// The row-major position of these coordinates in a sector's
    /// block array.
    pub open spec fn spec_index(self) -> int {
        self.x + self.y * (SECTOR_SIZE_PAD as int) + self.z * (SECTOR_SIZE_PAD as int)
            * (SECTOR_SIZE_PAD as int)
    }

    /// Create a new coordinate triple.
    /// Every component must lie below `SECTOR_SIZE_PAD`.
    pub fn new(x: u8, y: u8, z: u8) -> (r: SectorSpaceCoords)
        requires
            x < SECTOR_SIZE_PAD,
            y < SECTOR_SIZE_PAD,
            z < SECTOR_SIZE_PAD,
        ensures
            r == (SectorSpaceCoords { x, y, z }),
            r.wf(),
    {
        SectorSpaceCoords { x, y, z }
    }

    /// If possible, create the coord for the block behind this one.
    /// `None` signals a sector boundary: the caller must consult the
    /// adjacent sector.
    pub fn back(&self) -> (r: Option<SectorSpaceCoords>)
        requires
            self.wf(),
        ensures
            self.z > 0 ==> r == Some(
                SectorSpaceCoords { x: self.x, y: self.y, z: (self.z - 1) as u8 },
            ),
            self.z == 0 ==> r is None,
            r is Some ==> r->0.wf(),
    {
        if self.z > 0 {
            Some(Self::new(self.x, self.y, self.z - 1))
        } else {
            None
        }
    }

    /// If possible, create the coord for the block in front of this one.
    pub fn front(&self) -> (r: Option<SectorSpaceCoords>)
        requires
            self.wf(),
        ensures
            self.z < SECTOR_SIZE_PAD - 1 ==> r == Some(
                SectorSpaceCoords { x: self.x, y: self.y, z: (self.z + 1) as u8 },
            ),
            self.z == SECTOR_SIZE_PAD - 1 ==> r is None,
            r is Some ==> r->0.wf(),
    {
        if (self.z as usize) < SECTOR_SIZE_PAD - 1 {
            Some(Self::new(self.x, self.y, self.z + 1))
        } else {
            None
        }
    }

    /// If possible, create the coord for the block above this one.
    pub fn top(&self) -> (r: Option<SectorSpaceCoords>)
        requires
            self.wf(),
        ensures
            self.y < SECTOR_SIZE_PAD - 1 ==> r == Some(
                SectorSpaceCoords { x: self.x, y: (self.y + 1) as u8, z: self.z },
            ),
            self.y == SECTOR_SIZE_PAD - 1 ==> r is None,
            r is Some ==> r->0.wf(),
    {
        if (self.y as usize) < SECTOR_SIZE_PAD - 1 {
            Some(Self::new(self.x, self.y + 1, self.z))
        } else {
            None
        }
    }

    /// If possible, create the coord for the block below this one.
    pub fn bottom(&self) -> (r: Option<SectorSpaceCoords>)
        requires
            self.wf(),
        ensures
            self.y > 0 ==> r == Some(
                SectorSpaceCoords { x: self.x, y: (self.y - 1) as u8, z: self.z },
            ),
            self.y == 0 ==> r is None,
            r is Some ==> r->0.wf(),
    {
        if self.y > 0 {
            Some(Self::new(self.x, self.y - 1, self.z))
        } else {
            None
        }
    }

    /// If possible, create the coord for the block to the left of this one.
    pub fn left(&self) -> (r: Option<SectorSpaceCoords>)
        requires
            self.wf(),
        ensures
            self.x > 0 ==> r == Some(
                SectorSpaceCoords { x: (self.x - 1) as u8, y: self.y, z: self.z },
            ),
            self.x == 0 ==> r is None,
            r is Some ==> r->0.wf(),
    {
        if self.x > 0 {
            Some(Self::new(self.x - 1, self.y, self.z))
        } else {
            None
        }
    }

    /// If possible, create the coord for the block to the right of this one.
    pub fn right(&self) -> (r: Option<SectorSpaceCoords>)
        requires
            self.wf(),
        ensures
            self.x < SECTOR_SIZE_PAD - 1 ==> r == Some(
                SectorSpaceCoords { x: (self.x + 1) as u8, y: self.y, z: self.z },
            ),
            self.x == SECTOR_SIZE_PAD - 1 ==> r is None,
            r is Some ==> r->0.wf(),
    {
        if (self.x as usize) < SECTOR_SIZE_PAD - 1 {
            Some(Self::new(self.x + 1, self.y, self.z))
        } else {
            None
        }
    }

    pub fn x(&self) -> (r: u8)
        ensures
            r == self.x,
    {
        self.x
    }

    pub fn y(&self) -> (r: u8)
        ensures
            r == self.y,
    {
        self.y
    }

    pub fn z(&self) -> (r: u8)
        ensures
            r == self.z,
    {
        self.z
    }

    /// The coordinate triple that a row-major array position stands
    /// for: the inverse of `spec_index`.
    pub open spec fn spec_from_index(i: int) -> SectorSpaceCoords {
        SectorSpaceCoords {
            x: (i % (SECTOR_SIZE_PAD as int)) as u8,
            y: ((i / (SECTOR_SIZE_PAD as int)) % (SECTOR_SIZE_PAD as int)) as u8,
            z: (i / (SECTOR_SIZE_PAD as int * SECTOR_SIZE_PAD as int)) as u8,
        }
    }

    /// Recover the coordinate triple that a row-major array position
    /// stands for: the inverse of `spec_index`.
    pub fn from_index(i: usize) -> (r: SectorSpaceCoords)
        requires
            i < SECTOR_LEN,
        ensures
            r == Self::spec_from_index(i as int),
            r.wf(),
            r.spec_index() == i,
    {
        let x = i % SECTOR_SIZE_PAD;
        let y = (i / SECTOR_SIZE_PAD) % SECTOR_SIZE_PAD;
        let z = i / (SECTOR_SIZE_PAD * SECTOR_SIZE_PAD);
        proof {
            assert(z < 34 && y < 34 && x < 34 && x + y * 34 + z * 1156 == i) by (nonlinear_arith)
                requires
                    i < 39304,
                    x == i as int % 34,
                    y == (i as int / 34) % 34,
                    z == i as int / 1156,
            ;
        }
        SectorSpaceCoords { x: x as u8, y: y as u8, z: z as u8 }
    }
}

/// Every array position below `SECTOR_LEN` decodes to a well-formed
/// coordinate triple whose index is that position again.
pub proof fn lemma_from_index_wf(i: int)
    requires
        0 <= i < SECTOR_LEN,
    ensures
        SectorSpaceCoords::spec_from_index(i).wf(),
        SectorSpaceCoords::spec_from_index(i).spec_index() == i,
{
    let c = SectorSpaceCoords::spec_from_index(i);
    assert(i % 34 < 34 && (i / 34) % 34 < 34 && i / 1156 < 34 && i % 34 + ((i / 34) % 34) * 34 + (
    i / 1156) * 1156 == i) by (nonlinear_arith)
        requires
            0 <= i < 39304,
    ;
}

/// The index round-trip: decoding a well-formed coordinate triple's
/// array position recovers the same triple.
pub proof fn lemma_from_index_round_trip(c: SectorSpaceCoords)
    requires
        c.wf(),
    ensures
        SectorSpaceCoords::spec_from_index(c.spec_index()) == c,
{
    assert(SECTOR_SIZE_PAD == 34 && SECTOR_LEN == 39304);
    assert(0 <= c.x + c.y * 34 + c.z * 1156 < 39304) by (nonlinear_arith)
        requires
            c.x < 34,
            c.y < 34,
            c.z < 34,
    ;
    lemma_from_index_wf(c.spec_index());
    lemma_index_injective(SectorSpaceCoords::spec_from_index(c.spec_index()), c);
}

/// The row-major index mapping is injective on well-formed coordinates:
/// together with `from_index`, the coordinates of a block and its array
/// position determine each other (round-trip).
pub proof fn lemma_index_injective(a: SectorSpaceCoords, b: SectorSpaceCoords)
    requires
        a.wf(),
        b.wf(),
        a.spec_index() == b.spec_index(),
    ensures
        a == b,
{
    assert(SECTOR_SIZE_PAD == 34);
    assert(a.z * (SECTOR_SIZE_PAD as int) * (SECTOR_SIZE_PAD as int) == a.z * 1156)
        by (nonlinear_arith)
        requires
            SECTOR_SIZE_PAD == 34,
    ;
    assert(b.z * (SECTOR_SIZE_PAD as int) * (SECTOR_SIZE_PAD as int) == b.z * 1156)
        by (nonlinear_arith)
        requires
            SECTOR_SIZE_PAD == 34,
    ;
    assert(a.x == b.x && a.y == b.y && a.z == b.z) by (nonlinear_arith)
        requires
            a.x < 34,
            a.y < 34,
            a.z < 34,
            b.x < 34,
            b.y < 34,
            b.z < 34,
            a.x + a.y * 34 + a.z * 1156 == b.x + b.y * 34 + b.z * 1156,
    ;
}

/// The array structure of blocks in a `Sector`.
pub struct BlockList {
    blocks: Vec<Block>,
}

impl View for BlockList {
    type V = Seq<Block>;

    closed spec fn view(&self) -> Seq<Block> {
        self.blocks@
    }
}

impl BlockList {
    /// The storage holds exactly one block per padded sector cell.
    pub open spec fn wf(self) -> bool {
        self.view().len() == SECTOR_LEN
    }

    /// Create a new `BlockList`, consuming the vector of `Block`s.
    pub fn new(blocks: Vec<Block>) -> (r: BlockList)
        requires
            blocks@.len() == SECTOR_LEN,
        ensures
            r.wf(),
            r@ == blocks@,
    {
        BlockList { blocks }
    }

    /// Create a new `BlockList` filled with air.
    pub fn new_air() -> (r: BlockList)
        ensures
            r.wf(),
            r@ == Seq::new(SECTOR_LEN as nat, |i: int| Block::Air),
    {
        let mut blocks: Vec<Block> = Vec::new();
        let mut i: usize = 0;
        while i < SECTOR_LEN
            invariant
                i <= SECTOR_LEN,
                blocks@.len() == i,
                forall|j: int| 0 <= j < i ==> blocks@[j] == Block::Air,
            decreases SECTOR_LEN - i,
        {
            blocks.push(Block::Air);
            i = i + 1;
        }
        proof {
            assert(blocks@ =~= Seq::new(SECTOR_LEN as nat, |i: int| Block::Air));
        }
        BlockList { blocks }
    }

    /// The internal array index of sector coords.
    pub fn index(pos: SectorSpaceCoords) -> (r: usize)
        requires
            pos.wf(),
        ensures
            r == pos.spec_index(),
            r < SECTOR_LEN,
    {
        let xi = pos.x() as usize;
        let yi = pos.y() as usize;
        let zi = pos.z() as usize;
        proof {
            assert(xi + yi * 34 + zi * 34 * 34 < 39304) by (nonlinear_arith)
                requires
                    xi < 34,
                    yi < 34,
                    zi < 34,
            ;
        }
        xi + yi * SECTOR_SIZE_PAD + zi * SECTOR_SIZE_PAD * SECTOR_SIZE_PAD
    }

    /// Look at the block at a specific position in sector coords.
    pub fn get(&self, pos: SectorSpaceCoords) -> (r: Block)
        requires
            self.wf(),
            pos.wf(),
        ensures
            r == self@[pos.spec_index()],
    {
        self.blocks[Self::index(pos)]
    }

    /// Set a block at a specific position in sector coords.
    pub fn set(&mut self, pos: SectorSpaceCoords, block: Block)
        requires
            old(self).wf(),
            pos.wf(),
        ensures
            final(self).wf(),
            final(self)@ == old(self)@.update(pos.spec_index(), block),
    {
        let i = Self::index(pos);
        self.blocks.set(i, block);
    }

    /// Determine if any block in the `BlockList` must be drawn:
    /// true exactly when some block is not air.
    pub fn needs_rendering(&self) -> (r: bool)
        ensures
            r == exists|j: int| 0 <= j < self@.len() && self@[j] != Block::Air,
    {
        let mut i: usize = 0;
        while i < self.blocks.len()
            invariant
                i <= self@.len(),
                forall|j: int| 0 <= j < i ==> self@[j] == Block::Air,
            decreases self@.len() - i,
        {
            if self.blocks[i].needs_rendering() {
                return true;
            }
            i = i + 1;
        }
        false
    }
}

/// The mesh and placement of a sector's render model: the vertices of
/// its visible faces, and the world translation of the sector's origin
/// in whole world units.
pub struct SectorModel {
    pub vertices: Vec<Vertex>,
    pub translation: (i64, i64, i64),
}

/// An individual "chunk" of the world: its blocks, and its render
/// model. The model is absent for an all-air sector, which has nothing
/// to draw.
pub struct Sector {
    blocks: BlockList,
    model: Option<SectorModel>,
}

impl Sector {
    /// The sector's block storage is fully sized.
    pub open spec fn wf(self) -> bool {
        self.spec_blocks().wf()
    }

    /// This sector's block storage.
    pub closed spec fn spec_blocks(self) -> BlockList {
        self.blocks
    }

    /// This sector's render model, absent for an all-air sector.
    pub closed spec fn spec_model(self) -> Option<SectorModel> {
        self.model
    }

    /// Whether this sector is the one `Sector::new` builds from these
    /// parts: it owns the blocks, and carries a model holding the mesh
    /// vertices and the sector origin's world translation exactly when
    /// some block needs rendering.
    pub open spec fn spec_is_new_from(
        self,
        pos: (i32, i32, i32),
        blocks: BlockList,
        vertices: Seq<Vertex>,
    ) -> bool {
        &&& self.spec_blocks() == blocks
        &&& (self.spec_model() is Some) == (exists|j: int|
            0 <= j < blocks@.len() && blocks@[j] != Block::Air)
        &&& self.spec_model() is Some ==> self.spec_model()->0.vertices@ == vertices
            && self.spec_model()->0.translation.0 == pos.0 * (SECTOR_SIZE as int)
            && self.spec_model()->0.translation.1 == pos.1 * (SECTOR_SIZE as int)
            && self.spec_model()->0.translation.2 == pos.2 * (SECTOR_SIZE as int)
    }

    /// Create a sector from its generated blocks and mesh vertices. A
    /// render model is attached only when something must be drawn.
    pub fn new(pos: (i32, i32, i32), blocks: BlockList, vertices: Vec<Vertex>) -> (r: Sector)
        requires
            blocks.wf(),
        ensures
            r.wf(),
            r.spec_is_new_from(pos, blocks, vertices@),
    {
        let model = if blocks.needs_rendering() {
            let translation = (
                pos.0 as i64 * SECTOR_SIZE as i64,
                pos.1 as i64 * SECTOR_SIZE as i64,
                pos.2 as i64 * SECTOR_SIZE as i64,
            );
            Some(SectorModel { vertices, translation })
        } else {
            None
        };
        Sector { blocks, model }
    }

    /// Return an immutable reference to this sector's render model.
    /// The model may not exist, in which case `None` is returned.
    pub fn model(&self) -> (r: Option<&SectorModel>)
        ensures
            (r is Some) == (self.spec_model() is Some),
            r is Some ==> *r->0 == self.spec_model()->0,
    {
        self.model.as_ref()
    }

    /// Return this sector's `BlockList`.
    pub fn blocks(&self) -> (r: &BlockList)
        ensures
            *r == self.spec_blocks(),
    {
        &self.blocks
    }
}

} // verus!
