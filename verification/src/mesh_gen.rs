//! Creation of sector surface meshes from block storage.
//!
//! Every non-air block contributes one quad (two triangles, six
//! vertices) per face that is exposed to air. A face is culled when the
//! occluding neighbor block is solid; at a sector boundary the matching
//! block of the face-adjacent sector decides, so no hidden faces are
//! emitted at chunk seams either. Positions are in sector-local block
//! units and texture coordinates in atlas pixels.

use vstd::prelude::*;

use crate::{SECTOR_LEN, SECTOR_SIZE_PAD};
use crate::voxel::{Block, BlockList, SectorSpaceCoords};

verus! {

/// The edge length of one atlas tile, in pixels.
pub const TILE_SIZE: u32 = 16;

/// The six face directions of a cube.
#[derive(Clone, Copy, Debug, PartialEq, Eq, Structural)]
pub enum Face {
    Back,
    Front,
    Top,
    Bottom,
    Left,
    Right,
}

/// The face index that stands in for a normal vector, since on a cube
/// the normals always lie along an axis.
pub open spec fn spec_face_num(f: Face) -> u32 {
    match f {
        Face::Back => 0,
        Face::Front => 1,
        Face::Top => 2,
        Face::Bottom => 3,
        Face::Left => 4,
        Face::Right => 5,
    }
}

/// A terrain vertex: a position in sector-local block units, texture
/// coordinates in atlas pixels, and the index of the face it belongs to.
#[derive(Clone, Copy, Debug, PartialEq, Eq, Structural)]
pub struct Vertex {
    pub x: u8,
    pub y: u8,
    pub z: u8,
    pub u: u32,
    pub v: u32,
    pub face: u32,
}

/// A transient bundle of the block storage of the six face-adjacent
/// sectors, supplied to the mesh generator only at mesh-build time.
#[derive(Clone, Copy)]
pub struct AdjacentSectors<'a> {
    pub back: &'a BlockList,
    pub front: &'a BlockList,
    pub top: &'a BlockList,
    pub bottom: &'a BlockList,
    pub left: &'a BlockList,
    pub right: &'a BlockList,
}

/// The mathematical view of an `AdjacentSectors` bundle: the block
/// sequences of the six face-adjacent sectors.
pub struct AdjacentViews {
    pub back: Seq<Block>,
    pub front: Seq<Block>,
    pub top: Seq<Block>,
    pub bottom: Seq<Block>,
    pub left: Seq<Block>,
    pub right: Seq<Block>,
}

impl<'a> View for AdjacentSectors<'a> {
    type V = AdjacentViews;

    open spec fn view(&self) -> AdjacentViews {
        AdjacentViews {
            back: self.back@,
            front: self.front@,
            top: self.top@,
            bottom: self.bottom@,
            left: self.left@,
            right: self.right@,
        }
    }
}

impl<'a> AdjacentSectors<'a> {
    /// All six neighbor block arrays are fully sized.
    pub open spec fn wf(self) -> bool {
        self.back.wf() && self.front.wf() && self.top.wf() && self.bottom.wf() && self.left.wf()
            && self.right.wf()
    }
}

/// Whether this coordinate touches the sector boundary that the face
/// looks through.
pub open spec fn spec_at_boundary(c: SectorSpaceCoords, f: Face) -> bool {
    match f {
        Face::Back => c.z == 0,
        Face::Front => c.z == SECTOR_SIZE_PAD - 1,
        Face::Top => c.y == SECTOR_SIZE_PAD - 1,
        Face::Bottom => c.y == 0,
        Face::Left => c.x == 0,
        Face::Right => c.x == SECTOR_SIZE_PAD - 1,
    }
}

/// The same-sector neighbor one step through the face; meaningful only
/// away from the boundary.
pub open spec fn spec_inner_neighbor(c: SectorSpaceCoords, f: Face) -> SectorSpaceCoords {
    match f {
        Face::Back => SectorSpaceCoords { x: c.x, y: c.y, z: (c.z - 1) as u8 },
        Face::Front => SectorSpaceCoords { x: c.x, y: c.y, z: (c.z + 1) as u8 },
        Face::Top => SectorSpaceCoords { x: c.x, y: (c.y + 1) as u8, z: c.z },
        Face::Bottom => SectorSpaceCoords { x: c.x, y: (c.y - 1) as u8, z: c.z },
        Face::Left => SectorSpaceCoords { x: (c.x - 1) as u8, y: c.y, z: c.z },
        Face::Right => SectorSpaceCoords { x: (c.x + 1) as u8, y: c.y, z: c.z },
    }
}

/// The matching block of the face-adjacent sector at a boundary: the
/// mirrored coordinate on that sector's opposite boundary.
pub open spec fn spec_mirror(c: SectorSpaceCoords, f: Face) -> SectorSpaceCoords {
    match f {
        Face::Back => SectorSpaceCoords { x: c.x, y: c.y, z: (SECTOR_SIZE_PAD - 1) as u8 },
        Face::Front => SectorSpaceCoords { x: c.x, y: c.y, z: 0 },
        Face::Top => SectorSpaceCoords { x: c.x, y: 0, z: c.z },
        Face::Bottom => SectorSpaceCoords { x: c.x, y: (SECTOR_SIZE_PAD - 1) as u8, z: c.z },
        Face::Left => SectorSpaceCoords { x: (SECTOR_SIZE_PAD - 1) as u8, y: c.y, z: c.z },
        Face::Right => SectorSpaceCoords { x: 0, y: c.y, z: c.z },
    }
}

/// The block array of the neighbor sector that the face looks into.
pub open spec fn spec_adjacent_list(adj: AdjacentViews, f: Face) -> Seq<Block> {
    match f {
        Face::Back => adj.back,
        Face::Front => adj.front,
        Face::Top => adj.top,
        Face::Bottom => adj.bottom,
        Face::Left => adj.left,
        Face::Right => adj.right,
    }
}

/// The block occluding this face: the same-sector neighbor away from a
/// boundary, else the matching block of the face-adjacent sector.
pub open spec fn spec_neighbor(
    blocks: Seq<Block>,
    adj: AdjacentViews,
    c: SectorSpaceCoords,
    f: Face,
) -> Block {
    if spec_at_boundary(c, f) {
        spec_adjacent_list(adj, f)[spec_mirror(c, f).spec_index()]
    } else {
        blocks[spec_inner_neighbor(c, f).spec_index()]
    }
}

/// A face is visible exactly when the occluding neighbor block is air.
pub open spec fn spec_face_visible(
    blocks: Seq<Block>,
    adj: AdjacentViews,
    c: SectorSpaceCoords,
    f: Face,
) -> bool {
    spec_neighbor(blocks, adj, c, f) == Block::Air
}

/// The offset of a quad corner from its block's position, by face and
/// corner number.
pub open spec fn spec_corner_offset(f: Face, k: int) -> (int, int, int) {
    match f {
        Face::Back => if k == 0 {
            (0, 0, 0)
        } else if k == 1 {
            (0, 1, 0)
        } else if k == 2 {
            (1, 1, 0)
        } else {
            (1, 0, 0)
        },
        Face::Front => if k == 0 {
            (1, 0, 1)
        } else if k == 1 {
            (1, 1, 1)
        } else if k == 2 {
            (0, 1, 1)
        } else {
            (0, 0, 1)
        },
        Face::Top => if k == 0 {
            (1, 1, 1)
        } else if k == 1 {
            (1, 1, 0)
        } else if k == 2 {
            (0, 1, 0)
        } else {
            (0, 1, 1)
        },
        Face::Bottom => if k == 0 {
            (1, 0, 0)
        } else if k == 1 {
            (1, 0, 1)
        } else if k == 2 {
            (0, 0, 1)
        } else {
            (0, 0, 0)
        },
        Face::Left => if k == 0 {
            (0, 0, 1)
        } else if k == 1 {
            (0, 1, 1)
        } else if k == 2 {
            (0, 1, 0)
        } else {
            (0, 0, 0)
        },
        Face::Right => if k == 0 {
            (1, 0, 0)
        } else if k == 1 {
            (1, 1, 0)
        } else if k == 2 {
            (1, 1, 1)
        } else {
            (1, 0, 1)
        },
    }
}

/// The texture column of a quad corner in atlas pixels: the right edge
/// of the block's tile for the first two corners, the left edge for the
/// last two.
pub open spec fn spec_corner_u(b: Block, k: int) -> int {
    if k == 0 || k == 1 {
        (b.spec_atlas_index() + 1) * TILE_SIZE
    } else {
        b.spec_atlas_index() * TILE_SIZE
    }
}

/// The texture row of a quad corner in atlas pixels: the tile's bottom
/// edge for the first and last corner, its top edge for the middle two.
pub open spec fn spec_corner_v(k: int) -> int {
    if k == 0 || k == 3 {
        TILE_SIZE as int
    } else {
        0
    }
}

/// One corner vertex of a block's face quad.
pub open spec fn spec_quad_vertex(c: SectorSpaceCoords, b: Block, f: Face, k: int) -> Vertex {
    let off = spec_corner_offset(f, k);
    Vertex {
        x: (c.x + off.0) as u8,
        y: (c.y + off.1) as u8,
        z: (c.z + off.2) as u8,
        u: spec_corner_u(b, k) as u32,
        v: spec_corner_v(k) as u32,
        face: spec_face_num(f),
    }
}

/// The six vertices of one visible face: two triangles over the quad's
/// four corners.
#[verifier::opaque]
pub open spec fn spec_face_quad(c: SectorSpaceCoords, b: Block, f: Face) -> Seq<Vertex> {
    seq![
        spec_quad_vertex(c, b, f, 0),
        spec_quad_vertex(c, b, f, 1),
        spec_quad_vertex(c, b, f, 2),
        spec_quad_vertex(c, b, f, 0),
        spec_quad_vertex(c, b, f, 2),
        spec_quad_vertex(c, b, f, 3),
    ]
}

/// The vertices one face contributes to the mesh: its quad when it is
/// visible, nothing when it is culled.
pub open spec fn spec_face_part(
    blocks: Seq<Block>,
    adj: AdjacentViews,
    c: SectorSpaceCoords,
    b: Block,
    f: Face,
) -> Seq<Vertex> {
    if spec_face_visible(blocks, adj, c, f) {
        spec_face_quad(c, b, f)
    } else {
        Seq::<Vertex>::empty()
    }
}

/// The vertices one block contributes to the mesh: nothing for air,
/// else its visible faces in a fixed order.
pub open spec fn spec_cell_vertices(
    blocks: Seq<Block>,
    adj: AdjacentViews,
    c: SectorSpaceCoords,
) -> Seq<Vertex> {
    let b = blocks[c.spec_index()];
    if b == Block::Air {
        Seq::<Vertex>::empty()
    } else {
        spec_face_part(blocks, adj, c, b, Face::Back) + spec_face_part(
            blocks,
            adj,
            c,
            b,
            Face::Front,
        ) + spec_face_part(blocks, adj, c, b, Face::Top) + spec_face_part(
            blocks,
            adj,
            c,
            b,
            Face::Bottom,
        ) + spec_face_part(blocks, adj, c, b, Face::Left) + spec_face_part(
            blocks,
            adj,
            c,
            b,
            Face::Right,
        )
    }
}

/// The mesh contributed by the first `n` blocks in row-major order.
pub open spec fn spec_mesh_prefix(blocks: Seq<Block>, adj: AdjacentViews, n: int) -> Seq<Vertex>
    decreases n,
{
    if n <= 0 {
        Seq::<Vertex>::empty()
    } else {
        spec_mesh_prefix(blocks, adj, n - 1) + spec_cell_vertices(
            blocks,
            adj,
            SectorSpaceCoords::spec_from_index(n - 1),
        )
    }
}

/// The full surface mesh of a sector's blocks against its neighbors.
pub open spec fn spec_mesh(blocks: Seq<Block>, adj: AdjacentViews) -> Seq<Vertex> {
    spec_mesh_prefix(blocks, adj, SECTOR_LEN as int)
}

/// No hidden faces: a face whose occluding neighbor block is solid
/// contributes no vertices to the mesh. Away from a sector boundary the
/// neighbor is the adjacent block of the same sector, so no face is
/// ever emitted between two solid blocks of one sector.
pub proof fn lemma_hidden_face_not_emitted(
    blocks: Seq<Block>,
    adj: AdjacentViews,
    c: SectorSpaceCoords,
    b: Block,
    f: Face,
)
    requires
        spec_neighbor(blocks, adj, c, f) != Block::Air,
    ensures
        spec_face_part(blocks, adj, c, b, f) == Seq::<Vertex>::empty(),
{
}

/// Cross-sector face culling: at a sector boundary the face is decided
/// by the matching block of the face-adjacent sector alone. When that
/// block is solid the face is culled; when it is air, a solid block's
/// face quad is emitted.
pub proof fn lemma_cross_sector_culling(
    blocks: Seq<Block>,
    adj: AdjacentViews,
    c: SectorSpaceCoords,
    b: Block,
    f: Face,
)
    requires
        spec_at_boundary(c, f),
    ensures
        spec_adjacent_list(adj, f)[spec_mirror(c, f).spec_index()] != Block::Air
            ==> spec_face_part(blocks, adj, c, b, f) == Seq::<Vertex>::empty(),
        spec_adjacent_list(adj, f)[spec_mirror(c, f).spec_index()] == Block::Air
            ==> spec_face_part(blocks, adj, c, b, f) == spec_face_quad(c, b, f) && spec_face_part(
            blocks,
            adj,
            c,
            b,
            f,
        ).len() == 6,
{
    reveal(spec_face_quad);
}

/// A sector of nothing but air produces an empty mesh.
pub proof fn lemma_all_air_mesh_empty(blocks: Seq<Block>, adj: AdjacentViews)
    requires
        blocks.len() == SECTOR_LEN,
        forall|i: int| 0 <= i < blocks.len() ==> blocks[i] == Block::Air,
    ensures
        spec_mesh(blocks, adj) == Seq::<Vertex>::empty(),
{
    lemma_all_air_prefix_empty(blocks, adj, SECTOR_LEN as int);
}

proof fn lemma_all_air_prefix_empty(blocks: Seq<Block>, adj: AdjacentViews, n: int)
    requires
        blocks.len() == SECTOR_LEN,
        forall|i: int| 0 <= i < blocks.len() ==> blocks[i] == Block::Air,
        n <= SECTOR_LEN,
    ensures
        spec_mesh_prefix(blocks, adj, n) == Seq::<Vertex>::empty(),
    decreases n,
{
    if n > 0 {
        lemma_all_air_prefix_empty(blocks, adj, n - 1);
        crate::voxel::lemma_from_index_wf(n - 1);
        assert(spec_mesh_prefix(blocks, adj, n) =~= Seq::<Vertex>::empty());
    }
}

/// Decide whether a block's face is visible: it is culled exactly when
/// the occluding neighbor block (from the same sector away from a
/// boundary, else from the matching position of the face-adjacent
/// sector) is solid.
pub fn should_create_face(
    face: Face,
    coord: SectorSpaceCoords,
    blocks: &BlockList,
    adjacent: &AdjacentSectors,
) -> (r: bool)
    requires
        coord.wf(),
        blocks.wf(),
        adjacent.wf(),
    ensures
        r == spec_face_visible(blocks@, adjacent@, coord, face),
{
    let boundary_coord: u8 = (SECTOR_SIZE_PAD - 1) as u8;
    let neighbor: Block = match face {
        Face::Back => match coord.back() {
            Some(c) => blocks.get(c),
            None => adjacent.back.get(
                SectorSpaceCoords::new(coord.x(), coord.y(), boundary_coord),
            ),
        },
        Face::Front => match coord.front() {
            Some(c) => blocks.get(c),
            None => adjacent.front.get(SectorSpaceCoords::new(coord.x(), coord.y(), 0)),
        },
        Face::Top => match coord.top() {
            Some(c) => blocks.get(c),
            None => adjacent.top.get(SectorSpaceCoords::new(coord.x(), 0, coord.z())),
        },
        Face::Bottom => match coord.bottom() {
            Some(c) => blocks.get(c),
            None => adjacent.bottom.get(
                SectorSpaceCoords::new(coord.x(), boundary_coord, coord.z()),
            ),
        },
        Face::Left => match coord.left() {
            Some(c) => blocks.get(c),
            None => adjacent.left.get(
                SectorSpaceCoords::new(boundary_coord, coord.y(), coord.z()),
            ),
        },
        Face::Right => match coord.right() {
            Some(c) => blocks.get(c),
            None => adjacent.right.get(SectorSpaceCoords::new(0, coord.y(), coord.z())),
        },
    };
    neighbor.is_air()
}

/// The numeric face tag of a face direction.
fn face_num(f: Face) -> (r: u32)
    ensures
        r == spec_face_num(f),
{
    match f {
        Face::Back => 0,
        Face::Front => 1,
        Face::Top => 2,
        Face::Bottom => 3,
        Face::Left => 4,
        Face::Right => 5,
    }
}

/// Append the six vertices of one visible face quad to the mesh.
fn generate_face(out: &mut Vec<Vertex>, coord: SectorSpaceCoords, block: Block, face: Face)
    requires
        coord.wf(),
        block != Block::Air,
    ensures
        final(out)@ == old(out)@ + spec_face_quad(coord, block, face),
{
    let num = block.atlas_index();
    let u1 = (num + 1) * TILE_SIZE;
    let u0 = num * TILE_SIZE;
    let fnum = face_num(face);
    let (o0, o1, o2, o3): ((u8, u8, u8), (u8, u8, u8), (u8, u8, u8), (u8, u8, u8)) = match face {
        Face::Back => ((0, 0, 0), (0, 1, 0), (1, 1, 0), (1, 0, 0)),
        Face::Front => ((1, 0, 1), (1, 1, 1), (0, 1, 1), (0, 0, 1)),
        Face::Top => ((1, 1, 1), (1, 1, 0), (0, 1, 0), (0, 1, 1)),
        Face::Bottom => ((1, 0, 0), (1, 0, 1), (0, 0, 1), (0, 0, 0)),
        Face::Left => ((0, 0, 1), (0, 1, 1), (0, 1, 0), (0, 0, 0)),
        Face::Right => ((1, 0, 0), (1, 1, 0), (1, 1, 1), (1, 0, 1)),
    };
    let vtx0 = Vertex {
        x: coord.x() + o0.0,
        y: coord.y() + o0.1,
        z: coord.z() + o0.2,
        u: u1,
        v: TILE_SIZE,
        face: fnum,
    };
    let vtx1 = Vertex {
        x: coord.x() + o1.0,
        y: coord.y() + o1.1,
        z: coord.z() + o1.2,
        u: u1,
        v: 0,
        face: fnum,
    };
    let vtx2 = Vertex {
        x: coord.x() + o2.0,
        y: coord.y() + o2.1,
        z: coord.z() + o2.2,
        u: u0,
        v: 0,
        face: fnum,
    };
    let vtx3 = Vertex {
        x: coord.x() + o3.0,
        y: coord.y() + o3.1,
        z: coord.z() + o3.2,
        u: u0,
        v: TILE_SIZE,
        face: fnum,
    };
    out.push(vtx0);
    out.push(vtx1);
    out.push(vtx2);
    out.push(vtx0);
    out.push(vtx2);
    out.push(vtx3);
    proof {
        reveal(spec_face_quad);
        assert(out@ =~= old(out)@ + spec_face_quad(coord, block, face));
    }
}

/// Append the vertices that one block contributes to the mesh: its
/// visible faces in a fixed order, nothing for air.
#[verifier::rlimit(100)]
fn mesh_cell(
    out: &mut Vec<Vertex>,
    blocks: &BlockList,
    adjacent: &AdjacentSectors,
    c: SectorSpaceCoords,
)
    requires
        c.wf(),
        blocks.wf(),
        adjacent.wf(),
    ensures
        final(out)@ == old(out)@ + spec_cell_vertices(blocks@, adjacent@, c),
{
    let ghost prefix = out@;
    let block = blocks.get(c);
    if !block.is_air() {
        let ghost mut acc = out@;
        if should_create_face(Face::Back, c, blocks, adjacent) {
            generate_face(out, c, block, Face::Back);
        }
        proof {
            let part = spec_face_part(blocks@, adjacent@, c, block, Face::Back);
            assert(out@ =~= acc + part);
            acc = acc + part;
        }
        if should_create_face(Face::Front, c, blocks, adjacent) {
            generate_face(out, c, block, Face::Front);
        }
        proof {
            let part = spec_face_part(blocks@, adjacent@, c, block, Face::Front);
            assert(out@ =~= acc + part);
            acc = acc + part;
        }
        if should_create_face(Face::Top, c, blocks, adjacent) {
            generate_face(out, c, block, Face::Top);
        }
        proof {
            let part = spec_face_part(blocks@, adjacent@, c, block, Face::Top);
            assert(out@ =~= acc + part);
            acc = acc + part;
        }
        if should_create_face(Face::Bottom, c, blocks, adjacent) {
            generate_face(out, c, block, Face::Bottom);
        }
        proof {
            let part = spec_face_part(blocks@, adjacent@, c, block, Face::Bottom);
            assert(out@ =~= acc + part);
            acc = acc + part;
        }
        if should_create_face(Face::Left, c, blocks, adjacent) {
            generate_face(out, c, block, Face::Left);
        }
        proof {
            let part = spec_face_part(blocks@, adjacent@, c, block, Face::Left);
            assert(out@ =~= acc + part);
            acc = acc + part;
        }
        if should_create_face(Face::Right, c, blocks, adjacent) {
            generate_face(out, c, block, Face::Right);
        }
        proof {
            let part = spec_face_part(blocks@, adjacent@, c, block, Face::Right);
            assert(out@ =~= acc + part);
            acc = acc + part;
            assert(acc =~= prefix + spec_cell_vertices(blocks@, adjacent@, c));
        }
    } else {
        proof {
            assert(out@ =~= prefix + spec_cell_vertices(blocks@, adjacent@, c));
        }
    }
}

/// Generate the surface mesh for a `BlockList` against its six
/// face-adjacent neighbor sectors.
#[verifier::rlimit(60)]
pub fn generate_block_vertices(blocks: &BlockList, adjacent: &AdjacentSectors) -> (out: Vec<
    Vertex,
>)
    requires
        blocks.wf(),
        adjacent.wf(),
    ensures
        out@ == spec_mesh(blocks@, adjacent@),
{
    let mut out: Vec<Vertex> = Vec::new();
    let mut i: usize = 0;
    while i < SECTOR_LEN
        invariant
            i <= SECTOR_LEN,
            blocks.wf(),
            adjacent.wf(),
            out@ == spec_mesh_prefix(blocks@, adjacent@, i as int),
        decreases SECTOR_LEN - i,
    {
        let c = SectorSpaceCoords::from_index(i);
        mesh_cell(&mut out, blocks, adjacent, c);
        i = i + 1;
        proof {
            assert(out@ =~= spec_mesh_prefix(blocks@, adjacent@, i as int));
        }
    }
    out
}

} // verus!
