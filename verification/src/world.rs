//! The per-chunk meshing pass: walk a chunk's occupied cells, resolve each
//! block's face visibility against the live grid, mesh the visible faces,
//! and compute the block's world-space placement.

use crate::chunk::{cell_index, visible_faces, Block, Chunk, CHUNK_CELLS, CHUNK_H};
use crate::mesh::{gen_cube, mesh_indices, mesh_vertices, Mesh};
use vstd::prelude::*;

verus! {

/// One block's renderable output: its mesh fragment and the world-space
/// cell it is placed at.
pub struct PlacedMesh {
    pub mesh: Mesh,
    pub x: isize,
    pub y: isize,
    pub z: isize,
}

/// The blocks of the first `n` cells of a chunk, in cell-index order.
pub open spec fn blocks_upto(c: Chunk, n: int) -> Seq<Block>
    decreases n,
{
    if n <= 0 {
        Seq::empty()
    } else {
        blocks_upto(c, n - 1) + (if c.blocks@[n - 1] is Some {
            seq![c.blocks@[n - 1]->0]
        } else {
            Seq::empty()
        })
    }
}

/// World-space position of a local coordinate: chunks offset the two
/// horizontal axes by their grid position times the horizontal extent and
/// leave the vertical axis unchanged.
pub open spec fn world_coord(chunk_coord: int, local: int) -> int {
    local + chunk_coord * (CHUNK_H as int)
}

/// Mesh every block of a chunk: one placed mesh fragment per occupied
/// cell, in cell-index order. Each fragment holds exactly the faces of its
/// block that border empty space or leave the chunk, and sits at the
/// block's world-space cell.
///
/// The pass is a pure function of the chunk's state: running it again on
/// an unchanged chunk reproduces the same meshes at the same placements.
///
/// The bounds on the chunk's grid position keep every block's world
/// coordinate within the machine's integer range; a stored block's local
/// coordinates never exceed the largest cell index.
pub fn chunk_meshes(c: &Chunk) -> (out: Vec<PlacedMesh>)
    requires
        c.wf(),
        isize::MIN as int <= c.pos[0] as int * (CHUNK_H as int),
        c.pos[0] as int * (CHUNK_H as int) + (CHUNK_CELLS as int) <= isize::MAX as int,
        isize::MIN as int <= c.pos[1] as int * (CHUNK_H as int),
        c.pos[1] as int * (CHUNK_H as int) + (CHUNK_CELLS as int) <= isize::MAX as int,
    ensures
        out@.len() == blocks_upto(*c, CHUNK_CELLS as int).len(),
        forall|k: int|
            0 <= k < out@.len() ==> {
                let b = blocks_upto(*c, CHUNK_CELLS as int)[k];
                &&& (#[trigger] out@[k]).mesh.vertices@ == mesh_vertices(visible_faces(*c, b.pos), 6)
                &&& out@[k].mesh.indices@ == mesh_indices(visible_faces(*c, b.pos), 6)
                &&& out@[k].x == world_coord(c.pos[0] as int, b.pos[0] as int)
                &&& out@[k].y == b.pos[1] as int
                &&& out@[k].z == world_coord(c.pos[1] as int, b.pos[2] as int)
            },
{
    let mut out: Vec<PlacedMesh> = Vec::new();
    let mut i: usize = 0;
    while i < CHUNK_CELLS
        invariant
            i <= CHUNK_CELLS,
            c.wf(),
            isize::MIN as int <= c.pos[0] as int * (CHUNK_H as int),
            c.pos[0] as int * (CHUNK_H as int) + (CHUNK_CELLS as int) <= isize::MAX as int,
            isize::MIN as int <= c.pos[1] as int * (CHUNK_H as int),
            c.pos[1] as int * (CHUNK_H as int) + (CHUNK_CELLS as int) <= isize::MAX as int,
            out@.len() == blocks_upto(*c, i as int).len(),
            forall|k: int|
                0 <= k < out@.len() ==> {
                    let b = blocks_upto(*c, i as int)[k];
                    &&& (#[trigger] out@[k]).mesh.vertices@ == mesh_vertices(
                        visible_faces(*c, b.pos),
                        6,
                    )
                    &&& out@[k].mesh.indices@ == mesh_indices(visible_faces(*c, b.pos), 6)
                    &&& out@[k].x == world_coord(c.pos[0] as int, b.pos[0] as int)
                    &&& out@[k].y == b.pos[1] as int
                    &&& out@[k].z == world_coord(c.pos[1] as int, b.pos[2] as int)
                },
        decreases CHUNK_CELLS - i,
    {
        if let Some(block) = c.blocks[i] {
            let faces = c.neighbor_blocks(block.pos);
            let mesh = gen_cube(faces);
            // A stored block's coordinates map back to its cell, so each
            // local coordinate is bounded by the grid: x and z by their
            // index weight, y by the vertical extent.
            proof {
                assert(cell_index(
                    block.pos[0] as int,
                    block.pos[1] as int,
                    block.pos[2] as int,
                ) == i as int);
            }
            let x = block.pos[0] as isize + c.pos[0] * (CHUNK_H as isize);
            let y = block.pos[1] as isize;
            let z = block.pos[2] as isize + c.pos[1] * (CHUNK_H as isize);
            out.push(PlacedMesh { mesh, x, y, z });
        }
        i = i + 1;
    }
    out
}

} // verus!
