//! The chunk store: a fixed-capacity 3D grid of optional blocks, with
//! bounds-checked coordinate/index mapping, insertion, and the face
//! visibility resolver.

use vstd::prelude::*;

verus! {

/// Horizontal extent of a chunk on the x and z axes, in cells.
pub const CHUNK_H: usize = 8;

/// Vertical extent of a chunk on the y axis, in cells.
pub const CHUNK_V: usize = 16;

/// Number of cells in one chunk.
pub const CHUNK_CELLS: usize = 8 * 8 * 16;

/// Linear cell index of local coordinates `[x, y, z]`.
///
/// The mapping is deliberately not row-major: y carries the stride H*H and
/// z the stride H, while x and z share the bound H and only y is bounded by
/// V. On the domain where `in_bounds` holds it is a bijection onto
/// `[0, CHUNK_CELLS)`; see `lemma_cell_index_injective`.
pub open spec fn cell_index(x: int, y: int, z: int) -> int {
    x + y * ((CHUNK_H * CHUNK_H) as int) + z * (CHUNK_H as int)
}

/// Local coordinates that lie inside a chunk's cell grid.
pub open spec fn in_bounds(x: int, y: int, z: int) -> bool {
    &&& 0 <= x < CHUNK_H as int
    &&& 0 <= y < CHUNK_V as int
    &&& 0 <= z < CHUNK_H as int
}

/// A solid unit cube occupying one cell of a chunk.
///
/// `pos` holds the block's local coordinates within its owning chunk. The
/// `faces` mask is derived output metadata: visibility is always recomputed
/// from the live grid by `Chunk::neighbor_blocks`, never read back from here.
#[derive(Debug, Clone, Copy, PartialEq)]
pub struct Block {
    pub faces: [bool; 6],
    pub pos: [usize; 3],
}

/// A fixed-size grid of `CHUNK_CELLS` optional blocks, located on the world's
/// chunk grid by `pos = [cx, cz]` (chunks are never stacked vertically).
pub struct Chunk {
    pub blocks: Vec<Option<Block>>,
    pub pos: [isize; 2],
}

/// What inserting `b` does to a grid: if the block's cell index is in range,
/// the cell is overwritten (last write wins); otherwise the grid is
/// unchanged and the block is silently dropped.
///
/// The range check is on the index alone, so coordinates outside the bounds
/// box whose index still lands in `[0, CHUNK_CELLS)` — an x beyond the
/// horizontal extent with small y and z, say — do overwrite that cell.
pub open spec fn grid_insert(blocks: Seq<Option<Block>>, b: Block) -> Seq<Option<Block>> {
    let i = cell_index(b.pos[0] as int, b.pos[1] as int, b.pos[2] as int);
    if 0 <= i < CHUNK_CELLS as int {
        blocks.update(i, Some(b))
    } else {
        blocks
    }
}

/// One step up on an unsigned coordinate, wrapping at the type boundary,
/// as a mathematical integer.
pub open spec fn wrap_inc(v: usize) -> int {
    if v == usize::MAX {
        0
    } else {
        v + 1
    }
}

/// One step down on an unsigned coordinate, wrapping at the type boundary,
/// as a mathematical integer. A step below zero lands on `usize::MAX`,
/// which every bounds check classifies as outside the chunk.
pub open spec fn wrap_dec(v: usize) -> int {
    if v == 0 {
        usize::MAX as int
    } else {
        v - 1
    }
}

/// The visibility mask `neighbor_blocks` resolves for a cell: one flag per
/// axis-aligned direction, true exactly when the neighboring cell in that
/// direction is outside the chunk or empty. Order: z+1, z-1, x+1, x-1,
/// y+1, y-1.
pub open spec fn visible_faces(c: Chunk, pos: [usize; 3]) -> Seq<bool> {
    seq![
        !c.solid_at(pos[0] as int, pos[1] as int, wrap_inc(pos[2])),
        !c.solid_at(pos[0] as int, pos[1] as int, wrap_dec(pos[2])),
        !c.solid_at(wrap_inc(pos[0]), pos[1] as int, pos[2] as int),
        !c.solid_at(wrap_dec(pos[0]), pos[1] as int, pos[2] as int),
        !c.solid_at(pos[0] as int, wrap_inc(pos[1]), pos[2] as int),
        !c.solid_at(pos[0] as int, wrap_dec(pos[1]), pos[2] as int),
    ]
}

/// Number of occupied cells in a grid.
pub open spec fn occupied_count(blocks: Seq<Option<Block>>) -> nat
    decreases blocks.len(),
{
    if blocks.len() == 0 {
        0nat
    } else {
        occupied_count(blocks.drop_last()) + (if blocks.last() is Some {
            1nat
        } else {
            0nat
        })
    }
}

impl Chunk {
    /// Structural invariant: the grid has exactly `CHUNK_CELLS` cells, and a
    /// block stored at cell `i` has coordinates whose index is `i` — the
    /// store computes the cell from the coordinates on insert, so the two
    /// can never disagree.
    pub open spec fn wf(self) -> bool {
        &&& self.blocks@.len() == CHUNK_CELLS as int
        &&& forall|i: int|
            0 <= i < CHUNK_CELLS as int && (#[trigger] self.blocks@[i]) is Some
                ==> cell_index(
                    self.blocks@[i]->0.pos[0] as int,
                    self.blocks@[i]->0.pos[1] as int,
                    self.blocks@[i]->0.pos[2] as int,
                ) == i
    }

    /// The cell at local coordinates `(x, y, z)` exists and holds a block.
    pub open spec fn solid_at(self, x: int, y: int, z: int) -> bool {
        in_bounds(x, y, z) && self.blocks@[cell_index(x, y, z)] is Some
    }

    /// An empty chunk at chunk-grid coordinates `[x, y]`.
    pub fn new(x: isize, y: isize) -> (c: Chunk)
        ensures
            c.wf(),
            c.pos[0] == x,
            c.pos[1] == y,
            forall|i: int| 0 <= i < CHUNK_CELLS as int ==> c.blocks@[i] is None,
    {
        let mut blocks: Vec<Option<Block>> = Vec::new();
        let mut i: usize = 0;
        while i < CHUNK_CELLS
            invariant
                i <= CHUNK_CELLS,
                blocks@.len() == i as int,
                forall|j: int| 0 <= j < i as int ==> blocks@[j] is None,
            decreases CHUNK_CELLS - i,
        {
            blocks.push(None);
            i = i + 1;
        }
        Chunk { blocks, pos: [x, y] }
    }

    /// Insert a block at the cell its own coordinates map to, overwriting
    /// any occupant there; a block whose index falls out of range is
    /// silently dropped. Insertion is total: it never fails and never
    /// panics.
    pub fn add(self, block: Block) -> (c: Chunk)
        requires
            self.wf(),
        ensures
            c.wf(),
            c.pos == self.pos,
            c.blocks@ == grid_insert(self.blocks@, block),
    {
        let mut c = self;
        // Each guard bounds one term of the index so that the sum cannot
        // overflow; a coordinate that fails its guard forces the index past
        // the cell range, where insertion is a no-op anyway.
        if block.pos[0] < CHUNK_CELLS && block.pos[1] < CHUNK_V && block.pos[2] < CHUNK_CELLS / CHUNK_H {
            let i: usize = block.pos[0] + block.pos[1] * (CHUNK_H * CHUNK_H) + block.pos[2] * CHUNK_H;
            if i < CHUNK_CELLS {
                c.blocks[i] = Some(block);
            }
        }
        c
    }

    /// The linear cell index of `pos`, as the store computes it.
    pub fn coords_to_index(pos: [usize; 3]) -> (i: isize)
        requires
            cell_index(pos[0] as int, pos[1] as int, pos[2] as int) <= isize::MAX as int,
        ensures
            i == cell_index(pos[0] as int, pos[1] as int, pos[2] as int),
    {
        pos[0] as isize + (pos[1] * (CHUNK_H * CHUNK_H)) as isize + (pos[2] * CHUNK_H) as isize
    }

    /// Whether the cell at `pos` holds a block. Coordinates outside the
    /// bounds box — including the huge values a wrapped neighbor step
    /// produces — are classified as empty, never an error.
    pub fn has_block(&self, pos: [usize; 3]) -> (b: bool)
        requires
            self.wf(),
        ensures
            b == self.solid_at(pos[0] as int, pos[1] as int, pos[2] as int),
    {
        if pos[0] >= CHUNK_H || pos[1] >= CHUNK_V || pos[2] >= CHUNK_H {
            false
        } else {
            let index = Self::coords_to_index(pos);
            // The read side accepts `index == CHUNK_CELLS` where the write
            // side in `add` does not; the bounds test above keeps the index
            // at most CHUNK_CELLS - 1, so the asymmetry is unobservable.
            if index >= 0 && index <= CHUNK_CELLS as isize {
                self.blocks[index as usize].is_some()
            } else {
                false
            }
        }
    }

    /// The face visibility resolver: for each of the six axis-aligned
    /// neighbor offsets, the face in that direction is visible exactly when
    /// the neighboring cell is outside the chunk or empty. Neighbor
    /// coordinates wrap at the type boundary, so a step below zero lands
    /// far outside the grid and the face counts as visible; a neighbor in
    /// an adjacent chunk is always treated as absent.
    pub fn neighbor_blocks(&self, pos: [usize; 3]) -> (faces: [bool; 6])
        requires
            self.wf(),
        ensures
            faces@ == visible_faces(*self, pos),
    {
        let f0 = !self.has_block([pos[0], pos[1], pos[2].wrapping_add(1)]);
        let f1 = !self.has_block([pos[0], pos[1], pos[2].wrapping_sub(1)]);
        let f2 = !self.has_block([pos[0].wrapping_add(1), pos[1], pos[2]]);
        let f3 = !self.has_block([pos[0].wrapping_sub(1), pos[1], pos[2]]);
        let f4 = !self.has_block([pos[0], pos[1].wrapping_add(1), pos[2]]);
        let f5 = !self.has_block([pos[0], pos[1].wrapping_sub(1), pos[2]]);
        let faces = [f0, f1, f2, f3, f4, f5];
        proof {
            assert(faces@ =~= visible_faces(*self, pos));
        }
        faces
    }
}

/// Distinct in-range local coordinates map to distinct cell indices: the
/// coordinate mapping is injective on the bounds box.
pub proof fn lemma_cell_index_injective(x1: int, y1: int, z1: int, x2: int, y2: int, z2: int)
    requires
        in_bounds(x1, y1, z1),
        in_bounds(x2, y2, z2),
        cell_index(x1, y1, z1) == cell_index(x2, y2, z2),
    ensures
        x1 == x2,
        y1 == y2,
        z1 == z2,
{
    // x + 8z fills [0, 64) exactly, so the y digits must agree, then the
    // z digits, then x.
    assert(cell_index(x1, y1, z1) == (x1 + 8 * z1) + 64 * y1);
    assert(cell_index(x2, y2, z2) == (x2 + 8 * z2) + 64 * y2);
    assert(0 <= x1 + 8 * z1 <= 63);
    assert(0 <= x2 + 8 * z2 <= 63);
    assert(64 * (y1 - y2) == (x2 + 8 * z2) - (x1 + 8 * z1));
    assert(-64 < 64 * (y1 - y2) < 64);
    assert(y1 == y2);
    assert(8 * (z1 - z2) == x2 - x1);
    assert(-8 < 8 * (z1 - z2) < 8);
    assert(z1 == z2);
}

/// On the bounds box the cell index stays inside the grid.
pub proof fn lemma_cell_index_range(x: int, y: int, z: int)
    requires
        in_bounds(x, y, z),
    ensures
        0 <= cell_index(x, y, z) < CHUNK_CELLS as int,
{
}

/// A block whose cell index falls outside the grid is dropped, so the
/// number of occupied cells does not change — the whole grid is untouched.
///
/// Out-of-bounds coordinates whose index still lands inside the grid (an x
/// beyond the horizontal extent with small y and z) overwrite that cell
/// instead; `grid_insert` records that permissive policy exactly.
pub proof fn lemma_insert_outside_grid_keeps_count(blocks: Seq<Option<Block>>, b: Block)
    requires
        !in_bounds(b.pos[0] as int, b.pos[1] as int, b.pos[2] as int),
        !(0 <= cell_index(b.pos[0] as int, b.pos[1] as int, b.pos[2] as int) < CHUNK_CELLS as int),
    ensures
        grid_insert(blocks, b) == blocks,
        occupied_count(grid_insert(blocks, b)) == occupied_count(blocks),
{
}

/// An isolated block — its chunk holds no block at any other cell — has
/// all six faces visible.
pub proof fn lemma_isolated_block_all_visible(c: Chunk, pos: [usize; 3])
    requires
        c.wf(),
        in_bounds(pos[0] as int, pos[1] as int, pos[2] as int),
        forall|i: int|
            0 <= i < CHUNK_CELLS as int && (#[trigger] c.blocks@[i]) is Some
                ==> i == cell_index(pos[0] as int, pos[1] as int, pos[2] as int),
    ensures
        visible_faces(c, pos) == seq![true, true, true, true, true, true],
{
    assert(visible_faces(c, pos) =~= seq![true, true, true, true, true, true]);
}

/// A solid neighbor one step up in z hides exactly the face toward it:
/// with no other neighbor placed, the mask is false there and true for the
/// five other directions.
pub proof fn lemma_solid_neighbor_hides_face(c: Chunk, pos: [usize; 3])
    requires
        c.wf(),
        in_bounds(pos[0] as int, pos[1] as int, pos[2] as int),
        c.solid_at(pos[0] as int, pos[1] as int, pos[2] as int + 1),
        forall|i: int|
            0 <= i < CHUNK_CELLS as int && (#[trigger] c.blocks@[i]) is Some
                ==> i == cell_index(pos[0] as int, pos[1] as int, pos[2] as int)
                    || i == cell_index(pos[0] as int, pos[1] as int, pos[2] as int + 1),
    ensures
        visible_faces(c, pos) == seq![false, true, true, true, true, true],
{
    assert(visible_faces(c, pos) =~= seq![false, true, true, true, true, true]);
}

/// At the zero boundary the neighbor step toward negative x wraps to
/// `usize::MAX`, which is classified as outside the chunk: the x-minus
/// face of a block at x == 0 is always visible, whatever the chunk holds.
pub proof fn lemma_zero_boundary_face_visible(c: Chunk, y: usize, z: usize)
    ensures
        !c.solid_at(wrap_dec(0usize), y as int, z as int),
        visible_faces(c, [0usize, y, z])[3] == true,
{
}

} // verus!
