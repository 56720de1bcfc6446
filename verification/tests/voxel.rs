use voxel_mesh::chunk::{Block, Chunk, CHUNK_CELLS, CHUNK_H, CHUNK_V};
use voxel_mesh::mesh::{gen_cube, Vertex};
use voxel_mesh::world::{chunk_meshes, PlacedMesh};

fn block_at(x: usize, y: usize, z: usize) -> Block {
    Block { faces: [false; 6], pos: [x, y, z] }
}

fn occupied(c: &Chunk) -> usize {
    c.blocks.iter().filter(|b| b.is_some()).count()
}

/// The vertex table gen_cube draws from, as an independent oracle:
/// position (hundredths of a unit), normal, uv — four rows per face, in
/// face order z+, z-, x+, x-, y+, y-.
const TABLE: [[i32; 8]; 24] = [
    [-45, -45, 45, 0, 0, 1, 0, 0],
    [45, -45, 45, 0, 0, 1, 1, 0],
    [45, 45, 45, 0, 0, 1, 1, 1],
    [-45, 45, 45, 0, 0, 1, 0, 1],
    [-45, 45, -45, 0, 0, -1, 1, 0],
    [45, 45, -45, 0, 0, -1, 0, 0],
    [45, -45, -45, 0, 0, -1, 0, 1],
    [-45, -45, -45, 0, 0, -1, 1, 1],
    [45, -45, -45, 1, 0, 0, 0, 0],
    [45, 45, -45, 1, 0, 0, 1, 0],
    [45, 45, 45, 1, 0, 0, 1, 1],
    [45, -45, 45, 1, 0, 0, 0, 1],
    [-45, -45, 45, -1, 0, 0, 1, 0],
    [-45, 45, 45, -1, 0, 0, 0, 0],
    [-45, 45, -45, -1, 0, 0, 0, 1],
    [-45, -45, -45, -1, 0, 0, 1, 1],
    [45, 45, -45, 0, 1, 0, 1, 0],
    [-45, 45, -45, 0, 1, 0, 0, 0],
    [-45, 45, 45, 0, 1, 0, 0, 1],
    [45, 45, 45, 0, 1, 0, 1, 1],
    [45, -45, 45, 0, -1, 0, 0, 0],
    [-45, -45, 45, 0, -1, 0, 1, 0],
    [-45, -45, -45, 0, -1, 0, 1, 1],
    [45, -45, -45, 0, -1, 0, 0, 1],
];

fn assert_vertex_is_row(v: &Vertex, row: &[i32; 8]) {
    assert_eq!([v.px, v.py, v.pz, v.nx, v.ny, v.nz, v.u, v.v], *row);
}

#[test]
fn coords_to_index_formula() {
    assert_eq!(Chunk::coords_to_index([0, 0, 0]), 0);
    assert_eq!(Chunk::coords_to_index([1, 0, 0]), 1);
    assert_eq!(Chunk::coords_to_index([0, 1, 0]), 64);
    assert_eq!(Chunk::coords_to_index([0, 0, 1]), 8);
    assert_eq!(Chunk::coords_to_index([3, 2, 3]), 3 + 2 * 64 + 3 * 8);
    assert_eq!(Chunk::coords_to_index([7, 15, 7]), 1023);
}

#[test]
fn coords_to_index_injective_over_grid() {
    let mut seen = [false; CHUNK_CELLS];
    for x in 0..CHUNK_H {
        for y in 0..CHUNK_V {
            for z in 0..CHUNK_H {
                let i = Chunk::coords_to_index([x, y, z]);
                assert!(i >= 0 && (i as usize) < CHUNK_CELLS, "index out of range");
                assert!(!seen[i as usize], "two coordinates collided at {}", i);
                seen[i as usize] = true;
            }
        }
    }
    assert!(seen.iter().all(|&s| s), "mapping is onto the whole grid");
}

#[test]
fn out_of_grid_insert_keeps_count() {
    let c = Chunk::new(0, 0);
    let c = c.add(block_at(3, 2, 3));
    assert_eq!(occupied(&c), 1);
    // Each of these maps to an index at or past the cell range and is
    // silently dropped.
    let c = c.add(block_at(0, CHUNK_V, 0));
    assert_eq!(occupied(&c), 1);
    let c = c.add(block_at(CHUNK_CELLS, 0, 0));
    assert_eq!(occupied(&c), 1);
    let c = c.add(block_at(usize::MAX, usize::MAX, usize::MAX));
    assert_eq!(occupied(&c), 1);
    let c = c.add(block_at(1000, 15, 127));
    assert_eq!(occupied(&c), 1);
}

#[test]
fn out_of_bounds_insert_with_small_index_lands_in_grid() {
    // The write check is on the index alone: x = 9 is outside the bounds
    // box, but its index is 9, so the block overwrites cell 9 (which is
    // cell [1, 0, 1]). The permissive builder policy makes this a stored
    // write, not a drop.
    let c = Chunk::new(0, 0);
    let c = c.add(block_at(9, 0, 0));
    assert_eq!(occupied(&c), 1);
    assert!(c.blocks[9].is_some());
    // The bounds-checked read side still reports the cell through its
    // in-range coordinates only.
    assert!(!c.has_block([9, 0, 0]));
    assert!(c.has_block([1, 0, 1]));
}

#[test]
fn write_and_read_bound_asymmetry() {
    // The write side rejects an index equal to the cell count; the read
    // side would accept it, but its coordinate pre-check (x < H, y < V,
    // z < H) keeps any computed index below the cell count, so the
    // off-by-one is unobservable.
    let c = Chunk::new(0, 0);
    let c = c.add(block_at(0, CHUNK_V, 0)); // index exactly CHUNK_CELLS
    assert_eq!(occupied(&c), 0);
    assert!(!c.has_block([0, CHUNK_V, 0]));
    // The last cell is reachable by both sides.
    let c = c.add(block_at(7, 15, 7)); // index CHUNK_CELLS - 1
    assert_eq!(occupied(&c), 1);
    assert!(c.has_block([7, 15, 7]));
}

#[test]
fn add_overwrites_same_cell() {
    let c = Chunk::new(0, 0);
    let c = c.add(block_at(4, 4, 4));
    let c = c.add(block_at(4, 4, 4));
    assert_eq!(occupied(&c), 1);
}

#[test]
fn isolated_block_has_all_faces_visible() {
    let c = Chunk::new(0, 0);
    let c = c.add(block_at(3, 7, 4));
    assert_eq!(c.neighbor_blocks([3, 7, 4]), [true; 6]);
}

#[test]
fn solid_neighbor_hides_exactly_its_face() {
    let c = Chunk::new(0, 0);
    let c = c.add(block_at(3, 2, 3));
    let c = c.add(block_at(3, 2, 4)); // neighbor at pos + [0, 0, 1]
    assert_eq!(c.neighbor_blocks([3, 2, 3]), [false, true, true, true, true, true]);
    // And seen from the neighbor, only the face back toward the block is
    // hidden.
    assert_eq!(c.neighbor_blocks([3, 2, 4]), [true, false, true, true, true, true]);
}

#[test]
fn zero_boundary_neighbor_is_absent_not_wrapped() {
    // A block at minimum x: the step toward x - 1 wraps below zero and
    // must classify as outside the chunk (visible face), not read some
    // other valid cell and not panic.
    let mut c = Chunk::new(0, 0);
    for x in 0..CHUNK_H {
        for y in 0..CHUNK_V {
            for z in 0..CHUNK_H {
                c = c.add(block_at(x, y, z));
            }
        }
    }
    let faces = c.neighbor_blocks([0, 5, 5]);
    assert!(faces[3], "x-minus face at x == 0 must be visible");
    // Fully surrounded interior block: nothing visible.
    assert_eq!(c.neighbor_blocks([3, 5, 5]), [false; 6]);
    // Every boundary-facing face of a corner block is visible.
    assert_eq!(c.neighbor_blocks([0, 0, 0]), [false, true, false, true, false, true]);
}

#[test]
fn full_mask_emits_whole_cube() {
    let m = gen_cube([true; 6]);
    assert_eq!(m.vertices.len(), 24);
    assert_eq!(m.indices.len(), 36);
    assert_eq!(m.indices.len() % 3, 0); // 12 triangles
    for &i in m.indices.iter() {
        assert!((i as usize) < m.vertices.len());
    }
    for (k, v) in m.vertices.iter().enumerate() {
        assert_vertex_is_row(v, &TABLE[k]);
    }
    let expected: Vec<u32> = (0..6u32)
        .flat_map(|f| [4 * f, 4 * f + 1, 4 * f + 2, 4 * f + 2, 4 * f + 3, 4 * f])
        .collect();
    assert_eq!(m.indices, expected);
}

#[test]
fn single_face_mask_emits_one_face() {
    for f in 0..6 {
        let mut faces = [false; 6];
        faces[f] = true;
        let m = gen_cube(faces);
        assert_eq!(m.vertices.len(), 4);
        assert_eq!(m.indices.len(), 6); // two triangles
        assert_eq!(m.indices, vec![0, 1, 2, 2, 3, 0], "indices must be rebased, not stale");
        for j in 0..4 {
            assert_vertex_is_row(&m.vertices[j], &TABLE[4 * f + j]);
        }
    }
}

#[test]
fn empty_mask_emits_nothing() {
    let m = gen_cube([false; 6]);
    assert_eq!(m.vertices.len(), 0);
    assert_eq!(m.indices.len(), 0);
}

#[test]
fn single_block_chunk_meshes_once_at_its_cell() {
    let c = Chunk::new(0, 0);
    let c = c.add(block_at(3, 2, 3));
    let out = chunk_meshes(&c);
    assert_eq!(out.len(), 1, "the mesher runs once per occupied cell");
    let p: &PlacedMesh = &out[0];
    assert_eq!(p.mesh.vertices.len(), 24, "an isolated block is fully exposed");
    assert_eq!(p.mesh.indices.len(), 36);
    assert_eq!((p.x, p.y, p.z), (3, 2, 3));
}

#[test]
fn parity_world_meshes_even_cells_only() {
    // Two chunks: a full one at [0, 0] and one at [-1, 0] holding blocks
    // only where x + y + z is even.
    let mut full = Chunk::new(0, 0);
    let mut parity = Chunk::new(-1, 0);
    for x in 0..CHUNK_H {
        for y in 0..CHUNK_V {
            for z in 0..CHUNK_H {
                full = full.add(block_at(x, y, z));
                if (x + y + z) % 2 == 0 {
                    parity = parity.add(block_at(x, y, z));
                }
            }
        }
    }
    let out_full = chunk_meshes(&full);
    assert_eq!(out_full.len(), CHUNK_CELLS);

    let out = chunk_meshes(&parity);
    assert_eq!(out.len(), CHUNK_CELLS / 2);
    let h = CHUNK_H as isize;
    for p in out.iter() {
        // Recover local coordinates from the placement of chunk [-1, 0].
        let (lx, ly, lz) = (p.x - (-1) * h, p.y, p.z - 0 * h);
        assert!(0 <= lx && lx < h && 0 <= ly && (ly as usize) < CHUNK_V && 0 <= lz && lz < h);
        assert_eq!((lx + ly + lz) % 2, 0, "no odd-parity cell may be meshed");
    }
    // The block at local [0, 0, 0] of chunk [-1, 0] sits at world x = -8.
    let origin = out
        .iter()
        .find(|p| (p.y, p.z) == (0, 0) && p.x < 0 && p.x - (-1) * h == 0)
        .expect("local [0,0,0] is even-parity and must be meshed");
    assert_eq!((origin.x, origin.y, origin.z), (-8, 0, 0));
}

#[test]
fn meshing_pass_is_idempotent() {
    let c = Chunk::new(2, -3);
    let c = c.add(block_at(1, 1, 1));
    let c = c.add(block_at(1, 2, 1));
    let a = chunk_meshes(&c);
    let b = chunk_meshes(&c);
    assert_eq!(a.len(), b.len());
    for (p, q) in a.iter().zip(b.iter()) {
        assert_eq!((p.x, p.y, p.z), (q.x, q.y, q.z));
        assert_eq!(p.mesh.vertices, q.mesh.vertices);
        assert_eq!(p.mesh.indices, q.mesh.indices);
    }
}

#[test]
fn world_placement_offsets_horizontal_axes_only() {
    let c = Chunk::new(2, -3);
    let c = c.add(block_at(5, 9, 1));
    let out = chunk_meshes(&c);
    assert_eq!(out.len(), 1);
    let h = CHUNK_H as isize;
    assert_eq!((out[0].x, out[0].y, out[0].z), (5 + 2 * h, 9, 1 - 3 * h));
}

#[test]
fn stored_faces_mask_is_not_trusted() {
    // The mask stored on a block is derived metadata; visibility is
    // recomputed from the live grid, so a stale stored mask changes
    // nothing.
    let c = Chunk::new(0, 0);
    let c = c.add(Block { faces: [false; 6], pos: [2, 2, 2] });
    let out = chunk_meshes(&c);
    assert_eq!(out[0].mesh.vertices.len(), 24);
    let c2 = Chunk::new(0, 0);
    let c2 = c2.add(Block { faces: [true; 6], pos: [2, 2, 2] });
    let out2 = chunk_meshes(&c2);
    assert_eq!(out2[0].mesh.vertices.len(), 24);
}
