//! The cube mesher: turns a six-flag visibility mask into the triangulated
//! geometry of the visible faces of one unit cube.
//!
//! All attribute values are integers. Positions are in hundredths of a
//! world unit: the cube spans -45 to 45 on each axis, a half-extent of
//! 0.45 that leaves a visual seam between adjacent blocks. Normals are
//! unit axis vectors with components in {-1, 0, 1}, and texture
//! coordinates lie in {0, 1}. A renderer divides positions by 100 and
//! takes the rest as-is.

use vstd::prelude::*;

verus! {

/// One mesh vertex: position, normal and texture coordinate.
#[derive(Debug, Clone, Copy, PartialEq, Eq, Structural)]
pub struct Vertex {
    pub px: i32,
    pub py: i32,
    pub pz: i32,
    pub nx: i32,
    pub ny: i32,
    pub nz: i32,
    pub u: i32,
    pub v: i32,
}

/// A triangle-list mesh fragment: per-vertex attributes plus an index
/// list, three consecutive indices per triangle.
pub struct Mesh {
    pub vertices: Vec<Vertex>,
    pub indices: Vec<u32>,
}

/// Shorthand vertex constructor for the table below.
pub open spec fn vtx(px: int, py: int, pz: int, nx: int, ny: int, nz: int, u: int, v: int) -> Vertex {
    Vertex {
        px: px as i32,
        py: py as i32,
        pz: pz as i32,
        nx: nx as i32,
        ny: ny as i32,
        nz: nz as i32,
        u: u as i32,
        v: v as i32,
    }
}

/// The unit cube's 24 vertices: four per face, in face order z+, z-, x+,
/// x-, y+, y- — the same order the visibility mask uses.
pub open spec fn cube_vertex(k: int) -> Vertex {
    if k == 0 {
        vtx(-45, -45, 45, 0, 0, 1, 0, 0)
    } else if k == 1 {
        vtx(45, -45, 45, 0, 0, 1, 1, 0)
    } else if k == 2 {
        vtx(45, 45, 45, 0, 0, 1, 1, 1)
    } else if k == 3 {
        vtx(-45, 45, 45, 0, 0, 1, 0, 1)
    } else if k == 4 {
        vtx(-45, 45, -45, 0, 0, -1, 1, 0)
    } else if k == 5 {
        vtx(45, 45, -45, 0, 0, -1, 0, 0)
    } else if k == 6 {
        vtx(45, -45, -45, 0, 0, -1, 0, 1)
    } else if k == 7 {
        vtx(-45, -45, -45, 0, 0, -1, 1, 1)
    } else if k == 8 {
        vtx(45, -45, -45, 1, 0, 0, 0, 0)
    } else if k == 9 {
        vtx(45, 45, -45, 1, 0, 0, 1, 0)
    } else if k == 10 {
        vtx(45, 45, 45, 1, 0, 0, 1, 1)
    } else if k == 11 {
        vtx(45, -45, 45, 1, 0, 0, 0, 1)
    } else if k == 12 {
        vtx(-45, -45, 45, -1, 0, 0, 1, 0)
    } else if k == 13 {
        vtx(-45, 45, 45, -1, 0, 0, 0, 0)
    } else if k == 14 {
        vtx(-45, 45, -45, -1, 0, 0, 0, 1)
    } else if k == 15 {
        vtx(-45, -45, -45, -1, 0, 0, 1, 1)
    } else if k == 16 {
        vtx(45, 45, -45, 0, 1, 0, 1, 0)
    } else if k == 17 {
        vtx(-45, 45, -45, 0, 1, 0, 0, 0)
    } else if k == 18 {
        vtx(-45, 45, 45, 0, 1, 0, 0, 1)
    } else if k == 19 {
        vtx(45, 45, 45, 0, 1, 0, 1, 1)
    } else if k == 20 {
        vtx(45, -45, 45, 0, -1, 0, 0, 0)
    } else if k == 21 {
        vtx(-45, -45, 45, 0, -1, 0, 1, 0)
    } else if k == 22 {
        vtx(-45, -45, -45, 0, -1, 0, 1, 1)
    } else {
        vtx(45, -45, -45, 0, -1, 0, 0, 1)
    }
}

/// The four vertices of face `f`.
pub open spec fn face_vertices(f: int) -> Seq<Vertex> {
    seq![
        cube_vertex(4 * f),
        cube_vertex(4 * f + 1),
        cube_vertex(4 * f + 2),
        cube_vertex(4 * f + 3),
    ]
}

/// How many of the first `f` flags are set.
pub open spec fn face_count(faces: Seq<bool>, f: int) -> int
    decreases f,
{
    if f <= 0 {
        0
    } else {
        face_count(faces, f - 1) + (if faces[f - 1] {
            1int
        } else {
            0int
        })
    }
}

/// The vertices emitted for the first `f` faces of a mask: four per set
/// flag, in face order, skipped faces contributing nothing.
pub open spec fn mesh_vertices(faces: Seq<bool>, f: int) -> Seq<Vertex>
    decreases f,
{
    if f <= 0 {
        Seq::empty()
    } else {
        mesh_vertices(faces, f - 1) + (if faces[f - 1] {
            face_vertices(f - 1)
        } else {
            Seq::empty()
        })
    }
}

/// The two triangles of the `k`-th emitted face, wound over its four
/// vertex slots as 0,1,2 and 2,3,0 relative to slot `4*k`.
pub open spec fn face_indices(k: int) -> Seq<u32> {
    seq![
        (4 * k) as u32,
        (4 * k + 1) as u32,
        (4 * k + 2) as u32,
        (4 * k + 2) as u32,
        (4 * k + 3) as u32,
        (4 * k) as u32,
    ]
}

/// The index list emitted for the first `f` faces of a mask. Indices are
/// recomputed for the compacted vertex buffer: the `k`-th emitted face
/// references slots `4*k .. 4*k+3`, never a skipped face's slots.
pub open spec fn mesh_indices(faces: Seq<bool>, f: int) -> Seq<u32>
    decreases f,
{
    if f <= 0 {
        Seq::empty()
    } else {
        mesh_indices(faces, f - 1) + (if faces[f - 1] {
            face_indices(face_count(faces, f - 1))
        } else {
            Seq::empty()
        })
    }
}

/// Runtime counterpart of `vtx`.
fn make_vtx(px: i32, py: i32, pz: i32, nx: i32, ny: i32, nz: i32, u: i32, v: i32) -> (r: Vertex)
    ensures
        r == vtx(px as int, py as int, pz as int, nx as int, ny as int, nz as int, u as int, v as int),
{
    Vertex { px, py, pz, nx, ny, nz, u, v }
}

/// Runtime counterpart of the `cube_vertex` table.
fn cube_vertex_at(k: usize) -> (r: Vertex)
    requires
        k < 24,
    ensures
        r == cube_vertex(k as int),
{
    if k == 0 {
        make_vtx(-45, -45, 45, 0, 0, 1, 0, 0)
    } else if k == 1 {
        make_vtx(45, -45, 45, 0, 0, 1, 1, 0)
    } else if k == 2 {
        make_vtx(45, 45, 45, 0, 0, 1, 1, 1)
    } else if k == 3 {
        make_vtx(-45, 45, 45, 0, 0, 1, 0, 1)
    } else if k == 4 {
        make_vtx(-45, 45, -45, 0, 0, -1, 1, 0)
    } else if k == 5 {
        make_vtx(45, 45, -45, 0, 0, -1, 0, 0)
    } else if k == 6 {
        make_vtx(45, -45, -45, 0, 0, -1, 0, 1)
    } else if k == 7 {
        make_vtx(-45, -45, -45, 0, 0, -1, 1, 1)
    } else if k == 8 {
        make_vtx(45, -45, -45, 1, 0, 0, 0, 0)
    } else if k == 9 {
        make_vtx(45, 45, -45, 1, 0, 0, 1, 0)
    } else if k == 10 {
        make_vtx(45, 45, 45, 1, 0, 0, 1, 1)
    } else if k == 11 {
        make_vtx(45, -45, 45, 1, 0, 0, 0, 1)
    } else if k == 12 {
        make_vtx(-45, -45, 45, -1, 0, 0, 1, 0)
    } else if k == 13 {
        make_vtx(-45, 45, 45, -1, 0, 0, 0, 0)
    } else if k == 14 {
        make_vtx(-45, 45, -45, -1, 0, 0, 0, 1)
    } else if k == 15 {
        make_vtx(-45, -45, -45, -1, 0, 0, 1, 1)
    } else if k == 16 {
        make_vtx(45, 45, -45, 0, 1, 0, 1, 0)
    } else if k == 17 {
        make_vtx(-45, 45, -45, 0, 1, 0, 0, 0)
    } else if k == 18 {
        make_vtx(-45, 45, 45, 0, 1, 0, 0, 1)
    } else if k == 19 {
        make_vtx(45, 45, 45, 0, 1, 0, 1, 1)
    } else if k == 20 {
        make_vtx(45, -45, 45, 0, -1, 0, 0, 0)
    } else if k == 21 {
        make_vtx(-45, -45, 45, 0, -1, 0, 1, 0)
    } else if k == 22 {
        make_vtx(-45, -45, -45, 0, -1, 0, 1, 1)
    } else {
        make_vtx(45, -45, -45, 0, -1, 0, 0, 1)
    }
}

/// Build the mesh fragment for one cube from its visibility mask: the four
/// vertices of every visible face, compacted, and two correctly wound
/// triangles per emitted face. Faces whose flag is false contribute no
/// vertices and no indices.
pub fn gen_cube(faces: [bool; 6]) -> (m: Mesh)
    ensures
        m.vertices@ == mesh_vertices(faces@, 6),
        m.indices@ == mesh_indices(faces@, 6),
        m.vertices@.len() == 4 * face_count(faces@, 6),
        m.indices@.len() == 6 * face_count(faces@, 6),
{
    let mut vertices: Vec<Vertex> = Vec::new();
    let mut indices: Vec<u32> = Vec::new();
    let mut f: usize = 0;
    while f < 6
        invariant
            f <= 6,
            0 <= face_count(faces@, f as int) <= f as int,
            vertices@ == mesh_vertices(faces@, f as int),
            indices@ == mesh_indices(faces@, f as int),
            vertices@.len() == 4 * face_count(faces@, f as int),
            indices@.len() == 6 * face_count(faces@, f as int),
        decreases 6 - f,
    {
        if faces[f] {
            let base = vertices.len() as u32;
            vertices.push(cube_vertex_at(4 * f));
            vertices.push(cube_vertex_at(4 * f + 1));
            vertices.push(cube_vertex_at(4 * f + 2));
            vertices.push(cube_vertex_at(4 * f + 3));
            indices.push(base);
            indices.push(base + 1);
            indices.push(base + 2);
            indices.push(base + 2);
            indices.push(base + 3);
            indices.push(base);
            proof {
                assert(vertices@ =~= mesh_vertices(faces@, f as int) + face_vertices(f as int));
                assert(indices@ =~= mesh_indices(faces@, f as int) + face_indices(
                    face_count(faces@, f as int),
                ));
            }
        }
        f = f + 1;
    }
    Mesh { vertices, indices }
}

/// Shape of any emitted mesh: four vertices and six indices per set flag,
/// and every index references a slot of an emitted face — no index ever
/// points into a skipped face or past the vertex buffer.
pub proof fn lemma_mesh_shape(faces: Seq<bool>, f: int)
    requires
        0 <= f <= 6,
    ensures
        0 <= face_count(faces, f) <= f,
        mesh_vertices(faces, f).len() == 4 * face_count(faces, f),
        mesh_indices(faces, f).len() == 6 * face_count(faces, f),
        forall|i: int|
            0 <= i < mesh_indices(faces, f).len()
                ==> (#[trigger] mesh_indices(faces, f)[i]) < 4 * face_count(faces, f),
    decreases f,
{
    if f > 0 {
        lemma_mesh_shape(faces, f - 1);
        if faces[f - 1] {
            let prior = mesh_indices(faces, f - 1);
            let c = face_count(faces, f - 1);
            assert forall|i: int| 0 <= i < mesh_indices(faces, f).len() implies (#[trigger] mesh_indices(
                faces,
                f,
            )[i]) < 4 * face_count(faces, f) by {
                if i >= prior.len() {
                    assert(mesh_indices(faces, f)[i] == face_indices(c)[i - prior.len()]);
                }
            }
        }
    }
}

/// A full mask emits the whole cube: 24 vertices and 36 indices, twelve
/// triangles, each index referencing one of the 24 emitted slots.
pub proof fn lemma_full_mask_mesh(faces: Seq<bool>)
    requires
        faces.len() == 6,
        forall|i: int| 0 <= i < 6 ==> faces[i],
    ensures
        mesh_vertices(faces, 6).len() == 24,
        mesh_indices(faces, 6).len() == 36,
        forall|i: int| 0 <= i < 36 ==> (#[trigger] mesh_indices(faces, 6)[i]) < 24,
{
    lemma_mesh_shape(faces, 6);
    assert(face_count(faces, 6) == 6) by {
        reveal_with_fuel(face_count, 7);
    }
}

/// A mask with exactly one flag set emits that face alone: 4 vertices and
/// 6 indices forming two triangles, every index referencing one of those
/// four slots — no stale index into a skipped face.
pub proof fn lemma_single_face_mesh(faces: Seq<bool>, f: int)
    requires
        faces.len() == 6,
        0 <= f < 6,
        faces[f],
        forall|g: int| 0 <= g < 6 && g != f ==> !faces[g],
    ensures
        mesh_vertices(faces, 6) == face_vertices(f),
        mesh_indices(faces, 6) == face_indices(0),
        mesh_vertices(faces, 6).len() == 4,
        mesh_indices(faces, 6).len() == 6,
        forall|i: int| 0 <= i < 6 ==> (#[trigger] mesh_indices(faces, 6)[i]) < 4,
{
    reveal_with_fuel(face_count, 7);
    reveal_with_fuel(mesh_vertices, 7);
    reveal_with_fuel(mesh_indices, 7);
    assert(mesh_vertices(faces, 6) =~= face_vertices(f));
    assert(mesh_indices(faces, 6) =~= face_indices(0));
}

} // verus!
