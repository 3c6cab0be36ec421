use vstd::prelude::*;

verus! {

/// Number of vertices of the cube mesh: four per face, six faces.
pub const VERTEX_COUNT: usize = 24;

/// Number of indices of the cube mesh: two triangles per face, six faces.
pub const INDEX_COUNT: usize = 36;

/// A cube vertex in integer form: a homogeneous position whose last
/// coordinate is 1, and a texture coordinate.
#[derive(Clone, Copy, Debug)]
pub struct Vertex {
    pub pos: [i8; 4],
    pub uv: [i8; 2],
}

impl Vertex {
    /// Builds a vertex from a Cartesian position and a texture coordinate.
    pub fn new(pos: [i8; 3], uv: [i8; 2]) -> (r: Vertex)
        ensures
            r.pos@ == seq![pos@[0], pos@[1], pos@[2], 1i8],
            r.uv@ == uv@,
    {
        let r = Vertex { pos: [pos[0], pos[1], pos[2], 1], uv };
        assert(r.pos@ =~= seq![pos@[0], pos@[1], pos@[2], 1i8]);
        r
    }
}

/// Corner positions of the cube, face by face (top, bottom, right, left,
/// front, back), four corners per face.
pub open spec fn cube_positions() -> Seq<Seq<i8>> {
    seq![
        seq![-1i8, -1i8, 1i8], seq![1i8, -1i8, 1i8], seq![1i8, 1i8, 1i8], seq![-1i8, 1i8, 1i8],
        seq![-1i8, 1i8, -1i8], seq![1i8, 1i8, -1i8], seq![1i8, -1i8, -1i8], seq![-1i8, -1i8, -1i8],
        seq![1i8, -1i8, -1i8], seq![1i8, 1i8, -1i8], seq![1i8, 1i8, 1i8], seq![1i8, -1i8, 1i8],
        seq![-1i8, -1i8, 1i8], seq![-1i8, 1i8, 1i8], seq![-1i8, 1i8, -1i8], seq![-1i8, -1i8, -1i8],
        seq![1i8, 1i8, -1i8], seq![-1i8, 1i8, -1i8], seq![-1i8, 1i8, 1i8], seq![1i8, 1i8, 1i8],
        seq![1i8, -1i8, 1i8], seq![-1i8, -1i8, 1i8], seq![-1i8, -1i8, -1i8], seq![1i8, -1i8, -1i8],
    ]
}

/// Texture coordinates of the cube's corners, in the order of `cube_positions`.
pub open spec fn cube_uvs() -> Seq<Seq<i8>> {
    seq![
        seq![0i8, 0i8], seq![1i8, 0i8], seq![1i8, 1i8], seq![0i8, 1i8],
        seq![1i8, 0i8], seq![0i8, 0i8], seq![0i8, 1i8], seq![1i8, 1i8],
        seq![0i8, 0i8], seq![1i8, 0i8], seq![1i8, 1i8], seq![0i8, 1i8],
        seq![1i8, 0i8], seq![0i8, 0i8], seq![0i8, 1i8], seq![1i8, 1i8],
        seq![1i8, 0i8], seq![0i8, 0i8], seq![0i8, 1i8], seq![1i8, 1i8],
        seq![0i8, 0i8], seq![1i8, 0i8], seq![1i8, 1i8], seq![0i8, 1i8],
    ]
}

/// Whether `v` is the `i`-th vertex of the cube mesh.
pub open spec fn is_cube_vertex(v: Vertex, i: int) -> bool {
    &&& v.pos@ == cube_positions()[i].push(1i8)
    &&& v.uv@ == cube_uvs()[i]
}

/// Offset, within a face's four corners, of the `k`-th index of that face's
/// two triangles (0, 1, 2 and 2, 3, 0).
pub open spec fn quad_corner(k: int) -> int {
    if k == 0 || k == 5 {
        0
    } else if k == 1 {
        1
    } else if k == 2 || k == 3 {
        2
    } else {
        3
    }
}

/// The `k`-th index of face `f`.
pub open spec fn cube_index(f: int, k: int) -> int {
    4 * f + quad_corner(k)
}

/// Whether `idx` is the cube's index sequence: six indices per face.
pub open spec fn is_cube_index_seq(idx: Seq<u16>) -> bool {
    &&& idx.len() == 36
    &&& forall|f: int, k: int|
        0 <= f < 6 && 0 <= k < 6 ==> #[trigger] idx[6 * f + k] as int == cube_index(f, k)
}

/// The 24 vertices of the cube mesh, each face with its own corners so that
/// every face carries its own texture mapping.
pub fn cube_vertices() -> (r: Vec<Vertex>)
    ensures
        r@.len() == VERTEX_COUNT,
        forall|i: int| 0 <= i < 24 ==> is_cube_vertex(#[trigger] r@[i], i),
{
    let mut v: Vec<Vertex> = Vec::new();
    v.push(Vertex::new([-1, -1, 1], [0, 0]));
    v.push(Vertex::new([1, -1, 1], [1, 0]));
    v.push(Vertex::new([1, 1, 1], [1, 1]));
    v.push(Vertex::new([-1, 1, 1], [0, 1]));
    v.push(Vertex::new([-1, 1, -1], [1, 0]));
    v.push(Vertex::new([1, 1, -1], [0, 0]));
    v.push(Vertex::new([1, -1, -1], [0, 1]));
    v.push(Vertex::new([-1, -1, -1], [1, 1]));
    v.push(Vertex::new([1, -1, -1], [0, 0]));
    v.push(Vertex::new([1, 1, -1], [1, 0]));
    v.push(Vertex::new([1, 1, 1], [1, 1]));
    v.push(Vertex::new([1, -1, 1], [0, 1]));
    v.push(Vertex::new([-1, -1, 1], [1, 0]));
    v.push(Vertex::new([-1, 1, 1], [0, 0]));
    v.push(Vertex::new([-1, 1, -1], [0, 1]));
    v.push(Vertex::new([-1, -1, -1], [1, 1]));
    v.push(Vertex::new([1, 1, -1], [1, 0]));
    v.push(Vertex::new([-1, 1, -1], [0, 0]));
    v.push(Vertex::new([-1, 1, 1], [0, 1]));
    v.push(Vertex::new([1, 1, 1], [1, 1]));
    v.push(Vertex::new([1, -1, 1], [0, 0]));
    v.push(Vertex::new([-1, -1, 1], [1, 0]));
    v.push(Vertex::new([-1, -1, -1], [1, 1]));
    v.push(Vertex::new([1, -1, -1], [0, 1]));
    assert forall|i: int| 0 <= i < 24 implies is_cube_vertex(#[trigger] v@[i], i) by {
        assert(cube_positions()[i].push(1i8) =~= seq![
            cube_positions()[i][0], cube_positions()[i][1], cube_positions()[i][2], 1i8]);
    }
    v
}

/// The 36 indices of the cube mesh: two triangles per face, wound
/// 0, 1, 2 and 2, 3, 0 over the face's four corners.
pub fn cube_indices() -> (r: Vec<u16>)
    ensures
        is_cube_index_seq(r@),
{
    let mut v: Vec<u16> = Vec::new();
    let mut f: u16 = 0;
    while f < 6
        invariant
            0 <= f <= 6,
            v@.len() == 6 * f,
            forall|g: int, k: int|
                0 <= g < f && 0 <= k < 6 ==> #[trigger] v@[6 * g + k] as int == cube_index(g, k),
        decreases 6 - f,
    {
        let base = 4 * f;
        v.push(base);
        v.push(base + 1);
        v.push(base + 2);
        v.push(base + 2);
        v.push(base + 3);
        v.push(base);
        f = f + 1;
    }
    v
}

/// Every index of the cube mesh names one of its vertices, and the indices
/// form whole triangles.
pub proof fn lemma_cube_indices_valid(idx: Seq<u16>)
    requires
        is_cube_index_seq(idx),
    ensures
        idx.len() == INDEX_COUNT,
        idx.len() % 3 == 0,
        forall|i: int| 0 <= i < idx.len() ==> (#[trigger] idx[i] as int) < VERTEX_COUNT,
{
    assert forall|i: int| 0 <= i < idx.len() implies (#[trigger] idx[i] as int) < VERTEX_COUNT by {
        let f = i / 6;
        let k = i % 6;
        assert(i == 6 * f + k && 0 <= f < 6 && 0 <= k < 6);
        assert(idx[6 * f + k] as int == cube_index(f, k));
    }
}

/// Every corner of the cube mesh lies in {-1, 1}³ with homogeneous
/// coordinate 1, and every texture coordinate lies in {0, 1}².
pub proof fn lemma_cube_vertices_on_unit_corners(vs: Seq<Vertex>)
    requires
        vs.len() == VERTEX_COUNT,
        forall|i: int| 0 <= i < 24 ==> is_cube_vertex(#[trigger] vs[i], i),
    ensures
        forall|i: int, c: int|
            0 <= i < 24 && 0 <= c < 3 ==> #[trigger] vs[i].pos@[c] == 1 || vs[i].pos@[c] == -1,
        forall|i: int| 0 <= i < 24 ==> #[trigger] vs[i].pos@[3] == 1,
        forall|i: int, c: int|
            0 <= i < 24 && 0 <= c < 2 ==> #[trigger] vs[i].uv@[c] == 0 || vs[i].uv@[c] == 1,
{
    assert forall|i: int, c: int| 0 <= i < 24 && 0 <= c < 3 implies #[trigger] vs[i].pos@[c]
        == 1 || vs[i].pos@[c] == -1 by {
        assert(is_cube_vertex(vs[i], i));
    }
    assert forall|i: int| 0 <= i < 24 implies #[trigger] vs[i].pos@[3] == 1 by {
        assert(is_cube_vertex(vs[i], i));
    }
    assert forall|i: int, c: int| 0 <= i < 24 && 0 <= c < 2 implies #[trigger] vs[i].uv@[c]
        == 0 || vs[i].uv@[c] == 1 by {
        assert(is_cube_vertex(vs[i], i));
    }
}

} // verus!
