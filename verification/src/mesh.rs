//! The geometry of the cube.
//!
//! The cube has six faces of four vertices each. A vertex is not shared
//! between faces, so that each face carries its own normal and colour. Every
//! coordinate, normal component and colour channel of the cube is -1, 0 or 1,
//! and is held as such an integer; the byte images that the device receives
//! are made from them in `buffer`.

use vstd::prelude::*;

verus! {

/// The number of corners of a face.
pub const CORNERS_PER_FACE: usize = 4;

/// The number of indices that draw one face as two triangles.
pub const INDICES_PER_FACE: usize = 6;

/// The number of vertices below which a 16-bit index reaches every vertex.
pub const INDEX_LIMIT: usize = 65536;

/// A position or a direction with three components.
#[derive(Clone, Copy, Debug, PartialEq, Eq, Structural)]
pub struct Vector3 {
    pub x: i8,
    pub y: i8,
    pub z: i8,
}

/// A colour with red, green, blue and alpha channels.
#[derive(Clone, Copy, Debug, PartialEq, Eq, Structural)]
pub struct Color {
    pub r: i8,
    pub g: i8,
    pub b: i8,
    pub a: i8,
}

/// A component that is -1, 0 or 1.
pub open spec fn is_unit(c: i8) -> bool {
    -1 <= c <= 1
}

impl Vector3 {
    /// The vector with the given components.
    pub open spec fn at(x: int, y: int, z: int) -> Vector3 {
        Vector3 { x: x as i8, y: y as i8, z: z as i8 }
    }

    pub open spec fn is_unit_valued(self) -> bool {
        is_unit(self.x) && is_unit(self.y) && is_unit(self.z)
    }

    /// The components as unbounded integers.
    pub open spec fn ints(self) -> (int, int, int) {
        (self.x as int, self.y as int, self.z as int)
    }

    /// Component `k` of the vector; `k` is 0, 1 or 2.
    pub open spec fn component(self, k: int) -> i8 {
        if k == 0 {
            self.x
        } else if k == 1 {
            self.y
        } else {
            self.z
        }
    }
}

impl Color {
    /// The colour with the given channels.
    pub open spec fn of(r: int, g: int, b: int, a: int) -> Color {
        Color { r: r as i8, g: g as i8, b: b as i8, a: a as i8 }
    }

    pub open spec fn is_unit_valued(self) -> bool {
        is_unit(self.r) && is_unit(self.g) && is_unit(self.b) && is_unit(self.a)
    }

    /// Channel `k` of the colour; `k` is 0, 1, 2 or 3.
    pub open spec fn component(self, k: int) -> i8 {
        if k == 0 {
            self.r
        } else if k == 1 {
            self.g
        } else if k == 2 {
            self.b
        } else {
            self.a
        }
    }
}

/// The difference `a - b` of two points.
pub open spec fn difference(a: (int, int, int), b: (int, int, int)) -> (int, int, int) {
    (a.0 - b.0, a.1 - b.1, a.2 - b.2)
}

/// The inner product of two vectors.
pub open spec fn dot(a: (int, int, int), b: (int, int, int)) -> int {
    a.0 * b.0 + a.1 * b.1 + a.2 * b.2
}

/// The right-handed vector product of two vectors.
pub open spec fn cross(a: (int, int, int), b: (int, int, int)) -> (int, int, int) {
    (a.1 * b.2 - a.2 * b.1, a.2 * b.0 - a.0 * b.2, a.0 * b.1 - a.1 * b.0)
}

/// The vector `a` stretched by the factor `k`.
pub open spec fn scaled(k: int, a: (int, int, int)) -> (int, int, int) {
    (k * a.0, k * a.1, k * a.2)
}

/// A per-face list spread over the vertices: each entry stands four times,
/// once for each corner of its face.
pub open spec fn per_corner<T>(faces: Seq<T>) -> Seq<T> {
    Seq::new(4 * faces.len(), |i: int| faces[i / 4])
}

/// The corner of a face that the `k`-th index of its block names: the two
/// triangles of a face are its corners (0, 1, 2) and (0, 2, 3).
pub open spec fn quad_corner(k: int) -> int {
    if k == 0 || k == 3 {
        0
    } else if k == 1 {
        1
    } else if k == 2 || k == 4 {
        2
    } else {
        3
    }
}

/// The index list that draws `faces` four-cornered faces, whose vertices
/// follow one another face by face, as triangles.
pub open spec fn quad_indices(faces: nat) -> Seq<u16> {
    Seq::new(6 * faces, |i: int| (4 * (i / 6) + quad_corner(i % 6)) as u16)
}

/// The corners of the cube: front, back, top, bottom, right and left face,
/// each counter-clockwise as seen from outside.
pub open spec fn cube_positions() -> Seq<Vector3> {
    seq![
        Vector3::at(-1, -1, 1),
        Vector3::at(1, -1, 1),
        Vector3::at(1, 1, 1),
        Vector3::at(-1, 1, 1),
        Vector3::at(-1, -1, -1),
        Vector3::at(-1, 1, -1),
        Vector3::at(1, 1, -1),
        Vector3::at(1, -1, -1),
        Vector3::at(-1, 1, -1),
        Vector3::at(-1, 1, 1),
        Vector3::at(1, 1, 1),
        Vector3::at(1, 1, -1),
        Vector3::at(-1, -1, -1),
        Vector3::at(1, -1, -1),
        Vector3::at(1, -1, 1),
        Vector3::at(-1, -1, 1),
        Vector3::at(1, -1, -1),
        Vector3::at(1, 1, -1),
        Vector3::at(1, 1, 1),
        Vector3::at(1, -1, 1),
        Vector3::at(-1, -1, -1),
        Vector3::at(-1, -1, 1),
        Vector3::at(-1, 1, 1),
        Vector3::at(-1, 1, -1),
    ]
}

/// The outward normal of each face of the cube.
pub open spec fn cube_face_normals() -> Seq<Vector3> {
    seq![
        Vector3::at(0, 0, 1),
        Vector3::at(0, 0, -1),
        Vector3::at(0, 1, 0),
        Vector3::at(0, -1, 0),
        Vector3::at(1, 0, 0),
        Vector3::at(-1, 0, 0),
    ]
}

/// The colour of each face of the cube: white, red, green, blue, yellow and
/// purple.
pub open spec fn cube_face_colors() -> Seq<Color> {
    seq![
        Color::of(1, 1, 1, 1),
        Color::of(1, 0, 0, 1),
        Color::of(0, 1, 0, 1),
        Color::of(0, 0, 1, 1),
        Color::of(1, 1, 0, 1),
        Color::of(1, 0, 1, 1),
    ]
}

/// What a mesh holds.
pub struct MeshView {
    pub positions: Seq<Vector3>,
    pub normals: Seq<Vector3>,
    pub colors: Seq<Color>,
    pub indices: Seq<u16>,
}

impl MeshView {
    /// Every vertex has a position, a normal and a colour, of unit
    /// components; a 16-bit index reaches every vertex; the indices form
    /// whole triangles and each of them names a vertex.
    pub open spec fn wf(self) -> bool {
        &&& self.normals.len() == self.positions.len()
        &&& self.colors.len() == self.positions.len()
        &&& self.positions.len() < INDEX_LIMIT
        &&& self.indices.len() % 3 == 0
        &&& forall|v: int| 0 <= v < self.positions.len() ==> (#[trigger] self.positions[v]).is_unit_valued()
        &&& forall|v: int| 0 <= v < self.normals.len() ==> (#[trigger] self.normals[v]).is_unit_valued()
        &&& forall|v: int| 0 <= v < self.colors.len() ==> (#[trigger] self.colors[v]).is_unit_valued()
        &&& forall|i: int| 0 <= i < self.indices.len() ==> (#[trigger] self.indices[i]) < self.positions.len()
    }

    /// The position of the `corner`-th vertex (0, 1 or 2) of triangle `t`.
    pub open spec fn triangle_point(self, t: int, corner: int) -> (int, int, int) {
        self.positions[self.indices[3 * t + corner] as int].ints()
    }

    /// The vector product of the two edges that leave the first vertex of
    /// triangle `t`. It stands at right angles to the triangle, on the side
    /// from which the vertices run counter-clockwise.
    pub open spec fn triangle_normal(self, t: int) -> (int, int, int) {
        cross(
            difference(self.triangle_point(t, 1), self.triangle_point(t, 0)),
            difference(self.triangle_point(t, 2), self.triangle_point(t, 0)),
        )
    }

    /// The mesh of the cube.
    pub open spec fn cube() -> MeshView {
        MeshView {
            positions: cube_positions(),
            normals: per_corner(cube_face_normals()),
            colors: per_corner(cube_face_colors()),
            indices: quad_indices(6),
        }
    }
}

/// Vertex data and the index list that draws it. A mesh is made once and
/// never changed.
pub struct Mesh {
    positions: Vec<Vector3>,
    normals: Vec<Vector3>,
    colors: Vec<Color>,
    indices: Vec<u16>,
}

impl View for Mesh {
    type V = MeshView;

    closed spec fn view(&self) -> MeshView {
        MeshView {
            positions: self.positions@,
            normals: self.normals@,
            colors: self.colors@,
            indices: self.indices@,
        }
    }
}

/// Spreads a per-face list over the four corners of each face.
pub fn expand_per_corner<T: Copy>(faces: &Vec<T>) -> (out: Vec<T>)
    ensures
        out@ == per_corner(faces@),
{
    let mut out: Vec<T> = Vec::new();
    let mut face: usize = 0;
    while face < faces.len()
        invariant
            face <= faces.len(),
            out.len() == 4 * face,
            forall|i: int| 0 <= i < out.len() ==> out[i] == faces[i / 4],
        decreases faces.len() - face,
    {
        let value = faces[face];
        let mut corner: usize = 0;
        while corner < CORNERS_PER_FACE
            invariant
                corner <= CORNERS_PER_FACE,
                face < faces.len(),
                value == faces[face as int],
                out.len() == 4 * face + corner,
                forall|i: int| 0 <= i < out.len() ==> out[i] == faces[i / 4],
            decreases CORNERS_PER_FACE - corner,
        {
            out.push(value);
            corner += 1;
        }
        face += 1;
    }
    out
}

/// The index list that draws `faces` four-cornered faces as triangles, or
/// `None` where a 16-bit index does not reach all of their vertices.
pub fn build_quad_indices(faces: usize) -> (built: Option<Vec<u16>>)
    ensures
        built is Some <==> 4 * faces < INDEX_LIMIT,
        built matches Some(indices) ==> indices@ == quad_indices(faces as nat),
{
    if faces >= INDEX_LIMIT / CORNERS_PER_FACE {
        return None;
    }
    let mut indices: Vec<u16> = Vec::new();
    let mut face: usize = 0;
    while face < faces
        invariant
            face <= faces,
            4 * faces < INDEX_LIMIT,
            indices.len() == INDICES_PER_FACE * face,
            forall|i: int| 0 <= i < indices.len() ==> indices[i] == 4 * (i / 6) + quad_corner(i % 6),
        decreases faces - face,
    {
        let first: u16 = (CORNERS_PER_FACE * face) as u16;
        indices.push(first);
        indices.push(first + 1);
        indices.push(first + 2);
        indices.push(first);
        indices.push(first + 2);
        indices.push(first + 3);
        face += 1;
    }
    Some(indices)
}

impl Mesh {
    #[verifier::type_invariant]
    spec fn well_formed(&self) -> bool {
        self@.wf()
    }

    /// The cube: 24 vertices and 36 indices.
    pub fn cube() -> (mesh: Mesh)
        ensures
            mesh@ == MeshView::cube(),
    {
        let positions: Vec<Vector3> = vec![
            Vector3 { x: -1, y: -1, z: 1 },
            Vector3 { x: 1, y: -1, z: 1 },
            Vector3 { x: 1, y: 1, z: 1 },
            Vector3 { x: -1, y: 1, z: 1 },
            Vector3 { x: -1, y: -1, z: -1 },
            Vector3 { x: -1, y: 1, z: -1 },
            Vector3 { x: 1, y: 1, z: -1 },
            Vector3 { x: 1, y: -1, z: -1 },
            Vector3 { x: -1, y: 1, z: -1 },
            Vector3 { x: -1, y: 1, z: 1 },
            Vector3 { x: 1, y: 1, z: 1 },
            Vector3 { x: 1, y: 1, z: -1 },
            Vector3 { x: -1, y: -1, z: -1 },
            Vector3 { x: 1, y: -1, z: -1 },
            Vector3 { x: 1, y: -1, z: 1 },
            Vector3 { x: -1, y: -1, z: 1 },
            Vector3 { x: 1, y: -1, z: -1 },
            Vector3 { x: 1, y: 1, z: -1 },
            Vector3 { x: 1, y: 1, z: 1 },
            Vector3 { x: 1, y: -1, z: 1 },
            Vector3 { x: -1, y: -1, z: -1 },
            Vector3 { x: -1, y: -1, z: 1 },
            Vector3 { x: -1, y: 1, z: 1 },
            Vector3 { x: -1, y: 1, z: -1 },
        ];
        let face_normals: Vec<Vector3> = vec![
            Vector3 { x: 0, y: 0, z: 1 },
            Vector3 { x: 0, y: 0, z: -1 },
            Vector3 { x: 0, y: 1, z: 0 },
            Vector3 { x: 0, y: -1, z: 0 },
            Vector3 { x: 1, y: 0, z: 0 },
            Vector3 { x: -1, y: 0, z: 0 },
        ];
        let face_colors: Vec<Color> = vec![
            Color { r: 1, g: 1, b: 1, a: 1 },
            Color { r: 1, g: 0, b: 0, a: 1 },
            Color { r: 0, g: 1, b: 0, a: 1 },
            Color { r: 0, g: 0, b: 1, a: 1 },
            Color { r: 1, g: 1, b: 0, a: 1 },
            Color { r: 1, g: 0, b: 1, a: 1 },
        ];
        let normals = expand_per_corner(&face_normals);
        let colors = expand_per_corner(&face_colors);
        let indices = match build_quad_indices(face_normals.len()) {
            Some(indices) => indices,
            // Six faces are within the reach of a 16-bit index.
            None => Vec::new(),
        };
        proof {
            lemma_cube_is_well_formed();
        }
        Mesh { positions, normals, colors, indices }
    }

    pub fn positions(&self) -> (positions: &Vec<Vector3>)
        ensures
            positions@ == self@.positions,
            self@.wf(),
    {
        proof {
            use_type_invariant(self);
        }
        &self.positions
    }

    pub fn normals(&self) -> (normals: &Vec<Vector3>)
        ensures
            normals@ == self@.normals,
            self@.wf(),
    {
        proof {
            use_type_invariant(self);
        }
        &self.normals
    }

    pub fn colors(&self) -> (colors: &Vec<Color>)
        ensures
            colors@ == self@.colors,
            self@.wf(),
    {
        proof {
            use_type_invariant(self);
        }
        &self.colors
    }

    /// The index list. Each index names a vertex of the mesh.
    pub fn indices(&self) -> (indices: &Vec<u16>)
        ensures
            indices@ == self@.indices,
            self@.wf(),
    {
        proof {
            use_type_invariant(self);
        }
        &self.indices
    }

    pub fn vertex_count(&self) -> (count: usize)
        ensures
            count == self@.positions.len(),
            self@.wf(),
    {
        proof {
            use_type_invariant(self);
        }
        self.positions.len()
    }

    pub fn index_count(&self) -> (count: usize)
        ensures
            count == self@.indices.len(),
    {
        self.indices.len()
    }
}

/// The cube is a well-formed mesh: in particular each of its 36 indices names
/// one of its 24 vertices.
pub proof fn lemma_cube_is_well_formed()
    ensures
        MeshView::cube().wf(),
        MeshView::cube().positions.len() == 24,
        MeshView::cube().indices.len() == 36,
{
    let cube = MeshView::cube();
    assert forall|v: int| 0 <= v < cube.normals.len() implies (#[trigger] cube.normals[v]).is_unit_valued() by {
        let f = v / 4;
        assert(0 <= f < 6);
        assert(cube.normals[v] == cube_face_normals()[f]);
    }
    assert forall|v: int| 0 <= v < cube.colors.len() implies (#[trigger] cube.colors[v]).is_unit_valued() by {
        let f = v / 4;
        assert(0 <= f < 6);
        assert(cube.colors[v] == cube_face_colors()[f]);
    }
    assert forall|i: int| 0 <= i < cube.indices.len() implies (#[trigger] cube.indices[i]) < cube.positions.len() by {
        assert(0 <= i / 6 < 6);
        assert(0 <= quad_corner(i % 6) <= 3);
    }
}

/// The indices of a face stay within the face: index `k` of face `f` names
/// corner `quad_corner(k)` of that face, so the two triangles of every face
/// are its corners (0, 1, 2) and (0, 2, 3).
pub proof fn lemma_quad_indices_stay_in_face(faces: nat, f: int, k: int)
    requires
        0 <= f < faces,
        0 <= k < 6,
        4 * faces < INDEX_LIMIT,
    ensures
        quad_indices(faces)[6 * f + k] == 4 * f + quad_corner(k),
        4 * f <= quad_indices(faces)[6 * f + k] < 4 * f + 4,
{
    assert((6 * f + k) / 6 == f);
    assert((6 * f + k) % 6 == k);
}

/// The vector product of the edges of a triangle, and the inner products of
/// its corners with a vector, from their coordinates.
proof fn lemma_triangle(
    ax: int,
    ay: int,
    az: int,
    bx: int,
    by: int,
    bz: int,
    cx: int,
    cy: int,
    cz: int,
    nx: int,
    ny: int,
    nz: int,
)
    ensures
        dot((ax, ay, az), (nx, ny, nz)) == ax * nx + ay * ny + az * nz,
        dot((bx, by, bz), (nx, ny, nz)) == bx * nx + by * ny + bz * nz,
        dot((cx, cy, cz), (nx, ny, nz)) == cx * nx + cy * ny + cz * nz,
        cross(difference((bx, by, bz), (ax, ay, az)), difference((cx, cy, cz), (ax, ay, az))) == (
            (by - ay) * (cz - az) - (bz - az) * (cy - ay),
            (bz - az) * (cx - ax) - (bx - ax) * (cz - az),
            (bx - ax) * (cy - ay) - (by - ay) * (cx - ax),
        ),
        scaled(4, (nx, ny, nz)) == (4 * nx, 4 * ny, 4 * nz),
{
}

/// Triangle `t` of the cube faces outward, and is shaded flat: the vector
/// product of its edges is four times the normal that is stored with each of
/// its three vertices, and each of these vertices lies on the plane at
/// distance one from the centre to which that normal is the perpendicular.
pub open spec fn cube_triangle_faces_outward(t: int) -> bool {
    let cube = MeshView::cube();
    forall|corner: int|
        0 <= corner < 3 ==> {
            let normal = (#[trigger] cube.normals[cube.indices[3 * t + corner] as int]).ints();
            &&& cube.triangle_normal(t) == scaled(4, normal)
            &&& dot(cube.triangle_point(t, corner), normal) == 1
        }
}

/// Every triangle of the cube faces outward. So the cube is wound
/// counter-clockwise throughout, as seen from outside, and its normals are
/// those of its faces.
pub proof fn lemma_cube_faces_outward(t: int)
    requires
        0 <= t < 12,
    ensures
        cube_triangle_faces_outward(t),
{
    let cube = MeshView::cube();
    let f = t / 2;
    let a = cube.indices[3 * t] as int;
    let b = cube.indices[3 * t + 1] as int;
    let c = cube.indices[3 * t + 2] as int;
    lemma_quad_indices_stay_in_face(6, f, 3 * (t % 2));
    lemma_quad_indices_stay_in_face(6, f, 3 * (t % 2) + 1);
    lemma_quad_indices_stay_in_face(6, f, 3 * (t % 2) + 2);
    assert(3 * t == 6 * f + 3 * (t % 2));
    assert(cube.normals[a] == cube_face_normals()[f]);
    assert(cube.normals[b] == cube_face_normals()[f]);
    assert(cube.normals[c] == cube_face_normals()[f]);
    let n = cube_face_normals()[f].ints();
    let pa = cube.positions[a].ints();
    let pb = cube.positions[b].ints();
    let pc = cube.positions[c].ints();
    assert(dot(pa, n) == 1 && dot(pb, n) == 1 && dot(pc, n) == 1 && cross(difference(pb, pa), difference(pc, pa))
        == scaled(4, n)) by {
        if t == 0 {
            assert(a == 0 && b == 1 && c == 2);
            assert(pa == (-1int, -1int, 1int) && pb == (1int, -1int, 1int) && pc == (1int, 1int, 1int) && n == (0int, 0int, 1int));
            lemma_triangle(-1, -1, 1, 1, -1, 1, 1, 1, 1, 0, 0, 1);
        } else if t == 1 {
            assert(a == 0 && b == 2 && c == 3);
            assert(pa == (-1int, -1int, 1int) && pb == (1int, 1int, 1int) && pc == (-1int, 1int, 1int) && n == (0int, 0int, 1int));
            lemma_triangle(-1, -1, 1, 1, 1, 1, -1, 1, 1, 0, 0, 1);
        } else if t == 2 {
            assert(a == 4 && b == 5 && c == 6);
            assert(pa == (-1int, -1int, -1int) && pb == (-1int, 1int, -1int) && pc == (1int, 1int, -1int) && n == (0int, 0int, -1int));
            lemma_triangle(-1, -1, -1, -1, 1, -1, 1, 1, -1, 0, 0, -1);
        } else if t == 3 {
            assert(a == 4 && b == 6 && c == 7);
            assert(pa == (-1int, -1int, -1int) && pb == (1int, 1int, -1int) && pc == (1int, -1int, -1int) && n == (0int, 0int, -1int));
            lemma_triangle(-1, -1, -1, 1, 1, -1, 1, -1, -1, 0, 0, -1);
        } else if t == 4 {
            assert(a == 8 && b == 9 && c == 10);
            assert(pa == (-1int, 1int, -1int) && pb == (-1int, 1int, 1int) && pc == (1int, 1int, 1int) && n == (0int, 1int, 0int));
            lemma_triangle(-1, 1, -1, -1, 1, 1, 1, 1, 1, 0, 1, 0);
        } else if t == 5 {
            assert(a == 8 && b == 10 && c == 11);
            assert(pa == (-1int, 1int, -1int) && pb == (1int, 1int, 1int) && pc == (1int, 1int, -1int) && n == (0int, 1int, 0int));
            lemma_triangle(-1, 1, -1, 1, 1, 1, 1, 1, -1, 0, 1, 0);
        } else if t == 6 {
            assert(a == 12 && b == 13 && c == 14);
            assert(pa == (-1int, -1int, -1int) && pb == (1int, -1int, -1int) && pc == (1int, -1int, 1int) && n == (0int, -1int, 0int));
            lemma_triangle(-1, -1, -1, 1, -1, -1, 1, -1, 1, 0, -1, 0);
        } else if t == 7 {
            assert(a == 12 && b == 14 && c == 15);
            assert(pa == (-1int, -1int, -1int) && pb == (1int, -1int, 1int) && pc == (-1int, -1int, 1int) && n == (0int, -1int, 0int));
            lemma_triangle(-1, -1, -1, 1, -1, 1, -1, -1, 1, 0, -1, 0);
        } else if t == 8 {
            assert(a == 16 && b == 17 && c == 18);
            assert(pa == (1int, -1int, -1int) && pb == (1int, 1int, -1int) && pc == (1int, 1int, 1int) && n == (1int, 0int, 0int));
            lemma_triangle(1, -1, -1, 1, 1, -1, 1, 1, 1, 1, 0, 0);
        } else if t == 9 {
            assert(a == 16 && b == 18 && c == 19);
            assert(pa == (1int, -1int, -1int) && pb == (1int, 1int, 1int) && pc == (1int, -1int, 1int) && n == (1int, 0int, 0int));
            lemma_triangle(1, -1, -1, 1, 1, 1, 1, -1, 1, 1, 0, 0);
        } else if t == 10 {
            assert(a == 20 && b == 21 && c == 22);
            assert(pa == (-1int, -1int, -1int) && pb == (-1int, -1int, 1int) && pc == (-1int, 1int, 1int) && n == (-1int, 0int, 0int));
            lemma_triangle(-1, -1, -1, -1, -1, 1, -1, 1, 1, -1, 0, 0);
        } else {
            assert(a == 20 && b == 22 && c == 23);
            assert(pa == (-1int, -1int, -1int) && pb == (-1int, 1int, 1int) && pc == (-1int, 1int, -1int) && n == (-1int, 0int, 0int));
            lemma_triangle(-1, -1, -1, -1, 1, 1, -1, 1, -1, -1, 0, 0);
        }
    }
    assert forall|corner: int| 0 <= corner < 3 implies {
        let normal = (#[trigger] cube.normals[cube.indices[3 * t + corner] as int]).ints();
        &&& cube.triangle_normal(t) == scaled(4, normal)
        &&& dot(cube.triangle_point(t, corner), normal) == 1
    } by {
        if corner == 0 {
        } else if corner == 1 {
        } else {
        }
    }
}

} // verus!
