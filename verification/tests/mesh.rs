use webgl_cube::mesh::{build_quad_indices, expand_per_corner, Color, Mesh, Vector3};

fn flat(vectors: &[Vector3]) -> Vec<i32> {
    vectors.iter().flat_map(|v| [v.x as i32, v.y as i32, v.z as i32]).collect()
}

#[test]
fn cube_has_24_vertices_and_36_indices() {
    let cube = Mesh::cube();
    assert_eq!(cube.vertex_count(), 24);
    assert_eq!(cube.index_count(), 36);
    assert_eq!(cube.positions().len(), 24);
    assert_eq!(cube.normals().len(), 24);
    assert_eq!(cube.colors().len(), 24);
    assert_eq!(cube.indices().len(), 36);
}

#[test]
fn cube_positions_are_the_corners_face_by_face() {
    let expected = vec![
        -1, -1, 1, 1, -1, 1, 1, 1, 1, -1, 1, 1, // front
        -1, -1, -1, -1, 1, -1, 1, 1, -1, 1, -1, -1, // back
        -1, 1, -1, -1, 1, 1, 1, 1, 1, 1, 1, -1, // top
        -1, -1, -1, 1, -1, -1, 1, -1, 1, -1, -1, 1, // bottom
        1, -1, -1, 1, 1, -1, 1, 1, 1, 1, -1, 1, // right
        -1, -1, -1, -1, -1, 1, -1, 1, 1, -1, 1, -1, // left
    ];
    assert_eq!(flat(Mesh::cube().positions()), expected);
}

#[test]
fn cube_normals_repeat_the_face_normal_at_each_corner() {
    let expected = vec![
        0, 0, 1, 0, 0, 1, 0, 0, 1, 0, 0, 1, // front
        0, 0, -1, 0, 0, -1, 0, 0, -1, 0, 0, -1, // back
        0, 1, 0, 0, 1, 0, 0, 1, 0, 0, 1, 0, // top
        0, -1, 0, 0, -1, 0, 0, -1, 0, 0, -1, 0, // bottom
        1, 0, 0, 1, 0, 0, 1, 0, 0, 1, 0, 0, // right
        -1, 0, 0, -1, 0, 0, -1, 0, 0, -1, 0, 0, // left
    ];
    assert_eq!(flat(Mesh::cube().normals()), expected);
}

#[test]
fn cube_colors_repeat_the_face_color_at_each_corner() {
    let faces = [
        [1, 1, 1, 1],
        [1, 0, 0, 1],
        [0, 1, 0, 1],
        [0, 0, 1, 1],
        [1, 1, 0, 1],
        [1, 0, 1, 1],
    ];
    let cube = Mesh::cube();
    let colors = cube.colors();
    assert_eq!(colors.len(), 24);
    for (v, color) in colors.iter().enumerate() {
        let face = faces[v / 4];
        assert_eq!([color.r, color.g, color.b, color.a], face);
    }
}

#[test]
fn cube_indices_draw_each_face_as_two_triangles() {
    let expected: Vec<u16> = vec![
        0, 1, 2, 0, 2, 3, // front
        4, 5, 6, 4, 6, 7, // back
        8, 9, 10, 8, 10, 11, // top
        12, 13, 14, 12, 14, 15, // bottom
        16, 17, 18, 16, 18, 19, // right
        20, 21, 22, 20, 22, 23, // left
    ];
    assert_eq!(Mesh::cube().indices(), &expected);
}

#[test]
fn cube_indices_name_vertices_of_the_cube() {
    let cube = Mesh::cube();
    let count = cube.vertex_count();
    assert!(cube.indices().iter().all(|&i| (i as usize) < count));
}

#[test]
fn cube_triangles_face_outward() {
    let cube = Mesh::cube();
    let p = cube.positions();
    let n = cube.normals();
    for t in cube.indices().chunks(3) {
        let (a, b, c) = (t[0] as usize, t[1] as usize, t[2] as usize);
        let e1 = [(p[b].x - p[a].x) as i32, (p[b].y - p[a].y) as i32, (p[b].z - p[a].z) as i32];
        let e2 = [(p[c].x - p[a].x) as i32, (p[c].y - p[a].y) as i32, (p[c].z - p[a].z) as i32];
        let cross = [
            e1[1] * e2[2] - e1[2] * e2[1],
            e1[2] * e2[0] - e1[0] * e2[2],
            e1[0] * e2[1] - e1[1] * e2[0],
        ];
        for v in [a, b, c] {
            assert_eq!(cross, [4 * n[v].x as i32, 4 * n[v].y as i32, 4 * n[v].z as i32]);
            let on_plane = p[v].x as i32 * n[v].x as i32 + p[v].y as i32 * n[v].y as i32 + p[v].z as i32 * n[v].z as i32;
            assert_eq!(on_plane, 1);
        }
    }
}

#[test]
fn expand_per_corner_repeats_each_entry_four_times() {
    let faces = vec![7u8, 9, 11];
    assert_eq!(expand_per_corner(&faces), vec![7, 7, 7, 7, 9, 9, 9, 9, 11, 11, 11, 11]);
    let none: Vec<Color> = Vec::new();
    assert!(expand_per_corner(&none).is_empty());
}

#[test]
fn quad_indices_of_no_face_are_empty() {
    assert_eq!(build_quad_indices(0), Some(Vec::new()));
}

#[test]
fn quad_indices_of_two_faces() {
    assert_eq!(build_quad_indices(2), Some(vec![0, 1, 2, 0, 2, 3, 4, 5, 6, 4, 6, 7]));
}

#[test]
fn quad_indices_stop_where_sixteen_bits_end() {
    let most = build_quad_indices(16383).expect("65532 vertices are within reach");
    assert_eq!(most.len(), 6 * 16383);
    assert_eq!(most[most.len() - 1], 65531);
    assert_eq!(build_quad_indices(16384), None);
    assert_eq!(build_quad_indices(usize::MAX), None);
}
