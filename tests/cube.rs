use black_body::cube::cube_indices;

#[test]
fn cube_faces_are_two_triangles_each() {
    let idx = cube_indices();
    assert_eq!(idx.len(), 36);
    assert_eq!(idx[0..12], [0, 1, 2, 0, 2, 3, 4, 5, 6, 4, 6, 7]);
    assert_eq!(idx[30..36], [20, 21, 22, 20, 22, 23]);
}
