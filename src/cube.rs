use vstd::prelude::*;

verus! {

/// Number of faces of a cube.
pub const FACES: usize = 6;

/// The corner, among the four of a face, at position `j` of the face's two
/// triangles `(0, 1, 2)` and `(0, 2, 3)`.
pub open spec fn face_corner(j: int) -> int {
    if j == 0 || j == 3 {
        0
    } else if j == 1 {
        1
    } else if j == 2 || j == 4 {
        2
    } else {
        3
    }
}

/// Triangle indices of a cube whose 24 vertices are stored four per face:
/// each face is drawn as two triangles over its own four vertices.
pub open spec fn cube_triangles() -> Seq<u16> {
    Seq::new(6 * FACES as nat, |k: int| (4 * (k / 6) + face_corner(k % 6)) as u16)
}

/// The index buffer of `cube_triangles()`.
pub fn cube_indices() -> (r: Vec<u16>)
    ensures
        r@ == cube_triangles(),
{
    let corners: [u16; 6] = [0, 1, 2, 0, 2, 3];
    let mut r: Vec<u16> = Vec::new();
    for face in 0..FACES
        invariant
            corners@ == seq![0u16, 1, 2, 0, 2, 3],
            r@.len() == 6 * face,
            forall|k: int| 0 <= k < r@.len() ==> r@[k] == cube_triangles()[k],
    {
        for j in 0..6usize
            invariant
                corners@ == seq![0u16, 1, 2, 0, 2, 3],
                face < FACES,
                r@.len() == 6 * face + j,
                forall|k: int| 0 <= k < r@.len() ==> r@[k] == cube_triangles()[k],
        {
            let index: u16 = corners[j] + 4 * (face as u16);
            assert(index == cube_triangles()[6 * face + j]);
            r.push(index);
        }
    }
    assert(r@ =~= cube_triangles());
    r
}

} // verus!
