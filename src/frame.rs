use vstd::prelude::*;

verus! {

/// What a renderer reads of one particle: its position and its RGBA color.
#[derive(Clone, Copy, Debug)]
pub struct Vertex<T> {
    pub position: [T; 3],
    pub color: [T; 4],
}

/// The positions of `vs`, three components per vertex, in vertex order.
pub open spec fn positions_of<T>(vs: Seq<Vertex<T>>) -> Seq<T> {
    Seq::new(3 * vs.len(), |k: int| vs[k / 3].position[k % 3])
}

/// The colors of `vs`, four components per vertex, in vertex order.
pub open spec fn colors_of<T>(vs: Seq<Vertex<T>>) -> Seq<T> {
    Seq::new(4 * vs.len(), |k: int| vs[k / 4].color[k % 4])
}

/// Line-segment index pairs that join vertex `i` of the previous frame to
/// vertex `i` of the current one, when both frames are stored one after the
/// other: `(0, count), (1, count + 1), ...`.
pub open spec fn trail_links(count: nat) -> Seq<u16> {
    Seq::new(2 * count, |k: int| if k % 2 == 0 { (k / 2) as u16 } else { (k / 2 + count) as u16 })
}

/// One index per vertex, in vertex order: `0, 1, ..., count - 1`.
pub open spec fn point_indices(count: nat) -> Seq<u16> {
    Seq::new(count, |k: int| k as u16)
}

/// A frame of `n` particles holds `3n` position components and `4n` color
/// components when drawn as points, and twice as many of each when drawn with
/// trails; with no particles every buffer is empty.
pub proof fn lemma_buffer_lengths<T>(previous: Seq<Vertex<T>>, current: Seq<Vertex<T>>)
    requires
        previous.len() == current.len(),
    ensures
        positions_of(current).len() == 3 * current.len(),
        colors_of(current).len() == 4 * current.len(),
        point_indices(current.len()).len() == current.len(),
        (positions_of(previous) + positions_of(current)).len() == 3 * (2 * current.len()),
        (colors_of(previous) + colors_of(current)).len() == 4 * (2 * current.len()),
        trail_links(current.len()).len() == 2 * current.len(),
        current.len() == 0 ==> positions_of(current) =~= Seq::<T>::empty()
            && colors_of(current) =~= Seq::<T>::empty()
            && (positions_of(previous) + positions_of(current)) =~= Seq::<T>::empty()
            && (colors_of(previous) + colors_of(current)) =~= Seq::<T>::empty(),
{
}

/// In a frame with trails, the segment of particle `i` runs from the place
/// where it was before the tick to the place where it is after it, and both
/// ends carry the particle's color at those two moments (`c` ranges over the
/// three coordinates and the four color channels).
pub proof fn lemma_trail_segment<T>(previous: Seq<Vertex<T>>, current: Seq<Vertex<T>>, i: int, c: int)
    requires
        previous.len() == current.len(),
        2 * current.len() <= MAX_INDEXED_VERTICES,
        0 <= i < current.len(),
        0 <= c < 4,
    ensures
        ({
            let positions = positions_of(previous) + positions_of(current);
            let colors = colors_of(previous) + colors_of(current);
            let links = trail_links(current.len());
            &&& c < 3 ==> positions[3 * links[2 * i] + c] == previous[i].position[c]
            &&& c < 3 ==> positions[3 * links[2 * i + 1] + c] == current[i].position[c]
            &&& colors[4 * links[2 * i] + c] == previous[i].color[c]
            &&& colors[4 * links[2 * i + 1] + c] == current[i].color[c]
        }),
{
    let n = current.len() as int;
    let links = trail_links(current.len());
    assert((2 * i) % 2 == 0 && (2 * i) / 2 == i);
    assert((2 * i + 1) % 2 == 1 && (2 * i + 1) / 2 == i);
    assert(links[2 * i] == i);
    assert(links[2 * i + 1] == i + n);
    if c < 3 {
        assert((3 * i + c) / 3 == i && (3 * i + c) % 3 == c) by (nonlinear_arith)
            requires 0 <= c < 3, 0 <= i;
    }
    assert((4 * i + c) / 4 == i && (4 * i + c) % 4 == c) by (nonlinear_arith)
        requires 0 <= c < 4, 0 <= i;
    assert(3 * (i + n) + c == 3 * n + (3 * i + c));
    assert(4 * (i + n) + c == 4 * n + (4 * i + c));
}

/// Largest vertex count that 16-bit indices can address.
pub const MAX_INDEXED_VERTICES: usize = 65536;

/// Writes the positions of `vertices` into one flat buffer.
pub fn flatten_positions<T: Copy>(vertices: &Vec<Vertex<T>>) -> (r: Vec<T>)
    ensures
        r@ == positions_of(vertices@),
{
    let mut r: Vec<T> = Vec::new();
    let n = vertices.len();
    for i in 0..n
        invariant
            n == vertices@.len(),
            r@.len() == 3 * i,
            forall|k: int| 0 <= k < r@.len() ==> r@[k] == vertices@[k / 3].position[k % 3],
    {
        let p = vertices[i].position;
        r.push(p[0]);
        r.push(p[1]);
        r.push(p[2]);
    }
    assert(r@ =~= positions_of(vertices@));
    r
}

/// Writes the colors of `vertices` into one flat buffer.
pub fn flatten_colors<T: Copy>(vertices: &Vec<Vertex<T>>) -> (r: Vec<T>)
    ensures
        r@ == colors_of(vertices@),
{
    let mut r: Vec<T> = Vec::new();
    let n = vertices.len();
    for i in 0..n
        invariant
            n == vertices@.len(),
            r@.len() == 4 * i,
            forall|k: int| 0 <= k < r@.len() ==> r@[k] == vertices@[k / 4].color[k % 4],
    {
        let c = vertices[i].color;
        r.push(c[0]);
        r.push(c[1]);
        r.push(c[2]);
        r.push(c[3]);
    }
    assert(r@ =~= colors_of(vertices@));
    r
}

/// The index pairs of `trail_links(count)`.
pub fn trail_link_indices(count: usize) -> (r: Vec<u16>)
    requires
        2 * count <= MAX_INDEXED_VERTICES,
    ensures
        r@ == trail_links(count as nat),
{
    let mut r: Vec<u16> = Vec::new();
    for i in 0..count
        invariant
            2 * count <= MAX_INDEXED_VERTICES,
            r@.len() == 2 * i,
            forall|k: int| 0 <= k < r@.len() ==> r@[k] == trail_links(count as nat)[k],
    {
        r.push(i as u16);
        r.push((i + count) as u16);
    }
    assert(r@ =~= trail_links(count as nat));
    r
}

/// The indices of `point_indices(count)`.
pub fn point_index_list(count: usize) -> (r: Vec<u16>)
    requires
        count <= MAX_INDEXED_VERTICES,
    ensures
        r@ == point_indices(count as nat),
{
    let mut r: Vec<u16> = Vec::new();
    for i in 0..count
        invariant
            count <= MAX_INDEXED_VERTICES,
            r@.len() == i,
            forall|k: int| 0 <= k < r@.len() ==> r@[k] == point_indices(count as nat)[k],
    {
        r.push(i as u16);
    }
    assert(r@ =~= point_indices(count as nat));
    r
}

/// The buffers a renderer draws for one tick of a particle system: flat
/// positions (three components per vertex), flat RGBA colors (four per vertex)
/// in the same vertex order, and an index buffer.
pub struct Frame<T> {
    pub positions: Vec<T>,
    pub colors: Vec<T>,
    pub indices: Vec<u16>,
}

impl<T: Copy> Frame<T> {
    /// A frame that draws each vertex as a point: the index buffer lists every vertex once.
    pub fn points(vertices: &Vec<Vertex<T>>) -> (r: Frame<T>)
        requires
            vertices@.len() <= MAX_INDEXED_VERTICES,
        ensures
            r.positions@ == positions_of(vertices@),
            r.colors@ == colors_of(vertices@),
            r.indices@ == point_indices(vertices@.len()),
    {
        Frame {
            positions: flatten_positions(vertices),
            colors: flatten_colors(vertices),
            indices: point_index_list(vertices.len()),
        }
    }

    /// A frame that draws the motion of each particle over the last tick as a
    /// line segment: the previous vertices are stored first, the current ones
    /// after them, and the index buffer joins the two places of each particle.
    pub fn with_trails(previous: &Vec<Vertex<T>>, current: &Vec<Vertex<T>>) -> (r: Frame<T>)
        requires
            previous@.len() == current@.len(),
            2 * current@.len() <= MAX_INDEXED_VERTICES,
        ensures
            r.positions@ == positions_of(previous@) + positions_of(current@),
            r.colors@ == colors_of(previous@) + colors_of(current@),
            r.indices@ == trail_links(current@.len()),
    {
        let mut positions = flatten_positions(previous);
        let mut current_positions = flatten_positions(current);
        positions.append(&mut current_positions);
        let mut colors = flatten_colors(previous);
        let mut current_colors = flatten_colors(current);
        colors.append(&mut current_colors);
        Frame { positions, colors, indices: trail_link_indices(current.len()) }
    }
}

} // verus!
