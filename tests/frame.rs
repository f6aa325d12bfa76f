use black_body::frame::{
    flatten_colors, flatten_positions, point_index_list, trail_link_indices, Frame, Vertex,
};

fn vertex(i: f32) -> Vertex<f32> {
    Vertex { position: [i, i + 0.25, i + 0.5], color: [i * 2.0, 0.5, 0.25, 1.0] }
}

fn vertices(n: usize, offset: f32) -> Vec<Vertex<f32>> {
    (0..n).map(|i| vertex(i as f32 + offset)).collect()
}

#[test]
fn flatten_positions_in_vertex_order() {
    let vs = vertices(2, 0.0);
    assert_eq!(flatten_positions(&vs), vec![0.0, 0.25, 0.5, 1.0, 1.25, 1.5]);
}

#[test]
fn flatten_colors_in_vertex_order() {
    let vs = vertices(2, 0.0);
    assert_eq!(flatten_colors(&vs), vec![0.0, 0.5, 0.25, 1.0, 2.0, 0.5, 0.25, 1.0]);
}

#[test]
fn flatten_of_no_vertices_is_empty() {
    let vs: Vec<Vertex<f32>> = Vec::new();
    assert!(flatten_positions(&vs).is_empty());
    assert!(flatten_colors(&vs).is_empty());
}

#[test]
fn trail_links_pair_each_vertex_with_its_successor() {
    assert_eq!(trail_link_indices(3), vec![0, 3, 1, 4, 2, 5]);
    assert!(trail_link_indices(0).is_empty());
    let all = trail_link_indices(32768);
    assert_eq!(all.len(), 65536);
    assert_eq!(all[65534], 32767);
    assert_eq!(all[65535], 65535);
}

#[test]
fn point_indices_count_up() {
    assert_eq!(point_index_list(4), vec![0, 1, 2, 3]);
    assert!(point_index_list(0).is_empty());
    let all = point_index_list(65536);
    assert_eq!(all[65535], 65535);
}

#[test]
fn point_frame_buffer_lengths() {
    for n in [0usize, 1, 5, 100] {
        let f = Frame::points(&vertices(n, 0.0));
        assert_eq!(f.positions.len(), 3 * n);
        assert_eq!(f.colors.len(), 4 * n);
        assert_eq!(f.indices.len(), n);
    }
}

#[test]
fn trail_frame_buffer_lengths() {
    for n in [0usize, 1, 5, 100] {
        let f = Frame::with_trails(&vertices(n, 0.0), &vertices(n, 10.0));
        assert_eq!(f.positions.len(), 6 * n);
        assert_eq!(f.colors.len(), 8 * n);
        assert_eq!(f.indices.len(), 2 * n);
    }
}

#[test]
fn trail_frame_stores_previous_then_current() {
    let previous = vertices(2, 0.0);
    let current = vertices(2, 10.0);
    let f = Frame::with_trails(&previous, &current);
    assert_eq!(
        f.positions,
        vec![0.0, 0.25, 0.5, 1.0, 1.25, 1.5, 10.0, 10.25, 10.5, 11.0, 11.25, 11.5]
    );
    assert_eq!(f.colors[0..4], [0.0, 0.5, 0.25, 1.0]);
    assert_eq!(f.colors[8..12], [20.0, 0.5, 0.25, 1.0]);
    assert_eq!(f.indices, vec![0, 2, 1, 3]);
    // Each segment joins a particle's old place to its new one.
    for i in 0..2 {
        let from = f.indices[2 * i] as usize;
        let to = f.indices[2 * i + 1] as usize;
        assert_eq!(f.positions[3 * from..3 * from + 3], previous[i].position);
        assert_eq!(f.positions[3 * to..3 * to + 3], current[i].position);
        assert_eq!(f.colors[4 * from..4 * from + 4], previous[i].color);
        assert_eq!(f.colors[4 * to..4 * to + 4], current[i].color);
    }
}
