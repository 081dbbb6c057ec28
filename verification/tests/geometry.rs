use star_render::vertex::{
    create_star_vertices, PositionVertex, INNER_RADIUS_MILLI, OUTER_RADIUS_MILLI,
    STAR_VERTEX_SIZE,
};

#[test]
fn star_index_pattern() {
    let (_, indices) = create_star_vertices(None, None);
    let mut expected: Vec<u16> = Vec::new();
    for i in 0..10u16 {
        expected.push(i);
        expected.push(i + 5);
        expected.push((i + 1) % 10);
        expected.push(10);
    }
    assert_eq!(indices, expected);
    assert_eq!(indices.len(), 40);
    assert_eq!(&indices[0..8], &[0, 5, 1, 10, 1, 6, 2, 10]);
    assert_eq!(&indices[36..40], &[9, 14, 0, 10]);
}

#[test]
fn star_vertices_default_radii() {
    let (vertices, _) = create_star_vertices(None, None);
    assert_eq!(vertices.len(), 11);
    for i in 0..10u32 {
        assert_eq!(vertices[i as usize].angle_index, i);
        let expected_radius = if i % 2 == 0 {
            OUTER_RADIUS_MILLI
        } else {
            INNER_RADIUS_MILLI
        };
        assert_eq!(vertices[i as usize].radius_milli, expected_radius);
    }
    assert_eq!(
        vertices[10],
        PositionVertex {
            angle_index: 0,
            radius_milli: 0
        }
    );
}

#[test]
fn star_vertices_given_radii() {
    let (vertices, indices) = create_star_vertices(Some(700), Some(200));
    assert_eq!(vertices.len(), 11);
    for i in 0..10u32 {
        assert_eq!(vertices[i as usize].angle_index, i);
        let expected_radius = if i % 2 == 0 { 700 } else { 200 };
        assert_eq!(vertices[i as usize].radius_milli, expected_radius);
    }
    assert_eq!(indices.len(), 40);
}

#[test]
fn star_vertices_inner_radius_alone_yields_center_only() {
    let (vertices, indices) = create_star_vertices(None, Some(200));
    assert_eq!(vertices.len(), 1);
    assert_eq!(
        vertices[0],
        PositionVertex {
            angle_index: 0,
            radius_milli: 0
        }
    );
    assert_eq!(indices.len(), 40);
}

#[test]
fn star_vertices_outer_radius_alone_uses_defaults() {
    let (vertices, _) = create_star_vertices(Some(700), None);
    assert_eq!(vertices.len(), 11);
    assert_eq!(vertices[0].radius_milli, OUTER_RADIUS_MILLI);
    assert_eq!(vertices[1].radius_milli, INNER_RADIUS_MILLI);
}

#[test]
fn outline_vertices_alternate_rings() {
    let vertices = PositionVertex::new_vecs(STAR_VERTEX_SIZE * 2);
    assert_eq!(vertices.len(), 10);
    for (i, v) in vertices.iter().enumerate() {
        assert_eq!(v.angle_index, i as u32);
        if i % 2 == 0 {
            assert_eq!(v.radius_milli, OUTER_RADIUS_MILLI);
        } else {
            assert_eq!(v.radius_milli, INNER_RADIUS_MILLI);
        }
    }
}

#[test]
fn outline_vertices_empty_and_long() {
    assert_eq!(PositionVertex::new_vecs(0).len(), 0);
    let vertices = PositionVertex::new_vecs(13);
    assert_eq!(vertices.len(), 13);
    assert_eq!(vertices[12].angle_index, 12);
    assert_eq!(vertices[12].radius_milli, OUTER_RADIUS_MILLI);
}
