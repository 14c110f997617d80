use termcad::geometry::generate_topology;
use termcad::scene::GeometryType;

#[test]
fn cube_has_twelve_edges_on_eight_vertices() {
    let t = generate_topology(GeometryType::Cube);
    assert_eq!(t.vertex_count, 8);
    assert_eq!(
        t.edges,
        vec![
            (0, 1), (1, 2), (2, 3), (3, 0),
            (4, 5), (5, 6), (6, 7), (7, 4),
            (0, 4), (1, 5), (2, 6), (3, 7),
        ]
    );
}

#[test]
fn solid_sizes() {
    let cases = [
        (GeometryType::Sphere, 208, 400),
        (GeometryType::Torus, 288, 576),
        (GeometryType::Ico, 12, 30),
        (GeometryType::Cylinder, 32, 48),
    ];
    for (kind, vertices, edges) in cases {
        let t = generate_topology(kind);
        assert_eq!(t.vertex_count, vertices);
        assert_eq!(t.edges.len(), edges);
        assert!(t.edges.iter().all(|&(a, b)| a < vertices && b < vertices));
    }
}

#[test]
fn sphere_rings_then_meridians() {
    let t = generate_topology(GeometryType::Sphere);
    assert_eq!(t.edges[0], (0, 1));
    assert_eq!(t.edges[15], (15, 0));
    assert_eq!(t.edges[16], (16, 17));
    // the first meridian starts after the 13 ring loops
    assert_eq!(t.edges[208], (0, 16));
    assert_eq!(t.edges[219], (176, 192));
    assert_eq!(t.edges[220], (1, 17));
}

#[test]
fn torus_edges_wrap_around() {
    let t = generate_topology(GeometryType::Torus);
    assert_eq!(t.edges[0], (0, 1));
    assert_eq!(t.edges[1], (0, 24));
    assert_eq!(t.edges[46], (23, 0));
    assert_eq!(t.edges[575], (287, 23));
}

#[test]
fn icosahedron_vertices_have_degree_five() {
    let t = generate_topology(GeometryType::Ico);
    for v in 0..12 {
        let degree = t.edges.iter().filter(|&&(a, b)| a == v || b == v).count();
        assert_eq!(degree, 5);
    }
}

#[test]
fn cylinder_verticals_join_bottom_to_top() {
    let t = generate_topology(GeometryType::Cylinder);
    assert_eq!(t.edges[15], (15, 0));
    assert_eq!(t.edges[31], (31, 16));
    assert_eq!(t.edges[32], (0, 16));
    assert_eq!(t.edges[47], (15, 31));
}
