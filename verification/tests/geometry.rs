use ember::geometry::{
    cube_index_data, cube_vertex_data, plane_index_data, plane_vertex_data, triangle_index_data,
    triangle_vertex_data, CubeGeometry, Geometry, GeometryComponent, GeometryData, GeometryType,
    Vertex, HALF, NEG_HALF, ZERO,
};
use ember::geometry_init::GeometryInitializerSystem;
use ember::handles::BufferHandle;

fn coordinates(vertex: &Vertex) -> [f32; 3] {
    [
        f32::from_bits(vertex.position[0]),
        f32::from_bits(vertex.position[1]),
        f32::from_bits(vertex.position[2]),
    ]
}

#[test]
fn words_encode_the_coordinates() {
    assert_eq!(f32::from_bits(HALF), 0.5);
    assert_eq!(f32::from_bits(NEG_HALF), -0.5);
    assert_eq!(f32::from_bits(ZERO), 0.0);
    assert_eq!((0.0f32 - 0.5).to_bits(), NEG_HALF);
    assert_eq!((0.0f32 + 0.5).to_bits(), HALF);
}

#[test]
fn vertex_new_keeps_the_order_of_the_coordinates() {
    let v = Vertex::new(1, 2, 3);
    assert_eq!(v.position, [1, 2, 3]);
}

#[test]
fn cube_has_eight_corners_in_the_documented_order() {
    let vertices = cube_vertex_data();
    assert_eq!(vertices.len(), 8);
    let expected: [[f32; 3]; 8] = [
        [-0.5, 0.5, -0.5],
        [0.5, 0.5, -0.5],
        [-0.5, -0.5, -0.5],
        [0.5, -0.5, -0.5],
        [-0.5, 0.5, 0.5],
        [0.5, 0.5, 0.5],
        [-0.5, -0.5, 0.5],
        [0.5, -0.5, 0.5],
    ];
    for k in 0..8 {
        assert_eq!(coordinates(&vertices[k]), expected[k]);
    }
}

#[test]
fn cube_has_thirty_six_indices() {
    let indices = cube_index_data();
    assert_eq!(
        indices,
        vec![
            4, 5, 7, 6, 4, 7, 3, 2, 7, 2, 6, 7, 7, 5, 1, 3, 7, 1, 5, 4, 0, 1, 5, 0, 4, 6, 2, 0, 4,
            2, 2, 3, 0, 1, 2, 0
        ]
    );
    assert_eq!(indices.len(), 36);
    assert!(indices.iter().all(|i| *i < 8));
}

#[test]
fn plane_is_the_unit_square() {
    let vertices = plane_vertex_data();
    assert_eq!(vertices.len(), 4);
    assert_eq!(coordinates(&vertices[0]), [-0.5, 0.5, 0.0]);
    assert_eq!(coordinates(&vertices[1]), [0.5, 0.5, 0.0]);
    assert_eq!(coordinates(&vertices[2]), [-0.5, -0.5, 0.0]);
    assert_eq!(coordinates(&vertices[3]), [0.5, -0.5, 0.0]);
    assert_eq!(plane_index_data(), vec![0, 1, 3, 2, 0, 3]);
}

#[test]
fn triangle_is_closed_on_its_first_corner() {
    let vertices = triangle_vertex_data();
    assert_eq!(vertices.len(), 3);
    assert_eq!(coordinates(&vertices[0]), [-0.5, -0.5, 0.0]);
    assert_eq!(coordinates(&vertices[1]), [0.0, 0.5, 0.0]);
    assert_eq!(coordinates(&vertices[2]), [0.5, -0.5, 0.0]);
    assert_eq!(triangle_index_data(), vec![0, 1, 2, 0]);
}

#[test]
fn new_mesh_is_not_initialized() {
    let data = GeometryData::new(cube_vertex_data(), cube_index_data());
    assert!(!data.initialized);
    assert!(data.needs_upload());
    assert_eq!(data.vertex_buffer, None);
    assert_eq!(data.index_buffer, None);
}

#[test]
fn initialize_records_the_buffers_once() {
    let mut data = GeometryData::new(plane_vertex_data(), plane_index_data());
    assert!(data.initialize(BufferHandle(7), BufferHandle(8)));
    assert!(data.initialized);
    assert!(!data.needs_upload());
    assert_eq!(data.vertex_buffer, Some(BufferHandle(7)));
    assert_eq!(data.index_buffer, Some(BufferHandle(8)));
}

#[test]
fn initialize_twice_is_initialize_once() {
    let mut data = GeometryData::new(cube_vertex_data(), cube_index_data());
    data.initialize(BufferHandle(1), BufferHandle(2));
    let vertices = data.vertices.clone();
    let indices = data.indices.clone();
    let recorded = data.initialize(BufferHandle(3), BufferHandle(4));
    assert!(!recorded);
    assert!(data.initialized);
    assert_eq!(data.vertex_buffer, Some(BufferHandle(1)));
    assert_eq!(data.index_buffer, Some(BufferHandle(2)));
    assert_eq!(data.vertices, vertices);
    assert_eq!(data.indices, indices);
}

#[test]
fn validate_accepts_indices_in_range() {
    let data = GeometryData::new(triangle_vertex_data(), triangle_index_data());
    assert!(data.validate());
    let empty = GeometryData::new(Vec::new(), Vec::new());
    assert!(empty.validate());
}

#[test]
fn validate_refuses_an_index_without_vertex() {
    let data = GeometryData::new(triangle_vertex_data(), vec![0, 1, 3]);
    assert!(!data.validate());
    let no_vertices = GeometryData::new(Vec::new(), vec![0]);
    assert!(!no_vertices.validate());
}

#[test]
fn cube_geometry_create() {
    let cube = CubeGeometry::create();
    assert_eq!(cube.data.vertices, cube_vertex_data());
    assert_eq!(cube.data.indices, cube_index_data());
    assert!(!cube.is_initialized());
    assert!(cube.data.validate());
}

#[test]
fn cube_geometry_initialize_and_buffers() {
    let mut cube = CubeGeometry::create();
    cube.initialize(BufferHandle(10), BufferHandle(11));
    assert!(cube.is_initialized());
    assert_eq!(cube.vertex_buffer(), BufferHandle(10));
    assert_eq!(cube.index_buffer(), BufferHandle(11));
    cube.initialize(BufferHandle(12), BufferHandle(13));
    assert_eq!(cube.vertex_buffer(), BufferHandle(10));
    assert_eq!(cube.index_buffer(), BufferHandle(11));
}

#[test]
fn component_starts_without_mesh() {
    let component = GeometryComponent::create(GeometryType::Plane);
    assert_eq!(component.geometry_type, GeometryType::Plane);
    assert!(component.data.vertices.is_empty());
    assert!(component.data.indices.is_empty());
    assert!(!component.data.initialized);
}

#[test]
fn init_cube_fills_in_the_cube() {
    let system = GeometryInitializerSystem;
    let mut component = GeometryComponent::create(GeometryType::Box);
    system.init_cube(&mut component);
    assert_eq!(component.data.vertices.len(), 8);
    assert_eq!(component.data.indices.len(), 36);
    assert_eq!(component.data.vertices, cube_vertex_data());
    assert!(!component.data.initialized);
    assert_eq!(component.geometry_type, GeometryType::Box);
}

#[test]
fn init_plane_fills_in_the_square() {
    let system = GeometryInitializerSystem;
    let mut component = GeometryComponent::create(GeometryType::Plane);
    system.init_plane(&mut component);
    assert_eq!(component.data.vertices, plane_vertex_data());
    assert_eq!(component.data.indices, vec![0, 1, 3, 2, 0, 3]);
}

#[test]
fn init_triangle_fills_in_the_triangle() {
    let system = GeometryInitializerSystem;
    let mut component = GeometryComponent::create(GeometryType::Triangle);
    system.init_triangle(&mut component);
    assert_eq!(component.data.vertices, triangle_vertex_data());
    assert_eq!(component.data.indices, vec![0, 1, 2, 0]);
}

#[test]
fn create_geometry_goes_by_the_shape() {
    let system = GeometryInitializerSystem;
    let mut cube = GeometryComponent::create(GeometryType::Box);
    let mut plane = GeometryComponent::create(GeometryType::Plane);
    let mut triangle = GeometryComponent::create(GeometryType::Triangle);
    assert!(system.create_geometry(&mut cube));
    assert!(system.create_geometry(&mut plane));
    assert!(system.create_geometry(&mut triangle));
    assert_eq!(cube.data.indices.len(), 36);
    assert_eq!(plane.data.indices.len(), 6);
    assert_eq!(triangle.data.indices.len(), 4);
    assert!(cube.data.validate() && plane.data.validate() && triangle.data.validate());
}

#[test]
fn create_geometry_leaves_an_uploaded_mesh_alone() {
    let system = GeometryInitializerSystem;
    let mut component = GeometryComponent::create(GeometryType::Box);
    component.data.vertices = triangle_vertex_data();
    component.data.indices = vec![2, 1, 0];
    component.initialize(BufferHandle(1), BufferHandle(2));
    let pending = system.create_geometry(&mut component);
    assert!(!pending);
    assert_eq!(component.data.vertices, triangle_vertex_data());
    assert_eq!(component.data.indices, vec![2, 1, 0]);
    assert!(component.data.initialized);
}

#[test]
fn run_generates_what_is_pending_and_names_it() {
    let mut system = GeometryInitializerSystem;
    let mut uploaded = GeometryComponent::create(GeometryType::Plane);
    system.init_plane(&mut uploaded);
    uploaded.initialize(BufferHandle(5), BufferHandle(6));
    let mut geometries = vec![
        GeometryComponent::create(GeometryType::Box),
        uploaded,
        GeometryComponent::create(GeometryType::Triangle),
    ];
    let pending = system.run(&mut geometries);
    assert_eq!(pending, vec![0, 2]);
    assert_eq!(geometries.len(), 3);
    assert_eq!(geometries[0].data.indices.len(), 36);
    assert_eq!(geometries[1].data.vertex_buffer, Some(BufferHandle(5)));
    assert_eq!(geometries[2].data.indices, vec![0, 1, 2, 0]);
    for place in pending {
        geometries[place].initialize(BufferHandle(20), BufferHandle(21));
    }
    let vertices = geometries[0].data.vertices.clone();
    let again = system.run(&mut geometries);
    assert!(again.is_empty());
    assert_eq!(geometries[0].data.vertices, vertices);
    assert!(geometries.iter().all(|g| g.data.initialized));
}

#[test]
fn run_on_nothing() {
    let mut system = GeometryInitializerSystem;
    let mut geometries: Vec<GeometryComponent> = Vec::new();
    assert!(system.run(&mut geometries).is_empty());
}
