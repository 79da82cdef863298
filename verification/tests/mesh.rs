use vmnl::common::BufferMemoryPreference;
use vmnl::error::{VMNLErrorKind, VMNLResult};
use vmnl::mesh::{IndexedShapeBuilder, MeshBuilder};

type Vertex = [f32; 3];

fn vertices() -> [Vertex; 3] {
    [[0.0, 0.0, 0.0], [1.0, 0.0, 0.0], [0.0, 1.0, 0.0]]
}

fn invalid_message<T>(result: VMNLResult<T>) -> String {
    match result {
        Err(err) => match err.kind() {
            VMNLErrorKind::InvalidState(message) => message.clone(),
            other => panic!("unexpected error kind {other:?}"),
        },
        Ok(_) => panic!("expected an error"),
    }
}

#[test]
fn mod_validate_geometry_accepts_triangle_indices() {
    assert!(MeshBuilder::validate_geometry(&vertices(), &[0, 1, 2]).is_ok());
}

#[test]
fn mod_validate_geometry_rejects_out_of_bounds_indices() {
    let result: VMNLResult<()> = MeshBuilder::validate_geometry(&vertices(), &[0, 1, 3]);
    assert!(matches!(
        result,
        Err(err) if matches!(err.kind(), VMNLErrorKind::InvalidState(message) if message == "mesh index 3 is out of bounds for 3 vertices")
    ));
}

#[test]
fn mesh_builder_counts_draws_and_keeps_placement() {
    let builder = MeshBuilder::new(vertices().to_vec(), vec![0, 1, 2, 2, 1, 0])
        .buffer_memory_preference(BufferMemoryPreference::Host);
    assert_eq!(builder.draw_counts().map_err(|_| ()), Ok((3, 6)));
    let (vertices, indices, preference) = builder.into_parts();
    assert_eq!(vertices.len(), 3);
    assert_eq!(indices, vec![0, 1, 2, 2, 1, 0]);
    assert_eq!(preference, BufferMemoryPreference::Host);
}

#[test]
fn mesh_builder_reports_bad_geometry() {
    let two: Vec<Vertex> = vec![[0.0; 3]; 2];
    assert_eq!(
        invalid_message(MeshBuilder::new(two, vec![0, 1, 0]).draw_counts()),
        "mesh requires at least 3 vertices"
    );
    assert_eq!(
        invalid_message(MeshBuilder::new(vertices().to_vec(), vec![0, 1]).draw_counts()),
        "mesh requires a non-empty triangle index list"
    );
    let (_, _, preference) = MeshBuilder::new(vertices().to_vec(), vec![]).into_parts();
    assert_eq!(preference, BufferMemoryPreference::Device);
}

fn indexed_vertices() -> [[f32; 2]; 3] {
    [[0.0, 0.0], [1.0, 0.0], [0.0, 1.0]]
}

#[test]
fn indexed_validate_geometry_accepts_triangle_indices() {
    assert!(IndexedShapeBuilder::validate_geometry(&indexed_vertices(), &[0, 1, 2]).is_ok());
}

#[test]
fn indexed_validate_geometry_rejects_too_few_vertices() {
    let result: VMNLResult<()> = IndexedShapeBuilder::validate_geometry(&indexed_vertices()[..2], &[0, 1, 2]);
    assert!(matches!(
        result,
        Err(err) if matches!(err.kind(), VMNLErrorKind::InvalidState(message) if message == "indexed shape requires at least 3 vertices")
    ));
}

#[test]
fn indexed_validate_geometry_rejects_non_triangle_index_count() {
    let result: VMNLResult<()> = IndexedShapeBuilder::validate_geometry(&indexed_vertices(), &[]);
    assert!(matches!(
        result,
        Err(err) if matches!(err.kind(), VMNLErrorKind::InvalidState(message) if message == "indexed shape requires a non-empty triangle index list")
    ));
    let result: VMNLResult<()> = IndexedShapeBuilder::validate_geometry(&indexed_vertices(), &[0, 1, 2, 0]);
    assert!(matches!(
        result,
        Err(err) if matches!(err.kind(), VMNLErrorKind::InvalidState(message) if message == "indexed shape requires a non-empty triangle index list")
    ));
}

#[test]
fn indexed_validate_geometry_rejects_out_of_bounds_indices() {
    let result: VMNLResult<()> = IndexedShapeBuilder::validate_geometry(&indexed_vertices(), &[0, 1, 3]);
    assert!(matches!(
        result,
        Err(err) if matches!(err.kind(), VMNLErrorKind::InvalidState(message) if message == "indexed shape index 3 is out of bounds for 3 vertices")
    ));
}

#[test]
fn indexed_buffer_memory_preference_defaults_to_device() {
    let builder = IndexedShapeBuilder::new(indexed_vertices().to_vec(), vec![0, 1, 2]);
    let (_, _, preference) = builder.into_parts();
    assert_eq!(preference, BufferMemoryPreference::Device);
}

#[test]
fn indexed_buffer_memory_preference_can_be_overridden() {
    let builder = IndexedShapeBuilder::new(indexed_vertices().to_vec(), vec![0, 1, 2])
        .buffer_memory_preference(BufferMemoryPreference::Host);
    assert_eq!(builder.draw_counts().map_err(|_| ()), Ok((3, 3)));
    let (_, _, preference) = builder.into_parts();
    assert_eq!(preference, BufferMemoryPreference::Host);
}
