use vmnl::common::{checked_draw_counts, validate_indexed_triangle_geometry, validate_triangle_indices};
use vmnl::error::{VMNLErrorKind, VMNLResult};

fn assert_invalid_state<T: std::fmt::Debug>(result: VMNLResult<T>, expected: &str) {
    match result {
        Err(err) => match err.kind() {
            VMNLErrorKind::InvalidState(message) => assert_eq!(message, expected),
            other => panic!("unexpected error kind {other:?}"),
        },
        Ok(value) => panic!("expected an error, got {value:?}"),
    }
}

#[test]
fn validate_indexed_triangle_geometry_returns_draw_counts() {
    assert_eq!(
        validate_indexed_triangle_geometry(3, &[0, 1, 2], "mesh").map_err(|_| ()),
        Ok((3, 3))
    );
}

#[test]
fn validate_indexed_triangle_geometry_rejects_too_few_vertices() {
    assert_invalid_state(
        validate_indexed_triangle_geometry(2, &[0, 1, 2], "indexed shape"),
        "indexed shape requires at least 3 vertices",
    );
}

#[test]
fn validate_indexed_triangle_geometry_rejects_non_triangle_count() {
    assert_invalid_state(
        validate_indexed_triangle_geometry(3, &[], "mesh"),
        "mesh requires a non-empty triangle index list",
    );
    assert_invalid_state(
        validate_indexed_triangle_geometry(3, &[0, 1, 2, 0], "mesh"),
        "mesh requires a non-empty triangle index list",
    );
}

#[test]
fn validate_indexed_triangle_geometry_rejects_out_of_bounds_indices() {
    assert_invalid_state(
        validate_indexed_triangle_geometry(3, &[0, 1, 3], "mesh"),
        "mesh index 3 is out of bounds for 3 vertices",
    );
}

#[test]
fn checked_draw_counts_converts_to_u32() {
    assert_eq!(checked_draw_counts(3, 6).map_err(|_| (0, 0)), Ok((3, 6)));
}

#[test]
fn checked_draw_counts_rejects_vertex_count_above_u32() {
    assert_invalid_state(
        checked_draw_counts((u32::MAX as usize) + 1, 0),
        "vertex count out of bounds",
    );
}

#[test]
fn checked_draw_counts_rejects_index_count_above_u32() {
    assert_invalid_state(
        checked_draw_counts(3, (u32::MAX as usize) + 1),
        "index count out of bounds",
    );
}

#[test]
fn validate_triangle_indices_checks_vertices_before_indices() {
    assert_invalid_state(
        validate_triangle_indices(0, &[], "mesh"),
        "mesh requires at least 3 vertices",
    );
}

#[test]
fn validate_triangle_indices_names_the_first_out_of_bounds_index() {
    assert_invalid_state(
        validate_triangle_indices(4, &[0, 1, 9, 7, 2, 3], "indexed shape"),
        "indexed shape index 9 is out of bounds for 4 vertices",
    );
}

#[test]
fn validate_triangle_indices_accepts_the_last_vertex() {
    assert!(validate_triangle_indices(4, &[0, 1, 3, 3, 2, 1], "mesh").is_ok());
}

#[test]
fn checked_draw_counts_accepts_the_u32_limit() {
    assert_eq!(
        checked_draw_counts(u32::MAX as usize, u32::MAX as usize).map_err(|_| ()),
        Ok((u32::MAX, u32::MAX))
    );
}

#[test]
fn validate_indexed_triangle_geometry_checks_indices_before_counts() {
    assert_invalid_state(
        validate_indexed_triangle_geometry((u32::MAX as usize) + 1, &[0, 1], "mesh"),
        "mesh requires a non-empty triangle index list",
    );
    assert_invalid_state(
        validate_indexed_triangle_geometry((u32::MAX as usize) + 1, &[0, 1, 2], "mesh"),
        "vertex count out of bounds",
    );
}

#[test]
fn validate_indexed_triangle_geometry_names_the_indexed_shape() {
    assert_eq!(
        validate_indexed_triangle_geometry(3, &[0, 1, 2], "indexed shape").map_err(|_| ()),
        Ok((3, 3))
    );
    assert_invalid_state(
        validate_indexed_triangle_geometry(3, &[], "indexed shape"),
        "indexed shape requires a non-empty triangle index list",
    );
    assert_invalid_state(
        validate_indexed_triangle_geometry(3, &[0, 1, 2, 0], "indexed shape"),
        "indexed shape requires a non-empty triangle index list",
    );
    assert_invalid_state(
        validate_indexed_triangle_geometry(3, &[0, 1, 3], "indexed shape"),
        "indexed shape index 3 is out of bounds for 3 vertices",
    );
}
