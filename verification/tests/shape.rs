use vmnl::color::{NamedColor, Rgba};
use vmnl::error::VMNLErrorKind;
use vmnl::shape::{
    geometry_capacity, joint_count, round_cap_count, segment_count, validate_color_count,
    validate_point_count, LineCap, LineJoin, PolylineColorMode, StrokeColors,
};

fn invalid_message<T>(result: vmnl::error::VMNLResult<T>) -> String {
    match result {
        Err(err) => match err.kind() {
            VMNLErrorKind::InvalidState(message) => message.clone(),
            other => panic!("unexpected error kind {other:?}"),
        },
        Ok(_) => panic!("expected an error"),
    }
}

#[test]
fn open_and_closed_segment_counts_follow_the_point_order() {
    assert_eq!(segment_count(4, false), 3);
    assert_eq!(segment_count(4, true), 4);
}

#[test]
fn geometry_capacity_checks_arithmetic_and_backend_counts() {
    assert!(geometry_capacity(usize::MAX, 0, 0, LineJoin::Bevel).is_err());
    assert!(geometry_capacity(u32::MAX as usize, 0, 0, LineJoin::Bevel).is_err());
}

#[test]
fn segment_and_joint_counts_of_short_paths() {
    assert_eq!(segment_count(0, false), 0);
    assert_eq!(segment_count(1, false), 0);
    assert_eq!(joint_count(1, false), 0);
    assert_eq!(joint_count(4, false), 2);
    assert_eq!(joint_count(4, true), 4);
}

#[test]
fn round_caps_only_on_open_round_paths() {
    assert_eq!(round_cap_count(false, LineCap::Round), 2);
    assert_eq!(round_cap_count(true, LineCap::Round), 0);
    assert_eq!(round_cap_count(false, LineCap::Butt), 0);
    assert_eq!(round_cap_count(false, LineCap::Square), 0);
}

#[test]
fn geometry_capacity_counts_segments_joins_and_caps() {
    let capacity = geometry_capacity(3, 2, 2, LineJoin::Bevel).map_err(|_| ());
    assert_eq!(capacity, Ok((3 * 4 + 2 * 6 + 2 * 14, 3 * 6 + 2 * 6 + 2 * 36)));
    let round = geometry_capacity(1, 1, 0, LineJoin::Round).map_err(|_| ());
    assert_eq!(round, Ok((4 + 36, 6 + 36)));
}

#[test]
fn geometry_capacity_reports_each_overflow() {
    assert_eq!(
        invalid_message(geometry_capacity(usize::MAX, 0, 0, LineJoin::Bevel)),
        "stroke vertex count out of bounds"
    );
    assert_eq!(
        invalid_message(geometry_capacity(usize::MAX / 5, 0, 0, LineJoin::Miter)),
        "stroke index count out of bounds"
    );
    assert_eq!(
        invalid_message(geometry_capacity(u32::MAX as usize, 0, 0, LineJoin::Bevel)),
        "stroke vertex or index count out of bounds"
    );
}

#[test]
fn point_count_minimum_depends_on_closure() {
    assert!(validate_point_count(2, false).is_ok());
    assert_eq!(
        invalid_message(validate_point_count(1, false)),
        "open polyline requires at least two points"
    );
    assert_eq!(
        invalid_message(validate_point_count(2, true)),
        "closed polyline requires at least three points"
    );
    assert!(validate_point_count(3, true).is_ok());
}

#[test]
fn color_counts_follow_the_color_mode() {
    let red = Rgba::named(NamedColor::Red);
    assert!(validate_color_count(&PolylineColorMode::Uniform(red), 5, false).is_ok());
    assert!(validate_color_count(&PolylineColorMode::Point(vec![red; 3]), 3, false).is_ok());
    assert_eq!(
        invalid_message(validate_color_count(&PolylineColorMode::Point(vec![red; 2]), 3, false)),
        "polyline point colors must match point count"
    );
    assert_eq!(
        invalid_message(validate_color_count(&PolylineColorMode::Segment(vec![red]), 3, false)),
        "polyline segment colors must match segment count"
    );
    assert!(validate_color_count(&PolylineColorMode::Segment(vec![red; 3]), 3, true).is_ok());
    assert_eq!(
        invalid_message(validate_color_count(&PolylineColorMode::Segment(vec![red; 3]), 3, false)),
        "polyline segment colors must match segment count"
    );
}

#[test]
fn stroke_colors_read_points_or_segments() {
    let points = [Rgba::rgb(1, 0, 0), Rgba::rgb(2, 0, 0), Rgba::rgb(3, 0, 0)];
    let segments = [Rgba::rgb(0, 1, 0), Rgba::rgb(0, 2, 0)];
    let by_point = StrokeColors::Point(&points);
    let by_segment = StrokeColors::Segment(&segments);
    let uniform = StrokeColors::Uniform(Rgba::rgb(9, 9, 9));
    assert_eq!(by_point.at_segment_start(0, 0), points[0]);
    assert_eq!(by_point.at_segment_end(1, 0), points[1]);
    assert_eq!(by_point.at_join(1, 0, 1), (points[1], points[1]));
    assert_eq!(by_segment.at_segment_start(0, 1), segments[1]);
    assert_eq!(by_segment.at_join(1, 0, 1), (segments[0], segments[1]));
    assert_eq!(uniform.at_join(2, 0, 1), (Rgba::rgb(9, 9, 9), Rgba::rgb(9, 9, 9)));
}

#[test]
fn circle_fan_joins_the_center_to_each_rim_pair() {
    let indices = vmnl::shape::triangle_fan_indices(4);
    assert_eq!(indices, vec![0, 1, 2, 0, 2, 3, 0, 3, 4, 0, 4, 1]);
    assert!(vmnl::common::validate_triangle_indices(5, &indices, "circle").is_ok());
    assert!(vmnl::shape::triangle_fan_indices(0).is_empty());
}

#[test]
fn arc_band_covers_each_piece_with_two_triangles() {
    let indices = vmnl::shape::band_indices(2);
    assert_eq!(indices, vec![0, 1, 2, 1, 3, 2, 2, 3, 4, 3, 5, 4]);
    assert!(vmnl::common::validate_triangle_indices(6, &indices, "arc").is_ok());
    let large = vmnl::shape::band_indices(32766);
    assert_eq!(large.len(), 6 * 32766);
    assert_eq!(large[large.len() - 2], 2 * 32766 + 1);
}
