//! The integer side of 2D shapes: cap, join and anchor styles, polyline
//! counting rules and color-count validation, stroke colors, and the checked
//! capacity of tessellated stroke geometry.
use vstd::prelude::*;
use crate::color::Rgba;
use crate::common::{indices_in_bounds, is_triangle_list, valid_triangle_geometry, BufferMemoryPreference};
use crate::error::{invalid_state, is_invalid_state, VMNLError, VMNLErrorKind, VMNLResult};

verus! {

/// Cap style at the two ends of an open stroke.
#[derive(Debug, Clone, Copy, PartialEq, Eq, Structural, Hash)]
pub enum LineCap {
    /// The stroke ends flat at the endpoint.
    Butt,
    /// A half disc is added at each endpoint.
    Round,
    /// The stroke is extended by half its width past each endpoint.
    Square,
}

impl Default for LineCap {
    /// `Butt` is the default cap.
    fn default() -> (c: Self)
        ensures
            c == LineCap::Butt,
    {
        LineCap::Butt
    }
}

/// Join style where adjacent polyline segments meet.
#[derive(Debug, Clone, Copy, PartialEq, Eq, Structural, Hash)]
pub enum LineJoin {
    /// Clip the outer corner between the adjacent segment edges.
    Bevel,
    /// Extend the outer edges to their intersection, subject to the miter limit.
    Miter,
    /// Approximate a circular arc around the outer corner.
    Round,
}

impl Default for LineJoin {
    /// `Bevel` is the default join.
    fn default() -> (j: Self)
        ensures
            j == LineJoin::Bevel,
    {
        LineJoin::Bevel
    }
}

/// Where on one axis of a rectangle an anchor lies.
#[derive(Debug, Clone, Copy, PartialEq, Eq, Structural, Hash)]
pub enum AxisPosition {
    /// At coordinate `0`.
    Start,
    /// At half the size.
    Middle,
    /// At the full size.
    End,
}

/// Named rectangle anchor used as the origin of placement and rotation.
#[derive(Debug, Clone, Copy, PartialEq, Eq, Structural, Hash)]
pub enum Anchor {
    /// Top-left corner.
    TopLeft,
    /// Middle of the top edge.
    Top,
    /// Top-right corner.
    TopRight,
    /// Middle of the left edge.
    Left,
    /// Center.
    Center,
    /// Middle of the right edge.
    Right,
    /// Bottom-left corner.
    BottomLeft,
    /// Middle of the bottom edge.
    Bottom,
    /// Bottom-right corner.
    BottomRight,
}

impl Default for Anchor {
    /// `TopLeft` is the default anchor.
    fn default() -> (a: Self)
        ensures
            a == Anchor::TopLeft,
    {
        Anchor::TopLeft
    }
}

/// Horizontal and vertical position of an anchor within a rectangle.
pub open spec fn anchor_axes(anchor: Anchor) -> (AxisPosition, AxisPosition) {
    match anchor {
        Anchor::TopLeft => (AxisPosition::Start, AxisPosition::Start),
        Anchor::Top => (AxisPosition::Middle, AxisPosition::Start),
        Anchor::TopRight => (AxisPosition::End, AxisPosition::Start),
        Anchor::Left => (AxisPosition::Start, AxisPosition::Middle),
        Anchor::Center => (AxisPosition::Middle, AxisPosition::Middle),
        Anchor::Right => (AxisPosition::End, AxisPosition::Middle),
        Anchor::BottomLeft => (AxisPosition::Start, AxisPosition::End),
        Anchor::Bottom => (AxisPosition::Middle, AxisPosition::End),
        Anchor::BottomRight => (AxisPosition::End, AxisPosition::End),
    }
}

/// The anchor lies on the top edge of the rectangle.
pub open spec fn on_top_edge(anchor: Anchor) -> bool {
    anchor == Anchor::TopLeft || anchor == Anchor::Top || anchor == Anchor::TopRight
}

/// The anchor lies on the bottom edge of the rectangle.
pub open spec fn on_bottom_edge(anchor: Anchor) -> bool {
    anchor == Anchor::BottomLeft || anchor == Anchor::Bottom || anchor == Anchor::BottomRight
}

/// The anchor lies on the left edge of the rectangle.
pub open spec fn on_left_edge(anchor: Anchor) -> bool {
    anchor == Anchor::TopLeft || anchor == Anchor::Left || anchor == Anchor::BottomLeft
}

/// The anchor lies on the right edge of the rectangle.
pub open spec fn on_right_edge(anchor: Anchor) -> bool {
    anchor == Anchor::TopRight || anchor == Anchor::Right || anchor == Anchor::BottomRight
}

/// An anchor's position on each axis is the edge it names: vertically at
/// the start exactly for the top row and at the end exactly for the bottom
/// row, horizontally at the start exactly for the left column and at the
/// end exactly for the right column, in the middle otherwise; and no two
/// anchors share a position.
pub proof fn lemma_anchor_axes_follow_the_name(anchor: Anchor, other: Anchor)
    ensures
        (anchor_axes(anchor).1 == AxisPosition::Start) == on_top_edge(anchor),
        (anchor_axes(anchor).1 == AxisPosition::End) == on_bottom_edge(anchor),
        (anchor_axes(anchor).1 == AxisPosition::Middle) == (!on_top_edge(anchor) && !on_bottom_edge(anchor)),
        (anchor_axes(anchor).0 == AxisPosition::Start) == on_left_edge(anchor),
        (anchor_axes(anchor).0 == AxisPosition::End) == on_right_edge(anchor),
        (anchor_axes(anchor).0 == AxisPosition::Middle) == (!on_left_edge(anchor) && !on_right_edge(anchor)),
        anchor_axes(anchor) == anchor_axes(other) ==> anchor == other,
{
}

impl Anchor {
    /// The `(x, y)` axis positions of the anchor: `Start` is `0`, `Middle`
    /// half the size and `End` the full size on that axis.
    pub fn axis_positions(self) -> (p: (AxisPosition, AxisPosition))
        ensures
            p == anchor_axes(self),
    {
        match self {
            Anchor::TopLeft => (AxisPosition::Start, AxisPosition::Start),
            Anchor::Top => (AxisPosition::Middle, AxisPosition::Start),
            Anchor::TopRight => (AxisPosition::End, AxisPosition::Start),
            Anchor::Left => (AxisPosition::Start, AxisPosition::Middle),
            Anchor::Center => (AxisPosition::Middle, AxisPosition::Middle),
            Anchor::Right => (AxisPosition::End, AxisPosition::Middle),
            Anchor::BottomLeft => (AxisPosition::Start, AxisPosition::End),
            Anchor::Bottom => (AxisPosition::Middle, AxisPosition::End),
            Anchor::BottomRight => (AxisPosition::End, AxisPosition::End),
        }
    }
}

/// Number of segments of a path through `point_count` points: one per point
/// when closed, one fewer otherwise.
pub open spec fn spec_segment_count(point_count: nat, closed: bool) -> nat {
    if closed {
        point_count
    } else if point_count == 0 {
        0
    } else {
        (point_count - 1) as nat
    }
}

/// Number of joins of a path: one per point when closed, one per interior
/// point otherwise.
pub open spec fn spec_joint_count(point_count: nat, closed: bool) -> nat {
    if closed {
        point_count
    } else if point_count < 2 {
        0
    } else {
        (point_count - 2) as nat
    }
}

/// Number of segments of an open or closed path through `point_count` points.
pub fn segment_count(point_count: usize, closed: bool) -> (n: usize)
    ensures
        n == spec_segment_count(point_count as nat, closed),
{
    if closed {
        point_count
    } else {
        point_count.saturating_sub(1)
    }
}

/// Number of joins of an open or closed path through `point_count` points.
pub fn joint_count(point_count: usize, closed: bool) -> (n: usize)
    ensures
        n == spec_joint_count(point_count as nat, closed),
{
    if closed {
        point_count
    } else {
        point_count.saturating_sub(2)
    }
}

/// Number of round caps a stroke carries: two for an open path with round
/// caps, none otherwise.
pub fn round_cap_count(closed: bool, cap: LineCap) -> (n: usize)
    ensures
        n == (if !closed && cap == LineCap::Round { 2usize } else { 0usize }),
{
    if !closed && cap == LineCap::Round {
        2
    } else {
        0
    }
}

/// Number of triangle subdivisions of a round join or a round cap.
pub const ROUND_SEGMENTS: u16 = 12;

/// Vertices reserved for one join of the given style.
pub open spec fn join_vertex_count(join: LineJoin) -> nat {
    match join {
        LineJoin::Bevel | LineJoin::Miter => 6,
        LineJoin::Round => 36,
    }
}

/// Upper bound on the vertices a stroke generates.
pub open spec fn stroke_vertex_capacity(segments: nat, joints: nat, caps: nat, join: LineJoin) -> nat {
    segments * 4 + joints * join_vertex_count(join) + caps * 14
}

/// Upper bound on the indices a stroke generates.
pub open spec fn stroke_index_capacity(segments: nat, joints: nat, caps: nat, join: LineJoin) -> nat {
    segments * 6 + joints * join_vertex_count(join) + caps * 36
}

/// Vertex and index capacity of a tessellated stroke.
///
/// The vertex total is checked against `usize` first, then the index total,
/// then both against the `u32` range of draw counts.
pub fn geometry_capacity(
    segment_count: usize,
    joint_count: usize,
    round_cap_count: usize,
    join: LineJoin,
) -> (r: VMNLResult<(usize, usize)>)
    ensures
        ({
            let v = stroke_vertex_capacity(segment_count as nat, joint_count as nat, round_cap_count as nat, join);
            let i = stroke_index_capacity(segment_count as nat, joint_count as nat, round_cap_count as nat, join);
            &&& r is Ok <==> v <= u32::MAX && i <= u32::MAX
            &&& r matches Ok(c) ==> c.0 == v && c.1 == i
            &&& v > usize::MAX ==> is_invalid_state(r, "stroke vertex count out of bounds"@)
            &&& v <= usize::MAX && i > usize::MAX ==> is_invalid_state(r, "stroke index count out of bounds"@)
            &&& v <= usize::MAX && i <= usize::MAX && (v > u32::MAX || i > u32::MAX) ==> is_invalid_state(
                r,
                "stroke vertex or index count out of bounds"@,
            )
        }),
{
    let join_vertices: usize = match join {
        LineJoin::Bevel | LineJoin::Miter => 6,
        LineJoin::Round => (ROUND_SEGMENTS as usize) * 3,
    };
    let cap_vertices: usize = (ROUND_SEGMENTS as usize) + 2;
    let cap_indices: usize = (ROUND_SEGMENTS as usize) * 3;
    let ghost v = stroke_vertex_capacity(segment_count as nat, joint_count as nat, round_cap_count as nat, join);
    let ghost ix = stroke_index_capacity(segment_count as nat, joint_count as nat, round_cap_count as nat, join);
    proof {
        assert(join_vertices == join_vertex_count(join));
        assert(segment_count * 4 >= 0 && joint_count * join_vertices >= 0) by (nonlinear_arith);
        assert(round_cap_count * 14 >= 0 && segment_count * 6 >= 0 && round_cap_count * 36 >= 0)
            by (nonlinear_arith);
    }
    let vertices: Option<usize> = match segment_count.checked_mul(4) {
        None => None,
        Some(a) => match joint_count.checked_mul(join_vertices) {
            None => None,
            Some(b) => match a.checked_add(b) {
                None => None,
                Some(ab) => match round_cap_count.checked_mul(cap_vertices) {
                    None => None,
                    Some(c) => ab.checked_add(c),
                },
            },
        },
    };
    let vertices: usize = match vertices {
        None => {
            return Err(invalid_state(String::from_str("stroke vertex count out of bounds")));
        },
        Some(n) => n,
    };
    let indices: Option<usize> = match segment_count.checked_mul(6) {
        None => None,
        Some(a) => match joint_count.checked_mul(join_vertices) {
            None => None,
            Some(b) => match a.checked_add(b) {
                None => None,
                Some(ab) => match round_cap_count.checked_mul(cap_indices) {
                    None => None,
                    Some(c) => ab.checked_add(c),
                },
            },
        },
    };
    let indices: usize = match indices {
        None => {
            return Err(invalid_state(String::from_str("stroke index count out of bounds")));
        },
        Some(n) => n,
    };
    if vertices as u64 > u32::MAX as u64 || indices as u64 > u32::MAX as u64 {
        return Err(invalid_state(String::from_str("stroke vertex or index count out of bounds")));
    }
    Ok((vertices, indices))
}

/// How a polyline is colored.
#[derive(Clone, Debug, PartialEq)]
pub enum PolylineColorMode {
    /// One color for the whole stroke.
    Uniform(Rgba),
    /// One color per input point, interpolated along each segment.
    Point(Vec<Rgba>),
    /// One flat color per segment.
    Segment(Vec<Rgba>),
}

/// The styling options of a polyline that hold no coordinates: caps, joins,
/// colors, closure and buffer placement.
///
/// Setting a color mode replaces whichever mode was set before.
#[derive(Clone, Debug)]
pub struct PolylineStyle {
    /// Cap at the two ends of an open path.
    pub cap: LineCap,
    /// Join at interior points, or at every point of a closed path.
    pub join: LineJoin,
    /// Coloring of the stroke.
    pub color_mode: PolylineColorMode,
    /// Whether the path returns from its last point to its first.
    pub closed: bool,
    /// Preferred placement of the vertex and index buffers.
    pub buffer_memory_preference: BufferMemoryPreference,
}

impl PolylineStyle {
    /// Butt caps, bevel joins, opaque white, open path, device memory.
    pub fn new() -> (s: Self)
        ensures
            s.cap == LineCap::Butt,
            s.join == LineJoin::Bevel,
            s.color_mode == PolylineColorMode::Uniform(Rgba { r: 255, g: 255, b: 255, a: 255 }),
            !s.closed,
            s.buffer_memory_preference == BufferMemoryPreference::Device,
    {
        PolylineStyle {
            cap: LineCap::Butt,
            join: LineJoin::Bevel,
            color_mode: PolylineColorMode::Uniform(Rgba { r: 255, g: 255, b: 255, a: 255 }),
            closed: false,
            buffer_memory_preference: BufferMemoryPreference::Device,
        }
    }

    /// Set the cap style.
    pub fn cap(self, cap: LineCap) -> (s: Self)
        ensures
            s == (PolylineStyle { cap, ..self }),
    {
        PolylineStyle { cap, ..self }
    }

    /// Set the join style.
    pub fn join(self, join: LineJoin) -> (s: Self)
        ensures
            s == (PolylineStyle { join, ..self }),
    {
        PolylineStyle { join, ..self }
    }

    /// Color the whole stroke with one color, replacing any other mode.
    pub fn color(self, color: Rgba) -> (s: Self)
        ensures
            s == (PolylineStyle { color_mode: PolylineColorMode::Uniform(color), ..self }),
    {
        PolylineStyle { color_mode: PolylineColorMode::Uniform(color), ..self }
    }

    /// Color each point, replacing any other mode.
    pub fn point_colors(self, colors: Vec<Rgba>) -> (s: Self)
        ensures
            s == (PolylineStyle { color_mode: PolylineColorMode::Point(colors), ..self }),
    {
        PolylineStyle { color_mode: PolylineColorMode::Point(colors), ..self }
    }

    /// Color each segment, replacing any other mode.
    pub fn segment_colors(self, colors: Vec<Rgba>) -> (s: Self)
        ensures
            s == (PolylineStyle { color_mode: PolylineColorMode::Segment(colors), ..self }),
    {
        PolylineStyle { color_mode: PolylineColorMode::Segment(colors), ..self }
    }

    /// Close the path.
    pub fn closed(self) -> (s: Self)
        ensures
            s == (PolylineStyle { closed: true, ..self }),
    {
        PolylineStyle { closed: true, ..self }
    }

    /// Set the preferred buffer placement.
    pub fn buffer_memory_preference(self, preference: BufferMemoryPreference) -> (s: Self)
        ensures
            s == (PolylineStyle { buffer_memory_preference: preference, ..self }),
    {
        PolylineStyle { buffer_memory_preference: preference, ..self }
    }
}

/// Fewest points a polyline needs: three when closed, two when open.
pub open spec fn minimum_point_count(closed: bool) -> nat {
    if closed { 3 } else { 2 }
}

/// Check that a polyline has enough points.
pub fn validate_point_count(point_count: usize, closed: bool) -> (r: VMNLResult<()>)
    ensures
        r is Ok <==> point_count >= minimum_point_count(closed),
        point_count < minimum_point_count(closed) && closed ==> is_invalid_state(
            r,
            "closed polyline requires at least three points"@,
        ),
        point_count < minimum_point_count(closed) && !closed ==> is_invalid_state(
            r,
            "open polyline requires at least two points"@,
        ),
{
    let minimum: usize = if closed { 3 } else { 2 };
    if point_count < minimum {
        if closed {
            return Err(invalid_state(String::from_str("closed polyline requires at least three points")));
        } else {
            return Err(invalid_state(String::from_str("open polyline requires at least two points")));
        }
    }
    Ok(())
}

/// The number of colors a mode carries fits the path.
pub open spec fn color_count_matches(mode: PolylineColorMode, point_count: nat, closed: bool) -> bool {
    match mode {
        PolylineColorMode::Uniform(_) => true,
        PolylineColorMode::Point(colors) => colors@.len() == point_count,
        PolylineColorMode::Segment(colors) => colors@.len() == spec_segment_count(point_count, closed),
    }
}

/// Check that point colors match the points and segment colors the segments.
pub fn validate_color_count(mode: &PolylineColorMode, point_count: usize, closed: bool) -> (r: VMNLResult<()>)
    ensures
        r is Ok <==> color_count_matches(*mode, point_count as nat, closed),
        !color_count_matches(*mode, point_count as nat, closed) && mode is Point ==> is_invalid_state(
            r,
            "polyline point colors must match point count"@,
        ),
        !color_count_matches(*mode, point_count as nat, closed) && mode is Segment ==> is_invalid_state(
            r,
            "polyline segment colors must match segment count"@,
        ),
{
    let expected_segment_colors = segment_count(point_count, closed);
    match mode {
        PolylineColorMode::Uniform(_) => Ok(()),
        PolylineColorMode::Point(colors) => {
            if colors.len() == point_count {
                Ok(())
            } else {
                Err(invalid_state(String::from_str("polyline point colors must match point count")))
            }
        },
        PolylineColorMode::Segment(colors) => {
            if colors.len() == expected_segment_colors {
                Ok(())
            } else {
                Err(invalid_state(String::from_str("polyline segment colors must match segment count")))
            }
        },
    }
}

/// Colors handed to the stroke tessellator.
#[derive(Clone, Copy)]
pub enum StrokeColors<'a> {
    /// One color everywhere.
    Uniform(Rgba),
    /// One color per point.
    Point(&'a [Rgba]),
    /// One color per segment.
    Segment(&'a [Rgba]),
}

impl<'a> StrokeColors<'a> {
    /// The colors can be read at this point and segment.
    pub open spec fn has_colors_at(&self, point_index: int, segment_index: int) -> bool {
        match *self {
            StrokeColors::Uniform(_) => true,
            StrokeColors::Point(colors) => 0 <= point_index < colors@.len(),
            StrokeColors::Segment(colors) => 0 <= segment_index < colors@.len(),
        }
    }

    /// The color at a point, as seen from a segment.
    pub open spec fn color_at(&self, point_index: int, segment_index: int) -> Rgba {
        match *self {
            StrokeColors::Uniform(c) => c,
            StrokeColors::Point(colors) => colors@[point_index],
            StrokeColors::Segment(colors) => colors@[segment_index],
        }
    }

    /// Color of a segment at its start point.
    pub fn at_segment_start(&self, point_index: usize, segment_index: usize) -> (c: Rgba)
        requires
            self.has_colors_at(point_index as int, segment_index as int),
        ensures
            c == self.color_at(point_index as int, segment_index as int),
    {
        match self {
            StrokeColors::Uniform(color) => *color,
            StrokeColors::Point(colors) => colors[point_index],
            StrokeColors::Segment(colors) => colors[segment_index],
        }
    }

    /// Color of a segment at its end point.
    pub fn at_segment_end(&self, point_index: usize, segment_index: usize) -> (c: Rgba)
        requires
            self.has_colors_at(point_index as int, segment_index as int),
        ensures
            c == self.color_at(point_index as int, segment_index as int),
    {
        match self {
            StrokeColors::Uniform(color) => *color,
            StrokeColors::Point(colors) => colors[point_index],
            StrokeColors::Segment(colors) => colors[segment_index],
        }
    }

    /// Colors on the incoming and outgoing side of a join: both the point's
    /// color with point colors, the two segments' colors with segment colors.
    pub fn at_join(&self, point_index: usize, incoming_segment: usize, outgoing_segment: usize) -> (c: (Rgba, Rgba))
        requires
            self.has_colors_at(point_index as int, incoming_segment as int),
            self.has_colors_at(point_index as int, outgoing_segment as int),
        ensures
            c.0 == self.color_at(point_index as int, incoming_segment as int),
            c.1 == self.color_at(point_index as int, outgoing_segment as int),
    {
        match self {
            StrokeColors::Uniform(color) => (*color, *color),
            StrokeColors::Point(colors) => (colors[point_index], colors[point_index]),
            StrokeColors::Segment(colors) => (colors[incoming_segment], colors[outgoing_segment]),
        }
    }
}

/// Slice `s` of a disc cut into `segments` slices around vertex `0` joins
/// the center, rim vertex `s + 1` and the next rim vertex, the last slice
/// closing on rim vertex `1`.
pub open spec fn fan_slice(indices: Seq<u32>, segments: nat, s: int) -> bool {
    &&& indices[3 * s] == 0
    &&& indices[3 * s + 1] == s + 1
    &&& indices[3 * s + 2] == (if s + 1 == segments { 1 } else { s + 2 })
}

/// The triangle fan of a disc cut into `segments` slices.
pub open spec fn is_fan(indices: Seq<u32>, segments: nat) -> bool {
    &&& indices.len() == 3 * segments
    &&& forall|s: int| 0 <= s < segments ==> #[trigger] fan_slice(indices, segments, s)
}

/// Index list of a disc cut into `segments` slices, whose vertices are the
/// center followed by `segments` rim vertices.
pub fn triangle_fan_indices(segments: u16) -> (indices: Vec<u32>)
    ensures
        is_fan(indices@, segments as nat),
{
    let mut indices: Vec<u32> = Vec::new();
    let mut segment: u16 = 0;
    while segment < segments
        invariant
            segment <= segments,
            indices@.len() == 3 * segment,
            forall|s: int| 0 <= s < segment ==> #[trigger] fan_slice(indices@, segments as nat, s),
        decreases segments - segment,
    {
        let current: u32 = (segment as u32) + 1;
        let next: u32 = if segment + 1 == segments { 1 } else { current + 1 };
        let ghost before = indices@;
        indices.push(0);
        indices.push(current);
        indices.push(next);
        proof {
            assert forall|s: int| 0 <= s < segment + 1 implies #[trigger] fan_slice(
                indices@,
                segments as nat,
                s,
            ) by {
                if s < segment {
                    assert(fan_slice(before, segments as nat, s));
                    assert(indices@[3 * s] == before[3 * s]);
                    assert(indices@[3 * s + 1] == before[3 * s + 1]);
                    assert(indices@[3 * s + 2] == before[3 * s + 2]);
                }
            }
        }
        segment = segment + 1;
    }
    indices
}

/// Piece `s` of a ring arc whose vertices come in pairs, outer then inner,
/// one pair per piece boundary: two triangles over pairs `s` and `s + 1`.
pub open spec fn band_piece(indices: Seq<u32>, s: int) -> bool {
    &&& indices[6 * s] == 2 * s
    &&& indices[6 * s + 1] == 2 * s + 1
    &&& indices[6 * s + 2] == 2 * s + 2
    &&& indices[6 * s + 3] == 2 * s + 1
    &&& indices[6 * s + 4] == 2 * s + 3
    &&& indices[6 * s + 5] == 2 * s + 2
}

/// The band of a ring arc cut into `segments` pieces.
pub open spec fn is_band(indices: Seq<u32>, segments: nat) -> bool {
    &&& indices.len() == 6 * segments
    &&& forall|s: int| 0 <= s < segments ==> #[trigger] band_piece(indices, s)
}

/// Index list of a ring arc cut into `segments` pieces; the vertex pairs are
/// counted in 16 bits, so at most `32766` pieces.
pub fn band_indices(segments: u16) -> (indices: Vec<u32>)
    requires
        segments <= 32766,
    ensures
        is_band(indices@, segments as nat),
{
    let mut indices: Vec<u32> = Vec::new();
    let mut segment: u16 = 0;
    while segment < segments
        invariant
            segment <= segments <= 32766,
            indices@.len() == 6 * segment,
            forall|s: int| 0 <= s < segment ==> #[trigger] band_piece(indices@, s),
        decreases segments - segment,
    {
        let outer_current: u32 = (segment as u32) * 2;
        let inner_current: u32 = outer_current + 1;
        let outer_next: u32 = outer_current + 2;
        let inner_next: u32 = inner_current + 2;
        let ghost before = indices@;
        indices.push(outer_current);
        indices.push(inner_current);
        indices.push(outer_next);
        indices.push(inner_current);
        indices.push(inner_next);
        indices.push(outer_next);
        proof {
            assert forall|s: int| 0 <= s < segment + 1 implies #[trigger] band_piece(indices@, s) by {
                if s < segment {
                    assert(band_piece(before, s));
                    assert(indices@[6 * s] == before[6 * s]);
                    assert(indices@[6 * s + 1] == before[6 * s + 1]);
                    assert(indices@[6 * s + 2] == before[6 * s + 2]);
                    assert(indices@[6 * s + 3] == before[6 * s + 3]);
                    assert(indices@[6 * s + 4] == before[6 * s + 4]);
                    assert(indices@[6 * s + 5] == before[6 * s + 5]);
                }
            }
        }
        segment = segment + 1;
    }
    indices
}

/// Position `k` of an index list lies in triangle `k / 3`, at corner `k % 3`.
proof fn lemma_position_split(k: int, width: int)
    requires
        0 <= k,
        0 < width,
    ensures
        k == width * (k / width) + k % width,
        0 <= k % width < width,
        0 <= k / width,
{
    vstd::arithmetic::div_mod::lemma_fundamental_div_mod(k, width);
    vstd::arithmetic::div_mod::lemma_mod_pos_bound(k, width);
    vstd::arithmetic::div_mod::lemma_div_pos_is_pos(k, width);
}

/// A fan of at least two slices is valid triangle geometry over its center
/// and rim vertices.
pub proof fn lemma_fan_is_valid_geometry(indices: Seq<u32>, segments: nat)
    requires
        is_fan(indices, segments),
        segments >= 2,
    ensures
        valid_triangle_geometry(segments + 1, indices),
{
    assert(is_triangle_list(indices)) by {
        assert((3 * segments) % 3 == 0) by (nonlinear_arith);
    }
    assert forall|k: int| 0 <= k < indices.len() implies (#[trigger] indices[k]) < segments + 1 by {
        lemma_position_split(k, 3);
        let s = k / 3;
        assert(s < segments) by (nonlinear_arith)
            requires
                k == 3 * s + k % 3,
                0 <= k % 3 < 3,
                k < 3 * segments,
        ;
        assert(fan_slice(indices, segments, s));
    }
    assert(indices_in_bounds(indices, segments + 1));
}

/// A band of at least one piece is valid triangle geometry over its
/// `2 * (segments + 1)` vertices.
pub proof fn lemma_band_is_valid_geometry(indices: Seq<u32>, segments: nat)
    requires
        is_band(indices, segments),
        segments >= 1,
    ensures
        valid_triangle_geometry(2 * (segments + 1), indices),
{
    assert(is_triangle_list(indices)) by {
        assert((6 * segments) % 3 == 0) by (nonlinear_arith);
    }
    assert forall|k: int| 0 <= k < indices.len() implies (#[trigger] indices[k]) < 2 * (segments
        + 1) by {
        lemma_position_split(k, 6);
        let s = k / 6;
        assert(s < segments) by (nonlinear_arith)
            requires
                k == 6 * s + k % 6,
                0 <= k % 6 < 6,
                k < 6 * segments,
        ;
        assert(band_piece(indices, s));
    }
    assert(indices_in_bounds(indices, 2 * (segments + 1)));
}

} // verus!
