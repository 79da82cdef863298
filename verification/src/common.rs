//! Descriptors shared by 2D, 3D and raw rendering: buffer placement
//! preference, shader sources, and validation of indexed triangle geometry.
use vstd::prelude::*;
use crate::error::{invalid_state, is_invalid_state, VMNLError, VMNLErrorKind, VMNLResult};
use crate::text::{append_decimal, decimal};

verus! {

#[verifier::external_type_specification]
#[verifier::external_body]
pub struct ExPathBuf(std::path::PathBuf);

/// `PathBuf::clone` from std, used by the `Clone` of `ShaderSource`: the copy
/// is the same path.
pub assume_specification[ <std::path::PathBuf as Clone>::clone ](p: &std::path::PathBuf) -> (r: std::path::PathBuf)
    ensures
        r == *p,
;

/// Preferred memory placement for CPU-uploaded GPU buffers; a preference, not a
/// guarantee.
#[derive(Debug, Clone, Copy, PartialEq, Eq, Structural, Hash)]
pub enum BufferMemoryPreference {
    /// Prefer memory that is CPU-friendly.
    Host,
    /// Prefer memory that is GPU-friendly.
    Device,
}

impl Default for BufferMemoryPreference {
    /// `Device` is the default placement.
    fn default() -> (p: Self)
        ensures
            p == BufferMemoryPreference::Device,
    {
        BufferMemoryPreference::Device
    }
}

/// Shader input, either inline GLSL source or the path of a GLSL file.
#[derive(Debug, PartialEq, Eq, Hash, PartialOrd, Ord)]
pub enum ShaderSource {
    /// Inline GLSL source.
    Src(String),
    /// Path to a GLSL source file.
    Path(std::path::PathBuf),
}

impl Clone for ShaderSource {
    /// The same source text or the same path.
    fn clone(&self) -> (c: Self)
        ensures
            c == *self,
    {
        match self {
            ShaderSource::Src(s) => ShaderSource::Src(s.clone()),
            ShaderSource::Path(p) => ShaderSource::Path(p.clone()),
        }
    }
}

/// Text of the error for too few vertices.
pub open spec fn too_few_vertices_message(label: Seq<char>) -> Seq<char> {
    label + " requires at least 3 vertices"@
}

/// Text of the error for an index list that is empty or not a whole number of
/// triangles.
pub open spec fn not_triangles_message(label: Seq<char>) -> Seq<char> {
    label + " requires a non-empty triangle index list"@
}

/// Text of the error for an index that names no vertex.
pub open spec fn index_out_of_bounds_message(label: Seq<char>, index: nat, vertex_count: nat) -> Seq<char> {
    label + " index "@ + decimal(index) + " is out of bounds for "@ + decimal(vertex_count)
        + " vertices"@
}

/// The index list holds at least one triangle and a whole number of them.
pub open spec fn is_triangle_list(indices: Seq<u32>) -> bool {
    indices.len() >= 3 && indices.len() % 3 == 0
}

/// Every index names one of `vertex_count` vertices.
pub open spec fn indices_in_bounds(indices: Seq<u32>, vertex_count: nat) -> bool {
    forall|i: int| 0 <= i < indices.len() ==> (#[trigger] indices[i]) < vertex_count
}

/// `k` is the position of the first index that names no vertex.
pub open spec fn is_first_out_of_bounds(indices: Seq<u32>, vertex_count: nat, k: int) -> bool {
    &&& 0 <= k < indices.len()
    &&& indices[k] >= vertex_count
    &&& forall|j: int| 0 <= j < k ==> (#[trigger] indices[j]) < vertex_count
}

/// Indexed triangle geometry that a draw can use.
pub open spec fn valid_triangle_geometry(vertex_count: nat, indices: Seq<u32>) -> bool {
    vertex_count >= 3 && is_triangle_list(indices) && indices_in_bounds(indices, vertex_count)
}

/// How validation of a triangle index list answers: `Ok` exactly for valid
/// geometry; otherwise the error of the first failing check, in the order
/// vertex count, triangle count, index bounds, with an out-of-bounds error
/// naming the first offending index.
pub open spec fn triangle_indices_outcome<T>(
    r: VMNLResult<T>,
    vertex_count: nat,
    indices: Seq<u32>,
    label: Seq<char>,
) -> bool {
    &&& vertex_count < 3 ==> is_invalid_state(r, too_few_vertices_message(label))
    &&& vertex_count >= 3 && !is_triangle_list(indices) ==> is_invalid_state(
        r,
        not_triangles_message(label),
    )
    &&& vertex_count >= 3 && is_triangle_list(indices) && !indices_in_bounds(indices, vertex_count)
        ==> exists|k: int|
        #![trigger is_first_out_of_bounds(indices, vertex_count, k)]
        is_first_out_of_bounds(indices, vertex_count, k) && is_invalid_state(
            r,
            index_out_of_bounds_message(label, indices[k] as nat, vertex_count),
        )
}

/// Validate a triangle index list against the number of available vertices.
///
/// The checks run in order: at least three vertices, a non-empty whole number
/// of triangles, then every index in bounds; the first failing check gives
/// the error, and an out-of-bounds error names the first offending index.
pub fn validate_triangle_indices(vertex_count: usize, indices: &[u32], label: &str) -> (r: VMNLResult<()>)
    ensures
        r is Ok <==> valid_triangle_geometry(vertex_count as nat, indices@),
        triangle_indices_outcome(r, vertex_count as nat, indices@, label@),
{
    if vertex_count < 3 {
        let mut m = String::from_str(label);
        m.append(" requires at least 3 vertices");
        return Err(invalid_state(m));
    }
    if indices.len() < 3 || indices.len() % 3 != 0 {
        let mut m = String::from_str(label);
        m.append(" requires a non-empty triangle index list");
        return Err(invalid_state(m));
    }
    let mut i: usize = 0;
    while i < indices.len()
        invariant
            i <= indices@.len(),
            vertex_count >= 3,
            is_triangle_list(indices@),
            forall|j: int| 0 <= j < i ==> (#[trigger] indices@[j]) < vertex_count,
        decreases indices@.len() - i,
    {
        let index = indices[i];
        if (index as u64) >= (vertex_count as u64) {
            let mut m = String::from_str(label);
            m.append(" index ");
            append_decimal(&mut m, index as u64);
            m.append(" is out of bounds for ");
            append_decimal(&mut m, vertex_count as u64);
            m.append(" vertices");
            let r: VMNLResult<()> = Err(invalid_state(m));
            assert(is_first_out_of_bounds(indices@, vertex_count as nat, i as int));
            assert(is_invalid_state(
                r,
                index_out_of_bounds_message(label@, indices@[i as int] as nat, vertex_count as nat),
            ));
            assert(!indices_in_bounds(indices@, vertex_count as nat));
            return r;
        }
        i += 1;
    }
    Ok(())
}

/// Convert geometry counts to the 32-bit draw counts that Vulkan takes.
///
/// The vertex count is checked first.
pub fn checked_draw_counts(vertex_count: usize, index_count: usize) -> (r: VMNLResult<(u32, u32)>)
    ensures
        r is Ok <==> vertex_count <= u32::MAX && index_count <= u32::MAX,
        r matches Ok(c) ==> c.0 == vertex_count && c.1 == index_count,
        vertex_count > u32::MAX ==> is_invalid_state(r, "vertex count out of bounds"@),
        vertex_count <= u32::MAX && index_count > u32::MAX ==> is_invalid_state(
            r,
            "index count out of bounds"@,
        ),
{
    if vertex_count as u64 > u32::MAX as u64 {
        return Err(invalid_state(String::from_str("vertex count out of bounds")));
    }
    if index_count as u64 > u32::MAX as u64 {
        return Err(invalid_state(String::from_str("index count out of bounds")));
    }
    Ok((vertex_count as u32, index_count as u32))
}

/// Validate indexed triangle geometry and return the draw counts.
///
/// Index validation comes first, then the count conversion.
pub fn validate_indexed_triangle_geometry(vertex_count: usize, indices: &[u32], label: &str) -> (r:
    VMNLResult<(u32, u32)>)
    ensures
        r is Ok <==> valid_triangle_geometry(vertex_count as nat, indices@) && vertex_count
            <= u32::MAX && indices@.len() <= u32::MAX,
        r matches Ok(c) ==> c.0 == vertex_count && c.1 == indices@.len(),
        triangle_indices_outcome(r, vertex_count as nat, indices@, label@),
        valid_triangle_geometry(vertex_count as nat, indices@) && vertex_count > u32::MAX
            ==> is_invalid_state(r, "vertex count out of bounds"@),
        valid_triangle_geometry(vertex_count as nat, indices@) && vertex_count <= u32::MAX
            && indices@.len() > u32::MAX ==> is_invalid_state(r, "index count out of bounds"@),
{
    match validate_triangle_indices(vertex_count, indices, label) {
        Err(e) => Err(e),
        Ok(()) => checked_draw_counts(vertex_count, indices.len()),
    }
}

} // verus!
