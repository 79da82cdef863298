//! Low-level raw rendering: pipeline and geometry specifications, and the
//! validation rules that raw geometry, pipeline layouts and descriptor
//! resources must satisfy before anything is sent to the GPU.
use vstd::prelude::*;
use crate::common::{checked_draw_counts, BufferMemoryPreference, ShaderSource};
use crate::error::{invalid_state, is_invalid_state, VMNLError, VMNLErrorKind, VMNLResult};
use crate::text::{append_decimal, decimal};

verus! {

/// Primitive topology used by a raw pipeline.
#[derive(Clone, Copy, Debug, PartialEq, Eq, Structural)]
pub enum PrimitiveTopology {
    /// Independent points.
    PointList,
    /// Independent lines.
    LineList,
    /// Connected line strip.
    LineStrip,
    /// Independent triangles.
    TriangleList,
    /// Connected triangle strip.
    TriangleStrip,
}

/// Blend mode used by a raw pipeline.
#[derive(Clone, Copy, Debug, PartialEq, Eq, Structural)]
pub enum BlendMode {
    /// No blending.
    Opaque,
    /// Standard source-alpha blending.
    Alpha,
}

/// Specification of a raw graphics pipeline, built step by step.
///
/// A new specification has no shaders, a triangle-list topology and opaque
/// blending.
#[derive(Debug)]
pub struct PipelineSpec<TVertex> {
    vertex_shader: Option<ShaderSource>,
    fragment_shader: Option<ShaderSource>,
    topology: PrimitiveTopology,
    blend_mode: BlendMode,
    _vertex: core::marker::PhantomData<TVertex>,
}

impl<TVertex> PipelineSpec<TVertex> {
    /// The configured vertex shader, if any.
    pub closed spec fn spec_vertex_shader(&self) -> Option<ShaderSource> {
        self.vertex_shader
    }

    /// The configured fragment shader, if any.
    pub closed spec fn spec_fragment_shader(&self) -> Option<ShaderSource> {
        self.fragment_shader
    }

    /// The configured topology.
    pub closed spec fn spec_topology(&self) -> PrimitiveTopology {
        self.topology
    }

    /// The configured blend mode.
    pub closed spec fn spec_blend_mode(&self) -> BlendMode {
        self.blend_mode
    }

    /// A specification with no shaders, triangle lists and opaque blending.
    pub fn new() -> (s: Self)
        ensures
            s.spec_vertex_shader() is None,
            s.spec_fragment_shader() is None,
            s.spec_topology() == PrimitiveTopology::TriangleList,
            s.spec_blend_mode() == BlendMode::Opaque,
    {
        PipelineSpec {
            vertex_shader: None,
            fragment_shader: None,
            topology: PrimitiveTopology::TriangleList,
            blend_mode: BlendMode::Opaque,
            _vertex: core::marker::PhantomData,
        }
    }

    /// Set the vertex shader.
    pub fn vertex_shader(self, source: ShaderSource) -> (s: Self)
        ensures
            s.spec_vertex_shader() == Some(source),
            s.spec_fragment_shader() == self.spec_fragment_shader(),
            s.spec_topology() == self.spec_topology(),
            s.spec_blend_mode() == self.spec_blend_mode(),
    {
        PipelineSpec { vertex_shader: Some(source), ..self }
    }

    /// Set the fragment shader.
    pub fn fragment_shader(self, source: ShaderSource) -> (s: Self)
        ensures
            s.spec_vertex_shader() == self.spec_vertex_shader(),
            s.spec_fragment_shader() == Some(source),
            s.spec_topology() == self.spec_topology(),
            s.spec_blend_mode() == self.spec_blend_mode(),
    {
        PipelineSpec { fragment_shader: Some(source), ..self }
    }

    /// Set the primitive topology.
    pub fn topology(self, topology: PrimitiveTopology) -> (s: Self)
        ensures
            s.spec_vertex_shader() == self.spec_vertex_shader(),
            s.spec_fragment_shader() == self.spec_fragment_shader(),
            s.spec_topology() == topology,
            s.spec_blend_mode() == self.spec_blend_mode(),
    {
        PipelineSpec { topology, ..self }
    }

    /// Set the blend mode.
    pub fn blend_mode(self, blend_mode: BlendMode) -> (s: Self)
        ensures
            s.spec_vertex_shader() == self.spec_vertex_shader(),
            s.spec_fragment_shader() == self.spec_fragment_shader(),
            s.spec_topology() == self.spec_topology(),
            s.spec_blend_mode() == blend_mode,
    {
        PipelineSpec { blend_mode, ..self }
    }

    /// The configured primitive topology.
    pub fn topology_value(&self) -> (t: PrimitiveTopology)
        ensures
            t == self.spec_topology(),
    {
        self.topology
    }

    /// The configured blend mode.
    pub fn blend_mode_value(&self) -> (b: BlendMode)
        ensures
            b == self.spec_blend_mode(),
    {
        self.blend_mode
    }

    /// The two shaders a pipeline needs, vertex then fragment; a missing
    /// vertex shader is reported before a missing fragment shader.
    pub fn into_shaders(self) -> (r: VMNLResult<(ShaderSource, ShaderSource)>)
        ensures
            r is Ok <==> self.spec_vertex_shader() is Some && self.spec_fragment_shader() is Some,
            r matches Ok(p) ==> Some(p.0) == self.spec_vertex_shader() && Some(p.1)
                == self.spec_fragment_shader(),
            self.spec_vertex_shader() is None ==> is_invalid_state(
                r,
                "raw pipeline requires a vertex shader"@,
            ),
            self.spec_vertex_shader() is Some && self.spec_fragment_shader() is None
                ==> is_invalid_state(r, "raw pipeline requires a fragment shader"@),
    {
        let vertex = match self.vertex_shader {
            Some(v) => v,
            None => {
                return Err(invalid_state(String::from_str("raw pipeline requires a vertex shader")));
            },
        };
        let fragment = match self.fragment_shader {
            Some(f) => f,
            None => {
                return Err(invalid_state(String::from_str("raw pipeline requires a fragment shader")));
            },
        };
        Ok((vertex, fragment))
    }
}

impl<TVertex> Clone for PipelineSpec<TVertex> {
    /// A copy with the same shaders, topology and blend mode.
    fn clone(&self) -> (c: Self)
        ensures
            c.spec_topology() == self.spec_topology(),
            c.spec_blend_mode() == self.spec_blend_mode(),
            c.spec_vertex_shader() == self.spec_vertex_shader(),
            c.spec_fragment_shader() == self.spec_fragment_shader(),
    {
        PipelineSpec {
            vertex_shader: self.vertex_shader.clone(),
            fragment_shader: self.fragment_shader.clone(),
            topology: self.topology,
            blend_mode: self.blend_mode,
            _vertex: core::marker::PhantomData,
        }
    }
}

impl<TVertex> Default for PipelineSpec<TVertex> {
    /// No shaders, triangle lists and opaque blending.
    fn default() -> (s: Self)
        ensures
            s.spec_vertex_shader() is None,
            s.spec_fragment_shader() is None,
            s.spec_topology() == PrimitiveTopology::TriangleList,
            s.spec_blend_mode() == BlendMode::Opaque,
    {
        Self::new()
    }
}

/// Builder for raw typed geometry: vertices, optional indices and the
/// preferred buffer placement.
pub struct GeometryBuilder<TVertex> {
    vertices: Vec<TVertex>,
    indices: Option<Vec<u32>>,
    memory_preference: BufferMemoryPreference,
}

/// Raw geometry inputs that can be uploaded: at least one vertex, a vertex
/// count that fits in `u32`, and when indices are given, a non-empty list of
/// indices that all name a vertex.
pub open spec fn valid_geometry_inputs(vertex_count: nat, indices: Option<Seq<u32>>) -> bool {
    &&& vertex_count > 0
    &&& indices matches Some(ix) ==> {
        &&& ix.len() > 0
        &&& vertex_count <= u32::MAX
        &&& forall|i: int| 0 <= i < ix.len() ==> (#[trigger] ix[i]) < vertex_count
    }
}

/// The error text of the first raw geometry input check that fails, in the
/// order `validate_geometry_inputs` runs them; `None` when all pass.
pub open spec fn geometry_inputs_error(vertex_count: nat, indices: Option<Seq<u32>>) -> Option<Seq<char>> {
    if vertex_count == 0 {
        Some("raw geometry requires at least one vertex"@)
    } else {
        match indices {
            None => None,
            Some(ix) => if ix.len() == 0 {
                Some("raw geometry indices cannot be empty"@)
            } else if vertex_count > u32::MAX {
                Some("raw geometry vertex count out of bounds"@)
            } else if !valid_geometry_inputs(vertex_count, indices) {
                Some("raw geometry index out of bounds"@)
            } else {
                None
            },
        }
    }
}

/// Validate raw geometry inputs.
///
/// The checks run in order: a vertex is present, the index list is not
/// empty, the vertex count fits in `u32`, every index is in bounds.
pub fn validate_geometry_inputs(vertex_count: usize, indices: Option<&[u32]>) -> (r: VMNLResult<()>)
    ensures
        r is Ok <==> valid_geometry_inputs(
            vertex_count as nat,
            match indices {
                Some(ix) => Some(ix@),
                None => None,
            },
        ),
        vertex_count == 0 ==> is_invalid_state(r, "raw geometry requires at least one vertex"@),
        vertex_count > 0 && indices is Some && indices.unwrap()@.len() == 0 ==> is_invalid_state(
            r,
            "raw geometry indices cannot be empty"@,
        ),
        vertex_count > 0 && indices is Some && indices.unwrap()@.len() > 0 && vertex_count
            > u32::MAX ==> is_invalid_state(r, "raw geometry vertex count out of bounds"@),
        vertex_count > 0 && indices is Some && indices.unwrap()@.len() > 0 && vertex_count
            <= u32::MAX && !valid_geometry_inputs(vertex_count as nat, Some(indices.unwrap()@))
            ==> is_invalid_state(r, "raw geometry index out of bounds"@),
{
    if vertex_count == 0 {
        return Err(invalid_state(String::from_str("raw geometry requires at least one vertex")));
    }
    match indices {
        None => Ok(()),
        Some(ix) => {
            if ix.len() == 0 {
                return Err(invalid_state(String::from_str("raw geometry indices cannot be empty")));
            }
            if vertex_count as u64 > u32::MAX as u64 {
                return Err(invalid_state(String::from_str("raw geometry vertex count out of bounds")));
            }
            let count = vertex_count as u32;
            let mut i: usize = 0;
            while i < ix.len()
                invariant
                    i <= ix@.len(),
                    count == vertex_count,
                    indices == Some(ix),
                    ix@.len() > 0,
                    0 < vertex_count <= u32::MAX,
                    forall|j: int| 0 <= j < i ==> (#[trigger] ix@[j]) < vertex_count,
                decreases ix@.len() - i,
            {
                if ix[i] >= count {
                    assert(ix@[i as int] >= vertex_count);
                    return Err(invalid_state(String::from_str("raw geometry index out of bounds")));
                }
                i += 1;
            }
            Ok(())
        },
    }
}

impl<TVertex> GeometryBuilder<TVertex> {
    /// The vertices to upload.
    pub closed spec fn spec_vertices(&self) -> Seq<TVertex> {
        self.vertices@
    }

    /// The indices to upload, if any.
    pub closed spec fn spec_indices(&self) -> Option<Seq<u32>> {
        match self.indices {
            Some(ix) => Some(ix@),
            None => None,
        }
    }

    /// The preferred buffer placement.
    pub closed spec fn spec_memory_preference(&self) -> BufferMemoryPreference {
        self.memory_preference
    }

    /// Start a builder from the vertices, with no indices and device memory.
    pub fn new(vertices: Vec<TVertex>) -> (b: Self)
        ensures
            b.spec_vertices() == vertices@,
            b.spec_indices() is None,
            b.spec_memory_preference() == BufferMemoryPreference::Device,
    {
        GeometryBuilder { vertices, indices: None, memory_preference: BufferMemoryPreference::Device }
    }

    /// Set the indices.
    pub fn indices(self, indices: Vec<u32>) -> (b: Self)
        ensures
            b.spec_vertices() == self.spec_vertices(),
            b.spec_indices() == Some(indices@),
            b.spec_memory_preference() == self.spec_memory_preference(),
    {
        GeometryBuilder { indices: Some(indices), ..self }
    }

    /// Set the buffer memory preference.
    pub fn buffer_memory_preference(self, preference: BufferMemoryPreference) -> (b: Self)
        ensures
            b.spec_vertices() == self.spec_vertices(),
            b.spec_indices() == self.spec_indices(),
            b.spec_memory_preference() == preference,
    {
        GeometryBuilder { memory_preference: preference, ..self }
    }

    /// Validate the inputs and return the `(vertex, index)` draw counts; the
    /// index count is `0` without indices.
    pub fn draw_counts(&self) -> (r: VMNLResult<(u32, u32)>)
        ensures
            r is Ok <==> valid_geometry_inputs(self.spec_vertices().len(), self.spec_indices())
                && self.spec_vertices().len() <= u32::MAX && (self.spec_indices() matches Some(ix)
                ==> ix.len() <= u32::MAX),
            r matches Ok(c) ==> c.0 == self.spec_vertices().len() && c.1 == (match self.spec_indices() {
                Some(ix) => ix.len(),
                None => 0,
            }),
            geometry_inputs_error(self.spec_vertices().len(), self.spec_indices()) matches Some(m)
                ==> is_invalid_state(r, m),
            geometry_inputs_error(self.spec_vertices().len(), self.spec_indices()) is None
                && self.spec_vertices().len() > u32::MAX ==> is_invalid_state(
                r,
                "vertex count out of bounds"@,
            ),
            geometry_inputs_error(self.spec_vertices().len(), self.spec_indices()) is None
                && self.spec_vertices().len() <= u32::MAX && (self.spec_indices() matches Some(ix)
                && ix.len() > u32::MAX) ==> is_invalid_state(r, "index count out of bounds"@),
    {
        let index_count: usize = match &self.indices {
            Some(ix) => ix.len(),
            None => 0,
        };
        let checked = match &self.indices {
            Some(ix) => validate_geometry_inputs(self.vertices.len(), Some(ix.as_slice())),
            None => validate_geometry_inputs(self.vertices.len(), None),
        };
        match checked {
            Err(e) => Err(e),
            Ok(()) => checked_draw_counts(self.vertices.len(), index_count),
        }
    }

    /// Take the vertices, indices and placement out of the builder.
    pub fn into_parts(self) -> (p: (Vec<TVertex>, Option<Vec<u32>>, BufferMemoryPreference))
        ensures
            p.0@ == self.spec_vertices(),
            p.1 matches Some(ix) ==> self.spec_indices() == Some(ix@),
            p.1 is None <==> self.spec_indices() is None,
            p.2 == self.spec_memory_preference(),
    {
        (self.vertices, self.indices, self.memory_preference)
    }
}

/// Builder for a typed raw uniform buffer.
pub struct UniformBuilder<TData> {
    data: TData,
    memory_preference: BufferMemoryPreference,
}

impl<TData> UniformBuilder<TData> {
    /// The value to upload.
    pub closed spec fn spec_data(&self) -> TData {
        self.data
    }

    /// The preferred buffer placement.
    pub closed spec fn spec_memory_preference(&self) -> BufferMemoryPreference {
        self.memory_preference
    }

    /// Start a builder from the value, with device memory.
    pub fn new(data: TData) -> (b: Self)
        ensures
            b.spec_data() == data,
            b.spec_memory_preference() == BufferMemoryPreference::Device,
    {
        UniformBuilder { data, memory_preference: BufferMemoryPreference::Device }
    }

    /// Set the buffer memory preference.
    pub fn buffer_memory_preference(self, preference: BufferMemoryPreference) -> (b: Self)
        ensures
            b.spec_data() == self.spec_data(),
            b.spec_memory_preference() == preference,
    {
        UniformBuilder { memory_preference: preference, ..self }
    }

    /// Take the value and placement out of the builder.
    pub fn into_parts(self) -> (p: (TData, BufferMemoryPreference))
        ensures
            p.0 == self.spec_data(),
            p.1 == self.spec_memory_preference(),
    {
        (self.data, self.memory_preference)
    }
}

/// Kind of a shader descriptor binding, as Vulkan names them.
#[derive(Clone, Copy, Debug, PartialEq, Eq, Structural, Hash)]
pub enum DescriptorType {
    /// A sampler.
    Sampler,
    /// An image combined with a sampler.
    CombinedImageSampler,
    /// A sampled image.
    SampledImage,
    /// A storage image.
    StorageImage,
    /// A uniform texel buffer.
    UniformTexelBuffer,
    /// A storage texel buffer.
    StorageTexelBuffer,
    /// A uniform buffer.
    UniformBuffer,
    /// A storage buffer.
    StorageBuffer,
    /// A dynamic uniform buffer.
    UniformBufferDynamic,
    /// A dynamic storage buffer.
    StorageBufferDynamic,
    /// An input attachment.
    InputAttachment,
    /// An inline uniform block.
    InlineUniformBlock,
    /// An acceleration structure.
    AccelerationStructure,
}

/// One binding of a descriptor set layout as declared by a shader.
#[derive(Clone, Copy, Debug, PartialEq, Eq, Structural)]
pub struct RawDescriptorBinding {
    /// Binding number within its set.
    pub binding: u32,
    /// What the binding holds.
    pub descriptor_type: DescriptorType,
    /// Number of array elements.
    pub descriptor_count: u32,
}

/// Raw pipelines accept single uniform buffers only.
pub open spec fn supported_binding(b: RawDescriptorBinding) -> bool {
    b.descriptor_type == DescriptorType::UniformBuffer && b.descriptor_count == 1
}

/// Text of the error for a binding that is not a uniform buffer.
pub open spec fn unsupported_type_message(set: nat, binding: nat) -> Seq<char> {
    "raw pipeline set "@ + decimal(set) + " binding "@ + decimal(binding)
        + " only supports uniform buffers for now"@
}

/// Text of the error for a binding that is an array.
pub open spec fn descriptor_array_message(set: nat, binding: nat) -> Seq<char> {
    "raw pipeline set "@ + decimal(set) + " binding "@ + decimal(binding)
        + " descriptor arrays are not supported yet"@
}

/// Text of the error reported for an unsupported binding: its type is
/// checked before its array size.
pub open spec fn binding_error_message(set: nat, b: RawDescriptorBinding) -> Seq<char> {
    if b.descriptor_type != DescriptorType::UniformBuffer {
        unsupported_type_message(set, b.binding as nat)
    } else {
        descriptor_array_message(set, b.binding as nat)
    }
}

/// Every binding of a set layout is supported.
pub open spec fn supported_set_layout(bindings: Seq<RawDescriptorBinding>) -> bool {
    forall|i: int| 0 <= i < bindings.len() ==> supported_binding(#[trigger] bindings[i])
}

/// `k` is the first unsupported binding of the layout.
pub open spec fn is_first_unsupported(bindings: Seq<RawDescriptorBinding>, k: int) -> bool {
    &&& 0 <= k < bindings.len()
    &&& !supported_binding(bindings[k])
    &&& forall|j: int| 0 <= j < k ==> supported_binding(#[trigger] bindings[j])
}

/// Append `"raw pipeline set {set} binding {binding}"` to `m`.
fn append_set_binding(m: &mut String, set: u32, binding: u32)
    ensures
        final(m)@ == old(m)@ + "raw pipeline set "@ + decimal(set as nat) + " binding "@ + decimal(
            binding as nat,
        ),
{
    m.append("raw pipeline set ");
    append_decimal(m, set as u64);
    m.append(" binding ");
    append_decimal(m, binding as u64);
}

/// Check that a binding holds a uniform buffer.
pub fn validate_raw_descriptor_binding(set: u32, binding: u32, descriptor_type: DescriptorType) -> (r:
    VMNLResult<()>)
    ensures
        r is Ok <==> descriptor_type == DescriptorType::UniformBuffer,
        descriptor_type != DescriptorType::UniformBuffer ==> is_invalid_state(
            r,
            unsupported_type_message(set as nat, binding as nat),
        ),
{
    if descriptor_type != DescriptorType::UniformBuffer {
        let mut m = String::new();
        append_set_binding(&mut m, set, binding);
        m.append(" only supports uniform buffers for now");
        return Err(invalid_state(m));
    }
    Ok(())
}

/// Check one binding: a uniform buffer, then not an array.
fn validate_raw_binding(set: u32, b: RawDescriptorBinding) -> (r: VMNLResult<()>)
    ensures
        r is Ok <==> supported_binding(b),
        !supported_binding(b) ==> is_invalid_state(r, binding_error_message(set as nat, b)),
{
    match validate_raw_descriptor_binding(set, b.binding, b.descriptor_type) {
        Err(e) => Err(e),
        Ok(()) => {
            if b.descriptor_count != 1 {
                let mut m = String::new();
                append_set_binding(&mut m, set, b.binding);
                m.append(" descriptor arrays are not supported yet");
                Err(invalid_state(m))
            } else {
                Ok(())
            }
        },
    }
}

/// Check every binding of a set layout, in binding order; the first
/// unsupported binding gives the error.
pub fn validate_raw_descriptor_set_layout(set: u32, bindings: &[RawDescriptorBinding]) -> (r: VMNLResult<()>)
    ensures
        r is Ok <==> supported_set_layout(bindings@),
        !supported_set_layout(bindings@) ==> exists|k: int|
            #![trigger is_first_unsupported(bindings@, k)]
            is_first_unsupported(bindings@, k) && is_invalid_state(
                r,
                binding_error_message(set as nat, bindings@[k]),
            ),
{
    let mut i: usize = 0;
    while i < bindings.len()
        invariant
            i <= bindings@.len(),
            forall|j: int| 0 <= j < i ==> supported_binding(#[trigger] bindings@[j]),
        decreases bindings@.len() - i,
    {
        let checked = validate_raw_binding(set, bindings[i]);
        if checked.is_err() {
            assert(is_first_unsupported(bindings@, i as int));
            return checked;
        }
        i += 1;
    }
    Ok(())
}

/// `s` is the first set layout with an unsupported binding.
pub open spec fn is_first_unsupported_set(layouts: Seq<Vec<RawDescriptorBinding>>, s: int) -> bool {
    &&& 0 <= s < layouts.len()
    &&& !supported_set_layout(layouts[s]@)
    &&& forall|j: int| 0 <= j < s ==> supported_set_layout((#[trigger] layouts[j])@)
}

/// Every set layout of a pipeline is supported.
pub open spec fn supported_pipeline_layout(layouts: Seq<Vec<RawDescriptorBinding>>) -> bool {
    forall|j: int| 0 <= j < layouts.len() ==> supported_set_layout((#[trigger] layouts[j])@)
}

/// How layout validation answers once push constants are ruled out: the
/// first unsupported set (when its index fits in `u32`) reports its first
/// unsupported binding; a set index beyond `u32` is a validation failure.
pub open spec fn raw_layout_outcome(r: VMNLResult<()>, layouts: Seq<Vec<RawDescriptorBinding>>) -> bool {
    &&& forall|s: int|
        #![trigger is_first_unsupported_set(layouts, s)]
        is_first_unsupported_set(layouts, s) && s <= u32::MAX ==> exists|k: int|
            #![trigger is_first_unsupported(layouts[s]@, k)]
            is_first_unsupported(layouts[s]@, k) && is_invalid_state(
                r,
                binding_error_message(s as nat, layouts[s]@[k]),
            )
    &&& (forall|j: int| 0 <= j < layouts.len() && j <= u32::MAX ==> supported_set_layout((#[trigger] layouts[j])@))
        && layouts.len() > u32::MAX + 1 ==> r == Err::<(), VMNLError>(
        VMNLError { kind: VMNLErrorKind::VulkanValidationFailed },
    )
}

/// Check the descriptor layout a raw pipeline's shaders declare: no push
/// constants, then each set in order, each with only single uniform buffers.
///
/// A set whose index does not fit in `u32` is reported as a Vulkan
/// validation failure.
pub fn validate_raw_pipeline_layout(
    push_constant_range_count: usize,
    set_layouts: &[Vec<RawDescriptorBinding>],
) -> (r: VMNLResult<()>)
    ensures
        r is Ok <==> push_constant_range_count == 0 && supported_pipeline_layout(set_layouts@)
            && set_layouts@.len() <= u32::MAX + 1,
        push_constant_range_count > 0 ==> is_invalid_state(
            r,
            "raw pipeline push constants are not supported yet"@,
        ),
        push_constant_range_count == 0 ==> raw_layout_outcome(r, set_layouts@),
{
    if push_constant_range_count != 0 {
        return Err(invalid_state(String::from_str("raw pipeline push constants are not supported yet")));
    }
    let mut i: usize = 0;
    while i < set_layouts.len()
        invariant
            i <= set_layouts@.len(),
            push_constant_range_count == 0,
            i <= u32::MAX + 1,
            forall|j: int| 0 <= j < i ==> supported_set_layout((#[trigger] set_layouts@[j])@),
        decreases set_layouts@.len() - i,
    {
        if i as u64 > u32::MAX as u64 {
            return Err(VMNLError::new(VMNLErrorKind::VulkanValidationFailed));
        }
        let checked = validate_raw_descriptor_set_layout(i as u32, set_layouts[i].as_slice());
        if checked.is_err() {
            assert(is_first_unsupported_set(set_layouts@, i as int));
            return checked;
        }
        i += 1;
    }
    Ok(())
}

/// Number of descriptor sets a draw must bind: up to and including the last
/// set layout that declares a binding.
pub fn required_descriptor_set_count_from_layouts(set_layouts: &[Vec<RawDescriptorBinding>]) -> (n: usize)
    ensures
        n <= set_layouts@.len(),
        n > 0 ==> set_layouts@[n - 1]@.len() > 0,
        forall|j: int| n <= j < set_layouts@.len() ==> (#[trigger] set_layouts@[j])@.len() == 0,
{
    let mut n: usize = set_layouts.len();
    while n > 0
        invariant
            n <= set_layouts@.len(),
            forall|j: int| n <= j < set_layouts@.len() ==> (#[trigger] set_layouts@[j])@.len() == 0,
        decreases n,
    {
        if set_layouts[n - 1].len() > 0 {
            return n;
        }
        n -= 1;
    }
    0
}

} // verus!
