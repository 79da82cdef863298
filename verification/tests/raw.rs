use vmnl::common::{BufferMemoryPreference, ShaderSource};
use vmnl::error::VMNLErrorKind;
use vmnl::raw::{
    required_descriptor_set_count_from_layouts, validate_geometry_inputs,
    validate_raw_descriptor_binding, validate_raw_pipeline_layout, BlendMode, DescriptorType,
    GeometryBuilder, PipelineSpec, PrimitiveTopology, RawDescriptorBinding, UniformBuilder,
};

#[derive(Clone, Copy)]
struct TestVertex {
    _position: [f32; 2],
}

fn invalid_message<T>(result: vmnl::error::VMNLResult<T>) -> String {
    match result {
        Err(err) => match err.kind() {
            VMNLErrorKind::InvalidState(message) => message.clone(),
            other => panic!("unexpected error kind {other:?}"),
        },
        Ok(_) => panic!("expected an error"),
    }
}

fn uniform_binding(binding: u32, descriptor_type: DescriptorType, descriptor_count: u32) -> RawDescriptorBinding {
    RawDescriptorBinding {
        binding,
        descriptor_type,
        descriptor_count,
    }
}

#[test]
fn pipeline_spec_defaults_are_triangle_list_and_opaque() {
    let spec = PipelineSpec::<TestVertex>::default();

    assert_eq!(spec.topology_value(), PrimitiveTopology::TriangleList);
    assert_eq!(spec.blend_mode_value(), BlendMode::Opaque);
}

#[test]
fn geometry_builder_refuses_empty_vertices() {
    let result = validate_geometry_inputs(0, None);

    assert!(result.is_err());
}

#[test]
fn geometry_builder_refuses_index_out_of_bounds() {
    let result = validate_geometry_inputs(3, Some(&[0, 3]));

    assert!(result.is_err());
}

#[test]
fn geometry_builder_accepts_indexed_and_non_indexed() {
    assert!(validate_geometry_inputs(3, None).is_ok());
    assert!(validate_geometry_inputs(3, Some(&[0, 1, 2])).is_ok());
}

#[test]
fn raw_pipeline_accepts_uniform_descriptor_layouts() {
    let layouts = vec![vec![uniform_binding(0, DescriptorType::UniformBuffer, 1)]];

    assert!(validate_raw_pipeline_layout(0, &layouts).is_ok());
}

#[test]
fn raw_pipeline_refuses_unsupported_descriptor_layouts() {
    let layouts = vec![vec![uniform_binding(0, DescriptorType::CombinedImageSampler, 1)]];

    assert!(validate_raw_pipeline_layout(0, &layouts).is_err());
}

#[test]
fn raw_pipeline_refuses_descriptor_arrays() {
    let layouts = vec![vec![uniform_binding(0, DescriptorType::UniformBuffer, 2)]];

    assert!(validate_raw_pipeline_layout(0, &layouts).is_err());
}

#[test]
fn raw_pipeline_refuses_push_constants() {
    assert!(validate_raw_pipeline_layout(1, &[]).is_err());
}

#[test]
fn raw_geometry_errors_name_the_failed_rule() {
    assert_eq!(
        invalid_message(validate_geometry_inputs(0, Some(&[0]))),
        "raw geometry requires at least one vertex"
    );
    assert_eq!(
        invalid_message(validate_geometry_inputs(3, Some(&[]))),
        "raw geometry indices cannot be empty"
    );
    assert_eq!(
        invalid_message(validate_geometry_inputs(3, Some(&[0, 3]))),
        "raw geometry index out of bounds"
    );
    assert_eq!(
        invalid_message(validate_geometry_inputs((u32::MAX as usize) + 1, Some(&[0]))),
        "raw geometry vertex count out of bounds"
    );
    assert!(validate_geometry_inputs((u32::MAX as usize) + 1, None).is_ok());
}

#[test]
fn raw_pipeline_layout_errors_name_set_and_binding() {
    assert_eq!(
        invalid_message(validate_raw_pipeline_layout(1, &[])),
        "raw pipeline push constants are not supported yet"
    );
    let layouts = vec![
        vec![uniform_binding(0, DescriptorType::UniformBuffer, 1)],
        vec![
            uniform_binding(0, DescriptorType::UniformBuffer, 1),
            uniform_binding(2, DescriptorType::StorageBuffer, 1),
            uniform_binding(3, DescriptorType::UniformBuffer, 4),
        ],
    ];
    assert_eq!(
        invalid_message(validate_raw_pipeline_layout(0, &layouts)),
        "raw pipeline set 1 binding 2 only supports uniform buffers for now"
    );
    let arrays = vec![vec![uniform_binding(5, DescriptorType::UniformBuffer, 3)]];
    assert_eq!(
        invalid_message(validate_raw_pipeline_layout(0, &arrays)),
        "raw pipeline set 0 binding 5 descriptor arrays are not supported yet"
    );
    assert_eq!(
        invalid_message(validate_raw_descriptor_binding(7, 9, DescriptorType::Sampler)),
        "raw pipeline set 7 binding 9 only supports uniform buffers for now"
    );
}

#[test]
fn required_set_count_stops_at_the_last_declared_set() {
    let used = vec![uniform_binding(0, DescriptorType::UniformBuffer, 1)];
    assert_eq!(required_descriptor_set_count_from_layouts(&[]), 0);
    assert_eq!(
        required_descriptor_set_count_from_layouts(&[vec![], used.clone(), vec![], vec![]]),
        2
    );
    assert_eq!(required_descriptor_set_count_from_layouts(&[vec![], vec![]]), 0);
}

#[test]
fn pipeline_spec_setters_and_missing_shaders() {
    let spec = PipelineSpec::<TestVertex>::new()
        .topology(PrimitiveTopology::LineList)
        .blend_mode(BlendMode::Alpha);
    assert_eq!(spec.topology_value(), PrimitiveTopology::LineList);
    assert_eq!(spec.blend_mode_value(), BlendMode::Alpha);
    assert_eq!(
        invalid_message(spec.clone().into_shaders()),
        "raw pipeline requires a vertex shader"
    );
    let with_vertex = spec.vertex_shader(ShaderSource::Src("void main() {}".to_owned()));
    assert_eq!(
        invalid_message(with_vertex.clone().into_shaders()),
        "raw pipeline requires a fragment shader"
    );
    let complete = with_vertex.fragment_shader(ShaderSource::Src("frag".to_owned()));
    let (vertex, fragment) = complete.into_shaders().map_err(|_| ()).unwrap();
    assert_eq!(vertex, ShaderSource::Src("void main() {}".to_owned()));
    assert_eq!(fragment, ShaderSource::Src("frag".to_owned()));
}

#[test]
fn geometry_builder_counts_draws() {
    let vertices = vec![TestVertex { _position: [0.0, 0.0] }; 4];
    let builder = GeometryBuilder::new(vertices.clone());
    assert_eq!(builder.draw_counts().map_err(|_| ()), Ok((4, 0)));
    let indexed = GeometryBuilder::new(vertices)
        .indices(vec![0, 1, 2, 2, 3, 0])
        .buffer_memory_preference(BufferMemoryPreference::Host);
    assert_eq!(indexed.draw_counts().map_err(|_| ()), Ok((4, 6)));
    let (vertices, indices, preference) = indexed.into_parts();
    assert_eq!(vertices.len(), 4);
    assert_eq!(indices, Some(vec![0, 1, 2, 2, 3, 0]));
    assert_eq!(preference, BufferMemoryPreference::Host);
}

#[test]
fn geometry_builder_default_placement_is_device() {
    let (_, indices, preference) = GeometryBuilder::new(vec![1u8]).into_parts();
    assert_eq!(indices, None);
    assert_eq!(preference, BufferMemoryPreference::Device);
}

#[test]
fn uniform_builder_keeps_data_and_placement() {
    let (data, preference) = UniformBuilder::new(7u32)
        .buffer_memory_preference(BufferMemoryPreference::Host)
        .into_parts();
    assert_eq!(data, 7);
    assert_eq!(preference, BufferMemoryPreference::Host);
    let (_, default_preference) = UniformBuilder::new(0u8).into_parts();
    assert_eq!(default_preference, BufferMemoryPreference::Device);
}

#[test]
fn geometry_builder_reports_the_first_failed_check() {
    let none: Vec<TestVertex> = Vec::new();
    assert_eq!(
        invalid_message(GeometryBuilder::new(none).draw_counts()),
        "raw geometry requires at least one vertex"
    );
    let vertices = vec![TestVertex { _position: [0.0, 0.0] }; 3];
    assert_eq!(
        invalid_message(GeometryBuilder::new(vertices.clone()).indices(vec![]).draw_counts()),
        "raw geometry indices cannot be empty"
    );
    assert_eq!(
        invalid_message(GeometryBuilder::new(vertices).indices(vec![0, 1, 3]).draw_counts()),
        "raw geometry index out of bounds"
    );
}

#[test]
fn pipeline_spec_clone_keeps_each_shader_in_place() {
    let spec = PipelineSpec::<TestVertex>::new()
        .vertex_shader(ShaderSource::Path(std::path::PathBuf::from("a.vert")))
        .fragment_shader(ShaderSource::Src("frag".to_owned()))
        .topology(PrimitiveTopology::TriangleStrip);
    let copy = spec.clone();
    assert_eq!(copy.topology_value(), PrimitiveTopology::TriangleStrip);
    let (vertex, fragment) = copy.into_shaders().map_err(|_| ()).unwrap();
    assert_eq!(vertex, ShaderSource::Path(std::path::PathBuf::from("a.vert")));
    assert_eq!(fragment, ShaderSource::Src("frag".to_owned()));
    let (vertex, _) = spec.into_shaders().map_err(|_| ()).unwrap();
    assert_eq!(vertex.clone(), vertex);
}
