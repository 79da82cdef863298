use vmnl::error::VMNLErrorKind;
use vmnl::raw::{DescriptorType, RawDescriptorBinding};
use vmnl::resources::{descriptor_writes_for_set, validate_supplied_resource_bindings, ResourceTable};

fn invalid_message<T>(result: vmnl::error::VMNLResult<T>) -> String {
    match result {
        Err(err) => match err.kind() {
            VMNLErrorKind::InvalidState(message) => message.clone(),
            other => panic!("unexpected error kind {other:?}"),
        },
        Ok(_) => panic!("expected an error"),
    }
}

fn uniform(binding: u32) -> RawDescriptorBinding {
    RawDescriptorBinding {
        binding,
        descriptor_type: DescriptorType::UniformBuffer,
        descriptor_count: 1,
    }
}

#[test]
fn table_keeps_entries_in_key_order() {
    let table = ResourceTable::new()
        .uniform(1, 0, "c")
        .uniform(0, 2, "b")
        .uniform(0, 1, "a");
    let keys: Vec<(u32, u32)> = table.entries().iter().map(|e| (e.0, e.1)).collect();
    assert_eq!(keys, vec![(0, 1), (0, 2), (1, 0)]);
    assert_eq!(table.duplicate(), None);
}

#[test]
fn table_remembers_the_first_duplicate_and_keeps_the_last_value() {
    let table = ResourceTable::new()
        .uniform(0, 0, "first")
        .uniform(0, 0, "second")
        .uniform(1, 1, "x")
        .uniform(1, 1, "y");
    assert_eq!(table.entries(), vec![(0, 0, &"second"), (1, 1, &"y")]);
    assert_eq!(table.duplicate(), Some((0, 0)));
    assert_eq!(
        invalid_message(table.build(&[vec![uniform(0)], vec![uniform(1)]], &[true, true])),
        "raw resources duplicate binding set 0 binding 0"
    );
}

#[test]
fn build_lists_the_writes_of_each_required_set() {
    let table = ResourceTable::new()
        .uniform(0, 0, "camera")
        .uniform(2, 3, "lights")
        .uniform(2, 1, "model");
    let layouts = vec![vec![uniform(0)], vec![], vec![uniform(1), uniform(3)], vec![]];
    let writes = table.build(&layouts, &[true, true, true]).map_err(|_| ()).unwrap();
    assert_eq!(writes, vec![vec![0], vec![], vec![1, 2]]);
}

#[test]
fn build_refuses_undeclared_sets_and_bindings() {
    let layouts = vec![vec![uniform(0)]];
    let unknown_set = ResourceTable::new().uniform(0, 0, 1u8).uniform(4, 0, 2u8);
    assert_eq!(
        invalid_message(unknown_set.build(&layouts, &[true, true])),
        "raw resources set 4 is not declared by the pipeline"
    );
    let unknown_binding = ResourceTable::new().uniform(0, 0, 1u8).uniform(0, 7, 2u8);
    assert_eq!(
        invalid_message(unknown_binding.build(&layouts, &[true, true])),
        "raw resources set 0 binding 7 is not declared by the pipeline"
    );
    assert_eq!(
        invalid_message(validate_supplied_resource_bindings(&layouts, &vec![(0, 7, 'v')])),
        "raw resources set 0 binding 7 is not declared by the pipeline"
    );
}

#[test]
fn build_reports_missing_foreign_and_unsupported_bindings() {
    let table = ResourceTable::new().uniform(0, 0, 'a');
    assert_eq!(
        invalid_message(table.build(&[vec![uniform(0), uniform(1)]], &[true])),
        "raw resources missing set 0 binding 1"
    );
    assert_eq!(
        invalid_message(table.build(&[vec![uniform(0)]], &[false])),
        "raw resources set 0 binding 0 must belong to this context"
    );
    let sampler = RawDescriptorBinding {
        binding: 0,
        descriptor_type: DescriptorType::Sampler,
        descriptor_count: 1,
    };
    assert_eq!(
        invalid_message(table.build(&[vec![sampler]], &[true])),
        "raw pipeline set 0 binding 0 only supports uniform buffers for now"
    );
    let array = RawDescriptorBinding {
        binding: 0,
        descriptor_type: DescriptorType::UniformBuffer,
        descriptor_count: 2,
    };
    assert_eq!(
        invalid_message(table.build(&[vec![array]], &[true])),
        "raw resources set 0 binding 0 descriptor arrays are not supported yet"
    );
}

#[test]
fn set_writes_follow_the_layout_order() {
    let entries = vec![(1u32, 0u32, 'a'), (1, 4, 'b'), (1, 9, 'c')];
    let writes = descriptor_writes_for_set(&entries, &[true, true, true], 1, &vec![uniform(9), uniform(0)])
        .map_err(|_| ())
        .unwrap();
    assert_eq!(writes, vec![2, 0]);
}

#[test]
fn table_replaces_a_value_supplied_again_in_place() {
    let table = ResourceTable::new()
        .uniform(3, 1, 'a')
        .uniform(0, 4, 'b')
        .uniform(3, 0, 'c')
        .uniform(3, 1, 'd');
    assert_eq!(table.entries(), vec![(0, 4, &'b'), (3, 0, &'c'), (3, 1, &'d')]);
    assert_eq!(table.duplicate(), Some((3, 1)));
    let fresh: ResourceTable<u8> = ResourceTable::new();
    assert!(fresh.entries().is_empty());
    assert_eq!(fresh.duplicate(), None);
}
