use vmnl::device::{
    physical_device_priority, select_graphics_queue_family_index_from_flags,
    select_physical_device_index, DeviceCandidate, PhysicalDeviceType, QUEUE_GRAPHICS_BIT,
};
use vmnl::error::{VMNLError, VMNLErrorKind};

const NO_FLAGS: u32 = 0;
const GRAPHICS: u32 = QUEUE_GRAPHICS_BIT;
const COMPUTE: u32 = 2;

fn candidate(extensions: bool, flags: Vec<u32>, device_type: PhysicalDeviceType) -> DeviceCandidate {
    DeviceCandidate {
        supports_required_extensions: extensions,
        queue_family_flags: flags,
        device_type,
    }
}

#[test]
fn queue_family_index_returns_first_graphics_family() {
    let index: u32 = select_graphics_queue_family_index_from_flags(&[NO_FLAGS, GRAPHICS, GRAPHICS])
        .map_err(|_| ())
        .expect("expected a graphics queue family");

    assert_eq!(index, 1);
}

#[test]
fn queue_family_index_returns_unsupported_feature_when_no_graphics_family() {
    let err: VMNLError = select_graphics_queue_family_index_from_flags(&[NO_FLAGS, NO_FLAGS])
        .expect_err("expected VulkanUnsupportedFeature");

    assert!(matches!(err.kind(), VMNLErrorKind::VulkanUnsupportedFeature));
}

#[test]
fn physical_device_priority_order_is_correct() {
    assert!(
        physical_device_priority(PhysicalDeviceType::DiscreteGpu)
            > physical_device_priority(PhysicalDeviceType::IntegratedGpu)
    );
    assert!(
        physical_device_priority(PhysicalDeviceType::IntegratedGpu)
            > physical_device_priority(PhysicalDeviceType::VirtualGpu)
    );
    assert!(
        physical_device_priority(PhysicalDeviceType::VirtualGpu)
            > physical_device_priority(PhysicalDeviceType::Cpu)
    );
}

#[test]
fn queue_family_index_returns_zero_when_first_is_graphics() {
    let index: u32 = select_graphics_queue_family_index_from_flags(&[GRAPHICS, NO_FLAGS])
        .map_err(|_| ())
        .expect("expected graphics queue at index 0");

    assert_eq!(index, 0);
}

#[test]
fn queue_family_index_returns_first_match_when_multiple_graphics_families() {
    let index: u32 =
        select_graphics_queue_family_index_from_flags(&[NO_FLAGS, GRAPHICS, GRAPHICS, NO_FLAGS])
            .map_err(|_| ())
            .expect("expected first graphics queue index");

    assert_eq!(index, 1);
}

#[test]
fn queue_family_index_returns_error_for_empty_iterator() {
    let err: VMNLError = select_graphics_queue_family_index_from_flags(&[])
        .expect_err("expected error for empty queue family list");

    assert!(matches!(err.kind(), VMNLErrorKind::VulkanUnsupportedFeature));
}

#[test]
fn physical_device_priority_values_are_stable() {
    assert_eq!(physical_device_priority(PhysicalDeviceType::DiscreteGpu), 1000);
    assert_eq!(physical_device_priority(PhysicalDeviceType::IntegratedGpu), 100);
    assert_eq!(physical_device_priority(PhysicalDeviceType::VirtualGpu), 50);
    assert_eq!(physical_device_priority(PhysicalDeviceType::Cpu), 10);
}

#[test]
fn queue_family_index_accepts_combined_graphics_flags() {
    let index = select_graphics_queue_family_index_from_flags(&[COMPUTE, GRAPHICS | COMPUTE])
        .map_err(|_| ())
        .expect("expected combined graphics queue flags");

    assert_eq!(index, 1);
}

#[test]
fn physical_device_priority_other_is_lowest() {
    assert_eq!(physical_device_priority(PhysicalDeviceType::Other), 0);
}

#[test]
fn device_selection_prefers_the_highest_eligible_kind() {
    let candidates = vec![
        candidate(true, vec![GRAPHICS], PhysicalDeviceType::IntegratedGpu),
        candidate(false, vec![GRAPHICS], PhysicalDeviceType::DiscreteGpu),
        candidate(true, vec![COMPUTE], PhysicalDeviceType::DiscreteGpu),
        candidate(true, vec![COMPUTE, GRAPHICS], PhysicalDeviceType::Cpu),
    ];
    assert_eq!(select_physical_device_index(&candidates).map_err(|_| ()), Ok(0));
}

#[test]
fn device_selection_takes_the_last_of_equal_kinds() {
    let candidates = vec![
        candidate(true, vec![GRAPHICS], PhysicalDeviceType::DiscreteGpu),
        candidate(true, vec![GRAPHICS], PhysicalDeviceType::DiscreteGpu),
        candidate(true, vec![GRAPHICS], PhysicalDeviceType::VirtualGpu),
    ];
    assert_eq!(select_physical_device_index(&candidates).map_err(|_| ()), Ok(1));
}

#[test]
fn device_selection_fails_without_an_eligible_device() {
    let candidates = vec![
        candidate(false, vec![GRAPHICS], PhysicalDeviceType::DiscreteGpu),
        candidate(true, vec![COMPUTE], PhysicalDeviceType::DiscreteGpu),
    ];
    let err = select_physical_device_index(&candidates).expect_err("no eligible device");
    assert!(matches!(err.kind(), VMNLErrorKind::VulkanUnsupportedFeature));
}
