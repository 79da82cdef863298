//! Choice of the Vulkan physical device and of its graphics queue family,
//! over the properties the driver reports.
use vstd::prelude::*;
use crate::error::{VMNLError, VMNLErrorKind, VMNLResult};

verus! {

/// Kind of a physical device, as Vulkan reports it.
#[derive(Debug, Clone, Copy, PartialEq, Eq, Structural, Hash)]
pub enum PhysicalDeviceType {
    /// A separate GPU.
    DiscreteGpu,
    /// A GPU built into the CPU package.
    IntegratedGpu,
    /// A GPU exposed by a virtual machine.
    VirtualGpu,
    /// A software implementation on the CPU.
    Cpu,
    /// Anything else.
    Other,
}

/// Preference of a device kind: discrete, integrated, virtual, CPU, other.
pub open spec fn spec_priority(device_type: PhysicalDeviceType) -> u32 {
    match device_type {
        PhysicalDeviceType::DiscreteGpu => 1000,
        PhysicalDeviceType::IntegratedGpu => 100,
        PhysicalDeviceType::VirtualGpu => 50,
        PhysicalDeviceType::Cpu => 10,
        PhysicalDeviceType::Other => 0,
    }
}

/// Selection priority of a device kind; higher is preferred.
pub fn physical_device_priority(device_type: PhysicalDeviceType) -> (p: u32)
    ensures
        p == spec_priority(device_type),
{
    match device_type {
        PhysicalDeviceType::DiscreteGpu => 1000,
        PhysicalDeviceType::IntegratedGpu => 100,
        PhysicalDeviceType::VirtualGpu => 50,
        PhysicalDeviceType::Cpu => 10,
        PhysicalDeviceType::Other => 0,
    }
}

/// The Vulkan queue flag bit of graphics support.
pub const QUEUE_GRAPHICS_BIT: u32 = 1;

/// The raw queue flags include graphics support.
pub open spec fn has_graphics(flags: u32) -> bool {
    flags & 1 != 0
}

/// `k` is the first queue family with graphics support.
pub open spec fn is_first_graphics_family(flags: Seq<u32>, k: int) -> bool {
    &&& 0 <= k < flags.len()
    &&& has_graphics(flags[k])
    &&& forall|j: int| 0 <= j < k ==> !has_graphics(#[trigger] flags[j])
}

/// Index of the first queue family with graphics support, given each family's
/// raw Vulkan queue flags.
///
/// Fails with `VulkanUnsupportedFeature` when no family supports graphics or
/// the index does not fit in `u32`.
pub fn select_graphics_queue_family_index_from_flags(queue_flags: &[u32]) -> (r: VMNLResult<u32>)
    ensures
        r matches Ok(i) ==> is_first_graphics_family(queue_flags@, i as int),
        r is Err ==> r == Err::<u32, VMNLError>(VMNLError { kind: VMNLErrorKind::VulkanUnsupportedFeature }),
        r is Err <==> forall|k: int|
            #![trigger queue_flags@[k]]
            0 <= k < queue_flags@.len() && k <= u32::MAX ==> !has_graphics(queue_flags@[k]),
{
    let mut i: usize = 0;
    while i < queue_flags.len()
        invariant
            i <= queue_flags@.len(),
            forall|j: int| 0 <= j < i ==> !has_graphics(#[trigger] queue_flags@[j]),
        decreases queue_flags@.len() - i,
    {
        if queue_flags[i] & QUEUE_GRAPHICS_BIT != 0 {
            if i as u64 > u32::MAX as u64 {
                return Err(VMNLError::new(VMNLErrorKind::VulkanUnsupportedFeature));
            }
            assert(is_first_graphics_family(queue_flags@, i as int));
            return Ok(i as u32);
        }
        i += 1;
    }
    Err(VMNLError::new(VMNLErrorKind::VulkanUnsupportedFeature))
}

/// What the driver reports of a physical device that selection reads.
#[derive(Debug, Clone)]
pub struct DeviceCandidate {
    /// Whether the device supports every required extension.
    pub supports_required_extensions: bool,
    /// Raw Vulkan queue flags of each queue family.
    pub queue_family_flags: Vec<u32>,
    /// Kind of the device.
    pub device_type: PhysicalDeviceType,
}

/// A device can be used: it has the extensions and a graphics queue family.
pub open spec fn eligible(c: DeviceCandidate) -> bool {
    c.supports_required_extensions && exists|k: int|
        0 <= k < c.queue_family_flags@.len() && has_graphics(#[trigger] c.queue_family_flags@[k])
}

/// `i` is the device selection picks: eligible, of the highest priority among
/// eligible devices, and the last of those.
pub open spec fn is_selected_device(candidates: Seq<DeviceCandidate>, i: int) -> bool {
    &&& 0 <= i < candidates.len()
    &&& eligible(candidates[i])
    &&& forall|j: int|
        0 <= j < candidates.len() && eligible(#[trigger] candidates[j]) ==> spec_priority(
            candidates[j].device_type,
        ) <= spec_priority(candidates[i].device_type)
    &&& forall|j: int|
        i < j < candidates.len() && eligible(#[trigger] candidates[j]) ==> spec_priority(
            candidates[j].device_type,
        ) < spec_priority(candidates[i].device_type)
}

/// Whether some queue family supports graphics.
fn any_graphics_family(flags: &Vec<u32>) -> (b: bool)
    ensures
        b <==> exists|k: int| 0 <= k < flags@.len() && has_graphics(#[trigger] flags@[k]),
{
    let mut i: usize = 0;
    while i < flags.len()
        invariant
            i <= flags@.len(),
            forall|j: int| 0 <= j < i ==> !has_graphics(#[trigger] flags@[j]),
        decreases flags@.len() - i,
    {
        if flags[i] & QUEUE_GRAPHICS_BIT != 0 {
            return true;
        }
        i += 1;
    }
    false
}

/// Pick the device to use: among those with the required extensions and a
/// graphics queue family, the last one of the highest kind priority.
///
/// Fails with `VulkanUnsupportedFeature` when no device is eligible.
pub fn select_physical_device_index(candidates: &[DeviceCandidate]) -> (r: VMNLResult<usize>)
    ensures
        r matches Ok(i) ==> is_selected_device(candidates@, i as int),
        r is Err <==> forall|j: int| 0 <= j < candidates@.len() ==> !eligible(#[trigger] candidates@[j]),
        r is Err ==> r == Err::<usize, VMNLError>(VMNLError { kind: VMNLErrorKind::VulkanUnsupportedFeature }),
{
    let mut best: Option<usize> = None;
    let mut i: usize = 0;
    while i < candidates.len()
        invariant
            i <= candidates@.len(),
            best matches Some(b) ==> b < i && is_selected_device(candidates@.subrange(0, i as int), b as int),
            best is None ==> forall|j: int| 0 <= j < i ==> !eligible(#[trigger] candidates@[j]),
        decreases candidates@.len() - i,
    {
        let c = &candidates[i];
        let ok = c.supports_required_extensions && any_graphics_family(&c.queue_family_flags);
        let ghost prefix = candidates@.subrange(0, i as int + 1);
        assert(prefix[i as int] == candidates@[i as int]);
        if ok {
            match best {
                None => {
                    best = Some(i);
                    assert(is_selected_device(prefix, i as int));
                },
                Some(b) => {
                    let pb = physical_device_priority(candidates[b].device_type);
                    let pc = physical_device_priority(c.device_type);
                    assert(candidates@.subrange(0, i as int)[b as int] == candidates@[b as int]);
                    if pc >= pb {
                        best = Some(i);
                        assert forall|j: int|
                            0 <= j < prefix.len() && eligible(#[trigger] prefix[j]) implies spec_priority(
                            prefix[j].device_type,
                        ) <= spec_priority(prefix[i as int].device_type) by {
                            if j < i {
                                assert(prefix[j] == candidates@.subrange(0, i as int)[j]);
                            }
                        }
                        assert(is_selected_device(prefix, i as int));
                    } else {
                        assert forall|j: int|
                            0 <= j < prefix.len() && eligible(#[trigger] prefix[j]) implies spec_priority(
                            prefix[j].device_type,
                        ) <= spec_priority(prefix[b as int].device_type) by {
                            if j < i {
                                assert(prefix[j] == candidates@.subrange(0, i as int)[j]);
                            }
                        }
                        assert forall|j: int|
                            b < j < prefix.len() && eligible(#[trigger] prefix[j]) implies spec_priority(
                            prefix[j].device_type,
                        ) < spec_priority(prefix[b as int].device_type) by {
                            if j < i {
                                assert(prefix[j] == candidates@.subrange(0, i as int)[j]);
                            }
                        }
                        assert(is_selected_device(prefix, b as int));
                    }
                },
            }
        } else {
            match best {
                None => {},
                Some(b) => {
                    assert forall|j: int|
                        0 <= j < prefix.len() && eligible(#[trigger] prefix[j]) implies spec_priority(
                        prefix[j].device_type,
                    ) <= spec_priority(prefix[b as int].device_type) by {
                        if j < i {
                            assert(prefix[j] == candidates@.subrange(0, i as int)[j]);
                        }
                    }
                    assert forall|j: int|
                        b < j < prefix.len() && eligible(#[trigger] prefix[j]) implies spec_priority(
                        prefix[j].device_type,
                    ) < spec_priority(prefix[b as int].device_type) by {
                        if j < i {
                            assert(prefix[j] == candidates@.subrange(0, i as int)[j]);
                        }
                    }
                    assert(prefix[b as int] == candidates@[b as int]);
                    assert(is_selected_device(prefix, b as int));
                },
            }
        }
        i += 1;
    }
    assert(candidates@.subrange(0, candidates@.len() as int) =~= candidates@);
    match best {
        Some(b) => Ok(b),
        None => Err(VMNLError::new(VMNLErrorKind::VulkanUnsupportedFeature)),
    }
}

} // verus!
