use vstd::prelude::*;

use crate::extensions::{deep_view, same_name};

verus! {

/// Vulkan 1.1, in Vulkan's packed form: the lowest version with multiview.
pub const VULKAN_TARGET_VERSION: u32 = (1u32 << 22) | (1u32 << 12);

/// The same version in the runtime's packed form: major, minor and patch at
/// bits 48, 32 and 0.
pub const RUNTIME_VULKAN_TARGET_VERSION: u64 = (1u64 << 48) | (1u64 << 32);

/// Queue capability bit: graphics.
pub const QUEUE_GRAPHICS: u32 = 0x1;

/// Queue capability bit: transfer.
pub const QUEUE_TRANSFER: u32 = 0x4;

/// Why the device cannot run the renderer; startup stops.
#[derive(Clone, Copy, Debug, PartialEq, Eq, Structural)]
pub enum InitError {
    /// The runtime does not accept the Vulkan version the renderer targets.
    RuntimeNeedsOtherVersion,
    /// The physical device's Vulkan version is below the target.
    DeviceVersionTooOld,
    /// The device lacks the required extension at this index.
    MissingDeviceExtension { index: usize },
    /// No queue family does graphics, transfer and present together.
    NoSuitableQueueFamily,
}

/// What a queue family offers.
#[derive(Clone, Copy, Debug, PartialEq, Eq, Structural)]
pub struct QueueFamily {
    pub queue_flags: u32,
    pub supports_present: bool,
}

pub open spec fn is_suitable_family(f: QueueFamily) -> bool {
    &&& f.queue_flags & QUEUE_GRAPHICS == QUEUE_GRAPHICS
    &&& f.queue_flags & QUEUE_TRANSFER == QUEUE_TRANSFER
    &&& f.supports_present
}

/// Whether the runtime's range of Vulkan versions holds the target.
pub fn check_graphics_requirements(min_supported: u64, max_supported: u64) -> (r: Result<(), InitError>)
    ensures
        r is Ok <==> min_supported <= RUNTIME_VULKAN_TARGET_VERSION <= max_supported,
        r is Err ==> r == Err::<(), InitError>(InitError::RuntimeNeedsOtherVersion),
{
    if min_supported > RUNTIME_VULKAN_TARGET_VERSION || max_supported < RUNTIME_VULKAN_TARGET_VERSION {
        Err(InitError::RuntimeNeedsOtherVersion)
    } else {
        Ok(())
    }
}

/// Whether the physical device offers at least the target Vulkan version.
pub fn check_device_version(api_version: u32) -> (r: Result<(), InitError>)
    ensures
        r is Ok <==> api_version >= VULKAN_TARGET_VERSION,
        r is Err ==> r == Err::<(), InitError>(InitError::DeviceVersionTooOld),
{
    if api_version < VULKAN_TARGET_VERSION {
        Err(InitError::DeviceVersionTooOld)
    } else {
        Ok(())
    }
}

fn contains_name(names: &Vec<Vec<u8>>, name: &Vec<u8>) -> (r: bool)
    ensures
        r == deep_view(names@).contains(name@),
{
    let mut i: usize = 0;
    while i < names.len()
        invariant
            i <= names@.len(),
            forall|k: int| 0 <= k < i ==> #[trigger] names@[k]@ != name@,
        decreases names@.len() - i,
    {
        if same_name(&names[i], name) {
            proof {
                assert(deep_view(names@)[i as int] == name@);
            }
            return true;
        }
        i += 1;
    }
    proof {
        if deep_view(names@).contains(name@) {
            let k = choose|k: int| 0 <= k < deep_view(names@).len() && deep_view(names@)[k] == name@;
            assert(names@[k]@ == name@);
        }
    }
    false
}

/// Checks that the device offers every required extension; the error names
/// the first one it lacks.
pub fn check_device_extensions(required: &Vec<Vec<u8>>, available: &Vec<Vec<u8>>) -> (r: Result<(), InitError>)
    ensures
        match r {
            Ok(()) => forall|j: int|
                0 <= j < required@.len() ==> deep_view(available@).contains(#[trigger] required@[j]@),
            Err(e) => exists|i: int|
                0 <= i < required@.len() && e == (InitError::MissingDeviceExtension { index: i as usize })
                    && !deep_view(available@).contains(required@[i]@)
                    && forall|j: int| 0 <= j < i ==> deep_view(available@).contains(#[trigger] required@[j]@),
        },
{
    let mut i: usize = 0;
    while i < required.len()
        invariant
            i <= required@.len(),
            forall|j: int| 0 <= j < i ==> deep_view(available@).contains(#[trigger] required@[j]@),
        decreases required@.len() - i,
    {
        if !contains_name(available, &required[i]) {
            return Err(InitError::MissingDeviceExtension { index: i });
        }
        i += 1;
    }
    Ok(())
}

/// The first queue family that does graphics, transfer and present: one
/// queue serves all three.
pub fn select_queue_family(families: &Vec<QueueFamily>) -> (r: Result<u32, InitError>)
    requires
        families@.len() <= u32::MAX,
    ensures
        match r {
            Ok(i) => i < families@.len() && is_suitable_family(families@[i as int])
                && forall|j: int| 0 <= j < i ==> !is_suitable_family(#[trigger] families@[j]),
            Err(e) => e == InitError::NoSuitableQueueFamily && forall|j: int|
                0 <= j < families@.len() ==> !is_suitable_family(#[trigger] families@[j]),
        },
{
    let mut i: usize = 0;
    while i < families.len()
        invariant
            i <= families@.len() <= u32::MAX,
            forall|j: int| 0 <= j < i ==> !is_suitable_family(#[trigger] families@[j]),
        decreases families@.len() - i,
    {
        let f = families[i];
        if f.queue_flags & QUEUE_GRAPHICS == QUEUE_GRAPHICS && f.queue_flags & QUEUE_TRANSFER == QUEUE_TRANSFER
            && f.supports_present
        {
            return Ok(i as u32);
        }
        i += 1;
    }
    Err(InitError::NoSuitableQueueFamily)
}

} // verus!
