use vrv::device::{
    check_device_extensions, check_device_version, check_graphics_requirements, select_queue_family,
    InitError, QueueFamily, QUEUE_GRAPHICS, QUEUE_TRANSFER, RUNTIME_VULKAN_TARGET_VERSION,
    VULKAN_TARGET_VERSION,
};
use vrv::extensions::same_name;

#[test]
fn target_versions() {
    assert_eq!(VULKAN_TARGET_VERSION, 4198400);
    assert_eq!(RUNTIME_VULKAN_TARGET_VERSION, (1u64 << 48) | (1u64 << 32));
}

#[test]
fn runtime_version_window() {
    let v1_0 = 1u64 << 48;
    let v1_2 = (1u64 << 48) | (2u64 << 32);
    assert_eq!(check_graphics_requirements(v1_0, v1_2), Ok(()));
    assert_eq!(check_graphics_requirements(RUNTIME_VULKAN_TARGET_VERSION, RUNTIME_VULKAN_TARGET_VERSION), Ok(()));
    assert_eq!(check_graphics_requirements(v1_2, v1_2), Err(InitError::RuntimeNeedsOtherVersion));
    assert_eq!(check_graphics_requirements(v1_0, v1_0), Err(InitError::RuntimeNeedsOtherVersion));
}

#[test]
fn device_version() {
    assert_eq!(check_device_version((1 << 22) | (3 << 12) | 250), Ok(()));
    assert_eq!(check_device_version(VULKAN_TARGET_VERSION), Ok(()));
    assert_eq!(check_device_version(1 << 22), Err(InitError::DeviceVersionTooOld));
}

fn names(v: &[&str]) -> Vec<Vec<u8>> {
    v.iter().map(|s| s.as_bytes().to_vec()).collect()
}

#[test]
fn device_extension_support() {
    let available = names(&["VK_KHR_swapchain", "VK_KHR_multiview"]);
    assert_eq!(check_device_extensions(&names(&["VK_KHR_swapchain"]), &available), Ok(()));
    assert_eq!(check_device_extensions(&names(&[]), &names(&[])), Ok(()));
    assert_eq!(
        check_device_extensions(&names(&["VK_KHR_swapchain", "VK_KHR_swap", "VK_X"]), &available),
        Err(InitError::MissingDeviceExtension { index: 1 })
    );
}

#[test]
fn queue_family_choice() {
    let fam = |queue_flags: u32, supports_present: bool| QueueFamily { queue_flags, supports_present };
    let all = QUEUE_GRAPHICS | QUEUE_TRANSFER;
    assert_eq!(select_queue_family(&vec![fam(QUEUE_GRAPHICS, true), fam(all | 2, false), fam(all, true)]), Ok(2));
    assert_eq!(select_queue_family(&vec![fam(all | 2, true)]), Ok(0));
    assert_eq!(
        select_queue_family(&vec![fam(QUEUE_TRANSFER, true), fam(all, false)]),
        Err(InitError::NoSuitableQueueFamily)
    );
    assert_eq!(select_queue_family(&vec![]), Err(InitError::NoSuitableQueueFamily));
}

#[test]
fn name_comparison() {
    assert!(same_name(&b"abc".to_vec(), &b"abc".to_vec()));
    assert!(!same_name(&b"abc".to_vec(), &b"abd".to_vec()));
    assert!(!same_name(&b"abc".to_vec(), &b"ab".to_vec()));
}
