use vrv::extensions::{get_device_extensions, get_instance_extensions, split_extension_names};
use vrv::surface::{
    clamp_u32, color_format_candidates, depth_stencil_format_candidates, find_memory_type_index,
    find_supported_format, select_present_mode, select_surface_format, Detail, Extent,
    FormatProperties, SurfaceCapabilities, SurfaceError, SurfaceFormat, COLOR_SPACE_SRGB_NONLINEAR,
    EXTENT_UNDEFINED, FEATURE_COLOR_ATTACHMENT, FEATURE_DEPTH_STENCIL_ATTACHMENT,
    FORMAT_B8G8R8A8_UNORM, FORMAT_D24_UNORM_S8_UINT, FORMAT_D32_SFLOAT, FORMAT_D32_SFLOAT_S8_UINT,
    FORMAT_R8G8B8A8_UNORM, PRESENT_MODE_IMMEDIATE, TILING_LINEAR, TILING_OPTIMAL,
};

fn caps(current: Extent, max_image_count: u32) -> SurfaceCapabilities {
    SurfaceCapabilities {
        min_image_count: 1,
        max_image_count,
        current_extent: current,
        min_image_extent: Extent { width: 100, height: 50 },
        max_image_extent: Extent { width: 1920, height: 1080 },
    }
}

const FREE: Extent = Extent { width: EXTENT_UNDEFINED, height: EXTENT_UNDEFINED };

#[test]
fn allowed_extent_clamps_when_free() {
    let c = caps(FREE, 0);
    assert_eq!(c.get_allowed_extend(Extent { width: 800, height: 600 }), Extent { width: 800, height: 600 });
    assert_eq!(c.get_allowed_extend(Extent { width: 4000, height: 10 }), Extent { width: 1920, height: 50 });
    assert_eq!(c.get_allowed_extend(Extent { width: 0, height: 5000 }), Extent { width: 100, height: 1080 });
}

#[test]
fn allowed_extent_follows_fixed_surface() {
    let fixed = Extent { width: 1280, height: 720 };
    let c = caps(fixed, 0);
    assert_eq!(c.get_allowed_extend(Extent { width: 800, height: 600 }), fixed);
}

#[test]
fn clamp_prefers_minimum() {
    assert_eq!(clamp_u32(5, 3, 4), 5);
    assert_eq!(clamp_u32(1, 10, 11), 10);
    assert_eq!(clamp_u32(1, 10, 7), 7);
}

#[test]
fn window_image_count() {
    assert_eq!(caps(FREE, 0).get_image_count(), 3);
    assert_eq!(caps(FREE, 2).get_image_count(), 2);
    assert_eq!(caps(FREE, 3).get_image_count(), 3);
    assert_eq!(caps(FREE, 8).get_image_count(), 3);
}

fn fmt(format: i32, color_space: i32) -> SurfaceFormat {
    SurfaceFormat { format, color_space }
}

#[test]
fn surface_format_choice() {
    let formats = vec![fmt(50, 0), fmt(FORMAT_B8G8R8A8_UNORM, 1), fmt(FORMAT_R8G8B8A8_UNORM, 0), fmt(44, 0)];
    assert_eq!(select_surface_format(&formats), Some(fmt(FORMAT_R8G8B8A8_UNORM, COLOR_SPACE_SRGB_NONLINEAR)));
    assert_eq!(select_surface_format(&vec![fmt(50, 0)]), None);
    assert_eq!(select_surface_format(&vec![]), None);
}

#[test]
fn present_mode_choice() {
    assert_eq!(select_present_mode(&vec![2, PRESENT_MODE_IMMEDIATE]), Ok(PRESENT_MODE_IMMEDIATE));
    assert_eq!(select_present_mode(&vec![1, 2, 3]), Err(SurfaceError::NoSuitablePresentMode));
}

#[test]
fn surface_detail() {
    let good = vec![fmt(44, 0)];
    assert!(matches!(Detail::new(caps(FREE, 0), &vec![], vec![0]), Err(SurfaceError::Incompatible)));
    assert!(matches!(Detail::new(caps(FREE, 0), &good, vec![]), Err(SurfaceError::Incompatible)));
    assert!(matches!(
        Detail::new(caps(FREE, 0), &vec![fmt(43, 0)], vec![0]),
        Err(SurfaceError::NoSuitableFormat)
    ));
    let d = Detail::new(caps(FREE, 2), &good, vec![2, 0]).unwrap();
    assert_eq!(d.format, fmt(44, 0));
    assert_eq!(d.image_count, 2);
    assert_eq!(d.present_modes, vec![2, 0]);
    assert_eq!(d.capabilities, caps(FREE, 2));
}

#[test]
fn supported_format_search() {
    let candidates = depth_stencil_format_candidates();
    assert_eq!(candidates, vec![FORMAT_D32_SFLOAT, FORMAT_D32_SFLOAT_S8_UINT, FORMAT_D24_UNORM_S8_UINT]);
    let props = vec![
        FormatProperties { linear_tiling_features: FEATURE_DEPTH_STENCIL_ATTACHMENT, optimal_tiling_features: 0 },
        FormatProperties { linear_tiling_features: 0, optimal_tiling_features: 0x201 },
        FormatProperties { linear_tiling_features: 0, optimal_tiling_features: 0x200 },
    ];
    assert_eq!(
        find_supported_format(&candidates, &props, TILING_OPTIMAL, FEATURE_DEPTH_STENCIL_ATTACHMENT),
        Some(FORMAT_D32_SFLOAT_S8_UINT)
    );
    assert_eq!(
        find_supported_format(&candidates, &props, TILING_LINEAR, FEATURE_DEPTH_STENCIL_ATTACHMENT),
        Some(FORMAT_D32_SFLOAT)
    );
    assert_eq!(find_supported_format(&candidates, &props, 7, FEATURE_DEPTH_STENCIL_ATTACHMENT), None);
    let colors = color_format_candidates();
    assert_eq!(colors, vec![50, 43]);
    let none = vec![FormatProperties { linear_tiling_features: 0, optimal_tiling_features: 0 }; 2];
    assert_eq!(find_supported_format(&colors, &none, TILING_OPTIMAL, FEATURE_COLOR_ATTACHMENT), None);
}

#[test]
fn memory_type_search() {
    let flags = vec![0b0001, 0b0110, 0b0111, 0b0110];
    assert_eq!(find_memory_type_index(0b1111, 0b0110, &flags), Some(1));
    assert_eq!(find_memory_type_index(0b1101, 0b0110, &flags), Some(2));
    assert_eq!(find_memory_type_index(0b1001, 0b0110, &flags), Some(3));
    assert_eq!(find_memory_type_index(0b0001, 0b0110, &flags), None);
    assert_eq!(find_memory_type_index(0xFFFF_FFFF, 0, &vec![]), None);
}

fn names(v: &[&str]) -> Vec<Vec<u8>> {
    v.iter().map(|s| s.as_bytes().to_vec()).collect()
}

#[test]
fn extension_list_split() {
    assert_eq!(split_extension_names(&b"VK_KHR_a VK_KHR_b".to_vec()), names(&["VK_KHR_a", "VK_KHR_b"]));
    assert_eq!(split_extension_names(&b"a  b".to_vec()), names(&["a", "", "b"]));
    assert_eq!(split_extension_names(&b"".to_vec()), names(&[""]));
    assert_eq!(split_extension_names(&b" x ".to_vec()), names(&["", "x", ""]));
    assert_eq!(
        get_instance_extensions(&b"VK_KHR_surface VK_EXT_debug_marker".to_vec()),
        names(&["VK_KHR_surface", "VK_EXT_debug_marker"])
    );
}

#[test]
fn device_extensions_drop_debug_marker() {
    let list = b"VK_KHR_swapchain VK_EXT_debug_marker VK_KHR_external_memory".to_vec();
    assert_eq!(get_device_extensions(&list), names(&["VK_KHR_swapchain", "VK_KHR_external_memory"]));
    assert_eq!(get_device_extensions(&b"VK_EXT_debug_marker".to_vec()), names(&[]));
    assert_eq!(get_device_extensions(&b"VK_EXT_debug_markers".to_vec()), names(&["VK_EXT_debug_markers"]));
}
