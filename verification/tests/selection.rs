//! Tests of name matching, configuration, queue family selection and
//! physical device picking.

use vkboot::config::{
    check_physic_device_extension_support, check_validation_layer_support, device_extension,
    get_require_layer_raw_names, validation_info, DeviceExtension, ValidationInfo,
};
use vkboot::device::{
    is_device_suitable, pick_physic_device, unique_queue_families, PhysicalDeviceInfo,
};
use vkboot::names::{bytes_equal, cstr_prefix, name_present};
use vkboot::queues::{find_queue_family, QueueFamilyIndices, QueueFamilyInfo};
use vkboot::swapchain::{SurfaceCapabilities, Extent2D, SurfaceFormat, SwapChainSupportDetails};

/// A NUL-terminated byte array of fixed size, as the driver reports names.
fn raw_name(name: &str, size: usize) -> Vec<u8> {
    let mut out = vec![0u8; size];
    out[..name.len()].copy_from_slice(name.as_bytes());
    out
}

fn family(queue_count: u32, graphics: bool, present: bool) -> QueueFamilyInfo {
    QueueFamilyInfo { queue_count, supports_graphics: graphics, supports_present: present }
}

fn some_capabilities() -> SurfaceCapabilities {
    SurfaceCapabilities {
        min_image_count: 2,
        max_image_count: 8,
        current_extent: Extent2D { width: 640, height: 480 },
        min_image_extent: Extent2D { width: 1, height: 1 },
        max_image_extent: Extent2D { width: 4096, height: 4096 },
    }
}

fn suitable_device() -> PhysicalDeviceInfo {
    PhysicalDeviceInfo {
        queue_families: vec![family(1, true, true)],
        extension_names_raw: vec![raw_name("VK_KHR_swapchain", 256)],
        swap_chain_support: SwapChainSupportDetails {
            capabilities: some_capabilities(),
            formats: vec![SurfaceFormat { format: 50, color_space: 0 }],
            present_modes: vec![2],
        },
    }
}

#[test]
fn cstr_prefix_stops_at_first_nul() {
    let raw = vec![b'a', b'b', 0, b'c', 0];
    assert_eq!(cstr_prefix(&raw), vec![b'a', b'b']);
}

#[test]
fn cstr_prefix_without_nul_takes_all() {
    let raw = vec![b'x', b'y'];
    assert_eq!(cstr_prefix(&raw), vec![b'x', b'y']);
}

#[test]
fn cstr_prefix_leading_nul_is_empty() {
    let raw = vec![0u8, b'a'];
    assert_eq!(cstr_prefix(&raw), Vec::<u8>::new());
    assert_eq!(cstr_prefix(&[]), Vec::<u8>::new());
}

#[test]
fn bytes_equal_compares_contents() {
    assert!(bytes_equal(b"abc", b"abc"));
    assert!(!bytes_equal(b"abc", b"abd"));
    assert!(!bytes_equal(b"abc", b"ab"));
    assert!(bytes_equal(b"", b""));
}

#[test]
fn name_present_ignores_nul_padding() {
    let available = vec![raw_name("VK_LAYER_one", 64), raw_name("VK_LAYER_two", 64)];
    assert!(name_present(b"VK_LAYER_two", &available));
    assert!(!name_present(b"VK_LAYER_three", &available));
    // A padded entry must not match its padded form.
    assert!(!name_present(&raw_name("VK_LAYER_one", 64), &available));
}

#[test]
fn validation_layer_support_found() {
    let available = vec![
        raw_name("VK_LAYER_NV_optimus", 256),
        raw_name("VK_LAYER_KHRONOS_validation", 256),
    ];
    let layers = ["VK_LAYER_KHRONOS_validation"];
    assert!(check_validation_layer_support(&layers, &available));
}

#[test]
fn validation_layer_support_missing() {
    let available = vec![raw_name("VK_LAYER_NV_optimus", 256)];
    let layers = ["VK_LAYER_KHRONOS_validation"];
    assert!(!check_validation_layer_support(&layers, &available));
    assert!(check_validation_layer_support(&[], &available));
}

#[test]
fn configured_validation_info() {
    let info = validation_info();
    assert!(info.enable_validation);
    assert_eq!(info.required_validation_layers, ["VK_LAYER_KHRONOS_validation"]);
}

#[test]
fn configured_device_extension() {
    let ext = device_extension();
    assert_eq!(ext.name, ["VK_KHR_swapchain"]);
}

#[test]
fn require_layer_names_follow_the_switch() {
    let on = validation_info();
    assert_eq!(get_require_layer_raw_names(&on), vec!["VK_LAYER_KHRONOS_validation"]);
    let off = ValidationInfo {
        enable_validation: false,
        required_validation_layers: ["VK_LAYER_KHRONOS_validation"],
    };
    assert_eq!(get_require_layer_raw_names(&off), Vec::<&'static str>::new());
}

#[test]
fn extension_support_found_and_missing() {
    let required = device_extension();
    let with = vec![raw_name("VK_KHR_swapchain", 256), raw_name("VK_KHR_other", 256)];
    assert!(check_physic_device_extension_support(&required, &with));
    let without = vec![raw_name("VK_KHR_other", 256)];
    assert!(!check_physic_device_extension_support(&required, &without));
    let none: Vec<Vec<u8>> = Vec::new();
    assert!(!check_physic_device_extension_support(&required, &none));
}

#[test]
fn is_complete_needs_both() {
    let both = QueueFamilyIndices { graphics_family: Some(0), present_family: Some(1) };
    assert!(both.is_complete());
    let only_graphics = QueueFamilyIndices { graphics_family: Some(0), present_family: None };
    assert!(!only_graphics.is_complete());
    let neither = QueueFamilyIndices { graphics_family: None, present_family: None };
    assert!(!neither.is_complete());
}

#[test]
fn find_queue_family_takes_one_family_for_both() {
    let fams = vec![family(1, true, true), family(1, true, false)];
    let r = find_queue_family(&fams);
    assert_eq!(r.graphics_family, Some(0));
    assert_eq!(r.present_family, Some(0));
}

#[test]
fn find_queue_family_splits_families() {
    let fams = vec![family(1, true, false), family(1, false, true)];
    let r = find_queue_family(&fams);
    assert_eq!(r.graphics_family, Some(0));
    assert_eq!(r.present_family, Some(1));
}

#[test]
fn find_queue_family_stops_once_complete() {
    // The second family could overwrite the graphics index, but the scan
    // has already stopped at the first.
    let fams = vec![family(1, true, true), family(1, true, true)];
    let r = find_queue_family(&fams);
    assert_eq!(r.graphics_family, Some(0));
    assert_eq!(r.present_family, Some(0));
}

#[test]
fn find_queue_family_overwrites_until_complete() {
    let fams = vec![family(1, true, false), family(1, true, true)];
    let r = find_queue_family(&fams);
    assert_eq!(r.graphics_family, Some(1));
    assert_eq!(r.present_family, Some(1));
}

#[test]
fn find_queue_family_ignores_empty_families() {
    let fams = vec![family(0, true, true), family(1, true, false)];
    let r = find_queue_family(&fams);
    assert_eq!(r.graphics_family, Some(1));
    assert_eq!(r.present_family, None);
    assert!(!r.is_complete());
}

#[test]
fn find_queue_family_of_nothing_is_incomplete() {
    let r = find_queue_family(&Vec::new());
    assert_eq!(r.graphics_family, None);
    assert_eq!(r.present_family, None);
}

#[test]
fn suitable_device_is_suitable() {
    let required = device_extension();
    assert!(is_device_suitable(&suitable_device(), &required));
}

#[test]
fn device_without_extension_is_unsuitable() {
    let required = device_extension();
    let mut dev = suitable_device();
    dev.extension_names_raw = vec![raw_name("VK_KHR_other", 256)];
    assert!(!is_device_suitable(&dev, &required));
}

#[test]
fn device_without_formats_or_modes_is_unsuitable() {
    let required = device_extension();
    let mut dev = suitable_device();
    dev.swap_chain_support.formats = Vec::new();
    assert!(!is_device_suitable(&dev, &required));
    let mut dev2 = suitable_device();
    dev2.swap_chain_support.present_modes = Vec::new();
    assert!(!is_device_suitable(&dev2, &required));
}

#[test]
fn device_without_complete_queues_is_unsuitable() {
    let required = device_extension();
    let mut dev = suitable_device();
    dev.queue_families = vec![family(1, true, false)];
    assert!(!is_device_suitable(&dev, &required));
}

#[test]
fn pick_takes_the_first_suitable_device() {
    let required = device_extension();
    let mut unsuitable = suitable_device();
    unsuitable.swap_chain_support.formats = Vec::new();
    // An unsuitable device first, then two suitable ones: the earlier of
    // the suitable devices wins.
    let devices = vec![unsuitable, suitable_device(), suitable_device()];
    assert_eq!(pick_physic_device(&devices, &required), Some(1));
}

#[test]
fn pick_finds_nothing_without_suitable_devices() {
    let required = device_extension();
    assert_eq!(pick_physic_device(&Vec::new(), &required), None);
    let mut unsuitable = suitable_device();
    unsuitable.queue_families = Vec::new();
    assert_eq!(pick_physic_device(&vec![unsuitable], &required), None);
}

#[test]
fn unique_queue_families_deduplicates() {
    let same = QueueFamilyIndices { graphics_family: Some(3), present_family: Some(3) };
    assert_eq!(unique_queue_families(&same), vec![3]);
    let split = QueueFamilyIndices { graphics_family: Some(0), present_family: Some(2) };
    assert_eq!(unique_queue_families(&split), vec![0, 2]);
}
