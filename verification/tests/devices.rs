use framegraph::context::device::{
    are_extensions_supported, choose_present_mode, choose_swapchain_format, get_queue_family_indices,
    is_physical_device_suitable, pick_physical_device, swapchain_extent, swapchain_settings, unique_family_indices,
    DeviceCandidate, Extent2D, QueueFamilies, SurfaceFormat,
};
use framegraph::vk;

const G: u32 = vk::QUEUE_GRAPHICS;
const C: u32 = vk::QUEUE_COMPUTE;

#[test]
fn complete_needs_all_three_families() {
    assert!(QueueFamilies { graphics: Some(0), compute: Some(1), present: Some(0) }.is_complete());
    assert!(!QueueFamilies { graphics: Some(0), compute: Some(1), present: None }.is_complete());
}

#[test]
fn the_search_stops_once_every_queue_has_a_family() {
    let q = get_queue_family_indices(&vec![G | C, G | C], &vec![true, true], true);
    assert_eq!(q, QueueFamilies { graphics: Some(0), compute: Some(0), present: Some(0) });
}

#[test]
fn later_families_replace_earlier_ones_until_done() {
    let q = get_queue_family_indices(&vec![G, G, C], &vec![false, false, true], true);
    assert_eq!(q, QueueFamilies { graphics: Some(1), compute: Some(2), present: Some(2) });
}

#[test]
fn without_a_surface_no_present_family_is_sought() {
    let q = get_queue_family_indices(&vec![G, C, G | C], &vec![false, false, false], false);
    assert_eq!(q, QueueFamilies { graphics: Some(0), compute: Some(1), present: None });
    assert!(is_physical_device_suitable(&q, true, false));
    assert!(!is_physical_device_suitable(&q, true, true));
    assert!(!is_physical_device_suitable(&q, false, false));
}

#[test]
fn the_first_suitable_device_is_picked() {
    let incomplete = QueueFamilies { graphics: Some(0), compute: None, present: Some(0) };
    let complete = QueueFamilies { graphics: Some(0), compute: Some(0), present: Some(0) };
    let candidates = vec![
        DeviceCandidate { queue_families: incomplete, extensions_supported: true },
        DeviceCandidate { queue_families: complete, extensions_supported: false },
        DeviceCandidate { queue_families: complete, extensions_supported: true },
        DeviceCandidate { queue_families: complete, extensions_supported: true },
    ];
    assert_eq!(pick_physical_device(&candidates, true), Some(2));
    assert_eq!(pick_physical_device(&candidates[..2].to_vec(), true), None);
}

fn names(v: &[&str]) -> Vec<String> {
    v.iter().map(|s| s.to_string()).collect()
}

#[test]
fn required_extensions_must_be_available() {
    let available = names(&["VK_KHR_swapchain", "VK_KHR_maintenance1", "VK_EXT_debug"]);
    assert!(are_extensions_supported(&available, &names(&["VK_KHR_swapchain"])));
    assert!(are_extensions_supported(&available, &names(&["VK_KHR_swapchain", "VK_EXT_debug"])));
    assert!(are_extensions_supported(&available, &names(&[])));
    assert!(!are_extensions_supported(&available, &names(&["VK_KHR_ray_tracing"])));
}

#[test]
fn required_extensions_are_searched_in_one_pass() {
    let available = names(&["VK_KHR_swapchain", "VK_EXT_debug"]);
    assert!(!are_extensions_supported(&available, &names(&["VK_EXT_debug", "VK_KHR_swapchain"])));
}

#[test]
fn queues_are_created_once_per_family() {
    let mut v = unique_family_indices(&QueueFamilies { graphics: Some(0), compute: Some(0), present: Some(0) });
    assert_eq!(v, vec![0]);
    v = unique_family_indices(&QueueFamilies { graphics: Some(0), compute: Some(2), present: Some(2) });
    v.sort();
    assert_eq!(v, vec![0, 2]);
    v = unique_family_indices(&QueueFamilies { graphics: Some(3), compute: Some(1), present: None });
    v.sort();
    assert_eq!(v, vec![1, 3]);
}

#[test]
fn srgb_is_preferred_else_the_first_format() {
    let srgb = SurfaceFormat { format: vk::FORMAT_R8G8B8A8_SRGB, color_space: vk::COLOR_SPACE_SRGB_NONLINEAR };
    let unorm = SurfaceFormat { format: vk::FORMAT_R8G8B8A8_UNORM, color_space: vk::COLOR_SPACE_SRGB_NONLINEAR };
    assert_eq!(choose_swapchain_format(&vec![unorm, srgb]), srgb);
    assert_eq!(choose_swapchain_format(&vec![unorm]), unorm);
}

#[test]
fn immediate_presentation_is_preferred_else_fifo() {
    assert_eq!(choose_present_mode(&vec![vk::PRESENT_MODE_FIFO, vk::PRESENT_MODE_IMMEDIATE]), vk::PRESENT_MODE_IMMEDIATE);
    assert_eq!(choose_present_mode(&vec![3]), vk::PRESENT_MODE_FIFO);
    assert_eq!(choose_present_mode(&vec![]), vk::PRESENT_MODE_FIFO);
}

#[test]
fn the_swapchain_extent_is_the_window_clamped() {
    let min = Extent2D { width: 100, height: 100 };
    let max = Extent2D { width: 800, height: 600 };
    assert_eq!(swapchain_extent(Extent2D { width: 1024, height: 50 }, min, max), Extent2D { width: 800, height: 100 });
    assert_eq!(swapchain_extent(Extent2D { width: 640, height: 480 }, min, max), Extent2D { width: 640, height: 480 });
    let s = swapchain_settings(
        &vec![SurfaceFormat { format: vk::FORMAT_R8G8B8A8_UNORM, color_space: 0 }],
        &vec![vk::PRESENT_MODE_IMMEDIATE],
        Extent2D { width: 10, height: 1000 },
        min,
        max,
    );
    assert_eq!(s.extent, Extent2D { width: 100, height: 600 });
    assert_eq!(s.present_mode, vk::PRESENT_MODE_IMMEDIATE);
    assert_eq!(s.min_image_count, 2);
}
