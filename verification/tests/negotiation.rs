use rendering_core::config::RenderingResolution;
use rendering_core::physical_device::QueueFamilyIndices;
use rendering_core::swap_chain::{
    choose_present_mode, choose_sharing_mode, choose_swap_chain_extent,
    choose_swap_chain_surface_format, compute_image_count, Extent2D, SharingMode,
    SurfaceCapabilities, SurfaceFormat, FORMAT_B8G8R8A8_SRGB, PRESENT_MODE_FIFO,
    PRESENT_MODE_MAILBOX,
};

fn caps_with_current(width: u32, height: u32) -> SurfaceCapabilities {
    SurfaceCapabilities {
        min_image_count: 2,
        max_image_count: 5,
        current_extent: Extent2D { width, height },
        min_image_extent: Extent2D { width: 100, height: 200 },
        max_image_extent: Extent2D { width: 1000, height: 2000 },
        current_transform: 0,
    }
}

#[test]
fn extent_uses_driver_extent_when_defined() {
    let caps = caps_with_current(640, 480);
    let requested = RenderingResolution { width: 1024, height: 768 };
    let extent = choose_swap_chain_extent(requested, &caps);
    assert_eq!(extent, Extent2D { width: 640, height: 480 });
}

#[test]
fn extent_clamps_requested_resolution_when_undefined() {
    let caps = caps_with_current(u32::MAX, 0);
    let in_range = choose_swap_chain_extent(RenderingResolution { width: 500, height: 600 }, &caps);
    assert_eq!(in_range, Extent2D { width: 500, height: 600 });
    let below = choose_swap_chain_extent(RenderingResolution { width: 10, height: 10 }, &caps);
    assert_eq!(below, Extent2D { width: 100, height: 200 });
    let above = choose_swap_chain_extent(RenderingResolution { width: 9999, height: 9999 }, &caps);
    assert_eq!(above, Extent2D { width: 1000, height: 2000 });
}

#[test]
fn format_selection_takes_first_bgra_srgb_match() {
    let formats = vec![
        SurfaceFormat { format: 44, color_space: 0 },
        SurfaceFormat { format: FORMAT_B8G8R8A8_SRGB, color_space: 7 },
        SurfaceFormat { format: FORMAT_B8G8R8A8_SRGB, color_space: 9 },
    ];
    let chosen = choose_swap_chain_surface_format(&formats).unwrap();
    assert_eq!(chosen, SurfaceFormat { format: FORMAT_B8G8R8A8_SRGB, color_space: 7 });
}

#[test]
fn format_selection_is_deterministic_across_runs() {
    let formats = vec![
        SurfaceFormat { format: 44, color_space: 0 },
        SurfaceFormat { format: FORMAT_B8G8R8A8_SRGB, color_space: 7 },
    ];
    let first = choose_swap_chain_surface_format(&formats);
    let second = choose_swap_chain_surface_format(&formats);
    assert_eq!(first, second);
}

#[test]
fn format_selection_fails_without_bgra_srgb() {
    let formats = vec![SurfaceFormat { format: 44, color_space: 0 }];
    assert_eq!(choose_swap_chain_surface_format(&formats), None);
    assert_eq!(choose_swap_chain_surface_format(&Vec::new()), None);
}

#[test]
fn present_mode_prefers_mailbox_when_listed() {
    let modes = vec![PRESENT_MODE_FIFO, PRESENT_MODE_MAILBOX];
    assert_eq!(choose_present_mode(&modes), PRESENT_MODE_MAILBOX);
}

#[test]
fn present_mode_falls_back_to_fifo() {
    let fifo_only = vec![PRESENT_MODE_FIFO];
    assert_eq!(choose_present_mode(&fifo_only), PRESENT_MODE_FIFO);
    assert_eq!(choose_present_mode(&Vec::new()), PRESENT_MODE_FIFO);
}

#[test]
fn image_count_is_min_plus_one_clamped_to_max() {
    let mut caps = caps_with_current(640, 480);
    caps.min_image_count = 2;
    caps.max_image_count = 5;
    assert_eq!(compute_image_count(&caps), 3);
    caps.max_image_count = 2;
    assert_eq!(compute_image_count(&caps), 2);
    caps.min_image_count = 1;
    caps.max_image_count = 1;
    assert_eq!(compute_image_count(&caps), 1);
}

#[test]
fn sharing_is_concurrent_only_across_distinct_families() {
    let same = QueueFamilyIndices { graphics: 1, present: 1 };
    assert_eq!(choose_sharing_mode(&same), SharingMode::Exclusive);
    let distinct = QueueFamilyIndices { graphics: 1, present: 2 };
    assert_eq!(choose_sharing_mode(&distinct), SharingMode::Concurrent);
}
