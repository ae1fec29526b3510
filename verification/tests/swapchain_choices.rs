use vulkan_render::swapchain::{
    choose_extent, choose_present_mode, choose_surface_format, image_count, Extent2D, Size, SurfaceCapabilities,
    SurfaceFormat, SwapchainCapabilities,
};
use vulkanalia::vk;

fn caps(current: Extent2D, min: Extent2D, max: Extent2D, min_count: u32, max_count: u32) -> SurfaceCapabilities {
    SurfaceCapabilities {
        min_image_count: min_count,
        max_image_count: max_count,
        current_extent: current,
        min_image_extent: min,
        max_image_extent: max,
        current_transform: 1,
    }
}

#[test]
fn preferred_format_is_chosen_wherever_it_stands() {
    let formats = [
        SurfaceFormat { format: vk::Format::R8G8B8A8_UNORM.as_raw(), color_space: 0 },
        SurfaceFormat { format: vk::Format::B8G8R8A8_SRGB.as_raw(), color_space: 1000104001 },
        SurfaceFormat { format: vk::Format::B8G8R8A8_SRGB.as_raw(), color_space: vk::ColorSpaceKHR::SRGB_NONLINEAR.as_raw() },
    ];
    let chosen = choose_surface_format(&formats);
    assert_eq!(chosen, SurfaceFormat { format: 50, color_space: 0 });
}

#[test]
fn first_format_is_chosen_without_the_preferred_one() {
    let formats = [
        SurfaceFormat { format: 37, color_space: 0 },
        SurfaceFormat { format: 50, color_space: 1000104001 },
    ];
    assert_eq!(choose_surface_format(&formats), SurfaceFormat { format: 37, color_space: 0 });
}


#[test]
fn mailbox_is_chosen_when_offered() {
    let modes = [vk::PresentModeKHR::FIFO.as_raw(), vk::PresentModeKHR::MAILBOX.as_raw()];
    assert_eq!(choose_present_mode(&modes), vk::PresentModeKHR::MAILBOX.as_raw());
}

#[test]
fn fifo_is_the_fallback_present_mode() {
    let modes = [vk::PresentModeKHR::IMMEDIATE.as_raw()];
    assert_eq!(choose_present_mode(&modes), 2);
    assert_eq!(choose_present_mode(&[]), 2);
}

#[test]
fn current_extent_is_used_when_the_surface_fixes_it() {
    let c = caps(
        Extent2D { width: 800, height: 600 },
        Extent2D { width: 1, height: 1 },
        Extent2D { width: 4096, height: 4096 },
        2,
        8,
    );
    let extent = choose_extent(Size { width: 1920, height: 1080 }, c);
    assert_eq!(extent, Extent2D { width: 800, height: 600 });
}

#[test]
fn window_size_is_clamped_when_the_surface_leaves_the_extent_open() {
    let c = caps(
        Extent2D { width: u32::MAX, height: u32::MAX },
        Extent2D { width: 100, height: 200 },
        Extent2D { width: 1000, height: 500 },
        2,
        8,
    );
    assert_eq!(choose_extent(Size { width: 1920, height: 100 }, c), Extent2D { width: 1000, height: 200 });
    assert_eq!(choose_extent(Size { width: 640, height: 480 }, c), Extent2D { width: 640, height: 480 });
    assert_eq!(choose_extent(Size { width: 50, height: 900 }, c), Extent2D { width: 100, height: 500 });
}

#[test]
fn image_count_is_one_more_than_the_minimum() {
    let e = Extent2D { width: 1, height: 1 };
    assert_eq!(image_count(caps(e, e, e, 2, 3)), 3);
    assert_eq!(image_count(caps(e, e, e, 3, 3)), 4);
    assert_eq!(image_count(caps(e, e, e, 1, 0)), 2);
}

#[test]
fn support_needs_a_format_and_a_present_mode() {
    let e = Extent2D { width: 1, height: 1 };
    let full = SwapchainCapabilities {
        capabilities: caps(e, e, e, 1, 0),
        formats: vec![SurfaceFormat { format: 50, color_space: 0 }],
        present_modes: vec![2],
    };
    assert!(full.is_adequate());
    let no_modes = SwapchainCapabilities {
        capabilities: caps(e, e, e, 1, 0),
        formats: vec![SurfaceFormat { format: 50, color_space: 0 }],
        present_modes: vec![],
    };
    assert!(!no_modes.is_adequate());
    let no_formats = SwapchainCapabilities { capabilities: caps(e, e, e, 1, 0), formats: vec![], present_modes: vec![2] };
    assert!(!no_formats.is_adequate());
}
