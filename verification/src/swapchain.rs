//! Choices made when a swapchain is created for a surface: the image format,
//! the present mode, the image extent and the number of images.
//!
//! Vulkan enumerations and flags are held here by their raw codes, the values
//! that vulkanalia's `as_raw()` and `bits()` give.

use vstd::prelude::*;
use vulkanalia::vk;

verus! {

/// A width and a height in pixels.
#[derive(Clone, Copy, Debug, PartialEq, Eq, Structural)]
pub struct Extent2D {
    pub width: u32,
    pub height: u32,
}

/// A size of a window or a surface.
#[derive(Clone, Copy, Debug, PartialEq, Eq, PartialOrd, Ord, Default, Hash)]
pub struct Size<T> {
    pub width: T,
    pub height: T,
}

/// A pixel format with its color space, by their raw codes.
#[derive(Clone, Copy, Debug, PartialEq, Eq, Structural)]
pub struct SurfaceFormat {
    pub format: i32,
    pub color_space: i32,
}

/// What a surface reports of the swapchains it supports.
#[derive(Clone, Copy, Debug)]
pub struct SurfaceCapabilities {
    pub min_image_count: u32,
    pub max_image_count: u32,
    pub current_extent: Extent2D,
    pub min_image_extent: Extent2D,
    pub max_image_extent: Extent2D,
    /// Raw bits of the surface's current transform.
    pub current_transform: u32,
}

/// Everything a physical device reports of its swapchain support for a surface.
pub struct SwapchainCapabilities {
    pub capabilities: SurfaceCapabilities,
    pub formats: Vec<SurfaceFormat>,
    /// Raw codes of the supported present modes.
    pub present_modes: Vec<i32>,
}

/// The raw code of `vk::Format::B8G8R8A8_SRGB`, which vulkanalia defines as 50.
pub open spec fn format_b8g8r8a8_srgb_code() -> i32 {
    50
}

/// The raw code of `vk::ColorSpaceKHR::SRGB_NONLINEAR`, which vulkanalia defines as 0.
pub open spec fn color_space_srgb_nonlinear_code() -> i32 {
    0
}

/// The raw code of `vk::PresentModeKHR::MAILBOX`, which vulkanalia defines as 1.
pub open spec fn present_mode_mailbox_code() -> i32 {
    1
}

/// The raw code of `vk::PresentModeKHR::FIFO`, which vulkanalia defines as 2.
pub open spec fn present_mode_fifo_code() -> i32 {
    2
}

/// Reads vulkanalia's `vk::Format::B8G8R8A8_SRGB` and gives its raw code; the
/// crate's source defines that constant as `Self(50)`.
#[verifier::external_body]
fn format_b8g8r8a8_srgb() -> (code: i32)
    ensures
        code == format_b8g8r8a8_srgb_code(),
{
    vk::Format::B8G8R8A8_SRGB.as_raw()
}

/// Reads vulkanalia's `vk::ColorSpaceKHR::SRGB_NONLINEAR` and gives its raw
/// code; the crate's source defines that constant as `Self(0)`.
#[verifier::external_body]
fn color_space_srgb_nonlinear() -> (code: i32)
    ensures
        code == color_space_srgb_nonlinear_code(),
{
    vk::ColorSpaceKHR::SRGB_NONLINEAR.as_raw()
}

/// Reads vulkanalia's `vk::PresentModeKHR::MAILBOX` and gives its raw code; the
/// crate's source defines that constant as `Self(1)`.
#[verifier::external_body]
fn present_mode_mailbox() -> (code: i32)
    ensures
        code == present_mode_mailbox_code(),
{
    vk::PresentModeKHR::MAILBOX.as_raw()
}

/// Reads vulkanalia's `vk::PresentModeKHR::FIFO` and gives its raw code; the
/// crate's source defines that constant as `Self(2)`.
#[verifier::external_body]
fn present_mode_fifo() -> (code: i32)
    ensures
        code == present_mode_fifo_code(),
{
    vk::PresentModeKHR::FIFO.as_raw()
}

/// The format a swapchain prefers: 8-bit BGRA in sRGB, non-linear sRGB space.
pub open spec fn preferred_surface_format() -> SurfaceFormat {
    SurfaceFormat { format: format_b8g8r8a8_srgb_code(), color_space: color_space_srgb_nonlinear_code() }
}

/// The format chosen among those a surface offers: the preferred one when it
/// is offered, else the first one offered.
pub open spec fn chosen_surface_format(formats: Seq<SurfaceFormat>) -> SurfaceFormat {
    if formats.contains(preferred_surface_format()) {
        preferred_surface_format()
    } else {
        formats[0]
    }
}

/// The present mode chosen among those a surface offers: mailbox when it is
/// offered, else FIFO, which every surface supports.
pub open spec fn chosen_present_mode(present_modes: Seq<i32>) -> i32 {
    if present_modes.contains(present_mode_mailbox_code()) {
        present_mode_mailbox_code()
    } else {
        present_mode_fifo_code()
    }
}

/// `value` limited to the range from `low` to `high`.
pub open spec fn clamped(value: u32, low: u32, high: u32) -> u32 {
    if value < low {
        low
    } else if value > high {
        high
    } else {
        value
    }
}

/// The extent of the swapchain images: the surface's current extent, unless
/// the surface leaves it to the swapchain (a current width of `u32::MAX`), in
/// which case the window size limited to the surface's bounds.
pub open spec fn chosen_extent(size: Size<u32>, capabilities: SurfaceCapabilities) -> Extent2D {
    if capabilities.current_extent.width != u32::MAX {
        capabilities.current_extent
    } else {
        Extent2D {
            width: clamped(size.width, capabilities.min_image_extent.width, capabilities.max_image_extent.width),
            height: clamped(size.height, capabilities.min_image_extent.height, capabilities.max_image_extent.height),
        }
    }
}


/// Picks the swapchain's image format among the formats a surface offers.
pub fn choose_surface_format(formats: &[SurfaceFormat]) -> (chosen: SurfaceFormat)
    requires
        formats@.len() > 0,
    ensures
        chosen == chosen_surface_format(formats@),
{
    let preferred = SurfaceFormat { format: format_b8g8r8a8_srgb(), color_space: color_space_srgb_nonlinear() };
    let fallback = formats[0];
    let mut i: usize = 0;
    while i < formats.len()
        invariant
            0 <= i <= formats@.len(),
            preferred == preferred_surface_format(),
            forall|j: int| 0 <= j < i ==> formats@[j] != preferred,
        decreases formats@.len() - i,
    {
        let candidate = formats[i];
        if candidate.format == preferred.format && candidate.color_space == preferred.color_space {
            assert(formats@.contains(preferred_surface_format())) by {
                assert(formats@[i as int] == preferred_surface_format());
            }
            return candidate;
        }
        i = i + 1;
    }
    assert(!formats@.contains(preferred_surface_format()));
    fallback
}

/// Picks the swapchain's present mode among the modes a surface offers.
pub fn choose_present_mode(present_modes: &[i32]) -> (chosen: i32)
    ensures
        chosen == chosen_present_mode(present_modes@),
{
    let mailbox = present_mode_mailbox();
    let mut i: usize = 0;
    while i < present_modes.len()
        invariant
            0 <= i <= present_modes@.len(),
            mailbox == present_mode_mailbox_code(),
            forall|j: int| 0 <= j < i ==> present_modes@[j] != mailbox,
        decreases present_modes@.len() - i,
    {
        if present_modes[i] == mailbox {
            assert(present_modes@.contains(mailbox)) by {
                assert(present_modes@[i as int] == mailbox);
            }
            return mailbox;
        }
        i = i + 1;
    }
    assert(!present_modes@.contains(mailbox));
    present_mode_fifo()
}

/// `value` limited to the range from `low` to `high`, as `u32::clamp` does;
/// that function panics on an inverted range, which `requires` rules out.
fn clamp_u32(value: u32, low: u32, high: u32) -> (r: u32)
    requires
        low <= high,
    ensures
        r == clamped(value, low, high),
{
    if value < low {
        low
    } else if value > high {
        high
    } else {
        value
    }
}

/// Picks the extent of the swapchain images for a window of the given size.
pub fn choose_extent(size: Size<u32>, capabilities: SurfaceCapabilities) -> (extent: Extent2D)
    requires
        capabilities.current_extent.width == u32::MAX ==> {
            &&& capabilities.min_image_extent.width <= capabilities.max_image_extent.width
            &&& capabilities.min_image_extent.height <= capabilities.max_image_extent.height
        },
    ensures
        extent == chosen_extent(size, capabilities),
{
    if capabilities.current_extent.width != u32::MAX {
        return capabilities.current_extent;
    }
    Extent2D {
        width: clamp_u32(size.width, capabilities.min_image_extent.width, capabilities.max_image_extent.width),
        height: clamp_u32(size.height, capabilities.min_image_extent.height, capabilities.max_image_extent.height),
    }
}

/// The number of swapchain images to ask for: one more than the surface's
/// minimum, bounded by `max(max_image_count, min_image_count + 1)`, a bound
/// that never binds, so the count is always the minimum plus one.
pub fn image_count(capabilities: SurfaceCapabilities) -> (count: u32)
    requires
        capabilities.min_image_count < u32::MAX,
    ensures
        count == capabilities.min_image_count + 1,
{
    let wanted = capabilities.min_image_count + 1;
    let bound = if capabilities.max_image_count > wanted { capabilities.max_image_count } else { wanted };
    if wanted < bound { wanted } else { bound }
}

impl SwapchainCapabilities {
    /// Whether the surface offers at least one format and one present mode, as
    /// a device must for the renderer to use it.
    pub fn is_adequate(&self) -> (adequate: bool)
        ensures
            adequate == (self.formats@.len() > 0 && self.present_modes@.len() > 0),
    {
        !self.formats.is_empty() && !self.present_modes.is_empty()
    }
}

/// The chosen format is always one the surface offers.
pub proof fn lemma_chosen_format_is_offered(formats: Seq<SurfaceFormat>)
    requires
        formats.len() > 0,
    ensures
        formats.contains(chosen_surface_format(formats)),
{
    if !formats.contains(preferred_surface_format()) {
        assert(formats[0] == formats[0]);
        assert(formats.contains(formats[0]));
    }
}

/// When the surface offers the preferred format, that format is chosen,
/// wherever it stands among the offers.
pub proof fn lemma_preferred_format_wins(formats: Seq<SurfaceFormat>, i: int)
    requires
        0 <= i < formats.len(),
        formats[i] == preferred_surface_format(),
    ensures
        chosen_surface_format(formats) == preferred_surface_format(),
{
    assert(formats.contains(formats[i]));
}

/// Mailbox is chosen exactly when the surface offers it; otherwise FIFO.
pub proof fn lemma_present_mode_choice(present_modes: Seq<i32>)
    ensures
        (chosen_present_mode(present_modes) == present_mode_mailbox_code()) <==> present_modes.contains(present_mode_mailbox_code()),
        chosen_present_mode(present_modes) == present_mode_mailbox_code()
            || chosen_present_mode(present_modes) == present_mode_fifo_code(),
{
}

/// When the surface leaves the extent to the swapchain and its bounds are
/// ordered, the chosen extent lies within the bounds; otherwise it is the
/// surface's current extent.
pub proof fn lemma_extent_within_bounds(size: Size<u32>, capabilities: SurfaceCapabilities)
    requires
        capabilities.min_image_extent.width <= capabilities.max_image_extent.width,
        capabilities.min_image_extent.height <= capabilities.max_image_extent.height,
    ensures
        capabilities.current_extent.width != u32::MAX ==> chosen_extent(size, capabilities) == capabilities.current_extent,
        capabilities.current_extent.width == u32::MAX ==> {
            let e = chosen_extent(size, capabilities);
            &&& capabilities.min_image_extent.width <= e.width <= capabilities.max_image_extent.width
            &&& capabilities.min_image_extent.height <= e.height <= capabilities.max_image_extent.height
        },
{
}

} // verus!
