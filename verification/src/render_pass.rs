//! The render pass description, and the render targets of a render pass: one
//! framebuffer with its depth image per swapchain image view.

use vstd::prelude::*;
use vulkanalia::vk;
use vulkanalia_vma::Allocation;

use crate::swapchain::Extent2D;

verus! {

/// The raw value of `vk::AttachmentLoadOp::CLEAR` (vulkanalia: `Self(1)`).
pub open spec fn load_op_clear_value() -> i32 {
    1
}

/// Reads `vk::AttachmentLoadOp::CLEAR`; vulkanalia's source defines it as `Self(1)`.
#[verifier::external_body]
fn load_op_clear() -> (value: i32)
    ensures
        value == load_op_clear_value(),
{
    vk::AttachmentLoadOp::CLEAR.as_raw()
}

/// The raw value of `vk::AttachmentLoadOp::DONT_CARE` (vulkanalia: `Self(2)`).
pub open spec fn load_op_dont_care_value() -> i32 {
    2
}

/// Reads `vk::AttachmentLoadOp::DONT_CARE`; vulkanalia's source defines it as `Self(2)`.
#[verifier::external_body]
fn load_op_dont_care() -> (value: i32)
    ensures
        value == load_op_dont_care_value(),
{
    vk::AttachmentLoadOp::DONT_CARE.as_raw()
}

/// The raw value of `vk::AttachmentStoreOp::STORE` (vulkanalia: `Self(0)`).
pub open spec fn store_op_store_value() -> i32 {
    0
}

/// Reads `vk::AttachmentStoreOp::STORE`; vulkanalia's source defines it as `Self(0)`.
#[verifier::external_body]
fn store_op_store() -> (value: i32)
    ensures
        value == store_op_store_value(),
{
    vk::AttachmentStoreOp::STORE.as_raw()
}

/// The raw value of `vk::AttachmentStoreOp::DONT_CARE` (vulkanalia: `Self(1)`).
pub open spec fn store_op_dont_care_value() -> i32 {
    1
}

/// Reads `vk::AttachmentStoreOp::DONT_CARE`; vulkanalia's source defines it as `Self(1)`.
#[verifier::external_body]
fn store_op_dont_care() -> (value: i32)
    ensures
        value == store_op_dont_care_value(),
{
    vk::AttachmentStoreOp::DONT_CARE.as_raw()
}

/// The raw value of `vk::ImageLayout::UNDEFINED` (vulkanalia: `Self(0)`).
pub open spec fn layout_undefined_value() -> i32 {
    0
}

/// Reads `vk::ImageLayout::UNDEFINED`; vulkanalia's source defines it as `Self(0)`.
#[verifier::external_body]
fn layout_undefined() -> (value: i32)
    ensures
        value == layout_undefined_value(),
{
    vk::ImageLayout::UNDEFINED.as_raw()
}

/// The raw value of `vk::ImageLayout::COLOR_ATTACHMENT_OPTIMAL` (vulkanalia: `Self(2)`).
pub open spec fn layout_color_attachment_optimal_value() -> i32 {
    2
}

/// Reads `vk::ImageLayout::COLOR_ATTACHMENT_OPTIMAL`; vulkanalia's source defines it as `Self(2)`.
#[verifier::external_body]
fn layout_color_attachment_optimal() -> (value: i32)
    ensures
        value == layout_color_attachment_optimal_value(),
{
    vk::ImageLayout::COLOR_ATTACHMENT_OPTIMAL.as_raw()
}

/// The raw value of `vk::ImageLayout::DEPTH_STENCIL_ATTACHMENT_OPTIMAL` (vulkanalia: `Self(3)`).
pub open spec fn layout_depth_stencil_attachment_optimal_value() -> i32 {
    3
}

/// Reads `vk::ImageLayout::DEPTH_STENCIL_ATTACHMENT_OPTIMAL`; vulkanalia's source defines it as `Self(3)`.
#[verifier::external_body]
fn layout_depth_stencil_attachment_optimal() -> (value: i32)
    ensures
        value == layout_depth_stencil_attachment_optimal_value(),
{
    vk::ImageLayout::DEPTH_STENCIL_ATTACHMENT_OPTIMAL.as_raw()
}

/// The raw value of `vk::ImageLayout::PRESENT_SRC_KHR` (vulkanalia: `Self(1000001002)`).
pub open spec fn layout_present_src_value() -> i32 {
    1000001002
}

/// Reads `vk::ImageLayout::PRESENT_SRC_KHR`; vulkanalia's source defines it as `Self(1000001002)`.
#[verifier::external_body]
fn layout_present_src() -> (value: i32)
    ensures
        value == layout_present_src_value(),
{
    vk::ImageLayout::PRESENT_SRC_KHR.as_raw()
}

/// The raw value of `vk::PipelineBindPoint::GRAPHICS` (vulkanalia: `Self(0)`).
pub open spec fn bind_point_graphics_value() -> i32 {
    0
}

/// Reads `vk::PipelineBindPoint::GRAPHICS`; vulkanalia's source defines it as `Self(0)`.
#[verifier::external_body]
fn bind_point_graphics() -> (value: i32)
    ensures
        value == bind_point_graphics_value(),
{
    vk::PipelineBindPoint::GRAPHICS.as_raw()
}

/// The raw value of `vk::SUBPASS_EXTERNAL` (vulkanalia: `!0`).
pub open spec fn subpass_external_value() -> u32 {
    0xffff_ffff
}

/// Reads `vk::SUBPASS_EXTERNAL`; vulkanalia's source defines it as `!0`.
#[verifier::external_body]
fn subpass_external() -> (value: u32)
    ensures
        value == subpass_external_value(),
{
    vk::SUBPASS_EXTERNAL
}

/// The raw value of `vk::PipelineStageFlags::EARLY_FRAGMENT_TESTS` (vulkanalia: `1 << 8`).
pub open spec fn stage_early_fragment_tests_value() -> u32 {
    256
}

/// Reads `vk::PipelineStageFlags::EARLY_FRAGMENT_TESTS`; vulkanalia's source defines it as `1 << 8`.
#[verifier::external_body]
fn stage_early_fragment_tests() -> (value: u32)
    ensures
        value == stage_early_fragment_tests_value(),
{
    vk::PipelineStageFlags::EARLY_FRAGMENT_TESTS.bits()
}

/// The raw value of `vk::PipelineStageFlags::LATE_FRAGMENT_TESTS` (vulkanalia: `1 << 9`).
pub open spec fn stage_late_fragment_tests_value() -> u32 {
    512
}

/// Reads `vk::PipelineStageFlags::LATE_FRAGMENT_TESTS`; vulkanalia's source defines it as `1 << 9`.
#[verifier::external_body]
fn stage_late_fragment_tests() -> (value: u32)
    ensures
        value == stage_late_fragment_tests_value(),
{
    vk::PipelineStageFlags::LATE_FRAGMENT_TESTS.bits()
}

/// The raw value of `vk::PipelineStageFlags::COLOR_ATTACHMENT_OUTPUT` (vulkanalia: `1 << 10`).
pub open spec fn stage_color_attachment_output_value() -> u32 {
    1024
}

/// Reads `vk::PipelineStageFlags::COLOR_ATTACHMENT_OUTPUT`; vulkanalia's source defines it as `1 << 10`.
#[verifier::external_body]
fn stage_color_attachment_output() -> (value: u32)
    ensures
        value == stage_color_attachment_output_value(),
{
    vk::PipelineStageFlags::COLOR_ATTACHMENT_OUTPUT.bits()
}

/// The raw value of `vk::PipelineStageFlags::BOTTOM_OF_PIPE` (vulkanalia: `1 << 13`).
pub open spec fn stage_bottom_of_pipe_value() -> u32 {
    8192
}

/// Reads `vk::PipelineStageFlags::BOTTOM_OF_PIPE`; vulkanalia's source defines it as `1 << 13`.
#[verifier::external_body]
fn stage_bottom_of_pipe() -> (value: u32)
    ensures
        value == stage_bottom_of_pipe_value(),
{
    vk::PipelineStageFlags::BOTTOM_OF_PIPE.bits()
}

/// The raw value of `vk::AccessFlags::COLOR_ATTACHMENT_WRITE` (vulkanalia: `1 << 8`).
pub open spec fn access_color_attachment_write_value() -> u32 {
    256
}

/// Reads `vk::AccessFlags::COLOR_ATTACHMENT_WRITE`; vulkanalia's source defines it as `1 << 8`.
#[verifier::external_body]
fn access_color_attachment_write() -> (value: u32)
    ensures
        value == access_color_attachment_write_value(),
{
    vk::AccessFlags::COLOR_ATTACHMENT_WRITE.bits()
}

/// The raw value of `vk::AccessFlags::DEPTH_STENCIL_ATTACHMENT_WRITE` (vulkanalia: `1 << 10`).
pub open spec fn access_depth_stencil_attachment_write_value() -> u32 {
    1024
}

/// Reads `vk::AccessFlags::DEPTH_STENCIL_ATTACHMENT_WRITE`; vulkanalia's source defines it as `1 << 10`.
#[verifier::external_body]
fn access_depth_stencil_attachment_write() -> (value: u32)
    ensures
        value == access_depth_stencil_attachment_write_value(),
{
    vk::AccessFlags::DEPTH_STENCIL_ATTACHMENT_WRITE.bits()
}

/// The raw value of `vk::AccessFlags::empty()` (vulkanalia: no flag set).
pub open spec fn access_none_value() -> u32 {
    0
}

/// Reads `vk::AccessFlags::empty()`; vulkanalia's source defines it as no flag set.
#[verifier::external_body]
fn access_none() -> (value: u32)
    ensures
        value == access_none_value(),
{
    vk::AccessFlags::empty().bits()
}

/// One attachment of a render pass, by raw codes.
#[derive(Clone, Copy, Debug, PartialEq, Eq, Structural)]
pub struct AttachmentDescription {
    pub format: i32,
    pub samples: u32,
    pub load_op: i32,
    pub store_op: i32,
    pub stencil_load_op: i32,
    pub stencil_store_op: i32,
    pub initial_layout: i32,
    pub final_layout: i32,
}

/// Which attachment a subpass uses, in which layout.
#[derive(Clone, Copy, Debug, PartialEq, Eq, Structural)]
pub struct AttachmentReference {
    pub attachment: u32,
    pub layout: i32,
}

/// An execution and memory dependency between subpasses, by raw bits.
#[derive(Clone, Copy, Debug, PartialEq, Eq, Structural)]
pub struct SubpassDependency {
    pub src_subpass: u32,
    pub dst_subpass: u32,
    pub src_stage_mask: u32,
    pub dst_stage_mask: u32,
    pub src_access_mask: u32,
    pub dst_access_mask: u32,
}

/// The render pass the renderer draws with: a color attachment (0) and a
/// depth attachment (1), one graphics subpass that writes both, and the
/// dependencies into and out of that subpass.
#[derive(Clone, Copy, Debug, PartialEq, Eq, Structural)]
pub struct RenderPassDescription {
    pub color_attachment: AttachmentDescription,
    pub depth_attachment: AttachmentDescription,
    pub pipeline_bind_point: i32,
    pub color_reference: AttachmentReference,
    pub depth_reference: AttachmentReference,
    pub dependency_start: SubpassDependency,
    pub dependency_end: SubpassDependency,
}

/// The description for the given color and depth formats. The color
/// attachment is cleared, stored and presented; the depth attachment is
/// cleared and not kept; stencil is not used; one sample per pixel. The
/// subpass waits for earlier color output and early fragment tests before it
/// writes color and depth, and later presentation waits for its color output
/// and late fragment tests.
pub open spec fn spec_render_pass_description(color_format: i32, depth_format: i32) -> RenderPassDescription {
    RenderPassDescription {
        color_attachment: AttachmentDescription {
            format: color_format,
            samples: crate::pipeline::sample_count_1_bits(),
            load_op: load_op_clear_value(),
            store_op: store_op_store_value(),
            stencil_load_op: load_op_dont_care_value(),
            stencil_store_op: store_op_dont_care_value(),
            initial_layout: layout_undefined_value(),
            final_layout: layout_present_src_value(),
        },
        depth_attachment: AttachmentDescription {
            format: depth_format,
            samples: crate::pipeline::sample_count_1_bits(),
            load_op: load_op_clear_value(),
            store_op: store_op_dont_care_value(),
            stencil_load_op: load_op_dont_care_value(),
            stencil_store_op: store_op_dont_care_value(),
            initial_layout: layout_undefined_value(),
            final_layout: layout_depth_stencil_attachment_optimal_value(),
        },
        pipeline_bind_point: bind_point_graphics_value(),
        color_reference: AttachmentReference { attachment: 0, layout: layout_color_attachment_optimal_value() },
        depth_reference: AttachmentReference { attachment: 1, layout: layout_depth_stencil_attachment_optimal_value() },
        dependency_start: SubpassDependency {
            src_subpass: subpass_external_value(),
            dst_subpass: 0,
            src_stage_mask: stage_color_attachment_output_value() | stage_early_fragment_tests_value(),
            dst_stage_mask: stage_color_attachment_output_value() | stage_early_fragment_tests_value(),
            src_access_mask: access_none_value(),
            dst_access_mask: access_color_attachment_write_value() | access_depth_stencil_attachment_write_value(),
        },
        dependency_end: SubpassDependency {
            src_subpass: 0,
            dst_subpass: subpass_external_value(),
            src_stage_mask: stage_color_attachment_output_value() | stage_late_fragment_tests_value(),
            dst_stage_mask: stage_bottom_of_pipe_value(),
            src_access_mask: access_color_attachment_write_value(),
            dst_access_mask: access_none_value(),
        },
    }
}

/// Describes the render pass for the given color and depth formats.
pub fn render_pass_description(color_format: i32, depth_format: i32) -> (description: RenderPassDescription)
    ensures
        description == spec_render_pass_description(color_format, depth_format),
{
    let one_sample = crate::pipeline::sample_count_1();
    let clear = load_op_clear();
    let load_dont_care = load_op_dont_care();
    let store_dont_care = store_op_dont_care();
    let undefined = layout_undefined();
    let depth_optimal = layout_depth_stencil_attachment_optimal();
    let external = subpass_external();
    let color_output = stage_color_attachment_output();
    let color_write = access_color_attachment_write();
    let none = access_none();
    RenderPassDescription {
        color_attachment: AttachmentDescription {
            format: color_format,
            samples: one_sample,
            load_op: clear,
            store_op: store_op_store(),
            stencil_load_op: load_dont_care,
            stencil_store_op: store_dont_care,
            initial_layout: undefined,
            final_layout: layout_present_src(),
        },
        depth_attachment: AttachmentDescription {
            format: depth_format,
            samples: one_sample,
            load_op: clear,
            store_op: store_dont_care,
            stencil_load_op: load_dont_care,
            stencil_store_op: store_dont_care,
            initial_layout: undefined,
            final_layout: depth_optimal,
        },
        pipeline_bind_point: bind_point_graphics(),
        color_reference: AttachmentReference { attachment: 0, layout: layout_color_attachment_optimal() },
        depth_reference: AttachmentReference { attachment: 1, layout: depth_optimal },
        dependency_start: SubpassDependency {
            src_subpass: external,
            dst_subpass: 0,
            src_stage_mask: color_output | stage_early_fragment_tests(),
            dst_stage_mask: color_output | stage_early_fragment_tests(),
            src_access_mask: none,
            dst_access_mask: color_write | access_depth_stencil_attachment_write(),
        },
        dependency_end: SubpassDependency {
            src_subpass: 0,
            dst_subpass: external,
            src_stage_mask: color_output | stage_late_fragment_tests(),
            dst_stage_mask: stage_bottom_of_pipe(),
            src_access_mask: color_write,
            dst_access_mask: none,
        },
    }
}

/// An image with its view and, when the library's allocator made it, the
/// allocation that backs it.
pub struct VulkanImage {
    pub image: vk::Image,
    pub view: vk::ImageView,
    pub allocation: Option<Allocation>,
}

impl VulkanImage {
    /// Releases the image: the view is always destroyed, and the image is freed
    /// through its allocation only while the image still owns one. The
    /// allocation is given up, so a second call frees nothing.
    pub fn destroy<V, I>(&mut self, destroy_view: V, destroy_image: I)
        where
            V: Fn(vk::ImageView),
            I: Fn(vk::Image, Allocation),
        requires
            call_requires(destroy_view, (old(self).view,)),
            old(self).allocation matches Some(a) ==> call_requires(destroy_image, (old(self).image, a)),
        ensures
            final(self).allocation is None,
            final(self).image == old(self).image,
            final(self).view == old(self).view,
            call_ensures(destroy_view, (old(self).view,), ()),
            old(self).allocation matches Some(a) ==> call_ensures(destroy_image, (old(self).image, a), ()),
    {
        destroy_view(self.view);
        let taken = self.allocation.take();
        if let Some(allocation) = taken {
            destroy_image(self.image, allocation);
        }
    }
}

/// The framebuffer that draws into one swapchain image, with its depth image.
pub struct VulkanRenderTarget {
    pub framebuffer: vk::Framebuffer,
    pub image_view: vk::ImageView,
    pub depth_image: VulkanImage,
    pub extent: Extent2D,
}

/// A render target for `image_view`: it keeps the view and the extent, its
/// depth image was made with the depth format and extent, and its
/// framebuffer was made for the render pass with the view and the depth
/// image's view as attachments, at the extent.
pub open spec fn target_made_by<DI, FB, E>(
    target: VulkanRenderTarget,
    render_pass: vk::RenderPass,
    image_view: vk::ImageView,
    depth_format: i32,
    extent: Extent2D,
    create_depth_image: DI,
    create_framebuffer: FB,
) -> bool
    where
        DI: Fn(i32, Extent2D) -> Result<VulkanImage, E>,
        FB: Fn(vk::RenderPass, vk::ImageView, vk::ImageView, Extent2D) -> Result<vk::Framebuffer, E>,
{
    &&& target.image_view == image_view
    &&& target.extent == extent
    &&& call_ensures(create_depth_image, (depth_format, extent), Ok::<VulkanImage, E>(target.depth_image))
    &&& call_ensures(
        create_framebuffer,
        (render_pass, image_view, target.depth_image.view, extent),
        Ok::<vk::Framebuffer, E>(target.framebuffer),
    )
}

/// Making a render target for `image_view` failed with `error`: either the
/// depth image could not be made, or it was and the framebuffer could not.
pub open spec fn target_failed_with<DI, FB, E>(
    error: E,
    render_pass: vk::RenderPass,
    image_view: vk::ImageView,
    depth_format: i32,
    extent: Extent2D,
    create_depth_image: DI,
    create_framebuffer: FB,
) -> bool
    where
        DI: Fn(i32, Extent2D) -> Result<VulkanImage, E>,
        FB: Fn(vk::RenderPass, vk::ImageView, vk::ImageView, Extent2D) -> Result<vk::Framebuffer, E>,
{
    ||| call_ensures(create_depth_image, (depth_format, extent), Err::<VulkanImage, E>(error))
    ||| exists|depth: VulkanImage| {
        &&& call_ensures(create_depth_image, (depth_format, extent), Ok::<VulkanImage, E>(depth))
        &&& call_ensures(create_framebuffer, (render_pass, image_view, depth.view, extent), Err::<vk::Framebuffer, E>(error))
    }
}

impl VulkanRenderTarget {
    /// Makes the render target for `image_view` in `render_pass`: first its
    /// depth image, then a framebuffer with the view and the depth image's
    /// view as attachments.
    pub fn new<DI, FB, E>(
        render_pass: vk::RenderPass,
        image_view: vk::ImageView,
        depth_format: i32,
        extent: Extent2D,
        create_depth_image: &DI,
        create_framebuffer: &FB,
    ) -> (result: Result<Self, E>)
        where
            DI: Fn(i32, Extent2D) -> Result<VulkanImage, E>,
            FB: Fn(vk::RenderPass, vk::ImageView, vk::ImageView, Extent2D) -> Result<vk::Framebuffer, E>,
        requires
            call_requires(*create_depth_image, (depth_format, extent)),
            forall|d: vk::ImageView| call_requires(*create_framebuffer, (render_pass, image_view, d, extent)),
        ensures
            result matches Ok(target) ==> target_made_by(
                target, render_pass, image_view, depth_format, extent, *create_depth_image, *create_framebuffer,
            ),
            result matches Err(e) ==> target_failed_with(
                e, render_pass, image_view, depth_format, extent, *create_depth_image, *create_framebuffer,
            ),
    {
        let depth_image = match create_depth_image(depth_format, extent) {
            Ok(image) => image,
            Err(e) => return Err(e),
        };
        let framebuffer = match create_framebuffer(render_pass, image_view, depth_image.view, extent) {
            Ok(framebuffer) => framebuffer,
            Err(e) => return Err(e),
        };
        Ok(VulkanRenderTarget { framebuffer, image_view, depth_image, extent })
    }

    /// Releases the target: its framebuffer, then its depth image.
    pub fn destroy<F, V, I>(&mut self, destroy_framebuffer: F, destroy_view: V, destroy_image: I)
        where
            F: Fn(vk::Framebuffer),
            V: Fn(vk::ImageView),
            I: Fn(vk::Image, Allocation),
        requires
            call_requires(destroy_framebuffer, (old(self).framebuffer,)),
            call_requires(destroy_view, (old(self).depth_image.view,)),
            old(self).depth_image.allocation matches Some(a) ==> call_requires(destroy_image, (old(self).depth_image.image, a)),
        ensures
            final(self).depth_image.allocation is None,
            final(self).framebuffer == old(self).framebuffer,
            final(self).image_view == old(self).image_view,
            final(self).extent == old(self).extent,
            call_ensures(destroy_framebuffer, (old(self).framebuffer,), ()),
            call_ensures(destroy_view, (old(self).depth_image.view,), ()),
            old(self).depth_image.allocation matches Some(a) ==> call_ensures(destroy_image, (old(self).depth_image.image, a), ()),
    {
        destroy_framebuffer(self.framebuffer);
        self.depth_image.destroy(destroy_view, destroy_image);
    }
}

/// A render pass with the render targets made for the current swapchain.
pub struct VulkanRenderPass {
    pub handle: vk::RenderPass,
    render_targets: Vec<VulkanRenderTarget>,
}

impl VulkanRenderPass {
    /// The render targets, in the order of the image views they were made for.
    pub closed spec fn targets(&self) -> Seq<VulkanRenderTarget> {
        self.render_targets@
    }

    /// The render pass handle.
    pub closed spec fn pass_handle(&self) -> vk::RenderPass {
        self.handle
    }

    /// A render pass with no render targets yet.
    pub fn new(handle: vk::RenderPass) -> (pass: Self)
        ensures
            pass.pass_handle() == handle,
            pass.targets() == Seq::<VulkanRenderTarget>::empty(),
    {
        VulkanRenderPass { handle, render_targets: Vec::new() }
    }

    /// Hands every render target, first to last, to `destroy_target` and
    /// leaves the pass without render targets.
    pub fn destroy_render_targets<D>(&mut self, destroy_target: D)
        where
            D: Fn(VulkanRenderTarget),
        requires
            forall|t: VulkanRenderTarget| call_requires(destroy_target, (t,)),
        ensures
            final(self).targets() == Seq::<VulkanRenderTarget>::empty(),
            final(self).pass_handle() == old(self).pass_handle(),
            forall|i: int| 0 <= i < old(self).targets().len() ==>
                call_ensures(destroy_target, (#[trigger] old(self).targets()[i],), ()),
    {
        let mut remaining: Vec<VulkanRenderTarget> = Vec::new();
        std::mem::swap(&mut remaining, &mut self.render_targets);
        let ghost all = remaining@;
        let ghost done: int = 0;
        while remaining.len() > 0
            invariant
                forall|t: VulkanRenderTarget| call_requires(destroy_target, (t,)),
                self.render_targets@ == Seq::<VulkanRenderTarget>::empty(),
                self.handle == old(self).handle,
                all == old(self).render_targets@,
                0 <= done <= all.len(),
                remaining@ == all.subrange(done, all.len() as int),
                forall|i: int| 0 <= i < done ==> call_ensures(destroy_target, (#[trigger] all[i],), ()),
            decreases remaining.len(),
        {
            let target = remaining.remove(0);
            destroy_target(target);
            proof {
                done = done + 1;
            }
        }
    }

    /// Releases the render targets, then the render pass itself.
    pub fn destroy<D, P>(&mut self, destroy_target: D, destroy_pass: P)
        where
            D: Fn(VulkanRenderTarget),
            P: FnOnce(vk::RenderPass),
        requires
            forall|t: VulkanRenderTarget| call_requires(destroy_target, (t,)),
            call_requires(destroy_pass, (old(self).pass_handle(),)),
        ensures
            final(self).targets() == Seq::<VulkanRenderTarget>::empty(),
            final(self).pass_handle() == old(self).pass_handle(),
            forall|i: int| 0 <= i < old(self).targets().len() ==>
                call_ensures(destroy_target, (#[trigger] old(self).targets()[i],), ()),
            call_ensures(destroy_pass, (old(self).pass_handle(),), ()),
    {
        self.destroy_render_targets(destroy_target);
        destroy_pass(self.handle);
    }

    /// Replaces the render targets with one new target per image view, in the
    /// order of the views, each made for this pass with the given depth format
    /// and extent. The old targets go to `destroy_target` first. Creation stops
    /// at the first failure, whose error is returned; the targets made before
    /// it stay in the pass.
    pub fn recreate_render_targets<DI, FB, D, E>(
        &mut self,
        image_views: &[vk::ImageView],
        depth_format: i32,
        extent: Extent2D,
        create_depth_image: &DI,
        create_framebuffer: &FB,
        destroy_target: D,
    ) -> (result: Result<(), E>)
        where
            DI: Fn(i32, Extent2D) -> Result<VulkanImage, E>,
            FB: Fn(vk::RenderPass, vk::ImageView, vk::ImageView, Extent2D) -> Result<vk::Framebuffer, E>,
            D: Fn(VulkanRenderTarget),
        requires
            call_requires(*create_depth_image, (depth_format, extent)),
            forall|p: vk::RenderPass, v: vk::ImageView, d: vk::ImageView|
                call_requires(*create_framebuffer, (p, v, d, extent)),
            forall|t: VulkanRenderTarget| call_requires(destroy_target, (t,)),
        ensures
            final(self).pass_handle() == old(self).pass_handle(),
            forall|i: int| 0 <= i < old(self).targets().len() ==>
                call_ensures(destroy_target, (#[trigger] old(self).targets()[i],), ()),
            final(self).targets().len() <= image_views@.len(),
            forall|i: int| 0 <= i < final(self).targets().len() ==> target_made_by(
                #[trigger] final(self).targets()[i],
                old(self).pass_handle(),
                image_views@[i],
                depth_format,
                extent,
                *create_depth_image,
                *create_framebuffer,
            ),
            result is Ok ==> final(self).targets().len() == image_views@.len(),
            result matches Err(e) ==> final(self).targets().len() < image_views@.len() && target_failed_with(
                e,
                old(self).pass_handle(),
                image_views@[final(self).targets().len() as int],
                depth_format,
                extent,
                *create_depth_image,
                *create_framebuffer,
            ),
    {
        let ghost old_targets = self.render_targets@;
        self.destroy_render_targets(destroy_target);
        let count = image_views.len();
        let mut i: usize = 0;
        while i < count
            invariant
                call_requires(*create_depth_image, (depth_format, extent)),
                forall|p: vk::RenderPass, v: vk::ImageView, d: vk::ImageView|
                    call_requires(*create_framebuffer, (p, v, d, extent)),
                count == image_views@.len(),
                i <= count,
                self.handle == old(self).handle,
                self.render_targets@.len() == i,
                old_targets == old(self).render_targets@,
                forall|k: int| 0 <= k < old_targets.len() ==>
                    call_ensures(destroy_target, (#[trigger] old_targets[k],), ()),
                forall|j: int| 0 <= j < i ==> target_made_by(
                    #[trigger] self.render_targets@[j],
                    old(self).handle,
                    image_views@[j],
                    depth_format,
                    extent,
                    *create_depth_image,
                    *create_framebuffer,
                ),
            decreases count - i,
        {
            let created = VulkanRenderTarget::new(
                self.handle,
                image_views[i],
                depth_format,
                extent,
                create_depth_image,
                create_framebuffer,
            );
            match created {
                Ok(target) => {
                    self.render_targets.push(target);
                },
                Err(e) => {
                    return Err(e);
                },
            }
            i = i + 1;
        }
        Ok(())
    }

    /// The render target made for the image view at `image_index`, if any.
    pub fn render_target(&self, image_index: usize) -> (target: Option<&VulkanRenderTarget>)
        ensures
            image_index < self.targets().len() ==> target == Some(&self.targets()[image_index as int]),
            image_index >= self.targets().len() ==> target is None,
    {
        if image_index < self.render_targets.len() {
            Some(&self.render_targets[image_index])
        } else {
            None
        }
    }

    /// The framebuffer of the render target at `index`, if there is one.
    pub fn frame_buffer(&self, index: usize) -> (framebuffer: Option<vk::Framebuffer>)
        ensures
            index < self.targets().len() ==> framebuffer == Some(self.targets()[index as int].framebuffer),
            index >= self.targets().len() ==> framebuffer is None,
    {
        if index < self.render_targets.len() {
            Some(self.render_targets[index].framebuffer)
        } else {
            None
        }
    }

    /// How many render targets the pass holds.
    pub fn render_target_count(&self) -> (count: usize)
        ensures
            count == self.targets().len(),
    {
        self.render_targets.len()
    }
}

} // verus!
