use vulkan_render::render_pass::render_pass_description;
use vulkanalia::vk;

const B8G8R8A8_SRGB: i32 = 50;
const D32_SFLOAT: i32 = 126;

#[test]
fn color_attachment_is_cleared_stored_and_presented() {
    let description = render_pass_description(B8G8R8A8_SRGB, D32_SFLOAT);
    let color = description.color_attachment;
    assert_eq!(color.format, B8G8R8A8_SRGB);
    assert_eq!(color.samples, 1);
    assert_eq!(color.load_op, 1);
    assert_eq!(color.store_op, 0);
    assert_eq!(color.stencil_load_op, 2);
    assert_eq!(color.stencil_store_op, 1);
    assert_eq!(color.initial_layout, 0);
    assert_eq!(color.final_layout, 1000001002);
    assert_eq!(color.final_layout, vk::ImageLayout::PRESENT_SRC_KHR.as_raw());
}

#[test]
fn depth_attachment_is_cleared_and_not_kept() {
    let description = render_pass_description(B8G8R8A8_SRGB, D32_SFLOAT);
    let depth = description.depth_attachment;
    assert_eq!(depth.format, D32_SFLOAT);
    assert_eq!(depth.samples, 1);
    assert_eq!(depth.load_op, vk::AttachmentLoadOp::CLEAR.as_raw());
    assert_eq!(depth.store_op, vk::AttachmentStoreOp::DONT_CARE.as_raw());
    assert_eq!(depth.stencil_load_op, vk::AttachmentLoadOp::DONT_CARE.as_raw());
    assert_eq!(depth.stencil_store_op, vk::AttachmentStoreOp::DONT_CARE.as_raw());
    assert_eq!(depth.initial_layout, vk::ImageLayout::UNDEFINED.as_raw());
    assert_eq!(depth.final_layout, 3);
}

#[test]
fn subpass_references_color_then_depth() {
    let description = render_pass_description(B8G8R8A8_SRGB, D32_SFLOAT);
    assert_eq!(description.pipeline_bind_point, vk::PipelineBindPoint::GRAPHICS.as_raw());
    assert_eq!(description.color_reference.attachment, 0);
    assert_eq!(description.color_reference.layout, 2);
    assert_eq!(description.depth_reference.attachment, 1);
    assert_eq!(description.depth_reference.layout, 3);
}

#[test]
fn dependencies_enter_and_leave_the_subpass() {
    let description = render_pass_description(B8G8R8A8_SRGB, D32_SFLOAT);
    let start = description.dependency_start;
    assert_eq!(start.src_subpass, u32::MAX);
    assert_eq!(start.dst_subpass, 0);
    assert_eq!(start.src_stage_mask, 1024 | 256);
    assert_eq!(start.dst_stage_mask, 1024 | 256);
    assert_eq!(start.src_access_mask, 0);
    assert_eq!(start.dst_access_mask, 256 | 1024);

    let end = description.dependency_end;
    assert_eq!(end.src_subpass, 0);
    assert_eq!(end.dst_subpass, vk::SUBPASS_EXTERNAL);
    assert_eq!(end.src_stage_mask, 1024 | 512);
    assert_eq!(end.dst_stage_mask, vk::PipelineStageFlags::BOTTOM_OF_PIPE.bits());
    assert_eq!(end.src_access_mask, vk::AccessFlags::COLOR_ATTACHMENT_WRITE.bits());
    assert_eq!(end.dst_access_mask, 0);
}

#[test]
fn formats_are_carried_as_given() {
    let description = render_pass_description(44, 130);
    assert_eq!(description.color_attachment.format, 44);
    assert_eq!(description.depth_attachment.format, 130);
    let again = render_pass_description(44, 130);
    assert_eq!(description, again);
}
