use std::cell::RefCell;
use vulkan_render::render_pass::{VulkanImage, VulkanRenderPass, VulkanRenderTarget};
use vulkan_render::swapchain::Extent2D;
use vulkanalia::vk;
use vulkanalia::vk::Handle;

fn target_for(view: vk::ImageView) -> VulkanRenderTarget {
    VulkanRenderTarget {
        framebuffer: vk::Framebuffer::from_raw(view.as_raw() + 100),
        image_view: view,
        depth_image: VulkanImage { image: vk::Image::from_raw(7), view: vk::ImageView::from_raw(8), allocation: None },
        extent: Extent2D { width: 640, height: 480 },
    }
}

const EXTENT: Extent2D = Extent2D { width: 640, height: 480 };

fn depth_image(_format: i32, _extent: Extent2D) -> Result<VulkanImage, &'static str> {
    Ok(VulkanImage { image: vk::Image::from_raw(7), view: vk::ImageView::from_raw(8), allocation: None })
}

fn framebuffer(
    _pass: vk::RenderPass,
    view: vk::ImageView,
    _depth: vk::ImageView,
    _extent: Extent2D,
) -> Result<vk::Framebuffer, &'static str> {
    Ok(vk::Framebuffer::from_raw(view.as_raw() + 100))
}

fn recreate(pass: &mut VulkanRenderPass, raws: &[u64]) {
    let result = pass.recreate_render_targets(&views(raws), 126, EXTENT, &depth_image, &framebuffer, |_t| {});
    assert!(result.is_ok());
}

fn views(raws: &[u64]) -> Vec<vk::ImageView> {
    raws.iter().map(|r| vk::ImageView::from_raw(*r)).collect()
}

#[test]
fn one_target_per_image_view_in_order() {
    let mut pass = VulkanRenderPass::new(vk::RenderPass::from_raw(1));
    recreate(&mut pass, &[10, 11, 12]);
    assert_eq!(pass.render_target_count(), 3);
    for i in 0..3 {
        let t = pass.render_target(i).unwrap();
        assert_eq!(t.image_view, vk::ImageView::from_raw(10 + i as u64));
        assert_eq!(t.framebuffer, vk::Framebuffer::from_raw(110 + i as u64));
    }
    assert!(pass.render_target(3).is_none());
    assert_eq!(pass.handle, vk::RenderPass::from_raw(1));
}

#[test]
fn recreation_destroys_the_old_targets_first() {
    let mut pass = VulkanRenderPass::new(vk::RenderPass::from_raw(1));
    recreate(&mut pass, &[10, 11]);
    let destroyed = RefCell::new(Vec::new());
    let result = pass.recreate_render_targets(
        &views(&[20]),
        126,
        EXTENT,
        &depth_image,
        &framebuffer,
        |t| destroyed.borrow_mut().push(t.image_view.as_raw()),
    );
    assert!(result.is_ok());
    assert_eq!(*destroyed.borrow(), vec![10, 11]);
    assert_eq!(pass.render_target_count(), 1);
    assert_eq!(pass.render_target(0).unwrap().image_view, vk::ImageView::from_raw(20));
}

#[test]
fn creation_stops_at_the_first_failure() {
    let mut pass = VulkanRenderPass::new(vk::RenderPass::from_raw(1));
    let attempts = RefCell::new(0);
    let failing_framebuffer = |p: vk::RenderPass, v: vk::ImageView, d: vk::ImageView, e: Extent2D| {
        *attempts.borrow_mut() += 1;
        if v.as_raw() == 11 { Err("no memory") } else { framebuffer(p, v, d, e) }
    };
    let result = pass.recreate_render_targets(&views(&[10, 11, 12]), 126, EXTENT, &depth_image, &failing_framebuffer, |_t| {});
    assert_eq!(result, Err("no memory"));
    assert_eq!(*attempts.borrow(), 2);
    assert_eq!(pass.render_target_count(), 1);
    assert_eq!(pass.render_target(0).unwrap().image_view, vk::ImageView::from_raw(10));
}

#[test]
fn destroying_targets_empties_the_pass() {
    let mut pass = VulkanRenderPass::new(vk::RenderPass::from_raw(1));
    recreate(&mut pass, &[1, 2, 3]);
    let seen = RefCell::new(Vec::new());
    pass.destroy_render_targets(|t| seen.borrow_mut().push(t.image_view.as_raw()));
    assert_eq!(*seen.borrow(), vec![1, 2, 3]);
    assert_eq!(pass.render_target_count(), 0);
    assert!(pass.render_target(0).is_none());
}

#[test]
fn image_without_allocation_only_destroys_its_view() {
    let mut image = VulkanImage { image: vk::Image::from_raw(3), view: vk::ImageView::from_raw(4), allocation: None };
    let views_destroyed = RefCell::new(Vec::new());
    let images_destroyed = RefCell::new(0);
    image.destroy(|v| views_destroyed.borrow_mut().push(v.as_raw()), |_i, _a| *images_destroyed.borrow_mut() += 1);
    assert_eq!(*views_destroyed.borrow(), vec![4]);
    assert_eq!(*images_destroyed.borrow(), 0);
    assert!(image.allocation.is_none());
}

#[test]
fn frame_buffer_of_each_target() {
    let mut pass = VulkanRenderPass::new(vk::RenderPass::from_raw(1));
    assert_eq!(pass.frame_buffer(0), None);
    recreate(&mut pass, &[4, 5]);
    assert_eq!(pass.frame_buffer(1), Some(vk::Framebuffer::from_raw(105)));
    assert_eq!(pass.frame_buffer(2), None);
}

#[test]
fn destroying_a_target_releases_its_framebuffer_and_depth_view() {
    let mut target = target_for(vk::ImageView::from_raw(3));
    let framebuffers = RefCell::new(Vec::new());
    let image_views = RefCell::new(Vec::new());
    target.destroy(
        |f| framebuffers.borrow_mut().push(f.as_raw()),
        |v| image_views.borrow_mut().push(v.as_raw()),
        |_i, _a| panic!("no allocation to free"),
    );
    assert_eq!(*framebuffers.borrow(), vec![103]);
    assert_eq!(*image_views.borrow(), vec![8]);
    assert!(target.depth_image.allocation.is_none());
}

#[test]
fn destroying_the_pass_releases_targets_then_the_pass() {
    let mut pass = VulkanRenderPass::new(vk::RenderPass::from_raw(42));
    recreate(&mut pass, &[1, 2]);
    let order = RefCell::new(Vec::new());
    pass.destroy(|t| order.borrow_mut().push(t.image_view.as_raw()), |p| order.borrow_mut().push(p.as_raw()));
    assert_eq!(*order.borrow(), vec![1, 2, 42]);
    assert_eq!(pass.render_target_count(), 0);
}

#[test]
fn targets_hold_their_view_extent_and_depth_image() {
    let mut pass = VulkanRenderPass::new(vk::RenderPass::from_raw(9));
    let seen = RefCell::new(Vec::new());
    let recording_framebuffer = |p: vk::RenderPass, v: vk::ImageView, d: vk::ImageView, e: Extent2D| {
        seen.borrow_mut().push((p.as_raw(), v.as_raw(), d.as_raw(), e));
        framebuffer(p, v, d, e)
    };
    let formats = RefCell::new(Vec::new());
    let recording_depth = |f: i32, e: Extent2D| {
        formats.borrow_mut().push((f, e));
        depth_image(f, e)
    };
    let extent = Extent2D { width: 800, height: 600 };
    let result = pass.recreate_render_targets(&views(&[3, 4]), 126, extent, &recording_depth, &recording_framebuffer, |_t| {});
    assert!(result.is_ok());
    assert_eq!(*seen.borrow(), vec![(9, 3, 8, extent), (9, 4, 8, extent)]);
    assert_eq!(*formats.borrow(), vec![(126, extent), (126, extent)]);
    let t = pass.render_target(1).unwrap();
    assert_eq!(t.image_view, vk::ImageView::from_raw(4));
    assert_eq!(t.extent, extent);
    assert_eq!(t.depth_image.view, vk::ImageView::from_raw(8));
}

#[test]
fn a_target_is_not_made_when_its_depth_image_fails() {
    let calls = RefCell::new(0);
    let counting_framebuffer = |p: vk::RenderPass, v: vk::ImageView, d: vk::ImageView, e: Extent2D| {
        *calls.borrow_mut() += 1;
        framebuffer(p, v, d, e)
    };
    let no_depth = |_f: i32, _e: Extent2D| Err::<VulkanImage, &str>("no depth image");
    let result = VulkanRenderTarget::new(vk::RenderPass::from_raw(1), vk::ImageView::from_raw(2), 126, EXTENT, &no_depth, &counting_framebuffer);
    assert!(matches!(result, Err("no depth image")));
    assert_eq!(*calls.borrow(), 0);
}
