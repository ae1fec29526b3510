use vulkan_render::descriptors::{
    frame_descriptor_writes, frame_layout_description, max_sets, per_frame_descriptor_writes, sampler_count, uniform_buffer_count, DescriptorError,
    LayoutBinding, LayoutId, VulkanDescriptorSetLayoutBuilder, VulkanDescriptorWriter, VulkanDescriptors,
};
use vulkanalia::vk;
use vulkanalia::vk::Handle;

fn layout(raw: u64) -> vk::DescriptorSetLayout {
    vk::DescriptorSetLayout::from_raw(raw)
}

fn registry() -> VulkanDescriptors {
    VulkanDescriptors::new(vk::DescriptorPool::from_raw(99))
}

#[test]
fn pool_counts_follow_frames_passes_and_materials() {
    assert_eq!(max_sets(2, 1, 0), 3);
    assert_eq!(max_sets(3, 4, 5), 12);
    assert_eq!(uniform_buffer_count(2, 0), 8);
    assert_eq!(uniform_buffer_count(3, 5), 17);
    assert_eq!(sampler_count(1, 0), 2);
    assert_eq!(sampler_count(2, 3), 16);
}

#[test]
fn added_pass_layout_is_found_under_its_id() {
    let mut d = registry();
    let r = d.add_pass_layout(7, VulkanDescriptorSetLayoutBuilder::new(), |_b| Ok::<_, ()>(layout(11)));
    assert!(matches!(r, Ok(l) if l == layout(11)));
    assert_eq!(d.pass_layout(7), Some(layout(11)));
    assert_eq!(d.pass_layout(8), None);
    assert_eq!(d.material_layout(7), None);
    assert_eq!(d.pool(), vk::DescriptorPool::from_raw(99));
}

#[test]
fn added_material_layout_is_found_under_its_id() {
    let mut d = registry();
    let r = d.add_material_layout(3, VulkanDescriptorSetLayoutBuilder::new(), |_b| Ok::<_, ()>(layout(5)));
    assert!(r.is_ok());
    assert_eq!(d.material_layout(3), Some(layout(5)));
    assert_eq!(d.pass_layout(3), None);
}

#[test]
fn frame_layout_is_looked_up_among_pass_layouts() {
    let mut d = registry();
    let r = d.add_frame_layout(1, VulkanDescriptorSetLayoutBuilder::new(), |_b| Ok::<_, ()>(layout(21)));
    assert!(r.is_ok());
    assert_eq!(d.frame_layout(1), None);
    let r = d.add_pass_layout(1, VulkanDescriptorSetLayoutBuilder::new(), |_b| Ok::<_, ()>(layout(22)));
    assert!(r.is_ok());
    assert_eq!(d.frame_layout(1), Some(layout(22)));
}

#[test]
fn duplicate_id_is_refused_without_building() {
    let mut d = registry();
    let _ = d.add_pass_layout(4, VulkanDescriptorSetLayoutBuilder::new(), |_b| Ok::<_, ()>(layout(1)));
    let built = std::cell::Cell::new(false);
    let r = d.add_pass_layout(4, VulkanDescriptorSetLayoutBuilder::new(), |_b| {
        built.set(true);
        Ok::<_, ()>(layout(2))
    });
    assert!(matches!(r, Err(DescriptorError::LayoutAlreadyDefined(4))));
    assert!(!built.get());
    assert_eq!(d.pass_layout(4), Some(layout(1)));
}

#[test]
fn same_id_in_another_kind_is_allowed() {
    let mut d = registry();
    assert!(d.add_pass_layout(4, VulkanDescriptorSetLayoutBuilder::new(), |_b| Ok::<_, ()>(layout(1))).is_ok());
    assert!(d.add_material_layout(4, VulkanDescriptorSetLayoutBuilder::new(), |_b| Ok::<_, ()>(layout(2))).is_ok());
    assert!(d.add_frame_layout(4, VulkanDescriptorSetLayoutBuilder::new(), |_b| Ok::<_, ()>(layout(3))).is_ok());
    assert_eq!(d.pass_layout(4), Some(layout(1)));
    assert_eq!(d.material_layout(4), Some(layout(2)));
}

#[test]
fn failed_creation_leaves_the_registry_unchanged() {
    let mut d = registry();
    let r = d.add_pass_layout(9, VulkanDescriptorSetLayoutBuilder::new(), |_b| Err::<vk::DescriptorSetLayout, &str>("oom"));
    assert!(matches!(r, Err(DescriptorError::Vulkan("oom"))));
    assert_eq!(d.pass_layout(9), None);
}

#[test]
fn the_builder_reaches_the_creation_callback() {
    let mut d = registry();
    let description = VulkanDescriptorSetLayoutBuilder::new().binding(0, 6, 1, 1).binding(1, 1, 16, 2);
    let r = d.add_material_layout(2, description, |b| {
        assert_eq!(b.bindings().len(), 2);
        assert_eq!(b.bindings()[1], LayoutBinding { binding: 1, descriptor_type: 1, stage_flags: 16, count: 2 });
        Ok::<_, ()>(layout(8))
    });
    assert!(r.is_ok());
}

#[test]
fn all_layouts_lists_every_kind() {
    let mut d = registry();
    let _ = d.add_frame_layout(1, VulkanDescriptorSetLayoutBuilder::new(), |_b| Ok::<_, ()>(layout(1)));
    let _ = d.add_pass_layout(1, VulkanDescriptorSetLayoutBuilder::new(), |_b| Ok::<_, ()>(layout(2)));
    let _ = d.add_pass_layout(2, VulkanDescriptorSetLayoutBuilder::new(), |_b| Ok::<_, ()>(layout(3)));
    let _ = d.add_material_layout(1, VulkanDescriptorSetLayoutBuilder::new(), |_b| Ok::<_, ()>(layout(4)));
    let mut all: Vec<u64> = d.all_layouts().into_iter().map(|l| l.as_raw()).collect();
    all.sort();
    assert_eq!(all, vec![1, 2, 3, 4]);
    assert!(registry().all_layouts().is_empty());
}

#[test]
fn layout_builder_keeps_bindings_in_order() {
    let b = VulkanDescriptorSetLayoutBuilder::new().binding(3, 6, 16, 1).binding(0, 1, 1, 4);
    assert_eq!(
        b.bindings(),
        &[
            LayoutBinding { binding: 3, descriptor_type: 6, stage_flags: 16, count: 1 },
            LayoutBinding { binding: 0, descriptor_type: 1, stage_flags: 1, count: 4 },
        ]
    );
    assert!(VulkanDescriptorSetLayoutBuilder::new().bindings().is_empty());
}

#[test]
fn frame_layout_has_four_uniform_buffers() {
    let b = frame_layout_description();
    let uniform = vk::DescriptorType::UNIFORM_BUFFER.as_raw();
    let vf = (vk::ShaderStageFlags::VERTEX | vk::ShaderStageFlags::FRAGMENT).bits();
    let f = vk::ShaderStageFlags::FRAGMENT.bits();
    assert_eq!(
        b.bindings(),
        &[
            LayoutBinding { binding: 0, descriptor_type: uniform, stage_flags: vf, count: 1 },
            LayoutBinding { binding: 1, descriptor_type: uniform, stage_flags: vf, count: 1 },
            LayoutBinding { binding: 2, descriptor_type: uniform, stage_flags: f, count: 1 },
            LayoutBinding { binding: 3, descriptor_type: uniform, stage_flags: f, count: 1 },
        ]
    );
    assert_eq!(vf, 17);
}

#[test]
fn writer_keeps_writes_in_order_at_element_zero() {
    let set = vk::DescriptorSet::from_raw(5);
    let w = VulkanDescriptorWriter::new()
        .write_buffer(set, 2, 6, vk::Buffer::from_raw(10), 0, 64)
        .write_buffer(set, 3, 7, vk::Buffer::from_raw(11), 16, 32);
    let writes = w.writes();
    assert_eq!(writes.len(), 2);
    assert_eq!(writes[0].binding, 2);
    assert_eq!(writes[0].array_element, 0);
    assert_eq!(writes[0].buffer, vk::Buffer::from_raw(10));
    assert_eq!(writes[1].binding, 3);
    assert_eq!(writes[1].descriptor_type, 7);
    assert_eq!(writes[1].offset, 16);
    assert_eq!(writes[1].range, 32);
    assert_eq!(writes[1].array_element, 0);
    assert_eq!(writes[1].set, set);
}

#[test]
fn frame_writes_point_binding_zero_at_each_buffer() {
    let set = vk::DescriptorSet::from_raw(1);
    let buffers = [vk::Buffer::from_raw(10), vk::Buffer::from_raw(11), vk::Buffer::from_raw(12), vk::Buffer::from_raw(13)];
    let w = frame_descriptor_writes(set, buffers[0], buffers[1], buffers[2], buffers[3]);
    let writes = w.writes();
    assert_eq!(writes.len(), 4);
    for (i, write) in writes.iter().enumerate() {
        assert_eq!(write.set, set);
        assert_eq!(write.binding, 0);
        assert_eq!(write.array_element, 0);
        assert_eq!(write.descriptor_type, 6);
        assert_eq!(write.buffer, buffers[i]);
        assert_eq!(write.offset, i as u64);
        assert_eq!(write.range, vk::WHOLE_SIZE);
    }
}

#[test]
fn frame_main_layout_id() {
    assert_eq!(LayoutId::FrameMain.id(), 1);
    assert_eq!(LayoutId::FrameMain.name(), "FrameMain");
}

#[test]
fn each_frame_gets_its_own_set_and_buffers() {
    let sets: Vec<vk::DescriptorSet> = (0..3).map(|i| vk::DescriptorSet::from_raw(i + 1)).collect();
    let buffers = |base: u64| -> Vec<vk::Buffer> { (0..3).map(|i| vk::Buffer::from_raw(base + i)).collect() };
    let (t, v, m, a) = (buffers(10), buffers(20), buffers(30), buffers(40));
    let writers = per_frame_descriptor_writes(2, &sets, &t, &v, &m, &a);
    assert_eq!(writers.len(), 2);
    let second = writers[1].writes();
    assert_eq!(second.len(), 4);
    assert!(second.iter().all(|w| w.set == vk::DescriptorSet::from_raw(2)));
    let raw: Vec<u64> = second.iter().map(|w| w.buffer.as_raw()).collect();
    assert_eq!(raw, vec![11, 21, 31, 41]);
    assert!(per_frame_descriptor_writes(0, &[], &[], &[], &[], &[]).is_empty());
}

#[test]
fn destroying_descriptors_releases_the_pool_then_every_layout() {
    let mut d = registry();
    let _ = d.add_frame_layout(1, VulkanDescriptorSetLayoutBuilder::new(), |_b| Ok::<_, ()>(layout(1)));
    let _ = d.add_material_layout(1, VulkanDescriptorSetLayoutBuilder::new(), |_b| Ok::<_, ()>(layout(2)));
    let pools = std::cell::RefCell::new(Vec::new());
    let layouts = std::cell::RefCell::new(Vec::new());
    d.destroy(|p| pools.borrow_mut().push(p.as_raw()), |l| layouts.borrow_mut().push(l.as_raw()));
    assert_eq!(*pools.borrow(), vec![99]);
    let mut destroyed = layouts.borrow().clone();
    destroyed.sort();
    assert_eq!(destroyed, vec![1, 2]);
}
