//! Descriptor pool sizing, the registry of descriptor set layouts by kind and
//! id, and the builders that describe layouts and descriptor writes.

use std::collections::HashMap;
use vstd::prelude::*;
use vulkanalia::vk;

use crate::codes::{
    descriptor_type_uniform_buffer, descriptor_type_uniform_buffer_code, stage_fragment, stage_fragment_bits,
    stage_vertex, stage_vertex_bits, whole_size,
};

verus! {

broadcast use vstd::std_specs::hash::group_hash_axioms;

/// How many descriptor sets a pool for the given numbers of frames in flight,
/// render passes and materials must hold: one per frame, pass and material.
pub open spec fn spec_max_sets(frames_in_flight: u32, num_passes: u32, num_materials: u32) -> int {
    frames_in_flight + num_passes + num_materials
}

/// Uniform buffer descriptors a pool needs before any headroom: four per
/// frame in flight and one per material.
pub open spec fn spec_uniform_buffer_count(frames_in_flight: u32, num_materials: u32) -> int {
    frames_in_flight * 4 + num_materials
}

/// Combined image sampler descriptors a pool needs before any headroom: two
/// per render pass and four per material.
pub open spec fn spec_sampler_count(num_passes: u32, num_materials: u32) -> int {
    num_passes * 2 + num_materials * 4
}

/// The number of descriptor sets a pool must hold.
pub fn max_sets(frames_in_flight: u32, num_passes: u32, num_materials: u32) -> (sets: u32)
    requires
        spec_max_sets(frames_in_flight, num_passes, num_materials) <= u32::MAX,
    ensures
        sets == spec_max_sets(frames_in_flight, num_passes, num_materials),
{
    frames_in_flight + num_passes + num_materials
}

/// The number of uniform buffer descriptors a pool needs before headroom.
pub fn uniform_buffer_count(frames_in_flight: u32, num_materials: u32) -> (count: u32)
    requires
        spec_uniform_buffer_count(frames_in_flight, num_materials) <= u32::MAX,
    ensures
        count == spec_uniform_buffer_count(frames_in_flight, num_materials),
{
    frames_in_flight * 4 + num_materials
}

/// The number of combined image sampler descriptors a pool needs before headroom.
pub fn sampler_count(num_passes: u32, num_materials: u32) -> (count: u32)
    requires
        spec_sampler_count(num_passes, num_materials) <= u32::MAX,
    ensures
        count == spec_sampler_count(num_passes, num_materials),
{
    num_passes * 2 + num_materials * 4
}

/// One binding of a descriptor set layout.
#[derive(Clone, Copy, Debug, PartialEq, Eq, Structural)]
pub struct LayoutBinding {
    pub binding: u32,
    /// Raw code of the descriptor type.
    pub descriptor_type: i32,
    /// Raw bits of the shader stages that see the binding.
    pub stage_flags: u32,
    pub count: u32,
}

/// Describes a descriptor set layout binding by binding.
pub struct VulkanDescriptorSetLayoutBuilder {
    bindings: Vec<LayoutBinding>,
}

impl View for VulkanDescriptorSetLayoutBuilder {
    type V = Seq<LayoutBinding>;

    closed spec fn view(&self) -> Seq<LayoutBinding> {
        self.bindings@
    }
}

impl VulkanDescriptorSetLayoutBuilder {
    /// A layout with no bindings.
    pub fn new() -> (builder: Self)
        ensures
            builder@ == Seq::<LayoutBinding>::empty(),
    {
        VulkanDescriptorSetLayoutBuilder { bindings: Vec::new() }
    }

    /// Adds a binding after those already described.
    pub fn binding(self, binding_index: u32, descriptor_type: i32, stage_flags: u32, count: u32) -> (builder: Self)
        ensures
            builder@ == self@.push(
                LayoutBinding { binding: binding_index, descriptor_type, stage_flags, count },
            ),
    {
        let mut builder = self;
        builder.bindings.push(LayoutBinding { binding: binding_index, descriptor_type, stage_flags, count });
        builder
    }

    /// The bindings, in the order they were added.
    pub fn bindings(&self) -> (bindings: &[LayoutBinding])
        ensures
            bindings@ == self@,
    {
        self.bindings.as_slice()
    }
}

/// Why a descriptor set layout could not be added.
#[derive(Debug)]
pub enum DescriptorError<E> {
    /// A layout of the same kind with this id is already defined.
    LayoutAlreadyDefined(u32),
    /// Creating the layout failed.
    Vulkan(E),
}

/// A descriptor pool and the descriptor set layouts made for frames, render
/// passes and materials, each kind keyed by its own ids.
pub struct VulkanDescriptors {
    pool: vk::DescriptorPool,
    frame_layouts: HashMap<u32, vk::DescriptorSetLayout>,
    pass_layouts: HashMap<u32, vk::DescriptorSetLayout>,
    material_layouts: HashMap<u32, vk::DescriptorSetLayout>,
}

/// What adding a layout did to the map of its kind: an id already there is
/// refused and leaves the map as it was; otherwise the map gains the layout
/// that was created, or stays as it was when creation failed.
pub open spec fn layout_added<E>(
    before: Map<u32, vk::DescriptorSetLayout>,
    after: Map<u32, vk::DescriptorSetLayout>,
    id: u32,
    result: Result<vk::DescriptorSetLayout, DescriptorError<E>>,
) -> bool {
    if before.contains_key(id) {
        &&& result == Err::<vk::DescriptorSetLayout, DescriptorError<E>>(DescriptorError::LayoutAlreadyDefined(id))
        &&& after == before
    } else {
        match result {
            Ok(layout) => after == before.insert(id, layout),
            Err(DescriptorError::Vulkan(_)) => after == before,
            Err(DescriptorError::LayoutAlreadyDefined(_)) => false,
        }
    }
}

/// The layout a map holds under `id`, if any.
pub open spec fn lookup_layout(layouts: Map<u32, vk::DescriptorSetLayout>, id: u32) -> Option<vk::DescriptorSetLayout> {
    if layouts.contains_key(id) {
        Some(layouts[id])
    } else {
        None
    }
}

/// A layout that was added is what a lookup of its id then gives, and the
/// other ids of its kind keep what they had.
pub proof fn lemma_lookup_after_add<E>(
    before: Map<u32, vk::DescriptorSetLayout>,
    after: Map<u32, vk::DescriptorSetLayout>,
    id: u32,
    layout: vk::DescriptorSetLayout,
)
    requires
        layout_added::<E>(before, after, id, Ok(layout)),
    ensures
        lookup_layout(after, id) == Some(layout),
        !before.contains_key(id),
        forall|other: u32| other != id ==> lookup_layout(after, other) == lookup_layout(before, other),
{
}

/// Adding under an id that its kind already holds is refused and changes
/// nothing, whatever the creation callback would have made.
pub proof fn lemma_duplicate_id_refused<E>(
    before: Map<u32, vk::DescriptorSetLayout>,
    after: Map<u32, vk::DescriptorSetLayout>,
    id: u32,
    result: Result<vk::DescriptorSetLayout, DescriptorError<E>>,
)
    requires
        before.contains_key(id),
        layout_added::<E>(before, after, id, result),
    ensures
        result == Err::<vk::DescriptorSetLayout, DescriptorError<E>>(DescriptorError::LayoutAlreadyDefined(id)),
        after == before,
        forall|other: u32| lookup_layout(after, other) == lookup_layout(before, other),
{
}

/// A failed creation leaves the map of its kind as it was.
pub proof fn lemma_failed_creation_changes_nothing<E>(
    before: Map<u32, vk::DescriptorSetLayout>,
    after: Map<u32, vk::DescriptorSetLayout>,
    id: u32,
    error: E,
)
    requires
        layout_added::<E>(before, after, id, Err(DescriptorError::Vulkan(error))),
    ensures
        after == before,
{
}

/// The outcome of an add agrees with what the creation callback returned.
pub open spec fn layout_created_by<B, E>(
    build: B,
    builder: VulkanDescriptorSetLayoutBuilder,
    result: Result<vk::DescriptorSetLayout, DescriptorError<E>>,
) -> bool
    where B: FnOnce(VulkanDescriptorSetLayoutBuilder) -> Result<vk::DescriptorSetLayout, E>
{
    match result {
        Ok(layout) => call_ensures(build, (builder,), Ok::<vk::DescriptorSetLayout, E>(layout)),
        Err(DescriptorError::Vulkan(e)) => call_ensures(build, (builder,), Err::<vk::DescriptorSetLayout, E>(e)),
        Err(DescriptorError::LayoutAlreadyDefined(_)) => true,
    }
}

impl VulkanDescriptors {
    /// The descriptor pool.
    pub closed spec fn descriptor_pool(&self) -> vk::DescriptorPool {
        self.pool
    }

    /// Frame layouts by frame id.
    pub closed spec fn frame_layouts(&self) -> Map<u32, vk::DescriptorSetLayout> {
        self.frame_layouts@
    }

    /// Render pass layouts by pass id.
    pub closed spec fn pass_layouts(&self) -> Map<u32, vk::DescriptorSetLayout> {
        self.pass_layouts@
    }

    /// Material layouts by material id.
    pub closed spec fn material_layouts(&self) -> Map<u32, vk::DescriptorSetLayout> {
        self.material_layouts@
    }

    /// A registry over `pool` with no layouts yet.
    pub fn new(pool: vk::DescriptorPool) -> (descriptors: Self)
        ensures
            descriptors.descriptor_pool() == pool,
            descriptors.frame_layouts() == Map::<u32, vk::DescriptorSetLayout>::empty(),
            descriptors.pass_layouts() == Map::<u32, vk::DescriptorSetLayout>::empty(),
            descriptors.material_layouts() == Map::<u32, vk::DescriptorSetLayout>::empty(),
    {
        VulkanDescriptors {
            pool,
            frame_layouts: HashMap::new(),
            pass_layouts: HashMap::new(),
            material_layouts: HashMap::new(),
        }
    }

    /// The descriptor pool.
    pub fn pool(&self) -> (pool: vk::DescriptorPool)
        ensures
            pool == self.descriptor_pool(),
    {
        self.pool
    }

    fn add_layout<B, E>(
        collection: &mut HashMap<u32, vk::DescriptorSetLayout>,
        id: u32,
        layout: VulkanDescriptorSetLayoutBuilder,
        build: B,
    ) -> (result: Result<vk::DescriptorSetLayout, DescriptorError<E>>)
        where B: FnOnce(VulkanDescriptorSetLayoutBuilder) -> Result<vk::DescriptorSetLayout, E>
        requires
            call_requires(build, (layout,)),
        ensures
            layout_added(old(collection)@, final(collection)@, id, result),
            layout_created_by(build, layout, result),
    {
        if collection.contains_key(&id) {
            return Err(DescriptorError::LayoutAlreadyDefined(id));
        }
        match build(layout) {
            Ok(new_layout) => {
                collection.insert(id, new_layout);
                Ok(new_layout)
            },
            Err(e) => Err(DescriptorError::Vulkan(e)),
        }
    }

    /// Adds the layout for frame `frame_id`, created by `build` from its
    /// description, unless a frame layout with that id is already defined.
    pub fn add_frame_layout<B, E>(
        &mut self,
        frame_id: u32,
        layout: VulkanDescriptorSetLayoutBuilder,
        build: B,
    ) -> (result: Result<vk::DescriptorSetLayout, DescriptorError<E>>)
        where B: FnOnce(VulkanDescriptorSetLayoutBuilder) -> Result<vk::DescriptorSetLayout, E>
        requires
            call_requires(build, (layout,)),
        ensures
            layout_added(old(self).frame_layouts(), final(self).frame_layouts(), frame_id, result),
            layout_created_by(build, layout, result),
            final(self).pass_layouts() == old(self).pass_layouts(),
            final(self).material_layouts() == old(self).material_layouts(),
            final(self).descriptor_pool() == old(self).descriptor_pool(),
    {
        Self::add_layout(&mut self.frame_layouts, frame_id, layout, build)
    }

    /// The layout registered for frame id `frame_id`. It is looked up among
    /// the render pass layouts, so a frame layout added under an id is not
    /// what this returns.
    pub fn frame_layout(&self, frame_id: u32) -> (layout: Option<vk::DescriptorSetLayout>)
        ensures
            layout == lookup_layout(self.pass_layouts(), frame_id),
    {
        match self.pass_layouts.get(&frame_id) {
            Some(layout) => Some(*layout),
            None => None,
        }
    }

    /// Adds the layout for render pass `pass_id`, created by `build` from its
    /// description, unless a pass layout with that id is already defined.
    pub fn add_pass_layout<B, E>(
        &mut self,
        pass_id: u32,
        layout: VulkanDescriptorSetLayoutBuilder,
        build: B,
    ) -> (result: Result<vk::DescriptorSetLayout, DescriptorError<E>>)
        where B: FnOnce(VulkanDescriptorSetLayoutBuilder) -> Result<vk::DescriptorSetLayout, E>
        requires
            call_requires(build, (layout,)),
        ensures
            layout_added(old(self).pass_layouts(), final(self).pass_layouts(), pass_id, result),
            layout_created_by(build, layout, result),
            final(self).frame_layouts() == old(self).frame_layouts(),
            final(self).material_layouts() == old(self).material_layouts(),
            final(self).descriptor_pool() == old(self).descriptor_pool(),
    {
        Self::add_layout(&mut self.pass_layouts, pass_id, layout, build)
    }

    /// The layout of render pass `pass_id`, if one was added.
    pub fn pass_layout(&self, pass_id: u32) -> (layout: Option<vk::DescriptorSetLayout>)
        ensures
            layout == lookup_layout(self.pass_layouts(), pass_id),
    {
        match self.pass_layouts.get(&pass_id) {
            Some(layout) => Some(*layout),
            None => None,
        }
    }

    /// Adds the layout for material `material_id`, created by `build` from its
    /// description, unless a material layout with that id is already defined.
    pub fn add_material_layout<B, E>(
        &mut self,
        material_id: u32,
        layout: VulkanDescriptorSetLayoutBuilder,
        build: B,
    ) -> (result: Result<vk::DescriptorSetLayout, DescriptorError<E>>)
        where B: FnOnce(VulkanDescriptorSetLayoutBuilder) -> Result<vk::DescriptorSetLayout, E>
        requires
            call_requires(build, (layout,)),
        ensures
            layout_added(old(self).material_layouts(), final(self).material_layouts(), material_id, result),
            layout_created_by(build, layout, result),
            final(self).frame_layouts() == old(self).frame_layouts(),
            final(self).pass_layouts() == old(self).pass_layouts(),
            final(self).descriptor_pool() == old(self).descriptor_pool(),
    {
        Self::add_layout(&mut self.material_layouts, material_id, layout, build)
    }

    /// The layout of material `material_id`, if one was added.
    pub fn material_layout(&self, material_id: u32) -> (layout: Option<vk::DescriptorSetLayout>)
        ensures
            layout == lookup_layout(self.material_layouts(), material_id),
    {
        match self.material_layouts.get(&material_id) {
            Some(layout) => Some(*layout),

            None => None,
        }
    }
    /// Releases the pool, then every layout of every kind.
    pub fn destroy<P, L>(self, destroy_pool: P, destroy_layout: L)
        where P: FnOnce(vk::DescriptorPool), L: Fn(vk::DescriptorSetLayout)
        requires
            call_requires(destroy_pool, (self.descriptor_pool(),)),
            forall|l: vk::DescriptorSetLayout| call_requires(destroy_layout, (l,)),
        ensures
            call_ensures(destroy_pool, (self.descriptor_pool(),), ()),
            forall|l: vk::DescriptorSetLayout|
                (self.frame_layouts().values().contains(l) || self.pass_layouts().values().contains(l)
                    || self.material_layouts().values().contains(l)) ==> call_ensures(destroy_layout, (l,), ()),
    {
        destroy_pool(self.pool);
        let layouts = self.all_layouts();
        let mut i: usize = 0;
        while i < layouts.len()
            invariant
                forall|l: vk::DescriptorSetLayout| call_requires(destroy_layout, (l,)),
                0 <= i <= layouts@.len(),
                forall|j: int| 0 <= j < i ==> call_ensures(destroy_layout, (#[trigger] layouts@[j],), ()),
            decreases layouts@.len() - i,
        {
            destroy_layout(layouts[i]);
            i = i + 1;
        }
        assert forall|l: vk::DescriptorSetLayout|
            (self.frame_layouts().values().contains(l) || self.pass_layouts().values().contains(l)
                || self.material_layouts().values().contains(l)) implies call_ensures(destroy_layout, (l,), ()) by {
            assert(layouts@.to_set().contains(l));
            let j = choose|j: int| 0 <= j < layouts@.len() && layouts@[j] == l;
            assert(call_ensures(destroy_layout, (layouts@[j],), ()));
        }
    }

    /// Every layout in the registry, of all three kinds, so that they can be
    /// destroyed together with the pool.
    pub fn all_layouts(&self) -> (layouts: Vec<vk::DescriptorSetLayout>)
        ensures
            layouts@.to_set() == self.frame_layouts().values() + self.pass_layouts().values()
                + self.material_layouts().values(),
            layouts@.len() == self.frame_layouts().dom().len() + self.pass_layouts().dom().len()
                + self.material_layouts().dom().len(),
    {
        let mut layouts: Vec<vk::DescriptorSetLayout> = Vec::new();
        Self::collect_values(&self.frame_layouts, &mut layouts);
        Self::collect_values(&self.pass_layouts, &mut layouts);
        Self::collect_values(&self.material_layouts, &mut layouts);
        layouts
    }

    fn collect_values(
        collection: &HashMap<u32, vk::DescriptorSetLayout>,
        layouts: &mut Vec<vk::DescriptorSetLayout>,
    )
        ensures
            final(layouts)@.to_set() == old(layouts)@.to_set() + collection@.values(),
            final(layouts)@.len() == old(layouts)@.len() + collection@.dom().len(),
    {
        let ghost start = layouts@;
        proof {
            vstd::seq_lib::seq_to_set_distributes_over_add(start, Seq::<vk::DescriptorSetLayout>::empty());
            assert(start + Seq::<vk::DescriptorSetLayout>::empty() =~= start);
        }
        for layout in it: collection.values()
            invariant
                it.seq().unref().to_set() == collection@.values(),
                it.seq().len() == collection@.dom().len(),
                layouts@ == start + it.seq().take(it.index()).unref(),
                it.index() == it.seq().len() ==> layouts@.to_set() == start.to_set() + collection@.values(),
        {
            layouts.push(*layout);
            proof {
                assert(it.seq().take(it.index() + 1).unref()
                    =~= it.seq().take(it.index()).unref().push(*it.seq()[it.index()]));
                assert(it.index() + 1 == it.seq().len() ==> it.seq().take(it.index() + 1) =~= it.seq());
                vstd::seq_lib::seq_to_set_distributes_over_add(start, it.seq().unref());
            }
        }
    }
}

/// One pending descriptor write: a buffer range bound to a binding of a set.
#[derive(Clone, Copy)]
pub struct DescriptorWrite {
    pub set: vk::DescriptorSet,
    pub binding: u32,
    pub array_element: u32,
    /// Raw code of the descriptor type.
    pub descriptor_type: i32,
    pub buffer: vk::Buffer,
    pub offset: u64,
    pub range: u64,
}

/// Collects descriptor writes to be applied together.
pub struct VulkanDescriptorWriter {
    pending_writes: Vec<DescriptorWrite>,
}

impl View for VulkanDescriptorWriter {
    type V = Seq<DescriptorWrite>;

    closed spec fn view(&self) -> Seq<DescriptorWrite> {
        self.pending_writes@
    }
}

impl VulkanDescriptorWriter {
    /// A writer with nothing to write.
    pub fn new() -> (writer: Self)
        ensures
            writer@ == Seq::<DescriptorWrite>::empty(),
    {
        VulkanDescriptorWriter { pending_writes: Vec::new() }
    }

    /// Adds a write of the buffer range to element 0 of `binding` in `set`,
    /// after the writes already collected.
    pub fn write_buffer(
        self,
        set: vk::DescriptorSet,
        binding: u32,
        descriptor_type: i32,
        buffer: vk::Buffer,
        offset: u64,
        range: u64,
    ) -> (writer: Self)
        ensures
            writer@ == self@.push(
                DescriptorWrite { set, binding, array_element: 0, descriptor_type, buffer, offset, range },
            ),
    {
        let mut writer = self;
        writer.pending_writes.push(
            DescriptorWrite { set, binding, array_element: 0, descriptor_type, buffer, offset, range },
        );
        writer
    }

    /// The writes, in the order they were added.
    pub fn writes(&self) -> (writes: &[DescriptorWrite])
        ensures
            writes@ == self@,
    {
        self.pending_writes.as_slice()
    }
}

/// Stage bits of shaders that see a uniform in both the vertex and the
/// fragment stage.
pub open spec fn vertex_and_fragment_bits() -> u32 {
    stage_vertex_bits() | stage_fragment_bits()
}

/// The per-frame layout: four single uniform buffers at bindings 0 to 3, the
/// first two seen by the vertex and fragment stages, the last two by the
/// fragment stage only.
pub open spec fn spec_frame_layout_bindings() -> Seq<LayoutBinding> {
    seq![
        LayoutBinding { binding: 0, descriptor_type: descriptor_type_uniform_buffer_code(), stage_flags: vertex_and_fragment_bits(), count: 1 },
        LayoutBinding { binding: 1, descriptor_type: descriptor_type_uniform_buffer_code(), stage_flags: vertex_and_fragment_bits(), count: 1 },
        LayoutBinding { binding: 2, descriptor_type: descriptor_type_uniform_buffer_code(), stage_flags: stage_fragment_bits(), count: 1 },
        LayoutBinding { binding: 3, descriptor_type: descriptor_type_uniform_buffer_code(), stage_flags: stage_fragment_bits(), count: 1 },
    ]
}

/// Describes the layout of the per-frame descriptor set.
pub fn frame_layout_description() -> (builder: VulkanDescriptorSetLayoutBuilder)
    ensures
        builder@ == spec_frame_layout_bindings(),
{
    let uniform = descriptor_type_uniform_buffer();
    let vertex_and_fragment = stage_vertex() | stage_fragment();
    let fragment = stage_fragment();
    let builder = VulkanDescriptorSetLayoutBuilder::new()
        .binding(0, uniform, vertex_and_fragment, 1)
        .binding(1, uniform, vertex_and_fragment, 1)
        .binding(2, uniform, fragment, 1)
        .binding(3, uniform, fragment, 1);
    assert(builder@ =~= spec_frame_layout_bindings());
    builder
}

/// The writes that point a frame's descriptor set at its four uniform
/// buffers: every write goes to binding 0, as a uniform buffer covering the
/// whole buffer, with offsets 0, 1, 2 and 3 in the order of the buffers.
pub open spec fn spec_frame_descriptor_writes(
    set: vk::DescriptorSet,
    buffers: Seq<vk::Buffer>,
) -> Seq<DescriptorWrite> {
    Seq::new(4, |i: int| DescriptorWrite {
        set,
        binding: 0,
        array_element: 0,
        descriptor_type: descriptor_type_uniform_buffer_code(),
        buffer: buffers[i],
        offset: i as u64,
        range: u64::MAX,
    })
}

/// Collects the writes for one frame's descriptor set, whose uniform buffers
/// hold, in this order, the transformation, the view state, the scattering
/// medium and the atmosphere sample data.
pub fn frame_descriptor_writes(
    set: vk::DescriptorSet,
    transform_buffer: vk::Buffer,
    view_buffer: vk::Buffer,
    medium_buffer: vk::Buffer,
    atmosphere_buffer: vk::Buffer,
) -> (writer: VulkanDescriptorWriter)
    ensures
        writer@ == spec_frame_descriptor_writes(set, seq![transform_buffer, view_buffer, medium_buffer, atmosphere_buffer]),
{
    let uniform = descriptor_type_uniform_buffer();
    let whole = whole_size();
    let writer = VulkanDescriptorWriter::new()
        .write_buffer(set, 0, uniform, transform_buffer, 0, whole)
        .write_buffer(set, 0, uniform, view_buffer, 1, whole)
        .write_buffer(set, 0, uniform, medium_buffer, 2, whole)
        .write_buffer(set, 0, uniform, atmosphere_buffer, 3, whole);
    assert(writer@ =~= spec_frame_descriptor_writes(set, seq![transform_buffer, view_buffer, medium_buffer, atmosphere_buffer]));
    writer
}

/// The writes for every frame in flight: frame `i` points set `i` at the
/// `i`-th buffer of each of the four kinds of uniform buffers.
pub fn per_frame_descriptor_writes(
    frames_in_flight: usize,
    sets: &[vk::DescriptorSet],
    transform_buffers: &[vk::Buffer],
    view_buffers: &[vk::Buffer],
    medium_buffers: &[vk::Buffer],
    atmosphere_buffers: &[vk::Buffer],
) -> (writers: Vec<VulkanDescriptorWriter>)
    requires
        frames_in_flight <= sets@.len(),
        frames_in_flight <= transform_buffers@.len(),
        frames_in_flight <= view_buffers@.len(),
        frames_in_flight <= medium_buffers@.len(),
        frames_in_flight <= atmosphere_buffers@.len(),
    ensures
        writers@.len() == frames_in_flight,
        forall|i: int| 0 <= i < frames_in_flight ==> #[trigger] writers@[i]@ == spec_frame_descriptor_writes(
            sets@[i],
            seq![transform_buffers@[i], view_buffers@[i], medium_buffers@[i], atmosphere_buffers@[i]],
        ),
{
    let mut writers: Vec<VulkanDescriptorWriter> = Vec::new();
    let mut i: usize = 0;
    while i < frames_in_flight
        invariant
            i <= frames_in_flight,
            frames_in_flight <= sets@.len(),
            frames_in_flight <= transform_buffers@.len(),
            frames_in_flight <= view_buffers@.len(),
            frames_in_flight <= medium_buffers@.len(),
            frames_in_flight <= atmosphere_buffers@.len(),
            writers@.len() == i,
            forall|j: int| 0 <= j < i ==> #[trigger] writers@[j]@ == spec_frame_descriptor_writes(
                sets@[j],
                seq![transform_buffers@[j], view_buffers@[j], medium_buffers@[j], atmosphere_buffers@[j]],
            ),
        decreases frames_in_flight - i,
    {
        let writer = frame_descriptor_writes(sets[i], transform_buffers[i], view_buffers[i], medium_buffers[i], atmosphere_buffers[i]);
        writers.push(writer);
        i = i + 1;
    }
    writers
}

/// The ids under which the renderer registers its descriptor set layouts.
#[derive(Debug, Clone, Copy, PartialEq, Eq, Structural)]
pub enum LayoutId {
    /// The layout of the per-frame descriptor set.
    FrameMain,
}

impl LayoutId {
    /// The numeric id.
    pub fn id(&self) -> (id: u32)
        ensures
            *self == LayoutId::FrameMain ==> id == 1,
    {
        match self {
            LayoutId::FrameMain => 1,
        }
    }

    /// The id's name, as it appears in messages.
    pub fn name(&self) -> (name: &'static str)
        ensures
            *self == LayoutId::FrameMain ==> name@ == "FrameMain"@,
    {
        match self {
            LayoutId::FrameMain => "FrameMain",
        }
    }
}

} // verus!
