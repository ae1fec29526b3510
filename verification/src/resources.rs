//! Buffers made by the allocator, and the sizes of the buffers that data is
//! uploaded into.

use vstd::prelude::*;
use vulkanalia::vk;
use vulkanalia_vma::Allocation;

verus! {

/// The size in bytes of a buffer that holds all of `data`: the size of one
/// element times the number of elements.
pub fn upload_size<T>(data: &[T]) -> (size: u64)
    requires
        vstd::layout::size_of::<T>() * data@.len() <= usize::MAX,
    ensures
        size == vstd::layout::size_of::<T>() * data@.len(),
{
    let element_size = core::mem::size_of::<T>();
    let bytes = element_size * data.len();
    bytes as u64
}

/// A buffer with the allocation that backs it.
pub struct AllocatedBuffer {
    pub handle: vk::Buffer,
    pub allocation: Allocation,
    pub size: u64,
}

/// The vertex and index buffers of the one mesh the renderer draws, until
/// they are destroyed.
pub struct TempBuffers {
    pub planet_vertex_buffer: Option<AllocatedBuffer>,
    pub planet_index_buffer: Option<AllocatedBuffer>,
}

impl TempBuffers {
    /// Hands each buffer still held, vertex buffer first, to `destroy_buffer`
    /// and leaves none, so that a second call destroys nothing.
    pub fn destroy<D>(&mut self, destroy_buffer: D)
        where D: Fn(AllocatedBuffer)
        requires
            forall|b: AllocatedBuffer| call_requires(destroy_buffer, (b,)),
        ensures
            final(self).planet_vertex_buffer is None,
            final(self).planet_index_buffer is None,
            old(self).planet_vertex_buffer matches Some(b) ==> call_ensures(destroy_buffer, (b,), ()),
            old(self).planet_index_buffer matches Some(b) ==> call_ensures(destroy_buffer, (b,), ()),
    {
        if let Some(buffer) = self.planet_vertex_buffer.take() {
            destroy_buffer(buffer);
        }
        if let Some(buffer) = self.planet_index_buffer.take() {
            destroy_buffer(buffer);
        }
    }
}

} // verus!
