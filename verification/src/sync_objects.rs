//! Semaphores and fences that pace frames in flight against swapchain images.

use vstd::prelude::*;
use vulkanalia::vk;

use crate::frame::RingAction;

verus! {

/// Synchronization objects: per frame in flight, a semaphore signalled when a
/// swapchain image is available and a fence signalled when the frame's work
/// is done; per swapchain image, a semaphore signalled when rendering into it
/// finishes, and the fence of the frame that last used it, if any.
pub struct SyncObjects {
    pub image_available_semaphores: Vec<vk::Semaphore>,
    pub render_finished_semaphores: Vec<vk::Semaphore>,
    pub in_flight_fences: Vec<vk::Fence>,
    pub images_in_flight: Vec<Option<vk::Fence>>,
}

/// What a successful `SyncObjects::new` holds: every object was made by the
/// given callbacks, one per frame or per image, and no image is in flight.
pub open spec fn sync_objects_made<S, F, E>(
    objects: SyncObjects,
    max_images: usize,
    max_frames: usize,
    create_semaphore: S,
    create_fence: F,
) -> bool
    where S: Fn() -> Result<vk::Semaphore, E>, F: Fn() -> Result<vk::Fence, E>
{
    &&& objects.image_available_semaphores@.len() == max_frames
    &&& objects.in_flight_fences@.len() == max_frames
    &&& objects.render_finished_semaphores@.len() == max_images
    &&& objects.images_in_flight@.len() == max_images
    &&& forall|i: int| 0 <= i < max_images ==> #[trigger] objects.images_in_flight@[i] is None
    &&& forall|i: int| 0 <= i < max_frames ==>
        call_ensures(create_semaphore, (), Ok::<vk::Semaphore, E>(#[trigger] objects.image_available_semaphores@[i]))
    &&& forall|i: int| 0 <= i < max_frames ==>
        call_ensures(create_fence, (), Ok::<vk::Fence, E>(#[trigger] objects.in_flight_fences@[i]))
    &&& forall|i: int| 0 <= i < max_images ==>
        call_ensures(create_semaphore, (), Ok::<vk::Semaphore, E>(#[trigger] objects.render_finished_semaphores@[i]))
}

impl SyncObjects {
    /// Makes the synchronization objects for `max_frames` frames in flight and
    /// `max_images` swapchain images: for each frame a semaphore then a fence,
    /// then a semaphore for each image. The first error a callback returns is
    /// returned and nothing more is made.
    pub fn new<S, F, E>(max_images: usize, max_frames: usize, create_semaphore: S, create_fence: F) -> (result: Result<Self, E>)
        where S: Fn() -> Result<vk::Semaphore, E>, F: Fn() -> Result<vk::Fence, E>
        requires
            call_requires(create_semaphore, ()),
            call_requires(create_fence, ()),
        ensures
            result matches Ok(objects) ==> sync_objects_made(objects, max_images, max_frames, create_semaphore, create_fence),
            result matches Err(e) ==> call_ensures(create_semaphore, (), Err::<vk::Semaphore, E>(e))
                || call_ensures(create_fence, (), Err::<vk::Fence, E>(e)),
    {
        let mut image_semaphores: Vec<vk::Semaphore> = Vec::with_capacity(max_frames);
        let mut render_semaphores: Vec<vk::Semaphore> = Vec::with_capacity(max_images);
        let mut fences: Vec<vk::Fence> = Vec::with_capacity(max_frames);

        let mut frame: usize = 0;
        while frame < max_frames
            invariant
                call_requires(create_semaphore, ()),
                call_requires(create_fence, ()),
                frame <= max_frames,
                image_semaphores@.len() == frame,
                fences@.len() == frame,
                forall|i: int| 0 <= i < frame ==>
                    call_ensures(create_semaphore, (), Ok::<vk::Semaphore, E>(#[trigger] image_semaphores@[i])),
                forall|i: int| 0 <= i < frame ==>
                    call_ensures(create_fence, (), Ok::<vk::Fence, E>(#[trigger] fences@[i])),
            decreases max_frames - frame,
        {
            match create_semaphore() {
                Ok(semaphore) => image_semaphores.push(semaphore),
                Err(e) => return Err(e),
            }
            match create_fence() {
                Ok(fence) => fences.push(fence),
                Err(e) => return Err(e),
            }
            frame = frame + 1;
        }

        let mut image: usize = 0;
        while image < max_images
            invariant
                call_requires(create_semaphore, ()),
                image <= max_images,
                render_semaphores@.len() == image,
                forall|i: int| 0 <= i < image ==>
                    call_ensures(create_semaphore, (), Ok::<vk::Semaphore, E>(#[trigger] render_semaphores@[i])),
            decreases max_images - image,
        {
            match create_semaphore() {
                Ok(semaphore) => render_semaphores.push(semaphore),
                Err(e) => return Err(e),
            }
            image = image + 1;
        }

        let mut images_in_flight: Vec<Option<vk::Fence>> = Vec::with_capacity(max_images);
        let mut slot: usize = 0;
        while slot < max_images
            invariant
                slot <= max_images,
                images_in_flight@.len() == slot,
                forall|i: int| 0 <= i < slot ==> #[trigger] images_in_flight@[i] is None,
            decreases max_images - slot,
        {
            images_in_flight.push(None);
            slot = slot + 1;
        }

        Ok(SyncObjects {
            image_available_semaphores: image_semaphores,
            render_finished_semaphores: render_semaphores,
            in_flight_fences: fences,
            images_in_flight,
        })
    }

    /// Hands every fence, then every render-finished semaphore, then every
    /// image-available semaphore to the given callbacks.
    pub fn destroy<F, S>(&mut self, destroy_fence: F, destroy_semaphore: S)
        where F: Fn(vk::Fence), S: Fn(vk::Semaphore)
        requires
            forall|f: vk::Fence| call_requires(destroy_fence, (f,)),
            forall|s: vk::Semaphore| call_requires(destroy_semaphore, (s,)),
        ensures
            *final(self) == *old(self),
            forall|i: int| 0 <= i < old(self).in_flight_fences@.len() ==>
                call_ensures(destroy_fence, (#[trigger] old(self).in_flight_fences@[i],), ()),
            forall|i: int| 0 <= i < old(self).render_finished_semaphores@.len() ==>
                call_ensures(destroy_semaphore, (#[trigger] old(self).render_finished_semaphores@[i],), ()),
            forall|i: int| 0 <= i < old(self).image_available_semaphores@.len() ==>
                call_ensures(destroy_semaphore, (#[trigger] old(self).image_available_semaphores@[i],), ()),
    {
        let mut i: usize = 0;
        while i < self.in_flight_fences.len()
            invariant
                forall|f: vk::Fence| call_requires(destroy_fence, (f,)),
                0 <= i <= self.in_flight_fences@.len(),
                forall|j: int| 0 <= j < i ==> call_ensures(destroy_fence, (#[trigger] self.in_flight_fences@[j],), ()),
            decreases self.in_flight_fences@.len() - i,
        {
            destroy_fence(self.in_flight_fences[i]);
            i = i + 1;
        }
        let mut i: usize = 0;
        while i < self.render_finished_semaphores.len()
            invariant
                forall|s: vk::Semaphore| call_requires(destroy_semaphore, (s,)),
                0 <= i <= self.render_finished_semaphores@.len(),
                forall|j: int| 0 <= j < i ==>
                    call_ensures(destroy_semaphore, (#[trigger] self.render_finished_semaphores@[j],), ()),
            decreases self.render_finished_semaphores@.len() - i,
        {
            destroy_semaphore(self.render_finished_semaphores[i]);
            i = i + 1;
        }
        let mut i: usize = 0;
        while i < self.image_available_semaphores.len()
            invariant
                forall|s: vk::Semaphore| call_requires(destroy_semaphore, (s,)),
                0 <= i <= self.image_available_semaphores@.len(),
                forall|j: int| 0 <= j < i ==>
                    call_ensures(destroy_semaphore, (#[trigger] self.image_available_semaphores@[j],), ()),
            decreases self.image_available_semaphores@.len() - i,
        {
            destroy_semaphore(self.image_available_semaphores[i]);
            i = i + 1;
        }
    }

    /// The fence of the frame that last drew into swapchain image `image`, if any.
    pub fn image_fence(&self, image: usize) -> (fence: Option<vk::Fence>)
        requires
            image < self.images_in_flight@.len(),
        ensures
            fence == self.images_in_flight@[image as int],
    {
        self.images_in_flight[image]
    }

    /// Records that swapchain image `image` is in flight with `fence`.
    pub fn set_image_fence(&mut self, image: usize, fence: vk::Fence)
        requires
            image < old(self).images_in_flight@.len(),
        ensures
            final(self).images_in_flight@ == old(self).images_in_flight@.update(image as int, Some(fence)),
            final(self).image_available_semaphores == old(self).image_available_semaphores,
            final(self).render_finished_semaphores == old(self).render_finished_semaphores,
            final(self).in_flight_fences == old(self).in_flight_fences,
    {
        self.images_in_flight.set(image, Some(fence));
    }
}

/// The synchronization objects that a step of the ring-buffered renderer uses.
#[derive(Debug, Clone, Copy, PartialEq, Eq)]
pub enum RingSync {
    /// The step uses none.
    Nothing,
    /// Wait for this fence.
    WaitFence(vk::Fence),
    /// Acquire an image, signalling this semaphore when it is available.
    Acquire { signal: vk::Semaphore },
    /// Wait for the fence of the frame that last drew into the image, if any.
    WaitImage(Option<vk::Fence>),
    /// Reset this fence.
    ResetFence(vk::Fence),
    /// Submit the frame's work: wait on `wait`, then signal `signal`, and
    /// signal `fence` when the work is done.
    Submit { wait: vk::Semaphore, signal: vk::Semaphore, fence: vk::Fence },
    /// Present, waiting on this semaphore.
    Present { wait: vk::Semaphore },
}

/// Whether the objects hold everything a ring action's step indexes.
pub open spec fn ring_sync_fits(objects: SyncObjects, action: RingAction) -> bool {
    match action {
        RingAction::WaitForFence(frame) => frame < objects.in_flight_fences@.len(),
        RingAction::AcquireImage(frame) => frame < objects.image_available_semaphores@.len(),
        RingAction::WaitForImage(image) => image < objects.images_in_flight@.len(),
        RingAction::MarkImageInFlight { image, frame } => image < objects.images_in_flight@.len()
            && frame < objects.in_flight_fences@.len(),
        RingAction::ResetFence(frame) => frame < objects.in_flight_fences@.len(),
        RingAction::Submit { frame, .. } => frame < objects.image_available_semaphores@.len()
            && frame < objects.render_finished_semaphores@.len() && frame < objects.in_flight_fences@.len(),
        RingAction::Present { frame, .. } => frame < objects.render_finished_semaphores@.len(),
        _ => true,
    }
}

/// The objects a ring action's step uses: everything of frame `f` is taken at
/// index `f` (its in-flight fence, its image-available and render-finished
/// semaphores), and an image's last fence at the image's index.
pub open spec fn spec_ring_sync(objects: SyncObjects, action: RingAction) -> RingSync {
    match action {
        RingAction::WaitForFence(frame) => RingSync::WaitFence(objects.in_flight_fences@[frame as int]),
        RingAction::AcquireImage(frame) => RingSync::Acquire { signal: objects.image_available_semaphores@[frame as int] },
        RingAction::WaitForImage(image) => RingSync::WaitImage(objects.images_in_flight@[image as int]),
        RingAction::ResetFence(frame) => RingSync::ResetFence(objects.in_flight_fences@[frame as int]),
        RingAction::Submit { frame, .. } => RingSync::Submit {
            wait: objects.image_available_semaphores@[frame as int],
            signal: objects.render_finished_semaphores@[frame as int],
            fence: objects.in_flight_fences@[frame as int],
        },
        RingAction::Present { frame, .. } => RingSync::Present { wait: objects.render_finished_semaphores@[frame as int] },
        _ => RingSync::Nothing,
    }
}

/// The image table after a ring action's step: marking an image in flight
/// records the frame's fence for it; no other step changes the table.
pub open spec fn spec_images_after(objects: SyncObjects, action: RingAction) -> Seq<Option<vk::Fence>> {
    match action {
        RingAction::MarkImageInFlight { image, frame } => objects.images_in_flight@.update(
            image as int,
            Some(objects.in_flight_fences@[frame as int]),
        ),
        _ => objects.images_in_flight@,
    }
}

/// Each ring step takes its frame's objects at the frame's own index: the
/// fence waited on, reset and signalled by the submit is the frame's in-flight
/// fence; acquiring signals, and the submit waits on, the frame's
/// image-available semaphore; the submit signals, and presenting waits on,
/// the frame's render-finished semaphore. Waiting for an image waits on that
/// image's own entry of the table, whatever the other entries hold.
pub proof fn lemma_ring_sync_takes_own_objects(objects: SyncObjects, action: RingAction)
    requires
        ring_sync_fits(objects, action),
    ensures
        action matches RingAction::WaitForFence(f) ==> spec_ring_sync(objects, action) == RingSync::WaitFence(
            objects.in_flight_fences@[f as int],
        ),
        action matches RingAction::AcquireImage(f) ==> spec_ring_sync(objects, action) == (RingSync::Acquire {
            signal: objects.image_available_semaphores@[f as int],
        }),
        action matches RingAction::WaitForImage(i) ==> spec_ring_sync(objects, action) == RingSync::WaitImage(
            objects.images_in_flight@[i as int],
        ),
        action matches RingAction::ResetFence(f) ==> spec_ring_sync(objects, action) == RingSync::ResetFence(
            objects.in_flight_fences@[f as int],
        ),
        action matches RingAction::Submit { frame, .. } ==> spec_ring_sync(objects, action) == (RingSync::Submit {
            wait: objects.image_available_semaphores@[frame as int],
            signal: objects.render_finished_semaphores@[frame as int],
            fence: objects.in_flight_fences@[frame as int],
        }),
        action matches RingAction::Present { frame, .. } ==> spec_ring_sync(objects, action) == (RingSync::Present {
            wait: objects.render_finished_semaphores@[frame as int],
        }),
        action matches RingAction::ResetFence(f) ==> spec_ring_sync(objects, RingAction::WaitForFence(f))
            == RingSync::WaitFence(objects.in_flight_fences@[f as int]),
{
}

/// What marking an image in flight records is what waiting for that image
/// then waits on: the fence of the frame that marked it. The entries of the
/// other images are kept, and only marking changes the table.
pub proof fn lemma_wait_for_marked_image(
    before: SyncObjects,
    after: SyncObjects,
    image: u32,
    frame: usize,
    other: u32,
)
    requires
        ring_sync_fits(before, RingAction::MarkImageInFlight { image, frame }),
        after.images_in_flight@ == spec_images_after(before, RingAction::MarkImageInFlight { image, frame }),
        other < before.images_in_flight@.len(),
        other != image,
    ensures
        spec_ring_sync(after, RingAction::WaitForImage(image)) == RingSync::WaitImage(
            Some(before.in_flight_fences@[frame as int]),
        ),
        spec_ring_sync(after, RingAction::WaitForImage(other)) == spec_ring_sync(before, RingAction::WaitForImage(other)),
        after.images_in_flight@.len() == before.images_in_flight@.len(),
        forall|a: RingAction| !(a is MarkImageInFlight) ==> spec_images_after(before, a) == before.images_in_flight@,
{
}

impl SyncObjects {
    /// Selects the synchronization objects a step of the ring-buffered
    /// renderer uses, and records an image as in flight with its frame's fence
    /// when the step marks it.
    pub fn ring_sync(&mut self, action: RingAction) -> (sync: RingSync)
        requires
            ring_sync_fits(*old(self), action),
        ensures
            sync == spec_ring_sync(*old(self), action),
            final(self).images_in_flight@ == spec_images_after(*old(self), action),
            final(self).image_available_semaphores == old(self).image_available_semaphores,
            final(self).render_finished_semaphores == old(self).render_finished_semaphores,
            final(self).in_flight_fences == old(self).in_flight_fences,
    {
        match action {
            RingAction::WaitForFence(frame) => RingSync::WaitFence(self.in_flight_fences[frame]),
            RingAction::AcquireImage(frame) => RingSync::Acquire { signal: self.image_available_semaphores[frame] },
            RingAction::WaitForImage(image) => RingSync::WaitImage(self.image_fence(image as usize)),
            RingAction::MarkImageInFlight { image, frame } => {
                let fence = self.in_flight_fences[frame];
                self.set_image_fence(image as usize, fence);
                RingSync::Nothing
            },
            RingAction::ResetFence(frame) => RingSync::ResetFence(self.in_flight_fences[frame]),
            RingAction::Submit { frame, .. } => RingSync::Submit {
                wait: self.image_available_semaphores[frame],
                signal: self.render_finished_semaphores[frame],
                fence: self.in_flight_fences[frame],
            },
            RingAction::Present { frame, .. } => RingSync::Present { wait: self.render_finished_semaphores[frame] },
            _ => RingSync::Nothing,
        }
    }
}

} // verus!
