use std::cell::RefCell;
use vulkan_render::frame::{
    next_frame_index, AcquireOutcome, FrameError, FrameOutcome, PresentOutcome, RenderAction, RenderEvent, RenderPhase,
    RenderState, RingAction, RingPhase, RingState,
};
use vulkan_render::sync_objects::{RingSync, SyncObjects};
use vulkanalia::vk;
use vulkanalia::vk::Handle;

fn run_frame(state: &mut RenderState, events: &[RenderEvent]) -> Vec<RenderAction> {
    let mut actions = vec![state.begin()];
    for event in events {
        actions.push(state.step(*event));
    }
    actions
}

#[test]
fn a_clean_frame_runs_every_step_in_order() {
    let mut state = RenderState::new();
    assert_eq!(state, RenderState { frame_index: 0, swapchain_dirty: false, phase: RenderPhase::Idle });
    let actions = run_frame(
        &mut state,
        &[
            RenderEvent::StepDone,
            RenderEvent::ImageAcquired(AcquireOutcome::Acquired(2)),
            RenderEvent::StepDone,
            RenderEvent::StepDone,
            RenderEvent::StepDone,
            RenderEvent::StepDone,
            RenderEvent::ImagePresented(PresentOutcome::Presented),
        ],
    );
    assert_eq!(
        actions,
        vec![
            RenderAction::WaitForFence(0),
            RenderAction::AcquireImage(0),
            RenderAction::ResetFence(0),
            RenderAction::UpdateUniforms(0),
            RenderAction::RecordCommands(0),
            RenderAction::Submit(0),
            RenderAction::Present(2),
            RenderAction::Finish(FrameOutcome::Rendered),
        ]
    );
    assert_eq!(state.phase, RenderPhase::Idle);
    assert!(!state.swapchain_dirty);
}

#[test]
fn out_of_date_acquire_ends_the_frame_and_recreates_next_time() {
    let mut state = RenderState::new();
    let actions = run_frame(&mut state, &[RenderEvent::StepDone, RenderEvent::ImageAcquired(AcquireOutcome::OutOfDate)]);
    assert_eq!(actions.last(), Some(&RenderAction::Finish(FrameOutcome::Failed(FrameError::OutOfDate))));
    assert!(state.swapchain_dirty);
    assert_eq!(state.begin(), RenderAction::RecreateSwapchain);
    assert_eq!(state.step(RenderEvent::StepDone), RenderAction::WaitForFence(0));
    assert!(!state.swapchain_dirty);
}

#[test]
fn failed_recreation_keeps_the_mark() {
    let mut state = RenderState { frame_index: 1, swapchain_dirty: true, phase: RenderPhase::Idle };
    assert_eq!(state.begin(), RenderAction::RecreateSwapchain);
    assert_eq!(state.step(RenderEvent::StepFailed), RenderAction::Finish(FrameOutcome::StepError));
    assert!(state.swapchain_dirty);
    assert_eq!(state.phase, RenderPhase::Idle);
}

#[test]
fn other_acquire_errors_end_the_frame_without_marking() {
    let mut state = RenderState::new();
    let actions = run_frame(&mut state, &[RenderEvent::StepDone, RenderEvent::ImageAcquired(AcquireOutcome::Failed(-4))]);
    assert_eq!(actions.last(), Some(&RenderAction::Finish(FrameOutcome::Failed(FrameError::Vulkan(-4)))));
    assert!(!state.swapchain_dirty);
}

#[test]
fn a_failed_step_ends_the_frame() {
    let mut state = RenderState::new();
    let actions = run_frame(
        &mut state,
        &[RenderEvent::StepDone, RenderEvent::ImageAcquired(AcquireOutcome::Acquired(0)), RenderEvent::StepDone, RenderEvent::StepFailed],
    );
    assert_eq!(actions.last(), Some(&RenderAction::Finish(FrameOutcome::StepError)));
    assert_eq!(state.phase, RenderPhase::Idle);
}

#[test]
fn present_outcomes() {
    let to_present = [
        RenderEvent::StepDone,
        RenderEvent::ImageAcquired(AcquireOutcome::Acquired(1)),
        RenderEvent::StepDone,
        RenderEvent::StepDone,
        RenderEvent::StepDone,
        RenderEvent::StepDone,
    ];
    let mut state = RenderState::new();
    run_frame(&mut state, &to_present);
    assert_eq!(state.step(RenderEvent::ImagePresented(PresentOutcome::Suboptimal)), RenderAction::Finish(FrameOutcome::Rendered));
    assert!(state.swapchain_dirty);

    let mut state = RenderState::new();
    run_frame(&mut state, &to_present);
    assert_eq!(
        state.step(RenderEvent::ImagePresented(PresentOutcome::OutOfDate)),
        RenderAction::Finish(FrameOutcome::Failed(FrameError::OutOfDate))
    );
    assert!(state.swapchain_dirty);

    let mut state = RenderState::new();
    run_frame(&mut state, &to_present);
    assert_eq!(
        state.step(RenderEvent::ImagePresented(PresentOutcome::Failed(-3))),
        RenderAction::Finish(FrameOutcome::Failed(FrameError::Vulkan(-3)))
    );
    assert!(!state.swapchain_dirty);
    assert_eq!(state.frame_index, 0);
}

fn ring_frame(state: &mut RingState, events: &[RenderEvent]) -> Vec<RingAction> {
    let mut actions = vec![state.begin()];
    for event in events {
        actions.push(state.step(*event));
    }
    actions
}

const RING_TO_PRESENT: [RenderEvent; 8] = [
    RenderEvent::StepDone,
    RenderEvent::ImageAcquired(AcquireOutcome::Acquired(1)),
    RenderEvent::StepDone,
    RenderEvent::StepDone,
    RenderEvent::StepDone,
    RenderEvent::StepDone,
    RenderEvent::StepDone,
    RenderEvent::StepDone,
];

#[test]
fn ring_frame_runs_every_step_and_moves_on() {
    let mut state = RingState::new(2);
    let mut events = RING_TO_PRESENT.to_vec();
    events.push(RenderEvent::ImagePresented(PresentOutcome::Presented));
    let actions = ring_frame(&mut state, &events);
    assert_eq!(
        actions,
        vec![
            RingAction::WaitForFence(0),
            RingAction::AcquireImage(0),
            RingAction::WaitForImage(1),
            RingAction::MarkImageInFlight { image: 1, frame: 0 },
            RingAction::RecordCommands(1),
            RingAction::UpdateUniforms(1),
            RingAction::ResetFence(0),
            RingAction::Submit { frame: 0, image: 1 },
            RingAction::Present { frame: 0, image: 1 },
            RingAction::Finish(FrameOutcome::Rendered),
        ]
    );
    assert_eq!(state, RingState { frame_index: 1, max_frames_in_flight: 2, phase: RingPhase::Idle });
    ring_frame(&mut state, &events);
    assert_eq!(state.frame_index, 0);
}

#[test]
fn ring_out_of_date_acquire_recreates_and_ends_the_frame() {
    let mut state = RingState::new(3);
    let actions = ring_frame(
        &mut state,
        &[RenderEvent::StepDone, RenderEvent::ImageAcquired(AcquireOutcome::OutOfDate), RenderEvent::StepDone],
    );
    assert_eq!(&actions[2..], &[RingAction::RecreateSwapchain, RingAction::Finish(FrameOutcome::Rendered)]);
    assert_eq!(state.frame_index, 0);
}

#[test]
fn ring_stale_present_recreates_then_moves_on() {
    for stale in [PresentOutcome::Suboptimal, PresentOutcome::OutOfDate] {
        let mut state = RingState::new(3);
        let mut events = RING_TO_PRESENT.to_vec();
        events.push(RenderEvent::ImagePresented(stale));
        let actions = ring_frame(&mut state, &events);
        assert_eq!(actions.last(), Some(&RingAction::RecreateSwapchain));
        assert_eq!(state.step(RenderEvent::StepDone), RingAction::Finish(FrameOutcome::Rendered));
        assert_eq!(state.frame_index, 1);
    }
}

#[test]
fn ring_failures_keep_the_frame() {
    let mut state = RingState::new(3);
    let mut events = RING_TO_PRESENT.to_vec();
    events.push(RenderEvent::ImagePresented(PresentOutcome::Failed(-7)));
    let actions = ring_frame(&mut state, &events);
    assert_eq!(actions.last(), Some(&RingAction::Finish(FrameOutcome::Failed(FrameError::Vulkan(-7)))));
    assert_eq!(state.frame_index, 0);

    let mut state = RingState::new(3);
    let actions = ring_frame(&mut state, &[RenderEvent::StepFailed]);
    assert_eq!(actions.last(), Some(&RingAction::Finish(FrameOutcome::StepError)));
    assert_eq!(state.phase, RingPhase::Idle);
}

#[test]
fn image_fences_are_recorded_per_image() {
    let mut objects = SyncObjects::new(2, 1, || Ok::<_, ()>(vk::Semaphore::null()), || Ok::<_, ()>(vk::Fence::null())).unwrap();
    assert_eq!(objects.image_fence(1), None);
    objects.set_image_fence(1, vk::Fence::from_raw(9));
    assert_eq!(objects.image_fence(1), Some(vk::Fence::from_raw(9)));
    assert_eq!(objects.image_fence(0), None);
}

#[test]
fn frame_index_wraps_after_the_last_frame() {
    assert_eq!(next_frame_index(0, 2), 1);
    assert_eq!(next_frame_index(1, 2), 0);
    assert_eq!(next_frame_index(0, 1), 0);
    let mut i = 0;
    for _ in 0..7 {
        i = next_frame_index(i, 3);
        assert!(i < 3);
    }
    assert_eq!(i, 1);
}

#[test]
fn sync_objects_per_frame_and_per_image() {
    let counter = RefCell::new(0u64);
    let next = || {
        *counter.borrow_mut() += 1;
        *counter.borrow()
    };
    let objects = SyncObjects::new(
        3,
        2,
        || Ok::<_, ()>(vk::Semaphore::from_raw(next())),
        || Ok::<_, ()>(vk::Fence::from_raw(next())),
    )
    .unwrap();
    let raw_sem: Vec<u64> = objects.image_available_semaphores.iter().map(|s| s.as_raw()).collect();
    let raw_fences: Vec<u64> = objects.in_flight_fences.iter().map(|f| f.as_raw()).collect();
    let raw_render: Vec<u64> = objects.render_finished_semaphores.iter().map(|s| s.as_raw()).collect();
    assert_eq!(raw_sem, vec![1, 3]);
    assert_eq!(raw_fences, vec![2, 4]);
    assert_eq!(raw_render, vec![5, 6, 7]);
    assert_eq!(objects.images_in_flight, vec![None, None, None]);
}

#[test]
fn sync_object_creation_stops_at_the_first_error() {
    let made = RefCell::new(0);
    let result = SyncObjects::new(
        2,
        2,
        || {
            *made.borrow_mut() += 1;
            if *made.borrow() == 2 { Err("device lost") } else { Ok(vk::Semaphore::null()) }
        },
        || Ok(vk::Fence::null()),
    );
    assert!(matches!(result, Err("device lost")));
    assert_eq!(*made.borrow(), 2);
}

#[test]
fn destroying_sync_objects_releases_fences_then_semaphores() {
    let counter = RefCell::new(0u64);
    let next = || {
        *counter.borrow_mut() += 1;
        *counter.borrow()
    };
    let mut objects = SyncObjects::new(
        1,
        2,
        || Ok::<_, ()>(vk::Semaphore::from_raw(next())),
        || Ok::<_, ()>(vk::Fence::from_raw(next())),
    )
    .unwrap();
    let order = RefCell::new(Vec::new());
    objects.destroy(|f| order.borrow_mut().push(f.as_raw()), |s| order.borrow_mut().push(s.as_raw()));
    assert_eq!(*order.borrow(), vec![2, 4, 5, 1, 3]);
}

fn numbered_sync_objects(max_images: usize, max_frames: usize) -> SyncObjects {
    let counter = RefCell::new(0u64);
    let next = || {
        *counter.borrow_mut() += 1;
        *counter.borrow()
    };
    SyncObjects::new(
        max_images,
        max_frames,
        || Ok::<_, ()>(vk::Semaphore::from_raw(next())),
        || Ok::<_, ()>(vk::Fence::from_raw(next())),
    )
    .unwrap()
}

#[test]
fn ring_steps_use_the_frames_objects() {
    // frames: image-available 1, 3; fences 2, 4; render-finished 5, 6
    let mut objects = numbered_sync_objects(2, 2);
    let sem = vk::Semaphore::from_raw;
    let fence = vk::Fence::from_raw;
    assert_eq!(objects.ring_sync(RingAction::WaitForFence(1)), RingSync::WaitFence(fence(4)));
    assert_eq!(objects.ring_sync(RingAction::AcquireImage(1)), RingSync::Acquire { signal: sem(3) });
    assert_eq!(objects.ring_sync(RingAction::WaitForImage(0)), RingSync::WaitImage(None));
    assert_eq!(objects.ring_sync(RingAction::MarkImageInFlight { image: 0, frame: 1 }), RingSync::Nothing);
    assert_eq!(objects.images_in_flight, vec![Some(fence(4)), None]);
    assert_eq!(objects.ring_sync(RingAction::WaitForImage(0)), RingSync::WaitImage(Some(fence(4))));
    assert_eq!(objects.ring_sync(RingAction::ResetFence(1)), RingSync::ResetFence(fence(4)));
    assert_eq!(
        objects.ring_sync(RingAction::Submit { frame: 1, image: 0 }),
        RingSync::Submit { wait: sem(3), signal: sem(6), fence: fence(4) }
    );
    assert_eq!(objects.ring_sync(RingAction::Present { frame: 1, image: 0 }), RingSync::Present { wait: sem(6) });
    assert_eq!(objects.ring_sync(RingAction::RecordCommands(0)), RingSync::Nothing);
    assert_eq!(objects.ring_sync(RingAction::Finish(FrameOutcome::Rendered)), RingSync::Nothing);
}
