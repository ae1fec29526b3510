//! The decisions of the render loop: what to do with the outcome of acquiring
//! a swapchain image and of presenting it, when the swapchain must be
//! recreated, and which frame in flight comes next.

use vstd::prelude::*;

verus! {

/// The outcome of asking the swapchain for the next image.
#[derive(Debug, Clone, Copy, PartialEq, Eq, Structural)]
pub enum AcquireOutcome {
    /// An image was acquired (possibly from a suboptimal swapchain).
    Acquired(u32),
    /// The swapchain no longer matches the surface.
    OutOfDate,
    /// Any other error, by its raw result code.
    Failed(i32),
}

/// The outcome of presenting an image.
#[derive(Debug, Clone, Copy, PartialEq, Eq, Structural)]
pub enum PresentOutcome {
    Presented,
    /// Presented, but the swapchain no longer matches the surface exactly.
    Suboptimal,
    /// Not presented: the swapchain no longer matches the surface.
    OutOfDate,
    /// Any other error, by its raw result code.
    Failed(i32),
}

/// Why a frame was not rendered or not presented.
#[derive(Debug, Clone, Copy, PartialEq, Eq, Structural)]
pub enum FrameError {
    /// The swapchain was out of date; it is recreated before the next frame.
    OutOfDate,
    /// A Vulkan call failed with this raw result code.
    Vulkan(i32),
}

/// Where the renderer is in drawing a frame.
#[derive(Debug, Clone, Copy, PartialEq, Eq, Structural)]
pub enum RenderPhase {
    /// Between frames.
    Idle,
    RecreatingSwapchain,
    WaitingForFence,
    AcquiringImage,
    ResettingFence { image: u32 },
    UpdatingUniforms { image: u32 },
    RecordingCommands { image: u32 },
    Submitting { image: u32 },
    Presenting { image: u32 },
}

/// What the outside work the renderer asked for came to.
#[derive(Debug, Clone, Copy, PartialEq, Eq, Structural)]
pub enum RenderEvent {
    /// The requested step succeeded.
    StepDone,
    /// The requested step failed; the caller keeps its error.
    StepFailed,
    /// The outcome of acquiring an image.
    ImageAcquired(AcquireOutcome),
    /// The outcome of presenting.
    ImagePresented(PresentOutcome),
}

/// How a frame ended.
#[derive(Debug, Clone, Copy, PartialEq, Eq, Structural)]
pub enum FrameOutcome {
    /// The frame was presented.
    Rendered,
    /// The frame failed with this error.
    Failed(FrameError),
    /// A step failed; its own error is the frame's error.
    StepError,
}

/// The outside work the renderer asks for next, for the given frame in
/// flight or swapchain image.
#[derive(Debug, Clone, Copy, PartialEq, Eq, Structural)]
pub enum RenderAction {
    RecreateSwapchain,
    WaitForFence(usize),
    AcquireImage(usize),
    ResetFence(usize),
    UpdateUniforms(usize),
    RecordCommands(usize),
    Submit(usize),
    Present(u32),
    /// The frame is over.
    Finish(FrameOutcome),
}

/// The renderer's state across frames: the frame in flight it records, whether
/// the swapchain must be recreated, and where it is in the current frame.
#[derive(Debug, Clone, Copy, PartialEq, Eq, Structural)]
pub struct RenderState {
    pub frame_index: usize,
    pub swapchain_dirty: bool,
    pub phase: RenderPhase,
}

/// Which events a phase waits for.
pub open spec fn accepts(phase: RenderPhase, event: RenderEvent) -> bool {
    match phase {
        RenderPhase::Idle => false,
        RenderPhase::AcquiringImage => event is ImageAcquired,
        RenderPhase::Presenting { .. } => event is ImagePresented,
        _ => event is StepDone || event is StepFailed,
    }
}

/// Starting a frame: a swapchain marked for recreation is recreated first;
/// otherwise the frame waits for its fence.
pub open spec fn spec_begin(state: RenderState) -> (RenderState, RenderAction) {
    if state.swapchain_dirty {
        (RenderState { phase: RenderPhase::RecreatingSwapchain, ..state }, RenderAction::RecreateSwapchain)
    } else {
        (RenderState { phase: RenderPhase::WaitingForFence, ..state }, RenderAction::WaitForFence(state.frame_index))
    }
}

/// The frame ends with `outcome`.
pub open spec fn finish(state: RenderState, outcome: FrameOutcome) -> (RenderState, RenderAction) {
    (RenderState { phase: RenderPhase::Idle, ..state }, RenderAction::Finish(outcome))
}

/// The next state and action after an event, one step of a frame: each step
/// that fails ends the frame with its error; an out-of-date swapchain, found
/// when acquiring or presenting, is marked for recreation and ends the frame
/// with an out-of-date error; a suboptimal one is marked and the frame still
/// counts as rendered.
pub open spec fn spec_step(state: RenderState, event: RenderEvent) -> (RenderState, RenderAction) {
    let f = state.frame_index;
    match (state.phase, event) {
        (RenderPhase::RecreatingSwapchain, RenderEvent::StepDone) => (
            RenderState { phase: RenderPhase::WaitingForFence, swapchain_dirty: false, ..state },
            RenderAction::WaitForFence(f),
        ),
        (RenderPhase::WaitingForFence, RenderEvent::StepDone) => (
            RenderState { phase: RenderPhase::AcquiringImage, ..state },
            RenderAction::AcquireImage(f),
        ),
        (RenderPhase::AcquiringImage, RenderEvent::ImageAcquired(outcome)) => match outcome {
            AcquireOutcome::Acquired(image) => (
                RenderState { phase: RenderPhase::ResettingFence { image }, ..state },
                RenderAction::ResetFence(f),
            ),
            AcquireOutcome::OutOfDate => finish(
                RenderState { swapchain_dirty: true, ..state },
                FrameOutcome::Failed(FrameError::OutOfDate),
            ),
            AcquireOutcome::Failed(code) => finish(state, FrameOutcome::Failed(FrameError::Vulkan(code))),
        },
        (RenderPhase::ResettingFence { image }, RenderEvent::StepDone) => (
            RenderState { phase: RenderPhase::UpdatingUniforms { image }, ..state },
            RenderAction::UpdateUniforms(f),
        ),
        (RenderPhase::UpdatingUniforms { image }, RenderEvent::StepDone) => (
            RenderState { phase: RenderPhase::RecordingCommands { image }, ..state },
            RenderAction::RecordCommands(f),
        ),
        (RenderPhase::RecordingCommands { image }, RenderEvent::StepDone) => (
            RenderState { phase: RenderPhase::Submitting { image }, ..state },
            RenderAction::Submit(f),
        ),
        (RenderPhase::Submitting { image }, RenderEvent::StepDone) => (
            RenderState { phase: RenderPhase::Presenting { image }, ..state },
            RenderAction::Present(image),
        ),
        (RenderPhase::Presenting { .. }, RenderEvent::ImagePresented(outcome)) => match outcome {
            PresentOutcome::Presented => finish(state, FrameOutcome::Rendered),
            PresentOutcome::Suboptimal => finish(RenderState { swapchain_dirty: true, ..state }, FrameOutcome::Rendered),
            PresentOutcome::OutOfDate => finish(
                RenderState { swapchain_dirty: true, ..state },
                FrameOutcome::Failed(FrameError::OutOfDate),
            ),
            PresentOutcome::Failed(code) => finish(state, FrameOutcome::Failed(FrameError::Vulkan(code))),
        },
        (_, _) => finish(state, FrameOutcome::StepError),
    }
}

/// How many more actions a frame can ask for from a phase before it ends.
pub open spec fn steps_left(phase: RenderPhase) -> nat {
    match phase {
        RenderPhase::Idle => 0,
        RenderPhase::Presenting { .. } => 1,
        RenderPhase::Submitting { .. } => 2,
        RenderPhase::RecordingCommands { .. } => 3,
        RenderPhase::UpdatingUniforms { .. } => 4,
        RenderPhase::ResettingFence { .. } => 5,
        RenderPhase::AcquiringImage => 6,
        RenderPhase::WaitingForFence => 7,
        RenderPhase::RecreatingSwapchain => 8,
    }
}

impl RenderState {
    /// The state of a new renderer: frame 0, swapchain fresh, between frames.
    pub fn new() -> (state: Self)
        ensures
            state == (RenderState { frame_index: 0, swapchain_dirty: false, phase: RenderPhase::Idle }),
    {
        RenderState { frame_index: 0, swapchain_dirty: false, phase: RenderPhase::Idle }
    }

    /// Starts a frame and says what to do first.
    pub fn begin(&mut self) -> (action: RenderAction)
        requires
            old(self).phase == RenderPhase::Idle,
        ensures
            (*final(self), action) == spec_begin(*old(self)),
    {
        if self.swapchain_dirty {
            self.phase = RenderPhase::RecreatingSwapchain;
            RenderAction::RecreateSwapchain
        } else {
            self.phase = RenderPhase::WaitingForFence;
            RenderAction::WaitForFence(self.frame_index)
        }
    }

    /// Takes in what the last action came to and says what to do next.
    pub fn step(&mut self, event: RenderEvent) -> (action: RenderAction)
        requires
            accepts(old(self).phase, event),
        ensures
            (*final(self), action) == spec_step(*old(self), event),
    {
        let f = self.frame_index;
        match (self.phase, event) {
            (RenderPhase::RecreatingSwapchain, RenderEvent::StepDone) => {
                self.phase = RenderPhase::WaitingForFence;
                self.swapchain_dirty = false;
                RenderAction::WaitForFence(f)
            },
            (RenderPhase::WaitingForFence, RenderEvent::StepDone) => {
                self.phase = RenderPhase::AcquiringImage;
                RenderAction::AcquireImage(f)
            },
            (RenderPhase::AcquiringImage, RenderEvent::ImageAcquired(outcome)) => match outcome {
                AcquireOutcome::Acquired(image) => {
                    self.phase = RenderPhase::ResettingFence { image };
                    RenderAction::ResetFence(f)
                },
                AcquireOutcome::OutOfDate => {
                    self.swapchain_dirty = true;
                    self.phase = RenderPhase::Idle;
                    RenderAction::Finish(FrameOutcome::Failed(FrameError::OutOfDate))
                },
                AcquireOutcome::Failed(code) => {
                    self.phase = RenderPhase::Idle;
                    RenderAction::Finish(FrameOutcome::Failed(FrameError::Vulkan(code)))
                },
            },
            (RenderPhase::ResettingFence { image }, RenderEvent::StepDone) => {
                self.phase = RenderPhase::UpdatingUniforms { image };
                RenderAction::UpdateUniforms(f)
            },
            (RenderPhase::UpdatingUniforms { image }, RenderEvent::StepDone) => {
                self.phase = RenderPhase::RecordingCommands { image };
                RenderAction::RecordCommands(f)
            },
            (RenderPhase::RecordingCommands { image }, RenderEvent::StepDone) => {
                self.phase = RenderPhase::Submitting { image };
                RenderAction::Submit(f)
            },
            (RenderPhase::Submitting { image }, RenderEvent::StepDone) => {
                self.phase = RenderPhase::Presenting { image };
                RenderAction::Present(image)
            },
            (RenderPhase::Presenting { .. }, RenderEvent::ImagePresented(outcome)) => {
                self.phase = RenderPhase::Idle;
                match outcome {
                    PresentOutcome::Presented => RenderAction::Finish(FrameOutcome::Rendered),
                    PresentOutcome::Suboptimal => {
                        self.swapchain_dirty = true;
                        RenderAction::Finish(FrameOutcome::Rendered)
                    },
                    PresentOutcome::OutOfDate => {
                        self.swapchain_dirty = true;
                        RenderAction::Finish(FrameOutcome::Failed(FrameError::OutOfDate))
                    },
                    PresentOutcome::Failed(code) => RenderAction::Finish(FrameOutcome::Failed(FrameError::Vulkan(code))),
                }
            },
            (_, _) => {
                self.phase = RenderPhase::Idle;
                RenderAction::Finish(FrameOutcome::StepError)
            },
        }
    }
}

/// Every step either ends the frame, going back between frames, or brings it
/// closer to its end; so a frame asks for at most nine actions, counting the
/// first, before it ends. No step changes the frame in flight.
pub proof fn lemma_frame_ends(state: RenderState, event: RenderEvent)
    requires
        accepts(state.phase, event),
    ensures
        ({
            let (next, action) = spec_step(state, event);
            &&& next.frame_index == state.frame_index
            &&& (action is Finish <==> next.phase == RenderPhase::Idle)
            &&& action is Finish || steps_left(next.phase) < steps_left(state.phase)
        }),
        steps_left(spec_begin(state).0.phase) <= 8,
{
}

/// A swapchain found out of date, when acquiring or when presenting, is
/// recreated at the start of the next frame, before anything else is done.
pub proof fn lemma_out_of_date_swapchain_is_recreated(state: RenderState, event: RenderEvent)
    requires
        accepts(state.phase, event),
        event == RenderEvent::ImageAcquired(AcquireOutcome::OutOfDate)
            || event == RenderEvent::ImagePresented(PresentOutcome::OutOfDate)
            || event == RenderEvent::ImagePresented(PresentOutcome::Suboptimal),
    ensures
        spec_step(state, event).0.swapchain_dirty,
        spec_begin(spec_step(state, event).0).1 == RenderAction::RecreateSwapchain,
{
}

/// The swapchain stays marked for recreation until it is recreated: no step
/// clears the mark but the end of a recreation.
pub proof fn lemma_dirty_until_recreated(state: RenderState, event: RenderEvent)
    requires
        accepts(state.phase, event),
        state.swapchain_dirty,
        !(state.phase == RenderPhase::RecreatingSwapchain && event == RenderEvent::StepDone),
    ensures
        spec_step(state, event).0.swapchain_dirty,
{
}

/// A step that fails ends the frame at once with that step's own error: the
/// renderer goes back between frames and asks for nothing more of this frame,
/// so nothing after the failed step (submitting, presenting) is done.
pub proof fn lemma_failed_step_ends_frame(state: RenderState)
    requires
        accepts(state.phase, RenderEvent::StepFailed),
    ensures
        spec_step(state, RenderEvent::StepFailed).1 == RenderAction::Finish(FrameOutcome::StepError),
        spec_step(state, RenderEvent::StepFailed).0.phase == RenderPhase::Idle,
        spec_step(state, RenderEvent::StepFailed).0.frame_index == state.frame_index,
        spec_step(state, RenderEvent::StepFailed).0.swapchain_dirty == state.swapchain_dirty,
{
}

/// A frame is reported rendered exactly when presenting its image has just
/// succeeded, on a suboptimal swapchain or not.
pub proof fn lemma_rendered_only_after_present(state: RenderState, event: RenderEvent)
    requires
        accepts(state.phase, event),
    ensures
        spec_step(state, event).1 == RenderAction::Finish(FrameOutcome::Rendered) <==> (state.phase is Presenting && (
        event == RenderEvent::ImagePresented(PresentOutcome::Presented) || event == RenderEvent::ImagePresented(
            PresentOutcome::Suboptimal,
        ))),
{
}

/// A frame starts by recreating the swapchain exactly when it is marked for
/// recreation, and otherwise by waiting for its own fence. A Vulkan error met
/// when acquiring or presenting ends the frame with that same error code; an
/// out-of-date swapchain ends it with the out-of-date error.
pub proof fn lemma_render_outcomes(state: RenderState, event: RenderEvent, code: i32)
    requires
        accepts(state.phase, event),
    ensures
        spec_begin(state).1 == RenderAction::RecreateSwapchain <==> state.swapchain_dirty,
        !state.swapchain_dirty ==> spec_begin(state).1 == RenderAction::WaitForFence(state.frame_index),
        event == RenderEvent::ImageAcquired(AcquireOutcome::Failed(code)) || event == RenderEvent::ImagePresented(
            PresentOutcome::Failed(code),
        ) ==> spec_step(state, event).1 == RenderAction::Finish(FrameOutcome::Failed(FrameError::Vulkan(code))),
        event == RenderEvent::ImageAcquired(AcquireOutcome::OutOfDate) || event == RenderEvent::ImagePresented(
            PresentOutcome::OutOfDate,
        ) ==> spec_step(state, event).1 == RenderAction::Finish(FrameOutcome::Failed(FrameError::OutOfDate)),
        state.phase == RenderPhase::RecreatingSwapchain && event == RenderEvent::StepDone ==> !spec_step(
            state,
            event,
        ).0.swapchain_dirty,
{
}

/// The frame in flight an action of the renderer is for, if it is for one.
pub open spec fn render_action_frame(action: RenderAction) -> Option<usize> {
    match action {
        RenderAction::WaitForFence(k) => Some(k),
        RenderAction::AcquireImage(k) => Some(k),
        RenderAction::ResetFence(k) => Some(k),
        RenderAction::UpdateUniforms(k) => Some(k),
        RenderAction::RecordCommands(k) => Some(k),
        RenderAction::Submit(k) => Some(k),
        _ => None,
    }
}

/// The swapchain image a phase of the renderer works on, if any.
pub open spec fn render_phase_image(phase: RenderPhase) -> Option<u32> {
    match phase {
        RenderPhase::ResettingFence { image } => Some(image),
        RenderPhase::UpdatingUniforms { image } => Some(image),
        RenderPhase::RecordingCommands { image } => Some(image),
        RenderPhase::Submitting { image } => Some(image),
        RenderPhase::Presenting { image } => Some(image),
        _ => None,
    }
}

/// Every action of a frame is for the renderer's own frame in flight, and the
/// image it works on and presents is the one acquired in this frame: an image
/// is taken up only from a successful acquire, then carried unchanged.
pub proof fn lemma_render_actions_name_frame_and_image(state: RenderState, event: RenderEvent)
    requires
        accepts(state.phase, event),
    ensures
        render_action_frame(spec_begin(state).1) matches Some(k) ==> k == state.frame_index,
        render_action_frame(spec_step(state, event).1) matches Some(k) ==> k == state.frame_index,
        render_phase_image(spec_step(state, event).0.phase) matches Some(i) ==> render_phase_image(state.phase)
            == Some(i) || event == RenderEvent::ImageAcquired(AcquireOutcome::Acquired(i)),
        spec_step(state, event).1 matches RenderAction::Present(i) ==> render_phase_image(state.phase) == Some(i),
{
}

/// Work is submitted only right after its commands were recorded, and
/// commands are recorded only right after the uniforms were updated, which
/// follows the reset of the frame's fence.
pub proof fn lemma_render_step_order(state: RenderState, event: RenderEvent)
    requires
        accepts(state.phase, event),
    ensures
        spec_step(state, event).1 is Submit ==> state.phase is RecordingCommands && event == RenderEvent::StepDone,
        spec_step(state, event).1 is RecordCommands ==> state.phase is UpdatingUniforms && event
            == RenderEvent::StepDone,
        spec_step(state, event).1 is UpdateUniforms ==> state.phase is ResettingFence && event
            == RenderEvent::StepDone,
        spec_step(state, event).1 is Present ==> state.phase is Submitting && event == RenderEvent::StepDone,
{
}

/// Where the ring-buffered renderer is in drawing a frame.
#[derive(Debug, Clone, Copy, PartialEq, Eq, Structural)]
pub enum RingPhase {
    /// Between frames.
    Idle,
    WaitingForFence,
    AcquiringImage,
    /// Recreating the swapchain because acquiring found it out of date; the
    /// frame ends with the result.
    RecreatingAfterAcquire,
    WaitingForImage { image: u32 },
    MarkingImage { image: u32 },
    RecordingCommands { image: u32 },
    UpdatingUniforms { image: u32 },
    ResettingFence { image: u32 },
    Submitting { image: u32 },
    Presenting { image: u32 },
    /// Recreating the swapchain after presenting to a stale one; the frame
    /// then moves on.
    RecreatingAfterPresent,
}

/// The outside work the ring-buffered renderer asks for next.
#[derive(Debug, Clone, Copy, PartialEq, Eq, Structural)]
pub enum RingAction {
    WaitForFence(usize),
    AcquireImage(usize),
    RecreateSwapchain,
    /// Wait for the fence of the frame that last drew into this image, if any.
    WaitForImage(u32),
    /// Record that this image is now in flight with the frame's fence.
    MarkImageInFlight { image: u32, frame: usize },
    RecordCommands(u32),
    UpdateUniforms(u32),
    /// Reset the frame's fence before its work is submitted.
    ResetFence(usize),
    Submit { frame: usize, image: u32 },
    Present { frame: usize, image: u32 },
    /// The frame is over.
    Finish(FrameOutcome),
}

/// The ring-buffered renderer's state: the frame in flight, how many frames
/// are in flight, and where it is in the current frame.
#[derive(Debug, Clone, Copy, PartialEq, Eq, Structural)]
pub struct RingState {
    pub frame_index: usize,
    pub max_frames_in_flight: usize,
    pub phase: RingPhase,
}

/// Which events a phase of the ring-buffered renderer waits for.
pub open spec fn ring_accepts(phase: RingPhase, event: RenderEvent) -> bool {
    match phase {
        RingPhase::Idle => false,
        RingPhase::AcquiringImage => event is ImageAcquired,
        RingPhase::Presenting { .. } => event is ImagePresented,
        _ => event is StepDone || event is StepFailed,
    }
}

/// Whether a ring state is sound: at least one frame in flight, and the frame
/// index among them.
pub open spec fn ring_well_formed(state: RingState) -> bool {
    0 < state.max_frames_in_flight && state.frame_index < state.max_frames_in_flight
}

/// The frame ends with `outcome`, the frame in flight unchanged.
pub open spec fn ring_finish(state: RingState, outcome: FrameOutcome) -> (RingState, RingAction) {
    (RingState { phase: RingPhase::Idle, ..state }, RingAction::Finish(outcome))
}

/// The frame was presented: it ends and the next frame in flight comes up.
pub open spec fn ring_advance(state: RingState) -> (RingState, RingAction) {
    (
        RingState {
            phase: RingPhase::Idle,
            frame_index: ((state.frame_index + 1) % (state.max_frames_in_flight as int)) as usize,
            ..state
        },
        RingAction::Finish(FrameOutcome::Rendered),
    )
}

/// One step of a ring-buffered frame. A failing step ends the frame with its
/// error and keeps the frame in flight. An out-of-date swapchain found when
/// acquiring is recreated and the frame ends with the result of that; one
/// that is stale after presenting (suboptimal or out of date) is recreated and
/// the frame moves on if that succeeds.
pub open spec fn spec_ring_step(state: RingState, event: RenderEvent) -> (RingState, RingAction) {
    let f = state.frame_index;
    match (state.phase, event) {
        (RingPhase::WaitingForFence, RenderEvent::StepDone) => (
            RingState { phase: RingPhase::AcquiringImage, ..state },
            RingAction::AcquireImage(f),
        ),
        (RingPhase::AcquiringImage, RenderEvent::ImageAcquired(outcome)) => match outcome {
            AcquireOutcome::Acquired(image) => (
                RingState { phase: RingPhase::WaitingForImage { image }, ..state },
                RingAction::WaitForImage(image),
            ),
            AcquireOutcome::OutOfDate => (
                RingState { phase: RingPhase::RecreatingAfterAcquire, ..state },
                RingAction::RecreateSwapchain,
            ),
            AcquireOutcome::Failed(code) => ring_finish(state, FrameOutcome::Failed(FrameError::Vulkan(code))),
        },
        (RingPhase::RecreatingAfterAcquire, RenderEvent::StepDone) => ring_finish(state, FrameOutcome::Rendered),
        (RingPhase::WaitingForImage { image }, RenderEvent::StepDone) => (
            RingState { phase: RingPhase::MarkingImage { image }, ..state },
            RingAction::MarkImageInFlight { image, frame: f },
        ),
        (RingPhase::MarkingImage { image }, RenderEvent::StepDone) => (
            RingState { phase: RingPhase::RecordingCommands { image }, ..state },
            RingAction::RecordCommands(image),
        ),
        (RingPhase::RecordingCommands { image }, RenderEvent::StepDone) => (
            RingState { phase: RingPhase::UpdatingUniforms { image }, ..state },
            RingAction::UpdateUniforms(image),
        ),
        (RingPhase::UpdatingUniforms { image }, RenderEvent::StepDone) => (
            RingState { phase: RingPhase::ResettingFence { image }, ..state },
            RingAction::ResetFence(f),
        ),
        (RingPhase::ResettingFence { image }, RenderEvent::StepDone) => (
            RingState { phase: RingPhase::Submitting { image }, ..state },
            RingAction::Submit { frame: f, image },
        ),
        (RingPhase::Submitting { image }, RenderEvent::StepDone) => (
            RingState { phase: RingPhase::Presenting { image }, ..state },
            RingAction::Present { frame: f, image },
        ),
        (RingPhase::Presenting { .. }, RenderEvent::ImagePresented(outcome)) => match outcome {
            PresentOutcome::Presented => ring_advance(state),
            PresentOutcome::Suboptimal => (
                RingState { phase: RingPhase::RecreatingAfterPresent, ..state },
                RingAction::RecreateSwapchain,
            ),
            PresentOutcome::OutOfDate => (
                RingState { phase: RingPhase::RecreatingAfterPresent, ..state },
                RingAction::RecreateSwapchain,
            ),
            PresentOutcome::Failed(code) => ring_finish(state, FrameOutcome::Failed(FrameError::Vulkan(code))),
        },
        (RingPhase::RecreatingAfterPresent, RenderEvent::StepDone) => ring_advance(state),
        (_, _) => ring_finish(state, FrameOutcome::StepError),
    }
}

impl RingState {
    /// A renderer with `max_frames_in_flight` frames in flight, at frame 0.
    pub fn new(max_frames_in_flight: usize) -> (state: Self)
        requires
            max_frames_in_flight > 0,
        ensures
            state == (RingState { frame_index: 0, max_frames_in_flight, phase: RingPhase::Idle }),
            ring_well_formed(state),
    {
        RingState { frame_index: 0, max_frames_in_flight, phase: RingPhase::Idle }
    }

    /// Starts a frame: it first waits for its fence.
    pub fn begin(&mut self) -> (action: RingAction)
        requires
            old(self).phase == RingPhase::Idle,
        ensures
            *final(self) == spec_ring_begin(*old(self)),
            action == RingAction::WaitForFence(old(self).frame_index),
    {
        self.phase = RingPhase::WaitingForFence;
        RingAction::WaitForFence(self.frame_index)
    }

    /// Takes in what the last action came to and says what to do next.
    pub fn step(&mut self, event: RenderEvent) -> (action: RingAction)
        requires
            ring_accepts(old(self).phase, event),
            ring_well_formed(*old(self)),
        ensures
            (*final(self), action) == spec_ring_step(*old(self), event),
    {
        let f = self.frame_index;
        match (self.phase, event) {
            (RingPhase::WaitingForFence, RenderEvent::StepDone) => {
                self.phase = RingPhase::AcquiringImage;
                RingAction::AcquireImage(f)
            },
            (RingPhase::AcquiringImage, RenderEvent::ImageAcquired(outcome)) => match outcome {
                AcquireOutcome::Acquired(image) => {
                    self.phase = RingPhase::WaitingForImage { image };
                    RingAction::WaitForImage(image)
                },
                AcquireOutcome::OutOfDate => {
                    self.phase = RingPhase::RecreatingAfterAcquire;
                    RingAction::RecreateSwapchain
                },
                AcquireOutcome::Failed(code) => {
                    self.phase = RingPhase::Idle;
                    RingAction::Finish(FrameOutcome::Failed(FrameError::Vulkan(code)))
                },
            },
            (RingPhase::RecreatingAfterAcquire, RenderEvent::StepDone) => {
                self.phase = RingPhase::Idle;
                RingAction::Finish(FrameOutcome::Rendered)
            },
            (RingPhase::WaitingForImage { image }, RenderEvent::StepDone) => {
                self.phase = RingPhase::MarkingImage { image };
                RingAction::MarkImageInFlight { image, frame: f }
            },
            (RingPhase::MarkingImage { image }, RenderEvent::StepDone) => {
                self.phase = RingPhase::RecordingCommands { image };
                RingAction::RecordCommands(image)
            },
            (RingPhase::RecordingCommands { image }, RenderEvent::StepDone) => {
                self.phase = RingPhase::UpdatingUniforms { image };
                RingAction::UpdateUniforms(image)
            },
            (RingPhase::UpdatingUniforms { image }, RenderEvent::StepDone) => {
                self.phase = RingPhase::ResettingFence { image };
                RingAction::ResetFence(f)
            },
            (RingPhase::ResettingFence { image }, RenderEvent::StepDone) => {
                self.phase = RingPhase::Submitting { image };
                RingAction::Submit { frame: f, image }
            },
            (RingPhase::Submitting { image }, RenderEvent::StepDone) => {
                self.phase = RingPhase::Presenting { image };
                RingAction::Present { frame: f, image }
            },
            (RingPhase::Presenting { .. }, RenderEvent::ImagePresented(outcome)) => match outcome {
                PresentOutcome::Presented => {
                    self.phase = RingPhase::Idle;
                    self.frame_index = next_frame_index(f, self.max_frames_in_flight);
                    RingAction::Finish(FrameOutcome::Rendered)
                },
                PresentOutcome::Suboptimal => {
                    self.phase = RingPhase::RecreatingAfterPresent;
                    RingAction::RecreateSwapchain
                },
                PresentOutcome::OutOfDate => {
                    self.phase = RingPhase::RecreatingAfterPresent;
                    RingAction::RecreateSwapchain
                },
                PresentOutcome::Failed(code) => {
                    self.phase = RingPhase::Idle;
                    RingAction::Finish(FrameOutcome::Failed(FrameError::Vulkan(code)))
                },
            },
            (RingPhase::RecreatingAfterPresent, RenderEvent::StepDone) => {
                self.phase = RingPhase::Idle;
                self.frame_index = next_frame_index(f, self.max_frames_in_flight);
                RingAction::Finish(FrameOutcome::Rendered)
            },
            (_, _) => {
                self.phase = RingPhase::Idle;
                RingAction::Finish(FrameOutcome::StepError)
            },
        }
    }
}

/// Every step keeps the ring state sound, so the frame in flight always
/// names one of the frames; the frame moves on only when a frame ends
/// rendered after presenting (with the swapchain recreated after, if it had
/// gone stale), and then to the next frame in flight.
pub proof fn lemma_ring_step_keeps_frame_in_range(state: RingState, event: RenderEvent)
    requires
        ring_accepts(state.phase, event),
        ring_well_formed(state),
    ensures
        ring_well_formed(spec_ring_step(state, event).0),
        spec_ring_step(state, event).0.max_frames_in_flight == state.max_frames_in_flight,
        ({
            let (next, action) = spec_ring_step(state, event);
            next.frame_index == state.frame_index || {
                &&& (state.phase is Presenting || state.phase is RecreatingAfterPresent)
                &&& action == RingAction::Finish(FrameOutcome::Rendered)
                &&& next.frame_index == (state.frame_index + 1) % (state.max_frames_in_flight as int)
            }
        }),
        state.phase is Presenting && event == RenderEvent::ImagePresented(PresentOutcome::Presented)
            ==> spec_ring_step(state, event).0.frame_index == (state.frame_index + 1) % (state.max_frames_in_flight as int),
{
    lemma_frame_index_cycles(state.frame_index, state.max_frames_in_flight);
}

/// A failing step of a ring-buffered frame ends it at once with that step's
/// own error and keeps the frame in flight.
pub proof fn lemma_ring_failed_step_ends_frame(state: RingState)
    requires
        ring_accepts(state.phase, RenderEvent::StepFailed),
    ensures
        spec_ring_step(state, RenderEvent::StepFailed).1 == RingAction::Finish(FrameOutcome::StepError),
        spec_ring_step(state, RenderEvent::StepFailed).0 == (RingState { phase: RingPhase::Idle, ..state }),
{
}

/// In a ring-buffered frame a Vulkan error met when acquiring or presenting
/// ends the frame with that same error code, keeping the frame in flight; a
/// swapchain found out of date when acquiring, or stale (out of date or
/// suboptimal) after presenting, is recreated next.
pub proof fn lemma_ring_outcomes(state: RingState, event: RenderEvent, code: i32)
    requires
        ring_accepts(state.phase, event),
        ring_well_formed(state),
    ensures
        event == RenderEvent::ImageAcquired(AcquireOutcome::Failed(code)) || event == RenderEvent::ImagePresented(
            PresentOutcome::Failed(code),
        ) ==> spec_ring_step(state, event) == (
            RingState { phase: RingPhase::Idle, ..state },
            RingAction::Finish(FrameOutcome::Failed(FrameError::Vulkan(code))),
        ),
        event == RenderEvent::ImageAcquired(AcquireOutcome::OutOfDate) || event == RenderEvent::ImagePresented(
            PresentOutcome::OutOfDate,
        ) || event == RenderEvent::ImagePresented(PresentOutcome::Suboptimal) ==> spec_ring_step(state, event).1
            == RingAction::RecreateSwapchain,
{
}

/// The frame in flight a ring action is for, if it is for one.
pub open spec fn ring_action_frame(action: RingAction) -> Option<usize> {
    match action {
        RingAction::WaitForFence(k) => Some(k),
        RingAction::AcquireImage(k) => Some(k),
        RingAction::MarkImageInFlight { frame, .. } => Some(frame),
        RingAction::ResetFence(k) => Some(k),
        RingAction::Submit { frame, .. } => Some(frame),
        RingAction::Present { frame, .. } => Some(frame),
        _ => None,
    }
}

/// The swapchain image a ring action is for, if it is for one.
pub open spec fn ring_action_image(action: RingAction) -> Option<u32> {
    match action {
        RingAction::WaitForImage(i) => Some(i),
        RingAction::MarkImageInFlight { image, .. } => Some(image),
        RingAction::RecordCommands(i) => Some(i),
        RingAction::UpdateUniforms(i) => Some(i),
        RingAction::Submit { image, .. } => Some(image),
        RingAction::Present { image, .. } => Some(image),
        _ => None,
    }
}

/// The swapchain image a ring phase works on, if any.
pub open spec fn ring_phase_image(phase: RingPhase) -> Option<u32> {
    match phase {
        RingPhase::WaitingForImage { image } => Some(image),
        RingPhase::MarkingImage { image } => Some(image),
        RingPhase::RecordingCommands { image } => Some(image),
        RingPhase::UpdatingUniforms { image } => Some(image),
        RingPhase::ResettingFence { image } => Some(image),
        RingPhase::Submitting { image } => Some(image),
        RingPhase::Presenting { image } => Some(image),
        _ => None,
    }
}

/// Every per-frame action a ring step asks for names the current frame in
/// flight (its fence, semaphores, the fence an image is marked with, the
/// submit and the present), and every per-image action names the image
/// acquired in this frame: an image is taken up only from a successful
/// acquire, then carried unchanged to the present.
pub proof fn lemma_ring_actions_name_frame_and_image(state: RingState, event: RenderEvent)
    requires
        ring_accepts(state.phase, event),
        ring_well_formed(state),
    ensures
        ring_action_frame(spec_ring_step(state, event).1) matches Some(k) ==> k == state.frame_index,
        ring_action_image(spec_ring_step(state, event).1) matches Some(i) ==> ring_phase_image(state.phase)
            == Some(i) || event == RenderEvent::ImageAcquired(AcquireOutcome::Acquired(i)),
        ring_phase_image(spec_ring_step(state, event).0.phase) matches Some(i) ==> ring_phase_image(state.phase)
            == Some(i) || event == RenderEvent::ImageAcquired(AcquireOutcome::Acquired(i)),
{
}

/// In a ring-buffered frame the image's last fence is waited for before the
/// image is marked with the frame's fence; the frame's fence is reset only
/// after the uniforms are updated, and the work is submitted only right after
/// that reset; presenting follows the submit.
pub proof fn lemma_ring_step_order(state: RingState, event: RenderEvent)
    requires
        ring_accepts(state.phase, event),
        ring_well_formed(state),
    ensures
        spec_ring_step(state, event).1 is MarkImageInFlight ==> state.phase is WaitingForImage && event
            == RenderEvent::StepDone,
        spec_ring_step(state, event).1 is ResetFence ==> state.phase is UpdatingUniforms && event
            == RenderEvent::StepDone,
        spec_ring_step(state, event).1 is Submit ==> state.phase is ResettingFence && event == RenderEvent::StepDone,
        spec_ring_step(state, event).1 is Present ==> state.phase is Submitting && event == RenderEvent::StepDone,
{
}

/// A ring-buffered frame starts by waiting for its fence.
pub open spec fn spec_ring_begin(state: RingState) -> RingState {
    RingState { phase: RingPhase::WaitingForFence, ..state }
}

/// The state and the last action after the steps that `events` drive from
/// `state`.
pub open spec fn ring_run(state: RingState, events: Seq<RenderEvent>) -> (RingState, RingAction)
    decreases events.len(),
{
    if events.len() <= 1 {
        spec_ring_step(state, events[0])
    } else {
        ring_run(spec_ring_step(state, events[0]).0, events.drop_first())
    }
}

/// `events` drive the rest of a frame from `state`: each is one the renderer
/// waits for where it comes, and the frame ends exactly at the last of them.
pub open spec fn ring_run_completes(state: RingState, events: Seq<RenderEvent>) -> bool
    decreases events.len(),
{
    &&& events.len() > 0
    &&& ring_accepts(state.phase, events[0])
    &&& if events.len() == 1 {
        spec_ring_step(state, events[0]).0.phase == RingPhase::Idle
    } else {
        &&& spec_ring_step(state, events[0]).0.phase != RingPhase::Idle
        &&& ring_run_completes(spec_ring_step(state, events[0]).0, events.drop_first())
    }
}

/// Acquiring found the swapchain out of date.
pub open spec fn acquire_out_of_date() -> RenderEvent {
    RenderEvent::ImageAcquired(AcquireOutcome::OutOfDate)
}

proof fn lemma_ring_run_frame_index(state: RingState, events: Seq<RenderEvent>)
    requires
        ring_run_completes(state, events),
        state.phase != RingPhase::Idle,
        ring_well_formed(state),
    ensures
        ring_run(state, events).0.phase == RingPhase::Idle,
        ring_run(state, events).0.max_frames_in_flight == state.max_frames_in_flight,
        ring_run(state, events).0.frame_index == (if ring_run(state, events).1 == RingAction::Finish(FrameOutcome::Rendered)
            && state.phase != RingPhase::RecreatingAfterAcquire && !events.contains(acquire_out_of_date()) {
            ((state.frame_index + 1) % (state.max_frames_in_flight as int)) as usize
        } else {
            state.frame_index
        }),
    decreases events.len(),
{
    let e = events[0];
    let next = spec_ring_step(state, e).0;
    if events.len() == 1 {
        assert(events.contains(acquire_out_of_date()) ==> e == acquire_out_of_date()) by {
            if events.contains(acquire_out_of_date()) {
                let i = choose|i: int| 0 <= i < events.len() && events[i] == acquire_out_of_date();
                assert(i == 0);
            }
        }
    } else {
        let rest = events.drop_first();
        lemma_ring_run_frame_index(next, rest);
        assert(events.contains(acquire_out_of_date()) <==> (e == acquire_out_of_date()
            || rest.contains(acquire_out_of_date()))) by {
            if events.contains(acquire_out_of_date()) {
                let i = choose|i: int| 0 <= i < events.len() && events[i] == acquire_out_of_date();
                if i > 0 {
                    assert(rest[i - 1] == acquire_out_of_date());
                }
            }
            if rest.contains(acquire_out_of_date()) {
                let j = choose|j: int| 0 <= j < rest.len() && rest[j] == acquire_out_of_date();
                assert(events[j + 1] == acquire_out_of_date());
            }
            if e == acquire_out_of_date() {
                assert(events[0] == acquire_out_of_date());
            }
        }
    }
}

/// Over a whole ring-buffered frame: the frame moves on to the next frame in
/// flight exactly when it ends rendered without acquiring having found the
/// swapchain out of date; otherwise it keeps its frame. Either way the frame
/// in flight stays among the frames.
pub proof fn lemma_ring_frame_advance(start: RingState, events: Seq<RenderEvent>)
    requires
        ring_well_formed(start),
        start.phase == RingPhase::Idle,
        ring_run_completes(spec_ring_begin(start), events),
    ensures
        ({
            let (end, last) = ring_run(spec_ring_begin(start), events);
            &&& end.phase == RingPhase::Idle
            &&& end.max_frames_in_flight == start.max_frames_in_flight
            &&& end.frame_index == (if last == RingAction::Finish(FrameOutcome::Rendered)
                && !events.contains(acquire_out_of_date()) {
                ((start.frame_index + 1) % (start.max_frames_in_flight as int)) as usize
            } else {
                start.frame_index
            })
            &&& ring_well_formed(end)
        }),
{
    lemma_ring_run_frame_index(spec_ring_begin(start), events);
    lemma_frame_index_cycles(start.frame_index, start.max_frames_in_flight);
}

/// The frame in flight after `frame_index`, wrapping around after the last
/// of `max_frames_in_flight`.
pub fn next_frame_index(frame_index: usize, max_frames_in_flight: usize) -> (next: usize)
    requires
        max_frames_in_flight > 0,
        frame_index < usize::MAX,
    ensures
        next == (frame_index + 1) % (max_frames_in_flight as int),
{
    (frame_index + 1) % max_frames_in_flight
}

/// Starting from a frame in flight, the next one is again a frame in flight,
/// and the frames are visited in order, wrapping to 0 after the last.
pub proof fn lemma_frame_index_cycles(frame_index: usize, max_frames_in_flight: usize)
    requires
        frame_index < max_frames_in_flight,
    ensures
        (frame_index + 1) % (max_frames_in_flight as int) < max_frames_in_flight,
        frame_index + 1 < max_frames_in_flight ==> (frame_index + 1) % (max_frames_in_flight as int) == frame_index + 1,
        frame_index + 1 == max_frames_in_flight ==> (frame_index + 1) % (max_frames_in_flight as int) == 0,
{
    vstd::arithmetic::div_mod::lemma_mod_bound((frame_index + 1) as int, max_frames_in_flight as int);
    if frame_index + 1 < max_frames_in_flight {
        vstd::arithmetic::div_mod::lemma_small_mod((frame_index + 1) as nat, max_frames_in_flight as nat);
    } else {
        vstd::arithmetic::div_mod::lemma_mod_self_0(max_frames_in_flight as int);
    }
}

} // verus!
