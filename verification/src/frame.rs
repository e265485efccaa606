use vstd::prelude::*;
use crate::error::Error;
use crate::types::Extent2D;

verus! {

/// Where the frame of one in-flight slot stands. A slot is idle once its
/// fence was waited for, submitted once its commands went to the graphics
/// queue, and presented once its image went to the presentation queue.
#[derive(Debug, Clone, Copy, PartialEq, Eq, Structural)]
pub enum SlotState {
    Idle,
    Submitted,
    Presented,
}

/// What the engine waits for between two steps of a frame.
#[derive(Debug, Clone, Copy, PartialEq, Eq, Structural)]
pub enum FramePhase {
    /// Between two frames.
    Ready,
    WaitingForFence,
    Acquiring,
    Submitting { image_index: u32 },
    Presenting { image_index: u32 },
    /// The surface is being rebuilt; `advance` says whether the frame
    /// that found it stale was submitted.
    Recreating { advance: bool },
    /// No new frame is taken; the device is finishing the old ones.
    Stopping,
    /// The device is idle, and resources may be destroyed.
    Stopped,
}

/// What the caller reports to the engine.
#[derive(Debug, Clone, Copy, PartialEq, Eq, Structural)]
pub enum FrameEvent {
    /// A new frame is wanted, for a window of these dimensions.
    Begin { dimensions: Extent2D },
    /// The fence of the current slot was signaled.
    FenceSignaled,
    /// The surface handed out a presentable image.
    ImageAcquired { image_index: u32 },
    /// The surface refused to hand out an image: it is out of date.
    AcquireOutOfDate,
    /// The commands of the frame went to the graphics queue.
    Submitted,
    /// The image went to the presentation queue.
    Presented,
    /// The image went to the presentation queue, which found the surface
    /// out of date or no longer optimal.
    PresentOutOfDate,
    /// The surface and its images were rebuilt.
    SwapchainRecreated { extent: Extent2D, image_count: u32 },
    /// The renderer is to be torn down.
    Stop,
    /// The device has finished all the work it was given.
    DeviceIdle,
}

/// What the engine asks the caller to do next.
#[derive(Debug, Clone, Copy, PartialEq, Eq, Structural)]
pub enum FrameAction {
    /// Block until the fence of the slot is signaled.
    WaitForFence { slot: usize },
    /// Ask the surface for its next image, signaling the slot's "image
    /// available" semaphore.
    AcquireImage { slot: usize },
    /// Reset the slot's fence, record the commands for the image and
    /// submit them, signaling the slot's "render finished" semaphore and
    /// its fence.
    RecordAndSubmit { slot: usize, image_index: u32 },
    /// Queue the image for presentation once rendering has finished.
    Present { slot: usize, image_index: u32 },
    /// Rebuild the surface and its images for a window of these
    /// dimensions.
    RecreateSwapchain { dimensions: Extent2D },
    /// Block until the device has finished all the work it was given.
    WaitForDeviceIdle,
    /// The frame is over; after a stop, so is the engine.
    Finished,
}

/// The state of the engine as plain values.
pub struct FrameView {
    pub current_frame: usize,
    pub slots: Seq<SlotState>,
    pub phase: FramePhase,
    pub recreated_swapchain: bool,
    pub extent: Extent2D,
    pub image_count: u32,
    pub dimensions: Extent2D,
}

/// A ring of `count` idle slots.
pub open spec fn spec_idle_slots(count: nat) -> Seq<SlotState> {
    Seq::new(count, |slot: int| SlotState::Idle)
}

/// The slot after `current` in a ring of `slots` slots.
pub open spec fn spec_next_slot(current: usize, slots: nat) -> usize
    recommends
        slots > 0,
{
    (((current + 1) as int) % (slots as int)) as usize
}

impl FrameView {
    /// What holds of the engine at every moment: the current slot exists,
    /// and it is in the state that the phase needs. Only an idle slot
    /// takes a submission.
    pub open spec fn spec_well_formed(self) -> bool {
        &&& self.slots.len() > 0
        &&& self.current_frame < self.slots.len()
        &&& match self.phase {
            FramePhase::Ready | FramePhase::WaitingForFence | FramePhase::Stopping => true,
            FramePhase::Acquiring | FramePhase::Submitting { .. } | FramePhase::Recreating {
                advance: false,
            } => self.slots[self.current_frame as int] == SlotState::Idle,
            FramePhase::Presenting { .. } => self.slots[self.current_frame as int]
                == SlotState::Submitted,
            FramePhase::Recreating { advance: true } => self.slots[self.current_frame as int]
                == SlotState::Presented,
            FramePhase::Stopped => self.slots == spec_idle_slots(self.slots.len()),
        }
    }

    /// The state with the current slot in `state`.
    pub open spec fn spec_with_slot(self, state: SlotState) -> FrameView {
        FrameView { slots: self.slots.update(self.current_frame as int, state), ..self }
    }

    /// The state after `event`, and what the engine answers to it.
    ///
    /// A frame begins by clearing the mark of a rebuilt surface and
    /// waiting for the fence of the current slot, which then is idle. An
    /// acquired image is recorded for, submitted and presented, and the
    /// engine moves on to the next slot. A surface out of date at
    /// acquisition is rebuilt without a submission and without moving on;
    /// one found stale at presentation is rebuilt after the frame, which
    /// stays submitted. A rebuilt surface sets the mark. Between two
    /// frames the engine can be stopped: it then waits for the device to
    /// go idle, after which every slot is idle and nothing is taken any
    /// more. Anything else is refused and changes nothing.
    pub open spec fn spec_step(self, event: FrameEvent) -> (FrameView, Result<FrameAction, Error>) {
        let slot = self.current_frame;
        match (self.phase, event) {
            (FramePhase::Ready, FrameEvent::Begin { dimensions }) => (
                FrameView {
                    phase: FramePhase::WaitingForFence,
                    recreated_swapchain: false,
                    dimensions,
                    ..self
                },
                Ok(FrameAction::WaitForFence { slot }),
            ),
            (FramePhase::WaitingForFence, FrameEvent::FenceSignaled) => (
                FrameView { phase: FramePhase::Acquiring, ..self.spec_with_slot(SlotState::Idle) },
                Ok(FrameAction::AcquireImage { slot }),
            ),
            (FramePhase::Acquiring, FrameEvent::ImageAcquired { image_index }) => if image_index
                < self.image_count {
                (
                    FrameView { phase: FramePhase::Submitting { image_index }, ..self },
                    Ok(FrameAction::RecordAndSubmit { slot, image_index }),
                )
            } else {
                (self, Err(Error::ImageIndexOutOfBounds))
            },
            (FramePhase::Acquiring, FrameEvent::AcquireOutOfDate) => (
                FrameView { phase: FramePhase::Recreating { advance: false }, ..self },
                Ok(FrameAction::RecreateSwapchain { dimensions: self.dimensions }),
            ),
            (FramePhase::Submitting { image_index }, FrameEvent::Submitted) => (
                FrameView {
                    phase: FramePhase::Presenting { image_index },
                    ..self.spec_with_slot(SlotState::Submitted)
                },
                Ok(FrameAction::Present { slot, image_index }),
            ),
            (FramePhase::Presenting { .. }, FrameEvent::Presented) => (
                FrameView {
                    phase: FramePhase::Ready,
                    current_frame: spec_next_slot(self.current_frame, self.slots.len()),
                    ..self.spec_with_slot(SlotState::Presented)
                },
                Ok(FrameAction::Finished),
            ),
            (FramePhase::Presenting { .. }, FrameEvent::PresentOutOfDate) => (
                FrameView {
                    phase: FramePhase::Recreating { advance: true },
                    ..self.spec_with_slot(SlotState::Presented)
                },
                Ok(FrameAction::RecreateSwapchain { dimensions: self.dimensions }),
            ),
            (
                FramePhase::Recreating { advance },
                FrameEvent::SwapchainRecreated { extent, image_count },
            ) => (
                FrameView {
                    phase: FramePhase::Ready,
                    recreated_swapchain: true,
                    extent,
                    image_count,
                    current_frame: if advance {
                        spec_next_slot(self.current_frame, self.slots.len())
                    } else {
                        self.current_frame
                    },
                    ..self
                },
                Ok(FrameAction::Finished),
            ),
            (FramePhase::Ready, FrameEvent::Stop) => (
                FrameView { phase: FramePhase::Stopping, ..self },
                Ok(FrameAction::WaitForDeviceIdle),
            ),
            (FramePhase::Stopping, FrameEvent::DeviceIdle) => (
                FrameView {
                    phase: FramePhase::Stopped,
                    slots: spec_idle_slots(self.slots.len()),
                    ..self
                },
                Ok(FrameAction::Finished),
            ),
            _ => (self, Err(Error::UnexpectedEvent)),
        }
    }

    /// The state after a sequence of events, refused ones included.
    pub open spec fn spec_run(self, events: Seq<FrameEvent>) -> FrameView
        decreases events.len(),
    {
        if events.len() == 0 {
            self
        } else {
            self.spec_run(events.drop_last()).spec_step(events.last()).0
        }
    }
}

/// Number of slots whose frame the GPU may still be working on: those
/// that are not idle.
pub open spec fn spec_frames_in_flight(slots: Seq<SlotState>) -> nat
    decreases slots.len(),
{
    if slots.len() == 0 {
        0
    } else {
        spec_frames_in_flight(slots.drop_last()) + if slots.last() == SlotState::Idle {
            0nat
        } else {
            1nat
        }
    }
}

/// Number of slots whose frame was submitted and not yet presented.
pub open spec fn spec_frames_submitted(slots: Seq<SlotState>) -> nat
    decreases slots.len(),
{
    if slots.len() == 0 {
        0
    } else {
        spec_frames_submitted(slots.drop_last()) + if slots.last() == SlotState::Submitted {
            1nat
        } else {
            0nat
        }
    }
}

/// No more frames are in flight than there are slots, and no more are
/// submitted than are in flight.
pub proof fn lemma_frames_in_flight_bounded(slots: Seq<SlotState>)
    ensures
        spec_frames_submitted(slots) <= spec_frames_in_flight(slots) <= slots.len(),
    decreases slots.len(),
{
    if slots.len() > 0 {
        lemma_frames_in_flight_bounded(slots.drop_last());
    }
}

/// Every step keeps the engine well formed and the number of its slots.
pub proof fn lemma_step_keeps_well_formed(state: FrameView, event: FrameEvent)
    requires
        state.spec_well_formed(),
    ensures
        state.spec_step(event).0.spec_well_formed(),
        state.spec_step(event).0.slots.len() == state.slots.len(),
{
    let slots = state.slots.len();
    assert(0 <= ((state.current_frame + 1) as int) % (slots as int) < slots);
}

/// A frame is submitted only into an idle slot: the slot that takes it
/// holds no frame that the GPU may still be working on.
pub proof fn lemma_submission_needs_idle_slot(state: FrameView, event: FrameEvent)
    requires
        state.spec_well_formed(),
        state.spec_step(event).1 is Ok,
        state.spec_step(event).1->Ok_0 is RecordAndSubmit,
    ensures
        state.slots[state.current_frame as int] == SlotState::Idle,
        state.spec_step(event).1->Ok_0->RecordAndSubmit_slot == state.current_frame,
{
}

/// Whatever the caller reports, in whatever order, the engine never has
/// more frames submitted, or in flight, than it has slots.
pub proof fn lemma_run_bounds_frames_in_flight(state: FrameView, events: Seq<FrameEvent>)
    requires
        state.spec_well_formed(),
    ensures
        state.spec_run(events).spec_well_formed(),
        state.spec_run(events).slots.len() == state.slots.len(),
        spec_frames_submitted(state.spec_run(events).slots) <= state.slots.len(),
        spec_frames_in_flight(state.spec_run(events).slots) <= state.slots.len(),
    decreases events.len(),
{
    if events.len() > 0 {
        lemma_run_bounds_frames_in_flight(state, events.drop_last());
        lemma_step_keeps_well_formed(state.spec_run(events.drop_last()), events.last());
    }
    lemma_frames_in_flight_bounded(state.spec_run(events).slots);
}

/// An engine of idle slots has no frame in flight.
pub proof fn lemma_idle_slots_hold_no_frame(count: nat)
    ensures
        spec_frames_in_flight(spec_idle_slots(count)) == 0,
    decreases count,
{
    if count > 0 {
        assert(spec_idle_slots(count).drop_last() =~= spec_idle_slots((count - 1) as nat));
        lemma_idle_slots_hold_no_frame((count - 1) as nat);
    }
}

/// A stopped engine stays stopped: it refuses whatever it is told and
/// changes no more. No frame is in flight then, so that resources can be
/// destroyed; and an engine stops only after the device went idle.
pub proof fn lemma_stopped_is_final(state: FrameView, event: FrameEvent)
    requires
        state.spec_well_formed(),
    ensures
        state.phase == FramePhase::Stopped ==> state.spec_step(event) == (
            state,
            Err::<FrameAction, Error>(Error::UnexpectedEvent),
        ) && spec_frames_in_flight(state.slots) == 0,
        state.spec_step(event).0.phase == FramePhase::Stopped && state.phase
            != FramePhase::Stopped ==> event == FrameEvent::DeviceIdle && state.phase
            == FramePhase::Stopping,
        state.spec_step(event).0.phase == FramePhase::Stopping && state.phase
            != FramePhase::Stopping ==> event == FrameEvent::Stop && state.phase
            == FramePhase::Ready,
{
    lemma_idle_slots_hold_no_frame(state.slots.len());
}

/// What the surface answered to a request for an image becomes a report
/// to the engine: an image, or a surface out of date, which the engine
/// recovers from. Any other failure is handed back; it ends the frame
/// loop.
pub fn acquire_event(answer: Result<u32, Error>) -> (outcome: Result<FrameEvent, Error>)
    ensures
        outcome == match answer {
            Ok(image_index) => Ok::<FrameEvent, Error>(FrameEvent::ImageAcquired { image_index }),
            Err(Error::SurfaceOutOfDate) => Ok(FrameEvent::AcquireOutOfDate),
            Err(error) => Err(error),
        },
{
    match answer {
        Ok(image_index) => Ok(FrameEvent::ImageAcquired { image_index }),
        Err(Error::SurfaceOutOfDate) => Ok(FrameEvent::AcquireOutOfDate),
        Err(error) => Err(error),
    }
}

/// What the presentation queue answered becomes a report to the engine.
/// `Ok(true)` stands for a surface that is no longer optimal; like a
/// surface out of date, it has the surface rebuilt after the frame. Any
/// other failure is handed back; it ends the frame loop.
pub fn present_event(answer: Result<bool, Error>) -> (outcome: Result<FrameEvent, Error>)
    ensures
        outcome == match answer {
            Ok(false) => Ok::<FrameEvent, Error>(FrameEvent::Presented),
            Ok(true) => Ok(FrameEvent::PresentOutOfDate),
            Err(Error::SurfaceOutOfDate) => Ok(FrameEvent::PresentOutOfDate),
            Err(error) => Err(error),
        },
{
    match answer {
        Ok(false) => Ok(FrameEvent::Presented),
        Ok(true) => Ok(FrameEvent::PresentOutOfDate),
        Err(Error::SurfaceOutOfDate) => Ok(FrameEvent::PresentOutOfDate),
        Err(error) => Err(error),
    }
}

/// The mark of a rebuilt surface lasts one frame: the next frame to
/// begin clears it, and it stays clear until a surface is rebuilt again.
pub proof fn lemma_mark_lasts_one_frame(state: FrameView, events: Seq<FrameEvent>)
    requires
        state.phase == FramePhase::Ready,
        events.len() > 0,
        events[0] is Begin,
        forall|at: int| 0 <= at < events.len() ==> !(#[trigger] events[at] is SwapchainRecreated),
    ensures
        !state.spec_run(events).recreated_swapchain,
    decreases events.len(),
{
    if events.len() == 1 {
        assert(events.drop_last().len() == 0);
        assert(state.spec_run(events.drop_last()) == state);
    } else {
        let shorter = events.drop_last();
        assert(shorter[0] == events[0]);
        assert forall|at: int| 0 <= at < shorter.len() implies !(
        #[trigger] shorter[at] is SwapchainRecreated) by {
            assert(shorter[at] == events[at]);
        }
        lemma_mark_lasts_one_frame(state, shorter);
        assert(!(events[events.len() - 1] is SwapchainRecreated));
    }
}

/// A surface found out of date and rebuilt marks exactly the frame that
/// rebuilt it.
pub proof fn lemma_recreation_sets_mark(state: FrameView, event: FrameEvent)
    requires
        state.spec_step(event).1 is Ok,
    ensures
        event is SwapchainRecreated ==> state.spec_step(event).0.recreated_swapchain,
        event is Begin ==> !state.spec_step(event).0.recreated_swapchain,
        !(event is SwapchainRecreated) && !(event is Begin) ==> state.spec_step(
            event,
        ).0.recreated_swapchain == state.recreated_swapchain,
{
}

/// The frame engine: a ring of in-flight slots, the phase of the frame
/// being made, and what is known of the presentation surface.
#[derive(Debug, Clone, PartialEq, Eq)]
pub struct Frame {
    pub current_frame: usize,
    pub slots: Vec<SlotState>,
    pub phase: FramePhase,
    /// Set by the frame that rebuilt the surface, cleared by the next.
    pub recreated_swapchain: bool,
    pub extent: Extent2D,
    pub image_count: u32,
    pub dimensions: Extent2D,
}

impl View for Frame {
    type V = FrameView;

    open spec fn view(&self) -> FrameView {
        FrameView {
            current_frame: self.current_frame,
            slots: self.slots@,
            phase: self.phase,
            recreated_swapchain: self.recreated_swapchain,
            extent: self.extent,
            image_count: self.image_count,
            dimensions: self.dimensions,
        }
    }
}

fn idle_slots(count: usize) -> (slots: Vec<SlotState>)
    ensures
        slots@ == spec_idle_slots(count as nat),
{
    let mut slots: Vec<SlotState> = Vec::new();
    let mut slot: usize = 0;
    while slot < count
        invariant
            slot <= count,
            slots@ == spec_idle_slots(slot as nat),
        decreases count - slot,
    {
        slots.push(SlotState::Idle);
        slot = slot + 1;
        assert(slots@ =~= spec_idle_slots(slot as nat));
    }
    slots
}

fn all_idle(slots: &Vec<SlotState>) -> (idle: bool)
    ensures
        idle == (slots@ == spec_idle_slots(slots@.len())),
{
    let mut slot: usize = 0;
    while slot < slots.len()
        invariant
            slot <= slots@.len(),
            forall|before: int| 0 <= before < slot ==> #[trigger] slots@[before] == SlotState::Idle,
        decreases slots@.len() - slot,
    {
        if slots[slot] != SlotState::Idle {
            assert(spec_idle_slots(slots@.len())[slot as int] == SlotState::Idle);
            return false;
        }
        slot = slot + 1;
    }
    assert(slots@ =~= spec_idle_slots(slots@.len()));
    true
}

impl Frame {
    /// An engine between frames, with every slot idle, for a surface of
    /// `image_count` images of extent `dimensions`.
    pub fn new(dimensions: Extent2D, image_count: u32, frames_in_flight: usize) -> (frame: Self)
        requires
            frames_in_flight > 0,
        ensures
            frame@.spec_well_formed(),
            frame@ == (FrameView {
                current_frame: 0,
                slots: spec_idle_slots(frames_in_flight as nat),
                phase: FramePhase::Ready,
                recreated_swapchain: false,
                extent: dimensions,
                image_count,
                dimensions,
            }),
    {
        let slots = idle_slots(frames_in_flight);
        Frame {
            current_frame: 0,
            slots,
            phase: FramePhase::Ready,
            recreated_swapchain: false,
            extent: dimensions,
            image_count,
            dimensions,
        }
    }

    /// Whether the engine is in a state that `step` can work from. Every
    /// engine that `new` made and only `step` changed is.
    pub fn is_well_formed(&self) -> (well_formed: bool)
        ensures
            well_formed == self@.spec_well_formed(),
    {
        if self.current_frame >= self.slots.len() {
            return false;
        }
        let slot = self.slots[self.current_frame];
        match self.phase {
            FramePhase::Ready | FramePhase::WaitingForFence | FramePhase::Stopping => true,
            FramePhase::Acquiring | FramePhase::Submitting { .. } | FramePhase::Recreating {
                advance: false,
            } => slot == SlotState::Idle,
            FramePhase::Presenting { .. } => slot == SlotState::Submitted,
            FramePhase::Recreating { advance: true } => slot == SlotState::Presented,
            FramePhase::Stopped => all_idle(&self.slots),
        }
    }

    /// Number of frames that the GPU may still be working on.
    pub fn frames_in_flight(&self) -> (count: usize)
        ensures
            count == spec_frames_in_flight(self.slots@),
            count <= self.slots@.len(),
    {
        let mut count: usize = 0;
        let mut slot: usize = 0;
        while slot < self.slots.len()
            invariant
                slot <= self.slots@.len(),
                count <= slot,
                count == spec_frames_in_flight(self.slots@.subrange(0, slot as int)),
            decreases self.slots@.len() - slot,
        {
            proof {
                assert(self.slots@.subrange(0, slot + 1).drop_last() =~= self.slots@.subrange(
                    0,
                    slot as int,
                ));
            }
            if self.slots[slot] != SlotState::Idle {
                count = count + 1;
            }
            slot = slot + 1;
        }
        assert(self.slots@.subrange(0, slot as int) =~= self.slots@);
        count
    }

    fn next_slot(&self) -> (next: usize)
        requires
            self@.spec_well_formed(),
        ensures
            next == spec_next_slot(self.current_frame, self.slots@.len()),
            next < self.slots@.len(),
    {
        let slots: usize = self.slots.len();
        (self.current_frame + 1) % slots
    }

    /// Takes one report from the caller and answers with what to do
    /// next. A report that does not fit the phase, or an acquired image
    /// that the surface does not have, is refused and changes nothing.
    pub fn step(&mut self, event: FrameEvent) -> (outcome: Result<FrameAction, Error>)
        requires
            old(self)@.spec_well_formed(),
        ensures
            final(self)@.spec_well_formed(),
            final(self)@ == old(self)@.spec_step(event).0,
            outcome == old(self)@.spec_step(event).1,
    {
        let slot: usize = self.current_frame;
        proof {
            lemma_step_keeps_well_formed(self@, event);
        }
        let outcome = match (self.phase, event) {
            (FramePhase::Ready, FrameEvent::Begin { dimensions }) => {
                self.phase = FramePhase::WaitingForFence;
                self.recreated_swapchain = false;
                self.dimensions = dimensions;
                Ok(FrameAction::WaitForFence { slot })
            },
            (FramePhase::WaitingForFence, FrameEvent::FenceSignaled) => {
                self.slots.set(slot, SlotState::Idle);
                self.phase = FramePhase::Acquiring;
                Ok(FrameAction::AcquireImage { slot })
            },
            (FramePhase::Acquiring, FrameEvent::ImageAcquired { image_index }) => {
                if image_index < self.image_count {
                    self.phase = FramePhase::Submitting { image_index };
                    Ok(FrameAction::RecordAndSubmit { slot, image_index })
                } else {
                    Err(Error::ImageIndexOutOfBounds)
                }
            },
            (FramePhase::Acquiring, FrameEvent::AcquireOutOfDate) => {
                self.phase = FramePhase::Recreating { advance: false };
                Ok(FrameAction::RecreateSwapchain { dimensions: self.dimensions })
            },
            (FramePhase::Submitting { image_index }, FrameEvent::Submitted) => {
                self.slots.set(slot, SlotState::Submitted);
                self.phase = FramePhase::Presenting { image_index };
                Ok(FrameAction::Present { slot, image_index })
            },
            (FramePhase::Presenting { .. }, FrameEvent::Presented) => {
                let next = self.next_slot();
                self.slots.set(slot, SlotState::Presented);
                self.phase = FramePhase::Ready;
                self.current_frame = next;
                Ok(FrameAction::Finished)
            },
            (FramePhase::Presenting { .. }, FrameEvent::PresentOutOfDate) => {
                self.slots.set(slot, SlotState::Presented);
                self.phase = FramePhase::Recreating { advance: true };
                Ok(FrameAction::RecreateSwapchain { dimensions: self.dimensions })
            },
            (
                FramePhase::Recreating { advance },
                FrameEvent::SwapchainRecreated { extent, image_count },
            ) => {
                if advance {
                    self.current_frame = self.next_slot();
                }
                self.phase = FramePhase::Ready;
                self.recreated_swapchain = true;
                self.extent = extent;
                self.image_count = image_count;
                Ok(FrameAction::Finished)
            },
            (FramePhase::Ready, FrameEvent::Stop) => {
                self.phase = FramePhase::Stopping;
                Ok(FrameAction::WaitForDeviceIdle)
            },
            (FramePhase::Stopping, FrameEvent::DeviceIdle) => {
                self.slots = idle_slots(self.slots.len());
                self.phase = FramePhase::Stopped;
                Ok(FrameAction::Finished)
            },
            _ => Err(Error::UnexpectedEvent),
        };
        assert(self@.slots =~= old(self)@.spec_step(event).0.slots);
        outcome
    }
}

} // verus!
