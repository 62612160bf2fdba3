//! The N-buffered frame synchronization ring.
//!
//! Each of N slots owns a fence, two semaphores, a command buffer and a
//! uniform region; frame `f` uses slot `f mod N`. A slot's resources
//! are never reused until the fence wait for the slot's previous
//! submission has returned signaled: that wait is the only thing that
//! keeps the CPU from overwriting data the GPU may still read.
//!
//! The ring tracks each slot's protocol state and two counters — how
//! many submissions the slot has made and how many fence waits have
//! returned for it. The well-formedness invariant ties them together:
//! outside the submitted state the counts agree, so every past
//! submission was followed by a fence wait that returned before the
//! slot was touched again.

use vstd::arithmetic::div_mod::lemma_mod_add_multiples_vanish;
use vstd::prelude::*;

verus! {

/// Where a slot stands in its cycle for the current use.
#[derive(Debug, Clone, Copy, PartialEq, Eq, Structural)]
pub enum VFrameSlotState {
    /// Not in use: its previous submission, if any, has been waited out.
    Idle,
    /// The frame's swapchain image has been acquired for this slot.
    Acquiring,
    /// The slot's command buffer is being recorded.
    Recording,
    /// Submitted to the queue; the GPU may still be executing. Only a
    /// returned fence wait moves the slot back to idle.
    Submitted,
}

/// One frame slot: its protocol state, the state of its fence as the
/// protocol last left it, and the two counters the invariant relates.
#[derive(Debug, Clone, Copy, PartialEq, Eq, Structural)]
pub struct VFrameSlot {
    pub state: VFrameSlotState,
    /// Whether the slot's fence is signaled as far as the protocol
    /// knows: true at creation, false from the post-wait reset until
    /// the next wait returns.
    pub fence_signaled: bool,
    /// Submissions made on this slot.
    pub submits: u64,
    /// Fence waits that returned signaled for this slot's submissions.
    pub waits_returned: u64,
}

impl VFrameSlot {
    /// The counters agree with the state: a submitted slot has exactly
    /// one submission not yet waited out; any other slot has none.
    pub open spec fn wf(self) -> bool {
        &&& self.state == VFrameSlotState::Submitted ==> self.submits == self.waits_returned + 1
        &&& self.state != VFrameSlotState::Submitted ==> self.submits == self.waits_returned
    }
}

/// The ring of N frame slots plus the count of frames completed so far;
/// frame `f` uses slot `f mod N`.
#[derive(Debug, Clone, PartialEq, Eq)]
pub struct VFrameRing {
    pub slots: Vec<VFrameSlot>,
    pub frame_count: u64,
}

impl VFrameRing {
    /// The ring has at least one slot and every slot's counters agree
    /// with its state.
    pub open spec fn wf(self) -> bool {
        &&& self.slots@.len() > 0
        &&& forall|i: int| 0 <= i < self.slots@.len() ==> (#[trigger] self.slots@[i]).wf()
    }

    /// The slot the current frame uses.
    pub open spec fn spec_current_slot(self) -> int {
        (self.frame_count as int) % (self.slots@.len() as int)
    }

    /// Creates the ring: every slot idle, its fence created signaled so
    /// the first wait on it returns immediately, and no submissions yet.
    pub fn new(num_slots: usize) -> (r: Self)
        requires
            num_slots > 0,
        ensures
            r.wf(),
            r.slots@.len() == num_slots,
            r.frame_count == 0,
            forall|i: int|
                0 <= i < num_slots ==> #[trigger] r.slots@[i] == (VFrameSlot {
                    state: VFrameSlotState::Idle,
                    fence_signaled: true,
                    submits: 0,
                    waits_returned: 0,
                }),
    {
        let mut slots: Vec<VFrameSlot> = Vec::new();
        let mut i: usize = 0;
        while i < num_slots
            invariant
                i <= num_slots,
                slots@.len() == i,
                forall|j: int|
                    0 <= j < i ==> #[trigger] slots@[j] == (VFrameSlot {
                        state: VFrameSlotState::Idle,
                        fence_signaled: true,
                        submits: 0,
                        waits_returned: 0,
                    }),
            decreases num_slots - i,
        {
            slots.push(
                VFrameSlot {
                    state: VFrameSlotState::Idle,
                    fence_signaled: true,
                    submits: 0,
                    waits_returned: 0,
                },
            );
            i = i + 1;
        }
        VFrameRing { slots, frame_count: 0 }
    }

    /// The number of slots.
    pub fn num_slots(&self) -> (r: usize)
        ensures
            r == self.slots@.len(),
    {
        self.slots.len()
    }

    /// The index of the slot the current frame uses.
    pub fn current_slot(&self) -> (r: usize)
        requires
            self.wf(),
        ensures
            r == self.spec_current_slot(),
    {
        (self.frame_count % (self.slots.len() as u64)) as usize
    }

    /// Step 1 of a frame: the blocking wait on the current slot's fence
    /// returned signaled — the GPU has finished the slot's previous
    /// submission — and the fence was reset at once. Only now may the
    /// slot's command buffer and uniform region be touched again.
    ///
    /// On a slot never submitted the fence was created signaled, so the
    /// wait returns immediately and no submission is waited out.
    pub fn fence_wait_returned(&mut self)
        requires
            old(self).wf(),
            old(self).slots@[old(self).spec_current_slot()].state == VFrameSlotState::Idle || old(self).slots@[old(self).spec_current_slot()].state == VFrameSlotState::Submitted,
            old(self).slots@[old(self).spec_current_slot()].waits_returned < u64::MAX,
        ensures
            final(self).wf(),
            final(self).frame_count == old(self).frame_count,
            final(self).slots@.len() == old(self).slots@.len(),
            forall|i: int|
                0 <= i < old(self).slots@.len() && i != old(self).spec_current_slot()
                    ==> final(self).slots@[i] == old(self).slots@[i],
            final(self).slots@[old(self).spec_current_slot()] == (VFrameSlot {
                state: VFrameSlotState::Idle,
                fence_signaled: false,
                submits: old(self).slots@[old(self).spec_current_slot()].submits,
                waits_returned: old(self).slots@[old(self).spec_current_slot()].submits,
            }),
    {
        let slot_index = self.current_slot();
        let slot = self.slots[slot_index];
        self.slots.set(
            slot_index,
            VFrameSlot {
                state: VFrameSlotState::Idle,
                fence_signaled: false,
                submits: slot.submits,
                waits_returned: slot.submits,
            },
        );
    }

    /// Step 2 of a frame: the swapchain image for this frame has been
    /// acquired, with the slot's present-semaphore set to be signaled
    /// when the image is ready. Requires the fence wait of step 1: the
    /// slot must be idle with its fence already reset.
    pub fn image_acquired(&mut self)
        requires
            old(self).wf(),
            old(self).slots@[old(self).spec_current_slot()].state == VFrameSlotState::Idle,
            !old(self).slots@[old(self).spec_current_slot()].fence_signaled,
        ensures
            final(self).wf(),
            final(self).frame_count == old(self).frame_count,
            final(self).slots@.len() == old(self).slots@.len(),
            forall|i: int|
                0 <= i < old(self).slots@.len() && i != old(self).spec_current_slot()
                    ==> final(self).slots@[i] == old(self).slots@[i],
            final(self).slots@[old(self).spec_current_slot()] == (VFrameSlot {
                state: VFrameSlotState::Acquiring,
                fence_signaled: old(self).slots@[old(self).spec_current_slot()].fence_signaled,
                submits: old(self).slots@[old(self).spec_current_slot()].submits,
                waits_returned: old(self).slots@[old(self).spec_current_slot()].waits_returned,
            }),
    {
        let slot_index = self.current_slot();
        let slot = self.slots[slot_index];
        self.slots.set(slot_index, VFrameSlot { state: VFrameSlotState::Acquiring, ..slot });
    }

    /// Step 3 of a frame: recording of the slot's command buffer
    /// begins. Recording frame `f` on this slot is impossible until the
    /// fence wait for the slot's previous use (frame `f - N`) returned:
    /// the slot only reaches the acquiring state through that wait.
    pub fn recording_begun(&mut self)
        requires
            old(self).wf(),
            old(self).slots@[old(self).spec_current_slot()].state == VFrameSlotState::Acquiring,
        ensures
            final(self).wf(),
            final(self).frame_count == old(self).frame_count,
            final(self).slots@.len() == old(self).slots@.len(),
            forall|i: int|
                0 <= i < old(self).slots@.len() && i != old(self).spec_current_slot()
                    ==> final(self).slots@[i] == old(self).slots@[i],
            final(self).slots@[old(self).spec_current_slot()] == (VFrameSlot {
                state: VFrameSlotState::Recording,
                fence_signaled: old(self).slots@[old(self).spec_current_slot()].fence_signaled,
                submits: old(self).slots@[old(self).spec_current_slot()].submits,
                waits_returned: old(self).slots@[old(self).spec_current_slot()].waits_returned,
            }),
            final(self).slots@[final(self).spec_current_slot()].submits == final(self).slots@[final(self).spec_current_slot()].waits_returned,
    {
        let slot_index = self.current_slot();
        let slot = self.slots[slot_index];
        self.slots.set(slot_index, VFrameSlot { state: VFrameSlotState::Recording, ..slot });
    }

    /// Step 4 of a frame: the recorded command buffer was submitted to
    /// the graphics queue, waiting on the present-semaphore, signaling
    /// the render-semaphore, and signaling the slot's fence when the
    /// GPU finishes — which is what the next use of this slot waits on.
    pub fn submitted(&mut self)
        requires
            old(self).wf(),
            old(self).slots@[old(self).spec_current_slot()].state == VFrameSlotState::Recording,
            old(self).slots@[old(self).spec_current_slot()].submits < u64::MAX,
        ensures
            final(self).wf(),
            final(self).frame_count == old(self).frame_count,
            final(self).slots@.len() == old(self).slots@.len(),
            forall|i: int|
                0 <= i < old(self).slots@.len() && i != old(self).spec_current_slot()
                    ==> final(self).slots@[i] == old(self).slots@[i],
            final(self).slots@[old(self).spec_current_slot()] == (VFrameSlot {
                state: VFrameSlotState::Submitted,
                fence_signaled: old(self).slots@[old(self).spec_current_slot()].fence_signaled,
                submits: (old(self).slots@[old(self).spec_current_slot()].submits + 1) as u64,
                waits_returned: old(self).slots@[old(self).spec_current_slot()].waits_returned,
            }),
    {
        let slot_index = self.current_slot();
        let slot = self.slots[slot_index];
        self.slots.set(
            slot_index,
            VFrameSlot {
                state: VFrameSlotState::Submitted,
                submits: slot.submits + 1,
                ..slot
            },
        );
    }

    /// Step 5 of a frame: the acquired image was handed to the present
    /// queue, waiting on the render-semaphore. The frame is complete;
    /// the next frame moves to the next slot. The slot stays submitted
    /// until its fence wait returns, N frames later.
    pub fn presented(&mut self)
        requires
            old(self).wf(),
            old(self).slots@[old(self).spec_current_slot()].state == VFrameSlotState::Submitted,
            old(self).frame_count < u64::MAX,
        ensures
            final(self).wf(),
            final(self).frame_count == old(self).frame_count + 1,
            final(self).slots@ == old(self).slots@,
    {
        self.frame_count = self.frame_count + 1;
    }
}

/// Frame `frame` and frame `frame + num_slots` target the same slot:
/// with N slots the ring reuses each slot every N-th frame, and the
/// slot's fence is what serializes those two frames against each
/// other, while the N - 1 frames between them may be in flight
/// concurrently on the other slots.
pub proof fn lemma_same_slot_every_n_frames(frame: int, num_slots: int)
    requires
        num_slots > 0,
        frame >= 0,
    ensures
        (frame + num_slots) % num_slots == frame % num_slots,
{
    lemma_mod_add_multiples_vanish(frame, num_slots);
}

/// One queue submission, assembled for the driver: the command
/// buffers to run, the semaphores the GPU waits on (each at its
/// pipeline stage) before running them, and the semaphores it signals
/// when done. Handles are opaque.
#[derive(Debug, Clone, PartialEq, Eq)]
pub struct VSubmitInfo {
    pub command_buffers: Vec<u64>,
    pub wait_semaphores: Vec<u64>,
    pub wait_stage_masks: Vec<u32>,
    pub signal_semaphores: Vec<u64>,
}

/// Assembles one queue submission from its parts, unchanged: a frame
/// submits its slot's command buffer, waits on the slot's
/// present-semaphore at the color-attachment-output stage, and signals
/// the slot's render-semaphore.
pub fn create_queue_submit_info(
    command_buffers: Vec<u64>,
    wait_semaphores: Vec<u64>,
    wait_stage_masks: Vec<u32>,
    signal_semaphores: Vec<u64>,
) -> (r: VSubmitInfo)
    ensures
        r.command_buffers@ == command_buffers@,
        r.wait_semaphores@ == wait_semaphores@,
        r.wait_stage_masks@ == wait_stage_masks@,
        r.signal_semaphores@ == signal_semaphores@,
{
    VSubmitInfo { command_buffers, wait_semaphores, wait_stage_masks, signal_semaphores }
}

/// The reuse discipline, stated over any reachable ring: a slot being
/// recorded (or acquired, or idle) has every one of its submissions
/// waited out — the CPU never records into a slot whose previous
/// submission's fence wait has not returned signaled.
pub proof fn lemma_no_recording_before_fence_wait(ring: VFrameRing, i: int)
    requires
        ring.wf(),
        0 <= i < ring.slots@.len(),
        ring.slots@[i].state != VFrameSlotState::Submitted,
    ensures
        ring.slots@[i].submits == ring.slots@[i].waits_returned,
{
}

} // verus!
