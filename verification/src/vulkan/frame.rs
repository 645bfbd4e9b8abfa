use vstd::prelude::*;

verus! {

/// What acquiring the next swapchain image returned. A suboptimal acquire
/// still hands an image out and is treated as success here.
#[derive(Debug, Clone, Copy, PartialEq, Eq, Structural)]
pub enum AcquireResult {
    Image(u32),
    OutOfDate,
}

/// What presenting the finished image returned; the payload of `Presented`
/// says whether the swapchain reported itself suboptimal.
#[derive(Debug, Clone, Copy, PartialEq, Eq, Structural)]
pub enum PresentResult {
    Presented(bool),
    OutOfDate,
}

/// The GPU-facing operations of one frame, in the order the frame engine
/// performs them. The payloads name the in-flight sync slot and, where one
/// is involved, the acquired swapchain image.
#[derive(Debug, Clone, Copy, PartialEq, Eq, Structural)]
pub enum FrameAction {
    AcquireImage(usize),
    WaitFence(usize),
    ResetFence(usize),
    UpdateUniforms(u32),
    SubmitCommands(usize),
    PresentImage(u32),
}

/// The work one successful acquire leads to: which sync slot's fence and
/// semaphores are in use and which swapchain image is drawn into.
#[derive(Debug, Clone, Copy, PartialEq, Eq, Structural)]
pub struct FramePlan {
    pub sync_slot: usize,
    pub image_index: u32,
}

/// A fixed-size ring of per-frame synchronization slots, cycled round-robin.
/// `fence_pending[i]` records that slot `i` has submitted work whose fence
/// has not been waited on and reset since.
pub struct InFlightFrames {
    pub ring_size: usize,
    pub current_frame: usize,
    pub fence_pending: Vec<bool>,
}

/// The actions one call of the frame engine performs, given the sync slot it
/// runs on and what the acquire returned.
///
/// An out-of-date acquire ends the frame at once: no work was submitted, so
/// the fence is deliberately not reset. Otherwise the slot's fence is waited
/// on and reset first, and only then are the uniforms written and the
/// command buffer submitted (signalling that same fence) and presented.
pub open spec fn spec_frame_actions(slot: usize, r: AcquireResult) -> Seq<FrameAction> {
    match r {
        AcquireResult::OutOfDate => seq![FrameAction::AcquireImage(slot)],
        AcquireResult::Image(idx) => seq![
            FrameAction::AcquireImage(slot),
            FrameAction::WaitFence(slot),
            FrameAction::ResetFence(slot),
            FrameAction::UpdateUniforms(idx),
            FrameAction::SubmitCommands(slot),
            FrameAction::PresentImage(idx),
        ],
    }
}

/// The fence discipline of a frame's action sequence: work is submitted on a
/// slot only after that slot's fence was waited on and then reset, in that
/// order; and a fence is reset only when a submission follows, so an early
/// return leaves the fence signalled for the next frame.
pub open spec fn fence_protocol_ok(actions: Seq<FrameAction>) -> bool {
    &&& forall|p: int|
        0 <= p < actions.len() && (#[trigger] actions[p]) is SubmitCommands ==> exists|w: int, q: int|
            0 <= w < q < p && actions[w] == FrameAction::WaitFence(actions[p]->SubmitCommands_0)
                && actions[q] == FrameAction::ResetFence(actions[p]->SubmitCommands_0)
    &&& forall|q: int|
        0 <= q < actions.len() && (#[trigger] actions[q]) is ResetFence ==> exists|p: int|
            q < p < actions.len() && actions[p] == FrameAction::SubmitCommands(
                actions[q]->ResetFence_0,
            )
}

impl InFlightFrames {
    /// The ring is non-empty, the cursor is inside it, and there is one
    /// pending-fence flag per slot.
    pub open spec fn wf(&self) -> bool {
        &&& self.ring_size >= 1
        &&& self.current_frame < self.ring_size
        &&& self.fence_pending@.len() == self.ring_size
    }

    /// A ring of `ring_size` slots whose fences all start out signalled (no
    /// work pending), with the cursor on slot 0.
    pub fn new(ring_size: usize) -> (f: InFlightFrames)
        requires
            ring_size >= 1,
        ensures
            f.wf(),
            f.ring_size == ring_size,
            f.current_frame == 0,
            forall|i: int| 0 <= i < ring_size ==> !(#[trigger] f.fence_pending@[i]),
    {
        let mut fence_pending: Vec<bool> = Vec::new();
        let mut k: usize = 0;
        while k < ring_size
            invariant
                k <= ring_size,
                fence_pending@.len() == k,
                forall|i: int| 0 <= i < k ==> !(#[trigger] fence_pending@[i]),
            decreases ring_size - k,
        {
            fence_pending.push(false);
            k = k + 1;
        }
        InFlightFrames { ring_size, current_frame: 0, fence_pending }
    }

    /// The slot whose semaphores and fence the next frame uses.
    pub fn next(&mut self) -> (slot: usize)
        requires
            old(self).wf(),
        ensures
            final(self).wf(),
            slot == old(self).current_frame,
            final(self).current_frame == (old(self).current_frame + 1) % old(self).ring_size as int,
            final(self).ring_size == old(self).ring_size,
            final(self).fence_pending == old(self).fence_pending,
    {
        let slot = self.current_frame;
        self.current_frame = (self.current_frame + 1) % self.ring_size;
        slot
    }

    /// Starts a frame on the current slot, given what the acquire returned.
    ///
    /// An out-of-date acquire changes nothing — in particular the fence is
    /// not reset and the cursor does not advance, since no work was
    /// submitted. A successful acquire commits the frame's fence protocol:
    /// wait on the slot's fence, reset it, submit work that signals it again.
    pub fn begin_frame(&mut self, r: AcquireResult) -> (plan: Option<FramePlan>)
        requires
            old(self).wf(),
        ensures
            final(self).wf(),
            r is OutOfDate ==> *final(self) == *old(self) && plan is None,
            r is Image ==> plan == Some(
                FramePlan { sync_slot: old(self).current_frame, image_index: r->Image_0 },
            ),
            r is Image ==> final(self).ring_size == old(self).ring_size
                && final(self).current_frame == old(self).current_frame
                && final(self).fence_pending@ == old(self).fence_pending@.update(
                old(self).current_frame as int,
                true,
            ),
    {
        match r {
            AcquireResult::OutOfDate => None,
            AcquireResult::Image(image_index) => {
                let slot = self.current_frame;
                self.fence_pending.set(slot, true);
                Some(FramePlan { sync_slot: slot, image_index })
            },
        }
    }

    /// Ends a submitted frame, given what presenting returned, and advances
    /// the ring cursor. Returns whether the swapchain must be recreated
    /// before the next frame.
    pub fn finish_frame(&mut self, r: PresentResult) -> (needs_recreate: bool)
        requires
            old(self).wf(),
        ensures
            final(self).wf(),
            final(self).ring_size == old(self).ring_size,
            final(self).fence_pending == old(self).fence_pending,
            final(self).current_frame == (old(self).current_frame + 1) % old(self).ring_size as int,
            needs_recreate == match r {
                PresentResult::Presented(suboptimal) => suboptimal,
                PresentResult::OutOfDate => true,
            },
    {
        self.current_frame = (self.current_frame + 1) % self.ring_size;
        match r {
            PresentResult::Presented(suboptimal) => suboptimal,
            PresentResult::OutOfDate => true,
        }
    }
}

/// The actions of one frame on sync slot `slot`, given what the acquire
/// returned: exactly `spec_frame_actions`, in its order, for a driver to
/// perform.
pub fn frame_actions(slot: usize, r: AcquireResult) -> (actions: Vec<FrameAction>)
    ensures
        actions@ == spec_frame_actions(slot, r),
{
    let mut actions: Vec<FrameAction> = Vec::new();
    actions.push(FrameAction::AcquireImage(slot));
    match r {
        AcquireResult::OutOfDate => {},
        AcquireResult::Image(idx) => {
            actions.push(FrameAction::WaitFence(slot));
            actions.push(FrameAction::ResetFence(slot));
            actions.push(FrameAction::UpdateUniforms(idx));
            actions.push(FrameAction::SubmitCommands(slot));
            actions.push(FrameAction::PresentImage(idx));
        },
    }
    proof {
        assert(actions@ =~= spec_frame_actions(slot, r));
    }
    actions
}

/// Frame-ring law: whatever the acquire returns, the frame's actions keep
/// the fence discipline — the slot's fence is waited on and reset before any
/// submission on that slot, and it is never reset on a frame that submits no
/// work. Successive frames concatenate such sequences, so between any two
/// submissions on one slot its fence is waited on and reset.
#[verifier::rlimit(50)]
pub proof fn lemma_frame_fence_protocol(slot: usize, r: AcquireResult)
    ensures
        fence_protocol_ok(spec_frame_actions(slot, r)),
{
    let actions = spec_frame_actions(slot, r);
    match r {
        AcquireResult::OutOfDate => {
            assert(actions.len() == 1);
            assert(actions[0] == FrameAction::AcquireImage(slot));
        },
        AcquireResult::Image(idx) => {
            assert(actions[1] == FrameAction::WaitFence(slot));
            assert(actions[2] == FrameAction::ResetFence(slot));
            assert(actions[4] == FrameAction::SubmitCommands(slot));
            assert forall|p: int|
                0 <= p < actions.len() && (#[trigger] actions[p]) is SubmitCommands implies exists|
                w: int,
                q: int,
            |
                0 <= w < q < p && actions[w] == FrameAction::WaitFence(
                    actions[p]->SubmitCommands_0,
                ) && actions[q] == FrameAction::ResetFence(actions[p]->SubmitCommands_0) by {
                assert(p == 4);
                assert(0 <= 1 < 2 < p && actions[1] == FrameAction::WaitFence(
                    actions[p]->SubmitCommands_0,
                ) && actions[2] == FrameAction::ResetFence(actions[p]->SubmitCommands_0));
            }
            assert forall|q: int|
                0 <= q < actions.len() && (#[trigger] actions[q]) is ResetFence implies exists|
                p: int,
            |
                q < p < actions.len() && actions[p] == FrameAction::SubmitCommands(
                    actions[q]->ResetFence_0,
                ) by {
                assert(q == 2);
                assert(q < 4 < actions.len() && actions[4] == FrameAction::SubmitCommands(
                    actions[q]->ResetFence_0,
                ));
            }
        },
    }
}

} // verus!
