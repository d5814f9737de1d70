//! The frame engine: a fixed ring of per-frame synchronization slots
//! driving a fence-disciplined render loop.
//!
//! Each frame slot owns one image-available semaphore, one render-finished
//! semaphore and one in-flight fence, all indexed by the slot number. The
//! queue tracks which slot's fence was last recorded against each
//! swap-chain image, so that a frame never reuses an image whose previous
//! writer the host has not yet waited for.

use vstd::prelude::*;

use crate::teardown::{teardown_plan, spec_teardown_plan, ContextResources, DestroyOp};

verus! {

/// Everything the embedder must do to finish one frame, after acquiring
/// the image this submission names: wait on the extra fence when one is
/// named, reset the slot's own fence, submit the pre-recorded command
/// buffer of `image_index` on the graphics queue — waiting on the slot's
/// image-available semaphore and signaling the slot's render-finished
/// semaphore and fence — then present `image_index` on the present queue,
/// waiting on the slot's render-finished semaphore.
#[derive(Debug, Clone, Copy, PartialEq, Eq, Structural)]
pub struct FrameSubmission {
    /// The frame slot whose semaphores and fence this frame uses.
    pub frame_index: u8,
    /// The acquired swap-chain image to render to and present.
    pub image_index: u32,
    /// A different slot's fence still recorded against the acquired image;
    /// the embedder must wait on it before reusing the image's command
    /// buffer. `None` when the image is free or last used by this slot.
    pub wait_image_fence: Option<u8>,
}

/// The assembled rendering context and the state of its frame loop.
#[derive(Debug)]
pub struct RenderingQueue {
    /// Counts of every owned driver object, for the teardown sequencer.
    pub resources: ContextResources,
    /// How many frames may be queued ahead; the number of sync slots.
    pub flight_frames_count: u8,
    /// The slot the next `render` call will use.
    pub current_frame_index: u8,
    /// Per swap-chain image: the slot whose fence was last recorded
    /// against it, or `None` while the image was never rendered to.
    pub swapchain_image_fences: Vec<Option<u8>>,
    /// Per slot: the image its last submission rendered to, or `None`
    /// while the slot was never used.
    pub frame_images: Vec<Option<u32>>,
    /// Per slot: whether its fence guards a submission the host has not
    /// yet waited for. Fences are created signaled, so slots start free.
    pub fences_in_flight: Vec<bool>,
}

/// How many slots currently guard an unfinished submission.
pub open spec fn spec_count_in_flight(s: Seq<bool>) -> int
    decreases s.len(),
{
    if s.len() == 0 {
        0
    } else {
        spec_count_in_flight(s.drop_last()) + if s.last() {
            1int
        } else {
            0int
        }
    }
}

/// No sequence holds more set entries than its length.
pub proof fn lemma_count_in_flight_le_len(s: Seq<bool>)
    ensures
        0 <= spec_count_in_flight(s) <= s.len(),
    decreases s.len(),
{
    if s.len() > 0 {
        lemma_count_in_flight_le_len(s.drop_last());
    }
}

impl RenderingQueue {
    /// The number of swap-chain images of the context.
    pub open spec fn spec_images_count(self) -> nat {
        self.swapchain_image_fences@.len()
    }

    /// The frame-loop invariant. Beyond bounds and lengths, the
    /// correctness-critical clause is the last one: a slot whose fence is
    /// in flight is the recorded last writer of its image, so no two
    /// in-flight slots can ever target the same swap-chain image.
    pub open spec fn is_well_formed(self) -> bool {
        &&& self.flight_frames_count >= 1
        &&& self.resources.frames_in_flight == self.flight_frames_count
        &&& self.resources.images_count == self.swapchain_image_fences@.len()
        &&& self.current_frame_index < self.flight_frames_count
        &&& self.frame_images@.len() == self.flight_frames_count
        &&& self.fences_in_flight@.len() == self.flight_frames_count
        &&& forall|i: int|
            0 <= i < self.swapchain_image_fences@.len() ==> ((
            #[trigger] self.swapchain_image_fences@[i]) matches Some(f) ==> f
                < self.flight_frames_count)
        &&& forall|f: int|
            0 <= f < self.frame_images@.len() ==> ((#[trigger] self.frame_images@[f]) matches Some(
            img) ==> img < self.swapchain_image_fences@.len())
        &&& forall|f: int|
            #![auto]
            0 <= f < self.flight_frames_count && self.fences_in_flight@[f] ==> {
                &&& self.frame_images@[f] matches Some(img)
                &&& self.swapchain_image_fences@[img as int] == Some(f as u8)
            }
    }

    /// The extra fence a frame must wait on before reusing the acquired
    /// image: the fence of a different slot still recorded against it.
    pub open spec fn spec_extra_wait(self, image_index: u32) -> Option<u8> {
        match self.swapchain_image_fences@[image_index as int] {
            Some(f) => if f != self.current_frame_index {
                Some(f)
            } else {
                None
            },
            None => None,
        }
    }

    /// The fence states after one frame: the slot's own fence was waited
    /// on and re-submitted, and the extra fence, when one was named, was
    /// waited on.
    pub open spec fn spec_fences_after(self, image_index: u32) -> Seq<bool> {
        match self.spec_extra_wait(image_index) {
            Some(f) => self.fences_in_flight@.update(f as int, false).update(
                self.current_frame_index as int,
                true,
            ),
            None => self.fences_in_flight@.update(self.current_frame_index as int, true),
        }
    }

    /// A fresh context: no image was rendered to, no slot is in flight,
    /// the loop starts at slot zero. Fences are created signaled so the
    /// first frame does not block.
    pub fn new(resources: ContextResources) -> (q: RenderingQueue)
        requires
            resources.frames_in_flight >= 1,
        ensures
            q.is_well_formed(),
            q.resources == resources,
            q.flight_frames_count == resources.frames_in_flight,
            q.current_frame_index == 0,
            q.spec_images_count() == resources.images_count,
            forall|i: int|
                0 <= i < q.swapchain_image_fences@.len() ==> q.swapchain_image_fences@[i] is None,
            forall|f: int| 0 <= f < q.frame_images@.len() ==> q.frame_images@[f] is None,
            forall|f: int| 0 <= f < q.fences_in_flight@.len() ==> !q.fences_in_flight@[f],
    {
        let images_count = resources.images_count;
        let n = resources.frames_in_flight;
        let mut swapchain_image_fences: Vec<Option<u8>> = Vec::new();
        let mut i: u32 = 0;
        while i < images_count
            invariant
                i <= images_count,
                swapchain_image_fences@.len() == i,
                forall|j: int|
                    0 <= j < i ==> swapchain_image_fences@[j] is None,
            decreases images_count - i,
        {
            swapchain_image_fences.push(None);
            i = i + 1;
        }
        let mut frame_images: Vec<Option<u32>> = Vec::new();
        let mut fences_in_flight: Vec<bool> = Vec::new();
        let mut f: u8 = 0;
        while f < n
            invariant
                f <= n,
                frame_images@.len() == f,
                fences_in_flight@.len() == f,
                forall|j: int| 0 <= j < f ==> frame_images@[j] is None,
                forall|j: int| 0 <= j < f ==> !fences_in_flight@[j],
            decreases n - f,
        {
            frame_images.push(None);
            fences_in_flight.push(false);
            f = f + 1;
        }
        RenderingQueue {
            resources,
            flight_frames_count: n,
            current_frame_index: 0,
            swapchain_image_fences,
            frame_images,
            fences_in_flight,
        }
    }

    /// One frame of the loop, after the embedder has waited on the current
    /// slot's fence and acquired `acquired_image_index`. Decides the extra
    /// image-fence wait, records this slot's fence against the image,
    /// marks the slot in flight and advances the loop to the next slot,
    /// handing back everything the embedder must submit and present.
    pub fn render(&mut self, acquired_image_index: u32) -> (s: FrameSubmission)
        requires
            old(self).is_well_formed(),
            acquired_image_index < old(self).spec_images_count(),
        ensures
            final(self).is_well_formed(),
            s.frame_index == old(self).current_frame_index,
            s.image_index == acquired_image_index,
            s.wait_image_fence == old(self).spec_extra_wait(acquired_image_index),
            final(self).current_frame_index == (old(self).current_frame_index + 1) % (
            old(self).flight_frames_count as int),
            final(self).flight_frames_count == old(self).flight_frames_count,
            final(self).resources == old(self).resources,
            final(self).swapchain_image_fences@ == old(self).swapchain_image_fences@.update(
                acquired_image_index as int,
                Some(old(self).current_frame_index),
            ),
            final(self).frame_images@ == old(self).frame_images@.update(
                old(self).current_frame_index as int,
                Some(acquired_image_index),
            ),
            final(self).fences_in_flight@ == old(self).spec_fences_after(acquired_image_index),
    {
        let current_frame = self.current_frame_index;
        let image_fence = self.swapchain_image_fences[acquired_image_index as usize];
        let wait_image_fence: Option<u8> = match image_fence {
            Some(f) => if f != current_frame {
                Some(f)
            } else {
                None
            },
            None => None,
        };
        // the extra wait completes the older slot's submission
        if let Some(f) = wait_image_fence {
            self.fences_in_flight.set(f as usize, false);
        }
        // this slot's fence was waited on and is now re-submitted
        self.fences_in_flight.set(current_frame as usize, true);
        self.swapchain_image_fences.set(acquired_image_index as usize, Some(current_frame));
        self.frame_images.set(current_frame as usize, Some(acquired_image_index));
        self.current_frame_index = (current_frame + 1) % self.flight_frames_count;
        FrameSubmission { frame_index: current_frame, image_index: acquired_image_index, wait_image_fence }
    }

    /// The idle wait before shutdown: the embedder blocks until the device
    /// finishes all work, so afterwards no slot is in flight.
    pub fn device_wait_idle(&mut self)
        requires
            old(self).is_well_formed(),
        ensures
            final(self).is_well_formed(),
            final(self).resources == old(self).resources,
            final(self).flight_frames_count == old(self).flight_frames_count,
            final(self).current_frame_index == old(self).current_frame_index,
            final(self).swapchain_image_fences@ == old(self).swapchain_image_fences@,
            final(self).frame_images@ == old(self).frame_images@,
            final(self).fences_in_flight@.len() == old(self).fences_in_flight@.len(),
            forall|f: int|
                0 <= f < final(self).fences_in_flight@.len()
                    ==> !(final(self).fences_in_flight@[f]),
    {
        let n = self.fences_in_flight.len();
        let mut f: usize = 0;
        while f < n
            invariant
                f <= n,
                n == self.fences_in_flight@.len(),
                self.resources == old(self).resources,
                self.flight_frames_count == old(self).flight_frames_count,
                self.current_frame_index == old(self).current_frame_index,
                self.swapchain_image_fences@ == old(self).swapchain_image_fences@,
                self.frame_images@ == old(self).frame_images@,
                forall|j: int| 0 <= j < f ==> !self.fences_in_flight@[j],
            decreases n - f,
        {
            self.fences_in_flight.set(f, false);
            f = f + 1;
        }
    }

    /// The teardown sequence for this context's resources.
    pub fn teardown_plan(&self) -> (plan: Vec<DestroyOp>)
        ensures
            plan@ == spec_teardown_plan(self.resources),
    {
        teardown_plan(&self.resources)
    }
}

/// Frame-loop fence discipline: in a well-formed queue — initially, and
/// after any sequence of `render` calls, each of which preserves
/// well-formedness — at most `flight_frames_count` fences guard an
/// unfinished submission, and no two such fences are recorded against the
/// same swap-chain image.
pub proof fn lemma_fence_discipline(q: RenderingQueue)
    requires
        q.is_well_formed(),
    ensures
        spec_count_in_flight(q.fences_in_flight@) <= q.flight_frames_count,
        forall|f: int, g: int|
            #![auto]
            0 <= f < q.fences_in_flight@.len() && 0 <= g < q.fences_in_flight@.len() && f != g
                && q.fences_in_flight@[f] && q.fences_in_flight@[g] ==> q.frame_images@[f]
                != q.frame_images@[g],
{
    lemma_count_in_flight_le_len(q.fences_in_flight@);
    assert forall|f: int, g: int|
        #![auto]
        0 <= f < q.fences_in_flight@.len() && 0 <= g < q.fences_in_flight@.len() && f != g
            && q.fences_in_flight@[f] && q.fences_in_flight@[g] implies q.frame_images@[f]
        != q.frame_images@[g] by {
        let img_f = q.frame_images@[f]->0;
        let img_g = q.frame_images@[g]->0;
        assert(q.swapchain_image_fences@[img_f as int] == Some(f as u8));
        assert(q.swapchain_image_fences@[img_g as int] == Some(g as u8));
    }
}

} // verus!
