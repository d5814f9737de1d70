//! The two ends of the staged construction pipeline: the entry gate that
//! starts it, and the terminal stage that assembles the rendering queue.
//!
//! Each stage is a single-use value exposing only the next legal
//! operation, so the stages cannot run out of order.

use vstd::prelude::*;

use crate::instance::InstanceBuildStage;
use crate::physical_device::QueueFamilyIndices;
use crate::rendering_queue::RenderingQueue;
use crate::swap_chain::SwapChainData;
use crate::teardown::ContextResources;

verus! {

/// The start of the staged pipeline.
pub struct RenderingQueueBuilder {}

impl RenderingQueueBuilder {
    pub fn new() -> RenderingQueueBuilder {
        RenderingQueueBuilder {}
    }

    /// The first stage gate: the embedder loads the native driver library
    /// and resolves the entry point before this, surfacing its own loader
    /// failures; every later stage presumes the entry exists.
    pub fn create_entry(self) -> InstanceBuildStage {
        InstanceBuildStage {}
    }
}

/// The terminal stage: every prior stage's output, ready for assembly.
/// Assembly is the only stage that cannot fail.
pub struct EndBuildStage {
    pub has_debug_messenger: bool,
    pub queue_families: QueueFamilyIndices,
    pub swap_chain: SwapChainData,
    pub pipelines_count: u32,
    pub framebuffers_count: u32,
    pub command_buffers_count: u32,
    pub flight_frames_count: u8,
}

impl EndBuildStage {
    /// Assemble the rendering queue: a fresh frame loop at slot zero over
    /// the built context, with every per-image fence slot at its
    /// never-rendered sentinel and every frame fence signaled.
    pub fn build(self) -> (q: RenderingQueue)
        requires
            self.flight_frames_count >= 1,
        ensures
            q.is_well_formed(),
            q.resources == (ContextResources {
                frames_in_flight: self.flight_frames_count,
                images_count: self.swap_chain.images_count,
                framebuffers_count: self.framebuffers_count,
                pipelines_count: self.pipelines_count,
                has_debug_messenger: self.has_debug_messenger,
            }),
            q.flight_frames_count == self.flight_frames_count,
            q.current_frame_index == 0,
            q.spec_images_count() == self.swap_chain.images_count,
            forall|i: int|
                0 <= i < q.swapchain_image_fences@.len() ==> q.swapchain_image_fences@[i] is None,
            forall|f: int| 0 <= f < q.frame_images@.len() ==> q.frame_images@[f] is None,
            forall|f: int| 0 <= f < q.fences_in_flight@.len() ==> !q.fences_in_flight@[f],
    {
        let resources = ContextResources {
            frames_in_flight: self.flight_frames_count,
            images_count: self.swap_chain.images_count,
            framebuffers_count: self.framebuffers_count,
            pipelines_count: self.pipelines_count,
            has_debug_messenger: self.has_debug_messenger,
        };
        RenderingQueue::new(resources)
    }
}

impl RenderingQueue {
    /// The staged pipeline that builds a rendering queue.
    pub fn builder() -> RenderingQueueBuilder {
        RenderingQueueBuilder::new()
    }
}

} // verus!
