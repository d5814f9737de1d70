//! The fixed-function tail of the construction pipeline: render pass,
//! pipelines, framebuffers, command pool, command buffers and
//! synchronization objects, each stage exposing only the next legal
//! operation.

use vstd::prelude::*;

use crate::builder::EndBuildStage;
use crate::physical_device::QueueFamilyIndices;
use crate::swap_chain::{Extent2D, SwapChainData};

verus! {

/// What render-pass creation depends on: the swap-chain pixel format of
/// its single color attachment. The attachment's fixed settings — clear on
/// load, store on keep, presentation-ready final layout, and the single
/// subpass dependency guarding the color-attachment-output stage — do not
/// vary.
#[derive(Debug, Clone, Copy, PartialEq, Eq, Structural)]
pub struct RenderPassPlan {
    pub attachment_format: u32,
}

/// What each fixed graphics pipeline depends on: the viewport and scissor
/// extent, which must match the swap chain. Topology, culling, blending
/// and the empty layout do not vary.
#[derive(Debug, Clone, Copy, PartialEq, Eq, Structural)]
pub struct PipelinePlan {
    pub viewport_extent: Extent2D,
}

/// What framebuffer creation depends on: one framebuffer per swap-chain
/// image view, sized to the swap-chain extent.
#[derive(Debug, Clone, Copy, PartialEq, Eq, Structural)]
pub struct FramebufferPlan {
    pub count: u32,
    pub extent: Extent2D,
}

/// What command-pool creation depends on: the graphics queue family the
/// pool's buffers will be submitted to.
#[derive(Debug, Clone, Copy, PartialEq, Eq, Structural)]
pub struct CommandPoolPlan {
    pub queue_family_index: u32,
}

/// What command-buffer recording depends on: one primary buffer per
/// framebuffer, each pre-recorded once to draw exactly `vertex_count`
/// vertices in `instance_count` instance with no vertex or index buffers,
/// inside a render pass cleared to opaque black.
#[derive(Debug, Clone, Copy, PartialEq, Eq, Structural)]
pub struct CommandBufferPlan {
    pub count: u32,
    pub vertex_count: u32,
    pub instance_count: u32,
}

/// The stage reached once the swap-chain images exist; its one legal
/// operation plans the render pass.
pub struct RenderPassBuildStage {
    pub has_debug_messenger: bool,
    pub queue_families: QueueFamilyIndices,
    pub swap_chain: SwapChainData,
}

/// The stage reached once the render pass exists; pipelines are added one
/// by one, then sealed.
pub struct PipelineAddingStage {
    pub has_debug_messenger: bool,
    pub queue_families: QueueFamilyIndices,
    pub swap_chain: SwapChainData,
    pub pipelines_count: u32,
}

/// The stage reached once the pipelines are sealed; its one legal
/// operation plans the framebuffers.
pub struct FramebuffersBuildStage {
    pub has_debug_messenger: bool,
    pub queue_families: QueueFamilyIndices,
    pub swap_chain: SwapChainData,
    pub pipelines_count: u32,
}

/// The stage reached once the framebuffers exist; its one legal operation
/// plans the command pool.
pub struct CommandPoolBuildStage {
    pub has_debug_messenger: bool,
    pub queue_families: QueueFamilyIndices,
    pub swap_chain: SwapChainData,
    pub pipelines_count: u32,
    pub framebuffers_count: u32,
}

/// The stage reached once the command pool exists; its one legal operation
/// plans the command buffers.
pub struct CommandBufferBuildStage {
    pub has_debug_messenger: bool,
    pub queue_families: QueueFamilyIndices,
    pub swap_chain: SwapChainData,
    pub pipelines_count: u32,
    pub framebuffers_count: u32,
}

/// The stage reached once the command buffers are recorded; its one legal
/// operation sizes the synchronization ring.
pub struct SyncObjectsBuildStage {
    pub has_debug_messenger: bool,
    pub queue_families: QueueFamilyIndices,
    pub swap_chain: SwapChainData,
    pub pipelines_count: u32,
    pub framebuffers_count: u32,
    pub command_buffers_count: u32,
}

impl RenderPassBuildStage {
    /// Plan the single render pass over one color attachment in the
    /// swap-chain format.
    pub fn create_render_pass(self) -> (r: (RenderPassPlan, PipelineAddingStage))
        ensures
            r.0.attachment_format == self.swap_chain.format,
            r.1.has_debug_messenger == self.has_debug_messenger,
            r.1.queue_families == self.queue_families,
            r.1.swap_chain == self.swap_chain,
            r.1.pipelines_count == 0,
    {
        let plan = RenderPassPlan { attachment_format: self.swap_chain.format };
        let stage = PipelineAddingStage {
            has_debug_messenger: self.has_debug_messenger,
            queue_families: self.queue_families,
            swap_chain: self.swap_chain,
            pipelines_count: 0,
        };
        (plan, stage)
    }
}

impl PipelineAddingStage {
    /// Plan one more fixed pipeline, its viewport and scissor matching the
    /// swap-chain extent. The compiled vertex and fragment shader modules
    /// are the embedder's to attach.
    pub fn add_pipeline(self) -> (r: (PipelinePlan, PipelineAddingStage))
        requires
            self.pipelines_count < u32::MAX,
        ensures
            r.0.viewport_extent == self.swap_chain.extent,
            r.1.has_debug_messenger == self.has_debug_messenger,
            r.1.queue_families == self.queue_families,
            r.1.swap_chain == self.swap_chain,
            r.1.pipelines_count == self.pipelines_count + 1,
    {
        let plan = PipelinePlan { viewport_extent: self.swap_chain.extent };
        let stage = PipelineAddingStage {
            has_debug_messenger: self.has_debug_messenger,
            queue_families: self.queue_families,
            swap_chain: self.swap_chain,
            pipelines_count: self.pipelines_count + 1,
        };
        (plan, stage)
    }

    /// Seal the pipeline set and move on to the framebuffers.
    pub fn build_pipelines(self) -> (stage: FramebuffersBuildStage)
        ensures
            stage.has_debug_messenger == self.has_debug_messenger,
            stage.queue_families == self.queue_families,
            stage.swap_chain == self.swap_chain,
            stage.pipelines_count == self.pipelines_count,
    {
        FramebuffersBuildStage {
            has_debug_messenger: self.has_debug_messenger,
            queue_families: self.queue_families,
            swap_chain: self.swap_chain,
            pipelines_count: self.pipelines_count,
        }
    }
}

impl FramebuffersBuildStage {
    /// Plan the framebuffers: one per swap-chain image view, sized to the
    /// swap-chain extent — the framebuffer count equals the image count.
    pub fn create_framebuffers(self) -> (r: (FramebufferPlan, CommandPoolBuildStage))
        ensures
            r.0.count == self.swap_chain.images_count,
            r.0.extent == self.swap_chain.extent,
            r.1.has_debug_messenger == self.has_debug_messenger,
            r.1.queue_families == self.queue_families,
            r.1.swap_chain == self.swap_chain,
            r.1.pipelines_count == self.pipelines_count,
            r.1.framebuffers_count == self.swap_chain.images_count,
    {
        let plan = FramebufferPlan {
            count: self.swap_chain.images_count,
            extent: self.swap_chain.extent,
        };
        let stage = CommandPoolBuildStage {
            has_debug_messenger: self.has_debug_messenger,
            queue_families: self.queue_families,
            swap_chain: self.swap_chain,
            pipelines_count: self.pipelines_count,
            framebuffers_count: self.swap_chain.images_count,
        };
        (plan, stage)
    }
}

impl CommandPoolBuildStage {
    /// Plan the command pool, tied to the graphics queue family.
    pub fn create_command_pool(self) -> (r: (CommandPoolPlan, CommandBufferBuildStage))
        ensures
            r.0.queue_family_index == self.queue_families.graphics,
            r.1.has_debug_messenger == self.has_debug_messenger,
            r.1.queue_families == self.queue_families,
            r.1.swap_chain == self.swap_chain,
            r.1.pipelines_count == self.pipelines_count,
            r.1.framebuffers_count == self.framebuffers_count,
    {
        let plan = CommandPoolPlan { queue_family_index: self.queue_families.graphics };
        let stage = CommandBufferBuildStage {
            has_debug_messenger: self.has_debug_messenger,
            queue_families: self.queue_families,
            swap_chain: self.swap_chain,
            pipelines_count: self.pipelines_count,
            framebuffers_count: self.framebuffers_count,
        };
        (plan, stage)
    }
}

impl CommandBufferBuildStage {
    /// Plan the command buffers: one primary buffer per framebuffer, each
    /// pre-recorded once to draw exactly three vertices in one instance —
    /// the vertices are generated in-shader, so no vertex or index buffer
    /// is bound.
    pub fn create_command_buffer(self) -> (r: (CommandBufferPlan, SyncObjectsBuildStage))
        ensures
            r.0.count == self.framebuffers_count,
            r.0.vertex_count == 3,
            r.0.instance_count == 1,
            r.1.has_debug_messenger == self.has_debug_messenger,
            r.1.queue_families == self.queue_families,
            r.1.swap_chain == self.swap_chain,
            r.1.pipelines_count == self.pipelines_count,
            r.1.framebuffers_count == self.framebuffers_count,
            r.1.command_buffers_count == self.framebuffers_count,
    {
        let plan = CommandBufferPlan {
            count: self.framebuffers_count,
            vertex_count: 3,
            instance_count: 1,
        };
        let stage = SyncObjectsBuildStage {
            has_debug_messenger: self.has_debug_messenger,
            queue_families: self.queue_families,
            swap_chain: self.swap_chain,
            pipelines_count: self.pipelines_count,
            framebuffers_count: self.framebuffers_count,
            command_buffers_count: self.framebuffers_count,
        };
        (plan, stage)
    }
}

impl SyncObjectsBuildStage {
    /// Size the synchronization ring: `flight_frames_count` image-available
    /// semaphores, as many render-finished semaphores, and as many fences,
    /// the fences created pre-signaled so the first frame does not block.
    pub fn create_sync_objects(self, flight_frames_count: u8) -> (stage: EndBuildStage)
        requires
            flight_frames_count >= 1,
        ensures
            stage.has_debug_messenger == self.has_debug_messenger,
            stage.queue_families == self.queue_families,
            stage.swap_chain == self.swap_chain,
            stage.pipelines_count == self.pipelines_count,
            stage.framebuffers_count == self.framebuffers_count,
            stage.command_buffers_count == self.command_buffers_count,
            stage.flight_frames_count == flight_frames_count,
    {
        EndBuildStage {
            has_debug_messenger: self.has_debug_messenger,
            queue_families: self.queue_families,
            swap_chain: self.swap_chain,
            pipelines_count: self.pipelines_count,
            framebuffers_count: self.framebuffers_count,
            command_buffers_count: self.command_buffers_count,
            flight_frames_count,
        }
    }
}

} // verus!
