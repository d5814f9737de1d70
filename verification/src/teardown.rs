//! The teardown sequencer: every owned driver object, destroyed in strict
//! reverse-dependency order.
//!
//! The order is modeled as an explicit list of destroy steps. The embedder
//! executes the steps one by one against its real handles; violating the
//! order on a live driver is undefined behavior, so the exact sequence is
//! the single highest-value invariant of the whole system.

use vstd::prelude::*;

verus! {

/// The counts of every owned driver object a fully built context holds.
/// One image view exists per swap-chain image, so one count serves both.
#[derive(Debug, Clone, Copy, PartialEq, Eq, Structural)]
pub struct ContextResources {
    pub frames_in_flight: u8,
    pub images_count: u32,
    pub framebuffers_count: u32,
    pub pipelines_count: u32,
    pub has_debug_messenger: bool,
}

/// One destroy step, naming the object (and its slot, where several exist)
/// the embedder must destroy next.
#[derive(Debug, Clone, Copy, PartialEq, Eq, Structural)]
pub enum DestroyOp {
    RenderFinishedSemaphore(u8),
    ImageAvailableSemaphore(u8),
    Fence(u8),
    CommandPool,
    Framebuffer(u32),
    Pipeline(u32),
    RenderPass,
    ImageView(u32),
    SwapChain,
    Surface,
    Device,
    DebugMessenger,
    Instance,
}

/// The render-finished semaphores, one per frame slot.
pub open spec fn spec_render_finished_ops(n: int) -> Seq<DestroyOp> {
    Seq::new(n as nat, |i: int| DestroyOp::RenderFinishedSemaphore(i as u8))
}

/// The image-available semaphores, one per frame slot.
pub open spec fn spec_image_available_ops(n: int) -> Seq<DestroyOp> {
    Seq::new(n as nat, |i: int| DestroyOp::ImageAvailableSemaphore(i as u8))
}

/// The in-flight fences, one per frame slot.
pub open spec fn spec_fence_ops(n: int) -> Seq<DestroyOp> {
    Seq::new(n as nat, |i: int| DestroyOp::Fence(i as u8))
}

/// The framebuffers, one per swap-chain image.
pub open spec fn spec_framebuffer_ops(n: int) -> Seq<DestroyOp> {
    Seq::new(n as nat, |i: int| DestroyOp::Framebuffer(i as u32))
}

/// The graphics pipelines.
pub open spec fn spec_pipeline_ops(n: int) -> Seq<DestroyOp> {
    Seq::new(n as nat, |i: int| DestroyOp::Pipeline(i as u32))
}

/// The image views, one per swap-chain image.
pub open spec fn spec_image_view_ops(n: int) -> Seq<DestroyOp> {
    Seq::new(n as nat, |i: int| DestroyOp::ImageView(i as u32))
}

/// The debug messenger, when one was created.
pub open spec fn spec_messenger_ops(has_messenger: bool) -> Seq<DestroyOp> {
    if has_messenger {
        seq![DestroyOp::DebugMessenger]
    } else {
        Seq::empty()
    }
}

/// The full teardown sequence: all semaphores and fences, then the command
/// pool, the framebuffers, the pipelines, the render pass, the image views,
/// the swap chain, the surface, the logical device, the debug messenger
/// when present, and the instance last.
pub open spec fn spec_teardown_plan(r: ContextResources) -> Seq<DestroyOp> {
    spec_render_finished_ops(r.frames_in_flight as int) + spec_image_available_ops(
        r.frames_in_flight as int,
    ) + spec_fence_ops(r.frames_in_flight as int) + seq![DestroyOp::CommandPool]
        + spec_framebuffer_ops(r.framebuffers_count as int) + spec_pipeline_ops(
        r.pipelines_count as int,
    ) + seq![DestroyOp::RenderPass] + spec_image_view_ops(r.images_count as int) + seq![
        DestroyOp::SwapChain,
        DestroyOp::Surface,
        DestroyOp::Device,
    ] + spec_messenger_ops(r.has_debug_messenger) + seq![DestroyOp::Instance]
}

/// Build the teardown sequence for the given resource counts.
pub fn teardown_plan(r: &ContextResources) -> (plan: Vec<DestroyOp>)
    ensures
        plan@ == spec_teardown_plan(*r),
{
    let n = r.frames_in_flight;
    let mut plan: Vec<DestroyOp> = Vec::new();

    let mut i: u8 = 0;
    while i < n
        invariant
            i <= n,
            plan@ =~= spec_render_finished_ops(i as int),
        decreases n - i,
    {
        plan.push(DestroyOp::RenderFinishedSemaphore(i));
        i = i + 1;
    }
    let mut i: u8 = 0;
    while i < n
        invariant
            i <= n,
            plan@ =~= spec_render_finished_ops(n as int) + spec_image_available_ops(i as int),
        decreases n - i,
    {
        plan.push(DestroyOp::ImageAvailableSemaphore(i));
        i = i + 1;
    }
    let mut i: u8 = 0;
    while i < n
        invariant
            i <= n,
            plan@ =~= spec_render_finished_ops(n as int) + spec_image_available_ops(n as int)
                + spec_fence_ops(i as int),
        decreases n - i,
    {
        plan.push(DestroyOp::Fence(i));
        i = i + 1;
    }
    plan.push(DestroyOp::CommandPool);

    let ghost prefix_pool: Seq<DestroyOp> = spec_render_finished_ops(n as int)
        + spec_image_available_ops(n as int) + spec_fence_ops(n as int) + seq![
        DestroyOp::CommandPool,
    ];
    proof {
        assert(plan@ =~= prefix_pool);
    }

    let mut i: u32 = 0;
    while i < r.framebuffers_count
        invariant
            i <= r.framebuffers_count,
            plan@ =~= prefix_pool + spec_framebuffer_ops(i as int),
        decreases r.framebuffers_count - i,
    {
        plan.push(DestroyOp::Framebuffer(i));
        i = i + 1;
    }
    let ghost prefix_fb: Seq<DestroyOp> = prefix_pool + spec_framebuffer_ops(
        r.framebuffers_count as int,
    );
    let mut i: u32 = 0;
    while i < r.pipelines_count
        invariant
            i <= r.pipelines_count,
            plan@ =~= prefix_fb + spec_pipeline_ops(i as int),
        decreases r.pipelines_count - i,
    {
        plan.push(DestroyOp::Pipeline(i));
        i = i + 1;
    }
    plan.push(DestroyOp::RenderPass);

    let ghost prefix_rp: Seq<DestroyOp> = prefix_fb + spec_pipeline_ops(r.pipelines_count as int)
        + seq![DestroyOp::RenderPass];
    proof {
        assert(plan@ =~= prefix_rp);
    }

    let mut i: u32 = 0;
    while i < r.images_count
        invariant
            i <= r.images_count,
            plan@ =~= prefix_rp + spec_image_view_ops(i as int),
        decreases r.images_count - i,
    {
        plan.push(DestroyOp::ImageView(i));
        i = i + 1;
    }
    plan.push(DestroyOp::SwapChain);
    plan.push(DestroyOp::Surface);
    plan.push(DestroyOp::Device);
    if r.has_debug_messenger {
        plan.push(DestroyOp::DebugMessenger);
    }
    plan.push(DestroyOp::Instance);

    proof {
        assert(plan@ =~= spec_teardown_plan(*r));
    }
    plan
}

/// Teardown ordering law: for every resource count — zero framebuffers or
/// many, any number of images, frame slots and pipelines, with or without a
/// debug messenger — every framebuffer-destroy step strictly precedes the
/// render-pass-destroy step, every image-view-destroy step strictly
/// precedes the swap-chain-destroy step, and the instance is destroyed
/// last.
pub proof fn lemma_teardown_order(r: ContextResources)
    ensures
        forall|i: int, j: int|
            0 <= i < spec_teardown_plan(r).len() && 0 <= j < spec_teardown_plan(r).len()
                && spec_teardown_plan(r)[i] is Framebuffer && spec_teardown_plan(r)[j]
                is RenderPass ==> i < j,
        forall|i: int, j: int|
            0 <= i < spec_teardown_plan(r).len() && 0 <= j < spec_teardown_plan(r).len()
                && spec_teardown_plan(r)[i] is ImageView && spec_teardown_plan(r)[j] is SwapChain
                ==> i < j,
        spec_teardown_plan(r).len() > 0,
        spec_teardown_plan(r).last() is Instance,
{
    let plan = spec_teardown_plan(r);
    let n = r.frames_in_flight as int;
    let fb = r.framebuffers_count as int;
    let p = r.pipelines_count as int;
    let img = r.images_count as int;
    let rp = 3 * n + 1 + fb + p;
    let sc = rp + 1 + img;
    assert forall|i: int| 0 <= i < plan.len() && plan[i] is Framebuffer implies 3 * n + 1 <= i < 3
        * n + 1 + fb by {
        assert(plan.len() == sc + 3 + spec_messenger_ops(r.has_debug_messenger).len() + 1);
    }
    assert forall|j: int| 0 <= j < plan.len() && plan[j] is RenderPass implies j == rp by {
        assert(plan.len() == sc + 3 + spec_messenger_ops(r.has_debug_messenger).len() + 1);
    }
    assert forall|i: int| 0 <= i < plan.len() && plan[i] is ImageView implies rp + 1 <= i < rp + 1
        + img by {
        assert(plan.len() == sc + 3 + spec_messenger_ops(r.has_debug_messenger).len() + 1);
    }
    assert forall|j: int| 0 <= j < plan.len() && plan[j] is SwapChain implies j == sc by {
        assert(plan.len() == sc + 3 + spec_messenger_ops(r.has_debug_messenger).len() + 1);
    }
    assert(plan[plan.len() - 1] is Instance);
}

} // verus!
