use rendering_core::teardown::{teardown_plan, ContextResources, DestroyOp};

#[test]
fn plan_is_the_exact_reverse_dependency_sequence() {
    let r = ContextResources {
        frames_in_flight: 2,
        images_count: 3,
        framebuffers_count: 3,
        pipelines_count: 1,
        has_debug_messenger: true,
    };
    let expected = vec![
        DestroyOp::RenderFinishedSemaphore(0),
        DestroyOp::RenderFinishedSemaphore(1),
        DestroyOp::ImageAvailableSemaphore(0),
        DestroyOp::ImageAvailableSemaphore(1),
        DestroyOp::Fence(0),
        DestroyOp::Fence(1),
        DestroyOp::CommandPool,
        DestroyOp::Framebuffer(0),
        DestroyOp::Framebuffer(1),
        DestroyOp::Framebuffer(2),
        DestroyOp::Pipeline(0),
        DestroyOp::RenderPass,
        DestroyOp::ImageView(0),
        DestroyOp::ImageView(1),
        DestroyOp::ImageView(2),
        DestroyOp::SwapChain,
        DestroyOp::Surface,
        DestroyOp::Device,
        DestroyOp::DebugMessenger,
        DestroyOp::Instance,
    ];
    assert_eq!(teardown_plan(&r), expected);
}

#[test]
fn plan_without_messenger_skips_that_step() {
    let r = ContextResources {
        frames_in_flight: 1,
        images_count: 1,
        framebuffers_count: 1,
        pipelines_count: 1,
        has_debug_messenger: false,
    };
    let plan = teardown_plan(&r);
    assert!(!plan.iter().any(|op| matches!(op, DestroyOp::DebugMessenger)));
    assert_eq!(plan.last(), Some(&DestroyOp::Instance));
}

#[test]
fn framebuffers_precede_render_pass_for_any_count() {
    for fb in [0u32, 1, 2, 7] {
        let r = ContextResources {
            frames_in_flight: 2,
            images_count: fb,
            framebuffers_count: fb,
            pipelines_count: 1,
            has_debug_messenger: false,
        };
        let plan = teardown_plan(&r);
        let render_pass_at = plan
            .iter()
            .position(|op| matches!(op, DestroyOp::RenderPass))
            .unwrap();
        for (i, op) in plan.iter().enumerate() {
            if matches!(op, DestroyOp::Framebuffer(_)) {
                assert!(i < render_pass_at);
            }
        }
        assert_eq!(
            plan.iter()
                .filter(|op| matches!(op, DestroyOp::Framebuffer(_)))
                .count(),
            fb as usize
        );
    }
}

#[test]
fn image_views_precede_swap_chain_and_surface_precedes_device() {
    let r = ContextResources {
        frames_in_flight: 3,
        images_count: 2,
        framebuffers_count: 2,
        pipelines_count: 2,
        has_debug_messenger: true,
    };
    let plan = teardown_plan(&r);
    let pos = |want: fn(&DestroyOp) -> bool| plan.iter().position(want).unwrap();
    let swap_chain_at = pos(|op| matches!(op, DestroyOp::SwapChain));
    let surface_at = pos(|op| matches!(op, DestroyOp::Surface));
    let device_at = pos(|op| matches!(op, DestroyOp::Device));
    let messenger_at = pos(|op| matches!(op, DestroyOp::DebugMessenger));
    let instance_at = pos(|op| matches!(op, DestroyOp::Instance));
    for (i, op) in plan.iter().enumerate() {
        if matches!(op, DestroyOp::ImageView(_)) {
            assert!(i < swap_chain_at);
        }
    }
    assert!(swap_chain_at < surface_at);
    assert!(surface_at < device_at);
    assert!(device_at < messenger_at);
    assert!(messenger_at < instance_at);
    assert_eq!(instance_at, plan.len() - 1);
}
