use rendering_core::builder::RenderingQueueBuilder;
use rendering_core::config::{DeviceType, RenderingResolution};
use rendering_core::debug::{
    message_log_level, LogLevel, SEVERITY_ERROR, SEVERITY_INFO, SEVERITY_VERBOSE, SEVERITY_WARNING,
};
use rendering_core::exceptions::RenderingError;
use rendering_core::names::khr_swapchain_extension_name;
use rendering_core::physical_device::{PhysicalDeviceInfo, QueueFamilyInfo};
use rendering_core::rendering_queue::RenderingQueue;
use rendering_core::swap_chain::{
    Extent2D, SharingMode, SurfaceCapabilities, SurfaceFormat, SwapChainSupport,
    COLOR_SPACE_SRGB_NONLINEAR, FORMAT_B8G8R8A8_SRGB, PRESENT_MODE_FIFO,
};
use rendering_core::teardown::{ContextResources, DestroyOp};

fn mock_discrete_device() -> PhysicalDeviceInfo {
    PhysicalDeviceInfo {
        device_type: DeviceType::DiscreteGpu,
        supports_geometry_shader: true,
        queue_families: vec![QueueFamilyInfo { supports_graphics: true, supports_present: true }],
        extensions: vec![khr_swapchain_extension_name()],
        swap_chain_support: SwapChainSupport {
            capabilities: SurfaceCapabilities {
                min_image_count: 2,
                max_image_count: 4,
                current_extent: Extent2D { width: 1024, height: 768 },
                min_image_extent: Extent2D { width: 1, height: 1 },
                max_image_extent: Extent2D { width: 4096, height: 4096 },
                current_transform: 1,
            },
            formats: vec![SurfaceFormat {
                format: FORMAT_B8G8R8A8_SRGB,
                color_space: COLOR_SPACE_SRGB_NONLINEAR,
            }],
            present_modes: vec![PRESENT_MODE_FIFO],
        },
    }
}

#[test]
fn end_to_end_construction_against_mock_driver() {
    let platform_extensions = vec![b"VK_KHR_surface".to_vec(), b"VK_KHR_xlib_surface".to_vec()];
    let available_layers: Vec<Vec<u8>> = Vec::new();

    let (instance_plan, pd_stage) = RenderingQueueBuilder::new()
        .create_entry()
        .create_instance(platform_extensions.clone(), &available_layers, false)
        .unwrap();
    assert_eq!(instance_plan.extensions, platform_extensions);
    assert!(instance_plan.layers.is_empty());
    assert!(!instance_plan.create_debug_messenger);

    let ld_stage = pd_stage
        .choose_physical_device(vec![mock_discrete_device()], DeviceType::DiscreteGpu)
        .unwrap();
    assert_eq!(ld_stage.queue_families.graphics, 0);
    assert_eq!(ld_stage.queue_families.present, 0);

    let (device_plan, sc_stage) = ld_stage.create_logical_device(false);
    assert_eq!(device_plan.queue_family_indices, vec![0]);
    assert!(device_plan.layers.is_empty());
    assert_eq!(device_plan.extensions, vec![b"VK_KHR_swapchain".to_vec()]);

    let (sc_plan, images_stage) = sc_stage
        .create_swap_chain(RenderingResolution { width: 1024, height: 768 })
        .unwrap();
    // driver-fixed extent wins over the requested resolution
    assert_eq!(sc_plan.extent, Extent2D { width: 1024, height: 768 });
    // min_image_count + 1 clamped to the maximum
    assert_eq!(sc_plan.min_image_count, 3);
    // only the queue-backed mode is listed, so it is chosen
    assert_eq!(sc_plan.present_mode, PRESENT_MODE_FIFO);
    assert_eq!(
        sc_plan.surface_format,
        SurfaceFormat { format: FORMAT_B8G8R8A8_SRGB, color_space: COLOR_SPACE_SRGB_NONLINEAR }
    );
    assert_eq!(sc_plan.sharing_mode, SharingMode::Exclusive);
    assert_eq!(sc_plan.queue_family_indices, vec![0]);
    assert_eq!(sc_plan.pre_transform, 1);

    let rp_stage = images_stage.images_retrieved(3);
    let (rp_plan, pipeline_stage) = rp_stage.create_render_pass();
    assert_eq!(rp_plan.attachment_format, FORMAT_B8G8R8A8_SRGB);

    let (pipeline_plan, pipeline_stage) = pipeline_stage.add_pipeline();
    assert_eq!(pipeline_plan.viewport_extent, Extent2D { width: 1024, height: 768 });

    let (fb_plan, pool_stage) = pipeline_stage.build_pipelines().create_framebuffers();
    // one framebuffer per swap-chain image
    assert_eq!(fb_plan.count, 3);
    assert_eq!(fb_plan.extent, Extent2D { width: 1024, height: 768 });

    let (pool_plan, cb_stage) = pool_stage.create_command_pool();
    assert_eq!(pool_plan.queue_family_index, 0);

    let (cb_plan, sync_stage) = cb_stage.create_command_buffer();
    assert_eq!(cb_plan.count, 3);
    assert_eq!(cb_plan.vertex_count, 3);
    assert_eq!(cb_plan.instance_count, 1);

    let queue = sync_stage.create_sync_objects(2).build();
    assert_eq!(
        queue.resources,
        ContextResources {
            frames_in_flight: 2,
            images_count: 3,
            framebuffers_count: 3,
            pipelines_count: 1,
            has_debug_messenger: false,
        }
    );
    // exactly two frame-sync sets
    assert_eq!(queue.flight_frames_count, 2);
    let plan = queue.teardown_plan();
    assert_eq!(
        plan.iter().filter(|op| matches!(op, DestroyOp::Fence(_))).count(),
        2
    );
    assert_eq!(
        plan.iter()
            .filter(|op| matches!(op, DestroyOp::Framebuffer(_)))
            .count(),
        3
    );
}

#[test]
fn selection_failure_stops_the_pipeline_before_later_stages() {
    let (_, pd_stage) = RenderingQueueBuilder::new()
        .create_entry()
        .create_instance(Vec::new(), &Vec::new(), false)
        .unwrap();
    // zero enumerated devices: selection reports the missing support and
    // hands no later stage back
    let result = pd_stage.choose_physical_device(Vec::new(), DeviceType::DiscreteGpu);
    assert!(matches!(result, Err(RenderingError::SupportError(_))));
}

#[test]
fn validation_layer_is_negotiated_from_the_probe() {
    let available = vec![b"VK_LAYER_KHRONOS_validation".to_vec()];
    let (plan, _) = RenderingQueueBuilder::new()
        .create_entry()
        .create_instance(vec![b"VK_KHR_surface".to_vec()], &available, true)
        .unwrap();
    assert_eq!(
        plan.extensions,
        vec![b"VK_KHR_surface".to_vec(), b"VK_EXT_debug_utils".to_vec()]
    );
    assert_eq!(plan.layers, vec![b"VK_LAYER_KHRONOS_validation".to_vec()]);
    assert!(plan.create_debug_messenger);
}

#[test]
fn requested_but_missing_validation_layer_is_a_support_error() {
    let result = RenderingQueueBuilder::new().create_entry().create_instance(
        vec![b"VK_KHR_surface".to_vec()],
        &Vec::new(),
        true,
    );
    assert!(matches!(result, Err(RenderingError::SupportError(_))));
}

#[test]
fn missing_bgra_srgb_format_is_a_support_error() {
    let mut device = mock_discrete_device();
    device.swap_chain_support.formats = vec![SurfaceFormat { format: 44, color_space: 0 }];
    let (_, pd_stage) = RenderingQueueBuilder::new()
        .create_entry()
        .create_instance(Vec::new(), &Vec::new(), false)
        .unwrap();
    let sc_stage = pd_stage
        .choose_physical_device(vec![device], DeviceType::DiscreteGpu)
        .unwrap()
        .create_logical_device(false)
        .1;
    let result = sc_stage.create_swap_chain(RenderingResolution { width: 640, height: 480 });
    assert!(matches!(result, Err(RenderingError::SupportError(_))));
}

#[test]
fn concurrent_sharing_spans_both_families_in_the_plan() {
    let mut device = mock_discrete_device();
    device.queue_families = vec![
        QueueFamilyInfo { supports_graphics: true, supports_present: false },
        QueueFamilyInfo { supports_graphics: false, supports_present: true },
    ];
    let (_, pd_stage) = RenderingQueueBuilder::new()
        .create_entry()
        .create_instance(Vec::new(), &Vec::new(), false)
        .unwrap();
    let (device_plan, sc_stage) = pd_stage
        .choose_physical_device(vec![device], DeviceType::DiscreteGpu)
        .unwrap()
        .create_logical_device(false);
    assert_eq!(device_plan.queue_family_indices, vec![0, 1]);
    let (sc_plan, _) = sc_stage
        .create_swap_chain(RenderingResolution { width: 640, height: 480 })
        .unwrap();
    assert_eq!(sc_plan.sharing_mode, SharingMode::Concurrent);
    assert_eq!(sc_plan.queue_family_indices, vec![0, 1]);
}

#[test]
fn builder_entry_point_is_reachable_from_the_queue_type() {
    let _stage = RenderingQueue::builder().create_entry();
}

#[test]
fn message_severities_route_to_their_levels() {
    assert_eq!(message_log_level(SEVERITY_ERROR), LogLevel::Error);
    assert_eq!(message_log_level(SEVERITY_ERROR + 1), LogLevel::Error);
    assert_eq!(message_log_level(SEVERITY_WARNING), LogLevel::Warn);
    assert_eq!(message_log_level(SEVERITY_INFO), LogLevel::Debug);
    assert_eq!(message_log_level(SEVERITY_VERBOSE), LogLevel::Trace);
    assert_eq!(message_log_level(0), LogLevel::Trace);
}
