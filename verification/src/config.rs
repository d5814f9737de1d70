//! The configuration surface consumed by the rendering core.

use vstd::prelude::*;

verus! {

/// The class a physical device reports itself as; selection targets exactly
/// one class.
#[derive(Debug, Clone, Copy, PartialEq, Eq, Structural)]
pub enum DeviceType {
    Other,
    IntegratedGpu,
    DiscreteGpu,
    VirtualGpu,
    Cpu,
}

/// The drawable size the embedder requests for the swap chain, in pixels.
#[derive(Debug, Clone, Copy, PartialEq, Eq, Structural)]
pub struct RenderingResolution {
    pub width: u32,
    pub height: u32,
}

/// Everything the caller decides up front: whether to request the validation
/// layer, which device class to select, the requested drawable size, and how
/// many frames may be in flight at once.
/// `frames_in_flight` must be at least one; the synchronization stage
/// demands it.
#[derive(Debug, Clone, Copy, PartialEq, Eq, Structural)]
pub struct RenderingPipelineConfig {
    pub use_validation_layer: bool,
    pub target_device_type: DeviceType,
    pub rendering_resolution: RenderingResolution,
    pub frames_in_flight: u8,
}

} // verus!
