//! Stage-scoped error taxonomy of the rendering core.
//!
//! Every construction stage surfaces its failure immediately as a typed
//! result; nothing is retried. Driver rejections carry the raw driver result
//! code as an `i32`.

use vstd::prelude::*;

verus! {

/// Result alias used throughout the rendering core.
pub type RqResult<T> = Result<T, RenderingError>;

/// Every failure the context-construction pipeline and the frame loop can
/// surface, scoped by the stage that produced it.
#[derive(Debug)]
pub enum RenderingError {
    /// The native driver loader library could not be found.
    LoadLibraryError(String),
    /// The driver entry point could not resolve its function pointers.
    CreateEntryError(String),
    /// A required capability (layer, device, format, present mode or
    /// extension) is not available; the payload names what was missing.
    SupportError(&'static str),
    /// The driver rejected instance creation.
    CreateInstanceError(i32),
    /// Physical-device enumeration failed in the driver.
    ChoosePhysicalDeviceError(i32),
    /// The driver rejected logical-device creation.
    CreateLogicalDeviceError(i32),
    /// The driver rejected swap-chain or image-view creation.
    CreateSwapChainError(i32),
    /// The driver rejected render-pass creation.
    CreateRenderPassError(i32),
    /// The driver rejected pipeline-layout creation.
    CreatePipelineLayoutError(i32),
    /// The driver rejected graphics-pipeline creation.
    BuildPipelinesError(i32),
    /// The driver rejected pipeline creation.
    CreatePipelineError(i32),
    /// Shader bytecode could not be loaded or was malformed.
    LoadShadersError(String),
    /// The driver rejected framebuffer creation.
    CreateFrameBufferError(i32),
    /// The driver rejected command-pool creation.
    CreateCommandPoolError(i32),
    /// The driver rejected command-buffer allocation or recording.
    CreateCommandBufferError(i32),
    /// The driver rejected semaphore or fence creation.
    CreateSyncObjectsError(i32),
    /// A bounded fence wait failed or timed out; fatal, never retried.
    WaitForFencesError(i32),
    /// A fence could not be reset to the unsignaled state.
    ResetFenceError(i32),
    /// The next presentable image could not be acquired.
    AcquireImageError(i32),
    /// The graphics queue rejected the command-buffer submission.
    QueueSubmitError(i32),
    /// The present queue rejected the presentation request.
    PresentationError(i32),
}

/// Classification of instance-creation failures for embedders that drive the
/// driver directly.
#[derive(Debug)]
pub enum CreateInstanceError {
    /// Layer enumeration failed, or a requested layer is unavailable.
    LayersError,
    /// The driver entry point rejected the creation call.
    EntryError,
    /// The debug messenger could not be registered.
    CreateDebuggerError,
}

/// Classification of physical-device selection failures for embedders that
/// drive the driver directly.
#[derive(Debug)]
pub enum PickPhysicalDeviceError {
    /// No enumerated device satisfied the suitability predicate.
    SuitableDeviceNotFound,
    /// A specific suitability check failed; the payload names it.
    SuitabilityError(&'static str),
}

} // verus!
