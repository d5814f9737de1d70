//! The logical-device stage: one queue per unique family, mirrored layer
//! names, and the minimal required device extensions.

use vstd::prelude::*;

use crate::names::{
    required_device_extensions, spec_khr_swapchain_extension_name, spec_validation_layer_name,
    validation_layer_name,
};
use crate::physical_device::QueueFamilyIndices;
use crate::swap_chain::{SwapChainBuildStage, SwapChainSupport};

verus! {

/// Everything logical-device creation needs: one queue-creation entry per
/// unique queue family, the layer names to mirror, and the device
/// extensions to enable.
#[derive(Debug)]
pub struct DevicePlan {
    pub queue_family_indices: Vec<u32>,
    pub layers: Vec<Vec<u8>>,
    pub extensions: Vec<Vec<u8>>,
}

/// The stage reached once a physical device is selected; its one legal
/// operation plans logical-device creation.
pub struct LogicalDeviceBuildStage {
    pub has_debug_messenger: bool,
    pub queue_families: QueueFamilyIndices,
    pub swap_chain_support: SwapChainSupport,
}

impl LogicalDeviceBuildStage {
    /// Plan the logical device: one queue-create entry per unique family
    /// index (graphics and present deduplicated), the validation layer
    /// mirrored at device level when enabled — device-level layers are
    /// legacy, kept for compatibility — and the swap-chain extension.
    pub fn create_logical_device(self, use_validation_layer: bool) -> (r: (
        DevicePlan,
        SwapChainBuildStage,
    ))
        ensures
            self.queue_families.graphics == self.queue_families.present
                ==> r.0.queue_family_indices@ == seq![self.queue_families.graphics],
            self.queue_families.graphics != self.queue_families.present
                ==> r.0.queue_family_indices@ == seq![
                self.queue_families.graphics,
                self.queue_families.present,
            ],
            r.0.layers@.len() == (
            if use_validation_layer {
                1int
            } else {
                0int
            }),
            use_validation_layer ==> r.0.layers@[0]@ == spec_validation_layer_name(),
            r.0.extensions@.len() == 1,
            r.0.extensions@[0]@ == spec_khr_swapchain_extension_name(),
            r.1.has_debug_messenger == self.has_debug_messenger,
            r.1.queue_families == self.queue_families,
            r.1.swap_chain_support == self.swap_chain_support,
    {
        let queue_family_indices = self.queue_families.get_unique_indices();
        let mut layers: Vec<Vec<u8>> = Vec::new();
        if use_validation_layer {
            layers.push(validation_layer_name());
        }
        let plan = DevicePlan {
            queue_family_indices,
            layers,
            extensions: required_device_extensions(),
        };
        let stage = SwapChainBuildStage {
            has_debug_messenger: self.has_debug_messenger,
            queue_families: self.queue_families,
            swap_chain_support: self.swap_chain_support,
        };
        (plan, stage)
    }
}

} // verus!
