//! The instance stage: extension and layer negotiation for instance
//! creation, from the probed layer list.

use vstd::prelude::*;

use crate::exceptions::{RenderingError, RqResult};
use crate::names::{
    contains_name, debug_utils_extension_name, spec_contains_name, spec_debug_utils_extension_name,
    spec_validation_layer_name, validation_layer_name,
};
use crate::physical_device::PhysicalDeviceBuildStage;

verus! {

/// Everything instance creation needs: the extension names to enable, the
/// layer names to enable, and whether a debug messenger must be chained to
/// the creation call so that instance and messenger appear atomically.
#[derive(Debug)]
pub struct InstancePlan {
    pub extensions: Vec<Vec<u8>>,
    pub layers: Vec<Vec<u8>>,
    pub create_debug_messenger: bool,
}

/// The stage reached once the driver entry point exists; its one legal
/// operation plans instance creation.
pub struct InstanceBuildStage {}

impl InstanceBuildStage {
    /// Negotiate the instance configuration. The enabled extensions are the
    /// platform presentation extensions plus, when validation is requested,
    /// the debug-utilities extension; the validation layer is enabled after
    /// probing the available layers, and its absence while requested is the
    /// one failure of this stage.
    pub fn create_instance(
        self,
        platform_extensions: Vec<Vec<u8>>,
        available_layers: &Vec<Vec<u8>>,
        use_validation_layer: bool,
    ) -> (r: RqResult<(InstancePlan, PhysicalDeviceBuildStage)>)
        ensures
            r is Ok <==> (use_validation_layer ==> spec_contains_name(
                available_layers@,
                spec_validation_layer_name(),
            )),
            r matches Ok((plan, stage)) ==> {
                &&& plan.extensions@.len() == platform_extensions@.len() + (
                if use_validation_layer {
                    1int
                } else {
                    0int
                })
                &&& forall|i: int|
                    0 <= i < platform_extensions@.len() ==> plan.extensions@[i]
                        == platform_extensions@[i]
                &&& use_validation_layer ==> plan.extensions@.last()@
                    == spec_debug_utils_extension_name()
                &&& plan.layers@.len() == (
                if use_validation_layer {
                    1int
                } else {
                    0int
                })
                &&& use_validation_layer ==> plan.layers@[0]@ == spec_validation_layer_name()
                &&& plan.create_debug_messenger == use_validation_layer
                &&& stage.has_debug_messenger == use_validation_layer
            },
            r matches Err(e) ==> e matches RenderingError::SupportError(_),
    {
        if use_validation_layer && !contains_name(available_layers, &validation_layer_name()) {
            return Err(RenderingError::SupportError("Required layers is not supported"));
        }
        let mut extensions = platform_extensions;
        let mut layers: Vec<Vec<u8>> = Vec::new();
        if use_validation_layer {
            extensions.push(debug_utils_extension_name());
            layers.push(validation_layer_name());
        }
        let plan = InstancePlan {
            extensions,
            layers,
            create_debug_messenger: use_validation_layer,
        };
        let stage = PhysicalDeviceBuildStage { has_debug_messenger: use_validation_layer };
        Ok((plan, stage))
    }
}

} // verus!
