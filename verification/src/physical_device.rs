//! Queue-family discovery, the device-suitability predicate, and
//! first-match physical-device selection.

use vstd::prelude::*;

use crate::config::DeviceType;
use crate::exceptions::{RenderingError, RqResult};
use crate::names::{
    required_device_extensions, spec_contains_name, spec_khr_swapchain_extension_name,
    supports_all_names,
};
use crate::swap_chain::SwapChainSupport;

verus! {

/// What one queue family of a device advertises: whether it accepts graphics
/// command submission, and whether it can present to the target surface.
/// The second answer depends on the surface the prober asked about.
#[derive(Debug, Clone, Copy, PartialEq, Eq, Structural)]
pub struct QueueFamilyInfo {
    pub supports_graphics: bool,
    pub supports_present: bool,
}

/// The two queue family indices a device must provide: one family that
/// accepts graphics command submission and one that can present to the
/// surface. The two searches are independent and may pick the same family.
#[derive(Debug, Clone, Copy, PartialEq, Eq, Structural)]
pub struct QueueFamilyIndices {
    pub graphics: u32,
    pub present: u32,
}

/// Immutable snapshot of one candidate device, captured at selection time:
/// its class, its geometry-shader feature flag, its queue families, its
/// supported extension names, and the surface snapshot probed for it.
#[derive(Debug, Clone)]
pub struct PhysicalDeviceInfo {
    pub device_type: DeviceType,
    pub supports_geometry_shader: bool,
    pub queue_families: Vec<QueueFamilyInfo>,
    pub extensions: Vec<Vec<u8>>,
    pub swap_chain_support: SwapChainSupport,
}

/// Whether some family of the device accepts graphics submission.
pub open spec fn spec_has_graphics_family(families: Seq<QueueFamilyInfo>) -> bool {
    exists|i: int| 0 <= i < families.len() && families[i].supports_graphics
}

/// Whether some family of the device can present to the surface.
pub open spec fn spec_has_present_family(families: Seq<QueueFamilyInfo>) -> bool {
    exists|i: int| 0 <= i < families.len() && families[i].supports_present
}

/// Index of the first family accepting graphics submission, when one exists.
pub fn find_graphics_queue_index(families: &Vec<QueueFamilyInfo>) -> (r: Option<u32>)
    requires
        families@.len() <= u32::MAX,
    ensures
        match r {
            Some(idx) => {
                &&& idx < families@.len()
                &&& families@[idx as int].supports_graphics
                &&& forall|j: int| 0 <= j < idx ==> !families@[j].supports_graphics
            },
            None => !spec_has_graphics_family(families@),
        },
{
    let mut i: usize = 0;
    while i < families.len()
        invariant
            i <= families@.len(),
            families@.len() <= u32::MAX,
            forall|j: int| 0 <= j < i ==> !families@[j].supports_graphics,
        decreases families@.len() - i,
    {
        if families[i].supports_graphics {
            return Some(i as u32);
        }
        i = i + 1;
    }
    None
}

/// Index of the first family that can present to the surface, when one
/// exists.
pub fn find_present_queue_index(families: &Vec<QueueFamilyInfo>) -> (r: Option<u32>)
    requires
        families@.len() <= u32::MAX,
    ensures
        match r {
            Some(idx) => {
                &&& idx < families@.len()
                &&& families@[idx as int].supports_present
                &&& forall|j: int| 0 <= j < idx ==> !families@[j].supports_present
            },
            None => !spec_has_present_family(families@),
        },
{
    let mut i: usize = 0;
    while i < families.len()
        invariant
            i <= families@.len(),
            families@.len() <= u32::MAX,
            forall|j: int| 0 <= j < i ==> !families@[j].supports_present,
        decreases families@.len() - i,
    {
        if families[i].supports_present {
            return Some(i as u32);
        }
        i = i + 1;
    }
    None
}

/// Whether `q` holds exactly the first-match indices for `families`: the
/// first family accepting graphics submission and the first family able to
/// present.
pub open spec fn spec_queue_indices_correct(
    families: Seq<QueueFamilyInfo>,
    q: QueueFamilyIndices,
) -> bool {
    &&& q.graphics < families.len()
    &&& families[q.graphics as int].supports_graphics
    &&& forall|j: int| 0 <= j < q.graphics ==> !families[j].supports_graphics
    &&& q.present < families.len()
    &&& families[q.present as int].supports_present
    &&& forall|j: int| 0 <= j < q.present ==> !families[j].supports_present
}

impl QueueFamilyIndices {
    /// Resolve both indices from a device's family list: the graphics index
    /// is the first family advertising graphics capability, the present
    /// index the first family that can present — independent searches.
    /// Fails exactly when either search finds nothing.
    pub fn create(families: &Vec<QueueFamilyInfo>) -> (r: RqResult<QueueFamilyIndices>)
        requires
            families@.len() <= u32::MAX,
        ensures
            r is Ok <==> spec_has_graphics_family(families@) && spec_has_present_family(
                families@,
            ),
            r matches Ok(q) ==> spec_queue_indices_correct(families@, q),
            r matches Err(e) ==> e matches RenderingError::SupportError(_),
    {
        let graphics = match find_graphics_queue_index(families) {
            Some(idx) => idx,
            None => {
                return Err(RenderingError::SupportError("Graphics queue family is not supported"));
            },
        };
        let present = match find_present_queue_index(families) {
            Some(idx) => idx,
            None => {
                return Err(RenderingError::SupportError("Present queue family is not supported"));
            },
        };
        Ok(QueueFamilyIndices { graphics, present })
    }

    /// The set of distinct families, as a list: one element when graphics and
    /// present coincide, otherwise both, graphics first.
    pub fn get_unique_indices(&self) -> (r: Vec<u32>)
        ensures
            self.graphics == self.present ==> r@ == seq![self.graphics],
            self.graphics != self.present ==> r@ == seq![self.graphics, self.present],
    {
        if self.graphics == self.present {
            vec![self.graphics]
        } else {
            vec![self.graphics, self.present]
        }
    }
}

/// The suitability predicate: the device is of the targeted class, reports
/// geometry-shader support, carries the swap-chain extension, reports at
/// least one surface format and one present mode, and resolves both queue
/// family indices.
pub open spec fn spec_device_suitable(d: PhysicalDeviceInfo, target: DeviceType) -> bool {
    &&& d.device_type == target
    &&& d.supports_geometry_shader
    &&& spec_contains_name(d.extensions@, spec_khr_swapchain_extension_name())
    &&& d.swap_chain_support.formats@.len() > 0
    &&& d.swap_chain_support.present_modes@.len() > 0
    &&& spec_has_graphics_family(d.queue_families@)
    &&& spec_has_present_family(d.queue_families@)
}

/// Run every suitability check against one device snapshot.
pub fn check_device_suitable(device: &PhysicalDeviceInfo, target_type: DeviceType) -> (r: bool)
    requires
        device.queue_families@.len() <= u32::MAX,
    ensures
        r <==> spec_device_suitable(*device, target_type),
{
    if device.device_type != target_type {
        return false;
    }
    if !device.supports_geometry_shader {
        return false;
    }
    let required = required_device_extensions();
    if !supports_all_names(&device.extensions, &required) {
        return false;
    }
    proof {
        assert(spec_contains_name(device.extensions@, required@[0]@));
    }
    if device.swap_chain_support.formats.len() == 0 {
        return false;
    }
    if device.swap_chain_support.present_modes.len() == 0 {
        return false;
    }
    let has_graphics = match find_graphics_queue_index(&device.queue_families) {
        Some(_) => true,
        None => false,
    };
    if !has_graphics {
        return false;
    }
    match find_present_queue_index(&device.queue_families) {
        Some(_) => true,
        None => false,
    }
}

/// First-match selection over the enumerated devices: the index of the
/// first device satisfying the suitability predicate, in enumeration order,
/// with no scoring beyond first match; fails exactly when no device
/// qualifies.
pub fn choose_physical_device(devices: &Vec<PhysicalDeviceInfo>, target_type: DeviceType) -> (r:
    RqResult<usize>)
    requires
        forall|i: int| #![auto] 0 <= i < devices@.len() ==> devices@[i].queue_families@.len()
            <= u32::MAX,
    ensures
        match r {
            Ok(i) => {
                &&& i < devices@.len()
                &&& spec_device_suitable(devices@[i as int], target_type)
                &&& forall|j: int| #![auto] 0 <= j < i ==> !spec_device_suitable(
                    devices@[j],
                    target_type,
                )
            },
            Err(e) => {
                &&& forall|j: int| #![auto] 0 <= j < devices@.len() ==> !spec_device_suitable(
                    devices@[j],
                    target_type,
                )
                &&& e matches RenderingError::SupportError(_)
            },
        },
{
    let mut i: usize = 0;
    while i < devices.len()
        invariant
            i <= devices@.len(),
            forall|k: int| #![auto] 0 <= k < devices@.len() ==> devices@[k].queue_families@.len()
                <= u32::MAX,
            forall|j: int| #![auto] 0 <= j < i ==> !spec_device_suitable(devices@[j], target_type),
        decreases devices@.len() - i,
    {
        if check_device_suitable(&devices[i], target_type) {
            return Ok(i);
        }
        i = i + 1;
    }
    Err(RenderingError::SupportError("Supported device not found"))
}

/// The five advertised checks of device selection: targeted class,
/// geometry-shader support, swap-chain extension coverage, a non-empty
/// format list and a non-empty present-mode list.
pub open spec fn spec_device_matches_requirements(d: PhysicalDeviceInfo, target: DeviceType) -> bool {
    &&& d.device_type == target
    &&& d.supports_geometry_shader
    &&& spec_contains_name(d.extensions@, spec_khr_swapchain_extension_name())
    &&& d.swap_chain_support.formats@.len() > 0
    &&& d.swap_chain_support.present_modes@.len() > 0
}

/// Device-selection law: over devices where the five advertised checks
/// entail resolvable queue family indices, the suitability predicate is
/// exactly those five checks — so selection returns the first device
/// satisfying them, in enumeration order, and fails exactly when none
/// does.
pub proof fn lemma_suitability_is_five_checks(devices: Seq<PhysicalDeviceInfo>, target: DeviceType)
    requires
        forall|i: int|
            #![auto]
            0 <= i < devices.len() && spec_device_matches_requirements(devices[i], target)
                ==> spec_has_graphics_family(devices[i].queue_families@)
                && spec_has_present_family(devices[i].queue_families@),
    ensures
        forall|i: int|
            #![auto]
            0 <= i < devices.len() ==> (spec_device_suitable(devices[i], target)
                <==> spec_device_matches_requirements(devices[i], target)),
{
}

/// Whether `i` is the first index of `devices` whose device satisfies the
/// suitability predicate.
pub open spec fn spec_first_suitable(
    devices: Seq<PhysicalDeviceInfo>,
    target: DeviceType,
    i: int,
) -> bool {
    &&& 0 <= i < devices.len()
    &&& spec_device_suitable(devices[i], target)
    &&& forall|j: int| #![auto] 0 <= j < i ==> !spec_device_suitable(devices[j], target)
}

/// The stage reached once the instance exists; its one legal operation
/// selects the physical device.
pub struct PhysicalDeviceBuildStage {
    pub has_debug_messenger: bool,
}

impl PhysicalDeviceBuildStage {
    /// Select the first suitable device among the enumerated snapshots and
    /// resolve its queue family indices; carry its surface snapshot into
    /// the next stage. Fails exactly when no device qualifies.
    pub fn choose_physical_device(
        self,
        devices: Vec<PhysicalDeviceInfo>,
        target_type: DeviceType,
    ) -> (r: RqResult<crate::logical_device::LogicalDeviceBuildStage>)
        requires
            forall|i: int| #![auto] 0 <= i < devices@.len() ==> devices@[i].queue_families@.len()
                <= u32::MAX,
        ensures
            r is Ok <==> exists|i: int| spec_first_suitable(devices@, target_type, i),
            r matches Ok(stage) ==> exists|i: int|
                {
                    &&& #[trigger] spec_first_suitable(devices@, target_type, i)
                    &&& spec_queue_indices_correct(
                        devices@[i].queue_families@,
                        stage.queue_families,
                    )
                    &&& stage.swap_chain_support == devices@[i].swap_chain_support
                    &&& stage.has_debug_messenger == self.has_debug_messenger
                },
            r matches Err(e) ==> {
                &&& e matches RenderingError::SupportError(_)
                &&& forall|j: int| #![auto] 0 <= j < devices@.len() ==> !spec_device_suitable(
                    devices@[j],
                    target_type,
                )
            },
    {
        let ghost orig = devices@;
        let mut devices = devices;
        let idx = match choose_physical_device(&devices, target_type) {
            Ok(i) => i,
            Err(e) => {
                return Err(e);
            },
        };
        let device = devices.remove(idx);
        proof {
            assert(device == orig[idx as int]);
            assert(orig[idx as int].queue_families@.len() <= u32::MAX);
            assert(spec_device_suitable(orig[idx as int], target_type));
        }
        let queue_families = match QueueFamilyIndices::create(&device.queue_families) {
            Ok(q) => q,
            Err(_) => {
                proof {
                    assert(spec_has_graphics_family(device.queue_families@));
                    assert(spec_has_present_family(device.queue_families@));
                }
                return unreached();
            },
        };
        let stage = crate::logical_device::LogicalDeviceBuildStage {
            has_debug_messenger: self.has_debug_messenger,
            queue_families,
            swap_chain_support: device.swap_chain_support,
        };
        proof {
            assert(spec_first_suitable(orig, target_type, idx as int));
        }
        Ok(stage)
    }
}

} // verus!
