//! Swap-chain negotiation: surface-format choice, present-mode choice,
//! extent choice and image count, from the per-device surface snapshot.

use vstd::prelude::*;

use crate::build_stages::RenderPassBuildStage;
use crate::config::RenderingResolution;
use crate::exceptions::{RenderingError, RqResult};
use crate::physical_device::QueueFamilyIndices;

verus! {

/// Driver code of the 32-bit BGRA SRGB surface format the pipeline prefers.
pub const FORMAT_B8G8R8A8_SRGB: u32 = 50;

/// Driver code of the non-linear SRGB color space.
pub const COLOR_SPACE_SRGB_NONLINEAR: u32 = 0;

/// Driver code of the low-latency triple-buffer present mode.
pub const PRESENT_MODE_MAILBOX: u32 = 1;

/// Driver code of the universally supported queue-backed present mode.
pub const PRESENT_MODE_FIFO: u32 = 2;

/// A width and height pair as the driver reports and consumes it.
#[derive(Debug, Clone, Copy, PartialEq, Eq, Structural)]
pub struct Extent2D {
    pub width: u32,
    pub height: u32,
}

/// One supported surface format: a pixel format code and a color space code.
#[derive(Debug, Clone, Copy, PartialEq, Eq, Structural)]
pub struct SurfaceFormat {
    pub format: u32,
    pub color_space: u32,
}

/// The surface capabilities the driver reports for one device and surface
/// pair. A driver that reports no upper image-count limit is represented
/// with `max_image_count == u32::MAX`; a driver that leaves the extent to
/// the application reports `current_extent.width == u32::MAX`.
#[derive(Debug, Clone, Copy, PartialEq, Eq, Structural)]
pub struct SurfaceCapabilities {
    pub min_image_count: u32,
    pub max_image_count: u32,
    pub current_extent: Extent2D,
    pub min_image_extent: Extent2D,
    pub max_image_extent: Extent2D,
    pub current_transform: u32,
}

impl SurfaceCapabilities {
    /// What every conformant driver guarantees of its own report: the
    /// image-count and extent ranges are non-empty.
    pub open spec fn is_well_formed(self) -> bool {
        &&& self.min_image_count <= self.max_image_count
        &&& self.min_image_extent.width <= self.max_image_extent.width
        &&& self.min_image_extent.height <= self.max_image_extent.height
    }
}

/// Snapshot of everything the capability prober reads for one device and
/// surface pair: capabilities, supported formats, supported present modes.
#[derive(Debug, Clone)]
pub struct SwapChainSupport {
    pub capabilities: SurfaceCapabilities,
    pub formats: Vec<SurfaceFormat>,
    pub present_modes: Vec<u32>,
}

/// Whether a format is the preferred 32-bit BGRA SRGB format.
pub open spec fn spec_is_target_format(f: SurfaceFormat) -> bool {
    f.format == FORMAT_B8G8R8A8_SRGB
}

/// The first supported format whose pixel format is BGRA SRGB, or `None`
/// when the list holds no such format.
pub open spec fn spec_choose_surface_format(formats: Seq<SurfaceFormat>) -> Option<SurfaceFormat>
    decreases formats.len(),
{
    if formats.len() == 0 {
        None
    } else if spec_is_target_format(formats[0]) {
        Some(formats[0])
    } else {
        spec_choose_surface_format(formats.drop_first())
    }
}

/// Whether `modes` lists the present mode `mode`.
pub open spec fn spec_contains_mode(modes: Seq<u32>, mode: u32) -> bool {
    exists|i: int| 0 <= i < modes.len() && modes[i] == mode
}

/// The chosen present mode: the low-latency mailbox mode when the driver
/// lists it, else the always-available queue-backed mode.
pub open spec fn spec_choose_present_mode(modes: Seq<u32>) -> u32 {
    if spec_contains_mode(modes, PRESENT_MODE_MAILBOX) {
        PRESENT_MODE_MAILBOX
    } else {
        PRESENT_MODE_FIFO
    }
}

/// `v` clamped into `[lo, hi]`, for `lo <= hi`.
pub open spec fn spec_clamp(v: u32, lo: u32, hi: u32) -> u32 {
    if v < lo {
        lo
    } else if v > hi {
        hi
    } else {
        v
    }
}

/// The chosen swap-chain extent: the driver's current extent when the driver
/// fixes one, else the requested resolution clamped component-wise into the
/// driver's extent bounds.
pub open spec fn spec_choose_extent(resolution: RenderingResolution, c: SurfaceCapabilities) -> Extent2D {
    if c.current_extent.width != u32::MAX {
        c.current_extent
    } else {
        Extent2D {
            width: spec_clamp(resolution.width, c.min_image_extent.width, c.max_image_extent.width),
            height: spec_clamp(resolution.height, c.min_image_extent.height, c.max_image_extent.height),
        }
    }
}

/// The server-determined image count: one more than the driver minimum,
/// clamped to the driver maximum.
pub open spec fn spec_image_count(c: SurfaceCapabilities) -> int {
    if c.min_image_count + 1 <= c.max_image_count {
        c.min_image_count + 1
    } else {
        c.max_image_count as int
    }
}

/// First BGRA-SRGB match of the supported-format list, else none. The
/// result is a function of the list alone, so repeated selection over one
/// list can never disagree with itself.
pub fn choose_swap_chain_surface_format(formats: &Vec<SurfaceFormat>) -> (r: Option<SurfaceFormat>)
    ensures
        r == spec_choose_surface_format(formats@),
{
    let mut i: usize = 0;
    proof {
        assert(formats@.skip(0) =~= formats@);
    }
    while i < formats.len()
        invariant
            i <= formats@.len(),
            spec_choose_surface_format(formats@) == spec_choose_surface_format(formats@.skip(i as int)),
        decreases formats@.len() - i,
    {
        if formats[i].format == FORMAT_B8G8R8A8_SRGB {
            proof {
                assert(formats@.skip(i as int)[0] == formats@[i as int]);
            }
            return Some(formats[i]);
        }
        proof {
            assert(formats@.skip(i as int).drop_first() =~= formats@.skip(i as int + 1));
        }
        i = i + 1;
    }
    proof {
        assert(formats@.skip(i as int) =~= Seq::<SurfaceFormat>::empty());
    }
    None
}

/// Whether the driver lists the given present mode.
pub fn contains_present_mode(modes: &Vec<u32>, mode: u32) -> (r: bool)
    ensures
        r <==> spec_contains_mode(modes@, mode),
{
    let mut i: usize = 0;
    while i < modes.len()
        invariant
            i <= modes@.len(),
            forall|j: int| 0 <= j < i ==> modes@[j] != mode,
        decreases modes@.len() - i,
    {
        if modes[i] == mode {
            return true;
        }
        i = i + 1;
    }
    false
}

/// Present-mode choice: mailbox when listed, else the queue-backed mode.
pub fn choose_present_mode(modes: &Vec<u32>) -> (r: u32)
    ensures
        r == spec_choose_present_mode(modes@),
{
    if contains_present_mode(modes, PRESENT_MODE_MAILBOX) {
        PRESENT_MODE_MAILBOX
    } else {
        PRESENT_MODE_FIFO
    }
}

/// `v` clamped into `[lo, hi]`.
pub fn clamp_u32(v: u32, lo: u32, hi: u32) -> (r: u32)
    requires
        lo <= hi,
    ensures
        r == spec_clamp(v, lo, hi),
{
    if v < lo {
        lo
    } else if v > hi {
        hi
    } else {
        v
    }
}

/// Extent choice: the driver's current extent when fixed, else the
/// requested resolution clamped into the driver's bounds.
pub fn choose_swap_chain_extent(resolution: RenderingResolution, capabilities: &SurfaceCapabilities) -> (r: Extent2D)
    requires
        capabilities.is_well_formed(),
    ensures
        r == spec_choose_extent(resolution, *capabilities),
{
    if capabilities.current_extent.width != u32::MAX {
        return capabilities.current_extent;
    }
    Extent2D {
        width: clamp_u32(
            resolution.width,
            capabilities.min_image_extent.width,
            capabilities.max_image_extent.width,
        ),
        height: clamp_u32(
            resolution.height,
            capabilities.min_image_extent.height,
            capabilities.max_image_extent.height,
        ),
    }
}

/// The image count requested from the driver: minimum plus one, clamped to
/// the maximum.
pub fn compute_image_count(capabilities: &SurfaceCapabilities) -> (r: u32)
    requires
        capabilities.is_well_formed(),
    ensures
        r == spec_image_count(*capabilities),
        capabilities.min_image_count <= r <= capabilities.max_image_count,
{
    if capabilities.min_image_count < capabilities.max_image_count {
        capabilities.min_image_count + 1
    } else {
        capabilities.max_image_count
    }
}

/// How the swap-chain images are shared between the graphics and present
/// queue families.
#[derive(Debug, Clone, Copy, PartialEq, Eq, Structural)]
pub enum SharingMode {
    Exclusive,
    Concurrent,
}

/// Format-selection law, determinism: the choice is a function of the
/// supported-format list alone, so two selections over equal lists can
/// never disagree — never a different format on repeated runs.
pub proof fn lemma_format_selection_deterministic(f1: Seq<SurfaceFormat>, f2: Seq<SurfaceFormat>)
    requires
        f1 == f2,
    ensures
        spec_choose_surface_format(f1) == spec_choose_surface_format(f2),
{
}

/// Format-selection law, first match: the choice is the first BGRA-SRGB
/// entry of the list, and no choice exists exactly when no entry is
/// BGRA-SRGB.
pub proof fn lemma_format_selection_first_match(formats: Seq<SurfaceFormat>)
    ensures
        spec_choose_surface_format(formats) is None <==> (forall|i: int|
            #![auto]
            0 <= i < formats.len() ==> !spec_is_target_format(formats[i])),
        spec_choose_surface_format(formats) matches Some(f) ==> exists|i: int|
            {
                &&& 0 <= i < formats.len()
                &&& #[trigger] formats[i] == f
                &&& spec_is_target_format(f)
                &&& forall|j: int| #![auto] 0 <= j < i ==> !spec_is_target_format(formats[j])
            },
    decreases formats.len(),
{
    if formats.len() == 0 {
    } else if spec_is_target_format(formats[0]) {
    } else {
        let rest = formats.drop_first();
        lemma_format_selection_first_match(rest);
        if spec_choose_surface_format(formats) is Some {
            let f = spec_choose_surface_format(formats)->0;
            let i = choose|i: int|
                {
                    &&& 0 <= i < rest.len()
                    &&& #[trigger] rest[i] == f
                    &&& spec_is_target_format(f)
                    &&& forall|j: int| #![auto] 0 <= j < i ==> !spec_is_target_format(rest[j])
                };
            assert(rest[i] == formats[i + 1]);
            assert forall|j: int| 0 <= j < i + 1 implies !spec_is_target_format(formats[j]) by {
                if j > 0 {
                    assert(rest[j - 1] == formats[j]);
                    assert(!spec_is_target_format(rest[j - 1]));
                }
            }
            assert(0 <= i + 1 < formats.len() && formats[i + 1] == f && spec_is_target_format(f));
        } else {
            assert forall|j: int| 0 <= j < formats.len() implies !spec_is_target_format(
                formats[j],
            ) by {
                if j > 0 {
                    assert(rest[j - 1] == formats[j]);
                    assert(!spec_is_target_format(rest[j - 1]));
                }
            }
        }
        if forall|j: int| #![auto] 0 <= j < formats.len() ==> !spec_is_target_format(formats[j]) {
            assert forall|k: int| 0 <= k < rest.len() implies !spec_is_target_format(rest[k]) by {
                assert(rest[k] == formats[k + 1]);
            }
            assert(spec_choose_surface_format(rest) is None);
        }
    }
}

/// Concurrent sharing exactly when the two queue families differ.
pub fn choose_sharing_mode(indices: &QueueFamilyIndices) -> (r: SharingMode)
    ensures
        r is Concurrent <==> indices.graphics != indices.present,
{
    if indices.graphics == indices.present {
        SharingMode::Exclusive
    } else {
        SharingMode::Concurrent
    }
}

/// Everything swap-chain creation needs, fully negotiated: the chosen
/// format and present mode, the chosen extent, the image count to request,
/// the sharing mode with the families it spans, and the surface transform
/// to keep. The previous swap-chain handle, or a null handle on first
/// creation, is the embedder's to pass alongside.
#[derive(Debug)]
pub struct SwapChainPlan {
    pub surface_format: SurfaceFormat,
    pub present_mode: u32,
    pub extent: Extent2D,
    pub min_image_count: u32,
    pub sharing_mode: SharingMode,
    pub queue_family_indices: Vec<u32>,
    pub pre_transform: u32,
}

/// The live swap chain as this core tracks it: chosen extent, chosen pixel
/// format, and the server-determined number of images, each of which owns
/// one image view.
#[derive(Debug, Clone, Copy, PartialEq, Eq, Structural)]
pub struct SwapChainData {
    pub extent: Extent2D,
    pub format: u32,
    pub images_count: u32,
}

/// The stage reached once the logical device exists; its one legal
/// operation negotiates the swap chain.
pub struct SwapChainBuildStage {
    pub has_debug_messenger: bool,
    pub queue_families: QueueFamilyIndices,
    pub swap_chain_support: SwapChainSupport,
}

/// The stage between swap-chain creation and image retrieval: the embedder
/// creates the swap chain from the plan, retrieves its images, creates one
/// view per image, and reports how many there are.
pub struct SwapChainImagesStage {
    pub has_debug_messenger: bool,
    pub queue_families: QueueFamilyIndices,
    pub format: u32,
    pub extent: Extent2D,
}

impl SwapChainBuildStage {
    /// Negotiate the swap chain from the probed snapshot: the first
    /// BGRA-SRGB format — its absence is the one failure of this stage —
    /// the mailbox-else-queue present mode, the driver-fixed or clamped
    /// extent, minimum-plus-one images clamped to the maximum, and
    /// concurrent sharing exactly when graphics and present families
    /// differ.
    pub fn create_swap_chain(self, rendering_resolution: RenderingResolution) -> (r: RqResult<
        (SwapChainPlan, SwapChainImagesStage),
    >)
        requires
            self.swap_chain_support.capabilities.is_well_formed(),
        ensures
            r is Ok <==> spec_choose_surface_format(self.swap_chain_support.formats@) is Some,
            r matches Ok((plan, stage)) ==> {
                &&& spec_choose_surface_format(self.swap_chain_support.formats@) == Some(
                    plan.surface_format,
                )
                &&& plan.present_mode == spec_choose_present_mode(
                    self.swap_chain_support.present_modes@,
                )
                &&& plan.extent == spec_choose_extent(
                    rendering_resolution,
                    self.swap_chain_support.capabilities,
                )
                &&& plan.min_image_count == spec_image_count(self.swap_chain_support.capabilities)
                &&& (plan.sharing_mode is Concurrent <==> self.queue_families.graphics
                    != self.queue_families.present)
                &&& (self.queue_families.graphics == self.queue_families.present
                    ==> plan.queue_family_indices@ == seq![self.queue_families.graphics])
                &&& (self.queue_families.graphics != self.queue_families.present
                    ==> plan.queue_family_indices@ == seq![
                    self.queue_families.graphics,
                    self.queue_families.present,
                ])
                &&& plan.pre_transform == self.swap_chain_support.capabilities.current_transform
                &&& stage.has_debug_messenger == self.has_debug_messenger
                &&& stage.queue_families == self.queue_families
                &&& stage.format == plan.surface_format.format
                &&& stage.extent == plan.extent
            },
            r matches Err(e) ==> e matches RenderingError::SupportError(_),
    {
        let support = &self.swap_chain_support;
        let surface_format = match choose_swap_chain_surface_format(&support.formats) {
            Some(f) => f,
            None => {
                return Err(RenderingError::SupportError("suitable format was not found"));
            },
        };
        let present_mode = choose_present_mode(&support.present_modes);
        let extent = choose_swap_chain_extent(rendering_resolution, &support.capabilities);
        let min_image_count = compute_image_count(&support.capabilities);
        let sharing_mode = choose_sharing_mode(&self.queue_families);
        let queue_family_indices = self.queue_families.get_unique_indices();
        let plan = SwapChainPlan {
            surface_format,
            present_mode,
            extent,
            min_image_count,
            sharing_mode,
            queue_family_indices,
            pre_transform: support.capabilities.current_transform,
        };
        let stage = SwapChainImagesStage {
            has_debug_messenger: self.has_debug_messenger,
            queue_families: self.queue_families,
            format: surface_format.format,
            extent,
        };
        Ok((plan, stage))
    }
}

impl SwapChainImagesStage {
    /// Record how many images the driver handed back — the driver may
    /// return more than requested — and move on to the render pass. One
    /// image view exists per image from here on.
    pub fn images_retrieved(self, images_count: u32) -> (stage: RenderPassBuildStage)
        ensures
            stage.has_debug_messenger == self.has_debug_messenger,
            stage.queue_families == self.queue_families,
            stage.swap_chain == (SwapChainData {
                extent: self.extent,
                format: self.format,
                images_count,
            }),
    {
        RenderPassBuildStage {
            has_debug_messenger: self.has_debug_messenger,
            queue_families: self.queue_families,
            swap_chain: SwapChainData { extent: self.extent, format: self.format, images_count },
        }
    }
}

} // verus!
