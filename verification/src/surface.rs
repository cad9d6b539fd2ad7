//! The presentable surface: swapchain configuration, the per-frame
//! acquire → record → submit → present protocol, and resize/recreate logic.
//!
//! Everything driver-facing is modeled by plain handle values and enums; the
//! native calls (creating swapchains, waiting on semaphores, acquiring and
//! presenting images, recording barriers) are made by the embedding
//! application, which is handed exact descriptions of what to do and feeds
//! the driver's answers back in.  The verified state machine decides when a
//! swapchain must be rebuilt, which frame slot a frame uses, what the slot
//! must wait for, and what each submission signals.

use vstd::prelude::*;
use crate::context::Core;
use crate::deletion_queue::DeletableResource;
use crate::deletion_queue::DeletionQueue;
use crate::deletion_queue::PendingDeletion;
use crate::error::GfxError;

verus! {

/// A pixel extent.  `u32::MAX × u32::MAX` is the platform's sentinel for "the
/// window decides".
#[derive(Clone, Copy, Debug, PartialEq, Eq, Structural)]
pub struct Extent2D {
    pub width: u32,
    pub height: u32,
}

/// The color formats the configuration distinguishes: the three 8-bit sRGB
/// formats it favours, their UNORM variants it can reinterpret through a
/// paired sRGB view, and everything else by raw format code.
#[derive(Clone, Copy, Debug, PartialEq, Eq, Structural)]
pub enum Format {
    R8g8b8a8Srgb,
    B8g8r8a8Srgb,
    A8b8g8r8SrgbPack32,
    R8g8b8a8Unorm,
    B8g8r8a8Unorm,
    A8b8g8r8UnormPack32,
    Other(u32),
}

/// The present modes the configuration distinguishes, everything else by raw
/// mode code.
#[derive(Clone, Copy, Debug, PartialEq, Eq, Structural)]
pub enum PresentMode {
    Mailbox,
    FifoRelaxed,
    Fifo,
    Other(u32),
}

/// One supported surface format as the platform reports it: a color format
/// and whether it comes with the sRGB-nonlinear color space.
#[derive(Clone, Copy, Debug, PartialEq, Eq, Structural)]
pub struct SurfaceFormat {
    pub format: Format,
    pub srgb_nonlinear: bool,
}

/// The surface capabilities the configuration and resize logic read.
/// `max_image_count == 0` means unlimited.
#[derive(Clone, Copy, Debug, PartialEq, Eq, Structural)]
pub struct SurfaceCapabilities {
    pub min_image_count: u32,
    pub max_image_count: u32,
    pub current_extent: Extent2D,
    pub min_image_extent: Extent2D,
    pub max_image_extent: Extent2D,
    pub supports_identity_transform: bool,
}

/// Present-mode preference: mailbox over relaxed FIFO over FIFO over
/// anything else.
pub open spec fn present_mode_preference(mode: PresentMode) -> int {
    match mode {
        PresentMode::Mailbox => 3,
        PresentMode::FifoRelaxed => 2,
        PresentMode::Fifo => 1,
        PresentMode::Other(_) => 0,
    }
}

/// Color-format preference: sRGB-encoded 8-bit formats first, then UNORM
/// variants that can be reinterpreted through a paired sRGB view.
pub open spec fn format_preference(format: Format) -> int {
    match format {
        Format::R8g8b8a8Srgb => 15,
        Format::B8g8r8a8Srgb => 14,
        Format::A8b8g8r8SrgbPack32 => 13,
        Format::R8g8b8a8Unorm => 5,
        Format::B8g8r8a8Unorm => 4,
        Format::A8b8g8r8UnormPack32 => 3,
        Format::Other(_) => 0,
    }
}

/// The sRGB-encoded partner of a format: UNORM variants pair with their sRGB
/// counterpart, everything else with itself.
pub open spec fn srgb_pair(format: Format) -> Format {
    match format {
        Format::R8g8b8a8Unorm => Format::R8g8b8a8Srgb,
        Format::B8g8r8a8Unorm => Format::B8g8r8a8Srgb,
        Format::A8b8g8r8UnormPack32 => Format::A8b8g8r8SrgbPack32,
        _ => format,
    }
}

/// The platform's sentinel extent for "no fixed current extent".
pub open spec fn no_current_extent() -> Extent2D {
    Extent2D { width: u32::MAX, height: u32::MAX }
}

/// The extent the swapchain must use: the surface's current extent, unless
/// the platform leaves it to the window.
pub open spec fn chosen_extent(caps: SurfaceCapabilities, window_extent: Extent2D) -> Extent2D {
    if caps.current_extent == no_current_extent() {
        window_extent
    } else {
        caps.current_extent
    }
}

/// One image more than the platform's minimum, clamped to its maximum (zero
/// meaning unlimited).
pub open spec fn desired_image_count(caps: SurfaceCapabilities) -> u32 {
    let max_images: u32 = if caps.max_image_count == 0 {
        u32::MAX
    } else {
        caps.max_image_count
    };
    if caps.min_image_count + 1 <= max_images {
        (caps.min_image_count + 1) as u32
    } else {
        max_images
    }
}

/// An extent the surface cannot present at: zero in either dimension, or
/// outside the platform's reported bounds.
pub open spec fn extent_unsupported(caps: SurfaceCapabilities, extent: Extent2D) -> bool {
    ||| extent.width < caps.min_image_extent.width
    ||| extent.width > caps.max_image_extent.width
    ||| extent.width == 0
    ||| extent.height < caps.min_image_extent.height
    ||| extent.height > caps.max_image_extent.height
    ||| extent.height == 0
}

/// A degraded surface: the platform reported a zero extent or an unsupported
/// resize target, and there is no swapchain to render into.
pub open spec fn degraded(extent: Extent2D) -> bool {
    extent.width == 0 || extent.height == 0
}

/// The sRGB partner of `format`, for creating the swapchain's paired view.
pub fn srgb_pair_of(format: Format) -> (pair: Format)
    ensures
        pair == srgb_pair(format),
{
    match format {
        Format::R8g8b8a8Unorm => Format::R8g8b8a8Srgb,
        Format::B8g8r8a8Unorm => Format::B8g8r8a8Srgb,
        Format::A8b8g8r8UnormPack32 => Format::A8b8g8r8SrgbPack32,
        _ => format,
    }
}

/// Whether a swapchain over `format` must be created with the mutable-format
/// capability: exactly when the paired view format differs.
pub fn needs_mutable_format(format: Format) -> (needed: bool)
    ensures
        needed == (srgb_pair(format) != format),
{
    let pair = srgb_pair_of(format);
    pair != format
}

/// The supported present mode of maximal preference, later entries winning
/// ties; fails only when the platform reports none at all.
pub fn select_present_mode(modes: &Vec<PresentMode>) -> (result: Result<PresentMode, GfxError>)
    ensures
        modes@.len() == 0 <==> result is Err,
        result is Err ==> result == Err::<PresentMode, GfxError>(GfxError::NoPresentMode),
        result matches Ok(mode) ==> modes@.contains(mode) && forall|k: int|
            0 <= k < modes@.len() ==> present_mode_preference(#[trigger] modes@[k])
                <= present_mode_preference(mode),
{
    if modes.len() == 0 {
        return Err(GfxError::NoPresentMode);
    }
    let mut best = modes[0];
    let mut index: usize = 1;
    while index < modes.len()
        invariant
            1 <= index <= modes@.len(),
            modes@.contains(best),
            forall|k: int|
                0 <= k < index ==> present_mode_preference(#[trigger] modes@[k])
                    <= present_mode_preference(best),
        decreases modes@.len() - index,
    {
        let candidate = modes[index];
        if preference_of_mode(candidate) >= preference_of_mode(best) {
            best = candidate;
        }
        index = index + 1;
    }
    Ok(best)
}

/// The preference weight of one present mode.
fn preference_of_mode(mode: PresentMode) -> (preference: u32)
    ensures
        preference == present_mode_preference(mode),
{
    match mode {
        PresentMode::Mailbox => 3,
        PresentMode::FifoRelaxed => 2,
        PresentMode::Fifo => 1,
        PresentMode::Other(_) => 0,
    }
}

/// Among the formats paired with the sRGB-nonlinear color space, the one of
/// maximal preference, later entries winning ties; fails when no reported
/// pairing uses that color space.
pub fn select_surface_format(formats: &Vec<SurfaceFormat>) -> (result: Result<Format, GfxError>)
    ensures
        (exists|k: int| 0 <= k < formats@.len() && (#[trigger] formats@[k]).srgb_nonlinear) <==> result is Ok,
        result is Err ==> result == Err::<Format, GfxError>(GfxError::NoSurfaceFormat),
        result matches Ok(format) ==> (exists|k: int|
            0 <= k < formats@.len() && (#[trigger] formats@[k]).srgb_nonlinear && formats@[k].format
                == format) && forall|k: int|
            0 <= k < formats@.len() && (#[trigger] formats@[k]).srgb_nonlinear
                ==> format_preference(formats@[k].format) <= format_preference(format),
{
    let mut found = false;
    let mut best = Format::Other(0);
    let mut index: usize = 0;
    while index < formats.len()
        invariant
            index <= formats@.len(),
            found ==> exists|k: int|
                0 <= k < index && (#[trigger] formats@[k]).srgb_nonlinear && formats@[k].format
                    == best,
            forall|k: int|
                0 <= k < index && (#[trigger] formats@[k]).srgb_nonlinear ==> found
                    && format_preference(formats@[k].format) <= format_preference(best),
        decreases formats@.len() - index,
    {
        let entry = formats[index];
        if entry.srgb_nonlinear {
            if !found || preference_of_format(entry.format) >= preference_of_format(best) {
                found = true;
                best = entry.format;
            }
        }
        index = index + 1;
    }
    if found {
        Ok(best)
    } else {
        Err(GfxError::NoSurfaceFormat)
    }
}

/// The preference weight of one color format.
fn preference_of_format(format: Format) -> (preference: u32)
    ensures
        preference == format_preference(format),
{
    match format {
        Format::R8g8b8a8Srgb => 15,
        Format::B8g8r8a8Srgb => 14,
        Format::A8b8g8r8SrgbPack32 => 13,
        Format::R8g8b8a8Unorm => 5,
        Format::B8g8r8a8Unorm => 4,
        Format::A8b8g8r8UnormPack32 => 3,
        Format::Other(_) => 0,
    }
}

/// Everything the initial swapchain is created from: the chosen extent,
/// format, present mode and image count.
#[derive(Clone, Copy, Debug, PartialEq, Eq, Structural)]
pub struct SurfaceConfig {
    pub extent: Extent2D,
    pub format: Format,
    pub present_mode: PresentMode,
    pub num_images: u32,
}

/// Chooses the initial configuration from what the platform reports.
/// Identity transform support is demanded first; then a present mode and a
/// color format are selected by preference.
pub fn plan_surface(
    caps: &SurfaceCapabilities,
    formats: &Vec<SurfaceFormat>,
    modes: &Vec<PresentMode>,
    window_extent: Extent2D,
) -> (result: Result<SurfaceConfig, GfxError>)
    requires
        caps.min_image_count < u32::MAX,
    ensures
        !caps.supports_identity_transform ==> result == Err::<SurfaceConfig, GfxError>(
            GfxError::IdentityTransformUnsupported,
        ),
        caps.supports_identity_transform && modes@.len() == 0 ==> result == Err::<
            SurfaceConfig,
            GfxError,
        >(GfxError::NoPresentMode),
        caps.supports_identity_transform && modes@.len() > 0 && (forall|k: int|
            0 <= k < formats@.len() ==> !(#[trigger] formats@[k]).srgb_nonlinear) ==> result
            == Err::<SurfaceConfig, GfxError>(GfxError::NoSurfaceFormat),
        result is Ok <==> caps.supports_identity_transform && modes@.len() > 0 && (exists|k: int|
            0 <= k < formats@.len() && (#[trigger] formats@[k]).srgb_nonlinear),
        result matches Ok(config) ==> {
            &&& config.extent == chosen_extent(*caps, window_extent)
            &&& config.num_images == desired_image_count(*caps)
            &&& modes@.contains(config.present_mode)
            &&& forall|k: int|
                0 <= k < modes@.len() ==> present_mode_preference(#[trigger] modes@[k])
                    <= present_mode_preference(config.present_mode)
            &&& exists|k: int|
                0 <= k < formats@.len() && (#[trigger] formats@[k]).srgb_nonlinear
                    && formats@[k].format == config.format
            &&& forall|k: int|
                0 <= k < formats@.len() && (#[trigger] formats@[k]).srgb_nonlinear
                    ==> format_preference(formats@[k].format) <= format_preference(config.format)
        },
{
    if !caps.supports_identity_transform {
        return Err(GfxError::IdentityTransformUnsupported);
    }

    let sentinel = Extent2D { width: u32::MAX, height: u32::MAX };
    let extent = if caps.current_extent == sentinel {
        window_extent
    } else {
        caps.current_extent
    };

    let present_mode = match select_present_mode(modes) {
        Ok(mode) => mode,
        Err(error) => {
            return Err(error);
        },
    };
    let format = match select_surface_format(formats) {
        Ok(format) => format,
        Err(error) => {
            return Err(error);
        },
    };

    let max_images = if caps.max_image_count == 0 {
        u32::MAX
    } else {
        caps.max_image_count
    };
    let desired = caps.min_image_count + 1;
    let num_images = if desired <= max_images {
        desired
    } else {
        max_images
    };

    Ok(SurfaceConfig { extent, format, present_mode, num_images })
}

/// A swapchain as this crate sees it: its handle, its images and the view
/// created over each image.  Created natively by the embedding application
/// and superseded — never mutated — on resize.
pub struct Swapchain {
    pub vk_swapchain: u64,
    pub vk_images: Vec<u64>,
    pub vk_image_views: Vec<u64>,
}

impl Swapchain {
    /// One view per image.
    pub open spec fn wf(self) -> bool {
        self.vk_images@.len() == self.vk_image_views@.len()
    }

    /// Hands the swapchain handle and every image view to the deletion
    /// queue, all tagged with the same safe value; the images themselves
    /// belong to the swapchain and die with it.
    pub fn queue_deletion(&self, deletion_queue: &mut DeletionQueue, timeline_value: u64)
        ensures
            final(deletion_queue).pending_deletions@.len() == old(
                deletion_queue,
            ).pending_deletions@.len() + 1 + self.vk_image_views@.len(),
            final(deletion_queue).pending_deletions@.subrange(
                0,
                old(deletion_queue).pending_deletions@.len() as int,
            ) == old(deletion_queue).pending_deletions@,
            final(deletion_queue).pending_deletions@[old(deletion_queue).pending_deletions@.len() as int]
                == (PendingDeletion {
                timeline_value,
                resource: DeletableResource::Swapchain(self.vk_swapchain),
            }),
            forall|k: int|
                0 <= k < self.vk_image_views@.len()
                    ==> final(deletion_queue).pending_deletions@[old(
                    deletion_queue,
                ).pending_deletions@.len() + 1 + k] == (PendingDeletion {
                    timeline_value,
                    resource: DeletableResource::ImageView(#[trigger] self.vk_image_views@[k]),
                }),
    {
        let ghost base = deletion_queue.pending_deletions@;
        deletion_queue.queue_deletion_after(
            DeletableResource::Swapchain(self.vk_swapchain),
            timeline_value,
        );
        let mut index: usize = 0;
        while index < self.vk_image_views.len()
            invariant
                index <= self.vk_image_views@.len(),
                deletion_queue.pending_deletions@.len() == base.len() + 1 + index,
                deletion_queue.pending_deletions@.subrange(0, base.len() as int) == base,
                deletion_queue.pending_deletions@[base.len() as int] == (PendingDeletion {
                    timeline_value,
                    resource: DeletableResource::Swapchain(self.vk_swapchain),
                }),
                forall|k: int|
                    0 <= k < index ==> deletion_queue.pending_deletions@[base.len() + 1 + k]
                        == (PendingDeletion {
                        timeline_value,
                        resource: DeletableResource::ImageView(#[trigger] self.vk_image_views@[k]),
                    }),
            decreases self.vk_image_views@.len() - index,
        {
            let view = self.vk_image_views[index];
            deletion_queue.queue_deletion_after(DeletableResource::ImageView(view), timeline_value);
            proof {
                assert(deletion_queue.pending_deletions@.subrange(0, base.len() as int) =~= base);
            }
            index = index + 1;
        }
    }
}

/// The image handed back by a native acquire: the image, its view and the
/// index the present call must name.
#[derive(Clone, Copy, Debug, PartialEq, Eq, Structural)]
pub struct SwapchainImage {
    pub vk_image: u64,
    pub vk_image_view: u64,
    pub image_index: u32,
}

/// One reusable bundle of per-frame synchronization objects, cycled
/// round-robin across frames, independent of the image index the platform
/// returns.
#[derive(Clone, Copy, Debug, PartialEq, Eq, Structural)]
pub struct FrameSync {
    pub image_available_semaphore: u64,
    pub raster_finish_semaphore: u64,
    pub prev_submit_timeline_value: u64,
}

/// The ephemeral value produced by beginning a frame and consumed by
/// submitting it; never persisted.
pub struct Frame {
    pub vk_cmd_buffer: u64,
    pub swapchain_image: SwapchainImage,
    pub sync_index: usize,
    pub extent: Extent2D,
}

impl Frame {
    /// The command buffer the application records this frame's work into.
    pub fn cmd_buffer(&self) -> (vk_cmd_buffer: u64)
        ensures
            vk_cmd_buffer == self.vk_cmd_buffer,
    {
        self.vk_cmd_buffer
    }

    /// The view of the swapchain image this frame renders into.
    pub fn swapchain_image_view(&self) -> (vk_image_view: u64)
        ensures
            vk_image_view == self.swapchain_image.vk_image_view,
    {
        self.swapchain_image.vk_image_view
    }
}

/// An image layout a barrier moves between.
#[derive(Clone, Copy, Debug, PartialEq, Eq, Structural)]
pub enum ImageLayout {
    Undefined,
    AttachmentOptimal,
    PresentSrc,
}

/// A pipeline-stage scope of a barrier or a semaphore operation.
#[derive(Clone, Copy, Debug, PartialEq, Eq, Structural)]
pub enum PipelineStage {
    NoStage,
    ColorAttachmentOutput,
    AllCommands,
}

/// A memory-access scope of a barrier.
#[derive(Clone, Copy, Debug, PartialEq, Eq, Structural)]
pub enum AccessScope {
    NoAccess,
    ColorAttachmentReadWrite,
    ColorAttachmentWrite,
}

/// An image-layout transition for the embedding application to record.
#[derive(Clone, Copy, Debug, PartialEq, Eq, Structural)]
pub struct ImageBarrier {
    pub image: u64,
    pub old_layout: ImageLayout,
    pub new_layout: ImageLayout,
    pub src_stage: PipelineStage,
    pub src_access: AccessScope,
    pub dst_stage: PipelineStage,
    pub dst_access: AccessScope,
}

/// The barrier recorded right after acquiring: the image moves from
/// "contents don't matter" to color-attachment-writable, with both scopes
/// narrowed to the color-attachment-output stage so no earlier pipeline
/// stage of the frame ever stalls waiting for image availability.
pub fn acquire_barrier(frame: &Frame) -> (barrier: ImageBarrier)
    ensures
        barrier == (ImageBarrier {
            image: frame.swapchain_image.vk_image,
            old_layout: ImageLayout::Undefined,
            new_layout: ImageLayout::AttachmentOptimal,
            src_stage: PipelineStage::ColorAttachmentOutput,
            src_access: AccessScope::NoAccess,
            dst_stage: PipelineStage::ColorAttachmentOutput,
            dst_access: AccessScope::ColorAttachmentReadWrite,
        }),
{
    ImageBarrier {
        image: frame.swapchain_image.vk_image,
        old_layout: ImageLayout::Undefined,
        new_layout: ImageLayout::AttachmentOptimal,
        src_stage: PipelineStage::ColorAttachmentOutput,
        src_access: AccessScope::NoAccess,
        dst_stage: PipelineStage::ColorAttachmentOutput,
        dst_access: AccessScope::ColorAttachmentReadWrite,
    }
}

/// The highest timeline value any frame slot has submitted, zero when
/// nothing was ever submitted.  Teardown tags shared objects with it.
pub open spec fn latest_submit_value(syncs: Seq<FrameSync>) -> u64
    decreases syncs.len(),
{
    if syncs.len() == 0 {
        0
    } else {
        let rest = latest_submit_value(syncs.drop_last());
        if syncs.last().prev_submit_timeline_value > rest {
            syncs.last().prev_submit_timeline_value
        } else {
            rest
        }
    }
}

/// The latest submit value bounds every slot's own value, and is itself a
/// slot's value unless nothing was submitted.
pub proof fn lemma_latest_submit_value_bounds(syncs: Seq<FrameSync>)
    ensures
        forall|k: int|
            0 <= k < syncs.len() ==> (#[trigger] syncs[k]).prev_submit_timeline_value
                <= latest_submit_value(syncs),
        latest_submit_value(syncs) == 0 || exists|k: int|
            0 <= k < syncs.len() && (#[trigger] syncs[k]).prev_submit_timeline_value
                == latest_submit_value(syncs),
    decreases syncs.len(),
{
    if syncs.len() > 0 {
        lemma_latest_submit_value_bounds(syncs.drop_last());
        assert forall|k: int|
            0 <= k < syncs.len() implies (#[trigger] syncs[k]).prev_submit_timeline_value
            <= latest_submit_value(syncs) by {
            if k < syncs.len() - 1 {
                assert(syncs.drop_last()[k] == syncs[k]);
            }
        }
        if latest_submit_value(syncs) != 0 {
            if syncs.last().prev_submit_timeline_value == latest_submit_value(syncs) {
                assert(syncs[syncs.len() - 1].prev_submit_timeline_value == latest_submit_value(
                    syncs,
                ));
            } else {
                let k = choose|k: int|
                    0 <= k < syncs.drop_last().len() && (#[trigger] syncs.drop_last()[k]).prev_submit_timeline_value
                        == latest_submit_value(syncs.drop_last());
                assert(syncs[k].prev_submit_timeline_value == latest_submit_value(syncs));
            }
        }
    }
}

/// A surface bound to a window, its current swapchain, the ring of frame
/// slots, and one command buffer per slot.  The slot ring is indexed
/// independently of the image index the platform returns from an acquire.
pub struct PresentableSurface {
    pub vk_surface: u64,
    pub swapchain: Swapchain,
    pub frame_syncs: Vec<FrameSync>,
    pub next_sync_index: usize,
    pub vk_cmd_buffers: Vec<u64>,
    pub swapchain_extent: Extent2D,
    pub swapchain_format: Format,
    pub swapchain_present_mode: PresentMode,
    pub num_swapchain_images: u32,
}

/// What the embedding application must create natively to satisfy a
/// swapchain rebuild: a new swapchain chained from the old one, with the
/// recorded format, its paired view format (under the mutable-format
/// capability when the pair differs), present mode and image count.
#[derive(Clone, Copy, Debug, PartialEq, Eq, Structural)]
pub struct SwapchainPlan {
    pub extent: Extent2D,
    pub format: Format,
    pub view_format: Format,
    pub mutable_format: bool,
    pub present_mode: PresentMode,
    pub min_image_count: u32,
    pub old_swapchain: u64,
}

/// The outcome of a resize decision.
#[derive(Clone, Copy, Debug, PartialEq, Eq, Structural)]
pub enum ResizeAction {
    /// The extent is unchanged: nothing to do, nothing enqueued.
    Unchanged,
    /// The target extent cannot be presented at; the surface is degraded
    /// and frames are skipped until a further resize succeeds.
    Degraded,
    /// A new swapchain must be created from the plan and then installed.
    Recreate(SwapchainPlan),
}

impl PresentableSurface {
    /// The slot ring is non-empty, carries one command buffer per slot, the
    /// cursor stays on the ring, and the swapchain pairs one view with each
    /// image.
    pub open spec fn wf(self) -> bool {
        &&& self.frame_syncs@.len() > 0
        &&& self.vk_cmd_buffers@.len() == self.frame_syncs@.len()
        &&& self.next_sync_index < self.frame_syncs@.len()
        &&& self.swapchain.wf()
    }

    /// Assembles the surface from its natively created parts: the surface
    /// handle, the chosen configuration, the initial swapchain, one command
    /// buffer per slot and one (image-available, raster-finish) semaphore
    /// pair per slot.  No slot has submitted anything yet.
    pub fn new(
        vk_surface: u64,
        config: SurfaceConfig,
        swapchain: Swapchain,
        vk_cmd_buffers: Vec<u64>,
        semaphore_pairs: Vec<(u64, u64)>,
    ) -> (surface: PresentableSurface)
        requires
            swapchain.wf(),
            semaphore_pairs@.len() == vk_cmd_buffers@.len(),
            vk_cmd_buffers@.len() > 0,
        ensures
            surface.wf(),
            surface.vk_surface == vk_surface,
            surface.swapchain == swapchain,
            surface.next_sync_index == 0,
            surface.vk_cmd_buffers == vk_cmd_buffers,
            surface.swapchain_extent == config.extent,
            surface.swapchain_format == config.format,
            surface.swapchain_present_mode == config.present_mode,
            surface.num_swapchain_images == config.num_images,
            surface.frame_syncs@.len() == semaphore_pairs@.len(),
            forall|k: int|
                0 <= k < semaphore_pairs@.len() ==> surface.frame_syncs@[k] == (FrameSync {
                    image_available_semaphore: (#[trigger] semaphore_pairs@[k]).0,
                    raster_finish_semaphore: semaphore_pairs@[k].1,
                    prev_submit_timeline_value: 0,
                }),
    {
        let mut frame_syncs: Vec<FrameSync> = Vec::new();
        let mut index: usize = 0;
        while index < semaphore_pairs.len()
            invariant
                index <= semaphore_pairs@.len(),
                frame_syncs@.len() == index,
                forall|k: int|
                    0 <= k < index ==> frame_syncs@[k] == (FrameSync {
                        image_available_semaphore: (#[trigger] semaphore_pairs@[k]).0,
                        raster_finish_semaphore: semaphore_pairs@[k].1,
                        prev_submit_timeline_value: 0,
                    }),
            decreases semaphore_pairs@.len() - index,
        {
            let pair = semaphore_pairs[index];
            frame_syncs.push(
                FrameSync {
                    image_available_semaphore: pair.0,
                    raster_finish_semaphore: pair.1,
                    prev_submit_timeline_value: 0,
                },
            );
            index = index + 1;
        }
        PresentableSurface {
            vk_surface,
            swapchain,
            frame_syncs,
            next_sync_index: 0,
            vk_cmd_buffers,
            swapchain_extent: config.extent,
            swapchain_format: config.format,
            swapchain_present_mode: config.present_mode,
            num_swapchain_images: config.num_images,
        }
    }

    /// Decides what a resize to `new_size` requires.  Resizing to the
    /// current extent is a no-op: no new swapchain, nothing enqueued.  A
    /// zero or out-of-bounds target degrades the surface (the extent
    /// becomes zero and frames are skipped) rather than failing.  Otherwise
    /// the state is untouched and the returned plan names the swapchain to
    /// create; [`Self::install_swapchain`] completes the resize once the
    /// embedding application has created it.
    pub fn resize(&mut self, caps: &SurfaceCapabilities, new_size: Extent2D) -> (action:
        ResizeAction)
        requires
            old(self).wf(),
        ensures
            final(self).wf(),
            old(self).swapchain_extent == new_size ==> action == ResizeAction::Unchanged && *final(self)
                == *old(self),
            old(self).swapchain_extent != new_size && extent_unsupported(*caps, new_size)
                ==> action == ResizeAction::Degraded && *final(self) == (PresentableSurface {
                swapchain_extent: (Extent2D { width: 0, height: 0 }),
                ..*old(self)
            }),
            old(self).swapchain_extent != new_size && !extent_unsupported(*caps, new_size)
                ==> *final(self) == *old(self) && action == ResizeAction::Recreate(
                (SwapchainPlan {
                    extent: new_size,
                    format: old(self).swapchain_format,
                    view_format: srgb_pair(old(self).swapchain_format),
                    mutable_format: srgb_pair(old(self).swapchain_format)
                        != old(self).swapchain_format,
                    present_mode: old(self).swapchain_present_mode,
                    min_image_count: old(self).num_swapchain_images,
                    old_swapchain: old(self).swapchain.vk_swapchain,
                }),
            ),
    {
        if self.swapchain_extent == new_size {
            return ResizeAction::Unchanged;
        }

        if new_size.width < caps.min_image_extent.width || new_size.width
            > caps.max_image_extent.width || new_size.width == 0 || new_size.height
            < caps.min_image_extent.height || new_size.height > caps.max_image_extent.height
            || new_size.height == 0 {
            self.swapchain_extent = Extent2D { width: 0, height: 0 };
            return ResizeAction::Degraded;
        }

        let view_format = srgb_pair_of(self.swapchain_format);
        let mutable_format = needs_mutable_format(self.swapchain_format);
        ResizeAction::Recreate(
            SwapchainPlan {
                extent: new_size,
                format: self.swapchain_format,
                view_format,
                mutable_format,
                present_mode: self.swapchain_present_mode,
                min_image_count: self.num_swapchain_images,
                old_swapchain: self.swapchain.vk_swapchain,
            },
        )
    }

    /// Completes a resize: swaps in the natively created swapchain, records
    /// the new extent, and hands the superseded swapchain to the deletion
    /// queue tagged with the current timeline value — only work already
    /// submitted can reference its images.
    pub fn install_swapchain(
        &mut self,
        new_swapchain: Swapchain,
        new_size: Extent2D,
        deletion_queue: &mut DeletionQueue,
        core: &Core,
    )
        requires
            old(self).wf(),
            new_swapchain.wf(),
        ensures
            final(self).wf(),
            *final(self) == (PresentableSurface {
                swapchain: new_swapchain,
                swapchain_extent: new_size,
                ..*old(self)
            }),
            final(deletion_queue).pending_deletions@.len() == old(
                deletion_queue,
            ).pending_deletions@.len() + 1 + old(self).swapchain.vk_image_views@.len(),
            forall|k: int|
                0 <= k < old(deletion_queue).pending_deletions@.len() ==> final(deletion_queue).pending_deletions@[k] == old(deletion_queue).pending_deletions@[k],
            final(deletion_queue).pending_deletions@[old(deletion_queue).pending_deletions@.len() as int]
                == (PendingDeletion {
                timeline_value: core.timeline_value,
                resource: DeletableResource::Swapchain(old(self).swapchain.vk_swapchain),
            }),
            forall|k: int|
                0 <= k < old(self).swapchain.vk_image_views@.len() ==> final(deletion_queue).pending_deletions@[old(deletion_queue).pending_deletions@.len() + 1 + k]
                    == (PendingDeletion {
                    timeline_value: core.timeline_value,
                    resource: DeletableResource::ImageView(
                        #[trigger] old(self).swapchain.vk_image_views@[k],
                    ),
                }),
    {
        let mut superseded = new_swapchain;
        core::mem::swap(&mut self.swapchain, &mut superseded);
        superseded.queue_deletion(deletion_queue, core.current_timeline_value());
        self.swapchain_extent = new_size;
    }

    /// Begins a frame: picks the next slot in round-robin order and tells
    /// the embedding application what must happen natively before recording
    /// can start — wait (bounded by the timeout) until the slot's previous
    /// submission has completed, then acquire an image with the slot's
    /// acquire semaphore.  The wait is the primary backpressure mechanism:
    /// the host never runs more than one whole ring ahead of the GPU.  On a
    /// degraded surface this fails cleanly instead of blocking.
    pub fn start_frame(&mut self) -> (result: Result<FrameRequest, GfxError>)
        requires
            old(self).wf(),
        ensures
            final(self).wf(),
            degraded(old(self).swapchain_extent) <==> result is Err,
            result is Err ==> result == Err::<FrameRequest, GfxError>(GfxError::NoSwapchain)
                && *final(self) == *old(self),
            result matches Ok(request) ==> {
                &&& *final(self) == (PresentableSurface {
                    next_sync_index: final(self).next_sync_index,
                    ..*old(self)
                })
                &&& final(self).next_sync_index == (old(self).next_sync_index + 1) as int % (old(
                    self,
                ).frame_syncs@.len() as int)
                &&& request.sync_index == old(self).next_sync_index
                &&& request.vk_cmd_buffer == old(self).vk_cmd_buffers@[request.sync_index as int]
                &&& request.image_available_semaphore == old(self).frame_syncs@[request.sync_index as int].image_available_semaphore
                &&& request.wait_timeline_value == old(self).frame_syncs@[request.sync_index as int].prev_submit_timeline_value
                &&& request.timeout_ns == 1000000000u64
            },
    {
        if self.swapchain_extent.width == 0 || self.swapchain_extent.height == 0 {
            return Err(GfxError::NoSwapchain);
        }

        let timeout_ns: u64 = 1000 * 1000 * 1000;

        let ring_len = self.frame_syncs.len();
        let sync_index = self.next_sync_index;
        self.next_sync_index = (sync_index + 1) % ring_len;

        let frame_sync = self.frame_syncs[sync_index];
        let vk_cmd_buffer = self.vk_cmd_buffers[sync_index];

        Ok(
            FrameRequest {
                sync_index,
                vk_cmd_buffer,
                image_available_semaphore: frame_sync.image_available_semaphore,
                wait_timeline_value: frame_sync.prev_submit_timeline_value,
                timeout_ns,
            },
        )
    }

    /// Completes a begun frame once the native acquire has returned an image
    /// index: pairs the slot's command buffer with the acquired image and
    /// the current extent.  The embedding application then records the
    /// acquire barrier into the command buffer and renders.
    pub fn finish_start_frame(&self, request: &FrameRequest, image_index: u32) -> (frame: Frame)
        requires
            self.wf(),
            request.sync_index < self.frame_syncs@.len(),
            image_index < self.swapchain.vk_images@.len(),
        ensures
            frame.vk_cmd_buffer == request.vk_cmd_buffer,
            frame.sync_index == request.sync_index,
            frame.extent == self.swapchain_extent,
            frame.swapchain_image == (SwapchainImage {
                vk_image: self.swapchain.vk_images@[image_index as int],
                vk_image_view: self.swapchain.vk_image_views@[image_index as int],
                image_index,
            }),
    {
        let swapchain_image = SwapchainImage {
            vk_image: self.swapchain.vk_images[image_index as usize],
            vk_image_view: self.swapchain.vk_image_views[image_index as usize],
            image_index,
        };
        Frame {
            vk_cmd_buffer: request.vk_cmd_buffer,
            swapchain_image,
            sync_index: request.sync_index,
            extent: self.swapchain_extent,
        }
    }

    /// Ends a frame: obtains a fresh timeline value, records it as the
    /// slot's new last-submitted value, and describes exactly what the
    /// embedding application must do natively — record the present barrier,
    /// end the command buffer, submit waiting on the slot's acquire
    /// semaphore (color-attachment-output only) and signalling both the
    /// slot's render-done semaphore and the timeline semaphore at the new
    /// value (all commands), then present waiting on the render-done
    /// semaphore.
    pub fn submit_frame(&mut self, core: &mut Core, frame: Frame) -> (plan: SubmitPlan)
        requires
            old(self).wf(),
            frame.sync_index < old(self).frame_syncs@.len(),
            old(core).timeline_value < u64::MAX,
        ensures
            final(self).wf(),
            final(core).timeline_value == old(core).timeline_value + 1,
            *final(self) == (PresentableSurface {
                frame_syncs: final(self).frame_syncs,
                ..*old(self)
            }),
            final(self).frame_syncs@ == old(self).frame_syncs@.update(
                frame.sync_index as int,
                (FrameSync {
                    prev_submit_timeline_value: final(core).timeline_value,
                    ..old(self).frame_syncs@[frame.sync_index as int]
                }),
            ),
            plan == (SubmitPlan {
                barrier: (ImageBarrier {
                    image: frame.swapchain_image.vk_image,
                    old_layout: ImageLayout::AttachmentOptimal,
                    new_layout: ImageLayout::PresentSrc,
                    src_stage: PipelineStage::ColorAttachmentOutput,
                    src_access: AccessScope::ColorAttachmentWrite,
                    dst_stage: PipelineStage::NoStage,
                    dst_access: AccessScope::NoAccess,
                }),
                vk_cmd_buffer: frame.vk_cmd_buffer,
                wait_semaphore: old(self).frame_syncs@[frame.sync_index as int].image_available_semaphore,
                wait_stage: PipelineStage::ColorAttachmentOutput,
                signal_render_semaphore: old(self).frame_syncs@[frame.sync_index as int].raster_finish_semaphore,
                signal_render_stage: PipelineStage::ColorAttachmentOutput,
                signal_timeline_value: final(core).timeline_value,
                signal_timeline_stage: PipelineStage::AllCommands,
                present_wait_semaphore: old(self).frame_syncs@[frame.sync_index as int].raster_finish_semaphore,
                present_image_index: frame.swapchain_image.image_index,
            }),
    {
        let frame_sync = self.frame_syncs[frame.sync_index];
        let timeline_value = core.next_timeline_value();
        self.frame_syncs.set(
            frame.sync_index,
            FrameSync { prev_submit_timeline_value: timeline_value, ..frame_sync },
        );

        SubmitPlan {
            barrier: ImageBarrier {
                image: frame.swapchain_image.vk_image,
                old_layout: ImageLayout::AttachmentOptimal,
                new_layout: ImageLayout::PresentSrc,
                src_stage: PipelineStage::ColorAttachmentOutput,
                src_access: AccessScope::ColorAttachmentWrite,
                dst_stage: PipelineStage::NoStage,
                dst_access: AccessScope::NoAccess,
            },
            vk_cmd_buffer: frame.vk_cmd_buffer,
            wait_semaphore: frame_sync.image_available_semaphore,
            wait_stage: PipelineStage::ColorAttachmentOutput,
            signal_render_semaphore: frame_sync.raster_finish_semaphore,
            signal_render_stage: PipelineStage::ColorAttachmentOutput,
            signal_timeline_value: timeline_value,
            signal_timeline_stage: PipelineStage::AllCommands,
            present_wait_semaphore: frame_sync.raster_finish_semaphore,
            present_image_index: frame.swapchain_image.image_index,
        }
    }

    /// Tears the surface down: every slot's semaphores are enqueued at that
    /// slot's own last-submitted value, the swapchain and its views at the
    /// latest value any slot submitted, and the surface strictly one tick
    /// later — the platform requires the swapchain destroyed before its
    /// parent surface.
    pub fn queue_deletion(self, deletion_queue: &mut DeletionQueue)
        requires
            latest_submit_value(self.frame_syncs@) < u64::MAX,
        ensures
            final(deletion_queue).pending_deletions@.len() == old(
                deletion_queue,
            ).pending_deletions@.len() + 2 * self.frame_syncs@.len() + 1
                + self.swapchain.vk_image_views@.len() + 1,
            forall|k: int|
                0 <= k < old(deletion_queue).pending_deletions@.len() ==> final(deletion_queue).pending_deletions@[k] == old(deletion_queue).pending_deletions@[k],
            forall|i: int|
                0 <= i < self.frame_syncs@.len() ==> final(deletion_queue).pending_deletions@[old(
                    deletion_queue,
                ).pending_deletions@.len() + 2 * i] == (PendingDeletion {
                    timeline_value: (#[trigger] self.frame_syncs@[i]).prev_submit_timeline_value,
                    resource: DeletableResource::Semaphore(
                        self.frame_syncs@[i].image_available_semaphore,
                    ),
                }),
            forall|i: int|
                0 <= i < self.frame_syncs@.len() ==> final(deletion_queue).pending_deletions@[old(
                    deletion_queue,
                ).pending_deletions@.len() + 2 * i + 1] == (PendingDeletion {
                    timeline_value: (#[trigger] self.frame_syncs@[i]).prev_submit_timeline_value,
                    resource: DeletableResource::Semaphore(
                        self.frame_syncs@[i].raster_finish_semaphore,
                    ),
                }),
            final(deletion_queue).pending_deletions@[(old(deletion_queue).pending_deletions@.len()
                + 2 * self.frame_syncs@.len()) as int] == (PendingDeletion {
                timeline_value: latest_submit_value(self.frame_syncs@),
                resource: DeletableResource::Swapchain(self.swapchain.vk_swapchain),
            }),
            forall|k: int|
                0 <= k < self.swapchain.vk_image_views@.len() ==> final(deletion_queue).pending_deletions@[old(deletion_queue).pending_deletions@.len() + 2
                    * self.frame_syncs@.len() + 1 + k] == (PendingDeletion {
                    timeline_value: latest_submit_value(self.frame_syncs@),
                    resource: DeletableResource::ImageView(
                        #[trigger] self.swapchain.vk_image_views@[k],
                    ),
                }),
            final(deletion_queue).pending_deletions@[(old(deletion_queue).pending_deletions@.len()
                + 2 * self.frame_syncs@.len() + 1 + self.swapchain.vk_image_views@.len()) as int]
                == (PendingDeletion {
                timeline_value: (latest_submit_value(self.frame_syncs@) + 1) as u64,
                resource: DeletableResource::Surface(self.vk_surface),
            }),
    {
        let ghost base = deletion_queue.pending_deletions@;

        let mut latest_value: u64 = 0;
        let mut index: usize = 0;
        while index < self.frame_syncs.len()
            invariant
                index <= self.frame_syncs@.len(),
                latest_value == latest_submit_value(self.frame_syncs@.take(index as int)),
            decreases self.frame_syncs@.len() - index,
        {
            let frame_sync = self.frame_syncs[index];
            proof {
                assert(self.frame_syncs@.take(index + 1).drop_last() =~= self.frame_syncs@.take(
                    index as int,
                ));
                assert(self.frame_syncs@.take(index + 1).last() == self.frame_syncs@[index as int]);
            }
            if frame_sync.prev_submit_timeline_value > latest_value {
                latest_value = frame_sync.prev_submit_timeline_value;
            }
            index = index + 1;
        }
        proof {
            assert(self.frame_syncs@.take(self.frame_syncs@.len() as int) =~= self.frame_syncs@);
        }

        let mut index: usize = 0;
        while index < self.frame_syncs.len()
            invariant
                index <= self.frame_syncs@.len(),
                deletion_queue.pending_deletions@.len() == base.len() + 2 * index,
                forall|k: int| 0 <= k < base.len() ==> deletion_queue.pending_deletions@[k] == base[k],
                forall|i: int|
                    0 <= i < index ==> deletion_queue.pending_deletions@[base.len() + 2 * i]
                        == (PendingDeletion {
                        timeline_value: (#[trigger] self.frame_syncs@[i]).prev_submit_timeline_value,
                        resource: DeletableResource::Semaphore(
                            self.frame_syncs@[i].image_available_semaphore,
                        ),
                    }),
                forall|i: int|
                    0 <= i < index ==> deletion_queue.pending_deletions@[base.len() + 2 * i + 1]
                        == (PendingDeletion {
                        timeline_value: (#[trigger] self.frame_syncs@[i]).prev_submit_timeline_value,
                        resource: DeletableResource::Semaphore(
                            self.frame_syncs@[i].raster_finish_semaphore,
                        ),
                    }),
            decreases self.frame_syncs@.len() - index,
        {
            let frame_sync = self.frame_syncs[index];
            deletion_queue.queue_deletion_after(
                DeletableResource::Semaphore(frame_sync.image_available_semaphore),
                frame_sync.prev_submit_timeline_value,
            );
            deletion_queue.queue_deletion_after(
                DeletableResource::Semaphore(frame_sync.raster_finish_semaphore),
                frame_sync.prev_submit_timeline_value,
            );
            index = index + 1;
        }

        self.swapchain.queue_deletion(deletion_queue, latest_value);

        deletion_queue.queue_deletion_after(
            DeletableResource::Surface(self.vk_surface),
            latest_value + 1,
        );
    }
}

/// What must happen natively before a begun frame can record: wait for the
/// slot's previous submission to reach the timeline (bounded by the
/// timeout), then acquire an image with the slot's acquire semaphore (same
/// bound).
#[derive(Clone, Copy, Debug, PartialEq, Eq, Structural)]
pub struct FrameRequest {
    pub sync_index: usize,
    pub vk_cmd_buffer: u64,
    pub image_available_semaphore: u64,
    pub wait_timeline_value: u64,
    pub timeout_ns: u64,
}

/// The exact native submission a finished frame requires.
#[derive(Clone, Copy, Debug, PartialEq, Eq, Structural)]
pub struct SubmitPlan {
    pub barrier: ImageBarrier,
    pub vk_cmd_buffer: u64,
    pub wait_semaphore: u64,
    pub wait_stage: PipelineStage,
    pub signal_render_semaphore: u64,
    pub signal_render_stage: PipelineStage,
    pub signal_timeline_value: u64,
    pub signal_timeline_stage: PipelineStage,
    pub present_wait_semaphore: u64,
    pub present_image_index: u32,
}

/// Frame-slot backpressure: when every slot's last submission lies beyond
/// the driver's completed value — as after beginning a whole ring of frames
/// the GPU never finished — the slot that the next frame would use demands a
/// wait for a value that has not completed.  Its bounded wait must therefore
/// time out and surface an error; beginning frames never deadlocks silently
/// and never touches a slot early.
pub proof fn lemma_backpressure(surface: PresentableSurface, completed_value: u64)
    requires
        surface.wf(),
        forall|k: int|
            0 <= k < surface.frame_syncs@.len()
                ==> (#[trigger] surface.frame_syncs@[k]).prev_submit_timeline_value
                > completed_value,
    ensures
        surface.frame_syncs@[surface.next_sync_index as int].prev_submit_timeline_value
            > completed_value,
{
}

} // verus!
