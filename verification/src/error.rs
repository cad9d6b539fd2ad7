//! Error taxonomy of the subsystem.
//!
//! Setup failures (no usable memory class, no usable present mode or format)
//! are fatal to construction; per-frame conditions (a degraded surface) are
//! reported to the caller, who skips the frame or rebuilds the swapchain.

use vstd::prelude::*;

verus! {

/// Everything that the verified core can report without help from the
/// driver.  Native-call failures (device lost, out-of-date surface) never
/// reach this type: they stay with the code that makes the native call.
#[derive(Clone, Copy, Debug, PartialEq, Eq, Structural)]
pub enum GfxError {
    /// No memory class is host-visible, host-coherent and usable for buffers.
    NoStagingMemoryType,
    /// No memory class is device-local and usable for buffers, sampled
    /// images and render targets at once.
    NoDeviceLocalMemoryType,
    /// An allocation request exceeds the heap budget recorded at selection
    /// time for the staging memory class.
    StagingHeapTooSmall,
    /// An allocation request exceeds the heap budget recorded at selection
    /// time for the device-local memory class.
    DeviceHeapTooSmall,
    /// The surface does not support the identity transform.
    IdentityTransformUnsupported,
    /// The platform reported no present mode at all.
    NoPresentMode,
    /// No reported surface format pairs an acceptable color format with the
    /// sRGB-nonlinear color space.
    NoSurfaceFormat,
    /// The surface is degraded (zero or out-of-bounds extent); there is no
    /// swapchain to render into and the frame should be skipped.
    NoSwapchain,
}

impl GfxError {
    /// A short human-readable description, for the embedding application's
    /// logging.
    pub fn describe(&self) -> &'static str {
        match self {
            GfxError::NoStagingMemoryType => "no compatible staging memory type",
            GfxError::NoDeviceLocalMemoryType => "no compatible device local memory type",
            GfxError::StagingHeapTooSmall => "staging memory heap not big enough",
            GfxError::DeviceHeapTooSmall => "device local memory heap not big enough",
            GfxError::IdentityTransformUnsupported => {
                "can't present to surface - identity transform not supported"
            },
            GfxError::NoPresentMode => "no supported present mode",
            GfxError::NoSurfaceFormat => "no supported swapchain format",
            GfxError::NoSwapchain => "no swapchain",
        }
    }
}

} // verus!
