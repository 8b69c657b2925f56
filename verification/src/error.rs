//! Error taxonomy of the harness.

use vstd::prelude::*;

verus! {

/// What can go wrong around the render context and the frame loop.
///
/// The first three arise while the context or the surface is brought up;
/// they reflect unsupportable hardware or an unsupported surface and are
/// fatal, never retried. The last is the per-frame acquisition failure
/// that remains after the one permitted reconfigure-and-retry; the caller
/// skips that frame and carries on.
#[derive(Clone, Copy, PartialEq, Eq, Structural, Debug)]
pub enum RenderError {
    /// The surface capability list offers no sRGB-encoded pixel format.
    NoSrgbFormat,
    /// No compatible high-performance graphics adapter exists.
    NoAdapter,
    /// The adapter refused a logical device with default limits.
    NoDevice,
    /// Acquiring the next surface image failed again after the surface
    /// was reconfigured and the acquisition retried once.
    AcquireFailed,
}

impl RenderError {
    /// A short description, for logs.
    pub fn describe(&self) -> &'static str {
        match self {
            RenderError::NoSrgbFormat => "no srgb surface format",
            RenderError::NoAdapter => "no compatible adapter",
            RenderError::NoDevice => "no device",
            RenderError::AcquireFailed => "frame acquisition failed after retry",
        }
    }
}

} // verus!
