//! Presentation-surface configuration.
//!
//! The surface itself belongs to the window system and the GPU; this
//! module carries its configuration as plain values and keeps the
//! invariants the underlying API demands: the configured extent always
//! equals the last known client-area size, the depth attachment extent is
//! recreated with every resize so that it can never diverge from the color
//! target, and a configuration is (re)applied — not merely stored — after
//! every change. Applying a configuration is the caller's side of the
//! bargain: the mutating entry points return the configuration to apply,
//! or nothing while either dimension is zero, when the surface cannot be
//! configured and the frame is skipped instead.

use vstd::prelude::*;

verus! {

use crate::error::RenderError;

/// The pixel formats a surface capability list may offer.
#[derive(Clone, Copy, PartialEq, Eq, Structural, Debug)]
pub enum TextureFormat {
    Bgra8Unorm,
    Bgra8UnormSrgb,
    Rgba8Unorm,
    Rgba8UnormSrgb,
}

impl TextureFormat {
    /// Whether the format stores its channels sRGB-encoded.
    pub open spec fn spec_is_srgb(self) -> bool {
        self == TextureFormat::Bgra8UnormSrgb || self == TextureFormat::Rgba8UnormSrgb
    }

    /// Whether the format stores its channels sRGB-encoded.
    pub fn is_srgb(&self) -> (r: bool)
        ensures
            r == self.spec_is_srgb(),
    {
        matches!(self, TextureFormat::Bgra8UnormSrgb | TextureFormat::Rgba8UnormSrgb)
    }
}

/// How presented images are paced against the display.
#[derive(Clone, Copy, PartialEq, Eq, Structural, Debug)]
pub enum PresentMode {
    /// Block until the display consumes the previous image: no tearing,
    /// bounded latency, and the natural frame-rate governor of the loop.
    Fifo,
    /// Present immediately, tearing allowed.
    Immediate,
}

/// How the surface's alpha channel is composited with what is behind the
/// window.
#[derive(Clone, Copy, PartialEq, Eq, Structural, Debug)]
pub enum AlphaMode {
    /// Alpha is ignored; the window is fully opaque.
    Opaque,
    /// The platform picks its preferred mode.
    Auto,
}

/// Physical size of the window client area, in pixels.
#[derive(Clone, Copy, PartialEq, Eq, Structural, Debug)]
pub struct SurfaceDims {
    pub width: u32,
    pub height: u32,
}

/// One surface configuration, as handed to the GPU when it is applied.
#[derive(Clone, Copy, PartialEq, Eq, Structural, Debug)]
pub struct SurfaceConfig {
    /// The surface textures may be used as render-pass color attachments.
    pub render_attachment: bool,
    pub format: TextureFormat,
    pub width: u32,
    pub height: u32,
    pub present_mode: PresentMode,
    pub alpha_mode: AlphaMode,
}

/// The first sRGB-encoded format of a capability list, if there is one.
pub open spec fn spec_first_srgb(formats: Seq<TextureFormat>) -> Option<TextureFormat>
    decreases formats.len(),
{
    if formats.len() == 0 {
        None
    } else if formats[0].spec_is_srgb() {
        Some(formats[0])
    } else {
        spec_first_srgb(formats.drop_first())
    }
}

/// What [`spec_first_srgb`] finds: the sRGB-encoded entry with the lowest
/// index when one exists, and nothing exactly when no entry is
/// sRGB-encoded.
pub proof fn lemma_first_srgb_characterization(s: Seq<TextureFormat>)
    ensures
        match spec_first_srgb(s) {
            Some(f) => f.spec_is_srgb() && exists|i: int|
                0 <= i < s.len() && s[i] == f && forall|j: int| 0 <= j < i ==> !s[j].spec_is_srgb(),
            None => forall|i: int| 0 <= i < s.len() ==> !s[i].spec_is_srgb(),
        },
    decreases s.len(),
{
    if s.len() == 0 {
    } else if s[0].spec_is_srgb() {
        let f = s[0];
        assert(0 <= 0 < s.len() && s[0] == f && forall|j: int| 0 <= j < 0 ==> !s[j].spec_is_srgb());
    } else {
        lemma_first_srgb_characterization(s.drop_first());
        match spec_first_srgb(s.drop_first()) {
            Some(f) => {
                let i = choose|i: int|
                    0 <= i < s.drop_first().len() && s.drop_first()[i] == f && forall|j: int|
                        0 <= j < i ==> !s.drop_first()[j].spec_is_srgb();
                assert(s[i + 1] == f);
                assert(forall|j: int| 0 <= j < i + 1 ==> !s[j].spec_is_srgb()) by {
                    assert(forall|j: int|
                        1 <= j < i + 1 ==> s[j] == s.drop_first()[j - 1]
                            && !s.drop_first()[j - 1].spec_is_srgb());
                }
                assert(0 <= i + 1 < s.len() && s[i + 1] == f && forall|j: int|
                    0 <= j < i + 1 ==> !s[j].spec_is_srgb());
            },
            None => {
                assert(forall|i: int|
                    1 <= i < s.len() ==> s[i] == s.drop_first()[i - 1]
                        && !s.drop_first()[i - 1].spec_is_srgb());
            },
        }
    }
}

/// Scan a capability list for its first sRGB-encoded format.
pub fn pick_srgb_format(formats: &Vec<TextureFormat>) -> (r: Option<TextureFormat>)
    ensures
        r == spec_first_srgb(formats@),
{
    let mut i: usize = 0;
    proof {
        assert(formats@.skip(0) =~= formats@);
    }
    while i < formats.len()
        invariant
            0 <= i <= formats@.len(),
            spec_first_srgb(formats@) == spec_first_srgb(formats@.skip(i as int)),
        decreases formats@.len() - i,
    {
        let f = formats[i];
        if f.is_srgb() {
            proof {
                assert(formats@.skip(i as int)[0] == formats@[i as int]);
            }
            return Some(f);
        }
        proof {
            assert(formats@.skip(i as int).drop_first() =~= formats@.skip(i as int + 1));
        }
        i = i + 1;
    }
    proof {
        assert(formats@.skip(formats@.len() as int).len() == 0);
    }
    None
}

/// The modeled presentation surface: its applied configuration, the pixel
/// format chosen at creation, the last known client-area size, and the
/// extent of the depth attachment that accompanies the color target.
#[derive(Clone, Copy, PartialEq, Eq, Structural, Debug)]
pub struct OutputSurface {
    pub config: SurfaceConfig,
    pub format: TextureFormat,
    pub dims: SurfaceDims,
    pub depth_dims: SurfaceDims,
}

impl OutputSurface {
    /// The invariants resize and creation maintain: the configured extent
    /// equals the stored client-area size; the configuration carries the
    /// chosen sRGB format, render-attachment usage, blocking presentation
    /// and opaque compositing; and the depth extent equals the color
    /// extent, because the depth attachment is recreated with every
    /// resize, never resized independently.
    pub open spec fn wf(self) -> bool {
        &&& self.config.width == self.dims.width
        &&& self.config.height == self.dims.height
        &&& self.config.format == self.format
        &&& self.format.spec_is_srgb()
        &&& self.config.render_attachment
        &&& self.config.present_mode == PresentMode::Fifo
        &&& self.config.alpha_mode == AlphaMode::Opaque
        &&& self.depth_dims == self.dims
    }

    /// The state of a surface freshly configured with `format` at `dims`.
    pub open spec fn spec_new(format: TextureFormat, dims: SurfaceDims) -> OutputSurface {
        OutputSurface {
            config: SurfaceConfig {
                render_attachment: true,
                format,
                width: dims.width,
                height: dims.height,
                present_mode: PresentMode::Fifo,
                alpha_mode: AlphaMode::Opaque,
            },
            format,
            dims,
            depth_dims: dims,
        }
    }

    /// The state after a resize to `dims`: stored size, configured extent
    /// and depth extent all move together; everything else is kept.
    pub open spec fn spec_resize(self, dims: SurfaceDims) -> OutputSurface {
        OutputSurface {
            config: SurfaceConfig {
                render_attachment: self.config.render_attachment,
                format: self.config.format,
                width: dims.width,
                height: dims.height,
                present_mode: self.config.present_mode,
                alpha_mode: self.config.alpha_mode,
            },
            format: self.format,
            dims,
            depth_dims: dims,
        }
    }

    /// The configuration the caller must apply now, or nothing while
    /// either dimension is zero: a zero-sized surface cannot be
    /// configured, and frames are skipped until the next real size.
    pub open spec fn spec_configure_action(self) -> Option<SurfaceConfig> {
        if self.dims.width > 0 && self.dims.height > 0 {
            Some(self.config)
        } else {
            None
        }
    }

    /// Choose the first sRGB-encoded format the surface offers and build
    /// the configuration for the given client-area size. A list without
    /// any sRGB format is a fatal startup error, exactly then.
    pub fn from_window_surface(formats: &Vec<TextureFormat>, dims: SurfaceDims) -> (r: Result<
        OutputSurface,
        RenderError,
    >)
        ensures
            match r {
                Ok(s) => {
                    &&& spec_first_srgb(formats@) == Some(s.format)
                    &&& s == OutputSurface::spec_new(s.format, dims)
                    &&& s.wf()
                },
                Err(e) => {
                    &&& e == RenderError::NoSrgbFormat
                    &&& spec_first_srgb(formats@) is None
                    &&& forall|i: int| 0 <= i < formats@.len() ==> !formats@[i].spec_is_srgb()
                },
            },
    {
        proof {
            lemma_first_srgb_characterization(formats@);
        }
        match pick_srgb_format(formats) {
            Some(format) => Ok(
                OutputSurface {
                    config: SurfaceConfig {
                        render_attachment: true,
                        format,
                        width: dims.width,
                        height: dims.height,
                        present_mode: PresentMode::Fifo,
                        alpha_mode: AlphaMode::Opaque,
                    },
                    format,
                    dims,
                    depth_dims: dims,
                },
            ),
            None => Err(RenderError::NoSrgbFormat),
        }
    }

    /// Record a new client-area size: the stored size, the configured
    /// extent and the depth extent move together, and the configuration to
    /// apply is handed back so the surface is reconfigured — not merely
    /// mutated — before the next frame.
    pub fn resize(&mut self, dims: SurfaceDims) -> (action: Option<SurfaceConfig>)
        requires
            old(self).wf(),
        ensures
            *final(self) == old(self).spec_resize(dims),
            final(self).wf(),
            final(self).config.width == dims.width,
            final(self).config.height == dims.height,
            action == final(self).spec_configure_action(),
    {
        self.dims = dims;
        self.depth_dims = dims;
        self.config.width = dims.width;
        self.config.height = dims.height;
        self.reconfigure()
    }

    /// The configuration to apply right now, unchanged: applying it again
    /// is safe and required after any change, and refused (nothing to
    /// apply) while either dimension is zero.
    pub fn reconfigure(&self) -> (action: Option<SurfaceConfig>)
        ensures
            action == self.spec_configure_action(),
    {
        if self.dims.width > 0 && self.dims.height > 0 {
            Some(self.config)
        } else {
            None
        }
    }

    /// Whether a frame can be produced at the current size: zero-sized
    /// surfaces give an empty, skipped frame rather than an acquisition.
    pub fn can_render(&self) -> (r: bool)
        ensures
            r == (self.dims.width > 0 && self.dims.height > 0),
    {
        self.dims.width > 0 && self.dims.height > 0
    }
}

/// Resizing twice to the same size lands in the same state as resizing
/// once: reconfiguration is idempotent, so repeated identical sizes are
/// harmless.
pub proof fn lemma_resize_idempotent(s: OutputSurface, dims: SurfaceDims)
    ensures
        s.spec_resize(dims).spec_resize(dims) == s.spec_resize(dims),
{
}

/// A resize followed by a resize to another size lands where the second
/// size alone would have: the last known client-area size wins.
pub proof fn lemma_resize_last_wins(s: OutputSurface, a: SurfaceDims, b: SurfaceDims)
    ensures
        s.spec_resize(a).spec_resize(b) == s.spec_resize(b),
{
}

} // verus!
