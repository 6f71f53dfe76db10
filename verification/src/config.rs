//! The surface configuration: which pixel format is negotiated, and how the
//! stored size reacts to window resizes.

use vstd::prelude::*;

verus! {

/// What format negotiation reads of a pixel format: an identifier chosen by
/// the caller (its place in the surface's capability list serves well) and
/// whether the format is an sRGB one.
#[derive(Clone, Copy, PartialEq, Eq, Structural, Debug)]
pub struct FormatInfo {
    pub id: u32,
    pub srgb: bool,
}

/// Frame pacing of the surface. The program always configures `Fifo`
/// (vsync-style presentation).
#[derive(Clone, Copy, PartialEq, Eq, Structural, Debug)]
pub enum PresentMode {
    AutoVsync,
    AutoNoVsync,
    Fifo,
    FifoRelaxed,
    Immediate,
    Mailbox,
}

/// Alpha compositing mode of the surface. The program takes the first mode
/// the surface reports as supported.
#[derive(Clone, Copy, PartialEq, Eq, Structural, Debug)]
pub enum AlphaMode {
    Auto,
    Opaque,
    PreMultiplied,
    PostMultiplied,
    Inherit,
}

/// The mutable part of the graphics context: the configuration the surface
/// is (re)configured with. Width and height mirror the window's physical
/// pixel size and are only ever applied when both are nonzero.
#[derive(Clone, Copy, PartialEq, Eq, Structural, Debug)]
pub struct SurfaceConfig {
    pub format: FormatInfo,
    pub width: u32,
    pub height: u32,
    pub present_mode: PresentMode,
    pub alpha_mode: AlphaMode,
}

/// The first sRGB format of the list, if the list holds any.
pub open spec fn first_srgb(formats: Seq<FormatInfo>) -> Option<FormatInfo>
    decreases formats.len(),
{
    if formats.len() == 0 {
        None
    } else if formats[0].srgb {
        Some(formats[0])
    } else {
        first_srgb(formats.drop_first())
    }
}

/// The format the surface is configured with: the first sRGB entry of the
/// supported list, or the first entry altogether when none is sRGB.
pub open spec fn chosen_format(formats: Seq<FormatInfo>) -> FormatInfo
    recommends
        formats.len() > 0,
{
    match first_srgb(formats) {
        Some(format) => format,
        None => formats[0],
    }
}

/// Picks the format to configure the surface with, preferring sRGB.
pub fn choose_format(formats: &Vec<FormatInfo>) -> (chosen: FormatInfo)
    requires
        formats@.len() > 0,
    ensures
        chosen == chosen_format(formats@),
{
    proof {
        assert(formats@.skip(0) =~= formats@);
    }
    let mut i: usize = 0;
    while i < formats.len()
        invariant
            0 <= i <= formats@.len(),
            first_srgb(formats@) == first_srgb(formats@.skip(i as int)),
        decreases formats@.len() - i,
    {
        if formats[i].srgb {
            proof {
                assert(formats@.skip(i as int)[0] == formats@[i as int]);
            }
            return formats[i];
        }
        proof {
            assert(formats@.skip(i as int)[0] == formats@[i as int]);
            assert(formats@.skip(i as int).drop_first() =~= formats@.skip(i as int + 1));
        }
        i = i + 1;
    }
    formats[0]
}

impl SurfaceConfig {
    /// Both dimensions nonzero: what the surface demands of a configuration
    /// before it can be applied.
    pub open spec fn well_formed(self) -> bool {
        self.width > 0 && self.height > 0
    }

    /// What a resize does to the configuration: a new size with both
    /// dimensions nonzero is stored; a size with a zero dimension on either
    /// axis is rejected wholesale and changes nothing.
    pub open spec fn resize_spec(self, width: u32, height: u32) -> SurfaceConfig {
        if width > 0 && height > 0 {
            SurfaceConfig { width, height, ..self }
        } else {
            self
        }
    }

    /// Builds the configuration applied at startup: the chosen format, the
    /// window's physical size, vsync-style pacing, and the first supported
    /// alpha mode.
    pub fn new(
        formats: &Vec<FormatInfo>,
        alpha_modes: &Vec<AlphaMode>,
        width: u32,
        height: u32,
    ) -> (config: SurfaceConfig)
        requires
            formats@.len() > 0,
            alpha_modes@.len() > 0,
            width > 0,
            height > 0,
        ensures
            config.format == chosen_format(formats@),
            config.width == width,
            config.height == height,
            config.present_mode == PresentMode::Fifo,
            config.alpha_mode == alpha_modes@[0],
            config.well_formed(),
    {
        let format = choose_format(formats);
        SurfaceConfig {
            format,
            width,
            height,
            present_mode: PresentMode::Fifo,
            alpha_mode: alpha_modes[0],
        }
    }

    /// Stores a new window size, telling the caller whether the surface must
    /// be reconfigured. A zero dimension on either axis leaves the
    /// configuration untouched and asks for nothing.
    pub fn resize(&mut self, width: u32, height: u32) -> (applied: bool)
        ensures
            *final(self) == old(self).resize_spec(width, height),
            applied == (width > 0 && height > 0),
    {
        if width > 0 && height > 0 {
            self.width = width;
            self.height = height;
            true
        } else {
            false
        }
    }
}

/// For every nonzero target size, a resize stores exactly that size, keeps
/// format, pacing and alpha mode, and leaves the configuration well formed —
/// fit to be applied to the surface, so a following render cannot fail for
/// want of a valid configuration.
pub proof fn lemma_resize_nonzero_applies(config: SurfaceConfig, width: u32, height: u32)
    requires
        width > 0,
        height > 0,
    ensures
        config.resize_spec(width, height).width == width,
        config.resize_spec(width, height).height == height,
        config.resize_spec(width, height).format == config.format,
        config.resize_spec(width, height).present_mode == config.present_mode,
        config.resize_spec(width, height).alpha_mode == config.alpha_mode,
        config.resize_spec(width, height).well_formed(),
{
}

/// A resize carrying a zero dimension on either axis is a no-op: the
/// configuration afterwards equals the configuration before, whatever it
/// held.
pub proof fn lemma_resize_zero_noop(config: SurfaceConfig, width: u32, height: u32)
    requires
        width == 0 || height == 0,
    ensures
        config.resize_spec(width, height) == config,
{
}

} // verus!
