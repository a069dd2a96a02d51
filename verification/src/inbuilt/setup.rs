//! The device/surface context: which configuration the presentation surface
//! has, how it follows the window's size, and how a failed frame acquisition
//! is to be answered.

use vstd::prelude::*;
use crate::utility::structs::Extent;

verus! {

/// The two kinds of host the shell runs on.
#[derive(Clone, Copy, Debug, PartialEq, Eq, Structural)]
pub enum PlatformProfile {
    /// A native desktop window.
    Desktop,
    /// A drawing surface inside a browser page.
    Browser,
}

/// Which kind of adapter is asked for where the machine has several.
#[derive(Clone, Copy, Debug, PartialEq, Eq, Structural)]
pub enum PowerPreference {
    /// No preference.
    Unspecified,
    /// The adapter that draws the least power.
    LowPower,
    /// The fastest adapter.
    HighPerformance,
}

/// Which graphics backends the instance is asked for.
#[derive(Clone, Copy, Debug, PartialEq, Eq, Structural)]
pub enum Backends {
    /// The first-class native backends.
    Primary,
    /// OpenGL / WebGL only.
    Gl,
}

/// The set of device limits that a request starts from.
#[derive(Clone, Copy, Debug, PartialEq, Eq, Structural)]
pub enum LimitsPreset {
    /// The limits every first-class backend supports.
    Default,
    /// The reduced limits of a WebGL2 device.
    DownlevelWebgl2,
}

/// Where the GUI's scale factor (pixels per point) comes from.
#[derive(Clone, Copy, Debug, PartialEq, Eq, Structural)]
pub enum ScaleSource {
    /// The window reports it.
    Window,
    /// The window's report is used where the host supplies one, and a
    /// factor of one otherwise.
    WindowOrUnit,
}

/// What a platform needs from instance, device and GUI, resolved once at
/// startup.
#[derive(Clone, Copy, Debug, PartialEq, Eq, Structural)]
pub struct PlatformCapabilities {
    pub backends: Backends,
    pub power_preference: PowerPreference,
    /// Whether the device is asked to allow every use of a texture format
    /// that the adapter supports beyond the guaranteed ones.
    pub adapter_specific_format_features: bool,
    pub limits: LimitsPreset,
    /// Replaces the preset's largest 2D texture dimension when present.
    pub max_texture_dimension_2d: Option<u32>,
    pub scale: ScaleSource,
}

impl PlatformProfile {
    pub open spec fn spec_capabilities(self) -> PlatformCapabilities {
        match self {
            PlatformProfile::Desktop => PlatformCapabilities {
                backends: Backends::Primary,
                power_preference: PowerPreference::HighPerformance,
                adapter_specific_format_features: true,
                limits: LimitsPreset::Default,
                max_texture_dimension_2d: None,
                scale: ScaleSource::Window,
            },
            PlatformProfile::Browser => PlatformCapabilities {
                backends: Backends::Gl,
                power_preference: PowerPreference::HighPerformance,
                adapter_specific_format_features: true,
                limits: LimitsPreset::DownlevelWebgl2,
                max_texture_dimension_2d: Some(8192u32),
                scale: ScaleSource::WindowOrUnit,
            },
        }
    }

    /// What this platform calls for. Both platforms ask for the fastest
    /// adapter and for adapter-specific format features; they differ in
    /// backends, limits and scale source.
    #[verifier::when_used_as_spec(spec_capabilities)]
    pub fn capabilities(self) -> (r: PlatformCapabilities)
        ensures
            r == self.spec_capabilities(),
    {
        match self {
            PlatformProfile::Desktop => PlatformCapabilities {
                backends: Backends::Primary,
                power_preference: PowerPreference::HighPerformance,
                adapter_specific_format_features: true,
                limits: LimitsPreset::Default,
                max_texture_dimension_2d: None,
                scale: ScaleSource::Window,
            },
            PlatformProfile::Browser => PlatformCapabilities {
                backends: Backends::Gl,
                power_preference: PowerPreference::HighPerformance,
                adapter_specific_format_features: true,
                limits: LimitsPreset::DownlevelWebgl2,
                max_texture_dimension_2d: Some(8192),
                scale: ScaleSource::WindowOrUnit,
            },
        }
    }
}

/// A pixel format of a surface or a texture.
#[derive(Clone, Copy, Debug, PartialEq, Eq, Structural)]
pub enum TextureFormat {
    Rgba8Unorm,
    Rgba8UnormSrgb,
    Bgra8Unorm,
    Bgra8UnormSrgb,
    Rgb10a2Unorm,
    Rgba16Float,
    /// A format the shell has no name for: the host's identifier of it, and
    /// whether it stores sRGB-encoded colour.
    Other { code: u32, srgb: bool },
}

impl TextureFormat {
    pub open spec fn spec_is_srgb(self) -> bool {
        match self {
            TextureFormat::Rgba8UnormSrgb | TextureFormat::Bgra8UnormSrgb => true,
            TextureFormat::Other { srgb, .. } => srgb,
            _ => false,
        }
    }

    /// Whether the format stores sRGB-encoded colour.
    #[verifier::when_used_as_spec(spec_is_srgb)]
    pub fn is_srgb(self) -> (r: bool)
        ensures
            r == self.spec_is_srgb(),
    {
        match self {
            TextureFormat::Rgba8UnormSrgb | TextureFormat::Bgra8UnormSrgb => true,
            TextureFormat::Other { srgb, .. } => srgb,
            _ => false,
        }
    }
}

/// When a finished frame reaches the screen.
#[derive(Clone, Copy, Debug, PartialEq, Eq, Structural)]
pub enum PresentMode {
    AutoVsync,
    AutoNoVsync,
    Fifo,
    FifoRelaxed,
    Immediate,
    Mailbox,
}

/// How the surface's alpha channel is composited with what lies behind the
/// window.
#[derive(Clone, Copy, Debug, PartialEq, Eq, Structural)]
pub enum CompositeAlphaMode {
    Auto,
    Opaque,
    PreMultiplied,
    PostMultiplied,
    Inherit,
}

/// What a surface supports on the chosen adapter, each list in the
/// adapter's order of preference.
pub struct SurfaceCapabilities {
    pub formats: Vec<TextureFormat>,
    pub present_modes: Vec<PresentMode>,
    pub alpha_modes: Vec<CompositeAlphaMode>,
}

/// The configuration of the presentation surface.
#[derive(Clone, Copy, Debug, PartialEq, Eq, Structural)]
pub struct SurfaceConfiguration {
    pub format: TextureFormat,
    pub width: u32,
    pub height: u32,
    pub present_mode: PresentMode,
    pub alpha_mode: CompositeAlphaMode,
    pub desired_maximum_frame_latency: u32,
}

/// Why no surface context could be built.
#[derive(Clone, Copy, Debug, PartialEq, Eq, Structural)]
pub enum SetupError {
    /// The surface supports no pixel format on this adapter.
    NoSurfaceFormat,
    /// The surface supports no present mode on this adapter.
    NoPresentMode,
    /// The surface supports no alpha mode on this adapter.
    NoAlphaMode,
}

impl SetupError {
    pub open spec fn spec_message(self) -> Seq<char> {
        match self {
            SetupError::NoSurfaceFormat => "the surface supports no pixel format on this adapter"@,
            SetupError::NoPresentMode => "the surface supports no present mode on this adapter"@,
            SetupError::NoAlphaMode => "the surface supports no alpha mode on this adapter"@,
        }
    }

    /// The failure in words, for the message that startup ends with.
    pub fn message(&self) -> (r: &'static str)
        ensures
            r@ == self.spec_message(),
    {
        match self {
            SetupError::NoSurfaceFormat => "the surface supports no pixel format on this adapter",
            SetupError::NoPresentMode => "the surface supports no present mode on this adapter",
            SetupError::NoAlphaMode => "the surface supports no alpha mode on this adapter",
        }
    }
}

/// Why no presentable frame image could be acquired.
#[derive(Clone, Copy, Debug, PartialEq, Eq, Structural)]
pub enum AcquireError {
    /// Acquiring the image took too long.
    Timeout,
    /// The surface no longer matches the window.
    Outdated,
    /// The surface was lost.
    Lost,
    /// The device has no memory left.
    OutOfMemory,
}

/// What the caller of a failed acquisition is to do.
#[derive(Clone, Copy, Debug, PartialEq, Eq, Structural)]
pub enum Recovery {
    /// Reconfigure the surface and try again with the next frame.
    Reconfigure,
    /// Drop this frame and try again with the next one.
    SkipFrame,
    /// Stop the run loop.
    Terminate,
}

impl AcquireError {
    pub open spec fn spec_recovery(self) -> Recovery {
        match self {
            AcquireError::Lost | AcquireError::Outdated => Recovery::Reconfigure,
            AcquireError::Timeout => Recovery::SkipFrame,
            AcquireError::OutOfMemory => Recovery::Terminate,
        }
    }

    /// A lost or outdated surface is recoverable, a timeout is transient,
    /// and running out of memory is fatal.
    #[verifier::when_used_as_spec(spec_recovery)]
    pub fn recovery(self) -> (r: Recovery)
        ensures
            r == self.spec_recovery(),
    {
        match self {
            AcquireError::Lost | AcquireError::Outdated => Recovery::Reconfigure,
            AcquireError::Timeout => Recovery::SkipFrame,
            AcquireError::OutOfMemory => Recovery::Terminate,
        }
    }
}

/// The first sRGB format of a list, if it has one.
pub open spec fn first_srgb(formats: Seq<TextureFormat>) -> Option<TextureFormat>
    decreases formats.len(),
{
    if formats.len() == 0 {
        None
    } else if formats[0].is_srgb() {
        Some(formats[0])
    } else {
        first_srgb(formats.drop_first())
    }
}

/// The format a surface is configured with: the first sRGB format that it
/// supports, and its first format of all where it supports no sRGB format.
pub open spec fn preferred_format(formats: Seq<TextureFormat>) -> TextureFormat
    recommends
        formats.len() > 0,
{
    match first_srgb(formats) {
        Some(f) => f,
        None => formats[0],
    }
}

/// `first_srgb` finds the sRGB format that no other sRGB format precedes,
/// and finds none exactly when the list holds none.
pub proof fn lemma_first_srgb(formats: Seq<TextureFormat>)
    ensures
        first_srgb(formats) is None <==> forall|i: int|
            0 <= i < formats.len() ==> !(#[trigger] formats[i]).is_srgb(),
        first_srgb(formats) is Some ==> exists|i: int|
            0 <= i < formats.len() && #[trigger] formats[i] == first_srgb(formats)->0
                && formats[i].is_srgb() && forall|j: int| 0 <= j < i ==> !(#[trigger] formats[j]).is_srgb(),
    decreases formats.len(),
{
    if formats.len() == 0 {
    } else if formats[0].is_srgb() {
        assert(formats[0] == first_srgb(formats)->0);
    } else {
        let rest = formats.drop_first();
        lemma_first_srgb(rest);
        assert forall|i: int| 0 <= i < rest.len() implies rest[i] == formats[i + 1] by {}
        if first_srgb(rest) is None {
            assert forall|i: int| 0 <= i < formats.len() implies !(#[trigger] formats[i]).is_srgb() by {
                if i > 0 {
                    assert(rest[i - 1] == formats[i]);
                }
            }
        } else {
            let k = choose|i: int|
                0 <= i < rest.len() && #[trigger] rest[i] == first_srgb(rest)->0 && rest[i].is_srgb()
                    && forall|j: int| 0 <= j < i ==> !(#[trigger] rest[j]).is_srgb();
            assert(formats[k + 1] == rest[k]);
            assert forall|j: int| 0 <= j < k + 1 implies !(#[trigger] formats[j]).is_srgb() by {
                if j > 0 {
                    assert(rest[j - 1] == formats[j]);
                }
            }
            assert(formats[k + 1].is_srgb());
        }
    }
}

/// The format to configure a surface with, or `None` where the surface
/// supports no format at all.
pub fn choose_format(formats: &Vec<TextureFormat>) -> (r: Option<TextureFormat>)
    ensures
        formats@.len() == 0 <==> r is None,
        formats@.len() > 0 ==> r == Some(preferred_format(formats@)),
{
    if formats.len() == 0 {
        return None;
    }
    let mut i: usize = 0;
    assert(formats@.skip(0) =~= formats@);
    while i < formats.len()
        invariant
            0 <= i <= formats@.len(),
            first_srgb(formats@) == first_srgb(formats@.skip(i as int)),
        decreases formats@.len() - i,
    {
        if formats[i].is_srgb() {
            assert(formats@.skip(i as int)[0] == formats@[i as int]);
            return Some(formats[i]);
        }
        assert(formats@.skip(i as int)[0] == formats@[i as int]);
        assert(formats@.skip(i as int).drop_first() =~= formats@.skip(i as int + 1));
        i = i + 1;
    }
    assert(formats@.skip(i as int).len() == 0);
    Some(formats[0])
}

/// The plain part of the device/surface context: the surface's current
/// configuration, the last known window size, and whether the surface has
/// been configured with that configuration.
#[derive(Clone, Copy, Debug, PartialEq, Eq, Structural)]
pub struct Setup {
    pub config: SurfaceConfiguration,
    pub size: Extent,
    pub profile: PlatformProfile,
    pub surface_configured: bool,
}

impl Setup {
    /// The configuration always has the last known window size, and a
    /// surface is only ever configured with a size that covers a pixel.
    pub open spec fn wf(self) -> bool {
        &&& self.config.width == self.size.width
        &&& self.config.height == self.size.height
        &&& self.surface_configured ==> !self.size.is_degenerate()
    }

    /// The context that `new` builds from a window size and non-empty
    /// capability lists.
    pub open spec fn initial(
        window_size: Extent,
        formats: Seq<TextureFormat>,
        present_modes: Seq<PresentMode>,
        alpha_modes: Seq<CompositeAlphaMode>,
        profile: PlatformProfile,
    ) -> Setup
        recommends
            formats.len() > 0,
            present_modes.len() > 0,
            alpha_modes.len() > 0,
    {
        Setup {
            config: SurfaceConfiguration {
                format: preferred_format(formats),
                width: window_size.width,
                height: window_size.height,
                present_mode: present_modes[0],
                alpha_mode: alpha_modes[0],
                desired_maximum_frame_latency: 2,
            },
            size: window_size,
            profile,
            surface_configured: !window_size.is_degenerate(),
        }
    }

    /// The context after a resize request. A degenerate request changes
    /// nothing; any other becomes the stored size and the configuration's
    /// size, and leaves the surface waiting to be configured again.
    pub open spec fn resized(self, new_size: Extent) -> Setup {
        if new_size.is_degenerate() {
            self
        } else {
            Setup {
                config: SurfaceConfiguration {
                    width: new_size.width,
                    height: new_size.height,
                    ..self.config
                },
                size: new_size,
                surface_configured: false,
                ..self
            }
        }
    }

    /// The context after the surface has been configured with the stored
    /// configuration, which can be done only for a size that covers a pixel.
    pub open spec fn reconfigured(self) -> Setup {
        Setup { surface_configured: !self.size.is_degenerate(), ..self }
    }

    /// What `new` returns for a window size and capability lists: an error
    /// for the first list that is empty, and the initial context otherwise.
    pub open spec fn built(
        window_size: Extent,
        formats: Seq<TextureFormat>,
        present_modes: Seq<PresentMode>,
        alpha_modes: Seq<CompositeAlphaMode>,
        profile: PlatformProfile,
    ) -> Result<Setup, SetupError> {
        if formats.len() == 0 {
            Err(SetupError::NoSurfaceFormat)
        } else if present_modes.len() == 0 {
            Err(SetupError::NoPresentMode)
        } else if alpha_modes.len() == 0 {
            Err(SetupError::NoAlphaMode)
        } else {
            Ok(Setup::initial(window_size, formats, present_modes, alpha_modes, profile))
        }
    }

    /// Derives the surface configuration from the window's size and from
    /// what the surface supports: the preferred format, and the first
    /// present mode and alpha mode. The caller configures the surface with
    /// it before the first frame, unless the size is degenerate. A surface
    /// that supports no format, no present mode or no alpha mode cannot be
    /// set up.
    pub fn new(window_size: Extent, caps: &SurfaceCapabilities, profile: PlatformProfile) -> (r:
        Result<Setup, SetupError>)
        ensures
            r == Setup::built(
                window_size,
                caps.formats@,
                caps.present_modes@,
                caps.alpha_modes@,
                profile,
            ),
            r is Ok ==> r->Ok_0.wf(),
    {
        let format = match choose_format(&caps.formats) {
            Some(f) => f,
            None => { return Err(SetupError::NoSurfaceFormat); },
        };
        if caps.present_modes.len() == 0 {
            return Err(SetupError::NoPresentMode);
        }
        if caps.alpha_modes.len() == 0 {
            return Err(SetupError::NoAlphaMode);
        }
        Ok(
            Setup {
                config: SurfaceConfiguration {
                    format,
                    width: window_size.width,
                    height: window_size.height,
                    present_mode: caps.present_modes[0],
                    alpha_mode: caps.alpha_modes[0],
                    desired_maximum_frame_latency: 2,
                },
                size: window_size,
                profile,
                surface_configured: !window_size.is_empty(),
            },
        )
    }

    /// Takes over a new window size. Returns whether the surface has to be
    /// configured again, which is the case for every size that covers a
    /// pixel; a degenerate size is ignored.
    pub fn resize(&mut self, new_size: Extent) -> (reconfigure: bool)
        ensures
            *final(self) == old(self).resized(new_size),
            reconfigure == !new_size.is_degenerate(),
            old(self).wf() ==> final(self).wf(),
    {
        if new_size.width > 0 && new_size.height > 0 {
            self.size = new_size;
            self.config.width = new_size.width;
            self.config.height = new_size.height;
            self.surface_configured = false;
            true
        } else {
            false
        }
    }

    /// Records that the surface has been configured with the stored
    /// configuration.
    pub fn surface_reconfigured(&mut self)
        ensures
            *final(self) == old(self).reconfigured(),
            old(self).wf() ==> final(self).wf(),
    {
        self.surface_configured = !self.size.is_empty();
    }
}

} // verus!
