//! The graphics context's own rules: how the surface configuration is chosen
//! from what the backend reports, and how it follows the window's size.
use vstd::prelude::*;

verus! {

/// A size in physical pixels.
#[derive(Clone, Copy, Debug, PartialEq, Eq, Structural)]
pub struct Viewport {
    pub width: u32,
    pub height: u32,
}

/// The surface configuration. `format`, `present_mode` and `alpha_mode` are
/// indices into the lists of formats, present modes and alpha modes that the
/// backend reported for the surface.
#[derive(Clone, Copy, Debug, PartialEq, Eq, Structural)]
pub struct SurfaceConfig {
    pub format: usize,
    pub width: u32,
    pub height: u32,
    pub present_mode: usize,
    pub alpha_mode: usize,
}

/// The state of the graphics context that the rules read and change: the
/// applied surface configuration and the last known size.
#[derive(Clone, Copy, Debug, PartialEq, Eq, Structural)]
pub struct GraphicsState {
    pub config: SurfaceConfig,
    pub size: Viewport,
}

/// wgpu's texture format, carried through as an opaque value.
#[verifier::external_type_specification]
#[verifier::external_body]
pub struct ExTextureFormat(wgpu::TextureFormat);

/// Whether a texture format converts colours to and from sRGB encoding.
pub uninterp spec fn srgb_of(format: wgpu::TextureFormat) -> bool;

/// Relies on wgpu's `TextureFormat::describe`, whose `srgb` field tells
/// whether the format has perceptual (sRGB) encoding; it depends on the
/// format alone.
#[verifier::external_body]
fn format_is_srgb(format: &wgpu::TextureFormat) -> (r: bool)
    ensures
        r == srgb_of(*format),
{
    format.describe().srgb
}

/// The sRGB flag of each format, in order.
pub open spec fn srgb_flags(formats: Seq<wgpu::TextureFormat>) -> Seq<bool> {
    formats.map_values(|f: wgpu::TextureFormat| srgb_of(f))
}

/// The sRGB flag of each of `formats`, in order.
pub fn srgb_flags_of(formats: &Vec<wgpu::TextureFormat>) -> (r: Vec<bool>)
    ensures
        r@ == srgb_flags(formats@),
{
    let mut r: Vec<bool> = Vec::new();
    let mut i: usize = 0;
    while i < formats.len()
        invariant
            i <= formats@.len(),
            r@ == srgb_flags(formats@.take(i as int)),
        decreases formats@.len() - i,
    {
        let flag = format_is_srgb(&formats[i]);
        proof {
            assert(srgb_flags(formats@.take(i as int + 1)) =~= srgb_flags(formats@.take(i as int)).push(flag));
        }
        r.push(flag);
        i = i + 1;
    }
    proof {
        assert(formats@.take(i as int) =~= formats@);
    }
    r
}

/// `i` is the index of the format to use among formats whose sRGB flags are
/// `srgb`: the first sRGB one, or else the first one.
pub open spec fn is_chosen_format(srgb: Seq<bool>, i: int) -> bool {
    &&& 0 <= i < srgb.len()
    &&& if exists|j: int| 0 <= j < srgb.len() && #[trigger] srgb[j] {
        srgb[i] && forall|j: int| 0 <= j < i ==> !#[trigger] srgb[j]
    } else {
        i == 0
    }
}

/// Picks a surface format from the backend's list, given as each format's
/// sRGB flag: the first with perceptual encoding, else the first reported.
/// `None` when the list is empty.
pub fn choose_format(srgb: &Vec<bool>) -> (r: Option<usize>)
    ensures
        r is None <==> srgb@.len() == 0,
        r matches Some(i) ==> is_chosen_format(srgb@, i as int),
{
    let mut i: usize = 0;
    while i < srgb.len()
        invariant
            i <= srgb@.len(),
            forall|j: int| 0 <= j < i ==> !#[trigger] srgb@[j],
        decreases srgb@.len() - i,
    {
        if srgb[i] {
            return Some(i);
        }
        i = i + 1;
    }
    if srgb.len() == 0 {
        None
    } else {
        Some(0)
    }
}

impl SurfaceConfig {
    /// The configuration first applied to a surface of size `width` x
    /// `height`, given the formats that the backend reported and how many
    /// present modes and alpha modes it reported: the chosen format, and the
    /// first present mode and alpha mode. `None` when the backend reported no
    /// format, present mode or alpha mode.
    pub fn negotiate(
        formats: &Vec<wgpu::TextureFormat>,
        n_present_modes: usize,
        n_alpha_modes: usize,
        width: u32,
        height: u32,
    ) -> (r: Option<SurfaceConfig>)
        ensures
            r is None <==> (formats@.len() == 0 || n_present_modes == 0 || n_alpha_modes == 0),
            r matches Some(c) ==> {
                &&& is_chosen_format(srgb_flags(formats@), c.format as int)
                &&& c.width == width
                &&& c.height == height
                &&& c.present_mode == 0
                &&& c.alpha_mode == 0
            },
    {
        if n_present_modes == 0 || n_alpha_modes == 0 {
            return None;
        }
        let srgb = srgb_flags_of(formats);
        match choose_format(&srgb) {
            None => None,
            Some(format) => Some(SurfaceConfig { format, width, height, present_mode: 0, alpha_mode: 0 }),
        }
    }
}

impl GraphicsState {
    /// The configured size and the last known size agree.
    pub open spec fn wf(&self) -> bool {
        self.config.width == self.size.width && self.config.height == self.size.height
    }

    /// The state after a resize to `width` x `height`: applied when both are
    /// positive, ignored otherwise.
    pub open spec fn resized(self, width: u32, height: u32) -> GraphicsState {
        if width > 0 && height > 0 {
            GraphicsState {
                config: SurfaceConfig { width, height, ..self.config },
                size: Viewport { width, height },
            }
        } else {
            self
        }
    }

    /// A context whose surface was configured with `config`.
    pub fn new(config: SurfaceConfig) -> (r: GraphicsState)
        ensures
            r.config == config,
            r.size == (Viewport { width: config.width, height: config.height }),
            r.wf(),
    {
        GraphicsState { config, size: Viewport { width: config.width, height: config.height } }
    }

    /// Follows a resize of the window to `width` x `height`. When both are
    /// positive the size and the configuration take them, and the viewport to
    /// apply to the surface and to the text subsystem is returned; otherwise
    /// nothing changes and `None` is returned.
    pub fn reconfigure(&mut self, width: u32, height: u32) -> (r: Option<Viewport>)
        ensures
            *final(self) == old(self).resized(width, height),
            r is Some <==> (width > 0 && height > 0),
            r matches Some(v) ==> v == (Viewport { width, height }),
            old(self).wf() ==> final(self).wf(),
    {
        if width > 0 && height > 0 {
            self.size = Viewport { width, height };
            self.config.width = width;
            self.config.height = height;
            Some(Viewport { width, height })
        } else {
            None
        }
    }
}

} // verus!
