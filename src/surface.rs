//! The surface configuration: which format, present mode and alpha mode are
//! taken from what the surface offers, and how the configured size follows
//! the window.

use vstd::prelude::*;
use wgpu::{AstcBlock, AstcChannel, CompositeAlphaMode, PresentMode, TextureFormat};
use winit::dpi::PhysicalSize;

verus! {

#[verifier::external_type_specification]
#[verifier::reject_recursive_types(P)]
pub struct ExPhysicalSize<P>(PhysicalSize<P>);

#[verifier::external_type_specification]
pub struct ExAstcBlock(AstcBlock);

#[verifier::external_type_specification]
pub struct ExAstcChannel(AstcChannel);

#[verifier::external_type_specification]
pub struct ExTextureFormat(TextureFormat);

/// The sRGB-encoded texture formats.
pub open spec fn is_srgb_format(f: TextureFormat) -> bool {
    match f {
        TextureFormat::Rgba8UnormSrgb | TextureFormat::Bgra8UnormSrgb
        | TextureFormat::Bc1RgbaUnormSrgb | TextureFormat::Bc2RgbaUnormSrgb
        | TextureFormat::Bc3RgbaUnormSrgb | TextureFormat::Bc7RgbaUnormSrgb
        | TextureFormat::Etc2Rgb8UnormSrgb | TextureFormat::Etc2Rgb8A1UnormSrgb
        | TextureFormat::Etc2Rgba8UnormSrgb => true,
        TextureFormat::Astc { channel: AstcChannel::UnormSrgb, .. } => true,
        _ => false,
    }
}

/// Relies on wgpu::TextureFormat::is_srgb, which is true exactly of the
/// formats that `remove_srgb_suffix` changes: those listed in
/// `is_srgb_format`.
pub assume_specification[ TextureFormat::is_srgb ](f: &TextureFormat) -> (r: bool)
    ensures
        r == is_srgb_format(*f),
;

/// For each format, whether it is sRGB-encoded.
pub open spec fn srgb_flags(formats: Seq<TextureFormat>) -> Seq<bool> {
    formats.map_values(|f: TextureFormat| is_srgb_format(f))
}

/// The format chosen among those offered: the first sRGB-encoded one, else
/// the first one.
pub open spec fn chosen_format(formats: Seq<TextureFormat>) -> TextureFormat {
    formats[preferred_index(srgb_flags(formats))]
}

#[verifier::external_type_specification]
#[verifier::external_body]
pub struct ExPresentMode(PresentMode);

#[verifier::external_type_specification]
#[verifier::external_body]
pub struct ExCompositeAlphaMode(CompositeAlphaMode);

/// Why no configuration can be built from what the surface offers.
#[derive(Clone, Copy, Debug, PartialEq, Eq, Structural)]
pub enum ConfigError {
    /// The surface offers no texture format.
    NoFormat,
    /// The surface offers no present mode.
    NoPresentMode,
    /// The surface offers no alpha-compositing mode.
    NoAlphaMode,
}

/// The attributes the surface is configured with.
#[derive(Clone, Copy, Debug)]
pub struct SurfaceConfig {
    pub format: TextureFormat,
    pub present_mode: PresentMode,
    pub alpha_mode: CompositeAlphaMode,
    pub width: u32,
    pub height: u32,
}

/// The last accepted window size and the configuration derived from it.
#[derive(Clone, Copy, Debug)]
pub struct SurfaceState {
    pub size: PhysicalSize<u32>,
    pub config: SurfaceConfig,
}

/// The index of the first sRGB format if there is one, else 0.
pub open spec fn preferred_index(srgb: Seq<bool>) -> int {
    if exists|i: int| 0 <= i < srgb.len() && srgb[i] {
        choose|i: int| 0 <= i < srgb.len() && srgb[i] && forall|j: int| 0 <= j < i ==> !srgb[j]
    } else {
        0
    }
}

/// Picks among offered formats, given for each whether it is sRGB-encoded:
/// the first sRGB one, else the first one; `None` when none is offered.
pub fn preferred_format_index(srgb: &Vec<bool>) -> (r: Option<usize>)
    ensures
        srgb@.len() == 0 <==> r.is_none(),
        r.is_some() ==> r.unwrap() as int == preferred_index(srgb@),
{
    if srgb.len() == 0 {
        return None;
    }
    let mut i: usize = 0;
    while i < srgb.len()
        invariant
            i <= srgb@.len(),
            forall|j: int| 0 <= j < i ==> !srgb@[j],
        decreases srgb@.len() - i,
    {
        if srgb[i] {
            assert(0 <= i < srgb@.len() && srgb@[i as int] && forall|j: int|
                0 <= j < i ==> !srgb@[j]);
            return Some(i);
        }
        i = i + 1;
    }
    Some(0)
}

/// Chooses the surface format: the first sRGB-encoded format offered, else
/// the first offered; `None` when none is offered.
pub fn choose_format(formats: &Vec<TextureFormat>) -> (r: Option<TextureFormat>)
    ensures
        formats@.len() == 0 <==> r.is_none(),
        r.is_some() ==> r == Some(chosen_format(formats@)),
{
    let mut srgb: Vec<bool> = Vec::new();
    let mut i: usize = 0;
    while i < formats.len()
        invariant
            i <= formats@.len(),
            srgb@.len() == i,
            forall|j: int| 0 <= j < i ==> srgb@[j] == is_srgb_format(formats@[j]),
        decreases formats@.len() - i,
    {
        srgb.push(formats[i].is_srgb());
        i = i + 1;
    }
    assert(srgb@ =~= srgb_flags(formats@));
    match preferred_format_index(&srgb) {
        Some(k) => {
            proof {
                if exists|j: int| 0 <= j < srgb@.len() && srgb@[j] {
                    lemma_first_exists(srgb@);
                }
            }
            Some(formats[k])
        },
        None => None,
    }
}

/// A sequence with some true entry has a first one.
proof fn lemma_first_exists(s: Seq<bool>)
    requires
        exists|i: int| 0 <= i < s.len() && s[i],
    ensures
        exists|i: int| 0 <= i < s.len() && s[i] && forall|j: int| 0 <= j < i ==> !s[j],
    decreases s.len(),
{
    if s[0] {
        assert(0 <= 0 < s.len() && s[0] && forall|j: int| 0 <= j < 0 ==> !s[j]);
    } else {
        let t = s.subrange(1, s.len() as int);
        let i = choose|i: int| 0 <= i < s.len() && s[i];
        assert(0 <= i - 1 < t.len() && t[i - 1]);
        lemma_first_exists(t);
        let k = choose|k: int| 0 <= k < t.len() && t[k] && forall|j: int| 0 <= j < k ==> !t[j];
        assert(0 <= k + 1 < s.len() && s[k + 1] && forall|j: int| 0 <= j < k + 1 ==> !s[j]) by {
            assert forall|j: int| 0 <= j < k + 1 implies !s[j] by {
                if j > 0 {
                    assert(s[j] == t[j - 1]);
                }
            }
        }
    }
}

/// A size has zero area when either dimension is zero.
pub open spec fn is_zero_area(s: PhysicalSize<u32>) -> bool {
    s.width == 0 || s.height == 0
}

impl SurfaceState {
    /// The configured width and height are the stored size.
    pub open spec fn wf(&self) -> bool {
        self.config.width == self.size.width && self.config.height == self.size.height
    }

    /// Builds the configuration for a freshly created surface: the format
    /// chosen by `choose_format`, the first present mode and alpha mode
    /// offered, and the window's current size.
    pub fn new(
        formats: &Vec<TextureFormat>,
        present_modes: &Vec<PresentMode>,
        alpha_modes: &Vec<CompositeAlphaMode>,
        size: PhysicalSize<u32>,
    ) -> (r: Result<SurfaceState, ConfigError>)
        ensures
            r == Err::<SurfaceState, ConfigError>(ConfigError::NoFormat) <==> formats@.len() == 0,
            r == Err::<SurfaceState, ConfigError>(ConfigError::NoPresentMode) <==> (
            formats@.len() > 0 && present_modes@.len() == 0),
            r == Err::<SurfaceState, ConfigError>(ConfigError::NoAlphaMode) <==> (formats@.len()
                > 0 && present_modes@.len() > 0 && alpha_modes@.len() == 0),
            r.is_ok() <==> (formats@.len() > 0 && present_modes@.len() > 0 && alpha_modes@.len()
                > 0),
            r.is_ok() ==> {
                let st = r.unwrap();
                &&& st.wf()
                &&& st.size == size
                &&& st.config.width == size.width
                &&& st.config.height == size.height
                &&& st.config.present_mode == present_modes@[0]
                &&& st.config.alpha_mode == alpha_modes@[0]
                &&& st.config.format == chosen_format(formats@)
            },
    {
        let format = match choose_format(formats) {
            Some(f) => f,
            None => {
                return Err(ConfigError::NoFormat);
            },
        };
        if present_modes.len() == 0 {
            return Err(ConfigError::NoPresentMode);
        }
        if alpha_modes.len() == 0 {
            return Err(ConfigError::NoAlphaMode);
        }
        let config = SurfaceConfig {
            format,
            present_mode: present_modes[0],
            alpha_mode: alpha_modes[0],
            width: size.width,
            height: size.height,
        };
        Ok(SurfaceState { size, config })
    }

    /// Whether the stored size has non-zero area, so that the surface can be
    /// configured with it. A window not yet mapped reports a zero size; its
    /// surface is configured on the first non-zero resize instead.
    pub fn can_configure(&self) -> (r: bool)
        ensures
            r == !is_zero_area(self.size),
            self.wf() && r ==> self.config.width > 0 && self.config.height > 0,
    {
        self.size.width > 0 && self.size.height > 0
    }

    /// Follows a new window size. A size of zero area is ignored and nothing
    /// changes; any other size becomes the stored size and the configured
    /// width and height. Returns whether the surface must be reconfigured.
    pub fn resize(&mut self, new_size: PhysicalSize<u32>) -> (reconfigure: bool)
        ensures
            reconfigure == !is_zero_area(new_size),
            !is_zero_area(new_size) ==> {
                &&& final(self).size == new_size
                &&& final(self).config.width == new_size.width
                &&& final(self).config.height == new_size.height
                &&& final(self).config.format == old(self).config.format
                &&& final(self).config.present_mode == old(self).config.present_mode
                &&& final(self).config.alpha_mode == old(self).config.alpha_mode
            },
            is_zero_area(new_size) ==> *final(self) == *old(self),
            old(self).wf() ==> final(self).wf(),
    {
        if new_size.width > 0 && new_size.height > 0 {
            self.size = new_size;
            self.config.width = new_size.width;
            self.config.height = new_size.height;
            true
        } else {
            false
        }
    }
}

} // verus!
