//! Choosing how the window's surface is configured, and tracking its size.
use vstd::prelude::*;
use wgpu::{CompositeAlphaMode, PresentMode, TextureFormat};

verus! {

/// wgpu's texture format, carried through without looking inside.
#[verifier::external_type_specification]
#[verifier::external_body]
pub struct ExTextureFormat(TextureFormat);

/// wgpu's present mode, carried through without looking inside.
#[verifier::external_type_specification]
#[verifier::external_body]
pub struct ExPresentMode(PresentMode);

/// wgpu's alpha compositing mode, carried through without looking inside.
#[verifier::external_type_specification]
#[verifier::external_body]
pub struct ExCompositeAlphaMode(CompositeAlphaMode);

/// Relies on wgpu's `TextureFormat::is_srgb` to tell sRGB formats apart; it
/// compares the format with its form without the sRGB suffix and never fails.
pub assume_specification[ TextureFormat::is_srgb ](f: &TextureFormat) -> bool;

/// Why the surface cannot be configured for the adapter.
#[derive(Clone, Copy, Debug, PartialEq, Eq, Structural)]
pub enum SurfaceError {
    /// The surface offers no texture format.
    NoFormat,
    /// The surface offers no present mode.
    NoPresentMode,
    /// The surface offers no alpha mode.
    NoAlphaMode,
}

impl SurfaceError {
    pub open spec fn text(self) -> Seq<char> {
        match self {
            SurfaceError::NoAlphaMode => "No supported alpha modes found"@,
            _ => "Surface is incompatible with the adapter"@,
        }
    }

    /// The error's message.
    pub fn message(&self) -> (r: String)
        ensures
            r@ == self.text(),
    {
        match self {
            SurfaceError::NoAlphaMode => "No supported alpha modes found".to_owned(),
            _ => "Surface is incompatible with the adapter".to_owned(),
        }
    }
}

/// The format to use among formats whose sRGB flags are `srgb`: the first
/// sRGB one, else the first one, else none.
pub open spec fn preferred_index(srgb: Seq<bool>) -> Option<int> {
    if exists|i: int| 0 <= i < srgb.len() && srgb[i] {
        Some(choose|i: int| 0 <= i < srgb.len() && srgb[i] && forall|j: int| 0 <= j < i ==> !srgb[j])
    } else if srgb.len() > 0 {
        Some(0)
    } else {
        None
    }
}

/// Index of the preferred format, given for each offered format whether it
/// is sRGB.
pub fn preferred_format_index(srgb: &Vec<bool>) -> (r: Option<usize>)
    ensures
        r matches Some(i) ==> preferred_index(srgb@) == Some(i as int),
        r is None ==> preferred_index(srgb@) is None,
        r is None <==> srgb@.len() == 0,
        r matches Some(i) ==> i < srgb@.len() && (srgb@[i as int] || forall|j: int|
            0 <= j < srgb@.len() ==> !srgb@[j]) && forall|j: int| 0 <= j < i ==> !srgb@[j],
{
    let mut i: usize = 0;
    while i < srgb.len()
        invariant
            0 <= i <= srgb.len(),
            forall|j: int| 0 <= j < i ==> !srgb@[j],
        decreases srgb.len() - i,
    {
        if srgb[i] {
            proof {
                let s = srgb@;
                assert(s[i as int]);
                let c = choose|k: int| 0 <= k < s.len() && s[k] && forall|j: int| 0 <= j < k ==> !s[j];
                if c < i {
                    assert(!s[c]);
                } else if c > i {
                    assert(!s[i as int]);
                }
            }
            return Some(i);
        }
        i = i + 1;
    }
    if srgb.len() > 0 {
        Some(0)
    } else {
        None
    }
}

/// The surface format to use among those offered: the first sRGB one, else
/// the first one; `None` when none is offered.
pub fn choose_format(formats: &Vec<TextureFormat>) -> (r: Option<TextureFormat>)
    ensures
        r is None <==> formats@.len() == 0,
        r matches Some(f) ==> formats@.contains(f),
{
    let mut srgb: Vec<bool> = Vec::new();
    let mut i: usize = 0;
    while i < formats.len()
        invariant
            0 <= i <= formats.len(),
            srgb@.len() == i,
        decreases formats.len() - i,
    {
        srgb.push(formats[i].is_srgb());
        i = i + 1;
    }
    match preferred_format_index(&srgb) {
        Some(k) => {
            let f = formats[k];
            assert(formats@[k as int] == f);
            Some(f)
        },
        None => None,
    }
}

/// How the surface is configured.
pub struct SurfaceChoice {
    pub format: TextureFormat,
    pub present_mode: PresentMode,
    pub alpha_mode: CompositeAlphaMode,
}

/// The surface configuration from what the surface offers: the preferred
/// format, and the first present mode and alpha mode. The format is checked
/// first, then the present mode, then the alpha mode.
pub fn choose_surface(
    formats: &Vec<TextureFormat>,
    present_modes: &Vec<PresentMode>,
    alpha_modes: &Vec<CompositeAlphaMode>,
) -> (r: Result<SurfaceChoice, SurfaceError>)
    ensures
        r matches Err(e) ==> e == if formats@.len() == 0 {
            SurfaceError::NoFormat
        } else if present_modes@.len() == 0 {
            SurfaceError::NoPresentMode
        } else {
            SurfaceError::NoAlphaMode
        },
        r is Ok <==> formats@.len() > 0 && present_modes@.len() > 0 && alpha_modes@.len() > 0,
        r matches Ok(c) ==> formats@.contains(c.format) && c.present_mode == present_modes@[0]
            && c.alpha_mode == alpha_modes@[0],
{
    let format = match choose_format(formats) {
        Some(f) => f,
        None => {
            return Err(SurfaceError::NoFormat);
        },
    };
    if present_modes.len() == 0 {
        return Err(SurfaceError::NoPresentMode);
    }
    if alpha_modes.len() == 0 {
        return Err(SurfaceError::NoAlphaMode);
    }
    let present_mode = present_modes[0];
    let alpha_mode = alpha_modes[0];
    Ok(SurfaceChoice { format, present_mode, alpha_mode })
}

/// The size of the surface in pixels.
#[derive(Clone, Copy, Debug, PartialEq, Eq, Structural)]
pub struct SurfaceSize {
    pub width: u32,
    pub height: u32,
}

impl SurfaceSize {
    pub fn new(width: u32, height: u32) -> (r: Self)
        ensures
            r.width == width,
            r.height == height,
    {
        SurfaceSize { width, height }
    }

    /// Takes a new size from the window; a size with a zero side is ignored,
    /// since a surface cannot be configured with it. Returns whether the size
    /// was taken, and so whether the surface and its textures are to be
    /// rebuilt.
    pub fn resize(&mut self, width: u32, height: u32) -> (r: bool)
        ensures
            r == (width > 0 && height > 0),
            r ==> *final(self) == (SurfaceSize { width, height }),
            !r ==> *final(self) == *old(self),
    {
        if height > 0 && width > 0 {
            self.width = width;
            self.height = height;
            true
        } else {
            false
        }
    }
}

} // verus!
