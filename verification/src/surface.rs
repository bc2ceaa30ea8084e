//! The presentation surface: its colour format and its configuration.

use vstd::prelude::*;

verus! {

/// `wgpu::TextureFormat`, the texture formats of `wgpu`. Nothing is known of
/// a format but what `format_is_srgb` names.
#[verifier::external_type_specification]
#[verifier::external_body]
pub struct ExTextureFormat(wgpu::TextureFormat);

/// Whether a texture format is gamma-corrected: the `srgb` flag of what
/// `wgpu::TextureFormat::describe` returns for it.
pub uninterp spec fn format_is_srgb(format: wgpu::TextureFormat) -> bool;

/// Reads the `srgb` flag of `wgpu::TextureFormat::describe`. The flag is
/// looked up in a fixed table, so it depends on the format alone; the
/// contract gives it a name and claims nothing else.
#[verifier::external_body]
fn is_srgb(format: &wgpu::TextureFormat) -> (srgb: bool)
    ensures
        srgb == format_is_srgb(*format),
{
    format.describe().srgb
}

/// Whether `i` is the place of the first flag that is set.
pub open spec fn is_first_set(flags: Seq<bool>, i: int) -> bool {
    &&& 0 <= i < flags.len()
    &&& flags[i]
    &&& forall|j: int| 0 <= j < i ==> !flags[j]
}

/// The place of the first flag that is set, or 0 if none is.
pub open spec fn first_set_or_zero(flags: Seq<bool>) -> int {
    if exists|i: int| is_first_set(flags, i) {
        choose|i: int| is_first_set(flags, i)
    } else {
        0
    }
}

/// The first flag that is set is the only one that is first.
pub proof fn lemma_first_set_unique(flags: Seq<bool>, i: int)
    requires
        is_first_set(flags, i),
    ensures
        first_set_or_zero(flags) == i,
{
    let k = first_set_or_zero(flags);
    assert(is_first_set(flags, k));
    if k < i {
        assert(!flags[k]);
    }
    if i < k {
        assert(!flags[i]);
    }
}

/// Where no flag is set, the choice falls on place 0.
pub proof fn lemma_first_set_none(flags: Seq<bool>)
    requires
        forall|j: int| 0 <= j < flags.len() ==> !flags[j],
    ensures
        first_set_or_zero(flags) == 0,
{
    if exists|i: int| is_first_set(flags, i) {
        let i = choose|i: int| is_first_set(flags, i);
        assert(flags[i]);
    }
}

/// Finds the place of the first flag that is set, or 0 if none is.
pub fn preferred_index(flags: &[bool]) -> (index: usize)
    ensures
        index == first_set_or_zero(flags@),
        flags@.len() > 0 ==> index < flags@.len(),
{
    let mut i: usize = 0;
    while i < flags.len()
        invariant
            i <= flags@.len(),
            forall|j: int| 0 <= j < i ==> !flags@[j],
        decreases flags@.len() - i,
    {
        if flags[i] {
            proof {
                lemma_first_set_unique(flags@, i as int);
            }
            return i;
        }
        i += 1;
    }
    proof {
        lemma_first_set_none(flags@);
    }
    0
}

/// For each format, whether it is gamma-corrected.
pub open spec fn srgb_flags(formats: Seq<wgpu::TextureFormat>) -> Seq<bool> {
    Seq::new(formats.len(), |i: int| format_is_srgb(formats[i]))
}

/// The format that a surface offering `formats` is configured with: the
/// first gamma-corrected one, or the first one where none is
/// gamma-corrected.
pub open spec fn preferred_format(formats: Seq<wgpu::TextureFormat>) -> wgpu::TextureFormat {
    formats[first_set_or_zero(srgb_flags(formats))]
}

/// Picks the colour format of the surface among those that it offers, in
/// the order in which it reports them.
pub fn choose_surface_format(formats: &[wgpu::TextureFormat]) -> (chosen: wgpu::TextureFormat)
    requires
        formats@.len() > 0,
    ensures
        chosen == preferred_format(formats@),
{
    let mut flags: Vec<bool> = Vec::new();
    let mut i: usize = 0;
    while i < formats.len()
        invariant
            i <= formats@.len(),
            flags@.len() == i,
            forall|j: int| 0 <= j < i ==> flags@[j] == format_is_srgb(formats@[j]),
        decreases formats@.len() - i,
    {
        flags.push(is_srgb(&formats[i]));
        i += 1;
    }
    assert(flags@ =~= srgb_flags(formats@));
    let index = preferred_index(flags.as_slice());
    formats[index]
}

/// How frames are handed to the display.
#[derive(Clone, Copy, Debug, PartialEq, Eq)]
pub enum PresentMode {
    /// Frames queue up and are shown one per refresh of the display.
    Fifo,
}

/// The configuration of the presentation surface.
#[derive(Clone, Copy, Debug, PartialEq, Eq)]
pub struct SurfaceConfiguration {
    pub format: wgpu::TextureFormat,
    pub width: u32,
    pub height: u32,
    pub present_mode: PresentMode,
}

/// The format of a render target.
#[derive(Clone, Copy, Debug, PartialEq, Eq)]
pub enum TargetFormat {
    /// A colour format.
    Color(wgpu::TextureFormat),
    /// Depth as one single-precision number per sample.
    Depth32Float,
}

/// A render target that goes with the surface: a two-dimensional texture
/// with one layer and one mip level, used as an attachment only.
#[derive(Clone, Copy, Debug, PartialEq, Eq)]
pub struct TextureDescriptor {
    pub width: u32,
    pub height: u32,
    pub sample_count: u32,
    pub format: TargetFormat,
}

} // verus!
