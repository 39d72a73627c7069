//! The choice of the surface's texture format when the renderer starts: the
//! first sRGB format that the surface supports, else its first format.
use vstd::prelude::*;

verus! {

/// `wgpu::TextureFormat`, carried through opaquely.
#[verifier::external_type_specification]
#[verifier::external_body]
pub struct ExTextureFormat(wgpu::TextureFormat);

/// What `wgpu::TextureFormat::is_srgb` answers for a format: whether its
/// colour channels are stored sRGB-encoded. It depends on the format alone.
pub uninterp spec fn texture_format_is_srgb(format: wgpu::TextureFormat) -> bool;

/// Calls `wgpu::TextureFormat::is_srgb`.
#[verifier::external_body]
fn is_srgb(format: &wgpu::TextureFormat) -> (srgb: bool)
    ensures
        srgb == texture_format_is_srgb(*format),
{
    format.is_srgb()
}

/// Whether `i` is the place of the first `true` of `srgb`.
pub open spec fn is_first_srgb(srgb: Seq<bool>, i: int) -> bool {
    &&& 0 <= i < srgb.len()
    &&& srgb[i]
    &&& forall|j: int| 0 <= j < i ==> !srgb[j]
}

/// The place of the preferred format, given for each supported format
/// whether it is sRGB: the first sRGB one, else the first one.
pub open spec fn spec_preferred_index(srgb: Seq<bool>) -> int {
    if exists|i: int| is_first_srgb(srgb, i) {
        choose|i: int| is_first_srgb(srgb, i)
    } else {
        0
    }
}

/// The index of the preferred format, given for each supported format
/// whether it is sRGB: the first sRGB one, else the first one.
pub fn preferred_format_index(srgb: &Vec<bool>) -> (index: usize)
    requires
        srgb@.len() > 0,
    ensures
        index < srgb@.len(),
        index == spec_preferred_index(srgb@),
        srgb@.contains(true) ==> is_first_srgb(srgb@, index as int),
        !srgb@.contains(true) ==> index == 0,
{
    let mut i: usize = 0;
    while i < srgb.len()
        invariant
            i <= srgb@.len(),
            forall|j: int| 0 <= j < i ==> !srgb@[j],
        decreases srgb@.len() - i,
    {
        if srgb[i] {
            proof {
                assert(is_first_srgb(srgb@, i as int));
                let k = choose|k: int| is_first_srgb(srgb@, k);
                assert(k == i) by {
                    if k < i {
                        assert(!srgb@[k]);
                    } else if k > i {
                        assert(!srgb@[i as int]);
                    }
                }
            }
            return i;
        }
        i = i + 1;
    }
    proof {
        assert(!srgb@.contains(true)) by {
            if srgb@.contains(true) {
                let j = choose|j: int| 0 <= j < srgb@.len() && srgb@[j] == true;
                assert(!srgb@[j]);
            }
        }
        assert(!exists|k: int| is_first_srgb(srgb@, k)) by {
            if exists|k: int| is_first_srgb(srgb@, k) {
                let k = choose|k: int| is_first_srgb(srgb@, k);
                assert(srgb@[k]);
            }
        }
    }
    0
}

/// For each format, whether it is sRGB.
pub open spec fn srgb_flags(formats: Seq<wgpu::TextureFormat>) -> Seq<bool> {
    formats.map_values(|format: wgpu::TextureFormat| texture_format_is_srgb(format))
}

/// Picks the surface format among those that the surface supports: the
/// first sRGB one, else the first one.
pub fn pick_surface_format(formats: &Vec<wgpu::TextureFormat>) -> (format: wgpu::TextureFormat)
    requires
        formats@.len() > 0,
    ensures
        format == formats@[spec_preferred_index(srgb_flags(formats@))],
        0 <= spec_preferred_index(srgb_flags(formats@)) < formats@.len(),
{
    let mut srgb: Vec<bool> = Vec::new();
    for i in 0..formats.len()
        invariant
            srgb@.len() == i,
            forall|j: int| 0 <= j < i ==> srgb@[j] == texture_format_is_srgb(#[trigger] formats@[j]),
    {
        srgb.push(is_srgb(&formats[i]));
    }
    assert(srgb@ == srgb_flags(formats@));
    let index = preferred_format_index(&srgb);
    formats[index]
}

} // verus!
