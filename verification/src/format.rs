//! Choice of the surface's pixel format.

use vstd::prelude::*;

verus! {

/// `wgpu::TextureFormat`, a pixel format, taken as an opaque value: nothing is
/// claimed of what is inside.
#[verifier::external_type_specification]
#[verifier::external_body]
pub struct ExTextureFormat(wgpu::TextureFormat);

/// What `wgpu::TextureFormat::is_srgb` answers for a pixel format: whether the
/// format is sRGB-encoded. Nothing more is known of it here.
pub uninterp spec fn srgb_encoded(format: wgpu::TextureFormat) -> bool;

/// Calls `wgpu::TextureFormat::is_srgb`. Not proved: that the call returns,
/// and that its answer depends on the format alone, which `srgb_encoded` names.
#[verifier::external_body]
fn is_srgb(format: &wgpu::TextureFormat) -> (srgb: bool)
    ensures
        srgb == srgb_encoded(*format),
{
    format.is_srgb()
}

/// `index` is the place of the format to use among `formats`: the first one
/// that is sRGB-encoded, or the very first one where none is.
pub open spec fn is_preferred(formats: Seq<wgpu::TextureFormat>, index: int) -> bool {
    &&& 0 <= index < formats.len()
    &&& forall|j: int| 0 <= j < index ==> !srgb_encoded(#[trigger] formats[j])
    &&& (srgb_encoded(formats[index]) || (index == 0 && forall|j: int|
        0 <= j < formats.len() ==> !srgb_encoded(#[trigger] formats[j])))
}

/// The place that `is_preferred` singles out (arbitrary for an empty list).
pub open spec fn preferred_index(formats: Seq<wgpu::TextureFormat>) -> int {
    choose|index: int| is_preferred(formats, index)
}

/// At most one place is preferred.
pub proof fn lemma_preferred_unique(formats: Seq<wgpu::TextureFormat>, a: int, b: int)
    requires
        is_preferred(formats, a),
        is_preferred(formats, b),
    ensures
        a == b,
{
    if a < b {
        assert(!srgb_encoded(formats[a]));
    } else if b < a {
        assert(!srgb_encoded(formats[b]));
    }
}

/// Every non-empty list has a preferred place, so `preferred_index` is it.
pub proof fn lemma_preferred_exists(formats: Seq<wgpu::TextureFormat>)
    requires
        formats.len() > 0,
    ensures
        is_preferred(formats, preferred_index(formats)),
{
    lemma_first_srgb(formats, formats.len() as int);
}

/// Among the first `n` formats either none is sRGB-encoded or one of them is
/// the first that is.
proof fn lemma_first_srgb(formats: Seq<wgpu::TextureFormat>, n: int)
    requires
        0 <= n <= formats.len(),
        formats.len() > 0,
    ensures
        (forall|j: int| 0 <= j < n ==> !srgb_encoded(#[trigger] formats[j])) || (exists|i: int|
            0 <= i < n && is_preferred(formats, i)),
        n == formats.len() ==> exists|i: int| is_preferred(formats, i),
    decreases n,
{
    if n > 0 {
        lemma_first_srgb(formats, n - 1);
        if forall|j: int| 0 <= j < n - 1 ==> !srgb_encoded(#[trigger] formats[j]) {
            if srgb_encoded(formats[n - 1]) {
                assert(is_preferred(formats, n - 1));
            }
        }
    }
    if n == formats.len() {
        if forall|j: int| 0 <= j < n ==> !srgb_encoded(#[trigger] formats[j]) {
            assert(is_preferred(formats, 0));
        }
    }
}

/// Picks the pixel format for the surface out of those it supports: the index
/// of the first sRGB-encoded one, else index 0. `None` exactly when the surface
/// supports no format at all.
pub fn select_format(formats: &Vec<wgpu::TextureFormat>) -> (chosen: Option<usize>)
    ensures
        chosen is None <==> formats@.len() == 0,
        chosen matches Some(index) ==> index as int == preferred_index(formats@) && is_preferred(
            formats@,
            index as int,
        ),
{
    let mut i: usize = 0;
    while i < formats.len()
        invariant
            0 <= i <= formats@.len(),
            forall|j: int| 0 <= j < i ==> !srgb_encoded(#[trigger] formats@[j]),
        decreases formats@.len() - i,
    {
        if is_srgb(&formats[i]) {
            proof {
                lemma_preferred_exists(formats@);
                lemma_preferred_unique(formats@, i as int, preferred_index(formats@));
            }
            return Some(i);
        }
        i += 1;
    }
    if formats.len() == 0 {
        None
    } else {
        proof {
            lemma_preferred_exists(formats@);
            lemma_preferred_unique(formats@, 0, preferred_index(formats@));
        }
        Some(0)
    }
}

} // verus!
