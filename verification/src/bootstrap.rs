//! Device bootstrap decisions: choosing the queue family that can both
//! present and draw, and choosing the colour format the surface is rendered
//! in. The enumeration itself happens outside; these functions decide.

use vstd::prelude::*;

verus! {

/// What the adapter reports about one queue family.
#[derive(Clone, Copy, Debug, PartialEq, Eq, Structural)]
pub struct QueueFamilyInfo {
    pub supports_presentation: bool,
    pub supports_graphics: bool,
}

impl QueueFamilyInfo {
    /// A family the renderer can open its one queue on.
    pub open spec fn fit(self) -> bool {
        self.supports_presentation && self.supports_graphics
    }
}

/// The first queue family that both presents to the surface and supports
/// graphics, or `None` when the adapter offers no such family (a fatal
/// bootstrap condition for the caller).
pub fn select_queue_family(families: &Vec<QueueFamilyInfo>) -> (r: Option<usize>)
    ensures
        match r {
            Some(i) => {
                &&& i < families@.len()
                &&& families@[i as int].fit()
                &&& forall|j: int| 0 <= j < i ==> !families@[j].fit()
            },
            None => forall|j: int| 0 <= j < families@.len() ==> !families@[j].fit(),
        },
{
    let mut i: usize = 0;
    while i < families.len()
        invariant
            i <= families@.len(),
            forall|j: int| 0 <= j < i ==> !families@[j].fit(),
        decreases families@.len() - i,
    {
        let f = families[i];
        if f.supports_presentation && f.supports_graphics {
            return Some(i);
        }
        i = i + 1;
    }
    None
}

/// A colour format as the surface enumerates them: an opaque format code and
/// whether the format's channels are sRGB-encoded.
#[derive(Clone, Copy, Debug, PartialEq, Eq, Structural)]
pub struct SurfaceFormat {
    pub code: u32,
    pub srgb: bool,
}

/// The format assumed when the surface reports no supported formats at all:
/// an sRGB-encoded four-channel 8-bit format.
pub const FALLBACK_FORMAT_CODE: u32 = 0;

/// The format used when the surface reports nothing.
pub open spec fn default_format() -> SurfaceFormat {
    SurfaceFormat { code: FALLBACK_FORMAT_CODE, srgb: true }
}

/// `s[i]` is the first sRGB-encoded format of `s`.
pub open spec fn first_srgb_at(s: Seq<SurfaceFormat>, i: int) -> bool {
    &&& 0 <= i < s.len()
    &&& s[i].srgb
    &&& forall|j: int| 0 <= j < i ==> !s[j].srgb
}

/// Choose the colour format the surface is rendered in: the first
/// sRGB-encoded format among those supported, else the first supported
/// format, else the hard-coded default.
pub fn choose_colour_format(supported: &Vec<SurfaceFormat>) -> (f: SurfaceFormat)
    ensures
        (exists|i: int| 0 <= i < supported@.len() && supported@[i].srgb) ==> exists|i: int|
            first_srgb_at(supported@, i) && f == supported@[i],
        (forall|i: int| 0 <= i < supported@.len() ==> !supported@[i].srgb) && supported@.len() > 0
            ==> f == supported@[0],
        supported@.len() == 0 ==> f == default_format(),
{
    let mut i: usize = 0;
    while i < supported.len()
        invariant
            i <= supported@.len(),
            forall|j: int| 0 <= j < i ==> !supported@[j].srgb,
        decreases supported@.len() - i,
    {
        let f = supported[i];
        if f.srgb {
            assert(first_srgb_at(supported@, i as int));
            return f;
        }
        i = i + 1;
    }
    if supported.len() > 0 {
        supported[0]
    } else {
        SurfaceFormat { code: FALLBACK_FORMAT_CODE, srgb: true }
    }
}

} // verus!
