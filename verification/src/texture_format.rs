use vstd::prelude::*;

verus! {

/// A surface or texture pixel format. The four 8-bit formats the renderer
/// actually configures are listed by name; any other format a platform may
/// offer is carried as `Other`, remembering only whether it is sRGB-encoded,
/// which is all the configuration decision reads.
#[derive(Clone, Copy, Debug, PartialEq, Eq, Structural)]
pub enum TextureFormat {
    Rgba8Unorm,
    Rgba8UnormSrgb,
    Bgra8Unorm,
    Bgra8UnormSrgb,
    Other { srgb: bool },
}

impl TextureFormat {
    pub open spec fn spec_is_srgb(self) -> bool {
        match self {
            TextureFormat::Rgba8UnormSrgb => true,
            TextureFormat::Bgra8UnormSrgb => true,
            TextureFormat::Other { srgb } => srgb,
            _ => false,
        }
    }

    /// Whether the format stores its channels with sRGB gamma encoding.
    #[verifier::when_used_as_spec(spec_is_srgb)]
    pub fn is_srgb(self) -> (r: bool)
        ensures
            r == self.spec_is_srgb(),
    {
        match self {
            TextureFormat::Rgba8UnormSrgb => true,
            TextureFormat::Bgra8UnormSrgb => true,
            TextureFormat::Other { srgb } => srgb,
            _ => false,
        }
    }
}

/// Whether at least one of the offered formats is sRGB-encoded.
pub open spec fn has_srgb(formats: Seq<TextureFormat>) -> bool {
    exists|i: int| 0 <= i < formats.len() && formats[i].spec_is_srgb()
}

/// Index of the first sRGB format, or `formats.len()` when none is sRGB.
pub open spec fn first_srgb_index(formats: Seq<TextureFormat>) -> int
    decreases formats.len(),
{
    if formats.len() == 0 {
        0
    } else if formats[0].spec_is_srgb() {
        0
    } else {
        1 + first_srgb_index(formats.subrange(1, formats.len() as int))
    }
}

/// The index of the format a surface is configured with: the first sRGB
/// format when one is offered, otherwise the first offered format.
pub open spec fn chosen_format_index(formats: Seq<TextureFormat>) -> int {
    if first_srgb_index(formats) < formats.len() {
        first_srgb_index(formats)
    } else {
        0
    }
}

/// The format a surface is configured with.
pub open spec fn chosen_format(formats: Seq<TextureFormat>) -> TextureFormat {
    formats[chosen_format_index(formats)]
}

proof fn lemma_first_srgb_at(formats: Seq<TextureFormat>, i: int)
    requires
        0 <= i <= formats.len(),
        forall|j: int| 0 <= j < i ==> !formats[j].spec_is_srgb(),
        i == formats.len() || formats[i].spec_is_srgb(),
    ensures
        first_srgb_index(formats) == i,
    decreases i,
{
    if i > 0 {
        let rest = formats.subrange(1, formats.len() as int);
        assert(forall|j: int| 0 <= j < i - 1 ==> !rest[j].spec_is_srgb());
        lemma_first_srgb_at(rest, i - 1);
    }
}

/// The position within the offered formats that the surface is configured
/// with: the first sRGB entry if any, else position zero.
pub fn choose_format_index(formats: &Vec<TextureFormat>) -> (r: usize)
    requires
        formats@.len() > 0,
    ensures
        r < formats@.len(),
        r as int == chosen_format_index(formats@),
{
    let n = formats.len();
    let mut i: usize = 0;
    while i < n
        invariant
            i <= n,
            n == formats@.len(),
            forall|j: int| 0 <= j < i ==> !formats@[j].spec_is_srgb(),
        decreases n - i,
    {
        if formats[i].is_srgb() {
            proof {
                lemma_first_srgb_at(formats@, i as int);
            }
            return i;
        }
        i += 1;
    }
    proof {
        lemma_first_srgb_at(formats@, n as int);
    }
    0
}

/// The format a surface is configured with: the first sRGB format when one
/// is offered, otherwise the first offered format.
pub fn choose_format(formats: &Vec<TextureFormat>) -> (f: TextureFormat)
    requires
        formats@.len() > 0,
    ensures
        f == chosen_format(formats@),
        has_srgb(formats@) ==> f.spec_is_srgb(),
        !has_srgb(formats@) ==> f == formats@[0],
{
    let i = choose_format_index(formats);
    proof {
        if has_srgb(formats@) {
            let w = choose|k: int| 0 <= k < formats@.len() && formats@[k].spec_is_srgb();
            lemma_first_srgb_bound(formats@, w);
            lemma_first_srgb_hits(formats@);
        } else {
            if first_srgb_index(formats@) < formats@.len() {
                lemma_first_srgb_hits(formats@);
            }
        }
    }
    formats[i]
}

/// When some entry is sRGB, the first-sRGB index is no greater than it.
proof fn lemma_first_srgb_bound(formats: Seq<TextureFormat>, w: int)
    requires
        0 <= w < formats.len(),
        formats[w].spec_is_srgb(),
    ensures
        first_srgb_index(formats) <= w,
    decreases formats.len(),
{
    if !formats[0].spec_is_srgb() {
        let rest = formats.subrange(1, formats.len() as int);
        lemma_first_srgb_bound(rest, w - 1);
    }
}

/// When the first-sRGB index is in range, the entry there is sRGB.
proof fn lemma_first_srgb_hits(formats: Seq<TextureFormat>)
    requires
        first_srgb_index(formats) < formats.len(),
    ensures
        0 <= first_srgb_index(formats),
        formats[first_srgb_index(formats)].spec_is_srgb(),
    decreases formats.len(),
{
    if formats.len() > 0 && !formats[0].spec_is_srgb() {
        let rest = formats.subrange(1, formats.len() as int);
        lemma_first_srgb_hits(rest);
    }
}

} // verus!
