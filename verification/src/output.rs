//! Which surface format the frames are drawn in.

use vstd::prelude::*;

verus! {

/// A surface format, as far as the choice depends on it. Formats without a name here are told
/// apart by a number.
#[derive(Clone, Copy, Debug, PartialEq, Eq, Structural)]
pub enum TextureFormat {
    Rgba16Float,
    Bgra8UnormSrgb,
    Rgba8UnormSrgb,
    Bgra8Unorm,
    Rgba8Unorm,
    /// Another format of eight bits for each colour.
    OtherEightBit(u32),
    Other(u32),
}

impl TextureFormat {
    /// The format has eight bits for each colour.
    pub open spec fn eight_bits(self) -> bool {
        match self {
            TextureFormat::Rgba16Float => false,
            TextureFormat::Other(_) => false,
            _ => true,
        }
    }

    /// Whether the format has eight bits for each colour.
    pub fn has_eight_bits(self) -> (eight_bits: bool)
        ensures
            eight_bits == self.eight_bits(),
    {
        match self {
            TextureFormat::Rgba16Float => false,
            TextureFormat::Other(_) => false,
            _ => true,
        }
    }
}

/// The format for a high dynamic range.
pub const HDR_SURFACE_FORMAT: TextureFormat = TextureFormat::Rgba16Float;

/// The format of the frames, and whether it holds a high dynamic range.
#[derive(Clone, Copy, Debug, PartialEq, Eq, Structural)]
pub struct OutputMode {
    pub format: TextureFormat,
    pub hdr: bool,
}

impl OutputMode {
    /// The flag and the format agree.
    pub open spec fn wf(self) -> bool {
        self.hdr <==> self.format == HDR_SURFACE_FORMAT
    }

    /// Whether the mode holds a high dynamic range.
    pub fn is_hdr(self) -> (hdr: bool)
        ensures
            hdr == self.hdr,
    {
        self.hdr
    }

    /// The mode in a word.
    pub open spec fn spec_label(self) -> Seq<char> {
        if self.hdr {
            "HDR"@
        } else {
            "SDR"@
        }
    }

    /// The mode in a word.
    pub fn label(self) -> (label: &'static str)
        ensures
            label@ == self.spec_label(),
    {
        if self.is_hdr() {
            "HDR"
        } else {
            "SDR"
        }
    }
}

/// The formats to fall back to, best first; each has eight bits for each colour.
pub open spec fn fallback_formats() -> Seq<TextureFormat> {
    seq![
        TextureFormat::Bgra8UnormSrgb,
        TextureFormat::Rgba8UnormSrgb,
        TextureFormat::Bgra8Unorm,
        TextureFormat::Rgba8Unorm,
    ]
}

/// `format` is the first of `formats` that `accepted` holds of.
pub open spec fn is_first(
    formats: Seq<TextureFormat>,
    accepted: spec_fn(TextureFormat) -> bool,
    format: TextureFormat,
) -> bool {
    exists|i: int|
        {
            &&& 0 <= i < formats.len()
            &&& #[trigger] formats[i] == format
            &&& accepted(format)
            &&& forall|k: int| 0 <= k < i ==> !accepted(#[trigger] formats[k])
        }
}

/// `format` is used where a high dynamic range is not: the surface's own default, else the best
/// fallback that is supported, else the first supported format of any kind. Where a high dynamic
/// range is ruled out, a default of other than eight bits gives way to a supported fallback, or
/// else to the first supported format of eight bits.
pub open spec fn is_sdr_choice(
    supported: Seq<TextureFormat>,
    default_format: TextureFormat,
    force_sdr: bool,
    format: TextureFormat,
) -> bool {
    if default_format != HDR_SURFACE_FORMAT && (!force_sdr || default_format.eight_bits()) {
        format == default_format
    } else if exists|i: int|
        0 <= i < fallback_formats().len() && supported.contains(#[trigger] fallback_formats()[i]) {
        is_first(fallback_formats(), |candidate| supported.contains(candidate), format)
    } else if force_sdr && exists|i: int|
        0 <= i < supported.len() && (#[trigger] supported[i]).eight_bits() {
        is_first(supported, |candidate: TextureFormat| candidate.eight_bits(), format)
    } else if default_format != HDR_SURFACE_FORMAT {
        format == default_format
    } else {
        is_first(supported, |candidate| candidate != HDR_SURFACE_FORMAT, format)
    }
}

/// The surface offers nothing but the format for a high dynamic range.
pub open spec fn is_hdr_only(supported: Seq<TextureFormat>, default_format: TextureFormat) -> bool {
    default_format == HDR_SURFACE_FORMAT && forall|i: int|
        0 <= i < supported.len() ==> #[trigger] supported[i] == HDR_SURFACE_FORMAT
}

/// Looks for a format among others.
fn contains(formats: &[TextureFormat], format: TextureFormat) -> (found: bool)
    ensures
        found == formats@.contains(format),
{
    let mut i: usize = 0;
    while i < formats.len()
        invariant
            i <= formats@.len(),
            forall|k: int| 0 <= k < i ==> formats@[k] != format,
        decreases formats@.len() - i,
    {
        if formats[i] == format {
            return true;
        }
        i = i + 1;
    }
    false
}

/// The first supported format of eight bits for each colour.
fn find_eight_bits(supported: &[TextureFormat]) -> (found: Option<TextureFormat>)
    ensures
        match found {
            Some(format) => is_first(
                supported@,
                |candidate: TextureFormat| candidate.eight_bits(),
                format,
            ) && format.eight_bits() && supported@.contains(format),
            None => forall|i: int|
                0 <= i < supported@.len() ==> !(#[trigger] supported@[i]).eight_bits(),
        },
{
    let mut i: usize = 0;
    while i < supported.len()
        invariant
            i <= supported@.len(),
            forall|k: int| 0 <= k < i ==> !(#[trigger] supported@[k]).eight_bits(),
        decreases supported@.len() - i,
    {
        if supported[i].has_eight_bits() {
            assert(supported@[i as int].eight_bits());
            return Some(supported[i]);
        }
        i = i + 1;
    }
    None
}

/// The best fallback that is supported.
fn find_fallback(supported: &[TextureFormat]) -> (found: Option<TextureFormat>)
    ensures
        match found {
            Some(format) => is_first(
                fallback_formats(),
                |candidate| supported@.contains(candidate),
                format,
            ) && supported@.contains(format) && fallback_formats().contains(format),
            None => forall|i: int|
                0 <= i < fallback_formats().len() ==> !supported@.contains(
                    #[trigger] fallback_formats()[i],
                ),
        },
{
    let candidates: [TextureFormat; 4] = [
        TextureFormat::Bgra8UnormSrgb,
        TextureFormat::Rgba8UnormSrgb,
        TextureFormat::Bgra8Unorm,
        TextureFormat::Rgba8Unorm,
    ];
    let ghost fallbacks = fallback_formats();
    assert(candidates@ =~= fallbacks);
    let mut i: usize = 0;
    while i < 4
        invariant
            i <= 4,
            candidates@ == fallbacks,
            fallbacks == fallback_formats(),
            fallbacks.len() == 4,
            forall|k: int| 0 <= k < i ==> !supported@.contains(#[trigger] fallbacks[k]),
        decreases 4 - i,
    {
        if contains(supported, candidates[i]) {
            assert(fallbacks[i as int] == candidates[i as int]);
            return Some(candidates[i]);
        }
        i = i + 1;
    }
    None
}

/// The first supported format that is not the one for a high dynamic range.
fn find_sdr(supported: &[TextureFormat]) -> (found: Option<TextureFormat>)
    ensures
        match found {
            Some(format) => is_first(
                supported@,
                |candidate| candidate != HDR_SURFACE_FORMAT,
                format,
            ),
            None => forall|i: int|
                0 <= i < supported@.len() ==> #[trigger] supported@[i] == HDR_SURFACE_FORMAT,
        },
{
    let mut i: usize = 0;
    while i < supported.len()
        invariant
            i <= supported@.len(),
            forall|k: int| 0 <= k < i ==> #[trigger] supported@[k] == HDR_SURFACE_FORMAT,
        decreases supported@.len() - i,
    {
        if supported[i] != HDR_SURFACE_FORMAT {
            assert(supported@[i as int] != HDR_SURFACE_FORMAT);
            return Some(supported[i]);
        }
        i = i + 1;
    }
    None
}

/// Chooses the format: that for a high dynamic range where it is supported and not ruled out, and
/// otherwise the best of the others; where it is ruled out, one of eight bits if there is any.
/// There is none only where the surface offers no other.
pub fn select_output_mode_with_preference(
    supported_formats: &[TextureFormat],
    default_format: TextureFormat,
    force_sdr: bool,
) -> (mode: Option<OutputMode>)
    ensures
        !force_sdr && supported_formats@.contains(HDR_SURFACE_FORMAT) ==> mode == Some(
            OutputMode { format: HDR_SURFACE_FORMAT, hdr: true },
        ),
        force_sdr || !supported_formats@.contains(HDR_SURFACE_FORMAT) ==> match mode {
            Some(chosen) => !chosen.hdr && is_sdr_choice(
                supported_formats@,
                default_format,
                force_sdr,
                chosen.format,
            ),
            None => is_hdr_only(supported_formats@, default_format),
        },
        mode is None <==> (force_sdr || !supported_formats@.contains(HDR_SURFACE_FORMAT))
            && is_hdr_only(supported_formats@, default_format),
        mode matches Some(chosen) ==> chosen.wf(),
{
    if !force_sdr && contains(supported_formats, HDR_SURFACE_FORMAT) {
        return Some(OutputMode { format: HDR_SURFACE_FORMAT, hdr: true });
    }
    if default_format != HDR_SURFACE_FORMAT && (!force_sdr
        || default_format.has_eight_bits()) {
        return Some(OutputMode { format: default_format, hdr: false });
    }
    if let Some(format) = find_fallback(supported_formats) {
        return Some(OutputMode { format, hdr: false });
    }
    if force_sdr {
        if let Some(format) = find_eight_bits(supported_formats) {
            return Some(OutputMode { format, hdr: false });
        }
    }
    if default_format != HDR_SURFACE_FORMAT {
        return Some(OutputMode { format: default_format, hdr: false });
    }
    match find_sdr(supported_formats) {
        Some(format) => Some(OutputMode { format, hdr: false }),
        None => None,
    }
}

/// The choice without a high dynamic range is settled: at most one format meets it, that format
/// is never the one for a high dynamic range, and none meets it where nothing else is
/// offered.
pub proof fn law_sdr_choice_is_settled(
    supported: Seq<TextureFormat>,
    default_format: TextureFormat,
    force_sdr: bool,
    first: TextureFormat,
    second: TextureFormat,
)
    ensures
        is_sdr_choice(supported, default_format, force_sdr, first) && is_sdr_choice(
            supported,
            default_format,
            force_sdr,
            second,
        ) ==> first == second,
        is_sdr_choice(supported, default_format, force_sdr, first) ==> first
            != HDR_SURFACE_FORMAT,
        is_hdr_only(supported, default_format) ==> !is_sdr_choice(
            supported,
            default_format,
            force_sdr,
            first,
        ),
{
}

/// Where a high dynamic range is ruled out, the choice has eight bits for each colour as soon as
/// the surface supports such a format, or has one for its default.
pub proof fn law_forced_sdr_has_eight_bits(
    supported: Seq<TextureFormat>,
    default_format: TextureFormat,
    offered: TextureFormat,
    format: TextureFormat,
)
    requires
        offered.eight_bits(),
        supported.contains(offered) || default_format == offered,
        is_sdr_choice(supported, default_format, true, format),
    ensures
        format.eight_bits(),
{
    if supported.contains(offered) {
        let at = choose|i: int| 0 <= i < supported.len() && supported[i] == offered;
        assert(supported[at].eight_bits());
    }
}

/// How far down the list of fallbacks a format stands, from 0; formats that are not on it count as
/// four.
pub open spec fn fallback_rank(format: TextureFormat) -> int {
    match format {
        TextureFormat::Bgra8UnormSrgb => 0,
        TextureFormat::Rgba8UnormSrgb => 1,
        TextureFormat::Bgra8Unorm => 2,
        TextureFormat::Rgba8Unorm => 3,
        _ => 4,
    }
}

/// The surface's own default is kept where it serves: without a high dynamic range, and where that
/// is ruled out with eight bits.
pub proof fn law_default_is_kept_where_it_serves(
    supported: Seq<TextureFormat>,
    default_format: TextureFormat,
    force_sdr: bool,
    format: TextureFormat,
)
    requires
        default_format != TextureFormat::Rgba16Float,
        is_sdr_choice(supported, default_format, force_sdr, format),
    ensures
        !force_sdr ==> format == default_format,
        default_format !is Other ==> format == default_format,
{
}

/// Where the default does not serve, no supported fallback is better than the choice; without any,
/// the choice is the first supported format of eight bits if they are asked for, else the default
/// unless it is the one for a high dynamic range, else the first that is not.
pub proof fn law_choice_is_the_best_that_is_supported(
    supported: Seq<TextureFormat>,
    default_format: TextureFormat,
    force_sdr: bool,
    format: TextureFormat,
)
    requires
        default_format == TextureFormat::Rgba16Float || (force_sdr && default_format is Other),
        is_sdr_choice(supported, default_format, force_sdr, format),
    ensures
        format != TextureFormat::Rgba16Float,
        supported.contains(format) || format == default_format,
        forall|i: int|
            0 <= i < supported.len() ==> fallback_rank(format) <= fallback_rank(
                #[trigger] supported[i],
            ),
        fallback_rank(format) < 4 ==> supported.contains(format),
        fallback_rank(format) == 4 && force_sdr && format is OtherEightBit ==> forall|i: int|
            0 <= i < supported.len() && (#[trigger] supported[i]) is OtherEightBit ==> exists|
                k: int,
            |
                0 <= k <= i && #[trigger] supported[k] == format,
        fallback_rank(format) == 4 && force_sdr && format !is OtherEightBit ==> forall|i: int|
            0 <= i < supported.len() ==> (#[trigger] supported[i]) !is OtherEightBit,
        fallback_rank(format) == 4 && !(force_sdr && format is OtherEightBit) && default_format
            != TextureFormat::Rgba16Float ==> format == default_format,
        fallback_rank(format) == 4 && !(force_sdr && format is OtherEightBit) && default_format
            == TextureFormat::Rgba16Float ==> exists|k: int|
            {
                &&& 0 <= k < supported.len()
                &&& #[trigger] supported[k] == format
                &&& forall|i: int|
                    0 <= i < k ==> #[trigger] supported[i] == TextureFormat::Rgba16Float
            },
{
    let fallbacks = fallback_formats();
    assert(fallbacks[0] == TextureFormat::Bgra8UnormSrgb);
    assert(fallbacks[1] == TextureFormat::Rgba8UnormSrgb);
    assert(fallbacks[2] == TextureFormat::Bgra8Unorm);
    assert(fallbacks[3] == TextureFormat::Rgba8Unorm);
    assert forall|i: int| 0 <= i < supported.len() implies fallback_rank(format)
        <= fallback_rank(#[trigger] supported[i]) by {
        assert(supported.contains(supported[i]));
        let rank = fallback_rank(supported[i]);
        if rank < 4 {
            assert(fallbacks[rank] == supported[i]);
            assert(supported.contains(fallbacks[rank]));
        }
    }
}

/// Every surface is served unless it offers the format for a high dynamic range alone.
pub proof fn law_nothing_but_hdr(supported: Seq<TextureFormat>, default_format: TextureFormat)
    ensures
        is_hdr_only(supported, default_format) <==> default_format == TextureFormat::Rgba16Float
            && forall|format: TextureFormat|
            supported.contains(format) ==> format == TextureFormat::Rgba16Float,
        forall|mode: OutputMode|
            #[trigger] mode.wf() <==> (mode.hdr == (mode.format == TextureFormat::Rgba16Float)),
{
    if forall|format: TextureFormat|
        supported.contains(format) ==> format == TextureFormat::Rgba16Float {
        assert forall|i: int| 0 <= i < supported.len() implies #[trigger] supported[i]
            == HDR_SURFACE_FORMAT by {
            assert(supported.contains(supported[i]));
        }
    }
}

} // verus!
