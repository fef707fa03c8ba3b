//! Format-specific HDR handlers: the x265 options each HDR format needs,
//! and the checks of its metadata.

use vstd::prelude::*;
use crate::hdr::metadata::{content_light_level_text, HdrMetadataExtractor};
use crate::hdr::types::{ColorSpace, ContentLightLevelInfo, HdrFormat, TransferFunction};
use crate::params::{
    keys_distinct, law_get_after_or_insert_all, pair, pairs_view, pm_first, pm_get, pm_has, pm_insert,
    pm_insert_all, pm_or_insert_all, ParamEntries, ParamMap,
};
use crate::text::{concat, concat3, decimal, owned, u64_to_string};

verus! {

/// The colour options of PQ (HDR10 and HDR10+) content.
pub open spec fn pq_color_entries() -> ParamEntries {
    seq![
        ("colorprim"@, "bt2020"@),
        ("transfer"@, "smpte2084"@),
        ("colormatrix"@, "bt2020nc"@),
    ]
}

/// The colour options of PQ (HDR10 and HDR10+) content.
pub fn pq_color_entries_vec() -> (r: Vec<(String, String)>)
    ensures
        pairs_view(r@) == pq_color_entries(),
{
    let mut v: Vec<(String, String)> = Vec::new();
    v.push(pair("colorprim", "bt2020"));
    v.push(pair("transfer", "smpte2084"));
    v.push(pair("colormatrix", "bt2020nc"));
    assert(pairs_view(v@) =~= pq_color_entries());
    v
}

/// The colour options of HLG content.
pub open spec fn hlg_color_entries() -> ParamEntries {
    seq![
        ("colorprim"@, "bt2020"@),
        ("transfer"@, "arib-std-b67"@),
        ("colormatrix"@, "bt2020nc"@),
    ]
}

/// The colour options of HLG content.
pub fn hlg_color_entries_vec() -> (r: Vec<(String, String)>)
    ensures
        pairs_view(r@) == hlg_color_entries(),
{
    let mut v: Vec<(String, String)> = Vec::new();
    v.push(pair("colorprim", "bt2020"));
    v.push(pair("transfer", "arib-std-b67"));
    v.push(pair("colormatrix", "bt2020nc"));
    assert(pairs_view(v@) =~= hlg_color_entries());
    v
}

/// The HDR flags and 10-bit output of PQ content.
pub open spec fn pq_flag_entries() -> ParamEntries {
    seq![
        ("hdr"@, ""@),
        ("hdr-opt"@, ""@),
        ("output-depth"@, "10"@),
    ]
}

/// The HDR flags and 10-bit output of PQ content.
pub fn pq_flag_entries_vec() -> (r: Vec<(String, String)>)
    ensures
        pairs_view(r@) == pq_flag_entries(),
{
    let mut v: Vec<(String, String)> = Vec::new();
    v.push(pair("hdr", ""));
    v.push(pair("hdr-opt", ""));
    v.push(pair("output-depth", "10"));
    assert(pairs_view(v@) =~= pq_flag_entries());
    v
}

/// Encoder defaults for HDR10 content.
pub open spec fn hdr10_optimization_defaults() -> ParamEntries {
    seq![
        ("psy-rd"@, "2.0"@),
        ("psy-rdoq"@, "1.0"@),
        ("rd"@, "4"@),
        ("me"@, "umh"@),
        ("subme"@, "3"@),
        ("aq-mode"@, "3"@),
        ("aq-strength"@, "0.8"@),
        ("deblock"@, "1,1"@),
        ("sao"@, ""@),
        ("rect"@, ""@),
        ("amp"@, ""@),
        ("rc-lookahead"@, "25"@),
        ("bframes"@, "4"@),
        ("b-adapt"@, "2"@),
        ("nr-intra"@, "0"@),
        ("nr-inter"@, "0"@),
        ("strong-intra-smoothing"@, ""@),
        ("constrained-intra"@, ""@),
    ]
}

/// Encoder defaults for HDR10 content.
pub fn hdr10_optimization_defaults_vec() -> (r: Vec<(String, String)>)
    ensures
        pairs_view(r@) == hdr10_optimization_defaults(),
{
    let mut v: Vec<(String, String)> = Vec::new();
    v.push(pair("psy-rd", "2.0"));
    v.push(pair("psy-rdoq", "1.0"));
    v.push(pair("rd", "4"));
    v.push(pair("me", "umh"));
    v.push(pair("subme", "3"));
    v.push(pair("aq-mode", "3"));
    v.push(pair("aq-strength", "0.8"));
    v.push(pair("deblock", "1,1"));
    v.push(pair("sao", ""));
    v.push(pair("rect", ""));
    v.push(pair("amp", ""));
    v.push(pair("rc-lookahead", "25"));
    v.push(pair("bframes", "4"));
    v.push(pair("b-adapt", "2"));
    v.push(pair("nr-intra", "0"));
    v.push(pair("nr-inter", "0"));
    v.push(pair("strong-intra-smoothing", ""));
    v.push(pair("constrained-intra", ""));
    assert(pairs_view(v@) =~= hdr10_optimization_defaults());
    v
}

/// Encoder defaults for HDR10+ content.
pub open spec fn hdr10_plus_optimization_defaults() -> ParamEntries {
    seq![
        ("psy-rd"@, "2.2"@),
        ("psy-rdoq"@, "1.2"@),
        ("rd"@, "4"@),
        ("me"@, "umh"@),
        ("subme"@, "4"@),
        ("aq-mode"@, "3"@),
        ("aq-strength"@, "0.9"@),
        ("deblock"@, "1,1"@),
        ("sao"@, ""@),
        ("rect"@, ""@),
        ("amp"@, ""@),
        ("rc-lookahead"@, "40"@),
        ("bframes"@, "6"@),
        ("b-adapt"@, "2"@),
        ("b-pyramid"@, ""@),
        ("nr-intra"@, "0"@),
        ("nr-inter"@, "0"@),
        ("strong-intra-smoothing"@, ""@),
        ("constrained-intra"@, ""@),
        ("weightb"@, ""@),
        ("weightp"@, "2"@),
        ("cutree"@, ""@),
        ("no-open-gop"@, ""@),
    ]
}

/// Encoder defaults for HDR10+ content.
pub fn hdr10_plus_optimization_defaults_vec() -> (r: Vec<(String, String)>)
    ensures
        pairs_view(r@) == hdr10_plus_optimization_defaults(),
{
    let mut v: Vec<(String, String)> = Vec::new();
    v.push(pair("psy-rd", "2.2"));
    v.push(pair("psy-rdoq", "1.2"));
    v.push(pair("rd", "4"));
    v.push(pair("me", "umh"));
    v.push(pair("subme", "4"));
    v.push(pair("aq-mode", "3"));
    v.push(pair("aq-strength", "0.9"));
    v.push(pair("deblock", "1,1"));
    v.push(pair("sao", ""));
    v.push(pair("rect", ""));
    v.push(pair("amp", ""));
    v.push(pair("rc-lookahead", "40"));
    v.push(pair("bframes", "6"));
    v.push(pair("b-adapt", "2"));
    v.push(pair("b-pyramid", ""));
    v.push(pair("nr-intra", "0"));
    v.push(pair("nr-inter", "0"));
    v.push(pair("strong-intra-smoothing", ""));
    v.push(pair("constrained-intra", ""));
    v.push(pair("weightb", ""));
    v.push(pair("weightp", "2"));
    v.push(pair("cutree", ""));
    v.push(pair("no-open-gop", ""));
    assert(pairs_view(v@) =~= hdr10_plus_optimization_defaults());
    v
}

/// Encoder defaults for HLG content.
pub open spec fn hlg_optimization_defaults() -> ParamEntries {
    seq![
        ("psy-rd"@, "1.8"@),
        ("psy-rdoq"@, "0.8"@),
        ("rd"@, "3"@),
        ("me"@, "hex"@),
        ("subme"@, "2"@),
        ("aq-mode"@, "2"@),
        ("aq-strength"@, "0.7"@),
        ("deblock"@, "0,0"@),
        ("sao"@, ""@),
        ("rect"@, ""@),
        ("rc-lookahead"@, "20"@),
        ("bframes"@, "3"@),
        ("b-adapt"@, "1"@),
        ("nr-intra"@, "0"@),
        ("nr-inter"@, "0"@),
        ("strong-intra-smoothing"@, ""@),
        ("weightp"@, "2"@),
        ("weightb"@, ""@),
        ("keyint"@, "250"@),
        ("min-keyint"@, "25"@),
        ("qcomp"@, "0.6"@),
        ("ip-ratio"@, "1.4"@),
        ("pb-ratio"@, "1.3"@),
        ("nr-intra"@, "0"@),
        ("nr-inter"@, "0"@),
        ("max-merge"@, "3"@),
        ("early-skip"@, ""@),
    ]
}

/// Encoder defaults for HLG content.
pub fn hlg_optimization_defaults_vec() -> (r: Vec<(String, String)>)
    ensures
        pairs_view(r@) == hlg_optimization_defaults(),
{
    let mut v: Vec<(String, String)> = Vec::new();
    v.push(pair("psy-rd", "1.8"));
    v.push(pair("psy-rdoq", "0.8"));
    v.push(pair("rd", "3"));
    v.push(pair("me", "hex"));
    v.push(pair("subme", "2"));
    v.push(pair("aq-mode", "2"));
    v.push(pair("aq-strength", "0.7"));
    v.push(pair("deblock", "0,0"));
    v.push(pair("sao", ""));
    v.push(pair("rect", ""));
    v.push(pair("rc-lookahead", "20"));
    v.push(pair("bframes", "3"));
    v.push(pair("b-adapt", "1"));
    v.push(pair("nr-intra", "0"));
    v.push(pair("nr-inter", "0"));
    v.push(pair("strong-intra-smoothing", ""));
    v.push(pair("weightp", "2"));
    v.push(pair("weightb", ""));
    v.push(pair("keyint", "250"));
    v.push(pair("min-keyint", "25"));
    v.push(pair("qcomp", "0.6"));
    v.push(pair("ip-ratio", "1.4"));
    v.push(pair("pb-ratio", "1.3"));
    v.push(pair("nr-intra", "0"));
    v.push(pair("nr-inter", "0"));
    v.push(pair("max-merge", "3"));
    v.push(pair("early-skip", ""));
    assert(pairs_view(v@) =~= hlg_optimization_defaults());
    v
}

/// The mastering display of the stock HDR10 metadata, as x265 takes it.
pub open spec fn default_master_display_text() -> Seq<char> {
    "G(0.1700,0.7970)B(0.1310,0.0460)R(0.7080,0.2920)WP(0.3127,0.3290)L(1000,0.0100)"@
}

/// The mastering display of the stock HDR10 metadata, as x265 takes it.
pub fn default_master_display() -> (r: String)
    ensures
        r@ == default_master_display_text(),
{
    owned("G(0.1700,0.7970)B(0.1310,0.0460)R(0.7080,0.2920)WP(0.3127,0.3290)L(1000,0.0100)")
}

/// The options shared by HDR10 and HDR10+: PQ colours, the mastering
/// display (the stock one where none is given), the light level (1000,400
/// where none is given), the HDR flags and 10-bit output.
pub open spec fn pq_base_params(
    base: ParamEntries,
    master_display: Option<Seq<char>>,
    cll: Option<ContentLightLevelInfo>,
) -> ParamEntries {
    let a = pm_insert_all(base, pq_color_entries());
    let b = pm_insert(
        a,
        "master-display"@,
        match master_display {
            Some(m) => m,
            None => default_master_display_text(),
        },
    );
    let c = pm_insert(
        b,
        "max-cll"@,
        match cll {
            Some(x) => content_light_level_text(x),
            None => "1000,400"@,
        },
    );
    pm_insert_all(c, pq_flag_entries())
}

/// The options of HLG content before the encoder defaults.
pub open spec fn hlg_base_params(
    base: ParamEntries,
    master_display: Option<Seq<char>>,
    cll: Option<ContentLightLevelInfo>,
) -> ParamEntries {
    let a = pm_insert_all(base, hlg_color_entries());
    let b = match master_display {
        Some(m) => pm_insert(a, "master-display"@, m),
        None => a,
    };
    let c = match cll {
        Some(x) => pm_insert(b, "max-cll"@, content_light_level_text(x)),
        None => b,
    };
    pm_insert(c, "output-depth"@, "10"@)
}

/// The characters of an optional string.
pub open spec fn opt_text(o: Option<String>) -> Option<Seq<char>> {
    match o {
        Some(s) => Some(s@),
        None => None,
    }
}

/// How `{:?}` prints an HDR format.
pub open spec fn hdr_format_debug_text(f: HdrFormat) -> Seq<char> {
    match f {
        HdrFormat::Sdr => "None"@,
        HdrFormat::HDR10 => "HDR10"@,
        HdrFormat::HDR10Plus => "HDR10Plus"@,
        HdrFormat::HLG => "HLG"@,
    }
}

/// How `{:?}` prints an HDR format.
pub fn hdr_format_debug(f: HdrFormat) -> (r: String)
    ensures
        r@ == hdr_format_debug_text(f),
{
    match f {
        HdrFormat::Sdr => owned("None"),
        HdrFormat::HDR10 => owned("HDR10"),
        HdrFormat::HDR10Plus => owned("HDR10Plus"),
        HdrFormat::HLG => owned("HLG"),
    }
}

/// What the checks read of a mastering display: the integer peak
/// luminance, and the outcome of the floating-point checks with the
/// numbers as `{}` prints them.
pub struct MasteringDisplaySummary {
    /// Peak luminance in nits.
    pub max_luminance: u32,
    /// The minimum luminance as `{}` prints it.
    pub min_luminance_text: String,
    /// Whether the minimum luminance lies in [0.0001, 1.0].
    pub min_luminance_in_range: bool,
    /// The first chromaticity coordinate outside [0.0, 1.0], in the order
    /// red x, red y, green x, green y, blue x, blue y, white x, white y:
    /// its position and its value as `{}` prints it.
    pub first_bad_coordinate: Option<(u32, String)>,
}

/// The outcome of an HDR10 (`plus == false`) or HDR10+ metadata check.
pub open spec fn pq_metadata_outcome(
    plus: bool,
    format: HdrFormat,
    transfer: TransferFunction,
    color_space: ColorSpace,
    md: Option<(u32, Seq<char>, bool, Option<(u32, Seq<char>)>)>,
    cll: Option<ContentLightLevelInfo>,
) -> core::result::Result<(), Seq<char>> {
    let label = if plus { "HDR10+"@ } else { "HDR10"@ };
    let expected = if plus { HdrFormat::HDR10Plus } else { HdrFormat::HDR10 };
    if format != expected {
        Err("Expected "@ + label + " format, got "@ + hdr_format_debug_text(format))
    } else if transfer != TransferFunction::Smpte2084 {
        Err(label + " requires SMPTE-2084 (PQ) transfer function"@)
    } else if color_space != ColorSpace::Bt2020 {
        Err(label + " requires BT.2020 color space"@)
    } else if md is Some && (md.unwrap().0 < 100 || md.unwrap().0 > 10000) {
        Err(label + " max luminance "@ + decimal(md.unwrap().0 as nat)
            + " out of typical range [100, 10000] nits"@)
    } else if md is Some && !md.unwrap().2 {
        Err(label + " min luminance "@ + md.unwrap().1 + " out of typical range [0.0001, 1.0] nits"@)
    } else if !plus && md is Some && md.unwrap().3 is Some {
        Err(label + " chromaticity coordinate "@ + decimal(md.unwrap().3.unwrap().0 as nat)
            + " out of range [0.0, 1.0]: "@ + md.unwrap().3.unwrap().1)
    } else if cll is Some && (cll.unwrap().max_cll == 0 || cll.unwrap().max_cll > 10000) {
        Err(label + " max CLL "@ + decimal(cll.unwrap().max_cll as nat)
            + " out of typical range [1, 10000] nits"@)
    } else if cll is Some && (cll.unwrap().max_fall == 0 || cll.unwrap().max_fall
        > cll.unwrap().max_cll) {
        Err(label + " max FALL "@ + decimal(cll.unwrap().max_fall as nat)
            + " invalid (must be > 0 and <= max CLL "@ + decimal(cll.unwrap().max_cll as nat)
            + ")"@)
    } else {
        Ok(())
    }
}

/// The outcome of an HLG metadata check (peak luminance and CLL outside
/// their typical ranges are only worth a warning).
pub open spec fn hlg_metadata_outcome(
    format: HdrFormat,
    transfer: TransferFunction,
    color_space: ColorSpace,
    md: Option<(u32, Seq<char>, bool, Option<(u32, Seq<char>)>)>,
    cll: Option<ContentLightLevelInfo>,
) -> core::result::Result<(), Seq<char>> {
    if format != HdrFormat::HLG {
        Err("Expected HLG format, got "@ + hdr_format_debug_text(format))
    } else if transfer != TransferFunction::AribStdB67 {
        Err("HLG requires ARIB STD-B67 transfer function"@)
    } else if color_space != ColorSpace::Bt2020 {
        Err("HLG requires BT.2020 color space"@)
    } else if md is Some && !md.unwrap().2 {
        Err("HLG min luminance "@ + md.unwrap().1 + " out of valid range [0.0001, 1.0] nits"@)
    } else if md is Some && md.unwrap().3 is Some {
        Err("HLG chromaticity coordinate "@ + decimal(md.unwrap().3.unwrap().0 as nat)
            + " out of range [0.0, 1.0]: "@ + md.unwrap().3.unwrap().1)
    } else if cll is Some && (cll.unwrap().max_fall == 0 || cll.unwrap().max_fall
        > cll.unwrap().max_cll) {
        Err("HLG max FALL "@ + decimal(cll.unwrap().max_fall as nat)
            + " invalid (must be > 0 and <= max CLL "@ + decimal(cll.unwrap().max_cll as nat)
            + ")"@)
    } else {
        Ok(())
    }
}

/// A mastering display summary as plain values.
pub open spec fn summary_view(m: Option<&MasteringDisplaySummary>) -> Option<
    (u32, Seq<char>, bool, Option<(u32, Seq<char>)>),
> {
    match m {
        Some(x) => Some(
            (
                x.max_luminance,
                x.min_luminance_text@,
                x.min_luminance_in_range,
                match x.first_bad_coordinate {
                    Some(c) => Some((c.0, c.1@)),
                    None => None,
                },
            ),
        ),
        None => None,
    }
}

/// The shared PQ checks; `plus` selects the HDR10+ wording and skips the
/// chromaticity check.
fn check_pq_metadata(
    plus: bool,
    format: HdrFormat,
    transfer: TransferFunction,
    color_space: ColorSpace,
    md: Option<&MasteringDisplaySummary>,
    cll: Option<&ContentLightLevelInfo>,
) -> (r: core::result::Result<(), String>)
    ensures
        match pq_metadata_outcome(
            plus,
            format,
            transfer,
            color_space,
            summary_view(md),
            match cll {
                Some(c) => Some(*c),
                None => None,
            },
        ) {
            Ok(()) => r is Ok,
            Err(m) => r matches Err(e) && e@ == m,
        },
{
    let label = if plus { "HDR10+" } else { "HDR10" };
    let expected = if plus { HdrFormat::HDR10Plus } else { HdrFormat::HDR10 };
    if format != expected {
        let got = hdr_format_debug(format);
        let head = concat3("Expected ", label, " format, got ");
        return Err(concat(head.as_str(), got.as_str()));
    }
    if transfer != TransferFunction::Smpte2084 {
        return Err(concat(label, " requires SMPTE-2084 (PQ) transfer function"));
    }
    if color_space != ColorSpace::Bt2020 {
        return Err(concat(label, " requires BT.2020 color space"));
    }
    if let Some(m) = md {
        if m.max_luminance < 100 || m.max_luminance > 10000 {
            let n = u64_to_string(m.max_luminance as u64);
            let head = concat3(label, " max luminance ", n.as_str());
            return Err(concat(head.as_str(), " out of typical range [100, 10000] nits"));
        }
        if !m.min_luminance_in_range {
            let head = concat3(label, " min luminance ", m.min_luminance_text.as_str());
            return Err(concat(head.as_str(), " out of typical range [0.0001, 1.0] nits"));
        }
        if !plus {
            if let Some(c) = &m.first_bad_coordinate {
                let n = u64_to_string(c.0 as u64);
                let head = concat3(label, " chromaticity coordinate ", n.as_str());
                let mid = concat(head.as_str(), " out of range [0.0, 1.0]: ");
                return Err(concat(mid.as_str(), c.1.as_str()));
            }
        }
    }
    if let Some(c) = cll {
        if c.max_cll == 0 || c.max_cll > 10000 {
            let n = u64_to_string(c.max_cll as u64);
            let head = concat3(label, " max CLL ", n.as_str());
            return Err(concat(head.as_str(), " out of typical range [1, 10000] nits"));
        }
        if c.max_fall == 0 || c.max_fall > c.max_cll {
            let f = u64_to_string(c.max_fall as u64);
            let x = u64_to_string(c.max_cll as u64);
            let head = concat3(label, " max FALL ", f.as_str());
            let mid = concat3(head.as_str(), " invalid (must be > 0 and <= max CLL ", x.as_str());
            return Err(concat(mid.as_str(), ")"));
        }
    }
    Ok(())
}

/// Options and checks for HDR10 (static PQ metadata).
pub struct Hdr10Handler;

impl Hdr10Handler {
    pub fn new() -> (r: Self) {
        Hdr10Handler
    }

    /// The format this handler serves.
    pub fn format(&self) -> (r: HdrFormat)
        ensures
            r == HdrFormat::HDR10,
    {
        HdrFormat::HDR10
    }

    /// The encoder options for HDR10: the base options with the PQ colour
    /// options, mastering display (formatted for x265; the stock display
    /// where `None`), light level, HDR flags and 10-bit output set, then
    /// the HDR10 defaults added where the key is absent.
    pub fn build_encoding_params(
        &self,
        master_display: Option<String>,
        cll: Option<&ContentLightLevelInfo>,
        base_params: &ParamMap,
    ) -> (r: ParamMap)
        ensures
            r@ == pm_or_insert_all(
                pq_base_params(
                    base_params@,
                    opt_text(master_display),
                    match cll {
                        Some(c) => Some(*c),
                        None => None,
                    },
                ),
                hdr10_optimization_defaults(),
            ),
    {
        let mut params = add_pq_base_params(master_display, cll, base_params);
        self.add_hdr10_optimizations(&mut params);
        params
    }

    /// Checks HDR10 metadata.
    pub fn validate_metadata(
        &self,
        format: HdrFormat,
        transfer: TransferFunction,
        color_space: ColorSpace,
        master_display: Option<&MasteringDisplaySummary>,
        cll: Option<&ContentLightLevelInfo>,
    ) -> (r: core::result::Result<(), String>)
        ensures
            match pq_metadata_outcome(
                false,
                format,
                transfer,
                color_space,
                summary_view(master_display),
                match cll {
                    Some(c) => Some(*c),
                    None => None,
                },
            ) {
                Ok(()) => r is Ok,
                Err(m) => r matches Err(e) && e@ == m,
            },
    {
        check_pq_metadata(false, format, transfer, color_space, master_display, cll)
    }

    /// Adds the HDR10 encoder defaults where the key is absent.
    pub fn add_hdr10_optimizations(&self, params: &mut ParamMap)
        ensures
            final(params)@ == pm_or_insert_all(old(params)@, hdr10_optimization_defaults()),
    {
        let d = hdr10_optimization_defaults_vec();
        params.or_insert_all(&d);
    }
}

/// The options shared by HDR10 and HDR10+.
fn add_pq_base_params(
    master_display: Option<String>,
    cll: Option<&ContentLightLevelInfo>,
    base_params: &ParamMap,
) -> (r: ParamMap)
    ensures
        r@ == pq_base_params(
            base_params@,
            opt_text(master_display),
            match cll {
                Some(c) => Some(*c),
                None => None,
            },
        ),
{
    let mut params = base_params.copy();
    let colors = pq_color_entries_vec();
    params.insert_all(&colors);
    let md = match master_display {
        Some(m) => m,
        None => default_master_display(),
    };
    params.insert(owned("master-display"), md);
    let level = match cll {
        Some(c) => HdrMetadataExtractor::format_content_light_level_for_x265(c),
        None => owned("1000,400"),
    };
    params.insert(owned("max-cll"), level);
    let flags = pq_flag_entries_vec();
    params.insert_all(&flags);
    params
}

/// Options and checks for HDR10+ (dynamic PQ metadata; only the static
/// part reaches the encoder).
pub struct Hdr10PlusHandler;

impl Hdr10PlusHandler {
    pub fn new() -> (r: Self) {
        Hdr10PlusHandler
    }

    /// The format this handler serves.
    pub fn format(&self) -> (r: HdrFormat)
        ensures
            r == HdrFormat::HDR10Plus,
    {
        HdrFormat::HDR10Plus
    }

    /// The encoder options for HDR10+: the HDR10 base options, then the
    /// HDR10+ defaults added where the key is absent.
    pub fn build_encoding_params(
        &self,
        master_display: Option<String>,
        cll: Option<&ContentLightLevelInfo>,
        base_params: &ParamMap,
    ) -> (r: ParamMap)
        ensures
            r@ == pm_or_insert_all(
                pq_base_params(
                    base_params@,
                    opt_text(master_display),
                    match cll {
                        Some(c) => Some(*c),
                        None => None,
                    },
                ),
                hdr10_plus_optimization_defaults(),
            ),
    {
        let mut params = add_pq_base_params(master_display, cll, base_params);
        self.add_hdr10_plus_optimizations(&mut params);
        params
    }

    /// Checks HDR10+ metadata.
    pub fn validate_metadata(
        &self,
        format: HdrFormat,
        transfer: TransferFunction,
        color_space: ColorSpace,
        master_display: Option<&MasteringDisplaySummary>,
        cll: Option<&ContentLightLevelInfo>,
    ) -> (r: core::result::Result<(), String>)
        ensures
            match pq_metadata_outcome(
                true,
                format,
                transfer,
                color_space,
                summary_view(master_display),
                match cll {
                    Some(c) => Some(*c),
                    None => None,
                },
            ) {
                Ok(()) => r is Ok,
                Err(m) => r matches Err(e) && e@ == m,
            },
    {
        check_pq_metadata(true, format, transfer, color_space, master_display, cll)
    }

    /// Adds the HDR10+ encoder defaults where the key is absent.
    pub fn add_hdr10_plus_optimizations(&self, params: &mut ParamMap)
        ensures
            final(params)@ == pm_or_insert_all(old(params)@, hdr10_plus_optimization_defaults()),
    {
        let d = hdr10_plus_optimization_defaults_vec();
        params.or_insert_all(&d);
    }
}

/// Options and checks for HLG (hybrid log-gamma).
pub struct HlgHandler;

impl HlgHandler {
    pub fn new() -> (r: Self) {
        HlgHandler
    }

    /// The format this handler serves.
    pub fn format(&self) -> (r: HdrFormat)
        ensures
            r == HdrFormat::HLG,
    {
        HdrFormat::HLG
    }

    /// The encoder options for HLG: the HLG colour options, the mastering
    /// display and light level where given, 10-bit output, then the HLG
    /// defaults added where the key is absent.
    pub fn build_encoding_params(
        &self,
        master_display: Option<String>,
        cll: Option<&ContentLightLevelInfo>,
        base_params: &ParamMap,
    ) -> (r: ParamMap)
        ensures
            r@ == pm_or_insert_all(
                hlg_base_params(
                    base_params@,
                    opt_text(master_display),
                    match cll {
                        Some(c) => Some(*c),
                        None => None,
                    },
                ),
                hlg_optimization_defaults(),
            ),
    {
        let mut params = base_params.copy();
        let colors = hlg_color_entries_vec();
        params.insert_all(&colors);
        if let Some(m) = master_display {
            params.insert(owned("master-display"), m);
        }
        if let Some(c) = cll {
            params.insert(
                owned("max-cll"),
                HdrMetadataExtractor::format_content_light_level_for_x265(c),
            );
        }
        params.insert(owned("output-depth"), owned("10"));
        self.add_hlg_optimizations(&mut params);
        params
    }

    /// Checks HLG metadata.
    pub fn validate_metadata(
        &self,
        format: HdrFormat,
        transfer: TransferFunction,
        color_space: ColorSpace,
        master_display: Option<&MasteringDisplaySummary>,
        cll: Option<&ContentLightLevelInfo>,
    ) -> (r: core::result::Result<(), String>)
        ensures
            match hlg_metadata_outcome(
                format,
                transfer,
                color_space,
                summary_view(master_display),
                match cll {
                    Some(c) => Some(*c),
                    None => None,
                },
            ) {
                Ok(()) => r is Ok,
                Err(m) => r matches Err(e) && e@ == m,
            },
    {
        if format != HdrFormat::HLG {
            let got = hdr_format_debug(format);
            return Err(concat("Expected HLG format, got ", got.as_str()));
        }
        if transfer != TransferFunction::AribStdB67 {
            return Err(owned("HLG requires ARIB STD-B67 transfer function"));
        }
        if color_space != ColorSpace::Bt2020 {
            return Err(owned("HLG requires BT.2020 color space"));
        }
        if let Some(m) = master_display {
            if !m.min_luminance_in_range {
                let head = concat("HLG min luminance ", m.min_luminance_text.as_str());
                return Err(concat(head.as_str(), " out of valid range [0.0001, 1.0] nits"));
            }
            if let Some(c) = &m.first_bad_coordinate {
                let n = u64_to_string(c.0 as u64);
                let head = concat3("HLG chromaticity coordinate ", n.as_str(), " out of range [0.0, 1.0]: ");
                return Err(concat(head.as_str(), c.1.as_str()));
            }
        }
        if let Some(c) = cll {
            if c.max_fall == 0 || c.max_fall > c.max_cll {
                let f = u64_to_string(c.max_fall as u64);
                let x = u64_to_string(c.max_cll as u64);
                let head = concat3("HLG max FALL ", f.as_str(), " invalid (must be > 0 and <= max CLL ");
                let mid = concat(head.as_str(), x.as_str());
                return Err(concat(mid.as_str(), ")"));
            }
        }
        Ok(())
    }

    /// Adds the HLG encoder defaults where the key is absent.
    pub fn add_hlg_optimizations(&self, params: &mut ParamMap)
        ensures
            final(params)@ == pm_or_insert_all(old(params)@, hlg_optimization_defaults()),
    {
        let d = hlg_optimization_defaults_vec();
        params.or_insert_all(&d);
    }
}

/// Adding the HLG defaults never changes or removes a value already set:
/// a key set before keeps its value, a default key that was absent gets its
/// default, and no other key appears.
pub proof fn law_hlg_defaults_keep_existing(old: ParamEntries, k: Seq<char>)
    requires
        keys_distinct(old),
    ensures
        pm_get(pm_or_insert_all(old, hlg_optimization_defaults()), k) == (if pm_has(old, k) {
            pm_get(old, k)
        } else {
            pm_first(hlg_optimization_defaults(), k)
        }),
{
    law_get_after_or_insert_all(old, hlg_optimization_defaults(), k);
}

} // verus!
