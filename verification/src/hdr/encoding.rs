//! x265 options for HDR content, by format, and their consistency check.

use vstd::prelude::*;
use crate::hdr::formats::{
    default_master_display, default_master_display_text, hlg_color_entries, hlg_color_entries_vec,
    opt_text, pq_color_entries, pq_color_entries_vec,
};
use crate::hdr::metadata::{content_light_level_text, HdrMetadataExtractor};
use crate::hdr::types::{ContentLightLevelInfo, HdrFormat};
use crate::params::{
    cli_entry_text, cli_params_text, pair, pairs_view, pm_get, pm_has, pm_insert, pm_insert_all, pm_or_insert,
    pm_or_insert_all, pm_remove_all, ParamEntries, ParamMap,
};
use crate::text::{lemma_split_join, owned, split_char, str_eq, strings_view};

verus! {

/// Encoder defaults for PQ content.
pub open spec fn hdr_encoding_defaults() -> ParamEntries {
    seq![
        ("psy-rd"@, "2.0"@),
        ("psy-rdoq"@, "1.0"@),
        ("rd"@, "4"@),
        ("me"@, "umh"@),
        ("subme"@, "3"@),
        ("aq-mode"@, "3"@),
        ("aq-strength"@, "0.8"@),
        ("deblock"@, "1,1"@),
        ("sao"@, ""@),
        ("rect"@, ""@),
        ("amp"@, ""@),
    ]
}

/// Encoder defaults for PQ content.
pub fn hdr_encoding_defaults_vec() -> (r: Vec<(String, String)>)
    ensures
        pairs_view(r@) == hdr_encoding_defaults(),
{
    let mut v: Vec<(String, String)> = Vec::new();
    v.push(pair("psy-rd", "2.0"));
    v.push(pair("psy-rdoq", "1.0"));
    v.push(pair("rd", "4"));
    v.push(pair("me", "umh"));
    v.push(pair("subme", "3"));
    v.push(pair("aq-mode", "3"));
    v.push(pair("aq-strength", "0.8"));
    v.push(pair("deblock", "1,1"));
    v.push(pair("sao", ""));
    v.push(pair("rect", ""));
    v.push(pair("amp", ""));
    assert(pairs_view(v@) =~= hdr_encoding_defaults());
    v
}

/// Encoder defaults for HLG content.
pub open spec fn hlg_encoding_defaults() -> ParamEntries {
    seq![
        ("psy-rd"@, "1.8"@),
        ("psy-rdoq"@, "0.8"@),
        ("rd"@, "4"@),
        ("me"@, "umh"@),
        ("subme"@, "3"@),
        ("aq-mode"@, "2"@),
        ("aq-strength"@, "0.7"@),
        ("deblock"@, "0,0"@),
        ("sao"@, ""@),
    ]
}

/// Encoder defaults for HLG content.
pub fn hlg_encoding_defaults_vec() -> (r: Vec<(String, String)>)
    ensures
        pairs_view(r@) == hlg_encoding_defaults(),
{
    let mut v: Vec<(String, String)> = Vec::new();
    v.push(pair("psy-rd", "1.8"));
    v.push(pair("psy-rdoq", "0.8"));
    v.push(pair("rd", "4"));
    v.push(pair("me", "umh"));
    v.push(pair("subme", "3"));
    v.push(pair("aq-mode", "2"));
    v.push(pair("aq-strength", "0.7"));
    v.push(pair("deblock", "0,0"));
    v.push(pair("sao", ""));
    assert(pairs_view(v@) =~= hlg_encoding_defaults());
    v
}

/// The HDR flags of PQ content.
pub open spec fn hdr_flag_entries() -> ParamEntries {
    seq![
        ("hdr"@, ""@),
        ("hdr-opt"@, ""@),
    ]
}

/// The HDR flags of PQ content.
pub fn hdr_flag_entries_vec() -> (r: Vec<(String, String)>)
    ensures
        pairs_view(r@) == hdr_flag_entries(),
{
    let mut v: Vec<(String, String)> = Vec::new();
    v.push(pair("hdr", ""));
    v.push(pair("hdr-opt", ""));
    assert(pairs_view(v@) =~= hdr_flag_entries());
    v
}

/// The colour options of SDR content.
pub open spec fn sdr_color_entries() -> ParamEntries {
    seq![
        ("colorprim"@, "bt709"@),
        ("transfer"@, "bt709"@),
        ("colormatrix"@, "bt709"@),
    ]
}

/// The colour options of SDR content.
pub fn sdr_color_entries_vec() -> (r: Vec<(String, String)>)
    ensures
        pairs_view(r@) == sdr_color_entries(),
{
    let mut v: Vec<(String, String)> = Vec::new();
    v.push(pair("colorprim", "bt709"));
    v.push(pair("transfer", "bt709"));
    v.push(pair("colormatrix", "bt709"));
    assert(pairs_view(v@) =~= sdr_color_entries());
    v
}

/// The psychovisual options forced for HDR10+ content.
pub open spec fn hdr10_plus_psy_entries() -> ParamEntries {
    seq![
        ("psy-rd"@, "2.0"@),
        ("psy-rdoq"@, "1.0"@),
    ]
}

/// The psychovisual options forced for HDR10+ content.
pub fn hdr10_plus_psy_entries_vec() -> (r: Vec<(String, String)>)
    ensures
        pairs_view(r@) == hdr10_plus_psy_entries(),
{
    let mut v: Vec<(String, String)> = Vec::new();
    v.push(pair("psy-rd", "2.0"));
    v.push(pair("psy-rdoq", "1.0"));
    assert(pairs_view(v@) =~= hdr10_plus_psy_entries());
    v
}

/// The keys SDR output drops.
pub open spec fn sdr_removed_keys() -> Seq<Seq<char>> {
    seq!["master-display"@, "max-cll"@, "hdr"@, "hdr-opt"@, "dhdr10-opt"@]
}

fn sdr_removed_keys_vec() -> (r: Vec<String>)
    ensures
        strings_view(r@) == sdr_removed_keys(),
{
    let mut v: Vec<String> = Vec::new();
    v.push(owned("master-display"));
    v.push(owned("max-cll"));
    v.push(owned("hdr"));
    v.push(owned("hdr-opt"));
    v.push(owned("dhdr10-opt"));
    assert(strings_view(v@) =~= sdr_removed_keys());
    v
}

/// SDR options: the HDR keys dropped, BT.709 colours, 8-bit output unless
/// a depth is set.
pub open spec fn sdr_params(base: ParamEntries) -> ParamEntries {
    let a = pm_remove_all(base, sdr_removed_keys());
    let b = pm_insert_all(a, sdr_color_entries());
    pm_or_insert(b, "output-depth"@, "8"@)
}

/// HDR10 options: PQ colours, mastering display (stock where `None`),
/// light level (stock where `None`), HDR flags, 10-bit output unless a
/// depth is set, then the PQ encoder defaults where absent.
pub open spec fn hdr10_builder_params(
    base: ParamEntries,
    md: Option<Seq<char>>,
    cll: Option<ContentLightLevelInfo>,
) -> ParamEntries {
    let a = pm_insert_all(base, pq_color_entries());
    let b = pm_insert(
        a,
        "master-display"@,
        match md {
            Some(m) => m,
            None => default_master_display_text(),
        },
    );
    let c = pm_insert(
        b,
        "max-cll"@,
        match cll {
            Some(x) => content_light_level_text(x),
            None => "1000,400"@,
        },
    );
    let d = pm_insert_all(c, hdr_flag_entries());
    let e = pm_or_insert(d, "output-depth"@, "10"@);
    pm_or_insert_all(e, hdr_encoding_defaults())
}

/// HLG options: HLG colours, mastering display and light level where
/// given, 10-bit output unless a depth is set, then the HLG encoder
/// defaults where absent.
pub open spec fn hlg_builder_params(
    base: ParamEntries,
    md: Option<Seq<char>>,
    cll: Option<ContentLightLevelInfo>,
) -> ParamEntries {
    let a = pm_insert_all(base, hlg_color_entries());
    let b = match md {
        Some(m) => pm_insert(a, "master-display"@, m),
        None => a,
    };
    let c = match cll {
        Some(x) => pm_insert(b, "max-cll"@, content_light_level_text(x)),
        None => b,
    };
    let d = pm_or_insert(c, "output-depth"@, "10"@);
    pm_or_insert_all(d, hlg_encoding_defaults())
}

/// The options for content of the given HDR format.
pub open spec fn hdr_builder_params(
    format: HdrFormat,
    base: ParamEntries,
    md: Option<Seq<char>>,
    cll: Option<ContentLightLevelInfo>,
) -> ParamEntries {
    match format {
        HdrFormat::Sdr => sdr_params(base),
        HdrFormat::HDR10 => hdr10_builder_params(base, md, cll),
        HdrFormat::HDR10Plus => pm_insert_all(
            hdr10_builder_params(base, md, cll),
            hdr10_plus_psy_entries(),
        ),
        HdrFormat::HLG => hlg_builder_params(base, md, cll),
    }
}

/// The first inconsistency of a parameter map with an HDR format.
pub open spec fn hdr_params_problem(s: ParamEntries, format: HdrFormat) -> Option<Seq<char>> {
    match format {
        HdrFormat::Sdr => if pm_has(s, "master-display"@) || pm_has(s, "max-cll"@) {
            Some("SDR encoding should not include HDR metadata parameters"@)
        } else {
            None
        },
        HdrFormat::HDR10 | HdrFormat::HDR10Plus => if !pm_has(s, "master-display"@) {
            Some("HDR10 encoding requires master-display parameter"@)
        } else if pm_get(s, "colorprim"@) is Some && pm_get(s, "colorprim"@) != Some("bt2020"@) {
            Some("HDR10 encoding requires bt2020 color primaries"@)
        } else if pm_get(s, "transfer"@) is Some && pm_get(s, "transfer"@) != Some(
            "smpte2084"@,
        ) {
            Some("HDR10 encoding requires smpte2084 transfer function"@)
        } else if pm_get(s, "output-depth"@) is Some && pm_get(s, "output-depth"@) != Some("10"@)
            && pm_get(s, "output-depth"@) != Some("12"@) {
            Some("HDR encoding requires at least 10-bit depth"@)
        } else {
            None
        },
        HdrFormat::HLG => if pm_get(s, "transfer"@) is Some && pm_get(s, "transfer"@) != Some(
            "arib-std-b67"@,
        ) {
            Some("HLG encoding requires arib-std-b67 transfer function"@)
        } else if pm_get(s, "colorprim"@) is Some && pm_get(s, "colorprim"@) != Some("bt2020"@) {
            Some("HLG encoding requires bt2020 color primaries"@)
        } else {
            None
        },
    }
}

/// Builds x265 options for HDR content.
pub struct HdrEncodingParameterBuilder;

impl HdrEncodingParameterBuilder {
    pub fn new() -> (r: Self) {
        HdrEncodingParameterBuilder
    }

    /// The options for content of the given format. `master_display` is
    /// the mastering display formatted for x265, `cll` the content light
    /// level, each `None` where the metadata has none.
    pub fn build_hdr_x265_params(
        &self,
        format: HdrFormat,
        master_display: Option<String>,
        cll: Option<&ContentLightLevelInfo>,
        base_params: &ParamMap,
    ) -> (r: ParamMap)
        ensures
            r@ == hdr_builder_params(
                format,
                base_params@,
                opt_text(master_display),
                match cll {
                    Some(c) => Some(*c),
                    None => None,
                },
            ),
    {
        let mut params = base_params.copy();
        match format {
            HdrFormat::Sdr => self.ensure_sdr_params(&mut params),
            HdrFormat::HDR10 => self.add_hdr10_params(&mut params, master_display, cll),
            HdrFormat::HDR10Plus => self.add_hdr10_plus_params(&mut params, master_display, cll),
            HdrFormat::HLG => self.add_hlg_params(&mut params, master_display, cll),
        }
        params
    }

    fn add_hdr10_params(
        &self,
        params: &mut ParamMap,
        master_display: Option<String>,
        cll: Option<&ContentLightLevelInfo>,
    )
        ensures
            final(params)@ == hdr10_builder_params(
                old(params)@,
                opt_text(master_display),
                match cll {
                    Some(c) => Some(*c),
                    None => None,
                },
            ),
    {
        let colors = pq_color_entries_vec();
        params.insert_all(&colors);
        let md = match master_display {
            Some(m) => m,
            None => default_master_display(),
        };
        params.insert(owned("master-display"), md);
        let level = match cll {
            Some(c) => HdrMetadataExtractor::format_content_light_level_for_x265(c),
            None => owned("1000,400"),
        };
        params.insert(owned("max-cll"), level);
        let flags = hdr_flag_entries_vec();
        params.insert_all(&flags);
        params.or_insert(owned("output-depth"), owned("10"));
        self.add_hdr_encoding_optimizations(params);
    }

    fn add_hdr10_plus_params(
        &self,
        params: &mut ParamMap,
        master_display: Option<String>,
        cll: Option<&ContentLightLevelInfo>,
    )
        ensures
            final(params)@ == pm_insert_all(
                hdr10_builder_params(
                    old(params)@,
                    opt_text(master_display),
                    match cll {
                        Some(c) => Some(*c),
                        None => None,
                    },
                ),
                hdr10_plus_psy_entries(),
            ),
    {
        self.add_hdr10_params(params, master_display, cll);
        let psy = hdr10_plus_psy_entries_vec();
        params.insert_all(&psy);
    }

    fn add_hlg_params(
        &self,
        params: &mut ParamMap,
        master_display: Option<String>,
        cll: Option<&ContentLightLevelInfo>,
    )
        ensures
            final(params)@ == hlg_builder_params(
                old(params)@,
                opt_text(master_display),
                match cll {
                    Some(c) => Some(*c),
                    None => None,
                },
            ),
    {
        let colors = hlg_color_entries_vec();
        params.insert_all(&colors);
        if let Some(m) = master_display {
            params.insert(owned("master-display"), m);
        }
        if let Some(c) = cll {
            params.insert(
                owned("max-cll"),
                HdrMetadataExtractor::format_content_light_level_for_x265(c),
            );
        }
        params.or_insert(owned("output-depth"), owned("10"));
        self.add_hlg_encoding_optimizations(params);
    }

    fn ensure_sdr_params(&self, params: &mut ParamMap)
        ensures
            final(params)@ == sdr_params(old(params)@),
    {
        let keys = sdr_removed_keys_vec();
        params.remove_all(&keys);
        let colors = sdr_color_entries_vec();
        params.insert_all(&colors);
        params.or_insert(owned("output-depth"), owned("8"));
    }

    fn add_hdr_encoding_optimizations(&self, params: &mut ParamMap)
        ensures
            final(params)@ == pm_or_insert_all(old(params)@, hdr_encoding_defaults()),
    {
        let d = hdr_encoding_defaults_vec();
        params.or_insert_all(&d);
    }

    fn add_hlg_encoding_optimizations(&self, params: &mut ParamMap)
        ensures
            final(params)@ == pm_or_insert_all(old(params)@, hlg_encoding_defaults()),
    {
        let d = hlg_encoding_defaults_vec();
        params.or_insert_all(&d);
    }

    /// Checks that a parameter map suits the HDR format: no HDR metadata
    /// for SDR; a mastering display, BT.2020 primaries, PQ transfer and 10
    /// or 12 bits (where set) for HDR10 and HDR10+; HLG transfer and BT.2020
    /// primaries (where set) for HLG.
    pub fn validate_hdr_encoding_params(params: &ParamMap, hdr_format: HdrFormat) -> (r:
        core::result::Result<(), String>)
        ensures
            match hdr_params_problem(params@, hdr_format) {
                Some(m) => r matches Err(e) && e@ == m,
                None => r is Ok,
            },
    {
        match hdr_format {
            HdrFormat::Sdr => {
                if params.contains_key("master-display") || params.contains_key("max-cll") {
                    return Err(owned("SDR encoding should not include HDR metadata parameters"));
                }
            },
            HdrFormat::HDR10 | HdrFormat::HDR10Plus => {
                if !params.contains_key("master-display") {
                    return Err(owned("HDR10 encoding requires master-display parameter"));
                }
                if let Some(c) = params.get("colorprim") {
                    if !str_eq(c.as_str(), "bt2020") {
                        return Err(owned("HDR10 encoding requires bt2020 color primaries"));
                    }
                }
                if let Some(t) = params.get("transfer") {
                    if !str_eq(t.as_str(), "smpte2084") {
                        return Err(owned("HDR10 encoding requires smpte2084 transfer function"));
                    }
                }
                if let Some(d) = params.get("output-depth") {
                    if !str_eq(d.as_str(), "10") && !str_eq(d.as_str(), "12") {
                        return Err(owned("HDR encoding requires at least 10-bit depth"));
                    }
                }
            },
            HdrFormat::HLG => {
                if let Some(t) = params.get("transfer") {
                    if !str_eq(t.as_str(), "arib-std-b67") {
                        return Err(owned("HLG encoding requires arib-std-b67 transfer function"));
                    }
                }
                if let Some(c) = params.get("colorprim") {
                    if !str_eq(c.as_str(), "bt2020") {
                        return Err(owned("HLG encoding requires bt2020 color primaries"));
                    }
                }
            },
        }
        Ok(())
    }

    /// The options as one command-line string: entries joined by `:`, a
    /// bare key for an empty value, else `key=value`.
    pub fn format_params_for_command_line(params: &ParamMap) -> (r: String)
        ensures
            r@ == cli_params_text(params@),
    {
        params.to_cli_string()
    }
}

/// Where no key or value holds `:`, splitting the command-line string of
/// the options at `:` gives back each entry's text (`key` or `key=value`)
/// in order, one piece per entry; with no options the string is empty.
pub proof fn law_cli_params_split(params: ParamEntries)
    requires
        forall|i: int|
            0 <= i < params.len() ==> !(#[trigger] params[i]).0.contains(':') && !params[i].1.contains(
                ':',
            ),
    ensures
        params.len() == 0 ==> cli_params_text(params) == Seq::<char>::empty(),
        params.len() > 0 ==> split_char(cli_params_text(params), ':') == params.map_values(
            |e: (Seq<char>, Seq<char>)| cli_entry_text(e),
        ),
{
    reveal_strlit(":");
    reveal_strlit("=");
    assert(":"@ =~= seq![':']);
    let texts = params.map_values(|e: (Seq<char>, Seq<char>)| cli_entry_text(e));
    if params.len() > 0 {
        assert forall|i: int| 0 <= i < texts.len() implies !(#[trigger] texts[i]).contains(':') by {
            let e = params[i];
            assert(texts[i] == cli_entry_text(e));
            if e.1.len() > 0 {
                let t = e.0 + "="@ + e.1;
                if t.contains(':') {
                    let k = choose|k: int| 0 <= k < t.len() && t[k] == ':';
                    if k < e.0.len() {
                        assert(e.0[k] == ':');
                    } else if k == e.0.len() {
                        assert("="@[0] == '=');
                    } else {
                        assert(e.1[k - e.0.len() - 1] == ':');
                    }
                }
            }
        }
        lemma_split_join(texts, ':');
    }
}

} // verus!
