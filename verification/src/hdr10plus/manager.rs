//! HDR10+ processing: when metadata is extracted, what an extraction's
//! outcome means, and the x265 options that carry the metadata.

use vstd::prelude::*;
use crate::analysis::dolby_vision::{dv_profile_name, DolbyVisionInfo, DolbyVisionProfile};
use crate::config::types::ToolConfig;
use crate::error::{Error, ErrorKind};
use crate::hdr::types::HdrFormat;
use crate::hdr10plus::metadata::{
    metadata_problem, scene_count_of, scene_ids_countable, tone_mapping_count, Hdr10PlusMetadata,
    Hdr10PlusProcessingResult,
};
use crate::params::{pair, pairs_view, ParamEntries};
use crate::paths::{file_stem, is_uuid_text, new_uuid, path_file_stem, sibling, sibling_path};
use crate::text::{concat, concat3, owned, seq_contains, str_contains, strings_view};

verus! {

/// The encoder options that go with HDR10+ metadata.
pub open spec fn hdr10plus_tuning() -> ParamEntries {
    seq![
        ("hdr10plus-opt"@, "1"@),
        ("rc-lookahead"@, "60"@),
        ("bframes"@, "8"@),
        ("b-adapt"@, "2"@),
        ("psy-rd"@, "2.5"@),
        ("psy-rdoq"@, "1.0"@),
        ("aq-mode"@, "3"@),
        ("aq-strength"@, "1.0"@),
        ("me"@, "umh"@),
        ("subme"@, "5"@),
        ("merange"@, "64"@),
        ("rect"@, ""@),
        ("amp"@, ""@),
        ("strong-intra-smoothing"@, ""@),
        ("weightb"@, ""@),
        ("weightp"@, "2"@),
    ]
}

/// Appends the pairs of `hdr10plus_tuning`.
fn push_hdr10plus_tuning(v: &mut Vec<(String, String)>)
    ensures
        pairs_view(final(v)@) == pairs_view(old(v)@) + hdr10plus_tuning(),
{
    let ghost start = pairs_view(v@);
    v.push(pair("hdr10plus-opt", "1"));
    v.push(pair("rc-lookahead", "60"));
    v.push(pair("bframes", "8"));
    v.push(pair("b-adapt", "2"));
    v.push(pair("psy-rd", "2.5"));
    v.push(pair("psy-rdoq", "1.0"));
    v.push(pair("aq-mode", "3"));
    v.push(pair("aq-strength", "1.0"));
    v.push(pair("me", "umh"));
    v.push(pair("subme", "5"));
    v.push(pair("merange", "64"));
    v.push(pair("rect", ""));
    v.push(pair("amp", ""));
    v.push(pair("strong-intra-smoothing", ""));
    v.push(pair("weightb", ""));
    v.push(pair("weightp", "2"));
    assert(pairs_view(v@) =~= start + hdr10plus_tuning());
}

/// The quality options for Dolby Vision with HDR10+.
pub open spec fn dual_format_tuning() -> ParamEntries {
    seq![
        ("crf"@, "16"@),
        ("preset"@, "veryslow"@),
        ("rd"@, "6"@),
        ("rdoq-level"@, "2"@),
        ("bframes"@, "10"@),
        ("b-pyramid"@, ""@),
        ("b-adapt"@, "2"@),
    ]
}

/// Appends the pairs of `dual_format_tuning`.
fn push_dual_format_tuning(v: &mut Vec<(String, String)>)
    ensures
        pairs_view(final(v)@) == pairs_view(old(v)@) + dual_format_tuning(),
{
    let ghost start = pairs_view(v@);
    v.push(pair("crf", "16"));
    v.push(pair("preset", "veryslow"));
    v.push(pair("rd", "6"));
    v.push(pair("rdoq-level", "2"));
    v.push(pair("bframes", "10"));
    v.push(pair("b-pyramid", ""));
    v.push(pair("b-adapt", "2"));
    assert(pairs_view(v@) =~= start + dual_format_tuning());
}

/// Runs `hdr10plus_tool`.
pub struct Hdr10PlusTool {
    pub config: ToolConfig,
}

impl Hdr10PlusTool {
    pub fn new(config: ToolConfig) -> (r: Self)
        ensures
            r.config == config,
    {
        Hdr10PlusTool { config }
    }

    /// `extract <input> -o <output>`.
    pub fn extract_args(input: &str, output_json: &str) -> (r: Vec<String>)
        ensures
            strings_view(r@) == seq!["extract"@, input@, "-o"@, output_json@],
    {
        let mut v: Vec<String> = Vec::new();
        v.push(owned("extract"));
        v.push(owned(input));
        v.push(owned("-o"));
        v.push(owned(output_json));
        assert(strings_view(v@) =~= seq!["extract"@, input@, "-o"@, output_json@]);
        v
    }

    /// `inject -i <video> -j <json> -o <output>`.
    pub fn inject_args(input: &str, metadata_json: &str, output: &str) -> (r: Vec<String>)
        ensures
            strings_view(r@) == seq![
                "inject"@,
                "-i"@,
                input@,
                "-j"@,
                metadata_json@,
                "-o"@,
                output@,
            ],
    {
        let mut v: Vec<String> = Vec::new();
        v.push(owned("inject"));
        v.push(owned("-i"));
        v.push(owned(input));
        v.push(owned("-j"));
        v.push(owned(metadata_json));
        v.push(owned("-o"));
        v.push(owned(output));
        assert(strings_view(v@) =~= seq![
            "inject"@,
            "-i"@,
            input@,
            "-j"@,
            metadata_json@,
            "-o"@,
            output@,
        ]);
        v
    }

    /// `remove -i <video> -o <output>`.
    pub fn remove_args(input: &str, output: &str) -> (r: Vec<String>)
        ensures
            strings_view(r@) == seq!["remove"@, "-i"@, input@, "-o"@, output@],
    {
        let mut v: Vec<String> = Vec::new();
        v.push(owned("remove"));
        v.push(owned("-i"));
        v.push(owned(input));
        v.push(owned("-o"));
        v.push(owned(output));
        assert(strings_view(v@) =~= seq!["remove"@, "-i"@, input@, "-o"@, output@]);
        v
    }

    /// `plot <json> -o <image>`.
    pub fn plot_args(metadata_json: &str, output_image: &str) -> (r: Vec<String>)
        ensures
            strings_view(r@) == seq!["plot"@, metadata_json@, "-o"@, output_image@],
    {
        let mut v: Vec<String> = Vec::new();
        v.push(owned("plot"));
        v.push(owned(metadata_json));
        v.push(owned("-o"));
        v.push(owned(output_image));
        assert(strings_view(v@) =~= seq!["plot"@, metadata_json@, "-o"@, output_image@]);
        v
    }

    /// A failed extraction whose message shows the tool's exit status 1
    /// means the file has no dynamic metadata; the error then says so.
    pub fn classify_extract_error(e: Error, message: &str) -> (r: Error)
        ensures
            seq_contains(message@, "Tool failed with exit code exit status: 1"@) ==> r@ == (
                ErrorKind::Tool,
                "File doesn't contain dynamic metadata"@,
            ),
            !seq_contains(message@, "Tool failed with exit code exit status: 1"@) ==> r == e,
    {
        if str_contains(message, "Tool failed with exit code exit status: 1") {
            Error::tool(owned("File doesn't contain dynamic metadata"))
        } else {
            e
        }
    }
}

/// HDR10+ metadata is looked for in HDR10 and HDR10+ content.
pub open spec fn hdr10plus_extraction_applies(format: HdrFormat) -> bool {
    format == HdrFormat::HDR10Plus || format == HdrFormat::HDR10
}

/// An extraction failure that only means there is no dynamic metadata.
pub open spec fn is_no_metadata_message(m: Seq<char>) -> bool {
    seq_contains(m, "File doesn't contain dynamic metadata"@) || seq_contains(
        m,
        "No dynamic metadata found"@,
    ) || seq_contains(m, "Tool failed with exit code exit status: 1"@)
}

/// Extracts, checks and turns HDR10+ metadata into encoder options.
pub struct Hdr10PlusManager {
    pub tool: Option<Hdr10PlusTool>,
    pub temp_dir: String,
}

impl Hdr10PlusManager {
    /// A manager with the given tool settings, or the default ones.
    pub fn new(temp_dir: String, tool_config: Option<ToolConfig>) -> (r: Self)
        ensures
            r.temp_dir == temp_dir,
            r.tool is Some,
            tool_config matches Some(c) ==> r.tool.unwrap().config == c,
            tool_config is None ==> r.tool.unwrap().config.path@ == "dovi_tool"@
                && r.tool.unwrap().config.timeout_seconds == 300
                && r.tool.unwrap().config.extract_args is None
                && r.tool.unwrap().config.inject_args is None,
    {
        let cfg = match tool_config {
            Some(c) => c,
            None => ToolConfig::default(),
        };
        Hdr10PlusManager { tool: Some(Hdr10PlusTool::new(cfg)), temp_dir }
    }

    /// Whether to look for HDR10+ metadata: in HDR10 and HDR10+ content,
    /// with the tool configured and available.
    pub fn should_extract(&self, format: HdrFormat, tool_available: bool) -> (r: bool)
        ensures
            r == (hdr10plus_extraction_applies(format) && self.tool is Some && tool_available),
    {
        (format == HdrFormat::HDR10Plus || format == HdrFormat::HDR10) && self.tool.is_some()
            && tool_available
    }

    /// A fresh metadata file next to the input:
    /// `<stem>_hdr10plus_metadata_<uuid>.json` (`video` for a missing stem).
    pub fn metadata_file_path(input_video: &str) -> (r: String)
        ensures
            exists|u: Seq<char>|
                is_uuid_text(u) && r@ == sibling_path(
                    input_video@,
                    (match path_file_stem(input_video@) {
                        Some(s) => s,
                        None => "video"@,
                    }) + "_hdr10plus_metadata_"@ + u + ".json"@,
                ),
    {
        let u = new_uuid();
        let stem = match file_stem(input_video) {
            Some(s) => s,
            None => owned("video"),
        };
        let a = concat3(stem.as_str(), "_hdr10plus_metadata_", u.as_str());
        let name = concat(a.as_str(), ".json");
        sibling(input_video, name.as_str())
    }

    /// Whether a failed extraction only means there is no dynamic metadata
    /// (normal for HDR10 content).
    pub fn is_missing_metadata(message: &str) -> (r: bool)
        ensures
            r == is_no_metadata_message(message@),
    {
        str_contains(message, "File doesn't contain dynamic metadata") || str_contains(
            message,
            "No dynamic metadata found",
        ) || str_contains(message, "Tool failed with exit code exit status: 1")
    }

    /// The result of a completed extraction whose metadata was read, with
    /// its curve and scene counts taken from the metadata: none where the
    /// metadata is inconsistent.
    pub fn accept_extracted_metadata(
        metadata_file: String,
        metadata: Hdr10PlusMetadata,
        file_size: Option<u64>,
    ) -> (r: Option<Hdr10PlusProcessingResult>)
        requires
            scene_ids_countable(metadata.scene_info@),
        ensures
            metadata_problem(metadata.scene_info@) is Some ==> r is None,
            metadata_problem(metadata.scene_info@) is None ==> (r matches Some(x) && x.metadata_file
                == metadata_file && x.metadata == metadata && x.extraction_successful
                && x.file_size == file_size && x.curve_count == tone_mapping_count(
                metadata.scene_info@,
            ) && x.scene_count == scene_count_of(metadata.scene_info@)),
    {
        if metadata.validate().is_err() {
            return None;
        }
        let mut result = Hdr10PlusProcessingResult::new(metadata_file, metadata, true);
        result.file_size = file_size;
        Some(result)
    }

    /// Dual Dolby Vision + HDR10+ processing applies to Dolby Vision
    /// content that is also HDR10 or HDR10+.
    pub fn is_dual_format(dv_info: &DolbyVisionInfo, format: HdrFormat) -> (r: bool)
        ensures
            r == (dv_info.profile != DolbyVisionProfile::NotDolbyVision
                && hdr10plus_extraction_applies(format)),
    {
        dv_info.is_dolby_vision() && (format == HdrFormat::HDR10Plus || format == HdrFormat::HDR10)
    }

    /// The x265 options for HDR10+: the metadata file, then the tuning
    /// that goes with it; an error where the extraction failed.
    pub fn build_hdr10plus_x265_params(&self, hdr10plus_result: &Hdr10PlusProcessingResult) -> (r:
        Result<Vec<(String, String)>, Error>)
        ensures
            !hdr10plus_result.extraction_successful ==> (r matches Err(e) && e@ == (
                ErrorKind::Encoding,
                "Cannot build x265 params - HDR10+ extraction failed"@,
            )),
            hdr10plus_result.extraction_successful ==> (r matches Ok(v) && pairs_view(v@) == seq![
                ("dhdr10-info"@, hdr10plus_result.metadata_file@),
            ] + hdr10plus_tuning()),
    {
        if !hdr10plus_result.extraction_successful {
            return Err(
                Error::encoding(owned("Cannot build x265 params - HDR10+ extraction failed")),
            );
        }
        let mut v: Vec<(String, String)> = Vec::new();
        v.push((owned("dhdr10-info"), hdr10plus_result.metadata_file.clone()));
        assert(pairs_view(v@) =~= seq![("dhdr10-info"@, hdr10plus_result.metadata_file@)]);
        push_hdr10plus_tuning(&mut v);
        Ok(v)
    }

    /// The x265 options for Dolby Vision with HDR10+: the RPU file and
    /// profile where given, the HDR10+ options, then the quality options.
    pub fn build_dual_format_x265_params(
        &self,
        dv_info: &DolbyVisionInfo,
        hdr10plus_result: &Hdr10PlusProcessingResult,
        dovi_rpu_path: Option<&str>,
    ) -> (r: Result<Vec<(String, String)>, Error>)
        ensures
            !hdr10plus_result.extraction_successful ==> (r matches Err(e) && e@ == (
                ErrorKind::Encoding,
                "Cannot build x265 params - HDR10+ extraction failed"@,
            )),
            hdr10plus_result.extraction_successful ==> (r matches Ok(v) && pairs_view(v@) == (
            match dovi_rpu_path {
                Some(p) => seq![
                    ("dolby-vision-rpu"@, p@),
                    ("dolby-vision-profile"@, dv_profile_name(dv_info.profile)),
                ],
                None => Seq::empty(),
            }) + seq![("dhdr10-info"@, hdr10plus_result.metadata_file@)] + hdr10plus_tuning()
                + dual_format_tuning()),
    {
        let mut params: Vec<(String, String)> = Vec::new();
        if let Some(rpu_path) = dovi_rpu_path {
            params.push(pair("dolby-vision-rpu", rpu_path));
            params.push(pair("dolby-vision-profile", dv_info.profile.as_str()));
        }
        let ghost head = pairs_view(params@);
        let plus = match self.build_hdr10plus_x265_params(hdr10plus_result) {
            Ok(p) => p,
            Err(e) => {
                return Err(e);
            },
        };
        let ghost pv = pairs_view(plus@);
        let mut i: usize = 0;
        while i < plus.len()
            invariant
                i <= plus@.len(),
                pv == pairs_view(plus@),
                pairs_view(params@) == head + pv.subrange(0, i as int),
            decreases plus.len() - i,
        {
            let ghost before = pairs_view(params@);
            let e = pair(plus[i].0.as_str(), plus[i].1.as_str());
            params.push(e);
            assert(pairs_view(params@) =~= before.push(pv[i as int]));
            i = i + 1;
            assert(pairs_view(params@) =~= head + pv.subrange(0, i as int));
        }
        assert(pv.subrange(0, pv.len() as int) =~= pv);
        push_dual_format_tuning(&mut params);
        Ok(params)
    }
}

} // verus!
