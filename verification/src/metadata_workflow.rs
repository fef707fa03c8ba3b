//! The external metadata workflow around an encode: which tools take
//! part, which metadata goes to the encoder, whether the output needs a
//! post-processing pass, and where the intermediate file goes.

use vstd::prelude::*;
use crate::analysis::dolby_vision::{DolbyVisionInfo, DolbyVisionProfile};
use crate::config::types::ToolConfig;
use crate::content_manager::ApproachKind;
use crate::hdr::types::HdrFormat;
use crate::dolby_vision::rpu::{RpuManager, RpuMetadata};
use crate::dolby_vision::tools::DoviTool;
use crate::hdr10plus::manager::Hdr10PlusManager;
use crate::hdr10plus::metadata::Hdr10PlusProcessingResult;
use crate::params::pairs_view;
use crate::paths::{
    file_name, free_of_separators, join, lemma_join_safe_concat, parent, path_file_name, path_join,
    path_parent,
};
use crate::text::{concat, owned};

verus! {

/// Metadata taken from the source before encoding.
#[derive(Debug, Clone, PartialEq, Eq)]
pub struct ExtractedMetadata {
    pub dolby_vision: Option<RpuMetadata>,
    pub hdr10_plus: Option<Hdr10PlusProcessingResult>,
    pub temp_dir: String,
}

impl ExtractedMetadata {
    pub fn none(temp_dir: String) -> (r: Self)
        ensures
            r.dolby_vision is None,
            r.hdr10_plus is None,
            r.temp_dir == temp_dir,
    {
        ExtractedMetadata { dolby_vision: None, hdr10_plus: None, temp_dir }
    }

    pub fn has_metadata(&self) -> (r: bool)
        ensures
            r == (self.dolby_vision is Some || self.hdr10_plus is Some),
    {
        self.dolby_vision.is_some() || self.hdr10_plus.is_some()
    }
}

/// Which metadata tools can run.
#[derive(Debug, Clone, Copy, PartialEq, Eq)]
pub struct ToolAvailability {
    pub dovi_tool: bool,
    pub hdr10plus_tool: bool,
}

/// Runs the metadata tools around an encode.
pub struct MetadataWorkflowManager {
    pub rpu_manager: Option<RpuManager>,
    pub hdr10plus_manager: Option<Hdr10PlusManager>,
    pub temp_dir: String,
    pub tools_available: ToolAvailability,
}

/// The intermediate output for post-processing: `temp_encode_<name>` next
/// to the final file, or `temp_encode_output.mkv` in its directory (or the
/// current one) where the path names no file.
pub open spec fn temp_output_path(final_path: Seq<char>) -> Seq<char> {
    match path_file_name(final_path) {
        Some(f) => match path_parent(final_path) {
            Some(d) => path_join(d, "temp_encode_"@ + f),
            None => "temp_encode_"@ + f,
        },
        None => path_join(
            match path_parent(final_path) {
                Some(d) => d,
                None => "."@,
            },
            "temp_encode_output.mkv"@,
        ),
    }
}

impl MetadataWorkflowManager {
    /// The workflow for a configuration: an RPU manager where Dolby Vision
    /// processing is enabled (with `dovi_tool` where configured), an HDR10+
    /// manager where HDR10+ processing is enabled; `tools_available` is what
    /// the availability checks found.
    pub fn new(
        temp_dir: String,
        dolby_vision_enabled: bool,
        hdr10plus_enabled: bool,
        dovi_tool_config: Option<ToolConfig>,
        hdr10plus_tool_config: Option<ToolConfig>,
        tools_available: ToolAvailability,
    ) -> (r: Self)
        ensures
            r.temp_dir == temp_dir,
            r.rpu_manager is Some == dolby_vision_enabled,
            r.rpu_manager matches Some(m) ==> m.temp_dir == temp_dir && (match dovi_tool_config {
                Some(c) => m.dovi_tool matches Some(t) && t.config == c,
                None => m.dovi_tool is None,
            }),
            r.hdr10plus_manager is Some == hdr10plus_enabled,
            r.hdr10plus_manager matches Some(m) ==> m.temp_dir == temp_dir && (
            hdr10plus_tool_config matches Some(c) ==> m.tool matches Some(t) && t.config == c),
            r.tools_available == tools_available,
    {
        let rpu_manager = if dolby_vision_enabled {
            let dovi_tool = match dovi_tool_config {
                Some(c) => Some(DoviTool::new(c)),
                None => None,
            };
            Some(RpuManager::new(temp_dir.clone(), dovi_tool))
        } else {
            None
        };
        let hdr10plus_manager = if hdr10plus_enabled {
            Some(Hdr10PlusManager::new(temp_dir.clone(), hdr10plus_tool_config))
        } else {
            None
        };
        MetadataWorkflowManager { rpu_manager, hdr10plus_manager, temp_dir, tools_available }
    }

    /// The encoder options that carry extracted metadata: the HDR10+ file
    /// (`dhdr10-info`) where it was extracted and still exists
    /// (`hdr10plus_file_exists`). Dolby Vision metadata goes in after
    /// encoding, not through options.
    pub fn build_external_metadata_params(
        &self,
        extracted: &ExtractedMetadata,
        hdr10plus_file_exists: bool,
    ) -> (r: Vec<(String, String)>)
        ensures
            pairs_view(r@) == (match extracted.hdr10_plus {
                Some(h) => if h.extraction_successful && hdr10plus_file_exists {
                    seq![("dhdr10-info"@, h.metadata_file@)]
                } else {
                    Seq::empty()
                },
                None => Seq::empty(),
            }),
    {
        let mut params: Vec<(String, String)> = Vec::new();
        if let Some(h) = &extracted.hdr10_plus {
            if h.extraction_successful && hdr10plus_file_exists {
                params.push((owned("dhdr10-info"), h.metadata_file.clone()));
            }
        }
        assert(pairs_view(params@) =~= (match extracted.hdr10_plus {
            Some(h) => if h.extraction_successful && hdr10plus_file_exists {
                seq![("dhdr10-info"@, h.metadata_file@)]
            } else {
                Seq::empty()
            },
            None => Seq::empty(),
        }));
        params
    }

    pub fn get_tool_availability(&self) -> (r: &ToolAvailability)
        ensures
            *r == self.tools_available,
    {
        &self.tools_available
    }

    /// The output needs a post-processing pass where a Dolby Vision RPU was
    /// extracted and `dovi_tool` can inject it.
    pub fn needs_post_processing(&self, extracted: &ExtractedMetadata) -> (r: bool)
        ensures
            r == (extracted.dolby_vision matches Some(dv) && dv.extracted_successfully
                && self.tools_available.dovi_tool),
    {
        match &extracted.dolby_vision {
            Some(dv) => dv.extracted_successfully && self.tools_available.dovi_tool,
            None => false,
        }
    }

    /// Where to encode before post-processing.
    pub fn get_temp_output_path(&self, final_path: &str) -> (r: String)
        ensures
            r@ == temp_output_path(final_path@),
            path_file_name(final_path@) matches Some(f) ==> (free_of_separators(f) ==> path_file_name(
                r@,
            ) == Some("temp_encode_"@ + f) && path_parent(r@) == path_parent(final_path@) && r@
                != final_path@),
            path_file_name(final_path@) is None ==> path_file_name(r@) == Some(
                "temp_encode_output.mkv"@,
            ) && path_parent(r@) == Some(
                match path_parent(final_path@) {
                    Some(d) => d,
                    None => "."@,
                },
            ),
    {
        proof {
            reveal_strlit("temp_encode_");
            reveal_strlit("temp_encode_output.mkv");
            reveal_strlit(".");
            assert(free_of_separators("temp_encode_"@)) by {
                assert(forall|i: int|
                    0 <= i < 12 ==> "temp_encode_"@[i] != '/' && "temp_encode_"@[i] != '\\');
            }
            assert(free_of_separators("temp_encode_output.mkv"@)) by {
                assert(forall|i: int|
                    0 <= i < 22 ==> "temp_encode_output.mkv"@[i] != '/'
                        && "temp_encode_output.mkv"@[i] != '\\');
            }
            assert(("temp_encode_output.mkv"@ + Seq::<char>::empty())[1] == 'e');
            assert(free_of_separators(Seq::<char>::empty()));
            lemma_join_safe_concat("temp_encode_output.mkv"@, Seq::empty());
            assert("temp_encode_output.mkv"@ + Seq::<char>::empty() =~= "temp_encode_output.mkv"@);
        }
        match file_name(final_path) {
            Some(f) => {
                let name = concat("temp_encode_", f.as_str());
                proof {
                    if free_of_separators(f@) {
                        assert(("temp_encode_"@ + f@)[1] == 'e');
                        lemma_join_safe_concat("temp_encode_"@, f@);
                    }
                    assert(name@.len() > f@.len());
                }
                match parent(final_path) {
                    Some(d) => join(d.as_str(), name.as_str()),
                    None => name,
                }
            },
            None => {
                let dir = match parent(final_path) {
                    Some(d) => d,
                    None => owned("."),
                };
                join(dir.as_str(), "temp_encode_output.mkv")
            },
        }
    }
}

/// What happens after the encoder finished: inject metadata into the
/// final file, remove the intermediate file, or nothing.
#[derive(Debug, Clone, Copy, PartialEq, Eq, Structural)]
pub enum PostEncodingAction {
    InjectMetadata,
    RemoveIntermediate,
    Nothing,
}

/// After encoding: inject where the encode succeeded and post-processing
/// is needed; remove the intermediate file where it failed, was needed and
/// exists.
pub fn post_encoding_action(
    encode_succeeded: bool,
    needs_post_processing: bool,
    intermediate_exists: bool,
) -> (r: PostEncodingAction)
    ensures
        r == (if encode_succeeded && needs_post_processing {
            PostEncodingAction::InjectMetadata
        } else if needs_post_processing && !encode_succeeded && intermediate_exists {
            PostEncodingAction::RemoveIntermediate
        } else {
            PostEncodingAction::Nothing
        }),
{
    if encode_succeeded && needs_post_processing {
        PostEncodingAction::InjectMetadata
    } else if needs_post_processing && !encode_succeeded && intermediate_exists {
        PostEncodingAction::RemoveIntermediate
    } else {
        PostEncodingAction::Nothing
    }
}

/// How metadata injection ends: with Dolby Vision injected, or by moving
/// the encoded file into place (where the paths differ).
#[derive(Debug, Clone, Copy, PartialEq, Eq, Structural)]
pub enum InjectionPlan {
    /// Inject the RPU with `dovi_tool`; on failure fall back to moving.
    InjectRpu,
    /// Move the encoded file to the final path.
    MoveIntoPlace,
    /// The encoded file already is the final file.
    KeepInPlace,
}

/// The injection step: RPU injection where an RPU was extracted and
/// `dovi_tool` and an RPU manager are there; otherwise the encoded file is
/// moved into place unless it already is there.
pub fn injection_plan(
    manager: &MetadataWorkflowManager,
    extracted: &ExtractedMetadata,
    same_path: bool,
) -> (r: InjectionPlan)
    ensures
        r == (if extracted.has_metadata_spec() && extracted.dolby_vision is Some
            && extracted.dolby_vision.unwrap().extracted_successfully
            && manager.tools_available.dovi_tool && manager.rpu_manager is Some {
            InjectionPlan::InjectRpu
        } else if same_path {
            InjectionPlan::KeepInPlace
        } else {
            InjectionPlan::MoveIntoPlace
        }),
{
    if extracted.has_metadata() {
        if let Some(dv) = &extracted.dolby_vision {
            if dv.extracted_successfully && manager.tools_available.dovi_tool
                && manager.rpu_manager.is_some() {
                return InjectionPlan::InjectRpu;
            }
        }
    }
    if same_path {
        InjectionPlan::KeepInPlace
    } else {
        InjectionPlan::MoveIntoPlace
    }
}

impl ExtractedMetadata {
    pub open spec fn has_metadata_spec(&self) -> bool {
        self.dolby_vision is Some || self.hdr10_plus is Some
    }
}

} // verus!

verus! {

/// Which metadata is taken from the source before encoding.
#[derive(Debug, Clone, Copy, PartialEq, Eq, Structural)]
pub struct ExtractionPlan {
    pub dolby_vision: bool,
    pub hdr10_plus: bool,
}

impl MetadataWorkflowManager {
    /// The RPU is extracted where `dovi_tool` is available, the stream is
    /// Dolby Vision with an RPU present, and an RPU manager is set up.
    pub open spec fn rpu_extractable(&self, dv: DolbyVisionInfo) -> bool {
        self.tools_available.dovi_tool && dv.profile != DolbyVisionProfile::NotDolbyVision
            && dv.rpu_present && self.rpu_manager is Some
    }

    /// HDR10+ metadata is extracted where `hdr10plus_tool` is available and
    /// an HDR10+ manager is set up.
    pub open spec fn hdr10plus_extractable(&self) -> bool {
        self.tools_available.hdr10plus_tool && self.hdr10plus_manager is Some
    }

    /// What to extract for an encoding approach: the RPU for Dolby Vision,
    /// the RPU and HDR10+ metadata for the dual format, HDR10+ metadata for
    /// HDR10+ content, nothing for other HDR and for SDR; each only where it
    /// can be extracted.
    pub fn extraction_plan(&self, approach: ApproachKind, format: HdrFormat, dv: &DolbyVisionInfo) -> (r:
        ExtractionPlan)
        ensures
            r.dolby_vision == ((approach == ApproachKind::DolbyVision || approach
                == ApproachKind::DolbyVisionWithHdr10Plus) && self.rpu_extractable(*dv)),
            r.hdr10_plus == ((approach == ApproachKind::DolbyVisionWithHdr10Plus || (approach
                == ApproachKind::Hdr && format == HdrFormat::HDR10Plus))
                && self.hdr10plus_extractable()),
    {
        let rpu = self.tools_available.dovi_tool && dv.is_dolby_vision() && dv.rpu_present
            && self.rpu_manager.is_some();
        let hdr10 = self.tools_available.hdr10plus_tool && self.hdr10plus_manager.is_some();
        match approach {
            ApproachKind::DolbyVision => ExtractionPlan { dolby_vision: rpu, hdr10_plus: false },
            ApproachKind::DolbyVisionWithHdr10Plus => ExtractionPlan {
                dolby_vision: rpu,
                hdr10_plus: hdr10,
            },
            ApproachKind::Hdr => ExtractionPlan {
                dolby_vision: false,
                hdr10_plus: format == HdrFormat::HDR10Plus && hdr10,
            },
            ApproachKind::Sdr => ExtractionPlan { dolby_vision: false, hdr10_plus: false },
        }
    }
}

} // verus!
