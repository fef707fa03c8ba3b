//! Dolby Vision RPU metadata and the decisions of its extraction and
//! injection.

use vstd::prelude::*;
use crate::analysis::dolby_vision::{DolbyVisionInfo, DolbyVisionProfile};
use crate::dolby_vision::tools::DoviTool;
use crate::error::{Error, ErrorKind};
use crate::paths::{file_stem, is_uuid_text, new_uuid, path_file_stem, sibling, sibling_path};
use crate::text::{concat, concat3, owned, strings_view};

verus! {

/// An RPU file taken from a source and what is known of it.
#[derive(Debug, Clone, PartialEq, Eq)]
pub struct RpuMetadata {
    pub temp_file: String,
    pub profile: DolbyVisionProfile,
    pub frame_count: Option<u64>,
    pub extracted_successfully: bool,
    pub file_size: Option<u64>,
}

impl RpuMetadata {
    /// A freshly named RPU file, not yet checked.
    pub fn new(temp_file: String, profile: DolbyVisionProfile) -> (r: Self)
        ensures
            r.temp_file == temp_file,
            r.profile == profile,
            r.frame_count is None,
            !r.extracted_successfully,
            r.file_size is None,
    {
        RpuMetadata {
            temp_file,
            profile,
            frame_count: None,
            extracted_successfully: false,
            file_size: None,
        }
    }

    /// Records what was found on disk: `file_len` is the file's size, or
    /// `None` where it does not exist. An existing non-empty file marks the
    /// extraction successful.
    pub fn validate(&mut self, file_len: Option<u64>) -> (r: Result<(), Error>)
        ensures
            match file_len {
                None => r matches Err(e) && e@ == (ErrorKind::Io, "RPU file not found: "@
                    + old(self).temp_file@) && *final(self) == *old(self),
                Some(n) => final(self).file_size == Some(n) && final(self).temp_file
                    == old(self).temp_file && final(self).profile == old(self).profile
                    && final(self).frame_count == old(self).frame_count && (if n == 0 {
                    r matches Err(e) && e@ == (
                        ErrorKind::DolbyVision,
                        "RPU file is empty - extraction may have failed"@,
                    ) && final(self).extracted_successfully == old(self).extracted_successfully
                } else {
                    r is Ok && final(self).extracted_successfully
                }),
            },
    {
        match file_len {
            None => Err(Error::io(concat("RPU file not found: ", self.temp_file.as_str()))),
            Some(n) => {
                self.file_size = Some(n);
                if n == 0 {
                    return Err(
                        Error::DolbyVision(owned("RPU file is empty - extraction may have failed")),
                    );
                }
                self.extracted_successfully = true;
                Ok(())
            },
        }
    }
}

/// Creates, injects and cleans up RPU files.
pub struct RpuManager {
    pub temp_dir: String,
    pub dovi_tool: Option<DoviTool>,
}

impl RpuManager {
    pub fn new(temp_dir: String, dovi_tool: Option<DoviTool>) -> (r: Self)
        ensures
            r.temp_dir == temp_dir,
            r.dovi_tool == dovi_tool,
    {
        RpuManager { temp_dir, dovi_tool }
    }

    /// A fresh RPU file next to the input: `<stem>_rpu_<uuid>.bin`, or
    /// `rpu_<uuid>.bin` where the input has no stem.
    pub fn rpu_file_path(input_path: &str) -> (r: String)
        ensures
            exists|u: Seq<char>|
                is_uuid_text(u) && r@ == sibling_path(
                    input_path@,
                    match path_file_stem(input_path@) {
                        Some(s) => s + "_rpu_"@ + u + ".bin"@,
                        None => "rpu_"@ + u + ".bin"@,
                    },
                ),
    {
        let u = new_uuid();
        let name = match file_stem(input_path) {
            Some(s) => {
                let a = concat3(s.as_str(), "_rpu_", u.as_str());
                concat(a.as_str(), ".bin")
            },
            None => concat3("rpu_", u.as_str(), ".bin"),
        };
        sibling(input_path, name.as_str())
    }

    /// A fresh file next to the encoded file for its raw HEVC stream
    /// (`temp_hevc_<uuid>.hevc`, or `temp_hevc_rpu_<uuid>.hevc` for the
    /// stream with the RPU).
    pub fn temp_hevc_path(encoded_mkv: &str, with_rpu: bool) -> (r: String)
        ensures
            exists|u: Seq<char>|
                is_uuid_text(u) && r@ == sibling_path(
                    encoded_mkv@,
                    (if with_rpu {
                        "temp_hevc_rpu_"@
                    } else {
                        "temp_hevc_"@
                    }) + u + ".hevc"@,
                ),
    {
        let u = new_uuid();
        let prefix = if with_rpu {
            "temp_hevc_rpu_"
        } else {
            "temp_hevc_"
        };
        let name = concat3(prefix, u.as_str(), ".hevc");
        sibling(encoded_mkv, name.as_str())
    }

    /// Whether an extraction is to be attempted: `Ok(false)` where the
    /// stream needs no RPU processing, an error where it does and no
    /// `dovi_tool` is configured.
    pub fn should_extract_rpu(&self, dv_info: &DolbyVisionInfo) -> (r: Result<bool, Error>)
        ensures
            !(dv_info.has_rpu && dv_info.profile != DolbyVisionProfile::NotDolbyVision) ==> r
                == Ok::<bool, Error>(false),
            (dv_info.has_rpu && dv_info.profile != DolbyVisionProfile::NotDolbyVision) ==> (
            if self.dovi_tool is Some {
                r == Ok::<bool, Error>(true)
            } else {
                r matches Err(e) && e@ == (
                    ErrorKind::DolbyVision,
                    "dovi_tool not configured but required for RPU extraction"@,
                )
            }),
    {
        if !dv_info.needs_rpu_processing() {
            return Ok(false);
        }
        if self.dovi_tool.is_none() {
            return Err(
                Error::DolbyVision(owned("dovi_tool not configured but required for RPU extraction")),
            );
        }
        Ok(true)
    }

    /// The checks before an injection: a configured `dovi_tool`, a
    /// successful extraction, and the RPU file on disk (`rpu_file_exists`).
    pub fn check_injection(&self, rpu_metadata: &RpuMetadata, rpu_file_exists: bool) -> (r:
        Result<(), Error>)
        ensures
            self.dovi_tool is None ==> (r matches Err(e) && e@ == (
                ErrorKind::DolbyVision,
                "dovi_tool not configured but required for RPU injection"@,
            )),
            self.dovi_tool is Some && !rpu_metadata.extracted_successfully ==> (r matches Err(e)
                && e@ == (
                ErrorKind::DolbyVision,
                "Cannot inject RPU: metadata extraction was not successful"@,
            )),
            self.dovi_tool is Some && rpu_metadata.extracted_successfully && !rpu_file_exists
                ==> (r matches Err(e) && e@ == (ErrorKind::DolbyVision, "RPU file not found: "@
                + rpu_metadata.temp_file@)),
            self.dovi_tool is Some && rpu_metadata.extracted_successfully && rpu_file_exists
                ==> r is Ok,
    {
        if self.dovi_tool.is_none() {
            return Err(
                Error::DolbyVision(owned("dovi_tool not configured but required for RPU injection")),
            );
        }
        if !rpu_metadata.extracted_successfully {
            return Err(
                Error::DolbyVision(owned("Cannot inject RPU: metadata extraction was not successful")),
            );
        }
        if !rpu_file_exists {
            return Err(
                Error::DolbyVision(concat("RPU file not found: ", rpu_metadata.temp_file.as_str())),
            );
        }
        Ok(())
    }

    /// FFmpeg arguments that copy the HEVC video of an MKV file out as a
    /// raw Annex B bitstream.
    pub fn hevc_extract_args(encoded_mkv: &str, temp_hevc: &str) -> (r: Vec<String>)
        ensures
            strings_view(r@) == seq![
                "-i"@,
                encoded_mkv@,
                "-c:v"@,
                "copy"@,
                "-bsf:v"@,
                "hevc_mp4toannexb"@,
                "-f"@,
                "hevc"@,
                "-y"@,
                temp_hevc@,
            ],
    {
        let mut v: Vec<String> = Vec::new();
        v.push(owned("-i"));
        v.push(owned(encoded_mkv));
        v.push(owned("-c:v"));
        v.push(owned("copy"));
        v.push(owned("-bsf:v"));
        v.push(owned("hevc_mp4toannexb"));
        v.push(owned("-f"));
        v.push(owned("hevc"));
        v.push(owned("-y"));
        v.push(owned(temp_hevc));
        assert(strings_view(v@) =~= seq![
            "-i"@,
            encoded_mkv@,
            "-c:v"@,
            "copy"@,
            "-bsf:v"@,
            "hevc_mp4toannexb"@,
            "-f"@,
            "hevc"@,
            "-y"@,
            temp_hevc@,
        ]);
        v
    }

    /// FFmpeg arguments that remux the HEVC+RPU bitstream with every other
    /// stream, the metadata and the chapters of the encoded MKV.
    pub fn remux_args(hevc_with_rpu: &str, encoded_mkv: &str, final_output: &str) -> (r: Vec<
        String,
    >)
        ensures
            strings_view(r@) == seq![
                "-f"@,
                "hevc"@,
                "-fflags"@,
                "+genpts"@,
                "-i"@,
                hevc_with_rpu@,
                "-i"@,
                encoded_mkv@,
                "-map"@,
                "0:v:0"@,
                "-map"@,
                "1:a?"@,
                "-map"@,
                "1:s?"@,
                "-map"@,
                "1:t?"@,
                "-map"@,
                "1:d?"@,
                "-c"@,
                "copy"@,
                "-map_metadata"@,
                "1"@,
                "-map_chapters"@,
                "1"@,
                "-y"@,
                final_output@,
            ],
    {
        let mut v: Vec<String> = Vec::new();
        v.push(owned("-f"));
        v.push(owned("hevc"));
        v.push(owned("-fflags"));
        v.push(owned("+genpts"));
        v.push(owned("-i"));
        v.push(owned(hevc_with_rpu));
        v.push(owned("-i"));
        v.push(owned(encoded_mkv));
        v.push(owned("-map"));
        v.push(owned("0:v:0"));
        v.push(owned("-map"));
        v.push(owned("1:a?"));
        v.push(owned("-map"));
        v.push(owned("1:s?"));
        v.push(owned("-map"));
        v.push(owned("1:t?"));
        v.push(owned("-map"));
        v.push(owned("1:d?"));
        v.push(owned("-c"));
        v.push(owned("copy"));
        v.push(owned("-map_metadata"));
        v.push(owned("1"));
        v.push(owned("-map_chapters"));
        v.push(owned("1"));
        v.push(owned("-y"));
        v.push(owned(final_output));
        assert(strings_view(v@) =~= seq![
            "-f"@,
            "hevc"@,
            "-fflags"@,
            "+genpts"@,
            "-i"@,
            hevc_with_rpu@,
            "-i"@,
            encoded_mkv@,
            "-map"@,
            "0:v:0"@,
            "-map"@,
            "1:a?"@,
            "-map"@,
            "1:s?"@,
            "-map"@,
            "1:t?"@,
            "-map"@,
            "1:d?"@,
            "-c"@,
            "copy"@,
            "-map_metadata"@,
            "1"@,
            "-map_chapters"@,
            "1"@,
            "-y"@,
            final_output@,
        ]);
        v
    }
}

} // verus!

verus! {

/// The steps of an RPU injection: extract the HEVC bitstream, inject the
/// RPU into it, remux it with the other streams.
#[derive(Debug, Clone, Copy, PartialEq, Eq, Structural)]
pub enum InjectionStage {
    ExtractHevc,
    InjectRpu,
    Remux,
}

/// What follows a step: the files to remove now, then the next step or the
/// outcome of the injection.
pub struct InjectionStep {
    pub remove: Vec<String>,
    pub next: Option<InjectionStage>,
    pub outcome: Option<Result<(), Error>>,
}

/// A finished step's successor, the files it leaves to remove, and the
/// outcome where the injection ends (its error taken by its view).
pub open spec fn injection_step_spec(
    stage: InjectionStage,
    succeeded: bool,
    stderr: Seq<char>,
    temp_hevc: Seq<char>,
    hevc_with_rpu: Seq<char>,
) -> (Seq<Seq<char>>, Option<InjectionStage>, Option<core::result::Result<(), (ErrorKind, Seq<char>)>>) {
    match stage {
        InjectionStage::ExtractHevc => if succeeded {
            (Seq::empty(), Some(InjectionStage::InjectRpu), None)
        } else {
            (
                seq![temp_hevc],
                None,
                Some(Err((ErrorKind::Ffmpeg, "Failed to extract HEVC from MKV: "@ + stderr))),
            )
        },
        InjectionStage::InjectRpu => if succeeded {
            (seq![temp_hevc], Some(InjectionStage::Remux), None)
        } else {
            (
                seq![temp_hevc, hevc_with_rpu],
                None,
                Some(Err((ErrorKind::DolbyVision, "dovi_tool inject-rpu failed: "@ + stderr))),
            )
        },
        InjectionStage::Remux => if succeeded {
            (seq![hevc_with_rpu], None, Some(Ok(())))
        } else {
            (
                seq![hevc_with_rpu],
                None,
                Some(Err((ErrorKind::Ffmpeg, "Failed to remux HEVC+RPU into MKV: "@ + stderr))),
            )
        },
    }
}

/// An outcome with its error taken by its view.
pub open spec fn outcome_view(o: Option<Result<(), Error>>) -> Option<
    core::result::Result<(), (ErrorKind, Seq<char>)>,
> {
    match o {
        Some(r) => Some(crate::error::result_view(r)),
        None => None,
    }
}

impl RpuManager {
    /// Decides what follows a finished injection step, given whether it
    /// succeeded and its error output.
    pub fn injection_step(
        stage: InjectionStage,
        succeeded: bool,
        stderr: &str,
        temp_hevc: &str,
        hevc_with_rpu: &str,
    ) -> (r: InjectionStep)
        ensures
            (strings_view(r.remove@), r.next, outcome_view(r.outcome)) == injection_step_spec(
                stage,
                succeeded,
                stderr@,
                temp_hevc@,
                hevc_with_rpu@,
            ),
    {
        let mut remove: Vec<String> = Vec::new();
        let r = match stage {
            InjectionStage::ExtractHevc => {
                if succeeded {
                    InjectionStep { remove, next: Some(InjectionStage::InjectRpu), outcome: None }
                } else {
                    remove.push(owned(temp_hevc));
                    let e = Error::ffmpeg(concat("Failed to extract HEVC from MKV: ", stderr));
                    InjectionStep { remove, next: None, outcome: Some(Err(e)) }
                }
            },
            InjectionStage::InjectRpu => {
                remove.push(owned(temp_hevc));
                if succeeded {
                    InjectionStep { remove, next: Some(InjectionStage::Remux), outcome: None }
                } else {
                    remove.push(owned(hevc_with_rpu));
                    let e = Error::DolbyVision(concat("dovi_tool inject-rpu failed: ", stderr));
                    InjectionStep { remove, next: None, outcome: Some(Err(e)) }
                }
            },
            InjectionStage::Remux => {
                remove.push(owned(hevc_with_rpu));
                if succeeded {
                    InjectionStep { remove, next: None, outcome: Some(Ok(())) }
                } else {
                    let e = Error::ffmpeg(concat("Failed to remux HEVC+RPU into MKV: ", stderr));
                    InjectionStep { remove, next: None, outcome: Some(Err(e)) }
                }
            },
        };
        proof {
            let s = injection_step_spec(stage, succeeded, stderr@, temp_hevc@, hevc_with_rpu@);
            assert(strings_view(r.remove@) =~= s.0);
        }
        r
    }
}

/// The files removed and the outcome of an injection whose steps, in
/// order from `stage`, succeed as `results` says.
pub open spec fn injection_run(
    stage: InjectionStage,
    results: Seq<bool>,
    temp_hevc: Seq<char>,
    hevc_with_rpu: Seq<char>,
) -> (Seq<Seq<char>>, Option<core::result::Result<(), (ErrorKind, Seq<char>)>>)
    decreases results.len(),
{
    if results.len() == 0 {
        (Seq::empty(), None)
    } else {
        let s = injection_step_spec(stage, results[0], Seq::empty(), temp_hevc, hevc_with_rpu);
        match s.1 {
            Some(next) => {
                let rest = injection_run(next, results.drop_first(), temp_hevc, hevc_with_rpu);
                (s.0 + rest.0, rest.1)
            },
            None => (s.0, s.2),
        }
    }
}

/// However the three steps of an injection turn out, the injection ends
/// with an outcome, succeeds only when every step succeeded, and removes
/// both intermediate bitstreams it may have created: the extracted HEVC
/// always, the HEVC+RPU once the injection step ran.
pub proof fn law_injection_cleans_up(
    r0: bool,
    r1: bool,
    r2: bool,
    temp_hevc: Seq<char>,
    hevc_with_rpu: Seq<char>,
)
    ensures
        ({
            let run = injection_run(
                InjectionStage::ExtractHevc,
                seq![r0, r1, r2],
                temp_hevc,
                hevc_with_rpu,
            );
            &&& run.1 is Some
            &&& (run.1 == Some(Ok::<(), (ErrorKind, Seq<char>)>(())) <==> r0 && r1 && r2)
            &&& run.0.contains(temp_hevc)
            &&& r0 ==> run.0.contains(hevc_with_rpu)
        }),
{
    let rs = seq![r0, r1, r2];
    let e: Seq<char> = Seq::empty();
    assert(rs.drop_first() =~= seq![r1, r2]);
    assert(seq![r1, r2].drop_first() =~= seq![r2]);
    assert(seq![r2].drop_first() =~= Seq::<bool>::empty());
    let run3 = injection_run(InjectionStage::Remux, seq![r2], temp_hevc, hevc_with_rpu);
    assert(injection_run(InjectionStage::Remux, Seq::<bool>::empty(), temp_hevc, hevc_with_rpu).0
        =~= Seq::<Seq<char>>::empty());
    assert(run3.0 =~= seq![hevc_with_rpu]);
    assert(run3.1 == Some(
        if r2 {
            Ok::<(), (ErrorKind, Seq<char>)>(())
        } else {
            Err((ErrorKind::Ffmpeg, "Failed to remux HEVC+RPU into MKV: "@ + e))
        },
    ));
    let run2 = injection_run(InjectionStage::InjectRpu, seq![r1, r2], temp_hevc, hevc_with_rpu);
    if r1 {
        assert(run2.0 =~= seq![temp_hevc] + run3.0);
        assert(run2.1 == run3.1);
    } else {
        assert(run2.0 =~= seq![temp_hevc, hevc_with_rpu]);
    }
    let run = injection_run(InjectionStage::ExtractHevc, rs, temp_hevc, hevc_with_rpu);
    if r0 {
        assert(run.0 =~= Seq::<Seq<char>>::empty() + run2.0);
        assert(run.1 == run2.1);
        assert(run.0[0] == temp_hevc);
        assert(run.0[1] == hevc_with_rpu);
    } else {
        assert(run.0 =~= seq![temp_hevc]);
        assert(run.0[0] == temp_hevc);
    }
}

} // verus!
