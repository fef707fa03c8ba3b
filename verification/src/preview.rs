//! Preview encodes of a short part of a video with several profiles: file
//! names, FFmpeg command lines and outcomes.

use vstd::prelude::*;
use crate::config::profiles::{with_mode, EncodingProfile};
use crate::error::{Error, ErrorKind};
use crate::params::{pm_get, x265_params_text};
use crate::paths::{
    free_of_separators, is_join_safe_name, join, keeps_parent, lemma_free_concat, no_drive_prefix,
    lemma_join_safe_concat, parent, path_file_name, path_join, path_parent, path_with_extension,
    with_extension,
};
use crate::text::{concat, owned, push_strs, strings_view};

verus! {

/// One preview that was written.
pub struct PreviewResult {
    pub profile_name: String,
    pub output_path: String,
    pub file_size: u64,
    pub encoding_duration: core::time::Duration,
}

/// The directory previews go to: the one given, else the input's
/// directory, else the working directory.
pub open spec fn preview_dir(output_dir: Option<Seq<char>>, input: Seq<char>) -> Seq<char> {
    match output_dir {
        Some(d) => d,
        None => match path_parent(input) {
            Some(p) => p,
            None => "."@,
        },
    }
}

pub fn preview_output_dir(output_dir: Option<&str>, input: &str) -> (r: String)
    ensures
        r@ == preview_dir(
            match output_dir {
                Some(d) => Some(d@),
                None => None,
            },
            input@,
        ),
        output_dir is None ==> r@ == "."@ || keeps_parent(r@),
{
    match output_dir {
        Some(d) => owned(d),
        None => match parent(input) {
            Some(p) => p,
            None => owned("."),
        },
    }
}

/// The name of a preview file: run id, profile, time span as written and
/// extension (`png` for an image, `mkv` for a video segment), as
/// `{id}_preview_{profile}_{time}.{ext}`.
pub open spec fn preview_name(
    uuid: Seq<char>,
    profile: Seq<char>,
    time_info: Seq<char>,
    image: bool,
) -> Seq<char> {
    uuid + "_preview_"@ + profile + "_"@ + time_info + "."@ + (if image {
        "png"@
    } else {
        "mkv"@
    })
}

proof fn lemma_preview_name_safe(uuid: Seq<char>, profile: Seq<char>, time_info: Seq<char>, image: bool)
    ensures
        free_of_separators(uuid) && free_of_separators(profile) && free_of_separators(time_info)
            && no_drive_prefix(uuid) ==> is_join_safe_name(
            preview_name(uuid, profile, time_info, image),
        ),
{
    reveal_strlit("_preview_");
    reveal_strlit("_");
    reveal_strlit(".");
    reveal_strlit("png");
    reveal_strlit("mkv");
    assert(free_of_separators("_preview_"@)) by {
        assert(forall|i: int| 0 <= i < 9 ==> "_preview_"@[i] != '/' && "_preview_"@[i] != '\\');
    }
    assert(free_of_separators("_"@)) by {
        assert("_"@[0] != '/' && "_"@[0] != '\\');
    }
    assert(free_of_separators("."@)) by {
        assert("."@[0] != '/' && "."@[0] != '\\');
    }
    let ext = if image { "png"@ } else { "mkv"@ };
    assert(free_of_separators(ext)) by {
        assert(forall|i: int| 0 <= i < 3 ==> ext[i] != '/' && ext[i] != '\\');
    }
    if free_of_separators(uuid) && free_of_separators(profile) && free_of_separators(time_info)
        && no_drive_prefix(uuid) {
        let a1 = uuid + "_preview_"@;
        lemma_free_concat(uuid, "_preview_"@);
        let a2 = a1 + profile;
        lemma_free_concat(a1, profile);
        let a3 = a2 + "_"@;
        lemma_free_concat(a2, "_"@);
        let a4 = a3 + time_info;
        lemma_free_concat(a3, time_info);
        let a5 = a4 + "."@;
        lemma_free_concat(a4, "."@);
        let n = a5 + ext;
        assert(n == preview_name(uuid, profile, time_info, image));
        assert(n[1] == a1[1]);
        if uuid.len() >= 2 {
            assert(a1[1] == uuid[1]);
        } else if uuid.len() == 1 {
            assert(a1[1] == "_preview_"@[0]);
        } else {
            assert(a1[1] == "_preview_"@[1]);
        }
        lemma_join_safe_concat(a5, ext);
    }
}

/// The path of a preview file in `dir`.
pub fn preview_file_path(
    dir: &str,
    profile: &str,
    time_info: &str,
    uuid: &str,
    image: bool,
) -> (r: String)
    ensures
        r@ == path_join(dir@, preview_name(uuid@, profile@, time_info@, image)),
        free_of_separators(uuid@) && free_of_separators(profile@) && free_of_separators(time_info@)
            && no_drive_prefix(uuid@) ==> path_file_name(r@) == Some(
            preview_name(uuid@, profile@, time_info@, image),
        ),
        free_of_separators(uuid@) && free_of_separators(profile@) && free_of_separators(time_info@)
            && no_drive_prefix(uuid@) && (dir@ == "."@ || keeps_parent(dir@)) ==> path_parent(r@)
            == Some(dir@),
{
    proof {
        lemma_preview_name_safe(uuid@, profile@, time_info@, image);
    }
    let mut name = owned(uuid);
    name.append("_preview_");
    name.append(profile);
    name.append("_");
    name.append(time_info);
    name.append(".");
    if image {
        name.append("png");
    } else {
        name.append("mkv");
    }
    join(dir, name.as_str())
}

/// The x265 preset of a profile, `medium` where it sets none.
pub open spec fn profile_preset(p: EncodingProfile) -> Seq<char> {
    match pm_get(p.x265_params@, "preset"@) {
        Some(v) => v,
        None => "medium"@,
    }
}

fn preset_of(profile: &EncodingProfile) -> (r: String)
    ensures
        r@ == profile_preset(*profile),
{
    match profile.x265_params.get("preset") {
        Some(v) => v.clone(),
        None => owned("medium"),
    }
}

/// The x265 parameters of a preview: the profile's own, as for SDR.
pub open spec fn preview_x265(p: EncodingProfile) -> Seq<char> {
    x265_params_text(with_mode(p.x265_params@, None))
}

/// Encoding of the single frame at `timestamp` into a temporary file.
pub open spec fn image_encode_args_spec(
    timestamp: Seq<char>,
    input: Seq<char>,
    p: EncodingProfile,
    crf: Seq<char>,
    output: Seq<char>,
) -> Seq<Seq<char>> {
    seq![
        "-ss"@,
        timestamp,
        "-i"@,
        input,
        "-vframes"@,
        "1"@,
        "-c:v"@,
        "libx265"@,
        "-x265-params"@,
        preview_x265(p),
        "-crf"@,
        crf,
        "-preset"@,
        profile_preset(p),
        "-an"@,
        "-y"@,
        path_with_extension(output, "temp.mkv"@),
    ]
}

/// Extraction of the encoded frame to PNG.
pub open spec fn image_extract_args_spec(output: Seq<char>) -> Seq<Seq<char>> {
    seq![
        "-i"@,
        path_with_extension(output, "temp.mkv"@),
        "-vframes"@,
        "1"@,
        "-c:v"@,
        "png"@,
        "-y"@,
        path_with_extension(output, "png"@),
    ]
}

/// Encoding of the segment between `start` and `end`, audio copied.
pub open spec fn segment_args_spec(
    start: Seq<char>,
    end: Seq<char>,
    input: Seq<char>,
    p: EncodingProfile,
    crf: Seq<char>,
    output: Seq<char>,
) -> Seq<Seq<char>> {
    seq![
        "-ss"@,
        start,
        "-to"@,
        end,
        "-i"@,
        input,
        "-c:v"@,
        "libx265"@,
        "-x265-params"@,
        preview_x265(p),
        "-crf"@,
        crf,
        "-preset"@,
        profile_preset(p),
        "-c:a"@,
        "copy"@,
        "-y"@,
        output,
    ]
}

proof fn lemma_temp_ext_has_no_separator()
    ensures
        !"temp.mkv"@.contains('/'),
        !"temp.mkv"@.contains('\\'),
{
    reveal_strlit("temp.mkv");
    assert(forall|i: int| 0 <= i < 8 ==> "temp.mkv"@[i] != '/' && "temp.mkv"@[i] != '\\');
}

/// The first FFmpeg command of an image preview: the frame at `timestamp`
/// (as written) encoded with the profile at quality `crf` (as written).
pub fn image_encode_args(
    timestamp: &str,
    input: &str,
    profile: &EncodingProfile,
    crf: &str,
    output: &str,
) -> (r: Vec<String>)
    ensures
        strings_view(r@) == image_encode_args_spec(timestamp@, input@, *profile, crf@, output@),
{
    let x265 = profile.build_x265_params_string(None);
    let preset = preset_of(profile);
    proof {
        lemma_temp_ext_has_no_separator();
    }
    let temp = with_extension(output, "temp.mkv");
    let mut v: Vec<String> = Vec::new();
    push_strs(&mut v, &["-ss", timestamp, "-i", input, "-vframes", "1", "-c:v", "libx265", "-x265-params", x265.as_str(), "-crf", crf, "-preset", preset.as_str(), "-an", "-y", temp.as_str()]);
    assert(strings_view(v@) =~= image_encode_args_spec(timestamp@, input@, *profile, crf@, output@));
    v
}

/// The second FFmpeg command of an image preview: the encoded frame
/// written as PNG.
pub fn image_extract_args(output: &str) -> (r: Vec<String>)
    ensures
        strings_view(r@) == image_extract_args_spec(output@),
{
    proof {
        lemma_temp_ext_has_no_separator();
        reveal_strlit("png");
        assert(!"png"@.contains('/') && !"png"@.contains('\\')) by {
            assert(forall|i: int| 0 <= i < 3 ==> "png"@[i] != '/' && "png"@[i] != '\\');
        }
    }
    let temp = with_extension(output, "temp.mkv");
    let png = with_extension(output, "png");
    let mut v: Vec<String> = Vec::new();
    push_strs(&mut v, &["-i", temp.as_str(), "-vframes", "1", "-c:v", "png", "-y", png.as_str()]);
    assert(strings_view(v@) =~= image_extract_args_spec(output@));
    v
}

/// The FFmpeg command of a video-segment preview.
pub fn segment_args(
    start: &str,
    end: &str,
    input: &str,
    profile: &EncodingProfile,
    crf: &str,
    output: &str,
) -> (r: Vec<String>)
    ensures
        strings_view(r@) == segment_args_spec(start@, end@, input@, *profile, crf@, output@),
{
    let x265 = profile.build_x265_params_string(None);
    let preset = preset_of(profile);
    let mut v: Vec<String> = Vec::new();
    push_strs(&mut v, &["-ss", start, "-to", end, "-i", input, "-c:v", "libx265", "-x265-params", x265.as_str(), "-crf", crf, "-preset", preset.as_str(), "-c:a", "copy", "-y", output]);
    assert(strings_view(v@) =~= segment_args_spec(start@, end@, input@, *profile, crf@, output@));
    v
}

/// The FFmpeg steps of a preview.
#[derive(Debug, Clone, Copy, PartialEq, Eq, Structural)]
pub enum PreviewStep {
    EncodeFrame,
    ExtractPng,
    EncodeSegment,
}

/// The message of a failed step, before FFmpeg's error output.
pub open spec fn step_failure_prefix(s: PreviewStep) -> Seq<char> {
    match s {
        PreviewStep::EncodeFrame => "FFmpeg failed to encode preview frame: "@,
        PreviewStep::ExtractPng => "FFmpeg failed to extract PNG: "@,
        PreviewStep::EncodeSegment => "FFmpeg failed to generate video preview: "@,
    }
}

/// The outcome of a preview step: an FFmpeg error carrying its error
/// output where it failed.
pub fn check_preview_step(step: PreviewStep, success: bool, stderr: &str) -> (r: Result<(), Error>)
    ensures
        success <==> r is Ok,
        !success ==> (r matches Err(e) && e@ == (ErrorKind::Ffmpeg, step_failure_prefix(step) + stderr@)),
{
    if success {
        return Ok(());
    }
    let prefix = match step {
        PreviewStep::EncodeFrame => "FFmpeg failed to encode preview frame: ",
        PreviewStep::ExtractPng => "FFmpeg failed to extract PNG: ",
        PreviewStep::EncodeSegment => "FFmpeg failed to generate video preview: ",
    };
    Err(Error::ffmpeg(concat(prefix, stderr)))
}

/// A preview run fails when no preview was written.
pub fn check_previews(results: &Vec<PreviewResult>) -> (r: Result<(), Error>)
    ensures
        results@.len() > 0 <==> r is Ok,
        results@.len() == 0 ==> (r matches Err(e) && e@ == (
            ErrorKind::Encoding,
            "No previews were successfully generated"@,
        )),
{
    if results.len() > 0 {
        Ok(())
    } else {
        Err(Error::encoding(owned("No previews were successfully generated")))
    }
}

} // verus!
