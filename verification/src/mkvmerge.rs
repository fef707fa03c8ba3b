//! `mkvmerge` invocations: remuxing an HEVC bitstream with the streams of
//! the source container.

use vstd::prelude::*;
use crate::text::{concat3, owned, strings_view};

verus! {

/// Where `mkvmerge` is and how long a run may take.
pub struct MkvMergeConfig {
    pub path: String,
    pub timeout_seconds: u64,
}

/// The `mkvmerge` front end.
pub struct MkvMergeTool {
    pub path: String,
    pub timeout_seconds: u64,
}

/// The remux arguments: the output, the bitstream's frame duration from
/// the frame rate `fps` (as written), no audio, subtitles or chapters from
/// the bitstream, then every stream but video from the source.
pub open spec fn remux_args_spec(
    hevc: Seq<char>,
    source: Seq<char>,
    output: Seq<char>,
    fps: Seq<char>,
) -> Seq<Seq<char>> {
    seq![
        "-o"@,
        output,
        "--default-duration"@,
        "0:"@ + fps + "fps"@,
        "--no-audio"@,
        "--no-subtitles"@,
        "--no-chapters"@,
        hevc,
        "-D"@,
        source,
    ]
}

impl MkvMergeTool {
    pub fn new(config: MkvMergeConfig) -> (r: Self)
        ensures
            r.path == config.path,
            r.timeout_seconds == config.timeout_seconds,
    {
        MkvMergeTool { path: config.path, timeout_seconds: config.timeout_seconds }
    }

    /// The arguments of the availability check.
    pub fn version_args() -> (r: Vec<String>)
        ensures
            strings_view(r@) == seq!["--version"@],
    {
        let mut v: Vec<String> = Vec::new();
        v.push(owned("--version"));
        assert(strings_view(v@) =~= seq!["--version"@]);
        v
    }

    /// The arguments that remux `hevc` with the streams of `source` into
    /// `output`, `fps` being the frame rate as written.
    pub fn remux_args(hevc: &str, source: &str, output: &str, fps: &str) -> (r: Vec<String>)
        ensures
            strings_view(r@) == remux_args_spec(hevc@, source@, output@, fps@),
    {
        let mut v: Vec<String> = Vec::new();
        v.push(owned("-o"));
        v.push(owned(output));
        v.push(owned("--default-duration"));
        v.push(concat3("0:", fps, "fps"));
        v.push(owned("--no-audio"));
        v.push(owned("--no-subtitles"));
        v.push(owned("--no-chapters"));
        v.push(owned(hevc));
        v.push(owned("-D"));
        v.push(owned(source));
        assert(strings_view(v@) =~= remux_args_spec(hevc@, source@, output@, fps@));
        v
    }
}

} // verus!
