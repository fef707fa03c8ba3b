//! The FFmpeg and ffprobe programs the library drives.

use vstd::prelude::*;

verus! {

/// Where the `ffmpeg` and `ffprobe` programs are.
#[derive(Debug, Clone, PartialEq, Eq)]
pub struct FfmpegWrapper {
    pub ffmpeg_path: String,
    pub ffprobe_path: String,
}

impl FfmpegWrapper {
    pub fn new(ffmpeg_path: String, ffprobe_path: String) -> (r: Self)
        ensures
            r.ffmpeg_path == ffmpeg_path,
            r.ffprobe_path == ffprobe_path,
    {
        FfmpegWrapper { ffmpeg_path, ffprobe_path }
    }
}

} // verus!
