//! The command line of the simple front end: what it asks for, its checks,
//! and its help topics.

use vstd::prelude::*;
use crate::encoding::filters::{all_u32, is_crop_text, lemma_crop_parts};
use crate::error::{Error, ErrorKind};
use crate::text::{
    concat, concat3, is_u32_text, owned, seq_join, split_char, split_str, str_eq, strings_view,
    to_lowercase, unicode_lowercase,
};

verus! {

/// The options of the simple front end.
#[derive(Debug, Clone, PartialEq)]
pub struct CliArgs {
    pub input: Vec<String>,
    pub output: Option<String>,
    pub profile: String,
    pub title: Option<String>,
    pub mode: String,
    pub crop: Option<String>,
    pub scale: Option<String>,
    pub use_complexity: bool,
    pub denoise: bool,
    pub deinterlace: bool,
    pub hardware: bool,
    pub web_search_force: bool,
    pub no_web_search: bool,
    pub config: String,
    pub verbose: bool,
    pub debug: bool,
    pub no_color: bool,
    pub help_topic: Option<String>,
    pub list_profiles: bool,
    pub show_profile: Option<String>,
    pub validate_config: bool,
}

/// The profile names the simple front end accepts.
pub open spec fn simple_profile_names() -> Seq<Seq<char>> {
    seq![
        "auto"@,
        "anime"@,
        "classic_anime"@,
        "3d_cgi"@,
        "3d_complex"@,
        "movie"@,
        "movie_mid_grain"@,
        "movie_size_focused"@,
        "heavy_grain"@,
        "4k"@,
        "4k_heavy_grain"@,
    ]
}

fn simple_profile_names_vec() -> (r: Vec<String>)
    ensures
        strings_view(r@) == simple_profile_names(),
{
    let mut v: Vec<String> = Vec::new();
    v.push(owned("auto"));
    v.push(owned("anime"));
    v.push(owned("classic_anime"));
    v.push(owned("3d_cgi"));
    v.push(owned("3d_complex"));
    v.push(owned("movie"));
    v.push(owned("movie_mid_grain"));
    v.push(owned("movie_size_focused"));
    v.push(owned("heavy_grain"));
    v.push(owned("4k"));
    v.push(owned("4k_heavy_grain"));
    assert(strings_view(v@) =~= simple_profile_names());
    v
}

/// `widthxheight`, each side a `u32` or `-1`.
pub open spec fn is_scale_text(scale: Seq<char>) -> bool {
    let parts = split_char(scale, 'x');
    parts.len() == 2 && forall|i: int|
        0 <= i < 2 ==> (#[trigger] parts[i] == "-1"@ || is_u32_text(parts[i]))
}

/// A mode name the encoder knows.
pub open spec fn is_mode(m: Seq<char>) -> bool {
    m == "crf"@ || m == "abr"@ || m == "cbr"@
}

/// The first problem with the options: a missing input (when encoding), a
/// missing configuration file (when encoding), an unknown mode, a bad
/// crop or scale, an unknown profile.
pub open spec fn simple_args_problem(
    a: CliArgs,
    should_encode: bool,
    input_exists: Seq<bool>,
    config_exists: bool,
) -> Option<Seq<char>> {
    let missing = choose|i: int| 0 <= i < a.input@.len() && !input_exists[i] && forall|j: int|
        0 <= j < i ==> input_exists[j];
    if should_encode && a.input@.len() == 0 {
        Some("At least one input path is required for encoding"@)
    } else if should_encode && exists|i: int| 0 <= i < a.input@.len() && !input_exists[i] {
        Some("Input path does not exist: "@ + a.input@[missing]@)
    } else if should_encode && !config_exists {
        Some("Configuration file does not exist: "@ + a.config@)
    } else if !is_mode(a.mode@) {
        Some("Invalid encoding mode: "@ + a.mode@ + " (must be crf, abr, or cbr)"@)
    } else if a.crop is Some && !is_crop_text(a.crop.unwrap()@) {
        Some("Invalid crop format: "@ + a.crop.unwrap()@ + " (expected format: width:height:x:y)"@)
    } else if a.scale is Some && !is_scale_text(a.scale.unwrap()@) {
        Some("Invalid scale format: "@ + a.scale.unwrap()@ + " (expected format: widthxheight)"@)
    } else if !simple_profile_names().contains(a.profile@) {
        Some("Invalid profile: "@ + a.profile@ + " (valid profiles: "@ + seq_join(
            simple_profile_names(),
            ", "@,
        ) + ")"@)
    } else {
        None
    }
}

/// The help text on encoding profiles.
pub open spec fn profiles_help() -> Seq<Seq<char>> {
    seq![
        "AVAILABLE ENCODING PROFILES:"@,
        ""@,
        "Content-Specific Profiles:"@,
        "  anime           - Modern anime content (CRF=23, 9000kbps)"@,
        "  classic_anime   - 90s anime with finer details (CRF=22, 10000kbps)"@,
        "  3d_cgi          - 3D CGI Pixar-like (CRF=22, 10000kbps)"@,
        "  3d_complex      - Complex 3D animation Arcane-like (CRF=22, 11000kbps)"@,
        ""@,
        "Film Profiles:"@,
        "  movie           - Standard movie (CRF=22, 10000kbps)"@,
        "  movie_mid_grain - Movies with lighter grain (CRF=21, 11000kbps)"@,
        "  movie_size_focused - Standard movie smaller size (CRF=22, 10000kbps)"@,
        "  heavy_grain     - 4K heavy grain preservation (CRF=21, 12000kbps)"@,
        ""@,
        "Resolution Profiles:"@,
        "  4k              - General 4K balanced optimization (CRF=22, 15000kbps)"@,
        "  4k_heavy_grain  - 4K heavy grain preservation (CRF=21, 18000kbps)"@,
        ""@,
        "Automatic:"@,
        "  auto            - Intelligent profile selection based on content analysis"@,
    ]
}

/// The help text on encoding profiles.
fn profiles_help_lines() -> (r: Vec<String>)
    ensures
        strings_view(r@) == profiles_help(),
{
    let mut v: Vec<String> = Vec::new();
    v.push(owned("AVAILABLE ENCODING PROFILES:"));
    v.push(owned(""));
    v.push(owned("Content-Specific Profiles:"));
    v.push(owned("  anime           - Modern anime content (CRF=23, 9000kbps)"));
    v.push(owned("  classic_anime   - 90s anime with finer details (CRF=22, 10000kbps)"));
    v.push(owned("  3d_cgi          - 3D CGI Pixar-like (CRF=22, 10000kbps)"));
    v.push(owned("  3d_complex      - Complex 3D animation Arcane-like (CRF=22, 11000kbps)"));
    v.push(owned(""));
    v.push(owned("Film Profiles:"));
    v.push(owned("  movie           - Standard movie (CRF=22, 10000kbps)"));
    v.push(owned("  movie_mid_grain - Movies with lighter grain (CRF=21, 11000kbps)"));
    v.push(owned("  movie_size_focused - Standard movie smaller size (CRF=22, 10000kbps)"));
    v.push(owned("  heavy_grain     - 4K heavy grain preservation (CRF=21, 12000kbps)"));
    v.push(owned(""));
    v.push(owned("Resolution Profiles:"));
    v.push(owned("  4k              - General 4K balanced optimization (CRF=22, 15000kbps)"));
    v.push(owned("  4k_heavy_grain  - 4K heavy grain preservation (CRF=21, 18000kbps)"));
    v.push(owned(""));
    v.push(owned("Automatic:"));
    v.push(owned("  auto            - Intelligent profile selection based on content analysis"));
    assert(strings_view(v@) =~= profiles_help());
    v
}

/// The help text on encoding modes.
pub open spec fn modes_help() -> Seq<Seq<char>> {
    seq![
        "ENCODING MODES:"@,
        ""@,
        "CRF Mode (-m crf):"@,
        "  Single-pass encoding using only CRF value for quality control"@,
        "  Best for: Archival quality, variable file sizes"@,
        "  Technical: Pure quality-based encoding without bitrate constraints"@,
        ""@,
        "ABR Mode (-m abr) [DEFAULT]:"@,
        "  Two-pass average bitrate encoding"@,
        "  Best for: Streaming delivery with predictable file sizes"@,
        "  Pass 1: Fast analysis pass, Pass 2: Quality-optimized encoding"@,
        ""@,
        "CBR Mode (-m cbr):"@,
        "  Two-pass constant bitrate with VBV buffer constraints"@,
        "  Best for: Broadcast transmission with constant bandwidth"@,
        "  Technical: Maintains strict bitrate limits for streaming"@,
    ]
}

/// The help text on encoding modes.
fn modes_help_lines() -> (r: Vec<String>)
    ensures
        strings_view(r@) == modes_help(),
{
    let mut v: Vec<String> = Vec::new();
    v.push(owned("ENCODING MODES:"));
    v.push(owned(""));
    v.push(owned("CRF Mode (-m crf):"));
    v.push(owned("  Single-pass encoding using only CRF value for quality control"));
    v.push(owned("  Best for: Archival quality, variable file sizes"));
    v.push(owned("  Technical: Pure quality-based encoding without bitrate constraints"));
    v.push(owned(""));
    v.push(owned("ABR Mode (-m abr) [DEFAULT]:"));
    v.push(owned("  Two-pass average bitrate encoding"));
    v.push(owned("  Best for: Streaming delivery with predictable file sizes"));
    v.push(owned("  Pass 1: Fast analysis pass, Pass 2: Quality-optimized encoding"));
    v.push(owned(""));
    v.push(owned("CBR Mode (-m cbr):"));
    v.push(owned("  Two-pass constant bitrate with VBV buffer constraints"));
    v.push(owned("  Best for: Broadcast transmission with constant bandwidth"));
    v.push(owned("  Technical: Maintains strict bitrate limits for streaming"));
    assert(strings_view(v@) =~= modes_help());
    v
}

/// The help text with usage examples.
pub open spec fn examples_help() -> Seq<Seq<char>> {
    seq![
        "USAGE EXAMPLES:"@,
        ""@,
        "Basic Usage:"@,
        "  ffmpeg-encoder -i input.mkv -p auto"@,
        "  ffmpeg-encoder -i input.mkv -o output.mkv -p anime -m crf"@,
        ""@,
        "Advanced Options:"@,
        "  ffmpeg-encoder -i input.mkv -p 4k_heavy_grain --use-complexity --denoise"@,
        "  ffmpeg-encoder -i input.mkv -p movie --hardware --deinterlace -m abr"@,
        ""@,
        "Batch Processing:"@,
        "  ffmpeg-encoder -i ~/Videos/Raw/ -p auto -m crf"@,
        ""@,
        "Manual Overrides:"@,
        "  ffmpeg-encoder -i input.mkv -p anime -c 1920:800:0:140 -s 1920x1080"@,
        "  ffmpeg-encoder -i input.mkv -p auto --web-search-force -t \"Movie Title\""@,
    ]
}

/// The help text with usage examples.
fn examples_help_lines() -> (r: Vec<String>)
    ensures
        strings_view(r@) == examples_help(),
{
    let mut v: Vec<String> = Vec::new();
    v.push(owned("USAGE EXAMPLES:"));
    v.push(owned(""));
    v.push(owned("Basic Usage:"));
    v.push(owned("  ffmpeg-encoder -i input.mkv -p auto"));
    v.push(owned("  ffmpeg-encoder -i input.mkv -o output.mkv -p anime -m crf"));
    v.push(owned(""));
    v.push(owned("Advanced Options:"));
    v.push(owned("  ffmpeg-encoder -i input.mkv -p 4k_heavy_grain --use-complexity --denoise"));
    v.push(owned("  ffmpeg-encoder -i input.mkv -p movie --hardware --deinterlace -m abr"));
    v.push(owned(""));
    v.push(owned("Batch Processing:"));
    v.push(owned("  ffmpeg-encoder -i ~/Videos/Raw/ -p auto -m crf"));
    v.push(owned(""));
    v.push(owned("Manual Overrides:"));
    v.push(owned("  ffmpeg-encoder -i input.mkv -p anime -c 1920:800:0:140 -s 1920x1080"));
    v.push(owned("  ffmpeg-encoder -i input.mkv -p auto --web-search-force -t \"Movie Title\""));
    assert(strings_view(v@) =~= examples_help());
    v
}

/// The help text of a topic (named in any letter case).
pub open spec fn help_topic_text(topic: Seq<char>) -> Seq<Seq<char>> {
    let l = unicode_lowercase(topic);
    if l == "profiles"@ {
        profiles_help()
    } else if l == "modes"@ {
        modes_help()
    } else if l == "examples"@ {
        examples_help()
    } else {
        seq!["Unknown help topic: "@ + topic, "Available topics: profiles, modes, examples"@]
    }
}

/// The index of the first input that does not exist.
fn first_missing(input_exists: &Vec<bool>, n: usize) -> (r: Option<usize>)
    requires
        n <= input_exists@.len(),
    ensures
        match r {
            Some(i) => i < n && !input_exists@[i as int] && forall|j: int|
                0 <= j < i ==> input_exists@[j],
            None => forall|j: int| 0 <= j < n ==> input_exists@[j],
        },
{
    let mut i: usize = 0;
    while i < n
        invariant
            i <= n,
            n <= input_exists@.len(),
            forall|j: int| 0 <= j < i ==> input_exists@[j],
        decreases n - i,
    {
        if !input_exists[i] {
            return Some(i);
        }
        i = i + 1;
    }
    None
}

impl CliArgs {
    /// `debug` with `--debug`, `info` with `--verbose`, else `warn`.
    pub fn get_log_level(&self) -> (r: &'static str)
        ensures
            r@ == (if self.debug {
                "debug"@
            } else if self.verbose {
                "info"@
            } else {
                "warn"@
            }),
    {
        if self.debug {
            "debug"
        } else if self.verbose {
            "info"
        } else {
            "warn"
        }
    }

    pub fn should_use_color(&self) -> (r: bool)
        ensures
            r == !self.no_color,
    {
        !self.no_color
    }

    /// An informational command (listing, showing, validating, help).
    pub fn is_info_command(&self) -> (r: bool)
        ensures
            r == (self.list_profiles || self.show_profile is Some || self.validate_config
                || self.help_topic is Some),
    {
        self.list_profiles || self.show_profile.is_some() || self.validate_config
            || self.help_topic.is_some()
    }

    /// Encoding is asked for: no informational command and some input.
    pub fn should_encode(&self) -> (r: bool)
        ensures
            r == (!(self.list_profiles || self.show_profile is Some || self.validate_config
                || self.help_topic is Some) && self.input@.len() > 0),
    {
        !self.is_info_command() && self.input.len() > 0
    }

    /// Checks the options; `input_exists` says for each input whether it
    /// exists, `config_exists` whether the configuration file does.
    pub fn validate(&self, input_exists: &Vec<bool>, config_exists: bool) -> (r: Result<(), Error>)
        requires
            input_exists@.len() == self.input@.len(),
        ensures
            match simple_args_problem(
                *self,
                !(self.list_profiles || self.show_profile is Some || self.validate_config
                    || self.help_topic is Some) && self.input@.len() > 0,
                input_exists@,
                config_exists,
            ) {
                Some(m) => r matches Err(e) && e@ == (ErrorKind::Validation, m),
                None => r is Ok,
            },
    {
        if self.should_encode() {
            if self.input.len() == 0 {
                return Err(
                    Error::validation(owned("At least one input path is required for encoding")),
                );
            }
            match first_missing(input_exists, self.input.len()) {
                Some(i) => {
                    return Err(
                        Error::validation(concat("Input path does not exist: ", self.input[i].as_str())),
                    );
                },
                None => {},
            }
            if !config_exists {
                return Err(
                    Error::validation(
                        concat("Configuration file does not exist: ", self.config.as_str()),
                    ),
                );
            }
        }
        let m = self.mode.as_str();
        if !(str_eq(m, "crf") || str_eq(m, "abr") || str_eq(m, "cbr")) {
            return Err(
                Error::validation(
                    concat3("Invalid encoding mode: ", m, " (must be crf, abr, or cbr)"),
                ),
            );
        }
        if let Some(crop) = &self.crop {
            if !self.is_valid_crop_format(crop.as_str()) {
                return Err(
                    Error::validation(
                        concat3(
                            "Invalid crop format: ",
                            crop.as_str(),
                            " (expected format: width:height:x:y)",
                        ),
                    ),
                );
            }
        }
        if let Some(scale) = &self.scale {
            if !self.is_valid_scale_format(scale.as_str()) {
                return Err(
                    Error::validation(
                        concat3(
                            "Invalid scale format: ",
                            scale.as_str(),
                            " (expected format: widthxheight)",
                        ),
                    ),
                );
            }
        }
        let names = simple_profile_names_vec();
        let mut known = false;
        let mut i: usize = 0;
        while i < names.len()
            invariant
                i <= names@.len(),
                strings_view(names@) == simple_profile_names(),
                known == exists|j: int| 0 <= j < i && simple_profile_names()[j] == self.profile@,
            decreases names.len() - i,
        {
            assert(strings_view(names@)[i as int] == names@[i as int]@);
            if str_eq(names[i].as_str(), self.profile.as_str()) {
                known = true;
            }
            i = i + 1;
        }
        if !known {
            let list = crate::text::join_strings(&names, ", ");
            let head = concat3("Invalid profile: ", self.profile.as_str(), " (valid profiles: ");
            let body = concat(head.as_str(), list.as_str());
            return Err(Error::validation(concat(body.as_str(), ")")));
        }
        Ok(())
    }

    /// A crop is `width:height:x:y` with four `u32` fields.
    pub fn is_valid_crop_format(&self, crop: &str) -> (r: bool)
        ensures
            r == is_crop_text(crop@),
    {
        let parts = split_str(crop, ':');
        if parts.len() != 4 {
            return false;
        }
        proof { lemma_crop_parts(crop@, parts@); }
        all_u32(&parts)
    }

    /// A scale is `widthxheight`, each side a `u32` or `-1`.
    pub fn is_valid_scale_format(&self, scale: &str) -> (r: bool)
        ensures
            r == is_scale_text(scale@),
    {
        let parts = split_str(scale, 'x');
        if parts.len() != 2 {
            return false;
        }
        let mut i: usize = 0;
        while i < 2
            invariant
                i <= 2,
                parts@.len() == 2,
                strings_view(parts@) == split_char(scale@, 'x'),
                forall|j: int|
                    0 <= j < i ==> (#[trigger] split_char(scale@, 'x')[j] == "-1"@ || is_u32_text(
                        split_char(scale@, 'x')[j],
                    )),
            decreases 2 - i,
        {
            assert(strings_view(parts@)[i as int] == parts@[i as int]@);
            let p = parts[i].as_str();
            if !(str_eq(p, "-1") || crate::text::parse_u32(p).is_some()) {
                return false;
            }
            i = i + 1;
        }
        true
    }

    /// The help text of a topic, one entry per printed line.
    pub fn print_help_topic(&self, topic: &str) -> (r: Vec<String>)
        ensures
            strings_view(r@) == help_topic_text(topic@),
    {
        let l = to_lowercase(topic);
        if str_eq(l.as_str(), "profiles") {
            profiles_help_lines()
        } else if str_eq(l.as_str(), "modes") {
            modes_help_lines()
        } else if str_eq(l.as_str(), "examples") {
            examples_help_lines()
        } else {
            let mut v: Vec<String> = Vec::new();
            v.push(concat("Unknown help topic: ", topic));
            v.push(owned("Available topics: profiles, modes, examples"));
            assert(strings_view(v@) =~= help_topic_text(topic@));
            v
        }
    }
}

} // verus!
