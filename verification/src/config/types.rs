//! Configuration records: content types, tool settings, filter settings and
//! stream-selection profiles.

use vstd::prelude::*;
use crate::text::{
    all_ascii, ascii_lower, opt_strings_view, owned, str_eq, to_lowercase, unicode_lowercase,
};

verus! {

/// Kind of video content, which selects an encoding profile.
#[derive(Debug, Clone, Copy, PartialEq, Eq, Structural)]
pub enum ContentType {
    Anime,
    ClassicAnime,
    Animation3D,
    Film,
    HeavyGrain,
    LightGrain,
    Action,
    CleanDigital,
    Mixed,
}

/// Configuration name of a content type.
pub open spec fn content_type_name(t: ContentType) -> Seq<char> {
    match t {
        ContentType::Anime => "anime"@,
        ContentType::ClassicAnime => "classic_anime"@,
        ContentType::Animation3D => "3d_animation"@,
        ContentType::Film => "film"@,
        ContentType::HeavyGrain => "heavy_grain"@,
        ContentType::LightGrain => "light_grain"@,
        ContentType::Action => "action"@,
        ContentType::CleanDigital => "clean_digital"@,
        ContentType::Mixed => "mixed"@,
    }
}

/// Content type named by a lower-cased name.
pub open spec fn content_type_from_lower(t: Seq<char>) -> Option<ContentType> {
    if t == "anime"@ {
        Some(ContentType::Anime)
    } else if t == "classic_anime"@ {
        Some(ContentType::ClassicAnime)
    } else if t == "3d_animation"@ {
        Some(ContentType::Animation3D)
    } else if t == "film"@ {
        Some(ContentType::Film)
    } else if t == "heavy_grain"@ {
        Some(ContentType::HeavyGrain)
    } else if t == "light_grain"@ {
        Some(ContentType::LightGrain)
    } else if t == "action"@ {
        Some(ContentType::Action)
    } else if t == "clean_digital"@ {
        Some(ContentType::CleanDigital)
    } else if t == "mixed"@ {
        Some(ContentType::Mixed)
    } else {
        None
    }
}

impl ContentType {
    pub fn as_str(&self) -> (r: &'static str)
        ensures
            r@ == content_type_name(*self),
    {
        match self {
            ContentType::Anime => "anime",
            ContentType::ClassicAnime => "classic_anime",
            ContentType::Animation3D => "3d_animation",
            ContentType::Film => "film",
            ContentType::HeavyGrain => "heavy_grain",
            ContentType::LightGrain => "light_grain",
            ContentType::Action => "action",
            ContentType::CleanDigital => "clean_digital",
            ContentType::Mixed => "mixed",
        }
    }

    /// Reads a content type from its name in any letter case.
    pub fn from_string(s: &str) -> (r: Option<ContentType>)
        ensures
            r == content_type_from_lower(unicode_lowercase(s@)),
            all_ascii(s@) ==> r == content_type_from_lower(ascii_lower(s@)),
    {
        let l = to_lowercase(s);
        let t = l.as_str();
        if str_eq(t, "anime") {
            Some(ContentType::Anime)
        } else if str_eq(t, "classic_anime") {
            Some(ContentType::ClassicAnime)
        } else if str_eq(t, "3d_animation") {
            Some(ContentType::Animation3D)
        } else if str_eq(t, "film") {
            Some(ContentType::Film)
        } else if str_eq(t, "heavy_grain") {
            Some(ContentType::HeavyGrain)
        } else if str_eq(t, "light_grain") {
            Some(ContentType::LightGrain)
        } else if str_eq(t, "action") {
            Some(ContentType::Action)
        } else if str_eq(t, "clean_digital") {
            Some(ContentType::CleanDigital)
        } else if str_eq(t, "mixed") {
            Some(ContentType::Mixed)
        } else {
            None
        }
    }
}

/// Reading back the name of a content type gives the content type.
pub proof fn law_content_type_name_round_trip(t: ContentType)
    ensures
        all_ascii(content_type_name(t)),
        content_type_from_lower(ascii_lower(content_type_name(t))) == Some(t),
{
    reveal_strlit("anime");
    reveal_strlit("classic_anime");
    reveal_strlit("3d_animation");
    reveal_strlit("film");
    reveal_strlit("heavy_grain");
    reveal_strlit("light_grain");
    reveal_strlit("action");
    reveal_strlit("clean_digital");
    reveal_strlit("mixed");
    let p = content_type_name(t);
    assert(ascii_lower(p) =~= p);
    assert("heavy_grain"@[0] != "light_grain"@[0]);
    assert("anime"@[0] != "mixed"@[0]);
    assert("classic_anime"@[2] != "clean_digital"@[2]);
}

#[derive(Debug, Clone, PartialEq)]
pub struct AppConfig {
    pub temp_dir: String,
    pub stats_prefix: String,
}

/// Settings of an external metadata tool (`dovi_tool`, `hdr10plus_tool`).
#[derive(Debug, Clone, PartialEq)]
pub struct ToolConfig {
    pub path: String,
    pub timeout_seconds: u64,
    pub extract_args: Option<Vec<String>>,
    pub inject_args: Option<Vec<String>>,
}

/// `dovi_tool` settings.
pub type DoviToolConfig = ToolConfig;

impl Default for ToolConfig {
    fn default() -> (r: Self)
        ensures
            r.path@ == "dovi_tool"@,
            r.timeout_seconds == 300,
            r.extract_args.is_none(),
            r.inject_args.is_none(),
    {
        ToolConfig {
            path: owned("dovi_tool"),
            timeout_seconds: 300,
            extract_args: None,
            inject_args: None,
        }
    }
}

#[derive(Debug, Clone, PartialEq)]
pub struct ToolsConfig {
    pub ffmpeg: String,
    pub ffprobe: String,
    pub nnedi_weights: Option<String>,
    pub dovi_tool: Option<DoviToolConfig>,
    pub hdr10plus_tool: Option<ToolConfig>,
}

#[derive(Debug, Clone, PartialEq)]
pub struct LoggingConfig {
    pub level: String,
    pub show_timestamps: bool,
    pub colored_output: bool,
}

#[derive(Debug, Clone, PartialEq)]
pub struct ToneMappingConfig {
    pub enabled: bool,
    pub target_max_nits: u32,
    pub algorithm: String,
}

#[derive(Debug, Clone, PartialEq)]
pub struct NnediSettings {
    pub field: String,
}

#[derive(Debug, Clone, PartialEq)]
pub struct DeinterlaceConfig {
    pub primary_method: String,
    pub fallback_method: String,
    pub nnedi_settings: NnediSettings,
}

#[derive(Debug, Clone, PartialEq)]
pub struct DenoiseConfig {
    pub filter: String,
    pub params: String,
}

#[derive(Debug, Clone, PartialEq)]
pub struct FiltersConfig {
    pub deinterlace: DeinterlaceConfig,
    pub denoise: DenoiseConfig,
}

/// Rules that pick audio streams; `None` means no restriction.
#[derive(Debug, Clone, PartialEq)]
pub struct AudioSelectionConfig {
    pub languages: Option<Vec<String>>,
    pub codecs: Option<Vec<String>>,
    pub dispositions: Option<Vec<String>>,
    pub title_patterns: Option<Vec<String>>,
    pub exclude_commentary: bool,
    pub max_streams: Option<usize>,
}

/// Rules that pick subtitle streams; `None` means no restriction.
#[derive(Debug, Clone, PartialEq)]
pub struct SubtitleSelectionConfig {
    pub languages: Option<Vec<String>>,
    pub codecs: Option<Vec<String>>,
    pub dispositions: Option<Vec<String>>,
    pub title_patterns: Option<Vec<String>>,
    pub exclude_commentary: bool,
    pub include_forced_only: bool,
    pub max_streams: Option<usize>,
}

/// Mathematical content of an audio selection.
pub struct AudioSelectionView {
    pub languages: Option<Seq<Seq<char>>>,
    pub codecs: Option<Seq<Seq<char>>>,
    pub dispositions: Option<Seq<Seq<char>>>,
    pub title_patterns: Option<Seq<Seq<char>>>,
    pub exclude_commentary: bool,
    pub max_streams: Option<usize>,
}

/// Mathematical content of a subtitle selection.
pub struct SubtitleSelectionView {
    pub languages: Option<Seq<Seq<char>>>,
    pub codecs: Option<Seq<Seq<char>>>,
    pub dispositions: Option<Seq<Seq<char>>>,
    pub title_patterns: Option<Seq<Seq<char>>>,
    pub exclude_commentary: bool,
    pub include_forced_only: bool,
    pub max_streams: Option<usize>,
}

impl View for AudioSelectionConfig {
    type V = AudioSelectionView;

    open spec fn view(&self) -> AudioSelectionView {
        AudioSelectionView {
            languages: opt_strings_view(self.languages),
            codecs: opt_strings_view(self.codecs),
            dispositions: opt_strings_view(self.dispositions),
            title_patterns: opt_strings_view(self.title_patterns),
            exclude_commentary: self.exclude_commentary,
            max_streams: self.max_streams,
        }
    }
}

impl View for SubtitleSelectionConfig {
    type V = SubtitleSelectionView;

    open spec fn view(&self) -> SubtitleSelectionView {
        SubtitleSelectionView {
            languages: opt_strings_view(self.languages),
            codecs: opt_strings_view(self.codecs),
            dispositions: opt_strings_view(self.dispositions),
            title_patterns: opt_strings_view(self.title_patterns),
            exclude_commentary: self.exclude_commentary,
            include_forced_only: self.include_forced_only,
            max_streams: self.max_streams,
        }
    }
}

/// The selection that keeps every audio stream.
pub open spec fn audio_select_all() -> AudioSelectionView {
    AudioSelectionView {
        languages: None,
        codecs: None,
        dispositions: None,
        title_patterns: None,
        exclude_commentary: false,
        max_streams: None,
    }
}

/// The selection that keeps every subtitle stream.
pub open spec fn subtitle_select_all() -> SubtitleSelectionView {
    SubtitleSelectionView {
        languages: None,
        codecs: None,
        dispositions: None,
        title_patterns: None,
        exclude_commentary: false,
        include_forced_only: false,
        max_streams: None,
    }
}

impl Default for AudioSelectionConfig {
    fn default() -> (r: Self)
        ensures
            r@ == audio_select_all(),
    {
        AudioSelectionConfig {
            languages: None,
            codecs: None,
            dispositions: None,
            title_patterns: None,
            exclude_commentary: false,
            max_streams: None,
        }
    }
}

impl Default for SubtitleSelectionConfig {
    fn default() -> (r: Self)
        ensures
            r@ == subtitle_select_all(),
    {
        SubtitleSelectionConfig {
            languages: None,
            codecs: None,
            dispositions: None,
            title_patterns: None,
            exclude_commentary: false,
            include_forced_only: false,
            max_streams: None,
        }
    }
}

/// A named set of audio and subtitle selection rules.
#[derive(Debug, Clone, PartialEq)]
pub struct StreamSelectionProfile {
    pub name: String,
    pub title: String,
    pub audio: AudioSelectionConfig,
    pub subtitle: SubtitleSelectionConfig,
}

/// Mathematical content of a stream selection profile.
pub struct StreamSelectionProfileView {
    pub name: Seq<char>,
    pub title: Seq<char>,
    pub audio: AudioSelectionView,
    pub subtitle: SubtitleSelectionView,
}

impl View for StreamSelectionProfile {
    type V = StreamSelectionProfileView;

    open spec fn view(&self) -> StreamSelectionProfileView {
        StreamSelectionProfileView {
            name: self.name@,
            title: self.title@,
            audio: self.audio@,
            subtitle: self.subtitle@,
        }
    }
}

/// A stream selection profile as written in the configuration file.
#[derive(Debug, Clone, PartialEq)]
pub struct RawStreamSelectionProfile {
    pub title: String,
    pub audio: Option<AudioSelectionConfig>,
    pub subtitle: Option<SubtitleSelectionConfig>,
}

impl StreamSelectionProfile {
    /// Names a raw profile; missing audio or subtitle rules keep everything.
    pub fn from_raw(name: String, raw: RawStreamSelectionProfile) -> (r: Self)
        ensures
            r.name == name,
            r.title == raw.title,
            r.audio@ == (match raw.audio {
                Some(a) => a@,
                None => audio_select_all(),
            }),
            r.subtitle@ == (match raw.subtitle {
                Some(s) => s@,
                None => subtitle_select_all(),
            }),
    {
        let audio = match raw.audio {
            Some(a) => a,
            None => AudioSelectionConfig::default(),
        };
        let subtitle = match raw.subtitle {
            Some(s) => s,
            None => SubtitleSelectionConfig::default(),
        };
        StreamSelectionProfile { name, title: raw.title, audio, subtitle }
    }
}

/// A group of encoding profiles to compare in preview mode.
#[derive(Debug, Clone, PartialEq)]
pub struct PreviewProfile {
    pub name: String,
    pub title: String,
    pub profiles: Vec<String>,
}

/// A preview profile group as written in the configuration file.
#[derive(Debug, Clone, PartialEq)]
pub struct RawPreviewProfile {
    pub title: String,
    pub profiles: Vec<String>,
}

impl PreviewProfile {
    pub fn from_raw(name: String, raw: RawPreviewProfile) -> (r: Self)
        ensures
            r.name == name,
            r.title == raw.title,
            r.profiles == raw.profiles,
    {
        PreviewProfile { name, title: raw.title, profiles: raw.profiles }
    }
}

} // verus!
