//! Which streams of the input reach the output, and the FFmpeg `-map`,
//! codec and metadata arguments that carry them over.

use vstd::prelude::*;
use crate::config::types::{
    audio_select_all, subtitle_select_all, AudioSelectionConfig, AudioSelectionView,
    SubtitleSelectionConfig, SubtitleSelectionView,
};
use crate::error::{Error, ErrorKind};
use crate::text::{
    concat, decimal, owned, seq_contains, str_contains, str_eq, strings_view, to_lowercase,
    u64_to_string, unicode_lowercase,
};
use crate::utils::FfmpegWrapper;

verus! {

/// The disposition flags of a stream.
#[derive(Debug, Clone, Copy, PartialEq, Eq, Structural)]
pub struct StreamDisposition {
    pub default: bool,
    pub forced: bool,
    pub comment: bool,
    pub lyrics: bool,
    pub karaoke: bool,
    pub original: bool,
    pub dub: bool,
    pub visual_impaired: bool,
    pub hearing_impaired: bool,
}

impl StreamDisposition {
    /// No flag set.
    pub fn none() -> (r: Self)
        ensures
            !r.default && !r.forced && !r.comment && !r.lyrics && !r.karaoke && !r.original
                && !r.dub && !r.visual_impaired && !r.hearing_impaired,
    {
        StreamDisposition {
            default: false,
            forced: false,
            comment: false,
            lyrics: false,
            karaoke: false,
            original: false,
            dub: false,
            visual_impaired: false,
            hearing_impaired: false,
        }
    }
}

/// A stream of the input as ffprobe lists it.
#[derive(Debug, Clone)]
pub struct StreamInfo {
    pub index: u32,
    pub codec_type: String,
    pub codec_name: String,
    pub language: Option<String>,
    pub title: Option<String>,
    pub disposition: StreamDisposition,
}

/// A chapter of the input, its bounds in ticks of `time_base`.
#[derive(Debug, Clone)]
pub struct ChapterInfo {
    pub id: u32,
    pub time_base: String,
    pub start: u64,
    pub end: u64,
    pub title: Option<String>,
}

/// The streams of the input by kind, its chapters and metadata, and the
/// `-map` and codec arguments that carry them over.
pub struct StreamMapping {
    pub video_streams: Vec<StreamInfo>,
    pub audio_streams: Vec<StreamInfo>,
    pub subtitle_streams: Vec<StreamInfo>,
    pub data_streams: Vec<StreamInfo>,
    pub chapters: Vec<ChapterInfo>,
    pub metadata: Vec<(String, String)>,
    pub mapping_args: Vec<String>,
}

/// Whether audio and subtitle streams are selected, and how.
pub struct StreamSelectionConfig {
    pub enabled: bool,
    pub audio: AudioSelectionConfig,
    pub subtitle: SubtitleSelectionConfig,
}

/// The streams that satisfy `p`, in order.
pub open spec fn keep_streams(ss: Seq<StreamInfo>, p: spec_fn(StreamInfo) -> bool) -> Seq<
    StreamInfo,
>
    decreases ss.len(),
{
    if ss.len() == 0 {
        Seq::empty()
    } else if p(ss.last()) {
        keep_streams(ss.drop_last(), p).push(ss.last())
    } else {
        keep_streams(ss.drop_last(), p)
    }
}

/// Some stream has the codec type `t`.
pub open spec fn has_type(ss: Seq<StreamInfo>, t: Seq<char>) -> bool {
    exists|i: int| 0 <= i < ss.len() && (#[trigger] ss[i]).codec_type@ == t
}

/// The arguments that copy every stream: the first video stream, all
/// audio (where there is any), subtitles, data and attachments where
/// present, with their codecs copied.
pub open spec fn mapping_args(ss: Seq<StreamInfo>) -> Seq<Seq<char>> {
    let has_video = has_type(ss, "video"@);
    let has_audio = has_type(ss, "audio"@);
    let v = if has_video { seq!["-map"@, "0:v:0"@] } else { Seq::empty() };
    let a = if has_audio { seq!["-map"@, "0:a"@] } else { Seq::empty() };
    let rest = seq!["-map"@, "0:s?"@, "-map"@, "0:d?"@, "-map"@, "0:t?"@];
    let ca = if has_audio { seq!["-c:a"@, "copy"@] } else { Seq::empty() };
    let cs = seq!["-c:s"@, "copy"@, "-c:d"@, "copy"@, "-c:t"@, "copy"@];
    v + a + rest + ca + cs
}

/// `-map 0:<index>` for each stream, in order.
pub open spec fn index_maps(ss: Seq<StreamInfo>) -> Seq<Seq<char>>
    decreases ss.len(),
{
    if ss.len() == 0 {
        Seq::empty()
    } else {
        index_maps(ss.drop_last()) + seq!["-map"@, "0:"@ + decimal(ss.last().index as nat)]
    }
}

/// The arguments that copy the selected streams: the first video stream,
/// each selected audio and subtitle stream by index, data and attachments
/// where there are any, with their codecs copied.
pub open spec fn filtered_mapping_args(
    video: Seq<StreamInfo>,
    audio: Seq<StreamInfo>,
    subtitles: Seq<StreamInfo>,
    data: Seq<StreamInfo>,
) -> Seq<Seq<char>> {
    let v = if video.len() > 0 { seq!["-map"@, "0:v:0"@] } else { Seq::empty() };
    let d = if data.len() > 0 { seq!["-map"@, "0:d?"@, "-map"@, "0:t?"@] } else { Seq::empty() };
    let ca = if audio.len() > 0 { seq!["-c:a"@, "copy"@] } else { Seq::empty() };
    let cs = if subtitles.len() > 0 { seq!["-c:s"@, "copy"@] } else { Seq::empty() };
    let cd = if data.len() > 0 { seq!["-c:d"@, "copy"@, "-c:t"@, "copy"@] } else { Seq::empty() };
    v + index_maps(audio) + index_maps(subtitles) + d + ca + cs + cd
}

/// The outcome of compiling `pattern` as a regular expression and, where
/// it compiles, of searching `text` for a match (`None`: it does not
/// compile).
pub uninterp spec fn regex_match_outcome(pattern: Seq<char>, text: Seq<char>) -> Option<bool>;

/// Compiles `pattern` with `regex::Regex::new` and, where it compiles,
/// searches `text` with `Regex::is_match`. The contract names the outcome
/// and says nothing more of it.
#[verifier::external_body]
fn regex_search(pattern: &str, text: &str) -> (r: Option<bool>)
    ensures
        r == regex_match_outcome(pattern@, text@),
{
    match regex::Regex::new(pattern) {
        Ok(re) => Some(re.is_match(text)),
        Err(_) => None,
    }
}

/// Some pattern occurs in the text, both lower-cased.
pub open spec fn lower_contains_any(text: Seq<char>, patterns: Seq<Seq<char>>) -> bool {
    exists|j: int|
        0 <= j < patterns.len() && seq_contains(
            unicode_lowercase(text),
            unicode_lowercase(#[trigger] patterns[j]),
        )
}

/// A title pattern matches: as a regular expression where it compiles,
/// else as a lower-cased substring.
pub open spec fn title_pattern_matches(pattern: Seq<char>, title: Seq<char>) -> bool {
    match regex_match_outcome(pattern, title) {
        Some(b) => b,
        None => seq_contains(unicode_lowercase(title), unicode_lowercase(pattern)),
    }
}

/// Some title pattern matches.
pub open spec fn title_matches_any(title: Seq<char>, patterns: Seq<Seq<char>>) -> bool {
    exists|j: int| 0 <= j < patterns.len() && title_pattern_matches(#[trigger] patterns[j], title)
}

/// The flag a lower-cased disposition name selects on an audio stream.
pub open spec fn audio_disposition_flag(d: StreamDisposition, name: Seq<char>) -> bool {
    if name == "default"@ {
        d.default
    } else if name == "forced"@ {
        d.forced
    } else if name == "original"@ {
        d.original
    } else if name == "dub"@ {
        d.dub
    } else if name == "comment"@ {
        d.comment
    } else if name == "lyrics"@ {
        d.lyrics
    } else if name == "karaoke"@ {
        d.karaoke
    } else if name == "visual_impaired"@ {
        d.visual_impaired
    } else if name == "hearing_impaired"@ {
        d.hearing_impaired
    } else {
        false
    }
}

/// The flag a lower-cased disposition name selects on a subtitle stream.
pub open spec fn subtitle_disposition_flag(d: StreamDisposition, name: Seq<char>) -> bool {
    if name == "default"@ {
        d.default
    } else if name == "forced"@ {
        d.forced
    } else if name == "original"@ {
        d.original
    } else if name == "comment"@ {
        d.comment
    } else if name == "hearing_impaired"@ {
        d.hearing_impaired
    } else if name == "visual_impaired"@ {
        d.visual_impaired
    } else {
        false
    }
}

/// Not a commentary: no comment flag, and a title (if any) without
/// "commentary" or "director" in any letter case.
pub open spec fn not_commentary(s: StreamInfo) -> bool {
    &&& !s.disposition.comment
    &&& match s.title {
        Some(t) => !seq_contains(unicode_lowercase(t@), "commentary"@) && !seq_contains(
            unicode_lowercase(t@),
            "director"@,
        ),
        None => true,
    }
}

/// An audio stream passes every rule of the selection.
pub open spec fn audio_keeps(c: AudioSelectionView, s: StreamInfo) -> bool {
    &&& match c.languages {
        Some(ls) => match s.language {
            Some(l) => lower_contains_any(l@, ls),
            None => false,
        },
        None => true,
    }
    &&& match c.codecs {
        Some(cs) => lower_contains_any(s.codec_name@, cs),
        None => true,
    }
    &&& match c.dispositions {
        Some(ds) => exists|j: int|
            0 <= j < ds.len() && audio_disposition_flag(
                s.disposition,
                unicode_lowercase(#[trigger] ds[j]),
            ),
        None => true,
    }
    &&& match c.title_patterns {
        Some(ps) => match s.title {
            Some(t) => title_matches_any(t@, ps),
            None => false,
        },
        None => true,
    }
    &&& c.exclude_commentary ==> not_commentary(s)
}

/// A subtitle stream passes every rule of the selection.
pub open spec fn subtitle_keeps(c: SubtitleSelectionView, s: StreamInfo) -> bool {
    &&& match c.languages {
        Some(ls) => match s.language {
            Some(l) => lower_contains_any(l@, ls),
            None => false,
        },
        None => true,
    }
    &&& match c.codecs {
        Some(cs) => lower_contains_any(s.codec_name@, cs),
        None => true,
    }
    &&& match c.dispositions {
        Some(ds) => exists|j: int|
            0 <= j < ds.len() && subtitle_disposition_flag(
                s.disposition,
                unicode_lowercase(#[trigger] ds[j]),
            ),
        None => true,
    }
    &&& c.include_forced_only ==> s.disposition.forced
    &&& match c.title_patterns {
        Some(ps) => match s.title {
            Some(t) => title_matches_any(t@, ps),
            None => false,
        },
        None => true,
    }
    &&& c.exclude_commentary ==> not_commentary(s)
}

/// At most `max` of the streams, the first ones.
pub open spec fn limit(ss: Seq<StreamInfo>, max: Option<usize>) -> Seq<StreamInfo> {
    match max {
        Some(m) => if m < ss.len() {
            ss.take(m as int)
        } else {
            ss
        },
        None => ss,
    }
}

/// The audio streams a selection keeps.
pub open spec fn selected_audio(ss: Seq<StreamInfo>, c: AudioSelectionView) -> Seq<StreamInfo> {
    limit(keep_streams(ss, |s: StreamInfo| audio_keeps(c, s)), c.max_streams)
}

/// The subtitle streams a selection keeps.
pub open spec fn selected_subtitles(ss: Seq<StreamInfo>, c: SubtitleSelectionView) -> Seq<
    StreamInfo,
> {
    limit(keep_streams(ss, |s: StreamInfo| subtitle_keeps(c, s)), c.max_streams)
}

/// `-disposition:a:<i> default` for each audio stream `i` flagged default.
pub open spec fn default_audio_args(audio: Seq<StreamInfo>) -> Seq<Seq<char>>
    decreases audio.len(),
{
    if audio.len() == 0 {
        Seq::empty()
    } else {
        let before = default_audio_args(audio.drop_last());
        if audio.last().disposition.default {
            before + seq![
                "-disposition:a:"@ + decimal((audio.len() - 1) as nat),
                "default"@,
            ]
        } else {
            before
        }
    }
}

/// Copies metadata and chapters, sets a title where given, and keeps the
/// default flag of audio streams.
pub open spec fn metadata_args(audio: Seq<StreamInfo>, title: Option<Seq<char>>) -> Seq<Seq<char>> {
    let base = seq!["-map_metadata"@, "0"@, "-map_chapters"@, "0"@];
    let t = match title {
        Some(x) => seq!["-metadata"@, "title="@ + x],
        None => Seq::empty(),
    };
    base + t + default_audio_args(audio)
}

pub open spec fn is_video(s: StreamInfo) -> bool {
    s.codec_type@ == "video"@
}

pub open spec fn is_audio(s: StreamInfo) -> bool {
    s.codec_type@ == "audio"@
}

pub open spec fn is_subtitle(s: StreamInfo) -> bool {
    s.codec_type@ == "subtitle"@
}

pub open spec fn is_data(s: StreamInfo) -> bool {
    s.codec_type@ == "data"@ || s.codec_type@ == "attachment"@
}

/// What `keep_streams` keeps satisfies the predicate, comes from the input,
/// and is no longer than it.
pub proof fn lemma_keep_streams(ss: Seq<StreamInfo>, p: spec_fn(StreamInfo) -> bool)
    ensures
        keep_streams(ss, p).len() <= ss.len(),
        forall|i: int|
            0 <= i < keep_streams(ss, p).len() ==> p(#[trigger] keep_streams(ss, p)[i]) && ss.contains(
                keep_streams(ss, p)[i],
            ),
        (forall|i: int| 0 <= i < ss.len() ==> p(#[trigger] ss[i])) ==> keep_streams(ss, p) == ss,
    decreases ss.len(),
{
    if ss.len() > 0 {
        let pre = ss.drop_last();
        lemma_keep_streams(pre, p);
        let k = keep_streams(ss, p);
        assert forall|i: int| 0 <= i < k.len() implies p(#[trigger] k[i]) && ss.contains(k[i]) by {
            if i < keep_streams(pre, p).len() {
                assert(k[i] == keep_streams(pre, p)[i]);
                let w = choose|j: int| 0 <= j < pre.len() && pre[j] == k[i];
                assert(ss[w] == k[i]);
            } else {
                assert(k[i] == ss.last());
                assert(ss[ss.len() - 1] == k[i]);
            }
        }
        if forall|i: int| 0 <= i < ss.len() ==> p(#[trigger] ss[i]) {
            assert forall|i: int| 0 <= i < pre.len() implies p(#[trigger] pre[i]) by {
                assert(pre[i] == ss[i]);
            }
            assert(p(ss[ss.len() - 1]));
            assert(keep_streams(ss, p) =~= ss);
        }
    }
}

/// A selection keeps only streams of the input that pass all its rules,
/// in their order, and no more than its limit.
pub proof fn law_audio_selection_sound(ss: Seq<StreamInfo>, c: AudioSelectionView)
    ensures
        selected_audio(ss, c).len() <= ss.len(),
        c.max_streams matches Some(m) ==> selected_audio(ss, c).len() <= m,
        forall|i: int|
            0 <= i < selected_audio(ss, c).len() ==> audio_keeps(c, #[trigger] selected_audio(ss, c)[i])
                && ss.contains(selected_audio(ss, c)[i]),
{
    let p = |s: StreamInfo| audio_keeps(c, s);
    lemma_keep_streams(ss, p);
    let k = keep_streams(ss, p);
    assert forall|i: int| 0 <= i < selected_audio(ss, c).len() implies audio_keeps(
        c,
        #[trigger] selected_audio(ss, c)[i],
    ) && ss.contains(selected_audio(ss, c)[i]) by {
        assert(selected_audio(ss, c)[i] == k[i]);
        assert(p(k[i]));
    }
}

/// A selection keeps only subtitle streams of the input that pass all its
/// rules, in their order, and no more than its limit.
pub proof fn law_subtitle_selection_sound(ss: Seq<StreamInfo>, c: SubtitleSelectionView)
    ensures
        selected_subtitles(ss, c).len() <= ss.len(),
        c.max_streams matches Some(m) ==> selected_subtitles(ss, c).len() <= m,
        forall|i: int|
            0 <= i < selected_subtitles(ss, c).len() ==> subtitle_keeps(
                c,
                #[trigger] selected_subtitles(ss, c)[i],
            ) && ss.contains(selected_subtitles(ss, c)[i]),
{
    let p = |s: StreamInfo| subtitle_keeps(c, s);
    lemma_keep_streams(ss, p);
    let k = keep_streams(ss, p);
    assert forall|i: int| 0 <= i < selected_subtitles(ss, c).len() implies subtitle_keeps(
        c,
        #[trigger] selected_subtitles(ss, c)[i],
    ) && ss.contains(selected_subtitles(ss, c)[i]) by {
        assert(selected_subtitles(ss, c)[i] == k[i]);
        assert(p(k[i]));
    }
}

/// The language of a stream contains, in any letter case, one of the
/// listed languages.
pub open spec fn language_listed(s: StreamInfo, ls: Seq<Seq<char>>) -> bool {
    s.language matches Some(l) && exists|j: int|
        0 <= j < ls.len() && seq_contains(unicode_lowercase(l@), unicode_lowercase(#[trigger] ls[j]))
}

/// The codec name contains, in any letter case, one of the listed codecs.
pub open spec fn codec_listed(s: StreamInfo, cs: Seq<Seq<char>>) -> bool {
    exists|j: int|
        0 <= j < cs.len() && seq_contains(
            unicode_lowercase(s.codec_name@),
            unicode_lowercase(#[trigger] cs[j]),
        )
}

/// Each rule of a subtitle selection holds of every stream it keeps: with
/// a language list, the stream's language contains one of the languages
/// (so a stream whose language matches none, or that has none, is never
/// kept); with a codec list, its codec contains one of the codecs; with
/// forced-only, it is flagged forced; excluding commentary, it is not
/// flagged as a comment; with title patterns, it has a title.
pub proof fn law_subtitle_rules_hold(ss: Seq<StreamInfo>, c: SubtitleSelectionView)
    ensures
        forall|i: int|
            0 <= i < selected_subtitles(ss, c).len() ==> {
                let s = #[trigger] selected_subtitles(ss, c)[i];
                &&& c.languages matches Some(ls) ==> language_listed(s, ls)
                &&& c.codecs matches Some(cs) ==> codec_listed(s, cs)
                &&& c.include_forced_only ==> s.disposition.forced
                &&& c.exclude_commentary ==> !s.disposition.comment
                &&& c.title_patterns is Some ==> s.title is Some
            },
        forall|i: int|
            0 <= i < ss.len() && (c.languages matches Some(ls) && !language_listed(
                #[trigger] ss[i],
                ls,
            )) ==> !selected_subtitles(ss, c).contains(ss[i]),
{
    law_subtitle_selection_sound(ss, c);
    assert forall|i: int|
        0 <= i < ss.len() && (c.languages matches Some(ls) && !language_listed(
            #[trigger] ss[i],
            ls,
        )) implies !selected_subtitles(ss, c).contains(ss[i]) by {
        if selected_subtitles(ss, c).contains(ss[i]) {
            let k = choose|k: int|
                0 <= k < selected_subtitles(ss, c).len() && selected_subtitles(ss, c)[k] == ss[i];
            assert(subtitle_keeps(c, selected_subtitles(ss, c)[k]));
        }
    }
}

/// Each rule of an audio selection holds of every stream it keeps: with a
/// language list, the stream's language contains one of the languages (so
/// a stream whose language matches none, or that has none, is never kept);
/// with a codec list, its codec contains one of the codecs; excluding
/// commentary, it is not flagged as a comment; with title patterns, it has
/// a title.
pub proof fn law_audio_rules_hold(ss: Seq<StreamInfo>, c: AudioSelectionView)
    ensures
        forall|i: int|
            0 <= i < selected_audio(ss, c).len() ==> {
                let s = #[trigger] selected_audio(ss, c)[i];
                &&& c.languages matches Some(ls) ==> language_listed(s, ls)
                &&& c.codecs matches Some(cs) ==> codec_listed(s, cs)
                &&& c.exclude_commentary ==> !s.disposition.comment
                &&& c.title_patterns is Some ==> s.title is Some
            },
        forall|i: int|
            0 <= i < ss.len() && (c.languages matches Some(ls) && !language_listed(
                #[trigger] ss[i],
                ls,
            )) ==> !selected_audio(ss, c).contains(ss[i]),
{
    law_audio_selection_sound(ss, c);
    assert forall|i: int|
        0 <= i < ss.len() && (c.languages matches Some(ls) && !language_listed(
            #[trigger] ss[i],
            ls,
        )) implies !selected_audio(ss, c).contains(ss[i]) by {
        if selected_audio(ss, c).contains(ss[i]) {
            let k = choose|k: int|
                0 <= k < selected_audio(ss, c).len() && selected_audio(ss, c)[k] == ss[i];
            assert(audio_keeps(c, selected_audio(ss, c)[k]));
        }
    }
}

/// The default selections keep every stream.
pub proof fn law_default_selection_keeps_all(ss: Seq<StreamInfo>)
    ensures
        selected_audio(ss, audio_select_all()) == ss,
        selected_subtitles(ss, subtitle_select_all()) == ss,
{
    lemma_keep_streams(ss, |s: StreamInfo| audio_keeps(audio_select_all(), s));
    lemma_keep_streams(ss, |s: StreamInfo| subtitle_keeps(subtitle_select_all(), s));
}

/// Pairs `-map x` / codec arguments as plain text.
fn push2(v: &mut Vec<String>, a: &str, b: &str)
    ensures
        strings_view(final(v)@) == strings_view(old(v)@) + seq![a@, b@],
{
    v.push(owned(a));
    v.push(owned(b));
    assert(strings_view(final(v)@) =~= strings_view(old(v)@) + seq![a@, b@]);
}

/// Appends two owned strings.
fn push_pair(v: &mut Vec<String>, a: String, b: String)
    ensures
        strings_view(final(v)@) == strings_view(old(v)@) + seq![a@, b@],
{
    let ghost av = a@;
    let ghost bv = b@;
    v.push(a);
    v.push(b);
    assert(strings_view(final(v)@) =~= strings_view(old(v)@) + seq![av, bv]);
}

/// Some pattern occurs in the text, both lower-cased.
fn any_lower_contains(text: &str, patterns: &Vec<String>) -> (r: bool)
    ensures
        r == lower_contains_any(text@, strings_view(patterns@)),
{
    let t = to_lowercase(text);
    let mut i: usize = 0;
    while i < patterns.len()
        invariant
            i <= patterns@.len(),
            t@ == unicode_lowercase(text@),
            forall|j: int|
                0 <= j < i ==> !seq_contains(
                    unicode_lowercase(text@),
                    unicode_lowercase(#[trigger] strings_view(patterns@)[j]),
                ),
        decreases patterns.len() - i,
    {
        let p = to_lowercase(patterns[i].as_str());
        assert(strings_view(patterns@)[i as int] == patterns@[i as int]@);
        if str_contains(t.as_str(), p.as_str()) {
            return true;
        }
        i = i + 1;
    }
    false
}

/// Some title pattern matches.
fn any_title_match(title: &str, patterns: &Vec<String>) -> (r: bool)
    ensures
        r == title_matches_any(title@, strings_view(patterns@)),
{
    let mut i: usize = 0;
    while i < patterns.len()
        invariant
            i <= patterns@.len(),
            forall|j: int|
                0 <= j < i ==> !title_pattern_matches(
                    #[trigger] strings_view(patterns@)[j],
                    title@,
                ),
        decreases patterns.len() - i,
    {
        assert(strings_view(patterns@)[i as int] == patterns@[i as int]@);
        let hit = match regex_search(patterns[i].as_str(), title) {
            Some(b) => b,
            None => {
                let t = to_lowercase(title);
                let p = to_lowercase(patterns[i].as_str());
                str_contains(t.as_str(), p.as_str())
            },
        };
        if hit {
            return true;
        }
        i = i + 1;
    }
    false
}

fn audio_flag(d: &StreamDisposition, name: &str) -> (r: bool)
    ensures
        r == audio_disposition_flag(*d, name@),
{
    if str_eq(name, "default") {
        d.default
    } else if str_eq(name, "forced") {
        d.forced
    } else if str_eq(name, "original") {
        d.original
    } else if str_eq(name, "dub") {
        d.dub
    } else if str_eq(name, "comment") {
        d.comment
    } else if str_eq(name, "lyrics") {
        d.lyrics
    } else if str_eq(name, "karaoke") {
        d.karaoke
    } else if str_eq(name, "visual_impaired") {
        d.visual_impaired
    } else if str_eq(name, "hearing_impaired") {
        d.hearing_impaired
    } else {
        false
    }
}

fn subtitle_flag(d: &StreamDisposition, name: &str) -> (r: bool)
    ensures
        r == subtitle_disposition_flag(*d, name@),
{
    if str_eq(name, "default") {
        d.default
    } else if str_eq(name, "forced") {
        d.forced
    } else if str_eq(name, "original") {
        d.original
    } else if str_eq(name, "comment") {
        d.comment
    } else if str_eq(name, "hearing_impaired") {
        d.hearing_impaired
    } else if str_eq(name, "visual_impaired") {
        d.visual_impaired
    } else {
        false
    }
}

fn any_disposition(d: &StreamDisposition, names: &Vec<String>, audio: bool) -> (r: bool)
    ensures
        audio ==> r == exists|j: int|
            0 <= j < names@.len() && audio_disposition_flag(
                *d,
                unicode_lowercase(#[trigger] strings_view(names@)[j]),
            ),
        !audio ==> r == exists|j: int|
            0 <= j < names@.len() && subtitle_disposition_flag(
                *d,
                unicode_lowercase(#[trigger] strings_view(names@)[j]),
            ),
{
    let mut i: usize = 0;
    while i < names.len()
        invariant
            i <= names@.len(),
            audio ==> forall|j: int|
                0 <= j < i ==> !audio_disposition_flag(
                    *d,
                    unicode_lowercase(#[trigger] strings_view(names@)[j]),
                ),
            !audio ==> forall|j: int|
                0 <= j < i ==> !subtitle_disposition_flag(
                    *d,
                    unicode_lowercase(#[trigger] strings_view(names@)[j]),
                ),
        decreases names.len() - i,
    {
        assert(strings_view(names@)[i as int] == names@[i as int]@);
        let n = to_lowercase(names[i].as_str());
        let hit = if audio {
            audio_flag(d, n.as_str())
        } else {
            subtitle_flag(d, n.as_str())
        };
        if hit {
            return true;
        }
        i = i + 1;
    }
    false
}

fn is_not_commentary(s: &StreamInfo) -> (r: bool)
    ensures
        r == not_commentary(*s),
{
    if s.disposition.comment {
        return false;
    }
    match &s.title {
        Some(t) => {
            let l = to_lowercase(t.as_str());
            !str_contains(l.as_str(), "commentary") && !str_contains(l.as_str(), "director")
        },
        None => true,
    }
}

fn keeps_audio(c: &AudioSelectionConfig, s: &StreamInfo) -> (r: bool)
    ensures
        r == audio_keeps(c@, *s),
{
    if let Some(ls) = &c.languages {
        match &s.language {
            Some(l) => {
                if !any_lower_contains(l.as_str(), ls) {
                    return false;
                }
            },
            None => {
                return false;
            },
        }
    }
    if let Some(cs) = &c.codecs {
        if !any_lower_contains(s.codec_name.as_str(), cs) {
            return false;
        }
    }
    if let Some(ds) = &c.dispositions {
        if !any_disposition(&s.disposition, ds, true) {
            return false;
        }
    }
    if let Some(ps) = &c.title_patterns {
        match &s.title {
            Some(t) => {
                if !any_title_match(t.as_str(), ps) {
                    return false;
                }
            },
            None => {
                return false;
            },
        }
    }
    if c.exclude_commentary && !is_not_commentary(s) {
        return false;
    }
    true
}

fn keeps_subtitle(c: &SubtitleSelectionConfig, s: &StreamInfo) -> (r: bool)
    ensures
        r == subtitle_keeps(c@, *s),
{
    if let Some(ls) = &c.languages {
        match &s.language {
            Some(l) => {
                if !any_lower_contains(l.as_str(), ls) {
                    return false;
                }
            },
            None => {
                return false;
            },
        }
    }
    if let Some(cs) = &c.codecs {
        if !any_lower_contains(s.codec_name.as_str(), cs) {
            return false;
        }
    }
    if let Some(ds) = &c.dispositions {
        if !any_disposition(&s.disposition, ds, false) {
            return false;
        }
    }
    if c.include_forced_only && !s.disposition.forced {
        return false;
    }
    if let Some(ps) = &c.title_patterns {
        match &s.title {
            Some(t) => {
                if !any_title_match(t.as_str(), ps) {
                    return false;
                }
            },
            None => {
                return false;
            },
        }
    }
    if c.exclude_commentary && !is_not_commentary(s) {
        return false;
    }
    true
}

/// Keeps the first `max` streams.
fn truncate_streams(v: &mut Vec<StreamInfo>, max: Option<usize>)
    ensures
        final(v)@ == limit(old(v)@, max),
{
    if let Some(m) = max {
        if m < v.len() {
            v.truncate(m);
        }
    }
}

/// Copies and selects the streams of an input.
pub struct StreamPreservation {
    pub ffmpeg: FfmpegWrapper,
}

impl StreamPreservation {
    pub fn new(ffmpeg: FfmpegWrapper) -> (r: Self)
        ensures
            r.ffmpeg == ffmpeg,
    {
        StreamPreservation { ffmpeg }
    }

    /// The arguments that copy every stream of the input.
    pub fn build_mapping_arguments(&self, streams: &Vec<StreamInfo>) -> (r: Result<
        Vec<String>,
        Error,
    >)
        ensures
            r matches Ok(a) && strings_view(a@) == mapping_args(streams@),
    {
        let mut has_video = false;
        let mut has_audio = false;
        let mut i: usize = 0;
        while i < streams.len()
            invariant
                i <= streams@.len(),
                has_video == exists|j: int| 0 <= j < i && (#[trigger] streams@[j]).codec_type@ == "video"@,
                has_audio == exists|j: int| 0 <= j < i && (#[trigger] streams@[j]).codec_type@ == "audio"@,
            decreases streams.len() - i,
        {
            if str_eq(streams[i].codec_type.as_str(), "video") {
                has_video = true;
            }
            if str_eq(streams[i].codec_type.as_str(), "audio") {
                has_audio = true;
            }
            i = i + 1;
            proof {
                let k = (i - 1) as int;
                if has_video && !(exists|j: int| 0 <= j < k && (#[trigger] streams@[j]).codec_type@ == "video"@) {
                    assert(streams@[k].codec_type@ == "video"@);
                }
                if has_audio && !(exists|j: int| 0 <= j < k && (#[trigger] streams@[j]).codec_type@ == "audio"@) {
                    assert(streams@[k].codec_type@ == "audio"@);
                }
            }
        }
        let mut args: Vec<String> = Vec::new();
        if has_video {
            push2(&mut args, "-map", "0:v:0");
        }
        if has_audio {
            push2(&mut args, "-map", "0:a");
        }
        push2(&mut args, "-map", "0:s?");
        push2(&mut args, "-map", "0:d?");
        push2(&mut args, "-map", "0:t?");
        if has_audio {
            push2(&mut args, "-c:a", "copy");
        }
        push2(&mut args, "-c:s", "copy");
        push2(&mut args, "-c:d", "copy");
        push2(&mut args, "-c:t", "copy");
        assert(strings_view(args@) =~= mapping_args(streams@));
        Ok(args)
    }

    fn push_index_maps(args: &mut Vec<String>, streams: &Vec<StreamInfo>)
        ensures
            strings_view(final(args)@) == strings_view(old(args)@) + index_maps(streams@),
    {
        let ghost start = strings_view(args@);
        let mut i: usize = 0;
        while i < streams.len()
            invariant
                i <= streams@.len(),
                strings_view(args@) == start + index_maps(streams@.subrange(0, i as int)),
            decreases streams.len() - i,
        {
            let ghost next = streams@.subrange(0, i + 1);
            assert(next.drop_last() =~= streams@.subrange(0, i as int));
            let n = u64_to_string(streams[i].index as u64);
            let m = concat("0:", n.as_str());
            let ghost before = strings_view(args@);
            push_pair(args, owned("-map"), m);
            i = i + 1;
            assert(index_maps(next) =~= index_maps(next.drop_last()) + seq!["-map"@, "0:"@ + decimal(next.last().index as nat)]);
            assert(strings_view(args@) =~= start + index_maps(next));
        }
        assert(streams@.subrange(0, streams@.len() as int) =~= streams@);
    }

    /// The arguments that copy the selected streams.
    pub fn build_filtered_mapping_arguments(
        &self,
        video_streams: &Vec<StreamInfo>,
        audio_streams: &Vec<StreamInfo>,
        subtitle_streams: &Vec<StreamInfo>,
        data_streams: &Vec<StreamInfo>,
    ) -> (r: Result<Vec<String>, Error>)
        ensures
            r matches Ok(a) && strings_view(a@) == filtered_mapping_args(
                video_streams@,
                audio_streams@,
                subtitle_streams@,
                data_streams@,
            ),
    {
        let mut args: Vec<String> = Vec::new();
        if video_streams.len() > 0 {
            push2(&mut args, "-map", "0:v:0");
        }
        Self::push_index_maps(&mut args, audio_streams);
        Self::push_index_maps(&mut args, subtitle_streams);
        if data_streams.len() > 0 {
            push2(&mut args, "-map", "0:d?");
            push2(&mut args, "-map", "0:t?");
        }
        if audio_streams.len() > 0 {
            push2(&mut args, "-c:a", "copy");
        }
        if subtitle_streams.len() > 0 {
            push2(&mut args, "-c:s", "copy");
        }
        if data_streams.len() > 0 {
            push2(&mut args, "-c:d", "copy");
            push2(&mut args, "-c:t", "copy");
        }
        assert(strings_view(args@) =~= filtered_mapping_args(
            video_streams@,
            audio_streams@,
            subtitle_streams@,
            data_streams@,
        ));
        Ok(args)
    }

    /// The audio streams a selection keeps, in order, at most
    /// `max_streams` of them.
    pub fn filter_audio_streams(&self, streams: Vec<StreamInfo>, config: &AudioSelectionConfig) -> (r:
        Result<Vec<StreamInfo>, Error>)
        ensures
            r matches Ok(v) && v@ == selected_audio(streams@, config@),
    {
        let ghost all = streams@;
        let mut rest = streams;
        let count = rest.len();
        let mut kept: Vec<StreamInfo> = Vec::new();
        let mut i: usize = 0;
        while i < count
            invariant
                count == all.len(),
                i <= count,
                rest@ == all.subrange(i as int, all.len() as int),
                kept@ == keep_streams(all.subrange(0, i as int), |s: StreamInfo| audio_keeps(config@, s)),
            decreases count - i,
        {
            let s = rest.remove(0);
            assert(all.subrange(0, i + 1).drop_last() =~= all.subrange(0, i as int));
            assert(all[i as int] == s);
            if keeps_audio(config, &s) {
                kept.push(s);
            }
            i = i + 1;
            assert(rest@ =~= all.subrange(i as int, all.len() as int));
        }
        assert(all.subrange(0, all.len() as int) =~= all);
        truncate_streams(&mut kept, config.max_streams);
        Ok(kept)
    }

    /// The subtitle streams a selection keeps, in order, at most
    /// `max_streams` of them.
    pub fn filter_subtitle_streams(
        &self,
        streams: Vec<StreamInfo>,
        config: &SubtitleSelectionConfig,
    ) -> (r: Result<Vec<StreamInfo>, Error>)
        ensures
            r matches Ok(v) && v@ == selected_subtitles(streams@, config@),
    {
        let ghost all = streams@;
        let mut rest = streams;
        let count = rest.len();
        let mut kept: Vec<StreamInfo> = Vec::new();
        let mut i: usize = 0;
        while i < count
            invariant
                count == all.len(),
                i <= count,
                rest@ == all.subrange(i as int, all.len() as int),
                kept@ == keep_streams(
                    all.subrange(0, i as int),
                    |s: StreamInfo| subtitle_keeps(config@, s),
                ),
            decreases count - i,
        {
            let s = rest.remove(0);
            assert(all.subrange(0, i + 1).drop_last() =~= all.subrange(0, i as int));
            assert(all[i as int] == s);
            if keeps_subtitle(config, &s) {
                kept.push(s);
            }
            i = i + 1;
            assert(rest@ =~= all.subrange(i as int, all.len() as int));
        }
        assert(all.subrange(0, all.len() as int) =~= all);
        truncate_streams(&mut kept, config.max_streams);
        Ok(kept)
    }

    /// Splits streams by kind (video, audio, subtitle, data or
    /// attachment), keeping their order; other kinds are dropped.
    pub fn categorize_streams(streams: Vec<StreamInfo>) -> (r: (
        Vec<StreamInfo>,
        Vec<StreamInfo>,
        Vec<StreamInfo>,
        Vec<StreamInfo>,
    ))
        ensures
            r.0@ == keep_streams(streams@, |s: StreamInfo| is_video(s)),
            r.1@ == keep_streams(streams@, |s: StreamInfo| is_audio(s)),
            r.2@ == keep_streams(streams@, |s: StreamInfo| is_subtitle(s)),
            r.3@ == keep_streams(streams@, |s: StreamInfo| is_data(s)),
    {
        let ghost all = streams@;
        let mut rest = streams;
        let count = rest.len();
        let mut video: Vec<StreamInfo> = Vec::new();
        let mut audio: Vec<StreamInfo> = Vec::new();
        let mut subs: Vec<StreamInfo> = Vec::new();
        let mut data: Vec<StreamInfo> = Vec::new();
        let mut i: usize = 0;
        while i < count
            invariant
                count == all.len(),
                i <= count,
                rest@ == all.subrange(i as int, all.len() as int),
                video@ == keep_streams(all.subrange(0, i as int), |s: StreamInfo| is_video(s)),
                audio@ == keep_streams(all.subrange(0, i as int), |s: StreamInfo| is_audio(s)),
                subs@ == keep_streams(all.subrange(0, i as int), |s: StreamInfo| is_subtitle(s)),
                data@ == keep_streams(all.subrange(0, i as int), |s: StreamInfo| is_data(s)),
            decreases count - i,
        {
            let s = rest.remove(0);
            assert(all.subrange(0, i + 1).drop_last() =~= all.subrange(0, i as int));
            assert(all[i as int] == s);
            let t = s.codec_type.as_str();
            if str_eq(t, "video") {
                video.push(s);
            } else if str_eq(t, "audio") {
                audio.push(s);
            } else if str_eq(t, "subtitle") {
                subs.push(s);
            } else if str_eq(t, "data") || str_eq(t, "attachment") {
                data.push(s);
            }
            proof {
                reveal_strlit("video");
                reveal_strlit("audio");
                reveal_strlit("subtitle");
                reveal_strlit("data");
                reveal_strlit("attachment");
                assert("video"@[0] != "audio"@[0] && "video"@.len() != "subtitle"@.len()
                    && "video"@.len() != "data"@.len() && "video"@.len() != "attachment"@.len());
                assert("audio"@.len() != "subtitle"@.len() && "audio"@.len() != "data"@.len()
                    && "audio"@.len() != "attachment"@.len());
                assert("subtitle"@.len() != "data"@.len() && "subtitle"@.len()
                    != "attachment"@.len());
            }
            i = i + 1;
            assert(rest@ =~= all.subrange(i as int, all.len() as int));
        }
        assert(all.subrange(0, all.len() as int) =~= all);
        (video, audio, subs, data)
    }

    /// The stream mapping of an input from its probed streams, chapters and
    /// metadata. With a selection that is enabled, audio and subtitles are
    /// filtered and mapped by index; otherwise every stream is copied.
    pub fn build_stream_mapping(
        &self,
        streams: Vec<StreamInfo>,
        chapters: Vec<ChapterInfo>,
        metadata: Vec<(String, String)>,
        stream_config: Option<&StreamSelectionConfig>,
    ) -> (r: Result<StreamMapping, Error>)
        ensures
            r matches Ok(m) && ({
                let video = keep_streams(streams@, |s: StreamInfo| is_video(s));
                let audio = keep_streams(streams@, |s: StreamInfo| is_audio(s));
                let subs = keep_streams(streams@, |s: StreamInfo| is_subtitle(s));
                let data = keep_streams(streams@, |s: StreamInfo| is_data(s));
                &&& m.video_streams@ == video
                &&& m.data_streams@ == data
                &&& m.chapters@ == chapters@
                &&& m.metadata@ == metadata@
                &&& match stream_config {
                    Some(c) if c.enabled => {
                        &&& m.audio_streams@ == selected_audio(audio, c.audio@)
                        &&& m.subtitle_streams@ == selected_subtitles(subs, c.subtitle@)
                        &&& strings_view(m.mapping_args@) == filtered_mapping_args(
                            video,
                            m.audio_streams@,
                            m.subtitle_streams@,
                            data,
                        )
                    },
                    _ => {
                        &&& m.audio_streams@ == audio
                        &&& m.subtitle_streams@ == subs
                        &&& strings_view(m.mapping_args@) == mapping_args(streams@)
                    },
                }
            }),
    {
        let all_args = match self.build_mapping_arguments(&streams) {
            Ok(a) => a,
            Err(e) => {
                return Err(e);
            },
        };
        let (video, audio, subs, data) = Self::categorize_streams(streams);
        let (audio_streams, subtitle_streams, mapping_args) = match stream_config {
            Some(c) => {
                if c.enabled {
                    let a = match self.filter_audio_streams(audio, &c.audio) {
                        Ok(v) => v,
                        Err(e) => {
                            return Err(e);
                        },
                    };
                    let s = match self.filter_subtitle_streams(subs, &c.subtitle) {
                        Ok(v) => v,
                        Err(e) => {
                            return Err(e);
                        },
                    };
                    let args = match self.build_filtered_mapping_arguments(&video, &a, &s, &data) {
                        Ok(v) => v,
                        Err(e) => {
                            return Err(e);
                        },
                    };
                    (a, s, args)
                } else {
                    (audio, subs, all_args)
                }
            },
            None => (audio, subs, all_args),
        };
        Ok(
            StreamMapping {
                video_streams: video,
                audio_streams,
                subtitle_streams,
                data_streams: data,
                chapters,
                metadata,
                mapping_args,
            },
        )
    }

    /// Copies global metadata and chapters, sets the title where given, and
    /// keeps the default flag of audio streams.
    pub fn get_metadata_args(&self, mapping: &StreamMapping, custom_title: Option<&str>) -> (r: Vec<
        String,
    >)
        ensures
            strings_view(r@) == metadata_args(
                mapping.audio_streams@,
                match custom_title {
                    Some(t) => Some(t@),
                    None => None,
                },
            ),
    {
        let mut args: Vec<String> = Vec::new();
        push2(&mut args, "-map_metadata", "0");
        push2(&mut args, "-map_chapters", "0");
        if let Some(title) = custom_title {
            push_pair(&mut args, owned("-metadata"), concat("title=", title));
        }
        let ghost start = strings_view(args@);
        assert(default_audio_args(Seq::<StreamInfo>::empty()) =~= Seq::<Seq<char>>::empty());
        assert(start =~= metadata_args(
            Seq::empty(),
            match custom_title {
                Some(t) => Some(t@),
                None => None,
            },
        ));
        let audio = &mapping.audio_streams;
        let mut i: usize = 0;
        while i < audio.len()
            invariant
                i <= audio@.len(),
                strings_view(args@) == start + default_audio_args(audio@.subrange(0, i as int)),
            decreases audio.len() - i,
        {
            let ghost next = audio@.subrange(0, i + 1);
            assert(next.drop_last() =~= audio@.subrange(0, i as int));
            if audio[i].disposition.default {
                let n = u64_to_string(i as u64);
                push_pair(&mut args, concat("-disposition:a:", n.as_str()), owned("default"));
            }
            i = i + 1;
            assert(strings_view(args@) =~= start + default_audio_args(next));
        }
        assert(audio@.subrange(0, audio@.len() as int) =~= audio@);
        assert(strings_view(args@) =~= metadata_args(
            mapping.audio_streams@,
            match custom_title {
                Some(t) => Some(t@),
                None => None,
            },
        ));
        args
    }

    /// A mapping needs a video stream.
    pub fn validate_stream_preservation(&self, mapping: &StreamMapping) -> (r: Result<(), Error>)
        ensures
            mapping.video_streams@.len() == 0 ==> (r matches Err(e) && e@ == (
                ErrorKind::Analysis,
                "No video streams found in input"@,
            )),
            mapping.video_streams@.len() > 0 ==> r is Ok,
    {
        if mapping.video_streams.len() == 0 {
            return Err(Error::analysis(owned("No video streams found in input")));
        }
        Ok(())
    }
}

} // verus!
