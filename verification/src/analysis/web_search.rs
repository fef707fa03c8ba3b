//! Content classification from a video's title: reading the title out of a
//! file name, keyword scores, the offline title list, the decisions on
//! what web databases answer, and the search URLs.
//!
//! Confidence figures are floating-point numbers and are attached by the
//! application from the outcomes named here.

use vstd::prelude::*;
use crate::config::types::ContentType;
use crate::pattern::{captures, group_at, group_text, regex_groups, regex_replaced, replace_all};
use crate::text::{
    concat, concat3, owned, push_char, seq_contains, str_contains, str_eq, strings_view,
    to_lowercase, trim, trim_seq, unicode_lowercase, chars_of, string_of,
};

verus! {

/// An unreserved URL character: ASCII letters and digits, `-`, `_`, `.`
/// and `~`.
pub open spec fn is_unreserved(c: char) -> bool {
    ('A' <= c && c <= 'Z') || ('a' <= c && c <= 'z') || ('0' <= c && c <= '9') || c == '-' || c
        == '_' || c == '.' || c == '~'
}

/// An upper-case hexadecimal digit.
pub open spec fn hex_digit(d: nat) -> char {
    if d < 10 {
        ((d + 48) as u32) as char
    } else {
        ((d + 55) as u32) as char
    }
}

/// How one character is written in a query: unreserved characters as they
/// are, a space as `+`, anything else as `%` and two hex digits of the low
/// byte of its code point.
pub open spec fn encode_char(c: char) -> Seq<char> {
    if is_unreserved(c) {
        seq![c]
    } else if c == ' ' {
        seq!['+']
    } else {
        let b = (c as u32) as nat % 256;
        seq!['%', hex_digit(b / 16), hex_digit(b % 16)]
    }
}

/// A text written for a URL query.
pub open spec fn url_encode(s: Seq<char>) -> Seq<char>
    decreases s.len(),
{
    if s.len() == 0 {
        Seq::empty()
    } else {
        url_encode(s.drop_last()) + encode_char(s.last())
    }
}

fn hex_char(d: u32) -> (c: char)
    requires
        d < 16,
    ensures
        c == hex_digit(d as nat),
{
    if d == 0 { '0' } else if d == 1 { '1' } else if d == 2 { '2' } else if d == 3 { '3' }
    else if d == 4 { '4' } else if d == 5 { '5' } else if d == 6 { '6' } else if d == 7 { '7' }
    else if d == 8 { '8' } else if d == 9 { '9' } else if d == 10 { 'A' } else if d == 11 { 'B' }
    else if d == 12 { 'C' } else if d == 13 { 'D' } else if d == 14 { 'E' } else { 'F' }
}

/// Writes a text for a URL query.
pub fn encode(input: &str) -> (r: String)
    ensures
        r@ == url_encode(input@),
{
    let v = chars_of(input);
    let mut out = String::new();
    let mut i: usize = 0;
    while i < v.len()
        invariant
            i <= v@.len(),
            v@ == input@,
            out@ == url_encode(v@.subrange(0, i as int)),
        decreases v.len() - i,
    {
        let c = v[i];
        let ghost before = out@;
        assert(v@.subrange(0, i + 1).drop_last() =~= v@.subrange(0, i as int));
        if ('A' <= c && c <= 'Z') || ('a' <= c && c <= 'z') || ('0' <= c && c <= '9') || c == '-'
            || c == '_' || c == '.' || c == '~' {
            push_char(&mut out, c);
        } else if c == ' ' {
            push_char(&mut out, '+');
        } else {
            let b = (c as u32) % 256;
            push_char(&mut out, '%');
            push_char(&mut out, hex_char(b / 16));
            push_char(&mut out, hex_char(b % 16));
        }
        assert(out@ =~= before + encode_char(c));
        i = i + 1;
    }
    assert(v@.subrange(0, v@.len() as int) =~= v@);
    out
}

/// Content type of TMDB data: the first genre (read as `u32`) that is
/// animation (16) or action (28, 53, 80) decides; otherwise TV is mixed and
/// the rest film.
pub open spec fn tmdb_type(media_type: Seq<char>, genres: Seq<Option<u64>>, overview: Seq<char>) -> ContentType
    decreases genres.len(),
{
    if genres.len() == 0 {
        if media_type == "tv"@ {
            ContentType::Mixed
        } else {
            ContentType::Film
        }
    } else {
        match genres[0] {
            Some(id) => {
                let g = id as u32;
                if g == 16 {
                    if seq_contains(unicode_lowercase(overview), "anime"@) {
                        ContentType::Anime
                    } else if seq_contains(overview, "3D"@) || seq_contains(overview, "Pixar"@)
                        || seq_contains(overview, "Disney"@) {
                        ContentType::Animation3D
                    } else {
                        ContentType::ClassicAnime
                    }
                } else if g == 28 || g == 53 || g == 80 {
                    ContentType::Action
                } else {
                    tmdb_type(media_type, genres.drop_first(), overview)
                }
            },
            None => tmdb_type(media_type, genres.drop_first(), overview),
        }
    }
}

/// Content type of OMDB data.
pub open spec fn omdb_type(genre: Seq<char>, plot: Seq<char>, media_type: Seq<char>) -> ContentType {
    let g = unicode_lowercase(genre);
    let p = unicode_lowercase(plot);
    if seq_contains(g, "animation"@) {
        if seq_contains(p, "anime"@) || seq_contains(g, "anime"@) {
            ContentType::Anime
        } else if seq_contains(p, "3d"@) || seq_contains(p, "pixar"@) || seq_contains(p, "disney"@) {
            ContentType::Animation3D
        } else {
            ContentType::ClassicAnime
        }
    } else if seq_contains(g, "action"@) || seq_contains(g, "thriller"@) {
        ContentType::Action
    } else if seq_contains(p, "noir"@) || seq_contains(p, "gritty"@) || seq_contains(p, "dystopian"@)
        || seq_contains(g, "thriller"@) {
        ContentType::HeavyGrain
    } else if media_type == "series"@ {
        ContentType::Mixed
    } else {
        ContentType::Film
    }
}

/// Content type of a free text about the title.
pub open spec fn text_type(text: Seq<char>, query: Seq<char>) -> ContentType {
    let t = unicode_lowercase(text);
    let q = unicode_lowercase(query);
    if seq_contains(t, "animated"@) || seq_contains(t, "animation"@) {
        if seq_contains(t, "anime"@) || seq_contains(q, "anime"@) {
            ContentType::Anime
        } else if seq_contains(t, "3d"@) || seq_contains(t, "pixar"@) {
            ContentType::Animation3D
        } else {
            ContentType::ClassicAnime
        }
    } else if seq_contains(t, "action"@) || seq_contains(t, "thriller"@) || seq_contains(
        t,
        "adventure"@,
    ) {
        ContentType::Action
    } else if seq_contains(t, "noir"@) || seq_contains(t, "gritty"@) || seq_contains(t, "dark"@) {
        ContentType::HeavyGrain
    } else {
        ContentType::Film
    }
}

/// How many of the keywords occur in the text.
pub open spec fn keyword_hits(text: Seq<char>, kws: Seq<Seq<char>>) -> nat
    decreases kws.len(),
{
    if kws.len() == 0 {
        0
    } else {
        keyword_hits(text, kws.drop_last()) + if seq_contains(text, kws.last()) {
            1nat
        } else {
            0nat
        }
    }
}

/// Keywords of one category.
pub open spec fn anime_keywords() -> Seq<Seq<char>> {
    seq!["anime"@, "manga"@, "studio ghibli"@, "miyazaki"@, "makoto shinkai"@, "evangelion"@, "naruto"@, "dragon ball"@, "one piece"@, "attack on titan"@]
}

fn anime_keywords_vec() -> (r: Vec<String>)
    ensures
        strings_view(r@) == anime_keywords(),
{
    let mut v: Vec<String> = Vec::new();
    v.push(owned("anime"));
    v.push(owned("manga"));
    v.push(owned("studio ghibli"));
    v.push(owned("miyazaki"));
    v.push(owned("makoto shinkai"));
    v.push(owned("evangelion"));
    v.push(owned("naruto"));
    v.push(owned("dragon ball"));
    v.push(owned("one piece"));
    v.push(owned("attack on titan"));
    assert(strings_view(v@) =~= anime_keywords());
    v
}

/// Keywords of one category.
pub open spec fn classic_anime_keywords() -> Seq<Seq<char>> {
    seq!["akira"@, "ghost in the shell"@, "cowboy bebop"@, "90s anime"@, "80s anime"@, "cel animation"@]
}

fn classic_anime_keywords_vec() -> (r: Vec<String>)
    ensures
        strings_view(r@) == classic_anime_keywords(),
{
    let mut v: Vec<String> = Vec::new();
    v.push(owned("akira"));
    v.push(owned("ghost in the shell"));
    v.push(owned("cowboy bebop"));
    v.push(owned("90s anime"));
    v.push(owned("80s anime"));
    v.push(owned("cel animation"));
    assert(strings_view(v@) =~= classic_anime_keywords());
    v
}

/// Keywords of one category.
pub open spec fn animation_3d_keywords() -> Seq<Seq<char>> {
    seq!["pixar"@, "dreamworks"@, "disney animation"@, "3d animation"@, "cgi"@, "toy story"@, "incredibles"@, "shrek"@, "frozen"@, "arcane"@]
}

fn animation_3d_keywords_vec() -> (r: Vec<String>)
    ensures
        strings_view(r@) == animation_3d_keywords(),
{
    let mut v: Vec<String> = Vec::new();
    v.push(owned("pixar"));
    v.push(owned("dreamworks"));
    v.push(owned("disney animation"));
    v.push(owned("3d animation"));
    v.push(owned("cgi"));
    v.push(owned("toy story"));
    v.push(owned("incredibles"));
    v.push(owned("shrek"));
    v.push(owned("frozen"));
    v.push(owned("arcane"));
    assert(strings_view(v@) =~= animation_3d_keywords());
    v
}

/// Keywords of one category.
pub open spec fn heavy_grain_keywords() -> Seq<Seq<char>> {
    seq!["film noir"@, "70s"@, "grain"@, "vintage"@, "blade runner"@, "mad max"@, "alien"@, "terminator"@]
}

fn heavy_grain_keywords_vec() -> (r: Vec<String>)
    ensures
        strings_view(r@) == heavy_grain_keywords(),
{
    let mut v: Vec<String> = Vec::new();
    v.push(owned("film noir"));
    v.push(owned("70s"));
    v.push(owned("grain"));
    v.push(owned("vintage"));
    v.push(owned("blade runner"));
    v.push(owned("mad max"));
    v.push(owned("alien"));
    v.push(owned("terminator"));
    assert(strings_view(v@) =~= heavy_grain_keywords());
    v
}

/// Keywords of one category.
pub open spec fn action_keywords() -> Seq<Seq<char>> {
    seq!["action"@, "thriller"@, "chase"@, "fight"@, "explosion"@, "superhero"@, "marvel"@, "dc comics"@, "fast and furious"@, "mission impossible"@]
}

fn action_keywords_vec() -> (r: Vec<String>)
    ensures
        strings_view(r@) == action_keywords(),
{
    let mut v: Vec<String> = Vec::new();
    v.push(owned("action"));
    v.push(owned("thriller"));
    v.push(owned("chase"));
    v.push(owned("fight"));
    v.push(owned("explosion"));
    v.push(owned("superhero"));
    v.push(owned("marvel"));
    v.push(owned("dc comics"));
    v.push(owned("fast and furious"));
    v.push(owned("mission impossible"));
    assert(strings_view(v@) =~= action_keywords());
    v
}

/// Keywords of one category.
pub open spec fn light_grain_keywords() -> Seq<Seq<char>> {
    seq!["documentary"@, "clean"@, "digital"@, "modern film"@]
}

fn light_grain_keywords_vec() -> (r: Vec<String>)
    ensures
        strings_view(r@) == light_grain_keywords(),
{
    let mut v: Vec<String> = Vec::new();
    v.push(owned("documentary"));
    v.push(owned("clean"));
    v.push(owned("digital"));
    v.push(owned("modern film"));
    assert(strings_view(v@) =~= light_grain_keywords());
    v
}

/// The titles the offline classifier knows, with their content types.
pub open spec fn known_titles() -> Seq<(Seq<char>, ContentType)> {
    seq![
        ("spirited away"@, ContentType::Anime),
        ("princess mononoke"@, ContentType::Anime),
        ("akira"@, ContentType::ClassicAnime),
        ("ghost in the shell"@, ContentType::ClassicAnime),
        ("toy story"@, ContentType::Animation3D),
        ("incredibles"@, ContentType::Animation3D),
        ("arcane"@, ContentType::Animation3D),
        ("blade runner 2049"@, ContentType::HeavyGrain),
        ("dune"@, ContentType::HeavyGrain),
        ("mad max fury road"@, ContentType::Action),
        ("john wick"@, ContentType::Action),
    ]
}

fn known_titles_vec() -> (r: Vec<(String, ContentType)>)
    ensures
        r@.map_values(|e: (String, ContentType)| (e.0@, e.1)) == known_titles(),
{
    let mut v: Vec<(String, ContentType)> = Vec::new();
    v.push((owned("spirited away"), ContentType::Anime));
    v.push((owned("princess mononoke"), ContentType::Anime));
    v.push((owned("akira"), ContentType::ClassicAnime));
    v.push((owned("ghost in the shell"), ContentType::ClassicAnime));
    v.push((owned("toy story"), ContentType::Animation3D));
    v.push((owned("incredibles"), ContentType::Animation3D));
    v.push((owned("arcane"), ContentType::Animation3D));
    v.push((owned("blade runner 2049"), ContentType::HeavyGrain));
    v.push((owned("dune"), ContentType::HeavyGrain));
    v.push((owned("mad max fury road"), ContentType::Action));
    v.push((owned("john wick"), ContentType::Action));
    assert(v@.map_values(|e: (String, ContentType)| (e.0@, e.1)) =~= known_titles());
    v
}

/// The score of each category in half points: 3 points a hit for the
/// three animation categories, 2 for heavy grain and action, 1.5 for light
/// grain.
pub open spec fn keyword_scores(text: Seq<char>) -> Seq<nat> {
    seq![
        6 * keyword_hits(text, anime_keywords()),
        6 * keyword_hits(text, classic_anime_keywords()),
        6 * keyword_hits(text, animation_3d_keywords()),
        4 * keyword_hits(text, heavy_grain_keywords()),
        4 * keyword_hits(text, action_keywords()),
        3 * keyword_hits(text, light_grain_keywords()),
    ]
}

/// The position of the last largest score.
pub open spec fn last_max_index(s: Seq<nat>) -> int
    decreases s.len(),
{
    if s.len() <= 1 {
        0
    } else {
        let b = last_max_index(s.drop_last());
        if s.last() >= s[b] {
            s.len() - 1
        } else {
            b
        }
    }
}

/// The categories in scoring order.
pub open spec fn keyword_category(i: int) -> ContentType {
    if i == 0 {
        ContentType::Anime
    } else if i == 1 {
        ContentType::ClassicAnime
    } else if i == 2 {
        ContentType::Animation3D
    } else if i == 3 {
        ContentType::HeavyGrain
    } else if i == 4 {
        ContentType::Action
    } else {
        ContentType::LightGrain
    }
}

/// The names of the categories' keyword lists.
pub open spec fn keyword_source(i: int) -> Seq<char> {
    if i == 0 {
        "anime_keywords"@
    } else if i == 1 {
        "classic_anime_keywords"@
    } else if i == 2 {
        "3d_animation_keywords"@
    } else if i == 3 {
        "heavy_grain_keywords"@
    } else if i == 4 {
        "action_keywords"@
    } else {
        "light_grain_keywords"@
    }
}

/// The outcome of keyword classification.
#[derive(Debug, Clone, PartialEq, Eq)]
pub struct KeywordClassification {
    pub content_type: ContentType,
    /// The winning score in half points.
    pub score_halves: u32,
    /// The keyword list that won.
    pub source: String,
}

/// How a title was read out of a file name.
#[derive(Debug, Clone, Copy, PartialEq, Eq, Structural)]
pub enum TitleMethod {
    TvShowPattern,
    MovieYearPattern,
    FilenameExtraction,
    Failed,
}

impl TitleMethod {
    pub fn as_str(&self) -> (r: &'static str)
        ensures
            r@ == (match self {
                TitleMethod::TvShowPattern => "tv_show_pattern"@,
                TitleMethod::MovieYearPattern => "movie_year_pattern"@,
                TitleMethod::FilenameExtraction => "filename_extraction"@,
                TitleMethod::Failed => "failed"@,
            }),
    {
        match self {
            TitleMethod::TvShowPattern => "tv_show_pattern",
            TitleMethod::MovieYearPattern => "movie_year_pattern",
            TitleMethod::FilenameExtraction => "filename_extraction",
            TitleMethod::Failed => "failed",
        }
    }
}

impl TitleMethod {
    /// How far a title read this way is trusted, in percent.
    pub fn confidence_percent(&self) -> (r: u32)
        ensures
            r == (match self {
                TitleMethod::TvShowPattern => 90u32,
                TitleMethod::MovieYearPattern => 85u32,
                TitleMethod::FilenameExtraction => 60u32,
                TitleMethod::Failed => 0u32,
            }),
    {
        match self {
            TitleMethod::TvShowPattern => 90,
            TitleMethod::MovieYearPattern => 85,
            TitleMethod::FilenameExtraction => 60,
            TitleMethod::Failed => 0,
        }
    }
}

impl KeywordClassification {
    /// How far the classification is trusted, in percent: five per half
    /// point of the winning score, at most ninety; thirty where no keyword
    /// occurred.
    pub fn confidence_percent(&self) -> (r: u32)
        ensures
            self.score_halves == 0 ==> r == 30,
            self.score_halves > 0 ==> r == (if self.score_halves * 5 < 90 {
                self.score_halves * 5
            } else {
                90
            }),
    {
        if self.score_halves == 0 {
            30
        } else if self.score_halves < 18 {
            self.score_halves * 5
        } else {
            90
        }
    }
}

/// A title read out of a file name.
#[derive(Debug, Clone, PartialEq, Eq)]
pub struct TitleMatch {
    pub title: String,
    pub method: TitleMethod,
}

/// The pattern of a TV episode name: a title, then `.SxxEyy` in any
/// letter case.
pub open spec fn tv_show_pattern() -> Seq<char> {
    "(?i)^(.+?)\\.S\\d{2}E\\d{2}"@
}

/// The pattern of a movie name: a title, then `.19xx` or `.20xx`.
pub open spec fn movie_year_pattern() -> Seq<char> {
    "^(.+?)\\.(19|20)\\d{2}"@
}

/// The release-quality tags (`.720p`, `.x265`, `.BluRay`, ...).
pub open spec fn quality_tags_pattern() -> Seq<char> {
    "\\.(720p|1080p|4K|2160p|x264|x265|H\\.?264|H\\.?265|HEVC|BluRay|WEB-DL|HDRip|BRRip)"@
}

/// The first group of the first match of `pattern` at the start of the
/// text (empty where it took no part), where the pattern matches.
pub open spec fn first_group(pattern: Seq<char>, s: Seq<char>) -> Option<Seq<char>> {
    match regex_groups(pattern, s) {
        Some(g) => Some(group_text(g, 1)),
        None => None,
    }
}

/// The title before `.SxxEyy` (in any letter case) at the start of the
/// text.
pub open spec fn tv_show_capture(s: Seq<char>) -> Option<Seq<char>> {
    first_group(tv_show_pattern(), s)
}

/// The title before `.19xx` or `.20xx` at the start of the text.
pub open spec fn movie_year_capture(s: Seq<char>) -> Option<Seq<char>> {
    first_group(movie_year_pattern(), s)
}

/// The text with release-quality tags removed.
pub open spec fn quality_tags_removed(s: Seq<char>) -> Seq<char> {
    match regex_replaced(quality_tags_pattern(), s, Seq::empty()) {
        Some(t) => t,
        None => s,
    }
}

/// The first group of the first match of `pattern` in `s`.
fn first_group_of(pattern: &str, s: &str) -> (r: Option<String>)
    ensures
        match r {
            Some(t) => first_group(pattern@, s@) == Some(t@),
            None => first_group(pattern@, s@) is None,
        },
{
    match captures(pattern, s) {
        Some(g) => Some(group_at(&g, 1)),
        None => None,
    }
}

/// The title before `.SxxEyy` at the start of the text.
fn tv_show_title(s: &str) -> (r: Option<String>)
    ensures
        match r {
            Some(t) => tv_show_capture(s@) == Some(t@),
            None => tv_show_capture(s@) is None,
        },
{
    let pattern = "(?i)^(.+?)\\.S\\d{2}E\\d{2}";
    assert(pattern@ == tv_show_pattern());
    first_group_of(pattern, s)
}

/// The title before `.19xx` or `.20xx` at the start of the text.
fn movie_year_title(s: &str) -> (r: Option<String>)
    ensures
        match r {
            Some(t) => movie_year_capture(s@) == Some(t@),
            None => movie_year_capture(s@) is None,
        },
{
    let pattern = "^(.+?)\\.(19|20)\\d{2}";
    assert(pattern@ == movie_year_pattern());
    first_group_of(pattern, s)
}

/// The text with release-quality tags removed.
fn strip_quality_tags(s: &str) -> (r: String)
    ensures
        r@ == quality_tags_removed(s@),
{
    let pattern = "\\.(720p|1080p|4K|2160p|x264|x265|H\\.?264|H\\.?265|HEVC|BluRay|WEB-DL|HDRip|BRRip)";
    assert(pattern@ == quality_tags_pattern());
    let empty = "";
    proof {
        reveal_strlit("");
        assert(empty@ =~= Seq::<char>::empty());
    }
    match replace_all(pattern, s, empty) {
        Some(t) => t,
        None => s.to_string(),
    }
}

/// Separators (`.`, `_`, `-`) turned into spaces.
pub open spec fn spaced(t: Seq<char>) -> Seq<char> {
    t.map_values(|c: char| if c == '.' || c == '_' || c == '-' { ' ' } else { c })
}

/// A title with separators turned into spaces and trimmed.
pub open spec fn clean_title_text(t: Seq<char>) -> Seq<char> {
    trim_seq(spaced(t))
}

/// The title a file name gives, and how it was found: the TV pattern, then
/// the movie-year pattern, then the name before its first `.` once quality
/// tags are removed; all on the lower-cased name.
pub open spec fn title_of_filename(filename: Seq<char>) -> (Seq<char>, TitleMethod) {
    let f = unicode_lowercase(filename);
    match tv_show_capture(f) {
        Some(t) => (clean_title_text(t), TitleMethod::TvShowPattern),
        None => match movie_year_capture(f) {
            Some(t) => (clean_title_text(t), TitleMethod::MovieYearPattern),
            None => {
                let first = trim_seq(crate::text::split_char(quality_tags_removed(f), '.')[0]);
                if first.len() > 0 {
                    (clean_title_text(first), TitleMethod::FilenameExtraction)
                } else {
                    (Seq::empty(), TitleMethod::Failed)
                }
            },
        },
    }
}

/// The first known title that the title contains or that contains it.
pub open spec fn known_title_type(title: Seq<char>, db: Seq<(Seq<char>, ContentType)>) -> Option<
    ContentType,
>
    decreases db.len(),
{
    if db.len() == 0 {
        None
    } else if seq_contains(title, db[0].0) || seq_contains(db[0].0, title) {
        Some(db[0].1)
    } else {
        known_title_type(title, db.drop_first())
    }
}

/// Classifies content from its title, offline or through web databases.
pub struct WebSearchClassifier {
    pub timeout_seconds: u64,
    pub enabled: bool,
    pub simulation_mode: bool,
    pub content_database: Vec<(String, ContentType)>,
}

fn count_hits(text: &str, kws: &Vec<String>) -> (r: u32)
    requires
        kws@.len() <= 100,
    ensures
        r as nat == keyword_hits(text@, strings_view(kws@)),
        r <= kws@.len(),
{
    let ghost kv = strings_view(kws@);
    let mut n: u32 = 0;
    let mut i: usize = 0;
    while i < kws.len()
        invariant
            i <= kws@.len(),
            kws@.len() <= 100,
            kv == strings_view(kws@),
            n as nat == keyword_hits(text@, kv.subrange(0, i as int)),
            n <= i,
        decreases kws.len() - i,
    {
        assert(kv.subrange(0, i + 1).drop_last() =~= kv.subrange(0, i as int));
        assert(kv[i as int] == kws@[i as int]@);
        if str_contains(text, kws[i].as_str()) {
            n = n + 1;
        }
        i = i + 1;
    }
    assert(kv.subrange(0, kv.len() as int) =~= kv);
    n
}

fn keyword_category_of(i: usize) -> (r: (ContentType, &'static str))
    ensures
        r.0 == keyword_category(i as int),
        r.1@ == keyword_source(i as int),
{
    if i == 0 {
        (ContentType::Anime, "anime_keywords")
    } else if i == 1 {
        (ContentType::ClassicAnime, "classic_anime_keywords")
    } else if i == 2 {
        (ContentType::Animation3D, "3d_animation_keywords")
    } else if i == 3 {
        (ContentType::HeavyGrain, "heavy_grain_keywords")
    } else if i == 4 {
        (ContentType::Action, "action_keywords")
    } else {
        (ContentType::LightGrain, "light_grain_keywords")
    }
}

impl WebSearchClassifier {
    /// A classifier with the built-in list of known titles.
    pub fn new(timeout_seconds: u64, enabled: bool, simulation_mode: bool) -> (r: Self)
        ensures
            r.timeout_seconds == timeout_seconds,
            r.enabled == enabled,
            r.simulation_mode == simulation_mode,
            r.content_database@.map_values(|e: (String, ContentType)| (e.0@, e.1))
                == known_titles(),
    {
        WebSearchClassifier {
            timeout_seconds,
            enabled,
            simulation_mode,
            content_database: known_titles_vec(),
        }
    }

    /// Separators turned into spaces, then trimmed.
    pub fn clean_title(&self, title: &str) -> (r: String)
        ensures
            r@ == clean_title_text(title@),
    {
        let v = chars_of(title);
        let mut w: Vec<char> = Vec::new();
        let mut i: usize = 0;
        while i < v.len()
            invariant
                i <= v@.len(),
                v@ == title@,
                w@ == spaced(v@.subrange(0, i as int)),
            decreases v.len() - i,
        {
            let c = v[i];
            if c == '.' || c == '_' || c == '-' {
                w.push(' ');
            } else {
                w.push(c);
            }
            i = i + 1;
            assert(w@ =~= spaced(v@.subrange(0, i as int)));
        }
        assert(v@.subrange(0, v@.len() as int) =~= v@);
        let s = string_of(&w);
        trim(s.as_str())
    }

    /// The title of a video from its file name.
    pub fn extract_title_from_filename(&self, filename: &str) -> (r: TitleMatch)
        ensures
            (r.title@, r.method) == title_of_filename(filename@),
    {
        let lower = to_lowercase(filename);
        let f = lower.as_str();
        if let Some(t) = tv_show_title(f) {
            return TitleMatch { title: self.clean_title(t.as_str()), method: TitleMethod::TvShowPattern };
        }
        if let Some(t) = movie_year_title(f) {
            return TitleMatch {
                title: self.clean_title(t.as_str()),
                method: TitleMethod::MovieYearPattern,
            };
        }
        let cleaned = strip_quality_tags(f);
        let pieces = crate::text::split_str(cleaned.as_str(), '.');
        proof { crate::text::lemma_split_nonempty(cleaned@, '.'); }
        assert(strings_view(pieces@)[0] == pieces@[0]@);
        let first = trim(pieces[0].as_str());
        if first.as_str().unicode_len() > 0 {
            TitleMatch {
                title: self.clean_title(first.as_str()),
                method: TitleMethod::FilenameExtraction,
            }
        } else {
            TitleMatch { title: String::new(), method: TitleMethod::Failed }
        }
    }

    /// The content type of the first known title that the (lower-cased)
    /// title contains or is part of.
    pub fn lookup_known_title(&self, title_lower: &str) -> (r: Option<ContentType>)
        ensures
            r == known_title_type(
                title_lower@,
                self.content_database@.map_values(|e: (String, ContentType)| (e.0@, e.1)),
            ),
    {
        let ghost db = self.content_database@.map_values(|e: (String, ContentType)| (e.0@, e.1));
        let mut i: usize = 0;
        assert(db.subrange(0, db.len() as int) =~= db);
        while i < self.content_database.len()
            invariant
                i <= db.len(),
                db == self.content_database@.map_values(|e: (String, ContentType)| (e.0@, e.1)),
                known_title_type(title_lower@, db) == known_title_type(
                    title_lower@,
                    db.subrange(i as int, db.len() as int),
                ),
            decreases self.content_database.len() - i,
        {
            let ghost rest = db.subrange(i as int, db.len() as int);
            assert(rest.drop_first() =~= db.subrange(i + 1, db.len() as int));
            let k = self.content_database[i].0.as_str();
            if str_contains(title_lower, k) || str_contains(k, title_lower) {
                return Some(self.content_database[i].1);
            }
            i = i + 1;
        }
        None
    }

    /// The content type TMDB data indicates.
    pub fn classify_from_tmdb_data(&self, media_type: &str, genre_ids: &Vec<Option<u64>>, overview: &str) -> (r: ContentType)
        ensures
            r == tmdb_type(media_type@, genre_ids@, overview@),
    {
        let mut i: usize = 0;
        assert(genre_ids@.subrange(0, genre_ids@.len() as int) =~= genre_ids@);
        while i < genre_ids.len()
            invariant
                i <= genre_ids@.len(),
                tmdb_type(media_type@, genre_ids@, overview@) == tmdb_type(
                    media_type@,
                    genre_ids@.subrange(i as int, genre_ids@.len() as int),
                    overview@,
                ),
            decreases genre_ids.len() - i,
        {
            let ghost rest = genre_ids@.subrange(i as int, genre_ids@.len() as int);
            assert(rest.drop_first() =~= genre_ids@.subrange(i + 1, genre_ids@.len() as int));
            if let Some(id) = genre_ids[i] {
                #[verifier::truncate]
                let g = id as u32;
                if g == 16 {
                    let l = to_lowercase(overview);
                    if str_contains(l.as_str(), "anime") {
                        return ContentType::Anime;
                    } else if str_contains(overview, "3D") || str_contains(overview, "Pixar")
                        || str_contains(overview, "Disney") {
                        return ContentType::Animation3D;
                    } else {
                        return ContentType::ClassicAnime;
                    }
                } else if g == 28 || g == 53 || g == 80 {
                    return ContentType::Action;
                }
            }
            i = i + 1;
        }
        if str_eq(media_type, "tv") {
            ContentType::Mixed
        } else {
            ContentType::Film
        }
    }

    /// The content type OMDB data indicates.
    pub fn classify_from_omdb_data(&self, genre: &str, plot: &str, media_type: &str) -> (r: ContentType)
        ensures
            r == omdb_type(genre@, plot@, media_type@),
    {
        let gl = to_lowercase(genre);
        let pl = to_lowercase(plot);
        let g = gl.as_str();
        let p = pl.as_str();
        if str_contains(g, "animation") {
            if str_contains(p, "anime") || str_contains(g, "anime") {
                return ContentType::Anime;
            } else if str_contains(p, "3d") || str_contains(p, "pixar") || str_contains(p, "disney") {
                return ContentType::Animation3D;
            } else {
                return ContentType::ClassicAnime;
            }
        }
        if str_contains(g, "action") || str_contains(g, "thriller") {
            return ContentType::Action;
        }
        if str_contains(p, "noir") || str_contains(p, "gritty") || str_contains(p, "dystopian")
            || str_contains(g, "thriller") {
            return ContentType::HeavyGrain;
        }
        if str_eq(media_type, "series") {
            ContentType::Mixed
        } else {
            ContentType::Film
        }
    }

    /// The content type a free text about the title indicates.
    pub fn classify_from_text_analysis(&self, text: &str, query: &str) -> (r: ContentType)
        ensures
            r == text_type(text@, query@),
    {
        let tl = to_lowercase(text);
        let ql = to_lowercase(query);
        let t = tl.as_str();
        let q = ql.as_str();
        if str_contains(t, "animated") || str_contains(t, "animation") {
            if str_contains(t, "anime") || str_contains(q, "anime") {
                return ContentType::Anime;
            } else if str_contains(t, "3d") || str_contains(t, "pixar") {
                return ContentType::Animation3D;
            } else {
                return ContentType::ClassicAnime;
            }
        }
        if str_contains(t, "action") || str_contains(t, "thriller") || str_contains(t, "adventure") {
            return ContentType::Action;
        }
        if str_contains(t, "noir") || str_contains(t, "gritty") || str_contains(t, "dark") {
            return ContentType::HeavyGrain;
        }
        ContentType::Film
    }

    /// Keyword classification of a text: the category with the highest
    /// score (the last one on a tie), film where no keyword occurs.
    pub fn classify_by_keywords(&self, text: &str) -> (r: KeywordClassification)
        ensures
            ({
                let l = unicode_lowercase(text@);
                let s = keyword_scores(l);
                let b = last_max_index(s);
                &&& r.score_halves as nat == s[b]
                &&& r.source@ == keyword_source(b)
                &&& r.content_type == (if s[b] > 0 {
                    keyword_category(b)
                } else {
                    ContentType::Film
                })
            }),
    {
        let lower = to_lowercase(text);
        let t = lower.as_str();
        let ghost l = lower@;
        let mut scores: Vec<u32> = Vec::new();
        scores.push(6 * count_hits(t, &anime_keywords_vec()));
        scores.push(6 * count_hits(t, &classic_anime_keywords_vec()));
        scores.push(6 * count_hits(t, &animation_3d_keywords_vec()));
        scores.push(4 * count_hits(t, &heavy_grain_keywords_vec()));
        scores.push(4 * count_hits(t, &action_keywords_vec()));
        scores.push(3 * count_hits(t, &light_grain_keywords_vec()));
        let ghost sv = scores@.map_values(|x: u32| x as nat);
        assert(sv =~= keyword_scores(l));
        let mut best: usize = 0;
        let mut i: usize = 1;
        assert(sv.subrange(0, 1).len() == 1);
        while i < 6
            invariant
                1 <= i <= 6,
                scores@.len() == 6,
                sv == scores@.map_values(|x: u32| x as nat),
                best < i,
                best as int == last_max_index(sv.subrange(0, i as int)),
            decreases 6 - i,
        {
            assert(sv.subrange(0, i + 1).drop_last() =~= sv.subrange(0, i as int));
            if scores[i] >= scores[best] {
                best = i;
            }
            i = i + 1;
        }
        assert(sv.subrange(0, 6) =~= sv);
        let (category, source) = keyword_category_of(best);
        let score = scores[best];
        KeywordClassification {
            content_type: if score > 0 {
                category
            } else {
                ContentType::Film
            },
            score_halves: score,
            source: owned(source),
        }
    }

    /// The queries for a web search.
    pub fn search_queries(title: &str) -> (r: Vec<String>)
        ensures
            strings_view(r@) == seq![
                title@ + " anime"@,
                title@ + " movie"@,
                title@ + " film"@,
                title@ + " animation"@,
            ],
    {
        let mut v: Vec<String> = Vec::new();
        v.push(concat(title, " anime"));
        v.push(concat(title, " movie"));
        v.push(concat(title, " film"));
        v.push(concat(title, " animation"));
        assert(strings_view(v@) =~= seq![
            title@ + " anime"@,
            title@ + " movie"@,
            title@ + " film"@,
            title@ + " animation"@,
        ]);
        v
    }

    /// The TMDB search URL for a query.
    pub fn tmdb_search_url(query: &str) -> (r: String)
        ensures
            r@ == "https://api.themoviedb.org/3/search/multi?api_key=demo&query="@ + url_encode(
                query@,
            ),
    {
        let q = encode(query);
        concat("https://api.themoviedb.org/3/search/multi?api_key=demo&query=", q.as_str())
    }

    /// The OMDB search URL for a query.
    pub fn omdb_search_url(query: &str) -> (r: String)
        ensures
            r@ == "http://www.omdbapi.com/?apikey=demo&t="@ + url_encode(query@) + "&plot=short"@,
    {
        let q = encode(query);
        concat3("http://www.omdbapi.com/?apikey=demo&t=", q.as_str(), "&plot=short")
    }

    /// The DuckDuckGo instant-answer URL for a query.
    pub fn duckduckgo_search_url(query: &str) -> (r: String)
        ensures
            r@ == "https://api.duckduckgo.com/?q="@ + url_encode(query@ + " movie"@)
                + "&format=json&no_redirect=1"@,
    {
        let full = concat(query, " movie");
        let q = encode(full.as_str());
        concat3("https://api.duckduckgo.com/?q=", q.as_str(), "&format=json&no_redirect=1")
    }
}

impl Default for WebSearchClassifier {
    fn default() -> (r: Self)
        ensures
            r.timeout_seconds == 10,
            r.enabled,
            !r.simulation_mode,
    {
        Self::new(10, true, false)
    }
}

} // verus!
