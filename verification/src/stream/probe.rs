//! The streams and chapters of an ffprobe report: the values ffprobe
//! gives, with the defaults where it gives none.

use vstd::prelude::*;
use crate::hdr::detection::{opt_chars, opt_copy};
use crate::stream::preservation::{ChapterInfo, StreamDisposition, StreamInfo};
use crate::text::owned;

verus! {

/// The disposition object of a stream as ffprobe reports it: each flag's
/// value where it is an integer.
#[derive(Debug, Clone, Copy, PartialEq, Eq)]
pub struct RawDisposition {
    pub default: Option<i64>,
    pub forced: Option<i64>,
    pub comment: Option<i64>,
    pub lyrics: Option<i64>,
    pub karaoke: Option<i64>,
    pub original: Option<i64>,
    pub dub: Option<i64>,
    pub visual_impaired: Option<i64>,
    pub hearing_impaired: Option<i64>,
}

/// A stream as ffprobe reports it: its codec type and name, its language
/// and title tags where they are text, and its disposition where it is an
/// object.
#[derive(Debug, Clone)]
pub struct RawProbeStream {
    pub codec_type: Option<String>,
    pub codec_name: Option<String>,
    pub language: Option<String>,
    pub title: Option<String>,
    pub disposition: Option<RawDisposition>,
}

/// A chapter as ffprobe reports it: its id, start and end where they are
/// unsigned integers, its time base and title tag where they are text.
#[derive(Debug, Clone)]
pub struct RawProbeChapter {
    pub id: Option<u64>,
    pub time_base: Option<String>,
    pub start: Option<u64>,
    pub end: Option<u64>,
    pub title: Option<String>,
}

/// The text, or `unknown` where there is none.
pub open spec fn or_unknown(o: Option<String>) -> Seq<char> {
    match o {
        Some(s) => s@,
        None => "unknown"@,
    }
}

/// A disposition flag is set where its value is 1.
pub open spec fn flag_set(v: Option<i64>) -> bool {
    v == Some(1i64)
}

/// The flags of a disposition object; none is set without one.
pub open spec fn disposition_of(d: Option<RawDisposition>) -> StreamDisposition {
    match d {
        Some(d) => StreamDisposition {
            default: flag_set(d.default),
            forced: flag_set(d.forced),
            comment: flag_set(d.comment),
            lyrics: flag_set(d.lyrics),
            karaoke: flag_set(d.karaoke),
            original: flag_set(d.original),
            dub: flag_set(d.dub),
            visual_impaired: flag_set(d.visual_impaired),
            hearing_impaired: flag_set(d.hearing_impaired),
        },
        None => StreamDisposition {
            default: false,
            forced: false,
            comment: false,
            lyrics: false,
            karaoke: false,
            original: false,
            dub: false,
            visual_impaired: false,
            hearing_impaired: false,
        },
    }
}

/// The stream at position `i` of the report: numbered by its position
/// (modulo 2^32), `unknown` for a missing codec type or name.
pub open spec fn stream_info_is(s: StreamInfo, i: int, raw: RawProbeStream) -> bool {
    &&& s.index == (i as u32)
    &&& s.codec_type@ == or_unknown(raw.codec_type)
    &&& s.codec_name@ == or_unknown(raw.codec_name)
    &&& opt_chars(s.language) == opt_chars(raw.language)
    &&& opt_chars(s.title) == opt_chars(raw.title)
    &&& s.disposition == disposition_of(raw.disposition)
}

/// The time base of a chapter, `1/1000` where none is given.
pub open spec fn time_base_or_default(o: Option<String>) -> Seq<char> {
    match o {
        Some(s) => s@,
        None => "1/1000"@,
    }
}

/// A chapter of the report: id (modulo 2^32), start and end 0 where
/// missing, time base `1/1000` where missing.
pub open spec fn chapter_info_is(c: ChapterInfo, raw: RawProbeChapter) -> bool {
    &&& c.id == (raw.id.unwrap_or(0u64) as u32)
    &&& c.time_base@ == time_base_or_default(raw.time_base)
    &&& c.start == raw.start.unwrap_or(0u64)
    &&& c.end == raw.end.unwrap_or(0u64)
    &&& opt_chars(c.title) == opt_chars(raw.title)
}

fn flag(v: Option<i64>) -> (r: bool)
    ensures
        r == flag_set(v),
{
    match v {
        Some(x) => x == 1,
        None => false,
    }
}

fn disposition(d: &Option<RawDisposition>) -> (r: StreamDisposition)
    ensures
        r == disposition_of(*d),
{
    match d {
        Some(d) => StreamDisposition {
            default: flag(d.default),
            forced: flag(d.forced),
            comment: flag(d.comment),
            lyrics: flag(d.lyrics),
            karaoke: flag(d.karaoke),
            original: flag(d.original),
            dub: flag(d.dub),
            visual_impaired: flag(d.visual_impaired),
            hearing_impaired: flag(d.hearing_impaired),
        },
        None => StreamDisposition::none(),
    }
}

fn text_or_unknown(o: &Option<String>) -> (r: String)
    ensures
        r@ == or_unknown(*o),
{
    match o {
        Some(s) => s.clone(),
        None => owned("unknown"),
    }
}

/// The streams of a report, in its order.
pub fn get_stream_info(raw: &Vec<RawProbeStream>) -> (r: Vec<StreamInfo>)
    ensures
        r@.len() == raw@.len(),
        forall|i: int| 0 <= i < r@.len() ==> stream_info_is(#[trigger] r@[i], i, raw@[i]),
{
    let mut r: Vec<StreamInfo> = Vec::new();
    let mut i: usize = 0;
    while i < raw.len()
        invariant
            i <= raw@.len(),
            r@.len() == i,
            forall|k: int| 0 <= k < i ==> stream_info_is(#[trigger] r@[k], k, raw@[k]),
        decreases raw.len() - i,
    {
        let s = &raw[i];
        #[verifier::truncate]
        let index = i as u32;
        r.push(
            StreamInfo {
                index,
                codec_type: text_or_unknown(&s.codec_type),
                codec_name: text_or_unknown(&s.codec_name),
                language: opt_copy(&s.language),
                title: opt_copy(&s.title),
                disposition: disposition(&s.disposition),
            },
        );
        i = i + 1;
    }
    r
}

/// The chapters of a report, in its order.
pub fn get_chapter_info(raw: &Vec<RawProbeChapter>) -> (r: Vec<ChapterInfo>)
    ensures
        r@.len() == raw@.len(),
        forall|i: int| 0 <= i < r@.len() ==> chapter_info_is(#[trigger] r@[i], raw@[i]),
{
    let mut r: Vec<ChapterInfo> = Vec::new();
    let mut i: usize = 0;
    while i < raw.len()
        invariant
            i <= raw@.len(),
            r@.len() == i,
            forall|k: int| 0 <= k < i ==> chapter_info_is(#[trigger] r@[k], raw@[k]),
        decreases raw.len() - i,
    {
        let c = &raw[i];
        let id64: u64 = match c.id {
            Some(v) => v,
            None => 0,
        };
        #[verifier::truncate]
        let id = id64 as u32;
        let time_base = match &c.time_base {
            Some(t) => t.clone(),
            None => owned("1/1000"),
        };
        let start: u64 = match c.start {
            Some(v) => v,
            None => 0,
        };
        let end: u64 = match c.end {
            Some(v) => v,
            None => 0,
        };
        r.push(ChapterInfo { id, time_base, start, end, title: opt_copy(&c.title) });
        i = i + 1;
    }
    r
}

} // verus!
