//! Rate-control modes and the encoder kinds that implement them.

use vstd::prelude::*;
use crate::config::profiles::{with_mode, EncodingProfile};
use crate::encoding::filters::{filter_args, FilterChain};
use crate::error::{Error, ErrorKind};
use crate::params::{
    keys_distinct, law_get_after_insert, lemma_insert_distinct, pm_get, pm_insert, x265_params_text,
    ParamEntries, ParamMap,
};
use crate::paths::{is_uuid_text, new_uuid};
use crate::stream::preservation::{metadata_args, StreamMapping, StreamPreservation};
use crate::text::{
    all_ascii, ascii_lower, concat, lemma_ascii_lower_idempotent, decimal, extend_strings, owned, str_eq, strings_view,
    to_lowercase, u64_to_string, unicode_lowercase,
};

verus! {

/// Rate control: constant quality, average bitrate or constant bitrate.
#[derive(Debug, Clone, Copy, PartialEq, Eq, Structural)]
pub enum EncodingMode {
    CRF,
    ABR,
    CBR,
}

pub open spec fn mode_name(m: EncodingMode) -> Seq<char> {
    match m {
        EncodingMode::CRF => "crf"@,
        EncodingMode::ABR => "abr"@,
        EncodingMode::CBR => "cbr"@,
    }
}

pub open spec fn mode_from_lower(t: Seq<char>) -> Option<EncodingMode> {
    if t == "crf"@ {
        Some(EncodingMode::CRF)
    } else if t == "abr"@ {
        Some(EncodingMode::ABR)
    } else if t == "cbr"@ {
        Some(EncodingMode::CBR)
    } else {
        None
    }
}

impl EncodingMode {
    /// Reads a mode name in any letter case.
    pub fn from_str(s: &str) -> (r: Option<EncodingMode>)
        ensures
            r == mode_from_lower(unicode_lowercase(s@)),
            all_ascii(s@) ==> r == mode_from_lower(ascii_lower(s@)),
    {
        let l = to_lowercase(s);
        let t = l.as_str();
        if str_eq(t, "crf") {
            Some(EncodingMode::CRF)
        } else if str_eq(t, "abr") {
            Some(EncodingMode::ABR)
        } else if str_eq(t, "cbr") {
            Some(EncodingMode::CBR)
        } else {
            None
        }
    }

    pub fn as_str(&self) -> (r: &'static str)
        ensures
            r@ == mode_name(*self),
    {
        match self {
            EncodingMode::CRF => "crf",
            EncodingMode::ABR => "abr",
            EncodingMode::CBR => "cbr",
        }
    }
}

/// Reading back a mode's name gives the mode.
pub proof fn law_mode_name_round_trip(m: EncodingMode)
    ensures
        all_ascii(mode_name(m)),
        mode_from_lower(ascii_lower(mode_name(m))) == Some(m),
{
    reveal_strlit("crf");
    reveal_strlit("abr");
    reveal_strlit("cbr");
    assert("crf"@[0] == 'c' && "abr"@[0] == 'a' && "cbr"@[1] == 'b' && "crf"@[1] == 'r');
    let p = mode_name(m);
    assert(ascii_lower(p) =~= p);
}

/// Parsing a mode name ignores letter case on ASCII text: the name and its
/// lower-cased form (again ASCII) parse to the same mode.
pub proof fn law_mode_parse_ignores_ascii_case(s: Seq<char>)
    requires
        all_ascii(s),
    ensures
        all_ascii(ascii_lower(s)),
        mode_from_lower(ascii_lower(ascii_lower(s))) == mode_from_lower(ascii_lower(s)),
{
    lemma_ascii_lower_idempotent(s);
}

/// The mode parameters of a constant-quality encode.
pub open spec fn crf_mode_params(crf: Seq<char>) -> ParamEntries {
    pm_insert(Seq::empty(), "crf"@, crf)
}

/// The VBV buffer of a constant-bitrate encode: one and a half times the
/// bitrate (integer division).
pub open spec fn vbv_buffer_size(bitrate: nat) -> nat {
    bitrate * 15 / 10
}

/// The mode parameters of a pass of a two-pass encode, inserted in this
/// order; the first pass also sets a medium preset and a fast first pass,
/// and constant bitrate adds the VBV limits.
pub open spec fn two_pass_params(first: bool, bitrate: nat, stats: Seq<char>, is_cbr: bool) -> ParamEntries {
    let base = if first {
        pm_insert(
            pm_insert(
                pm_insert(
                    pm_insert(pm_insert(Seq::empty(), "pass"@, "1"@), "bitrate"@, decimal(bitrate)),
                    "stats"@,
                    stats,
                ),
                "preset"@,
                "medium"@,
            ),
            "no-slow-firstpass"@,
            "1"@,
        )
    } else {
        pm_insert(
            pm_insert(pm_insert(Seq::empty(), "pass"@, "2"@), "bitrate"@, decimal(bitrate)),
            "stats"@,
            stats,
        )
    };
    if is_cbr {
        pm_insert(
            pm_insert(
                pm_insert(base, "vbv-bufsize"@, decimal(vbv_buffer_size(bitrate))),
                "vbv-maxrate"@,
                decimal(bitrate),
            ),
            "nal-hrd"@,
            "cbr"@,
        )
    } else {
        base
    }
}

/// The parameters of both passes of a two-pass encode hold the same
/// statistics file and bitrate, and, at constant bitrate, the same VBV
/// buffer (one and a half times the bitrate) and maximum rate.
pub proof fn law_passes_share_stats_and_rate(bitrate: nat, stats: Seq<char>, is_cbr: bool, first: bool)
    ensures
        pm_get(two_pass_params(first, bitrate, stats, is_cbr), "stats"@) == Some(stats),
        pm_get(two_pass_params(first, bitrate, stats, is_cbr), "bitrate"@) == Some(decimal(bitrate)),
        is_cbr ==> pm_get(two_pass_params(first, bitrate, stats, is_cbr), "vbv-bufsize"@) == Some(
            decimal(vbv_buffer_size(bitrate)),
        ),
        is_cbr ==> pm_get(two_pass_params(first, bitrate, stats, is_cbr), "vbv-maxrate"@) == Some(
            decimal(bitrate),
        ),
{
    reveal_strlit("pass");
    reveal_strlit("bitrate");
    reveal_strlit("stats");
    reveal_strlit("preset");
    reveal_strlit("no-slow-firstpass");
    reveal_strlit("vbv-bufsize");
    reveal_strlit("vbv-maxrate");
    reveal_strlit("nal-hrd");
    let d = decimal(bitrate);
    let e: ParamEntries = Seq::empty();
    let s1 = pm_insert(e, "pass"@, if first { "1"@ } else { "2"@ });
    lemma_insert_distinct(e, "pass"@, if first { "1"@ } else { "2"@ });
    let s2 = pm_insert(s1, "bitrate"@, d);
    lemma_insert_distinct(s1, "bitrate"@, d);
    law_get_after_insert(s1, "bitrate"@, d, "bitrate"@);
    let s3 = pm_insert(s2, "stats"@, stats);
    lemma_insert_distinct(s2, "stats"@, stats);
    law_get_after_insert(s2, "stats"@, stats, "bitrate"@);
    assert("bitrate"@ != "stats"@) by {
        assert("bitrate"@.len() != "stats"@.len());
    }
    law_get_after_insert(s2, "stats"@, stats, "stats"@);
    let base = if first {
        let s4 = pm_insert(s3, "preset"@, "medium"@);
        lemma_insert_distinct(s3, "preset"@, "medium"@);
        assert("preset"@ != "stats"@ && "preset"@ != "bitrate"@) by {
            assert("preset"@.len() == 6);
        }
        law_get_after_insert(s3, "preset"@, "medium"@, "stats"@);
        law_get_after_insert(s3, "preset"@, "medium"@, "bitrate"@);
        let s5 = pm_insert(s4, "no-slow-firstpass"@, "1"@);
        lemma_insert_distinct(s4, "no-slow-firstpass"@, "1"@);
        assert("no-slow-firstpass"@ != "stats"@ && "no-slow-firstpass"@ != "bitrate"@) by {
            assert("no-slow-firstpass"@.len() == 17);
        }
        law_get_after_insert(s4, "no-slow-firstpass"@, "1"@, "stats"@);
        law_get_after_insert(s4, "no-slow-firstpass"@, "1"@, "bitrate"@);
        s5
    } else {
        s3
    };
    assert(base == two_pass_params(first, bitrate, stats, false));
    assert(keys_distinct(base));
    assert(pm_get(base, "stats"@) == Some(stats));
    assert(pm_get(base, "bitrate"@) == Some(d));
    if is_cbr {
        let v = decimal(vbv_buffer_size(bitrate));
        let c1 = pm_insert(base, "vbv-bufsize"@, v);
        lemma_insert_distinct(base, "vbv-bufsize"@, v);
        assert("vbv-bufsize"@ != "stats"@ && "vbv-bufsize"@ != "bitrate"@) by {
            assert("vbv-bufsize"@.len() == 11);
        }
        law_get_after_insert(base, "vbv-bufsize"@, v, "stats"@);
        law_get_after_insert(base, "vbv-bufsize"@, v, "bitrate"@);
        law_get_after_insert(base, "vbv-bufsize"@, v, "vbv-bufsize"@);
        let c2 = pm_insert(c1, "vbv-maxrate"@, d);
        lemma_insert_distinct(c1, "vbv-maxrate"@, d);
        assert("vbv-maxrate"@ != "stats"@ && "vbv-maxrate"@ != "bitrate"@) by {
            assert("vbv-maxrate"@.len() == 11);
        }
        assert("vbv-maxrate"@ != "vbv-bufsize"@) by {
            assert("vbv-maxrate"@[4] != "vbv-bufsize"@[4]);
        }
        law_get_after_insert(c1, "vbv-maxrate"@, d, "stats"@);
        law_get_after_insert(c1, "vbv-maxrate"@, d, "bitrate"@);
        law_get_after_insert(c1, "vbv-maxrate"@, d, "vbv-bufsize"@);
        law_get_after_insert(c1, "vbv-maxrate"@, d, "vbv-maxrate"@);
        assert("nal-hrd"@ != "stats"@ && "nal-hrd"@ != "bitrate"@ && "nal-hrd"@ != "vbv-bufsize"@
            && "nal-hrd"@ != "vbv-maxrate"@) by {
            assert("nal-hrd"@[0] != "bitrate"@[0]);
            assert("nal-hrd"@.len() == 7);
        }
        law_get_after_insert(c2, "nal-hrd"@, "cbr"@, "stats"@);
        law_get_after_insert(c2, "nal-hrd"@, "cbr"@, "bitrate"@);
        law_get_after_insert(c2, "nal-hrd"@, "cbr"@, "vbv-bufsize"@);
        law_get_after_insert(c2, "nal-hrd"@, "cbr"@, "vbv-maxrate"@);
    }
}

/// The arguments of an encode that writes the output: input, filters,
/// stream mapping, the x265 video codec, metadata, and a fast-start
/// container.
pub open spec fn output_pass_args(
    input: Seq<char>,
    filters: Seq<Seq<char>>,
    mapping: Seq<Seq<char>>,
    x265: Seq<char>,
    metadata: Seq<Seq<char>>,
    output: Seq<char>,
) -> Seq<Seq<char>> {
    seq!["-i"@, input] + filters + mapping + seq!["-c:v"@, "libx265"@, "-x265-params"@, x265]
        + metadata + seq!["-movflags"@, "+faststart"@, output]
}

/// The arguments of an analysis pass: video only, written nowhere.
pub open spec fn analysis_pass_args(input: Seq<char>, filters: Seq<Seq<char>>, x265: Seq<char>) -> Seq<
    Seq<char>,
> {
    seq!["-i"@, input] + filters + seq![
        "-c:v"@,
        "libx265"@,
        "-x265-params"@,
        x265,
        "-an"@,
        "-sn"@,
        "-f"@,
        "null"@,
        "/dev/null"@,
    ]
}

/// The optional title, by its characters.
pub open spec fn opt_title(t: Option<&str>) -> Option<Seq<char>> {
    match t {
        Some(x) => Some(x@),
        None => None,
    }
}

/// The arguments of the final pass over `input`, given the x265 string.
pub open spec fn final_pass_args(
    input: Seq<char>,
    output: Seq<char>,
    filters: &FilterChain,
    mapping: &StreamMapping,
    x265: Seq<char>,
    title: Option<&str>,
) -> Seq<Seq<char>> {
    output_pass_args(
        input,
        filter_args(filters@),
        strings_view(mapping.mapping_args@),
        x265,
        metadata_args(mapping.audio_streams@, opt_title(title)),
        output,
    )
}

fn push_all_literals(v: &mut Vec<String>, a: &str, b: &str, c: &str)
    ensures
        strings_view(final(v)@) == strings_view(old(v)@) + seq![a@, b@, c@],
{
    v.push(owned(a));
    v.push(owned(b));
    v.push(owned(c));
    assert(strings_view(final(v)@) =~= strings_view(old(v)@) + seq![a@, b@, c@]);
}

fn start_args(input: &str, filters: &FilterChain) -> (r: Vec<String>)
    ensures
        strings_view(r@) == seq!["-i"@, input@] + filter_args(filters@),
{
    let mut args: Vec<String> = Vec::new();
    args.push(owned("-i"));
    args.push(owned(input));
    let f = filters.build_ffmpeg_args();
    extend_strings(&mut args, &f);
    args
}

fn output_args(
    input: &str,
    output: &str,
    filters: &FilterChain,
    mapping: &StreamMapping,
    x265: String,
    title: Option<&str>,
    preservation: &StreamPreservation,
) -> (r: Vec<String>)
    ensures
        strings_view(r@) == final_pass_args(input@, output@, filters, mapping, x265@, title),
{
    let ghost xv = x265@;
    let mut args = start_args(input, filters);
    extend_strings(&mut args, &mapping.mapping_args);
    push_all_literals(&mut args, "-c:v", "libx265", "-x265-params");
    let ghost a1 = strings_view(args@);
    args.push(x265);
    assert(strings_view(args@) =~= a1.push(xv));
    let meta = preservation.get_metadata_args(mapping, title);
    extend_strings(&mut args, &meta);
    push_all_literals(&mut args, "-movflags", "+faststart", output);
    assert(strings_view(args@) =~= final_pass_args(input@, output@, filters, mapping, xv, title));
    args
}

/// Single-pass constant-quality encoder.
pub struct CrfEncoder;

impl CrfEncoder {
    /// The FFmpeg arguments of a constant-quality encode at the quality
    /// written `crf`.
    pub fn build_args(
        &self,
        input: &str,
        output: &str,
        profile: &EncodingProfile,
        filters: &FilterChain,
        mapping: &StreamMapping,
        crf: &str,
        custom_title: Option<&str>,
        preservation: &StreamPreservation,
    ) -> (r: Vec<String>)
        ensures
            strings_view(r@) == final_pass_args(
                input@,
                output@,
                filters,
                mapping,
                x265_params_text(with_mode(profile.x265_params@, Some(crf_mode_params(crf@)))),
                custom_title,
            ),
    {
        let mut mode = ParamMap::new();
        mode.insert(owned("crf"), owned(crf));
        let x265 = profile.build_x265_params_string(Some(&mode));
        output_args(input, output, filters, mapping, x265, custom_title, preservation)
    }
}

/// Two-pass average-bitrate encoder.
pub struct AbrEncoder;

fn vbv_size(bitrate: u32) -> (r: u64)
    ensures
        r == vbv_buffer_size(bitrate as nat),
{
    let b = bitrate as u64;
    b * 15 / 10
}

impl AbrEncoder {
    /// A fresh statistics-file prefix under `/tmp`.
    pub fn new_stats_file() -> (r: String)
        ensures
            exists|u: Seq<char>| is_uuid_text(u) && r@ == "/tmp/ffmpeg2pass_"@ + u,
    {
        let id = new_uuid();
        let r = concat("/tmp/ffmpeg2pass_", id.as_str());
        assert(is_uuid_text(id@) && r@ == "/tmp/ffmpeg2pass_"@ + id@);
        r
    }

    /// The statistics files that a two-pass encode leaves beside `prefix`.
    pub fn stats_files(prefix: &str) -> (r: Vec<String>)
        ensures
            strings_view(r@) == seq![
                prefix@ + "-0.log"@,
                prefix@ + "-0.log.mbtree"@,
                prefix@ + "-0.log.temp"@,
            ],
    {
        let mut v: Vec<String> = Vec::new();
        v.push(concat(prefix, "-0.log"));
        v.push(concat(prefix, "-0.log.mbtree"));
        v.push(concat(prefix, "-0.log.temp"));
        assert(strings_view(v@) =~= seq![
            prefix@ + "-0.log"@,
            prefix@ + "-0.log.mbtree"@,
            prefix@ + "-0.log.temp"@,
        ]);
        v
    }

    /// The mode parameters of one pass.
    pub fn pass_params(first: bool, bitrate: u32, stats_file: &str, is_cbr: bool) -> (r: ParamMap)
        ensures
            r@ == two_pass_params(first, bitrate as nat, stats_file@, is_cbr),
    {
        let mut m = ParamMap::new();
        let rate = u64_to_string(bitrate as u64);
        if first {
            m.insert(owned("pass"), owned("1"));
            m.insert(owned("bitrate"), rate);
            m.insert(owned("stats"), owned(stats_file));
            m.insert(owned("preset"), owned("medium"));
            m.insert(owned("no-slow-firstpass"), owned("1"));
        } else {
            m.insert(owned("pass"), owned("2"));
            m.insert(owned("bitrate"), rate);
            m.insert(owned("stats"), owned(stats_file));
        }
        if is_cbr {
            m.insert(owned("vbv-bufsize"), u64_to_string(vbv_size(bitrate)));
            m.insert(owned("vbv-maxrate"), u64_to_string(bitrate as u64));
            m.insert(owned("nal-hrd"), owned("cbr"));
        }
        m
    }

    /// The FFmpeg arguments of the first (analysis) pass.
    pub fn first_pass_args(
        &self,
        input: &str,
        profile: &EncodingProfile,
        filters: &FilterChain,
        bitrate: u32,
        stats_file: &str,
        is_cbr: bool,
    ) -> (r: Vec<String>)
        ensures
            strings_view(r@) == analysis_pass_args(
                input@,
                filter_args(filters@),
                x265_params_text(
                    with_mode(
                        profile.x265_params@,
                        Some(two_pass_params(true, bitrate as nat, stats_file@, is_cbr)),
                    ),
                ),
            ),
    {
        let mode = Self::pass_params(true, bitrate, stats_file, is_cbr);
        let x265 = profile.build_x265_params_string(Some(&mode));
        let ghost xv = x265@;
        let mut args = start_args(input, filters);
        push_all_literals(&mut args, "-c:v", "libx265", "-x265-params");
        let ghost a1 = strings_view(args@);
        args.push(x265);
        assert(strings_view(args@) =~= a1.push(xv));
        push_all_literals(&mut args, "-an", "-sn", "-f");
        let ghost a2 = strings_view(args@);
        args.push(owned("null"));
        args.push(owned("/dev/null"));
        assert(strings_view(args@) =~= a2 + seq!["null"@, "/dev/null"@]);
        assert(strings_view(args@) =~= analysis_pass_args(input@, filter_args(filters@), xv));
        args
    }

    /// The FFmpeg arguments of the second pass, which writes the output.
    pub fn second_pass_args(
        &self,
        input: &str,
        output: &str,
        profile: &EncodingProfile,
        filters: &FilterChain,
        mapping: &StreamMapping,
        bitrate: u32,
        custom_title: Option<&str>,
        stats_file: &str,
        is_cbr: bool,
        preservation: &StreamPreservation,
    ) -> (r: Vec<String>)
        ensures
            strings_view(r@) == final_pass_args(
                input@,
                output@,
                filters,
                mapping,
                x265_params_text(
                    with_mode(
                        profile.x265_params@,
                        Some(two_pass_params(false, bitrate as nat, stats_file@, is_cbr)),
                    ),
                ),
                custom_title,
            ),
    {
        let mode = Self::pass_params(false, bitrate, stats_file, is_cbr);
        let x265 = profile.build_x265_params_string(Some(&mode));
        output_args(input, output, filters, mapping, x265, custom_title, preservation)
    }

    /// The outcome of the first pass: an encoding error where it failed.
    pub fn check_first_pass(success: bool) -> (r: Result<(), Error>)
        ensures
            success <==> r is Ok,
            !success ==> (r matches Err(e) && e@ == (
                ErrorKind::Encoding,
                "First pass encoding failed"@,
            )),
    {
        if success {
            Ok(())
        } else {
            Err(Error::encoding(owned("First pass encoding failed")))
        }
    }
}

/// Two-pass constant-bitrate encoder (ABR with VBV limits).
pub struct CbrEncoder {
    pub abr_encoder: AbrEncoder,
}

impl CbrEncoder {
    pub fn new() -> (r: Self) {
        CbrEncoder { abr_encoder: AbrEncoder }
    }
}

impl Default for CbrEncoder {
    fn default() -> (r: Self) {
        Self::new()
    }
}

} // verus!
