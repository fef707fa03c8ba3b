//! Crop detection: reading FFmpeg's `cropdetect` output and choosing the
//! crop most samples agree on.

use vstd::prelude::*;
use crate::pattern::{captures, group_at, group_text, regex_groups};
use crate::text::{
    owned, push_decimal, push_strs, concat3, is_u32_text, lines, lines_of, parse_u32, strings_view, u32_text_value, u64_to_string,
    decimal,
};

verus! {

/// A crop rectangle: size and offset in pixels.
#[derive(Debug, Clone, Copy, PartialEq, Eq, Hash, Structural)]
pub struct CropValues {
    pub width: u32,
    pub height: u32,
    pub x: u32,
    pub y: u32,
}

/// FFmpeg's notation of a crop: `width:height:x:y` in decimal.
pub open spec fn crop_text(c: CropValues) -> Seq<char> {
    decimal(c.width as nat) + ":"@ + decimal(c.height as nat) + ":"@ + decimal(c.x as nat) + ":"@
        + decimal(c.y as nat)
}

proof fn lemma_u32_product_fits(a: u32, b: u32)
    ensures
        a * b <= u64::MAX,
{
    assert(a * b <= (u32::MAX as int) * (u32::MAX as int)) by (nonlinear_arith)
        requires
            a <= u32::MAX,
            b <= u32::MAX,
            0 <= a,
            0 <= b,
    ;
}

impl CropValues {
    pub fn new(width: u32, height: u32, x: u32, y: u32) -> (r: Self)
        ensures
            r == (CropValues { width, height, x, y }),
    {
        CropValues { width, height, x, y }
    }

    /// The pixels of a `width` by `height` frame, and the pixels this crop
    /// removes from it (negative where the crop is larger).
    pub fn pixel_counts(&self, original_width: u32, original_height: u32) -> (r: (u64, i128))
        ensures
            (r.0 as int, r.1 as int) == pixel_counts_spec(*self, original_width, original_height),
    {
        let w = original_width as u64;
        let h = original_height as u64;
        let cw = self.width as u64;
        let ch = self.height as u64;
        proof {
            lemma_u32_product_fits(original_width, original_height);
            lemma_u32_product_fits(self.width, self.height);
        }
        let total = w * h;
        let kept = cw * ch;
        (total, total as i128 - kept as i128)
    }

    /// `width:height:x:y`, as FFmpeg's `crop` filter takes it.
    pub fn to_ffmpeg_string(&self) -> (r: String)
        ensures
            r@ == crop_text(*self),
    {
        let w = u64_to_string(self.width as u64);
        let h = u64_to_string(self.height as u64);
        let x = u64_to_string(self.x as u64);
        let y = u64_to_string(self.y as u64);
        let a = concat3(w.as_str(), ":", h.as_str());
        let b = concat3(a.as_str(), ":", x.as_str());
        concat3(b.as_str(), ":", y.as_str())
    }
}

/// The FFmpeg command that runs `cropdetect` on two seconds of the input
/// from `timestamp` (as written), with the given black limit.
pub open spec fn cropdetect_args_spec(timestamp: Seq<char>, input: Seq<char>, limit: u32) -> Seq<
    Seq<char>,
> {
    seq![
        "-ss"@,
        timestamp,
        "-i"@,
        input,
        "-t"@,
        "2"@,
        "-vf"@,
        "cropdetect=limit="@ + decimal(limit as nat) + ":round=2"@,
        "-f"@,
        "null"@,
        "-"@,
    ]
}

/// The FFmpeg command that runs `cropdetect` on two seconds of the input.
pub fn cropdetect_args(timestamp: &str, input: &str, limit: u32) -> (r: Vec<String>)
    ensures
        strings_view(r@) == cropdetect_args_spec(timestamp@, input@, limit),
{
    let mut filter = owned("cropdetect=limit=");
    push_decimal(&mut filter, limit as u64);
    filter.append(":round=2");
    let mut v: Vec<String> = Vec::new();
    push_strs(&mut v, &["-ss", timestamp, "-i", input, "-t", "2", "-vf", filter.as_str(), "-f", "null", "-"]);
    assert(strings_view(v@) =~= cropdetect_args_spec(timestamp@, input@, limit));
    v
}

/// The black limit of `cropdetect`: the HDR one for HDR content, else the
/// SDR one.
pub fn crop_limit(is_hdr: bool, sdr_limit: u32, hdr_limit: u32) -> (r: u32)
    ensures
        r == if is_hdr {
            hdr_limit
        } else {
            sdr_limit
        },
{
    if is_hdr {
        hdr_limit
    } else {
        sdr_limit
    }
}

/// The pixels of the full frame and the pixels a crop removes from it
/// (negative where the crop is larger than the frame).
pub open spec fn pixel_counts_spec(c: CropValues, width: u32, height: u32) -> (int, int) {
    (width * height, width * height - c.width * c.height)
}

/// The pattern of a `cropdetect` report.
pub open spec fn crop_pattern() -> Seq<char> {
    "crop=(\\d+):(\\d+):(\\d+):(\\d+)"@
}

/// The four groups of the first match of `crop=(\d+):(\d+):(\d+):(\d+)`
/// in a line, where there is one.
pub open spec fn crop_regex_captures(line: Seq<char>) -> Option<
    (Seq<char>, Seq<char>, Seq<char>, Seq<char>),
> {
    match regex_groups(crop_pattern(), line) {
        Some(g) => Some((group_text(g, 1), group_text(g, 2), group_text(g, 3), group_text(g, 4))),
        None => None,
    }
}

/// The four groups of the first `cropdetect` report in a line.
fn crop_captures(line: &str) -> (r: Option<(String, String, String, String)>)
    ensures
        match r {
            Some(c) => crop_regex_captures(line@) == Some((c.0@, c.1@, c.2@, c.3@)),
            None => crop_regex_captures(line@) is None,
        },
{
    let pattern = "crop=(\\d+):(\\d+):(\\d+):(\\d+)";
    assert(pattern@ == crop_pattern());
    match captures(pattern, line) {
        Some(g) => Some((group_at(&g, 1), group_at(&g, 2), group_at(&g, 3), group_at(&g, 4))),
        None => None,
    }
}

/// The crop four captured groups give, where each parses as `u32`.
pub open spec fn crop_of_groups(c: (Seq<char>, Seq<char>, Seq<char>, Seq<char>)) -> Option<
    CropValues,
> {
    if is_u32_text(c.0) && is_u32_text(c.1) && is_u32_text(c.2) && is_u32_text(c.3) {
        Some(
            CropValues {
                width: u32_text_value(c.0) as u32,
                height: u32_text_value(c.1) as u32,
                x: u32_text_value(c.2) as u32,
                y: u32_text_value(c.3) as u32,
            },
        )
    } else {
        None
    }
}

/// Scans `cropdetect` lines: whether a matching line had a group that does
/// not parse, and the crop of the last matching line.
pub open spec fn scan_crop_lines(ls: Seq<Seq<char>>) -> (bool, Option<CropValues>)
    decreases ls.len(),
{
    if ls.len() == 0 {
        (false, None)
    } else {
        let (failed, best) = scan_crop_lines(ls.drop_last());
        match crop_regex_captures(ls.last()) {
            None => (failed, best),
            Some(c) => match crop_of_groups(c) {
                None => (true, best),
                Some(v) => (failed, Some(v)),
            },
        }
    }
}

/// The crop `cropdetect` settled on last: none where no line reports one
/// or a reported number does not parse.
pub open spec fn detected_crop(output: Seq<char>) -> Option<CropValues> {
    let (failed, best) = scan_crop_lines(lines_of(output));
    if failed {
        None
    } else {
        best
    }
}

proof fn lemma_scan_failure_persists(ls: Seq<Seq<char>>, k: int)
    requires
        0 <= k <= ls.len(),
        scan_crop_lines(ls.subrange(0, k)).0,
    ensures
        scan_crop_lines(ls).0,
    decreases ls.len() - k,
{
    if k < ls.len() {
        let next = ls.subrange(0, k + 1);
        assert(next.drop_last() =~= ls.subrange(0, k));
        lemma_scan_failure_persists(ls, k + 1);
    } else {
        assert(ls.subrange(0, k) =~= ls);
    }
}

/// The crop the last `cropdetect` line of FFmpeg's output reports.
pub fn extract_crop_from_output(output: &str) -> (r: Option<CropValues>)
    ensures
        r == detected_crop(output@),
{
    let ls = lines(output);
    let ghost lv = lines_of(output@);
    let mut best: Option<CropValues> = None;
    let mut i: usize = 0;
    while i < ls.len()
        invariant
            i <= ls@.len(),
            strings_view(ls@) == lv,
            lv == lines_of(output@),
            scan_crop_lines(lv.subrange(0, i as int)) == (false, best),
        decreases ls.len() - i,
    {
        let ghost next = lv.subrange(0, i + 1);
        assert(next.drop_last() =~= lv.subrange(0, i as int));
        assert(next.last() == ls@[i as int]@);
        if let Some(c) = crop_captures(ls[i].as_str()) {
            let w = parse_u32(c.0.as_str());
            let h = parse_u32(c.1.as_str());
            let x = parse_u32(c.2.as_str());
            let y = parse_u32(c.3.as_str());
            match (w, h, x, y) {
                (Some(w), Some(h), Some(x), Some(y)) => {
                    best = Some(CropValues::new(w, h, x, y));
                },
                _ => {
                    proof {
                        assert(crop_of_groups((c.0@, c.1@, c.2@, c.3@)) is None);
                        assert(scan_crop_lines(next).0);
                        lemma_scan_failure_persists(lv, i + 1);
                    }
                    return None;
                },
            }
        }
        i = i + 1;
    }
    assert(lv.subrange(0, ls@.len() as int) =~= lv);
    best
}

/// The absolute difference of two coordinates read as `i32`, as the
/// arithmetic on `i32` computes it.
pub open spec fn coordinate_gap(a: u32, b: u32) -> int {
    let d = (a as i32) - (b as i32);
    if d < 0 {
        -d
    } else {
        d
    }
}

/// The differences of two crops' coordinates read as `i32` stay in `i32`.
pub open spec fn crop_gaps_fit(a: CropValues, b: CropValues) -> bool {
    &&& i32::MIN <= (a.width as i32) - (b.width as i32) <= i32::MAX
    &&& i32::MIN <= (a.height as i32) - (b.height as i32) <= i32::MAX
    &&& i32::MIN <= (a.x as i32) - (b.x as i32) <= i32::MAX
    &&& i32::MIN <= (a.y as i32) - (b.y as i32) <= i32::MAX
}

fn gap(a: u32, b: u32) -> (r: u32)
    requires
        i32::MIN <= (a as i32) - (b as i32) <= i32::MAX,
    ensures
        r as int == coordinate_gap(a, b),
{
    let d: i32 = (a as i32) - (b as i32);
    if d < 0 {
        (0i64 - d as i64) as u32
    } else {
        d as u32
    }
}

/// Two crops agree when each coordinate differs by at most `tolerance`.
pub fn crops_match_with_tolerance(crop1: &CropValues, crop2: &CropValues, tolerance: u32) -> (r:
    bool)
    requires
        crop_gaps_fit(*crop1, *crop2),
    ensures
        r == (coordinate_gap(crop1.width, crop2.width) <= tolerance && coordinate_gap(
            crop1.height,
            crop2.height,
        ) <= tolerance && coordinate_gap(crop1.x, crop2.x) <= tolerance && coordinate_gap(
            crop1.y,
            crop2.y,
        ) <= tolerance),
{
    let wd = gap(crop1.width, crop2.width);
    let hd = gap(crop1.height, crop2.height);
    let xd = gap(crop1.x, crop2.x);
    let yd = gap(crop1.y, crop2.y);
    wd <= tolerance && hd <= tolerance && xd <= tolerance && yd <= tolerance
}

/// How many samples found crop `c`.
pub open spec fn crop_count(ss: Seq<Option<CropValues>>, c: CropValues) -> nat
    decreases ss.len(),
{
    if ss.len() == 0 {
        0
    } else {
        crop_count(ss.drop_last(), c) + if ss.last() == Some(c) {
            1nat
        } else {
            0nat
        }
    }
}

/// How many samples found a crop at all.
pub open spec fn found_count(ss: Seq<Option<CropValues>>) -> nat
    decreases ss.len(),
{
    if ss.len() == 0 {
        0
    } else {
        found_count(ss.drop_last()) + if ss.last() is Some {
            1nat
        } else {
            0nat
        }
    }
}

proof fn lemma_counts_bounded(ss: Seq<Option<CropValues>>, c: CropValues)
    ensures
        crop_count(ss, c) <= ss.len(),
        found_count(ss) <= ss.len(),
        crop_count(ss, c) > 0 ==> exists|i: int| 0 <= i < ss.len() && ss[i] == Some(c),
        found_count(ss) == 0 <==> forall|i: int| 0 <= i < ss.len() ==> ss[i] is None,
    decreases ss.len(),
{
    if ss.len() > 0 {
        let pre = ss.drop_last();
        lemma_counts_bounded(pre, c);
        if crop_count(pre, c) > 0 {
            let i = choose|i: int| 0 <= i < pre.len() && pre[i] == Some(c);
            assert(ss[i] == Some(c));
        }
        if crop_count(ss, c) > 0 && crop_count(pre, c) == 0 {
            assert(ss[ss.len() - 1] == Some(c));
        }
        if found_count(ss) == 0 {
            assert forall|i: int| 0 <= i < ss.len() implies ss[i] is None by {
                if i < pre.len() {
                    assert(ss[i] == pre[i]);
                }
            }
        }
        if forall|i: int| 0 <= i < ss.len() ==> ss[i] is None {
            assert forall|i: int| 0 <= i < pre.len() implies pre[i] is None by {
                assert(ss[i] is None);
            }
            assert(ss[ss.len() - 1] is None);
        }
    }
}

fn count_crop(samples: &Vec<Option<CropValues>>, c: CropValues) -> (n: usize)
    ensures
        n == crop_count(samples@, c),
{
    let mut n: usize = 0;
    let mut i: usize = 0;
    while i < samples.len()
        invariant
            i <= samples@.len(),
            n == crop_count(samples@.subrange(0, i as int), c),
            n <= i,
        decreases samples.len() - i,
    {
        let ghost next = samples@.subrange(0, i + 1);
        assert(next.drop_last() =~= samples@.subrange(0, i as int));
        if samples[i] == Some(c) {
            n = n + 1;
        }
        i = i + 1;
    }
    assert(samples@.subrange(0, samples@.len() as int) =~= samples@);
    n
}

/// The crop most samples found, how many found it, and how many found a
/// crop at all; none where no sample found one. Where several crops are
/// found equally often, the first found is chosen.
pub fn most_common_crop(samples: &Vec<Option<CropValues>>) -> (r: Option<(CropValues, usize, usize)>)
    ensures
        r is None <==> found_count(samples@) == 0,
        r matches Some(t) ==> t.1 == crop_count(samples@, t.0) && t.1 >= 1 && t.2 == found_count(
            samples@,
        ) && forall|c: CropValues| crop_count(samples@, c) <= t.1,
{
    let mut best: Option<(CropValues, usize)> = None;
    let mut valid: usize = 0;
    let mut i: usize = 0;
    while i < samples.len()
        invariant
            i <= samples@.len(),
            valid == found_count(samples@.subrange(0, i as int)),
            valid <= i,
            best is None <==> valid == 0,
            best matches Some(b) ==> b.1 == crop_count(samples@, b.0) && b.1 >= 1,
            forall|j: int|
                0 <= j < i && (#[trigger] samples@[j]) is Some ==> best is Some && crop_count(
                    samples@,
                    samples@[j].unwrap(),
                ) <= best.unwrap().1,
        decreases samples.len() - i,
    {
        let ghost next = samples@.subrange(0, i + 1);
        assert(next.drop_last() =~= samples@.subrange(0, i as int));
        if let Some(c) = samples[i] {
            valid = valid + 1;
            let n = count_crop(samples, c);
            proof {
                lemma_counts_bounded(samples@, c);
                assert(samples@[i as int] == Some(c));
                if crop_count(samples@, c) == 0 {
                    assert(crop_count(samples@.subrange(0, i + 1), c) >= 1);
                    lemma_count_prefix(samples@, c, i + 1);
                }
            }
            match best {
                Some(b) => {
                    if n > b.1 {
                        best = Some((c, n));
                    }
                },
                None => {
                    best = Some((c, n));
                },
            }
        }
        i = i + 1;
    }
    assert(samples@.subrange(0, samples@.len() as int) =~= samples@);
    match best {
        Some(b) => {
            proof {
                assert forall|c: CropValues| crop_count(samples@, c) <= b.1 by {
                    lemma_counts_bounded(samples@, c);
                    if crop_count(samples@, c) > 0 {
                        let j = choose|j: int| 0 <= j < samples@.len() && samples@[j] == Some(c);
                        assert(samples@[j] is Some);
                    }
                }
            }
            Some((b.0, b.1, valid))
        },
        None => None,
    }
}

proof fn lemma_count_prefix(ss: Seq<Option<CropValues>>, c: CropValues, k: int)
    requires
        0 <= k <= ss.len(),
    ensures
        crop_count(ss.subrange(0, k), c) <= crop_count(ss, c),
    decreases ss.len() - k,
{
    if k < ss.len() {
        let next = ss.subrange(0, k + 1);
        assert(next.drop_last() =~= ss.subrange(0, k));
        lemma_count_prefix(ss, c, k + 1);
    } else {
        assert(ss.subrange(0, k) =~= ss);
    }
}

} // verus!
