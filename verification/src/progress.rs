//! Encoding progress: the `key=value` report that FFmpeg writes with
//! `-progress`, and how elapsed times are shown.

use vstd::prelude::*;
use crate::encoding::modes::EncodingMode;
use crate::text::{
    chars_of, concat3, decimal, lines, lines_of, owned, parse_u64, push_decimal, str_eq,
    string_of_range, strings_view, trim, trim_seq, u64_of_text, u64_to_string,
};

verus! {

/// The fields read from a progress report; rates are kept as written.
pub struct ProgressFields {
    pub frame: Option<u64>,
    pub fps: Option<String>,
    pub out_time_us: Option<u64>,
    pub speed: Option<String>,
    pub total_size: Option<u64>,
}

/// The fields, by their characters.
pub struct ProgressView {
    pub frame: Option<u64>,
    pub fps: Option<Seq<char>>,
    pub out_time_us: Option<u64>,
    pub speed: Option<Seq<char>>,
    pub total_size: Option<u64>,
}

impl ProgressFields {
    pub open spec fn view_of(self) -> ProgressView {
        ProgressView {
            frame: self.frame,
            fps: match self.fps {
                Some(s) => Some(s@),
                None => None,
            },
            out_time_us: self.out_time_us,
            speed: match self.speed {
                Some(s) => Some(s@),
                None => None,
            },
            total_size: self.total_size,
        }
    }
}

/// Position of the first `=` (the length where there is none).
pub open spec fn eq_pos(s: Seq<char>, from: int) -> int
    decreases s.len() - from,
{
    if from < 0 || from >= s.len() {
        s.len() as int
    } else if s[from] == '=' {
        from
    } else {
        eq_pos(s, from + 1)
    }
}

/// Text without its trailing `x` characters (`trim_end_matches('x')`).
pub open spec fn strip_x(s: Seq<char>) -> Seq<char>
    decreases s.len(),
{
    if s.len() > 0 && s.last() == 'x' {
        strip_x(s.drop_last())
    } else {
        s
    }
}

/// The empty report.
pub open spec fn no_progress() -> ProgressView {
    ProgressView { frame: None, fps: None, out_time_us: None, speed: None, total_size: None }
}

/// One line of a report applied to the fields read so far.  The line is
/// trimmed and split at its first `=`, key and value trimmed.  `frame` and
/// `total_size` take the value's number or none, `fps` and `speed` the text
/// (`speed` without its `x`), `out_time_us` a number only where the value
/// is one; other keys and lines without `=` change nothing.
pub open spec fn progress_step(p: ProgressView, line: Seq<char>) -> ProgressView {
    let t = trim_seq(line);
    let i = eq_pos(t, 0);
    if i >= t.len() {
        p
    } else {
        let k = trim_seq(t.subrange(0, i));
        let v = trim_seq(t.subrange(i + 1, t.len() as int));
        if k == "frame"@ {
            ProgressView { frame: u64_of_text(v), ..p }
        } else if k == "fps"@ {
            ProgressView { fps: Some(v), ..p }
        } else if k == "out_time_us"@ {
            match u64_of_text(v) {
                Some(x) => ProgressView { out_time_us: Some(x), ..p },
                None => p,
            }
        } else if k == "speed"@ {
            ProgressView { speed: Some(strip_x(v)), ..p }
        } else if k == "total_size"@ {
            ProgressView { total_size: u64_of_text(v), ..p }
        } else {
            p
        }
    }
}

/// The lines applied in order.
pub open spec fn progress_of(ls: Seq<Seq<char>>) -> ProgressView
    decreases ls.len(),
{
    if ls.len() == 0 {
        no_progress()
    } else {
        progress_step(progress_of(ls.drop_last()), ls.last())
    }
}

/// The last twenty lines of a text (all of them where there are fewer).
pub open spec fn last_lines(s: Seq<char>) -> Seq<Seq<char>> {
    let ls = lines_of(s);
    if ls.len() > 20 {
        ls.subrange(ls.len() - 20, ls.len() as int)
    } else {
        ls
    }
}

/// A report says something when it gives a frame number or a positive
/// output time.
pub open spec fn is_meaningful(p: ProgressView) -> bool {
    p.frame is Some || (p.out_time_us matches Some(t) && t > 0)
}

fn find_eq(v: &Vec<char>) -> (r: usize)
    ensures
        r == eq_pos(v@, 0),
        r <= v@.len(),
{
    let mut i: usize = 0;
    while i < v.len() && v[i] != '='
        invariant
            i <= v@.len(),
            eq_pos(v@, 0) == eq_pos(v@, i as int),
        decreases v.len() - i,
    {
        i = i + 1;
    }
    i
}

fn strip_x_exec(s: &str) -> (r: String)
    ensures
        r@ == strip_x(s@),
{
    let v = chars_of(s);
    let mut n: usize = v.len();
    assert(v@.subrange(0, n as int) =~= v@);
    while n > 0 && v[n - 1] == 'x'
        invariant
            n <= v@.len(),
            strip_x(v@) == strip_x(v@.subrange(0, n as int)),
        decreases n,
    {
        assert(v@.subrange(0, n as int).drop_last() =~= v@.subrange(0, n - 1));
        n = n - 1;
    }
    assert(n > 0 ==> v@.subrange(0, n as int).last() == v@[n - 1]);
    string_of_range(&v, 0, n)
}

fn apply_line(p: &mut ProgressFields, line: &str)
    ensures
        final(p).view_of() == progress_step(old(p).view_of(), line@),
{
    let t = trim(line);
    let v = chars_of(t.as_str());
    let i = find_eq(&v);
    if i >= v.len() {
        return;
    }
    let k0 = string_of_range(&v, 0, i);
    let k = trim(k0.as_str());
    let v0 = string_of_range(&v, i + 1, v.len());
    let val = trim(v0.as_str());
    let ks = k.as_str();
    if str_eq(ks, "frame") {
        p.frame = parse_u64(val.as_str());
    } else if str_eq(ks, "fps") {
        p.fps = Some(val);
    } else if str_eq(ks, "out_time_us") {
        match parse_u64(val.as_str()) {
            Some(x) => {
                p.out_time_us = Some(x);
            },
            None => {},
        }
    } else if str_eq(ks, "speed") {
        p.speed = Some(strip_x_exec(val.as_str()));
    } else if str_eq(ks, "total_size") {
        p.total_size = parse_u64(val.as_str());
    }
}

/// Reads the last twenty lines of a progress report; `None` where they
/// give neither a frame number nor a positive output time.
pub fn parse_progress_file(content: &str) -> (r: Option<ProgressFields>)
    ensures
        match r {
            Some(f) => f.view_of() == progress_of(last_lines(content@)) && is_meaningful(f.view_of()),
            None => !is_meaningful(progress_of(last_lines(content@))),
        },
{
    let ls = lines(content);
    let n = ls.len();
    let start: usize = if n > 20 { n - 20 } else { 0 };
    let ghost tail = last_lines(content@);
    assert(tail =~= strings_view(ls@).subrange(start as int, n as int));
    let mut p = ProgressFields { frame: None, fps: None, out_time_us: None, speed: None, total_size: None };
    let mut i: usize = start;
    while i < n
        invariant
            start <= i <= n,
            n == ls@.len(),
            tail == strings_view(ls@).subrange(start as int, n as int),
            p.view_of() == progress_of(tail.subrange(0, i - start)),
        decreases n - i,
    {
        assert(tail.subrange(0, i + 1 - start).drop_last() =~= tail.subrange(0, i - start));
        assert(tail[i - start] == ls@[i as int]@);
        apply_line(&mut p, ls[i].as_str());
        i = i + 1;
    }
    assert(tail.subrange(0, n - start) =~= tail);
    let meaningful = match p.frame {
        Some(_) => true,
        None => match p.out_time_us {
            Some(t) => t > 0,
            None => false,
        },
    };
    if meaningful {
        Some(p)
    } else {
        None
    }
}

/// Two-pass modes report progress of their second pass.
pub fn is_two_pass(mode: EncodingMode) -> (r: bool)
    ensures
        r == (mode == EncodingMode::ABR || mode == EncodingMode::CBR),
{
    match mode {
        EncodingMode::CRF => false,
        _ => true,
    }
}

/// The progress report of the process with id `pid`.
pub fn progress_file_path(pid: u32) -> (r: String)
    ensures
        r@ == "/tmp/ffmpeg_progress_"@ + decimal(pid as nat) + ".txt"@,
{
    let id = u64_to_string(pid as u64);
    concat3("/tmp/ffmpeg_progress_", id.as_str(), ".txt")
}

/// Two digits, with a leading zero below ten.
pub open spec fn two_digits(n: nat) -> Seq<char> {
    if n < 10 {
        "0"@ + decimal(n)
    } else {
        decimal(n)
    }
}

/// An elapsed time as `H:MM:SS`, or `M:SS` under an hour.
pub open spec fn duration_text(total_secs: nat) -> Seq<char> {
    let h = total_secs / 3600;
    let m = (total_secs % 3600) / 60;
    let s = total_secs % 60;
    if h > 0 {
        decimal(h) + ":"@ + two_digits(m) + ":"@ + two_digits(s)
    } else {
        decimal(m) + ":"@ + two_digits(s)
    }
}

fn push_two_digits(out: &mut String, n: u64)
    requires
        n < 100,
    ensures
        final(out)@ == old(out)@ + two_digits(n as nat),
{
    if n < 10 {
        out.append("0");
    }
    push_decimal(out, n);
    assert(final(out)@ =~= old(out)@ + two_digits(n as nat));
}

/// Formats whole seconds as `H:MM:SS` or `M:SS`.
pub fn format_duration(total_secs: u64) -> (r: String)
    ensures
        r@ == duration_text(total_secs as nat),
{
    let h = total_secs / 3600;
    let m = (total_secs % 3600) / 60;
    let s = total_secs % 60;
    let mut out = String::new();
    if h > 0 {
        push_decimal(&mut out, h);
        out.append(":");
        push_two_digits(&mut out, m);
        out.append(":");
        push_two_digits(&mut out, s);
    } else {
        push_decimal(&mut out, m);
        out.append(":");
        push_two_digits(&mut out, s);
    }
    assert(out@ =~= duration_text(total_secs as nat));
    out
}

} // verus!
