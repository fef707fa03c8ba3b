//! Video complexity analysis: the parts that read FFmpeg's filter output.

use vstd::prelude::*;
use crate::text::{chars_of, occurs_at, vec_match_at};

verus! {

/// Measures spatial and temporal complexity of a video.
pub struct ComplexityAnalyzer {}

/// Occurrences of `n` in `h` from position `i` on, scanning left to
/// right and resuming after each match (`str::matches`).
pub open spec fn match_count_from(h: Seq<char>, n: Seq<char>, i: int) -> nat
    decreases h.len() - i,
{
    if n.len() == 0 || i < 0 || i + n.len() > h.len() {
        0
    } else if occurs_at(h, n, i) {
        1 + match_count_from(h, n, i + n.len())
    } else {
        match_count_from(h, n, i + 1)
    }
}

impl ComplexityAnalyzer {
    pub fn new() -> (r: Self) {
        ComplexityAnalyzer {}
    }

    /// Scene changes in `showinfo` output: the occurrences of
    /// `Parsed_showinfo` (their count taken modulo 2^32).
    pub fn count_scene_changes(&self, output: &str) -> (r: u32)
        ensures
            r == (match_count_from(output@, "Parsed_showinfo"@, 0) as u32),
    {
        let h = chars_of(output);
        let n = chars_of("Parsed_showinfo");
        proof { reveal_strlit("Parsed_showinfo"); }
        assert(n@.len() == 15);
        let mut count: u64 = 0;
        let mut i: usize = 0;
        while n.len() <= h.len() - i
            invariant
                n@.len() == 15,
                n@ == "Parsed_showinfo"@,
                h@ == output@,
                i <= h@.len(),
                count <= i,
                count + match_count_from(h@, n@, i as int) == match_count_from(h@, n@, 0),
            decreases h.len() - i,
        {
            if vec_match_at(&h, &n, i) {
                count = count + 1;
                i = i + n.len();
            } else {
                i = i + 1;
            }
        }
        #[verifier::truncate]
        let r = count as u32;
        r
    }
}

impl Default for ComplexityAnalyzer {
    fn default() -> (r: Self) {
        Self::new()
    }
}

} // verus!
