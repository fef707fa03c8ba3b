//! HDR10+ dynamic metadata as `hdr10plus_tool` writes it, its summary
//! figures, and its consistency checks.

use vstd::prelude::*;
use crate::error::{Error, ErrorKind};
use crate::text::{concat, concat3, decimal, owned, u64_to_string};

verus! {

/// The metadata's profile and format version.
#[derive(Debug, Clone, PartialEq, Eq)]
pub struct JsonInfo {
    pub hdr10plus_profile: String,
    pub version: String,
}

/// The tool that wrote the metadata.
#[derive(Debug, Clone, PartialEq, Eq)]
pub struct ToolInfo {
    pub tool: String,
    pub version: String,
}

/// Tone-mapping curve of a frame.
#[derive(Debug, Clone, PartialEq, Eq)]
pub struct BezierCurveData {
    pub knee_point_x: u32,
    pub knee_point_y: u32,
    pub anchors: Vec<u32>,
}

/// Luminance distribution of a frame.
#[derive(Debug, Clone, PartialEq, Eq)]
pub struct LuminanceDistributions {
    pub distribution_index: Vec<u32>,
    pub distribution_values: Vec<u32>,
}

/// Luminance figures of a frame.
#[derive(Debug, Clone, PartialEq, Eq)]
pub struct LuminanceParameters {
    pub average_rgb: u32,
    pub max_scl: Vec<u32>,
    pub luminance_distributions: Option<LuminanceDistributions>,
}

/// The dynamic metadata of one frame.
#[derive(Debug, Clone, PartialEq, Eq)]
pub struct SceneMetadata {
    pub scene_id: u32,
    pub scene_frame_index: u32,
    pub sequence_frame_index: u32,
    pub number_of_windows: u32,
    pub targeted_system_display_maximum_luminance: u32,
    pub bezier_curve_data: BezierCurveData,
    pub luminance_parameters: LuminanceParameters,
}

/// HDR10+ dynamic metadata of a video, one entry per frame.
#[derive(Debug, Clone, PartialEq, Eq)]
pub struct Hdr10PlusMetadata {
    pub json_info: JsonInfo,
    pub scene_info: Vec<SceneMetadata>,
    pub tool_info: Option<ToolInfo>,
}

/// The largest of some numbers.
pub open spec fn seq_max(s: Seq<u32>) -> Option<u32>
    decreases s.len(),
{
    if s.len() == 0 {
        None
    } else {
        match seq_max(s.drop_last()) {
            None => Some(s.last()),
            Some(m) => Some(if m >= s.last() { m } else { s.last() }),
        }
    }
}

/// The MaxSCL values of all frames, in order.
pub open spec fn all_max_scl(ss: Seq<SceneMetadata>) -> Seq<u32>
    decreases ss.len(),
{
    if ss.len() == 0 {
        Seq::empty()
    } else {
        all_max_scl(ss.drop_last()) + ss.last().luminance_parameters.max_scl@
    }
}

/// The scene ids of all frames.
pub open spec fn scene_ids(ss: Seq<SceneMetadata>) -> Seq<u32> {
    ss.map_values(|s: SceneMetadata| s.scene_id)
}

/// A frame carries a tone-mapping curve.
pub open spec fn has_curve(s: SceneMetadata) -> bool {
    s.bezier_curve_data.anchors@.len() > 0
}

/// How many frames carry a tone-mapping curve.
pub open spec fn curve_frames(ss: Seq<SceneMetadata>) -> nat
    decreases ss.len(),
{
    if ss.len() == 0 {
        0
    } else {
        curve_frames(ss.drop_last()) + if has_curve(ss.last()) {
            1nat
        } else {
            0nat
        }
    }
}

/// The first inconsistency of the frames from position `i` on.
pub open spec fn frame_problem_from(ss: Seq<SceneMetadata>, i: int) -> Option<Seq<char>>
    decreases ss.len() - i,
{
    if i < 0 || i >= ss.len() {
        None
    } else if ss[i].sequence_frame_index != (i as u32) {
        Some("Scene "@ + decimal(i as nat) + " has sequence_frame_index "@ + decimal(
            ss[i].sequence_frame_index as nat,
        ) + ", expected "@ + decimal(i as nat))
    } else if ss[i].luminance_parameters.max_scl@.len() != 3 {
        Some("Frame "@ + decimal(i as nat) + " MaxSCL should have 3 components, found "@ + decimal(
            ss[i].luminance_parameters.max_scl@.len(),
        ))
    } else if ss[i].bezier_curve_data.anchors@.len() != 0 && ss[i].bezier_curve_data.anchors@.len()
        != 9 {
        Some("Frame "@ + decimal(i as nat) + " bezier curve should have 0 or 9 anchors, found "@
            + decimal(ss[i].bezier_curve_data.anchors@.len()))
    } else {
        frame_problem_from(ss, i + 1)
    }
}

/// The first inconsistency of the metadata: no frames, or a frame whose
/// sequence index is not its position, whose MaxSCL has not three values,
/// or whose curve has neither 0 nor 9 anchors.
pub open spec fn metadata_problem(ss: Seq<SceneMetadata>) -> Option<Seq<char>> {
    if ss.len() == 0 {
        Some("HDR10+ metadata contains no scene data"@)
    } else {
        frame_problem_from(ss, 0)
    }
}

/// No scene id is the largest `u32` (the scene count is one more than the
/// largest id).
pub open spec fn scene_ids_countable(ss: Seq<SceneMetadata>) -> bool {
    forall|i: int| 0 <= i < ss.len() ==> (#[trigger] ss[i]).scene_id < u32::MAX
}

/// What `get_tone_mapping_frame_count` gives: the frames with a curve,
/// counted modulo 2^32.
pub open spec fn tone_mapping_count(ss: Seq<SceneMetadata>) -> u32 {
    curve_frames(ss) as u32
}

/// What `get_scene_count` gives: one more than the largest scene id, 0
/// without frames.
pub open spec fn scene_count_of(ss: Seq<SceneMetadata>) -> u32 {
    match seq_max(scene_ids(ss)) {
        Some(m) => (m + 1) as u32,
        None => 0u32,
    }
}

/// The largest value exists exactly for a non-empty sequence, bounds every
/// element and is one of them.
pub proof fn lemma_seq_max_bound(s: Seq<u32>)
    ensures
        seq_max(s) is Some <==> s.len() > 0,
        seq_max(s) matches Some(m) ==> forall|i: int| 0 <= i < s.len() ==> s[i] <= m,
        seq_max(s) matches Some(m) ==> exists|i: int| 0 <= i < s.len() && s[i] == m,
    decreases s.len(),
{
    if s.len() > 0 {
        let p = s.drop_last();
        lemma_seq_max_bound(p);
        if let Some(m) = seq_max(s) {
            assert forall|i: int| 0 <= i < s.len() implies s[i] <= m by {
                if i < p.len() {
                    assert(s[i] == p[i]);
                }
            }
            if seq_max(p) is Some && m == seq_max(p).unwrap() {
                let w = choose|i: int| 0 <= i < p.len() && p[i] == m;
                assert(s[w] == m);
            } else {
                assert(s[s.len() - 1] == m);
            }
        }
    }
}

impl Hdr10PlusMetadata {
    /// Frames with metadata (their count taken modulo 2^32).
    pub fn get_frame_count(&self) -> (r: u32)
        ensures
            r == (self.scene_info@.len() as u32),
    {
        #[verifier::truncate]
        let n = self.scene_info.len() as u32;
        n
    }

    /// Distinct scenes: one more than the largest scene id, 0 without
    /// frames.
    pub fn get_scene_count(&self) -> (r: u32)
        requires
            scene_ids_countable(self.scene_info@),
        ensures
            match seq_max(scene_ids(self.scene_info@)) {
                Some(m) => r == m + 1,
                None => r == 0,
            },
            r == scene_count_of(self.scene_info@),
    {
        let ghost ids = scene_ids(self.scene_info@);
        let mut best: Option<u32> = None;
        let mut i: usize = 0;
        while i < self.scene_info.len()
            invariant
                i <= self.scene_info@.len(),
                ids == scene_ids(self.scene_info@),
                best == seq_max(ids.subrange(0, i as int)),
            decreases self.scene_info.len() - i,
        {
            assert(ids.subrange(0, i + 1).drop_last() =~= ids.subrange(0, i as int));
            let id = self.scene_info[i].scene_id;
            best = match best {
                None => Some(id),
                Some(m) => Some(if m >= id { m } else { id }),
            };
            i = i + 1;
        }
        assert(ids.subrange(0, ids.len() as int) =~= ids);
        proof { lemma_seq_max_bound(ids); }
        match best {
            Some(m) => {
                proof {
                    let w = choose|k: int| 0 <= k < ids.len() && ids[k] == m;
                    assert(self.scene_info@[w].scene_id < u32::MAX);
                }
                m + 1
            },
            None => 0,
        }
    }

    /// The largest MaxSCL value of any frame.
    pub fn get_peak_brightness(&self) -> (r: Option<u32>)
        ensures
            r == seq_max(all_max_scl(self.scene_info@)),
    {
        let ghost ss = self.scene_info@;
        let mut best: Option<u32> = None;
        let mut i: usize = 0;
        while i < self.scene_info.len()
            invariant
                i <= ss.len(),
                ss == self.scene_info@,
                best == seq_max(all_max_scl(ss.subrange(0, i as int))),
            decreases self.scene_info.len() - i,
        {
            let scl = &self.scene_info[i].luminance_parameters.max_scl;
            let ghost before = all_max_scl(ss.subrange(0, i as int));
            let mut k: usize = 0;
            while k < scl.len()
                invariant
                    k <= scl@.len(),
                    best == seq_max(before + scl@.subrange(0, k as int)),
                decreases scl.len() - k,
            {
                assert((before + scl@.subrange(0, k + 1)).drop_last() =~= before + scl@.subrange(
                    0,
                    k as int,
                ));
                let v = scl[k];
                best = match best {
                    None => Some(v),
                    Some(m) => Some(if m >= v { m } else { v }),
                };
                k = k + 1;
            }
            assert(ss.subrange(0, i + 1).drop_last() =~= ss.subrange(0, i as int));
            assert(before + scl@.subrange(0, scl@.len() as int) =~= all_max_scl(
                ss.subrange(0, i + 1),
            ));
            i = i + 1;
        }
        assert(ss.subrange(0, ss.len() as int) =~= ss);
        best
    }

    /// Some frame carries a tone-mapping curve.
    pub fn has_tone_mapping_curves(&self) -> (r: bool)
        ensures
            r == exists|i: int|
                0 <= i < self.scene_info@.len() && has_curve(#[trigger] self.scene_info@[i]),
    {
        let mut i: usize = 0;
        while i < self.scene_info.len()
            invariant
                i <= self.scene_info@.len(),
                forall|j: int| 0 <= j < i ==> !has_curve(#[trigger] self.scene_info@[j]),
            decreases self.scene_info.len() - i,
        {
            if self.scene_info[i].bezier_curve_data.anchors.len() > 0 {
                return true;
            }
            i = i + 1;
        }
        false
    }

    /// Frames carrying a tone-mapping curve (their count taken modulo
    /// 2^32).
    pub fn get_tone_mapping_frame_count(&self) -> (r: u32)
        ensures
            r == tone_mapping_count(self.scene_info@),
    {
        let ghost ss = self.scene_info@;
        let mut n: usize = 0;
        let mut i: usize = 0;
        while i < self.scene_info.len()
            invariant
                i <= ss.len(),
                ss == self.scene_info@,
                n == curve_frames(ss.subrange(0, i as int)),
                n <= i,
            decreases self.scene_info.len() - i,
        {
            assert(ss.subrange(0, i + 1).drop_last() =~= ss.subrange(0, i as int));
            if self.scene_info[i].bezier_curve_data.anchors.len() > 0 {
                n = n + 1;
            }
            i = i + 1;
        }
        assert(ss.subrange(0, ss.len() as int) =~= ss);
        #[verifier::truncate]
        let r = n as u32;
        r
    }

    /// Checks the metadata's consistency.
    pub fn validate(&self) -> (r: Result<(), Error>)
        ensures
            match metadata_problem(self.scene_info@) {
                Some(m) => r matches Err(e) && e@ == (ErrorKind::Validation, m),
                None => r is Ok,
            },
    {
        if self.scene_info.len() == 0 {
            return Err(Error::validation(owned("HDR10+ metadata contains no scene data")));
        }
        let ghost ss = self.scene_info@;
        let mut i: usize = 0;
        while i < self.scene_info.len()
            invariant
                i <= ss.len(),
                ss == self.scene_info@,
                ss.len() > 0,
                frame_problem_from(ss, 0) == frame_problem_from(ss, i as int),
            decreases self.scene_info.len() - i,
        {
            let scene = &self.scene_info[i];
            #[verifier::truncate]
            let pos = i as u32;
            let idx = u64_to_string(i as u64);
            if scene.sequence_frame_index != pos {
                let got = u64_to_string(scene.sequence_frame_index as u64);
                let a = concat3("Scene ", idx.as_str(), " has sequence_frame_index ");
                let b = concat3(a.as_str(), got.as_str(), ", expected ");
                return Err(Error::validation(concat(b.as_str(), idx.as_str())));
            }
            let n = scene.luminance_parameters.max_scl.len();
            if n != 3 {
                let found = u64_to_string(n as u64);
                let a = concat3("Frame ", idx.as_str(), " MaxSCL should have 3 components, found ");
                return Err(Error::validation(concat(a.as_str(), found.as_str())));
            }
            let anchors = scene.bezier_curve_data.anchors.len();
            if anchors != 0 && anchors != 9 {
                let found = u64_to_string(anchors as u64);
                let a = concat3(
                    "Frame ",
                    idx.as_str(),
                    " bezier curve should have 0 or 9 anchors, found ",
                );
                return Err(Error::validation(concat(a.as_str(), found.as_str())));
            }
            i = i + 1;
        }
        Ok(())
    }
}

impl Default for Hdr10PlusMetadata {
    fn default() -> (r: Self)
        ensures
            r.json_info.hdr10plus_profile@ == "B"@,
            r.json_info.version@ == "1.0"@,
            r.scene_info@.len() == 0,
            r.tool_info is None,
    {
        Hdr10PlusMetadata {
            json_info: JsonInfo { hdr10plus_profile: owned("B"), version: owned("1.0") },
            scene_info: Vec::new(),
            tool_info: None,
        }
    }
}

/// The outcome of an HDR10+ extraction.
#[derive(Debug, Clone, PartialEq, Eq)]
pub struct Hdr10PlusProcessingResult {
    pub metadata_file: String,
    pub metadata: Hdr10PlusMetadata,
    pub extraction_successful: bool,
    pub file_size: Option<u64>,
    pub curve_count: u32,
    pub scene_count: u32,
}

impl Hdr10PlusProcessingResult {
    /// A result with its curve and scene counts taken from the metadata.
    pub fn new(metadata_file: String, metadata: Hdr10PlusMetadata, extraction_successful: bool) -> (r:
        Self)
        requires
            scene_ids_countable(metadata.scene_info@),
        ensures
            r.metadata_file == metadata_file,
            r.metadata == metadata,
            r.extraction_successful == extraction_successful,
            r.file_size is None,
            r.curve_count == tone_mapping_count(metadata.scene_info@),
            r.scene_count == scene_count_of(metadata.scene_info@),
    {
        let curve_count = metadata.get_tone_mapping_frame_count();
        let scene_count = metadata.get_scene_count();
        Hdr10PlusProcessingResult {
            metadata_file,
            metadata,
            extraction_successful,
            file_size: None,
            curve_count,
            scene_count,
        }
    }
}

/// Where the frames can be counted in 32 bits, the tone-mapping frame
/// count is exact, never more than the frame count (which is the number of
/// frames), and not zero exactly when some frame carries a curve.
pub proof fn law_tone_mapping_counts(ss: Seq<SceneMetadata>)
    requires
        ss.len() <= u32::MAX,
    ensures
        (ss.len() as u32) == ss.len(),
        tone_mapping_count(ss) == curve_frames(ss),
        tone_mapping_count(ss) <= (ss.len() as u32),
        (tone_mapping_count(ss) > 0) == (exists|i: int|
            0 <= i < ss.len() && has_curve(#[trigger] ss[i])),
{
    law_curve_count_consistent(ss);
}

/// Frames with a curve are never more than the frames, and some frame has
/// a curve exactly when the count of such frames is not zero.
pub proof fn law_curve_count_consistent(ss: Seq<SceneMetadata>)
    ensures
        curve_frames(ss) <= ss.len(),
        (curve_frames(ss) > 0) == (exists|i: int| 0 <= i < ss.len() && has_curve(#[trigger] ss[i])),
    decreases ss.len(),
{
    if ss.len() > 0 {
        let p = ss.drop_last();
        law_curve_count_consistent(p);
        if exists|i: int| 0 <= i < ss.len() && has_curve(#[trigger] ss[i]) {
            let w = choose|i: int| 0 <= i < ss.len() && has_curve(#[trigger] ss[i]);
            if w < p.len() {
                assert(p[w] == ss[w]);
            }
        }
        if exists|i: int| 0 <= i < p.len() && has_curve(#[trigger] p[i]) {
            let w = choose|i: int| 0 <= i < p.len() && has_curve(#[trigger] p[i]);
            assert(ss[w] == p[w]);
        }
    }
}

} // verus!
