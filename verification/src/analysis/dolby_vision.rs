//! Dolby Vision profiles, stream information and the detection rules that
//! read ffprobe's codec strings and side data.

use vstd::prelude::*;
use crate::text::{decimal, owned, seq_contains, str_contains, str_eq};

verus! {

/// Dolby Vision profile of a stream (`NotDolbyVision` for other content).
#[derive(Debug, Clone, Copy, PartialEq, Eq, Structural)]
pub enum DolbyVisionProfile {
    NotDolbyVision,
    Profile5,
    Profile7,
    Profile81,
    Profile82,
    Profile84,
}

pub open spec fn dv_profile_name(p: DolbyVisionProfile) -> Seq<char> {
    match p {
        DolbyVisionProfile::NotDolbyVision => "none"@,
        DolbyVisionProfile::Profile5 => "5"@,
        DolbyVisionProfile::Profile7 => "7"@,
        DolbyVisionProfile::Profile81 => "8.1"@,
        DolbyVisionProfile::Profile82 => "8.2"@,
        DolbyVisionProfile::Profile84 => "8.4"@,
    }
}

/// Profile named by a profile number or an HEVC Dolby Vision codec string.
pub open spec fn dv_profile_from_name(s: Seq<char>) -> Option<DolbyVisionProfile> {
    if s == "5"@ || s == "dvhe.05"@ {
        Some(DolbyVisionProfile::Profile5)
    } else if s == "7"@ || s == "dvhe.07"@ {
        Some(DolbyVisionProfile::Profile7)
    } else if s == "8.1"@ || s == "dvhe.08"@ || s == "dvhe.08.06"@ {
        Some(DolbyVisionProfile::Profile81)
    } else if s == "8.2"@ || s == "dvhe.08.09"@ {
        Some(DolbyVisionProfile::Profile82)
    } else if s == "8.4"@ || s == "dvhe.08.04"@ {
        Some(DolbyVisionProfile::Profile84)
    } else {
        None
    }
}

impl DolbyVisionProfile {
    pub fn as_str(&self) -> (r: &'static str)
        ensures
            r@ == dv_profile_name(*self),
    {
        match self {
            DolbyVisionProfile::NotDolbyVision => "none",
            DolbyVisionProfile::Profile5 => "5",
            DolbyVisionProfile::Profile7 => "7",
            DolbyVisionProfile::Profile81 => "8.1",
            DolbyVisionProfile::Profile82 => "8.2",
            DolbyVisionProfile::Profile84 => "8.4",
        }
    }

    pub fn from_string(s: &str) -> (r: Option<DolbyVisionProfile>)
        ensures
            r == dv_profile_from_name(s@),
    {
        if str_eq(s, "5") || str_eq(s, "dvhe.05") {
            Some(DolbyVisionProfile::Profile5)
        } else if str_eq(s, "7") || str_eq(s, "dvhe.07") {
            Some(DolbyVisionProfile::Profile7)
        } else if str_eq(s, "8.1") || str_eq(s, "dvhe.08") || str_eq(s, "dvhe.08.06") {
            Some(DolbyVisionProfile::Profile81)
        } else if str_eq(s, "8.2") || str_eq(s, "dvhe.08.09") {
            Some(DolbyVisionProfile::Profile82)
        } else if str_eq(s, "8.4") || str_eq(s, "dvhe.08.04") {
            Some(DolbyVisionProfile::Profile84)
        } else {
            None
        }
    }

    /// Profiles 8.1 and 8.4 carry an HDR10-compatible base layer.
    pub fn supports_hdr10_compatibility(&self) -> (r: bool)
        ensures
            r == (*self == DolbyVisionProfile::Profile81 || *self == DolbyVisionProfile::Profile84),
    {
        match self {
            DolbyVisionProfile::Profile81 | DolbyVisionProfile::Profile84 => true,
            _ => false,
        }
    }

    /// Profile 7 is the dual-layer one.
    pub fn is_dual_layer(&self) -> (r: bool)
        ensures
            r == (*self == DolbyVisionProfile::Profile7),
    {
        match self {
            DolbyVisionProfile::Profile7 => true,
            _ => false,
        }
    }
}

/// Reading back a profile's name gives the profile.
pub proof fn law_dv_profile_name_round_trip(p: DolbyVisionProfile)
    requires
        p != DolbyVisionProfile::NotDolbyVision,
    ensures
        dv_profile_from_name(dv_profile_name(p)) == Some(p),
{
    reveal_strlit("5");
    reveal_strlit("dvhe.05");
    reveal_strlit("7");
    reveal_strlit("dvhe.07");
    reveal_strlit("8.1");
    reveal_strlit("dvhe.08");
    reveal_strlit("dvhe.08.06");
    reveal_strlit("8.2");
    reveal_strlit("dvhe.08.09");
    reveal_strlit("8.4");
    assert("8.1"@[2] != "8.2"@[2]);
    assert("8.1"@[2] != "8.4"@[2]);
    assert("8.2"@[2] != "8.4"@[2]);
    assert("5"@[0] != "7"@[0]);
}

/// Dolby Vision properties of a stream.
#[derive(Debug, Clone, PartialEq)]
pub struct DolbyVisionInfo {
    pub profile: DolbyVisionProfile,
    pub has_rpu: bool,
    pub has_enhancement_layer: bool,
    pub bl_compatible_id: Option<u8>,
    pub el_present: bool,
    pub rpu_present: bool,
    pub codec_profile: Option<String>,
    pub spatial_resampling_filter_hint: Option<u8>,
}

/// Information of a stream without Dolby Vision.
pub open spec fn is_no_dv_info(i: DolbyVisionInfo) -> bool {
    &&& i.profile == DolbyVisionProfile::NotDolbyVision
    &&& !i.has_rpu
    &&& !i.has_enhancement_layer
    &&& i.bl_compatible_id.is_none()
    &&& !i.el_present
    &&& !i.rpu_present
    &&& i.codec_profile.is_none()
    &&& i.spatial_resampling_filter_hint.is_none()
}

impl Default for DolbyVisionInfo {
    fn default() -> (r: Self)
        ensures
            is_no_dv_info(r),
    {
        Self::none()
    }
}

impl DolbyVisionInfo {
    pub fn none() -> (r: Self)
        ensures
            is_no_dv_info(r),
    {
        DolbyVisionInfo {
            profile: DolbyVisionProfile::NotDolbyVision,
            has_rpu: false,
            has_enhancement_layer: false,
            bl_compatible_id: None,
            el_present: false,
            rpu_present: false,
            codec_profile: None,
            spatial_resampling_filter_hint: None,
        }
    }

    pub fn is_dolby_vision(&self) -> (r: bool)
        ensures
            r == (self.profile != DolbyVisionProfile::NotDolbyVision),
    {
        self.profile != DolbyVisionProfile::NotDolbyVision
    }

    pub fn needs_rpu_processing(&self) -> (r: bool)
        ensures
            r == (self.has_rpu && self.profile != DolbyVisionProfile::NotDolbyVision),
    {
        self.has_rpu && self.profile != DolbyVisionProfile::NotDolbyVision
    }
}

/// Dolby Vision side-data fields as ffprobe reports them; each field may be
/// given as a number, a string or a boolean.
#[derive(Debug, Clone, PartialEq, Eq)]
pub struct DoviSideData {
    pub side_data_type: Option<String>,
    pub dv_profile_number: Option<u64>,
    pub dv_profile_text: Option<String>,
    pub bl_compatible_id: Option<u64>,
    pub el_present_flag: Option<bool>,
    pub el_present_number: Option<u64>,
    pub rpu_present_flag: Option<bool>,
    pub rpu_present_number: Option<u64>,
}

/// The first video stream of an ffprobe report.
#[derive(Debug, Clone, PartialEq, Eq)]
pub struct ProbeVideoStream {
    pub codec_name: Option<String>,
    pub profile: Option<String>,
    pub codec_tag_string: Option<String>,
    pub side_data: Vec<DoviSideData>,
}

/// Profile found in an HEVC profile string, first matching pattern wins.
pub open spec fn dv_profile_in_text(p: Seq<char>) -> Option<DolbyVisionProfile> {
    if seq_contains(p, "dvhe.05"@) {
        Some(DolbyVisionProfile::Profile5)
    } else if seq_contains(p, "dvhe.07"@) {
        Some(DolbyVisionProfile::Profile7)
    } else if seq_contains(p, "dvhe.08.06"@) || seq_contains(p, "dvhe.08"@) {
        Some(DolbyVisionProfile::Profile81)
    } else if seq_contains(p, "dvhe.08.09"@) {
        Some(DolbyVisionProfile::Profile82)
    } else if seq_contains(p, "dvhe.08.04"@) {
        Some(DolbyVisionProfile::Profile84)
    } else {
        None
    }
}

/// Profile given by the numeric `dv_profile` field.
pub open spec fn dv_profile_from_number(n: u64) -> DolbyVisionProfile {
    if n == 5 {
        DolbyVisionProfile::Profile5
    } else if n == 7 {
        DolbyVisionProfile::Profile7
    } else if n == 8 {
        DolbyVisionProfile::Profile81
    } else {
        DolbyVisionProfile::NotDolbyVision
    }
}

/// What the codec name, profile string and codec tag say.
pub open spec fn codec_info_spec(codec_name: Seq<char>, profile: Seq<char>, codec_tag: Seq<char>) -> (
    DolbyVisionProfile,
    bool,
    bool,
    Option<Seq<char>>,
) {
    // (profile, has_rpu (= rpu_present), has_enhancement_layer (= el_present), codec_profile)
    let hevc = codec_name == "hevc"@ || codec_name == "h265"@;
    let from_profile = if hevc { dv_profile_in_text(profile) } else { None };
    let base: (DolbyVisionProfile, bool, bool, Option<Seq<char>>) = match from_profile {
        Some(p) => (
            p,
            true,
            p == DolbyVisionProfile::Profile7,
            Some(profile),
        ),
        None => (DolbyVisionProfile::NotDolbyVision, false, false, None),
    };
    if (seq_contains(codec_tag, "dvh"@) || seq_contains(codec_tag, "dvhe"@)) && base.0
        == DolbyVisionProfile::NotDolbyVision {
        (
            match dv_profile_from_name(codec_tag) {
                Some(p) => p,
                None => DolbyVisionProfile::Profile81,
            },
            true,
            base.2,
            base.3,
        )
    } else {
        base
    }
}

/// Updates the information from one Dolby Vision side-data record.
pub open spec fn apply_side_data(i: DolbyVisionInfo, sd: DoviSideData) -> DolbyVisionInfo {
    let i1 = match sd.dv_profile_number {
        Some(n) => DolbyVisionInfo { profile: dv_profile_from_number(n), ..i },
        None => match sd.dv_profile_text {
            Some(t) => match dv_profile_from_name(t@) {
                Some(p) => DolbyVisionInfo { profile: p, ..i },
                None => i,
            },
            None => i,
        },
    };
    let i2 = match sd.bl_compatible_id {
        Some(b) => DolbyVisionInfo { bl_compatible_id: Some(b as u8), ..i1 },
        None => i1,
    };
    let el: Option<bool> = match sd.el_present_flag {
        Some(b) => Some(b),
        None => match sd.el_present_number {
            Some(n) => Some(n != 0),
            None => None,
        },
    };
    let i3 = match el {
        Some(b) => DolbyVisionInfo { el_present: b, has_enhancement_layer: b, ..i2 },
        None => i2,
    };
    let rpu: Option<bool> = match sd.rpu_present_flag {
        Some(b) => Some(b),
        None => match sd.rpu_present_number {
            Some(n) => Some(n != 0),
            None => None,
        },
    };
    match rpu {
        Some(b) => DolbyVisionInfo { rpu_present: b, has_rpu: b, ..i3 },
        None => i3,
    }
}

/// A record with a numeric profile `n` sets the profile that number names:
/// profile 5 for 5 and profile 7 for 7 (whose names are the number itself,
/// as the textual field would give them), the first variant of profile 8
/// (`8.1`) for 8, and no Dolby Vision profile for any other number; the
/// record's other fields leave the profile as set.
pub proof fn law_numeric_profile_is_named_profile(i: DolbyVisionInfo, sd: DoviSideData, n: u64)
    requires
        sd.dv_profile_number == Some(n),
    ensures
        (n == 5 || n == 7) ==> dv_profile_name(apply_side_data(i, sd).profile) == decimal(n as nat)
            && dv_profile_from_name(decimal(n as nat)) == Some(apply_side_data(i, sd).profile),
        n == 8 ==> dv_profile_name(apply_side_data(i, sd).profile) == "8.1"@
            && dv_profile_from_name("8.1"@) == Some(apply_side_data(i, sd).profile),
        n != 5 && n != 7 && n != 8 ==> apply_side_data(i, sd).profile
            == DolbyVisionProfile::NotDolbyVision,
{
    reveal_strlit("5");
    reveal_strlit("7");
    reveal_strlit("8.1");
    reveal_strlit("none");
    reveal_strlit("dvhe.05");
    reveal_strlit("dvhe.07");
    assert(decimal(5) =~= seq!['5']);
    assert(decimal(7) =~= seq!['7']);
    assert("5"@ =~= seq!['5']);
    assert("7"@ =~= seq!['7']);
    assert("8.1"@.len() == 3 && "dvhe.05"@.len() == 7 && "dvhe.07"@.len() == 7);
    assert("5"@[0] != "7"@[0]);
    assert("5"@ != "7"@);
}

/// Every Dolby Vision profile reads back from its name, and from its HEVC
/// codec string `dvhe.0N` for profiles 5 and 7; no profile is named `none`.
pub proof fn law_profile_name_round_trip(p: DolbyVisionProfile)
    ensures
        p != DolbyVisionProfile::NotDolbyVision ==> dv_profile_from_name(dv_profile_name(p)) == Some(
            p,
        ),
        dv_profile_from_name("none"@) is None,
        dv_profile_from_name("dvhe.05"@) == Some(DolbyVisionProfile::Profile5),
        dv_profile_from_name("dvhe.07"@) == Some(DolbyVisionProfile::Profile7),
{
    reveal_strlit("none");
    reveal_strlit("5");
    reveal_strlit("7");
    reveal_strlit("8.1");
    reveal_strlit("8.2");
    reveal_strlit("8.4");
    reveal_strlit("dvhe.05");
    reveal_strlit("dvhe.07");
    reveal_strlit("dvhe.08");
    reveal_strlit("dvhe.08.06");
    reveal_strlit("dvhe.08.09");
    reveal_strlit("dvhe.08.04");
    assert("5"@[0] != "7"@[0]);
    assert("8.1"@[2] != "8.2"@[2] && "8.1"@[2] != "8.4"@[2] && "8.2"@[2] != "8.4"@[2]);
    assert("dvhe.05"@[6] != "dvhe.07"@[6]);
    assert("none"@.len() == 4);
}

/// The side-data type names a Dolby Vision record.
pub open spec fn is_dovi_side_data(sd: DoviSideData) -> bool {
    match sd.side_data_type {
        Some(t) => seq_contains(t@, "DOVI"@) || seq_contains(t@, "dolby_vision"@),
        None => false,
    }
}

/// Applies every Dolby Vision side-data record, in order.
pub open spec fn apply_all_side_data(i: DolbyVisionInfo, sds: Seq<DoviSideData>) -> DolbyVisionInfo
    decreases sds.len(),
{
    if sds.len() == 0 {
        i
    } else {
        let prev = apply_all_side_data(i, sds.drop_last());
        if is_dovi_side_data(sds.last()) {
            apply_side_data(prev, sds.last())
        } else {
            prev
        }
    }
}

proof fn lemma_side_data_keeps_codec_profile(i: DolbyVisionInfo, c: Option<String>, sds: Seq<DoviSideData>)
    ensures
        apply_all_side_data((DolbyVisionInfo { codec_profile: c, ..i }), sds) == (DolbyVisionInfo {
            codec_profile: c,
            ..apply_all_side_data(i, sds)
        }),
        apply_all_side_data(i, sds).codec_profile == i.codec_profile,
        apply_all_side_data(i, sds).spatial_resampling_filter_hint == i.spatial_resampling_filter_hint,
    decreases sds.len(),
{
    if sds.len() > 0 {
        lemma_side_data_keeps_codec_profile(i, c, sds.drop_last());
    }
}

pub open spec fn opt_text(o: Option<String>) -> Seq<char> {
    match o {
        Some(s) => s@,
        None => Seq::<char>::empty(),
    }
}

/// Policy for Dolby Vision content.
pub struct DolbyVisionDetector {
    pub enabled: bool,
    pub preserve_profile_7: bool,
    pub target_profile: String,
    pub auto_profile_conversion: bool,
}

impl DolbyVisionDetector {
    pub fn new(
        enabled: bool,
        preserve_profile_7: bool,
        target_profile: String,
        auto_profile_conversion: bool,
    ) -> (r: Self)
        ensures
            r.enabled == enabled,
            r.preserve_profile_7 == preserve_profile_7,
            r.target_profile == target_profile,
            r.auto_profile_conversion == auto_profile_conversion,
    {
        DolbyVisionDetector { enabled, preserve_profile_7, target_profile, auto_profile_conversion }
    }

    /// Profile named in an HEVC profile string.
    pub fn extract_dolby_vision_profile(profile_str: &str) -> (r: Option<DolbyVisionProfile>)
        ensures
            r == dv_profile_in_text(profile_str@),
    {
        if str_contains(profile_str, "dvhe.05") {
            Some(DolbyVisionProfile::Profile5)
        } else if str_contains(profile_str, "dvhe.07") {
            Some(DolbyVisionProfile::Profile7)
        } else if str_contains(profile_str, "dvhe.08.06") || str_contains(profile_str, "dvhe.08") {
            Some(DolbyVisionProfile::Profile81)
        } else if str_contains(profile_str, "dvhe.08.09") {
            Some(DolbyVisionProfile::Profile82)
        } else if str_contains(profile_str, "dvhe.08.04") {
            Some(DolbyVisionProfile::Profile84)
        } else {
            None
        }
    }

    /// Information given by the codec name, profile string and codec tag.
    pub fn detect_from_codec_info(codec_name: &str, profile: &str, codec_tag: &str) -> (r:
        DolbyVisionInfo)
        ensures
            ({
                let s = codec_info_spec(codec_name@, profile@, codec_tag@);
                &&& r.profile == s.0
                &&& r.has_rpu == s.1 && r.rpu_present == s.1
                &&& r.has_enhancement_layer == s.2 && r.el_present == s.2
                &&& (match r.codec_profile {
                    Some(c) => s.3 == Some(c@),
                    None => s.3.is_none(),
                })
                &&& r.bl_compatible_id.is_none()
                &&& r.spatial_resampling_filter_hint.is_none()
            }),
    {
        let mut dv = DolbyVisionInfo::none();
        if str_eq(codec_name, "hevc") || str_eq(codec_name, "h265") {
            if let Some(p) = Self::extract_dolby_vision_profile(profile) {
                dv.profile = p;
                dv.codec_profile = Some(owned(profile));
                match p {
                    DolbyVisionProfile::Profile7 => {
                        dv.has_enhancement_layer = true;
                        dv.el_present = true;
                        dv.has_rpu = true;
                        dv.rpu_present = true;
                    },
                    DolbyVisionProfile::Profile81 | DolbyVisionProfile::Profile82
                    | DolbyVisionProfile::Profile84 | DolbyVisionProfile::Profile5 => {
                        dv.has_rpu = true;
                        dv.rpu_present = true;
                        dv.has_enhancement_layer = false;
                        dv.el_present = false;
                    },
                    _ => {},
                }
            }
        }
        if (str_contains(codec_tag, "dvh") || str_contains(codec_tag, "dvhe")) && dv.profile
            == DolbyVisionProfile::NotDolbyVision {
            match DolbyVisionProfile::from_string(codec_tag) {
                Some(p) => {
                    dv.profile = p;
                },
                None => {
                    dv.profile = DolbyVisionProfile::Profile81;
                },
            }
            dv.has_rpu = true;
            dv.rpu_present = true;
        }
        dv
    }

    /// Applies one Dolby Vision side-data record.
    pub fn parse_side_data(dv_info: &mut DolbyVisionInfo, side_data: &DoviSideData)
        ensures
            *final(dv_info) == apply_side_data(*old(dv_info), *side_data),
    {
        match side_data.dv_profile_number {
            Some(n) => {
                dv_info.profile = if n == 5 {
                    DolbyVisionProfile::Profile5
                } else if n == 7 {
                    DolbyVisionProfile::Profile7
                } else if n == 8 {
                    DolbyVisionProfile::Profile81
                } else {
                    DolbyVisionProfile::NotDolbyVision
                };
            },
            None => {
                match &side_data.dv_profile_text {
                    Some(t) => {
                        if let Some(p) = DolbyVisionProfile::from_string(t.as_str()) {
                            dv_info.profile = p;
                        }
                    },
                    None => {},
                }
            },
        }
        if let Some(b) = side_data.bl_compatible_id {
            dv_info.bl_compatible_id = Some(b as u8);
        }
        let el: Option<bool> = match side_data.el_present_flag {
            Some(b) => Some(b),
            None => match side_data.el_present_number {
                Some(n) => Some(n != 0),
                None => None,
            },
        };
        if let Some(b) = el {
            dv_info.el_present = b;
            dv_info.has_enhancement_layer = b;
        }
        let rpu: Option<bool> = match side_data.rpu_present_flag {
            Some(b) => Some(b),
            None => match side_data.rpu_present_number {
                Some(n) => Some(n != 0),
                None => None,
            },
        };
        if let Some(b) = rpu {
            dv_info.rpu_present = b;
            dv_info.has_rpu = b;
        }
    }

    /// Dolby Vision information of the first video stream: codec strings
    /// first, then every Dolby Vision side-data record in order.
    pub fn parse_dolby_vision_metadata(stream: Option<&ProbeVideoStream>) -> (r: DolbyVisionInfo)
        ensures
            stream.is_none() ==> is_no_dv_info(r),
            stream matches Some(s) ==> ({
                let base = codec_info_spec(opt_text(s.codec_name), opt_text(s.profile), opt_text(s.codec_tag_string));
                let sd = apply_all_side_data(
                    DolbyVisionInfo {
                        profile: base.0,
                        has_rpu: base.1,
                        rpu_present: base.1,
                        has_enhancement_layer: base.2,
                        el_present: base.2,
                        bl_compatible_id: None,
                        spatial_resampling_filter_hint: None,
                        codec_profile: r.codec_profile,
                    },
                    s.side_data@,
                );
                &&& (sd.profile == DolbyVisionProfile::NotDolbyVision ==> is_no_dv_info(r))
                &&& (sd.profile != DolbyVisionProfile::NotDolbyVision ==> r == sd)
                &&& (sd.profile != DolbyVisionProfile::NotDolbyVision ==> match r.codec_profile {
                    Some(c) => base.3 == Some(c@),
                    None => base.3.is_none(),
                })
            }),
    {
        match stream {
            None => DolbyVisionInfo::none(),
            Some(s) => {
                let empty = String::new();
                let codec_name = match &s.codec_name {
                    Some(c) => c.as_str(),
                    None => empty.as_str(),
                };
                let profile = match &s.profile {
                    Some(c) => c.as_str(),
                    None => empty.as_str(),
                };
                let codec_tag = match &s.codec_tag_string {
                    Some(c) => c.as_str(),
                    None => empty.as_str(),
                };
                let mut dv = Self::detect_from_codec_info(codec_name, profile, codec_tag);
                let ghost start = dv;
                let mut i: usize = 0;
                while i < s.side_data.len()
                    invariant
                        i <= s.side_data@.len(),
                        dv == apply_all_side_data(start, s.side_data@.subrange(0, i as int)),
                    decreases s.side_data.len() - i,
                {
                    let ghost pre = s.side_data@.subrange(0, i as int);
                    assert(s.side_data@.subrange(0, i + 1).drop_last() =~= pre);
                    let sd = &s.side_data[i];
                    let is_dovi = match &sd.side_data_type {
                        Some(t) => str_contains(t.as_str(), "DOVI") || str_contains(
                            t.as_str(),
                            "dolby_vision",
                        ),
                        None => false,
                    };
                    if is_dovi {
                        Self::parse_side_data(&mut dv, sd);
                    }
                    i = i + 1;
                }
                assert(s.side_data@.subrange(0, s.side_data@.len() as int) =~= s.side_data@);
                proof {
                    lemma_side_data_keeps_codec_profile(start, None, s.side_data@);
                    lemma_side_data_keeps_codec_profile(start, start.codec_profile, s.side_data@);
                    assert(start == DolbyVisionInfo { codec_profile: start.codec_profile, ..start });
                }
                if dv.profile == DolbyVisionProfile::NotDolbyVision {
                    DolbyVisionInfo::none()
                } else {
                    dv
                }
            },
        }
    }

    /// Dolby Vision is kept when detection is on and the content has it;
    /// profile 7 only when so configured.
    pub fn should_preserve_dolby_vision(&self, dv_info: &DolbyVisionInfo) -> (r: bool)
        ensures
            r == (self.enabled && dv_info.profile != DolbyVisionProfile::NotDolbyVision && (
            dv_info.profile == DolbyVisionProfile::Profile7 ==> self.preserve_profile_7)),
    {
        if !self.enabled || !dv_info.is_dolby_vision() {
            return false;
        }
        match dv_info.profile {
            DolbyVisionProfile::NotDolbyVision => false,
            DolbyVisionProfile::Profile7 => self.preserve_profile_7,
            _ => true,
        }
    }

    /// Profile 7 is converted to the configured target (8.2, 8.4, or 8.1 for
    /// anything else) when conversion is on; other profiles are kept.
    pub fn get_target_profile(&self, source_profile: DolbyVisionProfile) -> (r: DolbyVisionProfile)
        ensures
            !self.auto_profile_conversion ==> r == source_profile,
            self.auto_profile_conversion ==> r != DolbyVisionProfile::Profile7,
            self.auto_profile_conversion && source_profile != DolbyVisionProfile::Profile7 ==> r
                == source_profile,
            self.auto_profile_conversion && source_profile == DolbyVisionProfile::Profile7 ==> r
                == (if self.target_profile@ == "8.2"@ {
                DolbyVisionProfile::Profile82
            } else if self.target_profile@ == "8.4"@ {
                DolbyVisionProfile::Profile84
            } else {
                DolbyVisionProfile::Profile81
            }),
    {
        if !self.auto_profile_conversion {
            return source_profile;
        }
        match source_profile {
            DolbyVisionProfile::Profile7 => {
                if str_eq(self.target_profile.as_str(), "8.2") {
                    DolbyVisionProfile::Profile82
                } else if str_eq(self.target_profile.as_str(), "8.4") {
                    DolbyVisionProfile::Profile84
                } else {
                    DolbyVisionProfile::Profile81
                }
            },
            other => other,
        }
    }
}

} // verus!
