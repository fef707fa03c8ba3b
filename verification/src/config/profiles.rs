//! Encoding profiles: their x265 parameters, the parameter string they give
//! for a mode, HDR metadata and Dolby Vision, and the choice of a profile
//! for a content type and resolution.
//!
//! The constant-rate factor of a profile is a floating-point number and is
//! kept beside a profile by the application, not in it.

use vstd::prelude::*;
use crate::analysis::dolby_vision::{DolbyVisionInfo, DolbyVisionProfile};
use crate::config::types::{content_type_from_lower, ContentType};
use crate::dolby_vision::rpu::RpuMetadata;
use crate::error::{Error, ErrorKind};
use crate::params::{
    law_get_after_insert, lemma_insert_distinct, pm_get, pm_insert, pm_insert_all, pm_or_insert,
    keys_distinct, x265_params_text, ParamEntries, ParamMap,
};
use crate::text::{concat, concat3, owned, seq_contains, str_contains, str_eq, unicode_lowercase};

verus! {

/// A parameter value as a profile file gives it.
#[derive(Debug, Clone, PartialEq, Eq)]
pub enum RawParamValue {
    /// A string value.
    Text(String),
    /// A number, as the file's reader prints it.
    Number(String),
    /// A boolean; written `1` or `0`.
    Bool(bool),
    /// Any other value (a list, a map, null), with its `{:?}` text.
    Other(String),
}

/// The text a raw value stands for, where it has one.
pub open spec fn raw_value_text(v: RawParamValue) -> Option<Seq<char>> {
    match v {
        RawParamValue::Text(s) => Some(s@),
        RawParamValue::Number(t) => Some(t@),
        RawParamValue::Bool(b) => Some(if b { "1"@ } else { "0"@ }),
        RawParamValue::Other(_) => None,
    }
}

/// A profile as a configuration file gives it.
#[derive(Debug, Clone, PartialEq)]
pub struct RawProfile {
    pub title: String,
    pub base_bitrate: u32,
    pub hdr_bitrate: u32,
    pub content_type: String,
    pub x265_params: Vec<(String, RawParamValue)>,
}

/// An encoding profile: bitrates, content type and x265 parameters.
pub struct EncodingProfile {
    pub name: String,
    pub title: String,
    pub base_bitrate: u32,
    pub hdr_bitrate: u32,
    pub content_type: ContentType,
    pub x265_params: ParamMap,
}

/// The first raw parameter (from position `i` on) whose value has no text.
pub open spec fn first_unsupported_from(ps: Seq<(String, RawParamValue)>, i: int) -> Option<int>
    decreases ps.len() - i,
{
    if i < 0 || i >= ps.len() {
        None
    } else if raw_value_text(ps[i].1) is None {
        Some(i)
    } else {
        first_unsupported_from(ps, i + 1)
    }
}

/// The parameters of a raw profile whose values all have a text.
pub open spec fn converted_params(ps: Seq<(String, RawParamValue)>) -> ParamEntries {
    ps.map_values(|p: (String, RawParamValue)| (p.0@, raw_value_text(p.1).unwrap()))
}

/// The message for a raw parameter value without a text.
pub open spec fn unsupported_value_message(p: (String, RawParamValue)) -> Seq<char> {
    "Unsupported parameter value type for "@ + p.0@ + ": "@ + match p.1 {
        RawParamValue::Other(d) => d@,
        _ => Seq::<char>::empty(),
    }
}

/// Contains `bt2020` or `rec2020`.
pub open spec fn names_bt2020(t: Seq<char>) -> bool {
    seq_contains(t, "bt2020"@) || seq_contains(t, "rec2020"@)
}

/// The profile's parameters with the mode's parameters written over them.
pub open spec fn with_mode(base: ParamEntries, mode: Option<ParamEntries>) -> ParamEntries {
    match mode {
        Some(m) => pm_insert_all(base, m),
        None => base,
    }
}

/// The HDR parameters drawn from the stream's colour metadata.
pub open spec fn with_hdr_metadata(
    s: ParamEntries,
    color_space: Option<Seq<char>>,
    transfer: Option<Seq<char>>,
    primaries: Option<Seq<char>>,
    master_display: Option<Seq<char>>,
    max_cll: Option<Seq<char>>,
) -> ParamEntries {
    let a = if color_space is Some && names_bt2020(color_space.unwrap()) {
        pm_insert(s, "colormatrix"@, "bt2020nc"@)
    } else {
        s
    };
    let b = if transfer is Some && seq_contains(transfer.unwrap(), "smpte2084"@) {
        pm_insert(a, "transfer"@, "smpte2084"@)
    } else if transfer is Some && seq_contains(transfer.unwrap(), "arib-std-b67"@) {
        pm_insert(a, "transfer"@, "arib-std-b67"@)
    } else {
        a
    };
    let c = if primaries is Some && names_bt2020(primaries.unwrap()) {
        pm_insert(b, "colorprim"@, "bt2020"@)
    } else {
        b
    };
    let d = match master_display {
        Some(m) => pm_insert(c, "master-display"@, m),
        None => c,
    };
    match max_cll {
        Some(x) => pm_insert(d, "max-cll"@, x + ",400"@),
        None => d,
    }
}

/// The parameters for a mode and, for HDR content, the stream's HDR
/// metadata.
pub open spec fn hdr_profile_params(
    base: ParamEntries,
    mode: Option<ParamEntries>,
    is_hdr: Option<bool>,
    color_space: Option<Seq<char>>,
    transfer: Option<Seq<char>>,
    primaries: Option<Seq<char>>,
    master_display: Option<Seq<char>>,
    max_cll: Option<Seq<char>>,
) -> ParamEntries {
    let m = with_mode(base, mode);
    if is_hdr == Some(true) {
        with_hdr_metadata(m, color_space, transfer, primaries, master_display, max_cll)
    } else {
        m
    }
}

/// The x265 name of a Dolby Vision profile, where x265 takes it.
pub open spec fn dv_profile_param(p: DolbyVisionProfile) -> Option<Seq<char>> {
    match p {
        DolbyVisionProfile::Profile5 => Some("5"@),
        DolbyVisionProfile::Profile81 => Some("8.1"@),
        DolbyVisionProfile::Profile82 => Some("8.2"@),
        DolbyVisionProfile::Profile84 => Some("8.4"@),
        _ => None,
    }
}

/// Dolby Vision parameters apply: the stream is Dolby Vision and its RPU
/// was extracted.
pub open spec fn dv_applies(dv: Option<DolbyVisionInfo>, rpu: Option<RpuMetadata>) -> bool {
    &&& dv is Some
    &&& rpu is Some
    &&& dv.unwrap().profile != DolbyVisionProfile::NotDolbyVision
    &&& rpu.unwrap().extracted_successfully
}

/// The Dolby Vision parameters: the RPU file, the profile where x265 takes
/// it, VBV limits unless set, 10-bit output and BT.2020 PQ colours.
pub open spec fn with_dolby_vision(s: ParamEntries, rpu: RpuMetadata) -> ParamEntries {
    let a = pm_insert(s, "dolby-vision-rpu"@, rpu.temp_file@);
    let b = match dv_profile_param(rpu.profile) {
        Some(p) => pm_insert(a, "dolby-vision-profile"@, p),
        None => a,
    };
    let c = pm_or_insert(pm_or_insert(b, "vbv-bufsize"@, "160000"@), "vbv-maxrate"@, "160000"@);
    let d = pm_insert(c, "output-depth"@, "10"@);
    let e = pm_insert(d, "colorprim"@, "bt2020"@);
    let f = pm_insert(e, "transfer"@, "smpte2084"@);
    pm_insert(f, "colormatrix"@, "bt2020nc"@)
}

/// The characters of an optional string reference.
pub open spec fn opt_ref_text(o: Option<&String>) -> Option<Seq<char>> {
    match o {
        Some(s) => Some(s@),
        None => None,
    }
}

/// The entries of an optional parameter map.
pub open spec fn opt_params(o: Option<&ParamMap>) -> Option<ParamEntries> {
    match o {
        Some(m) => Some(m@),
        None => None,
    }
}

/// An optional reference, dereferenced.
pub open spec fn opt_deref<T>(o: Option<&T>) -> Option<T> {
    match o {
        Some(x) => Some(*x),
        None => None,
    }
}

/// A raw profile converts: its content type is known and every parameter
/// value is a string, a number or a boolean.
pub open spec fn raw_convertible(raw: RawProfile) -> bool {
    content_type_from_lower(unicode_lowercase(raw.content_type@)) is Some
        && first_unsupported_from(raw.x265_params@, 0) is None
}

/// The error of a raw profile that does not convert.
pub open spec fn raw_conversion_error(raw: RawProfile) -> (ErrorKind, Seq<char>) {
    if content_type_from_lower(unicode_lowercase(raw.content_type@)) is None {
        (ErrorKind::Profile, "Invalid content type: "@ + raw.content_type@)
    } else {
        (
            ErrorKind::Profile,
            unsupported_value_message(
                raw.x265_params@[first_unsupported_from(raw.x265_params@, 0).unwrap()],
            ),
        )
    }
}

/// `p` is the profile converted from `raw` under `name`.
pub open spec fn converted_from(p: EncodingProfile, name: String, raw: RawProfile) -> bool {
    &&& p.name == name
    &&& p.title == raw.title
    &&& p.base_bitrate == raw.base_bitrate
    &&& p.hdr_bitrate == raw.hdr_bitrate
    &&& Some(p.content_type) == content_type_from_lower(unicode_lowercase(raw.content_type@))
    &&& p.x265_params@ == pm_insert_all(Seq::empty(), converted_params(raw.x265_params@))
}

impl EncodingProfile {
    /// A profile from its raw form: the content type must be known, and
    /// every parameter value a string, a number or a boolean.
    pub fn from_raw(name: String, raw: RawProfile) -> (r: Result<Self, Error>)
        ensures
            content_type_from_lower(unicode_lowercase(raw.content_type@)) is None ==> (r matches Err(
                e,
            ) && e@ == (ErrorKind::Profile, "Invalid content type: "@ + raw.content_type@)),
            content_type_from_lower(unicode_lowercase(raw.content_type@)) is Some
                && first_unsupported_from(raw.x265_params@, 0) is Some ==> (r matches Err(e)
                && e@ == (ErrorKind::Profile, unsupported_value_message(
                raw.x265_params@[first_unsupported_from(raw.x265_params@, 0).unwrap()],
            ))),
            content_type_from_lower(unicode_lowercase(raw.content_type@)) is Some
                && first_unsupported_from(raw.x265_params@, 0) is None ==> (r matches Ok(p) && p.name
                == name && p.title == raw.title && p.base_bitrate == raw.base_bitrate
                && p.hdr_bitrate == raw.hdr_bitrate && Some(p.content_type)
                == content_type_from_lower(unicode_lowercase(raw.content_type@)) && p.x265_params@
                == pm_insert_all(Seq::empty(), converted_params(raw.x265_params@))),
    {
        let content_type = match ContentType::from_string(raw.content_type.as_str()) {
            Some(c) => c,
            None => {
                return Err(
                    Error::profile(concat("Invalid content type: ", raw.content_type.as_str())),
                );
            },
        };
        let ghost ps = raw.x265_params@;
        let mut params = ParamMap::new();
        let mut i: usize = 0;
        while i < raw.x265_params.len()
            invariant
                i <= ps.len(),
                ps == raw.x265_params@,
                content_type_from_lower(unicode_lowercase(raw.content_type@)) is Some,
                first_unsupported_from(ps, 0) == first_unsupported_from(ps, i as int),
                forall|j: int| 0 <= j < i ==> raw_value_text(#[trigger] ps[j].1) is Some,
                params@ == pm_insert_all(Seq::empty(), converted_params(ps.subrange(0, i as int))),
            decreases ps.len() - i,
        {
            let (k, v) = (&raw.x265_params[i].0, &raw.x265_params[i].1);
            let text = match v {
                RawParamValue::Text(s) => s.clone(),
                RawParamValue::Number(t) => t.clone(),
                RawParamValue::Bool(b) => if *b {
                    owned("1")
                } else {
                    owned("0")
                },
                RawParamValue::Other(d) => {
                    let head = concat3("Unsupported parameter value type for ", k.as_str(), ": ");
                    return Err(Error::profile(concat(head.as_str(), d.as_str())));
                },
            };
            let ghost before = converted_params(ps.subrange(0, i as int));
            let ghost after = converted_params(ps.subrange(0, i + 1));
            assert(after.drop_last() =~= before);
            params.insert(k.clone(), text);
            i = i + 1;
        }
        assert(ps.subrange(0, ps.len() as int) =~= ps);
        Ok(
            EncodingProfile {
                name,
                title: raw.title,
                base_bitrate: raw.base_bitrate,
                hdr_bitrate: raw.hdr_bitrate,
                content_type,
                x265_params: params,
            },
        )
    }

    /// The x265 parameter string for a mode.
    pub fn build_x265_params_string(&self, mode_specific_params: Option<&ParamMap>) -> (r: String)
        ensures
            r@ == x265_params_text(with_mode(self.x265_params@, opt_params(mode_specific_params))),
    {
        self.build_x265_params_string_with_hdr(
            mode_specific_params,
            None,
            None,
            None,
            None,
            None,
            None,
        )
    }

    fn mode_params(&self, mode_specific_params: Option<&ParamMap>) -> (r: ParamMap)
        ensures
            r@ == with_mode(self.x265_params@, opt_params(mode_specific_params)),
    {
        let mut params = self.x265_params.copy();
        if let Some(m) = mode_specific_params {
            params.insert_all(m.entries());
        }
        params
    }

    fn add_hdr_metadata(
        params: &mut ParamMap,
        color_space: Option<&String>,
        transfer_function: Option<&String>,
        color_primaries: Option<&String>,
        master_display: Option<&String>,
        max_cll: Option<&String>,
    )
        ensures
            final(params)@ == with_hdr_metadata(
                old(params)@,
                opt_ref_text(color_space),
                opt_ref_text(transfer_function),
                opt_ref_text(color_primaries),
                opt_ref_text(master_display),
                opt_ref_text(max_cll),
            ),
    {
        if let Some(cs) = color_space {
            if str_contains(cs.as_str(), "bt2020") || str_contains(cs.as_str(), "rec2020") {
                params.insert(owned("colormatrix"), owned("bt2020nc"));
            }
        }
        if let Some(tf) = transfer_function {
            if str_contains(tf.as_str(), "smpte2084") {
                params.insert(owned("transfer"), owned("smpte2084"));
            } else if str_contains(tf.as_str(), "arib-std-b67") {
                params.insert(owned("transfer"), owned("arib-std-b67"));
            }
        }
        if let Some(cp) = color_primaries {
            if str_contains(cp.as_str(), "bt2020") || str_contains(cp.as_str(), "rec2020") {
                params.insert(owned("colorprim"), owned("bt2020"));
            }
        }
        if let Some(md) = master_display {
            params.insert(owned("master-display"), md.clone());
        }
        if let Some(cll) = max_cll {
            params.insert(owned("max-cll"), concat(cll.as_str(), ",400"));
        }
    }

    /// The x265 parameter string for a mode; for HDR content
    /// (`is_hdr == Some(true)`) the stream's colour space, transfer,
    /// primaries, mastering display and maximum light level are written in
    /// too.
    pub fn build_x265_params_string_with_hdr(
        &self,
        mode_specific_params: Option<&ParamMap>,
        is_hdr: Option<bool>,
        color_space: Option<&String>,
        transfer_function: Option<&String>,
        color_primaries: Option<&String>,
        master_display: Option<&String>,
        max_cll: Option<&String>,
    ) -> (r: String)
        ensures
            r@ == x265_params_text(
                hdr_profile_params(
                    self.x265_params@,
                    opt_params(mode_specific_params),
                    is_hdr,
                    opt_ref_text(color_space),
                    opt_ref_text(transfer_function),
                    opt_ref_text(color_primaries),
                    opt_ref_text(master_display),
                    opt_ref_text(max_cll),
                ),
            ),
    {
        let mut params = self.mode_params(mode_specific_params);
        if is_hdr == Some(true) {
            Self::add_hdr_metadata(
                &mut params,
                color_space,
                transfer_function,
                color_primaries,
                master_display,
                max_cll,
            );
        }
        params.to_x265_string()
    }

    /// The x265 parameter string as `build_x265_params_string_with_hdr`
    /// gives it, with the Dolby Vision parameters written in where the
    /// stream is Dolby Vision and its RPU was extracted.
    pub fn build_x265_params_string_with_dolby_vision(
        &self,
        mode_specific_params: Option<&ParamMap>,
        is_hdr: Option<bool>,
        color_space: Option<&String>,
        transfer_function: Option<&String>,
        color_primaries: Option<&String>,
        master_display: Option<&String>,
        max_cll: Option<&String>,
        dv_info: Option<&DolbyVisionInfo>,
        rpu_metadata: Option<&RpuMetadata>,
    ) -> (r: String)
        ensures
            ({
                let h = hdr_profile_params(
                    self.x265_params@,
                    opt_params(mode_specific_params),
                    is_hdr,
                    opt_ref_text(color_space),
                    opt_ref_text(transfer_function),
                    opt_ref_text(color_primaries),
                    opt_ref_text(master_display),
                    opt_ref_text(max_cll),
                );
                r@ == x265_params_text(
                    if dv_applies(opt_deref(dv_info), opt_deref(rpu_metadata)) {
                        with_dolby_vision(h, *rpu_metadata.unwrap())
                    } else {
                        h
                    },
                )
            }),
    {
        let mut params = self.mode_params(mode_specific_params);
        if is_hdr == Some(true) {
            Self::add_hdr_metadata(
                &mut params,
                color_space,
                transfer_function,
                color_primaries,
                master_display,
                max_cll,
            );
        }
        if let (Some(dv), Some(rpu)) = (dv_info, rpu_metadata) {
            if dv.is_dolby_vision() && rpu.extracted_successfully {
                params.insert(owned("dolby-vision-rpu"), rpu.temp_file.clone());
                match rpu.profile {
                    DolbyVisionProfile::Profile5 => {
                        params.insert(owned("dolby-vision-profile"), owned("5"));
                    },
                    DolbyVisionProfile::Profile81 => {
                        params.insert(owned("dolby-vision-profile"), owned("8.1"));
                    },
                    DolbyVisionProfile::Profile82 => {
                        params.insert(owned("dolby-vision-profile"), owned("8.2"));
                    },
                    DolbyVisionProfile::Profile84 => {
                        params.insert(owned("dolby-vision-profile"), owned("8.4"));
                    },
                    _ => {},
                }
                if !params.contains_key("vbv-bufsize") {
                    params.insert(owned("vbv-bufsize"), owned("160000"));
                }
                if !params.contains_key("vbv-maxrate") {
                    params.insert(owned("vbv-maxrate"), owned("160000"));
                }
                params.insert(owned("output-depth"), owned("10"));
                params.insert(owned("colorprim"), owned("bt2020"));
                params.insert(owned("transfer"), owned("smpte2084"));
                params.insert(owned("colormatrix"), owned("bt2020nc"));
            }
        }
        params.to_x265_string()
    }

    /// The profile outputs 10 bits (an `output-depth` of 10 or a `pix_fmt`
    /// with `10le`) or uses the Main 10 profile.
    pub fn is_dolby_vision_compatible(&self) -> (r: bool)
        ensures
            r == (pm_get(self.x265_params@, "output-depth"@) == Some("10"@) || (pm_get(
                self.x265_params@,
                "pix_fmt"@,
            ) is Some && seq_contains(pm_get(self.x265_params@, "pix_fmt"@).unwrap(), "10le"@))
                || pm_get(self.x265_params@, "profile"@) == Some("main10"@)),
    {
        let has_10bit = match self.x265_params.get("output-depth") {
            Some(d) => str_eq(d.as_str(), "10"),
            None => false,
        } || match self.x265_params.get("pix_fmt") {
            Some(pf) => str_contains(pf.as_str(), "10le"),
            None => false,
        };
        let has_main10_profile = match self.x265_params.get("profile") {
            Some(p) => str_eq(p.as_str(), "main10"),
            None => false,
        };
        has_10bit || has_main10_profile
    }
}

/// Without HDR content the HDR metadata arguments change nothing: the
/// string is the one for the mode alone.
pub proof fn law_sdr_ignores_hdr_metadata(
    base: ParamEntries,
    mode: Option<ParamEntries>,
    is_hdr: Option<bool>,
    color_space: Option<Seq<char>>,
    transfer: Option<Seq<char>>,
    primaries: Option<Seq<char>>,
    master_display: Option<Seq<char>>,
    max_cll: Option<Seq<char>>,
)
    requires
        is_hdr != Some(true),
    ensures
        hdr_profile_params(base, mode, is_hdr, color_space, transfer, primaries, master_display, max_cll)
            == with_mode(base, mode),
{
}

/// Dolby Vision output is always 10-bit BT.2020 PQ, and carries the RPU
/// file it was given.
pub proof fn law_dolby_vision_forces_pq_10bit(s: ParamEntries, rpu: RpuMetadata)
    requires
        keys_distinct(s),
    ensures
        pm_get(with_dolby_vision(s, rpu), "output-depth"@) == Some("10"@),
        pm_get(with_dolby_vision(s, rpu), "colorprim"@) == Some("bt2020"@),
        pm_get(with_dolby_vision(s, rpu), "transfer"@) == Some("smpte2084"@),
        pm_get(with_dolby_vision(s, rpu), "colormatrix"@) == Some("bt2020nc"@),
        pm_get(with_dolby_vision(s, rpu), "dolby-vision-rpu"@) == Some(rpu.temp_file@),
{
    reveal_strlit("output-depth");
    reveal_strlit("colorprim");
    reveal_strlit("transfer");
    reveal_strlit("colormatrix");
    reveal_strlit("dolby-vision-rpu");
    reveal_strlit("dolby-vision-profile");
    reveal_strlit("vbv-bufsize");
    reveal_strlit("vbv-maxrate");
    assert("output-depth"@.len() == 12 && "colorprim"@.len() == 9 && "transfer"@.len() == 8
        && "colormatrix"@.len() == 11 && "dolby-vision-rpu"@.len() == 16
        && "dolby-vision-profile"@.len() == 20 && "vbv-bufsize"@.len() == 11
        && "vbv-maxrate"@.len() == 11);
    let a = pm_insert(s, "dolby-vision-rpu"@, rpu.temp_file@);
    let b = match dv_profile_param(rpu.profile) {
        Some(p) => pm_insert(a, "dolby-vision-profile"@, p),
        None => a,
    };
    let b1 = pm_or_insert(b, "vbv-bufsize"@, "160000"@);
    let c = pm_or_insert(b1, "vbv-maxrate"@, "160000"@);
    let d = pm_insert(c, "output-depth"@, "10"@);
    let e = pm_insert(d, "colorprim"@, "bt2020"@);
    let f = pm_insert(e, "transfer"@, "smpte2084"@);
    let g = pm_insert(f, "colormatrix"@, "bt2020nc"@);
    lemma_insert_distinct(s, "dolby-vision-rpu"@, rpu.temp_file@);
    law_get_after_insert(s, "dolby-vision-rpu"@, rpu.temp_file@, "dolby-vision-rpu"@);
    match dv_profile_param(rpu.profile) {
        Some(p) => {
            lemma_insert_distinct(a, "dolby-vision-profile"@, p);
            law_get_after_insert(a, "dolby-vision-profile"@, p, "dolby-vision-rpu"@);
        },
        None => {},
    }
    lemma_insert_distinct(b, "vbv-bufsize"@, "160000"@);
    crate::params::law_get_after_or_insert(b, "vbv-bufsize"@, "160000"@, "dolby-vision-rpu"@);
    lemma_insert_distinct(b1, "vbv-maxrate"@, "160000"@);
    crate::params::law_get_after_or_insert(b1, "vbv-maxrate"@, "160000"@, "dolby-vision-rpu"@);
    lemma_insert_distinct(c, "output-depth"@, "10"@);
    law_get_after_insert(c, "output-depth"@, "10"@, "dolby-vision-rpu"@);
    lemma_insert_distinct(d, "colorprim"@, "bt2020"@);
    law_get_after_insert(d, "colorprim"@, "bt2020"@, "dolby-vision-rpu"@);
    law_get_after_insert(d, "colorprim"@, "bt2020"@, "output-depth"@);
    lemma_insert_distinct(e, "transfer"@, "smpte2084"@);
    law_get_after_insert(e, "transfer"@, "smpte2084"@, "dolby-vision-rpu"@);
    law_get_after_insert(e, "transfer"@, "smpte2084"@, "output-depth"@);
    law_get_after_insert(e, "transfer"@, "smpte2084"@, "colorprim"@);
    law_get_after_insert(f, "colormatrix"@, "bt2020nc"@, "dolby-vision-rpu"@);
    law_get_after_insert(f, "colormatrix"@, "bt2020nc"@, "output-depth"@);
    law_get_after_insert(f, "colormatrix"@, "bt2020nc"@, "colorprim"@);
    law_get_after_insert(f, "colormatrix"@, "bt2020nc"@, "transfer"@);
}

/// The first profile named `name`.
pub open spec fn find_profile(ps: Seq<EncodingProfile>, name: Seq<char>) -> Option<EncodingProfile>
    decreases ps.len(),
{
    if ps.len() == 0 {
        None
    } else if ps[0].name@ == name {
        Some(ps[0])
    } else {
        find_profile(ps.drop_first(), name)
    }
}

/// The profiles of a content type, in order.
pub open spec fn profiles_of_type(ps: Seq<EncodingProfile>, t: ContentType) -> Seq<EncodingProfile>
    decreases ps.len(),
{
    if ps.len() == 0 {
        Seq::empty()
    } else if ps.last().content_type == t {
        profiles_of_type(ps.drop_last(), t).push(ps.last())
    } else {
        profiles_of_type(ps.drop_last(), t)
    }
}

/// The first of two lookups that finds a profile.
pub open spec fn or_else(a: Option<EncodingProfile>, b: Option<EncodingProfile>) -> Option<
    EncodingProfile,
> {
    if a is Some {
        a
    } else {
        b
    }
}

/// The profile recommended for a content type at a resolution: none where
/// no profile has that content type, else a profile chosen by name, with
/// 4K (3840 wide or 2160 high) choices for some types.
pub open spec fn recommended_profile(
    ps: Seq<EncodingProfile>,
    width: u32,
    height: u32,
    t: ContentType,
) -> Option<EncodingProfile> {
    let is_4k = width >= 3840 || height >= 2160;
    if profiles_of_type(ps, t).len() == 0 {
        None
    } else {
        match t {
            ContentType::Anime => find_profile(ps, "anime"@),
            ContentType::ClassicAnime => find_profile(ps, "classic_anime"@),
            ContentType::Animation3D => if is_4k {
                or_else(find_profile(ps, "3d_complex"@), find_profile(ps, "3d_cgi"@))
            } else {
                find_profile(ps, "3d_cgi"@)
            },
            ContentType::HeavyGrain => find_profile(ps, "heavy_grain"@),
            ContentType::LightGrain => or_else(
                find_profile(ps, "movie_mid_grain"@),
                find_profile(ps, "movie"@),
            ),
            ContentType::Film | ContentType::Action | ContentType::CleanDigital => if is_4k {
                find_profile(ps, "movie"@)
            } else {
                or_else(find_profile(ps, "movie_size_focused"@), find_profile(ps, "movie"@))
            },
            ContentType::Mixed => if is_4k {
                or_else(find_profile(ps, "4k"@), find_profile(ps, "movie"@))
            } else {
                find_profile(ps, "movie"@)
            },
        }
    }
}

/// Some profile is called `n`.
pub open spec fn has_named(ps: Seq<EncodingProfile>, n: Seq<char>) -> bool {
    exists|i: int| 0 <= i < ps.len() && (#[trigger] ps[i]).name@ == n
}

/// A profile was found, and it is called `n`.
pub open spec fn found_named(r: Option<EncodingProfile>, n: Seq<char>) -> bool {
    r matches Some(p) && p.name@ == n
}

/// A lookup by name finds a profile exactly when one has that name, and
/// what it finds is a profile of the list with that name.
pub proof fn lemma_find_profile(ps: Seq<EncodingProfile>, n: Seq<char>)
    ensures
        find_profile(ps, n) is Some <==> has_named(ps, n),
        find_profile(ps, n) matches Some(p) ==> p.name@ == n && ps.contains(p),
    decreases ps.len(),
{
    if ps.len() > 0 {
        let rest = ps.drop_first();
        lemma_find_profile(rest, n);
        if has_named(rest, n) {
            let i = choose|i: int| 0 <= i < rest.len() && (#[trigger] rest[i]).name@ == n;
            assert(ps[i + 1] == rest[i]);
        }
        if has_named(ps, n) && ps[0].name@ != n {
            let i = choose|i: int| 0 <= i < ps.len() && (#[trigger] ps[i]).name@ == n;
            assert(rest[i - 1] == ps[i]);
        }
        if let Some(p) = find_profile(rest, n) {
            let k = choose|k: int| 0 <= k < rest.len() && rest[k] == p;
            assert(ps[k + 1] == p);
        }
        assert(ps[0] == ps[0]);
    }
}

/// A profile of the content type exists for every recommendation.
pub proof fn lemma_profiles_of_type(ps: Seq<EncodingProfile>, t: ContentType)
    ensures
        profiles_of_type(ps, t).len() > 0 <==> exists|i: int|
            0 <= i < ps.len() && (#[trigger] ps[i]).content_type == t,
    decreases ps.len(),
{
    if ps.len() > 0 {
        let init = ps.drop_last();
        lemma_profiles_of_type(init, t);
        if exists|i: int| 0 <= i < init.len() && (#[trigger] init[i]).content_type == t {
            let i = choose|i: int| 0 <= i < init.len() && (#[trigger] init[i]).content_type == t;
            assert(ps[i] == init[i]);
        }
        if exists|i: int| 0 <= i < ps.len() && (#[trigger] ps[i]).content_type == t {
            let i = choose|i: int| 0 <= i < ps.len() && (#[trigger] ps[i]).content_type == t;
            if i < ps.len() - 1 {
                assert(init[i] == ps[i]);
            }
        }
    }
}

/// Automatic profile choice by name. A recommendation is always one of the
/// loaded profiles, and is made only where some profile has the content
/// type. Where one does, light-grain content gets `movie_mid_grain` when it
/// is loaded and `movie` only in its absence; anime gets `anime`, classic
/// anime `classic_anime`, heavy grain `heavy_grain`; 3D animation gets
/// `3d_cgi` below 4K and `3d_complex` (else `3d_cgi`) at 4K; film, action
/// and clean digital content get `movie` at 4K and `movie_size_focused`
/// (else `movie`) below; mixed content gets `movie` below 4K and `4k` (else
/// `movie`) at 4K.
pub proof fn law_recommendation_by_name(
    ps: Seq<EncodingProfile>,
    width: u32,
    height: u32,
    t: ContentType,
)
    ensures
        recommended_profile(ps, width, height, t) matches Some(p) ==> ps.contains(p) && exists|i: int|
            0 <= i < ps.len() && (#[trigger] ps[i]).content_type == t,
        (exists|i: int| 0 <= i < ps.len() && (#[trigger] ps[i]).content_type == t) ==> {
            let r = recommended_profile(ps, width, height, t);
            let k4 = width >= 3840 || height >= 2160;
            &&& t == ContentType::LightGrain ==> if has_named(ps, "movie_mid_grain"@) {
                found_named(r, "movie_mid_grain"@)
            } else {
                (r is Some <==> has_named(ps, "movie"@)) && (r is Some ==> found_named(r, "movie"@))
            }
            &&& t == ContentType::Anime ==> (r is Some <==> has_named(ps, "anime"@)) && (r is Some
                ==> found_named(r, "anime"@))
            &&& t == ContentType::ClassicAnime ==> (r is Some <==> has_named(ps, "classic_anime"@))
                && (r is Some ==> found_named(r, "classic_anime"@))
            &&& t == ContentType::HeavyGrain ==> (r is Some <==> has_named(ps, "heavy_grain"@)) && (
            r is Some ==> found_named(r, "heavy_grain"@))
            &&& t == ContentType::Animation3D && !k4 ==> (r is Some <==> has_named(ps, "3d_cgi"@))
                && (r is Some ==> found_named(r, "3d_cgi"@))
            &&& t == ContentType::Animation3D && k4 ==> if has_named(ps, "3d_complex"@) {
                found_named(r, "3d_complex"@)
            } else {
                (r is Some <==> has_named(ps, "3d_cgi"@)) && (r is Some ==> found_named(
                    r,
                    "3d_cgi"@,
                ))
            }
            &&& (t == ContentType::Film || t == ContentType::Action || t
                == ContentType::CleanDigital) && k4 ==> (r is Some <==> has_named(ps, "movie"@)) && (
            r is Some ==> found_named(r, "movie"@))
            &&& (t == ContentType::Film || t == ContentType::Action || t
                == ContentType::CleanDigital) && !k4 ==> if has_named(ps, "movie_size_focused"@) {
                found_named(r, "movie_size_focused"@)
            } else {
                (r is Some <==> has_named(ps, "movie"@)) && (r is Some ==> found_named(r, "movie"@))
            }
            &&& t == ContentType::Mixed && !k4 ==> (r is Some <==> has_named(ps, "movie"@)) && (r
                is Some ==> found_named(r, "movie"@))
            &&& t == ContentType::Mixed && k4 ==> if has_named(ps, "4k"@) {
                found_named(r, "4k"@)
            } else {
                (r is Some <==> has_named(ps, "movie"@)) && (r is Some ==> found_named(r, "movie"@))
            }
        },
{
    lemma_profiles_of_type(ps, t);
    lemma_find_profile(ps, "movie_mid_grain"@);
    lemma_find_profile(ps, "movie"@);
    lemma_find_profile(ps, "anime"@);
    lemma_find_profile(ps, "classic_anime"@);
    lemma_find_profile(ps, "heavy_grain"@);
    lemma_find_profile(ps, "3d_cgi"@);
    lemma_find_profile(ps, "3d_complex"@);
    lemma_find_profile(ps, "movie_size_focused"@);
    lemma_find_profile(ps, "4k"@);
}

/// A reference, dereferenced.
pub open spec fn deref_all(v: Seq<&EncodingProfile>) -> Seq<EncodingProfile> {
    v.map_values(|p: &EncodingProfile| *p)
}

/// The names of raw profiles are distinct (as the keys of a map are).
pub open spec fn raw_names_distinct(v: Seq<(String, RawProfile)>) -> bool {
    forall|i: int, j: int|
        0 <= i < v.len() && 0 <= j < v.len() && i != j ==> (#[trigger] v[i]).0@ != (
        #[trigger] v[j]).0@
}

/// The encoding profiles known to the application.
pub struct ProfileManager {
    profiles: Vec<EncodingProfile>,
}

impl ProfileManager {
    /// The profiles, in load order.
    pub closed spec fn profiles(&self) -> Seq<EncodingProfile> {
        self.profiles@
    }

    pub fn new() -> (r: Self)
        ensures
            r.profiles().len() == 0,
    {
        ProfileManager { profiles: Vec::new() }
    }

    /// Replaces the profiles by those of `raw_profiles`, converted in
    /// order; on the first conversion error the profiles converted before
    /// it stay and the error is returned.
    pub fn load_profiles(&mut self, raw_profiles: Vec<(String, RawProfile)>) -> (r: Result<
        (),
        Error,
    >)
        requires
            raw_names_distinct(raw_profiles@),
        ensures
            final(self).profiles().len() <= raw_profiles@.len(),
            forall|i: int|
                0 <= i < final(self).profiles().len() ==> converted_from(
                    #[trigger] final(self).profiles()[i],
                    raw_profiles@[i].0,
                    raw_profiles@[i].1,
                ) && raw_convertible(raw_profiles@[i].1),
            r is Ok ==> final(self).profiles().len() == raw_profiles@.len(),
            r matches Err(e) ==> final(self).profiles().len() < raw_profiles@.len() && !raw_convertible(
                raw_profiles@[final(self).profiles().len() as int].1,
            ) && e@ == raw_conversion_error(raw_profiles@[final(self).profiles().len() as int].1),
    {
        self.profiles = Vec::new();
        let mut rest = raw_profiles;
        let ghost all = rest@;
        let count = rest.len();
        let mut i: usize = 0;
        while i < count
            invariant
                i + rest@.len() == all.len(),
                count == all.len(),
                all == raw_profiles@,
                rest@ == all.subrange(i as int, all.len() as int),
                self.profiles@.len() == i,
                forall|j: int|
                    0 <= j < i ==> converted_from(#[trigger] self.profiles@[j], all[j].0, all[j].1)
                        && raw_convertible(all[j].1),
            decreases rest@.len(),
        {
            let (name, raw) = rest.remove(0);
            assert(all[i as int].0 == name);
            assert(all[i as int].1 == raw);
            let ghost nv = name;
            let ghost rv = raw;
            match EncodingProfile::from_raw(name, raw) {
                Ok(p) => {
                    assert(raw_convertible(rv));
                    assert(converted_from(p, nv, rv));
                    self.profiles.push(p);
                    assert(converted_from(self.profiles@[i as int], all[i as int].0, all[i as int].1));
                },
                Err(e) => {
                    return Err(e);
                },
            }
            i = i + 1;
            assert(rest@ =~= all.subrange(i as int, all.len() as int));
        }
        Ok(())
    }

    /// The profile named `name`.
    pub fn get_profile(&self, name: &str) -> (r: Option<&EncodingProfile>)
        ensures
            opt_deref(r) == find_profile(self.profiles(), name@),
    {
        let mut i: usize = 0;
        assert(self.profiles@.subrange(0, self.profiles@.len() as int) =~= self.profiles@);
        while i < self.profiles.len()
            invariant
                i <= self.profiles@.len(),
                find_profile(self.profiles@, name@) == find_profile(
                    self.profiles@.subrange(i as int, self.profiles@.len() as int),
                    name@,
                ),
            decreases self.profiles.len() - i,
        {
            let ghost rest = self.profiles@.subrange(i as int, self.profiles@.len() as int);
            assert(rest.drop_first() =~= self.profiles@.subrange(i + 1, self.profiles@.len() as int));
            if str_eq(self.profiles[i].name.as_str(), name) {
                return Some(&self.profiles[i]);
            }
            i = i + 1;
        }
        None
    }

    /// The names of the profiles, in order.
    pub fn list_profiles(&self) -> (r: Vec<&String>)
        ensures
            r@.len() == self.profiles().len(),
            forall|i: int| 0 <= i < r@.len() ==> *(#[trigger] r@[i]) == self.profiles()[i].name,
    {
        let mut v: Vec<&String> = Vec::new();
        let mut i: usize = 0;
        while i < self.profiles.len()
            invariant
                i <= self.profiles@.len(),
                v@.len() == i,
                forall|j: int| 0 <= j < i ==> *(#[trigger] v@[j]) == self.profiles@[j].name,
            decreases self.profiles.len() - i,
        {
            v.push(&self.profiles[i].name);
            i = i + 1;
        }
        v
    }

    /// The profiles of a content type, in order.
    pub fn get_profiles_by_content_type(&self, content_type: ContentType) -> (r: Vec<
        &EncodingProfile,
    >)
        ensures
            deref_all(r@) == profiles_of_type(self.profiles(), content_type),
    {
        let mut v: Vec<&EncodingProfile> = Vec::new();
        let mut i: usize = 0;
        while i < self.profiles.len()
            invariant
                i <= self.profiles@.len(),
                deref_all(v@) == profiles_of_type(self.profiles@.subrange(0, i as int), content_type),
            decreases self.profiles.len() - i,
        {
            let ghost next = self.profiles@.subrange(0, i + 1);
            assert(next.drop_last() =~= self.profiles@.subrange(0, i as int));
            if self.profiles[i].content_type == content_type {
                v.push(&self.profiles[i]);
                assert(deref_all(v@) =~= profiles_of_type(next, content_type));
            }
            i = i + 1;
        }
        assert(self.profiles@.subrange(0, self.profiles@.len() as int) =~= self.profiles@);
        v
    }

    fn first_of(&self, a: &str, b: &str) -> (r: Option<&EncodingProfile>)
        ensures
            opt_deref(r) == or_else(
                find_profile(self.profiles(), a@),
                find_profile(self.profiles(), b@),
            ),
    {
        match self.get_profile(a) {
            Some(p) => Some(p),
            None => self.get_profile(b),
        }
    }

    /// The profile recommended for a content type at a resolution.
    pub fn recommend_profile_for_resolution(
        &self,
        width: u32,
        height: u32,
        content_type: ContentType,
    ) -> (r: Option<&EncodingProfile>)
        ensures
            opt_deref(r) == recommended_profile(self.profiles(), width, height, content_type),
    {
        let profiles = self.get_profiles_by_content_type(content_type);
        if profiles.len() == 0 {
            return None;
        }
        let is_4k = width >= 3840 || height >= 2160;
        match content_type {
            ContentType::Anime => self.get_profile("anime"),
            ContentType::ClassicAnime => self.get_profile("classic_anime"),
            ContentType::Animation3D => if is_4k {
                self.first_of("3d_complex", "3d_cgi")
            } else {
                self.get_profile("3d_cgi")
            },
            ContentType::Film => if is_4k {
                self.get_profile("movie")
            } else {
                self.first_of("movie_size_focused", "movie")
            },
            ContentType::HeavyGrain => self.get_profile("heavy_grain"),
            ContentType::LightGrain => self.first_of("movie_mid_grain", "movie"),
            ContentType::Action | ContentType::CleanDigital => if is_4k {
                self.get_profile("movie")
            } else {
                self.first_of("movie_size_focused", "movie")
            },
            ContentType::Mixed => if is_4k {
                self.first_of("4k", "movie")
            } else {
                self.get_profile("movie")
            },
        }
    }
}

impl Default for ProfileManager {
    fn default() -> (r: Self)
        ensures
            r.profiles().len() == 0,
    {
        Self::new()
    }
}

} // verus!
