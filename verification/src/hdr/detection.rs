//! HDR detection from ffprobe's description of a video stream: colour
//! signalling, static metadata and HDR10+ dynamic metadata.

use vstd::prelude::*;
use crate::error::{Error, ErrorKind};
use crate::hdr::metadata::{content_light_level_spec, HdrMetadataExtractor};
use crate::hdr::types::{
    ColorSpace, ContentLightLevelInfo, EnhancedVideoMetadata, HdrFormat, TransferFunction,
};
use crate::text::{
    concat, concat3, is_u32_text, owned, parse_u32, seq_contains, str_contains, str_eq,
    to_lowercase, u32_text_value, unicode_lowercase,
};

verus! {

/// A side-data record as ffprobe prints it; each field is its string value
/// where the record has one.
#[derive(Debug, Clone, PartialEq, Eq)]
pub struct SideDataEntry {
    pub side_data_type: Option<String>,
    pub red_x: Option<String>,
    pub red_y: Option<String>,
    pub green_x: Option<String>,
    pub green_y: Option<String>,
    pub blue_x: Option<String>,
    pub blue_y: Option<String>,
    pub white_point_x: Option<String>,
    pub white_point_y: Option<String>,
    pub max_luminance: Option<String>,
    pub min_luminance: Option<String>,
    pub max_content: Option<String>,
    pub max_average: Option<String>,
}

/// The first video stream of an ffprobe report; each field is its string
/// value where the stream has one.
#[derive(Debug, Clone, PartialEq, Eq)]
pub struct ProbeStream {
    pub color_space: Option<String>,
    pub color_transfer: Option<String>,
    pub color_primaries: Option<String>,
    pub bits_per_raw_sample: Option<String>,
    pub chroma_location: Option<String>,
    /// The stream's side data, where it has a list of it.
    pub side_data_list: Option<Vec<SideDataEntry>>,
}

/// What HDR detection reads of an ffprobe report.
#[derive(Debug, Clone, PartialEq, Eq)]
pub struct ProbeReport {
    /// The first stream, where there is one.
    pub first_stream: Option<ProbeStream>,
    /// The frames, where the report lists them; for each frame its side
    /// data, where it has a list of it.
    pub frames: Option<Vec<Option<Vec<SideDataEntry>>>>,
}

/// The side-data type names that always mean HDR10+ dynamic metadata.
pub open spec fn is_known_hdr10plus_name(t: Seq<char>) -> bool {
    t == "HDR dynamic metadata (SMPTE 2094-40)"@ || t == "HDR dynamic metadata SMPTE2094-40"@ || t
        == "HDR Dynamic Metadata SMPTE2094-40 (HDR10+)"@ || t == "HDR10+ dynamic metadata"@ || t
        == "Dynamic HDR10+ metadata"@ || t == "SMPTE2094-40"@ || t == "SMPTE 2094-40"@
}

/// A side-data type names HDR10+ dynamic metadata: a known name, or (in any
/// letter case) SMPTE 2094-40, HDR10+ and "dynamic", or "dynamic" and
/// "metadata" with 2094 or HDR10+.
pub open spec fn is_hdr10plus_type(t: Seq<char>) -> bool {
    let l = unicode_lowercase(t);
    ||| is_known_hdr10plus_name(t)
    ||| seq_contains(l, "smpte2094-40"@)
    ||| seq_contains(l, "smpte 2094-40"@)
    ||| seq_contains(l, "smpte2094_40"@)
    ||| seq_contains(l, "hdr10+"@) && seq_contains(l, "dynamic"@)
    ||| seq_contains(l, "dynamic"@) && seq_contains(l, "metadata"@) && (seq_contains(l, "2094"@)
        || seq_contains(l, "hdr10+"@))
}

/// The characters of an optional string.
pub open spec fn opt_chars(o: Option<String>) -> Option<Seq<char>> {
    match o {
        Some(s) => Some(s@),
        None => None,
    }
}

/// The x265 mastering display of a record: all ten fields, as
/// `G(gx,gy)B(bx,by)R(rx,ry)WP(wx,wy)L(max,min)`.
pub open spec fn mastering_display_text(e: SideDataEntry) -> Option<Seq<char>> {
    if e.red_x is Some && e.red_y is Some && e.green_x is Some && e.green_y is Some
        && e.blue_x is Some && e.blue_y is Some && e.white_point_x is Some && e.white_point_y
        is Some && e.max_luminance is Some && e.min_luminance is Some {
        Some(
            "G("@ + e.green_x.unwrap()@ + ","@ + e.green_y.unwrap()@ + ")B("@ + e.blue_x.unwrap()@
                + ","@ + e.blue_y.unwrap()@ + ")R("@ + e.red_x.unwrap()@ + ","@
                + e.red_y.unwrap()@ + ")WP("@ + e.white_point_x.unwrap()@ + ","@
                + e.white_point_y.unwrap()@ + ")L("@ + e.max_luminance.unwrap()@ + ","@
                + e.min_luminance.unwrap()@ + ")"@,
        )
    } else {
        None
    }
}

/// The light level of a record: `max_content,max_average`.
pub open spec fn light_level_text(e: SideDataEntry) -> Option<Seq<char>> {
    if e.max_content is Some && e.max_average is Some {
        Some(e.max_content.unwrap()@ + ","@ + e.max_average.unwrap()@)
    } else {
        None
    }
}

/// What the stream's side data gives: the last mastering display, the last
/// light level, and whether any record is HDR10+ dynamic metadata.
pub open spec fn scan_side_data(es: Seq<SideDataEntry>) -> (
    Option<Seq<char>>,
    Option<Seq<char>>,
    bool,
)
    decreases es.len(),
{
    if es.len() == 0 {
        (None, None, false)
    } else {
        let (md, cll, dynamic) = scan_side_data(es.drop_last());
        let e = es.last();
        match e.side_data_type {
            None => (md, cll, dynamic),
            Some(t) => if t@ == "Mastering display metadata"@ {
                (
                    match mastering_display_text(e) {
                        Some(m) => Some(m),
                        None => md,
                    },
                    cll,
                    dynamic,
                )
            } else if t@ == "Content light level metadata"@ {
                (
                    md,
                    match light_level_text(e) {
                        Some(c) => Some(c),
                        None => cll,
                    },
                    dynamic,
                )
            } else {
                (md, cll, dynamic || is_hdr10plus_type(t@))
            },
        }
    }
}

/// Some record names HDR10+ dynamic metadata.
pub open spec fn any_hdr10plus(es: Seq<SideDataEntry>) -> bool {
    exists|i: int|
        0 <= i < es.len() && (#[trigger] es[i]).side_data_type is Some && is_hdr10plus_type(
            es[i].side_data_type.unwrap()@,
        )
}

/// Some of the first three frames has HDR10+ dynamic metadata.
pub open spec fn frames_have_hdr10plus(frames: Seq<Option<Vec<SideDataEntry>>>) -> bool {
    exists|i: int|
        0 <= i < frames.len() && i < 3 && (#[trigger] frames[i]) is Some && any_hdr10plus(
            frames[i].unwrap()@,
        )
}

/// A `u8` parsed as `u8::from_str` does.
pub open spec fn u8_field(s: Seq<char>) -> Option<u8> {
    if is_u32_text(s) && u32_text_value(s) <= 255 {
        Some(u32_text_value(s) as u8)
    } else {
        None
    }
}

/// What a probe report gives for HDR detection; an error where it has no
/// stream.
pub open spec fn enhanced_metadata_spec(p: ProbeReport) -> Option<
    (
        Option<Seq<char>>,
        Option<Seq<char>>,
        Option<Seq<char>>,
        Option<Seq<char>>,
        Option<Seq<char>>,
        bool,
        Option<u8>,
        Option<Seq<char>>,
    ),
> {
    match p.first_stream {
        None => None,
        Some(s) => {
            let (md, cll, dynamic) = match s.side_data_list {
                Some(l) => scan_side_data(l@),
                None => (None, None, false),
            };
            let dynamic2 = dynamic || (p.frames is Some && frames_have_hdr10plus(
                p.frames.unwrap()@,
            ));
            Some(
                (
                    opt_chars(s.color_space),
                    opt_chars(s.color_transfer),
                    opt_chars(s.color_primaries),
                    md,
                    cll,
                    dynamic2,
                    match s.bits_per_raw_sample {
                        Some(b) => u8_field(b@),
                        None => None,
                    },
                    opt_chars(s.chroma_location),
                ),
            )
        },
    }
}

/// Enhanced metadata as plain values.
pub open spec fn enhanced_view(m: EnhancedVideoMetadata) -> (
    Option<Seq<char>>,
    Option<Seq<char>>,
    Option<Seq<char>>,
    Option<Seq<char>>,
    Option<Seq<char>>,
    bool,
    Option<u8>,
    Option<Seq<char>>,
) {
    (
        opt_chars(m.color_space),
        opt_chars(m.transfer_function),
        opt_chars(m.color_primaries),
        opt_chars(m.master_display_metadata),
        opt_chars(m.content_light_level),
        m.has_dynamic_metadata,
        m.bit_depth,
        opt_chars(m.chroma_subsampling),
    )
}

/// Contains `bt2020` or `rec2020`.
pub open spec fn says_bt2020(t: Seq<char>) -> bool {
    seq_contains(t, "bt2020"@) || seq_contains(t, "rec2020"@)
}

/// The HDR format the signalling shows: PQ transfer is HDR10 (HDR10+ with
/// dynamic metadata), HLG transfer is HLG; BT.2020 colour space and
/// primaries without a known transfer count as HDR10; SDR otherwise.
pub open spec fn hdr_format_of(
    transfer: Option<Seq<char>>,
    color_space: Option<Seq<char>>,
    primaries: Option<Seq<char>>,
    dynamic: bool,
) -> HdrFormat {
    if transfer is Some && seq_contains(transfer.unwrap(), "smpte2084"@) {
        if dynamic {
            HdrFormat::HDR10Plus
        } else {
            HdrFormat::HDR10
        }
    } else if transfer is Some && seq_contains(transfer.unwrap(), "arib-std-b67"@) {
        HdrFormat::HLG
    } else if color_space is Some && primaries is Some && says_bt2020(color_space.unwrap())
        && says_bt2020(primaries.unwrap()) {
        HdrFormat::HDR10
    } else {
        HdrFormat::Sdr
    }
}

/// HDR10+ is detected only where dynamic metadata is present; a PQ
/// (`smpte2084`) transfer is HDR10+ with dynamic metadata and HDR10
/// without, so the two differ; an HLG (`arib-std-b67`) transfer without PQ
/// is HLG whatever else is signalled.
pub proof fn law_pq_dynamic_metadata_is_hdr10plus(
    transfer: Option<Seq<char>>,
    color_space: Option<Seq<char>>,
    primaries: Option<Seq<char>>,
    dynamic: bool,
)
    ensures
        hdr_format_of(transfer, color_space, primaries, dynamic) == HdrFormat::HDR10Plus ==> dynamic,
        transfer matches Some(t) && seq_contains(t, "smpte2084"@) ==> {
            &&& hdr_format_of(transfer, color_space, primaries, true) == HdrFormat::HDR10Plus
            &&& hdr_format_of(transfer, color_space, primaries, false) == HdrFormat::HDR10
            &&& hdr_format_of(transfer, color_space, primaries, true) != hdr_format_of(
                transfer,
                color_space,
                primaries,
                false,
            )
        },
        transfer matches Some(t) && seq_contains(t, "arib-std-b67"@) && !seq_contains(
            t,
            "smpte2084"@,
        ) ==> hdr_format_of(transfer, color_space, primaries, dynamic) == HdrFormat::HLG,
{
}

/// The colour space a raw name shows (BT.709 where none does).
pub open spec fn color_space_of(raw: Option<Seq<char>>) -> ColorSpace {
    match raw {
        Some(cs) => if says_bt2020(cs) {
            ColorSpace::Bt2020
        } else if seq_contains(cs, "bt709"@) || seq_contains(cs, "rec709"@) {
            ColorSpace::Bt709
        } else if seq_contains(cs, "dci-p3"@) {
            ColorSpace::DciP3
        } else if seq_contains(cs, "display-p3"@) {
            ColorSpace::DisplayP3
        } else {
            ColorSpace::Bt709
        },
        None => ColorSpace::Bt709,
    }
}

/// The transfer function a raw name shows (BT.709 where none does).
pub open spec fn transfer_function_of(raw: Option<Seq<char>>) -> TransferFunction {
    match raw {
        Some(tf) => if seq_contains(tf, "smpte2084"@) {
            TransferFunction::Smpte2084
        } else if seq_contains(tf, "arib-std-b67"@) {
            TransferFunction::AribStdB67
        } else if seq_contains(tf, "bt2020-10"@) {
            TransferFunction::Bt2020_10
        } else if seq_contains(tf, "bt2020-12"@) {
            TransferFunction::Bt2020_12
        } else {
            TransferFunction::Bt709
        },
        None => TransferFunction::Bt709,
    }
}

/// The HDR characteristics detection derives from enhanced metadata; the
/// mastering display stays in its raw form.
#[derive(Debug, Clone, PartialEq, Eq)]
pub struct HdrCharacteristics {
    pub format: HdrFormat,
    pub color_space: ColorSpace,
    pub transfer_function: TransferFunction,
    pub color_primaries: ColorSpace,
    pub content_light_level: Option<ContentLightLevelInfo>,
    pub raw_color_space: Option<String>,
    pub raw_transfer: Option<String>,
    pub raw_primaries: Option<String>,
}

/// Detects HDR formats from ffprobe reports.
pub struct HdrDetector {
    /// Whether HDR detection runs at all.
    pub enabled: bool,
}

pub(crate) fn opt_copy(o: &Option<String>) -> (r: Option<String>)
    ensures
        opt_chars(r) == opt_chars(*o),
{
    match o {
        Some(s) => Some(s.clone()),
        None => None,
    }
}

impl HdrDetector {
    pub fn new(enabled: bool) -> (r: Self)
        ensures
            r.enabled == enabled,
    {
        HdrDetector { enabled }
    }

    /// Whether a side-data type names HDR10+ dynamic metadata.
    pub fn is_hdr10plus_dynamic_metadata(&self, side_data_type: &str) -> (r: bool)
        ensures
            r == is_hdr10plus_type(side_data_type@),
    {
        let t = side_data_type;
        if str_eq(t, "HDR dynamic metadata (SMPTE 2094-40)") || str_eq(
            t,
            "HDR dynamic metadata SMPTE2094-40",
        ) || str_eq(t, "HDR Dynamic Metadata SMPTE2094-40 (HDR10+)") || str_eq(
            t,
            "HDR10+ dynamic metadata",
        ) || str_eq(t, "Dynamic HDR10+ metadata") || str_eq(t, "SMPTE2094-40") || str_eq(
            t,
            "SMPTE 2094-40",
        ) {
            return true;
        }
        let lower = to_lowercase(t);
        let l = lower.as_str();
        if str_contains(l, "smpte2094-40") || str_contains(l, "smpte 2094-40") || str_contains(
            l,
            "smpte2094_40",
        ) {
            return true;
        }
        if str_contains(l, "hdr10+") && str_contains(l, "dynamic") {
            return true;
        }
        if str_contains(l, "dynamic") && str_contains(l, "metadata") && (str_contains(l, "2094")
            || str_contains(l, "hdr10+")) {
            return true;
        }
        false
    }

    /// The mastering display of a record in x265's form.
    pub fn extract_mastering_display(&self, e: &SideDataEntry) -> (r: Option<String>)
        ensures
            opt_chars(r) == mastering_display_text(*e),
    {
        match (
            &e.red_x,
            &e.red_y,
            &e.green_x,
            &e.green_y,
            &e.blue_x,
            &e.blue_y,
            &e.white_point_x,
            &e.white_point_y,
            &e.max_luminance,
            &e.min_luminance,
        ) {
            (
                Some(rx),
                Some(ry),
                Some(gx),
                Some(gy),
                Some(bx),
                Some(by),
                Some(wx),
                Some(wy),
                Some(maxl),
                Some(minl),
            ) => {
                let mut s = concat3("G(", gx.as_str(), ",");
                s = concat3(s.as_str(), gy.as_str(), ")B(");
                s = concat3(s.as_str(), bx.as_str(), ",");
                s = concat3(s.as_str(), by.as_str(), ")R(");
                s = concat3(s.as_str(), rx.as_str(), ",");
                s = concat3(s.as_str(), ry.as_str(), ")WP(");
                s = concat3(s.as_str(), wx.as_str(), ",");
                s = concat3(s.as_str(), wy.as_str(), ")L(");
                s = concat3(s.as_str(), maxl.as_str(), ",");
                s = concat3(s.as_str(), minl.as_str(), ")");
                Some(s)
            },
            _ => None,
        }
    }

    /// The light level of a record: `max_content,max_average`.
    pub fn extract_content_light_level(&self, e: &SideDataEntry) -> (r: Option<String>)
        ensures
            opt_chars(r) == light_level_text(*e),
    {
        match (&e.max_content, &e.max_average) {
            (Some(a), Some(b)) => Some(concat3(a.as_str(), ",", b.as_str())),
            _ => None,
        }
    }

    fn side_data_has_hdr10plus(&self, es: &Vec<SideDataEntry>) -> (r: bool)
        ensures
            r == any_hdr10plus(es@),
    {
        let mut i: usize = 0;
        while i < es.len()
            invariant
                i <= es@.len(),
                forall|j: int|
                    0 <= j < i ==> !((#[trigger] es@[j]).side_data_type is Some && is_hdr10plus_type(
                        es@[j].side_data_type.unwrap()@,
                    )),
            decreases es.len() - i,
        {
            if let Some(t) = &es[i].side_data_type {
                if self.is_hdr10plus_dynamic_metadata(t.as_str()) {
                    return true;
                }
            }
            i = i + 1;
        }
        false
    }

    fn frames_have_hdr10plus(&self, frames: &Vec<Option<Vec<SideDataEntry>>>) -> (r: bool)
        ensures
            r == frames_have_hdr10plus(frames@),
    {
        let mut i: usize = 0;
        while i < frames.len() && i < 3
            invariant
                i <= frames@.len(),
                i <= 3,
                forall|j: int|
                    0 <= j < i ==> !((#[trigger] frames@[j]) is Some && any_hdr10plus(
                        frames@[j].unwrap()@,
                    )),
            decreases frames.len() - i,
        {
            if let Some(sd) = &frames[i] {
                if self.side_data_has_hdr10plus(sd) {
                    return true;
                }
            }
            i = i + 1;
        }
        false
    }

    /// The enhanced metadata of a probe report: colour signalling, bit
    /// depth, the stream's mastering display and light level, and whether
    /// the stream or one of the first three frames carries HDR10+ dynamic
    /// metadata; an error where the report has no stream.
    pub fn parse_enhanced_metadata(&self, report: &ProbeReport) -> (r: Result<
        EnhancedVideoMetadata,
        Error,
    >)
        ensures
            match enhanced_metadata_spec(*report) {
                None => r matches Err(e) && e@ == (ErrorKind::Parse, "No video stream found"@),
                Some(m) => r matches Ok(v) && enhanced_view(v) == m,
            },
    {
        let stream = match &report.first_stream {
            Some(s) => s,
            None => {
                return Err(Error::parse(owned("No video stream found")));
            },
        };
        let color_space = opt_copy(&stream.color_space);
        let transfer_function = opt_copy(&stream.color_transfer);
        let color_primaries = opt_copy(&stream.color_primaries);
        let bit_depth = match &stream.bits_per_raw_sample {
            Some(b) => match parse_u32(b.as_str()) {
                Some(v) => if v <= 255 {
                    Some(v as u8)
                } else {
                    None
                },
                None => None,
            },
            None => None,
        };
        let chroma_subsampling = opt_copy(&stream.chroma_location);
        let mut master_display_metadata: Option<String> = None;
        let mut content_light_level: Option<String> = None;
        let mut has_dynamic_metadata = false;
        if let Some(list) = &stream.side_data_list {
            let mut i: usize = 0;
            while i < list.len()
                invariant
                    i <= list@.len(),
                    (opt_chars(master_display_metadata), opt_chars(content_light_level), has_dynamic_metadata)
                        == scan_side_data(list@.subrange(0, i as int)),
                decreases list.len() - i,
            {
                let ghost prefix = list@.subrange(0, i as int);
                let ghost next = list@.subrange(0, i + 1);
                assert(next.drop_last() =~= prefix);
                let e = &list[i];
                if let Some(t) = &e.side_data_type {
                    if str_eq(t.as_str(), "Mastering display metadata") {
                        if let Some(md) = self.extract_mastering_display(e) {
                            master_display_metadata = Some(md);
                        }
                    } else if str_eq(t.as_str(), "Content light level metadata") {
                        if let Some(cll) = self.extract_content_light_level(e) {
                            content_light_level = Some(cll);
                        }
                    } else if self.is_hdr10plus_dynamic_metadata(t.as_str()) {
                        has_dynamic_metadata = true;
                    }
                }
                i = i + 1;
            }
            assert(list@.subrange(0, list@.len() as int) =~= list@);
        }
        if !has_dynamic_metadata {
            if let Some(frames) = &report.frames {
                has_dynamic_metadata = self.frames_have_hdr10plus(frames);
            }
        }
        Ok(
            EnhancedVideoMetadata {
                color_space,
                transfer_function,
                color_primaries,
                master_display_metadata,
                content_light_level,
                has_dynamic_metadata,
                bit_depth,
                chroma_subsampling,
            },
        )
    }

    fn contains_bt2020(s: &str) -> (r: bool)
        ensures
            r == says_bt2020(s@),
    {
        str_contains(s, "bt2020") || str_contains(s, "rec2020")
    }

    /// The HDR format the signalling shows.
    pub fn determine_hdr_format(&self, metadata: &EnhancedVideoMetadata) -> (r: HdrFormat)
        ensures
            r == hdr_format_of(
                opt_chars(metadata.transfer_function),
                opt_chars(metadata.color_space),
                opt_chars(metadata.color_primaries),
                metadata.has_dynamic_metadata,
            ),
    {
        if let Some(transfer) = &metadata.transfer_function {
            if str_contains(transfer.as_str(), "smpte2084") {
                if metadata.has_dynamic_metadata {
                    return HdrFormat::HDR10Plus;
                }
                return HdrFormat::HDR10;
            } else if str_contains(transfer.as_str(), "arib-std-b67") {
                return HdrFormat::HLG;
            }
        }
        if let (Some(cs), Some(cp)) = (&metadata.color_space, &metadata.color_primaries) {
            if Self::contains_bt2020(cs.as_str()) && Self::contains_bt2020(cp.as_str()) {
                return HdrFormat::HDR10;
            }
        }
        HdrFormat::Sdr
    }

    /// The colour space a raw name shows.
    pub fn parse_color_space(&self, raw: &Option<String>) -> (r: ColorSpace)
        ensures
            r == color_space_of(opt_chars(*raw)),
    {
        match raw {
            Some(cs) => {
                let c = cs.as_str();
                if Self::contains_bt2020(c) {
                    ColorSpace::Bt2020
                } else if str_contains(c, "bt709") || str_contains(c, "rec709") {
                    ColorSpace::Bt709
                } else if str_contains(c, "dci-p3") {
                    ColorSpace::DciP3
                } else if str_contains(c, "display-p3") {
                    ColorSpace::DisplayP3
                } else {
                    ColorSpace::Bt709
                }
            },
            None => ColorSpace::Bt709,
        }
    }

    /// The transfer function a raw name shows.
    pub fn parse_transfer_function(&self, raw: &Option<String>) -> (r: TransferFunction)
        ensures
            r == transfer_function_of(opt_chars(*raw)),
    {
        match raw {
            Some(tf) => {
                let t = tf.as_str();
                if str_contains(t, "smpte2084") {
                    TransferFunction::Smpte2084
                } else if str_contains(t, "arib-std-b67") {
                    TransferFunction::AribStdB67
                } else if str_contains(t, "bt2020-10") {
                    TransferFunction::Bt2020_10
                } else if str_contains(t, "bt2020-12") {
                    TransferFunction::Bt2020_12
                } else {
                    TransferFunction::Bt709
                }
            },
            None => TransferFunction::Bt709,
        }
    }

    /// The primaries a raw name shows (read as a colour space).
    pub fn parse_color_primaries(&self, raw: &Option<String>) -> (r: ColorSpace)
        ensures
            r == color_space_of(opt_chars(*raw)),
    {
        self.parse_color_space(raw)
    }

    /// The HDR characteristics of enhanced metadata; a light level that does
    /// not parse is dropped.
    pub fn analyze_hdr_characteristics(&self, metadata: &EnhancedVideoMetadata) -> (r:
        HdrCharacteristics)
        ensures
            r.format == hdr_format_of(
                opt_chars(metadata.transfer_function),
                opt_chars(metadata.color_space),
                opt_chars(metadata.color_primaries),
                metadata.has_dynamic_metadata,
            ),
            r.color_space == color_space_of(opt_chars(metadata.color_space)),
            r.transfer_function == transfer_function_of(opt_chars(metadata.transfer_function)),
            r.color_primaries == color_space_of(opt_chars(metadata.color_primaries)),
            match metadata.content_light_level {
                Some(c) => match content_light_level_spec(c@) {
                    Ok(p) => r.content_light_level matches Some(x) && x.max_cll as nat == p.0
                        && x.max_fall as nat == p.1,
                    Err(_) => r.content_light_level is None,
                },
                None => r.content_light_level is None,
            },
            opt_chars(r.raw_color_space) == opt_chars(metadata.color_space),
            opt_chars(r.raw_transfer) == opt_chars(metadata.transfer_function),
            opt_chars(r.raw_primaries) == opt_chars(metadata.color_primaries),
    {
        let content_light_level = match &metadata.content_light_level {
            Some(c) => match HdrMetadataExtractor::parse_content_light_level(c.as_str()) {
                Ok(x) => Some(x),
                Err(_) => None,
            },
            None => None,
        };
        HdrCharacteristics {
            format: self.determine_hdr_format(metadata),
            color_space: self.parse_color_space(&metadata.color_space),
            transfer_function: self.parse_transfer_function(&metadata.transfer_function),
            color_primaries: self.parse_color_primaries(&metadata.color_primaries),
            content_light_level,
            raw_color_space: opt_copy(&metadata.color_space),
            raw_transfer: opt_copy(&metadata.transfer_function),
            raw_primaries: opt_copy(&metadata.color_primaries),
        }
    }

    /// The HDR format of a probe report: SDR where detection is disabled,
    /// else the format its signalling shows; an error where the report has
    /// no stream.
    pub fn analyze_format(&self, report: &ProbeReport) -> (r: Result<HdrFormat, Error>)
        ensures
            !self.enabled ==> (r matches Ok(f) && f == HdrFormat::Sdr),
            self.enabled ==> match enhanced_metadata_spec(*report) {
                None => r matches Err(e) && e@ == (ErrorKind::Parse, "No video stream found"@),
                Some(m) => r matches Ok(f) && f == hdr_format_of(m.1, m.0, m.2, m.5),
            },
    {
        if !self.enabled {
            return Ok(HdrFormat::Sdr);
        }
        match self.parse_enhanced_metadata(report) {
            Ok(m) => Ok(self.determine_hdr_format(&m)),
            Err(e) => Err(e),
        }
    }

    /// Tone mapping is needed for every HDR format.
    pub fn requires_tone_mapping(&self, format: HdrFormat) -> (r: bool)
        ensures
            r == (format != HdrFormat::Sdr),
    {
        format != HdrFormat::Sdr
    }
}

} // verus!
