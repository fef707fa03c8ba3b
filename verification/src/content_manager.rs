//! How content is encoded once HDR, Dolby Vision and HDR10+ analysis is in:
//! the encoding approach, whether HDR10+ metadata is processed, and the
//! VBV limits that Dolby Vision needs.

use vstd::prelude::*;
use crate::analysis::dolby_vision::{DolbyVisionDetector, DolbyVisionInfo, DolbyVisionProfile};
use crate::hdr::types::HdrFormat;

verus! {

/// How a stream is encoded, by priority: Dolby Vision with HDR10+, Dolby
/// Vision, HDR, SDR.
#[derive(Debug, Clone, Copy, PartialEq, Eq, Structural)]
pub enum ApproachKind {
    Sdr,
    Hdr,
    DolbyVision,
    DolbyVisionWithHdr10Plus,
}

/// The approach for a stream: Dolby Vision where a detector (present only
/// when Dolby Vision handling is configured and enabled) preserves it, with
/// HDR10+ when the HDR format is HDR10+ or HDR10+ metadata was extracted;
/// otherwise HDR for any HDR format, else SDR.
pub open spec fn approach_for(
    dv: DolbyVisionInfo,
    preserves: bool,
    format: HdrFormat,
    hdr10plus_extracted: bool,
) -> ApproachKind {
    if dv.profile != DolbyVisionProfile::NotDolbyVision && preserves {
        if format == HdrFormat::HDR10Plus || hdr10plus_extracted {
            ApproachKind::DolbyVisionWithHdr10Plus
        } else {
            ApproachKind::DolbyVision
        }
    } else if format != HdrFormat::Sdr {
        ApproachKind::Hdr
    } else {
        ApproachKind::Sdr
    }
}

/// Whether a detector keeps the stream's Dolby Vision.
pub open spec fn detector_preserves(detector: Option<&DolbyVisionDetector>, dv: DolbyVisionInfo) -> bool {
    match detector {
        Some(d) => d.enabled && dv.profile != DolbyVisionProfile::NotDolbyVision && (dv.profile
            == DolbyVisionProfile::Profile7 ==> d.preserve_profile_7),
        None => false,
    }
}

/// Chooses the encoding approach of a stream.
pub fn determine_encoding_approach(
    detector: Option<&DolbyVisionDetector>,
    dv: &DolbyVisionInfo,
    format: HdrFormat,
    hdr10plus_extracted: bool,
) -> (r: ApproachKind)
    ensures
        r == approach_for(*dv, detector_preserves(detector, *dv), format, hdr10plus_extracted),
{
    if dv.is_dolby_vision() {
        if let Some(d) = detector {
            if d.should_preserve_dolby_vision(dv) {
                if format == HdrFormat::HDR10Plus || hdr10plus_extracted {
                    return ApproachKind::DolbyVisionWithHdr10Plus;
                }
                return ApproachKind::DolbyVision;
            }
        }
    }
    if format != HdrFormat::Sdr {
        ApproachKind::Hdr
    } else {
        ApproachKind::Sdr
    }
}

/// What is done about HDR10+ dynamic metadata.
#[derive(Debug, Clone, Copy, PartialEq, Eq, Structural)]
pub enum Hdr10PlusStep {
    Skip,
    ExtractOnly,
    DualFormat,
}

/// HDR10+ metadata is looked for, when its processing is enabled, in HDR10
/// and HDR10+ streams and in Dolby Vision streams; for Dolby Vision both
/// formats are processed together.
pub open spec fn hdr10plus_step_for(enabled: bool, format: HdrFormat, is_dv: bool) -> Hdr10PlusStep {
    if !enabled {
        Hdr10PlusStep::Skip
    } else if is_dv {
        Hdr10PlusStep::DualFormat
    } else if format == HdrFormat::HDR10Plus || format == HdrFormat::HDR10 {
        Hdr10PlusStep::ExtractOnly
    } else {
        Hdr10PlusStep::Skip
    }
}

pub fn hdr10plus_step(enabled: bool, format: HdrFormat, dv: &DolbyVisionInfo) -> (r: Hdr10PlusStep)
    ensures
        r == hdr10plus_step_for(enabled, format, dv.profile != DolbyVisionProfile::NotDolbyVision),
{
    if !enabled {
        return Hdr10PlusStep::Skip;
    }
    if dv.is_dolby_vision() {
        Hdr10PlusStep::DualFormat
    } else if format == HdrFormat::HDR10Plus || format == HdrFormat::HDR10 {
        Hdr10PlusStep::ExtractOnly
    } else {
        Hdr10PlusStep::Skip
    }
}

/// The VBV buffer and maximum rate that an approach requires: none for SDR
/// and HDR; for Dolby Vision those configured, else 160000 each.
pub open spec fn vbv_for(kind: ApproachKind, configured: Option<(u32, u32)>) -> Option<(u32, u32)> {
    match kind {
        ApproachKind::Sdr | ApproachKind::Hdr => None,
        _ => match configured {
            Some(c) => Some(c),
            None => Some((160000, 160000)),
        },
    }
}

pub fn vbv_requirements(kind: ApproachKind, configured: Option<(u32, u32)>) -> (r: Option<(u32, u32)>)
    ensures
        r == vbv_for(kind, configured),
{
    match kind {
        ApproachKind::Sdr | ApproachKind::Hdr => None,
        _ => match configured {
            Some(c) => Some(c),
            None => Some((160000, 160000)),
        },
    }
}

/// Dolby Vision encodes always run with VBV limits; SDR and HDR encodes
/// never get them from the approach.
pub proof fn law_dolby_vision_requires_vbv(kind: ApproachKind, configured: Option<(u32, u32)>)
    ensures
        (kind == ApproachKind::DolbyVision || kind == ApproachKind::DolbyVisionWithHdr10Plus)
            <==> vbv_for(kind, configured) is Some,
{
}

/// Dolby Vision is chosen only for Dolby Vision content that the detector
/// keeps, and content with an HDR format is never encoded as SDR.
pub proof fn law_approach_respects_content(
    dv: DolbyVisionInfo,
    preserves: bool,
    format: HdrFormat,
    hdr10plus_extracted: bool,
)
    ensures
        ({
            let k = approach_for(dv, preserves, format, hdr10plus_extracted);
            &&& (k == ApproachKind::DolbyVision || k == ApproachKind::DolbyVisionWithHdr10Plus) ==> (
            preserves && dv.profile != DolbyVisionProfile::NotDolbyVision)
            &&& format != HdrFormat::Sdr ==> k != ApproachKind::Sdr
        }),
{
}

/// The VBV settings that an encode applies: where VBV is required, the
/// buffer and maximum rate given, 160000 for each that is missing.
pub fn get_vbv_settings(requires_vbv: bool, bufsize: Option<u32>, maxrate: Option<u32>) -> (r: Option<(u32, u32)>)
    ensures
        !requires_vbv ==> r is None,
        requires_vbv ==> r == Some((
            match bufsize {
                Some(b) => b,
                None => 160000u32,
            },
            match maxrate {
                Some(m) => m,
                None => 160000u32,
            },
        )),
{
    if requires_vbv {
        let b = match bufsize {
            Some(b) => b,
            None => 160000,
        };
        let m = match maxrate {
            Some(m) => m,
            None => 160000,
        };
        Some((b, m))
    } else {
        None
    }
}

} // verus!
