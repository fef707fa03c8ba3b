//! Colour management: name normalisation, compatibility rules and x265
//! parameter names for colour spaces and transfer functions.

pub mod spaces;
pub mod transfers;

pub use spaces::{all_color_spaces, color_space_hdr_compatible, gamut_coverage_percent};
pub use transfers::{QuantizationStrategy, TransferFunctionUtils};

use vstd::prelude::*;
use crate::hdr::types::{ColorSpace, TransferFunction};
use crate::text::{all_ascii, ascii_lower, concat, str_eq, to_lowercase, unicode_lowercase};

verus! {

/// Colour space named by a lower-cased name; unknown names mean BT.709.
pub open spec fn color_space_from_lower(t: Seq<char>) -> ColorSpace {
    if t == "bt709"@ || t == "rec709"@ || t == "bt.709"@ || t == "rec.709"@ {
        ColorSpace::Bt709
    } else if t == "bt2020"@ || t == "rec2020"@ || t == "bt.2020"@ || t == "rec.2020"@ || t
        == "bt2020nc"@ || t == "bt2020-ncl"@ {
        ColorSpace::Bt2020
    } else if t == "dci-p3"@ || t == "dcip3"@ || t == "p3-dci"@ {
        ColorSpace::DciP3
    } else if t == "display-p3"@ || t == "displayp3"@ || t == "p3-display"@ {
        ColorSpace::DisplayP3
    } else {
        ColorSpace::Bt709
    }
}

/// Transfer function named by a lower-cased name; unknown names mean BT.709.
pub open spec fn transfer_function_from_lower(t: Seq<char>) -> TransferFunction {
    if t == "bt709"@ || t == "rec709"@ || t == "bt.709"@ || t == "rec.709"@ {
        TransferFunction::Bt709
    } else if t == "smpte2084"@ || t == "smpte-2084"@ || t == "st2084"@ || t == "st-2084"@ || t
        == "pq"@ {
        TransferFunction::Smpte2084
    } else if t == "arib-std-b67"@ || t == "arib_std_b67"@ || t == "aribstdb67"@ || t == "hlg"@ {
        TransferFunction::AribStdB67
    } else if t == "bt2020-10"@ || t == "bt.2020-10"@ || t == "rec2020-10"@ {
        TransferFunction::Bt2020_10
    } else if t == "bt2020-12"@ || t == "bt.2020-12"@ || t == "rec2020-12"@ {
        TransferFunction::Bt2020_12
    } else {
        TransferFunction::Bt709
    }
}

/// Standard pairings of colour space and transfer function.
pub open spec fn compatible(cs: ColorSpace, tf: TransferFunction) -> bool {
    match (cs, tf) {
        (ColorSpace::Bt709, TransferFunction::Bt709) => true,
        (ColorSpace::Bt2020, TransferFunction::Smpte2084) => true,
        (ColorSpace::Bt2020, TransferFunction::Bt2020_10) => true,
        (ColorSpace::Bt2020, TransferFunction::Bt2020_12) => true,
        (ColorSpace::Bt2020, TransferFunction::AribStdB67) => true,
        (ColorSpace::DciP3, TransferFunction::Bt709) => true,
        (ColorSpace::DisplayP3, TransferFunction::Bt709) => true,
        _ => false,
    }
}

pub open spec fn recommended_color_space(tf: TransferFunction) -> ColorSpace {
    match tf {
        TransferFunction::Bt709 => ColorSpace::Bt709,
        _ => ColorSpace::Bt2020,
    }
}

pub open spec fn recommended_transfer_function(cs: ColorSpace) -> TransferFunction {
    match cs {
        ColorSpace::Bt2020 => TransferFunction::Smpte2084,
        _ => TransferFunction::Bt709,
    }
}

/// x265 `colorprim` and `colormatrix` values for a colour space.
pub open spec fn x265_color_space_params(cs: ColorSpace) -> (Seq<char>, Seq<char>) {
    match cs {
        ColorSpace::Bt2020 => ("bt2020"@, "bt2020nc"@),
        _ => ("bt709"@, "bt709"@),
    }
}

/// x265 `transfer` value for a transfer function.
pub open spec fn x265_transfer_param(tf: TransferFunction) -> Seq<char> {
    match tf {
        TransferFunction::Bt709 => "bt709"@,
        TransferFunction::Smpte2084 => "smpte2084"@,
        TransferFunction::AribStdB67 => "arib-std-b67"@,
        TransferFunction::Bt2020_10 => "bt2020-10"@,
        TransferFunction::Bt2020_12 => "bt2020-12"@,
    }
}

/// The variant name of a colour space, as `{:?}` prints it.
pub open spec fn color_space_debug(cs: ColorSpace) -> Seq<char> {
    match cs {
        ColorSpace::Bt709 => "Bt709"@,
        ColorSpace::Bt2020 => "Bt2020"@,
        ColorSpace::DciP3 => "DciP3"@,
        ColorSpace::DisplayP3 => "DisplayP3"@,
    }
}

/// The variant name of a transfer function, as `{:?}` prints it.
pub open spec fn transfer_function_debug(tf: TransferFunction) -> Seq<char> {
    match tf {
        TransferFunction::Bt709 => "Bt709"@,
        TransferFunction::Smpte2084 => "Smpte2084"@,
        TransferFunction::AribStdB67 => "AribStdB67"@,
        TransferFunction::Bt2020_10 => "Bt2020_10"@,
        TransferFunction::Bt2020_12 => "Bt2020_12"@,
    }
}

pub fn color_space_debug_name(cs: ColorSpace) -> (r: &'static str)
    ensures
        r@ == color_space_debug(cs),
{
    match cs {
        ColorSpace::Bt709 => "Bt709",
        ColorSpace::Bt2020 => "Bt2020",
        ColorSpace::DciP3 => "DciP3",
        ColorSpace::DisplayP3 => "DisplayP3",
    }
}

pub fn transfer_function_debug_name(tf: TransferFunction) -> (r: &'static str)
    ensures
        r@ == transfer_function_debug(tf),
{
    match tf {
        TransferFunction::Bt709 => "Bt709",
        TransferFunction::Smpte2084 => "Smpte2084",
        TransferFunction::AribStdB67 => "AribStdB67",
        TransferFunction::Bt2020_10 => "Bt2020_10",
        TransferFunction::Bt2020_12 => "Bt2020_12",
    }
}

/// Message of the incompatibility error of `validate_color_configuration`.
pub open spec fn incompatible_message(cs: ColorSpace, tf: TransferFunction) -> Seq<char> {
    "Color space "@ + color_space_debug(cs) + " is not compatible with transfer function "@
        + transfer_function_debug(tf)
}

/// Unified colour management for video encoding.
pub struct ColorManager;

impl ColorManager {
    /// Maps a colour-space name (any case) to a colour space; unknown names
    /// give BT.709.
    pub fn normalize_color_space_name(raw_name: &str) -> (r: ColorSpace)
        ensures
            r == color_space_from_lower(unicode_lowercase(raw_name@)),
            all_ascii(raw_name@) ==> r == color_space_from_lower(ascii_lower(raw_name@)),
    {
        let l = to_lowercase(raw_name);
        let t = l.as_str();
        if str_eq(t, "bt709") || str_eq(t, "rec709") || str_eq(t, "bt.709") || str_eq(
            t,
            "rec.709",
        ) {
            ColorSpace::Bt709
        } else if str_eq(t, "bt2020") || str_eq(t, "rec2020") || str_eq(t, "bt.2020") || str_eq(
            t,
            "rec.2020",
        ) || str_eq(t, "bt2020nc") || str_eq(t, "bt2020-ncl") {
            ColorSpace::Bt2020
        } else if str_eq(t, "dci-p3") || str_eq(t, "dcip3") || str_eq(t, "p3-dci") {
            ColorSpace::DciP3
        } else if str_eq(t, "display-p3") || str_eq(t, "displayp3") || str_eq(t, "p3-display") {
            ColorSpace::DisplayP3
        } else {
            ColorSpace::Bt709
        }
    }

    /// Maps a transfer-function name (any case) to a transfer function;
    /// unknown names give BT.709.
    pub fn normalize_transfer_function_name(raw_name: &str) -> (r: TransferFunction)
        ensures
            r == transfer_function_from_lower(unicode_lowercase(raw_name@)),
            all_ascii(raw_name@) ==> r == transfer_function_from_lower(ascii_lower(raw_name@)),
    {
        let l = to_lowercase(raw_name);
        let t = l.as_str();
        if str_eq(t, "bt709") || str_eq(t, "rec709") || str_eq(t, "bt.709") || str_eq(
            t,
            "rec.709",
        ) {
            TransferFunction::Bt709
        } else if str_eq(t, "smpte2084") || str_eq(t, "smpte-2084") || str_eq(t, "st2084")
            || str_eq(t, "st-2084") || str_eq(t, "pq") {
            TransferFunction::Smpte2084
        } else if str_eq(t, "arib-std-b67") || str_eq(t, "arib_std_b67") || str_eq(
            t,
            "aribstdb67",
        ) || str_eq(t, "hlg") {
            TransferFunction::AribStdB67
        } else if str_eq(t, "bt2020-10") || str_eq(t, "bt.2020-10") || str_eq(t, "rec2020-10") {
            TransferFunction::Bt2020_10
        } else if str_eq(t, "bt2020-12") || str_eq(t, "bt.2020-12") || str_eq(t, "rec2020-12") {
            TransferFunction::Bt2020_12
        } else {
            TransferFunction::Bt709
        }
    }

    /// Whether the pair is one of the standard SDR, HDR10, HLG or P3 pairings.
    pub fn are_compatible(color_space: ColorSpace, transfer_function: TransferFunction) -> (r:
        bool)
        ensures
            r == compatible(color_space, transfer_function),
    {
        match (color_space, transfer_function) {
            (ColorSpace::Bt709, TransferFunction::Bt709) => true,
            (ColorSpace::Bt2020, TransferFunction::Smpte2084) => true,
            (ColorSpace::Bt2020, TransferFunction::Bt2020_10) => true,
            (ColorSpace::Bt2020, TransferFunction::Bt2020_12) => true,
            (ColorSpace::Bt2020, TransferFunction::AribStdB67) => true,
            (ColorSpace::DciP3, TransferFunction::Bt709) => true,
            (ColorSpace::DisplayP3, TransferFunction::Bt709) => true,
            _ => false,
        }
    }

    pub fn get_recommended_color_space(transfer_function: TransferFunction) -> (r: ColorSpace)
        ensures
            r == recommended_color_space(transfer_function),
    {
        match transfer_function {
            TransferFunction::Bt709 => ColorSpace::Bt709,
            TransferFunction::Smpte2084 => ColorSpace::Bt2020,
            TransferFunction::AribStdB67 => ColorSpace::Bt2020,
            TransferFunction::Bt2020_10 => ColorSpace::Bt2020,
            TransferFunction::Bt2020_12 => ColorSpace::Bt2020,
        }
    }

    pub fn get_recommended_transfer_function(color_space: ColorSpace) -> (r: TransferFunction)
        ensures
            r == recommended_transfer_function(color_space),
    {
        match color_space {
            ColorSpace::Bt709 => TransferFunction::Bt709,
            ColorSpace::Bt2020 => TransferFunction::Smpte2084,
            ColorSpace::DciP3 => TransferFunction::Bt709,
            ColorSpace::DisplayP3 => TransferFunction::Bt709,
        }
    }

    /// x265 `colorprim` and `colormatrix` values.
    pub fn get_x265_color_space_params(color_space: ColorSpace) -> (r: (&'static str, &'static str))
        ensures
            (r.0@, r.1@) == x265_color_space_params(color_space),
    {
        match color_space {
            ColorSpace::Bt709 => ("bt709", "bt709"),
            ColorSpace::Bt2020 => ("bt2020", "bt2020nc"),
            ColorSpace::DciP3 => ("bt709", "bt709"),
            ColorSpace::DisplayP3 => ("bt709", "bt709"),
        }
    }

    /// x265 `transfer` value.
    pub fn get_x265_transfer_function_param(transfer_function: TransferFunction) -> (r:
        &'static str)
        ensures
            r@ == x265_transfer_param(transfer_function),
    {
        match transfer_function {
            TransferFunction::Bt709 => "bt709",
            TransferFunction::Smpte2084 => "smpte2084",
            TransferFunction::AribStdB67 => "arib-std-b67",
            TransferFunction::Bt2020_10 => "bt2020-10",
            TransferFunction::Bt2020_12 => "bt2020-12",
        }
    }

    /// Accepts exactly the compatible pairs; differing primaries are allowed.
    pub fn validate_color_configuration(
        color_space: ColorSpace,
        transfer_function: TransferFunction,
        color_primaries: ColorSpace,
    ) -> (r: core::result::Result<(), String>)
        ensures
            r.is_ok() == compatible(color_space, transfer_function),
            r matches Err(m) ==> m@ == incompatible_message(color_space, transfer_function),
    {
        if !Self::are_compatible(color_space, transfer_function) {
            let mut m = concat(
                "Color space ",
                color_space_debug_name(color_space),
            );
            m.append(" is not compatible with transfer function ");
            m.append(transfer_function_debug_name(transfer_function));
            return Err(m);
        }
        match transfer_function {
            TransferFunction::Smpte2084 | TransferFunction::AribStdB67 => {
                if !matches!(color_space, ColorSpace::Bt2020) {
                    let mut m = concat(
                        "HDR transfer function ",
                        transfer_function_debug_name(transfer_function),
                    );
                    m.append(" should use Bt2020 color space");
                    return Err(m);
                }
            },
            _ => {},
        }
        Ok(())
    }
}

/// The recommended transfer function of a colour space forms a standard pair
/// with it.
pub proof fn law_recommended_transfer_is_compatible(cs: ColorSpace)
    ensures
        compatible(cs, recommended_transfer_function(cs)),
{
}

/// The recommended colour space of a transfer function forms a standard pair
/// with it.
pub proof fn law_recommended_color_space_is_compatible(tf: TransferFunction)
    ensures
        compatible(recommended_color_space(tf), tf),
{
}

/// Normalising the x265 `transfer` name of a transfer function gives the same
/// transfer function back.
pub proof fn law_transfer_param_normalizes_back(tf: TransferFunction)
    ensures
        all_ascii(x265_transfer_param(tf)),
        transfer_function_from_lower(ascii_lower(x265_transfer_param(tf))) == tf,
{
    reveal_strlit("bt709");
    reveal_strlit("rec709");
    reveal_strlit("bt.709");
    reveal_strlit("rec.709");
    reveal_strlit("smpte2084");
    reveal_strlit("smpte-2084");
    reveal_strlit("st2084");
    reveal_strlit("st-2084");
    reveal_strlit("pq");
    reveal_strlit("arib-std-b67");
    reveal_strlit("arib_std_b67");
    reveal_strlit("aribstdb67");
    reveal_strlit("hlg");
    reveal_strlit("bt2020-10");
    reveal_strlit("bt.2020-10");
    reveal_strlit("rec2020-10");
    reveal_strlit("bt2020-12");
    let p = x265_transfer_param(tf);
    assert(ascii_lower(p) =~= p);
    // same-length names differ in at least one position
    assert("smpte2084"@[0] != "bt2020-10"@[0] && "smpte2084"@[0] != "bt2020-12"@[0]);
    assert("bt2020-10"@[8] != "bt2020-12"@[8]);
    assert("arib-std-b67"@[4] != "arib_std_b67"@[4]);
    assert("smpte2084"@[0] != "smpte-2084"@[0] || "smpte2084"@.len() != "smpte-2084"@.len());
}

/// Normalising the x265 `colormatrix` name of BT.709 or BT.2020 gives the same
/// colour space back.
pub proof fn law_colormatrix_normalizes_back(cs: ColorSpace)
    requires
        cs == ColorSpace::Bt709 || cs == ColorSpace::Bt2020,
    ensures
        all_ascii(x265_color_space_params(cs).1),
        color_space_from_lower(ascii_lower(x265_color_space_params(cs).1)) == cs,
{
    reveal_strlit("bt709");
    reveal_strlit("rec709");
    reveal_strlit("bt.709");
    reveal_strlit("rec.709");
    reveal_strlit("bt2020");
    reveal_strlit("rec2020");
    reveal_strlit("bt.2020");
    reveal_strlit("rec.2020");
    reveal_strlit("bt2020nc");
    let p = x265_color_space_params(cs).1;
    assert(ascii_lower(p) =~= p);
}

} // verus!
