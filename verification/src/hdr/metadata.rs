//! Content light level parsing and formatting, and the integer part of HDR
//! metadata validation.

use vstd::prelude::*;
use crate::error::{result_view, Error, ErrorKind, Result};
use crate::hdr::types::{ColorSpace, ContentLightLevelInfo, HdrFormat, TransferFunction};
use crate::text::{
    concat, concat3, decimal, int_error_message, int_error_text, is_u32_text, lemma_decimal_digits,
    lemma_decimal_u32_text, lemma_split_after_sep, lemma_split_nonempty, lemma_split_plain,
    lemma_trim_digits, owned, parse_u32_checked, split_char, split_str, strings_view, trim, trim_seq, u32_error,
    u32_text_value, u64_to_string,
};

verus! {

/// Parsing and formatting of HDR static metadata.
pub struct HdrMetadataExtractor;

/// The light level a piece of text gives, or the parse error's text.
pub open spec fn light_level_field(t: Seq<char>) -> core::result::Result<nat, Seq<char>> {
    let u = trim_seq(t);
    if is_u32_text(u) {
        Ok(u32_text_value(u))
    } else {
        Err(int_error_text(u32_error(u).unwrap()))
    }
}

/// What `parse_content_light_level` gives: `max_cll[,max_fall[,...]]`,
/// fields trimmed; `max_fall` is 400 where only one field is given.
pub open spec fn content_light_level_spec(raw: Seq<char>) -> core::result::Result<
    (nat, nat),
    Seq<char>,
> {
    let parts = split_char(raw, ',');
    match light_level_field(parts[0]) {
        Err(e) => Err("Failed to parse max_cll: "@ + e),
        Ok(cll) => if parts.len() >= 2 {
            match light_level_field(parts[1]) {
                Err(e) => Err("Failed to parse max_fall: "@ + e),
                Ok(fall) => Ok((cll, fall)),
            }
        } else {
            Ok((cll, 400nat))
        },
    }
}

/// `max_cll,max_fall` as x265 expects it.
pub open spec fn content_light_level_text(cll: ContentLightLevelInfo) -> Seq<char> {
    decimal(cll.max_cll as nat) + ","@ + decimal(cll.max_fall as nat)
}

/// Reading back the x265 text of a light level gives the light level.
pub proof fn law_light_level_round_trip(cll: ContentLightLevelInfo)
    ensures
        content_light_level_spec(content_light_level_text(cll)) == core::result::Result::<
            (nat, nat),
            Seq<char>,
        >::Ok((cll.max_cll as nat, cll.max_fall as nat)),
{
    reveal_strlit(",");
    assert(","@ =~= seq![',']);
    let a = decimal(cll.max_cll as nat);
    let b = decimal(cll.max_fall as nat);
    lemma_decimal_digits(cll.max_cll as nat);
    lemma_decimal_digits(cll.max_fall as nat);
    lemma_decimal_u32_text(cll.max_cll as nat);
    lemma_decimal_u32_text(cll.max_fall as nat);
    lemma_trim_digits(a);
    lemma_trim_digits(b);
    assert(!crate::text::is_digit(','));
    lemma_split_plain(a, ',');
    lemma_split_after_sep(a, b, ',');
    assert(content_light_level_text(cll) =~= a + seq![','] + b);
    let parts = split_char(content_light_level_text(cll), ',');
    assert(parts =~= seq![a, b]);
    assert(light_level_field(parts[0]) == core::result::Result::<nat, Seq<char>>::Ok(
        cll.max_cll as nat,
    ));
    assert(light_level_field(parts[1]) == core::result::Result::<nat, Seq<char>>::Ok(
        cll.max_fall as nat,
    ));
}

/// The first problem with a content light level under the HDR checks.
pub open spec fn content_light_level_problem(cll: ContentLightLevelInfo) -> Option<Seq<char>> {
    if cll.max_cll == 0 {
        Some("Max CLL must be greater than 0"@)
    } else if cll.max_fall == 0 {
        Some("Max FALL must be greater than 0"@)
    } else if cll.max_fall > cll.max_cll {
        Some("Max FALL cannot exceed Max CLL"@)
    } else if cll.max_cll < 100 {
        Some("Max CLL too low for HDR content"@)
    } else if cll.max_cll > 10000 {
        Some("Max CLL unreasonably high"@)
    } else {
        None
    }
}

/// The outcome of the HDR metadata checks, given the outcome of the
/// mastering display checks (`None` where the metadata has no mastering
/// display).
pub open spec fn hdr_metadata_outcome(
    format: HdrFormat,
    transfer: TransferFunction,
    color_space: ColorSpace,
    mastering: Option<core::result::Result<(), (ErrorKind, Seq<char>)>>,
    cll: Option<ContentLightLevelInfo>,
) -> core::result::Result<(), (ErrorKind, Seq<char>)> {
    match format {
        HdrFormat::Sdr => if mastering is Some || cll is Some {
            Err((ErrorKind::Validation, "SDR content should not have HDR metadata"@))
        } else {
            Ok(())
        },
        HdrFormat::HDR10 | HdrFormat::HDR10Plus => if transfer != TransferFunction::Smpte2084 {
            Err((ErrorKind::Validation, "HDR10 content should use SMPTE-2084 transfer function"@))
        } else if color_space != ColorSpace::Bt2020 {
            Err((ErrorKind::Validation, "HDR10 content should use BT.2020 color space"@))
        } else if mastering is Some && mastering.unwrap() is Err {
            mastering.unwrap()
        } else {
            match cll {
                Some(c) => match content_light_level_problem(c) {
                    Some(m) => Err((ErrorKind::Validation, m)),
                    None => Ok(()),
                },
                None => Ok(()),
            }
        },
        HdrFormat::HLG => if transfer != TransferFunction::AribStdB67 {
            Err((ErrorKind::Validation, "HLG content should use ARIB STD-B67 transfer function"@))
        } else if color_space != ColorSpace::Bt2020 {
            Err((ErrorKind::Validation, "HLG content should use BT.2020 color space"@))
        } else {
            Ok(())
        },
    }
}

/// A `Result` of the library with its error taken by its view.
pub open spec fn opt_result_view(
    o: Option<Result<()>>,
) -> Option<core::result::Result<(), (ErrorKind, Seq<char>)>> {
    match o {
        Some(r) => Some(result_view(r)),
        None => None,
    }
}

impl HdrMetadataExtractor {
    fn parse_light_level(t: &str) -> (r: core::result::Result<u32, String>)
        ensures
            match light_level_field(t@) {
                Ok(v) => r matches Ok(x) && x as nat == v,
                Err(m) => r matches Err(x) && x@ == m,
            },
    {
        let u = trim(t);
        match parse_u32_checked(u.as_str()) {
            Ok(v) => Ok(v),
            Err(k) => Err(int_error_message(k)),
        }
    }

    /// Parses `max_cll,max_fall` (or `max_cll` alone, with 400 for
    /// `max_fall`).
    pub fn parse_content_light_level(raw: &str) -> (r: Result<ContentLightLevelInfo>)
        ensures
            match content_light_level_spec(raw@) {
                Ok(p) => r matches Ok(v) && v.max_cll as nat == p.0 && v.max_fall as nat == p.1,
                Err(m) => r matches Err(e) && e@ == (ErrorKind::Parse, m),
            },
    {
        let parts = split_str(raw, ',');
        proof { lemma_split_nonempty(raw@, ','); }
        assert(strings_view(parts@)[0] == parts@[0]@);
        let max_cll = match Self::parse_light_level(parts[0].as_str()) {
            Ok(v) => v,
            Err(m) => {
                return Err(Error::parse(concat("Failed to parse max_cll: ", m.as_str())));
            },
        };
        if parts.len() >= 2 {
            assert(strings_view(parts@)[1] == parts@[1]@);
            let max_fall = match Self::parse_light_level(parts[1].as_str()) {
                Ok(v) => v,
                Err(m) => {
                    return Err(Error::parse(concat("Failed to parse max_fall: ", m.as_str())));
                },
            };
            Ok(ContentLightLevelInfo { max_cll, max_fall })
        } else {
            Ok(ContentLightLevelInfo { max_cll, max_fall: 400 })
        }
    }

    /// `max_cll,max_fall` for x265's `max-cll` option.
    pub fn format_content_light_level_for_x265(cll: &ContentLightLevelInfo) -> (r: String)
        ensures
            r@ == content_light_level_text(*cll),
    {
        let a = u64_to_string(cll.max_cll as u64);
        let b = u64_to_string(cll.max_fall as u64);
        concat3(a.as_str(), ",", b.as_str())
    }

    fn validate_content_light_level(cll: &ContentLightLevelInfo) -> (r: Result<()>)
        ensures
            match content_light_level_problem(*cll) {
                Some(m) => r matches Err(e) && e@ == (ErrorKind::Validation, m),
                None => r is Ok,
            },
    {
        if cll.max_cll == 0 {
            return Err(Error::validation(owned("Max CLL must be greater than 0")));
        }
        if cll.max_fall == 0 {
            return Err(Error::validation(owned("Max FALL must be greater than 0")));
        }
        if cll.max_fall > cll.max_cll {
            return Err(Error::validation(owned("Max FALL cannot exceed Max CLL")));
        }
        if cll.max_cll < 100 {
            return Err(Error::validation(owned("Max CLL too low for HDR content")));
        }
        if cll.max_cll > 10000 {
            return Err(Error::validation(owned("Max CLL unreasonably high")));
        }
        Ok(())
    }

    /// Checks HDR metadata for encoding. `mastering` is the outcome of the
    /// checks on the mastering display (chromaticities and luminances),
    /// `None` where there is none.
    pub fn validate_hdr_metadata(
        format: HdrFormat,
        transfer: TransferFunction,
        color_space: ColorSpace,
        mastering: Option<Result<()>>,
        cll: &Option<ContentLightLevelInfo>,
    ) -> (r: Result<()>)
        ensures
            result_view(r) == hdr_metadata_outcome(
                format,
                transfer,
                color_space,
                opt_result_view(mastering),
                *cll,
            ),
    {
        match format {
            HdrFormat::Sdr => {
                if mastering.is_some() || cll.is_some() {
                    return Err(
                        Error::validation(owned("SDR content should not have HDR metadata")),
                    );
                }
                Ok(())
            },
            HdrFormat::HDR10 | HdrFormat::HDR10Plus => {
                if transfer != TransferFunction::Smpte2084 {
                    return Err(
                        Error::validation(
                            owned("HDR10 content should use SMPTE-2084 transfer function"),
                        ),
                    );
                }
                if color_space != ColorSpace::Bt2020 {
                    return Err(
                        Error::validation(owned("HDR10 content should use BT.2020 color space")),
                    );
                }
                match mastering {
                    Some(Err(e)) => {
                        return Err(e);
                    },
                    _ => {},
                }
                match cll {
                    Some(c) => Self::validate_content_light_level(c),
                    None => Ok(()),
                }
            },
            HdrFormat::HLG => {
                if transfer != TransferFunction::AribStdB67 {
                    return Err(
                        Error::validation(
                            owned("HLG content should use ARIB STD-B67 transfer function"),
                        ),
                    );
                }
                if color_space != ColorSpace::Bt2020 {
                    return Err(
                        Error::validation(owned("HLG content should use BT.2020 color space")),
                    );
                }
                Ok(())
            },
        }
    }
}

} // verus!
