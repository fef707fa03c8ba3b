//! The options of one encoding job.

use vstd::prelude::*;
use crate::encoding::filters::{all_u32, is_crop_text, lemma_crop_parts};
use crate::error::{Error, ErrorKind};
use crate::text::{concat, concat3, owned, split_char, split_str, str_eq, strings_view};

verus! {

/// What to encode, how, and with which filters.
#[derive(Debug, Clone, PartialEq)]
pub struct EncodingOptions {
    pub input_path: String,
    pub output_path: String,
    pub profile_name: String,
    pub title: Option<String>,
    pub mode: String,
    pub crop: Option<String>,
    pub denoise: bool,
    pub deinterlace: bool,
}

/// The encoding modes a job may name.
pub open spec fn is_mode_name(m: Seq<char>) -> bool {
    m == "crf"@ || m == "abr"@ || m == "cbr"@
}

impl EncodingOptions {
    /// A job with the automatic profile, ABR mode, no title, no crop, no
    /// denoising and no deinterlacing.
    pub fn new(input_path: String, output_path: String) -> (r: Self)
        ensures
            r.input_path == input_path,
            r.output_path == output_path,
            r.profile_name@ == "auto"@,
            r.title is None,
            r.mode@ == "abr"@,
            r.crop is None,
            !r.denoise,
            !r.deinterlace,
    {
        EncodingOptions {
            input_path,
            output_path,
            profile_name: owned("auto"),
            title: None,
            mode: owned("abr"),
            crop: None,
            denoise: false,
            deinterlace: false,
        }
    }

    pub fn with_profile(self, profile: String) -> (r: Self)
        ensures
            r == (EncodingOptions { profile_name: profile, ..self }),
    {
        let mut o = self;
        o.profile_name = profile;
        o
    }

    pub fn with_mode(self, mode: String) -> (r: Self)
        ensures
            r == (EncodingOptions { mode, ..self }),
    {
        let mut o = self;
        o.mode = mode;
        o
    }

    pub fn with_title(self, title: String) -> (r: Self)
        ensures
            r == (EncodingOptions { title: Some(title), ..self }),
    {
        let mut o = self;
        o.title = Some(title);
        o
    }

    pub fn with_crop(self, crop: Option<String>) -> (r: Self)
        ensures
            r == (EncodingOptions { crop, ..self }),
    {
        let mut o = self;
        o.crop = crop;
        o
    }

    pub fn with_denoise(self, enabled: bool) -> (r: Self)
        ensures
            r == (EncodingOptions { denoise: enabled, ..self }),
    {
        let mut o = self;
        o.denoise = enabled;
        o
    }

    pub fn with_deinterlace(self, enabled: bool) -> (r: Self)
        ensures
            r == (EncodingOptions { deinterlace: enabled, ..self }),
    {
        let mut o = self;
        o.deinterlace = enabled;
        o
    }

    /// The profile is chosen automatically.
    pub fn is_auto_profile(&self) -> (r: bool)
        ensures
            r == (self.profile_name@ == "auto"@),
    {
        str_eq(self.profile_name.as_str(), "auto")
    }

    /// Checks the job: the input file must exist (`input_exists`), the mode
    /// be `crf`, `abr` or `cbr`, and a crop be `width:height:x:y`.
    pub fn validate(&self, input_exists: bool) -> (r: Result<(), Error>)
        ensures
            !input_exists ==> (r matches Err(e) && e@ == (
                ErrorKind::Validation,
                "Input file does not exist: "@ + self.input_path@,
            )),
            input_exists && !is_mode_name(self.mode@) ==> (r matches Err(e) && e@ == (
                ErrorKind::Validation,
                "Invalid encoding mode: "@ + self.mode@ + " (must be crf, abr, or cbr)"@,
            )),
            input_exists && is_mode_name(self.mode@) && self.crop is Some && !is_crop_text(
                self.crop.unwrap()@,
            ) ==> (r matches Err(e) && e@ == (
                ErrorKind::Validation,
                "Invalid crop format: "@ + self.crop.unwrap()@
                    + " (expected format: width:height:x:y)"@,
            )),
            input_exists && is_mode_name(self.mode@) && (self.crop is None || is_crop_text(
                self.crop.unwrap()@,
            )) ==> r is Ok,
    {
        if !input_exists {
            return Err(
                Error::validation(concat("Input file does not exist: ", self.input_path.as_str())),
            );
        }
        let m = self.mode.as_str();
        if !(str_eq(m, "crf") || str_eq(m, "abr") || str_eq(m, "cbr")) {
            return Err(
                Error::validation(
                    concat3("Invalid encoding mode: ", m, " (must be crf, abr, or cbr)"),
                ),
            );
        }
        if let Some(crop) = &self.crop {
            if !self.is_valid_crop_format(crop.as_str()) {
                return Err(
                    Error::validation(
                        concat3(
                            "Invalid crop format: ",
                            crop.as_str(),
                            " (expected format: width:height:x:y)",
                        ),
                    ),
                );
            }
        }
        Ok(())
    }

    /// A crop is `width:height:x:y` with four `u32` fields.
    pub fn is_valid_crop_format(&self, crop: &str) -> (r: bool)
        ensures
            r == is_crop_text(crop@),
    {
        let parts = split_str(crop, ':');
        if parts.len() != 4 {
            return false;
        }
        proof { lemma_crop_parts(crop@, parts@); }
        all_u32(&parts)
    }
}

impl Default for EncodingOptions {
    fn default() -> (r: Self)
        ensures
            r.input_path@ == "input.mkv"@,
            r.output_path@ == "output.mkv"@,
            r.profile_name@ == "auto"@,
            r.title is None,
            r.mode@ == "abr"@,
            r.crop is None,
            !r.denoise,
            !r.deinterlace,
    {
        Self::new(owned("input.mkv"), owned("output.mkv"))
    }
}

} // verus!
