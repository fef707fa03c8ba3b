//! The command line of the encoder: what it asks for and its checks.

use vstd::prelude::*;
use crate::error::{Error, ErrorKind};
use crate::text::{concat, concat3, owned, split_char, split_str, str_eq, strings_view};

verus! {

/// The options of the encoder. A preview time is a floating-point number;
/// what the checks read of it is its sign.
#[derive(Debug, Clone, PartialEq)]
pub struct CliArgs {
    pub input: Vec<String>,
    pub output: Option<String>,
    pub profile: String,
    pub title: Option<String>,
    pub mode: String,
    pub denoise: bool,
    pub deinterlace: bool,
    pub config: String,
    pub verbose: bool,
    pub debug: bool,
    pub list_profiles: bool,
    pub show_profile: Option<String>,
    pub validate_config: bool,
    pub stream_selection_profile: Option<String>,
    pub list_stream_profiles: bool,
    pub show_stream_profile: Option<String>,
    pub preview: bool,
    /// Where a preview time is given: whether it is negative.
    pub preview_time_negative: Option<bool>,
    pub preview_range: Option<String>,
    pub preview_profile: Option<String>,
    pub list_preview_profiles: bool,
}

/// An informational command.
pub open spec fn info_command(a: CliArgs) -> bool {
    a.list_profiles || a.show_profile is Some || a.list_stream_profiles || a.show_stream_profile
        is Some || a.list_preview_profiles || a.validate_config
}

/// Encoding is asked for.
pub open spec fn encode_requested(a: CliArgs) -> bool {
    !info_command(a) && a.input@.len() > 0 && !a.preview
}

/// The position of the first input that does not exist.
pub open spec fn first_missing_input(exists_: Seq<bool>, n: int) -> int {
    choose|i: int| 0 <= i < n && !exists_[i] && forall|j: int| 0 <= j < i ==> exists_[j]
}

/// Some input does not exist.
pub open spec fn some_input_missing(exists_: Seq<bool>, n: int) -> bool {
    exists|i: int| 0 <= i < n && !exists_[i]
}

/// The first problem with the options, given which inputs exist, whether
/// the configuration file or a default one exists, and the outcome of the
/// preview-range check (`range_check`, read only where a range is given).
pub open spec fn args_problem(
    a: CliArgs,
    input_exists: Seq<bool>,
    config_exists: bool,
    default_config_exists: bool,
    range_check: core::result::Result<(), (ErrorKind, Seq<char>)>,
) -> core::result::Result<(), (ErrorKind, Seq<char>)> {
    let n = a.input@.len() as int;
    let missing = "Input path does not exist: "@ + a.input@[first_missing_input(input_exists, n)]@;
    if a.preview && n == 0 {
        Err((ErrorKind::Validation, "At least one input path is required for preview mode"@))
    } else if a.preview && a.preview_time_negative is None && a.preview_range is None {
        Err((ErrorKind::Validation, "Preview mode requires either --preview-time or --preview-range"@))
    } else if a.preview && a.preview_time_negative is Some && a.preview_range is Some {
        Err(
            (
                ErrorKind::Validation,
                "Cannot use both --preview-time and --preview-range simultaneously"@,
            ),
        )
    } else if a.preview && a.preview_time_negative == Some(true) {
        Err((ErrorKind::Validation, "Preview time must be a positive number"@))
    } else if a.preview && a.preview_range is Some && range_check is Err {
        range_check
    } else if a.preview && some_input_missing(input_exists, n) {
        Err((ErrorKind::Validation, missing))
    } else if encode_requested(a) && some_input_missing(input_exists, n) {
        Err((ErrorKind::Validation, missing))
    } else if !a.validate_config && (encode_requested(a) || a.list_profiles || a.show_profile
        is Some) && !config_exists && !default_config_exists {
        Err(
            (
                ErrorKind::Validation,
                "Configuration file does not exist: "@ + a.config@
                    + " (and no config.default.yaml found)"@,
            ),
        )
    } else if !(a.mode@ == "crf"@ || a.mode@ == "abr"@ || a.mode@ == "cbr"@) {
        Err((ErrorKind::Validation, "Invalid encoding mode: "@ + a.mode@ + " (must be crf, abr, or cbr)"@))
    } else {
        Ok(())
    }
}

fn first_missing(input_exists: &Vec<bool>, n: usize) -> (r: Option<usize>)
    requires
        n <= input_exists@.len(),
    ensures
        match r {
            Some(i) => i < n && !input_exists@[i as int] && forall|j: int|
                0 <= j < i ==> input_exists@[j],
            None => forall|j: int| 0 <= j < n ==> input_exists@[j],
        },
{
    let mut i: usize = 0;
    while i < n
        invariant
            i <= n,
            n <= input_exists@.len(),
            forall|j: int| 0 <= j < i ==> input_exists@[j],
        decreases n - i,
    {
        if !input_exists[i] {
            return Some(i);
        }
        i = i + 1;
    }
    None
}

impl CliArgs {
    /// `debug` with `--debug`, else the configured level.
    pub fn get_log_level<'a>(&self, config_level: &'a str) -> (r: &'a str)
        ensures
            r@ == (if self.debug {
                "debug"@
            } else {
                config_level@
            }),
    {
        if self.debug {
            "debug"
        } else {
            config_level
        }
    }

    pub fn is_info_command(&self) -> (r: bool)
        ensures
            r == info_command(*self),
    {
        self.list_profiles || self.show_profile.is_some() || self.list_stream_profiles
            || self.show_stream_profile.is_some() || self.list_preview_profiles
            || self.validate_config
    }

    pub fn should_encode(&self) -> (r: bool)
        ensures
            r == encode_requested(*self),
    {
        !self.is_info_command() && self.input.len() > 0 && !self.preview
    }

    pub fn should_preview(&self) -> (r: bool)
        ensures
            r == (self.preview && self.input@.len() > 0),
    {
        self.preview && self.input.len() > 0
    }

    fn missing_input_error(&self, input_exists: &Vec<bool>) -> (r: Option<Error>)
        requires
            input_exists@.len() == self.input@.len(),
        ensures
            some_input_missing(input_exists@, self.input@.len() as int) ==> (r matches Some(e)
                && e@ == (ErrorKind::Validation, "Input path does not exist: "@ + self.input@[
                first_missing_input(input_exists@, self.input@.len() as int)]@)),
            !some_input_missing(input_exists@, self.input@.len() as int) ==> r is None,
    {
        match first_missing(input_exists, self.input.len()) {
            Some(i) => {
                proof {
                    let n = self.input@.len() as int;
                    let k = first_missing_input(input_exists@, n);
                    assert(0 <= k < n && !input_exists@[k] && forall|j: int|
                        0 <= j < k ==> input_exists@[j]);
                    if k < i {
                        assert(input_exists@[k]);
                    }
                    if i < k {
                        assert(input_exists@[i as int]);
                    }
                }
                Some(Error::validation(concat("Input path does not exist: ", self.input[i].as_str())))
            },
            None => None,
        }
    }

    /// Checks the options. `input_exists` says for each input whether it
    /// exists; `config_exists` whether the configuration file does and
    /// `default_config_exists` whether a `config.default.yaml` does;
    /// `range_check` is the outcome of checking the preview range.
    pub fn validate(
        &self,
        input_exists: &Vec<bool>,
        config_exists: bool,
        default_config_exists: bool,
        range_check: Result<(), Error>,
    ) -> (r: Result<(), Error>)
        requires
            input_exists@.len() == self.input@.len(),
        ensures
            crate::error::result_view(r) == args_problem(
                *self,
                input_exists@,
                config_exists,
                default_config_exists,
                crate::error::result_view(range_check),
            ),
    {
        if self.preview {
            if self.input.len() == 0 {
                return Err(
                    Error::validation(owned("At least one input path is required for preview mode")),
                );
            }
            if self.preview_time_negative.is_none() && self.preview_range.is_none() {
                return Err(
                    Error::validation(
                        owned("Preview mode requires either --preview-time or --preview-range"),
                    ),
                );
            }
            if self.preview_time_negative.is_some() && self.preview_range.is_some() {
                return Err(
                    Error::validation(
                        owned("Cannot use both --preview-time and --preview-range simultaneously"),
                    ),
                );
            }
            if self.preview_time_negative == Some(true) {
                return Err(Error::validation(owned("Preview time must be a positive number")));
            }
            if self.preview_range.is_some() {
                if let Err(e) = range_check {
                    return Err(e);
                }
            }
            if let Some(e) = self.missing_input_error(input_exists) {
                return Err(e);
            }
        }
        if self.should_encode() {
            if let Some(e) = self.missing_input_error(input_exists) {
                return Err(e);
            }
        }
        if !self.validate_config {
            if (self.should_encode() || self.list_profiles || self.show_profile.is_some())
                && !config_exists && !default_config_exists {
                return Err(
                    Error::validation(
                        concat3(
                            "Configuration file does not exist: ",
                            self.config.as_str(),
                            " (and no config.default.yaml found)",
                        ),
                    ),
                );
            }
        }
        let m = self.mode.as_str();
        if !(str_eq(m, "crf") || str_eq(m, "abr") || str_eq(m, "cbr")) {
            return Err(
                Error::validation(
                    concat3("Invalid encoding mode: ", m, " (must be crf, abr, or cbr)"),
                ),
            );
        }
        Ok(())
    }

    /// The shape check of a preview range: two parts around `-`; the parts
    /// as times are checked by the caller.
    pub fn preview_range_parts(range: &str) -> (r: Result<(String, String), Error>)
        ensures
            split_char(range@, '-').len() != 2 ==> (r matches Err(e) && e@ == (
                ErrorKind::Validation,
                "Preview range must be in format 'START-END' (e.g., '10-20')"@,
            )),
            split_char(range@, '-').len() == 2 ==> (r matches Ok(p) && p.0@ == split_char(
                range@,
                '-',
            )[0] && p.1@ == split_char(range@, '-')[1]),
    {
        let parts = split_str(range, '-');
        if parts.len() != 2 {
            return Err(
                Error::validation(owned("Preview range must be in format 'START-END' (e.g., '10-20')")),
            );
        }
        assert(strings_view(parts@)[0] == parts@[0]@);
        assert(strings_view(parts@)[1] == parts@[1]@);
        Ok((parts[0].clone(), parts[1].clone()))
    }
}

} // verus!
