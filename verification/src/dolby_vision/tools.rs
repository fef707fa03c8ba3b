//! `dovi_tool` invocations.

use vstd::prelude::*;
use crate::config::types::DoviToolConfig;
use crate::text::{owned, strings_view};

verus! {

/// The `dovi_tool` front end: its settings and the command lines it runs.
pub struct DoviTool {
    pub config: DoviToolConfig,
}

impl DoviTool {
    pub fn new(config: DoviToolConfig) -> (r: Self)
        ensures
            r.config == config,
    {
        DoviTool { config }
    }

    /// `extract-rpu <input> -o <output>`.
    pub fn extract_rpu_args(input: &str, output_rpu: &str) -> (r: Vec<String>)
        ensures
            strings_view(r@) == seq!["extract-rpu"@, input@, "-o"@, output_rpu@],
    {
        let mut v: Vec<String> = Vec::new();
        v.push(owned("extract-rpu"));
        v.push(owned(input));
        v.push(owned("-o"));
        v.push(owned(output_rpu));
        assert(strings_view(v@) =~= seq!["extract-rpu"@, input@, "-o"@, output_rpu@]);
        v
    }

    /// `inject-rpu -i <hevc> --rpu-in <rpu> -o <output>`.
    pub fn inject_rpu_args(input_hevc: &str, rpu_file: &str, output: &str) -> (r: Vec<String>)
        ensures
            strings_view(r@) == seq![
                "inject-rpu"@,
                "-i"@,
                input_hevc@,
                "--rpu-in"@,
                rpu_file@,
                "-o"@,
                output@,
            ],
    {
        let mut v: Vec<String> = Vec::new();
        v.push(owned("inject-rpu"));
        v.push(owned("-i"));
        v.push(owned(input_hevc));
        v.push(owned("--rpu-in"));
        v.push(owned(rpu_file));
        v.push(owned("-o"));
        v.push(owned(output));
        assert(strings_view(v@) =~= seq![
            "inject-rpu"@,
            "-i"@,
            input_hevc@,
            "--rpu-in"@,
            rpu_file@,
            "-o"@,
            output@,
        ]);
        v
    }

    /// `convert <input> -o <output> --profile <target>`.
    pub fn convert_profile_args(input: &str, output: &str, target_profile: &str) -> (r: Vec<
        String,
    >)
        ensures
            strings_view(r@) == seq![
                "convert"@,
                input@,
                "-o"@,
                output@,
                "--profile"@,
                target_profile@,
            ],
    {
        let mut v: Vec<String> = Vec::new();
        v.push(owned("convert"));
        v.push(owned(input));
        v.push(owned("-o"));
        v.push(owned(output));
        v.push(owned("--profile"));
        v.push(owned(target_profile));
        assert(strings_view(v@) =~= seq![
            "convert"@,
            input@,
            "-o"@,
            output@,
            "--profile"@,
            target_profile@,
        ]);
        v
    }
}

} // verus!
