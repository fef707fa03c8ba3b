//! The decisions of a processing run: which profile and rate-control mode
//! an encode uses, and what a finished encode or batch reports.

use vstd::prelude::*;
use crate::config::profiles::{find_profile, opt_deref, recommended_profile, EncodingProfile, ProfileManager};
use crate::config::types::ContentType;
use crate::encoding::modes::{mode_from_lower, EncodingMode};
use crate::error::{Error, ErrorKind};
use crate::paths::{
    extension, file_stem, is_uuid_text, join, new_uuid, parent, path_extension, path_file_stem,
    path_join, path_parent,
};
use crate::text::{
    concat, concat3, decimal, join_strings, owned, seq_join, sorted_seqs, str_eq, strings_view,
    to_lowercase, u64_to_string, unicode_lowercase,
};

verus! {

/// The profile an encode uses: for `auto`, the one recommended for the
/// content and resolution, else the `movie` profile; otherwise the profile
/// of that name.  The error is the message of a profile error.
pub open spec fn selected_profile(
    ps: Seq<EncodingProfile>,
    requested: Seq<char>,
    width: u32,
    height: u32,
    t: ContentType,
) -> Result<EncodingProfile, Seq<char>> {
    if requested == "auto"@ {
        match recommended_profile(ps, width, height, t) {
            Some(p) => Ok(p),
            None => match find_profile(ps, "movie"@) {
                Some(p) => Ok(p),
                None => Err("Default 'movie' profile not found"@),
            },
        }
    } else {
        match find_profile(ps, requested) {
            Some(p) => Ok(p),
            None => Err("Profile '"@ + requested + "' not found"@),
        }
    }
}

/// Chooses the profile of an encode.
pub fn select_profile<'a>(
    manager: &'a ProfileManager,
    requested: &str,
    width: u32,
    height: u32,
    content_type: ContentType,
) -> (r: Result<&'a EncodingProfile, Error>)
    ensures
        match selected_profile(manager.profiles(), requested@, width, height, content_type) {
            Ok(p) => r matches Ok(q) && *q == p,
            Err(m) => r matches Err(e) && e@ == (ErrorKind::Profile, m),
        },
{
    if str_eq(requested, "auto") {
        match manager.recommend_profile_for_resolution(width, height, content_type) {
            Some(p) => Ok(p),
            None => match manager.get_profile("movie") {
                Some(p) => Ok(p),
                None => Err(Error::profile(owned("Default 'movie' profile not found"))),
            },
        }
    } else {
        match manager.get_profile(requested) {
            Some(p) => Ok(p),
            None => Err(Error::profile(concat3("Profile '", requested, "' not found"))),
        }
    }
}

/// The names accepted as a profile: `auto` and the loaded profiles' names.
pub open spec fn accepted_profile_names(ps: Seq<EncodingProfile>) -> Seq<Seq<char>> {
    seq!["auto"@] + ps.map_values(|p: EncodingProfile| p.name@)
}

/// Checks a requested profile before any file is processed: `auto` or a
/// loaded profile passes; any other name is a validation error that lists
/// the accepted names in sorted order (the one sorted arrangement of them).
pub fn check_profile_choice(manager: &ProfileManager, requested: &str) -> (r: Result<(), Error>)
    ensures
        (requested@ == "auto"@ || find_profile(manager.profiles(), requested@) is Some) <==> r is Ok,
        r is Err ==> exists|names: Seq<Seq<char>>|
            {
                &&& names.to_multiset() == accepted_profile_names(manager.profiles()).to_multiset()
                &&& sorted_seqs(names)
                &&& r matches Err(e) && e@ == (
                    ErrorKind::Validation,
                    "Invalid profile: "@ + requested@ + " (valid profiles: "@ + seq_join(
                        names,
                        ", "@,
                    ) + ")"@,
                )
            },
{
    if str_eq(requested, "auto") {
        return Ok(());
    }
    if manager.get_profile(requested).is_some() {
        return Ok(());
    }
    let listed = manager.list_profiles();
    let ghost ps = manager.profiles();
    let mut all: Vec<String> = Vec::new();
    all.push(owned("auto"));
    let mut i: usize = 0;
    while i < listed.len()
        invariant
            i <= listed@.len(),
            listed@.len() == ps.len(),
            forall|j: int| 0 <= j < listed@.len() ==> *(#[trigger] listed@[j]) == ps[j].name,
            strings_view(all@) == seq!["auto"@] + ps.subrange(0, i as int).map_values(
                |p: EncodingProfile| p.name@,
            ),
        decreases listed.len() - i,
    {
        let n: &String = listed[i];
        let c = n.clone();
        let ghost before = strings_view(all@);
        all.push(c);
        assert(strings_view(all@) =~= before.push(ps[i as int].name@));
        i = i + 1;
        assert(seq!["auto"@] + ps.subrange(0, i as int).map_values(|p: EncodingProfile| p.name@)
            =~= before.push(ps[i - 1].name@));
    }
    assert(ps.subrange(0, ps.len() as int) =~= ps);
    let sorted = crate::text::sort_strings(all);
    let joined = join_strings(&sorted, ", ");
    let mut msg = concat3("Invalid profile: ", requested, " (valid profiles: ");
    msg.append(joined.as_str());
    msg.append(")");
    let r: Result<(), Error> = Err(Error::validation(msg));
    assert(r matches Err(e) && e@ == (
        ErrorKind::Validation,
        "Invalid profile: "@ + requested@ + " (valid profiles: "@ + seq_join(
            strings_view(sorted@),
            ", "@,
        ) + ")"@,
    ));
    r
}

/// Reads the rate-control mode of an encode; an unknown name is an
/// encoding error.
pub fn encoding_mode_for(mode: &str) -> (r: Result<EncodingMode, Error>)
    ensures
        match mode_from_lower(unicode_lowercase(mode@)) {
            Some(m) => r == Ok::<EncodingMode, Error>(m),
            None => r matches Err(e) && e@ == (
                ErrorKind::Encoding,
                "Invalid encoding mode: "@ + mode@,
            ),
        },
{
    match EncodingMode::from_str(mode) {
        Some(m) => Ok(m),
        None => Err(Error::encoding(concat("Invalid encoding mode: ", mode))),
    }
}

/// Decimal notation of an integer, with a leading `-` when negative.
pub open spec fn int_text(i: int) -> Seq<char> {
    if i < 0 {
        "-"@ + decimal((-i) as nat)
    } else {
        decimal(i as nat)
    }
}

fn i32_to_string(i: i32) -> (r: String)
    ensures
        r@ == int_text(i as int),
{
    if i < 0 {
        let m: i64 = -(i as i64);
        let digits = u64_to_string(m as u64);
        concat("-", digits.as_str())
    } else {
        u64_to_string(i as u64)
    }
}

/// What a finished encode reports: success, or an encoding error with the
/// exit code (`-1` where the process gave none).
pub fn encoding_outcome(success: bool, exit_code: Option<i32>) -> (r: Result<(), Error>)
    ensures
        success <==> r is Ok,
        !success ==> (r matches Err(e) && e@ == (
            ErrorKind::Encoding,
            "Encoding failed with exit code: "@ + int_text(
                match exit_code {
                    Some(c) => c as int,
                    None => -1,
                },
            ),
        )),
{
    if success {
        Ok(())
    } else {
        let code: i32 = match exit_code {
            Some(c) => c,
            None => -1,
        };
        let text = i32_to_string(code);
        Err(Error::encoding(concat("Encoding failed with exit code: ", text.as_str())))
    }
}

/// An encode needs at least one input path.
pub fn require_inputs(count: usize) -> (r: Result<(), Error>)
    ensures
        count > 0 <==> r is Ok,
        count == 0 ==> (r matches Err(e) && e@ == (
            ErrorKind::Validation,
            "At least one input path is required for encoding"@,
        )),
{
    if count > 0 {
        Ok(())
    } else {
        Err(Error::validation(owned("At least one input path is required for encoding")))
    }
}

/// What a batch reports: an error only where files failed and none
/// succeeded.
pub fn batch_outcome(successful: usize, failed: usize) -> (r: Result<(), Error>)
    ensures
        (successful == 0 && failed > 0) <==> r is Err,
        r is Err ==> (r matches Err(e) && e@ == (
            ErrorKind::Encoding,
            "All files failed to process"@,
        )),
{
    if successful == 0 && failed > 0 {
        Err(Error::encoding(owned("All files failed to process")))
    } else {
        Ok(())
    }
}

/// The name of an output file made from the input's name: its stem
/// (`output` where it has none), `_`, a run id, and the input's extension
/// where it has one.
pub open spec fn uuid_file_name(input: Seq<char>, id: Seq<char>) -> Seq<char> {
    let stem = match path_file_stem(input) {
        Some(s) => s,
        None => "output"@,
    };
    match path_extension(input) {
        Some(e) => stem + "_"@ + id + "."@ + e,
        None => stem + "_"@ + id,
    }
}

/// The directory an output file goes to: the one given, else the input's.
pub open spec fn output_dir_for(input: Seq<char>, dir: Option<Seq<char>>) -> Option<Seq<char>> {
    match dir {
        Some(d) => Some(d),
        None => path_parent(input),
    }
}

/// A fresh output path for `input`: `<stem>_<uuid>.<ext>` in `dir`, or
/// beside the input.
pub fn generate_uuid_filename(input: &str, dir: Option<&str>) -> (r: String)
    ensures
        exists|id: Seq<char>|
            #![trigger uuid_file_name(input@, id)]
            is_uuid_text(id) && r@ == match output_dir_for(
                input@,
                match dir {
                    Some(d) => Some(d@),
                    None => None,
                },
            ) {
                Some(d) => path_join(d, uuid_file_name(input@, id)),
                None => uuid_file_name(input@, id),
            },
{
    let id = new_uuid();
    let mut name = match file_stem(input) {
        Some(s) => s,
        None => owned("output"),
    };
    name.append("_");
    name.append(id.as_str());
    match extension(input) {
        Some(e) => {
            name.append(".");
            name.append(e.as_str());
        },
        None => {},
    }
    assert(name@ == uuid_file_name(input@, id@));
    let target = match dir {
        Some(d) => Some(owned(d)),
        None => parent(input),
    };
    match target {
        Some(d) => join(d.as_str(), name.as_str()),
        None => name,
    }
}

/// Where an encode writes: the given output for a single file; for a batch
/// a fresh name in the given output's directory; a fresh name beside the
/// input where no output is given.
pub fn output_path_for(input: &str, output: Option<&str>, file_count: usize) -> (r: String)
    ensures
        file_count <= 1 && output is Some ==> r@ == output.unwrap()@,
        output is None ==> exists|id: Seq<char>|
            #![trigger uuid_file_name(input@, id)]
            is_uuid_text(id) && r@ == match path_parent(input@) {
                Some(d) => path_join(d, uuid_file_name(input@, id)),
                None => uuid_file_name(input@, id),
            },
        file_count > 1 && output is Some ==> exists|id: Seq<char>|
            #![trigger uuid_file_name(input@, id)]
            is_uuid_text(id) && r@ == path_join(
                match path_parent(output.unwrap()@) {
                    Some(p) => p,
                    None => output.unwrap()@,
                },
                uuid_file_name(input@, id),
            ),
{
    match output {
        Some(o) => {
            if file_count > 1 {
                let dir = match parent(o) {
                    Some(p) => p,
                    None => owned(o),
                };
                generate_uuid_filename(input, Some(dir.as_str()))
            } else {
                owned(o)
            }
        },
        None => generate_uuid_filename(input, None),
    }
}

/// The extensions of the video files a directory is searched for.
pub open spec fn is_video_extension(e: Seq<char>) -> bool {
    e == "mkv"@ || e == "mp4"@ || e == "avi"@ || e == "mov"@ || e == "m4v"@ || e == "ts"@ || e
        == "m2ts"@ || e == "webm"@
}

/// A path names a video file: its extension, in any letter case, is one of
/// the video extensions.
pub fn is_video_file(path: &str) -> (r: bool)
    ensures
        r == match path_extension(path@) {
            Some(e) => is_video_extension(unicode_lowercase(e)),
            None => false,
        },
{
    match extension(path) {
        Some(e) => {
            let l = to_lowercase(e.as_str());
            let t = l.as_str();
            str_eq(t, "mkv") || str_eq(t, "mp4") || str_eq(t, "avi") || str_eq(t, "mov") || str_eq(
                t,
                "m4v",
            ) || str_eq(t, "ts") || str_eq(t, "m2ts") || str_eq(t, "webm")
        },
        None => false,
    }
}

} // verus!
