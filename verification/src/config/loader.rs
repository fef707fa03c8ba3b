//! Checks that a loaded configuration must pass.

use vstd::prelude::*;
use crate::config::profiles::RawProfile;
use crate::config::types::{content_type_from_lower, ContentType};
use crate::error::{Error, ErrorKind};
use crate::text::{concat3, owned, unicode_lowercase};

verus! {

/// A configuration defines at least one profile.
pub fn require_profiles(count: usize) -> (r: Result<(), Error>)
    ensures
        count > 0 <==> r is Ok,
        count == 0 ==> (r matches Err(e) && e@ == (
            ErrorKind::Validation,
            "At least one profile must be defined"@,
        )),
{
    if count == 0 {
        Err(Error::validation(owned("At least one profile must be defined")))
    } else {
        Ok(())
    }
}

/// The error a profile of a configuration gives, if any: a zero base
/// bitrate, else an unknown content type.
pub open spec fn raw_profile_error(name: Seq<char>, raw: RawProfile) -> Option<Seq<char>> {
    if raw.base_bitrate == 0 {
        Some("Invalid base_bitrate for profile '"@ + name + "': must be greater than 0"@)
    } else if content_type_from_lower(unicode_lowercase(raw.content_type@)) is None {
        Some("Invalid content_type for profile '"@ + name + "': "@ + raw.content_type@)
    } else {
        None
    }
}

/// Checks the bitrate and content type of a profile.
pub fn validate_raw_profile(name: &str, raw: &RawProfile) -> (r: Result<(), Error>)
    ensures
        match raw_profile_error(name@, *raw) {
            None => r is Ok,
            Some(m) => r matches Err(e) && e@ == (ErrorKind::Validation, m),
        },
{
    if raw.base_bitrate == 0 {
        return Err(Error::validation(concat3(
            "Invalid base_bitrate for profile '",
            name,
            "': must be greater than 0",
        )));
    }
    if ContentType::from_string(raw.content_type.as_str()).is_none() {
        let mut m = concat3("Invalid content_type for profile '", name, "': ");
        m.append(raw.content_type.as_str());
        return Err(Error::validation(m));
    }
    Ok(())
}

} // verus!
