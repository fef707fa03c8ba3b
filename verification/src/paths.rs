//! File paths, as `std::path` composes them, and fresh unique names.

use vstd::prelude::*;

verus! {

/// The last component of a path, where it has one (`Path::file_name`).
pub uninterp spec fn path_file_name(p: Seq<char>) -> Option<Seq<char>>;

/// The last component without its extension (`Path::file_stem`).
pub uninterp spec fn path_file_stem(p: Seq<char>) -> Option<Seq<char>>;

/// The path without its last component (`Path::parent`).
pub uninterp spec fn path_parent(p: Seq<char>) -> Option<Seq<char>>;

/// A path with a component appended (`Path::join`).
pub uninterp spec fn path_join(base: Seq<char>, child: Seq<char>) -> Seq<char>;

/// A single normal path component: not empty, free of the separator `/`,
/// and neither `.` nor `..`.
pub open spec fn is_plain_name(n: Seq<char>) -> bool {
    n.len() > 0 && !n.contains('/') && n != "."@ && n != ".."@
}

/// The text does not begin like a drive prefix (`C:`): its second
/// character is not `:`.
pub open spec fn no_drive_prefix(n: Seq<char>) -> bool {
    !(n.len() >= 2 && n[1] == ':')
}

/// A component that `Path::join` appends as it stands on every platform: a
/// single normal component that also holds no `\\` (a separator on
/// Windows) and does not begin like a drive prefix there.
pub open spec fn is_join_safe_name(n: Seq<char>) -> bool {
    is_plain_name(n) && !n.contains('\\') && no_drive_prefix(n)
}

/// Neither `/` nor `\\` occurs in the text.
pub open spec fn free_of_separators(n: Seq<char>) -> bool {
    !n.contains('/') && !n.contains('\\')
}

/// Text made of two pieces free of separators is free of them.
pub proof fn lemma_free_concat(a: Seq<char>, b: Seq<char>)
    requires
        free_of_separators(a),
        free_of_separators(b),
    ensures
        free_of_separators(a + b),
{
    let n = a + b;
    assert forall|c: char| c == '/' || c == '\\' implies !n.contains(c) by {
        if n.contains(c) {
            let k = choose|k: int| 0 <= k < n.len() && n[k] == c;
            if k < a.len() {
                assert(a[k] == c);
            } else {
                assert(b[k - a.len()] == c);
            }
        }
    }
}

/// Two pieces free of separators, together longer than two characters and
/// not beginning like a drive prefix, make a name `Path::join` appends as
/// it stands.
pub proof fn lemma_join_safe_concat(a: Seq<char>, b: Seq<char>)
    requires
        free_of_separators(a),
        free_of_separators(b),
        a.len() + b.len() > 2,
        no_drive_prefix(a + b),
    ensures
        free_of_separators(a + b),
        is_join_safe_name(a + b),
{
    reveal_strlit(".");
    reveal_strlit("..");
    lemma_free_concat(a, b);
    assert((a + b).len() > 2);
    assert("."@.len() == 1 && ".."@.len() == 2);
    assert((a + b) != "."@ && (a + b) != ".."@);
}

/// Joining any such component to `d` gives a path whose parent is `d`.
pub open spec fn keeps_parent(d: Seq<char>) -> bool {
    forall|c: Seq<char>| is_join_safe_name(c) ==> #[trigger] path_parent(path_join(d, c)) == Some(d)
}

/// Calls `Path::file_name` and converts the name to text (lossily, as
/// `to_string_lossy` does). The contract names the result, and says that a
/// name it gives is a single normal component (`file_name` is the final
/// component where that is a normal one, `None` where the path ends in
/// `..`, a root or nothing).
#[verifier::external_body]
pub(crate) fn file_name(p: &str) -> (r: Option<String>)
    ensures
        match r {
            Some(n) => path_file_name(p@) == Some(n@),
            None => path_file_name(p@) is None,
        },
        r matches Some(n) ==> is_plain_name(n@),
{
    match std::path::Path::new(p).file_name() {
        Some(n) => Some(n.to_string_lossy().to_string()),
        None => None,
    }
}

/// Calls `Path::file_stem` and converts the stem to text (lossily). The
/// contract names the result.
#[verifier::external_body]
pub(crate) fn file_stem(p: &str) -> (r: Option<String>)
    ensures
        match r {
            Some(n) => path_file_stem(p@) == Some(n@),
            None => path_file_stem(p@) is None,
        },
{
    match std::path::Path::new(p).file_stem() {
        Some(n) => Some(n.to_string_lossy().to_string()),
        None => None,
    }
}

/// Calls `Path::parent` and converts the parent to text (lossily). The
/// contract names the result, and says that a path with a file name has a
/// parent (`parent` is `None` only for a path that ends in a root or prefix,
/// or is empty), and that a parent it gives is the parent again of any path
/// that joins one normal component to it (`parent` drops the final
/// component and the separators before it, `push` adds one separator where
/// needed and the component).
#[verifier::external_body]
pub(crate) fn parent(p: &str) -> (r: Option<String>)
    ensures
        match r {
            Some(n) => path_parent(p@) == Some(n@),
            None => path_parent(p@) is None,
        },
        path_file_name(p@) is Some ==> r is Some,
        r matches Some(d) ==> keeps_parent(d@),
{
    match std::path::Path::new(p).parent() {
        Some(n) => Some(n.to_string_lossy().to_string()),
        None => None,
    }
}

/// Calls `Path::join` and converts the result to text (lossily). The
/// contract names the result, and says that joining a component that is a
/// single normal one on every platform makes it the file name of the result
/// (a relative component without a prefix is appended after a separator),
/// and that joining one to `.` gives a path whose parent is `.`.
#[verifier::external_body]
pub(crate) fn join(base: &str, child: &str) -> (r: String)
    ensures
        r@ == path_join(base@, child@),
        is_join_safe_name(child@) ==> path_file_name(r@) == Some(child@),
        is_join_safe_name(child@) && base@ == "."@ ==> path_parent(r@) == Some(base@),
{
    std::path::Path::new(base).join(child).to_string_lossy().to_string()
}

/// The extension of the last component, where it has one
/// (`Path::extension`).
pub uninterp spec fn path_extension(p: Seq<char>) -> Option<Seq<char>>;

/// Calls `Path::extension` and converts the extension to text (lossily).
/// The contract names the result.
#[verifier::external_body]
pub(crate) fn extension(p: &str) -> (r: Option<String>)
    ensures
        match r {
            Some(n) => path_extension(p@) == Some(n@),
            None => path_extension(p@) is None,
        },
{
    match std::path::Path::new(p).extension() {
        Some(n) => Some(n.to_string_lossy().to_string()),
        None => None,
    }
}

/// The path with its extension replaced or added (`Path::with_extension`).
pub uninterp spec fn path_with_extension(p: Seq<char>, ext: Seq<char>) -> Seq<char>;

/// Calls `Path::with_extension` and converts the result to text (lossily).
/// The contract names the result. `PathBuf::set_extension` panics on an
/// extension that holds a path separator, so the extension holds none (`/`,
/// and `\\` too, which some platforms take for one).
#[verifier::external_body]
pub(crate) fn with_extension(p: &str, ext: &str) -> (r: String)
    requires
        !ext@.contains('/'),
        !ext@.contains('\\'),
    ensures
        r@ == path_with_extension(p@, ext@),
{
    std::path::Path::new(p).with_extension(ext).to_string_lossy().to_string()
}

/// A lower-case hexadecimal digit.
pub open spec fn is_lower_hex(c: char) -> bool {
    ('0' <= c && c <= '9') || ('a' <= c && c <= 'f')
}

/// The hyphenated form of a UUID: 36 characters, hyphens at positions 8,
/// 13, 18 and 23, lower-case hexadecimal digits elsewhere.
pub open spec fn is_uuid_text(u: Seq<char>) -> bool {
    &&& u.len() == 36
    &&& u[8] == '-' && u[13] == '-' && u[18] == '-' && u[23] == '-'
    &&& forall|i: int|
        0 <= i < 36 && i != 8 && i != 13 && i != 18 && i != 23 ==> is_lower_hex(#[trigger] u[i])
}

/// A fresh random UUID (`uuid::Uuid::new_v4`) in its hyphenated form
/// (`to_string`, which writes the lower-case hyphenated form). Nothing else
/// is said of it: it is random.
#[verifier::external_body]
pub(crate) fn new_uuid() -> (r: String)
    ensures
        is_uuid_text(r@),
{
    uuid::Uuid::new_v4().to_string()
}

/// A file next to `path` (in its parent directory) with the given name.
pub open spec fn sibling_path(path: Seq<char>, name: Seq<char>) -> Seq<char> {
    match path_parent(path) {
        Some(d) => path_join(d, name),
        None => name,
    }
}

/// A file next to `path` with the given name.
pub fn sibling(path: &str, name: &str) -> (r: String)
    ensures
        r@ == sibling_path(path@, name@),
{
    match parent(path) {
        Some(d) => join(d.as_str(), name),
        None => name.to_string(),
    }
}

} // verus!
