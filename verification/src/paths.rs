//! Path arithmetic, left to `std::path`.
//!
//! What `std::path` makes of a path depends on separators, roots, trailing
//! slashes and dots, and on the platform that the library is built for. The
//! library does not restate those rules: each result has a name, which
//! stands for what `std::path` gives in this build, and the contracts that
//! depend on it speak of that name.

use vstd::prelude::*;

verus! {

/// The directory in which profiles are kept.
pub const DOFI_DIR: &'static str = ".dofi";

/// The extension of a profile's file.
pub const PROFILE_EXTENSION: &'static str = "toml";

/// What `std::path::Path::parent` makes of `path`: the path without its
/// final component, or `None` where it ends in a root or is empty.
pub uninterp spec fn parent_of(path: Seq<char>) -> Option<Seq<char>>;

/// What `std::path::Path::join` makes of `base` and `path`.
pub uninterp spec fn joined(base: Seq<char>, path: Seq<char>) -> Seq<char>;

/// Calls `std::path::Path::parent` on `path`. The contract claims only that
/// the result is a function of the path, named [`parent_of`]; the parent of
/// a path that is valid UTF-8 is valid UTF-8 too, so the conversion back to
/// a string loses nothing.
#[verifier::external_body]
pub(crate) fn parent_dir(path: &str) -> (parent: Option<String>)
    ensures
        parent.deep_view() == parent_of(path@),
{
    match std::path::Path::new(path).parent() {
        Some(dir) => Some(dir.to_string_lossy().into_owned()),
        None => None,
    }
}

/// Calls `std::path::Path::join`, which puts `path` behind `base`, or
/// replaces `base` where `path` is absolute. The contract claims only that
/// the result is a function of the two, named [`joined`].
#[verifier::external_body]
pub(crate) fn join_path(base: &str, path: &str) -> (whole: String)
    ensures
        whole@ == joined(base@, path@),
{
    std::path::Path::new(base).join(path).to_string_lossy().into_owned()
}

/// The name of a profile's file: the profile's name in full, a dot, and
/// [`PROFILE_EXTENSION`].
pub open spec fn file_name_of(profile: Seq<char>) -> Seq<char> {
    profile + "."@ + PROFILE_EXTENSION@
}

/// The name of a profile's file. A dot in the profile's name stays: two
/// profiles never share a file.
pub fn file_name(profile: &str) -> (name: String)
    ensures
        name@ == file_name_of(profile@),
{
    String::from_str(profile).concat(".").concat(PROFILE_EXTENSION)
}

/// Where a profile is stored: its file, by [`file_name`], joined to
/// [`DOFI_DIR`]. A profile name that is itself an absolute path replaces
/// the directory, as `join` has it: nothing here says that the file lies
/// inside [`DOFI_DIR`].
pub fn profile_path(profile: &String) -> (path: String)
    ensures
        path@ == joined(DOFI_DIR@, file_name_of(profile@)),
{
    let name = file_name(profile.as_str());
    join_path(DOFI_DIR, name.as_str())
}

} // verus!
