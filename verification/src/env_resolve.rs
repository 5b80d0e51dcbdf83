//! Resolution of the directory that holds the broker executable.
//!
//! Paths are plain strings whose components are separated by `/`.

use vstd::prelude::*;
use vstd::string::*;

verus! {

/// The separator between the components of a path.
pub open spec fn separator() -> char {
    '/'
}

/// Whether `path` starts at the root, so that joining it to a base discards the base.
pub open spec fn is_rooted(path: Seq<char>) -> bool {
    path.len() > 0 && path[0] == separator()
}

/// `base` extended by `segment`.
///
/// A rooted segment replaces the base. Otherwise the segment is appended, after a
/// separator unless the base is empty or already ends in one. Joining the empty
/// segment therefore leaves a non-empty base with a trailing separator.
pub open spec fn spec_join(base: Seq<char>, segment: Seq<char>) -> Seq<char> {
    if is_rooted(segment) {
        segment
    } else if base.len() == 0 || base.last() == separator() {
        base + segment
    } else {
        base.push(separator()) + segment
    }
}

/// Whether the value of the `ENVIRONMENT` variable selects development mode.
/// Only the exact value `DEV` does; an unset variable does not.
pub open spec fn spec_is_dev(environment: Option<&str>) -> bool {
    match environment {
        Some(value) => value@ == "DEV"@,
        None => false,
    }
}

/// The folder, relative to the working directory, that holds the broker executable.
pub open spec fn spec_binary_location(environment: Option<&str>) -> Seq<char> {
    if spec_is_dev(environment) {
        "binaries"@
    } else {
        Seq::empty()
    }
}

/// The directory that holds the broker executable.
pub open spec fn spec_external_binary_path(
    environment: Option<&str>,
    current_dir: Seq<char>,
) -> Seq<char> {
    spec_join(current_dir, spec_binary_location(environment))
}

/// Joins `segment` to `base`.
pub fn join_path(base: &str, segment: &str) -> (joined: String)
    ensures
        joined@ == spec_join(base@, segment@),
{
    let segment_len: usize = segment.unicode_len();
    if segment_len > 0 && segment.get_char(0) == '/' {
        return String::from_str(segment);
    }
    let base_len: usize = base.unicode_len();
    let mut joined = String::from_str(base);
    if base_len > 0 && base.get_char(base_len - 1) != '/' {
        proof {
            reveal_strlit("/");
            assert("/"@ =~= seq![separator()]);
            assert(base@ + seq![separator()] =~= base@.push(separator()));
        }
        joined.append("/");
    }
    joined.append(segment);
    joined
}

/// Tells whether `environment`, the value of the `ENVIRONMENT` variable if it is
/// set, selects development mode.
pub fn is_dev(environment: Option<&str>) -> (dev: bool)
    ensures
        dev == spec_is_dev(environment),
{
    match environment {
        Some(value) => String::from_str(value) == String::from_str("DEV"),
        None => false,
    }
}

/// Computes the directory that holds the broker executable: the folder `binaries`
/// below the working directory in development mode, the working directory itself
/// otherwise.
pub fn get_external_binary_path(environment: Option<&str>, current_dir: &str) -> (directory: String)
    ensures
        directory@ == spec_external_binary_path(environment, current_dir@),
{
    let binary_location = if is_dev(environment) {
        "binaries"
    } else {
        proof {
            reveal_strlit("");
            assert(""@ =~= Seq::<char>::empty());
        }
        ""
    };
    join_path(current_dir, binary_location)
}

} // verus!
