use vstd::prelude::*;

verus! {

/// The whole version `major.minor.patch`: the three numeric components of the
/// package version joined by dots, with no pre-release or build suffix.
pub open spec fn whole_version(major: Seq<char>, minor: Seq<char>, patch: Seq<char>) -> Seq<char> {
    major + seq!['.'] + minor + seq!['.'] + patch
}

/// Converts the client version to a whole version string (e.g. the version
/// `1.2.3-alpha.4`, whose components are `1`, `2` and `3`, gives `1.2.3`).
///
/// The components are those of the package version, as Cargo hands them to the
/// build (`CARGO_PKG_VERSION_MAJOR`, `_MINOR` and `_PATCH`).
pub fn client_version_to_whole(major: &str, minor: &str, patch: &str) -> (whole: String)
    ensures
        whole@ == whole_version(major@, minor@, patch@),
{
    let mut whole = String::from_str(major);
    whole.append(".");
    whole.append(minor);
    whole.append(".");
    whole.append(patch);
    proof {
        reveal_strlit(".");
    }
    whole
}

} // verus!
