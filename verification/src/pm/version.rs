//! Package version requests and what they resolve to.
use crate::text::{chars_of, owned, str_eq};
use vstd::prelude::*;

verus! {

/// A resolved version: a tag, a branch or a commit of the source repository.
pub enum ResolvedVersion {
    Tag(String),
    Branch(String),
    Commit(String),
}

/// What a package's version field asks for.
pub enum VersionRequest {
    /// `latest`: the newest release tag, or else the default branch.
    Latest,
    /// A semver range, written with a leading `^` or `~`.
    Range(String),
    /// Any other text names a version exactly.
    Explicit(String),
}

/// Kind of a version request.
pub open spec fn request_kind(v: Seq<char>) -> int {
    if v == "latest"@ {
        0
    } else if v.len() > 0 && (v[0] == '^' || v[0] == '~') {
        1
    } else {
        2
    }
}

/// Reads a package's version field.
pub fn classify_version(v: &str) -> (r: VersionRequest)
    ensures
        r is Latest <==> request_kind(v@) == 0,
        r matches VersionRequest::Range(s) ==> request_kind(v@) == 1 && s@ == v@,
        r matches VersionRequest::Explicit(s) ==> request_kind(v@) == 2 && s@ == v@,
{
    proof {
        reveal_strlit("latest");
    }
    if str_eq(v, "latest") {
        return VersionRequest::Latest;
    }
    let c = chars_of(v);
    if c.len() > 0 && (c[0] == '^' || c[0] == '~') {
        VersionRequest::Range(owned(v))
    } else {
        VersionRequest::Explicit(owned(v))
    }
}

/// What `latest` resolves to: the newest release tag when the repository
/// has one, else its default branch.
pub fn resolve_latest(latest_tag: Option<String>, default_branch: String) -> (r: ResolvedVersion)
    ensures
        latest_tag matches Some(t) ==> r == ResolvedVersion::Tag(t),
        latest_tag is None ==> r == ResolvedVersion::Branch(default_branch),
{
    match latest_tag {
        Some(t) => ResolvedVersion::Tag(t),
        None => ResolvedVersion::Branch(default_branch),
    }
}

} // verus!
