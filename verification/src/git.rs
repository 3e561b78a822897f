//! The git client as the publisher sees it: which version it reports, and which way of
//! uploading that version allows.

use vstd::prelude::*;
use vstd::string::*;
use crate::text::{decimal_number, parse_decimal};

verus! {

/// How the files reach the submission branch.
#[derive(Clone, Copy, Debug, PartialEq, Eq, Structural)]
pub enum UploadMethod {
    /// Clone sparsely, copy, commit and push.
    SparseCheckout,
    /// Create each file through the forge's API.
    Api,
}

/// What the probe of the git client concluded.
#[derive(Clone, Copy, Debug, PartialEq, Eq, Structural)]
pub struct GitCapability {
    pub method: UploadMethod,
    /// Whether the version could not be read, so that the slower method was chosen blindly.
    pub warned: bool,
}

/// The capture groups of the leftmost match of a pattern in a text, as the `regex` crate finds
/// them: group 0 is the whole match, a group that took no part is `None`. The whole is `None`
/// where the pattern does not compile or does not match.
pub uninterp spec fn regex_groups(pattern: Seq<char>, text: Seq<char>) -> Option<
    Seq<Option<Seq<char>>>,
>;

/// `Regex::new` followed by `Regex::captures` of the `regex` crate. The contract only names the
/// outcome: the groups handed back are those of the crate, one for one.
#[verifier::external_body]
pub(crate) fn capture_groups(pattern: &str, text: &str) -> (r: Option<Vec<Option<String>>>)
    ensures
        r is Some == regex_groups(pattern@, text@) is Some,
        r is Some ==> r.unwrap()@.len() == regex_groups(pattern@, text@).unwrap().len()
            && forall|i: int|
            0 <= i < r.unwrap()@.len() ==> match (#[trigger] r.unwrap()@[i]) {
                Some(s) => regex_groups(pattern@, text@).unwrap()[i] == Some(s@),
                None => regex_groups(pattern@, text@).unwrap()[i] is None,
            },
{
    let re = match regex::Regex::new(pattern) {
        Ok(re) => re,
        Err(_) => return None,
    };
    let found = re.captures(text)?;
    Some(found.iter().map(|m| m.map(|m| m.as_str().to_string())).collect())
}

/// Whether a git client of this version offers cone-mode sparse checkout (2.25 and later).
pub open spec fn spec_supports_sparse_checkout(major: u32, minor: u32) -> bool {
    major > 2 || (major == 2 && minor >= 25)
}

/// The method for a client whose version was read, or not.
pub open spec fn capability_for(version: Option<(u32, u32)>) -> GitCapability {
    match version {
        Some((major, minor)) => GitCapability {
            method: if spec_supports_sparse_checkout(major, minor) {
                UploadMethod::SparseCheckout
            } else {
                UploadMethod::Api
            },
            warned: false,
        },
        None => GitCapability { method: UploadMethod::Api, warned: true },
    }
}

/// The pattern that the output of `git --version` is read with.
pub open spec fn version_pattern() -> Seq<char> {
    "git version (\\d+)\\.(\\d+)\\.(\\d+).*"@
}

/// The number that one capture group denotes.
pub open spec fn group_number(groups: Seq<Option<Seq<char>>>, i: int) -> Option<u32> {
    if 0 <= i < groups.len() {
        match groups[i] {
            Some(s) => decimal_number(s),
            None => None,
        }
    } else {
        None
    }
}

/// Major and minor version in the output of `git --version`.
pub open spec fn reported_version(output: Seq<char>) -> Option<(u32, u32)> {
    match regex_groups(version_pattern(), output) {
        Some(groups) => match (group_number(groups, 1), group_number(groups, 2)) {
            (Some(major), Some(minor)) => Some((major, minor)),
            _ => None,
        },
        None => None,
    }
}

/// What the probe concludes from the output of `git --version`, or from its failure. Where
/// the client could not be run or exited with an error the slower method is taken silently;
/// the warning is for an output that cannot be read.
pub open spec fn probed_capability(output: Option<Seq<char>>) -> GitCapability {
    match output {
        Some(text) => capability_for(reported_version(text)),
        None => GitCapability { method: UploadMethod::Api, warned: false },
    }
}

pub fn supports_sparse_checkout(major: u32, minor: u32) -> (r: bool)
    ensures
        r == spec_supports_sparse_checkout(major, minor),
{
    major > 2 || (major == 2 && minor >= 25)
}

/// Chooses the upload method for a client of a known version, and the slower one, with a
/// warning, where the version is not known.
pub fn select_upload_method(version: Option<(u32, u32)>) -> (r: GitCapability)
    ensures
        r == capability_for(version),
{
    match version {
        Some((major, minor)) => {
            if supports_sparse_checkout(major, minor) {
                GitCapability { method: UploadMethod::SparseCheckout, warned: false }
            } else {
                GitCapability { method: UploadMethod::Api, warned: false }
            }
        },
        None => GitCapability { method: UploadMethod::Api, warned: true },
    }
}

fn number_at(groups: &Vec<Option<String>>, i: usize, Ghost(spec_groups): Ghost<
    Seq<Option<Seq<char>>>,
>) -> (r: Option<u32>)
    requires
        groups@.len() == spec_groups.len(),
        forall|k: int|
            0 <= k < groups@.len() ==> match (#[trigger] groups@[k]) {
                Some(s) => spec_groups[k] == Some(s@),
                None => spec_groups[k] is None,
            },
    ensures
        r == group_number(spec_groups, i as int),
{
    if i < groups.len() {
        match &groups[i] {
            Some(s) => parse_decimal(s.as_str()),
            None => None,
        }
    } else {
        None
    }
}

/// Reads major and minor version out of the output of `git --version`.
pub fn read_git_version(output: &str) -> (r: Option<(u32, u32)>)
    ensures
        r == reported_version(output@),
{
    match capture_groups("git version (\\d+)\\.(\\d+)\\.(\\d+).*", output) {
        Some(groups) => {
            let ghost spec_groups = regex_groups(version_pattern(), output@).unwrap();
            let major = number_at(&groups, 1, Ghost(spec_groups));
            let minor = number_at(&groups, 2, Ghost(spec_groups));
            match (major, minor) {
                (Some(major), Some(minor)) => Some((major, minor)),
                _ => None,
            }
        },
        None => None,
    }
}

/// The capability probe: `output` is what `git --version` printed, or `None` where the client
/// could not be run or exited with an error.
pub fn check_git_version(output: Option<&str>) -> (r: GitCapability)
    ensures
        r == probed_capability(
            match output {
                Some(text) => Some(text@),
                None => None,
            },
        ),
{
    match output {
        Some(text) => select_upload_method(read_git_version(text)),
        None => GitCapability { method: UploadMethod::Api, warned: false },
    }
}

/// The upload method by the client's version: below 2.25 the files go through the API, from
/// 2.25 on through a sparse checkout, in both cases without a warning; a version that cannot
/// be read gives the API with a warning, and a client that could not be run the API without
/// one.
pub proof fn lemma_method_by_version(major: u32, minor: u32)
    ensures
        (major < 2 || (major == 2 && minor < 25)) ==> capability_for(Some((major, minor)))
            == (GitCapability { method: UploadMethod::Api, warned: false }),
        (major > 2 || (major == 2 && minor >= 25)) ==> capability_for(Some((major, minor)))
            == (GitCapability { method: UploadMethod::SparseCheckout, warned: false }),
        capability_for(None) == (GitCapability { method: UploadMethod::Api, warned: true }),
        probed_capability(None) == (GitCapability { method: UploadMethod::Api, warned: false }),
{
}

} // verus!
