//! Conflict detection before a submission: what the registry already holds and what is already
//! waiting in open pull requests.

use vstd::prelude::*;
use vstd::string::*;
use crate::submission::{title_parts, PackageSubmission};
use crate::text::same_text;
use crate::version::{PackageVersion, VersionOrder};

verus! {

/// An open pull request against the registry's repository, as far as planning reads it.
#[derive(Clone, Debug)]
pub struct PendingPr {
    pub title: Option<String>,
    pub number: u64,
    pub url: String,
}

/// How an open pull request stands to the candidate submission.
#[derive(Clone, Copy, Debug, PartialEq, Eq, Structural)]
pub enum Standing {
    /// Its title is missing or malformed, or it is about another package.
    Unrelated,
    /// It submits a version after the candidate's: the candidate may still be queued.
    Ahead,
    /// It submits the candidate's own version.
    Duplicate,
    /// It submits a version before the candidate's.
    Behind,
}

/// The pull request that stops a submission.
#[derive(Clone, Copy, Debug, PartialEq, Eq, Structural)]
pub struct PendingConflict {
    /// Position of the pull request in the list that was examined.
    pub index: usize,
    /// The pull request's number.
    pub number: u64,
    /// The version it submits.
    pub version: PackageVersion,
    /// Whether it submits the candidate's own version.
    pub duplicate: bool,
}

/// Whether `name` is among `names`.
pub open spec fn lists_text(names: Seq<String>, name: Seq<char>) -> bool {
    exists|i: int| 0 <= i < names.len() && (#[trigger] names[i])@ == name
}

/// How a title stands to the candidate `name` at `version`.
pub open spec fn title_standing(title: Option<String>, name: Seq<char>, version: PackageVersion)
    -> Standing {
    match title {
        None => Standing::Unrelated,
        Some(t) => match title_parts(t@) {
            Err(_) => Standing::Unrelated,
            Ok((n, v)) => if n != name {
                Standing::Unrelated
            } else {
                match version.order(v) {
                    VersionOrder::Older => Standing::Ahead,
                    VersionOrder::Same => Standing::Duplicate,
                    VersionOrder::Newer => Standing::Behind,
                }
            },
        },
    }
}

/// Whether a pull request of this standing stops the candidate.
pub open spec fn blocks(s: Standing) -> bool {
    s == Standing::Duplicate || s == Standing::Behind
}

/// Position of the first pull request that stops the candidate, or the list's length.
pub open spec fn first_blocking(prs: Seq<PendingPr>, name: Seq<char>, version: PackageVersion)
    -> int
    decreases prs.len(),
{
    if prs.len() == 0 {
        0
    } else if blocks(title_standing(prs[0].title, name, version)) {
        0
    } else {
        1 + first_blocking(prs.drop_first(), name, version)
    }
}

/// Positions of the pull requests that are ahead of the candidate, in the list's order.
pub open spec fn ahead_positions(prs: Seq<PendingPr>, name: Seq<char>, version: PackageVersion)
    -> Seq<usize>
    decreases prs.len(),
{
    if prs.len() == 0 {
        Seq::empty()
    } else {
        let before = ahead_positions(prs.drop_last(), name, version);
        if title_standing(prs.last().title, name, version) == Standing::Ahead {
            before.push((prs.len() - 1) as usize)
        } else {
            before
        }
    }
}

/// The version that a pull request's title names (meaningful for related pull requests only).
pub open spec fn titled_version(title: Option<String>) -> PackageVersion {
    match title {
        Some(t) => match title_parts(t@) {
            Ok((_, v)) => v,
            Err(_) => PackageVersion { major: 0, minor: 0, patch: 0 },
        },
        None => PackageVersion { major: 0, minor: 0, patch: 0 },
    }
}

pub proof fn lemma_first_blocking(prs: Seq<PendingPr>, name: Seq<char>, version: PackageVersion)
    ensures
        0 <= first_blocking(prs, name, version) <= prs.len(),
        first_blocking(prs, name, version) < prs.len() ==> blocks(
            title_standing(prs[first_blocking(prs, name, version)].title, name, version),
        ),
        forall|j: int|
            0 <= j < first_blocking(prs, name, version) ==> !blocks(
                title_standing((#[trigger] prs[j]).title, name, version),
            ),
    decreases prs.len(),
{
    if prs.len() == 0 {
    } else if blocks(title_standing(prs[0].title, name, version)) {
    } else {
        let t = prs.drop_first();
        lemma_first_blocking(t, name, version);
        assert forall|j: int| 0 <= j < first_blocking(prs, name, version) implies !blocks(
            title_standing((#[trigger] prs[j]).title, name, version),
        ) by {
            if j > 0 {
                assert(t[j - 1] == prs[j]);
            }
        }
    }
}

/// The first blocking position is the one before which nothing blocks.
pub proof fn lemma_first_blocking_is(
    prs: Seq<PendingPr>,
    name: Seq<char>,
    version: PackageVersion,
    i: int,
)
    requires
        0 <= i <= prs.len(),
        i < prs.len() ==> blocks(title_standing(prs[i].title, name, version)),
        forall|j: int|
            0 <= j < i ==> !blocks(title_standing((#[trigger] prs[j]).title, name, version)),
    ensures
        first_blocking(prs, name, version) == i,
{
    lemma_first_blocking(prs, name, version);
    let k = first_blocking(prs, name, version);
    if k < i {
        assert(!blocks(title_standing(prs[k].title, name, version)));
    }
}

/// Whether the registry's list of package names holds `name`.
pub fn is_listed(names: &Vec<String>, name: &str) -> (r: bool)
    ensures
        r == lists_text(names@, name@),
{
    let mut i: usize = 0;
    while i < names.len()
        invariant
            i <= names.len(),
            forall|j: int| 0 <= j < i ==> (#[trigger] names@[j])@ != name@,
        decreases names.len() - i,
    {
        if same_text(names[i].as_str(), name) {
            return true;
        }
        i = i + 1;
    }
    false
}

/// Whether `version` is among the published versions, compared by its text form.
pub fn is_published(versions: &Vec<String>, version: &PackageVersion) -> (r: bool)
    ensures
        r == lists_text(versions@, version.text()),
{
    let text = version.to_string();
    is_listed(versions, text.as_str())
}

/// Classifies one open pull request against the candidate.
pub fn standing_of(pr: &PendingPr, name: &str, version: &PackageVersion) -> (r: (
    Standing,
    PackageVersion,
))
    ensures
        r.0 == title_standing(pr.title, name@, *version),
        r.0 != Standing::Unrelated ==> r.1 == titled_version(pr.title),
{
    let zero = PackageVersion { major: 0, minor: 0, patch: 0 };
    match &pr.title {
        None => (Standing::Unrelated, zero),
        Some(t) => match PackageSubmission::try_from_title(t.as_str()) {
            Err(_) => (Standing::Unrelated, zero),
            Ok(s) => {
                if !same_text(s.name.as_str(), name) {
                    (Standing::Unrelated, zero)
                } else {
                    match version.compare(&s.version) {
                        VersionOrder::Older => (Standing::Ahead, s.version),
                        VersionOrder::Same => (Standing::Duplicate, s.version),
                        VersionOrder::Newer => (Standing::Behind, s.version),
                    }
                }
            },
        },
    }
}

/// Examines the open pull requests in order. The first one that submits the candidate's version
/// or an earlier one stops the submission; those that submit a later version are only reported.
pub fn check_pending(prs: &Vec<PendingPr>, name: &str, version: &PackageVersion) -> (r: Result<
    Vec<usize>,
    PendingConflict,
>)
    ensures
        match r {
            Ok(ahead) => first_blocking(prs@, name@, *version) == prs@.len() && ahead@
                == ahead_positions(prs@, name@, *version),
            Err(c) => c.index == first_blocking(prs@, name@, *version) && c.index < prs@.len()
                && c.number == prs@[c.index as int].number && c.version == titled_version(
                prs@[c.index as int].title,
            ) && c.duplicate == (title_standing(prs@[c.index as int].title, name@, *version)
                == Standing::Duplicate),
        },
{
    let mut ahead: Vec<usize> = Vec::new();
    let mut i: usize = 0;
    while i < prs.len()
        invariant
            i <= prs.len(),
            forall|j: int|
                0 <= j < i ==> !blocks(title_standing((#[trigger] prs@[j]).title, name@, *version)),
            ahead@ == ahead_positions(prs@.subrange(0, i as int), name@, *version),
        decreases prs.len() - i,
    {
        let (standing, pending) = standing_of(&prs[i], name, version);
        proof {
            let next = prs@.subrange(0, i + 1);
            assert(next.drop_last() =~= prs@.subrange(0, i as int));
            assert(next.last() == prs@[i as int]);
        }
        match standing {
            Standing::Unrelated => {},
            Standing::Ahead => {
                ahead.push(i);
            },
            Standing::Duplicate => {
                proof {
                    lemma_first_blocking_is(prs@, name@, *version, i as int);
                }
                return Err(
                    PendingConflict { index: i, number: prs[i].number, version: pending, duplicate: true },
                );
            },
            Standing::Behind => {
                proof {
                    lemma_first_blocking_is(prs@, name@, *version, i as int);
                }
                return Err(
                    PendingConflict { index: i, number: prs[i].number, version: pending, duplicate: false },
                );
            },
        }
        i = i + 1;
    }
    proof {
        lemma_first_blocking_is(prs@, name@, *version, i as int);
        assert(prs@.subrange(0, i as int) =~= prs@);
    }
    Ok(ahead)
}

/// How an open pull request for the same package weighs, by the order of the two versions:
/// one that submits a later version than the candidate's only earns a warning; one that
/// submits the candidate's version, or an earlier one, stops the candidate.
pub proof fn lemma_pending_by_order(
    name: Seq<char>,
    title: String,
    pending: PackageVersion,
    candidate: PackageVersion,
)
    requires
        title_parts(title@) == Ok::<(Seq<char>, PackageVersion), crate::submission::TitleError>(
            (name, pending),
        ),
    ensures
        candidate.precedes(pending) ==> title_standing(Some(title), name, candidate)
            == Standing::Ahead && !blocks(Standing::Ahead),
        candidate == pending ==> title_standing(Some(title), name, candidate)
            == Standing::Duplicate && blocks(Standing::Duplicate),
        pending.precedes(candidate) ==> title_standing(Some(title), name, candidate)
            == Standing::Behind && blocks(Standing::Behind),
        title_standing(Some(title), name, candidate) != Standing::Unrelated,
{
}

/// A pull request whose title is missing or malformed, or names another package, never stops
/// a submission.
pub proof fn lemma_unrelated_never_blocks(
    title: Option<String>,
    name: Seq<char>,
    candidate: PackageVersion,
)
    requires
        title is None || title_parts(title.unwrap()@) is Err || title_parts(
            title.unwrap()@,
        ).unwrap().0 != name,
    ensures
        title_standing(title, name, candidate) == Standing::Unrelated,
        !blocks(title_standing(title, name, candidate)),
{
}

} // verus!
