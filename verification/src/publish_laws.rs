//! What holds of every publish run.

use vstd::prelude::*;
use crate::planner::lists_text;
use crate::error::ErrorKind;
use crate::upload::{SubprocessFailure, UploadError};
use crate::publish::{
    consistent, mutating, rank, step_spec, terminal, Action, Event, PublishError, Publisher, Stage,
};

verus! {

/// Whether two errors are the same failure.
pub open spec fn same_error(x: PublishError, y: PublishError) -> bool {
    match (x, y) {
        (PublishError::AlreadyPublished, PublishError::AlreadyPublished) => true,
        (PublishError::Pending(c), PublishError::Pending(d)) => c == d,
        (PublishError::MissingDescription, PublishError::MissingDescription) => true,
        (PublishError::NotAFork, PublishError::NotAFork) => true,
        (PublishError::ForeignFork, PublishError::ForeignFork) => true,
        (PublishError::UnreachableHead, PublishError::UnreachableHead) => true,
        (PublishError::Aborted, PublishError::Aborted) => true,
        (PublishError::Subprocess(f), PublishError::Subprocess(g)) => f.step == g.step
            && f.stderr@ == g.stderr@,
        (PublishError::Remote(m), PublishError::Remote(n)) => m@ == n@,
        (PublishError::OutOfTurn, PublishError::OutOfTurn) => true,
        _ => false,
    }
}

/// Whether two actions ask for the same thing.
pub open spec fn same_action(a: Action, b: Action) -> bool {
    match (a, b) {
        (Action::FetchPackages, Action::FetchPackages) => true,
        (Action::FetchVersions { name: x }, Action::FetchVersions { name: y }) => x@ == y@,
        (Action::FetchPullRequests, Action::FetchPullRequests) => true,
        (Action::ResolveFork { warnings: x }, Action::ResolveFork { warnings: y }) => x@ == y@,
        (Action::FetchHead, Action::FetchHead) => true,
        (Action::ListBranches, Action::ListBranches) => true,
        (Action::ConfirmOverwrite { branch: x }, Action::ConfirmOverwrite { branch: y }) => x@
            == y@,
        (Action::DeleteBranch { branch: x }, Action::DeleteBranch { branch: y }) => x@ == y@,
        (
            Action::CreateBranch { branch: x, sha: s },
            Action::CreateBranch { branch: y, sha: t },
        ) => x@ == y@ && s@ == t@,
        (Action::ListFiles, Action::ListFiles) => true,
        (Action::ConfirmUpload, Action::ConfirmUpload) => true,
        (Action::ProbeGit, Action::ProbeGit) => true,
        (Action::Upload { method: m, warned: w }, Action::Upload { method: n, warned: v }) => m
            == n && w == v,
        (
            Action::CreatePullRequest { title: t1, head: h1, base: b1, body: o1, draft: d1 },
            Action::CreatePullRequest { title: t2, head: h2, base: b2, body: o2, draft: d2 },
        ) => t1@ == t2@ && h1@ == h2@ && b1@ == b2@ && o1@ == o2@ && d1 == d2,
        (Action::Finish, Action::Finish) => true,
        (Action::Fail(x), Action::Fail(y)) => same_error(x, y),
        _ => false,
    }
}

/// A sequence of steps: each state follows from the one before it by the event observed there,
/// with the action that was asked for.
pub open spec fn is_run(states: Seq<Publisher>, events: Seq<Event>, actions: Seq<Action>) -> bool {
    &&& states.len() == events.len() + 1
    &&& actions.len() == events.len()
    &&& forall|i: int|
        0 <= i < events.len() ==> step_spec(
            #[trigger] states[i],
            events[i],
            states[i + 1],
            actions[i],
        )
}

/// A run never goes back to an earlier stage.
pub proof fn lemma_no_way_back(p: Publisher, e: Event, q: Publisher, a: Action)
    requires
        step_spec(p, e, q, a),
    ensures
        rank(q.stage) >= rank(p.stage),
{
}

/// A run that is over stays as it is, and asks for nothing more.
pub proof fn lemma_over_is_over(p: Publisher, e: Event, q: Publisher, a: Action)
    requires
        step_spec(p, e, q, a),
        terminal(p.stage),
    ensures
        q == p,
        a matches Action::Fail(PublishError::OutOfTurn),
        !mutating(a),
{
}

/// The fork and the registry are changed only by a live run that has got as far as the fork's
/// branches.
pub proof fn lemma_mutation_comes_late(p: Publisher, e: Event, q: Publisher, a: Action)
    requires
        step_spec(p, e, q, a),
        mutating(a),
    ensures
        rank(p.stage) >= rank(Stage::CheckBranch),
        !terminal(p.stage),
{
}

/// A version that the registry already lists ends the run with a version conflict, and the
/// step asks for nothing that changes anything.
pub proof fn lemma_published_version_fails(
    p: Publisher,
    versions: Vec<String>,
    q: Publisher,
    a: Action,
)
    requires
        p.stage == Stage::CheckVersions,
        lists_text(versions@, p.manifest.version.text()),
        step_spec(p, Event::Versions(versions), q, a),
    ensures
        q.stage == Stage::Failed,
        a matches Action::Fail(err) && err.spec_kind() == ErrorKind::VersionConflict,
        !mutating(a),
{
}

/// Steps keep a run consistent, and a dry run stays a dry run.
pub proof fn lemma_step_keeps_consistent(p: Publisher, e: Event, q: Publisher, a: Action)
    requires
        consistent(p),
        step_spec(p, e, q, a),
    ensures
        consistent(q),
        q.dry_run == p.dry_run,
{
}

/// A dry run never asks for a branch to be deleted or created, for an upload, or for a pull
/// request.
pub proof fn lemma_dry_run_never_mutates(p: Publisher, e: Event, q: Publisher, a: Action)
    requires
        consistent(p),
        p.dry_run,
        step_spec(p, e, q, a),
    ensures
        !mutating(a),
{
}

/// While the registry and the open pull requests are checked, a dry run and a live run do the
/// same: from the same stage, on the same observation, they move to the same stage and ask for
/// the same thing, with the same failure or the same warnings. (The two runs here differ at
/// most in whether they are dry.)
pub proof fn lemma_checks_ignore_dry_run(
    live: Publisher,
    dry: Publisher,
    e: Event,
    live_next: Publisher,
    live_action: Action,
    dry_next: Publisher,
    dry_action: Action,
)
    requires
        live.manifest == dry.manifest,
        live.stage == dry.stage,
        live.is_new_package == dry.is_new_package,
        rank(live.stage) <= rank(Stage::CheckPendingPRs),
        step_spec(live, e, live_next, live_action),
        step_spec(dry, e, dry_next, dry_action),
    ensures
        live_next.stage == dry_next.stage,
        live_next.is_new_package == dry_next.is_new_package,
        same_action(live_action, dry_action),
{
}

/// Along a run the stages only ever advance.
pub proof fn lemma_run_advances(
    states: Seq<Publisher>,
    events: Seq<Event>,
    actions: Seq<Action>,
    i: int,
    j: int,
)
    requires
        is_run(states, events, actions),
        0 <= i <= j < states.len(),
    ensures
        rank(states[i].stage) <= rank(states[j].stage),
    decreases j - i,
{
    if i < j {
        lemma_run_advances(states, events, actions, i, j - 1);
        lemma_no_way_back(states[j - 1], events[j - 1], states[j], actions[j - 1]);
    }
}

/// Along a run that began consistent, every state is consistent and as dry as the first.
pub proof fn lemma_run_consistent(
    states: Seq<Publisher>,
    events: Seq<Event>,
    actions: Seq<Action>,
    i: int,
)
    requires
        is_run(states, events, actions),
        consistent(states[0]),
        0 <= i < states.len(),
    ensures
        consistent(states[i]),
        states[i].dry_run == states[0].dry_run,
    decreases i,
{
    if i > 0 {
        lemma_run_consistent(states, events, actions, i - 1);
        lemma_step_keeps_consistent(states[i - 1], events[i - 1], states[i], actions[i - 1]);
    }
}

/// No step of a dry run changes the fork or the registry.
pub proof fn lemma_dry_run_changes_nothing(
    states: Seq<Publisher>,
    events: Seq<Event>,
    actions: Seq<Action>,
)
    requires
        is_run(states, events, actions),
        consistent(states[0]),
        states[0].dry_run,
    ensures
        forall|i: int| 0 <= i < actions.len() ==> !mutating(#[trigger] actions[i]),
{
    assert forall|i: int| 0 <= i < actions.len() implies !mutating(#[trigger] actions[i]) by {
        lemma_run_consistent(states, events, actions, i);
        lemma_dry_run_never_mutates(states[i], events[i], states[i + 1], actions[i]);
    }
}

/// A run in which the registry turns out to list the version already never changes the fork
/// or the registry: not before the list is seen, not on seeing it, and not afterwards.
pub proof fn lemma_published_version_changes_nothing(
    states: Seq<Publisher>,
    events: Seq<Event>,
    actions: Seq<Action>,
    k: int,
    versions: Vec<String>,
)
    requires
        is_run(states, events, actions),
        0 <= k < events.len(),
        states[k].stage == Stage::CheckVersions,
        events[k] == Event::Versions(versions),
        lists_text(versions@, states[k].manifest.version.text()),
    ensures
        forall|i: int| 0 <= i < actions.len() ==> !mutating(#[trigger] actions[i]),
        forall|i: int| k < i < states.len() ==> (#[trigger] states[i]).stage == Stage::Failed,
{
    lemma_published_version_fails(states[k], versions, states[k + 1], actions[k]);
    assert forall|i: int| k < i < states.len() implies (#[trigger] states[i]).stage
        == Stage::Failed by {
        lemma_run_advances(states, events, actions, k + 1, i);
    }
    assert forall|i: int| 0 <= i < actions.len() implies !mutating(#[trigger] actions[i]) by {
        if i < k {
            lemma_run_advances(states, events, actions, i, k);
            if mutating(actions[i]) {
                lemma_mutation_comes_late(states[i], events[i], states[i + 1], actions[i]);
            }
        } else if i > k {
            assert(states[i].stage == Stage::Failed);
            lemma_over_is_over(states[i], events[i], states[i + 1], actions[i]);
        }
    }
}

/// A git command that failed during the upload ends the run with a subprocess failure that
/// carries the command's standard error.
pub proof fn lemma_failed_command_ends_the_run(
    p: Publisher,
    failure: SubprocessFailure,
    q: Publisher,
    a: Action,
)
    requires
        p.stage == Stage::UploadFiles,
        step_spec(p, Event::UploadFailed(UploadError::Subprocess(failure)), q, a),
    ensures
        q.stage == Stage::Failed,
        a matches Action::Fail(PublishError::Subprocess(g)) && g.step == failure.step && g.stderr@
            == failure.stderr@,
        a matches Action::Fail(err) && err.spec_kind() == ErrorKind::SubprocessFailure,
{
}

} // verus!
