use typship::git::UploadMethod;
use typship::planner::PendingPr;
use typship::upload::{GitStep, SubprocessFailure, UploadError};
use typship::error::ErrorKind;
use typship::publish::{
    parent_is_registry, Action, Event, ForkParent, HeadObject, ManifestInfo, PublishError,
    Publisher, Stage,
};
use typship::version::PackageVersion;

fn manifest() -> ManifestInfo {
    ManifestInfo {
        name: "foo".to_string(),
        version: PackageVersion::new(1, 0, 0),
        description: Some("x".to_string()),
        has_template: false,
    }
}

fn names(items: &[&str]) -> Vec<String> {
    items.iter().map(|s| s.to_string()).collect()
}

fn pr(title: &str, number: u64) -> PendingPr {
    PendingPr { title: Some(title.to_string()), number, url: String::new() }
}

fn fork() -> Event {
    Event::Fork {
        login: "me".to_string(),
        repo: "packages".to_string(),
        parent: Some(ForkParent { name: "packages".to_string(), owner: Some("typst".to_string()) }),
    }
}

fn mutates(a: &Action) -> bool {
    matches!(
        a,
        Action::DeleteBranch { .. }
            | Action::CreateBranch { .. }
            | Action::Upload { .. }
            | Action::CreatePullRequest { .. }
    )
}

fn fail_kind(a: &Action) -> Option<ErrorKind> {
    match a {
        Action::Fail(e) => Some(e.kind()),
        _ => None,
    }
}

#[test]
fn new_package_is_published_end_to_end() {
    let (mut p, first) = Publisher::start(manifest(), false);
    assert!(matches!(first, Action::FetchPackages));
    assert_eq!(p.stage, Stage::CheckRegistry);

    let a = p.step(Event::Packages(names(&["bar", "cetz"])));
    assert!(matches!(a, Action::FetchPullRequests));
    assert!(p.is_new_package);
    assert_eq!(p.stage, Stage::CheckPendingPRs);

    let a = p.step(Event::PullRequests(vec![pr("bar:1.0.0", 1)]));
    match a {
        Action::ResolveFork { warnings } => assert!(warnings.is_empty()),
        other => panic!("unexpected action {other:?}"),
    }
    assert_eq!(p.stage, Stage::VerifyFork);
    let s = p.submission();
    assert_eq!(s.name, "foo");
    assert!(s.msg.as_ref().unwrap().is_new_package);
    assert_eq!(s.msg.as_ref().unwrap().desc, "x");

    let a = p.step(fork());
    assert!(matches!(a, Action::FetchHead));
    assert_eq!(p.login, "me");
    assert_eq!(p.repo, "packages");

    let a = p.step(Event::Head(HeadObject::Commit { sha: "abc123".to_string() }));
    assert!(matches!(a, Action::ListBranches));
    assert_eq!(p.head, "abc123");

    let a = p.step(Event::Branches(names(&["main", "other-0.1.0"])));
    match a {
        Action::CreateBranch { branch, sha } => {
            assert_eq!(branch, "foo-1.0.0");
            assert_eq!(sha, "abc123");
        }
        other => panic!("unexpected action {other:?}"),
    }
    assert_eq!(p.stage, Stage::CreateBranch);

    let a = p.step(Event::Completed);
    assert!(matches!(a, Action::ListFiles));

    let a = p.step(Event::Files(names(&["typst.toml", "src/lib.typ"])));
    assert!(matches!(a, Action::ConfirmUpload));
    assert_eq!(p.files, names(&["typst.toml", "src/lib.typ"]));

    let a = p.step(Event::Answer(true));
    assert!(matches!(a, Action::ProbeGit));

    let a = p.step(Event::GitVersion(Some("git version 2.43.0\n".to_string())));
    match a {
        Action::Upload { method, warned } => {
            assert_eq!(method, UploadMethod::SparseCheckout);
            assert!(!warned);
        }
        other => panic!("unexpected action {other:?}"),
    }
    assert_eq!(p.stage, Stage::UploadFiles);

    let a = p.step(Event::Completed);
    match a {
        Action::CreatePullRequest { title, head, base, body, draft } => {
            assert_eq!(title, "foo:1.0.0");
            assert_eq!(head, "me:foo-1.0.0");
            assert_eq!(base, "main");
            assert!(body.starts_with("I am submitting\n- [x] a new package\n- [ ] an update for a package\n\nDescription: x\n\n"));
            assert!(!body.contains("template directory"));
            assert!(draft);
        }
        other => panic!("unexpected action {other:?}"),
    }
    assert_eq!(p.stage, Stage::CreatePullRequest);

    let a = p.step(Event::Completed);
    assert!(matches!(a, Action::Finish));
    assert_eq!(p.stage, Stage::Done);
}

#[test]
fn published_version_is_a_conflict_before_any_change() {
    let (mut p, _) = Publisher::start(manifest(), false);
    let a = p.step(Event::Packages(names(&["foo"])));
    match &a {
        Action::FetchVersions { name } => assert_eq!(name, "foo"),
        other => panic!("unexpected action {other:?}"),
    }
    assert!(!p.is_new_package);
    assert_eq!(p.stage, Stage::CheckVersions);

    let a = p.step(Event::Versions(names(&["0.9.0", "1.0.0"])));
    assert!(matches!(a, Action::Fail(PublishError::AlreadyPublished)));
    assert_eq!(fail_kind(&a), Some(ErrorKind::VersionConflict));
    assert_eq!(p.stage, Stage::Failed);

    for event in [
        Event::Completed,
        fork(),
        Event::Answer(true),
        Event::Branches(Vec::new()),
        Event::Head(HeadObject::Commit { sha: "s".to_string() }),
        Event::Files(Vec::new()),
        Event::GitVersion(None),
    ] {
        let a = p.step(event);
        assert!(matches!(a, Action::Fail(PublishError::OutOfTurn)));
        assert!(!mutates(&a));
        assert_eq!(p.stage, Stage::Failed);
    }
}

#[test]
fn update_of_a_listed_package_goes_on() {
    let (mut p, _) = Publisher::start(manifest(), false);
    p.step(Event::Packages(names(&["foo"])));
    let a = p.step(Event::Versions(names(&["0.9.0"])));
    assert!(matches!(a, Action::FetchPullRequests));
    assert_eq!(p.stage, Stage::CheckPendingPRs);
    assert!(!p.is_new_package);
}

#[test]
fn later_pending_version_warns_and_proceeds() {
    let (mut p, _) = Publisher::start(manifest(), false);
    p.step(Event::Packages(Vec::new()));
    let a = p.step(Event::PullRequests(vec![pr("bar:9.9.9", 3), pr("foo:1.0.1", 4)]));
    match a {
        Action::ResolveFork { warnings } => assert_eq!(warnings, vec![1]),
        other => panic!("unexpected action {other:?}"),
    }
    assert_eq!(p.stage, Stage::VerifyFork);
}

#[test]
fn same_pending_version_is_a_conflict() {
    let (mut p, _) = Publisher::start(manifest(), false);
    p.step(Event::Packages(Vec::new()));
    let a = p.step(Event::PullRequests(vec![pr("foo:1.0.0", 42)]));
    match &a {
        Action::Fail(PublishError::Pending(c)) => {
            assert_eq!(c.number, 42);
            assert!(c.duplicate);
            assert_eq!(c.version, PackageVersion::new(1, 0, 0));
        }
        other => panic!("unexpected action {other:?}"),
    }
    assert_eq!(fail_kind(&a), Some(ErrorKind::VersionConflict));
    assert_eq!(p.stage, Stage::Failed);
}

#[test]
fn missing_description_fails_the_plan() {
    let mut m = manifest();
    m.description = None;
    let (mut p, _) = Publisher::start(m, false);
    p.step(Event::Packages(Vec::new()));
    let a = p.step(Event::PullRequests(Vec::new()));
    assert!(matches!(a, Action::Fail(PublishError::MissingDescription)));
    assert_eq!(p.stage, Stage::Failed);
    assert!(p.submission().msg.is_none());
}

fn run(dry_run: bool, events: Vec<Event>) -> (Vec<String>, Stage) {
    let (mut p, first) = Publisher::start(manifest(), dry_run);
    let mut actions = vec![format!("{first:?}")];
    for e in events {
        let a = p.step(e);
        if dry_run {
            assert!(!mutates(&a));
        }
        actions.push(format!("{a:?}"));
    }
    (actions, p.stage)
}

#[test]
fn dry_run_checks_like_a_real_run() {
    let scenarios: Vec<Vec<Event>> = vec![
        vec![Event::Packages(names(&["foo"])), Event::Versions(names(&["1.0.0"]))],
        vec![Event::Packages(names(&["foo"])), Event::Versions(names(&["0.1.0"])), Event::PullRequests(vec![pr("foo:1.0.0", 1)])],
        vec![Event::Packages(Vec::new()), Event::PullRequests(vec![pr("foo:1.0.1", 1), pr("foo:2.0.0", 2)])],
        vec![Event::Packages(Vec::new()), Event::PullRequests(vec![pr("foo:0.0.1", 9)])],
        vec![Event::Packages(Vec::new()), Event::Failed("rate limited".to_string())],
        vec![Event::Versions(Vec::new())],
    ];
    for events in scenarios {
        let real = run(false, events.clone());
        let dry = run(true, events);
        assert_eq!(real, dry);
    }
}

#[test]
fn dry_run_changes_nothing() {
    let (mut p, _) = Publisher::start(manifest(), true);
    p.step(Event::Packages(Vec::new()));
    p.step(Event::PullRequests(Vec::new()));
    let a = p.step(fork());
    assert!(matches!(a, Action::ListFiles));
    assert_eq!(p.stage, Stage::ListFiles);
    let a = p.step(Event::Files(names(&["typst.toml"])));
    assert!(matches!(a, Action::Finish));
    assert_eq!(p.stage, Stage::Done);
    let a = p.step(Event::Completed);
    assert!(matches!(a, Action::Fail(PublishError::OutOfTurn)));
    assert_eq!(p.stage, Stage::Done);
}

#[test]
fn fork_must_descend_from_the_registry() {
    let start = || {
        let (mut p, _) = Publisher::start(manifest(), false);
        p.step(Event::Packages(Vec::new()));
        p.step(Event::PullRequests(Vec::new()));
        p
    };
    let with_parent = |parent: Option<ForkParent>| Event::Fork {
        login: "me".to_string(),
        repo: "packages".to_string(),
        parent,
    };

    let mut p = start();
    let a = p.step(with_parent(None));
    assert!(matches!(a, Action::Fail(PublishError::NotAFork)));
    assert_eq!(fail_kind(&a), Some(ErrorKind::ConfigurationError));

    for parent in [
        ForkParent { name: "packages".to_string(), owner: None },
        ForkParent { name: "packages".to_string(), owner: Some("someone".to_string()) },
        ForkParent { name: "other".to_string(), owner: Some("typst".to_string()) },
    ] {
        assert!(!parent_is_registry(&parent));
        let mut p = start();
        let a = p.step(with_parent(Some(parent)));
        assert!(matches!(a, Action::Fail(PublishError::ForeignFork)));
        assert_eq!(p.stage, Stage::Failed);
    }
}

#[test]
fn head_must_be_a_commit_or_a_tag() {
    let start = || {
        let (mut p, _) = Publisher::start(manifest(), false);
        p.step(Event::Packages(Vec::new()));
        p.step(Event::PullRequests(Vec::new()));
        p.step(fork());
        p
    };
    let mut p = start();
    assert!(matches!(p.step(Event::Head(HeadObject::Tag { sha: "t1".to_string() })), Action::ListBranches));
    assert_eq!(p.head, "t1");
    let mut p = start();
    assert!(matches!(p.step(Event::Head(HeadObject::Other)), Action::Fail(PublishError::UnreachableHead)));
}

#[test]
fn existing_branch_is_overwritten_only_on_consent() {
    let start = || {
        let (mut p, _) = Publisher::start(manifest(), false);
        p.step(Event::Packages(Vec::new()));
        p.step(Event::PullRequests(Vec::new()));
        p.step(fork());
        p.step(Event::Head(HeadObject::Commit { sha: "abc".to_string() }));
        let a = p.step(Event::Branches(names(&["main", "foo-1.0.0"])));
        match a {
            Action::ConfirmOverwrite { branch } => assert_eq!(branch, "foo-1.0.0"),
            other => panic!("unexpected action {other:?}"),
        }
        p
    };
    let mut p = start();
    let a = p.step(Event::Answer(false));
    assert!(matches!(a, Action::Fail(PublishError::Aborted)));
    assert_eq!(p.stage, Stage::Failed);

    let mut p = start();
    match p.step(Event::Answer(true)) {
        Action::DeleteBranch { branch } => assert_eq!(branch, "foo-1.0.0"),
        other => panic!("unexpected action {other:?}"),
    }
    match p.step(Event::Completed) {
        Action::CreateBranch { branch, sha } => {
            assert_eq!(branch, "foo-1.0.0");
            assert_eq!(sha, "abc");
        }
        other => panic!("unexpected action {other:?}"),
    }
}

#[test]
fn declined_upload_aborts() {
    let (mut p, _) = Publisher::start(manifest(), false);
    p.step(Event::Packages(Vec::new()));
    p.step(Event::PullRequests(Vec::new()));
    p.step(fork());
    p.step(Event::Head(HeadObject::Commit { sha: "abc".to_string() }));
    p.step(Event::Branches(Vec::new()));
    p.step(Event::Completed);
    p.step(Event::Files(Vec::new()));
    let a = p.step(Event::Answer(false));
    assert!(matches!(a, Action::Fail(PublishError::Aborted)));
}

#[test]
fn old_git_selects_api_upload_in_a_run() {
    let (mut p, _) = Publisher::start(manifest(), false);
    p.step(Event::Packages(Vec::new()));
    p.step(Event::PullRequests(Vec::new()));
    p.step(fork());
    p.step(Event::Head(HeadObject::Commit { sha: "abc".to_string() }));
    p.step(Event::Branches(Vec::new()));
    p.step(Event::Completed);
    p.step(Event::Files(names(&["typst.toml"])));
    p.step(Event::Answer(true));
    match p.step(Event::GitVersion(Some("git version 2.24.9".to_string()))) {
        Action::Upload { method, warned } => {
            assert_eq!(method, UploadMethod::Api);
            assert!(!warned);
        }
        other => panic!("unexpected action {other:?}"),
    }
}

#[test]
fn remote_failure_ends_the_run() {
    let (mut p, _) = Publisher::start(manifest(), false);
    let a = p.step(Event::Failed("connection reset".to_string()));
    match &a {
        Action::Fail(PublishError::Remote(m)) => assert_eq!(m, "connection reset"),
        other => panic!("unexpected action {other:?}"),
    }
    assert_eq!(fail_kind(&a), Some(ErrorKind::NetworkFailure));
    assert_eq!(p.stage, Stage::Failed);
}

#[test]
fn observation_out_of_turn_ends_the_run() {
    let (mut p, _) = Publisher::start(manifest(), false);
    let a = p.step(Event::Completed);
    assert!(matches!(a, Action::Fail(PublishError::OutOfTurn)));
    assert_eq!(p.stage, Stage::Failed);
}

#[test]
fn template_line_in_pull_request_body() {
    let mut m = manifest();
    m.has_template = true;
    let (mut p, _) = Publisher::start(m, false);
    p.step(Event::Packages(names(&["foo"])));
    p.step(Event::Versions(Vec::new()));
    p.step(Event::PullRequests(Vec::new()));
    p.step(fork());
    p.step(Event::Head(HeadObject::Commit { sha: "abc".to_string() }));
    p.step(Event::Branches(Vec::new()));
    p.step(Event::Completed);
    p.step(Event::Files(Vec::new()));
    p.step(Event::Answer(true));
    p.step(Event::GitVersion(None));
    match p.step(Event::Completed) {
        Action::CreatePullRequest { body, .. } => {
            assert!(body.starts_with("I am submitting\n- [ ] a new package\n- [x] an update for a package\n"));
            assert!(body.ends_with("after modifying them through normal use.\n"));
        }
        other => panic!("unexpected action {other:?}"),
    }
}

fn at_upload() -> Publisher {
    let (mut p, _) = Publisher::start(manifest(), false);
    p.step(Event::Packages(Vec::new()));
    p.step(Event::PullRequests(Vec::new()));
    p.step(fork());
    p.step(Event::Head(HeadObject::Commit { sha: "abc".to_string() }));
    p.step(Event::Branches(Vec::new()));
    p.step(Event::Completed);
    p.step(Event::Files(names(&["typst.toml"])));
    p.step(Event::Answer(true));
    p.step(Event::GitVersion(Some("git version 2.40.1".to_string())));
    assert_eq!(p.stage, Stage::UploadFiles);
    p
}

#[test]
fn failed_git_command_is_a_subprocess_failure() {
    let mut p = at_upload();
    let failure = SubprocessFailure { step: GitStep::Push, stderr: "rejected".to_string() };
    let a = p.step(Event::UploadFailed(UploadError::Subprocess(failure)));
    match &a {
        Action::Fail(PublishError::Subprocess(f)) => {
            assert_eq!(f.step, GitStep::Push);
            assert_eq!(f.stderr, "rejected");
            assert_eq!(f.to_string(), "Failed to push to remote: rejected");
        }
        other => panic!("unexpected action {other:?}"),
    }
    assert_eq!(fail_kind(&a), Some(ErrorKind::SubprocessFailure));
    assert_eq!(p.stage, Stage::Failed);
    assert!(matches!(p.step(Event::Completed), Action::Fail(PublishError::OutOfTurn)));
}

#[test]
fn failed_file_creation_ends_the_run() {
    let mut p = at_upload();
    let a = p.step(Event::UploadFailed(UploadError::Failed("403".to_string())));
    assert!(matches!(&a, Action::Fail(PublishError::Remote(m)) if m == "403"));
    assert_eq!(fail_kind(&a), Some(ErrorKind::NetworkFailure));
    assert_eq!(p.stage, Stage::Failed);

    let (mut early, _) = Publisher::start(manifest(), false);
    let a = early.step(Event::UploadFailed(UploadError::Failed("x".to_string())));
    assert!(matches!(a, Action::Fail(PublishError::OutOfTurn)));
}
