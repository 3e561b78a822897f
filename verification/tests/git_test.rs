use typship::git::{
    check_git_version, read_git_version, select_upload_method, supports_sparse_checkout,
    GitCapability, UploadMethod,
};
use typship::submission::PackageSubmission;
use typship::upload::{
    api_upload_plan, commit_message, fork_url, git_arguments, judge_git_step, manifest_upload,
    runs_in_clone, sparse_checkout_plan, sparse_copy_plan, target_path, GitStep, SparseStep,
    StepOutcome, SubprocessFailure, UploadError, UploadRun, UploadStep,
};
use typship::version::PackageVersion;

fn foo() -> PackageSubmission {
    PackageSubmission { name: "foo".to_string(), version: PackageVersion::new(1, 0, 0), msg: None }
}

#[test]
fn sparse_checkout_needs_2_25() {
    assert!(!supports_sparse_checkout(2, 24));
    assert!(supports_sparse_checkout(2, 25));
    assert!(supports_sparse_checkout(2, 43));
    assert!(supports_sparse_checkout(3, 0));
    assert!(!supports_sparse_checkout(1, 99));
    assert!(!supports_sparse_checkout(0, 0));
}

#[test]
fn git_version_is_read_from_output() {
    assert_eq!(read_git_version("git version 2.24.1\n"), Some((2, 24)));
    assert_eq!(read_git_version("git version 2.25.0"), Some((2, 25)));
    assert_eq!(read_git_version("git version 2.39.5 (Apple Git-154)\n"), Some((2, 39)));
    assert_eq!(read_git_version("git version 2.43.0.windows.1\n"), Some((2, 43)));
    assert_eq!(read_git_version("git version two"), None);
    assert_eq!(read_git_version("git version 2.25"), None);
    assert_eq!(read_git_version(""), None);
    assert_eq!(read_git_version("git version 99999999999.1.1"), None);
}

#[test]
fn old_git_uploads_through_the_api() {
    let c = check_git_version(Some("git version 2.24.3\n"));
    assert_eq!(c, GitCapability { method: UploadMethod::Api, warned: false });
}

#[test]
fn new_git_uploads_through_sparse_checkout() {
    assert_eq!(
        check_git_version(Some("git version 2.25.0\n")),
        GitCapability { method: UploadMethod::SparseCheckout, warned: false }
    );
    assert_eq!(
        check_git_version(Some("git version 3.1.4\n")),
        GitCapability { method: UploadMethod::SparseCheckout, warned: false }
    );
}

#[test]
fn unreadable_git_version_degrades_with_a_warning() {
    let expected = GitCapability { method: UploadMethod::Api, warned: true };
    assert_eq!(check_git_version(Some("fatal: not a version")), expected);
    assert_eq!(check_git_version(Some("")), expected);
    assert_eq!(select_upload_method(None), expected);
}

#[test]
fn git_that_cannot_be_run_degrades_silently() {
    assert_eq!(check_git_version(None), GitCapability { method: UploadMethod::Api, warned: false });
}

#[test]
fn upload_method_for_known_versions() {
    assert_eq!(select_upload_method(Some((2, 24))).method, UploadMethod::Api);
    assert_eq!(select_upload_method(Some((2, 25))).method, UploadMethod::SparseCheckout);
    assert!(!select_upload_method(Some((2, 24))).warned);
}

#[test]
fn git_commands_have_exact_arguments() {
    let s = foo();
    assert_eq!(
        git_arguments(GitStep::Clone, &s, "me", "packages"),
        vec![
            "clone",
            "--filter=blob:none",
            "--no-checkout",
            "--single-branch",
            "--branch",
            "foo-1.0.0",
            "https://github.com/me/packages.git",
            "repo"
        ]
    );
    assert_eq!(git_arguments(GitStep::SparseInit, &s, "me", "packages"), vec!["sparse-checkout", "init", "--cone"]);
    assert_eq!(
        git_arguments(GitStep::SparseSet, &s, "me", "packages"),
        vec!["sparse-checkout", "set", "packages/preview/foo/1.0.0"]
    );
    assert_eq!(git_arguments(GitStep::Checkout, &s, "me", "packages"), vec!["checkout"]);
    assert_eq!(git_arguments(GitStep::Add, &s, "me", "packages"), vec!["add", "."]);
    assert_eq!(
        git_arguments(GitStep::Commit, &s, "me", "packages"),
        vec!["commit", "-m", "[Typship] Add package foo:1.0.0"]
    );
    assert_eq!(git_arguments(GitStep::Push, &s, "me", "packages"), vec!["push", "origin", "foo-1.0.0"]);
}

#[test]
fn sparse_checkout_steps_in_order() {
    assert_eq!(
        sparse_checkout_plan(),
        vec![
            SparseStep::CreateManifest,
            SparseStep::Git(GitStep::Clone),
            SparseStep::Git(GitStep::SparseInit),
            SparseStep::Git(GitStep::SparseSet),
            SparseStep::Git(GitStep::Checkout),
            SparseStep::CopyFiles,
            SparseStep::Git(GitStep::Add),
            SparseStep::Git(GitStep::Commit),
            SparseStep::Git(GitStep::Push),
        ]
    );
    assert!(!runs_in_clone(GitStep::Clone));
    assert!(runs_in_clone(GitStep::Push));
}

#[test]
fn failed_git_command_carries_stderr() {
    let e = judge_git_step(GitStep::Clone, false, "", "fatal: repository not found").unwrap_err();
    assert_eq!(e.step, GitStep::Clone);
    assert_eq!(e.stderr, "fatal: repository not found");
    assert_eq!(e.to_string(), "Failed to clone repository: fatal: repository not found");
    assert!(judge_git_step(GitStep::Clone, true, "", "warning: something").is_ok());
}

#[test]
fn nothing_to_commit_is_success() {
    assert!(judge_git_step(GitStep::Commit, false, "On branch x\nnothing to commit, working tree clean\n", "").is_ok());
    assert!(judge_git_step(GitStep::Commit, false, "", "nothing to commit").is_ok());
    assert!(judge_git_step(GitStep::Commit, false, "nothing to commit", "warning: x").is_ok());
    assert!(judge_git_step(GitStep::Commit, false, "nothing to commi", "t").is_err());
    assert!(judge_git_step(GitStep::Commit, false, "", "").is_err());
    assert!(judge_git_step(GitStep::Push, false, "nothing to commit", "nothing to commit").is_err());
    let e = judge_git_step(GitStep::Commit, false, "out", "err").unwrap_err();
    assert_eq!(e.stderr, "err");
}

#[test]
fn failure_labels() {
    let label = |step: GitStep| SubprocessFailure { step, stderr: "e".to_string() }.to_string();
    assert_eq!(label(GitStep::SparseInit), "Failed to initialize sparse-checkout: e");
    assert_eq!(label(GitStep::SparseSet), "Failed to set sparse-checkout patterns: e");
    assert_eq!(label(GitStep::Checkout), "Failed to checkout files: e");
    assert_eq!(label(GitStep::Add), "Failed to add files to git: e");
    assert_eq!(label(GitStep::Commit), "Failed to commit files: e");
    assert_eq!(label(GitStep::Push), "Failed to push to remote: e");
}

#[test]
fn api_upload_creates_each_file_in_order() {
    let files = vec!["typst.toml".to_string(), "src/lib.typ".to_string()];
    let plan = api_upload_plan(&foo(), &files);
    assert_eq!(plan.len(), 2);
    assert_eq!(plan[0].source, "typst.toml");
    assert_eq!(plan[0].target, "packages/preview/foo/1.0.0/typst.toml");
    assert_eq!(plan[0].message, "[Typship] Add typst.toml");
    assert_eq!(plan[0].branch, "foo-1.0.0");
    assert_eq!(plan[1].source, "src/lib.typ");
    assert_eq!(plan[1].target, "packages/preview/foo/1.0.0/src/lib.typ");
    assert_eq!(plan[1].message, "[Typship] Add src/lib.typ");
    assert_eq!(plan[1].branch, "foo-1.0.0");
    assert!(api_upload_plan(&foo(), &Vec::new()).is_empty());
}

#[test]
fn sparse_upload_begins_with_the_manifest() {
    let m = manifest_upload(&foo());
    assert_eq!(m.source, "typst.toml");
    assert_eq!(m.target, "packages/preview/foo/1.0.0/typst.toml");
    assert_eq!(m.message, "[Typship] Initialize package version directory");
    assert_eq!(m.branch, "foo-1.0.0");
}

#[test]
fn sparse_upload_copies_below_the_version_directory() {
    let files = vec!["a.typ".to_string(), "docs/b.md".to_string()];
    let plan = sparse_copy_plan(&foo(), &files);
    assert_eq!(plan.len(), 2);
    assert_eq!(plan[0].source, "a.typ");
    assert_eq!(plan[0].target, "packages/preview/foo/1.0.0/a.typ");
    assert_eq!(plan[1].source, "docs/b.md");
    assert_eq!(plan[1].target, "packages/preview/foo/1.0.0/docs/b.md");
}

#[test]
fn upload_texts() {
    assert_eq!(target_path(&foo(), "x"), "packages/preview/foo/1.0.0/x");
    assert_eq!(fork_url("me", "packages"), "https://github.com/me/packages.git");
    assert_eq!(commit_message(&foo()), "[Typship] Add package foo:1.0.0");
}

fn files() -> Vec<String> {
    vec!["typst.toml".to_string(), "src/lib.typ".to_string()]
}

fn exited(success: bool, stderr: &str) -> StepOutcome {
    StepOutcome::Exited { success, stdout: String::new(), stderr: stderr.to_string() }
}

#[test]
fn api_upload_run_creates_each_file() {
    let mut run = UploadRun::new(UploadMethod::Api, &foo(), "me", "packages", &files());
    let mut seen = Vec::new();
    while let Some(step) = run.current().cloned() {
        match step {
            UploadStep::CreateFile(upload) => seen.push((upload.source, upload.target, upload.branch)),
            other => panic!("unexpected step {other:?}"),
        }
        run.report(StepOutcome::Done).unwrap();
    }
    assert!(run.is_complete());
    assert_eq!(
        seen,
        vec![
            ("typst.toml".to_string(), "packages/preview/foo/1.0.0/typst.toml".to_string(), "foo-1.0.0".to_string()),
            ("src/lib.typ".to_string(), "packages/preview/foo/1.0.0/src/lib.typ".to_string(), "foo-1.0.0".to_string()),
        ]
    );
}

#[test]
fn api_upload_run_stops_at_the_first_failure() {
    let mut run = UploadRun::new(UploadMethod::Api, &foo(), "me", "packages", &files());
    assert!(run.current().is_some());
    let e = run.report(StepOutcome::Failed("403".to_string())).unwrap_err();
    assert!(matches!(e, UploadError::Failed(m) if m == "403"));
    assert!(run.current().is_none());
    assert!(!run.is_complete());
    assert!(matches!(run.report(StepOutcome::Done), Err(UploadError::OutOfTurn)));
    assert!(run.current().is_none());
}

#[test]
fn sparse_upload_run_in_order() {
    let mut run = UploadRun::new(UploadMethod::SparseCheckout, &foo(), "me", "packages", &files());
    let mut seen = Vec::new();
    while let Some(step) = run.current().cloned() {
        let outcome = match &step {
            UploadStep::CreateFile(upload) => {
                assert_eq!(upload.target, "packages/preview/foo/1.0.0/typst.toml");
                seen.push("create".to_string());
                StepOutcome::Done
            }
            UploadStep::Git { step, args, in_clone } => {
                assert_eq!(*args, git_arguments(*step, &foo(), "me", "packages"));
                assert_eq!(*in_clone, *step != GitStep::Clone);
                seen.push(args[0].clone());
                if *step == GitStep::Commit {
                    StepOutcome::Exited {
                        success: false,
                        stdout: "nothing to commit, working tree clean".to_string(),
                        stderr: String::new(),
                    }
                } else {
                    exited(true, "")
                }
            }
            UploadStep::CopyFiles(copies) => {
                assert_eq!(copies.len(), 2);
                assert_eq!(copies[1].target, "packages/preview/foo/1.0.0/src/lib.typ");
                seen.push("copy".to_string());
                StepOutcome::Done
            }
        };
        run.report(outcome).unwrap();
    }
    assert!(run.is_complete());
    assert_eq!(
        seen,
        vec!["create", "clone", "sparse-checkout", "sparse-checkout", "checkout", "copy", "add", "commit", "push"]
    );
}

#[test]
fn sparse_upload_run_stops_when_git_fails() {
    let mut run = UploadRun::new(UploadMethod::SparseCheckout, &foo(), "me", "packages", &files());
    run.report(StepOutcome::Done).unwrap();
    let e = run.report(exited(false, "fatal: could not read Username")).unwrap_err();
    match e {
        UploadError::Subprocess(f) => {
            assert_eq!(f.step, GitStep::Clone);
            assert_eq!(f.to_string(), "Failed to clone repository: fatal: could not read Username");
        }
        other => panic!("unexpected {other:?}"),
    }
    assert!(run.current().is_none());
    assert!(!run.is_complete());
}

#[test]
fn upload_run_rejects_an_outcome_that_does_not_fit() {
    let mut run = UploadRun::new(UploadMethod::SparseCheckout, &foo(), "me", "packages", &files());
    assert!(matches!(run.report(exited(true, "")), Err(UploadError::OutOfTurn)));
    assert!(run.current().is_none());
    let mut run = UploadRun::new(UploadMethod::Api, &foo(), "me", "packages", &Vec::new());
    assert!(run.is_complete());
    assert!(run.current().is_none());
}

#[test]
fn upload_run_reports_the_failure_it_was_told() {
    let mut run = UploadRun::new(UploadMethod::SparseCheckout, &foo(), "me", "packages", &files());
    let e = run.report(StepOutcome::Failed("422 Unprocessable".to_string())).unwrap_err();
    assert!(matches!(e, UploadError::Failed(m) if m == "422 Unprocessable"));

    let mut run = UploadRun::new(UploadMethod::SparseCheckout, &foo(), "me", "packages", &files());
    for _ in 0..5 {
        let outcome = match run.current().unwrap() {
            UploadStep::Git { .. } => exited(true, ""),
            _ => StepOutcome::Done,
        };
        run.report(outcome).unwrap();
    }
    assert!(matches!(run.current(), Some(UploadStep::CopyFiles(_))));
    let e = run.report(StepOutcome::Failed("disk full".to_string())).unwrap_err();
    assert!(matches!(e, UploadError::Failed(m) if m == "disk full"));
    assert!(run.current().is_none());

    let mut run = UploadRun::new(UploadMethod::Api, &foo(), "me", "packages", &files());
    assert!(matches!(run.report(exited(false, "x")), Err(UploadError::OutOfTurn)));
}
