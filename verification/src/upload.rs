//! The two ways of putting a package's files on the submission branch, as plans: which files
//! are created where, which git commands run in which order, and when a command has failed.

use vstd::prelude::*;
use vstd::string::*;
use crate::submission::{branch_of, repo_path_of, title_of, PackageSubmission};
use crate::git::UploadMethod;
use crate::text::{contains_text, text_contains};
use crate::version::PackageVersion;

verus! {

/// One file created on the submission branch through the forge's API.
#[derive(Clone, Debug)]
pub struct FileUpload {
    /// The file inside the package directory.
    pub source: String,
    /// Where it goes inside the registry's repository.
    pub target: String,
    /// The commit message.
    pub message: String,
    /// The branch that receives it.
    pub branch: String,
}

/// One file copied into the sparse working tree.
#[derive(Clone, Debug)]
pub struct FileCopy {
    /// The file inside the package directory.
    pub source: String,
    /// Where it goes inside the clone.
    pub target: String,
}

/// The git commands of a sparse-checkout upload.
#[derive(Clone, Copy, Debug, PartialEq, Eq, Structural)]
pub enum GitStep {
    Clone,
    SparseInit,
    SparseSet,
    Checkout,
    Add,
    Commit,
    Push,
}

/// The steps of a sparse-checkout upload.
#[derive(Clone, Copy, Debug, PartialEq, Eq, Structural)]
pub enum SparseStep {
    /// Create the manifest through the API, which establishes the version directory.
    CreateManifest,
    /// Run a git command.
    Git(GitStep),
    /// Copy the package's files into the working tree.
    CopyFiles,
}

/// A git command that exited with an error.
#[derive(Clone, Debug)]
pub struct SubprocessFailure {
    pub step: GitStep,
    /// What the command wrote to its standard error.
    pub stderr: String,
}

/// The views of a list of strings.
pub open spec fn texts(v: Seq<String>) -> Seq<Seq<char>> {
    Seq::new(v.len(), |i: int| v[i]@)
}

/// Where `file` goes inside the registry's repository.
pub open spec fn target_of(name: Seq<char>, version: PackageVersion, file: Seq<char>) -> Seq<
    char,
> {
    repo_path_of(name, version) + "/"@ + file
}

/// The commit message for one file created through the API.
pub open spec fn file_message(file: Seq<char>) -> Seq<char> {
    "[Typship] Add "@ + file
}

/// The commit message of a sparse-checkout upload.
pub open spec fn commit_message_of(name: Seq<char>, version: PackageVersion) -> Seq<char> {
    "[Typship] Add package "@ + title_of(name, version)
}

/// The address of the fork that is cloned.
pub open spec fn fork_url_of(login: Seq<char>, repo: Seq<char>) -> Seq<char> {
    "https://github.com/"@ + login + "/"@ + repo + ".git"@
}

/// The arguments that git is run with at each step.
pub open spec fn git_args(
    step: GitStep,
    name: Seq<char>,
    version: PackageVersion,
    login: Seq<char>,
    repo: Seq<char>,
) -> Seq<Seq<char>> {
    match step {
        GitStep::Clone => seq![
            "clone"@,
            "--filter=blob:none"@,
            "--no-checkout"@,
            "--single-branch"@,
            "--branch"@,
            branch_of(name, version),
            fork_url_of(login, repo),
            "repo"@,
        ],
        GitStep::SparseInit => seq!["sparse-checkout"@, "init"@, "--cone"@],
        GitStep::SparseSet => seq!["sparse-checkout"@, "set"@, repo_path_of(name, version)],
        GitStep::Checkout => seq!["checkout"@],
        GitStep::Add => seq!["add"@, "."@],
        GitStep::Commit => seq!["commit"@, "-m"@, commit_message_of(name, version)],
        GitStep::Push => seq!["push"@, "origin"@, branch_of(name, version)],
    }
}

/// The steps of a sparse-checkout upload, in the order in which they run.
pub open spec fn sparse_steps() -> Seq<SparseStep> {
    seq![
        SparseStep::CreateManifest,
        SparseStep::Git(GitStep::Clone),
        SparseStep::Git(GitStep::SparseInit),
        SparseStep::Git(GitStep::SparseSet),
        SparseStep::Git(GitStep::Checkout),
        SparseStep::CopyFiles,
        SparseStep::Git(GitStep::Add),
        SparseStep::Git(GitStep::Commit),
        SparseStep::Git(GitStep::Push),
    ]
}

/// Whether a commit's output says that there was nothing to commit. Git says so on its
/// standard output; the standard error is looked at as well.
pub open spec fn nothing_to_commit(stdout: Seq<char>, stderr: Seq<char>) -> bool {
    contains_text(stdout, "nothing to commit"@) || contains_text(stderr, "nothing to commit"@)
}

/// Whether a git command's outcome counts as a failure: an error exit does, except that of a
/// commit which found nothing to commit.
pub open spec fn step_failed(step: GitStep, success: bool, stdout: Seq<char>, stderr: Seq<char>)
    -> bool {
    !success && !(step == GitStep::Commit && nothing_to_commit(stdout, stderr))
}

/// What is said of a command that failed, before its standard error.
pub open spec fn failure_label(step: GitStep) -> Seq<char> {
    match step {
        GitStep::Clone => "Failed to clone repository"@,
        GitStep::SparseInit => "Failed to initialize sparse-checkout"@,
        GitStep::SparseSet => "Failed to set sparse-checkout patterns"@,
        GitStep::Checkout => "Failed to checkout files"@,
        GitStep::Add => "Failed to add files to git"@,
        GitStep::Commit => "Failed to commit files"@,
        GitStep::Push => "Failed to push to remote"@,
    }
}

impl SubprocessFailure {
    /// The message: what failed, then the command's standard error.
    pub open spec fn text(self) -> Seq<char> {
        failure_label(self.step) + ": "@ + self.stderr@
    }

    /// The message: what failed, then the command's standard error.
    pub fn to_string(&self) -> (r: String)
        ensures
            r@ == self.text(),
    {
        let mut out = String::new();
        match self.step {
            GitStep::Clone => out.append("Failed to clone repository"),
            GitStep::SparseInit => out.append("Failed to initialize sparse-checkout"),
            GitStep::SparseSet => out.append("Failed to set sparse-checkout patterns"),
            GitStep::Checkout => out.append("Failed to checkout files"),
            GitStep::Add => out.append("Failed to add files to git"),
            GitStep::Commit => out.append("Failed to commit files"),
            GitStep::Push => out.append("Failed to push to remote"),
        }
        out.append(": ");
        out.append(self.stderr.as_str());
        proof {
            assert(out@ =~= self.text());
        }
        out
    }
}

/// Where `file` goes inside the registry's repository: below the submission's directory.
pub fn target_path(submission: &PackageSubmission, file: &str) -> (r: String)
    ensures
        r@ == target_of(submission.name@, submission.version, file@),
{
    let mut out = submission.repo_path();
    out.append("/");
    out.append(file);
    out
}

/// The address of the fork `repo` of the user `login`.
pub fn fork_url(login: &str, repo: &str) -> (r: String)
    ensures
        r@ == fork_url_of(login@, repo@),
{
    let mut out = String::new();
    out.append("https://github.com/");
    out.append(login);
    out.append("/");
    out.append(repo);
    out.append(".git");
    proof {
        assert(out@ =~= fork_url_of(login@, repo@));
    }
    out
}

/// The commit message of a sparse-checkout upload.
pub fn commit_message(submission: &PackageSubmission) -> (r: String)
    ensures
        r@ == commit_message_of(submission.name@, submission.version),
{
    let mut out = String::new();
    out.append("[Typship] Add package ");
    let title = submission.title();
    out.append(title.as_str());
    proof {
        assert(out@ =~= commit_message_of(submission.name@, submission.version));
    }
    out
}

/// The upload of one file through the API.
pub fn file_upload(submission: &PackageSubmission, file: &str) -> (r: FileUpload)
    ensures
        r.source@ == file@,
        r.target@ == target_of(submission.name@, submission.version, file@),
        r.message@ == file_message(file@),
        r.branch@ == branch_of(submission.name@, submission.version),
{
    let mut message = String::new();
    message.append("[Typship] Add ");
    message.append(file);
    proof {
        assert(message@ =~= file_message(file@));
    }
    FileUpload {
        source: file.to_owned(),
        target: target_path(submission, file),
        message,
        branch: submission.branch_name(),
    }
}

/// The upload that opens a sparse-checkout upload: the manifest, created through the API.
pub fn manifest_upload(submission: &PackageSubmission) -> (r: FileUpload)
    ensures
        r.source@ == "typst.toml"@,
        r.target@ == target_of(submission.name@, submission.version, "typst.toml"@),
        r.message@ == "[Typship] Initialize package version directory"@,
        r.branch@ == branch_of(submission.name@, submission.version),
{
    FileUpload {
        source: "typst.toml".to_owned(),
        target: target_path(submission, "typst.toml"),
        message: "[Typship] Initialize package version directory".to_owned(),
        branch: submission.branch_name(),
    }
}

/// The plan of an upload through the API: one file creation for each file, in the files' order.
pub fn api_upload_plan(submission: &PackageSubmission, files: &Vec<String>) -> (r: Vec<FileUpload>)
    ensures
        r@.len() == files@.len(),
        forall|i: int|
            0 <= i < files@.len() ==> {
                &&& (#[trigger] r@[i]).source@ == files@[i]@
                &&& r@[i].target@ == target_of(submission.name@, submission.version, files@[i]@)
                &&& r@[i].message@ == file_message(files@[i]@)
                &&& r@[i].branch@ == branch_of(submission.name@, submission.version)
            },
{
    let mut plan: Vec<FileUpload> = Vec::new();
    let mut i: usize = 0;
    while i < files.len()
        invariant
            i <= files.len(),
            plan@.len() == i,
            forall|k: int|
                0 <= k < i ==> {
                    &&& (#[trigger] plan@[k]).source@ == files@[k]@
                    &&& plan@[k].target@ == target_of(
                        submission.name@,
                        submission.version,
                        files@[k]@,
                    )
                    &&& plan@[k].message@ == file_message(files@[k]@)
                    &&& plan@[k].branch@ == branch_of(submission.name@, submission.version)
                },
        decreases files.len() - i,
    {
        plan.push(file_upload(submission, files[i].as_str()));
        i = i + 1;
    }
    plan
}

/// The copies of a sparse-checkout upload: each file goes below the submission's directory
/// inside the clone, in the files' order.
pub fn sparse_copy_plan(submission: &PackageSubmission, files: &Vec<String>) -> (r: Vec<FileCopy>)
    ensures
        r@.len() == files@.len(),
        forall|i: int|
            0 <= i < files@.len() ==> {
                &&& (#[trigger] r@[i]).source@ == files@[i]@
                &&& r@[i].target@ == target_of(submission.name@, submission.version, files@[i]@)
            },
{
    let mut plan: Vec<FileCopy> = Vec::new();
    let mut i: usize = 0;
    while i < files.len()
        invariant
            i <= files.len(),
            plan@.len() == i,
            forall|k: int|
                0 <= k < i ==> {
                    &&& (#[trigger] plan@[k]).source@ == files@[k]@
                    &&& plan@[k].target@ == target_of(
                        submission.name@,
                        submission.version,
                        files@[k]@,
                    )
                },
        decreases files.len() - i,
    {
        let file = files[i].as_str();
        plan.push(FileCopy { source: file.to_owned(), target: target_path(submission, file) });
        i = i + 1;
    }
    plan
}

/// The steps of a sparse-checkout upload, in the order in which they run.
pub fn sparse_checkout_plan() -> (r: Vec<SparseStep>)
    ensures
        r@ == sparse_steps(),
{
    let mut plan: Vec<SparseStep> = Vec::new();
    plan.push(SparseStep::CreateManifest);
    plan.push(SparseStep::Git(GitStep::Clone));
    plan.push(SparseStep::Git(GitStep::SparseInit));
    plan.push(SparseStep::Git(GitStep::SparseSet));
    plan.push(SparseStep::Git(GitStep::Checkout));
    plan.push(SparseStep::CopyFiles);
    plan.push(SparseStep::Git(GitStep::Add));
    plan.push(SparseStep::Git(GitStep::Commit));
    plan.push(SparseStep::Git(GitStep::Push));
    proof {
        assert(plan@ =~= sparse_steps());
    }
    plan
}

/// Whether a git command runs inside the clone; the clone itself runs in the directory that
/// will hold it.
pub fn runs_in_clone(step: GitStep) -> (r: bool)
    ensures
        r == (step != GitStep::Clone),
{
    match step {
        GitStep::Clone => false,
        _ => true,
    }
}

/// The arguments that git is run with at `step`.
pub fn git_arguments(step: GitStep, submission: &PackageSubmission, login: &str, repo: &str) -> (r:
    Vec<String>)
    ensures
        texts(r@) == git_args(step, submission.name@, submission.version, login@, repo@),
{
    let mut args: Vec<String> = Vec::new();
    match step {
        GitStep::Clone => {
            args.push("clone".to_owned());
            args.push("--filter=blob:none".to_owned());
            args.push("--no-checkout".to_owned());
            args.push("--single-branch".to_owned());
            args.push("--branch".to_owned());
            args.push(submission.branch_name());
            args.push(fork_url(login, repo));
            args.push("repo".to_owned());
        },
        GitStep::SparseInit => {
            args.push("sparse-checkout".to_owned());
            args.push("init".to_owned());
            args.push("--cone".to_owned());
        },
        GitStep::SparseSet => {
            args.push("sparse-checkout".to_owned());
            args.push("set".to_owned());
            args.push(submission.repo_path());
        },
        GitStep::Checkout => {
            args.push("checkout".to_owned());
        },
        GitStep::Add => {
            args.push("add".to_owned());
            args.push(".".to_owned());
        },
        GitStep::Commit => {
            args.push("commit".to_owned());
            args.push("-m".to_owned());
            args.push(commit_message(submission));
        },
        GitStep::Push => {
            args.push("push".to_owned());
            args.push("origin".to_owned());
            args.push(submission.branch_name());
        },
    }
    proof {
        assert(texts(args@) =~= git_args(
            step,
            submission.name@,
            submission.version,
            login@,
            repo@,
        ));
    }
    args
}

/// Judges the outcome of a git command: any error exit is a failure that carries the command's
/// standard error, except a commit that found nothing to commit.
pub fn judge_git_step(step: GitStep, success: bool, stdout: &str, stderr: &str) -> (r: Result<
    (),
    SubprocessFailure,
>)
    ensures
        r is Err == step_failed(step, success, stdout@, stderr@),
        r matches Err(e) ==> e.step == step && e.stderr@ == stderr@,
{
    if success {
        return Ok(());
    }
    match step {
        GitStep::Commit => {
            if text_contains(stdout, "nothing to commit") || text_contains(
                stderr,
                "nothing to commit",
            ) {
                return Ok(());
            }
        },
        _ => {},
    }
    Err(SubprocessFailure { step, stderr: stderr.to_owned() })
}

/// One step of an upload, with all that performing it takes.
#[derive(Clone, Debug)]
pub enum UploadStep {
    /// Create a file on the submission branch through the API.
    CreateFile(FileUpload),
    /// Run git with these arguments, inside the clone or in the directory that will hold it.
    Git { step: GitStep, args: Vec<String>, in_clone: bool },
    /// Copy the package's files into the working tree.
    CopyFiles(Vec<FileCopy>),
}

/// How performing a step ended.
#[derive(Clone, Debug)]
pub enum StepOutcome {
    /// A file was created, or the files were copied.
    Done,
    /// Creating or copying failed; the text is what was reported.
    Failed(String),
    /// A git command ended: whether it exited without error, and what it wrote to its
    /// standard output and to its standard error.
    Exited { success: bool, stdout: String, stderr: String },
}

/// Why an upload stopped.
#[derive(Clone, Debug)]
pub enum UploadError {
    /// A git command failed.
    Subprocess(SubprocessFailure),
    /// A file could not be created or copied; the text is what was reported.
    Failed(String),
    /// An outcome was reported that the step at hand cannot have, or none was at hand.
    OutOfTurn,
}

/// An upload in progress: its steps, and how far it has got. A step is handed out only after
/// the one before it succeeded; the first failure stops the upload for good.
#[derive(Debug)]
pub struct UploadRun {
    steps: Vec<UploadStep>,
    done: usize,
    stopped: bool,
}

/// Whether a step creates the file that `file` names, for this submission.
pub open spec fn creates(step: UploadStep, name: Seq<char>, version: PackageVersion, file: Seq<char>)
    -> bool {
    &&& step matches UploadStep::CreateFile(upload)
    &&& upload.source@ == file
    &&& upload.target@ == target_of(name, version, file)
    &&& upload.message@ == file_message(file)
    &&& upload.branch@ == branch_of(name, version)
}

/// Whether a step runs this git command of a sparse-checkout upload.
pub open spec fn runs_git(
    step: UploadStep,
    git: GitStep,
    name: Seq<char>,
    version: PackageVersion,
    login: Seq<char>,
    repo: Seq<char>,
) -> bool {
    &&& step matches UploadStep::Git { step: s, args, in_clone }
    &&& s == git
    &&& texts(args@) == git_args(git, name, version, login, repo)
    &&& in_clone == (git != GitStep::Clone)
}

/// Whether the steps are those of an upload through the API: one file creation for each file.
pub open spec fn is_api_upload(
    steps: Seq<UploadStep>,
    name: Seq<char>,
    version: PackageVersion,
    files: Seq<String>,
) -> bool {
    &&& steps.len() == files.len()
    &&& forall|i: int| 0 <= i < files.len() ==> creates(#[trigger] steps[i], name, version, files[i]@)
}

/// Whether the steps are those of a sparse-checkout upload.
pub open spec fn is_sparse_upload(
    steps: Seq<UploadStep>,
    name: Seq<char>,
    version: PackageVersion,
    login: Seq<char>,
    repo: Seq<char>,
    files: Seq<String>,
) -> bool {
    &&& steps.len() == 9
    &&& steps[0] matches UploadStep::CreateFile(upload)
    &&& upload.source@ == "typst.toml"@
    &&& upload.target@ == target_of(name, version, "typst.toml"@)
    &&& upload.message@ == "[Typship] Initialize package version directory"@
    &&& upload.branch@ == branch_of(name, version)
    &&& runs_git(steps[1], GitStep::Clone, name, version, login, repo)
    &&& runs_git(steps[2], GitStep::SparseInit, name, version, login, repo)
    &&& runs_git(steps[3], GitStep::SparseSet, name, version, login, repo)
    &&& runs_git(steps[4], GitStep::Checkout, name, version, login, repo)
    &&& steps[5] matches UploadStep::CopyFiles(copies)
    &&& copies@.len() == files.len()
    &&& forall|i: int|
        0 <= i < files.len() ==> (#[trigger] copies@[i]).source@ == files[i]@ && copies@[i].target@
            == target_of(name, version, files[i]@)
    &&& runs_git(steps[6], GitStep::Add, name, version, login, repo)
    &&& runs_git(steps[7], GitStep::Commit, name, version, login, repo)
    &&& runs_git(steps[8], GitStep::Push, name, version, login, repo)
}

/// What reporting an outcome to a step that is at hand comes to: nothing where the step
/// succeeded, else why the upload stops. A git command that failed stops it with that
/// failure and the command's standard error; a file that could not be created or copied with
/// what was reported; an outcome that the step cannot have is out of turn.
pub open spec fn judged(step: UploadStep, outcome: StepOutcome, r: Result<(), UploadError>) -> bool {
    match (step, outcome) {
        (
            UploadStep::Git { step: git, args, in_clone },
            StepOutcome::Exited { success, stdout, stderr },
        ) => if step_failed(git, success, stdout@, stderr@) {
            r matches Err(UploadError::Subprocess(f)) && f.step == git && f.stderr@ == stderr@
        } else {
            r is Ok
        },
        (UploadStep::CreateFile(_), StepOutcome::Done) => r is Ok,
        (UploadStep::CopyFiles(_), StepOutcome::Done) => r is Ok,
        (UploadStep::CreateFile(_), StepOutcome::Failed(what)) => r matches Err(
            UploadError::Failed(said),
        ) && said@ == what@,
        (UploadStep::CopyFiles(_), StepOutcome::Failed(what)) => r matches Err(
            UploadError::Failed(said),
        ) && said@ == what@,
        _ => r matches Err(UploadError::OutOfTurn),
    }
}

fn git_step(step: GitStep, submission: &PackageSubmission, login: &str, repo: &str) -> (r:
    UploadStep)
    ensures
        runs_git(r, step, submission.name@, submission.version, login@, repo@),
{
    UploadStep::Git {
        step,
        args: git_arguments(step, submission, login, repo),
        in_clone: runs_in_clone(step),
    }
}

impl UploadRun {
    /// The steps of the upload, in the order in which they are performed.
    pub closed spec fn steps(&self) -> Seq<UploadStep> {
        self.steps@
    }

    /// How many steps have succeeded.
    pub closed spec fn position(&self) -> nat {
        self.done as nat
    }

    /// Whether a failure has stopped the upload.
    pub closed spec fn stopped(&self) -> bool {
        self.stopped
    }

    /// No more steps can have succeeded than there are.
    pub closed spec fn well_formed(&self) -> bool {
        self.done <= self.steps@.len()
    }

    /// Whether every step has succeeded.
    pub open spec fn complete(&self) -> bool {
        !self.stopped() && self.position() == self.steps().len()
    }

    /// Plans the upload of `files` by `method`. Nothing has been performed yet.
    pub fn new(
        method: UploadMethod,
        submission: &PackageSubmission,
        login: &str,
        repo: &str,
        files: &Vec<String>,
    ) -> (r: UploadRun)
        ensures
            r.well_formed(),
            r.position() == 0,
            !r.stopped(),
            match method {
                UploadMethod::Api => is_api_upload(
                    r.steps(),
                    submission.name@,
                    submission.version,
                    files@,
                ),
                UploadMethod::SparseCheckout => is_sparse_upload(
                    r.steps(),
                    submission.name@,
                    submission.version,
                    login@,
                    repo@,
                    files@,
                ),
            },
    {
        let mut steps: Vec<UploadStep> = Vec::new();
        match method {
            UploadMethod::Api => {
                let mut i: usize = 0;
                while i < files.len()
                    invariant
                        i <= files@.len(),
                        steps@.len() == i,
                        forall|k: int|
                            0 <= k < i ==> creates(
                                #[trigger] steps@[k],
                                submission.name@,
                                submission.version,
                                files@[k]@,
                            ),
                    decreases files@.len() - i,
                {
                    steps.push(UploadStep::CreateFile(file_upload(submission, files[i].as_str())));
                    i = i + 1;
                }
            },
            UploadMethod::SparseCheckout => {
                steps.push(UploadStep::CreateFile(manifest_upload(submission)));
                steps.push(git_step(GitStep::Clone, submission, login, repo));
                steps.push(git_step(GitStep::SparseInit, submission, login, repo));
                steps.push(git_step(GitStep::SparseSet, submission, login, repo));
                steps.push(git_step(GitStep::Checkout, submission, login, repo));
                steps.push(UploadStep::CopyFiles(sparse_copy_plan(submission, files)));
                steps.push(git_step(GitStep::Add, submission, login, repo));
                steps.push(git_step(GitStep::Commit, submission, login, repo));
                steps.push(git_step(GitStep::Push, submission, login, repo));
            },
        }
        UploadRun { steps, done: 0, stopped: false }
    }

    /// The step to perform next: the first that has not succeeded yet. There is none once the
    /// upload is complete, and none once it has stopped.
    pub fn current(&self) -> (r: Option<&UploadStep>)
        requires
            self.well_formed(),
        ensures
            r is None == (self.stopped() || self.position() == self.steps().len()),
            r matches Some(step) ==> *step == self.steps()[self.position() as int],
    {
        if self.stopped || self.done >= self.steps.len() {
            None
        } else {
            Some(&self.steps[self.done])
        }
    }

    /// Whether every step has succeeded.
    pub fn is_complete(&self) -> (r: bool)
        requires
            self.well_formed(),
        ensures
            r == self.complete(),
    {
        !self.stopped && self.done == self.steps.len()
    }

    /// Takes the outcome of the step at hand. Success moves on to the next step; anything
    /// else stops the upload, and the error says why: a git command that failed, a file that
    /// could not be created or copied, an outcome that does not fit the step, or one where no
    /// step was at hand.
    pub fn report(&mut self, outcome: StepOutcome) -> (r: Result<(), UploadError>)
        requires
            old(self).well_formed(),
        ensures
            final(self).well_formed(),
            final(self).steps() == old(self).steps(),
            if old(self).stopped() || old(self).position() == old(self).steps().len() {
                r matches Err(UploadError::OutOfTurn)
            } else {
                judged(old(self).steps()[old(self).position() as int], outcome, r)
            },
            final(self).stopped() == (r is Err),
            final(self).position() == (if r is Ok {
                old(self).position() + 1
            } else {
                old(self).position()
            }),
    {
        if self.stopped || self.done >= self.steps.len() {
            self.stopped = true;
            return Err(UploadError::OutOfTurn);
        }
        let judged: Result<(), UploadError> = match (&self.steps[self.done], outcome) {
            (
                UploadStep::Git { step, args, in_clone },
                StepOutcome::Exited { success, stdout, stderr },
            ) => {
                match judge_git_step(*step, success, stdout.as_str(), stderr.as_str()) {
                    Ok(_) => Ok(()),
                    Err(failure) => Err(UploadError::Subprocess(failure)),
                }
            },
            (UploadStep::CreateFile(_), StepOutcome::Done) => Ok(()),
            (UploadStep::CopyFiles(_), StepOutcome::Done) => Ok(()),
            (UploadStep::CreateFile(_), StepOutcome::Failed(said)) => Err(UploadError::Failed(said)),
            (UploadStep::CopyFiles(_), StepOutcome::Failed(said)) => Err(UploadError::Failed(said)),
            _ => Err(UploadError::OutOfTurn),
        };
        match judged {
            Ok(_) => {
                self.done = self.done + 1;
                Ok(())
            },
            Err(e) => {
                self.stopped = true;
                Err(e)
            },
        }
    }
}

} // verus!
