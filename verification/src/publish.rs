//! The publish workflow as a state machine. The caller performs each action against the
//! registry, the forge, the operator or the file system and hands back what it observed; the
//! machine decides what happens next. Nothing here touches the outside world.

use vstd::prelude::*;
use vstd::string::*;
use crate::error::ErrorKind;
use crate::git::{check_git_version, probed_capability, UploadMethod};
use crate::planner::{
    ahead_positions, check_pending, first_blocking, is_listed, is_published, lists_text, title_standing, titled_version, PendingConflict, PendingPr, Standing,
};
use crate::submission::{
    branch_of, branch_text, title_of, title_text, PackageSubmission, SubmissionMessage,
};
use crate::text::same_text;
use crate::upload::{SubprocessFailure, UploadError};
use crate::version::PackageVersion;

verus! {

/// What the workflow reads from a package's manifest.
#[derive(Clone, Debug)]
pub struct ManifestInfo {
    pub name: String,
    pub version: PackageVersion,
    pub description: Option<String>,
    pub has_template: bool,
}

/// The parent that a repository declares itself a fork of.
#[derive(Clone, Debug)]
pub struct ForkParent {
    pub name: String,
    pub owner: Option<String>,
}

/// The object that a branch reference points to.
#[derive(Clone, Debug)]
pub enum HeadObject {
    Commit { sha: String },
    Tag { sha: String },
    /// Any other shape of reference.
    Other,
}

/// Why a publish run ended without success.
#[derive(Clone, Debug)]
pub enum PublishError {
    /// The version is already in the registry.
    AlreadyPublished,
    /// An open pull request already submits this version or an earlier one.
    Pending(PendingConflict),
    /// The manifest has no description.
    MissingDescription,
    /// The repository given is no fork at all.
    NotAFork,
    /// The repository given is a fork of something else than the registry.
    ForeignFork,
    /// The registry's default branch points to neither a commit nor a tag.
    UnreachableHead,
    /// The operator declined.
    Aborted,
    /// A git command failed.
    Subprocess(SubprocessFailure),
    /// A call to the registry or the forge failed; the text is what it reported.
    Remote(String),
    /// An observation was handed in that the current stage does not wait for.
    OutOfTurn,
}

/// Where a publish run stands. The stages follow one another in the order written here; a run
/// never goes back.
#[derive(Clone, Copy, Debug, PartialEq, Eq, Structural)]
pub enum Stage {
    /// Waiting for the registry's list of packages.
    CheckRegistry,
    /// Waiting for the published versions of the package.
    CheckVersions,
    /// Waiting for the open pull requests.
    CheckPendingPRs,
    /// The submission is planned; waiting for the operator's fork.
    VerifyFork,
    /// Waiting for the head of the registry's default branch.
    ResolveHead,
    /// Waiting for the fork's branches.
    CheckBranch,
    /// Waiting for the operator's consent to overwrite the branch.
    ConfirmOverwrite,
    /// Waiting for the old branch to be deleted.
    DeleteBranch,
    /// Waiting for the branch to be created.
    CreateBranch,
    /// Waiting for the list of files to upload.
    ListFiles,
    /// Waiting for the operator's consent to upload.
    ConfirmUpload,
    /// Waiting for the git client's version.
    ProbeGit,
    /// Waiting for the upload to end.
    UploadFiles,
    /// Waiting for the pull request to be opened.
    CreatePullRequest,
    Done,
    Failed,
}

/// What the caller observed while performing the last action.
#[derive(Clone, Debug)]
pub enum Event {
    /// The names of the packages in the registry.
    Packages(Vec<String>),
    /// The published versions of the package.
    Versions(Vec<String>),
    /// The open pull requests against the registry.
    PullRequests(Vec<PendingPr>),
    /// The operator's account, the repository they named, and its declared parent.
    Fork { login: String, repo: String, parent: Option<ForkParent> },
    /// What the registry's default branch points to.
    Head(HeadObject),
    /// The names of the fork's branches.
    Branches(Vec<String>),
    /// The operator's answer to a question.
    Answer(bool),
    /// The files of the package, relative to its directory.
    Files(Vec<String>),
    /// What `git --version` printed, or `None` where it could not be run or failed.
    GitVersion(Option<String>),
    /// The action was performed.
    Completed,
    /// The upload stopped, and why.
    UploadFailed(UploadError),
    /// The action failed; the text is what the backend reported.
    Failed(String),
}

/// What the caller is to do next.
#[derive(Clone, Debug)]
pub enum Action {
    FetchPackages,
    FetchVersions { name: String },
    FetchPullRequests,
    /// Authenticate, ask for the fork's name and fetch the fork. `warnings` are the positions
    /// of the open pull requests that submit a later version of the package.
    ResolveFork { warnings: Vec<usize> },
    FetchHead,
    ListBranches,
    ConfirmOverwrite { branch: String },
    DeleteBranch { branch: String },
    CreateBranch { branch: String, sha: String },
    ListFiles,
    ConfirmUpload,
    ProbeGit,
    /// Upload the files by `method`; `warned` says that the git version could not be read.
    Upload { method: UploadMethod, warned: bool },
    CreatePullRequest { title: String, head: String, base: String, body: String, draft: bool },
    /// The run is over.
    Finish,
    /// The run has failed.
    Fail(PublishError),
}

/// A publish run.
#[derive(Clone, Debug)]
pub struct Publisher {
    pub manifest: ManifestInfo,
    /// Whether everything that would change the fork or the registry is left out.
    pub dry_run: bool,
    pub stage: Stage,
    pub is_new_package: bool,
    /// The operator's account, once known.
    pub login: String,
    /// The fork's name, once known.
    pub repo: String,
    /// The commit that the submission branch starts from, once known.
    pub head: String,
    /// The files to upload, once known.
    pub files: Vec<String>,
}

/// The name of the registry's repository.
pub open spec fn registry_repo() -> Seq<char> {
    "packages"@
}

/// The owner of the registry's repository.
pub open spec fn registry_owner() -> Seq<char> {
    "typst"@
}

/// The registry's default branch.
pub open spec fn registry_branch() -> Seq<char> {
    "main"@
}

/// The place of a stage in the order of stages.
pub open spec fn rank(stage: Stage) -> nat {
    match stage {
        Stage::CheckRegistry => 0,
        Stage::CheckVersions => 1,
        Stage::CheckPendingPRs => 2,
        Stage::VerifyFork => 3,
        Stage::ResolveHead => 4,
        Stage::CheckBranch => 5,
        Stage::ConfirmOverwrite => 6,
        Stage::DeleteBranch => 7,
        Stage::CreateBranch => 8,
        Stage::ListFiles => 9,
        Stage::ConfirmUpload => 10,
        Stage::ProbeGit => 11,
        Stage::UploadFiles => 12,
        Stage::CreatePullRequest => 13,
        Stage::Done => 14,
        Stage::Failed => 15,
    }
}

/// Whether a run in this stage is over.
pub open spec fn terminal(stage: Stage) -> bool {
    stage == Stage::Done || stage == Stage::Failed
}

/// Whether an action changes the fork or the registry.
pub open spec fn mutating(a: Action) -> bool {
    a is DeleteBranch || a is CreateBranch || a is Upload || a is CreatePullRequest
}

/// A dry run is only ever in a stage that reads: it never waits for a branch, an upload or a
/// pull request.
pub open spec fn consistent(p: Publisher) -> bool {
    p.dry_run ==> rank(p.stage) <= rank(Stage::VerifyFork) || p.stage == Stage::ListFiles
        || terminal(p.stage)
}

/// Whether a declared parent is the registry's repository.
pub open spec fn is_registry(parent: ForkParent) -> bool {
    parent.name@ == registry_repo() && match parent.owner {
        Some(o) => o@ == registry_owner(),
        None => false,
    }
}

/// The head of the pull request: the fork's owner and the branch.
pub open spec fn pull_head(login: Seq<char>, name: Seq<char>, version: PackageVersion) -> Seq<
    char,
> {
    login + ":"@ + branch_of(name, version)
}

impl PublishError {
    /// The class of the failure.
    pub open spec fn spec_kind(self) -> ErrorKind {
        match self {
            PublishError::AlreadyPublished => ErrorKind::VersionConflict,
            PublishError::Pending(_) => ErrorKind::VersionConflict,
            PublishError::MissingDescription => ErrorKind::Other,
            PublishError::NotAFork => ErrorKind::ConfigurationError,
            PublishError::ForeignFork => ErrorKind::ConfigurationError,
            PublishError::UnreachableHead => ErrorKind::Other,
            PublishError::Aborted => ErrorKind::Other,
            PublishError::Subprocess(_) => ErrorKind::SubprocessFailure,
            PublishError::Remote(_) => ErrorKind::NetworkFailure,
            PublishError::OutOfTurn => ErrorKind::Other,
        }
    }

    /// The class of the failure.
    pub fn kind(&self) -> (r: ErrorKind)
        ensures
            r == self.spec_kind(),
    {
        match self {
            PublishError::AlreadyPublished => ErrorKind::VersionConflict,
            PublishError::Pending(_) => ErrorKind::VersionConflict,
            PublishError::MissingDescription => ErrorKind::Other,
            PublishError::NotAFork => ErrorKind::ConfigurationError,
            PublishError::ForeignFork => ErrorKind::ConfigurationError,
            PublishError::UnreachableHead => ErrorKind::Other,
            PublishError::Aborted => ErrorKind::Other,
            PublishError::Subprocess(_) => ErrorKind::SubprocessFailure,
            PublishError::Remote(_) => ErrorKind::NetworkFailure,
            PublishError::OutOfTurn => ErrorKind::Other,
        }
    }
}

/// Everything but the stage is as before.
pub open spec fn keeps(p: Publisher, q: Publisher) -> bool {
    &&& q.manifest == p.manifest
    &&& q.dry_run == p.dry_run
    &&& q.is_new_package == p.is_new_package
    &&& q.login == p.login
    &&& q.repo == p.repo
    &&& q.head == p.head
    &&& q.files == p.files
}

/// The run moves to `stage` and nothing else changes.
pub open spec fn moves(p: Publisher, q: Publisher, stage: Stage) -> bool {
    keeps(p, q) && q.stage == stage
}

/// The run has failed because an observation came out of turn.
pub open spec fn out_of_turn(p: Publisher, q: Publisher, a: Action) -> bool {
    moves(p, q, Stage::Failed) && a matches Action::Fail(PublishError::OutOfTurn)
}

/// After the registry's packages: a package that is listed has its versions fetched, one that
/// is not is new and goes on to the open pull requests.
pub open spec fn after_packages(p: Publisher, names: Vec<String>, q: Publisher, a: Action) -> bool {
    &&& q.manifest == p.manifest
    &&& q.dry_run == p.dry_run
    &&& q.login == p.login
    &&& q.repo == p.repo
    &&& q.head == p.head
    &&& q.files == p.files
    &&& if lists_text(names@, p.manifest.name@) {
        &&& q.stage == Stage::CheckVersions
        &&& !q.is_new_package
        &&& a matches Action::FetchVersions { name }
        &&& name@ == p.manifest.name@
    } else {
        &&& q.stage == Stage::CheckPendingPRs
        &&& q.is_new_package
        &&& a is FetchPullRequests
    }
}

/// After the published versions: the run fails if the manifest's version is among them.
pub open spec fn after_versions(p: Publisher, versions: Vec<String>, q: Publisher, a: Action)
    -> bool {
    if lists_text(versions@, p.manifest.version.text()) {
        moves(p, q, Stage::Failed) && a matches Action::Fail(PublishError::AlreadyPublished)
    } else {
        moves(p, q, Stage::CheckPendingPRs) && a is FetchPullRequests
    }
}

/// After the open pull requests: the run fails on the first that stops the submission, then
/// on a missing description; else the submission is planned and the fork is asked for.
pub open spec fn after_pull_requests(p: Publisher, prs: Vec<PendingPr>, q: Publisher, a: Action)
    -> bool {
    let name = p.manifest.name@;
    let version = p.manifest.version;
    let at = first_blocking(prs@, name, version);
    if at < prs@.len() {
        &&& moves(p, q, Stage::Failed)
        &&& a matches Action::Fail(PublishError::Pending(c))
        &&& c.index == at
        &&& c.number == prs@[at].number
        &&& c.version == titled_version(prs@[at].title)
        &&& c.duplicate == (title_standing(prs@[at].title, name, version) == Standing::Duplicate)
    } else if p.manifest.description is None {
        moves(p, q, Stage::Failed) && a matches Action::Fail(PublishError::MissingDescription)
    } else {
        &&& moves(p, q, Stage::VerifyFork)
        &&& a matches Action::ResolveFork { warnings }
        &&& warnings@ == ahead_positions(prs@, name, version)
    }
}

/// After the fork: it must declare the registry's repository as its parent. A dry run then
/// skips the branch and goes on to list the files.
pub open spec fn after_fork(
    p: Publisher,
    login: String,
    repo: String,
    parent: Option<ForkParent>,
    q: Publisher,
    a: Action,
) -> bool {
    match parent {
        None => moves(p, q, Stage::Failed) && a matches Action::Fail(PublishError::NotAFork),
        Some(parent) => if !is_registry(parent) {
            moves(p, q, Stage::Failed) && a matches Action::Fail(PublishError::ForeignFork)
        } else {
            &&& q.manifest == p.manifest
            &&& q.dry_run == p.dry_run
            &&& q.is_new_package == p.is_new_package
            &&& q.head == p.head
            &&& q.files == p.files
            &&& q.login@ == login@
            &&& q.repo@ == repo@
            &&& if p.dry_run {
                q.stage == Stage::ListFiles && a is ListFiles
            } else {
                q.stage == Stage::ResolveHead && a is FetchHead
            }
        },
    }
}

/// The commit that a head object stands for, if it is a commit or a tag.
pub open spec fn head_sha(head: HeadObject) -> Option<Seq<char>> {
    match head {
        HeadObject::Commit { sha } => Some(sha@),
        HeadObject::Tag { sha } => Some(sha@),
        HeadObject::Other => None,
    }
}

/// After the registry's head: a commit or a tag gives the starting point of the branch.
pub open spec fn after_head(p: Publisher, head: HeadObject, q: Publisher, a: Action) -> bool {
    match head_sha(head) {
        None => moves(p, q, Stage::Failed) && a matches Action::Fail(PublishError::UnreachableHead),
        Some(sha) => {
            &&& q.manifest == p.manifest
            &&& q.dry_run == p.dry_run
            &&& q.is_new_package == p.is_new_package
            &&& q.login == p.login
            &&& q.repo == p.repo
            &&& q.files == p.files
            &&& q.head@ == sha
            &&& q.stage == Stage::CheckBranch
            &&& a is ListBranches
        },
    }
}

/// The action that creates the submission branch at the resolved head.
pub open spec fn creates_branch(p: Publisher, a: Action) -> bool {
    &&& a matches Action::CreateBranch { branch, sha }
    &&& branch@ == branch_of(p.manifest.name@, p.manifest.version)
    &&& sha@ == p.head@
}

/// After the fork's branches: an existing submission branch needs the operator's consent.
pub open spec fn after_branches(p: Publisher, names: Vec<String>, q: Publisher, a: Action) -> bool {
    if lists_text(names@, branch_of(p.manifest.name@, p.manifest.version)) {
        &&& moves(p, q, Stage::ConfirmOverwrite)
        &&& a matches Action::ConfirmOverwrite { branch }
        &&& branch@ == branch_of(p.manifest.name@, p.manifest.version)
    } else {
        moves(p, q, Stage::CreateBranch) && creates_branch(p, a)
    }
}

/// After the answer on overwriting: consent has the old branch deleted, refusal ends the run.
pub open spec fn after_overwrite_answer(p: Publisher, yes: bool, q: Publisher, a: Action) -> bool {
    if yes {
        &&& moves(p, q, Stage::DeleteBranch)
        &&& a matches Action::DeleteBranch { branch }
        &&& branch@ == branch_of(p.manifest.name@, p.manifest.version)
    } else {
        moves(p, q, Stage::Failed) && a matches Action::Fail(PublishError::Aborted)
    }
}

/// After the files: a dry run ends here, a real one asks for consent to upload.
pub open spec fn after_files(p: Publisher, files: Vec<String>, q: Publisher, a: Action) -> bool {
    &&& q.manifest == p.manifest
    &&& q.dry_run == p.dry_run
    &&& q.is_new_package == p.is_new_package
    &&& q.login == p.login
    &&& q.repo == p.repo
    &&& q.head == p.head
    &&& q.files == files
    &&& if p.dry_run {
        q.stage == Stage::Done && a is Finish
    } else {
        q.stage == Stage::ConfirmUpload && a is ConfirmUpload
    }
}

/// After the answer on uploading.
pub open spec fn after_upload_answer(p: Publisher, yes: bool, q: Publisher, a: Action) -> bool {
    if yes {
        moves(p, q, Stage::ProbeGit) && a is ProbeGit
    } else {
        moves(p, q, Stage::Failed) && a matches Action::Fail(PublishError::Aborted)
    }
}

/// After the probe of the git client: the upload method follows from its version.
pub open spec fn after_git_version(p: Publisher, output: Option<String>, q: Publisher, a: Action)
    -> bool {
    let capability = probed_capability(
        match output {
            Some(text) => Some(text@),
            None => None,
        },
    );
    &&& moves(p, q, Stage::UploadFiles)
    &&& a matches Action::Upload { method, warned }
    &&& method == capability.method
    &&& warned == capability.warned
}

/// After the upload: the pull request is opened as a draft against the registry's default
/// branch, from the submission branch of the operator's fork.
pub open spec fn after_upload(p: Publisher, q: Publisher, a: Action) -> bool {
    match p.manifest.description {
        None => moves(p, q, Stage::Failed) && a matches Action::Fail(
            PublishError::MissingDescription,
        ),
        Some(desc) => {
            &&& moves(p, q, Stage::CreatePullRequest)
            &&& a matches Action::CreatePullRequest { title, head, base, body, draft }
            &&& title@ == title_of(p.manifest.name@, p.manifest.version)
            &&& head@ == pull_head(p.login@, p.manifest.name@, p.manifest.version)
            &&& base@ == registry_branch()
            &&& body@ == (SubmissionMessage { is_new_package: p.is_new_package, desc }).body(
                p.manifest.has_template,
            )
            &&& draft
        },
    }
}

/// Whether a publish error is what an upload's error comes to: a git command that failed stays
/// that failure, with the command and its standard error; a file that could not be created or
/// copied is a failure of the forge or the file system, with what was reported.
pub open spec fn from_upload(error: UploadError, e: PublishError) -> bool {
    match error {
        UploadError::Subprocess(f) => e matches PublishError::Subprocess(g) && g.step == f.step
            && g.stderr@ == f.stderr@,
        UploadError::Failed(what) => e matches PublishError::Remote(said) && said@ == what@,
        UploadError::OutOfTurn => e is OutOfTurn,
    }
}

/// One step of a publish run: from the run as it was and what was observed, to the run as it
/// is now and what is to be done.
pub open spec fn step_spec(p: Publisher, e: Event, q: Publisher, a: Action) -> bool {
    if terminal(p.stage) {
        q == p && a matches Action::Fail(PublishError::OutOfTurn)
    } else {
        match (p.stage, e) {
            (_, Event::Failed(said)) => {
                &&& moves(p, q, Stage::Failed)
                &&& a matches Action::Fail(PublishError::Remote(m))
                &&& m@ == said@
            },
            (Stage::CheckRegistry, Event::Packages(names)) => after_packages(p, names, q, a),
            (Stage::CheckVersions, Event::Versions(versions)) => after_versions(p, versions, q, a),
            (Stage::CheckPendingPRs, Event::PullRequests(prs)) => after_pull_requests(p, prs, q, a),
            (Stage::VerifyFork, Event::Fork { login, repo, parent }) => after_fork(
                p,
                login,
                repo,
                parent,
                q,
                a,
            ),
            (Stage::ResolveHead, Event::Head(head)) => after_head(p, head, q, a),
            (Stage::CheckBranch, Event::Branches(names)) => after_branches(p, names, q, a),
            (Stage::ConfirmOverwrite, Event::Answer(yes)) => after_overwrite_answer(p, yes, q, a),
            (Stage::DeleteBranch, Event::Completed) => moves(p, q, Stage::CreateBranch)
                && creates_branch(p, a),
            (Stage::CreateBranch, Event::Completed) => moves(p, q, Stage::ListFiles)
                && a is ListFiles,
            (Stage::ListFiles, Event::Files(files)) => after_files(p, files, q, a),
            (Stage::ConfirmUpload, Event::Answer(yes)) => after_upload_answer(p, yes, q, a),
            (Stage::ProbeGit, Event::GitVersion(output)) => after_git_version(p, output, q, a),
            (Stage::UploadFiles, Event::Completed) => after_upload(p, q, a),
            (Stage::UploadFiles, Event::UploadFailed(error)) => {
                &&& moves(p, q, Stage::Failed)
                &&& a matches Action::Fail(e)
                &&& from_upload(error, e)
            },
            (Stage::CreatePullRequest, Event::Completed) => moves(p, q, Stage::Done)
                && a is Finish,
            _ => out_of_turn(p, q, a),
        }
    }
}

/// Whether a declared parent is the registry's repository, by name and by owner.
pub fn parent_is_registry(parent: &ForkParent) -> (r: bool)
    ensures
        r == is_registry(*parent),
{
    if !same_text(parent.name.as_str(), "packages") {
        return false;
    }
    match &parent.owner {
        Some(o) => same_text(o.as_str(), "typst"),
        None => false,
    }
}

impl Publisher {
    /// Begins a run: the first thing to do is to fetch the registry's packages.
    pub fn start(manifest: ManifestInfo, dry_run: bool) -> (r: (Publisher, Action))
        ensures
            r.0.manifest == manifest,
            r.0.dry_run == dry_run,
            r.0.stage == Stage::CheckRegistry,
            r.0.is_new_package,
            r.0.login@.len() == 0,
            r.0.repo@.len() == 0,
            r.0.head@.len() == 0,
            r.0.files@.len() == 0,
            r.1 is FetchPackages,
            consistent(r.0),
    {
        let publisher = Publisher {
            manifest,
            dry_run,
            stage: Stage::CheckRegistry,
            is_new_package: true,
            login: String::new(),
            repo: String::new(),
            head: String::new(),
            files: Vec::new(),
        };
        (publisher, Action::FetchPackages)
    }

    /// The submission that this run is about; it carries a message where the manifest has a
    /// description.
    pub fn submission(&self) -> (r: PackageSubmission)
        ensures
            r.name@ == self.manifest.name@,
            r.version == self.manifest.version,
            match self.manifest.description {
                Some(d) => r.msg matches Some(m) && m.desc@ == d@ && m.is_new_package
                    == self.is_new_package,
                None => r.msg is None,
            },
    {
        let msg = match &self.manifest.description {
            Some(d) => Some(
                SubmissionMessage { is_new_package: self.is_new_package, desc: d.clone() },
            ),
            None => None,
        };
        PackageSubmission { name: self.manifest.name.clone(), version: self.manifest.version, msg }
    }

    fn fail(&mut self, error: PublishError) -> (a: Action)
        ensures
            moves(*old(self), *final(self), Stage::Failed),
            a == Action::Fail(error),
    {
        self.stage = Stage::Failed;
        Action::Fail(error)
    }

    fn create_branch(&self) -> (a: Action)
        ensures
            creates_branch(*self, a),
    {
        Action::CreateBranch { branch: branch_text(self.manifest.name.as_str(), &self.manifest.version), sha: self.head.clone() }
    }

    fn on_packages(&mut self, names: Vec<String>) -> (a: Action)
        ensures
            after_packages(*old(self), names, *final(self), a),
    {
        if is_listed(&names, self.manifest.name.as_str()) {
            self.stage = Stage::CheckVersions;
            self.is_new_package = false;
            Action::FetchVersions { name: self.manifest.name.clone() }
        } else {
            self.stage = Stage::CheckPendingPRs;
            self.is_new_package = true;
            Action::FetchPullRequests
        }
    }

    fn on_versions(&mut self, versions: Vec<String>) -> (a: Action)
        ensures
            after_versions(*old(self), versions, *final(self), a),
    {
        if is_published(&versions, &self.manifest.version) {
            self.fail(PublishError::AlreadyPublished)
        } else {
            self.stage = Stage::CheckPendingPRs;
            Action::FetchPullRequests
        }
    }

    fn on_pull_requests(&mut self, prs: Vec<PendingPr>) -> (a: Action)
        ensures
            after_pull_requests(*old(self), prs, *final(self), a),
    {
        match check_pending(&prs, self.manifest.name.as_str(), &self.manifest.version) {
            Err(conflict) => self.fail(PublishError::Pending(conflict)),
            Ok(warnings) => {
                if self.manifest.description.is_none() {
                    self.fail(PublishError::MissingDescription)
                } else {
                    self.stage = Stage::VerifyFork;
                    Action::ResolveFork { warnings }
                }
            },
        }
    }

    fn on_fork(&mut self, login: String, repo: String, parent: Option<ForkParent>) -> (a: Action)
        ensures
            after_fork(*old(self), login, repo, parent, *final(self), a),
    {
        match parent {
            None => self.fail(PublishError::NotAFork),
            Some(parent) => {
                if !parent_is_registry(&parent) {
                    self.fail(PublishError::ForeignFork)
                } else {
                    self.login = login;
                    self.repo = repo;
                    if self.dry_run {
                        self.stage = Stage::ListFiles;
                        Action::ListFiles
                    } else {
                        self.stage = Stage::ResolveHead;
                        Action::FetchHead
                    }
                }
            },
        }
    }

    fn on_head(&mut self, head: HeadObject) -> (a: Action)
        ensures
            after_head(*old(self), head, *final(self), a),
    {
        match head {
            HeadObject::Commit { sha } => {
                self.head = sha;
                self.stage = Stage::CheckBranch;
                Action::ListBranches
            },
            HeadObject::Tag { sha } => {
                self.head = sha;
                self.stage = Stage::CheckBranch;
                Action::ListBranches
            },
            HeadObject::Other => self.fail(PublishError::UnreachableHead),
        }
    }

    fn on_branches(&mut self, names: Vec<String>) -> (a: Action)
        ensures
            after_branches(*old(self), names, *final(self), a),
    {
        let branch = branch_text(self.manifest.name.as_str(), &self.manifest.version);
        if is_listed(&names, branch.as_str()) {
            self.stage = Stage::ConfirmOverwrite;
            Action::ConfirmOverwrite { branch }
        } else {
            self.stage = Stage::CreateBranch;
            self.create_branch()
        }
    }

    fn on_overwrite_answer(&mut self, yes: bool) -> (a: Action)
        ensures
            after_overwrite_answer(*old(self), yes, *final(self), a),
    {
        if yes {
            self.stage = Stage::DeleteBranch;
            Action::DeleteBranch { branch: branch_text(self.manifest.name.as_str(), &self.manifest.version) }
        } else {
            self.fail(PublishError::Aborted)
        }
    }

    fn on_files(&mut self, files: Vec<String>) -> (a: Action)
        ensures
            after_files(*old(self), files, *final(self), a),
    {
        self.files = files;
        if self.dry_run {
            self.stage = Stage::Done;
            Action::Finish
        } else {
            self.stage = Stage::ConfirmUpload;
            Action::ConfirmUpload
        }
    }

    fn on_upload_answer(&mut self, yes: bool) -> (a: Action)
        ensures
            after_upload_answer(*old(self), yes, *final(self), a),
    {
        if yes {
            self.stage = Stage::ProbeGit;
            Action::ProbeGit
        } else {
            self.fail(PublishError::Aborted)
        }
    }

    fn on_git_version(&mut self, output: Option<String>) -> (a: Action)
        ensures
            after_git_version(*old(self), output, *final(self), a),
    {
        let capability = match &output {
            Some(text) => check_git_version(Some(text.as_str())),
            None => check_git_version(None),
        };
        self.stage = Stage::UploadFiles;
        Action::Upload { method: capability.method, warned: capability.warned }
    }

    fn on_upload(&mut self) -> (a: Action)
        ensures
            after_upload(*old(self), *final(self), a),
    {
        let message = match &self.manifest.description {
            Some(d) => SubmissionMessage { is_new_package: self.is_new_package, desc: d.clone() },
            None => {
                return self.fail(PublishError::MissingDescription);
            },
        };
        let mut head = String::new();
        head.append(self.login.as_str());
        head.append(":");
        let branch = branch_text(self.manifest.name.as_str(), &self.manifest.version);
        head.append(branch.as_str());
        proof {
            assert(head@ =~= pull_head(
                self.login@,
                self.manifest.name@,
                self.manifest.version,
            ));
        }
        let body = message.to_string(self.manifest.has_template);
        self.stage = Stage::CreatePullRequest;
        Action::CreatePullRequest {
            title: title_text(self.manifest.name.as_str(), &self.manifest.version),
            head,
            base: "main".to_owned(),
            body,
            draft: true,
        }
    }

    /// Takes what the caller observed while performing the last action and says what is to
    /// be done next. A failure reported by the caller, an observation that the stage does not
    /// wait for, and every conflict end the run; a run that is over stays as it is.
    pub fn step(&mut self, event: Event) -> (a: Action)
        ensures
            step_spec(*old(self), event, *final(self), a),
    {
        let stage = self.stage;
        match stage {
            Stage::Done => {
                return Action::Fail(PublishError::OutOfTurn);
            },
            Stage::Failed => {
                return Action::Fail(PublishError::OutOfTurn);
            },
            _ => {},
        }
        match event {
            Event::Failed(said) => self.fail(PublishError::Remote(said)),
            Event::Packages(names) => match stage {
                Stage::CheckRegistry => self.on_packages(names),
                _ => self.fail(PublishError::OutOfTurn),
            },
            Event::Versions(versions) => match stage {
                Stage::CheckVersions => self.on_versions(versions),
                _ => self.fail(PublishError::OutOfTurn),
            },
            Event::PullRequests(prs) => match stage {
                Stage::CheckPendingPRs => self.on_pull_requests(prs),
                _ => self.fail(PublishError::OutOfTurn),
            },
            Event::Fork { login, repo, parent } => match stage {
                Stage::VerifyFork => self.on_fork(login, repo, parent),
                _ => self.fail(PublishError::OutOfTurn),
            },
            Event::Head(head) => match stage {
                Stage::ResolveHead => self.on_head(head),
                _ => self.fail(PublishError::OutOfTurn),
            },
            Event::Branches(names) => match stage {
                Stage::CheckBranch => self.on_branches(names),
                _ => self.fail(PublishError::OutOfTurn),
            },
            Event::Answer(yes) => match stage {
                Stage::ConfirmOverwrite => self.on_overwrite_answer(yes),
                Stage::ConfirmUpload => self.on_upload_answer(yes),
                _ => self.fail(PublishError::OutOfTurn),
            },
            Event::Files(files) => match stage {
                Stage::ListFiles => self.on_files(files),
                _ => self.fail(PublishError::OutOfTurn),
            },
            Event::UploadFailed(error) => match stage {
                Stage::UploadFiles => {
                    let e = match error {
                        UploadError::Subprocess(f) => PublishError::Subprocess(f),
                        UploadError::Failed(what) => PublishError::Remote(what),
                        UploadError::OutOfTurn => PublishError::OutOfTurn,
                    };
                    self.fail(e)
                },
                _ => self.fail(PublishError::OutOfTurn),
            },
            Event::GitVersion(output) => match stage {
                Stage::ProbeGit => self.on_git_version(output),
                _ => self.fail(PublishError::OutOfTurn),
            },
            Event::Completed => match stage {
                Stage::DeleteBranch => {
                    self.stage = Stage::CreateBranch;
                    self.create_branch()
                },
                Stage::CreateBranch => {
                    self.stage = Stage::ListFiles;
                    Action::ListFiles
                },
                Stage::UploadFiles => self.on_upload(),
                Stage::CreatePullRequest => {
                    self.stage = Stage::Done;
                    Action::Finish
                },
                _ => self.fail(PublishError::OutOfTurn),
            },
        }
    }
}

} // verus!
