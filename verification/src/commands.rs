//! The commands of the tool: what each takes, and what each decides before anything is read
//! or written.

use vstd::prelude::*;
use vstd::string::*;
use crate::git::{capture_groups, regex_groups, UploadMethod};
use crate::kind::{endpoint, Endpoint};
use crate::package::{parsed_package_spec, PackageSpec};
use crate::publish::{Action, ManifestInfo, Publisher, Stage};
use crate::source::{parsed_url, split_url};
use crate::text::{ends_with, same_text, starts_with, text_ends_with, text_starts_with};
use crate::upload::texts;

verus! {

/// Check if the package is valid.
#[derive(Clone, Debug)]
pub struct CheckArgs {}

/// Clean the existing dev symlinks.
#[derive(Clone, Debug)]
pub struct CleanArgs {
    /// Package name to clean, if not specified, all packages will be cleaned.
    pub package: Option<String>,
}

/// Copy a pack.
#[derive(Clone, Debug)]
pub struct CopyArgs {
    pub source: String,
    pub destination: String,
}

/// Create a dev symlink.
#[derive(Clone, Debug)]
pub struct DevArgs {}

/// Download a package from a git repository to a namespace.
#[derive(Clone, Debug)]
pub struct DownloadArgs {
    /// Git repository URL
    pub repository: String,
    /// Checkout to a specific tag, commit, or branch
    pub checkout: Option<String>,
    /// Namespace to install the package to (without the `@` prefix)
    pub namespace: String,
}

/// Exclude files for the published bundle.
#[derive(Clone, Debug)]
pub struct ExcludeArgs {
    /// Files to exclude
    pub files: Vec<String>,
}

/// Generate CI that publishes the package automatically.
#[derive(Clone, Debug)]
pub struct GenerateArgs {
    /// The forked repository from typst/packages.
    pub source: Option<String>,
    /// The path to install the package in the source repository
    pub destination: Option<String>,
}

/// Host the package in a GitHub repository.
#[derive(Clone, Debug)]
pub struct HostArgs {
    /// The forked repository from typst/packages.
    pub source: Option<String>,
    /// The path to install the package in the source repository
    pub destination: Option<String>,
}

/// Initialize a new package in the current directory.
#[derive(Clone, Debug)]
pub struct InitArgs {
    /// The package name (optional)
    pub name: Option<String>,
}

/// Install the current package to a certain namespace.
#[derive(Clone, Debug)]
pub struct InstallArgs {
    /// The target namespace to install the package
    pub target: String,
}

/// Login to a registry.
#[derive(Clone, Debug)]
pub struct LoginArgs {
    pub registry: String,
}

/// Publish the package to a registry.
#[derive(Clone, Debug)]
pub struct PublishArgs {
    /// The registry to publish
    pub registry: String,
    /// Dry run the publish process
    pub dry_run: bool,
    /// Upload method: sparse (uses git sparse-checkout); api (uploads files one by one).
    pub upload_method: UploadMethod,
}

/// Sync packages.
#[derive(Clone, Debug)]
pub struct SyncArgs {}

/// The tokens of the registries.
#[derive(Clone, Debug)]
pub struct RegistryTokens {
    pub universe: Option<String>,
}

/// The tool's configuration.
#[derive(Clone, Debug)]
pub struct Config {
    pub tokens: RegistryTokens,
}

/// The commands.
#[derive(Clone, Debug)]
pub enum Commands {
    Check(CheckArgs),
    Clean(CleanArgs),
    Dev(DevArgs),
    Copy(CopyArgs),
    Download(DownloadArgs),
    Exclude(ExcludeArgs),
    Init(InitArgs),
    Install(InstallArgs),
    Login(LoginArgs),
    Publish(PublishArgs),
    Sync(SyncArgs),
}

/// The registries that can be logged in and published to.
#[derive(Clone, Copy, Debug, PartialEq, Eq, Structural)]
pub enum Registry {
    /// The official Typst registry.
    Universe,
}

/// Why a command cannot go ahead.
#[derive(Clone, Copy, Debug, PartialEq, Eq, Structural)]
pub enum CommandError {
    UnsupportedRegistry,
    /// The entrypoint does not end in `.typ`.
    InvalidEntrypoint,
    InvalidPackageName,
    InvalidUrl,
    InvalidUrlScheme,
    /// The source is neither a git address nor a package.
    UnknownSource,
    InvalidSpec,
    /// The version directory is a symlink already.
    AlreadySymlink,
    /// The version directory exists already.
    AlreadyExists,
    /// What should be a package's directory is something else.
    NotADirectory,
    /// There is no directory of packages to clean.
    NoPackages,
}

/// What logging in begins with.
#[derive(Clone, Copy, Debug, PartialEq, Eq, Structural)]
pub enum LoginStep {
    /// A token is stored already: ask whether to overwrite it.
    ConfirmOverwrite,
    /// Ask for the token.
    AskToken,
}

/// What cleaning covers.
#[derive(Clone, Debug)]
pub enum CleanPlan {
    One(String),
    All,
}

/// What is done with one entry of a package's directory while cleaning.
#[derive(Clone, Copy, Debug, PartialEq, Eq, Structural)]
pub enum CleanAction {
    /// A symlink to a directory: remove it.
    Remove,
    /// A symlink to something else: warn and leave it.
    Warn,
    /// No symlink: leave it.
    Keep,
}

/// What is done with a package's directory while cleaning.
#[derive(Clone, Copy, Debug, PartialEq, Eq, Structural)]
pub enum CleanScan {
    /// Look at its entries.
    Scan,
    /// It is not there: warn and go on.
    Skip,
}

/// What a download takes its package from.
#[derive(Clone, Debug)]
pub enum DownloadKind {
    Git,
    Universe(PackageSpec),
}

/// Initializes the default configuration: no token.
impl Default for Config {
    fn default() -> (r: Self)
        ensures
            r.tokens.universe is None,
    {
        Config { tokens: RegistryTokens { universe: None } }
    }
}

/// The registry of a name, if it is supported.
pub open spec fn spec_registry(name: Seq<char>) -> Option<Registry> {
    if name == "universe"@ {
        Some(Registry::Universe)
    } else {
        None
    }
}

/// The pattern of package names.
pub open spec fn name_pattern() -> Seq<char> {
    "^[a-zA-Z_-][a-zA-Z0-9_-]*$"@
}

/// Without repeats: of several equal items in a row only the first is left.
pub open spec fn deduped(items: Seq<Seq<char>>) -> Seq<Seq<char>>
    decreases items.len(),
{
    if items.len() <= 1 {
        items
    } else {
        let before = deduped(items.drop_last());
        if items[items.len() - 1] == items[items.len() - 2] {
            before
        } else {
            before.push(items.last())
        }
    }
}

/// The registry that a name stands for.
pub fn registry_of(name: &str) -> (r: Option<Registry>)
    ensures
        r == spec_registry(name@),
{
    if same_text(name, "universe") {
        Some(Registry::Universe)
    } else {
        None
    }
}

/// What logging in begins with: the registry must be supported; where a token is stored
/// already the operator is asked before it is overwritten.
pub fn login(args: &LoginArgs, config: &Config) -> (r: Result<LoginStep, CommandError>)
    ensures
        r == (if spec_registry(args.registry@) is None {
            Err::<LoginStep, CommandError>(CommandError::UnsupportedRegistry)
        } else if config.tokens.universe is Some {
            Ok(LoginStep::ConfirmOverwrite)
        } else {
            Ok(LoginStep::AskToken)
        }),
{
    match registry_of(args.registry.as_str()) {
        None => Err(CommandError::UnsupportedRegistry),
        Some(_) => {
            if config.tokens.universe.is_some() {
                Ok(LoginStep::ConfirmOverwrite)
            } else {
                Ok(LoginStep::AskToken)
            }
        },
    }
}

/// Stores the token of the official registry.
pub fn store_token(config: &mut Config, token: String)
    ensures
        final(config).tokens.universe == Some(token),
{
    config.tokens.universe = Some(token);
}

/// Begins publishing to the registry that the arguments name.
pub fn publish(manifest: ManifestInfo, args: &PublishArgs) -> (r: Result<
    (Publisher, Action),
    CommandError,
>)
    ensures
        match r {
            Ok((publisher, action)) => {
                &&& spec_registry(args.registry@) is Some
                &&& publisher.manifest == manifest
                &&& publisher.dry_run == args.dry_run
                &&& publisher.stage == Stage::CheckRegistry
                &&& action is FetchPackages
            },
            Err(e) => spec_registry(args.registry@) is None && e
                == CommandError::UnsupportedRegistry,
        },
{
    match registry_of(args.registry.as_str()) {
        Some(_) => Ok(Publisher::start(manifest, args.dry_run)),
        None => Err(CommandError::UnsupportedRegistry),
    }
}

/// What cleaning covers: the package named, or all. To clean all there must be a directory
/// of packages; `packages_dir_is_dir` says whether there is.
pub fn clean(args: &CleanArgs, packages_dir_is_dir: bool) -> (r: Result<CleanPlan, CommandError>)
    ensures
        match args.package {
            Some(name) => r matches Ok(CleanPlan::One(n)) && n@ == name@,
            None => if packages_dir_is_dir {
                r matches Ok(CleanPlan::All)
            } else {
                r == Err::<CleanPlan, CommandError>(CommandError::NoPackages)
            },
        },
{
    match &args.package {
        Some(name) => Ok(CleanPlan::One(name.clone())),
        None => {
            if packages_dir_is_dir {
                Ok(CleanPlan::All)
            } else {
                Err(CommandError::NoPackages)
            }
        },
    }
}

/// What cleaning does with a package's directory: a directory is scanned, a missing one
/// skipped; anything else is an error.
pub fn clean_one(is_dir: bool, exists: bool) -> (r: Result<CleanScan, CommandError>)
    ensures
        r == (if is_dir {
            Ok::<CleanScan, CommandError>(CleanScan::Scan)
        } else if !exists {
            Ok(CleanScan::Skip)
        } else {
            Err(CommandError::NotADirectory)
        }),
{
    if is_dir {
        Ok(CleanScan::Scan)
    } else if !exists {
        Ok(CleanScan::Skip)
    } else {
        Err(CommandError::NotADirectory)
    }
}

/// What cleaning does with one entry of a package's directory.
pub fn clean_entry(is_symlink: bool, target_is_dir: bool) -> (r: CleanAction)
    ensures
        r == (if !is_symlink {
            CleanAction::Keep
        } else if target_is_dir {
            CleanAction::Remove
        } else {
            CleanAction::Warn
        }),
{
    if !is_symlink {
        CleanAction::Keep
    } else if target_is_dir {
        CleanAction::Remove
    } else {
        CleanAction::Warn
    }
}

/// Whether a dev symlink can be made at the version directory: nothing may be there.
pub fn dev_target(is_symlink: bool, exists: bool) -> (r: Result<(), CommandError>)
    ensures
        r == (if is_symlink {
            Err::<(), CommandError>(CommandError::AlreadySymlink)
        } else if exists {
            Err(CommandError::AlreadyExists)
        } else {
            Ok(())
        }),
{
    if is_symlink {
        Err(CommandError::AlreadySymlink)
    } else if exists {
        Err(CommandError::AlreadyExists)
    } else {
        Ok(())
    }
}

/// The configuration file below the configuration directory.
pub fn config_file(config_dir: &str) -> (r: String)
    ensures
        r@ == config_dir@ + "/config.toml"@,
{
    let mut path = String::new();
    path.append(config_dir);
    path.append("/config.toml");
    proof {
        assert(path@ =~= config_dir@ + "/config.toml"@);
    }
    path
}

/// An entrypoint must end in `.typ`.
pub fn entrypoint_validator(input: &str) -> (r: Result<(), CommandError>)
    ensures
        r is Ok == ends_with(input@, ".typ"@),
        r is Err ==> r == Err::<(), CommandError>(CommandError::InvalidEntrypoint),
{
    if text_ends_with(input, ".typ") {
        Ok(())
    } else {
        Err(CommandError::InvalidEntrypoint)
    }
}

/// A package name begins with a letter, `_` or `-`, and goes on with letters, digits, `_` or
/// `-`.
pub fn valid_package_name(name: &str) -> (r: bool)
    ensures
        r == regex_groups(name_pattern(), name@) is Some,
{
    capture_groups("^[a-zA-Z_-][a-zA-Z0-9_-]*$", name).is_some()
}

/// Whether a text may stand as an address of the given schemes: it is empty, or a URL whose
/// scheme is `http` or `https`, or, where `allow_git`, `git`.
pub open spec fn address_ok(input: Seq<char>, allow_git: bool) -> Result<(), CommandError> {
    if input.len() == 0 {
        Ok(())
    } else {
        match parsed_url(input) {
            None => Err(CommandError::InvalidUrl),
            Some((scheme, _, _)) => if scheme == "http"@ || scheme == "https"@ || (allow_git
                && scheme == "git"@) {
                Ok(())
            } else {
                Err(CommandError::InvalidUrlScheme)
            },
        }
    }
}

fn check_address(input: &str, allow_git: bool) -> (r: Result<(), CommandError>)
    ensures
        r == address_ok(input@, allow_git),
{
    if input.unicode_len() == 0 {
        return Ok(());
    }
    match split_url(input) {
        None => Err(CommandError::InvalidUrl),
        Some(parts) => {
            let scheme = parts.scheme.as_str();
            if same_text(scheme, "http") || same_text(scheme, "https") || (allow_git && same_text(
                scheme,
                "git",
            )) {
                Ok(())
            } else {
                Err(CommandError::InvalidUrlScheme)
            }
        },
    }
}

/// A homepage is empty or an `http(s)` URL.
pub fn validate_homepage(input: &str) -> (r: Result<(), CommandError>)
    ensures
        r == address_ok(input@, false),
{
    check_address(input, false)
}

/// A repository is empty or an `http(s)` or `git` URL.
pub fn validate_repository(input: &str) -> (r: Result<(), CommandError>)
    ensures
        r == address_ok(input@, true),
{
    check_address(input, true)
}

/// The namespace without its leading `@`, where it has one.
pub fn strip_at(target: &str) -> (r: Option<String>)
    ensures
        match r {
            Some(rest) => target@.len() > 0 && target@[0] == '@' && rest@ == target@.subrange(
                1,
                target@.len() as int,
            ),
            None => target@.len() == 0 || target@[0] != '@',
        },
{
    let n: usize = target.unicode_len();
    if n > 0 && target.get_char(0) == '@' {
        Some(target.substring_char(1, n).to_owned())
    } else {
        None
    }
}

/// Whether an installation goes straight into the namespace of published packages, which is
/// discouraged.
pub fn installs_to_preview(target: &str) -> (r: bool)
    ensures
        r == (target@ == "preview"@),
{
    same_text(target, "preview")
}

/// The source and the destination that the registry's CI is generated for: what was given,
/// or the defaults.
pub fn generate(args: &GenerateArgs) -> (r: (String, String))
    ensures
        r.0@ == (match args.source {
            Some(s) => s@,
            None => "Myriad-Dreamin/packages"@,
        }),
        r.1@ == (match args.destination {
            Some(d) => d@,
            None => "packages/preview"@,
        }),
{
    let source = match &args.source {
        Some(s) => s.clone(),
        None => "Myriad-Dreamin/packages".to_owned(),
    };
    let destination = match &args.destination {
        Some(d) => d.clone(),
        None => "packages/preview".to_owned(),
    };
    (source, destination)
}

/// The two ends of a copy, and whether the copy writes to standard output.
pub fn copy(args: &CopyArgs) -> (r: (Endpoint, Endpoint, bool))
    ensures
        r.0 is Stream == (args.source@ == "-"@),
        r.0 matches Endpoint::Address(a) ==> a@ == args.source@,
        r.1 is Stream == (args.destination@ == "-"@),
        r.1 matches Endpoint::Address(a) ==> a@ == args.destination@,
        r.2 == (args.destination@ == "-"@),
{
    let src = endpoint(args.source.as_str());
    let dst = endpoint(args.destination.as_str());
    let writing_to_stdout = same_text(args.destination.as_str(), "-");
    (src, dst, writing_to_stdout)
}

/// What a download takes its package from: a source that begins with `git@` is a repository,
/// one of the form `pkg:spec` a package of the registry.
pub fn download(source: &str) -> (r: Result<DownloadKind, CommandError>)
    ensures
        match r {
            Ok(DownloadKind::Git) => starts_with(source@, "git@"@),
            Ok(DownloadKind::Universe(spec)) => {
                &&& !starts_with(source@, "git@"@)
                &&& starts_with(source@, "pkg:"@)
                &&& parsed_package_spec(source@.subrange(4, source@.len() as int)) matches Some(
                    parts,
                ) && spec.is_parts(parts)
            },
            Err(e) => !starts_with(source@, "git@"@) && if starts_with(source@, "pkg:"@) {
                parsed_package_spec(source@.subrange(4, source@.len() as int)) is None && e
                    == CommandError::InvalidSpec
            } else {
                e == CommandError::UnknownSource
            },
        },
{
    proof {
        reveal_strlit("pkg:");
    }
    if text_starts_with(source, "git@") {
        Ok(DownloadKind::Git)
    } else if text_starts_with(source, "pkg:") {
        let n: usize = source.unicode_len();
        match PackageSpec::parse(source.substring_char(4, n)) {
            Some(spec) => Ok(DownloadKind::Universe(spec)),
            None => Err(CommandError::InvalidSpec),
        }
    } else {
        Err(CommandError::UnknownSource)
    }
}

/// Adds the files to the manifest's excludes and drops repeats that stand in a row.
pub fn exclude(current: Vec<String>, args: &ExcludeArgs) -> (r: Vec<String>)
    ensures
        texts(r@) == deduped(texts(current@) + texts(args.files@)),
{
    let mut all: Vec<String> = current;
    let mut k: usize = 0;
    while k < args.files.len()
        invariant
            k <= args.files@.len(),
            texts(all@) == texts(current@) + texts(args.files@).subrange(0, k as int),
        decreases args.files@.len() - k,
    {
        let ghost before = all@;
        all.push(args.files[k].clone());
        proof {
            assert(texts(all@) =~= texts(before).push(args.files@[k as int]@));
            assert(texts(args.files@).subrange(0, k + 1) =~= texts(args.files@).subrange(
                0,
                k as int,
            ).push(args.files@[k as int]@));
            assert(texts(all@) =~= texts(current@) + texts(args.files@).subrange(0, k + 1));
        }
        k = k + 1;
    }
    proof {
        assert(texts(args.files@).subrange(0, k as int) =~= texts(args.files@));
    }
    let mut out: Vec<String> = Vec::new();
    let mut i: usize = 0;
    while i < all.len()
        invariant
            i <= all@.len(),
            texts(out@) == deduped(texts(all@).subrange(0, i as int)),
        decreases all@.len() - i,
    {
        let ghost before = out@;
        let keep = i == 0 || !same_text(all[i].as_str(), all[i - 1].as_str());
        proof {
            let next = texts(all@).subrange(0, i + 1);
            assert(next.drop_last() =~= texts(all@).subrange(0, i as int));
            assert(next[next.len() - 1] == all@[i as int]@);
            if i > 0 {
                assert(next[next.len() - 2] == all@[i - 1]@);
            }
        }
        if keep {
            out.push(all[i].clone());
            proof {
                assert(texts(out@) =~= texts(before).push(all@[i as int]@));
                if i == 0 {
                    assert(texts(all@).subrange(0, 1) =~= seq![all@[0]@]);
                    assert(texts(before) =~= Seq::<Seq<char>>::empty());
                }
            }
        }
        i = i + 1;
    }
    proof {
        assert(texts(all@).subrange(0, i as int) =~= texts(all@));
    }
    out
}

} // verus!
