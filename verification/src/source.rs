//! Resolving a source or destination address to the pack it names, by its scheme.

use vstd::prelude::*;
use vstd::string::*;
use crate::error::{ErrorKind, PackError};
use crate::package::{first_of, PackageSpec, PartialPackageSpec};
use crate::remote::UniversePack;
use crate::storage::{storage_path, text_of, DirPack, PartialStoragePack};
use crate::text::{
    after_char, before_char, ends_with, find_char, has_char, same_text, text_ends_with,
};
use crate::version::PackageVersion;

verus! {

/// What an address consists of, as far as resolving reads it.
#[derive(Clone, Debug)]
pub struct UrlParts {
    pub scheme: String,
    pub path: String,
    /// The address in its normalized form.
    pub text: String,
}

/// The namespace that a clone is filed under.
#[derive(Clone, Debug)]
pub enum Namespace {
    /// No registry namespace applies: the clone was made ad hoc.
    Detached,
    Named(String),
}

/// A pack as named by an address. Reading it is up to the caller.
#[derive(Clone, Debug)]
pub enum PackSource {
    /// A directory on disk.
    Directory(DirPack),
    /// A git repository to be cloned.
    GitClone { namespace: Namespace, url: String },
    /// A tarball to be downloaded.
    Tarball { url: String, gzipped: bool },
    /// A package of the registry.
    Registry(UniversePack),
}

/// Why an address names no pack.
#[derive(Clone, Copy, Debug, PartialEq, Eq, Structural)]
pub enum SourceError {
    /// The text is no URL.
    InvalidUrl,
    /// A `file` URL that denotes no path on this machine.
    InvalidFileUrl,
    /// An `http(s)` URL that ends in none of `.tar`, `.tar.gz`, `.tgz`, `.git`.
    UnknownHttpKind,
    /// An `ssh` URL that does not end in `.git`.
    UnknownSshKind,
    /// A `data` or `cache` URL from which, with all that is known, no directory follows.
    UnknownLocalPath,
    MissingNamespace,
    MissingName,
    MissingVersion,
    InvalidVersion,
    /// A scheme that is not supported.
    UnsupportedScheme,
}

impl SourceError {
    /// What is said of the error.
    pub open spec fn text(self) -> Seq<char> {
        match self {
            SourceError::InvalidUrl => "Invalid URL"@,
            SourceError::InvalidFileUrl => "Invalid file URL: cannot convert to file path"@,
            SourceError::UnknownHttpKind => "Cannot infer pack type from URL"@,
            SourceError::UnknownSshKind => "Cannot infer pack type from SSH URL"@,
            SourceError::UnknownLocalPath => "Cannot infer pack path from local URL"@,
            SourceError::MissingNamespace => "Missing namespace, cannot infer from given URLs"@,
            SourceError::MissingName => "Missing package name, cannot infer from given URLs"@,
            SourceError::MissingVersion => "Missing version, cannot infer from given URLs"@,
            SourceError::InvalidVersion => "Invalid version in universe URL"@,
            SourceError::UnsupportedScheme => "Unsupported URL scheme"@,
        }
    }

    /// Every address that names no pack is an error of configuration.
    pub fn kind(&self) -> (r: ErrorKind)
        ensures
            r == ErrorKind::ConfigurationError,
    {
        ErrorKind::ConfigurationError
    }

    /// What is said of the error.
    pub fn message(&self) -> (r: &'static str)
        ensures
            r@ == self.text(),
    {
        match self {
            SourceError::InvalidUrl => "Invalid URL",
            SourceError::InvalidFileUrl => "Invalid file URL: cannot convert to file path",
            SourceError::UnknownHttpKind => "Cannot infer pack type from URL",
            SourceError::UnknownSshKind => "Cannot infer pack type from SSH URL",
            SourceError::UnknownLocalPath => "Cannot infer pack path from local URL",
            SourceError::MissingNamespace => "Missing namespace, cannot infer from given URLs",
            SourceError::MissingName => "Missing package name, cannot infer from given URLs",
            SourceError::MissingVersion => "Missing version, cannot infer from given URLs",
            SourceError::InvalidVersion => "Invalid version in universe URL",
            SourceError::UnsupportedScheme => "Unsupported URL scheme",
        }
    }

    /// The error as an error of the package transport: of no particular kind, with its
    /// message as the detail.
    pub fn into_pack_error(&self) -> (r: PackError)
        ensures
            r matches PackError::Other(Some(said)) && said@ == self.text(),
    {
        PackError::Other(Some(self.message().to_owned()))
    }
}

/// The roots of local and cache storage.
#[derive(Clone, Debug)]
pub struct StorageDirs {
    pub data: String,
    pub cache: String,
}

/// A pack source with its strings taken by their text.
pub enum SourceView {
    Directory(Seq<char>),
    /// The address, and the namespace that the clone is filed under; none for a detached one.
    GitClone(Seq<char>, Option<Seq<char>>),
    Tarball(Seq<char>, bool),
    Registry(Seq<char>, Seq<char>, PackageVersion),
}

/// Scheme, path and normalized form that the `url` crate reads out of a text, or nothing where
/// it rejects the text.
pub uninterp spec fn parsed_url(text: Seq<char>) -> Option<(Seq<char>, Seq<char>, Seq<char>)>;

/// `Url::parse` of the `url` crate, with `scheme`, `path` and `as_str` of what it returns.
/// The contract only names the outcome.
#[verifier::external_body]
pub(crate) fn split_url(text: &str) -> (r: Option<UrlParts>)
    ensures
        match r {
            Some(parts) => parsed_url(text@) == Some((parts.scheme@, parts.path@, parts.text@)),
            None => parsed_url(text@) is None,
        },
{
    match url::Url::parse(text) {
        Ok(u) => Some(
            UrlParts {
                scheme: u.scheme().to_string(),
                path: u.path().to_string(),
                text: u.as_str().to_string(),
            },
        ),
        Err(_) => None,
    }
}

/// The path that the `url` crate makes of a `file` URL, or nothing where the URL denotes
/// none. How a path is written goes by the target that the library is built for.
pub uninterp spec fn file_url_path(text: Seq<char>) -> Option<Seq<char>>;

/// `Url::to_file_path` of the `url` crate, after `Url::parse`. The contract only names the
/// outcome.
#[verifier::external_body]
fn file_path_of(text: &str) -> (r: Option<String>)
    ensures
        text_of(r) == file_url_path(text@),
{
    let u = url::Url::parse(text).ok()?;
    let path = u.to_file_path().ok()?;
    Some(path.to_string_lossy().into_owned())
}

impl PackSource {
    /// The source with its strings taken by their text.
    pub open spec fn view(&self) -> SourceView {
        match *self {
            PackSource::Directory(dir) => SourceView::Directory(dir.path@),
            PackSource::GitClone { namespace, url } => SourceView::GitClone(
                url@,
                match namespace {
                    Namespace::Detached => None,
                    Namespace::Named(n) => Some(n@),
                },
            ),
            PackSource::Tarball { url, gzipped } => SourceView::Tarball(url@, gzipped),
            PackSource::Registry(pack) => SourceView::Registry(
                pack.specifier.namespace@,
                pack.specifier.name@,
                pack.specifier.version,
            ),
        }
    }
}

/// Whether an outcome is the one expected, strings taken by their text.
pub open spec fn outcome_is(
    r: Result<PackSource, SourceError>,
    expected: Result<SourceView, SourceError>,
) -> bool {
    match (r, expected) {
        (Ok(source), Ok(view)) => source@ == view,
        (Err(e), Err(f)) => e == f,
        _ => false,
    }
}

/// What an `http(s)` address names, going by how its path ends.
pub open spec fn http_source(path: Seq<char>, text: Seq<char>) -> Result<SourceView, SourceError> {
    if ends_with(path, ".tar"@) {
        Ok(SourceView::Tarball(text, false))
    } else if ends_with(path, ".tar.gz"@) || ends_with(path, ".tgz"@) {
        Ok(SourceView::Tarball(text, true))
    } else if ends_with(path, ".git"@) {
        Ok(SourceView::GitClone(text, None))
    } else {
        Err(SourceError::UnknownHttpKind)
    }
}

/// What an `ssh` address names.
pub open spec fn ssh_source(path: Seq<char>, text: Seq<char>) -> Result<SourceView, SourceError> {
    if ends_with(path, ".git"@) {
        Ok(SourceView::GitClone(text, None))
    } else {
        Err(SourceError::UnknownSshKind)
    }
}

/// The up to three parts of `namespace/name/version`; the third takes all that is left.
pub open spec fn three_parts(s: Seq<char>) -> (
    Option<Seq<char>>,
    Option<Seq<char>>,
    Option<Seq<char>>,
) {
    if !has_char(s, '/') {
        (Some(s), None, None)
    } else {
        let rest = after_char(s, '/');
        if !has_char(rest, '/') {
            (Some(before_char(s, '/')), Some(rest), None)
        } else {
            (Some(before_char(s, '/')), Some(before_char(rest, '/')), Some(after_char(rest, '/')))
        }
    }
}

/// The parts that a path of the form `@namespace/name/version` gives; none where the path
/// does not begin with `@`.
pub open spec fn path_parts(path: Seq<char>) -> (
    Option<Seq<char>>,
    Option<Seq<char>>,
    Option<Seq<char>>,
) {
    if path.len() > 0 && path[0] == '@' {
        three_parts(path.subrange(1, path.len() as int))
    } else {
        (None, None, None)
    }
}

/// What a `data` or `cache` address names: the directory below the storage root that the
/// path's parts, and after them what is known of the source, lead to.
pub open spec fn local_source(
    scheme: Seq<char>,
    path: Seq<char>,
    known: PartialPackageSpec,
    dirs: StorageDirs,
) -> Result<SourceView, SourceError> {
    if scheme != "data"@ && scheme != "cache"@ {
        Err(SourceError::UnsupportedScheme)
    } else {
        let root = if scheme == "data"@ {
            dirs.data@
        } else {
            dirs.cache@
        };
        let parts = path_parts(path);
        match (
            first_of(parts.0, text_of(known.namespace)),
            first_of(parts.1, text_of(known.name)),
            first_of(parts.2, text_of(known.version)),
        ) {
            (Some(namespace), Some(name), Some(version)) => Ok(
                SourceView::Directory(storage_path(root, namespace, name, version)),
            ),
            _ => Err(SourceError::UnknownLocalPath),
        }
    }
}

/// What a `universe` address names: the registry's package that the path's parts, and after
/// them what is known of the source, identify. A namespace or a name that is empty counts as
/// missing.
pub open spec fn universe_source(path: Seq<char>, known: PartialPackageSpec) -> Result<
    SourceView,
    SourceError,
> {
    let parts = path_parts(path);
    match first_of(parts.0, text_of(known.namespace)) {
        None => Err(SourceError::MissingNamespace),
        Some(namespace) => if namespace.len() == 0 {
            Err(SourceError::MissingNamespace)
        } else {
            match first_of(parts.1, text_of(known.name)) {
                None => Err(SourceError::MissingName),
                Some(name) => if name.len() == 0 {
                    Err(SourceError::MissingName)
                } else {
                    match first_of(parts.2, text_of(known.version)) {
                        None => Err(SourceError::MissingVersion),
                        Some(version) => match PackageVersion::spec_parse(version) {
                            None => Err(SourceError::InvalidVersion),
                            Some(v) => Ok(SourceView::Registry(namespace, name, v)),
                        },
                    }
                },
            }
        },
    }
}

/// What a `file` address names, given the path that it denotes on this machine.
pub open spec fn file_source(file_path: Option<Seq<char>>) -> Result<SourceView, SourceError> {
    match file_path {
        Some(path) => Ok(SourceView::Directory(path)),
        None => Err(SourceError::InvalidFileUrl),
    }
}

/// What an address names, by its scheme.
pub open spec fn resolved(
    scheme: Seq<char>,
    path: Seq<char>,
    text: Seq<char>,
    file_path: Option<Seq<char>>,
    known: PartialPackageSpec,
    dirs: StorageDirs,
) -> Result<SourceView, SourceError> {
    if scheme == "git"@ {
        Ok(SourceView::GitClone(text, None))
    } else if scheme == "file"@ {
        file_source(file_path)
    } else if scheme == "http"@ || scheme == "https"@ {
        http_source(path, text)
    } else if scheme == "ssh"@ {
        ssh_source(path, text)
    } else if scheme == "data"@ || scheme == "cache"@ {
        local_source(scheme, path, known, dirs)
    } else if scheme == "universe"@ {
        universe_source(path, known)
    } else {
        Err(SourceError::UnsupportedScheme)
    }
}

fn detached_clone(parts: &UrlParts) -> (r: PackSource)
    ensures
        r@ == SourceView::GitClone(parts.text@, None),
{
    PackSource::GitClone { namespace: Namespace::Detached, url: parts.text.clone() }
}

fn split_three(s: &str) -> (r: (Option<String>, Option<String>, Option<String>))
    ensures
        (text_of(r.0), text_of(r.1), text_of(r.2)) == three_parts(s@),
{
    let n: usize = s.unicode_len();
    let at: usize = find_char(s, '/');
    if at >= n {
        return (Some(s.to_owned()), None, None);
    }
    let first = s.substring_char(0, at).to_owned();
    let rest = s.substring_char(at + 1, n);
    let m: usize = rest.unicode_len();
    let next: usize = find_char(rest, '/');
    if next >= m {
        return (Some(first), Some(rest.to_owned()), None);
    }
    let second = rest.substring_char(0, next).to_owned();
    let third = rest.substring_char(next + 1, m).to_owned();
    (Some(first), Some(second), Some(third))
}

fn split_path(path: &str) -> (r: (Option<String>, Option<String>, Option<String>))
    ensures
        (text_of(r.0), text_of(r.1), text_of(r.2)) == path_parts(path@),
{
    let n: usize = path.unicode_len();
    if n > 0 && path.get_char(0) == '@' {
        split_three(path.substring_char(1, n))
    } else {
        (None, None, None)
    }
}

fn pick_text(a: Option<String>, b: &Option<String>) -> (r: Option<String>)
    ensures
        text_of(r) == first_of(text_of(a), text_of(*b)),
{
    match a {
        Some(x) => Some(x),
        None => match b {
            Some(y) => Some(y.clone()),
            None => None,
        },
    }
}

/// The pack that an `http(s)` address names, going by how its path ends: `.tar` is a
/// tarball, `.tar.gz` and `.tgz` a compressed one, `.git` a repository.
pub fn pack_from_http_url(parts: &UrlParts) -> (r: Result<PackSource, SourceError>)
    ensures
        outcome_is(r, http_source(parts.path@, parts.text@)),
{
    let path = parts.path.as_str();
    if text_ends_with(path, ".tar") {
        Ok(PackSource::Tarball { url: parts.text.clone(), gzipped: false })
    } else if text_ends_with(path, ".tar.gz") || text_ends_with(path, ".tgz") {
        Ok(PackSource::Tarball { url: parts.text.clone(), gzipped: true })
    } else if text_ends_with(path, ".git") {
        Ok(detached_clone(parts))
    } else {
        Err(SourceError::UnknownHttpKind)
    }
}

/// The pack that an `ssh` address names: a repository, if the path ends in `.git`.
pub fn pack_from_ssh_url(parts: &UrlParts) -> (r: Result<PackSource, SourceError>)
    ensures
        outcome_is(r, ssh_source(parts.path@, parts.text@)),
{
    if text_ends_with(parts.path.as_str(), ".git") {
        Ok(detached_clone(parts))
    } else {
        Err(SourceError::UnknownSshKind)
    }
}

/// The directory that a `data` or `cache` address names. Namespace, name and version come
/// from the path where it has the form `@namespace/name/version`, and from `known` for what
/// the path leaves open.
pub fn pack_from_local_url(parts: &UrlParts, known: PartialPackageSpec, dirs: &StorageDirs) -> (r:
    Result<PackSource, SourceError>)
    ensures
        outcome_is(r, local_source(parts.scheme@, parts.path@, known, *dirs)),
{
    let root = if same_text(parts.scheme.as_str(), "data") {
        dirs.data.clone()
    } else if same_text(parts.scheme.as_str(), "cache") {
        dirs.cache.clone()
    } else {
        return Err(SourceError::UnsupportedScheme);
    };
    let (namespace, name, version) = split_path(parts.path.as_str());
    let partial = PartialPackageSpec { namespace, name, version };
    match PartialStoragePack::new(root).with_partial_spec(partial).with_partial_spec(known).ready() {
        Some(dir) => Ok(PackSource::Directory(dir)),
        None => Err(SourceError::UnknownLocalPath),
    }
}

/// The registry's package that a `universe` address names. Namespace, name and version come
/// from the path where it has the form `@namespace/name/version`, and from `known` for what
/// the path leaves open; each must be had from one of the two.
pub fn pack_from_universe_url(parts: &UrlParts, known: &PartialPackageSpec) -> (r: Result<
    PackSource,
    SourceError,
>)
    ensures
        outcome_is(r, universe_source(parts.path@, *known)),
        r matches Ok(PackSource::Registry(pack)) ==> pack.specifier.well_formed(),
{
    let (part_namespace, part_name, part_version) = split_path(parts.path.as_str());
    let namespace = match pick_text(part_namespace, &known.namespace) {
        Some(x) => x,
        None => {
            return Err(SourceError::MissingNamespace);
        },
    };
    if namespace.as_str().unicode_len() == 0 {
        return Err(SourceError::MissingNamespace);
    }
    let name = match pick_text(part_name, &known.name) {
        Some(x) => x,
        None => {
            return Err(SourceError::MissingName);
        },
    };
    if name.as_str().unicode_len() == 0 {
        return Err(SourceError::MissingName);
    }
    let version = match pick_text(part_version, &known.version) {
        Some(x) => x,
        None => {
            return Err(SourceError::MissingVersion);
        },
    };
    match PackageVersion::parse(version.as_str()) {
        Some(version) => Ok(
            PackSource::Registry(UniversePack::new(PackageSpec { namespace, name, version })),
        ),
        None => Err(SourceError::InvalidVersion),
    }
}

/// The pack that an address names, by its scheme. `file_path` is the path that the address
/// denotes on this machine; it is read for a `file` address only.
pub fn resolve_url(
    parts: &UrlParts,
    file_path: Option<String>,
    known: PartialPackageSpec,
    dirs: &StorageDirs,
) -> (r: Result<PackSource, SourceError>)
    ensures
        outcome_is(
            r,
            resolved(parts.scheme@, parts.path@, parts.text@, text_of(file_path), known, *dirs),
        ),
{
    let scheme = parts.scheme.as_str();
    if same_text(scheme, "git") {
        Ok(detached_clone(parts))
    } else if same_text(scheme, "file") {
        match file_path {
            Some(path) => Ok(PackSource::Directory(DirPack::new(path))),
            None => Err(SourceError::InvalidFileUrl),
        }
    } else if same_text(scheme, "http") || same_text(scheme, "https") {
        pack_from_http_url(parts)
    } else if same_text(scheme, "ssh") {
        pack_from_ssh_url(parts)
    } else if same_text(scheme, "data") || same_text(scheme, "cache") {
        pack_from_local_url(parts, known, dirs)
    } else if same_text(scheme, "universe") {
        pack_from_universe_url(parts, &known)
    } else {
        Err(SourceError::UnsupportedScheme)
    }
}

/// Resolves an address to the pack it names. A text that is no URL is rejected; for every
/// other the outcome follows from the URL's scheme and path, and for a `file` address from
/// the path that it denotes.
pub fn parse_url(url: &str, known: PartialPackageSpec, dirs: &StorageDirs) -> (r: Result<
    PackSource,
    SourceError,
>)
    ensures
        match parsed_url(url@) {
            None => r == Err::<PackSource, SourceError>(SourceError::InvalidUrl),
            Some((scheme, path, text)) => outcome_is(
                r,
                resolved(
                    scheme,
                    path,
                    text,
                    if scheme == "file"@ {
                        file_url_path(url@)
                    } else {
                        None
                    },
                    known,
                    *dirs,
                ),
            ),
        },
{
    match split_url(url) {
        None => Err(SourceError::InvalidUrl),
        Some(parts) => {
            let file_path = if same_text(parts.scheme.as_str(), "file") {
                file_path_of(url)
            } else {
                None
            };
            resolve_url(&parts, file_path, known, dirs)
        },
    }
}

} // verus!
