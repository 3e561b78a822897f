//! Packs named in the short form `kind:rest`, and the rules of copying between them.

use vstd::prelude::*;
use vstd::string::*;
use crate::archive::{gunzipped, decompress_gzip};
use crate::error::PackResult;
use crate::package::{parsed_package_spec, PackageSpec};
use crate::source::{parsed_url, split_url, PackSource, StorageDirs};
use crate::storage::storage_path;
use crate::text::{after_char, before_char, find_char, has_char, same_text};
use crate::version::PackageVersion;

verus! {

/// A pack by its kind.
#[derive(Clone, Debug)]
pub enum PackKind {
    /// Git repository, can be SSH or HTTPS
    Git { git: String },
    Local { path: String },
    /// Typst Universe package, e.g. `cetz-plot:0.1.2`
    Universe { spec: PackageSpec },
    TarStream { data: Vec<u8> },
    Npm { spec: PackageSpec },
}

/// What a short form asks for: a pack that is named outright, or a tarball whose bytes are
/// still to be had.
#[derive(Clone, Debug)]
pub enum KindRequest {
    Ready(PackKind),
    /// Read the tarball from a file.
    ReadFile { path: String, gzipped: bool },
    /// Download the tarball.
    Download { url: String, gzipped: bool },
}

/// Why a short form names no pack.
#[derive(Clone, Copy, Debug, PartialEq, Eq, Structural)]
pub enum KindError {
    /// There is no colon, so no kind.
    NoKind,
    InvalidGitUrl,
    InvalidSpec,
    /// A local directory kind other than `data` and `cache`.
    UnsupportedDirKind,
    InvalidTarballUrl,
    UnsupportedKind,
}

/// Where a copy ends up.
#[derive(Clone, Debug)]
pub enum Sink {
    /// Files below a directory.
    Directory(String),
    /// A tar byte stream on standard output.
    Stdout,
}

/// Why a pack cannot be copied into.
#[derive(Clone, Copy, Debug, PartialEq, Eq, Structural)]
pub enum CopyError {
    GitDestination,
    UniverseDestination,
    /// A tar stream that is not standard output.
    TarDestination,
    NpmDestination,
}

/// One end of a copy as given on the command line.
#[derive(Clone, Debug)]
pub enum Endpoint {
    /// The literal `-`: the process's standard stream, as a raw tar byte sequence.
    Stream,
    Address(String),
}

/// A request with its strings taken by their text.
pub enum RequestView {
    Git(Seq<char>),
    Local(Seq<char>),
    Universe(Seq<char>, Seq<char>, (u32, u32, u32)),
    Npm(Seq<char>, Seq<char>, (u32, u32, u32)),
    ReadFile(Seq<char>, bool),
    Download(Seq<char>, bool),
    Stream(Seq<u8>),
}

/// The triple of a specifier.
pub open spec fn spec_triple(spec: PackageSpec) -> (Seq<char>, Seq<char>, (u32, u32, u32)) {
    (spec.namespace@, spec.name@, (spec.version.major, spec.version.minor, spec.version.patch))
}

impl KindRequest {
    pub open spec fn view(&self) -> RequestView {
        match *self {
            KindRequest::Ready(PackKind::Git { git }) => RequestView::Git(git@),
            KindRequest::Ready(PackKind::Local { path }) => RequestView::Local(path@),
            KindRequest::Ready(PackKind::Universe { spec }) => RequestView::Universe(
                spec.namespace@,
                spec.name@,
                spec_triple(spec).2,
            ),
            KindRequest::Ready(PackKind::Npm { spec }) => RequestView::Npm(
                spec.namespace@,
                spec.name@,
                spec_triple(spec).2,
            ),
            KindRequest::Ready(PackKind::TarStream { data }) => RequestView::Stream(data@),
            KindRequest::ReadFile { path, gzipped } => RequestView::ReadFile(path@, gzipped),
            KindRequest::Download { url, gzipped } => RequestView::Download(url@, gzipped),
        }
    }
}

/// The decimal text of a version given by its components.
pub open spec fn triple_text(v: (u32, u32, u32)) -> Seq<char> {
    (PackageVersion { major: v.0, minor: v.1, patch: v.2 }).text()
}

/// What `local:rest` names: a plain path, or with `kind@spec` the directory of the package in
/// data or cache storage.
pub open spec fn local_request(rest: Seq<char>, dirs: StorageDirs) -> Result<
    RequestView,
    KindError,
> {
    if !has_char(rest, '@') {
        Ok(RequestView::Local(rest))
    } else {
        let dir_kind = before_char(rest, '@');
        match parsed_package_spec(after_char(rest, '@')) {
            None => Err(KindError::InvalidSpec),
            Some((namespace, name, version)) => if dir_kind == ""@ || dir_kind == "data"@ {
                Ok(
                    RequestView::Local(
                        storage_path(dirs.data@, namespace, name, triple_text(version)),
                    ),
                )
            } else if dir_kind == "cache"@ {
                Ok(
                    RequestView::Local(
                        storage_path(dirs.cache@, namespace, name, triple_text(version)),
                    ),
                )
            } else {
                Err(KindError::UnsupportedDirKind)
            },
        }
    }
}

/// What a tarball address asks for.
pub open spec fn remote_request(rest: Seq<char>, gzipped: bool) -> Result<RequestView, KindError> {
    match parsed_url(rest) {
        Some((_, _, text)) => Ok(RequestView::Download(text, gzipped)),
        None => Err(KindError::InvalidTarballUrl),
    }
}

/// What a short form `kind:rest` asks for.
pub open spec fn requested(value: Seq<char>, dirs: StorageDirs) -> Result<RequestView, KindError> {
    if !has_char(value, ':') {
        Err(KindError::NoKind)
    } else {
        let kind = before_char(value, ':');
        let rest = after_char(value, ':');
        if kind == "git"@ {
            match parsed_url(rest) {
                Some((_, _, text)) => Ok(RequestView::Git(text)),
                None => Err(KindError::InvalidGitUrl),
            }
        } else if kind == "local"@ {
            local_request(rest, dirs)
        } else if kind == "universe"@ {
            match parsed_package_spec(rest) {
                Some((namespace, name, version)) => Ok(
                    RequestView::Universe(namespace, name, version),
                ),
                None => Err(KindError::InvalidSpec),
            }
        } else if kind == "tar.local"@ {
            Ok(RequestView::ReadFile(rest, false))
        } else if kind == "tar.remote"@ {
            remote_request(rest, false)
        } else if kind == "tar.gz.local"@ {
            Ok(RequestView::ReadFile(rest, true))
        } else if kind == "tar.gz.remote"@ {
            remote_request(rest, true)
        } else if kind == "npm"@ {
            match parsed_package_spec(rest) {
                Some((namespace, name, version)) => Ok(RequestView::Npm(namespace, name, version)),
                None => Err(KindError::InvalidSpec),
            }
        } else {
            Err(KindError::UnsupportedKind)
        }
    }
}

/// Whether an outcome is the one expected, strings taken by their text.
pub open spec fn request_is(r: Result<KindRequest, KindError>, expected: Result<
    RequestView,
    KindError,
>) -> bool {
    match (r, expected) {
        (Ok(request), Ok(view)) => request@ == view,
        (Err(e), Err(f)) => e == f,
        _ => false,
    }
}

/// Where a copy into `dst` ends up, if it can be copied into at all.
pub open spec fn sink_of(dst: PackKind, writing_to_stdout: bool) -> Result<Seq<char>, CopyError> {
    match dst {
        PackKind::Git { git } => Err(CopyError::GitDestination),
        PackKind::Local { path } => Ok(path@),
        PackKind::Universe { spec } => Err(CopyError::UniverseDestination),
        PackKind::TarStream { data } => if writing_to_stdout {
            Ok(Seq::empty())
        } else {
            Err(CopyError::TarDestination)
        },
        PackKind::Npm { spec } => Err(CopyError::NpmDestination),
    }
}

fn storage_dir(root: &str, spec: &PackageSpec) -> (r: String)
    ensures
        r@ == storage_path(root@, spec.namespace@, spec.name@, spec.version.text()),
{
    let mut path = String::new();
    path.append(root);
    path.append("/");
    path.append(spec.namespace.as_str());
    path.append("/");
    path.append(spec.name.as_str());
    path.append("/");
    spec.version.write_to(&mut path);
    proof {
        assert(path@ =~= storage_path(root@, spec.namespace@, spec.name@, spec.version.text()));
    }
    path
}

fn local_kind(rest: &str, dirs: &StorageDirs) -> (r: Result<KindRequest, KindError>)
    ensures
        request_is(r, local_request(rest@, *dirs)),
{
    let n: usize = rest.unicode_len();
    let at: usize = find_char(rest, '@');
    if at >= n {
        return Ok(KindRequest::Ready(PackKind::Local { path: rest.to_owned() }));
    }
    let dir_kind = rest.substring_char(0, at);
    let spec = match PackageSpec::parse(rest.substring_char(at + 1, n)) {
        Some(spec) => spec,
        None => {
            return Err(KindError::InvalidSpec);
        },
    };
    if same_text(dir_kind, "") || same_text(dir_kind, "data") {
        Ok(KindRequest::Ready(PackKind::Local { path: storage_dir(dirs.data.as_str(), &spec) }))
    } else if same_text(dir_kind, "cache") {
        Ok(KindRequest::Ready(PackKind::Local { path: storage_dir(dirs.cache.as_str(), &spec) }))
    } else {
        Err(KindError::UnsupportedDirKind)
    }
}

fn remote_kind(rest: &str, gzipped: bool) -> (r: Result<KindRequest, KindError>)
    ensures
        request_is(r, remote_request(rest@, gzipped)),
{
    match split_url(rest) {
        Some(parts) => Ok(KindRequest::Download { url: parts.text, gzipped }),
        None => Err(KindError::InvalidTarballUrl),
    }
}

impl PackKind {
    /// Reads a pack in the short form `kind:rest`. The kinds are `git`, `local`, `universe`,
    /// `tar.local`, `tar.remote`, `tar.gz.local`, `tar.gz.remote` and `npm`.
    pub fn try_from(value: &str, dirs: &StorageDirs) -> (r: Result<KindRequest, KindError>)
        ensures
            request_is(r, requested(value@, *dirs)),
    {
        let n: usize = value.unicode_len();
        let at: usize = find_char(value, ':');
        if at >= n {
            return Err(KindError::NoKind);
        }
        let kind = value.substring_char(0, at);
        let rest = value.substring_char(at + 1, n);
        if same_text(kind, "git") {
            match split_url(rest) {
                Some(parts) => Ok(KindRequest::Ready(PackKind::Git { git: parts.text })),
                None => Err(KindError::InvalidGitUrl),
            }
        } else if same_text(kind, "local") {
            local_kind(rest, dirs)
        } else if same_text(kind, "universe") {
            match PackageSpec::parse(rest) {
                Some(spec) => Ok(KindRequest::Ready(PackKind::Universe { spec })),
                None => Err(KindError::InvalidSpec),
            }
        } else if same_text(kind, "tar.local") {
            Ok(KindRequest::ReadFile { path: rest.to_owned(), gzipped: false })
        } else if same_text(kind, "tar.remote") {
            remote_kind(rest, false)
        } else if same_text(kind, "tar.gz.local") {
            Ok(KindRequest::ReadFile { path: rest.to_owned(), gzipped: true })
        } else if same_text(kind, "tar.gz.remote") {
            remote_kind(rest, true)
        } else if same_text(kind, "npm") {
            match PackageSpec::parse(rest) {
                Some(spec) => Ok(KindRequest::Ready(PackKind::Npm { spec })),
                None => Err(KindError::InvalidSpec),
            }
        } else {
            Err(KindError::UnsupportedKind)
        }
    }

    /// The tar stream that the bytes of a tarball make, after decompression where they are
    /// gzip-compressed.
    pub fn from_tarball(data: Vec<u8>, gzipped: bool) -> (r: PackResult<PackKind>)
        ensures
            match r {
                Ok(kind) => kind matches PackKind::TarStream { data: plain } && Some(plain@) == (
                if gzipped {
                    gunzipped(data@)
                } else {
                    Some(data@)
                }),
                Err(e) => gzipped && gunzipped(data@) is None && e is MalformedArchive,
            },
    {
        if gzipped {
            match decompress_gzip(&data) {
                Ok(plain) => Ok(PackKind::TarStream { data: plain }),
                Err(e) => Err(e),
            }
        } else {
            Ok(PackKind::TarStream { data })
        }
    }
}

/// One end of a copy: `-` is the standard stream, everything else an address.
pub fn endpoint(arg: &str) -> (r: Endpoint)
    ensures
        match r {
            Endpoint::Stream => arg@ == "-"@,
            Endpoint::Address(a) => arg@ != "-"@ && a@ == arg@,
        },
{
    if same_text(arg, "-") {
        Endpoint::Stream
    } else {
        Endpoint::Address(arg.to_owned())
    }
}

/// Where a copy into `dst` ends up. Only a local directory can be copied into, and a tar
/// stream where it is standard output.
pub fn destination_sink(dst: &PackKind, writing_to_stdout: bool) -> (r: Result<Sink, CopyError>)
    ensures
        match r {
            Ok(Sink::Directory(path)) => dst is Local && sink_of(*dst, writing_to_stdout) == Ok::<
                Seq<char>,
                CopyError,
            >(path@),
            Ok(Sink::Stdout) => dst is TarStream && writing_to_stdout,
            Err(e) => sink_of(*dst, writing_to_stdout) == Err::<Seq<char>, CopyError>(e),
        },
{
    match dst {
        PackKind::Git { git } => Err(CopyError::GitDestination),
        PackKind::Local { path } => Ok(Sink::Directory(path.clone())),
        PackKind::Universe { spec } => Err(CopyError::UniverseDestination),
        PackKind::TarStream { data } => {
            if writing_to_stdout {
                Ok(Sink::Stdout)
            } else {
                Err(CopyError::TarDestination)
            }
        },
        PackKind::Npm { spec } => Err(CopyError::NpmDestination),
    }
}

/// Where a copy into the pack that an address names ends up. Only a directory can be copied
/// into: a repository, a package of the registry and a tarball at an address cannot.
pub fn source_sink(dst: &PackSource) -> (r: Result<Sink, CopyError>)
    ensures
        match *dst {
            PackSource::Directory(dir) => r matches Ok(Sink::Directory(path)) && path@ == dir.path@,
            PackSource::GitClone { namespace, url } => r == Err::<Sink, CopyError>(
                CopyError::GitDestination,
            ),
            PackSource::Registry(_) => r == Err::<Sink, CopyError>(
                CopyError::UniverseDestination,
            ),
            PackSource::Tarball { url, gzipped } => r == Err::<Sink, CopyError>(
                CopyError::TarDestination,
            ),
        },
{
    match dst {
        PackSource::Directory(dir) => Ok(Sink::Directory(dir.path.clone())),
        PackSource::GitClone { namespace, url } => Err(CopyError::GitDestination),
        PackSource::Registry(_) => Err(CopyError::UniverseDestination),
        PackSource::Tarball { url, gzipped } => Err(CopyError::TarDestination),
    }
}

} // verus!
