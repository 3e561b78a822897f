//! Errors of the package transport.

use vstd::prelude::*;
use vstd::string::*;
use crate::package::PackageSpec;
use crate::version::PackageVersion;

verus! {

/// The classes of failure.
#[derive(Clone, Copy, Debug, PartialEq, Eq, Structural)]
pub enum ErrorKind {
    NotFound,
    VersionConflict,
    NetworkFailure,
    MalformedArchive,
    SubprocessFailure,
    ConfigurationError,
    Other,
}

/// An error that occurred while trying to load a package.
///
/// Some variants carry an optional text with more detail, if available.
#[derive(Clone, Debug)]
pub enum PackError {
    /// The specified package does not exist.
    NotFound(PackageSpec),
    /// The specified package was found, but the version does not exist.
    VersionNotFound(PackageSpec, PackageVersion),
    /// Failed to retrieve the package through the network.
    NetworkFailed(Option<String>),
    /// The package archive was malformed.
    MalformedArchive(Option<String>),
    /// Another error.
    Other(Option<String>),
}

/// A result with a package-related error.
pub type PackResult<T> = Result<T, PackError>;

/// The kind of an input/output failure, as far as the transport tells kinds apart.
#[derive(Clone, Copy, Debug, PartialEq, Eq, Structural)]
pub enum IoErrorKind {
    /// The operation is not offered by this pack.
    Unsupported,
    /// Anything else.
    Other,
}

/// An input/output failure: its kind and what it says.
#[derive(Clone, Debug)]
pub struct IoError {
    pub kind: IoErrorKind,
    pub message: String,
}

/// What is said where a detail is added in brackets.
pub open spec fn with_detail(head: Seq<char>, detail: Seq<char>) -> Seq<char> {
    head + " ("@ + detail + ")"@
}

impl PackError {
    /// Whether two errors are of the same variant and say the same.
    pub open spec fn same(self, other: PackError) -> bool {
        match (self, other) {
            (PackError::NotFound(a), PackError::NotFound(b)) => a.text() == b.text(),
            (PackError::VersionNotFound(a, v), PackError::VersionNotFound(b, w)) => a.text()
                == b.text() && v == w,
            (PackError::NetworkFailed(a), PackError::NetworkFailed(b)) => same_detail(a, b),
            (PackError::MalformedArchive(a), PackError::MalformedArchive(b)) => same_detail(a, b),
            (PackError::Other(a), PackError::Other(b)) => same_detail(a, b),
            _ => false,
        }
    }

    /// The class of the error.
    pub open spec fn spec_kind(self) -> ErrorKind {
        match self {
            PackError::NotFound(_) => ErrorKind::NotFound,
            PackError::VersionNotFound(_, _) => ErrorKind::NotFound,
            PackError::NetworkFailed(_) => ErrorKind::NetworkFailure,
            PackError::MalformedArchive(_) => ErrorKind::MalformedArchive,
            PackError::Other(_) => ErrorKind::Other,
        }
    }

    /// The class of the error.
    pub fn kind(&self) -> (r: ErrorKind)
        ensures
            r == self.spec_kind(),
    {
        match self {
            PackError::NotFound(_) => ErrorKind::NotFound,
            PackError::VersionNotFound(_, _) => ErrorKind::NotFound,
            PackError::NetworkFailed(_) => ErrorKind::NetworkFailure,
            PackError::MalformedArchive(_) => ErrorKind::MalformedArchive,
            PackError::Other(_) => ErrorKind::Other,
        }
    }

    /// The message of the error.
    pub open spec fn text(self) -> Seq<char> {
        match self {
            PackError::NotFound(spec) => "package not found (searched for "@ + spec.text() + ")"@,
            PackError::VersionNotFound(spec, latest) => "package found, but version "@
                + spec.version.text() + " does not exist (latest is "@ + latest.text() + ")"@,
            PackError::NetworkFailed(Some(err)) => with_detail(
                "failed to download package"@,
                err@,
            ),
            PackError::NetworkFailed(None) => "failed to download package"@,
            PackError::MalformedArchive(Some(err)) => with_detail(
                "failed to decompress package"@,
                err@,
            ),
            PackError::MalformedArchive(None) => "failed to decompress package (archive malformed)"@,
            PackError::Other(Some(err)) => with_detail("failed to load package"@, err@),
            PackError::Other(None) => "failed to load package"@,
        }
    }

    /// The message of the error.
    pub fn to_string(&self) -> (r: String)
        ensures
            r@ == self.text(),
    {
        let mut out = String::new();
        match self {
            PackError::NotFound(spec) => {
                out.append("package not found (searched for ");
                let text = spec.to_string();
                out.append(text.as_str());
                out.append(")");
                proof {
                    assert(out@ =~= self.text());
                }
            },
            PackError::VersionNotFound(spec, latest) => {
                out.append("package found, but version ");
                spec.version.write_to(&mut out);
                out.append(" does not exist (latest is ");
                latest.write_to(&mut out);
                out.append(")");
                proof {
                    assert(out@ =~= self.text());
                }
            },
            PackError::NetworkFailed(Some(err)) => {
                out.append("failed to download package");
                out.append(" (");
                out.append(err.as_str());
                out.append(")");
                proof {
                    assert(out@ =~= self.text());
                }
            },
            PackError::NetworkFailed(None) => {
                out.append("failed to download package");
                proof {
                    assert(out@ =~= self.text());
                }
            },
            PackError::MalformedArchive(Some(err)) => {
                out.append("failed to decompress package");
                out.append(" (");
                out.append(err.as_str());
                out.append(")");
                proof {
                    assert(out@ =~= self.text());
                }
            },
            PackError::MalformedArchive(None) => {
                out.append("failed to decompress package (archive malformed)");
                proof {
                    assert(out@ =~= self.text());
                }
            },
            PackError::Other(Some(err)) => {
                out.append("failed to load package");
                out.append(" (");
                out.append(err.as_str());
                out.append(")");
                proof {
                    assert(out@ =~= self.text());
                }
            },
            PackError::Other(None) => {
                out.append("failed to load package");
                proof {
                    assert(out@ =~= self.text());
                }
            },
        }
        out
    }
}

/// Whether two optional details say the same.
pub open spec fn same_detail(a: Option<String>, b: Option<String>) -> bool {
    match (a, b) {
        (Some(x), Some(y)) => x@ == y@,
        (None, None) => true,
        _ => false,
    }
}

/// The failure of an operation that a pack does not offer.
pub fn unsupported() -> (e: IoError)
    ensures
        e.kind == IoErrorKind::Unsupported,
        e.message@ == "unsupported operation"@,
{
    IoError { kind: IoErrorKind::Unsupported, message: "unsupported operation".to_owned() }
}

/// A failure of no particular kind that says `message`.
pub fn other_io(message: &str) -> (e: IoError)
    ensures
        e.kind == IoErrorKind::Other,
        e.message@ == message@,
{
    IoError { kind: IoErrorKind::Other, message: message.to_owned() }
}

/// A malformed archive, with what the decoder said of it.
pub fn malform(detail: &str) -> (e: PackError)
    ensures
        e matches PackError::MalformedArchive(Some(d)) && d@ == detail@,
{
    PackError::MalformedArchive(Some(detail.to_owned()))
}

/// An error of no particular kind that says `message`.
pub fn other(message: &str) -> (e: PackError)
    ensures
        e matches PackError::Other(Some(d)) && d@ == message@,
{
    PackError::Other(Some(message.to_owned()))
}

} // verus!
