//! Packs behind HTTP: an archive at a URL, and a package of the registry. The request itself
//! is made by the caller; what is decided here is where to ask and what the answer means.

use vstd::prelude::*;
use vstd::string::*;
use crate::archive::{
    gunzipped, is_gzipped, looks_gzipped, pairs, read_gzipped_tarball, read_tarball,
    regular_files, tar_members,
};
use crate::error::{PackError, PackResult};
use crate::memory::PackEntry;
use crate::package::PackageSpec;
use crate::text::{decimal, push_decimal, same_text};

verus! {

/// A package in the remote http.
#[derive(Clone, Debug)]
pub struct HttpPack {
    /// The package specifier.
    pub specifier: PackageSpec,
    /// The url of the package.
    pub url: String,
}

/// A package in the universe registry.
#[derive(Clone, Debug)]
pub struct UniversePack {
    /// The package specifier.
    pub specifier: PackageSpec,
}

/// How a GET request ended.
#[derive(Clone, Debug)]
pub enum HttpOutcome {
    /// The server answered.
    Response { status: u16, body: Vec<u8> },
    /// No answer was had; the text is what the transport reported.
    Transport(String),
    /// The worker that was to make the request could not be had.
    NoWorker,
}

/// The default Typst registry.
pub open spec fn default_registry() -> Seq<char> {
    "https://packages.typst.org"@
}

/// Where the registry keeps the archive of a preview package:
/// `{registry}/preview/{name}-{version}.tar.gz`.
pub open spec fn download_url_of(spec: PackageSpec) -> Seq<char> {
    default_registry() + "/preview/"@ + spec.name@ + "-"@ + spec.version.text() + ".tar.gz"@
}

/// Whether a status code reports success.
pub open spec fn is_success(status: u16) -> bool {
    200 <= status <= 299
}

/// What is said of an answer that does not report success.
pub open spec fn status_text(status: u16) -> Seq<char> {
    "HTTP status "@ + decimal(status as nat)
}

/// The files of a body: of a gzip-compressed tarball where the body begins like a gzip stream,
/// of a plain tarball otherwise. `None` where it cannot be decoded.
pub open spec fn body_files(body: Seq<u8>) -> Option<Seq<(Seq<char>, Seq<u8>)>> {
    let plain = if looks_gzipped(body) {
        gunzipped(body)
    } else {
        Some(body)
    };
    match plain {
        Some(bytes) => match tar_members(bytes) {
            Some(members) => Some(regular_files(members)),
            None => None,
        },
        None => None,
    }
}

/// Decodes the body of an answer into the files it holds.
pub fn read_body(body: &Vec<u8>) -> (r: PackResult<Vec<PackEntry>>)
    ensures
        match r {
            Ok(files) => body_files(body@) == Some(pairs(files@)),
            Err(e) => body_files(body@) is None && e is MalformedArchive,
        },
{
    if is_gzipped(body) {
        read_gzipped_tarball(body)
    } else {
        read_tarball(body)
    }
}

impl HttpPack {
    /// Creates a new `HttpPack` instance.
    pub fn new(specifier: PackageSpec, url: String) -> (r: HttpPack)
        ensures
            r.specifier == specifier,
            r.url == url,
    {
        HttpPack { specifier, url }
    }

    /// What the outcome of the GET request for this pack means: the files of the archive on
    /// success; the package was not found on 404; a network failure on any other status that
    /// does not report success, and where no answer was had; a malformed archive where the
    /// body cannot be decoded.
    pub fn read_response(&self, outcome: HttpOutcome) -> (r: PackResult<Vec<PackEntry>>)
        ensures
            match outcome {
                HttpOutcome::Response { status, body } => if status == 404 {
                    r matches Err(PackError::NotFound(spec)) && spec == self.specifier
                } else if !is_success(status) {
                    r matches Err(PackError::NetworkFailed(Some(said))) && said@ == status_text(
                        status,
                    )
                } else {
                    match r {
                        Ok(files) => body_files(body@) == Some(pairs(files@)),
                        Err(e) => body_files(body@) is None && e is MalformedArchive,
                    }
                },
                HttpOutcome::Transport(what) => r matches Err(PackError::NetworkFailed(Some(said)))
                    && said@ == what@,
                HttpOutcome::NoWorker => r matches Err(PackError::Other(Some(said))) && said@
                    == "cannot spawn http thread"@,
            },
    {
        match outcome {
            HttpOutcome::Response { status, body } => {
                if status == 404 {
                    Err(PackError::NotFound(self.specifier.clone()))
                } else if status < 200 || status > 299 {
                    let mut said = String::new();
                    said.append("HTTP status ");
                    push_decimal(&mut said, status as u32);
                    proof {
                        assert(said@ =~= status_text(status));
                    }
                    Err(PackError::NetworkFailed(Some(said)))
                } else {
                    read_body(&body)
                }
            },
            HttpOutcome::Transport(what) => Err(PackError::NetworkFailed(Some(what))),
            HttpOutcome::NoWorker => Err(
                PackError::Other(Some("cannot spawn http thread".to_owned())),
            ),
        }
    }
}

impl UniversePack {
    /// Creates a new `UniversePack` instance.
    pub fn new(specifier: PackageSpec) -> (r: UniversePack)
        ensures
            r.specifier == specifier,
    {
        UniversePack { specifier }
    }

    /// Whether the package lives in the one namespace that the registry serves.
    pub fn is_preview(&self) -> (r: bool)
        ensures
            r == (self.specifier.namespace@ == "preview"@),
    {
        same_text(self.specifier.namespace.as_str(), "preview")
    }

    /// The address of the package's archive. Only packages of the `preview` namespace have one.
    pub fn download_url(&self) -> (r: String)
        requires
            self.specifier.namespace@ == "preview"@,
        ensures
            r@ == download_url_of(self.specifier),
    {
        let mut url = String::new();
        url.append("https://packages.typst.org");
        url.append("/preview/");
        url.append(self.specifier.name.as_str());
        url.append("-");
        self.specifier.version.write_to(&mut url);
        url.append(".tar.gz");
        proof {
            assert(url@ =~= download_url_of(self.specifier));
        }
        url
    }

    /// The archive to fetch for this package: the same specifier, at the registry's address.
    pub fn archive(&self) -> (r: HttpPack)
        requires
            self.specifier.namespace@ == "preview"@,
        ensures
            r.specifier == self.specifier,
            r.url@ == download_url_of(self.specifier),
    {
        HttpPack::new(self.specifier.clone(), self.download_url())
    }
}

} // verus!
