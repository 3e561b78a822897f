use std::io::Write;

use typship::error::{ErrorKind, PackError};
use typship::kind::{
    destination_sink, source_sink, endpoint, CopyError, Endpoint, KindError, KindRequest, PackKind, Sink,
};
use typship::package::{PackageSpec, PartialPackageSpec};
use typship::source::{
    pack_from_http_url, pack_from_local_url, pack_from_ssh_url, pack_from_universe_url, parse_url,
    resolve_url, Namespace, PackSource, SourceError, StorageDirs, UrlParts,
};
use typship::storage::{DirPack, PartialStoragePack};
use typship::version::PackageVersion;

fn dirs() -> StorageDirs {
    StorageDirs { data: "/data/typst/packages".to_string(), cache: "/cache/typst/packages".to_string() }
}

fn nothing() -> PartialPackageSpec {
    PartialPackageSpec::default()
}

fn known(ns: Option<&str>, name: Option<&str>, version: Option<&str>) -> PartialPackageSpec {
    PartialPackageSpec {
        namespace: ns.map(|s| s.to_string()),
        name: name.map(|s| s.to_string()),
        version: version.map(|s| s.to_string()),
    }
}

fn parts(scheme: &str, path: &str, text: &str) -> UrlParts {
    UrlParts { scheme: scheme.to_string(), path: path.to_string(), text: text.to_string() }
}

#[test]
fn git_scheme_is_a_detached_clone() {
    match parse_url("git://example.org/repo", nothing(), &dirs()).unwrap() {
        PackSource::GitClone { namespace, url } => {
            assert!(matches!(namespace, Namespace::Detached));
            assert_eq!(url, "git://example.org/repo");
        }
        other => panic!("unexpected {other:?}"),
    }
}

#[test]
fn file_scheme_is_a_directory() {
    match parse_url("file:///tmp/my%20pkg", nothing(), &dirs()).unwrap() {
        PackSource::Directory(dir) => assert_eq!(dir.path, "/tmp/my pkg"),
        other => panic!("unexpected {other:?}"),
    }
    assert_eq!(parse_url("file://remote.host/tmp/pkg", nothing(), &dirs()).unwrap_err(), SourceError::InvalidFileUrl);
}

#[test]
fn http_scheme_goes_by_extension() {
    match parse_url("https://example.org/a/pkg.tar", nothing(), &dirs()).unwrap() {
        PackSource::Tarball { url, gzipped } => {
            assert_eq!(url, "https://example.org/a/pkg.tar");
            assert!(!gzipped);
        }
        other => panic!("unexpected {other:?}"),
    }
    for address in ["http://example.org/pkg.tar.gz", "https://example.org/pkg.tgz?x=1"] {
        match parse_url(address, nothing(), &dirs()).unwrap() {
            PackSource::Tarball { url, gzipped } => {
                assert_eq!(url, address);
                assert!(gzipped);
            }
            other => panic!("unexpected {other:?}"),
        }
    }
    assert!(matches!(
        parse_url("https://github.com/hongjr03/typst-zebraw.git", nothing(), &dirs()).unwrap(),
        PackSource::GitClone { namespace: Namespace::Detached, .. }
    ));
    assert_eq!(
        parse_url("https://github.com/hongjr03/typst-zebraw", nothing(), &dirs()).unwrap_err(),
        SourceError::UnknownHttpKind
    );
    assert_eq!(parse_url("https://example.org/pkg.zip", nothing(), &dirs()).unwrap_err(), SourceError::UnknownHttpKind);
}

#[test]
fn ssh_scheme_must_end_in_git() {
    assert!(matches!(
        parse_url("ssh://git@github.com/me/repo.git", nothing(), &dirs()).unwrap(),
        PackSource::GitClone { .. }
    ));
    assert_eq!(parse_url("ssh://git@github.com/me/repo", nothing(), &dirs()).unwrap_err(), SourceError::UnknownSshKind);
}

#[test]
fn local_schemes_name_storage_directories() {
    match parse_url("data:@local/foo/1.0.0", nothing(), &dirs()).unwrap() {
        PackSource::Directory(dir) => assert_eq!(dir.path, "/data/typst/packages/local/foo/1.0.0"),
        other => panic!("unexpected {other:?}"),
    }
    match parse_url("cache:@preview/foo/0.1.0", nothing(), &dirs()).unwrap() {
        PackSource::Directory(dir) => assert_eq!(dir.path, "/cache/typst/packages/preview/foo/0.1.0"),
        other => panic!("unexpected {other:?}"),
    }
    match parse_url("data:@local", known(Some("ignored"), Some("foo"), Some("2.0.0")), &dirs()).unwrap() {
        PackSource::Directory(dir) => assert_eq!(dir.path, "/data/typst/packages/local/foo/2.0.0"),
        other => panic!("unexpected {other:?}"),
    }
    assert_eq!(parse_url("data:@local/foo", nothing(), &dirs()).unwrap_err(), SourceError::UnknownLocalPath);
    assert_eq!(parse_url("data:local/foo/1.0.0", nothing(), &dirs()).unwrap_err(), SourceError::UnknownLocalPath);
}

#[test]
fn local_url_parts_directly() {
    let r = pack_from_local_url(&parts("cache", "@a/b/c/d", "cache:@a/b/c/d"), nothing(), &dirs()).unwrap();
    match r {
        PackSource::Directory(dir) => assert_eq!(dir.path, "/cache/typst/packages/a/b/c/d"),
        other => panic!("unexpected {other:?}"),
    }
    assert_eq!(
        pack_from_local_url(&parts("ftp", "@a/b/c", "ftp:@a/b/c"), nothing(), &dirs()).unwrap_err(),
        SourceError::UnsupportedScheme
    );
}

#[test]
fn universe_scheme_names_a_registry_package() {
    match parse_url("universe:@preview/zebraw/0.4.4", nothing(), &dirs()).unwrap() {
        PackSource::Registry(pack) => {
            assert_eq!(pack.specifier.namespace, "preview");
            assert_eq!(pack.specifier.name, "zebraw");
            assert_eq!(pack.specifier.version, PackageVersion::new(0, 4, 4));
        }
        other => panic!("unexpected {other:?}"),
    }
    let u = |path: &str, k: PartialPackageSpec| pack_from_universe_url(&parts("universe", path, ""), &k);
    assert_eq!(u("", nothing()).unwrap_err(), SourceError::MissingNamespace);
    assert_eq!(u("@preview", nothing()).unwrap_err(), SourceError::MissingName);
    assert_eq!(u("@preview/foo", nothing()).unwrap_err(), SourceError::MissingVersion);
    assert_eq!(u("@preview/foo/one", nothing()).unwrap_err(), SourceError::InvalidVersion);
    assert_eq!(u("@preview/foo/1.0.0/x", nothing()).unwrap_err(), SourceError::InvalidVersion);
    match u("@preview", known(None, Some("foo"), Some("1.2.3"))).unwrap() {
        PackSource::Registry(pack) => assert_eq!(pack.specifier.to_string(), "@preview/foo:1.2.3"),
        other => panic!("unexpected {other:?}"),
    }
    match u("", known(Some("preview"), Some("foo"), Some("1.2.3"))).unwrap() {
        PackSource::Registry(pack) => assert_eq!(pack.specifier.to_string(), "@preview/foo:1.2.3"),
        other => panic!("unexpected {other:?}"),
    }
}

#[test]
fn unknown_scheme_and_bad_urls_are_rejected() {
    assert_eq!(parse_url("ftp://example.org/pkg.tar", nothing(), &dirs()).unwrap_err(), SourceError::UnsupportedScheme);
    assert_eq!(parse_url("not a url", nothing(), &dirs()).unwrap_err(), SourceError::InvalidUrl);
    assert_eq!(parse_url("", nothing(), &dirs()).unwrap_err(), SourceError::InvalidUrl);
}

#[test]
fn resolve_by_parts() {
    let r = resolve_url(&parts("file", "/x", "file:///x"), Some("/x".to_string()), nothing(), &dirs()).unwrap();
    assert!(matches!(r, PackSource::Directory(DirPack { path }) if path == "/x"));
    assert_eq!(
        resolve_url(&parts("file", "/x", "file:///x"), None, nothing(), &dirs()).unwrap_err(),
        SourceError::InvalidFileUrl
    );
    assert!(pack_from_http_url(&parts("https", "/a.tar", "https://h/a.tar")).is_ok());
    assert_eq!(pack_from_http_url(&parts("https", "/a.tar.xz", "")).unwrap_err(), SourceError::UnknownHttpKind);
    assert_eq!(pack_from_ssh_url(&parts("ssh", "/a", "")).unwrap_err(), SourceError::UnknownSshKind);
}

#[test]
fn storage_pack_is_ready_when_complete() {
    let spec = PackageSpec::parse("@preview/foo:1.0.0").unwrap();
    let ready = PartialStoragePack::new("/root".to_string())
        .with_namespace(Some("local".to_string()))
        .with_spec(Some(&spec))
        .ready()
        .unwrap();
    assert_eq!(ready.path, "/root/local/foo/1.0.0");

    let ready = PartialStoragePack::new("/root".to_string())
        .with_package(Some("bar".to_string()))
        .with_namespace(Some("ns".to_string()))
        .with_spec(Some(&spec))
        .with_version(Some("9.9.9".to_string()))
        .ready()
        .unwrap();
    assert_eq!(ready.path, "/root/ns/bar/1.0.0");

    assert!(PartialStoragePack::new("/root".to_string()).ready().is_none());
    assert!(PartialStoragePack::new("/root".to_string()).with_spec(Some(&spec)).ready().is_none());
    assert!(PartialStoragePack::new("/root".to_string())
        .with_namespace(Some("n".to_string()))
        .with_spec(None)
        .ready()
        .is_none());
    let partial = PartialPackageSpec {
        namespace: Some("a".to_string()),
        name: Some("b".to_string()),
        version: Some("c".to_string()),
    };
    assert_eq!(
        PartialStoragePack::new("r".to_string()).with_partial_spec(partial).ready().unwrap().path,
        "r/a/b/c"
    );
    assert_eq!(DirPack::new("x/y".to_string()).path, "x/y");
}

#[test]
fn short_forms() {
    let d = dirs();
    match PackKind::try_from("git:https://github.com/me/repo.git", &d).unwrap() {
        KindRequest::Ready(PackKind::Git { git }) => assert_eq!(git, "https://github.com/me/repo.git"),
        other => panic!("unexpected {other:?}"),
    }
    match PackKind::try_from("local:some/dir", &d).unwrap() {
        KindRequest::Ready(PackKind::Local { path }) => assert_eq!(path, "some/dir"),
        other => panic!("unexpected {other:?}"),
    }
    match PackKind::try_from("local:@@local/foo:1.0.0", &d).unwrap() {
        KindRequest::Ready(PackKind::Local { path }) => assert_eq!(path, "/data/typst/packages/local/foo/1.0.0"),
        other => panic!("unexpected {other:?}"),
    }
    match PackKind::try_from("local:data@@local/foo:1.0.0", &d).unwrap() {
        KindRequest::Ready(PackKind::Local { path }) => assert_eq!(path, "/data/typst/packages/local/foo/1.0.0"),
        other => panic!("unexpected {other:?}"),
    }
    match PackKind::try_from("local:cache@@preview/foo:1.0.0", &d).unwrap() {
        KindRequest::Ready(PackKind::Local { path }) => assert_eq!(path, "/cache/typst/packages/preview/foo/1.0.0"),
        other => panic!("unexpected {other:?}"),
    }
    match PackKind::try_from("universe:@preview/cetz-plot:0.1.2", &d).unwrap() {
        KindRequest::Ready(PackKind::Universe { spec }) => assert_eq!(spec.to_string(), "@preview/cetz-plot:0.1.2"),
        other => panic!("unexpected {other:?}"),
    }
    match PackKind::try_from("npm:@preview/x:0.1.2", &d).unwrap() {
        KindRequest::Ready(PackKind::Npm { spec }) => assert_eq!(spec.name, "x"),
        other => panic!("unexpected {other:?}"),
    }
    assert!(matches!(
        PackKind::try_from("tar.local:a/b.tar", &d).unwrap(),
        KindRequest::ReadFile { path, gzipped: false } if path == "a/b.tar"
    ));
    assert!(matches!(
        PackKind::try_from("tar.gz.local:a:b.tgz", &d).unwrap(),
        KindRequest::ReadFile { path, gzipped: true } if path == "a:b.tgz"
    ));
    assert!(matches!(
        PackKind::try_from("tar.remote:https://h/a.tar", &d).unwrap(),
        KindRequest::Download { url, gzipped: false } if url == "https://h/a.tar"
    ));
    assert!(matches!(
        PackKind::try_from("tar.gz.remote:https://h/a.tgz", &d).unwrap(),
        KindRequest::Download { url, gzipped: true } if url == "https://h/a.tgz"
    ));
}

#[test]
fn short_form_errors() {
    let d = dirs();
    assert_eq!(PackKind::try_from("no kind here", &d).unwrap_err(), KindError::NoKind);
    assert_eq!(PackKind::try_from("git:not a url", &d).unwrap_err(), KindError::InvalidGitUrl);
    assert_eq!(PackKind::try_from("local:data@local/foo:1.0.0", &d).unwrap_err(), KindError::InvalidSpec);
    assert_eq!(PackKind::try_from("local:temp@@local/foo:1.0.0", &d).unwrap_err(), KindError::UnsupportedDirKind);
    assert_eq!(PackKind::try_from("universe:cetz", &d).unwrap_err(), KindError::InvalidSpec);
    assert_eq!(PackKind::try_from("npm:cetz", &d).unwrap_err(), KindError::InvalidSpec);
    assert_eq!(PackKind::try_from("tar.remote:nowhere", &d).unwrap_err(), KindError::InvalidTarballUrl);
    assert_eq!(PackKind::try_from("tar.gz.remote:", &d).unwrap_err(), KindError::InvalidTarballUrl);
    assert_eq!(PackKind::try_from("zip:file.zip", &d).unwrap_err(), KindError::UnsupportedKind);
    assert_eq!(PackKind::try_from(":x", &d).unwrap_err(), KindError::UnsupportedKind);
}

#[test]
fn tar_stream_from_bytes() {
    let mut encoder = flate2::write::GzEncoder::new(Vec::new(), flate2::Compression::default());
    encoder.write_all(b"plain").unwrap();
    let packed = encoder.finish().unwrap();
    assert!(matches!(PackKind::from_tarball(packed, true).unwrap(), PackKind::TarStream { data } if data == b"plain"));
    assert!(matches!(PackKind::from_tarball(b"raw".to_vec(), false).unwrap(), PackKind::TarStream { data } if data == b"raw"));
    assert!(PackKind::from_tarball(b"raw".to_vec(), true).is_err());
}

#[test]
fn copy_destinations() {
    let spec = PackageSpec::parse("@preview/x:0.1.2").unwrap();
    assert_eq!(
        destination_sink(&PackKind::Git { git: "g".to_string() }, false).unwrap_err(),
        CopyError::GitDestination
    );
    assert_eq!(
        destination_sink(&PackKind::Universe { spec: spec.clone() }, true).unwrap_err(),
        CopyError::UniverseDestination
    );
    assert_eq!(destination_sink(&PackKind::Npm { spec }, false).unwrap_err(), CopyError::NpmDestination);
    assert_eq!(
        destination_sink(&PackKind::TarStream { data: Vec::new() }, false).unwrap_err(),
        CopyError::TarDestination
    );
    assert!(matches!(destination_sink(&PackKind::TarStream { data: Vec::new() }, true).unwrap(), Sink::Stdout));
    assert!(matches!(
        destination_sink(&PackKind::Local { path: "out".to_string() }, false).unwrap(),
        Sink::Directory(p) if p == "out"
    ));
}

#[test]
fn endpoints() {
    assert!(matches!(endpoint("-"), Endpoint::Stream));
    assert!(matches!(endpoint("--"), Endpoint::Address(a) if a == "--"));
    assert!(matches!(endpoint(""), Endpoint::Address(a) if a.is_empty()));
}

#[test]
fn source_errors_are_configuration_errors() {
    assert_eq!(SourceError::UnsupportedScheme.kind(), ErrorKind::ConfigurationError);
    assert_eq!(SourceError::UnsupportedScheme.message(), "Unsupported URL scheme");
    assert_eq!(SourceError::InvalidUrl.message(), "Invalid URL");
    assert_eq!(SourceError::UnknownHttpKind.message(), "Cannot infer pack type from URL");
    assert_eq!(SourceError::MissingVersion.message(), "Missing version, cannot infer from given URLs");
    assert!(matches!(
        SourceError::UnknownSshKind.into_pack_error(),
        PackError::Other(Some(m)) if m == "Cannot infer pack type from SSH URL"
    ));
}

#[test]
fn universe_address_needs_a_namespace_and_a_name() {
    let u = |path: &str, k: PartialPackageSpec| pack_from_universe_url(&parts("universe", path, ""), &k);
    assert_eq!(u("@/foo/1.0.0", nothing()).unwrap_err(), SourceError::MissingNamespace);
    assert_eq!(u("@/foo/1.0.0", known(Some("preview"), None, None)).unwrap_err(), SourceError::MissingNamespace);
    assert_eq!(u("@preview//1.0.0", nothing()).unwrap_err(), SourceError::MissingName);
    assert_eq!(u("", known(Some(""), Some("foo"), Some("1.0.0"))).unwrap_err(), SourceError::MissingNamespace);
    assert_eq!(u("@preview", known(None, Some(""), Some("1.0.0"))).unwrap_err(), SourceError::MissingName);
    assert_eq!(u("@preview/foo/", nothing()).unwrap_err(), SourceError::InvalidVersion);
}

#[test]
fn only_a_directory_can_be_copied_into() {
    let d = dirs();
    let sink = |address: &str| source_sink(&parse_url(address, nothing(), &d).unwrap());
    assert!(matches!(sink("data:@local/foo/1.0.0"), Ok(Sink::Directory(p)) if p == "/data/typst/packages/local/foo/1.0.0"));
    assert_eq!(sink("git://example.org/repo").unwrap_err(), CopyError::GitDestination);
    assert_eq!(sink("https://example.org/a.tar.gz").unwrap_err(), CopyError::TarDestination);
    assert_eq!(sink("universe:@preview/foo/1.0.0").unwrap_err(), CopyError::UniverseDestination);
}
