//! Packs on disk: a directory, and the storage location that is filled in step by step until
//! it names one.

use vstd::prelude::*;
use vstd::string::*;
use crate::package::{first_of, PackageSpec, PartialPackageSpec};

verus! {

/// A package in a directory.
#[derive(Clone, Debug)]
pub struct DirPack {
    /// The path storing the package.
    pub path: String,
}

/// A place in local or cache storage of which namespace, name and version may still be unknown.
#[derive(Clone, Debug)]
pub struct PartialStoragePack {
    pub storage_root: String,
    pub spec: PartialPackageSpec,
}

/// The directory of a package version below a storage root:
/// `root/namespace/name/version`.
pub open spec fn storage_path(
    root: Seq<char>,
    namespace: Seq<char>,
    name: Seq<char>,
    version: Seq<char>,
) -> Seq<char> {
    root + "/"@ + namespace + "/"@ + name + "/"@ + version
}

/// The text of an optional string.
pub open spec fn text_of(s: Option<String>) -> Option<Seq<char>> {
    match s {
        Some(t) => Some(t@),
        None => None,
    }
}

impl DirPack {
    /// Creates a new `DirPack` instance.
    pub fn new(path: String) -> (r: DirPack)
        ensures
            r.path == path,
    {
        DirPack { path }
    }
}

impl PartialStoragePack {
    /// Creates a new `PartialStoragePack` instance, of which only the root is known.
    pub fn new(storage_root: String) -> (r: PartialStoragePack)
        ensures
            r.storage_root == storage_root,
            r.spec.namespace is None,
            r.spec.name is None,
            r.spec.version is None,
    {
        PartialStoragePack { storage_root, spec: PartialPackageSpec::default() }
    }

    /// Sets the namespace unless one is known.
    pub fn with_namespace(self, namespace: Option<String>) -> (r: PartialStoragePack)
        ensures
            r.storage_root == self.storage_root,
            r.spec.namespace == first_of(self.spec.namespace, namespace),
            r.spec.name == self.spec.name,
            r.spec.version == self.spec.version,
    {
        PartialStoragePack {
            storage_root: self.storage_root,
            spec: self.spec.with_namespace(namespace),
        }
    }

    /// Sets the package name unless one is known.
    pub fn with_package(self, package: Option<String>) -> (r: PartialStoragePack)
        ensures
            r.storage_root == self.storage_root,
            r.spec.namespace == self.spec.namespace,
            r.spec.name == first_of(self.spec.name, package),
            r.spec.version == self.spec.version,
    {
        PartialStoragePack { storage_root: self.storage_root, spec: self.spec.with_name(package) }
    }

    /// Sets the version unless one is known.
    pub fn with_version(self, version: Option<String>) -> (r: PartialStoragePack)
        ensures
            r.storage_root == self.storage_root,
            r.spec.namespace == self.spec.namespace,
            r.spec.name == self.spec.name,
            r.spec.version == first_of(self.spec.version, version),
    {
        PartialStoragePack { storage_root: self.storage_root, spec: self.spec.with_version(version) }
    }

    /// Fills what is still unknown from `spec`.
    pub fn with_partial_spec(self, spec: PartialPackageSpec) -> (r: PartialStoragePack)
        ensures
            r.storage_root == self.storage_root,
            r.spec.namespace == first_of(self.spec.namespace, spec.namespace),
            r.spec.name == first_of(self.spec.name, spec.name),
            r.spec.version == first_of(self.spec.version, spec.version),
    {
        PartialStoragePack { storage_root: self.storage_root, spec: self.spec.or(spec) }
    }

    /// Fills name and version from a full specifier, where they are still unknown. The
    /// specifier's namespace is not taken over.
    pub fn with_spec(self, spec: Option<&PackageSpec>) -> (r: PartialStoragePack)
        ensures
            r.storage_root == self.storage_root,
            r.spec.namespace == self.spec.namespace,
            match spec {
                Some(s) => {
                    &&& text_of(r.spec.name) == Some(
                        match self.spec.name {
                            Some(n) => n@,
                            None => s.name@,
                        },
                    )
                    &&& text_of(r.spec.version) == Some(
                        match self.spec.version {
                            Some(v) => v@,
                            None => s.version.text(),
                        },
                    )
                },
                None => r.spec.name == self.spec.name && r.spec.version == self.spec.version,
            },
    {
        match spec {
            Some(s) => {
                let name = s.name.clone();
                let version = s.version.to_string();
                self.with_package(Some(name)).with_version(Some(version))
            },
            None => self.with_package(None).with_version(None),
        }
    }

    /// The directory that the location names: `root/namespace/name/version`. There is one
    /// exactly when namespace, name and version are all known.
    pub fn ready(self) -> (r: Option<DirPack>)
        ensures
            r is Some == self.spec.complete(),
            r matches Some(dir) ==> dir.path@ == storage_path(
                self.storage_root@,
                self.spec.namespace.unwrap()@,
                self.spec.name.unwrap()@,
                self.spec.version.unwrap()@,
            ),
    {
        let mut path = self.storage_root;
        let ghost root = path@;
        match (self.spec.namespace, self.spec.name, self.spec.version) {
            (Some(namespace), Some(name), Some(version)) => {
                path.append("/");
                path.append(namespace.as_str());
                path.append("/");
                path.append(name.as_str());
                path.append("/");
                path.append(version.as_str());
                proof {
                    assert(path@ =~= storage_path(root, namespace@, name@, version@));
                }
                Some(DirPack::new(path))
            },
            _ => None,
        }
    }
}

} // verus!
