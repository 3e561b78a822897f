//! Package identifiers: the full specifier, and the partial one that is filled in from several
//! weak sources.

use vstd::prelude::*;
use vstd::string::*;
use crate::version::PackageVersion;

verus! {

/// Identifies a package: the namespace it lives in, its name and its version.
#[derive(Debug)]
pub struct PackageSpec {
    pub namespace: String,
    pub name: String,
    pub version: PackageVersion,
}

/// A package identifier of which some parts may still be unknown.
#[derive(Clone, Debug)]
pub struct PartialPackageSpec {
    pub namespace: Option<String>,
    pub name: Option<String>,
    pub version: Option<String>,
}

/// What `typst_syntax` reads out of a specifier of the form `@namespace/name:version`:
/// namespace, name and the version's three components, or nothing where it rejects the text.
pub uninterp spec fn parsed_package_spec(s: Seq<char>) -> Option<
    (Seq<char>, Seq<char>, (u32, u32, u32)),
>;

/// `PackageSpec::from_str` of `typst_syntax`. The contract names the outcome and adds what the
/// parser's source shows of every specifier it accepts: namespace and name are not empty.
#[verifier::external_body]
fn parse_spec_parts(s: &str) -> (r: Option<(String, String, (u32, u32, u32))>)
    ensures
        match r {
            Some((namespace, name, version)) => parsed_package_spec(s@) == Some(
                (namespace@, name@, version),
            ) && namespace@.len() > 0 && name@.len() > 0,
            None => parsed_package_spec(s@) is None,
        },
{
    match s.parse::<typst_syntax::package::PackageSpec>() {
        Ok(p) => Some(
            (
                p.namespace.to_string(),
                p.name.to_string(),
                (p.version.major, p.version.minor, p.version.patch),
            ),
        ),
        Err(_) => None,
    }
}

/// The first of two optional values that is present.
pub open spec fn first_of<T>(a: Option<T>, b: Option<T>) -> Option<T> {
    if a is Some {
        a
    } else {
        b
    }
}

fn pick_first(a: Option<String>, b: Option<String>) -> (r: Option<String>)
    ensures
        r == first_of(a, b),
{
    match a {
        Some(x) => Some(x),
        None => b,
    }
}

impl PackageSpec {
    /// Namespace and name are not empty.
    pub open spec fn well_formed(self) -> bool {
        self.namespace@.len() > 0 && self.name@.len() > 0
    }

    /// The text form `@namespace/name:version`.
    pub open spec fn text(self) -> Seq<char> {
        "@"@ + self.namespace@ + "/"@ + self.name@ + ":"@ + self.version.text()
    }

    /// Whether `self` is what `parts` holds.
    pub open spec fn is_parts(self, parts: (Seq<char>, Seq<char>, (u32, u32, u32))) -> bool {
        self.namespace@ == parts.0 && self.name@ == parts.1 && self.version == (PackageVersion {
            major: parts.2.0,
            minor: parts.2.1,
            patch: parts.2.2,
        })
    }

    /// Reads a specifier of the form `@namespace/name:version`.
    pub fn parse(s: &str) -> (r: Option<PackageSpec>)
        ensures
            match r {
                Some(spec) => parsed_package_spec(s@) is Some && spec.is_parts(
                    parsed_package_spec(s@).unwrap(),
                ) && spec.well_formed(),
                None => parsed_package_spec(s@) is None,
            },
    {
        match parse_spec_parts(s) {
            Some((namespace, name, version)) => Some(
                PackageSpec {
                    namespace,
                    name,
                    version: PackageVersion {
                        major: version.0,
                        minor: version.1,
                        patch: version.2,
                    },
                },
            ),
            None => None,
        }
    }

    /// The text form `@namespace/name:version`.
    pub fn to_string(&self) -> (r: String)
        ensures
            r@ == self.text(),
    {
        let mut out = String::new();
        out.append("@");
        out.append(self.namespace.as_str());
        out.append("/");
        out.append(self.name.as_str());
        out.append(":");
        self.version.write_to(&mut out);
        proof {
            assert(out@ =~= self.text());
        }
        out
    }
}

impl Clone for PackageSpec {
    fn clone(&self) -> (r: Self)
        ensures
            r == *self,
    {
        PackageSpec {
            namespace: self.namespace.clone(),
            name: self.name.clone(),
            version: self.version,
        }
    }
}

impl Default for PartialPackageSpec {
    fn default() -> (r: Self)
        ensures
            r.namespace is None,
            r.name is None,
            r.version is None,
    {
        PartialPackageSpec { namespace: None, name: None, version: None }
    }
}

impl PartialPackageSpec {
    /// Whether nothing is missing.
    pub open spec fn complete(self) -> bool {
        self.namespace is Some && self.name is Some && self.version is Some
    }

    /// Fills what is still unknown from `other`; what is known stays.
    pub fn or(self, other: PartialPackageSpec) -> (r: PartialPackageSpec)
        ensures
            r.namespace == first_of(self.namespace, other.namespace),
            r.name == first_of(self.name, other.name),
            r.version == first_of(self.version, other.version),
    {
        PartialPackageSpec {
            namespace: pick_first(self.namespace, other.namespace),
            name: pick_first(self.name, other.name),
            version: pick_first(self.version, other.version),
        }
    }

    /// Sets the namespace unless one is known.
    pub fn with_namespace(self, namespace: Option<String>) -> (r: PartialPackageSpec)
        ensures
            r.namespace == first_of(self.namespace, namespace),
            r.name == self.name,
            r.version == self.version,
    {
        PartialPackageSpec {
            namespace: pick_first(self.namespace, namespace),
            name: self.name,
            version: self.version,
        }
    }

    /// Sets the name unless one is known.
    pub fn with_name(self, name: Option<String>) -> (r: PartialPackageSpec)
        ensures
            r.namespace == self.namespace,
            r.name == first_of(self.name, name),
            r.version == self.version,
    {
        PartialPackageSpec {
            namespace: self.namespace,
            name: pick_first(self.name, name),
            version: self.version,
        }
    }

    /// Sets the version unless one is known.
    pub fn with_version(self, version: Option<String>) -> (r: PartialPackageSpec)
        ensures
            r.namespace == self.namespace,
            r.name == self.name,
            r.version == first_of(self.version, version),
    {
        PartialPackageSpec {
            namespace: self.namespace,
            name: self.name,
            version: pick_first(self.version, version),
        }
    }
}

/// Filling in is first-wins: a part that is known is never replaced, whatever comes later.
pub proof fn lemma_or_keeps_known(a: PartialPackageSpec, b: PartialPackageSpec)
    ensures
        a.namespace is Some ==> first_of(a.namespace, b.namespace) == a.namespace,
        a.name is Some ==> first_of(a.name, b.name) == a.name,
        a.version is Some ==> first_of(a.version, b.version) == a.version,
{
}

/// Filling in from several sources one after the other is the same in whichever way the
/// sources are grouped.
pub proof fn lemma_first_of_associative<T>(a: Option<T>, b: Option<T>, c: Option<T>)
    ensures
        first_of(first_of(a, b), c) == first_of(a, first_of(b, c)),
{
}

} // verus!
