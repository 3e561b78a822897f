//! Package versions: three ordered components, their text form and their order.

use vstd::prelude::*;
use vstd::string::*;
use crate::text::{
    after_char, before_char, decimal, decimal_number, has_char, is_digit,
    lemma_decimal_denotes, lemma_no_char, lemma_split_at, push_decimal,
};

verus! {

/// A package's version: major, minor and patch component.
#[derive(Clone, Copy, Debug, PartialEq, Eq, Structural)]
pub struct PackageVersion {
    pub major: u32,
    pub minor: u32,
    pub patch: u32,
}

/// How one version stands to another.
#[derive(Clone, Copy, Debug, PartialEq, Eq, Structural)]
pub enum VersionOrder {
    Older,
    Same,
    Newer,
}

/// The number that std reads from a text as an unsigned number of 32 bits: an optional `+`,
/// then one decimal digit or more, the value within range.
pub open spec fn std_u32(s: Seq<char>) -> Option<u32> {
    if s.len() > 0 && s[0] == '+' {
        decimal_number(s.subrange(1, s.len() as int))
    } else {
        decimal_number(s)
    }
}

/// The components that a version text denotes: exactly three parts between dots, each of
/// them a number.
pub open spec fn version_parts(s: Seq<char>) -> Option<(u32, u32, u32)> {
    if !has_char(s, '.') {
        None
    } else {
        let rest = after_char(s, '.');
        if !has_char(rest, '.') {
            None
        } else {
            let last = after_char(rest, '.');
            if has_char(last, '.') {
                None
            } else {
                match (std_u32(before_char(s, '.')), std_u32(before_char(rest, '.')), std_u32(last)) {
                    (Some(major), Some(minor), Some(patch)) => Some((major, minor, patch)),
                    _ => None,
                }
            }
        }
    }
}

/// `PackageVersion::from_str` of `typst_syntax`. It splits the text at the dots, takes three
/// parts that are not empty, reads each with `str::parse::<u32>` of std, and refuses a fourth
/// part; the contract states that outcome.
#[verifier::external_body]
fn parse_version_parts(s: &str) -> (r: Option<(u32, u32, u32)>)
    ensures
        r == version_parts(s@),
{
    match s.parse::<typst_syntax::package::PackageVersion>() {
        Ok(v) => Some((v.major, v.minor, v.patch)),
        Err(_) => None,
    }
}

impl PackageVersion {
    /// The text form `major.minor.patch`, each component in decimal.
    pub open spec fn text(self) -> Seq<char> {
        decimal(self.major as nat) + seq!['.'] + decimal(self.minor as nat) + seq!['.'] + decimal(
            self.patch as nat,
        )
    }

    /// Strictly before `other`: compared by major, then minor, then patch.
    pub open spec fn precedes(self, other: PackageVersion) -> bool {
        self.major < other.major || (self.major == other.major && (self.minor < other.minor || (
        self.minor == other.minor && self.patch < other.patch)))
    }

    /// The order of `self` relative to `other`.
    pub open spec fn order(self, other: PackageVersion) -> VersionOrder {
        if self.precedes(other) {
            VersionOrder::Older
        } else if self == other {
            VersionOrder::Same
        } else {
            VersionOrder::Newer
        }
    }

    /// The version that a text denotes, if it denotes one.
    pub open spec fn spec_parse(s: Seq<char>) -> Option<PackageVersion> {
        match version_parts(s) {
            Some((major, minor, patch)) => Some(PackageVersion { major, minor, patch }),
            None => None,
        }
    }

    pub fn new(major: u32, minor: u32, patch: u32) -> (v: PackageVersion)
        ensures
            v == (PackageVersion { major, minor, patch }),
    {
        PackageVersion { major, minor, patch }
    }

    /// Reads a version from its text form.
    pub fn parse(s: &str) -> (r: Option<PackageVersion>)
        ensures
            r == Self::spec_parse(s@),
    {
        match parse_version_parts(s) {
            Some((major, minor, patch)) => Some(PackageVersion { major, minor, patch }),
            None => None,
        }
    }

    /// Compares two versions component by component.
    pub fn compare(&self, other: &PackageVersion) -> (r: VersionOrder)
        ensures
            r == self.order(*other),
    {
        if self.major < other.major {
            VersionOrder::Older
        } else if self.major > other.major {
            VersionOrder::Newer
        } else if self.minor < other.minor {
            VersionOrder::Older
        } else if self.minor > other.minor {
            VersionOrder::Newer
        } else if self.patch < other.patch {
            VersionOrder::Older
        } else if self.patch > other.patch {
            VersionOrder::Newer
        } else {
            VersionOrder::Same
        }
    }

    /// Appends the text form to `out`.
    pub fn write_to(&self, out: &mut String)
        ensures
            final(out)@ == old(out)@ + self.text(),
    {
        push_decimal(out, self.major);
        out.append(".");
        push_decimal(out, self.minor);
        out.append(".");
        push_decimal(out, self.patch);
        proof {
            reveal_strlit(".");
            assert("."@ =~= seq!['.']);
            let a = old(out)@;
            assert(final(out)@ =~= a + self.text());
        }
    }

    /// The text form `major.minor.patch`.
    pub fn to_string(&self) -> (r: String)
        ensures
            r@ == self.text(),
    {
        let mut out = String::new();
        self.write_to(&mut out);
        proof {
            assert(Seq::<char>::empty() + self.text() =~= self.text());
        }
        out
    }
}

/// No version precedes itself.
pub proof fn lemma_order_irreflexive(a: PackageVersion)
    ensures
        !a.precedes(a),
        a.order(a) == VersionOrder::Same,
{
}

/// The order is transitive.
pub proof fn lemma_order_transitive(a: PackageVersion, b: PackageVersion, c: PackageVersion)
    requires
        a.precedes(b),
        b.precedes(c),
    ensures
        a.precedes(c),
{
}

/// Of two versions exactly one holds: the first precedes, they are equal, or the second precedes.
pub proof fn lemma_order_total(a: PackageVersion, b: PackageVersion)
    ensures
        a.precedes(b) || a == b || b.precedes(a),
        !(a.precedes(b) && a == b),
        !(a.precedes(b) && b.precedes(a)),
        !(a == b && b.precedes(a)),
{
}

/// Swapping the two sides mirrors the outcome.
pub proof fn lemma_order_mirror(a: PackageVersion, b: PackageVersion)
    ensures
        a.order(b) == VersionOrder::Older <==> b.order(a) == VersionOrder::Newer,
        a.order(b) == VersionOrder::Same <==> b.order(a) == VersionOrder::Same,
        a.order(b) == VersionOrder::Newer <==> b.order(a) == VersionOrder::Older,
{
}

/// In the text form of a version only digits and dots occur.
pub proof fn lemma_text_chars(v: PackageVersion, c: char)
    requires
        !is_digit(c),
        c != '.',
    ensures
        forall|j: int| 0 <= j < v.text().len() ==> v.text()[j] != c,
{
    lemma_decimal_denotes(v.major as nat);
    lemma_decimal_denotes(v.minor as nat);
    lemma_decimal_denotes(v.patch as nat);
    let a = decimal(v.major as nat);
    let b = decimal(v.minor as nat);
    let d = decimal(v.patch as nat);
    assert forall|j: int| 0 <= j < v.text().len() implies v.text()[j] != c by {
        let t = v.text();
        if j < a.len() {
            assert(t[j] == a[j]);
        } else if j == a.len() {
            assert(t[j] == '.');
        } else if j < a.len() + 1 + b.len() {
            assert(t[j] == b[j - a.len() - 1]);
        } else if j == a.len() + 1 + b.len() {
            assert(t[j] == '.');
        } else {
            assert(t[j] == d[j - a.len() - 1 - b.len() - 1]);
        }
    }
}

/// The text form of a version reads back as that version.
pub proof fn lemma_text_reads_back(v: PackageVersion)
    ensures
        PackageVersion::spec_parse(v.text()) == Some(v),
{
    lemma_decimal_denotes(v.major as nat);
    lemma_decimal_denotes(v.minor as nat);
    lemma_decimal_denotes(v.patch as nat);
    let a = decimal(v.major as nat);
    let b = decimal(v.minor as nat);
    let d = decimal(v.patch as nat);
    let rest = b + seq!['.'] + d;
    assert(v.text() =~= a + seq!['.'] + rest);
    assert forall|j: int| 0 <= j < a.len() implies a[j] != '.' by {
        assert(is_digit(a[j]));
    }
    assert forall|j: int| 0 <= j < b.len() implies b[j] != '.' by {
        assert(is_digit(b[j]));
    }
    assert forall|j: int| 0 <= j < d.len() implies d[j] != '.' by {
        assert(is_digit(d[j]));
    }
    lemma_split_at(a, '.', rest);
    lemma_split_at(b, '.', d);
    lemma_no_char(d, '.');
    assert(is_digit(a[0]) && is_digit(b[0]) && is_digit(d[0]));
    assert(std_u32(a) == Some(v.major));
    assert(std_u32(b) == Some(v.minor));
    assert(std_u32(d) == Some(v.patch));
    assert(version_parts(v.text()) == Some((v.major, v.minor, v.patch)));
}

} // verus!
