//! A submission: the name and version put up for publication, the names derived from them, and
//! the body of the pull request.

use vstd::prelude::*;
use vstd::string::*;
use crate::text::{
    after_char, before_char, find_char, has_char, is_digit, lemma_no_char, lemma_split_at,
};
use crate::version::{lemma_text_chars, lemma_text_reads_back, PackageVersion};

verus! {

/// What the submitter states in the pull request.
#[derive(Clone, Debug)]
pub struct SubmissionMessage {
    /// Whether the package is not in the registry yet.
    pub is_new_package: bool,
    /// What the package does, or what changed.
    pub desc: String,
}

/// One attempt to publish: a package name, a version and, unless it was read back from a pull
/// request's title, the message.
#[derive(Clone, Debug)]
pub struct PackageSubmission {
    pub name: String,
    pub version: PackageVersion,
    pub msg: Option<SubmissionMessage>,
}

/// Why a title does not denote a submission.
#[derive(Clone, Copy, Debug, PartialEq, Eq, Structural)]
pub enum TitleError {
    /// The title is not a name and a version with one colon between them.
    InvalidFormat,
    /// What follows the colon is not a version.
    InvalidVersion,
}

/// The checkbox mark: ticked or blank.
pub open spec fn mark(ticked: bool) -> Seq<char> {
    if ticked {
        "x"@
    } else {
        " "@
    }
}

/// The line added for packages that ship a template.
pub open spec fn template_line() -> Seq<char> {
    "\n- [x] ensured that my package is licensed such that users can use and distribute the contents of its template directory without restriction, after modifying them through normal use.\n"@
}

/// The checklist that closes every message.
pub open spec fn checklist() -> Seq<char> {
    "\n\nI have read and followed the submission guidelines and, in particular, I\n- [x] selected a name that isn't the most obvious or canonical name for what the package does\n- [x] added a `typst.toml` file with all required keys\n- [x] added a `README.md` with documentation for my package\n- [x] have chosen a license and added a `LICENSE` file or linked one in my `README.md`\n- [x] tested my package locally on my system and it worked\n- [x] `exclude`d PDFs or README images, if any, but not the LICENSE\n"@
}

/// The title that stands for `name` at `version`.
pub open spec fn title_of(name: Seq<char>, version: PackageVersion) -> Seq<char> {
    name + ":"@ + version.text()
}

/// The branch that carries `name` at `version`.
pub open spec fn branch_of(name: Seq<char>, version: PackageVersion) -> Seq<char> {
    name + "-"@ + version.text()
}

/// The directory of `name` at `version` inside the registry's repository.
pub open spec fn repo_path_of(name: Seq<char>, version: PackageVersion) -> Seq<char> {
    "packages/preview/"@ + name + "/"@ + version.text()
}

/// Whether a title has the shape of a submission: exactly one colon.
pub open spec fn title_well_formed(title: Seq<char>) -> bool {
    has_char(title, ':') && !has_char(after_char(title, ':'), ':')
}

/// What a title denotes: the name before the colon and the version after it.
pub open spec fn title_parts(title: Seq<char>) -> Result<(Seq<char>, PackageVersion), TitleError> {
    if !title_well_formed(title) {
        Err(TitleError::InvalidFormat)
    } else {
        match PackageVersion::spec_parse(after_char(title, ':')) {
            Some(v) => Ok((before_char(title, ':'), v)),
            None => Err(TitleError::InvalidVersion),
        }
    }
}

/// The title that stands for `name` at `version`: `name:version`.
pub fn title_text(name: &str, version: &PackageVersion) -> (r: String)
    ensures
        r@ == title_of(name@, *version),
{
    let mut out = String::new();
    out.append(name);
    out.append(":");
    version.write_to(&mut out);
    proof {
        assert(out@ =~= title_of(name@, *version));
    }
    out
}

/// The branch that carries `name` at `version`: `name-version`.
pub fn branch_text(name: &str, version: &PackageVersion) -> (r: String)
    ensures
        r@ == branch_of(name@, *version),
{
    let mut out = String::new();
    out.append(name);
    out.append("-");
    version.write_to(&mut out);
    proof {
        assert(out@ =~= branch_of(name@, *version));
    }
    out
}

impl SubmissionMessage {
    /// The rendered body of the pull request.
    pub open spec fn body(self, has_template: bool) -> Seq<char> {
        "I am submitting\n- ["@ + mark(self.is_new_package) + "] a new package\n- ["@ + mark(
            !self.is_new_package,
        ) + "] an update for a package\n\nDescription: "@ + self.desc@ + checklist() + (
        if has_template {
            template_line()
        } else {
            Seq::empty()
        })
    }

    /// Renders the body of the pull request: the two checkboxes say whether the package is new,
    /// and the template line is there only for a package with a template.
    pub fn to_string(&self, has_template: bool) -> (r: String)
        ensures
            r@ == self.body(has_template),
    {
        let mut out = String::new();
        out.append("I am submitting\n- [");
        out.append(if self.is_new_package { "x" } else { " " });
        out.append("] a new package\n- [");
        out.append(if !self.is_new_package { "x" } else { " " });
        out.append("] an update for a package\n\nDescription: ");
        out.append(self.desc.as_str());
        out.append(
            "\n\nI have read and followed the submission guidelines and, in particular, I\n- [x] selected a name that isn't the most obvious or canonical name for what the package does\n- [x] added a `typst.toml` file with all required keys\n- [x] added a `README.md` with documentation for my package\n- [x] have chosen a license and added a `LICENSE` file or linked one in my `README.md`\n- [x] tested my package locally on my system and it worked\n- [x] `exclude`d PDFs or README images, if any, but not the LICENSE\n",
        );
        if has_template {
            out.append(
                "\n- [x] ensured that my package is licensed such that users can use and distribute the contents of its template directory without restriction, after modifying them through normal use.\n",
            );
        }
        proof {
            assert(out@ =~= self.body(has_template));
        }
        out
    }
}

impl PackageSubmission {
    /// The title of the pull request: `name:version`.
    pub fn title(&self) -> (r: String)
        ensures
            r@ == title_of(self.name@, self.version),
    {
        title_text(self.name.as_str(), &self.version)
    }

    /// The directory of this version inside the registry's repository:
    /// `packages/preview/name/version`.
    pub fn repo_path(&self) -> (r: String)
        ensures
            r@ == repo_path_of(self.name@, self.version),
    {
        let mut out = String::new();
        out.append("packages/preview/");
        out.append(self.name.as_str());
        out.append("/");
        self.version.write_to(&mut out);
        proof {
            assert(out@ =~= repo_path_of(self.name@, self.version));
        }
        out
    }

    /// The branch of the submission: `name-version`.
    pub fn branch_name(&self) -> (r: String)
        ensures
            r@ == branch_of(self.name@, self.version),
    {
        branch_text(self.name.as_str(), &self.version)
    }

    /// Reads a submission back from a pull request's title. The title must hold exactly one
    /// colon, and a version after it; the result carries no message.
    pub fn try_from_title(title: &str) -> (r: Result<PackageSubmission, TitleError>)
        ensures
            match r {
                Ok(s) => title_parts(title@) == Ok::<_, TitleError>((s.name@, s.version))
                    && s.msg is None,
                Err(e) => title_parts(title@) == Err::<(Seq<char>, PackageVersion), _>(e),
            },
    {
        let n: usize = title.unicode_len();
        let at: usize = find_char(title, ':');
        if at >= n {
            return Err(TitleError::InvalidFormat);
        }
        let rest = title.substring_char(at + 1, n);
        let m: usize = rest.unicode_len();
        let again: usize = find_char(rest, ':');
        if again < m {
            return Err(TitleError::InvalidFormat);
        }
        match PackageVersion::parse(rest) {
            Some(version) => {
                let name = title.substring_char(0, at).to_owned();
                Ok(PackageSubmission { name, version, msg: None })
            },
            None => Err(TitleError::InvalidVersion),
        }
    }
}

/// A title reads back as the submission it was written from: the title of `name` at `version`
/// denotes that name and that version, where the name holds no colon.
pub proof fn lemma_title_reads_back(name: Seq<char>, version: PackageVersion)
    requires
        forall|j: int| 0 <= j < name.len() ==> name[j] != ':',
    ensures
        title_parts(title_of(name, version)) == Ok::<(Seq<char>, PackageVersion), TitleError>(
            (name, version),
        ),
{
    reveal_strlit(":");
    assert(":"@ =~= seq![':']);
    let text = version.text();
    assert(title_of(name, version) =~= name + seq![':'] + text);
    lemma_split_at(name, ':', text);
    assert(!is_digit(':'));
    lemma_text_chars(version, ':');
    lemma_no_char(text, ':');
    lemma_text_reads_back(version);
}

} // verus!
