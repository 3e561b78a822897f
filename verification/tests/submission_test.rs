use typship::submission::{PackageSubmission, SubmissionMessage, TitleError};
use typship::version::PackageVersion;

fn submission(name: &str, v: (u32, u32, u32)) -> PackageSubmission {
    PackageSubmission { name: name.to_string(), version: PackageVersion::new(v.0, v.1, v.2), msg: None }
}

#[test]
fn submission_names() {
    let s = submission("foo", (1, 0, 0));
    assert_eq!(s.title(), "foo:1.0.0");
    assert_eq!(s.branch_name(), "foo-1.0.0");
    assert_eq!(s.repo_path(), "packages/preview/foo/1.0.0");
}

#[test]
fn submission_names_with_large_numbers() {
    let s = submission("cetz-plot", (0, 12, 4294967295));
    assert_eq!(s.title(), "cetz-plot:0.12.4294967295");
    assert_eq!(s.branch_name(), "cetz-plot-0.12.4294967295");
    assert_eq!(s.repo_path(), "packages/preview/cetz-plot/0.12.4294967295");
}

#[test]
fn title_reads_back() {
    let s = PackageSubmission::try_from_title("foo:1.0.1").unwrap();
    assert_eq!(s.name, "foo");
    assert_eq!(s.version, PackageVersion::new(1, 0, 1));
    assert!(s.msg.is_none());
}

#[test]
fn title_round_trip() {
    let s = submission("zebraw", (0, 4, 4));
    let back = PackageSubmission::try_from_title(&s.title()).unwrap();
    assert_eq!(back.name, s.name);
    assert_eq!(back.version, s.version);
}

#[test]
fn title_with_empty_name_is_read() {
    let s = PackageSubmission::try_from_title(":1.0.0").unwrap();
    assert_eq!(s.name, "");
    assert_eq!(s.version, PackageVersion::new(1, 0, 0));
}

#[test]
fn title_without_colon_is_malformed() {
    assert_eq!(PackageSubmission::try_from_title("Update README").unwrap_err(), TitleError::InvalidFormat);
    assert_eq!(PackageSubmission::try_from_title("").unwrap_err(), TitleError::InvalidFormat);
}

#[test]
fn title_with_two_colons_is_malformed() {
    assert_eq!(PackageSubmission::try_from_title("foo:1.0.0:bar").unwrap_err(), TitleError::InvalidFormat);
    assert_eq!(PackageSubmission::try_from_title("a::1.0.0").unwrap_err(), TitleError::InvalidFormat);
}

#[test]
fn title_with_bad_version_is_rejected() {
    assert_eq!(PackageSubmission::try_from_title("foo:1.0").unwrap_err(), TitleError::InvalidVersion);
    assert_eq!(PackageSubmission::try_from_title("foo: 1.0.0").unwrap_err(), TitleError::InvalidVersion);
    assert_eq!(PackageSubmission::try_from_title("foo:").unwrap_err(), TitleError::InvalidVersion);
}

const CHECKLIST: &str = "I have read and followed the submission guidelines and, in particular, I\n- [x] selected a name that isn't the most obvious or canonical name for what the package does\n- [x] added a `typst.toml` file with all required keys\n- [x] added a `README.md` with documentation for my package\n- [x] have chosen a license and added a `LICENSE` file or linked one in my `README.md`\n- [x] tested my package locally on my system and it worked\n- [x] `exclude`d PDFs or README images, if any, but not the LICENSE\n";

const TEMPLATE: &str = "\n- [x] ensured that my package is licensed such that users can use and distribute the contents of its template directory without restriction, after modifying them through normal use.\n";

#[test]
fn message_for_a_new_package() {
    let m = SubmissionMessage { is_new_package: true, desc: "x".to_string() };
    let expected = format!(
        "I am submitting\n- [x] a new package\n- [ ] an update for a package\n\nDescription: x\n\n{}",
        CHECKLIST
    );
    assert_eq!(m.to_string(false), expected);
}

#[test]
fn message_for_an_update() {
    let m = SubmissionMessage { is_new_package: false, desc: "Fixes a bug.".to_string() };
    let expected = format!(
        "I am submitting\n- [ ] a new package\n- [x] an update for a package\n\nDescription: Fixes a bug.\n\n{}",
        CHECKLIST
    );
    assert_eq!(m.to_string(false), expected);
}

#[test]
fn message_with_template_line() {
    let m = SubmissionMessage { is_new_package: true, desc: "".to_string() };
    let expected = format!(
        "I am submitting\n- [x] a new package\n- [ ] an update for a package\n\nDescription: \n\n{}{}",
        CHECKLIST, TEMPLATE
    );
    assert_eq!(m.to_string(true), expected);
}
