use typship::commands::{
    clean, clean_entry, clean_one, config_file, copy, dev_target, download, entrypoint_validator,
    exclude, generate, installs_to_preview, login, publish, registry_of, store_token, strip_at,
    valid_package_name, validate_homepage, validate_repository, CleanAction, CleanArgs, CleanPlan,
    CleanScan, CommandError, Commands, Config, CopyArgs, DownloadKind, ExcludeArgs, GenerateArgs,
    LoginArgs, LoginStep, PublishArgs, Registry,
};
use typship::git::UploadMethod;
use typship::kind::Endpoint;
use typship::paths::{config_dir, temp_dir, temp_subdir, to_hex, typst_cache_dir, typst_local_dir};
use typship::publish::{Action, ManifestInfo, Stage};
use typship::text::{
    find_char, parse_decimal, same_text, text_contains, text_ends_with, text_starts_with,
};
use typship::version::PackageVersion;

fn names(items: &[&str]) -> Vec<String> {
    items.iter().map(|s| s.to_string()).collect()
}

#[test]
fn only_the_universe_registry_is_supported() {
    assert_eq!(registry_of("universe"), Some(Registry::Universe));
    assert_eq!(registry_of("Universe"), None);
    assert_eq!(registry_of(""), None);
}

#[test]
fn login_asks_before_overwriting() {
    let mut config = Config::default();
    let args = LoginArgs { registry: "universe".to_string() };
    assert_eq!(login(&args, &config), Ok(LoginStep::AskToken));
    store_token(&mut config, "SECRET-REDACTED".to_string());
    assert_eq!(config.tokens.universe.as_deref(), Some("SECRET-REDACTED"));
    assert_eq!(login(&args, &config), Ok(LoginStep::ConfirmOverwrite));
    assert_eq!(
        login(&LoginArgs { registry: "npm".to_string() }, &config),
        Err(CommandError::UnsupportedRegistry)
    );
}

#[test]
fn publish_begins_with_the_registry() {
    let manifest = ManifestInfo {
        name: "foo".to_string(),
        version: PackageVersion::new(1, 0, 0),
        description: None,
        has_template: false,
    };
    let args = PublishArgs { registry: "universe".to_string(), dry_run: true, upload_method: UploadMethod::Api };
    let (publisher, action) = publish(manifest.clone(), &args).unwrap();
    assert!(publisher.dry_run);
    assert_eq!(publisher.stage, Stage::CheckRegistry);
    assert_eq!(publisher.manifest.name, "foo");
    assert!(matches!(action, Action::FetchPackages));
    let args = PublishArgs { registry: "crates".to_string(), dry_run: false, upload_method: UploadMethod::SparseCheckout };
    assert_eq!(publish(manifest, &args).unwrap_err(), CommandError::UnsupportedRegistry);
}

#[test]
fn clean_one_or_all() {
    assert!(matches!(clean(&CleanArgs { package: Some("foo".to_string()) }, true), Ok(CleanPlan::One(n)) if n == "foo"));
    assert!(matches!(clean(&CleanArgs { package: Some("foo".to_string()) }, false), Ok(CleanPlan::One(n)) if n == "foo"));
    assert!(matches!(clean(&CleanArgs { package: None }, true), Ok(CleanPlan::All)));
    assert!(matches!(clean(&CleanArgs { package: None }, false), Err(CommandError::NoPackages)));
    assert_eq!(clean_one(true, true), Ok(CleanScan::Scan));
    assert_eq!(clean_one(false, false), Ok(CleanScan::Skip));
    assert_eq!(clean_one(false, true), Err(CommandError::NotADirectory));
    assert_eq!(clean_entry(true, true), CleanAction::Remove);
    assert_eq!(clean_entry(true, false), CleanAction::Warn);
    assert_eq!(clean_entry(false, true), CleanAction::Keep);
    assert_eq!(clean_entry(false, false), CleanAction::Keep);
}

#[test]
fn dev_symlink_needs_a_free_place() {
    assert_eq!(dev_target(false, false), Ok(()));
    assert_eq!(dev_target(true, true), Err(CommandError::AlreadySymlink));
    assert_eq!(dev_target(true, false), Err(CommandError::AlreadySymlink));
    assert_eq!(dev_target(false, true), Err(CommandError::AlreadyExists));
}

#[test]
fn entrypoint_must_be_a_typ_file() {
    assert_eq!(entrypoint_validator("src/lib.typ"), Ok(()));
    assert_eq!(entrypoint_validator(".typ"), Ok(()));
    assert_eq!(entrypoint_validator("src/lib.typst"), Err(CommandError::InvalidEntrypoint));
    assert_eq!(entrypoint_validator("typ"), Err(CommandError::InvalidEntrypoint));
    assert_eq!(entrypoint_validator(""), Err(CommandError::InvalidEntrypoint));
}

#[test]
fn package_names() {
    for name in ["foo", "_foo", "-foo", "Foo-bar_2", "a"] {
        assert!(valid_package_name(name), "{name}");
    }
    for name in ["", "2foo", "foo bar", "foo.bar", "f\u{f6}\u{f6}", "foo\n"] {
        assert!(!valid_package_name(name), "{name:?}");
    }
}

#[test]
fn homepage_and_repository_addresses() {
    assert_eq!(validate_homepage(""), Ok(()));
    assert_eq!(validate_homepage("https://example.org"), Ok(()));
    assert_eq!(validate_homepage("http://example.org/x"), Ok(()));
    assert_eq!(validate_homepage("git://example.org/x"), Err(CommandError::InvalidUrlScheme));
    assert_eq!(validate_homepage("example.org"), Err(CommandError::InvalidUrl));
    assert_eq!(validate_repository(""), Ok(()));
    assert_eq!(validate_repository("git://example.org/x"), Ok(()));
    assert_eq!(validate_repository("https://example.org/x"), Ok(()));
    assert_eq!(validate_repository("ftp://example.org/x"), Err(CommandError::InvalidUrlScheme));
    assert_eq!(validate_repository("::"), Err(CommandError::InvalidUrl));
}

#[test]
fn install_targets() {
    assert_eq!(strip_at("@local"), Some("local".to_string()));
    assert_eq!(strip_at("@@local"), Some("@local".to_string()));
    assert_eq!(strip_at("@"), Some(String::new()));
    assert_eq!(strip_at("local"), None);
    assert_eq!(strip_at(""), None);
    assert!(installs_to_preview("preview"));
    assert!(!installs_to_preview("@preview"));
    assert!(!installs_to_preview("local"));
}

#[test]
fn generate_defaults() {
    assert_eq!(
        generate(&GenerateArgs { source: None, destination: None }),
        ("Myriad-Dreamin/packages".to_string(), "packages/preview".to_string())
    );
    assert_eq!(
        generate(&GenerateArgs { source: Some("me/packages".to_string()), destination: Some("p".to_string()) }),
        ("me/packages".to_string(), "p".to_string())
    );
}

#[test]
fn copy_endpoints() {
    let (src, dst, to_stdout) = copy(&CopyArgs { source: "-".to_string(), destination: "file:///out".to_string() });
    assert!(matches!(src, Endpoint::Stream));
    assert!(matches!(dst, Endpoint::Address(a) if a == "file:///out"));
    assert!(!to_stdout);
    let (src, dst, to_stdout) = copy(&CopyArgs { source: "git://h/r".to_string(), destination: "-".to_string() });
    assert!(matches!(src, Endpoint::Address(a) if a == "git://h/r"));
    assert!(matches!(dst, Endpoint::Stream));
    assert!(to_stdout);
}

#[test]
fn download_sources() {
    assert!(matches!(download("git@github.com:me/repo.git"), Ok(DownloadKind::Git)));
    match download("pkg:@preview/zebraw:0.4.4") {
        Ok(DownloadKind::Universe(spec)) => assert_eq!(spec.to_string(), "@preview/zebraw:0.4.4"),
        other => panic!("unexpected {other:?}"),
    }
    assert_eq!(download("pkg:zebraw").unwrap_err(), CommandError::InvalidSpec);
    assert_eq!(download("pkg:").unwrap_err(), CommandError::InvalidSpec);
    assert_eq!(download("https://github.com/me/repo").unwrap_err(), CommandError::UnknownSource);
    assert_eq!(download("").unwrap_err(), CommandError::UnknownSource);
}

#[test]
fn exclude_appends_and_drops_repeats_in_a_row() {
    let args = ExcludeArgs { files: names(&["b", "b", "c", "a"]) };
    assert_eq!(exclude(names(&["a", "a", "b"]), &args), names(&["a", "b", "c", "a"]));
    assert_eq!(exclude(Vec::new(), &ExcludeArgs { files: names(&["x"]) }), names(&["x"]));
    assert_eq!(exclude(names(&["x", "y", "x"]), &ExcludeArgs { files: Vec::new() }), names(&["x", "y", "x"]));
    assert!(exclude(Vec::new(), &ExcludeArgs { files: Vec::new() }).is_empty());
    assert_eq!(exclude(names(&["x", "x", "x"]), &ExcludeArgs { files: names(&["x"]) }), names(&["x"]));
}

#[test]
fn commands_hold_their_arguments() {
    let c = Commands::Login(LoginArgs { registry: "universe".to_string() });
    assert!(matches!(c, Commands::Login(a) if a.registry == "universe"));
}

#[test]
fn directories() {
    assert_eq!(config_dir("/home/me/.config"), "/home/me/.config/typship");
    assert_eq!(config_file("/home/me/.config/typship"), "/home/me/.config/typship/config.toml");
    assert_eq!(typst_local_dir("/home/me/.local/share"), "/home/me/.local/share/typst/packages");
    assert_eq!(typst_cache_dir("/home/me/.cache"), "/home/me/.cache/typst/packages");
    assert_eq!(temp_dir("/tmp"), "/tmp/typship");
}

#[test]
fn temp_subdir_is_named_by_the_digest() {
    assert_eq!(
        temp_subdir("/tmp", "abc"),
        "/tmp/typship/ba7816bf8f01cfea414140de5dae2223b00361a396177a9cb410ff61f20015ad"
    );
    assert_eq!(
        temp_subdir("/tmp", ""),
        "/tmp/typship/e3b0c44298fc1c149afbf4c8996fb92427ae41e4649b934ca495991b7852b855"
    );
}

#[test]
fn hexadecimal() {
    assert_eq!(to_hex(&vec![0x00, 0x0f, 0xa0, 0xff, 0x5c]), "000fa0ff5c");
    assert_eq!(to_hex(&Vec::new()), "");
}

#[test]
fn text_helpers() {
    assert_eq!(find_char("a:b:c", ':'), 1);
    assert_eq!(find_char("abc", ':'), 3);
    assert_eq!(find_char("", ':'), 0);
    assert_eq!(find_char("\u{e9}t\u{e9}:x", ':'), 3);
    assert!(same_text("a", "a"));
    assert!(!same_text("a", "A"));
    assert!(text_starts_with("git@host", "git@"));
    assert!(!text_starts_with("git", "git@"));
    assert!(text_starts_with("x", ""));
    assert!(text_ends_with("a.tar.gz", ".tar.gz"));
    assert!(!text_ends_with("gz", ".tar.gz"));
    assert!(text_contains("say nothing to commit now", "nothing to commit"));
    assert!(text_contains("abc", ""));
    assert!(text_contains("", ""));
    assert!(!text_contains("nothing to commi", "nothing to commit"));
    assert!(text_contains("aab", "ab"));
}

#[test]
fn decimal_numbers() {
    assert_eq!(parse_decimal("0"), Some(0));
    assert_eq!(parse_decimal("007"), Some(7));
    assert_eq!(parse_decimal("25"), Some(25));
    assert_eq!(parse_decimal("4294967295"), Some(u32::MAX));
    assert_eq!(parse_decimal("4294967296"), None);
    assert_eq!(parse_decimal("99999999999999999999999999"), None);
    assert_eq!(parse_decimal(""), None);
    assert_eq!(parse_decimal("+1"), None);
    assert_eq!(parse_decimal("-1"), None);
    assert_eq!(parse_decimal("1a"), None);
    assert_eq!(parse_decimal(" 1"), None);
    assert_eq!(parse_decimal("\u{663}"), None);
}
