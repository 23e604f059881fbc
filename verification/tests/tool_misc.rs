use optee_sdk::cargo_optee::cli::{cli_debug_override, plan_component, std_mode, Component, Subcommand};
use optee_sdk::cargo_optee::common::{join_and_check, manifest_path, Arch, ToolError};
use optee_sdk::cargo_optee::config::{
    check_path_kind, resolve_path_relative_to_project, select_package, CaBuildConfig, ConfigError, PathType, TaBuildConfig,
};
use optee_sdk::text::{
    chars_of, contains_str, find_char, is_absolute, is_whitespace, path_join, str_eq, trim,
};

#[test]
fn path_helpers() {
    assert!(is_absolute("/a"));
    assert!(!is_absolute("a/b"));
    assert!(!is_absolute(""));
    assert_eq!(path_join("/tmp", "x"), "/tmp/x");
    assert_eq!(path_join("/tmp/", "x"), "/tmp/x");
    assert_eq!(path_join("/tmp", "/abs"), "/abs");
    assert_eq!(path_join("", "x"), "x");
    assert_eq!(manifest_path("/p"), "/p/Cargo.toml");
}

#[test]
fn string_helpers() {
    assert!(str_eq("abc", "abc"));
    assert!(!str_eq("abc", "abd"));
    assert_eq!(chars_of("hé"), vec!['h', 'é']);
    assert!(contains_str("-Z unstable-options", "unstable-options"));
    assert!(!contains_str("-C panic=abort", "unstable-options"));
    assert!(contains_str("x", ""));
    assert_eq!(find_char("KEY=VALUE=1", '='), Some(3));
    assert_eq!(find_char("KEY", '='), None);
}

#[test]
fn command_line_flags() {
    assert_eq!(std_mode(true, false), Some(true));
    assert_eq!(std_mode(false, true), Some(false));
    assert_eq!(std_mode(false, false), None);
    assert_eq!(std_mode(true, true), None);
    assert_eq!(cli_debug_override(true), Some(true));
    assert_eq!(cli_debug_override(false), None);
}

#[test]
fn component_plans() {
    let p = plan_component(Subcommand::Build, Component::Ta);
    assert!(!p.lint_only && !p.install && !p.plugin && p.need_signing_key);
    let p = plan_component(Subcommand::Clippy, Component::Ta);
    assert!(p.lint_only && !p.need_signing_key);
    let p = plan_component(Subcommand::Install, Component::Plugin);
    assert!(p.install && p.plugin && !p.need_signing_key);
    let p = plan_component(Subcommand::Build, Component::Ca);
    assert!(!p.plugin && !p.need_signing_key);
}

#[test]
fn join_and_check_reports_missing_paths() {
    assert_eq!(join_and_check("/", &["tmp"], "tmp dir").unwrap(), "/tmp");
    match join_and_check("/nonexistent", &["a", "b"], "thing") {
        Err(ToolError::DoesNotExist { context, path }) => {
            assert_eq!(context, "thing");
            assert_eq!(path, "/nonexistent/a/b");
        }
        _ => panic!("expected a missing path"),
    }
}

#[test]
fn relative_paths_resolve_against_the_project() {
    let dir = resolve_path_relative_to_project("tmp", "/", PathType::Directory, "dir").unwrap();
    assert_eq!(dir, "/tmp");
    match resolve_path_relative_to_project("/tmp", "/p", PathType::File, "key") {
        Err(ConfigError::NotAFile { context, path }) => {
            assert_eq!(context, "key");
            assert_eq!(path, "/tmp");
        }
        other => panic!("unexpected {:?}", other),
    }
    let err = resolve_path_relative_to_project("missing", "/nonexistent", PathType::Directory, "kit")
        .unwrap_err();
    assert_eq!(err.message(), "kit does not exist: \"/nonexistent/missing\"");
}

#[test]
fn config_summaries() {
    let ta = TaBuildConfig {
        arch: Arch::Arm,
        debug: true,
        path: "/p".to_string(),
        env: vec![("A".to_string(), "1".to_string())],
        no_default_features: false,
        features: None,
        std: false,
        ta_dev_kit_dir: "/kit".to_string(),
        signing_key: "/key.pem".to_string(),
    };
    assert_eq!(
        ta.print_config(),
        vec![
            "Building TA with:",
            "  Arch: Arm",
            "  Debug: true",
            "  Std: false",
            "  TA dev kit dir: \"/kit\"",
            "  Signing key: \"/key.pem\"",
            "  Environment variables: 1 set",
        ]
    );
    assert_eq!(ta.print_lint_config()[0], "Linting TA with:");
    let ca = CaBuildConfig {
        arch: Arch::Aarch64,
        debug: false,
        path: "/p".to_string(),
        env: Vec::new(),
        no_default_features: false,
        features: None,
        optee_client_export: "/export".to_string(),
        plugin: true,
    };
    assert_eq!(
        ca.print_config(),
        vec![
            "Building Plugin with:",
            "  Arch: Aarch64",
            "  Debug: false",
            "  OP-TEE client export: \"/export\"",
        ]
    );
    assert_eq!(ca.print_lint_config()[0], "Linting Plugin with:");
}

#[test]
fn package_selection() {
    let paths = vec!["/w/a/Cargo.toml".to_string(), "/w/b/Cargo.toml".to_string()];
    assert_eq!(select_package(Some(1), &paths, "/w/a/Cargo.toml"), Some(1));
    assert_eq!(select_package(None, &paths, "/w/b/Cargo.toml"), Some(1));
    assert_eq!(select_package(None, &paths, "Cargo.toml"), Some(0));
    assert_eq!(select_package(None, &paths, "/w/c/Cargo.toml"), None);
}

#[test]
fn trimming_matches_unicode_white_space() {
    assert_eq!(trim("  a b \t\n"), "a b");
    assert_eq!(trim("\u{3000}x\u{a0}"), "x");
    assert_eq!(trim(" \t "), "");
    assert_eq!(trim(""), "");
    for c in ['\t', '\n', '\u{b}', '\u{c}', '\r', ' ', '\u{85}', '\u{a0}', '\u{1680}', '\u{2000}', '\u{200a}', '\u{2028}', '\u{2029}', '\u{202f}', '\u{205f}', '\u{3000}'] {
        assert!(is_whitespace(c));
        assert_eq!(is_whitespace(c), c.is_whitespace());
    }
    for c in ['a', '\u{200b}', '\u{feff}', '_', '\u{0}'] {
        assert!(!is_whitespace(c));
        assert_eq!(is_whitespace(c), c.is_whitespace());
    }
    for s in [" x ", "\u{2000}\u{2001}y\u{202f}", "z"] {
        assert_eq!(trim(s), s.trim());
    }
}

#[test]
fn summary_quotes_paths_as_paths() {
    let ta = TaBuildConfig {
        arch: Arch::Aarch64,
        debug: false,
        path: "/p".to_string(),
        env: Vec::new(),
        no_default_features: false,
        features: None,
        std: false,
        ta_dev_kit_dir: "/k'it".to_string(),
        signing_key: String::new(),
    };
    let lines = ta.print_config();
    assert_eq!(lines.len(), 5);
    assert_eq!(lines[4], format!("  TA dev kit dir: {:?}", std::path::Path::new("/k'it")));
}

#[test]
fn path_checks_follow_the_disk_answers() {
    let r = check_path_kind("/x".to_string(), PathType::Directory, "kit", false, false);
    assert!(matches!(r, Err(ConfigError::PathDoesNotExist { .. })));
    let r = check_path_kind("/x".to_string(), PathType::Directory, "kit", true, false);
    assert!(matches!(r, Err(ConfigError::NotADirectory { .. })));
    let r = check_path_kind("/x".to_string(), PathType::File, "key", true, false);
    assert_eq!(r.unwrap_err().message(), "key is not a file: \"/x\"");
    assert_eq!(check_path_kind("/x".to_string(), PathType::File, "key", true, true).unwrap(), "/x");
}
