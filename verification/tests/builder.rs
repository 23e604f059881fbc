use optee_sdk::cargo_optee::builder::{
    ca_artifact_kind, ca_post_build, CaPostBuild,
    ca_build_command, clean_command, clippy_ca, clippy_ta, fmt_command, intermediate_dir, join_with,
    linker_config, missing_tools, plugin_file_name, print_cargo_command, setup_build_command,
    setup_ca_cargo_command, sign_args, strip_args, ta_build_command,
    ta_file_name, ta_rustflags, toolchain_tools, TaCommandEnv,
};
use optee_sdk::cargo_optee::common::{Arch, CargoArtifactKind, CargoCommand, ToolError};
use optee_sdk::cargo_optee::config::{CaBuildConfig, TaBuildConfig};

fn ca_config() -> CaBuildConfig {
    CaBuildConfig {
        arch: Arch::Aarch64,
        debug: false,
        path: "/tmp/project".to_string(),
        env: vec![("CUSTOM".into(), "1".into())],
        no_default_features: true,
        features: Some("needed".into()),
        optee_client_export: "/tmp/client-export".to_string(),
        plugin: false,
    }
}

fn ta_config() -> TaBuildConfig {
    TaBuildConfig {
        arch: Arch::Aarch64,
        debug: false,
        path: "/tmp/project".to_string(),
        env: Vec::new(),
        no_default_features: false,
        features: None,
        std: false,
        ta_dev_kit_dir: "/tmp/ta-dev-kit".to_string(),
        signing_key: "/tmp/key.pem".to_string(),
    }
}

fn ta_env() -> TaCommandEnv {
    TaCommandEnv {
        rustflags: None,
        cross_compile: None,
        ta_dev_kit_dir: "/tmp/ta-dev-kit".to_string(),
        custom_target_dir: None,
        rust_src: None,
    }
}

fn env_value(cmd: &CargoCommand, key: &str) -> Option<String> {
    cmd.envs.iter().rev().find(|(k, _)| k == key).map(|(_, v)| v.clone())
}

#[test]
fn clippy_and_build_share_package_flags() {
    let config = ca_config();
    let clippy = setup_ca_cargo_command(&config, "clippy").unwrap();
    let build = setup_ca_cargo_command(&config, "build").unwrap();
    for cmd in [&clippy, &build] {
        let args = &cmd.args;
        assert!(args.contains(&"--features".to_string()));
        assert!(args.contains(&"needed".to_string()));
        assert!(args.contains(&"--no-default-features".to_string()));
        assert_eq!(env_value(cmd, "CUSTOM").as_deref(), Some("1"));
    }
}

#[test]
fn ta_commands_carry_cross_compile() {
    let config = ta_config();
    let build = setup_build_command(&config, "build", &ta_env()).unwrap();
    assert_eq!(build.current_dir, "/tmp/project");
    let args = &build.args;
    assert!(
        args.windows(2).any(|w| w[0] == "--manifest-path" && w[1] == "/tmp/project/Cargo.toml"),
        "expected --manifest-path /tmp/project/Cargo.toml, got {args:?}"
    );
    let value = env_value(&build, "CROSS_COMPILE").expect("CROSS_COMPILE not set on TA cargo invocation");
    assert_eq!(value, "aarch64-linux-gnu-");
}

#[test]
fn ca_package_args_in_order() {
    let cmd = setup_ca_cargo_command(&ca_config(), "build").unwrap();
    assert_eq!(
        cmd.args,
        vec![
            "build",
            "--manifest-path",
            "/tmp/project/Cargo.toml",
            "--target",
            "aarch64-unknown-linux-gnu",
            "--no-default-features",
            "--features",
            "needed",
        ]
    );
    assert_eq!(
        cmd.envs,
        vec![
            ("OPTEE_CLIENT_EXPORT".to_string(), "/tmp/client-export".to_string()),
            ("CUSTOM".to_string(), "1".to_string()),
        ]
    );
}

#[test]
fn ca_build_is_release_with_cross_linker() {
    let cmd = ca_build_command(&ca_config(), "aarch64-linux-gnu-").unwrap();
    let tail: Vec<&str> = cmd.args[8..].iter().map(|s| s.as_str()).collect();
    assert_eq!(
        tail,
        vec![
            "--release",
            "--config",
            "target.aarch64-unknown-linux-gnu.linker=\"aarch64-linux-gnu-gcc\"",
            "--message-format=json",
        ]
    );
    let mut debug = ca_config();
    debug.debug = true;
    let cmd = ca_build_command(&debug, "x-").unwrap();
    assert!(!cmd.args.contains(&"--release".to_string()));
}

#[test]
fn clippy_commands_deny_panics() {
    let ca = clippy_ca(&ca_config()).unwrap();
    let ta = clippy_ta(&ta_config(), &ta_env()).unwrap();
    for plan in [&ca, &ta] {
        assert_eq!(plan.fmt.args, vec!["fmt", "--manifest-path", "/tmp/project/Cargo.toml"]);
        assert_eq!(plan.fmt.current_dir, "/tmp/project");
        let cmd = &plan.clippy;
        assert_eq!(cmd.args[0], "clippy");
        let n = cmd.args.len();
        assert_eq!(cmd.args[n - 9..].join(" "), "-- -D warnings -D clippy::unwrap_used -D clippy::expect_used -D clippy::panic");
    }
}

#[test]
fn ta_build_arguments_and_environment() {
    let mut config = ta_config();
    config.features = Some(" a, ,b ".to_string());
    let mut env = ta_env();
    env.rustflags = Some("-g".to_string());
    env.cross_compile = Some("my-".to_string());
    let cmd = ta_build_command(&config, &env).unwrap();
    assert_eq!(
        cmd.args,
        vec![
            "build",
            "--manifest-path",
            "/tmp/project/Cargo.toml",
            "--target",
            "aarch64-unknown-linux-gnu",
            "--features",
            "a,b",
            "--release",
            "--config",
            "target.aarch64-unknown-linux-gnu.linker=\"my-gcc\"",
            "--message-format=json",
        ]
    );
    assert_eq!(env_value(&cmd, "RUSTFLAGS").as_deref(), Some("-g -C panic=abort"));
    assert_eq!(env_value(&cmd, "TA_DEV_KIT_DIR").as_deref(), Some("/tmp/ta-dev-kit"));
    assert_eq!(env_value(&cmd, "CROSS_COMPILE").as_deref(), Some("my-"));
}

#[test]
fn std_ta_build_needs_rust_source() {
    let mut config = ta_config();
    config.std = true;
    let mut env = ta_env();
    env.custom_target_dir = Some("/tmp/targets".to_string());
    assert!(matches!(setup_build_command(&config, "build", &env), Err(ToolError::RustSrcUnset)));
    env.rust_src = Some("/nonexistent/rust-src".to_string());
    match setup_build_command(&config, "build", &env) {
        Err(ToolError::DoesNotExist { context, path }) => {
            assert_eq!(context, "__CARGO_TESTS_ONLY_SRC_ROOT");
            assert_eq!(path, "/nonexistent/rust-src");
        }
        _ => panic!("expected a missing rust source error"),
    }
    env.rust_src = Some("/".to_string());
    let cmd = setup_build_command(&config, "build", &env).unwrap();
    assert_eq!(
        cmd.args,
        vec![
            "build",
            "--manifest-path",
            "/tmp/project/Cargo.toml",
            "-Z",
            "build-std=std,panic_abort",
            "-Z",
            "json-target-spec",
            "--target",
            "aarch64-unknown-optee",
            "--features",
            "std",
        ]
    );
    assert_eq!(env_value(&cmd, "RUST_TARGET_PATH").as_deref(), Some("/tmp/targets"));
    assert_eq!(env_value(&cmd, "__CARGO_TESTS_ONLY_SRC_ROOT").as_deref(), Some("/"));
    assert_eq!(
        env_value(&cmd, "RUSTFLAGS").as_deref(),
        Some("-C panic=abort -Z unstable-options")
    );
}

#[test]
fn rustflags_formula() {
    assert_eq!(ta_rustflags("", false), "-C panic=abort");
    assert_eq!(ta_rustflags("-g", false), "-g -C panic=abort");
    assert_eq!(ta_rustflags("", true), "-C panic=abort -Z unstable-options");
    assert_eq!(ta_rustflags("-Z unstable-options", true), "-Z unstable-options -C panic=abort");
}

#[test]
fn linker_setting_text() {
    assert_eq!(linker_config("arm-unknown-optee", "arm-linux-gnueabihf-"), "target.arm-unknown-optee.linker=\"arm-linux-gnueabihf-gcc\"");
}

#[test]
fn command_report_lines() {
    let cmd = setup_ca_cargo_command(&ca_config(), "build").unwrap();
    let lines = print_cargo_command(&cmd, "cargo", "Building CA");
    assert_eq!(
        lines,
        vec![
            "Building CA...".to_string(),
            "  Environment: OPTEE_CLIENT_EXPORT=/tmp/client-export CUSTOM=1".to_string(),
            "  Working directory: /tmp/project".to_string(),
            "  Command: cargo build --manifest-path /tmp/project/Cargo.toml --target aarch64-unknown-linux-gnu --no-default-features --features needed".to_string(),
        ]
    );
    let lines = print_cargo_command(&fmt_command("/p"), "cargo", "Formatting");
    assert_eq!(lines.len(), 3);
    assert_eq!(lines[2], "  Command: cargo fmt --manifest-path /p/Cargo.toml");
}

#[test]
fn clean_and_intermediate_paths() {
    let cmd = clean_command("/p");
    assert_eq!(cmd.args, vec!["clean", "--manifest-path", "/p/Cargo.toml"]);
    assert_eq!(cmd.current_dir, "/p");
    assert_eq!(intermediate_dir("/p"), "/p/target/cargo-optee");
}

#[test]
fn tool_names_and_file_names() {
    let (gcc, objcopy) = toolchain_tools("aarch64-linux-gnu-");
    assert_eq!(gcc, "aarch64-linux-gnu-gcc");
    assert_eq!(objcopy, "aarch64-linux-gnu-objcopy");
    assert_eq!(missing_tools("g", true, "o", false), vec!["o".to_string()]);
    assert_eq!(missing_tools("g", false, "o", false), vec!["g".to_string(), "o".to_string()]);
    assert!(missing_tools("g", true, "o", true).is_empty());
    assert_eq!(strip_args("in", "out"), vec!["--strip-unneeded", "in", "out"]);
    assert_eq!(
        sign_args("s.py", "u", "k", "i", "o"),
        vec!["s.py", "--uuid", "u", "--key", "k", "--in", "i", "--out", "o"]
    );
    assert_eq!(ta_file_name("abc"), "abc.ta");
    assert_eq!(plugin_file_name("abc"), "abc.plugin.so");
    assert_eq!(join_with(&vec!["a".to_string(), "b".to_string()], ", "), "a, b");
    assert_eq!(join_with(&Vec::new(), ", "), "");
}

#[test]
fn tool_cross_compile_follows_custom_environment() {
    let mut config = ta_config();
    config.env = vec![("CROSS_COMPILE".to_string(), "user-".to_string())];
    let cmd = ta_build_command(&config, &ta_env()).unwrap();
    assert_eq!(env_value(&cmd, "CROSS_COMPILE").as_deref(), Some("aarch64-linux-gnu-"));
    let clippy = clippy_ta(&config, &ta_env()).unwrap().clippy;
    assert_eq!(clippy.envs, cmd.envs);
    assert_eq!(clippy.args[1..5], cmd.args[1..5]);
}

#[test]
fn ca_and_plugin_artifacts() {
    let mut config = ca_config();
    assert_eq!(ca_artifact_kind(&config), CargoArtifactKind::Bin);
    assert_eq!(ca_post_build(&config), CaPostBuild::Strip);
    config.plugin = true;
    assert_eq!(ca_artifact_kind(&config), CargoArtifactKind::Cdylib);
    assert_eq!(ca_post_build(&config), CaPostBuild::CopyPlugin);
}
