use optee_sdk::cargo_optee::common::{
    absolute_from_cwd, cargo_command_in, get_target_and_cross_compile,
    resolve_target_and_cross_compile_with, Arch, BuildMode,
};

#[test]
fn cross_compile_override_replaces_default() {
    let (_, cc) = resolve_target_and_cross_compile_with(
        Arch::Aarch64,
        BuildMode::TaNoStd,
        Some("custom-none-".into()),
    )
    .unwrap();
    assert_eq!(cc, "custom-none-");
}

#[test]
fn cross_compile_default_when_unset() {
    let (_, cc) =
        resolve_target_and_cross_compile_with(Arch::Aarch64, BuildMode::TaNoStd, None).unwrap();
    assert_eq!(cc, "aarch64-linux-gnu-");
}

#[test]
fn cargo_command_in_sets_child_cwd_only() {
    let cmd = cargo_command_in("/tmp/project");
    assert_eq!(cmd.current_dir, "/tmp/project");
    assert!(cmd.args.is_empty());
}

#[test]
fn absolute_from_cwd_keeps_absolute_paths() {
    let abs = "/tmp/dist";
    assert_eq!(absolute_from_cwd(abs, "/home/user"), abs);
}

#[test]
fn relative_target_dir_follows_cwd() {
    assert_eq!(absolute_from_cwd("dist", "/home/user"), "/home/user/dist");
    assert_eq!(absolute_from_cwd("dist", "/home/user/"), "/home/user/dist");
}

#[test]
fn every_target_is_configured() {
    assert_eq!(
        get_target_and_cross_compile(Arch::Arm, BuildMode::TaStd).unwrap(),
        ("arm-unknown-optee".to_string(), "arm-linux-gnueabihf-".to_string())
    );
    assert_eq!(
        get_target_and_cross_compile(Arch::Aarch64, BuildMode::Ca).unwrap(),
        ("aarch64-unknown-linux-gnu".to_string(), "aarch64-linux-gnu-".to_string())
    );
    assert_eq!(
        get_target_and_cross_compile(Arch::Aarch64, BuildMode::TaStd).unwrap().0,
        "aarch64-unknown-optee"
    );
}

#[test]
fn arch_names_ignore_case() {
    assert_eq!(Arch::parse("AArch64").unwrap(), Arch::Aarch64);
    assert_eq!(Arch::parse("ARM64").unwrap(), Arch::Aarch64);
    assert_eq!(Arch::parse("Arm32").unwrap(), Arch::Arm);
    assert_eq!(Arch::parse("x86").unwrap_err(), "Invalid architecture: x86");
}
