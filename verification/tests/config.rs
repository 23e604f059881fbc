use optee_sdk::cargo_optee::common::Arch;
use optee_sdk::cargo_optee::config::{
    extract_build_config, metadata_bool, optee_client_export_error, ta_dev_kit_dir_error,
    BuildOverrides, CaBuildConfig, ComponentType, ConfigEnv, ConfigError, JsonValue,
    MetadataConfig, TaBuildConfig,
};

fn object(entries: Vec<(&str, JsonValue)>) -> JsonValue {
    JsonValue::Object(entries.into_iter().map(|(k, v)| (k.to_string(), v)).collect())
}

fn ta_meta(ta: JsonValue) -> JsonValue {
    object(vec![("optee", object(vec![("ta", ta)]))])
}

fn text(s: &str) -> JsonValue {
    JsonValue::String(s.to_string())
}

fn no_overrides() -> BuildOverrides {
    BuildOverrides { arch: None, debug: None, env: Vec::new(), no_default_features: false, features: None }
}

fn no_env() -> ConfigEnv {
    ConfigEnv { ta_dev_kit_dir: None, ta_sign_key: None, optee_client_export: None }
}

#[test]
fn debug_and_std_default_false() {
    let cfg = extract_build_config(&ta_meta(object(vec![])), ComponentType::Ta, None)
        .unwrap()
        .unwrap();
    assert!(!cfg.debug);
    assert!(!cfg.std);
}

#[test]
fn debug_true_is_honored() {
    let cfg = extract_build_config(
        &ta_meta(object(vec![("debug", JsonValue::Bool(true))])),
        ComponentType::Ta,
        None,
    )
    .unwrap()
    .unwrap();
    assert!(cfg.debug);
    assert!(!cfg.std);
}

#[test]
fn debug_rejects_non_bool() {
    let err = extract_build_config(&ta_meta(object(vec![("debug", text("true"))])), ComponentType::Ta, None)
        .unwrap_err();
    assert!(err.message().contains("debug"));
    assert!(err.message().contains("boolean"));
}

#[test]
fn std_rejects_non_bool() {
    let err = extract_build_config(
        &ta_meta(object(vec![("std", JsonValue::Number("1".to_string()))])),
        ComponentType::Ta,
        None,
    )
    .unwrap_err();
    assert!(err.message().contains("std"));
    assert!(err.message().contains("boolean"));
}

#[test]
fn missing_component_table_gives_nothing() {
    assert!(extract_build_config(&object(vec![]), ComponentType::Ta, None).unwrap().is_none());
    let only_ca = object(vec![("optee", object(vec![("ca", object(vec![]))]))]);
    assert!(extract_build_config(&only_ca, ComponentType::Ta, None).unwrap().is_none());
    assert!(extract_build_config(&only_ca, ComponentType::Ca, None).unwrap().is_some());
}

#[test]
fn uuid_path_is_refused() {
    let err = extract_build_config(&ta_meta(object(vec![("uuid-path", text("uuid.txt"))])), ComponentType::Ta, None)
        .unwrap_err();
    assert!(matches!(err, ConfigError::UuidPathUnsupported(ComponentType::Ta)));
    assert_eq!(
        err.message(),
        "package.metadata.optee.ta.uuid-path is not supported; UUID is parsed from the unsigned ELF"
    );
}

#[test]
fn metadata_arch_and_paths_per_arch() {
    let meta = ta_meta(object(vec![
        ("arch", text("ARM")),
        (
            "ta-dev-kit-dir",
            object(vec![("aarch64", text("/kit64")), ("arm", text("/kit32"))]),
        ),
        ("signing-key", text("keys/k.pem")),
    ]));
    let cfg = extract_build_config(&meta, ComponentType::Ta, None).unwrap().unwrap();
    assert_eq!(cfg.arch, Arch::Arm);
    assert_eq!(cfg.ta_dev_kit_dir.as_deref(), Some("/kit32"));
    assert_eq!(cfg.signing_key.as_deref(), Some("keys/k.pem"));
    // The command line chooses the architecture over metadata.
    let cfg = extract_build_config(&meta, ComponentType::Ta, Some(Arch::Aarch64)).unwrap().unwrap();
    assert_eq!(cfg.arch, Arch::Aarch64);
    assert_eq!(cfg.ta_dev_kit_dir.as_deref(), Some("/kit64"));
}

#[test]
fn invalid_arch_is_reported() {
    let err = extract_build_config(&ta_meta(object(vec![("arch", text("x86"))])), ComponentType::Ta, None)
        .unwrap_err();
    assert!(matches!(err, ConfigError::InvalidArch { .. }));
    let err = extract_build_config(&ta_meta(object(vec![("arch", JsonValue::Bool(true))])), ComponentType::Ta, None)
        .unwrap_err();
    assert!(matches!(err, ConfigError::ArchNotString));
}

#[test]
fn env_entries_split_on_first_equals() {
    let meta = ta_meta(object(vec![(
        "env",
        JsonValue::Array(vec![text("A=1"), text("B=x=y"), text("broken")]),
    )]));
    let cfg = extract_build_config(&meta, ComponentType::Ta, None).unwrap().unwrap();
    assert_eq!(
        cfg.env,
        vec![("A".to_string(), "1".to_string()), ("B".to_string(), "x=y".to_string())]
    );
    assert_eq!(cfg.invalid_env, vec!["broken".to_string()]);
}

#[test]
fn metadata_bool_reads_flags() {
    let table = object(vec![("debug", JsonValue::Bool(true)), ("std", JsonValue::Null)]);
    assert!(metadata_bool(&table, "debug").unwrap());
    assert!(!metadata_bool(&table, "missing").unwrap());
    assert!(matches!(metadata_bool(&table, "std"), Err(ConfigError::NotBoolean(_))));
}

#[test]
fn resolve_matches_extract() {
    let meta = ta_meta(object(vec![("std", JsonValue::Bool(true))]));
    let cfg = MetadataConfig::resolve(&meta, ComponentType::Ta, None).unwrap().unwrap();
    assert!(cfg.std);
    assert_eq!(cfg.arch, Arch::Aarch64);
}

#[test]
fn missing_dev_kit_is_an_error() {
    let err = TaBuildConfig::resolve(
        "/tmp/project",
        no_overrides(),
        None,
        None,
        None,
        false,
        &object(vec![]),
        &no_env(),
    )
    .err()
    .unwrap();
    assert!(matches!(err, ConfigError::TaDevKitDirMissing));
    assert_eq!(err.message(), ta_dev_kit_dir_error().message());
    assert!(err.message().contains("ta-dev-kit-dir"));
}

#[test]
fn missing_client_export_is_an_error() {
    let err = CaBuildConfig::resolve("/tmp/project", no_overrides(), None, false, &object(vec![]), &no_env())
        .err()
        .unwrap();
    assert!(matches!(err, ConfigError::OpteeClientExportMissing));
    assert_eq!(err.message(), optee_client_export_error().message());
}

#[test]
fn nonexistent_dev_kit_is_reported_with_its_path() {
    let err = TaBuildConfig::resolve(
        "/nonexistent-project",
        no_overrides(),
        None,
        Some("kit".to_string()),
        None,
        false,
        &object(vec![]),
        &no_env(),
    )
    .err()
    .unwrap();
    match err {
        ConfigError::PathDoesNotExist { path, .. } => assert_eq!(path, "/nonexistent-project/kit"),
        other => panic!("unexpected error {:?}", other),
    }
}

#[test]
fn component_names() {
    assert_eq!(ComponentType::Ta.as_str(), "ta");
    assert_eq!(ComponentType::Ca.as_str(), "ca");
    assert_eq!(ComponentType::Plugin.as_str(), "plugin");
}

#[test]
fn json_accessors() {
    let v = object(vec![("k", text("v")), ("k", text("second")), ("b", JsonValue::Bool(false))]);
    assert_eq!(v.get("k").and_then(|x| x.as_str()), Some("v"));
    assert_eq!(v.get("b").and_then(|x| x.as_bool()), Some(false));
    assert!(v.get("none").is_none());
    assert!(text("x").get("k").is_none());
}
