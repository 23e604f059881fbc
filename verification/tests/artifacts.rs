use optee_sdk::cargo_optee::artifacts::{
    collect_cargo_artifacts, compiler_diagnostics, distinct, json_nesting_within, select_artifacts,
    select_package_artifacts,
    unique_artifact, unique_cargo_artifact, CargoMessage, CompilerArtifact,
};
use optee_sdk::cargo_optee::common::{CargoArtifactKind, ToolError};

const MANIFEST: &str = "/nonexistent/project/Cargo.toml";

fn artifact_line(manifest: &str, kind: &str, test: bool, executable: Option<&str>, filenames: &[&str]) -> String {
    let exe = match executable {
        Some(e) => format!("\"{}\"", e),
        None => "null".to_string(),
    };
    let files: Vec<String> = filenames.iter().map(|f| format!("\"{}\"", f)).collect();
    format!(
        "{{\"reason\":\"compiler-artifact\",\"package_id\":\"p 0.1.0\",\"manifest_path\":\"{}\",\"target\":{{\"name\":\"p\",\"kind\":[\"{}\"],\"crate_types\":[\"{}\"],\"src_path\":\"/src/main.rs\"}},\"profile\":{{\"opt_level\":\"3\",\"debuginfo\":0,\"debug_assertions\":false,\"overflow_checks\":false,\"test\":{}}},\"features\":[],\"filenames\":[{}],\"executable\":{},\"fresh\":false}}\n",
        manifest,
        kind,
        kind,
        test,
        files.join(","),
        exe
    )
}

fn diagnostic_line(rendered: &str) -> String {
    format!(
        "{{\"reason\":\"compiler-message\",\"package_id\":\"p 0.1.0\",\"target\":{{\"name\":\"p\",\"kind\":[\"bin\"],\"crate_types\":[\"bin\"],\"src_path\":\"/src/main.rs\"}},\"message\":{{\"message\":\"m\",\"code\":null,\"level\":\"warning\",\"spans\":[],\"children\":[],\"rendered\":\"{}\"}}}}\n",
        rendered
    )
}

#[test]
fn binary_of_the_package_is_found() {
    let mut out = String::new();
    out.push_str(&diagnostic_line("warning: unused"));
    out.push_str(&artifact_line(MANIFEST, "bin", false, Some("/t/release/app"), &["/t/release/app"]));
    out.push_str(&artifact_line("/nonexistent/other/Cargo.toml", "bin", false, Some("/t/release/dep"), &[]));
    out.push_str(&artifact_line(MANIFEST, "bin", true, Some("/t/release/app-test"), &[]));
    out.push_str(&artifact_line(MANIFEST, "custom-build", false, Some("/t/build/script"), &[]));
    out.push_str("not json\n");
    let paths = collect_cargo_artifacts(out.as_bytes(), MANIFEST, CargoArtifactKind::Bin);
    assert_eq!(paths, vec!["/t/release/app".to_string()]);
    assert_eq!(
        unique_cargo_artifact(out.as_bytes(), MANIFEST, CargoArtifactKind::Bin).unwrap(),
        "/t/release/app"
    );
    assert_eq!(compiler_diagnostics(out.as_bytes()), vec!["warning: unused".to_string()]);
}

#[test]
fn cdylib_so_files_are_found() {
    let out = artifact_line(MANIFEST, "cdylib", false, None, &["/t/libp.so", "/t/libp.d", "/t/libp.rlib"]);
    let paths = collect_cargo_artifacts(out.as_bytes(), MANIFEST, CargoArtifactKind::Cdylib);
    assert_eq!(paths, vec!["/t/libp.so".to_string()]);
    assert!(collect_cargo_artifacts(out.as_bytes(), MANIFEST, CargoArtifactKind::Bin).is_empty());
}

#[test]
fn no_or_several_artifacts_are_errors() {
    let out = diagnostic_line("x");
    match unique_cargo_artifact(out.as_bytes(), MANIFEST, CargoArtifactKind::Bin) {
        Err(ToolError::NoArtifact { kind, manifest }) => {
            assert_eq!(kind, CargoArtifactKind::Bin);
            assert_eq!(manifest, MANIFEST);
        }
        _ => panic!("expected no artifact"),
    }
    let mut out = artifact_line(MANIFEST, "bin", false, Some("/t/a"), &[]);
    out.push_str(&artifact_line(MANIFEST, "bin", false, Some("/t/b"), &[]));
    out.push_str(&artifact_line(MANIFEST, "bin", false, Some("/t/a"), &[]));
    match unique_cargo_artifact(out.as_bytes(), MANIFEST, CargoArtifactKind::Bin) {
        Err(ToolError::MultipleArtifacts { artifacts, .. }) => {
            assert_eq!(artifacts, vec!["/t/a".to_string(), "/t/b".to_string()]);
        }
        _ => panic!("expected several artifacts"),
    }
}

#[test]
fn repeated_artifact_is_one() {
    let paths = vec!["/t/a".to_string(), "/t/a".to_string()];
    assert_eq!(unique_artifact(&paths, MANIFEST, CargoArtifactKind::Bin).unwrap(), "/t/a");
    assert_eq!(
        distinct(&vec!["b".to_string(), "a".to_string(), "b".to_string()]),
        vec!["b".to_string(), "a".to_string()]
    );
}

#[test]
fn selection_compares_canonical_manifests() {
    let artifact = CompilerArtifact {
        manifest_path: "rel/Cargo.toml".to_string(),
        test: false,
        kinds: vec!["bin".to_string()],
        crate_types: vec!["bin".to_string()],
        executable: Some("/t/x".to_string()),
        filenames: vec![],
    };
    let messages = vec![CargoMessage::Diagnostic(None), CargoMessage::Artifact(artifact)];
    let canonical = vec![String::new(), "/abs/Cargo.toml".to_string()];
    assert_eq!(
        select_artifacts(&messages, &canonical, "/abs/Cargo.toml", CargoArtifactKind::Bin),
        vec!["/t/x".to_string()]
    );
    assert!(select_artifacts(&messages, &canonical, "/other/Cargo.toml", CargoArtifactKind::Bin).is_empty());
}

#[test]
fn json_nesting_is_bounded_per_line() {
    let shallow = artifact_line(MANIFEST, "bin", false, Some("/t/a"), &[]);
    assert!(json_nesting_within(shallow.as_bytes()));
    let deep = "[".repeat(129);
    assert!(!json_nesting_within(deep.as_bytes()));
    let at_limit = format!("{}\n{}", "[".repeat(128), "[".repeat(128));
    assert!(json_nesting_within(at_limit.as_bytes()));
    // Brackets inside strings do not count, escaped quotes stay inside.
    let quoted = format!("[\"{}\\\"{}\"]", "[".repeat(200), "]".repeat(300));
    assert!(json_nesting_within(quoted.as_bytes()));
    let closed_early = format!("{}{}", "]".repeat(300), "[".repeat(129));
    assert!(!json_nesting_within(closed_early.as_bytes()));
}

#[test]
fn package_artifacts_fall_back_to_raw_paths() {
    let artifact = |manifest: &str, exe: &str| {
        CargoMessage::Artifact(CompilerArtifact {
            manifest_path: manifest.to_string(),
            test: false,
            kinds: vec!["bin".to_string()],
            crate_types: vec!["bin".to_string()],
            executable: Some(exe.to_string()),
            filenames: vec![],
        })
    };
    let messages = vec![artifact("rel/Cargo.toml", "/t/a"), CargoMessage::Other, artifact("other/Cargo.toml", "/t/b")];
    // The first artifact's manifest canonicalises to the package's; the
    // second cannot be canonicalised and is compared raw.
    let canonical = vec![Some("/abs/Cargo.toml".to_string()), None, None];
    assert_eq!(
        select_package_artifacts(&messages, "p/Cargo.toml", Some("/abs/Cargo.toml".to_string()), &canonical, CargoArtifactKind::Bin),
        vec!["/t/a".to_string()]
    );
    assert_eq!(
        select_package_artifacts(&messages, "other/Cargo.toml", None, &canonical, CargoArtifactKind::Bin),
        vec!["/t/b".to_string()]
    );
    assert!(select_package_artifacts(&messages, "p/Cargo.toml", None, &canonical, CargoArtifactKind::Bin).is_empty());
}
