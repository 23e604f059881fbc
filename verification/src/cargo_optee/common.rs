//! Targets, toolchains, paths and cargo invocations shared by the TA, CA
//! and plugin builds.
use vstd::prelude::*;

use super::fmt::{lowercase, spec_ascii_lowercase, spec_is_ascii, to_lowercase};
use crate::text::{is_absolute, path_join, spec_is_absolute, spec_path_join, str_eq};

verus! {

/// Target architecture.
#[derive(Clone, Copy, Debug, PartialEq, Eq, Structural)]
pub enum Arch {
    /// ARM 64-bit.
    Aarch64,
    /// ARM 32-bit.
    Arm,
}

/// What a component is built as.
#[derive(Clone, Copy, Debug, PartialEq, Eq, Structural)]
pub enum BuildMode {
    /// Client application: a normal Linux program.
    Ca,
    /// Trusted application with std, on the OP-TEE custom targets.
    TaStd,
    /// Trusted application without std, on the Linux targets.
    TaNoStd,
}

/// The names an architecture is given on the command line and in metadata,
/// after lower-casing.
pub open spec fn spec_arch_of_name(lowered: Seq<char>) -> Option<Arch> {
    if lowered == "aarch64"@ || lowered == "arm64"@ {
        Some(Arch::Aarch64)
    } else if lowered == "arm"@ || lowered == "arm32"@ {
        Some(Arch::Arm)
    } else {
        None
    }
}

impl Arch {
    /// Parses an architecture name, ignoring case: `aarch64` or `arm64`,
    /// `arm` or `arm32`. Any other name gives the message
    /// `Invalid architecture: <name>`.
    pub fn parse(s: &str) -> (r: Result<Arch, String>)
        ensures
            spec_is_ascii(s@) ==> lowercase(s@) == spec_ascii_lowercase(s@),
            r matches Ok(a) ==> spec_arch_of_name(lowercase(s@)) == Some(a),
            r matches Err(m) ==> spec_arch_of_name(lowercase(s@)) is None
                && m@ == "Invalid architecture: "@ + s@,
    {
        let lowered = to_lowercase(s);
        let l = lowered.as_str();
        proof {
            reveal_strlit("aarch64");
            reveal_strlit("arm64");
            reveal_strlit("arm");
            reveal_strlit("arm32");
            reveal_strlit("Invalid architecture: ");
        }
        if str_eq(l, "aarch64") || str_eq(l, "arm64") {
            Ok(Arch::Aarch64)
        } else if str_eq(l, "arm") || str_eq(l, "arm32") {
            Ok(Arch::Arm)
        } else {
            Err(String::from_str("Invalid architecture: ").concat(s))
        }
    }
}

impl std::str::FromStr for Arch {
    type Err = String;

    /// As [`Arch::parse`].
    fn from_str(s: &str) -> (r: Result<Self, Self::Err>)
        ensures
            r matches Ok(a) ==> spec_arch_of_name(lowercase(s@)) == Some(a),
            r matches Err(m) ==> spec_arch_of_name(lowercase(s@)) is None
                && m@ == "Invalid architecture: "@ + s@,
    {
        Arch::parse(s)
    }
}

/// The target triple and cross-compile prefix of each architecture and
/// build mode.
pub open spec fn spec_target_config(arch: Arch, mode: BuildMode) -> (Seq<char>, Seq<char>) {
    match (arch, mode) {
        (Arch::Arm, BuildMode::Ca) => ("arm-unknown-linux-gnueabihf"@, "arm-linux-gnueabihf-"@),
        (Arch::Arm, BuildMode::TaNoStd) => ("arm-unknown-linux-gnueabihf"@, "arm-linux-gnueabihf-"@),
        (Arch::Arm, BuildMode::TaStd) => ("arm-unknown-optee"@, "arm-linux-gnueabihf-"@),
        (Arch::Aarch64, BuildMode::Ca) => ("aarch64-unknown-linux-gnu"@, "aarch64-linux-gnu-"@),
        (Arch::Aarch64, BuildMode::TaNoStd) => ("aarch64-unknown-linux-gnu"@, "aarch64-linux-gnu-"@),
        (Arch::Aarch64, BuildMode::TaStd) => ("aarch64-unknown-optee"@, "aarch64-linux-gnu-"@),
    }
}

/// An error of the tool's own checks.
#[derive(Debug)]
pub enum ToolError {
    /// No target is configured for the architecture and mode.
    NoTargetConfig(Arch, BuildMode),
    /// A required path does not exist.
    DoesNotExist { context: String, path: String },
    /// Cargo produced no artifact of the kind for the manifest.
    NoArtifact { kind: CargoArtifactKind, manifest: String },
    /// A std TA build needs `__CARGO_TESTS_ONLY_SRC_ROOT`, which is not set.
    RustSrcUnset,
    /// Cargo produced several distinct artifacts of the kind.
    MultipleArtifacts { kind: CargoArtifactKind, manifest: String, artifacts: Vec<String> },
}

/// Derives the target triple and cross-compile prefix from the architecture
/// and build mode. Every combination is configured.
pub fn get_target_and_cross_compile(arch: Arch, mode: BuildMode) -> (r: Result<(String, String), ToolError>)
    ensures
        r matches Ok((t, c)) && (t@, c@) == spec_target_config(arch, mode),
{
    proof {
        reveal_strlit("arm-unknown-linux-gnueabihf");
        reveal_strlit("arm-linux-gnueabihf-");
        reveal_strlit("arm-unknown-optee");
        reveal_strlit("aarch64-unknown-linux-gnu");
        reveal_strlit("aarch64-linux-gnu-");
        reveal_strlit("aarch64-unknown-optee");
    }
    let (target, prefix) = match (arch, mode) {
        (Arch::Arm, BuildMode::Ca) => ("arm-unknown-linux-gnueabihf", "arm-linux-gnueabihf-"),
        (Arch::Arm, BuildMode::TaNoStd) => ("arm-unknown-linux-gnueabihf", "arm-linux-gnueabihf-"),
        (Arch::Arm, BuildMode::TaStd) => ("arm-unknown-optee", "arm-linux-gnueabihf-"),
        (Arch::Aarch64, BuildMode::Ca) => ("aarch64-unknown-linux-gnu", "aarch64-linux-gnu-"),
        (Arch::Aarch64, BuildMode::TaNoStd) => ("aarch64-unknown-linux-gnu", "aarch64-linux-gnu-"),
        (Arch::Aarch64, BuildMode::TaStd) => ("aarch64-unknown-optee", "aarch64-linux-gnu-"),
    };
    Ok((String::from_str(target), String::from_str(prefix)))
}

/// Like [`get_target_and_cross_compile`], with a cross-compile prefix
/// supplied from outside (the `CROSS_COMPILE` environment variable) taking
/// the place of the default one.
pub fn resolve_target_and_cross_compile_with(
    arch: Arch,
    mode: BuildMode,
    cross_compile_override: Option<String>,
) -> (r: Result<(String, String), ToolError>)
    ensures
        r matches Ok((t, c)) && t@ == spec_target_config(arch, mode).0 && c@ == (match cross_compile_override {
            Some(o) => o@,
            None => spec_target_config(arch, mode).1,
        }),
{
    let (target, default_cc) = match get_target_and_cross_compile(arch, mode) {
        Ok(p) => p,
        Err(e) => return Err(e),
    };
    let cc = match cross_compile_override {
        Some(o) => o,
        None => default_cc,
    };
    Ok((target, cc))
}

/// The manifest of a project directory: `<dir>/Cargo.toml`.
pub fn manifest_path(project_dir: &str) -> (p: String)
    ensures
        p@ == spec_path_join(project_dir@, "Cargo.toml"@),
{
    path_join(project_dir, "Cargo.toml")
}

/// Resolves `dir` against the working directory `cwd` of the process: an
/// absolute `dir` stays as it is.
pub fn absolute_from_cwd(dir: &str, cwd: &str) -> (p: String)
    ensures
        spec_is_absolute(dir@) ==> p@ == dir@,
        p@ == spec_path_join(cwd@, dir@),
{
    if is_absolute(dir) {
        String::from_str(dir)
    } else {
        path_join(cwd, dir)
    }
}

/// A cargo invocation: its working directory, arguments and environment
/// (applied in order, later entries overriding earlier ones).
#[derive(Debug)]
pub struct CargoCommand {
    pub current_dir: String,
    pub args: Vec<String>,
    pub envs: Vec<(String, String)>,
}

/// A cargo invocation rooted at `project_dir`; the process keeps its own
/// working directory.
pub fn cargo_command_in(project_dir: &str) -> (c: CargoCommand)
    ensures
        c.current_dir@ == project_dir@,
        c.args@.len() == 0,
        c.envs@.len() == 0,
{
    CargoCommand { current_dir: String::from_str(project_dir), args: Vec::new(), envs: Vec::new() }
}

/// The arguments that make clippy deny warnings, `unwrap`, `expect` and
/// `panic`.
pub open spec fn spec_clippy_deny_args() -> Seq<Seq<char>> {
    seq![
        "--"@,
        "-D"@,
        "warnings"@,
        "-D"@,
        "clippy::unwrap_used"@,
        "-D"@,
        "clippy::expect_used"@,
        "-D"@,
        "clippy::panic"@,
    ]
}

/// Appends `arg` to the arguments of `cmd`.
pub fn push_arg(cmd: &mut CargoCommand, arg: &str)
    ensures
        final(cmd).args.deep_view() == old(cmd).args.deep_view().push(arg@),
        final(cmd).envs.deep_view() == old(cmd).envs.deep_view(),
        final(cmd).current_dir == old(cmd).current_dir,
{
    cmd.args.push(String::from_str(arg));
    assert(cmd.args.deep_view() =~= old(cmd).args.deep_view().push(arg@));
}

/// Sets `key` to `value` in the environment of `cmd`.
pub fn push_env(cmd: &mut CargoCommand, key: &str, value: &str)
    ensures
        final(cmd).envs.deep_view() == old(cmd).envs.deep_view().push((key@, value@)),
        final(cmd).args.deep_view() == old(cmd).args.deep_view(),
        final(cmd).current_dir == old(cmd).current_dir,
{
    cmd.envs.push((String::from_str(key), String::from_str(value)));
    assert(cmd.envs.deep_view() =~= old(cmd).envs.deep_view().push((key@, value@)));
}

/// Adds the deny lints of `cargo-optee clippy` to a clippy invocation.
pub fn apply_clippy_deny_lints(cmd: &mut CargoCommand)
    ensures
        final(cmd).args.deep_view() == old(cmd).args.deep_view() + spec_clippy_deny_args(),
        final(cmd).envs.deep_view() == old(cmd).envs.deep_view(),
        final(cmd).current_dir == old(cmd).current_dir,
{
    proof {
        reveal_strlit("--");
        reveal_strlit("-D");
        reveal_strlit("warnings");
        reveal_strlit("clippy::unwrap_used");
        reveal_strlit("clippy::expect_used");
        reveal_strlit("clippy::panic");
    }
    push_arg(cmd, "--");
    push_arg(cmd, "-D");
    push_arg(cmd, "warnings");
    push_arg(cmd, "-D");
    push_arg(cmd, "clippy::unwrap_used");
    push_arg(cmd, "-D");
    push_arg(cmd, "clippy::expect_used");
    push_arg(cmd, "-D");
    push_arg(cmd, "clippy::panic");
    assert(cmd.args.deep_view() =~= old(cmd).args.deep_view() + spec_clippy_deny_args());
}

/// Whether a path exists (`Path::exists`); the answer depends on the disk.
#[verifier::external_body]
pub(crate) fn path_exists(path: &str) -> bool {
    std::path::Path::new(path).exists()
}

/// Whether a path is a directory (`Path::is_dir`); the answer depends on
/// the disk.
#[verifier::external_body]
pub(crate) fn path_is_dir(path: &str) -> bool {
    std::path::Path::new(path).is_dir()
}

/// Whether a path is a file (`Path::is_file`); the answer depends on the
/// disk.
#[verifier::external_body]
pub(crate) fn path_is_file(path: &str) -> bool {
    std::path::Path::new(path).is_file()
}

/// Joins all segments onto `base`, in order.
pub open spec fn spec_join_all(base: Seq<char>, segments: Seq<Seq<char>>) -> Seq<char>
    decreases segments.len(),
{
    if segments.len() == 0 {
        base
    } else {
        spec_path_join(spec_join_all(base, segments.drop_last()), segments.last())
    }
}

/// Joins path segments onto `base` and checks that the result exists;
/// otherwise `<context> does not exist: <path>`.
pub fn join_and_check(base: &str, segments: &[&str], error_context: &str) -> (r: Result<String, ToolError>)
    ensures
        r matches Ok(p) ==> p@ == spec_join_all(base@, segments@.map_values(|s: &str| s@)),
        r matches Err(e) ==> e matches ToolError::DoesNotExist { context, path } && context@
            == error_context@ && path@ == spec_join_all(base@, segments@.map_values(|s: &str| s@)),
{
    let ghost segs = segments@.map_values(|s: &str| s@);
    let mut path = String::from_str(base);
    let n = segments.len();
    let mut i: usize = 0;
    while i < n
        invariant
            n == segments@.len(),
            segs == segments@.map_values(|s: &str| s@),
            i <= n,
            path@ == spec_join_all(base@, segs.take(i as int)),
        decreases n - i,
    {
        let next = path_join(path.as_str(), segments[i]);
        proof {
            assert(segs.take(i + 1).drop_last() =~= segs.take(i as int));
        }
        path = next;
        i += 1;
    }
    assert(segs.take(n as int) =~= segs);
    if !path_exists(path.as_str()) {
        return Err(ToolError::DoesNotExist { context: String::from_str(error_context), path });
    }
    Ok(path)
}

/// Kind of compiler artifact to collect from cargo's JSON messages.
#[derive(Clone, Copy, Debug, PartialEq, Eq, Structural)]
pub enum CargoArtifactKind {
    Bin,
    Cdylib,
}

} // verus!
