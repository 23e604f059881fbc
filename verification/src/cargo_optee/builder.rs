//! The cargo invocations of TA, CA and plugin builds, as plans: working
//! directory, arguments and environment. The caller runs them.
use vstd::prelude::*;

use super::common::{
    apply_clippy_deny_lints, cargo_command_in, CargoArtifactKind, get_target_and_cross_compile, manifest_path,
    path_exists, push_arg, push_env, resolve_target_and_cross_compile_with, spec_clippy_deny_args,
    spec_target_config, Arch, BuildMode, CargoCommand, ToolError,
};
use super::common::spec_arch_of_name;
use super::config::{spec_arch_key, CaBuildConfig, TaBuildConfig};
use crate::text::{chars_of, contains_str, path_join, spec_contains, spec_path_join, spec_trim, trim};

verus! {

/// The linker setting of a build: `target.<target>.linker="<prefix>gcc"`.
pub open spec fn spec_linker_config(target: Seq<char>, cross_compile: Seq<char>) -> Seq<char> {
    "target."@ + target + ".linker=\""@ + cross_compile + "gcc\""@
}

/// The `--config` value that selects the cross linker.
pub fn linker_config(target: &str, cross_compile: &str) -> (s: String)
    ensures
        s@ == spec_linker_config(target@, cross_compile@),
{
    proof {
        reveal_strlit("target.");
        reveal_strlit(".linker=\"");
        reveal_strlit("gcc\"");
    }
    String::from_str("target.").concat(target).concat(".linker=\"").concat(cross_compile).concat(
        "gcc\"",
    )
}

/// The arguments of a CA or plugin cargo invocation after the command.
pub open spec fn spec_ca_package_args(config: CaBuildConfig) -> Seq<Seq<char>> {
    seq![
        "--manifest-path"@,
        spec_path_join(config.path@, "Cargo.toml"@),
        "--target"@,
        spec_target_config(config.arch, BuildMode::Ca).0,
    ] + (if config.no_default_features {
        seq!["--no-default-features"@]
    } else {
        Seq::empty()
    }) + (match config.features {
        Some(f) => seq!["--features"@, f@],
        None => Seq::empty(),
    })
}

/// The environment of a CA or plugin cargo invocation.
pub open spec fn spec_ca_envs(config: CaBuildConfig) -> Seq<(Seq<char>, Seq<char>)> {
    seq![("OPTEE_CLIENT_EXPORT"@, config.optee_client_export@)] + config.env.deep_view()
}

/// A cargo invocation for a CA or plugin with the target, features and
/// environment of the build; `command` is `build` or `clippy`.
pub fn setup_ca_cargo_command(config: &CaBuildConfig, command: &str) -> (r: Result<CargoCommand, ToolError>)
    ensures
        r matches Ok(c) && c.current_dir@ == config.path@ && c.args.deep_view() == seq![command@]
            + spec_ca_package_args(*config) && c.envs.deep_view() == spec_ca_envs(*config),
{
    let (target, _cross_compile) = match get_target_and_cross_compile(config.arch, BuildMode::Ca) {
        Ok(p) => p,
        Err(e) => return Err(e),
    };
    proof {
        reveal_strlit("--manifest-path");
        reveal_strlit("--target");
        reveal_strlit("--no-default-features");
        reveal_strlit("--features");
        reveal_strlit("OPTEE_CLIENT_EXPORT");
    }
    let mut cmd = cargo_command_in(config.path.as_str());
    push_arg(&mut cmd, command);
    push_arg(&mut cmd, "--manifest-path");
    let manifest = manifest_path(config.path.as_str());
    push_arg(&mut cmd, manifest.as_str());
    push_arg(&mut cmd, "--target");
    push_arg(&mut cmd, target.as_str());
    let ghost base = cmd.args.deep_view();
    if config.no_default_features {
        push_arg(&mut cmd, "--no-default-features");
    }
    let ghost mid = cmd.args.deep_view();
    match &config.features {
        Some(features) => {
            push_arg(&mut cmd, "--features");
            push_arg(&mut cmd, features.as_str());
        },
        None => {},
    }
    assert(cmd.args.deep_view() =~= seq![command@] + spec_ca_package_args(*config));
    push_env(&mut cmd, "OPTEE_CLIENT_EXPORT", config.optee_client_export.as_str());
    let n = config.env.len();
    let mut i: usize = 0;
    while i < n
        invariant
            n == config.env@.len(),
            i <= n,
            cmd.current_dir@ == config.path@,
            cmd.args.deep_view() == seq![command@] + spec_ca_package_args(*config),
            cmd.envs.deep_view() == seq![("OPTEE_CLIENT_EXPORT"@, config.optee_client_export@)]
                + config.env.deep_view().take(i as int),
        decreases n - i,
    {
        let (k, v) = &config.env[i];
        push_env(&mut cmd, k.as_str(), v.as_str());
        assert(cmd.envs.deep_view() =~= seq![("OPTEE_CLIENT_EXPORT"@, config.optee_client_export@)]
            + config.env.deep_view().take(i + 1));
        i += 1;
    }
    assert(config.env.deep_view().take(n as int) =~= config.env.deep_view());
    Ok(cmd)
}

/// The flags that follow the package arguments of a build: release unless
/// debug, the cross linker of the target, and JSON messages.
pub open spec fn spec_build_flags(debug: bool, target: Seq<char>, cross_compile: Seq<char>) -> Seq<Seq<char>> {
    (if debug {
        Seq::<Seq<char>>::empty()
    } else {
        seq!["--release"@]
    }) + seq!["--config"@, spec_linker_config(target, cross_compile), "--message-format=json"@]
}

/// The arguments of the cargo build of a CA or plugin.
pub open spec fn spec_ca_build_args(config: CaBuildConfig, cross_compile: Seq<char>) -> Seq<Seq<char>> {
    seq!["build"@] + spec_ca_package_args(config) + spec_build_flags(
        config.debug,
        spec_target_config(config.arch, BuildMode::Ca).0,
        cross_compile,
    )
}

/// The arguments of the clippy invocation of a CA or plugin.
pub open spec fn spec_ca_clippy_args(config: CaBuildConfig) -> Seq<Seq<char>> {
    seq!["clippy"@] + spec_ca_package_args(config) + spec_clippy_deny_args()
}

/// Clippy and build of a CA or plugin get the same package arguments
/// (manifest, target, `--no-default-features`, `--features`) right after
/// the command, and the same environment, so clippy lints the crate graph
/// that is built.
pub proof fn lemma_ca_clippy_and_build_share_flags(
    config: CaBuildConfig,
    cross_compile: Seq<char>,
    clippy: CargoCommand,
    build: CargoCommand,
)
    requires
        clippy.args.deep_view() == spec_ca_clippy_args(config),
        clippy.envs.deep_view() == spec_ca_envs(config),
        build.args.deep_view() == spec_ca_build_args(config, cross_compile),
        build.envs.deep_view() == spec_ca_envs(config),
    ensures
        ({
            let n = spec_ca_package_args(config).len() as int;
            &&& clippy.args.deep_view().subrange(1, n + 1) == spec_ca_package_args(config)
            &&& build.args.deep_view().subrange(1, n + 1) == spec_ca_package_args(config)
        }),
        clippy.envs.deep_view() == build.envs.deep_view(),
{
    let n = spec_ca_package_args(config).len() as int;
    assert(clippy.args.deep_view().subrange(1, n + 1) =~= spec_ca_package_args(config));
    assert(build.args.deep_view().subrange(1, n + 1) =~= spec_ca_package_args(config));
}

/// The cargo build of a CA or plugin: release unless debug, with the cross
/// linker, and JSON messages to find the artifact.
pub fn ca_build_command(config: &CaBuildConfig, cross_compile: &str) -> (r: Result<CargoCommand, ToolError>)
    ensures
        r matches Ok(c) && c.current_dir@ == config.path@ && c.args.deep_view() == spec_ca_build_args(
            *config,
            cross_compile@,
        ) && c.envs.deep_view() == spec_ca_envs(*config),
{
    proof {
        reveal_strlit("build");
        reveal_strlit("--release");
        reveal_strlit("--config");
        reveal_strlit("--message-format=json");
    }
    let (target, _default_cc) = match get_target_and_cross_compile(config.arch, BuildMode::Ca) {
        Ok(p) => p,
        Err(e) => return Err(e),
    };
    let mut cmd = match setup_ca_cargo_command(config, "build") {
        Ok(c) => c,
        Err(e) => return Err(e),
    };
    if !config.debug {
        push_arg(&mut cmd, "--release");
    }
    let linker = linker_config(target.as_str(), cross_compile);
    push_arg(&mut cmd, "--config");
    push_arg(&mut cmd, linker.as_str());
    push_arg(&mut cmd, "--message-format=json");
    assert(cmd.args.deep_view() =~= spec_ca_build_args(*config, cross_compile@));
    Ok(cmd)
}

/// The two cargo invocations of linting a project: `cargo fmt`, then
/// clippy with the deny lints.
#[derive(Debug)]
pub struct LintPlan {
    pub fmt: CargoCommand,
    pub clippy: CargoCommand,
}

/// The arguments of the `cargo fmt` invocation of a project.
pub open spec fn spec_fmt_args(project_dir: Seq<char>) -> Seq<Seq<char>> {
    seq!["fmt"@, "--manifest-path"@, spec_path_join(project_dir, "Cargo.toml"@)]
}

/// The lint plan of a CA or plugin: `cargo fmt` of the project, then
/// clippy with the target, features and environment of the build and the
/// deny lints.
pub fn clippy_ca(config: &CaBuildConfig) -> (r: Result<LintPlan, ToolError>)
    ensures
        r matches Ok(p) && p.fmt.current_dir@ == config.path@ && p.fmt.args.deep_view()
            == spec_fmt_args(config.path@) && p.fmt.envs.deep_view().len() == 0 && p.clippy.current_dir@
            == config.path@ && p.clippy.args.deep_view() == spec_ca_clippy_args(*config)
            && p.clippy.envs.deep_view() == spec_ca_envs(*config),
{
    proof {
        reveal_strlit("clippy");
    }
    let fmt = fmt_command(config.path.as_str());
    let mut cmd = match setup_ca_cargo_command(config, "clippy") {
        Ok(c) => c,
        Err(e) => return Err(e),
    };
    apply_clippy_deny_lints(&mut cmd);
    Ok(LintPlan { fmt, clippy: cmd })
}

/// The kind of artifact a CA or plugin build produces: a shared library
/// for a plugin, an executable for a CA.
pub fn ca_artifact_kind(config: &CaBuildConfig) -> (k: CargoArtifactKind)
    ensures
        k == (if config.plugin {
            CargoArtifactKind::Cdylib
        } else {
            CargoArtifactKind::Bin
        }),
{
    if config.plugin {
        CargoArtifactKind::Cdylib
    } else {
        CargoArtifactKind::Bin
    }
}

/// What is done with the built artifact of a CA or plugin.
#[derive(Clone, Copy, Debug, PartialEq, Eq, Structural)]
pub enum CaPostBuild {
    /// Strip the CA executable in place.
    Strip,
    /// Copy the plugin to `<uuid>.plugin.so` beside it.
    CopyPlugin,
}

/// The step after a CA or plugin build: a plugin is copied under its UUID,
/// a CA is stripped.
pub fn ca_post_build(config: &CaBuildConfig) -> (step: CaPostBuild)
    ensures
        step == (if config.plugin {
            CaPostBuild::CopyPlugin
        } else {
            CaPostBuild::Strip
        }),
{
    if config.plugin {
        CaPostBuild::CopyPlugin
    } else {
        CaPostBuild::Strip
    }
}

/// The `cargo fmt` invocation of a project.
pub fn fmt_command(project_dir: &str) -> (c: CargoCommand)
    ensures
        c.current_dir@ == project_dir@,
        c.args.deep_view() == spec_fmt_args(project_dir@),
        c.envs.deep_view().len() == 0,
{
    proof {
        reveal_strlit("fmt");
        reveal_strlit("--manifest-path");
    }
    let mut cmd = cargo_command_in(project_dir);
    push_arg(&mut cmd, "fmt");
    push_arg(&mut cmd, "--manifest-path");
    let manifest = manifest_path(project_dir);
    push_arg(&mut cmd, manifest.as_str());
    assert(cmd.args.deep_view() =~= seq!["fmt"@, "--manifest-path"@, spec_path_join(project_dir@, "Cargo.toml"@)]);
    cmd
}

/// The pieces of a string between commas (as `str::split(',')`): one
/// piece more than there are commas.
pub open spec fn spec_split_commas(s: Seq<char>) -> Seq<Seq<char>>
    decreases s.len(),
{
    if s.len() == 0 {
        seq![Seq::<char>::empty()]
    } else {
        let prev = spec_split_commas(s.drop_last());
        if s.last() == ',' {
            prev.push(Seq::<char>::empty())
        } else {
            prev.update(prev.len() - 1, prev.last().push(s.last()))
        }
    }
}

proof fn lemma_split_commas_nonempty(s: Seq<char>)
    ensures
        spec_split_commas(s).len() >= 1,
    decreases s.len(),
{
    if s.len() > 0 {
        lemma_split_commas_nonempty(s.drop_last());
    }
}

/// Splits a string at its commas.
fn split_commas(s: &str) -> (pieces: Vec<&str>)
    ensures
        pieces@.map_values(|p: &str| p@) == spec_split_commas(s@),
{
    let chars = chars_of(s);
    let n = chars.len();
    let mut pieces: Vec<&str> = Vec::new();
    let mut start: usize = 0;
    let mut i: usize = 0;
    assert(s@.take(0) =~= Seq::<char>::empty());
    assert(pieces@.map_values(|p: &str| p@).push(s@.subrange(0, 0)) =~= seq![Seq::<char>::empty()]);
    while i < n
        invariant
            chars@ == s@,
            n == s@.len(),
            start <= i <= n,
            pieces@.map_values(|p: &str| p@).push(s@.subrange(start as int, i as int))
                == spec_split_commas(s@.take(i as int)),
        decreases n - i,
    {
        let ghost prev = spec_split_commas(s@.take(i as int));
        assert(s@.take(i + 1).drop_last() =~= s@.take(i as int));
        if chars[i] == ',' {
            let piece = s.substring_char(start, i);
            pieces.push(piece);
            assert(s@.subrange((i + 1) as int, (i + 1) as int) =~= Seq::<char>::empty());
            assert(pieces@.map_values(|p: &str| p@) =~= prev);
            start = i + 1;
        } else {
            proof {
                lemma_split_commas_nonempty(s@.take(i as int));
                assert(s@.subrange(start as int, i + 1) =~= s@.subrange(start as int, i as int).push(
                    s@[i as int],
                ));
                assert(pieces@.map_values(|p: &str| p@).push(s@.subrange(start as int, i + 1))
                    =~= prev.update(prev.len() - 1, prev.last().push(s@[i as int])));
            }
        }
        i += 1;
    }
    let last = s.substring_char(start, n);
    pieces.push(last);
    assert(s@.take(n as int) =~= s@);
    assert(pieces@.map_values(|p: &str| p@) =~= spec_split_commas(s@));
    pieces
}

/// The trimmed pieces that are not empty, in order.
pub open spec fn spec_nonempty_trimmed(pieces: Seq<Seq<char>>) -> Seq<Seq<char>>
    decreases pieces.len(),
{
    if pieces.len() == 0 {
        Seq::empty()
    } else {
        let rest = spec_nonempty_trimmed(pieces.drop_last());
        if spec_trim(pieces.last()).len() > 0 {
            rest.push(spec_trim(pieces.last()))
        } else {
            rest
        }
    }
}

/// The features of a TA build: `std` for a std build, then each
/// comma-separated custom feature, trimmed, that is not empty.
pub open spec fn spec_ta_features(std: bool, custom: Option<Seq<char>>) -> Seq<Seq<char>> {
    (if std {
        seq!["std"@]
    } else {
        Seq::empty()
    }) + match custom {
        Some(c) => spec_nonempty_trimmed(spec_split_commas(c)),
        None => Seq::empty(),
    }
}

/// Strings joined with commas between them.
pub open spec fn spec_join_commas(items: Seq<Seq<char>>) -> Seq<char>
    decreases items.len(),
{
    if items.len() == 0 {
        Seq::empty()
    } else if items.len() == 1 {
        items[0]
    } else {
        spec_join_commas(items.drop_last()) + ","@ + items.last()
    }
}

/// The feature list of a TA build.
fn ta_features(std: bool, custom: &Option<String>) -> (v: Vec<String>)
    ensures
        v.deep_view() == spec_ta_features(std, custom.deep_view()),
{
    proof {
        reveal_strlit("std");
    }
    let mut features: Vec<String> = Vec::new();
    if std {
        features.push(String::from_str("std"));
    }
    let ghost base = features.deep_view();
    assert(base =~= (if std { seq!["std"@] } else { Seq::<Seq<char>>::empty() }));
    match custom {
        Some(c) => {
            let pieces = split_commas(c.as_str());
            let ghost ps = pieces@.map_values(|p: &str| p@);
            let n = pieces.len();
            let mut i: usize = 0;
            while i < n
                invariant
                    n == pieces@.len(),
                    i <= n,
                    ps == pieces@.map_values(|p: &str| p@),
                    features.deep_view() == base + spec_nonempty_trimmed(ps.take(i as int)),
                decreases n - i,
            {
                let t = trim(pieces[i]);
                assert(ps.take(i + 1).drop_last() =~= ps.take(i as int));
                assert(ps.take(i + 1).last() == pieces@[i as int]@);
                assert(ps[i as int] == pieces@[i as int]@);
                assert(t@ == spec_trim(ps.take(i + 1).last()));
                if t.unicode_len() != 0 {
                    let ghost before = features.deep_view();
                    let st = String::from_str(t);
                    features.push(st);
                    assert(features.deep_view() =~= before.push(t@));
                }
                assert(features.deep_view() =~= base + spec_nonempty_trimmed(ps.take(i + 1)));
                i += 1;
            }
            assert(ps.take(n as int) =~= ps);
        },
        None => {
            assert(features.deep_view() =~= spec_ta_features(std, custom.deep_view()));
        },
    }
    features
}

/// Joins strings with commas.
fn join_commas(items: &Vec<String>) -> (s: String)
    ensures
        s@ == spec_join_commas(items.deep_view()),
{
    proof {
        reveal_strlit(",");
    }
    let n = items.len();
    if n == 0 {
        return String::new();
    }
    let mut s = items[0].clone();
    let mut i: usize = 1;
    assert(items.deep_view().take(1) =~= seq![items.deep_view()[0]]);
    while i < n
        invariant
            n == items@.len(),
            1 <= i <= n,
            s@ == spec_join_commas(items.deep_view().take(i as int)),
        decreases n - i,
    {
        assert(items.deep_view().take(i + 1).drop_last() =~= items.deep_view().take(i as int));
        s = s.concat(",").concat(items[i].as_str());
        i += 1;
    }
    assert(items.deep_view().take(n as int) =~= items.deep_view());
    s
}

/// The `RUSTFLAGS` of a TA build: the inherited flags, then
/// `-C panic=abort`, and for std builds `-Z unstable-options` unless the
/// flags already mention `unstable-options`.
pub open spec fn spec_ta_rustflags(inherited: Seq<char>, std: bool) -> Seq<char> {
    let base = (if inherited.len() > 0 {
        inherited + " "@
    } else {
        inherited
    }) + "-C panic=abort"@;
    if std && !spec_contains(base, "unstable-options"@) {
        base + " -Z unstable-options"@
    } else {
        base
    }
}

/// The `RUSTFLAGS` of a TA build.
pub fn ta_rustflags(inherited: &str, std: bool) -> (s: String)
    ensures
        s@ == spec_ta_rustflags(inherited@, std),
{
    proof {
        reveal_strlit(" ");
        reveal_strlit("-C panic=abort");
        reveal_strlit(" -Z unstable-options");
        reveal_strlit("unstable-options");
    }
    let mut flags = String::from_str(inherited);
    if inherited.unicode_len() != 0 {
        flags = flags.concat(" ");
    }
    flags = flags.concat("-C panic=abort");
    if std && !contains_str(flags.as_str(), "unstable-options") {
        flags = flags.concat(" -Z unstable-options");
    }
    flags
}

/// What a TA cargo invocation takes from the environment of the tool and
/// the disk, read by the caller: the inherited `RUSTFLAGS`, a
/// `CROSS_COMPILE` override, the canonical development-kit directory, the
/// directory holding the custom target specifications (std builds), and
/// `__CARGO_TESTS_ONLY_SRC_ROOT`.
pub struct TaCommandEnv {
    pub rustflags: Option<String>,
    pub cross_compile: Option<String>,
    pub ta_dev_kit_dir: String,
    pub custom_target_dir: Option<String>,
    pub rust_src: Option<String>,
}

/// The build mode of a TA configuration.
pub open spec fn spec_ta_mode(std: bool) -> BuildMode {
    if std {
        BuildMode::TaStd
    } else {
        BuildMode::TaNoStd
    }
}

/// The cross-compile prefix a TA build uses.
pub open spec fn spec_ta_cross_compile(config: TaBuildConfig, env: TaCommandEnv) -> Seq<char> {
    match env.cross_compile {
        Some(o) => o@,
        None => spec_target_config(config.arch, spec_ta_mode(config.std)).1,
    }
}

/// The arguments of a TA cargo invocation after the command.
pub open spec fn spec_ta_package_args(config: TaBuildConfig) -> Seq<Seq<char>> {
    let features = spec_ta_features(config.std, config.features.deep_view());
    seq!["--manifest-path"@, spec_path_join(config.path@, "Cargo.toml"@)] + (if config.std {
        seq!["-Z"@, "build-std=std,panic_abort"@, "-Z"@, "json-target-spec"@]
    } else {
        Seq::empty()
    }) + seq!["--target"@, spec_target_config(config.arch, spec_ta_mode(config.std)).0] + (
    if config.no_default_features {
        seq!["--no-default-features"@]
    } else {
        Seq::empty()
    }) + (if features.len() > 0 {
        seq!["--features"@, spec_join_commas(features)]
    } else {
        Seq::empty()
    })
}

/// The environment of a TA cargo invocation, in the order it is applied.
pub open spec fn spec_ta_envs(config: TaBuildConfig, env: TaCommandEnv) -> Seq<(Seq<char>, Seq<char>)> {
    seq![(
        "RUSTFLAGS"@,
        spec_ta_rustflags(
            match env.rustflags {
                Some(r) => r@,
                None => Seq::empty(),
            },
            config.std,
        ),
    )] + config.env.deep_view() + seq![
        ("TA_DEV_KIT_DIR"@, env.ta_dev_kit_dir@),
        ("CROSS_COMPILE"@, spec_ta_cross_compile(config, env)),
    ] + (if config.std {
        seq![
            ("RUST_TARGET_PATH"@, env.custom_target_dir->0@),
            ("__CARGO_TESTS_ONLY_SRC_ROOT"@, env.rust_src->0@),
        ]
    } else {
        Seq::empty()
    })
}

/// A cargo invocation for a TA with the target, features and environment
/// of the build; `command` is `build` or `clippy`. Every invocation sets
/// `CROSS_COMPILE`, so C code in dependencies is built for the target. A
/// std build needs `__CARGO_TESTS_ONLY_SRC_ROOT` set to an existing path.
pub fn setup_build_command(config: &TaBuildConfig, command: &str, env: &TaCommandEnv) -> (r: Result<
    CargoCommand,
    ToolError,
>)
    requires
        config.std ==> env.custom_target_dir is Some,
    ensures
        !config.std || env.rust_src is Some ==> (r matches Ok(c) ==> c.current_dir@ == config.path@
            && c.args.deep_view() == seq![command@] + spec_ta_package_args(*config)
            && c.envs.deep_view() == spec_ta_envs(*config, *env)),
        !config.std ==> r is Ok,
        config.std && env.rust_src is None ==> r matches Err(ToolError::RustSrcUnset),
        r matches Err(e) ==> config.std && (e is RustSrcUnset || (e matches ToolError::DoesNotExist {
            context,
            path,
        } && context@ == "__CARGO_TESTS_ONLY_SRC_ROOT"@ && path@ == env.rust_src->0@)),
{
    let mode = if config.std {
        BuildMode::TaStd
    } else {
        BuildMode::TaNoStd
    };
    let (target, cross_compile) = match resolve_target_and_cross_compile_with(
        config.arch,
        mode,
        env.cross_compile.clone(),
    ) {
        Ok(p) => p,
        Err(e) => return Err(e),
    };
    proof {
        reveal_strlit("--manifest-path");
        reveal_strlit("-Z");
        reveal_strlit("build-std=std,panic_abort");
        reveal_strlit("json-target-spec");
        reveal_strlit("--target");
        reveal_strlit("--no-default-features");
        reveal_strlit("--features");
        reveal_strlit("RUSTFLAGS");
        reveal_strlit("TA_DEV_KIT_DIR");
        reveal_strlit("CROSS_COMPILE");
        reveal_strlit("RUST_TARGET_PATH");
        reveal_strlit("__CARGO_TESTS_ONLY_SRC_ROOT");
    }
    let mut cmd = cargo_command_in(config.path.as_str());
    push_arg(&mut cmd, command);
    push_arg(&mut cmd, "--manifest-path");
    let manifest = manifest_path(config.path.as_str());
    push_arg(&mut cmd, manifest.as_str());
    if config.std {
        push_arg(&mut cmd, "-Z");
        push_arg(&mut cmd, "build-std=std,panic_abort");
        push_arg(&mut cmd, "-Z");
        push_arg(&mut cmd, "json-target-spec");
    }
    push_arg(&mut cmd, "--target");
    push_arg(&mut cmd, target.as_str());
    if config.no_default_features {
        push_arg(&mut cmd, "--no-default-features");
    }
    let features = ta_features(config.std, &config.features);
    if features.len() != 0 {
        let joined = join_commas(&features);
        push_arg(&mut cmd, "--features");
        push_arg(&mut cmd, joined.as_str());
    }
    assert(cmd.args.deep_view() =~= seq![command@] + spec_ta_package_args(*config));
    let inherited = match &env.rustflags {
        Some(r) => r.clone(),
        None => String::new(),
    };
    let rustflags = ta_rustflags(inherited.as_str(), config.std);
    push_env(&mut cmd, "RUSTFLAGS", rustflags.as_str());
    let ghost first = cmd.envs.deep_view();
    let n = config.env.len();
    let mut i: usize = 0;
    while i < n
        invariant
            n == config.env@.len(),
            i <= n,
            cmd.current_dir@ == config.path@,
            cmd.args.deep_view() == seq![command@] + spec_ta_package_args(*config),
            cmd.envs.deep_view() == first + config.env.deep_view().take(i as int),
        decreases n - i,
    {
        let (k, v) = &config.env[i];
        push_env(&mut cmd, k.as_str(), v.as_str());
        assert(cmd.envs.deep_view() =~= first + config.env.deep_view().take(i + 1));
        i += 1;
    }
    assert(config.env.deep_view().take(n as int) =~= config.env.deep_view());
    push_env(&mut cmd, "TA_DEV_KIT_DIR", env.ta_dev_kit_dir.as_str());
    push_env(&mut cmd, "CROSS_COMPILE", cross_compile.as_str());
    if config.std {
        match &env.custom_target_dir {
            Some(d) => push_env(&mut cmd, "RUST_TARGET_PATH", d.as_str()),
            None => {},
        }
        let rust_src = match &env.rust_src {
            Some(p) => p,
            None => return Err(ToolError::RustSrcUnset),
        };
        if !path_exists(rust_src.as_str()) {
            return Err(
                ToolError::DoesNotExist {
                    context: String::from_str("__CARGO_TESTS_ONLY_SRC_ROOT"),
                    path: rust_src.clone(),
                },
            );
        }
        push_env(&mut cmd, "__CARGO_TESTS_ONLY_SRC_ROOT", rust_src.as_str());
    }
    assert(cmd.envs.deep_view() =~= spec_ta_envs(*config, *env));
    Ok(cmd)
}

/// The cargo build of a TA: release unless debug, with the cross linker,
/// and JSON messages to find the artifact.
pub fn ta_build_command(config: &TaBuildConfig, env: &TaCommandEnv) -> (r: Result<CargoCommand, ToolError>)
    requires
        config.std ==> env.custom_target_dir is Some,
    ensures
        !config.std ==> r is Ok,
        r matches Ok(c) ==> c.current_dir@ == config.path@ && c.args.deep_view() == spec_ta_build_args(
            *config,
            *env,
        ) && c.envs.deep_view() == spec_ta_envs(*config, *env),
{
    proof {
        reveal_strlit("build");
        reveal_strlit("--release");
        reveal_strlit("--config");
        reveal_strlit("--message-format=json");
    }
    let mode = if config.std {
        BuildMode::TaStd
    } else {
        BuildMode::TaNoStd
    };
    let (target, cross_compile) = match resolve_target_and_cross_compile_with(
        config.arch,
        mode,
        env.cross_compile.clone(),
    ) {
        Ok(p) => p,
        Err(e) => return Err(e),
    };
    let mut cmd = match setup_build_command(config, "build", env) {
        Ok(c) => c,
        Err(e) => return Err(e),
    };
    if !config.debug {
        push_arg(&mut cmd, "--release");
    }
    let linker = linker_config(target.as_str(), cross_compile.as_str());
    push_arg(&mut cmd, "--config");
    push_arg(&mut cmd, linker.as_str());
    push_arg(&mut cmd, "--message-format=json");
    assert(cmd.args.deep_view() =~= spec_ta_build_args(*config, *env));
    Ok(cmd)
}

/// The lint plan of a TA: `cargo fmt` of the project, then clippy with the
/// target, features and environment of the build and the deny lints. No
/// signing key is involved.
pub fn clippy_ta(config: &TaBuildConfig, env: &TaCommandEnv) -> (r: Result<LintPlan, ToolError>)
    requires
        config.std ==> env.custom_target_dir is Some,
    ensures
        !config.std ==> r is Ok,
        r matches Ok(p) ==> p.fmt.current_dir@ == config.path@ && p.fmt.args.deep_view()
            == spec_fmt_args(config.path@) && p.fmt.envs.deep_view().len() == 0 && p.clippy.current_dir@
            == config.path@ && p.clippy.args.deep_view() == spec_ta_clippy_args(*config)
            && p.clippy.envs.deep_view() == spec_ta_envs(*config, *env),
        r matches Err(e) ==> config.std && (e is RustSrcUnset || (e matches ToolError::DoesNotExist {
            context,
            path,
        } && context@ == "__CARGO_TESTS_ONLY_SRC_ROOT"@ && path@ == env.rust_src->0@)),
{
    proof {
        reveal_strlit("clippy");
    }
    let fmt = fmt_command(config.path.as_str());
    let mut cmd = match setup_build_command(config, "clippy", env) {
        Ok(c) => c,
        Err(e) => return Err(e),
    };
    apply_clippy_deny_lints(&mut cmd);
    Ok(LintPlan { fmt, clippy: cmd })
}

/// The arguments of the cargo build of a TA.
pub open spec fn spec_ta_build_args(config: TaBuildConfig, env: TaCommandEnv) -> Seq<Seq<char>> {
    seq!["build"@] + spec_ta_package_args(config) + spec_build_flags(
        config.debug,
        spec_target_config(config.arch, spec_ta_mode(config.std)).0,
        spec_ta_cross_compile(config, env),
    )
}

/// The arguments of the clippy invocation of a TA.
pub open spec fn spec_ta_clippy_args(config: TaBuildConfig) -> Seq<Seq<char>> {
    seq!["clippy"@] + spec_ta_package_args(config) + spec_clippy_deny_args()
}

/// Clippy and build of a TA get the same package arguments (manifest,
/// build-std flags, target, `--no-default-features`, `--features`) right
/// after the command, and the same environment, so clippy lints the crate
/// graph that is built and signed.
pub proof fn lemma_ta_clippy_and_build_share_flags(
    config: TaBuildConfig,
    env: TaCommandEnv,
    clippy: CargoCommand,
    build: CargoCommand,
)
    requires
        clippy.args.deep_view() == spec_ta_clippy_args(config),
        clippy.envs.deep_view() == spec_ta_envs(config, env),
        build.args.deep_view() == spec_ta_build_args(config, env),
        build.envs.deep_view() == spec_ta_envs(config, env),
    ensures
        ({
            let n = spec_ta_package_args(config).len() as int;
            &&& clippy.args.deep_view().subrange(1, n + 1) == spec_ta_package_args(config)
            &&& build.args.deep_view().subrange(1, n + 1) == spec_ta_package_args(config)
        }),
        clippy.envs.deep_view() == build.envs.deep_view(),
{
    let n = spec_ta_package_args(config).len() as int;
    assert(clippy.args.deep_view().subrange(1, n + 1) =~= spec_ta_package_args(config));
    assert(build.args.deep_view().subrange(1, n + 1) =~= spec_ta_package_args(config));
}

/// The value an environment takes for `key`: the last assignment wins.
pub open spec fn spec_env_value(envs: Seq<(Seq<char>, Seq<char>)>, key: Seq<char>) -> Option<Seq<char>>
    decreases envs.len(),
{
    if envs.len() == 0 {
        None
    } else if envs.last().0 == key {
        Some(envs.last().1)
    } else {
        spec_env_value(envs.drop_last(), key)
    }
}

/// Every TA cargo invocation sets `CROSS_COMPILE` to the prefix of the
/// build, after the custom environment of the configuration, so C code in
/// dependencies is compiled for the target.
pub proof fn lemma_ta_commands_carry_cross_compile(config: TaBuildConfig, env: TaCommandEnv)
    ensures
        spec_env_value(spec_ta_envs(config, env), "CROSS_COMPILE"@) == Some(spec_ta_cross_compile(config, env)),
{
    reveal_strlit("CROSS_COMPILE");
    reveal_strlit("RUST_TARGET_PATH");
    reveal_strlit("__CARGO_TESTS_ONLY_SRC_ROOT");
    let envs = spec_ta_envs(config, env);
    let upto = envs.subrange(0, config.env@.len() + 3 as int);
    assert(config.env.deep_view().len() == config.env@.len());
    assert(upto.last() == ("CROSS_COMPILE"@, spec_ta_cross_compile(config, env)));
    if config.std {
        let e1 = envs.drop_last();
        assert(envs.last().0 == "__CARGO_TESTS_ONLY_SRC_ROOT"@);
        assert(envs.last().0[0] != "CROSS_COMPILE"@[0]);
        assert(e1.last().0 == "RUST_TARGET_PATH"@);
        assert(e1.last().0[0] != "CROSS_COMPILE"@[0]);
        assert(e1.drop_last() =~= upto);
        assert(spec_env_value(e1, "CROSS_COMPILE"@) == spec_env_value(upto, "CROSS_COMPILE"@));
    } else {
        assert(envs =~= upto);
    }
}

/// Strings joined with a separator between them.
pub open spec fn spec_join(items: Seq<Seq<char>>, sep: Seq<char>) -> Seq<char>
    decreases items.len(),
{
    if items.len() == 0 {
        Seq::empty()
    } else if items.len() == 1 {
        items[0]
    } else {
        spec_join(items.drop_last(), sep) + sep + items.last()
    }
}

/// Joins strings with a separator.
pub fn join_with(items: &Vec<String>, sep: &str) -> (s: String)
    ensures
        s@ == spec_join(items.deep_view(), sep@),
{
    let n = items.len();
    if n == 0 {
        return String::new();
    }
    let mut s = items[0].clone();
    let mut i: usize = 1;
    assert(items.deep_view().take(1) =~= seq![items.deep_view()[0]]);
    while i < n
        invariant
            n == items@.len(),
            1 <= i <= n,
            s@ == spec_join(items.deep_view().take(i as int), sep@),
        decreases n - i,
    {
        assert(items.deep_view().take(i + 1).drop_last() =~= items.deep_view().take(i as int));
        s = s.concat(sep).concat(items[i].as_str());
        i += 1;
    }
    assert(items.deep_view().take(n as int) =~= items.deep_view());
    s
}

/// The `KEY=VALUE` form of each environment entry.
pub open spec fn spec_env_assignments(envs: Seq<(Seq<char>, Seq<char>)>) -> Seq<Seq<char>> {
    envs.map_values(|e: (Seq<char>, Seq<char>)| e.0 + "="@ + e.1)
}

/// The lines printed before a cargo invocation runs: the description, the
/// environment it sets (when any), its working directory, and the command.
pub open spec fn spec_command_report(
    cmd: CargoCommand,
    program: Seq<char>,
    description: Seq<char>,
) -> Seq<Seq<char>> {
    seq![description + "..."@] + (if cmd.envs@.len() > 0 {
        seq!["  Environment: "@ + spec_join(spec_env_assignments(cmd.envs.deep_view()), " "@)]
    } else {
        Seq::empty()
    }) + seq![
        "  Working directory: "@ + cmd.current_dir@,
        "  Command: "@ + program + " "@ + spec_join(cmd.args.deep_view(), " "@),
    ]
}

/// The lines that describe a cargo invocation of `program`, for printing.
pub fn print_cargo_command(cmd: &CargoCommand, program: &str, description: &str) -> (lines: Vec<String>)
    ensures
        lines.deep_view() == spec_command_report(*cmd, program@, description@),
{
    proof {
        reveal_strlit("...");
        reveal_strlit("  Environment: ");
        reveal_strlit("=");
        reveal_strlit(" ");
        reveal_strlit("  Working directory: ");
        reveal_strlit("  Command: ");
    }
    let mut lines: Vec<String> = Vec::new();
    lines.push(String::from_str(description).concat("..."));
    let ghost first = lines.deep_view();
    let n = cmd.envs.len();
    if n != 0 {
        let mut assignments: Vec<String> = Vec::new();
        let mut i: usize = 0;
        while i < n
            invariant
                n == cmd.envs@.len(),
                i <= n,
                assignments.deep_view() == spec_env_assignments(cmd.envs.deep_view()).take(i as int),
            decreases n - i,
        {
            let (k, v) = &cmd.envs[i];
            assert(cmd.envs.deep_view()[i as int] == (k@, v@));
            let ghost before = assignments.deep_view();
            let a = k.clone().concat("=").concat(v.as_str());
            assert(a@ == spec_env_assignments(cmd.envs.deep_view())[i as int]);
            assignments.push(a);
            assert(assignments.deep_view() =~= before.push(a@));
            assert(assignments.deep_view() =~= spec_env_assignments(cmd.envs.deep_view()).take(i + 1));
            i += 1;
        }
        assert(assignments.deep_view() =~= spec_env_assignments(cmd.envs.deep_view()));
        let joined = join_with(&assignments, " ");
        lines.push(String::from_str("  Environment: ").concat(joined.as_str()));
    }
    let ghost mid = lines.deep_view();
    assert(mid =~= first + (if cmd.envs@.len() > 0 {
        seq!["  Environment: "@ + spec_join(spec_env_assignments(cmd.envs.deep_view()), " "@)]
    } else {
        Seq::<Seq<char>>::empty()
    }));
    lines.push(String::from_str("  Working directory: ").concat(cmd.current_dir.as_str()));
    let args = join_with(&cmd.args, " ");
    lines.push(String::from_str("  Command: ").concat(program).concat(" ").concat(args.as_str()));
    assert(lines.deep_view() =~= spec_command_report(*cmd, program@, description@));
    lines
}

/// The `cargo clean` invocation of a project.
pub fn clean_command(project_dir: &str) -> (c: CargoCommand)
    ensures
        c.current_dir@ == project_dir@,
        c.args.deep_view() == seq!["clean"@, "--manifest-path"@, spec_path_join(project_dir@, "Cargo.toml"@)],
        c.envs.deep_view().len() == 0,
{
    proof {
        reveal_strlit("clean");
        reveal_strlit("--manifest-path");
    }
    let mut cmd = cargo_command_in(project_dir);
    push_arg(&mut cmd, "clean");
    push_arg(&mut cmd, "--manifest-path");
    let manifest = manifest_path(project_dir);
    push_arg(&mut cmd, manifest.as_str());
    assert(cmd.args.deep_view() =~= seq!["clean"@, "--manifest-path"@, spec_path_join(project_dir@, "Cargo.toml"@)]);
    cmd
}

/// The intermediate directory of the tool in a project:
/// `<project>/target/cargo-optee`.
pub fn intermediate_dir(project_dir: &str) -> (p: String)
    ensures
        p@ == spec_path_join(spec_path_join(project_dir@, "target"@), "cargo-optee"@),
{
    let target = path_join(project_dir, "target");
    path_join(target.as_str(), "cargo-optee")
}

/// The names of the cross tools of a prefix: `<prefix>gcc` and
/// `<prefix>objcopy`.
pub fn toolchain_tools(cross_compile: &str) -> (r: (String, String))
    ensures
        r.0@ == cross_compile@ + "gcc"@,
        r.1@ == cross_compile@ + "objcopy"@,
{
    (String::from_str(cross_compile).concat("gcc"), String::from_str(cross_compile).concat("objcopy"))
}

/// The tools that were not found, in the order gcc, objcopy.
pub fn missing_tools(gcc: &str, gcc_found: bool, objcopy: &str, objcopy_found: bool) -> (r: Vec<String>)
    ensures
        r.deep_view() == (if gcc_found {
            Seq::<Seq<char>>::empty()
        } else {
            seq![gcc@]
        }) + (if objcopy_found {
            Seq::<Seq<char>>::empty()
        } else {
            seq![objcopy@]
        }),
{
    let mut r: Vec<String> = Vec::new();
    if !gcc_found {
        r.push(String::from_str(gcc));
    }
    let ghost first = r.deep_view();
    if !objcopy_found {
        r.push(String::from_str(objcopy));
    }
    assert(r.deep_view() =~= first + (if objcopy_found {
        Seq::<Seq<char>>::empty()
    } else {
        seq![objcopy@]
    }));
    r
}

/// The arguments of the objcopy call that strips `input` into `output`.
pub fn strip_args(input: &str, output: &str) -> (r: Vec<String>)
    ensures
        r.deep_view() == seq!["--strip-unneeded"@, input@, output@],
{
    proof {
        reveal_strlit("--strip-unneeded");
    }
    let mut r: Vec<String> = Vec::new();
    r.push(String::from_str("--strip-unneeded"));
    r.push(String::from_str(input));
    r.push(String::from_str(output));
    assert(r.deep_view() =~= seq!["--strip-unneeded"@, input@, output@]);
    r
}

/// The arguments of the `python3` call that signs a stripped TA with the
/// development kit's `sign_encrypt.py`.
pub fn sign_args(script: &str, uuid: &str, key: &str, input: &str, output: &str) -> (r: Vec<String>)
    ensures
        r.deep_view() == seq![script@, "--uuid"@, uuid@, "--key"@, key@, "--in"@, input@, "--out"@, output@],
{
    proof {
        reveal_strlit("--uuid");
        reveal_strlit("--key");
        reveal_strlit("--in");
        reveal_strlit("--out");
    }
    let mut r: Vec<String> = Vec::new();
    r.push(String::from_str(script));
    r.push(String::from_str("--uuid"));
    r.push(String::from_str(uuid));
    r.push(String::from_str("--key"));
    r.push(String::from_str(key));
    r.push(String::from_str("--in"));
    r.push(String::from_str(input));
    r.push(String::from_str("--out"));
    r.push(String::from_str(output));
    assert(r.deep_view() =~= seq![script@, "--uuid"@, uuid@, "--key"@, key@, "--in"@, input@, "--out"@, output@]);
    r
}

/// The file name of a signed TA: `<uuid>.ta`.
pub fn ta_file_name(uuid: &str) -> (r: String)
    ensures
        r@ == uuid@ + ".ta"@,
{
    String::from_str(uuid).concat(".ta")
}

/// The file name of an installed plugin: `<uuid>.plugin.so`.
pub fn plugin_file_name(uuid: &str) -> (r: String)
    ensures
        r@ == uuid@ + ".plugin.so"@,
{
    String::from_str(uuid).concat(".plugin.so")
}

/// The targets of an architecture form one family, named by the
/// architecture's own name `name` (the name the command line and metadata
/// accept for it): one cross-compile prefix `<name>-<os>-` for every build
/// mode, with `<os>` a GNU Linux system; client applications and no-std
/// TAs are built for the Linux target `<name>-unknown-<os>`, and only std
/// TAs for the OP-TEE target `<name>-unknown-optee`.
pub proof fn lemma_target_families(a: Arch)
    ensures
        ({
            let name = spec_arch_key(a);
            let cc = spec_target_config(a, BuildMode::Ca).1;
            let os = cc.subrange(name.len() + 1 as int, cc.len() - 1);
            &&& spec_arch_of_name(name) == Some(a)
            &&& spec_target_config(a, BuildMode::TaNoStd).1 == cc
            &&& spec_target_config(a, BuildMode::TaStd).1 == cc
            &&& name.len() + 1 < cc.len()
            &&& cc == name + "-"@ + os + "-"@
            &&& os.subrange(0, 9) == "linux-gnu"@
            &&& spec_target_config(a, BuildMode::Ca).0 == name + "-unknown-"@ + os
            &&& spec_target_config(a, BuildMode::TaNoStd).0 == name + "-unknown-"@ + os
            &&& spec_target_config(a, BuildMode::TaStd).0 == name + "-unknown-optee"@
        }),
{
    reveal_strlit("aarch64");
    reveal_strlit("arm64");
    reveal_strlit("arm");
    reveal_strlit("arm32");
    reveal_strlit("-");
    reveal_strlit("-unknown-");
    reveal_strlit("-unknown-optee");
    reveal_strlit("linux-gnu");
    reveal_strlit("arm-unknown-linux-gnueabihf");
    reveal_strlit("arm-linux-gnueabihf-");
    reveal_strlit("arm-unknown-optee");
    reveal_strlit("aarch64-unknown-linux-gnu");
    reveal_strlit("aarch64-linux-gnu-");
    reveal_strlit("aarch64-unknown-optee");
    let name = spec_arch_key(a);
    let cc = spec_target_config(a, BuildMode::Ca).1;
    let os = cc.subrange(name.len() + 1 as int, cc.len() - 1);
    assert(cc =~= name + "-"@ + os + "-"@);
    assert(os.subrange(0, 9) =~= "linux-gnu"@);
    assert(spec_target_config(a, BuildMode::Ca).0 =~= name + "-unknown-"@ + os);
    assert(spec_target_config(a, BuildMode::TaStd).0 =~= name + "-unknown-optee"@);
    match a {
        Arch::Aarch64 => {
            assert("arm64"@ != "aarch64"@);
        },
        Arch::Arm => {
            assert("arm"@ != "aarch64"@);
            assert("arm"@ != "arm64"@);
        },
    }
}

/// A std TA is built with the `std` feature ahead of the custom ones; the
/// custom features are the same with and without std, and none is empty.
pub proof fn lemma_std_feature_first(custom: Option<Seq<char>>)
    ensures
        spec_ta_features(true, custom) == seq!["std"@] + spec_ta_features(false, custom),
        spec_ta_features(true, custom)[0] == "std"@,
        custom is None ==> spec_ta_features(false, custom).len() == 0,
        forall|i: int|
            0 <= i < spec_ta_features(false, custom).len() ==> (#[trigger] spec_ta_features(false, custom)[i]).len()
                > 0,
{
    assert(spec_ta_features(true, custom) =~= seq!["std"@] + spec_ta_features(false, custom));
    assert(spec_ta_features(false, custom) =~= match custom {
        Some(c) => spec_nonempty_trimmed(spec_split_commas(c)),
        None => Seq::<Seq<char>>::empty(),
    });
    match custom {
        Some(c) => lemma_nonempty_trimmed(spec_split_commas(c)),
        None => {},
    }
}

/// The pieces kept are not empty.
proof fn lemma_nonempty_trimmed(pieces: Seq<Seq<char>>)
    ensures
        forall|i: int|
            0 <= i < spec_nonempty_trimmed(pieces).len() ==> (#[trigger] spec_nonempty_trimmed(pieces)[i]).len() > 0,
    decreases pieces.len(),
{
    if pieces.len() > 0 {
        lemma_nonempty_trimmed(pieces.drop_last());
        let rest = spec_nonempty_trimmed(pieces.drop_last());
        let r = spec_nonempty_trimmed(pieces);
        assert forall|i: int| 0 <= i < r.len() implies (#[trigger] r[i]).len() > 0 by {
            if i < rest.len() {
                assert(r[i] == rest[i]);
            }
        }
    }
}

/// A comma-joined list starts with its first item.
proof fn lemma_join_commas_prefix(items: Seq<Seq<char>>)
    requires
        items.len() >= 1,
    ensures
        spec_join_commas(items).len() >= items[0].len(),
        spec_join_commas(items).subrange(0, items[0].len() as int) == items[0],
    decreases items.len(),
{
    if items.len() > 1 {
        lemma_join_commas_prefix(items.drop_last());
        let j = spec_join_commas(items.drop_last());
        assert((j + ","@ + items.last()).subrange(0, items[0].len() as int) =~= j.subrange(0, items[0].len() as int));
    }
}

/// In the cargo arguments of a std TA, the last two are `--features` and a
/// comma-separated list that starts with `std`.
pub proof fn lemma_std_build_enables_std(config: TaBuildConfig)
    requires
        config.std,
    ensures
        ({
            let args = spec_ta_package_args(config);
            &&& args.len() >= 2
            &&& args[args.len() - 2] == "--features"@
            &&& args[args.len() - 1].len() >= 3
            &&& args[args.len() - 1].subrange(0, 3) == "std"@
        }),
{
    reveal_strlit("std");
    let features = spec_ta_features(config.std, config.features.deep_view());
    lemma_std_feature_first(config.features.deep_view());
    assert(features.len() > 0);
    lemma_join_commas_prefix(features);
    let args = spec_ta_package_args(config);
    let tail = seq!["--features"@, spec_join_commas(features)];
    assert(args.subrange(args.len() - 2, args.len() as int) =~= tail);
    assert(args[args.len() - 2] == tail[0]);
    assert(args[args.len() - 1] == tail[1]);
}

} // verus!
