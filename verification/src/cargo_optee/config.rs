//! Build configuration: what `[package.metadata.optee.<component>]` says,
//! and how it is merged with the command line and the environment.
//!
//! Priority, highest first: command line, Cargo.toml metadata, environment
//! variables, built-in defaults.
use vstd::prelude::*;

use super::common::{path_exists, path_is_dir, path_is_file, spec_arch_of_name, Arch};
use super::fmt::{
    debug_quote, debug_quoted, decimal, lowercase, path_debug_quote, path_debug_quoted, spec_decimal,
};
use crate::text::{
    contains_str, find_char, is_absolute, path_join, spec_contains, spec_is_absolute, spec_path_join,
    str_eq,
};

verus! {

/// A JSON value, as cargo reports package metadata.
#[derive(Debug)]
pub enum JsonValue {
    Null,
    Bool(bool),
    /// A number, in its textual form.
    Number(String),
    String(String),
    Array(Vec<JsonValue>),
    /// An object: its keys in order, each once.
    Object(Vec<(String, JsonValue)>),
}

/// The value of the first entry with key `key`.
pub open spec fn spec_lookup(entries: Seq<(String, JsonValue)>, key: Seq<char>) -> Option<JsonValue>
    decreases entries.len(),
{
    if entries.len() == 0 {
        None
    } else if entries[0].0@ == key {
        Some(entries[0].1)
    } else {
        spec_lookup(entries.drop_first(), key)
    }
}

/// The member `key` of an object; nothing for any other value.
pub open spec fn spec_get(v: JsonValue, key: Seq<char>) -> Option<JsonValue> {
    match v {
        JsonValue::Object(entries) => spec_lookup(entries@, key),
        _ => None,
    }
}

/// The text of a string value.
pub open spec fn spec_as_str(v: JsonValue) -> Option<Seq<char>> {
    match v {
        JsonValue::String(s) => Some(s@),
        _ => None,
    }
}

impl JsonValue {
    /// The member `key` of an object (`serde_json::Value::get` with a string
    /// key); `None` for a missing key or a value that is not an object.
    pub fn get(&self, key: &str) -> (r: Option<&JsonValue>)
        ensures
            r matches Some(v) ==> spec_get(*self, key@) == Some(*v),
            r is None ==> spec_get(*self, key@) is None,
    {
        match self {
            JsonValue::Object(entries) => {
                let k = String::from_str(key);
                let n = entries.len();
                let mut i: usize = 0;
                assert(entries@.skip(0) =~= entries@);
                while i < n
                    invariant
                        *self == JsonValue::Object(*entries),
                        n == entries@.len(),
                        i <= n,
                        k@ == key@,
                        spec_lookup(entries@, key@) == spec_lookup(entries@.skip(i as int), key@),
                    decreases n - i,
                {
                    let entry = &entries[i];
                    assert(entries@.skip(i as int)[0] == entries@[i as int]);
                    if entry.0 == k {
                        return Some(&entry.1);
                    }
                    assert(entries@.skip(i as int).drop_first() =~= entries@.skip(i + 1));
                    i += 1;
                }
                None
            },
            _ => None,
        }
    }

    /// The text of a string value.
    pub fn as_str(&self) -> (r: Option<&str>)
        ensures
            r matches Some(s) ==> spec_as_str(*self) == Some(s@),
            r is None ==> spec_as_str(*self) is None,
    {
        match self {
            JsonValue::String(s) => Some(s.as_str()),
            _ => None,
        }
    }

    /// The value of a boolean.
    pub fn as_bool(&self) -> (r: Option<bool>)
        ensures
            r == (match *self {
                JsonValue::Bool(b) => Some(b),
                _ => None,
            }),
    {
        match self {
            JsonValue::Bool(b) => Some(*b),
            _ => None,
        }
    }
}

/// Component type of an OP-TEE build.
#[derive(Clone, Copy, Debug, PartialEq, Eq, Structural)]
pub enum ComponentType {
    /// Trusted application.
    Ta,
    /// Client application.
    Ca,
    /// Plugin (shared library).
    Plugin,
}

impl ComponentType {
    /// The metadata table name of the component.
    pub open spec fn spec_name(self) -> Seq<char> {
        match self {
            ComponentType::Ta => "ta"@,
            ComponentType::Ca => "ca"@,
            ComponentType::Plugin => "plugin"@,
        }
    }

    /// The name under `[package.metadata.optee]`: `ta`, `ca` or `plugin`.
    pub fn as_str(&self) -> (s: &'static str)
        ensures
            s@ == self.spec_name(),
    {
        proof {
            reveal_strlit("ta");
            reveal_strlit("ca");
            reveal_strlit("plugin");
        }
        match self {
            ComponentType::Ta => "ta",
            ComponentType::Ca => "ca",
            ComponentType::Plugin => "plugin",
        }
    }
}

/// An error in the build configuration.
#[derive(Debug)]
pub enum ConfigError {
    /// The removed `uuid-path` key is present.
    UuidPathUnsupported(ComponentType),
    /// `arch` in metadata is not a string.
    ArchNotString,
    /// `arch` in metadata is not an architecture name.
    InvalidArch { value: String, reason: String },
    /// A flag in metadata is not a boolean.
    NotBoolean(String),
    /// No TA development kit is configured.
    TaDevKitDirMissing,
    /// No OP-TEE client export is configured.
    OpteeClientExportMissing,
    /// A configured path does not exist.
    PathDoesNotExist { context: String, path: String },
    /// A configured directory is not a directory.
    NotADirectory { context: String, path: String },
    /// A configured file is not a file.
    NotAFile { context: String, path: String },
}

/// The abstract form of a [`ConfigError`].
pub enum ConfigErrorView {
    UuidPathUnsupported(ComponentType),
    ArchNotString,
    InvalidArch { value: Seq<char>, reason: Seq<char> },
    NotBoolean(Seq<char>),
    TaDevKitDirMissing,
    OpteeClientExportMissing,
    PathDoesNotExist { context: Seq<char>, path: Seq<char> },
    NotADirectory { context: Seq<char>, path: Seq<char> },
    NotAFile { context: Seq<char>, path: Seq<char> },
}

impl View for ConfigError {
    type V = ConfigErrorView;

    open spec fn view(&self) -> ConfigErrorView {
        match self {
            ConfigError::UuidPathUnsupported(c) => ConfigErrorView::UuidPathUnsupported(*c),
            ConfigError::ArchNotString => ConfigErrorView::ArchNotString,
            ConfigError::InvalidArch { value, reason } => ConfigErrorView::InvalidArch {
                value: value@,
                reason: reason@,
            },
            ConfigError::NotBoolean(k) => ConfigErrorView::NotBoolean(k@),
            ConfigError::TaDevKitDirMissing => ConfigErrorView::TaDevKitDirMissing,
            ConfigError::OpteeClientExportMissing => ConfigErrorView::OpteeClientExportMissing,
            ConfigError::PathDoesNotExist { context, path } => ConfigErrorView::PathDoesNotExist {
                context: context@,
                path: path@,
            },
            ConfigError::NotADirectory { context, path } => ConfigErrorView::NotADirectory {
                context: context@,
                path: path@,
            },
            ConfigError::NotAFile { context, path } => ConfigErrorView::NotAFile {
                context: context@,
                path: path@,
            },
        }
    }
}

/// Build configuration read from Cargo.toml metadata only.
#[derive(Debug)]
pub struct MetadataConfig {
    pub arch: Arch,
    pub debug: bool,
    pub std: bool,
    pub ta_dev_kit_dir: Option<String>,
    pub optee_client_export: Option<String>,
    pub signing_key: Option<String>,
    /// Environment entries `KEY=VALUE` for the build commands.
    pub env: Vec<(String, String)>,
    /// Environment entries without `=`, which are skipped with a warning.
    pub invalid_env: Vec<String>,
}

/// The abstract form of a [`MetadataConfig`].
pub struct MetadataView {
    pub arch: Arch,
    pub debug: bool,
    pub std: bool,
    pub ta_dev_kit_dir: Option<Seq<char>>,
    pub optee_client_export: Option<Seq<char>>,
    pub signing_key: Option<Seq<char>>,
    pub env: Seq<(Seq<char>, Seq<char>)>,
    pub invalid_env: Seq<Seq<char>>,
}

impl View for MetadataConfig {
    type V = MetadataView;

    open spec fn view(&self) -> MetadataView {
        MetadataView {
            arch: self.arch,
            debug: self.debug,
            std: self.std,
            ta_dev_kit_dir: self.ta_dev_kit_dir.deep_view(),
            optee_client_export: self.optee_client_export.deep_view(),
            signing_key: self.signing_key.deep_view(),
            env: self.env.deep_view(),
            invalid_env: self.invalid_env.deep_view(),
        }
    }
}

/// A flag of the metadata table: missing is `false`, anything but a
/// boolean is an error.
pub open spec fn spec_metadata_bool(table: JsonValue, key: Seq<char>) -> Result<bool, ConfigErrorView> {
    match spec_get(table, key) {
        None => Ok(false),
        Some(JsonValue::Bool(b)) => Ok(b),
        Some(_) => Err(ConfigErrorView::NotBoolean(key)),
    }
}

/// Reads a flag of the metadata table: missing is `false`, anything but a
/// boolean is `metadata key <key> must be a boolean`.
pub fn metadata_bool(table: &JsonValue, key: &str) -> (r: Result<bool, ConfigError>)
    ensures
        match r {
            Ok(b) => spec_metadata_bool(*table, key@) == Ok::<bool, ConfigErrorView>(b),
            Err(e) => spec_metadata_bool(*table, key@) == Err::<bool, ConfigErrorView>(e@),
        },
{
    match table.get(key) {
        None => Ok(false),
        Some(v) => match v.as_bool() {
            Some(b) => Ok(b),
            None => Err(ConfigError::NotBoolean(String::from_str(key))),
        },
    }
}

/// A string that is not empty.
pub open spec fn spec_non_empty(s: Option<Seq<char>>) -> Option<Seq<char>> {
    match s {
        Some(t) if t.len() > 0 => Some(t),
        _ => None,
    }
}

/// An architecture-specific path setting: a table keyed by architecture
/// name, or one string for all architectures. A key whose value is not a
/// string gives nothing; an empty string gives nothing.
pub open spec fn spec_arch_path(setting: Option<JsonValue>, arch_key: Seq<char>) -> Option<Seq<char>> {
    spec_non_empty(
        match setting {
            None => None,
            Some(v) => match spec_get(v, arch_key) {
                Some(av) => spec_as_str(av),
                None => spec_as_str(v),
            },
        },
    )
}

/// Reads an architecture-specific path setting.
fn arch_path(setting: Option<&JsonValue>, arch_key: &str) -> (r: Option<String>)
    ensures
        r.deep_view() == spec_arch_path(
            match setting {
                Some(v) => Some(*v),
                None => None,
            },
            arch_key@,
        ),
{
    match setting {
        None => None,
        Some(v) => {
            let s = match v.get(arch_key) {
                Some(av) => av.as_str(),
                None => v.as_str(),
            };
            match s {
                Some(t) if t.unicode_len() > 0 => Some(String::from_str(t)),
                _ => None,
            }
        },
    }
}

/// One entry of the `env` array: `KEY=VALUE` split at the first `=`, or
/// the text itself when it has none. Non-strings are ignored.
pub open spec fn spec_env_entry(item: JsonValue) -> Option<Result<(Seq<char>, Seq<char>), Seq<char>>> {
    match item {
        JsonValue::String(s) => {
            let t = s@;
            if exists|i: int| 0 <= i < t.len() && t[i] == '=' {
                let i = choose|i: int| 0 <= i < t.len() && t[i] == '=' && forall|k: int| 0 <= k < i ==> t[k] != '=';
                Some(Ok((t.take(i), t.skip(i + 1))))
            } else {
                Some(Err(t))
            }
        },
        _ => None,
    }
}

/// The `KEY=VALUE` pairs of the `env` array, in order.
pub open spec fn spec_env_pairs(items: Seq<JsonValue>) -> Seq<(Seq<char>, Seq<char>)>
    decreases items.len(),
{
    if items.len() == 0 {
        Seq::empty()
    } else {
        let rest = spec_env_pairs(items.drop_last());
        match spec_env_entry(items.last()) {
            Some(Ok(p)) => rest.push(p),
            _ => rest,
        }
    }
}

/// The entries of the `env` array that have no `=`, in order.
pub open spec fn spec_env_invalid(items: Seq<JsonValue>) -> Seq<Seq<char>>
    decreases items.len(),
{
    if items.len() == 0 {
        Seq::empty()
    } else {
        let rest = spec_env_invalid(items.drop_last());
        match spec_env_entry(items.last()) {
            Some(Err(t)) => rest.push(t),
            _ => rest,
        }
    }
}

/// The items of the `env` setting: empty unless it is an array.
pub open spec fn spec_env_items(setting: Option<JsonValue>) -> Seq<JsonValue> {
    match setting {
        Some(JsonValue::Array(items)) => items@,
        _ => Seq::empty(),
    }
}

/// Splits one environment entry at its first `=`.
fn env_entry(item: &JsonValue) -> (r: Option<Result<(String, String), String>>)
    ensures
        match r {
            None => spec_env_entry(*item) is None,
            Some(Ok((k, v))) => spec_env_entry(*item) == Some(
                Ok::<(Seq<char>, Seq<char>), Seq<char>>((k@, v@)),
            ),
            Some(Err(t)) => spec_env_entry(*item) == Some(Err::<(Seq<char>, Seq<char>), Seq<char>>(t@)),
        },
{
    match item {
        JsonValue::String(s) => {
            let t = s.as_str();
            match find_char(t, '=') {
                Some(i) => {
                    let n = t.unicode_len();
                    let key = t.substring_char(0, i);
                    let value = t.substring_char(i + 1, n);
                    proof {
                        let w = choose|w: int| 0 <= w < t@.len() && t@[w] == '=' && forall|k: int|
                            0 <= k < w ==> t@[k] != '=';
                        assert(t@[i as int] == '=');
                        if w < i {
                            assert(t@[w] != '=');
                        }
                        if i < w {
                            assert(t@[i as int] != '=');
                        }
                        assert(t@.take(i as int) =~= t@.subrange(0, i as int));
                        assert(t@.skip(i + 1) =~= t@.subrange(i + 1, n as int));
                    }
                    Some(Ok((String::from_str(key), String::from_str(value))))
                },
                None => Some(Err(String::from_str(t))),
            }
        },
        _ => None,
    }
}

/// Reads the `env` setting.
fn env_settings(setting: Option<&JsonValue>) -> (r: (Vec<(String, String)>, Vec<String>))
    ensures
        r.0.deep_view() == spec_env_pairs(spec_env_items(
            match setting {
                Some(v) => Some(*v),
                None => None,
            },
        )),
        r.1.deep_view() == spec_env_invalid(spec_env_items(
            match setting {
                Some(v) => Some(*v),
                None => None,
            },
        )),
{
    let mut pairs: Vec<(String, String)> = Vec::new();
    let mut invalid: Vec<String> = Vec::new();
    match setting {
        Some(JsonValue::Array(items)) => {
            let n = items.len();
            let mut i: usize = 0;
            while i < n
                invariant
                    n == items@.len(),
                    i <= n,
                    pairs.deep_view() == spec_env_pairs(items@.take(i as int)),
                    invalid.deep_view() == spec_env_invalid(items@.take(i as int)),
                decreases n - i,
            {
                let e = env_entry(&items[i]);
                proof {
                    assert(items@.take(i + 1).drop_last() =~= items@.take(i as int));
                }
                match e {
                    Some(Ok(p)) => {
                        pairs.push(p);
                    },
                    Some(Err(t)) => {
                        invalid.push(t);
                    },
                    None => {},
                }
                assert(pairs.deep_view() =~= spec_env_pairs(items@.take(i + 1)));
                assert(invalid.deep_view() =~= spec_env_invalid(items@.take(i + 1)));
                i += 1;
            }
            assert(items@.take(n as int) =~= items@);
        },
        _ => {},
    }
    (pairs, invalid)
}

/// The architecture of a metadata table: the command line wins; then the
/// `arch` string; then `aarch64`.
pub open spec fn spec_metadata_arch(table: JsonValue, cmd_arch: Option<Arch>) -> Result<Arch, ConfigErrorView> {
    match cmd_arch {
        Some(a) => Ok(a),
        None => match spec_get(table, "arch"@) {
            None => Ok(Arch::Aarch64),
            Some(v) => match spec_as_str(v) {
                None => Err(ConfigErrorView::ArchNotString),
                Some(s) => match spec_arch_of_name(lowercase(s)) {
                    Some(a) => Ok(a),
                    None => Err(
                        ConfigErrorView::InvalidArch { value: s, reason: "Invalid architecture: "@ + s },
                    ),
                },
            },
        },
    }
}

/// The key of an architecture in architecture-specific settings.
pub open spec fn spec_arch_key(arch: Arch) -> Seq<char> {
    match arch {
        Arch::Aarch64 => "aarch64"@,
        Arch::Arm => "arm"@,
    }
}

/// The metadata table `[package.metadata.optee.<component>]`, if any.
pub open spec fn spec_component_table(metadata: JsonValue, component: ComponentType) -> Option<JsonValue> {
    match spec_get(metadata, "optee"@) {
        None => None,
        Some(optee) => spec_get(optee, component.spec_name()),
    }
}

/// What the metadata table of a component configures, once its
/// architecture and flags are known.
pub open spec fn spec_metadata_view(
    table: JsonValue,
    component: ComponentType,
    arch: Arch,
    debug: bool,
    std: bool,
) -> MetadataView {
    MetadataView {
        arch,
        debug,
        std,
        ta_dev_kit_dir: if component == ComponentType::Ta {
            spec_arch_path(spec_get(table, "ta-dev-kit-dir"@), spec_arch_key(arch))
        } else {
            None
        },
        optee_client_export: if component == ComponentType::Ca || component == ComponentType::Plugin {
            spec_arch_path(spec_get(table, "optee-client-export"@), spec_arch_key(arch))
        } else {
            None
        },
        signing_key: if component == ComponentType::Ta {
            spec_non_empty(
                match spec_get(table, "signing-key"@) {
                    Some(v) => spec_as_str(v),
                    None => None,
                },
            )
        } else {
            None
        },
        env: spec_env_pairs(spec_env_items(spec_get(table, "env"@))),
        invalid_env: spec_env_invalid(spec_env_items(spec_get(table, "env"@))),
    }
}

/// The build configuration package metadata gives for a component:
/// nothing without a table; an error for the removed `uuid-path` key, a
/// bad `arch`, or a flag that is not a boolean.
pub open spec fn spec_extract_build_config(
    metadata: JsonValue,
    component: ComponentType,
    cmd_arch: Option<Arch>,
) -> Result<Option<MetadataView>, ConfigErrorView> {
    match spec_component_table(metadata, component) {
        None => Ok(None),
        Some(table) => if spec_get(table, "uuid-path"@) is Some {
            Err(ConfigErrorView::UuidPathUnsupported(component))
        } else {
            match spec_metadata_arch(table, cmd_arch) {
                Err(e) => Err(e),
                Ok(arch) => match spec_metadata_bool(table, "debug"@) {
                    Err(e) => Err(e),
                    Ok(debug) => match spec_metadata_bool(table, "std"@) {
                        Err(e) => Err(e),
                        Ok(std) => Ok(Some(spec_metadata_view(table, component, arch, debug, std))),
                    },
                },
            }
        },
    }
}

/// The abstract form of a metadata result.
pub open spec fn spec_metadata_result(
    r: Result<Option<MetadataConfig>, ConfigError>,
) -> Result<Option<MetadataView>, ConfigErrorView> {
    match r {
        Ok(Some(c)) => Ok(Some(c@)),
        Ok(None) => Ok(None),
        Err(e) => Err(e@),
    }
}

/// Reads the architecture of a metadata table.
fn metadata_arch(table: &JsonValue, cmd_arch: Option<Arch>) -> (r: Result<Arch, ConfigError>)
    ensures
        match r {
            Ok(a) => spec_metadata_arch(*table, cmd_arch) == Ok::<Arch, ConfigErrorView>(a),
            Err(e) => spec_metadata_arch(*table, cmd_arch) == Err::<Arch, ConfigErrorView>(e@),
        },
{
    match cmd_arch {
        Some(a) => Ok(a),
        None => match table.get("arch") {
            None => Ok(Arch::Aarch64),
            Some(v) => match v.as_str() {
                None => Err(ConfigError::ArchNotString),
                Some(s) => match Arch::parse(s) {
                    Ok(a) => Ok(a),
                    Err(reason) => Err(ConfigError::InvalidArch { value: String::from_str(s), reason }),
                },
            },
        },
    }
}

/// Extracts the build configuration of a component from package metadata.
/// `Ok(None)` when the package has no `[package.metadata.optee.<component>]`
/// table.
pub fn extract_build_config(
    metadata: &JsonValue,
    component_type: ComponentType,
    cmd_arch: Option<Arch>,
) -> (r: Result<Option<MetadataConfig>, ConfigError>)
    ensures
        spec_metadata_result(r) == spec_extract_build_config(*metadata, component_type, cmd_arch),
{
    let optee_metadata = match metadata.get("optee") {
        Some(v) => v,
        None => return Ok(None),
    };
    let component_metadata = match optee_metadata.get(component_type.as_str()) {
        Some(v) => v,
        None => return Ok(None),
    };
    if component_metadata.get("uuid-path").is_some() {
        return Err(ConfigError::UuidPathUnsupported(component_type));
    }
    let arch = match metadata_arch(component_metadata, cmd_arch) {
        Ok(a) => a,
        Err(e) => return Err(e),
    };
    let debug = match metadata_bool(component_metadata, "debug") {
        Ok(b) => b,
        Err(e) => return Err(e),
    };
    let std = match metadata_bool(component_metadata, "std") {
        Ok(b) => b,
        Err(e) => return Err(e),
    };
    proof {
        reveal_strlit("aarch64");
        reveal_strlit("arm");
    }
    let arch_key = match arch {
        Arch::Aarch64 => "aarch64",
        Arch::Arm => "arm",
    };
    let ta_dev_kit_dir = if component_type == ComponentType::Ta {
        arch_path(component_metadata.get("ta-dev-kit-dir"), arch_key)
    } else {
        None
    };
    let optee_client_export = if component_type == ComponentType::Ca || component_type
        == ComponentType::Plugin {
        arch_path(component_metadata.get("optee-client-export"), arch_key)
    } else {
        None
    };
    let signing_key = if component_type == ComponentType::Ta {
        match component_metadata.get("signing-key") {
            Some(v) => match v.as_str() {
                Some(t) if t.unicode_len() > 0 => Some(String::from_str(t)),
                _ => None,
            },
            None => None,
        }
    } else {
        None
    };
    let (env, invalid_env) = env_settings(component_metadata.get("env"));
    let config = MetadataConfig {
        arch,
        debug,
        std,
        ta_dev_kit_dir,
        optee_client_export,
        signing_key,
        env,
        invalid_env,
    };
    assert(config@ == spec_metadata_view(*component_metadata, component_type, arch, debug, std));
    Ok(Some(config))
}

impl MetadataConfig {
    /// The build configuration that package metadata gives for a component;
    /// `Ok(None)` when the package has no table for it. The metadata is what
    /// `cargo metadata` reports for the package.
    pub fn resolve(
        package_metadata: &JsonValue,
        component_type: ComponentType,
        cmd_arch: Option<Arch>,
    ) -> (r: Result<Option<Self>, ConfigError>)
        ensures
            spec_metadata_result(r) == spec_extract_build_config(
                *package_metadata,
                component_type,
                cmd_arch,
            ),
    {
        extract_build_config(package_metadata, component_type, cmd_arch)
    }
}

/// Selects the package of a `cargo metadata` report whose metadata
/// configures the build: the root package when there is one, else (in a
/// workspace) the first package whose manifest path contains the project's
/// manifest path.
pub fn select_package(root: Option<usize>, manifest_paths: &Vec<String>, cargo_toml: &str) -> (r: Option<usize>)
    ensures
        root is Some ==> r == root,
        root is None ==> match r {
            Some(i) => i < manifest_paths@.len() && spec_contains(manifest_paths.deep_view()[i as int], cargo_toml@)
                && forall|k: int| 0 <= k < i ==> !spec_contains(manifest_paths.deep_view()[k], cargo_toml@),
            None => forall|k: int|
                0 <= k < manifest_paths@.len() ==> !spec_contains(manifest_paths.deep_view()[k], cargo_toml@),
        },
{
    if root.is_some() {
        return root;
    }
    let n = manifest_paths.len();
    let mut i: usize = 0;
    while i < n
        invariant
            n == manifest_paths@.len(),
            i <= n,
            root is None,
            forall|k: int| 0 <= k < i ==> !spec_contains(manifest_paths.deep_view()[k], cargo_toml@),
        decreases n - i,
    {
        if contains_str(manifest_paths[i].as_str(), cargo_toml) {
            return Some(i);
        }
        i += 1;
    }
    None
}

/// Whether a configured path must be a directory or a file.
#[derive(Clone, Copy, Debug, PartialEq, Eq, Structural)]
pub enum PathType {
    Directory,
    File,
}

/// The errors a configured path can give: it does not exist, or it is not
/// of the expected kind; each names the context and the resolved path.
pub open spec fn spec_path_error(
    e: ConfigErrorView,
    error_context: Seq<char>,
    resolved: Seq<char>,
    path_type: PathType,
) -> bool {
    match e {
        ConfigErrorView::PathDoesNotExist { context, path } => context == error_context && path == resolved,
        ConfigErrorView::NotADirectory { context, path } => path_type == PathType::Directory && context
            == error_context && path == resolved,
        ConfigErrorView::NotAFile { context, path } => path_type == PathType::File && context == error_context
            && path == resolved,
        _ => false,
    }
}

/// The outcome of checking a resolved path, given what the disk answered:
/// whether it exists and, if so, whether it is of the expected kind.
pub open spec fn spec_path_check(
    resolved: Seq<char>,
    path_type: PathType,
    error_context: Seq<char>,
    exists: bool,
    is_kind: bool,
) -> Result<Seq<char>, ConfigErrorView> {
    if !exists {
        Err(ConfigErrorView::PathDoesNotExist { context: error_context, path: resolved })
    } else if !is_kind {
        match path_type {
            PathType::Directory => Err(ConfigErrorView::NotADirectory { context: error_context, path: resolved }),
            PathType::File => Err(ConfigErrorView::NotAFile { context: error_context, path: resolved }),
        }
    } else {
        Ok(resolved)
    }
}

/// The abstract form of a path result.
pub open spec fn spec_path_result(r: Result<String, ConfigError>) -> Result<Seq<char>, ConfigErrorView> {
    match r {
        Ok(p) => Ok(p@),
        Err(e) => Err(e@),
    }
}

/// Decides on a resolved path from what the disk answered: `exists`, and
/// `is_kind` (a directory or a file, as `path_type` asks).
pub fn check_path_kind(
    resolved: String,
    path_type: PathType,
    error_context: &str,
    exists: bool,
    is_kind: bool,
) -> (r: Result<String, ConfigError>)
    ensures
        spec_path_result(r) == spec_path_check(resolved@, path_type, error_context@, exists, is_kind),
{
    if !exists {
        return Err(ConfigError::PathDoesNotExist { context: String::from_str(error_context), path: resolved });
    }
    if !is_kind {
        return match path_type {
            PathType::Directory => Err(
                ConfigError::NotADirectory { context: String::from_str(error_context), path: resolved },
            ),
            PathType::File => Err(ConfigError::NotAFile { context: String::from_str(error_context), path: resolved }),
        };
    }
    Ok(resolved)
}

/// Resolves a configured path against the project directory (an absolute
/// path stays as it is) and checks on disk that it exists and is a
/// directory or a file as expected: whatever the disk answered, the outcome
/// is [`check_path_kind`]'s for the join and those answers.
pub fn resolve_path_relative_to_project(
    path: &str,
    project_path: &str,
    path_type: PathType,
    error_context: &str,
) -> (r: Result<String, ConfigError>)
    ensures
        exists|found: bool, kind_ok: bool|
            spec_path_result(r) == #[trigger] spec_path_check(
                spec_path_join(project_path@, path@),
                path_type,
                error_context@,
                found,
                kind_ok,
            ),
        r matches Ok(p) ==> p@ == spec_path_join(project_path@, path@),
        r matches Err(e) ==> spec_path_error(e@, error_context@, spec_path_join(project_path@, path@), path_type),
{
    let resolved = if is_absolute(path) {
        String::from_str(path)
    } else {
        path_join(project_path, path)
    };
    let exists = path_exists(resolved.as_str());
    let is_kind = if exists {
        match path_type {
            PathType::Directory => path_is_dir(resolved.as_str()),
            PathType::File => path_is_file(resolved.as_str()),
        }
    } else {
        false
    };
    let r = check_path_kind(resolved, path_type, error_context, exists, is_kind);
    assert(spec_path_result(r) == spec_path_check(
        spec_path_join(project_path@, path@),
        path_type,
        error_context@,
        exists,
        is_kind,
    ));
    r
}

/// Overrides from the command line, shared by TA and CA/plugin resolution.
pub struct BuildOverrides {
    pub arch: Option<Arch>,
    pub debug: Option<bool>,
    pub env: Vec<(String, String)>,
    pub no_default_features: bool,
    pub features: Option<String>,
}

/// The environment variables the configuration falls back on, as read by
/// the caller: `TA_DEV_KIT_DIR`, `TA_SIGN_KEY`, `OPTEE_CLIENT_EXPORT`.
pub struct ConfigEnv {
    pub ta_dev_kit_dir: Option<String>,
    pub ta_sign_key: Option<String>,
    pub optee_client_export: Option<String>,
}

/// The first of three optional values that is present.
pub open spec fn spec_first<T>(a: Option<T>, b: Option<T>, c: Option<T>) -> Option<T> {
    match a {
        Some(x) => Some(x),
        None => match b {
            Some(x) => Some(x),
            None => c,
        },
    }
}

/// The first of two optional values that is present, else a default.
pub open spec fn spec_or_default<T>(a: Option<T>, b: Option<T>, d: T) -> T {
    match a {
        Some(x) => x,
        None => match b {
            Some(x) => x,
            None => d,
        },
    }
}

/// The resolved configuration of a trusted-application build.
#[derive(Debug)]
pub struct TaBuildConfig {
    pub arch: Arch,
    pub debug: bool,
    pub path: String,
    pub env: Vec<(String, String)>,
    pub no_default_features: bool,
    pub features: Option<String>,
    pub std: bool,
    pub ta_dev_kit_dir: String,
    /// Empty when no signing key is needed (linting).
    pub signing_key: String,
}

/// The metadata value of a field, when the metadata has a table.
pub open spec fn spec_md<T>(md: Option<MetadataView>, f: spec_fn(MetadataView) -> T) -> Option<T> {
    match md {
        Some(m) => Some(f(m)),
        None => None,
    }
}

/// The configured TA development kit: command line, metadata, environment.
pub open spec fn spec_ta_dev_kit_config(
    cmd: Option<String>,
    md: Option<MetadataView>,
    env: ConfigEnv,
) -> Option<Seq<char>> {
    spec_first(
        cmd.deep_view(),
        match md {
            Some(m) => m.ta_dev_kit_dir,
            None => None,
        },
        env.ta_dev_kit_dir.deep_view(),
    )
}

/// The configured signing key: command line, metadata, environment, then
/// `keys/default_ta.pem` in the configured development kit.
pub open spec fn spec_signing_key_config(
    cmd: Option<String>,
    md: Option<MetadataView>,
    env: ConfigEnv,
    dev_kit: Seq<char>,
) -> Seq<char> {
    match spec_first(
        cmd.deep_view(),
        match md {
            Some(m) => m.signing_key,
            None => None,
        },
        env.ta_sign_key.deep_view(),
    ) {
        Some(k) => k,
        None => spec_path_join(spec_path_join(dev_kit, "keys"@), "default_ta.pem"@),
    }
}

impl TaBuildConfig {
    /// Resolves the configuration of a TA build in the project directory
    /// `project_path`, from the command line, the package metadata (as
    /// `cargo metadata` reports it) and the environment. The development kit
    /// must be configured and be a directory; the signing key, when needed,
    /// must be a file.
    pub fn resolve(
        project_path: &str,
        overrides: BuildOverrides,
        cmd_std: Option<bool>,
        cmd_ta_dev_kit_dir: Option<String>,
        cmd_signing_key: Option<String>,
        need_signing_key: bool,
        package_metadata: &JsonValue,
        env: &ConfigEnv,
    ) -> (r: Result<Self, ConfigError>)
        ensures
            spec_extract_build_config(*package_metadata, ComponentType::Ta, overrides.arch) matches Err(e)
                ==> r matches Err(re) && re@ == e,
            spec_extract_build_config(*package_metadata, ComponentType::Ta, overrides.arch) matches Ok(md)
                ==> {
                &&& spec_ta_dev_kit_config(cmd_ta_dev_kit_dir, md, *env) is None ==> (r matches Err(e)
                    && e@ == ConfigErrorView::TaDevKitDirMissing)
                &&& spec_ta_dev_kit_config(cmd_ta_dev_kit_dir, md, *env) matches Some(dev_kit) ==> (r matches Err(
                    e,
                ) ==> spec_path_error(
                    e@,
                    "TA development kit directory"@,
                    spec_path_join(project_path@, dev_kit),
                    PathType::Directory,
                ) || (need_signing_key && spec_path_error(
                    e@,
                    "Signing key file"@,
                    spec_path_join(project_path@, spec_signing_key_config(cmd_signing_key, md, *env, dev_kit)),
                    PathType::File,
                )))
                &&& r matches Ok(c) ==> {
                    let dev_kit = spec_ta_dev_kit_config(cmd_ta_dev_kit_dir, md, *env)->0;
                    &&& c.arch == spec_or_default(overrides.arch, spec_md(md, |m: MetadataView| m.arch), Arch::Aarch64)
                    &&& c.debug == spec_or_default(overrides.debug, spec_md(md, |m: MetadataView| m.debug), false)
                    &&& c.std == spec_or_default(cmd_std, spec_md(md, |m: MetadataView| m.std), false)
                    &&& c.ta_dev_kit_dir@ == spec_path_join(project_path@, dev_kit)
                    &&& c.signing_key@ == (if need_signing_key {
                        spec_path_join(project_path@, spec_signing_key_config(cmd_signing_key, md, *env, dev_kit))
                    } else {
                        Seq::<char>::empty()
                    })
                    &&& c.path@ == project_path@
                    &&& c.env.deep_view() == (match md {
                        Some(m) => m.env,
                        None => Seq::empty(),
                    }) + overrides.env.deep_view()
                    &&& c.no_default_features == overrides.no_default_features
                    &&& c.features == overrides.features
                }
            },
    {
        let metadata_config = match MetadataConfig::resolve(package_metadata, ComponentType::Ta, overrides.arch) {
            Ok(m) => m,
            Err(e) => return Err(e),
        };
        let arch = match overrides.arch {
            Some(a) => a,
            None => match &metadata_config {
                Some(c) => c.arch,
                None => Arch::Aarch64,
            },
        };
        let debug = match overrides.debug {
            Some(d) => d,
            None => match &metadata_config {
                Some(c) => c.debug,
                None => false,
            },
        };
        let std = match cmd_std {
            Some(s) => s,
            None => match &metadata_config {
                Some(c) => c.std,
                None => false,
            },
        };
        let md_dev_kit = match &metadata_config {
            Some(c) => c.ta_dev_kit_dir.clone(),
            None => None,
        };
        let ta_dev_kit_dir_config = match cmd_ta_dev_kit_dir {
            Some(p) => p,
            None => match md_dev_kit {
                Some(p) => p,
                None => match &env.ta_dev_kit_dir {
                    Some(p) => p.clone(),
                    None => return Err(ConfigError::TaDevKitDirMissing),
                },
            },
        };
        proof {
            reveal_strlit("TA development kit directory");
            reveal_strlit("Signing key file");
            reveal_strlit("keys");
            reveal_strlit("default_ta.pem");
        }
        let ta_dev_kit_dir = match resolve_path_relative_to_project(
            ta_dev_kit_dir_config.as_str(),
            project_path,
            PathType::Directory,
            "TA development kit directory",
        ) {
            Ok(p) => p,
            Err(e) => return Err(e),
        };
        let signing_key = if need_signing_key {
            let md_key = match &metadata_config {
                Some(c) => c.signing_key.clone(),
                None => None,
            };
            let key_config = match cmd_signing_key {
                Some(k) => k,
                None => match md_key {
                    Some(k) => k,
                    None => match &env.ta_sign_key {
                        Some(k) => k.clone(),
                        None => {
                            let keys = path_join(ta_dev_kit_dir_config.as_str(), "keys");
                            path_join(keys.as_str(), "default_ta.pem")
                        },
                    },
                },
            };
            match resolve_path_relative_to_project(
                key_config.as_str(),
                project_path,
                PathType::File,
                "Signing key file",
            ) {
                Ok(p) => p,
                Err(e) => return Err(e),
            }
        } else {
            String::new()
        };
        let mut merged: Vec<(String, String)> = match metadata_config {
            Some(c) => c.env,
            None => Vec::new(),
        };
        let mut extra = overrides.env;
        merged.append(&mut extra);
        Ok(TaBuildConfig {
            arch,
            debug,
            std,
            ta_dev_kit_dir,
            signing_key,
            path: String::from_str(project_path),
            env: merged,
            no_default_features: overrides.no_default_features,
            features: overrides.features,
        })
    }
}

/// The resolved configuration of a client-application or plugin build.
#[derive(Debug)]
pub struct CaBuildConfig {
    pub arch: Arch,
    pub debug: bool,
    pub path: String,
    pub env: Vec<(String, String)>,
    pub no_default_features: bool,
    pub features: Option<String>,
    pub optee_client_export: String,
    /// Build as a plugin (shared library).
    pub plugin: bool,
}

/// The configured OP-TEE client export: command line, metadata,
/// environment.
pub open spec fn spec_client_export_config(
    cmd: Option<String>,
    md: Option<MetadataView>,
    env: ConfigEnv,
) -> Option<Seq<char>> {
    spec_first(
        cmd.deep_view(),
        match md {
            Some(m) => m.optee_client_export,
            None => None,
        },
        env.optee_client_export.deep_view(),
    )
}

/// The component a CA build is for.
pub open spec fn spec_ca_component(plugin: bool) -> ComponentType {
    if plugin {
        ComponentType::Plugin
    } else {
        ComponentType::Ca
    }
}

impl CaBuildConfig {
    /// Resolves the configuration of a CA (or, with `plugin`, a plugin)
    /// build in the project directory `project_path`, from the command line,
    /// the package metadata and the environment. The client export must be
    /// configured and be a directory.
    pub fn resolve(
        project_path: &str,
        overrides: BuildOverrides,
        cmd_optee_client_export: Option<String>,
        plugin: bool,
        package_metadata: &JsonValue,
        env: &ConfigEnv,
    ) -> (r: Result<Self, ConfigError>)
        ensures
            spec_extract_build_config(*package_metadata, spec_ca_component(plugin), overrides.arch) matches Err(e)
                ==> r matches Err(re) && re@ == e,
            spec_extract_build_config(*package_metadata, spec_ca_component(plugin), overrides.arch) matches Ok(md)
                ==> {
                &&& spec_client_export_config(cmd_optee_client_export, md, *env) is None ==> (r matches Err(e)
                    && e@ == ConfigErrorView::OpteeClientExportMissing)
                &&& spec_client_export_config(cmd_optee_client_export, md, *env) matches Some(export) ==> (
                r matches Err(e) ==> spec_path_error(
                    e@,
                    "OP-TEE client export directory"@,
                    spec_path_join(project_path@, export),
                    PathType::Directory,
                ))
                &&& r matches Ok(c) ==> {
                    &&& c.arch == spec_or_default(overrides.arch, spec_md(md, |m: MetadataView| m.arch), Arch::Aarch64)
                    &&& c.debug == spec_or_default(overrides.debug, spec_md(md, |m: MetadataView| m.debug), false)
                    &&& c.optee_client_export@ == spec_path_join(
                        project_path@,
                        spec_client_export_config(cmd_optee_client_export, md, *env)->0,
                    )
                    &&& c.path@ == project_path@
                    &&& c.env.deep_view() == (match md {
                        Some(m) => m.env,
                        None => Seq::empty(),
                    }) + overrides.env.deep_view()
                    &&& c.no_default_features == overrides.no_default_features
                    &&& c.features == overrides.features
                    &&& c.plugin == plugin
                }
            },
    {
        let component_type = if plugin {
            ComponentType::Plugin
        } else {
            ComponentType::Ca
        };
        let metadata_config = match MetadataConfig::resolve(package_metadata, component_type, overrides.arch) {
            Ok(m) => m,
            Err(e) => return Err(e),
        };
        let arch = match overrides.arch {
            Some(a) => a,
            None => match &metadata_config {
                Some(c) => c.arch,
                None => Arch::Aarch64,
            },
        };
        let debug = match overrides.debug {
            Some(d) => d,
            None => match &metadata_config {
                Some(c) => c.debug,
                None => false,
            },
        };
        let md_export = match &metadata_config {
            Some(c) => c.optee_client_export.clone(),
            None => None,
        };
        let export_config = match cmd_optee_client_export {
            Some(p) => p,
            None => match md_export {
                Some(p) => p,
                None => match &env.optee_client_export {
                    Some(p) => p.clone(),
                    None => return Err(ConfigError::OpteeClientExportMissing),
                },
            },
        };
        proof {
            reveal_strlit("OP-TEE client export directory");
        }
        let optee_client_export = match resolve_path_relative_to_project(
            export_config.as_str(),
            project_path,
            PathType::Directory,
            "OP-TEE client export directory",
        ) {
            Ok(p) => p,
            Err(e) => return Err(e),
        };
        let mut merged: Vec<(String, String)> = match metadata_config {
            Some(c) => c.env,
            None => Vec::new(),
        };
        let mut extra = overrides.env;
        merged.append(&mut extra);
        Ok(CaBuildConfig {
            arch,
            debug,
            path: String::from_str(project_path),
            env: merged,
            no_default_features: overrides.no_default_features,
            features: overrides.features,
            optee_client_export,
            plugin,
        })
    }
}

/// The configured paths follow the documented priority: the command line
/// wins; without it the Cargo.toml metadata; without both the environment
/// variable; the signing key finally defaults to `keys/default_ta.pem` in
/// the development kit.
pub proof fn lemma_path_priority(
    cmd: Option<String>,
    cmd_key: Option<String>,
    md: Option<MetadataView>,
    env: ConfigEnv,
    dev_kit: Seq<char>,
)
    ensures
        cmd matches Some(c) ==> spec_ta_dev_kit_config(cmd, md, env) == Some(c@)
            && spec_client_export_config(cmd, md, env) == Some(c@),
        cmd is None && (md matches Some(m) && m.ta_dev_kit_dir is Some) ==> spec_ta_dev_kit_config(cmd, md, env)
            == md->0.ta_dev_kit_dir,
        cmd is None && !(md matches Some(m) && m.ta_dev_kit_dir is Some) ==> spec_ta_dev_kit_config(cmd, md, env)
            == env.ta_dev_kit_dir.deep_view(),
        cmd is None && (md matches Some(m) && m.optee_client_export is Some) ==> spec_client_export_config(
            cmd,
            md,
            env,
        ) == md->0.optee_client_export,
        cmd is None && !(md matches Some(m) && m.optee_client_export is Some) ==> spec_client_export_config(
            cmd,
            md,
            env,
        ) == env.optee_client_export.deep_view(),
        cmd_key matches Some(k) ==> spec_signing_key_config(cmd_key, md, env, dev_kit) == k@,
        cmd_key is None && (md matches Some(m) && m.signing_key is Some) ==> spec_signing_key_config(
            cmd_key,
            md,
            env,
            dev_kit,
        ) == md->0.signing_key->0,
        cmd_key is None && !(md matches Some(m) && m.signing_key is Some) && env.ta_sign_key is Some
            ==> spec_signing_key_config(cmd_key, md, env, dev_kit) == env.ta_sign_key->0@,
        cmd_key is None && !(md matches Some(m) && m.signing_key is Some) && env.ta_sign_key is None
            ==> spec_signing_key_config(cmd_key, md, env, dev_kit) == spec_path_join(
            spec_path_join(dev_kit, "keys"@),
            "default_ta.pem"@,
        ),
{
}

/// The flags follow the same priority: the command line wins, then the
/// metadata, then the default.
pub proof fn lemma_flag_priority<T>(cmd: Option<T>, md: Option<T>, default: T)
    ensures
        cmd matches Some(c) ==> spec_or_default(cmd, md, default) == c,
        cmd is None && md is Some ==> spec_or_default(cmd, md, default) == md->0,
        cmd is None && md is None ==> spec_or_default(cmd, md, default) == default,
{
}

/// The error of a missing TA development kit.
pub fn ta_dev_kit_dir_error() -> (e: ConfigError)
    ensures
        e@ == ConfigErrorView::TaDevKitDirMissing,
{
    ConfigError::TaDevKitDirMissing
}

/// The error of a missing OP-TEE client export.
pub fn optee_client_export_error() -> (e: ConfigError)
    ensures
        e@ == ConfigErrorView::OpteeClientExportMissing,
{
    ConfigError::OpteeClientExportMissing
}

/// The help text of a missing TA development kit.
pub open spec fn spec_ta_dev_kit_help() -> Seq<char> {
    "ta-dev-kit-dir is MANDATORY but not configured.\nPlease set it via:\n1. Command line: --ta-dev-kit-dir <path>\n2. Cargo.toml metadata: [package.metadata.optee.ta] section\n3. Environment variable: TA_DEV_KIT_DIR\n\nExample Cargo.toml:\n[package.metadata.optee.ta]\nta-dev-kit-dir = { aarch64 = \"/path/to/optee_os/out/arm-plat-vexpress/export-ta_arm64\" }\n\nFor help with available options, run: cargo-optee build ta --help"@
}

/// The help text of a missing OP-TEE client export.
pub open spec fn spec_client_export_help() -> Seq<char> {
    "optee-client-export is MANDATORY but not configured.\nPlease set it via:\n1. Command line: --optee-client-export <path>\n2. Cargo.toml metadata: [package.metadata.optee.ca] or [package.metadata.optee.plugin] section\n3. Environment variable: OPTEE_CLIENT_EXPORT\n\nExample Cargo.toml:\n[package.metadata.optee.ca]\noptee-client-export = { aarch64 = \"/path/to/optee_client/export_arm64\" }\n\nFor help with available options, run: cargo-optee build ca --help"@
}

/// The message of a configuration error.
pub open spec fn spec_config_message(e: ConfigErrorView) -> Seq<char> {
    match e {
        ConfigErrorView::UuidPathUnsupported(c) => "package.metadata.optee."@ + c.spec_name()
            + ".uuid-path is not supported; UUID is parsed from the unsigned ELF"@,
        ConfigErrorView::ArchNotString => "metadata key arch must be a string"@,
        ConfigErrorView::InvalidArch { value, reason } => "invalid metadata arch "@ + debug_quoted(value)
            + ": "@ + reason,
        ConfigErrorView::NotBoolean(k) => "metadata key "@ + k + " must be a boolean"@,
        ConfigErrorView::TaDevKitDirMissing => spec_ta_dev_kit_help(),
        ConfigErrorView::OpteeClientExportMissing => spec_client_export_help(),
        ConfigErrorView::PathDoesNotExist { context, path } => context + " does not exist: "@
            + path_debug_quoted(path),
        ConfigErrorView::NotADirectory { context, path } => context + " is not a directory: "@
            + path_debug_quoted(path),
        ConfigErrorView::NotAFile { context, path } => context + " is not a file: "@ + path_debug_quoted(path),
    }
}

impl ConfigError {
    /// The message of this error.
    pub fn message(&self) -> (m: String)
        ensures
            m@ == spec_config_message(self@),
    {
        match self {
            ConfigError::UuidPathUnsupported(c) => {
                proof {
                    reveal_strlit("package.metadata.optee.");
                    reveal_strlit(".uuid-path is not supported; UUID is parsed from the unsigned ELF");
                }
                String::from_str("package.metadata.optee.").concat(c.as_str()).concat(
                    ".uuid-path is not supported; UUID is parsed from the unsigned ELF",
                )
            },
            ConfigError::ArchNotString => {
                proof {
                    reveal_strlit("metadata key arch must be a string");
                }
                String::from_str("metadata key arch must be a string")
            },
            ConfigError::InvalidArch { value, reason } => {
                proof {
                    reveal_strlit("invalid metadata arch ");
                    reveal_strlit(": ");
                }
                let q = debug_quote(value.as_str());
                String::from_str("invalid metadata arch ").concat(q.as_str()).concat(": ").concat(
                    reason.as_str(),
                )
            },
            ConfigError::NotBoolean(k) => {
                proof {
                    reveal_strlit("metadata key ");
                    reveal_strlit(" must be a boolean");
                }
                String::from_str("metadata key ").concat(k.as_str()).concat(" must be a boolean")
            },
            ConfigError::TaDevKitDirMissing => {
                proof {
                    reveal_strlit("ta-dev-kit-dir is MANDATORY but not configured.\nPlease set it via:\n1. Command line: --ta-dev-kit-dir <path>\n2. Cargo.toml metadata: [package.metadata.optee.ta] section\n3. Environment variable: TA_DEV_KIT_DIR\n\nExample Cargo.toml:\n[package.metadata.optee.ta]\nta-dev-kit-dir = { aarch64 = \"/path/to/optee_os/out/arm-plat-vexpress/export-ta_arm64\" }\n\nFor help with available options, run: cargo-optee build ta --help");
                }
                String::from_str("ta-dev-kit-dir is MANDATORY but not configured.\nPlease set it via:\n1. Command line: --ta-dev-kit-dir <path>\n2. Cargo.toml metadata: [package.metadata.optee.ta] section\n3. Environment variable: TA_DEV_KIT_DIR\n\nExample Cargo.toml:\n[package.metadata.optee.ta]\nta-dev-kit-dir = { aarch64 = \"/path/to/optee_os/out/arm-plat-vexpress/export-ta_arm64\" }\n\nFor help with available options, run: cargo-optee build ta --help")
            },
            ConfigError::OpteeClientExportMissing => {
                proof {
                    reveal_strlit("optee-client-export is MANDATORY but not configured.\nPlease set it via:\n1. Command line: --optee-client-export <path>\n2. Cargo.toml metadata: [package.metadata.optee.ca] or [package.metadata.optee.plugin] section\n3. Environment variable: OPTEE_CLIENT_EXPORT\n\nExample Cargo.toml:\n[package.metadata.optee.ca]\noptee-client-export = { aarch64 = \"/path/to/optee_client/export_arm64\" }\n\nFor help with available options, run: cargo-optee build ca --help");
                }
                String::from_str("optee-client-export is MANDATORY but not configured.\nPlease set it via:\n1. Command line: --optee-client-export <path>\n2. Cargo.toml metadata: [package.metadata.optee.ca] or [package.metadata.optee.plugin] section\n3. Environment variable: OPTEE_CLIENT_EXPORT\n\nExample Cargo.toml:\n[package.metadata.optee.ca]\noptee-client-export = { aarch64 = \"/path/to/optee_client/export_arm64\" }\n\nFor help with available options, run: cargo-optee build ca --help")
            },
            ConfigError::PathDoesNotExist { context, path } => {
                proof {
                    reveal_strlit(" does not exist: ");
                }
                let q = path_debug_quote(path.as_str());
                context.clone().concat(" does not exist: ").concat(q.as_str())
            },
            ConfigError::NotADirectory { context, path } => {
                proof {
                    reveal_strlit(" is not a directory: ");
                }
                let q = path_debug_quote(path.as_str());
                context.clone().concat(" is not a directory: ").concat(q.as_str())
            },
            ConfigError::NotAFile { context, path } => {
                proof {
                    reveal_strlit(" is not a file: ");
                }
                let q = path_debug_quote(path.as_str());
                context.clone().concat(" is not a file: ").concat(q.as_str())
            },
        }
    }
}

/// `{:?}` of an architecture.
pub open spec fn spec_arch_debug(a: Arch) -> Seq<char> {
    match a {
        Arch::Aarch64 => "Aarch64"@,
        Arch::Arm => "Arm"@,
    }
}

/// `{}` of a boolean.
pub open spec fn spec_bool_text(b: bool) -> Seq<char> {
    if b {
        "true"@
    } else {
        "false"@
    }
}

fn arch_debug(a: Arch) -> (s: &'static str)
    ensures
        s@ == spec_arch_debug(a),
{
    proof {
        reveal_strlit("Aarch64");
        reveal_strlit("Arm");
    }
    match a {
        Arch::Aarch64 => "Aarch64",
        Arch::Arm => "Arm",
    }
}

fn bool_text(b: bool) -> (s: &'static str)
    ensures
        s@ == spec_bool_text(b),
{
    proof {
        reveal_strlit("true");
        reveal_strlit("false");
    }
    if b {
        "true"
    } else {
        "false"
    }
}

/// The line that reports how many environment variables are set, when any.
pub open spec fn spec_env_line(n: nat) -> Seq<Seq<char>> {
    if n == 0 {
        Seq::empty()
    } else {
        seq!["  Environment variables: "@ + spec_decimal(n) + " set"@]
    }
}

fn push_env_line(lines: &mut Vec<String>, n: usize)
    ensures
        final(lines).deep_view() == old(lines).deep_view() + spec_env_line(n as nat),
{
    if n != 0 {
        proof {
            reveal_strlit("  Environment variables: ");
            reveal_strlit(" set");
        }
        let d = decimal(n);
        lines.push(String::from_str("  Environment variables: ").concat(d.as_str()).concat(" set"));
    }
    assert(lines.deep_view() =~= old(lines).deep_view() + spec_env_line(n as nat));
}

impl TaBuildConfig {
    /// The summary printed before a TA build or lint, one line each.
    pub open spec fn spec_config_lines(&self, action: Seq<char>) -> Seq<Seq<char>> {
        seq![
            action + " TA with:"@,
            "  Arch: "@ + spec_arch_debug(self.arch),
            "  Debug: "@ + spec_bool_text(self.debug),
            "  Std: "@ + spec_bool_text(self.std),
            "  TA dev kit dir: "@ + path_debug_quoted(self.ta_dev_kit_dir@),
        ] + (if self.signing_key@.len() > 0 {
            seq!["  Signing key: "@ + path_debug_quoted(self.signing_key@)]
        } else {
            Seq::empty()
        }) + spec_env_line(self.env@.len())
    }

    /// The lines of the summary printed before a build.
    pub fn print_config(&self) -> (lines: Vec<String>)
        ensures
            lines.deep_view() == self.spec_config_lines("Building"@),
    {
        proof {
            reveal_strlit("Building");
        }
        self.print_config_with("Building")
    }

    /// The lines of the summary printed before linting.
    pub fn print_lint_config(&self) -> (lines: Vec<String>)
        ensures
            lines.deep_view() == self.spec_config_lines("Linting"@),
    {
        proof {
            reveal_strlit("Linting");
        }
        self.print_config_with("Linting")
    }

    /// The lines of the summary, for the given action.
    pub fn print_config_with(&self, action: &str) -> (lines: Vec<String>)
        ensures
            lines.deep_view() == self.spec_config_lines(action@),
    {
        proof {
            reveal_strlit(" TA with:");
            reveal_strlit("  Arch: ");
            reveal_strlit("  Debug: ");
            reveal_strlit("  Std: ");
            reveal_strlit("  TA dev kit dir: ");
            reveal_strlit("  Signing key: ");
        }
        let mut lines: Vec<String> = Vec::new();
        lines.push(String::from_str(action).concat(" TA with:"));
        lines.push(String::from_str("  Arch: ").concat(arch_debug(self.arch)));
        lines.push(String::from_str("  Debug: ").concat(bool_text(self.debug)));
        lines.push(String::from_str("  Std: ").concat(bool_text(self.std)));
        let q = path_debug_quote(self.ta_dev_kit_dir.as_str());
        lines.push(String::from_str("  TA dev kit dir: ").concat(q.as_str()));
        let ghost base = lines.deep_view();
        if self.signing_key.as_str().unicode_len() != 0 {
            let k = path_debug_quote(self.signing_key.as_str());
            lines.push(String::from_str("  Signing key: ").concat(k.as_str()));
        }
        let ghost mid = lines.deep_view();
        assert(mid =~= base + (if self.signing_key@.len() > 0 {
            seq!["  Signing key: "@ + path_debug_quoted(self.signing_key@)]
        } else {
            Seq::<Seq<char>>::empty()
        }));
        push_env_line(&mut lines, self.env.len());
        assert(lines.deep_view() =~= self.spec_config_lines(action@));
        lines
    }
}

impl CaBuildConfig {
    /// The summary printed before a CA or plugin build or lint.
    pub open spec fn spec_config_lines(&self, action: Seq<char>) -> Seq<Seq<char>> {
        seq![
            action + " "@ + (if self.plugin { "Plugin"@ } else { "CA"@ }) + " with:"@,
            "  Arch: "@ + spec_arch_debug(self.arch),
            "  Debug: "@ + spec_bool_text(self.debug),
            "  OP-TEE client export: "@ + path_debug_quoted(self.optee_client_export@),
        ] + spec_env_line(self.env@.len())
    }

    /// The lines of the summary printed before a build.
    pub fn print_config(&self) -> (lines: Vec<String>)
        ensures
            lines.deep_view() == self.spec_config_lines("Building"@),
    {
        proof {
            reveal_strlit("Building");
        }
        self.print_config_with("Building")
    }

    /// The lines of the summary printed before linting.
    pub fn print_lint_config(&self) -> (lines: Vec<String>)
        ensures
            lines.deep_view() == self.spec_config_lines("Linting"@),
    {
        proof {
            reveal_strlit("Linting");
        }
        self.print_config_with("Linting")
    }

    /// The lines of the summary, for the given action.
    pub fn print_config_with(&self, action: &str) -> (lines: Vec<String>)
        ensures
            lines.deep_view() == self.spec_config_lines(action@),
    {
        proof {
            reveal_strlit(" ");
            reveal_strlit("Plugin");
            reveal_strlit("CA");
            reveal_strlit(" with:");
            reveal_strlit("  Arch: ");
            reveal_strlit("  Debug: ");
            reveal_strlit("  OP-TEE client export: ");
        }
        let component_name = if self.plugin {
            "Plugin"
        } else {
            "CA"
        };
        let mut lines: Vec<String> = Vec::new();
        lines.push(String::from_str(action).concat(" ").concat(component_name).concat(" with:"));
        lines.push(String::from_str("  Arch: ").concat(arch_debug(self.arch)));
        lines.push(String::from_str("  Debug: ").concat(bool_text(self.debug)));
        let q = path_debug_quote(self.optee_client_export.as_str());
        lines.push(String::from_str("  OP-TEE client export: ").concat(q.as_str()));
        push_env_line(&mut lines, self.env.len());
        assert(lines.deep_view() =~= self.spec_config_lines(action@));
        lines
    }
}

} // verus!
