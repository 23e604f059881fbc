//! Configuration of the generated `plugin_method` table of a supplicant
//! plugin: its name, UUID and entry-point names, and the pieces of the
//! generated code that come from them. The code itself is emitted by the
//! caller.
use vstd::prelude::*;

use crate::text::{path_join, spec_path_join};

verus! {

/// Name of the generated init entry point.
pub const DEFAULT_INIT_FN_NAME: &'static str = "__plugin_bindgen_init";

/// Name of the generated invoke entry point.
pub const DEFAULT_INVOKE_FN_NAME: &'static str = "__plugin_bindgen_invoke";

/// The plugin name a configuration starts with: the package name of the
/// binding generator.
pub const DEFAULT_PLUGIN_NAME: &'static str = "optee-teec-plugin-bindgen";

/// The file the binding is written to in the build-script output directory.
pub const BINDING_FILE_NAME: &'static str = "plugin_static.rs";

/// What the binding of a plugin is generated from.
pub struct Config {
    name: String,
    uuid: [u8; 16],
    init_fn_name: String,
    invoke_fn_name: String,
    dest: Option<String>,
}

/// The abstract form of a [`Config`].
pub struct ConfigView {
    pub name: Seq<char>,
    pub uuid: Seq<u8>,
    pub init_fn_name: Seq<char>,
    pub invoke_fn_name: Seq<char>,
    pub dest: Option<Seq<char>>,
}

impl View for Config {
    type V = ConfigView;

    closed spec fn view(&self) -> ConfigView {
        ConfigView {
            name: self.name@,
            uuid: self.uuid@,
            init_fn_name: self.init_fn_name@,
            invoke_fn_name: self.invoke_fn_name@,
            dest: match self.dest {
                Some(d) => Some(d@),
                None => None,
            },
        }
    }
}

/// The four fields of a UUID in its standard byte order: the first four
/// bytes and the next two pairs read big-endian, then the last eight bytes.
pub open spec fn spec_uuid_fields(b: Seq<u8>) -> (u32, u16, u16, Seq<u8>) {
    (
        (b[0] * 0x1000000 + b[1] * 0x10000 + b[2] * 0x100 + b[3]) as u32,
        (b[4] * 0x100 + b[5]) as u16,
        (b[6] * 0x100 + b[7]) as u16,
        b.subrange(8, 16),
    )
}

/// The fields of a UUID (`uuid::Uuid::from_bytes`, then `as_fields`).
#[verifier::external_body]
fn uuid_fields(b: [u8; 16]) -> (r: (u32, u16, u16, [u8; 8]))
    ensures
        (r.0, r.1, r.2, r.3@) == spec_uuid_fields(b@),
{
    let u = uuid::Uuid::from_bytes(b);
    let (d1, d2, d3, d4) = u.as_fields();
    (d1, d2, d3, *d4)
}

/// What the generated binding is made of: the plugin name with a trailing
/// NUL, the UUID fields of `TEEC_UUID`, and the entry-point names.
pub struct BindingParts {
    pub name_with_nul: String,
    pub time_low: u32,
    pub time_mid: u16,
    pub time_hi_and_version: u16,
    pub clock_seq_and_node: [u8; 8],
    pub init_fn_name: String,
    pub invoke_fn_name: String,
}

impl Config {
    /// A configuration for the plugin with the given UUID (standard byte
    /// order), with the default name and entry-point names and no explicit
    /// destination.
    pub fn new(uuid: [u8; 16]) -> (c: Self)
        ensures
            c@.name == DEFAULT_PLUGIN_NAME@,
            c@.uuid == uuid@,
            c@.init_fn_name == DEFAULT_INIT_FN_NAME@,
            c@.invoke_fn_name == DEFAULT_INVOKE_FN_NAME@,
            c@.dest is None,
    {
        Config {
            name: String::from_str(DEFAULT_PLUGIN_NAME),
            uuid,
            init_fn_name: String::from_str(DEFAULT_INIT_FN_NAME),
            invoke_fn_name: String::from_str(DEFAULT_INVOKE_FN_NAME),
            dest: None,
        }
    }

    /// The same configuration with another plugin name.
    pub fn with_name(self, name: &str) -> (c: Self)
        ensures
            c@ == (ConfigView { name: name@, ..self@ }),
    {
        Config { name: String::from_str(name), ..self }
    }

    /// The same configuration with another init entry-point name.
    pub fn with_init_fn_name(self, fn_name: &str) -> (c: Self)
        ensures
            c@ == (ConfigView { init_fn_name: fn_name@, ..self@ }),
    {
        Config { init_fn_name: String::from_str(fn_name), ..self }
    }

    /// The same configuration with another invoke entry-point name.
    pub fn with_invoke_fn_name(self, fn_name: &str) -> (c: Self)
        ensures
            c@ == (ConfigView { invoke_fn_name: fn_name@, ..self@ }),
    {
        Config { invoke_fn_name: String::from_str(fn_name), ..self }
    }

    /// The pieces of the generated binding.
    pub fn binding_parts(&self) -> (p: BindingParts)
        ensures
            p.name_with_nul@ == self@.name.push('\0'),
            (p.time_low, p.time_mid, p.time_hi_and_version, p.clock_seq_and_node@) == spec_uuid_fields(
                self@.uuid,
            ),
            p.init_fn_name@ == self@.init_fn_name,
            p.invoke_fn_name@ == self@.invoke_fn_name,
    {
        let (d1, d2, d3, d4) = uuid_fields(self.uuid);
        let nul = "\0";
        proof {
            reveal_strlit("\0");
        }
        let name_with_nul = self.name.clone().concat(nul);
        assert(name_with_nul@ =~= self@.name.push('\0'));
        BindingParts {
            name_with_nul,
            time_low: d1,
            time_mid: d2,
            time_hi_and_version: d3,
            clock_seq_and_node: d4,
            init_fn_name: self.init_fn_name.clone(),
            invoke_fn_name: self.invoke_fn_name.clone(),
        }
    }

    /// Where the binding is written: the explicit destination, else
    /// `plugin_static.rs` in the build-script output directory `out_dir`.
    pub fn out_path(&self, out_dir: &str) -> (p: String)
        ensures
            p@ == (match self@.dest {
                Some(d) => d,
                None => spec_path_join(out_dir@, BINDING_FILE_NAME@),
            }),
    {
        match &self.dest {
            Some(d) => d.clone(),
            None => path_join(out_dir, BINDING_FILE_NAME),
        }
    }
}

} // verus!
