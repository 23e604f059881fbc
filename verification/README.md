# optee_sdk

Verified pieces of a Rust SDK for OP-TEE: the typed parameter API of
trusted applications, the parameters of supplicant plugins, and the planning
logic of the `cargo-optee` build tool. The functions in `src/` carry Verus
contracts and are proved against them, except a few small wrappers marked
`#[verifier::external_body]` around calls into std, goblin, uuid and
cargo_metadata, whose contracts are trusted.

Layout:

- `src/raw.rs`, `src/error.rs` — raw `TEE_Param` model and error kinds.
- `src/parameter/` — typed wrappers (value, memory reference, none), the
  run-time dispatching `ParameterAny`, and the older untyped accessors.
- `src/plugin.rs` — plugin invocation parameters; every output write sets
  the output length.
- `src/plugin_bindgen.rs`, `src/plugin_signature.rs` — what the plugin
  binding and the plugin attribute macros compute and check.
- `src/cargo_optee/` — targets and toolchains, configuration resolution
  (command line > Cargo.toml metadata > environment > defaults), the cargo
  invocations as plans, artifact selection from cargo's JSON output, and UUID
  extraction from unsigned ELF images.
- `src/text.rs` — verified string and path helpers.
- `app/` — the `cargo-optee` program: command line, environment, processes
  and files, around the library's plans.
- `tests/` — tests of the library on concrete values.

Std TA builds need the OP-TEE custom target specifications
(`aarch64-unknown-optee.json`, `arm-unknown-optee.json`); `cargo-optee`
copies them from the directory named by `CARGO_OPTEE_TARGET_SPECS`.
