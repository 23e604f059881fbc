//! Decisions taken from command-line flags.
use vstd::prelude::*;

verus! {

/// The std mode the `--std` / `--no-std` flags ask for: one flag decides,
/// neither or both leave it to the metadata.
pub fn std_mode(std: bool, no_std: bool) -> (r: Option<bool>)
    ensures
        r == (if std && !no_std {
            Some(true)
        } else if !std && no_std {
            Some(false)
        } else {
            None::<bool>
        }),
{
    match (std, no_std) {
        (true, false) => Some(true),
        (false, true) => Some(false),
        _ => None,
    }
}

/// Whether the `--debug` flag forces a debug build: giving it forces debug,
/// omitting it leaves the choice to the metadata.
pub fn cli_debug_override(debug: bool) -> (r: Option<bool>)
    ensures
        r == (if debug { Some(true) } else { None::<bool> }),
{
    if debug {
        Some(true)
    } else {
        None
    }
}

/// What the tool is asked to do.
#[derive(Clone, Copy, Debug, PartialEq, Eq, Structural)]
pub enum Subcommand {
    Build,
    Install,
    Clippy,
}

/// What it is asked to do it to.
#[derive(Clone, Copy, Debug, PartialEq, Eq, Structural)]
pub enum Component {
    Ta,
    Ca,
    Plugin,
}

/// How a subcommand runs for a component.
#[derive(Clone, Copy, Debug, PartialEq, Eq, Structural)]
pub struct ComponentPlan {
    /// Lint only: no build, strip, sign or install.
    pub lint_only: bool,
    /// Install the result into the target directory.
    pub install: bool,
    /// Build a plugin (shared library) rather than a CA.
    pub plugin: bool,
    /// A TA build needs its signing key (not when linting).
    pub need_signing_key: bool,
}

/// How a subcommand runs for a component: clippy lints only, install also
/// installs, a plugin is built as a shared library, and only a TA build or
/// install signs.
pub fn plan_component(sub: Subcommand, component: Component) -> (p: ComponentPlan)
    ensures
        p.lint_only == (sub == Subcommand::Clippy),
        p.install == (sub == Subcommand::Install),
        p.plugin == (component == Component::Plugin),
        p.need_signing_key == (component == Component::Ta && sub != Subcommand::Clippy),
{
    let lint_only = match sub {
        Subcommand::Clippy => true,
        _ => false,
    };
    let install = match sub {
        Subcommand::Install => true,
        _ => false,
    };
    let plugin = match component {
        Component::Plugin => true,
        _ => false,
    };
    let need_signing_key = match component {
        Component::Ta => !lint_only,
        _ => false,
    };
    ComponentPlan { lint_only, install, plugin, need_signing_key }
}

} // verus!
