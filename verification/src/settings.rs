//! The settings of one run, handed to each operation that needs them.

use vstd::prelude::*;

verus! {

/// The settings of one run.
#[derive(Clone, Copy, PartialEq, Eq, Structural, Debug)]
pub struct Settings {
    /// Show the output of the commands that are run.
    pub verbose: bool,
}

/// How the output of a command is treated.
#[derive(Clone, Copy, PartialEq, Eq, Structural, Debug)]
pub enum Stdio {
    /// The output is shown.
    Inherit,
    /// The output is dropped.
    Null,
}

/// Settings in which nothing is asked for.
pub fn quiet() -> (settings: Settings)
    ensures
        !settings.verbose,
{
    Settings { verbose: false }
}

/// Turns verbose output on or off.
pub fn set_verbose(settings: &mut Settings, enabled: bool)
    ensures
        final(settings).verbose == enabled,
{
    settings.verbose = enabled;
}

/// Whether verbose output is on.
pub fn is_verbose(settings: &Settings) -> (enabled: bool)
    ensures
        enabled == settings.verbose,
{
    settings.verbose
}

/// How the output of a command is treated: it is shown only where verbose
/// output is on.
pub fn configure_stdio(settings: &Settings) -> (stdio: Stdio)
    ensures
        stdio == if settings.verbose { Stdio::Inherit } else { Stdio::Null },
{
    if is_verbose(settings) {
        Stdio::Inherit
    } else {
        Stdio::Null
    }
}

} // verus!
