//! Client command-line configuration.
//!
//! The configuration is populated once at process start from the two
//! command-line flags and then held immutably: `nosnd` disables the audio
//! plugin, `diag` enables the diagnostics plugin.

use vstd::prelude::*;

verus! {

/// Global application configuration, parsed from the command line at
/// runtime initialization.
#[derive(Clone, Copy, Debug, PartialEq, Eq, Structural)]
pub struct ClientConfig {
    /// Sound disable toggle
    pub nosnd: bool,
    /// Diagnostics enabling toggle
    pub diag: bool,
}

impl ClientConfig {
    /// Builds a configuration from the two flag values.
    pub fn new(nosnd: bool, diag: bool) -> (c: ClientConfig)
        ensures
            c.nosnd == nosnd,
            c.diag == diag,
    {
        ClientConfig { nosnd, diag }
    }
}

} // verus!
