//! Listener configuration: the single `console_port` option, resolved from
//! whatever value the external configuration source supplied.

use vstd::prelude::*;

verus! {

/// The port used when the configuration source supplies none.
pub const DEFAULT_CONSOLE_PORT: i64 = 29999;

/// Configuration for the console listener.
pub struct ConsoleConfig {
    pub console_port: i64,
}

impl ConsoleConfig {
    /// The built-in default configuration.
    pub fn default() -> (c: ConsoleConfig)
        ensures
            c.console_port == DEFAULT_CONSOLE_PORT,
    {
        ConsoleConfig { console_port: 29999 }
    }
}

/// Resolve the configuration: the port the external source supplied, or the
/// default when it supplied none (absent option, or a value that failed to
/// parse).
pub fn get_config(console_port: Option<i64>) -> (c: ConsoleConfig)
    ensures
        console_port is Some ==> c.console_port == console_port->0,
        console_port is None ==> c.console_port == DEFAULT_CONSOLE_PORT,
{
    match console_port {
        Some(p) => ConsoleConfig { console_port: p },
        None => ConsoleConfig::default(),
    }
}

} // verus!
