//! The command line configuration of the workbench.

use vstd::prelude::*;
use crate::strs::string_of;

verus! {

/// The command line configuration.
#[derive(Debug, Clone)]
pub struct Config {
    /// The command to start (such as `pi` or `/bin/sh`); `-T`, `--target`.
    pub target_command: String,
    /// Its arguments; `-a`, `--args`.
    pub target_args: Vec<String>,
    /// The pi command used in RPC mode; `--pi-path`.
    pub pi_command: String,
    /// Start the terminal interface; `--tui`.
    pub tui_mode: bool,
    /// Query pi and print its state; `--diagnose`.
    pub diagnose: bool,
    /// Print sessions, extensions, skills and MCP servers without starting pi; `--dry-run`.
    pub dry_run: bool,
    /// Start the provider router with its configuration interface; `--router`.
    pub router: bool,
}

impl Config {
    /// The configuration with no option given: target `/bin/sh` without
    /// arguments, pi command `pi`, every switch off.
    pub fn defaults() -> (r: Config)
        ensures
            r.target_command@ == "/bin/sh"@,
            r.target_args@.len() == 0,
            r.pi_command@ == "pi"@,
            !r.tui_mode && !r.diagnose && !r.dry_run && !r.router,
    {
        Config {
            target_command: string_of("/bin/sh"),
            target_args: Vec::new(),
            pi_command: string_of("pi"),
            tui_mode: false,
            diagnose: false,
            dry_run: false,
            router: false,
        }
    }
}

} // verus!
