use vstd::prelude::*;

verus! {

/// The command-line choices of a run.
#[derive(Debug, Clone)]
pub struct Args {
    /// Show the available updates without installing anything.
    pub refresh: bool,
    /// Update packages and applications (firmware too with `firmware`).
    pub update_all: bool,
    /// Update operating-system packages only.
    pub update_system: bool,
    /// Update sandboxed applications only.
    pub update_flatpak: bool,
    /// Update firmware only.
    pub update_firmware: bool,
    /// Include firmware in `update_all`.
    pub firmware: bool,
    /// Announce every command instead of running it.
    pub dry_run: bool,
    /// Do not offer to reboot afterwards.
    pub no_reboot_prompt: bool,
    /// Do not probe the network first.
    pub no_network_check: bool,
    /// Run the selected operations side by side.
    pub parallel: bool,
    /// A configuration file to read first.
    pub config: Option<String>,
    /// How much to log (each step adds detail).
    pub verbose: u8,
    /// Print as little as possible.
    pub quiet: bool,
}

impl Args {
    /// Whether no action was asked for.
    pub open spec fn is_default_spec(&self) -> bool {
        !self.refresh && !self.update_all && !self.update_system && !self.update_flatpak
            && !self.update_firmware
    }

    /// Returns true if no action flags were provided.
    pub fn is_default(&self) -> (r: bool)
        ensures
            r == self.is_default_spec(),
    {
        !self.refresh && !self.update_all && !self.update_system && !self.update_flatpak
            && !self.update_firmware
    }
}

} // verus!
