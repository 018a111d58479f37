//! How loudly the command line asks a run to report on itself.

use vstd::prelude::*;
use crate::progress::Verbosity;

verus! {

/// The `--quiet` and `--verbose` flags of the `run` command.
#[derive(Debug, Clone, Copy, PartialEq, Eq, Structural)]
pub struct Reporting {
    /// Suppress progress and log output, for a scripted or CI run.
    pub quiet: bool,
    /// Log the run's per-frame detail as well as its progress.
    pub verbose: bool,
}

impl Reporting {
    /// The verbosity these flags ask for: quiet wins, then verbose, and with
    /// neither the run reports normally.
    pub fn verbosity(&self) -> (v: Verbosity)
        ensures
            v == (if self.quiet {
                Verbosity::Quiet
            } else if self.verbose {
                Verbosity::Verbose
            } else {
                Verbosity::Normal
            }),
    {
        if self.quiet {
            Verbosity::Quiet
        } else if self.verbose {
            Verbosity::Verbose
        } else {
            Verbosity::Normal
        }
    }
}

} // verus!
