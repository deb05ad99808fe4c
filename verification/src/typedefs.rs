//! Shared type definitions for the updater's modes and flags.

use vstd::prelude::*;

verus! {

/// The modes an upgrade or cleanup pass can run in.
#[derive(Clone, Copy, PartialEq, Eq, Structural, Debug)]
pub enum Upgrade {
    /// Report what would be done, changing nothing.
    Pretend,
    /// Do it.
    Real,
    /// Do it, but keep kernel packages.
    RealExcludeKernels,
    /// Do it, kernel packages too.
    RealIncludeKernels,
}

/// The kinds of confirmation put to the operator.
#[derive(Clone, Copy, PartialEq, Eq, Structural, Debug)]
pub enum PromptType {
    /// Show material to review before continuing.
    Review,
    /// Just wait for return.
    PressCR,
}

/// How verbose a spawned command is.
#[derive(Clone, Copy, PartialEq, Eq, Structural, Debug)]
pub enum CmdVerbose {
    /// Captured quietly, progress shown.
    NonInteractive,
    /// Attached to the terminal.
    Interactive,
    /// Captured with no output at all.
    Quiet,
}

/// The operator-supplied flags of one run.
#[derive(Clone, Copy, PartialEq, Eq, Structural, Debug)]
pub struct GentupArgs {
    /// Perform cleanup tasks after a successful upgrade.
    pub cleanup: bool,
    /// Sync the package tree even when the last sync was recent.
    pub force: bool,
    /// Fetch sources separately in the background.
    pub separate: bool,
    /// Install the optional package list as well.
    pub optional: bool,
}

/// A reverse-dependency pass mode.
pub type RevDep = Upgrade;

/// A dependency-cleanup pass mode.
pub type DepClean = Upgrade;

} // verus!
