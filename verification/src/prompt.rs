//! The kinds of interactive confirmation the updater can put to the
//! operator. The asking itself happens at the terminal, outside this
//! library; the orchestration only names which kind it wants.

use vstd::prelude::*;

verus! {

/// A confirmation style: what the operator may answer.
#[derive(Clone, Copy, PartialEq, Eq, Structural, Debug)]
pub enum Prompt {
    /// Return to continue, s to skip, q to quit.
    AllowSkip,
    /// Return to continue, q to quit.
    PressReturn,
    /// A free-form option choice.
    Options,
}

} // verus!
