//! A plainer command front end kept alongside the main one: it runs its
//! command attached to the terminal and reports verbosely.

use vstd::prelude::*;

use crate::linux::{command, CommandSpec, OsCall};

verus! {

/// The verbose filesystem-trim invocation.
pub fn call_fstrim() -> (r: CommandSpec)
    ensures
        r.line@ == "fstrim -a -v"@,
        r.label@.len() == 0,
        r.mode == OsCall::Interactive,
{
    proof {
        reveal_strlit("");
    }
    command("fstrim -a -v", "", OsCall::Interactive)
}

} // verus!
