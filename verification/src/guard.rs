//! The kernel-preservation safety guard: decides from the classified orphan
//! report and the running kernel's identity whether a dependency cleanup may
//! proceed unrestricted, must keep kernel packages, or has nothing to do.

use vstd::prelude::*;

use crate::portage::Orphans;
use crate::text::{contains_lit, spec_contains, to_chars};

verus! {

/// What a dependency cleanup is allowed to do.
#[derive(Clone, Copy, PartialEq, Eq, Structural, Debug)]
pub enum CleanupPlan {
    /// There are no orphaned dependencies; nothing to remove.
    NoAction,
    /// Orphans exist and the running kernel is among the kernel-related
    /// lines: removal must exclude kernel packages.
    ExcludeKernelPackages,
    /// Orphans exist and no kernel is at risk: removal may take everything.
    FullCleanup,
}

/// Whether the running kernel's numeric identity occurs in the recorded
/// kernel-related dry-run text.
pub open spec fn spec_kernel_at_risk(kernels: Seq<char>, running: Seq<char>) -> bool {
    spec_contains(kernels, running)
}

/// The guard's decision for a report of `count` orphans. The operator's
/// cleanup request never widens the plan: a forced cleanup still honours
/// the guard, so a kernel at risk always yields `ExcludeKernelPackages`.
pub open spec fn spec_guard_cleanup(count: i32, kernels: Seq<char>, running: Seq<char>)
    -> CleanupPlan {
    if count <= 0 {
        CleanupPlan::NoAction
    } else if spec_kernel_at_risk(kernels, running) {
        CleanupPlan::ExcludeKernelPackages
    } else {
        CleanupPlan::FullCleanup
    }
}

/// The kernel-preservation safety guard. It inspects the classified orphan
/// report and the identity of the currently running kernel; the orchestrator
/// consults the `cleanup_requested` flag only to decide whether to act on
/// the plan at all, never to widen it, so no plan this guard returns lets a
/// removal touch the package providing the running kernel.
pub fn guard_cleanup(orphans: &Orphans, running_kernel: &str, cleanup_requested: bool) -> (plan:
    CleanupPlan)
    ensures
        plan == spec_guard_cleanup(orphans.0, orphans.1@, running_kernel@),
{
    if orphans.0 <= 0 {
        CleanupPlan::NoAction
    } else {
        let kernels = to_chars(orphans.1.as_str());
        if contains_lit(&kernels, running_kernel) {
            CleanupPlan::ExcludeKernelPackages
        } else {
            CleanupPlan::FullCleanup
        }
    }
}

/// Safety law of the guard: whenever the kernel-relation signal is set, the
/// guard never chooses a full cleanup — regardless of whether the operator
/// requested one — and whenever orphans exist it chooses the plan that
/// excludes kernel packages.
pub proof fn lemma_kernel_preservation(
    count: i32,
    kernels: Seq<char>,
    running: Seq<char>,
    cleanup_requested: bool,
)
    requires
        spec_kernel_at_risk(kernels, running),
    ensures
        spec_guard_cleanup(count, kernels, running) != CleanupPlan::FullCleanup,
        count > 0 ==> spec_guard_cleanup(count, kernels, running)
            == CleanupPlan::ExcludeKernelPackages,
{
}

} // verus!
