//! The workflow orchestrator: a strictly sequential state machine that
//! drives one whole update run. Each call of [`WorkflowState::advance`]
//! consumes the outcome of the previous action and says what to do next:
//! run a command, read a file, check a path, read the clock, write or send
//! something, or finish with an exit code. The driver performs the action
//! and feeds the outcome back in; all decisions stand here, verified
//! against the transition relation [`spec_advance`].
//!
//! The failure policy is uniform: a spawn failure, or a non-zero exit
//! status of a command whose status is not a boolean answer, finishes the
//! run with exit code 1 at once.

use vstd::prelude::*;

use crate::guard::{guard_cleanup, spec_guard_cleanup, CleanupPlan};
use crate::linux::{check_distro, running_kernel, CommandSpec, OsCall};
use crate::portage::{
    classify_orphans, configure_elogv, default_optional_packages, dep_path, dep_post_command,
    fetch_source_command, get_pending_updates, install_dep_command, install_optional_command,
    news_count_command, news_read_command, package_is_missing_command, package_lines,
    package_outdated_command, spec_dep_path, spec_dep_post, spec_elog_lines, spec_file_lines,
    spec_optional_package, spec_orphans, spec_pending_updates, sync_package_tree, upgrade_package,
    update_config_files, find_obsolete_configs, clean_distfiles, clean_old_kernels,
    revdep_consistent, check_news, PackageManager,
};
use crate::rotational::{device_query_command, getdev_rootfs, major_device_number, syspath};
use crate::text::{
    spec_contains, spec_lines, spec_numeric_only, spec_parse_i32, spec_split, spec_trim,
    spec_views, spec_ws_tokens, to_chars, trim_chars, ws_tokens, parse_i32,
};

verus! {

/// The caller-supplied context of one run: the operator's flags and the
/// values read once near the start.
pub struct WorkflowConfig {
    /// Sync the tree even when the last sync was recent.
    pub force: bool,
    /// Run the cleanup tasks after the upgrade.
    pub cleanup: bool,
    /// Let sources download in the background instead of pre-fetching.
    pub background: bool,
    /// Trim filesystems after the cleanup.
    pub trim: bool,
    /// Check and install the optional package list.
    pub optional: bool,
    /// Where reports and news are mailed.
    pub email_address: String,
    /// This machine's host name.
    pub hostname: String,
}

/// Where the workflow stands; the payload of the per-item steps is the
/// position in the list being worked through.
#[derive(Clone, Copy, PartialEq, Eq, Structural, Debug)]
pub enum Step {
    /// Nothing has happened yet.
    Begin,
    /// Awaiting the first line of the distribution identity file.
    DistroCheck,
    /// Awaiting the presence check for auxiliary tool `i`.
    DepCheck(usize),
    /// Awaiting the installation of auxiliary tool `i`.
    DepInstall(usize),
    /// Awaiting the follow-up configuration of auxiliary tool `i`.
    DepPostInstall(usize),
    /// Awaiting the contents of make.conf.
    MakeConfRead,
    /// Awaiting the append of the elog configuration lines.
    MakeConfAppend,
    /// Awaiting the presence check of the optional package list file.
    PkgFileCheck,
    /// Awaiting the creation of the optional package list file.
    PkgFileCreate,
    /// Awaiting the contents of the optional package list file.
    PkgFileRead,
    /// Awaiting the installed-check of optional package `i`.
    OptionalCheck(usize),
    /// Awaiting the installation of optional package `i`.
    OptionalInstall(usize),
    /// Awaiting the clock and the tree metadata timestamp.
    SyncClock,
    /// Awaiting the tree sync.
    Syncing,
    /// Awaiting the outdated-check of the package manager itself.
    PortagePeek,
    /// Awaiting the upgrade of the package manager.
    PortageUpgrade,
    /// Awaiting the outdated-check of the compiler.
    GccPeek,
    /// Awaiting the upgrade of the compiler.
    GccUpgrade,
    /// Awaiting the captured upgrade dry run.
    PendingScan,
    /// Awaiting the source fetch of pending package `i`.
    Fetch(usize),
    /// Awaiting the captured news count.
    NewsCount,
    /// Awaiting the captured news listing.
    NewsRead,
    /// Awaiting the mailing of the news.
    NewsMail,
    /// Awaiting the real world upgrade.
    WorldUpgrade,
    /// Awaiting the interactive configuration merge.
    ConfigMerge,
    /// Awaiting the captured dependency-cleanup dry run.
    OrphanScan,
    /// Awaiting the captured kernel release query.
    KernelQuery,
    /// Awaiting the kernel-preserving cleanup.
    PreserveClean,
    /// Awaiting the full cleanup.
    FullClean,
    /// Awaiting the captured reverse-dependency check.
    RevdepScan,
    /// Awaiting the real reverse-dependency rebuild.
    RevdepRepair,
    /// Awaiting the obsolete-configuration check.
    SanityScan,
    /// Awaiting the distfile pruning.
    DistfileClean,
    /// Awaiting the old-kernel pruning.
    KernelClean,
    /// Awaiting the mount table, for the rotational check.
    MountsRead,
    /// Awaiting the captured device listing.
    DeviceQuery,
    /// Awaiting the sysfs rotational flag.
    RotationalRead,
    /// Awaiting the filesystem trim.
    Trimming,
    /// The run is over with this exit code.
    Finished(i32),
}

/// The orchestrator's whole context: the configuration, the step awaited,
/// and what earlier steps found.
pub struct WorkflowState {
    /// The run's flags and fixed values.
    pub cfg: WorkflowConfig,
    /// The step awaited.
    pub step: Step,
    /// The classified pending updates.
    pub pending: Vec<String>,
    /// The optional package list read from its file.
    pub optional_packages: Vec<String>,
    /// The classified orphan count.
    pub orphans: i32,
    /// The classified kernel-related identity.
    pub kernels: String,
}

/// What the driver must do next.
pub enum Effect {
    /// Run this command and feed back `Ran` or `SpawnFailed`.
    Execute(CommandSpec),
    /// Read this file and feed back `FileRead`.
    ReadFile(String),
    /// Check whether this path exists and feed back `PathChecked`.
    CheckPath(String),
    /// Feed back `Clock` with the time now and the tree metadata's
    /// modification time.
    ReadClock,
    /// Create this file with these lines and feed back `Done`.
    WriteLines(String, Vec<String>),
    /// Append these lines to this file and feed back `Done`.
    AppendLines(String, Vec<String>),
    /// Mail this text to this address and feed back `Done`.
    Email(String, String),
    /// Exit the program with this code.
    Finish(i32),
}

/// One instruction to the driver: lines to tell the operator, then an
/// effect to perform.
pub struct Directive {
    /// What to print before acting.
    pub notices: Vec<String>,
    /// What to do.
    pub effect: Effect,
}

/// What the driver feeds back.
pub enum Event {
    /// Nothing yet; the very first call.
    Start,
    /// The file's contents, or `None` when it could not be read.
    FileRead(Option<String>),
    /// Whether the path exists.
    PathChecked(bool),
    /// The time now and the tree metadata's modification time, both in
    /// seconds since the epoch; `None` when the metadata is unreadable.
    Clock { now: i64, mtime: Option<i64> },
    /// The command finished: its captured stdout and exit code.
    Ran(String, i32),
    /// The command could not be spawned.
    SpawnFailed,
    /// The write, append or mail finished.
    Done,
}

// ------------------------------------------------------------------
// Vocabulary of the transition relation
// ------------------------------------------------------------------

/// The data fields carried unchanged.
pub open spec fn same_data(pre: WorkflowState, post: WorkflowState) -> bool {
    &&& post.cfg == pre.cfg
    &&& post.pending == pre.pending
    &&& post.optional_packages == pre.optional_packages
    &&& post.orphans == pre.orphans
    &&& post.kernels == pre.kernels
}

/// All data carried but the pending list.
pub open spec fn same_but_pending(pre: WorkflowState, post: WorkflowState) -> bool {
    &&& post.cfg == pre.cfg
    &&& post.optional_packages == pre.optional_packages
    &&& post.orphans == pre.orphans
    &&& post.kernels == pre.kernels
}

/// All data carried but the optional package list.
pub open spec fn same_but_optional(pre: WorkflowState, post: WorkflowState) -> bool {
    &&& post.cfg == pre.cfg
    &&& post.pending == pre.pending
    &&& post.orphans == pre.orphans
    &&& post.kernels == pre.kernels
}

/// All data carried but the orphan report.
pub open spec fn same_but_orphans(pre: WorkflowState, post: WorkflowState) -> bool {
    &&& post.cfg == pre.cfg
    &&& post.pending == pre.pending
    &&& post.optional_packages == pre.optional_packages
}

pub open spec fn no_notices(d: Directive) -> bool {
    d.notices@.len() == 0
}

pub open spec fn one_notice(d: Directive, text: Seq<char>) -> bool {
    d.notices@.len() == 1 && d.notices@[0]@ == text
}

pub open spec fn two_notices(d: Directive, a: Seq<char>, b: Seq<char>) -> bool {
    d.notices@.len() == 2 && d.notices@[0]@ == a && d.notices@[1]@ == b
}

pub open spec fn eff_run(d: Directive, line: Seq<char>, mode: OsCall) -> bool {
    d.effect matches Effect::Execute(c) && c.line@ == line && c.mode == mode
}

pub open spec fn eff_read(d: Directive, path: Seq<char>) -> bool {
    d.effect matches Effect::ReadFile(p) && p@ == path
}

pub open spec fn eff_check(d: Directive, path: Seq<char>) -> bool {
    d.effect matches Effect::CheckPath(p) && p@ == path
}

pub open spec fn eff_clock(d: Directive) -> bool {
    d.effect is ReadClock
}

pub open spec fn eff_finish(d: Directive, code: i32) -> bool {
    d.effect matches Effect::Finish(c) && c == code
}

/// The message announced when the guard keeps the running kernel.
pub open spec fn spec_preserve_notice() -> Seq<char> {
    "Preserving currently running kernel. Skipping cleanup"@
}

/// The message announced when cleanup is switched off.
pub open spec fn spec_cleanup_disabled_notice() -> Seq<char> {
    "Cleanup is disabled. Prolonged skipping of cleanup is not advised"@
}

/// The message announced at a successful end.
pub open spec fn spec_all_done_notice() -> Seq<char> {
    "All done!!!"@
}

// ------------------------------------------------------------------
// Continuations: how each phase is entered
// ------------------------------------------------------------------

/// The run aborts: exit code 1 and nothing more.
pub open spec fn cont_fatal(s: WorkflowState, d: Directive) -> bool {
    &&& s.step == Step::Finished(1)
    &&& eff_finish(d, 1)
    &&& no_notices(d)
}

/// The run ends well: the all-done word and exit code 0.
pub open spec fn cont_done(s: WorkflowState, d: Directive) -> bool {
    &&& s.step == Step::Finished(0)
    &&& eff_finish(d, 0)
    &&& one_notice(d, spec_all_done_notice())
}

/// Entering the check of auxiliary tool `i`, or the make.conf phase after
/// the last one.
pub open spec fn cont_next_dep(s: WorkflowState, d: Directive, i: int) -> bool {
    if i < 4 {
        &&& s.step == Step::DepCheck(i as usize)
        &&& eff_check(d, spec_dep_path(i))
        &&& no_notices(d)
    } else {
        &&& s.step == Step::MakeConfRead
        &&& eff_read(d, "/etc/portage/make.conf"@)
        &&& no_notices(d)
    }
}

/// Entering the optional package phase, or going on to the sync phase when
/// it was not requested.
pub open spec fn cont_pkgfile(s: WorkflowState, d: Directive) -> bool {
    if s.cfg.optional {
        &&& s.step == Step::PkgFileCheck
        &&& eff_check(d, "/etc/default/gentup"@)
        &&& no_notices(d)
    } else {
        cont_sync(s, d)
    }
}

/// Entering the installed-check of optional package `i`, or the sync phase
/// after the last one.
pub open spec fn cont_next_optional(s: WorkflowState, d: Directive, i: int) -> bool {
    if i < s.optional_packages@.len() {
        &&& s.step == Step::OptionalCheck(i as usize)
        &&& eff_run(d, "equery l "@ + s.optional_packages@[i]@, OsCall::Quiet)
        &&& no_notices(d)
    } else {
        cont_sync(s, d)
    }
}

/// Entering the tree sync phase: forced runs sync at once, others consult
/// the clock against the metadata timestamp first.
pub open spec fn cont_sync(s: WorkflowState, d: Directive) -> bool {
    if s.cfg.force {
        &&& s.step == Step::Syncing
        &&& eff_run(d, "eix-sync"@, OsCall::Spinner)
        &&& no_notices(d)
    } else {
        &&& s.step == Step::SyncClock
        &&& eff_clock(d)
        &&& no_notices(d)
    }
}

/// Entering the priority upgrade of the package manager itself.
pub open spec fn cont_portage(s: WorkflowState, d: Directive) -> bool {
    &&& s.step == Step::PortagePeek
    &&& eff_run(d, "eix -u "@ + "sys-apps/portage"@, OsCall::Quiet)
    &&& no_notices(d)
}

/// Entering the priority upgrade of the compiler.
pub open spec fn cont_gcc(s: WorkflowState, d: Directive) -> bool {
    &&& s.step == Step::GccPeek
    &&& eff_run(d, "eix -u "@ + "sys-devel/gcc"@, OsCall::Quiet)
    &&& no_notices(d)
}

/// Entering the pending-update detection.
pub open spec fn cont_pending(s: WorkflowState, d: Directive) -> bool {
    &&& s.step == Step::PendingScan
    &&& eff_run(d, "emerge -puDv @world"@, OsCall::Spinner)
    &&& no_notices(d)
}

/// Entering the source fetch of pending package `i`, or the news phase
/// after the last one.
pub open spec fn cont_next_fetch(s: WorkflowState, d: Directive, i: int) -> bool {
    if i < s.pending@.len() {
        &&& s.step == Step::Fetch(i as usize)
        &&& eff_run(d, "emerge --fetchonly --nodeps ="@ + s.pending@[i]@, OsCall::Quiet)
        &&& no_notices(d)
    } else {
        cont_news(s, d)
    }
}

/// Entering the news check.
pub open spec fn cont_news(s: WorkflowState, d: Directive) -> bool {
    &&& s.step == Step::NewsCount
    &&& eff_run(d, "eselect news count new"@, OsCall::Quiet)
    &&& no_notices(d)
}

/// Entering the real upgrade when updates are pending, else the
/// configuration merge directly.
pub open spec fn cont_upgrade(s: WorkflowState, d: Directive) -> bool {
    if s.pending@.len() > 0 {
        &&& s.step == Step::WorldUpgrade
        &&& eff_run(
            d,
            "emerge --quiet-build y -uNDv --autounmask n --with-bdeps y --changed-use --complete-graph @world"@,
            OsCall::Interactive,
        )
        &&& no_notices(d)
    } else {
        cont_config_merge(s, d)
    }
}

/// Entering the interactive configuration merge.
pub open spec fn cont_config_merge(s: WorkflowState, d: Directive) -> bool {
    &&& s.step == Step::ConfigMerge
    &&& eff_run(d, "dispatch-conf"@, OsCall::Interactive)
    &&& no_notices(d)
}

/// Entering the orphan scan.
pub open spec fn cont_orphan_scan(s: WorkflowState, d: Directive) -> bool {
    &&& s.step == Step::OrphanScan
    &&& eff_run(d, "emerge -p --depclean"@, OsCall::Spinner)
    &&& no_notices(d)
}

/// Entering the reverse-dependency phase: without the cleanup flag the
/// remaining cleanup steps are skipped and the run ends well, with a word
/// of warning.
pub open spec fn cont_revdep(s: WorkflowState, d: Directive) -> bool {
    if s.cfg.cleanup {
        &&& s.step == Step::RevdepScan
        &&& eff_run(d, "revdep-rebuild -ip"@, OsCall::Spinner)
        &&& no_notices(d)
    } else {
        &&& s.step == Step::Finished(0)
        &&& eff_finish(d, 0)
        &&& two_notices(d, spec_cleanup_disabled_notice(), spec_all_done_notice())
    }
}

/// Entering the obsolete-configuration sanity check.
pub open spec fn cont_sanity(s: WorkflowState, d: Directive) -> bool {
    &&& s.step == Step::SanityScan
    &&& eff_run(d, "eix-test-obsolete"@, OsCall::Interactive)
    &&& no_notices(d)
}

/// Entering the trim phase: only a run that asked for a trim reads the
/// mount table; the others end well at once.
pub open spec fn cont_trim(s: WorkflowState, d: Directive) -> bool {
    if s.cfg.trim {
        &&& s.step == Step::MountsRead
        &&& eff_read(d, "/proc/mounts"@)
        &&& no_notices(d)
    } else {
        cont_done(s, d)
    }
}

// ------------------------------------------------------------------
// The transition relation
// ------------------------------------------------------------------

/// The transition relation of the orchestrator: what `advance` yields for
/// every state and event. Events a step does not await are protocol
/// faults and abort the run; so does any spawn failure.
pub open spec fn spec_advance(
    pre: WorkflowState,
    event: Event,
    post: WorkflowState,
    d: Directive,
) -> bool {
    match (pre.step, event) {
        (Step::Begin, Event::Start) => {
            &&& same_data(pre, post)
            &&& post.step == Step::DistroCheck
            &&& eff_read(d, "/etc/os-release"@)
            &&& no_notices(d)
        },
        (Step::DistroCheck, Event::FileRead(line)) => {
            &&& same_data(pre, post)
            &&& match line {
                Some(l) => {
                    if spec_split(l@, '=').len() < 2 {
                        cont_fatal(post, d)
                    } else if spec_split(l@, '=')[1] == "Gentoo"@ {
                        cont_next_dep(post, d, 0)
                    } else {
                        &&& post.step == Step::Finished(1)
                        &&& eff_finish(d, 1)
                        &&& one_notice(
                            d,
                            "Detected this system is running "@ + spec_split(l@, '=')[1]
                                + " but this updater only works on "@ + "Gentoo"@ + " Linux"@,
                        )
                    }
                },
                None => cont_fatal(post, d),
            }
        },
        (Step::DepCheck(i), Event::PathChecked(present)) => {
            if i < 4 {
                &&& same_data(pre, post)
                &&& if present {
                    cont_next_dep(post, d, i + 1)
                } else {
                    &&& post.step == Step::DepInstall(i)
                    &&& eff_run(d, "emerge --quiet -v "@ + crate::portage::spec_dep_package(i as int), OsCall::Spinner)
                    &&& no_notices(d)
                }
            } else {
                same_data(pre, post) && cont_fatal(post, d)
            }
        },
        (Step::DepInstall(i), Event::Ran(_out, code)) => {
            if i < 4 {
                &&& same_data(pre, post)
                &&& if code == 0 {
                    if spec_dep_post(i as int).len() > 0 {
                        &&& post.step == Step::DepPostInstall(i)
                        &&& eff_run(d, spec_dep_post(i as int), OsCall::Spinner)
                        &&& no_notices(d)
                    } else {
                        cont_next_dep(post, d, i + 1)
                    }
                } else {
                    cont_fatal(post, d)
                }
            } else {
                same_data(pre, post) && cont_fatal(post, d)
            }
        },
        (Step::DepPostInstall(i), Event::Ran(_out, code)) => {
            if i < 4 {
                &&& same_data(pre, post)
                &&& if code == 0 {
                    cont_next_dep(post, d, i + 1)
                } else {
                    cont_fatal(post, d)
                }
            } else {
                same_data(pre, post) && cont_fatal(post, d)
            }
        },
        (Step::MakeConfRead, Event::FileRead(contents)) => {
            &&& same_data(pre, post)
            &&& match contents {
                Some(c) => {
                    if spec_contains(c@, "PORTAGE_ELOG_SYSTEM"@) {
                        cont_pkgfile(post, d)
                    } else {
                        &&& post.step == Step::MakeConfAppend
                        &&& (d.effect matches Effect::AppendLines(p, ls) && p@
                            == "/etc/portage/make.conf"@ && spec_views(ls@) == spec_elog_lines(
                            pre.cfg.email_address@,
                            pre.cfg.hostname@,
                        ))
                        &&& no_notices(d)
                    }
                },
                None => cont_pkgfile(post, d),
            }
        },
        (Step::MakeConfAppend, Event::Done) => {
            same_data(pre, post) && cont_pkgfile(post, d)
        },
        (Step::PkgFileCheck, Event::PathChecked(present)) => {
            &&& same_data(pre, post)
            &&& if present {
                &&& post.step == Step::PkgFileRead
                &&& eff_read(d, "/etc/default/gentup"@)
                &&& no_notices(d)
            } else {
                &&& post.step == Step::PkgFileCreate
                &&& (d.effect matches Effect::WriteLines(p, ls) && p@ == "/etc/default/gentup"@
                    && ls@.len() == 15 && (forall|k: int|
                    0 <= k < 15 ==> (#[trigger] ls@[k])@ == spec_optional_package(k)))
                &&& no_notices(d)
            }
        },
        (Step::PkgFileCreate, Event::Done) => {
            &&& same_data(pre, post)
            &&& post.step == Step::PkgFileRead
            &&& eff_read(d, "/etc/default/gentup"@)
            &&& no_notices(d)
        },
        (Step::PkgFileRead, Event::FileRead(contents)) => {
            match contents {
                Some(c) => {
                    &&& same_but_optional(pre, post)
                    &&& spec_views(post.optional_packages@) == spec_file_lines(c@)
                    &&& cont_next_optional(post, d, 0)
                },
                None => same_data(pre, post) && cont_fatal(post, d),
            }
        },
        (Step::OptionalCheck(i), Event::Ran(_out, code)) => {
            if i < pre.optional_packages@.len() {
                &&& same_data(pre, post)
                &&& if code != 0 {
                    &&& post.step == Step::OptionalInstall(i)
                    &&& eff_run(
                        d,
                        "emerge --quiet --autounmask y --autounmask-write y -v "@
                            + pre.optional_packages@[i as int]@,
                        OsCall::Interactive,
                    )
                    &&& no_notices(d)
                } else {
                    cont_next_optional(post, d, i + 1)
                }
            } else {
                same_data(pre, post) && cont_fatal(post, d)
            }
        },
        (Step::OptionalInstall(i), Event::Ran(_out, code)) => {
            if i < pre.optional_packages@.len() {
                &&& same_data(pre, post)
                &&& if code == 0 {
                    cont_next_optional(post, d, i + 1)
                } else {
                    cont_fatal(post, d)
                }
            } else {
                same_data(pre, post) && cont_fatal(post, d)
            }
        },
        (Step::SyncClock, Event::Clock { now, mtime }) => {
            &&& same_data(pre, post)
            &&& match mtime {
                Some(m) => {
                    if now - m < 86400 {
                        cont_portage(post, d)
                    } else {
                        &&& post.step == Step::Syncing
                        &&& eff_run(d, "eix-sync"@, OsCall::Spinner)
                        &&& no_notices(d)
                    }
                },
                None => cont_fatal(post, d),
            }
        },
        (Step::Syncing, Event::Ran(_out, code)) => {
            &&& same_data(pre, post)
            &&& if code == 0 {
                cont_portage(post, d)
            } else {
                cont_fatal(post, d)
            }
        },
        (Step::PortagePeek, Event::Ran(_out, code)) => {
            &&& same_data(pre, post)
            &&& if code == 0 {
                &&& post.step == Step::PortageUpgrade
                &&& eff_run(d, "emerge --quiet -1v "@ + "sys-apps/portage"@, OsCall::Interactive)
                &&& no_notices(d)
            } else {
                cont_gcc(post, d)
            }
        },
        (Step::PortageUpgrade, Event::Ran(_out, code)) => {
            &&& same_data(pre, post)
            &&& if code == 0 {
                cont_gcc(post, d)
            } else {
                cont_fatal(post, d)
            }
        },
        (Step::GccPeek, Event::Ran(_out, code)) => {
            &&& same_data(pre, post)
            &&& if code == 0 {
                &&& post.step == Step::GccUpgrade
                &&& eff_run(d, "emerge --quiet -1v "@ + "sys-devel/gcc"@, OsCall::Interactive)
                &&& no_notices(d)
            } else {
                cont_pending(post, d)
            }
        },
        (Step::GccUpgrade, Event::Ran(_out, code)) => {
            &&& same_data(pre, post)
            &&& if code == 0 {
                cont_pending(post, d)
            } else {
                cont_fatal(post, d)
            }
        },
        (Step::PendingScan, Event::Ran(out, _code)) => {
            &&& same_but_pending(pre, post)
            &&& spec_views(post.pending@) == spec_pending_updates(out@)
            &&& if spec_pending_updates(out@).len() == 0 && !pre.cfg.force && !pre.cfg.cleanup {
                &&& post.step == Step::Finished(0)
                &&& eff_finish(d, 0)
                &&& no_notices(d)
            } else if spec_pending_updates(out@).len() > 0 && !pre.cfg.background {
                cont_next_fetch(post, d, 0)
            } else {
                cont_news(post, d)
            }
        },
        (Step::Fetch(i), Event::Ran(_out, code)) => {
            if i < pre.pending@.len() {
                &&& same_data(pre, post)
                &&& if code == 0 {
                    cont_next_fetch(post, d, i + 1)
                } else {
                    cont_fatal(post, d)
                }
            } else {
                same_data(pre, post) && cont_fatal(post, d)
            }
        },
        (Step::NewsCount, Event::Ran(out, code)) => {
            &&& same_data(pre, post)
            &&& if code != 0 {
                cont_fatal(post, d)
            } else if crate::portage::spec_news_count(out@) == 0 {
                cont_upgrade(post, d)
            } else {
                &&& post.step == Step::NewsRead
                &&& eff_run(d, "eselect news read"@, OsCall::Quiet)
                &&& no_notices(d)
            }
        },
        (Step::NewsRead, Event::Ran(out, _code)) => {
            &&& same_data(pre, post)
            &&& post.step == Step::NewsMail
            &&& (d.effect matches Effect::Email(to, body) && to@ == pre.cfg.email_address@
                && body@ == out@)
            &&& no_notices(d)
        },
        (Step::NewsMail, Event::Done) => {
            same_data(pre, post) && cont_upgrade(post, d)
        },
        (Step::WorldUpgrade, Event::Ran(_out, code)) => {
            &&& same_data(pre, post)
            &&& if code == 0 {
                cont_config_merge(post, d)
            } else {
                cont_fatal(post, d)
            }
        },
        (Step::ConfigMerge, Event::Ran(_out, code)) => {
            &&& same_data(pre, post)
            &&& if code == 0 {
                cont_orphan_scan(post, d)
            } else {
                cont_fatal(post, d)
            }
        },
        (Step::OrphanScan, Event::Ran(out, code)) => {
            if code == 0 {
                &&& same_but_orphans(pre, post)
                &&& post.orphans == spec_orphans(out@).0
                &&& post.kernels@ == spec_orphans(out@).1
                &&& if spec_orphans(out@).0 > 0 {
                    &&& post.step == Step::KernelQuery
                    &&& eff_run(d, "uname -r"@, OsCall::Quiet)
                    &&& no_notices(d)
                } else {
                    cont_revdep(post, d)
                }
            } else {
                same_data(pre, post) && cont_fatal(post, d)
            }
        },
        (Step::KernelQuery, Event::Ran(out, _code)) => {
            &&& same_data(pre, post)
            &&& {
                let plan = spec_guard_cleanup(
                    pre.orphans,
                    pre.kernels@,
                    spec_numeric_only(out@),
                );
                match plan {
                    CleanupPlan::ExcludeKernelPackages => {
                        if pre.cfg.cleanup {
                            &&& post.step == Step::PreserveClean
                            &&& eff_run(
                                d,
                                "emerge --depclean --exclude sys-kernel/gentoo-kernel-bin --exclude sys-kernel/gentoo-sources"@,
                                OsCall::Interactive,
                            )
                            &&& no_notices(d)
                        } else {
                            &&& post.step == Step::Finished(0)
                            &&& eff_finish(d, 0)
                            &&& two_notices(d, spec_preserve_notice(), spec_all_done_notice())
                        }
                    },
                    CleanupPlan::FullCleanup => {
                        if pre.cfg.cleanup {
                            &&& post.step == Step::FullClean
                            &&& eff_run(d, "emerge --depclean"@, OsCall::Interactive)
                            &&& no_notices(d)
                        } else {
                            cont_revdep(post, d)
                        }
                    },
                    CleanupPlan::NoAction => cont_revdep(post, d),
                }
            }
        },
        (Step::PreserveClean, Event::Ran(_out, code)) => {
            &&& same_data(pre, post)
            &&& if code == 0 {
                &&& post.step == Step::Finished(0)
                &&& eff_finish(d, 0)
                &&& two_notices(d, spec_preserve_notice(), spec_all_done_notice())
            } else {
                cont_fatal(post, d)
            }
        },
        (Step::FullClean, Event::Ran(_out, code)) => {
            &&& same_data(pre, post)
            &&& if code == 0 {
                cont_revdep(post, d)
            } else {
                cont_fatal(post, d)
            }
        },
        (Step::RevdepScan, Event::Ran(out, code)) => {
            &&& same_data(pre, post)
            &&& if code != 0 {
                cont_fatal(post, d)
            } else if crate::portage::spec_revdep_consistent(out@) {
                cont_sanity(post, d)
            } else {
                &&& post.step == Step::RevdepRepair
                &&& eff_run(d, "revdep-rebuild"@, OsCall::Interactive)
                &&& no_notices(d)
            }
        },
        (Step::RevdepRepair, Event::Ran(_out, code)) => {
            &&& same_data(pre, post)
            &&& if code == 0 {
                cont_sanity(post, d)
            } else {
                cont_fatal(post, d)
            }
        },
        (Step::SanityScan, Event::Ran(_out, code)) => {
            &&& same_data(pre, post)
            &&& if code == 0 {
                &&& post.step == Step::DistfileClean
                &&& eff_run(d, "eclean -d distfiles"@, OsCall::Interactive)
                &&& no_notices(d)
            } else {
                cont_fatal(post, d)
            }
        },
        (Step::DistfileClean, Event::Ran(_out, code)) => {
            &&& same_data(pre, post)
            &&& if code == 0 {
                &&& post.step == Step::KernelClean
                &&& eff_run(d, "eclean-kernel -a"@, OsCall::Interactive)
                &&& no_notices(d)
            } else {
                cont_fatal(post, d)
            }
        },
        (Step::KernelClean, Event::Ran(_out, code)) => {
            &&& same_data(pre, post)
            &&& if code == 0 {
                cont_trim(post, d)
            } else {
                cont_fatal(post, d)
            }
        },
        (Step::MountsRead, Event::FileRead(contents)) => {
            &&& same_data(pre, post)
            &&& match contents {
                Some(c) => {
                    &&& post.step == Step::DeviceQuery
                    &&& eff_run(
                        d,
                        "ls -l "@ + crate::rotational::spec_rootfs_scan(spec_lines(c@)),
                        OsCall::Quiet,
                    )
                    &&& no_notices(d)
                },
                None => cont_done(post, d),
            }
        },
        (Step::DeviceQuery, Event::Ran(out, _code)) => {
            &&& same_data(pre, post)
            &&& if spec_ws_tokens(out@).len() >= 5 {
                &&& post.step == Step::RotationalRead
                &&& eff_read(
                    d,
                    "/sys/dev/block/"@ + spec_numeric_only(spec_ws_tokens(out@)[4])
                        + ":0/queue/rotational"@,
                )
                &&& no_notices(d)
            } else {
                cont_done(post, d)
            }
        },
        (Step::RotationalRead, Event::FileRead(contents)) => {
            &&& same_data(pre, post)
            &&& match contents {
                Some(c) => {
                    if spec_parse_i32(spec_trim(c@)) == Some(0i32) {
                        &&& post.step == Step::Trimming
                        &&& eff_run(d, "fstrim -a"@, OsCall::Spinner)
                        &&& no_notices(d)
                    } else {
                        cont_done(post, d)
                    }
                },
                None => cont_done(post, d),
            }
        },
        (Step::Trimming, Event::Ran(_out, code)) => {
            &&& same_data(pre, post)
            &&& if code == 0 {
                cont_done(post, d)
            } else {
                cont_fatal(post, d)
            }
        },
        (Step::Finished(c), _) => {
            &&& same_data(pre, post)
            &&& post.step == Step::Finished(c)
            &&& eff_finish(d, c)
            &&& no_notices(d)
        },
        _ => {
            same_data(pre, post) && cont_fatal(post, d)
        },
    }
}

// ------------------------------------------------------------------
// Building directives
// ------------------------------------------------------------------

/// An empty notice list.
fn no_notes() -> (r: Vec<String>)
    ensures
        r@.len() == 0,
{
    Vec::new()
}

/// One notice.
fn one_note(s: &str) -> (r: Vec<String>)
    ensures
        r@.len() == 1,
        r@[0]@ == s@,
{
    let mut r: Vec<String> = Vec::new();
    r.push(String::from_str(s));
    r
}

/// Two notices.
fn two_notes(a: &str, b: &str) -> (r: Vec<String>)
    ensures
        r@.len() == 2,
        r@[0]@ == a@,
        r@[1]@ == b@,
{
    let mut r: Vec<String> = Vec::new();
    r.push(String::from_str(a));
    r.push(String::from_str(b));
    r
}

/// One notice carried over from an owned string.
fn note_of(s: String) -> (r: Vec<String>)
    ensures
        r@.len() == 1,
        r@[0] == s,
{
    let mut r: Vec<String> = Vec::new();
    r.push(s);
    r
}

/// The state at the given step, with a directive to run the command.
fn run_step(st: WorkflowState, step: Step, cmd: CommandSpec) -> (r: (WorkflowState, Directive))
    ensures
        same_data(st, r.0),
        r.0.step == step,
        no_notices(r.1),
        r.1.effect matches Effect::Execute(c) && c == cmd,
{
    (
        WorkflowState {
            cfg: st.cfg,
            step,
            pending: st.pending,
            optional_packages: st.optional_packages,
            orphans: st.orphans,
            kernels: st.kernels,
        },
        Directive { notices: no_notes(), effect: Effect::Execute(cmd) },
    )
}

/// The state at the given step, with a directive to run the command a
/// package-manager mode builder produced.
fn run_pm(st: WorkflowState, step: Step, cmd: Option<CommandSpec>) -> (r: (
    WorkflowState,
    Directive,
))
    requires
        cmd is Some,
    ensures
        same_data(st, r.0),
        r.0.step == step,
        no_notices(r.1),
        r.1.effect matches Effect::Execute(c) && Some(c) == cmd,
{
    match cmd {
        Some(c) => run_step(st, step, c),
        None => (st, Directive { notices: no_notes(), effect: Effect::Finish(1) }),
    }
}

/// The state at the given step, with a directive to read the file.
fn read_step(st: WorkflowState, step: Step, path: String) -> (r: (WorkflowState, Directive))
    ensures
        same_data(st, r.0),
        r.0.step == step,
        no_notices(r.1),
        r.1.effect matches Effect::ReadFile(p) && p == path,
{
    (
        WorkflowState {
            cfg: st.cfg,
            step,
            pending: st.pending,
            optional_packages: st.optional_packages,
            orphans: st.orphans,
            kernels: st.kernels,
        },
        Directive { notices: no_notes(), effect: Effect::ReadFile(path) },
    )
}

/// The state at the given step, with a directive to check the path.
fn check_step(st: WorkflowState, step: Step, path: String) -> (r: (WorkflowState, Directive))
    ensures
        same_data(st, r.0),
        r.0.step == step,
        no_notices(r.1),
        r.1.effect matches Effect::CheckPath(p) && p == path,
{
    (
        WorkflowState {
            cfg: st.cfg,
            step,
            pending: st.pending,
            optional_packages: st.optional_packages,
            orphans: st.orphans,
            kernels: st.kernels,
        },
        Directive { notices: no_notes(), effect: Effect::CheckPath(path) },
    )
}

/// The state at the given step, with a directive to read the clock.
fn clock_step(st: WorkflowState, step: Step) -> (r: (WorkflowState, Directive))
    ensures
        same_data(st, r.0),
        r.0.step == step,
        no_notices(r.1),
        r.1.effect is ReadClock,
{
    (
        WorkflowState {
            cfg: st.cfg,
            step,
            pending: st.pending,
            optional_packages: st.optional_packages,
            orphans: st.orphans,
            kernels: st.kernels,
        },
        Directive { notices: no_notes(), effect: Effect::ReadClock },
    )
}

/// The finished state, with the notices and the exit directive.
fn finish_step(st: WorkflowState, code: i32, notices: Vec<String>) -> (r: (
    WorkflowState,
    Directive,
))
    ensures
        same_data(st, r.0),
        r.0.step == Step::Finished(code),
        r.1.notices == notices,
        eff_finish(r.1, code),
{
    (
        WorkflowState {
            cfg: st.cfg,
            step: Step::Finished(code),
            pending: st.pending,
            optional_packages: st.optional_packages,
            orphans: st.orphans,
            kernels: st.kernels,
        },
        Directive { notices, effect: Effect::Finish(code) },
    )
}

/// The silent abort.
fn fatal(st: WorkflowState) -> (r: (WorkflowState, Directive))
    ensures
        same_data(st, r.0),
        cont_fatal(r.0, r.1),
{
    finish_step(st, 1, no_notes())
}

/// The happy end.
fn go_done(st: WorkflowState) -> (r: (WorkflowState, Directive))
    ensures
        same_data(st, r.0),
        cont_done(r.0, r.1),
{
    finish_step(st, 0, one_note("All done!!!"))
}

// ------------------------------------------------------------------
// Phase entries
// ------------------------------------------------------------------

/// Goes on to the check of the tool after `i`, or to the make.conf phase.
fn next_dep(st: WorkflowState, i: usize) -> (r: (WorkflowState, Directive))
    requires
        i < 4,
    ensures
        same_data(st, r.0),
        cont_next_dep(r.0, r.1, i + 1),
{
    if i + 1 < 4 {
        check_step(st, Step::DepCheck(i + 1), String::from_str(dep_path(i + 1)))
    } else {
        read_step(st, Step::MakeConfRead, String::from_str("/etc/portage/make.conf"))
    }
}

/// Enters the sync phase.
fn go_sync(st: WorkflowState) -> (r: (WorkflowState, Directive))
    ensures
        same_data(st, r.0),
        cont_sync(r.0, r.1),
{
    if st.cfg.force {
        run_step(st, Step::Syncing, sync_package_tree())
    } else {
        clock_step(st, Step::SyncClock)
    }
}

/// Enters the optional package phase, or skips to the sync phase.
fn go_pkgfile(st: WorkflowState) -> (r: (WorkflowState, Directive))
    ensures
        same_data(st, r.0),
        cont_pkgfile(r.0, r.1),
{
    if st.cfg.optional {
        check_step(st, Step::PkgFileCheck, String::from_str("/etc/default/gentup"))
    } else {
        go_sync(st)
    }
}

/// Goes on to the installed-check of optional package `i`, or to the sync
/// phase after the last one.
fn go_optional(st: WorkflowState, i: usize) -> (r: (WorkflowState, Directive))
    ensures
        same_data(st, r.0),
        cont_next_optional(r.0, r.1, i as int),
{
    if i < st.optional_packages.len() {
        let cmd = package_is_missing_command(st.optional_packages[i].as_str());
        run_step(st, Step::OptionalCheck(i), cmd)
    } else {
        go_sync(st)
    }
}

/// Enters the priority check of the package manager itself.
fn go_portage(st: WorkflowState) -> (r: (WorkflowState, Directive))
    ensures
        same_data(st, r.0),
        cont_portage(r.0, r.1),
{
    run_step(st, Step::PortagePeek, package_outdated_command("sys-apps/portage"))
}

/// Enters the priority check of the compiler.
fn go_gcc(st: WorkflowState) -> (r: (WorkflowState, Directive))
    ensures
        same_data(st, r.0),
        cont_gcc(r.0, r.1),
{
    run_step(st, Step::GccPeek, package_outdated_command("sys-devel/gcc"))
}

/// Enters the pending-update detection.
fn go_pending(st: WorkflowState) -> (r: (WorkflowState, Directive))
    ensures
        same_data(st, r.0),
        cont_pending(r.0, r.1),
{
    run_pm(st, Step::PendingScan, PackageManager::DryRun.update_all_packages())
}

/// Goes on to the fetch of pending package `i`, or to the news phase.
fn go_fetch(st: WorkflowState, i: usize) -> (r: (WorkflowState, Directive))
    ensures
        same_data(st, r.0),
        cont_next_fetch(r.0, r.1, i as int),
{
    if i < st.pending.len() {
        let cmd = fetch_source_command(st.pending[i].as_str());
        run_step(st, Step::Fetch(i), cmd)
    } else {
        go_news(st)
    }
}

/// Enters the news check.
fn go_news(st: WorkflowState) -> (r: (WorkflowState, Directive))
    ensures
        same_data(st, r.0),
        cont_news(r.0, r.1),
{
    run_step(st, Step::NewsCount, news_count_command())
}

/// Enters the real upgrade, or the configuration merge when nothing is
/// pending.
fn go_upgrade(st: WorkflowState) -> (r: (WorkflowState, Directive))
    ensures
        same_data(st, r.0),
        cont_upgrade(r.0, r.1),
{
    if st.pending.len() > 0 {
        run_pm(st, Step::WorldUpgrade, PackageManager::NoDryRun.update_all_packages())
    } else {
        go_config_merge(st)
    }
}

/// Enters the configuration merge.
fn go_config_merge(st: WorkflowState) -> (r: (WorkflowState, Directive))
    ensures
        same_data(st, r.0),
        cont_config_merge(r.0, r.1),
{
    run_step(st, Step::ConfigMerge, update_config_files())
}

/// Enters the orphan scan.
fn go_orphan_scan(st: WorkflowState) -> (r: (WorkflowState, Directive))
    ensures
        same_data(st, r.0),
        cont_orphan_scan(r.0, r.1),
{
    run_pm(st, Step::OrphanScan, PackageManager::DryRun.depclean())
}

/// Enters the reverse-dependency phase, or ends the run when cleanup is
/// switched off.
fn go_revdep(st: WorkflowState) -> (r: (WorkflowState, Directive))
    ensures
        same_data(st, r.0),
        cont_revdep(r.0, r.1),
{
    if st.cfg.cleanup {
        run_pm(st, Step::RevdepScan, PackageManager::DryRun.revdep_rebuild())
    } else {
        finish_step(
            st,
            0,
            two_notes(
                "Cleanup is disabled. Prolonged skipping of cleanup is not advised",
                "All done!!!",
            ),
        )
    }
}

/// Enters the sanity check.
fn go_sanity(st: WorkflowState) -> (r: (WorkflowState, Directive))
    ensures
        same_data(st, r.0),
        cont_sanity(r.0, r.1),
{
    run_step(st, Step::SanityScan, find_obsolete_configs())
}

/// Enters the trim phase, or ends the run.
fn go_trim(st: WorkflowState) -> (r: (WorkflowState, Directive))
    ensures
        same_data(st, r.0),
        cont_trim(r.0, r.1),
{
    if st.cfg.trim {
        read_step(st, Step::MountsRead, String::from_str("/proc/mounts"))
    } else {
        go_done(st)
    }
}

// ------------------------------------------------------------------
// The machine
// ------------------------------------------------------------------

impl WorkflowState {
    /// A fresh run: nothing found yet, everything ahead.
    pub fn new(cfg: WorkflowConfig) -> (r: WorkflowState)
        ensures
            r.cfg == cfg,
            r.step == Step::Begin,
            r.pending@.len() == 0,
            r.optional_packages@.len() == 0,
            r.orphans == 0,
            r.kernels@.len() == 0,
    {
        WorkflowState {
            cfg,
            step: Step::Begin,
            pending: Vec::new(),
            optional_packages: Vec::new(),
            orphans: 0,
            kernels: String::new(),
        }
    }

    /// One transition of the orchestrator: consumes the outcome of the
    /// previous action and yields the next state with the directive to
    /// act on, exactly as the transition relation [`spec_advance`] says.
    pub fn advance(self, event: Event) -> (r: (WorkflowState, Directive))
        ensures
            spec_advance(self, event, r.0, r.1),
    {
        match (self.step, event) {
            (Step::Begin, Event::Start) => {
                read_step(self, Step::DistroCheck, String::from_str("/etc/os-release"))
            },
            (Step::DistroCheck, Event::FileRead(line)) => {
                match line {
                    Some(l) => {
                        let chars = to_chars(l.as_str());
                        let parts = crate::text::split_on(&chars, '=');
                        if parts.len() < 2 {
                            fatal(self)
                        } else {
                            match check_distro(l.as_str(), "Gentoo") {
                                Ok(_detected) => {
                                    check_step(
                                        self,
                                        Step::DepCheck(0),
                                        String::from_str(dep_path(0)),
                                    )
                                },
                                Err(msg) => finish_step(self, 1, note_of(msg)),
                            }
                        }
                    },
                    None => fatal(self),
                }
            },
            (Step::DepCheck(i), Event::PathChecked(present)) => {
                if i < 4 {
                    if present {
                        next_dep(self, i)
                    } else {
                        run_step(self, Step::DepInstall(i), install_dep_command(i))
                    }
                } else {
                    fatal(self)
                }
            },
            (Step::DepInstall(i), Event::Ran(_out, code)) => {
                if i < 4 {
                    if code == 0 {
                        match dep_post_command(i) {
                            Some(c) => run_step(self, Step::DepPostInstall(i), c),
                            None => next_dep(self, i),
                        }
                    } else {
                        fatal(self)
                    }
                } else {
                    fatal(self)
                }
            },
            (Step::DepPostInstall(i), Event::Ran(_out, code)) => {
                if i < 4 {
                    if code == 0 {
                        next_dep(self, i)
                    } else {
                        fatal(self)
                    }
                } else {
                    fatal(self)
                }
            },
            (Step::MakeConfRead, Event::FileRead(contents)) => {
                match contents {
                    Some(c) => {
                        let added = configure_elogv(
                            c.as_str(),
                            self.cfg.email_address.as_str(),
                            self.cfg.hostname.as_str(),
                        );
                        match added {
                            Some(ls) => {
                                let st2 = WorkflowState {
                                    cfg: self.cfg,
                                    step: Step::MakeConfAppend,
                                    pending: self.pending,
                                    optional_packages: self.optional_packages,
                                    orphans: self.orphans,
                                    kernels: self.kernels,
                                };
                                (
                                    st2,
                                    Directive {
                                        notices: no_notes(),
                                        effect: Effect::AppendLines(
                                            String::from_str("/etc/portage/make.conf"),
                                            ls,
                                        ),
                                    },
                                )
                            },
                            None => go_pkgfile(self),
                        }
                    },
                    None => go_pkgfile(self),
                }
            },
            (Step::MakeConfAppend, Event::Done) => go_pkgfile(self),
            (Step::PkgFileCheck, Event::PathChecked(present)) => {
                if present {
                    read_step(self, Step::PkgFileRead, String::from_str("/etc/default/gentup"))
                } else {
                    let st2 = WorkflowState {
                        cfg: self.cfg,
                        step: Step::PkgFileCreate,
                        pending: self.pending,
                        optional_packages: self.optional_packages,
                        orphans: self.orphans,
                        kernels: self.kernels,
                    };
                    (
                        st2,
                        Directive {
                            notices: no_notes(),
                            effect: Effect::WriteLines(
                                String::from_str("/etc/default/gentup"),
                                default_optional_packages(),
                            ),
                        },
                    )
                }
            },
            (Step::PkgFileCreate, Event::Done) => {
                read_step(self, Step::PkgFileRead, String::from_str("/etc/default/gentup"))
            },
            (Step::PkgFileRead, Event::FileRead(contents)) => {
                match contents {
                    Some(c) => {
                        let pkgs = package_lines(c.as_str());
                        let st2 = WorkflowState {
                            cfg: self.cfg,
                            step: self.step,
                            pending: self.pending,
                            optional_packages: pkgs,
                            orphans: self.orphans,
                            kernels: self.kernels,
                        };
                        go_optional(st2, 0)
                    },
                    None => fatal(self),
                }
            },
            (Step::OptionalCheck(i), Event::Ran(_out, code)) => {
                if i < self.optional_packages.len() {
                    if crate::portage::package_is_missing(code) {
                        let cmd = install_optional_command(self.optional_packages[i].as_str());
                        run_step(self, Step::OptionalInstall(i), cmd)
                    } else {
                        go_optional(self, i + 1)
                    }
                } else {
                    fatal(self)
                }
            },
            (Step::OptionalInstall(i), Event::Ran(_out, code)) => {
                if i < self.optional_packages.len() {
                    if code == 0 {
                        go_optional(self, i + 1)
                    } else {
                        fatal(self)
                    }
                } else {
                    fatal(self)
                }
            },
            (Step::SyncClock, Event::Clock { now, mtime }) => {
                match mtime {
                    Some(m) => {
                        if crate::portage::sync_too_recent(now, m) {
                            go_portage(self)
                        } else {
                            run_step(self, Step::Syncing, sync_package_tree())
                        }
                    },
                    None => fatal(self),
                }
            },
            (Step::Syncing, Event::Ran(_out, code)) => {
                if code == 0 {
                    go_portage(self)
                } else {
                    fatal(self)
                }
            },
            (Step::PortagePeek, Event::Ran(_out, code)) => {
                if crate::portage::package_outdated(code) {
                    run_step(
                        self,
                        Step::PortageUpgrade,
                        upgrade_package("sys-apps/portage"),
                    )
                } else {
                    go_gcc(self)
                }
            },
            (Step::PortageUpgrade, Event::Ran(_out, code)) => {
                if code == 0 {
                    go_gcc(self)
                } else {
                    fatal(self)
                }
            },
            (Step::GccPeek, Event::Ran(_out, code)) => {
                if crate::portage::package_outdated(code) {
                    run_step(self, Step::GccUpgrade, upgrade_package("sys-devel/gcc"))
                } else {
                    go_pending(self)
                }
            },
            (Step::GccUpgrade, Event::Ran(_out, code)) => {
                if code == 0 {
                    go_pending(self)
                } else {
                    fatal(self)
                }
            },
            (Step::PendingScan, Event::Ran(out, _code)) => {
                let lst = get_pending_updates(out.as_str());
                let st2 = WorkflowState {
                    cfg: self.cfg,
                    step: self.step,
                    pending: lst,
                    optional_packages: self.optional_packages,
                    orphans: self.orphans,
                    kernels: self.kernels,
                };
                if st2.pending.len() == 0 && !st2.cfg.force && !st2.cfg.cleanup {
                    finish_step(st2, 0, no_notes())
                } else if st2.pending.len() > 0 && !st2.cfg.background {
                    go_fetch(st2, 0)
                } else {
                    go_news(st2)
                }
            },
            (Step::Fetch(i), Event::Ran(_out, code)) => {
                if i < self.pending.len() {
                    if code == 0 {
                        go_fetch(self, i + 1)
                    } else {
                        fatal(self)
                    }
                } else {
                    fatal(self)
                }
            },
            (Step::NewsCount, Event::Ran(out, code)) => {
                if code != 0 {
                    fatal(self)
                } else {
                    let count = check_news(out.as_str());
                    if count == 0 {
                        go_upgrade(self)
                    } else {
                        run_step(self, Step::NewsRead, news_read_command())
                    }
                }
            },
            (Step::NewsRead, Event::Ran(out, _code)) => {
                let to = self.cfg.email_address.clone();
                let st2 = WorkflowState {
                    cfg: self.cfg,
                    step: Step::NewsMail,
                    pending: self.pending,
                    optional_packages: self.optional_packages,
                    orphans: self.orphans,
                    kernels: self.kernels,
                };
                (st2, Directive { notices: no_notes(), effect: Effect::Email(to, out) })
            },
            (Step::NewsMail, Event::Done) => go_upgrade(self),
            (Step::WorldUpgrade, Event::Ran(_out, code)) => {
                if code == 0 {
                    go_config_merge(self)
                } else {
                    fatal(self)
                }
            },
            (Step::ConfigMerge, Event::Ran(_out, code)) => {
                if code == 0 {
                    go_orphan_scan(self)
                } else {
                    fatal(self)
                }
            },
            (Step::OrphanScan, Event::Ran(out, code)) => {
                if code == 0 {
                    let report = classify_orphans(out.as_str());
                    let st2 = WorkflowState {
                        cfg: self.cfg,
                        step: self.step,
                        pending: self.pending,
                        optional_packages: self.optional_packages,
                        orphans: report.0,
                        kernels: report.1,
                    };
                    if st2.orphans > 0 {
                        run_step(
                            st2,
                            Step::KernelQuery,
                            crate::linux::command("uname -r", "", OsCall::Quiet),
                        )
                    } else {
                        go_revdep(st2)
                    }
                } else {
                    fatal(self)
                }
            },
            (Step::KernelQuery, Event::Ran(out, _code)) => {
                let kernel = running_kernel(out);
                let report: crate::portage::Orphans = (self.orphans, self.kernels.clone());
                let plan = guard_cleanup(&report, kernel.as_str(), self.cfg.cleanup);
                match plan {
                    CleanupPlan::ExcludeKernelPackages => {
                        if self.cfg.cleanup {
                            run_pm(
                                self,
                                Step::PreserveClean,
                                PackageManager::PreserveKernel.depclean(),
                            )
                        } else {
                            finish_step(
                                self,
                                0,
                                two_notes(
                                    "Preserving currently running kernel. Skipping cleanup",
                                    "All done!!!",
                                ),
                            )
                        }
                    },
                    CleanupPlan::FullCleanup => {
                        if self.cfg.cleanup {
                            run_pm(self, Step::FullClean, PackageManager::AllPackages.depclean())
                        } else {
                            go_revdep(self)
                        }
                    },
                    CleanupPlan::NoAction => go_revdep(self),
                }
            },
            (Step::PreserveClean, Event::Ran(_out, code)) => {
                if code == 0 {
                    finish_step(
                        self,
                        0,
                        two_notes(
                            "Preserving currently running kernel. Skipping cleanup",
                            "All done!!!",
                        ),
                    )
                } else {
                    fatal(self)
                }
            },
            (Step::FullClean, Event::Ran(_out, code)) => {
                if code == 0 {
                    go_revdep(self)
                } else {
                    fatal(self)
                }
            },
            (Step::RevdepScan, Event::Ran(out, code)) => {
                if code != 0 {
                    fatal(self)
                } else if revdep_consistent(out.as_str()) {
                    go_sanity(self)
                } else {
                    run_pm(self, Step::RevdepRepair, PackageManager::NoDryRun.revdep_rebuild())
                }
            },
            (Step::RevdepRepair, Event::Ran(_out, code)) => {
                if code == 0 {
                    go_sanity(self)
                } else {
                    fatal(self)
                }
            },
            (Step::SanityScan, Event::Ran(_out, code)) => {
                if code == 0 {
                    run_step(self, Step::DistfileClean, clean_distfiles())
                } else {
                    fatal(self)
                }
            },
            (Step::DistfileClean, Event::Ran(_out, code)) => {
                if code == 0 {
                    run_step(self, Step::KernelClean, clean_old_kernels())
                } else {
                    fatal(self)
                }
            },
            (Step::KernelClean, Event::Ran(_out, code)) => {
                if code == 0 {
                    go_trim(self)
                } else {
                    fatal(self)
                }
            },
            (Step::MountsRead, Event::FileRead(contents)) => {
                match contents {
                    Some(c) => {
                        let dev = getdev_rootfs(c.as_str());
                        let cmd = device_query_command(dev.as_str());
                        run_step(self, Step::DeviceQuery, cmd)
                    },
                    None => go_done(self),
                }
            },
            (Step::DeviceQuery, Event::Ran(out, _code)) => {
                let chars = to_chars(out.as_str());
                let toks = ws_tokens(&chars);
                if toks.len() >= 5 {
                    let major = major_device_number(out);
                    let path = syspath(major);
                    read_step(self, Step::RotationalRead, path)
                } else {
                    go_done(self)
                }
            },
            (Step::RotationalRead, Event::FileRead(contents)) => {
                match contents {
                    Some(c) => {
                        let chars = to_chars(c.as_str());
                        let trimmed = trim_chars(&chars);
                        match parse_i32(&trimmed) {
                            Some(0) => {
                                run_step(self, Step::Trimming, crate::linux::call_fstrim())
                            },
                            _ => go_done(self),
                        }
                    },
                    None => go_done(self),
                }
            },
            (Step::Trimming, Event::Ran(_out, code)) => {
                if code == 0 {
                    go_done(self)
                } else {
                    fatal(self)
                }
            },
            (Step::Finished(c), _) => {
                finish_step(self, c, no_notes())
            },
            _ => fatal(self),
        }
    }
}

// ------------------------------------------------------------------
// Laws of the orchestrator
// ------------------------------------------------------------------

/// Law of the failure policy: a spawn failure at any step of a live run
/// aborts the whole run with exit code 1 at once; no further work is
/// ordered.
pub proof fn lemma_spawn_failure_fatal(pre: WorkflowState, post: WorkflowState, d: Directive)
    requires
        spec_advance(pre, Event::SpawnFailed, post, d),
        !(pre.step is Finished),
    ensures
        post.step == Step::Finished(1),
        eff_finish(d, 1),
{
}

/// Law of the detection step: an empty pending list with neither the
/// force nor the cleanup flag set ends the run successfully at once,
/// whatever the captured text was.
pub proof fn lemma_empty_pending_stops(
    pre: WorkflowState,
    out: String,
    code: i32,
    post: WorkflowState,
    d: Directive,
)
    requires
        pre.step == Step::PendingScan,
        spec_advance(pre, Event::Ran(out, code), post, d),
        spec_pending_updates(out@).len() == 0,
        !pre.cfg.force,
        !pre.cfg.cleanup,
    ensures
        post.step == Step::Finished(0),
        eff_finish(d, 0),
{
}

/// Law of the kernel guard at the orchestrator: when the guard finds the
/// running kernel at risk and the operator did not request cleanup, the
/// run ends successfully right after the kernel query, announcing the
/// preservation, and no removal command is ever ordered.
pub proof fn lemma_kernel_preserved_stop(
    pre: WorkflowState,
    out: String,
    code: i32,
    post: WorkflowState,
    d: Directive,
)
    requires
        pre.step == Step::KernelQuery,
        spec_advance(pre, Event::Ran(out, code), post, d),
        spec_guard_cleanup(pre.orphans, pre.kernels@, spec_numeric_only(out@))
            == CleanupPlan::ExcludeKernelPackages,
        !pre.cfg.cleanup,
    ensures
        post.step == Step::Finished(0),
        eff_finish(d, 0),
        two_notices(d, spec_preserve_notice(), spec_all_done_notice()),
{
}

} // verus!


