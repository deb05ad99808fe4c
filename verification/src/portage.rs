//! The package-manager interface: the exact command lines the updater runs,
//! and the pure classifiers that turn captured tool output into structured
//! facts (pending updates, orphaned dependencies, reverse-dependency
//! consistency, unread-news count).

use vstd::prelude::*;

use crate::linux::{command, command_owned, CommandSpec, OsCall};
use crate::tabulate::{lemma_max_len_nonneg, spec_max_len, spec_table, tabulate_shortened};
use crate::text::{
    char_is_numeric, contains_lit, numeric_chars, parse_i32, parse_u32, spec_contains, spec_lines,
    spec_numeric_only, spec_parse_i32, spec_parse_u32, spec_split, spec_starts_with, spec_str_views,
    spec_trim, spec_views, spec_ws_tokens, split_on, starts_with_lit, to_chars, trim_chars,
    ws_tokens, chars_to_string,
};

verus! {

/// The varying ways the package manager is invoked.
#[derive(Clone, Copy, PartialEq, Eq, Structural, Debug)]
pub enum PackageManager {
    /// List what would be done, without doing it.
    DryRun,
    /// Do it for real.
    NoDryRun,
    /// Clean orphaned dependencies but keep kernel packages.
    PreserveKernel,
    /// Clean every orphaned dependency.
    AllPackages,
}

/// An orphaned-dependency report: how many packages the dependency cleaner
/// would remove, and the numeric identity of the last kernel-related line it
/// printed ("" when none appeared).
pub type Orphans = (i32, String);

impl PackageManager {
    /// The world-set update invocation: the real upgrade runs interactively
    /// so the operator can watch build output, the dry run is captured for
    /// classification. The other modes update nothing.
    pub fn update_all_packages(self) -> (r: Option<CommandSpec>)
        ensures
            match self {
                PackageManager::NoDryRun => r matches Some(c) && c.line@
                    == "emerge --quiet-build y -uNDv --autounmask n --with-bdeps y --changed-use --complete-graph @world"@
                    && c.label@ == "Updating world set"@ && c.mode == OsCall::Interactive,
                PackageManager::DryRun => r matches Some(c) && c.line@ == "emerge -puDv @world"@
                    && c.label@ == "Checking for updates"@ && c.mode == OsCall::Spinner,
                _ => r is None,
            },
    {
        match self {
            PackageManager::NoDryRun => Some(
                command(
                    "emerge --quiet-build y -uNDv --autounmask n --with-bdeps y --changed-use --complete-graph @world",
                    "Updating world set",
                    OsCall::Interactive,
                ),
            ),
            PackageManager::DryRun => Some(
                command("emerge -puDv @world", "Checking for updates", OsCall::Spinner),
            ),
            _ => None,
        }
    }

    /// The dependency-cleanup invocation for each mode: a captured dry run
    /// for classification, the kernel-preserving removal, or the full
    /// removal. Feed the dry run's output to [`classify_orphans`].
    pub fn depclean(self) -> (r: Option<CommandSpec>)
        ensures
            match self {
                PackageManager::DryRun => r matches Some(c) && c.line@ == "emerge -p --depclean"@
                    && c.label@ == "Checking for orphaned dependencies"@ && c.mode
                    == OsCall::Spinner,
                PackageManager::PreserveKernel => r matches Some(c) && c.line@
                    == "emerge --depclean --exclude sys-kernel/gentoo-kernel-bin --exclude sys-kernel/gentoo-sources"@
                    && c.label@ == "Removing orphaned dependencies"@ && c.mode
                    == OsCall::Interactive,
                PackageManager::AllPackages => r matches Some(c) && c.line@ == "emerge --depclean"@
                    && c.label@ == "Removing all orphaned dependencies"@ && c.mode
                    == OsCall::Interactive,
                PackageManager::NoDryRun => r is None,
            },
    {
        match self {
            PackageManager::DryRun => Some(
                command(
                    "emerge -p --depclean",
                    "Checking for orphaned dependencies",
                    OsCall::Spinner,
                ),
            ),
            PackageManager::PreserveKernel => Some(
                command(
                    "emerge --depclean --exclude sys-kernel/gentoo-kernel-bin --exclude sys-kernel/gentoo-sources",
                    "Removing orphaned dependencies",
                    OsCall::Interactive,
                ),
            ),
            PackageManager::AllPackages => Some(
                command("emerge --depclean", "Removing all orphaned dependencies", OsCall::Interactive),
            ),
            PackageManager::NoDryRun => None,
        }
    }

    /// The reverse-dependency check or rebuild invocation: a captured dry
    /// run for classification, or the real interactive rebuild. Feed the dry
    /// run's output to [`revdep_consistent`].
    pub fn revdep_rebuild(self) -> (r: Option<CommandSpec>)
        ensures
            match self {
                PackageManager::DryRun => r matches Some(c) && c.line@ == "revdep-rebuild -ip"@
                    && c.label@ == "Checking reverse dependencies"@ && c.mode == OsCall::Spinner,
                PackageManager::NoDryRun => r matches Some(c) && c.line@ == "revdep-rebuild"@
                    && c.label@ == "Rebuilding reverse dependencies"@ && c.mode
                    == OsCall::Interactive,
                _ => r is None,
            },
    {
        match self {
            PackageManager::DryRun => Some(
                command("revdep-rebuild -ip", "Checking reverse dependencies", OsCall::Spinner),
            ),
            PackageManager::NoDryRun => Some(
                command("revdep-rebuild", "Rebuilding reverse dependencies", OsCall::Interactive),
            ),
            _ => None,
        }
    }
}

// ------------------------------------------------------------------
// Pending-update classification
// ------------------------------------------------------------------

/// The package token of one dry-run line: the first whitespace-delimited
/// token after the first ']', or "" when nothing follows it.
pub open spec fn spec_pending_token(line: Seq<char>) -> Seq<char> {
    let rest = spec_split(line, ']')[1];
    if spec_ws_tokens(rest).len() > 0 {
        spec_ws_tokens(rest)[0]
    } else {
        Seq::<char>::empty()
    }
}

/// The package tokens of the dry-run lines, in order: one per line that
/// begins with the per-package marker "[ebuild". A marker line without a
/// ']' stops the scan.
pub open spec fn spec_pending_list(lines: Seq<Seq<char>>) -> Seq<Seq<char>>
    decreases lines.len(),
{
    if lines.len() == 0 {
        Seq::<Seq<char>>::empty()
    } else {
        let l = lines[0];
        if spec_starts_with(l, "[ebuild"@) {
            if spec_split(l, ']').len() >= 2 {
                seq![spec_pending_token(l)] + spec_pending_list(lines.drop_first())
            } else {
                Seq::<Seq<char>>::empty()
            }
        } else {
            spec_pending_list(lines.drop_first())
        }
    }
}

/// What the pending-update classifier extracts from a whole captured dry
/// run.
pub open spec fn spec_pending_updates(output: Seq<char>) -> Seq<Seq<char>> {
    spec_pending_list(spec_lines(output))
}

/// The pending-update classifier: scans the captured upgrade dry run and
/// returns the package identifiers pending an update, in output order. An
/// empty result means there is nothing to do.
pub fn get_pending_updates(output: &str) -> (r: Vec<String>)
    ensures
        spec_views(r@) == spec_pending_updates(output@),
{
    let chars = to_chars(output);
    let lines = split_on(&chars, '\n');
    let ghost ll = spec_lines(output@);
    let mut out: Vec<String> = Vec::new();
    let mut i: usize = 0;
    proof {
        assert(ll.skip(0) =~= ll);
        assert(spec_views(out@) =~= Seq::<Seq<char>>::empty());
        assert(spec_pending_list(ll) =~= spec_views(out@) + spec_pending_list(ll.skip(0)));
    }
    while i < lines.len()
        invariant
            i <= lines@.len(),
            ll == spec_lines(output@),
            lines@.len() == ll.len(),
            forall|j: int| 0 <= j < lines@.len() ==> lines@[j]@ == ll[j],
            spec_pending_list(ll) == spec_views(out@) + spec_pending_list(ll.skip(i as int)),
        decreases lines@.len() - i,
    {
        proof {
            assert(ll.skip(i as int)[0] == ll[i as int]);
            assert(ll.skip(i as int).drop_first() =~= ll.skip(i + 1 as int));
        }
        if starts_with_lit(&lines[i], "[ebuild") {
            let parts = split_on(&lines[i], ']');
            if parts.len() < 2 {
                proof {
                    assert(spec_starts_with(ll[i as int], "[ebuild"@));
                    assert(spec_split(ll[i as int], ']').len() < 2);
                    assert(spec_pending_list(ll.skip(i as int)) =~= Seq::<Seq<char>>::empty());
                    assert(spec_views(out@) + spec_pending_list(ll.skip(i as int)) =~= spec_views(
                        out@,
                    ));
                    assert(spec_views(out@) == spec_pending_updates(output@));
                }
                return out;
            }
            let toks = ws_tokens(&parts[1]);
            let ghost rest = spec_split(ll[i as int], ']')[1];
            proof {
                assert(parts@[1]@ == rest);
            }
            let token: String = if toks.len() > 0 {
                chars_to_string(&toks[0])
            } else {
                String::new()
            };
            proof {
                assert(token@ == spec_pending_token(ll[i as int]));
            }
            let ghost out0 = out@;
            out.push(token);
            proof {
                assert(spec_views(out@) =~= spec_views(out0).push(token@));
                assert(spec_views(out@) + spec_pending_list(ll.skip(i + 1 as int)) =~= spec_views(
                    out0,
                ) + (seq![spec_pending_token(ll[i as int])] + spec_pending_list(
                    ll.skip(i + 1 as int),
                )));
            }
        }
        i = i + 1;
    }
    proof {
        assert(ll.skip(ll.len() as int) =~= Seq::<Seq<char>>::empty());
        assert(spec_pending_list(ll.skip(ll.len() as int)) =~= Seq::<Seq<char>>::empty());
        assert(spec_views(out@) + spec_pending_list(ll.skip(ll.len() as int)) =~= spec_views(out@));
        assert(spec_views(out@) == spec_pending_updates(output@));
    }
    out
}

// ------------------------------------------------------------------
// Orphaned-dependency classification
// ------------------------------------------------------------------

/// Whether a dry-run line speaks of a kernel package.
pub open spec fn spec_kernel_line(l: Seq<char>) -> bool {
    spec_contains(l, "gentoo-kernel"@) || spec_contains(l, "gentoo-sources"@)
}

/// Whether a dry-run line is the orphan-count line.
pub open spec fn spec_count_line(l: Seq<char>) -> bool {
    spec_starts_with(l, "Number to remove"@)
}

/// The orphan count carried by the count line: its 4th whitespace-delimited
/// token read as a decimal number, or 0 when the token is missing or
/// malformed.
pub open spec fn spec_count_of_line(l: Seq<char>) -> i32 {
    let toks = spec_ws_tokens(l);
    if toks.len() >= 4 {
        match spec_parse_i32(toks[3]) {
            Some(n) => n,
            None => 0,
        }
    } else {
        0
    }
}

/// The orphan report of the dry-run lines: scanning in order, each
/// kernel-related line updates the recorded kernel identity; the first
/// count line ends the scan and supplies the count. Without a count line
/// the report is zero orphans and no kernel identity.
pub open spec fn spec_orphans_scan(lines: Seq<Seq<char>>, kernels: Seq<char>) -> (i32, Seq<char>)
    decreases lines.len(),
{
    if lines.len() == 0 {
        (0, Seq::<char>::empty())
    } else {
        let l = lines[0];
        let k2 = if spec_kernel_line(l) {
            spec_numeric_only(l)
        } else {
            kernels
        };
        if spec_count_line(l) {
            (spec_count_of_line(l), k2)
        } else {
            spec_orphans_scan(lines.drop_first(), k2)
        }
    }
}

/// What the orphan classifier extracts from a whole captured dry run.
pub open spec fn spec_orphans(output: Seq<char>) -> (i32, Seq<char>) {
    spec_orphans_scan(spec_lines(output), Seq::<char>::empty())
}

/// The orphan/depclean classifier: scans the captured dependency-cleanup
/// dry run for the orphan count and for kernel-related lines. Malformed
/// output degrades to a zero count; it is never an error.
pub fn classify_orphans(output: &str) -> (r: Orphans)
    ensures
        r.0 == spec_orphans(output@).0,
        r.1@ == spec_orphans(output@).1,
{
    let chars = to_chars(output);
    let lines = split_on(&chars, '\n');
    let ghost ll = spec_lines(output@);
    let mut kernels: Vec<char> = Vec::new();
    let mut i: usize = 0;
    proof {
        assert(ll.skip(0) =~= ll);
    }
    while i < lines.len()
        invariant
            i <= lines@.len(),
            ll == spec_lines(output@),
            lines@.len() == ll.len(),
            forall|j: int| 0 <= j < lines@.len() ==> lines@[j]@ == ll[j],
            spec_orphans_scan(ll, Seq::<char>::empty()) == spec_orphans_scan(
                ll.skip(i as int),
                kernels@,
            ),
        decreases lines@.len() - i,
    {
        proof {
            assert(ll.skip(i as int)[0] == ll[i as int]);
            assert(ll.skip(i as int).drop_first() =~= ll.skip(i + 1 as int));
        }
        let ghost k0 = kernels@;
        let kernel_here = contains_lit(&lines[i], "gentoo-kernel") || contains_lit(
            &lines[i],
            "gentoo-sources",
        );
        if kernel_here {
            kernels = numeric_chars(&lines[i]);
        }
        proof {
            assert(kernel_here == spec_kernel_line(ll[i as int]));
            assert(kernels@ == if spec_kernel_line(ll[i as int]) {
                spec_numeric_only(ll[i as int])
            } else {
                k0
            });
        }
        if starts_with_lit(&lines[i], "Number to remove") {
            let toks = ws_tokens(&lines[i]);
            let count: i32 = if toks.len() >= 4 {
                match parse_i32(&toks[3]) {
                    Some(n) => n,
                    None => 0,
                }
            } else {
                0
            };
            proof {
                assert(count == spec_count_of_line(ll[i as int]));
                assert(spec_count_line(ll[i as int]));
                assert(spec_orphans_scan(ll.skip(i as int), k0) == (
                    spec_count_of_line(ll[i as int]),
                    kernels@,
                ));
            }
            return (count, chars_to_string(&kernels));
        }
        proof {
            assert(!spec_count_line(ll[i as int]));
            assert(spec_orphans_scan(ll.skip(i as int), k0) == spec_orphans_scan(
                ll.skip(i + 1 as int),
                kernels@,
            ));
        }
        i = i + 1;
    }
    proof {
        assert(ll.skip(ll.len() as int) =~= Seq::<Seq<char>>::empty());
    }
    (0, String::new())
}

// ------------------------------------------------------------------
// Reverse-dependency classification
// ------------------------------------------------------------------

/// Whether the captured reverse-dependency check declares the system
/// consistent: some line of it begins with the consistency marker. The
/// whole output is scanned, since the marker can follow diagnostic
/// preamble.
pub open spec fn spec_revdep_consistent(output: Seq<char>) -> bool {
    exists|i: int|
        0 <= i < spec_lines(output).len() && spec_starts_with(
            #[trigger] spec_lines(output)[i],
            "Your system is consistent"@,
        )
}

/// The reverse-dependency classifier: true when no rebuild is needed.
/// Absence of the marker anywhere means a rebuild is needed.
pub fn revdep_consistent(output: &str) -> (r: bool)
    ensures
        r == spec_revdep_consistent(output@),
{
    let chars = to_chars(output);
    let lines = split_on(&chars, '\n');
    let ghost ll = spec_lines(output@);
    let mut i: usize = 0;
    while i < lines.len()
        invariant
            i <= lines@.len(),
            ll == spec_lines(output@),
            lines@.len() == ll.len(),
            forall|j: int| 0 <= j < lines@.len() ==> lines@[j]@ == ll[j],
            forall|j: int| 0 <= j < i ==> !spec_starts_with(
                #[trigger] ll[j],
                "Your system is consistent"@,
            ),
        decreases lines@.len() - i,
    {
        if starts_with_lit(&lines[i], "Your system is consistent") {
            proof {
                assert(spec_starts_with(spec_lines(output@)[i as int], "Your system is consistent"@));
            }
            return true;
        }
        i = i + 1;
    }
    proof {
        assert(forall|j: int| 0 <= j < spec_lines(output@).len() ==> !spec_starts_with(
            #[trigger] spec_lines(output@)[j],
            "Your system is consistent"@,
        ));
    }
    false
}

// ------------------------------------------------------------------
// News count
// ------------------------------------------------------------------

/// What the news-count classifier reads from the captured count query: the
/// trimmed text as a decimal number, or 0 when it is not one.
pub open spec fn spec_news_count(output: Seq<char>) -> u32 {
    match spec_parse_u32(spec_trim(output)) {
        Some(n) => n,
        None => 0,
    }
}

/// The news-count classifier: the number of unread news items announced by
/// the captured count query. Parse failure degrades to 0.
pub fn check_news(output: &str) -> (count: u32)
    ensures
        count == spec_news_count(output@),
{
    let chars = to_chars(output);
    let trimmed = trim_chars(&chars);
    match parse_u32(&trimmed) {
        Some(n) => n,
        None => 0,
    }
}

// ------------------------------------------------------------------
// Sync timing
// ------------------------------------------------------------------

/// Relies on chrono::offset::Utc::now and chrono::DateTime::timestamp: the
/// current UTC time in whole seconds since the epoch. Nothing is promised
/// of the clock's value.
#[verifier::external_body]
fn now_timestamp() -> i64 {
    chrono::offset::Utc::now().timestamp()
}

/// Whether `nowstamp` is less than 24 hours after `filestamp`, both in
/// seconds since the epoch. The tree sync is skipped when this holds, to
/// avoid syncing more than once per day.
pub fn sync_too_recent(nowstamp: i64, filestamp: i64) -> (r: bool)
    ensures
        r == (nowstamp - filestamp < 86400),
{
    (nowstamp as i128) - (filestamp as i128) < 86400
}

/// Whether the package tree's metadata timestamp is within 24 hours of the
/// clock now. The result depends on the clock at the moment of the call.
pub fn too_recent(filestamp: i64) -> bool {
    let nowstamp = now_timestamp();
    sync_too_recent(nowstamp, filestamp)
}

// ------------------------------------------------------------------
// Per-package queries and upgrades
// ------------------------------------------------------------------

/// The query that checks whether a named package is installed; its exit
/// status is the answer, not an error signal.
pub fn package_is_missing_command(package: &str) -> (r: CommandSpec)
    ensures
        r.line@ == "equery l "@ + package@,
        r.label@.len() == 0,
        r.mode == OsCall::Quiet,
{
    proof {
        reveal_strlit("");
    }
    command_owned(String::from_str("equery l ").concat(package), "", OsCall::Quiet)
}

/// Decides from the exit status of the installed-check query: a non-zero
/// status means the package is missing.
pub fn package_is_missing(return_code: i32) -> (r: bool)
    ensures
        r == (return_code != 0),
{
    return_code != 0
}

/// The package-tree synchronisation invocation.
pub fn sync_package_tree() -> (r: CommandSpec)
    ensures
        r.line@ == "eix-sync"@,
        r.label@ == "Syncing package tree"@,
        r.mode == OsCall::Spinner,
{
    command("eix-sync", "Syncing package tree", OsCall::Spinner)
}

/// The query that checks whether a named package is due an upgrade; its
/// exit status is the answer, not an error signal.
pub fn package_outdated_command(package: &str) -> (r: CommandSpec)
    ensures
        r.line@ == "eix -u "@ + package@,
        r.label@.len() == 0,
        r.mode == OsCall::Quiet,
{
    proof {
        reveal_strlit("");
    }
    command_owned(String::from_str("eix -u ").concat(package), "", OsCall::Quiet)
}

/// Decides from the exit status of the outdated query: status 0 means the
/// package needs an upgrade.
pub fn package_outdated(return_status: i32) -> (r: bool)
    ensures
        r == (return_status == 0),
{
    return_status == 0
}

/// The single-package upgrade invocation.
pub fn upgrade_package(package: &str) -> (r: CommandSpec)
    ensures
        r.line@ == "emerge --quiet -1v "@ + package@,
        r.label@ == "Upgrading package"@,
        r.mode == OsCall::Interactive,
{
    command_owned(
        String::from_str("emerge --quiet -1v ").concat(package),
        "Upgrading package",
        OsCall::Interactive,
    )
}

/// The viewer for post-installation log messages.
pub fn elog_viewer() -> (r: CommandSpec)
    ensures
        r.line@ == "elogv"@,
        r.label@ == "Checking for new ebuild logs"@,
        r.mode == OsCall::Interactive,
{
    command("elogv", "Checking for new ebuild logs", OsCall::Interactive)
}

/// The obsolete-configuration sanity check.
pub fn find_obsolete_configs() -> (r: CommandSpec)
    ensures
        r.line@ == "eix-test-obsolete"@,
        r.label@ == "Checking obsolete configs"@,
        r.mode == OsCall::Interactive,
{
    command("eix-test-obsolete", "Checking obsolete configs", OsCall::Interactive)
}

/// The old-kernel pruning invocation.
pub fn clean_old_kernels() -> (r: CommandSpec)
    ensures
        r.line@ == "eclean-kernel -a"@,
        r.label@ == "Cleaning old kernels"@,
        r.mode == OsCall::Interactive,
{
    command("eclean-kernel -a", "Cleaning old kernels", OsCall::Interactive)
}

/// The distfile pruning invocation.
pub fn clean_distfiles() -> (r: CommandSpec)
    ensures
        r.line@ == "eclean -d distfiles"@,
        r.label@ == "Cleaning unused distfiles"@,
        r.mode == OsCall::Interactive,
{
    command("eclean -d distfiles", "Cleaning unused distfiles", OsCall::Interactive)
}

/// The package-database refresh invocation.
pub fn eix_update() -> (r: CommandSpec)
    ensures
        r.line@ == "eix-update"@,
        r.label@ == "Initialising package database"@,
        r.mode == OsCall::Spinner,
{
    command("eix-update", "Initialising package database", OsCall::Spinner)
}

/// The interactive configuration-file merge invocation.
pub fn update_config_files() -> (r: CommandSpec)
    ensures
        r.line@ == "dispatch-conf"@,
        r.label@ == "Merge config file changes"@,
        r.mode == OsCall::Interactive,
{
    command("dispatch-conf", "Merge config file changes", OsCall::Interactive)
}

/// The news-count query.
pub fn news_count_command() -> (r: CommandSpec)
    ensures
        r.line@ == "eselect news count new"@,
        r.label@.len() == 0,
        r.mode == OsCall::Quiet,
{
    proof {
        reveal_strlit("");
    }
    command("eselect news count new", "", OsCall::Quiet)
}

/// The news-listing query, whose captured text is mailed to the operator.
pub fn news_read_command() -> (r: CommandSpec)
    ensures
        r.line@ == "eselect news read"@,
        r.label@ == "News listing"@,
        r.mode == OsCall::Quiet,
{
    command("eselect news read", "News listing", OsCall::Quiet)
}

/// The source pre-download invocation for one pending package.
pub fn fetch_source_command(package: &str) -> (r: CommandSpec)
    ensures
        r.line@ == "emerge --fetchonly --nodeps ="@ + package@,
        r.label@.len() == 0,
        r.mode == OsCall::Quiet,
{
    proof {
        reveal_strlit("");
    }
    command_owned(
        String::from_str("emerge --fetchonly --nodeps =").concat(package),
        "",
        OsCall::Quiet,
    )
}

// ------------------------------------------------------------------
// Required auxiliary tools
// ------------------------------------------------------------------

/// The package providing auxiliary tool `i`.
pub open spec fn spec_dep_package(i: int) -> Seq<char> {
    if i == 0 {
        "app-portage/eix"@
    } else if i == 1 {
        "app-portage/gentoolkit"@
    } else if i == 2 {
        "app-portage/elogv"@
    } else {
        "app-admin/eclean-kernel"@
    }
}

/// The path whose presence shows auxiliary tool `i` is installed.
pub open spec fn spec_dep_path(i: int) -> Seq<char> {
    if i == 0 {
        "/usr/bin/eix"@
    } else if i == 1 {
        "/usr/bin/equery"@
    } else if i == 2 {
        "/usr/bin/elogv"@
    } else {
        "/usr/bin/eclean-kernel"@
    }
}

/// The follow-up configuration command for auxiliary tool `i`; "" where
/// none is needed.
pub open spec fn spec_dep_post(i: int) -> Seq<char> {
    if i == 0 {
        "eix-update"@
    } else {
        ""@
    }
}

/// The path whose presence shows auxiliary tool `i` is installed.
pub fn dep_path(i: usize) -> (r: &'static str)
    requires
        i < 4,
    ensures
        r@ == spec_dep_path(i as int),
{
    if i == 0 {
        "/usr/bin/eix"
    } else if i == 1 {
        "/usr/bin/equery"
    } else if i == 2 {
        "/usr/bin/elogv"
    } else {
        "/usr/bin/eclean-kernel"
    }
}

/// The installation invocation for auxiliary tool `i`.
pub fn install_dep_command(i: usize) -> (r: CommandSpec)
    requires
        i < 4,
    ensures
        r.line@ == "emerge --quiet -v "@ + spec_dep_package(i as int),
        r.label@ == "Installing "@ + spec_dep_package(i as int),
        r.mode == OsCall::Spinner,
{
    let package: &str = if i == 0 {
        "app-portage/eix"
    } else if i == 1 {
        "app-portage/gentoolkit"
    } else if i == 2 {
        "app-portage/elogv"
    } else {
        "app-admin/eclean-kernel"
    };
    let label = String::from_str("Installing ").concat(package);
    command_owned(
        String::from_str("emerge --quiet -v ").concat(package),
        label.as_str(),
        OsCall::Spinner,
    )
}

/// The follow-up configuration invocation for auxiliary tool `i`, if tool
/// `i` has one.
pub fn dep_post_command(i: usize) -> (r: Option<CommandSpec>)
    requires
        i < 4,
    ensures
        spec_dep_post(i as int).len() > 0 ==> (r matches Some(c) && c.line@ == spec_dep_post(
            i as int,
        ) && c.label@ == "Post installation configuration"@ && c.mode == OsCall::Spinner),
        spec_dep_post(i as int).len() == 0 ==> r is None,
{
    if i == 0 {
        proof {
            reveal_strlit("eix-update");
        }
        Some(command("eix-update", "Post installation configuration", OsCall::Spinner))
    } else {
        proof {
            reveal_strlit("");
        }
        None
    }
}

/// The installation invocation for one optional package, allowing the
/// package manager to adjust USE flags as needed.
pub fn install_optional_command(package: &str) -> (r: CommandSpec)
    ensures
        r.line@ == "emerge --quiet --autounmask y --autounmask-write y -v "@ + package@,
        r.label@ == "Installing missing package"@,
        r.mode == OsCall::Interactive,
{
    command_owned(
        String::from_str("emerge --quiet --autounmask y --autounmask-write y -v ").concat(package),
        "Installing missing package",
        OsCall::Interactive,
    )
}

// ------------------------------------------------------------------
// elog configuration
// ------------------------------------------------------------------

/// The configuration lines appended to make.conf when elog mailing is not
/// yet set up, for the given report address and host name.
pub open spec fn spec_elog_lines(email: Seq<char>, hostname: Seq<char>) -> Seq<Seq<char>> {
    seq![
        "# Logging"@,
        "PORTAGE_ELOG_CLASSES=\"warn error log\""@,
        "PORTAGE_ELOG_SYSTEM=\"mail_summary save\""@,
        "PORTAGE_ELOG_MAILURI=\""@ + email + " /usr/bin/sendmail\""@,
        "PORTAGE_ELOG_MAILFROM=\"root@"@ + hostname + "\""@,
        "PORTAGE_ELOG_MAILSUBJECT=\"gentup elog summary from "@ + hostname + "\""@,
    ]
}

/// Decides from the contents of make.conf whether elog mailing is already
/// configured: `None` when it is, otherwise the lines to append for the
/// given report address and host name.
pub fn configure_elogv(contents: &str, email_address: &str, hostname: &str) -> (r: Option<
    Vec<String>,
>)
    ensures
        spec_contains(contents@, "PORTAGE_ELOG_SYSTEM"@) ==> r is None,
        !spec_contains(contents@, "PORTAGE_ELOG_SYSTEM"@) ==> (r matches Some(ls) && spec_views(
            ls@,
        ) == spec_elog_lines(email_address@, hostname@)),
{
    let chars = to_chars(contents);
    if contains_lit(&chars, "PORTAGE_ELOG_SYSTEM") {
        return None;
    }
    let mut ls: Vec<String> = Vec::new();
    ls.push(String::from_str("# Logging"));
    ls.push(String::from_str("PORTAGE_ELOG_CLASSES=\"warn error log\""));
    ls.push(String::from_str("PORTAGE_ELOG_SYSTEM=\"mail_summary save\""));
    ls.push(
        String::from_str("PORTAGE_ELOG_MAILURI=\"").concat(email_address).concat(
            " /usr/bin/sendmail\"",
        ),
    );
    ls.push(String::from_str("PORTAGE_ELOG_MAILFROM=\"root@").concat(hostname).concat("\""));
    ls.push(
        String::from_str("PORTAGE_ELOG_MAILSUBJECT=\"gentup elog summary from ").concat(
            hostname,
        ).concat("\""),
    );
    proof {
        assert(spec_views(ls@) =~= spec_elog_lines(email_address@, hostname@));
    }
    Some(ls)
}

// ------------------------------------------------------------------
// Optional packages
// ------------------------------------------------------------------

/// Entry `i` of the default optional-package list.
pub open spec fn spec_optional_package(i: int) -> Seq<char> {
    if i == 0 {
        "app-portage/cpuid2cpuflags"@
    } else if i == 1 {
        "app-portage/pfl"@
    } else if i == 2 {
        "app-portage/ufed"@
    } else if i == 3 {
        "app-admin/sysstat"@
    } else if i == 4 {
        "app-editors/vim"@
    } else if i == 5 {
        "net-dns/bind-tools"@
    } else if i == 6 {
        "app-misc/tmux"@
    } else if i == 7 {
        "net-misc/netkit-telnetd"@
    } else if i == 8 {
        "sys-apps/mlocate"@
    } else if i == 9 {
        "sys-apps/inxi"@
    } else if i == 10 {
        "sys-apps/pciutils"@
    } else if i == 11 {
        "sys-apps/usbutils"@
    } else if i == 12 {
        "sys-process/nmon"@
    } else if i == 13 {
        "dev-lang/rust-bin"@
    } else {
        "dev-vcs/git"@
    }
}

/// The default list of optional packages, written to the package list file
/// when it does not exist yet.
pub fn default_optional_packages() -> (r: Vec<String>)
    ensures
        r@.len() == 15,
        forall|i: int| 0 <= i < 15 ==> (#[trigger] r@[i])@ == spec_optional_package(i),
{
    let mut r: Vec<String> = Vec::new();
    r.push(String::from_str("app-portage/cpuid2cpuflags"));
    r.push(String::from_str("app-portage/pfl"));
    r.push(String::from_str("app-portage/ufed"));
    r.push(String::from_str("app-admin/sysstat"));
    r.push(String::from_str("app-editors/vim"));
    r.push(String::from_str("net-dns/bind-tools"));
    r.push(String::from_str("app-misc/tmux"));
    r.push(String::from_str("net-misc/netkit-telnetd"));
    r.push(String::from_str("sys-apps/mlocate"));
    r.push(String::from_str("sys-apps/inxi"));
    r.push(String::from_str("sys-apps/pciutils"));
    r.push(String::from_str("sys-apps/usbutils"));
    r.push(String::from_str("sys-process/nmon"));
    r.push(String::from_str("dev-lang/rust-bin"));
    r.push(String::from_str("dev-vcs/git"));
    r
}

// ------------------------------------------------------------------
// Short display names
// ------------------------------------------------------------------

/// The position of the first numeric character that directly follows a '-',
/// scanning from position `i`; the length of `s` when there is none.
pub open spec fn spec_cut_from(s: Seq<char>, i: int) -> int
    decreases s.len() - i,
{
    if i < 0 || i >= s.len() {
        s.len() as int
    } else if 1 <= i && s[i - 1] == '-' && char_is_numeric(s[i]) {
        i
    } else {
        spec_cut_from(s, i + 1)
    }
}

/// A package name shortened for display: everything before the '-' that
/// starts its version part, found at the first numeric character following
/// a '-'; a name without one loses only its final character.
pub open spec fn spec_shortname(s: Seq<char>) -> Seq<char> {
    s.take(spec_cut_from(s, 0) - 1)
}

/// Every element of `items` shortened.
pub open spec fn spec_shortnamed_all(items: Seq<Seq<char>>) -> Seq<Seq<char>> {
    items.map_values(|s: Seq<char>| spec_shortname(s))
}

/// Shortens a package name for display, cutting at the version part:
/// "sys-cluster/kube-scheduler-1.29.1::gentoo" becomes
/// "sys-cluster/kube-scheduler".
pub fn shortname(packagename: &str) -> (r: String)
    requires
        packagename@.len() >= 1,
    ensures
        r@ == spec_shortname(packagename@),
{
    let v = to_chars(packagename);
    let mut i: usize = 0;
    while i < v.len() && !(i >= 1 && v[i - 1] == '-' && v[i].is_numeric())
        invariant
            i <= v@.len(),
            v@ == packagename@,
            spec_cut_from(v@, 0) == spec_cut_from(v@, i as int),
        decreases v@.len() - i,
    {
        i = i + 1;
    }
    let position = i;
    proof {
        assert(spec_cut_from(v@, 0) == position);
    }
    let mut r: Vec<char> = Vec::new();
    let mut k: usize = 0;
    proof {
        assert(v@.subrange(0, 0) =~= Seq::<char>::empty());
    }
    while k < position - 1
        invariant
            1 <= position <= v@.len(),
            k <= position - 1,
            r@ == v@.subrange(0, k as int),
        decreases position - k,
    {
        r.push(v[k]);
        proof {
            assert(v@.subrange(0, k + 1 as int) =~= v@.subrange(0, k as int).push(v@[k as int]));
        }
        k = k + 1;
    }
    proof {
        assert(v@.subrange(0, position - 1 as int) =~= v@.take(spec_cut_from(v@, 0) - 1));
    }
    chars_to_string(&r)
}

/// The length of the longest shortened name in the list, for sizing the
/// table's columns.
pub fn longest(vec_of_strings: &Vec<&str>) -> (r: u16)
    requires
        forall|i: int| 0 <= i < vec_of_strings@.len() ==> (#[trigger] vec_of_strings@[i]@).len()
            >= 1,
        spec_max_len(spec_shortnamed_all(spec_str_views(vec_of_strings@))) <= 65535,
    ensures
        r as int == spec_max_len(spec_shortnamed_all(spec_str_views(vec_of_strings@))),
{
    let ghost items = spec_shortnamed_all(spec_str_views(vec_of_strings@));
    proof {
        lemma_max_len_nonneg(items);
    }
    let mut longest_length: usize = 0;
    let mut i: usize = 0;
    proof {
        assert(items.take(0) =~= Seq::<Seq<char>>::empty());
    }
    while i < vec_of_strings.len()
        invariant
            i <= vec_of_strings@.len(),
            items == spec_shortnamed_all(spec_str_views(vec_of_strings@)),
            items.len() == vec_of_strings@.len(),
            forall|k: int| 0 <= k < vec_of_strings@.len() ==> (#[trigger] vec_of_strings@[k]@)
                .len() >= 1,
            longest_length as int == spec_max_len(items.take(i as int)),
            spec_max_len(items) <= 65535,
        decreases vec_of_strings@.len() - i,
    {
        proof {
            assert(items.take(i + 1 as int).drop_last() =~= items.take(i as int));
            assert(items.take(i + 1 as int).last() == items[i as int]);
            assert(items[i as int] == spec_shortname(vec_of_strings@[i as int]@));
        }
        let shortened_string = shortname(vec_of_strings[i]);
        let thislen = shortened_string.as_str().unicode_len();
        if thislen > longest_length {
            longest_length = thislen;
        }
        i = i + 1;
    }
    proof {
        assert(items.take(items.len() as int) =~= items);
    }
    longest_length as u16
}

/// Renders the package list as a table for the given terminal width: each
/// name shortened, columns sized to the longest, rows wrapped.
pub fn package_list(plist: &Vec<&str>, width: u16) -> (r: String)
    requires
        forall|i: int| 0 <= i < plist@.len() ==> (#[trigger] plist@[i]@).len() >= 1,
        spec_max_len(spec_shortnamed_all(spec_str_views(plist@))) <= 65531,
    ensures
        r@ == spec_table(spec_shortnamed_all(spec_str_views(plist@)), width as int),
{
    let ghost items = spec_shortnamed_all(spec_str_views(plist@));
    let mut shorts: Vec<String> = Vec::new();
    let mut i: usize = 0;
    while i < plist.len()
        invariant
            i <= plist@.len(),
            items == spec_shortnamed_all(spec_str_views(plist@)),
            items.len() == plist@.len(),
            forall|k: int| 0 <= k < plist@.len() ==> (#[trigger] plist@[k]@).len() >= 1,
            shorts@.len() == i,
            forall|k: int| 0 <= k < i ==> (#[trigger] shorts@[k])@ == items[k],
        decreases plist@.len() - i,
    {
        proof {
            assert(items[i as int] == spec_shortname(plist@[i as int]@));
        }
        shorts.push(shortname(plist[i]));
        i = i + 1;
    }
    proof {
        assert(spec_views(shorts@) =~= items);
    }
    tabulate_shortened(&shorts, width)
}

/// The lines of the package list file, as `str::lines` yields them: split
/// on newlines, without a trailing empty line.
pub open spec fn spec_file_lines(contents: Seq<char>) -> Seq<Seq<char>> {
    let pieces = spec_lines(contents);
    if pieces.len() > 0 && pieces.last().len() == 0 {
        pieces.drop_last()
    } else {
        pieces
    }
}

/// Reads a newline-delimited package list: one package per line, a final
/// trailing newline carrying no entry.
pub fn package_lines(contents: &str) -> (r: Vec<String>)
    ensures
        spec_views(r@) == spec_file_lines(contents@),
{
    let chars = to_chars(contents);
    let mut lines = split_on(&chars, '\n');
    let ghost pieces = spec_lines(contents@);
    proof {
        crate::text::lemma_split_nonempty(contents@, '\n');
    }
    if lines.len() > 0 && lines[lines.len() - 1].len() == 0 {
        let _ = lines.pop();
    }
    let mut out: Vec<String> = Vec::new();
    let mut i: usize = 0;
    while i < lines.len()
        invariant
            i <= lines@.len(),
            lines@.len() == spec_file_lines(contents@).len(),
            forall|j: int| 0 <= j < lines@.len() ==> lines@[j]@ == spec_file_lines(contents@)[j],
            out@.len() == i,
            forall|j: int| 0 <= j < i ==> out@[j]@ == spec_file_lines(contents@)[j],
        decreases lines@.len() - i,
    {
        out.push(chars_to_string(&lines[i]));
        i = i + 1;
    }
    proof {
        assert(spec_views(out@) =~= spec_file_lines(contents@));
    }
    out
}


// ------------------------------------------------------------------
// Laws of the classifiers
// ------------------------------------------------------------------

/// The dry-run lines that carry the per-package marker, in order.
pub open spec fn spec_marker_lines(lines: Seq<Seq<char>>) -> Seq<Seq<char>>
    decreases lines.len(),
{
    if lines.len() == 0 {
        Seq::<Seq<char>>::empty()
    } else if spec_starts_with(lines[0], "[ebuild"@) {
        seq![lines[0]] + spec_marker_lines(lines.drop_first())
    } else {
        spec_marker_lines(lines.drop_first())
    }
}

/// Law of the pending-update classifier: on well-formed dry runs — every
/// marker line carries its ']' — it returns exactly one package token per
/// marker line, in the original line order.
pub proof fn lemma_pending_line_order(lines: Seq<Seq<char>>)
    requires
        forall|i: int|
            0 <= i < lines.len() && spec_starts_with(#[trigger] lines[i], "[ebuild"@)
                ==> spec_split(lines[i], ']').len() >= 2,
    ensures
        spec_pending_list(lines).len() == spec_marker_lines(lines).len(),
        forall|k: int|
            0 <= k < spec_marker_lines(lines).len() ==> #[trigger] spec_pending_list(lines)[k]
                == spec_pending_token(spec_marker_lines(lines)[k]),
    decreases lines.len(),
{
    if lines.len() > 0 {
        let rest = lines.drop_first();
        assert forall|i: int|
            0 <= i < rest.len() && spec_starts_with(#[trigger] rest[i], "[ebuild"@) implies
            spec_split(rest[i], ']').len() >= 2 by {
            assert(rest[i] == lines[i + 1]);
        }
        lemma_pending_line_order(rest);
        if spec_starts_with(lines[0], "[ebuild"@) {
            assert(spec_pending_list(lines) == seq![spec_pending_token(lines[0])]
                + spec_pending_list(rest));
            assert(spec_marker_lines(lines) == seq![lines[0]] + spec_marker_lines(rest));
            assert forall|k: int|
                0 <= k < spec_marker_lines(lines).len() implies #[trigger] spec_pending_list(
                lines,
            )[k] == spec_pending_token(spec_marker_lines(lines)[k]) by {
                if k > 0 {
                    assert(spec_pending_list(lines)[k] == spec_pending_list(rest)[k - 1]);
                    assert(spec_marker_lines(lines)[k] == spec_marker_lines(rest)[k - 1]);
                }
            }
        }
    }
}

/// Law of the orphan classifier: a dry run without the count marker line
/// reports zero orphans, whatever else the text holds.
pub proof fn lemma_orphans_without_count_line(lines: Seq<Seq<char>>, kernels: Seq<char>)
    requires
        forall|i: int| 0 <= i < lines.len() ==> !spec_count_line(#[trigger] lines[i]),
    ensures
        spec_orphans_scan(lines, kernels).0 == 0,
    decreases lines.len(),
{
    if lines.len() > 0 {
        let rest = lines.drop_first();
        assert forall|i: int| 0 <= i < rest.len() implies !spec_count_line(
            #[trigger] rest[i],
        ) by {
            assert(rest[i] == lines[i + 1]);
        }
        let k2 = if spec_kernel_line(lines[0]) {
            spec_numeric_only(lines[0])
        } else {
            kernels
        };
        lemma_orphans_without_count_line(rest, k2);
    }
}

/// The same law over a whole captured text.
pub proof fn lemma_orphans_default_zero(output: Seq<char>)
    requires
        forall|i: int|
            0 <= i < spec_lines(output).len() ==> !spec_count_line(#[trigger] spec_lines(output)[i]),
    ensures
        spec_orphans(output).0 == 0,
{
    lemma_orphans_without_count_line(spec_lines(output), Seq::<char>::empty());
}

/// Law of the reverse-dependency classifier: it is a pure function of the
/// captured text, so classifying the same text twice yields the same
/// answer both times.
pub proof fn lemma_revdep_deterministic(output: Seq<char>, first: bool, second: bool)
    requires
        first == spec_revdep_consistent(output),
        second == spec_revdep_consistent(output),
    ensures
        first == second,
{
}

} // verus!
