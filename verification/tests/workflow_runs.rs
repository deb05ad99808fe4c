use gentup::guard::{guard_cleanup, CleanupPlan};
use gentup::linux::OsCall;
use gentup::workflow::{Directive, Effect, Event, Step, WorkflowConfig, WorkflowState};

fn cfg(force: bool, cleanup: bool, background: bool, trim: bool, optional: bool) -> WorkflowConfig {
    WorkflowConfig {
        force,
        cleanup,
        background,
        trim,
        optional,
        email_address: String::from("root@localhost"),
        hostname: String::from("testhost"),
    }
}

fn at(step: Step, c: WorkflowConfig) -> WorkflowState {
    let mut st = WorkflowState::new(c);
    st.step = step;
    st
}

fn expect_execute(d: &Directive) -> &gentup::linux::CommandSpec {
    match &d.effect {
        Effect::Execute(c) => c,
        _ => panic!("expected a command directive"),
    }
}

fn expect_finish(d: &Directive) -> i32 {
    match d.effect {
        Effect::Finish(code) => code,
        _ => panic!("expected a finish directive"),
    }
}

#[test]
fn scenario_wrong_distro_exits_one_without_commands() {
    // Scenario: the environment check fails. Only the identity file is ever
    // read; no command is spawned, and the run exits with status 1.
    let st = WorkflowState::new(cfg(false, false, false, false, false));
    let (st, d) = st.advance(Event::Start);
    match &d.effect {
        Effect::ReadFile(p) => assert_eq!(p, "/etc/os-release"),
        _ => panic!("expected the identity read"),
    }
    assert_eq!(st.step, Step::DistroCheck);
    let (st, d) = st.advance(Event::FileRead(Some(String::from("NAME=Ubuntu"))));
    assert_eq!(expect_finish(&d), 1);
    assert_eq!(st.step, Step::Finished(1));
    assert_eq!(d.notices.len(), 1);
    assert_eq!(
        d.notices[0],
        "Detected this system is running Ubuntu but this updater only works on Gentoo Linux"
    );
}

#[test]
fn scenario_unreadable_identity_is_fatal() {
    let st = at(Step::DistroCheck, cfg(false, false, false, false, false));
    let (st, d) = st.advance(Event::FileRead(None));
    assert_eq!(expect_finish(&d), 1);
    assert_eq!(st.step, Step::Finished(1));
}

#[test]
fn scenario_nothing_pending_exits_zero_after_detection() {
    // Scenario: detection yields an empty list, force and cleanup unset:
    // the run ends successfully right after the detection step.
    let st = at(Step::PendingScan, cfg(false, false, false, false, false));
    let (st, d) = st.advance(Event::Ran(String::from("Nothing to merge\n"), 0));
    assert_eq!(expect_finish(&d), 0);
    assert_eq!(st.step, Step::Finished(0));
}

#[test]
fn scenario_nothing_pending_with_cleanup_goes_on() {
    let st = at(Step::PendingScan, cfg(false, true, false, false, false));
    let (st, d) = st.advance(Event::Ran(String::from("Nothing to merge\n"), 0));
    let c = expect_execute(&d);
    assert_eq!(c.line, "eselect news count new");
    assert_eq!(st.step, Step::NewsCount);
}

#[test]
fn scenario_pending_updates_are_fetched_in_order() {
    let out = "[ebuild  N ] dev-lang/rust-1.75.0\n[ebuild  U ] app-misc/tmux-3.4\n";
    let st = at(Step::PendingScan, cfg(false, false, false, false, false));
    let (st, d) = st.advance(Event::Ran(String::from(out), 0));
    let c = expect_execute(&d);
    assert_eq!(c.line, "emerge --fetchonly --nodeps =dev-lang/rust-1.75.0");
    assert_eq!(st.step, Step::Fetch(0));
    let (st, d) = st.advance(Event::Ran(String::new(), 0));
    let c = expect_execute(&d);
    assert_eq!(c.line, "emerge --fetchonly --nodeps =app-misc/tmux-3.4");
    assert_eq!(st.step, Step::Fetch(1));
    let (st, d) = st.advance(Event::Ran(String::new(), 0));
    let c = expect_execute(&d);
    assert_eq!(c.line, "eselect news count new");
    assert_eq!(st.step, Step::NewsCount);
}

#[test]
fn scenario_background_fetch_skips_the_prefetch() {
    let out = "[ebuild  N ] dev-lang/rust-1.75.0\n";
    let st = at(Step::PendingScan, cfg(false, false, true, false, false));
    let (st, d) = st.advance(Event::Ran(String::from(out), 0));
    let c = expect_execute(&d);
    assert_eq!(c.line, "eselect news count new");
    assert_eq!(st.step, Step::NewsCount);
}

#[test]
fn scenario_kernel_preserved_without_cleanup_request() {
    // Scenario: three orphans, the kernel-relation signal set, cleanup not
    // requested. The run ends with status 0, announces the preservation,
    // and never orders a removal command.
    let mut st = at(Step::OrphanScan, cfg(false, false, false, false, false));
    let dry_run = " sys-kernel/gentoo-kernel-bin-6.6.13\nNumber to remove:   3\n";
    let (st2, d) = st.advance(Event::Ran(String::from(dry_run), 0));
    st = st2;
    assert_eq!(st.orphans, 3);
    assert_eq!(st.kernels, "6613");
    let c = expect_execute(&d);
    assert_eq!(c.line, "uname -r");
    assert_eq!(st.step, Step::KernelQuery);
    let (st, d) = st.advance(Event::Ran(String::from("6.6.13-gentoo\n"), 0));
    assert_eq!(st.step, Step::Finished(0));
    assert_eq!(expect_finish(&d), 0);
    assert_eq!(d.notices.len(), 2);
    assert_eq!(
        d.notices[0],
        "Preserving currently running kernel. Skipping cleanup"
    );
    assert_eq!(d.notices[1], "All done!!!");
}

#[test]
fn scenario_kernel_preserved_with_cleanup_request_excludes_kernels() {
    let mut st = at(Step::OrphanScan, cfg(false, true, false, false, false));
    let dry_run = " sys-kernel/gentoo-kernel-bin-6.6.13\nNumber to remove:   3\n";
    let (st2, _d) = st.advance(Event::Ran(String::from(dry_run), 0));
    st = st2;
    let (st, d) = st.advance(Event::Ran(String::from("6.6.13-gentoo\n"), 0));
    let c = expect_execute(&d);
    assert_eq!(
        c.line,
        "emerge --depclean --exclude sys-kernel/gentoo-kernel-bin --exclude sys-kernel/gentoo-sources"
    );
    assert_eq!(st.step, Step::PreserveClean);
}

#[test]
fn scenario_no_kernel_risk_with_cleanup_runs_full_depclean() {
    let mut st = at(Step::OrphanScan, cfg(false, true, false, false, false));
    let dry_run = " dev-libs/libgd-2.3.3\nNumber to remove:   1\n";
    let (st2, _d) = st.advance(Event::Ran(String::from(dry_run), 0));
    st = st2;
    assert_eq!(st.kernels, "");
    let (st, d) = st.advance(Event::Ran(String::from("6.6.13-gentoo-x86_64\n"), 0));
    // An empty kernel record still contains the empty substring check only
    // when the stripped kernel identity is itself empty; a real kernel
    // identity is not found in "" and the full cleanup proceeds.
    let c = expect_execute(&d);
    assert_eq!(c.line, "emerge --depclean");
    assert_eq!(st.step, Step::FullClean);
}

#[test]
fn scenario_spawn_failure_is_fatal_at_every_step() {
    // Scenario: a spawn failure aborts with status 1, wherever it happens.
    for step in [
        Step::Syncing,
        Step::PortagePeek,
        Step::PendingScan,
        Step::Fetch(0),
        Step::NewsCount,
        Step::WorldUpgrade,
        Step::ConfigMerge,
        Step::OrphanScan,
        Step::KernelQuery,
        Step::RevdepScan,
        Step::Trimming,
    ] {
        let st = at(step, cfg(false, true, false, true, false));
        let (st, d) = st.advance(Event::SpawnFailed);
        assert_eq!(expect_finish(&d), 1);
        assert_eq!(st.step, Step::Finished(1));
    }
}

#[test]
fn scenario_sync_skipped_inside_window_and_run_outside() {
    let now: i64 = 1_700_000_000;
    // 23h59m: skipped, the workflow goes straight to the priority check.
    let st = at(Step::SyncClock, cfg(false, false, false, false, false));
    let (st, d) = st.advance(Event::Clock { now, mtime: Some(now - (23 * 3600 + 59 * 60)) });
    let c = expect_execute(&d);
    assert_eq!(c.line, "eix -u sys-apps/portage");
    assert_eq!(st.step, Step::PortagePeek);
    // 24h01m: the sync runs.
    let st = at(Step::SyncClock, cfg(false, false, false, false, false));
    let (st, d) = st.advance(Event::Clock { now, mtime: Some(now - (24 * 3600 + 60)) });
    let c = expect_execute(&d);
    assert_eq!(c.line, "eix-sync");
    assert_eq!(st.step, Step::Syncing);
}

#[test]
fn scenario_forced_sync_ignores_the_clock() {
    let st = at(Step::MakeConfRead, cfg(true, false, false, false, false));
    let (st, d) = st.advance(Event::FileRead(None));
    let c = expect_execute(&d);
    assert_eq!(c.line, "eix-sync");
    assert_eq!(st.step, Step::Syncing);
}

#[test]
fn happy_path_from_start_to_nothing_pending() {
    let st = WorkflowState::new(cfg(false, false, false, false, false));
    let (st, d) = st.advance(Event::Start);
    assert!(matches!(d.effect, Effect::ReadFile(_)));
    let (mut st, d) = st.advance(Event::FileRead(Some(String::from("NAME=Gentoo"))));
    match &d.effect {
        Effect::CheckPath(p) => assert_eq!(p, "/usr/bin/eix"),
        _ => panic!("expected the first tool check"),
    }
    // All four auxiliary tools are present.
    let expected_paths = ["/usr/bin/equery", "/usr/bin/elogv", "/usr/bin/eclean-kernel"];
    for expected in expected_paths {
        let (st2, d) = st.advance(Event::PathChecked(true));
        st = st2;
        match &d.effect {
            Effect::CheckPath(p) => assert_eq!(p, expected),
            _ => panic!("expected a tool check"),
        }
    }
    let (st, d) = st.advance(Event::PathChecked(true));
    match &d.effect {
        Effect::ReadFile(p) => assert_eq!(p, "/etc/portage/make.conf"),
        _ => panic!("expected the make.conf read"),
    }
    // elog is already configured.
    let (st, d) = st.advance(Event::FileRead(Some(String::from(
        "PORTAGE_ELOG_SYSTEM=\"mail_summary save\"\n",
    ))));
    assert!(matches!(d.effect, Effect::ReadClock));
    assert_eq!(st.step, Step::SyncClock);
    let now: i64 = 1_700_000_000;
    let (st, d) = st.advance(Event::Clock { now, mtime: Some(now - 100) });
    assert_eq!(expect_execute(&d).line, "eix -u sys-apps/portage");
    // Neither priority package is outdated.
    let (st, d) = st.advance(Event::Ran(String::new(), 1));
    assert_eq!(expect_execute(&d).line, "eix -u sys-devel/gcc");
    let (st, d) = st.advance(Event::Ran(String::new(), 1));
    assert_eq!(expect_execute(&d).line, "emerge -puDv @world");
    assert_eq!(st.step, Step::PendingScan);
    let (st, d) = st.advance(Event::Ran(String::from("Nothing to merge\n"), 0));
    assert_eq!(expect_finish(&d), 0);
    assert_eq!(st.step, Step::Finished(0));
}

#[test]
fn elog_lines_are_appended_when_missing() {
    let st = at(Step::MakeConfRead, cfg(false, false, false, false, false));
    let (st, d) = st.advance(Event::FileRead(Some(String::from("USE=\"X\"\n"))));
    match &d.effect {
        Effect::AppendLines(p, ls) => {
            assert_eq!(p, "/etc/portage/make.conf");
            assert_eq!(ls.len(), 6);
            assert_eq!(ls[0], "# Logging");
            assert_eq!(ls[3], "PORTAGE_ELOG_MAILURI=\"root@localhost /usr/bin/sendmail\"");
            assert_eq!(ls[4], "PORTAGE_ELOG_MAILFROM=\"root@testhost\"");
            assert_eq!(ls[5], "PORTAGE_ELOG_MAILSUBJECT=\"gentup elog summary from testhost\"");
        },
        _ => panic!("expected the append directive"),
    }
    assert_eq!(st.step, Step::MakeConfAppend);
}

#[test]
fn optional_packages_flow_checks_and_installs() {
    let st = at(Step::PkgFileRead, cfg(false, false, false, false, true));
    let (st, d) = st.advance(Event::FileRead(Some(String::from("app-misc/tmux\ndev-vcs/git\n"))));
    assert_eq!(expect_execute(&d).line, "equery l app-misc/tmux");
    assert_eq!(st.step, Step::OptionalCheck(0));
    // tmux is missing: exit status non-zero.
    let (st, d) = st.advance(Event::Ran(String::new(), 3));
    assert_eq!(
        expect_execute(&d).line,
        "emerge --quiet --autounmask y --autounmask-write y -v app-misc/tmux"
    );
    assert_eq!(st.step, Step::OptionalInstall(0));
    let (st, d) = st.advance(Event::Ran(String::new(), 0));
    assert_eq!(expect_execute(&d).line, "equery l dev-vcs/git");
    assert_eq!(st.step, Step::OptionalCheck(1));
    // git is installed.
    let (st, d) = st.advance(Event::Ran(String::new(), 0));
    assert!(matches!(d.effect, Effect::ReadClock));
    assert_eq!(st.step, Step::SyncClock);
}

#[test]
fn cleanup_disabled_warning_after_orphan_scan() {
    let st = at(Step::OrphanScan, cfg(false, false, false, false, false));
    let (st, d) = st.advance(Event::Ran(String::from("Number to remove:    0\n"), 0));
    assert_eq!(expect_finish(&d), 0);
    assert_eq!(st.step, Step::Finished(0));
    assert_eq!(d.notices.len(), 2);
    assert_eq!(
        d.notices[0],
        "Cleanup is disabled. Prolonged skipping of cleanup is not advised"
    );
    assert_eq!(d.notices[1], "All done!!!");
}

#[test]
fn cleanup_chain_runs_to_trim_on_solid_state_media() {
    let st = at(Step::RevdepScan, cfg(false, true, false, true, false));
    let (st, d) = st.advance(Event::Ran(String::from("Your system is consistent\n"), 0));
    assert_eq!(expect_execute(&d).line, "eix-test-obsolete");
    let (st, d) = st.advance(Event::Ran(String::new(), 0));
    assert_eq!(expect_execute(&d).line, "eclean -d distfiles");
    let (st, d) = st.advance(Event::Ran(String::new(), 0));
    assert_eq!(expect_execute(&d).line, "eclean-kernel -a");
    let (st, d) = st.advance(Event::Ran(String::new(), 0));
    match &d.effect {
        Effect::ReadFile(p) => assert_eq!(p, "/proc/mounts"),
        _ => panic!("expected the mount table read"),
    }
    let (st, d) = st.advance(Event::FileRead(Some(String::from(
        "/dev/sda3 / ext4 rw 0 0\nproc /proc proc rw 0 0\n",
    ))));
    assert_eq!(expect_execute(&d).line, "ls -l /dev/sda3");
    let (st, d) = st.advance(Event::Ran(
        String::from("brw-rw---- 1 root disk 8, 3 Jan  1 00:00 /dev/sda3"),
        0,
    ));
    match &d.effect {
        Effect::ReadFile(p) => assert_eq!(p, "/sys/dev/block/8:0/queue/rotational"),
        _ => panic!("expected the rotational read"),
    }
    let (st, d) = st.advance(Event::FileRead(Some(String::from("0\n"))));
    assert_eq!(expect_execute(&d).line, "fstrim -a");
    assert_eq!(st.step, Step::Trimming);
    let (st, d) = st.advance(Event::Ran(String::new(), 0));
    assert_eq!(expect_finish(&d), 0);
    assert_eq!(st.step, Step::Finished(0));
}

#[test]
fn rotational_media_skips_the_trim() {
    let st = at(Step::RotationalRead, cfg(false, true, false, true, false));
    let (st, d) = st.advance(Event::FileRead(Some(String::from("1\n"))));
    assert_eq!(expect_finish(&d), 0);
    assert_eq!(st.step, Step::Finished(0));
}

#[test]
fn inconsistent_revdep_triggers_the_rebuild() {
    let st = at(Step::RevdepScan, cfg(false, true, false, false, false));
    let (st, d) = st.advance(Event::Ran(String::from("broken things found\n"), 0));
    assert_eq!(expect_execute(&d).line, "revdep-rebuild");
    assert_eq!(st.step, Step::RevdepRepair);
}

#[test]
fn news_is_read_and_mailed_when_unread() {
    let st = at(Step::NewsCount, cfg(false, true, false, false, false));
    let (st, d) = st.advance(Event::Ran(String::from("2\n"), 0));
    assert_eq!(expect_execute(&d).line, "eselect news read");
    assert_eq!(st.step, Step::NewsRead);
    let (st, d) = st.advance(Event::Ran(String::from("important news text"), 0));
    match &d.effect {
        Effect::Email(to, body) => {
            assert_eq!(to, "root@localhost");
            assert_eq!(body, "important news text");
        },
        _ => panic!("expected the mail directive"),
    }
    assert_eq!(st.step, Step::NewsMail);
    let (st, d) = st.advance(Event::Done);
    // Nothing pending in this state, so the merge tool comes next.
    assert_eq!(expect_execute(&d).line, "dispatch-conf");
    assert_eq!(st.step, Step::ConfigMerge);
}

#[test]
fn guard_plans_follow_the_report() {
    assert_eq!(
        guard_cleanup(&(0, String::from("6613")), "6613", false),
        CleanupPlan::NoAction
    );
    assert_eq!(
        guard_cleanup(&(3, String::from("6613")), "6613", false),
        CleanupPlan::ExcludeKernelPackages
    );
    // The request does not widen the plan: forced cleanup still excludes
    // kernel packages.
    assert_eq!(
        guard_cleanup(&(3, String::from("6613")), "6613", true),
        CleanupPlan::ExcludeKernelPackages
    );
    assert_eq!(
        guard_cleanup(&(3, String::from("")), "6613", true),
        CleanupPlan::FullCleanup
    );
}

#[test]
fn world_upgrade_mode_is_interactive() {
    let st = at(Step::NewsCount, cfg(false, false, true, false, false));
    let mut st = st;
    st.pending.push(String::from("dev-lang/rust-1.75.0"));
    let (st, d) = st.advance(Event::Ran(String::from("0\n"), 0));
    let c = expect_execute(&d);
    assert_eq!(
        c.line,
        "emerge --quiet-build y -uNDv --autounmask n --with-bdeps y --changed-use --complete-graph @world"
    );
    assert!(matches!(c.mode, OsCall::Interactive));
    assert_eq!(st.step, Step::WorldUpgrade);
}
