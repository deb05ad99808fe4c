use gentup::portage::{
    check_news, classify_orphans, get_pending_updates, revdep_consistent, sync_too_recent,
};

#[test]
fn pending_updates_in_order() {
    let out = "These are the packages that would be merged:\n\n\
               [ebuild  N ] dev-lang/rust-1.75.0::gentoo  USE=clippy\n\
               some informational line\n\
               [ebuild  U ] sys-apps/portage-3.0.61::gentoo\n\
               Total: 2 packages\n";
    let pending = get_pending_updates(out);
    assert_eq!(pending.len(), 2);
    assert_eq!(pending[0], "dev-lang/rust-1.75.0::gentoo");
    assert_eq!(pending[1], "sys-apps/portage-3.0.61::gentoo");
}

#[test]
fn pending_updates_empty_output() {
    let out = "Nothing to merge; quitting.\n";
    let pending = get_pending_updates(out);
    assert_eq!(pending.len(), 0);
}

#[test]
fn pending_updates_marker_without_bracket_stops_scan() {
    let out = "[ebuild broken line without the closing mark\n\
               [ebuild  N ] app-misc/tmux-3.4::gentoo\n";
    let pending = get_pending_updates(out);
    assert_eq!(pending.len(), 0);
}

#[test]
fn pending_updates_empty_token_after_bracket() {
    let out = "[ebuild]\n";
    let pending = get_pending_updates(out);
    assert_eq!(pending.len(), 1);
    assert_eq!(pending[0], "");
}

#[test]
fn orphans_count_and_kernel_line() {
    let out = "Calculating dependencies... done!\n\
               >>> These are the packages that would be unmerged:\n\
                sys-kernel/gentoo-kernel-bin-6.6.13\n\
                dev-libs/libgd-2.3.3\n\
               Number to remove:   3\n";
    let (count, kernels) = classify_orphans(out);
    assert_eq!(count, 3);
    assert_eq!(kernels, "6613");
}

#[test]
fn orphans_without_count_line_is_zero() {
    let out = "Calculating dependencies... done!\n\
                sys-kernel/gentoo-sources-6.1.67\n\
               nothing conclusive here\n";
    let (count, kernels) = classify_orphans(out);
    assert_eq!(count, 0);
    assert_eq!(kernels, "");
}

#[test]
fn orphans_kernel_line_after_count_line_is_not_recorded() {
    let out = "Number to remove:   1\n sys-kernel/gentoo-kernel-bin-6.6.13\n";
    let (count, kernels) = classify_orphans(out);
    assert_eq!(count, 1);
    assert_eq!(kernels, "");
}

#[test]
fn orphans_malformed_count_degrades_to_zero() {
    let out = "Number to remove: many\n";
    let (count, _kernels) = classify_orphans(out);
    assert_eq!(count, 0);
}

#[test]
fn orphans_short_count_line_degrades_to_zero() {
    let out = "Number to remove\n";
    let (count, _kernels) = classify_orphans(out);
    assert_eq!(count, 0);
}

#[test]
fn revdep_marker_found_after_preamble() {
    let out = "Collecting system binaries and libraries\n\
               Checking dynamic linking consistency\n\
               Your system is consistent\n";
    assert!(revdep_consistent(out));
}

#[test]
fn revdep_marker_absent_means_rebuild() {
    let out = "Collecting system binaries and libraries\n\
               broken /usr/bin/foo (requires libbar.so.1)\n";
    assert!(!revdep_consistent(out));
}

#[test]
fn revdep_classifier_is_idempotent() {
    let out = "preamble\nYour system is consistent\n";
    let first = revdep_consistent(out);
    let second = revdep_consistent(out);
    assert_eq!(first, second);
    let out2 = "no marker anywhere\n";
    assert_eq!(revdep_consistent(out2), revdep_consistent(out2));
}

#[test]
fn news_count_plain_number() {
    assert_eq!(check_news("3\n"), 3);
    assert_eq!(check_news("  12  \n"), 12);
    assert_eq!(check_news("0\n"), 0);
}

#[test]
fn news_count_garbage_defaults_to_zero() {
    assert_eq!(check_news("no news is good news"), 0);
    assert_eq!(check_news(""), 0);
    assert_eq!(check_news("-4"), 0);
    assert_eq!(check_news("99999999999999999999"), 0);
}

#[test]
fn news_count_accepts_leading_plus() {
    assert_eq!(check_news("+7\n"), 7);
}

#[test]
fn sync_window_boundaries() {
    let now: i64 = 1_700_000_000;
    // 23 hours 59 minutes ago: still within the window, sync is skipped.
    assert!(sync_too_recent(now, now - (23 * 3600 + 59 * 60)));
    // 24 hours 1 minute ago: outside the window, sync runs.
    assert!(!sync_too_recent(now, now - (24 * 3600 + 60)));
    // Exactly 24 hours is no longer "too recent".
    assert!(!sync_too_recent(now, now - 86400));
}
