use gentup::args::{ArgumentStruct, Search};
use gentup::config::Config;
use gentup::linux::{check_distro, command_words, running_kernel, stripchar, CouldFail,
    ShellOutResult};
use gentup::portage::{configure_elogv, default_optional_packages, longest, package_lines,
    package_list, shortname, too_recent};
use gentup::rotational::{getdev_rootfs, is_rotational, major_device_number, syspath};
use gentup::tabulate::shorten;

fn syntax() -> Vec<ArgumentStruct> {
    vec![
        ArgumentStruct::from("b", "background", "Fetch in the background"),
        ArgumentStruct::from("c", "cleanup", "Clean up afterwards"),
        ArgumentStruct::from("f", "force", "Force the tree sync"),
    ]
}

fn args_of(words: &[&str]) -> Vec<String> {
    words.iter().map(|w| String::from(*w)).collect()
}

#[test]
fn args_long_and_short_flags() {
    let parsed = syntax()
        .parse(args_of(&["gentup", "--force", "-c"]), Some(String::from("root")))
        .unwrap();
    assert!(parsed.get("force"));
    assert!(parsed.get("cleanup"));
    assert!(!parsed.get("background"));
}

#[test]
fn args_clustered_and_bare_shorts() {
    let parsed = syntax()
        .parse(args_of(&["gentup", "-bc"]), Some(String::from("root")))
        .unwrap();
    assert!(parsed.get("background"));
    assert!(parsed.get("cleanup"));
    let parsed = syntax()
        .parse(args_of(&["gentup", "f"]), Some(String::from("root")))
        .unwrap();
    assert!(parsed.get("force"));
}

#[test]
fn args_unknown_option_yields_usage() {
    let err = syntax()
        .parse(args_of(&["gentup", "--nonsense"]), Some(String::from("root")))
        .unwrap_err();
    assert_eq!(err, "Error: usage - gentup [--background|--cleanup|--force|]");
}

#[test]
fn args_non_root_is_refused() {
    let err = syntax()
        .parse(args_of(&["gentup", "--force"]), Some(String::from("alice")))
        .unwrap_err();
    assert_eq!(err, "You need to be root to run this");
    let err = syntax().parse(args_of(&["gentup"]), None).unwrap_err();
    assert_eq!(err, "You need to be root to run this");
}

#[test]
fn args_help_text() {
    let err = syntax()
        .parse(args_of(&["gentup", "--help"]), Some(String::from("root")))
        .unwrap_err();
    let expected = "Usage:\ngentup [options]\n\
        -b, --background     \tFetch in the background\n\
        -c, --cleanup        \tClean up afterwards\n\
        -f, --force          \tForce the tree sync\n";
    assert_eq!(err, expected);
}

#[test]
fn args_version_text() {
    let err = syntax()
        .parse(args_of(&["gentup", "-V"]), Some(String::from("root")))
        .unwrap_err();
    assert_eq!(err, "gentup version 0.1.0");
}

#[test]
fn config_defaults_and_load() {
    let d = Config::build_default();
    assert!(!d.cleanup_default && !d.trim_default && !d.background_default);
    assert_eq!(d.email_address, "root@localhost");
    let loaded = Config::load(
        "# a comment\ncleanup_default: true\ntrim_default: false\nemail_address: me@example.org\n",
    );
    assert!(loaded.cleanup_default);
    assert!(!loaded.trim_default);
    assert!(!loaded.background_default);
    assert_eq!(loaded.email_address, "me@example.org");
}

#[test]
fn config_bad_switch_value_is_kept_at_default() {
    let loaded = Config::load("cleanup_default: maybe\n");
    assert!(!loaded.cleanup_default);
}

#[test]
fn config_renders_its_file_form() {
    let mut c = Config::build_default();
    c.cleanup_default = true;
    let text = c.render();
    assert_eq!(
        text,
        "cleanup_default: true\ntrim_default: false\nbackground_default: false\n\
         email_address: root@localhost\n"
    );
    // The rendered form reads back to the same configuration.
    let back = Config::load(&text);
    assert!(back.cleanup_default && !back.trim_default && !back.background_default);
    assert_eq!(back.email_address, "root@localhost");
}

#[test]
fn distro_check_accepts_and_refuses() {
    assert_eq!(check_distro("NAME=Gentoo", "Gentoo").unwrap(), "Gentoo");
    let err = check_distro("NAME=Ubuntu", "Gentoo").unwrap_err();
    assert_eq!(
        err,
        "Detected this system is running Ubuntu but this updater only works on Gentoo Linux"
    );
}

#[test]
fn command_words_split_on_whitespace() {
    let words = command_words("emerge  -puDv   @world");
    assert_eq!(words, vec!["emerge", "-puDv", "@world"]);
    let none = command_words("   ");
    assert_eq!(none.len(), 0);
}

#[test]
fn stripchar_keeps_digits_only() {
    assert_eq!(stripchar(String::from("abc123def45")), "12345");
    assert_eq!(stripchar(String::from("6.6.13-gentoo-x86_64")), "66138664");
    assert_eq!(stripchar(String::from("no digits")), "");
    assert_eq!(
        running_kernel(String::from("6.6.13-gentoo-x86_64\n")),
        "66138664"
    );
}

#[test]
fn failure_policy_on_results() {
    let ok: ShellOutResult = Ok((String::from("fine"), 0));
    assert!(!ok.exit_if_failed());
    let nonzero: ShellOutResult = Ok((String::new(), 2));
    assert!(nonzero.exit_if_failed());
    let spawn: ShellOutResult = Err(String::from("no such file"));
    assert!(spawn.exit_if_failed());
}

#[test]
fn shortname_cuts_at_the_version() {
    assert_eq!(
        shortname("sys-cluster/kube-scheduler-1.29.1::gentoo"),
        "sys-cluster/kube-scheduler"
    );
    // Without a version part the final character is dropped.
    assert_eq!(shortname("hello"), "hell");
}

#[test]
fn shorten_cuts_at_the_last_version_dash() {
    assert_eq!(
        shorten("sys-cluster/kube-scheduler-1.29.1::gentoo"),
        "sys-cluster/kube-scheduler"
    );
    assert_eq!(shorten("hello"), "hello");
    assert_eq!(shorten("app-misc/tmux-3.4"), "app-misc/tmux");
}

#[test]
fn longest_measures_shortened_names() {
    let names: Vec<&str> = vec!["a-1", "sys-apps/portage-3.0.61", "bc-2"];
    // Shortened: "a" (1), "sys-apps/portage" (16), "bc" (2).
    assert_eq!(longest(&names), 16);
    let names2: Vec<&str> = vec!["a-1", "bc-2"];
    assert_eq!(gentup::tabulate::longest(&names2), 2);
}

#[test]
fn package_list_lays_out_columns() {
    let names: Vec<&str> = vec!["a-1", "bc-2"];
    let table = package_list(&names, 20);
    assert_eq!(table, "\na      bc     \n\n");
    let table2 = gentup::tabulate::package_list(&names, 20);
    assert_eq!(table2, "\na      bc     \n\n");
}

#[test]
fn package_list_wraps_rows() {
    let names: Vec<&str> = vec!["a-1", "b-2", "c-3"];
    // Column width 1 + 4 spaces gap: 2 items per 10-wide line.
    let table = package_list(&names, 10);
    assert_eq!(table, "\na     b    \nc     \n\n");
}

#[test]
fn elog_configuration_lines() {
    assert!(configure_elogv("PORTAGE_ELOG_SYSTEM=\"save\"\n", "a@b", "h").is_none());
    let lines = configure_elogv("USE=\"X\"\n", "a@b", "h").unwrap();
    assert_eq!(
        lines,
        vec![
            "# Logging",
            "PORTAGE_ELOG_CLASSES=\"warn error log\"",
            "PORTAGE_ELOG_SYSTEM=\"mail_summary save\"",
            "PORTAGE_ELOG_MAILURI=\"a@b /usr/bin/sendmail\"",
            "PORTAGE_ELOG_MAILFROM=\"root@h\"",
            "PORTAGE_ELOG_MAILSUBJECT=\"gentup elog summary from h\"",
        ]
    );
}

#[test]
fn default_package_list_holds_fifteen_entries() {
    let pkgs = default_optional_packages();
    assert_eq!(pkgs.len(), 15);
    assert_eq!(pkgs[0], "app-portage/cpuid2cpuflags");
    assert_eq!(pkgs[14], "dev-vcs/git");
}

#[test]
fn package_lines_drop_only_the_trailing_newline() {
    assert_eq!(package_lines("a\nb\n"), vec!["a", "b"]);
    assert_eq!(package_lines("a\n\nb"), vec!["a", "", "b"]);
    assert_eq!(package_lines(""), Vec::<String>::new());
}

#[test]
fn rotational_pipeline_reads_the_flag() {
    let dev = getdev_rootfs("/dev/sda3 / ext4 rw 0 0\nproc /proc proc rw 0 0\n");
    assert_eq!(dev, "/dev/sda3");
    assert_eq!(getdev_rootfs("proc /proc proc rw 0 0\n"), "None");
    let major =
        major_device_number(String::from("brw-rw---- 1 root disk 8, 3 Jan  1 00:00 /dev/sda3"));
    assert_eq!(major, "8");
    assert_eq!(syspath(String::from("8")), "/sys/dev/block/8:0/queue/rotational");
    assert_eq!(is_rotational(Some("0\n")), 0);
    assert_eq!(is_rotational(Some(" 1 ")), 1);
    assert_eq!(is_rotational(None), 1);
}

#[test]
fn too_recent_agrees_with_the_clock() {
    // Against a timestamp far in the past the window has long elapsed.
    assert!(!too_recent(0));
}
