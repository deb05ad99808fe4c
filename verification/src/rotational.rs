//! Deciding whether the root filesystem sits on rotational media, from the
//! mount table, the device listing, and the block-device sysfs flag. Only
//! non-rotational media are trimmed after a cleanup.

use vstd::prelude::*;

use crate::linux::{command_owned, CommandSpec, OsCall};
use crate::text::{
    chars_to_string, contains_lit, numeric_chars, parse_i32, spec_contains, spec_lines,
    spec_numeric_only, spec_parse_i32, spec_trim, spec_ws_tokens, split_on, to_chars, trim_chars,
    ws_tokens,
};

verus! {

/// Removes every character that is not numeric, keeping the rest in order.
pub fn stripchar(devicename: String) -> (r: String)
    ensures
        r@ == spec_numeric_only(devicename@),
{
    let v = to_chars(devicename.as_str());
    let keep = numeric_chars(&v);
    chars_to_string(&keep)
}

/// The root filesystem's device in a mount table: the first
/// whitespace-delimited token of the first line whose mount point is "/",
/// or "None" when no such line exists.
pub open spec fn spec_rootfs_scan(lines: Seq<Seq<char>>) -> Seq<char>
    decreases lines.len(),
{
    if lines.len() == 0 {
        "None"@
    } else if spec_contains(lines[0], " / "@) {
        if spec_ws_tokens(lines[0]).len() > 0 {
            spec_ws_tokens(lines[0])[0]
        } else {
            "None"@
        }
    } else {
        spec_rootfs_scan(lines.drop_first())
    }
}

/// Reads the device holding the root filesystem out of the captured mount
/// table (the contents of /proc/mounts).
pub fn getdev_rootfs(procmounts: &str) -> (r: String)
    ensures
        r@ == spec_rootfs_scan(spec_lines(procmounts@)),
{
    let chars = to_chars(procmounts);
    let lines = split_on(&chars, '\n');
    let ghost ll = spec_lines(procmounts@);
    let mut i: usize = 0;
    proof {
        assert(ll.skip(0) =~= ll);
    }
    while i < lines.len()
        invariant
            i <= lines@.len(),
            ll == spec_lines(procmounts@),
            lines@.len() == ll.len(),
            forall|j: int| 0 <= j < lines@.len() ==> lines@[j]@ == ll[j],
            spec_rootfs_scan(ll) == spec_rootfs_scan(ll.skip(i as int)),
        decreases lines@.len() - i,
    {
        proof {
            assert(ll.skip(i as int)[0] == ll[i as int]);
            assert(ll.skip(i as int).drop_first() =~= ll.skip(i + 1 as int));
        }
        if contains_lit(&lines[i], " / ") {
            let toks = ws_tokens(&lines[i]);
            if toks.len() > 0 {
                return chars_to_string(&toks[0]);
            } else {
                return String::from_str("None");
            }
        }
        i = i + 1;
    }
    proof {
        assert(ll.skip(ll.len() as int) =~= Seq::<Seq<char>>::empty());
    }
    String::from_str("None")
}

/// The listing invocation whose captured output carries the device's major
/// number.
pub fn device_query_command(devnode: &str) -> (r: CommandSpec)
    ensures
        r.line@ == "ls -l "@ + devnode@,
        r.label@.len() == 0,
        r.mode == OsCall::Quiet,
{
    proof {
        reveal_strlit("");
    }
    command_owned(String::from_str("ls -l ").concat(devnode), "", OsCall::Quiet)
}

/// The major device number read from the captured device listing: the
/// numeric characters of its 5th whitespace-delimited token.
pub fn major_device_number(ls_output: String) -> (r: String)
    requires
        spec_ws_tokens(ls_output@).len() >= 5,
    ensures
        r@ == spec_numeric_only(spec_ws_tokens(ls_output@)[4]),
{
    let chars = to_chars(ls_output.as_str());
    let toks = ws_tokens(&chars);
    let maj = numeric_chars(&toks[4]);
    chars_to_string(&maj)
}

/// The sysfs path that reports whether the block device with the given
/// major number is rotational.
pub fn syspath(major: String) -> (r: String)
    ensures
        r@ == "/sys/dev/block/"@ + major@ + ":0/queue/rotational"@,
{
    String::from_str("/sys/dev/block/").concat(major.as_str()).concat(":0/queue/rotational")
}

/// Reads the rotational flag out of the sysfs file's contents: 0 means
/// solid-state media, 1 rotational. An unreadable file counts as
/// rotational, so nothing is trimmed by mistake.
pub fn is_rotational(contents: Option<&str>) -> (r: i32)
    requires
        contents matches Some(s) ==> spec_parse_i32(spec_trim(s@)) is Some,
    ensures
        match contents {
            Some(s) => Some(r) == spec_parse_i32(spec_trim(s@)),
            None => r == 1,
        },
{
    match contents {
        Some(s) => {
            let chars = to_chars(s);
            let trimmed = trim_chars(&chars);
            match parse_i32(&trimmed) {
                Some(n) => n,
                None => 1,
            }
        },
        None => 1,
    }
}

} // verus!
