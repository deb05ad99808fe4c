//! The updater's persistent configuration: the default switches and the
//! report address, how a saved configuration file's lines are read back,
//! and how the running configuration is rendered for saving.

use vstd::prelude::*;

use crate::text::{
    chars_eq, chars_to_string, remove_all, spec_contains, spec_lines, spec_remove_all, spec_trim,
    to_chars, trim_chars, contains_lit,
};

verus! {

/// The configuration options of one run.
pub struct Config {
    /// Run the cleanup tasks after an upgrade without being asked.
    pub cleanup_default: bool,
    /// Trim filesystems after a cleanup without being asked.
    pub trim_default: bool,
    /// Fetch package sources in the background during the upgrade.
    pub background_default: bool,
    /// Where update reports and news are mailed.
    pub email_address: String,
}

/// The word a switch renders as.
pub open spec fn spec_bool_word(b: bool) -> Seq<char> {
    if b {
        "true"@
    } else {
        "false"@
    }
}

/// What a `key value` configuration line sets a switch to: the line must
/// name the key, and its remaining trimmed text must read "true" or
/// "false"; anything else leaves the switch as it was.
pub open spec fn spec_switch_line(l: Seq<char>, key: Seq<char>) -> Option<bool> {
    if spec_contains(l, key) {
        let t = spec_trim(spec_remove_all(l, key));
        if t == "true"@ {
            Some(true)
        } else if t == "false"@ {
            Some(false)
        } else {
            None
        }
    } else {
        None
    }
}

/// What a `key value` configuration line sets a text parameter to: the
/// trimmed remaining text of a line naming the key.
pub open spec fn spec_param_line(l: Seq<char>, key: Seq<char>) -> Option<Seq<char>> {
    if spec_contains(l, key) {
        Some(spec_trim(spec_remove_all(l, key)))
    } else {
        None
    }
}

/// The configuration read from the file's lines in order, later lines
/// overriding earlier ones, starting from the given values.
pub open spec fn spec_config_scan(
    lines: Seq<Seq<char>>,
    c: bool,
    t: bool,
    b: bool,
    e: Seq<char>,
) -> (bool, bool, bool, Seq<char>)
    decreases lines.len(),
{
    if lines.len() == 0 {
        (c, t, b, e)
    } else {
        let l = lines[0];
        let c2 = match spec_switch_line(l, "cleanup_default:"@) {
            Some(v) => v,
            None => c,
        };
        let t2 = match spec_switch_line(l, "trim_default:"@) {
            Some(v) => v,
            None => t,
        };
        let b2 = match spec_switch_line(l, "background_default:"@) {
            Some(v) => v,
            None => b,
        };
        let e2 = match spec_param_line(l, "email_address:"@) {
            Some(v) => v,
            None => e,
        };
        spec_config_scan(lines.drop_first(), c2, t2, b2, e2)
    }
}

/// The configuration read from a whole saved file, starting from the
/// defaults.
pub open spec fn spec_config_of(contents: Seq<char>) -> (bool, bool, bool, Seq<char>) {
    spec_config_scan(spec_lines(contents), false, false, false, "root@localhost"@)
}

/// Reads one switch off a configuration line, `None` when the line does not
/// set it.
fn switch_of_line(line: &Vec<char>, key: &str) -> (r: Option<bool>)
    ensures
        r == spec_switch_line(line@, key@),
{
    if !contains_lit(line, key) {
        return None;
    }
    let removed = remove_all(line, key);
    let t = trim_chars(&removed);
    let word_true = to_chars("true");
    let word_false = to_chars("false");
    if chars_eq(&t, &word_true) {
        Some(true)
    } else if chars_eq(&t, &word_false) {
        Some(false)
    } else {
        None
    }
}

/// Reads one text parameter off a configuration line, `None` when the line
/// does not set it.
fn param_of_line(line: &Vec<char>, key: &str) -> (r: Option<String>)
    ensures
        match r {
            Some(s) => spec_param_line(line@, key@) == Some(s@),
            None => spec_param_line(line@, key@) is None,
        },
{
    if !contains_lit(line, key) {
        return None;
    }
    let removed = remove_all(line, key);
    let t = trim_chars(&removed);
    Some(chars_to_string(&t))
}

impl Config {
    /// The built-in default configuration: no automatic cleanup, no trim,
    /// no background fetching, reports to root on this host.
    pub fn build_default() -> (r: Config)
        ensures
            !r.cleanup_default,
            !r.trim_default,
            !r.background_default,
            r.email_address@ == "root@localhost"@,
    {
        Config {
            cleanup_default: false,
            trim_default: false,
            background_default: false,
            email_address: String::from_str("root@localhost"),
        }
    }

    /// Reads a saved configuration out of the file's text: each line may
    /// set one of the switches or the report address, later lines
    /// overriding earlier ones; everything else starts from the defaults.
    pub fn load(contents: &str) -> (r: Config)
        ensures
            (r.cleanup_default, r.trim_default, r.background_default, r.email_address@)
                == spec_config_of(contents@),
    {
        let chars = to_chars(contents);
        let lines = crate::text::split_on(&chars, '\n');
        let ghost ll = spec_lines(contents@);
        let mut c = false;
        let mut t = false;
        let mut b = false;
        let mut e = String::from_str("root@localhost");
        let mut i: usize = 0;
        proof {
            assert(ll.skip(0) =~= ll);
        }
        while i < lines.len()
            invariant
                i <= lines@.len(),
                ll == spec_lines(contents@),
                lines@.len() == ll.len(),
                forall|j: int| 0 <= j < lines@.len() ==> lines@[j]@ == ll[j],
                spec_config_of(contents@) == spec_config_scan(ll.skip(i as int), c, t, b, e@),
            decreases lines@.len() - i,
        {
            proof {
                assert(ll.skip(i as int)[0] == ll[i as int]);
                assert(ll.skip(i as int).drop_first() =~= ll.skip(i + 1 as int));
            }
            if let Some(v) = switch_of_line(&lines[i], "cleanup_default:") {
                c = v;
            }
            if let Some(v) = switch_of_line(&lines[i], "trim_default:") {
                t = v;
            }
            if let Some(v) = switch_of_line(&lines[i], "background_default:") {
                b = v;
            }
            if let Some(v) = param_of_line(&lines[i], "email_address:") {
                e = v;
            }
            i = i + 1;
        }
        proof {
            assert(ll.skip(ll.len() as int) =~= Seq::<Seq<char>>::empty());
        }
        Config { cleanup_default: c, trim_default: t, background_default: b, email_address: e }
    }

    /// Renders the configuration in the form its file holds: one
    /// `key: value` line per option.
    pub fn render(&self) -> (r: String)
        ensures
            r@ == "cleanup_default: "@ + spec_bool_word(self.cleanup_default) + "\n"@
                + "trim_default: "@ + spec_bool_word(self.trim_default) + "\n"@
                + "background_default: "@ + spec_bool_word(self.background_default) + "\n"@
                + "email_address: "@ + self.email_address@ + "\n"@,
    {
        let c: &str = if self.cleanup_default {
            "true"
        } else {
            "false"
        };
        let t: &str = if self.trim_default {
            "true"
        } else {
            "false"
        };
        let b: &str = if self.background_default {
            "true"
        } else {
            "false"
        };
        String::from_str("cleanup_default: ").concat(c).concat("\n").concat(
            "trim_default: ",
        ).concat(t).concat("\n").concat("background_default: ").concat(b).concat("\n").concat(
            "email_address: ",
        ).concat(self.email_address.as_str()).concat("\n")
    }
}

} // verus!
