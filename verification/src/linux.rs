//! The command model of the updater: how an operating-system command is
//! described and in which interactivity mode it runs, the uniform failure
//! policy for finished commands, and the facts derived from the live system
//! (running-kernel identity, distribution identity).

use vstd::prelude::*;

use crate::text::{
    chars_eq, chars_to_string, numeric_chars, spec_numeric_only, spec_split, spec_ws_tokens,
    split_on, to_chars, ws_tokens,
};

verus! {

/// How a command is run.
#[derive(Clone, Copy, PartialEq, Eq, Structural, Debug)]
pub enum OsCall {
    /// stdin, stdout and stderr stay attached to the terminal, so the
    /// operator can watch and interact; nothing is captured.
    Interactive,
    /// stdout is piped and captured while a progress spinner is shown.
    Spinner,
    /// stdout and stderr are both piped and captured; nothing is shown.
    Quiet,
}

/// A fully described command invocation: the command line, a human-readable
/// status label, and the interactivity mode to run it under.
pub struct CommandSpec {
    pub line: String,
    pub label: String,
    pub mode: OsCall,
}

/// What running a command yields: the captured stdout text and the exit
/// code, or a message describing why the process could not be spawned.
/// A non-zero exit code is not itself an error: some tools use the exit
/// status to signal a boolean answer.
pub type ShellOutResult = Result<(String, i32), String>;

/// The uniform failure policy: results that can be fatal.
pub trait CouldFail {
    /// Whether this result is a failure under the policy.
    spec fn spec_failed(&self) -> bool;

    /// Decides whether the whole run must abort over this result: a spawn
    /// failure, or a non-zero exit status. The caller performs the abort.
    fn exit_if_failed(&self) -> (fatal: bool)
        ensures
            fatal == self.spec_failed(),
    ;
}

impl CouldFail for ShellOutResult {
    open spec fn spec_failed(&self) -> bool {
        match self {
            Result::Ok((_, code)) => *code != 0,
            Result::Err(_) => true,
        }
    }

    fn exit_if_failed(&self) -> (fatal: bool) {
        match self {
            Result::Ok((_, code)) => *code != 0,
            Result::Err(_) => true,
        }
    }
}

/// Builds a command description from its parts.
pub fn command(line: &str, label: &str, mode: OsCall) -> (r: CommandSpec)
    ensures
        r.line@ == line@,
        r.label@ == label@,
        r.mode == mode,
{
    CommandSpec { line: String::from_str(line), label: String::from_str(label), mode }
}

/// Builds a command description around an already assembled command line.
pub fn command_owned(line: String, label: &str, mode: OsCall) -> (r: CommandSpec)
    ensures
        r.line@ == line@,
        r.label@ == label@,
        r.mode == mode,
{
    CommandSpec { line, label: String::from_str(label), mode }
}

/// The whitespace-delimited words of a command line: the program name first,
/// then its arguments, exactly as the runner hands them to the OS. There is
/// no shell expansion and no quoting.
pub fn command_words(command_line: &str) -> (r: Vec<String>)
    ensures
        r@.len() == spec_ws_tokens(command_line@).len(),
        forall|j: int| 0 <= j < r@.len() ==> r@[j]@ == spec_ws_tokens(command_line@)[j],
{
    let chars = to_chars(command_line);
    let toks = ws_tokens(&chars);
    let mut out: Vec<String> = Vec::new();
    let mut i: usize = 0;
    while i < toks.len()
        invariant
            i <= toks@.len(),
            toks@.len() == spec_ws_tokens(command_line@).len(),
            forall|j: int| 0 <= j < toks@.len() ==> toks@[j]@ == spec_ws_tokens(command_line@)[j],
            out@.len() == i,
            forall|j: int| 0 <= j < i ==> out@[j]@ == spec_ws_tokens(command_line@)[j],
        decreases toks@.len() - i,
    {
        let word = chars_to_string(&toks[i]);
        out.push(word);
        i = i + 1;
    }
    out
}

/// Removes every character that is not numeric, keeping the rest in order.
pub fn stripchar(devicename: String) -> (r: String)
    ensures
        r@ == spec_numeric_only(devicename@),
{
    let v = to_chars(devicename.as_str());
    let keep = numeric_chars(&v);
    chars_to_string(&keep)
}

/// The identity of the running kernel, derived from the captured output of
/// `uname -r` by keeping only the numeric characters, for comparison against
/// kernel package lines.
pub fn running_kernel(uname_output: String) -> (r: String)
    ensures
        r@ == spec_numeric_only(uname_output@),
{
    stripchar(uname_output)
}

/// The detected distribution name in a `KEY=value` identity line: the text
/// after the first '='.
pub open spec fn spec_detected_distro(firstline: Seq<char>) -> Seq<char> {
    spec_split(firstline, '=')[1]
}

/// Decides from the first line of the os-release identity file whether this
/// system runs the required distribution. `Ok` carries the detected name
/// when it matches; `Err` carries the diagnostic message otherwise.
pub fn check_distro(firstline: &str, required_distro: &str) -> (r: Result<String, String>)
    requires
        spec_split(firstline@, '=').len() >= 2,
    ensures
        match r {
            Result::Ok(d) => d@ == spec_detected_distro(firstline@) && d@ == required_distro@,
            Result::Err(m) => spec_detected_distro(firstline@) != required_distro@ && m@
                == "Detected this system is running "@ + spec_detected_distro(firstline@)
                + " but this updater only works on "@ + required_distro@ + " Linux"@,
        },
{
    let chars = to_chars(firstline);
    let parts = split_on(&chars, '=');
    let detected = &parts[1];
    let wanted = to_chars(required_distro);
    if chars_eq(detected, &wanted) {
        Result::Ok(chars_to_string(detected))
    } else {
        let msg = String::from_str("Detected this system is running ").concat(
            chars_to_string(detected).as_str(),
        ).concat(" but this updater only works on ").concat(required_distro).concat(" Linux");
        Result::Err(msg)
    }
}

/// The filesystem-trim invocation run after a cleanup.
pub fn call_fstrim() -> (r: CommandSpec)
    ensures
        r.line@ == "fstrim -a"@,
        r.label@ == "Trimming filesystems"@,
        r.mode == OsCall::Spinner,
{
    command("fstrim -a", "Trimming filesystems", OsCall::Spinner)
}

} // verus!
