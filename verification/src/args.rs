//! Command-line option handling: the table of valid options, lookups over
//! it, the generated help and usage texts, and the parser that reads the
//! operator's arguments into switch settings. Short options may come alone
//! (-f), clustered (-obf) or bare (f); long options come as --force.

use vstd::prelude::*;

use crate::tabulate::spec_spaces;
use crate::text::{spec_views, to_chars, chars_eq};

verus! {

/// One valid command-line option: its short and long spelling, the
/// description shown in the help text, and whether the operator turned it
/// on.
#[derive(Debug)]
pub struct ArgumentStruct {
    /// Short spelling, like "f".
    pub short: String,
    /// Long spelling, like "force".
    pub long: String,
    /// One line of description for the help text.
    pub desc: String,
    /// Whether the option was supplied.
    pub switch: bool,
}

/// The table of valid options.
pub type ArgCheck = Vec<ArgumentStruct>;

impl ArgumentStruct {
    /// Builds one option definition, switched off.
    pub fn from(short: &str, long: &str, desc: &str) -> (r: ArgumentStruct)
        ensures
            r.short@ == short@,
            r.long@ == long@,
            r.desc@ == desc@,
            !r.switch,
    {
        ArgumentStruct {
            short: String::from_str(short),
            long: String::from_str(long),
            desc: String::from_str(desc),
            switch: false,
        }
    }
}

/// `s` with every '-' removed.
pub open spec fn spec_stripped(s: Seq<char>) -> Seq<char> {
    s.filter(|c: char| c != '-')
}

/// The first character of an option's short spelling; a blank for an empty
/// one.
pub open spec fn spec_first_char(s: Seq<char>) -> char {
    if s.len() > 0 {
        s[0]
    } else {
        ' '
    }
}

/// Whether the supplied text, dashes removed, names option `a` by its
/// short or long spelling.
pub open spec fn spec_arg_matches(a: ArgumentStruct, stripped: Seq<char>) -> bool {
    a.short@ == stripped || a.long@ == stripped
}

/// Whether some option of the table is named by the supplied text.
pub open spec fn spec_args_contain(v: Seq<ArgumentStruct>, supplied: Seq<char>) -> bool {
    exists|i: int|
        0 <= i < v.len() && spec_arg_matches(#[trigger] v[i], spec_stripped(supplied))
}

/// The table with every option whose short spelling starts with `flag`
/// switched on.
pub open spec fn spec_set_short(v: Seq<ArgumentStruct>, flag: char) -> Seq<ArgumentStruct> {
    v.map_values(
        |a: ArgumentStruct|
            ArgumentStruct {
                switch: a.switch || spec_first_char(a.short@) == flag,
                ..a
            },
    )
}

/// The table with every option whose long spelling is `stripped` switched
/// on.
pub open spec fn spec_set_long(v: Seq<ArgumentStruct>, stripped: Seq<char>) -> Seq<
    ArgumentStruct,
> {
    v.map_values(
        |a: ArgumentStruct|
            ArgumentStruct { switch: a.switch || a.long@ == stripped, ..a },
    )
}

/// The switch of the option with the given long spelling; false when no
/// option has it. The earliest matching entry decides.
pub open spec fn spec_get(v: Seq<ArgumentStruct>, flag: Seq<char>) -> bool
    decreases v.len(),
{
    if v.len() == 0 {
        false
    } else if v[0].long@ == flag {
        v[0].switch
    } else {
        spec_get(v.drop_first(), flag)
    }
}

/// `s` padded with spaces on the right up to width `n`.
pub open spec fn spec_pad(s: Seq<char>, n: int) -> Seq<char> {
    s + spec_spaces(n - s.len())
}

/// The help line of one option.
pub open spec fn spec_help_line(a: ArgumentStruct) -> Seq<char> {
    "-"@ + spec_pad(a.short@, 1) + ", --"@ + spec_pad(a.long@, 15) + "\t"@ + a.desc@ + "\n"@
}

/// The help lines of the whole table, in order.
pub open spec fn spec_help_lines(v: Seq<ArgumentStruct>) -> Seq<char>
    decreases v.len(),
{
    if v.len() == 0 {
        Seq::<char>::empty()
    } else {
        spec_help_lines(v.drop_last()) + spec_help_line(v.last())
    }
}

/// The whole help text.
pub open spec fn spec_help(v: Seq<ArgumentStruct>) -> Seq<char> {
    "Usage:\ngentup [options]\n"@ + spec_help_lines(v)
}

/// The option alternatives of the usage text, in order.
pub open spec fn spec_usage_body(v: Seq<ArgumentStruct>) -> Seq<char>
    decreases v.len(),
{
    if v.len() == 0 {
        Seq::<char>::empty()
    } else {
        spec_usage_body(v.drop_last()) + "--"@ + v.last().long@ + "|"@
    }
}

/// The whole usage text.
pub open spec fn spec_usage(v: Seq<ArgumentStruct>) -> Seq<char> {
    "Error: usage - gentup ["@ + spec_usage_body(v) + "]"@
}

/// The version banner.
pub open spec fn spec_version() -> Seq<char> {
    "gentup version 0.1.0"@
}

/// Reading the single-character options of one bare or clustered short
/// argument from position `j` on: '-' characters are passed over, known
/// options are switched on, and an unknown character stops everything
/// with the usage text of the table as it stands.
pub open spec fn spec_parse_shorts(v: Seq<ArgumentStruct>, a: Seq<char>, j: int) -> Result<
    Seq<ArgumentStruct>,
    Seq<char>,
>
    decreases a.len() - j,
{
    if j < 0 || j >= a.len() {
        Ok(v)
    } else if a[j] == '-' {
        spec_parse_shorts(v, a, j + 1)
    } else if spec_args_contain(v, seq![a[j]]) {
        spec_parse_shorts(spec_set_short(v, a[j]), a, j + 1)
    } else {
        Err(spec_usage(v))
    }
}

/// Reading the arguments from position `i` on into the table `v`: help and
/// version requests stop with their text, long options must be known, and
/// short options go through [`spec_parse_shorts`]. A syntax error stops
/// with the usage text.
pub open spec fn spec_parse_from(
    v: Seq<ArgumentStruct>,
    args: Seq<Seq<char>>,
    i: int,
) -> Result<Seq<ArgumentStruct>, Seq<char>>
    decreases args.len() - i,
{
    if i < 0 || i >= args.len() {
        Ok(v)
    } else {
        let a = args[i];
        if a == "-h"@ || a == "--help"@ {
            Err(spec_help(v))
        } else if a == "-V"@ || a == "--version"@ {
            Err(spec_version())
        } else if crate::text::spec_contains(a, "--"@) {
            if spec_args_contain(v, a) {
                spec_parse_from(spec_set_long(v, spec_stripped(a)), args, i + 1)
            } else {
                Err(spec_usage(v))
            }
        } else {
            match spec_parse_shorts(v, a, 0) {
                Ok(v2) => spec_parse_from(v2, args, i + 1),
                Err(m) => Err(m),
            }
        }
    }
}

/// What parsing a whole command line yields: a refusal unless the caller
/// runs as root, and otherwise the table read from the arguments after the
/// leading program name.
pub open spec fn spec_parse(
    v: Seq<ArgumentStruct>,
    args: Seq<Seq<char>>,
    user_is_root: bool,
) -> Result<Seq<ArgumentStruct>, Seq<char>> {
    if !user_is_root {
        Err("You need to be root to run this"@)
    } else {
        spec_parse_from(v, args, 1)
    }
}

/// Operations of the option table.
pub trait Search {
    /// The table.
    spec fn args(&self) -> Seq<ArgumentStruct>;

    /// Whether the supplied text, dashes removed, names one of the
    /// options.
    fn contains(&self, supplied: &str) -> (r: bool)
        ensures
            r == spec_args_contain(self.args(), supplied@),
    ;

    /// Switches on every option whose short spelling starts with `flag`.
    fn setflag(&mut self, flag: &char)
        ensures
            final(self).args() == spec_set_short(old(self).args(), *flag),
    ;

    /// Switches on every option whose long spelling is `flag` without its
    /// dashes.
    fn setflag_from_long(&mut self, flag: String)
        ensures
            final(self).args() == spec_set_long(old(self).args(), spec_stripped(flag@)),
    ;

    /// The switch of the option with the given long spelling.
    fn get(&self, flag: &str) -> (r: bool)
        ensures
            r == spec_get(self.args(), flag@),
    ;

    /// The help text for the table.
    fn help(&self) -> (r: String)
        ensures
            r@ == spec_help(self.args()),
    ;

    /// The usage text for the table.
    fn usage(&self) -> (r: String)
        ensures
            r@ == spec_usage(self.args()),
    ;

    /// The version banner.
    fn version() -> (r: String)
        ensures
            r@ == spec_version(),
    ;

    /// Reads the operator's arguments into the table. `user` is the
    /// login this process runs under; anyone but root is refused. The
    /// leading argument is the program's own name and is passed over.
    fn parse(self, args: Vec<String>, user: Option<String>) -> (r: Result<Self, String>) where
        Self: Sized
        ensures
            ({
                let user_is_root = user matches Some(u) && u@ == "root"@;
                match (r, spec_parse(self.args(), spec_views(args@), user_is_root)) {
                    (Ok(v2), Ok(sv)) => v2.args() == sv,
                    (Err(m), Err(sm)) => m@ == sm,
                    _ => false,
                }
            }),
    ;
}

/// One option with its switch possibly turned on, everything else kept.
fn with_switch(a: &ArgumentStruct, switch: bool) -> (r: ArgumentStruct)
    ensures
        r.short == a.short,
        r.long == a.long,
        r.desc == a.desc,
        r.switch == switch,
{
    ArgumentStruct {
        short: a.short.clone(),
        long: a.long.clone(),
        desc: a.desc.clone(),
        switch,
    }
}

/// The first character of an option's short spelling.
fn first_char(s: &String) -> (r: char)
    ensures
        r == spec_first_char(s@),
{
    if s.as_str().unicode_len() > 0 {
        s.as_str().get_char(0)
    } else {
        ' '
    }
}

impl Search for ArgCheck {
    open spec fn args(&self) -> Seq<ArgumentStruct> {
        self@
    }

    fn contains(&self, supplied: &str) -> (r: bool) {
        let sup = to_chars(supplied);
        let stripped = strip_dashes(&sup);
        let mut i: usize = 0;
        while i < self.len()
            invariant
                i <= self@.len(),
                stripped@ == spec_stripped(supplied@),
                forall|k: int| 0 <= k < i ==> !spec_arg_matches(
                    #[trigger] self@[k],
                    spec_stripped(supplied@),
                ),
            decreases self@.len() - i,
        {
            let short = to_chars(self[i].short.as_str());
            let long = to_chars(self[i].long.as_str());
            if chars_eq(&short, &stripped) || chars_eq(&long, &stripped) {
                proof {
                    assert(spec_arg_matches(self@[i as int], spec_stripped(supplied@)));
                }
                return true;
            }
            i = i + 1;
        }
        false
    }

    fn setflag(&mut self, flag: &char) {
        let ghost v0 = self@;
        let mut out: Vec<ArgumentStruct> = Vec::new();
        let mut i: usize = 0;
        while i < self.len()
            invariant
                i <= self@.len(),
                self@ == v0,
                out@.len() == i,
                forall|k: int| 0 <= k < i ==> out@[k] == spec_set_short(v0, *flag)[k],
            decreases self@.len() - i,
        {
            let a = &self[i];
            let hit = first_char(&a.short) == *flag;
            let b = with_switch(a, a.switch || hit);
            proof {
                assert(spec_set_short(v0, *flag)[i as int] == (ArgumentStruct {
                    switch: v0[i as int].switch || spec_first_char(v0[i as int].short@) == *flag,
                    ..v0[i as int]
                }));
            }
            out.push(b);
            i = i + 1;
        }
        proof {
            assert(out@ =~= spec_set_short(v0, *flag));
        }
        *self = out;
    }

    fn setflag_from_long(&mut self, flag: String) {
        let ghost v0 = self@;
        let fc = to_chars(flag.as_str());
        let stripped = strip_dashes(&fc);
        let mut out: Vec<ArgumentStruct> = Vec::new();
        let mut i: usize = 0;
        while i < self.len()
            invariant
                i <= self@.len(),
                self@ == v0,
                stripped@ == spec_stripped(flag@),
                out@.len() == i,
                forall|k: int| 0 <= k < i ==> out@[k] == spec_set_long(v0, spec_stripped(flag@))[k],
            decreases self@.len() - i,
        {
            let a = &self[i];
            let long = to_chars(a.long.as_str());
            let hit = chars_eq(&long, &stripped);
            let b = with_switch(a, a.switch || hit);
            proof {
                assert(spec_set_long(v0, spec_stripped(flag@))[i as int] == (ArgumentStruct {
                    switch: v0[i as int].switch || v0[i as int].long@ == spec_stripped(flag@),
                    ..v0[i as int]
                }));
            }
            out.push(b);
            i = i + 1;
        }
        proof {
            assert(out@ =~= spec_set_long(v0, spec_stripped(flag@)));
        }
        *self = out;
    }

    fn get(&self, flag: &str) -> (r: bool) {
        let want = to_chars(flag);
        let mut i: usize = 0;
        proof {
            assert(self@.skip(0) =~= self@);
        }
        while i < self.len()
            invariant
                i <= self@.len(),
                want@ == flag@,
                spec_get(self@, flag@) == spec_get(self@.skip(i as int), flag@),
            decreases self@.len() - i,
        {
            proof {
                assert(self@.skip(i as int)[0] == self@[i as int]);
                assert(self@.skip(i as int).drop_first() =~= self@.skip(i + 1 as int));
            }
            let long = to_chars(self[i].long.as_str());
            if chars_eq(&long, &want) {
                return self[i].switch;
            }
            i = i + 1;
        }
        proof {
            assert(self@.skip(self@.len() as int) =~= Seq::<ArgumentStruct>::empty());
        }
        false
    }

    fn help(&self) -> (r: String) {
        let mut retval = String::from_str("Usage:\ngentup [options]\n");
        let mut i: usize = 0;
        proof {
            assert(self@.take(0) =~= Seq::<ArgumentStruct>::empty());
            assert(retval@ =~= "Usage:\ngentup [options]\n"@ + spec_help_lines(self@.take(0)));
        }
        while i < self.len()
            invariant
                i <= self@.len(),
                retval@ == "Usage:\ngentup [options]\n"@ + spec_help_lines(self@.take(i as int)),
            decreases self@.len() - i,
        {
            proof {
                assert(self@.take(i + 1 as int).drop_last() =~= self@.take(i as int));
                assert(self@.take(i + 1 as int).last() == self@[i as int]);
            }
            let a = &self[i];
            let line = String::from_str("-").concat(pad_to(&a.short, 1).as_str()).concat(
                ", --",
            ).concat(pad_to(&a.long, 15).as_str()).concat("\t").concat(a.desc.as_str()).concat(
                "\n",
            );
            proof {
                assert(line@ == spec_help_line(self@[i as int]));
            }
            retval = retval.concat(line.as_str());
            proof {
                assert(retval@ =~= "Usage:\ngentup [options]\n"@ + spec_help_lines(
                    self@.take(i + 1 as int),
                ));
            }
            i = i + 1;
        }
        proof {
            assert(self@.take(self@.len() as int) =~= self@);
        }
        retval
    }

    fn usage(&self) -> (r: String) {
        let mut body = String::new();
        let mut i: usize = 0;
        proof {
            assert(self@.take(0) =~= Seq::<ArgumentStruct>::empty());
            assert(body@ =~= spec_usage_body(self@.take(0)));
        }
        while i < self.len()
            invariant
                i <= self@.len(),
                body@ == spec_usage_body(self@.take(i as int)),
            decreases self@.len() - i,
        {
            proof {
                assert(self@.take(i + 1 as int).drop_last() =~= self@.take(i as int));
                assert(self@.take(i + 1 as int).last() == self@[i as int]);
            }
            body = body.concat("--").concat(self[i].long.as_str()).concat("|");
            proof {
                assert(body@ =~= spec_usage_body(self@.take(i + 1 as int)));
            }
            i = i + 1;
        }
        proof {
            assert(self@.take(self@.len() as int) =~= self@);
        }
        let r = String::from_str("Error: usage - gentup [").concat(body.as_str()).concat("]");
        proof {
            assert(r@ =~= spec_usage(self@));
        }
        r
    }

    fn version() -> (r: String) {
        String::from_str("gentup version 0.1.0")
    }

    #[verifier::loop_isolation(false)]
    fn parse(self, args: Vec<String>, user: Option<String>) -> (r: Result<Self, String>) {
        let mut table = self;
        let ghost v0 = table@;
        let ghost argv = spec_views(args@);
        let root = match &user {
            Some(u) => {
                let uc = to_chars(u.as_str());
                let rootword = to_chars("root");
                chars_eq(&uc, &rootword)
            },
            None => false,
        };
        if !root {
            return Err(String::from_str("You need to be root to run this"));
        }
        let mut i: usize = 1;
        proof {
            if argv.len() <= 1 {
                assert(spec_parse_from(v0, argv, 1) == Ok::<_, Seq<char>>(v0));
            }
        }
        while i < args.len()
            invariant
                1 <= i,
                i <= args@.len() || i == 1,
                argv == spec_views(args@),
                argv.len() == args@.len(),
                spec_parse_from(v0, argv, 1) == spec_parse_from(table@, argv, i as int),
            decreases args@.len() - i,
        {
            proof {
                assert(argv[i as int] == args@[i as int]@);
            }
            let a = &args[i];
            let ac = to_chars(a.as_str());
            let dash_h = to_chars("-h");
            let ddash_help = to_chars("--help");
            let dash_v = to_chars("-V");
            let ddash_version = to_chars("--version");
            if chars_eq(&ac, &dash_h) || chars_eq(&ac, &ddash_help) {
                let h = table.help();
                return Err(h);
            }
            if chars_eq(&ac, &dash_v) || chars_eq(&ac, &ddash_version) {
                return Err(Self::version());
            }
            if crate::text::contains_lit(&ac, "--") {
                if table.contains(a.as_str()) {
                    let ghost before = table@;
                    table.setflag_from_long(a.clone());
                    proof {
                        assert(spec_parse_from(before, argv, i as int) == spec_parse_from(
                            table@,
                            argv,
                            i + 1 as int,
                        ));
                    }
                } else {
                    let u = table.usage();
                    return Err(u);
                }
            } else {
                let mut j: usize = 0;
                let ghost entry = table@;
                while j < ac.len()
                    invariant
                        j <= ac@.len(),
                        ac@ == argv[i as int],
                        0 <= i < argv.len(),
                        spec_parse_shorts(entry, ac@, 0) == spec_parse_shorts(
                            table@,
                            ac@,
                            j as int,
                        ),
                    decreases ac@.len() - j,
                {
                    let c = ac[j];
                    if c == '-' {
                        j = j + 1;
                        continue;
                    }
                    let single = char_string(c);
                    if table.contains(single.as_str()) {
                        proof {
                            assert(spec_args_contain(table@, seq![ac@[j as int]]));
                        }
                        let ghost before = table@;
                        table.setflag(&c);
                        proof {
                            assert(spec_parse_shorts(before, ac@, j as int)
                                == spec_parse_shorts(table@, ac@, j + 1 as int));
                        }
                    } else {
                        proof {
                            assert(!spec_args_contain(table@, seq![ac@[j as int]]));
                            assert(spec_parse_shorts(entry, ac@, 0) == Err::<Seq<ArgumentStruct>, _>(
                                spec_usage(table@),
                            ));
                        }
                        let u = table.usage();
                        return Err(u);
                    }
                    j = j + 1;
                }
                proof {
                    assert(spec_parse_shorts(table@, ac@, ac@.len() as int) == Ok::<_, Seq<char>>(
                        table@,
                    ));
                    assert(spec_parse_from(entry, argv, i as int) == spec_parse_from(
                        table@,
                        argv,
                        i + 1 as int,
                    ));
                }
            }
            i = i + 1;
        }
        proof {
            assert(spec_parse_from(table@, argv, i as int) == Ok::<_, Seq<char>>(table@));
        }
        Ok(table)
    }
}

/// The characters of `v` that are not '-'.
fn strip_dashes(v: &Vec<char>) -> (r: Vec<char>)
    ensures
        r@ == spec_stripped(v@),
{
    let mut keep: Vec<char> = Vec::new();
    let mut i: usize = 0;
    proof {
        reveal(Seq::filter);
        assert(v@.take(0) =~= Seq::<char>::empty());
    }
    while i < v.len()
        invariant
            i <= v@.len(),
            keep@ == spec_stripped(v@.take(i as int)),
        decreases v@.len() - i,
    {
        proof {
            reveal(Seq::filter);
            assert(v@.take(i + 1 as int).drop_last() =~= v@.take(i as int));
            assert(v@.take(i + 1 as int).last() == v@[i as int]);
        }
        if v[i] != '-' {
            keep.push(v[i]);
        }
        i = i + 1;
    }
    proof {
        assert(v@.take(v@.len() as int) =~= v@);
    }
    keep
}

/// A one-character string.
fn char_string(c: char) -> (r: String)
    ensures
        r@ == seq![c],
{
    let mut s = String::new();
    s.push(c);
    proof {
        assert(s@ =~= seq![c]);
    }
    s
}

/// `s` padded with spaces on the right up to width `n`.
fn pad_to(s: &String, n: usize) -> (r: String)
    ensures
        r@ == spec_pad(s@, n as int),
{
    let l = s.as_str().unicode_len();
    let mut r = s.clone();
    let mut i: usize = l;
    proof {
        assert(spec_spaces(0) =~= Seq::<char>::empty());
        assert(r@ =~= s@ + spec_spaces(i as int - l as int));
    }
    while i < n
        invariant
            l as int == s@.len(),
            i >= l,
            i <= n || i == l,
            r@ == s@ + spec_spaces(i as int - l as int),
        decreases n - i,
    {
        r.push(' ');
        proof {
            assert(r@ =~= s@ + spec_spaces(i + 1 as int - l as int));
        }
        i = i + 1;
    }
    proof {
        if n <= l {
            assert(spec_spaces(n as int - s@.len()) =~= Seq::<char>::empty());
            assert(spec_spaces(i as int - l as int) =~= Seq::<char>::empty());
            assert(r@ =~= spec_pad(s@, n as int));
        } else {
            assert(i == n);
            assert(r@ == spec_pad(s@, n as int));
        }
    }
    r
}

} // verus!
