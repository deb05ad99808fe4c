//! Rendering a package list as a column-aligned table for the terminal:
//! package names are shortened to their category/name part, and laid out in
//! rows of equal-width columns for the given terminal width.

use vstd::prelude::*;

use crate::text::{chars_to_string, spec_is_digit, spec_str_views, spec_views, to_chars};

verus! {

/// The position of the last '-' in `s` that is directly followed by an
/// ASCII digit, or -1 when there is none.
pub open spec fn spec_dash_pos(s: Seq<char>) -> int
    decreases s.len(),
{
    if s.len() < 2 {
        -1
    } else if s[s.len() - 2] == '-' && spec_is_digit(s[s.len() - 1]) {
        s.len() - 2
    } else {
        spec_dash_pos(s.drop_last())
    }
}

/// A package name shortened to the part before its version: everything
/// before the last '-' that a digit follows, or the whole name when it has
/// no version suffix.
pub open spec fn spec_shorten(s: Seq<char>) -> Seq<char> {
    let p = spec_dash_pos(s);
    if p >= 0 {
        s.take(p)
    } else {
        s
    }
}

/// Every element of `items` shortened.
pub open spec fn spec_shortened_all(items: Seq<Seq<char>>) -> Seq<Seq<char>> {
    items.map_values(|s: Seq<char>| spec_shorten(s))
}

/// Relies on regex::Regex::captures with the fixed pattern "(.*)-[0-9].*":
/// on newline-free input the greedy first group captures everything before
/// the last '-' that an ASCII digit follows, and without such a pair there
/// is no match, so the name comes back whole.
#[verifier::external_body]
pub fn shorten(packagename: &str) -> (r: String)
    requires
        !packagename@.contains('\n'),
    ensures
        r@ == spec_shorten(packagename@),
{
    let regularexpression = regex::Regex::new(r"(.*)-[0-9].*").unwrap();
    if let Some(capture) = regularexpression.captures(packagename) {
        capture[1].to_string()
    } else {
        packagename.to_string()
    }
}

/// The length of the longest of the given names.
pub open spec fn spec_max_len(items: Seq<Seq<char>>) -> int
    decreases items.len(),
{
    if items.len() == 0 {
        0
    } else {
        let rest = spec_max_len(items.drop_last());
        if items.last().len() > rest {
            items.last().len() as int
        } else {
            rest
        }
    }
}

pub proof fn lemma_max_len_nonneg(items: Seq<Seq<char>>)
    ensures
        spec_max_len(items) >= 0,
    decreases items.len(),
{
    if items.len() > 0 {
        lemma_max_len_nonneg(items.drop_last());
    }
}

pub proof fn lemma_max_len_ge(items: Seq<Seq<char>>, i: int)
    requires
        0 <= i < items.len(),
    ensures
        items[i].len() <= spec_max_len(items),
    decreases items.len(),
{
    if i == items.len() - 1 {
    } else {
        lemma_max_len_ge(items.drop_last(), i);
        assert(items.drop_last()[i] == items[i]);
    }
}

/// `n` spaces.
pub open spec fn spec_spaces(n: int) -> Seq<char>
    decreases n,
{
    if n <= 0 {
        Seq::<char>::empty()
    } else {
        spec_spaces(n - 1).push(' ')
    }
}

/// A run of `n` spaces.
fn spaces_vec(n: usize) -> (r: Vec<char>)
    ensures
        r@ == spec_spaces(n as int),
{
    let mut r: Vec<char> = Vec::new();
    let mut i: usize = 0;
    while i < n
        invariant
            i <= n,
            r@ == spec_spaces(i as int),
        decreases n - i,
    {
        r.push(' ');
        i = i + 1;
    }
    r
}

/// The rendering of the names from position `i` on: each name is followed
/// by four spaces; after every `per_line`-th name the row ends with a
/// newline and the count starts over, otherwise the column is padded to
/// `maxlen` plus one further space; an unfinished final row ends with a
/// newline of its own.
pub open spec fn spec_table_rest(
    items: Seq<Seq<char>>,
    i: int,
    counter: int,
    maxlen: int,
    per_line: int,
) -> Seq<char>
    decreases items.len() - i,
{
    if i < 0 || i >= items.len() {
        if counter > 0 {
            "\n"@
        } else {
            Seq::<char>::empty()
        }
    } else {
        let chunk = items[i] + "    "@;
        if counter + 1 >= per_line {
            chunk + "\n"@ + spec_table_rest(items, i + 1, 0, maxlen, per_line)
        } else {
            chunk + spec_spaces(maxlen - items[i].len() + 1) + spec_table_rest(
                items,
                i + 1,
                counter + 1,
                maxlen,
                per_line,
            )
        }
    }
}

/// The whole table for the given names and terminal width: a blank line,
/// the rows, and a final newline. The column width is the longest name,
/// and a row holds as many columns as fit the width with their four-space
/// gaps.
pub open spec fn spec_table(items: Seq<Seq<char>>, width: int) -> Seq<char> {
    let maxlen = spec_max_len(items);
    "\n"@ + spec_table_rest(items, 0, 0, maxlen, width / (maxlen + 4)) + "\n"@
}

/// Renders already shortened names as a table for the given width.
pub fn tabulate_shortened(shorts: &Vec<String>, width: u16) -> (r: String)
    requires
        spec_max_len(spec_views(shorts@)) <= 65531,
    ensures
        r@ == spec_table(spec_views(shorts@), width as int),
{
    let ghost items = spec_views(shorts@);
    proof {
        lemma_max_len_nonneg(items);
    }
    let mut maxlen: usize = 0;
    let mut i: usize = 0;
    proof {
        assert(items.take(0) =~= Seq::<Seq<char>>::empty());
    }
    while i < shorts.len()
        invariant
            i <= shorts@.len(),
            items == spec_views(shorts@),
            items.len() == shorts@.len(),
            maxlen as int == spec_max_len(items.take(i as int)),
        decreases shorts@.len() - i,
    {
        proof {
            assert(items.take(i + 1 as int).drop_last() =~= items.take(i as int));
            assert(items.take(i + 1 as int).last() == items[i as int]);
            assert(items[i as int] == shorts@[i as int]@);
        }
        let l = shorts[i].as_str().unicode_len();
        if l > maxlen {
            maxlen = l;
        }
        i = i + 1;
    }
    proof {
        assert(items.take(items.len() as int) =~= items);
    }
    let per_line: usize = (width as usize) / (maxlen + 4);
    proof {
        assert(per_line as int == (width as int) / (spec_max_len(items) + 4));
    }
    let mut acc: Vec<char> = Vec::new();
    acc.push('\n');
    let mut counter: usize = 0;
    let mut j: usize = 0;
    proof {
        reveal_strlit("\n");
        assert(acc@ =~= "\n"@);
    }
    while j < shorts.len()
        invariant
            j <= shorts@.len(),
            items == spec_views(shorts@),
            items.len() == shorts@.len(),
            maxlen as int == spec_max_len(items),
            maxlen <= 65531,
            per_line as int == (width as int) / (spec_max_len(items) + 4),
            counter <= j,
            spec_table(items, width as int) == acc@ + spec_table_rest(
                items,
                j as int,
                counter as int,
                maxlen as int,
                per_line as int,
            ) + "\n"@,
        decreases shorts@.len() - j,
    {
        let ghost acc0 = acc@;
        let ghost c0 = counter as int;
        let ghost chv = items[j as int] + "    "@;
        let ghost rest = spec_table_rest(items, j as int, c0, maxlen as int, per_line as int);
        proof {
            assert(items[j as int] == shorts@[j as int]@);
            lemma_max_len_ge(items, j as int);
        }
        let mut chunk = to_chars(shorts[j].as_str());
        let mut gap = to_chars("    ");
        chunk.append(&mut gap);
        proof {
            assert(chunk@ == chv);
        }
        acc.append(&mut chunk);
        if counter + 1 >= per_line {
            acc.push('\n');
            counter = 0;
            proof {
                reveal_strlit("\n");
                let rest2 = spec_table_rest(
                    items,
                    j + 1 as int,
                    0,
                    maxlen as int,
                    per_line as int,
                );
                assert(rest == chv + "\n"@ + rest2);
                assert(acc@ =~= acc0 + (chv + "\n"@));
                assert(acc@ + rest2 =~= acc0 + rest);
            }
        } else {
            let l = shorts[j].as_str().unicode_len();
            let n = maxlen - l + 1;
            let mut pad = spaces_vec(n);
            acc.append(&mut pad);
            counter = counter + 1;
            proof {
                let rest2 = spec_table_rest(
                    items,
                    j + 1 as int,
                    c0 + 1,
                    maxlen as int,
                    per_line as int,
                );
                assert(rest == chv + spec_spaces(maxlen - items[j as int].len() + 1) + rest2);
                assert(n as int == maxlen - items[j as int].len() + 1);
                assert(acc@ =~= acc0 + (chv + spec_spaces(n as int)));
                assert(acc@ + rest2 =~= acc0 + rest);
            }
        }
        j = j + 1;
    }
    let ghost acc1 = acc@;
    let ghost cend = counter as int;
    if counter > 0 {
        acc.push('\n');
    }
    acc.push('\n');
    proof {
        reveal_strlit("\n");
        let rest = spec_table_rest(
            items,
            items.len() as int,
            cend,
            maxlen as int,
            per_line as int,
        );
        if cend > 0 {
            assert(rest == "\n"@);
            assert("\n"@ =~= seq!['\n']);
            assert(acc@ =~= (acc1 + rest) + "\n"@);
        } else {
            assert(rest =~= Seq::<char>::empty());
            assert(acc@ =~= (acc1 + rest) + "\n"@);
        }
    }
    chars_to_string(&acc)
}

/// The length of the longest shortened name in the list, for sizing the
/// table's columns.
pub fn longest(vec_of_strings: &Vec<&str>) -> (r: u16)
    requires
        forall|i: int| 0 <= i < vec_of_strings@.len() ==> !(#[trigger] vec_of_strings@[i]@)
            .contains('\n'),
        spec_max_len(spec_shortened_all(spec_str_views(vec_of_strings@))) <= 65535,
    ensures
        r as int == spec_max_len(spec_shortened_all(spec_str_views(vec_of_strings@))),
{
    let ghost items = spec_shortened_all(spec_str_views(vec_of_strings@));
    proof {
        lemma_max_len_nonneg(items);
    }
    let mut longest_length: usize = 0;
    let mut i: usize = 0;
    proof {
        assert(items.take(0) =~= Seq::<Seq<char>>::empty());
    }
    while i < vec_of_strings.len()
        invariant
            i <= vec_of_strings@.len(),
            items == spec_shortened_all(spec_str_views(vec_of_strings@)),
            items.len() == vec_of_strings@.len(),
            forall|k: int| 0 <= k < vec_of_strings@.len() ==> !(#[trigger] vec_of_strings@[k]@)
                .contains('\n'),
            longest_length as int == spec_max_len(items.take(i as int)),
            spec_max_len(items) <= 65535,
        decreases vec_of_strings@.len() - i,
    {
        proof {
            assert(items.take(i + 1 as int).drop_last() =~= items.take(i as int));
            assert(items.take(i + 1 as int).last() == items[i as int]);
            assert(items[i as int] == spec_shorten(vec_of_strings@[i as int]@));
        }
        let shortened_string = shorten(vec_of_strings[i]);
        let thislen = shortened_string.as_str().unicode_len();
        if thislen > longest_length {
            longest_length = thislen;
        }
        i = i + 1;
    }
    proof {
        assert(items.take(items.len() as int) =~= items);
    }
    longest_length as u16
}

/// Renders the package list as a table: each name shortened, columns sized
/// to the longest, rows wrapped to the terminal width.
pub fn package_list(plist: &Vec<&str>, width: u16) -> (r: String)
    requires
        forall|i: int| 0 <= i < plist@.len() ==> !(#[trigger] plist@[i]@).contains('\n'),
        spec_max_len(spec_shortened_all(spec_str_views(plist@))) <= 65531,
    ensures
        r@ == spec_table(spec_shortened_all(spec_str_views(plist@)), width as int),
{
    let ghost items = spec_shortened_all(spec_str_views(plist@));
    let mut shorts: Vec<String> = Vec::new();
    let mut i: usize = 0;
    while i < plist.len()
        invariant
            i <= plist@.len(),
            items == spec_shortened_all(spec_str_views(plist@)),
            items.len() == plist@.len(),
            forall|k: int| 0 <= k < plist@.len() ==> !(#[trigger] plist@[k]@).contains('\n'),
            shorts@.len() == i,
            forall|k: int| 0 <= k < i ==> (#[trigger] shorts@[k])@ == items[k],
        decreases plist@.len() - i,
    {
        proof {
            assert(items[i as int] == spec_shorten(plist@[i as int]@));
        }
        shorts.push(shorten(plist[i]));
        i = i + 1;
    }
    proof {
        assert(spec_views(shorts@) =~= items);
    }
    tabulate_shortened(&shorts, width)
}

} // verus!
