//! The mathematical model of argument lists and of the tokens that name a
//! flag or an option, with the small string routines the lookups share.

use vstd::prelude::*;

verus! {

/// `s` with every underscore written as a hyphen: long names are spelled
/// with hyphens on the command line whatever separator the caller used.
pub open spec fn hyphenate(s: Seq<char>) -> Seq<char> {
    s.map_values(|c: char| if c == '_' { '-' } else { c })
}

/// The token `-<short>`.
pub open spec fn short_token(short: Seq<char>) -> Seq<char> {
    seq!['-'] + short
}

/// The token `--<long>`, underscores of `long` read as hyphens.
pub open spec fn long_token(long: Seq<char>) -> Seq<char> {
    seq!['-', '-'] + hyphenate(long)
}

/// `needle` stands somewhere in `hay` as a run of consecutive characters.
pub open spec fn occurs(hay: Seq<char>, needle: Seq<char>) -> bool {
    exists|k: int|
        0 <= k && k + needle.len() <= hay.len() && #[trigger] hay.subrange(k, k + needle.len())
            == needle
}

/// A token that may hold a group of short flags: it starts with exactly one
/// hyphen (`-abc`, but not `--abc`).
pub open spec fn is_flag_group(t: Seq<char>) -> bool {
    &&& t.len() >= 1
    &&& t[0] == '-'
    &&& !(t.len() >= 2 && t[1] == '-')
}

/// The characters of each argument.
pub open spec fn texts(args: Seq<String>) -> Seq<Seq<char>> {
    args.map_values(|a: String| a@)
}

/// The characters of an optional string.
pub open spec fn seq_of(o: Option<String>) -> Option<Seq<char>> {
    match o {
        Some(s) => Some(s@),
        None => None,
    }
}

/// Copies the characters of `s` into a vector.
pub(crate) fn chars_of(s: &str) -> (r: Vec<char>)
    ensures
        r@ == s@,
{
    let n = s.unicode_len();
    let mut r: Vec<char> = Vec::new();
    let mut i: usize = 0;
    while i < n
        invariant
            n == s@.len(),
            i <= n,
            r@ == s@.subrange(0, i as int),
        decreases n - i,
    {
        r.push(s.get_char(i));
        i = i + 1;
    }
    assert(r@ =~= s@);
    r
}

/// Whether `arg` is spelled exactly as `want`.
pub(crate) fn spells(arg: &str, want: &Vec<char>) -> (r: bool)
    ensures
        r == (arg@ == want@),
{
    let n = arg.unicode_len();
    if n != want.len() {
        return false;
    }
    let mut i: usize = 0;
    while i < n
        invariant
            n == arg@.len(),
            n == want@.len(),
            i <= n,
            forall|j: int| 0 <= j < i ==> arg@[j] == want@[j],
        decreases n - i,
    {
        if arg.get_char(i) != want[i] {
            return false;
        }
        i = i + 1;
    }
    assert(arg@ =~= want@);
    true
}

/// Spells the token `-<short>`.
pub(crate) fn short_spelling(short: &str) -> (r: Vec<char>)
    ensures
        r@ == short_token(short@),
{
    let name = chars_of(short);
    let mut r: Vec<char> = vec!['-'];
    let mut i: usize = 0;
    while i < name.len()
        invariant
            i <= name@.len(),
            r@ == seq!['-'] + name@.subrange(0, i as int),
        decreases name@.len() - i,
    {
        r.push(name[i]);
        i = i + 1;
        assert(r@ =~= seq!['-'] + name@.subrange(0, i as int));
    }
    assert(name@.subrange(0, name@.len() as int) =~= short@);
    r
}

/// Spells the token `--<long>`, writing each underscore of `long` as a
/// hyphen.
pub(crate) fn long_spelling(long: &str) -> (r: Vec<char>)
    ensures
        r@ == long_token(long@),
{
    let name = chars_of(long);
    let mut r: Vec<char> = vec!['-', '-'];
    let mut i: usize = 0;
    while i < name.len()
        invariant
            i <= name@.len(),
            r@ == seq!['-', '-'] + hyphenate(name@.subrange(0, i as int)),
        decreases name@.len() - i,
    {
        let c = name[i];
        if c == '_' {
            r.push('-');
        } else {
            r.push(c);
        }
        i = i + 1;
        assert(r@ =~= seq!['-', '-'] + hyphenate(name@.subrange(0, i as int)));
    }
    assert(name@.subrange(0, name@.len() as int) =~= long@);
    r
}

/// Whether `needle` stands in `hay` from position `k` on.
fn matches_at(hay: &Vec<char>, k: usize, needle: &Vec<char>) -> (r: bool)
    requires
        k + needle@.len() <= hay@.len(),
    ensures
        r == (hay@.subrange(k as int, k + needle@.len()) == needle@),
{
    let n = needle.len();
    let h = hay.len();
    let mut j: usize = 0;
    while j < n
        invariant
            n == needle@.len(),
            h == hay@.len(),
            k + n <= h,
            j <= n,
            forall|m: int| 0 <= m < j ==> hay@[k + m] == needle@[m],
        decreases n - j,
    {
        if hay[k + j] != needle[j] {
            assert(hay@.subrange(k as int, k + n)[j as int] != needle@[j as int]);
            return false;
        }
        j = j + 1;
    }
    assert(hay@.subrange(k as int, k + n) =~= needle@);
    true
}

/// Whether `needle` occurs in the characters of `hay` from position `start`
/// on.
pub(crate) fn occurs_from(hay: &Vec<char>, start: usize, needle: &Vec<char>) -> (r: bool)
    requires
        start <= hay@.len(),
    ensures
        r == occurs(hay@.subrange(start as int, hay@.len() as int), needle@),
{
    let ghost rest = hay@.subrange(start as int, hay@.len() as int);
    let h = hay.len();
    let n = needle.len();
    if n > h - start {
        return false;
    }
    if n == 0 {
        assert(rest.subrange(0int, 0int + needle@.len()) =~= needle@);
        return true;
    }
    let mut k: usize = start;
    while k <= h - n
        invariant
            h == hay@.len(),
            n == needle@.len(),
            1 <= n,
            start + n <= h,
            start <= k <= h - n + 1,
            rest == hay@.subrange(start as int, h as int),
            forall|p: int|
                start <= p < k ==> #[trigger] hay@.subrange(p, p + n) != needle@,
        decreases h - n + 1 - k,
    {
        if matches_at(hay, k, needle) {
            let ghost q = k - start;
            assert(rest.subrange(q, q + n) =~= hay@.subrange(k as int, k + n));
            return true;
        }
        k = k + 1;
    }
    assert forall|q: int| 0 <= q && q + n <= rest.len() implies #[trigger] rest.subrange(q, q + n)
        != needle@ by {
        assert(rest.subrange(q, q + n) =~= hay@.subrange(start + q, start + q + n));
    }
    false
}

} // verus!
