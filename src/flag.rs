//! Flags: switches whose presence alone matters.

use crate::tokens::{
    chars_of, is_flag_group, long_spelling, long_token, occurs, occurs_from, spells, texts,
};
use vstd::prelude::*;

verus! {

/// Some argument after the program path is a group of short flags whose
/// characters after the leading hyphen hold `short` (so `-abc` holds `a`,
/// `b` and `c`).
pub open spec fn short_flag_present(args: Seq<Seq<char>>, short: Seq<char>) -> bool {
    exists|i: int|
        1 <= i < args.len() && is_flag_group(#[trigger] args[i]) && occurs(
            args[i].subrange(1, args[i].len() as int),
            short,
        )
}

/// Some argument after the program path is exactly `--<long>`, underscores
/// of `long` read as hyphens.
pub open spec fn long_flag_present(args: Seq<Seq<char>>, long: Seq<char>) -> bool {
    exists|i: int| 1 <= i < args.len() && #[trigger] args[i] == long_token(long)
}

/// Check if the short-name version of the flag is present in the args.
pub fn has_short_name_flag(args: &[String], name: &str) -> (r: bool)
    ensures
        r == short_flag_present(texts(args@), name@),
{
    let ghost a = texts(args@);
    let needle = chars_of(name);
    let mut i: usize = 1;
    while i < args.len()
        invariant
            a == texts(args@),
            needle@ == name@,
            1 <= i,
            forall|j: int|
                1 <= j < i && j < a.len() ==> !(is_flag_group(#[trigger] a[j]) && occurs(
                    a[j].subrange(1, a[j].len() as int),
                    name@,
                )),
        decreases args@.len() - i,
    {
        let t = chars_of(args[i].as_str());
        assert(t@ == a[i as int]);
        let group = t.len() >= 1 && t[0] == '-' && !(t.len() >= 2 && t[1] == '-');
        if group && occurs_from(&t, 1, &needle) {
            return true;
        }
        i = i + 1;
    }
    false
}

/// Check if the long-name version of the flag is present in the args.
pub fn has_long_name_flag(args: &[String], name: &str) -> (r: bool)
    ensures
        r == long_flag_present(texts(args@), name@),
{
    let ghost a = texts(args@);
    let want = long_spelling(name);
    let mut i: usize = 1;
    while i < args.len()
        invariant
            a == texts(args@),
            want@ == long_token(name@),
            1 <= i,
            forall|j: int| 1 <= j < i && j < a.len() ==> #[trigger] a[j] != long_token(name@),
        decreases args@.len() - i,
    {
        if spells(args[i].as_str(), &want) {
            assert(a[i as int] == long_token(name@));
            return true;
        }
        i = i + 1;
    }
    false
}

} // verus!
