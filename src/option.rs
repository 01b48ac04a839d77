//! Options: switches whose value is the argument right after them.

use crate::tokens::{chars_of, seq_of, spells, texts};
use vstd::prelude::*;

verus! {

/// The characters of each borrowed argument.
pub open spec fn str_texts(args: Seq<&str>) -> Seq<Seq<char>> {
    args.map_values(|a: &str| a@)
}

/// Position `i` holds the first argument after the program path that is
/// exactly `tok`.
pub open spec fn first_at(args: Seq<Seq<char>>, tok: Seq<char>, i: int) -> bool {
    &&& 1 <= i < args.len()
    &&& args[i] == tok
    &&& forall|j: int| 1 <= j < i ==> #[trigger] args[j] != tok
}

/// The value given to the option spelled `tok`: the argument that follows the
/// first occurrence of `tok` after the program path. There is none when `tok`
/// does not occur, or when its first occurrence is the last argument.
pub open spec fn value_of(args: Seq<Seq<char>>, tok: Seq<char>) -> Option<Seq<char>> {
    if exists|i: int| first_at(args, tok, i) {
        let i = choose|i: int| first_at(args, tok, i);
        if i + 1 < args.len() {
            Some(args[i + 1])
        } else {
            None
        }
    } else {
        None
    }
}

/// At most one position holds the first occurrence of a token.
proof fn lemma_first_at_unique(args: Seq<Seq<char>>, tok: Seq<char>, i: int, k: int)
    requires
        first_at(args, tok, i),
        first_at(args, tok, k),
    ensures
        i == k,
{
    if i < k {
        assert(args[i] != tok);
    } else if k < i {
        assert(args[k] != tok);
    }
}

/// What `value_of` gives once the first occurrence is known to be at `i`.
proof fn lemma_value_at(args: Seq<Seq<char>>, tok: Seq<char>, i: int)
    requires
        first_at(args, tok, i),
    ensures
        value_of(args, tok) == (if i + 1 < args.len() {
            Some(args[i + 1])
        } else {
            None::<Seq<char>>
        }),
{
    let k = choose|k: int| first_at(args, tok, k);
    lemma_first_at_unique(args, tok, i, k);
}

/// Where no argument after the program path is `tok`, it has no value.
proof fn lemma_value_absent(args: Seq<Seq<char>>, tok: Seq<char>)
    requires
        forall|j: int| 1 <= j < args.len() ==> #[trigger] args[j] != tok,
    ensures
        value_of(args, tok) is None,
{
    assert(!exists|i: int| first_at(args, tok, i));
}

/// Get the string value of an argument provided by the args parameter.
/// Argument name must have the prepended hyphens (e.g. -a, --my-arg).
pub fn arg_val<'a>(name: String, args: &[&'a str]) -> (r: Option<&'a str>)
    ensures
        r is None <==> value_of(str_texts(args@), name@) is None,
        r matches Some(v) ==> value_of(str_texts(args@), name@) == Some(v@),
{
    let ghost a = str_texts(args@);
    let want = chars_of(name.as_str());
    let mut i: usize = 1;
    while i < args.len()
        invariant
            a == str_texts(args@),
            want@ == name@,
            1 <= i,
            forall|j: int| 1 <= j < i && j < a.len() ==> #[trigger] a[j] != name@,
        decreases args@.len() - i,
    {
        if spells(args[i], &want) {
            proof {
                lemma_value_at(a, name@, i as int);
            }
            if i + 1 < args.len() {
                return Some(args[i + 1]);
            }
            return None;
        }
        i = i + 1;
    }
    proof {
        lemma_value_absent(a, name@);
    }
    None
}

/// The value of the option spelled `want`, copied out of `args`.
pub(crate) fn value_after(args: &[String], want: &Vec<char>) -> (r: Option<String>)
    ensures
        seq_of(r) == value_of(texts(args@), want@),
{
    let ghost a = texts(args@);
    let mut i: usize = 1;
    while i < args.len()
        invariant
            a == texts(args@),
            1 <= i,
            forall|j: int| 1 <= j < i && j < a.len() ==> #[trigger] a[j] != want@,
        decreases args@.len() - i,
    {
        if spells(args[i].as_str(), want) {
            proof {
                lemma_value_at(a, want@, i as int);
            }
            if i + 1 < args.len() {
                return Some(args[i + 1].clone());
            }
            return None;
        }
        i = i + 1;
    }
    proof {
        lemma_value_absent(a, want@);
    }
    None
}

} // verus!
