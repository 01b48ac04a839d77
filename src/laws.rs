//! Properties of flag and option lookup, stated over the model that the
//! lookups' contracts use and proved once for all inputs.

use crate::name::{flag_present, option_value};
use crate::option::{first_at, value_of};
use crate::tokens::{hyphenate, long_token, occurs, short_token};
use vstd::prelude::*;

verus! {

/// A name with only a long form `long` names a flag present in `args`
/// exactly when some argument after the program path is `--` followed by
/// `long` with its underscores written as hyphens.
pub proof fn lemma_long_only_flag(args: Seq<Seq<char>>, long: Seq<char>)
    ensures
        flag_present(args, Some(long), None) <==> exists|i: int|
            1 <= i < args.len() && #[trigger] args[i] == seq!['-', '-'] + hyphenate(long),
{
}

/// A name with only a short form `short` names a flag present in `args`
/// exactly when some argument after the program path starts with one hyphen
/// but not two, and holds `short` among its remaining characters.
pub proof fn lemma_short_only_flag(args: Seq<Seq<char>>, short: Seq<char>)
    ensures
        flag_present(args, None, Some(short)) <==> exists|i: int|
            1 <= i < args.len() && (#[trigger] args[i]).len() >= 1 && args[i][0] == '-' && !(
            args[i].len() >= 2 && args[i][1] == '-') && occurs(
                args[i].subrange(1, args[i].len() as int),
                short,
            ),
{
}

/// Where no argument after the program path starts with a hyphen (an empty
/// list, a list that holds only the program path, or one of plain words), no
/// flag is present and no option has a value, whatever the name.
pub proof fn lemma_absent_without_switches(
    args: Seq<Seq<char>>,
    long: Option<Seq<char>>,
    short: Option<Seq<char>>,
)
    requires
        forall|i: int| 1 <= i < args.len() ==> !((#[trigger] args[i]).len() >= 1 && args[i][0] == '-'),
    ensures
        !flag_present(args, long, short),
        option_value(args, long, short) is None,
{
    assert forall|tok: Seq<char>| tok.len() >= 1 && tok[0] == '-' implies value_of(args, tok) is None by {
        assert(!exists|i: int| first_at(args, tok, i));
    }
    if let Some(s) = short {
        assert(short_token(s)[0] == '-');
    }
    if let Some(l) = long {
        assert(long_token(l)[0] == '-');
    }
}

/// Lookups hold no state of their own: argument lists and names with the
/// same characters always give the same flag and the same option value.
pub proof fn lemma_lookup_deterministic(
    args1: Seq<Seq<char>>,
    args2: Seq<Seq<char>>,
    long: Option<Seq<char>>,
    short: Option<Seq<char>>,
)
    requires
        args1 == args2,
    ensures
        flag_present(args1, long, short) == flag_present(args2, long, short),
        option_value(args1, long, short) == option_value(args2, long, short),
{
}

} // verus!
