//! Names that give a flag or an option a long form, a short form, or both.

use crate::flag::{has_long_name_flag, has_short_name_flag, long_flag_present, short_flag_present};
use crate::option::{value_after, value_of};
use crate::tokens::{long_spelling, long_token, seq_of, short_spelling, short_token, texts};
use vstd::prelude::*;

verus! {

/// Struct represents a long and/or short name from the command line.
///
/// Both long and short are optional; a name with neither never matches.
/// A long name is matched as `--<long>` with its underscores written as
/// hyphens, a short one as `-<short>`.
pub struct Name {
    pub long: Option<String>,
    pub short: Option<String>,
}

/// The flag named by `long` and `short` is present in `args`: by its short
/// form, inside a group of short flags, or by its long form.
pub open spec fn flag_present(
    args: Seq<Seq<char>>,
    long: Option<Seq<char>>,
    short: Option<Seq<char>>,
) -> bool {
    ||| (short matches Some(s) && short_flag_present(args, s))
    ||| (long matches Some(l) && long_flag_present(args, l))
}

/// The value of the option named by `long` and `short`. The short form is
/// looked up first, on its own; only where it yields no value is the long
/// form looked up, again on its own.
pub open spec fn option_value(
    args: Seq<Seq<char>>,
    long: Option<Seq<char>>,
    short: Option<Seq<char>>,
) -> Option<Seq<char>> {
    let by_short = match short {
        Some(s) => value_of(args, short_token(s)),
        None => None,
    };
    match by_short {
        Some(v) => Some(v),
        None => match long {
            Some(l) => value_of(args, long_token(l)),
            None => None,
        },
    }
}

impl Name {
    /// Create a [`Name`] with a long and a short name as the parameters.
    ///
    /// **Accepts**: --long-name *or* -s
    pub fn new(long: &str, short: &str) -> (r: Self)
        ensures
            seq_of(r.long) == Some(long@),
            seq_of(r.short) == Some(short@),
    {
        Self { long: Some(long.to_string()), short: Some(short.to_string()) }
    }

    /// Create a [`Name`] with just a long name.
    ///
    /// **Accepts:** --long-name
    pub fn long(name: &str) -> (r: Self)
        ensures
            seq_of(r.long) == Some(name@),
            r.short is None,
    {
        Self { long: Some(name.to_string()), short: None }
    }

    /// Create a [`Name`] with just a short name.
    ///
    /// **Accepts:** -s
    pub fn short(name: &str) -> (r: Self)
        ensures
            r.long is None,
            seq_of(r.short) == Some(name@),
    {
        Self { long: None, short: Some(name.to_string()) }
    }
}

/// Whether the flag called `name` is present in `args`.
pub fn _named_flag(name: Name, args: &[String]) -> (r: bool)
    ensures
        r == flag_present(texts(args@), seq_of(name.long), seq_of(name.short)),
{
    let by_short = match &name.short {
        Some(s) => has_short_name_flag(args, s.as_str()),
        None => false,
    };
    by_short || match &name.long {
        Some(l) => has_long_name_flag(args, l.as_str()),
        None => false,
    }
}

/// The value given to the option called `name` in `args`, if any.
pub fn _named_option(name: Name, args: &[String]) -> (r: Option<String>)
    ensures
        seq_of(r) == option_value(texts(args@), seq_of(name.long), seq_of(name.short)),
{
    let by_short = match &name.short {
        Some(s) => value_after(args, &short_spelling(s.as_str())),
        None => None,
    };
    match by_short {
        Some(v) => Some(v),
        None => match &name.long {
            Some(l) => value_after(args, &long_spelling(l.as_str())),
            None => None,
        },
    }
}

} // verus!
