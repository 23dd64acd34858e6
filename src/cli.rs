//! What a field reads from the results of a command-line parse.
use vstd::prelude::*;
use crate::value::{bool_text, format_bool};

verus! {

#[verifier::external_type_specification]
#[verifier::external_body]
pub struct ExArgMatches<'a>(clap::ArgMatches<'a>);

/// The names that a parse holds: each argument that was given on the command
/// line, and the name of the subcommand, if one was given.
pub uninterp spec fn given_names(args: clap::ArgMatches) -> Set<Seq<char>>;

/// Relies on clap's `ArgMatches::is_present`: whether `name` is among the
/// names that the parse holds (a key of its argument map, or the name of its
/// subcommand).
#[verifier::external_body]
fn flag_present(args: &clap::ArgMatches, name: &str) -> (r: bool)
    ensures
        r == given_names(*args).contains(name@),
{
    args.is_present(name)
}

/// The canonical text for a switch that was, or was not, given: `true`
/// exactly when it was present.
pub fn presence_text(present: bool) -> (r: String)
    ensures
        r@ == bool_text(present),
{
    format_bool(present)
}

/// Whether the switch named `name` was given, as canonical boolean text.
pub fn switch_text(args: &clap::ArgMatches, name: &str) -> (r: String)
    ensures
        r@ == bool_text(given_names(*args).contains(name@)),
{
    let present = flag_present(args, name);
    presence_text(present)
}

} // verus!
