//! Typed values and their canonical string form.
use vstd::prelude::*;

verus! {

/// A value that passed validation, tagged with its semantic type.
#[derive(Clone, Copy, Debug, PartialEq, Eq, Structural)]
pub enum TaggedValue {
    Bool(bool),
}

/// The canonical text of a boolean: `true` or `false`, in lower case.
pub open spec fn bool_text(b: bool) -> Seq<char> {
    if b {
        "true"@
    } else {
        "false"@
    }
}

/// The boolean that a text stands for: only the two canonical spellings are
/// accepted.
pub open spec fn bool_of(s: Seq<char>) -> Option<bool> {
    if s == "true"@ {
        Some(true)
    } else if s == "false"@ {
        Some(false)
    } else {
        None
    }
}

/// The two canonical texts differ.
pub proof fn lemma_bool_texts_differ()
    ensures
        bool_text(true) != bool_text(false),
{
    reveal_strlit("true");
    reveal_strlit("false");
    assert(bool_text(true).len() != bool_text(false).len());
}

/// Reading the canonical text of `b` gives `b` back.
pub proof fn lemma_bool_round_trip(b: bool)
    ensures
        bool_of(bool_text(b)) == Some(b),
{
    lemma_bool_texts_differ();
}

/// Writes `b` in its canonical form.
pub fn format_bool(b: bool) -> (r: String)
    ensures
        r@ == bool_text(b),
{
    if b {
        "true".to_owned()
    } else {
        "false".to_owned()
    }
}

/// Reads a boolean from its canonical form; any other text is refused.
pub fn parse_bool(s: &str) -> (r: Option<bool>)
    ensures
        r == bool_of(s@),
{
    let text = s.to_owned();
    if text == "true".to_owned() {
        Some(true)
    } else if text == "false".to_owned() {
        Some(false)
    } else {
        None
    }
}

} // verus!
