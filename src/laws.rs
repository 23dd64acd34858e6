//! Properties that relate several operations of the boolean field.
use vstd::prelude::*;
use crate::cli::given_names;
use crate::checkbox::{not_a_bool_message, CheckboxManager, CheckboxView};
use crate::errors::FieldErrors;
use crate::field::{Field, FormField, LabeledView, WidgetManager};
use crate::value::{bool_text, lemma_bool_round_trip, lemma_bool_texts_differ, TaggedValue};

verus! {

/// Validating the canonical text of any boolean `b` succeeds with `b`.
pub proof fn lemma_validate_canonical(field: Field<CheckboxManager, bool>, b: bool)
    ensures
        field.validated(bool_text(b)) == Some(TaggedValue::Bool(b)),
{
    lemma_bool_round_trip(b);
}

/// A checkbox built from `"true"` or `"false"` reads back as that same text:
/// the text is accepted, and whatever view shows its canonical form shows
/// exactly it.
pub proof fn lemma_value_view_round_trip(s: Seq<char>, view: CheckboxView)
    requires
        s == "true"@ || s == "false"@,
        CheckboxManager::shown(view) == CheckboxManager::canonical(s),
    ensures
        CheckboxManager::well_formed(s),
        CheckboxManager::shown(view) == s,
{
    lemma_bool_round_trip(true);
    lemma_bool_round_trip(false);
}

/// Seeding a checkbox with the text read out of another gives a checkbox in
/// the same state.
pub proof fn lemma_reseed_keeps_state(view: CheckboxView, reseeded: CheckboxView)
    requires
        CheckboxManager::shown(reseeded) == CheckboxManager::canonical(
            CheckboxManager::shown(view),
        ),
    ensures
        CheckboxManager::well_formed(CheckboxManager::shown(view)),
        reseeded == view,
{
    lemma_bool_round_trip(view.checked);
    lemma_bool_texts_differ();
}

/// The widget built for a boolean field is checked exactly when the field's
/// initial value is true.
pub proof fn lemma_built_widget_checked(
    field: Field<CheckboxManager, bool>,
    widget: LabeledView<CheckboxView>,
)
    requires
        CheckboxManager::shown(widget.value_view) == field.initial_text(),
    ensures
        widget.value_view.checked == field.initial,
{
    lemma_bool_texts_differ();
}

/// The text read from the command line is `"true"` exactly when the switch was
/// present, and `"false"` otherwise.
pub proof fn lemma_presence_text(present: bool)
    ensures
        (bool_text(present) == "true"@) == present,
        (bool_text(present) == "false"@) == !present,
{
    lemma_bool_texts_differ();
}

/// The text that a boolean field reads from a parse validates to whether the
/// field's flag was given.
pub proof fn lemma_cli_text_validates(field: Field<CheckboxManager, bool>, args: clap::ArgMatches)
    ensures
        field.validated(bool_text(given_names(args).contains(field.label@))) == Some(
            TaggedValue::Bool(given_names(args).contains(field.label@)),
        ),
{
    lemma_bool_round_trip(given_names(args).contains(field.label@));
}

/// Two parses in which a boolean field's flag is equally present or absent,
/// whatever the order or repetition of the arguments, give the field the same
/// text.
pub proof fn lemma_cli_text_depends_on_presence(
    field: Field<CheckboxManager, bool>,
    first: clap::ArgMatches,
    second: clap::ArgMatches,
)
    requires
        given_names(first).contains(field.label@) == given_names(second).contains(field.label@),
    ensures
        bool_text(given_names(first).contains(field.label@)) == bool_text(
            given_names(second).contains(field.label@),
        ),
{
}

/// Two validations of the same text by the same field agree: both succeed
/// with the same value, or both fail with the same messages.
pub proof fn lemma_validate_repeatable(
    field: Field<CheckboxManager, bool>,
    data: Seq<char>,
    first: Result<TaggedValue, FieldErrors>,
    second: Result<TaggedValue, FieldErrors>,
)
    requires
        match first {
            Ok(v) => field.validated(data) == Some(v),
            Err(e) => field.validated(data) is None && e@ == seq![not_a_bool_message()],
        },
        match second {
            Ok(v) => field.validated(data) == Some(v),
            Err(e) => field.validated(data) is None && e@ == seq![not_a_bool_message()],
        },
    ensures
        match (first, second) {
            (Ok(a), Ok(b)) => a == b,
            (Err(a), Err(b)) => a@ == b@,
            _ => false,
        },
{
}

} // verus!
