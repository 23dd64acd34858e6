//! The boolean field, edited with a checkbox and given as a switch.
use vstd::prelude::*;
use crate::cli::{given_names, switch_text};
use crate::errors::FieldErrors;
use crate::field::{label_with_help_layout, Field, FlagSpec, FormField, LabeledView, WidgetManager};
use crate::value::{bool_of, bool_text, format_bool, lemma_bool_round_trip, parse_bool, TaggedValue};

verus! {

/// The message of a text that is not a boolean.
pub open spec fn not_a_bool_message() -> Seq<char> {
    "Value can't be converted to bool"@
}

/// The tagged value of a text, for a boolean field.
pub open spec fn bool_validated(data: Seq<char>) -> Option<TaggedValue> {
    match bool_of(data) {
        Some(b) => Some(TaggedValue::Bool(b)),
        None => None,
    }
}

/// Convenient maker of `Field<CheckboxManager, bool>`.
#[derive(Clone, Copy, Debug)]
pub struct Checkbox;

impl Checkbox {
    /// A boolean field labelled `label`, initially unchecked.
    pub fn new(label: &str) -> (r: Field<CheckboxManager, bool>)
        ensures
            r.label@ == label@,
            r.help@ == Seq::<char>::empty(),
            r.initial == false,
            !r.required,
    {
        Field::new(label.to_owned(), CheckboxManager, false)
    }
}

/// The value manager of booleans.
#[derive(Clone, Copy, Debug, PartialEq, Eq, Structural)]
pub struct CheckboxManager;

/// A checkbox control, as its checked state.
#[derive(Clone, Copy, Debug, PartialEq, Eq, Structural)]
pub struct CheckboxView {
    pub checked: bool,
}

impl WidgetManager for CheckboxManager {
    type View = CheckboxView;

    open spec fn well_formed(value: Seq<char>) -> bool {
        bool_of(value) is Some
    }

    open spec fn canonical(value: Seq<char>) -> Seq<char> {
        value
    }

    open spec fn shown(view: CheckboxView) -> Seq<char> {
        bool_text(view.checked)
    }

    fn build_widget(&self, label: &str, help: &str, initial: &str) -> (r: LabeledView<CheckboxView>) {
        let checkbox = self.build_value_view(initial);
        label_with_help_layout(checkbox, label, help)
    }

    fn get_value(&self, view: &CheckboxView) -> (r: String) {
        proof {
            lemma_bool_round_trip(view.checked);
        }
        format_bool(view.checked)
    }

    fn build_value_view(&self, value: &str) -> (r: CheckboxView) {
        let checked = parse_bool(value).unwrap();
        CheckboxView { checked }
    }
}

impl FormField for Field<CheckboxManager, bool> {
    type Manager = CheckboxManager;

    open spec fn label_spec(&self) -> Seq<char> {
        self.label@
    }

    open spec fn help_spec(&self) -> Seq<char> {
        self.help@
    }

    open spec fn required_spec(&self) -> bool {
        self.required
    }

    open spec fn manager_spec(&self) -> CheckboxManager {
        self.widget_manager
    }

    open spec fn initial_text(&self) -> Seq<char> {
        bool_text(self.initial)
    }

    open spec fn validated(&self, data: Seq<char>) -> Option<TaggedValue> {
        bool_validated(data)
    }

    fn get_widget_manager(&self) -> (r: &CheckboxManager) {
        &self.widget_manager
    }

    fn build_widget(&self) -> (r: LabeledView<CheckboxView>) {
        let initial = format_bool(self.initial);
        proof {
            lemma_bool_round_trip(self.initial);
        }
        let view = self.widget_manager.build_value_view(initial.as_str());
        label_with_help_layout(view, self.label.as_str(), self.help.as_str())
    }

    fn get_label(&self) -> (r: &str) {
        self.label.as_str()
    }

    fn get_help(&self) -> (r: &str) {
        self.help.as_str()
    }

    fn validate(&self, data: &str) -> (r: Result<TaggedValue, FieldErrors>)
        ensures
            r is Err ==> r->Err_0@ == seq![not_a_bool_message()],
    {
        match parse_bool(data) {
            Some(v) => Ok(TaggedValue::Bool(v)),
            None => Err(FieldErrors::with_message("Value can't be converted to bool".to_owned())),
        }
    }

    fn clap_args2str(&self, args: &clap::ArgMatches) -> (r: String)
        ensures
            r@ == bool_text(given_names(*args).contains(self.label@)),
    {
        let r = switch_text(args, self.label.as_str());
        proof {
            lemma_bool_round_trip(given_names(*args).contains(self.label@));
        }
        r
    }

    fn flag_spec(&self) -> (r: FlagSpec)
        ensures
            !r.takes_value,
    {
        FlagSpec {
            name: self.label.clone(),
            long: self.label.clone(),
            help: self.help.clone(),
            takes_value: false,
        }
    }

    fn is_required(&self) -> (r: bool) {
        self.required
    }
}

} // verus!
