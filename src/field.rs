//! The generic field, the per-type value manager, and the uniform capability
//! through which a form handles fields of different types.
use vstd::prelude::*;
use crate::errors::FieldErrors;
use crate::value::TaggedValue;

verus! {

/// A value-editing control together with the label and help shown beside it.
#[derive(Clone, Debug)]
pub struct LabeledView<V> {
    pub label: String,
    pub help: String,
    pub value_view: V,
}

/// Puts `value_view` under `label`, with `help` beside it.
pub fn label_with_help_layout<V>(value_view: V, label: &str, help: &str) -> (r: LabeledView<V>)
    ensures
        r.label@ == label@,
        r.help@ == help@,
        r.value_view == value_view,
{
    LabeledView { label: label.to_owned(), help: help.to_owned(), value_view }
}

/// Converts between the values of one type and their canonical text, and
/// builds and reads the widget that edits such a value.
pub trait WidgetManager {
    /// The value-editing control.
    type View;

    /// The texts that a widget can be seeded with.
    spec fn well_formed(value: Seq<char>) -> bool;

    /// The canonical form of a well-formed text.
    spec fn canonical(value: Seq<char>) -> Seq<char>;

    /// The canonical text of the value that `view` currently holds.
    spec fn shown(view: Self::View) -> Seq<char>;

    /// A labelled, help-annotated control seeded with `initial`.
    fn build_widget(&self, label: &str, help: &str, initial: &str) -> (r: LabeledView<Self::View>)
        requires
            Self::well_formed(initial@),
        ensures
            r.label@ == label@,
            r.help@ == help@,
            Self::shown(r.value_view) == Self::canonical(initial@),
    ;

    /// The canonical text of the value that `view` holds; it can seed a
    /// widget again.
    fn get_value(&self, view: &Self::View) -> (r: String)
        ensures
            r@ == Self::shown(*view),
            Self::well_formed(r@),
    ;

    /// The bare control, seeded with `value`.
    fn build_value_view(&self, value: &str) -> (r: Self::View)
        requires
            Self::well_formed(value@),
        ensures
            Self::shown(r) == Self::canonical(value@),
    ;
}

/// How a field is given on the command line.
#[derive(Clone, Debug)]
pub struct FlagSpec {
    /// The name under which the parse reports the flag.
    pub name: String,
    /// The long form, written `--long`.
    pub long: String,
    pub help: String,
    /// Whether the flag is followed by a value; a switch is not.
    pub takes_value: bool,
}

/// A form field: a label, a help text, an initial value, whether it must be
/// supplied, and the manager of its value type.
#[derive(Clone, Debug)]
pub struct Field<W, T> {
    pub label: String,
    pub help: String,
    pub initial: T,
    pub required: bool,
    pub widget_manager: W,
}

impl<W, T> Field<W, T> {
    /// A field labelled `label`, with no help text, not required.
    pub fn new(label: String, widget_manager: W, initial: T) -> (r: Self)
        ensures
            r.label@ == label@,
            r.help@ == Seq::<char>::empty(),
            r.initial == initial,
            !r.required,
            r.widget_manager == widget_manager,
    {
        Field { label, help: String::new(), initial, required: false, widget_manager }
    }
}

impl<W: WidgetManager> Field<W, bool> {
    /// Sets the initial `value` of the field.
    pub fn initial(self, value: bool) -> (r: Self)
        ensures
            r.initial == value,
            r.label == self.label,
            r.help == self.help,
            r.required == self.required,
            r.widget_manager == self.widget_manager,
    {
        let mut field = self;
        field.initial = value;
        field
    }
}

/// What a form needs of each of its fields, whatever their value type.
pub trait FormField {
    type Manager: WidgetManager;

    spec fn label_spec(&self) -> Seq<char>;

    spec fn help_spec(&self) -> Seq<char>;

    spec fn required_spec(&self) -> bool;

    spec fn manager_spec(&self) -> Self::Manager;

    /// The canonical text of the initial value.
    spec fn initial_text(&self) -> Seq<char>;

    /// The value that the text `data` stands for, if it is valid.
    spec fn validated(&self, data: Seq<char>) -> Option<TaggedValue>;

    fn get_widget_manager(&self) -> (r: &Self::Manager)
        ensures
            *r == self.manager_spec(),
    ;

    /// The labelled widget, seeded with the initial value.
    fn build_widget(&self) -> (r: LabeledView<<Self::Manager as WidgetManager>::View>)
        ensures
            r.label@ == self.label_spec(),
            r.help@ == self.help_spec(),
            <Self::Manager as WidgetManager>::shown(r.value_view) == self.initial_text(),
    ;

    fn get_label(&self) -> (r: &str)
        ensures
            r@ == self.label_spec(),
    ;

    fn get_help(&self) -> (r: &str)
        ensures
            r@ == self.help_spec(),
    ;

    /// The tagged value of `data`, or the messages that say why it has none.
    fn validate(&self, data: &str) -> (r: Result<TaggedValue, FieldErrors>)
        ensures
            match r {
                Ok(v) => self.validated(data@) == Some(v),
                Err(e) => self.validated(data@) is None && e.wf(),
            },
    ;

    /// The text that the command line gave for this field, in the form that
    /// `validate` accepts.
    fn clap_args2str(&self, args: &clap::ArgMatches) -> (r: String)
        ensures
            self.validated(r@) is Some,
    ;

    /// The command-line flag of the field: named, in its long form, after the
    /// label, with the field's help.
    fn flag_spec(&self) -> (r: FlagSpec)
        ensures
            r.name@ == self.label_spec(),
            r.long@ == self.label_spec(),
            r.help@ == self.help_spec(),
    ;

    fn is_required(&self) -> (r: bool)
        ensures
            r == self.required_spec(),
    ;
}

} // verus!
