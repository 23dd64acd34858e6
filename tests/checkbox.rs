use form_fields::checkbox::{Checkbox, CheckboxManager, CheckboxView};
use form_fields::cli::{presence_text, switch_text};
use form_fields::errors::FieldErrors;
use form_fields::field::{label_with_help_layout, Field, FormField, WidgetManager};
use form_fields::value::{format_bool, parse_bool, TaggedValue};

fn parse_switches(args: Vec<&str>) -> clap::ArgMatches<'static> {
    clap::App::new("form")
        .arg(clap::Arg::with_name("enabled").long("enabled").multiple(true))
        .arg(clap::Arg::with_name("verbose").long("verbose"))
        .get_matches_from(args)
}

#[test]
fn validate_canonical_true() {
    let field = Checkbox::new("x");
    let text = format_bool(true);
    assert_eq!(field.validate(&text).unwrap(), TaggedValue::Bool(true));
}

#[test]
fn validate_canonical_false() {
    let field = Checkbox::new("x");
    let text = format_bool(false);
    assert_eq!(field.validate(&text).unwrap(), TaggedValue::Bool(false));
}

#[test]
fn validate_rejects_notabool() {
    let field = Checkbox::new("x");
    let errors = field.validate("notabool").unwrap_err();
    assert_eq!(errors.len(), 1);
    assert_eq!(errors.get(0), "Value can't be converted to bool");
}

#[test]
fn validate_rejects_other_spellings() {
    let field = Checkbox::new("x");
    for text in ["True", "FALSE", "1", "0", "yes", "", " true", "true "] {
        assert!(field.validate(text).is_err(), "accepted {:?}", text);
    }
}

#[test]
fn validate_twice_gives_the_same() {
    let field = Checkbox::new("x");
    for text in ["true", "false", "notabool"] {
        let first = field.validate(text);
        let second = field.validate(text);
        assert_eq!(format!("{:?}", first), format!("{:?}", second));
    }
}

#[test]
fn value_view_round_trip() {
    let manager = CheckboxManager;
    for text in ["true", "false"] {
        let view = manager.build_value_view(text);
        assert_eq!(manager.get_value(&view), text);
    }
    assert!(manager.build_value_view("true").checked);
    assert!(!manager.build_value_view("false").checked);
}

#[test]
fn manager_builds_labelled_widget() {
    let widget = CheckboxManager.build_widget("enabled", "turn it on", "true");
    assert_eq!(widget.label, "enabled");
    assert_eq!(widget.help, "turn it on");
    assert_eq!(widget.value_view, CheckboxView { checked: true });
}

#[test]
fn builder_sets_initial() {
    let field = Checkbox::new("x").initial(true);
    assert!(field.initial);
    let widget = field.build_widget();
    assert!(widget.value_view.checked);
    assert_eq!(widget.label, "x");
    assert_eq!(widget.help, "");
}

#[test]
fn new_field_defaults() {
    let field = Checkbox::new("x");
    assert_eq!(field.get_label(), "x");
    assert_eq!(field.get_help(), "");
    assert!(!field.initial);
    assert!(!field.is_required());
    assert!(!field.build_widget().value_view.checked);
}

#[test]
fn builder_keeps_other_fields() {
    let mut field = Checkbox::new("x");
    field.help = "some help".to_string();
    field.required = true;
    let field = field.initial(true).initial(false);
    assert!(!field.initial);
    assert_eq!(field.get_help(), "some help");
    assert!(field.is_required());
}

#[test]
fn is_required_returns_the_flag() {
    let mut field = Checkbox::new("x");
    assert!(!field.is_required());
    field.required = true;
    assert!(field.is_required());
}

#[test]
fn generic_field_new() {
    let field: Field<CheckboxManager, bool> = Field::new("y".to_string(), CheckboxManager, true);
    assert_eq!(field.label, "y");
    assert!(field.initial);
    assert_eq!(*field.get_widget_manager(), CheckboxManager);
}

#[test]
fn clap_args2str_present() {
    let field = Checkbox::new("enabled");
    let matches = parse_switches(vec!["form", "--enabled"]);
    assert_eq!(field.clap_args2str(&matches), "true");
}

#[test]
fn clap_args2str_absent() {
    let field = Checkbox::new("enabled");
    let matches = parse_switches(vec!["form", "--verbose"]);
    assert_eq!(field.clap_args2str(&matches), "false");
}

#[test]
fn clap_args2str_order_and_repetition() {
    let field = Checkbox::new("enabled");
    let a = parse_switches(vec!["form", "--verbose", "--enabled"]);
    let b = parse_switches(vec!["form", "--enabled", "--verbose"]);
    let c = parse_switches(vec!["form", "--enabled", "--enabled"]);
    assert_eq!(field.clap_args2str(&a), "true");
    assert_eq!(field.clap_args2str(&b), "true");
    assert_eq!(field.clap_args2str(&c), "true");
}

#[test]
fn switch_text_reads_the_named_switch() {
    let matches = parse_switches(vec!["form", "--verbose"]);
    assert_eq!(switch_text(&matches, "verbose"), "true");
    assert_eq!(switch_text(&matches, "enabled"), "false");
}

#[test]
fn presence_text_exact() {
    assert_eq!(presence_text(true), "true");
    assert_eq!(presence_text(false), "false");
}

#[test]
fn required_enabled_field_end_to_end() {
    let mut field = Checkbox::new("enabled");
    field.required = true;
    assert!(field.is_required());
    let matches = parse_switches(vec!["form"]);
    let text = field.clap_args2str(&matches);
    assert_eq!(text, "false");
    assert_eq!(field.validate(&text).unwrap(), TaggedValue::Bool(false));
}

#[test]
fn format_and_parse_bool() {
    assert_eq!(format_bool(true), "true");
    assert_eq!(format_bool(false), "false");
    assert_eq!(parse_bool("true"), Some(true));
    assert_eq!(parse_bool("false"), Some(false));
    assert_eq!(parse_bool("notabool"), None);
    assert_eq!(parse_bool(""), None);
}

#[test]
fn field_errors_keep_order() {
    let mut errors = FieldErrors::with_message("first".to_string());
    errors.push("second".to_string());
    assert_eq!(errors.len(), 2);
    assert_eq!(errors.get(0), "first");
    assert_eq!(errors.get(1), "second");
}

#[test]
fn layout_keeps_view_label_and_help() {
    let widget = label_with_help_layout(CheckboxView { checked: false }, "name", "help");
    assert_eq!(widget.label, "name");
    assert_eq!(widget.help, "help");
    assert!(!widget.value_view.checked);
}

#[test]
fn reseeding_keeps_checkbox_state() {
    let manager = CheckboxManager;
    for checked in [true, false] {
        let view = CheckboxView { checked };
        let text = manager.get_value(&view);
        assert_eq!(manager.build_value_view(&text), view);
    }
}

#[test]
fn flag_spec_is_a_switch_named_after_the_label() {
    let mut field = Checkbox::new("enabled");
    field.help = "turn it on".to_string();
    let flag = field.flag_spec();
    assert_eq!(flag.name, "enabled");
    assert_eq!(flag.long, "enabled");
    assert_eq!(flag.help, "turn it on");
    assert!(!flag.takes_value);
}

#[test]
fn flag_spec_parses_with_clap() {
    let field = Checkbox::new("enabled");
    let flag = field.flag_spec();
    let arg = clap::Arg::with_name(&flag.name)
        .help(&flag.help)
        .long(&flag.long)
        .takes_value(flag.takes_value);
    let present = clap::App::new("p").arg(arg.clone()).get_matches_from(vec!["p", "--enabled"]);
    let absent = clap::App::new("p").arg(arg).get_matches_from(vec!["p"]);
    assert_eq!(field.clap_args2str(&present), "true");
    assert_eq!(field.clap_args2str(&absent), "false");
}
