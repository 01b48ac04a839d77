use ezcli::arg_val;
use ezcli::name::{Name, _named_option};

fn strings(args: &[&str]) -> Vec<String> {
    args.iter().map(|a| a.to_string()).collect()
}

#[test]
fn should_return_some_when_argument_provided() {
    let args = ["program", "-a", "val", "--my-arg", "value"];

    let a = arg_val("-a".to_string(), &args);
    let my_arg = arg_val("--my-arg".to_string(), &args);
    assert_eq!(a, Some("val"));
    assert_eq!(my_arg, Some("value"));

    assert_eq!(arg_val("-a".to_string(), &args), Some("val"));
    assert_eq!(arg_val("--my-arg".to_string(), &args), Some("value"));
    assert_eq!(
        _named_option(Name::new("my_arg", "a"), &strings(&args)),
        Some("val".to_string())
    );
}

#[test]
fn long_option_name_is_hyphenated() {
    let args = strings(&["prog", "--my-arg", "value"]);
    assert_eq!(_named_option(Name::long("my_arg"), &args), Some("value".to_string()));
}

#[test]
fn trailing_option_has_no_value() {
    let args = strings(&["prog", "--my-arg"]);
    assert_eq!(_named_option(Name::long("my_arg"), &args), None);
    assert_eq!(arg_val("--my-arg".to_string(), &["prog", "--my-arg"]), None);
}

#[test]
fn options_absent_from_empty_and_unrelated_lists() {
    let empty: Vec<String> = Vec::new();
    assert_eq!(_named_option(Name::new("my_arg", "a"), &empty), None);
    assert_eq!(arg_val("-a".to_string(), &[]), None);
    let args = strings(&["program", "build", "--other", "x"]);
    assert_eq!(_named_option(Name::new("my_arg", "a"), &args), None);
    assert_eq!(arg_val("--my-arg".to_string(), &["program", "build"]), None);
}

#[test]
fn program_path_is_never_an_option() {
    assert_eq!(arg_val("-a".to_string(), &["-a", "val"]), None);
    let args = strings(&["-a", "val"]);
    assert_eq!(_named_option(Name::short("a"), &args), None);
}

#[test]
fn first_occurrence_gives_the_value() {
    let args = ["program", "-a", "one", "-a", "two"];
    assert_eq!(arg_val("-a".to_string(), &args), Some("one"));
    let args = ["program", "-a", "-a", "two"];
    assert_eq!(arg_val("-a".to_string(), &args), Some("-a"));
}

#[test]
fn arg_val_takes_the_name_as_spelled() {
    let args = ["program", "--my-arg", "value"];
    assert_eq!(arg_val("--my_arg".to_string(), &args), None);
}

#[test]
fn short_value_comes_before_long_value() {
    let args = strings(&["program", "--my-arg", "long", "-a", "short"]);
    assert_eq!(_named_option(Name::new("my_arg", "a"), &args), Some("short".to_string()));
}

#[test]
fn long_form_is_tried_when_short_form_has_no_value() {
    let args = strings(&["program", "--my-arg", "long", "-a"]);
    assert_eq!(_named_option(Name::new("my_arg", "a"), &args), Some("long".to_string()));
    let args = strings(&["program", "--my-arg", "long"]);
    assert_eq!(_named_option(Name::new("my_arg", "a"), &args), Some("long".to_string()));
}

#[test]
fn short_option_is_not_found_in_a_group() {
    let args = strings(&["program", "-ab", "value"]);
    assert_eq!(_named_option(Name::short("a"), &args), None);
}

#[test]
fn name_without_forms_has_no_value() {
    let args = strings(&["program", "-", "x", "--", "y"]);
    let name = Name { long: None, short: None };
    assert_eq!(_named_option(name, &args), None);
}

#[test]
fn repeated_option_calls_agree() {
    let args = strings(&["prog", "--my-arg", "value"]);
    let first = _named_option(Name::long("my_arg"), &args);
    let second = _named_option(Name::long("my_arg"), &args);
    assert_eq!(first, second);
    assert_eq!(args, strings(&["prog", "--my-arg", "value"]));
}
