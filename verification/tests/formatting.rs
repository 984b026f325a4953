use jput::color::ColorName;
use jput::fmt::sprint;
use jput::fmt::sprint_colored;
use jput::fmt::substitute;

#[test]
fn substitute_fills_in_order() {
    let args = vec!["あ".to_string(), "b".to_string()];
    assert_eq!("あ and b", substitute("{} and {}", &args));
}

#[test]
fn substitute_keeps_spare_placeholders() {
    let args = vec!["x".to_string()];
    assert_eq!("x{}", substitute("{}{}", &args));
    assert_eq!("{}", substitute("{}", &Vec::new()));
}

#[test]
fn substitute_leaves_lone_braces() {
    let args = vec!["x".to_string()];
    assert_eq!("{x{ }x", substitute("{x{ }{}", &args));
}

#[test]
fn sprint_renders_filled_template() {
    let args = vec!["あ".to_string()];
    // "aあ" is three columns wide: five leading spaces fill the field.
    assert_eq!("     aあ", sprint(8, "a{}", &args).unwrap());
    assert_eq!("aあ     ", sprint(-8, "a{}", &args).unwrap());
}

#[test]
fn sprint_colored_renders_styled_template() {
    colored::control::set_override(true);
    let args = vec!["ん".to_string()];
    assert_eq!(
        "\u{1b}[35mxん\u{1b}[0m   ",
        sprint_colored(ColorName::Magenta, -6, "x{}", &args).unwrap()
    );
}
