use jput::pad::sput_pad;
use jput::render::sputc;
use jput::render::sputs;
use jput::width::RenderError;

#[test]
fn pad_right_align_leads() {
    assert_eq!("      ", sput_pad(true, 8, 2).unwrap());
    assert_eq!("", sput_pad(false, 8, 2).unwrap());
}

#[test]
fn pad_left_align_trails() {
    assert_eq!("", sput_pad(true, -8, 2).unwrap());
    assert_eq!("      ", sput_pad(false, -8, 2).unwrap());
}

#[test]
fn pad_overwide_is_empty() {
    assert_eq!("", sput_pad(true, 8, 10).unwrap());
    assert_eq!("", sput_pad(false, -8, 10).unwrap());
}

#[test]
fn pad_zero_field_is_empty() {
    assert_eq!("", sput_pad(true, 0, 3).unwrap());
    assert_eq!("", sput_pad(false, 0, 3).unwrap());
}

#[test]
fn exact_fit_no_padding() {
    // "をん" is four columns wide: a four-column field fits it exactly.
    let s = "をん".to_string();
    assert_eq!("をん", sputs(&s, 4).unwrap());
    assert_eq!("をん", sputs(&s, -4).unwrap());
}

#[test]
fn overwide_content_untruncated() {
    let s = "をんをん".to_string();
    assert_eq!("をんをん", sputs(&s, 4).unwrap());
    assert_eq!("をんをん", sputs(&s, -4).unwrap());
    assert_eq!("をんをん", sputs(&s, 0).unwrap());
}

#[test]
fn empty_string_pads_to_target() {
    let s = String::new();
    assert_eq!("   ", sputs(&s, 3).unwrap());
    assert_eq!("   ", sputs(&s, -3).unwrap());
    assert_eq!("", sputs(&s, 0).unwrap());
}

#[test]
fn char_without_width_fails() {
    assert_eq!(Err(RenderError::WidthUndefined), sputc('\u{1}', 5));
    assert_eq!(Err(RenderError::WidthUndefined), sputc('\u{1b}', 5));
}

#[test]
fn string_with_control_char_still_renders() {
    // The string path is total: a control character counts zero columns.
    let s = "a\u{1}b".to_string();
    assert_eq!("a\u{1}b   ", sputs(&s, -5).unwrap());
    assert_eq!("   a\u{1}b", sputs(&s, 5).unwrap());
}

#[test]
fn nul_char_is_zero_width() {
    assert_eq!("  \u{0}", sputc('\u{0}', 2).unwrap());
}
