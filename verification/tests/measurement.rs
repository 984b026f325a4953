use jput::render::sputs;
use jput::width::measure_char;
use jput::width::measure_str;

#[test]
fn measurement_is_repeatable() {
    let s = "aヰ ヱz".to_string();
    assert_eq!(measure_str(&s), measure_str(&s));
    assert_eq!(measure_char('あ'), measure_char('あ'));
    assert_eq!(measure_char('\u{1}'), measure_char('\u{1}'));
}

#[test]
fn measured_widths() {
    assert_eq!(0, measure_str(&String::new()));
    assert_eq!(2, measure_str(&"あ".to_string()));
    assert_eq!(7, measure_str(&"aヰ ヱz".to_string()));
    assert_eq!(8, measure_str(&"０１２３".to_string()));
    assert_eq!(Some(1), measure_char(' '));
    assert_eq!(Some(1), measure_char('a'));
    assert_eq!(Some(2), measure_char('ん'));
    assert_eq!(Some(0), measure_char('\u{0}'));
    assert_eq!(None, measure_char('\u{1b}'));
}

#[test]
fn rendered_width_is_max_of_content_and_target() {
    // Under-wide content fills the field exactly; over-wide content keeps
    // its own width.
    let narrow = "をん".to_string();
    assert_eq!(8, measure_str(&sputs(&narrow, 8).unwrap()));
    assert_eq!(8, measure_str(&sputs(&narrow, -8).unwrap()));
    assert_eq!(4, measure_str(&sputs(&narrow, 2).unwrap()));
    assert_eq!(4, measure_str(&sputs(&narrow, 0).unwrap()));
    let wide = "01234567".to_string();
    assert_eq!(8, measure_str(&sputs(&wide, -3).unwrap()));
    assert_eq!(9, measure_str(&sputs(&wide, 9).unwrap()));
}
