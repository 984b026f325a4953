use jput::color::ColorName;
use jput::color::ColoredText;
use jput::color::sputs_colored;
use jput::render::sputc;
use jput::render::sputs;

#[test]
fn jput_tests() {
    let s = vec!["01234567", "０１２３", "あ\\ゐゑ", "をん", "aヰ ヱz"]
        .into_iter()
        .map(|s| s.to_string())
        .collect::<Vec<String>>();

    assert_eq!("01234567", sputs(&s[0], -8).unwrap());
    assert_eq!("あ      ", sputc('あ', -8).unwrap());
    assert_eq!("      ん", sputc('ん', 8).unwrap());
    assert_eq!("あ\\ゐゑ ", sputs(&s[2], -8).unwrap());
    assert_eq!("    をん", sputs(&s[3], 8).unwrap());
    assert_eq!("aヰ ヱz ", sputs(&s[4], -8).unwrap());
    assert_eq!(" aヰ ヱz", sputs(&s[4], 8).unwrap());
    assert_eq!("０１２３", sputs(&s[1], 8).unwrap());
    colored::control::set_override(true);
    let ct = ColoredText::new(s[2].clone(), ColorName::Yellow);
    assert_eq!("\u{1b}[33mあ\\ゐゑ\u{1b}[0m ", sputs_colored(&ct, -8).unwrap());
}
