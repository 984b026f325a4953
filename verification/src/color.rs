//! Colour-styled rendering. Styling is an external capability: it wraps text
//! in terminal escape sequences that occupy no display columns, so a styled
//! value is measured by its unstyled text and rendered in its styled form.

use vstd::prelude::*;
use crate::width::RenderError;
use crate::width::char_columns;
use crate::width::str_columns;
use crate::width::measure_str;
use crate::width::lemma_str_columns_single;
use crate::pad::rendered;
use crate::pad::side_pad;
use crate::render::char_to_string;

verus! {

/// The standard terminal colours a render call can ask for.
#[derive(Clone, Copy, Debug, PartialEq, Eq, Structural)]
pub enum ColorName {
    Black,
    Red,
    Green,
    Yellow,
    Blue,
    Magenta,
    Cyan,
    White,
    BrightBlack,
    BrightRed,
    BrightGreen,
    BrightYellow,
    BrightBlue,
    BrightMagenta,
    BrightCyan,
    BrightWhite,
}

impl ColorName {
    /// The colour's lower-case name, as the external colouring capability
    /// spells it.
    pub open spec fn spec_name(self) -> Seq<char> {
        match self {
            ColorName::Black => "black"@,
            ColorName::Red => "red"@,
            ColorName::Green => "green"@,
            ColorName::Yellow => "yellow"@,
            ColorName::Blue => "blue"@,
            ColorName::Magenta => "magenta"@,
            ColorName::Cyan => "cyan"@,
            ColorName::White => "white"@,
            ColorName::BrightBlack => "bright black"@,
            ColorName::BrightRed => "bright red"@,
            ColorName::BrightGreen => "bright green"@,
            ColorName::BrightYellow => "bright yellow"@,
            ColorName::BrightBlue => "bright blue"@,
            ColorName::BrightMagenta => "bright magenta"@,
            ColorName::BrightCyan => "bright cyan"@,
            ColorName::BrightWhite => "bright white"@,
        }
    }

    /// The colour's name as a string.
    pub fn name(&self) -> (r: &'static str)
        ensures
            r@ == self.spec_name(),
    {
        match self {
            ColorName::Black => "black",
            ColorName::Red => "red",
            ColorName::Green => "green",
            ColorName::Yellow => "yellow",
            ColorName::Blue => "blue",
            ColorName::Magenta => "magenta",
            ColorName::Cyan => "cyan",
            ColorName::White => "white",
            ColorName::BrightBlack => "bright black",
            ColorName::BrightRed => "bright red",
            ColorName::BrightGreen => "bright green",
            ColorName::BrightYellow => "bright yellow",
            ColorName::BrightBlue => "bright blue",
            ColorName::BrightMagenta => "bright magenta",
            ColorName::BrightCyan => "bright cyan",
            ColorName::BrightWhite => "bright white",
        }
    }
}

/// The terminal reset sequence, which ends a styled run.
pub open spec fn reset_seq() -> Seq<char> {
    seq!['\u{1b}', '[', '0', 'm']
}

/// Whether a string holds a reset sequence of its own somewhere.
pub open spec fn has_reset(s: Seq<char>) -> bool {
    exists|i: int| 0 <= i && i + 4 <= s.len() && #[trigger] s.subrange(i, i + 4) == reset_seq()
}

/// Relies on `colored::Colorize::color` (a colour picked by name through
/// `colored::Color`'s `From<&str>`) and on `colored::ColoredString`'s
/// `Display`: the text is written unchanged between a style prefix and a
/// reset suffix, both empty when colouring is disabled, as long as the text
/// holds no reset sequence of its own.
#[verifier::external_body]
fn colorize(text: &String, name: &str) -> (r: String)
    ensures
        !has_reset(text@) ==> exists|p: Seq<char>, q: Seq<char>| r@ == p + text@ + q,
{
    colored::Colorize::color(text.as_str(), name).to_string()
}

/// Colour-styled text: the semantic text, which display-width measurement
/// sees, beside its styled terminal form carrying the escape sequences.
pub struct ColoredText {
    pub text: String,
    pub styled: String,
}

impl ColoredText {
    /// Styles `text` with the named colour through the external colouring
    /// capability. Whenever the text holds no reset sequence of its own, the
    /// styled form is the text between two escape-sequence affixes.
    pub fn new(text: String, color: ColorName) -> (r: ColoredText)
        ensures
            r.text@ == text@,
            !has_reset(text@) ==> exists|p: Seq<char>, q: Seq<char>| r.styled@ == p + text@ + q,
    {
        let styled = colorize(&text, color.name());
        ColoredText { text, styled }
    }
}

/// Renders styled text into a field of signed width `n`: its styled form
/// padded with spaces to `|n|` display columns, on the right when `n` is
/// negative, else on the left. The pad is computed from the width of the
/// unstyled text, so the escape sequences cost no columns. Total: every
/// styled text renders.
pub fn sputs_colored(s: &ColoredText, n: i32) -> (r: Result<String, RenderError>)
    ensures
        r matches Ok(o) && o@ == rendered(s.styled@, n as int, str_columns(s.text@) as int),
{
    let w = measure_str(&s.text);
    let mut o = side_pad(true, n, w);
    o.append(s.styled.as_str());
    let trail = side_pad(false, n, w);
    o.append(trail.as_str());
    Ok(o)
}

/// Renders one colour-styled character into a field of signed width `n`.
/// The width is that of the bare character's one-character string, so this
/// never fails, and the styled form sits between escape-sequence affixes.
pub fn sputc_colored(c: char, n: i32, color: ColorName) -> (r: Result<String, RenderError>)
    ensures
        r matches Ok(o) && exists|p: Seq<char>, q: Seq<char>| o@ == rendered(
            p + seq![c] + q,
            n as int,
            char_columns(c) as int,
        ),
{
    let text = char_to_string(c);
    proof {
        assert(text@.len() == 1);
        assert(!has_reset(text@));
        lemma_str_columns_single(c);
    }
    let ct = ColoredText::new(text, color);
    sputs_colored(&ct, n)
}

} // verus!
