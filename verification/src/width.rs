//! The display-width oracle: how many terminal columns a character or a
//! string occupies. The per-character width tables are an external
//! capability; a string's width is the sum of its characters' widths.

use vstd::prelude::*;

verus! {

/// The error a render call can return: a character has no defined display
/// width (a control character, for instance), so it cannot be aligned.
#[derive(Clone, Copy, Debug, PartialEq, Eq, Structural)]
pub enum RenderError {
    WidthUndefined,
}

/// The display width, in terminal columns, that the external width tables
/// assign to a single character: `None` for a character with no defined
/// width (control characters), otherwise up to two columns.
/// Names the result of `unicode_width::UnicodeWidthChar::width`.
pub uninterp spec fn char_width_of(c: char) -> Option<nat>;

/// The columns one character contributes to a string: a character with no
/// defined width contributes none. A space is one column wide (the width
/// tables give every printable ASCII character width one).
pub open spec fn char_columns(c: char) -> nat {
    if c == ' ' {
        1
    } else {
        match char_width_of(c) {
            Option::Some(w) => w,
            Option::None => 0,
        }
    }
}

/// The display width of a string: the sum of its characters' columns.
pub open spec fn str_columns(s: Seq<char>) -> nat
    decreases s.len(),
{
    if s.len() == 0 {
        0
    } else {
        char_columns(s[0]) + str_columns(s.skip(1))
    }
}

/// Relies on `unicode_width::UnicodeWidthChar::width`: `None` exactly for the
/// characters the tables give no width, otherwise at most two columns, and
/// exactly one column for a space.
#[verifier::external_body]
fn char_width(c: char) -> (r: Option<usize>)
    ensures
        match r {
            Option::Some(w) => char_width_of(c) == Option::Some(w as nat) && w <= 2,
            Option::None => char_width_of(c) == Option::<nat>::None,
        },
        c == ' ' ==> r == Option::Some(1usize),
{
    unicode_width::UnicodeWidthChar::width(c)
}

/// Relies on `unicode_width::UnicodeWidthStr::width`: the width of a string
/// is the sum over its characters of their table width, counting zero for a
/// character with none.
#[verifier::external_body]
fn str_width(s: &str) -> (r: usize)
    ensures
        r == str_columns(s@),
{
    unicode_width::UnicodeWidthStr::width(s)
}

/// Measures the display width of a string in terminal columns. Total: every
/// string has a width, and equal strings always measure equal.
pub fn measure_str(s: &String) -> (w: usize)
    ensures
        w == str_columns(s@),
{
    str_width(s.as_str())
}

/// Measures the display width of a single character: `None` where the width
/// tables define none, otherwise its column count, a pure function of the
/// character.
pub fn measure_char(c: char) -> (w: Option<usize>)
    ensures
        match w {
            Option::Some(u) => char_width_of(c) == Option::Some(u as nat) && u == char_columns(c),
            Option::None => char_width_of(c) == Option::<nat>::None,
        },
{
    char_width(c)
}

/// The width of a concatenation is the sum of the widths of the parts.
pub proof fn lemma_str_columns_concat(a: Seq<char>, b: Seq<char>)
    ensures
        str_columns(a + b) == str_columns(a) + str_columns(b),
    decreases a.len(),
{
    if a.len() == 0 {
        assert(a + b =~= b);
    } else {
        assert((a + b).skip(1) =~= a.skip(1) + b);
        lemma_str_columns_concat(a.skip(1), b);
    }
}

/// A one-character string is as wide as its character.
pub proof fn lemma_str_columns_single(c: char)
    ensures
        str_columns(seq![c]) == char_columns(c),
{
    assert(seq![c].skip(1) =~= Seq::<char>::empty());
    assert(str_columns(seq![c]) == char_columns(seq![c][0]) + str_columns(seq![c].skip(1)));
    assert(seq![c][0] == c);
}

} // verus!
