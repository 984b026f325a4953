//! The plain render functions: measure the content's display width, then
//! return leading pad, content and trailing pad as one string.

use vstd::prelude::*;
use crate::width::RenderError;
use crate::width::char_columns;
use crate::width::char_width_of;
use crate::width::str_columns;
use crate::width::measure_char;
use crate::width::measure_str;
use crate::pad::rendered;
use crate::pad::side_pad;

verus! {

/// Relies on `char::to_string`: a string holding exactly that one character.
#[verifier::external_body]
pub(crate) fn char_to_string(c: char) -> (r: String)
    ensures
        r@ == seq![c],
{
    c.to_string()
}

/// Renders one character into a field of signed width `n`: the character
/// padded with spaces to `|n|` display columns, on the right when `n` is
/// negative, else on the left. Fails exactly when the character has no
/// defined display width; every other character is rendered.
pub fn sputc(c: char, n: i32) -> (r: Result<String, RenderError>)
    ensures
        char_width_of(c) is Some ==> (r matches Ok(o) && o@ == rendered(
            seq![c],
            n as int,
            char_columns(c) as int,
        )),
        char_width_of(c) is None ==> r == Err::<String, RenderError>(RenderError::WidthUndefined),
{
    match measure_char(c) {
        Option::None => Err(RenderError::WidthUndefined),
        Option::Some(w) => {
            let mut o = side_pad(true, n, w);
            let cs = char_to_string(c);
            o.append(cs.as_str());
            let trail = side_pad(false, n, w);
            o.append(trail.as_str());
            Ok(o)
        },
    }
}

/// Renders a string into a field of signed width `n`: the string padded with
/// spaces to `|n|` display columns, on the right when `n` is negative, else
/// on the left. Content wider than the field comes back unpadded, never
/// truncated. Total: every string renders.
pub fn sputs(s: &String, n: i32) -> (r: Result<String, RenderError>)
    ensures
        r matches Ok(o) && o@ == rendered(s@, n as int, str_columns(s@) as int),
{
    let w = measure_str(s);
    let mut o = side_pad(true, n, w);
    o.append(s.as_str());
    let trail = side_pad(false, n, w);
    o.append(trail.as_str());
    Ok(o)
}

} // verus!
