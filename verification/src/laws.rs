//! The laws of the renderer, proved over the same spec functions the render
//! functions' contracts use.

use vstd::prelude::*;
use crate::width::str_columns;
use crate::width::lemma_str_columns_concat;
use crate::pad::target_of;
use crate::pad::pad_len;
use crate::pad::spaces;
use crate::pad::rendered;
use crate::pad::lemma_spaces_columns;

verus! {

/// Content at least as wide as the field is rendered unchanged: no padding
/// on either side, and never any truncation.
pub proof fn lemma_overwide_unpadded(s: Seq<char>, n: int)
    requires
        str_columns(s) >= target_of(n),
    ensures
        rendered(s, n, str_columns(s) as int) == s,
{
    assert(rendered(s, n, str_columns(s) as int) =~= s);
}

/// Left-alignment law: under a negative field width whose target exceeds the
/// content's width, the output is the content followed by exactly the
/// missing columns of spaces, and fills the target exactly.
pub proof fn lemma_left_align(s: Seq<char>, n: int)
    requires
        n < 0,
        str_columns(s) < target_of(n),
    ensures
        rendered(s, n, str_columns(s) as int) == s + spaces(
            (target_of(n) - str_columns(s)) as nat,
        ),
        str_columns(rendered(s, n, str_columns(s) as int)) == target_of(n),
{
    let w = str_columns(s) as int;
    let k = (target_of(n) - str_columns(s)) as nat;
    assert(rendered(s, n, w) =~= s + spaces(k));
    lemma_str_columns_concat(s, spaces(k));
    lemma_spaces_columns(k);
}

/// Right-alignment law: under a non-negative field width exceeding the
/// content's width, the output is exactly the missing columns of spaces
/// followed by the content, and fills the target exactly.
pub proof fn lemma_right_align(s: Seq<char>, n: int)
    requires
        n >= 0,
        str_columns(s) < target_of(n),
    ensures
        rendered(s, n, str_columns(s) as int) == spaces((target_of(n) - str_columns(s)) as nat)
            + s,
        str_columns(rendered(s, n, str_columns(s) as int)) == target_of(n),
{
    let w = str_columns(s) as int;
    let k = (target_of(n) - str_columns(s)) as nat;
    assert(rendered(s, n, w) =~= spaces(k) + s);
    lemma_str_columns_concat(spaces(k), s);
    lemma_spaces_columns(k);
}

/// Round-trip law: a render of content measured at width `w` into a field of
/// signed width `n` always occupies exactly `max(w, |n|)` display columns.
pub proof fn lemma_rendered_columns(s: Seq<char>, n: int)
    ensures
        str_columns(rendered(s, n, str_columns(s) as int)) == if str_columns(s) >= target_of(n) {
            str_columns(s)
        } else {
            target_of(n)
        },
{
    let w = str_columns(s) as int;
    let lead = spaces(pad_len(true, n, w));
    let trail = spaces(pad_len(false, n, w));
    lemma_str_columns_concat(lead + s, trail);
    lemma_str_columns_concat(lead, s);
    lemma_spaces_columns(pad_len(true, n, w));
    lemma_spaces_columns(pad_len(false, n, w));
}

/// Colored-render law: rendering a styled form made of the text between two
/// affixes, at the unstyled text's width, gives the plain render of that
/// text with the affixes inserted around it — so stripping the style affixes
/// from the colored output yields the plain output for the same text and
/// field width.
pub proof fn lemma_colored_strips_to_plain(
    text: Seq<char>,
    prefix: Seq<char>,
    suffix: Seq<char>,
    n: int,
)
    ensures
        ({
            let w = str_columns(text) as int;
            let lead = spaces(pad_len(true, n, w));
            let trail = spaces(pad_len(false, n, w));
            &&& rendered(prefix + text + suffix, n, w) == lead + prefix + text + suffix + trail
            &&& rendered(text, n, w) == lead + text + trail
        }),
{
    let w = str_columns(text) as int;
    let lead = spaces(pad_len(true, n, w));
    let trail = spaces(pad_len(false, n, w));
    assert(rendered(prefix + text + suffix, n, w) =~= lead + prefix + text + suffix + trail);
    assert(rendered(text, n, w) =~= lead + text + trail);
}

} // verus!
