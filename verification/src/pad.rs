//! The padding engine: how many spaces go on each side of content of a given
//! display width inside a field of a signed requested width.

use vstd::prelude::*;
use crate::width::RenderError;
use crate::width::str_columns;

verus! {

/// The column count a signed field-width request asks for: its magnitude.
pub open spec fn target_of(n: int) -> nat {
    if n < 0 {
        (-n) as nat
    } else {
        n as nat
    }
}

/// The number of pad spaces for one side of a field. `n` is the signed field
/// width (negative: left-align, non-negative: right-align), `w` the content's
/// display width, `leading` selects the side before the content. A pad never
/// has a negative length: content wider than the field gets no padding.
pub open spec fn pad_len(leading: bool, n: int, w: int) -> nat {
    let l = if n < 0 {
        if leading {
            0
        } else {
            -n - w
        }
    } else {
        if leading {
            n - w
        } else {
            0
        }
    };
    if l > 0 {
        l as nat
    } else {
        0
    }
}

/// A run of `len` spaces.
pub open spec fn spaces(len: nat) -> Seq<char> {
    Seq::new(len, |i| ' ')
}

/// The rendered form of content of display width `w` in a field of signed
/// width `n`: leading pad, then the content, then trailing pad.
pub open spec fn rendered(content: Seq<char>, n: int, w: int) -> Seq<char> {
    spaces(pad_len(true, n, w)) + content + spaces(pad_len(false, n, w))
}

/// Builds a run of `len` spaces.
pub(crate) fn space_run(len: usize) -> (r: String)
    ensures
        r@ == spaces(len as nat),
{
    let mut o = String::new();
    let mut i: usize = 0;
    while i < len
        invariant
            i <= len,
            o@ == spaces(i as nat),
        decreases len - i,
    {
        o.append(" ");
        i = i + 1;
        proof {
            reveal_strlit(" ");
            assert(o@ =~= spaces(i as nat));
        }
    }
    o
}

/// The pad spaces for one side of a field, with the content width as a
/// count of columns.
pub(crate) fn side_pad(leading: bool, n: i32, w: usize) -> (r: String)
    ensures
        r@ == spaces(pad_len(leading, n as int, w as int)),
{
    let l: usize = if n < 0 {
        if leading {
            0
        } else {
            let target = (-(n as i64)) as usize;
            if target > w {
                target - w
            } else {
                0
            }
        }
    } else {
        if leading {
            if (n as usize) > w {
                (n as usize) - w
            } else {
                0
            }
        } else {
            0
        }
    };
    space_run(l)
}

/// The pad string for one side of a field: empty unless this side pads, then
/// exactly `|n| - w` spaces, none when the content is at least as wide as the
/// field. Always succeeds; the inputs on which the pad-length arithmetic
/// leaves `i32` are excluded.
pub fn sput_pad(p: bool, n: i32, w: i32) -> (r: Result<String, RenderError>)
    requires
        n < 0 && !p ==> n > i32::MIN && -(n as int) - (w as int) <= i32::MAX,
        n >= 0 && p ==> (n as int) - (w as int) <= i32::MAX,
    ensures
        r matches Ok(o) && o@ == spaces(pad_len(p, n as int, w as int)),
{
    let l: i32 = if n < 0 {
        if p {
            0
        } else {
            -n - w
        }
    } else {
        if p {
            n - w
        } else {
            0
        }
    };
    let run: usize = if l > 0 {
        l as usize
    } else {
        0
    };
    Ok(space_run(run))
}

/// A run of spaces is as wide as it is long: each space is one column.
pub proof fn lemma_spaces_columns(k: nat)
    ensures
        str_columns(spaces(k)) == k,
    decreases k,
{
    if k > 0 {
        assert(spaces(k)[0] == ' ');
        assert(spaces(k).skip(1) =~= spaces((k - 1) as nat));
        lemma_spaces_columns((k - 1) as nat);
    }
}

} // verus!
