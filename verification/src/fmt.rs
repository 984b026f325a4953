//! The formatting convenience layer: a template with `{}` placeholders is
//! filled with positional arguments, then rendered into a field like any
//! other string.

use vstd::prelude::*;
use crate::width::RenderError;
use crate::width::str_columns;
use crate::pad::rendered;
use crate::render::sputs;
use crate::render::char_to_string;
use crate::color::ColorName;
use crate::color::ColoredText;
use crate::color::has_reset;
use crate::color::sputs_colored;

verus! {

/// The template with each `{}` replaced, in order, by the next argument.
/// A placeholder with no argument left is kept as it stands.
pub open spec fn substituted(fmt: Seq<char>, args: Seq<Seq<char>>) -> Seq<char>
    decreases fmt.len(),
{
    if fmt.len() == 0 {
        Seq::empty()
    } else if fmt.len() >= 2 && fmt[0] == '{' && fmt[1] == '}' && args.len() > 0 {
        args[0] + substituted(fmt.skip(2), args.skip(1))
    } else {
        seq![fmt[0]] + substituted(fmt.skip(1), args)
    }
}

/// Fills the template: each `{}` becomes the next argument, in order.
pub fn substitute(fmt: &str, args: &Vec<String>) -> (r: String)
    ensures
        r@ == substituted(fmt@, args.deep_view()),
{
    let ghost dv = args.deep_view();
    let len = fmt.unicode_len();
    let mut o = String::new();
    let mut i: usize = 0;
    let mut ai: usize = 0;
    proof {
        assert(fmt@.skip(0) =~= fmt@);
        assert(dv.skip(0) =~= dv);
        assert(o@ + substituted(fmt@.skip(0), dv.skip(0)) =~= substituted(fmt@, dv));
    }
    while i < len
        invariant
            i <= len,
            ai <= args.len(),
            len == fmt@.len(),
            dv == args.deep_view(),
            dv.len() == args@.len(),
            o@ + substituted(fmt@.skip(i as int), dv.skip(ai as int)) == substituted(fmt@, dv),
        decreases len - i,
    {
        let ghost rest = substituted(fmt@.skip(i as int), dv.skip(ai as int));
        let c = fmt.get_char(i);
        let mut filled = false;
        if i + 1 < len && ai < args.len() && c == '{' {
            let c2 = fmt.get_char(i + 1);
            if c2 == '}' {
                proof {
                    assert(fmt@.skip(i as int)[0] == '{');
                    assert(fmt@.skip(i as int)[1] == '}');
                    assert(fmt@.skip(i as int).skip(2) =~= fmt@.skip(i + 2));
                    assert(dv.skip(ai as int).skip(1) =~= dv.skip(ai + 1));
                    assert(dv.skip(ai as int)[0] == dv[ai as int]);
                    assert(rest == dv[ai as int] + substituted(fmt@.skip(i + 2), dv.skip(ai + 1)));
                }
                let a = &args[ai];
                o.append(a.as_str());
                proof {
                    assert(o@ + substituted(fmt@.skip(i + 2), dv.skip(ai + 1)) =~= substituted(
                        fmt@,
                        dv,
                    ));
                }
                i = i + 2;
                ai = ai + 1;
                filled = true;
            }
        }
        if !filled {
            proof {
                assert(fmt@.skip(i as int)[0] == fmt@[i as int]);
                assert(fmt@.skip(i as int).skip(1) =~= fmt@.skip(i + 1));
                assert(rest == seq![fmt@[i as int]] + substituted(
                    fmt@.skip(i + 1),
                    dv.skip(ai as int),
                ));
            }
            let cs = char_to_string(c);
            o.append(cs.as_str());
            proof {
                assert(o@ + substituted(fmt@.skip(i + 1), dv.skip(ai as int)) =~= substituted(
                    fmt@,
                    dv,
                ));
            }
            i = i + 1;
        }
    }
    proof {
        assert(fmt@.skip(len as int) =~= Seq::<char>::empty());
        assert(o@ + substituted(fmt@.skip(len as int), dv.skip(ai as int)) =~= o@);
    }
    o
}

/// Fills the template with the arguments, then renders the result into a
/// field of signed width `n`, exactly as `sputs` renders it.
pub fn sprint(n: i32, fmt: &str, args: &Vec<String>) -> (r: Result<String, RenderError>)
    ensures
        r matches Ok(o) && o@ == rendered(
            substituted(fmt@, args.deep_view()),
            n as int,
            str_columns(substituted(fmt@, args.deep_view())) as int,
        ),
{
    let s = substitute(fmt, args);
    sputs(&s, n)
}

/// Fills the template with the arguments, styles the result with the named
/// colour, then renders it into a field of signed width `n` at the width of
/// the unstyled text. Whenever the filled text holds no reset sequence of
/// its own, the output is the filled text between two escape-sequence
/// affixes, padded like `sputs`.
pub fn sprint_colored(color: ColorName, n: i32, fmt: &str, args: &Vec<String>) -> (r: Result<
    String,
    RenderError,
>)
    ensures
        ({
            let t = substituted(fmt@, args.deep_view());
            r matches Ok(o) && (!has_reset(t) ==> exists|p: Seq<char>, q: Seq<char>|
                o@ == rendered(p + t + q, n as int, str_columns(t) as int))
        }),
{
    let s = substitute(fmt, args);
    let ct = ColoredText::new(s, color);
    sputs_colored(&ct, n)
}

} // verus!
