//! The formatter: renders ordinals as decimal strings, pads them into a
//! column sized by the widest line of the document, and joins them with
//! the original text.

use vstd::prelude::*;
use vstd::string::{StrSliceExecFns, StringExecFns};
use crate::classify::{NumberedLine, doc_view, line_views};

verus! {

/// How a number string is placed within its column: `PadLeft` puts the
/// spaces before the digits (right-aligned numbers), `PadRight` after
/// them (left-aligned numbers).  The representation leaves room for
/// further modes, such as centering.
#[derive(Clone, Copy, PartialEq, Eq, Structural, Debug)]
pub enum PadMode {
    PadLeft,
    PadRight,
}

/// The error the formatter reports instead of rendering a malformed
/// column.
#[derive(Clone, Copy, PartialEq, Eq, Structural, Debug)]
pub enum RenderError {
    /// A rendered ordinal has more digits than the column is wide, so it
    /// cannot be padded to the column width.
    NumberTooWide,
}

/// The decimal digit character for a value below ten.
pub open spec fn spec_digit_char(d: nat) -> char {
    if d == 0 {
        '0'
    } else if d == 1 {
        '1'
    } else if d == 2 {
        '2'
    } else if d == 3 {
        '3'
    } else if d == 4 {
        '4'
    } else if d == 5 {
        '5'
    } else if d == 6 {
        '6'
    } else if d == 7 {
        '7'
    } else if d == 8 {
        '8'
    } else {
        '9'
    }
}

/// The usual decimal rendering of `n`, most significant digit first,
/// without leading zeros (except for `n == 0` itself).
pub open spec fn spec_dec(n: nat) -> Seq<char>
    decreases n,
{
    if n < 10 {
        seq![spec_digit_char(n)]
    } else {
        spec_dec(n / 10).push(spec_digit_char(n % 10))
    }
}

fn digit_str(d: u64) -> (r: &'static str)
    requires
        d < 10,
    ensures
        r@ == seq![spec_digit_char(d as nat)],
{
    let r: &'static str = if d == 0 {
        "0"
    } else if d == 1 {
        "1"
    } else if d == 2 {
        "2"
    } else if d == 3 {
        "3"
    } else if d == 4 {
        "4"
    } else if d == 5 {
        "5"
    } else if d == 6 {
        "6"
    } else if d == 7 {
        "7"
    } else if d == 8 {
        "8"
    } else {
        "9"
    };
    proof {
        reveal_strlit("0");
        reveal_strlit("1");
        reveal_strlit("2");
        reveal_strlit("3");
        reveal_strlit("4");
        reveal_strlit("5");
        reveal_strlit("6");
        reveal_strlit("7");
        reveal_strlit("8");
        reveal_strlit("9");
        assert(r@ =~= seq![spec_digit_char(d as nat)]);
    }
    r
}

/// Renders `n` in decimal.
pub fn u64_to_dec_string(n: u64) -> (r: String)
    ensures
        r@ == spec_dec(n as nat),
    decreases n,
{
    if n < 10 {
        String::from_str(digit_str(n))
    } else {
        proof {
            assert(n / 10 < n);
        }
        let mut s = u64_to_dec_string(n / 10);
        s.append(digit_str(n % 10));
        proof {
            assert(s@ =~= spec_dec(n as nat));
        }
        s
    }
}

/// A run of `n` space characters.
pub open spec fn spec_spaces(n: nat) -> Seq<char> {
    Seq::new(n, |i: int| ' ')
}

/// The content of `s` placed in a column `width` characters wide, the
/// missing characters filled with spaces before (`PadLeft`) or after
/// (`PadRight`) the content.  Meaningful only when `s` fits the column;
/// a too-long `s` is left unpadded.
pub open spec fn spec_pad(mode: PadMode, width: nat, s: Seq<char>) -> Seq<char> {
    let fill = if s.len() <= width {
        (width - s.len()) as nat
    } else {
        0nat
    };
    match mode {
        PadMode::PadLeft => spec_spaces(fill) + s,
        PadMode::PadRight => s + spec_spaces(fill),
    }
}

/// Pads `line` to exactly `justify_by` characters under `mode`.
pub fn pad(mode: PadMode, justify_by: usize, line: &str) -> (r: String)
    requires
        line@.len() <= justify_by,
    ensures
        r@ == spec_pad(mode, justify_by as nat, line@),
        r@.len() == justify_by,
{
    let len = line.unicode_len();
    let diff = justify_by - len;
    let mut padding = String::new();
    let mut i: usize = 0;
    while i < diff
        invariant
            i <= diff,
            padding@ =~= spec_spaces(i as nat),
        decreases diff - i,
    {
        padding.append(" ");
        proof {
            reveal_strlit(" ");
            assert(padding@ =~= spec_spaces((i + 1) as nat));
        }
        i = i + 1;
    }
    match mode {
        PadMode::PadLeft => {
            padding.append(line);
            proof {
                assert(padding@ =~= spec_pad(mode, justify_by as nat, line@));
            }
            padding
        },
        PadMode::PadRight => {
            let mut s = String::from_str(line);
            s.append(padding.as_str());
            proof {
                assert(s@ =~= spec_pad(mode, justify_by as nat, line@));
            }
            s
        },
    }
}

/// The column width for a classified document: the length of its
/// longest line of text (not of its longest number), or zero for an
/// empty document.
pub open spec fn spec_width(doc: Seq<(Option<u64>, Seq<char>)>) -> nat
    decreases doc.len(),
{
    if doc.len() == 0 {
        0
    } else {
        let rest = spec_width(doc.drop_last());
        if doc.last().1.len() > rest {
            doc.last().1.len()
        } else {
            rest
        }
    }
}

/// The number column of one entry: the ordinal in decimal, or nothing.
pub open spec fn spec_num_seq(o: Option<u64>) -> Seq<char> {
    match o {
        Some(n) => spec_dec(n as nat),
        None => Seq::empty(),
    }
}

/// Whether every rendered ordinal of the document fits its column.
pub open spec fn spec_fits(doc: Seq<(Option<u64>, Seq<char>)>) -> bool {
    forall|i: int|
        0 <= i < doc.len() ==> (#[trigger] spec_num_seq(doc[i].0)).len() <= spec_width(doc)
}

/// One rendered row: the padded number column, one space, the text.
pub open spec fn spec_render_line(
    mode: PadMode,
    width: nat,
    nl: (Option<u64>, Seq<char>),
) -> Seq<char> {
    spec_pad(mode, width, spec_num_seq(nl.0)) + seq![' '] + nl.1
}

/// The fully rendered document, row by row, in document order.
pub open spec fn spec_rendered(mode: PadMode, doc: Seq<(Option<u64>, Seq<char>)>) -> Seq<
    Seq<char>,
> {
    Seq::new(doc.len(), |i: int| spec_render_line(mode, spec_width(doc), doc[i]))
}

/// Renders a classified document: each ordinal in decimal, padded under
/// `mode` to the width of the longest text line, then joined with a
/// single space and the original text.
///
/// Succeeds exactly when every rendered ordinal fits the column; a
/// document whose ordinals outgrow its widest text line is rejected
/// with `RenderError::NumberTooWide` instead of being rendered askew.
pub fn pretty_numbered_lines(mode: &PadMode, num_lines: Vec<NumberedLine>) -> (r: Result<
    Vec<String>,
    RenderError,
>)
    ensures
        spec_fits(doc_view(num_lines@)) ==> (r matches Ok(out) && line_views(out@)
            == spec_rendered(*mode, doc_view(num_lines@)) && out@.len() == num_lines@.len()),
        !spec_fits(doc_view(num_lines@)) ==> r == Result::<Vec<String>, RenderError>::Err(
            RenderError::NumberTooWide,
        ),
{
    let ghost dv = doc_view(num_lines@);
    let n = num_lines.len();
    proof {
        assert(dv.len() == num_lines@.len());
    }
    let mut width: usize = 0;
    let mut i: usize = 0;
    proof {
        assert(dv.take(0) =~= Seq::<(Option<u64>, Seq<char>)>::empty());
    }
    while i < n
        invariant
            i <= n,
            n == num_lines@.len(),
            dv == doc_view(num_lines@),
            width == spec_width(dv.take(i as int)),
        decreases n - i,
    {
        proof {
            assert(dv.take(i + 1).drop_last() =~= dv.take(i as int));
            assert(dv.take(i + 1).last() == dv[i as int]);
            assert(dv[i as int].1 == num_lines@[i as int].1@);
        }
        let l = num_lines[i].1.as_str().unicode_len();
        if l > width {
            width = l;
        }
        i = i + 1;
    }
    proof {
        assert(dv.take(n as int) =~= dv);
    }
    let ghost w = spec_width(dv);
    let mut rendered: Vec<String> = Vec::new();
    let mut j: usize = 0;
    while j < n
        invariant
            j <= n,
            n == num_lines@.len(),
            dv == doc_view(num_lines@),
            width == w,
            w == spec_width(dv),
            rendered@.len() == j,
            forall|k: int| 0 <= k < j ==> (#[trigger] spec_num_seq(dv[k].0)).len() <= w,
            forall|k: int|
                0 <= k < j ==> #[trigger] rendered@[k]@ == spec_render_line(*mode, w, dv[k]),
        decreases n - j,
    {
        proof {
            assert(dv[j as int] == (num_lines@[j as int].0, num_lines@[j as int].1@));
        }
        let num_str: String = match num_lines[j].0 {
            Some(k) => u64_to_dec_string(k),
            None => String::new(),
        };
        proof {
            assert(num_str@ == spec_num_seq(dv[j as int].0));
        }
        let num_len = num_str.as_str().unicode_len();
        if num_len > width {
            proof {
                assert((spec_num_seq(dv[j as int].0)).len() > spec_width(dv));
                assert(!spec_fits(dv));
            }
            return Err(RenderError::NumberTooWide);
        }
        let mut row = pad(*mode, width, num_str.as_str());
        row.append(" ");
        row.append(num_lines[j].1.as_str());
        proof {
            reveal_strlit(" ");
            assert(row@ =~= spec_render_line(*mode, w, dv[j as int]));
        }
        rendered.push(row);
        j = j + 1;
    }
    proof {
        assert(spec_fits(dv));
        assert(line_views(rendered@) =~= spec_rendered(*mode, dv));
    }
    Ok(rendered)
}

} // verus!
