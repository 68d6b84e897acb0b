//! Plain-text layout of drawn rows.
//!
//! A field becomes its numbers in decimal, each followed by one space; a row
//! becomes one line per active pool, with an optional index label in front.
//! Any colouring is a presentation concern of the caller and sits on top of
//! this text.

use vstd::prelude::*;
use vstd::string::StringExecFns;

use crate::field::Row;
use crate::field::RowView;

verus! {

/// The decimal digit `d` as a one-character string.
pub open spec fn spec_digit(d: int) -> Seq<char> {
    if d == 0 {
        "0"@
    } else if d == 1 {
        "1"@
    } else if d == 2 {
        "2"@
    } else if d == 3 {
        "3"@
    } else if d == 4 {
        "4"@
    } else if d == 5 {
        "5"@
    } else if d == 6 {
        "6"@
    } else if d == 7 {
        "7"@
    } else if d == 8 {
        "8"@
    } else {
        "9"@
    }
}

/// The decimal rendering of `n`, most significant digit first, no sign and
/// no leading zeros (`0` itself renders as "0").
pub open spec fn spec_dec(n: nat) -> Seq<char>
    decreases n,
{
    if n < 10 {
        spec_digit(n as int)
    } else {
        spec_dec(n / 10) + spec_digit((n % 10) as int)
    }
}

fn digit_str(d: u64) -> (r: &'static str)
    requires
        d < 10,
    ensures
        r@ == spec_digit(d as int),
{
    match d {
        0 => "0",
        1 => "1",
        2 => "2",
        3 => "3",
        4 => "4",
        5 => "5",
        6 => "6",
        7 => "7",
        8 => "8",
        _ => "9",
    }
}

/// Renders `n` in decimal.
pub fn dec_string(n: u64) -> (r: String)
    ensures
        r@ == spec_dec(n as nat),
    decreases n,
{
    if n < 10 {
        String::from_str(digit_str(n))
    } else {
        let mut s = dec_string(n / 10);
        s.append(digit_str(n % 10));
        s
    }
}

/// The text of one field: each value in decimal, each followed by a space.
pub open spec fn spec_field_text(f: Seq<usize>) -> Seq<char>
    decreases f.len(),
{
    if f.len() == 0 {
        Seq::empty()
    } else {
        spec_field_text(f.drop_last()) + spec_dec(f.last() as nat) + " "@
    }
}

/// Renders the values of a field, space-separated with a trailing space.
pub fn field_text(f: &Vec<usize>) -> (r: String)
    ensures
        r@ == spec_field_text(f@),
{
    let mut s = String::new();
    let mut i: usize = 0;
    while i < f.len()
        invariant
            i <= f@.len(),
            s@ == spec_field_text(f@.subrange(0, i as int)),
        decreases f@.len() - i,
    {
        let d = dec_string(f[i] as u64);
        s.append(d.as_str());
        s.append(" ");
        proof {
            let pre = f@.subrange(0, i as int);
            let post = f@.subrange(0, i as int + 1);
            assert(post.drop_last() =~= pre);
            assert(post.last() == f@[i as int]);
        }
        i += 1;
    }
    proof {
        assert(f@.subrange(0, f@.len() as int) =~= f@);
    }
    s
}

/// Renders the 1-based row index as its label, `id` followed by a period.
pub fn index_label(id: u64) -> (r: String)
    ensures
        r@ == spec_dec(id as nat) + "."@,
{
    let mut s = dec_string(id);
    s.append(".");
    s
}

/// The index argument of a row rendering, as the specification sees it.
pub open spec fn opt_nat(index: Option<u64>) -> Option<nat> {
    match index {
        Some(id) => Some(id as nat),
        None => None,
    }
}

/// The full text of one row: an optional index label and a tab, the primary
/// field, then — when a secondary field is there — a line break, a tab to
/// stay aligned under the numbers when a label is shown, and the secondary
/// field; closed by a line break.
pub open spec fn spec_row_text(index: Option<nat>, rv: RowView) -> Seq<char> {
    (match index {
        Some(id) => spec_dec(id) + "."@ + "\t"@,
        None => Seq::<char>::empty(),
    }) + spec_field_text(rv.primary) + (match rv.secondary {
        Some(f) => "\n"@ + (if index is Some {
            "\t"@
        } else {
            Seq::<char>::empty()
        }) + spec_field_text(f),
        None => Seq::<char>::empty(),
    }) + "\n"@
}

/// Renders one row; `index` is the 1-based label to show, or `None` for an
/// unlabelled row.
pub fn render_row(index: Option<u64>, row: &Row) -> (r: String)
    ensures
        r@ == spec_row_text(opt_nat(index), row@),
{
    let mut s = String::new();
    match index {
        Some(id) => {
            let lbl = index_label(id);
            s.append(lbl.as_str());
            s.append("\t");
        },
        None => {},
    }
    let ft = field_text(&row.primary);
    s.append(ft.as_str());
    match &row.secondary {
        Some(f) => {
            s.append("\n");
            if index.is_some() {
                s.append("\t");
            }
            let ft2 = field_text(f);
            s.append(ft2.as_str());
        },
        None => {},
    }
    s.append("\n");
    proof {
        assert(s@ =~= spec_row_text(opt_nat(index), row@));
    }
    s
}

/// The views of a sequence of rows.
pub open spec fn rows_view(rows: Seq<Row>) -> Seq<RowView> {
    rows.map_values(|r: Row| r@)
}

/// The full output text: every row in order, the rows labelled 1, 2, …
/// when `show_index` is set and unlabelled otherwise.
pub open spec fn spec_output(rvs: Seq<RowView>, show_index: bool) -> Seq<char>
    decreases rvs.len(),
{
    if rvs.len() == 0 {
        Seq::empty()
    } else {
        spec_output(rvs.drop_last(), show_index) + spec_row_text(
            if show_index {
                Some(rvs.len())
            } else {
                None
            },
            rvs.last(),
        )
    }
}

/// Whether row indexes are shown: only for more than one row, and not when
/// suppressed.
pub fn index_shown(fieldcount: u32, noindexprint: bool) -> (r: bool)
    ensures
        r == (fieldcount != 1 && !noindexprint),
{
    fieldcount != 1 && !noindexprint
}

/// Renders every row in order into one text.
pub fn render_output(rows: &Vec<Row>, show_index: bool) -> (r: String)
    ensures
        r@ == spec_output(rows_view(rows@), show_index),
{
    let mut s = String::new();
    let mut i: usize = 0;
    while i < rows.len()
        invariant
            i <= rows@.len(),
            s@ == spec_output(rows_view(rows@).subrange(0, i as int), show_index),
        decreases rows@.len() - i,
    {
        let idx: Option<u64> = if show_index {
            Some(i as u64 + 1)
        } else {
            None
        };
        let rt = render_row(idx, &rows[i]);
        s.append(rt.as_str());
        proof {
            let rvs = rows_view(rows@);
            let pre = rvs.subrange(0, i as int);
            let post = rvs.subrange(0, i as int + 1);
            assert(post.drop_last() =~= pre);
            assert(post.last() == rvs[i as int]);
            assert(rvs[i as int] == rows@[i as int]@);
        }
        i += 1;
    }
    proof {
        assert(rows_view(rows@).subrange(0, rows@.len() as int) =~= rows_view(rows@));
    }
    s
}

} // verus!
