//! The text form of an array: a heading with the extents, then one line per
//! row of the first axis.
//!
//! ```text
//! Array2D [2 x 3]:
//! [ 0 0 ]
//! [ 0 0 ]
//! [ 0 0 ]
//! ```
//!
//! A three-axis array prints its planes one after the other, so it has
//! `y_size * z_size` lines below the heading. What a single cell looks like is
//! up to the element type; the functions here take the cell texts as given and
//! lay them out.

use vstd::prelude::*;
use std::fmt::Debug;
use vstd::string::StringExecFns;

verus! {

/// The character for the decimal digit `d`.
pub open spec fn digit(d: int) -> char {
    if d == 0 {
        '0'
    } else if d == 1 {
        '1'
    } else if d == 2 {
        '2'
    } else if d == 3 {
        '3'
    } else if d == 4 {
        '4'
    } else if d == 5 {
        '5'
    } else if d == 6 {
        '6'
    } else if d == 7 {
        '7'
    } else if d == 8 {
        '8'
    } else {
        '9'
    }
}

/// `n` in decimal, without leading zeros.
pub open spec fn decimal(n: nat) -> Seq<char>
    decreases n,
{
    if n < 10 {
        seq![digit(n as int)]
    } else {
        decimal(n / 10).push(digit((n % 10) as int))
    }
}

/// The first `count` cells of row `row`, each followed by one space.
pub open spec fn row_cells(cells: Seq<Seq<char>>, x_size: int, row: int, count: int) -> Seq<char>
    decreases count,
{
    if count <= 0 {
        Seq::empty()
    } else {
        row_cells(cells, x_size, row, count - 1) + cells[row * x_size + count - 1] + seq![' ']
    }
}

/// One line: `[ `, the cells of row `row`, `]` and a line break.
pub open spec fn row_text(cells: Seq<Seq<char>>, x_size: int, row: int) -> Seq<char> {
    seq!['[', ' '] + row_cells(cells, x_size, row, x_size) + seq![']', '\n']
}

/// The lines of the first `rows` rows.
pub open spec fn rows_text(cells: Seq<Seq<char>>, x_size: int, rows: int) -> Seq<char>
    decreases rows,
{
    if rows <= 0 {
        Seq::empty()
    } else {
        rows_text(cells, x_size, rows - 1) + row_text(cells, x_size, rows - 1)
    }
}

/// The heading of a two-axis array: `Array2D [X x Y]:` and a line break.
pub open spec fn heading2(x_size: nat, y_size: nat) -> Seq<char> {
    seq!['A', 'r', 'r', 'a', 'y', '2', 'D', ' ', '['] + decimal(x_size) + seq![' ', 'x', ' ']
        + decimal(y_size) + seq![']', ':', '\n']
}

/// The heading of a three-axis array: `Array3D [X x Y x Z]:` and a line break.
pub open spec fn heading3(x_size: nat, y_size: nat, z_size: nat) -> Seq<char> {
    seq!['A', 'r', 'r', 'a', 'y', '3', 'D', ' ', '['] + decimal(x_size) + seq![' ', 'x', ' ']
        + decimal(y_size) + seq![' ', 'x', ' '] + decimal(z_size) + seq![']', ':', '\n']
}

/// The full text of a two-axis array whose cells, in buffer order, print as
/// `cells`.
pub open spec fn grid2_text(x_size: nat, y_size: nat, cells: Seq<Seq<char>>) -> Seq<char> {
    heading2(x_size, y_size) + rows_text(cells, x_size as int, y_size as int)
}

/// The full text of a three-axis array whose cells, in buffer order, print as
/// `cells`.
pub open spec fn grid3_text(
    x_size: nat,
    y_size: nat,
    z_size: nat,
    cells: Seq<Seq<char>>,
) -> Seq<char> {
    heading3(x_size, y_size, z_size) + rows_text(cells, x_size as int, (y_size * z_size) as int)
}

/// The texts held by a vector of strings.
pub open spec fn texts(cells: Seq<String>) -> Seq<Seq<char>> {
    Seq::new(cells.len(), |i: int| cells[i]@)
}

/// `format!` with `{:?}`: the text that the value's own `Debug` writes.
/// What that text is depends on the element type, so nothing is said of it.
#[verifier::external_body]
pub(crate) fn debug_text<T: Debug>(value: &T) -> String {
    format!("{:?}", value)
}

/// The `Debug` text of each cell, in buffer order.
pub(crate) fn debug_texts<T: Debug>(cells: &[T]) -> (shown: Vec<String>)
    ensures
        shown@.len() == cells@.len(),
{
    let mut shown: Vec<String> = Vec::new();
    let mut i: usize = 0;
    while i < cells.len()
        invariant
            i <= cells@.len(),
            shown@.len() == i,
        decreases cells@.len() - i,
    {
        shown.push(debug_text(&cells[i]));
        i += 1;
    }
    shown
}

/// The one-character string for the decimal digit `d`.
fn digit_str(d: usize) -> (s: &'static str)
    requires
        d < 10,
    ensures
        s@ == seq![digit(d as int)],
{
    proof {
        reveal_strlit("0");
        reveal_strlit("1");
        reveal_strlit("2");
        reveal_strlit("3");
        reveal_strlit("4");
        reveal_strlit("5");
        reveal_strlit("6");
        reveal_strlit("7");
        reveal_strlit("8");
        reveal_strlit("9");
    }
    let s = if d == 0 {
        "0"
    } else if d == 1 {
        "1"
    } else if d == 2 {
        "2"
    } else if d == 3 {
        "3"
    } else if d == 4 {
        "4"
    } else if d == 5 {
        "5"
    } else if d == 6 {
        "6"
    } else if d == 7 {
        "7"
    } else if d == 8 {
        "8"
    } else {
        "9"
    };
    assert(s@ =~= seq![digit(d as int)]);
    s
}

/// `n` in decimal, without leading zeros.
pub fn decimal_string(n: usize) -> (s: String)
    ensures
        s@ == decimal(n as nat),
    decreases n,
{
    if n < 10 {
        String::from_str(digit_str(n))
    } else {
        let mut s = decimal_string(n / 10);
        s.append(digit_str(n % 10));
        assert(s@ =~= decimal(n as nat));
        s
    }
}

/// Appends the lines of the first `rows` rows to `out`.
fn push_rows(out: &mut String, cells: &Vec<String>, x_size: usize, rows: usize)
    requires
        cells@.len() == x_size * rows,
    ensures
        final(out)@ == old(out)@ + rows_text(texts(cells@), x_size as int, rows as int),
{
    proof {
        vstd::std_specs::vec::axiom_spec_len(cells);
    }
    let ghost shown = texts(cells@);
    let mut row: usize = 0;
    assert(out@ =~= old(out)@ + rows_text(shown, x_size as int, 0));
    while row < rows
        invariant
            row <= rows,
            cells@.len() == x_size * rows,
            x_size * rows <= usize::MAX,
            shown == texts(cells@),
            out@ == old(out)@ + rows_text(shown, x_size as int, row as int),
        decreases rows - row,
    {
        let ghost before = out@;
        proof {
            reveal_strlit("[ ");
            reveal_strlit("]\n");
        }
        out.append("[ ");
        let mut x: usize = 0;
        assert(out@ =~= before + seq!['[', ' '] + row_cells(shown, x_size as int, row as int, 0));
        while x < x_size
            invariant
                x <= x_size,
                row < rows,
                cells@.len() == x_size * rows,
                x_size * rows <= usize::MAX,
                shown == texts(cells@),
                out@ == before + seq!['[', ' '] + row_cells(
                    shown,
                    x_size as int,
                    row as int,
                    x as int,
                ),
            decreases x_size - x,
        {
            proof {
                reveal_strlit(" ");
                assert(0 <= row * x_size <= row * x_size + x < x_size * rows) by (nonlinear_arith)
                    requires
                        0 <= x < x_size,
                        0 <= row < rows,
                ;
            }
            let cell = &cells[row * x_size + x];
            assert(cell@ == shown[row * x_size + x]);
            out.append(cell.as_str());
            out.append(" ");
            x += 1;
            assert(out@ =~= before + seq!['[', ' '] + row_cells(
                shown,
                x_size as int,
                row as int,
                x as int,
            ));
        }
        out.append("]\n");
        row += 1;
        assert(out@ =~= old(out)@ + rows_text(shown, x_size as int, row as int));
    }
}

/// The text of a two-axis array with extents `(x_size, y_size)` whose cells,
/// in buffer order, print as `cells`.
pub fn render_grid2(x_size: usize, y_size: usize, cells: &Vec<String>) -> (out: String)
    requires
        cells@.len() == x_size * y_size,
    ensures
        out@ == grid2_text(x_size as nat, y_size as nat, texts(cells@)),
{
    proof {
        reveal_strlit("Array2D [");
        reveal_strlit(" x ");
        reveal_strlit("]:\n");
    }
    let mut out = String::from_str("Array2D [");
    out.append(decimal_string(x_size).as_str());
    out.append(" x ");
    out.append(decimal_string(y_size).as_str());
    out.append("]:\n");
    assert(out@ =~= heading2(x_size as nat, y_size as nat));
    push_rows(&mut out, cells, x_size, y_size);
    out
}

/// The text of a three-axis array with extents `(x_size, y_size, z_size)`
/// whose cells, in buffer order, print as `cells`.
pub fn render_grid3(
    x_size: usize,
    y_size: usize,
    z_size: usize,
    cells: &Vec<String>,
) -> (out: String)
    requires
        y_size * z_size <= usize::MAX,
        cells@.len() == x_size * (y_size * z_size),
    ensures
        out@ == grid3_text(x_size as nat, y_size as nat, z_size as nat, texts(cells@)),
{
    proof {
        reveal_strlit("Array3D [");
        reveal_strlit(" x ");
        reveal_strlit("]:\n");
    }
    let mut out = String::from_str("Array3D [");
    out.append(decimal_string(x_size).as_str());
    out.append(" x ");
    out.append(decimal_string(y_size).as_str());
    out.append(" x ");
    out.append(decimal_string(z_size).as_str());
    out.append("]:\n");
    assert(out@ =~= heading3(x_size as nat, y_size as nat, z_size as nat));
    push_rows(&mut out, cells, x_size, y_size * z_size);
    out
}

} // verus!
