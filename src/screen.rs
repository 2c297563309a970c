//! The character grid: rows of code page bytes, scrolled up one line at a
//! time, and rendered to text with the cursor drawn over the bottom row.
use array2d::Array2D;
use vstd::prelude::*;

use crate::array_store::{matrix_as_rows, matrix_from_rows, matrix_get, matrix_rows, matrix_set};
use crate::codepage::{ibm_byte, ibm_glyph, map_ibm_byte_to_unicode};
use crate::text::push_char;

verus! {

/// The byte of an empty cell.
pub const BLANK: u8 = 0x00;

/// The byte of a space.
pub const SPACE: u8 = 0x20;

/// The solid block that marks the cursor.
pub const CURSOR_GLYPH: char = '\u{2588}';

/// A row of `n_columns` empty cells.
pub open spec fn blank_row(n_columns: nat) -> Seq<u8> {
    Seq::new(n_columns, |j: int| BLANK)
}

/// `rows` has `n_rows` rows of `n_columns` cells each.
pub open spec fn is_grid(rows: Seq<Seq<u8>>, n_rows: nat, n_columns: nat) -> bool {
    &&& rows.len() == n_rows
    &&& forall|i: int| 0 <= i < rows.len() ==> (#[trigger] rows[i]).len() == n_columns
}

/// The grid one line further on: the top row gone, the others one row up,
/// an empty row at the bottom.
pub open spec fn scrolled(rows: Seq<Seq<u8>>, n_columns: nat) -> Seq<Seq<u8>> {
    rows.skip(1).push(blank_row(n_columns))
}

/// The grid with the cell at `(row, column)` set to `b`.
pub open spec fn with_cell(rows: Seq<Seq<u8>>, row: int, column: int, b: u8) -> Seq<Seq<u8>> {
    rows.update(row, rows[row].update(column, b))
}

/// The grid with the cell at `column` of the bottom row set to `b`.
pub open spec fn with_bottom_cell(rows: Seq<Seq<u8>>, column: int, b: u8) -> Seq<Seq<u8>> {
    with_cell(rows, rows.len() - 1, column, b)
}

/// One character typed at the cursor: `b` is written under it, and the
/// cursor moves right, or past the last column the grid scrolls and the
/// cursor goes back to column 0.
pub open spec fn typed(rows: Seq<Seq<u8>>, n_columns: nat, cursor: nat, b: u8) -> (Seq<Seq<u8>>, nat) {
    let written = with_bottom_cell(rows, cursor as int, b);
    if cursor + 1 < n_columns {
        (written, cursor + 1)
    } else {
        (scrolled(written, n_columns), 0)
    }
}

/// The grid and cursor after typing `bytes` one after another.
pub open spec fn typed_bytes(rows: Seq<Seq<u8>>, n_columns: nat, cursor: nat, bytes: Seq<u8>) -> (Seq<Seq<u8>>, nat)
    decreases bytes.len(),
{
    if bytes.len() == 0 {
        (rows, cursor)
    } else {
        let (r, c) = typed_bytes(rows, n_columns, cursor, bytes.drop_last());
        typed(r, n_columns, c, bytes.last())
    }
}

/// The code page bytes of `line`.
pub open spec fn line_bytes(line: Seq<char>) -> Seq<u8> {
    line.map_values(|c: char| ibm_byte(c))
}

/// The grid after one line of output: typed from column 0 of the bottom
/// row, wrapping every `n_columns` characters, then one more scroll unless
/// the last wrap left the row empty.
pub open spec fn printed_line(rows: Seq<Seq<u8>>, n_columns: nat, line: Seq<char>) -> Seq<Seq<u8>> {
    let (r, c) = typed_bytes(rows, n_columns, 0, line_bytes(line));
    if c > 0 {
        scrolled(r, n_columns)
    } else {
        r
    }
}

/// The grid after lines of output, one after another.
pub open spec fn printed_lines(rows: Seq<Seq<u8>>, n_columns: nat, lines: Seq<Seq<char>>) -> Seq<Seq<u8>>
    decreases lines.len(),
{
    if lines.len() == 0 {
        rows
    } else {
        printed_line(printed_lines(rows, n_columns, lines.drop_last()), n_columns, lines.last())
    }
}

/// Typing keeps the grid's shape and the cursor inside the bottom row.
pub(crate) proof fn lemma_typed_keeps_grid(rows: Seq<Seq<u8>>, n_rows: nat, n_columns: nat, cursor: nat, b: u8)
    requires
        n_rows >= 1,
        is_grid(rows, n_rows, n_columns),
        cursor < n_columns,
    ensures
        is_grid(with_bottom_cell(rows, cursor as int, b), n_rows, n_columns),
        is_grid(typed(rows, n_columns, cursor, b).0, n_rows, n_columns),
        typed(rows, n_columns, cursor, b).1 < n_columns,
{
    let w = with_bottom_cell(rows, cursor as int, b);
    assert forall|i: int| 0 <= i < w.len() implies (#[trigger] w[i]).len() == n_columns by {
        assert(rows[i].len() == n_columns);
    }
    let s = scrolled(w, n_columns);
    assert forall|i: int| 0 <= i < s.len() implies (#[trigger] s[i]).len() == n_columns by {
        if i + 1 < s.len() {
            assert(s[i] == w[i + 1]);
        }
    }
}

/// The text of one row; the cell at `cursor`, if any, shows the cursor.
pub open spec fn row_text(row: Seq<u8>, cursor: Option<int>) -> Seq<char> {
    Seq::new(row.len(), |j: int| if cursor == Some(j) { CURSOR_GLYPH } else { ibm_glyph(row[j]) })
}

/// Lines joined by newlines, with none after the last.
pub open spec fn joined_lines(lines: Seq<Seq<char>>) -> Seq<char>
    decreases lines.len(),
{
    if lines.len() == 0 {
        Seq::empty()
    } else if lines.len() == 1 {
        lines[0]
    } else {
        joined_lines(lines.drop_last()) + seq!['\n'] + lines.last()
    }
}

/// The text of each row; the cursor, if any, stands on the bottom row.
pub open spec fn screen_lines(rows: Seq<Seq<u8>>, cursor: Option<int>) -> Seq<Seq<char>> {
    Seq::new(
        rows.len(),
        |i: int| row_text(rows[i], if i == rows.len() - 1 { cursor } else { None::<int> }),
    )
}

/// What the screen shows: its rows top to bottom, joined by newlines.
pub open spec fn screen_text(rows: Seq<Seq<u8>>, cursor: Option<int>) -> Seq<char> {
    joined_lines(screen_lines(rows, cursor))
}

/// The grid after `k` scrolls.
pub open spec fn scrolled_times(rows: Seq<Seq<u8>>, n_columns: nat, k: nat) -> Seq<Seq<u8>>
    decreases k,
{
    if k == 0 {
        rows
    } else {
        scrolled(scrolled_times(rows, n_columns, (k - 1) as nat), n_columns)
    }
}

/// Scrolling keeps the number of rows, moves each row but the first up by
/// one, and leaves an empty row at the bottom.
pub proof fn lemma_scroll_moves_rows(rows: Seq<Seq<u8>>, n_columns: nat)
    requires
        rows.len() >= 1,
    ensures
        scrolled(rows, n_columns).len() == rows.len(),
        forall|i: int| 0 <= i < rows.len() - 1 ==> #[trigger] scrolled(rows, n_columns)[i] == rows[i + 1],
        scrolled(rows, n_columns)[rows.len() - 1] == blank_row(n_columns),
{
}

/// After `k` scrolls, at most as many as there are rows, the rows from
/// `k` on stand at the top, followed by `k` empty rows.
proof fn lemma_scrolled_times(rows: Seq<Seq<u8>>, n_columns: nat, k: nat)
    requires
        k <= rows.len(),
    ensures
        scrolled_times(rows, n_columns, k) == rows.skip(k as int) + Seq::new(k, |i: int| blank_row(n_columns)),
    decreases k,
{
    if k > 0 {
        lemma_scrolled_times(rows, n_columns, (k - 1) as nat);
        let before = rows.skip(k - 1) + Seq::new((k - 1) as nat, |i: int| blank_row(n_columns));
        assert(before.skip(1).push(blank_row(n_columns)) =~= rows.skip(k as int) + Seq::new(
            k,
            |i: int| blank_row(n_columns),
        ));
    }
}

/// Scrolling as many times as there are rows leaves every row empty,
/// whatever the grid held.
pub proof fn lemma_scroll_clears(rows: Seq<Seq<u8>>, n_columns: nat)
    ensures
        scrolled_times(rows, n_columns, rows.len()) == Seq::new(rows.len(), |i: int| blank_row(n_columns)),
{
    lemma_scrolled_times(rows, n_columns, rows.len());
    assert(rows.skip(rows.len() as int) + Seq::new(rows.len(), |i: int| blank_row(n_columns)) =~= Seq::new(
        rows.len(),
        |i: int| blank_row(n_columns),
    ));
}

proof fn lemma_joined_lines_step(lines: Seq<Seq<char>>, i: int)
    requires
        0 <= i < lines.len(),
    ensures
        joined_lines(lines.take(i + 1)) == joined_lines(lines.take(i)) + (if i == 0 {
            Seq::<char>::empty()
        } else {
            seq!['\n']
        }) + lines[i],
{
    assert(lines.take(i + 1).drop_last() =~= lines.take(i));
    if i == 0 {
        assert(joined_lines(lines.take(0)) =~= Seq::<char>::empty());
        assert(Seq::<char>::empty() + Seq::<char>::empty() + lines[0] =~= lines[0]);
    }
}

proof fn lemma_bytes_deep_view(v: Vec<u8>)
    ensures
        v.deep_view() == v@,
{
    assert(v.deep_view() =~= v@);
}

/// A row of `n_columns` empty cells.
fn blank_row_vec(n_columns: usize) -> (r: Vec<u8>)
    ensures
        r@ == blank_row(n_columns as nat),
{
    let mut r: Vec<u8> = Vec::new();
    let mut j: usize = 0;
    while j < n_columns
        invariant
            j <= n_columns,
            r@ == blank_row(j as nat),
        decreases n_columns - j,
    {
        r.push(BLANK);
        j += 1;
        proof {
            assert(r@ =~= blank_row(j as nat));
        }
    }
    r
}

/// Scrolls the grid up one line; the cursor is the caller's to place.
pub(crate) fn shift_lines_up(screen: &mut Array2D<u8>, n_rows: usize, n_columns: usize)
    requires
        n_rows >= 1,
        n_columns >= 1,
        is_grid(matrix_rows(*old(screen)), n_rows as nat, n_columns as nat),
    ensures
        matrix_rows(*final(screen)) == scrolled(matrix_rows(*old(screen)), n_columns as nat),
{
    let ghost before = matrix_rows(*screen);
    let mut rows = matrix_as_rows(screen);
    let ghost taken = rows@;
    rows.remove(0);
    rows.push(blank_row_vec(n_columns));
    proof {
        assert forall|i: int| 0 <= i < rows@.len() implies rows.deep_view()[i] =~= scrolled(
            before,
            n_columns as nat,
        )[i] by {
            lemma_bytes_deep_view(rows@[i]);
            if i + 1 < rows@.len() {
                lemma_bytes_deep_view(taken[i + 1]);
                assert(before[i + 1] == taken[i + 1].deep_view());
            }
        }
        assert(rows.deep_view() =~= scrolled(before, n_columns as nat));
    }
    match matrix_from_rows(rows.as_slice()) {
        Ok(shifted) => {
            *screen = shifted;
        },
        Err(_) => {
            proof {
                assert forall|i: int| 0 <= i < rows@.len() implies (#[trigger] rows@[i])@.len()
                    == rows@[0]@.len() by {
                    lemma_bytes_deep_view(rows@[i]);
                    lemma_bytes_deep_view(rows@[0]);
                    let scroll = scrolled(before, n_columns as nat);
                    assert(rows@[i]@ == scroll[i]);
                    assert(rows@[0]@ == scroll[0]);
                    if i + 1 < rows@.len() {
                        assert(scroll[i] == before[i + 1]);
                    }
                    if 1 < rows@.len() {
                        assert(scroll[0] == before[1]);
                    }
                }
            }
        },
    }
}

/// Writes `b` into the cell at `(row, column)`.
pub(crate) fn set_cell(screen: &mut Array2D<u8>, row: usize, column: usize, b: u8)
    requires
        row < matrix_rows(*old(screen)).len(),
        column < matrix_rows(*old(screen))[row as int].len(),
    ensures
        matrix_rows(*final(screen)) == with_cell(matrix_rows(*old(screen)), row as int, column as int, b),
{
    let _ = matrix_set(screen, row, column, b);
}

/// Renders the grid as text, with the cursor over `cursor` of the bottom row.
pub(crate) fn render(screen: &Array2D<u8>, n_rows: usize, n_columns: usize, cursor: Option<usize>) -> (r: String)
    requires
        is_grid(matrix_rows(*screen), n_rows as nat, n_columns as nat),
    ensures
        r@ == screen_text(
            matrix_rows(*screen),
            match cursor {
                Some(c) => Some(c as int),
                None => None::<int>,
            },
        ),
{
    let ghost rows = matrix_rows(*screen);
    let ghost mark = match cursor {
        Some(c) => Some(c as int),
        None => None::<int>,
    };
    let ghost lines = screen_lines(rows, mark);
    let mut out = String::new();
    let mut i: usize = 0;
    while i < n_rows
        invariant
            i <= n_rows,
            is_grid(rows, n_rows as nat, n_columns as nat),
            rows == matrix_rows(*screen),
            lines == screen_lines(rows, mark),
            mark == (match cursor {
                Some(c) => Some(c as int),
                None => None::<int>,
            }),
            out@ == joined_lines(lines.take(i as int)),
        decreases n_rows - i,
    {
        proof {
            lemma_joined_lines_step(lines, i as int);
        }
        if i > 0 {
            push_char(&mut out, '\n');
        }
        let ghost before = out@;
        let mut j: usize = 0;
        while j < n_columns
            invariant
                i < n_rows,
                j <= n_columns,
                is_grid(rows, n_rows as nat, n_columns as nat),
                rows == matrix_rows(*screen),
                lines == screen_lines(rows, mark),
                mark == (match cursor {
                    Some(c) => Some(c as int),
                    None => None::<int>,
                }),
                out@ == before + lines[i as int].take(j as int),
            decreases n_columns - j,
        {
            let at_cursor = match cursor {
                Some(c) => i + 1 == n_rows && c == j,
                None => false,
            };
            let glyph = if at_cursor {
                CURSOR_GLYPH
            } else {
                match matrix_get(screen, i, j) {
                    Some(b) => map_ibm_byte_to_unicode(b),
                    None => ' ',
                }
            };
            proof {
                assert(rows[i as int].len() == n_columns);
                assert(lines[i as int] == row_text(rows[i as int], if i == n_rows - 1 { mark } else { None::<int> }));
                assert(glyph == lines[i as int][j as int]);
            }
            push_char(&mut out, glyph);
            proof {
                assert(lines[i as int].take(j as int + 1) =~= lines[i as int].take(j as int).push(glyph));
            }
            j += 1;
        }
        proof {
            assert(lines[i as int].take(n_columns as int) =~= lines[i as int]);
        }
        i += 1;
    }
    proof {
        assert(lines.take(n_rows as int) =~= lines);
    }
    out
}

} // verus!
