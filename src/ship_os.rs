//! The ship's console: a screen of panels drawn with box borders.
use array2d::Array2D;
use vstd::prelude::*;

use crate::array_store::{matrix_filled, matrix_get, matrix_rows};
use crate::box_drawing::{box_cell, boxed, boxed_cell, fits, BoxStyle, Dimensions};
use crate::keys::Key;
use crate::screen::{is_grid, render, screen_text, set_cell, SPACE};

verus! {

/// The first panel: a single-line box at the top left.
pub open spec fn status_panel() -> Dimensions {
    Dimensions { top: 0, bottom: 10, left: 2, right: 30 }
}

/// The second panel: a double-line box overlapping the first.
pub open spec fn main_panel() -> Dimensions {
    Dimensions { top: 5, bottom: 20, left: 20, right: 70 }
}

/// A grid of `n_rows` rows of `n_columns` spaces.
pub open spec fn space_grid(n_rows: nat, n_columns: nat) -> Seq<Seq<u8>> {
    Seq::new(n_rows, |i: int| Seq::new(n_columns, |j: int| SPACE))
}

/// The screen with the cells before `(row, column)`, in reading order,
/// already boxed.
pub open spec fn partly_boxed(
    rows: Seq<Seq<u8>>,
    d: Dimensions,
    style: BoxStyle,
    row: int,
    column: int,
) -> Seq<Seq<u8>> {
    Seq::new(
        rows.len(),
        |i: int|
            Seq::new(
                rows[i].len(),
                |j: int|
                    if i < row || (i == row && j < column) {
                        boxed_cell(rows[i][j], d, i, j, style)
                    } else {
                        rows[i][j]
                    },
            ),
    )
}

/// A screen of panels; it takes no input.
pub struct ShipOS {
    n_columns: usize,
    n_rows: usize,
    screen: Array2D<u8>,
}

impl ShipOS {
    /// The rows of the screen, top to bottom.
    pub closed spec fn rows(&self) -> Seq<Seq<u8>> {
        matrix_rows(self.screen)
    }

    /// The number of columns.
    pub closed spec fn width(&self) -> nat {
        self.n_columns as nat
    }

    /// The number of rows.
    pub closed spec fn height(&self) -> nat {
        self.n_rows as nat
    }

    /// Every row as wide as the screen.
    pub open spec fn wf(&self) -> bool {
        is_grid(self.rows(), self.height(), self.width())
    }

    /// A screen of spaces with the two panels drawn on it, the second over
    /// the first. Both must fit.
    pub fn new(n_columns: usize, n_rows: usize) -> (r: Self)
        requires
            n_columns > 70,
            n_rows > 20,
            n_rows * n_columns <= isize::MAX,
        ensures
            r.wf(),
            r.width() == n_columns,
            r.height() == n_rows,
            r.rows() == boxed(
                boxed(space_grid(n_rows as nat, n_columns as nat), status_panel(), BoxStyle::Single),
                main_panel(),
                BoxStyle::Double,
            ),
    {
        let screen = matrix_filled(SPACE, n_rows, n_columns);
        proof {
            assert(matrix_rows(screen) =~~= space_grid(n_rows as nat, n_columns as nat));
        }
        let mut result = ShipOS { n_columns, n_rows, screen };
        result.draw_box(Dimensions { top: 0, bottom: 10, left: 2, right: 30 }, BoxStyle::Single);
        result.draw_box(Dimensions { top: 5, bottom: 20, left: 20, right: 70 }, BoxStyle::Double);
        result
    }

    /// The screen as text: rows joined by newlines, each byte shown by its
    /// code page glyph.
    pub fn get_screen(&self) -> (r: String)
        requires
            self.wf(),
        ensures
            r@ == screen_text(self.rows(), None),
    {
        render(&self.screen, self.n_rows, self.n_columns, None)
    }

    /// Keys change nothing on this screen.
    pub fn handle_keyboard_input(&mut self, _key: &Key)
        ensures
            final(self).rows() == old(self).rows(),
            final(self).width() == old(self).width(),
            final(self).height() == old(self).height(),
    {
    }

    /// Draws a box: its border merges with the border glyphs already in
    /// its cells, and its inside is cleared to spaces.
    pub fn draw_box(&mut self, dimensions: Dimensions, style: BoxStyle)
        requires
            old(self).wf(),
            fits(dimensions, old(self).height(), old(self).width()),
        ensures
            final(self).wf(),
            final(self).width() == old(self).width(),
            final(self).height() == old(self).height(),
            final(self).rows() == boxed(old(self).rows(), dimensions, style),
    {
        let ghost start = self.rows();
        let d = dimensions;
        proof {
            assert(partly_boxed(start, d, style, d.top as int, d.left as int) =~~= start);
        }
        let mut row = d.top;
        while row <= d.bottom
            invariant
                fits(d, self.height(), self.width()),
                d.top <= row <= d.bottom + 1,
                self.width() == old(self).width(),
                self.height() == old(self).height(),
                start == old(self).rows(),
                is_grid(start, self.height(), self.width()),
                self.rows() == partly_boxed(start, d, style, row as int, d.left as int),
            decreases d.bottom + 1 - row,
        {
            let mut column = d.left;
            while column <= d.right
                invariant
                    fits(d, self.height(), self.width()),
                    d.top <= row <= d.bottom,
                    d.left <= column <= d.right + 1,
                    self.width() == old(self).width(),
                    self.height() == old(self).height(),
                    start == old(self).rows(),
                    is_grid(start, self.height(), self.width()),
                    self.rows() == partly_boxed(start, d, style, row as int, column as int),
                decreases d.right + 1 - column,
            {
                let existing = match matrix_get(&self.screen, row, column) {
                    Some(b) => b,
                    None => SPACE,
                };
                let glyph = box_cell(existing, &d, row, column, style);
                set_cell(&mut self.screen, row, column, glyph);
                proof {
                    assert(self.rows() =~~= partly_boxed(start, d, style, row as int, column as int + 1));
                }
                column += 1;
            }
            proof {
                assert(self.rows() =~~= partly_boxed(start, d, style, row as int + 1, d.left as int));
            }
            row += 1;
        }
        proof {
            assert(self.rows() =~~= boxed(start, d, style));
        }
    }
}

} // verus!
