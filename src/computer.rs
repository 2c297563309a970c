//! A plain console: typed keys go to the grid, Enter starts a new line.
use array2d::Array2D;
use vstd::prelude::*;

use crate::array_store::{matrix_filled, matrix_rows};
use crate::codepage::map_unicode_to_ibm_byte;
use crate::keys::{contains_control, key_effect, lemma_key_keeps_cursor, Key};
use crate::os::{split_lines, text_lines};
use crate::screen::{
    blank_row, is_grid, lemma_typed_keeps_grid, line_bytes, printed_line, printed_lines, render, screen_text,
    scrolled, set_cell, shift_lines_up, typed, typed_bytes, BLANK, SPACE,
};

verus! {

/// The column where the cursor waits on a new console, leaving room for a
/// prompt.
pub const PROMPT_COLUMN: usize = 2;

/// Where the cursor starts on a console `n_columns` wide.
pub open spec fn start_column(n_columns: nat) -> nat {
    if n_columns > PROMPT_COLUMN {
        PROMPT_COLUMN as nat
    } else {
        (n_columns - 1) as nat
    }
}

/// A grid of `n_rows` empty rows of `n_columns` cells.
pub open spec fn blank_grid(n_rows: nat, n_columns: nat) -> Seq<Seq<u8>> {
    Seq::new(n_rows, |i: int| blank_row(n_columns))
}

/// A console of fixed size whose cursor lives on the bottom row.
pub struct Computer {
    n_columns: usize,
    n_rows: usize,
    screen_bytes: Array2D<u8>,
    cursor_idx: usize,
}

impl Computer {
    /// The rows of the screen, top to bottom.
    pub closed spec fn rows(&self) -> Seq<Seq<u8>> {
        matrix_rows(self.screen_bytes)
    }

    /// The cursor's column on the bottom row.
    pub closed spec fn cursor(&self) -> nat {
        self.cursor_idx as nat
    }

    /// The number of columns.
    pub closed spec fn width(&self) -> nat {
        self.n_columns as nat
    }

    /// The number of rows.
    pub closed spec fn height(&self) -> nat {
        self.n_rows as nat
    }

    /// At least one row and one column, every row as wide as the console,
    /// the cursor inside the bottom row.
    pub open spec fn wf(&self) -> bool {
        &&& self.height() >= 1
        &&& self.width() >= 1
        &&& is_grid(self.rows(), self.height(), self.width())
        &&& self.cursor() < self.width()
    }

    /// An empty console of `n_columns` by `n_rows`.
    pub fn new(n_columns: usize, n_rows: usize) -> (r: Self)
        requires
            n_columns >= 1,
            n_rows >= 1,
            n_rows * n_columns <= isize::MAX,
        ensures
            r.wf(),
            r.width() == n_columns,
            r.height() == n_rows,
            r.rows() == blank_grid(n_rows as nat, n_columns as nat),
            r.cursor() == start_column(n_columns as nat),
    {
        let screen_bytes = matrix_filled(BLANK, n_rows, n_columns);
        proof {
            assert(matrix_rows(screen_bytes) =~~= blank_grid(n_rows as nat, n_columns as nat));
        }
        let cursor_idx = if n_columns > PROMPT_COLUMN {
            PROMPT_COLUMN
        } else {
            n_columns - 1
        };
        Computer { n_columns, n_rows, screen_bytes, cursor_idx }
    }

    /// The screen as text: rows joined by newlines, each byte shown by its
    /// code page glyph, the cursor as a solid block.
    pub fn get_screen(&self) -> (r: String)
        requires
            self.wf(),
        ensures
            r@ == screen_text(self.rows(), Some(self.cursor() as int)),
    {
        render(&self.screen_bytes, self.n_rows, self.n_columns, Some(self.cursor_idx))
    }

    /// Applies one key to the grid and the cursor.
    pub fn handle_keyboard_input(&mut self, key: &Key)
        requires
            old(self).wf(),
        ensures
            final(self).wf(),
            final(self).width() == old(self).width(),
            final(self).height() == old(self).height(),
            (final(self).rows(), final(self).cursor()) == key_effect(
                old(self).rows(),
                old(self).width(),
                old(self).cursor(),
                *key,
            ),
    {
        proof {
            lemma_key_keeps_cursor(self.rows(), self.height(), self.width(), self.cursor(), *key);
        }
        match key {
            Key::Enter => {
                self.shift_lines_up();
                self.cursor_idx = 0;
            },
            Key::Backspace => {
                if self.cursor_idx != 0 {
                    set_cell(&mut self.screen_bytes, self.n_rows - 1, self.cursor_idx, BLANK);
                    self.cursor_idx -= 1;
                }
            },
            Key::Character(input) => {
                if !input.as_str().is_empty() && !contains_control(input.as_str()) {
                    let typed_char = input.as_str().get_char(0);
                    self.type_byte(map_unicode_to_ibm_byte(typed_char));
                }
            },
            Key::Space => {
                self.type_byte(SPACE);
            },
            Key::Other => {},
        }
    }

    /// Writes `b` under the cursor and moves on, wrapping to a new line
    /// past the last column.
    fn type_byte(&mut self, b: u8)
        requires
            old(self).wf(),
        ensures
            final(self).wf(),
            final(self).n_columns == old(self).n_columns,
            final(self).n_rows == old(self).n_rows,
            (final(self).rows(), final(self).cursor()) == typed(
                old(self).rows(),
                old(self).width(),
                old(self).cursor(),
                b,
            ),
    {
        proof {
            lemma_typed_keeps_grid(self.rows(), self.height(), self.width(), self.cursor(), b);
        }
        set_cell(&mut self.screen_bytes, self.n_rows - 1, self.cursor_idx, b);
        if self.cursor_idx < self.n_columns - 1 {
            self.cursor_idx += 1;
        } else {
            self.shift_lines_up();
            self.cursor_idx = 0;
        }
    }

    /// Prints `output` line by line below the bottom row's text, and leaves
    /// the cursor at column 0 of a fresh row.
    pub(crate) fn print_text(&mut self, output: &str)
        requires
            old(self).wf(),
        ensures
            final(self).wf(),
            final(self).width() == old(self).width(),
            final(self).height() == old(self).height(),
            final(self).rows() == printed_lines(old(self).rows(), old(self).width(), text_lines(output@)),
            final(self).cursor() == 0,
    {
        let lines = split_lines(output);
        let ghost all = text_lines(output@);
        let ghost start = self.rows();
        let mut k: usize = 0;
        self.cursor_idx = 0;
        while k < lines.len()
            invariant
                self.wf(),
                self.width() == old(self).width(),
                self.height() == old(self).height(),
                start == old(self).rows(),
                k <= lines@.len(),
                lines.deep_view() == all,
                self.rows() == printed_lines(start, self.width(), all.take(k as int)),
                self.cursor() == 0,
            decreases lines.len() - k,
        {
            proof {
                assert(all.take(k as int + 1).drop_last() =~= all.take(k as int));
                assert(lines@[k as int].deep_view() =~= lines@[k as int]@);
            }
            self.print_line(&lines[k]);
            k += 1;
        }
        proof {
            assert(all.take(lines@.len() as int) =~= all);
        }
    }

    /// Prints one line from column 0 of the bottom row, wrapping as typing
    /// does, and scrolls past it.
    fn print_line(&mut self, line: &Vec<char>)
        requires
            old(self).wf(),
        ensures
            final(self).wf(),
            final(self).width() == old(self).width(),
            final(self).height() == old(self).height(),
            final(self).rows() == printed_line(old(self).rows(), old(self).width(), line@),
            final(self).cursor() == 0,
    {
        let ghost start = self.rows();
        let ghost bytes = line_bytes(line@);
        self.cursor_idx = 0;
        let mut k: usize = 0;
        while k < line.len()
            invariant
                self.wf(),
                self.width() == old(self).width(),
                self.height() == old(self).height(),
                start == old(self).rows(),
                k <= line@.len(),
                bytes == line_bytes(line@),
                (self.rows(), self.cursor()) == typed_bytes(start, self.width(), 0, bytes.take(k as int)),
            decreases line.len() - k,
        {
            proof {
                assert(bytes.take(k as int + 1).drop_last() =~= bytes.take(k as int));
            }
            let b = map_unicode_to_ibm_byte(line[k]);
            self.type_byte(b);
            k += 1;
        }
        proof {
            assert(bytes.take(line@.len() as int) =~= bytes);
        }
        if self.cursor_idx > 0 {
            self.shift_lines_up();
            self.cursor_idx = 0;
        }
    }

    fn shift_lines_up(&mut self)
        requires
            old(self).height() >= 1,
            old(self).width() >= 1,
            is_grid(old(self).rows(), old(self).height(), old(self).width()),
        ensures
            final(self).rows() == scrolled(old(self).rows(), old(self).width()),
            final(self).n_columns == old(self).n_columns,
            final(self).n_rows == old(self).n_rows,
            final(self).cursor_idx == old(self).cursor_idx,
    {
        shift_lines_up(&mut self.screen_bytes, self.n_rows, self.n_columns);
    }
}

} // verus!
