//! A console that runs commands: keys edit both the grid and an input line,
//! Enter hands the line over as a command, and the command's outcome is
//! printed back into the grid.
use vstd::prelude::*;

use crate::computer::{blank_grid, start_column, Computer};
use crate::keys::{contains_control, key_effect, types_text, Key};
use crate::os::{outcome_text, text_lines, words, CommandLine, OS};
use crate::screen::{is_grid, printed_lines, screen_text};
use crate::text::{pop_char, push_char};

verus! {

/// The input line after one key: Enter clears it; Backspace drops its last
/// character, if any; text that types a character adds its first
/// character; the space bar adds a space.
pub open spec fn input_effect(input: Seq<char>, key: Key) -> Seq<char> {
    match key {
        Key::Enter => Seq::empty(),
        Key::Backspace => if input.len() > 0 {
            input.drop_last()
        } else {
            input
        },
        Key::Character(s) => if types_text(s@) {
            input.push(s@[0])
        } else {
            input
        },
        Key::Space => input.push(' '),
        Key::Other => input,
    }
}

/// A console with an input line that Enter submits as a command.
pub struct Terminal {
    console: Computer,
    input_buffer: String,
    os: OS,
}

impl Terminal {
    /// The rows of the screen, top to bottom.
    pub closed spec fn rows(&self) -> Seq<Seq<u8>> {
        self.console.rows()
    }

    /// The cursor's column on the bottom row.
    pub closed spec fn cursor(&self) -> nat {
        self.console.cursor()
    }

    /// The number of columns.
    pub closed spec fn width(&self) -> nat {
        self.console.width()
    }

    /// The number of rows.
    pub closed spec fn height(&self) -> nat {
        self.console.height()
    }

    /// The line typed since the last Enter.
    pub closed spec fn input(&self) -> Seq<char> {
        self.input_buffer@
    }

    /// The screen is well formed, as that of a `Computer`.
    pub closed spec fn wf(&self) -> bool {
        self.console.wf()
    }

    /// A well-formed terminal has `height()` rows of `width()` cells, at
    /// least one of each, and its cursor inside the bottom row.
    pub proof fn lemma_wf_shape(&self)
        requires
            self.wf(),
        ensures
            is_grid(self.rows(), self.height(), self.width()),
            self.height() >= 1,
            self.width() >= 1,
            self.cursor() < self.width(),
    {
    }

    /// An empty terminal of `n_columns` by `n_rows` with an empty input line.
    pub fn new(n_columns: usize, n_rows: usize) -> (r: Self)
        requires
            n_columns >= 1,
            n_rows >= 1,
            n_rows * n_columns <= isize::MAX,
        ensures
            r.wf(),
            r.width() == n_columns,
            r.height() == n_rows,
            r.rows() == blank_grid(n_rows as nat, n_columns as nat),
            r.cursor() == start_column(n_columns as nat),
            r.input() == Seq::<char>::empty(),
    {
        Terminal { console: Computer::new(n_columns, n_rows), input_buffer: String::new(), os: OS }
    }

    /// The screen as text, as `Computer::get_screen` shows it.
    pub fn get_screen(&self) -> (r: String)
        requires
            self.wf(),
        ensures
            r@ == screen_text(self.rows(), Some(self.cursor() as int)),
    {
        self.console.get_screen()
    }

    /// Applies one key to the grid, the cursor and the input line. On Enter
    /// it returns the command that the submitted line asks for, if any; the
    /// caller runs it and hands its outcome to `finish_command`.
    pub fn handle_keyboard_input(&mut self, key: &Key) -> (r: Option<CommandLine>)
        requires
            old(self).wf(),
        ensures
            final(self).wf(),
            final(self).width() == old(self).width(),
            final(self).height() == old(self).height(),
            (final(self).rows(), final(self).cursor()) == key_effect(
                old(self).rows(),
                old(self).width(),
                old(self).cursor(),
                *key,
            ),
            final(self).input() == input_effect(old(self).input(), *key),
            *key is Enter ==> (r is None <==> words(old(self).input()).len() == 0),
            r matches Some(c) ==> *key is Enter && c.is_command_of(old(self).input()),
            !(*key is Enter) ==> r is None,
    {
        let mut command: Option<CommandLine> = None;
        match key {
            Key::Enter => {
                command = self.os.parse_command(self.input_buffer.as_str());
                self.input_buffer = String::new();
            },
            Key::Backspace => {
                let _ = pop_char(&mut self.input_buffer);
            },
            Key::Character(input) => {
                if !input.as_str().is_empty() && !contains_control(input.as_str()) {
                    push_char(&mut self.input_buffer, input.as_str().get_char(0));
                }
            },
            Key::Space => {
                push_char(&mut self.input_buffer, ' ');
            },
            Key::Other => {},
        }
        self.console.handle_keyboard_input(key);
        command
    }

    /// Prints what a command left: `None` when its program could not be
    /// started, else the bytes that it wrote. Each line of the text is
    /// written from column 0 of the bottom row, wrapping at the last
    /// column, and the cursor ends at column 0 of a fresh row.
    pub fn finish_command(&mut self, outcome: Option<Vec<u8>>)
        requires
            old(self).wf(),
        ensures
            final(self).wf(),
            final(self).width() == old(self).width(),
            final(self).height() == old(self).height(),
            final(self).rows() == printed_lines(
                old(self).rows(),
                old(self).width(),
                text_lines(
                    outcome_text(
                        match outcome {
                            Some(bytes) => Some(bytes@),
                            None => None::<Seq<u8>>,
                        },
                    ),
                ),
            ),
            final(self).cursor() == 0,
            final(self).input() == old(self).input(),
    {
        let text = self.os.output_text(outcome);
        self.console.print_text(text.as_str());
    }
}

} // verus!
