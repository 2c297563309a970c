//! The command bridge: how a typed line becomes a program and its
//! arguments, and how what the program did becomes text for the screen.
//! Running the program is the host's part.
use vstd::prelude::*;
use vstd::utf8::{decode_utf8, valid_utf8};

use crate::text::{char_is_whitespace, chars_of, is_space_char, push_char, utf8_error_text, utf8_text};

verus! {

/// Words of `s` read so far, and the word under way.
pub open spec fn scan_words(s: Seq<char>) -> (Seq<Seq<char>>, Seq<char>)
    decreases s.len(),
{
    if s.len() == 0 {
        (Seq::empty(), Seq::empty())
    } else {
        let (done, word) = scan_words(s.drop_last());
        let c = s.last();
        if !is_space_char(c) {
            (done, word.push(c))
        } else if word.len() > 0 {
            (done.push(word), Seq::empty())
        } else {
            (done, word)
        }
    }
}

/// The maximal runs of non-white-space characters of `s`, in order.
pub open spec fn words(s: Seq<char>) -> Seq<Seq<char>> {
    let (done, word) = scan_words(s);
    if word.len() > 0 {
        done.push(word)
    } else {
        done
    }
}

/// `line` without one carriage return at its end.
pub open spec fn without_cr(line: Seq<char>) -> Seq<char> {
    if line.len() > 0 && line.last() == '\r' {
        line.drop_last()
    } else {
        line
    }
}

/// Lines of `s` ended so far, and the line under way.
pub open spec fn scan_lines(s: Seq<char>) -> (Seq<Seq<char>>, Seq<char>)
    decreases s.len(),
{
    if s.len() == 0 {
        (Seq::empty(), Seq::empty())
    } else {
        let (done, line) = scan_lines(s.drop_last());
        if s.last() == '\n' {
            (done.push(without_cr(line)), Seq::empty())
        } else {
            (done, line.push(s.last()))
        }
    }
}

/// The lines of `s`: split at each `\n`, a `\r` before it dropped, and no
/// empty line after a final `\n`.
pub open spec fn text_lines(s: Seq<char>) -> Seq<Seq<char>> {
    let (done, line) = scan_lines(s);
    if line.len() > 0 {
        done.push(line)
    } else {
        done
    }
}

/// What the console shows when a program cannot be started.
pub open spec fn failure_text() -> Seq<char> {
    "Failed to execute command"@
}

/// The failure text is never empty, so a command that cannot start always
/// leaves a visible line.
pub proof fn lemma_failure_text_visible()
    ensures
        failure_text().len() > 0,
{
    reveal_strlit("Failed to execute command");
}

/// The text that a command leaves: for one that could not start the
/// failure text; else its output decoded as UTF-8, or what the decoding
/// error says.
pub open spec fn outcome_text(outcome: Option<Seq<u8>>) -> Seq<char> {
    match outcome {
        None => failure_text(),
        Some(bytes) => if valid_utf8(bytes) {
            decode_utf8(bytes)
        } else {
            utf8_error_text(bytes)
        },
    }
}

/// A program to run, with its arguments.
#[derive(Debug)]
pub struct CommandLine {
    pub program: String,
    pub args: Vec<String>,
}

impl CommandLine {
    /// This is the command that `line` asks for: its first word names the
    /// program, the others are the arguments.
    pub open spec fn is_command_of(&self, line: Seq<char>) -> bool {
        &&& words(line).len() > 0
        &&& self.program@ == words(line)[0]
        &&& self.args.deep_view() == words(line).skip(1)
    }
}

/// The bridge to the programs of the host system.
pub struct OS;

impl OS {
    /// Splits a line into a program and its arguments at white space; a
    /// line of white space alone asks for nothing.
    pub fn parse_command(&self, input: &str) -> (r: Option<CommandLine>)
        ensures
            r is None <==> words(input@).len() == 0,
            r matches Some(c) ==> c.is_command_of(input@),
    {
        let mut found = split_words(input);
        if found.len() == 0 {
            None
        } else {
            let ghost all = found.deep_view();
            let program = found.remove(0);
            proof {
                assert(found.deep_view() =~= all.skip(1));
            }
            Some(CommandLine { program, args: found })
        }
    }

    /// The text that a command leaves on the screen: `None` when the
    /// program could not be started, else the bytes that it wrote.
    pub fn output_text(&self, outcome: Option<Vec<u8>>) -> (r: String)
        ensures
            r@ == outcome_text(
                match outcome {
                    Some(bytes) => Some(bytes@),
                    None => None::<Seq<u8>>,
                },
            ),
    {
        match outcome {
            Some(bytes) => utf8_text(bytes),
            None => String::from_str("Failed to execute command"),
        }
    }
}

/// The words of `input`.
pub fn split_words(input: &str) -> (r: Vec<String>)
    ensures
        r.deep_view() == words(input@),
{
    let chars = chars_of(input);
    let mut done: Vec<String> = Vec::new();
    let mut word = String::new();
    let mut i: usize = 0;
    while i < chars.len()
        invariant
            i <= chars@.len(),
            chars@ == input@,
            (done.deep_view(), word@) == scan_words(input@.take(i as int)),
        decreases chars.len() - i,
    {
        let c = chars[i];
        proof {
            assert(input@.take(i as int + 1).drop_last() =~= input@.take(i as int));
        }
        if !char_is_whitespace(c) {
            push_char(&mut word, c);
        } else if !word.as_str().is_empty() {
            let ghost before = done.deep_view();
            done.push(word);
            word = String::new();
            proof {
                assert(done.deep_view() =~= before.push(scan_words(input@.take(i as int)).1));
            }
        }
        i += 1;
    }
    proof {
        assert(input@.take(chars@.len() as int) =~= input@);
    }
    if !word.as_str().is_empty() {
        let ghost before = done.deep_view();
        let ghost last = word@;
        done.push(word);
        proof {
            assert(done.deep_view() =~= before.push(last));
        }
    }
    done
}

/// The lines of `text`.
pub fn split_lines(text: &str) -> (r: Vec<Vec<char>>)
    ensures
        r.deep_view() == text_lines(text@),
{
    let chars = chars_of(text);
    let mut done: Vec<Vec<char>> = Vec::new();
    let mut line: Vec<char> = Vec::new();
    let mut i: usize = 0;
    while i < chars.len()
        invariant
            i <= chars@.len(),
            chars@ == text@,
            (done.deep_view(), line@) == scan_lines(text@.take(i as int)),
        decreases chars.len() - i,
    {
        let c = chars[i];
        proof {
            assert(text@.take(i as int + 1).drop_last() =~= text@.take(i as int));
        }
        if c == '\n' {
            if line.len() > 0 && line[line.len() - 1] == '\r' {
                line.pop();
            }
            let ghost before = done.deep_view();
            let ghost ended = line@;
            done.push(line);
            line = Vec::new();
            proof {
                lemma_push_line(before, done, ended);
            }
        } else {
            line.push(c);
        }
        i += 1;
    }
    proof {
        assert(text@.take(chars@.len() as int) =~= text@);
    }
    if line.len() > 0 {
        let ghost before = done.deep_view();
        let ghost last = line@;
        done.push(line);
        proof {
            lemma_push_line(before, done, last);
        }
    }
    done
}

proof fn lemma_push_line(before: Seq<Seq<char>>, after: Vec<Vec<char>>, line: Seq<char>)
    requires
        after@.len() == before.len() + 1,
        forall|k: int| 0 <= k < before.len() ==> (#[trigger] after@[k]).deep_view() == before[k],
        after@[before.len() as int]@ == line,
    ensures
        after.deep_view() == before.push(line),
{
    let last = after@[before.len() as int];
    assert(last.deep_view() =~= last@);
    assert(after.deep_view() =~= before.push(line));
}

} // verus!
