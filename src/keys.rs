//! Key events as the console sees them, and what each does to the grid and
//! the cursor.
use vstd::prelude::*;

use crate::codepage::ibm_byte;
use crate::screen::{blank_row, is_grid, lemma_typed_keeps_grid, scrolled, typed, with_bottom_cell, BLANK, SPACE};
use crate::text::{chars_of, char_is_control, is_control_char};

verus! {

/// A key press.
#[derive(Debug)]
pub enum Key {
    /// Submits the line.
    Enter,
    /// Deletes under the cursor and steps back.
    Backspace,
    /// Text that the key produces; the first character is typed, unless
    /// the text is empty or holds a control character.
    Character(String),
    /// The space bar.
    Space,
    /// Any other key, which does nothing.
    Other,
}

/// `s` holds a control character.
pub open spec fn has_control(s: Seq<char>) -> bool {
    exists|i: int| 0 <= i < s.len() && is_control_char(#[trigger] s[i])
}

/// Text that types a character: not empty, and free of control
/// characters.
pub open spec fn types_text(s: Seq<char>) -> bool {
    s.len() > 0 && !has_control(s)
}

/// The grid and cursor after one key: Enter scrolls and returns to column
/// 0; Backspace away from column 0 blanks the cell under the cursor and
/// steps back; text that types a character, or the space bar, types one
/// byte; anything else, empty text included, changes nothing.
pub open spec fn key_effect(rows: Seq<Seq<u8>>, n_columns: nat, cursor: nat, key: Key) -> (Seq<Seq<u8>>, nat) {
    match key {
        Key::Enter => (scrolled(rows, n_columns), 0),
        Key::Backspace => if cursor != 0 {
            (with_bottom_cell(rows, cursor as int, BLANK), (cursor - 1) as nat)
        } else {
            (rows, cursor)
        },
        Key::Character(s) => if types_text(s@) {
            typed(rows, n_columns, cursor, ibm_byte(s@[0]))
        } else {
            (rows, cursor)
        },
        Key::Space => typed(rows, n_columns, cursor, SPACE),
        Key::Other => (rows, cursor),
    }
}

/// The grid and cursor after a sequence of keys, one after another.
pub open spec fn after_keys(rows: Seq<Seq<u8>>, n_columns: nat, cursor: nat, keys: Seq<Key>) -> (Seq<Seq<u8>>, nat)
    decreases keys.len(),
{
    if keys.len() == 0 {
        (rows, cursor)
    } else {
        let (r, c) = after_keys(rows, n_columns, cursor, keys.drop_last());
        key_effect(r, n_columns, c, keys.last())
    }
}

/// A key that types one byte: the space bar, or text without control
/// characters.
pub open spec fn is_printable(key: Key) -> bool {
    match key {
        Key::Character(s) => types_text(s@),
        Key::Space => true,
        _ => false,
    }
}

/// The byte that a printable key types.
pub open spec fn key_byte(key: Key) -> u8 {
    match key {
        Key::Character(s) => ibm_byte(s@[0]),
        _ => SPACE,
    }
}

/// The bytes that printable keys type, in order.
pub open spec fn keys_bytes(keys: Seq<Key>) -> Seq<u8> {
    keys.map_values(|k: Key| key_byte(k))
}

/// Typing `m` printable keys from column 0, short of the row's end, writes
/// their bytes at the start of the bottom row and leaves the cursor after
/// them, with no scroll.
proof fn lemma_typing_prefix(rows: Seq<Seq<u8>>, n_rows: nat, n_columns: nat, keys: Seq<Key>, m: nat)
    requires
        n_rows >= 1,
        is_grid(rows, n_rows, n_columns),
        m < n_columns,
        m <= keys.len(),
        forall|k: int| 0 <= k < keys.len() ==> is_printable(#[trigger] keys[k]),
    ensures
        after_keys(rows, n_columns, 0, keys.take(m as int)) == (
            rows.update(
                rows.len() - 1,
                Seq::new(n_columns, |j: int| if j < m { key_byte(keys[j]) } else { rows.last()[j] }),
            ),
            m,
        ),
    decreases m,
{
    let bottom = rows.len() - 1;
    if m == 0 {
        assert(keys.take(0) =~= Seq::<Key>::empty());
        assert(rows[bottom].len() == n_columns);
        assert(rows.update(bottom, Seq::new(n_columns, |j: int| if j < 0 { key_byte(keys[j]) } else { rows.last()[j] })) =~~= rows);
        assert(after_keys(rows, n_columns, 0, keys.take(0)) == (rows, 0nat));
    } else {
        lemma_typing_prefix(rows, n_rows, n_columns, keys, (m - 1) as nat);
        assert(keys.take(m as int).drop_last() =~= keys.take(m - 1));
        assert(keys.take(m as int).last() == keys[m - 1]);
        assert(is_printable(keys[m - 1]));
        let r = rows.update(
            bottom,
            Seq::new(n_columns, |j: int| if j < m - 1 { key_byte(keys[j]) } else { rows.last()[j] }),
        );
        assert(key_effect(r, n_columns, (m - 1) as nat, keys[m - 1]) == typed(
            r,
            n_columns,
            (m - 1) as nat,
            key_byte(keys[m - 1]),
        ));
        assert(after_keys(rows, n_columns, 0, keys.take(m as int)) == key_effect(r, n_columns, (m - 1) as nat, keys[m - 1]));
        assert(with_bottom_cell(r, m - 1, key_byte(keys[m - 1])) =~~= rows.update(
            bottom,
            Seq::new(n_columns, |j: int| if j < m { key_byte(keys[j]) } else { rows.last()[j] }),
        ));
    }
}

/// Keys one after another: the state after one more key is that key's
/// effect on the state before it.
pub proof fn lemma_after_keys_push(rows: Seq<Seq<u8>>, n_columns: nat, cursor: nat, keys: Seq<Key>, key: Key)
    ensures
        after_keys(rows, n_columns, cursor, keys.push(key)) == key_effect(
            after_keys(rows, n_columns, cursor, keys).0,
            n_columns,
            after_keys(rows, n_columns, cursor, keys).1,
            key,
        ),
{
    assert(keys.push(key).drop_last() =~= keys);
}

/// Typing as many printable keys as the row is wide, from column 0,
/// scrolls exactly once: the bottom row, filled with their bytes, moves up
/// one row, every row above it moves up one row, an empty row appears at
/// the bottom, and the cursor is back at column 0.
pub proof fn lemma_auto_wrap(rows: Seq<Seq<u8>>, n_rows: nat, n_columns: nat, keys: Seq<Key>)
    requires
        n_rows >= 1,
        n_columns >= 1,
        is_grid(rows, n_rows, n_columns),
        keys.len() == n_columns,
        forall|k: int| 0 <= k < keys.len() ==> is_printable(#[trigger] keys[k]),
    ensures
        after_keys(rows, n_columns, 0, keys) == (
            scrolled(rows.update(rows.len() - 1, keys_bytes(keys)), n_columns),
            0nat,
        ),
        after_keys(rows, n_columns, 0, keys).0.len() == n_rows,
        forall|i: int|
            0 <= i < n_rows - 2 ==> #[trigger] after_keys(rows, n_columns, 0, keys).0[i] == rows[i + 1],
        n_rows >= 2 ==> after_keys(rows, n_columns, 0, keys).0[n_rows - 2] == keys_bytes(keys),
        after_keys(rows, n_columns, 0, keys).0[n_rows - 1] == blank_row(n_columns),
        after_keys(rows, n_columns, 0, keys).1 == 0,
{
    let m = (n_columns - 1) as nat;
    lemma_typing_prefix(rows, n_rows, n_columns, keys, m);
    assert(keys.drop_last() =~= keys.take(m as int));
    assert(is_printable(keys[m as int]));
    let r = rows.update(
        rows.len() - 1,
        Seq::new(n_columns, |j: int| if j < m { key_byte(keys[j]) } else { rows.last()[j] }),
    );
    assert(key_effect(r, n_columns, m, keys[m as int]) == typed(r, n_columns, m, key_byte(keys[m as int])));
    assert(with_bottom_cell(r, m as int, key_byte(keys[m as int])) =~~= rows.update(
        rows.len() - 1,
        keys_bytes(keys),
    ));
}

/// Whether `s` holds a control character.
pub fn contains_control(s: &str) -> (r: bool)
    ensures
        r == has_control(s@),
{
    let chars = chars_of(s);
    let mut i: usize = 0;
    while i < chars.len()
        invariant
            i <= chars@.len(),
            chars@ == s@,
            forall|k: int| 0 <= k < i ==> !is_control_char(#[trigger] s@[k]),
        decreases chars.len() - i,
    {
        if char_is_control(chars[i]) {
            return true;
        }
        i += 1;
    }
    false
}

/// A key keeps the grid's shape and the cursor inside its row.
pub proof fn lemma_key_keeps_cursor(rows: Seq<Seq<u8>>, n_rows: nat, n_columns: nat, cursor: nat, key: Key)
    requires
        n_rows >= 1,
        is_grid(rows, n_rows, n_columns),
        cursor < n_columns,
    ensures
        is_grid(key_effect(rows, n_columns, cursor, key).0, n_rows, n_columns),
        key_effect(rows, n_columns, cursor, key).1 < n_columns,
{
    lemma_typed_keeps_grid(rows, n_rows, n_columns, cursor, SPACE);
    match key {
        Key::Character(s) => {
            if types_text(s@) {
                lemma_typed_keeps_grid(rows, n_rows, n_columns, cursor, ibm_byte(s@[0]));
            }
        },
        Key::Backspace => {
            lemma_typed_keeps_grid(rows, n_rows, n_columns, cursor, BLANK);
        },
        _ => {},
    }
}

/// The cursor stays inside the row whatever keys come: every state reached
/// from a valid one is valid.
pub proof fn lemma_keys_keep_cursor(rows: Seq<Seq<u8>>, n_rows: nat, n_columns: nat, cursor: nat, keys: Seq<Key>)
    requires
        n_rows >= 1,
        is_grid(rows, n_rows, n_columns),
        cursor < n_columns,
    ensures
        is_grid(after_keys(rows, n_columns, cursor, keys).0, n_rows, n_columns),
        after_keys(rows, n_columns, cursor, keys).1 < n_columns,
    decreases keys.len(),
{
    if keys.len() > 0 {
        let init = keys.drop_last();
        lemma_keys_keep_cursor(rows, n_rows, n_columns, cursor, init);
        let (r, c) = after_keys(rows, n_columns, cursor, init);
        lemma_key_keeps_cursor(r, n_rows, n_columns, c, keys.last());
    }
}

/// Backspace at column 0 changes neither the grid nor the cursor.
pub proof fn lemma_backspace_at_start(rows: Seq<Seq<u8>>, n_columns: nat)
    ensures
        key_effect(rows, n_columns, 0, Key::Backspace) == (rows, 0nat),
{
}

} // verus!
