//! Box-drawing glyphs of the code page, seen as the strokes that leave a
//! cell upward, downward, leftward and rightward, and the rule by which a
//! border drawn over a cell merges with the glyph already there.
use vstd::prelude::*;

use crate::screen::SPACE;

verus! {

/// A line leaving a cell on one side: none, single or double.
#[derive(PartialEq, Eq, Structural, Clone, Copy, Debug)]
pub enum Stroke {
    Empty,
    Single,
    Double,
}

/// The strokes of a glyph on its four sides.
#[derive(PartialEq, Eq, Structural, Clone, Copy, Debug)]
pub struct Arms {
    pub up: Stroke,
    pub down: Stroke,
    pub left: Stroke,
    pub right: Stroke,
}

/// The line style of a box's border.
#[derive(PartialEq, Eq, Structural, Clone, Copy, Debug)]
pub enum BoxStyle {
    Single,
    Double,
}

/// Where on a box's border a cell lies.
#[derive(PartialEq, Eq, Structural, Clone, Copy, Debug)]
pub enum BoxPart {
    TopLeft,
    Top,
    TopRight,
    Left,
    Right,
    BottomLeft,
    Bottom,
    BottomRight,
}

/// A box's rectangle, by its outermost rows and columns.
#[derive(PartialEq, Eq, Structural, Clone, Copy, Debug)]
pub struct Dimensions {
    pub top: usize,
    pub bottom: usize,
    pub left: usize,
    pub right: usize,
}

/// The strokes `up`, `down`, `left` and `right`.
pub open spec fn arms_of(up: Stroke, down: Stroke, left: Stroke, right: Stroke) -> Arms {
    Arms { up, down, left, right }
}

/// A glyph with no strokes: anything that is not a box-drawing glyph.
pub open spec fn no_arms() -> Arms {
    arms_of(Stroke::Empty, Stroke::Empty, Stroke::Empty, Stroke::Empty)
}

/// The strokes of the glyph of byte `b`.
pub open spec fn glyph_arms(b: u8) -> Arms {
    match b {
        0xB3 => arms_of(Stroke::Single, Stroke::Single, Stroke::Empty, Stroke::Empty), // │
        0xB4 => arms_of(Stroke::Single, Stroke::Single, Stroke::Single, Stroke::Empty), // ┤
        0xB5 => arms_of(Stroke::Single, Stroke::Single, Stroke::Double, Stroke::Empty), // ╡
        0xB6 => arms_of(Stroke::Double, Stroke::Double, Stroke::Single, Stroke::Empty), // ╢
        0xB7 => arms_of(Stroke::Empty, Stroke::Double, Stroke::Single, Stroke::Empty), // ╖
        0xB8 => arms_of(Stroke::Empty, Stroke::Single, Stroke::Double, Stroke::Empty), // ╕
        0xB9 => arms_of(Stroke::Double, Stroke::Double, Stroke::Double, Stroke::Empty), // ╣
        0xBA => arms_of(Stroke::Double, Stroke::Double, Stroke::Empty, Stroke::Empty), // ║
        0xBB => arms_of(Stroke::Empty, Stroke::Double, Stroke::Double, Stroke::Empty), // ╗
        0xBC => arms_of(Stroke::Double, Stroke::Empty, Stroke::Double, Stroke::Empty), // ╝
        0xBD => arms_of(Stroke::Double, Stroke::Empty, Stroke::Single, Stroke::Empty), // ╜
        0xBE => arms_of(Stroke::Single, Stroke::Empty, Stroke::Double, Stroke::Empty), // ╛
        0xBF => arms_of(Stroke::Empty, Stroke::Single, Stroke::Single, Stroke::Empty), // ┐
        0xC0 => arms_of(Stroke::Single, Stroke::Empty, Stroke::Empty, Stroke::Single), // └
        0xC1 => arms_of(Stroke::Single, Stroke::Empty, Stroke::Single, Stroke::Single), // ┴
        0xC2 => arms_of(Stroke::Empty, Stroke::Single, Stroke::Single, Stroke::Single), // ┬
        0xC3 => arms_of(Stroke::Single, Stroke::Single, Stroke::Empty, Stroke::Single), // ├
        0xC4 => arms_of(Stroke::Empty, Stroke::Empty, Stroke::Single, Stroke::Single), // ─
        0xC5 => arms_of(Stroke::Single, Stroke::Single, Stroke::Single, Stroke::Single), // ┼
        0xC6 => arms_of(Stroke::Single, Stroke::Single, Stroke::Empty, Stroke::Double), // ╞
        0xC7 => arms_of(Stroke::Double, Stroke::Double, Stroke::Empty, Stroke::Single), // ╟
        0xC8 => arms_of(Stroke::Double, Stroke::Empty, Stroke::Empty, Stroke::Double), // ╚
        0xC9 => arms_of(Stroke::Empty, Stroke::Double, Stroke::Empty, Stroke::Double), // ╔
        0xCA => arms_of(Stroke::Double, Stroke::Empty, Stroke::Double, Stroke::Double), // ╩
        0xCB => arms_of(Stroke::Empty, Stroke::Double, Stroke::Double, Stroke::Double), // ╦
        0xCC => arms_of(Stroke::Double, Stroke::Double, Stroke::Empty, Stroke::Double), // ╠
        0xCD => arms_of(Stroke::Empty, Stroke::Empty, Stroke::Double, Stroke::Double), // ═
        0xCE => arms_of(Stroke::Double, Stroke::Double, Stroke::Double, Stroke::Double), // ╬
        0xCF => arms_of(Stroke::Single, Stroke::Empty, Stroke::Double, Stroke::Double), // ╧
        0xD0 => arms_of(Stroke::Double, Stroke::Empty, Stroke::Single, Stroke::Single), // ╨
        0xD1 => arms_of(Stroke::Empty, Stroke::Single, Stroke::Double, Stroke::Double), // ╤
        0xD2 => arms_of(Stroke::Empty, Stroke::Double, Stroke::Single, Stroke::Single), // ╥
        0xD3 => arms_of(Stroke::Double, Stroke::Empty, Stroke::Empty, Stroke::Single), // ╙
        0xD4 => arms_of(Stroke::Single, Stroke::Empty, Stroke::Empty, Stroke::Double), // ╘
        0xD5 => arms_of(Stroke::Empty, Stroke::Single, Stroke::Empty, Stroke::Double), // ╒
        0xD6 => arms_of(Stroke::Empty, Stroke::Double, Stroke::Empty, Stroke::Single), // ╓
        0xD7 => arms_of(Stroke::Double, Stroke::Double, Stroke::Single, Stroke::Single), // ╫
        0xD8 => arms_of(Stroke::Single, Stroke::Single, Stroke::Double, Stroke::Double), // ╪
        0xD9 => arms_of(Stroke::Single, Stroke::Empty, Stroke::Single, Stroke::Empty), // ┘
        0xDA => arms_of(Stroke::Empty, Stroke::Single, Stroke::Empty, Stroke::Single), // ┌
        _ => no_arms(),
    }
}

/// The byte of the glyph with strokes `a`; a space where the code page has
/// no such glyph.
pub open spec fn arms_glyph(a: Arms) -> u8 {
    match (a.up, a.down, a.left, a.right) {
        (Stroke::Single, Stroke::Single, Stroke::Empty, Stroke::Empty) => 0xB3, // │
        (Stroke::Single, Stroke::Single, Stroke::Single, Stroke::Empty) => 0xB4, // ┤
        (Stroke::Single, Stroke::Single, Stroke::Double, Stroke::Empty) => 0xB5, // ╡
        (Stroke::Double, Stroke::Double, Stroke::Single, Stroke::Empty) => 0xB6, // ╢
        (Stroke::Empty, Stroke::Double, Stroke::Single, Stroke::Empty) => 0xB7, // ╖
        (Stroke::Empty, Stroke::Single, Stroke::Double, Stroke::Empty) => 0xB8, // ╕
        (Stroke::Double, Stroke::Double, Stroke::Double, Stroke::Empty) => 0xB9, // ╣
        (Stroke::Double, Stroke::Double, Stroke::Empty, Stroke::Empty) => 0xBA, // ║
        (Stroke::Empty, Stroke::Double, Stroke::Double, Stroke::Empty) => 0xBB, // ╗
        (Stroke::Double, Stroke::Empty, Stroke::Double, Stroke::Empty) => 0xBC, // ╝
        (Stroke::Double, Stroke::Empty, Stroke::Single, Stroke::Empty) => 0xBD, // ╜
        (Stroke::Single, Stroke::Empty, Stroke::Double, Stroke::Empty) => 0xBE, // ╛
        (Stroke::Empty, Stroke::Single, Stroke::Single, Stroke::Empty) => 0xBF, // ┐
        (Stroke::Single, Stroke::Empty, Stroke::Empty, Stroke::Single) => 0xC0, // └
        (Stroke::Single, Stroke::Empty, Stroke::Single, Stroke::Single) => 0xC1, // ┴
        (Stroke::Empty, Stroke::Single, Stroke::Single, Stroke::Single) => 0xC2, // ┬
        (Stroke::Single, Stroke::Single, Stroke::Empty, Stroke::Single) => 0xC3, // ├
        (Stroke::Empty, Stroke::Empty, Stroke::Single, Stroke::Single) => 0xC4, // ─
        (Stroke::Single, Stroke::Single, Stroke::Single, Stroke::Single) => 0xC5, // ┼
        (Stroke::Single, Stroke::Single, Stroke::Empty, Stroke::Double) => 0xC6, // ╞
        (Stroke::Double, Stroke::Double, Stroke::Empty, Stroke::Single) => 0xC7, // ╟
        (Stroke::Double, Stroke::Empty, Stroke::Empty, Stroke::Double) => 0xC8, // ╚
        (Stroke::Empty, Stroke::Double, Stroke::Empty, Stroke::Double) => 0xC9, // ╔
        (Stroke::Double, Stroke::Empty, Stroke::Double, Stroke::Double) => 0xCA, // ╩
        (Stroke::Empty, Stroke::Double, Stroke::Double, Stroke::Double) => 0xCB, // ╦
        (Stroke::Double, Stroke::Double, Stroke::Empty, Stroke::Double) => 0xCC, // ╠
        (Stroke::Empty, Stroke::Empty, Stroke::Double, Stroke::Double) => 0xCD, // ═
        (Stroke::Double, Stroke::Double, Stroke::Double, Stroke::Double) => 0xCE, // ╬
        (Stroke::Single, Stroke::Empty, Stroke::Double, Stroke::Double) => 0xCF, // ╧
        (Stroke::Double, Stroke::Empty, Stroke::Single, Stroke::Single) => 0xD0, // ╨
        (Stroke::Empty, Stroke::Single, Stroke::Double, Stroke::Double) => 0xD1, // ╤
        (Stroke::Empty, Stroke::Double, Stroke::Single, Stroke::Single) => 0xD2, // ╥
        (Stroke::Double, Stroke::Empty, Stroke::Empty, Stroke::Single) => 0xD3, // ╙
        (Stroke::Single, Stroke::Empty, Stroke::Empty, Stroke::Double) => 0xD4, // ╘
        (Stroke::Empty, Stroke::Single, Stroke::Empty, Stroke::Double) => 0xD5, // ╒
        (Stroke::Empty, Stroke::Double, Stroke::Empty, Stroke::Single) => 0xD6, // ╓
        (Stroke::Double, Stroke::Double, Stroke::Single, Stroke::Single) => 0xD7, // ╫
        (Stroke::Single, Stroke::Single, Stroke::Double, Stroke::Double) => 0xD8, // ╪
        (Stroke::Single, Stroke::Empty, Stroke::Single, Stroke::Empty) => 0xD9, // ┘
        (Stroke::Empty, Stroke::Single, Stroke::Empty, Stroke::Single) => 0xDA, // ┌
        _ => SPACE,
    }
}

/// The stroke that a box of `style` draws.
pub open spec fn style_stroke(style: BoxStyle) -> Stroke {
    match style {
        BoxStyle::Single => Stroke::Single,
        BoxStyle::Double => Stroke::Double,
    }
}

/// A stroke that reaches a corner from outside, redrawn in the corner's
/// stroke `s`; no stroke stays none.
pub open spec fn restyled(x: Stroke, s: Stroke) -> Stroke {
    if x == Stroke::Empty {
        x
    } else {
        s
    }
}

/// The strokes of a border cell drawn over a glyph with strokes `e`.
///
/// The part draws its own strokes in the box's style. An edge keeps the
/// stroke that reaches it from outside the box, whatever its style. A
/// corner keeps the strokes that reach it from outside, redrawn in the
/// box's style, so that it becomes a T or a cross of that style.
pub open spec fn merged_arms(e: Arms, part: BoxPart, style: BoxStyle) -> Arms {
    let s = style_stroke(style);
    let n = Stroke::Empty;
    match part {
        BoxPart::TopLeft => arms_of(restyled(e.up, s), s, restyled(e.left, s), s),
        BoxPart::Top => arms_of(e.up, n, s, s),
        BoxPart::TopRight => arms_of(restyled(e.up, s), s, s, restyled(e.right, s)),
        BoxPart::Left => arms_of(s, s, e.left, n),
        BoxPart::Right => arms_of(s, s, n, e.right),
        BoxPart::BottomLeft => arms_of(s, restyled(e.down, s), restyled(e.left, s), s),
        BoxPart::Bottom => arms_of(n, e.down, s, s),
        BoxPart::BottomRight => arms_of(s, restyled(e.down, s), s, restyled(e.right, s)),
    }
}

/// The glyph that a border part of the given style leaves in a cell that
/// held `existing`.
pub open spec fn merged_glyph(existing: u8, part: BoxPart, style: BoxStyle) -> u8 {
    arms_glyph(merged_arms(glyph_arms(existing), part, style))
}

/// Every merge lands on a glyph of the code page: the strokes that the
/// merged glyph shows are exactly the merged strokes.
pub proof fn lemma_merge_has_glyph(existing: u8, part: BoxPart, style: BoxStyle)
    ensures
        glyph_arms(merged_glyph(existing, part, style)) == merged_arms(glyph_arms(existing), part, style),
{
}

/// The box is not flat and lies inside a grid of `n_rows` by `n_columns`.
pub open spec fn fits(d: Dimensions, n_rows: nat, n_columns: nat) -> bool {
    &&& d.top < d.bottom
    &&& d.left < d.right
    &&& d.bottom < n_rows
    &&& d.right < n_columns
}

/// The cell `(row, column)` lies on the box or inside it.
pub open spec fn in_box(d: Dimensions, row: int, column: int) -> bool {
    d.top <= row <= d.bottom && d.left <= column <= d.right
}

/// The part of the border at `(row, column)`, or `None` inside the box.
pub open spec fn part_at(d: Dimensions, row: int, column: int) -> Option<BoxPart> {
    if row == d.top {
        if column == d.left {
            Some(BoxPart::TopLeft)
        } else if column == d.right {
            Some(BoxPart::TopRight)
        } else {
            Some(BoxPart::Top)
        }
    } else if row == d.bottom {
        if column == d.left {
            Some(BoxPart::BottomLeft)
        } else if column == d.right {
            Some(BoxPart::BottomRight)
        } else {
            Some(BoxPart::Bottom)
        }
    } else if column == d.left {
        Some(BoxPart::Left)
    } else if column == d.right {
        Some(BoxPart::Right)
    } else {
        None
    }
}

/// What a box leaves in the cell `(row, column)` that held `existing`:
/// outside it the cell is untouched, on its border the glyphs merge,
/// inside it the cell is cleared to a space.
pub open spec fn boxed_cell(existing: u8, d: Dimensions, row: int, column: int, style: BoxStyle) -> u8 {
    if !in_box(d, row, column) {
        existing
    } else {
        match part_at(d, row, column) {
            Some(part) => merged_glyph(existing, part, style),
            None => SPACE,
        }
    }
}

/// The grid with the box drawn on it.
pub open spec fn boxed(rows: Seq<Seq<u8>>, d: Dimensions, style: BoxStyle) -> Seq<Seq<u8>> {
    Seq::new(
        rows.len(),
        |i: int| Seq::new(rows[i].len(), |j: int| boxed_cell(rows[i][j], d, i, j, style)),
    )
}

/// The two boxes have no cell in common.
pub open spec fn apart(a: Dimensions, b: Dimensions) -> bool {
    a.bottom < b.top || b.bottom < a.top || a.right < b.left || b.right < a.left
}

/// Two boxes that share no cell do not disturb each other: after both are
/// drawn, each cell of either box holds what that box alone would have
/// left there.
pub proof fn lemma_apart_boxes(rows: Seq<Seq<u8>>, a: Dimensions, sa: BoxStyle, b: Dimensions, sb: BoxStyle)
    requires
        apart(a, b),
    ensures
        forall|i: int, j: int|
            0 <= i < rows.len() && 0 <= j < rows[i].len() && in_box(a, i, j) ==> (#[trigger] boxed(
                boxed(rows, a, sa),
                b,
                sb,
            )[i][j]) == boxed(rows, a, sa)[i][j],
        forall|i: int, j: int|
            0 <= i < rows.len() && 0 <= j < rows[i].len() && in_box(b, i, j) ==> (#[trigger] boxed(
                boxed(rows, a, sa),
                b,
                sb,
            )[i][j]) == boxed(rows, b, sb)[i][j],
{
}

/// The part of the border at `(row, column)`, or `None` inside the box.
fn part_at_cell(d: &Dimensions, row: usize, column: usize) -> (r: Option<BoxPart>)
    ensures
        r == part_at(*d, row as int, column as int),
{
    if row == d.top {
        if column == d.left {
            Some(BoxPart::TopLeft)
        } else if column == d.right {
            Some(BoxPart::TopRight)
        } else {
            Some(BoxPart::Top)
        }
    } else if row == d.bottom {
        if column == d.left {
            Some(BoxPart::BottomLeft)
        } else if column == d.right {
            Some(BoxPart::BottomRight)
        } else {
            Some(BoxPart::Bottom)
        }
    } else if column == d.left {
        Some(BoxPart::Left)
    } else if column == d.right {
        Some(BoxPart::Right)
    } else {
        None
    }
}

/// What a box leaves in a cell on it or inside it that held `existing`.
pub fn box_cell(existing: u8, d: &Dimensions, row: usize, column: usize, style: BoxStyle) -> (r: u8)
    requires
        in_box(*d, row as int, column as int),
    ensures
        r == boxed_cell(existing, *d, row as int, column as int, style),
{
    match part_at_cell(d, row, column) {
        Some(part) => merge_glyph(existing, part, style),
        None => SPACE,
    }
}

fn make_arms(up: Stroke, down: Stroke, left: Stroke, right: Stroke) -> (r: Arms)
    ensures
        r == arms_of(up, down, left, right),
{
    Arms { up, down, left, right }
}

/// The strokes of the glyph of byte `b`.
pub fn arms_of_glyph(b: u8) -> (r: Arms)
    ensures
        r == glyph_arms(b),
{
    match b {
        0xB3 => make_arms(Stroke::Single, Stroke::Single, Stroke::Empty, Stroke::Empty), // │
        0xB4 => make_arms(Stroke::Single, Stroke::Single, Stroke::Single, Stroke::Empty), // ┤
        0xB5 => make_arms(Stroke::Single, Stroke::Single, Stroke::Double, Stroke::Empty), // ╡
        0xB6 => make_arms(Stroke::Double, Stroke::Double, Stroke::Single, Stroke::Empty), // ╢
        0xB7 => make_arms(Stroke::Empty, Stroke::Double, Stroke::Single, Stroke::Empty), // ╖
        0xB8 => make_arms(Stroke::Empty, Stroke::Single, Stroke::Double, Stroke::Empty), // ╕
        0xB9 => make_arms(Stroke::Double, Stroke::Double, Stroke::Double, Stroke::Empty), // ╣
        0xBA => make_arms(Stroke::Double, Stroke::Double, Stroke::Empty, Stroke::Empty), // ║
        0xBB => make_arms(Stroke::Empty, Stroke::Double, Stroke::Double, Stroke::Empty), // ╗
        0xBC => make_arms(Stroke::Double, Stroke::Empty, Stroke::Double, Stroke::Empty), // ╝
        0xBD => make_arms(Stroke::Double, Stroke::Empty, Stroke::Single, Stroke::Empty), // ╜
        0xBE => make_arms(Stroke::Single, Stroke::Empty, Stroke::Double, Stroke::Empty), // ╛
        0xBF => make_arms(Stroke::Empty, Stroke::Single, Stroke::Single, Stroke::Empty), // ┐
        0xC0 => make_arms(Stroke::Single, Stroke::Empty, Stroke::Empty, Stroke::Single), // └
        0xC1 => make_arms(Stroke::Single, Stroke::Empty, Stroke::Single, Stroke::Single), // ┴
        0xC2 => make_arms(Stroke::Empty, Stroke::Single, Stroke::Single, Stroke::Single), // ┬
        0xC3 => make_arms(Stroke::Single, Stroke::Single, Stroke::Empty, Stroke::Single), // ├
        0xC4 => make_arms(Stroke::Empty, Stroke::Empty, Stroke::Single, Stroke::Single), // ─
        0xC5 => make_arms(Stroke::Single, Stroke::Single, Stroke::Single, Stroke::Single), // ┼
        0xC6 => make_arms(Stroke::Single, Stroke::Single, Stroke::Empty, Stroke::Double), // ╞
        0xC7 => make_arms(Stroke::Double, Stroke::Double, Stroke::Empty, Stroke::Single), // ╟
        0xC8 => make_arms(Stroke::Double, Stroke::Empty, Stroke::Empty, Stroke::Double), // ╚
        0xC9 => make_arms(Stroke::Empty, Stroke::Double, Stroke::Empty, Stroke::Double), // ╔
        0xCA => make_arms(Stroke::Double, Stroke::Empty, Stroke::Double, Stroke::Double), // ╩
        0xCB => make_arms(Stroke::Empty, Stroke::Double, Stroke::Double, Stroke::Double), // ╦
        0xCC => make_arms(Stroke::Double, Stroke::Double, Stroke::Empty, Stroke::Double), // ╠
        0xCD => make_arms(Stroke::Empty, Stroke::Empty, Stroke::Double, Stroke::Double), // ═
        0xCE => make_arms(Stroke::Double, Stroke::Double, Stroke::Double, Stroke::Double), // ╬
        0xCF => make_arms(Stroke::Single, Stroke::Empty, Stroke::Double, Stroke::Double), // ╧
        0xD0 => make_arms(Stroke::Double, Stroke::Empty, Stroke::Single, Stroke::Single), // ╨
        0xD1 => make_arms(Stroke::Empty, Stroke::Single, Stroke::Double, Stroke::Double), // ╤
        0xD2 => make_arms(Stroke::Empty, Stroke::Double, Stroke::Single, Stroke::Single), // ╥
        0xD3 => make_arms(Stroke::Double, Stroke::Empty, Stroke::Empty, Stroke::Single), // ╙
        0xD4 => make_arms(Stroke::Single, Stroke::Empty, Stroke::Empty, Stroke::Double), // ╘
        0xD5 => make_arms(Stroke::Empty, Stroke::Single, Stroke::Empty, Stroke::Double), // ╒
        0xD6 => make_arms(Stroke::Empty, Stroke::Double, Stroke::Empty, Stroke::Single), // ╓
        0xD7 => make_arms(Stroke::Double, Stroke::Double, Stroke::Single, Stroke::Single), // ╫
        0xD8 => make_arms(Stroke::Single, Stroke::Single, Stroke::Double, Stroke::Double), // ╪
        0xD9 => make_arms(Stroke::Single, Stroke::Empty, Stroke::Single, Stroke::Empty), // ┘
        0xDA => make_arms(Stroke::Empty, Stroke::Single, Stroke::Empty, Stroke::Single), // ┌
        _ => make_arms(Stroke::Empty, Stroke::Empty, Stroke::Empty, Stroke::Empty),
    }
}

/// The byte of the glyph with strokes `a`, or a space.
pub fn glyph_of_arms(a: Arms) -> (r: u8)
    ensures
        r == arms_glyph(a),
{
    match (a.up, a.down, a.left, a.right) {
        (Stroke::Single, Stroke::Single, Stroke::Empty, Stroke::Empty) => 0xB3, // │
        (Stroke::Single, Stroke::Single, Stroke::Single, Stroke::Empty) => 0xB4, // ┤
        (Stroke::Single, Stroke::Single, Stroke::Double, Stroke::Empty) => 0xB5, // ╡
        (Stroke::Double, Stroke::Double, Stroke::Single, Stroke::Empty) => 0xB6, // ╢
        (Stroke::Empty, Stroke::Double, Stroke::Single, Stroke::Empty) => 0xB7, // ╖
        (Stroke::Empty, Stroke::Single, Stroke::Double, Stroke::Empty) => 0xB8, // ╕
        (Stroke::Double, Stroke::Double, Stroke::Double, Stroke::Empty) => 0xB9, // ╣
        (Stroke::Double, Stroke::Double, Stroke::Empty, Stroke::Empty) => 0xBA, // ║
        (Stroke::Empty, Stroke::Double, Stroke::Double, Stroke::Empty) => 0xBB, // ╗
        (Stroke::Double, Stroke::Empty, Stroke::Double, Stroke::Empty) => 0xBC, // ╝
        (Stroke::Double, Stroke::Empty, Stroke::Single, Stroke::Empty) => 0xBD, // ╜
        (Stroke::Single, Stroke::Empty, Stroke::Double, Stroke::Empty) => 0xBE, // ╛
        (Stroke::Empty, Stroke::Single, Stroke::Single, Stroke::Empty) => 0xBF, // ┐
        (Stroke::Single, Stroke::Empty, Stroke::Empty, Stroke::Single) => 0xC0, // └
        (Stroke::Single, Stroke::Empty, Stroke::Single, Stroke::Single) => 0xC1, // ┴
        (Stroke::Empty, Stroke::Single, Stroke::Single, Stroke::Single) => 0xC2, // ┬
        (Stroke::Single, Stroke::Single, Stroke::Empty, Stroke::Single) => 0xC3, // ├
        (Stroke::Empty, Stroke::Empty, Stroke::Single, Stroke::Single) => 0xC4, // ─
        (Stroke::Single, Stroke::Single, Stroke::Single, Stroke::Single) => 0xC5, // ┼
        (Stroke::Single, Stroke::Single, Stroke::Empty, Stroke::Double) => 0xC6, // ╞
        (Stroke::Double, Stroke::Double, Stroke::Empty, Stroke::Single) => 0xC7, // ╟
        (Stroke::Double, Stroke::Empty, Stroke::Empty, Stroke::Double) => 0xC8, // ╚
        (Stroke::Empty, Stroke::Double, Stroke::Empty, Stroke::Double) => 0xC9, // ╔
        (Stroke::Double, Stroke::Empty, Stroke::Double, Stroke::Double) => 0xCA, // ╩
        (Stroke::Empty, Stroke::Double, Stroke::Double, Stroke::Double) => 0xCB, // ╦
        (Stroke::Double, Stroke::Double, Stroke::Empty, Stroke::Double) => 0xCC, // ╠
        (Stroke::Empty, Stroke::Empty, Stroke::Double, Stroke::Double) => 0xCD, // ═
        (Stroke::Double, Stroke::Double, Stroke::Double, Stroke::Double) => 0xCE, // ╬
        (Stroke::Single, Stroke::Empty, Stroke::Double, Stroke::Double) => 0xCF, // ╧
        (Stroke::Double, Stroke::Empty, Stroke::Single, Stroke::Single) => 0xD0, // ╨
        (Stroke::Empty, Stroke::Single, Stroke::Double, Stroke::Double) => 0xD1, // ╤
        (Stroke::Empty, Stroke::Double, Stroke::Single, Stroke::Single) => 0xD2, // ╥
        (Stroke::Double, Stroke::Empty, Stroke::Empty, Stroke::Single) => 0xD3, // ╙
        (Stroke::Single, Stroke::Empty, Stroke::Empty, Stroke::Double) => 0xD4, // ╘
        (Stroke::Empty, Stroke::Single, Stroke::Empty, Stroke::Double) => 0xD5, // ╒
        (Stroke::Empty, Stroke::Double, Stroke::Empty, Stroke::Single) => 0xD6, // ╓
        (Stroke::Double, Stroke::Double, Stroke::Single, Stroke::Single) => 0xD7, // ╫
        (Stroke::Single, Stroke::Single, Stroke::Double, Stroke::Double) => 0xD8, // ╪
        (Stroke::Single, Stroke::Empty, Stroke::Single, Stroke::Empty) => 0xD9, // ┘
        (Stroke::Empty, Stroke::Single, Stroke::Empty, Stroke::Single) => 0xDA, // ┌
        _ => SPACE,
    }
}

fn restyle(x: Stroke, s: Stroke) -> (r: Stroke)
    ensures
        r == restyled(x, s),
{
    if x == Stroke::Empty {
        x
    } else {
        s
    }
}

/// The strokes of a border cell drawn over a glyph with strokes `e`.
pub fn merge_arms(e: Arms, part: BoxPart, style: BoxStyle) -> (r: Arms)
    ensures
        r == merged_arms(e, part, style),
{
    let s = match style {
        BoxStyle::Single => Stroke::Single,
        BoxStyle::Double => Stroke::Double,
    };
    let n = Stroke::Empty;
    match part {
        BoxPart::TopLeft => make_arms(restyle(e.up, s), s, restyle(e.left, s), s),
        BoxPart::Top => make_arms(e.up, n, s, s),
        BoxPart::TopRight => make_arms(restyle(e.up, s), s, s, restyle(e.right, s)),
        BoxPart::Left => make_arms(s, s, e.left, n),
        BoxPart::Right => make_arms(s, s, n, e.right),
        BoxPart::BottomLeft => make_arms(s, restyle(e.down, s), restyle(e.left, s), s),
        BoxPart::Bottom => make_arms(n, e.down, s, s),
        BoxPart::BottomRight => make_arms(s, restyle(e.down, s), s, restyle(e.right, s)),
    }
}

/// The glyph that a border part of the given style leaves in a cell that
/// held `existing`.
pub fn merge_glyph(existing: u8, part: BoxPart, style: BoxStyle) -> (r: u8)
    ensures
        r == merged_glyph(existing, part, style),
{
    glyph_of_arms(merge_arms(arms_of_glyph(existing), part, style))
}

} // verus!
