use retro_console::box_drawing::{merge_glyph, BoxPart, BoxStyle};
use retro_console::codepage::{map_ibm_byte_to_unicode, map_unicode_to_ibm_byte};

/// Every box-drawing glyph of the code page, then two cells that hold none.
const CELLS: &str = "─│┌┐└┘├┤┬┴┼═║╒╓╔╕╖╗╘╙╚╛╜╝╞╟╠╡╢╣╤╥╦╧╨╩╪╫╬ x";

fn merged(existing: char, part: BoxPart, style: BoxStyle) -> char {
    map_ibm_byte_to_unicode(merge_glyph(map_unicode_to_ibm_byte(existing), part, style))
}

/// Checks `part` in `style` over every cell: the glyphs of `joined` become
/// the paired glyph, every other cell becomes `plain`.
fn check_table(part: BoxPart, style: BoxStyle, joined: &[(&str, char)], plain: char) {
    for existing in CELLS.chars() {
        let expected = joined
            .iter()
            .find(|(from, _)| from.contains(existing))
            .map(|(_, to)| *to)
            .unwrap_or(plain);
        assert_eq!(merged(existing, part, style), expected, "cell {:?}", existing);
    }
}

#[test]
fn junctions_top_left_single() {
    check_table(BoxPart::TopLeft, BoxStyle::Single, &[("│║└├╞╟╚╠╙╘", '├'), ("┤╡╢╣╝╜╛┴┼╩╬╧╨╫╪┘", '┼'), ("╖╕╗┐┬─╦═╤╥", '┬')], '┌');
}

#[test]
fn junctions_top_left_double() {
    check_table(BoxPart::TopLeft, BoxStyle::Double, &[("│║└├╞╟╚╠╙╘", '╠'), ("┤╡╢╣╝╜╛┴┼╩╬╧╨╫╪┘", '╬'), ("╖╕╗┐┬─╦═╤╥", '╦')], '╔');
}

#[test]
fn junctions_top_single() {
    check_table(BoxPart::Top, BoxStyle::Single, &[("│┤╡╛└┴├┼╞╧╘╪┘", '┴'), ("╢╣║╝╜╟╚╩╠╬╨╙╫", '╨')], '─');
}

#[test]
fn junctions_top_double() {
    check_table(BoxPart::Top, BoxStyle::Double, &[("│┤╡╛└┴├┼╞╧╘╪┘", '╧'), ("╢╣║╝╜╟╚╩╠╬╨╙╫", '╩')], '═');
}

#[test]
fn junctions_top_right_single() {
    check_table(BoxPart::TopRight, BoxStyle::Single, &[("│┤╡╢╣║╝╜╛┘", '┤'), ("└┴├┼╞╟╚╩╠╬╧╨╙╘╫╪", '┼'), ("┬─╔╦═╤╥╒╓┌", '┬')], '┐');
}

#[test]
fn junctions_top_right_double() {
    check_table(BoxPart::TopRight, BoxStyle::Double, &[("│┤╡╢╣║╝╜╛┘", '╣'), ("└┴├┼╞╟╚╩╠╬╧╨╙╘╫╪", '╬'), ("┬─╔╦═╤╥╒╓┌", '╦')], '╗');
}

#[test]
fn junctions_left_single() {
    check_table(BoxPart::Left, BoxStyle::Single, &[("┤╢╖╜┐┴┬─┼╨╥╫┘", '┤'), ("╡╕╣╗╝╛╩╦═╬╧╤╪", '╡')], '│');
}

#[test]
fn junctions_left_double() {
    check_table(BoxPart::Left, BoxStyle::Double, &[("┤╢╖╜┐┴┬─┼╨╥╫┘", '╢'), ("╡╕╣╗╝╛╩╦═╬╧╤╪", '╣')], '║');
}

#[test]
fn junctions_right_single() {
    check_table(BoxPart::Right, BoxStyle::Single, &[("└┴┬├─┼╟╨╥╙╓╫┌", '├'), ("╞╚╔╩╦╠═╬╧╤╘╒╪", '╞')], '│');
}

#[test]
fn junctions_right_double() {
    check_table(BoxPart::Right, BoxStyle::Double, &[("└┴┬├─┼╟╨╥╙╓╫┌", '╟'), ("╞╚╔╩╦╠═╬╧╤╘╒╪", '╠')], '║');
}

#[test]
fn junctions_bottom_left_single() {
    check_table(BoxPart::BottomLeft, BoxStyle::Single, &[("│║├╞╟╔╠╒╓┌", '├'), ("┤╡╢╖╕╣╗┐┬┼╦╬╤╥╫╪", '┼'), ("╝╜╛┴─╩═╧╨┘", '┴')], '└');
}

#[test]
fn junctions_bottom_left_double() {
    check_table(BoxPart::BottomLeft, BoxStyle::Double, &[("│║├╞╟╔╠╒╓┌", '╠'), ("┤╡╢╖╕╣╗┐┬┼╦╬╤╥╫╪", '╬'), ("╝╜╛┴─╩═╧╨┘", '╩')], '╚');
}

#[test]
fn junctions_bottom_single() {
    check_table(BoxPart::Bottom, BoxStyle::Single, &[("│┤╡╕┐┬├┼╞╤╒╪┌", '┬'), ("╢╖╣║╗╟╔╦╠╬╥╓╫", '╥')], '─');
}

#[test]
fn junctions_bottom_double() {
    check_table(BoxPart::Bottom, BoxStyle::Double, &[("│┤╡╕┐┬├┼╞╤╒╪┌", '╤'), ("╢╖╣║╗╟╔╦╠╬╥╓╫", '╦')], '═');
}

#[test]
fn junctions_bottom_right_single() {
    check_table(BoxPart::BottomRight, BoxStyle::Single, &[("│┤╡╢╖╕╣║╗┐", '┤'), ("└┴─╚╩═╧╨╙╘", '┴'), ("┬├┼╞╟╔╦╠╬╤╥╒╓╫╪┌", '┼')], '┘');
}

#[test]
fn junctions_bottom_right_double() {
    check_table(BoxPart::BottomRight, BoxStyle::Double, &[("│┤╡╢╖╕╣║╗┐", '╣'), ("└┴─╚╩═╧╨╙╘", '╩'), ("┬├┼╞╟╔╦╠╬╤╥╒╓╫╪┌", '╬')], '╝');
}
