use retro_console::codepage::{map_ibm_byte_to_unicode, map_unicode_to_ibm_byte, FALLBACK_BYTE};

#[test]
fn every_glyph_maps_back_to_its_byte() {
    for b in 1..=255u8 {
        assert_eq!(map_unicode_to_ibm_byte(map_ibm_byte_to_unicode(b)), b, "byte {:#04x}", b);
    }
}

#[test]
fn blank_cell_shows_as_space() {
    assert_eq!(map_ibm_byte_to_unicode(0x00), ' ');
    assert_eq!(map_unicode_to_ibm_byte(' '), 0x20);
}

#[test]
fn ascii_keeps_its_place() {
    assert_eq!(map_ibm_byte_to_unicode(b'A'), 'A');
    assert_eq!(map_ibm_byte_to_unicode(b'~'), '~');
    assert_eq!(map_unicode_to_ibm_byte('z'), b'z');
}

#[test]
fn code_page_glyphs() {
    assert_eq!(map_ibm_byte_to_unicode(0x01), '☺');
    assert_eq!(map_ibm_byte_to_unicode(0x7F), '⌂');
    assert_eq!(map_ibm_byte_to_unicode(0x80), 'Ç');
    assert_eq!(map_ibm_byte_to_unicode(0xB3), '│');
    assert_eq!(map_ibm_byte_to_unicode(0xC9), '╔');
    assert_eq!(map_ibm_byte_to_unicode(0xDB), '█');
    assert_eq!(map_ibm_byte_to_unicode(0xE1), 'ß');
    assert_eq!(map_ibm_byte_to_unicode(0xFF), '\u{A0}');
    assert_eq!(map_unicode_to_ibm_byte('é'), 0x82);
    assert_eq!(map_unicode_to_ibm_byte('═'), 0xCD);
}

#[test]
fn characters_outside_the_code_page_fall_back() {
    assert_eq!(map_unicode_to_ibm_byte('€'), FALLBACK_BYTE);
    assert_eq!(map_unicode_to_ibm_byte('\u{1F600}'), b'?');
    assert_eq!(map_unicode_to_ibm_byte('\n'), b'?');
}
