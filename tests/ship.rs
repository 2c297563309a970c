use retro_console::{BoxStyle, Dimensions, Key, ShipOS};

fn screen_lines(s: &ShipOS) -> Vec<String> {
    s.get_screen().split('\n').map(|l| l.to_string()).collect()
}

#[test]
fn panels_of_the_ship_screen() {
    let ship = ShipOS::new(80, 25);
    let lines = screen_lines(&ship);
    assert_eq!(lines.len(), 25);
    assert!(lines.iter().all(|l| l.chars().count() == 80));
    assert_eq!(lines[0], format!("  ┌{}┐{}", "─".repeat(27), " ".repeat(49)));
    assert_eq!(lines[1], format!("  │{}│{}", " ".repeat(27), " ".repeat(49)));
    assert_eq!(
        lines[5],
        format!("  │{}╔{}╧{}╗{}", " ".repeat(17), "═".repeat(9), "═".repeat(39), " ".repeat(9))
    );
    assert_eq!(lines[7], format!("  │{}║{}║{}", " ".repeat(17), " ".repeat(49), " ".repeat(9)));
    assert_eq!(lines[10], format!("  └{}╢{}║{}", "─".repeat(17), " ".repeat(49), " ".repeat(9)));
    assert_eq!(lines[11], format!("{}║{}║{}", " ".repeat(20), " ".repeat(49), " ".repeat(9)));
    assert_eq!(lines[20], format!("{}╚{}╝{}", " ".repeat(20), "═".repeat(49), " ".repeat(9)));
    assert_eq!(lines[24], " ".repeat(80));
}

#[test]
fn overlapping_panels_junction_cells() {
    let ship = ShipOS::new(80, 25);
    let lines: Vec<Vec<char>> = screen_lines(&ship).iter().map(|l| l.chars().collect()).collect();
    // Inside the first box the second box's corner is a plain corner.
    assert_eq!(lines[5][20], '╔');
    // The first box's single right border meets the second box's double top edge.
    assert_eq!(lines[5][30], '╧');
    // The first box's single bottom edge meets the second box's double left border.
    assert_eq!(lines[10][20], '╢');
    // The second box cleared the part of the first box inside it.
    assert_eq!(lines[8][30], ' ');
    assert_eq!(lines[10][25], ' ');
}

#[test]
fn keys_leave_the_ship_screen_alone() {
    let mut ship = ShipOS::new(80, 25);
    let before = ship.get_screen();
    ship.handle_keyboard_input(&Key::Enter);
    ship.handle_keyboard_input(&Key::Character("x".to_string()));
    assert_eq!(ship.get_screen(), before);
}

fn bottom_corner(ship: &ShipOS) -> Vec<String> {
    screen_lines(ship)[21..25].to_vec()
}

#[test]
fn boxes_apart_do_not_disturb_each_other() {
    let a = Dimensions { top: 21, bottom: 23, left: 0, right: 5 };
    let b = Dimensions { top: 21, bottom: 24, left: 7, right: 15 };
    let mut both = ShipOS::new(80, 25);
    both.draw_box(a, BoxStyle::Single);
    both.draw_box(b, BoxStyle::Double);
    let mut only_a = ShipOS::new(80, 25);
    only_a.draw_box(a, BoxStyle::Single);
    let mut only_b = ShipOS::new(80, 25);
    only_b.draw_box(b, BoxStyle::Double);
    let both_rows = bottom_corner(&both);
    let a_rows = bottom_corner(&only_a);
    let b_rows = bottom_corner(&only_b);
    for r in 0..4 {
        let both_chars: Vec<char> = both_rows[r].chars().collect();
        let a_chars: Vec<char> = a_rows[r].chars().collect();
        let b_chars: Vec<char> = b_rows[r].chars().collect();
        assert_eq!(both_chars[0..6], a_chars[0..6]);
        assert_eq!(both_chars[7..16], b_chars[7..16]);
    }
    assert_eq!(both_rows[0], format!("┌────┐ ╔═══════╗{}", " ".repeat(64)));
    assert_eq!(both_rows[2], format!("└────┘ ║       ║{}", " ".repeat(64)));
    assert_eq!(both_rows[3], format!("       ╚═══════╝{}", " ".repeat(64)));
}

#[test]
fn adjoining_boxes_share_a_junction() {
    let mut ship = ShipOS::new(80, 25);
    ship.draw_box(Dimensions { top: 21, bottom: 24, left: 72, right: 76 }, BoxStyle::Single);
    ship.draw_box(Dimensions { top: 21, bottom: 24, left: 76, right: 79 }, BoxStyle::Single);
    let lines = screen_lines(&ship);
    let tail = |r: usize| -> String { lines[r].chars().skip(72).collect() };
    assert_eq!(tail(21), "┌───┬──┐");
    assert_eq!(tail(22), "│   │  │");
    assert_eq!(tail(24), "└───┴──┘");
}

#[test]
fn edges_crossing_borders_of_the_other_style() {
    let mut ship = ShipOS::new(80, 25);
    // A single box across the second panel's double right border.
    ship.draw_box(Dimensions { top: 15, bottom: 18, left: 60, right: 75 }, BoxStyle::Single);
    // A double box across the first panel's single right border.
    ship.draw_box(Dimensions { top: 2, bottom: 4, left: 25, right: 35 }, BoxStyle::Double);
    let lines: Vec<Vec<char>> = screen_lines(&ship).iter().map(|l| l.chars().collect()).collect();
    assert_eq!(lines[15][70], '╨');
    assert_eq!(lines[18][70], '╥');
    assert_eq!(lines[16][70], ' ');
    assert_eq!(lines[19][70], '║');
    assert_eq!(lines[15][60], '┌');
    assert_eq!(lines[18][75], '┘');
    assert_eq!(lines[2][30], '╧');
    assert_eq!(lines[4][30], '╤');
    assert_eq!(lines[3][30], ' ');
    assert_eq!(lines[1][30], '│');
    assert_eq!(lines[2][25], '╔');
}

#[test]
fn corners_over_the_other_style_become_junctions_of_the_new_style() {
    let mut ship = ShipOS::new(80, 25);
    // Single borders for the double corners to land on.
    ship.draw_box(Dimensions { top: 21, bottom: 24, left: 72, right: 76 }, BoxStyle::Single);
    // Its top-left corner lands on the single right border: a double T.
    ship.draw_box(Dimensions { top: 22, bottom: 24, left: 76, right: 79 }, BoxStyle::Double);
    let lines: Vec<Vec<char>> = screen_lines(&ship).iter().map(|l| l.chars().collect()).collect();
    assert_eq!(lines[22][76], '╠');
    assert_eq!(lines[24][76], '╩');
    // A double top-left corner over a single top-right corner.
    let mut other = ShipOS::new(80, 25);
    other.draw_box(Dimensions { top: 21, bottom: 24, left: 72, right: 76 }, BoxStyle::Single);
    other.draw_box(Dimensions { top: 21, bottom: 23, left: 76, right: 79 }, BoxStyle::Double);
    let lines: Vec<Vec<char>> = screen_lines(&other).iter().map(|l| l.chars().collect()).collect();
    assert_eq!(lines[21][76], '╦');
}
