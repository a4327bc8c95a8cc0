use ratatui::layout::{Constraint, Direction, Layout, Rect};
use terminal_tube::line::Line;
use terminal_tube::screen::{can_draw, draw, lay_out, Area};
use terminal_tube::tui::AppState;

fn area(x: u16, y: u16, width: u16, height: u16) -> Area {
    Area { x, y, width, height }
}

fn state(lines: usize, input: &str) -> AppState {
    let mut s = AppState::new("t", "c");
    s.input = input.to_string();
    for _ in 0..lines {
        s.lines.push_back(Line { spans: vec![] });
    }
    s
}

#[test]
fn four_bands_on_a_usual_screen() {
    let s = draw(&state(100, "hello"), area(0, 0, 80, 24));
    assert_eq!(s.title, area(0, 0, 80, 1));
    assert_eq!(s.chat, area(0, 1, 80, 19));
    assert_eq!(s.status, area(0, 20, 80, 1));
    assert_eq!(s.input, area(0, 21, 80, 3));
    assert_eq!(s.scroll, 81);
    assert_eq!(s.status_text, " Connecting…");
    assert_eq!(s.cursor, (6, 22));
}

#[test]
fn four_bands_at_every_height() {
    for height in (6u16..400).chain([1000, 5000, 20000, 65000, 65530]) {
        for y in [0u16, 5] {
            let s = draw(&state(3, ""), area(2, y, 33, height));
            assert_eq!(s.title, area(2, y, 33, 1));
            assert_eq!(s.chat, area(2, y + 1, 33, height - 5));
            assert_eq!(s.status, area(2, y + height - 4, 33, 1));
            assert_eq!(s.input, area(2, y + height - 3, 33, 3));
            assert_eq!(s.cursor, (3, y + height - 2));
        }
    }
}

#[test]
fn low_screens_keep_the_order() {
    for height in 0u16..6 {
        for width in [0u16, 1, 80] {
            let s = draw(&state(3, "ab"), area(1, 7, width, height));
            let mut y = 7;
            for band in [s.title, s.chat, s.status, s.input] {
                assert_eq!((band.x, band.y, band.width), (1, y, width));
                y += band.height;
            }
            assert_eq!(y, 7 + height);
            assert_eq!(s.chat.height, height.min(1));
            assert!(s.title.height <= 1 && s.status.height <= 1 && s.input.height <= 3);
            assert_eq!(s.cursor, (s.input.x + 3, s.input.y + 1));
        }
    }
}

#[test]
fn layouts_of_many_lengths_follow_one_another() {
    for n in 0u16..4 * 4 * 4 * 5 {
        let (a, b, c, d) = (n % 4, n / 4 % 4, n / 16 % 4, n / 64);
        let layout = Layout::default().direction(Direction::Vertical).constraints([
            Constraint::Length(a),
            Constraint::Min(b),
            Constraint::Length(c),
            Constraint::Length(d),
        ]);
        for height in 0u16..15 {
            let rects = layout.split(Rect { x: 2, y: 3, width: 5, height });
            let heights: Vec<u16> = rects.iter().map(|r| r.height).collect();
            let mut y = 3;
            for r in rects.iter() {
                assert_eq!((r.x, r.y, r.width), (2, y, 5));
                y += r.height;
            }
            assert_eq!(y, 3 + height);
            if height >= a + b + c + d {
                assert_eq!(heights, vec![a, height - a - c - d, c, d]);
            } else {
                assert_eq!(heights[1], b.min(height));
                assert!(heights[0] <= a && heights[2] <= c && heights[3] <= d);
            }
        }
    }
}

#[test]
fn nothing_is_scrolled_while_it_fits() {
    assert_eq!(draw(&state(0, ""), area(0, 0, 80, 24)).scroll, 0);
    assert_eq!(draw(&state(19, ""), area(0, 0, 80, 24)).scroll, 0);
    assert_eq!(draw(&state(20, ""), area(0, 0, 80, 24)).scroll, 1);
}

#[test]
fn counts_are_cut_to_sixteen_bits() {
    let s = draw(&state(65537 + 19, &"x".repeat(65536)), area(0, 0, 80, 24));
    assert_eq!(s.scroll, 1);
    assert_eq!(s.cursor.0, 1);
}

#[test]
fn the_cursor_counts_bytes() {
    assert_eq!(draw(&state(0, "é👋"), area(4, 0, 80, 24)).cursor, (4 + 1 + 6, 22));
}

#[test]
fn what_can_be_drawn() {
    assert!(can_draw(&state(0, ""), &area(0, 0, 80, 24)));
    assert!(can_draw(&state(0, &"x".repeat(65534)), &area(0, 0, 80, 24)));
    assert!(!can_draw(&state(0, &"x".repeat(65535)), &area(0, 0, 80, 24)));
    assert!(can_draw(&state(0, &"x".repeat(65536)), &area(0, 0, 80, 24)));
    assert!(!can_draw(&state(0, "x"), &area(65534, 0, 1, 24)));
    assert!(can_draw(&state(0, ""), &area(0, 0, 80, 65535)));
    assert!(!can_draw(&state(0, ""), &area(0, 1, 80, 65535)));
    assert!(!can_draw(&state(0, ""), &area(0, 65535, 80, 0)));
}

#[test]
fn bands_are_taken_as_given() {
    let bands =
        vec![area(0, 0, 9, 0), area(1, 2, 9, 2), area(0, 4, 9, 1), area(3, 5, 9, 3)];
    let s = lay_out(&state(7, "abc"), &bands);
    assert_eq!((s.title, s.chat, s.status, s.input), (bands[0], bands[1], bands[2], bands[3]));
    assert_eq!(s.scroll, 5);
    assert_eq!(s.cursor, (7, 6));
}
