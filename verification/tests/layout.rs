use termite::layout::{Area, Borders, BoxStyle, Placement};

const STYLE: BoxStyle = BoxStyle { margin: 3, lines: 3 };

#[test]
fn borders_follow_the_rows() {
    assert_eq!(BoxStyle { margin: 3, lines: 1 }.borders(), Borders::Absent);
    assert_eq!(BoxStyle { margin: 3, lines: 2 }.borders(), Borders::Top);
    assert_eq!(BoxStyle { margin: 3, lines: 3 }.borders(), Borders::All);
    assert_eq!(BoxStyle { margin: 3, lines: 0 }.borders(), Borders::All);
    assert_eq!(BoxStyle { margin: 3, lines: 40 }.borders(), Borders::All);
}

#[test]
fn width_limit_is_what_the_margins_leave() {
    assert_eq!(STYLE.width_limit(80), Some(70));
    assert_eq!(STYLE.width_limit(11), Some(1));
    assert_eq!(STYLE.width_limit(65535), Some(65525));
    assert_eq!(BoxStyle { margin: 0, lines: 3 }.width_limit(5), Some(1));
}

#[test]
fn width_limit_is_none_where_nothing_fits() {
    assert_eq!(STYLE.width_limit(10), None);
    assert_eq!(STYLE.width_limit(9), None);
    assert_eq!(STYLE.width_limit(0), None);
    assert_eq!(BoxStyle { margin: 65535, lines: 3 }.width_limit(65535), None);
    assert_eq!(BoxStyle { margin: 32766, lines: 3 }.width_limit(65535), None);
}

#[test]
fn placement_on_an_ordinary_screen() {
    assert_eq!(
        STYLE.place(80, 24, 5),
        Some(Placement {
            frame: Area { x: 3, y: 21, width: 74, height: 3 },
            text: Area { x: 5, y: 22, width: 70, height: 1 },
            cursor_x: 10,
            cursor_y: 22,
        })
    );
}

#[test]
fn placement_on_the_smallest_screen() {
    assert_eq!(
        STYLE.place(12, 3, 0),
        Some(Placement {
            frame: Area { x: 3, y: 0, width: 6, height: 3 },
            text: Area { x: 5, y: 1, width: 2, height: 1 },
            cursor_x: 5,
            cursor_y: 1,
        })
    );
}

#[test]
fn placement_needs_room() {
    assert_eq!(STYLE.place(11, 24, 0), None);
    assert_eq!(STYLE.place(80, 2, 0), None);
    assert_eq!(BoxStyle { margin: 3, lines: 1 }.place(80, 24, 0), None);
    assert_eq!(BoxStyle { margin: 3, lines: 0 }.place(80, 24, 0), None);
    assert_eq!(BoxStyle { margin: 0, lines: 3 }.place(65534, 24, 0), None);
    assert_eq!(STYLE.place(80, 24, 65531), None);
    assert_eq!(STYLE.place(80, 24, usize::MAX), None);
}

#[test]
fn the_cursor_follows_its_offset() {
    assert_eq!(STYLE.place(80, 24, 0).map(|p| p.cursor_x), Some(5));
    assert_eq!(STYLE.place(80, 24, 69).map(|p| p.cursor_x), Some(74));
    assert_eq!(STYLE.place(80, 24, 65530).map(|p| p.cursor_x), Some(65535));
}

#[test]
fn the_text_is_cut_at_the_largest_column() {
    let placed = BoxStyle { margin: 0, lines: 2 }.place(65533, 2, 0);
    assert_eq!(
        placed,
        Some(Placement {
            frame: Area { x: 0, y: 0, width: 65533, height: 2 },
            text: Area { x: 2, y: 0, width: 65533, height: 0 },
            cursor_x: 2,
            cursor_y: 0,
        })
    );
}

#[test]
fn the_text_is_cut_at_the_largest_row() {
    let placed = BoxStyle { margin: 1, lines: 65535 }.place(10, 65535, 0);
    assert_eq!(
        placed,
        Some(Placement {
            frame: Area { x: 1, y: 0, width: 8, height: 65535 },
            text: Area { x: 3, y: 65533, width: 8, height: 2 },
            cursor_x: 3,
            cursor_y: 65533,
        })
    );
}
