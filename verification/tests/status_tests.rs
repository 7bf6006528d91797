use modal_editor::input::Mode;
use modal_editor::session::Editor;
use modal_editor::status::{fill_width, status_fill, status_line, Color};

const ACCENT: Color = Color::Rgb { r: 124, g: 245, b: 255 };
const SECONDARY: Color = Color::Rgb { r: 100, g: 100, b: 100 };
const TERTIARY: Color = Color::Rgb { r: 30, g: 30, b: 30 };

#[test]
fn fill_width_subtracts_fixed_segments() {
    assert_eq!(fill_width(80, 8, 9, 1, 21), 40);
}

#[test]
fn fill_width_clamps_to_zero_on_narrow_viewports() {
    assert_eq!(fill_width(10, 8, 9, 1, 21), 0);
    assert_eq!(fill_width(0, 8, 9, 1, 5), 0);
}

#[test]
fn status_fill_for_the_default_viewport() {
    assert_eq!(status_fill(Mode::Normal, 0, 0, 80), 56);
    assert_eq!(status_fill(Mode::Insert, 0, 0, 80), 56);
    assert_eq!(status_fill(Mode::Normal, 123, 45, 80), 53);
    assert_eq!(status_fill(Mode::Normal, 0, 0, 10), 0);
}

#[test]
fn status_line_has_seven_segments_in_paint_order() {
    let spans = status_line(Mode::Normal, 0, 0, 80);
    assert_eq!(spans.len(), 7);

    assert_eq!(spans[0].text, " NORMAL ");
    assert_eq!(spans[0].fg, Some(Color::Black));
    assert_eq!(spans[0].bg, ACCENT);

    assert_eq!(spans[1].text, "\u{e0b0}");
    assert_eq!(spans[1].fg, Some(ACCENT));
    assert_eq!(spans[1].bg, SECONDARY);

    assert_eq!(spans[2].text, " main.rs ");
    assert_eq!(spans[2].fg, Some(ACCENT));
    assert_eq!(spans[2].bg, SECONDARY);

    assert_eq!(spans[3].text, "\u{e0b0}");
    assert_eq!(spans[3].fg, Some(SECONDARY));
    assert_eq!(spans[3].bg, TERTIARY);

    assert_eq!(spans[4].text.chars().count(), 56);
    assert!(spans[4].text.chars().all(|c| c == ' '));
    assert_eq!(spans[4].fg, None);
    assert_eq!(spans[4].bg, TERTIARY);

    assert_eq!(spans[5].text, "\u{e0b2}");
    assert_eq!(spans[5].fg, Some(ACCENT));
    assert_eq!(spans[5].bg, TERTIARY);

    assert_eq!(spans[6].text, " 0:0 ");
    assert_eq!(spans[6].fg, Some(Color::Black));
    assert_eq!(spans[6].bg, ACCENT);
}

#[test]
fn status_line_shows_the_insert_badge() {
    let spans = status_line(Mode::Insert, 0, 0, 80);
    assert_eq!(spans[0].text, " INSERT ");
}

#[test]
fn cursor_badge_renders_multi_digit_positions() {
    let spans = status_line(Mode::Normal, 123, 45, 200);
    assert_eq!(spans[6].text, " 123:45 ");
    let spans = status_line(Mode::Normal, 65535, 0, 200);
    assert_eq!(spans[6].text, " 65535:0 ");
}

#[test]
fn narrow_viewport_gets_an_empty_filler() {
    let spans = status_line(Mode::Normal, 0, 0, 10);
    assert_eq!(spans[4].text, "");
}

#[test]
fn session_status_spans_follow_the_cursor() {
    let mut editor = Editor::new(80, 24);
    editor.cursor_x = 7;
    editor.cursor_y = 2;
    let spans = editor.status_spans();
    assert_eq!(spans[6].text, " 7:2 ");
    assert_eq!(editor.status_position(), (1, 22));
}
