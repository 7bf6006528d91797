use modal_editor::input::{translate, Action, Key, Mode};
use modal_editor::session::Editor;

#[test]
fn normal_mode_table() {
    assert_eq!(translate(Mode::Normal, Key::Char('j')), Some(Action::MoveDown));
    assert_eq!(translate(Mode::Normal, Key::Char('k')), Some(Action::MoveUp));
    assert_eq!(translate(Mode::Normal, Key::Char('h')), Some(Action::MoveLeft));
    assert_eq!(translate(Mode::Normal, Key::Char('l')), Some(Action::MoveRight));
    assert_eq!(translate(Mode::Normal, Key::Char('q')), Some(Action::Quit));
    assert_eq!(
        translate(Mode::Normal, Key::Char('i')),
        Some(Action::EnterMode(Mode::Insert))
    );
}

#[test]
fn insert_mode_table() {
    assert_eq!(
        translate(Mode::Insert, Key::Char('a')),
        Some(Action::PrintChar('a'))
    );
    assert_eq!(
        translate(Mode::Insert, Key::Char('q')),
        Some(Action::PrintChar('q'))
    );
    assert_eq!(translate(Mode::Insert, Key::Enter), Some(Action::NextLine));
    assert_eq!(
        translate(Mode::Insert, Key::Esc),
        Some(Action::EnterMode(Mode::Normal))
    );
}

#[test]
fn unmapped_keys_are_ignored() {
    assert_eq!(translate(Mode::Normal, Key::Char('x')), None);
    assert_eq!(translate(Mode::Normal, Key::Char('A')), None);
    assert_eq!(translate(Mode::Normal, Key::Enter), None);
    assert_eq!(translate(Mode::Normal, Key::Esc), None);
    assert_eq!(translate(Mode::Normal, Key::Other), None);
    assert_eq!(translate(Mode::Insert, Key::Other), None);
}

#[test]
fn new_session_starts_at_origin_in_normal_mode() {
    let editor = Editor::new(80, 24);
    assert_eq!(editor.cursor_x, 0);
    assert_eq!(editor.cursor_y, 0);
    assert_eq!(editor.mode, Mode::Normal);
    assert_eq!(editor.viewport_width, 80);
    assert_eq!(editor.viewport_height, 24);
}

#[test]
fn move_up_and_left_saturate_at_zero() {
    let mut editor = Editor::new(80, 24);
    editor.apply(Action::MoveUp);
    editor.apply(Action::MoveLeft);
    assert_eq!(editor.cursor_x, 0);
    assert_eq!(editor.cursor_y, 0);
}

#[test]
fn move_down_clamps_above_status_rows() {
    let mut editor = Editor::new(80, 24);
    for _ in 0..30 {
        editor.apply(Action::MoveDown);
    }
    assert_eq!(editor.cursor_y, 21);
}

#[test]
fn move_right_clamps_at_last_column() {
    let mut editor = Editor::new(80, 24);
    for _ in 0..100 {
        editor.apply(Action::MoveRight);
    }
    assert_eq!(editor.cursor_x, 79);
}

#[test]
fn mode_round_trip_restores_state() {
    let mut editor = Editor::new(80, 24);
    editor.apply(Action::MoveDown);
    editor.apply(Action::MoveRight);
    let before = editor;
    editor.apply(Action::EnterMode(Mode::Insert));
    assert_eq!(editor.mode, Mode::Insert);
    editor.apply(Action::EnterMode(Mode::Normal));
    assert_eq!(editor, before);
}

#[test]
fn insert_then_print_advances_cursor_and_echoes() {
    let mut editor = Editor::new(80, 24);
    let step = editor.process_key(Key::Char('i'));
    assert_eq!(editor.mode, Mode::Insert);
    assert!(!step.quit);
    assert_eq!(step.echo, None);
    let step = editor.process_key(Key::Char('a'));
    assert!(!step.quit);
    assert_eq!(step.echo, Some('a'));
    assert_eq!(editor.cursor_x, 1);
    assert_eq!(editor.cursor_y, 0);
}

#[test]
fn enter_starts_a_new_line() {
    let mut editor = Editor::new(80, 24);
    editor.mode = Mode::Insert;
    editor.cursor_x = 5;
    editor.cursor_y = 3;
    let step = editor.process_key(Key::Enter);
    assert!(!step.quit);
    assert_eq!(editor.cursor_x, 0);
    assert_eq!(editor.cursor_y, 4);
}

#[test]
fn quit_in_normal_mode_stops_the_loop() {
    let mut editor = Editor::new(80, 24);
    let before = editor;
    let step = editor.process_key(Key::Char('q'));
    assert!(step.quit);
    assert_eq!(step.echo, None);
    assert_eq!(editor, before);
}

#[test]
fn quit_key_in_insert_mode_is_just_a_character() {
    let mut editor = Editor::new(80, 24);
    editor.mode = Mode::Insert;
    let step = editor.process_key(Key::Char('q'));
    assert!(!step.quit);
    assert_eq!(step.echo, Some('q'));
    assert_eq!(editor.cursor_x, 1);
}

#[test]
fn unmapped_key_leaves_the_session_unchanged() {
    let mut editor = Editor::new(80, 24);
    let before = editor;
    let step = editor.process_key(Key::Char('z'));
    assert!(!step.quit);
    assert_eq!(step.echo, None);
    assert_eq!(editor, before);
}
