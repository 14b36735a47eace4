use red::Action;
use red::Buffer;
use red::Editor;
use red::Input;
use red::Key;
use red::Mode;

fn editor(lines: &[&str], width: usize, height: usize) -> Editor {
    let buffer = Buffer { file: None, lines: lines.iter().map(|s| s.to_string()).collect() };
    Editor::new(buffer, (width, height))
}

fn key(k: Key) -> Input {
    Input::Key(k)
}

/// Runs one loop iteration per action: apply, then clamp.
fn run(e: &mut Editor, actions: &[Action]) {
    e.check_bounds();
    for a in actions {
        e.apply_action(*a);
        e.check_bounds();
    }
}

#[test]
fn fresh_editor_starts_at_origin() {
    let e = editor(&["abc"], 80, 24);
    assert_eq!((e.cx, e.cy, e.vtop, e.vleft), (0, 0, 0, 0));
    assert_eq!(e.mode, Mode::Normal);
    assert_eq!(e.size, (80, 24));
}

#[test]
fn move_scenario_three_lines() {
    // Document ["abc", "", "defg"]: two MoveDown then two MoveRight walk the
    // cursor to buffer row 2 and column 2, clamped on every pass.
    let mut e = editor(&["abc", "", "defg"], 80, 10);
    run(&mut e, &[Action::MoveDown, Action::MoveDown, Action::MoveRight, Action::MoveRight]);
    assert_eq!(e.vtop + e.cy, 2);
    assert_eq!(e.cx, 2);
}

#[test]
fn clamp_pulls_column_to_line_end() {
    // Walking right far beyond "defg" leaves the cursor clamped to index 3,
    // the last valid column of that line.
    let mut e = editor(&["abc", "", "defg"], 80, 10);
    run(&mut e, &[Action::MoveDown, Action::MoveDown]);
    run(&mut e, &[Action::MoveRight; 6]);
    assert_eq!(e.vtop + e.cy, 2);
    assert_eq!(e.cx, 3);
}

#[test]
fn clamp_empty_line_forces_column_zero() {
    let mut e = editor(&["abc", "", "defg"], 80, 10);
    run(&mut e, &[Action::MoveRight, Action::MoveRight, Action::MoveDown]);
    assert_eq!(e.vtop + e.cy, 1);
    assert_eq!(e.cx, 0);
}

#[test]
fn clamp_respects_terminal_width() {
    let mut e = editor(&["a long enough line of text"], 8, 10);
    run(&mut e, &[Action::MoveRight; 20]);
    assert_eq!(e.cx, 7);
}

#[test]
fn clamp_pulls_row_back_onto_document() {
    let mut e = editor(&["abc", "xy"], 80, 10);
    e.cy = 7;
    e.check_bounds();
    assert_eq!(e.vtop + e.cy, 1);
}

#[test]
fn clamp_is_idempotent() {
    let mut e = editor(&["abc", "", "defg"], 5, 10);
    e.cx = 17;
    e.cy = 9;
    e.check_bounds();
    let once = (e.cx, e.cy, e.vtop, e.vleft);
    e.check_bounds();
    assert_eq!((e.cx, e.cy, e.vtop, e.vleft), once);
}

#[test]
fn empty_document_never_underflows() {
    // Any MoveDown/MoveUp sequence on a zero-line document keeps the cursor
    // row at zero; nothing wraps or panics.
    let mut e = editor(&[], 80, 10);
    for _ in 0..3 {
        run(&mut e, &[Action::MoveDown, Action::MoveDown, Action::MoveUp, Action::MoveUp]);
        run(&mut e, &[Action::MoveUp, Action::MoveDown]);
        assert_eq!((e.cx, e.cy, e.vtop), (0, 0, 0));
    }
}

#[test]
fn movedown_scrolls_once_cursor_hits_last_row() {
    // Viewport height is 10 - 2 = 8. Eleven MoveDown actions on a document
    // of 12 lines: the cursor walks rows 0..=7, then stays pinned on row 7
    // while the viewport scrolls down one line per action.
    let lines: Vec<String> = (0..12).map(|i| format!("line {i}")).collect();
    let refs: Vec<&str> = lines.iter().map(|s| s.as_str()).collect();
    let mut e = editor(&refs, 80, 10);
    run(&mut e, &[Action::MoveDown; 11]);
    assert_eq!(e.cy, 7);
    assert_eq!(e.vtop, 4);
    assert_eq!(e.vtop + e.cy, 11);
}

#[test]
fn moveup_scrolls_at_top_row() {
    let lines: Vec<String> = (0..12).map(|i| format!("line {i}")).collect();
    let refs: Vec<&str> = lines.iter().map(|s| s.as_str()).collect();
    let mut e = editor(&refs, 80, 10);
    run(&mut e, &[Action::MoveDown; 11]);
    // Seven MoveUp actions walk the cursor back to the top row; each one
    // after that scrolls the viewport up by one line.
    run(&mut e, &[Action::MoveUp; 7]);
    assert_eq!((e.cy, e.vtop), (0, 4));
    run(&mut e, &[Action::MoveUp; 2]);
    assert_eq!((e.cy, e.vtop), (0, 2));
}

#[test]
fn moves_keep_cursor_on_valid_cells() {
    // After every apply-and-clamp iteration the buffer-absolute cursor row
    // stays within the document, and the column stays under the terminal
    // width and within the current line.
    let lines = ["abc", "", "a much longer line than the rest", "x", "", "yz"];
    let mut e = editor(&lines, 10, 6);
    let moves = [
        Action::MoveDown,
        Action::MoveRight,
        Action::MoveRight,
        Action::MoveDown,
        Action::MoveRight,
        Action::MoveDown,
        Action::MoveLeft,
        Action::MoveDown,
        Action::MoveDown,
        Action::MoveDown,
        Action::MoveDown,
        Action::MoveUp,
        Action::MoveRight,
        Action::MoveUp,
        Action::MoveUp,
        Action::MoveUp,
        Action::MoveUp,
        Action::MoveUp,
    ];
    e.check_bounds();
    for a in moves {
        e.apply_action(a);
        e.check_bounds();
        let row = e.vtop + e.cy;
        assert!(row <= lines.len() - 1);
        assert!(e.cx < 10);
        let current = lines[row];
        if current.is_empty() {
            assert_eq!(e.cx, 0);
        } else {
            assert!(e.cx < current.chars().count());
        }
    }
}

#[test]
fn normal_mode_dispatch() {
    let e = editor(&["abc"], 80, 10);
    assert_eq!(e.handle_normal_event(key(Key::Char('q'))), Some(Action::Quit));
    assert_eq!(e.handle_normal_event(key(Key::Char('h'))), Some(Action::MoveLeft));
    assert_eq!(e.handle_normal_event(key(Key::Char('j'))), Some(Action::MoveDown));
    assert_eq!(e.handle_normal_event(key(Key::Char('k'))), Some(Action::MoveUp));
    assert_eq!(e.handle_normal_event(key(Key::Char('l'))), Some(Action::MoveRight));
    assert_eq!(e.handle_normal_event(key(Key::Left)), Some(Action::MoveLeft));
    assert_eq!(e.handle_normal_event(key(Key::Down)), Some(Action::MoveDown));
    assert_eq!(e.handle_normal_event(key(Key::Up)), Some(Action::MoveUp));
    assert_eq!(e.handle_normal_event(key(Key::Right)), Some(Action::MoveRight));
    assert_eq!(e.handle_normal_event(key(Key::Char('i'))), Some(Action::EnterMode(Mode::Insert)));
    assert_eq!(e.handle_normal_event(key(Key::Char('x'))), None);
    assert_eq!(e.handle_normal_event(key(Key::Enter)), None);
    assert_eq!(e.handle_normal_event(key(Key::Esc)), None);
    assert_eq!(e.handle_normal_event(Input::Other), None);
}

#[test]
fn insert_mode_dispatch() {
    let e = editor(&["abc"], 80, 10);
    assert_eq!(e.handle_insert_event(key(Key::Esc)), Some(Action::EnterMode(Mode::Normal)));
    assert_eq!(e.handle_insert_event(key(Key::Char('x'))), Some(Action::AddChar('x')));
    assert_eq!(e.handle_insert_event(key(Key::Enter)), Some(Action::NewLine));
    assert_eq!(e.handle_insert_event(key(Key::Left)), None);
    assert_eq!(e.handle_insert_event(Input::Other), None);
}

#[test]
fn mode_round_trip_restores_dispatch() {
    // Entering Insert mode and leaving it again restores the prior state and
    // with it the dispatch table: q quits only in Normal mode, and maps to
    // AddChar while inserting.
    let mut e = editor(&["abc"], 80, 10);
    let before = (e.cx, e.cy, e.vtop, e.vleft, e.mode, e.size);
    let a = e.handle_event(key(Key::Char('i'))).unwrap();
    assert_eq!(a, Action::EnterMode(Mode::Insert));
    e.apply_action(a);
    assert_eq!(e.mode, Mode::Insert);
    assert_eq!(e.handle_event(key(Key::Char('q'))), Some(Action::AddChar('q')));
    let a = e.handle_event(key(Key::Esc)).unwrap();
    assert_eq!(a, Action::EnterMode(Mode::Normal));
    e.apply_action(a);
    assert_eq!((e.cx, e.cy, e.vtop, e.vleft, e.mode, e.size), before);
    assert_eq!(e.handle_event(key(Key::Char('q'))), Some(Action::Quit));
}

#[test]
fn resize_updates_size_in_any_mode() {
    let mut e = editor(&["abc"], 80, 10);
    assert_eq!(e.handle_event(Input::Resize(100, 31)), None);
    assert_eq!(e.size, (100, 31));
    e.apply_action(Action::EnterMode(Mode::Insert));
    assert_eq!(e.handle_event(Input::Resize(40, 12)), None);
    assert_eq!(e.size, (40, 12));
}

#[test]
fn insert_actions_move_the_cursor() {
    let mut e = editor(&["abc", "xyz"], 80, 10);
    e.apply_action(Action::EnterMode(Mode::Insert));
    e.apply_action(Action::AddChar('a'));
    e.apply_action(Action::AddChar('b'));
    assert_eq!((e.cx, e.cy), (2, 0));
    e.apply_action(Action::NewLine);
    assert_eq!((e.cx, e.cy), (0, 1));
}

#[test]
fn quit_and_pagedown_leave_state_alone() {
    let mut e = editor(&["abc"], 80, 10);
    e.apply_action(Action::Quit);
    e.apply_action(Action::PageDown);
    assert_eq!((e.cx, e.cy, e.vtop, e.vleft), (0, 0, 0, 0));
    assert_eq!(e.mode, Mode::Normal);
}

#[test]
fn moveleft_stops_at_viewport_left() {
    let mut e = editor(&["abcdef"], 80, 10);
    run(&mut e, &[Action::MoveRight, Action::MoveRight]);
    run(&mut e, &[Action::MoveLeft; 5]);
    assert_eq!(e.cx, 0);
}

#[test]
fn viewport_line_follows_scroll() {
    let mut e = editor(&["one", "two", "three"], 80, 10);
    assert_eq!(e.viewport_line(1), Some("two".to_string()));
    e.vtop = 2;
    assert_eq!(e.viewport_line(0), Some("three".to_string()));
    assert_eq!(e.viewport_line(1), None);
}

#[test]
fn keystrokes_drive_the_editor_like_the_run_loop() {
    // Clamp, interpret, apply, repeat: j j l l walks to row 2 column 2 of
    // "defg"; i enters Insert mode; typing advances the column; Escape
    // returns to Normal mode and q quits.
    let mut e = editor(&["abc", "", "defg"], 80, 10);
    let keys = [
        Key::Char('j'),
        Key::Char('j'),
        Key::Char('l'),
        Key::Char('l'),
        Key::Char('i'),
        Key::Char('!'),
        Key::Esc,
        Key::Char('q'),
    ];
    let mut quit = false;
    for k in keys {
        e.check_bounds();
        if let Some(action) = e.handle_event(key(k)) {
            if action == Action::Quit {
                quit = true;
                break;
            }
            e.apply_action(action);
        }
    }
    assert!(quit);
    assert_eq!(e.mode, Mode::Normal);
    assert_eq!((e.vtop + e.cy, e.cx), (2, 3));
}

#[test]
fn line_length_is_zero_past_the_end() {
    let mut e = editor(&["abcd"], 80, 10);
    assert_eq!(e.line_length(), 4);
    e.cy = 3;
    assert_eq!(e.line_length(), 0);
}
