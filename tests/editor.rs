use hecto::editor::{Editor, ScreenUpdate};
use hecto::editorcommand::{Direction, EditorCommand, InputEvent, Key, UnsupportedEvent};
use hecto::terminal::{Position, Size};
use hecto::view::View;

fn key(code: Key) -> InputEvent {
    InputEvent::Key { code, control_only: false }
}

#[test]
fn ctrl_q_quits() {
    let event = InputEvent::Key { code: Key::Char('q'), control_only: true };
    assert_eq!(EditorCommand::from_input(event), Ok(EditorCommand::Quit));
}

#[test]
fn plain_q_is_unsupported() {
    assert_eq!(EditorCommand::from_input(key(Key::Char('q'))), Err(UnsupportedEvent));
    let ctrl_x = InputEvent::Key { code: Key::Char('x'), control_only: true };
    assert_eq!(EditorCommand::from_input(ctrl_x), Err(UnsupportedEvent));
}

#[test]
fn navigation_keys_map_to_moves() {
    let pairs = [
        (Key::Up, Direction::Up),
        (Key::Down, Direction::Down),
        (Key::Left, Direction::Left),
        (Key::Right, Direction::Right),
        (Key::PageUp, Direction::PageUp),
        (Key::PageDown, Direction::PageDown),
        (Key::Home, Direction::LineStart),
        (Key::End, Direction::LineEnd),
    ];
    for (code, direction) in pairs {
        assert_eq!(EditorCommand::from_input(key(code)), Ok(EditorCommand::Move(direction)));
        let with_ctrl = InputEvent::Key { code, control_only: true };
        assert_eq!(EditorCommand::from_input(with_ctrl), Ok(EditorCommand::Move(direction)));
    }
}

#[test]
fn resize_event_carries_the_size() {
    let event = InputEvent::Resize { width: 120, height: 40 };
    assert_eq!(
        EditorCommand::from_input(event),
        Ok(EditorCommand::Resize(Size { height: 40, width: 120 }))
    );
}

#[test]
fn other_events_are_unsupported() {
    assert_eq!(EditorCommand::from_input(InputEvent::Other), Err(UnsupportedEvent));
    assert_eq!(EditorCommand::from_input(key(Key::Other)), Err(UnsupportedEvent));
}

#[test]
fn refresh_draws_then_says_goodbye_after_quit() {
    let mut view = View::new(Size { height: 2, width: 10 });
    view.load("hello\nworld\nagain");
    let mut editor = Editor::new(view);
    assert!(!editor.should_quit());
    match editor.refresh_screen() {
        ScreenUpdate::Draw { rows, caret } => {
            assert_eq!(rows, Some(vec!["hello".to_string(), "world".to_string()]));
            assert_eq!(caret, Position { col: 0, row: 0 });
        }
        ScreenUpdate::Farewell => panic!("not quitting yet"),
    }
    match editor.refresh_screen() {
        ScreenUpdate::Draw { rows, .. } => assert_eq!(rows, None),
        ScreenUpdate::Farewell => panic!("not quitting yet"),
    }
    editor.evaluate_command(EditorCommand::Move(Direction::Down));
    editor.evaluate_command(EditorCommand::Move(Direction::Down));
    editor.evaluate_command(EditorCommand::Move(Direction::Right));
    match editor.refresh_screen() {
        ScreenUpdate::Draw { rows, caret } => {
            assert_eq!(rows, Some(vec!["world".to_string(), "again".to_string()]));
            assert_eq!(caret, Position { col: 1, row: 1 });
        }
        ScreenUpdate::Farewell => panic!("not quitting yet"),
    }
    editor.evaluate_command(EditorCommand::Resize(Size { height: 3, width: 10 }));
    match editor.refresh_screen() {
        ScreenUpdate::Draw { rows, caret } => {
            assert_eq!(rows.map(|r| r.len()), Some(3));
            assert_eq!(caret, Position { col: 1, row: 1 });
        }
        ScreenUpdate::Farewell => panic!("not quitting yet"),
    }
    editor.evaluate_command(EditorCommand::Quit);
    assert!(editor.should_quit());
    assert!(matches!(editor.refresh_screen(), ScreenUpdate::Farewell));
}

#[test]
fn editor_move_point_moves_the_caret() {
    let mut view = View::new(Size { height: 5, width: 10 });
    view.load("ab\ncd");
    let mut editor = Editor::new(view);
    editor.move_point(Direction::Down);
    editor.move_point(Direction::Right);
    match editor.refresh_screen() {
        ScreenUpdate::Draw { caret, .. } => assert_eq!(caret, Position { col: 1, row: 1 }),
        ScreenUpdate::Farewell => panic!("not quitting"),
    }
}
