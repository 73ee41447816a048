use rover::router::{route, Command, Key};

#[test]
fn letters_move_the_selection() {
    assert_eq!(route(Key::Char('j'), false), Some(Command::MoveDown));
    assert_eq!(route(Key::Char('J'), false), Some(Command::MoveDown));
    assert_eq!(route(Key::Char('k'), false), Some(Command::MoveUp));
    assert_eq!(route(Key::Char('K'), false), Some(Command::MoveUp));
}

#[test]
fn arrows_move_the_selection() {
    assert_eq!(route(Key::Up, false), Some(Command::MoveUp));
    assert_eq!(route(Key::Down, false), Some(Command::MoveDown));
    assert_eq!(route(Key::Up, true), Some(Command::MoveUp));
    assert_eq!(route(Key::Down, true), Some(Command::MoveDown));
}

#[test]
fn enter_activates_and_escape_ascends() {
    assert_eq!(route(Key::Enter, false), Some(Command::Activate));
    assert_eq!(route(Key::Esc, false), Some(Command::Ascend));
}

#[test]
fn control_combinations() {
    assert_eq!(route(Key::Char('q'), true), Some(Command::Quit));
    assert_eq!(route(Key::Char('Q'), true), Some(Command::Quit));
    assert_eq!(route(Key::Char('c'), true), Some(Command::CommandMode));
    assert_eq!(route(Key::Char('f'), true), Some(Command::FlowMode));
    assert_eq!(route(Key::Char('k'), true), Some(Command::Activate));
}

#[test]
fn unbound_keys_route_nowhere() {
    assert_eq!(route(Key::Char('x'), false), None);
    assert_eq!(route(Key::Char('q'), false), None);
    assert_eq!(route(Key::Char('x'), true), None);
    assert_eq!(route(Key::Char('j'), true), None);
}
