use svtui::keys::{Command, Event, Key, QUIT_CHAR};

#[test]
fn q_quits() {
    assert_eq!(QUIT_CHAR, 'q');
    assert_eq!(Key::Char('q').command(), Command::Quit);
}

#[test]
fn other_characters_are_typed() {
    assert_eq!(Key::Char('1').command(), Command::Insert('1'));
    assert_eq!(Key::Char('Q').command(), Command::Insert('Q'));
    assert_eq!(Key::Char(' ').command(), Command::Insert(' '));
    assert_eq!(Key::Char('å').command(), Command::Insert('å'));
}

#[test]
fn the_named_keys_have_their_commands() {
    assert_eq!(Key::PageUp.command(), Command::ScrollUp);
    assert_eq!(Key::PageDown.command(), Command::ScrollDown);
    assert_eq!(Key::Enter.command(), Command::Confirm);
    assert_eq!(Key::Backspace.command(), Command::Erase);
    assert_eq!(Key::Other.command(), Command::Ignore);
}

#[test]
fn events_compare_by_what_they_hold() {
    assert_eq!(Event::Input(Key::Enter), Event::Input(Key::Enter));
    assert_ne!(Event::Input(Key::Enter), Event::Tick);
    assert_eq!(Event::<Key>::Tick, Event::Tick);
}
