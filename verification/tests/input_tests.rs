use minigames::input::{
    Action, Event, KeyCode, KeyEvent, KeyEventKind, ACCEPT_KEY, CONFIRM_KEY, DECLINE_KEY, QUIT_KEY,
};

fn key(c: char, kind: KeyEventKind) -> Event {
    Event::Key(KeyEvent { code: KeyCode::Char(c), kind })
}

#[test]
fn the_four_keys_are_bound() {
    assert_eq!(QUIT_KEY, 'q');
    assert_eq!(CONFIRM_KEY, ' ');
    assert_eq!(ACCEPT_KEY, 'y');
    assert_eq!(DECLINE_KEY, 'n');
}

#[test]
fn a_press_of_a_bound_key_asks_for_its_action() {
    assert_eq!(Action::from_event(&key('q', KeyEventKind::Press)), Some(Action::Quit));
    assert_eq!(Action::from_event(&key(' ', KeyEventKind::Press)), Some(Action::Confirm));
    assert_eq!(Action::from_event(&key('y', KeyEventKind::Press)), Some(Action::AcceptRestart));
    assert_eq!(Action::from_event(&key('n', KeyEventKind::Press)), Some(Action::DeclineRestart));
}

#[test]
fn a_release_or_a_repeat_asks_for_nothing() {
    for c in ['q', ' ', 'y', 'n'] {
        assert_eq!(Action::from_event(&key(c, KeyEventKind::Release)), None);
        assert_eq!(Action::from_event(&key(c, KeyEventKind::Repeat)), None);
    }
}

#[test]
fn other_keys_ask_for_nothing() {
    for c in ['Q', 'Y', 'N', 'a', 'z', '0', '\n', '\t', 'é'] {
        assert_eq!(Action::from_event(&key(c, KeyEventKind::Press)), None);
    }
    let other = Event::Key(KeyEvent { code: KeyCode::Other, kind: KeyEventKind::Press });
    assert_eq!(Action::from_event(&other), None);
}

#[test]
fn events_that_are_no_key_events_ask_for_nothing() {
    assert_eq!(Action::from_event(&Event::Other), None);
}
