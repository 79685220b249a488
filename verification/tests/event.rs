use rat_race::{Event, KeyCode, KeyEvent, KeyEventKind, KeyModifiers};

fn all_modifiers() -> Vec<KeyModifiers> {
    let mut all = Vec::new();
    for bits in 0u8..64 {
        all.push(KeyModifiers {
            shift: bits & 1 != 0,
            control: bits & 2 != 0,
            alt: bits & 4 != 0,
            super_key: bits & 8 != 0,
            hyper: bits & 16 != 0,
            meta: bits & 32 != 0,
        });
    }
    all
}

#[test]
fn none_holds_nothing() {
    let none = KeyModifiers::none();
    assert_eq!(
        none,
        KeyModifiers {
            shift: false,
            control: false,
            alt: false,
            super_key: false,
            hyper: false,
            meta: false,
        }
    );
    assert!(!none.is_control());
}

#[test]
fn control_holds_control_alone() {
    let control = KeyModifiers::control();
    assert_eq!(
        control,
        KeyModifiers {
            shift: false,
            control: true,
            alt: false,
            super_key: false,
            hyper: false,
            meta: false,
        }
    );
    assert!(control.is_control());
}

#[test]
fn is_control_wants_control_and_nothing_else() {
    for modifiers in all_modifiers() {
        assert_eq!(modifiers.is_control(), modifiers == KeyModifiers::control());
    }
}

#[test]
fn new_key_event_is_a_press() {
    let key = KeyEvent::new(KeyCode::Char('x'), KeyModifiers::control());
    assert_eq!(key.code, KeyCode::Char('x'));
    assert_eq!(key.modifiers, KeyModifiers::control());
    assert_eq!(key.kind, KeyEventKind::Press);
}

#[test]
fn escape_always_quits() {
    for modifiers in all_modifiers() {
        assert!(KeyEvent::new(KeyCode::Esc, modifiers).is_quit());
    }
}

#[test]
fn c_quits_with_control_alone() {
    for modifiers in all_modifiers() {
        let alone = modifiers == KeyModifiers::control();
        assert_eq!(KeyEvent::new(KeyCode::Char('c'), modifiers).is_quit(), alone);
        assert_eq!(KeyEvent::new(KeyCode::Char('C'), modifiers).is_quit(), alone);
    }
}

#[test]
fn no_other_key_quits() {
    for modifiers in all_modifiers() {
        for code in [
            KeyCode::Char('d'),
            KeyCode::Char('q'),
            KeyCode::Char('s'),
            KeyCode::Char('\u{3}'),
            KeyCode::Backspace,
            KeyCode::Other,
        ] {
            assert!(!KeyEvent::new(code, modifiers).is_quit());
        }
    }
}

#[test]
fn pressed_gives_the_key_unless_it_came_up() {
    let key = |kind: KeyEventKind| KeyEvent {
        code: KeyCode::Char('a'),
        modifiers: KeyModifiers::none(),
        kind,
    };
    assert_eq!(Event::Key(key(KeyEventKind::Press)).pressed(), Some(key(KeyEventKind::Press)));
    assert_eq!(Event::Key(key(KeyEventKind::Repeat)).pressed(), Some(key(KeyEventKind::Repeat)));
    assert_eq!(Event::Key(key(KeyEventKind::Release)).pressed(), None);
    assert_eq!(Event::Other.pressed(), None);
}
