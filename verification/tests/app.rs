use rat_race::session::REFERENCE;
use rat_race::{App, Event, KeyCode, KeyEvent, KeyModifiers, State};

fn press(code: KeyCode) -> Event {
    Event::Key(KeyEvent::new(code, KeyModifiers::none()))
}

#[test]
fn a_new_app_waits_for_the_start_key() {
    let app = App::new();
    assert_eq!(app.state(), &State::Start);
    assert!(app.is_running());
}

#[test]
fn the_default_app_is_a_new_app() {
    let app = App::default();
    assert_eq!(app.state(), &State::Start);
    assert!(app.is_running());
}

#[test]
fn the_app_hands_events_to_its_session() {
    let mut app = App::new();
    assert_eq!(app.update(Event::Other), Ok(()));
    assert_eq!(app.state(), &State::Start);
    assert_eq!(app.update(press(KeyCode::Char('s'))), Ok(()));
    assert_eq!(app.update(press(KeyCode::Char('T'))), Ok(()));
    assert_eq!(
        app.state(),
        &State::Running { text: REFERENCE.chars().collect(), input: vec!['T'] }
    );
    assert!(app.is_running());
}

#[test]
fn the_app_runs_through_a_whole_test() {
    let mut app = App::new();
    app.update(press(KeyCode::Char('s'))).unwrap();
    for ch in REFERENCE.chars() {
        assert!(matches!(app.state(), State::Running { .. }));
        app.update(press(KeyCode::Char(ch))).unwrap();
    }
    assert_eq!(app.state(), &State::Done);
    assert!(app.is_running());
    app.update(press(KeyCode::Char('s'))).unwrap();
    assert_eq!(
        app.state(),
        &State::Running { text: REFERENCE.chars().collect(), input: Vec::new() }
    );
}

#[test]
fn the_app_stops_running_after_a_quit_key() {
    let mut app = App::new();
    app.update(press(KeyCode::Esc)).unwrap();
    assert!(!app.is_running());
    assert_eq!(app.state(), &State::Exit);
    app.update(press(KeyCode::Char('s'))).unwrap();
    assert!(!app.is_running());
    assert_eq!(app.state(), &State::Exit);

    let mut typing = App::new();
    typing.update(press(KeyCode::Char('s'))).unwrap();
    typing.update(press(KeyCode::Char('T'))).unwrap();
    typing
        .update(Event::Key(KeyEvent::new(KeyCode::Char('c'), KeyModifiers::control())))
        .unwrap();
    assert!(!typing.is_running());
}
