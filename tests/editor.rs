use nanoview::{
    Editor, Event, KeyCode, KeyEvent, KeyEventKind, Location, Modifiers, Size, UnsupportedEvent,
    View,
};

fn press(code: KeyCode, control: bool) -> Event {
    Event::Key(KeyEvent {
        code,
        modifiers: Modifiers { control, others: false },
        kind: KeyEventKind::Press,
    })
}

fn editor_of(text: &str, height: usize, width: usize) -> Editor {
    let mut view = View::new(Size { height, width });
    view.load(Ok(String::from(text))).unwrap();
    Editor::new(view)
}

#[test]
fn new_editor_does_not_quit() {
    let editor = editor_of("a", 2, 2);
    assert!(!editor.should_quit);
}

#[test]
fn quit_chord_sets_should_quit_and_leaves_the_view() {
    let mut editor = editor_of("a", 2, 2);
    assert_eq!(editor.evaluate_event(press(KeyCode::Char('q'), true)), Ok(()));
    assert!(editor.should_quit);
    assert_eq!(editor.view.location, Location { x: 0, y: 0 });
}

#[test]
fn navigation_events_move_the_cursor() {
    let mut editor = editor_of("abc\ndef", 5, 5);
    assert_eq!(editor.evaluate_event(press(KeyCode::Down, false)), Ok(()));
    assert_eq!(editor.evaluate_event(press(KeyCode::Right, false)), Ok(()));
    assert_eq!(editor.view.location, Location { x: 1, y: 1 });
    assert!(!editor.should_quit);
}

#[test]
fn resize_events_resize_the_view() {
    let mut editor = editor_of("abc", 5, 5);
    assert_eq!(editor.evaluate_event(Event::Resize(30, 7)), Ok(()));
    assert_eq!(editor.view.size, Size { height: 7, width: 30 });
}

#[test]
fn unsupported_events_change_nothing() {
    let mut editor = editor_of("abc", 5, 5);
    let _ = editor.refresh_screen();
    let released = Event::Key(KeyEvent {
        code: KeyCode::Down,
        modifiers: Modifiers { control: false, others: false },
        kind: KeyEventKind::Release,
    });
    assert_eq!(editor.evaluate_event(released), Err(UnsupportedEvent::NotPressed));
    assert_eq!(
        editor.evaluate_event(press(KeyCode::Char('x'), false)),
        Err(UnsupportedEvent::Key(KeyCode::Char('x')))
    );
    assert_eq!(editor.evaluate_event(Event::Other), Err(UnsupportedEvent::Other));
    assert_eq!(editor.view.location, Location { x: 0, y: 0 });
    assert!(!editor.view.need_redraw);
    assert!(!editor.should_quit);
}

#[test]
fn refresh_screen_draws_once_and_places_the_cursor() {
    let mut editor = editor_of("abc\ndef", 3, 4);
    editor.evaluate_event(press(KeyCode::Down, false)).unwrap();
    let frame = editor.refresh_screen();
    assert_eq!(frame.rows, vec!["abc", "def", "~"]);
    assert_eq!((frame.cursor.x, frame.cursor.y), (0, 1));
    let again = editor.refresh_screen();
    assert!(again.rows.is_empty());
    assert_eq!((again.cursor.x, again.cursor.y), (0, 1));
}
