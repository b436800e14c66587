use charsheet::character::Character;
use charsheet::driver::{Action, Screen};
use charsheet::frame::{Frame, StyledText};
use charsheet::screen::{
    InputEvent, Key, Outcome, ScreenError, ScreenState, SelectionScreen, SheetScreen,
};

fn saved() -> Vec<Character> {
    vec![
        Character::with_details("Aria", "Ranger"),
        Character::with_details("Borin", "Fighter"),
        Character::with_details("Cyra", "Wizard"),
    ]
}

fn list_of(frame: Frame) -> (Vec<String>, usize) {
    match frame {
        Frame::List { lines, cursor_row } => (lines, cursor_row),
        Frame::Panel { .. } => panic!("expected a list frame"),
    }
}

fn panel_of(frame: Frame) -> (String, Vec<Vec<StyledText>>) {
    match frame {
        Frame::Panel { title, lines } => (title, lines),
        Frame::List { .. } => panic!("expected a panel frame"),
    }
}

fn key(c: char) -> InputEvent {
    InputEvent::Key(Key::Char(c))
}

fn sheet_character(screen: &Screen) -> Character {
    match screen.state() {
        ScreenState::Sheet(s) => s.character.clone().expect("sheet holds a character"),
        ScreenState::Selection(_) => panic!("expected the sheet screen"),
    }
}

#[test]
fn selection_lists_each_character_then_new_entry() {
    let mut screen = Screen::new(saved());
    let (lines, cursor_row) = list_of(screen.display_screen().unwrap());
    assert_eq!(
        lines,
        vec!["Aria Ranger", "Borin Fighter", "Cyra Wizard", "New Character Sheet.."]
    );
    assert_eq!(cursor_row, 0);
}

#[test]
fn selection_with_no_characters_has_only_new_entry() {
    let mut screen = Screen::new(Vec::new());
    let (lines, cursor_row) = list_of(screen.display_screen().unwrap());
    assert_eq!(lines, vec!["New Character Sheet.."]);
    assert_eq!(cursor_row, 0);
}

#[test]
fn up_on_top_row_stays_put() {
    let mut screen = Screen::new(saved());
    for _ in 0..5 {
        assert_eq!(screen.handle_input(key('k')), Action::Wait);
    }
    let (_, cursor_row) = list_of(screen.display_screen().unwrap());
    assert_eq!(cursor_row, 0);
}

#[test]
fn down_stops_on_new_entry_row() {
    let mut screen = Screen::new(saved());
    assert_eq!(screen.handle_input(key('j')), Action::MoveCursor(1));
    assert_eq!(screen.handle_input(key('j')), Action::MoveCursor(2));
    assert_eq!(screen.handle_input(key('j')), Action::MoveCursor(3));
    for _ in 0..4 {
        assert_eq!(screen.handle_input(key('j')), Action::Wait);
    }
    assert_eq!(screen.handle_input(key('k')), Action::MoveCursor(2));
}

#[test]
fn down_with_no_characters_stays_on_new_entry() {
    let mut screen = Screen::new(Vec::new());
    assert_eq!(screen.handle_input(key('j')), Action::Wait);
    assert_eq!(screen.handle_input(key('k')), Action::Wait);
}

#[test]
fn selection_screen_moves_its_row() {
    let mut s = SelectionScreen::new(saved());
    assert!(matches!(s.handle_keyboard_event(Key::Char('j')), Outcome::Continue));
    assert!(matches!(s.handle_keyboard_event(Key::Char('j')), Outcome::Continue));
    assert_eq!(s.selected_row(), 2);
    assert!(matches!(s.handle_keyboard_event(Key::Char('k')), Outcome::Continue));
    assert_eq!(s.selected_row(), 1);
    assert!(matches!(s.handle_keyboard_event(Key::Char('J')), Outcome::Continue));
    assert_eq!(s.selected_row(), 1);
}

#[test]
fn enter_opens_selected_character() {
    let mut screen = Screen::new(saved());
    screen.handle_input(key('j'));
    assert_eq!(screen.handle_input(InputEvent::Key(Key::Enter)), Action::Render);
    let c = sheet_character(&screen);
    assert_eq!(c.name, "Borin");
    assert_eq!(c.class, "Fighter");
}

#[test]
fn enter_on_first_row_opens_first_character() {
    let mut screen = Screen::new(saved());
    assert_eq!(screen.handle_input(InputEvent::Key(Key::Enter)), Action::Render);
    let c = sheet_character(&screen);
    assert_eq!(c.name, "Aria");
    assert_eq!(c.class, "Ranger");
}

#[test]
fn enter_on_new_entry_row_opens_blank_character() {
    let mut screen = Screen::new(saved());
    for _ in 0..3 {
        screen.handle_input(key('j'));
    }
    assert_eq!(screen.handle_input(InputEvent::Key(Key::Enter)), Action::Render);
    let c = sheet_character(&screen);
    assert_eq!(c.name, "");
    assert_eq!(c.class, "");
    for s in saved() {
        assert!(s.name != c.name || s.class != c.class);
    }
}

#[test]
fn escape_exits_from_every_row() {
    for row in 0..4 {
        let mut screen = Screen::new(saved());
        for _ in 0..row {
            screen.handle_input(key('j'));
        }
        assert_eq!(screen.handle_input(InputEvent::Key(Key::Esc)), Action::Exit);
    }
    let mut s = SelectionScreen::new(Vec::new());
    assert!(matches!(s.handle_keyboard_event(Key::Esc), Outcome::Exit));
}

#[test]
fn other_keys_and_events_do_nothing_on_selection() {
    let mut screen = Screen::new(saved());
    assert_eq!(screen.handle_input(key('x')), Action::Wait);
    assert_eq!(screen.handle_input(InputEvent::Key(Key::Other)), Action::Wait);
    assert_eq!(screen.handle_input(InputEvent::Other), Action::Wait);
    let (_, cursor_row) = list_of(screen.display_screen().unwrap());
    assert_eq!(cursor_row, 0);
}

#[test]
fn sheet_shows_labelled_fields_in_titled_panel() {
    let mut state = ScreenState::Sheet(SheetScreen::new(Some(Character::with_details(
        "Aria", "Ranger",
    ))));
    let (title, lines) = panel_of(state.display_screen().unwrap());
    assert_eq!(title, "Aria");
    assert_eq!(lines.len(), 2);
    let runs: Vec<Vec<(String, bool)>> = lines
        .iter()
        .map(|l| l.iter().map(|t| (t.text.clone(), t.emphasized)).collect())
        .collect();
    assert_eq!(
        runs,
        vec![
            vec![("Name: ".to_string(), true), ("Aria".to_string(), false)],
            vec![("Class: ".to_string(), true), ("Ranger".to_string(), false)],
        ]
    );
}

#[test]
fn sheet_without_character_reports_missing_character() {
    let sheet = SheetScreen::new(None);
    assert!(matches!(sheet.display_screen(), Err(ScreenError::MissingCharacter)));
    let mut state = ScreenState::Sheet(SheetScreen::new(None));
    assert!(matches!(state.display_screen(), Err(ScreenError::MissingCharacter)));
}

#[test]
fn sheet_ignores_every_key() {
    let mut screen = Screen::new(saved());
    screen.handle_input(InputEvent::Key(Key::Enter));
    for event in [key('j'), key('k'), InputEvent::Key(Key::Enter), InputEvent::Key(Key::Esc)] {
        assert_eq!(screen.handle_input(event), Action::Wait);
    }
    assert_eq!(sheet_character(&screen).name, "Aria");
}

#[test]
fn rendering_twice_shows_the_same_content() {
    let mut screen = Screen::new(saved());
    let first = list_of(screen.display_screen().unwrap());
    let second = list_of(screen.display_screen().unwrap());
    assert_eq!(first, second);

    let mut screen = Screen::new(saved());
    screen.handle_input(InputEvent::Key(Key::Enter));
    let (t1, l1) = panel_of(screen.display_screen().unwrap());
    let (t2, l2) = panel_of(screen.display_screen().unwrap());
    assert_eq!(t1, t2);
    let flat = |l: &Vec<Vec<StyledText>>| -> Vec<(String, bool)> {
        l.iter().flatten().map(|t| (t.text.clone(), t.emphasized)).collect()
    };
    assert_eq!(flat(&l1), flat(&l2));
}

#[test]
fn snapshot_copies_name_and_class() {
    let c = Character::with_details("Aria", "Ranger");
    let d = c.snapshot();
    assert_eq!(d.name, "Aria");
    assert_eq!(d.class, "Ranger");
    let blank = Character::new();
    assert_eq!(blank.name, "");
    assert_eq!(blank.class, "");
}

#[test]
fn drawing_after_a_move_homes_cursor_and_selection() {
    let mut screen = Screen::new(saved());
    assert_eq!(screen.handle_input(key('j')), Action::MoveCursor(1));
    let (lines, cursor_row) = list_of(screen.display_screen().unwrap());
    assert_eq!(lines.len(), 4);
    assert_eq!(cursor_row, 0);
    assert_eq!(screen.handle_input(InputEvent::Key(Key::Enter)), Action::Render);
    let c = sheet_character(&screen);
    assert_eq!(c.name, "Aria");

    let mut single = Screen::new(vec![Character::with_details("Aria", "Ranger")]);
    assert_eq!(single.handle_input(key('j')), Action::MoveCursor(1));
    let (_, cursor_row) = list_of(single.display_screen().unwrap());
    assert_eq!(cursor_row, 0);
    assert_eq!(single.handle_input(key('j')), Action::MoveCursor(1));

    let mut s = SelectionScreen::new(saved());
    s.handle_keyboard_event(Key::Char('j'));
    s.handle_keyboard_event(Key::Char('j'));
    assert_eq!(s.selected_row(), 2);
    let (_, cursor_row) = list_of(s.display_screen());
    assert_eq!(cursor_row, 0);
    assert_eq!(s.selected_row(), 0);
}
