use dnd_sheet::character::{Character, SavedCharacter};
use dnd_sheet::screen::{Destination, Key, SelectScreen, Transition};
use dnd_sheet::tabs::{CharacterScreen, CharacterSheet, CharacterSheetTab};

fn saved(id: u64, name: &str) -> SavedCharacter {
    let mut c = SavedCharacter::new();
    c.id = Some(id);
    c.name = name.to_string();
    c.race = "Elf".to_string();
    c.class = "Wizard".to_string();
    c
}

#[test]
fn select_screen_moves_within_its_entries() {
    let mut s = SelectScreen::new(vec![saved(1, "Arwen"), saved(2, "Bilbo")]);
    assert_eq!(s.selected, 0);
    assert!(matches!(s.handle_keyboard_event(Key::Up), Transition::Input));
    assert_eq!(s.selected, 0);
    assert!(matches!(s.handle_keyboard_event(Key::Char('j')), Transition::Input));
    assert!(matches!(s.handle_keyboard_event(Key::Down), Transition::Input));
    assert_eq!(s.selected, 2);
    s.handle_keyboard_event(Key::Down);
    assert_eq!(s.selected, 2);
    s.handle_keyboard_event(Key::Char('k'));
    assert_eq!(s.selected, 1);
    assert!(matches!(s.handle_keyboard_event(Key::Char('x')), Transition::Void));
    assert!(matches!(s.handle_keyboard_event(Key::Esc), Transition::Exit));
}

#[test]
fn select_screen_enter_opens_the_selected_sheet() {
    let mut s = SelectScreen::new(vec![saved(1, "Arwen"), saved(2, "Bilbo")]);
    s.handle_keyboard_event(Key::Down);
    match s.handle_keyboard_event(Key::Enter) {
        Transition::ChangeState(Destination::CharacterSheet(c)) => {
            assert_eq!(c.id, Some(2));
            assert_eq!(c.name, "Bilbo");
        }
        _ => panic!("expected the second character"),
    }
    s.handle_keyboard_event(Key::Down);
    match s.handle_keyboard_event(Key::Enter) {
        Transition::ChangeState(Destination::CharacterSheet(c)) => {
            assert_eq!(c.id, None);
            assert_eq!(c.name, "");
        }
        _ => panic!("expected a blank sheet"),
    }
}

#[test]
fn empty_list_offers_only_a_new_sheet() {
    let mut s = SelectScreen::new(vec![]);
    s.handle_keyboard_event(Key::Down);
    assert_eq!(s.selected, 0);
    assert!(matches!(s.handle_keyboard_event(Key::Enter), Transition::ChangeState(Destination::CharacterSheet(_))));
}

#[test]
fn character_sheet_keys() {
    let mut sheet = CharacterSheet::new(Character::new());
    assert!(matches!(sheet.handle_keyboard_event(Key::Tab), Transition::Input));
    assert_eq!(sheet.current_tab, CharacterSheetTab::Features);
    assert!(matches!(sheet.handle_keyboard_event(Key::BackTab), Transition::Input));
    assert!(matches!(sheet.handle_keyboard_event(Key::BackTab), Transition::Input));
    assert_eq!(sheet.current_tab, CharacterSheetTab::Spells);
    assert!(matches!(sheet.handle_keyboard_event(Key::Char('q')), Transition::ChangeState(Destination::SelectScreen)));
    assert!(matches!(sheet.handle_keyboard_event(Key::Esc), Transition::Exit));
    assert_eq!(sheet.index, 2);
}

#[test]
fn character_screen_keys() {
    let screen = CharacterScreen::new(Character::new());
    assert!(matches!(screen.handle_keyboard_event(Key::Char('j')), Transition::Input));
    assert!(matches!(screen.handle_keyboard_event(Key::Char('q')), Transition::ChangeState(Destination::SelectScreen)));
    assert!(matches!(screen.handle_keyboard_event(Key::Esc), Transition::Exit));
}
