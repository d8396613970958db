//! The decisions of the terminal screens: a pressed key and the screen's
//! state give the screen's next state and what the application does next.
//! Drawing and reading keys are left to the application.
use vstd::prelude::*;
use crate::character::SavedCharacter;

verus! {

/// A key the screens react to.
#[derive(Clone, Copy, Debug, PartialEq, Eq, Structural)]
pub enum Key {
    Esc,
    Enter,
    Up,
    Down,
    Tab,
    BackTab,
    Char(char),
    Other,
}

/// The screen to change to.
#[derive(Debug)]
pub enum Destination {
    SelectScreen,
    CharacterSheet(SavedCharacter),
}

/// What the application does after a key.
#[derive(Debug)]
pub enum Transition {
    /// Change to another screen.
    ChangeState(Destination),
    /// The key changed the screen; draw it again.
    Input,
    /// The key means nothing here.
    Void,
    /// Leave the application.
    Exit,
}

impl SavedCharacter {
    /// A copy of this summary.
    pub fn duplicate(&self) -> (r: SavedCharacter)
        ensures
            r.id == self.id,
            r.name@ == self.name@,
            r.race@ == self.race@,
            r.class@ == self.class@,
    {
        SavedCharacter { id: self.id, name: self.name.clone(), race: self.race.clone(), class: self.class.clone() }
    }
}

/// The screen that lists the saved characters, followed by one entry for a
/// new character sheet, with one entry selected.
pub struct SelectScreen {
    pub saved_characters: Vec<SavedCharacter>,
    pub selected: usize,
}

impl SelectScreen {
    /// The number of entries: every saved character and the new sheet.
    pub open spec fn entries(&self) -> int {
        (self.saved_characters@.len() + 1) as int
    }

    /// Whether the selection is one of the entries.
    pub open spec fn well_formed(&self) -> bool {
        self.selected < self.entries()
    }

    /// A screen listing `saved_characters`, with the first entry selected.
    pub fn new(saved_characters: Vec<SavedCharacter>) -> (r: SelectScreen)
        ensures
            r.well_formed(),
            r.selected == 0,
            r.saved_characters@ == saved_characters@,
    {
        SelectScreen { saved_characters, selected: 0 }
    }

    /// Reacts to a key. Escape leaves; `j` or down and `k` or up move the
    /// selection one entry, stopping at either end; enter opens the selected
    /// character, or a blank sheet on the last entry; any other key means
    /// nothing.
    pub fn handle_keyboard_event(&mut self, key: Key) -> (r: Transition)
        requires
            old(self).well_formed(),
        ensures
            final(self).well_formed(),
            final(self).saved_characters@ == old(self).saved_characters@,
            key == Key::Esc ==> r is Exit && final(self).selected == old(self).selected,
            (key == Key::Down || key == Key::Char('j')) ==> r is Input && final(self).selected == (
                if old(self).selected + 1 < old(self).entries() { old(self).selected + 1 } else { old(self).selected as int }),
            (key == Key::Up || key == Key::Char('k')) ==> r is Input && final(self).selected == (
                if old(self).selected > 0 { old(self).selected - 1 } else { 0 }),
            key == Key::Enter ==> final(self).selected == old(self).selected && match r {
                Transition::ChangeState(Destination::CharacterSheet(c)) => if old(self).selected + 1 == old(self).entries() {
                    c.id is None && c.name@.len() == 0 && c.race@.len() == 0 && c.class@.len() == 0
                } else {
                    let s = old(self).saved_characters@[old(self).selected as int];
                    c.id == s.id && c.name@ == s.name@ && c.race@ == s.race@ && c.class@ == s.class@
                },
                _ => false,
            },
            !(key == Key::Esc || key == Key::Down || key == Key::Char('j') || key == Key::Up || key == Key::Char('k')
                || key == Key::Enter) ==> r is Void && final(self).selected == old(self).selected,
    {
        let last = self.saved_characters.len();
        match key {
            Key::Esc => Transition::Exit,
            Key::Down | Key::Char('j') => {
                if self.selected < last {
                    self.selected = self.selected + 1;
                }
                Transition::Input
            },
            Key::Up | Key::Char('k') => {
                if self.selected > 0 {
                    self.selected = self.selected - 1;
                }
                Transition::Input
            },
            Key::Enter => {
                if self.selected == last {
                    Transition::ChangeState(Destination::CharacterSheet(SavedCharacter::new()))
                } else {
                    Transition::ChangeState(Destination::CharacterSheet(self.saved_characters[self.selected].duplicate()))
                }
            },
            _ => Transition::Void,
        }
    }
}

} // verus!
