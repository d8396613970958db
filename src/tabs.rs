//! The tabs of the character sheet and the sheet's tab cycling.
use vstd::prelude::*;
use crate::character::Character;
use crate::screen::{Destination, Key, Transition};

verus! {

/// A tab of the character sheet.
#[derive(Clone, Copy, Debug, PartialEq, Eq, Structural)]
pub enum CharacterSheetTab {
    Stats,
    Features,
    Spells,
}

/// Every tab, in display order.
pub open spec fn all_tabs() -> Seq<CharacterSheetTab> {
    seq![CharacterSheetTab::Stats, CharacterSheetTab::Features, CharacterSheetTab::Spells]
}

impl CharacterSheetTab {
    /// The tab's title.
    pub open spec fn spec_title(self) -> Seq<char> {
        match self {
            CharacterSheetTab::Stats => "Stats"@,
            CharacterSheetTab::Features => "Features"@,
            CharacterSheetTab::Spells => "Spells"@,
        }
    }

    /// The tab's title.
    pub fn title(&self) -> (r: String)
        ensures
            r@ == self.spec_title(),
    {
        match self {
            CharacterSheetTab::Stats => String::from_str("Stats"),
            CharacterSheetTab::Features => String::from_str("Features"),
            CharacterSheetTab::Spells => String::from_str("Spells"),
        }
    }

    /// Every tab, in display order.
    pub fn get_all_tabs() -> (r: Vec<CharacterSheetTab>)
        ensures
            r@ == all_tabs(),
    {
        let r = vec![CharacterSheetTab::Stats, CharacterSheetTab::Features, CharacterSheetTab::Spells];
        assert(r@ =~= all_tabs());
        r
    }

    /// The title of every tab, in display order.
    pub fn get_all_tab_strings() -> (r: Vec<String>)
        ensures
            r@.len() == all_tabs().len(),
            forall|i: int| 0 <= i < r@.len() ==> #[trigger] r@[i]@ == all_tabs()[i].spec_title(),
    {
        let tabs = CharacterSheetTab::get_all_tabs();
        let mut out: Vec<String> = Vec::new();
        let mut i: usize = 0;
        while i < tabs.len()
            invariant
                i <= tabs@.len(),
                tabs@ == all_tabs(),
                out@.len() == i,
                forall|k: int| 0 <= k < i ==> #[trigger] out@[k]@ == all_tabs()[k].spec_title(),
            decreases tabs@.len() - i,
        {
            out.push(tabs[i].title());
            i = i + 1;
        }
        out
    }
}

/// The character sheet screen: a character and the tab on show.
#[derive(Clone, Debug)]
pub struct CharacterSheet {
    pub current_character: Character,
    pub current_tab: CharacterSheetTab,
    pub index: usize,
    pub all_tabs: Vec<CharacterSheetTab>,
}

impl CharacterSheet {
    /// Whether the sheet shows the tab at `index` of the full tab list.
    pub open spec fn well_formed(&self) -> bool {
        &&& self.all_tabs@ == all_tabs()
        &&& self.index < self.all_tabs@.len()
        &&& self.current_tab == self.all_tabs@[self.index as int]
    }

    /// A sheet for `current_character`, on its first tab.
    pub fn new(current_character: Character) -> (r: CharacterSheet)
        ensures
            r.well_formed(),
            r.index == 0,
            r.current_tab == CharacterSheetTab::Stats,
            r.current_character == current_character,
    {
        CharacterSheet {
            current_character,
            current_tab: CharacterSheetTab::Stats,
            index: 0,
            all_tabs: CharacterSheetTab::get_all_tabs(),
        }
    }

    /// Moves to the next tab, from the last back to the first.
    pub fn next(&mut self)
        requires
            old(self).well_formed(),
        ensures
            final(self).well_formed(),
            final(self).index == (old(self).index + 1) % (all_tabs().len() as int),
            final(self).current_character == old(self).current_character,
    {
        self.index = (self.index + 1) % self.all_tabs.len();
        self.current_tab = self.all_tabs[self.index];
    }

    /// Moves to the previous tab, from the first back to the last.
    pub fn previous(&mut self)
        requires
            old(self).well_formed(),
        ensures
            final(self).well_formed(),
            old(self).index > 0 ==> final(self).index == old(self).index - 1,
            old(self).index == 0 ==> final(self).index == all_tabs().len() - 1,
            final(self).current_character == old(self).current_character,
    {
        if self.index > 0 {
            self.index = self.index - 1;
        } else {
            self.index = self.all_tabs.len() - 1;
        }
        self.current_tab = self.all_tabs[self.index];
    }

    /// Reacts to a key. Escape leaves; `q` goes back to the character list;
    /// tab and back-tab move to the next and the previous tab; any other key
    /// redraws the sheet.
    pub fn handle_keyboard_event(&mut self, key: Key) -> (r: Transition)
        requires
            old(self).well_formed(),
        ensures
            final(self).well_formed(),
            final(self).current_character == old(self).current_character,
            key == Key::Esc ==> r is Exit && final(self).index == old(self).index,
            key == Key::Char('q') ==> (r matches Transition::ChangeState(Destination::SelectScreen)) && final(self).index == old(self).index,
            key == Key::Tab ==> r is Input && final(self).index == (old(self).index + 1) % (all_tabs().len() as int),
            key == Key::BackTab ==> r is Input && final(self).index == (
                if old(self).index > 0 { old(self).index - 1 } else { all_tabs().len() - 1 }),
            !(key == Key::Esc || key == Key::Char('q') || key == Key::Tab || key == Key::BackTab) ==> r is Input
                && final(self).index == old(self).index,
    {
        match key {
            Key::Esc => Transition::Exit,
            Key::Char('q') => Transition::ChangeState(Destination::SelectScreen),
            Key::Tab => {
                self.next();
                Transition::Input
            },
            Key::BackTab => {
                self.previous();
                Transition::Input
            },
            _ => Transition::Input,
        }
    }
}

/// The plain character screen: the character on show.
#[derive(Clone, Debug)]
pub struct CharacterScreen {
    pub current_character: Character,
}

impl CharacterScreen {
    /// A screen that shows `current_character`.
    pub fn new(current_character: Character) -> (r: CharacterScreen)
        ensures
            r.current_character == current_character,
    {
        CharacterScreen { current_character }
    }

    /// Reacts to a key. Escape leaves; `q` goes back to the character list;
    /// `k` and `j` move the cursor, which the application draws; any other key
    /// redraws the screen.
    pub fn handle_keyboard_event(&self, key: Key) -> (r: Transition)
        ensures
            key == Key::Esc ==> r is Exit,
            key == Key::Char('q') ==> (r matches Transition::ChangeState(Destination::SelectScreen)),
            !(key == Key::Esc || key == Key::Char('q')) ==> r is Input,
    {
        match key {
            Key::Esc => Transition::Exit,
            Key::Char('q') => Transition::ChangeState(Destination::SelectScreen),
            _ => Transition::Input,
        }
    }
}

} // verus!
