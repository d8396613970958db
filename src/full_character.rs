//! A character with every part of its sheet: ability scores, saving throws,
//! proficiencies, languages, inventory and spells.
use vstd::prelude::*;
use std::collections::HashMap;
use crate::codec::{Alignment, Stats};
use crate::item::Item;
use crate::language::Language;
use crate::proficiency::Proficiency;
use crate::spells::Spell;

verus! {

/// A full character sheet.
#[derive(Clone, Debug)]
pub struct Character {
    pub id: Option<i64>,
    pub name: String,
    pub alignment: Alignment,
    pub stats: HashMap<Stats, u8>,
    pub proficiencies: Vec<Proficiency>,
    pub saving_throws: HashMap<Stats, bool>,
    pub proficiency_bonus: u8,
    pub passive_perception: u8,
    pub inspiration: bool,
    pub languages: Vec<Language>,
    pub invintory: Vec<Item>,
    pub spells: Vec<Spell>,
    pub speed: u8,
    pub gender: String,
    pub height: u8,
    pub weight: u8,
    pub age: u8,
    pub armor_class: u8,
    pub initiative: u8,
    pub hit_points: u16,
    pub temp_hit_points: u16,
    pub level: u8,
    pub xp: u64,
}

impl Character {
    /// A character not yet stored: neutral, with no scores, no lists, empty
    /// texts and zero counts.
    pub fn new() -> (r: Character)
        ensures
            r.id is None,
            r.name@ == Seq::<char>::empty(),
            r.alignment == Alignment::Neutral,
            r.stats@ == Map::<Stats, u8>::empty(),
            r.saving_throws@ == Map::<Stats, bool>::empty(),
            r.proficiencies@.len() == 0,
            r.languages@.len() == 0,
            r.invintory@.len() == 0,
            r.spells@.len() == 0,
            !r.inspiration,
            r.gender@ == Seq::<char>::empty(),
            r.proficiency_bonus == 0 && r.passive_perception == 0 && r.speed == 0,
            r.height == 0 && r.weight == 0 && r.age == 0 && r.armor_class == 0 && r.initiative == 0,
            r.hit_points == 0 && r.temp_hit_points == 0 && r.level == 0 && r.xp == 0,
    {
        Character {
            id: None,
            name: String::new(),
            alignment: Alignment::Neutral,
            stats: HashMap::new(),
            proficiencies: Vec::new(),
            saving_throws: HashMap::new(),
            proficiency_bonus: 0,
            passive_perception: 0,
            inspiration: false,
            languages: Vec::new(),
            invintory: Vec::new(),
            spells: Vec::new(),
            speed: 0,
            gender: String::new(),
            height: 0,
            weight: 0,
            age: 0,
            armor_class: 0,
            initiative: 0,
            hit_points: 0,
            temp_hit_points: 0,
            level: 0,
            xp: 0,
        }
    }
}

/// The few fields of a saved character that a list of characters shows.
#[derive(Clone, Debug)]
pub struct SavedCharacter {
    pub id: Option<i64>,
    pub name: String,
    pub race: String,
    pub class: String,
}

impl SavedCharacter {
    /// A summary with no id and empty texts.
    pub fn new() -> (r: SavedCharacter)
        ensures
            r.id is None,
            r.name@ == Seq::<char>::empty(),
            r.race@ == Seq::<char>::empty(),
            r.class@ == Seq::<char>::empty(),
    {
        SavedCharacter { id: None, name: String::new(), race: String::new(), class: String::new() }
    }
}

/// A character class.
#[derive(Debug)]
pub struct Class {
    pub id: Option<i64>,
    pub name: String,
    pub languages: Vec<Language>,
    pub features: Vec<crate::feature::Feature>,
    pub proficiencies: Vec<Proficiency>,
    pub saving_throws: HashMap<Stats, bool>,
    pub hit_dice: (u8, u8),
    pub spells_known: Option<u8>,
    pub spell_slots: Option<u8>,
    pub spell_slot_level: Option<u8>,
}

/// A character race.
#[derive(Clone, Debug)]
pub struct Race {
    pub id: Option<i64>,
    pub name: String,
    pub languages: Vec<Language>,
    pub proficiencies: Vec<Proficiency>,
    pub features: Vec<crate::feature::Feature>,
}

} // verus!
