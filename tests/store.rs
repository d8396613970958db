use dnd_sheet::background::Background;
use dnd_sheet::character::Character;
use dnd_sheet::codec::{FeatureClass, ItemRarity, ProficiencyClass, School};
use dnd_sheet::database::Database;
use dnd_sheet::feature::Feature;
use dnd_sheet::item::Item;
use dnd_sheet::junction::JunctionTable;
use dnd_sheet::language::Language;
use dnd_sheet::proficiency::Proficiency;
use dnd_sheet::spells::Spell;
use dnd_sheet::value::DbError;

fn language(name: &str, description: &str) -> Language {
    let mut l = Language::new();
    l.name = name.to_string();
    l.description = description.to_string();
    l
}

fn sorted(mut v: Vec<i64>) -> Vec<i64> {
    v.sort();
    v
}

#[test]
fn saved_language_loads_back_with_its_id() {
    let mut db = Database::open_in_memory().unwrap();
    let l = language("Elvish", "Flowing script");
    let id = db.save(&l).unwrap();
    assert_eq!(id, 1);
    let back: Language = db.load(id).unwrap();
    assert_eq!(back.id, Some(1));
    assert_eq!(back.name, "Elvish");
    assert_eq!(back.description, "Flowing script");
}

#[test]
fn saving_with_an_id_replaces_the_row() {
    let mut db = Database::open_in_memory().unwrap();
    let mut l = language("Elvish", "Old");
    let id = db.save(&l).unwrap();
    l.id = Some(id);
    l.description = "New".to_string();
    assert_eq!(db.save(&l).unwrap(), id);
    let all: Vec<Language> = db.get_all_models().unwrap();
    assert_eq!(all.len(), 1);
    assert_eq!(all[0].description, "New");
}

#[test]
fn every_leaf_entity_round_trips_through_the_store() {
    let mut db = Database::open_in_memory().unwrap();
    let mut p = Proficiency::new();
    p.name = Some("Stealth".to_string());
    p.class = Some(ProficiencyClass::Skill);
    let pid = db.save(&p).unwrap();
    let pb: Proficiency = db.load(pid).unwrap();
    assert_eq!(pb.name, Some("Stealth".to_string()));
    assert_eq!(pb.class, Some(ProficiencyClass::Skill));

    let mut i = Item::new();
    i.name = "Lantern".to_string();
    i.class = "Gear".to_string();
    i.quantity = 3;
    i.rarity = Some(ItemRarity::Uncommon);
    i.value = 5;
    i.weight = 2;
    i.properties = "Light".to_string();
    i.description = "Hooded".to_string();
    let iid = db.save(&i).unwrap();
    let ib: Item = db.load(iid).unwrap();
    assert_eq!(ib.quantity, 3);
    assert_eq!(ib.rarity, Some(ItemRarity::Uncommon));
    assert_eq!(ib.weight, 2);

    let mut f = Feature::new();
    f.name = "Researcher".to_string();
    f.class = Some(FeatureClass::Background);
    f.description = "Knows where to look".to_string();
    let fid = db.save(&f).unwrap();
    let fb: Feature = db.load(fid).unwrap();
    assert_eq!(fb.class, Some(FeatureClass::Background));
    assert_eq!(fb.name, "Researcher");

    let mut s = Spell::new();
    s.name = "Light".to_string();
    s.school = Some(School::Evocation);
    s.level = 0;
    s.components = "V, M".to_string();
    s.description = "Glow".to_string();
    let sid = db.save(&s).unwrap();
    let sb: Spell = db.load_spell(sid).unwrap();
    assert_eq!(sb.school, Some(School::Evocation));
    assert_eq!(sb.components, "V, M");
}

#[test]
fn loading_an_absent_id_is_not_found() {
    let db = Database::open_in_memory().unwrap();
    db.ensure_table::<Language>().unwrap();
    match db.load::<Language>(42) {
        Err(DbError::NotFound { table, id }) => {
            assert_eq!(table, "languages");
            assert_eq!(id, 42);
        }
        _ => panic!("expected not found"),
    }
}

#[test]
fn replacing_associations_twice_keeps_one_set() {
    let mut db = Database::open_in_memory().unwrap();
    let rel = JunctionTable::BackgroundLangs;
    db.replace_associations(rel, 1, &vec![1, 2, 3]).unwrap();
    db.replace_associations(rel, 1, &vec![1, 2, 3]).unwrap();
    assert_eq!(sorted(db.load_junction_ids(rel, 1).unwrap()), vec![1, 2, 3]);
    db.replace_associations(rel, 1, &vec![3, 4, 4]).unwrap();
    assert_eq!(sorted(db.load_junction_ids(rel, 1).unwrap()), vec![3, 4]);
    db.replace_associations(rel, 2, &vec![9]).unwrap();
    assert_eq!(sorted(db.load_junction_ids(rel, 1).unwrap()), vec![3, 4]);
    assert_eq!(db.load_junction_ids(rel, 2).unwrap(), vec![9]);
}

#[test]
fn background_relations_are_hydrated_on_load() {
    let mut db = Database::open_in_memory().unwrap();
    let l1 = db.save(&language("Elvish", "Fair")).unwrap();
    let l2 = db.save(&language("Dwarvish", "Runic")).unwrap();
    let mut bg = Background::new();
    bg.name = "Sage".to_string();
    let mut langs = Vec::new();
    for id in [l1, l2] {
        let mut l: Language = db.load(id).unwrap();
        l.id = Some(id);
        langs.push(l);
    }
    bg.languages = Some(langs);
    let mut p = Proficiency::new();
    p.name = Some("Arcana".to_string());
    p.class = Some(ProficiencyClass::Skill);
    p.id = Some(db.save(&p).unwrap());
    bg.proficiencies = Some(vec![p]);
    let bid = db.save(&bg).unwrap();
    let back: Background = db.load(bid).unwrap();
    assert_eq!(back.name, "Sage");
    let ids = sorted(back.languages.as_ref().unwrap().iter().map(|l| l.id.unwrap()).collect());
    assert_eq!(ids, sorted(vec![l1, l2]));
    let profs = back.proficiencies.as_ref().unwrap();
    assert_eq!(profs.len(), 1);
    assert_eq!(profs[0].name, Some("Arcana".to_string()));
    assert!(back.starting_equipment.unwrap().is_empty());
    assert!(back.features.unwrap().is_empty());
}

#[test]
fn member_without_id_is_refused_and_rolled_back() {
    let mut db = Database::open_in_memory().unwrap();
    let mut bg = Background::new();
    bg.name = "Hermit".to_string();
    bg.languages = Some(vec![language("Unsaved", "Nowhere")]);
    assert!(matches!(db.save(&bg), Err(DbError::MissingColumn { .. })));
    let all: Vec<Background> = db.get_all_models().unwrap();
    assert!(all.is_empty());
}

#[test]
fn deleting_an_owner_clears_its_junction_rows() {
    let mut db = Database::open_in_memory().unwrap();
    let lid = db.save(&language("Elvish", "Fair")).unwrap();
    let mut bg = Background::new();
    let mut l: Language = db.load(lid).unwrap();
    l.id = Some(lid);
    bg.languages = Some(vec![l]);
    let bid = db.save(&bg).unwrap();
    assert_eq!(db.load_junction_ids(JunctionTable::BackgroundLangs, bid).unwrap(), vec![lid]);
    db.delete::<Background>(bid).unwrap();
    for rel in [JunctionTable::BackgroundProfs, JunctionTable::BackgroundLangs, JunctionTable::BackgroundInvintory, JunctionTable::BackgroundFeatures] {
        assert!(db.load_junction_ids(rel, bid).unwrap().is_empty());
    }
    assert!(matches!(db.load::<Background>(bid), Err(DbError::NotFound { .. })));
    db.delete::<Background>(bid).unwrap();
    let still: Language = db.load(lid).unwrap();
    assert_eq!(still.name, "Elvish");
}

#[test]
fn elvish_background_scenario() {
    let mut db = Database::open_in_memory().unwrap();
    let elvish = language("Elvish", "...");
    let lang_id = db.save(&elvish).unwrap();
    assert_eq!(lang_id, 1);
    let bg = Background::new();
    assert!(bg.languages.is_none());
    let bg_id = db.save(&bg).unwrap();
    db.replace_associations(JunctionTable::BackgroundLangs, bg_id, &vec![1]).unwrap();
    let back: Background = db.load(bg_id).unwrap();
    let langs = back.languages.unwrap();
    assert_eq!(langs.len(), 1);
    assert_eq!(langs[0].id, Some(1));
    assert_eq!(langs[0].name, "Elvish");
    assert_eq!(langs[0].description, "...");
}

#[test]
fn corrupt_enum_text_in_the_store_is_fatal() {
    let raw = rusqlite::Connection::open("file:corrupt_enum_store?mode=memory&cache=shared").unwrap();
    let db = Database::open("file:corrupt_enum_store?mode=memory&cache=shared").unwrap();
    db.ensure_table::<Proficiency>().unwrap();
    raw.execute("INSERT INTO proficiencies (id, name, class) VALUES (5, 'Stealth', 'Wizardry')", []).unwrap();
    match db.load::<Proficiency>(5) {
        Err(DbError::CorruptEnumeration { table, column, value }) => {
            assert_eq!(table, "proficiencies");
            assert_eq!(column, "class");
            assert_eq!(value, "Wizardry");
        }
        _ => panic!("expected a corrupt enumeration"),
    }
}

#[test]
fn character_spells_are_replaced_and_loaded() {
    let mut db = Database::open_in_memory().unwrap();
    db.create_spell_tables().unwrap();
    let mut s = Spell::new();
    s.name = "Mage Hand".to_string();
    s.school = Some(School::Conjuration);
    s.components = "V, S".to_string();
    s.description = "A spectral hand".to_string();
    db.save_spell(s).unwrap();
    let all = db.get_all_spells().unwrap();
    assert_eq!(all.len(), 1);
    let stored = all.into_iter().next().unwrap();
    assert_eq!(stored.id, Some(1));
    db.save_character_spells(Some(7), &vec![stored]).unwrap();
    let spells = db.load_character_spells(7).unwrap();
    assert_eq!(spells.len(), 1);
    assert_eq!(spells[0].name, "Mage Hand");
    assert!(matches!(db.save_character_spells(None, &vec![]), Err(DbError::MissingColumn { .. })));
}

#[test]
fn characters_are_stored_and_summarized() {
    let mut db = Database::open_in_memory().unwrap();
    db.create_character_table().unwrap();
    let mut c = Character::new();
    c.name = "Arwen".to_string();
    c.race = "Elf".to_string();
    c.class = "Ranger".to_string();
    c.background = "Noble".to_string();
    c.alignment = "Neutral Good".to_string();
    c.xp = 200;
    let id = db.save_character(&c).unwrap();
    let back = db.load_character(id).unwrap();
    assert_eq!(back.id, Some(id as u64));
    assert_eq!(back.xp, 200);
    assert_eq!(back.background, "Noble");
    let list = db.list_all_characters().unwrap();
    assert_eq!(list.len(), 1);
    assert_eq!(list[0].name, "Arwen");
    assert_eq!(list[0].class, "Ranger");
    assert_eq!(db.get_all_characters().unwrap().len(), 1);
    db.delete_character(&back).unwrap();
    assert!(db.list_all_characters().unwrap().is_empty());
    db.delete_character(&Character::new()).unwrap();
}

#[test]
fn text_that_is_not_utf8_is_an_error() {
    let raw = rusqlite::Connection::open("file:bad_text_store?mode=memory&cache=shared").unwrap();
    let db = Database::open("file:bad_text_store?mode=memory&cache=shared").unwrap();
    db.ensure_table::<Language>().unwrap();
    raw.execute("INSERT INTO languages (id, name, description) VALUES (3, CAST(x'ff' AS TEXT), 'Broken')", []).unwrap();
    assert!(matches!(db.load::<Language>(3), Err(DbError::StoreUnavailable { .. })));
}

#[test]
fn background_with_absent_lists_loads_with_empty_slots() {
    let mut db = Database::open_in_memory().unwrap();
    let mut bg = Background::new();
    bg.name = "Wanderer".to_string();
    let id = db.save(&bg).unwrap();
    let back: Background = db.load(id).unwrap();
    assert_eq!(back.name, "Wanderer");
    assert_eq!(back.personality_traits.unwrap().len(), 8);
    assert_eq!(back.bonds.unwrap()[0], "");
    assert!(back.languages.unwrap().is_empty());
}
