use dnd_sheet::background::Background;
use dnd_sheet::codec::{ItemRarity, ProficiencyClass, School};
use dnd_sheet::item::Item;
use dnd_sheet::language::Language;
use dnd_sheet::model::Model;
use dnd_sheet::proficiency::Proficiency;
use dnd_sheet::spells::Spell;
use dnd_sheet::value::{DbError, SqlValue};

fn text(s: &str) -> SqlValue {
    SqlValue::Text(s.to_string())
}

#[test]
fn language_row_round_trip() {
    let mut l = Language::new();
    l.id = Some(4);
    l.name = "Dwarvish".to_string();
    l.description = "Runes".to_string();
    let back = Language::build(&l.parameters()).unwrap();
    assert_eq!(back.id, Some(4));
    assert_eq!(back.name, "Dwarvish");
    assert_eq!(back.description, "Runes");
}

#[test]
fn item_row_round_trip() {
    let mut i = Item::new();
    i.name = "Rope".to_string();
    i.class = "Gear".to_string();
    i.quantity = 2;
    i.rarity = Some(ItemRarity::Rare);
    i.value = 65535;
    i.weight = 9_223_372_036_854_775_807;
    i.properties = "50 ft".to_string();
    i.description = "Hempen".to_string();
    let row = i.parameters();
    assert_eq!(row.len(), Item::columns().len());
    let back = Item::build(&row).unwrap();
    assert_eq!(back.id, None);
    assert_eq!(back.rarity, Some(ItemRarity::Rare));
    assert_eq!(back.quantity, 2);
    assert_eq!(back.value, 65535);
    assert_eq!(back.weight, 9_223_372_036_854_775_807);
    assert_eq!(back.properties, "50 ft");
}

#[test]
fn spell_row_round_trip() {
    let mut s = Spell::new();
    s.id = Some(9);
    s.name = "Shield".to_string();
    s.school = Some(School::Abjuration);
    s.level = 1;
    s.casting_time = 1;
    s.range = 0;
    s.components = "V, S".to_string();
    s.duration = 1;
    s.description = "+5 AC".to_string();
    let back = Spell::build(&s.parameters()).unwrap();
    assert_eq!(back.school, Some(School::Abjuration));
    assert_eq!(back.components, "V, S");
    assert_eq!(back.level, 1);
}

#[test]
fn background_row_round_trip() {
    let mut b = Background::new();
    b.name = "Sage".to_string();
    let mut traits: [String; 8] = Default::default();
    traits[0] = "Curious".to_string();
    b.personality_traits = Some(traits);
    let mut flaws: [String; 6] = Default::default();
    flaws[5] = "Absent-minded".to_string();
    b.flaws = Some(flaws);
    let row = b.parameters();
    assert_eq!(row.len(), 28);
    let back = Background::build(&row).unwrap();
    assert_eq!(back.name, "Sage");
    let traits = back.personality_traits.unwrap();
    assert_eq!(traits[0], "Curious");
    assert_eq!(traits[7], "");
    assert_eq!(back.flaws.unwrap()[5], "Absent-minded");
    assert_eq!(back.ideals.unwrap()[0], "");
    assert!(back.languages.unwrap().is_empty());
}

#[test]
fn fresh_background_has_every_list_absent_and_a_full_row() {
    let b = Background::new();
    assert!(b.personality_traits.is_none());
    assert!(b.ideals.is_none());
    assert!(b.bonds.is_none());
    assert!(b.flaws.is_none());
    assert!(b.proficiencies.is_none());
    assert!(b.languages.is_none());
    assert!(b.starting_equipment.is_none());
    assert!(b.features.is_none());
    let row = b.parameters();
    assert_eq!(row.len(), Background::columns().len());
    assert!(matches!(&row[2], SqlValue::Text(t) if t.is_empty()));
}

#[test]
fn optional_fields_accept_null() {
    let row = vec![SqlValue::Integer(1), SqlValue::Null, SqlValue::Null];
    let p = Proficiency::build(&row).unwrap();
    assert_eq!(p.id, Some(1));
    assert_eq!(p.name, None);
    assert_eq!(p.class, None);
}

#[test]
fn null_in_required_field_is_missing_column() {
    let row = vec![SqlValue::Integer(1), SqlValue::Null, text("Old tongue")];
    match Language::build(&row) {
        Err(DbError::MissingColumn { table, column }) => {
            assert_eq!(table, "languages");
            assert_eq!(column, "name");
        }
        _ => panic!("expected a missing column"),
    }
}

#[test]
fn unknown_enum_text_is_corrupt_enumeration() {
    let row = vec![SqlValue::Integer(2), text("Stealth"), text("Wizardry")];
    match Proficiency::build(&row) {
        Err(DbError::CorruptEnumeration { table, column, value }) => {
            assert_eq!(table, "proficiencies");
            assert_eq!(column, "class");
            assert_eq!(value, "Wizardry");
        }
        _ => panic!("expected a corrupt enumeration"),
    }
    let ok = vec![SqlValue::Integer(2), text("Stealth"), text("Skill")];
    assert_eq!(Proficiency::build(&ok).unwrap().class, Some(ProficiencyClass::Skill));
}

#[test]
fn short_row_is_schema_mismatch() {
    let row = vec![SqlValue::Integer(1), text("Elvish")];
    match Language::build(&row) {
        Err(DbError::SchemaMismatch { table, expected, found }) => {
            assert_eq!(table, "languages");
            assert_eq!(expected, 3);
            assert_eq!(found, 2);
        }
        _ => panic!("expected a schema mismatch"),
    }
}

#[test]
fn out_of_range_or_wrong_kind_is_invalid_column_type() {
    let mut row = Item::new().parameters();
    row[3] = SqlValue::Integer(70000);
    match Item::build(&row) {
        Err(DbError::InvalidColumnType { table, column }) => {
            assert_eq!(table, "items");
            assert_eq!(column, "quantity");
        }
        _ => panic!("expected an invalid column type"),
    }
    let bad_id = vec![text("one"), text("Elvish"), text("Fair")];
    assert!(matches!(Language::build(&bad_id), Err(DbError::InvalidColumnType { .. })));
    let real = vec![SqlValue::Integer(1), SqlValue::Real, text("Fair")];
    assert!(matches!(Language::build(&real), Err(DbError::InvalidColumnType { .. })));
}
