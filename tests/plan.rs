use dnd_sheet::background::Background;
use dnd_sheet::hydrate::{add_member_from_rows, ids_from_rows, referenced_ids};
use dnd_sheet::junction::{replacement_plan, JunctionOp, JunctionTable};
use dnd_sheet::tabs::{CharacterSheet, CharacterSheetTab};
use dnd_sheet::character::Character;
use dnd_sheet::value::{DbError, SqlValue};

#[test]
fn plan_clears_then_inserts_each_id_once() {
    let (ops, _) = replacement_plan(7, &vec![3, 1, 3, 2, 1]);
    assert_eq!(ops, vec![JunctionOp::Clear(7), JunctionOp::Insert(7, 3), JunctionOp::Insert(7, 1), JunctionOp::Insert(7, 2)]);
    let (empty, _) = replacement_plan(7, &vec![]);
    assert_eq!(empty, vec![JunctionOp::Clear(7)]);
}

#[test]
fn junction_rows_give_ids_in_order() {
    let rows = vec![vec![SqlValue::Integer(7), SqlValue::Integer(5)], vec![SqlValue::Integer(7), SqlValue::Integer(2)]];
    assert_eq!(ids_from_rows(&rows, JunctionTable::BackgroundProfs, 7).unwrap(), vec![5, 2]);
    let bad = vec![vec![SqlValue::Integer(7), SqlValue::Integer(5)], vec![SqlValue::Integer(7), SqlValue::Null]];
    assert!(matches!(ids_from_rows(&bad, JunctionTable::BackgroundProfs, 7), Err(DbError::MissingColumn { .. })));
    let other_owner = vec![vec![SqlValue::Integer(8), SqlValue::Integer(5)]];
    match ids_from_rows(&other_owner, JunctionTable::BackgroundProfs, 7) {
        Err(DbError::InvalidColumnType { table, column }) => {
            assert_eq!(table, "background_proficiencies");
            assert_eq!(column, "background");
        }
        _ => panic!("expected a row of another owner to be refused"),
    }
    let short_row: Vec<Vec<SqlValue>> = vec![vec![SqlValue::Integer(7)]];
    assert!(matches!(ids_from_rows(&short_row, JunctionTable::BackgroundProfs, 7), Err(DbError::SchemaMismatch { .. })));
}

#[test]
fn member_rows_are_appended_or_not_found() {
    let mut bg = Background::new();
    let row = vec![SqlValue::Integer(3), SqlValue::Text("Elvish".to_string()), SqlValue::Text("Fair".to_string())];
    add_member_from_rows(&vec![row.clone()], JunctionTable::BackgroundLangs, 3, &mut bg).unwrap();
    let langs = bg.languages.as_ref().unwrap();
    assert_eq!(langs.len(), 1);
    assert_eq!(langs[0].name, "Elvish");
    match add_member_from_rows(&vec![row], JunctionTable::BackgroundLangs, 4, &mut bg) {
        Err(DbError::NotFound { table, id }) => {
            assert_eq!(table, "languages");
            assert_eq!(id, 4);
        }
        _ => panic!("expected not found"),
    }
    assert!(matches!(add_member_from_rows(&vec![], JunctionTable::BackgroundLangs, 3, &mut bg), Err(DbError::NotFound { .. })));
    let broken = vec![SqlValue::Integer(5), SqlValue::Null, SqlValue::Text("x".to_string())];
    assert!(matches!(add_member_from_rows(&vec![broken], JunctionTable::BackgroundLangs, 5, &mut bg), Err(DbError::MissingColumn { .. })));
    assert_eq!(bg.languages.as_ref().unwrap().len(), 1);
}

#[test]
fn members_must_be_stored() {
    assert_eq!(referenced_ids(&vec![Some(1), Some(4)], JunctionTable::BackgroundLangs).unwrap(), vec![1, 4]);
    match referenced_ids(&vec![Some(1), None], JunctionTable::BackgroundLangs) {
        Err(DbError::MissingColumn { table, column }) => {
            assert_eq!(table, "background_languages");
            assert_eq!(column, "language");
        }
        _ => panic!("expected a missing referenced id"),
    }
}

#[test]
fn sheet_tabs_cycle_both_ways() {
    assert_eq!(CharacterSheetTab::get_all_tabs(), vec![CharacterSheetTab::Stats, CharacterSheetTab::Features, CharacterSheetTab::Spells]);
    assert_eq!(CharacterSheetTab::get_all_tab_strings(), vec!["Stats".to_string(), "Features".to_string(), "Spells".to_string()]);
    let mut sheet = CharacterSheet::new(Character::new());
    assert_eq!(sheet.current_tab, CharacterSheetTab::Stats);
    sheet.previous();
    assert_eq!(sheet.current_tab, CharacterSheetTab::Spells);
    assert_eq!(sheet.index, 2);
    sheet.next();
    assert_eq!(sheet.current_tab, CharacterSheetTab::Stats);
    sheet.next();
    assert_eq!(sheet.current_tab, CharacterSheetTab::Features);
}
