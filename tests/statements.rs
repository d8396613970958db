use dnd_sheet::background::Background;
use dnd_sheet::junction::JunctionTable;
use dnd_sheet::language::Language;
use dnd_sheet::model::Model;
use dnd_sheet::spells::Spell;
use dnd_sheet::sql::{create_table_sql, decimal_text, delete_by_id_sql, markers_text, replace_sql, select_all_sql, select_by_id_sql};
use dnd_sheet::tables::Table;

#[test]
fn create_table_statement_for_languages() {
    let sql = create_table_sql(&Language::table(), &Language::columns());
    assert_eq!(sql, "CREATE TABLE IF NOT EXISTS languages (id INTEGER PRIMARY KEY, name TEXT UNIQUE NOT NULL, description TEXT UNIQUE NOT NULL)");
}

#[test]
fn replace_statement_for_spells() {
    let sql = replace_sql(&Spell::table(), &Spell::columns());
    assert_eq!(sql, "REPLACE INTO spells (id, name, school, level, casting_time, range, components, duration, description) VALUES (?1, ?2, ?3, ?4, ?5, ?6, ?7, ?8, ?9)");
}

#[test]
fn select_and_delete_statements() {
    let cols = Language::columns();
    assert_eq!(select_all_sql("languages", &cols), "SELECT id, name, description FROM languages");
    assert_eq!(select_by_id_sql("languages", &cols), "SELECT id, name, description FROM languages WHERE id=?1");
    assert_eq!(delete_by_id_sql("languages"), "DELETE FROM languages WHERE id=?1");
}

#[test]
fn markers_and_decimals() {
    assert_eq!(markers_text(0), "");
    assert_eq!(markers_text(1), "?1");
    assert_eq!(markers_text(3), "?1, ?2, ?3");
    assert!(markers_text(28).ends_with("?27, ?28"));
    assert_eq!(decimal_text(0), "0");
    assert_eq!(decimal_text(1234), "1234");
    assert_eq!(decimal_text(usize::MAX), usize::MAX.to_string());
}

#[test]
fn background_statement_has_every_slot() {
    let sql = replace_sql(&Background::table(), &Background::columns());
    assert!(sql.starts_with("REPLACE INTO backgrounds (id, name, personality_trait_1, "));
    assert!(sql.contains("flaw_6) VALUES (?1, ?2, "));
    assert!(sql.ends_with("?27, ?28)"));
}

#[test]
fn junction_statements() {
    let rel = JunctionTable::BackgroundLangs;
    assert_eq!(rel.name(), "background_languages");
    assert_eq!(rel.columns(), ("background".to_string(), "language".to_string()));
    assert_eq!(rel.references(), ("backgrounds".to_string(), "languages".to_string()));
    assert_eq!(rel.values(), "?1, ?2");
    assert_eq!(rel.create_sql(), "CREATE TABLE IF NOT EXISTS background_languages (background INTEGER REFERENCES backgrounds(id), language INTEGER REFERENCES languages(id), PRIMARY KEY (background, language))");
    assert_eq!(rel.clear_sql(), "DELETE FROM background_languages WHERE background=?1");
    assert_eq!(rel.insert_sql(), "INSERT OR REPLACE INTO background_languages (background, language) VALUES (?1, ?2)");
    assert_eq!(rel.select_ids_sql(), "SELECT background, language FROM background_languages WHERE background=?1");
    assert_eq!(JunctionTable::CharacterSpells.select_ids_sql(), "SELECT character, spell FROM character_spells WHERE character=?1");
}

#[test]
fn table_registry_by_name() {
    assert_eq!(Table::from_name("spells"), Some(Table::SpellsTable));
    assert_eq!(Table::from_name("backgrounds"), Some(Table::BackgroundsTable));
    assert_eq!(Table::from_name("dragons"), None);
    assert_eq!(Table::ProficiencyTable.name(), "proficiencies");
    assert!(Table::BackgroundsTable.has_junctions());
    assert!(!Table::ItemsTable.has_junctions());
    assert_eq!(Table::ItemsTable.junctions(), None);
    assert_eq!(Table::BackgroundsTable.junctions().map(|v| v.len()), Some(4));
    assert_eq!(Table::LanguagesTable.queries(), "id, name, description");
    assert_eq!(Table::FeaturesTable.values(), "?1, ?2, ?3, ?4");
    assert_eq!(Table::ProficiencyTable.columns(), "id INTEGER PRIMARY KEY, name TEXT, class TEXT");
}
