//! The character records the screens show: a full character, stored in
//! its own table, and the lightweight summary used to list saved characters.
use vstd::prelude::*;
use crate::junction::JunctionTable;
use crate::model::Model;
use crate::row::{read_int, read_text, read_uid, spec_read_int, spec_read_text, spec_read_uid, uid_param, uid_value};
use crate::sql::{Column, ColumnView, SqlType, columns_view};
use crate::value::{DbError, ErrorView, SqlValue, CellValue, row_view};

verus! {

/// A character as the character screen shows and edits it.
#[derive(Clone, Debug)]
pub struct Character {
    pub id: Option<u64>,
    pub name: String,
    pub race: String,
    pub class: String,
    pub background: String,
    pub alignment: String,
    pub xp: u8,
}

/// The mathematical form of a character.
pub struct CharacterView {
    pub id: Option<u64>,
    pub name: Seq<char>,
    pub race: Seq<char>,
    pub class: Seq<char>,
    pub background: Seq<char>,
    pub alignment: Seq<char>,
    pub xp: u8,
}

impl View for Character {
    type V = CharacterView;

    open spec fn view(&self) -> CharacterView {
        CharacterView {
            id: self.id,
            name: self.name@,
            race: self.race@,
            class: self.class@,
            background: self.background@,
            alignment: self.alignment@,
            xp: self.xp,
        }
    }
}

impl Character {
    /// A character not yet stored, with empty texts and no experience.
    pub fn new() -> (r: Character)
        ensures
            r@ == (CharacterView {
                id: None,
                name: Seq::empty(),
                race: Seq::empty(),
                class: Seq::empty(),
                background: Seq::empty(),
                alignment: Seq::empty(),
                xp: 0,
            }),
    {
        Character {
            id: None,
            name: String::new(),
            race: String::new(),
            class: String::new(),
            background: String::new(),
            alignment: String::new(),
            xp: 0,
        }
    }
}

impl Model for Character {
    open spec fn spec_table() -> Seq<char> {
        "characters"@
    }

    open spec fn spec_columns() -> Seq<ColumnView> {
        seq![
            ColumnView { name: "id"@, sql_type: SqlType::Integer, primary_key: true, unique: false, not_null: false },
            ColumnView { name: "name"@, sql_type: SqlType::Text, primary_key: false, unique: false, not_null: true },
            ColumnView { name: "race"@, sql_type: SqlType::Text, primary_key: false, unique: false, not_null: true },
            ColumnView { name: "class"@, sql_type: SqlType::Text, primary_key: false, unique: false, not_null: true },
            ColumnView { name: "background"@, sql_type: SqlType::Text, primary_key: false, unique: false, not_null: true },
            ColumnView { name: "alignment"@, sql_type: SqlType::Text, primary_key: false, unique: false, not_null: true },
            ColumnView { name: "xp"@, sql_type: SqlType::Integer, primary_key: false, unique: false, not_null: true },
        ]
    }

    open spec fn within_limits(v: CharacterView) -> bool {
        (v.id matches Some(n) ==> n <= i64::MAX as u64)
    }

    open spec fn well_formed(v: CharacterView) -> bool {
        Self::within_limits(v)
    }

    open spec fn spec_params(v: CharacterView) -> Seq<CellValue> {
        seq![
            uid_value(v.id),
            CellValue::Text(v.name),
            CellValue::Text(v.race),
            CellValue::Text(v.class),
            CellValue::Text(v.background),
            CellValue::Text(v.alignment),
            CellValue::Integer(v.xp as i64),
        ]
    }

    open spec fn spec_build(row: Seq<CellValue>) -> Result<CharacterView, ErrorView> {
        let t = "characters"@;
        if row.len() != 7 {
            Err(ErrorView::SchemaMismatch { table: t, expected: 7, found: row.len() as usize })
        } else {
            match spec_read_uid(row, 0, t, "id"@) {
                Err(e) => Err(e),
                Ok(id) => 
                    match spec_read_text(row, 1, t, "name"@) {
                        Err(e) => Err(e),
                        Ok(name) => 
                            match spec_read_text(row, 2, t, "race"@) {
                                Err(e) => Err(e),
                                Ok(race) => 
                                    match spec_read_text(row, 3, t, "class"@) {
                                        Err(e) => Err(e),
                                        Ok(class) => 
                                            match spec_read_text(row, 4, t, "background"@) {
                                                Err(e) => Err(e),
                                                Ok(background) => 
                                                    match spec_read_text(row, 5, t, "alignment"@) {
                                                        Err(e) => Err(e),
                                                        Ok(alignment) => 
                                                            match spec_read_int(row, 6, t, "xp"@, 0, 255) {
                                                                Err(e) => Err(e),
                                                                Ok(xp_n) => Ok(CharacterView { id, name, race, class, background, alignment, xp: xp_n as u8 }),
                                                                },
                                                        },
                                                },
                                        },
                                },
                        },
            }
        }
    }

    open spec fn spec_id(v: CharacterView) -> Option<i64> {
        match v.id {
            Some(n) => Some(n as i64),
            None => None,
        }
    }

    open spec fn spec_scalar(v: CharacterView) -> CharacterView {
        v
    }

    open spec fn spec_with_id(v: CharacterView, id: i64) -> CharacterView {
        CharacterView { id: Some(id as u64), ..v }
    }

    open spec fn spec_junctions() -> Seq<JunctionTable> {
        Seq::empty()
    }

    open spec fn spec_related(v: CharacterView, rel: JunctionTable) -> Seq<Option<i64>> {
        Seq::empty()
    }

    open spec fn spec_add_member(v: CharacterView, rel: JunctionTable, row: Seq<CellValue>) -> Result<CharacterView, ErrorView> {
        Ok(v)
    }

    fn table() -> (r: String) {
        String::from_str("characters")
    }

    fn columns() -> (r: Vec<Column>) {
        let r = vec![
            Column::new("id", SqlType::Integer, true, false, false),
            Column::new("name", SqlType::Text, false, false, true),
            Column::new("race", SqlType::Text, false, false, true),
            Column::new("class", SqlType::Text, false, false, true),
            Column::new("background", SqlType::Text, false, false, true),
            Column::new("alignment", SqlType::Text, false, false, true),
            Column::new("xp", SqlType::Integer, false, false, true),
        ];
        assert(columns_view(r@) =~= Self::spec_columns());
        r
    }

    fn parameters(&self) -> (r: Vec<SqlValue>) {
        let r = vec![
            uid_param(self.id),
            SqlValue::Text(self.name.clone()),
            SqlValue::Text(self.race.clone()),
            SqlValue::Text(self.class.clone()),
            SqlValue::Text(self.background.clone()),
            SqlValue::Text(self.alignment.clone()),
            SqlValue::Integer(self.xp as i64),
        ];
        assert(row_view(r@) =~= Self::spec_params(self@));
        r
    }

    fn build(row: &Vec<SqlValue>) -> (r: Result<Self, DbError>) {
        if row.len() != 7 {
            return Err(DbError::SchemaMismatch { table: String::from_str("characters"), expected: 7, found: row.len() });
        }
        let id = match read_uid(row, 0, "characters", "id") {
            Ok(v) => v,
            Err(e) => return Err(e),
        };
        let name = match read_text(row, 1, "characters", "name") {
            Ok(v) => v,
            Err(e) => return Err(e),
        };
        let race = match read_text(row, 2, "characters", "race") {
            Ok(v) => v,
            Err(e) => return Err(e),
        };
        let class = match read_text(row, 3, "characters", "class") {
            Ok(v) => v,
            Err(e) => return Err(e),
        };
        let background = match read_text(row, 4, "characters", "background") {
            Ok(v) => v,
            Err(e) => return Err(e),
        };
        let alignment = match read_text(row, 5, "characters", "alignment") {
            Ok(v) => v,
            Err(e) => return Err(e),
        };
        let xp = match read_int(row, 6, "characters", "xp", 0, 255) {
            Ok(v) => v as u8,
            Err(e) => return Err(e),
        };
        Ok(Character { id, name, race, class, background, alignment, xp })
    }

    fn id(&self) -> (r: Option<i64>) {
        match self.id {
            Some(n) => Some(n as i64),
            None => None,
        }
    }

    fn junctions() -> (r: Vec<JunctionTable>) {
        let r: Vec<JunctionTable> = Vec::new();
        assert(r@ =~= Self::spec_junctions());
        r
    }

    fn related_ids(&self, rel: JunctionTable) -> (r: Vec<Option<i64>>) {
        let r: Vec<Option<i64>> = Vec::new();
        assert(r@ =~= Self::spec_related(self@, rel));
        r
    }

    fn build_junction(&mut self, rel: JunctionTable, row: &Vec<SqlValue>) -> (r: Result<(), DbError>) {
        Ok(())
    }

    proof fn lemma_round_trip(v: CharacterView) {
    }

    proof fn lemma_well_formed_within_limits(v: CharacterView) {
        Self::lemma_round_trip(v);
    }

    proof fn lemma_add_member_keeps_id(v: CharacterView, rel: JunctionTable, row: Seq<CellValue>) {
    }

    proof fn lemma_with_id(v: CharacterView, id: i64) {
        assert(Self::spec_params(Self::spec_with_id(v, id)) =~= Self::spec_params(v).update(0, CellValue::Integer(id)));
    }

    proof fn lemma_junctions_distinct() {
    }

    proof fn lemma_leaf_is_scalar(v: CharacterView) {
    }

    proof fn lemma_build_fresh(row: Seq<CellValue>) {
    }
}


/// The few fields of a saved character that a list of characters shows.
#[derive(Clone, Debug)]
pub struct SavedCharacter {
    pub id: Option<u64>,
    pub name: String,
    pub race: String,
    pub class: String,
}

impl SavedCharacter {
    /// A summary with no id and empty texts.
    pub fn new() -> (r: SavedCharacter)
        ensures
            r.id is None,
            r.name@ == Seq::<char>::empty(),
            r.race@ == Seq::<char>::empty(),
            r.class@ == Seq::<char>::empty(),
    {
        SavedCharacter { id: None, name: String::new(), race: String::new(), class: String::new() }
    }

    /// The summary of a stored character.
    pub fn of(c: &Character) -> (r: SavedCharacter)
        ensures
            r.id == c.id,
            r.name@ == c.name@,
            r.race@ == c.race@,
            r.class@ == c.class@,
    {
        SavedCharacter { id: c.id, name: c.name.clone(), race: c.race.clone(), class: c.class.clone() }
    }
}

} // verus!
