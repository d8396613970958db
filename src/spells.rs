//! A spell.
use vstd::prelude::*;
use crate::codec::{Codec, School};
use crate::junction::JunctionTable;
use crate::model::Model;
use crate::row::{lemma_unknown_enum_text_is_fatal, enum_param, enum_value, id_param, id_value, read_enum, read_id, read_int, read_text, spec_read_enum, spec_read_id, spec_read_int, spec_read_text};
use crate::sql::{Column, ColumnView, SqlType, columns_view};
use crate::value::{DbError, ErrorView, SqlValue, CellValue, row_view};

verus! {

/// A spell.
#[derive(Clone, Debug)]
pub struct Spell {
    pub id: Option<i64>,
    pub name: String,
    pub school: Option<School>,
    pub level: u8,
    pub casting_time: u8,
    pub range: u8,
    pub components: String,
    pub duration: u8,
    pub description: String,
}

/// The mathematical form of a spell.
pub struct SpellView {
    pub id: Option<i64>,
    pub name: Seq<char>,
    pub school: Option<School>,
    pub level: u8,
    pub casting_time: u8,
    pub range: u8,
    pub components: Seq<char>,
    pub duration: u8,
    pub description: Seq<char>,
}

impl View for Spell {
    type V = SpellView;

    open spec fn view(&self) -> SpellView {
        SpellView {
            id: self.id,
            name: self.name@,
            school: self.school,
            level: self.level,
            casting_time: self.casting_time,
            range: self.range,
            components: self.components@,
            duration: self.duration,
            description: self.description@,
        }
    }
}

impl Spell {
    /// A spell not yet stored, with empty texts, no school and zero level,
    /// casting time, range and duration.
    pub fn new() -> (r: Spell)
        ensures
            r@ == (SpellView {
                id: None,
                name: Seq::empty(),
                school: None,
                level: 0,
                casting_time: 0,
                range: 0,
                components: Seq::empty(),
                duration: 0,
                description: Seq::empty(),
            }),
    {
        Spell {
            id: None,
            name: String::new(),
            school: None,
            level: 0,
            casting_time: 0,
            range: 0,
            components: String::new(),
            duration: 0,
            description: String::new(),
        }
    }
}

impl Model for Spell {
    open spec fn spec_table() -> Seq<char> {
        "spells"@
    }

    open spec fn spec_columns() -> Seq<ColumnView> {
        seq![
            ColumnView { name: "id"@, sql_type: SqlType::Integer, primary_key: true, unique: false, not_null: false },
            ColumnView { name: "name"@, sql_type: SqlType::Text, primary_key: false, unique: false, not_null: true },
            ColumnView { name: "school"@, sql_type: SqlType::Text, primary_key: false, unique: false, not_null: false },
            ColumnView { name: "level"@, sql_type: SqlType::Integer, primary_key: false, unique: false, not_null: true },
            ColumnView { name: "casting_time"@, sql_type: SqlType::Integer, primary_key: false, unique: false, not_null: true },
            ColumnView { name: "range"@, sql_type: SqlType::Integer, primary_key: false, unique: false, not_null: true },
            ColumnView { name: "components"@, sql_type: SqlType::Text, primary_key: false, unique: false, not_null: true },
            ColumnView { name: "duration"@, sql_type: SqlType::Integer, primary_key: false, unique: false, not_null: true },
            ColumnView { name: "description"@, sql_type: SqlType::Text, primary_key: false, unique: false, not_null: true },
        ]
    }

    open spec fn within_limits(v: SpellView) -> bool {
        true
    }

    open spec fn well_formed(v: SpellView) -> bool {
        Self::within_limits(v)
    }

    open spec fn spec_params(v: SpellView) -> Seq<CellValue> {
        seq![
            id_value(v.id),
            CellValue::Text(v.name),
            enum_value(v.school),
            CellValue::Integer(v.level as i64),
            CellValue::Integer(v.casting_time as i64),
            CellValue::Integer(v.range as i64),
            CellValue::Text(v.components),
            CellValue::Integer(v.duration as i64),
            CellValue::Text(v.description),
        ]
    }

    open spec fn spec_build(row: Seq<CellValue>) -> Result<SpellView, ErrorView> {
        let t = "spells"@;
        if row.len() != 9 {
            Err(ErrorView::SchemaMismatch { table: t, expected: 9, found: row.len() as usize })
        } else {
            match spec_read_id(row, 0, t, "id"@) {
                Err(e) => Err(e),
                Ok(id) => 
                    match spec_read_text(row, 1, t, "name"@) {
                        Err(e) => Err(e),
                        Ok(name) => 
                            match spec_read_enum::<School>(row, 2, t, "school"@) {
                                Err(e) => Err(e),
                                Ok(school) => 
                                    match spec_read_int(row, 3, t, "level"@, 0, 255) {
                                        Err(e) => Err(e),
                                        Ok(level_n) => 
                                            match spec_read_int(row, 4, t, "casting_time"@, 0, 255) {
                                                Err(e) => Err(e),
                                                Ok(casting_time_n) => 
                                                    match spec_read_int(row, 5, t, "range"@, 0, 255) {
                                                        Err(e) => Err(e),
                                                        Ok(range_n) => 
                                                            match spec_read_text(row, 6, t, "components"@) {
                                                                Err(e) => Err(e),
                                                                Ok(components) => 
                                                                    match spec_read_int(row, 7, t, "duration"@, 0, 255) {
                                                                        Err(e) => Err(e),
                                                                        Ok(duration_n) => 
                                                                            match spec_read_text(row, 8, t, "description"@) {
                                                                                Err(e) => Err(e),
                                                                                Ok(description) => Ok(SpellView { id, name, school, level: level_n as u8, casting_time: casting_time_n as u8, range: range_n as u8, components, duration: duration_n as u8, description }),
                                                                                },
                                                                        },
                                                                },
                                                        },
                                                },
                                        },
                                },
                        },
            }
        }
    }

    open spec fn spec_id(v: SpellView) -> Option<i64> {
        v.id
    }

    open spec fn spec_scalar(v: SpellView) -> SpellView {
        v
    }

    open spec fn spec_with_id(v: SpellView, id: i64) -> SpellView {
        SpellView { id: Some(id), ..v }
    }

    open spec fn spec_junctions() -> Seq<JunctionTable> {
        Seq::empty()
    }

    open spec fn spec_related(v: SpellView, rel: JunctionTable) -> Seq<Option<i64>> {
        Seq::empty()
    }

    open spec fn spec_add_member(v: SpellView, rel: JunctionTable, row: Seq<CellValue>) -> Result<SpellView, ErrorView> {
        Ok(v)
    }

    fn table() -> (r: String) {
        String::from_str("spells")
    }

    fn columns() -> (r: Vec<Column>) {
        let r = vec![
            Column::new("id", SqlType::Integer, true, false, false),
            Column::new("name", SqlType::Text, false, false, true),
            Column::new("school", SqlType::Text, false, false, false),
            Column::new("level", SqlType::Integer, false, false, true),
            Column::new("casting_time", SqlType::Integer, false, false, true),
            Column::new("range", SqlType::Integer, false, false, true),
            Column::new("components", SqlType::Text, false, false, true),
            Column::new("duration", SqlType::Integer, false, false, true),
            Column::new("description", SqlType::Text, false, false, true),
        ];
        assert(columns_view(r@) =~= Self::spec_columns());
        r
    }

    fn parameters(&self) -> (r: Vec<SqlValue>) {
        let r = vec![
            id_param(self.id),
            SqlValue::Text(self.name.clone()),
            enum_param(&self.school),
            SqlValue::Integer(self.level as i64),
            SqlValue::Integer(self.casting_time as i64),
            SqlValue::Integer(self.range as i64),
            SqlValue::Text(self.components.clone()),
            SqlValue::Integer(self.duration as i64),
            SqlValue::Text(self.description.clone()),
        ];
        assert(row_view(r@) =~= Self::spec_params(self@));
        r
    }

    fn build(row: &Vec<SqlValue>) -> (r: Result<Self, DbError>) {
        if row.len() != 9 {
            return Err(DbError::SchemaMismatch { table: String::from_str("spells"), expected: 9, found: row.len() });
        }
        let id = match read_id(row, 0, "spells", "id") {
            Ok(v) => v,
            Err(e) => return Err(e),
        };
        let name = match read_text(row, 1, "spells", "name") {
            Ok(v) => v,
            Err(e) => return Err(e),
        };
        let school = match read_enum::<School>(row, 2, "spells", "school") {
            Ok(v) => v,
            Err(e) => return Err(e),
        };
        let level = match read_int(row, 3, "spells", "level", 0, 255) {
            Ok(v) => v as u8,
            Err(e) => return Err(e),
        };
        let casting_time = match read_int(row, 4, "spells", "casting_time", 0, 255) {
            Ok(v) => v as u8,
            Err(e) => return Err(e),
        };
        let range = match read_int(row, 5, "spells", "range", 0, 255) {
            Ok(v) => v as u8,
            Err(e) => return Err(e),
        };
        let components = match read_text(row, 6, "spells", "components") {
            Ok(v) => v,
            Err(e) => return Err(e),
        };
        let duration = match read_int(row, 7, "spells", "duration", 0, 255) {
            Ok(v) => v as u8,
            Err(e) => return Err(e),
        };
        let description = match read_text(row, 8, "spells", "description") {
            Ok(v) => v,
            Err(e) => return Err(e),
        };
        Ok(Spell { id, name, school, level, casting_time, range, components, duration, description })
    }

    fn id(&self) -> (r: Option<i64>) {
        self.id
    }

    fn junctions() -> (r: Vec<JunctionTable>) {
        let r: Vec<JunctionTable> = Vec::new();
        assert(r@ =~= Self::spec_junctions());
        r
    }

    fn related_ids(&self, rel: JunctionTable) -> (r: Vec<Option<i64>>) {
        let r: Vec<Option<i64>> = Vec::new();
        assert(r@ =~= Self::spec_related(self@, rel));
        r
    }

    fn build_junction(&mut self, rel: JunctionTable, row: &Vec<SqlValue>) -> (r: Result<(), DbError>) {
        Ok(())
    }

    proof fn lemma_round_trip(v: SpellView) {
        match v.school {
            Some(c) => School::lemma_parse_text(c),
            None => {},
        }
    }

    proof fn lemma_well_formed_within_limits(v: SpellView) {
        Self::lemma_round_trip(v);
    }

    proof fn lemma_add_member_keeps_id(v: SpellView, rel: JunctionTable, row: Seq<CellValue>) {
    }

    proof fn lemma_with_id(v: SpellView, id: i64) {
        assert(Self::spec_params(Self::spec_with_id(v, id)) =~= Self::spec_params(v).update(0, CellValue::Integer(id)));
    }

    proof fn lemma_junctions_distinct() {
    }

    proof fn lemma_leaf_is_scalar(v: SpellView) {
    }

    proof fn lemma_build_fresh(row: Seq<CellValue>) {
    }
}

/// A row whose `school` column holds text that names no variant is not read
/// as spell at all: reading it fails with a corrupt enumeration that
/// carries the text, never with a default variant.
pub proof fn lemma_unknown_school_is_fatal(row: Seq<CellValue>, s: Seq<char>)
    requires
        row.len() == 9,
        spec_read_id(row, 0, "spells"@, "id"@) is Ok,
        spec_read_text(row, 1, "spells"@, "name"@) is Ok,
        row[2] == CellValue::Text(s),
        forall|v: School| v.text_of() != s,
    ensures
        Spell::spec_build(row) == Err::<SpellView, ErrorView>(ErrorView::CorruptEnumeration { table: "spells"@, column: "school"@, value: s }),
{
    lemma_unknown_enum_text_is_fatal::<School>(row, 2, "spells"@, "school"@, s);
}

} // verus!
