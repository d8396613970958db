//! A skill, armor, weapon or tool a character is proficient with.
use vstd::prelude::*;
use crate::codec::{Codec, ProficiencyClass};
use crate::junction::JunctionTable;
use crate::model::Model;
use crate::row::{lemma_unknown_enum_text_is_fatal, enum_param, enum_value, id_param, id_value, opt_text_param, opt_text_value, opt_text_view, read_enum, read_id, read_opt_text, spec_read_enum, spec_read_id, spec_read_opt_text};
use crate::sql::{Column, ColumnView, SqlType, columns_view};
use crate::value::{DbError, ErrorView, SqlValue, CellValue, row_view};

verus! {

/// A skill, armor, weapon or tool a character is proficient with.
#[derive(Clone, Debug)]
pub struct Proficiency {
    pub id: Option<i64>,
    pub name: Option<String>,
    pub class: Option<ProficiencyClass>,
}

/// The mathematical form of a proficiency.
pub struct ProficiencyView {
    pub id: Option<i64>,
    pub name: Option<Seq<char>>,
    pub class: Option<ProficiencyClass>,
}

impl View for Proficiency {
    type V = ProficiencyView;

    open spec fn view(&self) -> ProficiencyView {
        ProficiencyView {
            id: self.id,
            name: opt_text_view(self.name),
            class: self.class,
        }
    }
}

impl Proficiency {
    /// A proficiency not yet stored, with no name and no class.
    pub fn new() -> (r: Proficiency)
        ensures
            r@ == (ProficiencyView {
                id: None,
                name: None,
                class: None,
            }),
    {
        Proficiency {
            id: None,
            name: None,
            class: None,
        }
    }
}

impl Model for Proficiency {
    open spec fn spec_table() -> Seq<char> {
        "proficiencies"@
    }

    open spec fn spec_columns() -> Seq<ColumnView> {
        seq![
            ColumnView { name: "id"@, sql_type: SqlType::Integer, primary_key: true, unique: false, not_null: false },
            ColumnView { name: "name"@, sql_type: SqlType::Text, primary_key: false, unique: false, not_null: false },
            ColumnView { name: "class"@, sql_type: SqlType::Text, primary_key: false, unique: false, not_null: false },
        ]
    }

    open spec fn within_limits(v: ProficiencyView) -> bool {
        true
    }

    open spec fn well_formed(v: ProficiencyView) -> bool {
        Self::within_limits(v)
    }

    open spec fn spec_params(v: ProficiencyView) -> Seq<CellValue> {
        seq![
            id_value(v.id),
            opt_text_value(v.name),
            enum_value(v.class),
        ]
    }

    open spec fn spec_build(row: Seq<CellValue>) -> Result<ProficiencyView, ErrorView> {
        let t = "proficiencies"@;
        if row.len() != 3 {
            Err(ErrorView::SchemaMismatch { table: t, expected: 3, found: row.len() as usize })
        } else {
            match spec_read_id(row, 0, t, "id"@) {
                Err(e) => Err(e),
                Ok(id) => 
                    match spec_read_opt_text(row, 1, t, "name"@) {
                        Err(e) => Err(e),
                        Ok(name) => 
                            match spec_read_enum::<ProficiencyClass>(row, 2, t, "class"@) {
                                Err(e) => Err(e),
                                Ok(class) => Ok(ProficiencyView { id, name, class }),
                                },
                        },
            }
        }
    }

    open spec fn spec_id(v: ProficiencyView) -> Option<i64> {
        v.id
    }

    open spec fn spec_scalar(v: ProficiencyView) -> ProficiencyView {
        v
    }

    open spec fn spec_with_id(v: ProficiencyView, id: i64) -> ProficiencyView {
        ProficiencyView { id: Some(id), ..v }
    }

    open spec fn spec_junctions() -> Seq<JunctionTable> {
        Seq::empty()
    }

    open spec fn spec_related(v: ProficiencyView, rel: JunctionTable) -> Seq<Option<i64>> {
        Seq::empty()
    }

    open spec fn spec_add_member(v: ProficiencyView, rel: JunctionTable, row: Seq<CellValue>) -> Result<ProficiencyView, ErrorView> {
        Ok(v)
    }

    fn table() -> (r: String) {
        String::from_str("proficiencies")
    }

    fn columns() -> (r: Vec<Column>) {
        let r = vec![
            Column::new("id", SqlType::Integer, true, false, false),
            Column::new("name", SqlType::Text, false, false, false),
            Column::new("class", SqlType::Text, false, false, false),
        ];
        assert(columns_view(r@) =~= Self::spec_columns());
        r
    }

    fn parameters(&self) -> (r: Vec<SqlValue>) {
        let r = vec![
            id_param(self.id),
            opt_text_param(&self.name),
            enum_param(&self.class),
        ];
        assert(row_view(r@) =~= Self::spec_params(self@));
        r
    }

    fn build(row: &Vec<SqlValue>) -> (r: Result<Self, DbError>) {
        if row.len() != 3 {
            return Err(DbError::SchemaMismatch { table: String::from_str("proficiencies"), expected: 3, found: row.len() });
        }
        let id = match read_id(row, 0, "proficiencies", "id") {
            Ok(v) => v,
            Err(e) => return Err(e),
        };
        let name = match read_opt_text(row, 1, "proficiencies", "name") {
            Ok(v) => v,
            Err(e) => return Err(e),
        };
        let class = match read_enum::<ProficiencyClass>(row, 2, "proficiencies", "class") {
            Ok(v) => v,
            Err(e) => return Err(e),
        };
        Ok(Proficiency { id, name, class })
    }

    fn id(&self) -> (r: Option<i64>) {
        self.id
    }

    fn junctions() -> (r: Vec<JunctionTable>) {
        let r: Vec<JunctionTable> = Vec::new();
        assert(r@ =~= Self::spec_junctions());
        r
    }

    fn related_ids(&self, rel: JunctionTable) -> (r: Vec<Option<i64>>) {
        let r: Vec<Option<i64>> = Vec::new();
        assert(r@ =~= Self::spec_related(self@, rel));
        r
    }

    fn build_junction(&mut self, rel: JunctionTable, row: &Vec<SqlValue>) -> (r: Result<(), DbError>) {
        Ok(())
    }

    proof fn lemma_round_trip(v: ProficiencyView) {
        match v.class {
            Some(c) => ProficiencyClass::lemma_parse_text(c),
            None => {},
        }
    }

    proof fn lemma_well_formed_within_limits(v: ProficiencyView) {
        Self::lemma_round_trip(v);
    }

    proof fn lemma_add_member_keeps_id(v: ProficiencyView, rel: JunctionTable, row: Seq<CellValue>) {
    }

    proof fn lemma_with_id(v: ProficiencyView, id: i64) {
        assert(Self::spec_params(Self::spec_with_id(v, id)) =~= Self::spec_params(v).update(0, CellValue::Integer(id)));
    }

    proof fn lemma_junctions_distinct() {
    }

    proof fn lemma_leaf_is_scalar(v: ProficiencyView) {
    }

    proof fn lemma_build_fresh(row: Seq<CellValue>) {
    }
}

/// A row whose `class` column holds text that names no variant is not read
/// as proficiency at all: reading it fails with a corrupt enumeration that
/// carries the text, never with a default variant.
pub proof fn lemma_unknown_class_is_fatal(row: Seq<CellValue>, s: Seq<char>)
    requires
        row.len() == 3,
        spec_read_id(row, 0, "proficiencies"@, "id"@) is Ok,
        spec_read_opt_text(row, 1, "proficiencies"@, "name"@) is Ok,
        row[2] == CellValue::Text(s),
        forall|v: ProficiencyClass| v.text_of() != s,
    ensures
        Proficiency::spec_build(row) == Err::<ProficiencyView, ErrorView>(ErrorView::CorruptEnumeration { table: "proficiencies"@, column: "class"@, value: s }),
{
    lemma_unknown_enum_text_is_fatal::<ProficiencyClass>(row, 2, "proficiencies"@, "class"@, s);
}

} // verus!
