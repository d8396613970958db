//! A language a character can speak.
use vstd::prelude::*;
use crate::junction::JunctionTable;
use crate::model::Model;
use crate::row::{id_param, id_value, read_id, read_text, spec_read_id, spec_read_text};
use crate::sql::{Column, ColumnView, SqlType, columns_view};
use crate::value::{DbError, ErrorView, SqlValue, CellValue, row_view};

verus! {

/// A language; its name and its description are each unique in the store.
#[derive(Clone, Debug)]
pub struct Language {
    pub id: Option<i64>,
    pub name: String,
    pub description: String,
}

/// The mathematical form of a language.
pub struct LanguageView {
    pub id: Option<i64>,
    pub name: Seq<char>,
    pub description: Seq<char>,
}

impl View for Language {
    type V = LanguageView;

    open spec fn view(&self) -> LanguageView {
        LanguageView { id: self.id, name: self.name@, description: self.description@ }
    }
}

impl Language {
    /// A language not yet stored, with empty name and description.
    pub fn new() -> (r: Language)
        ensures
            r@ == (LanguageView { id: None, name: Seq::empty(), description: Seq::empty() }),
    {
        Language { id: None, name: String::new(), description: String::new() }
    }
}

impl Model for Language {
    open spec fn spec_table() -> Seq<char> {
        "languages"@
    }

    open spec fn spec_columns() -> Seq<ColumnView> {
        seq![
            ColumnView { name: "id"@, sql_type: SqlType::Integer, primary_key: true, unique: false, not_null: false },
            ColumnView { name: "name"@, sql_type: SqlType::Text, primary_key: false, unique: true, not_null: true },
            ColumnView { name: "description"@, sql_type: SqlType::Text, primary_key: false, unique: true, not_null: true },
        ]
    }

    open spec fn within_limits(v: LanguageView) -> bool {
        true
    }

    open spec fn well_formed(v: LanguageView) -> bool {
        Self::within_limits(v)
    }

    open spec fn spec_params(v: LanguageView) -> Seq<CellValue> {
        seq![id_value(v.id), CellValue::Text(v.name), CellValue::Text(v.description)]
    }

    open spec fn spec_build(row: Seq<CellValue>) -> Result<LanguageView, ErrorView> {
        let t = "languages"@;
        if row.len() != 3 {
            Err(ErrorView::SchemaMismatch { table: t, expected: 3, found: row.len() as usize })
        } else {
            match spec_read_id(row, 0, t, "id"@) {
                Err(e) => Err(e),
                Ok(id) => match spec_read_text(row, 1, t, "name"@) {
                    Err(e) => Err(e),
                    Ok(name) => match spec_read_text(row, 2, t, "description"@) {
                        Err(e) => Err(e),
                        Ok(description) => Ok(LanguageView { id, name, description }),
                    },
                },
            }
        }
    }

    open spec fn spec_id(v: LanguageView) -> Option<i64> {
        v.id
    }

    open spec fn spec_scalar(v: LanguageView) -> LanguageView {
        v
    }

    open spec fn spec_with_id(v: LanguageView, id: i64) -> LanguageView {
        LanguageView { id: Some(id), ..v }
    }

    open spec fn spec_junctions() -> Seq<JunctionTable> {
        Seq::empty()
    }

    open spec fn spec_related(v: LanguageView, rel: JunctionTable) -> Seq<Option<i64>> {
        Seq::empty()
    }

    open spec fn spec_add_member(v: LanguageView, rel: JunctionTable, row: Seq<CellValue>) -> Result<LanguageView, ErrorView> {
        Ok(v)
    }

    fn table() -> (r: String) {
        String::from_str("languages")
    }

    fn columns() -> (r: Vec<Column>) {
        let r = vec![
            Column::new("id", SqlType::Integer, true, false, false),
            Column::new("name", SqlType::Text, false, true, true),
            Column::new("description", SqlType::Text, false, true, true),
        ];
        assert(columns_view(r@) =~= Self::spec_columns());
        r
    }

    fn parameters(&self) -> (r: Vec<SqlValue>) {
        let r = vec![id_param(self.id), SqlValue::Text(self.name.clone()), SqlValue::Text(self.description.clone())];
        assert(row_view(r@) =~= Self::spec_params(self@));
        r
    }

    fn build(row: &Vec<SqlValue>) -> (r: Result<Self, DbError>) {
        let ghost rv = row_view(row@);
        if row.len() != 3 {
            return Err(DbError::SchemaMismatch { table: String::from_str("languages"), expected: 3, found: row.len() });
        }
        let id = match read_id(row, 0, "languages", "id") {
            Ok(v) => v,
            Err(e) => return Err(e),
        };
        let name = match read_text(row, 1, "languages", "name") {
            Ok(v) => v,
            Err(e) => return Err(e),
        };
        let description = match read_text(row, 2, "languages", "description") {
            Ok(v) => v,
            Err(e) => return Err(e),
        };
        Ok(Language { id, name, description })
    }

    fn id(&self) -> (r: Option<i64>) {
        self.id
    }

    fn junctions() -> (r: Vec<JunctionTable>) {
        let r: Vec<JunctionTable> = Vec::new();
        assert(r@ =~= Self::spec_junctions());
        r
    }

    fn related_ids(&self, rel: JunctionTable) -> (r: Vec<Option<i64>>) {
        let r: Vec<Option<i64>> = Vec::new();
        assert(r@ =~= Self::spec_related(self@, rel));
        r
    }

    fn build_junction(&mut self, rel: JunctionTable, row: &Vec<SqlValue>) -> (r: Result<(), DbError>) {
        Ok(())
    }

    proof fn lemma_round_trip(v: LanguageView) {
    }

    proof fn lemma_well_formed_within_limits(v: LanguageView) {
        Self::lemma_round_trip(v);
    }

    proof fn lemma_add_member_keeps_id(v: LanguageView, rel: JunctionTable, row: Seq<CellValue>) {
    }

    proof fn lemma_with_id(v: LanguageView, id: i64) {
        assert(Self::spec_params(Self::spec_with_id(v, id)) =~= Self::spec_params(v).update(0, CellValue::Integer(id)));
    }

    proof fn lemma_junctions_distinct() {
    }

    proof fn lemma_leaf_is_scalar(v: LanguageView) {
    }

    proof fn lemma_build_fresh(row: Seq<CellValue>) {
    }
}

} // verus!
