//! A feature granted by a background, race, class or feat.
use vstd::prelude::*;
use crate::codec::{Codec, FeatureClass};
use crate::junction::JunctionTable;
use crate::model::Model;
use crate::row::{enum_param, enum_value, id_param, id_value, read_enum, read_id, read_text, spec_read_enum, spec_read_id, spec_read_text};
use crate::sql::{Column, ColumnView, SqlType, columns_view};
use crate::value::{DbError, ErrorView, SqlValue, CellValue, row_view};

verus! {

/// A feature granted by a background, race, class or feat.
#[derive(Clone, Debug)]
pub struct Feature {
    pub id: Option<i64>,
    pub name: String,
    pub class: Option<FeatureClass>,
    pub description: String,
}

/// The mathematical form of a feature.
pub struct FeatureView {
    pub id: Option<i64>,
    pub name: Seq<char>,
    pub class: Option<FeatureClass>,
    pub description: Seq<char>,
}

impl View for Feature {
    type V = FeatureView;

    open spec fn view(&self) -> FeatureView {
        FeatureView {
            id: self.id,
            name: self.name@,
            class: self.class,
            description: self.description@,
        }
    }
}

impl Feature {
    /// A feature not yet stored, with an empty name and description and no
    /// class.
    pub fn new() -> (r: Feature)
        ensures
            r@ == (FeatureView {
                id: None,
                name: Seq::empty(),
                class: None,
                description: Seq::empty(),
            }),
    {
        Feature {
            id: None,
            name: String::new(),
            class: None,
            description: String::new(),
        }
    }
}

impl Model for Feature {
    open spec fn spec_table() -> Seq<char> {
        "features"@
    }

    open spec fn spec_columns() -> Seq<ColumnView> {
        seq![
            ColumnView { name: "id"@, sql_type: SqlType::Integer, primary_key: true, unique: false, not_null: false },
            ColumnView { name: "name"@, sql_type: SqlType::Text, primary_key: false, unique: false, not_null: true },
            ColumnView { name: "class"@, sql_type: SqlType::Text, primary_key: false, unique: false, not_null: false },
            ColumnView { name: "description"@, sql_type: SqlType::Text, primary_key: false, unique: false, not_null: true },
        ]
    }

    open spec fn within_limits(v: FeatureView) -> bool {
        true
    }

    open spec fn well_formed(v: FeatureView) -> bool {
        Self::within_limits(v)
    }

    open spec fn spec_params(v: FeatureView) -> Seq<CellValue> {
        seq![
            id_value(v.id),
            CellValue::Text(v.name),
            enum_value(v.class),
            CellValue::Text(v.description),
        ]
    }

    open spec fn spec_build(row: Seq<CellValue>) -> Result<FeatureView, ErrorView> {
        let t = "features"@;
        if row.len() != 4 {
            Err(ErrorView::SchemaMismatch { table: t, expected: 4, found: row.len() as usize })
        } else {
            match spec_read_id(row, 0, t, "id"@) {
                Err(e) => Err(e),
                Ok(id) => 
                    match spec_read_text(row, 1, t, "name"@) {
                        Err(e) => Err(e),
                        Ok(name) => 
                            match spec_read_enum::<FeatureClass>(row, 2, t, "class"@) {
                                Err(e) => Err(e),
                                Ok(class) => 
                                    match spec_read_text(row, 3, t, "description"@) {
                                        Err(e) => Err(e),
                                        Ok(description) => Ok(FeatureView { id, name, class, description }),
                                        },
                                },
                        },
            }
        }
    }

    open spec fn spec_id(v: FeatureView) -> Option<i64> {
        v.id
    }

    open spec fn spec_scalar(v: FeatureView) -> FeatureView {
        v
    }

    open spec fn spec_with_id(v: FeatureView, id: i64) -> FeatureView {
        FeatureView { id: Some(id), ..v }
    }

    open spec fn spec_junctions() -> Seq<JunctionTable> {
        Seq::empty()
    }

    open spec fn spec_related(v: FeatureView, rel: JunctionTable) -> Seq<Option<i64>> {
        Seq::empty()
    }

    open spec fn spec_add_member(v: FeatureView, rel: JunctionTable, row: Seq<CellValue>) -> Result<FeatureView, ErrorView> {
        Ok(v)
    }

    fn table() -> (r: String) {
        String::from_str("features")
    }

    fn columns() -> (r: Vec<Column>) {
        let r = vec![
            Column::new("id", SqlType::Integer, true, false, false),
            Column::new("name", SqlType::Text, false, false, true),
            Column::new("class", SqlType::Text, false, false, false),
            Column::new("description", SqlType::Text, false, false, true),
        ];
        assert(columns_view(r@) =~= Self::spec_columns());
        r
    }

    fn parameters(&self) -> (r: Vec<SqlValue>) {
        let r = vec![
            id_param(self.id),
            SqlValue::Text(self.name.clone()),
            enum_param(&self.class),
            SqlValue::Text(self.description.clone()),
        ];
        assert(row_view(r@) =~= Self::spec_params(self@));
        r
    }

    fn build(row: &Vec<SqlValue>) -> (r: Result<Self, DbError>) {
        if row.len() != 4 {
            return Err(DbError::SchemaMismatch { table: String::from_str("features"), expected: 4, found: row.len() });
        }
        let id = match read_id(row, 0, "features", "id") {
            Ok(v) => v,
            Err(e) => return Err(e),
        };
        let name = match read_text(row, 1, "features", "name") {
            Ok(v) => v,
            Err(e) => return Err(e),
        };
        let class = match read_enum::<FeatureClass>(row, 2, "features", "class") {
            Ok(v) => v,
            Err(e) => return Err(e),
        };
        let description = match read_text(row, 3, "features", "description") {
            Ok(v) => v,
            Err(e) => return Err(e),
        };
        Ok(Feature { id, name, class, description })
    }

    fn id(&self) -> (r: Option<i64>) {
        self.id
    }

    fn junctions() -> (r: Vec<JunctionTable>) {
        let r: Vec<JunctionTable> = Vec::new();
        assert(r@ =~= Self::spec_junctions());
        r
    }

    fn related_ids(&self, rel: JunctionTable) -> (r: Vec<Option<i64>>) {
        let r: Vec<Option<i64>> = Vec::new();
        assert(r@ =~= Self::spec_related(self@, rel));
        r
    }

    fn build_junction(&mut self, rel: JunctionTable, row: &Vec<SqlValue>) -> (r: Result<(), DbError>) {
        Ok(())
    }

    proof fn lemma_round_trip(v: FeatureView) {
        match v.class {
            Some(c) => FeatureClass::lemma_parse_text(c),
            None => {},
        }
    }

    proof fn lemma_well_formed_within_limits(v: FeatureView) {
        Self::lemma_round_trip(v);
    }

    proof fn lemma_add_member_keeps_id(v: FeatureView, rel: JunctionTable, row: Seq<CellValue>) {
    }

    proof fn lemma_with_id(v: FeatureView, id: i64) {
        assert(Self::spec_params(Self::spec_with_id(v, id)) =~= Self::spec_params(v).update(0, CellValue::Integer(id)));
    }

    proof fn lemma_junctions_distinct() {
    }

    proof fn lemma_leaf_is_scalar(v: FeatureView) {
    }

    proof fn lemma_build_fresh(row: Seq<CellValue>) {
    }
}

} // verus!
