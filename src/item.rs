//! An item of equipment.
use vstd::prelude::*;
use crate::codec::{Codec, ItemRarity};
use crate::junction::JunctionTable;
use crate::model::Model;
use crate::row::{enum_param, enum_value, id_param, id_value, read_enum, read_id, read_int, read_text, spec_read_enum, spec_read_id, spec_read_int, spec_read_text};
use crate::sql::{Column, ColumnView, SqlType, columns_view};
use crate::value::{DbError, ErrorView, SqlValue, CellValue, row_view};

verus! {

/// An item of equipment.
#[derive(Clone, Debug)]
pub struct Item {
    pub id: Option<i64>,
    pub name: String,
    pub class: String,
    pub quantity: u16,
    pub rarity: Option<ItemRarity>,
    pub value: u16,
    pub weight: u64,
    pub properties: String,
    pub description: String,
}

/// The mathematical form of an item.
pub struct ItemView {
    pub id: Option<i64>,
    pub name: Seq<char>,
    pub class: Seq<char>,
    pub quantity: u16,
    pub rarity: Option<ItemRarity>,
    pub value: u16,
    pub weight: u64,
    pub properties: Seq<char>,
    pub description: Seq<char>,
}

impl View for Item {
    type V = ItemView;

    open spec fn view(&self) -> ItemView {
        ItemView {
            id: self.id,
            name: self.name@,
            class: self.class@,
            quantity: self.quantity,
            rarity: self.rarity,
            value: self.value,
            weight: self.weight,
            properties: self.properties@,
            description: self.description@,
        }
    }
}

impl Item {
    /// An item not yet stored, with empty texts, no rarity and zero quantity,
    /// value and weight.
    pub fn new() -> (r: Item)
        ensures
            r@ == (ItemView {
                id: None,
                name: Seq::empty(),
                class: Seq::empty(),
                quantity: 0,
                rarity: None,
                value: 0,
                weight: 0,
                properties: Seq::empty(),
                description: Seq::empty(),
            }),
    {
        Item {
            id: None,
            name: String::new(),
            class: String::new(),
            quantity: 0,
            rarity: None,
            value: 0,
            weight: 0,
            properties: String::new(),
            description: String::new(),
        }
    }
}

impl Model for Item {
    open spec fn spec_table() -> Seq<char> {
        "items"@
    }

    open spec fn spec_columns() -> Seq<ColumnView> {
        seq![
            ColumnView { name: "id"@, sql_type: SqlType::Integer, primary_key: true, unique: false, not_null: false },
            ColumnView { name: "name"@, sql_type: SqlType::Text, primary_key: false, unique: false, not_null: true },
            ColumnView { name: "class"@, sql_type: SqlType::Text, primary_key: false, unique: false, not_null: true },
            ColumnView { name: "quantity"@, sql_type: SqlType::Integer, primary_key: false, unique: false, not_null: true },
            ColumnView { name: "rarity"@, sql_type: SqlType::Text, primary_key: false, unique: false, not_null: false },
            ColumnView { name: "value"@, sql_type: SqlType::Integer, primary_key: false, unique: false, not_null: true },
            ColumnView { name: "weight"@, sql_type: SqlType::Integer, primary_key: false, unique: false, not_null: true },
            ColumnView { name: "properties"@, sql_type: SqlType::Text, primary_key: false, unique: false, not_null: true },
            ColumnView { name: "description"@, sql_type: SqlType::Text, primary_key: false, unique: false, not_null: true },
        ]
    }

    open spec fn within_limits(v: ItemView) -> bool {
        v.weight <= i64::MAX as u64
    }

    open spec fn well_formed(v: ItemView) -> bool {
        Self::within_limits(v)
    }

    open spec fn spec_params(v: ItemView) -> Seq<CellValue> {
        seq![
            id_value(v.id),
            CellValue::Text(v.name),
            CellValue::Text(v.class),
            CellValue::Integer(v.quantity as i64),
            enum_value(v.rarity),
            CellValue::Integer(v.value as i64),
            CellValue::Integer(v.weight as i64),
            CellValue::Text(v.properties),
            CellValue::Text(v.description),
        ]
    }

    open spec fn spec_build(row: Seq<CellValue>) -> Result<ItemView, ErrorView> {
        let t = "items"@;
        if row.len() != 9 {
            Err(ErrorView::SchemaMismatch { table: t, expected: 9, found: row.len() as usize })
        } else {
            match spec_read_id(row, 0, t, "id"@) {
                Err(e) => Err(e),
                Ok(id) => 
                    match spec_read_text(row, 1, t, "name"@) {
                        Err(e) => Err(e),
                        Ok(name) => 
                            match spec_read_text(row, 2, t, "class"@) {
                                Err(e) => Err(e),
                                Ok(class) => 
                                    match spec_read_int(row, 3, t, "quantity"@, 0, 65535) {
                                        Err(e) => Err(e),
                                        Ok(quantity_n) => 
                                            match spec_read_enum::<ItemRarity>(row, 4, t, "rarity"@) {
                                                Err(e) => Err(e),
                                                Ok(rarity) => 
                                                    match spec_read_int(row, 5, t, "value"@, 0, 65535) {
                                                        Err(e) => Err(e),
                                                        Ok(value_n) => 
                                                            match spec_read_int(row, 6, t, "weight"@, 0, 9223372036854775807) {
                                                                Err(e) => Err(e),
                                                                Ok(weight_n) => 
                                                                    match spec_read_text(row, 7, t, "properties"@) {
                                                                        Err(e) => Err(e),
                                                                        Ok(properties) => 
                                                                            match spec_read_text(row, 8, t, "description"@) {
                                                                                Err(e) => Err(e),
                                                                                Ok(description) => Ok(ItemView { id, name, class, quantity: quantity_n as u16, rarity, value: value_n as u16, weight: weight_n as u64, properties, description }),
                                                                                },
                                                                        },
                                                                },
                                                        },
                                                },
                                        },
                                },
                        },
            }
        }
    }

    open spec fn spec_id(v: ItemView) -> Option<i64> {
        v.id
    }

    open spec fn spec_scalar(v: ItemView) -> ItemView {
        v
    }

    open spec fn spec_with_id(v: ItemView, id: i64) -> ItemView {
        ItemView { id: Some(id), ..v }
    }

    open spec fn spec_junctions() -> Seq<JunctionTable> {
        Seq::empty()
    }

    open spec fn spec_related(v: ItemView, rel: JunctionTable) -> Seq<Option<i64>> {
        Seq::empty()
    }

    open spec fn spec_add_member(v: ItemView, rel: JunctionTable, row: Seq<CellValue>) -> Result<ItemView, ErrorView> {
        Ok(v)
    }

    fn table() -> (r: String) {
        String::from_str("items")
    }

    fn columns() -> (r: Vec<Column>) {
        let r = vec![
            Column::new("id", SqlType::Integer, true, false, false),
            Column::new("name", SqlType::Text, false, false, true),
            Column::new("class", SqlType::Text, false, false, true),
            Column::new("quantity", SqlType::Integer, false, false, true),
            Column::new("rarity", SqlType::Text, false, false, false),
            Column::new("value", SqlType::Integer, false, false, true),
            Column::new("weight", SqlType::Integer, false, false, true),
            Column::new("properties", SqlType::Text, false, false, true),
            Column::new("description", SqlType::Text, false, false, true),
        ];
        assert(columns_view(r@) =~= Self::spec_columns());
        r
    }

    fn parameters(&self) -> (r: Vec<SqlValue>) {
        let r = vec![
            id_param(self.id),
            SqlValue::Text(self.name.clone()),
            SqlValue::Text(self.class.clone()),
            SqlValue::Integer(self.quantity as i64),
            enum_param(&self.rarity),
            SqlValue::Integer(self.value as i64),
            SqlValue::Integer(self.weight as i64),
            SqlValue::Text(self.properties.clone()),
            SqlValue::Text(self.description.clone()),
        ];
        assert(row_view(r@) =~= Self::spec_params(self@));
        r
    }

    fn build(row: &Vec<SqlValue>) -> (r: Result<Self, DbError>) {
        if row.len() != 9 {
            return Err(DbError::SchemaMismatch { table: String::from_str("items"), expected: 9, found: row.len() });
        }
        let id = match read_id(row, 0, "items", "id") {
            Ok(v) => v,
            Err(e) => return Err(e),
        };
        let name = match read_text(row, 1, "items", "name") {
            Ok(v) => v,
            Err(e) => return Err(e),
        };
        let class = match read_text(row, 2, "items", "class") {
            Ok(v) => v,
            Err(e) => return Err(e),
        };
        let quantity = match read_int(row, 3, "items", "quantity", 0, 65535) {
            Ok(v) => v as u16,
            Err(e) => return Err(e),
        };
        let rarity = match read_enum::<ItemRarity>(row, 4, "items", "rarity") {
            Ok(v) => v,
            Err(e) => return Err(e),
        };
        let value = match read_int(row, 5, "items", "value", 0, 65535) {
            Ok(v) => v as u16,
            Err(e) => return Err(e),
        };
        let weight = match read_int(row, 6, "items", "weight", 0, 9223372036854775807) {
            Ok(v) => v as u64,
            Err(e) => return Err(e),
        };
        let properties = match read_text(row, 7, "items", "properties") {
            Ok(v) => v,
            Err(e) => return Err(e),
        };
        let description = match read_text(row, 8, "items", "description") {
            Ok(v) => v,
            Err(e) => return Err(e),
        };
        Ok(Item { id, name, class, quantity, rarity, value, weight, properties, description })
    }

    fn id(&self) -> (r: Option<i64>) {
        self.id
    }

    fn junctions() -> (r: Vec<JunctionTable>) {
        let r: Vec<JunctionTable> = Vec::new();
        assert(r@ =~= Self::spec_junctions());
        r
    }

    fn related_ids(&self, rel: JunctionTable) -> (r: Vec<Option<i64>>) {
        let r: Vec<Option<i64>> = Vec::new();
        assert(r@ =~= Self::spec_related(self@, rel));
        r
    }

    fn build_junction(&mut self, rel: JunctionTable, row: &Vec<SqlValue>) -> (r: Result<(), DbError>) {
        Ok(())
    }

    proof fn lemma_round_trip(v: ItemView) {
        match v.rarity {
            Some(c) => ItemRarity::lemma_parse_text(c),
            None => {},
        }
    }

    proof fn lemma_well_formed_within_limits(v: ItemView) {
        Self::lemma_round_trip(v);
    }

    proof fn lemma_add_member_keeps_id(v: ItemView, rel: JunctionTable, row: Seq<CellValue>) {
    }

    proof fn lemma_with_id(v: ItemView, id: i64) {
        assert(Self::spec_params(Self::spec_with_id(v, id)) =~= Self::spec_params(v).update(0, CellValue::Integer(id)));
    }

    proof fn lemma_junctions_distinct() {
    }

    proof fn lemma_leaf_is_scalar(v: ItemView) {
    }

    proof fn lemma_build_fresh(row: Seq<CellValue>) {
    }
}

} // verus!
