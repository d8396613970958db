//! The tables of the store, known by name at run time: each maps to the
//! schema description of its entity.
use vstd::prelude::*;
use crate::background::Background;
use crate::codec::str_eq;
use crate::feature::Feature;
use crate::item::Item;
use crate::junction::JunctionTable;
use crate::language::Language;
use crate::model::Model;
use crate::proficiency::Proficiency;
use crate::spells::Spell;
use crate::sql::{ColumnView, column_ddl, column_defs_text, column_names, columns_view, join, markers, markers_text, names_text};

verus! {

/// The entity tables of the store.
#[derive(Clone, Copy, Debug, PartialEq, Eq, Structural)]
pub enum Table {
    BackgroundsTable,
    ProficiencyTable,
    LanguagesTable,
    ItemsTable,
    FeaturesTable,
    SpellsTable,
}

impl Table {
    /// The table's name.
    pub open spec fn spec_name(self) -> Seq<char> {
        match self {
            Table::BackgroundsTable => Background::spec_table(),
            Table::ProficiencyTable => Proficiency::spec_table(),
            Table::LanguagesTable => Language::spec_table(),
            Table::ItemsTable => Item::spec_table(),
            Table::FeaturesTable => Feature::spec_table(),
            Table::SpellsTable => Spell::spec_table(),
        }
    }

    /// The table's columns.
    pub open spec fn spec_columns(self) -> Seq<ColumnView> {
        match self {
            Table::BackgroundsTable => Background::spec_columns(),
            Table::ProficiencyTable => Proficiency::spec_columns(),
            Table::LanguagesTable => Language::spec_columns(),
            Table::ItemsTable => Item::spec_columns(),
            Table::FeaturesTable => Feature::spec_columns(),
            Table::SpellsTable => Spell::spec_columns(),
        }
    }

    /// The junction relations the table's entity owns.
    pub open spec fn spec_junctions(self) -> Seq<JunctionTable> {
        match self {
            Table::BackgroundsTable => Background::spec_junctions(),
            Table::ProficiencyTable => Proficiency::spec_junctions(),
            Table::LanguagesTable => Language::spec_junctions(),
            Table::ItemsTable => Item::spec_junctions(),
            Table::FeaturesTable => Feature::spec_junctions(),
            Table::SpellsTable => Spell::spec_junctions(),
        }
    }

    /// The table whose name is `s`, if there is one.
    pub open spec fn spec_from_name(s: Seq<char>) -> Option<Table> {
        if s == "backgrounds"@ {
            Some(Table::BackgroundsTable)
        } else if s == "proficiencies"@ {
            Some(Table::ProficiencyTable)
        } else if s == "languages"@ {
            Some(Table::LanguagesTable)
        } else if s == "items"@ {
            Some(Table::ItemsTable)
        } else if s == "features"@ {
            Some(Table::FeaturesTable)
        } else if s == "spells"@ {
            Some(Table::SpellsTable)
        } else {
            None
        }
    }

    /// The table whose name is `input`, or `None` for an unknown name.
    pub fn from_name(input: &str) -> (r: Option<Table>)
        ensures
            r == Table::spec_from_name(input@),
    {
        if str_eq(input, "backgrounds") {
            Some(Table::BackgroundsTable)
        } else if str_eq(input, "proficiencies") {
            Some(Table::ProficiencyTable)
        } else if str_eq(input, "languages") {
            Some(Table::LanguagesTable)
        } else if str_eq(input, "items") {
            Some(Table::ItemsTable)
        } else if str_eq(input, "features") {
            Some(Table::FeaturesTable)
        } else if str_eq(input, "spells") {
            Some(Table::SpellsTable)
        } else {
            None
        }
    }

    /// The table's name.
    pub fn name(&self) -> (r: String)
        ensures
            r@ == self.spec_name(),
    {
        match self {
            Table::BackgroundsTable => Background::table(),
            Table::ProficiencyTable => Proficiency::table(),
            Table::LanguagesTable => Language::table(),
            Table::ItemsTable => Item::table(),
            Table::FeaturesTable => Feature::table(),
            Table::SpellsTable => Spell::table(),
        }
    }

    /// Whether the table's entity owns junction relations.
    pub fn has_junctions(&self) -> (r: bool)
        ensures
            r == (self.spec_junctions().len() > 0),
    {
        match self {
            Table::BackgroundsTable => Background::junctions().len() > 0,
            Table::ProficiencyTable => Proficiency::junctions().len() > 0,
            Table::LanguagesTable => Language::junctions().len() > 0,
            Table::ItemsTable => Item::junctions().len() > 0,
            Table::FeaturesTable => Feature::junctions().len() > 0,
            Table::SpellsTable => Spell::junctions().len() > 0,
        }
    }

    /// The junction relations the table's entity owns; `None` when it owns
    /// none.
    pub fn junctions(&self) -> (r: Option<Vec<JunctionTable>>)
        ensures
            r is None <==> self.spec_junctions().len() == 0,
            r matches Some(v) ==> v@ == self.spec_junctions(),
    {
        let v = match self {
            Table::BackgroundsTable => Background::junctions(),
            Table::ProficiencyTable => Proficiency::junctions(),
            Table::LanguagesTable => Language::junctions(),
            Table::ItemsTable => Item::junctions(),
            Table::FeaturesTable => Feature::junctions(),
            Table::SpellsTable => Spell::junctions(),
        };
        if v.len() == 0 {
            None
        } else {
            Some(v)
        }
    }

    /// The table's column definitions, separated by commas.
    pub fn columns(&self) -> (r: String)
        ensures
            r@ == join(self.spec_columns().map_values(|c: ColumnView| column_ddl(c)), ", "@),
    {
        let cols = match self {
            Table::BackgroundsTable => Background::columns(),
            Table::ProficiencyTable => Proficiency::columns(),
            Table::LanguagesTable => Language::columns(),
            Table::ItemsTable => Item::columns(),
            Table::FeaturesTable => Feature::columns(),
            Table::SpellsTable => Spell::columns(),
        };
        column_defs_text(&cols)
    }

    /// The table's column names, separated by commas.
    pub fn queries(&self) -> (r: String)
        ensures
            r@ == join(column_names(self.spec_columns()), ", "@),
    {
        let cols = match self {
            Table::BackgroundsTable => Background::columns(),
            Table::ProficiencyTable => Proficiency::columns(),
            Table::LanguagesTable => Language::columns(),
            Table::ItemsTable => Item::columns(),
            Table::FeaturesTable => Feature::columns(),
            Table::SpellsTable => Spell::columns(),
        };
        names_text(&cols)
    }

    /// One positional marker per column, separated by commas.
    pub fn values(&self) -> (r: String)
        ensures
            r@ == join(markers(self.spec_columns().len()), ", "@),
    {
        let cols = match self {
            Table::BackgroundsTable => Background::columns(),
            Table::ProficiencyTable => Proficiency::columns(),
            Table::LanguagesTable => Language::columns(),
            Table::ItemsTable => Item::columns(),
            Table::FeaturesTable => Feature::columns(),
            Table::SpellsTable => Spell::columns(),
        };
        assert(columns_view(cols@).len() == cols@.len());
        markers_text(cols.len())
    }
}

} // verus!
