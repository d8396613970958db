//! A character background: personality traits, ideals, bonds and flaws, and
//! the proficiencies, languages, starting equipment and features it grants.
use vstd::prelude::*;
use crate::feature::{Feature, FeatureView};
use crate::item::{Item, ItemView};
use crate::junction::JunctionTable;
use crate::language::{Language, LanguageView};
use crate::model::Model;
use crate::proficiency::{Proficiency, ProficiencyView};
use crate::row::{
    id_param, id_value, lemma_read_texts_len, lemma_read_texts_of, read_id, read_text, read_texts, spec_read_id,
    spec_read_text, spec_read_texts, text_values, texts_view,
};
use crate::sql::{Column, ColumnView, SqlType, columns_view};
use crate::value::{DbError, ErrorView, SqlValue, CellValue, row_view};

verus! {

/// The number of personality traits of a background.
pub const TRAIT_COUNT: usize = 8;

/// The number of ideals, of bonds and of flaws of a background.
pub const IDEAL_COUNT: usize = 6;

/// A background. Each list is absent until it is given or read from the
/// store. Its texts fill fixed slots of its row, an absent list as empty
/// texts; its four relations are stored in junction tables, not in its row.
#[derive(Clone, Debug)]
pub struct Background {
    pub id: Option<i64>,
    pub name: String,
    pub ideals: Option<[String; IDEAL_COUNT]>,
    pub bonds: Option<[String; IDEAL_COUNT]>,
    pub flaws: Option<[String; IDEAL_COUNT]>,
    pub proficiencies: Option<Vec<Proficiency>>,
    pub languages: Option<Vec<Language>>,
    pub starting_equipment: Option<Vec<Item>>,
    pub features: Option<Vec<Feature>>,
    pub personality_traits: Option<[String; TRAIT_COUNT]>,
}

/// The mathematical form of a background.
pub struct BackgroundView {
    pub id: Option<i64>,
    pub name: Seq<char>,
    pub ideals: Option<Seq<Seq<char>>>,
    pub bonds: Option<Seq<Seq<char>>>,
    pub flaws: Option<Seq<Seq<char>>>,
    pub proficiencies: Option<Seq<ProficiencyView>>,
    pub languages: Option<Seq<LanguageView>>,
    pub starting_equipment: Option<Seq<ItemView>>,
    pub features: Option<Seq<FeatureView>>,
    pub personality_traits: Option<Seq<Seq<char>>>,
}

/// The view of an optional list of texts.
pub open spec fn opt_texts_view<const N: usize>(o: Option<[String; N]>) -> Option<Seq<Seq<char>>> {
    match o {
        Some(a) => Some(texts_view(a@)),
        None => None,
    }
}

/// The texts in the `n` slots of an optional list: an absent list fills
/// them with empty texts.
pub open spec fn slots(o: Option<Seq<Seq<char>>>, n: nat) -> Seq<Seq<char>> {
    match o {
        Some(s) => s,
        None => Seq::new(n, |i: int| Seq::<char>::empty()),
    }
}

/// The members of an optional relation: an absent one has none.
pub open spec fn members<A>(o: Option<Seq<A>>) -> Seq<A> {
    match o {
        Some(s) => s,
        None => Seq::empty(),
    }
}

impl View for Background {
    type V = BackgroundView;

    open spec fn view(&self) -> BackgroundView {
        BackgroundView {
            id: self.id,
            name: self.name@,
            ideals: opt_texts_view(self.ideals),
            bonds: opt_texts_view(self.bonds),
            flaws: opt_texts_view(self.flaws),
            proficiencies: match self.proficiencies {
                Some(v) => Some(v@.map_values(|x: Proficiency| x@)),
                None => None,
            },
            languages: match self.languages {
                Some(v) => Some(v@.map_values(|x: Language| x@)),
                None => None,
            },
            starting_equipment: match self.starting_equipment {
                Some(v) => Some(v@.map_values(|x: Item| x@)),
                None => None,
            },
            features: match self.features {
                Some(v) => Some(v@.map_values(|x: Feature| x@)),
                None => None,
            },
            personality_traits: opt_texts_view(self.personality_traits),
        }
    }
}

impl Background {
    /// A background not yet stored: no id, an empty name, and every list
    /// absent.
    pub fn new() -> (r: Background)
        ensures
            r@ == (BackgroundView {
                id: None,
                name: Seq::empty(),
                ideals: None,
                bonds: None,
                flaws: None,
                proficiencies: None,
                languages: None,
                starting_equipment: None,
                features: None,
                personality_traits: None,
            }),
    {
        Background {
            id: None,
            name: String::new(),
            ideals: None,
            bonds: None,
            flaws: None,
            proficiencies: None,
            languages: None,
            starting_equipment: None,
            features: None,
            personality_traits: None,
        }
    }
}

/// An optional list of `N` texts fills exactly `N` slots.
proof fn lemma_slots_len<const N: usize>(o: Option<[String; N]>)
    ensures
        slots(opt_texts_view(o), N as nat).len() == N,
        text_values(slots(opt_texts_view(o), N as nat)).len() == N,
{
    match o {
        Some(a) => {
            assert(a@.len() == N);
        },
        None => {},
    }
}

/// Appends the stored form of the `N` slots of an optional list of texts.
fn push_slots<const N: usize>(out: &mut Vec<SqlValue>, o: &Option<[String; N]>)
    ensures
        row_view(final(out)@) == row_view(old(out)@) + text_values(slots(opt_texts_view(*o), N as nat)),
{
    let ghost want = slots(opt_texts_view(*o), N as nat);
    let mut i: usize = 0;
    while i < N
        invariant
            i <= N,
            want == slots(opt_texts_view(*o), N as nat),
            want.len() == N,
            row_view(out@) == row_view(old(out)@) + text_values(want.subrange(0, i as int)),
        decreases N - i,
    {
        let ghost before = out@;
        let ghost k = i as int;
        let t = match o {
            Some(a) => a[i].clone(),
            None => String::new(),
        };
        assert(t@ == want[k]);
        out.push(SqlValue::Text(t));
        proof {
            assert(want.subrange(0, k + 1) =~= want.subrange(0, k).push(want[k]));
            assert(text_values(want.subrange(0, k + 1)) =~= text_values(want.subrange(0, k)).push(CellValue::Text(want[k])));
            assert(row_view(out@) =~= row_view(before).push(CellValue::Text(want[k])));
        }
        i = i + 1;
    }
    assert(want.subrange(0, N as int) =~= want);
}

/// The eight texts of a list read from a row, as a fixed list.
fn trait_slots(v: Vec<String>) -> (r: [String; TRAIT_COUNT])
    requires
        v@.len() == TRAIT_COUNT,
    ensures
        texts_view(r@) == texts_view(v@),
{
    let r = [v[0].clone(), v[1].clone(), v[2].clone(), v[3].clone(), v[4].clone(), v[5].clone(), v[6].clone(), v[7].clone()];
    assert(texts_view(r@) =~= texts_view(v@));
    r
}

/// The six texts of a list read from a row, as a fixed list.
fn ideal_slots(v: Vec<String>) -> (r: [String; IDEAL_COUNT])
    requires
        v@.len() == IDEAL_COUNT,
    ensures
        texts_view(r@) == texts_view(v@),
{
    let r = [v[0].clone(), v[1].clone(), v[2].clone(), v[3].clone(), v[4].clone(), v[5].clone()];
    assert(texts_view(r@) =~= texts_view(v@));
    r
}

/// The ids of a list of entities, in order.
fn ids_of_proficiency(xs: &Vec<Proficiency>) -> (r: Vec<Option<i64>>)
    ensures
        r@ == xs@.map_values(|x: Proficiency| x@).map_values(|x: ProficiencyView| x.id),
{
    let mut r: Vec<Option<i64>> = Vec::new();
    let mut i: usize = 0;
    while i < xs.len()
        invariant
            i <= xs@.len(),
            r@ == xs@.subrange(0, i as int).map_values(|x: Proficiency| x@).map_values(|x: ProficiencyView| x.id),
        decreases xs@.len() - i,
    {
        r.push(xs[i].id);
        i = i + 1;
        assert(r@ =~= xs@.subrange(0, i as int).map_values(|x: Proficiency| x@).map_values(|x: ProficiencyView| x.id));
    }
    assert(xs@.subrange(0, xs@.len() as int) =~= xs@);
    r
}

/// The ids of a list of entities, in order.
fn ids_of_language(xs: &Vec<Language>) -> (r: Vec<Option<i64>>)
    ensures
        r@ == xs@.map_values(|x: Language| x@).map_values(|x: LanguageView| x.id),
{
    let mut r: Vec<Option<i64>> = Vec::new();
    let mut i: usize = 0;
    while i < xs.len()
        invariant
            i <= xs@.len(),
            r@ == xs@.subrange(0, i as int).map_values(|x: Language| x@).map_values(|x: LanguageView| x.id),
        decreases xs@.len() - i,
    {
        r.push(xs[i].id);
        i = i + 1;
        assert(r@ =~= xs@.subrange(0, i as int).map_values(|x: Language| x@).map_values(|x: LanguageView| x.id));
    }
    assert(xs@.subrange(0, xs@.len() as int) =~= xs@);
    r
}

/// The ids of a list of entities, in order.
fn ids_of_item(xs: &Vec<Item>) -> (r: Vec<Option<i64>>)
    ensures
        r@ == xs@.map_values(|x: Item| x@).map_values(|x: ItemView| x.id),
{
    let mut r: Vec<Option<i64>> = Vec::new();
    let mut i: usize = 0;
    while i < xs.len()
        invariant
            i <= xs@.len(),
            r@ == xs@.subrange(0, i as int).map_values(|x: Item| x@).map_values(|x: ItemView| x.id),
        decreases xs@.len() - i,
    {
        r.push(xs[i].id);
        i = i + 1;
        assert(r@ =~= xs@.subrange(0, i as int).map_values(|x: Item| x@).map_values(|x: ItemView| x.id));
    }
    assert(xs@.subrange(0, xs@.len() as int) =~= xs@);
    r
}

/// The ids of a list of entities, in order.
fn ids_of_feature(xs: &Vec<Feature>) -> (r: Vec<Option<i64>>)
    ensures
        r@ == xs@.map_values(|x: Feature| x@).map_values(|x: FeatureView| x.id),
{
    let mut r: Vec<Option<i64>> = Vec::new();
    let mut i: usize = 0;
    while i < xs.len()
        invariant
            i <= xs@.len(),
            r@ == xs@.subrange(0, i as int).map_values(|x: Feature| x@).map_values(|x: FeatureView| x.id),
        decreases xs@.len() - i,
    {
        r.push(xs[i].id);
        i = i + 1;
        assert(r@ =~= xs@.subrange(0, i as int).map_values(|x: Feature| x@).map_values(|x: FeatureView| x.id));
    }
    assert(xs@.subrange(0, xs@.len() as int) =~= xs@);
    r
}

/// The columns of the backgrounds table.
pub open spec fn background_columns() -> Seq<ColumnView> {
    seq![
        ColumnView { name: "id"@, sql_type: SqlType::Integer, primary_key: true, unique: false, not_null: false },
        ColumnView { name: "name"@, sql_type: SqlType::Text, primary_key: false, unique: false, not_null: true },
        ColumnView { name: "personality_trait_1"@, sql_type: SqlType::Text, primary_key: false, unique: false, not_null: true },
        ColumnView { name: "personality_trait_2"@, sql_type: SqlType::Text, primary_key: false, unique: false, not_null: true },
        ColumnView { name: "personality_trait_3"@, sql_type: SqlType::Text, primary_key: false, unique: false, not_null: true },
        ColumnView { name: "personality_trait_4"@, sql_type: SqlType::Text, primary_key: false, unique: false, not_null: true },
        ColumnView { name: "personality_trait_5"@, sql_type: SqlType::Text, primary_key: false, unique: false, not_null: true },
        ColumnView { name: "personality_trait_6"@, sql_type: SqlType::Text, primary_key: false, unique: false, not_null: true },
        ColumnView { name: "personality_trait_7"@, sql_type: SqlType::Text, primary_key: false, unique: false, not_null: true },
        ColumnView { name: "personality_trait_8"@, sql_type: SqlType::Text, primary_key: false, unique: false, not_null: true },
        ColumnView { name: "ideal_1"@, sql_type: SqlType::Text, primary_key: false, unique: false, not_null: true },
        ColumnView { name: "ideal_2"@, sql_type: SqlType::Text, primary_key: false, unique: false, not_null: true },
        ColumnView { name: "ideal_3"@, sql_type: SqlType::Text, primary_key: false, unique: false, not_null: true },
        ColumnView { name: "ideal_4"@, sql_type: SqlType::Text, primary_key: false, unique: false, not_null: true },
        ColumnView { name: "ideal_5"@, sql_type: SqlType::Text, primary_key: false, unique: false, not_null: true },
        ColumnView { name: "ideal_6"@, sql_type: SqlType::Text, primary_key: false, unique: false, not_null: true },
        ColumnView { name: "bond_1"@, sql_type: SqlType::Text, primary_key: false, unique: false, not_null: true },
        ColumnView { name: "bond_2"@, sql_type: SqlType::Text, primary_key: false, unique: false, not_null: true },
        ColumnView { name: "bond_3"@, sql_type: SqlType::Text, primary_key: false, unique: false, not_null: true },
        ColumnView { name: "bond_4"@, sql_type: SqlType::Text, primary_key: false, unique: false, not_null: true },
        ColumnView { name: "bond_5"@, sql_type: SqlType::Text, primary_key: false, unique: false, not_null: true },
        ColumnView { name: "bond_6"@, sql_type: SqlType::Text, primary_key: false, unique: false, not_null: true },
        ColumnView { name: "flaw_1"@, sql_type: SqlType::Text, primary_key: false, unique: false, not_null: true },
        ColumnView { name: "flaw_2"@, sql_type: SqlType::Text, primary_key: false, unique: false, not_null: true },
        ColumnView { name: "flaw_3"@, sql_type: SqlType::Text, primary_key: false, unique: false, not_null: true },
        ColumnView { name: "flaw_4"@, sql_type: SqlType::Text, primary_key: false, unique: false, not_null: true },
        ColumnView { name: "flaw_5"@, sql_type: SqlType::Text, primary_key: false, unique: false, not_null: true },
        ColumnView { name: "flaw_6"@, sql_type: SqlType::Text, primary_key: false, unique: false, not_null: true },
    ]
}

impl Model for Background {
    open spec fn spec_table() -> Seq<char> {
        "backgrounds"@
    }

    open spec fn spec_columns() -> Seq<ColumnView> {
        background_columns()
    }

    open spec fn within_limits(v: BackgroundView) -> bool {
        true
    }

    open spec fn well_formed(v: BackgroundView) -> bool {
        &&& v.personality_traits matches Some(s) && s.len() == TRAIT_COUNT
        &&& v.ideals matches Some(s) && s.len() == IDEAL_COUNT
        &&& v.bonds matches Some(s) && s.len() == IDEAL_COUNT
        &&& v.flaws matches Some(s) && s.len() == IDEAL_COUNT
    }

    open spec fn spec_params(v: BackgroundView) -> Seq<CellValue> {
        seq![id_value(v.id), CellValue::Text(v.name)] + text_values(slots(v.personality_traits, TRAIT_COUNT as nat))
            + text_values(slots(v.ideals, IDEAL_COUNT as nat)) + text_values(slots(v.bonds, IDEAL_COUNT as nat))
            + text_values(slots(v.flaws, IDEAL_COUNT as nat))
    }

    open spec fn spec_build(row: Seq<CellValue>) -> Result<BackgroundView, ErrorView> {
        let t = "backgrounds"@;
        let c = background_columns();
        if row.len() != 28 {
            Err(ErrorView::SchemaMismatch { table: t, expected: 28, found: row.len() as usize })
        } else {
            match spec_read_id(row, 0, t, "id"@) {
                Err(e) => Err(e),
                Ok(id) => match spec_read_text(row, 1, t, "name"@) {
                    Err(e) => Err(e),
                    Ok(name) => match spec_read_texts(row, 2, 10, t, c) {
                        Err(e) => Err(e),
                        Ok(personality_traits) => match spec_read_texts(row, 10, 16, t, c) {
                            Err(e) => Err(e),
                            Ok(ideals) => match spec_read_texts(row, 16, 22, t, c) {
                                Err(e) => Err(e),
                                Ok(bonds) => match spec_read_texts(row, 22, 28, t, c) {
                                    Err(e) => Err(e),
                                    Ok(flaws) => Ok(BackgroundView {
                                        id,
                                        name,
                                        ideals: Some(ideals),
                                        bonds: Some(bonds),
                                        flaws: Some(flaws),
                                        proficiencies: Some(Seq::empty()),
                                        languages: Some(Seq::empty()),
                                        starting_equipment: Some(Seq::empty()),
                                        features: Some(Seq::empty()),
                                        personality_traits: Some(personality_traits),
                                    }),
                                },
                            },
                        },
                    },
                },
            }
        }
    }

    open spec fn spec_id(v: BackgroundView) -> Option<i64> {
        v.id
    }

    open spec fn spec_scalar(v: BackgroundView) -> BackgroundView {
        BackgroundView {
            proficiencies: Some(Seq::empty()),
            languages: Some(Seq::empty()),
            starting_equipment: Some(Seq::empty()),
            features: Some(Seq::empty()),
            ..v
        }
    }

    open spec fn spec_with_id(v: BackgroundView, id: i64) -> BackgroundView {
        BackgroundView { id: Some(id), ..v }
    }

    open spec fn spec_junctions() -> Seq<JunctionTable> {
        seq![
            JunctionTable::BackgroundProfs,
            JunctionTable::BackgroundLangs,
            JunctionTable::BackgroundInvintory,
            JunctionTable::BackgroundFeatures,
        ]
    }

    open spec fn spec_related(v: BackgroundView, rel: JunctionTable) -> Seq<Option<i64>> {
        match rel {
            JunctionTable::BackgroundProfs => members(v.proficiencies).map_values(|x: ProficiencyView| x.id),
            JunctionTable::BackgroundLangs => members(v.languages).map_values(|x: LanguageView| x.id),
            JunctionTable::BackgroundInvintory => members(v.starting_equipment).map_values(|x: ItemView| x.id),
            JunctionTable::BackgroundFeatures => members(v.features).map_values(|x: FeatureView| x.id),
            JunctionTable::CharacterSpells => Seq::empty(),
        }
    }

    open spec fn spec_add_member(v: BackgroundView, rel: JunctionTable, row: Seq<CellValue>) -> Result<BackgroundView, ErrorView> {
        match rel {
            JunctionTable::BackgroundProfs => match Proficiency::spec_build(row) {
                Ok(c) => Ok(BackgroundView { proficiencies: Some(members(v.proficiencies).push(c)), ..v }),
                Err(e) => Err(e),
            },
            JunctionTable::BackgroundLangs => match Language::spec_build(row) {
                Ok(c) => Ok(BackgroundView { languages: Some(members(v.languages).push(c)), ..v }),
                Err(e) => Err(e),
            },
            JunctionTable::BackgroundInvintory => match Item::spec_build(row) {
                Ok(c) => Ok(BackgroundView { starting_equipment: Some(members(v.starting_equipment).push(c)), ..v }),
                Err(e) => Err(e),
            },
            JunctionTable::BackgroundFeatures => match Feature::spec_build(row) {
                Ok(c) => Ok(BackgroundView { features: Some(members(v.features).push(c)), ..v }),
                Err(e) => Err(e),
            },
            JunctionTable::CharacterSpells => Ok(v),
        }
    }

    fn table() -> (r: String) {
        String::from_str("backgrounds")
    }

    fn columns() -> (r: Vec<Column>) {
        let r = vec![
        Column::new("id", SqlType::Integer, true, false, false),
        Column::new("name", SqlType::Text, false, false, true),
        Column::new("personality_trait_1", SqlType::Text, false, false, true),
        Column::new("personality_trait_2", SqlType::Text, false, false, true),
        Column::new("personality_trait_3", SqlType::Text, false, false, true),
        Column::new("personality_trait_4", SqlType::Text, false, false, true),
        Column::new("personality_trait_5", SqlType::Text, false, false, true),
        Column::new("personality_trait_6", SqlType::Text, false, false, true),
        Column::new("personality_trait_7", SqlType::Text, false, false, true),
        Column::new("personality_trait_8", SqlType::Text, false, false, true),
        Column::new("ideal_1", SqlType::Text, false, false, true),
        Column::new("ideal_2", SqlType::Text, false, false, true),
        Column::new("ideal_3", SqlType::Text, false, false, true),
        Column::new("ideal_4", SqlType::Text, false, false, true),
        Column::new("ideal_5", SqlType::Text, false, false, true),
        Column::new("ideal_6", SqlType::Text, false, false, true),
        Column::new("bond_1", SqlType::Text, false, false, true),
        Column::new("bond_2", SqlType::Text, false, false, true),
        Column::new("bond_3", SqlType::Text, false, false, true),
        Column::new("bond_4", SqlType::Text, false, false, true),
        Column::new("bond_5", SqlType::Text, false, false, true),
        Column::new("bond_6", SqlType::Text, false, false, true),
        Column::new("flaw_1", SqlType::Text, false, false, true),
        Column::new("flaw_2", SqlType::Text, false, false, true),
        Column::new("flaw_3", SqlType::Text, false, false, true),
        Column::new("flaw_4", SqlType::Text, false, false, true),
        Column::new("flaw_5", SqlType::Text, false, false, true),
        Column::new("flaw_6", SqlType::Text, false, false, true),
        ];
        assert(columns_view(r@) =~= Self::spec_columns());
        r
    }

    fn parameters(&self) -> (r: Vec<SqlValue>) {
        let mut r = vec![id_param(self.id), SqlValue::Text(self.name.clone())];
        push_slots(&mut r, &self.personality_traits);
        push_slots(&mut r, &self.ideals);
        push_slots(&mut r, &self.bonds);
        push_slots(&mut r, &self.flaws);
        proof {
            lemma_slots_len(self.personality_traits);
            lemma_slots_len(self.ideals);
            lemma_slots_len(self.bonds);
            lemma_slots_len(self.flaws);
            assert(row_view(r@).len() == r@.len());
            assert(background_columns().len() == 28);
        }
        r
    }

    fn build(row: &Vec<SqlValue>) -> (r: Result<Self, DbError>) {
        if row.len() != 28 {
            return Err(DbError::SchemaMismatch { table: String::from_str("backgrounds"), expected: 28, found: row.len() });
        }
        let ghost rv = row_view(row@);
        let ghost c = background_columns();
        let cols = Self::columns();
        assert(columns_view(cols@).len() == cols@.len());
        assert(background_columns().len() == 28);
        let id = match read_id(row, 0, "backgrounds", "id") {
            Ok(v) => v,
            Err(e) => return Err(e),
        };
        let name = match read_text(row, 1, "backgrounds", "name") {
            Ok(v) => v,
            Err(e) => return Err(e),
        };
        let personality_traits = match read_texts(row, 2, 10, "backgrounds", &cols) {
            Ok(v) => v,
            Err(e) => return Err(e),
        };
        let ideals = match read_texts(row, 10, 16, "backgrounds", &cols) {
            Ok(v) => v,
            Err(e) => return Err(e),
        };
        let bonds = match read_texts(row, 16, 22, "backgrounds", &cols) {
            Ok(v) => v,
            Err(e) => return Err(e),
        };
        let flaws = match read_texts(row, 22, 28, "backgrounds", &cols) {
            Ok(v) => v,
            Err(e) => return Err(e),
        };
        proof {
            lemma_read_texts_len(rv, 2, 10, "backgrounds"@, c);
            lemma_read_texts_len(rv, 10, 16, "backgrounds"@, c);
            lemma_read_texts_len(rv, 16, 22, "backgrounds"@, c);
            lemma_read_texts_len(rv, 22, 28, "backgrounds"@, c);
            assert(texts_view(personality_traits@).len() == personality_traits@.len());
            assert(texts_view(ideals@).len() == ideals@.len());
            assert(texts_view(bonds@).len() == bonds@.len());
            assert(texts_view(flaws@).len() == flaws@.len());
        }
        let r = Background {
            id,
            name,
            ideals: Some(ideal_slots(ideals)),
            bonds: Some(ideal_slots(bonds)),
            flaws: Some(ideal_slots(flaws)),
            proficiencies: Some(Vec::new()),
            languages: Some(Vec::new()),
            starting_equipment: Some(Vec::new()),
            features: Some(Vec::new()),
            personality_traits: Some(trait_slots(personality_traits)),
        };
        assert(r@.proficiencies->Some_0 =~= Seq::<ProficiencyView>::empty());
        assert(r@.languages->Some_0 =~= Seq::<LanguageView>::empty());
        assert(r@.starting_equipment->Some_0 =~= Seq::<ItemView>::empty());
        assert(r@.features->Some_0 =~= Seq::<FeatureView>::empty());
        Ok(r)
    }

    fn id(&self) -> (r: Option<i64>) {
        self.id
    }

    fn junctions() -> (r: Vec<JunctionTable>) {
        let r = vec![
            JunctionTable::BackgroundProfs,
            JunctionTable::BackgroundLangs,
            JunctionTable::BackgroundInvintory,
            JunctionTable::BackgroundFeatures,
        ];
        assert(r@ =~= Self::spec_junctions());
        r
    }

    fn related_ids(&self, rel: JunctionTable) -> (r: Vec<Option<i64>>) {
        let r = match rel {
            JunctionTable::BackgroundProfs => match &self.proficiencies {
                Some(xs) => ids_of_proficiency(xs),
                None => Vec::new(),
            },
            JunctionTable::BackgroundLangs => match &self.languages {
                Some(xs) => ids_of_language(xs),
                None => Vec::new(),
            },
            JunctionTable::BackgroundInvintory => match &self.starting_equipment {
                Some(xs) => ids_of_item(xs),
                None => Vec::new(),
            },
            JunctionTable::BackgroundFeatures => match &self.features {
                Some(xs) => ids_of_feature(xs),
                None => Vec::new(),
            },
            JunctionTable::CharacterSpells => Vec::new(),
        };
        assert(r@ =~= Self::spec_related(self@, rel));
        r
    }

    fn build_junction(&mut self, rel: JunctionTable, row: &Vec<SqlValue>) -> (r: Result<(), DbError>) {
        match rel {
            JunctionTable::BackgroundProfs => match Proficiency::build(row) {
                Ok(child) => {
                    let ghost before = self@;
                    let mut list: Option<Vec<Proficiency>> = None;
                    core::mem::swap(&mut self.proficiencies, &mut list);
                    let mut xs = match list {
                        Some(xs) => xs,
                        None => Vec::new(),
                    };
                    let ghost old_xs = xs@;
                    assert(old_xs.map_values(|x: Proficiency| x@) =~= members(before.proficiencies));
                    xs.push(child);
                    self.proficiencies = Some(xs);
                    proof {
                        assert(xs@.map_values(|x: Proficiency| x@) =~= old_xs.map_values(|x: Proficiency| x@).push(child@));
                        assert(self@ =~= BackgroundView { proficiencies: Some(members(before.proficiencies).push(child@)), ..before });
                    }
                    Ok(())
                },
                Err(e) => Err(e),
            },
            JunctionTable::BackgroundLangs => match Language::build(row) {
                Ok(child) => {
                    let ghost before = self@;
                    let mut list: Option<Vec<Language>> = None;
                    core::mem::swap(&mut self.languages, &mut list);
                    let mut xs = match list {
                        Some(xs) => xs,
                        None => Vec::new(),
                    };
                    let ghost old_xs = xs@;
                    assert(old_xs.map_values(|x: Language| x@) =~= members(before.languages));
                    xs.push(child);
                    self.languages = Some(xs);
                    proof {
                        assert(xs@.map_values(|x: Language| x@) =~= old_xs.map_values(|x: Language| x@).push(child@));
                        assert(self@ =~= BackgroundView { languages: Some(members(before.languages).push(child@)), ..before });
                    }
                    Ok(())
                },
                Err(e) => Err(e),
            },
            JunctionTable::BackgroundInvintory => match Item::build(row) {
                Ok(child) => {
                    let ghost before = self@;
                    let mut list: Option<Vec<Item>> = None;
                    core::mem::swap(&mut self.starting_equipment, &mut list);
                    let mut xs = match list {
                        Some(xs) => xs,
                        None => Vec::new(),
                    };
                    let ghost old_xs = xs@;
                    assert(old_xs.map_values(|x: Item| x@) =~= members(before.starting_equipment));
                    xs.push(child);
                    self.starting_equipment = Some(xs);
                    proof {
                        assert(xs@.map_values(|x: Item| x@) =~= old_xs.map_values(|x: Item| x@).push(child@));
                        assert(self@ =~= BackgroundView { starting_equipment: Some(members(before.starting_equipment).push(child@)), ..before });
                    }
                    Ok(())
                },
                Err(e) => Err(e),
            },
            JunctionTable::BackgroundFeatures => match Feature::build(row) {
                Ok(child) => {
                    let ghost before = self@;
                    let mut list: Option<Vec<Feature>> = None;
                    core::mem::swap(&mut self.features, &mut list);
                    let mut xs = match list {
                        Some(xs) => xs,
                        None => Vec::new(),
                    };
                    let ghost old_xs = xs@;
                    assert(old_xs.map_values(|x: Feature| x@) =~= members(before.features));
                    xs.push(child);
                    self.features = Some(xs);
                    proof {
                        assert(xs@.map_values(|x: Feature| x@) =~= old_xs.map_values(|x: Feature| x@).push(child@));
                        assert(self@ =~= BackgroundView { features: Some(members(before.features).push(child@)), ..before });
                    }
                    Ok(())
                },
                Err(e) => Err(e),
            },
            JunctionTable::CharacterSpells => Ok(()),
        }
    }

    proof fn lemma_round_trip(v: BackgroundView) {
        let p = Self::spec_params(v);
        let t = "backgrounds"@;
        let c = background_columns();
        let tr = v.personality_traits->Some_0;
        let id = v.ideals->Some_0;
        let bo = v.bonds->Some_0;
        let fl = v.flaws->Some_0;
        assert(p.len() == 28);
        assert(forall|i: int| 2 <= i < 10 ==> p[i] == CellValue::Text(tr[i - 2]));
        assert(forall|i: int| 10 <= i < 16 ==> p[i] == CellValue::Text(id[i - 10]));
        assert(forall|i: int| 16 <= i < 22 ==> p[i] == CellValue::Text(bo[i - 16]));
        assert(forall|i: int| 22 <= i < 28 ==> p[i] == CellValue::Text(fl[i - 22]));
        lemma_read_texts_of(p, 2, 10, t, c, tr);
        lemma_read_texts_of(p, 10, 16, t, c, id);
        lemma_read_texts_of(p, 16, 22, t, c, bo);
        lemma_read_texts_of(p, 22, 28, t, c, fl);
    }

    proof fn lemma_well_formed_within_limits(v: BackgroundView) {
        Self::lemma_round_trip(v);
    }

    proof fn lemma_add_member_keeps_id(v: BackgroundView, rel: JunctionTable, row: Seq<CellValue>) {
    }

    proof fn lemma_with_id(v: BackgroundView, id: i64) {
        assert(Self::spec_params(Self::spec_with_id(v, id)) =~= Self::spec_params(v).update(0, CellValue::Integer(id)));
    }

    proof fn lemma_junctions_distinct() {
    }

    proof fn lemma_leaf_is_scalar(v: BackgroundView) {
    }

    proof fn lemma_build_fresh(row: Seq<CellValue>) {
        match Self::spec_build(row) {
            Ok(v) => {
                assert(Self::spec_scalar(v) =~= v);
            },
            Err(_) => {},
        }
    }
}

} // verus!
