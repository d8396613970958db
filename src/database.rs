//! The persistence engine: an explicit value that owns the store connection
//! and saves, loads and deletes any entity through its schema description.
use vstd::prelude::*;
use rusqlite::Connection;
use rusqlite::Statement;
use crate::character::{Character, CharacterView, SavedCharacter};
use crate::feature::Feature;
use crate::hydrate::{
    add_member_from_rows, add_steps, entities_from_rows, entity_from_rows, hydrated_from, ids_from_rows, ids_read_from_rows,
    junction_keys, lemma_collect_ok, loaded, entity_from_row, read_entities, read_from_rows, recorded_for, referenced_ids, rows_view, step_ids,
};
use crate::item::Item;
use crate::junction::{JunctionOp, JunctionTable, apply_ops, lemma_apply_ops_concat, lemma_clear_leaves_none, lemma_replace_idempotent, owned, replacement_plan, spec_plan};
use crate::language::Language;
use crate::model::{Model, row_id};
use crate::proficiency::Proficiency;
use crate::spells::Spell;
use crate::sql::{
    Column, columns_view, create_table_sql, delete_by_id_sql, replace_sql, select_all_sql, select_by_id_sql, spec_delete_by_id,
    spec_replace,
};
use crate::value::{CellValue, DbError, ErrorView, SqlValue, row_view, storable};

verus! {

#[verifier::external_type_specification]
#[verifier::external_body]
pub struct ExConnection(rusqlite::Connection);

#[verifier::external_type_specification]
#[verifier::external_body]
pub struct ExStatement<'conn>(rusqlite::Statement<'conn>);

#[verifier::external_type_specification]
#[verifier::external_body]
pub struct ExError(rusqlite::Error);

#[verifier::external_type_specification]
#[verifier::external_body]
pub struct ExStoredValue(rusqlite::types::Value);

#[verifier::external_type_specification]
#[verifier::external_body]
pub struct ExStoredValueRef<'a>(rusqlite::types::ValueRef<'a>);

/// Relies on rusqlite::Connection::open: opens the database file, creating
/// it if it is absent.
#[verifier::external_body]
fn open_file(path: &str) -> (r: Result<Connection, rusqlite::Error>) {
    Connection::open(path)
}

/// Relies on rusqlite::Connection::open_in_memory: a fresh, empty database
/// that lives as long as the connection.
#[verifier::external_body]
fn open_memory() -> (r: Result<Connection, rusqlite::Error>) {
    Connection::open_in_memory()
}

/// Relies on rusqlite::types::Value having one variant per stored kind: the
/// parameter in the store's own form. `Real` keeps no digits and never comes
/// here: `execute` and `query_all` take only rows without it.
#[verifier::external_body]
fn outside_value(v: &SqlValue) -> (r: rusqlite::types::Value) {
    match v {
        SqlValue::Null => rusqlite::types::Value::Null,
        SqlValue::Integer(n) => rusqlite::types::Value::Integer(*n),
        SqlValue::Real => rusqlite::types::Value::Null,
        SqlValue::Text(s) => rusqlite::types::Value::Text(s.clone()),
        SqlValue::Blob(b) => rusqlite::types::Value::Blob(b.clone()),
    }
}

/// Relies on rusqlite::types::ValueRef having one variant per stored kind:
/// the column value in the library's form. Text that is not UTF-8 is
/// reported as rusqlite's `Utf8Error`, as `FromSql for String` does.
#[verifier::external_body]
fn inside_value(v: rusqlite::types::ValueRef) -> (r: Result<SqlValue, rusqlite::Error>) {
    match v {
        rusqlite::types::ValueRef::Null => Ok(SqlValue::Null),
        rusqlite::types::ValueRef::Integer(n) => Ok(SqlValue::Integer(n)),
        rusqlite::types::ValueRef::Real(_) => Ok(SqlValue::Real),
        rusqlite::types::ValueRef::Text(t) => std::str::from_utf8(t).map(|s| SqlValue::Text(s.to_string())).map_err(rusqlite::Error::Utf8Error),
        rusqlite::types::ValueRef::Blob(b) => Ok(SqlValue::Blob(b.to_vec())),
    }
}

/// Relies on rusqlite::Connection::execute: runs one statement with the
/// positional parameters `?1`, `?2`, ... bound in order.
#[verifier::external_body]
fn execute(conn: &Connection, sql: &str, params: &Vec<SqlValue>) -> (r: Result<usize, rusqlite::Error>)
    requires
        storable(row_view(params@)),
{
    conn.execute(sql, rusqlite::params_from_iter(params.iter().map(outside_value)))
}

/// Relies on rusqlite::Connection::prepare: compiles one statement.
#[verifier::external_body]
fn prepare<'c>(conn: &'c Connection, sql: &str) -> (r: Result<Statement<'c>, rusqlite::Error>) {
    conn.prepare(sql)
}

/// Relies on rusqlite::Statement::query_map: runs the statement with the
/// positional parameters bound in order and hands back every result row;
/// each of the `column_count` columns is read with `Row::get_ref` and
/// converted.
#[verifier::external_body]
fn query_all(stmt: &mut Statement, params: &Vec<SqlValue>) -> (r: Result<Vec<Vec<SqlValue>>, rusqlite::Error>)
    requires
        storable(row_view(params@)),
{
    let n = stmt.column_count();
    let rows = stmt.query_map(rusqlite::params_from_iter(params.iter().map(outside_value)), |row| {
        (0..n).map(|i| row.get_ref(i).and_then(inside_value)).collect()
    })?;
    rows.collect()
}

/// Relies on rusqlite::Connection::last_insert_rowid: the row id of the most
/// recent successful insert on this connection.
#[verifier::external_body]
fn last_insert_rowid(conn: &Connection) -> (r: i64) {
    conn.last_insert_rowid()
}

/// Relies on rusqlite::Error's `Display`: the store's description of a failure.
#[verifier::external_body]
fn error_text(e: &rusqlite::Error) -> (r: String) {
    e.to_string()
}

/// A store failure, with the store's description.
fn store_error(e: rusqlite::Error) -> (r: DbError)
    ensures
        r@ is StoreUnavailable,
{
    DbError::StoreUnavailable { message: error_text(&e) }
}

/// One change to a junction table, tagged with its table.
pub open spec fn tagged(rel: JunctionTable, ops: Seq<JunctionOp>) -> Seq<(JunctionTable, JunctionOp)> {
    ops.map_values(|op: JunctionOp| (rel, op))
}

/// The changes that deleting the entity `id` makes to its junction tables.
pub open spec fn cleared(rels: Seq<JunctionTable>, id: i64) -> Seq<(JunctionTable, JunctionOp)> {
    rels.map_values(|rel: JunctionTable| (rel, JunctionOp::Clear(id)))
}

/// The ids that a list of optional ids holds.
pub open spec fn id_set(ids: Seq<Option<i64>>) -> Set<i64> {
    Set::new(|x: i64| ids.contains(Some(x)))
}

/// The changes that saving the relations `rels` of the entity `id` makes,
/// relation by relation: for each, the replacement plan of its ids `ds[k]`.
pub open spec fn planned(rels: Seq<JunctionTable>, id: i64, ds: Seq<Seq<i64>>) -> Seq<(JunctionTable, JunctionOp)>
    decreases rels.len(),
{
    if rels.len() == 0 || ds.len() == 0 {
        Seq::empty()
    } else {
        planned(rels.drop_last(), id, ds.drop_last()) + tagged(rels.last(), spec_plan(id, ds.last()))
    }
}

/// Whether `changes` are what saving the relations of `v`, stored as `id`,
/// makes: for each relation, the replacement of its pairs by the distinct ids
/// of its members.
pub open spec fn saved_relations<T: Model>(v: T::V, id: i64, changes: Seq<(JunctionTable, JunctionOp)>) -> bool {
    exists|ds: Seq<Seq<i64>>| {
        &&& ds.len() == T::spec_junctions().len()
        &&& forall|k: int| 0 <= k < ds.len() ==> (#[trigger] ds[k]).no_duplicates()
            && ds[k].to_set() == id_set(T::spec_related(v, T::spec_junctions()[k]))
        &&& changes == planned(T::spec_junctions(), id, ds)
    }
}

/// The changes made to the junction table of `rel`, in order.
pub open spec fn ops_for(changes: Seq<(JunctionTable, JunctionOp)>, rel: JunctionTable) -> Seq<JunctionOp>
    decreases changes.len(),
{
    if changes.len() == 0 {
        Seq::empty()
    } else if changes.last().0 == rel {
        ops_for(changes.drop_last(), rel).push(changes.last().1)
    } else {
        ops_for(changes.drop_last(), rel)
    }
}

/// The changes to one table within two runs of changes are those of the
/// first run, then those of the second.
pub proof fn lemma_ops_for_concat(a: Seq<(JunctionTable, JunctionOp)>, b: Seq<(JunctionTable, JunctionOp)>, rel: JunctionTable)
    ensures
        ops_for(a + b, rel) == ops_for(a, rel) + ops_for(b, rel),
    decreases b.len(),
{
    if b.len() == 0 {
        assert(a + b =~= a);
        assert(ops_for(a, rel) + ops_for(b, rel) =~= ops_for(a, rel));
    } else {
        lemma_ops_for_concat(a, b.drop_last(), rel);
        assert((a + b).drop_last() =~= a + b.drop_last());
        assert((a + b).last() == b.last());
        if b.last().0 == rel {
            assert(ops_for(a, rel) + ops_for(b, rel) =~= (ops_for(a, rel) + ops_for(b.drop_last(), rel)).push(b.last().1));
        }
    }
}

/// Changes tagged with one table are changes to that table only.
pub proof fn lemma_ops_for_tagged(r: JunctionTable, ops: Seq<JunctionOp>, rel: JunctionTable)
    ensures
        ops_for(tagged(r, ops), rel) == (if r == rel { ops } else { Seq::<JunctionOp>::empty() }),
    decreases ops.len(),
{
    if ops.len() > 0 {
        lemma_ops_for_tagged(r, ops.drop_last(), rel);
        assert(tagged(r, ops).drop_last() =~= tagged(r, ops.drop_last()));
        assert(ops.drop_last().push(ops.last()) =~= ops);
    } else {
        assert(ops =~= Seq::<JunctionOp>::empty());
    }
}

/// Within the changes of a save, those to the table of relation `k` are the
/// replacement plan of that relation's ids; a table that is no relation of
/// the entity is not changed.
pub proof fn lemma_ops_for_planned(rels: Seq<JunctionTable>, id: i64, ds: Seq<Seq<i64>>, rel: JunctionTable)
    requires
        rels.no_duplicates(),
        ds.len() == rels.len(),
    ensures
        !rels.contains(rel) ==> ops_for(planned(rels, id, ds), rel) == Seq::<JunctionOp>::empty(),
        forall|k: int| 0 <= k < rels.len() && rels[k] == rel ==> ops_for(planned(rels, id, ds), rel) == spec_plan(id, ds[k]),
    decreases rels.len(),
{
    if rels.len() > 0 {
        let front = rels.drop_last();
        assert(front.no_duplicates());
        lemma_ops_for_planned(front, id, ds.drop_last(), rel);
        lemma_ops_for_concat(planned(front, id, ds.drop_last()), tagged(rels.last(), spec_plan(id, ds.last())), rel);
        lemma_ops_for_tagged(rels.last(), spec_plan(id, ds.last()), rel);
        if rels.last() == rel {
            assert(!front.contains(rel));
            assert(ops_for(planned(rels, id, ds), rel) =~= spec_plan(id, ds.last()));
            assert forall|k: int| 0 <= k < rels.len() && rels[k] == rel implies k == rels.len() - 1 by {
                if k < rels.len() - 1 {
                    assert(front[k] == rel);
                }
            }
        } else {
            assert(ops_for(planned(rels, id, ds), rel) =~= ops_for(planned(front, id, ds.drop_last()), rel));
            assert forall|k: int| 0 <= k < rels.len() && rels[k] == rel implies k < rels.len() - 1 && front[k] == rel by {}
            if rels.contains(rel) {
                let k = choose|k: int| 0 <= k < rels.len() && rels[k] == rel;
                assert(front.contains(rel)) by {
                    assert(front[k] == rel);
                }
            } else {
                assert(!front.contains(rel)) by {
                    if front.contains(rel) {
                        let k = choose|k: int| 0 <= k < front.len() && front[k] == rel;
                        assert(rels[k] == rel);
                    }
                }
            }
        }
    } else {
        assert(!rels.contains(rel));
    }
}

/// After a save of `v` as the entity `id`, the junction table of each of its
/// relations associates `id` with exactly the ids of that relation's members,
/// whatever the table held before; no other owner's pairs change.
pub proof fn lemma_saved_relation_rows<T: Model>(v: T::V, id: i64, changes: Seq<(JunctionTable, JunctionOp)>, rows: Set<(i64, i64)>, k: int)
    requires
        saved_relations::<T>(v, id, changes),
        0 <= k < T::spec_junctions().len(),
    ensures
        owned(apply_ops(rows, ops_for(changes, T::spec_junctions()[k])), id) == id_set(T::spec_related(v, T::spec_junctions()[k])),
{
    let rels = T::spec_junctions();
    let ds = choose|ds: Seq<Seq<i64>>| {
        &&& ds.len() == T::spec_junctions().len()
        &&& forall|k: int| 0 <= k < ds.len() ==> (#[trigger] ds[k]).no_duplicates()
            && ds[k].to_set() == id_set(T::spec_related(v, T::spec_junctions()[k]))
        &&& changes == planned(T::spec_junctions(), id, ds)
    };
    T::lemma_junctions_distinct();
    lemma_ops_for_planned(rels, id, ds, rels[k]);
    assert(ds[k].no_duplicates());
    lemma_replace_idempotent(rows, id, ds[k], ds[k]);
}

/// Two replacements of the associations of `owner` in the junction table of
/// `rel` by the same set of ids, one after the other, leave that table as
/// the first one left it: `owner` is associated with exactly those ids.
pub proof fn lemma_replaced_twice(rows: Set<(i64, i64)>, rel: JunctionTable, owner: i64, first: Seq<i64>, second: Seq<i64>)
    requires
        first.to_set() == second.to_set(),
    ensures
        apply_ops(rows, ops_for(tagged(rel, spec_plan(owner, first)) + tagged(rel, spec_plan(owner, second)), rel))
            == apply_ops(rows, ops_for(tagged(rel, spec_plan(owner, first)), rel)),
        owned(apply_ops(rows, ops_for(tagged(rel, spec_plan(owner, first)), rel)), owner) == first.to_set(),
{
    let a = tagged(rel, spec_plan(owner, first));
    let b = tagged(rel, spec_plan(owner, second));
    lemma_ops_for_concat(a, b, rel);
    lemma_ops_for_tagged(rel, spec_plan(owner, first), rel);
    lemma_ops_for_tagged(rel, spec_plan(owner, second), rel);
    lemma_apply_ops_concat(rows, spec_plan(owner, first), spec_plan(owner, second));
    lemma_replace_idempotent(rows, owner, first, second);
}

/// After a delete of the entity `id`, none of its junction tables associates
/// `id` with anything, whatever the table held before.
pub proof fn lemma_deleted_owner_rows(rels: Seq<JunctionTable>, id: i64, rows: Set<(i64, i64)>, rel: JunctionTable)
    requires
        rels.contains(rel),
    ensures
        owned(apply_ops(rows, ops_for(cleared(rels, id), rel)), id) == Set::<i64>::empty(),
    decreases rels.len(),
{
    let c = cleared(rels, id);
    let front = rels.drop_last();
    assert(c.drop_last() =~= cleared(front, id));
    if rels.last() == rel {
        assert(ops_for(c, rel) == ops_for(cleared(front, id), rel).push(JunctionOp::Clear(id)));
        let ops = ops_for(c, rel);
        assert(ops.drop_last() =~= ops_for(cleared(front, id), rel));
        lemma_clear_leaves_none(apply_ops(rows, ops.drop_last()), id);
    } else {
        let k = choose|k: int| 0 <= k < rels.len() && rels[k] == rel;
        assert(front[k] == rel);
        assert(front.contains(rel));
        assert(ops_for(c, rel) == ops_for(cleared(front, id), rel));
        lemma_deleted_owner_rows(front, id, rows, rel);
    }
}

/// Whether `s` summarizes the character that `row` stores.
pub open spec fn summarizes_row(row: Seq<CellValue>, s: SavedCharacter) -> bool {
    exists|c: CharacterView| #[trigger] entity_from_row::<Character>(row, c) && c.id == s.id && c.name == s.name@
        && c.race == s.race@ && c.class == s.class@
}

/// Whether `v` summarizes the characters that `rows` store, one per row, in
/// order.
pub open spec fn summarizes_rows(rows: Seq<Seq<CellValue>>, v: Seq<SavedCharacter>) -> bool {
    &&& rows.len() == v.len()
    &&& forall|i: int| 0 <= i < rows.len() ==> #[trigger] summarizes_row(rows[i], v[i])
}

/// Whether `v` summarizes the characters that the rows some query returned
/// store, one per row, in order.
pub open spec fn summarized_from_rows(v: Seq<SavedCharacter>) -> bool {
    exists|rows: Seq<Seq<CellValue>>| #[trigger] summarizes_rows(rows, v)
}

/// A statement sent to the store: its text and its parameters.
pub type Sent = (Seq<char>, Seq<CellValue>);

/// The statement that makes one change to the junction table of `rel`.
pub open spec fn op_statement(rel: JunctionTable, op: JunctionOp) -> Sent {
    match op {
        JunctionOp::Clear(o) => (rel.spec_clear_sql(), seq![CellValue::Integer(o)]),
        JunctionOp::Insert(o, x) => (rel.spec_insert_sql(), seq![CellValue::Integer(o), CellValue::Integer(x)]),
    }
}

/// The statements that make a run of junction changes.
pub open spec fn op_statements(c: Seq<(JunctionTable, JunctionOp)>) -> Seq<Sent> {
    c.map_values(|p: (JunctionTable, JunctionOp)| op_statement(p.0, p.1))
}

/// Whether some member of a relation of `v` has no id.
pub open spec fn has_unstored_member<T: Model>(v: T::V) -> bool {
    exists|k: int, i: int| 0 <= k < T::spec_junctions().len() && 0 <= i < T::spec_related(v, T::spec_junctions()[k]).len()
        && #[trigger] T::spec_related(v, T::spec_junctions()[k])[i] is None
}

/// The column definitions of the entity a relation references.
pub fn referenced_columns(rel: JunctionTable) -> (r: Vec<Column>)
    ensures
        rel == JunctionTable::BackgroundProfs ==> columns_view(r@) == Proficiency::spec_columns(),
        rel == JunctionTable::BackgroundLangs ==> columns_view(r@) == Language::spec_columns(),
        rel == JunctionTable::BackgroundInvintory ==> columns_view(r@) == Item::spec_columns(),
        rel == JunctionTable::BackgroundFeatures ==> columns_view(r@) == Feature::spec_columns(),
        rel == JunctionTable::CharacterSpells ==> columns_view(r@) == Spell::spec_columns(),
{
    match rel {
        JunctionTable::BackgroundProfs => Proficiency::columns(),
        JunctionTable::BackgroundLangs => Language::columns(),
        JunctionTable::BackgroundInvintory => Item::columns(),
        JunctionTable::BackgroundFeatures => Feature::columns(),
        JunctionTable::CharacterSpells => Spell::columns(),
    }
}

/// The engine. It owns the connection; every operation runs to completion
/// before it returns.
pub struct Database {
    connection: Connection,
    sent: Ghost<Seq<Sent>>,
    journal: Ghost<Seq<(JunctionTable, JunctionOp)>>,
}

/// Whether `vs` are the entities `ids` as the store gives them, in order,
/// where `ids` are what junction rows of `rel` for `owner` hold.
pub open spec fn loaded_list<T: Model>(rel: JunctionTable, owner: i64, vs: Seq<T::V>) -> bool {
    exists|ids: Seq<i64>| {
        &&& #[trigger] ids_read_from_rows(rel, owner, ids)
        &&& vs.len() == ids.len()
        &&& forall|i: int| 0 <= i < ids.len() ==> loaded::<T>(ids[i], #[trigger] vs[i]) && T::spec_id(vs[i]) == Some(ids[i])
    }
}

impl Database {
    /// Every statement that changes rows which this engine has had the store
    /// carry out and keep, in order: row writes and deletes, and junction
    /// changes. Statements of a transaction that was rolled back are not kept.
    pub closed spec fn sent(&self) -> Seq<Sent> {
        self.sent@
    }

    /// Every change this engine has made to a junction table and kept, in
    /// order; each was sent as its statement.
    pub closed spec fn changes(&self) -> Seq<(JunctionTable, JunctionOp)> {
        self.journal@
    }

    /// An engine over an open connection. The junction tables declare their
    /// references, but rows are not checked against them: an association may
    /// be recorded before the entity it names is stored, whatever the SQLite
    /// build's default.
    fn start(connection: Connection) -> (r: Result<Database, DbError>)
        ensures
            r matches Ok(db) ==> db.changes().len() == 0 && db.sent().len() == 0,
            r matches Err(e) ==> e@ is StoreUnavailable,
    {
        let db = Database { connection, sent: Ghost(Seq::empty()), journal: Ghost(Seq::empty()) };
        match db.control("PRAGMA foreign_keys = OFF") {
            Ok(()) => Ok(db),
            Err(e) => Err(e),
        }
    }

    /// Opens the store in `data.sqlite3`.
    pub fn new() -> (r: Result<Database, DbError>)
        ensures
            r matches Ok(db) ==> db.changes().len() == 0 && db.sent().len() == 0,
            r matches Err(e) ==> e@ is StoreUnavailable,
    {
        Database::open("data.sqlite3")
    }

    /// Opens the store in the file at `path`.
    pub fn open(path: &str) -> (r: Result<Database, DbError>)
        ensures
            r matches Ok(db) ==> db.changes().len() == 0 && db.sent().len() == 0,
            r matches Err(e) ==> e@ is StoreUnavailable,
    {
        match open_file(path) {
            Ok(connection) => Database::start(connection),
            Err(e) => Err(store_error(e)),
        }
    }

    /// Opens a fresh store that lives in memory.
    pub fn open_in_memory() -> (r: Result<Database, DbError>)
        ensures
            r matches Ok(db) ==> db.changes().len() == 0 && db.sent().len() == 0,
            r matches Err(e) ==> e@ is StoreUnavailable,
    {
        match open_memory() {
            Ok(connection) => Database::start(connection),
            Err(e) => Err(store_error(e)),
        }
    }

    /// Runs one statement that changes no row and takes no parameter: a
    /// table definition, a transaction boundary or a setting.
    fn control(&self, sql: &str) -> (r: Result<(), DbError>)
        ensures
            r matches Err(e) ==> e@ is StoreUnavailable,
    {
        let none: Vec<SqlValue> = Vec::new();
        match execute(&self.connection, sql, &none) {
            Ok(_) => Ok(()),
            Err(e) => Err(store_error(e)),
        }
    }

    /// Runs one statement that changes rows, and records it.
    fn run(&mut self, sql: &str, params: &Vec<SqlValue>) -> (r: Result<(), DbError>)
        requires
            storable(row_view(params@)),
        ensures
            r is Ok ==> final(self).sent() == old(self).sent().push((sql@, row_view(params@))),
            r is Err ==> final(self).sent() == old(self).sent(),
            final(self).changes() == old(self).changes(),
            r matches Err(e) ==> e@ is StoreUnavailable,
    {
        match execute(&self.connection, sql, params) {
            Ok(_) => {
                self.sent = Ghost(self.sent@.push((sql@, row_view(params@))));
                Ok(())
            },
            Err(e) => Err(store_error(e)),
        }
    }

    /// Runs one query and hands back its rows.
    fn select(&self, sql: &str, params: &Vec<SqlValue>) -> (r: Result<Vec<Vec<SqlValue>>, DbError>)
        requires
            storable(row_view(params@)),
        ensures
            r matches Err(e) ==> e@ is StoreUnavailable,
    {
        let mut stmt = match prepare(&self.connection, sql) {
            Ok(s) => s,
            Err(e) => return Err(store_error(e)),
        };
        match query_all(&mut stmt, params) {
            Ok(rows) => Ok(rows),
            Err(e) => Err(store_error(e)),
        }
    }

    /// Undoes the open transaction; a failure to do so is not reported over
    /// the error that caused it.
    fn rollback(&self) {
        let _ = self.control("ROLLBACK");
    }

    /// Makes one change to the junction table of `rel` by sending its
    /// statement, and records the change only when the store carried it out.
    fn run_op(&mut self, rel: JunctionTable, op: JunctionOp) -> (r: Result<(), DbError>)
        ensures
            r is Ok ==> final(self).changes() == old(self).changes().push((rel, op))
                && final(self).sent() == old(self).sent().push(op_statement(rel, op)),
            r is Err ==> final(self).changes() == old(self).changes() && final(self).sent() == old(self).sent(),
            r matches Err(e) ==> e@ is StoreUnavailable,
    {
        let r = match op {
            JunctionOp::Clear(owner) => {
                let params = vec![SqlValue::Integer(owner)];
                assert(row_view(params@) =~= seq![CellValue::Integer(owner)]);
                self.run(rel.clear_sql().as_str(), &params)
            },
            JunctionOp::Insert(owner, id) => {
                let params = vec![SqlValue::Integer(owner), SqlValue::Integer(id)];
                assert(row_view(params@) =~= seq![CellValue::Integer(owner), CellValue::Integer(id)]);
                self.run(rel.insert_sql().as_str(), &params)
            },
        };
        if r.is_ok() {
            self.journal = Ghost(self.journal@.push((rel, op)));
        }
        r
    }

    /// Creates the junction table of `rel` if it is absent.
    pub fn ensure_junction_table(&self, rel: JunctionTable) -> (r: Result<(), DbError>)
        ensures
            r matches Err(e) ==> e@ is StoreUnavailable,
    {
        self.control(rel.create_sql().as_str())
    }

    /// Creates the table of `T`, and the junction tables of its relations, if
    /// they are absent. Safe to call before every operation.
    pub fn ensure_table<T: Model>(&self) -> (r: Result<(), DbError>)
        ensures
            r matches Err(e) ==> e@ is StoreUnavailable,
    {
        let cols = T::columns();
        let sql = create_table_sql(T::table().as_str(), &cols);
        match self.control(sql.as_str()) {
            Ok(()) => {},
            Err(e) => return Err(e),
        }
        let rels = T::junctions();
        let mut i: usize = 0;
        while i < rels.len()
            invariant
                i <= rels@.len(),
            decreases rels@.len() - i,
        {
            match self.ensure_junction_table(rels[i]) {
                Ok(()) => {},
                Err(e) => return Err(e),
            }
            i = i + 1;
        }
        Ok(())
    }

    /// Carries out the changes to the junction table of `rel`, in order.
    fn apply_ops(&mut self, rel: JunctionTable, ops: &Vec<JunctionOp>) -> (r: Result<(), DbError>)
        ensures
            r is Ok ==> final(self).changes() == old(self).changes() + tagged(rel, ops@)
                && final(self).sent() == old(self).sent() + op_statements(tagged(rel, ops@)),
            r matches Err(e) ==> e@ is StoreUnavailable,
    {
        let ghost start = self.journal@;
        let ghost start_sent = self.sent@;
        let mut i: usize = 0;
        proof {
            assert(tagged(rel, ops@.subrange(0, 0)) =~= Seq::<(JunctionTable, JunctionOp)>::empty());
            assert(op_statements(tagged(rel, ops@.subrange(0, 0))) =~= Seq::<Sent>::empty());
            assert(start + Seq::<(JunctionTable, JunctionOp)>::empty() =~= start);
            assert(start_sent + Seq::<Sent>::empty() =~= start_sent);
        }
        while i < ops.len()
            invariant
                i <= ops@.len(),
                self.journal@ == start + tagged(rel, ops@.subrange(0, i as int)),
                self.sent@ == start_sent + op_statements(tagged(rel, ops@.subrange(0, i as int))),
            decreases ops@.len() - i,
        {
            let op = ops[i];
            match self.run_op(rel, op) {
                Ok(()) => {},
                Err(e) => return Err(e),
            }
            proof {
                assert(tagged(rel, ops@.subrange(0, i as int + 1)) =~= tagged(rel, ops@.subrange(0, i as int)).push((rel, op)));
                assert(op_statements(tagged(rel, ops@.subrange(0, i as int + 1)))
                    =~= op_statements(tagged(rel, ops@.subrange(0, i as int))).push(op_statement(rel, op)));
            }
            i = i + 1;
        }
        proof {
            assert(ops@.subrange(0, ops@.len() as int) =~= ops@);
        }
        Ok(())
    }

    /// Replaces the associations of `owner` in the junction table of `rel`
    /// inside the open transaction.
    fn replace_in_transaction(&mut self, rel: JunctionTable, owner: i64, ids: &Vec<i64>) -> (r: Result<(), DbError>)
        ensures
            r is Ok ==> exists|d: Seq<i64>| #![auto] d.no_duplicates() && d.to_set() == ids@.to_set()
                && final(self).changes() == old(self).changes() + tagged(rel, spec_plan(owner, d))
                && final(self).sent() == old(self).sent() + op_statements(tagged(rel, spec_plan(owner, d))),
            r matches Err(e) ==> e@ is StoreUnavailable,
    {
        let (ops, d) = replacement_plan(owner, ids);
        let r = self.apply_ops(rel, &ops);
        proof {
            if r is Ok {
                assert(d@.no_duplicates() && d@.to_set() == ids@.to_set()
                    && self.changes() == old(self).changes() + tagged(rel, spec_plan(owner, d@))
                    && self.sent() == old(self).sent() + op_statements(tagged(rel, spec_plan(owner, d@))));
            }
        }
        r
    }

    /// Replaces the associations of `owner` in the junction table of `rel` by
    /// the ids in `ids`: every earlier pair of `owner` is deleted, then one
    /// pair per distinct id is recorded, all in one transaction. On failure
    /// the transaction is rolled back.
    pub fn replace_associations(&mut self, rel: JunctionTable, owner: i64, ids: &Vec<i64>) -> (r: Result<(), DbError>)
        ensures
            r is Ok ==> exists|d: Seq<i64>| #![auto] d.no_duplicates() && d.to_set() == ids@.to_set()
                && final(self).changes() == old(self).changes() + tagged(rel, spec_plan(owner, d))
                && final(self).sent() == old(self).sent() + op_statements(tagged(rel, spec_plan(owner, d))),
            r is Err ==> final(self).changes() == old(self).changes() && final(self).sent() == old(self).sent(),
            r matches Err(e) ==> e@ is StoreUnavailable,
    {
        match self.ensure_junction_table(rel) {
            Ok(()) => {},
            Err(e) => return Err(e),
        }
        match self.control("BEGIN") {
            Ok(()) => {},
            Err(e) => return Err(e),
        }
        let ghost start = self.journal@;
        let ghost start_sent = self.sent@;
        match self.replace_in_transaction(rel, owner, ids) {
            Ok(()) => {},
            Err(e) => {
                self.rollback();
                self.journal = Ghost(start);
                self.sent = Ghost(start_sent);
                return Err(e);
            },
        }
        match self.control("COMMIT") {
            Ok(()) => Ok(()),
            Err(e) => {
                self.rollback();
                self.journal = Ghost(start);
                self.sent = Ghost(start_sent);
                Err(e)
            },
        }
    }

    /// The referenced ids recorded for `owner` in the junction table of `rel`,
    /// in the store's order.
    pub fn load_junction_ids(&self, rel: JunctionTable, owner: i64) -> (r: Result<Vec<i64>, DbError>)
        ensures
            r matches Ok(v) ==> ids_read_from_rows(rel, owner, v@),
    {
        let rows = match self.select(rel.select_ids_sql().as_str(), &vec![SqlValue::Integer(owner)]) {
            Ok(rows) => rows,
            Err(e) => return Err(e),
        };
        let r = ids_from_rows(&rows, rel, owner);
        proof {
            if r is Ok {
                assert(junction_keys(rows_view(rows@), rel, owner) == Ok::<Seq<i64>, ErrorView>(r->Ok_0@));
            }
        }
        r
    }

    /// Reads the entity `child` that `rel` references and appends it to the
    /// relation of `model`: the member is the entity read from a row that
    /// holds `child`. When no such row is selected the result is `NotFound`;
    /// on any error `model` is unchanged.
    pub fn load_junction<T: Model>(&self, rel: JunctionTable, child: i64, model: &mut T) -> (r: Result<(), DbError>)
        requires
            T::spec_junctions().contains(rel),
        ensures
            r is Ok ==> exists|row: Seq<CellValue>| row_id(row) == Some(child)
                && #[trigger] T::spec_add_member(old(model)@, rel, row) == Ok::<T::V, ErrorView>(final(model)@),
            r is Err ==> final(model)@ == old(model)@,
    {
        let cols = referenced_columns(rel);
        let (_, table) = rel.references();
        let sql = select_by_id_sql(table.as_str(), &cols);
        let rows = match self.select(sql.as_str(), &vec![SqlValue::Integer(child)]) {
            Ok(rows) => rows,
            Err(e) => return Err(e),
        };
        let r = add_member_from_rows(&rows, rel, child, model);
        proof {
            if r is Ok {
                let row = row_view(rows@[0]@);
                assert(row_id(row) == Some(child));
                assert(T::spec_add_member(old(model)@, rel, row) == Ok::<T::V, ErrorView>(model@));
            }
        }
        r
    }

    /// Fills every relation of `model`, the entity `id`, from its junction
    /// tables: one member per recorded id, read from the referenced table.
    fn hydrate<T: Model>(&self, model: &mut T, id: i64) -> (r: Result<(), DbError>)
        ensures
            r is Ok ==> hydrated_from::<T>(old(model)@, final(model)@, id),
            r is Ok ==> T::spec_id(final(model)@) == T::spec_id(old(model)@),
    {
        let rels = T::junctions();
        let ghost start = model@;
        let ghost mut steps: Seq<(JunctionTable, Seq<CellValue>)> = Seq::empty();
        proof {
            T::lemma_junctions_distinct();
        }
        let mut i: usize = 0;
        while i < rels.len()
            invariant
                i <= rels@.len(),
                rels@ == T::spec_junctions(),
                rels@.no_duplicates(),
                add_steps::<T>(start, steps) == Ok::<T::V, ErrorView>(model@),
                T::spec_id(model@) == T::spec_id(start),
                forall|k: int| 0 <= k < i ==> recorded_for(rels@[k], id, #[trigger] step_ids(steps, rels@[k])),
                forall|o: JunctionTable| !rels@.subrange(0, i as int).contains(o) ==> #[trigger] step_ids(steps, o) == Seq::<Option<i64>>::empty(),
            decreases rels@.len() - i,
        {
            let rel = rels[i];
            assert(T::spec_junctions().contains(rel)) by {
                assert(rels@[i as int] == rel);
            }
            proof {
                assert(!rels@.subrange(0, i as int).contains(rel)) by {
                    if rels@.subrange(0, i as int).contains(rel) {
                        let k = choose|k: int| 0 <= k < i && rels@.subrange(0, i as int)[k] == rel;
                        assert(rels@[k] == rels@[i as int]);
                    }
                }
            }
            let ids = match self.load_junction_ids(rel, id) {
                Ok(ids) => ids,
                Err(e) => return Err(e),
            };
            let ghost mid = steps;
            let mut j: usize = 0;
            proof {
                assert(ids@.subrange(0, 0).map_values(|x: i64| Some(x)) =~= Seq::<Option<i64>>::empty());
                assert(step_ids(mid, rel) + Seq::<Option<i64>>::empty() =~= step_ids(mid, rel));
            }
            while j < ids.len()
                invariant
                    j <= ids@.len(),
                    T::spec_junctions().contains(rel),
                    add_steps::<T>(start, steps) == Ok::<T::V, ErrorView>(model@),
                    T::spec_id(model@) == T::spec_id(start),
                    step_ids(steps, rel) == step_ids(mid, rel) + ids@.subrange(0, j as int).map_values(|x: i64| Some(x)),
                    forall|o: JunctionTable| o != rel ==> #[trigger] step_ids(steps, o) == step_ids(mid, o),
                decreases ids@.len() - j,
            {
                let ghost before = model@;
                match self.load_junction(rel, ids[j], model) {
                    Ok(()) => {},
                    Err(e) => return Err(e),
                }
                proof {
                    let row = choose|row: Seq<CellValue>| row_id(row) == Some(ids@[j as int])
                        && #[trigger] T::spec_add_member(before, rel, row) == Ok::<T::V, ErrorView>(model@);
                    let next = steps.push((rel, row));
                    assert(next.drop_last() =~= steps);
                    assert(add_steps::<T>(start, next) == Ok::<T::V, ErrorView>(model@));
                    T::lemma_add_member_keeps_id(before, rel, row);
                    assert(ids@.subrange(0, j as int + 1).map_values(|x: i64| Some(x))
                        =~= ids@.subrange(0, j as int).map_values(|x: i64| Some(x)).push(Some(ids@[j as int])));
                    assert(step_ids(next, rel) =~= step_ids(mid, rel) + ids@.subrange(0, j as int + 1).map_values(|x: i64| Some(x)));
                    assert forall|o: JunctionTable| o != rel implies #[trigger] step_ids(next, o) == step_ids(mid, o) by {
                        assert(step_ids(next, o) == step_ids(steps, o));
                    }
                    steps = next;
                }
                j = j + 1;
            }
            proof {
                assert(ids@.subrange(0, ids@.len() as int) =~= ids@);
                assert(step_ids(mid, rel) == Seq::<Option<i64>>::empty());
                assert(step_ids(steps, rel) =~= ids@.map_values(|x: i64| Some(x)));
                assert(recorded_for(rel, id, step_ids(steps, rel)));
                assert forall|k: int| 0 <= k < i + 1 implies recorded_for(rels@[k], id, #[trigger] step_ids(steps, rels@[k])) by {
                    if k < i {
                        assert(rels@[k] != rel);
                    }
                }
                assert forall|o: JunctionTable| !rels@.subrange(0, i as int + 1).contains(o) implies #[trigger] step_ids(steps, o) == Seq::<Option<i64>>::empty() by {
                    assert(rels@.subrange(0, i as int + 1)[i as int] == rel);
                    if rels@.subrange(0, i as int).contains(o) {
                        let k = choose|k: int| 0 <= k < i && rels@.subrange(0, i as int)[k] == o;
                        assert(rels@.subrange(0, i as int + 1)[k] == o);
                    }
                }
            }
            i = i + 1;
        }
        proof {
            assert(hydrated_from::<T>(start, model@, id)) by {
                assert forall|k: int| 0 <= k < T::spec_junctions().len() implies recorded_for(T::spec_junctions()[k], id, #[trigger] step_ids(steps, T::spec_junctions()[k])) by {}
                assert(add_steps::<T>(start, steps) == Ok::<T::V, ErrorView>(model@));
            }
        }
        Ok(())
    }

    /// The entity `id` of `T`, with every relation filled: read from the row
    /// that holds `id`, each relation holding one member per id recorded for
    /// `id`, each read from the row of the referenced table that holds that
    /// id. `NotFound` when no row holds `id`.
    pub fn load<T: Model>(&self, id: i64) -> (r: Result<T, DbError>)
        ensures
            r matches Ok(e) ==> loaded::<T>(id, e@) && T::spec_id(e@) == Some(id),
    {
        let cols = T::columns();
        let sql = select_by_id_sql(T::table().as_str(), &cols);
        let rows = match self.select(sql.as_str(), &vec![SqlValue::Integer(id)]) {
            Ok(rows) => rows,
            Err(e) => return Err(e),
        };
        let mut model: T = match entity_from_rows(&rows, id) {
            Ok(m) => m,
            Err(e) => return Err(e),
        };
        let ghost row = row_view(rows@[0]@);
        let ghost fresh = model@;
        proof {
            T::lemma_build_fresh(row);
        }
        match self.hydrate(&mut model, id) {
            Ok(()) => {},
            Err(e) => return Err(e),
        }
        proof {
            assert(T::spec_build(row) == Ok::<T::V, ErrorView>(fresh));
            assert(loaded::<T>(id, model@));
        }
        Ok(model)
    }

    /// Every entity of `T`, one per row the store returns, in the store's
    /// order, each with its relations filled as `load` fills them.
    pub fn get_all_models<T: Model>(&self) -> (r: Result<Vec<T>, DbError>)
        ensures
            r matches Ok(v) ==> read_from_rows::<T>(v@),
    {
        let cols = T::columns();
        let sql = select_all_sql(T::table().as_str(), &cols);
        let none: Vec<SqlValue> = Vec::new();
        let rows = match self.select(sql.as_str(), &none) {
            Ok(rows) => rows,
            Err(e) => return Err(e),
        };
        let mut models: Vec<T> = match entities_from_rows(&rows) {
            Ok(m) => m,
            Err(e) => return Err(e),
        };
        let ghost f = |row: Seq<CellValue>| T::spec_build(row);
        let ghost all = rows_view(rows@);
        let ghost built = models@.map_values(|e: T| e@);
        proof {
            lemma_collect_ok(all, f, built);
        }
        let mut out: Vec<T> = Vec::new();
        let ghost n = models@.len();
        while models.len() > 0
            invariant
                out@.len() + models@.len() == n,
                n == all.len(),
                built.len() == n,
                forall|i: int| 0 <= i < n ==> f(all[i]) == Ok::<T::V, ErrorView>(built[i]),
                forall|i: int| 0 <= i < models@.len() ==> #[trigger] models@[i]@ == built[out@.len() + i],
                forall|i: int| 0 <= i < out@.len() ==> entity_from_row::<T>(all[i], #[trigger] out@[i]@),
                f == (|row: Seq<CellValue>| T::spec_build(row)),
            decreases models@.len(),
        {
            let ghost k = out@.len() as int;
            let ghost rest = models@;
            let mut m = models.remove(0);
            proof {
                assert(m@ == built[k]);
                T::lemma_build_fresh(all[k]);
                assert(forall|i: int| 0 <= i < models@.len() ==> models@[i]@ == built[k + 1 + i]) by {
                    assert forall|i: int| 0 <= i < models@.len() implies models@[i]@ == built[k + 1 + i] by {
                        assert(models@[i] == rest[i + 1]);
                    }
                }
            }
            let ghost fresh = m@;
            match T::id(&m) {
                Some(id) => match self.hydrate(&mut m, id) {
                    Ok(()) => {},
                    Err(e) => return Err(e),
                },
                None => {},
            }
            proof {
                assert(T::spec_build(all[k]) == Ok::<T::V, ErrorView>(fresh));
                assert(entity_from_row::<T>(all[k], m@));
            }
            let ghost before = out@;
            out.push(m);
            proof {
                assert forall|i: int| 0 <= i < out@.len() implies entity_from_row::<T>(all[i], #[trigger] out@[i]@) by {
                    if i < k {
                        assert(out@[i] == before[i]);
                    }
                }
            }
        }
        proof {
            assert(read_entities::<T>(all, out@));
            assert(read_from_rows::<T>(out@));
        }
        Ok(out)
    }

    /// Replaces the pairs of every relation of `model`, the entity `id`, by
    /// the ids of the relation's members, inside the open transaction.
    fn junctions_in_transaction<T: Model>(&mut self, model: &T, id: i64) -> (r: Result<(), DbError>)
        ensures
            r is Ok ==> exists|c: Seq<(JunctionTable, JunctionOp)>| #![auto] saved_relations::<T>(model@, id, c)
                && final(self).changes() == old(self).changes() + c
                && final(self).sent() == old(self).sent() + op_statements(c),
            has_unstored_member::<T>(model@) ==> r is Err,
            r matches Err(e) ==> e@ is StoreUnavailable || (e@ is MissingColumn && has_unstored_member::<T>(model@)),
    {
        let rels = T::junctions();
        let ghost start = self.journal@;
        let ghost start_sent = self.sent@;
        let ghost mut ds: Seq<Seq<i64>> = Seq::empty();
        proof {
            assert(rels@.subrange(0, 0) =~= Seq::<JunctionTable>::empty());
            assert(start + planned(rels@.subrange(0, 0), id, ds) =~= start);
            assert(op_statements(planned(rels@.subrange(0, 0), id, ds)) =~= Seq::<Sent>::empty());
            assert(start_sent + Seq::<Sent>::empty() =~= start_sent);
        }
        let mut i: usize = 0;
        while i < rels.len()
            invariant
                i <= rels@.len(),
                rels@ == T::spec_junctions(),
                ds.len() == i,
                forall|k: int| 0 <= k < i ==> (#[trigger] ds[k]).no_duplicates()
                    && ds[k].to_set() == id_set(T::spec_related(model@, rels@[k])),
                forall|k: int, m: int| 0 <= k < i && 0 <= m < T::spec_related(model@, rels@[k]).len()
                    ==> #[trigger] T::spec_related(model@, rels@[k])[m] is Some,
                self.journal@ == start + planned(rels@.subrange(0, i as int), id, ds),
                self.sent@ == start_sent + op_statements(planned(rels@.subrange(0, i as int), id, ds)),
            decreases rels@.len() - i,
        {
            let rel = rels[i];
            let members = model.related_ids(rel);
            let ids = match referenced_ids(&members, rel) {
                Ok(ids) => ids,
                Err(e) => {
                    proof {
                        let m = choose|m: int| 0 <= m < members@.len() && !(members@[m] is Some);
                        assert(T::spec_related(model@, T::spec_junctions()[i as int])[m] is None);
                    }
                    return Err(e);
                },
            };
            proof {
                assert forall|x: i64| ids@.to_set().contains(x) == id_set(members@).contains(x) by {
                    if ids@.to_set().contains(x) {
                        let j = choose|j: int| 0 <= j < ids@.len() && ids@[j] == x;
                        assert(members@[j] == Some(x));
                    }
                    if id_set(members@).contains(x) {
                        let j = choose|j: int| 0 <= j < members@.len() && members@[j] == Some(x);
                        assert(ids@[j] == x);
                        assert(ids@.contains(x));
                    }
                }
                assert(ids@.to_set() =~= id_set(members@));
            }
            let ghost before = self.journal@;
            let ghost before_sent = self.sent@;
            match self.replace_in_transaction(rel, id, &ids) {
                Ok(()) => {},
                Err(e) => return Err(e),
            }
            proof {
                let d = choose|d: Seq<i64>| #![auto] d.no_duplicates() && d.to_set() == ids@.to_set()
                    && self.journal@ == before + tagged(rel, spec_plan(id, d))
                    && self.sent@ == before_sent + op_statements(tagged(rel, spec_plan(id, d)));
                let ds2 = ds.push(d);
                let prefix = rels@.subrange(0, i as int + 1);
                assert(prefix.drop_last() =~= rels@.subrange(0, i as int));
                assert(ds2.drop_last() =~= ds);
                let p0 = planned(rels@.subrange(0, i as int), id, ds);
                assert(planned(prefix, id, ds2) == p0 + tagged(rel, spec_plan(id, d)));
                assert(self.journal@ =~= start + planned(prefix, id, ds2));
                assert(op_statements(p0 + tagged(rel, spec_plan(id, d))) =~= op_statements(p0) + op_statements(tagged(rel, spec_plan(id, d))));
                assert(self.sent@ =~= start_sent + op_statements(planned(prefix, id, ds2)));
                assert forall|k: int| 0 <= k < i + 1 implies (#[trigger] ds2[k]).no_duplicates()
                    && ds2[k].to_set() == id_set(T::spec_related(model@, rels@[k])) by {
                    if k < i {
                        assert(ds2[k] == ds[k]);
                    }
                }
                ds = ds2;
            }
            i = i + 1;
        }
        proof {
            assert(rels@.subrange(0, rels@.len() as int) =~= rels@);
            let c = planned(rels@, id, ds);
            assert(saved_relations::<T>(model@, id, c));
            assert(self.changes() == old(self).changes() + c);
            assert(self.sent() == old(self).sent() + op_statements(c));
        }
        Ok(())
    }

    /// Stores the relations of `model`, the entity `id`: the pairs of each of
    /// its junction tables are replaced by the ids of the relation's members,
    /// all in one transaction. A member without an id is refused as a missing
    /// referenced id. On failure the transaction is rolled back.
    pub fn save_junctions<T: Model>(&mut self, model: &T, id: i64) -> (r: Result<(), DbError>)
        ensures
            r is Ok ==> exists|c: Seq<(JunctionTable, JunctionOp)>| #![auto] saved_relations::<T>(model@, id, c)
                && final(self).changes() == old(self).changes() + c
                && final(self).sent() == old(self).sent() + op_statements(c),
            has_unstored_member::<T>(model@) ==> r is Err,
            r matches Err(e) ==> e@ is StoreUnavailable || (e@ is MissingColumn && has_unstored_member::<T>(model@)),
            r is Err ==> final(self).changes() == old(self).changes() && final(self).sent() == old(self).sent(),
    {
        match self.ensure_table::<T>() {
            Ok(()) => {},
            Err(e) => return Err(e),
        }
        match self.control("BEGIN") {
            Ok(()) => {},
            Err(e) => return Err(e),
        }
        let ghost start = self.journal@;
        let ghost start_sent = self.sent@;
        match self.junctions_in_transaction(model, id) {
            Ok(()) => {},
            Err(e) => {
                self.rollback();
                self.journal = Ghost(start);
                self.sent = Ghost(start_sent);
                return Err(e);
            },
        }
        match self.control("COMMIT") {
            Ok(()) => Ok(()),
            Err(e) => {
                self.rollback();
                self.journal = Ghost(start);
                self.sent = Ghost(start_sent);
                Err(e)
            },
        }
    }

    /// Writes the row of `model` and then its relations, inside the open
    /// transaction; the id is the entity's own, or the one the store assigned.
    fn save_in_transaction<T: Model>(&mut self, model: &T, sql: &str, params: &Vec<SqlValue>) -> (r: Result<i64, DbError>)
        requires
            storable(row_view(params@)),
        ensures
            r matches Ok(id) ==> T::spec_id(model@) matches Some(n) ==> id == n,
            r matches Ok(id) ==> exists|c: Seq<(JunctionTable, JunctionOp)>| #![auto] saved_relations::<T>(model@, id, c)
                && final(self).changes() == old(self).changes() + c
                && final(self).sent() == old(self).sent().push((sql@, row_view(params@))) + op_statements(c),
            has_unstored_member::<T>(model@) ==> r is Err,
            r matches Err(e) ==> e@ is StoreUnavailable || (e@ is MissingColumn && has_unstored_member::<T>(model@)),
    {
        match self.run(sql, params) {
            Ok(()) => {},
            Err(e) => return Err(e),
        }
        let id = match model.id() {
            Some(n) => n,
            None => last_insert_rowid(&self.connection),
        };
        match self.junctions_in_transaction(model, id) {
            Ok(()) => Ok(id),
            Err(e) => Err(e),
        }
    }

    /// Inserts `model`, or replaces the stored entity with its id, and then
    /// replaces the pairs of each of its relations, all in one transaction.
    /// The row sent is the entity's row, with a NULL id for a new entity, so
    /// that the store assigns one. Returns the entity's id: its own, or the
    /// assigned one. A row whose length differs from the table's columns is
    /// refused before anything is sent; a relation member without an id is
    /// refused; on any failure the transaction is rolled back.
    pub fn save<T: Model>(&mut self, model: &T) -> (r: Result<i64, DbError>)
        requires
            T::within_limits(model@),
        ensures
            T::spec_params(model@).len() != T::spec_columns().len() ==> (r matches Err(e) && e@ is SchemaMismatch),
            has_unstored_member::<T>(model@) ==> r is Err,
            r matches Err(e) ==> e@ is StoreUnavailable
                || (e@ is SchemaMismatch && T::spec_params(model@).len() != T::spec_columns().len())
                || (e@ is MissingColumn && has_unstored_member::<T>(model@)),
            r matches Ok(id) ==> T::spec_id(model@) matches Some(n) ==> id == n,
            r matches Ok(id) ==> exists|c: Seq<(JunctionTable, JunctionOp)>| #![auto] saved_relations::<T>(model@, id, c)
                && final(self).changes() == old(self).changes() + c
                && final(self).sent() == old(self).sent().push(
                    (spec_replace(T::spec_table(), T::spec_columns()), T::spec_params(model@))) + op_statements(c),
            r is Err ==> final(self).changes() == old(self).changes() && final(self).sent() == old(self).sent(),
    {
        let params = model.parameters();
        let cols = T::columns();
        if params.len() != cols.len() {
            return Err(DbError::SchemaMismatch { table: T::table(), expected: cols.len(), found: params.len() });
        }
        match self.ensure_table::<T>() {
            Ok(()) => {},
            Err(e) => return Err(e),
        }
        let sql = replace_sql(T::table().as_str(), &cols);
        match self.control("BEGIN") {
            Ok(()) => {},
            Err(e) => return Err(e),
        }
        let ghost start = self.journal@;
        let ghost start_sent = self.sent@;
        let id = match self.save_in_transaction(model, sql.as_str(), &params) {
            Ok(id) => id,
            Err(e) => {
                self.rollback();
                self.journal = Ghost(start);
                self.sent = Ghost(start_sent);
                return Err(e);
            },
        };
        match self.control("COMMIT") {
            Ok(()) => Ok(id),
            Err(e) => {
                self.rollback();
                self.journal = Ghost(start);
                self.sent = Ghost(start_sent);
                Err(e)
            },
        }
    }

    /// Deletes the entity `id` of `T` and every pair in which it is the
    /// owning side, in one transaction. Deleting an absent id sends the same
    /// statements, which change nothing, and succeeds: the only error is a
    /// store failure, never `NotFound`. On failure the transaction is rolled
    /// back.
    pub fn delete<T: Model>(&mut self, id: i64) -> (r: Result<(), DbError>)
        ensures
            r is Ok ==> final(self).changes() == old(self).changes() + cleared(T::spec_junctions(), id)
                && final(self).sent() == old(self).sent().push((spec_delete_by_id(T::spec_table()), seq![CellValue::Integer(id)]))
                    + op_statements(cleared(T::spec_junctions(), id)),
            r is Err ==> final(self).changes() == old(self).changes() && final(self).sent() == old(self).sent(),
            r matches Err(e) ==> e@ is StoreUnavailable,
    {
        match self.ensure_table::<T>() {
            Ok(()) => {},
            Err(e) => return Err(e),
        }
        match self.control("BEGIN") {
            Ok(()) => {},
            Err(e) => return Err(e),
        }
        let ghost start = self.journal@;
        let ghost start_sent = self.sent@;
        match self.delete_in_transaction::<T>(id) {
            Ok(()) => {},
            Err(e) => {
                self.rollback();
                self.journal = Ghost(start);
                self.sent = Ghost(start_sent);
                return Err(e);
            },
        }
        match self.control("COMMIT") {
            Ok(()) => Ok(()),
            Err(e) => {
                self.rollback();
                self.journal = Ghost(start);
                self.sent = Ghost(start_sent);
                Err(e)
            },
        }
    }

    /// Deletes the row of the entity `id` and clears its pairs in each of its
    /// junction tables, inside the open transaction.
    fn delete_in_transaction<T: Model>(&mut self, id: i64) -> (r: Result<(), DbError>)
        ensures
            r is Ok ==> final(self).changes() == old(self).changes() + cleared(T::spec_junctions(), id)
                && final(self).sent() == old(self).sent().push((spec_delete_by_id(T::spec_table()), seq![CellValue::Integer(id)]))
                    + op_statements(cleared(T::spec_junctions(), id)),
            r matches Err(e) ==> e@ is StoreUnavailable,
    {
        let sql = delete_by_id_sql(T::table().as_str());
        let params = vec![SqlValue::Integer(id)];
        assert(row_view(params@) =~= seq![CellValue::Integer(id)]);
        match self.run(sql.as_str(), &params) {
            Ok(()) => {},
            Err(e) => return Err(e),
        }
        let rels = T::junctions();
        let ghost start = self.journal@;
        let ghost start_sent = self.sent@;
        proof {
            assert(cleared(rels@.subrange(0, 0), id) =~= Seq::<(JunctionTable, JunctionOp)>::empty());
            assert(op_statements(cleared(rels@.subrange(0, 0), id)) =~= Seq::<Sent>::empty());
            assert(start + Seq::<(JunctionTable, JunctionOp)>::empty() =~= start);
            assert(start_sent + Seq::<Sent>::empty() =~= start_sent);
        }
        let mut i: usize = 0;
        while i < rels.len()
            invariant
                i <= rels@.len(),
                rels@ == T::spec_junctions(),
                self.journal@ == start + cleared(rels@.subrange(0, i as int), id),
                self.sent@ == start_sent + op_statements(cleared(rels@.subrange(0, i as int), id)),
            decreases rels@.len() - i,
        {
            let rel = rels[i];
            match self.run_op(rel, JunctionOp::Clear(id)) {
                Ok(()) => {},
                Err(e) => return Err(e),
            }
            proof {
                assert(cleared(rels@.subrange(0, i as int + 1), id) =~= cleared(rels@.subrange(0, i as int), id).push((rel, JunctionOp::Clear(id))));
                assert(op_statements(cleared(rels@.subrange(0, i as int + 1), id))
                    =~= op_statements(cleared(rels@.subrange(0, i as int), id)).push(op_statement(rel, JunctionOp::Clear(id))));
            }
            i = i + 1;
        }
        proof {
            assert(rels@.subrange(0, rels@.len() as int) =~= rels@);
        }
        Ok(())
    }

    /// Creates the spells table and the junction table of characters' spells
    /// if they are absent.
    pub fn create_spell_tables(&self) -> (r: Result<(), DbError>)
        ensures
            r matches Err(e) ==> e@ is StoreUnavailable,
    {
        match self.ensure_table::<Spell>() {
            Ok(()) => {},
            Err(e) => return Err(e),
        }
        self.ensure_junction_table(JunctionTable::CharacterSpells)
    }

    /// Replaces the spells of the character `id` by `spells`, each of which
    /// must be stored already. A character without an id, or a spell without
    /// one, is refused as a missing referenced id.
    pub fn save_character_spells(&mut self, id: Option<i64>, spells: &Vec<Spell>) -> (r: Result<(), DbError>)
        ensures
            id is None ==> (r matches Err(e) && e@ == (ErrorView::MissingColumn {
                table: JunctionTable::CharacterSpells.spec_name(),
                column: JunctionTable::CharacterSpells.spec_owner_column(),
            })),
            (exists|i: int| 0 <= i < spells@.len() && (#[trigger] spells@[i])@.id is None) ==> r is Err,
            r matches Err(e) ==> e@ is StoreUnavailable || e@ is MissingColumn,
            r is Ok ==> exists|d: Seq<i64>| #![auto] d.no_duplicates()
                && d.to_set() == id_set(spells@.map_values(|s: Spell| s@.id))
                && final(self).changes() == old(self).changes() + tagged(JunctionTable::CharacterSpells, spec_plan(id->Some_0, d))
                && final(self).sent() == old(self).sent() + op_statements(tagged(JunctionTable::CharacterSpells, spec_plan(id->Some_0, d))),
            r is Err ==> final(self).changes() == old(self).changes() && final(self).sent() == old(self).sent(),
    {
        let rel = JunctionTable::CharacterSpells;
        let owner = match id {
            Some(n) => n,
            None => {
                let (column, _) = rel.columns();
                return Err(DbError::MissingColumn { table: rel.name(), column });
            },
        };
        let mut members: Vec<Option<i64>> = Vec::new();
        let mut i: usize = 0;
        while i < spells.len()
            invariant
                i <= spells@.len(),
                members@ == spells@.subrange(0, i as int).map_values(|s: Spell| s@.id),
            decreases spells@.len() - i,
        {
            members.push(spells[i].id);
            i = i + 1;
            assert(members@ =~= spells@.subrange(0, i as int).map_values(|s: Spell| s@.id));
        }
        assert(spells@.subrange(0, spells@.len() as int) =~= spells@);
        let ids = match referenced_ids(&members, rel) {
            Ok(ids) => ids,
            Err(e) => return Err(e),
        };
        proof {
            assert forall|x: i64| ids@.to_set().contains(x) == id_set(members@).contains(x) by {
                if ids@.to_set().contains(x) {
                    let j = choose|j: int| 0 <= j < ids@.len() && ids@[j] == x;
                    assert(members@[j] == Some(x));
                }
                if id_set(members@).contains(x) {
                    let j = choose|j: int| 0 <= j < members@.len() && members@[j] == Some(x);
                    assert(ids@[j] == x);
                    assert(ids@.contains(x));
                }
            }
            assert(ids@.to_set() =~= id_set(members@));
            assert forall|i: int| 0 <= i < spells@.len() implies !((#[trigger] spells@[i])@.id is None) by {
                assert(members@[i] is Some);
            }
        }
        self.replace_associations(rel, owner, &ids)
    }

    /// Inserts `spell`, or replaces the stored spell with its id; returns the
    /// spell's id: its own, or the one the store assigned.
    pub fn save_spell(&mut self, spell: Spell) -> (r: Result<i64, DbError>)
        requires
            Spell::within_limits(spell@),
        ensures
            r matches Ok(id) ==> spell.id matches Some(n) ==> id == n,
            r is Ok ==> final(self).sent() == old(self).sent().push(
                (spec_replace(Spell::spec_table(), Spell::spec_columns()), Spell::spec_params(spell@))),
            final(self).changes() == old(self).changes(),
            r is Err ==> final(self).sent() == old(self).sent(),
            r matches Err(e) ==> e@ is StoreUnavailable,
    {
        proof {
            Spell::lemma_round_trip(spell@);
            lemma_leaf_has_no_unstored_member::<Spell>(spell@);
        }
        let r = self.save(&spell);
        proof {
            if r is Ok {
                lemma_leaf_saves_no_pairs::<Spell>(spell@, r->Ok_0);
            }
        }
        r
    }

    /// The spells of the character `id`, one per spell id recorded for it,
    /// in the store's order, each as `load_spell` gives it.
    pub fn load_character_spells(&self, id: i64) -> (r: Result<Vec<Spell>, DbError>)
        ensures
            r matches Ok(v) ==> loaded_list::<Spell>(JunctionTable::CharacterSpells, id, v@.map_values(|s: Spell| s@)),
    {
        let ids = match self.load_junction_ids(JunctionTable::CharacterSpells, id) {
            Ok(ids) => ids,
            Err(e) => return Err(e),
        };
        let mut out: Vec<Spell> = Vec::new();
        let mut i: usize = 0;
        while i < ids.len()
            invariant
                i <= ids@.len(),
                out@.len() == i,
                forall|k: int| 0 <= k < i ==> loaded::<Spell>(ids@[k], #[trigger] out@[k]@) && out@[k]@.id == Some(ids@[k]),
            decreases ids@.len() - i,
        {
            match self.load::<Spell>(ids[i]) {
                Ok(s) => out.push(s),
                Err(e) => return Err(e),
            }
            i = i + 1;
        }
        proof {
            let vs = out@.map_values(|s: Spell| s@);
            assert forall|k: int| 0 <= k < ids@.len() implies loaded::<Spell>(ids@[k], #[trigger] vs[k]) && Spell::spec_id(vs[k]) == Some(ids@[k]) by {
                assert(vs[k] == out@[k]@);
            }
            assert(loaded_list::<Spell>(JunctionTable::CharacterSpells, id, vs));
        }
        Ok(out)
    }

    /// The spell `id`, read from the row that holds `id`; `NotFound` when no
    /// row does.
    pub fn load_spell(&self, id: i64) -> (r: Result<Spell, DbError>)
        ensures
            r matches Ok(s) ==> loaded::<Spell>(id, s@) && s@.id == Some(id),
    {
        self.load::<Spell>(id)
    }

    /// Every stored spell, one per row the store returns, in the store's
    /// order.
    pub fn get_all_spells(&self) -> (r: Result<Vec<Spell>, DbError>)
        ensures
            r matches Ok(v) ==> read_from_rows::<Spell>(v@),
    {
        self.get_all_models::<Spell>()
    }

    /// Creates the characters table if it is absent.
    pub fn create_character_table(&self) -> (r: Result<(), DbError>)
        ensures
            r matches Err(e) ==> e@ is StoreUnavailable,
    {
        self.ensure_table::<Character>()
    }

    /// Inserts `character`, or replaces the stored character with its id;
    /// returns its id: its own, or the one the store assigned.
    pub fn save_character(&mut self, character: &Character) -> (r: Result<i64, DbError>)
        requires
            Character::within_limits(character@),
        ensures
            r matches Ok(id) ==> character.id matches Some(n) ==> id == n as i64,
            r is Ok ==> final(self).sent() == old(self).sent().push(
                (spec_replace(Character::spec_table(), Character::spec_columns()), Character::spec_params(character@))),
            final(self).changes() == old(self).changes(),
            r is Err ==> final(self).sent() == old(self).sent(),
            r matches Err(e) ==> e@ is StoreUnavailable,
    {
        proof {
            Character::lemma_round_trip(character@);
            lemma_leaf_has_no_unstored_member::<Character>(character@);
        }
        let r = self.save(character);
        proof {
            if r is Ok {
                lemma_leaf_saves_no_pairs::<Character>(character@, r->Ok_0);
            }
        }
        r
    }

    /// The character `id`, read from the row that holds `id`; `NotFound` when
    /// no row does.
    pub fn load_character(&self, id: i64) -> (r: Result<Character, DbError>)
        ensures
            r matches Ok(c) ==> loaded::<Character>(id, c@) && Character::spec_id(c@) == Some(id),
    {
        self.load::<Character>(id)
    }

    /// Deletes the stored character with the id of `character`; a character
    /// never stored has nothing to delete and nothing is sent.
    pub fn delete_character(&mut self, character: &Character) -> (r: Result<(), DbError>)
        ensures
            final(self).changes() == old(self).changes(),
            r is Ok ==> (character.id matches Some(n) ==> final(self).sent() == old(self).sent().push(
                (spec_delete_by_id(Character::spec_table()), seq![CellValue::Integer(n as i64)]))),
            character.id is None ==> r is Ok && final(self).sent() == old(self).sent(),
            r is Err ==> final(self).sent() == old(self).sent(),
            r matches Err(e) ==> e@ is StoreUnavailable,
    {
        match character.id {
            Some(n) => {
                let r = self.delete::<Character>(n as i64);
                proof {
                    assert(cleared(Character::spec_junctions(), n as i64) =~= Seq::<(JunctionTable, JunctionOp)>::empty());
                    assert(op_statements(Seq::<(JunctionTable, JunctionOp)>::empty()) =~= Seq::<Sent>::empty());
                    assert(old(self).changes() + Seq::<(JunctionTable, JunctionOp)>::empty() =~= old(self).changes());
                    let s = old(self).sent().push((spec_delete_by_id(Character::spec_table()), seq![CellValue::Integer(n as i64)]));
                    assert(s + Seq::<Sent>::empty() =~= s);
                }
                r
            },
            None => Ok(()),
        }
    }

    /// Every stored character, one per row the store returns, in the store's
    /// order.
    pub fn get_all_characters(&self) -> (r: Result<Vec<Character>, DbError>)
        ensures
            r matches Ok(v) ==> read_from_rows::<Character>(v@),
    {
        self.get_all_models::<Character>()
    }

    /// The summary of every stored character, one per row the store returns,
    /// in the store's order.
    pub fn list_all_characters(&self) -> (r: Result<Vec<SavedCharacter>, DbError>)
        ensures
            r matches Ok(v) ==> summarized_from_rows(v@),
    {
        let all = match self.get_all_characters() {
            Ok(all) => all,
            Err(e) => return Err(e),
        };
        assert(read_from_rows::<Character>(all@));
        let ghost rows = choose|rows: Seq<Seq<CellValue>>| #[trigger] read_entities::<Character>(rows, all@);
        let mut out: Vec<SavedCharacter> = Vec::new();
        let mut i: usize = 0;
        while i < all.len()
            invariant
                i <= all@.len(),
                out@.len() == i,
                read_entities::<Character>(rows, all@),
                forall|k: int| 0 <= k < i ==> #[trigger] summarizes_row(rows[k], out@[k]),
            decreases all@.len() - i,
        {
            let s = SavedCharacter::of(&all[i]);
            proof {
                let c = all@[i as int]@;
                assert(entity_from_row::<Character>(rows[i as int], c));
                assert(summarizes_row(rows[i as int], s));
            }
            let ghost before = out@;
            out.push(s);
            proof {
                assert forall|k: int| 0 <= k < i + 1 implies #[trigger] summarizes_row(rows[k], out@[k]) by {
                    if k < i {
                        assert(out@[k] == before[k]);
                    }
                }
            }
            i = i + 1;
        }
        assert(summarizes_rows(rows, out@));
        assert(summarized_from_rows(out@));
        Ok(out)
    }
}

/// An entity without junction relations has no member to be stored.
pub proof fn lemma_leaf_has_no_unstored_member<T: Model>(v: T::V)
    requires
        T::spec_junctions().len() == 0,
    ensures
        !has_unstored_member::<T>(v),
{
}

/// Saving an entity without junction relations changes no junction table.
pub proof fn lemma_leaf_saves_no_pairs<T: Model>(v: T::V, id: i64)
    requires
        T::spec_junctions().len() == 0,
    ensures
        forall|c: Seq<(JunctionTable, JunctionOp)>| #[trigger] saved_relations::<T>(v, id, c) ==> c == Seq::<(JunctionTable, JunctionOp)>::empty()
            && op_statements(c) == Seq::<Sent>::empty(),
{
    assert forall|c: Seq<(JunctionTable, JunctionOp)>| #[trigger] saved_relations::<T>(v, id, c) implies c == Seq::<(JunctionTable, JunctionOp)>::empty()
        && op_statements(c) == Seq::<Sent>::empty() by {
        let ds = choose|ds: Seq<Seq<i64>>| {
            &&& ds.len() == T::spec_junctions().len()
            &&& forall|k: int| 0 <= k < ds.len() ==> (#[trigger] ds[k]).no_duplicates()
                && ds[k].to_set() == id_set(T::spec_related(v, T::spec_junctions()[k]))
            &&& c == planned(T::spec_junctions(), id, ds)
        };
        assert(c =~= Seq::<(JunctionTable, JunctionOp)>::empty());
        assert(op_statements(c) =~= Seq::<Sent>::empty());
    }
}

} // verus!
