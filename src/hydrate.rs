//! What the engine does with the rows the store hands back: entities built
//! from them, junction ids read from them, and relations filled from them.
use vstd::prelude::*;
use crate::junction::JunctionTable;
use crate::model::{Model, row_id};
use crate::row::{read_int, spec_read_int};
use crate::value::{DbError, ErrorView, SqlValue, CellValue, result_view, row_view};

verus! {

/// The mathematical form of a list of rows.
pub open spec fn rows_view(rows: Seq<Vec<SqlValue>>) -> Seq<Seq<CellValue>> {
    rows.map_values(|r: Vec<SqlValue>| row_view(r@))
}

/// `f` applied to each row, in order, or the error of the first row for
/// which it fails.
pub open spec fn collect<A>(rows: Seq<Seq<CellValue>>, f: spec_fn(Seq<CellValue>) -> Result<A, ErrorView>) -> Result<Seq<A>, ErrorView>
    decreases rows.len(),
{
    if rows.len() == 0 {
        Ok(Seq::empty())
    } else {
        match collect(rows.drop_last(), f) {
            Err(e) => Err(e),
            Ok(vs) => match f(rows.last()) {
                Err(e) => Err(e),
                Ok(v) => Ok(vs.push(v)),
            },
        }
    }
}

/// Once a prefix of the rows fails, all of them fail with the same error.
pub proof fn lemma_collect_prefix_err<A>(rows: Seq<Seq<CellValue>>, n: int, f: spec_fn(Seq<CellValue>) -> Result<A, ErrorView>, e: ErrorView)
    requires
        0 <= n <= rows.len(),
        collect(rows.subrange(0, n), f) == Err::<Seq<A>, ErrorView>(e),
    ensures
        collect(rows, f) == Err::<Seq<A>, ErrorView>(e),
    decreases rows.len() - n,
{
    if n < rows.len() {
        let next = rows.subrange(0, n + 1);
        assert(next.drop_last() =~= rows.subrange(0, n));
        lemma_collect_prefix_err(rows, n + 1, f, e);
    } else {
        assert(rows.subrange(0, n) =~= rows);
    }
}

/// When every row succeeds, the result holds each row's value, in order.
pub proof fn lemma_collect_ok<A>(rows: Seq<Seq<CellValue>>, f: spec_fn(Seq<CellValue>) -> Result<A, ErrorView>, vs: Seq<A>)
    requires
        collect(rows, f) == Ok::<Seq<A>, ErrorView>(vs),
    ensures
        vs.len() == rows.len(),
        forall|i: int| 0 <= i < rows.len() ==> f(rows[i]) == Ok::<A, ErrorView>(vs[i]),
    decreases rows.len(),
{
    if rows.len() > 0 {
        let front = rows.drop_last();
        match collect(front, f) {
            Ok(ws) => {
                lemma_collect_ok(front, f, ws);
                assert(vs == ws.push(f(rows.last())->Ok_0));
                assert forall|i: int| 0 <= i < rows.len() implies f(rows[i]) == Ok::<A, ErrorView>(vs[i]) by {
                    if i < rows.len() - 1 {
                        assert(rows[i] == front[i]);
                    }
                }
            },
            Err(_) => {},
        }
    }
}

/// Whether a row holds `id` in its first column.
pub fn row_has_id(row: &Vec<SqlValue>, id: i64) -> (r: bool)
    ensures
        r == (row_id(row_view(row@)) == Some(id)),
{
    if row.len() == 0 {
        false
    } else {
        match &row[0] {
            SqlValue::Integer(n) => *n == id,
            _ => false,
        }
    }
}

/// The referenced id a junction row of `rel` holds in its second column;
/// its first column must hold the owning id `owner` that was asked for.
pub open spec fn spec_read_key(row: Seq<CellValue>, rel: JunctionTable, owner: i64) -> Result<i64, ErrorView> {
    if row.len() < 2 {
        Err(ErrorView::SchemaMismatch { table: rel.spec_name(), expected: 2, found: row.len() as usize })
    } else if row[0] != CellValue::Integer(owner) {
        Err(ErrorView::InvalidColumnType { table: rel.spec_name(), column: rel.spec_owner_column() })
    } else {
        spec_read_int(row, 1, rel.spec_name(), rel.spec_referenced_column(), i64::MIN, i64::MAX)
    }
}

/// The referenced ids that junction rows of `rel` for the owning id `owner`
/// hold, in order, or the first error.
pub open spec fn junction_keys(rows: Seq<Seq<CellValue>>, rel: JunctionTable, owner: i64) -> Result<Seq<i64>, ErrorView> {
    collect(rows, |row: Seq<CellValue>| spec_read_key(row, rel, owner))
}

/// The entity stored in the first of the rows selected for `id`, or
/// `NotFound` when no row was selected or the first holds another id.
pub fn entity_from_rows<T: Model>(rows: &Vec<Vec<SqlValue>>, id: i64) -> (r: Result<T, DbError>)
    ensures
        (rows@.len() == 0 || row_id(row_view(rows@[0]@)) != Some(id)) ==> result_view(r) == Err::<T::V, ErrorView>(
            ErrorView::NotFound { table: T::spec_table(), id },
        ),
        (rows@.len() > 0 && row_id(row_view(rows@[0]@)) == Some(id)) ==> result_view(r) == T::spec_build(row_view(rows@[0]@)),
{
    if rows.len() == 0 || !row_has_id(&rows[0], id) {
        let table = T::table();
        Err(DbError::NotFound { table, id })
    } else {
        T::build(&rows[0])
    }
}

/// Appends to the relation `rel` of `model` the entity `child` that the
/// first of `rows` stores: `NotFound` when no row was selected or the first
/// holds another id; on any error `model` is unchanged.
pub fn add_member_from_rows<T: Model>(rows: &Vec<Vec<SqlValue>>, rel: JunctionTable, child: i64, model: &mut T) -> (r: Result<(), DbError>)
    requires
        T::spec_junctions().contains(rel),
    ensures
        (rows@.len() == 0 || row_id(row_view(rows@[0]@)) != Some(child)) ==> (r matches Err(e)
            && e@ == (ErrorView::NotFound { table: rel.spec_referenced_table(), id: child })),
        (rows@.len() > 0 && row_id(row_view(rows@[0]@)) == Some(child)) ==> T::spec_add_member(old(model)@, rel, row_view(rows@[0]@)) == match r {
            Ok(()) => Ok(final(model)@),
            Err(e) => Err(e@),
        },
        r is Err ==> final(model)@ == old(model)@,
{
    if rows.len() == 0 || !row_has_id(&rows[0], child) {
        let (_, table) = rel.references();
        return Err(DbError::NotFound { table, id: child });
    }
    model.build_junction(rel, &rows[0])
}

/// The entities stored in the rows, in order, or the first error.
pub fn entities_from_rows<T: Model>(rows: &Vec<Vec<SqlValue>>) -> (r: Result<Vec<T>, DbError>)
    ensures
        collect(rows_view(rows@), |row: Seq<CellValue>| T::spec_build(row)) == match r {
            Ok(v) => Ok(v@.map_values(|e: T| e@)),
            Err(e) => Err(e@),
        },
{
    let ghost f = |row: Seq<CellValue>| T::spec_build(row);
    let ghost all = rows_view(rows@);
    let mut out: Vec<T> = Vec::new();
    proof {
        assert(out@.map_values(|e: T| e@) =~= Seq::<T::V>::empty());
        assert(all.subrange(0, 0) =~= Seq::<Seq<CellValue>>::empty());
    }
    let mut i: usize = 0;
    while i < rows.len()
        invariant
            i <= rows@.len(),
            all == rows_view(rows@),
            f == (|row: Seq<CellValue>| T::spec_build(row)),
            collect(all.subrange(0, i as int), f) == Ok::<Seq<T::V>, ErrorView>(out@.map_values(|e: T| e@)),
        decreases rows@.len() - i,
    {
        let ghost k = i as int;
        proof {
            assert(all.subrange(0, k + 1).drop_last() =~= all.subrange(0, k));
            assert(all.subrange(0, k + 1).last() == row_view(rows@[k]@));
        }
        match T::build(&rows[i]) {
            Ok(e) => {
                let ghost before = out@;
                out.push(e);
                proof {
                    assert(out@.map_values(|e: T| e@) =~= before.map_values(|e: T| e@).push(e@));
                }
            },
            Err(e) => {
                proof {
                    lemma_collect_prefix_err(all, k + 1, f, e@);
                }
                return Err(e);
            },
        }
        i = i + 1;
    }
    proof {
        assert(all.subrange(0, rows@.len() as int) =~= all);
    }
    Ok(out)
}

/// The referenced ids that junction rows of `rel` for the owning id `owner`
/// hold, in order, or the first error.
pub fn ids_from_rows(rows: &Vec<Vec<SqlValue>>, rel: JunctionTable, owner: i64) -> (r: Result<Vec<i64>, DbError>)
    ensures
        junction_keys(rows_view(rows@), rel, owner) == match r {
            Ok(v) => Ok(v@),
            Err(e) => Err(e@),
        },
{
    let ghost f = |row: Seq<CellValue>| spec_read_key(row, rel, owner);
    let ghost all = rows_view(rows@);
    let table = rel.name();
    let (owner_column, column) = rel.columns();
    let mut out: Vec<i64> = Vec::new();
    let mut i: usize = 0;
    while i < rows.len()
        invariant
            i <= rows@.len(),
            all == rows_view(rows@),
            table@ == rel.spec_name(),
            owner_column@ == rel.spec_owner_column(),
            column@ == rel.spec_referenced_column(),
            f == (|row: Seq<CellValue>| spec_read_key(row, rel, owner)),
            collect(all.subrange(0, i as int), f) == Ok::<Seq<i64>, ErrorView>(out@),
        decreases rows@.len() - i,
    {
        let ghost k = i as int;
        proof {
            assert(all.subrange(0, k + 1).drop_last() =~= all.subrange(0, k));
            assert(all.subrange(0, k + 1).last() == row_view(rows@[k]@));
        }
        let row = &rows[i];
        let read = if row.len() < 2 {
            Err(DbError::SchemaMismatch { table: table.clone(), expected: 2, found: row.len() })
        } else if !row_has_id(row, owner) {
            Err(DbError::InvalidColumnType { table: table.clone(), column: owner_column.clone() })
        } else {
            read_int(row, 1, table.as_str(), column.as_str(), i64::MIN, i64::MAX)
        };
        proof {
            let rv = row_view(rows@[k]@);
            if rv.len() >= 2 {
                assert(rv[0] == CellValue::Integer(owner) <==> row_id(rv) == Some(owner));
            }
        }
        match read {
            Ok(id) => {
                out.push(id);
            },
            Err(e) => {
                proof {
                    lemma_collect_prefix_err(all, k + 1, f, e@);
                }
                return Err(e);
            },
        }
        i = i + 1;
    }
    proof {
        assert(all.subrange(0, rows@.len() as int) =~= all);
    }
    Ok(out)
}

/// The ids of the members of a relation, each of which must be stored
/// already; a member without an id is reported as a missing referenced id.
pub fn referenced_ids(ids: &Vec<Option<i64>>, rel: JunctionTable) -> (r: Result<Vec<i64>, DbError>)
    ensures
        r is Ok <==> forall|i: int| 0 <= i < ids@.len() ==> ids@[i] is Some,
        r matches Ok(v) ==> v@.len() == ids@.len() && forall|i: int| 0 <= i < ids@.len() ==> ids@[i] == Some(v@[i]),
        r matches Err(e) ==> e@ == (ErrorView::MissingColumn { table: rel.spec_name(), column: rel.spec_referenced_column() }),
{
    let mut out: Vec<i64> = Vec::new();
    let mut i: usize = 0;
    while i < ids.len()
        invariant
            i <= ids@.len(),
            out@.len() == i,
            forall|j: int| 0 <= j < i ==> ids@[j] == Some(out@[j]),
        decreases ids@.len() - i,
    {
        match ids[i] {
            Some(id) => out.push(id),
            None => {
                let (_, column) = rel.columns();
                return Err(DbError::MissingColumn { table: rel.name(), column });
            },
        }
        i = i + 1;
    }
    Ok(out)
}

/// The entity after the members that `steps` name were appended in order,
/// each read from its row, or the first error.
pub open spec fn add_steps<T: Model>(v: T::V, steps: Seq<(JunctionTable, Seq<CellValue>)>) -> Result<T::V, ErrorView>
    decreases steps.len(),
{
    if steps.len() == 0 {
        Ok(v)
    } else {
        match add_steps::<T>(v, steps.drop_last()) {
            Err(e) => Err(e),
            Ok(w) => T::spec_add_member(w, steps.last().0, steps.last().1),
        }
    }
}

/// The ids of the rows that `steps` read for the relation `rel`, in order.
pub open spec fn step_ids(steps: Seq<(JunctionTable, Seq<CellValue>)>, rel: JunctionTable) -> Seq<Option<i64>>
    decreases steps.len(),
{
    if steps.len() == 0 {
        Seq::empty()
    } else if steps.last().0 == rel {
        step_ids(steps.drop_last(), rel).push(row_id(steps.last().1))
    } else {
        step_ids(steps.drop_last(), rel)
    }
}

/// Whether `ids` are what some junction rows of `rel` for `owner` hold, in
/// order.
pub open spec fn ids_read_from_rows(rel: JunctionTable, owner: i64, ids: Seq<i64>) -> bool {
    exists|rows: Seq<Seq<CellValue>>| #[trigger] junction_keys(rows, rel, owner) == Ok::<Seq<i64>, ErrorView>(ids)
}

/// Whether the rows read for `rel` hold, in order, one id each of the ids
/// recorded for `owner` in the junction table of `rel`.
pub open spec fn recorded_for(rel: JunctionTable, owner: i64, read: Seq<Option<i64>>) -> bool {
    exists|ids: Seq<i64>| #[trigger] ids_read_from_rows(rel, owner, ids) && read == ids.map_values(|x: i64| Some(x))
}

/// Whether `v` is `base` with every relation filled for the entity `id`:
/// one member per id recorded for `id`, in order, each the entity read from
/// a row that holds that id.
pub open spec fn hydrated_from<T: Model>(base: T::V, v: T::V, id: i64) -> bool {
    exists|steps: Seq<(JunctionTable, Seq<CellValue>)>| {
        &&& #[trigger] add_steps::<T>(base, steps) == Ok::<T::V, ErrorView>(v)
        &&& forall|k: int| 0 <= k < T::spec_junctions().len() ==> recorded_for(T::spec_junctions()[k], id, #[trigger] step_ids(steps, T::spec_junctions()[k]))
    }
}

/// Whether `v` is the entity `id` as the store gives it: read from a row that
/// holds `id`, with its relations filled.
pub open spec fn loaded<T: Model>(id: i64, v: T::V) -> bool {
    exists|row: Seq<CellValue>| #[trigger] T::spec_build(row) matches Ok(base) && row_id(row) == Some(id) && hydrated_from::<T>(base, v, id)
}

/// Whether `v` is the entity that `row` stores, with its relations filled
/// when the row holds an id.
pub open spec fn entity_from_row<T: Model>(row: Seq<CellValue>, v: T::V) -> bool {
    T::spec_build(row) matches Ok(base) && match row_id(row) {
        Some(id) => hydrated_from::<T>(base, v, id),
        None => v == base,
    }
}

/// Whether `vs` are the entities that `rows` store, one per row, in order.
pub open spec fn read_entities<T: Model>(rows: Seq<Seq<CellValue>>, vs: Seq<T>) -> bool {
    &&& vs.len() == rows.len()
    &&& forall|i: int| 0 <= i < rows.len() ==> entity_from_row::<T>(rows[i], (#[trigger] vs[i])@)
}

/// Whether `vs` are the entities that the rows some query returned store,
/// one per row, in order.
pub open spec fn read_from_rows<T: Model>(vs: Seq<T>) -> bool {
    exists|rows: Seq<Seq<CellValue>>| #[trigger] read_entities::<T>(rows, vs)
}

} // verus!
