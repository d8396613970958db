//! The schema description that every stored entity gives: its table, its
//! columns, how it becomes a row and how a row becomes it, and the junction
//! relations it owns.
use vstd::prelude::*;
use crate::junction::JunctionTable;
use crate::sql::{Column, ColumnView, columns_view};
use crate::value::{DbError, ErrorView, SqlValue, CellValue, row_view, storable};

verus! {

/// The id that a stored row holds in its first column, if any.
pub open spec fn row_id(row: Seq<CellValue>) -> Option<i64> {
    if row.len() > 0 {
        match row[0] {
            CellValue::Integer(n) => Some(n),
            _ => None,
        }
    } else {
        None
    }
}

/// A persisted entity type and its mapping to one table.
pub trait Model: Sized + View {
    /// The table the entity is stored in.
    spec fn spec_table() -> Seq<char>;

    /// The table's columns, in the order of the entity's row.
    spec fn spec_columns() -> Seq<ColumnView>;

    /// What the machine forces on an entity for its row to be built: each
    /// integer fits a stored integer.
    spec fn within_limits(v: Self::V) -> bool;

    /// What an entity must satisfy for its row to read back as itself: it is
    /// within the limits and its row has one value per column.
    spec fn well_formed(v: Self::V) -> bool;

    /// The row that stores an entity.
    spec fn spec_params(v: Self::V) -> Seq<CellValue>;

    /// The entity that a row stores, with empty relations, or the first
    /// error met in reading it.
    spec fn spec_build(row: Seq<CellValue>) -> Result<Self::V, ErrorView>;

    /// The entity's id; `None` before it is first stored.
    spec fn spec_id(v: Self::V) -> Option<i64>;

    /// The entity with each relation emptied: what its own row holds.
    spec fn spec_scalar(v: Self::V) -> Self::V;

    /// The entity under the id `id`, as when the store assigns it one.
    spec fn spec_with_id(v: Self::V, id: i64) -> Self::V;

    /// The junction relations the entity owns.
    spec fn spec_junctions() -> Seq<JunctionTable>;

    /// The ids of the members of one relation, in order.
    spec fn spec_related(v: Self::V, rel: JunctionTable) -> Seq<Option<i64>>;

    /// The entity with the member that `row` stores appended to the relation
    /// `rel`, or the error of reading that member.
    spec fn spec_add_member(v: Self::V, rel: JunctionTable, row: Seq<CellValue>) -> Result<Self::V, ErrorView>;

    /// The table the entity is stored in.
    fn table() -> (r: String)
        ensures
            r@ == Self::spec_table(),
    ;

    /// The table's columns, in the order of the entity's row.
    fn columns() -> (r: Vec<Column>)
        ensures
            columns_view(r@) == Self::spec_columns(),
    ;

    /// The row that stores this entity.
    fn parameters(&self) -> (r: Vec<SqlValue>)
        requires
            Self::within_limits(self@),
        ensures
            row_view(r@) == Self::spec_params(self@),
            r@.len() == Self::spec_columns().len(),
            storable(row_view(r@)),
    ;

    /// The entity a row stores, with empty relations.
    fn build(row: &Vec<SqlValue>) -> (r: Result<Self, DbError>)
        ensures
            Self::spec_build(row_view(row@)) == match r {
                Ok(e) => Ok(e@),
                Err(e) => Err(e@),
            },
    ;

    /// The entity's id.
    fn id(&self) -> (r: Option<i64>)
        ensures
            r == Self::spec_id(self@),
    ;

    /// The junction relations the entity owns.
    fn junctions() -> (r: Vec<JunctionTable>)
        ensures
            r@ == Self::spec_junctions(),
    ;

    /// The ids of the members of one relation, in order.
    fn related_ids(&self, rel: JunctionTable) -> (r: Vec<Option<i64>>)
        ensures
            r@ == Self::spec_related(self@, rel),
    ;

    /// Reads the referenced entity that `row` stores and appends it to the
    /// relation `rel`; on an error nothing changes.
    fn build_junction(&mut self, rel: JunctionTable, row: &Vec<SqlValue>) -> (r: Result<(), DbError>)
        requires
            Self::spec_junctions().contains(rel),
        ensures
            Self::spec_add_member(old(self)@, rel, row_view(row@)) == match r {
                Ok(()) => Ok(final(self)@),
                Err(e) => Err(e@),
            },
            r is Err ==> final(self)@ == old(self)@,
    ;

    /// Storing an entity and reading its row back gives the entity with its
    /// relations emptied; the row has one value per column.
    proof fn lemma_round_trip(v: Self::V)
        requires
            Self::well_formed(v),
        ensures
            Self::spec_params(v).len() == Self::spec_columns().len(),
            Self::spec_build(Self::spec_params(v)) == Ok::<Self::V, ErrorView>(Self::spec_scalar(v)),
    ;

    /// Giving an entity a positive id puts that id in the first value of its
    /// row and changes nothing else of the row.
    proof fn lemma_with_id(v: Self::V, id: i64)
        requires
            Self::well_formed(v),
            id > 0,
        ensures
            Self::well_formed(Self::spec_with_id(v, id)),
            Self::spec_params(Self::spec_with_id(v, id)) == Self::spec_params(v).update(0, CellValue::Integer(id)),
            Self::spec_id(Self::spec_scalar(Self::spec_with_id(v, id))) == Some(id),
    ;

    /// No relation is listed twice.
    proof fn lemma_junctions_distinct()
        ensures
            Self::spec_junctions().no_duplicates(),
    ;

    /// An entity without junction relations is all scalar.
    proof fn lemma_leaf_is_scalar(v: Self::V)
        requires
            Self::spec_junctions().len() == 0,
        ensures
            Self::spec_scalar(v) == v,
    ;

    /// The entity's limits are part of its well-formedness.
    proof fn lemma_well_formed_within_limits(v: Self::V)
        requires
            Self::well_formed(v),
        ensures
            Self::within_limits(v),
            Self::spec_params(v).len() == Self::spec_columns().len(),
    ;

    /// Appending a member keeps the entity's id.
    proof fn lemma_add_member_keeps_id(v: Self::V, rel: JunctionTable, row: Seq<CellValue>)
        ensures
            Self::spec_add_member(v, rel, row) matches Ok(w) ==> Self::spec_id(w) == Self::spec_id(v),
    ;

    /// A freshly read entity has empty relations and the row's id.
    proof fn lemma_build_fresh(row: Seq<CellValue>)
        ensures
            Self::spec_build(row) matches Ok(v) ==> {
                &&& Self::spec_id(v) == row_id(row)
                &&& Self::spec_scalar(v) == v
                &&& forall|rel: JunctionTable| #[trigger] Self::spec_related(v, rel).len() == 0
            },
    ;
}

/// An entity without junction relations is read back from its row exactly
/// as it was stored.
pub proof fn lemma_leaf_round_trip<T: Model>(v: T::V)
    requires
        T::well_formed(v),
        T::spec_junctions().len() == 0,
    ensures
        T::spec_build(T::spec_params(v)) == Ok::<T::V, ErrorView>(v),
{
    T::lemma_round_trip(v);
    T::lemma_leaf_is_scalar(v);
}

/// An entity stored without an id, in a row whose id the store then sets to
/// the positive id it assigns, reads back as that entity under that id, with
/// its relations emptied.
pub proof fn lemma_round_trip_assigned<T: Model>(v: T::V, id: i64)
    requires
        T::well_formed(v),
        id > 0,
    ensures
        T::spec_build(T::spec_params(v).update(0, CellValue::Integer(id)))
            == Ok::<T::V, ErrorView>(T::spec_scalar(T::spec_with_id(v, id))),
        T::spec_id(T::spec_scalar(T::spec_with_id(v, id))) == Some(id),
{
    T::lemma_with_id(v, id);
    T::lemma_round_trip(T::spec_with_id(v, id));
}

} // verus!
