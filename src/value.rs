//! Values as they are stored in a column, rows of them, and the errors that
//! reading a row can raise.
use vstd::prelude::*;

verus! {

/// One stored column value.
#[derive(Clone, Debug)]
pub enum SqlValue {
    Null,
    Integer(i64),
    /// A floating-point value: no entity stores one, so its digits are not kept.
    Real,
    Text(String),
    Blob(Vec<u8>),
}

/// The mathematical form of a stored value.
pub enum CellValue {
    Null,
    Integer(i64),
    Real,
    Text(Seq<char>),
    Blob(Seq<u8>),
}

impl View for SqlValue {
    type V = CellValue;

    open spec fn view(&self) -> CellValue {
        match self {
            SqlValue::Null => CellValue::Null,
            SqlValue::Integer(n) => CellValue::Integer(*n),
            SqlValue::Real => CellValue::Real,
            SqlValue::Text(s) => CellValue::Text(s@),
            SqlValue::Blob(b) => CellValue::Blob(b@),
        }
    }
}

/// Whether a row can be handed to the store as statement parameters: it
/// holds no floating-point value.
pub open spec fn storable(row: Seq<CellValue>) -> bool {
    forall|i: int| 0 <= i < row.len() ==> !(#[trigger] row[i] is Real)
}

/// The mathematical form of a row.
pub open spec fn row_view(row: Seq<SqlValue>) -> Seq<CellValue> {
    row.map_values(|v: SqlValue| v@)
}

impl SqlValue {
    /// A copy of this value.
    pub fn duplicate(&self) -> (r: SqlValue)
        ensures
            r@ == self@,
    {
        match self {
            SqlValue::Null => SqlValue::Null,
            SqlValue::Integer(n) => SqlValue::Integer(*n),
            SqlValue::Real => SqlValue::Real,
            SqlValue::Text(s) => SqlValue::Text(s.clone()),
            SqlValue::Blob(b) => SqlValue::Blob(b.clone()),
        }
    }
}

/// What can go wrong between the store and an entity.
#[derive(Clone, Debug)]
pub enum DbError {
    /// No row of `table` has this id.
    NotFound { table: String, id: i64 },
    /// Stored text that names no variant of the column's enumeration.
    CorruptEnumeration { table: String, column: String, value: String },
    /// A NULL in a column whose field is not optional.
    MissingColumn { table: String, column: String },
    /// A stored value of the wrong kind, or an integer out of the field's range.
    InvalidColumnType { table: String, column: String },
    /// A row or parameter list whose length disagrees with the schema.
    SchemaMismatch { table: String, expected: usize, found: usize },
    /// The store could not be opened or a statement failed.
    StoreUnavailable { message: String },
}

/// The mathematical form of an error.
pub enum ErrorView {
    NotFound { table: Seq<char>, id: i64 },
    CorruptEnumeration { table: Seq<char>, column: Seq<char>, value: Seq<char> },
    MissingColumn { table: Seq<char>, column: Seq<char> },
    InvalidColumnType { table: Seq<char>, column: Seq<char> },
    SchemaMismatch { table: Seq<char>, expected: usize, found: usize },
    StoreUnavailable { message: Seq<char> },
}

impl View for DbError {
    type V = ErrorView;

    open spec fn view(&self) -> ErrorView {
        match self {
            DbError::NotFound { table, id } => ErrorView::NotFound { table: table@, id: *id },
            DbError::CorruptEnumeration { table, column, value } => ErrorView::CorruptEnumeration {
                table: table@,
                column: column@,
                value: value@,
            },
            DbError::MissingColumn { table, column } => ErrorView::MissingColumn {
                table: table@,
                column: column@,
            },
            DbError::InvalidColumnType { table, column } => ErrorView::InvalidColumnType {
                table: table@,
                column: column@,
            },
            DbError::SchemaMismatch { table, expected, found } => ErrorView::SchemaMismatch {
                table: table@,
                expected: *expected,
                found: *found,
            },
            DbError::StoreUnavailable { message } => ErrorView::StoreUnavailable {
                message: message@,
            },
        }
    }
}

/// The view of a result whose success value has a view of its own.
pub open spec fn result_view<T: View>(r: Result<T, DbError>) -> Result<T::V, ErrorView> {
    match r {
        Ok(v) => Ok(v@),
        Err(e) => Err(e@),
    }
}

} // verus!
