//! Reading typed fields out of a stored row. NULL is accepted only where the
//! field is optional; a value of the wrong kind is an error, as is stored text
//! outside an enumeration.
use vstd::prelude::*;
use crate::codec::Codec;
use crate::sql::{Column, ColumnView, columns_view};
use crate::value::{DbError, ErrorView, SqlValue, CellValue, row_view};

verus! {

/// The id held in column `i`: NULL for an entity not yet stored.
pub open spec fn spec_read_id(row: Seq<CellValue>, i: int, table: Seq<char>, column: Seq<char>) -> Result<Option<i64>, ErrorView> {
    match row[i] {
        CellValue::Null => Ok(None),
        CellValue::Integer(n) => Ok(Some(n)),
        _ => Err(ErrorView::InvalidColumnType { table, column }),
    }
}

/// The integer held in column `i`, which must lie in `lo..=hi`.
pub open spec fn spec_read_int(row: Seq<CellValue>, i: int, table: Seq<char>, column: Seq<char>, lo: i64, hi: i64) -> Result<i64, ErrorView> {
    match row[i] {
        CellValue::Null => Err(ErrorView::MissingColumn { table, column }),
        CellValue::Integer(n) => if lo <= n <= hi {
            Ok(n)
        } else {
            Err(ErrorView::InvalidColumnType { table, column })
        },
        _ => Err(ErrorView::InvalidColumnType { table, column }),
    }
}

/// The text held in column `i`, which must not be NULL.
pub open spec fn spec_read_text(row: Seq<CellValue>, i: int, table: Seq<char>, column: Seq<char>) -> Result<Seq<char>, ErrorView> {
    match row[i] {
        CellValue::Null => Err(ErrorView::MissingColumn { table, column }),
        CellValue::Text(s) => Ok(s),
        _ => Err(ErrorView::InvalidColumnType { table, column }),
    }
}

/// The text held in column `i`, if it is not NULL.
pub open spec fn spec_read_opt_text(row: Seq<CellValue>, i: int, table: Seq<char>, column: Seq<char>) -> Result<Option<Seq<char>>, ErrorView> {
    match row[i] {
        CellValue::Null => Ok(None),
        CellValue::Text(s) => Ok(Some(s)),
        _ => Err(ErrorView::InvalidColumnType { table, column }),
    }
}

/// The enumeration variant stored in column `i`, if it is not NULL.
pub open spec fn spec_read_enum<E: Codec>(row: Seq<CellValue>, i: int, table: Seq<char>, column: Seq<char>) -> Result<Option<E>, ErrorView> {
    match row[i] {
        CellValue::Null => Ok(None),
        CellValue::Text(s) => match E::parse(s) {
            Some(v) => Ok(Some(v)),
            None => Err(ErrorView::CorruptEnumeration { table, column, value: s }),
        },
        _ => Err(ErrorView::InvalidColumnType { table, column }),
    }
}

/// The view of an optional text.
pub open spec fn opt_text_view(o: Option<String>) -> Option<Seq<char>> {
    match o {
        Some(s) => Some(s@),
        None => None,
    }
}

/// The stored form of an optional text.
pub open spec fn opt_text_value(o: Option<Seq<char>>) -> CellValue {
    match o {
        Some(s) => CellValue::Text(s),
        None => CellValue::Null,
    }
}

/// The stored form of an optional id.
pub open spec fn id_value(o: Option<i64>) -> CellValue {
    match o {
        Some(n) => CellValue::Integer(n),
        None => CellValue::Null,
    }
}

/// The stored form of an optional enumeration variant.
pub open spec fn enum_value<E: Codec>(o: Option<E>) -> CellValue {
    match o {
        Some(v) => CellValue::Text(v.text_of()),
        None => CellValue::Null,
    }
}

/// An error that names a column of a table.
fn column_error(missing: bool, table: &str, column: &str) -> (r: DbError)
    ensures
        missing ==> r@ == (ErrorView::MissingColumn { table: table@, column: column@ }),
        !missing ==> r@ == (ErrorView::InvalidColumnType { table: table@, column: column@ }),
{
    if missing {
        DbError::MissingColumn { table: String::from_str(table), column: String::from_str(column) }
    } else {
        DbError::InvalidColumnType { table: String::from_str(table), column: String::from_str(column) }
    }
}

/// Reads an id column.
pub fn read_id(row: &Vec<SqlValue>, i: usize, table: &str, column: &str) -> (r: Result<Option<i64>, DbError>)
    requires
        i < row@.len(),
    ensures
        spec_read_id(row_view(row@), i as int, table@, column@) == match r {
            Ok(v) => Ok(v),
            Err(e) => Err(e@),
        },
{
    match &row[i] {
        SqlValue::Null => Ok(None),
        SqlValue::Integer(n) => Ok(Some(*n)),
        _ => Err(column_error(false, table, column)),
    }
}

/// Reads a non-NULL integer column whose value must lie in `lo..=hi`.
pub fn read_int(row: &Vec<SqlValue>, i: usize, table: &str, column: &str, lo: i64, hi: i64) -> (r: Result<i64, DbError>)
    requires
        i < row@.len(),
    ensures
        spec_read_int(row_view(row@), i as int, table@, column@, lo, hi) == match r {
            Ok(v) => Ok(v),
            Err(e) => Err(e@),
        },
{
    match &row[i] {
        SqlValue::Null => Err(column_error(true, table, column)),
        SqlValue::Integer(n) => if lo <= *n && *n <= hi {
            Ok(*n)
        } else {
            Err(column_error(false, table, column))
        },
        _ => Err(column_error(false, table, column)),
    }
}

/// Reads a non-NULL text column.
pub fn read_text(row: &Vec<SqlValue>, i: usize, table: &str, column: &str) -> (r: Result<String, DbError>)
    requires
        i < row@.len(),
    ensures
        spec_read_text(row_view(row@), i as int, table@, column@) == match r {
            Ok(v) => Ok(v@),
            Err(e) => Err(e@),
        },
{
    match &row[i] {
        SqlValue::Null => Err(column_error(true, table, column)),
        SqlValue::Text(s) => Ok(s.clone()),
        _ => Err(column_error(false, table, column)),
    }
}

/// Reads a text column that may be NULL.
pub fn read_opt_text(row: &Vec<SqlValue>, i: usize, table: &str, column: &str) -> (r: Result<Option<String>, DbError>)
    requires
        i < row@.len(),
    ensures
        spec_read_opt_text(row_view(row@), i as int, table@, column@) == match r {
            Ok(v) => Ok(opt_text_view(v)),
            Err(e) => Err(e@),
        },
{
    match &row[i] {
        SqlValue::Null => Ok(None),
        SqlValue::Text(s) => Ok(Some(s.clone())),
        _ => Err(column_error(false, table, column)),
    }
}

/// Reads an enumeration column that may be NULL. Text that names no variant
/// is reported as a corrupt enumeration, never replaced by a default.
pub fn read_enum<E: Codec>(row: &Vec<SqlValue>, i: usize, table: &str, column: &str) -> (r: Result<Option<E>, DbError>)
    requires
        i < row@.len(),
    ensures
        spec_read_enum::<E>(row_view(row@), i as int, table@, column@) == match r {
            Ok(v) => Ok(v),
            Err(e) => Err(e@),
        },
{
    match &row[i] {
        SqlValue::Null => Ok(None),
        SqlValue::Text(s) => match E::from_storable(s.as_str()) {
            Some(v) => Ok(Some(v)),
            None => Err(DbError::CorruptEnumeration {
                table: String::from_str(table),
                column: String::from_str(column),
                value: s.clone(),
            }),
        },
        _ => Err(column_error(false, table, column)),
    }
}

/// The stored form of an optional text.
pub fn opt_text_param(o: &Option<String>) -> (r: SqlValue)
    ensures
        r@ == opt_text_value(opt_text_view(*o)),
{
    match o {
        Some(s) => SqlValue::Text(s.clone()),
        None => SqlValue::Null,
    }
}

/// The stored form of an optional enumeration variant.
pub fn enum_param<E: Codec>(o: &Option<E>) -> (r: SqlValue)
    ensures
        r@ == enum_value(*o),
{
    match o {
        Some(v) => SqlValue::Text(v.to_storable()),
        None => SqlValue::Null,
    }
}

/// The stored form of an optional id.
pub fn id_param(o: Option<i64>) -> (r: SqlValue)
    ensures
        r@ == id_value(o),
{
    match o {
        Some(n) => SqlValue::Integer(n),
        None => SqlValue::Null,
    }
}

/// Text stored outside an enumeration is fatal to reading the column: it is
/// reported as a corrupt enumeration that carries the text, never read as a
/// variant.
pub proof fn lemma_unknown_enum_text_is_fatal<E: Codec>(row: Seq<CellValue>, i: int, table: Seq<char>, column: Seq<char>, s: Seq<char>)
    requires
        0 <= i < row.len(),
        row[i] == CellValue::Text(s),
        forall|v: E| v.text_of() != s,
    ensures
        spec_read_enum::<E>(row, i, table, column) == Err::<Option<E>, ErrorView>(ErrorView::CorruptEnumeration { table, column, value: s }),
{
    E::lemma_parse_sound(s);
}

/// The texts held in columns `lo..hi`, none of which may be NULL, or the
/// error of the first that cannot be read.
pub open spec fn spec_read_texts(row: Seq<CellValue>, lo: int, hi: int, table: Seq<char>, cols: Seq<ColumnView>) -> Result<Seq<Seq<char>>, ErrorView>
    decreases hi - lo,
{
    if lo >= hi {
        Ok(Seq::empty())
    } else {
        match spec_read_text(row, lo, table, cols[lo].name) {
            Err(e) => Err(e),
            Ok(s) => match spec_read_texts(row, lo + 1, hi, table, cols) {
                Err(e) => Err(e),
                Ok(rest) => Ok(seq![s] + rest),
            },
        }
    }
}

/// The stored form of a list of texts.
pub open spec fn text_values(s: Seq<Seq<char>>) -> Seq<CellValue> {
    s.map_values(|x: Seq<char>| CellValue::Text(x))
}

/// The views of a list of strings.
pub open spec fn texts_view(s: Seq<String>) -> Seq<Seq<char>> {
    s.map_values(|x: String| x@)
}

/// Reads the non-NULL text columns `lo..hi`, named by `cols`.
pub fn read_texts(row: &Vec<SqlValue>, lo: usize, hi: usize, table: &str, cols: &Vec<Column>) -> (r: Result<Vec<String>, DbError>)
    requires
        lo <= hi <= row@.len(),
        hi <= cols@.len(),
    ensures
        spec_read_texts(row_view(row@), lo as int, hi as int, table@, columns_view(cols@)) == match r {
            Ok(v) => Ok(texts_view(v@)),
            Err(e) => Err(e@),
        },
    decreases hi - lo,
{
    if lo >= hi {
        let r: Vec<String> = Vec::new();
        assert(texts_view(r@) =~= Seq::<Seq<char>>::empty());
        return Ok(r);
    }
    let s = match read_text(row, lo, table, cols[lo].name.as_str()) {
        Ok(s) => s,
        Err(e) => return Err(e),
    };
    let mut rest = match read_texts(row, lo + 1, hi, table, cols) {
        Ok(v) => v,
        Err(e) => return Err(e),
    };
    let ghost old_rest = rest@;
    rest.insert(0, s);
    assert(texts_view(rest@) =~= seq![s@] + texts_view(old_rest));
    Ok(rest)
}

/// Appends the stored form of each text to a row.
pub fn push_texts(out: &mut Vec<SqlValue>, xs: &Vec<String>)
    ensures
        row_view(final(out)@) == row_view(old(out)@) + text_values(texts_view(xs@)),
{
    let mut i: usize = 0;
    while i < xs.len()
        invariant
            i <= xs@.len(),
            row_view(out@) == row_view(old(out)@) + text_values(texts_view(xs@.subrange(0, i as int))),
        decreases xs@.len() - i,
    {
        let ghost before = out@;
        let ghost k = i as int;
        out.push(SqlValue::Text(xs[i].clone()));
        proof {
            assert(row_view(out@) =~= row_view(before).push(CellValue::Text(xs@[k]@)));
            assert(xs@.subrange(0, k + 1) =~= xs@.subrange(0, k).push(xs@[k]));
            assert(texts_view(xs@.subrange(0, k + 1)) =~= texts_view(xs@.subrange(0, k)).push(xs@[k]@));
            assert(text_values(texts_view(xs@.subrange(0, k + 1))) =~= text_values(texts_view(xs@.subrange(0, k))).push(CellValue::Text(xs@[k]@)));
            assert(row_view(out@) =~= row_view(old(out)@) + text_values(texts_view(xs@.subrange(0, k + 1))));
        }
        i = i + 1;
    }
    assert(xs@.subrange(0, xs@.len() as int) =~= xs@);
}

/// A successful read of columns `lo..hi` gives one text per column.
pub proof fn lemma_read_texts_len(row: Seq<CellValue>, lo: int, hi: int, table: Seq<char>, cols: Seq<ColumnView>)
    requires
        lo <= hi,
    ensures
        spec_read_texts(row, lo, hi, table, cols) matches Ok(s) ==> s.len() == hi - lo,
    decreases hi - lo,
{
    if lo < hi {
        lemma_read_texts_len(row, lo + 1, hi, table, cols);
    }
}

/// Reading columns that hold the texts `s` gives `s`.
pub proof fn lemma_read_texts_of(row: Seq<CellValue>, lo: int, hi: int, table: Seq<char>, cols: Seq<ColumnView>, s: Seq<Seq<char>>)
    requires
        0 <= lo <= hi <= row.len(),
        s.len() == hi - lo,
        forall|i: int| lo <= i < hi ==> row[i] == CellValue::Text(s[i - lo]),
    ensures
        spec_read_texts(row, lo, hi, table, cols) == Ok::<Seq<Seq<char>>, ErrorView>(s),
    decreases hi - lo,
{
    if lo < hi {
        lemma_read_texts_of(row, lo + 1, hi, table, cols, s.drop_first());
        assert(seq![s[0]] + s.drop_first() =~= s);
    } else {
        assert(s =~= Seq::<Seq<char>>::empty());
    }
}

/// An unsigned id held in column `i`: NULL for an entity not yet stored; a
/// negative integer is of the wrong kind.
pub open spec fn spec_read_uid(row: Seq<CellValue>, i: int, table: Seq<char>, column: Seq<char>) -> Result<Option<u64>, ErrorView> {
    match row[i] {
        CellValue::Null => Ok(None),
        CellValue::Integer(n) => if n >= 0 {
            Ok(Some(n as u64))
        } else {
            Err(ErrorView::InvalidColumnType { table, column })
        },
        _ => Err(ErrorView::InvalidColumnType { table, column }),
    }
}

/// The stored form of an optional unsigned id.
pub open spec fn uid_value(o: Option<u64>) -> CellValue {
    match o {
        Some(n) => CellValue::Integer(n as i64),
        None => CellValue::Null,
    }
}

/// Reads an unsigned id column.
pub fn read_uid(row: &Vec<SqlValue>, i: usize, table: &str, column: &str) -> (r: Result<Option<u64>, DbError>)
    requires
        i < row@.len(),
    ensures
        spec_read_uid(row_view(row@), i as int, table@, column@) == match r {
            Ok(v) => Ok(v),
            Err(e) => Err(e@),
        },
{
    match &row[i] {
        SqlValue::Null => Ok(None),
        SqlValue::Integer(n) => if *n >= 0 {
            Ok(Some(*n as u64))
        } else {
            Err(column_error(false, table, column))
        },
        _ => Err(column_error(false, table, column)),
    }
}

/// The stored form of an optional unsigned id that fits a stored integer.
pub fn uid_param(o: Option<u64>) -> (r: SqlValue)
    requires
        o matches Some(n) ==> n <= i64::MAX as u64,
    ensures
        r@ == uid_value(o),
{
    match o {
        Some(n) => SqlValue::Integer(n as i64),
        None => SqlValue::Null,
    }
}

} // verus!
