//! Statement text, assembled from table and column names.
use vstd::prelude::*;

verus! {

/// The storage type of a column.
#[derive(Clone, Copy, Debug, PartialEq, Eq, Structural)]
pub enum SqlType {
    Integer,
    Text,
}

/// One column definition of a table.
#[derive(Clone, Debug)]
pub struct Column {
    pub name: String,
    pub sql_type: SqlType,
    pub primary_key: bool,
    pub unique: bool,
    pub not_null: bool,
}

/// The mathematical form of a column definition.
pub struct ColumnView {
    pub name: Seq<char>,
    pub sql_type: SqlType,
    pub primary_key: bool,
    pub unique: bool,
    pub not_null: bool,
}

impl View for Column {
    type V = ColumnView;

    open spec fn view(&self) -> ColumnView {
        ColumnView {
            name: self.name@,
            sql_type: self.sql_type,
            primary_key: self.primary_key,
            unique: self.unique,
            not_null: self.not_null,
        }
    }
}

/// The views of a list of column definitions.
pub open spec fn columns_view(cols: Seq<Column>) -> Seq<ColumnView> {
    cols.map_values(|c: Column| c@)
}

impl Column {
    /// A column definition.
    pub fn new(name: &str, sql_type: SqlType, primary_key: bool, unique: bool, not_null: bool) -> (r: Column)
        ensures
            r@ == (ColumnView { name: name@, sql_type, primary_key, unique, not_null }),
    {
        Column { name: String::from_str(name), sql_type, primary_key, unique, not_null }
    }
}

/// `parts` with `sep` between each two.
pub open spec fn join(parts: Seq<Seq<char>>, sep: Seq<char>) -> Seq<char>
    decreases parts.len(),
{
    if parts.len() == 0 {
        Seq::empty()
    } else if parts.len() == 1 {
        parts[0]
    } else {
        join(parts.drop_last(), sep) + sep + parts.last()
    }
}

/// The decimal digits of `n`.
pub open spec fn decimal(n: nat) -> Seq<char>
    decreases n,
{
    if n < 10 {
        seq![digit_char(n)]
    } else {
        decimal(n / 10).push(digit_char(n % 10))
    }
}

/// The character of a digit.
pub open spec fn digit_char(d: nat) -> char {
    if d == 0 { '0' } else if d == 1 { '1' } else if d == 2 { '2' } else if d == 3 { '3' }
    else if d == 4 { '4' } else if d == 5 { '5' } else if d == 6 { '6' } else if d == 7 { '7' }
    else if d == 8 { '8' } else { '9' }
}

/// The text of a column's storage type.
pub open spec fn type_text(t: SqlType) -> Seq<char> {
    match t {
        SqlType::Integer => "INTEGER"@,
        SqlType::Text => "TEXT"@,
    }
}

/// The definition of a column as it stands in a CREATE TABLE statement.
pub open spec fn column_ddl(c: ColumnView) -> Seq<char> {
    c.name + " "@ + type_text(c.sql_type)
        + (if c.primary_key { " PRIMARY KEY"@ } else { Seq::empty() })
        + (if c.unique { " UNIQUE"@ } else { Seq::empty() })
        + (if c.not_null { " NOT NULL"@ } else { Seq::empty() })
}

/// The positional markers `?1`, ..., `?n`.
pub open spec fn markers(n: nat) -> Seq<Seq<char>> {
    Seq::new(n, |i: int| "?"@ + decimal((i + 1) as nat))
}

/// The names of a list of columns.
pub open spec fn column_names(cols: Seq<ColumnView>) -> Seq<Seq<char>> {
    cols.map_values(|c: ColumnView| c.name)
}

/// Statement that creates a table with these columns if it is absent.
pub open spec fn spec_create_table(table: Seq<char>, cols: Seq<ColumnView>) -> Seq<char> {
    "CREATE TABLE IF NOT EXISTS "@ + table + " ("@ + join(cols.map_values(|c: ColumnView| column_ddl(c)), ", "@) + ")"@
}

/// Statement that selects these columns of every row of a table.
pub open spec fn spec_select_all(table: Seq<char>, cols: Seq<ColumnView>) -> Seq<char> {
    "SELECT "@ + join(column_names(cols), ", "@) + " FROM "@ + table
}

/// Statement that selects these columns of the row whose id is `?1`.
pub open spec fn spec_select_by_id(table: Seq<char>, cols: Seq<ColumnView>) -> Seq<char> {
    spec_select_all(table, cols) + " WHERE id=?1"@
}

/// Statement that inserts a row, or replaces the row with the same id.
pub open spec fn spec_replace(table: Seq<char>, cols: Seq<ColumnView>) -> Seq<char> {
    "REPLACE INTO "@ + table + " ("@ + join(column_names(cols), ", "@) + ") VALUES ("@
        + join(markers(cols.len()), ", "@) + ")"@
}

/// Statement that deletes the row whose id is `?1`.
pub open spec fn spec_delete_by_id(table: Seq<char>) -> Seq<char> {
    "DELETE FROM "@ + table + " WHERE id=?1"@
}

/// The text of one digit.
fn digit_text(d: usize) -> (r: &'static str)
    requires
        d < 10,
    ensures
        r@ == seq![digit_char(d as nat)],
{
    proof {
        reveal_strlit("0");
        reveal_strlit("1");
        reveal_strlit("2");
        reveal_strlit("3");
        reveal_strlit("4");
        reveal_strlit("5");
        reveal_strlit("6");
        reveal_strlit("7");
        reveal_strlit("8");
        reveal_strlit("9");
    }
    let r = if d == 0 { "0" } else if d == 1 { "1" } else if d == 2 { "2" } else if d == 3 { "3" }
    else if d == 4 { "4" } else if d == 5 { "5" } else if d == 6 { "6" } else if d == 7 { "7" }
    else if d == 8 { "8" } else { "9" };
    assert(r@ =~= seq![digit_char(d as nat)]);
    r
}

/// The decimal text of `n`.
pub fn decimal_text(n: usize) -> (r: String)
    ensures
        r@ == decimal(n as nat),
    decreases n,
{
    if n < 10 {
        String::from_str(digit_text(n))
    } else {
        let mut s = decimal_text(n / 10);
        s.append(digit_text(n % 10));
        assert(s@ =~= decimal(n as nat));
        s
    }
}

/// `parts` with `sep` between each two.
pub fn join_text(parts: &Vec<String>, sep: &str) -> (r: String)
    ensures
        r@ == join(parts@.map_values(|p: String| p@), sep@),
{
    let ghost views = parts@.map_values(|p: String| p@);
    let mut r = String::new();
    let mut i: usize = 0;
    while i < parts.len()
        invariant
            i <= parts@.len(),
            views == parts@.map_values(|p: String| p@),
            r@ == join(views.subrange(0, i as int), sep@),
        decreases parts@.len() - i,
    {
        proof {
            assert(views.subrange(0, i as int + 1).drop_last() =~= views.subrange(0, i as int));
        }
        if i > 0 {
            r.append(sep);
        }
        r.append(parts[i].as_str());
        i = i + 1;
    }
    assert(views.subrange(0, parts@.len() as int) =~= views);
    r
}

/// The positional markers `?1`, ..., `?n`, separated by commas.
pub fn markers_text(n: usize) -> (r: String)
    ensures
        r@ == join(markers(n as nat), ", "@),
{
    let mut parts: Vec<String> = Vec::new();
    let mut i: usize = 0;
    while i < n
        invariant
            i <= n,
            parts@.len() == i,
            forall|j: int| 0 <= j < i ==> #[trigger] parts@[j]@ == markers(n as nat)[j],
        decreases n - i,
    {
        let mut m = String::from_str("?");
        let d = decimal_text(i + 1);
        m.append(d.as_str());
        parts.push(m);
        i = i + 1;
    }
    let r = join_text(&parts, ", ");
    assert(parts@.map_values(|p: String| p@) =~= markers(n as nat));
    r
}

/// The names of a list of columns, separated by commas.
pub fn names_text(cols: &Vec<Column>) -> (r: String)
    ensures
        r@ == join(column_names(columns_view(cols@)), ", "@),
{
    let mut parts: Vec<String> = Vec::new();
    let mut i: usize = 0;
    while i < cols.len()
        invariant
            i <= cols@.len(),
            parts@.len() == i,
            forall|j: int| 0 <= j < i ==> #[trigger] parts@[j]@ == cols@[j].name@,
        decreases cols@.len() - i,
    {
        parts.push(cols[i].name.clone());
        i = i + 1;
    }
    let r = join_text(&parts, ", ");
    assert(parts@.map_values(|p: String| p@) =~= column_names(columns_view(cols@)));
    r
}

/// The definition of a column as it stands in a CREATE TABLE statement.
pub fn column_ddl_text(c: &Column) -> (r: String)
    ensures
        r@ == column_ddl(c@),
{
    let mut r = c.name.clone();
    r.append(" ");
    match c.sql_type {
        SqlType::Integer => r.append("INTEGER"),
        SqlType::Text => r.append("TEXT"),
    }
    if c.primary_key {
        r.append(" PRIMARY KEY");
    } else {
        assert(r@ =~= r@ + Seq::<char>::empty());
    }
    let ghost a = r@;
    if c.unique {
        r.append(" UNIQUE");
    } else {
        assert(r@ =~= a + Seq::<char>::empty());
    }
    let ghost b = r@;
    if c.not_null {
        r.append(" NOT NULL");
    } else {
        assert(r@ =~= b + Seq::<char>::empty());
    }
    r
}

/// The definitions of a list of columns, separated by commas.
pub fn column_defs_text(cols: &Vec<Column>) -> (r: String)
    ensures
        r@ == join(columns_view(cols@).map_values(|c: ColumnView| column_ddl(c)), ", "@),
{
    let mut parts: Vec<String> = Vec::new();
    let mut i: usize = 0;
    while i < cols.len()
        invariant
            i <= cols@.len(),
            parts@.len() == i,
            forall|j: int| 0 <= j < i ==> #[trigger] parts@[j]@ == column_ddl(cols@[j]@),
        decreases cols@.len() - i,
    {
        parts.push(column_ddl_text(&cols[i]));
        i = i + 1;
    }
    let r = join_text(&parts, ", ");
    assert(parts@.map_values(|p: String| p@) =~= columns_view(cols@).map_values(|c: ColumnView| column_ddl(c)));
    r
}

/// Statement that creates a table with these columns if it is absent.
pub fn create_table_sql(table: &str, cols: &Vec<Column>) -> (r: String)
    ensures
        r@ == spec_create_table(table@, columns_view(cols@)),
{
    let body = column_defs_text(cols);
    let mut r = String::from_str("CREATE TABLE IF NOT EXISTS ");
    r.append(table);
    r.append(" (");
    r.append(body.as_str());
    r.append(")");
    r
}

/// Statement that selects these columns of every row of a table.
pub fn select_all_sql(table: &str, cols: &Vec<Column>) -> (r: String)
    ensures
        r@ == spec_select_all(table@, columns_view(cols@)),
{
    let names = names_text(cols);
    let mut r = String::from_str("SELECT ");
    r.append(names.as_str());
    r.append(" FROM ");
    r.append(table);
    r
}

/// Statement that selects these columns of the row whose id is `?1`.
pub fn select_by_id_sql(table: &str, cols: &Vec<Column>) -> (r: String)
    ensures
        r@ == spec_select_by_id(table@, columns_view(cols@)),
{
    let mut r = select_all_sql(table, cols);
    r.append(" WHERE id=?1");
    r
}

/// Statement that inserts a row, or replaces the row with the same id.
pub fn replace_sql(table: &str, cols: &Vec<Column>) -> (r: String)
    ensures
        r@ == spec_replace(table@, columns_view(cols@)),
{
    let names = names_text(cols);
    let marks = markers_text(cols.len());
    let mut r = String::from_str("REPLACE INTO ");
    r.append(table);
    r.append(" (");
    r.append(names.as_str());
    r.append(") VALUES (");
    r.append(marks.as_str());
    r.append(")");
    r
}

/// Statement that deletes the row whose id is `?1`.
pub fn delete_by_id_sql(table: &str) -> (r: String)
    ensures
        r@ == spec_delete_by_id(table@),
{
    let mut r = String::from_str("DELETE FROM ");
    r.append(table);
    r.append(" WHERE id=?1");
    r
}

} // verus!
