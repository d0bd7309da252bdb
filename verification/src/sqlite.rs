//! The storage engine, as far as the library calls it.
//!
//! Connections, statements, rows and stored values are values of the crate
//! rusqlite that Verus does not look into. What a statement or a query comes
//! to depends on the database behind the connection, so nothing is claimed
//! of it. What a row holds goes by a name, and each reading of a column says
//! what it gives for what the column holds. Each function hands a failure
//! of the engine back in plain values: the extended result code it carries,
//! if any, and the text it is shown as. The library's own
//! decisions are made on plain values, in the functions that call these.

use vstd::prelude::*;
use vstd::utf8::{decode_utf8, encode_utf8, valid_utf8};
use crate::timestamp::Number;

verus! {

#[verifier::external_type_specification]
#[verifier::external_body]
pub struct ExConnection(rusqlite::Connection);

#[verifier::external_type_specification]
#[verifier::external_body]
pub struct ExStatement<'conn>(rusqlite::Statement<'conn>);

#[verifier::external_type_specification]
#[verifier::external_body]
pub struct ExRows<'stmt>(rusqlite::Rows<'stmt>);

#[verifier::external_type_specification]
#[verifier::external_body]
pub struct ExRow<'stmt>(rusqlite::Row<'stmt>);

#[verifier::external_type_specification]
#[verifier::external_body]
pub struct ExSqlValue(rusqlite::types::Value);

/// What a column of a row holds, as the engine types it: nothing, an
/// integer, a real by its 64 bits, a text by its bytes, or a blob.
pub enum Cell {
    Null,
    Integer(i64),
    Real(u64),
    Text(Seq<u8>),
    Blob(Seq<u8>),
}

/// The columns of the row that a cursor stands on, in order.
pub uninterp spec fn cells(row: rusqlite::Row<'_>) -> Seq<Cell>;

/// The cell that a stored value of rusqlite stands for.
pub uninterp spec fn value_cell(v: rusqlite::types::Value) -> Cell;

/// The column at `idx`; none behind the last column.
pub open spec fn cell_at(columns: Seq<Cell>, idx: usize) -> Option<Cell> {
    if idx < columns.len() {
        Some(columns[idx as int])
    } else {
        None
    }
}

/// What reading a column as an integer gives: the integer of an integer
/// cell; none for every other cell.
pub open spec fn read_int(cell: Option<Cell>) -> Option<i64> {
    match cell {
        Some(Cell::Integer(i)) => Some(i),
        _ => None,
    }
}

/// What reading a column as an integer that may be absent gives: nothing
/// for a null, the integer of an integer cell; none for every other cell.
pub open spec fn read_opt_int(cell: Option<Cell>) -> Option<Option<i64>> {
    match cell {
        Some(Cell::Null) => Some(None),
        Some(Cell::Integer(i)) => Some(Some(i)),
        _ => None,
    }
}

/// What reading a column as a text gives: the text of a text cell whose
/// bytes are UTF-8; none for every other cell.
pub open spec fn read_text(cell: Option<Cell>) -> Option<Seq<char>> {
    match cell {
        Some(Cell::Text(bytes)) => if valid_utf8(bytes) {
            Some(decode_utf8(bytes))
        } else {
            None
        },
        _ => None,
    }
}

/// What reading a column as a text that may be absent gives.
pub open spec fn read_opt_text(cell: Option<Cell>) -> Option<Option<Seq<char>>> {
    match cell {
        Some(Cell::Null) => Some(None),
        _ => match read_text(cell) {
            Some(text) => Some(Some(text)),
            None => None,
        },
    }
}

/// What reading a column as a number that may be absent gives: nothing for
/// a null, the whole number of an integer cell, the double of a real cell;
/// none for every other cell.
pub open spec fn read_number(cell: Option<Cell>) -> Option<Option<Number>> {
    match cell {
        Some(Cell::Null) => Some(None),
        Some(Cell::Integer(i)) => Some(Some(Number::Whole(i))),
        Some(Cell::Real(bits)) => Some(Some(Number::Binary64(bits))),
        _ => None,
    }
}

/// What reading a column as a real that is stored again gives: nothing for
/// a null, the cell itself for an integer or a real cell; none for every
/// other cell.
pub open spec fn read_real(cell: Option<Cell>) -> Option<Option<Cell>> {
    match cell {
        Some(Cell::Null) => Some(None),
        Some(Cell::Integer(i)) => Some(Some(Cell::Integer(i))),
        Some(Cell::Real(bits)) => Some(Some(Cell::Real(bits))),
        _ => None,
    }
}

/// The text of a text that may be absent.
pub open spec fn opt_view(text: Option<String>) -> Option<Seq<char>> {
    match text {
        Some(t) => Some(t@),
        None => None,
    }
}

/// The engine's code for a value that a column refuses because it holds the
/// value already.
pub const UNIQUE_VIOLATION: i32 = 2067;

/// The engine's code for a key that a table refuses because it holds the
/// key already.
pub const PRIMARY_KEY_VIOLATION: i32 = 1555;

/// A failure of the storage engine, in plain values.
#[derive(Debug, Clone, PartialEq, Eq)]
pub struct SqlFailure {
    /// The engine's extended result code; absent where the failure is none
    /// that the engine reported under a code.
    pub extended_code: Option<i32>,
    /// The engine's own text.
    pub text: String,
}

impl SqlFailure {
    /// Whether the engine refused a statement because a constraint of
    /// uniqueness would be broken.
    pub open spec fn is_uniqueness_violation(self) -> bool {
        self.extended_code == Some(UNIQUE_VIOLATION) || self.extended_code == Some(
            PRIMARY_KEY_VIOLATION,
        )
    }

    /// Whether the engine refused a statement because a constraint of
    /// uniqueness would be broken.
    pub fn uniqueness_violation(&self) -> (r: bool)
        ensures
            r == self.is_uniqueness_violation(),
    {
        match self.extended_code {
            Some(code) => code == UNIQUE_VIOLATION || code == PRIMARY_KEY_VIOLATION,
            None => false,
        }
    }
}

/// A real number of a source that is stored again as it was read.
#[derive(Debug)]
pub struct Real {
    /// The stored value as it was read: an integer or a real.
    pub value: rusqlite::types::Value,
}

/// The cell that a real was read from, for one that may be absent.
pub open spec fn opt_cell(x: Option<Real>) -> Option<Cell> {
    match x {
        Some(v) => Some(value_cell(v.value)),
        None => None,
    }
}

/// A value that is bound to a statement.
#[derive(Debug)]
pub enum SqlParam {
    Null,
    Integer(i64),
    Text(String),
    Real(Real),
}

/// `Connection::open` of rusqlite: a connection to the database file at
/// `path`, which is made where it does not exist.
#[verifier::external_body]
pub(crate) fn open(path: &str) -> (r: Result<rusqlite::Connection, SqlFailure>) {
    rusqlite::Connection::open(path).map_err(|e| SqlFailure {
        extended_code: e.sqlite_extended_error_code(),
        text: e.to_string(),
    })
}

/// `Connection::execute_batch` of rusqlite: runs the statements of `sql` one
/// after another.
#[verifier::external_body]
pub(crate) fn execute_batch(conn: &rusqlite::Connection, sql: &str) -> (r: Result<(), SqlFailure>) {
    conn.execute_batch(sql).map_err(|e| SqlFailure {
        extended_code: e.sqlite_extended_error_code(),
        text: e.to_string(),
    })
}

/// `Connection::execute` of rusqlite: runs the one statement `sql` with
/// `params` bound to its placeholders, in order, and returns the number of
/// rows it changed.
#[verifier::external_body]
pub(crate) fn execute(
    conn: &rusqlite::Connection,
    sql: &str,
    params: Vec<rusqlite::types::Value>,
) -> (r: Result<usize, SqlFailure>) {
    conn.execute(sql, rusqlite::params_from_iter(params)).map_err(|e| SqlFailure {
        extended_code: e.sqlite_extended_error_code(),
        text: e.to_string(),
    })
}

/// `Connection::query_row` of rusqlite, with nothing bound and the row left
/// unread: whether the query `sql` runs and yields a row.
#[verifier::external_body]
pub(crate) fn yields_row(conn: &rusqlite::Connection, sql: &str) -> (r: bool) {
    conn.query_row(sql, [], |_| Ok(())).is_ok()
}

/// `Connection::query_row` of rusqlite, with nothing bound, and `Row::get`
/// for an integer on its first column: the integer that the first row of
/// the query `sql` begins with.
#[verifier::external_body]
pub(crate) fn first_int(conn: &rusqlite::Connection, sql: &str) -> (r: Result<i64, SqlFailure>) {
    conn.query_row(sql, [], |row| row.get::<usize, i64>(0)).map_err(|e| SqlFailure {
        extended_code: e.sqlite_extended_error_code(),
        text: e.to_string(),
    })
}

/// `Connection::query_row` of rusqlite, with nothing bound, and `Row::get`
/// for an integer that may be absent on its first column: the integer that
/// the first row of the query `sql` begins with.
#[verifier::external_body]
pub(crate) fn first_opt_int(conn: &rusqlite::Connection, sql: &str) -> (r: Result<
    Option<i64>,
    SqlFailure,
>) {
    conn.query_row(sql, [], |row| row.get::<usize, Option<i64>>(0)).map_err(|e| SqlFailure {
        extended_code: e.sqlite_extended_error_code(),
        text: e.to_string(),
    })
}

/// `Connection::last_insert_rowid` of rusqlite: the row id of the latest
/// successful insert on the connection.
#[verifier::external_body]
pub(crate) fn last_insert_rowid(conn: &rusqlite::Connection) -> (r: i64) {
    conn.last_insert_rowid()
}

/// `Connection::prepare` of rusqlite: the statement `sql`, ready to run.
#[verifier::external_body]
pub(crate) fn prepare<'c>(conn: &'c rusqlite::Connection, sql: &str) -> (r: Result<
    rusqlite::Statement<'c>,
    SqlFailure,
>) {
    conn.prepare(sql).map_err(|e| SqlFailure {
        extended_code: e.sqlite_extended_error_code(),
        text: e.to_string(),
    })
}

/// `Statement::query` of rusqlite, with nothing bound: a cursor over the
/// rows that the statement yields.
#[verifier::external_body]
pub(crate) fn query<'s, 'c>(stmt: &'s mut rusqlite::Statement<'c>) -> (r: Result<
    rusqlite::Rows<'s>,
    SqlFailure,
>) {
    stmt.query([]).map_err(|e| SqlFailure {
        extended_code: e.sqlite_extended_error_code(),
        text: e.to_string(),
    })
}

/// `Rows::next` of rusqlite: moves the cursor on and returns the row it
/// stands on, or nothing behind the last row.
#[verifier::external_body]
pub(crate) fn next_row<'a, 's>(rows: &'a mut rusqlite::Rows<'s>) -> (r: Result<
    Option<&'a rusqlite::Row<'s>>,
    SqlFailure,
>) {
    rows.next().map_err(|e| SqlFailure {
        extended_code: e.sqlite_extended_error_code(),
        text: e.to_string(),
    })
}

/// `Row::get` of rusqlite for a text: the text in column `idx`; a failure,
/// which carries no code of the engine, where there is no such column or it holds
/// no text in UTF-8.
#[verifier::external_body]
pub(crate) fn column_text(row: &rusqlite::Row<'_>, idx: usize) -> (r: Result<String, SqlFailure>)
    ensures
        match r {
            Ok(text) => read_text(cell_at(cells(*row), idx)) == Some(text@),
            Err(failure) => read_text(cell_at(cells(*row), idx)) is None
                && failure.extended_code is None,
        },
{
    row.get::<usize, String>(idx).map_err(|e| SqlFailure {
        extended_code: e.sqlite_extended_error_code(),
        text: e.to_string(),
    })
}

/// `Row::get` of rusqlite for a text that may be absent: the text in column
/// `idx`, nothing where the column is null; a failure, which carries no code
/// of the engine, where there is no such column or it holds anything else.
#[verifier::external_body]
pub(crate) fn column_opt_text(row: &rusqlite::Row<'_>, idx: usize) -> (r: Result<
    Option<String>,
    SqlFailure,
>)
    ensures
        match r {
            Ok(text) => read_opt_text(cell_at(cells(*row), idx)) == Some(opt_view(text)),
            Err(failure) => read_opt_text(cell_at(cells(*row), idx)) is None
                && failure.extended_code is None,
        },
{
    row.get::<usize, Option<String>>(idx).map_err(|e| SqlFailure {
        extended_code: e.sqlite_extended_error_code(),
        text: e.to_string(),
    })
}

/// `Row::get` of rusqlite for an integer: the integer in column `idx`; a
/// failure, which carries no code of the engine, where there is no such column or
/// it holds no integer.
#[verifier::external_body]
pub(crate) fn column_int(row: &rusqlite::Row<'_>, idx: usize) -> (r: Result<i64, SqlFailure>)
    ensures
        match r {
            Ok(n) => read_int(cell_at(cells(*row), idx)) == Some(n),
            Err(failure) => read_int(cell_at(cells(*row), idx)) is None
                && failure.extended_code is None,
        },
{
    row.get::<usize, i64>(idx).map_err(|e| SqlFailure {
        extended_code: e.sqlite_extended_error_code(),
        text: e.to_string(),
    })
}

/// `Row::get` of rusqlite for an integer that may be absent: the integer in
/// column `idx`, nothing where the column is null; a failure, which carries
/// no code of the engine, where there is no such column or it holds anything else.
#[verifier::external_body]
pub(crate) fn column_opt_int(row: &rusqlite::Row<'_>, idx: usize) -> (r: Result<
    Option<i64>,
    SqlFailure,
>)
    ensures
        match r {
            Ok(n) => read_opt_int(cell_at(cells(*row), idx)) == Some(n),
            Err(failure) => read_opt_int(cell_at(cells(*row), idx)) is None
                && failure.extended_code is None,
        },
{
    row.get::<usize, Option<i64>>(idx).map_err(|e| SqlFailure {
        extended_code: e.sqlite_extended_error_code(),
        text: e.to_string(),
    })
}

/// `Row::get_ref` of rusqlite, for a number that may be absent: the integer
/// in column `idx` as a whole number, the real in it by its bits, nothing
/// where the column is null; the failure of `Row::get`, which carries no code
/// of the engine, where there is no such column or it holds anything else.
#[verifier::external_body]
pub(crate) fn column_number(row: &rusqlite::Row<'_>, idx: usize) -> (r: Result<
    Option<Number>,
    SqlFailure,
>)
    ensures
        match r {
            Ok(n) => read_number(cell_at(cells(*row), idx)) == Some(n),
            Err(failure) => read_number(cell_at(cells(*row), idx)) is None
                && failure.extended_code is None,
        },
{
    match row.get_ref(idx) {
        Ok(rusqlite::types::ValueRef::Integer(i)) => Ok(Some(Number::Whole(i))),
        Ok(rusqlite::types::ValueRef::Real(x)) => Ok(Some(Number::Binary64(x.to_bits()))),
        _ => row.get::<usize, Option<i64>>(idx).map(|v| v.map(Number::Whole)),
    }.map_err(|e| SqlFailure {
        extended_code: e.sqlite_extended_error_code(),
        text: e.to_string(),
    })
}

/// `Row::get_ref` of rusqlite, for a real that may be absent and is stored
/// again as it is: the integer or the real in column `idx`, nothing where
/// the column is null; the failure of `Row::get`, which carries no code
/// of the engine, where there is no such column or it holds anything else.
#[verifier::external_body]
pub(crate) fn column_real(row: &rusqlite::Row<'_>, idx: usize) -> (r: Result<
    Option<Real>,
    SqlFailure,
>)
    ensures
        match r {
            Ok(Some(x)) => read_real(cell_at(cells(*row), idx)) == Some(Some(value_cell(x.value))),
            Ok(None) => read_real(cell_at(cells(*row), idx)) == Some(None::<Cell>),
            Err(failure) => read_real(cell_at(cells(*row), idx)) is None
                && failure.extended_code is None,
        },
{
    match row.get_ref(idx) {
        Ok(rusqlite::types::ValueRef::Real(x)) => Ok(Some(rusqlite::types::Value::Real(x))),
        _ => row.get::<usize, Option<i64>>(idx).map(|v| v.map(rusqlite::types::Value::Integer)),
    }.map(|v| v.map(|value| Real { value })).map_err(|e| SqlFailure {
        extended_code: e.sqlite_extended_error_code(),
        text: e.to_string(),
    })
}

/// The null of rusqlite's stored values.
#[verifier::external_body]
fn null_value() -> (r: rusqlite::types::Value)
    ensures
        value_cell(r) == Cell::Null,
{
    rusqlite::types::Value::Null
}

/// The integer `i` as one of rusqlite's stored values.
#[verifier::external_body]
fn integer_value(i: i64) -> (r: rusqlite::types::Value)
    ensures
        value_cell(r) == Cell::Integer(i),
{
    rusqlite::types::Value::Integer(i)
}

/// The text `s` as one of rusqlite's stored values: a text cell of the
/// bytes of `s`.
#[verifier::external_body]
fn text_value(s: &str) -> (r: rusqlite::types::Value)
    ensures
        value_cell(r) == Cell::Text(encode_utf8(s@)),
{
    rusqlite::types::Value::Text(s.to_string())
}

/// `Value::clone` of rusqlite: a copy of the stored value.
#[verifier::external_body]
fn copy_value(v: &rusqlite::types::Value) -> (r: rusqlite::types::Value)
    ensures
        r == *v,
{
    v.clone()
}

/// The cell that is bound for a parameter.
pub open spec fn cell_of(param: SqlParam) -> Cell {
    match param {
        SqlParam::Null => Cell::Null,
        SqlParam::Integer(i) => Cell::Integer(i),
        SqlParam::Text(text) => Cell::Text(encode_utf8(text@)),
        SqlParam::Real(x) => value_cell(x.value),
    }
}

/// The values of rusqlite that stand for `params`, in order: each is the
/// cell of its parameter.
pub(crate) fn bound_values(params: &Vec<SqlParam>) -> (r: Vec<rusqlite::types::Value>)
    ensures
        r@.len() == params@.len(),
        forall|i: int| 0 <= i < params@.len() ==> value_cell(#[trigger] r@[i]) == cell_of(params@[i]),
{
    let mut values: Vec<rusqlite::types::Value> = Vec::new();
    let mut i: usize = 0;
    while i < params.len()
        invariant
            i <= params.len(),
            values@.len() == i,
            forall|k: int| 0 <= k < i ==> value_cell(#[trigger] values@[k]) == cell_of(params@[k]),
        decreases params.len() - i,
    {
        let value = match &params[i] {
            SqlParam::Null => null_value(),
            SqlParam::Integer(n) => integer_value(*n),
            SqlParam::Text(s) => text_value(s.as_str()),
            SqlParam::Real(x) => copy_value(&x.value),
        };
        values.push(value);
        i = i + 1;
    }
    values
}

/// The parameter that holds a text.
pub open spec fn text_of(text: String) -> SqlParam {
    SqlParam::Text(text)
}

/// The parameter that holds a text, or null for an absent one.
pub open spec fn opt_text_of(text: Option<String>) -> SqlParam {
    match text {
        Some(t) => SqlParam::Text(t),
        None => SqlParam::Null,
    }
}

/// The parameter that holds an integer, or null for an absent one.
pub open spec fn opt_int_of(n: Option<i64>) -> SqlParam {
    match n {
        Some(i) => SqlParam::Integer(i),
        None => SqlParam::Null,
    }
}

/// The parameter that holds a real, or null for an absent one.
pub open spec fn opt_real_of(x: Option<Real>) -> SqlParam {
    match x {
        Some(v) => SqlParam::Real(v),
        None => SqlParam::Null,
    }
}

/// The parameter that holds a copy of `text`.
pub fn text_param(text: &String) -> (r: SqlParam)
    ensures
        r == text_of(*text),
{
    SqlParam::Text(text.clone())
}

/// The parameter that holds a copy of `text`, or null.
pub fn opt_text_param(text: &Option<String>) -> (r: SqlParam)
    ensures
        r == opt_text_of(*text),
{
    match text {
        Some(t) => SqlParam::Text(t.clone()),
        None => SqlParam::Null,
    }
}

/// The parameter that holds `n`, or null.
pub fn opt_int_param(n: Option<i64>) -> (r: SqlParam)
    ensures
        r == opt_int_of(n),
{
    match n {
        Some(i) => SqlParam::Integer(i),
        None => SqlParam::Null,
    }
}

/// The parameter that holds a copy of the real `x`, or null.
pub fn opt_real_param(x: &Option<Real>) -> (r: SqlParam)
    ensures
        r == opt_real_of(*x),
{
    match x {
        Some(v) => SqlParam::Real(Real { value: copy_value(&v.value) }),
        None => SqlParam::Null,
    }
}

} // verus!
