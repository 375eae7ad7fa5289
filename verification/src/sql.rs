//! The library's side of the boundary to SQLite: the values it binds and
//! reads, and the calls into `rusqlite` that carry them.
//!
//! Nothing is claimed here about what the store holds: every call may fail,
//! and what a query returns is whatever is on disk.

use rusqlite::types::Value;
use rusqlite::{Connection, Error, Statement, Transaction};
use vstd::prelude::*;

verus! {

/// `rusqlite::Connection`, carried through as it is.
#[verifier::external_type_specification]
#[verifier::external_body]
pub struct ExConnection(Connection);

/// `rusqlite::Error`, carried through as it is.
#[verifier::external_type_specification]
#[verifier::external_body]
pub struct ExError(Error);

/// `rusqlite::Transaction`, carried through as it is.
#[verifier::external_type_specification]
#[verifier::external_body]
pub struct ExTransaction<'conn>(Transaction<'conn>);

/// `rusqlite::Statement`, carried through as it is.
#[verifier::external_type_specification]
#[verifier::external_body]
pub struct ExStatement<'conn>(Statement<'conn>);

/// One value bound to a statement or read from a row.
#[derive(Debug, Clone, PartialEq, Eq)]
pub enum SqlValue {
    Null,
    Integer(i64),
    Text(String),
    /// A value of a storage class that no column of this library holds
    /// (REAL or BLOB). It can be read, never written.
    Other,
}

/// The value of a [`SqlValue`].
pub ghost enum SqlData {
    Null,
    Integer(i64),
    Text(Seq<char>),
    Other,
}

impl View for SqlValue {
    type V = SqlData;

    open spec fn view(&self) -> SqlData {
        match self {
            SqlValue::Null => SqlData::Null,
            SqlValue::Integer(i) => SqlData::Integer(*i),
            SqlValue::Text(s) => SqlData::Text(s@),
            SqlValue::Other => SqlData::Other,
        }
    }
}

impl DeepView for SqlValue {
    type V = SqlData;

    open spec fn deep_view(&self) -> SqlData {
        self@
    }
}

/// Whether every value of a parameter list can be written.
pub open spec fn bindable(params: Seq<SqlData>) -> bool {
    forall|i: int| 0 <= i < params.len() ==> params[i] != SqlData::Other
}

/// `rusqlite::Connection::open`: opens, or creates, the store at `path`.
/// Nothing is promised of the outcome.
#[verifier::external_body]
pub(crate) fn open_connection(path: &str) -> (r: Result<Connection, Error>) {
    Connection::open(path)
}

/// `rusqlite::Connection::transaction`: begins a transaction that is rolled
/// back when the handle is dropped without a commit. Nothing is promised of
/// the outcome.
pub assume_specification<'a>[ Connection::transaction ](conn: &'a mut Connection) -> (r: Result<
    Transaction<'a>,
    Error,
>)
;

/// `rusqlite::Transaction::commit`: consumes the transaction and commits it.
/// Nothing is promised of the outcome.
pub assume_specification[ Transaction::commit ](tx: Transaction<'_>) -> (r: Result<(), Error>)
;

/// `rusqlite::Connection::prepare`: compiles one statement. Nothing is
/// promised of the outcome.
pub assume_specification<'a>[ Connection::prepare ](conn: &'a Connection, sql: &str) -> (r: Result<
    Statement<'a>,
    Error,
>)
;

/// The connection that a transaction runs on, through the `Deref` of
/// `rusqlite::Transaction`. Nothing is claimed of it.
#[verifier::external_body]
pub(crate) fn connection_of<'a>(tx: &'a Transaction<'_>) -> (conn: &'a Connection) {
    tx
}

/// `rusqlite::Connection::execute`: prepares `sql`, binds `params` in order
/// and runs it. Nothing is promised of the outcome; the count it returns on
/// success is the engine's. A value that cannot be written has no
/// counterpart in the store and is kept out by the precondition.
#[verifier::external_body]
pub(crate) fn execute(conn: &Connection, sql: &str, params: &Vec<SqlValue>) -> (r: Result<
    usize,
    Error,
>)
    requires
        bindable(params.deep_view()),
{
    conn.execute(sql, rusqlite::params_from_iter(params.iter().map(|p| match p {
        SqlValue::Integer(i) => Value::Integer(*i),
        SqlValue::Text(s) => Value::Text(s.clone()),
        SqlValue::Null | SqlValue::Other => Value::Null,
    })))
}

/// `rusqlite::Statement::execute`: binds `params` in order to a prepared
/// statement and runs it. Nothing is promised of the outcome. A value that
/// cannot be written is kept out by the precondition.
#[verifier::external_body]
pub(crate) fn execute_prepared(stmt: &mut Statement<'_>, params: &Vec<SqlValue>) -> (r: Result<
    usize,
    Error,
>)
    requires
        bindable(params.deep_view()),
{
    stmt.execute(rusqlite::params_from_iter(params.iter().map(|p| match p {
        SqlValue::Integer(i) => Value::Integer(*i),
        SqlValue::Text(s) => Value::Text(s.clone()),
        SqlValue::Null | SqlValue::Other => Value::Null,
    })))
}

/// `rusqlite::Statement::query_map`: runs a prepared query without
/// parameters and reads the first `width` columns of every row, each as the
/// value the store holds. A row that cannot be read is an `Err` in its
/// place. Nothing is promised of the rows.
#[verifier::external_body]
pub(crate) fn query_rows(stmt: &mut Statement<'_>, width: usize) -> (r: Result<
    Vec<Result<Vec<SqlValue>, Error>>,
    Error,
>)
{
    let rows = stmt.query_map((), |row| {
        (0..width).map(|i| row.get(i).map(|v| match v {
            Value::Null => SqlValue::Null,
            Value::Integer(n) => SqlValue::Integer(n),
            Value::Text(s) => SqlValue::Text(s),
            Value::Real(_) | Value::Blob(_) => SqlValue::Other,
        })).collect()
    })?;
    Ok(rows.collect())
}

/// Whether `text` is what a store error shows of itself.
pub open spec fn is_text_of(e: Error, text: String) -> bool {
    vstd::string::to_string_from_display_ensures::<Error>(&e, text)
}

/// Whether `message` is what some store error shows of itself: the only
/// messages that a failing call into the store gives rise to.
pub open spec fn store_message(message: Seq<char>) -> bool {
    exists|e: Error, text: String| text@ == message && #[trigger] is_text_of(e, text)
}

/// The message of a store error, as it is handed to the caller.
pub fn error_text(e: &Error) -> (text: String)
    ensures
        is_text_of(*e, text),
        store_message(text@),
{
    let text = e.to_string();
    assert(is_text_of(*e, text));
    text
}

} // verus!
