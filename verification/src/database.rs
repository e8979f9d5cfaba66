//! The key store: one SQLite connection and the operations on it.
//!
//! What a statement does to the table, and what a query finds there, is
//! SQLite's business and depends on the database file. The operations here
//! fix what is sent to the database and say what they return for every
//! answer that comes back.

use std::path::PathBuf;
use rusqlite::Connection;
use vstd::prelude::*;
use crate::error::CoreError;
use crate::models::ApiKey;
use crate::rows::{decode_rows, records_of, views_of, StoredRow};
use crate::stamping::{
    created, current_timestamp, fresh_identifier, is_identifier, is_timestamp, refreshed,
    stamp_created, stamp_updated,
};
use crate::statements::{
    delete_statement, insert_statement, update_statement, Statement, SCHEMA_SQL, SELECT_SQL,
};

verus! {

#[verifier::external_type_specification]
#[verifier::external_body]
pub struct ExConnection(rusqlite::Connection);

#[verifier::external_type_specification]
#[verifier::external_body]
pub struct ExStorageError(rusqlite::Error);

#[verifier::external_type_specification]
#[verifier::external_body]
pub struct ExRow<'stmt>(rusqlite::Row<'stmt>);

#[verifier::external_type_specification]
#[verifier::external_body]
pub struct ExPathBuf(std::path::PathBuf);

/// The store's connection slot: empty until a connection is stored in it.
pub struct DbConnection(pub Option<Connection>);

impl DbConnection {
    /// Whether a connection has been stored.
    pub open spec fn is_initialized(&self) -> bool {
        self.0 is Some
    }
}

/// Opens the database file with `rusqlite::Connection::open`, which creates
/// it when it is absent. Nothing is claimed about the outcome.
#[verifier::external_body]
fn open_connection(path: &PathBuf) -> Result<Connection, rusqlite::Error> {
    Connection::open(path)
}

/// Runs a script of statements without parameters through
/// `rusqlite::Connection::execute_batch`. Nothing is claimed about the outcome.
#[verifier::external_body]
fn run_script(conn: &Connection, sql: &str) -> Result<(), rusqlite::Error> {
    conn.execute_batch(sql)
}

/// Runs one statement through `rusqlite::Connection::execute`, its values
/// bound in order by `rusqlite::params_from_iter`. On success the number is
/// the count of rows changed; nothing is claimed about it.
#[verifier::external_body]
fn run_statement(conn: &Connection, statement: &Statement) -> Result<usize, rusqlite::Error> {
    conn.execute(statement.sql, rusqlite::params_from_iter(statement.params.iter()))
}

/// Reads one column of a result row as text with `rusqlite::Row::get`,
/// which gives an error for NULL, for a value that is no text and for an
/// index past the last column. Nothing is claimed about the outcome.
#[verifier::external_body]
fn column_text(row: &rusqlite::Row<'_>, index: usize) -> Result<String, rusqlite::Error> {
    row.get(index)
}

/// Reads one column of a result row as optional text with
/// `rusqlite::Row::get`, NULL being the absent text. Nothing is claimed
/// about the outcome.
#[verifier::external_body]
fn column_optional_text(row: &rusqlite::Row<'_>, index: usize) -> Result<
    Option<String>,
    rusqlite::Error,
> {
    row.get(index)
}

/// Reads a result row column by column, in the table's order. The two
/// structured columns are read as text, like the columns that may not be
/// NULL: a row without one of them fails the listing.
fn read_row(row: &rusqlite::Row<'_>) -> Result<StoredRow, rusqlite::Error> {
    Ok(
        StoredRow {
            id: column_text(row, 0)?,
            name: column_text(row, 1)?,
            vendor: column_text(row, 2)?,
            value: column_text(row, 3)?,
            masked_value: column_text(row, 4)?,
            base_url: column_optional_text(row, 5)?,
            doc_url: column_optional_text(row, 6)?,
            code_snippets: column_text(row, 7)?,
            tags: column_text(row, 8)?,
            notes: column_optional_text(row, 9)?,
            created_at: column_text(row, 10)?,
            updated_at: column_text(row, 11)?,
        },
    )
}

/// Runs a query without parameters through `rusqlite::Connection::prepare`
/// and `rusqlite::Statement::query_map`, reads each row with [`read_row`] and
/// collects the rows in the order in which SQLite yields them. Nothing is
/// claimed about the outcome.
#[verifier::external_body]
fn query_rows(conn: &Connection, sql: &str) -> Result<Vec<StoredRow>, rusqlite::Error> {
    let mut prepared = conn.prepare(sql)?;
    let rows = prepared.query_map([], |row| read_row(row))?;
    rows.collect()
}

/// Renders a `rusqlite::Error` through its `Display` impl. Nothing is claimed
/// about the text.
#[verifier::external_body]
fn storage_error_text(e: &rusqlite::Error) -> String {
    e.to_string()
}

/// The store's error for a failure of the database.
pub fn storage_failure(e: &rusqlite::Error) -> (failure: CoreError)
    ensures
        failure is DatabaseError,
{
    CoreError::DatabaseError(storage_error_text(e))
}

/// What a step returns for the database's answer: `value` whenever the
/// database reported success, a write that changed no row included; a
/// database error otherwise.
pub fn settle<A, T>(outcome: Result<A, rusqlite::Error>, value: T) -> (r: Result<T, CoreError>)
    ensures
        outcome is Ok ==> r == Ok::<T, CoreError>(value),
        outcome is Err ==> (r matches Err(e) && e is DatabaseError),
{
    match outcome {
        Ok(_) => Ok(value),
        Err(e) => Err(storage_failure(&e)),
    }
}

/// What a listing returns for the database's answer: the records of the
/// rows, one for one and in order, whenever the query ran, an answer without
/// rows included; a database error otherwise.
pub fn listing(outcome: Result<Vec<StoredRow>, rusqlite::Error>) -> (r: Result<
    Vec<ApiKey>,
    CoreError,
>)
    ensures
        outcome matches Ok(rows) ==> (r matches Ok(keys) && views_of(keys@) == records_of(rows@)),
        outcome is Err ==> (r matches Err(e) && e is DatabaseError),
{
    match outcome {
        Ok(rows) => Ok(decode_rows(&rows)),
        Err(e) => Err(storage_failure(&e)),
    }
}

/// Opens the database at `db_path`, creating the file if need be, and makes
/// sure that the journal mode is set and the table exists. Running it again
/// on the same file is harmless.
pub fn init(db_path: &PathBuf) -> (r: Result<Connection, CoreError>)
    ensures
        r matches Err(e) ==> e is DatabaseError,
{
    match open_connection(db_path) {
        Err(e) => Err(storage_failure(&e)),
        Ok(conn) => {
            let prepared = run_script(&conn, SCHEMA_SQL);
            settle(prepared, conn)
        },
    }
}

/// Stores `key` as a new record and returns it as stored: with a fresh
/// identifier, the masked value of its secret, and both timestamps set to the
/// time of the call. What the caller put in those four fields is ignored.
pub fn add_key(conn: &DbConnection, key: ApiKey) -> (r: Result<ApiKey, CoreError>)
    ensures
        r matches Err(CoreError::DatabaseNotInitialized) <==> !conn.is_initialized(),
        r matches Ok(record) ==> {
            &&& record@ == created(key@, record@.id, record@.created_at)
            &&& is_identifier(record@.id)
            &&& is_timestamp(record@.created_at)
            &&& record@.mask_consistent()
        },
        r matches Err(e) ==> e is DatabaseNotInitialized || e is DatabaseError,
{
    match &conn.0 {
        None => Err(CoreError::DatabaseNotInitialized),
        Some(live) => {
            let record = stamp_created(key, fresh_identifier(), current_timestamp());
            match insert_statement(&record) {
                Err(e) => Err(e),
                Ok(statement) => settle(run_statement(live, &statement), record),
            }
        },
    }
}

/// Lists every record, newest first by `created_at`. An empty table gives an
/// empty vector. A structured field whose stored text does not parse reads
/// as absent.
pub fn get_all_keys(conn: &DbConnection) -> (r: Result<Vec<ApiKey>, CoreError>)
    ensures
        r matches Err(CoreError::DatabaseNotInitialized) <==> !conn.is_initialized(),
        r matches Ok(keys) ==> exists|rows: Seq<StoredRow>| views_of(keys@) == records_of(rows),
        r matches Err(e) ==> e is DatabaseNotInitialized || e is DatabaseError,
{
    match &conn.0 {
        None => Err(CoreError::DatabaseNotInitialized),
        Some(live) => {
            let answer = query_rows(live, SELECT_SQL);
            listing(answer)
        },
    }
}

/// Replaces the record with the identifier of `key` and returns `key` with
/// its masked value derived again and `updated_at` set to the time of the
/// call. The returned record is not read back: where no row has that
/// identifier nothing is written, and the call succeeds all the same.
pub fn update_key(conn: &DbConnection, key: ApiKey) -> (r: Result<ApiKey, CoreError>)
    ensures
        r matches Err(CoreError::DatabaseNotInitialized) <==> !conn.is_initialized(),
        r matches Ok(record) ==> {
            &&& record@ == refreshed(key@, record@.updated_at)
            &&& is_timestamp(record@.updated_at)
            &&& record@.mask_consistent()
        },
        r matches Err(e) ==> e is DatabaseNotInitialized || e is DatabaseError,
{
    match &conn.0 {
        None => Err(CoreError::DatabaseNotInitialized),
        Some(live) => {
            let record = stamp_updated(key, current_timestamp());
            match update_statement(&record) {
                Err(e) => Err(e),
                Ok(statement) => settle(run_statement(live, &statement), record),
            }
        },
    }
}

/// Removes the record with the given identifier. Where no row has it nothing
/// is removed, and the call succeeds all the same.
pub fn delete_key_by_id(conn: &DbConnection, id: String) -> (r: Result<(), CoreError>)
    ensures
        r matches Err(CoreError::DatabaseNotInitialized) <==> !conn.is_initialized(),
        r matches Err(e) ==> e is DatabaseNotInitialized || e is DatabaseError,
{
    match &conn.0 {
        None => Err(CoreError::DatabaseNotInitialized),
        Some(live) => {
            let statement = delete_statement(id);
            settle(run_statement(live, &statement), ())
        },
    }
}

} // verus!
