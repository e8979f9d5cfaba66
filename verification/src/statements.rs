//! The SQL that the store runs, and the values bound to it.
//!
//! Every value is bound as text or as NULL, in the order of the statement's
//! numbered placeholders.

use vstd::prelude::*;
use crate::codec::{encode_field, json_text};
use crate::error::CoreError;
use crate::models::{ApiKey, KeyView};

verus! {

/// Sets the journal to write-ahead logging with relaxed flushing, and creates
/// the table of records unless it exists.
pub const SCHEMA_SQL: &'static str = "PRAGMA journal_mode = WAL;
PRAGMA synchronous = NORMAL;

CREATE TABLE IF NOT EXISTS api_keys (
    id TEXT PRIMARY KEY,
    name TEXT NOT NULL,
    vendor TEXT NOT NULL,
    value TEXT NOT NULL,
    masked_value TEXT NOT NULL,
    base_url TEXT,
    doc_url TEXT,
    code_snippets TEXT,
    tags TEXT,
    notes TEXT,
    created_at TEXT NOT NULL,
    updated_at TEXT NOT NULL
);";

/// Adds one row; its twelve placeholders follow the table's column order.
pub const INSERT_SQL: &'static str = "INSERT INTO api_keys (id, name, vendor, value, masked_value, base_url, doc_url, code_snippets, tags, notes, created_at, updated_at) VALUES (?1, ?2, ?3, ?4, ?5, ?6, ?7, ?8, ?9, ?10, ?11, ?12)";

/// Lists every row, newest first.
pub const SELECT_SQL: &'static str = "SELECT * FROM api_keys ORDER BY created_at DESC";

/// Replaces every caller-owned column of the row with the given identifier,
/// and leaves `created_at` alone.
pub const UPDATE_SQL: &'static str = "UPDATE api_keys SET name = ?1, vendor = ?2, value = ?3, masked_value = ?4, base_url = ?5, doc_url = ?6, code_snippets = ?7, tags = ?8, notes = ?9, updated_at = ?10 WHERE id = ?11";

/// Removes the row with the given identifier.
pub const DELETE_SQL: &'static str = "DELETE FROM api_keys WHERE id = ?1";

/// A statement ready to run: its SQL and the values for its placeholders,
/// `None` standing for NULL.
pub struct Statement {
    pub sql: &'static str,
    pub params: Vec<Option<String>>,
}

/// The model of a [`Statement`].
pub ghost struct StatementView {
    pub sql: Seq<char>,
    pub params: Seq<Option<Seq<char>>>,
}

impl View for Statement {
    type V = StatementView;

    open spec fn view(&self) -> StatementView {
        StatementView { sql: self.sql@, params: self.params.deep_view() }
    }
}

/// The values that an insertion binds for `record`, given the encoded texts
/// of its two structured fields.
pub open spec fn insert_params(record: KeyView, snippets: Seq<char>, tags: Seq<char>) -> Seq<
    Option<Seq<char>>,
> {
    seq![
        Some(record.id),
        Some(record.name),
        Some(record.vendor),
        Some(record.value),
        Some(record.masked_value),
        record.base_url,
        record.doc_url,
        Some(snippets),
        Some(tags),
        record.notes,
        Some(record.created_at),
        Some(record.updated_at),
    ]
}

/// The values that an update binds for `record`: the replaced columns, then
/// the identifier that selects the row.
pub open spec fn update_params(record: KeyView, snippets: Seq<char>, tags: Seq<char>) -> Seq<
    Option<Seq<char>>,
> {
    seq![
        Some(record.name),
        Some(record.vendor),
        Some(record.value),
        Some(record.masked_value),
        record.base_url,
        record.doc_url,
        Some(snippets),
        Some(tags),
        record.notes,
        Some(record.updated_at),
        Some(record.id),
    ]
}

/// The statement that stores `record` as a new row.
pub open spec fn insertion_of(record: KeyView) -> StatementView {
    StatementView {
        sql: INSERT_SQL@,
        params: insert_params(record, json_text(record.code_snippets), json_text(record.tags)),
    }
}

/// The statement that replaces the row of `record`.
pub open spec fn update_of(record: KeyView) -> StatementView {
    StatementView {
        sql: UPDATE_SQL@,
        params: update_params(record, json_text(record.code_snippets), json_text(record.tags)),
    }
}

/// The statement that removes the row of `id`.
pub open spec fn deletion_of(id: Seq<char>) -> StatementView {
    StatementView { sql: DELETE_SQL@, params: seq![Some(id)] }
}

/// Builds the insertion of `record`. Both structured fields have an
/// encoding, so this succeeds on every record.
pub fn insert_statement(record: &ApiKey) -> (r: Result<Statement, CoreError>)
    ensures
        r matches Ok(statement) && statement@ == insertion_of(record@),
{
    let tags = match encode_field(&record.tags) {
        Ok(text) => text,
        Err(e) => { return Err(e); },
    };
    let snippets = match encode_field(&record.code_snippets) {
        Ok(text) => text,
        Err(e) => { return Err(e); },
    };
    let mut params: Vec<Option<String>> = Vec::new();
    params.push(Some(record.id.clone()));
    params.push(Some(record.name.clone()));
    params.push(Some(record.vendor.clone()));
    params.push(Some(record.value.clone()));
    params.push(Some(record.masked_value.clone()));
    params.push(record.base_url.clone());
    params.push(record.doc_url.clone());
    params.push(Some(snippets));
    params.push(Some(tags));
    params.push(record.notes.clone());
    params.push(Some(record.created_at.clone()));
    params.push(Some(record.updated_at.clone()));
    let statement = Statement { sql: INSERT_SQL, params };
    assert(statement@.params =~= insertion_of(record@).params);
    Ok(statement)
}

/// Builds the update of `record`. Both structured fields have an encoding,
/// so this succeeds on every record.
pub fn update_statement(record: &ApiKey) -> (r: Result<Statement, CoreError>)
    ensures
        r matches Ok(statement) && statement@ == update_of(record@),
{
    let tags = match encode_field(&record.tags) {
        Ok(text) => text,
        Err(e) => { return Err(e); },
    };
    let snippets = match encode_field(&record.code_snippets) {
        Ok(text) => text,
        Err(e) => { return Err(e); },
    };
    let mut params: Vec<Option<String>> = Vec::new();
    params.push(Some(record.name.clone()));
    params.push(Some(record.vendor.clone()));
    params.push(Some(record.value.clone()));
    params.push(Some(record.masked_value.clone()));
    params.push(record.base_url.clone());
    params.push(record.doc_url.clone());
    params.push(Some(snippets));
    params.push(Some(tags));
    params.push(record.notes.clone());
    params.push(Some(record.updated_at.clone()));
    params.push(Some(record.id.clone()));
    let statement = Statement { sql: UPDATE_SQL, params };
    assert(statement@.params =~= update_of(record@).params);
    Ok(statement)
}

/// Builds the deletion of the row of `id`.
pub fn delete_statement(id: String) -> (statement: Statement)
    ensures
        statement@ == deletion_of(id@),
{
    let mut params: Vec<Option<String>> = Vec::new();
    params.push(Some(id));
    let statement = Statement { sql: DELETE_SQL, params };
    assert(statement@.params =~= deletion_of(id@).params);
    statement
}

} // verus!
