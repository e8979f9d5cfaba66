//! Rows as the table holds them, and the records they stand for.

use vstd::prelude::*;
use crate::codec::{decode_field, decoded};
use crate::models::{ApiKey, KeyView};

verus! {

/// One row of the table, column by column. The two structured columns hold
/// encoded text; the three plain optional columns may be NULL.
#[derive(Clone, Debug, PartialEq, Eq)]
pub struct StoredRow {
    pub id: String,
    pub name: String,
    pub vendor: String,
    pub value: String,
    pub masked_value: String,
    pub base_url: Option<String>,
    pub doc_url: Option<String>,
    pub code_snippets: String,
    pub tags: String,
    pub notes: Option<String>,
    pub created_at: String,
    pub updated_at: String,
}

/// The model of a [`StoredRow`].
pub ghost struct RowView {
    pub id: Seq<char>,
    pub name: Seq<char>,
    pub vendor: Seq<char>,
    pub value: Seq<char>,
    pub masked_value: Seq<char>,
    pub base_url: Option<Seq<char>>,
    pub doc_url: Option<Seq<char>>,
    pub code_snippets: Seq<char>,
    pub tags: Seq<char>,
    pub notes: Option<Seq<char>>,
    pub created_at: Seq<char>,
    pub updated_at: Seq<char>,
}

impl View for StoredRow {
    type V = RowView;

    open spec fn view(&self) -> RowView {
        RowView {
            id: self.id@,
            name: self.name@,
            vendor: self.vendor@,
            value: self.value@,
            masked_value: self.masked_value@,
            base_url: self.base_url.deep_view(),
            doc_url: self.doc_url.deep_view(),
            code_snippets: self.code_snippets@,
            tags: self.tags@,
            notes: self.notes.deep_view(),
            created_at: self.created_at@,
            updated_at: self.updated_at@,
        }
    }
}

/// The record that a row stands for: its plain columns as they are, its two
/// structured columns decoded.
pub open spec fn record_of(row: RowView) -> KeyView {
    KeyView {
        id: row.id,
        name: row.name,
        vendor: row.vendor,
        value: row.value,
        masked_value: row.masked_value,
        base_url: row.base_url,
        doc_url: row.doc_url,
        code_snippets: decoded(row.code_snippets),
        tags: decoded(row.tags),
        notes: row.notes,
        created_at: row.created_at,
        updated_at: row.updated_at,
    }
}

/// The row that holds twelve values in the table's column order. A value
/// that is NULL in a column read as text has no row: such a listing fails.
pub open spec fn row_holding(values: Seq<Option<Seq<char>>>) -> RowView
    recommends
        values.len() == 12,
{
    RowView {
        id: values[0].unwrap(),
        name: values[1].unwrap(),
        vendor: values[2].unwrap(),
        value: values[3].unwrap(),
        masked_value: values[4].unwrap(),
        base_url: values[5],
        doc_url: values[6],
        code_snippets: values[7].unwrap(),
        tags: values[8].unwrap(),
        notes: values[9],
        created_at: values[10].unwrap(),
        updated_at: values[11].unwrap(),
    }
}

/// The records that a listing of rows stands for, in the rows' order.
pub open spec fn records_of(rows: Seq<StoredRow>) -> Seq<KeyView> {
    Seq::new(rows.len(), |i: int| record_of(rows[i]@))
}

/// The models of a vector of records.
pub open spec fn views_of(keys: Seq<ApiKey>) -> Seq<KeyView> {
    Seq::new(keys.len(), |i: int| keys[i]@)
}

/// Turns a row into its record.
pub fn decode_row(row: &StoredRow) -> (key: ApiKey)
    ensures
        key@ == record_of(row@),
{
    let code_snippets = decode_field(row.code_snippets.as_str());
    let tags = decode_field(row.tags.as_str());
    ApiKey {
        id: row.id.clone(),
        name: row.name.clone(),
        vendor: row.vendor.clone(),
        value: row.value.clone(),
        masked_value: row.masked_value.clone(),
        base_url: row.base_url.clone(),
        doc_url: row.doc_url.clone(),
        code_snippets,
        tags,
        notes: row.notes.clone(),
        created_at: row.created_at.clone(),
        updated_at: row.updated_at.clone(),
    }
}

/// Turns a listing of rows into records, one for one and in the same order.
pub fn decode_rows(rows: &Vec<StoredRow>) -> (keys: Vec<ApiKey>)
    ensures
        views_of(keys@) == records_of(rows@),
{
    let mut keys: Vec<ApiKey> = Vec::new();
    let mut i: usize = 0;
    while i < rows.len()
        invariant
            i <= rows.len(),
            keys.len() == i,
            forall|j: int| 0 <= j < i ==> (#[trigger] keys[j])@ == record_of(rows[j]@),
        decreases rows.len() - i,
    {
        let key = decode_row(&rows[i]);
        keys.push(key);
        i += 1;
    }
    assert(views_of(keys@) =~= records_of(rows@));
    keys
}

} // verus!
