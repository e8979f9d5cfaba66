//! What holds across the store's operations.

use vstd::prelude::*;
use crate::codec::{json_field, json_text};
use crate::models::KeyView;
use crate::rows::{record_of, row_holding};
use crate::stamping::{created, refreshed};
use crate::statements::{insertion_of, update_of};

verus! {

/// Every record that creation or an update stores carries the masked value
/// of its own secret.
pub proof fn lemma_written_records_are_masked(input: KeyView, id: Seq<char>, now: Seq<char>)
    ensures
        created(input, id, now).mask_consistent(),
        refreshed(input, now).mask_consistent(),
{
}

/// A new record's two timestamps are equal.
pub proof fn lemma_created_timestamps_agree(input: KeyView, id: Seq<char>, now: Seq<char>)
    ensures
        created(input, id, now).created_at == created(input, id, now).updated_at,
{
}

/// Updating a stored record without changing its secret leaves the masked
/// value as it was, whatever else the update changes.
pub proof fn lemma_update_keeps_mask(stored: KeyView, input: KeyView, now: Seq<char>)
    requires
        stored.mask_consistent(),
        input.value == stored.value,
    ensures
        refreshed(input, now).masked_value == stored.masked_value,
{
}

/// An update returns the identifier and the creation time that it was given.
pub proof fn lemma_update_returns_identity(input: KeyView, now: Seq<char>)
    ensures
        refreshed(input, now).id == input.id,
        refreshed(input, now).created_at == input.created_at,
{
}

/// An update never writes the creation time: the statement is the same
/// whatever creation time the record carries.
pub proof fn lemma_update_never_writes_creation_time(record: KeyView, other: Seq<char>)
    ensures
        update_of(KeyView { created_at: other, ..record }) == update_of(record),
{
}

/// Creation ignores what the caller put in the four fields that the store
/// assigns, and an update ignores what the caller put in the masked value
/// and in `updated_at`.
pub proof fn lemma_assigned_fields_are_ignored(
    input: KeyView,
    other: KeyView,
    id: Seq<char>,
    now: Seq<char>,
)
    ensures
        created(
            KeyView {
                id: other.id,
                masked_value: other.masked_value,
                created_at: other.created_at,
                updated_at: other.updated_at,
                ..input
            },
            id,
            now,
        ) == created(input, id, now),
        refreshed(
            KeyView { masked_value: other.masked_value, updated_at: other.updated_at, ..input },
            now,
        ) == refreshed(input, now),
{
}

/// The insertion lists its values in the table's column order, so that the
/// row holding them reads back as the record, provided that the encoded text
/// of each structured field parses to that field.
pub proof fn lemma_inserted_values_read_back(record: KeyView)
    requires
        json_field(json_text(record.code_snippets)) == Some(record.code_snippets),
        json_field(json_text(record.tags)) == Some(record.tags),
    ensures
        insertion_of(record).params.len() == 12,
        record_of(row_holding(insertion_of(record).params)) == record,
{
}

} // verus!
