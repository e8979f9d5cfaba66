//! The fields that the store assigns: identifier, masked value, timestamps.

use vstd::prelude::*;
use crate::masking::{generate_masked_value, masked};
use crate::models::{ApiKey, KeyView};

verus! {

/// Whether `c` is a digit or one of the letters `a` to `f`.
pub open spec fn is_lower_hex(c: char) -> bool {
    ('0' <= c && c <= '9') || ('a' <= c && c <= 'f')
}

/// The shape of an identifier: a version 4 UUID in its hyphenated lower-case
/// form, thirty-six characters in groups of 8, 4, 4, 4 and 12 hexadecimal
/// digits.
pub open spec fn is_identifier(text: Seq<char>) -> bool {
    &&& text.len() == 36
    &&& forall|i: int|
        #![trigger text[i]]
        0 <= i < 36 ==> if i == 8 || i == 13 || i == 18 || i == 23 {
            text[i] == '-'
        } else {
            is_lower_hex(text[i])
        }
    &&& text[14] == '4'
}

/// Whether `c` is a decimal digit.
pub open spec fn is_digit(c: char) -> bool {
    '0' <= c && c <= '9'
}

/// Whether `text` is laid out as a date, the letter `T` at index `split`, a
/// time of day, a fraction of `fraction` digits behind a point where
/// `fraction` is not zero, and the offset `+00:00`. The date ends in a year
/// of four digits, a month and a day; a year beyond 9999 has more in front.
pub open spec fn timestamp_laid_out(text: Seq<char>, split: int, fraction: int) -> bool {
    let end = split + 9 + if fraction == 0 { 0 } else { fraction + 1 };
    &&& split >= 10
    &&& fraction == 0 || fraction == 3 || fraction == 6 || fraction == 9
    &&& text.len() == end + 6
    &&& text[split - 6] == '-'
    &&& text[split - 3] == '-'
    &&& text[split] == 'T'
    &&& text[split + 3] == ':'
    &&& text[split + 6] == ':'
    &&& fraction > 0 ==> text[split + 9] == '.'
    &&& forall|i: int|
        #![trigger text[i]]
        split - 10 <= i < split + 9 && i != split - 6 && i != split - 3 && i != split && i
            != split + 3 && i != split + 6 ==> is_digit(text[i])
    &&& forall|i: int| #![trigger text[i]] split + 9 < i < end ==> is_digit(text[i])
    &&& text.subrange(end, end + 6) == seq!['+', '0', '0', ':', '0', '0']
}

/// The shape of a timestamp: an instant in UTC written as ISO 8601 with its
/// offset, to the second or with three, six or nine digits of a fraction.
pub open spec fn is_timestamp(text: Seq<char>) -> bool {
    exists|split: int, fraction: int| timestamp_laid_out(text, split, fraction)
}

/// The record that creation stores for `input`: identifier and timestamps
/// assigned, masked value derived, every other field as the caller gave it.
pub open spec fn created(input: KeyView, id: Seq<char>, now: Seq<char>) -> KeyView {
    KeyView { id, masked_value: masked(input.value), created_at: now, updated_at: now, ..input }
}

/// The record that an update stores for `input`: masked value derived again,
/// `updated_at` set, identifier and `created_at` untouched.
pub open spec fn refreshed(input: KeyView, now: Seq<char>) -> KeyView {
    KeyView { masked_value: masked(input.value), updated_at: now, ..input }
}

/// Draws a random identifier with `uuid::Uuid::new_v4` and renders it with
/// the UUID's `Display` impl, which writes the hyphenated lower-case form.
/// The draw panics where the operating system's random source reports an
/// error.
#[verifier::external_body]
pub(crate) fn fresh_identifier() -> (id: String)
    ensures
        is_identifier(id@),
{
    uuid::Uuid::new_v4().to_string()
}

/// Reads the clock with `chrono::Utc::now` and renders the instant with
/// `DateTime::to_rfc3339`, which writes the date, `T`, the time with as many
/// digits of a fraction as the instant needs, and the offset. Which instant
/// it is depends on the clock; only the shape is claimed. The reading
/// panics where the clock stands before 1970.
#[verifier::external_body]
pub(crate) fn current_timestamp() -> (now: String)
    ensures
        is_timestamp(now@),
{
    chrono::Utc::now().to_rfc3339()
}

/// Fills in what creation assigns.
pub fn stamp_created(key: ApiKey, id: String, now: String) -> (record: ApiKey)
    ensures
        record@ == created(key@, id@, now@),
{
    let masked_value = generate_masked_value(key.value.as_str());
    let updated_at = now.clone();
    ApiKey {
        id,
        name: key.name,
        vendor: key.vendor,
        value: key.value,
        masked_value,
        base_url: key.base_url,
        doc_url: key.doc_url,
        code_snippets: key.code_snippets,
        tags: key.tags,
        notes: key.notes,
        created_at: now,
        updated_at,
    }
}

/// Fills in what an update assigns.
pub fn stamp_updated(key: ApiKey, now: String) -> (record: ApiKey)
    ensures
        record@ == refreshed(key@, now@),
{
    let masked_value = generate_masked_value(key.value.as_str());
    ApiKey {
        id: key.id,
        name: key.name,
        vendor: key.vendor,
        value: key.value,
        masked_value,
        base_url: key.base_url,
        doc_url: key.doc_url,
        code_snippets: key.code_snippets,
        tags: key.tags,
        notes: key.notes,
        created_at: key.created_at,
        updated_at: now,
    }
}

} // verus!
