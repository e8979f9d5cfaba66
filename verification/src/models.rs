//! The record kept for each credential, and its mathematical model.

use vstd::prelude::*;
use crate::masking::masked;

verus! {

/// One credential entry.
///
/// `id`, `masked_value`, `created_at` and `updated_at` are assigned by the
/// store; whatever a caller puts there is overwritten when the record is
/// written. `code_snippets` and `tags` carry text that the caller has already
/// encoded; the store never looks inside it.
#[derive(Clone, Debug, PartialEq, Eq)]
pub struct ApiKey {
    pub id: String,
    pub name: String,
    pub vendor: String,
    pub value: String,
    pub masked_value: String,
    pub base_url: Option<String>,
    pub doc_url: Option<String>,
    pub code_snippets: Option<String>,
    pub tags: Option<String>,
    pub notes: Option<String>,
    pub created_at: String,
    pub updated_at: String,
}

/// The model of an [`ApiKey`]: every text as its sequence of characters.
pub ghost struct KeyView {
    pub id: Seq<char>,
    pub name: Seq<char>,
    pub vendor: Seq<char>,
    pub value: Seq<char>,
    pub masked_value: Seq<char>,
    pub base_url: Option<Seq<char>>,
    pub doc_url: Option<Seq<char>>,
    pub code_snippets: Option<Seq<char>>,
    pub tags: Option<Seq<char>>,
    pub notes: Option<Seq<char>>,
    pub created_at: Seq<char>,
    pub updated_at: Seq<char>,
}

impl KeyView {
    /// Whether the masked value is the one derived from the secret. It holds
    /// of every record that the store writes.
    pub open spec fn mask_consistent(self) -> bool {
        self.masked_value == masked(self.value)
    }
}

impl View for ApiKey {
    type V = KeyView;

    open spec fn view(&self) -> KeyView {
        KeyView {
            id: self.id@,
            name: self.name@,
            vendor: self.vendor@,
            value: self.value@,
            masked_value: self.masked_value@,
            base_url: self.base_url.deep_view(),
            doc_url: self.doc_url.deep_view(),
            code_snippets: self.code_snippets.deep_view(),
            tags: self.tags.deep_view(),
            notes: self.notes.deep_view(),
            created_at: self.created_at@,
            updated_at: self.updated_at@,
        }
    }
}

} // verus!
