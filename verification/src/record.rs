//! The click record and the fallback text for attributes nobody supplied.

use vstd::prelude::*;

verus! {

/// What is stored in place of an attribute that the request did not supply.
pub const UNKNOWN: &'static str = "unknown";

/// One observed click: who followed the link, from where, with which client.
#[derive(Debug, PartialEq, Eq)]
pub struct ClickRecord {
    /// The correlation value the caller supplied, exactly as received. A
    /// click that goes to the store never has an empty one.
    pub email: String,
    /// The caller's network address as the server saw it, or [`UNKNOWN`].
    pub ip_address: String,
    /// The caller's declared client agent, or [`UNKNOWN`].
    pub user_agent: String,
}

/// The mathematical content of a [`ClickRecord`].
pub struct ClickRecordView {
    pub email: Seq<char>,
    pub ip_address: Seq<char>,
    pub user_agent: Seq<char>,
}

impl View for ClickRecord {
    type V = ClickRecordView;

    open spec fn view(&self) -> ClickRecordView {
        ClickRecordView {
            email: self.email@,
            ip_address: self.ip_address@,
            user_agent: self.user_agent@,
        }
    }
}

/// A click as read back from the store, with the time the store gave it.
#[derive(Debug, PartialEq, Eq)]
pub struct StoredClick {
    pub record: ClickRecord,
    /// The insertion time, in the store's own textual form.
    pub clicked_at: String,
}

/// The mathematical content of a [`StoredClick`].
pub struct StoredClickView {
    pub record: ClickRecordView,
    pub clicked_at: Seq<char>,
}

impl View for StoredClick {
    type V = StoredClickView;

    open spec fn view(&self) -> StoredClickView {
        StoredClickView { record: self.record@, clicked_at: self.clicked_at@ }
    }
}

/// The text of an optional attribute: its value when there is one, else
/// [`UNKNOWN`].
pub open spec fn text_or_unknown(value: Option<Seq<char>>) -> Seq<char> {
    match value {
        Some(text) => text,
        None => UNKNOWN@,
    }
}

/// The fallback text has seven characters, so it is never empty.
pub proof fn lemma_unknown_is_not_empty()
    ensures
        UNKNOWN@.len() == 7,
{
    reveal_strlit("unknown");
}

/// Substitutes [`UNKNOWN`] for a missing attribute and keeps a present one
/// unchanged, even when it is empty.
pub fn or_unknown(value: Option<String>) -> (text: String)
    ensures
        text@ == text_or_unknown(value.deep_view()),
{
    match value {
        Some(text) => text,
        None => String::from_str(UNKNOWN),
    }
}

} // verus!
