//! The relational store as this service uses it: one table, three
//! statements, and the two ways a store operation can fail.

use crate::record::{ClickRecord, ClickRecordView, StoredClick, StoredClickView};
use vstd::prelude::*;

verus! {

/// Creates the table of clicks unless it is there already, so that running it
/// again changes nothing. The store numbers the rows and stamps each with its
/// insertion time.
pub const CREATE_TABLE: &'static str = r"CREATE TABLE IF NOT EXISTS phishing_clicks (
            id INT AUTO_INCREMENT PRIMARY KEY,
            email VARCHAR(255) NOT NULL,
            ip_address VARCHAR(50) NOT NULL,
            user_agent TEXT NOT NULL,
            clicked_at TIMESTAMP DEFAULT CURRENT_TIMESTAMP
        )";

/// Inserts one click. Its three placeholders take the values of
/// [`insert_params`], in that order.
pub const INSERT_CLICK: &'static str =
    "INSERT INTO phishing_clicks (email, ip_address, user_agent) VALUES (?, ?, ?)";

/// Reads every click, newest first. Each row has the four columns that
/// [`stored_click`] takes, in that order.
pub const SELECT_CLICKS: &'static str =
    "SELECT email, ip_address, user_agent, clicked_at FROM phishing_clicks ORDER BY clicked_at DESC";

/// Why a store operation failed.
#[derive(Debug, Clone, Copy, PartialEq, Eq, Structural)]
pub enum StoreError {
    /// No connection to the store could be had.
    Connectivity,
    /// The store refused or could not complete the statement.
    Operation,
}

/// The values for the placeholders of [`INSERT_CLICK`]: email, address,
/// client agent.
pub fn insert_params(record: ClickRecord) -> (params: (String, String, String))
    ensures
        params.0@ == record@.email,
        params.1@ == record@.ip_address,
        params.2@ == record@.user_agent,
{
    (record.email, record.ip_address, record.user_agent)
}

/// The click that a row of [`SELECT_CLICKS`] stands for.
pub fn stored_click(row: (String, String, String, String)) -> (click: StoredClick)
    ensures
        click@ == (StoredClickView {
            record: ClickRecordView { email: row.0@, ip_address: row.1@, user_agent: row.2@ },
            clicked_at: row.3@,
        }),
{
    StoredClick {
        record: ClickRecord { email: row.0, ip_address: row.1, user_agent: row.2 },
        clicked_at: row.3,
    }
}

} // verus!
