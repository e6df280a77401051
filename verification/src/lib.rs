//! Click tracking for a phishing-awareness exercise: the rules that turn a
//! visit to the tracked link into a stored record, and the stored records into
//! the operator's report. Talking to the network and to the database is left
//! to the program that embeds this crate; what is here works on plain values
//! and states its behaviour in contracts that Verus proves. Two things are
//! taken on trust: the call of the MySQL client's parser for connection
//! URLs, of which nothing is claimed, and that `String::push` appends its
//! character.

pub mod config;
pub mod header;
pub mod record;
pub mod report;
pub mod response;
pub mod store;
pub mod visit;
