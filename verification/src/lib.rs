//! Two-phase commit among a coordinator, a roster of participants and a
//! roster of clients.
//!
//! Each role is a state machine that owns no channel, no clock and no file.
//! It is handed what happened outside, one event at a time, and answers with
//! the messages that have to be sent; whoever runs it receives, sends, and
//! copies the role's log to disk before the messages of a step leave.
//!
//! - `message`: the wire value and its tags.
//! - `txid`: the text of transaction ids.
//! - `oplog`: the append-only log of a role.
//! - `channel`: peers, addressed messages, and what a receive can return.
//! - `chance`: probabilities and the samples they are compared to.
//! - `status`: the counts that a role reports, and the line that shows them.
//! - `coordinator`, `participant`, `client`: the three roles, each with the
//!   laws that hold of every run of it.
//! - `agreement`: what holds between the coordinator and a participant.

pub mod agreement;
pub mod chance;
pub mod channel;
pub mod client;
pub mod coordinator;
pub mod message;
pub mod oplog;
pub mod participant;
pub mod status;
pub mod txid;
