//! Inline-completion provider protocol.
//!
//! An editor surface asks an interchangeable suggestion engine for a single
//! "ghost text" edit proposal anchored at the cursor, and drives that engine
//! through a request/response lifecycle: enable-check, refresh, cycle between
//! alternatives, accept, discard. This crate holds the data model for proposed
//! edits, the capability contract every engine must meet, a reference engine
//! that realises the contract with monotone request sequencing, and the
//! handle that lets the editor drive any engine through one interface.

pub mod laws;
pub mod position;
pub mod proposal;
pub mod protocol;
pub mod provider;
pub mod sequenced;
pub mod testbench;
