//! Time-windowed ownership policy for edits of shared, user-created records.
//!
//! The creator of a record may edit it for a fixed grace period after creating it; staff
//! may edit any record at any time; everyone else is turned away.

pub mod actor;
pub mod comment;
pub mod instant;
pub mod pipeline;
pub mod policy;
pub mod record;
