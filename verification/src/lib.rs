//! Startup sequencing for a database-backed service: embedded schema
//! migrations are applied before the health endpoint ever becomes reachable.
//!
//! The crate models the startup pipeline as verified, pure logic: the
//! migration source, the schema-history rows, the pending-migration
//! selection, the before/after delta report, and the linear startup state
//! machine. All database and network I/O stays outside; callers perform the
//! actions this library decides on and feed the outcomes back in as events.

pub mod applier;
pub mod delta;
pub mod history;
pub mod laws;
pub mod report;
pub mod sequencer;
pub mod source;
