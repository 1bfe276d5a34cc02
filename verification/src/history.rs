//! Schema history: the rows of the well-known history table that records
//! which migrations have been applied, and the reader-side recovery that
//! turns a missing history table into an empty history on first run.

use vstd::prelude::*;

verus! {

/// One row of applied-migration history.
#[derive(Debug, Clone, PartialEq, Eq)]
pub struct MigrationRecord {
    /// Version of the migration this row records; unique within a history.
    pub version: u32,
    /// Human-readable label of the migration.
    pub name: String,
    /// When the migration ran, as the database reported it.
    pub applied_on: String,
    /// Content hash of the migration body, kept to detect drift; this crate
    /// carries it but does not check it.
    pub checksum: String,
}

/// The versions of a history, in row order.
pub open spec fn history_versions(h: Seq<MigrationRecord>) -> Seq<u32> {
    h.map_values(|r: MigrationRecord| r.version)
}

/// Whether some row of `h` carries version `v`.
pub open spec fn history_has_version(h: Seq<MigrationRecord>, v: u32) -> bool {
    exists|i: int| 0 <= i < h.len() && h[i].version == v
}

/// The kinds of database failure the startup sequence distinguishes.
#[derive(PartialEq, Eq, Structural, Clone, Copy, Debug)]
pub enum DbErrorKind {
    /// The history table does not exist yet; recovered as "first run".
    MissingHistoryTable,
    /// The connection was refused or lost.
    ConnectionFailed,
    /// Permission was denied for the query.
    PermissionDenied,
    /// Any other database failure, including a failing migration script.
    Other,
}

/// A database failure, classified by kind and carrying the driver's message.
#[derive(Debug, Clone, PartialEq, Eq)]
pub struct DbError {
    pub kind: DbErrorKind,
    pub detail: String,
}

/// The reader-side recovery for the schema history query.
///
/// On first-ever run the history table does not exist, and that failure is
/// not fatal: it is recovered as an empty history. Every other failure
/// propagates unchanged, and a successful read passes through unchanged.
pub fn recover_history_read(outcome: Result<Vec<MigrationRecord>, DbError>) -> (r: Result<
    Vec<MigrationRecord>,
    DbError,
>)
    ensures
        match outcome {
            Ok(h) => r == Result::<Vec<MigrationRecord>, DbError>::Ok(h),
            Err(e) => if e.kind == DbErrorKind::MissingHistoryTable {
                r matches Ok(h) && h@ =~= Seq::<MigrationRecord>::empty()
            } else {
                r == Result::<Vec<MigrationRecord>, DbError>::Err(e)
            },
        },
{
    match outcome {
        Ok(h) => Ok(h),
        Err(e) => {
            if e.kind == DbErrorKind::MissingHistoryTable {
                Ok(Vec::new())
            } else {
                Err(e)
            }
        },
    }
}

} // verus!
