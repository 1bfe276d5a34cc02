//! The migration source: the fixed, ordered list of schema migrations the
//! service ships with. Each migration carries a version, a human-readable
//! name and the SQL script that realises it.

use vstd::prelude::*;

verus! {

/// One migration definition from the embedded migration source.
#[derive(Debug, Clone, PartialEq, Eq)]
pub struct MigrationDef {
    /// Unique version, assigned at definition time; the source lists
    /// migrations in strictly ascending version order.
    pub version: u32,
    /// Human-readable label.
    pub name: String,
    /// The SQL script that performs the migration.
    pub sql: String,
}

impl MigrationDef {
    /// An exact copy of this definition.
    pub fn duplicate(&self) -> (r: MigrationDef)
        ensures
            r == *self,
    {
        MigrationDef { version: self.version, name: self.name.clone(), sql: self.sql.clone() }
    }
}

/// The versions of a migration source, in list order.
pub open spec fn source_versions(s: Seq<MigrationDef>) -> Seq<u32> {
    s.map_values(|d: MigrationDef| d.version)
}

/// A well-formed source lists its migrations in strictly ascending version
/// order; in particular all versions are distinct.
pub open spec fn source_wf(s: Seq<MigrationDef>) -> bool {
    forall|i: int, j: int| 0 <= i < j < s.len() ==> s[i].version < s[j].version
}

/// Decides whether a migration list is a well-formed source (strictly
/// ascending versions).
pub fn check_source(source: &Vec<MigrationDef>) -> (r: bool)
    ensures
        r == source_wf(source@),
{
    let mut i: usize = 1;
    while i < source.len()
        invariant
            1 <= i,
            i <= source.len() || source.len() == 0,
            forall|p: int, q: int| 0 <= p < q < i && q < source@.len()
                ==> source@[p].version < source@[q].version,
        decreases source.len() - i,
    {
        if source[i - 1].version >= source[i].version {
            return false;
        }
        assert forall|p: int, q: int| 0 <= p < q < i + 1 implies
            source@[p].version < source@[q].version by {
            if q == i {
                // climb from p to q through adjacent pairs
                assert(source@[p].version < source@[i - 1].version || p == i - 1);
            }
        }
        i = i + 1;
    }
    true
}

} // verus!
