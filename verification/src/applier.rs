//! The migration applier's decision core: from the embedded source and the
//! current history, select the pending migrations — exactly those whose
//! version is absent from history — in ascending source order. Executing
//! their SQL is the caller's outside work; recording each application is the
//! database's.

use vstd::prelude::*;
use crate::source::MigrationDef;
use crate::history::{MigrationRecord, history_has_version};
use crate::delta::contains_version;

verus! {

/// The migrations of `source` not yet recorded in `history`, in source
/// order.
pub open spec fn pending_spec(source: Seq<MigrationDef>, history: Seq<MigrationRecord>) -> Seq<
    MigrationDef,
> {
    source.filter(|d: MigrationDef| !history_has_version(history, d.version))
}

/// Selects the pending migrations: every migration of `source` whose version
/// is not yet present in `history`, in the order the source declares them.
/// With zero pending migrations the result is empty and a run applying it is
/// a no-op.
#[verifier::loop_isolation(false)]
pub fn pending_migrations(source: &Vec<MigrationDef>, history: &Vec<MigrationRecord>) -> (p: Vec<
    MigrationDef,
>)
    ensures
        p@ =~= pending_spec(source@, history@),
{
    broadcast use vstd::seq_lib::group_filter_ensures;

    let ghost pred = |d: MigrationDef| !history_has_version(history@, d.version);
    let mut p: Vec<MigrationDef> = Vec::new();
    let mut i: usize = 0;
    while i < source.len()
        invariant
            i <= source.len(),
            p@ =~= source@.take(i as int).filter(pred),
        decreases source.len() - i,
    {
        let applied = contains_version(history, source[i].version);
        proof {
            assert(source@.take(i as int + 1) =~= source@.take(i as int) + seq![
                source@[i as int],
            ]);
            Seq::<MigrationDef>::filter_distributes_over_add(
                source@.take(i as int),
                seq![source@[i as int]],
                pred,
            );
            crate::delta::lemma_filter_singleton(source@[i as int], pred);
        }
        if !applied {
            p.push(source[i].duplicate());
        }
        i = i + 1;
    }
    proof {
        assert(source@.take(source@.len() as int) =~= source@);
    }
    p
}

} // verus!
