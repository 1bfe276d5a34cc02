//! The migration delta reporter: diffs the history-table contents captured
//! before and after the applier ran, to report the newly-applied migrations.

use vstd::prelude::*;
use crate::history::{MigrationRecord, history_has_version};

verus! {

/// A newly-applied migration, as the delta reporter identifies it.
#[derive(Debug, Clone, PartialEq, Eq)]
pub struct AppliedMigration {
    pub version: u32,
    pub name: String,
}

/// What the delta reporter found.
#[derive(Debug, Clone, PartialEq, Eq)]
pub enum DeltaReport {
    /// No migration was newly applied; callers emit a single notice.
    NoMigrations,
    /// The newly-applied migrations, in the order the after-history lists
    /// them.
    Applied(Vec<AppliedMigration>),
}

/// How `Seq::filter` acts on a one-element sequence: the element is kept
/// exactly when the predicate holds of it.
pub proof fn lemma_filter_singleton<A>(x: A, pred: spec_fn(A) -> bool)
    ensures
        pred(x) ==> seq![x].filter(pred) =~= seq![x],
        !pred(x) ==> seq![x].filter(pred) =~= Seq::<A>::empty(),
{
    reveal_with_fuel(Seq::<_>::filter, 2);
    assert(seq![x].drop_last() =~= Seq::<A>::empty());
    assert(seq![x].last() == x);
}

/// `Seq::filter` keeps a sequence it is true of everywhere.
pub proof fn lemma_filter_all<A>(s: Seq<A>, pred: spec_fn(A) -> bool)
    requires
        forall|i: int| 0 <= i < s.len() ==> pred(#[trigger] s[i]),
    ensures
        s.filter(pred) == s,
    decreases s.len(),
{
    reveal(Seq::filter);
    if s.len() > 0 {
        lemma_filter_all(s.drop_last(), pred);
        assert(pred(s.last()));
        assert(s.filter(pred) =~= s);
    } else {
        assert(s.filter(pred) =~= s);
    }
}

/// `Seq::filter` empties a sequence it is false of everywhere.
pub proof fn lemma_filter_none<A>(s: Seq<A>, pred: spec_fn(A) -> bool)
    requires
        forall|i: int| 0 <= i < s.len() ==> !pred(#[trigger] s[i]),
    ensures
        s.filter(pred) == Seq::<A>::empty(),
    decreases s.len(),
{
    reveal(Seq::filter);
    if s.len() > 0 {
        lemma_filter_none(s.drop_last(), pred);
    }
    assert(s.filter(pred) =~= Seq::<A>::empty());
}

/// Every element `Seq::filter` keeps comes from the filtered sequence.
pub proof fn lemma_filter_members<A>(s: Seq<A>, pred: spec_fn(A) -> bool)
    ensures
        forall|i: int|
            0 <= i < s.filter(pred).len() ==> s.contains(#[trigger] s.filter(pred)[i]),
    decreases s.len(),
{
    reveal(Seq::filter);
    if s.len() > 0 {
        lemma_filter_members(s.drop_last(), pred);
        let sub = s.drop_last().filter(pred);
        assert forall|i: int| 0 <= i < s.filter(pred).len() implies s.contains(
            #[trigger] s.filter(pred)[i],
        ) by {
            if i < sub.len() {
                assert(s.filter(pred)[i] == sub[i]);
                assert(s.drop_last().contains(sub[i]));
                let j = choose|j: int|
                    0 <= j < s.drop_last().len() && s.drop_last()[j] == sub[i];
                assert(s[j] == sub[i]);
            } else {
                assert(s.filter(pred)[i] == s.last());
                assert(s[s.len() - 1] == s.last());
            }
        }
    }
}

/// The rows of `after` whose version is absent from `before`, in order.
pub open spec fn delta_records(before: Seq<MigrationRecord>, after: Seq<MigrationRecord>) -> Seq<
    MigrationRecord,
> {
    after.filter(|m: MigrationRecord| !history_has_version(before, m.version))
}

/// Whether `r` reports exactly the rows of `after` missing from `before`.
///
/// An `after` shorter than `before` is impossible under the append-only
/// history invariant; the reporter treats it defensively as "no migrations
/// applied" rather than computing a garbage delta.
pub open spec fn delta_report_matches(
    before: Seq<MigrationRecord>,
    after: Seq<MigrationRecord>,
    r: DeltaReport,
) -> bool {
    if after.len() < before.len() || delta_records(before, after).len() == 0 {
        r == DeltaReport::NoMigrations
    } else {
        &&& r matches DeltaReport::Applied(v)
        &&& v@.len() == delta_records(before, after).len()
        &&& forall|i: int| 0 <= i < v@.len() ==> {
            &&& (#[trigger] v@[i]).version == delta_records(before, after)[i].version
            &&& v@[i].name@ == delta_records(before, after)[i].name@
        }
    }
}

/// Diffs two history snapshots: reports the version-name pairs of `after`
/// whose version is absent from `before`, or `NoMigrations` when there are
/// none (or when `after` is shorter than `before`, a state the append-only
/// invariant rules out and the reporter survives defensively).
#[verifier::loop_isolation(false)]
pub fn report_delta(before: &Vec<MigrationRecord>, after: &Vec<MigrationRecord>) -> (r:
    DeltaReport)
    ensures
        delta_report_matches(before@, after@, r),
{
    broadcast use vstd::seq_lib::group_filter_ensures;

    let ghost pred = |m: MigrationRecord| !history_has_version(before@, m.version);
    if after.len() < before.len() {
        return DeltaReport::NoMigrations;
    }
    let mut found: Vec<AppliedMigration> = Vec::new();
    let mut i: usize = 0;
    while i < after.len()
        invariant
            i <= after.len(),
            found@.len() == after@.take(i as int).filter(pred).len(),
            forall|k: int| 0 <= k < found@.len() ==> {
                &&& (#[trigger] found@[k]).version == after@.take(i as int).filter(pred)[k].version
                &&& found@[k].name@ == after@.take(i as int).filter(pred)[k].name@
            },
        decreases after.len() - i,
    {
        let applied_before = contains_version(before, after[i].version);
        proof {
            assert(after@.take(i as int + 1) =~= after@.take(i as int) + seq![after@[i as int]]);
            Seq::<MigrationRecord>::filter_distributes_over_add(
                after@.take(i as int),
                seq![after@[i as int]],
                pred,
            );
            lemma_filter_singleton(after@[i as int], pred);
        }
        if !applied_before {
            found.push(
                AppliedMigration { version: after[i].version, name: after[i].name.clone() },
            );
        }
        i = i + 1;
    }
    proof {
        assert(after@.take(after@.len() as int) =~= after@);
    }
    if found.len() == 0 {
        DeltaReport::NoMigrations
    } else {
        DeltaReport::Applied(found)
    }
}

/// Whether some row of `history` carries version `v`.
pub fn contains_version(history: &Vec<MigrationRecord>, v: u32) -> (r: bool)
    ensures
        r == history_has_version(history@, v),
{
    let mut i: usize = 0;
    while i < history.len()
        invariant
            i <= history.len(),
            forall|k: int| 0 <= k < i ==> history@[k].version != v,
        decreases history.len() - i,
    {
        if history[i].version == v {
            return true;
        }
        i = i + 1;
    }
    false
}

} // verus!
