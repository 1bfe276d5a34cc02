//! The laws the startup pipeline obeys, each stated and proved over the
//! spec functions that the executable contracts use: what the delta
//! reporter reports, that a second applier run is a no-op, what a first run
//! applies, the ordering of recorded versions, and that a startup failure
//! keeps the health endpoint unreachable for good.

use vstd::prelude::*;
use crate::source::{MigrationDef, source_wf, source_versions};
use crate::history::{MigrationRecord, history_versions, history_has_version};
use crate::applier::pending_spec;
use crate::delta::{delta_records, lemma_filter_all, lemma_filter_none, lemma_filter_members};
use crate::sequencer::{Phase, Event, next_phase, run_phases, health_available};

verus! {

/// A version list in strictly ascending order.
pub open spec fn strictly_ascending(vs: Seq<u32>) -> bool {
    forall|i: int, j: int| 0 <= i < j < vs.len() ==> vs[i] < vs[j]
}

/// Law: the delta reporter's output is exactly the rows of `after` whose
/// version is absent from `before` — every reported row is such a row, every
/// such row is reported — and identical snapshots leave nothing to report,
/// so `report_delta` then returns the single `NoMigrations` notice.
pub proof fn lemma_delta_characterises(before: Seq<MigrationRecord>, after: Seq<MigrationRecord>)
    ensures
        forall|i: int| 0 <= i < delta_records(before, after).len() ==> {
            &&& after.contains(#[trigger] delta_records(before, after)[i])
            &&& !history_has_version(before, delta_records(before, after)[i].version)
        },
        forall|i: int|
            0 <= i < after.len() && !history_has_version(before, (#[trigger] after[i]).version)
                ==> delta_records(before, after).contains(after[i]),
        after == before ==> delta_records(before, after) == Seq::<MigrationRecord>::empty(),
{
    broadcast use vstd::seq_lib::group_filter_ensures;

    let pred = |m: MigrationRecord| !history_has_version(before, m.version);
    lemma_filter_members(after, pred);
    if after == before {
        assert forall|i: int| 0 <= i < after.len() implies !pred(after[i]) by {
            assert(before[i].version == after[i].version);
        }
        lemma_filter_none(after, pred);
    }
}

/// Law: the applier is idempotent. One run applies every pending migration,
/// so a history that records the old rows plus the pending ones leaves the
/// next run with nothing to do — the second run is a no-op.
pub proof fn lemma_applier_idempotent(
    source: Seq<MigrationDef>,
    h0: Seq<MigrationRecord>,
    h1: Seq<MigrationRecord>,
)
    requires
        history_versions(h1) == history_versions(h0) + source_versions(
            pending_spec(source, h0),
        ),
    ensures
        pending_spec(source, h1) == Seq::<MigrationDef>::empty(),
{
    broadcast use vstd::seq_lib::group_filter_ensures;

    let pred1 = |d: MigrationDef| !history_has_version(h1, d.version);
    let pred0 = |d: MigrationDef| !history_has_version(h0, d.version);
    let pending0 = pending_spec(source, h0);
    assert forall|i: int| 0 <= i < source.len() implies !pred1(source[i]) by {
        let v = source[i].version;
        assert(history_versions(h1).len() == h1.len());
        assert(history_versions(h0).len() == h0.len());
        assert(source_versions(pending0).len() == pending0.len());
        if history_has_version(h0, v) {
            let j = choose|j: int| 0 <= j < h0.len() && h0[j].version == v;
            assert(history_versions(h0)[j] == v);
            assert(history_versions(h1)[j] == history_versions(h0)[j]);
            assert(h1[j].version == v);
        } else {
            assert(pred0(source[i]));
            assert(pending0.contains(source[i]));
            let k = choose|k: int| 0 <= k < pending0.len() && pending0[k] == source[i];
            assert(source_versions(pending0)[k] == v);
            assert(history_versions(h1)[h0.len() + k] == source_versions(pending0)[k]);
            assert(h1[h0.len() + k].version == v);
        }
    }
    lemma_filter_none(source, pred1);
}

/// Law: on a first run — no history recorded yet — every migration of the
/// source is pending, in the source's declared order.
pub proof fn lemma_first_run_applies_all(source: Seq<MigrationDef>)
    ensures
        pending_spec(source, Seq::<MigrationRecord>::empty()) == source,
{
    let pred = |d: MigrationDef| !history_has_version(
        Seq::<MigrationRecord>::empty(),
        d.version,
    );
    assert forall|i: int| 0 <= i < source.len() implies pred(source[i]) by {
        assert(!history_has_version(Seq::<MigrationRecord>::empty(), source[i].version));
    }
    lemma_filter_all(source, pred);
}

/// Law: the ordering invariant. When the recorded versions are a prefix of
/// the source's declared version list, one applier run extends them to
/// exactly that list — history rows are assigned versions in strictly
/// ascending order, matching the source's declared order.
pub proof fn lemma_ordering_invariant(source: Seq<MigrationDef>, history: Seq<MigrationRecord>)
    requires
        source_wf(source),
        history.len() <= source.len(),
        history_versions(history) == source_versions(source).take(history.len() as int),
    ensures
        history_versions(history) + source_versions(pending_spec(source, history))
            == source_versions(source),
        strictly_ascending(
            history_versions(history) + source_versions(pending_spec(source, history)),
        ),
{
    broadcast use vstd::seq_lib::group_filter_ensures;

    let k = history.len() as int;
    let pred = |d: MigrationDef| !history_has_version(history, d.version);
    let head = source.take(k);
    let tail = source.skip(k);
    assert(source =~= head + tail);
    Seq::<MigrationDef>::filter_distributes_over_add(head, tail, pred);
    assert forall|i: int| 0 <= i < head.len() implies !pred(head[i]) by {
        assert(head[i] == source[i]);
        assert(history_versions(history)[i] == source_versions(source).take(k)[i]);
        assert(history[i].version == source[i].version);
    }
    lemma_filter_none(head, pred);
    assert forall|i: int| 0 <= i < tail.len() implies pred(tail[i]) by {
        assert(tail[i] == source[k + i]);
        let v = source[k + i].version;
        if history_has_version(history, v) {
            let j = choose|j: int| 0 <= j < history.len() && history[j].version == v;
            assert(history_versions(history)[j] == v);
            assert(source[j].version == v);
            assert(source[j].version < source[k + i].version);
        }
    }
    lemma_filter_all(tail, pred);
    assert(pending_spec(source, history) == tail);
    assert(history_versions(history) + source_versions(pending_spec(source, history))
        =~= source_versions(source));
}

/// Law: `StartupFailed` is terminal — no sequence of later events leads
/// anywhere else.
pub proof fn lemma_startup_failed_terminal(events: Seq<Event>)
    ensures
        run_phases(Phase::StartupFailed, events) == Phase::StartupFailed,
    decreases events.len(),
{
    if events.len() > 0 {
        lemma_startup_failed_terminal(events.drop_first());
    }
}

/// Law: failure propagation. Once any step fails — a refused connection, a
/// fatal history read, a migration whose script is invalid — the machine is
/// in `StartupFailed`, stays there under every later event sequence, and the
/// health endpoint never becomes reachable.
pub proof fn lemma_failure_blocks_serving(p: Phase, e: Event, events: Seq<Event>)
    requires
        next_phase(p, e) == Phase::StartupFailed,
    ensures
        forall|n: int| 0 <= n <= events.len() ==> run_phases(
            next_phase(p, e),
            #[trigger] events.take(n),
        ) == Phase::StartupFailed,
        forall|n: int| 0 <= n <= events.len() ==> !health_available(
            run_phases(next_phase(p, e), #[trigger] events.take(n)),
        ),
{
    assert forall|n: int| 0 <= n <= events.len() implies run_phases(
        next_phase(p, e),
        #[trigger] events.take(n),
    ) == Phase::StartupFailed by {
        lemma_startup_failed_terminal(events.take(n));
    }
}

/// Law: the success path is live. From `Disconnected`, the six outcomes of
/// a clean startup — connection up, first history read, migrations applied,
/// second history read, delta logged, server started — reach `Serving`,
/// whatever the two history snapshots hold.
pub proof fn lemma_clean_startup_serves(h1: Vec<MigrationRecord>, h2: Vec<MigrationRecord>)
    ensures
        run_phases(
            Phase::Disconnected,
            seq![
                Event::ConnectSucceeded,
                Event::HistoryRead(h1),
                Event::MigrationsSucceeded,
                Event::HistoryRead(h2),
                Event::DeltaLogged,
                Event::ServerStarted,
            ],
        ) == Phase::Serving,
{
    reveal_with_fuel(run_phases, 7);
}

/// Law: `Serving` is entered only by the `ServerStarted` event from
/// `DeltaReported` — after the delta was reported, hence after every pending
/// migration was applied — or kept once reached.
pub proof fn lemma_serving_only_after_start(p: Phase, e: Event)
    ensures
        next_phase(p, e) == Phase::Serving ==> p == Phase::Serving || (p == Phase::DeltaReported
            && e == Event::ServerStarted),
{
}

} // verus!
