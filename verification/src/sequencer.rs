//! The startup sequencer: a linear state machine that orders the startup
//! steps — connect, read history, apply pending migrations, read history
//! again, report the delta, start serving — and routes every failure into a
//! terminal `StartupFailed` phase, so the health endpoint can never become
//! reachable unless every migration step completed.
//!
//! The sequencer decides; the caller performs. Each call of [`Sequencer::step`]
//! consumes the outcome of the previous outside action (an [`Event`]) and
//! returns the next [`Action`] to perform. Database and network work never
//! happens inside this module.

use vstd::prelude::*;
use crate::source::{MigrationDef, source_wf};
use crate::history::{MigrationRecord, DbError};
use crate::applier::{pending_migrations, pending_spec};
use crate::delta::{DeltaReport, report_delta, delta_report_matches};

verus! {

/// The phases of the startup sequence, in the order they are passed through.
/// `StartupFailed` and `Serving` are terminal.
#[derive(PartialEq, Eq, Structural, Clone, Copy, Debug)]
pub enum Phase {
    Disconnected,
    Connected,
    HistoryReadBefore,
    MigrationsApplied,
    HistoryReadAfter,
    DeltaReported,
    Serving,
    StartupFailed,
}

/// The outcome of an outside action, as the caller reports it back.
#[derive(Debug, PartialEq, Eq)]
pub enum Event {
    /// The database connection is open.
    ConnectSucceeded,
    /// The database could not be reached.
    ConnectFailed(DbError),
    /// A history read completed with these rows; a missing history table has
    /// already been recovered to an empty history by the reader.
    HistoryRead(Vec<MigrationRecord>),
    /// A history read failed for a reason other than a missing table.
    HistoryReadFailed(DbError),
    /// Every pending migration was applied and recorded.
    MigrationsSucceeded,
    /// A migration script failed; the run stopped there.
    MigrationFailed(DbError),
    /// The delta report has been written to the log.
    DeltaLogged,
    /// The network listener is bound and announced.
    ServerStarted,
}

/// The next outside action the caller must perform.
#[derive(Debug, PartialEq, Eq)]
pub enum Action {
    /// Open the database connection.
    Connect,
    /// Read the schema history table.
    ReadHistory,
    /// Apply exactly these migrations, in this order, each atomically,
    /// stopping at the first failure.
    ApplyPending(Vec<MigrationDef>),
    /// Write this delta report to the log.
    EmitDelta(DeltaReport),
    /// Bind the network listener and announce it.
    StartServer,
    /// Serve traffic; startup is complete.
    Serve,
    /// Abort the process with a non-zero exit; startup failed.
    Abort,
}

/// The phase transition relation of the startup sequence. Every phase/event
/// pair not on the linear success path leads to the terminal
/// `StartupFailed`; `Serving` is terminal as well.
pub open spec fn next_phase(p: Phase, e: Event) -> Phase {
    match (p, e) {
        (Phase::Disconnected, Event::ConnectSucceeded) => Phase::Connected,
        (Phase::Connected, Event::HistoryRead(_)) => Phase::HistoryReadBefore,
        (Phase::HistoryReadBefore, Event::MigrationsSucceeded) => Phase::MigrationsApplied,
        (Phase::MigrationsApplied, Event::HistoryRead(_)) => Phase::HistoryReadAfter,
        (Phase::HistoryReadAfter, Event::DeltaLogged) => Phase::DeltaReported,
        (Phase::DeltaReported, Event::ServerStarted) => Phase::Serving,
        (Phase::Serving, _) => Phase::Serving,
        _ => Phase::StartupFailed,
    }
}

/// The phase after driving the machine from `p` through `events` in order.
pub open spec fn run_phases(p: Phase, events: Seq<Event>) -> Phase
    decreases events.len(),
{
    if events.len() == 0 {
        p
    } else {
        run_phases(next_phase(p, events[0]), events.drop_first())
    }
}

/// Whether the health endpoint answers in phase `p`.
pub open spec fn health_available(p: Phase) -> bool {
    p == Phase::Serving
}

/// The startup sequencer. It owns the embedded migration source and the two
/// history snapshots, and otherwise only decides.
pub struct Sequencer {
    /// Current phase.
    pub phase: Phase,
    /// The embedded migration source, fixed for the life of the sequencer.
    pub source: Vec<MigrationDef>,
    /// The history snapshot read before the applier ran.
    pub before: Option<Vec<MigrationRecord>>,
    /// The history snapshot read after the applier ran.
    pub after: Option<Vec<MigrationRecord>>,
}

/// How a step moves the stored snapshots: the first history read is kept as
/// the before-snapshot, the second as the after-snapshot, and nothing else
/// changes them.
pub open spec fn step_snapshots_ok(pre: Sequencer, e: Event, post: Sequencer) -> bool {
    match (pre.phase, e) {
        (Phase::Connected, Event::HistoryRead(h)) => post.before == Some(h) && post.after
            == pre.after,
        (Phase::MigrationsApplied, Event::HistoryRead(h)) => post.after == Some(h) && post.before
            == pre.before,
        _ => post.before == pre.before && post.after == pre.after,
    }
}

/// Which action a step must hand back for each phase/event pair. On the
/// success path the actions follow the startup order; everywhere else the
/// caller is told to abort, except once `Serving`, where it keeps serving.
pub open spec fn step_action_ok(pre: Sequencer, e: Event, a: Action) -> bool {
    match (pre.phase, e) {
        (Phase::Disconnected, Event::ConnectSucceeded) => a == Action::ReadHistory,
        (Phase::Connected, Event::HistoryRead(h)) => {
            &&& a matches Action::ApplyPending(p)
            &&& p@ == pending_spec(pre.source@, h@)
        },
        (Phase::HistoryReadBefore, Event::MigrationsSucceeded) => a == Action::ReadHistory,
        (Phase::MigrationsApplied, Event::HistoryRead(h)) => {
            &&& a matches Action::EmitDelta(d)
            &&& match pre.before {
                Some(b) => delta_report_matches(b@, h@, d),
                None => d == DeltaReport::NoMigrations,
            }
        },
        (Phase::HistoryReadAfter, Event::DeltaLogged) => a == Action::StartServer,
        (Phase::DeltaReported, Event::ServerStarted) => a == Action::Serve,
        (Phase::Serving, _) => a == Action::Serve,
        _ => a == Action::Abort,
    }
}

impl Sequencer {
    /// Builds a sequencer over the embedded migration source. The source
    /// must list its migrations in strictly ascending version order;
    /// anything else is rejected here, before any database work.
    pub fn new(source: Vec<MigrationDef>) -> (r: Option<Sequencer>)
        ensures
            r is Some <==> source_wf(source@),
            r matches Some(s) ==> {
                &&& s.phase == Phase::Disconnected
                &&& s.source == source
                &&& s.before is None
                &&& s.after is None
            },
    {
        if crate::source::check_source(&source) {
            Some(Sequencer { phase: Phase::Disconnected, source, before: None, after: None })
        } else {
            None
        }
    }

    /// The first action of every startup: open the database connection.
    pub fn initial_action(&self) -> (a: Action)
        ensures
            a == Action::Connect,
    {
        Action::Connect
    }

    /// Advances the machine by one event and decides the next action.
    ///
    /// The phase moves along `next_phase`; the first history read is stored
    /// as the before-snapshot and the second as the after-snapshot; the
    /// returned action carries exactly the pending migrations respectively
    /// the delta report computed from the stored snapshots.
    pub fn step(&mut self, event: Event) -> (a: Action)
        ensures
            final(self).phase == next_phase(old(self).phase, event),
            final(self).source == old(self).source,
            step_snapshots_ok(*old(self), event, *final(self)),
            step_action_ok(*old(self), event, a),
    {
        match (self.phase, event) {
            (Phase::Disconnected, Event::ConnectSucceeded) => {
                self.phase = Phase::Connected;
                Action::ReadHistory
            },
            (Phase::Connected, Event::HistoryRead(h)) => {
                let p = pending_migrations(&self.source, &h);
                self.before = Some(h);
                self.phase = Phase::HistoryReadBefore;
                Action::ApplyPending(p)
            },
            (Phase::HistoryReadBefore, Event::MigrationsSucceeded) => {
                self.phase = Phase::MigrationsApplied;
                Action::ReadHistory
            },
            (Phase::MigrationsApplied, Event::HistoryRead(h)) => {
                let d = match &self.before {
                    Some(b) => report_delta(b, &h),
                    None => DeltaReport::NoMigrations,
                };
                self.after = Some(h);
                self.phase = Phase::HistoryReadAfter;
                Action::EmitDelta(d)
            },
            (Phase::HistoryReadAfter, Event::DeltaLogged) => {
                self.phase = Phase::DeltaReported;
                Action::StartServer
            },
            (Phase::DeltaReported, Event::ServerStarted) => {
                self.phase = Phase::Serving;
                Action::Serve
            },
            (Phase::Serving, _) => { Action::Serve },
            _ => {
                self.phase = Phase::StartupFailed;
                Action::Abort
            },
        }
    }

    /// Answers a liveness request: a fixed success status with an empty
    /// body, and only once the sequencer is serving. In any earlier or
    /// failed phase there is no response — the listener is not up.
    pub fn health_response(&self) -> (r: Option<HealthResponse>)
        ensures
            r is Some <==> health_available(self.phase),
            r matches Some(h) ==> h.status == 200 && h.body@ == Seq::<char>::empty(),
    {
        match self.phase {
            Phase::Serving => Some(HealthResponse { status: 200, body: String::new() }),
            _ => None,
        }
    }
}

/// A response of the health endpoint: a status code and a body.
#[derive(Debug, PartialEq, Eq)]
pub struct HealthResponse {
    pub status: u16,
    pub body: String,
}

} // verus!
