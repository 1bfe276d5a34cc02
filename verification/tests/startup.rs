use migration_startup::applier::pending_migrations;
use migration_startup::delta::{report_delta, AppliedMigration, DeltaReport};
use migration_startup::history::{recover_history_read, DbError, DbErrorKind, MigrationRecord};
use migration_startup::report::{
    decimal_string, delta_log_lines, migrations_finished_line, migrations_start_line,
    no_migrations_line, render_applied_line, server_start_line,
};
use migration_startup::sequencer::{Action, Event, Phase, Sequencer};
use migration_startup::source::{check_source, MigrationDef};

fn def(version: u32, name: &str) -> MigrationDef {
    MigrationDef {
        version,
        name: String::from(name),
        sql: format!("CREATE TABLE t{} (id INT)", version),
    }
}

fn row(version: u32, name: &str) -> MigrationRecord {
    MigrationRecord {
        version,
        name: String::from(name),
        applied_on: String::from("2024-01-01T00:00:00Z"),
        checksum: format!("sum{}", version),
    }
}

fn sample_source() -> Vec<MigrationDef> {
    vec![def(1, "initial"), def(2, "add_users"), def(3, "add_index")]
}

fn err(kind: DbErrorKind, detail: &str) -> DbError {
    DbError { kind, detail: String::from(detail) }
}

// Rows the applier would record for every pending migration, in order.
fn rows_for(defs: &[MigrationDef]) -> Vec<MigrationRecord> {
    defs.iter().map(|d| row(d.version, d.name.as_str())).collect()
}

#[test]
fn delta_reports_new_version_name_pairs() {
    let before = vec![row(1, "initial")];
    let after = vec![row(1, "initial"), row(2, "add_users"), row(3, "add_index")];
    let report = report_delta(&before, &after);
    let expected = vec![
        AppliedMigration { version: 2, name: String::from("add_users") },
        AppliedMigration { version: 3, name: String::from("add_index") },
    ];
    assert_eq!(report, DeltaReport::Applied(expected));
}

#[test]
fn delta_of_identical_histories_is_the_notice() {
    let before = vec![row(1, "initial"), row(2, "add_users")];
    let after = vec![row(1, "initial"), row(2, "add_users")];
    assert_eq!(report_delta(&before, &after), DeltaReport::NoMigrations);
}

#[test]
fn delta_of_empty_histories_is_the_notice() {
    let before: Vec<MigrationRecord> = Vec::new();
    let after: Vec<MigrationRecord> = Vec::new();
    assert_eq!(report_delta(&before, &after), DeltaReport::NoMigrations);
}

#[test]
fn delta_shrunken_after_is_treated_defensively() {
    // `after` shorter than `before` cannot happen under the append-only
    // invariant; the reporter must not compute a garbage delta.
    let before = vec![row(1, "initial"), row(2, "add_users")];
    let after = vec![row(1, "initial")];
    assert_eq!(report_delta(&before, &after), DeltaReport::NoMigrations);
}

#[test]
fn first_run_recovers_missing_table_as_empty_history() {
    let outcome = recover_history_read(Err(err(
        DbErrorKind::MissingHistoryTable,
        "relation \"refinery_schema_history\" does not exist",
    )));
    assert_eq!(outcome, Ok(Vec::new()));
}

#[test]
fn successful_read_passes_through_unchanged() {
    let rows = vec![row(1, "initial")];
    let outcome = recover_history_read(Ok(rows.clone()));
    assert_eq!(outcome, Ok(rows));
}

#[test]
fn connection_error_propagates_from_reader() {
    let e = err(DbErrorKind::ConnectionFailed, "connection refused");
    let outcome = recover_history_read(Err(e));
    assert_eq!(outcome, Err(err(DbErrorKind::ConnectionFailed, "connection refused")));
}

#[test]
fn permission_error_propagates_from_reader() {
    let e = err(DbErrorKind::PermissionDenied, "permission denied for table");
    let outcome = recover_history_read(Err(e));
    assert_eq!(outcome, Err(err(DbErrorKind::PermissionDenied, "permission denied for table")));
}

#[test]
fn other_error_propagates_from_reader() {
    let e = err(DbErrorKind::Other, "syntax error");
    let outcome = recover_history_read(Err(e));
    assert_eq!(outcome, Err(err(DbErrorKind::Other, "syntax error")));
}

#[test]
fn first_run_applies_every_migration_in_version_order() {
    let source = sample_source();
    let history: Vec<MigrationRecord> = Vec::new();
    let pending = pending_migrations(&source, &history);
    assert_eq!(pending, sample_source());
    let versions: Vec<u32> = pending.iter().map(|d| d.version).collect();
    assert_eq!(versions, vec![1, 2, 3]);
}

#[test]
fn applier_second_run_is_a_noop() {
    let source = sample_source();
    let history: Vec<MigrationRecord> = Vec::new();
    let pending = pending_migrations(&source, &history);
    // the history the first run leaves behind: one row per applied migration
    let history_after_first = rows_for(&pending);
    let pending_again = pending_migrations(&source, &history_after_first);
    assert!(pending_again.is_empty());
    // a second run records nothing, so the history is identical afterwards
    let mut history_after_second = history_after_first.clone();
    history_after_second.extend(rows_for(&pending_again));
    assert_eq!(history_after_second, history_after_first);
}

#[test]
fn partially_applied_history_leaves_later_migrations_pending() {
    let source = sample_source();
    let history = vec![row(1, "initial")];
    let pending = pending_migrations(&source, &history);
    let versions: Vec<u32> = pending.iter().map(|d| d.version).collect();
    assert_eq!(versions, vec![2, 3]);
}

#[test]
fn check_source_accepts_ascending_versions() {
    assert!(check_source(&sample_source()));
    assert!(check_source(&Vec::new()));
    assert!(check_source(&vec![def(7, "only")]));
}

#[test]
fn check_source_rejects_duplicate_or_descending_versions() {
    assert!(!check_source(&vec![def(1, "a"), def(1, "b")]));
    assert!(!check_source(&vec![def(2, "a"), def(1, "b")]));
}

#[test]
fn sequencer_rejects_an_unordered_source() {
    assert!(Sequencer::new(vec![def(2, "a"), def(1, "b")]).is_none());
    assert!(Sequencer::new(sample_source()).is_some());
}

#[test]
fn startup_happy_path_with_pending_migrations() {
    let mut seq = Sequencer::new(sample_source()).unwrap();
    assert_eq!(seq.initial_action(), Action::Connect);
    assert_eq!(seq.health_response(), None);

    let a = seq.step(Event::ConnectSucceeded);
    assert_eq!(a, Action::ReadHistory);

    let a = seq.step(Event::HistoryRead(Vec::new()));
    assert_eq!(a, Action::ApplyPending(sample_source()));

    let a = seq.step(Event::MigrationsSucceeded);
    assert_eq!(a, Action::ReadHistory);

    let applied = rows_for(&sample_source());
    let a = seq.step(Event::HistoryRead(applied));
    let expected = vec![
        AppliedMigration { version: 1, name: String::from("initial") },
        AppliedMigration { version: 2, name: String::from("add_users") },
        AppliedMigration { version: 3, name: String::from("add_index") },
    ];
    assert_eq!(a, Action::EmitDelta(DeltaReport::Applied(expected)));

    let a = seq.step(Event::DeltaLogged);
    assert_eq!(a, Action::StartServer);
    // the listener is not up yet: no health response before the start event
    assert_eq!(seq.health_response(), None);

    let a = seq.step(Event::ServerStarted);
    assert_eq!(a, Action::Serve);
    assert_eq!(seq.phase, Phase::Serving);
}

#[test]
fn zero_pending_migrations_serve_health_with_empty_body() {
    let mut seq = Sequencer::new(sample_source()).unwrap();
    let full = rows_for(&sample_source());

    seq.step(Event::ConnectSucceeded);
    let a = seq.step(Event::HistoryRead(full.clone()));
    // nothing is pending: the apply step is a trivial no-op
    assert_eq!(a, Action::ApplyPending(Vec::new()));
    seq.step(Event::MigrationsSucceeded);
    let a = seq.step(Event::HistoryRead(full));
    assert_eq!(a, Action::EmitDelta(DeltaReport::NoMigrations));
    seq.step(Event::DeltaLogged);
    // health is reachable only after the server-start announcement
    assert_eq!(seq.health_response(), None);
    let a = seq.step(Event::ServerStarted);
    assert_eq!(a, Action::Serve);

    let health = seq.health_response().unwrap();
    assert_eq!(health.status, 200);
    assert_eq!(health.body, String::new());
}

#[test]
fn failed_migration_never_reaches_health() {
    let mut seq = Sequencer::new(sample_source()).unwrap();
    seq.step(Event::ConnectSucceeded);
    seq.step(Event::HistoryRead(Vec::new()));
    // an invalid script fails the run; startup must abort
    let a = seq.step(Event::MigrationFailed(err(DbErrorKind::Other, "syntax error at line 1")));
    assert_eq!(a, Action::Abort);
    assert_eq!(seq.phase, Phase::StartupFailed);
    assert_eq!(seq.health_response(), None);

    // no later event revives the startup: health stays unreachable
    let a = seq.step(Event::MigrationsSucceeded);
    assert_eq!(a, Action::Abort);
    let a = seq.step(Event::ServerStarted);
    assert_eq!(a, Action::Abort);
    assert_eq!(seq.phase, Phase::StartupFailed);
    assert_eq!(seq.health_response(), None);
}

#[test]
fn connect_failure_aborts_startup() {
    let mut seq = Sequencer::new(sample_source()).unwrap();
    let a = seq.step(Event::ConnectFailed(err(DbErrorKind::ConnectionFailed, "refused")));
    assert_eq!(a, Action::Abort);
    assert_eq!(seq.phase, Phase::StartupFailed);
    assert_eq!(seq.health_response(), None);
}

#[test]
fn fatal_history_read_aborts_startup() {
    let mut seq = Sequencer::new(sample_source()).unwrap();
    seq.step(Event::ConnectSucceeded);
    let a = seq.step(Event::HistoryReadFailed(err(DbErrorKind::PermissionDenied, "denied")));
    assert_eq!(a, Action::Abort);
    assert_eq!(seq.phase, Phase::StartupFailed);
}

#[test]
fn serving_is_terminal() {
    let mut seq = Sequencer::new(sample_source()).unwrap();
    let full = rows_for(&sample_source());
    seq.step(Event::ConnectSucceeded);
    seq.step(Event::HistoryRead(full.clone()));
    seq.step(Event::MigrationsSucceeded);
    seq.step(Event::HistoryRead(full));
    seq.step(Event::DeltaLogged);
    seq.step(Event::ServerStarted);
    assert_eq!(seq.phase, Phase::Serving);
    let a = seq.step(Event::ConnectSucceeded);
    assert_eq!(a, Action::Serve);
    assert_eq!(seq.phase, Phase::Serving);
    assert!(seq.health_response().is_some());
}

#[test]
fn decimal_rendering_is_exact() {
    assert_eq!(decimal_string(0), "0");
    assert_eq!(decimal_string(7), "7");
    assert_eq!(decimal_string(10), "10");
    assert_eq!(decimal_string(205), "205");
    assert_eq!(decimal_string(u32::MAX), "4294967295");
}

#[test]
fn applied_line_names_version_and_name() {
    let line = render_applied_line(42, "add_users");
    assert_eq!(line, "Migration Applied - Name: add_users, Version: 42");
}

#[test]
fn fixed_log_lines_are_exact() {
    assert_eq!(migrations_start_line(), "Running DB migrations...");
    assert_eq!(migrations_finished_line(), "DB migrations finished!");
    assert_eq!(no_migrations_line(), "No migrations were applied");
    assert_eq!(server_start_line(), "Started server at localhost:8000");
}

#[test]
fn delta_log_lines_render_each_applied_migration() {
    let report = DeltaReport::Applied(vec![
        AppliedMigration { version: 1, name: String::from("initial") },
        AppliedMigration { version: 2, name: String::from("add_users") },
    ]);
    let lines = delta_log_lines(&report);
    assert_eq!(
        lines,
        vec![
            String::from("Migration Applied - Name: initial, Version: 1"),
            String::from("Migration Applied - Name: add_users, Version: 2"),
        ]
    );
}

#[test]
fn delta_log_lines_render_the_notice_when_empty() {
    let lines = delta_log_lines(&DeltaReport::NoMigrations);
    assert_eq!(lines, vec![String::from("No migrations were applied")]);
}
