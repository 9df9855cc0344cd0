use aura_backend::failure::{ErrorKind, Failure, Step};
use aura_backend::lexical::{compare, Rank};
use aura_backend::migrations::{
    get_migration_status, is_migration_file, migration_from_file, migration_status,
    pending_migrations, run_migrations, unique_migrations, Migration, MigrationEvent,
    MigrationResult, MigrationStatus, MigrationStep, RunStage,
};
use aura_backend::remote::{Rows, StoreOp, StoreReply};

fn migration(id: &str, name: &str) -> Migration {
    Migration {
        id: id.to_string(),
        name: name.to_string(),
        sql: String::new(),
        applied_at: None,
        checksum: String::new(),
    }
}

fn ids(list: &[Migration]) -> Vec<&str> {
    list.iter().map(|m| m.id.as_str()).collect()
}

fn names(list: &[Migration]) -> Vec<&str> {
    list.iter().map(|m| m.name.as_str()).collect()
}

fn reached() -> MigrationEvent {
    MigrationEvent::Checked(StoreReply::Answered {
        status: 404,
        body: String::new(),
        rows: Rows::Unread { detail: String::new() },
    })
}

#[test]
fn only_sql_files_are_migrations() {
    assert!(is_migration_file("001_initial.sql"));
    assert!(is_migration_file("a.sql"));
    assert!(!is_migration_file(".sql"));
    assert!(!is_migration_file("001_initial.SQL"));
    assert!(!is_migration_file("001_initial.sql.bak"));
    assert!(!is_migration_file("sql"));
    assert!(!is_migration_file(""));
    assert!(is_migration_file("é.sql"));
}

#[test]
fn migration_is_read_from_name_and_content() {
    let m = migration_from_file("001_initial_schema.sql", "abc".to_string());
    assert_eq!(
        m,
        Migration {
            id: "001".to_string(),
            name: "001_initial_schema".to_string(),
            sql: "abc".to_string(),
            applied_at: None,
            checksum: "ba7816bf8f01cfea414140de5dae2223b00361a396177a9cb410ff61f20015ad"
                .to_string(),
        }
    );
}

#[test]
fn migration_name_without_underscore_is_its_own_id() {
    let m = migration_from_file("schema.sql", String::new());
    assert_eq!(m.id, "schema.sql");
    assert_eq!(m.name, "schema");
    let odd = migration_from_file("_x", String::new());
    assert_eq!(odd.id, "");
    assert_eq!(odd.name, "_x");
}

#[test]
fn bytes_are_compared_as_text_is_ordered() {
    assert_eq!(compare(b"001", b"002"), Rank::Before);
    assert_eq!(compare(b"002", b"001"), Rank::After);
    assert_eq!(compare(b"001", b"001"), Rank::Same);
    assert_eq!(compare(b"01", b"010"), Rank::Before);
    assert_eq!(compare(b"010", b"01"), Rank::After);
    assert_eq!(compare(b"", b""), Rank::Same);
    assert_eq!(compare(b"", b"0"), Rank::Before);
    assert_eq!(compare(b"10", b"9"), Rank::Before);
    assert_eq!(compare(&[0xff], &[0x7f, 0x01]), Rank::After);
}

#[test]
fn migrations_are_ordered_and_the_first_of_an_id_is_kept() {
    let all = vec![
        migration("003", "003_c"),
        migration("001", "001_a"),
        migration("002", "002_b"),
        migration("001", "001_other"),
        migration("003", "003_other"),
    ];
    let chosen = unique_migrations(all);
    assert_eq!(ids(&chosen), vec!["001", "002", "003"]);
    assert_eq!(names(&chosen), vec!["001_a", "002_b", "003_c"]);
    assert_eq!(unique_migrations(Vec::new()), Vec::new());
}

#[test]
fn applied_migrations_are_not_pending() {
    let chosen =
        vec![migration("001", "001_a"), migration("002", "002_b"), migration("003", "003_c")];
    let applied = vec![migration("002", "anything")];
    assert_eq!(names(&pending_migrations(chosen.clone(), &applied)), vec!["001_a", "003_c"]);
    assert_eq!(pending_migrations(chosen.clone(), &Vec::new()), chosen);
    assert_eq!(pending_migrations(chosen.clone(), &chosen), Vec::new());
}

#[test]
fn status_without_applied_migrations_is_version_zero() {
    let chosen = vec![migration("001", "001_a"), migration("002", "002_b")];
    assert_eq!(
        migration_status(chosen, &Vec::new()),
        MigrationStatus {
            total_migrations: 2,
            applied_migrations: 0,
            pending_migrations: vec!["001_a".to_string(), "002_b".to_string()],
            last_applied: None,
            database_version: "000".to_string(),
        }
    );
}

#[test]
fn status_names_the_latest_applied_migration() {
    let all = vec![
        migration("002", "002_b"),
        migration("001", "001_a"),
        migration("003", "003_c"),
        migration("002", "002_again"),
    ];
    let applied = vec![migration("002", "002_b"), migration("001", "001_a")];
    assert_eq!(
        get_migration_status(all, &applied),
        Ok(MigrationStatus {
            total_migrations: 3,
            applied_migrations: 2,
            pending_migrations: vec!["003_c".to_string()],
            last_applied: Some("002_b".to_string()),
            database_version: "002".to_string(),
        })
    );
}

#[test]
fn status_without_files_is_not_found() {
    assert_eq!(
        get_migration_status(Vec::new(), &Vec::new()),
        Err(Failure::rule(ErrorKind::NotFound, Step::Migration))
    );
}

#[test]
fn run_without_files_fails_at_once() {
    let (run, step) = run_migrations(Vec::new(), &Vec::new());
    assert_eq!(run.stage, RunStage::Finished);
    assert_eq!(
        step,
        MigrationStep::Finish(MigrationResult {
            success: false,
            applied_migrations: vec![],
            failed_migrations: vec![],
            errors: vec!["No migration files found".to_string()],
        })
    );
}

#[test]
fn run_without_pending_migrations_succeeds_at_once() {
    let all = vec![migration("001", "001_a")];
    let (_, step) = run_migrations(all.clone(), &all);
    assert_eq!(
        step,
        MigrationStep::Finish(MigrationResult {
            success: true,
            applied_migrations: vec![],
            failed_migrations: vec![],
            errors: vec![],
        })
    );
}

#[test]
fn run_applies_the_pending_migrations_in_order() {
    let all = vec![migration("002", "002_b"), migration("001", "001_a")];
    let (run, step) = run_migrations(all, &Vec::new());
    assert_eq!(
        step,
        MigrationStep::Check { op: StoreOp::ProbeSchema, migration: migration("001", "001_a") }
    );
    let (run, step) = run.advance(reached());
    assert_eq!(step, MigrationStep::Record { migration: migration("001", "001_a") });
    let (run, step) = run.advance(MigrationEvent::Recorded(Ok(())));
    assert_eq!(
        step,
        MigrationStep::Check { op: StoreOp::ProbeSchema, migration: migration("002", "002_b") }
    );
    let (run, _) = run.advance(MigrationEvent::Checked(StoreReply::Unavailable {
        failure: Failure::rule(ErrorKind::AuthenticationRequired, Step::Session),
    }));
    let (run, step) = run.advance(MigrationEvent::Recorded(Ok(())));
    assert_eq!(run.stage, RunStage::Finished);
    assert_eq!(
        step,
        MigrationStep::Finish(MigrationResult {
            success: true,
            applied_migrations: vec!["001_a".to_string(), "002_b".to_string()],
            failed_migrations: vec![],
            errors: vec![],
        })
    );
}

#[test]
fn run_stops_at_the_first_migration_that_cannot_be_checked() {
    let all = vec![migration("001", "001_a"), migration("002", "002_b")];
    let (run, _) = run_migrations(all, &Vec::new());
    let (run, step) = run.advance(MigrationEvent::Checked(StoreReply::Unreachable {
        detail: "connection refused".to_string(),
    }));
    assert_eq!(run.stage, RunStage::Finished);
    assert_eq!(names(&run.pending), vec!["002_b"]);
    assert_eq!(
        step,
        MigrationStep::Finish(MigrationResult {
            success: false,
            applied_migrations: vec![],
            failed_migrations: vec!["001_a".to_string()],
            errors: vec!["connection refused".to_string()],
        })
    );
}

#[test]
fn run_goes_on_after_a_record_that_could_not_be_written() {
    let all = vec![migration("001", "001_a"), migration("002", "002_b")];
    let (run, _) = run_migrations(all, &Vec::new());
    let (run, _) = run.advance(reached());
    let (run, step) = run.advance(MigrationEvent::Recorded(Err("disk full".to_string())));
    assert!(matches!(step, MigrationStep::Check { .. }));
    let (run, _) = run.advance(reached());
    let (_, step) = run.advance(MigrationEvent::Recorded(Ok(())));
    assert_eq!(
        step,
        MigrationStep::Finish(MigrationResult {
            success: false,
            applied_migrations: vec!["002_b".to_string()],
            failed_migrations: vec![],
            errors: vec!["disk full".to_string()],
        })
    );
}

#[test]
fn run_fails_on_an_event_it_did_not_ask_for() {
    let (run, _) = run_migrations(vec![migration("001", "001_a")], &Vec::new());
    let (run, step) = run.advance(MigrationEvent::Recorded(Ok(())));
    assert_eq!(run.stage, RunStage::Finished);
    match step {
        MigrationStep::Finish(result) => assert!(!result.success),
        other => panic!("unexpected step {:?}", other),
    }
}
