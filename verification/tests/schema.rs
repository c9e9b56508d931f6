use bdk_sqlite::schema::{
    get_schema_version, migration_sql, Migration, MigrationAction, MigrationError, VersionLookup,
    MIGRATION_COUNT,
};

fn failure(message: Option<&str>) -> rusqlite::Error {
    rusqlite::Error::SqliteFailure(
        rusqlite::ffi::Error::new(1),
        message.map(|m| m.to_string()),
    )
}

#[test]
fn missing_version_table_is_version_zero() {
    let lookup = VersionLookup::PrepareFailed {
        error: failure(Some("no such table: version")),
        failure_message: Some("no such table: version".to_string()),
    };
    assert_eq!(get_schema_version(lookup).unwrap(), 0);
}

#[test]
fn other_failure_to_prepare_is_an_error() {
    let lookup = VersionLookup::PrepareFailed {
        error: failure(Some("disk I/O error")),
        failure_message: Some("disk I/O error".to_string()),
    };
    assert_eq!(get_schema_version(lookup).unwrap_err(), failure(Some("disk I/O error")));
}

#[test]
fn failure_without_message_is_version_zero() {
    let lookup = VersionLookup::PrepareFailed { error: failure(None), failure_message: None };
    assert_eq!(get_schema_version(lookup).unwrap(), 0);
    let lookup = VersionLookup::PrepareFailed {
        error: rusqlite::Error::InvalidQuery,
        failure_message: None,
    };
    assert_eq!(get_schema_version(lookup).unwrap(), 0);
}

#[test]
fn recorded_version_is_read() {
    assert_eq!(get_schema_version(VersionLookup::Queried(Ok(Some(7)))).unwrap(), 7);
    assert_eq!(get_schema_version(VersionLookup::Queried(Ok(None))).unwrap(), 0);
    assert_eq!(
        get_schema_version(VersionLookup::Queried(Err(rusqlite::Error::InvalidQuery))).unwrap_err(),
        rusqlite::Error::InvalidQuery
    );
}

#[test]
fn there_are_twenty_one_schema_statements() {
    assert_eq!(MIGRATION_COUNT, 21);
    assert_eq!(migration_sql(0), "CREATE TABLE version (version INTEGER)");
    assert_eq!(migration_sql(20), "ALTER TABLE utxos ADD COLUMN is_spent;");
}

#[test]
fn latest_version_needs_no_migration() {
    let (_, action) = Migration::start(MIGRATION_COUNT as i32);
    assert!(matches!(action, MigrationAction::Finish(Ok(()))));
}

#[test]
fn unknown_versions_are_refused() {
    let (_, action) = Migration::start(22);
    assert!(matches!(action, MigrationAction::Finish(Err(MigrationError::UnsupportedVersion(22)))));
    let (_, action) = Migration::start(-1);
    assert!(matches!(action, MigrationAction::Finish(Err(MigrationError::UnsupportedVersion(-1)))));
}

#[test]
fn migration_runs_every_statement_then_records_the_version() {
    let (mut m, mut action) = Migration::start(0);
    let mut run = Vec::new();
    loop {
        match action {
            MigrationAction::Run(sql) => {
                run.push(sql);
                let (next, a) = m.after_run(true);
                m = next;
                action = a;
            }
            MigrationAction::RecordVersion(v) => {
                assert_eq!(v, 21);
                let (_, a) = m.after_record(Ok(()));
                assert!(matches!(a, MigrationAction::Finish(Ok(()))));
                break;
            }
            MigrationAction::Finish(_) => panic!("finished early"),
        }
    }
    assert_eq!(run.len(), 21);
    for (i, sql) in run.iter().enumerate() {
        assert_eq!(*sql, migration_sql(i));
    }
}

#[test]
fn migration_from_a_later_version_starts_there() {
    let (_, action) = Migration::start(16);
    match action {
        MigrationAction::Run(sql) => {
            assert_eq!(sql, "ALTER TABLE transaction_details RENAME TO transaction_details_old;")
        }
        other => panic!("unexpected {:?}", other),
    }
}

#[test]
fn migration_stops_at_the_first_failure() {
    let (m, _) = Migration::start(3);
    let (m, _) = m.after_run(true);
    let (m, _) = m.after_run(true);
    let (m, action) = m.after_run(false);
    assert!(matches!(action, MigrationAction::RecordVersion(5)));
    let (_, action) = m.after_record(Err(rusqlite::Error::InvalidQuery));
    assert!(matches!(action, MigrationAction::Finish(Err(MigrationError::Sqlite(_)))));
}
