use powersync::cstring::CString;
use powersync::db::connection::{
    exec_stmt, path_to_cstring, OpenPhase, RawSqliteConnection, SqliteConnection, StepOutcome,
    TransactionGuard, TransactionStatement,
};
use powersync::db::result_code::{convert_rc, convert_step, Reply, ResultCode};
use powersync::error::PowerSyncError;

fn code(code: i32) -> ResultCode {
    ResultCode::from_i32(code).unwrap()
}

fn raw(number: i32, context: &str) -> PowerSyncError {
    PowerSyncError::RawSqlite { code: code(number), context: context.to_owned() }
}

fn argument_error(desc: &str) -> PowerSyncError {
    PowerSyncError::ArgumentError { desc: desc.to_owned() }
}

/// Runs SQL on a real connection.
fn run(connection: &rusqlite::Connection, sql: &str) -> Reply {
    match connection.execute_batch(sql) {
        Ok(()) => convert_rc(0),
        Err(rusqlite::Error::SqliteFailure(error, _)) => convert_rc(error.extended_code),
        Err(error) => panic!("{error}"),
    }
}

fn mode(connection: &rusqlite::Connection) -> SqliteConnection {
    SqliteConnection { autocommit: connection.is_autocommit() }
}

fn begin(connection: &rusqlite::Connection) -> Result<TransactionGuard, PowerSyncError> {
    let pending = TransactionGuard::new(&mode(connection))?;
    let reply = run(connection, pending.statement().sql());
    pending.begun(reply)
}

fn close(connection: &rusqlite::Connection, guard: TransactionGuard) {
    if let Some(statement) = guard.closing_statement() {
        let _ = run(connection, statement.sql());
    }
}

#[test]
fn exec_reports_the_statement() {
    let connection = SqliteConnection { autocommit: true };
    assert_eq!(connection.exec(b"DELETE FROM a", convert_rc(0)), Ok(()));
    assert_eq!(
        connection.exec(b"DELETE FROM a", convert_rc(1)),
        Err(raw(1, "Could not run DELETE FROM a"))
    );
    assert_eq!(
        connection.exec("SELECT 'ä€😀'".as_bytes(), convert_rc(1)),
        Err(raw(1, "Could not run SELECT 'ä€😀'"))
    );
    assert_eq!(
        connection.exec(b"SELECT \xff", convert_rc(1)),
        Err(raw(1, "Could not run SELECT \u{fffd}"))
    );
}

#[test]
fn prepare_reports_the_statement() {
    let connection = SqliteConnection { autocommit: true };
    assert_eq!(connection.prepare("SELECT 1", Ok(7u8)), Ok(7u8));
    assert_eq!(
        connection.prepare::<u8>("SELECT", Err(code(1))),
        Err(raw(1, "Could not prepare SELECT"))
    );
}

#[test]
fn transaction_statements_have_their_text() {
    assert_eq!(TransactionStatement::Begin.sql(), "BEGIN");
    assert_eq!(TransactionStatement::Commit.sql(), "COMMIT");
    assert_eq!(TransactionStatement::Rollback.sql(), "ROLLBACK");
}

#[test]
fn transactions_do_not_nest() {
    let connection = rusqlite::Connection::open_in_memory().unwrap();
    let guard = begin(&connection).unwrap();
    assert_eq!(
        begin(&connection).unwrap_err(),
        argument_error("Connection already in transaction")
    );
    close(&connection, guard);
    assert!(connection.is_autocommit());
    assert!(begin(&connection).is_ok());
}

#[test]
fn failed_begin_is_reported() {
    let pending = TransactionGuard::new(&SqliteConnection { autocommit: true }).unwrap();
    assert_eq!(pending.statement(), TransactionStatement::Begin);
    assert_eq!(pending.begun(convert_rc(5)).unwrap_err(), raw(5, "Could not run BEGIN"));
}

#[test]
fn committed_transactions_are_kept_and_abandoned_ones_are_not() {
    let connection = rusqlite::Connection::open_in_memory().unwrap();
    connection.execute_batch("CREATE TABLE a (b)").unwrap();

    let mut guard = begin(&connection).unwrap();
    assert!(run(&connection, "INSERT INTO a VALUES (1)").is_ok());
    let reply = run(&connection, TransactionStatement::Commit.sql());
    assert_eq!(guard.commit(reply), Ok(()));
    assert_eq!(guard.closing_statement(), None);
    close(&connection, guard);

    let guard = begin(&connection).unwrap();
    assert!(run(&connection, "INSERT INTO a VALUES (2)").is_ok());
    assert_eq!(guard.closing_statement(), Some(TransactionStatement::Rollback));
    close(&connection, guard);

    assert!(connection.is_autocommit());
    let sum: i64 = connection.query_row("SELECT sum(b) FROM a", [], |row| row.get(0)).unwrap();
    assert_eq!(sum, 1);
}

#[test]
fn failed_commit_rolls_back_before_returning_connection() {
    // A database in memory that several connections share, with the locks of a file.
    let path = "file:/commit-rollback?vfs=memdb";
    let setup = rusqlite::Connection::open(path).unwrap();
    setup
        .execute_batch(
            "PRAGMA journal_mode = DELETE;
                 CREATE TABLE values_table (value INTEGER NOT NULL);
                 INSERT INTO values_table VALUES (1);",
        )
        .unwrap();

    let reader = rusqlite::Connection::open(path).unwrap();
    reader.execute_batch("BEGIN").unwrap();
    let _: i64 =
        reader.query_row("SELECT value FROM values_table", [], |row| row.get(0)).unwrap();

    let writer = rusqlite::Connection::open(path).unwrap();
    writer.busy_timeout(std::time::Duration::from_millis(50)).unwrap();
    let mut tx = begin(&writer).unwrap();
    mode(&writer)
        .exec(
            b"UPDATE values_table SET value = 2",
            run(&writer, "UPDATE values_table SET value = 2"),
        )
        .unwrap();

    let outcome = tx.commit(run(&writer, "COMMIT"));
    assert!(outcome.is_err());
    assert_eq!(outcome, Err(raw(5, "Could not run COMMIT")));
    assert!(!writer.is_autocommit());
    close(&writer, tx);
    assert!(writer.is_autocommit());

    reader.execute_batch("ROLLBACK").unwrap();
    let value: i64 =
        writer.query_row("SELECT value FROM values_table", [], |row| row.get(0)).unwrap();
    assert_eq!(value, 1);
}

fn path(bytes: &[u8]) -> CString {
    CString::new(bytes.to_vec()).unwrap()
}

#[test]
fn open_asks_for_the_database() {
    let connection = RawSqliteConnection::open(path(b"a.sqlite"), 6);
    match &connection.phase {
        OpenPhase::Opening { path, flags } => {
            assert_eq!(path.to_bytes(), b"a.sqlite");
            assert_eq!(path.to_bytes_with_nul(), b"a.sqlite\0");
            assert_eq!(*flags, 6);
        }
        phase => panic!("{phase:?}"),
    }
    assert!(matches!(connection.opened(code(0), false).phase, OpenPhase::Opened));
}

#[test]
fn open_passes_all_bits_of_the_flags() {
    match RawSqliteConnection::open(path(b""), 0x8000_0006).phase {
        OpenPhase::Opening { flags, .. } => assert_eq!(flags, i32::MIN + 6),
        phase => panic!("{phase:?}"),
    }
}

#[test]
fn repeated_open_failures_close_every_handle() {
    let mut allocated = 0;
    let mut closed = 0;
    for attempt in 0..128 {
        let null = attempt % 4 == 0;
        let connection = RawSqliteConnection::open(path(b"missing/database.sqlite"), 6);
        allocated += if null { 0 } else { 1 };
        let mut connection = connection.opened(code(14), null);
        if let OpenPhase::Closing { .. } = connection.phase {
            closed += 1;
            connection = connection.closed();
        }
        match connection.phase {
            OpenPhase::Failed { error } => assert_eq!(
                error,
                raw(14, "Could not open database missing/database.sqlite")
            ),
            phase => panic!("{phase:?}"),
        }
    }
    assert_eq!(allocated, 96);
    assert_eq!(closed, 96);
}

#[test]
fn open_error_shows_paths_that_are_not_text() {
    match RawSqliteConnection::open(path(b"a\xffb"), 0).opened(code(14), true).phase {
        OpenPhase::Failed { error } => {
            assert_eq!(error, raw(14, "Could not open database a\u{fffd}b"));
        }
        phase => panic!("{phase:?}"),
    }
}

#[test]
fn open_path_checks_the_path() {
    match RawSqliteConnection::open_path(Some(b"dir/a"), "\"dir/a\"", 2).unwrap().phase {
        OpenPhase::Opening { path, flags } => {
            assert_eq!(path.to_bytes(), b"dir/a");
            assert_eq!(flags, 2);
        }
        phase => panic!("{phase:?}"),
    }
    assert_eq!(
        RawSqliteConnection::open_path(Some(b"a\0b"), "\"a\\0b\"", 2).unwrap_err(),
        argument_error("Invalid path: \"a\\0b\"")
    );
}

#[test]
fn paths_with_nul_or_without_bytes_are_invalid() {
    assert_eq!(path_to_cstring(Some(b""), "\"\"").unwrap().to_bytes(), b"");
    assert_eq!(path_to_cstring(Some(b"x"), "\"x\"").unwrap().to_bytes(), b"x");
    assert_eq!(path_to_cstring(Some(b"\0"), "p").unwrap_err(), argument_error("Invalid path: p"));
    assert_eq!(path_to_cstring(None, "q").unwrap_err(), argument_error("Invalid path: q"));
    assert!(CString::new(vec![1, 2, 0]).is_none());
}

#[test]
fn statements_are_stepped_through_all_rows() {
    let connection = rusqlite::Connection::open_in_memory().unwrap();
    let sql = "SELECT 1 UNION ALL SELECT 2 UNION ALL SELECT 3";
    let mut statement = connection.prepare(sql).unwrap();
    let mut rows = statement.query([]).unwrap();
    let mut steps = 0;
    loop {
        steps += 1;
        let reply = match rows.next().unwrap() {
            Some(_) => convert_step(100).unwrap(),
            None => convert_step(101).unwrap(),
        };
        match exec_stmt(reply, Ok(sql)) {
            StepOutcome::Continue => {}
            StepOutcome::Finished(outcome) => {
                assert_eq!(outcome, Ok(()));
                break;
            }
        }
    }
    assert_eq!(steps, 4);
}

#[test]
fn failed_steps_report_the_statement() {
    match exec_stmt(Err(code(19)), Ok("INSERT INTO a VALUES (1)")) {
        StepOutcome::Finished(outcome) => {
            assert_eq!(outcome, Err(raw(19, "Stepping through INSERT INTO a VALUES (1)")));
        }
        outcome => panic!("{outcome:?}"),
    }
    match exec_stmt(Err(code(19)), Err(code(24))) {
        StepOutcome::Finished(outcome) => {
            assert_eq!(outcome, Err(raw(19, "Stepping through unknown SQL")));
        }
        outcome => panic!("{outcome:?}"),
    }
}
