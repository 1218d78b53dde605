use std::sync::{Arc, Mutex};

use powersync::db::connection::TransactionStatement;
use powersync::db::result_code::{
    convert_prepare, convert_rc, convert_step, Reply, ResultCode,
};
use powersync::error::PowerSyncError;
use powersync::schema::SchemaOrCustom;
use powersync::sync::download::control::{
    ControlAction, ControlInvocation, ControlReply, CONTROL_SQL,
};
use powersync::sync::download::sync_iteration::{Binding, DownloadEvent, StartDownloadIteration};
use powersync::sync::instruction::{CloseSyncStream, Instruction};
use rusqlite::types::Value;
use serde_json::value::RawValue;

type Calls = Arc<Mutex<Vec<(String, Value)>>>;
type Instructions = Vec<Instruction<String>>;

/// A connection with a `powersync_control` that notes its calls and gives a fixed reply.
fn connection(reply: Option<&'static str>) -> (rusqlite::Connection, Calls) {
    let connection = rusqlite::Connection::open_in_memory().unwrap();
    let calls: Calls = Arc::new(Mutex::new(Vec::new()));
    let noted = Arc::clone(&calls);
    connection
        .create_scalar_function(
            "powersync_control",
            2,
            rusqlite::functions::FunctionFlags::SQLITE_UTF8,
            move |context| {
                let operation: String = context.get(0)?;
                let argument: Value = context.get(1)?;
                let fails = operation == "stop";
                noted.lock().unwrap().push((operation, argument));
                if fails {
                    return Err(rusqlite::Error::InvalidQuery);
                }
                Ok(reply)
            },
        )
        .unwrap();
    (connection, calls)
}

fn code_of(error: rusqlite::Error) -> i32 {
    match error {
        rusqlite::Error::SqliteFailure(error, _) => error.extended_code,
        error => panic!("{error}"),
    }
}

fn parse(text: &str) -> Result<Instructions, String> {
    let list: Vec<serde_json::Value> = serde_json::from_str(text).map_err(|e| e.to_string())?;
    list.iter()
        .map(|item| {
            if item.get("DidCompleteSync").is_some() {
                Ok(Instruction::DidCompleteSync)
            } else if let Some(close) = item.get("CloseSyncStream") {
                let hide_disconnect = close["hide_disconnect"].as_bool().unwrap();
                Ok(Instruction::CloseSyncStream(CloseSyncStream { hide_disconnect }))
            } else {
                Err("unknown instruction".to_owned())
            }
        })
        .collect()
}

/// Makes the call on a real connection. The second result is the statements that were executed.
fn call(
    connection: &rusqlite::Connection,
    event: DownloadEvent,
) -> (Result<Instructions, PowerSyncError>, Vec<&'static str>) {
    let mut invocation: ControlInvocation<String> = event.invoke_control();
    let mut statement: Option<rusqlite::Statement> = None;
    let mut text: Option<Result<String, ResultCode>> = None;
    let mut executed = Vec::new();
    loop {
        let reply = match invocation.action() {
            ControlAction::GetAutocommit => ControlReply::Autocommit(connection.is_autocommit()),
            ControlAction::Exec(sql) => {
                executed.push(sql.sql());
                let rc = connection.execute_batch(sql.sql()).map_or_else(code_of, |()| 0);
                ControlReply::Executed(convert_rc(rc))
            }
            ControlAction::Prepare(sql) => match connection.prepare(sql) {
                Ok(prepared) => {
                    statement = Some(prepared);
                    ControlReply::Prepared(Ok(()))
                }
                Err(error) => {
                    let rc = match error {
                        rusqlite::Error::SqliteFailure(error, _) => error.extended_code,
                        rusqlite::Error::SqlInputError { error, .. } => error.extended_code,
                        error => panic!("{error}"),
                    };
                    ControlReply::Prepared(convert_prepare(rc).unwrap().map(|_| ()))
                }
            },
            ControlAction::Bind { index, value } => {
                let bound = statement.as_mut().unwrap();
                let index = index as usize;
                let result = match value {
                    Binding::Null => bound.raw_bind_parameter(index, rusqlite::types::Null),
                    Binding::Text(text) => bound.raw_bind_parameter(index, text),
                    Binding::Blob(bytes) => bound.raw_bind_parameter(index, bytes),
                };
                ControlReply::Bound(convert_rc(result.map_or_else(code_of, |()| 0)))
            }
            ControlAction::Step => {
                let mut rows = statement.as_mut().unwrap().raw_query();
                let rc = match rows.next() {
                    Ok(Some(row)) => {
                        let column: Option<String> = row.get(0).unwrap();
                        text = Some(column.ok_or(ResultCode::from_i32(5000).unwrap()));
                        100
                    }
                    Ok(None) => panic!("Expected a row"),
                    Err(error) => code_of(error),
                };
                ControlReply::Stepped(convert_step(rc).unwrap())
            }
            ControlAction::ColumnText { index } => {
                assert_eq!(index, 0);
                ControlReply::Text(text.take().unwrap())
            }
            ControlAction::Parse { text } => ControlReply::Parsed(parse(text)),
            ControlAction::Finalize => {
                statement = None;
                ControlReply::Finalized
            }
            ControlAction::Finished => return (invocation.into_outcome(), executed),
        };
        invocation = invocation.resume(reply);
    }
}

fn start() -> DownloadEvent {
    DownloadEvent::Start(StartDownloadIteration {
        parameters: serde_json::Value::Object(Default::default()),
        schema: Arc::new(SchemaOrCustom {
            value: RawValue::from_string("{\"tables\":[]}".to_owned()).unwrap(),
        }),
        include_defaults: true,
        active_streams: vec![],
    })
}

fn invoke(event: DownloadEvent) -> Vec<(String, Value)> {
    let (connection, calls) = connection(Some("[]"));
    assert_eq!(call(&connection, start()).0.unwrap(), vec![]);
    assert_eq!(call(&connection, event).0.unwrap(), vec![]);
    let calls = calls.lock().unwrap().clone();
    calls
}

#[test]
fn dynamic_control_arguments_reach_the_core_extension() {
    let started = "{\"parameters\":{},\"schema\":{\"tables\":[]},\"include_defaults\":true,\"active_streams\":[]}";
    let line = r#"{"checkpoint":{"last_op_id":"1","buckets":[],"streams":[]}}"#;
    assert_eq!(
        invoke(DownloadEvent::TextLine { data: line.to_owned() }),
        vec![
            ("start".to_owned(), Value::Text(started.to_owned())),
            ("line_text".to_owned(), Value::Text(line.to_owned())),
        ]
    );
    let line = b"\x85\x00\x00\x00\x03checkpoint\x00t\x00\x00\x00\x02last_op_id\x00\x02\x00\x00\x001\x00\x0awrite_checkpoint\x00\x04buckets\x00B\x00\x00\x00\x030\x00:\x00\x00\x00\x02bucket\x00\x02\x00\x00\x00a\x00\x10checksum\x00\x00\x00\x00\x00\x10priority\x00\x03\x00\x00\x00\x10count\x00\x01\x00\x00\x00\x00\x00\x00\x00".to_vec();
    assert_eq!(
        invoke(DownloadEvent::BinaryLine { data: line.clone() }),
        vec![
            ("start".to_owned(), Value::Text(started.to_owned())),
            ("line_binary".to_owned(), Value::Blob(line)),
        ]
    );
}

#[test]
fn instructions_come_from_a_committed_call() {
    let (connection, calls) =
        connection(Some("[{\"DidCompleteSync\":{}},{\"CloseSyncStream\":{\"hide_disconnect\":true}}]"));
    let (outcome, executed) = call(&connection, DownloadEvent::CompletedUpload);
    assert_eq!(
        outcome,
        Ok(vec![
            Instruction::DidCompleteSync,
            Instruction::CloseSyncStream(CloseSyncStream { hide_disconnect: true }),
        ])
    );
    assert_eq!(executed, vec!["BEGIN", "COMMIT"]);
    assert_eq!(*calls.lock().unwrap(), vec![("completed_upload".to_owned(), Value::Null)]);
    assert!(connection.is_autocommit());
}

#[test]
fn calls_do_not_run_in_the_transaction_of_others() {
    let (connection, calls) = connection(Some("[]"));
    connection.execute_batch("BEGIN").unwrap();
    let (outcome, executed) = call(&connection, DownloadEvent::CompletedUpload);
    assert_eq!(
        outcome,
        Err(PowerSyncError::ArgumentError { desc: "Connection already in transaction".to_owned() })
    );
    assert!(executed.is_empty());
    assert!(calls.lock().unwrap().is_empty());
    assert!(!connection.is_autocommit());
}

#[test]
fn failing_extension_rolls_back() {
    let (connection, _) = connection(Some("[]"));
    let (outcome, executed) = call(&connection, DownloadEvent::Stop);
    assert_eq!(outcome, Err(PowerSyncError::Sqlite { code: ResultCode::from_i32(1).unwrap() }));
    assert_eq!(executed, vec!["BEGIN", "ROLLBACK"]);
    assert!(connection.is_autocommit());
}

#[test]
fn missing_extension_rolls_back() {
    let connection = rusqlite::Connection::open_in_memory().unwrap();
    let (outcome, executed) = call(&connection, DownloadEvent::Stop);
    assert_eq!(
        outcome,
        Err(PowerSyncError::RawSqlite {
            code: ResultCode::from_i32(1).unwrap(),
            context: "Could not prepare SELECT powersync_control(?, ?)".to_owned(),
        })
    );
    assert_eq!(executed, vec!["BEGIN", "ROLLBACK"]);
    assert!(connection.is_autocommit());
}

#[test]
fn instructions_that_are_no_text_roll_back() {
    let (connection, _) = connection(None);
    let (outcome, executed) = call(&connection, DownloadEvent::CompletedUpload);
    assert_eq!(
        outcome,
        Err(PowerSyncError::ArgumentError {
            desc: "Could not read powersync_control instructions".to_owned(),
        })
    );
    assert_eq!(executed, vec!["BEGIN", "ROLLBACK"]);
    assert!(connection.is_autocommit());
}

#[test]
fn instructions_that_are_no_json_roll_back() {
    let (connection, _) = connection(Some("["));
    let (outcome, executed) = call(&connection, DownloadEvent::CompletedUpload);
    match outcome {
        Err(PowerSyncError::Json { message }) => assert!(message.contains("EOF")),
        outcome => panic!("{outcome:?}"),
    }
    assert_eq!(executed, vec!["BEGIN", "ROLLBACK"]);
    assert!(connection.is_autocommit());
}

/// The replies to a call for which all goes well, up to the commit.
fn replies() -> Vec<ControlReply<String>> {
    let ok: fn() -> Reply = || convert_rc(0);
    vec![
        ControlReply::Autocommit(true),
        ControlReply::Executed(ok()),
        ControlReply::Prepared(Ok(())),
        ControlReply::Bound(ok()),
        ControlReply::Bound(ok()),
        ControlReply::Stepped(convert_step(100).unwrap()),
        ControlReply::Text(Ok("[]".to_owned())),
        ControlReply::Parsed(Ok(vec![Instruction::FlushFileSystem])),
        ControlReply::Finalized,
    ]
}

fn after(replies: Vec<ControlReply<String>>) -> ControlInvocation<String> {
    let event = DownloadEvent::ConnectionEstablished;
    replies.into_iter().fold(event.invoke_control(), |call, reply| call.resume(reply))
}

#[test]
fn actions_come_in_their_order() {
    let mut names = Vec::new();
    let mut call: ControlInvocation<String> = DownloadEvent::ResponseStreamEnd.invoke_control();
    for reply in replies() {
        names.push(match call.action() {
            ControlAction::GetAutocommit => "autocommit".to_owned(),
            ControlAction::Exec(statement) => statement.sql().to_owned(),
            ControlAction::Prepare(sql) => sql.to_owned(),
            ControlAction::Bind { index, value } => format!("{index} {value:?}"),
            ControlAction::Step => "step".to_owned(),
            ControlAction::ColumnText { index } => format!("column {index}"),
            ControlAction::Parse { text } => format!("parse {text}"),
            ControlAction::Finalize => "finalize".to_owned(),
            ControlAction::Finished => "finished".to_owned(),
        });
        call = call.resume(reply);
    }
    assert_eq!(
        names,
        vec![
            "autocommit",
            "BEGIN",
            CONTROL_SQL,
            "1 Text(\"connection\")",
            "2 Text(\"end\")",
            "step",
            "column 0",
            "parse []",
            "finalize",
        ]
    );
    assert!(matches!(call.action(), ControlAction::Exec(TransactionStatement::Commit)));
}

#[test]
fn failed_commit_of_a_call_rolls_back_and_loses_the_instructions() {
    let call = after(replies()).resume(ControlReply::Executed(convert_rc(5)));
    assert!(matches!(call.action(), ControlAction::Exec(TransactionStatement::Rollback)));
    let call = call.resume(ControlReply::Executed(convert_rc(1)));
    assert!(matches!(call.action(), ControlAction::Finished));
    assert_eq!(
        call.into_outcome(),
        Err(PowerSyncError::RawSqlite {
            code: ResultCode::from_i32(5).unwrap(),
            context: "Could not run COMMIT".to_owned(),
        })
    );
}

#[test]
fn failed_binding_finalizes_and_rolls_back() {
    for kept in [3, 4] {
        let mut given = replies();
        given.truncate(kept);
        let call = after(given).resume(ControlReply::Bound(convert_rc(18)));
        assert!(matches!(call.action(), ControlAction::Finalize));
        let call = call.resume(ControlReply::Finalized);
        assert!(matches!(call.action(), ControlAction::Exec(TransactionStatement::Rollback)));
        let call = call.resume(ControlReply::Executed(convert_rc(0)));
        assert_eq!(
            call.into_outcome(),
            Err(PowerSyncError::Sqlite { code: ResultCode::from_i32(18).unwrap() })
        );
    }
}

#[test]
fn failed_begin_of_a_call_runs_nothing_else() {
    let mut given = replies();
    given.truncate(1);
    let call = after(given).resume(ControlReply::Executed(convert_rc(5)));
    assert!(matches!(call.action(), ControlAction::Finished));
    assert_eq!(
        call.into_outcome(),
        Err(PowerSyncError::RawSqlite {
            code: ResultCode::from_i32(5).unwrap(),
            context: "Could not run BEGIN".to_owned(),
        })
    );
}

#[test]
fn call_that_is_given_up_rolls_back() {
    let all = replies().len();
    for kept in 0..=all {
        let mut given = replies();
        given.truncate(kept);
        // The transaction is open once `BEGIN` went well.
        let expected = if kept >= 2 { Some(TransactionStatement::Rollback) } else { None };
        assert_eq!(after(given).closing_statement(), expected);
    }
    let committed = after(replies()).resume(ControlReply::Executed(convert_rc(0)));
    assert_eq!(committed.closing_statement(), None);
    let refused = after(replies()).resume(ControlReply::Executed(convert_rc(5)));
    assert_eq!(refused.closing_statement(), Some(TransactionStatement::Rollback));
    let rolled_back = refused.resume(ControlReply::Executed(convert_rc(0)));
    assert_eq!(rolled_back.closing_statement(), None);
}
