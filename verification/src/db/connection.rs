//! Connections to SQLite: transactions, opening, and running statements.
//!
//! Nothing here calls SQLite. The functions name the call that comes next and, given what SQLite
//! replied, say what the operation comes to.

use vstd::prelude::*;
use vstd::slice::slice_to_vec;

use crate::cstring::{from_utf8_lossy, CString};
#[allow(unused_imports)]
use crate::cstring::displayed_text;
use crate::db::result_code::{Reply, ResultCode, SQLITE_OK, SQLITE_ROW};
#[allow(unused_imports)]
use crate::error::PowerSyncErrorView;
use crate::error::PowerSyncError;

verus! {

/// A connection, as far as the library has to know it.
#[derive(Clone, Copy, Debug, PartialEq, Eq, Structural)]
pub struct SqliteConnection {
    /// Whether SQLite is in autocommit mode on this connection, that is, outside a transaction.
    pub autocommit: bool,
}

/// The error of running `stmt` when SQLite replies with `code`.
pub open spec fn exec_error(stmt: Seq<char>, code: ResultCode) -> PowerSyncErrorView {
    PowerSyncErrorView::RawSqlite { code, context: "Could not run "@ + stmt }
}

/// The error of preparing `stmt` when SQLite replies with `code`.
pub open spec fn prepare_error(stmt: Seq<char>, code: ResultCode) -> PowerSyncErrorView {
    PowerSyncErrorView::RawSqlite { code, context: "Could not prepare "@ + stmt }
}

/// What executing the statement of these bytes comes to.
fn exec_outcome(stmt: &[u8], reply: Reply) -> (outcome: Result<(), PowerSyncError>)
    ensures
        outcome is Ok <==> reply is Ok,
        outcome matches Err(error) ==> error@ == exec_error(displayed_text(stmt@), reply->Err_0),
{
    match reply {
        Ok(_) => Ok(()),
        Err(code) => {
            let shown = from_utf8_lossy(stmt);
            Err(PowerSyncError::raw_sqlite(code, "Could not run ", shown.as_str()))
        },
    }
}

impl SqliteConnection {
    /// What executing a SQL statement without parameters comes to.
    ///
    /// `stmt` is the bytes of the statement, which need not be UTF-8.
    pub fn exec(&self, stmt: &[u8], reply: Reply) -> (outcome: Result<(), PowerSyncError>)
        ensures
            outcome is Ok <==> reply is Ok,
            outcome matches Err(error) ==> error@ == exec_error(
                displayed_text(stmt@),
                reply->Err_0,
            ),
    {
        exec_outcome(stmt, reply)
    }

    /// What preparing a SQL statement comes to; `S` is the prepared statement.
    pub fn prepare<S>(&self, stmt: &str, reply: Result<S, ResultCode>) -> (outcome: Result<
        S,
        PowerSyncError,
    >)
        ensures
            outcome is Ok <==> reply is Ok,
            outcome matches Ok(prepared) ==> prepared == reply->Ok_0,
            outcome matches Err(error) ==> error@ == prepare_error(stmt@, reply->Err_0),
    {
        match reply {
            Ok(prepared) => Ok(prepared),
            Err(code) => Err(PowerSyncError::raw_sqlite(code, "Could not prepare ", stmt)),
        }
    }
}

/// A statement that opens or closes a transaction.
#[derive(Clone, Copy, Debug, PartialEq, Eq, Structural)]
pub enum TransactionStatement {
    Begin,
    Commit,
    Rollback,
}

impl TransactionStatement {
    /// The SQL text of the statement.
    pub open spec fn spec_sql(self) -> Seq<char> {
        match self {
            TransactionStatement::Begin => "BEGIN"@,
            TransactionStatement::Commit => "COMMIT"@,
            TransactionStatement::Rollback => "ROLLBACK"@,
        }
    }

    /// The SQL text of the statement.
    pub fn sql(self) -> (sql: &'static str)
        ensures
            sql@ == self.spec_sql(),
    {
        match self {
            TransactionStatement::Begin => "BEGIN",
            TransactionStatement::Commit => "COMMIT",
            TransactionStatement::Rollback => "ROLLBACK",
        }
    }

    /// What executing the statement comes to.
    fn exec(self, reply: Reply) -> (outcome: Result<(), PowerSyncError>)
        ensures
            outcome is Ok <==> reply is Ok,
            outcome matches Err(error) ==> error@ == exec_error(self.spec_sql(), reply->Err_0),
    {
        proof {
            vstd::utf8::encode_utf8_valid_utf8(self.spec_sql());
            vstd::utf8::encode_utf8_decode_utf8(self.spec_sql());
        }
        exec_outcome(self.sql().as_bytes(), reply)
    }
}

/// A transaction that may be started: its connection was in autocommit mode.
#[derive(Debug)]
pub struct PendingTransaction {
    statement: TransactionStatement,
}

/// Utility for running a block in a transaction.
///
/// The block runs between [`PendingTransaction::begun`] and [`TransactionGuard::commit`]. However
/// it ends, the statement that [`TransactionGuard::closing_statement`] asks for runs before the
/// connection is used again.
#[derive(Debug)]
pub struct TransactionGuard {
    active: bool,
}

/// The error of starting a transaction on a connection that is in one already.
pub open spec fn nested_transaction_error() -> PowerSyncErrorView {
    PowerSyncErrorView::ArgumentError { desc: "Connection already in transaction"@ }
}

/// Whether a transaction is active after SQLite replied to its commit.
pub open spec fn active_after_commit(before: bool, reply: Reply) -> bool {
    before && reply is Err
}

/// The statement that closes a transaction whose guard goes out of use.
pub open spec fn statement_on_close(active: bool) -> Option<TransactionStatement> {
    if active {
        Some(TransactionStatement::Rollback)
    } else {
        None
    }
}

impl PendingTransaction {
    #[verifier::type_invariant]
    spec fn starts_with_begin(self) -> bool {
        self.statement is Begin
    }

    /// The statement that starts the transaction.
    pub fn statement(&self) -> (statement: TransactionStatement)
        ensures
            statement is Begin,
    {
        proof {
            use_type_invariant(self);
        }
        self.statement
    }

    /// The guard of the transaction, given what SQLite replied to the statement that starts it.
    pub fn begun(self, reply: Reply) -> (outcome: Result<TransactionGuard, PowerSyncError>)
        ensures
            outcome is Ok <==> reply is Ok,
            outcome matches Ok(guard) ==> guard.is_active(),
            outcome matches Err(error) ==> error@ == exec_error(
                TransactionStatement::Begin.spec_sql(),
                reply->Err_0,
            ),
    {
        proof {
            use_type_invariant(&self);
        }
        match self.statement.exec(reply) {
            Ok(_) => Ok(TransactionGuard { active: true }),
            Err(error) => Err(error),
        }
    }
}

impl TransactionGuard {
    /// Whether the transaction has not been committed.
    pub closed spec fn is_active(&self) -> bool {
        self.active
    }

    /// Prepares to start a transaction, unless the connection is in one.
    pub fn new(connection: &SqliteConnection) -> (outcome: Result<
        PendingTransaction,
        PowerSyncError,
    >)
        ensures
            outcome is Ok <==> connection.autocommit,
            outcome matches Err(error) ==> error@ == nested_transaction_error(),
    {
        if !connection.autocommit {
            return Err(PowerSyncError::argument_error("Connection already in transaction"));
        }
        Ok(PendingTransaction { statement: TransactionStatement::Begin })
    }

    /// What committing comes to, given what SQLite replied to `COMMIT`.
    ///
    /// A transaction whose commit fails stays active.
    pub fn commit(&mut self, reply: Reply) -> (outcome: Result<(), PowerSyncError>)
        ensures
            final(self).is_active() == active_after_commit(old(self).is_active(), reply),
            outcome is Ok <==> reply is Ok,
            outcome matches Err(error) ==> error@ == exec_error(
                TransactionStatement::Commit.spec_sql(),
                reply->Err_0,
            ),
    {
        match TransactionStatement::Commit.exec(reply) {
            Ok(_) => {
                self.active = false;
                Ok(())
            },
            Err(error) => Err(error),
        }
    }

    /// The statement that has to run when the guard goes out of use, if any: a transaction that was
    /// not committed is rolled back. Nothing depends on what SQLite replies to it.
    pub fn closing_statement(&self) -> (statement: Option<TransactionStatement>)
        ensures
            statement == statement_on_close(self.is_active()),
    {
        if self.active {
            Some(TransactionStatement::Rollback)
        } else {
            None
        }
    }
}

/// Whether a connection is in a transaction after a statement, given whether it was before and
/// whether SQLite carried the statement out.
pub open spec fn in_transaction_after(
    before: bool,
    statement: TransactionStatement,
    done: bool,
) -> bool {
    if !done {
        before
    } else {
        statement is Begin
    }
}

/// Whether a connection is in a transaction after each of the statements, with what SQLite replied
/// to them, starting outside a transaction.
pub open spec fn in_transaction_at_end(log: Seq<(TransactionStatement, Reply)>) -> bool
    decreases log.len(),
{
    if log.len() == 0 {
        false
    } else {
        in_transaction_after(
            in_transaction_at_end(log.drop_last()),
            log.last().0,
            log.last().1 is Ok,
        )
    }
}

/// The statements that the use of a guard runs, with what SQLite replied: `begin` to the first,
/// `commit` to the commit where the block got that far, `rollback` to the rollback where there is
/// one.
pub open spec fn guard_log(begin: Reply, commit: Option<Reply>, rollback: Reply) -> Seq<
    (TransactionStatement, Reply),
> {
    let begun = seq![(TransactionStatement::Begin, begin)];
    if begin is Err {
        begun
    } else {
        let (log, active) = match commit {
            None => (begun, true),
            Some(reply) => (
                begun.push((TransactionStatement::Commit, reply)),
                active_after_commit(true, reply),
            ),
        };
        match statement_on_close(active) {
            None => log,
            Some(statement) => log.push((statement, rollback)),
        }
    }
}

/// However the use of a guard ends, a failed commit included, the connection is returned outside a
/// transaction. The one exception is that SQLite refuses the rollback itself.
pub proof fn guard_leaves_no_transaction(begin: Reply, commit: Option<Reply>, rollback: Reply)
    ensures
        in_transaction_at_end(guard_log(begin, commit, rollback)) ==> {
            &&& rollback is Err
            &&& guard_log(begin, commit, rollback).last() == (
                TransactionStatement::Rollback,
                rollback,
            )
        },
{
    let log = guard_log(begin, commit, rollback);
    reveal_with_fuel(in_transaction_at_end, 4);
    assert(log.drop_last().len() == log.len() - 1);
}

/// A connection of its own to a database, from the request to open it.
#[derive(Debug)]
pub struct RawSqliteConnection {
    pub phase: OpenPhase,
}

/// How far opening a database has come.
#[derive(Debug)]
pub enum OpenPhase {
    /// SQLite has to open the database at `path` with `flags`. The reply goes to
    /// [`RawSqliteConnection::opened`].
    Opening { path: CString, flags: i32 },
    /// SQLite failed, but allocated a handle, which bears the error. The handle has to be closed,
    /// and [`RawSqliteConnection::closed`] told so.
    Closing { error: PowerSyncError },
    /// The handle is a connection to the database.
    Opened,
    /// There is neither a connection nor a handle.
    Failed { error: PowerSyncError },
}

/// The content of an [`OpenPhase`].
#[verifier::ext_equal]
pub enum OpenPhaseView {
    Opening { path: Seq<u8>, flags: i32 },
    Closing { error: PowerSyncErrorView },
    Opened,
    Failed { error: PowerSyncErrorView },
}

impl View for RawSqliteConnection {
    type V = OpenPhaseView;

    open spec fn view(&self) -> OpenPhaseView {
        match self.phase {
            OpenPhase::Opening { path, flags } => OpenPhaseView::Opening { path: path@, flags },
            OpenPhase::Closing { error } => OpenPhaseView::Closing { error: error@ },
            OpenPhase::Opened => OpenPhaseView::Opened,
            OpenPhase::Failed { error } => OpenPhaseView::Failed { error: error@ },
        }
    }
}

/// The error of opening the database at `path` when SQLite replies with `code`.
pub open spec fn open_error(path: Seq<u8>, code: ResultCode) -> PowerSyncErrorView {
    PowerSyncErrorView::RawSqlite {
        code,
        context: "Could not open database "@ + displayed_text(path),
    }
}

/// How far opening the database at `path` has come once SQLite replied.
pub open spec fn phase_after_open(
    path: Seq<u8>,
    code: ResultCode,
    handle_is_null: bool,
) -> OpenPhaseView {
    let error = open_error(path, code);
    if code@ == SQLITE_OK {
        OpenPhaseView::Opened
    } else if handle_is_null {
        OpenPhaseView::Failed { error }
    } else {
        OpenPhaseView::Closing { error }
    }
}

/// How far opening has come once the handle of a failed attempt is closed.
pub open spec fn phase_after_close(phase: OpenPhaseView) -> OpenPhaseView {
    match phase {
        OpenPhaseView::Closing { error } => OpenPhaseView::Failed { error },
        _ => phase,
    }
}

impl RawSqliteConnection {
    /// Asks for the database at `path` to be opened.
    pub fn open(path: CString, flags: u32) -> (connection: Self)
        ensures
            connection@ == (OpenPhaseView::Opening {
                path: path@,
                flags: #[verifier::truncate]
                (flags as i32),
            }),
    {
        RawSqliteConnection {
            phase: OpenPhase::Opening {
                path,
                flags: #[verifier::truncate]
                (flags as i32),
            },
        }
    }

    /// Asks for the database at a path of the file system to be opened.
    ///
    /// The arguments `path` and `shown` are those of [`path_to_cstring`].
    pub fn open_path(path: Option<&[u8]>, shown: &str, flags: u32) -> (outcome: Result<
        Self,
        PowerSyncError,
    >)
        ensures
            outcome is Ok <==> is_valid_path(path),
            outcome matches Ok(connection) ==> connection@ == (OpenPhaseView::Opening {
                path: path->Some_0@,
                flags: #[verifier::truncate]
                (flags as i32),
            }),
            outcome matches Err(error) ==> error@ == invalid_path_error(shown@),
    {
        match path_to_cstring(path, shown) {
            Ok(path) => Ok(Self::open(path, flags)),
            Err(error) => Err(error),
        }
    }

    /// Goes on after SQLite replied with `code`, with or without setting the handle.
    pub fn opened(self, code: ResultCode, handle_is_null: bool) -> (connection: Self)
        requires
            self@ is Opening,
        ensures
            connection@ == phase_after_open(self@->path, code, handle_is_null),
    {
        if code.code() == SQLITE_OK {
            return RawSqliteConnection { phase: OpenPhase::Opened };
        }
        match self.phase {
            OpenPhase::Opening { path, .. } => {
                let shown = from_utf8_lossy(path.to_bytes());
                let error = PowerSyncError::raw_sqlite(
                    code,
                    "Could not open database ",
                    shown.as_str(),
                );
                let phase = if handle_is_null {
                    OpenPhase::Failed { error }
                } else {
                    OpenPhase::Closing { error }
                };
                RawSqliteConnection { phase }
            },
            phase => RawSqliteConnection { phase },
        }
    }

    /// Goes on after the handle of a failed attempt was closed.
    pub fn closed(self) -> (connection: Self)
        requires
            self@ is Closing,
        ensures
            connection@ == phase_after_close(self@),
    {
        match self.phase {
            OpenPhase::Closing { error } => RawSqliteConnection {
                phase: OpenPhase::Failed { error },
            },
            phase => RawSqliteConnection { phase },
        }
    }
}

/// Failed attempts to open a database leak no handle: one that SQLite allocated is closed before the
/// error is reported, none is closed that was not allocated, and the handle of a database that is
/// open is not closed.
pub proof fn failed_open_leaves_no_handle(path: Seq<u8>, code: ResultCode, handle_is_null: bool)
    ensures
        ({
            let phase = phase_after_open(path, code, handle_is_null);
            &&& phase is Opened <==> code@ == SQLITE_OK
            &&& phase is Closing <==> code@ != SQLITE_OK && !handle_is_null
            &&& phase is Failed ==> handle_is_null
            &&& code@ != SQLITE_OK ==> phase_after_close(phase) == (OpenPhaseView::Failed {
                error: open_error(path, code),
            })
        }),
{
}

/// Where the run of a statement stands after one of its steps.
#[derive(Debug)]
pub enum StepOutcome {
    /// The step gave a row: the statement has to be stepped again.
    Continue,
    /// The run is over.
    Finished(Result<(), PowerSyncError>),
}

/// The error of a step of the statement `sql` when SQLite replies with `code`.
pub open spec fn step_error(sql: Seq<char>, code: ResultCode) -> PowerSyncErrorView {
    PowerSyncErrorView::RawSqlite { code, context: "Stepping through "@ + sql }
}

/// Whether a step gave a row.
pub open spec fn is_row(reply: Reply) -> bool {
    reply matches Ok(code) && code@ == SQLITE_ROW
}

/// Goes on with running a statement to its end after SQLite replied to a step.
///
/// `sql` is the text of the statement, where SQLite can tell it.
pub fn exec_stmt(reply: Reply, sql: Result<&str, ResultCode>) -> (outcome: StepOutcome)
    ensures
        outcome is Continue <==> is_row(reply),
        outcome matches StepOutcome::Finished(Ok(_)) <==> reply is Ok && !is_row(reply),
        outcome matches StepOutcome::Finished(Err(error)) ==> error@ == step_error(
            match sql {
                Ok(text) => text@,
                Err(_) => "unknown SQL"@,
            },
            reply->Err_0,
        ),
{
    match reply {
        Ok(code) => if code.code() == SQLITE_ROW {
            StepOutcome::Continue
        } else {
            StepOutcome::Finished(Ok(()))
        },
        Err(code) => {
            let shown = match sql {
                Ok(text) => text,
                Err(_) => "unknown SQL",
            };
            StepOutcome::Finished(
                Err(PowerSyncError::raw_sqlite(code, "Stepping through ", shown)),
            )
        },
    }
}

/// How many steps the run of a statement makes, if SQLite replies to them with `replies`.
pub open spec fn steps_made(replies: Seq<Reply>) -> nat
    decreases replies.len(),
{
    if replies.len() == 0 {
        0
    } else if is_row(replies[0]) {
        1 + steps_made(replies.drop_first())
    } else {
        1
    }
}

/// A statement is stepped through all its rows, and not once more: every step before the last gave a
/// row, and the last did not.
pub proof fn statement_is_stepped_to_its_end(replies: Seq<Reply>)
    requires
        exists|i: int| 0 <= i < replies.len() && !is_row(#[trigger] replies[i]),
    ensures
        1 <= steps_made(replies) <= replies.len(),
        !is_row(replies[steps_made(replies) - 1]),
        forall|i: int| 0 <= i < steps_made(replies) - 1 ==> is_row(#[trigger] replies[i]),
    decreases replies.len(),
{
    if is_row(replies[0]) {
        let end = choose|i: int| 0 <= i < replies.len() && !is_row(#[trigger] replies[i]);
        let rest = replies.drop_first();
        assert(!is_row(rest[end - 1]));
        statement_is_stepped_to_its_end(rest);
        assert forall|i: int| 0 <= i < steps_made(replies) - 1 implies is_row(
            #[trigger] replies[i],
        ) by {
            if i > 0 {
                assert(is_row(rest[i - 1]));
            }
        }
    }
}

/// Whether a path can be handed to SQLite: it has bytes, and none of them is NUL.
pub open spec fn is_valid_path(path: Option<&[u8]>) -> bool {
    path matches Some(bytes) && !bytes@.contains(0u8)
}

/// The error of a path that cannot be handed to SQLite.
pub open spec fn invalid_path_error(shown: Seq<char>) -> PowerSyncErrorView {
    PowerSyncErrorView::ArgumentError { desc: "Invalid path: "@ + shown }
}

/// The path in the form in which SQLite takes it.
///
/// `path` is the bytes of the path, or `None` where the platform has none for it. `shown` is the
/// path as an error shows it.
pub fn path_to_cstring(path: Option<&[u8]>, shown: &str) -> (outcome: Result<
    CString,
    PowerSyncError,
>)
    ensures
        outcome is Ok <==> is_valid_path(path),
        outcome matches Ok(string) ==> string@ == path->Some_0@,
        outcome matches Err(error) ==> error@ == invalid_path_error(shown@),
{
    if let Some(bytes) = path {
        if let Some(string) = CString::new(slice_to_vec(bytes)) {
            return Ok(string);
        }
    }
    let mut desc = "Invalid path: ".to_owned();
    desc.append(shown);
    Err(PowerSyncError::ArgumentError { desc })
}

/// The errors of SQLite's calls bear the code of the reply, and say what was attempted and on what,
/// whatever code and text these are.
pub proof fn errors_tell_code_and_attempt(text: Seq<char>, bytes: Seq<u8>, code: ResultCode)
    ensures
        exec_error(text, code) == (PowerSyncErrorView::RawSqlite {
            code,
            context: "Could not run "@ + text,
        }),
        prepare_error(text, code) == (PowerSyncErrorView::RawSqlite {
            code,
            context: "Could not prepare "@ + text,
        }),
        step_error(text, code) == (PowerSyncErrorView::RawSqlite {
            code,
            context: "Stepping through "@ + text,
        }),
        open_error(bytes, code) == (PowerSyncErrorView::RawSqlite {
            code,
            context: "Could not open database "@ + displayed_text(bytes),
        }),
        open_error(vstd::utf8::encode_utf8(text), code) == (PowerSyncErrorView::RawSqlite {
            code,
            context: "Could not open database "@ + text,
        }),
        invalid_path_error(text) == (PowerSyncErrorView::ArgumentError {
            desc: "Invalid path: "@ + text,
        }),
        nested_transaction_error() == (PowerSyncErrorView::ArgumentError {
            desc: "Connection already in transaction"@,
        }),
{
    crate::cstring::texts_are_shown_as_they_are(text, bytes);
}

/// Transactions are started by a plain `BEGIN`, and are closed by `COMMIT` or `ROLLBACK`.
pub proof fn transactions_use_plain_statements()
    ensures
        TransactionStatement::Begin.spec_sql() == "BEGIN"@,
        TransactionStatement::Commit.spec_sql() == "COMMIT"@,
        TransactionStatement::Rollback.spec_sql() == "ROLLBACK"@,
{
}

/// A guard rolls back if and only if its transaction was not committed: one whose commit SQLite
/// refused, with whatever code, is rolled back; one that SQLite committed is not; and neither is one
/// that was over before.
pub proof fn guard_rolls_back_what_was_not_committed(before: bool, commit: Reply)
    ensures
        statement_on_close(active_after_commit(before, commit)) == (match (before, commit) {
            (true, Err(_)) => Some(TransactionStatement::Rollback),
            _ => None,
        }),
        statement_on_close(before) == (match before {
            true => Some(TransactionStatement::Rollback),
            false => None,
        }),
{
}

/// An attempt to open a database fails with the code that SQLite replied, whether or not there was a
/// handle to close.
pub proof fn failed_open_tells_its_code(path: Seq<u8>, code: ResultCode, handle_is_null: bool)
    requires
        code@ != 0,
    ensures
        ({
            let phase = phase_after_open(path, code, handle_is_null);
            let error = PowerSyncErrorView::RawSqlite {
                code,
                context: "Could not open database "@ + displayed_text(path),
            };
            &&& handle_is_null ==> phase == (OpenPhaseView::Failed { error })
            &&& !handle_is_null ==> phase == (OpenPhaseView::Closing { error })
            &&& phase_after_close(OpenPhaseView::Closing { error }) == (OpenPhaseView::Failed {
                error,
            })
        }),
{
}

/// A step gave a row if and only if SQLite replied with the code for it.
pub proof fn rows_have_their_code(reply: Reply)
    ensures
        is_row(reply) <==> match reply {
            Ok(code) => code@ == 100,
            Err(_) => false,
        },
{
}

/// A path can be handed to SQLite if and only if it has bytes, however many, and each of them is
/// another than NUL.
pub proof fn paths_without_nul_are_valid(path: Option<&[u8]>)
    ensures
        is_valid_path(path) <==> match path {
            None => false,
            Some(bytes) => forall|i: int| 0 <= i < bytes@.len() ==> #[trigger] bytes@[i] != 0,
        },
{
}

/// The content of a request to open a database is the request.
pub proof fn contents_of_requests_are_faithful(path: CString, flags: i32, error: PowerSyncError)
    ensures
        (RawSqliteConnection { phase: OpenPhase::Opening { path, flags } })@ == (
        OpenPhaseView::Opening { path: path@, flags }),
        (RawSqliteConnection { phase: OpenPhase::Closing { error } })@ == (OpenPhaseView::Closing {
            error: error@,
        }),
        (RawSqliteConnection { phase: OpenPhase::Opened })@ is Opened,
        (RawSqliteConnection { phase: OpenPhase::Failed { error } })@ == (OpenPhaseView::Failed {
            error: error@,
        }),
{
}

} // verus!
