//! Calls of `powersync_control`, the function by which the core extension takes events.
//!
//! A call runs in a transaction of its own. [`ControlInvocation`] names what has to be done on the
//! connection, one action after the other, and is told how each went.

use vstd::prelude::*;

#[allow(unused_imports)]
use crate::db::connection::{
    exec_error, is_row, nested_transaction_error, prepare_error, statement_on_close,
};
use crate::db::connection::{
    PendingTransaction, SqliteConnection, TransactionGuard, TransactionStatement,
};
use crate::db::result_code::{Reply, ResultCode};
#[allow(unused_imports)]
use crate::error::PowerSyncErrorView;
use crate::error::PowerSyncError;
use crate::sync::download::sync_iteration::{Binding, DownloadEvent, PowerSyncControlArgument};
#[allow(unused_imports)]
use crate::sync::download::sync_iteration::{control_call, BindingView};
use crate::sync::instruction::Instruction;

verus! {

/// The statement that calls `powersync_control`.
pub const CONTROL_SQL: &'static str = "SELECT powersync_control(?, ?)";

/// How far a call has come.
#[derive(Debug)]
enum Phase<S> {
    CheckingAutocommit,
    Beginning(PendingTransaction),
    Preparing,
    BindingOperation,
    BindingArgument,
    Stepping,
    ReadingText,
    Parsing(String),
    Finalizing(Result<Vec<Instruction<S>>, PowerSyncError>),
    Committing(Vec<Instruction<S>>),
    RollingBack(PowerSyncError),
    Finished(Result<Vec<Instruction<S>>, PowerSyncError>),
}

/// A call of `powersync_control` under way; `S` is the status of the download in its instructions.
#[derive(Debug)]
pub struct ControlInvocation<S> {
    operation: &'static str,
    argument: PowerSyncControlArgument,
    guard: Option<TransactionGuard>,
    phase: Phase<S>,
}

/// What has to be done next for a call.
#[derive(Debug)]
pub enum ControlAction<'a> {
    /// Look whether the connection is in autocommit mode.
    GetAutocommit,
    /// Execute a statement that opens or closes a transaction.
    Exec(TransactionStatement),
    /// Prepare a statement.
    Prepare(&'static str),
    /// Bind a value to a parameter of the statement.
    Bind { index: i32, value: Binding<'a> },
    /// Step the statement.
    Step,
    /// Read a column of the row as text.
    ColumnText { index: i32 },
    /// Parse a text as a list of instructions.
    Parse { text: &'a str },
    /// Finalize the statement.
    Finalize,
    /// Nothing: the call is over, and has an outcome.
    Finished,
}

/// How an action went.
#[derive(Debug)]
pub enum ControlReply<S> {
    /// To [`ControlAction::GetAutocommit`].
    Autocommit(bool),
    /// To [`ControlAction::Exec`].
    Executed(Reply),
    /// To [`ControlAction::Prepare`].
    Prepared(Result<(), ResultCode>),
    /// To [`ControlAction::Bind`].
    Bound(Reply),
    /// To [`ControlAction::Step`].
    Stepped(Reply),
    /// To [`ControlAction::ColumnText`].
    Text(Result<String, ResultCode>),
    /// To [`ControlAction::Parse`]: the instructions, or what is wrong with the text.
    Parsed(Result<Vec<Instruction<S>>, String>),
    /// To [`ControlAction::Finalize`].
    Finalized,
}

/// The outcome of a call: the instructions that the client has to follow, or an error.
pub type OutcomeView<S> = Result<Seq<Instruction<S>>, PowerSyncErrorView>;

/// How far a call has come.
#[verifier::ext_equal]
pub enum PhaseView<S> {
    /// It has not begun.
    CheckingAutocommit,
    /// The transaction has to be started.
    Beginning,
    /// The statement has to be prepared.
    Preparing,
    /// The operation has to be bound.
    BindingOperation,
    /// The argument has to be bound.
    BindingArgument,
    /// The statement has to be stepped.
    Stepping,
    /// The instructions have to be read.
    ReadingText,
    /// The instructions have to be parsed.
    Parsing { text: Seq<char> },
    /// The statement has to be finalized.
    Finalizing { outcome: OutcomeView<S> },
    /// The transaction has to be committed.
    Committing { instructions: Seq<Instruction<S>> },
    /// The transaction has to be rolled back.
    RollingBack { error: PowerSyncErrorView },
    /// It is over.
    Finished { outcome: OutcomeView<S> },
}

/// A call, as far as its contract speaks of it.
#[verifier::ext_equal]
pub struct ControlView<S> {
    pub operation: Seq<char>,
    pub argument: BindingView,
    pub phase: PhaseView<S>,
}

/// The content of a [`ControlAction`].
#[verifier::ext_equal]
pub enum ControlActionView {
    GetAutocommit,
    Exec(TransactionStatement),
    Prepare { sql: Seq<char> },
    Bind { index: int, value: BindingView },
    Step,
    ColumnText { index: int },
    Parse { text: Seq<char> },
    Finalize,
    Finished,
}

impl<'a> View for ControlAction<'a> {
    type V = ControlActionView;

    open spec fn view(&self) -> ControlActionView {
        match *self {
            ControlAction::GetAutocommit => ControlActionView::GetAutocommit,
            ControlAction::Exec(statement) => ControlActionView::Exec(statement),
            ControlAction::Prepare(sql) => ControlActionView::Prepare { sql: sql@ },
            ControlAction::Bind { index, value } => ControlActionView::Bind {
                index: index as int,
                value: value@,
            },
            ControlAction::Step => ControlActionView::Step,
            ControlAction::ColumnText { index } => ControlActionView::ColumnText {
                index: index as int,
            },
            ControlAction::Parse { text } => ControlActionView::Parse { text: text@ },
            ControlAction::Finalize => ControlActionView::Finalize,
            ControlAction::Finished => ControlActionView::Finished,
        }
    }
}

/// An outcome, by the content of its parts.
pub open spec fn outcome_view<S>(
    outcome: Result<Vec<Instruction<S>>, PowerSyncError>,
) -> OutcomeView<S> {
    match outcome {
        Ok(instructions) => Ok(instructions@),
        Err(error) => Err(error@),
    }
}

impl<S> View for ControlInvocation<S> {
    type V = ControlView<S>;

    closed spec fn view(&self) -> ControlView<S> {
        ControlView {
            operation: self.operation@,
            argument: self.argument@,
            phase: self.phase.content(),
        }
    }
}

impl<S> Phase<S> {
    spec fn content(self) -> PhaseView<S> {
        match self {
            Phase::CheckingAutocommit => PhaseView::CheckingAutocommit,
            Phase::Beginning(_) => PhaseView::Beginning,
            Phase::Preparing => PhaseView::Preparing,
            Phase::BindingOperation => PhaseView::BindingOperation,
            Phase::BindingArgument => PhaseView::BindingArgument,
            Phase::Stepping => PhaseView::Stepping,
            Phase::ReadingText => PhaseView::ReadingText,
            Phase::Parsing(text) => PhaseView::Parsing { text: text@ },
            Phase::Finalizing(outcome) => PhaseView::Finalizing { outcome: outcome_view(outcome) },
            Phase::Committing(instructions) => PhaseView::Committing {
                instructions: instructions@,
            },
            Phase::RollingBack(error) => PhaseView::RollingBack { error: error@ },
            Phase::Finished(outcome) => PhaseView::Finished { outcome: outcome_view(outcome) },
        }
    }
}

impl<S> PhaseView<S> {
    /// Whether a transaction of this call is open.
    pub open spec fn in_transaction(self) -> bool {
        !(self is CheckingAutocommit || self is Beginning || self is Finished)
    }

    /// Whether the statement of this call is prepared and not finalized.
    pub open spec fn has_statement(self) -> bool {
        self.in_transaction() && !(self is Preparing || self is Committing || self is RollingBack)
    }

    /// Whether `reply` is one to what has to be done in this phase.
    ///
    /// The statement is a scalar `SELECT`: its first step gives a row, where it does not fail.
    pub open spec fn accepts(self, reply: ControlReply<S>) -> bool {
        match self {
            PhaseView::CheckingAutocommit => reply is Autocommit,
            PhaseView::Beginning => reply is Executed,
            PhaseView::Preparing => reply is Prepared,
            PhaseView::BindingOperation => reply is Bound,
            PhaseView::BindingArgument => reply is Bound,
            PhaseView::Stepping => reply matches ControlReply::Stepped(stepped) && (stepped is Err
                || is_row(stepped)),
            PhaseView::ReadingText => reply is Text,
            PhaseView::Parsing { .. } => reply is Parsed,
            PhaseView::Finalizing { .. } => reply is Finalized,
            PhaseView::Committing { .. } => reply is Executed,
            PhaseView::RollingBack { .. } => reply is Executed,
            PhaseView::Finished { .. } => false,
        }
    }

    /// The phase after this one, given how its action went.
    pub open spec fn next(self, reply: ControlReply<S>) -> PhaseView<S> {
        match (self, reply) {
            (PhaseView::CheckingAutocommit, ControlReply::Autocommit(autocommit)) => {
                if autocommit {
                    PhaseView::Beginning
                } else {
                    PhaseView::Finished { outcome: Err(nested_transaction_error()) }
                }
            },
            (PhaseView::Beginning, ControlReply::Executed(Ok(_))) => PhaseView::Preparing,
            (PhaseView::Beginning, ControlReply::Executed(Err(code))) => PhaseView::Finished {
                outcome: Err(exec_error(TransactionStatement::Begin.spec_sql(), code)),
            },
            (PhaseView::Preparing, ControlReply::Prepared(Ok(_))) => PhaseView::BindingOperation,
            (PhaseView::Preparing, ControlReply::Prepared(Err(code))) => PhaseView::RollingBack {
                error: prepare_error(CONTROL_SQL@, code),
            },
            (PhaseView::BindingOperation, ControlReply::Bound(Ok(_))) => PhaseView::BindingArgument,
            (PhaseView::BindingArgument, ControlReply::Bound(Ok(_))) => PhaseView::Stepping,
            (PhaseView::Stepping, ControlReply::Stepped(Ok(_))) => PhaseView::ReadingText,
            (PhaseView::BindingOperation, ControlReply::Bound(Err(code)))
            | (PhaseView::BindingArgument, ControlReply::Bound(Err(code)))
            | (PhaseView::Stepping, ControlReply::Stepped(Err(code))) => PhaseView::Finalizing {
                outcome: Err(PowerSyncErrorView::Sqlite { code }),
            },
            (PhaseView::ReadingText, ControlReply::Text(Ok(text))) => PhaseView::Parsing {
                text: text@,
            },
            (PhaseView::ReadingText, ControlReply::Text(Err(_))) => PhaseView::Finalizing {
                outcome: Err(
                    PowerSyncErrorView::ArgumentError {
                        desc: "Could not read powersync_control instructions"@,
                    },
                ),
            },
            (PhaseView::Parsing { .. }, ControlReply::Parsed(Ok(instructions))) => {
                PhaseView::Finalizing { outcome: Ok(instructions@) }
            },
            (PhaseView::Parsing { .. }, ControlReply::Parsed(Err(message))) => {
                PhaseView::Finalizing {
                    outcome: Err(PowerSyncErrorView::Json { message: message@ }),
                }
            },
            (PhaseView::Finalizing { outcome: Ok(instructions) }, _) => PhaseView::Committing {
                instructions,
            },
            (PhaseView::Finalizing { outcome: Err(error) }, _) => PhaseView::RollingBack { error },
            (PhaseView::Committing { instructions }, ControlReply::Executed(Ok(_))) => {
                PhaseView::Finished { outcome: Ok(instructions) }
            },
            (PhaseView::Committing { .. }, ControlReply::Executed(Err(code))) => {
                PhaseView::RollingBack {
                    error: exec_error(TransactionStatement::Commit.spec_sql(), code),
                }
            },
            (PhaseView::RollingBack { error }, _) => PhaseView::Finished { outcome: Err(error) },
            _ => self,
        }
    }
}

impl<S> ControlView<S> {
    /// A call that has not begun.
    pub open spec fn start(operation: Seq<char>, argument: BindingView) -> ControlView<S> {
        ControlView { operation, argument, phase: PhaseView::CheckingAutocommit }
    }

    /// What has to be done next.
    pub open spec fn action(self) -> ControlActionView {
        match self.phase {
            PhaseView::CheckingAutocommit => ControlActionView::GetAutocommit,
            PhaseView::Beginning => ControlActionView::Exec(TransactionStatement::Begin),
            PhaseView::Preparing => ControlActionView::Prepare { sql: CONTROL_SQL@ },
            PhaseView::BindingOperation => ControlActionView::Bind {
                index: 1,
                value: BindingView::Text(self.operation),
            },
            PhaseView::BindingArgument => ControlActionView::Bind {
                index: 2,
                value: self.argument,
            },
            PhaseView::Stepping => ControlActionView::Step,
            PhaseView::ReadingText => ControlActionView::ColumnText { index: 0 },
            PhaseView::Parsing { text } => ControlActionView::Parse { text },
            PhaseView::Finalizing { .. } => ControlActionView::Finalize,
            PhaseView::Committing { .. } => ControlActionView::Exec(TransactionStatement::Commit),
            PhaseView::RollingBack { .. } => ControlActionView::Exec(
                TransactionStatement::Rollback,
            ),
            PhaseView::Finished { .. } => ControlActionView::Finished,
        }
    }

    /// The call after this one's action went as `reply` says.
    pub open spec fn next(self, reply: ControlReply<S>) -> ControlView<S> {
        ControlView { phase: self.phase.next(reply), ..self }
    }
}

impl DownloadEvent {
    /// Forwards the event to the core extension: the call that has to be made. Its outcome is the
    /// instructions that the client needs to perform.
    pub fn invoke_control<S>(self) -> (invocation: ControlInvocation<S>)
        ensures
            invocation@ == ControlView::<S>::start(control_call(self).0, control_call(self).1),
    {
        let (operation, argument) = self.into_powersync_control_argument();
        ControlInvocation { operation, argument, guard: None, phase: Phase::CheckingAutocommit }
    }
}

/// The phase in which a call is given up for `error`.
fn abandon<S>(guard: &TransactionGuard, error: PowerSyncError) -> (phase: Phase<S>)
    requires
        guard.is_active(),
    ensures
        phase.content() == (PhaseView::<S>::RollingBack { error: error@ }),
{
    match guard.closing_statement() {
        Some(_) => Phase::RollingBack(error),
        None => Phase::Finished(Err(error)),
    }
}

impl<S> ControlInvocation<S> {
    #[verifier::type_invariant]
    spec fn guards_its_transaction(self) -> bool {
        self.phase.content().in_transaction() <==> (self.guard matches Some(guard)
            && guard.is_active())
    }

    /// What has to be done next.
    pub fn action(&self) -> (action: ControlAction<'_>)
        ensures
            action@ == self@.action(),
    {
        match &self.phase {
            Phase::CheckingAutocommit => ControlAction::GetAutocommit,
            Phase::Beginning(pending) => ControlAction::Exec(pending.statement()),
            Phase::Preparing => ControlAction::Prepare(CONTROL_SQL),
            Phase::BindingOperation => ControlAction::Bind {
                index: 1,
                value: Binding::Text(self.operation),
            },
            Phase::BindingArgument => ControlAction::Bind {
                index: 2,
                value: self.argument.bind_to(),
            },
            Phase::Stepping => ControlAction::Step,
            Phase::ReadingText => ControlAction::ColumnText { index: 0 },
            Phase::Parsing(text) => ControlAction::Parse { text: text.as_str() },
            Phase::Finalizing(_) => ControlAction::Finalize,
            Phase::Committing(_) => ControlAction::Exec(TransactionStatement::Commit),
            Phase::RollingBack(_) => ControlAction::Exec(TransactionStatement::Rollback),
            Phase::Finished(_) => ControlAction::Finished,
        }
    }

    /// Goes on after the action went as `reply` says.
    pub fn resume(self, reply: ControlReply<S>) -> (invocation: Self)
        requires
            self@.phase.accepts(reply),
        ensures
            invocation@ == self@.next(reply),
    {
        proof {
            use_type_invariant(&self);
        }
        let ControlInvocation { operation, argument, mut guard, phase } = self;
        let phase = match (phase, reply) {
            (Phase::CheckingAutocommit, ControlReply::Autocommit(autocommit)) => {
                match TransactionGuard::new(&SqliteConnection { autocommit }) {
                    Ok(pending) => Phase::Beginning(pending),
                    Err(error) => Phase::Finished(Err(error)),
                }
            },
            (Phase::Beginning(pending), ControlReply::Executed(reply)) => {
                match pending.begun(reply) {
                    Ok(begun) => {
                        guard = Some(begun);
                        Phase::Preparing
                    },
                    Err(error) => Phase::Finished(Err(error)),
                }
            },
            (Phase::Preparing, ControlReply::Prepared(reply)) => {
                let connection = SqliteConnection { autocommit: false };
                match connection.prepare(CONTROL_SQL, reply) {
                    Ok(_) => Phase::BindingOperation,
                    Err(error) => abandon(guard.as_ref().unwrap(), error),
                }
            },
            (Phase::BindingOperation, ControlReply::Bound(reply)) => match reply {
                Ok(_) => Phase::BindingArgument,
                Err(code) => Phase::Finalizing(Err(PowerSyncError::Sqlite { code })),
            },
            (Phase::BindingArgument, ControlReply::Bound(reply)) => match reply {
                Ok(_) => Phase::Stepping,
                Err(code) => Phase::Finalizing(Err(PowerSyncError::Sqlite { code })),
            },
            (Phase::Stepping, ControlReply::Stepped(reply)) => match reply {
                Ok(_) => Phase::ReadingText,
                Err(code) => Phase::Finalizing(Err(PowerSyncError::Sqlite { code })),
            },
            (Phase::ReadingText, ControlReply::Text(reply)) => match reply {
                Ok(text) => Phase::Parsing(text),
                Err(_) => Phase::Finalizing(
                    Err(
                        PowerSyncError::argument_error(
                            "Could not read powersync_control instructions",
                        ),
                    ),
                ),
            },
            (Phase::Parsing(_), ControlReply::Parsed(reply)) => match reply {
                Ok(instructions) => Phase::Finalizing(Ok(instructions)),
                Err(message) => Phase::Finalizing(Err(PowerSyncError::Json { message })),
            },
            (Phase::Finalizing(outcome), ControlReply::Finalized) => match outcome {
                Ok(instructions) => Phase::Committing(instructions),
                Err(error) => abandon(guard.as_ref().unwrap(), error),
            },
            (Phase::Committing(instructions), ControlReply::Executed(reply)) => {
                let mut transaction = guard.unwrap();
                let phase = match transaction.commit(reply) {
                    Ok(_) => Phase::Finished(Ok(instructions)),
                    Err(error) => abandon(&transaction, error),
                };
                guard = Some(transaction);
                phase
            },
            (Phase::RollingBack(error), ControlReply::Executed(_)) => {
                guard = None;
                Phase::Finished(Err(error))
            },
            (phase, _) => phase,
        };
        ControlInvocation { operation, argument, guard, phase }
    }

    /// The statement that has to run when the call is given up where it stands, if any: its
    /// transaction is rolled back while it is open. The statement of the call is finalized first.
    pub fn closing_statement(&self) -> (statement: Option<TransactionStatement>)
        ensures
            statement == statement_on_close(self@.phase.in_transaction()),
    {
        proof {
            use_type_invariant(self);
        }
        match &self.guard {
            Some(guard) => guard.closing_statement(),
            None => None,
        }
    }

    /// The outcome of a call that is over.
    pub fn into_outcome(self) -> (outcome: Result<Vec<Instruction<S>>, PowerSyncError>)
        requires
            self@.phase is Finished,
        ensures
            outcome_view(outcome) == self@.phase->Finished_outcome,
            outcome matches Ok(instructions) ==> self@.phase->Finished_outcome == Ok::<
                Seq<Instruction<S>>,
                PowerSyncErrorView,
            >(instructions@),
            outcome matches Err(error) ==> self@.phase->Finished_outcome == Err::<
                Seq<Instruction<S>>,
                PowerSyncErrorView,
            >(error@),
    {
        match self.phase {
            Phase::Finished(outcome) => outcome,
            _ => Ok(Vec::new()),
        }
    }
}

} // verus!
