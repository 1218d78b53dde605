//! What holds of every call of `powersync_control`, however SQLite replies.

use vstd::prelude::*;

#[allow(unused_imports)]
use crate::db::connection::{in_transaction_after, statement_on_close, TransactionStatement};
#[allow(unused_imports)]
use crate::error::{PowerSyncError, PowerSyncErrorView};
#[allow(unused_imports)]
use crate::sync::download::control::{
    outcome_view, ControlAction, ControlActionView, ControlReply, ControlView, PhaseView,
};
#[allow(unused_imports)]
use crate::sync::download::sync_iteration::{control_call, Binding, BindingView, DownloadEvent};
#[allow(unused_imports)]
use crate::sync::instruction::Instruction;

verus! {

/// The call after its actions went as `replies` say, one after the other.
pub open spec fn after<S>(call: ControlView<S>, replies: Seq<ControlReply<S>>) -> ControlView<S>
    decreases replies.len(),
{
    if replies.len() == 0 {
        call
    } else {
        after(call, replies.drop_last()).next(replies.last())
    }
}

/// Whether each of `replies` is one to the action that the call asks for at that point.
pub open spec fn is_run<S>(call: ControlView<S>, replies: Seq<ControlReply<S>>) -> bool
    decreases replies.len(),
{
    replies.len() == 0 || {
        &&& is_run(call, replies.drop_last())
        &&& after(call, replies.drop_last()).phase.accepts(replies.last())
    }
}

/// What a call has done to its connection.
#[verifier::ext_equal]
pub struct ConnectionState {
    /// Whether the connection is in a transaction that the call started.
    pub in_transaction: bool,
    /// Whether a statement is prepared and not finalized.
    pub has_statement: bool,
    /// The values bound to the parameters of the statement.
    pub bound: Map<int, BindingView>,
    /// Whether the call has committed its transaction.
    pub committed: bool,
}

impl ConnectionState {
    /// The state after an action, given how it went.
    pub open spec fn next<S>(self, action: ControlActionView, reply: ControlReply<S>) -> Self {
        match (action, reply) {
            (ControlActionView::Exec(statement), ControlReply::Executed(executed)) => {
                ConnectionState {
                    in_transaction: in_transaction_after(
                        self.in_transaction,
                        statement,
                        executed is Ok,
                    ),
                    committed: self.committed || (statement is Commit && executed is Ok),
                    ..self
                }
            },
            (ControlActionView::Prepare { .. }, ControlReply::Prepared(Ok(_))) => {
                ConnectionState { has_statement: true, bound: Map::empty(), ..self }
            },
            (ControlActionView::Bind { index, value }, ControlReply::Bound(Ok(_))) => {
                ConnectionState { bound: self.bound.insert(index, value), ..self }
            },
            (ControlActionView::Finalize, ControlReply::Finalized) => {
                ConnectionState { has_statement: false, bound: Map::empty(), ..self }
            },
            _ => self,
        }
    }
}

/// What a call has done to a connection that was idle, after its actions went as `replies` say.
pub open spec fn connection_after<S>(
    call: ControlView<S>,
    replies: Seq<ControlReply<S>>,
) -> ConnectionState
    decreases replies.len(),
{
    if replies.len() == 0 {
        ConnectionState {
            in_transaction: false,
            has_statement: false,
            bound: Map::empty(),
            committed: false,
        }
    } else {
        connection_after(call, replies.drop_last()).next(
            after(call, replies.drop_last()).action(),
            replies.last(),
        )
    }
}

/// How many actions are left at most.
spec fn actions_left<S>(phase: PhaseView<S>) -> nat {
    match phase {
        PhaseView::CheckingAutocommit => 11,
        PhaseView::Beginning => 10,
        PhaseView::Preparing => 9,
        PhaseView::BindingOperation => 8,
        PhaseView::BindingArgument => 7,
        PhaseView::Stepping => 6,
        PhaseView::ReadingText => 5,
        PhaseView::Parsing { .. } => 4,
        PhaseView::Finalizing { .. } => 3,
        PhaseView::Committing { .. } => 2,
        PhaseView::RollingBack { .. } => 1,
        PhaseView::Finished { .. } => 0,
    }
}

/// The values that a call has bound in each phase.
spec fn bound_in<S>(call: ControlView<S>) -> Map<int, BindingView> {
    let operation = Map::<int, BindingView>::empty().insert(1, BindingView::Text(call.operation));
    match call.phase {
        PhaseView::BindingArgument => operation,
        PhaseView::Stepping | PhaseView::ReadingText | PhaseView::Parsing { .. } => {
            operation.insert(2, call.argument)
        },
        _ => Map::empty(),
    }
}

/// The actions of a call happen in a fixed frame, and are at most eleven.
proof fn lemma_run<S>(operation: Seq<char>, argument: BindingView, replies: Seq<ControlReply<S>>)
    requires
        is_run(ControlView::start(operation, argument), replies),
    ensures
        ({
            let start = ControlView::start(operation, argument);
            let call = after(start, replies);
            let connection = connection_after(start, replies);
            &&& call.operation == operation
            &&& call.argument == argument
            &&& replies.len() + actions_left(call.phase) <= 11
            &&& connection.has_statement == call.phase.has_statement()
            &&& !(call.phase is Finalizing) ==> connection.bound == bound_in(call)
            &&& call.phase is Finished || connection.in_transaction == call.phase.in_transaction()
            &&& connection.committed == (call.phase matches PhaseView::Finished { outcome: Ok(_) })
            &&& connection.committed ==> !connection.in_transaction
        }),
    decreases replies.len(),
{
    if replies.len() > 0 {
        lemma_run(operation, argument, replies.drop_last());
    }
}

/// A call is over after at most eleven actions.
pub proof fn call_is_finite<S>(event: DownloadEvent, replies: Seq<ControlReply<S>>)
    requires
        is_run(ControlView::start(control_call(event).0, control_call(event).1), replies),
    ensures
        replies.len() <= 11,
        replies.len() == 11 ==> after(
            ControlView::start(control_call(event).0, control_call(event).1),
            replies,
        ).phase is Finished,
{
    lemma_run(control_call(event).0, control_call(event).1, replies);
}

/// When the statement is stepped, its two parameters are bound to the operation and the argument of
/// the event: text and bytes reach the core extension as they are.
pub proof fn event_reaches_the_extension<S>(event: DownloadEvent, replies: Seq<ControlReply<S>>)
    requires
        is_run(ControlView::start(control_call(event).0, control_call(event).1), replies),
    ensures
        ({
            let start = ControlView::start(control_call(event).0, control_call(event).1);
            after(start, replies).action() is Step ==> connection_after(start, replies).bound
                == map![
                1int => BindingView::Text(control_call(event).0),
                2int => control_call(event).1,
            ]
        }),
{
    lemma_run(control_call(event).0, control_call(event).1, replies);
}

/// The statement is finalized before the transaction is committed or rolled back, and is not left
/// behind by a call that is over.
pub proof fn statement_is_finalized_first<S>(event: DownloadEvent, replies: Seq<ControlReply<S>>)
    requires
        is_run(ControlView::start(control_call(event).0, control_call(event).1), replies),
    ensures
        ({
            let start = ControlView::start(control_call(event).0, control_call(event).1);
            let action = after(start, replies).action();
            action is Exec || action is Finished ==> !connection_after(start, replies).has_statement
        }),
{
    lemma_run(control_call(event).0, control_call(event).1, replies);
}

/// A call gives instructions if and only if it committed its transaction. The client does not follow
/// instructions whose effects were undone, and none that took effect is lost.
pub proof fn instructions_are_committed<S>(event: DownloadEvent, replies: Seq<ControlReply<S>>)
    requires
        is_run(ControlView::start(control_call(event).0, control_call(event).1), replies),
        after(
            ControlView::start(control_call(event).0, control_call(event).1),
            replies,
        ).phase is Finished,
    ensures
        ({
            let start = ControlView::start(control_call(event).0, control_call(event).1);
            after(start, replies).phase->Finished_outcome is Ok <==> connection_after(
                start,
                replies,
            ).committed
        }),
{
    lemma_run(control_call(event).0, control_call(event).1, replies);
}

/// A call that is over, a failed commit included, returns its connection outside a transaction. The
/// one exception is that SQLite refuses the rollback itself, which then was the last action.
pub proof fn call_leaves_no_transaction<S>(event: DownloadEvent, replies: Seq<ControlReply<S>>)
    requires
        is_run(ControlView::start(control_call(event).0, control_call(event).1), replies),
        after(
            ControlView::start(control_call(event).0, control_call(event).1),
            replies,
        ).phase is Finished,
    ensures
        ({
            let start = ControlView::start(control_call(event).0, control_call(event).1);
            connection_after(start, replies).in_transaction ==> {
                &&& after(start, replies.drop_last()).action() == ControlActionView::Exec(
                    TransactionStatement::Rollback,
                )
                &&& replies.last() matches ControlReply::Executed(Err(_))
            }
        }),
{
    lemma_run(control_call(event).0, control_call(event).1, replies);
    lemma_run(control_call(event).0, control_call(event).1, replies.drop_last());
}

/// A call that is given up before it is over asks for a rollback if and only if its connection is in
/// the transaction that it started. The rollback leaves the transaction, unless SQLite refuses it.
pub proof fn call_that_is_given_up_rolls_back<S>(
    event: DownloadEvent,
    replies: Seq<ControlReply<S>>,
    done: bool,
)
    requires
        is_run(ControlView::start(control_call(event).0, control_call(event).1), replies),
        !(after(
            ControlView::start(control_call(event).0, control_call(event).1),
            replies,
        ).phase is Finished),
    ensures
        ({
            let start = ControlView::start(control_call(event).0, control_call(event).1);
            let in_transaction = connection_after(start, replies).in_transaction;
            match statement_on_close(after(start, replies).phase.in_transaction()) {
                Some(statement) => {
                    &&& in_transaction
                    &&& statement is Rollback
                    &&& in_transaction_after(in_transaction, statement, done) ==> !done
                },
                None => !in_transaction,
            }
        }),
{
    lemma_run(control_call(event).0, control_call(event).1, replies);
}

/// A call takes any reply to the action that it asked for, and no other. The one exception is a step
/// that succeeds without a row, which a scalar `SELECT` does not do.
pub proof fn every_reply_to_the_action_is_accepted<S>(call: ControlView<S>, reply: ControlReply<S>)
    ensures
        call.phase.accepts(reply) <==> match call.action() {
            ControlActionView::GetAutocommit => reply is Autocommit,
            ControlActionView::Exec(_) => reply is Executed,
            ControlActionView::Prepare { .. } => reply is Prepared,
            ControlActionView::Bind { .. } => reply is Bound,
            ControlActionView::Step => match reply {
                ControlReply::Stepped(Ok(code)) => code@ == 100,
                ControlReply::Stepped(Err(_)) => true,
                _ => false,
            },
            ControlActionView::ColumnText { .. } => reply is Text,
            ControlActionView::Parse { .. } => reply is Parsed,
            ControlActionView::Finalize => reply is Finalized,
            ControlActionView::Finished => false,
        },
{
}

/// Whether a reply tells of a failure. A connection that is in a transaction already counts as one.
pub open spec fn fails<S>(reply: ControlReply<S>) -> bool {
    match reply {
        ControlReply::Autocommit(autocommit) => !autocommit,
        ControlReply::Executed(executed) => executed is Err,
        ControlReply::Prepared(prepared) => prepared is Err,
        ControlReply::Bound(bound) => bound is Err,
        ControlReply::Stepped(stepped) => stepped is Err,
        ControlReply::Text(text) => text is Err,
        ControlReply::Parsed(parsed) => parsed is Err,
        ControlReply::Finalized => false,
    }
}

/// Whether none of the replies tells of a failure.
pub open spec fn all_go_well<S>(replies: Seq<ControlReply<S>>) -> bool {
    forall|i: int| 0 <= i < replies.len() ==> !fails(#[trigger] replies[i])
}

/// The phase of a call that went well so far.
spec fn phase_so_far<S>(replies: Seq<ControlReply<S>>) -> PhaseView<S> {
    let n = replies.len();
    let instructions = replies[7]->Parsed_0->Ok_0@;
    if n == 0 {
        PhaseView::CheckingAutocommit
    } else if n == 1 {
        PhaseView::Beginning
    } else if n == 2 {
        PhaseView::Preparing
    } else if n == 3 {
        PhaseView::BindingOperation
    } else if n == 4 {
        PhaseView::BindingArgument
    } else if n == 5 {
        PhaseView::Stepping
    } else if n == 6 {
        PhaseView::ReadingText
    } else if n == 7 {
        PhaseView::Parsing { text: replies[6]->Text_0->Ok_0@ }
    } else if n == 8 {
        PhaseView::Finalizing { outcome: Ok(instructions) }
    } else if n == 9 {
        PhaseView::Committing { instructions }
    } else {
        PhaseView::Finished { outcome: Ok(instructions) }
    }
}

proof fn lemma_goes_well<S>(
    operation: Seq<char>,
    argument: BindingView,
    replies: Seq<ControlReply<S>>,
)
    requires
        is_run(ControlView::start(operation, argument), replies),
        all_go_well(replies),
    ensures
        replies.len() <= 10,
        after(ControlView::start(operation, argument), replies) == (ControlView {
            operation,
            argument,
            phase: phase_so_far(replies),
        }),
        replies.len() > 5 ==> (replies[5] matches ControlReply::Stepped(Ok(code)) && code@ == 100),
        replies.len() > 6 ==> (replies[6] matches ControlReply::Text(Ok(_))),
        replies.len() > 7 ==> (replies[7] matches ControlReply::Parsed(Ok(_))),
    decreases replies.len(),
{
    if replies.len() > 0 {
        let before = replies.drop_last();
        assert forall|i: int| 0 <= i < before.len() implies !fails(#[trigger] before[i]) by {
            assert(before[i] == replies[i]);
        }
        lemma_goes_well(operation, argument, before);
        assert(!fails(replies[replies.len() - 1]));
        if replies.len() > 6 {
            assert(before[5] == replies[5]);
        }
        if replies.len() > 7 {
            assert(before[6] == replies[6]);
        }
        if replies.len() > 8 {
            assert(before[7] == replies[7]);
        }
    }
}

/// What a call does as long as no reply tells of a failure: it makes sure that the connection is
/// outside a transaction, begins one, prepares the statement, binds the operation and the argument
/// of the event, steps the statement, reads its one column, parses that very text, finalizes the
/// statement and commits. It is over then, and its outcome is the list that was parsed: the same
/// instructions, as many, in the same order.
pub proof fn call_that_goes_well<S>(event: DownloadEvent, replies: Seq<ControlReply<S>>)
    requires
        is_run(ControlView::start(control_call(event).0, control_call(event).1), replies),
        all_go_well(replies),
    ensures
        ({
            let start = ControlView::start(control_call(event).0, control_call(event).1);
            let call = after(start, replies);
            let action = call.action();
            let n = replies.len();
            &&& n == 0 ==> action is GetAutocommit
            &&& n == 1 ==> action == ControlActionView::Exec(TransactionStatement::Begin)
            &&& n == 2 ==> action == (ControlActionView::Prepare {
                sql: "SELECT powersync_control(?, ?)"@,
            })
            &&& n == 3 ==> action == (ControlActionView::Bind {
                index: 1,
                value: BindingView::Text(control_call(event).0),
            })
            &&& n == 4 ==> action == (ControlActionView::Bind {
                index: 2,
                value: control_call(event).1,
            })
            &&& n == 5 ==> action is Step
            &&& n == 6 ==> action == (ControlActionView::ColumnText { index: 0 })
            &&& n == 7 ==> (replies[6] matches ControlReply::Text(Ok(text)) && action == (
            ControlActionView::Parse { text: text@ }))
            &&& n == 8 ==> action is Finalize
            &&& n == 9 ==> action == ControlActionView::Exec(TransactionStatement::Commit)
            &&& n == 10 ==> action is Finished && (replies[7] matches ControlReply::Parsed(Ok(list))
                && call.phase == (PhaseView::<S>::Finished { outcome: Ok(list@) }))
            &&& n <= 10
        }),
{
    lemma_goes_well(control_call(event).0, control_call(event).1, replies);
}

/// The phase of a call after its first failure, that of the reply at `i`, and what followed.
spec fn phase_after_failure<S>(
    replies: Seq<ControlReply<S>>,
    i: int,
    error: PowerSyncErrorView,
) -> PhaseView<S> {
    let followed = replies.len() - i - 1;
    let unfinalized: int = if 3 <= i <= 7 {
        1
    } else {
        0
    };
    if i < 2 || followed == unfinalized + 1 {
        PhaseView::Finished { outcome: Err(error) }
    } else if followed == unfinalized {
        PhaseView::RollingBack { error }
    } else {
        PhaseView::Finalizing { outcome: Err(error) }
    }
}

/// Whether `error` is what a call comes to when the reply at `i` was its first failure. An error of
/// SQLite bears the code of that reply.
pub open spec fn tells_of<S>(error: PowerSyncErrorView, replies: Seq<ControlReply<S>>, i: int) -> bool {
    match replies[i] {
        ControlReply::Autocommit(_) => error == (PowerSyncErrorView::ArgumentError {
            desc: "Connection already in transaction"@,
        }),
        ControlReply::Executed(executed) => error == (PowerSyncErrorView::RawSqlite {
            code: executed->Err_0,
            context: "Could not run "@ + (if i == 1 {
                "BEGIN"@
            } else {
                "COMMIT"@
            }),
        }),
        ControlReply::Prepared(prepared) => error == (PowerSyncErrorView::RawSqlite {
            code: prepared->Err_0,
            context: "Could not prepare "@ + "SELECT powersync_control(?, ?)"@,
        }),
        ControlReply::Bound(bound) => error == (PowerSyncErrorView::Sqlite { code: bound->Err_0 }),
        ControlReply::Stepped(stepped) => error == (PowerSyncErrorView::Sqlite {
            code: stepped->Err_0,
        }),
        ControlReply::Text(_) => error == (PowerSyncErrorView::ArgumentError {
            desc: "Could not read powersync_control instructions"@,
        }),
        ControlReply::Parsed(parsed) => error == (PowerSyncErrorView::Json {
            message: parsed->Err_0@,
        }),
        ControlReply::Finalized => false,
    }
}

proof fn lemma_fails<S>(
    operation: Seq<char>,
    argument: BindingView,
    replies: Seq<ControlReply<S>>,
    i: int,
) -> (error: PowerSyncErrorView)
    requires
        is_run(ControlView::start(operation, argument), replies),
        0 <= i < replies.len(),
        all_go_well(replies.take(i)),
        fails(replies[i]),
    ensures
        tells_of(error, replies, i),
        after(ControlView::start(operation, argument), replies).phase == phase_after_failure(
            replies,
            i,
            error,
        ),
        i <= 9,
        i != 8,
        replies.len() - i - 1 <= (if i < 2 {
            0int
        } else if 3 <= i <= 7 {
            2
        } else {
            1
        }),
    decreases replies.len(),
{
    let before = replies.drop_last();
    if i == replies.len() - 1 {
        assert(before == replies.take(i));
        lemma_goes_well(operation, argument, before);
        match after(ControlView::<S>::start(operation, argument), replies).phase {
            PhaseView::Finalizing { outcome: Err(error) } => error,
            PhaseView::RollingBack { error } => error,
            PhaseView::Finished { outcome: Err(error) } => error,
            _ => arbitrary(),
        }
    } else {
        assert(before.take(i) == replies.take(i));
        assert(before[i] == replies[i]);
        lemma_fails(operation, argument, before, i)
    }
}

/// The first reply that tells of a failure decides the call. From then on it neither commits nor does
/// anything but to finalize its statement, where there is one, and to roll its transaction back, where
/// it was begun. When the call is over, its outcome is an error that tells of that very reply.
pub proof fn first_failure_decides<S>(
    event: DownloadEvent,
    replies: Seq<ControlReply<S>>,
    i: int,
)
    requires
        is_run(ControlView::start(control_call(event).0, control_call(event).1), replies),
        0 <= i < replies.len(),
        all_go_well(replies.take(i)),
        fails(replies[i]),
    ensures
        ({
            let start = ControlView::start(control_call(event).0, control_call(event).1);
            let call = after(start, replies);
            let action = call.action();
            let followed = replies.len() - i - 1;
            &&& action != ControlActionView::Exec(TransactionStatement::Commit)
            &&& match replies[i] {
                ControlReply::Autocommit(_) => action is Finished,
                ControlReply::Executed(_) => if i == 1 {
                    action is Finished
                } else {
                    rolls_back(action, followed)
                },
                ControlReply::Prepared(_) => rolls_back(action, followed),
                _ => if followed == 0 {
                    action is Finalize
                } else {
                    rolls_back(action, followed - 1)
                },
            }
            &&& action is Finished ==> (call.phase matches PhaseView::Finished { outcome: Err(error) }
                && tells_of(error, replies, i))
        }),
{
    let _ = lemma_fails(control_call(event).0, control_call(event).1, replies, i);
    lemma_prefix(ControlView::start(control_call(event).0, control_call(event).1), replies, i);
    lemma_prefix(ControlView::start(control_call(event).0, control_call(event).1), replies, i + 1);
    assert(replies.take(i + 1).drop_last() == replies.take(i));
    assert(replies.take(i + 1).last() == replies[i]);
    lemma_goes_well(control_call(event).0, control_call(event).1, replies.take(i));
}

/// Whether an action, and how many others came before it, roll a transaction back.
pub open spec fn rolls_back(action: ControlActionView, before: int) -> bool {
    if before == 0 {
        action == ControlActionView::Exec(TransactionStatement::Rollback)
    } else {
        action is Finished
    }
}

/// The start of a run is a run.
proof fn lemma_prefix<S>(call: ControlView<S>, replies: Seq<ControlReply<S>>, i: int)
    requires
        is_run(call, replies),
        0 <= i <= replies.len(),
    ensures
        is_run(call, replies.take(i)),
    decreases replies.len(),
{
    if i < replies.len() {
        assert(replies.drop_last().take(i) == replies.take(i));
        lemma_prefix(call, replies.drop_last(), i);
    } else {
        assert(replies.take(i) == replies);
    }
}

/// A call gives instructions only where nothing failed: the step gave a row, its text was read and
/// parsed, and the instructions are those that it was parsed to, all of them, in their order.
pub proof fn instructions_are_those_parsed<S>(
    event: DownloadEvent,
    replies: Seq<ControlReply<S>>,
    instructions: Seq<Instruction<S>>,
)
    requires
        is_run(ControlView::start(control_call(event).0, control_call(event).1), replies),
        after(
            ControlView::start(control_call(event).0, control_call(event).1),
            replies,
        ).phase == (PhaseView::<S>::Finished { outcome: Ok(instructions) }),
    ensures
        all_go_well(replies),
        replies.len() == 10,
        replies[5] matches ControlReply::Stepped(Ok(code)) && code@ == 100,
        replies[6] matches ControlReply::Text(Ok(_)),
        replies[7] matches ControlReply::Parsed(Ok(list)) && instructions == list@,
{
    if !all_go_well(replies) {
        let i = lemma_first_failure(replies);
        let _ = lemma_fails(control_call(event).0, control_call(event).1, replies, i);
    }
    lemma_goes_well(control_call(event).0, control_call(event).1, replies);
}

/// Where some reply tells of a failure, there is a first one.
proof fn lemma_first_failure<S>(replies: Seq<ControlReply<S>>) -> (i: int)
    requires
        !all_go_well(replies),
    ensures
        0 <= i < replies.len(),
        fails(replies[i]),
        all_go_well(replies.take(i)),
    decreases replies.len(),
{
    let before = replies.drop_last();
    if all_go_well(before) {
        assert forall|j: int| 0 <= j < before.len() implies !fails(#[trigger] replies[j]) by {
            assert(!fails(before[j]));
        }
        let last = replies.len() - 1;
        assert(replies.take(last) == before);
        last
    } else {
        let i = lemma_first_failure(before);
        assert(before.take(i) == replies.take(i));
        i
    }
}

/// No failure is passed over, wherever in a call it came: a call that is over and was told of one has
/// an error as its outcome, and one that is not over will not commit.
pub proof fn failures_are_not_passed_over<S>(
    event: DownloadEvent,
    replies: Seq<ControlReply<S>>,
    i: int,
)
    requires
        is_run(ControlView::start(control_call(event).0, control_call(event).1), replies),
        0 <= i < replies.len(),
        fails(replies[i]),
    ensures
        ({
            let start = ControlView::start(control_call(event).0, control_call(event).1);
            let call = after(start, replies);
            &&& call.action() != ControlActionView::Exec(TransactionStatement::Commit)
            &&& call.action() is Finished ==> (call.phase matches PhaseView::Finished {
                outcome: Err(_),
            })
            &&& call.action() is Finished ==> match replies[i] {
                ControlReply::Bound(Err(code)) => call.phase == (PhaseView::<S>::Finished {
                    outcome: Err(PowerSyncErrorView::Sqlite { code }),
                }),
                ControlReply::Stepped(Err(code)) => call.phase == (PhaseView::<S>::Finished {
                    outcome: Err(PowerSyncErrorView::Sqlite { code }),
                }),
                _ => true,
            }
        }),
{
    assert(!all_go_well(replies));
    let first = lemma_first_failure(replies);
    let _ = lemma_fails(control_call(event).0, control_call(event).1, replies, first);
    if first != i {
        assert(first < i) by {
            if i < first {
                assert(fails(replies.take(first)[i]));
            }
        }
        lemma_kinds_after_failure(
            control_call(event).0,
            control_call(event).1,
            replies,
            first,
            i,
        );
    }
}

/// After the first failure, what is told is only that the statement is finalized and how the rollback
/// went.
proof fn lemma_kinds_after_failure<S>(
    operation: Seq<char>,
    argument: BindingView,
    replies: Seq<ControlReply<S>>,
    first: int,
    i: int,
)
    requires
        is_run(ControlView::start(operation, argument), replies),
        0 <= first < i < replies.len(),
        all_go_well(replies.take(first)),
        fails(replies[first]),
    ensures
        replies[i] is Finalized || replies[i] is Executed,
    decreases replies.len(),
{
    let before = replies.drop_last();
    assert(before.take(first) == replies.take(first));
    assert(before[first] == replies[first]);
    if i == replies.len() - 1 {
        let _ = lemma_fails(operation, argument, before, first);
    } else {
        lemma_kinds_after_failure(operation, argument, before, first, i);
        assert(before[i] == replies[i]);
    }
}

/// The content of an action is the action: the same statement, the same index and the same value.
/// That of an outcome is the outcome: the instructions in their order, or the error.
pub proof fn contents_are_faithful<S>(
    index: i32,
    value: Binding<'_>,
    statement: TransactionStatement,
    text: &'static str,
    instructions: Vec<Instruction<S>>,
    error: PowerSyncError,
)
    ensures
        ControlAction::GetAutocommit@ is GetAutocommit,
        ControlAction::Exec(statement)@ == ControlActionView::Exec(statement),
        ControlAction::Prepare(text)@ == (ControlActionView::Prepare { sql: text@ }),
        (ControlAction::Bind { index, value })@ == (ControlActionView::Bind {
            index: index as int,
            value: value@,
        }),
        ControlAction::Step@ is Step,
        (ControlAction::ColumnText { index })@ == (ControlActionView::ColumnText {
            index: index as int,
        }),
        (ControlAction::Parse { text })@ == (ControlActionView::Parse { text: text@ }),
        ControlAction::Finalize@ is Finalize,
        ControlAction::Finished@ is Finished,
        outcome_view(Ok(instructions)) == Ok::<Seq<Instruction<S>>, PowerSyncErrorView>(
            instructions@,
        ),
        outcome_view::<S>(Err(error)) == Err::<Seq<Instruction<S>>, PowerSyncErrorView>(error@),
{
}

/// What a call asks for when it is given up can be told from its action at hand: nothing before its
/// transaction was begun and nothing when it is over, and a rollback at any other time.
pub proof fn calls_roll_back_while_under_way<S>(call: ControlView<S>)
    ensures
        statement_on_close(call.phase.in_transaction()) == match call.action() {
            ControlActionView::GetAutocommit => None,
            ControlActionView::Exec(TransactionStatement::Begin) => None,
            ControlActionView::Finished => None,
            _ => Some(TransactionStatement::Rollback),
        },
{
}

} // verus!
