//! What holds of every sync iteration, whatever the database, the connector and the service do.

use vstd::prelude::*;

#[allow(unused_imports)]
use crate::error::PowerSyncError;
#[allow(unused_imports)]
use crate::sync::download::client::{ClientAction, ClientInput, ClientPhase, ClientView};
#[allow(unused_imports)]
use crate::sync::download::sync_iteration::DownloadEvent;
#[allow(unused_imports)]
use crate::sync::instruction::Instruction;

verus! {

/// The client, and what has to be done, after it started and its actions went as `inputs` say.
pub open spec fn after<S, C>(inputs: Seq<ClientInput<S, C>>) -> (ClientView<S>, ClientAction<S, C>)
    decreases inputs.len(),
{
    if inputs.len() == 0 {
        ClientView::created().step(ClientInput::<S, C>::Started)
    } else {
        after(inputs.drop_last()).0.step(inputs.last())
    }
}

/// Whether each of `inputs` says how the action went that the client asked for at that point.
pub open spec fn is_run<S, C>(inputs: Seq<ClientInput<S, C>>) -> bool
    decreases inputs.len(),
{
    inputs.len() == 0 || {
        &&& is_run(inputs.drop_last())
        &&& after(inputs.drop_last()).0.accepts(inputs.last())
    }
}

/// Whether the client has the writer of the database after its actions went as `inputs` say.
pub open spec fn has_writer<S, C>(inputs: Seq<ClientInput<S, C>>) -> bool
    decreases inputs.len(),
{
    if inputs.len() == 0 {
        false
    } else {
        match after(inputs.drop_last()).1 {
            ClientAction::AcquireWriter => inputs.last() matches ClientInput::Writer(Ok(_)),
            ClientAction::ReleaseWriter => false,
            _ => has_writer(inputs.drop_last()),
        }
    }
}

/// Whether a sync stream was opened when the actions went as `inputs` say.
pub open spec fn opened_stream<S, C>(inputs: Seq<ClientInput<S, C>>) -> bool {
    exists|i: int|
        0 <= i < inputs.len() && #[trigger] after(inputs.take(i)).1 is OpenStream
}

/// Whether an action is one that the client asks for in its phase.
pub open spec fn fits<S, C>(client: ClientView<S>, action: ClientAction<S, C>) -> bool {
    match client.phase {
        ClientPhase::Created => false,
        ClientPhase::Receiving => action == (ClientAction::<S, C>::Receive {
            or_stream: client.has_stream,
        }),
        ClientPhase::AcquiringWriter { .. } => action is AcquireWriter,
        ClientPhase::Invoking => action is InvokeControl,
        ClientPhase::ReleasingWriter { .. } => action is ReleaseWriter,
        ClientPhase::Performing { .. } => action is Log || action is UpdateStatus || action
            is ClearDownloadErrors || action is TriggerCrudUploads,
        ClientPhase::FetchingCredentials { .. } => action is FetchCredentials,
        ClientPhase::OpeningStream { .. } => action is OpenStream,
        ClientPhase::Finished => action is Finish,
    }
}

proof fn lemma_follow_fits<S, C>(client: ClientView<S>, instructions: Seq<Instruction<S>>)
    ensures
        ({
            let (next, action) = client.following::<C>(instructions);
            &&& fits(next, action)
            &&& next.has_stream == client.has_stream
            &&& !(action is TriggerCrudUploads)
            &&& !(next.phase is Created || next.phase is AcquiringWriter || next.phase is Invoking
                || next.phase is ReleasingWriter || next.phase is OpeningStream)
        }),
    decreases instructions.len(),
{
    if instructions.len() > 0 {
        lemma_follow_fits::<S, C>(client, instructions.drop_first());
    }
}

/// The phases to which a step can lead, and what it then asks for.
proof fn lemma_step<S, C>(client: ClientView<S>, input: ClientInput<S, C>)
    requires
        client.accepts(input),
    ensures
        ({
            let (next, action) = client.step(input);
            &&& fits(next, action)
            &&& next.has_stream == (client.has_stream || client.phase is OpeningStream)
            &&& next.phase is AcquiringWriter ==> client.phase is Receiving
            &&& next.phase is Invoking ==> client.phase is AcquiringWriter
            &&& next.phase is ReleasingWriter ==> client.phase is Invoking
            &&& next.phase is OpeningStream ==> client.phase is FetchingCredentials
            &&& action is TriggerCrudUploads ==> client.phase is OpeningStream && input
                == (ClientInput::<S, C>::StreamOpened { has_coordinator: true })
        }),
{
    match client.phase {
        ClientPhase::Created => {
            lemma_follow_fits::<S, C>(client, Seq::empty());
        },
        ClientPhase::ReleasingWriter { result: Ok(instructions) } => {
            lemma_follow_fits::<S, C>(client, instructions);
        },
        ClientPhase::Performing { rest } => {
            lemma_follow_fits::<S, C>(client, rest);
        },
        ClientPhase::OpeningStream { rest } => {
            lemma_follow_fits::<S, C>(ClientView { has_stream: true, ..client }, rest);
        },
        _ => {},
    }
}

/// The phase tells the action at hand, who has the writer, and whether there is a stream.
pub(crate) proof fn lemma_run<S, C>(inputs: Seq<ClientInput<S, C>>)
    requires
        is_run(inputs),
    ensures
        fits(after(inputs).0, after(inputs).1),
        has_writer(inputs) <==> after(inputs).0.phase is Invoking || after(inputs).0.phase
            is ReleasingWriter,
        after(inputs).0.has_stream == opened_stream(inputs),
    decreases inputs.len(),
{
    if inputs.len() == 0 {
        lemma_step(ClientView::<S>::created(), ClientInput::<S, C>::Started);
    } else {
        let before = inputs.drop_last();
        lemma_run(before);
        lemma_step(after(before).0, inputs.last());
        assert(inputs.take(inputs.len() - 1) == before);
        assert(opened_stream(inputs) <==> opened_stream(before) || after(before).1 is OpenStream)
            by {
            assert forall|i: int| 0 <= i < before.len() implies #[trigger] inputs.take(i)
                == before.take(i) by {}
            if opened_stream(before) {
                let i = choose|i: int|
                    0 <= i < before.len() && #[trigger] after(before.take(i)).1 is OpenStream;
                assert(after(inputs.take(i)).1 is OpenStream);
            }
            if after(before).1 is OpenStream {
                assert(after(inputs.take(inputs.len() - 1)).1 is OpenStream);
            }
            if opened_stream(inputs) {
                let i = choose|i: int|
                    0 <= i < inputs.len() && #[trigger] after(inputs.take(i)).1 is OpenStream;
                if i < before.len() {
                    assert(after(before.take(i)).1 is OpenStream);
                }
            }
        }
    }
}

/// The client has the writer of the database only while the core extension handles an event and to
/// give it back. It never waits for an event, for credentials or for the network with it, so other
/// writes go on, and an iteration that is over has given it back.
pub proof fn writer_is_held_for_control_only<S, C>(inputs: Seq<ClientInput<S, C>>)
    requires
        is_run(inputs),
    ensures
        has_writer(inputs) <==> after(inputs).1 is InvokeControl || after(inputs).1
            is ReleaseWriter,
{
    lemma_run(inputs);
}

/// The client waits for the sync stream from the time that one was opened, and not before.
pub proof fn stream_is_read_once_opened<S, C>(inputs: Seq<ClientInput<S, C>>)
    requires
        is_run(inputs),
    ensures
        after(inputs).1 matches ClientAction::Receive { or_stream } ==> or_stream == opened_stream(
            inputs,
        ),
{
    lemma_run(inputs);
}

/// An iteration that is over does nothing any more, and one that is not is never stuck.
pub proof fn only_finished_iterations_end<S, C>(inputs: Seq<ClientInput<S, C>>)
    requires
        is_run(inputs),
    ensures
        after(inputs).1 is Finish <==> !exists|input: ClientInput<S, C>| #[trigger]
            after(inputs).0.accepts(input),
{
    lemma_run(inputs);
    let client = after(inputs).0;
    match client.phase {
        ClientPhase::Created => {
            assert(client.accepts(ClientInput::<S, C>::Started));
        },
        ClientPhase::Receiving => {
            assert(client.accepts(ClientInput::<S, C>::Command(None)));
        },
        ClientPhase::AcquiringWriter { .. } => {
            assert(client.accepts(ClientInput::<S, C>::Writer(Ok(()))));
        },
        ClientPhase::Invoking => {
            let instructions: Vec<Instruction<S>> = arbitrary();
            assert(client.accepts(ClientInput::<S, C>::Controlled(Ok(instructions))));
        },
        ClientPhase::ReleasingWriter { .. } | ClientPhase::Performing { .. } => {
            assert(client.accepts(ClientInput::<S, C>::Done));
        },
        ClientPhase::FetchingCredentials { .. } => {
            let credentials: C = arbitrary();
            assert(client.accepts(ClientInput::<S, C>::Credentials(Ok(credentials))));
        },
        ClientPhase::OpeningStream { .. } => {
            assert(client.accepts(ClientInput::<S, C>::StreamOpened { has_coordinator: true }));
        },
        ClientPhase::Finished => {},
    }
}

/// The error that an input brings, if any.
pub open spec fn error_of<S, C>(input: ClientInput<S, C>) -> Option<PowerSyncError> {
    match input {
        ClientInput::StreamItem(Err(error)) => Some(error),
        ClientInput::Writer(Err(error)) => Some(error),
        ClientInput::Controlled(Err(error)) => Some(error),
        ClientInput::Credentials(Err(error)) => Some(error),
        _ => None,
    }
}

/// No error is passed over: it ends the iteration and is its outcome. The only thing that is still
/// done is to give the writer back.
pub proof fn errors_end_the_iteration<S, C>(inputs: Seq<ClientInput<S, C>>, error: PowerSyncError)
    requires
        is_run(inputs),
        inputs.len() > 0,
        error_of(inputs.last()) == Some(error),
    ensures
        ({
            let finish = ClientAction::<S, C>::Finish { outcome: Err(error) };
            if has_writer(inputs) {
                &&& after(inputs).1 is ReleaseWriter
                &&& after(inputs).0.step(ClientInput::<S, C>::Done).1 == finish
            } else {
                after(inputs).1 == finish
            }
        }),
{
    lemma_run(inputs);
}

/// A closed command channel stops the client: once it has the writer, `Stop` is what the core
/// extension is told.
pub proof fn closed_channel_stops<S, C>(inputs: Seq<ClientInput<S, C>>)
    requires
        is_run(inputs),
        after(inputs).1 is Receive,
    ensures
        ({
            let waiting = after(inputs).0.step(ClientInput::<S, C>::Command(None));
            &&& after(inputs).0.accepts(ClientInput::<S, C>::Command(None))
            &&& waiting.1 is AcquireWriter
            &&& waiting.0.step(ClientInput::<S, C>::Writer(Ok(()))).1 == (
            ClientAction::<S, C>::InvokeControl { event: DownloadEvent::Stop })
        }),
{
    lemma_run(inputs);
}

/// A sync stream is opened right after credentials were fetched for it, with these very credentials,
/// and with the request for which they were fetched. Nothing else follows a fetch that went well.
pub proof fn streams_use_the_credentials_just_fetched<S, C>(inputs: Seq<ClientInput<S, C>>)
    requires
        is_run(inputs),
        inputs.len() > 0,
    ensures
        after(inputs).1 matches ClientAction::OpenStream { credentials, request } ==> {
            &&& after(inputs.drop_last()).1 is FetchCredentials
            &&& after(inputs.drop_last()).0.phase matches ClientPhase::FetchingCredentials {
                request: requested,
                ..
            } && requested == request
            &&& inputs.last() == ClientInput::<S, C>::Credentials(Ok(credentials))
        },
        inputs.last() matches ClientInput::Credentials(Ok(fetched)) ==> (after(
            inputs,
        ).1 matches ClientAction::OpenStream { credentials, .. } && credentials == fetched),
{
    lemma_run(inputs);
    lemma_run(inputs.drop_last());
    lemma_step(after(inputs.drop_last()).0, inputs.last());
}

/// Local changes are uploaded each time that a sync stream was opened while there was a coordinator
/// of uploads, right after it was opened, and at no other time.
pub proof fn uploads_follow_new_streams<S, C>(inputs: Seq<ClientInput<S, C>>)
    requires
        is_run(inputs),
        inputs.len() > 0,
    ensures
        after(inputs).1 is TriggerCrudUploads <==> {
            &&& after(inputs.drop_last()).1 is OpenStream
            &&& inputs.last() == (ClientInput::<S, C>::StreamOpened { has_coordinator: true })
        },
{
    lemma_run(inputs);
    lemma_run(inputs.drop_last());
    lemma_step(after(inputs.drop_last()).0, inputs.last());
}

/// The events that the client received, in the order in which they came. That no command will come
/// any more counts as `Stop`, and the end of the sync stream as `ResponseStreamEnd`.
pub open spec fn received_events<S, C>(inputs: Seq<ClientInput<S, C>>) -> Seq<DownloadEvent>
    decreases inputs.len(),
{
    if inputs.len() == 0 {
        seq![]
    } else {
        let before = received_events(inputs.drop_last());
        match inputs.last() {
            ClientInput::Command(Some(event)) => before.push(event),
            ClientInput::Command(None) => before.push(DownloadEvent::Stop),
            ClientInput::StreamItem(Ok(Some(event))) => before.push(event),
            ClientInput::StreamItem(Ok(None)) => before.push(DownloadEvent::ResponseStreamEnd),
            _ => before,
        }
    }
}

/// The events that the client had forwarded to the core extension, in their order.
pub open spec fn forwarded_events<S, C>(inputs: Seq<ClientInput<S, C>>) -> Seq<DownloadEvent>
    decreases inputs.len(),
{
    if inputs.len() == 0 {
        seq![]
    } else {
        let before = forwarded_events(inputs.drop_last());
        match after(inputs).1 {
            ClientAction::InvokeControl { event } => before.push(event),
            _ => before,
        }
    }
}

/// The event that waits for the writer.
spec fn waiting_event<S>(phase: ClientPhase<S>) -> Seq<DownloadEvent> {
    match phase {
        ClientPhase::AcquiringWriter { event } => seq![event],
        _ => seq![],
    }
}

proof fn lemma_events<S, C>(inputs: Seq<ClientInput<S, C>>)
    requires
        is_run(inputs),
    ensures
        received_events(inputs) == forwarded_events(inputs) + waiting_event(after(inputs).0.phase)
            || {
            &&& inputs.len() > 0
            &&& inputs.last() matches ClientInput::Writer(Err(_))
            &&& after(inputs).1 is Finish
            &&& received_events(inputs).len() > 0
            &&& received_events(inputs).drop_last() == forwarded_events(inputs)
        },
    decreases inputs.len(),
{
    lemma_run(inputs);
    if inputs.len() > 0 {
        let before = inputs.drop_last();
        lemma_run(before);
        lemma_events(before);
        lemma_step(after(before).0, inputs.last());
        let received = received_events(inputs);
        let forwarded = forwarded_events(inputs);
        match after(before).0.phase {
            ClientPhase::AcquiringWriter { event } => {
                if inputs.last() matches ClientInput::Writer(Ok(_)) {
                    assert(received == forwarded + waiting_event(after(inputs).0.phase));
                } else {
                    assert(received.drop_last() == forwarded);
                }
            },
            _ => {
                assert(received_events(before) == forwarded_events(before));
                assert(received == forwarded + waiting_event(after(inputs).0.phase));
            },
        }
    }
}

/// Each event that the client receives is forwarded to the core extension once, and in the order in
/// which they came. The last one may be open: the client is waiting for the writer to forward it, or
/// failed to get the writer.
pub proof fn events_are_forwarded_once_and_in_order<S, C>(inputs: Seq<ClientInput<S, C>>)
    requires
        is_run(inputs),
    ensures
        ({
            let received = received_events(inputs);
            let forwarded = forwarded_events(inputs);
            if after(inputs).1 is AcquireWriter || (inputs.len() > 0 && (
            inputs.last() matches ClientInput::Writer(Err(_)))) {
                received.len() > 0 && forwarded == received.drop_last()
            } else {
                forwarded == received
            }
        }),
{
    lemma_run(inputs);
    lemma_events(inputs);
    if inputs.len() > 0 {
        lemma_run(inputs.drop_last());
        lemma_events(inputs.drop_last());
        lemma_step(after(inputs.drop_last()).0, inputs.last());
    }
    let received = received_events(inputs);
    match after(inputs).0.phase {
        ClientPhase::AcquiringWriter { event } => {
            assert(received.drop_last() == forwarded_events(inputs));
        },
        _ => {},
    }
}

/// An event that the client receives, as a command or as an item of the sync stream, is what the core
/// extension is told as soon as the client has the writer: the event itself, whatever it is. No
/// command any more is told as `Stop`, and no item any more as `ResponseStreamEnd`.
pub proof fn received_events_reach_the_extension<S, C>(
    inputs: Seq<ClientInput<S, C>>,
    event: DownloadEvent,
)
    requires
        is_run(inputs),
        inputs.len() > 1,
        inputs.last() == ClientInput::<S, C>::Writer(Ok(())),
    ensures
        ({
            let received = inputs[inputs.len() - 2];
            let told = after(inputs).1;
            &&& received == ClientInput::<S, C>::Command(Some(event)) ==> told == (ClientAction::<
                S,
                C,
            >::InvokeControl { event })
            &&& received == ClientInput::<S, C>::StreamItem(Ok(Some(event))) ==> told == (
            ClientAction::<S, C>::InvokeControl { event })
            &&& received == ClientInput::<S, C>::Command(None) ==> told == (ClientAction::<
                S,
                C,
            >::InvokeControl { event: DownloadEvent::Stop })
            &&& received == ClientInput::<S, C>::StreamItem(Ok(None)) ==> told == (ClientAction::<
                S,
                C,
            >::InvokeControl { event: DownloadEvent::ResponseStreamEnd })
        }),
{
    reveal_with_fuel(is_run, 3);
    reveal_with_fuel(after, 3);
    lemma_run(inputs);
    lemma_run(inputs.drop_last());
    lemma_run(inputs.drop_last().drop_last());
}

/// A client that waits asks for the writer as soon as an event came, and fails with the error that
/// the sync stream gave instead of one.
pub proof fn receiving_leads_to_the_writer<S, C>(
    inputs: Seq<ClientInput<S, C>>,
    input: ClientInput<S, C>,
)
    requires
        is_run(inputs),
        after(inputs).1 is Receive,
        after(inputs).0.accepts(input),
    ensures
        match input {
            ClientInput::StreamItem(Err(error)) => after(inputs).0.step(input).1 == (ClientAction::<
                S,
                C,
            >::Finish { outcome: Err(error) }),
            _ => after(inputs).0.step(input).1 is AcquireWriter,
        },
{
    lemma_run(inputs);
}

/// The client takes any answer to the action that it asked for, and no other input: any command,
/// and any item of the sync stream once there is one; the writer or an error; any instructions or an
/// error; any credentials or an error.
pub proof fn every_answer_is_accepted<S, C>(
    inputs: Seq<ClientInput<S, C>>,
    input: ClientInput<S, C>,
)
    requires
        is_run(inputs),
    ensures
        after(inputs).0.accepts(input) <==> match after(inputs).1 {
            ClientAction::Receive { or_stream } => input is Command || (or_stream && input
                is StreamItem),
            ClientAction::AcquireWriter => input is Writer,
            ClientAction::InvokeControl { .. } => input is Controlled,
            ClientAction::FetchCredentials => input is Credentials,
            ClientAction::OpenStream { .. } => input is StreamOpened,
            ClientAction::Finish { .. } => false,
            ClientAction::ReleaseWriter
            | ClientAction::Log { .. }
            | ClientAction::UpdateStatus { .. }
            | ClientAction::TriggerCrudUploads
            | ClientAction::ClearDownloadErrors => input is Done,
        },
{
    lemma_run(inputs);
}

/// A new client starts without a sync stream, and waits for a command first.
pub proof fn iteration_starts_with_a_command<S, C>()
    ensures
        after(Seq::<ClientInput<S, C>>::empty()).1 == (ClientAction::<S, C>::Receive {
            or_stream: false,
        }),
        ClientView::<S>::created().accepts(ClientInput::<S, C>::Started),
{
}

/// An iteration fails only with an error that came as the last input, or as the one before it, where
/// the writer was given back in between.
pub proof fn iterations_fail_with_an_error_that_came<S, C>(inputs: Seq<ClientInput<S, C>>)
    requires
        is_run(inputs),
    ensures
        after(inputs).1 matches ClientAction::Finish { outcome: Err(error) } ==> inputs.len() > 0
            && (match inputs.last() {
            ClientInput::StreamItem(Err(last)) => last == error,
            ClientInput::Writer(Err(last)) => last == error,
            ClientInput::Credentials(Err(last)) => last == error,
            ClientInput::Done => inputs.len() > 1 && inputs[inputs.len() - 2] == ClientInput::<
                S,
                C,
            >::Controlled(Err(error)),
            _ => false,
        }),
{
    reveal_with_fuel(is_run, 3);
    reveal_with_fuel(after, 3);
    lemma_run(inputs);
    if inputs.len() > 0 {
        let before = inputs.drop_last();
        lemma_run(before);
        lemma_step(after(before).0, inputs.last());
        let phase = after(before).0.phase;
        if phase is Performing || phase is OpeningStream || (phase matches
            ClientPhase::ReleasingWriter { result: Ok(_) }) {
            lemma_no_error(after(before).0, inputs.last());
        }
        if before.len() > 0 {
            lemma_run(before.drop_last());
            lemma_step(after(before.drop_last()).0, before.last());
        }
    }
}

proof fn lemma_follow_does_not_fail<S, C>(client: ClientView<S>, instructions: Seq<Instruction<S>>)
    ensures
        !(client.following::<C>(instructions).1 matches ClientAction::Finish { outcome: Err(_) }),
    decreases instructions.len(),
{
    if instructions.len() > 0 {
        lemma_follow_does_not_fail::<S, C>(client, instructions.drop_first());
    }
}

/// Following instructions does not fail.
proof fn lemma_no_error<S, C>(client: ClientView<S>, input: ClientInput<S, C>)
    requires
        client.accepts(input),
        client.phase is Created || client.phase is Performing || client.phase is OpeningStream || (
        client.phase matches ClientPhase::ReleasingWriter { result: Ok(_) }),
    ensures
        !(client.step(input).1 matches ClientAction::Finish { outcome: Err(_) }),
{
    match client.phase {
        ClientPhase::Created => {
            lemma_follow_does_not_fail::<S, C>(client, Seq::empty());
        },
        ClientPhase::ReleasingWriter { result: Ok(instructions) } => {
            lemma_follow_does_not_fail::<S, C>(client, instructions);
        },
        ClientPhase::Performing { rest } => {
            lemma_follow_does_not_fail::<S, C>(client, rest);
        },
        ClientPhase::OpeningStream { rest } => {
            lemma_follow_does_not_fail::<S, C>(ClientView { has_stream: true, ..client }, rest);
        },
        _ => {},
    }
}

} // verus!
