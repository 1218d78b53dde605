//! How a sync iteration carries out the instructions of the core extension.

use vstd::prelude::*;

#[allow(unused_imports)]
use crate::sync::download::client::{follow, ClientAction, ClientInput, ClientPhase, ClientView};
#[allow(unused_imports)]
use crate::sync::download::client_laws::{after, fits, is_run, lemma_run};
#[allow(unused_imports)]
use crate::sync::instruction::{CloseSyncStream, Instruction};

verus! {

/// The action by which the client begins to carry out an instruction, if it has anything to do.
pub open spec fn first_action<S, C>(instruction: Instruction<S>) -> Seq<ClientAction<S, C>> {
    match instruction {
        Instruction::LogLine { severity, line } => seq![ClientAction::Log { severity, line }],
        Instruction::UpdateSyncStatus { status } => seq![ClientAction::UpdateStatus { status }],
        Instruction::EstablishSyncStream { .. } => seq![ClientAction::FetchCredentials],
        Instruction::DidCompleteSync => seq![ClientAction::ClearDownloadErrors],
        Instruction::FetchCredentials { .. } => seq![],
        Instruction::FlushFileSystem => seq![],
        Instruction::CloseSyncStream(_) => seq![],
    }
}

/// The actions by which the client begins to carry out each of the instructions, in their order.
pub open spec fn first_actions<S, C>(instructions: Seq<Instruction<S>>) -> Seq<ClientAction<S, C>>
    decreases instructions.len(),
{
    if instructions.len() == 0 {
        seq![]
    } else {
        first_action(instructions[0]) + first_actions(instructions.drop_first())
    }
}

/// Whether an action begins to carry out an instruction.
pub open spec fn begins_instruction<S, C>(action: ClientAction<S, C>) -> bool {
    action is Log || action is UpdateStatus || action is FetchCredentials || action
        is ClearDownloadErrors
}

/// The actions that the client asked for to begin with an instruction, in their order.
pub open spec fn begun<S, C>(inputs: Seq<ClientInput<S, C>>) -> Seq<ClientAction<S, C>>
    decreases inputs.len(),
{
    if inputs.len() == 0 {
        seq![]
    } else {
        let before = begun(inputs.drop_last());
        let action = after(inputs).1;
        if begins_instruction(action) {
            before.push(action)
        } else {
            before
        }
    }
}

/// The instructions that the client received, those of one call after those of the one before.
pub open spec fn received_instructions<S, C>(inputs: Seq<ClientInput<S, C>>) -> Seq<Instruction<S>>
    decreases inputs.len(),
{
    if inputs.len() == 0 {
        seq![]
    } else {
        let before = received_instructions(inputs.drop_last());
        match inputs.last() {
            ClientInput::Controlled(Ok(instructions)) => before + instructions@,
            _ => before,
        }
    }
}

/// How many instructions stand before the first that closes the stream.
pub open spec fn before_close<S>(instructions: Seq<Instruction<S>>) -> nat
    decreases instructions.len(),
{
    if instructions.len() == 0 || instructions[0] is CloseSyncStream {
        0
    } else {
        1 + before_close(instructions.drop_first())
    }
}

/// The statuses that instructions publish, in their order.
pub open spec fn statuses<S>(instructions: Seq<Instruction<S>>) -> Seq<S>
    decreases instructions.len(),
{
    if instructions.len() == 0 {
        seq![]
    } else {
        let rest = statuses(instructions.drop_first());
        match instructions[0] {
            Instruction::UpdateSyncStatus { status } => seq![status] + rest,
            _ => rest,
        }
    }
}

/// The statuses that the client had published, in their order.
pub open spec fn published<S, C>(inputs: Seq<ClientInput<S, C>>) -> Seq<S>
    decreases inputs.len(),
{
    if inputs.len() == 0 {
        seq![]
    } else {
        let before = published(inputs.drop_last());
        match after(inputs).1 {
            ClientAction::UpdateStatus { status } => before.push(status),
            _ => before,
        }
    }
}

/// Whether none of the instructions closes the stream.
pub open spec fn has_no_close<S>(instructions: Seq<Instruction<S>>) -> bool {
    forall|i: int| 0 <= i < instructions.len() ==> !(#[trigger] instructions[i] is CloseSyncStream)
}

proof fn lemma_first_actions_concat<S, C>(a: Seq<Instruction<S>>, b: Seq<Instruction<S>>)
    ensures
        first_actions::<S, C>(a + b) == first_actions::<S, C>(a) + first_actions::<S, C>(b),
    decreases a.len(),
{
    if a.len() == 0 {
        assert(a + b == b);
        assert(first_actions::<S, C>(a) + first_actions::<S, C>(b) == first_actions::<S, C>(b));
    } else {
        assert((a + b).drop_first() == a.drop_first() + b);
        lemma_first_actions_concat::<S, C>(a.drop_first(), b);
        assert(first_actions::<S, C>(a + b) == first_actions::<S, C>(a) + first_actions::<S, C>(b));
    }
}

proof fn lemma_statuses_concat<S>(a: Seq<Instruction<S>>, b: Seq<Instruction<S>>)
    ensures
        statuses(a + b) == statuses(a) + statuses(b),
    decreases a.len(),
{
    if a.len() == 0 {
        assert(a + b == b);
        assert(statuses(a) + statuses(b) == statuses(b));
    } else {
        assert((a + b).drop_first() == a.drop_first() + b);
        lemma_statuses_concat(a.drop_first(), b);
        assert(statuses(a + b) == statuses(a) + statuses(b));
    }
}

proof fn lemma_before_close<S>(instructions: Seq<Instruction<S>>)
    ensures
        before_close(instructions) <= instructions.len(),
        has_no_close(instructions.take(before_close(instructions) as int)),
        before_close(instructions) < instructions.len() ==> instructions[before_close(
            instructions,
        ) as int] is CloseSyncStream,
    decreases instructions.len(),
{
    if instructions.len() > 0 && !(instructions[0] is CloseSyncStream) {
        let rest = instructions.drop_first();
        lemma_before_close(rest);
        let n = before_close(instructions) as int;
        assert forall|i: int| 0 <= i < n implies !(#[trigger] instructions.take(
            n,
        )[i] is CloseSyncStream) by {
            if i > 0 {
                assert(rest.take(n - 1)[i - 1] == instructions[i]);
            }
        }
    }
}

/// The first instruction that closes the stream is where there is none before it.
proof fn lemma_before_close_is<S>(instructions: Seq<Instruction<S>>, n: int)
    requires
        0 <= n <= instructions.len(),
        has_no_close(instructions.take(n)),
        n < instructions.len() ==> instructions[n] is CloseSyncStream,
    ensures
        before_close(instructions) == n,
{
    lemma_before_close(instructions);
    let m = before_close(instructions) as int;
    if m < n {
        assert(instructions.take(n)[m] is CloseSyncStream);
    }
    if n < m {
        assert(instructions.take(m)[n] is CloseSyncStream);
    }
}

/// What the client does about a list of instructions: it begins with the one before position `k`, or
/// ends the iteration at position `k`, or has been through all `k` of them.
spec fn takes_up<S, C>(has_stream: bool, instructions: Seq<Instruction<S>>, k: int) -> bool {
    let (phase, action) = follow::<S, C>(has_stream, instructions);
    let done = instructions.take(k);
    &&& 0 <= k <= instructions.len()
    &&& has_no_close(done)
    &&& match phase {
        ClientPhase::Receiving => {
            &&& k == instructions.len()
            &&& !begins_instruction(action)
            &&& !(action is Finish)
            &&& first_actions::<S, C>(done) == Seq::<ClientAction<S, C>>::empty()
            &&& statuses(done) == Seq::<S>::empty()
        },
        ClientPhase::Finished => {
            &&& k < instructions.len()
            &&& instructions[k] matches Instruction::CloseSyncStream(close) && action
                == (ClientAction::<S, C>::Finish { outcome: Ok(close) })
            &&& first_actions::<S, C>(done) == Seq::<ClientAction<S, C>>::empty()
            &&& statuses(done) == Seq::<S>::empty()
        },
        ClientPhase::Performing { rest } | ClientPhase::FetchingCredentials { rest, .. } => {
            &&& rest == instructions.skip(k)
            &&& begins_instruction(action)
            &&& first_actions::<S, C>(done) == seq![action]
            &&& statuses(done) == (match action {
                ClientAction::UpdateStatus { status } => seq![status],
                _ => seq![],
            })
        },
        _ => false,
    }
}

proof fn lemma_follow<S, C>(has_stream: bool, instructions: Seq<Instruction<S>>) -> (k: int)
    ensures
        takes_up::<S, C>(has_stream, instructions, k),
    decreases instructions.len(),
{
    if instructions.len() == 0 {
        assert(instructions.take(0) == instructions);
        assert(takes_up::<S, C>(has_stream, instructions, 0));
        0
    } else {
        let rest = instructions.drop_first();
        match instructions[0] {
            Instruction::FetchCredentials { .. } | Instruction::FlushFileSystem => {
                let k = lemma_follow::<S, C>(has_stream, rest);
                let done = instructions.take(k + 1);
                assert(done.drop_first() == rest.take(k));
                assert(instructions.skip(k + 1) == rest.skip(k));
                assert forall|i: int| 0 <= i < done.len() implies !(
                #[trigger] done[i] is CloseSyncStream) by {
                    if i > 0 {
                        assert(rest.take(k)[i - 1] == done[i]);
                    }
                }
                assert(first_actions::<S, C>(done) == first_actions::<S, C>(rest.take(k)));
                assert(statuses(done) == statuses(rest.take(k)));
                k + 1
            },
            Instruction::CloseSyncStream(_) => {
                assert(instructions.take(0).len() == 0);
                0
            },
            _ => {
                let done = instructions.take(1);
                assert(done.drop_first().len() == 0);
                assert(instructions.skip(1) == rest);
                reveal_with_fuel(first_actions, 2);
                reveal_with_fuel(statuses, 2);
                assert(first_actions::<S, C>(done) == first_action::<S, C>(instructions[0]));
                1
            },
        }
    }
}

/// The instructions that the client has not begun with.
spec fn left<S>(phase: ClientPhase<S>) -> Seq<Instruction<S>> {
    match phase {
        ClientPhase::ReleasingWriter { result: Ok(instructions) } => instructions,
        ClientPhase::Performing { rest } => rest,
        ClientPhase::FetchingCredentials { rest, .. } => rest,
        ClientPhase::OpeningStream { rest } => rest,
        _ => seq![],
    }
}

/// Whether the client has been through the first `n` of the instructions that it received, has begun
/// with each of them for which there is something to do, in their order, and with no other. Where it
/// has ended the iteration as one of them said, that is the one behind these.
pub open spec fn has_carried_out<S, C>(inputs: Seq<ClientInput<S, C>>, n: int) -> bool {
    let received = received_instructions(inputs);
    let done = received.take(n);
    &&& 0 <= n <= received.len()
    &&& has_no_close(done)
    &&& begun(inputs) == first_actions::<S, C>(done)
    &&& published(inputs) == statuses(done)
    &&& after(inputs).1 matches ClientAction::Finish { outcome: Ok(close) } ==> n < received.len()
        && received[n] == Instruction::<S>::CloseSyncStream(close)
}

/// Extends what was done by what a list of instructions leads to.
proof fn lemma_extend<S, C>(
    inputs: Seq<ClientInput<S, C>>,
    n: int,
    has_stream: bool,
    rest: Seq<Instruction<S>>,
) -> (m: int)
    requires
        inputs.len() > 0,
        has_carried_out(inputs.drop_last(), n),
        received_instructions(inputs) == received_instructions(inputs.drop_last()),
        rest == received_instructions(inputs).skip(n),
        (after(inputs).0.phase, after(inputs).1) == follow::<S, C>(has_stream, rest),
    ensures
        has_carried_out(inputs, m),
        !(after(inputs).0.phase is Finished) ==> left(after(inputs).0.phase)
            == received_instructions(inputs).skip(m),
{
    let received = received_instructions(inputs);
    let k = lemma_follow::<S, C>(has_stream, rest);
    let m = n + k;
    let done = received.take(m);
    assert(done == received.take(n) + rest.take(k));
    assert(received.skip(m) == rest.skip(k));
    lemma_first_actions_concat::<S, C>(received.take(n), rest.take(k));
    lemma_statuses_concat(received.take(n), rest.take(k));
    assert forall|i: int| 0 <= i < done.len() implies !(#[trigger] done[i] is CloseSyncStream) by {
        if i < n {
            assert(received.take(n)[i] == done[i]);
        } else {
            assert(rest.take(k)[i - n] == done[i]);
        }
    }
    let action = after(inputs).1;
    assert(begun(inputs) == first_actions::<S, C>(done)) by {
        if begins_instruction(action) {
            assert(begun(inputs) == begun(inputs.drop_last()) + seq![action]);
        } else {
            assert(begun(inputs) == begun(inputs.drop_last()) + Seq::<ClientAction<S, C>>::empty());
        }
    }
    assert(published(inputs) == statuses(done)) by {
        if let ClientAction::UpdateStatus { status } = action {
            assert(published(inputs) == published(inputs.drop_last()) + seq![status]);
        } else {
            assert(published(inputs) == published(inputs.drop_last()) + Seq::<S>::empty());
        }
    }
    if after(inputs).0.phase is Receiving {
        assert(received.skip(m) == Seq::<Instruction<S>>::empty());
    }
    m
}

proof fn lemma_carried_out<S, C>(inputs: Seq<ClientInput<S, C>>) -> (n: int)
    requires
        is_run(inputs),
    ensures
        has_carried_out(inputs, n),
        !(after(inputs).0.phase is Finished) ==> left(after(inputs).0.phase)
            == received_instructions(inputs).skip(n),
    decreases inputs.len(),
{
    if inputs.len() == 0 {
        let received = received_instructions(inputs);
        assert(received.take(0) == received);
        assert(received.skip(0) == received);
        0
    } else {
        let before = inputs.drop_last();
        let n = lemma_carried_out(before);
        let client = after(before).0;
        let received = received_instructions(inputs);
        match (client.phase, inputs.last()) {
            (ClientPhase::ReleasingWriter { result: Ok(instructions) }, _) => {
                lemma_extend(inputs, n, client.has_stream, instructions)
            },
            (ClientPhase::Performing { rest }, _) => {
                lemma_extend(inputs, n, client.has_stream, rest)
            },
            (
                ClientPhase::OpeningStream { rest },
                ClientInput::StreamOpened { has_coordinator: false },
            ) => lemma_extend(inputs, n, true, rest),
            (ClientPhase::Invoking, ClientInput::Controlled(Ok(instructions))) => {
                let earlier = received_instructions(before);
                assert(earlier.skip(n).len() == 0);
                assert(received.take(n) == earlier.take(n));
                assert(received.skip(n) == instructions@);
                n
            },
            _ => n,
        }
    }
}

/// The client carries out the instructions that it receives one after the other, in their order,
/// over all its calls of the core extension, however these and its actions go: what it has begun
/// with is always what the instructions up to some point ask for. When it waits for the next event,
/// it has been through all that it received.
pub proof fn instructions_are_carried_out_in_order<S, C>(inputs: Seq<ClientInput<S, C>>)
    requires
        is_run(inputs),
    ensures
        exists|n: int| #[trigger] has_carried_out(inputs, n),
        after(inputs).1 is Receive ==> has_carried_out(
            inputs,
            received_instructions(inputs).len() as int,
        ),
{
    let n = lemma_carried_out(inputs);
    lemma_run(inputs);
    if after(inputs).1 is Receive {
        assert(received_instructions(inputs).skip(n).len() == 0);
    }
}

/// An iteration ends well only as the first instruction says that closes the stream, of all that the
/// client received, and with everything done that stands before it. A client that waits for the next
/// event has received none.
pub proof fn first_close_ends_the_iteration<S, C>(inputs: Seq<ClientInput<S, C>>)
    requires
        is_run(inputs),
    ensures
        ({
            let received = received_instructions(inputs);
            let end = before_close(received) as int;
            &&& after(inputs).1 matches ClientAction::Finish { outcome: Ok(close) } ==> {
                &&& end < received.len()
                &&& received[end] == Instruction::<S>::CloseSyncStream(close)
                &&& begun(inputs) == first_actions::<S, C>(received.take(end))
            }
            &&& after(inputs).1 is Receive ==> end == received.len()
        }),
{
    let n = lemma_carried_out(inputs);
    let received = received_instructions(inputs);
    lemma_run(inputs);
    match after(inputs).1 {
        ClientAction::Finish { outcome: Ok(close) } => {
            lemma_before_close_is(received, n);
        },
        ClientAction::Receive { .. } => {
            assert(received.skip(n).len() == 0);
            lemma_before_close_is(received, n);
        },
        _ => {},
    }
}

/// Statuses are published exactly in the order of the instructions: at every time, those of the
/// instructions up to some point; when the client waits for the next event, those of all; and when
/// the iteration ended well, those of all before the instruction that ended it.
pub proof fn statuses_are_published_in_order<S, C>(inputs: Seq<ClientInput<S, C>>)
    requires
        is_run(inputs),
    ensures
        ({
            let received = received_instructions(inputs);
            &&& published(inputs).is_prefix_of(statuses(received))
            &&& after(inputs).1 is Receive ==> published(inputs) == statuses(received)
            &&& after(inputs).1 matches ClientAction::Finish { outcome: Ok(_) } ==> published(inputs)
                == statuses(received.take(before_close(received) as int))
        }),
{
    let n = lemma_carried_out(inputs);
    let received = received_instructions(inputs);
    lemma_run(inputs);
    assert(received == received.take(n) + received.skip(n));
    lemma_statuses_concat(received.take(n), received.skip(n));
    match after(inputs).1 {
        ClientAction::Finish { outcome: Ok(close) } => {
            lemma_before_close_is(received, n);
        },
        ClientAction::Receive { .. } => {
            assert(received.skip(n).len() == 0);
            assert(received.take(n) == received);
        },
        _ => {},
    }
}

/// What the client meets when it establishes sync streams and all goes well, by the number of those
/// that it established before.
pub struct Surroundings<C> {
    /// The credentials that the connector gives.
    pub credentials: spec_fn(nat) -> C,
    /// Whether there is a coordinator of uploads.
    pub has_coordinator: spec_fn(nat) -> bool,
}

/// What has to be done about a list of instructions, in order, where all goes well and `streams`
/// streams were established before.
///
/// A new sync stream takes credentials of its own and, where there is a coordinator of uploads at
/// that time, is followed by an upload of local changes, those included that were made before the
/// stream. Nothing is done about what stands behind an instruction to close the stream.
pub open spec fn batch_actions<S, C>(
    has_stream: bool,
    surroundings: Surroundings<C>,
    streams: nat,
    instructions: Seq<Instruction<S>>,
) -> Seq<ClientAction<S, C>>
    decreases instructions.len(),
{
    if instructions.len() == 0 {
        seq![ClientAction::Receive { or_stream: has_stream }]
    } else {
        let rest = instructions.drop_first();
        match instructions[0] {
            Instruction::CloseSyncStream(close) => seq![
                ClientAction::Finish { outcome: Ok(close) },
            ],
            Instruction::EstablishSyncStream { request } => seq![
                ClientAction::FetchCredentials,
                ClientAction::OpenStream {
                    credentials: (surroundings.credentials)(streams),
                    request,
                },
            ] + (if (surroundings.has_coordinator)(streams) {
                seq![ClientAction::TriggerCrudUploads]
            } else {
                seq![]
            }) + batch_actions(true, surroundings, streams + 1, rest),
            instruction => first_action(instruction) + batch_actions(
                has_stream,
                surroundings,
                streams,
                rest,
            ),
        }
    }
}

/// That an action went well.
pub open spec fn success<S, C>(
    action: ClientAction<S, C>,
    surroundings: Surroundings<C>,
    streams: nat,
) -> ClientInput<S, C> {
    match action {
        ClientAction::FetchCredentials => ClientInput::Credentials(
            Ok((surroundings.credentials)(streams)),
        ),
        ClientAction::OpenStream { .. } => ClientInput::StreamOpened {
            has_coordinator: (surroundings.has_coordinator)(streams),
        },
        _ => ClientInput::Done,
    }
}

/// The first `n` actions of a client, from the one at hand, where all goes well and `streams`
/// streams were established before.
pub open spec fn actions_of<S, C>(
    client: ClientView<S>,
    action: ClientAction<S, C>,
    surroundings: Surroundings<C>,
    streams: nat,
    n: nat,
) -> Seq<ClientAction<S, C>>
    decreases n,
{
    if n == 0 {
        seq![]
    } else {
        let (next, following) = client.step(success(action, surroundings, streams));
        let established = if action is OpenStream {
            streams + 1
        } else {
            streams
        };
        seq![action] + actions_of(next, following, surroundings, established, (n - 1) as nat)
    }
}

/// One action more is the action at hand, and then those of the client after it.
proof fn lemma_one_action_more<S, C>(
    client: ClientView<S>,
    action: ClientAction<S, C>,
    surroundings: Surroundings<C>,
    streams: nat,
    tail: Seq<ClientAction<S, C>>,
)
    requires
        ({
            let (next, following) = client.step(success(action, surroundings, streams));
            let established = if action is OpenStream {
                streams + 1
            } else {
                streams
            };
            actions_of(next, following, surroundings, established, tail.len()) == tail
        }),
    ensures
        actions_of(client, action, surroundings, streams, tail.len() + 1) == seq![action] + tail,
{
}

proof fn lemma_stream_is_established<S, C>(
    client: ClientView<S>,
    surroundings: Surroundings<C>,
    streams: nat,
    request: String,
    rest: Seq<Instruction<S>>,
)
    requires
        ({
            let streaming = ClientView { has_stream: true, ..client };
            let (next, action) = streaming.following(rest);
            let tail = batch_actions(true, surroundings, streams + 1, rest);
            actions_of(next, action, surroundings, streams + 1, tail.len()) == tail
        }),
    ensures
        ({
            let fetching = client.at(ClientPhase::FetchingCredentials { request, rest });
            let expected = batch_actions(
                client.has_stream,
                surroundings,
                streams,
                seq![Instruction::EstablishSyncStream { request }] + rest,
            );
            actions_of(
                fetching,
                ClientAction::FetchCredentials,
                surroundings,
                streams,
                expected.len(),
            ) == expected
        }),
{
    let tail = batch_actions(true, surroundings, streams + 1, rest);
    let all = seq![Instruction::<S>::EstablishSyncStream { request }] + rest;
    assert(all.drop_first() == rest);
    let streaming = ClientView { has_stream: true, ..client };
    let fetching = client.at(ClientPhase::FetchingCredentials { request, rest });
    let opening = client.at(ClientPhase::OpeningStream { rest });
    let uploading = (surroundings.has_coordinator)(streams);
    let opened = if uploading {
        let trigger = ClientAction::<S, C>::TriggerCrudUploads;
        let triggering = streaming.at(ClientPhase::Performing { rest });
        assert(triggering.step(ClientInput::<S, C>::Done) == streaming.following::<C>(rest));
        lemma_one_action_more(triggering, trigger, surroundings, streams + 1, tail);
        seq![trigger] + tail
    } else {
        tail
    };
    let credentials = (surroundings.credentials)(streams);
    let open = ClientAction::<S, C>::OpenStream { credentials, request };
    lemma_one_action_more(opening, open, surroundings, streams, opened);
    let fetch = ClientAction::<S, C>::FetchCredentials;
    lemma_one_action_more(fetching, fetch, surroundings, streams, seq![open] + opened);
    assert(seq![fetch] + (seq![open] + opened) == seq![fetch, open] + (if uploading {
        seq![ClientAction::<S, C>::TriggerCrudUploads]
    } else {
        seq![]
    }) + tail);
}

proof fn lemma_batch<S, C>(
    client: ClientView<S>,
    surroundings: Surroundings<C>,
    streams: nat,
    instructions: Seq<Instruction<S>>,
)
    ensures
        ({
            let (next, action) = client.following(instructions);
            let expected = batch_actions(client.has_stream, surroundings, streams, instructions);
            actions_of(next, action, surroundings, streams, expected.len()) == expected
        }),
    decreases instructions.len(),
{
    let (next, action) = client.following::<C>(instructions);
    if instructions.len() == 0 {
        lemma_one_action_more(next, action, surroundings, streams, seq![]);
    } else {
        let rest = instructions.drop_first();
        match instructions[0] {
            Instruction::EstablishSyncStream { request } => {
                let streaming = ClientView { has_stream: true, ..client };
                lemma_batch(streaming, surroundings, streams + 1, rest);
                lemma_stream_is_established(client, surroundings, streams, request, rest);
                assert(seq![instructions[0]] + rest == instructions);
            },
            Instruction::CloseSyncStream(_) => {
                lemma_one_action_more(next, action, surroundings, streams, seq![]);
            },
            Instruction::FetchCredentials { .. } | Instruction::FlushFileSystem => {
                lemma_batch(client, surroundings, streams, rest);
                let tail = batch_actions(client.has_stream, surroundings, streams, rest);
                assert(Seq::<ClientAction<S, C>>::empty() + tail == tail);
            },
            _ => {
                lemma_batch(client, surroundings, streams, rest);
                assert(next.step(ClientInput::<S, C>::Done) == client.following::<C>(rest));
                let tail = batch_actions(client.has_stream, surroundings, streams, rest);
                lemma_one_action_more(next, action, surroundings, streams, tail);
            },
        }
    }
}

/// Once the writer is given back and as long as all goes well, the client does what the instructions
/// say, all of it and nothing else, in their order, and then waits for the next event, unless one of
/// them ended the iteration. Each stream gets the credentials that were fetched for it, and whether
/// uploads follow it depends on the coordinator at that time.
pub proof fn instructions_are_followed_in_full<S, C>(
    client: ClientView<S>,
    surroundings: Surroundings<C>,
    instructions: Seq<Instruction<S>>,
)
    requires
        client.phase == (ClientPhase::<S>::ReleasingWriter { result: Ok(instructions) }),
    ensures
        ({
            let (next, action) = client.step(ClientInput::<S, C>::Done);
            let expected = batch_actions(client.has_stream, surroundings, 0, instructions);
            actions_of(next, action, surroundings, 0, expected.len()) == expected
        }),
{
    lemma_batch(client, surroundings, 0, instructions);
}

/// The client that was given `instructions` and is about to give the writer back.
pub open spec fn given<S>(has_stream: bool, instructions: Seq<Instruction<S>>) -> ClientView<S> {
    ClientView { has_stream, phase: ClientPhase::ReleasingWriter { result: Ok(instructions) } }
}

/// Instructions are taken one by one, whatever stands behind the first. A line is logged as it is,
/// a status is published as it is, and a completed sync clears the errors of downloads. A stream is
/// established with the credentials that were fetched for it and the request of the instruction, and
/// uploads follow it where there is a coordinator. A request to close ends the iteration with what it
/// says. The others ask for nothing. After each but the close, the client goes on just as one that
/// was given the instructions behind it.
pub proof fn instructions_are_taken_one_by_one<S, C>(
    has_stream: bool,
    first: Instruction<S>,
    rest: Seq<Instruction<S>>,
    credentials: C,
)
    ensures
        ({
            let done = ClientInput::<S, C>::Done;
            let (client, action) = given(has_stream, seq![first] + rest).step(done);
            let onwards = given(has_stream, rest).step(done);
            match first {
                Instruction::LogLine { severity, line } => {
                    &&& action == (ClientAction::<S, C>::Log { severity, line })
                    &&& client.step(done) == onwards
                },
                Instruction::UpdateSyncStatus { status } => {
                    &&& action == (ClientAction::<S, C>::UpdateStatus { status })
                    &&& client.step(done) == onwards
                },
                Instruction::DidCompleteSync => {
                    &&& action is ClearDownloadErrors
                    &&& client.step(done) == onwards
                },
                Instruction::FetchCredentials { .. } | Instruction::FlushFileSystem => {
                    (client, action) == onwards
                },
                Instruction::CloseSyncStream(close) => action == (ClientAction::<S, C>::Finish {
                    outcome: Ok(close),
                }),
                Instruction::EstablishSyncStream { request } => {
                    let (opening, open) = client.step(
                        ClientInput::<S, C>::Credentials(Ok(credentials)),
                    );
                    let (uploading, upload) = opening.step(
                        ClientInput::<S, C>::StreamOpened { has_coordinator: true },
                    );
                    let streaming = given(true, rest).step(done);
                    &&& action is FetchCredentials
                    &&& open == (ClientAction::<S, C>::OpenStream { credentials, request })
                    &&& upload is TriggerCrudUploads
                    &&& uploading.step(done) == streaming
                    &&& opening.step(
                        ClientInput::<S, C>::StreamOpened { has_coordinator: false },
                    ) == streaming
                },
            }
        }),
        given(has_stream, Seq::<Instruction<S>>::empty()).step(ClientInput::<S, C>::Done).1 == (
        ClientAction::<S, C>::Receive { or_stream: has_stream }),
{
    let all = seq![first] + rest;
    assert(all.drop_first() == rest);
    assert(all[0] == first);
}

/// What the core extension gave is what the client follows once it gave the writer back: all of the
/// instructions, in their order, and nothing else.
pub proof fn instructions_come_from_the_extension<S, C>(
    inputs: Seq<ClientInput<S, C>>,
    instructions: Vec<Instruction<S>>,
)
    requires
        is_run(inputs),
        inputs.len() > 0,
        inputs.last() == ClientInput::<S, C>::Controlled(Ok(instructions)),
    ensures
        after(inputs).1 is ReleaseWriter,
        after(inputs).0 == given(after(inputs.drop_last()).0.has_stream, instructions@),
{
    lemma_run(inputs.drop_last());
}

} // verus!
