//! The client that downloads data: one sync iteration, from its first event to its end.
//!
//! [`DownloadClient`] names what has to be done, one action after the other, and is told how each
//! went. Waiting, the database and the network are left to the runtime around it.

use vstd::prelude::*;

use crate::error::PowerSyncError;
use crate::sync::download::sync_iteration::DownloadEvent;
use crate::sync::instruction::{CloseSyncStream, Instruction, LogSeverity};

verus! {

/// What has to be done next in a sync iteration; `S` is the status of the download, and `C` is what
/// the connector gives as credentials.
#[derive(Debug)]
pub enum ClientAction<S, C> {
    /// Wait for a command and, where `or_stream` is set, for an item of the sync stream as well. A
    /// command that is there already comes first.
    Receive { or_stream: bool },
    /// Wait for the writer of the database.
    AcquireWriter,
    /// Forward an event to the core extension, on the writer.
    InvokeControl { event: DownloadEvent },
    /// Give the writer back.
    ReleaseWriter,
    /// Log a line.
    Log { severity: LogSeverity, line: String },
    /// Publish a status of the download.
    UpdateStatus { status: S },
    /// Have the connector fetch credentials.
    FetchCredentials,
    /// Replace the sync stream by a new one, opened with these credentials and this request.
    OpenStream { credentials: C, request: String },
    /// Trigger an upload of local changes.
    TriggerCrudUploads,
    /// Clear the errors of earlier downloads.
    ClearDownloadErrors,
    /// Nothing: the iteration is over.
    Finish { outcome: Result<CloseSyncStream, PowerSyncError> },
}

/// How an action of a sync iteration went.
#[derive(Debug)]
pub enum ClientInput<S, C> {
    /// Nothing was done yet: the iteration starts.
    Started,
    /// To [`ClientAction::Receive`]: a command, or that no command will come any more.
    Command(Option<DownloadEvent>),
    /// To [`ClientAction::Receive`]: an item of the sync stream, or that it has ended.
    StreamItem(Result<Option<DownloadEvent>, PowerSyncError>),
    /// To [`ClientAction::AcquireWriter`].
    Writer(Result<(), PowerSyncError>),
    /// To [`ClientAction::InvokeControl`]: the instructions of the core extension.
    Controlled(Result<Vec<Instruction<S>>, PowerSyncError>),
    /// To [`ClientAction::FetchCredentials`]: the credentials.
    Credentials(Result<C, PowerSyncError>),
    /// To [`ClientAction::OpenStream`], with whether there still is a coordinator of uploads.
    StreamOpened { has_coordinator: bool },
    /// To any other action.
    Done,
}

/// How far a sync iteration has come. Instructions that are left stand in reverse order.
#[derive(Debug)]
enum Phase<S> {
    Created,
    Receiving,
    AcquiringWriter(DownloadEvent),
    Invoking,
    ReleasingWriter(Result<Vec<Instruction<S>>, PowerSyncError>),
    Performing(Vec<Instruction<S>>),
    FetchingCredentials(String, Vec<Instruction<S>>),
    OpeningStream(Vec<Instruction<S>>),
    Finished,
}

/// The client of one sync iteration.
#[derive(Debug)]
pub struct DownloadClient<S> {
    has_stream: bool,
    phase: Phase<S>,
}

/// How far a sync iteration has come.
#[verifier::ext_equal]
pub enum ClientPhase<S> {
    /// It has not started.
    Created,
    /// It waits for an event.
    Receiving,
    /// It waits for the writer, to forward an event.
    AcquiringWriter { event: DownloadEvent },
    /// It has the writer, and the core extension handles an event.
    Invoking,
    /// It gives the writer back, and will then follow the instructions, or fail.
    ReleasingWriter { result: Result<Seq<Instruction<S>>, PowerSyncError> },
    /// It follows an instruction, with others left.
    Performing { rest: Seq<Instruction<S>> },
    /// It fetches credentials to establish a sync stream, with instructions left.
    FetchingCredentials { request: String, rest: Seq<Instruction<S>> },
    /// It opens a sync stream, with instructions left.
    OpeningStream { rest: Seq<Instruction<S>> },
    /// It is over.
    Finished,
}

/// A client, as far as its contract speaks of it.
#[verifier::ext_equal]
pub struct ClientView<S> {
    /// Whether a sync stream was opened.
    pub has_stream: bool,
    pub phase: ClientPhase<S>,
}

impl<S> View for DownloadClient<S> {
    type V = ClientView<S>;

    closed spec fn view(&self) -> ClientView<S> {
        ClientView { has_stream: self.has_stream, phase: self.phase.content() }
    }
}

impl<S> Phase<S> {
    spec fn content(self) -> ClientPhase<S> {
        match self {
            Phase::Created => ClientPhase::Created,
            Phase::Receiving => ClientPhase::Receiving,
            Phase::AcquiringWriter(event) => ClientPhase::AcquiringWriter { event },
            Phase::Invoking => ClientPhase::Invoking,
            Phase::ReleasingWriter(result) => ClientPhase::ReleasingWriter {
                result: match result {
                    Ok(instructions) => Ok(instructions@),
                    Err(error) => Err(error),
                },
            },
            Phase::Performing(rest) => ClientPhase::Performing { rest: rest@.reverse() },
            Phase::FetchingCredentials(request, rest) => ClientPhase::FetchingCredentials {
                request,
                rest: rest@.reverse(),
            },
            Phase::OpeningStream(rest) => ClientPhase::OpeningStream { rest: rest@.reverse() },
            Phase::Finished => ClientPhase::Finished,
        }
    }
}

/// What the client does about the instructions that are left: how far it then has come, and what has
/// to be done.
///
/// The client has nothing to do to fetch credentials ahead of their use, since it fetches them for
/// each stream, nor to flush a file system, since its own is durable. It ends the iteration at the
/// first instruction to close the stream, and waits for the next event when no instruction is left.
pub open spec fn follow<S, C>(has_stream: bool, instructions: Seq<Instruction<S>>) -> (
    ClientPhase<S>,
    ClientAction<S, C>,
)
    decreases instructions.len(),
{
    if instructions.len() == 0 {
        (ClientPhase::Receiving, ClientAction::Receive { or_stream: has_stream })
    } else {
        let rest = instructions.drop_first();
        match instructions[0] {
            Instruction::LogLine { severity, line } => (
                ClientPhase::Performing { rest },
                ClientAction::Log { severity, line },
            ),
            Instruction::UpdateSyncStatus { status } => (
                ClientPhase::Performing { rest },
                ClientAction::UpdateStatus { status },
            ),
            Instruction::EstablishSyncStream { request } => (
                ClientPhase::FetchingCredentials { request, rest },
                ClientAction::FetchCredentials,
            ),
            Instruction::FetchCredentials { .. } => follow(has_stream, rest),
            Instruction::CloseSyncStream(close) => (
                ClientPhase::Finished,
                ClientAction::Finish { outcome: Ok(close) },
            ),
            Instruction::FlushFileSystem => follow(has_stream, rest),
            Instruction::DidCompleteSync => (
                ClientPhase::Performing { rest },
                ClientAction::ClearDownloadErrors,
            ),
        }
    }
}

/// The event that a command stands for: where no command will come any more, the client stops.
pub open spec fn command_event(command: Option<DownloadEvent>) -> DownloadEvent {
    match command {
        Some(event) => event,
        None => DownloadEvent::Stop,
    }
}

/// The event that an item of the sync stream stands for.
pub open spec fn stream_event(item: Option<DownloadEvent>) -> DownloadEvent {
    match item {
        Some(event) => event,
        None => DownloadEvent::ResponseStreamEnd,
    }
}

impl<S> ClientView<S> {
    /// A client that has not started.
    pub open spec fn created() -> ClientView<S> {
        ClientView { has_stream: false, phase: ClientPhase::Created }
    }

    /// Whether `input` says how the action at hand went.
    pub open spec fn accepts<C>(self, input: ClientInput<S, C>) -> bool {
        match self.phase {
            ClientPhase::Created => input is Started,
            ClientPhase::Receiving => input is Command || (self.has_stream && input is StreamItem),
            ClientPhase::AcquiringWriter { .. } => input is Writer,
            ClientPhase::Invoking => input is Controlled,
            ClientPhase::ReleasingWriter { .. } => input is Done,
            ClientPhase::Performing { .. } => input is Done,
            ClientPhase::FetchingCredentials { .. } => input is Credentials,
            ClientPhase::OpeningStream { .. } => input is StreamOpened,
            ClientPhase::Finished => false,
        }
    }

    /// The client in another phase.
    pub open spec fn at(self, phase: ClientPhase<S>) -> ClientView<S> {
        ClientView { phase, ..self }
    }

    /// The client after it took up the instructions that are left, and what has to be done.
    pub open spec fn following<C>(self, instructions: Seq<Instruction<S>>) -> (
        ClientView<S>,
        ClientAction<S, C>,
    ) {
        let (phase, action) = follow(self.has_stream, instructions);
        (self.at(phase), action)
    }

    /// The client that fails with `error`, and what has to be done.
    pub open spec fn failing<C>(self, error: PowerSyncError) -> (ClientView<S>, ClientAction<S, C>) {
        (self.at(ClientPhase::Finished), ClientAction::Finish { outcome: Err(error) })
    }

    /// The client after an action went as `input` says, and what has to be done next.
    pub open spec fn step<C>(self, input: ClientInput<S, C>) -> (ClientView<S>, ClientAction<S, C>) {
        match (self.phase, input) {
            (ClientPhase::Created, _) => self.following(Seq::empty()),
            (ClientPhase::Receiving, ClientInput::Command(command)) => (
                self.at(ClientPhase::AcquiringWriter { event: command_event(command) }),
                ClientAction::AcquireWriter,
            ),
            (ClientPhase::Receiving, ClientInput::StreamItem(Ok(item))) => (
                self.at(ClientPhase::AcquiringWriter { event: stream_event(item) }),
                ClientAction::AcquireWriter,
            ),
            (ClientPhase::Receiving, ClientInput::StreamItem(Err(error))) => self.failing(error),
            (ClientPhase::AcquiringWriter { event }, ClientInput::Writer(Ok(_))) => (
                self.at(ClientPhase::Invoking),
                ClientAction::InvokeControl { event },
            ),
            (ClientPhase::AcquiringWriter { .. }, ClientInput::Writer(Err(error))) => {
                self.failing(error)
            },
            (ClientPhase::Invoking, ClientInput::Controlled(result)) => (
                self.at(
                    ClientPhase::ReleasingWriter {
                        result: match result {
                            Ok(instructions) => Ok(instructions@),
                            Err(error) => Err(error),
                        },
                    },
                ),
                ClientAction::ReleaseWriter,
            ),
            (ClientPhase::ReleasingWriter { result: Ok(instructions) }, _) => {
                self.following(instructions)
            },
            (ClientPhase::ReleasingWriter { result: Err(error) }, _) => self.failing(error),
            (ClientPhase::Performing { rest }, _) => self.following(rest),
            (
                ClientPhase::FetchingCredentials { request, rest },
                ClientInput::Credentials(Ok(credentials)),
            ) => (
                self.at(ClientPhase::OpeningStream { rest }),
                ClientAction::OpenStream { credentials, request },
            ),
            (ClientPhase::FetchingCredentials { .. }, ClientInput::Credentials(Err(error))) => {
                self.failing(error)
            },
            (ClientPhase::OpeningStream { rest }, ClientInput::StreamOpened { has_coordinator }) => {
                let streaming = ClientView { has_stream: true, ..self };
                if has_coordinator {
                    (
                        streaming.at(ClientPhase::Performing { rest }),
                        ClientAction::TriggerCrudUploads,
                    )
                } else {
                    streaming.following(rest)
                }
            },
            _ => (self, ClientAction::Receive { or_stream: false }),
        }
    }
}

/// The items in reverse order.
fn in_reverse<T>(items: Vec<T>) -> (reversed: Vec<T>)
    ensures
        reversed@ == items@.reverse(),
{
    let ghost all = items@;
    let mut items = items;
    let mut reversed: Vec<T> = Vec::new();
    while items.len() > 0
        invariant
            items@ == all.take(items@.len() as int),
            items@.len() <= all.len(),
            reversed@ == all.skip(items@.len() as int).reverse(),
        decreases items@.len(),
    {
        if let Some(item) = items.pop() {
            reversed.push(item);
        }
        assert(reversed@ == all.skip(items@.len() as int).reverse());
    }
    assert(all.skip(0) == all);
    reversed
}

/// Takes up the instructions that are left, which stand in reverse order.
fn take_up<S, C>(has_stream: bool, instructions: Vec<Instruction<S>>) -> (next: (
    Phase<S>,
    ClientAction<S, C>,
))
    ensures
        (next.0.content(), next.1) == follow::<S, C>(has_stream, instructions@.reverse()),
{
    let mut rest = instructions;
    loop
        invariant
            follow::<S, C>(has_stream, rest@.reverse()) == follow::<S, C>(
                has_stream,
                instructions@.reverse(),
            ),
        decreases rest@.len(),
    {
        let ghost left = rest@;
        match rest.pop() {
            None => {
                assert(left.reverse().len() == 0);
                return (Phase::Receiving, ClientAction::Receive { or_stream: has_stream });
            },
            Some(instruction) => {
                assert(left.reverse()[0] == instruction);
                assert(left.reverse().drop_first() == rest@.reverse());
                match instruction {
                    Instruction::LogLine { severity, line } => {
                        return (Phase::Performing(rest), ClientAction::Log { severity, line });
                    },
                    Instruction::UpdateSyncStatus { status } => {
                        return (Phase::Performing(rest), ClientAction::UpdateStatus { status });
                    },
                    Instruction::EstablishSyncStream { request } => {
                        return (
                            Phase::FetchingCredentials(request, rest),
                            ClientAction::FetchCredentials,
                        );
                    },
                    Instruction::FetchCredentials { .. } => {},
                    Instruction::CloseSyncStream(close) => {
                        return (Phase::Finished, ClientAction::Finish { outcome: Ok(close) });
                    },
                    Instruction::FlushFileSystem => {},
                    Instruction::DidCompleteSync => {
                        return (Phase::Performing(rest), ClientAction::ClearDownloadErrors);
                    },
                }
            },
        }
    }
}

impl<S> DownloadClient<S> {
    /// A client that has not started.
    pub fn new() -> (client: Self)
        ensures
            client@ == ClientView::<S>::created(),
    {
        DownloadClient { has_stream: false, phase: Phase::Created }
    }

    /// The event of a command, or of there being none any more.
    pub fn receive_command(command: Option<DownloadEvent>) -> (event: DownloadEvent)
        ensures
            event == command_event(command),
            command matches Some(received) ==> event == received,
            command is None ==> event is Stop,
    {
        match command {
            Some(event) => event,
            None => DownloadEvent::Stop,
        }
    }

    /// The event of an item of the sync stream, or of its end.
    pub fn receive_on_stream(item: Result<Option<DownloadEvent>, PowerSyncError>) -> (event: Result<
        DownloadEvent,
        PowerSyncError,
    >)
        ensures
            event == (match item {
                Ok(item) => Ok::<DownloadEvent, PowerSyncError>(stream_event(item)),
                Err(error) => Err(error),
            }),
            item matches Ok(Some(received)) ==> event == Ok::<DownloadEvent, PowerSyncError>(
                received,
            ),
            item matches Ok(None) ==> event == Ok::<DownloadEvent, PowerSyncError>(
                DownloadEvent::ResponseStreamEnd,
            ),
            item matches Err(error) ==> event == Err::<DownloadEvent, PowerSyncError>(error),
    {
        match item {
            Ok(Some(event)) => Ok(event),
            Ok(None) => Ok(DownloadEvent::ResponseStreamEnd),
            Err(error) => Err(error),
        }
    }

    /// Goes on after an action went as `input` says: the client, and what has to be done next.
    pub fn run<C>(self, input: ClientInput<S, C>) -> (next: (Self, ClientAction<S, C>))
        requires
            self@.accepts(input),
        ensures
            (next.0@, next.1) == self@.step(input),
    {
        let mut has_stream = self.has_stream;
        let (phase, action) = match (self.phase, input) {
            (Phase::Created, _) => take_up(has_stream, Vec::new()),
            (Phase::Receiving, ClientInput::Command(command)) => (
                Phase::AcquiringWriter(Self::receive_command(command)),
                ClientAction::AcquireWriter,
            ),
            (Phase::Receiving, ClientInput::StreamItem(item)) => {
                match Self::receive_on_stream(item) {
                    Ok(event) => (Phase::AcquiringWriter(event), ClientAction::AcquireWriter),
                    Err(error) => (Phase::Finished, ClientAction::Finish { outcome: Err(error) }),
                }
            },
            (Phase::AcquiringWriter(event), ClientInput::Writer(writer)) => match writer {
                Ok(_) => (Phase::Invoking, ClientAction::InvokeControl { event }),
                Err(error) => (Phase::Finished, ClientAction::Finish { outcome: Err(error) }),
            },
            (Phase::Invoking, ClientInput::Controlled(result)) => (
                Phase::ReleasingWriter(result),
                ClientAction::ReleaseWriter,
            ),
            (Phase::ReleasingWriter(result), _) => match result {
                Ok(instructions) => {
                    let ghost all = instructions@;
                    let reversed = in_reverse(instructions);
                    assert(reversed@.reverse() == all);
                    take_up(has_stream, reversed)
                },
                Err(error) => (Phase::Finished, ClientAction::Finish { outcome: Err(error) }),
            },
            (Phase::Performing(rest), _) => take_up(has_stream, rest),
            (Phase::FetchingCredentials(request, rest), ClientInput::Credentials(fetched)) => {
                match fetched {
                    Ok(credentials) => (
                        Phase::OpeningStream(rest),
                        ClientAction::OpenStream { credentials, request },
                    ),
                    Err(error) => (Phase::Finished, ClientAction::Finish { outcome: Err(error) }),
                }
            },
            (Phase::OpeningStream(rest), ClientInput::StreamOpened { has_coordinator }) => {
                has_stream = true;
                if has_coordinator {
                    (Phase::Performing(rest), ClientAction::TriggerCrudUploads)
                } else {
                    take_up(has_stream, rest)
                }
            },
            (phase, _) => (phase, ClientAction::Receive { or_stream: false }),
        };
        (DownloadClient { has_stream, phase }, action)
    }
}

} // verus!
