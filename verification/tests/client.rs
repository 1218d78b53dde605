use powersync::error::PowerSyncError;
use powersync::sync::download::client::{ClientAction, ClientInput, DownloadClient};
use powersync::sync::download::sync_iteration::DownloadEvent;
use powersync::sync::instruction::{CloseSyncStream, Instruction, LogSeverity};

type Client = DownloadClient<u32>;
type Action = ClientAction<u32, &'static str>;
type Input = ClientInput<u32, &'static str>;

fn other(message: &str) -> PowerSyncError {
    PowerSyncError::Other { message: message.to_owned() }
}

fn text(data: &str) -> DownloadEvent {
    DownloadEvent::TextLine { data: data.to_owned() }
}

fn log(line: &str) -> Instruction<u32> {
    Instruction::LogLine { severity: LogSeverity::Warning, line: line.to_owned() }
}

fn establish(request: &str) -> Instruction<u32> {
    Instruction::EstablishSyncStream { request: request.to_owned() }
}

fn show(action: &Action) -> String {
    match action {
        ClientAction::Receive { or_stream } => format!("receive {or_stream}"),
        ClientAction::AcquireWriter => "acquire".to_owned(),
        ClientAction::InvokeControl { event } => format!("invoke {event:?}"),
        ClientAction::ReleaseWriter => "release".to_owned(),
        ClientAction::Log { severity, line } => format!("log {severity:?} {line}"),
        ClientAction::UpdateStatus { status } => format!("status {status}"),
        ClientAction::FetchCredentials => "credentials".to_owned(),
        ClientAction::OpenStream { credentials, request } => format!("open {request} as {credentials}"),
        ClientAction::TriggerCrudUploads => "upload".to_owned(),
        ClientAction::ClearDownloadErrors => "clear".to_owned(),
        ClientAction::Finish { outcome: Ok(close) } => format!("close {}", close.hide_disconnect),
        ClientAction::Finish { outcome: Err(error) } => format!("fail {error:?}"),
    }
}

/// Runs a client with these inputs after the start. The result is what it asked for.
fn actions(inputs: Vec<Input>) -> Vec<String> {
    let (mut client, action) = Client::new().run(ClientInput::Started);
    let mut actions = vec![show(&action)];
    for input in inputs {
        let (next, action) = client.run(input);
        client = next;
        actions.push(show(&action));
    }
    actions
}

/// The inputs by which a client gets to follow instructions.
fn instructed(instructions: Vec<Instruction<u32>>) -> Vec<Input> {
    vec![
        ClientInput::Command(Some(DownloadEvent::CompletedUpload)),
        ClientInput::Writer(Ok(())),
        ClientInput::Controlled(Ok(instructions)),
        ClientInput::Done,
    ]
}

fn with(mut inputs: Vec<Input>, more: Vec<Input>) -> Vec<Input> {
    inputs.extend(more);
    inputs
}

const FORWARDED: [&str; 4] = ["receive false", "acquire", "invoke CompletedUpload", "release"];

fn expected(more: &[&str]) -> Vec<String> {
    FORWARDED.iter().chain(more.iter()).map(|s| s.to_string()).collect()
}

#[test]
fn client_waits_for_commands_first() {
    assert_eq!(actions(vec![]), vec!["receive false"]);
    assert_eq!(actions(instructed(vec![])), expected(&["receive false"]));
}

#[test]
fn instructions_are_followed_one_by_one() {
    let instructions = vec![
        log("a"),
        Instruction::FetchCredentials { did_expire: true },
        Instruction::UpdateSyncStatus { status: 7 },
        Instruction::FlushFileSystem,
        Instruction::DidCompleteSync,
        Instruction::LogLine { severity: LogSeverity::Debug, line: "b".to_owned() },
        Instruction::LogLine { severity: LogSeverity::Info, line: "c".to_owned() },
    ];
    let inputs = with(
        instructed(instructions),
        vec![
            ClientInput::Done,
            ClientInput::Done,
            ClientInput::Done,
            ClientInput::Done,
            ClientInput::Done,
        ],
    );
    assert_eq!(
        actions(inputs),
        expected(&[
            "log Warning a",
            "status 7",
            "clear",
            "log Debug b",
            "log Info c",
            "receive false",
        ])
    );
}

#[test]
fn establishing_a_stream_triggers_uploads() {
    let inputs = with(
        instructed(vec![establish("{}"), log("x")]),
        vec![
            ClientInput::Credentials(Ok("token")),
            ClientInput::StreamOpened { has_coordinator: true },
            ClientInput::Done,
            ClientInput::Done,
        ],
    );
    assert_eq!(
        actions(inputs),
        expected(&["credentials", "open {} as token", "upload", "log Warning x", "receive true"])
    );
}

#[test]
fn uploads_are_not_triggered_without_coordinator() {
    let inputs = with(
        instructed(vec![establish("{}")]),
        vec![
            ClientInput::Credentials(Ok("token")),
            ClientInput::StreamOpened { has_coordinator: false },
            ClientInput::StreamItem(Ok(Some(text("line")))),
            ClientInput::Writer(Ok(())),
        ],
    );
    assert_eq!(
        actions(inputs),
        expected(&[
            "credentials",
            "open {} as token",
            "receive true",
            "acquire",
            "invoke TextLine { data: \"line\" }",
        ])
    );
}

#[test]
fn fetching_credentials_does_not_hold_the_download_writer_lease() {
    let mut held = false;
    let inputs = with(
        instructed(vec![establish("{}")]),
        vec![
            ClientInput::Credentials(Ok("token")),
            ClientInput::StreamOpened { has_coordinator: true },
            ClientInput::Done,
        ],
    );
    for action in actions(inputs) {
        if action == "acquire" {
            held = true;
        } else if action == "release" {
            held = false;
        } else if !action.starts_with("invoke") {
            assert!(!held, "{}", action);
        }
    }
}

#[test]
fn closing_ends_the_iteration_and_drops_the_rest() {
    let close = Instruction::CloseSyncStream(CloseSyncStream { hide_disconnect: true });
    let inputs = with(instructed(vec![log("a"), close, log("b")]), vec![ClientInput::Done]);
    assert_eq!(actions(inputs), expected(&["log Warning a", "close true"]));
}

#[test]
fn closed_command_channel_stops() {
    assert_eq!(
        actions(vec![ClientInput::Command(None), ClientInput::Writer(Ok(()))]),
        vec!["receive false", "acquire", "invoke Stop"]
    );
    assert!(matches!(Client::receive_command(None), DownloadEvent::Stop));
    assert!(matches!(
        Client::receive_command(Some(DownloadEvent::CompletedUpload)),
        DownloadEvent::CompletedUpload
    ));
}

#[test]
fn end_of_the_stream_is_an_event() {
    assert!(matches!(Client::receive_on_stream(Ok(None)), Ok(DownloadEvent::ResponseStreamEnd)));
    assert!(matches!(
        Client::receive_on_stream(Ok(Some(DownloadEvent::ConnectionEstablished))),
        Ok(DownloadEvent::ConnectionEstablished)
    ));
    assert_eq!(Client::receive_on_stream(Err(other("x"))).unwrap_err(), other("x"));
}

#[test]
fn errors_end_the_iteration() {
    let failed = |message: &str| format!("fail {:?}", other(message));

    let no_writer =
        vec![ClientInput::Command(None), ClientInput::Writer(Err(other("no writer")))];
    assert_eq!(actions(no_writer).pop(), Some(failed("no writer")));

    // A failed call gives the writer back first.
    let no_control = vec![
        ClientInput::Command(None),
        ClientInput::Writer(Ok(())),
        ClientInput::Controlled(Err(other("no control"))),
        ClientInput::Done,
    ];
    let mut seen = actions(no_control);
    assert_eq!(seen.pop(), Some(failed("no control")));
    assert_eq!(seen.pop(), Some("release".to_owned()));

    let no_credentials = with(
        instructed(vec![establish("{}")]),
        vec![ClientInput::Credentials(Err(other("no credentials")))],
    );
    assert_eq!(actions(no_credentials).pop(), Some(failed("no credentials")));

    let no_stream = with(
        instructed(vec![establish("{}")]),
        vec![
            ClientInput::Credentials(Ok("token")),
            ClientInput::StreamOpened { has_coordinator: false },
            ClientInput::StreamItem(Err(other("no stream"))),
        ],
    );
    assert_eq!(actions(no_stream).pop(), Some(failed("no stream")));
}

#[test]
fn streams_use_their_own_credentials_and_coordinators() {
    let inputs = with(
        instructed(vec![establish("1"), establish("2"), establish("3")]),
        vec![
            ClientInput::Credentials(Ok("first")),
            ClientInput::StreamOpened { has_coordinator: true },
            ClientInput::Done,
            ClientInput::Credentials(Ok("second")),
            ClientInput::StreamOpened { has_coordinator: false },
            ClientInput::Credentials(Ok("third")),
            ClientInput::StreamOpened { has_coordinator: true },
            ClientInput::Done,
        ],
    );
    assert_eq!(
        actions(inputs),
        expected(&[
            "credentials",
            "open 1 as first",
            "upload",
            "credentials",
            "open 2 as second",
            "credentials",
            "open 3 as third",
            "upload",
            "receive true",
        ])
    );
}

#[test]
fn statuses_come_in_the_order_of_all_instructions() {
    let status = |status| Instruction::UpdateSyncStatus { status };
    let close = Instruction::CloseSyncStream(CloseSyncStream { hide_disconnect: false });
    let second = Instruction::CloseSyncStream(CloseSyncStream { hide_disconnect: true });
    let inputs = with(
        with(
            instructed(vec![status(1), log("x"), status(2)]),
            vec![ClientInput::Done, ClientInput::Done, ClientInput::Done],
        ),
        with(
            instructed(vec![status(3), close, status(4), second]),
            vec![ClientInput::Done],
        ),
    );
    let seen = actions(inputs);
    let statuses: Vec<&String> = seen.iter().filter(|a| a.starts_with("status")).collect();
    assert_eq!(statuses, vec!["status 1", "status 2", "status 3"]);
    assert_eq!(seen.last().unwrap(), "close false");
}

#[test]
fn events_are_forwarded_in_the_order_in_which_they_came() {
    let mut inputs = Vec::new();
    for data in ["a", "b", "c"] {
        inputs.extend(vec![
            ClientInput::Command(Some(text(data))),
            ClientInput::Writer(Ok(())),
            ClientInput::Controlled(Ok(vec![])),
            ClientInput::Done,
        ]);
    }
    let seen = actions(inputs);
    let forwarded: Vec<&String> = seen.iter().filter(|a| a.starts_with("invoke")).collect();
    assert_eq!(
        forwarded,
        vec![
            "invoke TextLine { data: \"a\" }",
            "invoke TextLine { data: \"b\" }",
            "invoke TextLine { data: \"c\" }",
        ]
    );
}
