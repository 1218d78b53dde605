//! Events of a download, and the calls by which the core extension learns of them.

use std::sync::Arc;

use vstd::prelude::*;

#[allow(unused_imports)]
use crate::json::{contents, list_json, raw_json, value_json};
use crate::json::{raw_to_string, serialize_list, value_to_string};
use crate::schema::SchemaOrCustom;
use crate::sync::streams::StreamKey;

verus! {

/// What a sync iteration starts from.
#[derive(Debug)]
pub struct StartDownloadIteration {
    /// Parameters that the client sends along with its request.
    pub parameters: serde_json::Value,
    /// The schema of the local database.
    pub schema: Arc<SchemaOrCustom>,
    /// Whether streams that the service syncs by default are included.
    pub include_defaults: bool,
    /// The streams that the application is subscribed to.
    pub active_streams: Vec<StreamKey>,
}

/// An event that triggers the downloading client to advance.
///
/// This is typically a received line from the PowerSync service, but local events are also
/// included.
#[derive(Debug)]
#[allow(inconsistent_fields)]
pub enum DownloadEvent {
    /// `connect()` has been called and we need to start establishing a connection.
    Start(StartDownloadIteration),
    /// `disconnect()` has been called or the token has expired.
    Stop,
    /// A textual JSON sync line has been received from the service.
    TextLine { data: String },
    /// A binary BSON sync line has been received from the service.
    BinaryLine { data: Vec<u8> },
    /// A CRUD upload was completed, so the client can re-try applying data.
    CompletedUpload,
    /// HTTP response headers for the sync response have been received, meaning that the sync status
    /// can be set to connected.
    ConnectionEstablished,
    /// The sync response stream has ended.
    ResponseStreamEnd,
    /// Active subscriptions for the application have changed, which might require a reconnect.
    UpdateSubscriptions { keys: Vec<StreamKey> },
}

/// The second argument of a call of `powersync_control`.
#[derive(Debug, PartialEq, Eq)]
pub enum PowerSyncControlArgument {
    Null,
    StaticString(&'static str),
    String(String),
    Bytes(Vec<u8>),
}

/// A value that is bound to a parameter of a statement.
#[derive(Debug, PartialEq, Eq)]
pub enum Binding<'a> {
    Null,
    Text(&'a str),
    Blob(&'a [u8]),
}

/// The content of a [`Binding`].
#[verifier::ext_equal]
pub enum BindingView {
    Null,
    Text(Seq<char>),
    Blob(Seq<u8>),
}

impl<'a> View for Binding<'a> {
    type V = BindingView;

    open spec fn view(&self) -> BindingView {
        match *self {
            Binding::Null => BindingView::Null,
            Binding::Text(text) => BindingView::Text(text@),
            Binding::Blob(bytes) => BindingView::Blob(bytes@),
        }
    }
}

impl View for PowerSyncControlArgument {
    type V = BindingView;

    open spec fn view(&self) -> BindingView {
        match *self {
            PowerSyncControlArgument::Null => BindingView::Null,
            PowerSyncControlArgument::StaticString(text) => BindingView::Text(text@),
            PowerSyncControlArgument::String(text) => BindingView::Text(text@),
            PowerSyncControlArgument::Bytes(bytes) => BindingView::Blob(bytes@),
        }
    }
}

impl PowerSyncControlArgument {
    /// What has to be bound for this argument. The binding borrows from the argument, which has to
    /// outlive the statement.
    pub fn bind_to(&self) -> (binding: Binding<'_>)
        ensures
            binding@ == self@,
            match *self {
                PowerSyncControlArgument::Null => binding is Null,
                PowerSyncControlArgument::StaticString(text) => binding matches Binding::Text(bound)
                    && bound@ == text@,
                PowerSyncControlArgument::String(text) => binding matches Binding::Text(bound)
                    && bound@ == text@,
                PowerSyncControlArgument::Bytes(bytes) => binding matches Binding::Blob(bound)
                    && bound@ == bytes@,
            },
    {
        match self {
            PowerSyncControlArgument::Null => Binding::Null,
            PowerSyncControlArgument::StaticString(text) => Binding::Text(text),
            PowerSyncControlArgument::String(text) => Binding::Text(text.as_str()),
            PowerSyncControlArgument::Bytes(bytes) => Binding::Blob(bytes.as_slice()),
        }
    }
}

/// The JSON texts of stream keys.
pub open spec fn key_texts(keys: Seq<StreamKey>) -> Seq<Seq<char>> {
    keys.map_values(|key: StreamKey| raw_json(key.value))
}

/// The JSON text of what a sync iteration starts from, given those of its parameters, of its
/// schema and of each of its streams.
pub open spec fn start_json(
    parameters: Seq<char>,
    schema: Seq<char>,
    include_defaults: bool,
    active_streams: Seq<Seq<char>>,
) -> Seq<char> {
    "{\"parameters\":"@ + parameters + ",\"schema\":"@ + schema + ",\"include_defaults\":"@ + (
    if include_defaults {
        "true"@
    } else {
        "false"@
    }) + ",\"active_streams\":"@ + list_json(active_streams) + "}"@
}

/// The JSON texts of stream keys.
fn serialize_keys(keys: &Vec<StreamKey>) -> (texts: Vec<String>)
    ensures
        contents(texts@) == key_texts(keys@),
{
    let mut texts: Vec<String> = Vec::new();
    let mut i: usize = 0;
    while i < keys.len()
        invariant
            i <= keys@.len(),
            texts@.len() == i,
            forall|j: int| 0 <= j < i ==> #[trigger] texts@[j]@ == raw_json(keys@[j].value),
        decreases keys@.len() - i,
    {
        texts.push(raw_to_string(&keys[i].value));
        i += 1;
    }
    assert(contents(texts@) == key_texts(keys@));
    texts
}

/// The JSON text of what a sync iteration starts from, given those of its parameters, of its
/// schema and of each of its streams.
pub fn serialize_start(
    parameters: &str,
    schema: &str,
    include_defaults: bool,
    active_streams: &Vec<String>,
) -> (text: String)
    ensures
        text@ == start_json(parameters@, schema@, include_defaults, contents(active_streams@)),
{
    let mut text = "{\"parameters\":".to_owned();
    text.append(parameters);
    text.append(",\"schema\":");
    text.append(schema);
    text.append(",\"include_defaults\":");
    text.append(
        if include_defaults {
            "true"
        } else {
            "false"
        },
    );
    text.append(",\"active_streams\":");
    text.append(serialize_list(active_streams).as_str());
    text.append("}");
    text
}

/// The operation and the argument by which `powersync_control` learns of an event.
pub open spec fn control_call(event: DownloadEvent) -> (Seq<char>, BindingView) {
    match event {
        DownloadEvent::Start(start) => (
            "start"@,
            BindingView::Text(
                start_json(
                    value_json(start.parameters),
                    raw_json(start.schema.value),
                    start.include_defaults,
                    key_texts(start.active_streams@),
                ),
            ),
        ),
        DownloadEvent::Stop => ("stop"@, BindingView::Null),
        DownloadEvent::TextLine { data } => ("line_text"@, BindingView::Text(data@)),
        DownloadEvent::BinaryLine { data } => ("line_binary"@, BindingView::Blob(data@)),
        DownloadEvent::CompletedUpload => ("completed_upload"@, BindingView::Null),
        DownloadEvent::ConnectionEstablished => (
            "connection"@,
            BindingView::Text("established"@),
        ),
        DownloadEvent::ResponseStreamEnd => ("connection"@, BindingView::Text("end"@)),
        DownloadEvent::UpdateSubscriptions { keys } => (
            "update_subscriptions"@,
            BindingView::Text(list_json(key_texts(keys@))),
        ),
    }
}

/// No two kinds of events are told to the core extension by the same call, and a line is told by a
/// call that gives back every character or byte of it.
pub proof fn control_calls_tell_events_apart(a: DownloadEvent, b: DownloadEvent)
    requires
        control_call(a) == control_call(b),
    ensures
        match a {
            DownloadEvent::Start(_) => b is Start,
            DownloadEvent::Stop => b is Stop,
            DownloadEvent::TextLine { data } => b matches DownloadEvent::TextLine { data: other }
                && data@ == other@,
            DownloadEvent::BinaryLine { data } => b matches DownloadEvent::BinaryLine {
                data: other,
            } && data@ == other@,
            DownloadEvent::CompletedUpload => b is CompletedUpload,
            DownloadEvent::ConnectionEstablished => b is ConnectionEstablished,
            DownloadEvent::ResponseStreamEnd => b is ResponseStreamEnd,
            DownloadEvent::UpdateSubscriptions { .. } => b is UpdateSubscriptions,
        },
{
    reveal_strlit("start");
    reveal_strlit("stop");
    reveal_strlit("line_text");
    reveal_strlit("line_binary");
    reveal_strlit("completed_upload");
    reveal_strlit("connection");
    reveal_strlit("established");
    reveal_strlit("end");
    reveal_strlit("update_subscriptions");
    // The operations differ in length already.
    assert("start"@.len() == 5);
    assert("stop"@.len() == 4);
    assert("line_text"@.len() == 9);
    assert("line_binary"@.len() == 11);
    assert("completed_upload"@.len() == 16);
    assert("connection"@.len() == 10);
    assert("update_subscriptions"@.len() == 20);
    assert("established"@.len() != "end"@.len());
}

impl DownloadEvent {
    /// The operation and the argument by which `powersync_control` learns of this event.
    pub fn into_powersync_control_argument(self) -> (call: (&'static str, PowerSyncControlArgument))
        ensures
            (call.0@, call.1@) == control_call(self),
            call.1 is StaticString <==> self is ConnectionEstablished || self is ResponseStreamEnd,
            self matches DownloadEvent::TextLine { data } ==> (
            call.1 matches PowerSyncControlArgument::String(text) && text@ == data@),
            self matches DownloadEvent::BinaryLine { data } ==> (
            call.1 matches PowerSyncControlArgument::Bytes(bytes) && bytes@ == data@),
    {
        match self {
            DownloadEvent::Start(start) => {
                let parameters = value_to_string(&start.parameters);
                let schema = raw_to_string(&start.schema.value);
                let serialized = serialize_start(
                    parameters.as_str(),
                    schema.as_str(),
                    start.include_defaults,
                    &serialize_keys(&start.active_streams),
                );
                ("start", PowerSyncControlArgument::String(serialized))
            },
            DownloadEvent::Stop => ("stop", PowerSyncControlArgument::Null),
            DownloadEvent::TextLine { data } => (
                "line_text",
                PowerSyncControlArgument::String(data),
            ),
            DownloadEvent::BinaryLine { data } => (
                "line_binary",
                PowerSyncControlArgument::Bytes(data),
            ),
            DownloadEvent::CompletedUpload => ("completed_upload", PowerSyncControlArgument::Null),
            DownloadEvent::ConnectionEstablished => (
                "connection",
                PowerSyncControlArgument::StaticString("established"),
            ),
            DownloadEvent::ResponseStreamEnd => (
                "connection",
                PowerSyncControlArgument::StaticString("end"),
            ),
            DownloadEvent::UpdateSubscriptions { keys } => {
                let serialized = serialize_list(&serialize_keys(&keys));
                ("update_subscriptions", PowerSyncControlArgument::String(serialized))
            },
        }
    }
}

/// The text by which the core extension learns of an event.
pub open spec fn told_text(event: DownloadEvent) -> Seq<char> {
    control_call(event).1->Text_0
}

/// The operation by which each kind of event is told, and the argument of those that are not told by
/// a JSON text: a line is handed over as it came, every character or byte of it, and text as text and
/// bytes as bytes.
pub proof fn events_are_told_as_they_came(event: DownloadEvent)
    ensures
        match event {
            DownloadEvent::Start(_) => control_call(event).0 == "start"@ && control_call(
                event,
            ).1 is Text,
            DownloadEvent::Stop => control_call(event) == ("stop"@, BindingView::Null),
            DownloadEvent::TextLine { data } => control_call(event) == (
                "line_text"@,
                BindingView::Text(data@),
            ),
            DownloadEvent::BinaryLine { data } => control_call(event) == (
                "line_binary"@,
                BindingView::Blob(data@),
            ),
            DownloadEvent::CompletedUpload => control_call(event) == (
                "completed_upload"@,
                BindingView::Null,
            ),
            DownloadEvent::ConnectionEstablished => control_call(event) == (
                "connection"@,
                BindingView::Text("established"@),
            ),
            DownloadEvent::ResponseStreamEnd => control_call(event) == (
                "connection"@,
                BindingView::Text("end"@),
            ),
            DownloadEvent::UpdateSubscriptions { .. } => control_call(event).0
                == "update_subscriptions"@ && control_call(event).1 is Text,
        },
{
}

/// Every subscription is told: with no keys the text is `[]`, and one key more adds its own text
/// before the closing bracket, behind a comma unless it is the first, and changes nothing else.
pub proof fn every_subscription_is_told(
    keys: Vec<StreamKey>,
    more: Vec<StreamKey>,
    key: StreamKey,
)
    requires
        more@ == keys@.push(key),
    ensures
        ({
            let told = told_text(DownloadEvent::UpdateSubscriptions { keys });
            &&& keys@.len() == 0 ==> told == "[]"@
            &&& told.len() >= 2
            &&& told_text(DownloadEvent::UpdateSubscriptions { keys: more }) == told.drop_last() + (
            if keys@.len() == 0 {
                seq![]
            } else {
                seq![',']
            }) + raw_json(key.value) + seq![']']
        }),
{
    crate::json::lists_grow_item_by_item(key_texts(keys@), raw_json(key.value));
    assert(key_texts(more@) == key_texts(keys@).push(raw_json(key.value)));
    if keys@.len() == 0 {
        assert(key_texts(keys@) == Seq::<Seq<char>>::empty());
    }
}

/// A start is told by an object of four members: the text of its parameters, the text of its schema,
/// whether defaults are included, and its streams, just as an update of subscriptions tells them.
pub proof fn every_part_of_a_start_is_told(start: StartDownloadIteration)
    ensures
        told_text(DownloadEvent::Start(start)) == "{\"parameters\":"@ + value_json(start.parameters)
            + ",\"schema\":"@ + raw_json(start.schema.value) + ",\"include_defaults\":"@ + (
        match start.include_defaults {
            true => "true"@,
            false => "false"@,
        }) + ",\"active_streams\":"@ + told_text(
            DownloadEvent::UpdateSubscriptions { keys: start.active_streams },
        ) + "}"@,
{
}

/// Whether defaults are included can be told from the text of a start: two that differ in nothing
/// else are not told alike.
pub proof fn starts_tell_whether_defaults_are_included(
    a: StartDownloadIteration,
    b: StartDownloadIteration,
)
    requires
        a.parameters == b.parameters,
        a.schema.value == b.schema.value,
        a.active_streams@ == b.active_streams@,
    ensures
        a.include_defaults == b.include_defaults <==> control_call(DownloadEvent::Start(a))
            == control_call(DownloadEvent::Start(b)),
        a.include_defaults && !b.include_defaults ==> told_text(DownloadEvent::Start(a)).len() + 1
            == told_text(DownloadEvent::Start(b)).len(),
{
    reveal_strlit("true");
    reveal_strlit("false");
    let (told_a, told_b) = (told_text(DownloadEvent::Start(a)), told_text(DownloadEvent::Start(b)));
    if a.include_defaults != b.include_defaults {
        assert(told_a.len() != told_b.len());
    } else {
        assert(told_a == told_b);
    }
}

/// The text of a start is put together from the texts of its parts, whatever these are, with the
/// streams as a list.
pub proof fn parts_of_a_start_stand_in_their_places(
    parameters: Seq<char>,
    schema: Seq<char>,
    active_streams: Seq<Seq<char>>,
)
    ensures
        start_json(parameters, schema, true, active_streams) == "{\"parameters\":"@ + parameters
            + ",\"schema\":"@ + schema + ",\"include_defaults\":"@ + "true"@
            + ",\"active_streams\":"@ + list_json(active_streams) + "}"@,
        start_json(parameters, schema, false, active_streams) == "{\"parameters\":"@ + parameters
            + ",\"schema\":"@ + schema + ",\"include_defaults\":"@ + "false"@
            + ",\"active_streams\":"@ + list_json(active_streams) + "}"@,
{
}

/// What is bound is the argument: nothing as `NULL`, a text as that text and bytes as those bytes.
pub proof fn bindings_are_faithful(
    text: &'static str,
    string: String,
    slice: &'static [u8],
    bytes: Vec<u8>,
)
    ensures
        Binding::Null@ is Null,
        Binding::Text(text)@ == BindingView::Text(text@),
        Binding::Blob(slice)@ == BindingView::Blob(slice@),
        PowerSyncControlArgument::Null@ is Null,
        PowerSyncControlArgument::StaticString(text)@ == BindingView::Text(text@),
        PowerSyncControlArgument::String(string)@ == BindingView::Text(string@),
        PowerSyncControlArgument::Bytes(bytes)@ == BindingView::Blob(bytes@),
{
}

} // verus!
