use std::sync::Arc;

use powersync::json::serialize_list;
use powersync::schema::SchemaOrCustom;
use powersync::sync::download::sync_iteration::{
    serialize_start, Binding, DownloadEvent, PowerSyncControlArgument,
    StartDownloadIteration,
};
use powersync::sync::streams::StreamKey;
use serde_json::value::{to_raw_value, RawValue};

fn key(json: &str) -> StreamKey {
    StreamKey { value: RawValue::from_string(json.to_owned()).unwrap() }
}

fn schema(json: &str) -> SchemaOrCustom {
    SchemaOrCustom { value: RawValue::from_string(json.to_owned()).unwrap() }
}

fn text(text: &str) -> PowerSyncControlArgument {
    PowerSyncControlArgument::String(text.to_owned())
}

#[test]
fn events_without_data_have_fixed_calls() {
    let call = |event: DownloadEvent| event.into_powersync_control_argument();
    assert_eq!(call(DownloadEvent::Stop), ("stop", PowerSyncControlArgument::Null));
    assert_eq!(
        call(DownloadEvent::CompletedUpload),
        ("completed_upload", PowerSyncControlArgument::Null)
    );
    assert_eq!(
        call(DownloadEvent::ConnectionEstablished),
        ("connection", PowerSyncControlArgument::StaticString("established"))
    );
    assert_eq!(
        call(DownloadEvent::ResponseStreamEnd),
        ("connection", PowerSyncControlArgument::StaticString("end"))
    );
}

#[test]
fn lines_are_passed_on() {
    let line = DownloadEvent::TextLine { data: "{\"a\":\"ü\"}".to_owned() };
    assert_eq!(line.into_powersync_control_argument(), ("line_text", text("{\"a\":\"ü\"}")));
    let line = DownloadEvent::BinaryLine { data: vec![0, 255, 1] };
    assert_eq!(
        line.into_powersync_control_argument(),
        ("line_binary", PowerSyncControlArgument::Bytes(vec![0, 255, 1]))
    );
}

#[test]
fn subscriptions_become_a_json_list() {
    let update = |keys: Vec<StreamKey>| {
        DownloadEvent::UpdateSubscriptions { keys }.into_powersync_control_argument()
    };
    assert_eq!(update(vec![]), ("update_subscriptions", text("[]")));
    assert_eq!(update(vec![key("{}")]), ("update_subscriptions", text("[{}]")));
    assert_eq!(
        update(vec![key("{\"name\":\"a\"}"), key("1"), key("null")]),
        ("update_subscriptions", text("[{\"name\":\"a\"},1,null]"))
    );
    // A key is one JSON value, whatever brackets stand in its strings.
    assert_eq!(update(vec![key("\"1],[2\"")]), ("update_subscriptions", text("[\"1],[2\"]")));
}

#[test]
fn start_carries_its_payload() {
    let mut parameters = serde_json::Map::new();
    parameters.insert("user".to_owned(), serde_json::Value::from("\"x\"\n"));
    parameters.insert("n".to_owned(), serde_json::Value::from(3));
    let parameters = serde_json::Value::Object(parameters);
    let event = DownloadEvent::Start(StartDownloadIteration {
        parameters: parameters.clone(),
        schema: Arc::new(schema("{\"tables\":[]}")),
        include_defaults: false,
        active_streams: vec![key("{\"name\":\"s\"}")],
    });
    let (operation, argument) = event.into_powersync_control_argument();
    assert_eq!(operation, "start");
    let expected = concat_all(&[
        "{\"parameters\":{\"n\":3,\"user\":\"\\\"x\\\"\\n\"}",
        ",\"schema\":{\"tables\":[]}",
        ",\"include_defaults\":false",
        ",\"active_streams\":[{\"name\":\"s\"}]}",
    ]);
    assert_eq!(argument, text(&expected));

    // What was written reads as the object that was meant.
    let read: serde_json::Value = serde_json::from_str(&expected).unwrap();
    assert_eq!(read["parameters"], parameters);
    assert_eq!(read["schema"]["tables"], serde_json::Value::Array(vec![]));
    assert_eq!(read["include_defaults"], serde_json::Value::Bool(false));
    assert_eq!(read["active_streams"][0]["name"], serde_json::Value::from("s"));
    assert_eq!(read.as_object().unwrap().len(), 4);
}

fn concat_all(parts: &[&str]) -> String {
    parts.concat()
}

#[test]
fn keys_and_schema_keep_their_texts() {
    // The members of an object stay in the order in which they were written, and numbers as they
    // were written.
    let written = "{\"name\":\"s\",\"active\":true,\"weight\":1.50}";
    let update = DownloadEvent::UpdateSubscriptions { keys: vec![key(written)] };
    assert_eq!(
        update.into_powersync_control_argument(),
        ("update_subscriptions", text(&concat_all(&["[", written, "]"])))
    );
    let event = DownloadEvent::Start(StartDownloadIteration {
        parameters: serde_json::Value::Null,
        schema: Arc::new(schema("{\"tables\": [], \"raw_tables\": []}")),
        include_defaults: true,
        active_streams: vec![StreamKey { value: to_raw_value(&0.1f32).unwrap() }],
    });
    assert_eq!(
        event.into_powersync_control_argument().1,
        text(&concat_all(&[
            "{\"parameters\":null",
            ",\"schema\":{\"tables\": [], \"raw_tables\": []}",
            ",\"include_defaults\":true",
            ",\"active_streams\":[0.1]}",
        ]))
    );
}

#[test]
fn lists_are_composed() {
    let list = |items: &[&str]| serialize_list(&items.iter().map(|i| i.to_string()).collect());
    assert_eq!(list(&[]), "[]");
    assert_eq!(list(&["1"]), "[1]");
    assert_eq!(list(&["{}", "2", "\"x\""]), "[{},2,\"x\"]");
}

#[test]
fn start_payload_is_composed() {
    assert_eq!(
        serialize_start("{}", "null", true, &vec![]),
        "{\"parameters\":{},\"schema\":null,\"include_defaults\":true,\"active_streams\":[]}"
    );
    assert_eq!(
        serialize_start("1", "2", false, &vec!["3".to_owned(), "4".to_owned()]),
        "{\"parameters\":1,\"schema\":2,\"include_defaults\":false,\"active_streams\":[3,4]}"
    );
}

#[test]
fn arguments_are_bound_by_their_type() {
    assert_eq!(PowerSyncControlArgument::Null.bind_to(), Binding::Null);
    assert_eq!(PowerSyncControlArgument::StaticString("end").bind_to(), Binding::Text("end"));
    assert_eq!(text("x").bind_to(), Binding::Text("x"));
    assert_eq!(PowerSyncControlArgument::Bytes(vec![7]).bind_to(), Binding::Blob(&[7]));
}
