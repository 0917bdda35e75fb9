use external_control::connection::{
    AdapterConnection, ConnectionEvent, ConnectionStep, Delivery,
};
use external_control::json::JsonValue;
use external_control::notification::AdapterNotification;

fn client(connection: &mut AdapterConnection, line: &str) -> ConnectionStep {
    connection.handle_connection(ConnectionEvent::ClientLine(line.to_string()))
}

fn server(connection: &mut AdapterConnection, text: &str) -> ConnectionStep {
    connection.handle_connection(ConnectionEvent::ServerText(text.to_string()))
}

fn idle(open: bool) -> ConnectionStep {
    ConnectionStep { lines: vec![], forward: None, dropped: false, open }
}

fn parse(line: &str) -> serde_json::Value {
    assert!(line.ends_with('\n'));
    assert_eq!(line.matches('\n').count(), 1);
    serde_json::from_str(line).unwrap()
}

fn methods(step: &ConnectionStep) -> Vec<String> {
    step.lines.iter().map(|l| parse(l)["method"].as_str().unwrap_or("").to_string()).collect()
}

#[test]
fn blank_lines_are_skipped() {
    let mut connection = AdapterConnection::new();
    assert_eq!(client(&mut connection, ""), idle(true));
    assert_eq!(client(&mut connection, " \t\u{a0}\u{3000}\r"), idle(true));
}

#[test]
fn lines_that_are_no_messages_are_dropped() {
    let mut connection = AdapterConnection::new();
    let dropped = ConnectionStep { dropped: true, ..idle(true) };
    assert_eq!(client(&mut connection, "hello"), dropped);
    assert_eq!(client(&mut connection, "{\"foo\":\"bar\"}"), dropped);
    assert_eq!(server(&mut connection, "{\"foo\":\"bar\"}"), idle(true));
}

#[test]
fn lines_are_forwarded_without_the_space_around_them() {
    let mut connection = AdapterConnection::new();
    let step = client(&mut connection, " \u{2003}{\"id\":1, \"method\":\"initialize\"}\r");
    assert_eq!(step.forward.as_deref(), Some("{\"id\":1, \"method\":\"initialize\"}"));
    assert_eq!(step.lines, Vec::<String>::new());
    assert!(step.open && !step.dropped);
}

#[test]
fn server_messages_are_passed_on_as_they_are() {
    let mut connection = AdapterConnection::new();
    let text = " {\"id\":1,  \"result\":{}}";
    let step = server(&mut connection, text);
    assert_eq!(step.lines, vec![format!("{text}\n")]);
    assert_eq!((step.forward, step.open), (None, true));
}

#[test]
fn other_events_end_the_connection_or_do_nothing() {
    let mut connection = AdapterConnection::new();
    assert_eq!(connection.handle_connection(ConnectionEvent::ServerOther), idle(true));
    for event in [
        ConnectionEvent::ClientClosed,
        ConnectionEvent::ServerClosed,
        ConnectionEvent::ServerFailed,
        ConnectionEvent::ForwardFailed,
    ] {
        assert_eq!(connection.handle_connection(event), idle(false));
    }
}

#[test]
fn a_turn_is_told_from_its_input_to_its_approval() {
    let mut connection = AdapterConnection::new();
    let start = client(
        &mut connection,
        r#"{"id":3,"method":"turn/start","params":{"threadId":"thr","input":[{"type":"text","text":"apply patch","text_elements":[]}]}}"#,
    );
    assert_eq!(
        methods(&start),
        ["adapter/queueUpdated", "adapter/streamDelta", "adapter/queueUpdated"]
    );
    let enqueued = parse(&start.lines[0]);
    let echo = parse(&start.lines[1]);
    let dequeued = parse(&start.lines[2]);
    assert_eq!(enqueued["params"]["operation"], "enqueued");
    assert_eq!(dequeued["params"]["operation"], "dequeued");
    assert_eq!(enqueued["params"]["item"], dequeued["params"]["item"]);
    assert_eq!(echo["params"]["channel"], "inputEcho");
    assert_eq!(echo["params"]["sequence"], 1);
    assert_eq!(
        echo["params"]["delta"],
        r#"[{"type":"text","text":"apply patch","text_elements":[]}]"#
    );

    let diff = server(
        &mut connection,
        r#"{"method":"turn/diff/updated","params":{"threadId":"thr","turnId":"turn","diff":"+++ b/README.md"}}"#,
    );
    assert_eq!(methods(&diff), ["adapter/diffChunk", "turn/diff/updated"]);
    assert_eq!(parse(&diff.lines[0])["params"]["turnId"], "turn");
    assert_eq!(parse(&diff.lines[0])["params"]["chunkIndex"], 0);
    assert_eq!(parse(&diff.lines[0])["params"]["complete"], true);

    let request = r#"{"id":0,"method":"item/fileChange/requestApproval","params":{"threadId":"thr","turnId":"turn"}}"#;
    let asked = server(&mut connection, request);
    assert_eq!(
        methods(&asked),
        ["adapter/permissionRequest", "item/fileChange/requestApproval"]
    );
    assert_eq!(parse(&asked.lines[0])["params"]["requestId"], "0");
    assert_eq!(asked.lines[1], format!("{request}\n"));
    assert!(connection.is_pending("0"));

    let answer = r#"{"id":0,"result":{"decision":"accept"}}"#;
    let answered = client(&mut connection, answer);
    assert_eq!(methods(&answered), ["adapter/permissionResolved"]);
    let resolved = parse(&answered.lines[0]);
    assert_eq!(resolved["params"]["requestId"], "0");
    assert_eq!(resolved["params"]["threadId"], "thr");
    assert_eq!(resolved["params"]["approved"], true);
    assert_eq!(answered.forward.as_deref(), Some(answer));
    assert!(!connection.is_pending("0"));
    assert_eq!(methods(&client(&mut connection, answer)), Vec::<String>::new());

    let said = server(
        &mut connection,
        r#"{"method":"item/agentMessage/delta","params":{"threadId":"thr","delta":"patched"}}"#,
    );
    assert_eq!(parse(&said.lines[0])["params"]["sequence"], 2);
    assert_eq!(connection.sequence(), 2);
}

#[test]
fn both_directions_share_one_numbering() {
    let mut connection = AdapterConnection::new();
    let mut seen = vec![];
    for _ in 0..3 {
        let step = client(&mut connection, "{\"method\":\"turn/steer\"}");
        seen.push(parse(&step.lines[1])["params"]["sequence"].as_u64().unwrap());
        let step = server(&mut connection, "{\"method\":\"item/agentMessage/delta\"}");
        seen.push(parse(&step.lines[0])["params"]["sequence"].as_u64().unwrap());
    }
    assert_eq!(seen, [1, 2, 3, 4, 5, 6]);
}

#[test]
fn requests_are_known_by_id_until_answered() {
    let mut connection = AdapterConnection::new();
    for id in ["1", "\"a\"", "-2"] {
        server(
            &mut connection,
            &format!(r#"{{"id":{id},"method":"item/permissions/requestApproval"}}"#),
        );
    }
    assert!(connection.is_pending("1") && connection.is_pending("a") && connection.is_pending("-2"));
    client(&mut connection, "{\"id\":\"-2\",\"error\":{}}");
    assert!(connection.is_pending("1") && connection.is_pending("a"));
    assert!(!connection.is_pending("-2"));
    client(&mut connection, "{\"id\":3,\"result\":{}}");
    assert!(connection.is_pending("1") && connection.is_pending("a"));
}

#[test]
fn a_message_may_queue_input_and_settle_a_request() {
    let mut connection = AdapterConnection::new();
    server(&mut connection, r#"{"id":5,"method":"item/permissions/requestApproval"}"#);
    let step = client(
        &mut connection,
        r#"{"id":5,"method":"turn/steer","result":{"permissions":{}}}"#,
    );
    assert_eq!(
        methods(&step),
        [
            "adapter/queueUpdated",
            "adapter/streamDelta",
            "adapter/queueUpdated",
            "adapter/permissionResolved"
        ]
    );
}

#[test]
fn messages_can_be_handed_over_one_by_one() {
    let mut connection = AdapterConnection::new();
    let method = |name: &str| {
        JsonValue::Object(vec![("method".to_string(), JsonValue::Text(name.to_string()))])
    };
    let notifications = connection.on_client_message(&method("turn/start"), "q_x".to_string());
    match &notifications[0] {
        AdapterNotification::QueueUpdated(updated) => {
            assert_eq!(updated.item.as_ref().unwrap().queue_item_id, "q_x");
        }
        other => panic!("{:?}", other),
    }
    assert_eq!(notifications[0].method(), "adapter/queueUpdated");
    assert_eq!(connection.on_server_message(&method("turn/completed")), vec![]);
    assert_eq!(connection.on_server_message(&method("turn/diff/updated")).len(), 1);
}

#[test]
fn the_client_is_told_before_the_server_gets_the_message() {
    let mut connection = AdapterConnection::new();
    let line = r#"{"method":"turn/steer"}"#;
    let step = client(&mut connection, line);
    let deliveries = step.deliveries();
    assert_eq!(deliveries.len(), 4);
    for (at, line) in step.lines.iter().enumerate() {
        assert_eq!(deliveries[at], Delivery::ToClient(line.clone()));
    }
    assert_eq!(deliveries[3], Delivery::ToServer(line.to_string()));
    let passed = server(&mut connection, "{\"id\":1}");
    assert_eq!(passed.deliveries(), [Delivery::ToClient("{\"id\":1}\n".to_string())]);
    assert_eq!(idle(false).deliveries(), []);
}

#[test]
fn an_echo_reads_as_the_queued_input() {
    let mut connection = AdapterConnection::new();
    let input = r#"[{"type":"text","text":"a \"b\"\n","text_elements":[{"z":1,"a":[0.25,1.5e20,-3]}]},{"type":"text","text":"c","text_elements":[]}]"#;
    let step = client(
        &mut connection,
        &format!(r#"{{"method":"turn/start","params":{{"input":{input}}}}}"#),
    );
    let echo = parse(&step.lines[1]);
    let read: serde_json::Value =
        serde_json::from_str(echo["params"]["delta"].as_str().unwrap()).unwrap();
    assert_eq!(read, serde_json::from_str::<serde_json::Value>(input).unwrap());
    assert_eq!(read, parse(&step.lines[0])["params"]["item"]["input"]);
}
