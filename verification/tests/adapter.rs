use external_control::adapter::{
    approval_from_result, client_side_notifications, emit_stream_delta, extract_decision,
    is_jsonrpc_value, is_valid_jsonrpc_message, jsonrpc_id_to_string,
    maybe_capture_permission_request, maybe_emit_client_side_notifications,
    maybe_emit_permission_resolved, maybe_emit_stream_notifications, parse_input_items,
    parse_jsonrpc_message, write_input,
};
use external_control::ids::new_queue_item_id;
use external_control::json::{JsonNumber, JsonValue};
use external_control::notification::{
    write_json_line, write_synthetic_notification, AdapterNotification,
};
use external_control::pending::{PendingPermission, PendingPermissions};
use external_control::protocol::{
    ExternalDiffChunkNotification, ExternalDiffFormat, ExternalInputQueueKind,
    ExternalPermissionRequestKind, ExternalPermissionResolvedNotification, ExternalQueueOperation,
    ExternalStreamChannel, ExternalStreamDeltaNotification, UserInput,
};

fn text(t: &str) -> JsonValue {
    JsonValue::Text(t.to_string())
}

fn object(members: Vec<(&str, JsonValue)>) -> JsonValue {
    JsonValue::Object(members.into_iter().map(|(n, v)| (n.to_string(), v)).collect())
}

fn message(json: &str) -> JsonValue {
    parse_jsonrpc_message(json).unwrap()
}

fn result(json: &str) -> JsonValue {
    message(&format!("{{\"result\":{json}}}")).get("result").unwrap().clone()
}

fn stream(json: &str, sequence: &mut u64) -> Option<ExternalStreamDeltaNotification> {
    match maybe_emit_stream_notifications(&message(json), sequence) {
        Some(AdapterNotification::StreamDelta(delta)) => Some(delta),
        Some(other) => panic!("{:?}", other),
        None => None,
    }
}

fn is_lower_uuid_v4(id: &str) -> bool {
    let chars: Vec<char> = id.chars().collect();
    chars.len() == 36
        && chars.iter().enumerate().all(|(i, c)| match i {
            8 | 13 | 18 | 23 => *c == '-',
            14 => *c == '4',
            19 => matches!(c, '8' | '9' | 'a' | 'b'),
            _ => matches!(c, '0'..='9' | 'a'..='f'),
        })
}

#[test]
fn validates_request() {
    assert!(is_valid_jsonrpc_message(
        r#"{"id":"1","method":"thread/start","params":{"model":"gpt-5"}}"#
    ));
}

#[test]
fn validates_notification() {
    assert!(is_valid_jsonrpc_message(
        r#"{"method":"turn/started","params":{"threadId":"thr_1","turnId":"turn_1"}}"#
    ));
}

#[test]
fn rejects_non_jsonrpc() {
    assert!(!is_valid_jsonrpc_message(r#"{"foo":"bar"}"#));
}

#[test]
fn converts_jsonrpc_id_variants() {
    assert_eq!(jsonrpc_id_to_string(&text("req-1")), "req-1".to_string());
    assert_eq!(
        jsonrpc_id_to_string(&JsonValue::Number(JsonNumber::PosInt(42))),
        "42".to_string()
    );
}

#[test]
fn parses_user_input_items_from_turn_start() {
    let parsed = parse_input_items(Some(&JsonValue::Array(vec![object(vec![
        ("type", text("text")),
        ("text", text("hello")),
        ("text_elements", JsonValue::Array(vec![])),
    ])])));
    assert_eq!(
        parsed,
        vec![UserInput::Text {
            text: "hello".to_string(),
            text_elements: Vec::new(),
        }]
    );
}

#[test]
fn one_telling_member_makes_a_message() {
    assert!(is_valid_jsonrpc_message(r#"{"id":null}"#));
    assert!(is_valid_jsonrpc_message(r#"{"result":null}"#));
    assert!(is_valid_jsonrpc_message(r#" {"error":1} "#));
    assert!(is_valid_jsonrpc_message(r#"{"method":7}"#));
    assert!(!is_valid_jsonrpc_message("{}"));
    assert!(!is_valid_jsonrpc_message(r#"[{"id":1}]"#));
    assert!(!is_valid_jsonrpc_message(r#""id""#));
    assert!(!is_valid_jsonrpc_message(""));
    assert!(!is_valid_jsonrpc_message(r#"{"id":1"#));
    assert!(!is_valid_jsonrpc_message(r#"{"id":1} x"#));
    assert!(is_jsonrpc_value(&object(vec![("id", JsonValue::Null)])));
    assert!(!is_jsonrpc_value(&JsonValue::Null));
}

#[test]
fn ids_of_other_kinds_are_empty() {
    assert_eq!(jsonrpc_id_to_string(&JsonValue::Number(JsonNumber::NegInt(-3))), "-3");
    assert_eq!(jsonrpc_id_to_string(&result("1.5")), "1.5");
    assert_eq!(jsonrpc_id_to_string(&JsonValue::Null), "");
    assert_eq!(jsonrpc_id_to_string(&JsonValue::Bool(true)), "");
    assert_eq!(jsonrpc_id_to_string(&JsonValue::Array(vec![text("a")])), "");
    assert_eq!(jsonrpc_id_to_string(&object(vec![("id", text("a"))])), "");
}

#[test]
fn unreadable_input_is_no_input() {
    assert_eq!(parse_input_items(None), vec![]);
    assert_eq!(parse_input_items(Some(&text("hello"))), vec![]);
    let mixed = result(r#"[{"type":"text","text":"a"},{"type":"unheardOf"}]"#);
    assert_eq!(parse_input_items(Some(&mixed)), vec![]);
    let two = result(r#"[{"type":"text","text":"a"},{"type":"text","text":"b"}]"#);
    assert_eq!(parse_input_items(Some(&two)).len(), 2);
}

#[test]
fn input_is_written_with_the_type_first() {
    let items = parse_input_items(Some(&result(
        r#"[{"text":"say \"hi\"","type":"text","text_elements":[{"b":1,"a":1.5}]},{"type":"text","text":"x"}]"#,
    )));
    assert_eq!(
        write_input(&items),
        r#"[{"type":"text","text":"say \"hi\"","text_elements":[{"a":1.5,"b":1}]},{"type":"text","text":"x","text_elements":[]}]"#
    );
    assert_eq!(write_input(&vec![]), "[]");
}

#[test]
fn stream_messages_become_stream_pieces() {
    let cases = [
        ("item/agentMessage/delta", ExternalStreamChannel::OutputText),
        ("item/reasoning/summaryTextDelta", ExternalStreamChannel::ReasoningSummary),
        ("item/reasoning/textDelta", ExternalStreamChannel::ReasoningContent),
        ("item/commandExecution/outputDelta", ExternalStreamChannel::TerminalOutput),
        ("item/commandExecution/terminalInteraction", ExternalStreamChannel::InputEcho),
    ];
    let mut sequence = 0;
    for (i, (method, channel)) in cases.into_iter().enumerate() {
        let json = format!(
            r#"{{"method":"{method}","params":{{"threadId":"t","turnId":"u","delta":"d{i}"}}}}"#
        );
        assert_eq!(
            stream(&json, &mut sequence),
            Some(ExternalStreamDeltaNotification {
                thread_id: "t".to_string(),
                turn_id: Some("u".to_string()),
                channel,
                sequence: i as u64 + 1,
                delta: format!("d{i}"),
            })
        );
    }
    assert_eq!(sequence, 5);
}

#[test]
fn stdin_stands_in_for_a_missing_delta_only() {
    let mut sequence = 0;
    let interaction = |params: &str| {
        format!(r#"{{"method":"item/commandExecution/terminalInteraction","params":{params}}}"#)
    };
    assert_eq!(stream(&interaction(r#"{"stdin":"ls\n"}"#), &mut sequence).unwrap().delta, "ls\n");
    let both = stream(&interaction(r#"{"delta":"d","stdin":"s"}"#), &mut sequence).unwrap();
    assert_eq!(both.delta, "d");
    let null = stream(&interaction(r#"{"delta":null,"stdin":"s"}"#), &mut sequence).unwrap();
    assert_eq!(null.delta, "");
    let neither = stream(&interaction("{}"), &mut sequence).unwrap();
    assert_eq!((neither.delta.as_str(), neither.sequence), ("", 4));
    assert_eq!((neither.thread_id.as_str(), neither.turn_id), ("", None));
}

#[test]
fn a_message_without_parameters_still_counts() {
    let mut sequence = 9;
    let delta = stream(r#"{"method":"item/agentMessage/delta"}"#, &mut sequence).unwrap();
    assert_eq!((delta.sequence, delta.delta.as_str(), sequence), (10, "", 10));
}

#[test]
fn the_last_sequence_number_stays() {
    let mut sequence = u64::MAX - 1;
    let params = object(vec![("delta", text("d"))]);
    let last = emit_stream_delta(&params, ExternalStreamChannel::OutputText, &mut sequence);
    assert_eq!((last.sequence, sequence), (u64::MAX, u64::MAX));
    let again = emit_stream_delta(&params, ExternalStreamChannel::OutputText, &mut sequence);
    assert_eq!((again.sequence, sequence), (u64::MAX, u64::MAX));
}

#[test]
fn completed_messages_are_streamed_in_full() {
    let mut sequence = 0;
    let completed = |item: &str| {
        format!(r#"{{"method":"item/completed","params":{{"threadId":"t","turnId":"u","item":{item}}}}}"#)
    };
    assert_eq!(
        stream(&completed(r#"{"type":"agentMessage","text":"done"}"#), &mut sequence),
        Some(ExternalStreamDeltaNotification {
            thread_id: "t".to_string(),
            turn_id: Some("u".to_string()),
            channel: ExternalStreamChannel::OutputText,
            sequence: 1,
            delta: "done".to_string(),
        })
    );
    assert_eq!(stream(&completed(r#"{"type":"agentMessage","text":""}"#), &mut sequence), None);
    assert_eq!(stream(&completed(r#"{"type":"agentMessage"}"#), &mut sequence), None);
    let reasoning = stream(
        &completed(r#"{"type":"reasoning","summary":["one",2,"","two"]}"#),
        &mut sequence,
    )
    .unwrap();
    assert_eq!(reasoning.channel, ExternalStreamChannel::ReasoningSummary);
    assert_eq!((reasoning.delta.as_str(), reasoning.sequence), ("one\n\ntwo", 2));
    assert_eq!(stream(&completed(r#"{"type":"reasoning","summary":[]}"#), &mut sequence), None);
    assert_eq!(stream(&completed(r#"{"type":"reasoning","summary":"s"}"#), &mut sequence), None);
    assert_eq!(stream(&completed(r#"{"type":"fileChange","text":"x"}"#), &mut sequence), None);
    assert_eq!(stream(&completed(r#"{"text":"x"}"#), &mut sequence), None);
    assert_eq!(stream(&completed(r#""agentMessage""#), &mut sequence), None);
    assert_eq!(stream(r#"{"method":"item/completed"}"#, &mut sequence), None);
    assert_eq!(sequence, 2);
}

#[test]
fn diffs_are_one_complete_chunk() {
    let mut sequence = 5;
    let diff = message(
        r#"{"method":"turn/diff/updated","params":{"threadId":"t","turnId":"u","diff":"+x"}}"#,
    );
    assert_eq!(
        maybe_emit_stream_notifications(&diff, &mut sequence),
        Some(AdapterNotification::DiffChunk(ExternalDiffChunkNotification {
            thread_id: "t".to_string(),
            turn_id: "u".to_string(),
            format: ExternalDiffFormat::UnifiedPatch,
            chunk_index: 0,
            complete: true,
            diff: "+x".to_string(),
        }))
    );
    assert_eq!(sequence, 5);
}

#[test]
fn other_messages_are_left_alone() {
    let mut sequence = 5;
    for json in [
        r#"{"method":"turn/completed","params":{"delta":"d"}}"#,
        r#"{"method":7,"params":{"delta":"d"}}"#,
        r#"{"id":1,"result":{"delta":"d"}}"#,
    ] {
        assert_eq!(maybe_emit_stream_notifications(&message(json), &mut sequence), None);
        assert_eq!(maybe_emit_client_side_notifications(&message(json), &mut sequence), vec![]);
    }
    assert_eq!(sequence, 5);
}

#[test]
fn input_passes_through_its_queue() {
    let mut sequence = 2;
    let start = message(
        r#"{"id":3,"method":"turn/start","params":{"threadId":"t","expectedTurnId":"u","input":[{"type":"text","text":"hello","text_elements":[]}]}}"#,
    );
    let notifications = client_side_notifications(&start, "q_1".to_string(), &mut sequence);
    assert_eq!(sequence, 3);
    assert_eq!(notifications.len(), 3);
    let operations = [
        (0, ExternalQueueOperation::Enqueued),
        (2, ExternalQueueOperation::Dequeued),
    ];
    for (at, operation) in operations {
        match &notifications[at] {
            AdapterNotification::QueueUpdated(updated) => {
                assert_eq!(updated.thread_id, "t");
                assert_eq!(updated.queue_kind, ExternalInputQueueKind::Interactive);
                assert_eq!(updated.operation, operation);
                let item = updated.item.as_ref().unwrap();
                assert_eq!(item.queue_item_id, "q_1");
                assert_eq!(item.thread_id, "t");
                assert_eq!(item.queue_kind, ExternalInputQueueKind::Interactive);
                assert_eq!(item.expected_turn_id.as_deref(), Some("u"));
                assert_eq!(item.client_message_id, None);
                assert_eq!(item.input.len(), 1);
            }
            other => panic!("{:?}", other),
        }
    }
    assert_eq!(
        notifications[1],
        AdapterNotification::StreamDelta(ExternalStreamDeltaNotification {
            thread_id: "t".to_string(),
            turn_id: Some("u".to_string()),
            channel: ExternalStreamChannel::InputEcho,
            sequence: 3,
            delta: r#"[{"type":"text","text":"hello","text_elements":[]}]"#.to_string(),
        })
    );
}

#[test]
fn steering_has_a_queue_of_its_own() {
    let mut sequence = 0;
    let steer = message(r#"{"method":"turn/steer"}"#);
    let notifications = client_side_notifications(&steer, "q".to_string(), &mut sequence);
    match (&notifications[0], &notifications[1]) {
        (AdapterNotification::QueueUpdated(updated), AdapterNotification::StreamDelta(echo)) => {
            assert_eq!(updated.queue_kind, ExternalInputQueueKind::Steer);
            assert_eq!(updated.thread_id, "");
            assert_eq!((echo.delta.as_str(), echo.turn_id.as_deref()), ("[]", None));
        }
        other => panic!("{:?}", other),
    }
}

#[test]
fn queue_items_get_random_names() {
    let mut sequence = 0;
    let start = message(r#"{"method":"turn/start"}"#);
    let notifications = maybe_emit_client_side_notifications(&start, &mut sequence);
    let id = |at: usize| match &notifications[at] {
        AdapterNotification::QueueUpdated(updated) => {
            updated.item.as_ref().unwrap().queue_item_id.clone()
        }
        other => panic!("{:?}", other),
    };
    assert_eq!(id(0), id(2));
    assert!(is_lower_uuid_v4(id(0).strip_prefix("q_").unwrap()));
    assert_ne!(new_queue_item_id(), new_queue_item_id());
}

#[test]
fn permission_requests_are_captured() {
    let kinds = [
        ("item/commandExecution/requestApproval", ExternalPermissionRequestKind::CommandExecution),
        ("item/fileChange/requestApproval", ExternalPermissionRequestKind::FileChange),
        ("item/permissions/requestApproval", ExternalPermissionRequestKind::Permissions),
        ("mcpServer/elicitation/request", ExternalPermissionRequestKind::McpElicitation),
    ];
    let mut pending = PendingPermissions::new();
    for (i, (method, kind)) in kinds.into_iter().enumerate() {
        let request = message(&format!(
            r#"{{"id":{i},"method":"{method}","params":{{"threadId":"t","turnId":"u","cost":0.25}}}}"#
        ));
        let notification = maybe_capture_permission_request(&request, &mut pending).unwrap();
        assert_eq!(notification.thread_id, "t");
        assert_eq!(notification.turn_id.as_deref(), Some("u"));
        assert_eq!(notification.request_id, format!("{i}"));
        assert_eq!(notification.kind, kind);
        assert_eq!(Some(&notification.payload), request.get("params"));
        assert!(pending.contains(&format!("{i}")));
    }
    assert!(!pending.contains("4"));
}

#[test]
fn what_is_no_permission_request_is_not_captured() {
    let mut pending = PendingPermissions::new();
    for json in [
        r#"{"method":"item/fileChange/requestApproval","params":{}}"#,
        r#"{"id":1,"method":"item/fileChange/other","params":{}}"#,
        r#"{"id":1,"result":{}}"#,
    ] {
        assert_eq!(maybe_capture_permission_request(&message(json), &mut pending), None);
    }
    assert!(!pending.contains("1"));
    let bare = message(r#"{"id":null,"method":"item/fileChange/requestApproval"}"#);
    let notification = maybe_capture_permission_request(&bare, &mut pending).unwrap();
    assert_eq!(notification.request_id, "");
    assert_eq!(notification.payload, JsonValue::Null);
    assert!(pending.contains(""));
}

#[test]
fn answers_settle_requests_once() {
    let mut pending = PendingPermissions::new();
    pending.insert(PendingPermission {
        thread_id: "t".to_string(),
        request_id: "7".to_string(),
    });
    let silent = message(r#"{"id":7}"#);
    assert_eq!(maybe_emit_permission_resolved(&silent, &mut pending), None);
    let stray = message(r#"{"id":8,"result":{"decision":"accept"}}"#);
    assert_eq!(maybe_emit_permission_resolved(&stray, &mut pending), None);
    assert!(pending.contains("7"));
    let answer = message(r#"{"id":"7","result":{"decision":"accept"}}"#);
    assert_eq!(
        maybe_emit_permission_resolved(&answer, &mut pending),
        Some(ExternalPermissionResolvedNotification {
            thread_id: "t".to_string(),
            request_id: "7".to_string(),
            approved: true,
            decision: Some("accept".to_string()),
        })
    );
    assert!(!pending.contains("7"));
    assert_eq!(maybe_emit_permission_resolved(&answer, &mut pending), None);
}

#[test]
fn an_error_denies_whatever_the_result_says() {
    let mut pending = PendingPermissions::new();
    pending.insert(PendingPermission {
        thread_id: "t".to_string(),
        request_id: "7".to_string(),
    });
    let answer = message(r#"{"id":7,"result":{"decision":"accept"},"error":null}"#);
    let resolved = maybe_emit_permission_resolved(&answer, &mut pending).unwrap();
    assert!(!resolved.approved);
    assert_eq!(resolved.decision.as_deref(), Some("accept"));
    pending.insert(PendingPermission {
        thread_id: "t".to_string(),
        request_id: "7".to_string(),
    });
    let failed = message(r#"{"id":7,"error":{"code":1}}"#);
    let resolved = maybe_emit_permission_resolved(&failed, &mut pending).unwrap();
    assert_eq!((resolved.approved, resolved.decision), (false, None));
}

#[test]
fn a_later_request_takes_the_place_of_an_earlier_one() {
    let mut pending = PendingPermissions::new();
    for thread_id in ["a", "b"] {
        pending.insert(PendingPermission {
            thread_id: thread_id.to_string(),
            request_id: "7".to_string(),
        });
    }
    assert_eq!(
        pending.remove("7"),
        Some(PendingPermission {
            thread_id: "b".to_string(),
            request_id: "7".to_string(),
        })
    );
    assert_eq!(pending.remove("7"), None);
}

#[test]
fn results_grant_by_decision_then_action_then_permissions() {
    let grants = |json: &str| approval_from_result(Some(&result(json)));
    assert!(grants(r#"{"decision":"accept"}"#));
    assert!(grants(r#"{"decision":"acceptForSession"}"#));
    assert!(grants(r#"{"decision":"applyNetworkPolicyAmendment"}"#));
    assert!(!grants(r#"{"decision":"applyNetworkPolicyAmendments"}"#));
    assert!(!grants(r#"{"decision":"decline"}"#));
    assert!(!grants(r#"{"decision":"decline","action":"accept","permissions":{}}"#));
    assert!(grants(r#"{"action":"accept"}"#));
    assert!(!grants(r#"{"action":"acceptAll"}"#));
    assert!(!grants(r#"{"action":"cancel","permissions":{}}"#));
    assert!(grants(r#"{"permissions":null}"#));
    assert!(grants(r#"{"decision":{"accept":1},"permissions":{}}"#));
    assert!(!grants("{}"));
    assert!(!grants(r#""accept""#));
    assert!(!approval_from_result(None));
}

#[test]
fn decisions_are_told_in_words() {
    let decision = |json: &str| extract_decision(Some(&result(json)));
    assert_eq!(decision(r#"{"decision":"decline","action":"accept"}"#).as_deref(), Some("decline"));
    assert_eq!(decision(r#"{"decision":1,"action":"accept"}"#).as_deref(), Some("accept"));
    assert_eq!(decision(r#"{"permissions":{}}"#), None);
    assert_eq!(decision(r#""accept""#), None);
    assert_eq!(extract_decision(None), None);
}

#[test]
fn notifications_go_out_as_one_line_of_json() {
    let notification = AdapterNotification::StreamDelta(ExternalStreamDeltaNotification {
        thread_id: "t".to_string(),
        turn_id: None,
        channel: ExternalStreamChannel::TerminalOutput,
        sequence: 4,
        delta: "a\n\"b\"\u{1}\u{e9}".to_string(),
    });
    let line = write_synthetic_notification(&notification);
    assert_eq!(
        line,
        "{\"method\":\"adapter/streamDelta\",\"params\":{\"channel\":\"terminalOutput\",\"delta\":\"a\\n\\\"b\\\"\\u0001\u{e9}\",\"sequence\":4,\"threadId\":\"t\",\"turnId\":null}}\n"
    );
    let value: serde_json::Value = serde_json::from_str(&line).unwrap();
    assert_eq!(value["params"]["delta"], "a\n\"b\"\u{1}\u{e9}");
    assert!(is_valid_jsonrpc_message(line.trim_end()));
    assert_eq!(write_json_line("{\"id\":1}"), "{\"id\":1}\n");
}

#[test]
fn payloads_go_out_as_they_came() {
    let mut pending = PendingPermissions::new();
    let request = message(
        r#"{"id":"r","method":"mcpServer/elicitation/request","params":{"threadId":"t","n":-3,"x":0.25,"deep":[[{"k":[null,true]}]]}}"#,
    );
    let notification = maybe_capture_permission_request(&request, &mut pending).unwrap();
    let line = write_synthetic_notification(&AdapterNotification::PermissionRequest(notification));
    let value: serde_json::Value = serde_json::from_str(&line).unwrap();
    assert_eq!(value["method"], "adapter/permissionRequest");
    assert_eq!(value["params"]["kind"], "mcpElicitation");
    assert_eq!(value["params"]["payload"]["n"], -3);
    assert_eq!(value["params"]["payload"]["x"], 0.25);
    assert_eq!(value["params"]["payload"]["deep"][0][0]["k"][1], true);
}
