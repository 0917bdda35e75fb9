use external_control::json::{JsonNumber, JsonValue};
use external_control::protocol::{
    ControlSetting, ExternalDiffChunkNotification, ExternalDiffFormat, ExternalInputQueueKind,
    ExternalPermissionRequestKind, ExternalPermissionRequestNotification,
    ExternalPermissionResolvedNotification, ExternalQueueInputClearParams,
    ExternalQueueInputClearResponse, ExternalQueueInputDropParams, ExternalQueueInputDropResponse,
    ExternalQueueInputEnqueueParams, ExternalQueueInputEnqueueResponse,
    ExternalQueueInputListParams, ExternalQueueInputListResponse, ExternalQueueOperation,
    ExternalQueueUpdatedNotification, ExternalQueuedInput, ExternalRuntimeControlSetParams,
    ExternalRuntimeControlSetResponse, ExternalStreamChannel, ExternalStreamDeltaNotification,
    UserInput,
};
use external_control::wire::Wire;

fn text(t: &str) -> JsonValue {
    JsonValue::Text(t.to_string())
}

fn number(n: u64) -> JsonValue {
    JsonValue::Number(JsonNumber::PosInt(n))
}

fn array(items: Vec<JsonValue>) -> JsonValue {
    JsonValue::Array(items)
}

fn object(members: Vec<(&str, JsonValue)>) -> JsonValue {
    JsonValue::Object(members.into_iter().map(|(n, v)| (n.to_string(), v)).collect())
}

fn text_item(t: &str) -> JsonValue {
    object(vec![("type", text("text")), ("text", text(t)), ("text_elements", array(vec![]))])
}

fn queued(id: &str) -> ExternalQueuedInput {
    ExternalQueuedInput {
        queue_item_id: id.to_string(),
        thread_id: "thr".to_string(),
        queue_kind: ExternalInputQueueKind::Steer,
        input: vec![UserInput::Text { text: "go".to_string(), text_elements: vec![] }],
        expected_turn_id: None,
        client_message_id: Some("m".to_string()),
    }
}

#[test]
fn queue_enqueue_params_round_trip() {
    let value = object(vec![
        ("threadId", text("thr_123")),
        ("queueKind", text("followUp")),
        ("input", array(vec![text_item("check test status")])),
        ("expectedTurnId", text("turn_9")),
        ("clientMessageId", text("msg_1")),
    ]);

    let params = ExternalQueueInputEnqueueParams::from_json(&value).expect("deserialize params");
    assert_eq!(params.queue_kind, ExternalInputQueueKind::FollowUp);
    assert_eq!(params.to_json(), value);
}

#[test]
fn stream_delta_round_trip() {
    let value = object(vec![
        ("threadId", text("thr_123")),
        ("turnId", text("turn_1")),
        ("channel", text("reasoningContent")),
        ("sequence", number(42)),
        ("delta", text("Thinking...")),
    ]);
    let msg = ExternalStreamDeltaNotification::from_json(&value).unwrap();
    assert_eq!(msg.channel, ExternalStreamChannel::ReasoningContent);
    assert_eq!(msg.to_json(), value);
}

#[test]
fn missing_and_null_fields_are_read_as_none() {
    let bare = object(vec![("threadId", text("t"))]);
    let null = object(vec![("threadId", text("t")), ("queueKind", JsonValue::Null)]);
    for value in [bare, null] {
        let params = ExternalQueueInputListParams::from_json(&value).unwrap();
        assert_eq!(params.thread_id, "t");
        assert_eq!(params.queue_kind, None);
        assert_eq!(
            params.to_json(),
            object(vec![("threadId", text("t")), ("queueKind", JsonValue::Null)])
        );
    }
}

#[test]
fn required_fields_are_required() {
    assert!(ExternalQueueInputListParams::from_json(&object(vec![])).is_none());
    let null = object(vec![("threadId", JsonValue::Null)]);
    assert!(ExternalQueueInputListParams::from_json(&null).is_none());
    let wrong = object(vec![("threadId", number(1))]);
    assert!(ExternalQueueInputListParams::from_json(&wrong).is_none());
    assert!(ExternalQueueInputListParams::from_json(&text("t")).is_none());
}

#[test]
fn other_members_are_ignored() {
    let value = object(vec![
        ("queueItemId", text("q_1")),
        ("threadId", text("t")),
        ("more", number(1)),
    ]);
    let params = ExternalQueueInputDropParams::from_json(&value).unwrap();
    assert_eq!(params.thread_id, "t");
    assert_eq!(params.queue_item_id, "q_1");
}

#[test]
fn records_are_read_from_arrays_of_their_fields() {
    let value = array(vec![text("t"), text("q_1")]);
    let params = ExternalQueueInputDropParams::from_json(&value).unwrap();
    assert_eq!((params.thread_id.as_str(), params.queue_item_id.as_str()), ("t", "q_1"));
    assert!(ExternalQueueInputDropParams::from_json(&array(vec![text("t")])).is_none());
    let long = array(vec![text("t"), text("q_1"), text("x")]);
    assert!(ExternalQueueInputDropParams::from_json(&long).is_none());
}

#[test]
fn empty_records_are_objects_without_members() {
    assert_eq!(ExternalQueueInputDropResponse {}.to_json(), object(vec![]));
    assert_eq!(ExternalQueueInputClearResponse {}.to_json(), object(vec![]));
    assert_eq!(ExternalRuntimeControlSetResponse {}.to_json(), object(vec![]));
    assert!(ExternalQueueInputDropResponse::from_json(&object(vec![("a", number(1))])).is_some());
    assert!(ExternalQueueInputClearResponse::from_json(&array(vec![])).is_some());
    assert!(ExternalRuntimeControlSetResponse::from_json(&JsonValue::Null).is_none());
}

#[test]
fn enumerations_are_written_by_name() {
    let kinds = [
        (ExternalInputQueueKind::Interactive, "interactive"),
        (ExternalInputQueueKind::FollowUp, "followUp"),
        (ExternalInputQueueKind::Steer, "steer"),
    ];
    for (kind, name) in kinds {
        assert_eq!(kind.to_json(), text(name));
        assert_eq!(ExternalInputQueueKind::from_json(&text(name)), Some(kind));
    }
    let operations = [
        (ExternalQueueOperation::Enqueued, "enqueued"),
        (ExternalQueueOperation::Dequeued, "dequeued"),
        (ExternalQueueOperation::Dropped, "dropped"),
        (ExternalQueueOperation::Cleared, "cleared"),
    ];
    for (operation, name) in operations {
        assert_eq!(operation.to_json(), text(name));
        assert_eq!(ExternalQueueOperation::from_json(&text(name)), Some(operation));
    }
    let channels = [
        (ExternalStreamChannel::InputEcho, "inputEcho"),
        (ExternalStreamChannel::OutputText, "outputText"),
        (ExternalStreamChannel::ReasoningSummary, "reasoningSummary"),
        (ExternalStreamChannel::ReasoningContent, "reasoningContent"),
        (ExternalStreamChannel::ToolLifecycle, "toolLifecycle"),
        (ExternalStreamChannel::TerminalOutput, "terminalOutput"),
    ];
    for (channel, name) in channels {
        assert_eq!(channel.to_json(), text(name));
        assert_eq!(ExternalStreamChannel::from_json(&text(name)), Some(channel));
    }
    let requests = [
        (ExternalPermissionRequestKind::CommandExecution, "commandExecution"),
        (ExternalPermissionRequestKind::FileChange, "fileChange"),
        (ExternalPermissionRequestKind::Permissions, "permissions"),
        (ExternalPermissionRequestKind::McpElicitation, "mcpElicitation"),
    ];
    for (kind, name) in requests {
        assert_eq!(kind.to_json(), text(name));
        assert_eq!(ExternalPermissionRequestKind::from_json(&text(name)), Some(kind));
    }
    assert_eq!(ExternalDiffFormat::UnifiedPatch.to_json(), text("unifiedPatch"));
}

#[test]
fn enumerations_are_read_from_a_single_null_member() {
    let single = object(vec![("steer", JsonValue::Null)]);
    assert_eq!(
        ExternalInputQueueKind::from_json(&single),
        Some(ExternalInputQueueKind::Steer)
    );
    let filled = object(vec![("steer", number(1))]);
    assert_eq!(ExternalInputQueueKind::from_json(&filled), None);
    let two = object(vec![("steer", JsonValue::Null), ("followUp", JsonValue::Null)]);
    assert_eq!(ExternalInputQueueKind::from_json(&two), None);
    assert_eq!(ExternalInputQueueKind::from_json(&object(vec![])), None);
    assert_eq!(ExternalInputQueueKind::from_json(&text("Steer")), None);
    assert_eq!(ExternalInputQueueKind::from_json(&JsonValue::Null), None);
}

#[test]
fn input_items_may_leave_out_their_elements() {
    let value = object(vec![("type", text("text")), ("text", text("hi"))]);
    let item = UserInput::from_json(&value).unwrap();
    assert_eq!(item, UserInput::Text { text: "hi".to_string(), text_elements: vec![] });
    assert_eq!(item.to_json(), text_item("hi"));
    assert_eq!(item.clone(), item);
}

#[test]
fn input_items_of_another_type_are_not_read() {
    assert!(UserInput::from_json(&object(vec![("type", text("image"))])).is_none());
    assert!(UserInput::from_json(&object(vec![("text", text("hi"))])).is_none());
    assert!(UserInput::from_json(&text("hi")).is_none());
    let odd = object(vec![
        ("type", text("text")),
        ("text", text("hi")),
        ("text_elements", JsonValue::Null),
    ]);
    assert!(UserInput::from_json(&odd).is_none());
}

#[test]
fn numbers_outside_the_range_are_not_read() {
    let with = |sequence: JsonValue| {
        object(vec![
            ("threadId", text("t")),
            ("channel", text("outputText")),
            ("sequence", sequence),
            ("delta", text("")),
        ])
    };
    assert_eq!(
        ExternalStreamDeltaNotification::from_json(&with(number(u64::MAX))).unwrap().sequence,
        u64::MAX
    );
    let negative = JsonValue::Number(JsonNumber::NegInt(-1));
    assert!(ExternalStreamDeltaNotification::from_json(&with(negative)).is_none());
    let signed = JsonValue::Number(JsonNumber::NegInt(7));
    assert_eq!(
        ExternalStreamDeltaNotification::from_json(&with(signed)).unwrap().sequence,
        7
    );
    assert!(ExternalStreamDeltaNotification::from_json(&with(text("1"))).is_none());
}

#[test]
fn every_record_is_read_back() {
    let item = queued("q_9");
    assert_eq!(ExternalQueuedInput::from_json(&item.to_json()), Some(item.clone()));
    let response = ExternalQueueInputEnqueueResponse { queue_item_id: "q_9".to_string() };
    assert_eq!(
        ExternalQueueInputEnqueueResponse::from_json(&response.to_json()),
        Some(response.clone())
    );
    let list = ExternalQueueInputListResponse { items: vec![queued("q_1"), queued("q_2")] };
    assert_eq!(ExternalQueueInputListResponse::from_json(&list.to_json()), Some(list.clone()));
    let clear = ExternalQueueInputClearParams {
        thread_id: "t".to_string(),
        queue_kind: Some(ExternalInputQueueKind::FollowUp),
    };
    assert_eq!(ExternalQueueInputClearParams::from_json(&clear.to_json()), Some(clear.clone()));
    let updated = ExternalQueueUpdatedNotification {
        thread_id: "t".to_string(),
        queue_kind: ExternalInputQueueKind::Steer,
        operation: ExternalQueueOperation::Dropped,
        item: Some(item),
    };
    assert_eq!(
        ExternalQueueUpdatedNotification::from_json(&updated.to_json()),
        Some(updated.clone())
    );
    let request = ExternalPermissionRequestNotification {
        thread_id: "t".to_string(),
        turn_id: None,
        request_id: "7".to_string(),
        kind: ExternalPermissionRequestKind::McpElicitation,
        payload: array(vec![number(1), JsonValue::Bool(false)]),
    };
    assert_eq!(
        ExternalPermissionRequestNotification::from_json(&request.to_json()),
        Some(request.clone())
    );
    let resolved = ExternalPermissionResolvedNotification {
        thread_id: "t".to_string(),
        request_id: "7".to_string(),
        approved: true,
        decision: Some("accept".to_string()),
    };
    assert_eq!(
        ExternalPermissionResolvedNotification::from_json(&resolved.to_json()),
        Some(resolved.clone())
    );
    let chunk = ExternalDiffChunkNotification {
        thread_id: "t".to_string(),
        turn_id: "u".to_string(),
        format: ExternalDiffFormat::UnifiedPatch,
        chunk_index: 3,
        complete: false,
        diff: "+x\n".to_string(),
    };
    assert_eq!(ExternalDiffChunkNotification::from_json(&chunk.to_json()), Some(chunk.clone()));
}

#[test]
fn a_missing_payload_is_no_request() {
    let value = object(vec![
        ("threadId", text("t")),
        ("requestId", text("7")),
        ("kind", text("fileChange")),
    ]);
    assert!(ExternalPermissionRequestNotification::from_json(&value).is_none());
}

#[test]
fn runtime_controls_are_read_and_written() {
    let value = object(vec![
        ("threadId", text("t")),
        ("model", text("gpt-5")),
        ("personality", JsonValue::Null),
        ("reasoningEffort", text("high")),
        ("collaborationMode", object(vec![("mode", text("plan"))])),
        ("cwd", text("/work")),
    ]);
    let params = ExternalRuntimeControlSetParams::from_json(&value).unwrap();
    assert_eq!(params.thread_id, "t");
    assert_eq!(params.model.as_deref(), Some("gpt-5"));
    assert!(params.personality.is_none());
    assert_eq!(params.reasoning_effort.as_ref().unwrap().to_json(), text("high"));
    assert_eq!(params.cwd.as_deref(), Some("/work"));
    assert_eq!(params.to_json(), value);
    assert_eq!(params.clone(), params);
    let bare = ExternalRuntimeControlSetParams::from_json(&object(vec![("threadId", text("t"))]));
    assert_eq!(bare.unwrap().reasoning_effort, None);
    assert!(ExternalRuntimeControlSetParams::from_json(&object(vec![])).is_none());
}

#[test]
fn a_setting_is_never_null() {
    assert!(ControlSetting::from_json(&JsonValue::Null).is_none());
    let setting = ControlSetting::from_json(&number(3)).unwrap();
    assert_eq!(setting.to_json(), number(3));
    assert_eq!(setting.clone(), setting);
}
