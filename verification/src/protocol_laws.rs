//! What the JSON form of every message is, member by member.

use vstd::prelude::*;

use crate::json::{member, JsonNumberView, JsonValue, JsonView};
use crate::json_facts::{has_list, holds, lacks, may_read, reads};
use crate::protocol::{
    ClearParamsModel, ClearResponseModel, ControlSetting, DiffChunkModel, DropParamsModel,
    DropResponseModel, EnqueueParamsModel, EnqueueResponseModel, ExternalDiffChunkNotification,
    ExternalDiffFormat, ExternalInputQueueKind, ExternalPermissionRequestKind,
    ExternalPermissionRequestNotification, ExternalPermissionResolvedNotification,
    ExternalQueueInputClearParams, ExternalQueueInputClearResponse, ExternalQueueInputDropParams,
    ExternalQueueInputDropResponse, ExternalQueueInputEnqueueParams,
    ExternalQueueInputEnqueueResponse, ExternalQueueInputListParams, ExternalQueueInputListResponse,
    ExternalQueueOperation, ExternalQueueUpdatedNotification, ExternalQueuedInput,
    ExternalRuntimeControlSetParams, ExternalRuntimeControlSetResponse, ExternalStreamChannel,
    ExternalStreamDeltaNotification, ListParamsModel, ListResponseModel, PermissionRequestModel,
    PermissionResolvedModel, QueueUpdatedModel, QueuedInputModel, RuntimeControlSetParamsModel,
    RuntimeControlSetResponseModel, SettingModel, StreamDeltaModel, UserInput, UserInputModel,
};
use crate::wire::{lemma_single_member, Wire, WireNotNull};

verus! {

// ---------------------------------------------------------------------------
// What the forms are made of
// ---------------------------------------------------------------------------

/// Texts, truth values, numbers and JSON values are written as what they are, and
/// read from that and nothing else.
pub proof fn plain_values(text: String, truth: bool, number: u64, value: JsonValue, json: JsonView)
    ensures
        String::encode(text.model()) == JsonView::Text(text@),
        bool::encode(truth.model()) == JsonView::Bool(truth),
        u64::encode(number.model()) == JsonView::Number(JsonNumberView::Int(number as int)),
        JsonValue::encode(value.model()) == value@,
        String::decode(json) == Some(text.model()) <==> json == JsonView::Text(text@),
        String::decode(json) is None <==> json !is Text,
        bool::decode(json) == Some(truth.model()) <==> json == JsonView::Bool(truth),
        bool::decode(json) is None <==> json !is Bool,
        u64::decode(json) == Some(number.model()) <==> json == JsonView::Number(
            JsonNumberView::Int(number as int),
        ),
        u64::decode(json) is None <==> !(json matches JsonView::Number(JsonNumberView::Int(n)) && 0
            <= n <= u64::MAX),
        JsonValue::decode(json) == Some(json),
{
}

/// A list is written and read item by item, in order.
pub proof fn lists<T: Wire>(values: Vec<T>, items: Seq<JsonView>, read: Seq<T::Model>)
    ensures
        Vec::<T>::encode(values.model()) matches JsonView::Array(written) && written.len()
            == values@.len() && forall|i: int|
            0 <= i < written.len() ==> #[trigger] written[i] == T::encode(values@[i].model()),
        Vec::<T>::decode(JsonView::Array(items)) == Some(read) <==> {
            &&& read.len() == items.len()
            &&& forall|i: int|
                0 <= i < items.len() ==> T::decode(#[trigger] items[i]) == Some(read[i])
        },
{
    if read.len() == items.len() && forall|i: int|
        0 <= i < items.len() ==> T::decode(#[trigger] items[i]) == Some(read[i]) {
        assert(Seq::new(items.len(), |i: int| T::decode(items[i])->0) =~= read);
    }
}

/// What may be missing is written as it is, or as `null` where it is missing, and
/// read from that.
pub proof fn what_may_be_null<T: WireNotNull>(value: Option<T>, json: JsonView, read: T::Model)
    ensures
        Option::<T>::encode(value.model()) == (match value {
            Some(set) => T::encode(set.model()),
            None => JsonView::Null,
        }),
        Option::<T>::decode(JsonView::Null) == Some(None::<T::Model>),
        json !is Null ==> (Option::<T>::decode(json) == Some(Some(read)) <==> T::decode(json)
            == Some(read)),
        json !is Null ==> (Option::<T>::decode(json) is None <==> T::decode(json) is None),
        json !is Null ==> Option::<T>::decode(json) != Some(None::<T::Model>),
{
}

/// What is no array is no list.
pub proof fn only_arrays_are_lists<T: Wire>(json: JsonView)
    requires
        json !is Array,
    ensures
        Vec::<T>::decode(json) is None,
{
}

/// A text item is written with its type, its text and its elements, and nothing
/// else.
pub proof fn user_input_is_written(text: String, text_elements: Vec<JsonValue>)
    ensures
        ({
            let json = UserInput::encode((UserInput::Text { text, text_elements }).model());
            &&& json matches JsonView::Object(members) && members.dom()
                == Set::<Seq<char>>::empty().insert("type"@).insert("text"@).insert(
                "text_elements"@,
            )
            &&& holds(json, "type"@, JsonView::Text("text"@))
            &&& holds(json, "text"@, JsonView::Text(text@))
            &&& has_list(json, "text_elements"@, text_elements@)
        }),
{
    reveal_strlit("type");
    reveal_strlit("text");
    reveal_strlit("text_elements");
    assert("type"@[1] != "text"@[1]);
    assert("type"@.len() != "text_elements"@.len());
    assert("text"@.len() != "text_elements"@.len());
}

/// An object is read as a text item if and only if it says so, and has the text
/// and, if any, the elements.
pub proof fn user_input_is_read(json: JsonView, text: Seq<char>, text_elements: Seq<JsonView>)
    ensures
        UserInput::decode(json) == Some(UserInputModel::Text { text, text_elements }) <==> {
            &&& holds(json, "type"@, JsonView::Text("text"@))
            &&& holds(json, "text"@, JsonView::Text(text))
            &&& holds(json, "text_elements"@, JsonView::Array(text_elements)) || (lacks(
                json,
                "text_elements"@,
            ) && text_elements.len() == 0)
        },
{
    if let Some(JsonView::Array(items)) = member(json, "text_elements"@) {
        assert(Vec::<JsonValue>::decode(JsonView::Array(items))->0 =~= items);
    }
    if text_elements.len() == 0 {
        assert(text_elements =~= Seq::empty());
    }
}

/// A setting is written as it is and read from whatever is not `null`.
pub proof fn settings(json: JsonView, model: SettingModel, setting: ControlSetting)
    ensures
        ControlSetting::encode(model) == (match model {
            SettingModel::Bool(truth) => JsonView::Bool(truth),
            SettingModel::Number(number) => JsonView::Number(number),
            SettingModel::Text(text) => JsonView::Text(text),
            SettingModel::Array(items) => JsonView::Array(items),
            SettingModel::Object(members) => JsonView::Object(members),
        }),
        setting@ !is Null ==> ControlSetting::encode(setting.model()) == setting@,
        ControlSetting::decode(json) == Some(model) <==> json == ControlSetting::encode(model),
        ControlSetting::decode(json) is None <==> json is Null,
{
}

// ---------------------------------------------------------------------------
// Message by message
// ---------------------------------------------------------------------------

/// Each value is written as its own name in camel case, and read from that name
/// and no other.
pub proof fn input_queue_kind_names(name: Seq<char>)
    ensures
        ExternalInputQueueKind::encode(ExternalInputQueueKind::Interactive.model())
            == JsonView::Text("interactive"@),
        ExternalInputQueueKind::encode(ExternalInputQueueKind::FollowUp.model())
            == JsonView::Text("followUp"@),
        ExternalInputQueueKind::encode(ExternalInputQueueKind::Steer.model())
            == JsonView::Text("steer"@),
        ExternalInputQueueKind::decode(JsonView::Text("interactive"@))
            == Some(ExternalInputQueueKind::Interactive.model()),
        ExternalInputQueueKind::decode(JsonView::Text("followUp"@))
            == Some(ExternalInputQueueKind::FollowUp.model()),
        ExternalInputQueueKind::decode(JsonView::Text("steer"@))
            == Some(ExternalInputQueueKind::Steer.model()),
        ExternalInputQueueKind::decode(JsonView::Text(name)) is Some ==> {
            ||| name == "interactive"@
            ||| name == "followUp"@
            ||| name == "steer"@
        },
{
    reveal_strlit("interactive");
    reveal_strlit("followUp");
    reveal_strlit("steer");
    assert("interactive"@.len() != "followUp"@.len());
    assert("interactive"@.len() != "steer"@.len());
    assert("followUp"@.len() != "steer"@.len());
}

/// What is no text is read as the text that its only member is named, where that
/// member is `null`, and else as nothing.
pub proof fn input_queue_kind_other_forms(json: JsonView, name: Seq<char>)
    requires
        json !is Text,
    ensures
        json == JsonView::Object(Map::empty().insert(name, JsonView::Null))
            ==> ExternalInputQueueKind::decode(json)
            == ExternalInputQueueKind::decode(JsonView::Text(name)),
        (forall|other: Seq<char>|
            json != JsonView::Object(#[trigger] Map::empty().insert(other, JsonView::Null)))
            ==> ExternalInputQueueKind::decode(json) is None,
{
    if json == JsonView::Object(Map::empty().insert(name, JsonView::Null)) {
        lemma_single_member(json->Object_0, name);
    }
    if let JsonView::Object(members) = json {
        if exists|other: Seq<char>| members == Map::<Seq<char>, JsonView>::empty().insert(
            other,
            JsonView::Null,
        ) {
            let other = choose|other: Seq<char>| members
                == Map::<Seq<char>, JsonView>::empty().insert(
                other,
                JsonView::Null,
            );
            assert(json == JsonView::Object(Map::empty().insert(other, JsonView::Null)));
        }
    }
}

/// Each value is written as its own name in camel case, and read from that name
/// and no other.
pub proof fn queue_operation_names(name: Seq<char>)
    ensures
        ExternalQueueOperation::encode(ExternalQueueOperation::Enqueued.model())
            == JsonView::Text("enqueued"@),
        ExternalQueueOperation::encode(ExternalQueueOperation::Dequeued.model())
            == JsonView::Text("dequeued"@),
        ExternalQueueOperation::encode(ExternalQueueOperation::Dropped.model())
            == JsonView::Text("dropped"@),
        ExternalQueueOperation::encode(ExternalQueueOperation::Cleared.model())
            == JsonView::Text("cleared"@),
        ExternalQueueOperation::decode(JsonView::Text("enqueued"@))
            == Some(ExternalQueueOperation::Enqueued.model()),
        ExternalQueueOperation::decode(JsonView::Text("dequeued"@))
            == Some(ExternalQueueOperation::Dequeued.model()),
        ExternalQueueOperation::decode(JsonView::Text("dropped"@))
            == Some(ExternalQueueOperation::Dropped.model()),
        ExternalQueueOperation::decode(JsonView::Text("cleared"@))
            == Some(ExternalQueueOperation::Cleared.model()),
        ExternalQueueOperation::decode(JsonView::Text(name)) is Some ==> {
            ||| name == "enqueued"@
            ||| name == "dequeued"@
            ||| name == "dropped"@
            ||| name == "cleared"@
        },
{
    reveal_strlit("enqueued");
    reveal_strlit("dequeued");
    reveal_strlit("dropped");
    reveal_strlit("cleared");
    assert("enqueued"@[0] != "dequeued"@[0]);
    assert("enqueued"@.len() != "dropped"@.len());
    assert("enqueued"@.len() != "cleared"@.len());
    assert("dequeued"@.len() != "dropped"@.len());
    assert("dequeued"@.len() != "cleared"@.len());
    assert("dropped"@[0] != "cleared"@[0]);
}

/// What is no text is read as the text that its only member is named, where that
/// member is `null`, and else as nothing.
pub proof fn queue_operation_other_forms(json: JsonView, name: Seq<char>)
    requires
        json !is Text,
    ensures
        json == JsonView::Object(Map::empty().insert(name, JsonView::Null))
            ==> ExternalQueueOperation::decode(json)
            == ExternalQueueOperation::decode(JsonView::Text(name)),
        (forall|other: Seq<char>|
            json != JsonView::Object(#[trigger] Map::empty().insert(other, JsonView::Null)))
            ==> ExternalQueueOperation::decode(json) is None,
{
    if json == JsonView::Object(Map::empty().insert(name, JsonView::Null)) {
        lemma_single_member(json->Object_0, name);
    }
    if let JsonView::Object(members) = json {
        if exists|other: Seq<char>| members == Map::<Seq<char>, JsonView>::empty().insert(
            other,
            JsonView::Null,
        ) {
            let other = choose|other: Seq<char>| members
                == Map::<Seq<char>, JsonView>::empty().insert(
                other,
                JsonView::Null,
            );
            assert(json == JsonView::Object(Map::empty().insert(other, JsonView::Null)));
        }
    }
}

/// Each value is written as its own name in camel case, and read from that name
/// and no other.
pub proof fn stream_channel_names(name: Seq<char>)
    ensures
        ExternalStreamChannel::encode(ExternalStreamChannel::InputEcho.model())
            == JsonView::Text("inputEcho"@),
        ExternalStreamChannel::encode(ExternalStreamChannel::OutputText.model())
            == JsonView::Text("outputText"@),
        ExternalStreamChannel::encode(ExternalStreamChannel::ReasoningSummary.model())
            == JsonView::Text("reasoningSummary"@),
        ExternalStreamChannel::encode(ExternalStreamChannel::ReasoningContent.model())
            == JsonView::Text("reasoningContent"@),
        ExternalStreamChannel::encode(ExternalStreamChannel::ToolLifecycle.model())
            == JsonView::Text("toolLifecycle"@),
        ExternalStreamChannel::encode(ExternalStreamChannel::TerminalOutput.model())
            == JsonView::Text("terminalOutput"@),
        ExternalStreamChannel::decode(JsonView::Text("inputEcho"@))
            == Some(ExternalStreamChannel::InputEcho.model()),
        ExternalStreamChannel::decode(JsonView::Text("outputText"@))
            == Some(ExternalStreamChannel::OutputText.model()),
        ExternalStreamChannel::decode(JsonView::Text("reasoningSummary"@))
            == Some(ExternalStreamChannel::ReasoningSummary.model()),
        ExternalStreamChannel::decode(JsonView::Text("reasoningContent"@))
            == Some(ExternalStreamChannel::ReasoningContent.model()),
        ExternalStreamChannel::decode(JsonView::Text("toolLifecycle"@))
            == Some(ExternalStreamChannel::ToolLifecycle.model()),
        ExternalStreamChannel::decode(JsonView::Text("terminalOutput"@))
            == Some(ExternalStreamChannel::TerminalOutput.model()),
        ExternalStreamChannel::decode(JsonView::Text(name)) is Some ==> {
            ||| name == "inputEcho"@
            ||| name == "outputText"@
            ||| name == "reasoningSummary"@
            ||| name == "reasoningContent"@
            ||| name == "toolLifecycle"@
            ||| name == "terminalOutput"@
        },
{
    reveal_strlit("inputEcho");
    reveal_strlit("outputText");
    reveal_strlit("reasoningSummary");
    reveal_strlit("reasoningContent");
    reveal_strlit("toolLifecycle");
    reveal_strlit("terminalOutput");
    assert("inputEcho"@.len() != "outputText"@.len());
    assert("inputEcho"@.len() != "reasoningSummary"@.len());
    assert("inputEcho"@.len() != "reasoningContent"@.len());
    assert("inputEcho"@.len() != "toolLifecycle"@.len());
    assert("inputEcho"@.len() != "terminalOutput"@.len());
    assert("outputText"@.len() != "reasoningSummary"@.len());
    assert("outputText"@.len() != "reasoningContent"@.len());
    assert("outputText"@.len() != "toolLifecycle"@.len());
    assert("outputText"@.len() != "terminalOutput"@.len());
    assert("reasoningSummary"@[9] != "reasoningContent"@[9]);
    assert("reasoningSummary"@.len() != "toolLifecycle"@.len());
    assert("reasoningSummary"@.len() != "terminalOutput"@.len());
    assert("reasoningContent"@.len() != "toolLifecycle"@.len());
    assert("reasoningContent"@.len() != "terminalOutput"@.len());
    assert("toolLifecycle"@.len() != "terminalOutput"@.len());
}

/// What is no text is read as the text that its only member is named, where that
/// member is `null`, and else as nothing.
pub proof fn stream_channel_other_forms(json: JsonView, name: Seq<char>)
    requires
        json !is Text,
    ensures
        json == JsonView::Object(Map::empty().insert(name, JsonView::Null))
            ==> ExternalStreamChannel::decode(json)
            == ExternalStreamChannel::decode(JsonView::Text(name)),
        (forall|other: Seq<char>|
            json != JsonView::Object(#[trigger] Map::empty().insert(other, JsonView::Null)))
            ==> ExternalStreamChannel::decode(json) is None,
{
    if json == JsonView::Object(Map::empty().insert(name, JsonView::Null)) {
        lemma_single_member(json->Object_0, name);
    }
    if let JsonView::Object(members) = json {
        if exists|other: Seq<char>| members == Map::<Seq<char>, JsonView>::empty().insert(
            other,
            JsonView::Null,
        ) {
            let other = choose|other: Seq<char>| members
                == Map::<Seq<char>, JsonView>::empty().insert(
                other,
                JsonView::Null,
            );
            assert(json == JsonView::Object(Map::empty().insert(other, JsonView::Null)));
        }
    }
}

/// Each value is written as its own name in camel case, and read from that name
/// and no other.
pub proof fn permission_request_kind_names(name: Seq<char>)
    ensures
        ExternalPermissionRequestKind::encode(
            ExternalPermissionRequestKind::CommandExecution.model(),
        ) == JsonView::Text(
            "commandExecution"@,
        ),
        ExternalPermissionRequestKind::encode(ExternalPermissionRequestKind::FileChange.model())
            == JsonView::Text("fileChange"@),
        ExternalPermissionRequestKind::encode(ExternalPermissionRequestKind::Permissions.model())
            == JsonView::Text("permissions"@),
        ExternalPermissionRequestKind::encode(ExternalPermissionRequestKind::McpElicitation.model())
            == JsonView::Text("mcpElicitation"@),
        ExternalPermissionRequestKind::decode(JsonView::Text("commandExecution"@))
            == Some(ExternalPermissionRequestKind::CommandExecution.model()),
        ExternalPermissionRequestKind::decode(JsonView::Text("fileChange"@))
            == Some(ExternalPermissionRequestKind::FileChange.model()),
        ExternalPermissionRequestKind::decode(JsonView::Text("permissions"@))
            == Some(ExternalPermissionRequestKind::Permissions.model()),
        ExternalPermissionRequestKind::decode(JsonView::Text("mcpElicitation"@))
            == Some(ExternalPermissionRequestKind::McpElicitation.model()),
        ExternalPermissionRequestKind::decode(JsonView::Text(name)) is Some ==> {
            ||| name == "commandExecution"@
            ||| name == "fileChange"@
            ||| name == "permissions"@
            ||| name == "mcpElicitation"@
        },
{
    reveal_strlit("commandExecution");
    reveal_strlit("fileChange");
    reveal_strlit("permissions");
    reveal_strlit("mcpElicitation");
    assert("commandExecution"@.len() != "fileChange"@.len());
    assert("commandExecution"@.len() != "permissions"@.len());
    assert("commandExecution"@.len() != "mcpElicitation"@.len());
    assert("fileChange"@.len() != "permissions"@.len());
    assert("fileChange"@.len() != "mcpElicitation"@.len());
    assert("permissions"@.len() != "mcpElicitation"@.len());
}

/// What is no text is read as the text that its only member is named, where that
/// member is `null`, and else as nothing.
pub proof fn permission_request_kind_other_forms(json: JsonView, name: Seq<char>)
    requires
        json !is Text,
    ensures
        json == JsonView::Object(Map::empty().insert(name, JsonView::Null))
            ==> ExternalPermissionRequestKind::decode(json)
            == ExternalPermissionRequestKind::decode(JsonView::Text(name)),
        (forall|other: Seq<char>|
            json != JsonView::Object(#[trigger] Map::empty().insert(other, JsonView::Null)))
            ==> ExternalPermissionRequestKind::decode(json) is None,
{
    if json == JsonView::Object(Map::empty().insert(name, JsonView::Null)) {
        lemma_single_member(json->Object_0, name);
    }
    if let JsonView::Object(members) = json {
        if exists|other: Seq<char>| members == Map::<Seq<char>, JsonView>::empty().insert(
            other,
            JsonView::Null,
        ) {
            let other = choose|other: Seq<char>| members
                == Map::<Seq<char>, JsonView>::empty().insert(
                other,
                JsonView::Null,
            );
            assert(json == JsonView::Object(Map::empty().insert(other, JsonView::Null)));
        }
    }
}

/// Each value is written as its own name in camel case, and read from that name
/// and no other.
pub proof fn diff_format_names(name: Seq<char>)
    ensures
        ExternalDiffFormat::encode(ExternalDiffFormat::UnifiedPatch.model())
            == JsonView::Text("unifiedPatch"@),
        ExternalDiffFormat::decode(JsonView::Text("unifiedPatch"@))
            == Some(ExternalDiffFormat::UnifiedPatch.model()),
        ExternalDiffFormat::decode(JsonView::Text(name)) is Some ==> {
            ||| name == "unifiedPatch"@
        },
{
    reveal_strlit("unifiedPatch");
}

/// What is no text is read as the text that its only member is named, where that
/// member is `null`, and else as nothing.
pub proof fn diff_format_other_forms(json: JsonView, name: Seq<char>)
    requires
        json !is Text,
    ensures
        json == JsonView::Object(Map::empty().insert(name, JsonView::Null))
            ==> ExternalDiffFormat::decode(json)
            == ExternalDiffFormat::decode(JsonView::Text(name)),
        (forall|other: Seq<char>|
            json != JsonView::Object(#[trigger] Map::empty().insert(other, JsonView::Null)))
            ==> ExternalDiffFormat::decode(json) is None,
{
    if json == JsonView::Object(Map::empty().insert(name, JsonView::Null)) {
        lemma_single_member(json->Object_0, name);
    }
    if let JsonView::Object(members) = json {
        if exists|other: Seq<char>| members == Map::<Seq<char>, JsonView>::empty().insert(
            other,
            JsonView::Null,
        ) {
            let other = choose|other: Seq<char>| members
                == Map::<Seq<char>, JsonView>::empty().insert(
                other,
                JsonView::Null,
            );
            assert(json == JsonView::Object(Map::empty().insert(other, JsonView::Null)));
        }
    }
}

/// Each field is written under its own name in camel case, and nothing else is.
pub proof fn queued_input_is_written(value: ExternalQueuedInput)
    ensures
        ExternalQueuedInput::encode(value.model()) matches JsonView::Object(members)
            && members.dom()
            == Set::<Seq<char>>::empty()
                .insert("queueItemId"@).insert("threadId"@).insert("queueKind"@).insert("input"@)
                .insert("expectedTurnId"@).insert("clientMessageId"@),
        holds(
            ExternalQueuedInput::encode(value.model()),
            "queueItemId"@,
            JsonView::Text(value.queue_item_id@),
        ),
        holds(
            ExternalQueuedInput::encode(value.model()),
            "threadId"@,
            JsonView::Text(value.thread_id@),
        ),
        holds(
            ExternalQueuedInput::encode(value.model()),
            "queueKind"@,
            ExternalInputQueueKind::encode(value.queue_kind.model()),
        ),
        has_list(ExternalQueuedInput::encode(value.model()), "input"@, value.input@),
        holds(
            ExternalQueuedInput::encode(value.model()),
            "expectedTurnId"@,
            match value.expected_turn_id {
                Some(set) => JsonView::Text(set@),
                None => JsonView::Null,
            },
        ),
        holds(
            ExternalQueuedInput::encode(value.model()),
            "clientMessageId"@,
            match value.client_message_id {
                Some(set) => JsonView::Text(set@),
                None => JsonView::Null,
            },
        ),
{
    reveal_strlit("queueItemId");
    reveal_strlit("threadId");
    reveal_strlit("queueKind");
    reveal_strlit("input");
    reveal_strlit("expectedTurnId");
    reveal_strlit("clientMessageId");
    assert("queueItemId"@.len() != "threadId"@.len());
    assert("queueItemId"@.len() != "queueKind"@.len());
    assert("queueItemId"@.len() != "input"@.len());
    assert("queueItemId"@.len() != "expectedTurnId"@.len());
    assert("queueItemId"@.len() != "clientMessageId"@.len());
    assert("threadId"@.len() != "queueKind"@.len());
    assert("threadId"@.len() != "input"@.len());
    assert("threadId"@.len() != "expectedTurnId"@.len());
    assert("threadId"@.len() != "clientMessageId"@.len());
    assert("queueKind"@.len() != "input"@.len());
    assert("queueKind"@.len() != "expectedTurnId"@.len());
    assert("queueKind"@.len() != "clientMessageId"@.len());
    assert("input"@.len() != "expectedTurnId"@.len());
    assert("input"@.len() != "clientMessageId"@.len());
    assert("expectedTurnId"@.len() != "clientMessageId"@.len());
}

/// An object is read as the record whose fields its members are, each by its own
/// name; a field that may be missing is missing where it is `null` or not there.
pub proof fn queued_input_is_read(json: JsonView, model: QueuedInputModel)
    requires
        json is Object,
    ensures
        ExternalQueuedInput::decode(json) == Some(model) <==> {
            &&& reads::<String>(json, "queueItemId"@, model.queue_item_id)
            &&& reads::<String>(json, "threadId"@, model.thread_id)
            &&& reads::<ExternalInputQueueKind>(json, "queueKind"@, model.queue_kind)
            &&& reads::<Vec<UserInput>>(json, "input"@, model.input)
            &&& may_read::<String>(json, "expectedTurnId"@, model.expected_turn_id)
            &&& may_read::<String>(json, "clientMessageId"@, model.client_message_id)
        },
{
}

/// The list of its fields in their order is read as the object is, and nothing
/// but an object or such a list is read.
pub proof fn queued_input_other_forms(items: Seq<JsonView>, other: JsonView)
    requires
        other !is Object && other !is Array,
    ensures
        items.len() == 6
            ==> ExternalQueuedInput::decode(JsonView::Array(items)) == ExternalQueuedInput::decode(
            JsonView::Object(
                Map::empty()
                    .insert("queueItemId"@, items[0])
                    .insert("threadId"@, items[1])
                    .insert("queueKind"@, items[2])
                    .insert("input"@, items[3])
                    .insert("expectedTurnId"@, items[4])
                    .insert("clientMessageId"@, items[5]),
            ),
        ),
        items.len() != 6 ==> ExternalQueuedInput::decode(JsonView::Array(items)) is None,
        ExternalQueuedInput::decode(other) is None,
{
    reveal_strlit("queueItemId");
    reveal_strlit("threadId");
    reveal_strlit("queueKind");
    reveal_strlit("input");
    reveal_strlit("expectedTurnId");
    reveal_strlit("clientMessageId");
    assert("queueItemId"@.len() != "threadId"@.len());
    assert("queueItemId"@.len() != "queueKind"@.len());
    assert("queueItemId"@.len() != "input"@.len());
    assert("queueItemId"@.len() != "expectedTurnId"@.len());
    assert("queueItemId"@.len() != "clientMessageId"@.len());
    assert("threadId"@.len() != "queueKind"@.len());
    assert("threadId"@.len() != "input"@.len());
    assert("threadId"@.len() != "expectedTurnId"@.len());
    assert("threadId"@.len() != "clientMessageId"@.len());
    assert("queueKind"@.len() != "input"@.len());
    assert("queueKind"@.len() != "expectedTurnId"@.len());
    assert("queueKind"@.len() != "clientMessageId"@.len());
    assert("input"@.len() != "expectedTurnId"@.len());
    assert("input"@.len() != "clientMessageId"@.len());
    assert("expectedTurnId"@.len() != "clientMessageId"@.len());
}

/// The fields are what they hold.
pub proof fn queued_input_is_its_fields(value: ExternalQueuedInput)
    ensures
        value.model().queue_item_id == value.queue_item_id@,
        value.model().thread_id == value.thread_id@,
        value.model().queue_kind == value.queue_kind.model(),
        value.model().input.len() == value.input@.len(),
        forall|i: int|
            0 <= i < value.input@.len()
                ==> #[trigger] value.model().input[i] == value.input@[i].model(),
        value.model().expected_turn_id == (match value.expected_turn_id {
            Some(set) => Some(set@),
            None => None,
        }),
        value.model().client_message_id == (match value.client_message_id {
            Some(set) => Some(set@),
            None => None,
        }),
{
}

/// Each field is written under its own name in camel case, and nothing else is.
pub proof fn queue_input_enqueue_params_is_written(value: ExternalQueueInputEnqueueParams)
    ensures
        ExternalQueueInputEnqueueParams::encode(value.model()) matches JsonView::Object(members)
            && members.dom()
            == Set::<Seq<char>>::empty()
                .insert("threadId"@).insert("queueKind"@).insert("input"@)
                .insert("expectedTurnId"@).insert("clientMessageId"@),
        holds(
            ExternalQueueInputEnqueueParams::encode(value.model()),
            "threadId"@,
            JsonView::Text(value.thread_id@),
        ),
        holds(
            ExternalQueueInputEnqueueParams::encode(value.model()),
            "queueKind"@,
            ExternalInputQueueKind::encode(value.queue_kind.model()),
        ),
        has_list(ExternalQueueInputEnqueueParams::encode(value.model()), "input"@, value.input@),
        holds(
            ExternalQueueInputEnqueueParams::encode(value.model()),
            "expectedTurnId"@,
            match value.expected_turn_id {
                Some(set) => JsonView::Text(set@),
                None => JsonView::Null,
            },
        ),
        holds(
            ExternalQueueInputEnqueueParams::encode(value.model()),
            "clientMessageId"@,
            match value.client_message_id {
                Some(set) => JsonView::Text(set@),
                None => JsonView::Null,
            },
        ),
{
    reveal_strlit("threadId");
    reveal_strlit("queueKind");
    reveal_strlit("input");
    reveal_strlit("expectedTurnId");
    reveal_strlit("clientMessageId");
    assert("threadId"@.len() != "queueKind"@.len());
    assert("threadId"@.len() != "input"@.len());
    assert("threadId"@.len() != "expectedTurnId"@.len());
    assert("threadId"@.len() != "clientMessageId"@.len());
    assert("queueKind"@.len() != "input"@.len());
    assert("queueKind"@.len() != "expectedTurnId"@.len());
    assert("queueKind"@.len() != "clientMessageId"@.len());
    assert("input"@.len() != "expectedTurnId"@.len());
    assert("input"@.len() != "clientMessageId"@.len());
    assert("expectedTurnId"@.len() != "clientMessageId"@.len());
}

/// An object is read as the record whose fields its members are, each by its own
/// name; a field that may be missing is missing where it is `null` or not there.
pub proof fn queue_input_enqueue_params_is_read(json: JsonView, model: EnqueueParamsModel)
    requires
        json is Object,
    ensures
        ExternalQueueInputEnqueueParams::decode(json) == Some(model) <==> {
            &&& reads::<String>(json, "threadId"@, model.thread_id)
            &&& reads::<ExternalInputQueueKind>(json, "queueKind"@, model.queue_kind)
            &&& reads::<Vec<UserInput>>(json, "input"@, model.input)
            &&& may_read::<String>(json, "expectedTurnId"@, model.expected_turn_id)
            &&& may_read::<String>(json, "clientMessageId"@, model.client_message_id)
        },
{
}

/// The list of its fields in their order is read as the object is, and nothing
/// but an object or such a list is read.
pub proof fn queue_input_enqueue_params_other_forms(items: Seq<JsonView>, other: JsonView)
    requires
        other !is Object && other !is Array,
    ensures
        items.len() == 5
            ==> ExternalQueueInputEnqueueParams::decode(JsonView::Array(items))
                == ExternalQueueInputEnqueueParams::decode(
            JsonView::Object(
                Map::empty()
                    .insert("threadId"@, items[0])
                    .insert("queueKind"@, items[1])
                    .insert("input"@, items[2])
                    .insert("expectedTurnId"@, items[3])
                    .insert("clientMessageId"@, items[4]),
            ),
        ),
        items.len() != 5
            ==> ExternalQueueInputEnqueueParams::decode(JsonView::Array(items)) is None,
        ExternalQueueInputEnqueueParams::decode(other) is None,
{
    reveal_strlit("threadId");
    reveal_strlit("queueKind");
    reveal_strlit("input");
    reveal_strlit("expectedTurnId");
    reveal_strlit("clientMessageId");
    assert("threadId"@.len() != "queueKind"@.len());
    assert("threadId"@.len() != "input"@.len());
    assert("threadId"@.len() != "expectedTurnId"@.len());
    assert("threadId"@.len() != "clientMessageId"@.len());
    assert("queueKind"@.len() != "input"@.len());
    assert("queueKind"@.len() != "expectedTurnId"@.len());
    assert("queueKind"@.len() != "clientMessageId"@.len());
    assert("input"@.len() != "expectedTurnId"@.len());
    assert("input"@.len() != "clientMessageId"@.len());
    assert("expectedTurnId"@.len() != "clientMessageId"@.len());
}

/// The fields are what they hold.
pub proof fn queue_input_enqueue_params_is_its_fields(value: ExternalQueueInputEnqueueParams)
    ensures
        value.model().thread_id == value.thread_id@,
        value.model().queue_kind == value.queue_kind.model(),
        value.model().input.len() == value.input@.len(),
        forall|i: int|
            0 <= i < value.input@.len()
                ==> #[trigger] value.model().input[i] == value.input@[i].model(),
        value.model().expected_turn_id == (match value.expected_turn_id {
            Some(set) => Some(set@),
            None => None,
        }),
        value.model().client_message_id == (match value.client_message_id {
            Some(set) => Some(set@),
            None => None,
        }),
{
}

/// Each field is written under its own name in camel case, and nothing else is.
pub proof fn queue_input_enqueue_response_is_written(value: ExternalQueueInputEnqueueResponse)
    ensures
        ExternalQueueInputEnqueueResponse::encode(value.model()) matches JsonView::Object(members)
            && members.dom()
            == Set::<Seq<char>>::empty().insert("queueItemId"@),
        holds(
            ExternalQueueInputEnqueueResponse::encode(value.model()),
            "queueItemId"@,
            JsonView::Text(value.queue_item_id@),
        ),
{
    reveal_strlit("queueItemId");
}

/// An object is read as the record whose fields its members are, each by its own
/// name; a field that may be missing is missing where it is `null` or not there.
pub proof fn queue_input_enqueue_response_is_read(json: JsonView, model: EnqueueResponseModel)
    requires
        json is Object,
    ensures
        ExternalQueueInputEnqueueResponse::decode(json) == Some(model) <==> {
            &&& reads::<String>(json, "queueItemId"@, model.queue_item_id)
        },
{
}

/// The list of its fields in their order is read as the object is, and nothing
/// but an object or such a list is read.
pub proof fn queue_input_enqueue_response_other_forms(items: Seq<JsonView>, other: JsonView)
    requires
        other !is Object && other !is Array,
    ensures
        items.len() == 1
            ==> ExternalQueueInputEnqueueResponse::decode(JsonView::Array(items))
                == ExternalQueueInputEnqueueResponse::decode(
            JsonView::Object(
                Map::empty()
                    .insert("queueItemId"@, items[0]),
            ),
        ),
        items.len() != 1
            ==> ExternalQueueInputEnqueueResponse::decode(JsonView::Array(items)) is None,
        ExternalQueueInputEnqueueResponse::decode(other) is None,
{
    reveal_strlit("queueItemId");
}

/// The fields are what they hold.
pub proof fn queue_input_enqueue_response_is_its_fields(value: ExternalQueueInputEnqueueResponse)
    ensures
        value.model().queue_item_id == value.queue_item_id@,
{
}

/// Each field is written under its own name in camel case, and nothing else is.
pub proof fn queue_input_list_params_is_written(value: ExternalQueueInputListParams)
    ensures
        ExternalQueueInputListParams::encode(value.model()) matches JsonView::Object(members)
            && members.dom()
            == Set::<Seq<char>>::empty().insert("threadId"@).insert("queueKind"@),
        holds(
            ExternalQueueInputListParams::encode(value.model()),
            "threadId"@,
            JsonView::Text(value.thread_id@),
        ),
        holds(
            ExternalQueueInputListParams::encode(value.model()),
            "queueKind"@,
            match value.queue_kind {
                Some(set) => ExternalInputQueueKind::encode(set.model()),
                None => JsonView::Null,
            },
        ),
{
    reveal_strlit("threadId");
    reveal_strlit("queueKind");
    assert("threadId"@.len() != "queueKind"@.len());
}

/// An object is read as the record whose fields its members are, each by its own
/// name; a field that may be missing is missing where it is `null` or not there.
pub proof fn queue_input_list_params_is_read(json: JsonView, model: ListParamsModel)
    requires
        json is Object,
    ensures
        ExternalQueueInputListParams::decode(json) == Some(model) <==> {
            &&& reads::<String>(json, "threadId"@, model.thread_id)
            &&& may_read::<ExternalInputQueueKind>(json, "queueKind"@, model.queue_kind)
        },
{
}

/// The list of its fields in their order is read as the object is, and nothing
/// but an object or such a list is read.
pub proof fn queue_input_list_params_other_forms(items: Seq<JsonView>, other: JsonView)
    requires
        other !is Object && other !is Array,
    ensures
        items.len() == 2
            ==> ExternalQueueInputListParams::decode(JsonView::Array(items))
                == ExternalQueueInputListParams::decode(
            JsonView::Object(
                Map::empty()
                    .insert("threadId"@, items[0])
                    .insert("queueKind"@, items[1]),
            ),
        ),
        items.len() != 2 ==> ExternalQueueInputListParams::decode(JsonView::Array(items)) is None,
        ExternalQueueInputListParams::decode(other) is None,
{
    reveal_strlit("threadId");
    reveal_strlit("queueKind");
    assert("threadId"@.len() != "queueKind"@.len());
}

/// The fields are what they hold.
pub proof fn queue_input_list_params_is_its_fields(value: ExternalQueueInputListParams)
    ensures
        value.model().thread_id == value.thread_id@,
        value.model().queue_kind == (match value.queue_kind {
            Some(set) => Some(set.model()),
            None => None,
        }),
{
}

/// Each field is written under its own name in camel case, and nothing else is.
pub proof fn queue_input_list_response_is_written(value: ExternalQueueInputListResponse)
    ensures
        ExternalQueueInputListResponse::encode(value.model()) matches JsonView::Object(members)
            && members.dom()
            == Set::<Seq<char>>::empty().insert("items"@),
        has_list(ExternalQueueInputListResponse::encode(value.model()), "items"@, value.items@),
{
    reveal_strlit("items");
}

/// An object is read as the record whose fields its members are, each by its own
/// name; a field that may be missing is missing where it is `null` or not there.
pub proof fn queue_input_list_response_is_read(json: JsonView, model: ListResponseModel)
    requires
        json is Object,
    ensures
        ExternalQueueInputListResponse::decode(json) == Some(model) <==> {
            &&& reads::<Vec<ExternalQueuedInput>>(json, "items"@, model.items)
        },
{
}

/// The list of its fields in their order is read as the object is, and nothing
/// but an object or such a list is read.
pub proof fn queue_input_list_response_other_forms(items: Seq<JsonView>, other: JsonView)
    requires
        other !is Object && other !is Array,
    ensures
        items.len() == 1
            ==> ExternalQueueInputListResponse::decode(JsonView::Array(items))
                == ExternalQueueInputListResponse::decode(
            JsonView::Object(
                Map::empty()
                    .insert("items"@, items[0]),
            ),
        ),
        items.len() != 1 ==> ExternalQueueInputListResponse::decode(JsonView::Array(items)) is None,
        ExternalQueueInputListResponse::decode(other) is None,
{
    reveal_strlit("items");
}

/// The fields are what they hold.
pub proof fn queue_input_list_response_is_its_fields(value: ExternalQueueInputListResponse)
    ensures
        value.model().items.len() == value.items@.len(),
        forall|i: int|
            0 <= i < value.items@.len()
                ==> #[trigger] value.model().items[i] == value.items@[i].model(),
{
}

/// Each field is written under its own name in camel case, and nothing else is.
pub proof fn queue_input_drop_params_is_written(value: ExternalQueueInputDropParams)
    ensures
        ExternalQueueInputDropParams::encode(value.model()) matches JsonView::Object(members)
            && members.dom()
            == Set::<Seq<char>>::empty().insert("threadId"@).insert("queueItemId"@),
        holds(
            ExternalQueueInputDropParams::encode(value.model()),
            "threadId"@,
            JsonView::Text(value.thread_id@),
        ),
        holds(
            ExternalQueueInputDropParams::encode(value.model()),
            "queueItemId"@,
            JsonView::Text(value.queue_item_id@),
        ),
{
    reveal_strlit("threadId");
    reveal_strlit("queueItemId");
    assert("threadId"@.len() != "queueItemId"@.len());
}

/// An object is read as the record whose fields its members are, each by its own
/// name; a field that may be missing is missing where it is `null` or not there.
pub proof fn queue_input_drop_params_is_read(json: JsonView, model: DropParamsModel)
    requires
        json is Object,
    ensures
        ExternalQueueInputDropParams::decode(json) == Some(model) <==> {
            &&& reads::<String>(json, "threadId"@, model.thread_id)
            &&& reads::<String>(json, "queueItemId"@, model.queue_item_id)
        },
{
}

/// The list of its fields in their order is read as the object is, and nothing
/// but an object or such a list is read.
pub proof fn queue_input_drop_params_other_forms(items: Seq<JsonView>, other: JsonView)
    requires
        other !is Object && other !is Array,
    ensures
        items.len() == 2
            ==> ExternalQueueInputDropParams::decode(JsonView::Array(items))
                == ExternalQueueInputDropParams::decode(
            JsonView::Object(
                Map::empty()
                    .insert("threadId"@, items[0])
                    .insert("queueItemId"@, items[1]),
            ),
        ),
        items.len() != 2 ==> ExternalQueueInputDropParams::decode(JsonView::Array(items)) is None,
        ExternalQueueInputDropParams::decode(other) is None,
{
    reveal_strlit("threadId");
    reveal_strlit("queueItemId");
    assert("threadId"@.len() != "queueItemId"@.len());
}

/// The fields are what they hold.
pub proof fn queue_input_drop_params_is_its_fields(value: ExternalQueueInputDropParams)
    ensures
        value.model().thread_id == value.thread_id@,
        value.model().queue_item_id == value.queue_item_id@,
{
}

/// Each field is written under its own name in camel case, and nothing else is.
pub proof fn queue_input_drop_response_is_written(value: ExternalQueueInputDropResponse)
    ensures
        ExternalQueueInputDropResponse::encode(value.model()) matches JsonView::Object(members)
            && members.dom()
            == Set::<Seq<char>>::empty(),
{
    assert(
        ExternalQueueInputDropResponse::encode(value.model())->Object_0.dom()
            =~= Set::<Seq<char>>::empty()
    );
}

/// Any object is read.
pub proof fn queue_input_drop_response_is_read(json: JsonView, model: DropResponseModel)
    requires
        json is Object,
    ensures
        ExternalQueueInputDropResponse::decode(json) == Some(model) <==> {
            true
        },
{
}

/// The list of its fields in their order is read as the object is, and nothing
/// but an object or such a list is read.
pub proof fn queue_input_drop_response_other_forms(items: Seq<JsonView>, other: JsonView)
    requires
        other !is Object && other !is Array,
    ensures
        items.len() == 0
            ==> ExternalQueueInputDropResponse::decode(JsonView::Array(items))
                == ExternalQueueInputDropResponse::decode(
            JsonView::Object(
                Map::empty(),
            ),
        ),
        items.len() != 0 ==> ExternalQueueInputDropResponse::decode(JsonView::Array(items)) is None,
        ExternalQueueInputDropResponse::decode(other) is None,
{
}

/// Each field is written under its own name in camel case, and nothing else is.
pub proof fn queue_input_clear_params_is_written(value: ExternalQueueInputClearParams)
    ensures
        ExternalQueueInputClearParams::encode(value.model()) matches JsonView::Object(members)
            && members.dom()
            == Set::<Seq<char>>::empty().insert("threadId"@).insert("queueKind"@),
        holds(
            ExternalQueueInputClearParams::encode(value.model()),
            "threadId"@,
            JsonView::Text(value.thread_id@),
        ),
        holds(
            ExternalQueueInputClearParams::encode(value.model()),
            "queueKind"@,
            match value.queue_kind {
                Some(set) => ExternalInputQueueKind::encode(set.model()),
                None => JsonView::Null,
            },
        ),
{
    reveal_strlit("threadId");
    reveal_strlit("queueKind");
    assert("threadId"@.len() != "queueKind"@.len());
}

/// An object is read as the record whose fields its members are, each by its own
/// name; a field that may be missing is missing where it is `null` or not there.
pub proof fn queue_input_clear_params_is_read(json: JsonView, model: ClearParamsModel)
    requires
        json is Object,
    ensures
        ExternalQueueInputClearParams::decode(json) == Some(model) <==> {
            &&& reads::<String>(json, "threadId"@, model.thread_id)
            &&& may_read::<ExternalInputQueueKind>(json, "queueKind"@, model.queue_kind)
        },
{
}

/// The list of its fields in their order is read as the object is, and nothing
/// but an object or such a list is read.
pub proof fn queue_input_clear_params_other_forms(items: Seq<JsonView>, other: JsonView)
    requires
        other !is Object && other !is Array,
    ensures
        items.len() == 2
            ==> ExternalQueueInputClearParams::decode(JsonView::Array(items))
                == ExternalQueueInputClearParams::decode(
            JsonView::Object(
                Map::empty()
                    .insert("threadId"@, items[0])
                    .insert("queueKind"@, items[1]),
            ),
        ),
        items.len() != 2 ==> ExternalQueueInputClearParams::decode(JsonView::Array(items)) is None,
        ExternalQueueInputClearParams::decode(other) is None,
{
    reveal_strlit("threadId");
    reveal_strlit("queueKind");
    assert("threadId"@.len() != "queueKind"@.len());
}

/// The fields are what they hold.
pub proof fn queue_input_clear_params_is_its_fields(value: ExternalQueueInputClearParams)
    ensures
        value.model().thread_id == value.thread_id@,
        value.model().queue_kind == (match value.queue_kind {
            Some(set) => Some(set.model()),
            None => None,
        }),
{
}

/// Each field is written under its own name in camel case, and nothing else is.
pub proof fn queue_input_clear_response_is_written(value: ExternalQueueInputClearResponse)
    ensures
        ExternalQueueInputClearResponse::encode(value.model()) matches JsonView::Object(members)
            && members.dom()
            == Set::<Seq<char>>::empty(),
{
    assert(
        ExternalQueueInputClearResponse::encode(value.model())->Object_0.dom()
            =~= Set::<Seq<char>>::empty()
    );
}

/// Any object is read.
pub proof fn queue_input_clear_response_is_read(json: JsonView, model: ClearResponseModel)
    requires
        json is Object,
    ensures
        ExternalQueueInputClearResponse::decode(json) == Some(model) <==> {
            true
        },
{
}

/// The list of its fields in their order is read as the object is, and nothing
/// but an object or such a list is read.
pub proof fn queue_input_clear_response_other_forms(items: Seq<JsonView>, other: JsonView)
    requires
        other !is Object && other !is Array,
    ensures
        items.len() == 0
            ==> ExternalQueueInputClearResponse::decode(JsonView::Array(items))
                == ExternalQueueInputClearResponse::decode(
            JsonView::Object(
                Map::empty(),
            ),
        ),
        items.len() != 0
            ==> ExternalQueueInputClearResponse::decode(JsonView::Array(items)) is None,
        ExternalQueueInputClearResponse::decode(other) is None,
{
}

/// Each field is written under its own name in camel case, and nothing else is.
pub proof fn runtime_control_set_params_is_written(value: ExternalRuntimeControlSetParams)
    ensures
        ExternalRuntimeControlSetParams::encode(value.model()) matches JsonView::Object(members)
            && members.dom()
            == Set::<Seq<char>>::empty()
                .insert("threadId"@).insert("model"@).insert("personality"@)
                .insert("reasoningEffort"@).insert("collaborationMode"@).insert("cwd"@),
        holds(
            ExternalRuntimeControlSetParams::encode(value.model()),
            "threadId"@,
            JsonView::Text(value.thread_id@),
        ),
        holds(
            ExternalRuntimeControlSetParams::encode(value.model()),
            "model"@,
            match value.model {
                Some(set) => JsonView::Text(set@),
                None => JsonView::Null,
            },
        ),
        holds(
            ExternalRuntimeControlSetParams::encode(value.model()),
            "personality"@,
            match value.personality {
                Some(set) => ControlSetting::encode(set.model()),
                None => JsonView::Null,
            },
        ),
        holds(
            ExternalRuntimeControlSetParams::encode(value.model()),
            "reasoningEffort"@,
            match value.reasoning_effort {
                Some(set) => ControlSetting::encode(set.model()),
                None => JsonView::Null,
            },
        ),
        holds(
            ExternalRuntimeControlSetParams::encode(value.model()),
            "collaborationMode"@,
            match value.collaboration_mode {
                Some(set) => ControlSetting::encode(set.model()),
                None => JsonView::Null,
            },
        ),
        holds(
            ExternalRuntimeControlSetParams::encode(value.model()),
            "cwd"@,
            match value.cwd {
                Some(set) => JsonView::Text(set@),
                None => JsonView::Null,
            },
        ),
{
    reveal_strlit("threadId");
    reveal_strlit("model");
    reveal_strlit("personality");
    reveal_strlit("reasoningEffort");
    reveal_strlit("collaborationMode");
    reveal_strlit("cwd");
    assert("threadId"@.len() != "model"@.len());
    assert("threadId"@.len() != "personality"@.len());
    assert("threadId"@.len() != "reasoningEffort"@.len());
    assert("threadId"@.len() != "collaborationMode"@.len());
    assert("threadId"@.len() != "cwd"@.len());
    assert("model"@.len() != "personality"@.len());
    assert("model"@.len() != "reasoningEffort"@.len());
    assert("model"@.len() != "collaborationMode"@.len());
    assert("model"@.len() != "cwd"@.len());
    assert("personality"@.len() != "reasoningEffort"@.len());
    assert("personality"@.len() != "collaborationMode"@.len());
    assert("personality"@.len() != "cwd"@.len());
    assert("reasoningEffort"@.len() != "collaborationMode"@.len());
    assert("reasoningEffort"@.len() != "cwd"@.len());
    assert("collaborationMode"@.len() != "cwd"@.len());
}

/// An object is read as the record whose fields its members are, each by its own
/// name; a field that may be missing is missing where it is `null` or not there.
pub proof fn runtime_control_set_params_is_read(json: JsonView, model: RuntimeControlSetParamsModel)
    requires
        json is Object,
    ensures
        ExternalRuntimeControlSetParams::decode(json) == Some(model) <==> {
            &&& reads::<String>(json, "threadId"@, model.thread_id)
            &&& may_read::<String>(json, "model"@, model.model)
            &&& may_read::<ControlSetting>(json, "personality"@, model.personality)
            &&& may_read::<ControlSetting>(json, "reasoningEffort"@, model.reasoning_effort)
            &&& may_read::<ControlSetting>(json, "collaborationMode"@, model.collaboration_mode)
            &&& may_read::<String>(json, "cwd"@, model.cwd)
        },
{
}

/// The list of its fields in their order is read as the object is, and nothing
/// but an object or such a list is read.
pub proof fn runtime_control_set_params_other_forms(items: Seq<JsonView>, other: JsonView)
    requires
        other !is Object && other !is Array,
    ensures
        items.len() == 6
            ==> ExternalRuntimeControlSetParams::decode(JsonView::Array(items))
                == ExternalRuntimeControlSetParams::decode(
            JsonView::Object(
                Map::empty()
                    .insert("threadId"@, items[0])
                    .insert("model"@, items[1])
                    .insert("personality"@, items[2])
                    .insert("reasoningEffort"@, items[3])
                    .insert("collaborationMode"@, items[4])
                    .insert("cwd"@, items[5]),
            ),
        ),
        items.len() != 6
            ==> ExternalRuntimeControlSetParams::decode(JsonView::Array(items)) is None,
        ExternalRuntimeControlSetParams::decode(other) is None,
{
    reveal_strlit("threadId");
    reveal_strlit("model");
    reveal_strlit("personality");
    reveal_strlit("reasoningEffort");
    reveal_strlit("collaborationMode");
    reveal_strlit("cwd");
    assert("threadId"@.len() != "model"@.len());
    assert("threadId"@.len() != "personality"@.len());
    assert("threadId"@.len() != "reasoningEffort"@.len());
    assert("threadId"@.len() != "collaborationMode"@.len());
    assert("threadId"@.len() != "cwd"@.len());
    assert("model"@.len() != "personality"@.len());
    assert("model"@.len() != "reasoningEffort"@.len());
    assert("model"@.len() != "collaborationMode"@.len());
    assert("model"@.len() != "cwd"@.len());
    assert("personality"@.len() != "reasoningEffort"@.len());
    assert("personality"@.len() != "collaborationMode"@.len());
    assert("personality"@.len() != "cwd"@.len());
    assert("reasoningEffort"@.len() != "collaborationMode"@.len());
    assert("reasoningEffort"@.len() != "cwd"@.len());
    assert("collaborationMode"@.len() != "cwd"@.len());
}

/// The fields are what they hold.
pub proof fn runtime_control_set_params_is_its_fields(value: ExternalRuntimeControlSetParams)
    ensures
        value.model().thread_id == value.thread_id@,
        value.model().model == (match value.model {
            Some(set) => Some(set@),
            None => None,
        }),
        value.model().personality == (match value.personality {
            Some(set) => Some(set.model()),
            None => None,
        }),
        value.model().reasoning_effort == (match value.reasoning_effort {
            Some(set) => Some(set.model()),
            None => None,
        }),
        value.model().collaboration_mode == (match value.collaboration_mode {
            Some(set) => Some(set.model()),
            None => None,
        }),
        value.model().cwd == (match value.cwd {
            Some(set) => Some(set@),
            None => None,
        }),
{
}

/// Each field is written under its own name in camel case, and nothing else is.
pub proof fn runtime_control_set_response_is_written(value: ExternalRuntimeControlSetResponse)
    ensures
        ExternalRuntimeControlSetResponse::encode(value.model()) matches JsonView::Object(members)
            && members.dom()
            == Set::<Seq<char>>::empty(),
{
    assert(
        ExternalRuntimeControlSetResponse::encode(value.model())->Object_0.dom()
            =~= Set::<Seq<char>>::empty()
    );
}

/// Any object is read.
pub proof fn runtime_control_set_response_is_read(
    json: JsonView,
    model: RuntimeControlSetResponseModel,
)
    requires
        json is Object,
    ensures
        ExternalRuntimeControlSetResponse::decode(json) == Some(model) <==> {
            true
        },
{
}

/// The list of its fields in their order is read as the object is, and nothing
/// but an object or such a list is read.
pub proof fn runtime_control_set_response_other_forms(items: Seq<JsonView>, other: JsonView)
    requires
        other !is Object && other !is Array,
    ensures
        items.len() == 0
            ==> ExternalRuntimeControlSetResponse::decode(JsonView::Array(items))
                == ExternalRuntimeControlSetResponse::decode(
            JsonView::Object(
                Map::empty(),
            ),
        ),
        items.len() != 0
            ==> ExternalRuntimeControlSetResponse::decode(JsonView::Array(items)) is None,
        ExternalRuntimeControlSetResponse::decode(other) is None,
{
}

/// Each field is written under its own name in camel case, and nothing else is.
pub proof fn queue_updated_notification_is_written(value: ExternalQueueUpdatedNotification)
    ensures
        ExternalQueueUpdatedNotification::encode(value.model()) matches JsonView::Object(members)
            && members.dom()
            == Set::<Seq<char>>::empty()
                .insert("threadId"@).insert("queueKind"@).insert("operation"@).insert("item"@),
        holds(
            ExternalQueueUpdatedNotification::encode(value.model()),
            "threadId"@,
            JsonView::Text(value.thread_id@),
        ),
        holds(
            ExternalQueueUpdatedNotification::encode(value.model()),
            "queueKind"@,
            ExternalInputQueueKind::encode(value.queue_kind.model()),
        ),
        holds(
            ExternalQueueUpdatedNotification::encode(value.model()),
            "operation"@,
            ExternalQueueOperation::encode(value.operation.model()),
        ),
        holds(
            ExternalQueueUpdatedNotification::encode(value.model()),
            "item"@,
            match value.item {
                Some(set) => ExternalQueuedInput::encode(set.model()),
                None => JsonView::Null,
            },
        ),
{
    reveal_strlit("threadId");
    reveal_strlit("queueKind");
    reveal_strlit("operation");
    reveal_strlit("item");
    assert("threadId"@.len() != "queueKind"@.len());
    assert("threadId"@.len() != "operation"@.len());
    assert("threadId"@.len() != "item"@.len());
    assert("queueKind"@[0] != "operation"@[0]);
    assert("queueKind"@.len() != "item"@.len());
    assert("operation"@.len() != "item"@.len());
}

/// An object is read as the record whose fields its members are, each by its own
/// name; a field that may be missing is missing where it is `null` or not there.
pub proof fn queue_updated_notification_is_read(json: JsonView, model: QueueUpdatedModel)
    requires
        json is Object,
    ensures
        ExternalQueueUpdatedNotification::decode(json) == Some(model) <==> {
            &&& reads::<String>(json, "threadId"@, model.thread_id)
            &&& reads::<ExternalInputQueueKind>(json, "queueKind"@, model.queue_kind)
            &&& reads::<ExternalQueueOperation>(json, "operation"@, model.operation)
            &&& may_read::<ExternalQueuedInput>(json, "item"@, model.item)
        },
{
}

/// The list of its fields in their order is read as the object is, and nothing
/// but an object or such a list is read.
pub proof fn queue_updated_notification_other_forms(items: Seq<JsonView>, other: JsonView)
    requires
        other !is Object && other !is Array,
    ensures
        items.len() == 4
            ==> ExternalQueueUpdatedNotification::decode(JsonView::Array(items))
                == ExternalQueueUpdatedNotification::decode(
            JsonView::Object(
                Map::empty()
                    .insert("threadId"@, items[0])
                    .insert("queueKind"@, items[1])
                    .insert("operation"@, items[2])
                    .insert("item"@, items[3]),
            ),
        ),
        items.len() != 4
            ==> ExternalQueueUpdatedNotification::decode(JsonView::Array(items)) is None,
        ExternalQueueUpdatedNotification::decode(other) is None,
{
    reveal_strlit("threadId");
    reveal_strlit("queueKind");
    reveal_strlit("operation");
    reveal_strlit("item");
    assert("threadId"@.len() != "queueKind"@.len());
    assert("threadId"@.len() != "operation"@.len());
    assert("threadId"@.len() != "item"@.len());
    assert("queueKind"@[0] != "operation"@[0]);
    assert("queueKind"@.len() != "item"@.len());
    assert("operation"@.len() != "item"@.len());
}

/// The fields are what they hold.
pub proof fn queue_updated_notification_is_its_fields(value: ExternalQueueUpdatedNotification)
    ensures
        value.model().thread_id == value.thread_id@,
        value.model().queue_kind == value.queue_kind.model(),
        value.model().operation == value.operation.model(),
        value.model().item == (match value.item {
            Some(set) => Some(set.model()),
            None => None,
        }),
{
}

/// Each field is written under its own name in camel case, and nothing else is.
pub proof fn stream_delta_notification_is_written(value: ExternalStreamDeltaNotification)
    ensures
        ExternalStreamDeltaNotification::encode(value.model()) matches JsonView::Object(members)
            && members.dom()
            == Set::<Seq<char>>::empty()
                .insert("threadId"@).insert("turnId"@).insert("channel"@).insert("sequence"@)
                .insert("delta"@),
        holds(
            ExternalStreamDeltaNotification::encode(value.model()),
            "threadId"@,
            JsonView::Text(value.thread_id@),
        ),
        holds(
            ExternalStreamDeltaNotification::encode(value.model()),
            "turnId"@,
            match value.turn_id {
                Some(set) => JsonView::Text(set@),
                None => JsonView::Null,
            },
        ),
        holds(
            ExternalStreamDeltaNotification::encode(value.model()),
            "channel"@,
            ExternalStreamChannel::encode(value.channel.model()),
        ),
        holds(
            ExternalStreamDeltaNotification::encode(value.model()),
            "sequence"@,
            JsonView::Number(JsonNumberView::Int(value.sequence as int)),
        ),
        holds(
            ExternalStreamDeltaNotification::encode(value.model()),
            "delta"@,
            JsonView::Text(value.delta@),
        ),
{
    reveal_strlit("threadId");
    reveal_strlit("turnId");
    reveal_strlit("channel");
    reveal_strlit("sequence");
    reveal_strlit("delta");
    assert("threadId"@.len() != "turnId"@.len());
    assert("threadId"@.len() != "channel"@.len());
    assert("threadId"@[0] != "sequence"@[0]);
    assert("threadId"@.len() != "delta"@.len());
    assert("turnId"@.len() != "channel"@.len());
    assert("turnId"@.len() != "sequence"@.len());
    assert("turnId"@.len() != "delta"@.len());
    assert("channel"@.len() != "sequence"@.len());
    assert("channel"@.len() != "delta"@.len());
    assert("sequence"@.len() != "delta"@.len());
}

/// An object is read as the record whose fields its members are, each by its own
/// name; a field that may be missing is missing where it is `null` or not there.
pub proof fn stream_delta_notification_is_read(json: JsonView, model: StreamDeltaModel)
    requires
        json is Object,
    ensures
        ExternalStreamDeltaNotification::decode(json) == Some(model) <==> {
            &&& reads::<String>(json, "threadId"@, model.thread_id)
            &&& may_read::<String>(json, "turnId"@, model.turn_id)
            &&& reads::<ExternalStreamChannel>(json, "channel"@, model.channel)
            &&& reads::<u64>(json, "sequence"@, model.sequence)
            &&& reads::<String>(json, "delta"@, model.delta)
        },
{
}

/// The list of its fields in their order is read as the object is, and nothing
/// but an object or such a list is read.
pub proof fn stream_delta_notification_other_forms(items: Seq<JsonView>, other: JsonView)
    requires
        other !is Object && other !is Array,
    ensures
        items.len() == 5
            ==> ExternalStreamDeltaNotification::decode(JsonView::Array(items))
                == ExternalStreamDeltaNotification::decode(
            JsonView::Object(
                Map::empty()
                    .insert("threadId"@, items[0])
                    .insert("turnId"@, items[1])
                    .insert("channel"@, items[2])
                    .insert("sequence"@, items[3])
                    .insert("delta"@, items[4]),
            ),
        ),
        items.len() != 5
            ==> ExternalStreamDeltaNotification::decode(JsonView::Array(items)) is None,
        ExternalStreamDeltaNotification::decode(other) is None,
{
    reveal_strlit("threadId");
    reveal_strlit("turnId");
    reveal_strlit("channel");
    reveal_strlit("sequence");
    reveal_strlit("delta");
    assert("threadId"@.len() != "turnId"@.len());
    assert("threadId"@.len() != "channel"@.len());
    assert("threadId"@[0] != "sequence"@[0]);
    assert("threadId"@.len() != "delta"@.len());
    assert("turnId"@.len() != "channel"@.len());
    assert("turnId"@.len() != "sequence"@.len());
    assert("turnId"@.len() != "delta"@.len());
    assert("channel"@.len() != "sequence"@.len());
    assert("channel"@.len() != "delta"@.len());
    assert("sequence"@.len() != "delta"@.len());
}

/// The fields are what they hold.
pub proof fn stream_delta_notification_is_its_fields(value: ExternalStreamDeltaNotification)
    ensures
        value.model().thread_id == value.thread_id@,
        value.model().turn_id == (match value.turn_id {
            Some(set) => Some(set@),
            None => None,
        }),
        value.model().channel == value.channel.model(),
        value.model().sequence == value.sequence,
        value.model().delta == value.delta@,
{
}

/// Each field is written under its own name in camel case, and nothing else is.
pub proof fn permission_request_notification_is_written(
    value: ExternalPermissionRequestNotification,
)
    ensures
        ExternalPermissionRequestNotification::encode(value.model())
            matches JsonView::Object(members) && members.dom()
            == Set::<Seq<char>>::empty()
                .insert("threadId"@).insert("turnId"@).insert("requestId"@).insert("kind"@)
                .insert("payload"@),
        holds(
            ExternalPermissionRequestNotification::encode(value.model()),
            "threadId"@,
            JsonView::Text(value.thread_id@),
        ),
        holds(
            ExternalPermissionRequestNotification::encode(value.model()),
            "turnId"@,
            match value.turn_id {
                Some(set) => JsonView::Text(set@),
                None => JsonView::Null,
            },
        ),
        holds(
            ExternalPermissionRequestNotification::encode(value.model()),
            "requestId"@,
            JsonView::Text(value.request_id@),
        ),
        holds(
            ExternalPermissionRequestNotification::encode(value.model()),
            "kind"@,
            ExternalPermissionRequestKind::encode(value.kind.model()),
        ),
        holds(
            ExternalPermissionRequestNotification::encode(value.model()),
            "payload"@,
            value.payload@,
        ),
{
    reveal_strlit("threadId");
    reveal_strlit("turnId");
    reveal_strlit("requestId");
    reveal_strlit("kind");
    reveal_strlit("payload");
    assert("threadId"@.len() != "turnId"@.len());
    assert("threadId"@.len() != "requestId"@.len());
    assert("threadId"@.len() != "kind"@.len());
    assert("threadId"@.len() != "payload"@.len());
    assert("turnId"@.len() != "requestId"@.len());
    assert("turnId"@.len() != "kind"@.len());
    assert("turnId"@.len() != "payload"@.len());
    assert("requestId"@.len() != "kind"@.len());
    assert("requestId"@.len() != "payload"@.len());
    assert("kind"@.len() != "payload"@.len());
}

/// An object is read as the record whose fields its members are, each by its own
/// name; a field that may be missing is missing where it is `null` or not there.
pub proof fn permission_request_notification_is_read(json: JsonView, model: PermissionRequestModel)
    requires
        json is Object,
    ensures
        ExternalPermissionRequestNotification::decode(json) == Some(model) <==> {
            &&& reads::<String>(json, "threadId"@, model.thread_id)
            &&& may_read::<String>(json, "turnId"@, model.turn_id)
            &&& reads::<String>(json, "requestId"@, model.request_id)
            &&& reads::<ExternalPermissionRequestKind>(json, "kind"@, model.kind)
            &&& reads::<JsonValue>(json, "payload"@, model.payload)
        },
{
}

/// The list of its fields in their order is read as the object is, and nothing
/// but an object or such a list is read.
pub proof fn permission_request_notification_other_forms(items: Seq<JsonView>, other: JsonView)
    requires
        other !is Object && other !is Array,
    ensures
        items.len() == 5
            ==> ExternalPermissionRequestNotification::decode(JsonView::Array(items))
                == ExternalPermissionRequestNotification::decode(
            JsonView::Object(
                Map::empty()
                    .insert("threadId"@, items[0])
                    .insert("turnId"@, items[1])
                    .insert("requestId"@, items[2])
                    .insert("kind"@, items[3])
                    .insert("payload"@, items[4]),
            ),
        ),
        items.len() != 5
            ==> ExternalPermissionRequestNotification::decode(JsonView::Array(items)) is None,
        ExternalPermissionRequestNotification::decode(other) is None,
{
    reveal_strlit("threadId");
    reveal_strlit("turnId");
    reveal_strlit("requestId");
    reveal_strlit("kind");
    reveal_strlit("payload");
    assert("threadId"@.len() != "turnId"@.len());
    assert("threadId"@.len() != "requestId"@.len());
    assert("threadId"@.len() != "kind"@.len());
    assert("threadId"@.len() != "payload"@.len());
    assert("turnId"@.len() != "requestId"@.len());
    assert("turnId"@.len() != "kind"@.len());
    assert("turnId"@.len() != "payload"@.len());
    assert("requestId"@.len() != "kind"@.len());
    assert("requestId"@.len() != "payload"@.len());
    assert("kind"@.len() != "payload"@.len());
}

/// The fields are what they hold.
pub proof fn permission_request_notification_is_its_fields(
    value: ExternalPermissionRequestNotification,
)
    ensures
        value.model().thread_id == value.thread_id@,
        value.model().turn_id == (match value.turn_id {
            Some(set) => Some(set@),
            None => None,
        }),
        value.model().request_id == value.request_id@,
        value.model().kind == value.kind.model(),
        value.model().payload == value.payload@,
{
}

/// Each field is written under its own name in camel case, and nothing else is.
pub proof fn permission_resolved_notification_is_written(
    value: ExternalPermissionResolvedNotification,
)
    ensures
        ExternalPermissionResolvedNotification::encode(value.model())
            matches JsonView::Object(members) && members.dom()
            == Set::<Seq<char>>::empty()
                .insert("threadId"@).insert("requestId"@).insert("approved"@).insert("decision"@),
        holds(
            ExternalPermissionResolvedNotification::encode(value.model()),
            "threadId"@,
            JsonView::Text(value.thread_id@),
        ),
        holds(
            ExternalPermissionResolvedNotification::encode(value.model()),
            "requestId"@,
            JsonView::Text(value.request_id@),
        ),
        holds(
            ExternalPermissionResolvedNotification::encode(value.model()),
            "approved"@,
            JsonView::Bool(value.approved),
        ),
        holds(
            ExternalPermissionResolvedNotification::encode(value.model()),
            "decision"@,
            match value.decision {
                Some(set) => JsonView::Text(set@),
                None => JsonView::Null,
            },
        ),
{
    reveal_strlit("threadId");
    reveal_strlit("requestId");
    reveal_strlit("approved");
    reveal_strlit("decision");
    assert("threadId"@.len() != "requestId"@.len());
    assert("threadId"@[0] != "approved"@[0]);
    assert("threadId"@[0] != "decision"@[0]);
    assert("requestId"@.len() != "approved"@.len());
    assert("requestId"@.len() != "decision"@.len());
    assert("approved"@[0] != "decision"@[0]);
}

/// An object is read as the record whose fields its members are, each by its own
/// name; a field that may be missing is missing where it is `null` or not there.
pub proof fn permission_resolved_notification_is_read(
    json: JsonView,
    model: PermissionResolvedModel,
)
    requires
        json is Object,
    ensures
        ExternalPermissionResolvedNotification::decode(json) == Some(model) <==> {
            &&& reads::<String>(json, "threadId"@, model.thread_id)
            &&& reads::<String>(json, "requestId"@, model.request_id)
            &&& reads::<bool>(json, "approved"@, model.approved)
            &&& may_read::<String>(json, "decision"@, model.decision)
        },
{
}

/// The list of its fields in their order is read as the object is, and nothing
/// but an object or such a list is read.
pub proof fn permission_resolved_notification_other_forms(items: Seq<JsonView>, other: JsonView)
    requires
        other !is Object && other !is Array,
    ensures
        items.len() == 4
            ==> ExternalPermissionResolvedNotification::decode(JsonView::Array(items))
                == ExternalPermissionResolvedNotification::decode(
            JsonView::Object(
                Map::empty()
                    .insert("threadId"@, items[0])
                    .insert("requestId"@, items[1])
                    .insert("approved"@, items[2])
                    .insert("decision"@, items[3]),
            ),
        ),
        items.len() != 4
            ==> ExternalPermissionResolvedNotification::decode(JsonView::Array(items)) is None,
        ExternalPermissionResolvedNotification::decode(other) is None,
{
    reveal_strlit("threadId");
    reveal_strlit("requestId");
    reveal_strlit("approved");
    reveal_strlit("decision");
    assert("threadId"@.len() != "requestId"@.len());
    assert("threadId"@[0] != "approved"@[0]);
    assert("threadId"@[0] != "decision"@[0]);
    assert("requestId"@.len() != "approved"@.len());
    assert("requestId"@.len() != "decision"@.len());
    assert("approved"@[0] != "decision"@[0]);
}

/// The fields are what they hold.
pub proof fn permission_resolved_notification_is_its_fields(
    value: ExternalPermissionResolvedNotification,
)
    ensures
        value.model().thread_id == value.thread_id@,
        value.model().request_id == value.request_id@,
        value.model().approved == value.approved,
        value.model().decision == (match value.decision {
            Some(set) => Some(set@),
            None => None,
        }),
{
}

/// Each field is written under its own name in camel case, and nothing else is.
pub proof fn diff_chunk_notification_is_written(value: ExternalDiffChunkNotification)
    ensures
        ExternalDiffChunkNotification::encode(value.model()) matches JsonView::Object(members)
            && members.dom()
            == Set::<Seq<char>>::empty()
                .insert("threadId"@).insert("turnId"@).insert("format"@).insert("chunkIndex"@)
                .insert("complete"@).insert("diff"@),
        holds(
            ExternalDiffChunkNotification::encode(value.model()),
            "threadId"@,
            JsonView::Text(value.thread_id@),
        ),
        holds(
            ExternalDiffChunkNotification::encode(value.model()),
            "turnId"@,
            JsonView::Text(value.turn_id@),
        ),
        holds(
            ExternalDiffChunkNotification::encode(value.model()),
            "format"@,
            ExternalDiffFormat::encode(value.format.model()),
        ),
        holds(
            ExternalDiffChunkNotification::encode(value.model()),
            "chunkIndex"@,
            JsonView::Number(JsonNumberView::Int(value.chunk_index as int)),
        ),
        holds(
            ExternalDiffChunkNotification::encode(value.model()),
            "complete"@,
            JsonView::Bool(value.complete),
        ),
        holds(
            ExternalDiffChunkNotification::encode(value.model()),
            "diff"@,
            JsonView::Text(value.diff@),
        ),
{
    reveal_strlit("threadId");
    reveal_strlit("turnId");
    reveal_strlit("format");
    reveal_strlit("chunkIndex");
    reveal_strlit("complete");
    reveal_strlit("diff");
    assert("threadId"@.len() != "turnId"@.len());
    assert("threadId"@.len() != "format"@.len());
    assert("threadId"@.len() != "chunkIndex"@.len());
    assert("threadId"@[0] != "complete"@[0]);
    assert("threadId"@.len() != "diff"@.len());
    assert("turnId"@[0] != "format"@[0]);
    assert("turnId"@.len() != "chunkIndex"@.len());
    assert("turnId"@.len() != "complete"@.len());
    assert("turnId"@.len() != "diff"@.len());
    assert("format"@.len() != "chunkIndex"@.len());
    assert("format"@.len() != "complete"@.len());
    assert("format"@.len() != "diff"@.len());
    assert("chunkIndex"@.len() != "complete"@.len());
    assert("chunkIndex"@.len() != "diff"@.len());
    assert("complete"@.len() != "diff"@.len());
}

/// An object is read as the record whose fields its members are, each by its own
/// name; a field that may be missing is missing where it is `null` or not there.
pub proof fn diff_chunk_notification_is_read(json: JsonView, model: DiffChunkModel)
    requires
        json is Object,
    ensures
        ExternalDiffChunkNotification::decode(json) == Some(model) <==> {
            &&& reads::<String>(json, "threadId"@, model.thread_id)
            &&& reads::<String>(json, "turnId"@, model.turn_id)
            &&& reads::<ExternalDiffFormat>(json, "format"@, model.format)
            &&& reads::<u64>(json, "chunkIndex"@, model.chunk_index)
            &&& reads::<bool>(json, "complete"@, model.complete)
            &&& reads::<String>(json, "diff"@, model.diff)
        },
{
}

/// The list of its fields in their order is read as the object is, and nothing
/// but an object or such a list is read.
pub proof fn diff_chunk_notification_other_forms(items: Seq<JsonView>, other: JsonView)
    requires
        other !is Object && other !is Array,
    ensures
        items.len() == 6
            ==> ExternalDiffChunkNotification::decode(JsonView::Array(items))
                == ExternalDiffChunkNotification::decode(
            JsonView::Object(
                Map::empty()
                    .insert("threadId"@, items[0])
                    .insert("turnId"@, items[1])
                    .insert("format"@, items[2])
                    .insert("chunkIndex"@, items[3])
                    .insert("complete"@, items[4])
                    .insert("diff"@, items[5]),
            ),
        ),
        items.len() != 6 ==> ExternalDiffChunkNotification::decode(JsonView::Array(items)) is None,
        ExternalDiffChunkNotification::decode(other) is None,
{
    reveal_strlit("threadId");
    reveal_strlit("turnId");
    reveal_strlit("format");
    reveal_strlit("chunkIndex");
    reveal_strlit("complete");
    reveal_strlit("diff");
    assert("threadId"@.len() != "turnId"@.len());
    assert("threadId"@.len() != "format"@.len());
    assert("threadId"@.len() != "chunkIndex"@.len());
    assert("threadId"@[0] != "complete"@[0]);
    assert("threadId"@.len() != "diff"@.len());
    assert("turnId"@[0] != "format"@[0]);
    assert("turnId"@.len() != "chunkIndex"@.len());
    assert("turnId"@.len() != "complete"@.len());
    assert("turnId"@.len() != "diff"@.len());
    assert("format"@.len() != "chunkIndex"@.len());
    assert("format"@.len() != "complete"@.len());
    assert("format"@.len() != "diff"@.len());
    assert("chunkIndex"@.len() != "complete"@.len());
    assert("chunkIndex"@.len() != "diff"@.len());
    assert("complete"@.len() != "diff"@.len());
}

/// The fields are what they hold.
pub proof fn diff_chunk_notification_is_its_fields(value: ExternalDiffChunkNotification)
    ensures
        value.model().thread_id == value.thread_id@,
        value.model().turn_id == value.turn_id@,
        value.model().format == value.format.model(),
        value.model().chunk_index == value.chunk_index,
        value.model().complete == value.complete,
        value.model().diff == value.diff@,
{
}

} // verus!
