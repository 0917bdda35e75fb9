//! What becomes of each message, told by the members that it has.

use vstd::prelude::*;

use crate::adapter::{
    answered_id, client_notifications, client_notifications_for_some_id, decision_text, delta_text,
    echo_tells_input, grants, id_text, input_fits, input_items, input_text, is_jsonrpc,
    jsonrpc_message, message_queue, notification_models, opt_notification, params_of,
    pending_after_answer, pending_after_request, permission_request, permission_resolved,
    placed_delta, sequence_after, sequence_after_client, stream_notification, summary_text,
    texts_among,
};
use crate::adapter_laws::{notifications_of_all, state_after_all, Incoming};
use crate::connection::{
    notifications_of_client, notifications_of_server, resolved_notifications, state_after_client,
    state_after_server, ConnectionModel,
};
use crate::ids::{is_uuid_v4, queue_item_id};
use crate::json::{object_text, parsed_json, written_json, JsonNumberView, JsonValue, JsonView};
use crate::json_facts::{has_text, holds, lacks, lacks_text, params_are, text_if_any, text_or_empty};
use crate::notification::{AdapterNotification, NotificationModel};
use crate::protocol::{
    ExternalDiffChunkNotification, ExternalDiffFormat, ExternalInputQueueKind,
    ExternalPermissionRequestKind, ExternalPermissionRequestNotification,
    ExternalPermissionResolvedNotification, ExternalQueueOperation,
    ExternalQueueUpdatedNotification, ExternalStreamChannel, ExternalStreamDeltaNotification,
    QueueUpdatedModel, QueuedInputModel, UserInput, UserInputModel,
};
use crate::protocol_laws::user_input_is_read;
use crate::text::{decimal, joined};
use crate::wire::Wire;

verus! {

/// No two methods are the same.
proof fn lemma_methods()
    ensures
        "item/agentMessage/delta"@.len() == 23,
        "item/reasoning/summaryTextDelta"@.len() == 31,
        "item/reasoning/textDelta"@.len() == 24,
        "item/commandExecution/outputDelta"@.len() == 33,
        "item/commandExecution/terminalInteraction"@.len() == 41,
        "item/commandExecution/requestApproval"@.len() == 37,
        "item/fileChange/requestApproval"@.len() == 31,
        "item/permissions/requestApproval"@.len() == 32,
        "mcpServer/elicitation/request"@.len() == 29,
        "turn/diff/updated"@.len() == 17,
        "item/completed"@.len() == 14,
        "turn/start"@.len() == 10,
        "turn/steer"@.len() == 10,
        "item/reasoning/summaryTextDelta"@ != "item/fileChange/requestApproval"@,
        "turn/start"@ != "turn/steer"@,
{
    reveal_strlit("item/agentMessage/delta");
    reveal_strlit("item/reasoning/summaryTextDelta");
    reveal_strlit("item/reasoning/textDelta");
    reveal_strlit("item/commandExecution/outputDelta");
    reveal_strlit("item/commandExecution/terminalInteraction");
    reveal_strlit("item/commandExecution/requestApproval");
    reveal_strlit("item/fileChange/requestApproval");
    reveal_strlit("item/permissions/requestApproval");
    reveal_strlit("mcpServer/elicitation/request");
    reveal_strlit("turn/diff/updated");
    reveal_strlit("item/completed");
    reveal_strlit("turn/start");
    reveal_strlit("turn/steer");
    assert("item/reasoning/summaryTextDelta"@[5] != "item/fileChange/requestApproval"@[5]);
    assert("turn/start"@[7] != "turn/steer"@[7]);
}

// ---------------------------------------------------------------------------
// Messages and their ids
// ---------------------------------------------------------------------------

/// A text holds a message if and only if it reads as an object with a method, an
/// id, a result or an error, and the message is what it reads as.
pub proof fn what_is_a_message(text: Seq<char>, value: JsonView)
    ensures
        is_jsonrpc(value) <==> {
            ||| !lacks(value, "method"@)
            ||| !lacks(value, "id"@)
            ||| !lacks(value, "result"@)
            ||| !lacks(value, "error"@)
        },
        jsonrpc_message(text) == Some(value) <==> parsed_json(text) == Some(value) && {
            ||| !lacks(value, "method"@)
            ||| !lacks(value, "id"@)
            ||| !lacks(value, "result"@)
            ||| !lacks(value, "error"@)
        },
{
}

/// The parameters are the member of that name, or `null`.
pub proof fn what_the_parameters_are(message: JsonView, params: JsonView)
    ensures
        params_of(message) == params <==> params_are(message, params),
{
}

/// A text is an id as it is, an integer in decimal notation, another number as
/// it is written; ids of any other kind are not told apart.
pub proof fn what_an_id_is_known_by(
    text: Seq<char>,
    number: int,
    truth: bool,
    parts: Seq<JsonView>,
    members: Map<Seq<char>, JsonView>,
)
    ensures
        id_text(JsonView::Text(text)) == text,
        id_text(JsonView::Number(JsonNumberView::Int(number))) == decimal(number),
        id_text(JsonView::Number(JsonNumberView::Float(text))) == text,
        id_text(JsonView::Null).len() == 0,
        id_text(JsonView::Bool(truth)).len() == 0,
        id_text(JsonView::Array(parts)).len() == 0,
        id_text(JsonView::Object(members)).len() == 0,
{
}

// ---------------------------------------------------------------------------
// What the server sends
// ---------------------------------------------------------------------------

/// The parameters of a piece of a stream are passed on: the text that it has for
/// its delta comes out character for character, or that of its standard input
/// where it has no delta at all, and it is the next in number.
pub proof fn a_piece_says_what_its_parameters_say(
    params: JsonView,
    channel: ExternalStreamChannel,
    sequence: u64,
    text: Seq<char>,
)
    ensures
        ({
            let piece = placed_delta(params, channel, delta_text(params), sequence);
            &&& has_text(params, "delta"@, text) ==> piece.delta == text
            &&& !lacks(params, "delta"@) && lacks_text(params, "delta"@) ==> piece.delta.len() == 0
            &&& lacks(params, "delta"@) ==> text_or_empty(params, "stdin"@, piece.delta)
            &&& text_or_empty(params, "threadId"@, piece.thread_id)
            &&& text_if_any(params, "turnId"@, piece.turn_id)
            &&& piece.channel == channel
            &&& sequence < u64::MAX ==> piece.sequence == sequence + 1
            &&& sequence == u64::MAX ==> piece.sequence == u64::MAX
        }),
{
}

/// Each of the five kinds of delta messages brings one notification, on the
/// channel of its kind, with the text of the message character for character.
pub proof fn a_delta_is_passed_on(
    state: ConnectionModel,
    message: JsonView,
    params: JsonView,
    method: Seq<char>,
    channel: ExternalStreamChannel,
    text: Seq<char>,
)
    requires
        has_text(message, "method"@, method),
        params_are(message, params),
        ({
            ||| method == "item/agentMessage/delta"@ && channel == ExternalStreamChannel::OutputText
            ||| method == "item/reasoning/summaryTextDelta"@
                && channel == ExternalStreamChannel::ReasoningSummary
            ||| method == "item/reasoning/textDelta"@
                && channel == ExternalStreamChannel::ReasoningContent
            ||| method == "item/commandExecution/outputDelta"@
                && channel == ExternalStreamChannel::TerminalOutput
            ||| method == "item/commandExecution/terminalInteraction"@
                && channel == ExternalStreamChannel::InputEcho
        }),
    ensures
        notifications_of_server(state, message).len() == 1,
        stream_notification(message, state.sequence) == Some(
            notifications_of_server(state, message)[0],
        ),
        notifications_of_server(state, message)[0] matches NotificationModel::StreamDelta(piece)
            && {
            &&& has_text(params, "delta"@, text) ==> piece.delta == text
            &&& !lacks(params, "delta"@) && lacks_text(params, "delta"@) ==> piece.delta.len() == 0
            &&& lacks(params, "delta"@) ==> text_or_empty(params, "stdin"@, piece.delta)
            &&& text_or_empty(params, "threadId"@, piece.thread_id)
            &&& text_if_any(params, "turnId"@, piece.turn_id)
            &&& piece.channel == channel
            &&& state.sequence < u64::MAX ==> piece.sequence == state.sequence + 1
            &&& state.sequence == u64::MAX ==> piece.sequence == u64::MAX
            &&& state_after_server(state, message).sequence == piece.sequence
            &&& sequence_after(stream_notification(message, state.sequence), state.sequence)
                == piece.sequence
        },
        state_after_server(state, message).pending == state.pending,
{
    lemma_methods();
}

/// The texts of the pieces of a stream among notifications, in their order.
pub open spec fn stream_texts(notifications: Seq<NotificationModel>) -> Seq<Seq<char>>
    decreases notifications.len(),
{
    if notifications.len() == 0 {
        Seq::empty()
    } else {
        let earlier = stream_texts(notifications.drop_last());
        match notifications.last() {
            NotificationModel::StreamDelta(piece) => earlier.push(piece.delta),
            _ => earlier,
        }
    }
}

/// An answer that the server streams piece by piece comes out in the same pieces.
pub proof fn a_streamed_text_comes_out_whole(
    state: ConnectionModel,
    messages: Seq<JsonView>,
    texts: Seq<Seq<char>>,
    params: Seq<JsonView>,
    method: Seq<char>,
    channel: ExternalStreamChannel,
)
    requires
        messages.len() == texts.len(),
        messages.len() == params.len(),
        forall|i: int|
            0 <= i < messages.len() ==> has_text(#[trigger] messages[i], "method"@, method)
                && holds(messages[i], "params"@, params[i]) && has_text(
                params[i],
                "delta"@,
                texts[i],
            ),
        ({
            ||| method == "item/agentMessage/delta"@ && channel == ExternalStreamChannel::OutputText
            ||| method == "item/reasoning/summaryTextDelta"@
                && channel == ExternalStreamChannel::ReasoningSummary
            ||| method == "item/reasoning/textDelta"@
                && channel == ExternalStreamChannel::ReasoningContent
            ||| method == "item/commandExecution/outputDelta"@
                && channel == ExternalStreamChannel::TerminalOutput
            ||| method == "item/commandExecution/terminalInteraction"@
                && channel == ExternalStreamChannel::InputEcho
        }),
    ensures
        stream_texts(
            notifications_of_all(
                state,
                messages.map_values(|message: JsonView| Incoming::Server { message }),
            ),
        ) == texts,
    decreases messages.len(),
{
    let incoming = |message: JsonView| Incoming::Server { message };
    let conversation = messages.map_values(incoming);
    if messages.len() == 0 {
        assert(texts =~= Seq::empty());
    } else {
        let n = messages.len() - 1;
        assert(has_text(messages[n], "method"@, method));
        assert forall|i: int| 0 <= i < messages.drop_last().len() implies has_text(
            #[trigger] messages.drop_last()[i],
            "method"@,
            method,
        ) && holds(messages.drop_last()[i], "params"@, params.drop_last()[i]) && has_text(
            params.drop_last()[i],
            "delta"@,
            texts.drop_last()[i],
        ) by {
            assert(messages.drop_last()[i] == messages[i]);
        }
        a_streamed_text_comes_out_whole(
            state,
            messages.drop_last(),
            texts.drop_last(),
            params.drop_last(),
            method,
            channel,
        );
        assert(conversation.drop_last() =~= messages.drop_last().map_values(incoming));
        let before = state_after_all(state, conversation.drop_last());
        let earlier = notifications_of_all(state, conversation.drop_last());
        let new = notifications_of_server(before, messages[n]);
        a_delta_is_passed_on(before, messages[n], params[n], method, channel, texts[n]);
        assert((earlier + new).drop_last() =~= earlier);
        assert((earlier + new).last() == new[0]);
        assert(texts =~= texts.drop_last().push(texts[n]));
    }
}

/// The diff of a turn comes out as one complete chunk, and takes no number.
pub proof fn a_diff_is_passed_on(
    state: ConnectionModel,
    message: JsonView,
    params: JsonView,
)
    requires
        has_text(message, "method"@, "turn/diff/updated"@),
        params_are(message, params),
    ensures
        notifications_of_server(state, message).len() == 1,
        stream_notification(message, state.sequence) == Some(
            notifications_of_server(state, message)[0],
        ),
        notifications_of_server(state, message)[0] matches NotificationModel::DiffChunk(chunk) && {
            &&& text_or_empty(params, "threadId"@, chunk.thread_id)
            &&& text_or_empty(params, "turnId"@, chunk.turn_id)
            &&& text_or_empty(params, "diff"@, chunk.diff)
            &&& chunk.format == ExternalDiffFormat::UnifiedPatch
            &&& chunk.chunk_index == 0
            &&& chunk.complete
        },
        state_after_server(state, message) == state,
        sequence_after(stream_notification(message, state.sequence), state.sequence)
            == state.sequence,
{
    lemma_methods();
}

/// A message of the agent that is complete comes out once more in full, unless
/// it is empty.
pub proof fn a_complete_message_is_told(
    state: ConnectionModel,
    message: JsonView,
    params: JsonView,
    item: JsonView,
    text: Seq<char>,
)
    requires
        has_text(message, "method"@, "item/completed"@),
        holds(message, "params"@, params),
        holds(params, "item"@, item),
        has_text(item, "type"@, "agentMessage"@),
        text_or_empty(item, "text"@, text),
    ensures
        text.len() == 0 ==> notifications_of_server(state, message).len() == 0
            && state_after_server(state, message) == state,
        text.len() > 0 ==> {
            &&& notifications_of_server(state, message).len() == 1
            &&& notifications_of_server(state, message)[0]
                matches NotificationModel::StreamDelta(piece) && {
                &&& piece.delta == text
                &&& piece.channel == ExternalStreamChannel::OutputText
                &&& text_or_empty(params, "threadId"@, piece.thread_id)
                &&& text_if_any(params, "turnId"@, piece.turn_id)
                &&& state.sequence < u64::MAX ==> piece.sequence == state.sequence + 1
                &&& state.sequence == u64::MAX ==> piece.sequence == u64::MAX
                &&& state_after_server(state, message).sequence == piece.sequence
            }
            &&& state_after_server(state, message).pending == state.pending
        },
{
    lemma_methods();
    reveal_strlit("agentMessage");
    reveal_strlit("reasoning");
    assert("agentMessage"@.len() != "reasoning"@.len());
}

/// A piece of reasoning that is complete comes out as its summary, unless that
/// is empty.
pub proof fn a_complete_summary_is_told(
    state: ConnectionModel,
    message: JsonView,
    params: JsonView,
    item: JsonView,
)
    requires
        has_text(message, "method"@, "item/completed"@),
        holds(message, "params"@, params),
        holds(params, "item"@, item),
        has_text(item, "type"@, "reasoning"@),
    ensures
        summary_text(item).len() == 0 ==> notifications_of_server(state, message).len() == 0
            && state_after_server(state, message) == state,
        summary_text(item).len() > 0 ==> {
            &&& notifications_of_server(state, message).len() == 1
            &&& notifications_of_server(state, message)[0]
                matches NotificationModel::StreamDelta(piece) && {
                &&& piece.delta == summary_text(item)
                &&& piece.channel == ExternalStreamChannel::ReasoningSummary
                &&& text_or_empty(params, "threadId"@, piece.thread_id)
                &&& text_if_any(params, "turnId"@, piece.turn_id)
                &&& state.sequence < u64::MAX ==> piece.sequence == state.sequence + 1
                &&& state.sequence == u64::MAX ==> piece.sequence == u64::MAX
                &&& state_after_server(state, message).sequence == piece.sequence
            }
            &&& state_after_server(state, message).pending == state.pending
        },
{
    lemma_methods();
    reveal_strlit("agentMessage");
    reveal_strlit("reasoning");
    assert("agentMessage"@.len() != "reasoning"@.len());
}

/// The texts of a summary come one per line, and what is no text in it does not
/// come: one more part adds a line, or nothing.
pub proof fn a_summary_has_a_line_per_text(
    item: JsonView,
    longer: JsonView,
    parts: Seq<JsonView>,
    part: JsonView,
)
    requires
        holds(item, "summary"@, JsonView::Array(parts)),
        holds(longer, "summary"@, JsonView::Array(parts.push(part))),
    ensures
        parts.len() == 0 ==> summary_text(item).len() == 0,
        part !is Text ==> summary_text(longer) == summary_text(item),
        part matches JsonView::Text(text) ==> {
            &&& (forall|i: int| 0 <= i < parts.len() ==> #[trigger] parts[i] !is Text)
                ==> summary_text(longer) == text
            &&& (exists|i: int| 0 <= i < parts.len() && #[trigger] parts[i] is Text)
                ==> summary_text(longer) == summary_text(item) + "\n"@ + text
        },
{
    reveal(Seq::filter);
    let is_text = |v: JsonView| v is Text;
    lemma_no_texts(parts);
    assert(parts.push(part).drop_last() =~= parts);
    if let JsonView::Text(text) = part {
        assert(texts_among(parts.push(part)) =~= texts_among(parts).push(text));
        assert(texts_among(parts).push(text).drop_last() =~= texts_among(parts));
    } else {
        assert(texts_among(parts.push(part)) =~= texts_among(parts));
    }
}

proof fn lemma_no_texts(parts: Seq<JsonView>)
    ensures
        texts_among(parts).len() == 0 <==> (forall|i: int|
            0 <= i < parts.len() ==> #[trigger] parts[i] !is Text),
    decreases parts.len(),
{
    reveal(Seq::filter);
    if parts.len() > 0 {
        lemma_no_texts(parts.drop_last());
        assert forall|i: int| 0 <= i < parts.drop_last().len() implies parts.drop_last()[i]
            == #[trigger] parts[i] by {}
        assert(parts.last() == parts[parts.len() - 1]);
        if forall|i: int| 0 <= i < parts.len() ==> #[trigger] parts[i] !is Text {
            assert forall|i: int| 0 <= i < parts.drop_last().len() implies
                #[trigger] parts.drop_last()[i] !is Text by {
                assert(parts[i] !is Text);
            }
        }
        if forall|i: int| 0 <= i < parts.drop_last().len() ==> #[trigger] parts.drop_last()[i]
            !is Text {
            if parts.last() !is Text {
                assert forall|i: int| 0 <= i < parts.len() implies #[trigger] parts[i] !is Text by {
                    if i < parts.len() - 1 {
                        assert(parts.drop_last()[i] !is Text);
                    }
                }
            }
        }
    }
}

/// A summary that is no list is empty.
pub proof fn no_list_is_no_summary(item: JsonView, summary: JsonView)
    requires
        lacks(item, "summary"@) || (holds(item, "summary"@, summary) && summary !is Array),
    ensures
        summary_text(item).len() == 0,
{
}

/// Of other items that are complete nothing is told.
pub proof fn other_complete_items_are_left_alone(
    state: ConnectionModel,
    message: JsonView,
    params: JsonView,
    item: JsonView,
)
    requires
        has_text(message, "method"@, "item/completed"@),
        params_are(message, params),
        lacks(params, "item"@) || (holds(params, "item"@, item) && !has_text(
            item,
            "type"@,
            "agentMessage"@,
        ) && !has_text(item, "type"@, "reasoning"@)),
    ensures
        notifications_of_server(state, message).len() == 0,
        stream_notification(message, state.sequence) is None,
        state_after_server(state, message) == state,
{
    lemma_methods();
}

/// Of every other message of the server nothing is told.
pub proof fn other_server_messages_are_left_alone(
    state: ConnectionModel,
    message: JsonView,
    method: Seq<char>,
)
    requires
        lacks_text(message, "method"@) || has_text(message, "method"@, method),
        method != "item/agentMessage/delta"@,
        method != "item/reasoning/summaryTextDelta"@,
        method != "item/reasoning/textDelta"@,
        method != "item/commandExecution/outputDelta"@,
        method != "item/commandExecution/terminalInteraction"@,
        method != "item/commandExecution/requestApproval"@,
        method != "item/fileChange/requestApproval"@,
        method != "item/permissions/requestApproval"@,
        method != "mcpServer/elicitation/request"@,
        method != "turn/diff/updated"@,
        method != "item/completed"@,
    ensures
        notifications_of_server(state, message).len() == 0,
        stream_notification(message, state.sequence) is None,
        permission_request(message) is None,
        pending_after_request(message, state.pending) == state.pending,
        state_after_server(state, message) == state,
{
}

/// A request for permission is told with its kind, under its id and with its
/// parameters as they came, and waits for the thread that it names.
pub proof fn a_permission_request_is_told(
    state: ConnectionModel,
    message: JsonView,
    id: JsonView,
    params: JsonView,
    method: Seq<char>,
    kind: ExternalPermissionRequestKind,
)
    requires
        has_text(message, "method"@, method),
        params_are(message, params),
        holds(message, "id"@, id),
        ({
            ||| method == "item/commandExecution/requestApproval"@
                && kind == ExternalPermissionRequestKind::CommandExecution
            ||| method == "item/fileChange/requestApproval"@
                && kind == ExternalPermissionRequestKind::FileChange
            ||| method == "item/permissions/requestApproval"@
                && kind == ExternalPermissionRequestKind::Permissions
            ||| method == "mcpServer/elicitation/request"@
                && kind == ExternalPermissionRequestKind::McpElicitation
        }),
    ensures
        notifications_of_server(state, message).len() == 1,
        notifications_of_server(state, message)[0] matches NotificationModel::PermissionRequest(
            request,
        ) && {
            &&& request.kind == kind
            &&& request.request_id == id_text(id)
            &&& request.payload == params
            &&& text_or_empty(params, "threadId"@, request.thread_id)
            &&& text_if_any(params, "turnId"@, request.turn_id)
            &&& permission_request(message) == Some(request)
            &&& state_after_server(state, message).pending == state.pending.insert(
                id_text(id),
                request.thread_id,
            )
            &&& pending_after_request(message, state.pending) == state.pending.insert(
                id_text(id),
                request.thread_id,
            )
        },
        state_after_server(state, message).sequence == state.sequence,
{
    lemma_methods();
}

/// Without an id nobody asks for anything.
pub proof fn a_request_has_an_id(state: ConnectionModel, message: JsonView)
    requires
        lacks(message, "id"@),
    ensures
        permission_request(message) is None,
        pending_after_request(message, state.pending) == state.pending,
        state_after_server(state, message).pending == state.pending,
{
}

// ---------------------------------------------------------------------------
// What the client sends
// ---------------------------------------------------------------------------

/// Whichever queue a message puts its input into, the item that is told of when
/// it comes and when it goes has the input that the message has, and is echoed
/// as that input in JSON.
pub proof fn input_is_told_and_echoed(
    state: ConnectionModel,
    message: JsonView,
    params: JsonView,
    method: Seq<char>,
    queue_kind: ExternalInputQueueKind,
    item_id: Seq<char>,
    input: JsonView,
    items: Seq<UserInputModel>,
)
    requires
        has_text(message, "method"@, method),
        params_are(message, params),
        ({
            ||| method == "turn/start"@ && queue_kind == ExternalInputQueueKind::Interactive
            ||| method == "turn/steer"@ && queue_kind == ExternalInputQueueKind::Steer
        }),
    ensures
        ({
            let told = client_notifications(message, item_id, state.sequence);
            let all = notifications_of_client(state, message, item_id);
            &&& told.len() == 3
            &&& all.len() >= 3
            &&& all[0] == told[0] && all[1] == told[1] && all[2] == told[2]
            &&& told[0] matches NotificationModel::QueueUpdated(came)
            &&& told[1] matches NotificationModel::StreamDelta(echo)
            &&& told[2] matches NotificationModel::QueueUpdated(went)
            &&& came.operation == ExternalQueueOperation::Enqueued
            &&& went.operation == ExternalQueueOperation::Dequeued
            &&& came.item matches Some(item)
            &&& went.item == came.item
            &&& came.thread_id == item.thread_id && went.thread_id == item.thread_id
            &&& came.queue_kind == queue_kind && went.queue_kind == queue_kind
            &&& item.queue_item_id == item_id
            &&& item.queue_kind == queue_kind
            &&& item.client_message_id is None
            &&& text_or_empty(params, "threadId"@, item.thread_id)
            &&& text_if_any(params, "expectedTurnId"@, item.expected_turn_id)
            &&& holds(params, "input"@, input) && Vec::<UserInput>::decode(input) == Some(items)
                ==> item.input == items
            &&& holds(params, "input"@, input) && Vec::<UserInput>::decode(input) is None
                ==> item.input.len() == 0
            &&& lacks(params, "input"@) ==> item.input.len() == 0
            &&& echo.channel == ExternalStreamChannel::InputEcho
            &&& echo.thread_id == item.thread_id
            &&& echo.turn_id == item.expected_turn_id
            &&& echo.delta == input_text(item.input)
            &&& state.sequence < u64::MAX ==> echo.sequence == state.sequence + 1
            &&& state.sequence == u64::MAX ==> echo.sequence == u64::MAX
            &&& sequence_after_client(message, state.sequence) == echo.sequence
            &&& state_after_client(state, message).sequence == echo.sequence
        }),
        message_queue(message) == Some(queue_kind),
{
    lemma_methods();
}

/// Every other message of the client puts nothing into a queue.
pub proof fn other_messages_queue_nothing(
    state: ConnectionModel,
    message: JsonView,
    method: Seq<char>,
    item_id: Seq<char>,
)
    requires
        lacks_text(message, "method"@) || has_text(message, "method"@, method),
        method != "turn/start"@,
        method != "turn/steer"@,
    ensures
        message_queue(message) is None,
        client_notifications(message, item_id, state.sequence).len() == 0,
        notifications_of_client(state, message, item_id) == resolved_notifications(
            message,
            state.pending,
        ),
        sequence_after_client(message, state.sequence) == state.sequence,
        state_after_client(state, message).sequence == state.sequence,
{
    assert(notifications_of_client(state, message, item_id) =~= resolved_notifications(
        message,
        state.pending,
    ));
}

/// Input is what a list decodes to, or nothing where it does not decode.
pub proof fn input_is_what_decodes(input: JsonView, items: Seq<UserInputModel>)
    ensures
        Vec::<UserInput>::decode(input) == Some(items) ==> input_items(Some(input)) == items,
        Vec::<UserInput>::decode(input) is None ==> input_items(Some(input)).len() == 0,
        input_items(None).len() == 0,
{
}

/// A list of text items is read as it is, in order; with anything else in it, a
/// list is no input.
pub proof fn input_is_what_the_list_has(
    items: Seq<JsonView>,
    texts: Seq<Seq<char>>,
    elements: Seq<Seq<JsonView>>,
    other: JsonView,
)
    requires
        items.len() == texts.len(),
        items.len() == elements.len(),
        other !is Array,
    ensures
        (forall|i: int|
            0 <= i < items.len() ==> has_text(#[trigger] items[i], "type"@, "text"@) && has_text(
                items[i],
                "text"@,
                texts[i],
            ) && (holds(items[i], "text_elements"@, JsonView::Array(elements[i])) || (lacks(
                items[i],
                "text_elements"@,
            ) && elements[i].len() == 0))) ==> {
            let read = input_items(Some(JsonView::Array(items)));
            &&& read.len() == items.len()
            &&& forall|i: int|
                0 <= i < read.len() ==> #[trigger] read[i] == (UserInputModel::Text {
                    text: texts[i],
                    text_elements: elements[i],
                })
        },
        (exists|i: int|
            0 <= i < items.len() && (!has_text(#[trigger] items[i], "type"@, "text"@)
                || lacks_text(items[i], "text"@))) ==> input_items(
            Some(JsonView::Array(items)),
        ).len() == 0,
        input_items(Some(other)).len() == 0,
        input_items(None).len() == 0,
{
    if forall|i: int|
        0 <= i < items.len() ==> has_text(#[trigger] items[i], "type"@, "text"@) && has_text(
            items[i],
            "text"@,
            texts[i],
        ) && (holds(items[i], "text_elements"@, JsonView::Array(elements[i])) || (lacks(
            items[i],
            "text_elements"@,
        ) && elements[i].len() == 0)) {
        assert forall|i: int| 0 <= i < items.len() implies UserInput::decode(#[trigger] items[i])
            == Some(UserInputModel::Text { text: texts[i], text_elements: elements[i] }) by {
            assert(has_text(items[i], "type"@, "text"@));
            user_input_is_read(items[i], texts[i], elements[i]);
        }
    }
    if exists|i: int|
        0 <= i < items.len() && (!has_text(#[trigger] items[i], "type"@, "text"@) || lacks_text(
            items[i],
            "text"@,
        )) {
        let i = choose|i: int|
            0 <= i < items.len() && (!has_text(#[trigger] items[i], "type"@, "text"@) || lacks_text(
                items[i],
                "text"@,
            ));
        assert(UserInput::decode(items[i]) is None);
        assert(Vec::<UserInput>::decode(JsonView::Array(items)) is None);
    }
}

/// Input without marked elements is always echoed so that it reads back exactly.
pub proof fn plain_input_fits(items: Seq<UserInputModel>)
    requires
        forall|i: int| 0 <= i < items.len() ==> (#[trigger] items[i])->text_elements.len() == 0,
    ensures
        input_fits(items, true),
        input_fits(items, false),
{
}

/// What is told of input when it comes reads in the echo as that input: item by
/// item and in order, with its text character for character.
pub proof fn an_echo_reads_as_the_input(
    told: Seq<NotificationModel>,
    came: QueueUpdatedModel,
    item: QueuedInputModel,
)
    requires
        echo_tells_input(told),
        told[0] == NotificationModel::QueueUpdated(came),
        came.item == Some(item),
    ensures
        told[1] matches NotificationModel::StreamDelta(echo) && {
            &&& input_fits(item.input, true) ==> parsed_json(echo.delta) == Some(
                Vec::<UserInput>::encode(item.input),
            )
            &&& (forall|i: int|
                0 <= i < item.input.len() ==> (#[trigger] item.input[i])->text_elements.len() == 0)
                ==> parsed_json(echo.delta) is Some && (parsed_json(echo.delta)->0
                matches JsonView::Array(read) && read.len() == item.input.len() && forall|i: int|
                0 <= i < read.len() ==> has_text(#[trigger] read[i], "type"@, "text"@) && has_text(
                    read[i],
                    "text"@,
                    item.input[i]->Text_text,
                ))
        },
{
    reveal_strlit("type");
    reveal_strlit("text");
    reveal_strlit("text_elements");
    assert("type"@[1] != "text"@[1]);
    assert("type"@.len() != "text_elements"@.len());
    assert("text"@.len() != "text_elements"@.len());
}

/// Input that is queued without an id of its own gets one that is drawn for it,
/// and is told as any other.
pub proof fn input_gets_an_id(
    told: Seq<NotificationModel>,
    message: JsonView,
    sequence: u64,
) -> (item_id: Seq<char>)
    requires
        client_notifications_for_some_id(told, message, sequence),
    ensures
        told == client_notifications(message, item_id, sequence),
        message_queue(message) is Some ==> item_id.len() == 38 && item_id[0] == 'q' && item_id[1]
            == '_' && is_uuid_v4(item_id.skip(2)),
{
    reveal_strlit("q_");
    if message_queue(message) is Some {
        let uuid = choose|uuid: Seq<char>| #[trigger]
            is_uuid_v4(uuid) && told == client_notifications(
                message,
                queue_item_id(uuid),
                sequence,
            );
        assert(queue_item_id(uuid).skip(2) =~= uuid);
        queue_item_id(uuid)
    } else {
        assert(told =~= client_notifications(message, Seq::empty(), sequence));
        Seq::empty()
    }
}

/// The text of a list of items is that of the items, each with its members in
/// order, in brackets and with commas between them.
pub proof fn input_is_written_in_order(
    items: Seq<UserInputModel>,
    text: Seq<char>,
    elements: Seq<JsonView>,
)
    ensures
        (UserInputModel::Text { text, text_elements: elements }).entries() == seq![
            ("type"@, JsonView::Text("text"@)),
            ("text"@, JsonView::Text(text)),
            ("text_elements"@, JsonView::Array(elements)),
        ],
        input_text(items) == "["@ + joined(
            Seq::new(items.len(), |i: int| object_text(items[i].entries())),
            ","@,
        ) + "]"@,
{
    assert(Vec::<JsonValue>::encode(elements)->Array_0 =~= elements);
    assert(items.map_values(|item: UserInputModel| object_text(item.entries()))
        =~= Seq::new(items.len(), |i: int| object_text(items[i].entries())));
}

/// An answer with a result that has a decision grants what was asked if and only
/// if the decision begins with `accept` or is to apply an amendment of the network
/// policy; an answer with an error never does.
pub proof fn a_decision_grants_or_not(
    message: JsonView,
    id: JsonView,
    result: JsonView,
    decision: Seq<char>,
    pending: Map<Seq<char>, Seq<char>>,
)
    requires
        holds(message, "id"@, id),
        holds(message, "result"@, result),
        has_text(result, "decision"@, decision),
        pending.dom().contains(id_text(id)),
    ensures
        permission_resolved(message, pending) matches Some(resolved) && {
            &&& resolved.thread_id == pending[id_text(id)]
            &&& resolved.request_id == id_text(id)
            &&& resolved.decision == Some(decision)
            &&& lacks(message, "error"@) ==> (resolved.approved <==> {
                ||| decision.len() >= 6 && decision.subrange(0, 6) == "accept"@
                ||| decision == "applyNetworkPolicyAmendment"@
            })
            &&& !lacks(message, "error"@) ==> !resolved.approved
        },
        grants(Some(result)) <==> {
            ||| decision.len() >= 6 && decision.subrange(0, 6) == "accept"@
            ||| decision == "applyNetworkPolicyAmendment"@
        },
        decision_text(Some(result)) == Some(decision),
{
    reveal_strlit("accept");
    if decision.len() >= 6 && decision.subrange(0, 6) == "accept"@ {
        assert("accept"@ =~= decision.subrange(0, "accept"@.len() as int));
    }
}

/// Without a decision, an action grants what was asked if and only if it is to
/// accept; without either, granting any permissions does.
pub proof fn an_action_grants_or_not(
    message: JsonView,
    id: JsonView,
    result: JsonView,
    action: Seq<char>,
    pending: Map<Seq<char>, Seq<char>>,
)
    requires
        holds(message, "id"@, id),
        holds(message, "result"@, result),
        lacks_text(result, "decision"@),
        has_text(result, "action"@, action) || lacks_text(result, "action"@),
        pending.dom().contains(id_text(id)),
    ensures
        permission_resolved(message, pending) matches Some(resolved) && {
            &&& resolved.thread_id == pending[id_text(id)]
            &&& resolved.request_id == id_text(id)
            &&& text_if_any(result, "action"@, resolved.decision)
            &&& lacks(message, "error"@) && has_text(result, "action"@, action) ==> (
            resolved.approved <==> action == "accept"@)
            &&& lacks(message, "error"@) && lacks_text(result, "action"@) ==> (resolved.approved
                <==> !lacks(result, "permissions"@))
            &&& !lacks(message, "error"@) ==> !resolved.approved
        },
        has_text(result, "action"@, action) ==> (grants(Some(result)) <==> action == "accept"@),
        lacks_text(result, "action"@) ==> (grants(Some(result)) <==> !lacks(
            result,
            "permissions"@,
        )),
        text_if_any(result, "action"@, decision_text(Some(result))),
{
}

/// An error without a result denies without a decision.
pub proof fn an_error_denies(
    message: JsonView,
    id: JsonView,
    pending: Map<Seq<char>, Seq<char>>,
)
    requires
        holds(message, "id"@, id),
        lacks(message, "result"@),
        !lacks(message, "error"@),
        pending.dom().contains(id_text(id)),
    ensures
        permission_resolved(message, pending) matches Some(resolved) && !resolved.approved
            && resolved.decision is None && resolved.thread_id == pending[id_text(id)]
            && resolved.request_id == id_text(id),
        !grants(None),
        decision_text(None) is None,
{
}

/// An answer settles the request with its id and no other, and tells of it once,
/// after anything else that the message is.
pub proof fn an_answer_settles_its_request(
    state: ConnectionModel,
    message: JsonView,
    id: JsonView,
    item_id: Seq<char>,
)
    requires
        holds(message, "id"@, id),
        !lacks(message, "result"@) || !lacks(message, "error"@),
    ensures
        answered_id(message) == Some(id_text(id)),
        state_after_client(state, message).pending == state.pending.remove(id_text(id)),
        pending_after_answer(message, state.pending) == state.pending.remove(id_text(id)),
        permission_resolved(message, state.pending) is Some <==> state.pending.dom().contains(
            id_text(id),
        ),
        permission_resolved(message, state.pending) matches Some(resolved) ==> {
            let all = notifications_of_client(state, message, item_id);
            &&& all.len() == client_notifications(message, item_id, state.sequence).len() + 1
            &&& all.last() == NotificationModel::PermissionResolved(resolved)
            &&& resolved_notifications(message, state.pending) == seq![
                NotificationModel::PermissionResolved(resolved),
            ]
        },
        permission_resolved(message, state.pending) is None ==> {
            &&& resolved_notifications(message, state.pending).len() == 0
            &&& notifications_of_client(state, message, item_id).len() == client_notifications(
                message,
                item_id,
                state.sequence,
            ).len()
        },
{
}

/// What has no id, or neither a result nor an error, answers nothing.
pub proof fn what_is_no_answer(state: ConnectionModel, message: JsonView)
    requires
        lacks(message, "id"@) || (lacks(message, "result"@) && lacks(message, "error"@)),
    ensures
        answered_id(message) is None,
        permission_resolved(message, state.pending) is None,
        resolved_notifications(message, state.pending).len() == 0,
        pending_after_answer(message, state.pending) == state.pending,
        state_after_client(state, message).pending == state.pending,
{
}

// ---------------------------------------------------------------------------
// What goes out
// ---------------------------------------------------------------------------

/// Notifications are what each of them is, in order.
pub proof fn what_notifications_are(
    notifications: Seq<AdapterNotification>,
    one: AdapterNotification,
)
    ensures
        notification_models(notifications).len() == notifications.len(),
        forall|i: int|
            0 <= i < notifications.len() ==> #[trigger] notification_models(notifications)[i]
                == notifications[i].model(),
        opt_notification(Some(one)) == Some(one.model()),
        opt_notification(None) is None,
{
}

/// A notification goes out under the method of its kind, with its own JSON form
/// for parameters and nothing else, as one line.
pub proof fn a_notification_goes_out(
    queue_updated: ExternalQueueUpdatedNotification,
    stream_delta: ExternalStreamDeltaNotification,
    permission_request: ExternalPermissionRequestNotification,
    permission_resolved: ExternalPermissionResolvedNotification,
    diff_chunk: ExternalDiffChunkNotification,
    any: AdapterNotification,
)
    ensures
        ({
            let sent = AdapterNotification::QueueUpdated(queue_updated).model();
            &&& sent == NotificationModel::QueueUpdated(queue_updated.model())
            &&& has_text(sent.message(), "method"@, "adapter/queueUpdated"@)
            &&& holds(
                sent.message(),
                "params"@,
                ExternalQueueUpdatedNotification::encode(queue_updated.model()),
            )
            &&& sent.method() == "adapter/queueUpdated"@
            &&& sent.params() == ExternalQueueUpdatedNotification::encode(queue_updated.model())
        }),
        ({
            let sent = AdapterNotification::StreamDelta(stream_delta).model();
            &&& sent == NotificationModel::StreamDelta(stream_delta.model())
            &&& has_text(sent.message(), "method"@, "adapter/streamDelta"@)
            &&& holds(
                sent.message(),
                "params"@,
                ExternalStreamDeltaNotification::encode(stream_delta.model()),
            )
            &&& sent.method() == "adapter/streamDelta"@
            &&& sent.params() == ExternalStreamDeltaNotification::encode(stream_delta.model())
        }),
        ({
            let sent = AdapterNotification::PermissionRequest(permission_request).model();
            &&& sent == NotificationModel::PermissionRequest(permission_request.model())
            &&& has_text(sent.message(), "method"@, "adapter/permissionRequest"@)
            &&& holds(
                sent.message(),
                "params"@,
                ExternalPermissionRequestNotification::encode(permission_request.model()),
            )
            &&& sent.method() == "adapter/permissionRequest"@
            &&& sent.params()
                == ExternalPermissionRequestNotification::encode(permission_request.model())
        }),
        ({
            let sent = AdapterNotification::PermissionResolved(permission_resolved).model();
            &&& sent == NotificationModel::PermissionResolved(permission_resolved.model())
            &&& has_text(sent.message(), "method"@, "adapter/permissionResolved"@)
            &&& holds(
                sent.message(),
                "params"@,
                ExternalPermissionResolvedNotification::encode(permission_resolved.model()),
            )
            &&& sent.method() == "adapter/permissionResolved"@
            &&& sent.params()
                == ExternalPermissionResolvedNotification::encode(permission_resolved.model())
        }),
        ({
            let sent = AdapterNotification::DiffChunk(diff_chunk).model();
            &&& sent == NotificationModel::DiffChunk(diff_chunk.model())
            &&& has_text(sent.message(), "method"@, "adapter/diffChunk"@)
            &&& holds(
                sent.message(),
                "params"@,
                ExternalDiffChunkNotification::encode(diff_chunk.model()),
            )
            &&& sent.method() == "adapter/diffChunk"@
            &&& sent.params() == ExternalDiffChunkNotification::encode(diff_chunk.model())
        }),
        any.model().message() matches JsonView::Object(members) && members.dom()
            == Set::<Seq<char>>::empty().insert("method"@).insert("params"@),
        any.model().line() == written_json(any.model().message()).push('\n'),
{
    reveal_strlit("method");
    reveal_strlit("params");
    assert("method"@[0] != "params"@[0]);
}

} // verus!
