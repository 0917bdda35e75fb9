//! What the adapter reads out of the JSON-RPC messages that pass through it,
//! and which notifications of its own it makes of them.

use vstd::prelude::*;
use vstd::string::*;

use crate::ids::{is_uuid_v4, new_queue_item_id, queue_item_id};
use crate::json::{
    entries_view, fits_within, items_view, lemma_exact_fits, member, member_text, members_fit,
    object_text, opt_string_view, opt_view, or_empty, parse_json, parsed_json, text_of,
    values_match, with_item, write_json, write_members, FloatMatch, JsonNumber, JsonNumberView,
    JsonValue, JsonView,
};
use crate::notification::{elements_fit, AdapterNotification, NotificationModel};
use crate::pending::{PendingPermission, PendingPermissions};
use crate::protocol::{
    DiffChunkModel, ExternalDiffChunkNotification, ExternalDiffFormat, ExternalInputQueueKind,
    ExternalPermissionRequestKind, ExternalPermissionRequestNotification,
    ExternalPermissionResolvedNotification, ExternalQueueOperation,
    ExternalQueueUpdatedNotification, ExternalQueuedInput, ExternalStreamChannel,
    ExternalStreamDeltaNotification, PermissionRequestModel, PermissionResolvedModel,
    QueueUpdatedModel, QueuedInputModel, StreamDeltaModel, UserInput, UserInputModel,
};
use crate::text::{
    begins_with, decimal, decimal_i64, decimal_u64, join, joined, same_text, texts_view,
};
use crate::wire::Wire;

verus! {

// ---------------------------------------------------------------------------
// Messages
// ---------------------------------------------------------------------------

/// Whether a value is a JSON-RPC message: an object with a method, an id, a
/// result or an error.
pub open spec fn is_jsonrpc(value: JsonView) -> bool {
    ||| member(value, "method"@) is Some
    ||| member(value, "id"@) is Some
    ||| member(value, "result"@) is Some
    ||| member(value, "error"@) is Some
}

/// Whether a value is a JSON-RPC message.
pub fn is_jsonrpc_value(value: &JsonValue) -> (r: bool)
    ensures
        r == is_jsonrpc(value@),
{
    let has_method = value.get("method").is_some();
    let has_id = value.get("id").is_some();
    let has_result = value.get("result").is_some();
    let has_error = value.get("error").is_some();
    has_method || has_id || has_result || has_error
}

/// The JSON-RPC message that a text holds, if it holds one.
pub open spec fn jsonrpc_message(text: Seq<char>) -> Option<JsonView> {
    match parsed_json(text) {
        Some(value) => if is_jsonrpc(value) {
            Some(value)
        } else {
            None
        },
        None => None,
    }
}

/// Reads the JSON-RPC message that a text holds, if it holds one.
pub fn parse_jsonrpc_message(raw: &str) -> (r: Option<JsonValue>)
    ensures
        match r {
            Some(value) => jsonrpc_message(raw@) == Some(value@),
            None => jsonrpc_message(raw@) is None,
        },
{
    match parse_json(raw) {
        Some(value) => if is_jsonrpc_value(&value) {
            Some(value)
        } else {
            None
        },
        None => None,
    }
}

/// Whether a text holds a JSON-RPC message.
pub fn is_valid_jsonrpc_message(raw: &str) -> (r: bool)
    ensures
        r == (jsonrpc_message(raw@) is Some),
{
    parse_jsonrpc_message(raw).is_some()
}

/// The parameters of a message, `null` where it has none.
pub open spec fn params_of(message: JsonView) -> JsonView {
    match member(message, "params"@) {
        Some(params) => params,
        None => JsonView::Null,
    }
}

fn read_params(message: &JsonValue) -> (r: JsonValue)
    ensures
        r@ == params_of(message@),
{
    match message.get("params") {
        Some(params) => params.clone(),
        None => JsonValue::Null,
    }
}

/// The text by which a request is known from its id: a text is taken as it is
/// and a number as it is written, and nothing else tells requests apart.
pub open spec fn id_text(id: JsonView) -> Seq<char> {
    match id {
        JsonView::Text(t) => t,
        JsonView::Number(JsonNumberView::Int(n)) => decimal(n),
        JsonView::Number(JsonNumberView::Float(t)) => t,
        _ => Seq::empty(),
    }
}

/// The text by which a request is known from its id.
pub fn jsonrpc_id_to_string(value: &JsonValue) -> (r: String)
    ensures
        r@ == id_text(value@),
{
    match value {
        JsonValue::Text(t) => t.clone(),
        JsonValue::Number(JsonNumber::PosInt(n)) => decimal_u64(*n),
        JsonValue::Number(JsonNumber::NegInt(n)) => decimal_i64(*n),
        JsonValue::Number(JsonNumber::Float(f)) => f.text().to_string(),
        _ => String::new(),
    }
}

// ---------------------------------------------------------------------------
// Stream pieces
// ---------------------------------------------------------------------------

/// The sequence number after `sequence`; the last one is its own successor.
pub open spec fn next_sequence(sequence: u64) -> u64 {
    if sequence < u64::MAX {
        (sequence + 1) as u64
    } else {
        u64::MAX
    }
}

/// What a piece of a stream says: what `delta` is, or what `stdin` is where
/// there is no `delta`.
pub open spec fn delta_text(params: JsonView) -> Seq<char> {
    or_empty(
        text_of(
            match member(params, "delta"@) {
                Some(delta) => Some(delta),
                None => member(params, "stdin"@),
            },
        ),
    )
}

/// The piece of a stream with the given text that the parameters of a message
/// place in a thread and perhaps in a turn.
pub open spec fn placed_delta(
    params: JsonView,
    channel: ExternalStreamChannel,
    delta: Seq<char>,
    sequence: u64,
) -> StreamDeltaModel {
    StreamDeltaModel {
        thread_id: or_empty(member_text(params, "threadId"@)),
        turn_id: member_text(params, "turnId"@),
        channel,
        sequence: next_sequence(sequence),
        delta,
    }
}

/// A piece of a stream, with the next sequence number.
pub fn next_stream_delta(
    thread_id: String,
    turn_id: Option<String>,
    channel: ExternalStreamChannel,
    delta: String,
    sequence: &mut u64,
) -> (r: ExternalStreamDeltaNotification)
    ensures
        *final(sequence) == next_sequence(*old(sequence)),
        r.model() == (StreamDeltaModel {
            thread_id: thread_id@,
            turn_id: opt_string_view(turn_id),
            channel,
            sequence: next_sequence(*old(sequence)),
            delta: delta@,
        }),
{
    *sequence = sequence.saturating_add(1);
    ExternalStreamDeltaNotification { thread_id, turn_id, channel, sequence: *sequence, delta }
}

/// The piece of a stream that the parameters of a message are.
pub fn emit_stream_delta(
    params: &JsonValue,
    channel: ExternalStreamChannel,
    sequence: &mut u64,
) -> (r: ExternalStreamDeltaNotification)
    ensures
        *final(sequence) == next_sequence(*old(sequence)),
        r.model() == placed_delta(params@, channel, delta_text(params@), *old(sequence)),
{
    let source = match params.get("delta") {
        Some(delta) => Some(delta),
        None => params.get("stdin"),
    };
    let delta = match source {
        Some(JsonValue::Text(t)) => t.clone(),
        _ => String::new(),
    };
    next_stream_delta(
        params.get_text_or_empty("threadId"),
        params.get_text("turnId"),
        channel,
        delta,
        sequence,
    )
}

// ---------------------------------------------------------------------------
// Notifications made of what the server sends
// ---------------------------------------------------------------------------

/// The channel of the messages whose parameters are a piece of a stream.
pub open spec fn delta_channel(method: Seq<char>) -> Option<ExternalStreamChannel> {
    if method == "item/agentMessage/delta"@ {
        Some(ExternalStreamChannel::OutputText)
    } else if method == "item/reasoning/summaryTextDelta"@ {
        Some(ExternalStreamChannel::ReasoningSummary)
    } else if method == "item/reasoning/textDelta"@ {
        Some(ExternalStreamChannel::ReasoningContent)
    } else if method == "item/commandExecution/outputDelta"@ {
        Some(ExternalStreamChannel::TerminalOutput)
    } else if method == "item/commandExecution/terminalInteraction"@ {
        Some(ExternalStreamChannel::InputEcho)
    } else {
        None
    }
}

fn read_delta_channel(method: &str) -> (r: Option<ExternalStreamChannel>)
    ensures
        r == delta_channel(method@),
{
    if same_text(method, "item/agentMessage/delta") {
        Some(ExternalStreamChannel::OutputText)
    } else if same_text(method, "item/reasoning/summaryTextDelta") {
        Some(ExternalStreamChannel::ReasoningSummary)
    } else if same_text(method, "item/reasoning/textDelta") {
        Some(ExternalStreamChannel::ReasoningContent)
    } else if same_text(method, "item/commandExecution/outputDelta") {
        Some(ExternalStreamChannel::TerminalOutput)
    } else if same_text(method, "item/commandExecution/terminalInteraction") {
        Some(ExternalStreamChannel::InputEcho)
    } else {
        None
    }
}

/// The texts among the values, in their order.
pub open spec fn texts_among(values: Seq<JsonView>) -> Seq<Seq<char>> {
    values.filter(|v: JsonView| v is Text).map_values(|v: JsonView| v->Text_0)
}

/// The summary of a piece of reasoning: its texts, one per line.
pub open spec fn summary_text(item: JsonView) -> Seq<char> {
    match member(item, "summary"@) {
        Some(JsonView::Array(parts)) => joined(texts_among(parts), "\n"@),
        _ => Seq::empty(),
    }
}

proof fn lemma_texts_among_push(values: Seq<JsonView>, value: JsonView)
    ensures
        texts_among(values.push(value)) == (if let JsonView::Text(t) = value {
            texts_among(values).push(t)
        } else {
            texts_among(values)
        }),
{
    let is_text = |v: JsonView| v is Text;
    reveal(Seq::filter);
    assert(values.push(value).drop_last() =~= values);
    assert(texts_among(values.push(value)) =~= (if let JsonView::Text(t) = value {
        texts_among(values).push(t)
    } else {
        texts_among(values)
    }));
}

fn read_summary(item: &JsonValue) -> (r: String)
    ensures
        r@ == summary_text(item@),
{
    match item.get("summary") {
        Some(JsonValue::Array(parts)) => {
            let ghost views = items_view(parts@);
            let mut texts: Vec<String> = Vec::new();
            proof {
                reveal(Seq::filter);
                assert(texts_view(texts@) =~= texts_among(views.take(0)));
            }
            for i in 0..parts.len()
                invariant
                    views == items_view(parts@),
                    texts_view(texts@) == texts_among(views.take(i as int)),
            {
                proof {
                    lemma_texts_among_push(views.take(i as int), views[i as int]);
                    assert(views.take(i as int).push(views[i as int]) =~= views.take(i + 1));
                }
                let ghost before = texts@;
                match &parts[i] {
                    JsonValue::Text(t) => {
                        texts.push(t.clone());
                        assert(texts_view(texts@) =~= texts_view(before).push(t@));
                    },
                    _ => {},
                }
            }
            assert(views.take(parts@.len() as int) =~= views);
            join(&texts, "\n")
        },
        _ => String::new(),
    }
}

/// What a completed item adds to a stream: an agent's message its text, a piece
/// of reasoning its summary. Nothing is added where that is empty.
pub open spec fn completed_delta(params: JsonView) -> Option<(ExternalStreamChannel, Seq<char>)> {
    match member(params, "item"@) {
        Some(item) => match member_text(item, "type"@) {
            Some(kind) => if kind == "agentMessage"@ {
                let text = or_empty(member_text(item, "text"@));
                if text.len() > 0 {
                    Some((ExternalStreamChannel::OutputText, text))
                } else {
                    None
                }
            } else if kind == "reasoning"@ {
                let summary = summary_text(item);
                if summary.len() > 0 {
                    Some((ExternalStreamChannel::ReasoningSummary, summary))
                } else {
                    None
                }
            } else {
                None
            },
            None => None,
        },
        None => None,
    }
}

fn read_completed_delta(params: &JsonValue) -> (r: Option<(ExternalStreamChannel, String)>)
    ensures
        match r {
            Some((channel, text)) => completed_delta(params@) == Some((channel, text@)),
            None => completed_delta(params@) is None,
        },
{
    let item = match params.get("item") {
        Some(item) => item,
        None => {
            return None;
        },
    };
    let kind = match item.get_text("type") {
        Some(kind) => kind,
        None => {
            return None;
        },
    };
    if same_text(kind.as_str(), "agentMessage") {
        let text = item.get_text_or_empty("text");
        if text.as_str().is_empty() {
            None
        } else {
            Some((ExternalStreamChannel::OutputText, text))
        }
    } else if same_text(kind.as_str(), "reasoning") {
        let summary = read_summary(item);
        if summary.as_str().is_empty() {
            None
        } else {
            Some((ExternalStreamChannel::ReasoningSummary, summary))
        }
    } else {
        None
    }
}

/// The diff of a turn, as one complete piece.
pub open spec fn diff_chunk(params: JsonView) -> DiffChunkModel {
    DiffChunkModel {
        thread_id: or_empty(member_text(params, "threadId"@)),
        turn_id: or_empty(member_text(params, "turnId"@)),
        format: ExternalDiffFormat::UnifiedPatch,
        chunk_index: 0,
        complete: true,
        diff: or_empty(member_text(params, "diff"@)),
    }
}

/// What a message of the server is besides itself: a piece of a stream, or the
/// diff of a turn.
pub open spec fn stream_notification(message: JsonView, sequence: u64) -> Option<
    NotificationModel,
> {
    let params = params_of(message);
    match member_text(message, "method"@) {
        Some(method) => match delta_channel(method) {
            Some(channel) => Some(
                NotificationModel::StreamDelta(
                    placed_delta(params, channel, delta_text(params), sequence),
                ),
            ),
            None => if method == "turn/diff/updated"@ {
                Some(NotificationModel::DiffChunk(diff_chunk(params)))
            } else if method == "item/completed"@ {
                match completed_delta(params) {
                    Some((channel, delta)) => Some(
                        NotificationModel::StreamDelta(
                            placed_delta(params, channel, delta, sequence),
                        ),
                    ),
                    None => None,
                }
            } else {
                None
            },
        },
        None => None,
    }
}

/// The sequence number after a notification: a piece of a stream takes one.
pub open spec fn sequence_after(notification: Option<NotificationModel>, sequence: u64) -> u64 {
    if notification matches Some(NotificationModel::StreamDelta(_)) {
        next_sequence(sequence)
    } else {
        sequence
    }
}

/// What a notification is, where there is one.
pub open spec fn opt_notification(n: Option<AdapterNotification>) -> Option<NotificationModel> {
    match n {
        Some(n) => Some(n.model()),
        None => None,
    }
}

/// The notification that a message of the server is besides itself, if any.
pub fn maybe_emit_stream_notifications(value: &JsonValue, sequence: &mut u64) -> (r: Option<
    AdapterNotification,
>)
    ensures
        opt_notification(r) == stream_notification(value@, *old(sequence)),
        *final(sequence) == sequence_after(opt_notification(r), *old(sequence)),
{
    let method = match value.get_text("method") {
        Some(method) => method,
        None => {
            return None;
        },
    };
    let params = read_params(value);
    if let Some(channel) = read_delta_channel(method.as_str()) {
        return Some(
            AdapterNotification::StreamDelta(emit_stream_delta(&params, channel, sequence)),
        );
    }
    if same_text(method.as_str(), "turn/diff/updated") {
        return Some(
            AdapterNotification::DiffChunk(
                ExternalDiffChunkNotification {
                    thread_id: params.get_text_or_empty("threadId"),
                    turn_id: params.get_text_or_empty("turnId"),
                    format: ExternalDiffFormat::UnifiedPatch,
                    chunk_index: 0,
                    complete: true,
                    diff: params.get_text_or_empty("diff"),
                },
            ),
        );
    }
    if same_text(method.as_str(), "item/completed") {
        if let Some((channel, delta)) = read_completed_delta(&params) {
            let notification = next_stream_delta(
                params.get_text_or_empty("threadId"),
                params.get_text("turnId"),
                channel,
                delta,
                sequence,
            );
            return Some(AdapterNotification::StreamDelta(notification));
        }
    }
    None
}

// ---------------------------------------------------------------------------
// Notifications made of what the client sends
// ---------------------------------------------------------------------------

/// The queue that a message of the client puts input into.
pub open spec fn input_queue(method: Seq<char>) -> Option<ExternalInputQueueKind> {
    if method == "turn/start"@ {
        Some(ExternalInputQueueKind::Interactive)
    } else if method == "turn/steer"@ {
        Some(ExternalInputQueueKind::Steer)
    } else {
        None
    }
}

/// The queue that a message puts input into, if it does.
pub open spec fn message_queue(message: JsonView) -> Option<ExternalInputQueueKind> {
    match member_text(message, "method"@) {
        Some(method) => input_queue(method),
        None => None,
    }
}

fn read_message_queue(message: &JsonValue) -> (r: Option<ExternalInputQueueKind>)
    ensures
        r == message_queue(message@),
{
    match message.get_text("method") {
        Some(method) => if same_text(method.as_str(), "turn/start") {
            Some(ExternalInputQueueKind::Interactive)
        } else if same_text(method.as_str(), "turn/steer") {
            Some(ExternalInputQueueKind::Steer)
        } else {
            None
        },
        None => None,
    }
}

/// The input items that a value is the list of; none where it is no such list.
pub open spec fn input_items(value: Option<JsonView>) -> Seq<UserInputModel> {
    match value {
        Some(v) => match Vec::<UserInput>::decode(v) {
            Some(items) => items,
            None => Seq::empty(),
        },
        None => Seq::empty(),
    }
}

/// The input items that a value is the list of; none where it is no such list.
pub fn parse_input_items(input_value: Option<&JsonValue>) -> (r: Vec<UserInput>)
    ensures
        r.model() == input_items(opt_view(input_value)),
{
    let items = match input_value {
        Some(value) => Vec::<UserInput>::from_json(value),
        None => None,
    };
    match items {
        Some(items) => items,
        None => {
            let r: Vec<UserInput> = Vec::new();
            assert(r.model() =~= Seq::<UserInputModel>::empty());
            r
        },
    }
}

/// A list of input items as JSON text.
pub open spec fn input_text(items: Seq<UserInputModel>) -> Seq<char> {
    "["@ + joined(
        items.map_values(|item: UserInputModel| object_text(item.entries())),
        ","@,
    ) + "]"@
}

/// Whether the elements of all items fit into the text of the list.
pub open spec fn input_fits(items: Seq<UserInputModel>, exact: bool) -> bool {
    forall|i: int| 0 <= i < items.len() ==> elements_fit(#[trigger] items[i], 124, exact)
}

/// Whether the text of a list of input items reads as the list: as that very
/// list, if its elements are to be exact, and else as that list up to the
/// numbers in it that are no integers.
pub open spec fn input_reads_back(items: Seq<UserInputModel>) -> bool {
    let json = Vec::<UserInput>::encode(items);
    let read = parsed_json(input_text(items));
    &&& input_fits(items, false) ==> read is Some && values_match(json, read->0, FloatMatch::Any)
    &&& input_fits(items, true) ==> read == Some(json) && input_items(read) == items
}

proof fn lemma_members_fit(item: UserInputModel, members: Seq<(String, JsonValue)>, exact: bool)
    requires
        elements_fit(item, 124, exact),
        entries_view(members) == item.entries(),
    ensures
        members_fit(members, 125, exact),
{
    let elements = item->text_elements;
    let array = Vec::<JsonValue>::encode(elements);
    assert(fits_within(array, 125, exact)) by {
        let items = array->Array_0;
        assert forall|i: int| 0 <= i < items.len() implies fits_within(
            #[trigger] items[i],
            124,
            exact,
        ) by {
            assert(items[i] == elements[i]);
        }
    }
    assert forall|i: int| 0 <= i < members.len() implies fits_within(
        (#[trigger] members[i]).1@,
        125,
        exact,
    ) by {
        assert(entries_view(members)[i] == (members[i].0@, members[i].1@));
        assert(members.len() == item.entries().len() == 3);
        assert(i == 0 || i == 1 || i == 2);
        assert(item.entries()[i].1 == members[i].1@);
    }
}

proof fn lemma_exact_input_fits(items: Seq<UserInputModel>)
    requires
        input_fits(items, true),
    ensures
        input_fits(items, false),
{
    assert forall|i: int| 0 <= i < items.len() implies elements_fit(
        #[trigger] items[i],
        124,
        false,
    ) by {
        assert(elements_fit(items[i], 124, true));
        let elements = items[i]->text_elements;
        assert forall|j: int| 0 <= j < elements.len() implies fits_within(
            #[trigger] elements[j],
            124,
            false,
        ) by {
            lemma_exact_fits(elements[j], 124);
        }
    }
}

/// A list of input items as JSON text.
pub fn write_input(items: &Vec<UserInput>) -> (r: String)
    ensures
        r@ == input_text(items.model()),
        input_reads_back(items.model()),
{
    let none = JsonValue::Array(Vec::new());
    let empty = write_json(&none);
    let ghost models = items.model();
    let ghost texts = models.map_values(|item: UserInputModel| object_text(item.entries()));
    let ghost json = Vec::<UserInput>::encode(models)->Array_0;
    let ghost mut read: Seq<JsonView> = Seq::empty();
    let mut r = "[".to_string();
    proof {
        reveal_strlit("[");
        reveal_strlit("]");
        reveal_strlit("[]");
        assert(none@ == JsonView::Array(Seq::empty())) by {
            assert(items_view(Seq::<JsonValue>::empty()) =~= Seq::<JsonView>::empty());
        }
        assert("["@ + "]"@ =~= "[]"@);
        assert(parsed_json(empty@) == Some(none@));
        assert("["@ + joined(texts.take(0), ","@) =~= "["@);
    }
    for i in 0..items.len()
        invariant
            models == items.model(),
            texts == models.map_values(|item: UserInputModel| object_text(item.entries())),
            json == Vec::<UserInput>::encode(models)->Array_0,
            read.len() == i,
            r@ == "["@ + joined(texts.take(i as int), ","@),
            input_fits(models, false) ==> parsed_json(r@ + "]"@) == Some(JsonView::Array(read)),
            input_fits(models, false) ==> forall|j: int|
                0 <= j < i ==> values_match(#[trigger] json[j], read[j], FloatMatch::Any),
            input_fits(models, true) ==> forall|j: int|
                0 <= j < i ==> #[trigger] json[j] == read[j],
    {
        let members = items[i].members();
        let item = write_members(&members);
        let ghost begun = r@;
        if i > 0 {
            r.append(",");
        }
        r.append(item.as_str());
        proof {
            let model = models[i as int];
            assert(model == items@[i as int].model());
            assert(texts.take(i + 1).drop_last() =~= texts.take(i as int));
            assert(texts[i as int] == item@);
            assert(json[i as int] == UserInput::encode(model));
            assert(r@ =~= with_item(begun, read.len(), item@));
            assert(r@ =~= "["@ + joined(texts.take(i + 1), ","@));
            if input_fits(models, true) {
                lemma_exact_input_fits(models);
                assert(elements_fit(models[i as int], 124, true));
                lemma_members_fit(model, members@, true);
            }
            if input_fits(models, false) {
                assert(elements_fit(models[i as int], 124, false));
                lemma_members_fit(model, members@, false);
                assert(parsed_json(with_item(begun, read.len(), item@) + "]"@) == Some(
                    JsonView::Array(read.push(parsed_json(item@)->0)),
                ));
            }
            read = read.push(parsed_json(item@)->0);
        }
    }
    r.append("]");
    proof {
        assert(texts.take(items@.len() as int) =~= texts);
        if input_fits(models, true) {
            lemma_exact_input_fits(models);
            assert(read =~= json);
            Vec::<UserInput>::round_trip(models);
        }
    }
    r
}

/// Whether the echo of what a message puts into a queue reads as that.
pub open spec fn echo_reads_back(message: JsonView) -> bool {
    message_queue(message) is Some ==> input_reads_back(
        input_items(member(params_of(message), "input"@)),
    )
}

/// Whether the echo among notifications of queued input reads as the input of the
/// item that is told of: exactly, where its elements are to be exact, and else
/// up to the numbers in it that are no integers.
pub open spec fn echo_tells_input(notifications: Seq<NotificationModel>) -> bool {
    &&& notifications.len() >= 3
    &&& notifications[0] matches NotificationModel::QueueUpdated(came)
    &&& notifications[1] matches NotificationModel::StreamDelta(echo)
    &&& came.item matches Some(item)
    &&& input_fits(item.input, true) ==> parsed_json(echo.delta) == Some(
        Vec::<UserInput>::encode(item.input),
    )
    &&& input_fits(item.input, false) ==> parsed_json(echo.delta) is Some && values_match(
        Vec::<UserInput>::encode(item.input),
        parsed_json(echo.delta)->0,
        FloatMatch::Any,
    )
}

/// The item that a message puts into a queue.
pub open spec fn queued_input(
    message: JsonView,
    queue_kind: ExternalInputQueueKind,
    item_id: Seq<char>,
) -> QueuedInputModel {
    let params = params_of(message);
    QueuedInputModel {
        queue_item_id: item_id,
        thread_id: or_empty(member_text(params, "threadId"@)),
        queue_kind,
        input: input_items(member(params, "input"@)),
        expected_turn_id: member_text(params, "expectedTurnId"@),
        client_message_id: None,
    }
}

/// The news that an operation was done on a queued item.
pub open spec fn queue_updated(
    item: QueuedInputModel,
    operation: ExternalQueueOperation,
) -> NotificationModel {
    NotificationModel::QueueUpdated(
        QueueUpdatedModel {
            thread_id: item.thread_id,
            queue_kind: item.queue_kind,
            operation,
            item: Some(item),
        },
    )
}

/// The echo of a queued item in the stream.
pub open spec fn input_echo(item: QueuedInputModel, sequence: u64) -> NotificationModel {
    NotificationModel::StreamDelta(
        StreamDeltaModel {
            thread_id: item.thread_id,
            turn_id: item.expected_turn_id,
            channel: ExternalStreamChannel::InputEcho,
            sequence: next_sequence(sequence),
            delta: input_text(item.input),
        },
    )
}

/// What a message of the client that puts input into a queue is besides itself:
/// the item enters the queue, is echoed, and leaves the queue.
pub open spec fn client_notifications(
    message: JsonView,
    item_id: Seq<char>,
    sequence: u64,
) -> Seq<NotificationModel> {
    match message_queue(message) {
        Some(queue_kind) => {
            let item = queued_input(message, queue_kind, item_id);
            seq![
                queue_updated(item, ExternalQueueOperation::Enqueued),
                input_echo(item, sequence),
                queue_updated(item, ExternalQueueOperation::Dequeued),
            ]
        },
        None => Seq::empty(),
    }
}

/// The sequence number after the notifications of a client's message.
pub open spec fn sequence_after_client(message: JsonView, sequence: u64) -> u64 {
    if message_queue(message) is Some {
        next_sequence(sequence)
    } else {
        sequence
    }
}

/// What the notifications of a list are.
pub open spec fn notification_models(notifications: Seq<AdapterNotification>) -> Seq<
    NotificationModel,
> {
    notifications.map_values(|n: AdapterNotification| n.model())
}

/// The notifications that a message of the client is besides itself, where an
/// item that it puts into a queue gets the given id.
pub fn client_side_notifications(
    value: &JsonValue,
    queue_item_id: String,
    sequence: &mut u64,
) -> (r: Vec<AdapterNotification>)
    ensures
        notification_models(r@) == client_notifications(
            value@,
            queue_item_id@,
            *old(sequence),
        ),
        *final(sequence) == sequence_after_client(value@, *old(sequence)),
        echo_reads_back(value@),
        message_queue(value@) is Some ==> echo_tells_input(notification_models(r@)),
{
    let mut r: Vec<AdapterNotification> = Vec::new();
    let queue_kind = match read_message_queue(value) {
        Some(queue_kind) => queue_kind,
        None => {
            assert(notification_models(r@) =~= Seq::<NotificationModel>::empty());
            return r;
        },
    };
    let params = read_params(value);
    let thread_id = params.get_text_or_empty("threadId");
    let item = ExternalQueuedInput {
        queue_item_id,
        thread_id: thread_id.clone(),
        queue_kind,
        input: parse_input_items(params.get("input")),
        expected_turn_id: params.get_text("expectedTurnId"),
        client_message_id: None,
    };
    let ghost model = item.model();
    assert(model == queued_input(value@, queue_kind, queue_item_id@));
    let enqueued = ExternalQueueUpdatedNotification {
        thread_id: thread_id.clone(),
        queue_kind,
        operation: ExternalQueueOperation::Enqueued,
        item: Some(item.clone()),
    };
    let echo = next_stream_delta(
        thread_id.clone(),
        params.get_text("expectedTurnId"),
        ExternalStreamChannel::InputEcho,
        write_input(&item.input),
        sequence,
    );
    let dequeued = ExternalQueueUpdatedNotification {
        thread_id,
        queue_kind,
        operation: ExternalQueueOperation::Dequeued,
        item: Some(item),
    };
    r.push(AdapterNotification::QueueUpdated(enqueued));
    r.push(AdapterNotification::StreamDelta(echo));
    r.push(AdapterNotification::QueueUpdated(dequeued));
    assert(notification_models(r@) =~= client_notifications(
        value@,
        queue_item_id@,
        *old(sequence),
    ));
    r
}

/// Whether these are the notifications of a client's message for some id drawn
/// at random.
pub open spec fn client_notifications_for_some_id(
    notifications: Seq<NotificationModel>,
    message: JsonView,
    sequence: u64,
) -> bool {
    if message_queue(message) is Some {
        exists|uuid: Seq<char>| #[trigger]
            is_uuid_v4(uuid) && notifications == client_notifications(
                message,
                queue_item_id(uuid),
                sequence,
            )
    } else {
        notifications.len() == 0
    }
}

/// The notifications that a message of the client is besides itself.
pub fn maybe_emit_client_side_notifications(value: &JsonValue, sequence: &mut u64) -> (r: Vec<
    AdapterNotification,
>)
    ensures
        client_notifications_for_some_id(notification_models(r@), value@, *old(sequence)),
        *final(sequence) == sequence_after_client(value@, *old(sequence)),
        echo_reads_back(value@),
        message_queue(value@) is Some ==> echo_tells_input(notification_models(r@)),
{
    match read_message_queue(value) {
        Some(_) => client_side_notifications(value, new_queue_item_id(), sequence),
        None => Vec::new(),
    }
}

// ---------------------------------------------------------------------------
// Requests for permission
// ---------------------------------------------------------------------------

/// What a message of the server asks permission for.
pub open spec fn permission_kind(method: Seq<char>) -> Option<ExternalPermissionRequestKind> {
    if method == "item/commandExecution/requestApproval"@ {
        Some(ExternalPermissionRequestKind::CommandExecution)
    } else if method == "item/fileChange/requestApproval"@ {
        Some(ExternalPermissionRequestKind::FileChange)
    } else if method == "item/permissions/requestApproval"@ {
        Some(ExternalPermissionRequestKind::Permissions)
    } else if method == "mcpServer/elicitation/request"@ {
        Some(ExternalPermissionRequestKind::McpElicitation)
    } else {
        None
    }
}

fn read_permission_kind(method: &str) -> (r: Option<ExternalPermissionRequestKind>)
    ensures
        r == permission_kind(method@),
{
    if same_text(method, "item/commandExecution/requestApproval") {
        Some(ExternalPermissionRequestKind::CommandExecution)
    } else if same_text(method, "item/fileChange/requestApproval") {
        Some(ExternalPermissionRequestKind::FileChange)
    } else if same_text(method, "item/permissions/requestApproval") {
        Some(ExternalPermissionRequestKind::Permissions)
    } else if same_text(method, "mcpServer/elicitation/request") {
        Some(ExternalPermissionRequestKind::McpElicitation)
    } else {
        None
    }
}

/// The request for permission that a message is: one with an id and one of the
/// methods that ask for permission.
pub open spec fn permission_request(message: JsonView) -> Option<PermissionRequestModel> {
    let params = params_of(message);
    match (member_text(message, "method"@), member(message, "id"@)) {
        (Some(method), Some(id)) => match permission_kind(method) {
            Some(kind) => Some(
                PermissionRequestModel {
                    thread_id: or_empty(member_text(params, "threadId"@)),
                    turn_id: member_text(params, "turnId"@),
                    request_id: id_text(id),
                    kind,
                    payload: params,
                },
            ),
            None => None,
        },
        _ => None,
    }
}

/// The waiting requests after a message of the server: a request for permission
/// waits from then on.
pub open spec fn pending_after_request(
    message: JsonView,
    pending: Map<Seq<char>, Seq<char>>,
) -> Map<Seq<char>, Seq<char>> {
    match permission_request(message) {
        Some(request) => pending.insert(request.request_id, request.thread_id),
        None => pending,
    }
}

/// Notes the request for permission that a message is, if it is one, and tells
/// of it.
pub fn maybe_capture_permission_request(
    value: &JsonValue,
    pending_permissions: &mut PendingPermissions,
) -> (r: Option<ExternalPermissionRequestNotification>)
    ensures
        final(pending_permissions)@ == pending_after_request(value@, old(pending_permissions)@),
        match r {
            Some(notification) => permission_request(value@) == Some(notification.model()),
            None => permission_request(value@) is None,
        },
{
    let method = match value.get_text("method") {
        Some(method) => method,
        None => {
            return None;
        },
    };
    let request_id = match value.get("id") {
        Some(id) => jsonrpc_id_to_string(id),
        None => {
            return None;
        },
    };
    let kind = match read_permission_kind(method.as_str()) {
        Some(kind) => kind,
        None => {
            return None;
        },
    };
    let params = read_params(value);
    let thread_id = params.get_text_or_empty("threadId");
    let turn_id = params.get_text("turnId");
    pending_permissions.insert(
        PendingPermission { thread_id: thread_id.clone(), request_id: request_id.clone() },
    );
    Some(
        ExternalPermissionRequestNotification {
            thread_id,
            turn_id,
            request_id,
            kind,
            payload: params,
        },
    )
}

/// Whether a result grants what was asked: by its decision if it has one, else
/// by its action if it has one, else by granting permissions at all.
pub open spec fn grants(result: Option<JsonView>) -> bool {
    match result {
        Some(result) => match member_text(result, "decision"@) {
            Some(decision) => "accept"@.is_prefix_of(decision) || decision
                == "applyNetworkPolicyAmendment"@,
            None => match member_text(result, "action"@) {
                Some(action) => action == "accept"@,
                None => member(result, "permissions"@) is Some,
            },
        },
        None => false,
    }
}

/// Whether a result grants what was asked.
pub fn approval_from_result(result: Option<&JsonValue>) -> (r: bool)
    ensures
        r == grants(opt_view(result)),
{
    match result {
        Some(result) => {
            if let Some(decision) = result.get_text("decision") {
                return begins_with(decision.as_str(), "accept") || same_text(
                    decision.as_str(),
                    "applyNetworkPolicyAmendment",
                );
            }
            if let Some(action) = result.get_text("action") {
                return same_text(action.as_str(), "accept");
            }
            result.get("permissions").is_some()
        },
        None => false,
    }
}

/// The decision of a result in words: its decision, or else its action.
pub open spec fn decision_text(result: Option<JsonView>) -> Option<Seq<char>> {
    match result {
        Some(result) => match member_text(result, "decision"@) {
            Some(decision) => Some(decision),
            None => member_text(result, "action"@),
        },
        None => None,
    }
}

/// The decision of a result in words.
pub fn extract_decision(result: Option<&JsonValue>) -> (r: Option<String>)
    ensures
        opt_string_view(r) == decision_text(opt_view(result)),
{
    match result {
        Some(result) => match result.get_text("decision") {
            Some(decision) => Some(decision),
            None => result.get_text("action"),
        },
        None => None,
    }
}

/// The id of the request that a message answers, with a result or an error.
pub open spec fn answered_id(message: JsonView) -> Option<Seq<char>> {
    match member(message, "id"@) {
        Some(id) => if member(message, "result"@) is Some || member(message, "error"@) is Some {
            Some(id_text(id))
        } else {
            None
        },
        None => None,
    }
}

/// What a message of the client settles: the waiting request that it answers.
pub open spec fn permission_resolved(
    message: JsonView,
    pending: Map<Seq<char>, Seq<char>>,
) -> Option<PermissionResolvedModel> {
    match answered_id(message) {
        Some(id) => if pending.contains_key(id) {
            Some(
                PermissionResolvedModel {
                    thread_id: pending[id],
                    request_id: id,
                    approved: member(message, "error"@) is None && grants(
                        member(message, "result"@),
                    ),
                    decision: decision_text(member(message, "result"@)),
                },
            )
        } else {
            None
        },
        None => None,
    }
}

/// The waiting requests after a message of the client: a request that was
/// answered waits no longer.
pub open spec fn pending_after_answer(
    message: JsonView,
    pending: Map<Seq<char>, Seq<char>>,
) -> Map<Seq<char>, Seq<char>> {
    match answered_id(message) {
        Some(id) => pending.remove(id),
        None => pending,
    }
}

/// Takes out the waiting request that a message answers, if there is one, and
/// tells how it was answered.
pub fn maybe_emit_permission_resolved(
    value: &JsonValue,
    pending_permissions: &mut PendingPermissions,
) -> (r: Option<ExternalPermissionResolvedNotification>)
    ensures
        final(pending_permissions)@ == pending_after_answer(value@, old(pending_permissions)@),
        match r {
            Some(notification) => permission_resolved(value@, old(pending_permissions)@) == Some(
                notification.model(),
            ),
            None => permission_resolved(value@, old(pending_permissions)@) is None,
        },
{
    let id = match value.get("id") {
        Some(id) => id,
        None => {
            return None;
        },
    };
    if !(value.get("result").is_some() || value.get("error").is_some()) {
        return None;
    }
    let request_id = jsonrpc_id_to_string(id);
    let pending = match pending_permissions.remove(request_id.as_str()) {
        Some(pending) => pending,
        None => {
            return None;
        },
    };
    let approved = if value.get("error").is_some() {
        false
    } else {
        approval_from_result(value.get("result"))
    };
    let decision = extract_decision(value.get("result"));
    Some(
        ExternalPermissionResolvedNotification {
            thread_id: pending.thread_id,
            request_id: pending.request_id,
            approved,
            decision,
        },
    )
}

} // verus!
