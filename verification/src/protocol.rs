//! The messages that external controllers and the adapter exchange, and their
//! JSON form.

use vstd::prelude::*;

use crate::json::{
    add_member, copy_text, entries_view, member, members_view, JsonNumberView, JsonValue, JsonView,
};
use crate::text::same_text;
use crate::wire::{
    is_record, models, optional, read_optional, read_required, read_variant_name, record_shape,
    required, variant_name, Wire, WireNotNull,
};

verus! {

/// One item of a user's input.
///
/// Text is the only type of item that is known here. An item of another type is
/// not read, and neither is a list that holds one.
#[derive(Debug, PartialEq)]
pub enum UserInput {
    /// Text, with the marked elements inside it as they came.
    Text { text: String, text_elements: Vec<JsonValue> },
}

/// What an item of a user's input is.
pub enum UserInputModel {
    Text { text: Seq<char>, text_elements: Seq<JsonView> },
}

impl Wire for UserInput {
    type Model = UserInputModel;

    open spec fn model(self) -> UserInputModel {
        match self {
            UserInput::Text { text, text_elements } => UserInputModel::Text {
                text: text@,
                text_elements: text_elements.model(),
            },
        }
    }

    open spec fn encode(model: UserInputModel) -> JsonView {
        match model {
            UserInputModel::Text { text, text_elements } => JsonView::Object(
                Map::empty()
                    .insert("type"@, JsonView::Text("text"@))
                    .insert("text"@, JsonView::Text(text))
                    .insert("text_elements"@, Vec::<JsonValue>::encode(text_elements)),
            ),
        }
    }

    /// An object of type `text`, with its text and, if it has any, its elements.
    open spec fn decode(json: JsonView) -> Option<UserInputModel> {
        let elements = match member(json, "text_elements"@) {
            Some(v) => Vec::<JsonValue>::decode(v),
            None => Some(Seq::empty()),
        };
        match (member(json, "type"@), member(json, "text"@), elements) {
            (
                Some(JsonView::Text(kind)),
                Some(JsonView::Text(text)),
                Some(text_elements),
            ) => if kind == "text"@ {
                Some(UserInputModel::Text { text, text_elements })
            } else {
                None
            },
            _ => None,
        }
    }

    proof fn round_trip(model: UserInputModel) {
        reveal_strlit("type");
        reveal_strlit("text");
        reveal_strlit("text_elements");
        assert("type"@[1] != "text"@[1]);
        assert("type"@.len() != "text_elements"@.len());
        assert("text"@.len() != "text_elements"@.len());
        Vec::<JsonValue>::round_trip(model->text_elements);
    }

    fn to_json(&self) -> (r: JsonValue) {
        JsonValue::Object(self.members())
    }

    fn from_json(json: &JsonValue) -> (r: Option<UserInput>) {
        let elements = match json.get("text_elements") {
            Some(value) => Vec::<JsonValue>::from_json(value),
            None => Some(Vec::new()),
        };
        assert(models(Seq::<JsonValue>::empty()) =~= Seq::<JsonView>::empty());
        match (json.get("type"), json.get("text"), elements) {
            (
                Some(JsonValue::Text(kind)),
                Some(JsonValue::Text(text)),
                Some(text_elements),
            ) => if same_text(kind.as_str(), "text") {
                Some(UserInput::Text { text: text.clone(), text_elements })
            } else {
                None
            },
            _ => None,
        }
    }
}

impl UserInputModel {
    /// The members of the item's JSON form, in the order in which it is written.
    pub open spec fn entries(self) -> Seq<(Seq<char>, JsonView)> {
        match self {
            UserInputModel::Text { text, text_elements } => seq![
                ("type"@, JsonView::Text("text"@)),
                ("text"@, JsonView::Text(text)),
                ("text_elements"@, Vec::<JsonValue>::encode(text_elements)),
            ],
        }
    }
}

impl UserInput {
    /// The members of the item's JSON form, in the order in which it is written.
    pub fn members(&self) -> (r: Vec<(String, JsonValue)>)
        ensures
            entries_view(r@) == self.model().entries(),
            JsonView::Object(members_view(r@)) == UserInput::encode(self.model()),
    {
        match self {
            UserInput::Text { text, text_elements } => {
                let mut members: Vec<(String, JsonValue)> = Vec::new();
                add_member(&mut members, "type", JsonValue::Text("text".to_string()));
                add_member(&mut members, "text", JsonValue::Text(text.clone()));
                add_member(&mut members, "text_elements", text_elements.to_json());
                assert(entries_view(members@) =~= self.model().entries());
                members
            },
        }
    }
}

/// Copies a list of values.
fn copy_values(values: &Vec<JsonValue>) -> (r: Vec<JsonValue>)
    ensures
        r.model() == values.model(),
{
    let mut copy: Vec<JsonValue> = Vec::new();
    for i in 0..values.len()
        invariant
            copy@.len() == i,
            forall|j: int| 0 <= j < i ==> (#[trigger] copy@[j])@ == values@[j]@,
    {
        copy.push(values[i].clone());
    }
    assert(copy.model() =~= values.model());
    copy
}

impl Clone for UserInput {
    fn clone(&self) -> (r: UserInput)
        ensures
            r.model() == self.model(),
    {
        match self {
            UserInput::Text { text, text_elements } => UserInput::Text {
                text: text.clone(),
                text_elements: copy_values(text_elements),
            },
        }
    }
}

fn copy_input(input: &Vec<UserInput>) -> (r: Vec<UserInput>)
    ensures
        r.model() == input.model(),
{
    let mut copy: Vec<UserInput> = Vec::new();
    for i in 0..input.len()
        invariant
            copy@.len() == i,
            forall|j: int| 0 <= j < i ==> (#[trigger] copy@[j]).model() == input@[j].model(),
    {
        copy.push(input[i].clone());
    }
    assert(copy.model() =~= input.model());
    copy
}

/// Preferred input queue for externally submitted messages.
///
/// - `Interactive`: normal user submissions.
/// - `FollowUp`: queued follow-up requests from external controllers.
/// - `Steer`: control/steering messages injected during an active turn.
#[derive(Debug, Clone, Copy, PartialEq, Eq, Structural)]
pub enum ExternalInputQueueKind {
    Interactive,
    FollowUp,
    Steer,
}

impl ExternalInputQueueKind {
    /// The name of the value in JSON.
    pub open spec fn name(self) -> Seq<char> {
        match self {
            ExternalInputQueueKind::Interactive => "interactive"@,
            ExternalInputQueueKind::FollowUp => "followUp"@,
            ExternalInputQueueKind::Steer => "steer"@,
        }
    }
}

impl Wire for ExternalInputQueueKind {
    type Model = ExternalInputQueueKind;

    open spec fn model(self) -> ExternalInputQueueKind {
        self
    }

    open spec fn encode(model: ExternalInputQueueKind) -> JsonView {
        JsonView::Text(model.name())
    }

    open spec fn decode(json: JsonView) -> Option<ExternalInputQueueKind> {
        match variant_name(json) {
            Some(name) => if name == "interactive"@ {
                Some(ExternalInputQueueKind::Interactive)
            } else if name == "followUp"@ {
                Some(ExternalInputQueueKind::FollowUp)
            } else if name == "steer"@ {
                Some(ExternalInputQueueKind::Steer)
            } else {
                None
            },
            None => None,
        }
    }

    proof fn round_trip(model: ExternalInputQueueKind) {
        reveal_strlit("interactive");
        reveal_strlit("followUp");
        reveal_strlit("steer");
        assert("interactive"@.len() != "followUp"@.len());
        assert("interactive"@.len() != "steer"@.len());
        assert("followUp"@.len() != "steer"@.len());
    }

    fn to_json(&self) -> (r: JsonValue) {
        let name = match self {
            ExternalInputQueueKind::Interactive => "interactive",
            ExternalInputQueueKind::FollowUp => "followUp",
            ExternalInputQueueKind::Steer => "steer",
        };
        JsonValue::Text(name.to_string())
    }

    fn from_json(json: &JsonValue) -> (r: Option<ExternalInputQueueKind>) {
        match read_variant_name(json) {
            Some(name) => if same_text(name.as_str(), "interactive") {
                Some(ExternalInputQueueKind::Interactive)
            } else if same_text(name.as_str(), "followUp") {
                Some(ExternalInputQueueKind::FollowUp)
            } else if same_text(name.as_str(), "steer") {
                Some(ExternalInputQueueKind::Steer)
            } else {
                None
            },
            None => None,
        }
    }
}

impl WireNotNull for ExternalInputQueueKind {
    proof fn never_null(model: ExternalInputQueueKind) {
    }
}

/// What happened to a queue.
#[derive(Debug, Clone, Copy, PartialEq, Eq, Structural)]
pub enum ExternalQueueOperation {
    Enqueued,
    Dequeued,
    Dropped,
    Cleared,
}

impl ExternalQueueOperation {
    /// The name of the value in JSON.
    pub open spec fn name(self) -> Seq<char> {
        match self {
            ExternalQueueOperation::Enqueued => "enqueued"@,
            ExternalQueueOperation::Dequeued => "dequeued"@,
            ExternalQueueOperation::Dropped => "dropped"@,
            ExternalQueueOperation::Cleared => "cleared"@,
        }
    }
}

impl Wire for ExternalQueueOperation {
    type Model = ExternalQueueOperation;

    open spec fn model(self) -> ExternalQueueOperation {
        self
    }

    open spec fn encode(model: ExternalQueueOperation) -> JsonView {
        JsonView::Text(model.name())
    }

    open spec fn decode(json: JsonView) -> Option<ExternalQueueOperation> {
        match variant_name(json) {
            Some(name) => if name == "enqueued"@ {
                Some(ExternalQueueOperation::Enqueued)
            } else if name == "dequeued"@ {
                Some(ExternalQueueOperation::Dequeued)
            } else if name == "dropped"@ {
                Some(ExternalQueueOperation::Dropped)
            } else if name == "cleared"@ {
                Some(ExternalQueueOperation::Cleared)
            } else {
                None
            },
            None => None,
        }
    }

    proof fn round_trip(model: ExternalQueueOperation) {
        reveal_strlit("enqueued");
        reveal_strlit("dequeued");
        reveal_strlit("dropped");
        reveal_strlit("cleared");
        assert("enqueued"@[0] != "dequeued"@[0]);
        assert("enqueued"@.len() != "dropped"@.len());
        assert("enqueued"@.len() != "cleared"@.len());
        assert("dequeued"@.len() != "dropped"@.len());
        assert("dequeued"@.len() != "cleared"@.len());
        assert("dropped"@[0] != "cleared"@[0]);
    }

    fn to_json(&self) -> (r: JsonValue) {
        let name = match self {
            ExternalQueueOperation::Enqueued => "enqueued",
            ExternalQueueOperation::Dequeued => "dequeued",
            ExternalQueueOperation::Dropped => "dropped",
            ExternalQueueOperation::Cleared => "cleared",
        };
        JsonValue::Text(name.to_string())
    }

    fn from_json(json: &JsonValue) -> (r: Option<ExternalQueueOperation>) {
        match read_variant_name(json) {
            Some(name) => if same_text(name.as_str(), "enqueued") {
                Some(ExternalQueueOperation::Enqueued)
            } else if same_text(name.as_str(), "dequeued") {
                Some(ExternalQueueOperation::Dequeued)
            } else if same_text(name.as_str(), "dropped") {
                Some(ExternalQueueOperation::Dropped)
            } else if same_text(name.as_str(), "cleared") {
                Some(ExternalQueueOperation::Cleared)
            } else {
                None
            },
            None => None,
        }
    }
}

impl WireNotNull for ExternalQueueOperation {
    proof fn never_null(model: ExternalQueueOperation) {
    }
}

/// An input item in a queue.
#[derive(Debug, PartialEq)]
pub struct ExternalQueuedInput {
    pub queue_item_id: String,
    pub thread_id: String,
    pub queue_kind: ExternalInputQueueKind,
    pub input: Vec<UserInput>,
    pub expected_turn_id: Option<String>,
    pub client_message_id: Option<String>,
}

/// What a queued input item is.
pub struct QueuedInputModel {
    pub queue_item_id: Seq<char>,
    pub thread_id: Seq<char>,
    pub queue_kind: ExternalInputQueueKind,
    pub input: Seq<UserInputModel>,
    pub expected_turn_id: Option<Seq<char>>,
    pub client_message_id: Option<Seq<char>>,
}

impl Wire for ExternalQueuedInput {
    type Model = QueuedInputModel;

    open spec fn model(self) -> QueuedInputModel {
        QueuedInputModel {
            queue_item_id: self.queue_item_id.model(),
            thread_id: self.thread_id.model(),
            queue_kind: self.queue_kind.model(),
            input: self.input.model(),
            expected_turn_id: self.expected_turn_id.model(),
            client_message_id: self.client_message_id.model(),
        }
    }

    open spec fn encode(model: QueuedInputModel) -> JsonView {
        JsonView::Object(
            Map::empty()
                .insert("queueItemId"@, String::encode(model.queue_item_id))
                .insert("threadId"@, String::encode(model.thread_id))
                .insert("queueKind"@, ExternalInputQueueKind::encode(model.queue_kind))
                .insert("input"@, Vec::<UserInput>::encode(model.input))
                .insert("expectedTurnId"@, Option::<String>::encode(model.expected_turn_id))
                .insert("clientMessageId"@, Option::<String>::encode(model.client_message_id)),
        )
    }

    open spec fn decode(json: JsonView) -> Option<QueuedInputModel> {
        if !is_record(json, 6) {
            None
        } else {
            match (
                required::<String>(json, "queueItemId"@, 0),
                required::<String>(json, "threadId"@, 1),
                required::<ExternalInputQueueKind>(json, "queueKind"@, 2),
                required::<Vec<UserInput>>(json, "input"@, 3),
                optional::<String>(json, "expectedTurnId"@, 4),
                optional::<String>(json, "clientMessageId"@, 5),
            ) {
                (
                    Some(queue_item_id),
                    Some(thread_id),
                    Some(queue_kind),
                    Some(input),
                    Some(expected_turn_id),
                    Some(client_message_id),
                ) => Some(
                    QueuedInputModel {
                        queue_item_id,
                        thread_id,
                        queue_kind,
                        input,
                        expected_turn_id,
                        client_message_id,
                    },
                ),
                _ => None,
            }
        }
    }

    proof fn round_trip(model: QueuedInputModel) {
        reveal_strlit("queueItemId");
        reveal_strlit("threadId");
        reveal_strlit("queueKind");
        reveal_strlit("input");
        reveal_strlit("expectedTurnId");
        reveal_strlit("clientMessageId");
        assert("queueItemId"@.len() != "threadId"@.len());
        assert("queueItemId"@.len() != "queueKind"@.len());
        assert("queueItemId"@.len() != "input"@.len());
        assert("queueItemId"@.len() != "expectedTurnId"@.len());
        assert("queueItemId"@.len() != "clientMessageId"@.len());
        assert("threadId"@.len() != "queueKind"@.len());
        assert("threadId"@.len() != "input"@.len());
        assert("threadId"@.len() != "expectedTurnId"@.len());
        assert("threadId"@.len() != "clientMessageId"@.len());
        assert("queueKind"@.len() != "input"@.len());
        assert("queueKind"@.len() != "expectedTurnId"@.len());
        assert("queueKind"@.len() != "clientMessageId"@.len());
        assert("input"@.len() != "expectedTurnId"@.len());
        assert("input"@.len() != "clientMessageId"@.len());
        assert("expectedTurnId"@.len() != "clientMessageId"@.len());
        String::round_trip(model.queue_item_id);
        String::round_trip(model.thread_id);
        ExternalInputQueueKind::round_trip(model.queue_kind);
        Vec::<UserInput>::round_trip(model.input);
        Option::<String>::round_trip(model.expected_turn_id);
        Option::<String>::round_trip(model.client_message_id);
    }

    fn to_json(&self) -> (r: JsonValue) {
        let mut members: Vec<(String, JsonValue)> = Vec::new();
        add_member(&mut members, "queueItemId", self.queue_item_id.to_json());
        add_member(&mut members, "threadId", self.thread_id.to_json());
        add_member(&mut members, "queueKind", self.queue_kind.to_json());
        add_member(&mut members, "input", self.input.to_json());
        add_member(&mut members, "expectedTurnId", self.expected_turn_id.to_json());
        add_member(&mut members, "clientMessageId", self.client_message_id.to_json());
        JsonValue::Object(members)
    }

    fn from_json(json: &JsonValue) -> (r: Option<ExternalQueuedInput>) {
        if !record_shape(json, 6) {
            return None;
        }
        let queue_item_id = read_required::<String>(json, "queueItemId", 0);
        let thread_id = read_required::<String>(json, "threadId", 1);
        let queue_kind = read_required::<ExternalInputQueueKind>(json, "queueKind", 2);
        let input = read_required::<Vec<UserInput>>(json, "input", 3);
        let expected_turn_id = read_optional::<String>(json, "expectedTurnId", 4);
        let client_message_id = read_optional::<String>(json, "clientMessageId", 5);
        match (queue_item_id, thread_id, queue_kind, input, expected_turn_id, client_message_id) {
            (
                Some(queue_item_id),
                Some(thread_id),
                Some(queue_kind),
                Some(input),
                Some(expected_turn_id),
                Some(client_message_id),
            ) => Some(
                ExternalQueuedInput {
                    queue_item_id,
                    thread_id,
                    queue_kind,
                    input,
                    expected_turn_id,
                    client_message_id,
                },
            ),
            _ => None,
        }
    }
}

impl WireNotNull for ExternalQueuedInput {
    proof fn never_null(model: QueuedInputModel) {
    }
}

impl Clone for ExternalQueuedInput {
    fn clone(&self) -> (r: ExternalQueuedInput)
        ensures
            r.model() == self.model(),
    {
        ExternalQueuedInput {
            queue_item_id: self.queue_item_id.clone(),
            thread_id: self.thread_id.clone(),
            queue_kind: self.queue_kind,
            input: copy_input(&self.input),
            expected_turn_id: copy_text(&self.expected_turn_id),
            client_message_id: copy_text(&self.client_message_id),
        }
    }
}

/// Enqueue input for a specific external queue.
#[derive(Debug, Clone, PartialEq)]
pub struct ExternalQueueInputEnqueueParams {
    pub thread_id: String,
    pub queue_kind: ExternalInputQueueKind,
    pub input: Vec<UserInput>,
    pub expected_turn_id: Option<String>,
    pub client_message_id: Option<String>,
}

/// What a request to enqueue input is.
pub struct EnqueueParamsModel {
    pub thread_id: Seq<char>,
    pub queue_kind: ExternalInputQueueKind,
    pub input: Seq<UserInputModel>,
    pub expected_turn_id: Option<Seq<char>>,
    pub client_message_id: Option<Seq<char>>,
}

impl Wire for ExternalQueueInputEnqueueParams {
    type Model = EnqueueParamsModel;

    open spec fn model(self) -> EnqueueParamsModel {
        EnqueueParamsModel {
            thread_id: self.thread_id.model(),
            queue_kind: self.queue_kind.model(),
            input: self.input.model(),
            expected_turn_id: self.expected_turn_id.model(),
            client_message_id: self.client_message_id.model(),
        }
    }

    open spec fn encode(model: EnqueueParamsModel) -> JsonView {
        JsonView::Object(
            Map::empty()
                .insert("threadId"@, String::encode(model.thread_id))
                .insert("queueKind"@, ExternalInputQueueKind::encode(model.queue_kind))
                .insert("input"@, Vec::<UserInput>::encode(model.input))
                .insert("expectedTurnId"@, Option::<String>::encode(model.expected_turn_id))
                .insert("clientMessageId"@, Option::<String>::encode(model.client_message_id)),
        )
    }

    open spec fn decode(json: JsonView) -> Option<EnqueueParamsModel> {
        if !is_record(json, 5) {
            None
        } else {
            match (
                required::<String>(json, "threadId"@, 0),
                required::<ExternalInputQueueKind>(json, "queueKind"@, 1),
                required::<Vec<UserInput>>(json, "input"@, 2),
                optional::<String>(json, "expectedTurnId"@, 3),
                optional::<String>(json, "clientMessageId"@, 4),
            ) {
                (
                    Some(thread_id),
                    Some(queue_kind),
                    Some(input),
                    Some(expected_turn_id),
                    Some(client_message_id),
                ) => Some(
                    EnqueueParamsModel {
                        thread_id,
                        queue_kind,
                        input,
                        expected_turn_id,
                        client_message_id,
                    },
                ),
                _ => None,
            }
        }
    }

    proof fn round_trip(model: EnqueueParamsModel) {
        reveal_strlit("threadId");
        reveal_strlit("queueKind");
        reveal_strlit("input");
        reveal_strlit("expectedTurnId");
        reveal_strlit("clientMessageId");
        assert("threadId"@.len() != "queueKind"@.len());
        assert("threadId"@.len() != "input"@.len());
        assert("threadId"@.len() != "expectedTurnId"@.len());
        assert("threadId"@.len() != "clientMessageId"@.len());
        assert("queueKind"@.len() != "input"@.len());
        assert("queueKind"@.len() != "expectedTurnId"@.len());
        assert("queueKind"@.len() != "clientMessageId"@.len());
        assert("input"@.len() != "expectedTurnId"@.len());
        assert("input"@.len() != "clientMessageId"@.len());
        assert("expectedTurnId"@.len() != "clientMessageId"@.len());
        String::round_trip(model.thread_id);
        ExternalInputQueueKind::round_trip(model.queue_kind);
        Vec::<UserInput>::round_trip(model.input);
        Option::<String>::round_trip(model.expected_turn_id);
        Option::<String>::round_trip(model.client_message_id);
    }

    fn to_json(&self) -> (r: JsonValue) {
        let mut members: Vec<(String, JsonValue)> = Vec::new();
        add_member(&mut members, "threadId", self.thread_id.to_json());
        add_member(&mut members, "queueKind", self.queue_kind.to_json());
        add_member(&mut members, "input", self.input.to_json());
        add_member(&mut members, "expectedTurnId", self.expected_turn_id.to_json());
        add_member(&mut members, "clientMessageId", self.client_message_id.to_json());
        JsonValue::Object(members)
    }

    fn from_json(json: &JsonValue) -> (r: Option<ExternalQueueInputEnqueueParams>) {
        if !record_shape(json, 5) {
            return None;
        }
        let thread_id = read_required::<String>(json, "threadId", 0);
        let queue_kind = read_required::<ExternalInputQueueKind>(json, "queueKind", 1);
        let input = read_required::<Vec<UserInput>>(json, "input", 2);
        let expected_turn_id = read_optional::<String>(json, "expectedTurnId", 3);
        let client_message_id = read_optional::<String>(json, "clientMessageId", 4);
        match (thread_id, queue_kind, input, expected_turn_id, client_message_id) {
            (
                Some(thread_id),
                Some(queue_kind),
                Some(input),
                Some(expected_turn_id),
                Some(client_message_id),
            ) => Some(
                ExternalQueueInputEnqueueParams {
                    thread_id,
                    queue_kind,
                    input,
                    expected_turn_id,
                    client_message_id,
                },
            ),
            _ => None,
        }
    }
}

/// The answer to a request to enqueue input.
#[derive(Debug, Clone, PartialEq)]
pub struct ExternalQueueInputEnqueueResponse {
    pub queue_item_id: String,
}

/// What the answer to a request to enqueue input is.
pub struct EnqueueResponseModel {
    pub queue_item_id: Seq<char>,
}

impl Wire for ExternalQueueInputEnqueueResponse {
    type Model = EnqueueResponseModel;

    open spec fn model(self) -> EnqueueResponseModel {
        EnqueueResponseModel {
            queue_item_id: self.queue_item_id.model(),
        }
    }

    open spec fn encode(model: EnqueueResponseModel) -> JsonView {
        JsonView::Object(
            Map::empty()
                .insert("queueItemId"@, String::encode(model.queue_item_id)),
        )
    }

    open spec fn decode(json: JsonView) -> Option<EnqueueResponseModel> {
        if !is_record(json, 1) {
            None
        } else {
            match required::<String>(json, "queueItemId"@, 0) {
                Some(queue_item_id) => Some(EnqueueResponseModel { queue_item_id }),
                _ => None,
            }
        }
    }

    proof fn round_trip(model: EnqueueResponseModel) {
        reveal_strlit("queueItemId");
        String::round_trip(model.queue_item_id);
    }

    fn to_json(&self) -> (r: JsonValue) {
        let mut members: Vec<(String, JsonValue)> = Vec::new();
        add_member(&mut members, "queueItemId", self.queue_item_id.to_json());
        JsonValue::Object(members)
    }

    fn from_json(json: &JsonValue) -> (r: Option<ExternalQueueInputEnqueueResponse>) {
        if !record_shape(json, 1) {
            return None;
        }
        let queue_item_id = read_required::<String>(json, "queueItemId", 0);
        match queue_item_id {
            Some(queue_item_id) => Some(ExternalQueueInputEnqueueResponse { queue_item_id }),
            _ => None,
        }
    }
}

/// List queued input items for one queue, or all queues when `queue_kind` is null.
#[derive(Debug, Clone, PartialEq)]
pub struct ExternalQueueInputListParams {
    pub thread_id: String,
    pub queue_kind: Option<ExternalInputQueueKind>,
}

/// What a request to list queued input is.
pub struct ListParamsModel {
    pub thread_id: Seq<char>,
    pub queue_kind: Option<ExternalInputQueueKind>,
}

impl Wire for ExternalQueueInputListParams {
    type Model = ListParamsModel;

    open spec fn model(self) -> ListParamsModel {
        ListParamsModel {
            thread_id: self.thread_id.model(),
            queue_kind: self.queue_kind.model(),
        }
    }

    open spec fn encode(model: ListParamsModel) -> JsonView {
        JsonView::Object(
            Map::empty()
                .insert("threadId"@, String::encode(model.thread_id))
                .insert("queueKind"@, Option::<ExternalInputQueueKind>::encode(model.queue_kind)),
        )
    }

    open spec fn decode(json: JsonView) -> Option<ListParamsModel> {
        if !is_record(json, 2) {
            None
        } else {
            match (
                required::<String>(json, "threadId"@, 0),
                optional::<ExternalInputQueueKind>(json, "queueKind"@, 1),
            ) {
                (Some(thread_id), Some(queue_kind)) => Some(
                    ListParamsModel { thread_id, queue_kind },
                ),
                _ => None,
            }
        }
    }

    proof fn round_trip(model: ListParamsModel) {
        reveal_strlit("threadId");
        reveal_strlit("queueKind");
        assert("threadId"@.len() != "queueKind"@.len());
        String::round_trip(model.thread_id);
        Option::<ExternalInputQueueKind>::round_trip(model.queue_kind);
    }

    fn to_json(&self) -> (r: JsonValue) {
        let mut members: Vec<(String, JsonValue)> = Vec::new();
        add_member(&mut members, "threadId", self.thread_id.to_json());
        add_member(&mut members, "queueKind", self.queue_kind.to_json());
        JsonValue::Object(members)
    }

    fn from_json(json: &JsonValue) -> (r: Option<ExternalQueueInputListParams>) {
        if !record_shape(json, 2) {
            return None;
        }
        let thread_id = read_required::<String>(json, "threadId", 0);
        let queue_kind = read_optional::<ExternalInputQueueKind>(json, "queueKind", 1);
        match (thread_id, queue_kind) {
            (Some(thread_id), Some(queue_kind)) => Some(
                ExternalQueueInputListParams { thread_id, queue_kind },
            ),
            _ => None,
        }
    }
}

/// The items that are queued.
#[derive(Debug, Clone, PartialEq)]
pub struct ExternalQueueInputListResponse {
    pub items: Vec<ExternalQueuedInput>,
}

/// What the answer to a request to list queued input is.
pub struct ListResponseModel {
    pub items: Seq<QueuedInputModel>,
}

impl Wire for ExternalQueueInputListResponse {
    type Model = ListResponseModel;

    open spec fn model(self) -> ListResponseModel {
        ListResponseModel {
            items: self.items.model(),
        }
    }

    open spec fn encode(model: ListResponseModel) -> JsonView {
        JsonView::Object(
            Map::empty()
                .insert("items"@, Vec::<ExternalQueuedInput>::encode(model.items)),
        )
    }

    open spec fn decode(json: JsonView) -> Option<ListResponseModel> {
        if !is_record(json, 1) {
            None
        } else {
            match required::<Vec<ExternalQueuedInput>>(json, "items"@, 0) {
                Some(items) => Some(ListResponseModel { items }),
                _ => None,
            }
        }
    }

    proof fn round_trip(model: ListResponseModel) {
        reveal_strlit("items");
        Vec::<ExternalQueuedInput>::round_trip(model.items);
    }

    fn to_json(&self) -> (r: JsonValue) {
        let mut members: Vec<(String, JsonValue)> = Vec::new();
        add_member(&mut members, "items", self.items.to_json());
        JsonValue::Object(members)
    }

    fn from_json(json: &JsonValue) -> (r: Option<ExternalQueueInputListResponse>) {
        if !record_shape(json, 1) {
            return None;
        }
        let items = read_required::<Vec<ExternalQueuedInput>>(json, "items", 0);
        match items {
            Some(items) => Some(ExternalQueueInputListResponse { items }),
            _ => None,
        }
    }
}

/// Remove a single queued item by id.
#[derive(Debug, Clone, PartialEq)]
pub struct ExternalQueueInputDropParams {
    pub thread_id: String,
    pub queue_item_id: String,
}

/// What a request to remove a queued item is.
pub struct DropParamsModel {
    pub thread_id: Seq<char>,
    pub queue_item_id: Seq<char>,
}

impl Wire for ExternalQueueInputDropParams {
    type Model = DropParamsModel;

    open spec fn model(self) -> DropParamsModel {
        DropParamsModel {
            thread_id: self.thread_id.model(),
            queue_item_id: self.queue_item_id.model(),
        }
    }

    open spec fn encode(model: DropParamsModel) -> JsonView {
        JsonView::Object(
            Map::empty()
                .insert("threadId"@, String::encode(model.thread_id))
                .insert("queueItemId"@, String::encode(model.queue_item_id)),
        )
    }

    open spec fn decode(json: JsonView) -> Option<DropParamsModel> {
        if !is_record(json, 2) {
            None
        } else {
            match (
                required::<String>(json, "threadId"@, 0),
                required::<String>(json, "queueItemId"@, 1),
            ) {
                (Some(thread_id), Some(queue_item_id)) => Some(
                    DropParamsModel { thread_id, queue_item_id },
                ),
                _ => None,
            }
        }
    }

    proof fn round_trip(model: DropParamsModel) {
        reveal_strlit("threadId");
        reveal_strlit("queueItemId");
        assert("threadId"@.len() != "queueItemId"@.len());
        String::round_trip(model.thread_id);
        String::round_trip(model.queue_item_id);
    }

    fn to_json(&self) -> (r: JsonValue) {
        let mut members: Vec<(String, JsonValue)> = Vec::new();
        add_member(&mut members, "threadId", self.thread_id.to_json());
        add_member(&mut members, "queueItemId", self.queue_item_id.to_json());
        JsonValue::Object(members)
    }

    fn from_json(json: &JsonValue) -> (r: Option<ExternalQueueInputDropParams>) {
        if !record_shape(json, 2) {
            return None;
        }
        let thread_id = read_required::<String>(json, "threadId", 0);
        let queue_item_id = read_required::<String>(json, "queueItemId", 1);
        match (thread_id, queue_item_id) {
            (Some(thread_id), Some(queue_item_id)) => Some(
                ExternalQueueInputDropParams { thread_id, queue_item_id },
            ),
            _ => None,
        }
    }
}

/// The answer to a request to remove a queued item.
#[derive(Debug, Clone, PartialEq)]
pub struct ExternalQueueInputDropResponse {}

/// What the answer to a request to remove a queued item is.
pub struct DropResponseModel {}

impl Wire for ExternalQueueInputDropResponse {
    type Model = DropResponseModel;

    open spec fn model(self) -> DropResponseModel {
        DropResponseModel {}
    }

    open spec fn encode(model: DropResponseModel) -> JsonView {
        JsonView::Object(Map::empty())
    }

    open spec fn decode(json: JsonView) -> Option<DropResponseModel> {
        if is_record(json, 0) {
            Some(DropResponseModel {})
        } else {
            None
        }
    }

    proof fn round_trip(model: DropResponseModel) {
    }

    fn to_json(&self) -> (r: JsonValue) {
        JsonValue::Object(Vec::new())
    }

    fn from_json(json: &JsonValue) -> (r: Option<ExternalQueueInputDropResponse>) {
        if !record_shape(json, 0) {
            return None;
        }
        Some(ExternalQueueInputDropResponse {})
    }
}

/// Clear one queue, or all queues when `queue_kind` is null.
#[derive(Debug, Clone, PartialEq)]
pub struct ExternalQueueInputClearParams {
    pub thread_id: String,
    pub queue_kind: Option<ExternalInputQueueKind>,
}

/// What a request to clear queues is.
pub struct ClearParamsModel {
    pub thread_id: Seq<char>,
    pub queue_kind: Option<ExternalInputQueueKind>,
}

impl Wire for ExternalQueueInputClearParams {
    type Model = ClearParamsModel;

    open spec fn model(self) -> ClearParamsModel {
        ClearParamsModel {
            thread_id: self.thread_id.model(),
            queue_kind: self.queue_kind.model(),
        }
    }

    open spec fn encode(model: ClearParamsModel) -> JsonView {
        JsonView::Object(
            Map::empty()
                .insert("threadId"@, String::encode(model.thread_id))
                .insert("queueKind"@, Option::<ExternalInputQueueKind>::encode(model.queue_kind)),
        )
    }

    open spec fn decode(json: JsonView) -> Option<ClearParamsModel> {
        if !is_record(json, 2) {
            None
        } else {
            match (
                required::<String>(json, "threadId"@, 0),
                optional::<ExternalInputQueueKind>(json, "queueKind"@, 1),
            ) {
                (Some(thread_id), Some(queue_kind)) => Some(
                    ClearParamsModel { thread_id, queue_kind },
                ),
                _ => None,
            }
        }
    }

    proof fn round_trip(model: ClearParamsModel) {
        reveal_strlit("threadId");
        reveal_strlit("queueKind");
        assert("threadId"@.len() != "queueKind"@.len());
        String::round_trip(model.thread_id);
        Option::<ExternalInputQueueKind>::round_trip(model.queue_kind);
    }

    fn to_json(&self) -> (r: JsonValue) {
        let mut members: Vec<(String, JsonValue)> = Vec::new();
        add_member(&mut members, "threadId", self.thread_id.to_json());
        add_member(&mut members, "queueKind", self.queue_kind.to_json());
        JsonValue::Object(members)
    }

    fn from_json(json: &JsonValue) -> (r: Option<ExternalQueueInputClearParams>) {
        if !record_shape(json, 2) {
            return None;
        }
        let thread_id = read_required::<String>(json, "threadId", 0);
        let queue_kind = read_optional::<ExternalInputQueueKind>(json, "queueKind", 1);
        match (thread_id, queue_kind) {
            (Some(thread_id), Some(queue_kind)) => Some(
                ExternalQueueInputClearParams { thread_id, queue_kind },
            ),
            _ => None,
        }
    }
}

/// The answer to a request to clear queues.
#[derive(Debug, Clone, PartialEq)]
pub struct ExternalQueueInputClearResponse {}

/// What the answer to a request to clear queues is.
pub struct ClearResponseModel {}

impl Wire for ExternalQueueInputClearResponse {
    type Model = ClearResponseModel;

    open spec fn model(self) -> ClearResponseModel {
        ClearResponseModel {}
    }

    open spec fn encode(model: ClearResponseModel) -> JsonView {
        JsonView::Object(Map::empty())
    }

    open spec fn decode(json: JsonView) -> Option<ClearResponseModel> {
        if is_record(json, 0) {
            Some(ClearResponseModel {})
        } else {
            None
        }
    }

    proof fn round_trip(model: ClearResponseModel) {
    }

    fn to_json(&self) -> (r: JsonValue) {
        JsonValue::Object(Vec::new())
    }

    fn from_json(json: &JsonValue) -> (r: Option<ExternalQueueInputClearResponse>) {
        if !record_shape(json, 0) {
            return None;
        }
        Some(ExternalQueueInputClearResponse {})
    }
}

/// The setting of a runtime control, as it is in JSON. It is never `null`; which
/// other values a control takes is for whoever applies the setting to say.
#[derive(Debug, PartialEq)]
pub struct ControlSetting {
    value: JsonValue,
}

/// What a setting is: a JSON value other than `null`.
pub enum SettingModel {
    Bool(bool),
    Number(JsonNumberView),
    Text(Seq<char>),
    Array(Seq<JsonView>),
    Object(Map<Seq<char>, JsonView>),
}

impl ControlSetting {
    /// The setting in JSON.
    pub closed spec fn view(self) -> JsonView {
        self.value@
    }

    #[verifier::type_invariant]
    spec fn is_set(self) -> bool {
        self.value@ !is Null
    }
}

impl Wire for ControlSetting {
    type Model = SettingModel;

    open spec fn model(self) -> SettingModel {
        ControlSetting::decode(self@)->0
    }

    open spec fn encode(model: SettingModel) -> JsonView {
        match model {
            SettingModel::Bool(b) => JsonView::Bool(b),
            SettingModel::Number(n) => JsonView::Number(n),
            SettingModel::Text(t) => JsonView::Text(t),
            SettingModel::Array(items) => JsonView::Array(items),
            SettingModel::Object(members) => JsonView::Object(members),
        }
    }

    open spec fn decode(json: JsonView) -> Option<SettingModel> {
        match json {
            JsonView::Null => None,
            JsonView::Bool(b) => Some(SettingModel::Bool(b)),
            JsonView::Number(n) => Some(SettingModel::Number(n)),
            JsonView::Text(t) => Some(SettingModel::Text(t)),
            JsonView::Array(items) => Some(SettingModel::Array(items)),
            JsonView::Object(members) => Some(SettingModel::Object(members)),
        }
    }

    proof fn round_trip(model: SettingModel) {
    }

    fn to_json(&self) -> (r: JsonValue) {
        proof {
            use_type_invariant(self);
        }
        self.value.clone()
    }

    fn from_json(json: &JsonValue) -> (r: Option<ControlSetting>) {
        match json {
            JsonValue::Null => None,
            _ => Some(ControlSetting { value: json.clone() }),
        }
    }
}

impl WireNotNull for ControlSetting {
    proof fn never_null(model: SettingModel) {
    }
}

impl Clone for ControlSetting {
    fn clone(&self) -> (r: ControlSetting)
        ensures
            r.model() == self.model(),
    {
        proof {
            use_type_invariant(self);
        }
        ControlSetting { value: self.value.clone() }
    }
}

/// Runtime control surface that must route through the same thread mutations as UI operations.
#[derive(Debug, Clone, PartialEq)]
pub struct ExternalRuntimeControlSetParams {
    pub thread_id: String,
    pub model: Option<String>,
    pub personality: Option<ControlSetting>,
    pub reasoning_effort: Option<ControlSetting>,
    pub collaboration_mode: Option<ControlSetting>,
    pub cwd: Option<String>,
}

/// What a change of the runtime controls is.
pub struct RuntimeControlSetParamsModel {
    pub thread_id: Seq<char>,
    pub model: Option<Seq<char>>,
    pub personality: Option<SettingModel>,
    pub reasoning_effort: Option<SettingModel>,
    pub collaboration_mode: Option<SettingModel>,
    pub cwd: Option<Seq<char>>,
}

impl Wire for ExternalRuntimeControlSetParams {
    type Model = RuntimeControlSetParamsModel;

    open spec fn model(self) -> RuntimeControlSetParamsModel {
        RuntimeControlSetParamsModel {
            thread_id: self.thread_id.model(),
            model: self.model.model(),
            personality: self.personality.model(),
            reasoning_effort: self.reasoning_effort.model(),
            collaboration_mode: self.collaboration_mode.model(),
            cwd: self.cwd.model(),
        }
    }

    open spec fn encode(model: RuntimeControlSetParamsModel) -> JsonView {
        JsonView::Object(
            Map::empty()
                .insert("threadId"@, String::encode(model.thread_id))
                .insert("model"@, Option::<String>::encode(model.model))
                .insert("personality"@, Option::<ControlSetting>::encode(model.personality))
                .insert(
                    "reasoningEffort"@,
                    Option::<ControlSetting>::encode(model.reasoning_effort),
                )
                .insert(
                    "collaborationMode"@,
                    Option::<ControlSetting>::encode(model.collaboration_mode),
                )
                .insert("cwd"@, Option::<String>::encode(model.cwd)),
        )
    }

    open spec fn decode(json: JsonView) -> Option<RuntimeControlSetParamsModel> {
        if !is_record(json, 6) {
            None
        } else {
            match (
                required::<String>(json, "threadId"@, 0),
                optional::<String>(json, "model"@, 1),
                optional::<ControlSetting>(json, "personality"@, 2),
                optional::<ControlSetting>(json, "reasoningEffort"@, 3),
                optional::<ControlSetting>(json, "collaborationMode"@, 4),
                optional::<String>(json, "cwd"@, 5),
            ) {
                (
                    Some(thread_id),
                    Some(model),
                    Some(personality),
                    Some(reasoning_effort),
                    Some(collaboration_mode),
                    Some(cwd),
                ) => Some(
                    RuntimeControlSetParamsModel {
                        thread_id,
                        model,
                        personality,
                        reasoning_effort,
                        collaboration_mode,
                        cwd,
                    },
                ),
                _ => None,
            }
        }
    }

    proof fn round_trip(model: RuntimeControlSetParamsModel) {
        reveal_strlit("threadId");
        reveal_strlit("model");
        reveal_strlit("personality");
        reveal_strlit("reasoningEffort");
        reveal_strlit("collaborationMode");
        reveal_strlit("cwd");
        assert("threadId"@.len() != "model"@.len());
        assert("threadId"@.len() != "personality"@.len());
        assert("threadId"@.len() != "reasoningEffort"@.len());
        assert("threadId"@.len() != "collaborationMode"@.len());
        assert("threadId"@.len() != "cwd"@.len());
        assert("model"@.len() != "personality"@.len());
        assert("model"@.len() != "reasoningEffort"@.len());
        assert("model"@.len() != "collaborationMode"@.len());
        assert("model"@.len() != "cwd"@.len());
        assert("personality"@.len() != "reasoningEffort"@.len());
        assert("personality"@.len() != "collaborationMode"@.len());
        assert("personality"@.len() != "cwd"@.len());
        assert("reasoningEffort"@.len() != "collaborationMode"@.len());
        assert("reasoningEffort"@.len() != "cwd"@.len());
        assert("collaborationMode"@.len() != "cwd"@.len());
        String::round_trip(model.thread_id);
        Option::<String>::round_trip(model.model);
        Option::<ControlSetting>::round_trip(model.personality);
        Option::<ControlSetting>::round_trip(model.reasoning_effort);
        Option::<ControlSetting>::round_trip(model.collaboration_mode);
        Option::<String>::round_trip(model.cwd);
    }

    fn to_json(&self) -> (r: JsonValue) {
        let mut members: Vec<(String, JsonValue)> = Vec::new();
        add_member(&mut members, "threadId", self.thread_id.to_json());
        add_member(&mut members, "model", self.model.to_json());
        add_member(&mut members, "personality", self.personality.to_json());
        add_member(&mut members, "reasoningEffort", self.reasoning_effort.to_json());
        add_member(&mut members, "collaborationMode", self.collaboration_mode.to_json());
        add_member(&mut members, "cwd", self.cwd.to_json());
        JsonValue::Object(members)
    }

    fn from_json(json: &JsonValue) -> (r: Option<ExternalRuntimeControlSetParams>) {
        if !record_shape(json, 6) {
            return None;
        }
        let thread_id = read_required::<String>(json, "threadId", 0);
        let model = read_optional::<String>(json, "model", 1);
        let personality = read_optional::<ControlSetting>(json, "personality", 2);
        let reasoning_effort = read_optional::<ControlSetting>(json, "reasoningEffort", 3);
        let collaboration_mode = read_optional::<ControlSetting>(json, "collaborationMode", 4);
        let cwd = read_optional::<String>(json, "cwd", 5);
        match (thread_id, model, personality, reasoning_effort, collaboration_mode, cwd) {
            (
                Some(thread_id),
                Some(model),
                Some(personality),
                Some(reasoning_effort),
                Some(collaboration_mode),
                Some(cwd),
            ) => Some(
                ExternalRuntimeControlSetParams {
                    thread_id,
                    model,
                    personality,
                    reasoning_effort,
                    collaboration_mode,
                    cwd,
                },
            ),
            _ => None,
        }
    }
}

/// The answer to a change of the runtime controls.
#[derive(Debug, Clone, PartialEq)]
pub struct ExternalRuntimeControlSetResponse {}

/// What the answer to a change of the runtime controls is.
pub struct RuntimeControlSetResponseModel {}

impl Wire for ExternalRuntimeControlSetResponse {
    type Model = RuntimeControlSetResponseModel;

    open spec fn model(self) -> RuntimeControlSetResponseModel {
        RuntimeControlSetResponseModel {}
    }

    open spec fn encode(model: RuntimeControlSetResponseModel) -> JsonView {
        JsonView::Object(Map::empty())
    }

    open spec fn decode(json: JsonView) -> Option<RuntimeControlSetResponseModel> {
        if is_record(json, 0) {
            Some(RuntimeControlSetResponseModel {})
        } else {
            None
        }
    }

    proof fn round_trip(model: RuntimeControlSetResponseModel) {
    }

    fn to_json(&self) -> (r: JsonValue) {
        JsonValue::Object(Vec::new())
    }

    fn from_json(json: &JsonValue) -> (r: Option<ExternalRuntimeControlSetResponse>) {
        if !record_shape(json, 0) {
            return None;
        }
        Some(ExternalRuntimeControlSetResponse {})
    }
}

/// Tells that a queue changed.
#[derive(Debug, Clone, PartialEq)]
pub struct ExternalQueueUpdatedNotification {
    pub thread_id: String,
    pub queue_kind: ExternalInputQueueKind,
    pub operation: ExternalQueueOperation,
    pub item: Option<ExternalQueuedInput>,
}

/// What the news that a queue changed is.
pub struct QueueUpdatedModel {
    pub thread_id: Seq<char>,
    pub queue_kind: ExternalInputQueueKind,
    pub operation: ExternalQueueOperation,
    pub item: Option<QueuedInputModel>,
}

impl Wire for ExternalQueueUpdatedNotification {
    type Model = QueueUpdatedModel;

    open spec fn model(self) -> QueueUpdatedModel {
        QueueUpdatedModel {
            thread_id: self.thread_id.model(),
            queue_kind: self.queue_kind.model(),
            operation: self.operation.model(),
            item: self.item.model(),
        }
    }

    open spec fn encode(model: QueueUpdatedModel) -> JsonView {
        JsonView::Object(
            Map::empty()
                .insert("threadId"@, String::encode(model.thread_id))
                .insert("queueKind"@, ExternalInputQueueKind::encode(model.queue_kind))
                .insert("operation"@, ExternalQueueOperation::encode(model.operation))
                .insert("item"@, Option::<ExternalQueuedInput>::encode(model.item)),
        )
    }

    open spec fn decode(json: JsonView) -> Option<QueueUpdatedModel> {
        if !is_record(json, 4) {
            None
        } else {
            match (
                required::<String>(json, "threadId"@, 0),
                required::<ExternalInputQueueKind>(json, "queueKind"@, 1),
                required::<ExternalQueueOperation>(json, "operation"@, 2),
                optional::<ExternalQueuedInput>(json, "item"@, 3),
            ) {
                (Some(thread_id), Some(queue_kind), Some(operation), Some(item)) => Some(
                    QueueUpdatedModel { thread_id, queue_kind, operation, item },
                ),
                _ => None,
            }
        }
    }

    proof fn round_trip(model: QueueUpdatedModel) {
        reveal_strlit("threadId");
        reveal_strlit("queueKind");
        reveal_strlit("operation");
        reveal_strlit("item");
        assert("threadId"@.len() != "queueKind"@.len());
        assert("threadId"@.len() != "operation"@.len());
        assert("threadId"@.len() != "item"@.len());
        assert("queueKind"@[0] != "operation"@[0]);
        assert("queueKind"@.len() != "item"@.len());
        assert("operation"@.len() != "item"@.len());
        String::round_trip(model.thread_id);
        ExternalInputQueueKind::round_trip(model.queue_kind);
        ExternalQueueOperation::round_trip(model.operation);
        Option::<ExternalQueuedInput>::round_trip(model.item);
    }

    fn to_json(&self) -> (r: JsonValue) {
        let mut members: Vec<(String, JsonValue)> = Vec::new();
        add_member(&mut members, "threadId", self.thread_id.to_json());
        add_member(&mut members, "queueKind", self.queue_kind.to_json());
        add_member(&mut members, "operation", self.operation.to_json());
        add_member(&mut members, "item", self.item.to_json());
        JsonValue::Object(members)
    }

    fn from_json(json: &JsonValue) -> (r: Option<ExternalQueueUpdatedNotification>) {
        if !record_shape(json, 4) {
            return None;
        }
        let thread_id = read_required::<String>(json, "threadId", 0);
        let queue_kind = read_required::<ExternalInputQueueKind>(json, "queueKind", 1);
        let operation = read_required::<ExternalQueueOperation>(json, "operation", 2);
        let item = read_optional::<ExternalQueuedInput>(json, "item", 3);
        match (thread_id, queue_kind, operation, item) {
            (Some(thread_id), Some(queue_kind), Some(operation), Some(item)) => Some(
                ExternalQueueUpdatedNotification { thread_id, queue_kind, operation, item },
            ),
            _ => None,
        }
    }
}

/// What a piece of a stream belongs to.
#[derive(Debug, Clone, Copy, PartialEq, Eq, Structural)]
pub enum ExternalStreamChannel {
    InputEcho,
    OutputText,
    ReasoningSummary,
    ReasoningContent,
    ToolLifecycle,
    TerminalOutput,
}

impl ExternalStreamChannel {
    /// The name of the value in JSON.
    pub open spec fn name(self) -> Seq<char> {
        match self {
            ExternalStreamChannel::InputEcho => "inputEcho"@,
            ExternalStreamChannel::OutputText => "outputText"@,
            ExternalStreamChannel::ReasoningSummary => "reasoningSummary"@,
            ExternalStreamChannel::ReasoningContent => "reasoningContent"@,
            ExternalStreamChannel::ToolLifecycle => "toolLifecycle"@,
            ExternalStreamChannel::TerminalOutput => "terminalOutput"@,
        }
    }
}

impl Wire for ExternalStreamChannel {
    type Model = ExternalStreamChannel;

    open spec fn model(self) -> ExternalStreamChannel {
        self
    }

    open spec fn encode(model: ExternalStreamChannel) -> JsonView {
        JsonView::Text(model.name())
    }

    open spec fn decode(json: JsonView) -> Option<ExternalStreamChannel> {
        match variant_name(json) {
            Some(name) => if name == "inputEcho"@ {
                Some(ExternalStreamChannel::InputEcho)
            } else if name == "outputText"@ {
                Some(ExternalStreamChannel::OutputText)
            } else if name == "reasoningSummary"@ {
                Some(ExternalStreamChannel::ReasoningSummary)
            } else if name == "reasoningContent"@ {
                Some(ExternalStreamChannel::ReasoningContent)
            } else if name == "toolLifecycle"@ {
                Some(ExternalStreamChannel::ToolLifecycle)
            } else if name == "terminalOutput"@ {
                Some(ExternalStreamChannel::TerminalOutput)
            } else {
                None
            },
            None => None,
        }
    }

    proof fn round_trip(model: ExternalStreamChannel) {
        reveal_strlit("inputEcho");
        reveal_strlit("outputText");
        reveal_strlit("reasoningSummary");
        reveal_strlit("reasoningContent");
        reveal_strlit("toolLifecycle");
        reveal_strlit("terminalOutput");
        assert("inputEcho"@.len() != "outputText"@.len());
        assert("inputEcho"@.len() != "reasoningSummary"@.len());
        assert("inputEcho"@.len() != "reasoningContent"@.len());
        assert("inputEcho"@.len() != "toolLifecycle"@.len());
        assert("inputEcho"@.len() != "terminalOutput"@.len());
        assert("outputText"@.len() != "reasoningSummary"@.len());
        assert("outputText"@.len() != "reasoningContent"@.len());
        assert("outputText"@.len() != "toolLifecycle"@.len());
        assert("outputText"@.len() != "terminalOutput"@.len());
        assert("reasoningSummary"@[9] != "reasoningContent"@[9]);
        assert("reasoningSummary"@.len() != "toolLifecycle"@.len());
        assert("reasoningSummary"@.len() != "terminalOutput"@.len());
        assert("reasoningContent"@.len() != "toolLifecycle"@.len());
        assert("reasoningContent"@.len() != "terminalOutput"@.len());
        assert("toolLifecycle"@.len() != "terminalOutput"@.len());
    }

    fn to_json(&self) -> (r: JsonValue) {
        let name = match self {
            ExternalStreamChannel::InputEcho => "inputEcho",
            ExternalStreamChannel::OutputText => "outputText",
            ExternalStreamChannel::ReasoningSummary => "reasoningSummary",
            ExternalStreamChannel::ReasoningContent => "reasoningContent",
            ExternalStreamChannel::ToolLifecycle => "toolLifecycle",
            ExternalStreamChannel::TerminalOutput => "terminalOutput",
        };
        JsonValue::Text(name.to_string())
    }

    fn from_json(json: &JsonValue) -> (r: Option<ExternalStreamChannel>) {
        match read_variant_name(json) {
            Some(name) => if same_text(name.as_str(), "inputEcho") {
                Some(ExternalStreamChannel::InputEcho)
            } else if same_text(name.as_str(), "outputText") {
                Some(ExternalStreamChannel::OutputText)
            } else if same_text(name.as_str(), "reasoningSummary") {
                Some(ExternalStreamChannel::ReasoningSummary)
            } else if same_text(name.as_str(), "reasoningContent") {
                Some(ExternalStreamChannel::ReasoningContent)
            } else if same_text(name.as_str(), "toolLifecycle") {
                Some(ExternalStreamChannel::ToolLifecycle)
            } else if same_text(name.as_str(), "terminalOutput") {
                Some(ExternalStreamChannel::TerminalOutput)
            } else {
                None
            },
            None => None,
        }
    }
}

impl WireNotNull for ExternalStreamChannel {
    proof fn never_null(model: ExternalStreamChannel) {
    }
}

/// A piece of a stream.
#[derive(Debug, Clone, PartialEq)]
pub struct ExternalStreamDeltaNotification {
    pub thread_id: String,
    pub turn_id: Option<String>,
    pub channel: ExternalStreamChannel,
    /// Monotonic sequence for external consumers to detect missed events.
    pub sequence: u64,
    pub delta: String,
}

/// What a piece of a stream is.
pub struct StreamDeltaModel {
    pub thread_id: Seq<char>,
    pub turn_id: Option<Seq<char>>,
    pub channel: ExternalStreamChannel,
    pub sequence: u64,
    pub delta: Seq<char>,
}

impl Wire for ExternalStreamDeltaNotification {
    type Model = StreamDeltaModel;

    open spec fn model(self) -> StreamDeltaModel {
        StreamDeltaModel {
            thread_id: self.thread_id.model(),
            turn_id: self.turn_id.model(),
            channel: self.channel.model(),
            sequence: self.sequence.model(),
            delta: self.delta.model(),
        }
    }

    open spec fn encode(model: StreamDeltaModel) -> JsonView {
        JsonView::Object(
            Map::empty()
                .insert("threadId"@, String::encode(model.thread_id))
                .insert("turnId"@, Option::<String>::encode(model.turn_id))
                .insert("channel"@, ExternalStreamChannel::encode(model.channel))
                .insert("sequence"@, u64::encode(model.sequence))
                .insert("delta"@, String::encode(model.delta)),
        )
    }

    open spec fn decode(json: JsonView) -> Option<StreamDeltaModel> {
        if !is_record(json, 5) {
            None
        } else {
            match (
                required::<String>(json, "threadId"@, 0),
                optional::<String>(json, "turnId"@, 1),
                required::<ExternalStreamChannel>(json, "channel"@, 2),
                required::<u64>(json, "sequence"@, 3),
                required::<String>(json, "delta"@, 4),
            ) {
                (
                    Some(thread_id),
                    Some(turn_id),
                    Some(channel),
                    Some(sequence),
                    Some(delta),
                ) => Some(
                    StreamDeltaModel { thread_id, turn_id, channel, sequence, delta },
                ),
                _ => None,
            }
        }
    }

    proof fn round_trip(model: StreamDeltaModel) {
        reveal_strlit("threadId");
        reveal_strlit("turnId");
        reveal_strlit("channel");
        reveal_strlit("sequence");
        reveal_strlit("delta");
        assert("threadId"@.len() != "turnId"@.len());
        assert("threadId"@.len() != "channel"@.len());
        assert("threadId"@[0] != "sequence"@[0]);
        assert("threadId"@.len() != "delta"@.len());
        assert("turnId"@.len() != "channel"@.len());
        assert("turnId"@.len() != "sequence"@.len());
        assert("turnId"@.len() != "delta"@.len());
        assert("channel"@.len() != "sequence"@.len());
        assert("channel"@.len() != "delta"@.len());
        assert("sequence"@.len() != "delta"@.len());
        String::round_trip(model.thread_id);
        Option::<String>::round_trip(model.turn_id);
        ExternalStreamChannel::round_trip(model.channel);
        u64::round_trip(model.sequence);
        String::round_trip(model.delta);
    }

    fn to_json(&self) -> (r: JsonValue) {
        let mut members: Vec<(String, JsonValue)> = Vec::new();
        add_member(&mut members, "threadId", self.thread_id.to_json());
        add_member(&mut members, "turnId", self.turn_id.to_json());
        add_member(&mut members, "channel", self.channel.to_json());
        add_member(&mut members, "sequence", self.sequence.to_json());
        add_member(&mut members, "delta", self.delta.to_json());
        JsonValue::Object(members)
    }

    fn from_json(json: &JsonValue) -> (r: Option<ExternalStreamDeltaNotification>) {
        if !record_shape(json, 5) {
            return None;
        }
        let thread_id = read_required::<String>(json, "threadId", 0);
        let turn_id = read_optional::<String>(json, "turnId", 1);
        let channel = read_required::<ExternalStreamChannel>(json, "channel", 2);
        let sequence = read_required::<u64>(json, "sequence", 3);
        let delta = read_required::<String>(json, "delta", 4);
        match (thread_id, turn_id, channel, sequence, delta) {
            (Some(thread_id), Some(turn_id), Some(channel), Some(sequence), Some(delta)) => Some(
                ExternalStreamDeltaNotification { thread_id, turn_id, channel, sequence, delta },
            ),
            _ => None,
        }
    }
}

/// What a permission is asked for.
#[derive(Debug, Clone, Copy, PartialEq, Eq, Structural)]
pub enum ExternalPermissionRequestKind {
    CommandExecution,
    FileChange,
    Permissions,
    McpElicitation,
}

impl ExternalPermissionRequestKind {
    /// The name of the value in JSON.
    pub open spec fn name(self) -> Seq<char> {
        match self {
            ExternalPermissionRequestKind::CommandExecution => "commandExecution"@,
            ExternalPermissionRequestKind::FileChange => "fileChange"@,
            ExternalPermissionRequestKind::Permissions => "permissions"@,
            ExternalPermissionRequestKind::McpElicitation => "mcpElicitation"@,
        }
    }
}

impl Wire for ExternalPermissionRequestKind {
    type Model = ExternalPermissionRequestKind;

    open spec fn model(self) -> ExternalPermissionRequestKind {
        self
    }

    open spec fn encode(model: ExternalPermissionRequestKind) -> JsonView {
        JsonView::Text(model.name())
    }

    open spec fn decode(json: JsonView) -> Option<ExternalPermissionRequestKind> {
        match variant_name(json) {
            Some(name) => if name == "commandExecution"@ {
                Some(ExternalPermissionRequestKind::CommandExecution)
            } else if name == "fileChange"@ {
                Some(ExternalPermissionRequestKind::FileChange)
            } else if name == "permissions"@ {
                Some(ExternalPermissionRequestKind::Permissions)
            } else if name == "mcpElicitation"@ {
                Some(ExternalPermissionRequestKind::McpElicitation)
            } else {
                None
            },
            None => None,
        }
    }

    proof fn round_trip(model: ExternalPermissionRequestKind) {
        reveal_strlit("commandExecution");
        reveal_strlit("fileChange");
        reveal_strlit("permissions");
        reveal_strlit("mcpElicitation");
        assert("commandExecution"@.len() != "fileChange"@.len());
        assert("commandExecution"@.len() != "permissions"@.len());
        assert("commandExecution"@.len() != "mcpElicitation"@.len());
        assert("fileChange"@.len() != "permissions"@.len());
        assert("fileChange"@.len() != "mcpElicitation"@.len());
        assert("permissions"@.len() != "mcpElicitation"@.len());
    }

    fn to_json(&self) -> (r: JsonValue) {
        let name = match self {
            ExternalPermissionRequestKind::CommandExecution => "commandExecution",
            ExternalPermissionRequestKind::FileChange => "fileChange",
            ExternalPermissionRequestKind::Permissions => "permissions",
            ExternalPermissionRequestKind::McpElicitation => "mcpElicitation",
        };
        JsonValue::Text(name.to_string())
    }

    fn from_json(json: &JsonValue) -> (r: Option<ExternalPermissionRequestKind>) {
        match read_variant_name(json) {
            Some(name) => if same_text(name.as_str(), "commandExecution") {
                Some(ExternalPermissionRequestKind::CommandExecution)
            } else if same_text(name.as_str(), "fileChange") {
                Some(ExternalPermissionRequestKind::FileChange)
            } else if same_text(name.as_str(), "permissions") {
                Some(ExternalPermissionRequestKind::Permissions)
            } else if same_text(name.as_str(), "mcpElicitation") {
                Some(ExternalPermissionRequestKind::McpElicitation)
            } else {
                None
            },
            None => None,
        }
    }
}

impl WireNotNull for ExternalPermissionRequestKind {
    proof fn never_null(model: ExternalPermissionRequestKind) {
    }
}

/// Tells that a permission is asked for.
#[derive(Debug, Clone, PartialEq)]
pub struct ExternalPermissionRequestNotification {
    pub thread_id: String,
    pub turn_id: Option<String>,
    pub request_id: String,
    pub kind: ExternalPermissionRequestKind,
    /// Raw payload mirrors the app-server request params shape.
    pub payload: JsonValue,
}

/// What the news that a permission is asked for is.
pub struct PermissionRequestModel {
    pub thread_id: Seq<char>,
    pub turn_id: Option<Seq<char>>,
    pub request_id: Seq<char>,
    pub kind: ExternalPermissionRequestKind,
    pub payload: JsonView,
}

impl Wire for ExternalPermissionRequestNotification {
    type Model = PermissionRequestModel;

    open spec fn model(self) -> PermissionRequestModel {
        PermissionRequestModel {
            thread_id: self.thread_id.model(),
            turn_id: self.turn_id.model(),
            request_id: self.request_id.model(),
            kind: self.kind.model(),
            payload: self.payload.model(),
        }
    }

    open spec fn encode(model: PermissionRequestModel) -> JsonView {
        JsonView::Object(
            Map::empty()
                .insert("threadId"@, String::encode(model.thread_id))
                .insert("turnId"@, Option::<String>::encode(model.turn_id))
                .insert("requestId"@, String::encode(model.request_id))
                .insert("kind"@, ExternalPermissionRequestKind::encode(model.kind))
                .insert("payload"@, JsonValue::encode(model.payload)),
        )
    }

    open spec fn decode(json: JsonView) -> Option<PermissionRequestModel> {
        if !is_record(json, 5) {
            None
        } else {
            match (
                required::<String>(json, "threadId"@, 0),
                optional::<String>(json, "turnId"@, 1),
                required::<String>(json, "requestId"@, 2),
                required::<ExternalPermissionRequestKind>(json, "kind"@, 3),
                required::<JsonValue>(json, "payload"@, 4),
            ) {
                (
                    Some(thread_id),
                    Some(turn_id),
                    Some(request_id),
                    Some(kind),
                    Some(payload),
                ) => Some(
                    PermissionRequestModel { thread_id, turn_id, request_id, kind, payload },
                ),
                _ => None,
            }
        }
    }

    proof fn round_trip(model: PermissionRequestModel) {
        reveal_strlit("threadId");
        reveal_strlit("turnId");
        reveal_strlit("requestId");
        reveal_strlit("kind");
        reveal_strlit("payload");
        assert("threadId"@.len() != "turnId"@.len());
        assert("threadId"@.len() != "requestId"@.len());
        assert("threadId"@.len() != "kind"@.len());
        assert("threadId"@.len() != "payload"@.len());
        assert("turnId"@.len() != "requestId"@.len());
        assert("turnId"@.len() != "kind"@.len());
        assert("turnId"@.len() != "payload"@.len());
        assert("requestId"@.len() != "kind"@.len());
        assert("requestId"@.len() != "payload"@.len());
        assert("kind"@.len() != "payload"@.len());
        String::round_trip(model.thread_id);
        Option::<String>::round_trip(model.turn_id);
        String::round_trip(model.request_id);
        ExternalPermissionRequestKind::round_trip(model.kind);
        JsonValue::round_trip(model.payload);
    }

    fn to_json(&self) -> (r: JsonValue) {
        let mut members: Vec<(String, JsonValue)> = Vec::new();
        add_member(&mut members, "threadId", self.thread_id.to_json());
        add_member(&mut members, "turnId", self.turn_id.to_json());
        add_member(&mut members, "requestId", self.request_id.to_json());
        add_member(&mut members, "kind", self.kind.to_json());
        add_member(&mut members, "payload", self.payload.to_json());
        JsonValue::Object(members)
    }

    fn from_json(json: &JsonValue) -> (r: Option<ExternalPermissionRequestNotification>) {
        if !record_shape(json, 5) {
            return None;
        }
        let thread_id = read_required::<String>(json, "threadId", 0);
        let turn_id = read_optional::<String>(json, "turnId", 1);
        let request_id = read_required::<String>(json, "requestId", 2);
        let kind = read_required::<ExternalPermissionRequestKind>(json, "kind", 3);
        let payload = read_required::<JsonValue>(json, "payload", 4);
        match (thread_id, turn_id, request_id, kind, payload) {
            (Some(thread_id), Some(turn_id), Some(request_id), Some(kind), Some(payload)) => Some(
                ExternalPermissionRequestNotification {
                    thread_id,
                    turn_id,
                    request_id,
                    kind,
                    payload,
                },
            ),
            _ => None,
        }
    }
}

/// Tells how a request for permission was answered.
#[derive(Debug, Clone, PartialEq)]
pub struct ExternalPermissionResolvedNotification {
    pub thread_id: String,
    pub request_id: String,
    pub approved: bool,
    pub decision: Option<String>,
}

/// What the news of an answered request for permission is.
pub struct PermissionResolvedModel {
    pub thread_id: Seq<char>,
    pub request_id: Seq<char>,
    pub approved: bool,
    pub decision: Option<Seq<char>>,
}

impl Wire for ExternalPermissionResolvedNotification {
    type Model = PermissionResolvedModel;

    open spec fn model(self) -> PermissionResolvedModel {
        PermissionResolvedModel {
            thread_id: self.thread_id.model(),
            request_id: self.request_id.model(),
            approved: self.approved.model(),
            decision: self.decision.model(),
        }
    }

    open spec fn encode(model: PermissionResolvedModel) -> JsonView {
        JsonView::Object(
            Map::empty()
                .insert("threadId"@, String::encode(model.thread_id))
                .insert("requestId"@, String::encode(model.request_id))
                .insert("approved"@, bool::encode(model.approved))
                .insert("decision"@, Option::<String>::encode(model.decision)),
        )
    }

    open spec fn decode(json: JsonView) -> Option<PermissionResolvedModel> {
        if !is_record(json, 4) {
            None
        } else {
            match (
                required::<String>(json, "threadId"@, 0),
                required::<String>(json, "requestId"@, 1),
                required::<bool>(json, "approved"@, 2),
                optional::<String>(json, "decision"@, 3),
            ) {
                (Some(thread_id), Some(request_id), Some(approved), Some(decision)) => Some(
                    PermissionResolvedModel { thread_id, request_id, approved, decision },
                ),
                _ => None,
            }
        }
    }

    proof fn round_trip(model: PermissionResolvedModel) {
        reveal_strlit("threadId");
        reveal_strlit("requestId");
        reveal_strlit("approved");
        reveal_strlit("decision");
        assert("threadId"@.len() != "requestId"@.len());
        assert("threadId"@[0] != "approved"@[0]);
        assert("threadId"@[0] != "decision"@[0]);
        assert("requestId"@.len() != "approved"@.len());
        assert("requestId"@.len() != "decision"@.len());
        assert("approved"@[0] != "decision"@[0]);
        String::round_trip(model.thread_id);
        String::round_trip(model.request_id);
        bool::round_trip(model.approved);
        Option::<String>::round_trip(model.decision);
    }

    fn to_json(&self) -> (r: JsonValue) {
        let mut members: Vec<(String, JsonValue)> = Vec::new();
        add_member(&mut members, "threadId", self.thread_id.to_json());
        add_member(&mut members, "requestId", self.request_id.to_json());
        add_member(&mut members, "approved", self.approved.to_json());
        add_member(&mut members, "decision", self.decision.to_json());
        JsonValue::Object(members)
    }

    fn from_json(json: &JsonValue) -> (r: Option<ExternalPermissionResolvedNotification>) {
        if !record_shape(json, 4) {
            return None;
        }
        let thread_id = read_required::<String>(json, "threadId", 0);
        let request_id = read_required::<String>(json, "requestId", 1);
        let approved = read_required::<bool>(json, "approved", 2);
        let decision = read_optional::<String>(json, "decision", 3);
        match (thread_id, request_id, approved, decision) {
            (Some(thread_id), Some(request_id), Some(approved), Some(decision)) => Some(
                ExternalPermissionResolvedNotification {
                    thread_id,
                    request_id,
                    approved,
                    decision,
                },
            ),
            _ => None,
        }
    }
}

/// How a diff is written.
#[derive(Debug, Clone, Copy, PartialEq, Eq, Structural)]
pub enum ExternalDiffFormat {
    UnifiedPatch,
}

impl ExternalDiffFormat {
    /// The name of the value in JSON.
    pub open spec fn name(self) -> Seq<char> {
        match self {
            ExternalDiffFormat::UnifiedPatch => "unifiedPatch"@,
        }
    }
}

impl Wire for ExternalDiffFormat {
    type Model = ExternalDiffFormat;

    open spec fn model(self) -> ExternalDiffFormat {
        self
    }

    open spec fn encode(model: ExternalDiffFormat) -> JsonView {
        JsonView::Text(model.name())
    }

    open spec fn decode(json: JsonView) -> Option<ExternalDiffFormat> {
        match variant_name(json) {
            Some(name) => if name == "unifiedPatch"@ {
                Some(ExternalDiffFormat::UnifiedPatch)
            } else {
                None
            },
            None => None,
        }
    }

    proof fn round_trip(model: ExternalDiffFormat) {
        reveal_strlit("unifiedPatch");
    }

    fn to_json(&self) -> (r: JsonValue) {
        let name = match self {
            ExternalDiffFormat::UnifiedPatch => "unifiedPatch",
        };
        JsonValue::Text(name.to_string())
    }

    fn from_json(json: &JsonValue) -> (r: Option<ExternalDiffFormat>) {
        match read_variant_name(json) {
            Some(name) => if same_text(name.as_str(), "unifiedPatch") {
                Some(ExternalDiffFormat::UnifiedPatch)
            } else {
                None
            },
            None => None,
        }
    }
}

impl WireNotNull for ExternalDiffFormat {
    proof fn never_null(model: ExternalDiffFormat) {
    }
}

/// A piece of the diff of a turn.
#[derive(Debug, Clone, PartialEq)]
pub struct ExternalDiffChunkNotification {
    pub thread_id: String,
    pub turn_id: String,
    pub format: ExternalDiffFormat,
    pub chunk_index: u64,
    pub complete: bool,
    pub diff: String,
}

/// What a piece of the diff of a turn is.
pub struct DiffChunkModel {
    pub thread_id: Seq<char>,
    pub turn_id: Seq<char>,
    pub format: ExternalDiffFormat,
    pub chunk_index: u64,
    pub complete: bool,
    pub diff: Seq<char>,
}

impl Wire for ExternalDiffChunkNotification {
    type Model = DiffChunkModel;

    open spec fn model(self) -> DiffChunkModel {
        DiffChunkModel {
            thread_id: self.thread_id.model(),
            turn_id: self.turn_id.model(),
            format: self.format.model(),
            chunk_index: self.chunk_index.model(),
            complete: self.complete.model(),
            diff: self.diff.model(),
        }
    }

    open spec fn encode(model: DiffChunkModel) -> JsonView {
        JsonView::Object(
            Map::empty()
                .insert("threadId"@, String::encode(model.thread_id))
                .insert("turnId"@, String::encode(model.turn_id))
                .insert("format"@, ExternalDiffFormat::encode(model.format))
                .insert("chunkIndex"@, u64::encode(model.chunk_index))
                .insert("complete"@, bool::encode(model.complete))
                .insert("diff"@, String::encode(model.diff)),
        )
    }

    open spec fn decode(json: JsonView) -> Option<DiffChunkModel> {
        if !is_record(json, 6) {
            None
        } else {
            match (
                required::<String>(json, "threadId"@, 0),
                required::<String>(json, "turnId"@, 1),
                required::<ExternalDiffFormat>(json, "format"@, 2),
                required::<u64>(json, "chunkIndex"@, 3),
                required::<bool>(json, "complete"@, 4),
                required::<String>(json, "diff"@, 5),
            ) {
                (
                    Some(thread_id),
                    Some(turn_id),
                    Some(format),
                    Some(chunk_index),
                    Some(complete),
                    Some(diff),
                ) => Some(
                    DiffChunkModel { thread_id, turn_id, format, chunk_index, complete, diff },
                ),
                _ => None,
            }
        }
    }

    proof fn round_trip(model: DiffChunkModel) {
        reveal_strlit("threadId");
        reveal_strlit("turnId");
        reveal_strlit("format");
        reveal_strlit("chunkIndex");
        reveal_strlit("complete");
        reveal_strlit("diff");
        assert("threadId"@.len() != "turnId"@.len());
        assert("threadId"@.len() != "format"@.len());
        assert("threadId"@.len() != "chunkIndex"@.len());
        assert("threadId"@[0] != "complete"@[0]);
        assert("threadId"@.len() != "diff"@.len());
        assert("turnId"@[0] != "format"@[0]);
        assert("turnId"@.len() != "chunkIndex"@.len());
        assert("turnId"@.len() != "complete"@.len());
        assert("turnId"@.len() != "diff"@.len());
        assert("format"@.len() != "chunkIndex"@.len());
        assert("format"@.len() != "complete"@.len());
        assert("format"@.len() != "diff"@.len());
        assert("chunkIndex"@.len() != "complete"@.len());
        assert("chunkIndex"@.len() != "diff"@.len());
        assert("complete"@.len() != "diff"@.len());
        String::round_trip(model.thread_id);
        String::round_trip(model.turn_id);
        ExternalDiffFormat::round_trip(model.format);
        u64::round_trip(model.chunk_index);
        bool::round_trip(model.complete);
        String::round_trip(model.diff);
    }

    fn to_json(&self) -> (r: JsonValue) {
        let mut members: Vec<(String, JsonValue)> = Vec::new();
        add_member(&mut members, "threadId", self.thread_id.to_json());
        add_member(&mut members, "turnId", self.turn_id.to_json());
        add_member(&mut members, "format", self.format.to_json());
        add_member(&mut members, "chunkIndex", self.chunk_index.to_json());
        add_member(&mut members, "complete", self.complete.to_json());
        add_member(&mut members, "diff", self.diff.to_json());
        JsonValue::Object(members)
    }

    fn from_json(json: &JsonValue) -> (r: Option<ExternalDiffChunkNotification>) {
        if !record_shape(json, 6) {
            return None;
        }
        let thread_id = read_required::<String>(json, "threadId", 0);
        let turn_id = read_required::<String>(json, "turnId", 1);
        let format = read_required::<ExternalDiffFormat>(json, "format", 2);
        let chunk_index = read_required::<u64>(json, "chunkIndex", 3);
        let complete = read_required::<bool>(json, "complete", 4);
        let diff = read_required::<String>(json, "diff", 5);
        match (thread_id, turn_id, format, chunk_index, complete, diff) {
            (
                Some(thread_id),
                Some(turn_id),
                Some(format),
                Some(chunk_index),
                Some(complete),
                Some(diff),
            ) => Some(
                ExternalDiffChunkNotification {
                    thread_id,
                    turn_id,
                    format,
                    chunk_index,
                    complete,
                    diff,
                },
            ),
            _ => None,
        }
    }
}

} // verus!
