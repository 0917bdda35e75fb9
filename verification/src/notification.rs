//! The notifications that the adapter adds to the conversation, and how they
//! go out: one JSON text per line.

use vstd::prelude::*;
use vstd::string::*;

use crate::adapter::jsonrpc_message;
use crate::json::{
    add_member, fits_within, member, member_text, parsed_json, values_match, write_json,
    written_json, FloatMatch, JsonValue, JsonView,
};
use crate::protocol::{
    DiffChunkModel, ExternalDiffChunkNotification, ExternalPermissionRequestNotification,
    ExternalPermissionResolvedNotification, ExternalQueueUpdatedNotification, ExternalQueuedInput,
    ExternalStreamDeltaNotification, PermissionRequestModel, PermissionResolvedModel,
    QueueUpdatedModel, QueuedInputModel, StreamDeltaModel, UserInput, UserInputModel,
};
use crate::wire::Wire;

verus! {

/// A notification of the adapter's own.
#[derive(Debug, PartialEq)]
pub enum AdapterNotification {
    QueueUpdated(ExternalQueueUpdatedNotification),
    StreamDelta(ExternalStreamDeltaNotification),
    PermissionRequest(ExternalPermissionRequestNotification),
    PermissionResolved(ExternalPermissionResolvedNotification),
    DiffChunk(ExternalDiffChunkNotification),
}

/// What a notification is.
pub enum NotificationModel {
    QueueUpdated(QueueUpdatedModel),
    StreamDelta(StreamDeltaModel),
    PermissionRequest(PermissionRequestModel),
    PermissionResolved(PermissionResolvedModel),
    DiffChunk(DiffChunkModel),
}

impl NotificationModel {
    /// The method that the notification goes out under.
    pub open spec fn method(self) -> Seq<char> {
        match self {
            NotificationModel::QueueUpdated(_) => "adapter/queueUpdated"@,
            NotificationModel::StreamDelta(_) => "adapter/streamDelta"@,
            NotificationModel::PermissionRequest(_) => "adapter/permissionRequest"@,
            NotificationModel::PermissionResolved(_) => "adapter/permissionResolved"@,
            NotificationModel::DiffChunk(_) => "adapter/diffChunk"@,
        }
    }

    /// The parameters of the notification.
    pub open spec fn params(self) -> JsonView {
        match self {
            NotificationModel::QueueUpdated(m) => ExternalQueueUpdatedNotification::encode(m),
            NotificationModel::StreamDelta(m) => ExternalStreamDeltaNotification::encode(m),
            NotificationModel::PermissionRequest(
                m,
            ) => ExternalPermissionRequestNotification::encode(m),
            NotificationModel::PermissionResolved(
                m,
            ) => ExternalPermissionResolvedNotification::encode(m),
            NotificationModel::DiffChunk(m) => ExternalDiffChunkNotification::encode(m),
        }
    }

    /// The message that the notification goes out as.
    pub open spec fn message(self) -> JsonView {
        synthetic_message(self.method(), self.params())
    }

    /// The line that the notification goes out as.
    pub open spec fn line(self) -> Seq<char> {
        written_json(self.message()).push('\n')
    }

    /// Whether what the notification passes on from elsewhere, if anything, is
    /// nested within the depth that the JSON parser takes and has no huge
    /// numbers; where it is to be exact, none but integers and short decimals.
    pub open spec fn passes_on_within_depth(self, exact: bool) -> bool {
        match self {
            NotificationModel::PermissionRequest(m) => fits_within(m.payload, 125, exact),
            NotificationModel::QueueUpdated(m) => match m.item {
                Some(item) => forall|i: int|
                    0 <= i < item.input.len() ==> elements_fit(
                        #[trigger] item.input[i],
                        121,
                        exact,
                    ),
                None => true,
            },
            _ => true,
        }
    }
}

/// Whether the elements of an input item are nested within the depth and have no
/// numbers in them that the JSON parser may not read back.
pub open spec fn elements_fit(item: UserInputModel, depth: nat, exact: bool) -> bool {
    match item {
        UserInputModel::Text { text_elements, .. } => forall|i: int|
            0 <= i < text_elements.len() ==> fits_within(
                #[trigger] text_elements[i],
                depth,
                exact,
            ),
    }
}

/// A message with a method and parameters, and no id.
pub open spec fn synthetic_message(method: Seq<char>, params: JsonView) -> JsonView {
    JsonView::Object(
        Map::empty().insert("method"@, JsonView::Text(method)).insert("params"@, params),
    )
}

/// The notification that a message is, if it is one of the adapter's.
pub open spec fn notification_of(message: JsonView) -> Option<NotificationModel> {
    match (member_text(message, "method"@), member(message, "params"@)) {
        (Some(method), Some(params)) => if method == "adapter/queueUpdated"@ {
            match ExternalQueueUpdatedNotification::decode(params) {
                Some(m) => Some(NotificationModel::QueueUpdated(m)),
                None => None,
            }
        } else if method == "adapter/streamDelta"@ {
            match ExternalStreamDeltaNotification::decode(params) {
                Some(m) => Some(NotificationModel::StreamDelta(m)),
                None => None,
            }
        } else if method == "adapter/permissionRequest"@ {
            match ExternalPermissionRequestNotification::decode(params) {
                Some(m) => Some(NotificationModel::PermissionRequest(m)),
                None => None,
            }
        } else if method == "adapter/permissionResolved"@ {
            match ExternalPermissionResolvedNotification::decode(params) {
                Some(m) => Some(NotificationModel::PermissionResolved(m)),
                None => None,
            }
        } else if method == "adapter/diffChunk"@ {
            match ExternalDiffChunkNotification::decode(params) {
                Some(m) => Some(NotificationModel::DiffChunk(m)),
                None => None,
            }
        } else {
            None
        },
        _ => None,
    }
}

/// The notification can be read back from the message that it goes out as.
pub proof fn message_tells_the_notification(notification: NotificationModel)
    ensures
        notification_of(notification.message()) == Some(notification),
{
    reveal_strlit("method");
    reveal_strlit("params");
    assert("method"@[0] != "params"@[0]);
    reveal_strlit("adapter/queueUpdated");
    reveal_strlit("adapter/streamDelta");
    reveal_strlit("adapter/permissionRequest");
    reveal_strlit("adapter/permissionResolved");
    reveal_strlit("adapter/diffChunk");
    assert("adapter/queueUpdated"@.len() == 20);
    assert("adapter/streamDelta"@.len() == 19);
    assert("adapter/permissionRequest"@.len() == 25);
    assert("adapter/permissionResolved"@.len() == 26);
    assert("adapter/diffChunk"@.len() == 17);
    match notification {
        NotificationModel::QueueUpdated(m) => {
            ExternalQueueUpdatedNotification::round_trip(m);
        },
        NotificationModel::StreamDelta(m) => {
            ExternalStreamDeltaNotification::round_trip(m);
        },
        NotificationModel::PermissionRequest(m) => {
            ExternalPermissionRequestNotification::round_trip(m);
        },
        NotificationModel::PermissionResolved(m) => {
            ExternalPermissionResolvedNotification::round_trip(m);
        },
        NotificationModel::DiffChunk(m) => {
            ExternalDiffChunkNotification::round_trip(m);
        },
    }
}

proof fn lemma_input_fits(item: UserInputModel, exact: bool)
    requires
        elements_fit(item, 121, exact),
    ensures
        fits_within(UserInput::encode(item), 123, exact),
{
    let elements = item->text_elements;
    let array = Vec::<JsonValue>::encode(elements);
    assert(fits_within(array, 122, exact)) by {
        let items = array->Array_0;
        assert forall|i: int| 0 <= i < items.len() implies fits_within(
            #[trigger] items[i],
            121,
            exact,
        ) by {
            assert(items[i] == elements[i]);
        }
    }
    let members = UserInput::encode(item)->Object_0;
    assert forall|name: Seq<char>| members.contains_key(name) implies fits_within(
            #[trigger] members[name],
        122,
        exact,
    ) by {}
}

proof fn lemma_queued_input_fits(item: QueuedInputModel, exact: bool)
    requires
        forall|i: int| 0 <= i < item.input.len() ==> elements_fit(
                        #[trigger] item.input[i],
                        121,
                        exact,
                    ),
    ensures
        fits_within(ExternalQueuedInput::encode(item), 125, exact),
{
    let array = Vec::<UserInput>::encode(item.input);
    assert(fits_within(array, 124, exact)) by {
        let items = array->Array_0;
        assert forall|i: int| 0 <= i < items.len() implies fits_within(
            #[trigger] items[i],
            123,
            exact,
        ) by {
            assert(items[i] == UserInput::encode(item.input[i]));
            lemma_input_fits(item.input[i], exact);
        }
    }
    let members = ExternalQueuedInput::encode(item)->Object_0;
    assert forall|name: Seq<char>| members.contains_key(name) implies fits_within(
            #[trigger] members[name],
        124,
        exact,
    ) by {}
}

/// The message of a notification fits where what it passes on does.
proof fn lemma_message_fits(notification: NotificationModel, exact: bool)
    requires
        notification.passes_on_within_depth(exact),
    ensures
        fits_within(notification.message(), 127, exact),
{
    let params = notification.params();
    let fields = params->Object_0;
    if let NotificationModel::QueueUpdated(m) = notification {
        if let Some(item) = m.item {
            lemma_queued_input_fits(item, exact);
        }
    }
    assert forall|name: Seq<char>| fields.contains_key(name) implies fits_within(
            #[trigger] fields[name],
        125,
        exact,
    ) by {}
    assert(fits_within(params, 126, exact));
    let members = notification.message()->Object_0;
    assert forall|name: Seq<char>| members.contains_key(name) implies fits_within(
            #[trigger] members[name],
        126,
        exact,
    ) by {}
}

impl AdapterNotification {
    pub open spec fn model(self) -> NotificationModel {
        match self {
            AdapterNotification::QueueUpdated(n) => NotificationModel::QueueUpdated(n.model()),
            AdapterNotification::StreamDelta(n) => NotificationModel::StreamDelta(n.model()),
            AdapterNotification::PermissionRequest(n) => NotificationModel::PermissionRequest(
                n.model(),
            ),
            AdapterNotification::PermissionResolved(n) => NotificationModel::PermissionResolved(
                n.model(),
            ),
            AdapterNotification::DiffChunk(n) => NotificationModel::DiffChunk(n.model()),
        }
    }

    /// The method that the notification goes out under.
    pub fn method(&self) -> (r: &'static str)
        ensures
            r@ == self.model().method(),
    {
        match self {
            AdapterNotification::QueueUpdated(_) => "adapter/queueUpdated",
            AdapterNotification::StreamDelta(_) => "adapter/streamDelta",
            AdapterNotification::PermissionRequest(_) => "adapter/permissionRequest",
            AdapterNotification::PermissionResolved(_) => "adapter/permissionResolved",
            AdapterNotification::DiffChunk(_) => "adapter/diffChunk",
        }
    }

    /// The parameters of the notification.
    pub fn params(&self) -> (r: JsonValue)
        ensures
            r@ == self.model().params(),
    {
        match self {
            AdapterNotification::QueueUpdated(n) => n.to_json(),
            AdapterNotification::StreamDelta(n) => n.to_json(),
            AdapterNotification::PermissionRequest(n) => n.to_json(),
            AdapterNotification::PermissionResolved(n) => n.to_json(),
            AdapterNotification::DiffChunk(n) => n.to_json(),
        }
    }

    /// The message that the notification goes out as.
    pub fn message(&self) -> (r: JsonValue)
        ensures
            r@ == self.model().message(),
    {
        let mut members: Vec<(String, JsonValue)> = Vec::new();
        add_member(&mut members, "method", JsonValue::Text(self.method().to_string()));
        add_member(&mut members, "params", self.params());
        JsonValue::Object(members)
    }
}

/// The characters that a line goes out as.
pub fn write_json_line(line: &str) -> (r: String)
    ensures
        r@ == line@.push('\n'),
{
    proof {
        reveal_strlit("\n");
    }
    let mut r = line.to_string();
    r.append("\n");
    assert(r@ =~= line@.push('\n'));
    r
}

/// Whether a text reads as a notification: as a JSON-RPC message that has the
/// notification's method, its parameters up to the numbers in them that are no
/// integers, and nothing else; no id, above all.
pub open spec fn reads_as(text: Seq<char>, notification: NotificationModel) -> bool {
    match jsonrpc_message(text) {
        Some(JsonView::Object(members)) => {
            &&& members.dom() == Set::empty().insert("method"@).insert("params"@)
            &&& members["method"@] == JsonView::Text(notification.method())
            &&& values_match(notification.params(), members["params"@], FloatMatch::Any)
        },
        _ => false,
    }
}

/// What matches the message of a notification is a message of that form.
proof fn lemma_reads_as(text: Seq<char>, notification: NotificationModel)
    requires
        parsed_json(text) is Some,
        values_match(notification.message(), parsed_json(text)->0, FloatMatch::Any),
    ensures
        reads_as(text, notification),
{
    reveal_strlit("method");
    reveal_strlit("params");
    assert("method"@[0] != "params"@[0]);
    let sent = notification.message()->Object_0;
    let read = parsed_json(text)->0->Object_0;
    assert(sent.dom() =~= Set::empty().insert("method"@).insert("params"@));
    assert(read.contains_key("method"@));
    assert(values_match(sent["method"@], read["method"@], FloatMatch::Any));
    assert(values_match(sent["params"@], read["params"@], FloatMatch::Any));
}

/// The line that a notification of the adapter's own goes out as.
///
/// It is a single line, and what a reader gets from it is the notification.
pub fn write_synthetic_notification(notification: &AdapterNotification) -> (r: String)
    ensures
        r@ == notification.model().line(),
        forall|i: int| 0 <= i < r@.len() ==> (#[trigger] r@[i] == '\n' <==> i == r@.len() - 1),
        notification.model().passes_on_within_depth(false) ==> reads_as(
            r@.drop_last(),
            notification.model(),
        ),
        notification.model().passes_on_within_depth(true) ==> parsed_json(r@.drop_last()) == Some(
            notification.model().message(),
        ) && notification_of(notification.model().message()) == Some(notification.model()),
{
    let message = notification.message();
    let text = write_json(&message);
    let r = write_json_line(text.as_str());
    proof {
        let model = notification.model();
        assert(r@.drop_last() =~= text@);
        assert forall|i: int| 0 <= i < r@.len() implies (#[trigger] r@[i] == '\n' <==> i == r@.len()
            - 1) by {
            if i < r@.len() - 1 {
                assert(r@[i] == text@[i]);
                assert(text@[i] as u32 >= 0x20);
            }
        }
        message_tells_the_notification(model);
        if model.passes_on_within_depth(true) {
            lemma_message_fits(model, true);
        }
        if model.passes_on_within_depth(false) {
            lemma_message_fits(model, false);
            lemma_reads_as(text@, model);
        }
    }
    r
}

} // verus!
