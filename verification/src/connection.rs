//! One connection of a client: what comes in from either side, and what goes
//! out to which.

use vstd::prelude::*;
use vstd::string::*;

use crate::adapter::{
    client_notifications, client_notifications_for_some_id, client_side_notifications,
    echo_reads_back, echo_tells_input, jsonrpc_message, maybe_capture_permission_request,
    maybe_emit_client_side_notifications, maybe_emit_permission_resolved,
    maybe_emit_stream_notifications, message_queue, notification_models, parse_jsonrpc_message,
    pending_after_answer, pending_after_request, permission_request, permission_resolved,
    sequence_after, sequence_after_client, stream_notification,
};
use crate::json::{JsonValue, JsonView};
use crate::notification::{
    write_json_line, write_synthetic_notification, AdapterNotification, NotificationModel,
};
use crate::pending::PendingPermissions;
use crate::text::{texts_view, trim, trimmed};

verus! {

/// What happens on a connection.
#[derive(Debug, Clone, PartialEq)]
pub enum ConnectionEvent {
    /// The client sent a line.
    ClientLine(String),
    /// The client will send nothing more.
    ClientClosed,
    /// The server sent a text.
    ServerText(String),
    /// The server sent something that is no text and does not end the connection.
    ServerOther,
    /// The server closed the connection, or will send nothing more.
    ServerClosed,
    /// Reading from the server failed.
    ServerFailed,
    /// Sending to the server failed.
    ForwardFailed,
}

/// What is to be done about an event.
#[derive(Debug, Clone, PartialEq)]
pub struct ConnectionStep {
    /// What the client is to be sent, each with its line end.
    pub lines: Vec<String>,
    /// The text that the server is to be sent.
    pub forward: Option<String>,
    /// Whether the event was a line of the client that is no JSON-RPC message.
    pub dropped: bool,
    /// Whether the connection goes on.
    pub open: bool,
}

/// A text to be sent, and where to.
#[derive(Debug, Clone, PartialEq)]
pub enum Delivery {
    /// To the client, with its line end.
    ToClient(String),
    /// To the server.
    ToServer(String),
}

/// What a delivery is.
pub enum DeliveryModel {
    ToClient(Seq<char>),
    ToServer(Seq<char>),
}

/// The state of a connection.
pub struct AdapterConnection {
    pending: PendingPermissions,
    sequence: u64,
}

/// What the state of a connection is.
pub struct ConnectionModel {
    /// The thread of each request that waits for an answer, by its id.
    pub pending: Map<Seq<char>, Seq<char>>,
    /// The sequence number that the last piece of a stream had.
    pub sequence: u64,
}

/// What is to be done about an event.
pub struct StepModel {
    pub lines: Seq<Seq<char>>,
    pub forward: Option<Seq<char>>,
    pub dropped: bool,
    pub open: bool,
}

impl ConnectionStep {
    pub open spec fn view(self) -> StepModel {
        StepModel {
            lines: texts_view(self.lines@),
            forward: match self.forward {
                Some(text) => Some(text@),
                None => None,
            },
            dropped: self.dropped,
            open: self.open,
        }
    }
}

impl Delivery {
    pub open spec fn view(self) -> DeliveryModel {
        match self {
            Delivery::ToClient(text) => DeliveryModel::ToClient(text@),
            Delivery::ToServer(text) => DeliveryModel::ToServer(text@),
        }
    }
}

impl StepModel {
    /// What is to be sent, in the order in which it is: the client is told before
    /// the server gets anything.
    pub open spec fn deliveries(self) -> Seq<DeliveryModel> {
        let told = self.lines.map_values(|line: Seq<char>| DeliveryModel::ToClient(line));
        match self.forward {
            Some(text) => told.push(DeliveryModel::ToServer(text)),
            None => told,
        }
    }
}

impl ConnectionStep {
    /// What is to be sent, in the order in which it is.
    pub fn deliveries(&self) -> (r: Vec<Delivery>)
        ensures
            r@.map_values(|d: Delivery| d@) == self@.deliveries(),
    {
        let mut r: Vec<Delivery> = Vec::new();
        for i in 0..self.lines.len()
            invariant
                r@.len() == i,
                forall|j: int|
                    0 <= j < i ==> (#[trigger] r@[j])@ == DeliveryModel::ToClient(
                        self.lines@[j]@,
                    ),
        {
            r.push(Delivery::ToClient(self.lines[i].clone()));
        }
        if let Some(text) = &self.forward {
            r.push(Delivery::ToServer(text.clone()));
        }
        assert(r@.map_values(|d: Delivery| d@) =~= self@.deliveries());
        r
    }
}

/// Nothing is to be done; the connection goes on or ends.
pub open spec fn idle_step(open: bool) -> StepModel {
    StepModel { lines: Seq::empty(), forward: None, dropped: false, open }
}

/// The lines that notifications go out as.
pub open spec fn notification_lines(notifications: Seq<NotificationModel>) -> Seq<Seq<char>> {
    notifications.map_values(|n: NotificationModel| n.line())
}

/// Whether a text is a line with nothing after its end.
pub open spec fn is_single_line(text: Seq<char>) -> bool {
    forall|i: int| 0 <= i < text.len() ==> (#[trigger] text[i] == '\n' <==> i == text.len() - 1)
}

/// The message that a line of the client holds.
pub open spec fn client_message(line: Seq<char>) -> Option<JsonView> {
    if trimmed(line).len() == 0 {
        None
    } else {
        jsonrpc_message(trimmed(line))
    }
}

/// The news of the request that a message of the client answers.
pub open spec fn resolved_notifications(
    message: JsonView,
    pending: Map<Seq<char>, Seq<char>>,
) -> Seq<NotificationModel> {
    match permission_resolved(message, pending) {
        Some(resolved) => seq![NotificationModel::PermissionResolved(resolved)],
        None => Seq::empty(),
    }
}

/// What a message of the client is besides itself.
pub open spec fn notifications_of_client(
    state: ConnectionModel,
    message: JsonView,
    item_id: Seq<char>,
) -> Seq<NotificationModel> {
    client_notifications(message, item_id, state.sequence) + resolved_notifications(
        message,
        state.pending,
    )
}

/// The state after a message of the client.
pub open spec fn state_after_client(state: ConnectionModel, message: JsonView) -> ConnectionModel {
    ConnectionModel {
        pending: pending_after_answer(message, state.pending),
        sequence: sequence_after_client(message, state.sequence),
    }
}

/// What a message of the server is besides itself.
pub open spec fn notifications_of_server(state: ConnectionModel, message: JsonView) -> Seq<
    NotificationModel,
> {
    let request = match permission_request(message) {
        Some(request) => seq![NotificationModel::PermissionRequest(request)],
        None => Seq::empty(),
    };
    let stream = match stream_notification(message, state.sequence) {
        Some(notification) => seq![notification],
        None => Seq::empty(),
    };
    request + stream
}

/// The state after a message of the server.
pub open spec fn state_after_server(state: ConnectionModel, message: JsonView) -> ConnectionModel {
    ConnectionModel {
        pending: pending_after_request(message, state.pending),
        sequence: sequence_after(stream_notification(message, state.sequence), state.sequence),
    }
}

/// Whether these are notifications of a client's message for some id drawn at
/// random.
pub open spec fn notifications_of_client_for_some_id(
    notifications: Seq<NotificationModel>,
    state: ConnectionModel,
    message: JsonView,
) -> bool {
    exists|client: Seq<NotificationModel>| #[trigger]
        client_notifications_for_some_id(client, message, state.sequence) && notifications == client
            + resolved_notifications(message, state.pending)
}

/// Whether a step is what a line of the client leads to: a message goes on to
/// the server as it is but for the white space around it, and the client is
/// told, one line each, what it is besides, where an echo of input reads as the
/// input; anything else goes nowhere.
pub open spec fn is_client_step(
    before: ConnectionModel,
    after: ConnectionModel,
    line: Seq<char>,
    step: StepModel,
) -> bool {
    match client_message(line) {
        Some(message) => {
            &&& after == state_after_client(before, message)
            &&& step.forward == Some(trimmed(line))
            &&& step.open && !step.dropped
            &&& exists|notifications: Seq<NotificationModel>| #[trigger]
                notifications_of_client_for_some_id(notifications, before, message) && step.lines
                    == notification_lines(notifications) && (message_queue(message) is Some
                    ==> echo_tells_input(notifications))
            &&& forall|i: int|
                0 <= i < step.lines.len() ==> is_single_line(#[trigger] step.lines[i])
            &&& echo_reads_back(message)
        },
        None => {
            &&& after == before
            &&& step == (StepModel { dropped: trimmed(line).len() > 0, ..idle_step(true) })
        },
    }
}

/// Whether a step is what a text of the server leads to: the client is told, one
/// line each, what a message is besides itself, and then gets the message as it
/// is; anything else goes nowhere.
pub open spec fn is_server_step(
    before: ConnectionModel,
    after: ConnectionModel,
    text: Seq<char>,
    step: StepModel,
) -> bool {
    match jsonrpc_message(text) {
        Some(message) => {
            &&& after == state_after_server(before, message)
            &&& step == (StepModel {
                lines: notification_lines(notifications_of_server(before, message)).push(
                    text.push('\n'),
                ),
                ..idle_step(true)
            })
            &&& forall|i: int|
                0 <= i < step.lines.len() - 1 ==> is_single_line(#[trigger] step.lines[i])
        },
        None => after == before && step == idle_step(true),
    }
}

/// Whether a step is what an event leads to. What is neither a line nor a text
/// does nothing, and all of it but what the connection can go on after ends
/// it.
pub open spec fn is_step(
    before: ConnectionModel,
    after: ConnectionModel,
    event: ConnectionEvent,
    step: StepModel,
) -> bool {
    match event {
        ConnectionEvent::ClientLine(line) => is_client_step(before, after, line@, step),
        ConnectionEvent::ServerText(text) => is_server_step(before, after, text@, step),
        ConnectionEvent::ServerOther => after == before && step == idle_step(true),
        ConnectionEvent::ClientClosed => after == before && step == idle_step(false),
        ConnectionEvent::ServerClosed => after == before && step == idle_step(false),
        ConnectionEvent::ServerFailed => after == before && step == idle_step(false),
        ConnectionEvent::ForwardFailed => after == before && step == idle_step(false),
    }
}

fn write_lines(notifications: &Vec<AdapterNotification>) -> (r: Vec<String>)
    ensures
        texts_view(r@) == notification_lines(notification_models(notifications@)),
        forall|i: int| 0 <= i < r@.len() ==> is_single_line((#[trigger] r@[i])@),
{
    let mut r: Vec<String> = Vec::new();
    for i in 0..notifications.len()
        invariant
            r@.len() == i,
            forall|j: int|
                0 <= j < i ==> (#[trigger] r@[j])@ == notifications@[j].model().line()
                    && is_single_line(r@[j]@),
    {
        r.push(write_synthetic_notification(&notifications[i]));
    }
    assert(texts_view(r@) =~= notification_lines(notification_models(notifications@)));
    r
}

impl AdapterConnection {
    pub closed spec fn view(self) -> ConnectionModel {
        ConnectionModel { pending: self.pending@, sequence: self.sequence }
    }

    /// A connection on which nothing has happened yet.
    pub fn new() -> (r: AdapterConnection)
        ensures
            r@ == (ConnectionModel { pending: Map::empty(), sequence: 0 }),
    {
        AdapterConnection { pending: PendingPermissions::new(), sequence: 0 }
    }

    /// The sequence number that the last piece of a stream had.
    pub fn sequence(&self) -> (r: u64)
        ensures
            r == self@.sequence,
    {
        self.sequence
    }

    /// Whether a request for permission waits for an answer.
    pub fn is_pending(&self, request_id: &str) -> (r: bool)
        ensures
            r == self@.pending.contains_key(request_id@),
    {
        self.pending.contains(request_id)
    }

    /// Takes a message of the client, where an item that it puts into a queue
    /// gets the given id.
    pub fn on_client_message(&mut self, message: &JsonValue, queue_item_id: String) -> (r: Vec<
        AdapterNotification,
    >)
        ensures
            final(self)@ == state_after_client(old(self)@, message@),
            notification_models(r@) == notifications_of_client(
                old(self)@,
                message@,
                queue_item_id@,
            ),
            echo_reads_back(message@),
            message_queue(message@) is Some ==> echo_tells_input(notification_models(r@)),
    {
        let mut r = client_side_notifications(message, queue_item_id, &mut self.sequence);
        let ghost client = r@;
        if let Some(resolved) = maybe_emit_permission_resolved(message, &mut self.pending) {
            r.push(AdapterNotification::PermissionResolved(resolved));
        }
        assert(notification_models(r@) =~= notifications_of_client(
            old(self)@,
            message@,
            queue_item_id@,
        )) by {
            assert(notification_models(client) == client_notifications(
                message@,
                queue_item_id@,
                old(self)@.sequence,
            ));
        }
        r
    }

    /// Takes a message of the server.
    pub fn on_server_message(&mut self, message: &JsonValue) -> (r: Vec<AdapterNotification>)
        ensures
            final(self)@ == state_after_server(old(self)@, message@),
            notification_models(r@) == notifications_of_server(old(self)@, message@),
    {
        let mut r: Vec<AdapterNotification> = Vec::new();
        if let Some(request) = maybe_capture_permission_request(message, &mut self.pending) {
            r.push(AdapterNotification::PermissionRequest(request));
        }
        if let Some(notification) = maybe_emit_stream_notifications(message, &mut self.sequence) {
            r.push(notification);
        }
        assert(notification_models(r@) =~= notifications_of_server(old(self)@, message@));
        r
    }

    /// Takes a line of the client.
    pub fn on_client_line(&mut self, line: &str) -> (r: ConnectionStep)
        ensures
            is_client_step(old(self)@, final(self)@, line@, r@),
    {
        let text = trim(line);
        let message = if text.is_empty() {
            None
        } else {
            parse_jsonrpc_message(text)
        };
        match message {
            Some(message) => {
                let ghost before = self@;
                let mut notifications = maybe_emit_client_side_notifications(
                    &message,
                    &mut self.sequence,
                );
                let ghost client = notification_models(notifications@);
                let answered = maybe_emit_permission_resolved(&message, &mut self.pending);
                if let Some(resolved) = answered {
                    notifications.push(AdapterNotification::PermissionResolved(resolved));
                }
                proof {
                    let resolved = resolved_notifications(message@, before.pending);
                    assert(notification_models(notifications@) =~= client + resolved);
                    assert(notifications_of_client_for_some_id(
                        notification_models(notifications@),
                        before,
                        message@,
                    )) by {
                        assert(client_notifications_for_some_id(client, message@, before.sequence));
                    }
                }
                let lines = write_lines(&notifications);
                let forward = Some(text.to_string());
                ConnectionStep { lines, forward, dropped: false, open: true }
            },
            None => {
                let r = ConnectionStep {
                    lines: Vec::new(),
                    forward: None,
                    dropped: !text.is_empty(),
                    open: true,
                };
                assert(r@.lines =~= Seq::<Seq<char>>::empty());
                r
            },
        }
    }

    /// Takes a text of the server.
    pub fn on_server_text(&mut self, text: &str) -> (r: ConnectionStep)
        ensures
            is_server_step(old(self)@, final(self)@, text@, r@),
    {
        match parse_jsonrpc_message(text) {
            Some(message) => {
                let notifications = self.on_server_message(&message);
                let mut lines = write_lines(&notifications);
                let ghost own = lines@;
                lines.push(write_json_line(text));
                let r = ConnectionStep { lines, forward: None, dropped: false, open: true };
                assert(r@.lines =~= texts_view(own).push(text@.push('\n')));
                r
            },
            None => {
                let r = ConnectionStep {
                    lines: Vec::new(),
                    forward: None,
                    dropped: false,
                    open: true,
                };
                assert(r@.lines =~= Seq::<Seq<char>>::empty());
                r
            },
        }
    }

    /// Takes an event of another kind than a line or a text: the connection
    /// goes on after what is neither, and ends with everything else.
    fn on_other_event(open: bool) -> (r: ConnectionStep)
        ensures
            r@ == idle_step(open),
    {
        let r = ConnectionStep { lines: Vec::new(), forward: None, dropped: false, open };
        assert(r@.lines =~= Seq::<Seq<char>>::empty());
        r
    }

    /// Takes an event.
    pub fn handle_connection(&mut self, event: ConnectionEvent) -> (r: ConnectionStep)
        ensures
            is_step(old(self)@, final(self)@, event, r@),
    {
        match event {
            ConnectionEvent::ClientLine(line) => self.on_client_line(line.as_str()),
            ConnectionEvent::ServerText(text) => self.on_server_text(text.as_str()),
            ConnectionEvent::ServerOther => Self::on_other_event(true),
            ConnectionEvent::ClientClosed => Self::on_other_event(false),
            ConnectionEvent::ServerClosed => Self::on_other_event(false),
            ConnectionEvent::ServerFailed => Self::on_other_event(false),
            ConnectionEvent::ForwardFailed => Self::on_other_event(false),
        }
    }
}

} // verus!
