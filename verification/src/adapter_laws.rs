//! What holds of everything that passes through the adapter.

use vstd::prelude::*;

use crate::adapter::{
    answered_id, client_notifications, id_text, input_echo, is_jsonrpc, jsonrpc_message,
    message_queue, next_sequence, pending_after_answer, pending_after_request, permission_request,
    permission_resolved, queue_updated, queued_input, stream_notification,
};
use crate::connection::{
    notifications_of_client, notifications_of_server, resolved_notifications, state_after_client,
    state_after_server, ConnectionModel,
};
use crate::json::{member, parsed_json, JsonNumberView, JsonView};
use crate::notification::NotificationModel;
use crate::protocol::ExternalQueueOperation;
use crate::text::{decimal, decimal_is_injective};

verus! {

/// A message that passes through the adapter, and where it comes from. What a
/// client's message puts into a queue gets the id.
pub enum Incoming {
    Client { message: JsonView, item_id: Seq<char> },
    Server { message: JsonView },
}

/// What a message is besides itself.
pub open spec fn notifications_of(state: ConnectionModel, incoming: Incoming) -> Seq<
    NotificationModel,
> {
    match incoming {
        Incoming::Client { message, item_id } => notifications_of_client(state, message, item_id),
        Incoming::Server { message } => notifications_of_server(state, message),
    }
}

/// The state after a message.
pub open spec fn state_after(state: ConnectionModel, incoming: Incoming) -> ConnectionModel {
    match incoming {
        Incoming::Client { message, .. } => state_after_client(state, message),
        Incoming::Server { message } => state_after_server(state, message),
    }
}

/// The state of a new connection.
pub open spec fn new_connection() -> ConnectionModel {
    ConnectionModel { pending: Map::empty(), sequence: 0 }
}

/// The state after a series of messages.
pub open spec fn state_after_all(
    state: ConnectionModel,
    conversation: Seq<Incoming>,
) -> ConnectionModel
    decreases conversation.len(),
{
    if conversation.len() == 0 {
        state
    } else {
        state_after(state_after_all(state, conversation.drop_last()), conversation.last())
    }
}

/// All notifications of a series of messages, in their order.
pub open spec fn notifications_of_all(
    state: ConnectionModel,
    conversation: Seq<Incoming>,
) -> Seq<NotificationModel>
    decreases conversation.len(),
{
    if conversation.len() == 0 {
        Seq::empty()
    } else {
        notifications_of_all(state, conversation.drop_last()) + notifications_of(
            state_after_all(state, conversation.drop_last()),
            conversation.last(),
        )
    }
}

// ---------------------------------------------------------------------------
// Sequence numbers
// ---------------------------------------------------------------------------

/// The sequence numbers of the pieces of a stream among notifications.
pub open spec fn stream_sequences(notifications: Seq<NotificationModel>) -> Seq<u64>
    decreases notifications.len(),
{
    if notifications.len() == 0 {
        Seq::empty()
    } else {
        let earlier = stream_sequences(notifications.drop_last());
        match notifications.last() {
            NotificationModel::StreamDelta(delta) => earlier.push(delta.sequence),
            _ => earlier,
        }
    }
}

proof fn lemma_stream_sequences_concat(a: Seq<NotificationModel>, b: Seq<NotificationModel>)
    ensures
        stream_sequences(a + b) == stream_sequences(a) + stream_sequences(b),
    decreases b.len(),
{
    if b.len() == 0 {
        assert(a + b =~= a);
        assert(stream_sequences(a) + stream_sequences(b) =~= stream_sequences(a));
    } else {
        assert((a + b).drop_last() =~= a + b.drop_last());
        lemma_stream_sequences_concat(a, b.drop_last());
        assert(stream_sequences(a + b) =~= stream_sequences(a) + stream_sequences(b));
    }
}

/// The number `steps` after `sequence`, as far as there is one.
pub open spec fn sequence_plus(sequence: u64, steps: nat) -> u64 {
    if sequence + steps <= u64::MAX {
        (sequence + steps) as u64
    } else {
        u64::MAX
    }
}

/// The pieces of a stream that one message brings are numbered on from the
/// state.
proof fn lemma_message_is_numbered(state: ConnectionModel, incoming: Incoming)
    ensures
        stream_sequences(notifications_of(state, incoming)).len() <= 1,
        stream_sequences(notifications_of(state, incoming)).len() == 1 ==> stream_sequences(
            notifications_of(state, incoming),
        )[0] == next_sequence(state.sequence),
        state_after(state, incoming).sequence == sequence_plus(
            state.sequence,
            stream_sequences(notifications_of(state, incoming)).len(),
        ),
{
    reveal_with_fuel(stream_sequences, 4);
    match incoming {
        Incoming::Client { message, item_id } => {
            let client = client_notifications(message, item_id, state.sequence);
            let resolved = resolved_notifications(message, state.pending);
            lemma_stream_sequences_concat(client, resolved);
            if message_queue(message) is Some {
                assert(client.drop_last().drop_last().drop_last() =~= Seq::empty());
            }
        },
        Incoming::Server { message } => {
            let notifications = notifications_of_server(state, message);
            if permission_request(message) is Some && stream_notification(
                message,
                state.sequence,
            ) is Some {
                assert(notifications.drop_last().drop_last() =~= Seq::empty());
            }
        },
    }
}

/// The pieces of a stream are numbered without a gap, in the order in which
/// they go out: a consumer that misses one can tell.
pub proof fn stream_pieces_are_numbered(state: ConnectionModel, conversation: Seq<Incoming>)
    ensures
        ({
            let sequences = stream_sequences(notifications_of_all(state, conversation));
            &&& forall|i: int|
                0 <= i < sequences.len() ==> #[trigger] sequences[i] == sequence_plus(
                    state.sequence,
                    (i + 1) as nat,
                )
            &&& state_after_all(state, conversation).sequence == sequence_plus(
                state.sequence,
                sequences.len(),
            )
        }),
    decreases conversation.len(),
{
    if conversation.len() > 0 {
        let earlier = conversation.drop_last();
        let before = state_after_all(state, earlier);
        stream_pieces_are_numbered(state, earlier);
        lemma_message_is_numbered(before, conversation.last());
        lemma_stream_sequences_concat(
            notifications_of_all(state, earlier),
            notifications_of(before, conversation.last()),
        );
    }
}

// ---------------------------------------------------------------------------
// Requests for permission
// ---------------------------------------------------------------------------

/// Whether a message asks for permission under an id, for a thread.
pub open spec fn asks(incoming: Incoming, id: Seq<char>, thread_id: Seq<char>) -> bool {
    match incoming {
        Incoming::Server { message } => match permission_request(message) {
            Some(request) => request.request_id == id && request.thread_id == thread_id,
            None => false,
        },
        _ => false,
    }
}

/// Whether a message asks for permission under an id.
pub open spec fn asks_under(incoming: Incoming, id: Seq<char>) -> bool {
    match incoming {
        Incoming::Server { message } => match permission_request(message) {
            Some(request) => request.request_id == id,
            None => false,
        },
        _ => false,
    }
}

/// Whether a message of the client answers an id.
pub open spec fn answers(incoming: Incoming, id: Seq<char>) -> bool {
    match incoming {
        Incoming::Client { message, .. } => answered_id(message) == Some(id),
        _ => false,
    }
}

/// Whether the message at a place asks under an id and no later one answers it
/// or asks under it again.
pub open spec fn is_open_request(
    conversation: Seq<Incoming>,
    at: int,
    id: Seq<char>,
    thread_id: Seq<char>,
) -> bool {
    &&& 0 <= at < conversation.len()
    &&& asks(conversation[at], id, thread_id)
    &&& forall|j: int|
        at < j < conversation.len() ==> !asks_under(#[trigger] conversation[j], id) && !answers(
            conversation[j],
            id,
        )
}

/// A request waits, for the thread that asked, if and only if it was asked for
/// and has not been answered since.
pub proof fn what_waits_was_asked_and_not_answered(
    conversation: Seq<Incoming>,
    id: Seq<char>,
    thread_id: Seq<char>,
)
    ensures
        ({
            let pending = state_after_all(new_connection(), conversation).pending;
            pending.contains_key(id) && pending[id] == thread_id <==> exists|at: int|
                is_open_request(conversation, at, id, thread_id)
        }),
    decreases conversation.len(),
{
    let pending = state_after_all(new_connection(), conversation).pending;
    if conversation.len() > 0 {
        let earlier = conversation.drop_last();
        let last = conversation.last();
        let n = conversation.len() - 1;
        what_waits_was_asked_and_not_answered(earlier, id, thread_id);
        let before = state_after_all(new_connection(), earlier).pending;
        if asks_under(last, id) {
            assert(pending.contains_key(id));
            if pending[id] == thread_id {
                assert(is_open_request(conversation, n, id, thread_id));
            }
            assert forall|at: int| is_open_request(
                conversation,
                at,
                id,
                thread_id,
            ) implies pending[id] == thread_id by {
                if at < n {
                    assert(!asks_under(conversation[n], id));
                }
            }
        } else if answers(last, id) {
            assert(!pending.contains_key(id));
            assert forall|at: int| !is_open_request(conversation, at, id, thread_id) by {
                if is_open_request(conversation, at, id, thread_id) && at < n {
                    assert(!answers(conversation[n], id));
                }
            }
        } else {
            assert(pending.contains_key(id) == before.contains_key(id));
            assert(pending.contains_key(id) ==> pending[id] == before[id]);
            assert forall|at: int| is_open_request(earlier, at, id, thread_id) implies
                is_open_request(conversation, at, id, thread_id) by {
                assert(earlier[at] == conversation[at]);
                assert forall|j: int| at < j < conversation.len() implies !asks_under(
                    #[trigger] conversation[j],
                    id,
                ) && !answers(conversation[j], id) by {
                    if j < n {
                        assert(earlier[j] == conversation[j]);
                    }
                }
            }
            assert forall|at: int| is_open_request(conversation, at, id, thread_id) implies
                is_open_request(earlier, at, id, thread_id) by {
                assert(at < n);
                assert(earlier[at] == conversation[at]);
                assert forall|j: int| at < j < earlier.len() implies !asks_under(
                    #[trigger] earlier[j],
                    id,
                ) && !answers(earlier[j], id) by {
                    assert(earlier[j] == conversation[j]);
                }
            }
            if exists|at: int| is_open_request(earlier, at, id, thread_id) {
                let at = choose|at: int| is_open_request(earlier, at, id, thread_id);
                assert(is_open_request(conversation, at, id, thread_id));
            }
        }
    }
}

/// A request for permission is told of, waits, and is settled by the first
/// answer to it: the news of the answer names the thread and the request, the
/// request waits no longer, and a second answer settles nothing.
pub proof fn a_request_is_settled_once(
    state: ConnectionModel,
    request: JsonView,
    answer: JsonView,
    second: JsonView,
)
    requires
        permission_request(request) is Some,
        answered_id(answer) == Some(permission_request(request)->0.request_id),
        answered_id(second) == answered_id(answer),
    ensures
        ({
            let asked = permission_request(request)->0;
            let waiting = pending_after_request(request, state.pending);
            let settled = pending_after_answer(answer, waiting);
            &&& notifications_of_server(state, request).contains(
                NotificationModel::PermissionRequest(asked),
            )
            &&& permission_resolved(answer, waiting) matches Some(resolved)
                && resolved.thread_id == asked.thread_id && resolved.request_id
                == asked.request_id
            &&& !settled.contains_key(asked.request_id)
            &&& permission_resolved(second, settled) is None
        }),
{
    let notifications = notifications_of_server(state, request);
    assert(notifications[0] == NotificationModel::PermissionRequest(
        permission_request(request)->0,
    ));
}

/// What answers no waiting request settles nothing and leaves the waiting
/// requests as they are.
pub proof fn a_stray_answer_settles_nothing(
    message: JsonView,
    pending: Map<Seq<char>, Seq<char>>,
)
    requires
        answered_id(message) matches Some(id) ==> !pending.contains_key(id),
    ensures
        permission_resolved(message, pending) is None,
        pending_after_answer(message, pending) == pending,
{
    assert(pending_after_answer(message, pending) =~= pending);
}

/// An answer with an error never grants anything, whatever its result says.
pub proof fn an_error_never_grants(message: JsonView, pending: Map<Seq<char>, Seq<char>>)
    requires
        member(message, "error"@) is Some,
    ensures
        permission_resolved(message, pending) matches Some(resolved) ==> !resolved.approved,
{
}

/// Requests whose ids are integers are told apart.
pub proof fn integer_ids_are_told_apart(a: int, b: int)
    requires
        id_text(JsonView::Number(JsonNumberView::Int(a))) == id_text(
            JsonView::Number(JsonNumberView::Int(b)),
        ),
    ensures
        a == b,
{
    decimal_is_injective(a, b);
}

/// An answer is recognized whether it gives an integer id as the number or as
/// the text of the number.
pub proof fn an_integer_id_may_be_written_as_text(n: int)
    ensures
        id_text(JsonView::Number(JsonNumberView::Int(n))) == id_text(JsonView::Text(decimal(n))),
{
}

// ---------------------------------------------------------------------------
// Queues and messages
// ---------------------------------------------------------------------------

/// Input that a client sends enters its queue, is echoed and leaves the queue
/// again, as one and the same item, before anything else is told.
pub proof fn queued_input_passes_through(
    state: ConnectionModel,
    message: JsonView,
    item_id: Seq<char>,
)
    requires
        message_queue(message) is Some,
    ensures
        ({
            let item = queued_input(message, message_queue(message)->0, item_id);
            let notifications = notifications_of_client(state, message, item_id);
            &&& notifications.len() >= 3
            &&& notifications[0] == queue_updated(item, ExternalQueueOperation::Enqueued)
            &&& notifications[1] == input_echo(item, state.sequence)
            &&& notifications[2] == queue_updated(item, ExternalQueueOperation::Dequeued)
        }),
{
}

/// What the adapter adds are JSON-RPC messages like those it passes on, and
/// count as such wherever they are read back.
pub proof fn notifications_are_jsonrpc(notification: NotificationModel, text: Seq<char>)
    ensures
        is_jsonrpc(notification.message()),
        parsed_json(text) == Some(notification.message()) ==> jsonrpc_message(text) == Some(
            notification.message(),
        ),
{
    reveal_strlit("method");
    reveal_strlit("params");
    assert("method"@[0] != "params"@[0]);
    assert(member(notification.message(), "method"@) is Some);
}

} // verus!
