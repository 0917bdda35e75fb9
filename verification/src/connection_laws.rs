//! What holds of everything that happens on a connection.

use vstd::prelude::*;

use crate::adapter::{
    client_notifications, client_notifications_for_some_id, echo_tells_input, jsonrpc_message,
    message_queue,
};
use crate::adapter_laws::{notifications_of, state_after_all, Incoming};
use crate::connection::{
    client_message, is_step, notification_lines, notifications_of_client,
    notifications_of_client_for_some_id, notifications_of_server, resolved_notifications,
    state_after_client, state_after_server, ConnectionEvent, ConnectionModel, ConnectionStep,
    Delivery, DeliveryModel, StepModel,
};
use crate::ids::{is_uuid_v4, queue_item_id};
use crate::json::{parsed_json, written_json, JsonView};
use crate::json_facts::lacks;
use crate::notification::NotificationModel;
use crate::text::{is_white_space, trimmed, trimming_keeps_what_is_between};

verus! {

/// A message that came in, with the text that it is passed on as.
pub struct Arrival {
    pub incoming: Incoming,
    pub text: Seq<char>,
}

/// The message that an event brings, if it brings one. What it puts into a
/// queue gets the id.
pub open spec fn arrival(event: ConnectionEvent, item_id: Seq<char>) -> Option<Arrival> {
    match event {
        ConnectionEvent::ClientLine(line) => match client_message(line@) {
            Some(message) => Some(
                Arrival {
                    incoming: Incoming::Client { message, item_id },
                    text: trimmed(line@),
                },
            ),
            None => None,
        },
        ConnectionEvent::ServerText(text) => match jsonrpc_message(text@) {
            Some(message) => Some(Arrival { incoming: Incoming::Server { message }, text: text@ }),
            None => None,
        },
        _ => None,
    }
}

/// The messages that a series of events brings, in their order.
pub open spec fn arrivals(events: Seq<ConnectionEvent>, item_ids: Seq<Seq<char>>) -> Seq<Arrival>
    decreases events.len(),
{
    if events.len() == 0 {
        Seq::empty()
    } else {
        let earlier = arrivals(events.drop_last(), item_ids.drop_last());
        match arrival(events.last(), item_ids.last()) {
            Some(message) => earlier.push(message),
            None => earlier,
        }
    }
}

/// The messages without the texts that they are passed on as.
pub open spec fn conversation(arrived: Seq<Arrival>) -> Seq<Incoming> {
    arrived.map_values(|a: Arrival| a.incoming)
}

/// The texts that go on to the server: those of the client's messages.
pub open spec fn texts_for_server(arrived: Seq<Arrival>) -> Seq<Seq<char>>
    decreases arrived.len(),
{
    if arrived.len() == 0 {
        Seq::empty()
    } else {
        let earlier = texts_for_server(arrived.drop_last());
        if arrived.last().incoming is Client {
            earlier.push(arrived.last().text)
        } else {
            earlier
        }
    }
}

/// The lines that one message brings to the client: what it is besides itself,
/// and then the message, where it is the server's.
pub open spec fn lines_of(state: ConnectionModel, arrived: Arrival) -> Seq<Seq<char>> {
    let told = notification_lines(notifications_of(state, arrived.incoming));
    if arrived.incoming is Server {
        told.push(arrived.text.push('\n'))
    } else {
        told
    }
}

/// The lines that a series of messages brings to the client.
pub open spec fn lines_for_client(state: ConnectionModel, arrived: Seq<Arrival>) -> Seq<Seq<char>>
    decreases arrived.len(),
{
    if arrived.len() == 0 {
        Seq::empty()
    } else {
        lines_for_client(state, arrived.drop_last()) + lines_of(
            state_after_all(state, conversation(arrived.drop_last())),
            arrived.last(),
        )
    }
}

/// All that is sent to the server in a series of steps.
pub open spec fn sent_to_server(steps: Seq<StepModel>) -> Seq<Seq<char>>
    decreases steps.len(),
{
    if steps.len() == 0 {
        Seq::empty()
    } else {
        let earlier = sent_to_server(steps.drop_last());
        match steps.last().forward {
            Some(text) => earlier.push(text),
            None => earlier,
        }
    }
}

/// All that is sent to the client in a series of steps.
pub open spec fn sent_to_client(steps: Seq<StepModel>) -> Seq<Seq<char>>
    decreases steps.len(),
{
    if steps.len() == 0 {
        Seq::empty()
    } else {
        sent_to_client(steps.drop_last()) + steps.last().lines
    }
}

/// Whether the events lead from state to state by these steps.
pub open spec fn is_course(
    states: Seq<ConnectionModel>,
    events: Seq<ConnectionEvent>,
    steps: Seq<StepModel>,
) -> bool {
    &&& states.len() == events.len() + 1
    &&& steps.len() == events.len()
    &&& forall|i: int|
        0 <= i < events.len() ==> is_step(states[i], states[i + 1], #[trigger] events[i], steps[i])
}

/// Whether an id is that of a queue item.
pub open spec fn is_item_id(id: Seq<char>) -> bool {
    exists|uuid: Seq<char>| #[trigger] is_uuid_v4(uuid) && id == queue_item_id(uuid)
}

/// Whether every message that puts input into a queue does so under the id of a
/// queue item.
pub open spec fn items_are_named(arrived: Seq<Arrival>) -> bool {
    forall|i: int|
        0 <= i < arrived.len() ==> (match (#[trigger] arrived[i]).incoming {
            Incoming::Client { message, item_id } => message_queue(message) is Some ==> is_item_id(
                item_id,
            ),
            Incoming::Server { .. } => true,
        })
}

/// The notifications of a client's message are those for some id.
proof fn lemma_client_id(
    notifications: Seq<NotificationModel>,
    state: ConnectionModel,
    message: JsonView,
) -> (item_id: Seq<char>)
    requires
        notifications_of_client_for_some_id(notifications, state, message),
    ensures
        notifications == notifications_of_client(state, message, item_id),
        message_queue(message) is Some ==> is_item_id(item_id),
{
    let client = choose|client: Seq<NotificationModel>| #[trigger]
        client_notifications_for_some_id(client, message, state.sequence) && notifications == client
            + resolved_notifications(message, state.pending);
    if message_queue(message) is Some {
        let uuid = choose|uuid: Seq<char>| #[trigger]
            is_uuid_v4(uuid) && client == client_notifications(
                message,
                queue_item_id(uuid),
                state.sequence,
            );
        queue_item_id(uuid)
    } else {
        assert(client =~= Seq::empty());
        Seq::empty()
    }
}

/// Everything that is a message goes through, in the order in which it comes,
/// and nothing else does: the server gets the client's messages, the client
/// gets the server's, each after what it is besides itself, and the state is
/// the one after these messages. The ids are those that queue items got.
pub proof fn messages_go_through_in_order(
    states: Seq<ConnectionModel>,
    events: Seq<ConnectionEvent>,
    steps: Seq<StepModel>,
) -> (item_ids: Seq<Seq<char>>)
    requires
        is_course(states, events, steps),
    ensures
        item_ids.len() == events.len(),
        ({
            let arrived = arrivals(events, item_ids);
            &&& items_are_named(arrived)
            &&& sent_to_server(steps) == texts_for_server(arrived)
            &&& sent_to_client(steps) == lines_for_client(states[0], arrived)
            &&& states.last() == state_after_all(states[0], conversation(arrived))
        }),
    decreases events.len(),
{
    if events.len() == 0 {
        assert(conversation(Seq::empty()) =~= Seq::empty());
        Seq::empty()
    } else {
        let n = events.len() - 1;
        let before = states[n];
        let step = steps[n];
        assert(is_step(states[n], states[n + 1], events[n], steps[n]));
        assert forall|i: int| 0 <= i < events.drop_last().len() implies is_step(
            states.drop_last()[i],
            states.drop_last()[i + 1],
            #[trigger] events.drop_last()[i],
            steps.drop_last()[i],
        ) by {
            assert(events.drop_last()[i] == events[i]);
        }
        let earlier_ids = messages_go_through_in_order(
            states.drop_last(),
            events.drop_last(),
            steps.drop_last(),
        );
        let id = match arrival(events.last(), Seq::empty()) {
            Some(Arrival { incoming: Incoming::Client { message, .. }, .. }) => {
                let notifications = choose|notifications: Seq<NotificationModel>| #[trigger]
                    notifications_of_client_for_some_id(notifications, before, message)
                        && step.lines == notification_lines(notifications);
                lemma_client_id(notifications, before, message)
            },
            _ => Seq::empty(),
        };
        let item_ids = earlier_ids.push(id);
        assert(item_ids.drop_last() =~= earlier_ids);
        let earlier = arrivals(events.drop_last(), earlier_ids);
        let arrived = arrivals(events, item_ids);
        match arrival(events.last(), id) {
            Some(message) => {
                assert(arrived.drop_last() =~= earlier);
                assert(conversation(arrived).drop_last() =~= conversation(earlier));
                assert(step.lines == lines_of(before, message));
            },
            None => {
                assert(step.lines =~= Seq::empty());
                assert(sent_to_client(steps) =~= sent_to_client(steps.drop_last()));
            },
        }
        item_ids
    }
}

// ---------------------------------------------------------------------------
// What is done about an event
// ---------------------------------------------------------------------------

/// A line of the client that holds a message, with or without white space around
/// it, goes on to the server without that white space, and the client is told
/// what the message is besides, in lines of JSON. Anything else goes nowhere, and
/// changes nothing.
pub proof fn what_a_line_of_the_client_leads_to(
    before: ConnectionModel,
    after: ConnectionModel,
    line: String,
    step: StepModel,
    ahead: Seq<char>,
    text: Seq<char>,
    behind: Seq<char>,
    value: JsonView,
) -> (item_id: Seq<char>)
    requires
        is_step(before, after, ConnectionEvent::ClientLine(line), step),
        line@ == ahead + text + behind,
        forall|i: int| 0 <= i < ahead.len() ==> is_white_space(#[trigger] ahead[i]),
        forall|i: int| 0 <= i < behind.len() ==> is_white_space(#[trigger] behind[i]),
        text.len() > 0 ==> !is_white_space(text.first()) && !is_white_space(text.last()),
    ensures
        text.len() > 0 && parsed_json(text) == Some(value) && (!lacks(value, "method"@) || !lacks(
            value,
            "id"@,
        ) || !lacks(value, "result"@) || !lacks(value, "error"@)) ==> {
            let told = notifications_of_client(before, value, item_id);
            &&& step.forward == Some(text)
            &&& step.open
            &&& !step.dropped
            &&& step.lines.len() == told.len()
            &&& forall|i: int|
                0 <= i < told.len() ==> #[trigger] step.lines[i] == written_json(
                    told[i].message(),
                ).push('\n')
            &&& message_queue(value) is Some ==> is_item_id(item_id) && echo_tells_input(told)
            &&& after == state_after_client(before, value)
        },
        text.len() == 0 || parsed_json(text) is None || (parsed_json(text) == Some(value) && lacks(
            value,
            "method"@,
        ) && lacks(value, "id"@) && lacks(value, "result"@) && lacks(value, "error"@)) ==> {
            &&& step.forward is None
            &&& step.lines.len() == 0
            &&& step.open
            &&& step.dropped == (text.len() > 0)
            &&& after == before
        },
{
    trimming_keeps_what_is_between(ahead, text, behind);
    match client_message(line@) {
        Some(message) => {
            let notifications = choose|notifications: Seq<NotificationModel>| #[trigger]
                notifications_of_client_for_some_id(notifications, before, message) && step.lines
                    == notification_lines(notifications) && (message_queue(message) is Some
                    ==> echo_tells_input(notifications));
            lemma_client_id(notifications, before, message)
        },
        None => Seq::empty(),
    }
}

/// A text of the server that holds a message goes on to the client as it is, on a
/// line of its own, after lines of JSON that tell what it is besides. Anything
/// else goes nowhere, and changes nothing.
pub proof fn what_a_text_of_the_server_leads_to(
    before: ConnectionModel,
    after: ConnectionModel,
    text: String,
    step: StepModel,
    value: JsonView,
)
    requires
        is_step(before, after, ConnectionEvent::ServerText(text), step),
    ensures
        step.forward is None,
        step.open,
        !step.dropped,
        parsed_json(text@) == Some(value) && (!lacks(value, "method"@) || !lacks(value, "id"@)
            || !lacks(value, "result"@) || !lacks(value, "error"@)) ==> {
            let told = notifications_of_server(before, value);
            &&& step.lines.len() == told.len() + 1
            &&& forall|i: int|
                0 <= i < told.len() ==> #[trigger] step.lines[i] == written_json(
                    told[i].message(),
                ).push('\n')
            &&& step.lines.last() == text@.push('\n')
            &&& after == state_after_server(before, value)
        },
        parsed_json(text@) is None || (parsed_json(text@) == Some(value) && lacks(
            value,
            "method"@,
        ) && lacks(value, "id"@) && lacks(value, "result"@) && lacks(value, "error"@)) ==> {
            &&& step.lines.len() == 0
            &&& after == before
        },
{
}

/// What is neither a line nor a text brings nothing, and ends the connection
/// unless it is something else that the server sent.
pub proof fn what_other_events_lead_to(
    before: ConnectionModel,
    after: ConnectionModel,
    event: ConnectionEvent,
    step: StepModel,
)
    requires
        is_step(before, after, event, step),
        event !is ClientLine,
        event !is ServerText,
    ensures
        step.lines.len() == 0,
        step.forward is None,
        !step.dropped,
        after == before,
        step.open <==> event is ServerOther,
{
}

/// What is to be done and what is to be sent are what they say.
pub proof fn what_a_step_says(step: ConnectionStep, text: String)
    ensures
        step@.lines.len() == step.lines@.len(),
        forall|i: int|
            0 <= i < step.lines@.len() ==> #[trigger] step@.lines[i] == step.lines@[i]@,
        step@.forward == (match step.forward {
            Some(forward) => Some(forward@),
            None => None,
        }),
        step@.dropped == step.dropped,
        step@.open == step.open,
        Delivery::ToClient(text)@ == DeliveryModel::ToClient(text@),
        Delivery::ToServer(text)@ == DeliveryModel::ToServer(text@),
{
}

/// All that is for the client is sent in order, and what is for the server after
/// it.
pub proof fn the_client_comes_first(step: StepModel)
    ensures
        step.deliveries().len() == step.lines.len() + (if step.forward is Some {
            1nat
        } else {
            0nat
        }),
        forall|i: int|
            0 <= i < step.lines.len() ==> #[trigger] step.deliveries()[i]
                == DeliveryModel::ToClient(step.lines[i]),
        step.forward matches Some(text) ==> step.deliveries().last() == DeliveryModel::ToServer(
            text,
        ),
{
}

/// The id of a queue item is `q_` and a random UUID.
pub proof fn how_queue_items_are_named(id: Seq<char>)
    requires
        is_item_id(id),
    ensures
        id.len() == 38,
        id[0] == 'q',
        id[1] == '_',
        is_uuid_v4(id.skip(2)),
{
    reveal_strlit("q_");
    let uuid = choose|uuid: Seq<char>| #[trigger] is_uuid_v4(uuid) && id == queue_item_id(uuid);
    assert(id.skip(2) =~= uuid);
}

} // verus!
