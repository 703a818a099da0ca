//! What holds of a Keybase adapter over many events.
use vstd::prelude::*;
use vstd::utf8::encode_utf8;

use crate::channel::{MessageView, Timestamp};
use crate::json::{parsed_json, JsonView};
use crate::keybase::{
    conversation_key, event_id, event_key, event_message, event_sender, event_team, event_topic,
    is_team_event, AdapterView, ListenActionView, ListenEvent,
};
use crate::keybase_api::{conversation_named, send_from, SendStepView};
use crate::text::{law_signed_decimal_round_trip, length_before, signed_value};

verus! {

/// A message is delivered at most once: the same event, taken in again, delivers nothing and
/// changes nothing.
pub proof fn law_replay_is_dropped(adapter: AdapterView, event: JsonView, timestamp: Timestamp)
    ensures
        adapter.after_event(event).delivery(event, timestamp) is None,
        adapter.after_event(event).after_event(event) == adapter.after_event(event),
{
}

/// An event that delivers nothing changes nothing, whatever the reason.
pub proof fn law_dropped_event_changes_nothing(
    adapter: AdapterView,
    event: JsonView,
    timestamp: Timestamp,
)
    ensures
        adapter.delivery(event, timestamp) is None ==> adapter.after_event(event) == adapter,
{
}

/// Own messages are never delivered.
pub proof fn law_own_messages_are_dropped(
    adapter: AdapterView,
    event: JsonView,
    timestamp: Timestamp,
)
    requires
        event_sender(event) == adapter.username,
    ensures
        adapter.delivery(event, timestamp) is None,
        adapter.after_event(event) == adapter,
{
}

/// Where teams are listed, messages of any other team are never delivered.
pub proof fn law_other_teams_are_dropped(
    adapter: AdapterView,
    event: JsonView,
    timestamp: Timestamp,
)
    requires
        is_team_event(event),
        !adapter.allows_team(event_team(event)),
    ensures
        adapter.delivery(event, timestamp) is None,
        adapter.after_event(event) == adapter,
{
}

/// An event changes at most what is known of its own conversation, where the last ID only
/// grows; the rest of the adapter stays as it is.
pub proof fn law_event_keeps_other_conversations(adapter: AdapterView, event: JsonView)
    ensures
        ({
            let after = adapter.after_event(event);
            &&& after.username == adapter.username
            &&& after.paperkey == adapter.paperkey
            &&& after.allowed_teams == adapter.allowed_teams
            &&& forall|key: Seq<char>|
                key != event_key(event) ==> {
                    &&& #[trigger] after.last_msg_ids.contains_key(key)
                        == adapter.last_msg_ids.contains_key(key)
                    &&& after.last_msg_ids.contains_key(key) ==> after.last_msg_ids[key]
                        == adapter.last_msg_ids[key]
                }
            &&& forall|key: Seq<char>|
                #[trigger] adapter.last_msg_ids.contains_key(key) ==> {
                    &&& after.last_msg_ids.contains_key(key)
                    &&& after.last_msg_ids[key] >= adapter.last_msg_ids[key]
                }
        }),
{
}

/// The adapter after `events`, one after the other.
pub open spec fn after_events(adapter: AdapterView, events: Seq<JsonView>) -> AdapterView
    decreases events.len(),
{
    if events.len() == 0 {
        adapter
    } else {
        after_events(adapter, events.drop_last()).after_event(events.last())
    }
}

/// Whether the event with the index `i` of `events` delivers a message, where `adapter` takes
/// them in one after the other.
pub open spec fn delivers(adapter: AdapterView, events: Seq<JsonView>, i: int) -> bool {
    after_events(adapter, events.take(i)).accepts(events[i])
}

proof fn lemma_last_id_grows(adapter: AdapterView, events: Seq<JsonView>, from: int, key: Seq<char>)
    requires
        0 <= from <= events.len(),
        after_events(adapter, events.take(from)).last_msg_ids.contains_key(key),
    ensures
        after_events(adapter, events).last_msg_ids.contains_key(key),
        after_events(adapter, events).last_msg_ids[key] >= after_events(
            adapter,
            events.take(from),
        ).last_msg_ids[key],
    decreases events.len(),
{
    if from == events.len() {
        assert(events.take(from) =~= events);
    } else {
        let head = events.drop_last();
        assert(head.take(from) =~= events.take(from));
        lemma_last_id_grows(adapter, head, from, key);
        law_event_keeps_other_conversations(after_events(adapter, head), events.last());
    }
}

/// Of any number of events, taken in one after the other, those of one conversation deliver
/// messages with growing IDs: what came before, or out of order, is left out.
pub proof fn law_delivered_ids_grow(adapter: AdapterView, events: Seq<JsonView>, i: int, j: int)
    requires
        0 <= i < j < events.len(),
        delivers(adapter, events, i),
        delivers(adapter, events, j),
        event_key(events[i]) == event_key(events[j]),
    ensures
        event_id(events[i]) < event_id(events[j]),
{
    let key = event_key(events[i]);
    let upto = events.take(i + 1);
    assert(upto.drop_last() =~= events.take(i));
    assert(upto.last() == events[i]);
    let known = after_events(adapter, upto);
    assert(known.last_msg_ids.contains_key(key) && known.last_msg_ids[key] == event_id(events[i]));
    let before = events.take(j);
    assert(before.take(i + 1) =~= upto);
    lemma_last_id_grows(adapter, before, i + 1, key);
}

/// The adapter after it has listened to `events`, one after the other. They may hold several
/// rounds of listening, each with an event at its end that stops it.
pub open spec fn after_listening_to(adapter: AdapterView, events: Seq<ListenEvent>) -> AdapterView
    decreases events.len(),
{
    if events.len() == 0 {
        adapter
    } else {
        after_listening_to(adapter, events.drop_last()).after_listening(events.last())
    }
}

/// The messages that `adapter` delivers while it listens to `events`, one after the other,
/// where `clock` says at which moment the event with an index comes.
pub open spec fn stream(
    adapter: AdapterView,
    events: Seq<ListenEvent>,
    clock: spec_fn(int) -> Timestamp,
) -> Seq<MessageView>
    decreases events.len(),
{
    if events.len() == 0 {
        Seq::empty()
    } else {
        let head = events.drop_last();
        let before = stream(adapter, head, clock);
        match after_listening_to(adapter, head).reaction(events.last(), clock(events.len() - 1)) {
            ListenActionView::Deliver(message) => before.push(message),
            _ => before,
        }
    }
}

/// The document that an event brings; null where it brings none.
pub open spec fn document_in(event: ListenEvent) -> JsonView {
    match event {
        ListenEvent::Line(line) => match parsed_json(encode_utf8(line@)) {
            Ok(document) => document,
            Err(_) => JsonView::Null,
        },
        _ => JsonView::Null,
    }
}

/// The documents that `events` bring, each in its place.
pub open spec fn documents_in(events: Seq<ListenEvent>) -> Seq<JsonView> {
    Seq::new(events.len(), |i: int| document_in(events[i]))
}

/// The indexes of those of `events` that deliver a message, in order.
pub open spec fn sources(adapter: AdapterView, events: Seq<ListenEvent>) -> Seq<int>
    decreases events.len(),
{
    if events.len() == 0 {
        Seq::empty()
    } else {
        let before = sources(adapter, events.drop_last());
        if delivers(adapter, documents_in(events), events.len() - 1) {
            before.push(events.len() - 1)
        } else {
            before
        }
    }
}

/// Only a line delivers a message, and a line never ends the listening: what is no document,
/// no chat message, from another team, from oneself, no text, empty or a repetition is passed
/// over. What delivers nothing, the end of the listening too, changes nothing.
pub proof fn law_passed_over_or_stopped(
    adapter: AdapterView,
    event: ListenEvent,
    timestamp: Timestamp,
)
    ensures
        adapter.reaction(event, timestamp) is Stop <==> !(event is Line),
        !(adapter.reaction(event, timestamp) is Deliver) ==> adapter.after_listening(event)
            == adapter,
{
}

/// Listening to an event is taking in its document.
proof fn lemma_listening_takes_documents_in(
    adapter: AdapterView,
    event: ListenEvent,
    timestamp: Timestamp,
)
    ensures
        adapter.after_listening(event) == adapter.after_event(document_in(event)),
        adapter.reaction(event, timestamp) is Deliver <==> adapter.accepts(document_in(event)),
        adapter.reaction(event, timestamp) matches ListenActionView::Deliver(message) ==> message
            == event_message(document_in(event), timestamp),
{
}

proof fn lemma_listening_to_documents(adapter: AdapterView, events: Seq<ListenEvent>)
    ensures
        after_listening_to(adapter, events) == after_events(adapter, documents_in(events)),
    decreases events.len(),
{
    if events.len() > 0 {
        let head = events.drop_last();
        lemma_listening_to_documents(adapter, head);
        assert(documents_in(events).drop_last() =~= documents_in(head));
        lemma_listening_takes_documents_in(
            after_listening_to(adapter, head),
            events.last(),
            Timestamp { secs: 0, nanos: 0 },
        );
    }
}

/// The stream is in the order of the lines, with at most one message for each of them: its
/// messages are those of the events that deliver one, each as the document of its event gives
/// it, at the moment when the event came.
pub proof fn law_stream_follows_events(
    adapter: AdapterView,
    events: Seq<ListenEvent>,
    clock: spec_fn(int) -> Timestamp,
)
    ensures
        ({
            let out = stream(adapter, events, clock);
            let from = sources(adapter, events);
            &&& out.len() == from.len()
            &&& forall|k: int|
                0 <= k < out.len() ==> {
                    &&& 0 <= #[trigger] from[k] < events.len()
                    &&& delivers(adapter, documents_in(events), from[k])
                    &&& out[k] == event_message(document_in(events[from[k]]), clock(from[k]))
                }
            &&& forall|j: int, k: int| 0 <= j < k < from.len() ==> from[j] < from[k]
            &&& forall|i: int|
                0 <= i < events.len() && #[trigger] delivers(adapter, documents_in(events), i)
                    ==> from.contains(i)
        }),
    decreases events.len(),
{
    if events.len() > 0 {
        let head = events.drop_last();
        let last = events.len() - 1;
        let all = documents_in(events);
        law_stream_follows_events(adapter, head, clock);
        lemma_listening_to_documents(adapter, head);
        assert(all.take(last) =~= documents_in(head));
        let here = after_listening_to(adapter, head);
        lemma_listening_takes_documents_in(here, events.last(), clock(last));
        assert forall|i: int| 0 <= i < last implies #[trigger] delivers(adapter, all, i)
            == delivers(adapter, documents_in(head), i) by {
            assert(all.take(i) =~= documents_in(head).take(i));
        }
        let before = sources(adapter, head);
        let from = sources(adapter, events);
        assert forall|i: int| 0 <= i < events.len() && #[trigger] delivers(
            adapter,
            all,
            i,
        ) implies from.contains(i) by {
            if i < last {
                assert(delivers(adapter, documents_in(head), i));
                assert(before.contains(i));
                let k = choose|k: int| 0 <= k < before.len() && before[k] == i;
                assert(from[k] == i);
            } else {
                assert(from[from.len() - 1] == i);
            }
        }
    }
}

/// Per conversation the IDs of the messages of a stream grow, so that no message is delivered
/// twice.
pub proof fn law_stream_ids_grow(
    adapter: AdapterView,
    events: Seq<ListenEvent>,
    clock: spec_fn(int) -> Timestamp,
    i: int,
    j: int,
)
    requires
        0 <= i < j < stream(adapter, events, clock).len(),
        stream(adapter, events, clock)[i].sender.platform_id == stream(
            adapter,
            events,
            clock,
        )[j].sender.platform_id,
    ensures
        signed_value(stream(adapter, events, clock)[i].platform_message_id) < signed_value(
            stream(adapter, events, clock)[j].platform_message_id,
        ),
{
    let from = sources(adapter, events);
    let all = documents_in(events);
    law_stream_follows_events(adapter, events, clock);
    assert(from[i] < from[j]);
    law_delivered_ids_grow(adapter, all, from[i], from[j]);
    law_signed_decimal_round_trip(event_id(all[from[i]]) as int);
    law_signed_decimal_round_trip(event_id(all[from[j]]) as int);
}

proof fn lemma_after_both(adapter: AdapterView, first: Seq<JsonView>, second: Seq<JsonView>)
    ensures
        after_events(adapter, first + second) == after_events(after_events(adapter, first), second),
    decreases second.len(),
{
    if second.len() == 0 {
        assert(first + second =~= first);
    } else {
        lemma_after_both(adapter, first, second.drop_last());
        assert((first + second).drop_last() =~= first + second.drop_last());
    }
}

/// Listening again, however the round before has ended, delivers nothing that came before: in
/// a conversation whose message with some ID was delivered, only greater IDs follow.
pub proof fn law_restart_repeats_nothing(
    adapter: AdapterView,
    first: Seq<ListenEvent>,
    first_clock: spec_fn(int) -> Timestamp,
    second: Seq<ListenEvent>,
    second_clock: spec_fn(int) -> Timestamp,
    i: int,
    j: int,
)
    requires
        ({
            let earlier = stream(adapter, first, first_clock);
            let later = stream(after_listening_to(adapter, first), second, second_clock);
            &&& 0 <= i < earlier.len()
            &&& 0 <= j < later.len()
            &&& earlier[i].sender.platform_id == later[j].sender.platform_id
        }),
    ensures
        ({
            let earlier = stream(adapter, first, first_clock);
            let later = stream(after_listening_to(adapter, first), second, second_clock);
            signed_value(earlier[i].platform_message_id) < signed_value(
                later[j].platform_message_id,
            )
        }),
{
    let again = after_listening_to(adapter, first);
    let before = documents_in(first);
    let after = documents_in(second);
    let both = before + after;
    law_stream_follows_events(adapter, first, first_clock);
    law_stream_follows_events(again, second, second_clock);
    lemma_listening_to_documents(adapter, first);
    let at = sources(adapter, first)[i];
    let later_at = sources(again, second)[j];
    assert(delivers(adapter, before, at));
    assert(delivers(again, after, later_at));
    assert(both.take(at) =~= before.take(at));
    lemma_after_both(adapter, before, after.take(later_at));
    assert(both.take(before.len() + later_at) =~= before + after.take(later_at));
    law_delivered_ids_grow(adapter, both, at, before.len() + later_at);
    law_signed_decimal_round_trip(event_id(before[at]) as int);
    law_signed_decimal_round_trip(event_id(after[later_at]) as int);
}

/// Whether two streams hold the same messages in the same order, the moments aside.
pub open spec fn same_but_for_time(a: Seq<MessageView>, b: Seq<MessageView>) -> bool {
    &&& a.len() == b.len()
    &&& forall|i: int|
        0 <= i < a.len() ==> #[trigger] a[i] == (MessageView {
            timestamp: a[i].timestamp,
            ..b[i]
        })
}

proof fn lemma_stream_whatever_the_time(
    adapter: AdapterView,
    events: Seq<ListenEvent>,
    clock: spec_fn(int) -> Timestamp,
    other: spec_fn(int) -> Timestamp,
)
    ensures
        same_but_for_time(stream(adapter, events, clock), stream(adapter, events, other)),
    decreases events.len(),
{
    if events.len() > 0 {
        let head = events.drop_last();
        lemma_stream_whatever_the_time(adapter, head, clock, other);
    }
}

/// An event that delivers nothing might as well not have come: without it the same messages
/// are delivered in the same order, the moments aside, and the adapter is left the same. So a
/// line that is passed over hides no other line.
pub proof fn law_passed_over_event_hides_nothing(
    adapter: AdapterView,
    events: Seq<ListenEvent>,
    skipped: int,
    clock: spec_fn(int) -> Timestamp,
    other: spec_fn(int) -> Timestamp,
)
    requires
        0 <= skipped < events.len(),
        !(after_listening_to(adapter, events.take(skipped)).reaction(
            events[skipped],
            clock(skipped),
        ) is Deliver),
    ensures
        same_but_for_time(
            stream(adapter, events, clock),
            stream(adapter, events.remove(skipped), other),
        ),
        after_listening_to(adapter, events.remove(skipped)) == after_listening_to(adapter, events),
    decreases events.len(),
{
    let head = events.drop_last();
    let without = events.remove(skipped);
    if skipped == events.len() - 1 {
        assert(events.take(skipped) =~= head);
        assert(without =~= head);
        lemma_stream_whatever_the_time(adapter, head, clock, other);
    } else {
        assert(head.take(skipped) =~= events.take(skipped));
        law_passed_over_event_hides_nothing(adapter, head, skipped, clock, other);
        assert(without.drop_last() =~= head.remove(skipped));
        assert(without.last() == events.last());
    }
}

/// The paper key flows into nothing that an adapter hands out: an adapter with another paper
/// key, and equal otherwise, delivers the same messages from the same events and stops at the
/// same ones, and stays equal but for the key. What is sent, and what an answer is read as,
/// does not depend on the adapter at all.
pub proof fn law_paper_key_flows_nowhere(
    adapter: AdapterView,
    paperkey: Seq<char>,
    events: Seq<ListenEvent>,
    clock: spec_fn(int) -> Timestamp,
)
    ensures
        ({
            let other = AdapterView { paperkey, ..adapter };
            &&& stream(other, events, clock) == stream(adapter, events, clock)
            &&& after_listening_to(other, events) == (AdapterView {
                paperkey,
                ..after_listening_to(adapter, events)
            })
            &&& forall|event: ListenEvent, timestamp: Timestamp|
                #[trigger] after_listening_to(other, events).reaction(event, timestamp)
                    == after_listening_to(adapter, events).reaction(event, timestamp)
        }),
    decreases events.len(),
{
    if events.len() > 0 {
        law_paper_key_flows_nowhere(adapter, paperkey, events.drop_last(), clock);
    }
}

proof fn lemma_key_splits(team: Seq<char>, topic: Seq<char>)
    requires
        !team.contains(':'),
    ensures
        length_before(conversation_key(team, topic), ':') == team.len(),
    decreases team.len(),
{
    reveal_strlit(":");
    let key = conversation_key(team, topic);
    if team.len() == 0 {
        assert(key[0] == ':');
    } else {
        let rest = team.skip(1);
        assert(team.contains(team[0]));
        assert(key[0] == team[0]);
        assert(key.skip(1) =~= conversation_key(rest, topic));
        assert forall|i: int| 0 <= i < rest.len() implies rest[i] != ':' by {
            assert(team.contains(team[i + 1]));
        }
        lemma_key_splits(rest, topic);
    }
}

/// The name of a conversation tells its team and its topic, where the team has no colon in
/// its name.
pub proof fn law_conversation_name_round_trip(team: Seq<char>, topic: Seq<char>)
    requires
        !team.contains(':'),
    ensures
        conversation_named(conversation_key(team, topic)) == (team, topic),
{
    reveal_strlit(":");
    lemma_key_splits(team, topic);
    let key = conversation_key(team, topic);
    assert(key.take(team.len() as int) =~= team);
    assert(key.skip((team.len() + 1) as int) =~= topic);
}

/// An answer to a message goes to the conversation that the message came from, where the
/// team has no colon in its name.
pub proof fn law_answer_goes_back(event: JsonView, timestamp: Timestamp)
    requires
        !event_team(event).contains(':'),
    ensures
        ({
            let message = event_message(event, timestamp);
            conversation_named(message.sender.platform_id) == (
                event_team(event),
                event_topic(event),
            )
        }),
{
    law_conversation_name_round_trip(event_team(event), event_topic(event));
}

/// The payloads that are sent from `step` on, and what the sending comes to, where `outcome`
/// says how the payload with an index goes. A session past its payloads comes up in no sending
/// and has nothing more to send.
pub open spec fn sending<E>(step: SendStepView<E>, outcome: spec_fn(int) -> Result<(), E>) -> (
    Seq<JsonView>,
    Result<(), E>,
)
    decreases
        match step {
            SendStepView::Send(session, _) => session.payloads.len() - session.next,
            SendStepView::Done(_) => 0,
        },
{
    match step {
        SendStepView::Send(session, payload) => if session.next < session.payloads.len() {
            let (rest, result) = sending(session.after(outcome(session.next)), outcome);
            (seq![payload] + rest, result)
        } else {
            (Seq::empty(), Ok(()))
        },
        SendStepView::Done(result) => (Seq::empty(), result),
    }
}

proof fn lemma_sending_from<E>(
    payloads: Seq<JsonView>,
    from: int,
    outcome: spec_fn(int) -> Result<(), E>,
    stop: int,
)
    requires
        0 <= from <= stop <= payloads.len(),
        forall|i: int| from <= i < stop ==> #[trigger] outcome(i) is Ok,
        stop < payloads.len() ==> outcome(stop) is Err,
    ensures
        sending(send_from::<E>(payloads, from), outcome) == (if stop < payloads.len() {
            (payloads.subrange(from, stop + 1), outcome(stop))
        } else {
            (payloads.skip(from), Ok(()))
        }),
    decreases stop - from,
{
    if from == payloads.len() {
        assert(payloads.skip(from) =~= Seq::empty());
    } else if from == stop {
        assert(sending(SendStepView::Done(outcome(from)), outcome).0 =~= Seq::empty());
        assert(seq![payloads[from]] + Seq::<JsonView>::empty() =~= payloads.subrange(
            from,
            from + 1,
        ));
    } else {
        assert(outcome(from) is Ok);
        lemma_sending_from(payloads, from + 1, outcome, stop);
        assert(seq![payloads[from]] + payloads.skip(from + 1) =~= payloads.skip(from));
        if stop < payloads.len() {
            assert(seq![payloads[from]] + payloads.subrange(from + 1, stop + 1)
                =~= payloads.subrange(from, stop + 1));
        }
    }
}

/// Where every payload goes well, all are sent, in order. Else the sending ends with the first
/// that fails, with its error, and what follows it is not sent.
pub proof fn law_sending_stops_at_first_failure<E>(
    payloads: Seq<JsonView>,
    outcome: spec_fn(int) -> Result<(), E>,
    stop: int,
)
    requires
        0 <= stop <= payloads.len(),
        forall|i: int| 0 <= i < stop ==> #[trigger] outcome(i) is Ok,
        stop < payloads.len() ==> outcome(stop) is Err,
    ensures
        stop == payloads.len() ==> sending(send_from::<E>(payloads, 0), outcome) == (
            payloads,
            Ok::<(), E>(()),
        ),
        stop < payloads.len() ==> sending(send_from::<E>(payloads, 0), outcome) == (
            payloads.take(stop + 1),
            outcome(stop),
        ),
{
    lemma_sending_from(payloads, 0, outcome, stop);
    assert(payloads.skip(0) =~= payloads);
}

} // verus!
