//! What holds of a single message: when it is delivered, what it says, and how one is sent.
use vstd::prelude::*;
use vstd::utf8::encode_utf8;

use crate::channel::{
    string_views, ChannelContent, ChannelMessage, ChannelType, ChannelTypeView, ChannelUser,
    ContentView, Timestamp,
};
use crate::json::{field_views, json_views, parsed_json, Json, JsonNumberView, JsonView};
use crate::json_laws::law_field_is_found;
use crate::keybase::{
    content_of, conversation_key, event_device, event_id, event_key, event_message, event_sender,
    event_team, event_text, event_topic, is_team_event, message_option, paper_key_text,
    AdapterView, KeybaseAdapter, ListenAction, ListenActionView, ListenEvent,
};
use crate::keybase_api::{
    answer_items, api_call, conversation_named, list_call, read_call, send_call, send_calls,
    send_from, team_channel, text_to_send, ChatApiError, ChatApiErrorView, SendSession,
    SendSessionView, SendStep, SendStepView,
};
use crate::text::{signed_decimal, text_option, words};
use crate::text_laws::{law_split_at_first, law_start_trimmed};

verus! {

/// An event is read where Keybase writes it: the team, the topic and the kind of the
/// conversation below `channel`, the user and the device below `sender`, the text below
/// `content` where that is a text, and the ID. What is missing is the topic `general`, the ID
/// zero, or empty.
pub proof fn law_event_is_read(event: JsonView)
    ensures
        ({
            let msg = event.at("msg"@);
            let channel = msg.at("channel"@);
            let content = msg.at("content"@);
            &&& event_team(event) == channel.at("name"@).str_or(Seq::empty())
            &&& event_topic(event) == channel.at("topic_name"@).str_or("general"@)
            &&& is_team_event(event) <==> channel.at("members_type"@) == JsonView::Str("team"@)
            &&& event_sender(event) == msg.at("sender"@).at("username"@).str_or(Seq::empty())
            &&& event_device(event) == msg.at("sender"@).at("device_name"@).str_or(Seq::empty())
            &&& content.at("type"@) == JsonView::Str("text"@) ==> event_text(event) == content.at(
                "text"@,
            ).at("body"@).str_or(Seq::empty())
            &&& content.at("type"@) != JsonView::Str("text"@) ==> event_text(event).len() == 0
            &&& msg.at("id"@).as_i64() is Some ==> Some(event_id(event)) == msg.at("id"@).as_i64()
            &&& msg.at("id"@).as_i64() is None ==> event_id(event) == 0
            &&& event_key(event) == event_team(event) + ":"@ + event_topic(event)
        }),
{
    reveal_strlit("");
    reveal_strlit("text");
    reveal_strlit("team");
    assert(""@ =~= Seq::empty());
    assert("text"@.len() == 4 && "team"@.len() == 4);
}

/// A chat event with a text, from somebody else, in a conversation that is listened to, is
/// delivered whenever nothing came in that conversation before or its ID is greater than the
/// last one, however large the gap; and only then. The conversation then has its ID as the last.
pub proof fn law_delivered_exactly_when_new(
    adapter: AdapterView,
    event: JsonView,
    timestamp: Timestamp,
)
    ensures
        ({
            let key = event_team(event) + ":"@ + event_topic(event);
            let last = adapter.last_msg_ids;
            let wanted = {
                &&& event.at("type"@) == JsonView::Str("chat"@)
                &&& event_text(event).len() > 0
                &&& event_sender(event) != adapter.username
                &&& !is_team_event(event) || adapter.allowed_teams.len() == 0
                    || adapter.allowed_teams.contains(event_team(event))
            };
            let new = !last.contains_key(key) || last[key] < event_id(event);
            let after = adapter.after_event(event);
            &&& wanted && new ==> {
                &&& adapter.delivery(event, timestamp) == Some(event_message(event, timestamp))
                &&& adapter.accepts(event)
                &&& after.last_msg_ids == last.insert(key, event_id(event))
            }
            &&& !(wanted && new) ==> {
                &&& adapter.delivery(event, timestamp) is None
                &&& !adapter.accepts(event)
                &&& after.last_msg_ids == last
            }
            &&& after.username == adapter.username
            &&& after.allowed_teams == adapter.allowed_teams
            &&& after.paperkey == adapter.paperkey
        }),
{
}

/// Whether a team is listened to: where none are listed every team is, else exactly those that
/// are listed, by their full names.
pub proof fn law_allowed_teams(adapter: AdapterView, name: Seq<char>)
    ensures
        adapter.allows_team(name) <==> adapter.allowed_teams.len() == 0 || exists|i: int|
            0 <= i < adapter.allowed_teams.len() && #[trigger] adapter.allowed_teams[i] == name,
{
}

/// Whatever ID came last in a conversation, every greater one is new there and no other is; in a
/// conversation in which nothing came, every ID is new.
pub proof fn law_greater_ids_are_new(adapter: AdapterView, key: Seq<char>, id: i64)
    ensures
        !adapter.last_msg_ids.contains_key(key) ==> adapter.is_new(key, id),
        adapter.last_msg_ids.contains_key(key) ==> (adapter.is_new(key, id) <==> id
            > adapter.last_msg_ids[key]),
{
}

/// A message says what its event says: the conversation that it came from, who sent it, its ID,
/// its whole text, whether it came to a team, and when.
pub proof fn law_message_says_what_the_event_says(event: JsonView, timestamp: Timestamp)
    ensures
        ({
            let message = event_message(event, timestamp);
            &&& message.channel == ChannelTypeView::Custom("keybase"@)
            &&& message.platform_message_id == signed_decimal(event_id(event) as int)
            &&& message.sender.platform_id == event_team(event) + ":"@ + event_topic(event)
            &&& message.sender.display_name == event_sender(event)
            &&& message.sender.openfang_user is None
            &&& message.content == content_of(event_text(event))
            &&& message.target_agent is None
            &&& message.thread_id is None
            &&& message.timestamp == timestamp
            &&& message.is_group == is_team_event(event)
            &&& message.metadata.len() == 3
            &&& message.metadata.contains(("team_name"@, JsonView::Str(event_team(event))))
            &&& message.metadata.contains(("topic_name"@, JsonView::Str(event_topic(event))))
            &&& message.metadata.contains(("sender_device"@, JsonView::Str(event_device(event))))
        }),
{
    let metadata = event_message(event, timestamp).metadata;
    assert(metadata[0] == ("team_name"@, JsonView::Str(event_team(event))));
    assert(metadata[1] == ("topic_name"@, JsonView::Str(event_topic(event))));
    assert(metadata[2] == ("sender_device"@, JsonView::Str(event_device(event))));
}

/// A text that does not begin with a slash is kept whole, character for character.
pub proof fn law_text_is_kept(text: Seq<char>)
    requires
        text.len() == 0 || text[0] != '/',
    ensures
        content_of(text) == ContentView::Text(text),
{
}

/// A command is one or more slashes, its name and, after a space, its arguments, which are the
/// words there: the name is told without the slashes, and nothing of it or of them is lost.
pub proof fn law_command_is_read(slashes: Seq<char>, name: Seq<char>, tail: Seq<char>)
    requires
        slashes.len() > 0,
        forall|i: int| 0 <= i < slashes.len() ==> slashes[i] == '/',
        name.len() == 0 || name[0] != '/',
        !name.contains(' '),
    ensures
        content_of(slashes + name) == (ContentView::Command { name, args: Seq::empty() }),
        content_of(slashes + name + seq![' '] + tail) == (ContentView::Command {
            name,
            args: words(tail),
        }),
{
    let head = slashes + name;
    assert forall|i: int| 0 <= i < head.len() implies head[i] != ' ' by {
        if i < slashes.len() {
            assert(head[i] == slashes[i]);
        } else {
            assert(name.contains(name[i - slashes.len()]));
        }
    }
    assert(!head.contains(' '));
    law_split_at_first(head, ' ', tail);
    law_start_trimmed(slashes, name, '/');
    assert(head[0] == slashes[0]);
    assert((head + seq![' '] + tail)[0] == slashes[0]);
}

/// A line with a document is taken in as that document: its message is delivered, or it is
/// passed over. A line without one is passed over, and anything else ends the listening.
pub proof fn law_lines_are_taken_in(adapter: AdapterView, event: ListenEvent, timestamp: Timestamp)
    ensures
        event matches ListenEvent::Line(line) ==> match parsed_json(encode_utf8(line@)) {
            Ok(document) => {
                &&& adapter.after_listening(event) == adapter.after_event(document)
                &&& adapter.reaction(event, timestamp) == (match adapter.delivery(
                    document,
                    timestamp,
                ) {
                    Some(message) => ListenActionView::Deliver(message),
                    None => ListenActionView::Wait,
                })
            },
            Err(_) => {
                &&& adapter.after_listening(event) == adapter
                &&& adapter.reaction(event, timestamp) is Wait
            },
        },
        !(event is Line) ==> adapter.after_listening(event) == adapter && adapter.reaction(
            event,
            timestamp,
        ) is Stop,
{
}

/// A text is sent exactly as it is, character for character, with all its lines; of anything
/// else a note is sent.
pub proof fn law_text_is_sent_whole(text: Seq<char>, content: ContentView)
    ensures
        text_to_send(ContentView::Text(text)) == text,
        !(content is Text) ==> text_to_send(content) == "(Unsupported content type)"@,
{
}

/// Different texts are sent differently.
pub proof fn law_texts_are_told_apart(one: Seq<char>, other: Seq<char>)
    requires
        text_to_send(ContentView::Text(one)) == text_to_send(ContentView::Text(other)),
    ensures
        one == other,
{
}

/// A platform ID without a colon is a team, whose topic is `general`; with a colon it is the
/// team before the first one and the whole topic after it.
pub proof fn law_platform_id_is_read(team: Seq<char>, topic: Seq<char>)
    requires
        !team.contains(':'),
    ensures
        conversation_named(team) == (team, "general"@),
        conversation_named(team + seq![':'] + topic) == (team, topic),
{
    law_split_at_first(team, ':', topic);
}

/// A conversation is known by its team, a colon and its topic.
pub proof fn law_conversation_key(team: Seq<char>, topic: Seq<char>)
    ensures
        conversation_key(team, topic) == team + seq![':'] + topic,
{
    reveal_strlit(":");
    assert(":"@ =~= seq![':']);
}

/// The channel to which something is sent is the named topic of the named team.
pub proof fn law_channel_is_the_conversation(team: Seq<char>, topic: Seq<char>)
    ensures
        ({
            let channel = team_channel(team, topic);
            &&& channel matches JsonView::Object(fields) && fields.len() == 3
            &&& channel.at("name"@) == JsonView::Str(team)
            &&& channel.at("topic_name"@) == JsonView::Str(topic)
            &&& channel.at("members_type"@) == JsonView::Str("team"@)
        }),
{
    reveal_strlit("members_type");
    reveal_strlit("name");
    reveal_strlit("topic_name");
    assert("members_type"@.len() == 12 && "name"@.len() == 4 && "topic_name"@.len() == 10);
    let fields = team_channel(team, topic)->Object_0;
    law_field_is_found(fields, "members_type"@, 0);
    law_field_is_found(fields, "name"@, 1);
    law_field_is_found(fields, "topic_name"@, 2);
}

/// A call says its method and carries its options.
pub proof fn law_call_says_its_method(method: Seq<char>, options: JsonView)
    ensures
        ({
            let call = api_call(method, options);
            &&& call matches JsonView::Object(fields) && fields.len() == 2
            &&& call.at("method"@) == JsonView::Str(method)
            &&& call.at("params"@) matches JsonView::Object(params) && params.len() == 1
            &&& call.at("params"@).at("options"@) == options
        }),
{
    reveal_strlit("method");
    reveal_strlit("params");
    assert("method"@[0] == 'm' && "params"@[0] == 'p');
    let fields = api_call(method, options)->Object_0;
    law_field_is_found(fields, "method"@, 0);
    law_field_is_found(fields, "params"@, 1);
    law_field_is_found(fields[1].1->Object_0, "options"@, 0);
}

/// What is sent goes to the given channel and says the given text, character for character, and
/// nothing else.
pub proof fn law_send_call_says_the_text(channel: JsonView, body: Seq<char>)
    ensures
        ({
            let call = send_call(channel, body);
            let options = call.at("params"@).at("options"@);
            &&& call.at("method"@) == JsonView::Str("send"@)
            &&& options matches JsonView::Object(fields) && fields.len() == 2
            &&& options.at("channel"@) == channel
            &&& options.at("message"@) matches JsonView::Object(parts) && parts.len() == 1
            &&& options.at("message"@).at("body"@) == JsonView::Str(body)
        }),
{
    reveal_strlit("channel");
    reveal_strlit("message");
    assert("channel"@[0] == 'c' && "message"@[0] == 'm');
    let options = JsonView::Object(
        seq![
            ("channel"@, channel),
            ("message"@, JsonView::Object(seq![("body"@, JsonView::Str(body))])),
        ],
    );
    law_call_says_its_method("send"@, options);
    law_field_is_found(options->Object_0, "channel"@, 0);
    law_field_is_found(options->Object_0, "message"@, 1);
    law_field_is_found(options->Object_0[1].1->Object_0, "body"@, 0);
}

/// What lists the conversations has no options; what reads a conversation asks for the last
/// twenty messages of the given channel.
pub proof fn law_list_and_read_calls(channel: JsonView)
    ensures
        list_call().at("method"@) == JsonView::Str("list"@),
        list_call().at("params"@).at("options"@) == JsonView::Object(Seq::empty()),
        read_call(channel).at("method"@) == JsonView::Str("read"@),
        ({
            let options = read_call(channel).at("params"@).at("options"@);
            &&& options matches JsonView::Object(fields) && fields.len() == 2
            &&& options.at("channel"@) == channel
            &&& options.at("pagination"@).at("num"@) == JsonView::Number(
                JsonNumberView::PosInt(20),
            )
        }),
{
    reveal_strlit("channel");
    reveal_strlit("pagination");
    assert("channel"@.len() == 7 && "pagination"@.len() == 10);
    law_call_says_its_method("list"@, JsonView::Object(Seq::empty()));
    let pages = JsonView::Object(seq![("num"@, JsonView::Number(JsonNumberView::PosInt(20)))]);
    let options = JsonView::Object(seq![("channel"@, channel), ("pagination"@, pages)]);
    law_call_says_its_method("read"@, options);
    law_field_is_found(options->Object_0, "channel"@, 0);
    law_field_is_found(options->Object_0, "pagination"@, 1);
    law_field_is_found(pages->Object_0, "num"@, 0);
}

/// Every piece of a text is sent, in its place, to the same channel, and as it is.
pub proof fn law_every_piece_is_sent(channel: JsonView, chunks: Seq<Seq<char>>, i: int)
    requires
        0 <= i < chunks.len(),
    ensures
        send_calls(channel, chunks).len() == chunks.len(),
        ({
            let options = send_calls(channel, chunks)[i].at("params"@).at("options"@);
            &&& options.at("channel"@) == channel
            &&& options.at("message"@).at("body"@) == JsonView::Str(chunks[i])
        }),
{
    law_send_call_says_the_text(channel, chunks[i]);
}

/// The items of an answer are all those that its `result` lists under the name, in their order;
/// where it lists none there are none.
pub proof fn law_answer_lists_its_items(answer: JsonView, key: Seq<char>, items: Seq<JsonView>)
    ensures
        answer.at("result"@).at(key) == JsonView::Array(items) ==> answer_items(answer, key)
            == items,
        !(answer.at("result"@).at(key) is Array) ==> answer_items(answer, key).len() == 0,
{
}

/// An error says what went wrong: the status, or the parser's own message.
pub proof fn law_error_says_what_went_wrong(text: Seq<char>)
    ensures
        ChatApiErrorView::Exit(text).message() == "keybase chat api exited with status: "@ + text,
        ChatApiErrorView::InvalidJson(text).message() == text,
{
}

/// The payload that is sent next is the one whose turn it is; after the last there is none.
pub proof fn law_next_payload<E>(payloads: Seq<JsonView>, next: int)
    requires
        0 <= next,
    ensures
        next < payloads.len() ==> send_from::<E>(payloads, next) == SendStepView::<E>::Send(
            SendSessionView { payloads, next },
            payloads[next],
        ),
        next >= payloads.len() ==> send_from::<E>(payloads, next) == SendStepView::<E>::Done(
            Ok(()),
        ),
{
}

/// Contents, users and messages stand for what they hold.
pub proof fn law_messages_stand_for_themselves(
    texts: Seq<String>,
    text: String,
    name: String,
    args: Vec<String>,
    user: ChannelUser,
    message: ChannelMessage,
)
    ensures
        string_views(texts).len() == texts.len(),
        forall|i: int| 0 <= i < texts.len() ==> #[trigger] string_views(texts)[i] == texts[i]@,
        ChannelType::Custom(name)@ == ChannelTypeView::Custom(name@),
        ChannelContent::Text(text)@ == ContentView::Text(text@),
        (ChannelContent::Command { name, args })@ == (ContentView::Command {
            name: name@,
            args: string_views(args@),
        }),
        user@.platform_id == user.platform_id@,
        user@.display_name == user.display_name@,
        user@.openfang_user == text_option(user.openfang_user),
        message@.channel == message.channel@,
        message@.platform_message_id == message.platform_message_id@,
        message@.sender == message.sender@,
        message@.content == message.content@,
        message@.target_agent == text_option(message.target_agent),
        message@.timestamp == message.timestamp,
        message@.is_group == message.is_group,
        message@.thread_id == text_option(message.thread_id),
        message@.metadata == field_views(message.metadata@),
        message_option(Some(message)) == Some(message@),
        message_option(None) is None,
{
}

/// Adapters, actions, errors and texts on their way stand for what they hold.
pub proof fn law_adapters_stand_for_themselves<E>(
    adapter: KeybaseAdapter,
    action: ListenAction,
    error: ChatApiError,
    session: SendSession,
    payload: Json,
    result: Result<(), E>,
)
    ensures
        adapter@.username == adapter.username@,
        adapter@.paperkey == paper_key_text(adapter.paperkey),
        adapter@.allowed_teams == string_views(adapter.allowed_teams@),
        adapter@.last_msg_ids == adapter.last_msg_ids@,
        action matches ListenAction::Deliver(message) ==> action@ == ListenActionView::Deliver(
            message@,
        ),
        action is Wait ==> action@ is Wait,
        action is Stop ==> action@ is Stop,
        error matches ChatApiError::Exit(status) ==> error@ == ChatApiErrorView::Exit(status@),
        error matches ChatApiError::InvalidJson(message) ==> error@
            == ChatApiErrorView::InvalidJson(message@),
        session@.payloads == json_views(session.payloads@),
        session@.next == session.next,
        SendStep::<E>::Send(session, payload)@ == SendStepView::<E>::Send(session@, payload@),
        SendStep::<E>::Done(result)@ == SendStepView::<E>::Done(result),
{
}

} // verus!
