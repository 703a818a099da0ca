use openfang_adapters::channel::{
    ChannelContent, ChannelMessage, ChannelType, ChannelUser, Timestamp,
};
use openfang_adapters::json::{decode_json, Json, JsonNumber};
use openfang_adapters::keybase::{
    conversation_name, parse_content, KeybaseAdapter, ListenAction, ListenEvent, MAX_MESSAGE_LEN,
};
use openfang_adapters::keybase_api::{
    channel_of, chat_api_answer, conversations, list_payload, messages, outgoing, read_payload,
    send_payload, send_payloads, ChatApiError, SendSession, SendStep,
};

const NOON: Timestamp = Timestamp { secs: 1_700_000_000, nanos: 5 };

fn adapter(teams: Vec<&str>) -> KeybaseAdapter {
    KeybaseAdapter::new(
        "me".to_string(),
        "key".to_string(),
        teams.into_iter().map(String::from).collect(),
    )
}

fn event(team: &str, sender: &str, id: i64, text: &str) -> Json {
    let line = format!(
        r#"{{"type": "chat", "msg": {{"id": {id},
            "channel": {{"members_type": "team", "name": "{team}", "topic_name": "dev"}},
            "sender": {{"username": "{sender}", "device_name": "laptop"}},
            "content": {{"type": "text", "text": {{"body": "{text}"}}}}}}}}"#
    );
    decode_json(line.as_bytes()).unwrap()
}

fn take(adapter: &mut KeybaseAdapter, event: &Json) -> Option<ChannelMessage> {
    adapter.handle_event(event, NOON)
}

#[test]
fn test_keybase_adapter_creation() {
    let adapter = KeybaseAdapter::new(
        "testuser".to_string(),
        "paper-key-phrase".to_string(),
        vec!["myteam".to_string()],
    );
    assert_eq!(adapter.name(), "keybase");
    assert_eq!(
        adapter.channel_type(),
        ChannelType::Custom("keybase".to_string())
    );
}

#[test]
fn test_keybase_allowed_teams() {
    let adapter = KeybaseAdapter::new(
        "user".to_string(),
        "paperkey".to_string(),
        vec!["team-a".to_string(), "team-b".to_string()],
    );
    assert!(adapter.is_allowed_team("team-a"));
    assert!(adapter.is_allowed_team("team-b"));
    assert!(!adapter.is_allowed_team("team-c"));

    let open = KeybaseAdapter::new("user".to_string(), "paperkey".to_string(), vec![]);
    assert!(open.is_allowed_team("any-team"));
}

#[test]
fn test_keybase_paperkey_zeroized() {
    let adapter = KeybaseAdapter::new(
        "user".to_string(),
        "my secret paper key".to_string(),
        vec![],
    );
    assert_eq!(adapter.paperkey.as_str(), "my secret paper key");
}

#[test]
fn test_keybase_username_stored() {
    let adapter = KeybaseAdapter::new("alice".to_string(), "key".to_string(), vec![]);
    assert_eq!(adapter.username, "alice");
}

#[test]
fn a_message_is_delivered_whole() {
    let mut adapter = adapter(vec!["crew"]);
    let message = take(&mut adapter, &event("crew", "bob", 7, "hello")).unwrap();
    assert_eq!(
        message,
        ChannelMessage {
            channel: ChannelType::Custom("keybase".to_string()),
            platform_message_id: "7".to_string(),
            sender: ChannelUser {
                platform_id: "crew:dev".to_string(),
                display_name: "bob".to_string(),
                openfang_user: None,
            },
            content: ChannelContent::Text("hello".to_string()),
            target_agent: None,
            timestamp: NOON,
            is_group: true,
            thread_id: None,
            metadata: vec![
                ("team_name".to_string(), Json::text("crew")),
                ("topic_name".to_string(), Json::text("dev")),
                ("sender_device".to_string(), Json::text("laptop")),
            ],
        }
    );
}

#[test]
fn filtered_events_deliver_nothing() {
    let mut adapter = adapter(vec!["crew"]);
    assert!(take(&mut adapter, &event("other", "bob", 1, "hello")).is_none());
    assert!(take(&mut adapter, &event("crew", "me", 1, "hello")).is_none());
    assert!(take(&mut adapter, &event("crew", "bob", 1, "")).is_none());
    for line in [
        r#"{"type": "wallet"}"#,
        r#"{"type": 1}"#,
        "[]",
        r#"{"type": "chat", "msg": {"channel": {"members_type": "team", "name": "crew"}, "sender": {"username": "bob"}, "content": {"type": "join", "text": {"body": "x"}}}}"#,
    ] {
        assert!(take(&mut adapter, &decode_json(line.as_bytes()).unwrap()).is_none());
    }
    // Nothing of that counts as a message that came before.
    assert!(take(&mut adapter, &event("crew", "bob", 1, "hello")).is_some());
}

#[test]
fn conversations_outside_teams_are_always_listened_to() {
    let mut adapter = adapter(vec!["crew"]);
    let line = r#"{"type": "chat", "msg": {"channel": {"members_type": "impteamnative", "name": "bob,me"},
        "sender": {"username": "bob"}, "content": {"type": "text", "text": {"body": "hi"}}}}"#;
    let direct = decode_json(line.as_bytes()).unwrap();
    let message = take(&mut adapter, &direct).unwrap();
    assert!(!message.is_group);
    assert_eq!(message.sender.platform_id, "bob,me:general");
    assert_eq!(message.platform_message_id, "0");
    assert_eq!(message.metadata[2].1, Json::text(""));
    // Without an ID it counts as message zero, and comes once.
    assert!(take(&mut adapter, &direct).is_none());
}

#[test]
fn messages_come_once_and_in_order() {
    let mut adapter = adapter(vec![]);
    assert!(take(&mut adapter, &event("crew", "bob", 5, "a")).is_some());
    assert!(take(&mut adapter, &event("crew", "bob", 5, "a")).is_none());
    assert!(take(&mut adapter, &event("crew", "bob", 4, "b")).is_none());
    assert!(take(&mut adapter, &event("other", "bob", 4, "b")).is_some());
    assert!(take(&mut adapter, &event("crew", "bob", 6, "c")).is_some());
    assert!(take(&mut adapter, &event("third", "bob", -3, "d")).is_some());
    assert!(take(&mut adapter, &event("third", "bob", -3, "d")).is_none());
}

#[test]
fn a_dropped_message_hides_no_other() {
    let mut adapter = adapter(vec!["crew"]);
    assert!(take(&mut adapter, &event("crew", "me", 10, "mine")).is_none());
    assert!(take(&mut adapter, &event("crew", "bob", 11, "")).is_none());
    assert_eq!(take(&mut adapter, &event("crew", "bob", 9, "hi")).unwrap().platform_message_id, "9");
    assert!(take(&mut adapter, &event("crew", "bob", 9, "hi")).is_none());
    assert!(take(&mut adapter, &event("crew", "bob", 10, "ho")).is_some());
}

#[test]
fn the_paper_key_changes_no_message() {
    let with_key = |key: &str| KeybaseAdapter::new("me".to_string(), key.to_string(), vec![]);
    let (mut one, mut other) = (with_key("first key"), with_key("second key"));
    for document in [event("crew", "bob", 1, "hi"), event("crew", "bob", 1, "hi")] {
        assert_eq!(take(&mut one, &document), take(&mut other, &document));
    }
}

#[test]
fn listening_again_repeats_nothing() {
    let mut adapter = adapter(vec![]);
    let line = |id: i64| {
        let text = format!(
            r#"{{"type": "chat", "msg": {{"id": {id}, "channel": {{"name": "crew"}},
                "content": {{"type": "text", "text": {{"body": "hi"}}}}}}}}"#
        );
        ListenEvent::Line(text)
    };
    let delivered = |action: ListenAction| matches!(action, ListenAction::Deliver(_));
    assert!(delivered(adapter.listen(line(3))));
    assert!(matches!(adapter.listen(ListenEvent::EndOfOutput), ListenAction::Stop));
    assert!(!delivered(adapter.listen(line(2))));
    assert!(!delivered(adapter.listen(line(3))));
    assert!(delivered(adapter.listen(line(4))));
}

#[test]
fn commands_are_read() {
    let command = |name: &str, args: Vec<&str>| ChannelContent::Command {
        name: name.to_string(),
        args: args.into_iter().map(String::from).collect(),
    };
    assert_eq!(parse_content("/help"), command("help", vec![]));
    assert_eq!(parse_content("/run  a\tb "), command("run", vec!["a", "b"]));
    assert_eq!(parse_content("//run /a"), command("run", vec!["/a"]));
    assert_eq!(parse_content("/"), command("", vec![]));
    assert_eq!(parse_content("/a\tb c"), command("a\tb", vec!["c"]));
    assert_eq!(parse_content(" /help"), ChannelContent::Text(" /help".to_string()));
}

#[test]
fn listening_goes_on_until_it_is_over() {
    let mut adapter = adapter(vec![]);
    let line = r#"{"type": "chat", "msg": {"id": 1, "sender": {"username": "bob"},
        "content": {"type": "text", "text": {"body": "hi"}}}}"#;
    match adapter.listen(ListenEvent::Line(line.to_string())) {
        ListenAction::Deliver(message) => {
            assert_eq!(message.sender.platform_id, ":general");
            assert!(message.timestamp.secs > 1_600_000_000);
        }
        other => panic!("{:?}", other),
    }
    assert!(matches!(adapter.listen(ListenEvent::Line(line.to_string())), ListenAction::Wait));
    assert!(matches!(adapter.listen(ListenEvent::Line("{".to_string())), ListenAction::Wait));
    assert!(matches!(
        adapter.listen_at(ListenEvent::Line(line.replace(": 1,", ": 2,")), NOON),
        ListenAction::Deliver(ChannelMessage { timestamp: NOON, .. })
    ));
    for event in [
        ListenEvent::Shutdown,
        ListenEvent::EndOfOutput,
        ListenEvent::ReadError,
        ListenEvent::Undelivered,
    ] {
        assert!(matches!(adapter.listen(event), ListenAction::Stop));
    }
}

#[test]
fn payloads() {
    let same = |payload: Json, text: &str| {
        // The parser hands fields over in the order of their names.
        assert_eq!(payload, decode_json(text.as_bytes()).unwrap());
    };
    same(list_payload(), r#"{"method": "list", "params": {"options": {}}}"#);
    let channel = Json::object().with("name", Json::text("crew"));
    same(
        read_payload(&channel),
        r#"{"method": "read", "params": {"options": {"channel": {"name": "crew"}, "pagination": {"num": 20}}}}"#,
    );
    same(
        send_payload(&channel, "hi"),
        r#"{"method": "send", "params": {"options": {"channel": {"name": "crew"}, "message": {"body": "hi"}}}}"#,
    );
    let all = send_payloads(&channel, &vec!["one".to_string(), "two".to_string()]);
    assert_eq!(all, vec![send_payload(&channel, "one"), send_payload(&channel, "two")]);
    assert_eq!(MAX_MESSAGE_LEN, 10000);
}

/// Sends three pieces, the one with the index `failing` in vain, and gives what was sent.
fn send_three(failing: Option<usize>) -> (Vec<Json>, Result<(), String>) {
    let chunks = vec!["one".to_string(), "two".to_string(), "three".to_string()];
    let mut step = SendSession::begin(&channel_of("crew:dev"), &chunks);
    let mut sent: Vec<Json> = Vec::new();
    loop {
        match step {
            SendStep::Done(result) => return (sent, result),
            SendStep::Send(session, payload) => {
                let outcome =
                    if failing == Some(sent.len()) { Err("no".to_string()) } else { Ok(()) };
                sent.push(payload);
                step = session.resume(outcome);
            }
        }
    }
}

#[test]
fn sending_stops_at_the_first_failure() {
    let channel = channel_of("crew:dev");
    let payload = |body: &str| send_payload(&channel, body);
    assert_eq!(send_three(None), (vec![payload("one"), payload("two"), payload("three")], Ok(())));
    assert_eq!(send_three(Some(0)), (vec![payload("one")], Err("no".to_string())));
    assert_eq!(send_three(Some(1)), (vec![payload("one"), payload("two")], Err("no".to_string())));
    let nothing: SendStep<String> = SendSession::begin(&channel, &Vec::new());
    assert!(matches!(nothing, SendStep::Done(Ok(()))));
}

#[test]
fn answers_go_back_to_the_conversation() {
    let mut adapter = adapter(vec![]);
    let message = take(&mut adapter, &event("crew", "bob", 1, "hi")).unwrap();
    let reply = outgoing(&message.sender, ChannelContent::Text("hello".to_string()));
    assert_eq!(reply.text, "hello");
    let channel = br#"{"name": "crew", "topic_name": "dev", "members_type": "team"}"#;
    assert_eq!(reply.channel, decode_json(channel).unwrap());

    let command = ChannelContent::Command { name: "x".to_string(), args: vec![] };
    assert_eq!(outgoing(&message.sender, command).text, "(Unsupported content type)");

    assert_eq!(channel_of("crew").at("topic_name").as_str(), Some("general"));
    assert_eq!(channel_of("crew:").at("topic_name").as_str(), Some(""));
    assert_eq!(channel_of("a:b:c").at("topic_name").as_str(), Some("b:c"));
    assert_eq!(conversation_name("a", "b:c"), "a:b:c");
}

#[test]
fn subprocess_answers() {
    let text = r#"{"result": {"conversations": [{"id": "1"}, 2], "messages": [null]}}"#;
    let answer = chat_api_answer(true, "exit status: 0", text.as_bytes()).unwrap();
    assert_eq!(conversations(&answer).len(), 2);
    assert_eq!(conversations(&answer)[0].at("id").as_str(), Some("1"));
    assert_eq!(messages(&answer), vec![Json::Null]);
    assert!(conversations(&Json::Null).is_empty());

    let exit = chat_api_answer(false, "exit status: 2", text.as_bytes()).unwrap_err();
    assert_eq!(exit, ChatApiError::Exit("exit status: 2".to_string()));
    assert_eq!(exit.message(), "keybase chat api exited with status: exit status: 2");
    let invalid = chat_api_answer(true, "exit status: 0", b"{").unwrap_err();
    assert_eq!(invalid.message(), "EOF while parsing an object at line 1 column 1");
    assert!(matches!(invalid, ChatApiError::InvalidJson(_)));
}

#[test]
fn json_values_keep_their_kind() {
    let json = decode_json(br#"{"b": [1, -2, 2.5, 18446744073709551615, "s", true, null], "a": {}}"#).unwrap();
    let items = json.at("b").items();
    assert_eq!(items[0], Json::Number(JsonNumber::PosInt(1)));
    assert_eq!(items[1], Json::Number(JsonNumber::NegInt(-2)));
    assert_eq!(items[2], Json::Number(JsonNumber::Float("2.5".to_string())));
    assert_eq!((items[3].as_u64(), items[3].as_i64()), (Some(u64::MAX), None));
    assert_eq!((items[1].as_u64(), items[1].as_i64()), (None, Some(-2)));
    assert_eq!((items[0].as_u64(), items[0].as_i64()), (Some(1), Some(1)));
    assert_eq!((items[2].as_u64(), items[2].as_i64()), (None, None));
    assert_eq!(items[4].as_str(), Some("s"));
    assert_eq!(items[5], Json::Bool(true));
    assert!(items[6].is_null() && !items[5].is_null());
    let fields = json.as_object().unwrap();
    assert_eq!((fields[0].0.as_str(), fields[1].0.as_str()), ("a", "b"));
    assert_eq!(json.clone(), json);
    assert!(json.get("c").is_none() && json.at("c").is_null() && json.as_array().is_none());
}
