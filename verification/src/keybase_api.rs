//! The documents that go to and come from the `keybase chat api` subprocess.
use vstd::prelude::*;
use vstd::string::*;

use crate::channel::{string_views, ChannelContent, ChannelUser, ContentView};
use crate::json::{decode_json, json_views, parsed_json, Json, JsonNumberView, JsonView};
use crate::keybase::READ_PAGE_LEN;
use crate::text::{joined, split_at_first, split_first};

verus! {

/// Why a call of the subprocess failed: it exited with a status that is no success, or what
/// it printed is no JSON document, with the parser's message.
#[derive(Debug, PartialEq, Eq)]
pub enum ChatApiError {
    Exit(String),
    InvalidJson(String),
}

/// What an error is.
pub enum ChatApiErrorView {
    Exit(Seq<char>),
    InvalidJson(Seq<char>),
}

impl View for ChatApiError {
    type V = ChatApiErrorView;

    open spec fn view(&self) -> ChatApiErrorView {
        match self {
            ChatApiError::Exit(status) => ChatApiErrorView::Exit(status@),
            ChatApiError::InvalidJson(message) => ChatApiErrorView::InvalidJson(message@),
        }
    }
}

impl ChatApiErrorView {
    /// The message that tells of the error.
    pub open spec fn message(self) -> Seq<char> {
        match self {
            ChatApiErrorView::Exit(status) => "keybase chat api exited with status: "@ + status,
            ChatApiErrorView::InvalidJson(message) => message,
        }
    }
}

impl ChatApiError {
    /// The message that tells of the error.
    pub fn message(&self) -> (r: String)
        ensures
            r@ == self@.message(),
    {
        match self {
            ChatApiError::Exit(status) => joined(
                "keybase chat api exited with status: ",
                status.as_str(),
            ),
            ChatApiError::InvalidJson(message) => message.clone(),
        }
    }
}

/// A call of the subprocess: the method and its options.
pub open spec fn api_call(method: Seq<char>, options: JsonView) -> JsonView {
    JsonView::Object(
        seq![
            ("method"@, JsonView::Str(method)),
            ("params"@, JsonView::Object(seq![("options"@, options)])),
        ],
    )
}

/// The call that lists the conversations.
pub open spec fn list_call() -> JsonView {
    api_call("list"@, JsonView::Object(Seq::empty()))
}

/// The call that reads the last messages of a conversation.
pub open spec fn read_call(channel: JsonView) -> JsonView {
    api_call(
        "read"@,
        JsonView::Object(
            seq![
                ("channel"@, channel),
                (
                    "pagination"@,
                    JsonView::Object(
                        seq![("num"@, JsonView::Number(JsonNumberView::PosInt(READ_PAGE_LEN)))],
                    ),
                ),
            ],
        ),
    )
}

/// The call that sends `body` to a conversation.
pub open spec fn send_call(channel: JsonView, body: Seq<char>) -> JsonView {
    api_call(
        "send"@,
        JsonView::Object(
            seq![
                ("channel"@, channel),
                ("message"@, JsonView::Object(seq![("body"@, JsonView::Str(body))])),
            ],
        ),
    )
}

/// The calls that send the pieces of a text, one after the other.
pub open spec fn send_calls(channel: JsonView, chunks: Seq<Seq<char>>) -> Seq<JsonView> {
    Seq::new(chunks.len(), |i: int| send_call(channel, chunks[i]))
}

/// The conversation `topic` of the team `team`.
pub open spec fn team_channel(team: Seq<char>, topic: Seq<char>) -> JsonView {
    JsonView::Object(
        seq![
            ("members_type"@, JsonView::Str("team"@)),
            ("name"@, JsonView::Str(team)),
            ("topic_name"@, JsonView::Str(topic)),
        ],
    )
}

/// The team and the topic that a platform ID names: what stands before and after the first
/// colon, or the whole as the team, with the topic `general`.
pub open spec fn conversation_named(platform_id: Seq<char>) -> (Seq<char>, Seq<char>) {
    match split_at_first(platform_id, ':') {
        Some((team, topic)) => (team, topic),
        None => (platform_id, "general"@),
    }
}

/// The text that is sent for `content`.
pub open spec fn text_to_send(content: ContentView) -> Seq<char> {
    match content {
        ContentView::Text(text) => text,
        _ => "(Unsupported content type)"@,
    }
}

/// The items that an answer lists under `key`.
pub open spec fn answer_items(answer: JsonView, key: Seq<char>) -> Seq<JsonView> {
    answer.at("result"@).at(key).items()
}

/// A call of the subprocess.
fn call(method: &str, options: Json) -> (r: Json)
    ensures
        r@ == api_call(method@, options@),
{
    let params = Json::object().with("options", options);
    assert(params@->Object_0 =~= seq![("options"@, options@)]);
    let payload = Json::object().with("method", Json::text(method)).with("params", params);
    assert(payload@->Object_0 =~= api_call(method@, options@)->Object_0);
    payload
}

/// The payload that lists the conversations.
pub fn list_payload() -> (r: Json)
    ensures
        r@ == list_call(),
{
    call("list", Json::object())
}

/// The payload that reads the last messages of a conversation.
pub fn read_payload(channel: &Json) -> (r: Json)
    ensures
        r@ == read_call(channel@),
{
    let pagination = Json::object().with("num", Json::integer(READ_PAGE_LEN));
    assert(pagination@->Object_0 =~= seq![
        ("num"@, JsonView::Number(JsonNumberView::PosInt(READ_PAGE_LEN))),
    ]);
    let options = Json::object().with("channel", channel.clone()).with("pagination", pagination);
    assert(options@->Object_0 =~= seq![("channel"@, channel@), ("pagination"@, pagination@)]);
    call("read", options)
}

/// The payload that sends `body` to a conversation.
pub fn send_payload(channel: &Json, body: &str) -> (r: Json)
    ensures
        r@ == send_call(channel@, body@),
{
    let message = Json::object().with("body", Json::text(body));
    assert(message@->Object_0 =~= seq![("body"@, JsonView::Str(body@))]);
    let options = Json::object().with("channel", channel.clone()).with("message", message);
    assert(options@->Object_0 =~= seq![("channel"@, channel@), ("message"@, message@)]);
    call("send", options)
}

/// The payloads that send the pieces of a text, in order.
pub fn send_payloads(channel: &Json, chunks: &Vec<String>) -> (r: Vec<Json>)
    ensures
        json_views(r@) == send_calls(channel@, string_views(chunks@)),
{
    let mut out: Vec<Json> = Vec::new();
    let mut i: usize = 0;
    while i < chunks.len()
        invariant
            i <= chunks@.len(),
            json_views(out@) == send_calls(channel@, string_views(chunks@)).take(i as int),
        decreases chunks@.len() - i,
    {
        let ghost before = out@;
        let payload = send_payload(channel, chunks[i].as_str());
        out.push(payload);
        assert(json_views(out@) =~= json_views(before).push(payload@));
        i = i + 1;
    }
    assert(json_views(out@) =~= send_calls(channel@, string_views(chunks@)));
    out
}

/// A text on its way: the payloads of its pieces, and the index of the one that is being sent.
#[derive(Debug)]
pub struct SendSession {
    pub payloads: Vec<Json>,
    pub next: usize,
}

/// What a text on its way is.
pub struct SendSessionView {
    pub payloads: Seq<JsonView>,
    pub next: int,
}

/// What is to be done next: send a payload and tell the session how that went, or nothing,
/// because the sending is over.
#[derive(Debug)]
pub enum SendStep<E> {
    Send(SendSession, Json),
    Done(Result<(), E>),
}

/// What a step of the sending is.
pub enum SendStepView<E> {
    Send(SendSessionView, JsonView),
    Done(Result<(), E>),
}

impl View for SendSession {
    type V = SendSessionView;

    open spec fn view(&self) -> SendSessionView {
        SendSessionView { payloads: json_views(self.payloads@), next: self.next as int }
    }
}

impl<E> View for SendStep<E> {
    type V = SendStepView<E>;

    open spec fn view(&self) -> SendStepView<E> {
        match self {
            SendStep::Send(session, payload) => SendStepView::Send(session@, payload@),
            SendStep::Done(result) => SendStepView::Done(*result),
        }
    }
}

/// The step once the payloads before the index `next` are sent.
pub open spec fn send_from<E>(payloads: Seq<JsonView>, next: int) -> SendStepView<E> {
    if next < payloads.len() {
        SendStepView::Send(SendSessionView { payloads, next }, payloads[next])
    } else {
        SendStepView::Done(Ok(()))
    }
}

impl SendSessionView {
    /// The step that follows when the payload that is being sent has come to `outcome`: the
    /// next one, or the end with the error.
    pub open spec fn after<E>(self, outcome: Result<(), E>) -> SendStepView<E> {
        match outcome {
            Ok(_) => send_from(self.payloads, self.next + 1),
            Err(e) => SendStepView::Done(Err(e)),
        }
    }
}

impl SendSession {
    /// Begins to send the pieces of a text to a conversation.
    pub fn begin<E>(channel: &Json, chunks: &Vec<String>) -> (r: SendStep<E>)
        ensures
            r@ == send_from::<E>(send_calls(channel@, string_views(chunks@)), 0),
    {
        SendSession::send_at(send_payloads(channel, chunks), 0)
    }

    /// Takes in how the payload that was being sent went.
    pub fn resume<E>(self, outcome: Result<(), E>) -> (r: SendStep<E>)
        ensures
            r@ == self@.after(outcome),
    {
        match outcome {
            Ok(_) => if self.next < self.payloads.len() {
                SendSession::send_at(self.payloads, self.next + 1)
            } else {
                SendStep::Done(Ok(()))
            },
            Err(e) => SendStep::Done(Err(e)),
        }
    }

    /// Sends the payload with the index `next`, where there is one.
    fn send_at<E>(payloads: Vec<Json>, next: usize) -> (r: SendStep<E>)
        ensures
            r@ == send_from::<E>(json_views(payloads@), next as int),
    {
        if next < payloads.len() {
            let payload = payloads[next].clone();
            SendStep::Send(SendSession { payloads, next }, payload)
        } else {
            SendStep::Done(Ok(()))
        }
    }
}

/// The conversation that a platform ID names, as the subprocess wants it.
pub fn channel_of(platform_id: &str) -> (r: Json)
    ensures
        r@ == ({
            let (team, topic) = conversation_named(platform_id@);
            team_channel(team, topic)
        }),
{
    let (team, topic) = match split_first(platform_id, ':') {
        Some((team, topic)) => (team, topic),
        None => (platform_id, "general"),
    };
    let channel = Json::object().with("members_type", Json::text("team")).with(
        "name",
        Json::text(team),
    ).with("topic_name", Json::text(topic));
    assert(channel@->Object_0 =~= team_channel(team@, topic@)->Object_0);
    channel
}

/// A message to send: the conversation and the text.
#[derive(Debug)]
pub struct Outgoing {
    pub channel: Json,
    pub text: String,
}

/// The message that sends `content` to `user`. Content that is no text is sent as a note
/// that says so.
pub fn outgoing(user: &ChannelUser, content: ChannelContent) -> (r: Outgoing)
    ensures
        r.channel@ == ({
            let (team, topic) = conversation_named(user@.platform_id);
            team_channel(team, topic)
        }),
        r.text@ == text_to_send(content@),
        content matches ChannelContent::Text(text) ==> r.text@ == text@,
{
    let text = match content {
        ChannelContent::Text(text) => text,
        _ => "(Unsupported content type)".to_owned(),
    };
    Outgoing { channel: channel_of(user.platform_id.as_str()), text }
}

/// What a call of the subprocess came to: the document that it printed, or why there is none.
pub fn chat_api_answer(success: bool, status: &str, stdout: &[u8]) -> (r: Result<
    Json,
    ChatApiError,
>)
    ensures
        match r {
            Ok(json) => success && parsed_json(stdout@) == Ok::<JsonView, Seq<char>>(json@),
            Err(ChatApiError::Exit(text)) => !success && text@ == status@,
            Err(ChatApiError::InvalidJson(message)) => success && parsed_json(stdout@) == Err::<
                JsonView,
                Seq<char>,
            >(message@),
        },
{
    if !success {
        return Err(ChatApiError::Exit(status.to_owned()));
    }
    match decode_json(stdout) {
        Ok(json) => Ok(json),
        Err(message) => Err(ChatApiError::InvalidJson(message)),
    }
}

/// The conversations that an answer lists.
pub fn conversations(answer: &Json) -> (r: Vec<Json>)
    ensures
        json_views(r@) == answer_items(answer@, "conversations"@),
{
    answer.at("result").at("conversations").items()
}

/// The messages that an answer lists.
pub fn messages(answer: &Json) -> (r: Vec<Json>)
    ensures
        json_views(r@) == answer_items(answer@, "messages"@),
{
    answer.at("result").at("messages").items()
}

} // verus!
