//! Keybase chat: which events are messages, what they say, and how messages are sent.
//!
//! The `keybase` subprocesses are run elsewhere. The adapter says what to write to them and
//! takes in what they print.
use vstd::hash_map::StringHashMap;
use vstd::prelude::*;
use vstd::string::*;
use vstd::utf8::encode_utf8;
use zeroize::Zeroizing;

use crate::channel::{
    string_views, ChannelContent, ChannelMessage, ChannelType, ChannelTypeView, ChannelUser,
    ContentView, MessageView, Timestamp, UserView,
};
use crate::json::{decode_json, field_views, parsed_json, Json, JsonView};
use crate::text::{
    has_prefix, i64_text, joined, same_text, signed_decimal, split_at_first, split_first,
    split_words, start_trimmed, texts, trim_start_char, words,
};

verus! {

/// Maximum message length for Keybase messages.
pub const MAX_MESSAGE_LEN: usize = 10000;

/// How many messages one reading of a conversation asks for.
pub const READ_PAGE_LEN: u64 = 20;

/// A paper key, held in a `zeroize::Zeroizing<String>`: its memory is wiped when it is
/// dropped.
#[verifier::external_body]
pub struct PaperKey {
    inner: Zeroizing<String>,
}

/// What a paper key says.
pub uninterp spec fn paper_key_text(key: PaperKey) -> Seq<char>;

/// `Zeroizing::new` takes the text in and keeps it as it is.
#[verifier::external_body]
fn seal_paper_key(text: String) -> (r: PaperKey)
    ensures
        paper_key_text(r) == text@,
{
    PaperKey { inner: Zeroizing::new(text) }
}

/// `Zeroizing::deref` shows the text that was taken in.
#[verifier::external_body]
fn show_paper_key(key: &PaperKey) -> (r: &str)
    ensures
        r@ == paper_key_text(*key),
{
    key.inner.as_str()
}

impl PaperKey {
    /// What the paper key says.
    pub fn as_str(&self) -> (r: &str)
        ensures
            r@ == paper_key_text(*self),
    {
        show_paper_key(self)
    }
}

/// Keybase chat adapter.
pub struct KeybaseAdapter {
    /// Keybase username, for leaving out own messages.
    pub username: String,
    /// Paper key, kept for a login.
    pub paperkey: PaperKey,
    /// Team names to listen on (empty: all conversations).
    pub allowed_teams: Vec<String>,
    /// Last message ID of each conversation, for leaving out what came before.
    pub last_msg_ids: StringHashMap<i64>,
}

/// What an adapter is.
pub struct AdapterView {
    pub username: Seq<char>,
    pub paperkey: Seq<char>,
    pub allowed_teams: Seq<Seq<char>>,
    pub last_msg_ids: Map<Seq<char>, i64>,
}

impl View for KeybaseAdapter {
    type V = AdapterView;

    open spec fn view(&self) -> AdapterView {
        AdapterView {
            username: self.username@,
            paperkey: paper_key_text(self.paperkey),
            allowed_teams: string_views(self.allowed_teams@),
            last_msg_ids: self.last_msg_ids@,
        }
    }
}

/// The part of an event that describes the message.
pub open spec fn event_msg(event: JsonView) -> JsonView {
    event.at("msg"@)
}

/// The part of an event that describes the conversation.
pub open spec fn event_channel(event: JsonView) -> JsonView {
    event_msg(event).at("channel"@)
}

/// Whether the conversation of an event is a team's.
pub open spec fn is_team_event(event: JsonView) -> bool {
    event_channel(event).at("members_type"@).str_or(""@) == "team"@
}

/// The team of an event.
pub open spec fn event_team(event: JsonView) -> Seq<char> {
    event_channel(event).at("name"@).str_or(""@)
}

/// The topic of an event.
pub open spec fn event_topic(event: JsonView) -> Seq<char> {
    event_channel(event).at("topic_name"@).str_or("general"@)
}

/// Who sent the message of an event.
pub open spec fn event_sender(event: JsonView) -> Seq<char> {
    event_msg(event).at("sender"@).at("username"@).str_or(""@)
}

/// The device from which the message of an event was sent.
pub open spec fn event_device(event: JsonView) -> Seq<char> {
    event_msg(event).at("sender"@).at("device_name"@).str_or(""@)
}

/// The text of the message of an event; empty where it is no text message.
pub open spec fn event_text(event: JsonView) -> Seq<char> {
    let content = event_msg(event).at("content"@);
    if content.at("type"@).str_or(""@) == "text"@ {
        content.at("text"@).at("body"@).str_or(""@)
    } else {
        ""@
    }
}

/// The ID of the message of an event.
pub open spec fn event_id(event: JsonView) -> i64 {
    match event_msg(event).at("id"@).as_i64() {
        Some(id) => id,
        None => 0,
    }
}

/// The name under which a conversation is known: the team, a colon and the topic.
pub open spec fn conversation_key(team: Seq<char>, topic: Seq<char>) -> Seq<char> {
    team + ":"@ + topic
}

/// The conversation of an event.
pub open spec fn event_key(event: JsonView) -> Seq<char> {
    conversation_key(event_team(event), event_topic(event))
}

/// What a text says: a command where it begins with a slash, else the text itself. The name
/// of a command is what stands before the first space, without the slashes before it; the
/// words after that space are its arguments.
pub open spec fn content_of(text: Seq<char>) -> ContentView {
    if text.len() > 0 && text[0] == '/' {
        match split_at_first(text, ' ') {
            Some((head, tail)) => ContentView::Command {
                name: start_trimmed(head, '/'),
                args: words(tail),
            },
            None => ContentView::Command { name: start_trimmed(text, '/'), args: Seq::empty() },
        }
    } else {
        ContentView::Text(text)
    }
}

/// The message that an event carries.
pub open spec fn event_message(event: JsonView, timestamp: Timestamp) -> MessageView {
    MessageView {
        channel: ChannelTypeView::Custom("keybase"@),
        platform_message_id: signed_decimal(event_id(event) as int),
        sender: UserView {
            platform_id: event_key(event),
            display_name: event_sender(event),
            openfang_user: None,
        },
        content: content_of(event_text(event)),
        target_agent: None,
        timestamp,
        is_group: is_team_event(event),
        thread_id: None,
        metadata: seq![
            ("team_name"@, JsonView::Str(event_team(event))),
            ("topic_name"@, JsonView::Str(event_topic(event))),
            ("sender_device"@, JsonView::Str(event_device(event))),
        ],
    }
}

impl AdapterView {
    /// Whether messages of the team `name` are listened to.
    pub open spec fn allows_team(self, name: Seq<char>) -> bool {
        self.allowed_teams.len() == 0 || self.allowed_teams.contains(name)
    }

    /// Whether a message with this ID has not come in the conversation `key` before.
    pub open spec fn is_new(self, key: Seq<char>, id: i64) -> bool {
        self.last_msg_ids.contains_key(key) ==> self.last_msg_ids[key] < id
    }

    /// Whether an event carries a message to deliver: a chat message with a text, from
    /// somebody else, in a conversation that is listened to, that has not come before.
    pub open spec fn accepts(self, event: JsonView) -> bool {
        &&& event.at("type"@).as_str() == Some("chat"@)
        &&& is_team_event(event) ==> self.allows_team(event_team(event))
        &&& event_sender(event) != self.username
        &&& event_text(event).len() > 0
        &&& self.is_new(event_key(event), event_id(event))
    }

    /// The adapter after the message of `event` was accepted.
    pub open spec fn after_message(self, event: JsonView) -> AdapterView {
        AdapterView {
            last_msg_ids: self.last_msg_ids.insert(event_key(event), event_id(event)),
            ..self
        }
    }

    /// The adapter after `event`.
    pub open spec fn after_event(self, event: JsonView) -> AdapterView {
        if self.accepts(event) {
            self.after_message(event)
        } else {
            self
        }
    }

    /// The message that `event` delivers at `timestamp`.
    pub open spec fn delivery(self, event: JsonView, timestamp: Timestamp) -> Option<MessageView> {
        if self.accepts(event) {
            Some(event_message(event, timestamp))
        } else {
            None
        }
    }
}

/// What an optional message is.
pub open spec fn message_option(message: Option<ChannelMessage>) -> Option<MessageView> {
    match message {
        Some(m) => Some(m@),
        None => None,
    }
}

/// Whether `all` holds `text`.
fn holds_text(all: &Vec<String>, text: &str) -> (r: bool)
    ensures
        r == string_views(all@).contains(text@),
{
    let mut i: usize = 0;
    while i < all.len()
        invariant
            i <= all@.len(),
            forall|j: int| 0 <= j < i ==> string_views(all@)[j] != text@,
        decreases all@.len() - i,
    {
        if same_text(all[i].as_str(), text) {
            assert(string_views(all@)[i as int] == text@);
            return true;
        }
        i = i + 1;
    }
    false
}

/// The words of `text`, each on its own.
fn owned_words(text: &str) -> (r: Vec<String>)
    ensures
        string_views(r@) == words(text@),
{
    let parts = split_words(text);
    let mut out: Vec<String> = Vec::new();
    let mut i: usize = 0;
    while i < parts.len()
        invariant
            i <= parts@.len(),
            string_views(out@) == texts(parts@).take(i as int),
        decreases parts@.len() - i,
    {
        let ghost before = out@;
        out.push(parts[i].to_owned());
        assert(string_views(out@) =~= string_views(before).push(parts@[i as int]@));
        i = i + 1;
    }
    assert(string_views(out@) =~= texts(parts@));
    out
}

/// What a text says.
pub fn parse_content(text: &str) -> (r: ChannelContent)
    ensures
        r@ == content_of(text@),
{
    proof {
        reveal_strlit("/");
        if text@.len() > 0 {
            assert(text@.take(1) =~= seq![text@[0]]);
            assert("/"@ =~= seq!['/']);
            assert(text@.take(1)[0] == text@[0]);
            assert("/"@[0] == '/');
        }
    }
    if has_prefix(text, "/") {
        match split_first(text, ' ') {
            Some((head, tail)) => ChannelContent::Command {
                name: trim_start_char(head, '/').to_owned(),
                args: owned_words(tail),
            },
            None => {
                let args: Vec<String> = Vec::new();
                assert(string_views(args@) =~= Seq::empty());
                ChannelContent::Command { name: trim_start_char(text, '/').to_owned(), args }
            },
        }
    } else {
        ChannelContent::Text(text.to_owned())
    }
}

/// The name under which a conversation is known.
pub fn conversation_name(team: &str, topic: &str) -> (r: String)
    ensures
        r@ == conversation_key(team@, topic@),
{
    joined(team, ":").concat(topic)
}

/// The text of the message of an event; empty where it is no text message.
fn text_in<'a>(event: &'a Json) -> (r: &'a str)
    ensures
        r@ == event_text(event@),
{
    let content = event.at("msg").at("content");
    if same_text(content.at("type").str_or(""), "text") {
        content.at("text").at("body").str_or("")
    } else {
        ""
    }
}

/// The ID of the message of an event.
fn id_in(event: &Json) -> (r: i64)
    ensures
        r == event_id(event@),
{
    match event.at("msg").at("id").as_i64() {
        Some(id) => id,
        None => 0,
    }
}

/// The message that an event carries.
fn message_in(event: &Json, timestamp: Timestamp) -> (r: ChannelMessage)
    ensures
        r@ == event_message(event@, timestamp),
{
    let msg = event.at("msg");
    let channel = msg.at("channel");
    let team = channel.at("name").str_or("");
    let topic = channel.at("topic_name").str_or("general");
    let sender = msg.at("sender");
    let device = sender.at("device_name").str_or("");
    let mut metadata: Vec<(String, Json)> = Vec::new();
    metadata.push(("team_name".to_owned(), Json::text(team)));
    metadata.push(("topic_name".to_owned(), Json::text(topic)));
    metadata.push(("sender_device".to_owned(), Json::text(device)));
    assert(field_views(metadata@) =~= event_message(event@, timestamp).metadata);
    ChannelMessage {
        channel: ChannelType::Custom("keybase".to_owned()),
        platform_message_id: i64_text(id_in(event)),
        sender: ChannelUser {
            platform_id: conversation_name(team, topic),
            display_name: sender.at("username").str_or("").to_owned(),
            openfang_user: None,
        },
        content: parse_content(text_in(event)),
        target_agent: None,
        timestamp,
        is_group: same_text(channel.at("members_type").str_or(""), "team"),
        thread_id: None,
        metadata,
    }
}

impl KeybaseAdapter {
    /// Create a new Keybase adapter.
    ///
    /// `username` is left out as a sender, `paperkey` is kept for a login and wiped when it
    /// is dropped, and `allowed_teams` are the teams to listen on (empty: all).
    pub fn new(username: String, paperkey: String, allowed_teams: Vec<String>) -> (r: Self)
        ensures
            r@.username == username@,
            r@.paperkey == paperkey@,
            r@.allowed_teams == string_views(allowed_teams@),
            r@.last_msg_ids == Map::<Seq<char>, i64>::empty(),
            r.username == username,
            r.allowed_teams == allowed_teams,
    {
        KeybaseAdapter {
            username,
            paperkey: seal_paper_key(paperkey),
            allowed_teams,
            last_msg_ids: StringHashMap::new(),
        }
    }

    /// The name of the channel.
    pub fn name(&self) -> (r: &str)
        ensures
            r@ == "keybase"@,
    {
        "keybase"
    }

    /// The kind of the channel.
    pub fn channel_type(&self) -> (r: ChannelType)
        ensures
            r@ == ChannelTypeView::Custom("keybase"@),
    {
        ChannelType::Custom("keybase".to_owned())
    }

    /// Check if a team name is in the allowed list. An empty list allows every team.
    pub fn is_allowed_team(&self, team_name: &str) -> (r: bool)
        ensures
            r == self@.allows_team(team_name@),
    {
        self.allowed_teams.is_empty() || holds_text(&self.allowed_teams, team_name)
    }

    /// Takes in an event of the listening subprocess: whether it carries a message to deliver.
    fn accept(&mut self, event: &Json) -> (r: bool)
        ensures
            r == old(self)@.accepts(event@),
            final(self)@ == old(self)@.after_event(event@),
    {
        // Only chat messages.
        let is_chat = match event.at("type").as_str() {
            Some(kind) => same_text(kind, "chat"),
            None => false,
        };
        if !is_chat {
            return false;
        }
        let msg = event.at("msg");
        let channel = msg.at("channel");
        let is_group = same_text(channel.at("members_type").str_or(""), "team");
        let team = channel.at("name").str_or("");
        let topic = channel.at("topic_name").str_or("general");
        if is_group && !self.is_allowed_team(team) {
            return false;
        }
        // No own messages.
        let sender = msg.at("sender").at("username").str_or("");
        if same_text(sender, self.username.as_str()) {
            return false;
        }
        if text_in(event).is_empty() {
            return false;
        }
        let id: i64 = id_in(event);
        let key = conversation_name(team, topic);
        // Nothing that came before.
        if let Some(last) = self.last_msg_ids.get(key.as_str()) {
            if id <= *last {
                return false;
            }
        }
        self.last_msg_ids.insert(key, id);
        true
    }

    /// Takes in an event of the listening subprocess at `timestamp`: the message that it
    /// delivers, or nothing where it carries none to deliver.
    pub fn handle_event(&mut self, event: &Json, timestamp: Timestamp) -> (r: Option<
        ChannelMessage,
    >)
        ensures
            message_option(r) == old(self)@.delivery(event@, timestamp),
            final(self)@ == old(self)@.after_event(event@),
    {
        if self.accept(event) {
            Some(message_in(event, timestamp))
        } else {
            None
        }
    }
}

/// What happens while the adapter listens: it is told to shut down, the subprocess prints a
/// line, its output ends or cannot be read, or a message finds nobody to take it.
#[derive(Debug)]
pub enum ListenEvent {
    Shutdown,
    Line(String),
    EndOfOutput,
    ReadError,
    Undelivered,
}

/// What the listener does next: deliver a message and go on, go on, or stop the subprocess.
#[derive(Debug)]
pub enum ListenAction {
    Deliver(ChannelMessage),
    Wait,
    Stop,
}

/// What an action is.
pub enum ListenActionView {
    Deliver(MessageView),
    Wait,
    Stop,
}

impl View for ListenAction {
    type V = ListenActionView;

    open spec fn view(&self) -> ListenActionView {
        match self {
            ListenAction::Deliver(message) => ListenActionView::Deliver(message@),
            ListenAction::Wait => ListenActionView::Wait,
            ListenAction::Stop => ListenActionView::Stop,
        }
    }
}

impl AdapterView {
    /// What follows `event` at `timestamp`. A line that is no JSON document is passed over.
    pub open spec fn reaction(self, event: ListenEvent, timestamp: Timestamp) -> ListenActionView {
        match event {
            ListenEvent::Line(line) => match parsed_json(encode_utf8(line@)) {
                Ok(document) => match self.delivery(document, timestamp) {
                    Some(message) => ListenActionView::Deliver(message),
                    None => ListenActionView::Wait,
                },
                Err(_) => ListenActionView::Wait,
            },
            _ => ListenActionView::Stop,
        }
    }

    /// The adapter after `event`.
    pub open spec fn after_listening(self, event: ListenEvent) -> AdapterView {
        match event {
            ListenEvent::Line(line) => match parsed_json(encode_utf8(line@)) {
                Ok(document) => self.after_event(document),
                Err(_) => self,
            },
            _ => self,
        }
    }
}

/// `chrono::Utc::now` tells the present moment. Of it only this is promised: it does not lie
/// before 1970, and less than a second stands after the whole seconds. It needs a system clock
/// that does not stand before 1970.
#[verifier::external_body]
fn utc_now() -> (r: Timestamp)
    ensures
        r.secs >= 0,
        r.nanos < 1_000_000_000,
{
    let now = chrono::Utc::now();
    Timestamp { secs: now.timestamp(), nanos: now.timestamp_subsec_nanos() }
}

impl KeybaseAdapter {
    /// Takes in what happened while listening; a message that is delivered carries the
    /// present moment. Only for such a message the clock is read.
    pub fn listen(&mut self, event: ListenEvent) -> (r: ListenAction)
        ensures
            exists|timestamp: Timestamp|
                {
                    &&& timestamp.secs >= 0
                    &&& timestamp.nanos < 1_000_000_000
                    &&& r@ == #[trigger] old(self)@.reaction(event, timestamp)
                },
            final(self)@ == old(self)@.after_listening(event),
    {
        let ghost before = self@;
        let ghost dawn = Timestamp { secs: 0, nanos: 0 };
        match event {
            ListenEvent::Line(line) => match decode_json(line.as_str().as_bytes()) {
                Ok(document) => if self.accept(&document) {
                    let timestamp = utc_now();
                    let message = message_in(&document, timestamp);
                    assert(before.reaction(event, timestamp) == ListenActionView::Deliver(
                        message@,
                    ));
                    ListenAction::Deliver(message)
                } else {
                    assert(before.reaction(event, dawn) == ListenActionView::Wait);
                    ListenAction::Wait
                },
                Err(_) => {
                    assert(before.reaction(event, dawn) == ListenActionView::Wait);
                    ListenAction::Wait
                },
            },
            _ => {
                assert(before.reaction(event, dawn) == ListenActionView::Stop);
                ListenAction::Stop
            },
        }
    }

    /// Takes in what happened at `timestamp` while listening.
    pub fn listen_at(&mut self, event: ListenEvent, timestamp: Timestamp) -> (r: ListenAction)
        ensures
            r@ == old(self)@.reaction(event, timestamp),
            final(self)@ == old(self)@.after_listening(event),
    {
        match event {
            ListenEvent::Line(line) => match decode_json(line.as_str().as_bytes()) {
                Ok(document) => match self.handle_event(&document, timestamp) {
                    Some(message) => ListenAction::Deliver(message),
                    None => ListenAction::Wait,
                },
                Err(_) => ListenAction::Wait,
            },
            _ => ListenAction::Stop,
        }
    }
}

} // verus!
