//! Messages as every channel hands them over.
use vstd::prelude::*;

use crate::json::{field_views, Json, JsonView};
use crate::text::text_option;

verus! {

/// The kind of a channel, by its name.
#[derive(Debug, PartialEq, Eq)]
pub enum ChannelType {
    Custom(String),
}

/// What the kind of a channel is.
pub enum ChannelTypeView {
    Custom(Seq<char>),
}

/// What a message says: a text, or a command with its arguments.
#[derive(Debug, PartialEq, Eq)]
pub enum ChannelContent {
    Text(String),
    Command { name: String, args: Vec<String> },
}

/// What the content of a message is.
pub enum ContentView {
    Text(Seq<char>),
    Command { name: Seq<char>, args: Seq<Seq<char>> },
}

/// Who sent a message, and where an answer goes.
#[derive(Debug, PartialEq, Eq)]
pub struct ChannelUser {
    pub platform_id: String,
    pub display_name: String,
    pub openfang_user: Option<String>,
}

/// What a channel user is.
pub struct UserView {
    pub platform_id: Seq<char>,
    pub display_name: Seq<char>,
    pub openfang_user: Option<Seq<char>>,
}

/// A moment: whole seconds since the beginning of 1970 (UTC), and the nanoseconds after them.
#[derive(Clone, Copy, Debug, PartialEq, Eq)]
pub struct Timestamp {
    pub secs: i64,
    pub nanos: u32,
}

/// A message from a channel. No two entries of `metadata` have the same name.
#[derive(Debug, PartialEq)]
pub struct ChannelMessage {
    pub channel: ChannelType,
    pub platform_message_id: String,
    pub sender: ChannelUser,
    pub content: ChannelContent,
    pub target_agent: Option<String>,
    pub timestamp: Timestamp,
    pub is_group: bool,
    pub thread_id: Option<String>,
    pub metadata: Vec<(String, Json)>,
}

/// What a message is.
pub struct MessageView {
    pub channel: ChannelTypeView,
    pub platform_message_id: Seq<char>,
    pub sender: UserView,
    pub content: ContentView,
    pub target_agent: Option<Seq<char>>,
    pub timestamp: Timestamp,
    pub is_group: bool,
    pub thread_id: Option<Seq<char>>,
    pub metadata: Seq<(Seq<char>, JsonView)>,
}

/// What the texts in `all` hold.
pub open spec fn string_views(all: Seq<String>) -> Seq<Seq<char>> {
    Seq::new(all.len(), |i: int| all[i]@)
}

impl View for ChannelType {
    type V = ChannelTypeView;

    open spec fn view(&self) -> ChannelTypeView {
        match self {
            ChannelType::Custom(name) => ChannelTypeView::Custom(name@),
        }
    }
}

impl Clone for ChannelType {
    fn clone(&self) -> (r: Self)
        ensures
            r@ == self@,
    {
        match self {
            ChannelType::Custom(name) => ChannelType::Custom(name.clone()),
        }
    }
}

impl View for ChannelContent {
    type V = ContentView;

    open spec fn view(&self) -> ContentView {
        match self {
            ChannelContent::Text(text) => ContentView::Text(text@),
            ChannelContent::Command { name, args } => ContentView::Command {
                name: name@,
                args: string_views(args@),
            },
        }
    }
}

impl View for ChannelUser {
    type V = UserView;

    open spec fn view(&self) -> UserView {
        UserView {
            platform_id: self.platform_id@,
            display_name: self.display_name@,
            openfang_user: text_option(self.openfang_user),
        }
    }
}

impl View for ChannelMessage {
    type V = MessageView;

    open spec fn view(&self) -> MessageView {
        MessageView {
            channel: self.channel@,
            platform_message_id: self.platform_message_id@,
            sender: self.sender@,
            content: self.content@,
            target_agent: text_option(self.target_agent),
            timestamp: self.timestamp,
            is_group: self.is_group,
            thread_id: text_option(self.thread_id),
            metadata: field_views(self.metadata@),
        }
    }
}

} // verus!
