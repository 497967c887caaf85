//! Reading chats and messages out of JSON documents.
//!
//! A field that is missing and a field that is `null` are the same thing. A
//! field that an entity needs must be there with the right kind of value; an
//! optional field may be absent, but if it is there it must have the right
//! kind of value too. Fields that an entity does not know are passed over.

use serde_json::Value;
use vstd::prelude::*;

use crate::json::{integers, json_tree, member, JsonTree};
use crate::models::{chat_view, Chat, ChatType, ChatView, Message, MessageView, Timestamp};

verus! {

/// The instant that `text` names, if it names one: what chrono makes of it
/// when it parses a date and time with an offset.
pub uninterp spec fn instant_of(text: Seq<char>) -> Option<Timestamp>;

/// `str::parse` for `chrono::DateTime<FixedOffset>`, with the instant taken
/// out by `timestamp` and `timestamp_subsec_nanos`. Trusted: the result
/// depends on the text alone.
#[verifier::external_body]
fn parse_instant(text: &str) -> (instant: Option<Timestamp>)
    ensures
        instant == instant_of(text@),
{
    match text.parse::<chrono::DateTime<chrono::FixedOffset>>() {
        Ok(t) => Some(Timestamp { secs: t.timestamp(), nanos: t.timestamp_subsec_nanos() }),
        Err(_) => None,
    }
}

/// Whether two texts hold the same characters.
pub fn same_text(a: &str, b: &str) -> (same: bool)
    ensures
        same == (a@ == b@),
{
    a.to_owned() == b.to_owned()
}

/// The kind of chat that `name` stands for: the store's label of the kind
/// or the kind's own name.
pub open spec fn chat_type_named(name: Seq<char>) -> Option<ChatType> {
    if name == "single"@ || name == "Single"@ {
        Some(ChatType::Single)
    } else if name == "group"@ || name == "Group"@ {
        Some(ChatType::Group)
    } else if name == "private_channel"@ || name == "PrivateChannel"@ {
        Some(ChatType::PrivateChannel)
    } else if name == "public_channel"@ || name == "PublicChannel"@ {
        Some(ChatType::PublicChannel)
    } else {
        None
    }
}

/// The integer under `key`.
pub open spec fn integer_at(tree: JsonTree, key: Seq<char>) -> Option<i64> {
    match tree.present(key) {
        Some(m) => m.integer(),
        None => None,
    }
}

/// The text under `key`.
pub open spec fn text_at(tree: JsonTree, key: Seq<char>) -> Option<Seq<char>> {
    match tree.present(key) {
        Some(m) => m.text(),
        None => None,
    }
}

/// The text under `key`, which may be absent. `None` where something other
/// than a text is there.
pub open spec fn optional_text_at(tree: JsonTree, key: Seq<char>) -> Option<Option<Seq<char>>> {
    match tree.present(key) {
        Some(m) => match m.text() {
            Some(s) => Some(Some(s)),
            None => None,
        },
        None => Some(None),
    }
}

/// The integers of the array under `key`.
pub open spec fn integers_at(tree: JsonTree, key: Seq<char>) -> Option<Seq<i64>> {
    match tree.present(key) {
        Some(m) => m.integers(),
        None => None,
    }
}

/// The instant that the text under `key` names.
pub open spec fn instant_at(tree: JsonTree, key: Seq<char>) -> Option<Timestamp> {
    match text_at(tree, key) {
        Some(s) => instant_of(s),
        None => None,
    }
}

/// The instant under `key`, which may be absent. `None` where something
/// other than the name of an instant is there.
pub open spec fn optional_instant_at(tree: JsonTree, key: Seq<char>) -> Option<Option<Timestamp>> {
    match tree.present(key) {
        Some(m) => match m.text() {
            Some(s) => match instant_of(s) {
                Some(t) => Some(Some(t)),
                None => None,
            },
            None => None,
        },
        None => Some(None),
    }
}

/// The kind of chat under `key`.
pub open spec fn chat_type_at(tree: JsonTree, key: Seq<char>) -> Option<ChatType> {
    match text_at(tree, key) {
        Some(s) => chat_type_named(s),
        None => None,
    }
}

/// The chat that `tree` describes, if it describes one.
pub open spec fn chat_of(tree: JsonTree) -> Option<ChatView> {
    if integer_at(tree, "id"@) is Some && integer_at(tree, "ws_id"@) is Some && optional_text_at(
        tree,
        "name"@,
    ) is Some && chat_type_at(tree, "type"@) is Some && integers_at(tree, "members"@) is Some
        && instant_at(tree, "created_at"@) is Some && optional_instant_at(tree, "deleted_at"@)
        is Some {
        Some(
            ChatView {
                id: integer_at(tree, "id"@).unwrap(),
                ws_id: integer_at(tree, "ws_id"@).unwrap(),
                name: optional_text_at(tree, "name"@).unwrap(),
                chat_type: chat_type_at(tree, "type"@).unwrap(),
                members: integers_at(tree, "members"@).unwrap(),
                created_at: instant_at(tree, "created_at"@).unwrap(),
                deleted_at: optional_instant_at(tree, "deleted_at"@).unwrap(),
            },
        )
    } else {
        None
    }
}

/// The chat under `key`, which may be absent. `None` where something other
/// than a chat is there.
pub open spec fn optional_chat_at(tree: JsonTree, key: Seq<char>) -> Option<Option<ChatView>> {
    match tree.present(key) {
        Some(m) => match chat_of(m) {
            Some(chat) => Some(Some(chat)),
            None => None,
        },
        None => Some(None),
    }
}

/// The message that `tree` describes, if it describes one.
pub open spec fn message_of(tree: JsonTree) -> Option<MessageView> {
    if integer_at(tree, "id"@) is Some && integer_at(tree, "chat_id"@) is Some && integer_at(
        tree,
        "sender_id"@,
    ) is Some && text_at(tree, "content"@) is Some && instant_at(tree, "created_at"@) is Some {
        Some(
            MessageView {
                id: integer_at(tree, "id"@).unwrap(),
                chat_id: integer_at(tree, "chat_id"@).unwrap(),
                sender_id: integer_at(tree, "sender_id"@).unwrap(),
                content: text_at(tree, "content"@).unwrap(),
                created_at: instant_at(tree, "created_at"@).unwrap(),
            },
        )
    } else {
        None
    }
}

/// The message under `key`.
pub open spec fn message_at(tree: JsonTree, key: Seq<char>) -> Option<MessageView> {
    match tree.present(key) {
        Some(m) => message_of(m),
        None => None,
    }
}

/// Reads the kind of chat that `name` stands for.
pub fn read_chat_type(name: &str) -> (kind: Option<ChatType>)
    ensures
        kind == chat_type_named(name@),
{
    if same_text(name, "single") || same_text(name, "Single") {
        Some(ChatType::Single)
    } else if same_text(name, "group") || same_text(name, "Group") {
        Some(ChatType::Group)
    } else if same_text(name, "private_channel") || same_text(name, "PrivateChannel") {
        Some(ChatType::PrivateChannel)
    } else if same_text(name, "public_channel") || same_text(name, "PublicChannel") {
        Some(ChatType::PublicChannel)
    } else {
        None
    }
}

/// Reads the integer under `key`.
pub fn read_integer(value: &Value, key: &str) -> (number: Option<i64>)
    ensures
        number == integer_at(json_tree(*value), key@),
{
    match member(value, key) {
        Some(m) => m.as_i64(),
        None => None,
    }
}

/// Reads the text under `key`.
pub fn read_text(value: &Value, key: &str) -> (text: Option<String>)
    ensures
        match text {
            Some(s) => text_at(json_tree(*value), key@) == Some(s@),
            None => text_at(json_tree(*value), key@) is None,
        },
{
    match member(value, key) {
        Some(m) => match m.as_str() {
            Some(s) => Some(s.to_owned()),
            None => None,
        },
        None => None,
    }
}

/// Reads the text under `key`, which may be absent: `Err` where something
/// other than a text is there.
pub fn read_optional_text(value: &Value, key: &str) -> (text: Result<Option<String>, ()>)
    ensures
        match text {
            Ok(Some(s)) => optional_text_at(json_tree(*value), key@) == Some(Some(s@)),
            Ok(None) => optional_text_at(json_tree(*value), key@) == Some(None::<Seq<char>>),
            Err(_) => optional_text_at(json_tree(*value), key@) is None,
        },
{
    match member(value, key) {
        Some(m) => match m.as_str() {
            Some(s) => Ok(Some(s.to_owned())),
            None => Err(()),
        },
        None => Ok(None),
    }
}

/// Reads the integers of the array under `key`.
pub fn read_integers(value: &Value, key: &str) -> (numbers: Option<Vec<i64>>)
    ensures
        match numbers {
            Some(list) => integers_at(json_tree(*value), key@) == Some(list@),
            None => integers_at(json_tree(*value), key@) is None,
        },
{
    match member(value, key) {
        Some(m) => integers(m),
        None => None,
    }
}

/// Reads the instant that the text under `key` names.
pub fn read_instant(value: &Value, key: &str) -> (instant: Option<Timestamp>)
    ensures
        instant == instant_at(json_tree(*value), key@),
{
    match member(value, key) {
        Some(m) => match m.as_str() {
            Some(s) => parse_instant(s),
            None => None,
        },
        None => None,
    }
}

/// Reads the instant under `key`, which may be absent: `Err` where
/// something other than the name of an instant is there.
pub fn read_optional_instant(value: &Value, key: &str) -> (instant: Result<Option<Timestamp>, ()>)
    ensures
        match instant {
            Ok(found) => optional_instant_at(json_tree(*value), key@) == Some(found),
            Err(_) => optional_instant_at(json_tree(*value), key@) is None,
        },
{
    match member(value, key) {
        Some(m) => match m.as_str() {
            Some(s) => match parse_instant(s) {
                Some(t) => Ok(Some(t)),
                None => Err(()),
            },
            None => Err(()),
        },
        None => Ok(None),
    }
}

/// Reads the kind of chat under `key`.
pub fn read_chat_type_at(value: &Value, key: &str) -> (kind: Option<ChatType>)
    ensures
        kind == chat_type_at(json_tree(*value), key@),
{
    match member(value, key) {
        Some(m) => match m.as_str() {
            Some(s) => read_chat_type(s),
            None => None,
        },
        None => None,
    }
}

/// Reads the chat that `value` describes.
pub fn read_chat(value: &Value) -> (chat: Option<Chat>)
    ensures
        chat_view(chat) == chat_of(json_tree(*value)),
{
    let id = read_integer(value, "id")?;
    let ws_id = read_integer(value, "ws_id")?;
    let name = match read_optional_text(value, "name") {
        Ok(name) => name,
        Err(_) => {
            return None;
        },
    };
    let chat_type = read_chat_type_at(value, "type")?;
    let members = read_integers(value, "members")?;
    let created_at = read_instant(value, "created_at")?;
    let deleted_at = match read_optional_instant(value, "deleted_at") {
        Ok(instant) => instant,
        Err(_) => {
            return None;
        },
    };
    Some(Chat { id, ws_id, name, chat_type, members, created_at, deleted_at })
}

/// Reads the chat under `key`, which may be absent: `Err` where something
/// other than a chat is there.
pub fn read_optional_chat(value: &Value, key: &str) -> (chat: Result<Option<Chat>, ()>)
    ensures
        match chat {
            Ok(found) => optional_chat_at(json_tree(*value), key@) == Some(chat_view(found)),
            Err(_) => optional_chat_at(json_tree(*value), key@) is None,
        },
{
    match member(value, key) {
        Some(m) => match read_chat(m) {
            Some(chat) => Ok(Some(chat)),
            None => Err(()),
        },
        None => Ok(None),
    }
}

/// Reads the message that `value` describes.
pub fn read_message(value: &Value) -> (message: Option<Message>)
    ensures
        match message {
            Some(m) => message_of(json_tree(*value)) == Some(m@),
            None => message_of(json_tree(*value)) is None,
        },
{
    let id = read_integer(value, "id")?;
    let chat_id = read_integer(value, "chat_id")?;
    let sender_id = read_integer(value, "sender_id")?;
    let content = read_text(value, "content")?;
    let created_at = read_instant(value, "created_at")?;
    Some(Message { id, chat_id, sender_id, content, created_at })
}

/// Reads the message under `key`.
pub fn read_message_at(value: &Value, key: &str) -> (message: Option<Message>)
    ensures
        match message {
            Some(m) => message_at(json_tree(*value), key@) == Some(m@),
            None => message_at(json_tree(*value), key@) is None,
        },
{
    match member(value, key) {
        Some(m) => read_message(m),
        None => None,
    }
}

} // verus!
