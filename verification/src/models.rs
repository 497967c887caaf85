//! Chats, messages and the requests that create and change chats.

use vstd::prelude::*;
use vstd::slice::slice_to_vec;
use vstd::string::*;

use crate::error::AppError;
use crate::text::{decimal, decimal_digits};

verus! {

/// The four kinds of chat.
#[derive(Debug, Clone, Copy, PartialEq, Eq, Structural)]
pub enum ChatType {
    Single,
    Group,
    PrivateChannel,
    PublicChannel,
}

/// An instant: whole seconds since the Unix epoch and the nanoseconds past
/// that second.
#[derive(Debug, Clone, Copy, PartialEq, Eq, Structural)]
pub struct Timestamp {
    pub secs: i64,
    pub nanos: u32,
}

/// A snapshot of a chat.
#[derive(Debug, Clone, PartialEq, Eq)]
pub struct Chat {
    pub id: i64,
    pub ws_id: i64,
    pub name: Option<String>,
    pub chat_type: ChatType,
    pub members: Vec<i64>,
    pub created_at: Timestamp,
    pub deleted_at: Option<Timestamp>,
}

/// What a [`Chat`] holds, as mathematical values.
pub struct ChatView {
    pub id: i64,
    pub ws_id: i64,
    pub name: Option<Seq<char>>,
    pub chat_type: ChatType,
    pub members: Seq<i64>,
    pub created_at: Timestamp,
    pub deleted_at: Option<Timestamp>,
}

/// The characters of an optional string.
pub open spec fn text_view(text: Option<String>) -> Option<Seq<char>> {
    match text {
        Some(s) => Some(s@),
        None => None,
    }
}

impl View for Chat {
    type V = ChatView;

    open spec fn view(&self) -> ChatView {
        ChatView {
            id: self.id,
            ws_id: self.ws_id,
            name: text_view(self.name),
            chat_type: self.chat_type,
            members: self.members@,
            created_at: self.created_at,
            deleted_at: self.deleted_at,
        }
    }
}

/// What an optional chat holds.
pub open spec fn chat_view(chat: Option<Chat>) -> Option<ChatView> {
    match chat {
        Some(c) => Some(c@),
        None => None,
    }
}

/// What a borrowed optional chat holds.
pub open spec fn chat_ref_view(chat: Option<&Chat>) -> Option<ChatView> {
    match chat {
        Some(c) => Some(c@),
        None => None,
    }
}

/// A message posted to a chat.
#[derive(Debug, Clone, PartialEq, Eq)]
pub struct Message {
    pub id: i64,
    pub chat_id: i64,
    pub sender_id: i64,
    pub content: String,
    pub created_at: Timestamp,
}

/// What a [`Message`] holds, as mathematical values.
pub struct MessageView {
    pub id: i64,
    pub chat_id: i64,
    pub sender_id: i64,
    pub content: Seq<char>,
    pub created_at: Timestamp,
}

impl View for Message {
    type V = MessageView;

    open spec fn view(&self) -> MessageView {
        MessageView {
            id: self.id,
            chat_id: self.chat_id,
            sender_id: self.sender_id,
            content: self.content@,
            created_at: self.created_at,
        }
    }
}

/// The fewest members a chat may have.
pub const MIN_MEMBERS: usize = 2;

/// The most members a chat may have without a name.
pub const MAX_UNNAMED_MEMBERS: usize = 8;

/// A request to create a chat.
#[derive(Debug, Clone, PartialEq, Eq)]
pub struct CreateChat {
    pub name: Option<String>,
    pub members: Vec<i64>,
    pub public: bool,
}

/// Why a request to create a chat is refused.
#[derive(Debug, Clone, Copy, PartialEq, Eq, Structural)]
pub enum CreateChatFault {
    TooFewMembers,
    NameMissing,
    UnknownMembers,
}

impl CreateChatFault {
    /// The words that report the fault.
    pub open spec fn text(self) -> Seq<char> {
        match self {
            CreateChatFault::TooFewMembers => "Chat must be at least 2 members"@,
            CreateChatFault::NameMissing => "Group chat with more than 8 members must have a name"@,
            CreateChatFault::UnknownMembers => "Some members do not exist"@,
        }
    }

    /// The error that reports the fault.
    pub fn to_error(self) -> (e: AppError)
        ensures
            e is CreateChatError,
            e.detail() == self.text(),
    {
        match self {
            CreateChatFault::TooFewMembers => AppError::CreateChatError(
                "Chat must be at least 2 members".to_owned(),
            ),
            CreateChatFault::NameMissing => AppError::CreateChatError(
                "Group chat with more than 8 members must have a name".to_owned(),
            ),
            CreateChatFault::UnknownMembers => AppError::CreateChatError(
                "Some members do not exist".to_owned(),
            ),
        }
    }
}

/// Whether `e` reports `fault`.
pub open spec fn reports(e: AppError, fault: CreateChatFault) -> bool {
    e is CreateChatError && e.detail() == fault.text()
}

impl CreateChat {
    /// A request for a chat of `members`; an empty `name` stands for none.
    pub fn new(name: &str, members: &[i64], public: bool) -> (input: Self)
        ensures
            text_view(input.name) == (if name@.len() == 0 {
                None
            } else {
                Some(name@)
            }),
            input.members@ == members@,
            input.public == public,
    {
        let name = if name.is_empty() {
            None
        } else {
            Some(name.to_owned())
        };
        CreateChat { name, members: slice_to_vec(members), public }
    }

    /// The fault that the request shows by itself, if any: fewer than two
    /// members, or more than eight without a name.
    pub open spec fn fault(self) -> Option<CreateChatFault> {
        if self.members@.len() < MIN_MEMBERS {
            Some(CreateChatFault::TooFewMembers)
        } else if self.members@.len() > MAX_UNNAMED_MEMBERS && self.name is None {
            Some(CreateChatFault::NameMissing)
        } else {
            None
        }
    }

    /// The kind of chat that the request asks for: without a name a chat of
    /// two is single and any other a group; with a name it is a channel,
    /// public or private as the request says.
    pub open spec fn kind(self) -> ChatType {
        if self.name is None {
            if self.members@.len() == 2 {
                ChatType::Single
            } else {
                ChatType::Group
            }
        } else if self.public {
            ChatType::PublicChannel
        } else {
            ChatType::PrivateChannel
        }
    }

    /// What becomes of the request when `found` of its members are known
    /// users: the kind of chat to create, or the first fault.
    pub open spec fn outcome(self, found: nat) -> Result<ChatType, CreateChatFault> {
        match self.fault() {
            Some(fault) => Err(fault),
            None => if found != self.members@.len() {
                Err(CreateChatFault::UnknownMembers)
            } else {
                Ok(self.kind())
            },
        }
    }

    /// Checks the request before its members are looked up.
    pub fn validate(&self) -> (checked: Result<(), AppError>)
        ensures
            match checked {
                Ok(_) => self.fault() is None,
                Err(e) => self.fault() is Some && reports(e, self.fault().unwrap()),
            },
    {
        let len = self.members.len();
        if len < MIN_MEMBERS {
            return Err(CreateChatFault::TooFewMembers.to_error());
        }
        if len > MAX_UNNAMED_MEMBERS && self.name.is_none() {
            return Err(CreateChatFault::NameMissing.to_error());
        }
        Ok(())
    }

    /// The kind of chat that the request asks for.
    pub fn chat_type(&self) -> (kind: ChatType)
        ensures
            kind == self.kind(),
    {
        match &self.name {
            None => if self.members.len() == 2 {
                ChatType::Single
            } else {
                ChatType::Group
            },
            Some(_) => if self.public {
                ChatType::PublicChannel
            } else {
                ChatType::PrivateChannel
            },
        }
    }

    /// Decides what to create once the members have been looked up, `found`
    /// of them being known users: the kind of the chat, or the error that
    /// reports why none is created.
    pub fn resolve(&self, found: usize) -> (plan: Result<ChatType, AppError>)
        ensures
            match plan {
                Ok(kind) => self.outcome(found as nat) == Ok::<ChatType, CreateChatFault>(kind),
                Err(e) => self.outcome(found as nat) is Err && reports(
                    e,
                    self.outcome(found as nat)->Err_0,
                ),
            },
    {
        match self.validate() {
            Err(e) => Err(e),
            Ok(_) => {
                if found != self.members.len() {
                    Err(CreateChatFault::UnknownMembers.to_error())
                } else {
                    Ok(self.chat_type())
                }
            },
        }
    }
}

/// The words that say that no chat has the identity `id`.
pub open spec fn not_found_text(id: u64) -> Seq<char> {
    "Chat with id "@ + decimal_digits(id as nat) + " not found"@
}

/// The error that says that no chat has the identity `id`.
pub fn chat_not_found(id: u64) -> (e: AppError)
    ensures
        e is NotFound,
        e.detail() == not_found_text(id),
{
    let mut text = "Chat with id ".to_owned();
    text.append(decimal(id).as_str());
    text.append(" not found");
    AppError::NotFound(text)
}

/// Hands on the chat that a lookup by `id` found, or reports that there is
/// none.
pub fn require_chat(id: u64, found: Option<Chat>) -> (chat: Result<Chat, AppError>)
    ensures
        match chat {
            Ok(c) => found == Some(c),
            Err(e) => found is None && e is NotFound && e.detail() == not_found_text(id),
        },
{
    match found {
        Some(chat) => Ok(chat),
        None => Err(chat_not_found(id)),
    }
}

/// The words that say that the chat `id` could not be removed.
pub open spec fn not_deleted_text(id: u64) -> Seq<char> {
    "Failed to delete chat with id "@ + decimal_digits(id as nat)
}

/// The answer to a request to remove the chat `id`, given whether the store
/// removed it.
pub fn deletion_reply(id: u64, deleted: bool) -> (reply: Result<&'static str, AppError>)
    ensures
        match reply {
            Ok(text) => deleted && text@ == "Chat deleted successfully"@,
            Err(e) => !deleted && e is AnyError && e.detail() == not_deleted_text(id),
        },
{
    if deleted {
        Ok("Chat deleted successfully")
    } else {
        let mut text = "Failed to delete chat with id ".to_owned();
        text.append(decimal(id).as_str());
        Err(AppError::AnyError(text))
    }
}

/// A request to change a chat: each field that is present replaces the
/// chat's own.
#[derive(Debug, Clone, PartialEq, Eq)]
pub struct UpdateChat {
    pub name: Option<String>,
    pub members: Option<Vec<i64>>,
}

/// The name and the members that a chat has after a change.
#[derive(Debug, Clone, PartialEq, Eq)]
pub struct ChatPatch {
    pub name: Option<String>,
    pub members: Vec<i64>,
}

/// What a [`ChatPatch`] holds, as mathematical values.
pub struct ChatPatchView {
    pub name: Option<Seq<char>>,
    pub members: Seq<i64>,
}

impl View for ChatPatch {
    type V = ChatPatchView;

    open spec fn view(&self) -> ChatPatchView {
        ChatPatchView { name: text_view(self.name), members: self.members@ }
    }
}

/// Why a request to change a chat is refused.
#[derive(Debug, Clone, Copy, PartialEq, Eq, Structural)]
pub enum UpdateChatFault {
    NotFound,
    TooFewMembers,
}

/// Whether `e` reports `fault` for the chat `id`.
pub open spec fn reports_update(e: AppError, id: u64, fault: UpdateChatFault) -> bool {
    match fault {
        UpdateChatFault::NotFound => e is NotFound && e.detail() == not_found_text(id),
        UpdateChatFault::TooFewMembers => e is UpdateChatError && e.detail()
            == "Chat must be at least 2 members"@,
    }
}

impl UpdateChat {
    /// What becomes of the request, given the chat that it is about if
    /// there is one: the chat's new name and members, where each field of
    /// the request that is present replaces the chat's own, or the fault. A
    /// chat keeps at least two members.
    pub open spec fn outcome(self, current: Option<ChatView>) -> Result<
        ChatPatchView,
        UpdateChatFault,
    > {
        match current {
            None => Err(UpdateChatFault::NotFound),
            Some(chat) => {
                let name = match self.name {
                    Some(name) => Some(name@),
                    None => chat.name,
                };
                let members = match self.members {
                    Some(members) => members@,
                    None => chat.members,
                };
                if members.len() < MIN_MEMBERS {
                    Err(UpdateChatFault::TooFewMembers)
                } else {
                    Ok(ChatPatchView { name, members })
                }
            },
        }
    }

    /// Works out what the chat `id` becomes under this request, given the
    /// chat as the store has it, if it has it.
    pub fn apply(self, id: u64, current: Option<&Chat>) -> (patch: Result<ChatPatch, AppError>)
        ensures
            match patch {
                Ok(p) => self.outcome(chat_ref_view(current)) == Ok::<
                    ChatPatchView,
                    UpdateChatFault,
                >(p@),
                Err(e) => self.outcome(chat_ref_view(current)) is Err && reports_update(
                    e,
                    id,
                    self.outcome(chat_ref_view(current))->Err_0,
                ),
            },
    {
        let current = match current {
            Some(chat) => chat,
            None => {
                return Err(chat_not_found(id));
            },
        };
        let name = match self.name {
            Some(name) => Some(name),
            None => match &current.name {
                Some(n) => Some(n.clone()),
                None => None,
            },
        };
        let members = match self.members {
            Some(members) => members,
            None => current.members.clone(),
        };
        if members.len() < MIN_MEMBERS {
            return Err(
                AppError::UpdateChatError("Chat must be at least 2 members".to_owned()),
            );
        }
        Ok(ChatPatch { name, members })
    }
}

} // verus!
