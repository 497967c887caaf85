//! Turning a change record of the store into the event that it stands for
//! and the set of users that the event concerns.

use std::collections::HashSet;
use std::sync::Arc;

use serde_json::Value;
use vstd::prelude::*;

use crate::decode::{
    integers_at, message_at, optional_chat_at, read_integers, read_message_at, read_optional_chat,
    read_text, same_text, text_at,
};
use crate::json::{json_document, json_tree, parse, JsonTree};
use crate::models::{
    chat_ref_view, chat_view, text_view, Chat, ChatView, Message, MessageView,
};

verus! {

broadcast use vstd::std_specs::hash::group_hash_axioms;

/// The channel on which the store reports that a chat was created, changed
/// or removed.
pub const CHAT_CHANGE: &'static str = "chat_change";

/// The channel on which the store reports a new message.
pub const MESSAGE_ADDED: &'static str = "message_added";

/// What is told to a connected user.
#[derive(Debug, Clone, PartialEq, Eq)]
pub enum AppEvent {
    NewChat(Chat),
    UpdateChat(Chat),
    RemoveFromChat(Chat),
    NewMessage(Message),
}

/// What an [`AppEvent`] holds, as mathematical values.
pub enum AppEventView {
    NewChat(ChatView),
    UpdateChat(ChatView),
    RemoveFromChat(ChatView),
    NewMessage(MessageView),
}

impl View for AppEvent {
    type V = AppEventView;

    open spec fn view(&self) -> AppEventView {
        match self {
            AppEvent::NewChat(chat) => AppEventView::NewChat(chat@),
            AppEvent::UpdateChat(chat) => AppEventView::UpdateChat(chat@),
            AppEvent::RemoveFromChat(chat) => AppEventView::RemoveFromChat(chat@),
            AppEvent::NewMessage(message) => AppEventView::NewMessage(message@),
        }
    }
}

impl AppEventView {
    /// The name of the event's kind, by which a delivered event is tagged.
    pub open spec fn tag(self) -> Seq<char> {
        match self {
            AppEventView::NewChat(_) => "NewChat"@,
            AppEventView::UpdateChat(_) => "UpdateChat"@,
            AppEventView::RemoveFromChat(_) => "RemoveFromChat"@,
            AppEventView::NewMessage(_) => "NewMessage"@,
        }
    }
}

impl AppEvent {
    /// The name of the event's kind, by which a delivered event is tagged.
    pub fn kind(&self) -> (name: &'static str)
        ensures
            name@ == self@.tag(),
    {
        match self {
            AppEvent::NewChat(_) => "NewChat",
            AppEvent::UpdateChat(_) => "UpdateChat",
            AppEvent::RemoveFromChat(_) => "RemoveFromChat",
            AppEvent::NewMessage(_) => "NewMessage",
        }
    }
}

/// Why a change record yields no notification.
#[derive(Debug, Clone, Copy, PartialEq, Eq, Structural)]
pub enum TranslateError {
    /// The record came on a channel that is not one of the two known ones.
    UnknownChannel,
    /// The payload is not what its channel carries.
    MalformedPayload,
}

/// An event together with the users that it concerns.
#[derive(Debug)]
pub struct Notification {
    pub user_ids: HashSet<u64>,
    pub event: Arc<AppEvent>,
}

/// What a [`Notification`] holds, as mathematical values.
pub struct NotificationView {
    pub user_ids: Set<u64>,
    pub event: AppEventView,
}

impl View for Notification {
    type V = NotificationView;

    open spec fn view(&self) -> NotificationView {
        NotificationView { user_ids: self.user_ids@, event: self.event@ }
    }
}

/// The identity of the user that is listed as `member`.
pub open spec fn user_id(member: i64) -> u64 {
    member as u64
}

/// The users that a list of members names.
pub open spec fn member_ids(members: Seq<i64>) -> Set<u64> {
    Set::new(|id: u64| exists|i: int| 0 <= i < members.len() && user_id(#[trigger] members[i]) == id)
}

/// The users that a change of a chat concerns, given the chat before and
/// after. While the members stay the same these are the members, and they
/// are concerned only if the name or the time of removal changed; when the
/// members change, those before and those after are all concerned.
pub open spec fn affected_users(old: Option<ChatView>, new: Option<ChatView>) -> Set<u64> {
    match (old, new) {
        (Some(o), Some(n)) => if member_ids(o.members) == member_ids(n.members) {
            if o.name != n.name || o.deleted_at != n.deleted_at {
                member_ids(n.members)
            } else {
                Set::empty()
            }
        } else {
            member_ids(o.members).union(member_ids(n.members))
        },
        (Some(o), None) => member_ids(o.members),
        (None, Some(n)) => member_ids(n.members),
        (None, None) => Set::empty(),
    }
}

/// The event that a change of a chat stands for, given the chat before and
/// after. There is none where the chat is neither there before nor after.
pub open spec fn change_event(old: Option<ChatView>, new: Option<ChatView>) -> Option<
    AppEventView,
> {
    match (old, new) {
        (None, Some(n)) => Some(AppEventView::NewChat(n)),
        (Some(o), None) => Some(AppEventView::RemoveFromChat(o)),
        (Some(_), Some(n)) => Some(AppEventView::UpdateChat(n)),
        (None, None) => None,
    }
}

/// The notification that a change of a chat gives rise to.
pub open spec fn chat_change(old: Option<ChatView>, new: Option<ChatView>) -> Option<
    NotificationView,
> {
    match change_event(old, new) {
        Some(event) => Some(NotificationView { user_ids: affected_users(old, new), event }),
        None => None,
    }
}

/// The notification that a new message gives rise to: it concerns exactly
/// the listed members.
pub open spec fn message_added(message: MessageView, members: Seq<i64>) -> NotificationView {
    NotificationView { user_ids: member_ids(members), event: AppEventView::NewMessage(message) }
}

/// Whether `op` names one of the store's three operations.
pub open spec fn is_operation(op: Seq<char>) -> bool {
    op == "INSERT"@ || op == "UPDATE"@ || op == "DELETE"@
}

/// The notification that a payload of the channel of chat changes gives
/// rise to: the payload names an operation and holds the chat before, the
/// chat after, or both.
pub open spec fn chat_change_of(tree: JsonTree) -> Option<NotificationView> {
    match (text_at(tree, "op"@), optional_chat_at(tree, "old"@), optional_chat_at(tree, "new"@)) {
        (Some(op), Some(old), Some(new)) => if is_operation(op) {
            chat_change(old, new)
        } else {
            None
        },
        _ => None,
    }
}

/// The notification that a payload of the channel of new messages gives
/// rise to: the payload holds the message and the members of its chat.
pub open spec fn message_added_of(tree: JsonTree) -> Option<NotificationView> {
    match (message_at(tree, "message"@), integers_at(tree, "members"@)) {
        (Some(message), Some(members)) => Some(message_added(message, members)),
        _ => None,
    }
}

/// What a parsed payload that came on `channel` is translated to.
pub open spec fn translate_tree(channel: Seq<char>, tree: JsonTree) -> Result<
    NotificationView,
    TranslateError,
> {
    if channel == CHAT_CHANGE@ {
        match chat_change_of(tree) {
            Some(n) => Ok(n),
            None => Err(TranslateError::MalformedPayload),
        }
    } else if channel == MESSAGE_ADDED@ {
        match message_added_of(tree) {
            Some(n) => Ok(n),
            None => Err(TranslateError::MalformedPayload),
        }
    } else {
        Err(TranslateError::UnknownChannel)
    }
}

/// What a record with `payload` that came on `channel` is translated to.
pub open spec fn translate(channel: Seq<char>, payload: Seq<char>) -> Result<
    NotificationView,
    TranslateError,
> {
    if channel != CHAT_CHANGE@ && channel != MESSAGE_ADDED@ {
        Err(TranslateError::UnknownChannel)
    } else {
        match json_document(payload) {
            Some(tree) => translate_tree(channel, tree),
            None => Err(TranslateError::MalformedPayload),
        }
    }
}

/// A change that leaves the members of a chat, its name and its time of
/// removal as they were concerns nobody; the event it stands for is still
/// the update to the new snapshot.
pub proof fn law_unchanged_chat_concerns_nobody(old: ChatView, new: ChatView)
    requires
        member_ids(old.members) == member_ids(new.members),
        old.name == new.name,
        old.deleted_at == new.deleted_at,
    ensures
        affected_users(Some(old), Some(new)) == Set::<u64>::empty(),
        chat_change(Some(old), Some(new)) == Some(
            NotificationView { user_ids: Set::empty(), event: AppEventView::UpdateChat(new) },
        ),
{
}

/// A change that keeps the members of a chat but touches its name or its
/// time of removal concerns exactly the members.
pub proof fn law_renamed_or_removed_chat_concerns_members(old: ChatView, new: ChatView)
    requires
        member_ids(old.members) == member_ids(new.members),
        old.name != new.name || old.deleted_at != new.deleted_at,
    ensures
        affected_users(Some(old), Some(new)) == member_ids(new.members),
        chat_change(Some(old), Some(new)) == Some(
            NotificationView {
                user_ids: member_ids(new.members),
                event: AppEventView::UpdateChat(new),
            },
        ),
{
}

/// A change of the members of a chat concerns the members before and the
/// members after, all of them and nobody else, whichever side is larger.
pub proof fn law_changed_members_concern_both_sides(old: ChatView, new: ChatView)
    requires
        member_ids(old.members) != member_ids(new.members),
    ensures
        affected_users(Some(old), Some(new)) == member_ids(old.members).union(
            member_ids(new.members),
        ),
        forall|id: u64|
            affected_users(Some(old), Some(new)).contains(id) <==> (member_ids(
                old.members,
            ).contains(id) || member_ids(new.members).contains(id)),
        chat_change(Some(old), Some(new)) == Some(
            NotificationView {
                user_ids: member_ids(old.members).union(member_ids(new.members)),
                event: AppEventView::UpdateChat(new),
            },
        ),
{
}

/// The removal of a chat concerns the members that it had, and stands for
/// the event that removes them from it.
pub proof fn law_removed_chat_concerns_old_members(old: ChatView)
    ensures
        affected_users(Some(old), None) == member_ids(old.members),
        chat_change(Some(old), None) == Some(
            NotificationView {
                user_ids: member_ids(old.members),
                event: AppEventView::RemoveFromChat(old),
            },
        ),
{
}

/// The creation of a chat concerns the members that it has, and stands for
/// the event of a new chat.
pub proof fn law_new_chat_concerns_new_members(new: ChatView)
    ensures
        affected_users(None, Some(new)) == member_ids(new.members),
        chat_change(None, Some(new)) == Some(
            NotificationView { user_ids: member_ids(new.members), event: AppEventView::NewChat(new) },
        ),
{
}

/// A new message concerns exactly the members that its record lists: the
/// translation of the record depends on its payload alone.
pub proof fn law_message_concerns_listed_members(payload: Seq<char>)
    requires
        translate(MESSAGE_ADDED@, payload) is Ok,
    ensures
        json_document(payload) matches Some(tree) && integers_at(tree, "members"@) matches Some(
            members,
        ) && message_at(tree, "message"@) matches Some(message) && translate(
            MESSAGE_ADDED@,
            payload,
        ) == Ok::<NotificationView, TranslateError>(
            NotificationView {
                user_ids: member_ids(members),
                event: AppEventView::NewMessage(message),
            },
        ),
{
    reveal_strlit("chat_change");
    reveal_strlit("message_added");
    assert(MESSAGE_ADDED@.len() != CHAT_CHANGE@.len());
}

/// What the outcome of a translation holds.
pub open spec fn outcome_view(outcome: Result<Notification, TranslateError>) -> Result<
    NotificationView,
    TranslateError,
> {
    match outcome {
        Ok(n) => Ok(n@),
        Err(e) => Err(e),
    }
}

/// Adds the users that `members` names to `ids`.
pub fn add_user_ids(ids: &mut HashSet<u64>, members: &Vec<i64>)
    ensures
        final(ids)@ == old(ids)@.union(member_ids(members@)),
{
    let mut i: usize = 0;
    while i < members.len()
        invariant
            i <= members@.len(),
            ids@ == old(ids)@.union(member_ids(members@.take(i as int))),
        decreases members@.len() - i,
    {
        let id = members[i] as u64;
        ids.insert(id);
        proof {
            let before = members@.take(i as int);
            let after = members@.take(i + 1);
            assert(user_id(after[i as int]) == id);
            assert forall|u: u64| member_ids(after).contains(u) <==> (member_ids(before).contains(u)
                || u == id) by {
                if member_ids(after).contains(u) {
                    let j = choose|j: int| 0 <= j < after.len() && user_id(#[trigger] after[j]) == u;
                    if j < i {
                        assert(user_id(before[j]) == u);
                    }
                }
                if member_ids(before).contains(u) {
                    let j = choose|j: int|
                        0 <= j < before.len() && user_id(#[trigger] before[j]) == u;
                    assert(user_id(after[j]) == u);
                }
            }
            assert(ids@ =~= old(ids)@.union(member_ids(after)));
        }
        i += 1;
    }
    proof {
        assert(members@.take(members@.len() as int) =~= members@);
    }
}

/// The users that `members` names.
pub fn collect_user_ids(members: &Vec<i64>) -> (ids: HashSet<u64>)
    ensures
        ids@ == member_ids(members@),
{
    let mut ids: HashSet<u64> = HashSet::new();
    add_user_ids(&mut ids, members);
    assert(ids@ =~= member_ids(members@));
    ids
}

/// Whether every user that `members` names is in `ids`.
pub fn all_within(members: &Vec<i64>, ids: &HashSet<u64>) -> (within: bool)
    ensures
        within == member_ids(members@).subset_of(ids@),
{
    let mut i: usize = 0;
    while i < members.len()
        invariant
            i <= members@.len(),
            forall|j: int| 0 <= j < i ==> ids@.contains(user_id(#[trigger] members@[j])),
        decreases members@.len() - i,
    {
        let id = members[i] as u64;
        if !ids.contains(&id) {
            proof {
                assert(user_id(members@[i as int]) == id);
                assert(member_ids(members@).contains(id));
            }
            return false;
        }
        i += 1;
    }
    true
}

/// Whether two optional texts are the same.
pub fn same_optional_text(a: &Option<String>, b: &Option<String>) -> (same: bool)
    ensures
        same == (text_view(*a) == text_view(*b)),
{
    match (a, b) {
        (Some(x), Some(y)) => same_text(x.as_str(), y.as_str()),
        (None, None) => true,
        _ => false,
    }
}

/// The users that a change of a chat concerns, given the chat before and
/// after the change.
pub fn get_affected_chat_user_ids(old: Option<&Chat>, new: Option<&Chat>) -> (ids: HashSet<u64>)
    ensures
        ids@ == affected_users(chat_ref_view(old), chat_ref_view(new)),
{
    match (old, new) {
        (Some(old), Some(new)) => {
            let old_user_ids = collect_user_ids(&old.members);
            let mut new_user_ids = collect_user_ids(&new.members);
            let same_members = all_within(&old.members, &new_user_ids) && all_within(
                &new.members,
                &old_user_ids,
            );
            assert(same_members == (member_ids(old@.members) == member_ids(new@.members))) by {
                if same_members {
                    assert(member_ids(old@.members) =~= member_ids(new@.members));
                }
            }
            if same_members {
                if !same_optional_text(&old.name, &new.name) || old.deleted_at != new.deleted_at {
                    return new_user_ids;
                }
                HashSet::new()
            } else {
                add_user_ids(&mut new_user_ids, &old.members);
                assert(new_user_ids@ =~= member_ids(old@.members).union(member_ids(new@.members)));
                new_user_ids
            }
        },
        (Some(old), None) => collect_user_ids(&old.members),
        (None, Some(new)) => collect_user_ids(&new.members),
        (None, None) => HashSet::new(),
    }
}

impl Notification {
    /// The notification that a change of a chat gives rise to, given the
    /// chat before and after; none where both are absent.
    pub fn chat_change(old: Option<Chat>, new: Option<Chat>) -> (made: Option<Notification>)
        ensures
            match made {
                Some(n) => chat_change(chat_view(old), chat_view(new)) == Some(n@),
                None => chat_change(chat_view(old), chat_view(new)) is None,
            },
    {
        let user_ids = get_affected_chat_user_ids(old.as_ref(), new.as_ref());
        let event = match (old, new) {
            (None, Some(n)) => AppEvent::NewChat(n),
            (Some(o), None) => AppEvent::RemoveFromChat(o),
            (Some(_), Some(n)) => AppEvent::UpdateChat(n),
            (None, None) => {
                return None;
            },
        };
        Some(Notification { user_ids, event: Arc::new(event) })
    }

    /// The notification that a new message gives rise to.
    pub fn message_added(message: Message, members: &Vec<i64>) -> (made: Notification)
        ensures
            made@ == message_added(message@, members@),
    {
        let user_ids = collect_user_ids(members);
        Notification { user_ids, event: Arc::new(AppEvent::NewMessage(message)) }
    }

    /// Translates a parsed payload that came on `channel`.
    pub fn from_document(channel: &str, document: &Value) -> (outcome: Result<
        Notification,
        TranslateError,
    >)
        ensures
            outcome_view(outcome) == translate_tree(channel@, json_tree(*document)),
    {
        if same_text(channel, CHAT_CHANGE) {
            let op = match read_text(document, "op") {
                Some(op) => op,
                None => {
                    return Err(TranslateError::MalformedPayload);
                },
            };
            if !(same_text(op.as_str(), "INSERT") || same_text(op.as_str(), "UPDATE") || same_text(
                op.as_str(),
                "DELETE",
            )) {
                return Err(TranslateError::MalformedPayload);
            }
            let old = match read_optional_chat(document, "old") {
                Ok(chat) => chat,
                Err(_) => {
                    return Err(TranslateError::MalformedPayload);
                },
            };
            let new = match read_optional_chat(document, "new") {
                Ok(chat) => chat,
                Err(_) => {
                    return Err(TranslateError::MalformedPayload);
                },
            };
            match Notification::chat_change(old, new) {
                Some(n) => Ok(n),
                None => Err(TranslateError::MalformedPayload),
            }
        } else if same_text(channel, MESSAGE_ADDED) {
            let message = match read_message_at(document, "message") {
                Some(message) => message,
                None => {
                    return Err(TranslateError::MalformedPayload);
                },
            };
            let members = match read_integers(document, "members") {
                Some(members) => members,
                None => {
                    return Err(TranslateError::MalformedPayload);
                },
            };
            Ok(Notification::message_added(message, &members))
        } else {
            Err(TranslateError::UnknownChannel)
        }
    }

    /// Translates a record of the store: the name of the channel it came on
    /// and its payload.
    pub fn load(channel: &str, payload: &str) -> (outcome: Result<Notification, TranslateError>)
        ensures
            outcome_view(outcome) == translate(channel@, payload@),
    {
        if !same_text(channel, CHAT_CHANGE) && !same_text(channel, MESSAGE_ADDED) {
            return Err(TranslateError::UnknownChannel);
        }
        match parse(payload) {
            Some(document) => Notification::from_document(channel, &document),
            None => Err(TranslateError::MalformedPayload),
        }
    }
}

} // verus!
