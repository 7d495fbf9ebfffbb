//! Queues, their members and messages, and how they are read from JSON.
use vstd::prelude::*;
use crate::json::{Json, field, field_text, field_uint, field_items};

verus! {

/// A person: a queue member or a message sender.
#[derive(Debug, Clone, PartialEq, Eq)]
pub struct User {
    pub username: String,
    pub full_name: String,
    pub email: String,
}

pub struct UserView {
    pub username: Seq<char>,
    pub full_name: Seq<char>,
    pub email: Seq<char>,
}

impl View for User {
    type V = UserView;

    open spec fn view(&self) -> UserView {
        UserView { username: self.username@, full_name: self.full_name@, email: self.email@ }
    }
}

/// The state of a queue on the server.
#[derive(Debug, Clone, Copy, PartialEq, Eq, Structural)]
pub enum QueueStatus {
    Open,
    Started,
    Closed,
}

/// A message posted to a queue.
#[derive(Debug, Clone, PartialEq, Eq)]
pub struct Message {
    pub content: String,
    pub sender: User,
}

pub struct MessageView {
    pub content: Seq<char>,
    pub sender: UserView,
}

impl View for Message {
    type V = MessageView;

    open spec fn view(&self) -> MessageView {
        MessageView { content: self.content@, sender: self.sender@ }
    }
}

/// A server-owned queue as the client mirrors it.
#[derive(Debug, Clone, PartialEq, Eq)]
pub struct Queue {
    pub id: u64,
    pub name: String,
    pub status: QueueStatus,
    pub members: Vec<User>,
    pub messages: Vec<Message>,
    /// The group that may join; empty when anyone may.
    pub restrict_to_group: String,
}

pub struct QueueView {
    pub id: u64,
    pub name: Seq<char>,
    pub status: QueueStatus,
    pub members: Seq<UserView>,
    pub messages: Seq<MessageView>,
    pub restrict_to_group: Seq<char>,
}

pub open spec fn users_view(v: Seq<User>) -> Seq<UserView> {
    v.map_values(|u: User| u@)
}

pub open spec fn messages_view(v: Seq<Message>) -> Seq<MessageView> {
    v.map_values(|m: Message| m@)
}

impl View for Queue {
    type V = QueueView;

    open spec fn view(&self) -> QueueView {
        QueueView {
            id: self.id,
            name: self.name@,
            status: self.status,
            members: users_view(self.members@),
            messages: messages_view(self.messages@),
            restrict_to_group: self.restrict_to_group@,
        }
    }
}

/// The status that the wire encodes as `n`.
pub open spec fn status_of(n: u64) -> Option<QueueStatus> {
    if n == 0 {
        Some(QueueStatus::Open)
    } else if n == 1 {
        Some(QueueStatus::Started)
    } else if n == 2 {
        Some(QueueStatus::Closed)
    } else {
        None
    }
}

/// The user that a JSON object describes.
pub open spec fn user_of(j: Json) -> Option<UserView> {
    match (field_text(j, "UserName"@), field_text(j, "FullName"@), field_text(j, "EmailAddress"@)) {
        (Some(u), Some(f), Some(e)) => Some(UserView { username: u, full_name: f, email: e }),
        _ => None,
    }
}

/// The message that a JSON object describes.
pub open spec fn message_of(j: Json) -> Option<MessageView> {
    match (field_text(j, "Content"@), field(j, "Sender"@)) {
        (Some(c), Some(s)) => match user_of(s) {
            Some(u) => Some(MessageView { content: c, sender: u }),
            None => None,
        },
        _ => None,
    }
}

/// The users that a JSON array lists, if every element is one.
pub open spec fn users_of(items: Seq<Json>) -> Option<Seq<UserView>> {
    if forall|i: int| 0 <= i < items.len() ==> (#[trigger] user_of(items[i])) is Some {
        Some(items.map_values(|j: Json| user_of(j)->0))
    } else {
        None
    }
}

/// The messages that a JSON array lists, if every element is one.
pub open spec fn messages_of(items: Seq<Json>) -> Option<Seq<MessageView>> {
    if forall|i: int| 0 <= i < items.len() ==> (#[trigger] message_of(items[i])) is Some {
        Some(items.map_values(|j: Json| message_of(j)->0))
    } else {
        None
    }
}

/// The queue that a JSON object describes.
pub open spec fn queue_of(j: Json) -> Option<QueueView> {
    match (
        field_uint(j, "Id"@),
        field_text(j, "Name"@),
        field_uint(j, "Status"@),
        field_items(j, "Members"@),
        field_items(j, "Messages"@),
        field_text(j, "RestrictToGroup"@),
    ) {
        (Some(id), Some(name), Some(st), Some(ms), Some(msgs), Some(group)) => match (
            status_of(st),
            users_of(ms),
            messages_of(msgs),
        ) {
            (Some(status), Some(members), Some(messages)) => Some(
                QueueView { id, name, status, members, messages, restrict_to_group: group },
            ),
            _ => None,
        },
        _ => None,
    }
}

/// The status that the wire encodes as `n`: 0 open, 1 started, 2 closed.
pub fn status_from_u64(n: u64) -> (r: Option<QueueStatus>)
    ensures
        r == status_of(n),
{
    if n == 0 {
        Some(QueueStatus::Open)
    } else if n == 1 {
        Some(QueueStatus::Started)
    } else if n == 2 {
        Some(QueueStatus::Closed)
    } else {
        None
    }
}

fn text_field(j: &Json, key: &str) -> (r: Option<String>)
    ensures
        match r {
            Some(s) => field_text(*j, key@) == Some(s@),
            None => field_text(*j, key@) is None,
        },
{
    match j.get(key) {
        Some(v) => match v.as_text() {
            Some(s) => Some(s.clone()),
            None => None,
        },
        None => None,
    }
}

fn user_from_object(j: &Json) -> (r: Option<User>)
    ensures
        match r {
            Some(u) => user_of(*j) == Some(u@),
            None => user_of(*j) is None,
        },
{
    let username = text_field(j, "UserName");
    let full_name = text_field(j, "FullName");
    let email = text_field(j, "EmailAddress");
    match (username, full_name, email) {
        (Some(username), Some(full_name), Some(email)) => Some(User { username, full_name, email }),
        _ => None,
    }
}

fn message_from_object(j: &Json) -> (r: Option<Message>)
    ensures
        match r {
            Some(m) => message_of(*j) == Some(m@),
            None => message_of(*j) is None,
        },
{
    let content = text_field(j, "Content");
    match (content, j.get("Sender")) {
        (Some(content), Some(s)) => match user_from_object(s) {
            Some(sender) => Some(Message { content, sender }),
            None => None,
        },
        _ => None,
    }
}

fn users_from_array(items: &Vec<Json>) -> (r: Option<Vec<User>>)
    ensures
        match r {
            Some(v) => users_of(items@) == Some(users_view(v@)),
            None => users_of(items@) is None,
        },
{
    let mut out: Vec<User> = Vec::new();
    let mut i: usize = 0;
    while i < items.len()
        invariant
            i <= items@.len(),
            out@.len() == i,
            forall|k: int| 0 <= k < i ==> (#[trigger] user_of(items@[k])) == Some(out@[k]@),
        decreases items.len() - i,
    {
        match user_from_object(&items[i]) {
            Some(u) => out.push(u),
            None => return None,
        }
        i = i + 1;
    }
    proof {
        assert(items@.map_values(|j: Json| user_of(j)->0) =~= users_view(out@));
    }
    Some(out)
}

fn messages_from_array(items: &Vec<Json>) -> (r: Option<Vec<Message>>)
    ensures
        match r {
            Some(v) => messages_of(items@) == Some(messages_view(v@)),
            None => messages_of(items@) is None,
        },
{
    let mut out: Vec<Message> = Vec::new();
    let mut i: usize = 0;
    while i < items.len()
        invariant
            i <= items@.len(),
            out@.len() == i,
            forall|k: int| 0 <= k < i ==> (#[trigger] message_of(items@[k])) == Some(out@[k]@),
        decreases items.len() - i,
    {
        match message_from_object(&items[i]) {
            Some(m) => out.push(m),
            None => return None,
        }
        i = i + 1;
    }
    proof {
        assert(items@.map_values(|j: Json| message_of(j)->0) =~= messages_view(out@));
    }
    Some(out)
}

fn items_field<'a>(j: &'a Json, key: &str) -> (r: Option<&'a Vec<Json>>)
    ensures
        match r {
            Some(v) => field_items(*j, key@) == Some(v@),
            None => field_items(*j, key@) is None,
        },
{
    match j.get(key) {
        Some(v) => v.as_items(),
        None => None,
    }
}

fn uint_field(j: &Json, key: &str) -> (r: Option<u64>)
    ensures
        r == field_uint(*j, key@),
{
    match j.get(key) {
        Some(v) => v.as_uint(),
        None => None,
    }
}

/// Reads a queue from the JSON object that the server sends for it; nothing
/// when a field is missing or of the wrong kind, or the status is unknown.
pub fn queue_from_object(j: &Json) -> (r: Option<Queue>)
    ensures
        match r {
            Some(q) => queue_of(*j) == Some(q@),
            None => queue_of(*j) is None,
        },
{
    let id = uint_field(j, "Id");
    let name = text_field(j, "Name");
    let status = uint_field(j, "Status");
    let members = items_field(j, "Members");
    let messages = items_field(j, "Messages");
    let group = text_field(j, "RestrictToGroup");
    match (id, name, status, members, messages, group) {
        (Some(id), Some(name), Some(st), Some(ms), Some(msgs), Some(restrict_to_group)) => {
            match (status_from_u64(st), users_from_array(ms), messages_from_array(msgs)) {
                (Some(status), Some(members), Some(messages)) => Some(
                    Queue { id, name, status, members, messages, restrict_to_group },
                ),
                _ => None,
            }
        },
        _ => None,
    }
}

} // verus!
