//! The wire format: outbound command frames, inbound responses and
//! notification envelopes, and the handshake's answer.
use vstd::prelude::*;
use crate::json::{Json, parse_json, parsed_json, quote_json, json_quoted, field, field_text, field_items, text_of};
use crate::queue::{Queue, QueueView, queue_from_object, queue_of};
use crate::text::{decimal, parse_decimal, push_decimal, read_decimal};

verus! {

/// Which command a pending request was sent for.
#[derive(Debug, Clone, Copy, PartialEq, Eq, Structural)]
pub enum RequestType {
    ListQueues,
    LeaveQueue,
    JoinQueue,
    MessageQueue,
    StartQueue,
    ResetQueue,
    NagQueue,
    DeleteQueue,
    NewQueue,
}

/// A command that a caller sends to the server.
#[derive(Debug, Clone, PartialEq, Eq)]
pub enum Command {
    /// Asks for every queue.
    ListQueues,
    JoinQueue { id: u64 },
    LeaveQueue { id: u64 },
    MessageQueue { id: u64, content: String },
    /// Starts (activates) a queue.
    StartQueue { id: u64 },
    /// Resets (deactivates) a queue.
    ResetQueue { id: u64 },
    NagQueue { id: u64 },
    /// Deletes (closes) a queue.
    DeleteQueue { id: u64 },
    /// Creates a queue, open to everyone or to one group.
    NewQueue { name: String, restrict_to_group: Option<String> },
}

/// The tag under which a command's request is recorded.
pub open spec fn request_type_of(c: Command) -> RequestType {
    match c {
        Command::ListQueues => RequestType::ListQueues,
        Command::JoinQueue { .. } => RequestType::JoinQueue,
        Command::LeaveQueue { .. } => RequestType::LeaveQueue,
        Command::MessageQueue { .. } => RequestType::MessageQueue,
        Command::StartQueue { .. } => RequestType::StartQueue,
        Command::ResetQueue { .. } => RequestType::ResetQueue,
        Command::NagQueue { .. } => RequestType::NagQueue,
        Command::DeleteQueue { .. } => RequestType::DeleteQueue,
        Command::NewQueue { .. } => RequestType::NewQueue,
    }
}

/// The hub method that carries a command.
pub open spec fn method_name(c: Command) -> Seq<char> {
    match c {
        Command::ListQueues => "ListQueues"@,
        Command::JoinQueue { .. } => "JoinQueue"@,
        Command::LeaveQueue { .. } => "LeaveQueue"@,
        Command::MessageQueue { .. } => "MessageQueue"@,
        Command::StartQueue { .. } => "ActivateQueue"@,
        Command::ResetQueue { .. } => "DeactivateQueue"@,
        Command::NagQueue { .. } => "NagQueue"@,
        Command::DeleteQueue { .. } => "CloseQueue"@,
        Command::NewQueue { .. } => "StartQueue"@,
    }
}

/// The group text sent when a new queue is created.
pub open spec fn group_text(g: Option<String>) -> Seq<char> {
    match g {
        Some(s) => s@,
        None => Seq::empty(),
    }
}

/// The JSON text of a command's arguments, without the brackets.
pub open spec fn args_text(c: Command) -> Seq<char> {
    match c {
        Command::ListQueues => Seq::empty(),
        Command::JoinQueue { id } => decimal(id as nat),
        Command::LeaveQueue { id } => decimal(id as nat),
        Command::MessageQueue { id, content } => decimal(id as nat) + ","@ + json_quoted(content@),
        Command::StartQueue { id } => decimal(id as nat),
        Command::ResetQueue { id } => decimal(id as nat),
        Command::NagQueue { id } => decimal(id as nat),
        Command::DeleteQueue { id } => decimal(id as nat),
        Command::NewQueue { name, restrict_to_group } => json_quoted(name@) + ","@ + json_quoted(
            group_text(restrict_to_group),
        ),
    }
}

/// The text frame that sends command `c` as request `id` to the hub.
pub open spec fn command_frame(id: u64, c: Command) -> Seq<char> {
    "{\"I\":"@ + decimal(id as nat) + ",\"H\":\"QHub\",\"M\":\""@ + method_name(c) + "\",\"A\":["@
        + args_text(c) + "]}"@
}

impl Command {
    /// The tag under which this command's request is recorded.
    pub fn request_type(&self) -> (r: RequestType)
        ensures
            r == request_type_of(*self),
    {
        match self {
            Command::ListQueues => RequestType::ListQueues,
            Command::JoinQueue { .. } => RequestType::JoinQueue,
            Command::LeaveQueue { .. } => RequestType::LeaveQueue,
            Command::MessageQueue { .. } => RequestType::MessageQueue,
            Command::StartQueue { .. } => RequestType::StartQueue,
            Command::ResetQueue { .. } => RequestType::ResetQueue,
            Command::NagQueue { .. } => RequestType::NagQueue,
            Command::DeleteQueue { .. } => RequestType::DeleteQueue,
            Command::NewQueue { .. } => RequestType::NewQueue,
        }
    }

    /// The hub method that carries this command.
    pub fn method(&self) -> (r: &'static str)
        ensures
            r@ == method_name(*self),
    {
        match self {
            Command::ListQueues => "ListQueues",
            Command::JoinQueue { .. } => "JoinQueue",
            Command::LeaveQueue { .. } => "LeaveQueue",
            Command::MessageQueue { .. } => "MessageQueue",
            Command::StartQueue { .. } => "ActivateQueue",
            Command::ResetQueue { .. } => "DeactivateQueue",
            Command::NagQueue { .. } => "NagQueue",
            Command::DeleteQueue { .. } => "CloseQueue",
            Command::NewQueue { .. } => "StartQueue",
        }
    }

    /// Appends the JSON text of the arguments to `out`.
    fn push_args(&self, out: &mut String)
        ensures
            final(out)@ == old(out)@ + args_text(*self),
    {
        match self {
            Command::ListQueues => {
                assert(final(out)@ =~= old(out)@ + args_text(*self));
            },
            Command::JoinQueue { id } => push_decimal(out, *id),
            Command::LeaveQueue { id } => push_decimal(out, *id),
            Command::MessageQueue { id, content } => {
                push_decimal(out, *id);
                out.append(",");
                out.append(quote_json(content.as_str()).as_str());
                assert(final(out)@ =~= old(out)@ + args_text(*self));
            },
            Command::StartQueue { id } => push_decimal(out, *id),
            Command::ResetQueue { id } => push_decimal(out, *id),
            Command::NagQueue { id } => push_decimal(out, *id),
            Command::DeleteQueue { id } => push_decimal(out, *id),
            Command::NewQueue { name, restrict_to_group } => {
                out.append(quote_json(name.as_str()).as_str());
                out.append(",");
                let group = match restrict_to_group {
                    Some(g) => quote_json(g.as_str()),
                    None => {
                        proof {
                            reveal_strlit("");
                            assert(""@ =~= Seq::<char>::empty());
                        }
                        quote_json("")
                    },
                };
                assert(group@ == json_quoted(group_text(*restrict_to_group)));
                out.append(group.as_str());
                assert(final(out)@ =~= old(out)@ + args_text(*self));
            },
        }
    }
}

/// The text frame that sends command `c` as request `id`.
pub fn encode_command(id: u64, c: &Command) -> (r: String)
    ensures
        r@ == command_frame(id, *c),
{
    let mut out = String::from_str("{\"I\":");
    push_decimal(&mut out, id);
    out.append(",\"H\":\"QHub\",\"M\":\"");
    out.append(c.method());
    out.append("\",\"A\":[");
    c.push_args(&mut out);
    out.append("]}");
    assert(out@ =~= command_frame(id, *c));
    out
}

/// A frame that did not have the shape the protocol gives it.
#[derive(Debug, Clone, Copy, PartialEq, Eq, Structural)]
pub enum ProtocolError {
    /// The text is not JSON.
    NotJson,
    /// The JSON lacks a field the protocol needs, or holds one of the wrong kind.
    Malformed,
    /// A frame of a kind the protocol does not use (binary, for instance).
    UnexpectedKind,
}

/// One notification of an envelope.
#[derive(Debug, Clone, PartialEq, Eq)]
pub enum Notification {
    /// A queue was created or changed; it carries the whole queue.
    QueueChanged(Queue),
    /// Someone asks for the user's attention.
    Nag,
    /// A message was posted; its content comes with the queue's next change.
    MessageSent,
    /// A notification type this client does not know.
    Unrecognized,
}

pub enum NotificationView {
    QueueChanged(QueueView),
    Nag,
    MessageSent,
    Unrecognized,
}

impl View for Notification {
    type V = NotificationView;

    open spec fn view(&self) -> NotificationView {
        match self {
            Notification::QueueChanged(q) => NotificationView::QueueChanged(q@),
            Notification::Nag => NotificationView::Nag,
            Notification::MessageSent => NotificationView::MessageSent,
            Notification::Unrecognized => NotificationView::Unrecognized,
        }
    }
}

/// An inbound text frame, by what it carries.
#[derive(Debug, Clone, PartialEq, Eq)]
pub enum Inbound {
    /// The answer to request `id`.
    Response { id: u64 },
    /// A batch of notifications, in arrival order.
    Notifications(Vec<Notification>),
    /// A frame with neither a response id nor a cursor (a keep-alive).
    Ignored,
}

pub enum InboundView {
    Response { id: u64 },
    Notifications(Seq<NotificationView>),
    Ignored,
}

pub open spec fn notifications_view(v: Seq<Notification>) -> Seq<NotificationView> {
    v.map_values(|n: Notification| n@)
}

impl View for Inbound {
    type V = InboundView;

    open spec fn view(&self) -> InboundView {
        match self {
            Inbound::Response { id } => InboundView::Response { id: *id },
            Inbound::Notifications(v) => InboundView::Notifications(notifications_view(v@)),
            Inbound::Ignored => InboundView::Ignored,
        }
    }
}

/// Whether a notification type announces a whole, changed queue.
pub open spec fn is_queue_change(t: Seq<char>) -> bool {
    t == "NewQueue"@ || t == "QueueStatusChanged"@ || t == "QueueMembershipChanged"@
}

/// The notification that a JSON object describes.
pub open spec fn notification_of(n: Json) -> Option<NotificationView> {
    match field_text(n, "M"@) {
        Some(t) => if is_queue_change(t) {
            match field_items(n, "A"@) {
                Some(args) => if args.len() > 0 {
                    match queue_of(args[0]) {
                        Some(q) => Some(NotificationView::QueueChanged(q)),
                        None => None,
                    }
                } else {
                    None
                },
                None => None,
            }
        } else if t == "NagQueue"@ {
            Some(NotificationView::Nag)
        } else if t == "QueueMessageSent"@ {
            Some(NotificationView::MessageSent)
        } else {
            Some(NotificationView::Unrecognized)
        },
        None => None,
    }
}

/// The notifications that a JSON array lists, if every element is one.
pub open spec fn notifications_of(items: Seq<Json>) -> Option<Seq<NotificationView>> {
    if forall|i: int| 0 <= i < items.len() ==> (#[trigger] notification_of(items[i])) is Some {
        Some(items.map_values(|j: Json| notification_of(j)->0))
    } else {
        None
    }
}

/// What an inbound JSON frame carries: a response when it has an `I` field
/// (a decimal request id in a string), an envelope when it has a `C` field
/// (its notifications under `M`), and nothing otherwise.
pub open spec fn inbound_of(j: Json) -> Option<InboundView> {
    match field(j, "I"@) {
        Some(idj) => match text_of(idj) {
            Some(t) => match parse_decimal(t) {
                Some(id) => Some(InboundView::Response { id }),
                None => None,
            },
            None => None,
        },
        None => match field(j, "C"@) {
            Some(_) => match field_items(j, "M"@) {
                Some(ns) => match notifications_of(ns) {
                    Some(v) => Some(InboundView::Notifications(v)),
                    None => None,
                },
                None => None,
            },
            None => Some(InboundView::Ignored),
        },
    }
}

/// The queues that a ListQueues response lists under `R`.
pub open spec fn listed_queues(j: Json) -> Option<Seq<QueueView>> {
    match field_items(j, "R"@) {
        Some(items) => if forall|i: int| 0 <= i < items.len() ==> (#[trigger] queue_of(items[i])) is Some {
            Some(items.map_values(|q: Json| queue_of(q)->0))
        } else {
            None
        },
        None => None,
    }
}

pub open spec fn queues_view(v: Seq<Queue>) -> Seq<QueueView> {
    v.map_values(|q: Queue| q@)
}

fn text_is(s: &String, lit: &str) -> (r: bool)
    ensures
        r == (s@ == lit@),
{
    let l = String::from_str(lit);
    *s == l
}

/// Reads one notification of an envelope.
pub fn notification_from_object(n: &Json) -> (r: Option<Notification>)
    ensures
        match r {
            Some(x) => notification_of(*n) == Some(x@),
            None => notification_of(*n) is None,
        },
{
    let t = match n.get("M") {
        Some(m) => match m.as_text() {
            Some(t) => t,
            None => return None,
        },
        None => return None,
    };
    if text_is(t, "NewQueue") || text_is(t, "QueueStatusChanged") || text_is(t, "QueueMembershipChanged") {
        let args = match n.get("A") {
            Some(a) => match a.as_items() {
                Some(args) => args,
                None => return None,
            },
            None => return None,
        };
        if args.len() == 0 {
            return None;
        }
        match queue_from_object(&args[0]) {
            Some(q) => Some(Notification::QueueChanged(q)),
            None => None,
        }
    } else if text_is(t, "NagQueue") {
        Some(Notification::Nag)
    } else if text_is(t, "QueueMessageSent") {
        Some(Notification::MessageSent)
    } else {
        Some(Notification::Unrecognized)
    }
}

fn notifications_from_array(items: &Vec<Json>) -> (r: Option<Vec<Notification>>)
    ensures
        match r {
            Some(v) => notifications_of(items@) == Some(notifications_view(v@)),
            None => notifications_of(items@) is None,
        },
{
    let mut out: Vec<Notification> = Vec::new();
    let mut i: usize = 0;
    while i < items.len()
        invariant
            i <= items@.len(),
            out@.len() == i,
            forall|k: int| 0 <= k < i ==> (#[trigger] notification_of(items@[k])) == Some(out@[k]@),
        decreases items.len() - i,
    {
        match notification_from_object(&items[i]) {
            Some(x) => out.push(x),
            None => return None,
        }
        i = i + 1;
    }
    proof {
        assert(items@.map_values(|j: Json| notification_of(j)->0) =~= notifications_view(out@));
    }
    Some(out)
}

/// Reads what an inbound JSON frame carries.
pub fn decode_inbound(j: &Json) -> (r: Result<Inbound, ProtocolError>)
    ensures
        match r {
            Ok(x) => inbound_of(*j) == Some(x@),
            Err(e) => inbound_of(*j) is None && e == ProtocolError::Malformed,
        },
{
    match j.get("I") {
        Some(idj) => match idj.as_text() {
            Some(t) => match read_decimal(t.as_str()) {
                Some(id) => Ok(Inbound::Response { id }),
                None => Err(ProtocolError::Malformed),
            },
            None => Err(ProtocolError::Malformed),
        },
        None => match j.get("C") {
            Some(_) => match j.get("M") {
                Some(m) => match m.as_items() {
                    Some(ns) => match notifications_from_array(ns) {
                        Some(v) => Ok(Inbound::Notifications(v)),
                        None => Err(ProtocolError::Malformed),
                    },
                    None => Err(ProtocolError::Malformed),
                },
                None => Err(ProtocolError::Malformed),
            },
            None => Ok(Inbound::Ignored),
        },
    }
}

/// Reads the queues that a ListQueues response lists under `R`.
pub fn queues_from_response(j: &Json) -> (r: Option<Vec<Queue>>)
    ensures
        match r {
            Some(v) => listed_queues(*j) == Some(queues_view(v@)),
            None => listed_queues(*j) is None,
        },
{
    let items = match j.get("R") {
        Some(r) => match r.as_items() {
            Some(items) => items,
            None => return None,
        },
        None => return None,
    };
    let mut out: Vec<Queue> = Vec::new();
    let mut i: usize = 0;
    while i < items.len()
        invariant
            i <= items@.len(),
            field_items(*j, "R"@) == Some(items@),
            out@.len() == i,
            forall|k: int| 0 <= k < i ==> (#[trigger] queue_of(items@[k])) == Some(out@[k]@),
        decreases items.len() - i,
    {
        match queue_from_object(&items[i]) {
            Some(q) => out.push(q),
            None => return None,
        }
        i = i + 1;
    }
    proof {
        assert(items@.map_values(|q: Json| queue_of(q)->0) =~= queues_view(out@));
    }
    Some(out)
}

/// A handshake that gave no connection token.
#[derive(Debug, Clone, Copy, PartialEq, Eq, Structural)]
pub enum NegotiationError {
    /// The handshake request failed on the network.
    Unreachable,
    /// The answer was not JSON, or held no string `ConnectionToken`.
    MalformedResponse,
}

/// The connection token in the handshake's answer.
pub fn connection_token(j: &Json) -> (r: Result<String, NegotiationError>)
    ensures
        match r {
            Ok(t) => field_text(*j, "ConnectionToken"@) == Some(t@),
            Err(e) => field_text(*j, "ConnectionToken"@) is None
                && e == NegotiationError::MalformedResponse,
        },
{
    match j.get("ConnectionToken") {
        Some(t) => match t.as_text() {
            Some(s) => Ok(s.clone()),
            None => Err(NegotiationError::MalformedResponse),
        },
        None => Err(NegotiationError::MalformedResponse),
    }
}

/// The connection token in the text of the handshake's answer.
pub fn token_from_answer(text: &str) -> (r: Result<String, NegotiationError>)
    ensures
        match parsed_json(text@) {
            Some(j) => match r {
                Ok(t) => field_text(j, "ConnectionToken"@) == Some(t@),
                Err(e) => field_text(j, "ConnectionToken"@) is None
                    && e == NegotiationError::MalformedResponse,
            },
            None => r == Err::<String, NegotiationError>(NegotiationError::MalformedResponse),
        },
{
    match parse_json(text) {
        Some(j) => connection_token(&j),
        None => Err(NegotiationError::MalformedResponse),
    }
}

/// The JSON that names the hub in the handshake and connect requests.
pub fn connection_data() -> (r: String)
    ensures
        r@ == "[{\"Name\":\"QHub\"}]"@,
{
    String::from_str("[{\"Name\":\"QHub\"}]")
}

} // verus!
