//! The session supervisor: the connect, operate, fail and reconnect cycle,
//! the keep-alive deadline, and the dispatch of inbound frames.
//!
//! The supervisor makes decisions only. The caller performs the handshake,
//! owns the socket and the timers, and reports what happened; each method
//! says what the session became and what the caller must do next.
use vstd::prelude::*;
use crate::correlator::{Correlator, lists_table, resolution};
use crate::json::{Json, parse_json, parsed_json};
use crate::mirror::{ChangeEvent, Mirror, keyed_by_id, after_upsert, after_snapshot};
use crate::protocol::{
    Command, Inbound, InboundView, Notification, NotificationView, ProtocolError, RequestType,
    command_frame, decode_inbound, encode_command, inbound_of, listed_queues, queues_from_response,
    request_type_of, notifications_view,
};
use crate::queue::QueueView;

verus! {

/// Where the session stands in its lifecycle.
#[derive(Debug, Clone, Copy, PartialEq, Eq, Structural)]
pub enum Phase {
    Disconnected,
    Negotiating,
    Connected,
    ReconnectPending,
    /// Shut down for good.
    Stopped,
}

/// Why a command could not be handed to the transport.
#[derive(Debug, Clone, Copy, PartialEq, Eq, Structural)]
pub enum CommandSendFailure {
    /// The session is not connected.
    NotConnected,
    /// Every request id of the session has been used.
    IdsExhausted,
}

/// Why an inbound frame changed nothing.
#[derive(Debug, Clone, Copy, PartialEq, Eq, Structural)]
pub enum InboundError {
    /// The frame did not have the protocol's shape; it was dropped whole.
    Protocol(ProtocolError),
    /// A response to a request id that is not pending.
    CorrelationMiss(u64),
}

/// An inbound frame, by kind.
#[derive(Debug, Clone, PartialEq, Eq)]
pub enum InboundFrame {
    /// A text frame.
    Text(String),
    /// The acknowledgment of a heartbeat ping.
    PingAck,
    /// Any other kind of frame.
    Other,
}

pub struct SessionView {
    pub phase: Phase,
    pub next_id: u64,
    pub pending: Map<u64, RequestType>,
    pub queues: Map<u64, QueueView>,
    /// When the last inbound frame (or the connection) was seen, in ms.
    pub last_inbound: u64,
    /// When a pending reconnect may start negotiating, in ms.
    pub retry_at: u64,
    /// How long the connection may stay silent before it is dropped, in ms.
    pub silence_ms: u64,
    /// How long to wait before negotiating again, in ms.
    pub backoff_ms: u64,
}

/// The invariant of a session: queues are filed under their ids, and every
/// pending request id was handed out already, and requests are pending only
/// while connected.
pub open spec fn session_ok(v: SessionView) -> bool {
    &&& keyed_by_id(v.queues)
    &&& forall|id: u64| #[trigger] v.pending.contains_key(id) ==> id < v.next_id
    &&& v.phase != Phase::Connected ==> v.pending == Map::<u64, RequestType>::empty()
}

/// On leaving `Connected`, `failed` lists each pending request once and the
/// table is emptied; otherwise nobody is failed and the table is untouched.
pub open spec fn drained_on_leave(old: SessionView, new: SessionView, failed: Seq<(u64, RequestType)>) -> bool {
    if old.phase == Phase::Connected && new.phase != Phase::Connected {
        lists_table(old.pending, failed) && new.pending == Map::<u64, RequestType>::empty()
    } else {
        failed.len() == 0 && new.pending == old.pending
    }
}

/// Whether a connection last heard from at `last` has been silent for
/// longer than `silence` at time `now`.
pub open spec fn silent_too_long(last: u64, now: u64, silence: u64) -> bool {
    now - last > silence
}

/// The session after the connection is dropped at `now`: the table is
/// emptied and a new negotiation waits for the backoff.
pub open spec fn after_drop(v: SessionView, now: u64) -> SessionView {
    SessionView {
        phase: Phase::ReconnectPending,
        pending: Map::empty(),
        retry_at: now.saturating_add(v.backoff_ms),
        ..v
    }
}

/// The mirror after a batch of notifications, applied in order.
pub open spec fn after_notifications(m: Map<u64, QueueView>, ns: Seq<NotificationView>) -> Map<u64, QueueView>
    decreases ns.len(),
{
    if ns.len() == 0 {
        m
    } else {
        let before = after_notifications(m, ns.drop_last());
        match ns.last() {
            NotificationView::QueueChanged(q) => after_upsert(before, q),
            _ => before,
        }
    }
}

/// The change events that a batch of notifications yields, in order.
pub open spec fn notification_events(ns: Seq<NotificationView>) -> Seq<ChangeEvent>
    decreases ns.len(),
{
    if ns.len() == 0 {
        Seq::empty()
    } else {
        notification_events(ns.drop_last()) + match ns.last() {
            NotificationView::QueueChanged(q) => seq![ChangeEvent::QueueUpdated(q.id)],
            NotificationView::Nag => seq![ChangeEvent::Attention],
            _ => Seq::empty(),
        }
    }
}

pub open spec fn events_view(r: Result<Vec<ChangeEvent>, InboundError>) -> Result<Seq<ChangeEvent>, InboundError> {
    match r {
        Ok(v) => Ok(v@),
        Err(e) => Err(e),
    }
}

/// What a parsed inbound frame does to a connected session, and what it
/// reports: the new session and the change events, or why nothing changed.
pub open spec fn frame_effect(v: SessionView, j: Json) -> (SessionView, Result<Seq<ChangeEvent>, InboundError>) {
    match inbound_of(j) {
        None => (v, Err(InboundError::Protocol(ProtocolError::Malformed))),
        Some(InboundView::Ignored) => (v, Ok(Seq::empty())),
        Some(InboundView::Response { id }) => {
            let v1 = SessionView { pending: v.pending.remove(id), ..v };
            match resolution(v.pending, id) {
                None => (v1, Err(InboundError::CorrelationMiss(id))),
                Some(RequestType::ListQueues) => match listed_queues(j) {
                    Some(s) => (
                        SessionView { queues: after_snapshot(v.queues, s), ..v1 },
                        Ok(seq![ChangeEvent::QueuesReplaced]),
                    ),
                    None => (v1, Err(InboundError::Protocol(ProtocolError::Malformed))),
                },
                Some(_) => (v1, Ok(Seq::empty())),
            }
        },
        Some(InboundView::Notifications(ns)) => (
            SessionView { queues: after_notifications(v.queues, ns), ..v },
            Ok(notification_events(ns)),
        ),
    }
}

proof fn lemma_notifications_keyed(m: Map<u64, QueueView>, ns: Seq<NotificationView>)
    requires
        keyed_by_id(m),
    ensures
        keyed_by_id(after_notifications(m, ns)),
    decreases ns.len(),
{
    if ns.len() > 0 {
        lemma_notifications_keyed(m, ns.drop_last());
    }
}

/// A client session: its lifecycle phase, its pending requests and its
/// mirror of the server's queues.
pub struct Session {
    phase: Phase,
    correlator: Correlator,
    mirror: Mirror,
    last_inbound: u64,
    retry_at: u64,
    silence_ms: u64,
    backoff_ms: u64,
}

impl View for Session {
    type V = SessionView;

    closed spec fn view(&self) -> SessionView {
        SessionView {
            phase: self.phase,
            next_id: self.correlator@.next,
            pending: self.correlator@.pending,
            queues: self.mirror@,
            last_inbound: self.last_inbound,
            retry_at: self.retry_at,
            silence_ms: self.silence_ms,
            backoff_ms: self.backoff_ms,
        }
    }
}

impl Session {
    /// A disconnected session with no queues and no pending requests, which
    /// drops a connection silent for longer than `silence_ms` and waits
    /// `backoff_ms` before negotiating again.
    pub fn new(silence_ms: u64, backoff_ms: u64) -> (r: Session)
        ensures
            r@ == (SessionView {
                phase: Phase::Disconnected,
                next_id: 0,
                pending: Map::empty(),
                queues: Map::empty(),
                last_inbound: 0,
                retry_at: 0,
                silence_ms,
                backoff_ms,
            }),
            session_ok(r@),
    {
        Session {
            phase: Phase::Disconnected,
            correlator: Correlator::new(),
            mirror: Mirror::new(),
            last_inbound: 0,
            retry_at: 0,
            silence_ms,
            backoff_ms,
        }
    }

    /// The lifecycle phase.
    pub fn phase(&self) -> (r: Phase)
        ensures
            r == self@.phase,
    {
        self.phase
    }

    /// The mirrored queues.
    pub fn mirror(&self) -> (r: &Mirror)
        ensures
            r@ == self@.queues,
    {
        &self.mirror
    }

    /// How many requests await their response.
    pub fn pending_count(&self) -> (r: usize)
        ensures
            r == self@.pending.dom().len(),
    {
        self.correlator.pending_count()
    }

    /// Empties the pending table and moves to `phase`.
    fn drop_connection(&mut self, phase: Phase) -> (r: Vec<(u64, RequestType)>)
        requires
            session_ok(old(self)@),
        ensures
            lists_table(old(self)@.pending, r@),
            final(self)@ == (SessionView { phase, pending: Map::empty(), ..old(self)@ }),
            session_ok(final(self)@),
    {
        let failed = self.correlator.drain_all();
        self.phase = phase;
        failed
    }

    /// Starts the session: a disconnected session begins negotiating, and
    /// the caller is told to perform the handshake.
    pub fn start(&mut self) -> (r: bool)
        ensures
            r == (old(self)@.phase == Phase::Disconnected),
            final(self)@ == (if r {
                SessionView { phase: Phase::Negotiating, ..old(self)@ }
            } else {
                old(self)@
            }),
    {
        if self.phase == Phase::Disconnected {
            self.phase = Phase::Negotiating;
            true
        } else {
            false
        }
    }

    /// The handshake and the socket connect both succeeded at `now`: the
    /// session is connected and the caller starts the read and heartbeat loops.
    pub fn connected(&mut self, now: u64) -> (r: bool)
        ensures
            r == (old(self)@.phase == Phase::Negotiating),
            final(self)@ == (if r {
                SessionView { phase: Phase::Connected, last_inbound: now, ..old(self)@ }
            } else {
                old(self)@
            }),
    {
        if self.phase == Phase::Negotiating {
            self.phase = Phase::Connected;
            self.last_inbound = now;
            true
        } else {
            false
        }
    }

    /// The handshake or the socket connect failed at `now`: negotiation is
    /// tried again after the backoff.
    pub fn connect_failed(&mut self, now: u64) -> (r: bool)
        ensures
            r == (old(self)@.phase == Phase::Negotiating),
            final(self)@ == (if r {
                SessionView {
                    phase: Phase::ReconnectPending,
                    retry_at: now.saturating_add(old(self)@.backoff_ms),
                    ..old(self)@
                }
            } else {
                old(self)@
            }),
    {
        if self.phase == Phase::Negotiating {
            self.phase = Phase::ReconnectPending;
            self.retry_at = now.saturating_add(self.backoff_ms);
            true
        } else {
            false
        }
    }

    /// A send or a receive on the socket failed at `now`: a connected
    /// session drops the connection, and the requests it hands back fail.
    pub fn connection_lost(&mut self, now: u64) -> (r: Vec<(u64, RequestType)>)
        requires
            session_ok(old(self)@),
        ensures
            session_ok(final(self)@),
            drained_on_leave(old(self)@, final(self)@, r@),
            final(self)@ == (if old(self)@.phase == Phase::Connected {
                after_drop(old(self)@, now)
            } else {
                old(self)@
            }),
    {
        if self.phase == Phase::Connected {
            let failed = self.drop_connection(Phase::ReconnectPending);
            self.retry_at = now.saturating_add(self.backoff_ms);
            failed
        } else {
            Vec::new()
        }
    }

    /// The caller asks for a fresh connection at `now` (after a change of
    /// settings): a connected session drops its connection and may negotiate
    /// at once; a disconnected one starts negotiating.
    pub fn request_reconnect(&mut self, now: u64) -> (r: Vec<(u64, RequestType)>)
        requires
            session_ok(old(self)@),
        ensures
            session_ok(final(self)@),
            drained_on_leave(old(self)@, final(self)@, r@),
            final(self)@ == (match old(self)@.phase {
                Phase::Connected => SessionView {
                    phase: Phase::ReconnectPending,
                    pending: Map::empty(),
                    retry_at: now,
                    ..old(self)@
                },
                Phase::ReconnectPending => SessionView { retry_at: now, ..old(self)@ },
                Phase::Disconnected => SessionView { phase: Phase::Negotiating, ..old(self)@ },
                _ => old(self)@,
            }),
    {
        match self.phase {
            Phase::Connected => {
                let failed = self.drop_connection(Phase::ReconnectPending);
                self.retry_at = now;
                failed
            },
            Phase::ReconnectPending => {
                self.retry_at = now;
                Vec::new()
            },
            Phase::Disconnected => {
                self.phase = Phase::Negotiating;
                Vec::new()
            },
            _ => Vec::new(),
        }
    }

    /// The clock reads `now`. A connected session silent for longer than
    /// its threshold drops the connection; a pending reconnect whose backoff
    /// is over starts negotiating, and the caller performs the handshake.
    pub fn tick(&mut self, now: u64) -> (r: Vec<(u64, RequestType)>)
        requires
            session_ok(old(self)@),
        ensures
            session_ok(final(self)@),
            drained_on_leave(old(self)@, final(self)@, r@),
            final(self)@ == (match old(self)@.phase {
                Phase::Connected => if silent_too_long(old(self)@.last_inbound, now, old(self)@.silence_ms) {
                    after_drop(old(self)@, now)
                } else {
                    old(self)@
                },
                Phase::ReconnectPending => if now >= old(self)@.retry_at {
                    SessionView { phase: Phase::Negotiating, ..old(self)@ }
                } else {
                    old(self)@
                },
                _ => old(self)@,
            }),
    {
        match self.phase {
            Phase::Connected => {
                if now > self.last_inbound && now - self.last_inbound > self.silence_ms {
                    let failed = self.drop_connection(Phase::ReconnectPending);
                    self.retry_at = now.saturating_add(self.backoff_ms);
                    failed
                } else {
                    Vec::new()
                }
            },
            Phase::ReconnectPending => {
                if now >= self.retry_at {
                    self.phase = Phase::Negotiating;
                }
                Vec::new()
            },
            _ => Vec::new(),
        }
    }

    /// Shuts the session down for good; every pending request fails.
    pub fn shutdown(&mut self) -> (r: Vec<(u64, RequestType)>)
        requires
            session_ok(old(self)@),
        ensures
            session_ok(final(self)@),
            lists_table(old(self)@.pending, r@),
            drained_on_leave(old(self)@, final(self)@, r@),
            final(self)@ == (SessionView { phase: Phase::Stopped, pending: Map::empty(), ..old(self)@ }),
    {
        let failed = self.drop_connection(Phase::Stopped);
        proof {
            if failed@.len() > 0 {
                assert(old(self)@.pending.contains_key(failed@[0].0));
            }
        }
        failed
    }

    /// Sends a command: allocates its request id, records it as pending and
    /// hands back the frame for the transport.
    pub fn issue(&mut self, cmd: &Command) -> (r: Result<String, CommandSendFailure>)
        requires
            session_ok(old(self)@),
        ensures
            session_ok(final(self)@),
            match r {
                Ok(frame) => old(self)@.phase == Phase::Connected && old(self)@.next_id < u64::MAX
                    && frame@ == command_frame(old(self)@.next_id, *cmd)
                    && final(self)@ == (SessionView {
                        next_id: (old(self)@.next_id + 1) as u64,
                        pending: old(self)@.pending.insert(old(self)@.next_id, request_type_of(*cmd)),
                        ..old(self)@
                    }),
                Err(e) => final(self)@ == old(self)@ && if old(self)@.phase != Phase::Connected {
                    e == CommandSendFailure::NotConnected
                } else {
                    old(self)@.next_id == u64::MAX && e == CommandSendFailure::IdsExhausted
                },
            },
    {
        if self.phase != Phase::Connected {
            return Err(CommandSendFailure::NotConnected);
        }
        if !self.correlator.has_ids_left() {
            return Err(CommandSendFailure::IdsExhausted);
        }
        let id = self.correlator.next_id();
        let registered = self.correlator.register(id, cmd.request_type());
        // Every pending id lies below the fresh one, so it cannot be a duplicate.
        assert(registered is Ok);
        Ok(encode_command(id, cmd))
    }

    /// Any inbound frame arrived at `now`: the keep-alive deadline of a
    /// connected session restarts.
    pub fn inbound_observed(&mut self, now: u64) -> (r: bool)
        ensures
            r == (old(self)@.phase == Phase::Connected),
            final(self)@ == (if r {
                SessionView { last_inbound: now, ..old(self)@ }
            } else {
                old(self)@
            }),
    {
        if self.phase == Phase::Connected {
            self.last_inbound = now;
            true
        } else {
            false
        }
    }

    fn apply_notifications(&mut self, notes: Vec<Notification>) -> (r: Vec<ChangeEvent>)
        requires
            session_ok(old(self)@),
        ensures
            session_ok(final(self)@),
            final(self)@ == (SessionView {
                queues: after_notifications(old(self)@.queues, notifications_view(notes@)),
                ..old(self)@
            }),
            r@ == notification_events(notifications_view(notes@)),
    {
        let ghost s = notes@;
        let ghost v0 = self@;
        let mut events: Vec<ChangeEvent> = Vec::new();
        proof {
            assert(notifications_view(s.take(0)) =~= Seq::<NotificationView>::empty());
        }
        for n in it: notes.into_iter()
            invariant
                it.seq() == s,
                session_ok(v0),
                session_ok(self@),
                self@ == (SessionView {
                    queues: after_notifications(v0.queues, notifications_view(s.take(it.index() as int))),
                    ..v0
                }),
                events@ == notification_events(notifications_view(s.take(it.index() as int))),
        {
            let ghost i = it.index();
            proof {
                assert(notifications_view(s.take(i + 1)).drop_last() =~= notifications_view(s.take(i as int)));
                assert(notifications_view(s.take(i + 1)).last() == n@);
            }
            match n {
                Notification::QueueChanged(q) => {
                    let e = self.mirror.apply_upsert(q);
                    events.push(e);
                },
                Notification::Nag => {
                    events.push(ChangeEvent::Attention);
                },
                _ => {},
            }
            proof {
                assert(events@ =~= notification_events(notifications_view(s.take(i + 1))));
            }
        }
        proof {
            assert(s.take(s.len() as int) =~= s);
        }
        events
    }

    /// Applies one parsed inbound frame: a response resolves its pending
    /// request (a ListQueues response replaces the mirror), an envelope's
    /// notifications update the mirror in order. A frame that does not have
    /// the protocol's shape changes nothing.
    pub fn apply_frame(&mut self, j: &Json) -> (r: Result<Vec<ChangeEvent>, InboundError>)
        requires
            session_ok(old(self)@),
        ensures
            session_ok(final(self)@),
            (final(self)@, events_view(r)) == frame_effect(old(self)@, *j),
    {
        match decode_inbound(j) {
            Err(e) => Err(InboundError::Protocol(e)),
            Ok(Inbound::Ignored) => Ok(Vec::new()),
            Ok(Inbound::Response { id }) => {
                let kind = self.correlator.resolve(id);
                proof {
                    assert forall|k: u64| #[trigger] self@.pending.contains_key(k) implies k < self@.next_id by {
                        assert(old(self)@.pending.contains_key(k));
                    }
                    if self@.phase != Phase::Connected {
                        assert(self@.pending =~= Map::<u64, RequestType>::empty());
                    }
                }
                match kind {
                    None => Err(InboundError::CorrelationMiss(id)),
                    Some(RequestType::ListQueues) => match queues_from_response(j) {
                        Some(queues) => {
                            let e = self.mirror.apply_snapshot(queues);
                            let mut events: Vec<ChangeEvent> = Vec::new();
                            events.push(e);
                            assert(events@ =~= seq![ChangeEvent::QueuesReplaced]);
                            Ok(events)
                        },
                        None => Err(InboundError::Protocol(ProtocolError::Malformed)),
                    },
                    Some(_) => Ok(Vec::new()),
                }
            },
            Ok(Inbound::Notifications(notes)) => {
                proof {
                    lemma_notifications_keyed(self@.queues, notifications_view(notes@));
                }
                Ok(self.apply_notifications(notes))
            },
        }
    }

    /// Handles one inbound text frame received at `now`: restarts the
    /// keep-alive deadline, then parses and applies the frame.
    pub fn receive_text(&mut self, text: &str, now: u64) -> (r: Result<Vec<ChangeEvent>, InboundError>)
        requires
            session_ok(old(self)@),
        ensures
            session_ok(final(self)@),
            ({
                let seen = if old(self)@.phase == Phase::Connected {
                    SessionView { last_inbound: now, ..old(self)@ }
                } else {
                    old(self)@
                };
                match parsed_json(text@) {
                    Some(j) => (final(self)@, events_view(r)) == frame_effect(seen, j),
                    None => final(self)@ == seen
                        && r == Err::<Vec<ChangeEvent>, InboundError>(InboundError::Protocol(ProtocolError::NotJson)),
                }
            }),
    {
        self.inbound_observed(now);
        match parse_json(text) {
            Some(j) => self.apply_frame(&j),
            None => Err(InboundError::Protocol(ProtocolError::NotJson)),
        }
    }

    /// Handles one inbound frame received at `now`. Every frame restarts the
    /// keep-alive deadline; a text frame is then parsed and applied, a ping
    /// acknowledgment does nothing more, and a frame of any other kind is
    /// dropped as a protocol error.
    pub fn receive_frame(&mut self, frame: InboundFrame, now: u64) -> (r: Result<Vec<ChangeEvent>, InboundError>)
        requires
            session_ok(old(self)@),
        ensures
            session_ok(final(self)@),
            ({
                let seen = if old(self)@.phase == Phase::Connected {
                    SessionView { last_inbound: now, ..old(self)@ }
                } else {
                    old(self)@
                };
                match frame {
                    InboundFrame::Text(text) => match parsed_json(text@) {
                        Some(j) => (final(self)@, events_view(r)) == frame_effect(seen, j),
                        None => final(self)@ == seen
                            && r == Err::<Vec<ChangeEvent>, InboundError>(InboundError::Protocol(ProtocolError::NotJson)),
                    },
                    InboundFrame::PingAck => final(self)@ == seen && events_view(r) == Ok::<Seq<ChangeEvent>, InboundError>(Seq::empty()),
                    InboundFrame::Other => final(self)@ == seen
                        && r == Err::<Vec<ChangeEvent>, InboundError>(InboundError::Protocol(ProtocolError::UnexpectedKind)),
                }
            }),
    {
        match frame {
            InboundFrame::Text(text) => self.receive_text(text.as_str(), now),
            InboundFrame::PingAck => {
                self.inbound_observed(now);
                Ok(Vec::new())
            },
            InboundFrame::Other => {
                self.inbound_observed(now);
                Err(InboundError::Protocol(ProtocolError::UnexpectedKind))
            },
        }
    }
}

} // verus!
