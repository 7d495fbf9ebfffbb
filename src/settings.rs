//! The user's settings: the identity presented to the server, and the
//! submission of changed settings, which forces a fresh connection.
use vstd::prelude::*;
use crate::protocol::RequestType;
use crate::session::{Phase, Session, SessionView, drained_on_leave, session_ok};

verus! {

/// The look of the user interface.
#[derive(Debug, Clone, Copy, PartialEq, Eq, Structural)]
pub enum Theme {
    Win98,
    ClassicQ3,
    Modern,
}

/// What the user configures: who they are, their groups and the theme.
#[derive(Debug, Clone, PartialEq, Eq)]
pub struct Settings {
    pub email: String,
    pub full_name: String,
    pub username: String,
    pub groups: Vec<String>,
    pub theme: Theme,
}

/// The identity header sent with the handshake and the socket upgrade.
pub open spec fn user_header_text(username: Seq<char>, full_name: Seq<char>, email: Seq<char>) -> Seq<char> {
    username + ";"@ + full_name + ";"@ + email
}

impl Settings {
    /// The identity header: user name, full name and email, joined by `;`.
    pub fn user_header(&self) -> (r: String)
        ensures
            r@ == user_header_text(self.username@, self.full_name@, self.email@),
    {
        let mut out = String::new();
        out.append(self.username.as_str());
        out.append(";");
        out.append(self.full_name.as_str());
        out.append(";");
        out.append(self.email.as_str());
        assert(out@ =~= user_header_text(self.username@, self.full_name@, self.email@));
        out
    }
}

/// A settings form being edited, holding the settings it will submit.
pub struct SettingsApp {
    pub settings: Settings,
}

impl SettingsApp {
    pub fn new(settings: Settings) -> (r: Self)
        ensures
            r.settings == settings,
    {
        Self { settings }
    }

    /// The form was submitted at `now`: the session drops its connection so
    /// that the next handshake presents the new identity. The requests that
    /// were pending fail.
    pub fn on_submit(&self, session: &mut Session, now: u64) -> (r: Vec<(u64, RequestType)>)
        requires
            session_ok(old(session)@),
        ensures
            session_ok(final(session)@),
            drained_on_leave(old(session)@, final(session)@, r@),
            final(session)@ == (match old(session)@.phase {
                Phase::Connected => SessionView {
                    phase: Phase::ReconnectPending,
                    pending: Map::empty(),
                    retry_at: now,
                    ..old(session)@
                },
                Phase::ReconnectPending => SessionView { retry_at: now, ..old(session)@ },
                Phase::Disconnected => SessionView { phase: Phase::Negotiating, ..old(session)@ },
                _ => old(session)@,
            }),
    {
        session.request_reconnect(now)
    }
}

} // verus!
