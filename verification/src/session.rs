//! What the authority keeps for one live connection, and the limits that it
//! enforces.
//!
//! Instants and spans of time are counts of nanoseconds. An instant counts
//! from an epoch that the caller chooses and keeps.

use vstd::prelude::*;
use vstd::string::*;

verus! {

/// How long a ban lasts: ten minutes.
pub const BAN_LIMIT: u128 = 600_000_000_000;

/// The least span between two frames of one session: one second.
pub const MESSAGE_RATE: u128 = 1_000_000_000;

/// How many violations a session may commit before its host is banned.
pub const STRIKE_LIMIT: u32 = 10;

/// The limits that an authority enforces.
#[derive(Clone, Copy, Debug, PartialEq, Eq, Structural)]
pub struct Config {
    /// How long a ban lasts.
    pub ban_limit: u128,
    /// The least span between two frames of one session.
    pub message_rate: u128,
    /// The number of violations at which a session ends in a ban.
    pub strike_limit: u32,
}

impl Config {
    /// The usual limits: `BAN_LIMIT`, `MESSAGE_RATE` and `STRIKE_LIMIT`.
    pub fn standard() -> (config: Config)
        ensures
            config == (Config {
                ban_limit: BAN_LIMIT,
                message_rate: MESSAGE_RATE,
                strike_limit: STRIKE_LIMIT,
            }),
    {
        Config { ban_limit: BAN_LIMIT, message_rate: MESSAGE_RATE, strike_limit: STRIKE_LIMIT }
    }
}

/// The nickname of a session that has not chosen one.
pub open spec fn default_nickname() -> Seq<char> {
    "anon"@
}

/// The state of one live connection.
#[derive(Clone, Debug, PartialEq, Eq)]
pub struct Session {
    /// When the last frame that passed the rate check arrived.
    pub last_message_at: u128,
    /// The violations counted so far. It never decreases.
    pub strike_count: u32,
    /// Whether the session has supplied the token.
    pub authenticated: bool,
    /// The display name.
    pub nickname: String,
}

/// A session as a mathematical value.
pub struct SessionView {
    pub last_message_at: u128,
    pub strike_count: u32,
    pub authenticated: bool,
    pub nickname: Seq<char>,
}

impl SessionView {
    /// The session of a connection that was accepted at `now`.
    pub open spec fn fresh(now: u128) -> SessionView {
        SessionView {
            last_message_at: now,
            strike_count: 0,
            authenticated: false,
            nickname: default_nickname(),
        }
    }
}

impl View for Session {
    type V = SessionView;

    open spec fn view(&self) -> SessionView {
        SessionView {
            last_message_at: self.last_message_at,
            strike_count: self.strike_count,
            authenticated: self.authenticated,
            nickname: self.nickname@,
        }
    }
}

impl Session {
    /// The session of a connection that was accepted at `now`: not
    /// authenticated, without strikes, under the default nickname.
    pub fn new(now: u128) -> (session: Session)
        ensures
            session@ == SessionView::fresh(now),
    {
        let nickname = String::from_str("anon");
        Session { last_message_at: now, strike_count: 0, authenticated: false, nickname }
    }
}

} // verus!
