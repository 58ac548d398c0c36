//! The authority as a state machine over mathematical values.
//!
//! A [`State`] holds the two registries as maps. [`step`] says, for a state,
//! an event and the instant at which the event is handled, what the next
//! state is and what is written to whom. The executable authority is proved
//! to compute exactly this function.

use vstd::prelude::*;
use vstd::utf8::{decode_utf8, valid_utf8};
use crate::address::{Address, IpAddress};
use crate::command::{argument, lookup, nick_change, Command};
use crate::notice::NoticeView;
use crate::session::{Config, SessionView};

verus! {

/// All that the authority owns.
pub struct State {
    /// The live sessions.
    pub sessions: Map<Address, SessionView>,
    /// For each banned host, the instant at which its ban began.
    pub bans: Map<IpAddress, u128>,
    /// The shared secret.
    pub token: Seq<char>,
    /// The limits in force.
    pub config: Config,
}

/// What the authority is told.
pub enum Input {
    /// A connection from `address` was accepted.
    Connected { address: Address },
    /// The connection from `address` has ended.
    Disconnected { address: Address },
    /// One frame of bytes arrived from `address`.
    Inbound { address: Address, bytes: Seq<u8> },
}

impl Input {
    /// The endpoint that the event is about.
    pub open spec fn address(self) -> Address {
        match self {
            Input::Connected { address } => address,
            Input::Disconnected { address } => address,
            Input::Inbound { address, .. } => address,
        }
    }
}

/// What the caller is to do after an event.
pub enum Effect {
    /// Nothing is written.
    Silent,
    /// The host of the connection is banned for another `remaining`
    /// nanoseconds: it is told so and the connection is shut down.
    Refused { remaining: int },
    /// `notice` is written to the sender. If `close`, the sender's
    /// connection is then shut down.
    Reply { notice: NoticeView, close: bool },
    /// `bytes` are written, as they came, to each of `to`.
    Relay { to: Set<Address>, bytes: Seq<u8> },
    /// The server ends.
    Exit,
}

/// The result of one transition.
pub struct Step {
    pub state: State,
    pub effect: Effect,
}

/// Whether a session with `strikes` violations may live under `limit`.
pub open spec fn tolerated(strikes: u32, limit: u32) -> bool {
    strikes == 0 || strikes < limit
}

impl State {
    /// The state of an authority that has seen no event.
    pub open spec fn initial(token: Seq<char>, config: Config) -> State {
        State { sessions: Map::empty(), bans: Map::empty(), token, config }
    }

    /// Both registries are finite, and no session has reached the strike
    /// limit.
    pub open spec fn valid(self) -> bool {
        &&& self.sessions.dom().finite()
        &&& self.bans.dom().finite()
        &&& forall|a: Address| #[trigger]
            self.sessions.contains_key(a) ==> tolerated(
                self.sessions[a].strike_count,
                self.config.strike_limit,
            )
    }

    /// Whether a ban of `ip` is on record that has not run out at `now`.
    pub open spec fn banned(self, ip: IpAddress, now: u128) -> bool {
        self.bans.contains_key(ip) && now - self.bans[ip] < self.config.ban_limit
    }

    /// The authenticated sessions other than `sender`: those that a frame
    /// of `sender` is relayed to.
    pub open spec fn peers(self, sender: Address) -> Set<Address> {
        Set::new(
            |a: Address| a != sender && self.sessions.contains_key(a) && self.sessions[a].authenticated,
        )
    }

    /// Whether `text` authenticates a session: it is the token itself, or
    /// `/auth` followed by the token.
    pub open spec fn admits(self, text: Seq<char>) -> bool {
        text == self.token || (lookup(text) == Some(Command::Auth) && argument(text, Command::Auth)
            == self.token)
    }

    /// This state with `session` under `address`.
    pub open spec fn with_session(self, address: Address, session: SessionView) -> State {
        State { sessions: self.sessions.insert(address, session), ..self }
    }

    /// This state without a session under `address`.
    pub open spec fn without_session(self, address: Address) -> State {
        State { sessions: self.sessions.remove(address), ..self }
    }
}

/// A connection from `address` is accepted at `now`. While a ban of its
/// host runs, the connection is refused and nothing changes. Else a fresh
/// session is registered, and a ban that has run out is forgotten.
pub open spec fn connect(s: State, address: Address, now: u128) -> Step {
    let ip = address.host();
    if s.banned(ip, now) {
        Step {
            state: s,
            effect: Effect::Refused { remaining: s.config.ban_limit - (now - s.bans[ip]) },
        }
    } else {
        Step {
            state: State {
                sessions: s.sessions.insert(address, SessionView::fresh(now)),
                bans: s.bans.remove(ip),
                ..s
            },
            effect: Effect::Silent,
        }
    }
}

/// The connection from `address` has ended: its session, if any, is
/// removed.
pub open spec fn disconnect(s: State, address: Address) -> Step {
    Step { state: s.without_session(address), effect: Effect::Silent }
}

/// `session`, the session of `address`, has committed a violation at `now`.
/// One strike is added. At the strike limit the host is banned from `now`
/// and the session ends.
pub open spec fn strike(s: State, address: Address, session: SessionView, now: u128) -> Step {
    if session.strike_count + 1 >= s.config.strike_limit {
        Step {
            state: State {
                sessions: s.sessions.remove(address),
                bans: s.bans.insert(address.host(), now),
                ..s
            },
            effect: Effect::Reply { notice: NoticeView::Banned, close: true },
        }
    } else {
        Step {
            state: s.with_session(
                address,
                SessionView { strike_count: (session.strike_count + 1) as u32, ..session },
            ),
            effect: Effect::Silent,
        }
    }
}

/// A session that is not authenticated has sent `text`. The token admits
/// it. A command other than `/auth` is refused. Anything else ends the
/// session.
pub open spec fn authenticate(s: State, address: Address, session: SessionView, text: Seq<char>) -> Step {
    if s.admits(text) {
        Step {
            state: s.with_session(address, SessionView { authenticated: true, ..session }),
            effect: Effect::Reply { notice: NoticeView::Welcome, close: false },
        }
    } else if lookup(text) is Some && lookup(text) != Some(Command::Auth) {
        Step {
            state: s.with_session(address, session),
            effect: Effect::Reply { notice: NoticeView::Unauthorized, close: false },
        }
    } else {
        Step {
            state: s.without_session(address),
            effect: Effect::Reply { notice: NoticeView::InvalidToken, close: true },
        }
    }
}

/// An authenticated session asks for the nickname in `prompt`.
pub open spec fn rename(s: State, address: Address, session: SessionView, prompt: Seq<char>) -> Step {
    let (nickname, notice) = nick_change(session.nickname, prompt);
    Step {
        state: s.with_session(address, SessionView { nickname, ..session }),
        effect: Effect::Reply { notice, close: false },
    }
}

/// An authenticated session has sent `bytes`, which decode to `text`. A
/// command is carried out. Anything else is relayed to the session's
/// peers.
pub open spec fn dispatch(
    s: State,
    address: Address,
    session: SessionView,
    text: Seq<char>,
    bytes: Seq<u8>,
) -> Step {
    match lookup(text) {
        Some(Command::Auth) => Step {
            state: s.with_session(address, session),
            effect: Effect::Reply { notice: NoticeView::AlreadyAuthorized, close: false },
        },
        Some(Command::Quit) => Step { state: s.with_session(address, session), effect: Effect::Exit },
        Some(Command::Help) => Step {
            state: s.with_session(address, session),
            effect: Effect::Reply { notice: NoticeView::Help, close: false },
        },
        Some(Command::Nick) => rename(s, address, session, argument(text, Command::Nick)),
        None => Step {
            state: s.with_session(address, session),
            effect: Effect::Relay { to: s.peers(address), bytes },
        },
    }
}

/// A frame of `bytes` from `address` is handled at `now`. Without a session
/// nothing happens. A frame that comes sooner than the message rate allows
/// after the last one that passed is a violation and is not read. A frame
/// that passes resets the clock of the session; if it is not UTF-8 it is a
/// violation, else it is read as text.
pub open spec fn inbound(s: State, address: Address, bytes: Seq<u8>, now: u128) -> Step {
    if !s.sessions.contains_key(address) {
        Step { state: s, effect: Effect::Silent }
    } else {
        let session = s.sessions[address];
        if now - session.last_message_at < s.config.message_rate {
            strike(s, address, session, now)
        } else {
            let session = SessionView { last_message_at: now, ..session };
            if !valid_utf8(bytes) {
                strike(s, address, session, now)
            } else if session.authenticated {
                dispatch(s, address, session, decode_utf8(bytes), bytes)
            } else {
                authenticate(s, address, session, decode_utf8(bytes))
            }
        }
    }
}

/// The transition for `input`, handled at `now`.
pub open spec fn step(s: State, input: Input, now: u128) -> Step {
    match input {
        Input::Connected { address } => connect(s, address, now),
        Input::Disconnected { address } => disconnect(s, address),
        Input::Inbound { address, bytes } => inbound(s, address, bytes, now),
    }
}

/// Whether `now` is no earlier than the instant that `input` is measured
/// against: the start of the ban of the connecting host, or the last frame
/// of the sending session that passed the rate check.
pub open spec fn timely(s: State, input: Input, now: u128) -> bool {
    match input {
        Input::Connected { address } => s.bans.contains_key(address.host()) ==> s.bans[address.host()]
            <= now,
        Input::Disconnected { .. } => true,
        Input::Inbound { address, .. } => s.sessions.contains_key(address)
            ==> s.sessions[address].last_message_at <= now,
    }
}

/// An event with the instant at which it is handled.
pub struct Timed {
    pub input: Input,
    pub at: u128,
}

/// The state after `events` were handled in order from state `s`.
pub open spec fn run(s: State, events: Seq<Timed>) -> State
    decreases events.len(),
{
    if events.len() == 0 {
        s
    } else {
        step(run(s, events.drop_last()), events.last().input, events.last().at).state
    }
}

/// What handling `events[i]` has the caller do, when `events` are handled
/// in order from state `s`.
pub open spec fn effect_at(s: State, events: Seq<Timed>, i: int) -> Effect {
    step(run(s, events.take(i)), events[i].input, events[i].at).effect
}

} // verus!
