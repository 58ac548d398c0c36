//! The session authority: the one owner of the client registry and the ban
//! registry.
//!
//! The authority handles one event to completion before the next. It does
//! no I/O and reads no clock: the caller hands it each event with the
//! instant at which it is handled, and carries out the [`Outcome`].

use vstd::prelude::*;
use vstd::string::*;
use crate::address::{Address, IpAddress};
use crate::command::{parse, set_nick_command, Command};
use crate::model::{
    authenticate, connect, disconnect, dispatch, inbound, step, strike, timely, tolerated, Effect,
    Input, State,
};
use crate::notice::Notice;
use crate::registry::{BanRegistry, ClientRegistry};
use crate::session::{Config, Session};
use crate::text::{decode, same_text};

verus! {

/// What the authority is told.
#[derive(Clone, Debug, PartialEq, Eq)]
pub enum Event {
    /// A connection from `address` was accepted.
    Connected { address: Address },
    /// The connection from `address` has ended.
    Disconnected { address: Address },
    /// One frame of bytes arrived from `address`.
    Inbound { address: Address, bytes: Vec<u8> },
}

impl View for Event {
    type V = Input;

    open spec fn view(&self) -> Input {
        match self {
            Event::Connected { address } => Input::Connected { address: *address },
            Event::Disconnected { address } => Input::Disconnected { address: *address },
            Event::Inbound { address, bytes } => Input::Inbound { address: *address, bytes: bytes@ },
        }
    }
}

/// What the caller is to do after an event.
#[derive(Clone, Debug, PartialEq, Eq)]
pub enum Outcome {
    /// Nothing is written.
    Silent,
    /// The host of the connection is banned for another `remaining`
    /// nanoseconds: the caller tells it so and shuts the connection down.
    Refused { remaining: u128 },
    /// `notice` is written to the sender. If `close`, the sender's
    /// connection is then shut down in both directions.
    Reply { notice: Notice, close: bool },
    /// `bytes` are written, as they came, to each of `to`.
    Relay { to: Vec<Address>, bytes: Vec<u8> },
    /// The server ends at once, with the status `QUIT_STATUS`.
    Exit,
}

impl View for Outcome {
    type V = Effect;

    open spec fn view(&self) -> Effect {
        match self {
            Outcome::Silent => Effect::Silent,
            Outcome::Refused { remaining } => Effect::Refused { remaining: *remaining as int },
            Outcome::Reply { notice, close } => Effect::Reply { notice: notice@, close: *close },
            Outcome::Relay { to, bytes } => Effect::Relay { to: to@.to_set(), bytes: bytes@ },
            Outcome::Exit => Effect::Exit,
        }
    }
}

impl Outcome {
    /// No recipient of a relayed frame is listed twice.
    pub open spec fn distinct(&self) -> bool {
        self matches Outcome::Relay { to, .. } ==> to@.no_duplicates()
    }
}

/// The session authority.
pub struct Authority {
    clients: ClientRegistry,
    bans: BanRegistry,
    token: String,
    config: Config,
}

impl Authority {
    /// The authority as a state of the model.
    pub closed spec fn view(&self) -> State {
        State {
            sessions: self.clients@,
            bans: self.bans@,
            token: self.token@,
            config: self.config,
        }
    }

    /// The registries are well-formed and the state is valid.
    pub closed spec fn inv(&self) -> bool {
        &&& self.clients.inv()
        &&& self.bans.inv()
        &&& self@.valid()
    }

    /// A well-formed authority is in a valid state.
    pub proof fn lemma_valid(&self)
        requires
            self.inv(),
        ensures
            self@.valid(),
    {
    }

    /// An authority that knows `token` as the shared secret, enforces
    /// `config`, and has neither sessions nor bans.
    pub fn new(token: String, config: Config) -> (authority: Authority)
        ensures
            authority.inv(),
            authority@ == State::initial(token@, config),
    {
        Authority { clients: ClientRegistry::new(), bans: BanRegistry::new(), token, config }
    }

    /// The shared secret.
    pub fn token(&self) -> (token: &str)
        ensures
            token@ == self@.token,
    {
        self.token.as_str()
    }

    /// The limits in force.
    pub fn config(&self) -> (config: Config)
        ensures
            config == self@.config,
    {
        self.config
    }

    /// The session of `address`, if it has one.
    pub fn session(&self, address: &Address) -> (found: Option<&Session>)
        requires
            self.inv(),
        ensures
            found is Some <==> self@.sessions.contains_key(*address),
            found matches Some(session) ==> session@ == self@.sessions[*address],
    {
        self.clients.get(address)
    }

    /// The number of live sessions.
    pub fn session_count(&self) -> (n: usize)
        requires
            self.inv(),
        ensures
            n == self@.sessions.len(),
    {
        self.clients.len()
    }

    /// The instant at which the ban of `ip` began, if one is on record,
    /// whether it has run out or not.
    pub fn banned_at(&self, ip: &IpAddress) -> (found: Option<u128>)
        requires
            self.inv(),
        ensures
            found is Some <==> self@.bans.contains_key(*ip),
            found matches Some(at) ==> at == self@.bans[*ip],
    {
        self.bans.get(ip)
    }

    /// Whether a ban of `ip` is on record that has not run out at `now`.
    pub fn is_banned(&self, ip: &IpAddress, now: u128) -> (banned: bool)
        requires
            self.inv(),
        ensures
            banned == self@.banned(*ip, now),
    {
        match self.bans.get(ip) {
            Some(banned_at) => now < banned_at || now - banned_at < self.config.ban_limit,
            None => false,
        }
    }

    /// The number of bans on record.
    pub fn ban_count(&self) -> (n: usize)
        requires
            self.inv(),
        ensures
            n == self@.bans.len(),
    {
        self.bans.len()
    }

    /// Whether `event` can be handled at `now`: whether `now` is no
    /// earlier than the instant that the event is measured against.
    pub fn accepts(&self, event: &Event, now: u128) -> (ok: bool)
        requires
            self.inv(),
        ensures
            ok == timely(self@, event@, now),
    {
        match event {
            Event::Connected { address } => {
                match self.bans.get(&address.ip()) {
                    Some(banned_at) => banned_at <= now,
                    None => true,
                }
            },
            Event::Disconnected { .. } => true,
            Event::Inbound { address, .. } => {
                match self.clients.get(address) {
                    Some(session) => session.last_message_at <= now,
                    None => true,
                }
            },
        }
    }

    /// Handles the acceptance of a connection from `address` at `now`.
    pub fn connect(&mut self, address: Address, now: u128) -> (outcome: Outcome)
        requires
            old(self).inv(),
            timely(old(self)@, Input::Connected { address }, now),
        ensures
            final(self).inv(),
            final(self)@ == connect(old(self)@, address, now).state,
            outcome@ == connect(old(self)@, address, now).effect,
            outcome.distinct(),
    {
        let ip = address.ip();
        if let Some(banned_at) = self.bans.get(&ip) {
            let elapsed = now - banned_at;
            if elapsed < self.config.ban_limit {
                return Outcome::Refused { remaining: self.config.ban_limit - elapsed };
            }
        }
        self.bans.remove(&ip);
        self.clients.insert(address, Session::new(now));
        Outcome::Silent
    }

    /// Handles the end of the connection from `address`.
    pub fn disconnect(&mut self, address: Address) -> (outcome: Outcome)
        requires
            old(self).inv(),
        ensures
            final(self).inv(),
            final(self)@ == disconnect(old(self)@, address).state,
            outcome@ == disconnect(old(self)@, address).effect,
            outcome.distinct(),
    {
        self.clients.remove(&address);
        Outcome::Silent
    }

    /// Counts a violation against `session`, which was taken out of the
    /// registry, and puts it back unless it has reached the limit.
    fn strike(&mut self, address: Address, session: Session, now: u128) -> (outcome: Outcome)
        requires
            old(self).inv(),
            tolerated(session.strike_count, old(self)@.config.strike_limit),
        ensures
            final(self).inv(),
            final(self)@ == strike(old(self)@, address, session@, now).state,
            outcome@ == strike(old(self)@, address, session@, now).effect,
            outcome.distinct(),
    {
        let mut session = session;
        session.strike_count = session.strike_count + 1;
        if session.strike_count >= self.config.strike_limit {
            self.clients.remove(&address);
            self.bans.insert(address.ip(), now);
            Outcome::Reply { notice: Notice::Banned, close: true }
        } else {
            self.clients.insert(address, session);
            Outcome::Silent
        }
    }

    /// Reads `text` from `session`, which is not authenticated and was
    /// taken out of the registry.
    fn authenticate(&mut self, address: Address, session: Session, text: &str) -> (outcome: Outcome)
        requires
            old(self).inv(),
            tolerated(session.strike_count, old(self)@.config.strike_limit),
        ensures
            final(self).inv(),
            final(self)@ == authenticate(old(self)@, address, session@, text@).state,
            outcome@ == authenticate(old(self)@, address, session@, text@).effect,
            outcome.distinct(),
    {
        let mut session = session;
        let parsed = parse(text);
        let admitted = same_text(text, self.token.as_str()) || match parsed {
            Some((Command::Auth, arg)) => same_text(arg, self.token.as_str()),
            _ => false,
        };
        if admitted {
            session.authenticated = true;
            self.clients.insert(address, session);
            Outcome::Reply { notice: Notice::Welcome, close: false }
        } else {
            let refused = match parsed {
                Some((Command::Auth, _)) => false,
                Some(_) => true,
                None => false,
            };
            if refused {
                self.clients.insert(address, session);
                Outcome::Reply { notice: Notice::Unauthorized, close: false }
            } else {
                self.clients.remove(&address);
                Outcome::Reply { notice: Notice::InvalidToken, close: true }
            }
        }
    }

    /// Reads `text` from `session`, which is authenticated and was taken
    /// out of the registry, and puts the session back. The outcome is
    /// `None` where the frame is to be relayed.
    fn dispatch(
        &mut self,
        address: Address,
        session: Session,
        text: &str,
        Ghost(bytes): Ghost<Seq<u8>>,
    ) -> (outcome: Option<Outcome>)
        requires
            old(self).inv(),
            tolerated(session.strike_count, old(self)@.config.strike_limit),
        ensures
            final(self).inv(),
            final(self)@ == dispatch(old(self)@, address, session@, text@, bytes).state,
            outcome is None <==> dispatch(old(self)@, address, session@, text@, bytes).effect is Relay,
            outcome matches Some(o) ==> o@ == dispatch(old(self)@, address, session@, text@, bytes).effect
                && o.distinct(),
    {
        let mut session = session;
        match parse(text) {
            Some((Command::Auth, _)) => {
                self.clients.insert(address, session);
                Some(Outcome::Reply { notice: Notice::AlreadyAuthorized, close: false })
            },
            Some((Command::Quit, _)) => {
                self.clients.insert(address, session);
                Some(Outcome::Exit)
            },
            Some((Command::Help, _)) => {
                self.clients.insert(address, session);
                Some(Outcome::Reply { notice: Notice::Help, close: false })
            },
            Some((Command::Nick, arg)) => {
                let notice = set_nick_command(arg, &mut session.nickname);
                self.clients.insert(address, session);
                Some(Outcome::Reply { notice, close: false })
            },
            None => {
                self.clients.insert(address, session);
                None
            },
        }
    }

    /// Handles a frame of `bytes` from `address` at `now`.
    pub fn inbound(&mut self, address: Address, bytes: Vec<u8>, now: u128) -> (outcome: Outcome)
        requires
            old(self).inv(),
            timely(old(self)@, Input::Inbound { address, bytes: bytes@ }, now),
        ensures
            final(self).inv(),
            final(self)@ == inbound(old(self)@, address, bytes@, now).state,
            outcome@ == inbound(old(self)@, address, bytes@, now).effect,
            outcome.distinct(),
    {
        let ghost before = self@;
        let mut session = match self.clients.remove(&address) {
            Some(session) => session,
            None => {
                proof {
                    assert(self@.sessions =~= before.sessions);
                }
                return Outcome::Silent;
            },
        };
        let ghost taken = self@;
        proof {
            assert(taken.sessions.remove(address) =~= before.sessions.remove(address));
            assert forall|v| #[trigger]
                taken.sessions.insert(address, v) =~= before.sessions.insert(address, v) by {}
        }
        if now - session.last_message_at < self.config.message_rate {
            return self.strike(address, session, now);
        }
        session.last_message_at = now;
        let settled = match decode(bytes.as_slice()) {
            None => Some(self.strike(address, session, now)),
            Some(text) => {
                if session.authenticated {
                    self.dispatch(address, session, text, Ghost(bytes@))
                } else {
                    Some(self.authenticate(address, session, text))
                }
            },
        };
        match settled {
            Some(outcome) => outcome,
            None => {
                let to = self.clients.authenticated_peers(&address);
                proof {
                    assert(to@.to_set() =~= before.peers(address));
                }
                Outcome::Relay { to, bytes }
            },
        }
    }

    /// Handles `event` at `now`: moves to the next state of the model and
    /// returns what the caller is to do.
    pub fn handle(&mut self, event: Event, now: u128) -> (outcome: Outcome)
        requires
            old(self).inv(),
            timely(old(self)@, event@, now),
        ensures
            final(self).inv(),
            final(self)@ == step(old(self)@, event@, now).state,
            outcome@ == step(old(self)@, event@, now).effect,
            outcome.distinct(),
    {
        match event {
            Event::Connected { address } => self.connect(address, now),
            Event::Disconnected { address } => self.disconnect(address),
            Event::Inbound { address, bytes } => self.inbound(address, bytes, now),
        }
    }

    /// Handles `event` at `now` if it can be handled then, and changes
    /// nothing if the clock has gone back behind the instant that the
    /// event is measured against.
    pub fn try_handle(&mut self, event: Event, now: u128) -> (outcome: Option<Outcome>)
        requires
            old(self).inv(),
        ensures
            final(self).inv(),
            outcome is Some <==> timely(old(self)@, event@, now),
            outcome matches Some(o) ==> final(self)@ == step(old(self)@, event@, now).state && o@
                == step(old(self)@, event@, now).effect && o.distinct(),
            outcome is None ==> final(self)@ == old(self)@,
    {
        if self.accepts(&event, now) {
            Some(self.handle(event, now))
        } else {
            None
        }
    }
}

} // verus!
