//! What holds of the authority in every state and for every event.
//!
//! The laws are stated over the model. The executable authority computes
//! the model's transitions, so they hold of it as well.

use vstd::prelude::*;
use vstd::utf8::{decode_utf8, valid_utf8};
use crate::address::Address;
use crate::command::lookup;
use crate::model::{
    connect, disconnect, effect_at, inbound, run, step, Effect, Input, State, Step, Timed,
};
use crate::notice::NoticeView;
use crate::session::SessionView;

verus! {

/// Every transition from a valid state leads to a valid state: the
/// registries stay finite and no session is left at or over the strike
/// limit.
pub proof fn law_step_keeps_valid(s: State, input: Input, now: u128)
    requires
        s.valid(),
    ensures
        step(s, input, now).state.valid(),
{
}

/// Every sequence of events from a valid state leads to a valid state.
pub proof fn law_run_keeps_valid(s: State, events: Seq<Timed>)
    requires
        s.valid(),
    ensures
        run(s, events).valid(),
    decreases events.len(),
{
    if events.len() > 0 {
        law_run_keeps_valid(s, events.drop_last());
        law_step_keeps_valid(run(s, events.drop_last()), events.last().input, events.last().at);
    }
}

/// The token and the limits never change.
pub proof fn law_token_and_limits_are_fixed(s: State, input: Input, now: u128)
    ensures
        step(s, input, now).state.token == s.token,
        step(s, input, now).state.config == s.config,
{
}

/// An event changes no session but the one of its own address.
pub proof fn law_other_sessions_are_untouched(s: State, input: Input, now: u128, other: Address)
    requires
        other != input.address(),
    ensures
        step(s, input, now).state.sessions.contains_key(other) == s.sessions.contains_key(other),
        s.sessions.contains_key(other) ==> step(s, input, now).state.sessions[other]
            == s.sessions[other],
{
}

/// A session begins with a connection and with nothing else.
pub proof fn law_only_a_connection_creates_a_session(
    s: State,
    input: Input,
    now: u128,
    address: Address,
)
    requires
        !s.sessions.contains_key(address),
        step(s, input, now).state.sessions.contains_key(address),
    ensures
        input == (Input::Connected { address }),
        step(s, input, now).state.sessions[address] == SessionView::fresh(now),
{
}

/// While a session lives, its strikes never decrease and its
/// authentication is never taken back.
pub proof fn law_strikes_and_authentication_stay(s: State, input: Input, now: u128, address: Address)
    requires
        !(input is Connected),
        s.sessions.contains_key(address),
        step(s, input, now).state.sessions.contains_key(address),
    ensures
        step(s, input, now).state.sessions[address].strike_count
            >= s.sessions[address].strike_count,
        s.sessions[address].authenticated ==> step(
            s,
            input,
            now,
        ).state.sessions[address].authenticated,
{
}

/// A frame from an address without a session changes nothing and has the
/// caller do nothing.
pub proof fn law_frame_without_session_is_ignored(
    s: State,
    address: Address,
    bytes: Seq<u8>,
    now: u128,
)
    requires
        !s.sessions.contains_key(address),
    ensures
        inbound(s, address, bytes, now) == (Step { state: s, effect: Effect::Silent }),
{
}

/// Whether `events` are frames of `address` that keep the pace: each is
/// well-formed UTF-8, the first comes no sooner than `rate` after `last`,
/// and each other no sooner than `rate` after the one before it.
pub open spec fn paced(events: Seq<Timed>, address: Address, last: u128, rate: u128) -> bool {
    forall|i: int|
        0 <= i < events.len() ==> {
            &&& (#[trigger] events[i]).input matches Input::Inbound { address: from, bytes }
            &&& from == address
            &&& valid_utf8(bytes)
            &&& events[i].at - (if i == 0 {
                last
            } else {
                events[i - 1].at
            }) >= rate
        }
}

/// Whether `events` are frames of `address` that all come too fast: each
/// sooner than `rate` after `last`.
pub open spec fn rushed(events: Seq<Timed>, address: Address, last: u128, rate: u128) -> bool {
    forall|i: int|
        0 <= i < events.len() ==> {
            &&& (#[trigger] events[i]).input matches Input::Inbound { address: from, .. }
            &&& from == address
            &&& events[i].at - last < rate
        }
}

proof fn lemma_paced_run(s: State, address: Address, events: Seq<Timed>)
    requires
        s.sessions.contains_key(address),
        paced(events, address, s.sessions[address].last_message_at, s.config.message_rate),
    ensures
        run(s, events).config == s.config,
        run(s, events).sessions.contains_key(address) ==> {
            &&& run(s, events).sessions[address].strike_count == s.sessions[address].strike_count
            &&& run(s, events).sessions[address].last_message_at == if events.len() == 0 {
                s.sessions[address].last_message_at
            } else {
                events.last().at
            }
        },
    decreases events.len(),
{
    if events.len() > 0 {
        let front = events.drop_last();
        assert(paced(front, address, s.sessions[address].last_message_at, s.config.message_rate));
        lemma_paced_run(s, address, front);
    }
}

/// Frames of one session that keep the pace and are well-formed UTF-8
/// never add a strike: after any number of them the session, if it still
/// lives, has the strikes that it began with.
pub proof fn law_paced_frames_add_no_strike(s: State, address: Address, events: Seq<Timed>)
    requires
        s.sessions.contains_key(address),
        paced(events, address, s.sessions[address].last_message_at, s.config.message_rate),
    ensures
        forall|k: int|
            0 <= k <= events.len() && (#[trigger] run(s, events.take(k))).sessions.contains_key(address)
                ==> run(s, events.take(k)).sessions[address].strike_count
                == s.sessions[address].strike_count,
{
    assert forall|k: int|
        0 <= k <= events.len() && (#[trigger] run(s, events.take(k))).sessions.contains_key(
            address,
        ) implies run(s, events.take(k)).sessions[address].strike_count
        == s.sessions[address].strike_count by {
        let front = events.take(k);
        assert(paced(front, address, s.sessions[address].last_message_at, s.config.message_rate));
        lemma_paced_run(s, address, front);
    }
}

/// A frame that comes too fast adds exactly one strike and is not relayed.
/// Below the strike limit nothing else about the session changes; at the
/// limit the session ends in a ban.
pub proof fn law_rushed_frame_adds_one_strike(s: State, address: Address, bytes: Seq<u8>, now: u128)
    requires
        s.sessions.contains_key(address),
        now - s.sessions[address].last_message_at < s.config.message_rate,
    ensures
        !(inbound(s, address, bytes, now).effect is Relay),
        s.sessions[address].strike_count + 1 < s.config.strike_limit ==> {
            &&& inbound(s, address, bytes, now).state == s.with_session(
                address,
                SessionView {
                    strike_count: (s.sessions[address].strike_count + 1) as u32,
                    ..s.sessions[address]
                },
            )
            &&& inbound(s, address, bytes, now).effect == Effect::Silent
        },
        s.sessions[address].strike_count + 1 >= s.config.strike_limit ==> !inbound(
            s,
            address,
            bytes,
            now,
        ).state.sessions.contains_key(address),
{
}

proof fn lemma_rushed_run(s: State, address: Address, events: Seq<Timed>)
    requires
        s.sessions.contains_key(address),
        rushed(events, address, s.sessions[address].last_message_at, s.config.message_rate),
    ensures
        run(s, events).config == s.config,
        s.sessions[address].strike_count + events.len() < s.config.strike_limit ==> {
            &&& run(s, events).sessions.contains_key(address)
            &&& run(s, events).sessions[address] == SessionView {
                strike_count: (s.sessions[address].strike_count + events.len()) as u32,
                ..s.sessions[address]
            }
        },
        s.sessions[address].strike_count + events.len() >= s.config.strike_limit
            && events.len() > 0 ==> !run(s, events).sessions.contains_key(address),
        run(s, events).sessions.contains_key(address) ==> run(
            s,
            events,
        ).sessions[address].last_message_at == s.sessions[address].last_message_at,
    decreases events.len(),
{
    if events.len() > 0 {
        let front = events.drop_last();
        assert(rushed(front, address, s.sessions[address].last_message_at, s.config.message_rate));
        lemma_rushed_run(s, address, front);
    }
}

/// Frames of one session that all come too fast add one strike each and
/// none is relayed: while the strikes stay below the limit, the session
/// after `k` frames is the session at the start with `k` more strikes; once
/// they reach the limit, the session is gone.
pub proof fn law_rushed_frames_add_one_strike_each(s: State, address: Address, events: Seq<Timed>)
    requires
        s.sessions.contains_key(address),
        rushed(events, address, s.sessions[address].last_message_at, s.config.message_rate),
    ensures
        forall|k: int| 0 <= k < events.len() ==> !(#[trigger] effect_at(s, events, k) is Relay),
        forall|k: int|
            0 <= k <= events.len() && s.sessions[address].strike_count + k < s.config.strike_limit
                ==> {
                &&& (#[trigger] run(s, events.take(k))).sessions.contains_key(address)
                &&& run(s, events.take(k)).sessions[address] == SessionView {
                    strike_count: (s.sessions[address].strike_count + k) as u32,
                    ..s.sessions[address]
                }
            },
        forall|k: int|
            0 < k <= events.len() && s.sessions[address].strike_count + k >= s.config.strike_limit
                ==> !(#[trigger] run(s, events.take(k))).sessions.contains_key(address),
{
    assert forall|k: int| 0 <= k <= events.len() implies rushed(
        #[trigger] events.take(k),
        address,
        s.sessions[address].last_message_at,
        s.config.message_rate,
    ) by {}
    assert forall|k: int| 0 <= k < events.len() implies !(#[trigger] effect_at(s, events, k) is Relay) by {
        lemma_rushed_run(s, address, events.take(k));
    }
    assert forall|k: int|
        0 <= k <= events.len() && s.sessions[address].strike_count + k
            < s.config.strike_limit implies {
        &&& (#[trigger] run(s, events.take(k))).sessions.contains_key(address)
        &&& run(s, events.take(k)).sessions[address] == SessionView {
            strike_count: (s.sessions[address].strike_count + k) as u32,
            ..s.sessions[address]
        }
    } by {
        lemma_rushed_run(s, address, events.take(k));
    }
    assert forall|k: int|
        0 < k <= events.len() && s.sessions[address].strike_count + k
            >= s.config.strike_limit implies !(#[trigger] run(s, events.take(k))).sessions.contains_key(
        address,
    ) by {
        lemma_rushed_run(s, address, events.take(k));
    }
}

/// A violation that brings a session to the strike limit ends it within
/// the same step: the session leaves the registry, its host is banned from
/// that instant, and the client is told so before its connection is shut
/// down. Whatever comes from that address afterwards finds no session and
/// changes nothing.
pub proof fn law_strike_limit_ends_session(s: State, address: Address, bytes: Seq<u8>, now: u128)
    requires
        s.sessions.contains_key(address),
        now - s.sessions[address].last_message_at < s.config.message_rate || !valid_utf8(bytes),
        s.sessions[address].strike_count + 1 >= s.config.strike_limit,
    ensures
        !inbound(s, address, bytes, now).state.sessions.contains_key(address),
        inbound(s, address, bytes, now).state.bans.contains_key(address.host()),
        inbound(s, address, bytes, now).state.bans[address.host()] == now,
        inbound(s, address, bytes, now).effect == (Effect::Reply {
            notice: NoticeView::Banned,
            close: true,
        }),
        forall|more: Seq<u8>, later: u128| #[trigger]
            inbound(inbound(s, address, bytes, now).state, address, more, later) == (Step {
                state: inbound(s, address, bytes, now).state,
                effect: Effect::Silent,
            }),
{
}

/// A ban is recorded by no step but the one in which a violation brings a
/// session of that host to the strike limit.
pub proof fn law_only_the_strike_limit_bans(s: State, input: Input, now: u128)
    ensures
        forall|ip|
            step(s, input, now).state.bans.contains_key(ip) && (!s.bans.contains_key(ip) || step(
                s,
                input,
                now,
            ).state.bans[ip] != s.bans[ip]) ==> {
                &&& input matches Input::Inbound { address, bytes }
                &&& address.host() == ip
                &&& s.sessions.contains_key(address)
                &&& s.sessions[address].strike_count + 1 >= s.config.strike_limit
                &&& now - s.sessions[address].last_message_at < s.config.message_rate || !valid_utf8(
                    bytes,
                )
                &&& step(s, input, now).state.bans[ip] == now
            },
{
}

/// While the ban of a host runs, a connection from it creates no session:
/// nothing changes, and the client is told how long the ban still runs.
pub proof fn law_running_ban_refuses(s: State, address: Address, now: u128)
    requires
        s.bans.contains_key(address.host()),
        now - s.bans[address.host()] < s.config.ban_limit,
    ensures
        connect(s, address, now).state == s,
        connect(s, address, now).effect == (Effect::Refused {
            remaining: s.config.ban_limit - (now - s.bans[address.host()]),
        }),
{
}

/// Once the ban of a host has run out, a connection from it creates a
/// fresh session and the stale ban is forgotten.
pub proof fn law_expired_ban_admits(s: State, address: Address, now: u128)
    requires
        s.bans.contains_key(address.host()),
        now - s.bans[address.host()] >= s.config.ban_limit,
    ensures
        connect(s, address, now).state.sessions.contains_key(address),
        connect(s, address, now).state.sessions[address] == SessionView::fresh(now),
        !connect(s, address, now).state.bans.contains_key(address.host()),
        connect(s, address, now).effect == Effect::Silent,
{
}

/// A relayed frame reaches exactly the authenticated sessions other than
/// its sender, unchanged: never the sender, never a session that is not
/// authenticated. Its sender is authenticated.
pub proof fn law_relay_reaches_authenticated_peers(s: State, input: Input, now: u128)
    requires
        step(s, input, now).effect is Relay,
    ensures
        input matches Input::Inbound { address, bytes } && {
            &&& step(s, input, now).effect matches Effect::Relay { to, bytes: relayed }
            &&& relayed == bytes
            &&& s.sessions.contains_key(address)
            &&& s.sessions[address].authenticated
            &&& !to.contains(address)
            &&& forall|a: Address|
                to.contains(a) <==> a != address && s.sessions.contains_key(a)
                    && s.sessions[a].authenticated
        },
{
}

/// A frame of an authenticated session that keeps the pace, is well-formed
/// UTF-8 and names no command is relayed to the session's peers.
pub proof fn law_plain_frame_is_relayed(s: State, address: Address, bytes: Seq<u8>, now: u128)
    requires
        s.sessions.contains_key(address),
        s.sessions[address].authenticated,
        now - s.sessions[address].last_message_at >= s.config.message_rate,
        valid_utf8(bytes),
        lookup(decode_utf8(bytes)) is None,
    ensures
        inbound(s, address, bytes, now).effect == (Effect::Relay { to: s.peers(address), bytes }),
{
}

/// Two disconnections of one address in a row leave the state that one
/// leaves, and neither has the caller do anything.
pub proof fn law_disconnect_is_idempotent(s: State, address: Address)
    ensures
        disconnect(disconnect(s, address).state, address) == disconnect(s, address),
        disconnect(s, address).effect == Effect::Silent,
{
    assert(s.sessions.remove(address).remove(address) =~= s.sessions.remove(address));
}

} // verus!
