//! The two registries of the authority: live sessions by endpoint, and bans
//! by host.
//!
//! Each registry is a list of entries in which no key occurs twice, and is
//! read as a finite map.

use vstd::prelude::*;
use crate::address::{Address, IpAddress};
use crate::assoc::{
    assoc, lemma_assoc_at, lemma_assoc_empty, lemma_assoc_key, lemma_assoc_len, lemma_assoc_push,
    lemma_assoc_remove, lemma_assoc_update,
};
use crate::session::{Session, SessionView};

verus! {

struct Client {
    address: Address,
    session: Session,
}

/// The live sessions, each under the endpoint of its connection.
pub struct ClientRegistry {
    clients: Vec<Client>,
}

impl ClientRegistry {
    spec fn keys(&self) -> Seq<Address> {
        self.clients@.map_values(|c: Client| c.address)
    }

    spec fn vals(&self) -> Seq<SessionView> {
        self.clients@.map_values(|c: Client| c.session@)
    }

    /// No endpoint has two sessions.
    pub closed spec fn inv(&self) -> bool {
        self.keys().no_duplicates()
    }

    /// The sessions as a map from endpoint to session.
    pub closed spec fn view(&self) -> Map<Address, SessionView> {
        assoc(self.keys(), self.vals())
    }

    /// A registry without sessions.
    pub fn new() -> (registry: ClientRegistry)
        ensures
            registry.inv(),
            registry@ == Map::<Address, SessionView>::empty(),
    {
        let registry = ClientRegistry { clients: Vec::new() };
        proof {
            lemma_assoc_empty::<Address, SessionView>();
        }
        registry
    }

    /// The number of live sessions.
    pub fn len(&self) -> (n: usize)
        requires
            self.inv(),
        ensures
            self@.dom().finite(),
            n == self@.len(),
    {
        proof {
            lemma_assoc_len(self.keys(), self.vals());
        }
        self.clients.len()
    }

    fn position(&self, address: &Address) -> (at: Option<usize>)
        requires
            self.inv(),
        ensures
            at is Some <==> self@.contains_key(*address),
            at matches Some(i) ==> i < self.clients@.len() && self.keys()[i as int] == *address
                && self.vals()[i as int] == self@[*address],
    {
        let mut i: usize = 0;
        while i < self.clients.len()
            invariant
                self.inv(),
                i <= self.clients@.len(),
                forall|j: int| 0 <= j < i ==> self.keys()[j] != *address,
            decreases self.clients@.len() - i,
        {
            if self.clients[i].address == *address {
                proof {
                    lemma_assoc_at(self.keys(), self.vals(), i as int);
                }
                return Some(i);
            }
            i += 1;
        }
        None
    }

    /// Whether `address` has a session.
    pub fn contains(&self, address: &Address) -> (found: bool)
        requires
            self.inv(),
        ensures
            found == self@.contains_key(*address),
    {
        self.position(address).is_some()
    }

    /// The session of `address`, if it has one.
    pub fn get(&self, address: &Address) -> (found: Option<&Session>)
        requires
            self.inv(),
        ensures
            found is Some <==> self@.contains_key(*address),
            found matches Some(session) ==> session@ == self@[*address],
    {
        match self.position(address) {
            Some(i) => Some(&self.clients[i].session),
            None => None,
        }
    }

    /// Puts `session` under `address`, in place of the session that
    /// `address` had, if it had one.
    pub fn insert(&mut self, address: Address, session: Session)
        requires
            old(self).inv(),
        ensures
            final(self).inv(),
            final(self)@ == old(self)@.insert(address, session@),
    {
        let ghost keys = self.keys();
        let ghost vals = self.vals();
        match self.position(&address) {
            Some(i) => {
                self.clients.set(i, Client { address, session });
                proof {
                    lemma_assoc_update(keys, vals, i as int, session@);
                    assert(self.keys() =~= keys);
                }
            },
            None => {
                self.clients.push(Client { address, session });
                proof {
                    lemma_assoc_push(keys, vals, address, session@);
                    assert(self.keys() =~= keys.push(address));
                }
            },
        }
    }

    /// Takes the session of `address` out of the registry, if it has one.
    pub fn remove(&mut self, address: &Address) -> (removed: Option<Session>)
        requires
            old(self).inv(),
        ensures
            final(self).inv(),
            final(self)@ == old(self)@.remove(*address),
            removed is Some <==> old(self)@.contains_key(*address),
            removed matches Some(session) ==> session@ == old(self)@[*address],
    {
        let ghost keys = self.keys();
        let ghost vals = self.vals();
        match self.position(address) {
            Some(i) => {
                let client = self.clients.remove(i);
                proof {
                    lemma_assoc_remove(keys, vals, i as int);
                    assert(self.keys() =~= keys.remove(i as int));
                }
                Some(client.session)
            },
            None => None,
        }
    }

    /// Whether one of the first `upto` entries is an authenticated session
    /// of `a`, and `a` is not `sender`.
    spec fn listed(&self, sender: Address, upto: int, a: Address) -> bool {
        exists|j: int|
            0 <= j < upto && #[trigger] self.keys()[j] == a && a != sender
                && self.vals()[j].authenticated
    }

    /// The endpoints of the authenticated sessions other than `sender`,
    /// each once.
    pub fn authenticated_peers(&self, sender: &Address) -> (peers: Vec<Address>)
        requires
            self.inv(),
        ensures
            peers@.no_duplicates(),
            forall|a: Address|
                peers@.contains(a) <==> a != *sender && self@.contains_key(a)
                    && self@[a].authenticated,
    {
        let mut peers: Vec<Address> = Vec::new();
        let mut i: usize = 0;
        while i < self.clients.len()
            invariant
                self.inv(),
                i <= self.clients@.len(),
                peers@.no_duplicates(),
                forall|a: Address| peers@.contains(a) <==> self.listed(*sender, i as int, a),
            decreases self.clients@.len() - i,
        {
            let ghost before = peers@;
            let client = &self.clients[i];
            if client.address != *sender && client.session.authenticated {
                peers.push(client.address);
                proof {
                    assert(self.keys()[i as int] == client.address);
                    assert(!before.contains(client.address)) by {
                        if self.listed(*sender, i as int, client.address) {
                            let j = choose|j: int|
                                0 <= j < i && #[trigger] self.keys()[j] == client.address;
                            assert(self.keys()[j] == self.keys()[i as int]);
                        }
                    }
                    assert forall|a: Address| peers@.contains(a) <==> self.listed(
                        *sender,
                        i + 1,
                        a,
                    ) by {
                        if before.contains(a) {
                            assert(peers@[before.index_of(a)] == a);
                        }
                        if a == client.address {
                            assert(peers@[before.len() as int] == a);
                        }
                    }
                }
            } else {
                proof {
                    assert forall|a: Address| peers@.contains(a) <==> self.listed(
                        *sender,
                        i + 1,
                        a,
                    ) by {}
                }
            }
            i += 1;
        }
        proof {
            assert forall|a: Address| peers@.contains(a) <==> a != *sender && self@.contains_key(a)
                && self@[a].authenticated by {
                lemma_assoc_key(self.keys(), self.vals(), a);
                if self.listed(*sender, i as int, a) {
                    let j = choose|j: int|
                        0 <= j < i && #[trigger] self.keys()[j] == a && a != *sender
                            && self.vals()[j].authenticated;
                    lemma_assoc_at(self.keys(), self.vals(), j);
                }
                if self.keys().contains(a) {
                    lemma_assoc_at(self.keys(), self.vals(), self.keys().index_of(a));
                }
            }
        }
        peers
    }
}

struct Ban {
    ip: IpAddress,
    banned_at: u128,
}

/// The bans, each under the host that it was imposed on and holding the
/// instant at which it began.
pub struct BanRegistry {
    bans: Vec<Ban>,
}

impl BanRegistry {
    spec fn keys(&self) -> Seq<IpAddress> {
        self.bans@.map_values(|b: Ban| b.ip)
    }

    spec fn vals(&self) -> Seq<u128> {
        self.bans@.map_values(|b: Ban| b.banned_at)
    }

    /// No host has two bans.
    pub closed spec fn inv(&self) -> bool {
        self.keys().no_duplicates()
    }

    /// The bans as a map from host to the instant at which its ban began.
    pub closed spec fn view(&self) -> Map<IpAddress, u128> {
        assoc(self.keys(), self.vals())
    }

    /// A registry without bans.
    pub fn new() -> (registry: BanRegistry)
        ensures
            registry.inv(),
            registry@ == Map::<IpAddress, u128>::empty(),
    {
        let registry = BanRegistry { bans: Vec::new() };
        proof {
            lemma_assoc_empty::<IpAddress, u128>();
        }
        registry
    }

    /// The number of bans on record.
    pub fn len(&self) -> (n: usize)
        requires
            self.inv(),
        ensures
            self@.dom().finite(),
            n == self@.len(),
    {
        proof {
            lemma_assoc_len(self.keys(), self.vals());
        }
        self.bans.len()
    }

    fn position(&self, ip: &IpAddress) -> (at: Option<usize>)
        requires
            self.inv(),
        ensures
            at is Some <==> self@.contains_key(*ip),
            at matches Some(i) ==> i < self.bans@.len() && self.keys()[i as int] == *ip
                && self.vals()[i as int] == self@[*ip],
    {
        let mut i: usize = 0;
        while i < self.bans.len()
            invariant
                self.inv(),
                i <= self.bans@.len(),
                forall|j: int| 0 <= j < i ==> self.keys()[j] != *ip,
            decreases self.bans@.len() - i,
        {
            if self.bans[i].ip == *ip {
                proof {
                    lemma_assoc_at(self.keys(), self.vals(), i as int);
                }
                return Some(i);
            }
            i += 1;
        }
        None
    }

    /// The instant at which the ban of `ip` began, if it has one on record.
    pub fn get(&self, ip: &IpAddress) -> (found: Option<u128>)
        requires
            self.inv(),
        ensures
            found is Some <==> self@.contains_key(*ip),
            found matches Some(at) ==> at == self@[*ip],
    {
        match self.position(ip) {
            Some(i) => Some(self.bans[i].banned_at),
            None => None,
        }
    }

    /// Records that `ip` is banned since `banned_at`, in place of the ban
    /// that `ip` had on record, if it had one.
    pub fn insert(&mut self, ip: IpAddress, banned_at: u128)
        requires
            old(self).inv(),
        ensures
            final(self).inv(),
            final(self)@ == old(self)@.insert(ip, banned_at),
    {
        let ghost keys = self.keys();
        let ghost vals = self.vals();
        match self.position(&ip) {
            Some(i) => {
                self.bans.set(i, Ban { ip, banned_at });
                proof {
                    lemma_assoc_update(keys, vals, i as int, banned_at);
                    assert(self.keys() =~= keys);
                }
            },
            None => {
                self.bans.push(Ban { ip, banned_at });
                proof {
                    lemma_assoc_push(keys, vals, ip, banned_at);
                    assert(self.keys() =~= keys.push(ip));
                }
            },
        }
    }

    /// Takes the ban of `ip` off the record, if it has one.
    pub fn remove(&mut self, ip: &IpAddress) -> (removed: Option<u128>)
        requires
            old(self).inv(),
        ensures
            final(self).inv(),
            final(self)@ == old(self)@.remove(*ip),
            removed is Some <==> old(self)@.contains_key(*ip),
            removed matches Some(at) ==> at == old(self)@[*ip],
    {
        let ghost keys = self.keys();
        let ghost vals = self.vals();
        match self.position(ip) {
            Some(i) => {
                let ban = self.bans.remove(i);
                proof {
                    lemma_assoc_remove(keys, vals, i as int);
                    assert(self.keys() =~= keys.remove(i as int));
                }
                Some(ban.banned_at)
            },
            None => None,
        }
    }
}

} // verus!
