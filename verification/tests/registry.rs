use chat_relay::address::{Address, IpAddress};
use chat_relay::registry::{BanRegistry, ClientRegistry};
use chat_relay::session::Session;

fn peer(last: u32, port: u16) -> Address {
    Address::V4 { octets: last, port }
}

fn member(now: u128) -> Session {
    let mut session = Session::new(now);
    session.authenticated = true;
    session
}

#[test]
fn client_registry_keeps_one_session_per_address() {
    let mut registry = ClientRegistry::new();
    assert_eq!(registry.len(), 0);
    assert!(!registry.contains(&peer(1, 1)));
    assert_eq!(registry.get(&peer(1, 1)), None);

    registry.insert(peer(1, 1), Session::new(5));
    registry.insert(peer(1, 2), Session::new(6));
    assert_eq!(registry.len(), 2);
    assert!(registry.contains(&peer(1, 1)));
    assert_eq!(registry.get(&peer(1, 1)), Some(&Session::new(5)));
    assert_eq!(registry.get(&peer(1, 2)), Some(&Session::new(6)));

    registry.insert(peer(1, 1), Session::new(9));
    assert_eq!(registry.len(), 2);
    assert_eq!(registry.get(&peer(1, 1)), Some(&Session::new(9)));
    assert_eq!(registry.get(&peer(1, 2)), Some(&Session::new(6)));
}

#[test]
fn client_registry_remove_hands_the_session_out() {
    let mut registry = ClientRegistry::new();
    registry.insert(peer(1, 1), Session::new(5));
    registry.insert(peer(2, 1), Session::new(6));
    registry.insert(peer(3, 1), Session::new(7));
    assert_eq!(registry.remove(&peer(2, 1)), Some(Session::new(6)));
    assert_eq!(registry.len(), 2);
    assert_eq!(registry.remove(&peer(2, 1)), None);
    assert_eq!(registry.len(), 2);
    assert_eq!(registry.get(&peer(1, 1)), Some(&Session::new(5)));
    assert_eq!(registry.get(&peer(3, 1)), Some(&Session::new(7)));
    assert_eq!(registry.remove(&peer(9, 9)), None);
}

#[test]
fn authenticated_peers_leave_out_the_sender_and_the_strangers() {
    let mut registry = ClientRegistry::new();
    registry.insert(peer(1, 1), member(0));
    registry.insert(peer(2, 1), Session::new(0));
    registry.insert(peer(3, 1), member(0));
    registry.insert(peer(4, 1), member(0));
    assert_eq!(registry.authenticated_peers(&peer(1, 1)), vec![peer(3, 1), peer(4, 1)]);
    assert_eq!(registry.authenticated_peers(&peer(2, 1)), vec![peer(1, 1), peer(3, 1), peer(4, 1)]);
    assert_eq!(registry.authenticated_peers(&peer(9, 9)), vec![peer(1, 1), peer(3, 1), peer(4, 1)]);
    assert_eq!(ClientRegistry::new().authenticated_peers(&peer(1, 1)), vec![]);
}

#[test]
fn ban_registry_keeps_one_ban_per_host() {
    let mut registry = BanRegistry::new();
    assert_eq!(registry.len(), 0);
    assert_eq!(registry.get(&IpAddress::V4(1)), None);
    registry.insert(IpAddress::V4(1), 10);
    registry.insert(IpAddress::V6(1), 20);
    assert_eq!(registry.len(), 2);
    assert_eq!(registry.get(&IpAddress::V4(1)), Some(10));
    assert_eq!(registry.get(&IpAddress::V6(1)), Some(20));
    registry.insert(IpAddress::V4(1), 30);
    assert_eq!(registry.len(), 2);
    assert_eq!(registry.get(&IpAddress::V4(1)), Some(30));
    assert_eq!(registry.remove(&IpAddress::V4(1)), Some(30));
    assert_eq!(registry.remove(&IpAddress::V4(1)), None);
    assert_eq!(registry.len(), 1);
    assert_eq!(registry.get(&IpAddress::V6(1)), Some(20));
}
