use craftmine::auth::{ConnectionState, JeConnection, JeSessionEncrypt, Outbound};
use craftmine::msg::{NetRecvInner, NetRecvMsg, NetSendMsg};
use craftmine::packets::{JeChat, JePacket};
use craftmine::packets_play::JePlayDisconnect;
use craftmine::packets_status::JePacketPong;
use craftmine::registry::{RegistryAction, SessionRegistry};

fn session(uuid: u128, name: &str, send: u64) -> JeConnection {
    JeConnection {
        state: ConnectionState::Play,
        enc: None,
        uuid,
        username: name.to_owned(),
        addr: "10.0.0.1:4000".to_owned(),
        send,
        online: false,
    }
}

fn three() -> SessionRegistry {
    let mut r = SessionRegistry::new();
    r.register(session(1, "Alice", 11));
    r.register(session(2, "Bob", 12));
    r.register(session(3, "Carol", 13));
    r
}

fn deliver(send: u64, packet_id: i32, data: Vec<u8>) -> RegistryAction {
    RegistryAction::Deliver(Outbound { send, packet_id, data })
}

#[test]
fn a_new_registry_is_empty_and_serves() {
    let r = SessionRegistry::new();
    assert!(r.is_active());
    assert_eq!(r.uuids(), Vec::<u128>::new());
    assert_eq!(r.get(1), None);
}

#[test]
fn registering_a_session_tells_the_simulation_loop() {
    let mut r = SessionRegistry::new();
    let event = r.register(session(1, "Alice", 11));
    assert_eq!(
        event,
        NetRecvMsg {
            uuid: 1,
            inner: NetRecvInner::NewSession { username: "Alice".to_owned(), online: false },
        }
    );
    assert_eq!(r.get(1), Some(&session(1, "Alice", 11)));
    assert_eq!(r.get(2), None);
    assert_eq!(r.uuids(), vec![1]);
}

#[test]
fn registering_under_a_uuid_twice_keeps_the_later_session() {
    let mut r = three();
    r.register(session(2, "Bobby", 99));
    assert_eq!(r.get(2), Some(&session(2, "Bobby", 99)));
    let mut uuids = r.uuids();
    uuids.sort();
    assert_eq!(uuids, vec![1, 2, 3]);
}

#[test]
fn single_goes_to_its_session() {
    let mut r = three();
    assert_eq!(
        r.command(NetSendMsg::Single(2, 0x40, vec![7])),
        vec![deliver(12, 0x40, vec![7])]
    );
    assert_eq!(r.uuids().len(), 3);
}

#[test]
fn single_for_an_unknown_uuid_is_noted() {
    let mut r = three();
    assert_eq!(
        r.command(NetSendMsg::Single(9, 0x40, vec![7])),
        vec![RegistryAction::UnknownTarget(9)]
    );
    assert_eq!(r.uuids().len(), 3);
}

#[test]
fn disconnect_sends_the_packet_and_drops_the_session() {
    let mut r = three();
    let actions = r.command(NetSendMsg::Disconnect(2, "bye".to_owned()));
    let expected = JePlayDisconnect { reason: JeChat("bye".to_owned()) }.to_vec_u8();
    assert_eq!(actions, vec![deliver(12, 0x1b, expected)]);
    assert_eq!(r.get(2), None);
    assert_eq!(r.get(1), Some(&session(1, "Alice", 11)));
    assert_eq!(r.get(3), Some(&session(3, "Carol", 13)));
}

#[test]
fn disconnect_of_an_unknown_uuid_changes_nothing() {
    let mut r = three();
    let actions = r.command(NetSendMsg::Disconnect(77, "bye".to_owned()));
    assert_eq!(actions, vec![RegistryAction::UnknownTarget(77)]);
    assert_eq!(r.get(1), Some(&session(1, "Alice", 11)));
    assert_eq!(r.get(2), Some(&session(2, "Bob", 12)));
    assert_eq!(r.get(3), Some(&session(3, "Carol", 13)));
    let mut uuids = r.uuids();
    uuids.sort();
    assert_eq!(uuids, vec![1, 2, 3]);
    assert!(r.is_active());
    // The other sessions are served as before.
    assert_eq!(r.command(NetSendMsg::Single(1, 5, vec![])), vec![deliver(11, 5, vec![])]);
}

#[test]
fn disconnect_on_an_empty_registry() {
    let mut r = SessionRegistry::new();
    assert_eq!(
        r.command(NetSendMsg::Disconnect(1, String::new())),
        vec![RegistryAction::UnknownTarget(1)]
    );
    assert_eq!(r.uuids(), Vec::<u128>::new());
}

#[test]
fn all_goes_to_every_session_once() {
    let mut r = three();
    let mut actions = r.command(NetSendMsg::All(0x22, vec![1, 2]));
    actions.sort_by_key(|a| match a {
        RegistryAction::Deliver(o) => o.send,
        _ => 0,
    });
    assert_eq!(
        actions,
        vec![
            deliver(11, 0x22, vec![1, 2]),
            deliver(12, 0x22, vec![1, 2]),
            deliver(13, 0x22, vec![1, 2]),
        ]
    );
    let mut empty = SessionRegistry::new();
    assert_eq!(empty.command(NetSendMsg::All(0x22, vec![1, 2])), vec![]);
}

#[test]
fn broadcast_goes_to_the_sessions_named_in_order() {
    let mut r = three();
    assert_eq!(
        r.command(NetSendMsg::Broadcast(vec![3, 8, 1, 3], 0x22, vec![5])),
        vec![
            deliver(13, 0x22, vec![5]),
            RegistryAction::UnknownTarget(8),
            deliver(11, 0x22, vec![5]),
            deliver(13, 0x22, vec![5]),
        ]
    );
    assert_eq!(r.command(NetSendMsg::Broadcast(vec![], 0x22, vec![5])), vec![]);
}

#[test]
fn encrypted_sessions_are_not_served() {
    let mut r = three();
    let mut s = session(4, "Dave", 14);
    s.enc = Some(JeSessionEncrypt { vtoken: [1, 2, 3, 4] });
    r.register(s);
    assert_eq!(r.command(NetSendMsg::Single(4, 1, vec![])), vec![RegistryAction::Unserved(4)]);
    assert_eq!(
        r.command(NetSendMsg::Disconnect(4, "x".to_owned())),
        vec![RegistryAction::Unserved(4)]
    );
    assert_eq!(r.get(4), None);
}

#[test]
fn timeouts_are_handed_on() {
    let mut r = three();
    assert_eq!(
        r.command(NetSendMsg::DefiniteTimeout(1, 60, "afk".to_owned())),
        vec![RegistryAction::SetTimeout(1, Some(60), "afk".to_owned())]
    );
    assert_eq!(
        r.command(NetSendMsg::IndefiniteTimeout(2, "ban".to_owned())),
        vec![RegistryAction::SetTimeout(2, None, "ban".to_owned())]
    );
    assert_eq!(r.command(NetSendMsg::UnsetTimeout(3)), vec![RegistryAction::UnsetTimeout(3)]);
    assert_eq!(
        r.command(NetSendMsg::DefiniteTimeout(9, 60, "afk".to_owned())),
        vec![RegistryAction::UnknownTarget(9)]
    );
    assert_eq!(
        r.command(NetSendMsg::IndefiniteTimeout(9, "ban".to_owned())),
        vec![RegistryAction::UnknownTarget(9)]
    );
    assert_eq!(r.command(NetSendMsg::UnsetTimeout(9)), vec![RegistryAction::UnknownTarget(9)]);
    assert_eq!(r.uuids().len(), 3);
}

#[test]
fn shutdown_stops_serving_and_keeps_the_sessions() {
    let mut r = three();
    r.shutdown();
    assert!(!r.is_active());
    assert_eq!(r.uuids().len(), 3);
    assert_eq!(r.get(1), Some(&session(1, "Alice", 11)));
}

#[test]
fn commands_are_built_from_packets() {
    assert_eq!(NetSendMsg::all(5, &[1, 2]), NetSendMsg::All(5, vec![1, 2]));
    assert_eq!(
        NetSendMsg::broadcast(&[1, 2], &JePacketPong { val: 1 }),
        NetSendMsg::Broadcast(vec![1, 2], 1, vec![0, 0, 0, 0, 0, 0, 0, 1])
    );
    assert_eq!(
        NetSendMsg::single(9, &JePacketPong { val: 1 }),
        NetSendMsg::Single(9, 1, vec![0, 0, 0, 0, 0, 0, 0, 1])
    );
    assert_eq!(NetSendMsg::disconnect(9, "bye"), NetSendMsg::Disconnect(9, "bye".to_owned()));
    assert_eq!(
        NetSendMsg::timeout(9, Some(30), "afk"),
        NetSendMsg::DefiniteTimeout(9, 30, "afk".to_owned())
    );
    assert_eq!(
        NetSendMsg::timeout(9, None, "afk"),
        NetSendMsg::IndefiniteTimeout(9, "afk".to_owned())
    );
}

#[test]
fn many_sessions() {
    let mut r = SessionRegistry::new();
    for i in 0..500u128 {
        r.register(session(i * 1_000_003, "p", i as u64));
    }
    let mut uuids = r.uuids();
    uuids.sort();
    assert_eq!(uuids.len(), 500);
    assert_eq!(uuids[499], 499 * 1_000_003);
    assert_eq!(r.command(NetSendMsg::All(1, vec![])).len(), 500);
    for i in 0..500u128 {
        assert_eq!(
            r.command(NetSendMsg::Disconnect(i * 1_000_003, String::new())),
            vec![deliver(i as u64, 0x1b, vec![0])]
        );
    }
    assert_eq!(r.uuids(), Vec::<u128>::new());
}
