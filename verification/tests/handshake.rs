use std::time::{SystemTime, UNIX_EPOCH};

use bitcoin::p2p::message::NetworkMessage;
use bitcoin::p2p::message_network::VersionMessage;
use bitcoin::p2p::{Address, ServiceFlags};
use bitcoin_p2p::handshake::{ConnectionConfig, Error};
use bitcoin_p2p::message::{
    Event, Network, PeerVersion, Reply, SendCmpct, BIP0031_VERSION, INVALID_CB_NO_BAN_VERSION,
    MIN_PEER_PROTO_VERSION, NO_BLOOM_VERSION, SENDHEADERS_VERSION, SERVICES_NETWORK,
    SERVICES_NONE, SERVICES_WITNESS, WTXID_RELAY_VERSION,
};
use bitcoin_p2p::net::{Error as NetError, Handshake};
use bitcoin_p2p::Preferences;

fn useless() -> Address {
    Address { services: ServiceFlags::NONE, address: [0; 8], port: 0 }
}

fn build_mock_version(with_version: u32, with_services: ServiceFlags) -> VersionMessage {
    VersionMessage {
        version: with_version,
        services: with_services,
        timestamp: 222222222,
        receiver: useless(),
        sender: useless(),
        nonce: 42,
        user_agent: "hello".to_string(),
        start_height: 0,
        relay: false,
    }
}

fn unix_now() -> i64 {
    SystemTime::now().duration_since(UNIX_EPOCH).unwrap().as_secs() as i64
}

fn peer(version: u32, services: u64, nonce: u64) -> Event {
    Event::Version(PeerVersion { version, services, timestamp: 1_000, nonce, start_height: 7 })
}

#[test]
fn test_outbound_handshake() {
    let mock = build_mock_version(WTXID_RELAY_VERSION, ServiceFlags::NONE);
    let connection_config = ConnectionConfig::new();
    let nonce = 43;
    let system_time = unix_now();
    let (mut init_handshake, messages) = connection_config
        .start_handshake(system_time, Event::of(&NetworkMessage::Version(mock)), nonce)
        .unwrap();
    let mut message_iter = messages.into_iter();
    let nxt = message_iter.next().unwrap();
    assert!(matches!(nxt.to_message(), NetworkMessage::WtxidRelay));
    let nxt = message_iter.next().unwrap();
    assert!(matches!(nxt.to_message(), NetworkMessage::SendAddrV2));
    let nxt = message_iter.next().unwrap();
    assert!(matches!(nxt.to_message(), NetworkMessage::SendHeaders));
    assert!(message_iter.next().is_none());
    let message = NetworkMessage::WtxidRelay;
    let nego = init_handshake.negotiate(Event::of(&message)).unwrap();
    assert!(nego.is_none());
    let message = NetworkMessage::SendAddrV2;
    let nego = init_handshake.negotiate(Event::of(&message)).unwrap();
    assert!(nego.is_none());
    let message = NetworkMessage::Verack;
    let (completed, messages) = init_handshake.negotiate(Event::of(&message)).unwrap().unwrap();
    let mut message_iter = messages.into_iter();
    let verack = message_iter.next().unwrap();
    assert!(matches!(verack.to_message(), NetworkMessage::Verack));
    let cmpct = message_iter.next().unwrap();
    assert!(matches!(cmpct.to_message(), NetworkMessage::SendCmpct(_)));
    let fee_filter = message_iter.next().unwrap();
    assert!(matches!(fee_filter.to_message(), NetworkMessage::FeeFilter(_)));
    assert!(completed.their_preferences.sendwtxid);
    assert!(completed.their_preferences.sendaddrv2);
    assert!(!completed.their_preferences.sendheaders);
}

#[test]
fn test_reject_low_version() {
    let mock = build_mock_version(INVALID_CB_NO_BAN_VERSION, ServiceFlags::NONE);
    let connection_config = ConnectionConfig::new();
    let nonce = 43;
    let system_time = unix_now();
    assert!(connection_config
        .start_handshake(system_time, Event::of(&NetworkMessage::Version(mock)), nonce)
        .is_err())
}

#[test]
fn test_reject_missing_services() {
    let mock = build_mock_version(WTXID_RELAY_VERSION, ServiceFlags::NONE);
    let connection_config =
        ConnectionConfig::new().set_service_requirement(ServiceFlags::NETWORK.to_u64());
    let nonce = 43;
    let system_time = unix_now();
    assert!(connection_config
        .start_handshake(system_time, Event::of(&NetworkMessage::Version(mock)), nonce)
        .is_err())
}

#[test]
fn test_change_version_ok() {
    let mock = build_mock_version(SENDHEADERS_VERSION, ServiceFlags::NONE);
    let connection_config =
        ConnectionConfig::new().decrease_version_requirement(SENDHEADERS_VERSION);
    let nonce = 43;
    let system_time = unix_now();
    assert!(connection_config
        .start_handshake(system_time, Event::of(&NetworkMessage::Version(mock)), nonce)
        .is_ok())
}

#[test]
fn test_gets_addr() {
    let mock = build_mock_version(WTXID_RELAY_VERSION, ServiceFlags::NONE);
    let connection_config = ConnectionConfig::new().request_addr();
    let nonce = 43;
    let system_time = unix_now();
    let (mut init_handshake, _) = connection_config
        .start_handshake(system_time, Event::of(&NetworkMessage::Version(mock)), nonce)
        .unwrap();
    let (_, messages) = init_handshake
        .negotiate(Event::of(&NetworkMessage::Verack))
        .unwrap()
        .unwrap();
    assert!(matches!(messages.last().unwrap().to_message(), NetworkMessage::GetAddr));
}

#[test]
fn version_below_floor_is_too_low_whatever_the_services() {
    let config = ConnectionConfig::new().set_service_requirement(SERVICES_NETWORK);
    let refused = config.start_handshake(5, peer(70015, SERVICES_NONE, 42), 43).unwrap_err();
    assert_eq!(refused, Error::TooLowVersion(70015));
    let config = ConnectionConfig::new();
    let refused = config.start_handshake(5, peer(70015, SERVICES_NETWORK, 42), 43).unwrap_err();
    assert_eq!(refused, Error::TooLowVersion(70015));
}

#[test]
fn version_at_floor_is_accepted() {
    let config = ConnectionConfig::new();
    assert!(config.start_handshake(5, peer(70016, 0, 42), 43).is_ok());
    let config = ConnectionConfig::new().decrease_version_requirement(BIP0031_VERSION);
    assert!(config.clone().start_handshake(5, peer(60000, 0, 42), 43).is_ok());
    assert_eq!(
        config.start_handshake(5, peer(59999, 0, 42), 43).unwrap_err(),
        Error::TooLowVersion(59999)
    );
}

#[test]
fn absolute_floor_holds_below_a_lower_requirement() {
    let config = ConnectionConfig::new().decrease_version_requirement(209);
    assert_eq!(
        config.clone().start_handshake(5, peer(MIN_PEER_PROTO_VERSION - 1, 0, 42), 43).unwrap_err(),
        Error::TooLowVersion(31799)
    );
    assert!(config.start_handshake(5, peer(MIN_PEER_PROTO_VERSION, 0, 42), 43).is_ok());
}

#[test]
fn own_nonce_is_a_connection_to_self() {
    let config = ConnectionConfig::new();
    assert_eq!(
        config.clone().start_handshake(5, peer(70016, 0, 43), 43).unwrap_err(),
        Error::ConnectionToSelf
    );
    let config = config.set_service_requirement(SERVICES_NETWORK);
    assert_eq!(
        config.start_handshake(5, peer(1, 0, 43), 43).unwrap_err(),
        Error::ConnectionToSelf
    );
}

#[test]
fn missing_service_is_named() {
    let config = ConnectionConfig::new().set_service_requirement(SERVICES_NETWORK | SERVICES_WITNESS);
    assert_eq!(
        config.clone().start_handshake(5, peer(70016, SERVICES_NETWORK, 42), 43).unwrap_err(),
        Error::MissingService(SERVICES_NETWORK)
    );
    assert!(config
        .start_handshake(5, peer(70016, SERVICES_NETWORK | SERVICES_WITNESS | 64, 42), 43)
        .is_ok());
}

#[test]
fn first_message_must_be_a_version() {
    let config = ConnectionConfig::new();
    assert_eq!(
        config.clone().start_handshake(5, Event::Verack, 43).unwrap_err(),
        Error::IrrelevantMessage(Event::Verack)
    );
    assert_eq!(
        config.start_handshake(5, Event::of(&NetworkMessage::Ping(9)), 43).unwrap_err(),
        Error::IrrelevantMessage(Event::Ping(9))
    );
}

#[test]
fn effective_version_is_the_lower_one() {
    let config = ConnectionConfig::new().decrease_version_requirement(BIP0031_VERSION);
    let (session, _) = config.clone().start_handshake(5, peer(70012, 0, 42), 43).unwrap();
    let (done, _) = session.clone().negotiate(Event::Verack).unwrap().unwrap();
    assert_eq!(done.feeler.effective_version, 70012);
    let (session, _) = config.start_handshake(5, peer(80000, 0, 42), 43).unwrap();
    let (done, _) = session.clone().negotiate(Event::Verack).unwrap().unwrap();
    assert_eq!(done.feeler.effective_version, 70016);
}

#[test]
fn upgrade_messages_follow_the_effective_version() {
    let config = ConnectionConfig::new().decrease_version_requirement(BIP0031_VERSION);
    let (_, messages) = config.clone().start_handshake(5, peer(70016, 0, 42), 43).unwrap();
    assert_eq!(messages, vec![Reply::WtxidRelay, Reply::SendAddrV2, Reply::SendHeaders]);
    let (_, messages) = config.clone().start_handshake(5, peer(70015, 0, 42), 43).unwrap();
    assert_eq!(messages, vec![Reply::SendHeaders]);
    let (_, messages) = config.clone().start_handshake(5, peer(SENDHEADERS_VERSION, 0, 42), 43).unwrap();
    assert_eq!(messages, vec![Reply::SendHeaders]);
    let (_, messages) = config.clone().start_handshake(5, peer(NO_BLOOM_VERSION, 0, 42), 43).unwrap();
    assert_eq!(messages, vec![Reply::FinalAlert]);
    let (_, messages) = config.start_handshake(5, peer(60000, 0, 42), 43).unwrap();
    assert_eq!(messages, vec![Reply::FinalAlert]);
}

#[test]
fn our_lower_version_limits_the_upgrades() {
    let mut config = ConnectionConfig::new().decrease_version_requirement(BIP0031_VERSION);
    config = config.offer_services(SERVICES_NETWORK);
    let (_, messages) = config.start_handshake(5, peer(90000, 0, 42), 43).unwrap();
    assert_eq!(messages, vec![Reply::WtxidRelay, Reply::SendAddrV2, Reply::SendHeaders]);
}

#[test]
fn feeler_data_records_the_peer() {
    let config = ConnectionConfig::new();
    let theirs = Event::Version(PeerVersion {
        version: 70016,
        services: SERVICES_NETWORK,
        timestamp: 1_000,
        nonce: 42,
        start_height: 812_000,
    });
    let (mut session, _) = config.start_handshake(1_250, theirs, 43).unwrap();
    let (done, _) = session.negotiate(Event::Verack).unwrap().unwrap();
    assert_eq!(done.feeler.services, SERVICES_NETWORK);
    assert_eq!(done.feeler.net_time_difference, 250);
    assert_eq!(done.feeler.reported_height, 812_000);
    assert_eq!(done.feeler.nonce, 43);
    assert_eq!(done.their_preferences, Preferences::default());
}

#[test]
fn time_difference_is_held_in_range() {
    let far = |timestamp: i64, now: i64| {
        let theirs = Event::Version(PeerVersion {
            version: 70016,
            services: 0,
            timestamp,
            nonce: 42,
            start_height: 0,
        });
        let (mut session, _) = ConnectionConfig::new().start_handshake(now, theirs, 43).unwrap();
        session.negotiate(Event::Verack).unwrap().unwrap().0.feeler.net_time_difference
    };
    assert_eq!(far(i64::MIN, 10), i64::MAX);
    assert_eq!(far(i64::MAX, -10), i64::MIN);
    assert_eq!(far(-5, 10), 15);
    assert_eq!(far(20, 10), -10);
}

#[test]
fn announcements_set_their_flags_and_stay() {
    let (mut session, _) =
        ConnectionConfig::new().start_handshake(5, peer(70016, 0, 42), 43).unwrap();
    assert!(session.negotiate(Event::SendHeaders).unwrap().is_none());
    assert!(session
        .negotiate(Event::SendCmpct(SendCmpct { send_compact: true, version: 2 }))
        .unwrap()
        .is_none());
    assert!(session.negotiate(Event::SendHeaders).unwrap().is_none());
    let (done, _) = session.negotiate(Event::Verack).unwrap().unwrap();
    assert!(done.their_preferences.sendheaders);
    assert!(!done.their_preferences.sendaddrv2);
    assert!(!done.their_preferences.sendwtxid);
    assert_eq!(done.their_preferences.sendcmpct, SendCmpct { send_compact: true, version: 2 });
}

#[test]
fn finalization_carries_our_preferences() {
    let config = ConnectionConfig::new()
        .send_cmpct(SendCmpct { send_compact: true, version: 2 })
        .fee_filter(2_500);
    let (mut session, _) = config.start_handshake(5, peer(70016, 0, 42), 43).unwrap();
    let (_, messages) = session.negotiate(Event::Verack).unwrap().unwrap();
    assert_eq!(
        messages,
        vec![
            Reply::Verack,
            Reply::SendCmpct(SendCmpct { send_compact: true, version: 2 }),
            Reply::FeeFilter(2_500),
        ]
    );
    let (mut session, _) = ConnectionConfig::new()
        .request_addr()
        .start_handshake(5, peer(70016, 0, 42), 43)
        .unwrap();
    let (_, messages) = session.negotiate(Event::Verack).unwrap().unwrap();
    assert_eq!(
        messages,
        vec![
            Reply::Verack,
            Reply::SendCmpct(SendCmpct { send_compact: false, version: 0 }),
            Reply::FeeFilter(1_000),
            Reply::GetAddr,
        ]
    );
}

#[test]
fn irrelevant_message_ends_the_negotiation() {
    let (mut session, _) =
        ConnectionConfig::new().start_handshake(5, peer(70016, 0, 42), 43).unwrap();
    assert!(session.negotiate(Event::WtxidRelay).unwrap().is_none());
    assert_eq!(
        session.negotiate(Event::Ping(1)).unwrap_err(),
        Error::IrrelevantMessage(Event::Ping(1))
    );
    let (done, _) = session.negotiate(Event::Verack).unwrap().unwrap();
    assert!(done.their_preferences.sendwtxid);
    assert!(!done.their_preferences.sendheaders);
}

#[test]
fn our_version_message_follows_the_configuration() {
    let config = ConnectionConfig::new()
        .offer_services(SERVICES_WITNESS)
        .our_height(840_000)
        .user_agent("/tester:1.0/".to_string())
        .change_network(Network::Signet);
    assert_eq!(config.network(), Network::Signet);
    let version = config.build_our_version(1_700_000_000, 77);
    assert_eq!(version.version, WTXID_RELAY_VERSION);
    assert_eq!(version.services, SERVICES_WITNESS);
    assert_eq!(version.timestamp, 1_700_000_000);
    assert_eq!(version.nonce, 77);
    assert_eq!(version.user_agent, "/tester:1.0/");
    assert_eq!(version.start_height, 840_000);
    assert!(!version.relay);
    assert_eq!(version.receiver.address, [0u16; 8]);
    assert_eq!(version.sender.port, 0);
    match version.to_message() {
        NetworkMessage::Version(wire) => {
            assert_eq!(wire.version, 70016);
            assert_eq!(wire.services, ServiceFlags::WITNESS);
            assert_eq!(wire.timestamp, 1_700_000_000);
            assert_eq!(wire.nonce, 77);
            assert_eq!(wire.user_agent, "/tester:1.0/");
            assert_eq!(wire.start_height, 840_000);
            assert_eq!(wire.receiver, useless());
            assert_eq!(wire.sender, useless());
            assert!(!wire.relay);
        }
        other => panic!("not a version message: {:?}", other),
    }
}

#[test]
fn default_configuration_is_the_new_one() {
    let config = ConnectionConfig::default();
    assert_eq!(config.network(), Network::Bitcoin);
    let version = config.build_our_version(0, 0);
    assert_eq!(version.version, 70016);
    assert_eq!(version.services, SERVICES_NONE);
    assert_eq!(version.user_agent, "/SwiftSync:0.1.0/");
    assert_eq!(version.start_height, 0);
}

#[test]
fn driver_walks_the_whole_handshake() {
    let (state, ours) = Handshake::begin(ConnectionConfig::new(), 1_000, 43);
    assert_eq!(ours.nonce, 43);
    assert_eq!(ours.timestamp, 1_000);
    let mock = build_mock_version(WTXID_RELAY_VERSION, ServiceFlags::NONE);
    let (state, out) = state.advance(Some(Event::of(&NetworkMessage::Version(mock))));
    assert!(matches!(state, Handshake::Negotiating(_)));
    assert_eq!(out, vec![Reply::WtxidRelay, Reply::SendAddrV2, Reply::SendHeaders]);
    let (state, out) = state.advance(Some(Event::WtxidRelay));
    assert!(matches!(state, Handshake::Negotiating(_)));
    assert!(out.is_empty());
    let (state, out) = state.advance(None);
    assert!(matches!(state, Handshake::Negotiating(_)));
    assert!(out.is_empty());
    let (state, out) = state.advance(Some(Event::SendAddrV2));
    assert!(out.is_empty());
    let (state, out) = state.advance(Some(Event::Verack));
    assert_eq!(
        out,
        vec![
            Reply::Verack,
            Reply::SendCmpct(SendCmpct { send_compact: false, version: 0 }),
            Reply::FeeFilter(1_000),
        ]
    );
    let done = match state {
        Handshake::Completed(done) => done,
        other => panic!("not completed: {:?}", other),
    };
    assert!(done.their_preferences.sendwtxid);
    assert!(done.their_preferences.sendaddrv2);
    assert!(!done.their_preferences.sendheaders);
    assert_eq!(done.feeler.effective_version, 70016);
    assert_eq!(done.feeler.net_time_difference, 1_000 - 222222222);
    let (state, out) = Handshake::Completed(done).advance(Some(Event::Verack));
    assert!(matches!(state, Handshake::Completed(_)));
    assert!(out.is_empty());
}

#[test]
fn driver_fails_without_a_version() {
    let (state, _) = Handshake::begin(ConnectionConfig::new(), 1_000, 43);
    let (state, out) = state.advance(None);
    assert!(matches!(state, Handshake::Failed(NetError::MissingVersion)));
    assert!(out.is_empty());
    let (state, out) = state.advance(Some(peer(70016, 0, 42)));
    assert!(matches!(state, Handshake::Failed(NetError::MissingVersion)));
    assert!(out.is_empty());
}

#[test]
fn driver_fails_for_good() {
    let (state, _) = Handshake::begin(ConnectionConfig::new(), 1_000, 43);
    let (state, out) = state.advance(Some(peer(70016, 0, 43)));
    assert!(matches!(state, Handshake::Failed(NetError::Handshake(Error::ConnectionToSelf))));
    assert!(out.is_empty());
    let (state, _) = Handshake::begin(ConnectionConfig::new(), 1_000, 43);
    let (state, _) = state.advance(Some(peer(70016, 0, 42)));
    let (state, out) = state.advance(Some(Event::Block));
    assert!(matches!(
        state,
        Handshake::Failed(NetError::Handshake(Error::IrrelevantMessage(Event::Block)))
    ));
    assert!(out.is_empty());
    let (state, _) = state.advance(Some(Event::Verack));
    assert!(matches!(state, Handshake::Failed(_)));
}
