use bitcoin_p2p::handshake::CompletedHandshake;
use bitcoin_p2p::message::{Event, Network, Reply, SendCmpct};
use bitcoin_p2p::{
    ConnectionMetrics, FeelerData, MessageRate, OutboundPing, Preferences, RateSample, SeedsExt,
    TimedMessage, TimedMessages,
};

const SECOND: u64 = 1_000_000_000;

fn per_second(sample: RateSample) -> f64 {
    sample.count as f64 / (sample.elapsed as f64 / SECOND as f64)
}

fn completed() -> CompletedHandshake {
    CompletedHandshake {
        feeler: FeelerData {
            effective_version: 70016,
            services: 9,
            net_time_difference: -3,
            reported_height: 800_000,
            nonce: 43,
        },
        their_preferences: Preferences::default(),
    }
}

#[test]
fn test_message_rate() {
    let now = 5 * SECOND;
    let later = now + 10 * SECOND;
    let mut rate = MessageRate::new();
    rate.add_messages(0, now);
    assert!(matches!(rate, MessageRate::NoneReceived));
    rate.add_single_message(now);
    rate.add_messages(9, later);
    assert_eq!(per_second(rate.messages_per_secs(later).unwrap()), 1.);
    rate.add_messages(10, later);
    assert_eq!(per_second(rate.messages_per_secs(later).unwrap()), 2.);
}

#[test]
fn test_timed_messages() {
    let now = 5 * SECOND;
    let later = now + 10 * SECOND;
    let mut timed_messages = TimedMessages::new();
    timed_messages.add_many(TimedMessage::Addr, 1_000, now);
    let msg_per_secs = per_second(
        timed_messages
            .message_rate(TimedMessage::Addr)
            .messages_per_secs(later)
            .unwrap(),
    );
    assert_eq!(100., msg_per_secs);
    assert!(
        timed_messages
            .message_rate(TimedMessage::Addr)
            .total_count()
            == 1_000
    );
}

#[test]
fn no_message_means_no_rate() {
    let rate = MessageRate::new();
    assert_eq!(rate.messages_per_secs(7), None);
    assert_eq!(rate.total_count(), 0);
    let timed = TimedMessages::default();
    for kind in [
        TimedMessage::BlockHeaders,
        TimedMessage::CFilters,
        TimedMessage::Block,
        TimedMessage::Addr,
    ] {
        assert_eq!(*timed.message_rate(kind), MessageRate::NoneReceived);
    }
}

#[test]
fn rate_keeps_the_first_timestamp() {
    let mut rate = MessageRate::new();
    rate.add_messages(3, 100);
    rate.add_messages(4, 900);
    assert_eq!(rate, MessageRate::Ongoing { count: 7, start: 100 });
    assert_eq!(rate.messages_per_secs(1_100), Some(RateSample { count: 7, elapsed: 1_000 }));
    assert_eq!(rate.messages_per_secs(50), Some(RateSample { count: 7, elapsed: 0 }));
    assert_eq!(rate.total_count(), 7);
}

#[test]
fn counts_stop_at_the_largest_number() {
    let mut rate = MessageRate::Ongoing { count: u64::MAX - 1, start: 0 };
    rate.add_messages(5, 10);
    assert_eq!(rate, MessageRate::Ongoing { count: u64::MAX, start: 0 });
    assert_eq!(rate.total_count(), u32::MAX);
    let rate = MessageRate::Ongoing { count: u32::MAX as u64, start: 0 };
    assert_eq!(rate.total_count(), u32::MAX);
    let rate = MessageRate::Ongoing { count: u32::MAX as u64 - 1, start: 0 };
    assert_eq!(rate.total_count(), u32::MAX - 1);
}

#[test]
fn kinds_are_counted_apart() {
    let mut timed = TimedMessages::new();
    timed.add_single(TimedMessage::Block, 10);
    timed.add_single(TimedMessage::Block, 20);
    timed.add_many(TimedMessage::CFilters, 5, 30);
    assert_eq!(
        *timed.message_rate(TimedMessage::Block),
        MessageRate::Ongoing { count: 2, start: 10 }
    );
    assert_eq!(
        *timed.message_rate(TimedMessage::CFilters),
        MessageRate::Ongoing { count: 5, start: 30 }
    );
    assert_eq!(*timed.message_rate(TimedMessage::Addr), MessageRate::NoneReceived);
    assert_eq!(*timed.message_rate(TimedMessage::BlockHeaders), MessageRate::NoneReceived);
}

#[test]
fn ping_cycle() {
    let interval = 30 * SECOND;
    let mut ping = OutboundPing::new(0);
    assert_eq!(ping.probe(30 * SECOND, interval, 7), None);
    assert_eq!(ping, OutboundPing::LastReceived { then: 0 });
    assert!(!ping.timed_out(100 * SECOND, SECOND));
    assert_eq!(ping.probe(30 * SECOND + 1, interval, 7), Some(Reply::Ping(7)));
    assert_eq!(ping, OutboundPing::Waiting { nonce: 7, then: 30 * SECOND + 1 });
    assert_eq!(ping.probe(90 * SECOND, interval, 8), None);
    assert_eq!(ping, OutboundPing::Waiting { nonce: 7, then: 30 * SECOND + 1 });
    ping.confirm(8, 40 * SECOND);
    assert_eq!(ping, OutboundPing::Waiting { nonce: 7, then: 30 * SECOND + 1 });
    assert!(!ping.timed_out(40 * SECOND, 10 * SECOND));
    assert!(ping.timed_out(41 * SECOND, 10 * SECOND));
    ping.confirm(7, 42 * SECOND);
    assert_eq!(ping, OutboundPing::LastReceived { then: 42 * SECOND });
    assert!(!ping.timed_out(400 * SECOND, 10 * SECOND));
}

#[test]
fn keep_alive_draws_the_nonce_it_awaits() {
    let mut ping = OutboundPing::new(0);
    assert_eq!(ping.keep_alive(10, 10), None);
    assert_eq!(ping, OutboundPing::LastReceived { then: 0 });
    let nonce = match ping.keep_alive(11, 10) {
        Some(Reply::Ping(nonce)) => nonce,
        other => panic!("no ping: {:?}", other),
    };
    assert_eq!(ping, OutboundPing::Waiting { nonce, then: 11 });
    assert_eq!(ping.keep_alive(1_000, 10), None);
    ping.confirm(nonce.wrapping_add(1), 20);
    assert_eq!(ping, OutboundPing::Waiting { nonce, then: 11 });
    ping.confirm(nonce, 20);
    assert_eq!(ping, OutboundPing::LastReceived { then: 20 });
}

#[test]
fn metrics_start_from_the_handshake() {
    let metrics = ConnectionMetrics::new(completed(), 1_000);
    assert_eq!(*metrics.feeler_data(), completed().feeler);
    assert_eq!(metrics.their_preferences(), Preferences::default());
    assert_eq!(metrics.message_rate(TimedMessage::Block), MessageRate::NoneReceived);
    assert_eq!(metrics.connection_time(4_000), 3_000);
    assert_eq!(metrics.connection_time(500), 0);
    assert!(!metrics.ping_timed_out(u64::MAX, 0));
}

#[test]
fn reader_updates_the_metrics() {
    let mut metrics = ConnectionMetrics::new(completed(), 0);
    metrics.observe(Event::SendHeaders, 1);
    metrics.observe(Event::SendCmpct(SendCmpct { send_compact: true, version: 2 }), 2);
    metrics.observe(Event::Block, 3);
    metrics.observe(Event::Headers, 4);
    metrics.observe(Event::CFilter, 5);
    metrics.observe(Event::Addr(10), 6);
    metrics.observe(Event::AddrV2(5), 7);
    metrics.observe(Event::Addr(0), 8);
    metrics.observe(Event::Inv(4), 9);
    metrics.observe(Event::Pong(1), 10);
    let preferences = metrics.their_preferences();
    assert!(preferences.sendheaders);
    assert!(!preferences.sendaddrv2);
    assert!(!preferences.sendwtxid);
    assert_eq!(preferences.sendcmpct, SendCmpct { send_compact: true, version: 2 });
    assert_eq!(
        metrics.message_rate(TimedMessage::Block),
        MessageRate::Ongoing { count: 1, start: 3 }
    );
    assert_eq!(
        metrics.message_rate(TimedMessage::BlockHeaders),
        MessageRate::Ongoing { count: 1, start: 4 }
    );
    assert_eq!(
        metrics.message_rate(TimedMessage::CFilters),
        MessageRate::Ongoing { count: 1, start: 5 }
    );
    assert_eq!(
        metrics.message_rate(TimedMessage::Addr),
        MessageRate::Ongoing { count: 15, start: 6 }
    );
    assert!(!metrics.ping_timed_out(1_000, 1));
}

#[test]
fn metrics_follow_the_ping() {
    let mut metrics = ConnectionMetrics::new(completed(), 0);
    assert_eq!(metrics.keep_alive(5, 10), None);
    let nonce = match metrics.keep_alive(11, 10) {
        Some(Reply::Ping(nonce)) => nonce,
        other => panic!("no ping: {:?}", other),
    };
    assert!(metrics.ping_timed_out(100, 50));
    assert!(!metrics.ping_timed_out(61, 50));
    metrics.observe(Event::Pong(nonce.wrapping_add(1)), 70);
    assert!(metrics.ping_timed_out(100, 50));
    metrics.observe(Event::Pong(nonce), 80);
    assert!(!metrics.ping_timed_out(1_000, 50));
    assert_eq!(metrics.keep_alive(90, 10), None);
    assert!(metrics.keep_alive(91, 10).is_some());
}

#[test]
fn seeds_of_each_network() {
    assert_eq!(
        Network::Bitcoin.seeds(),
        vec![
            "seed.bitcoin.sipa.be",
            "dnsseed.bluematt.me",
            "dnsseed.bitcoin.dashjr.org",
            "seed.bitcoinstats.com",
            "seed.bitcoin.jonasschnelli.ch",
            "seed.btc.petertodd.org",
            "seed.bitcoin.sprovoost.nl",
            "dnsseed.emzy.de",
            "seed.bitcoin.wiz.biz",
        ]
    );
    assert_eq!(
        Network::Signet.seeds(),
        vec!["seed.signet.bitcoin.sprovoost.nl", "seed.signet.achownodes.xyz"]
    );
    assert!(Network::Regtest.seeds().is_empty());
}
