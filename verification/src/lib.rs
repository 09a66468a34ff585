//! Bitcoin peer-to-peer connections: version negotiation, message framing and
//! the bookkeeping that keeps a negotiated connection observable.
//!
//! Times on a connection's monotonic clock are `u64` counts of nanoseconds
//! since an origin that the caller picks once per connection.
use vstd::prelude::*;
use crate::handshake::CompletedHandshake;
use crate::message::Event;
use crate::message::Network;
use crate::message::Reply;
use crate::message::SendCmpct;
use crate::rate::elapsed_between;
use crate::wire::random_nonce;

/// Automated version negotiation with remote peers
pub mod handshake;
/// The messages of the protocol, as far as the engine reads and writes them
pub mod message;
/// Framing of messages and the life of a negotiated connection
pub mod net;
/// Counters for time-sensitive messages
pub mod rate;
/// Tools for validating messages and data
pub mod validation;
/// What the engine has from the bitcoin crate
pub mod wire;

pub use crate::rate::MessageRate;
pub use crate::rate::RateSample;
pub use crate::rate::TimedMessage;
pub use crate::rate::TimedMessages;

verus! {

/// The static data related to a connection. Note that this is referred to as "feeler" data because
/// it may be used to collect data on very short-lived connections.
#[derive(Debug, Clone, Copy, PartialEq, Eq, Structural)]
pub struct FeelerData {
    /// The lowest common version of the connection.
    pub effective_version: u32,
    /// The service flags they advertise.
    pub services: u64,
    /// The net time difference between our time and what they report.
    pub net_time_difference: i64,
    /// The reported height of their block chain.
    pub reported_height: i32,
    /// The nonce used to create this connection.
    pub nonce: u64,
}

/// The peer's preferences during this connection. These are updated automatically as the peer
/// shares information.
#[derive(Debug, Clone, Copy, PartialEq, Eq, Structural)]
pub struct Preferences {
    /// Announce blocks to this peer by block header.
    pub sendheaders: bool,
    /// Send `Addrv2` addresses.
    pub sendaddrv2: bool,
    /// Compact block relay preferences.
    pub sendcmpct: SendCmpct,
    /// Advertise transactions by WTXID.
    pub sendwtxid: bool,
}

impl Preferences {
    /// The preferences of a peer that has announced none.
    pub open spec fn unset() -> Preferences {
        Preferences {
            sendheaders: false,
            sendaddrv2: false,
            sendcmpct: SendCmpct { send_compact: false, version: 0 },
            sendwtxid: false,
        }
    }

    /// Whether a message announces a preference during the handshake.
    pub open spec fn announces(event: Event) -> bool {
        event is SendHeaders || event is SendAddrV2 || event is WtxidRelay || event is SendCmpct
    }

    /// The preferences after the peer sent `event`: an opt-in sets its flag, a
    /// compact block preference replaces the last one, and no other message
    /// changes anything.
    pub open spec fn after(self, event: Event) -> Preferences {
        match event {
            Event::SendHeaders => Preferences { sendheaders: true, ..self },
            Event::SendAddrV2 => Preferences { sendaddrv2: true, ..self },
            Event::WtxidRelay => Preferences { sendwtxid: true, ..self },
            Event::SendCmpct(sendcmpct) => Preferences { sendcmpct, ..self },
            _ => self,
        }
    }

    /// The preferences after the peer sent each of `events` in turn.
    pub open spec fn after_all(self, events: Seq<Event>) -> Preferences
        decreases events.len(),
    {
        if events.len() == 0 {
            self
        } else {
            self.after_all(events.drop_last()).after(events.last())
        }
    }

    /// Whatever the peer sends, a flag that is set stays set.
    pub proof fn lemma_flags_never_clear(self, events: Seq<Event>)
        ensures
            self.sendheaders ==> self.after_all(events).sendheaders,
            self.sendaddrv2 ==> self.after_all(events).sendaddrv2,
            self.sendwtxid ==> self.after_all(events).sendwtxid,
        decreases events.len(),
    {
        if events.len() > 0 {
            self.lemma_flags_never_clear(events.drop_last());
        }
    }

    /// Starting from no preference, a flag is set after a sequence of
    /// messages exactly where its opt-in is among them.
    pub proof fn lemma_flags_follow_announcements(events: Seq<Event>)
        ensures
            Preferences::unset().after_all(events).sendheaders <==> exists|i: int|
                0 <= i < events.len() && events[i] is SendHeaders,
            Preferences::unset().after_all(events).sendaddrv2 <==> exists|i: int|
                0 <= i < events.len() && events[i] is SendAddrV2,
            Preferences::unset().after_all(events).sendwtxid <==> exists|i: int|
                0 <= i < events.len() && events[i] is WtxidRelay,
        decreases events.len(),
    {
        if events.len() > 0 {
            let before = events.drop_last();
            Preferences::lemma_flags_follow_announcements(before);
            let last = events.len() - 1;
            assert(events[last] == events.last());
            assert forall|i: int| 0 <= i < before.len() implies before[i] == events[i] by {}
            if exists|i: int| 0 <= i < before.len() && before[i] is SendHeaders {
                let i = choose|i: int| 0 <= i < before.len() && before[i] is SendHeaders;
                assert(events[i] is SendHeaders);
            }
            if exists|i: int| 0 <= i < before.len() && before[i] is SendAddrV2 {
                let i = choose|i: int| 0 <= i < before.len() && before[i] is SendAddrV2;
                assert(events[i] is SendAddrV2);
            }
            if exists|i: int| 0 <= i < before.len() && before[i] is WtxidRelay {
                let i = choose|i: int| 0 <= i < before.len() && before[i] is WtxidRelay;
                assert(events[i] is WtxidRelay);
            }
            if exists|i: int| 0 <= i < events.len() && events[i] is SendHeaders {
                let i = choose|i: int| 0 <= i < events.len() && events[i] is SendHeaders;
                if i < last {
                    assert(before[i] is SendHeaders);
                }
            }
            if exists|i: int| 0 <= i < events.len() && events[i] is SendAddrV2 {
                let i = choose|i: int| 0 <= i < events.len() && events[i] is SendAddrV2;
                if i < last {
                    assert(before[i] is SendAddrV2);
                }
            }
            if exists|i: int| 0 <= i < events.len() && events[i] is WtxidRelay {
                let i = choose|i: int| 0 <= i < events.len() && events[i] is WtxidRelay;
                if i < last {
                    assert(before[i] is WtxidRelay);
                }
            }
        }
    }

    /// The preferences of a peer that has announced none.
    pub fn new() -> (preferences: Self)
        ensures
            preferences == Preferences::unset(),
    {
        Preferences {
            sendheaders: false,
            sendaddrv2: false,
            sendcmpct: SendCmpct { send_compact: false, version: 0 },
            sendwtxid: false,
        }
    }
}

impl Default for Preferences {
    fn default() -> (preferences: Self)
        ensures
            preferences == Preferences::unset(),
    {
        Self::new()
    }
}

/// Whether the peer has answered the last ping sent to it.
#[derive(Debug, Clone, Copy, PartialEq, Eq, Structural)]
pub enum OutboundPing {
    /// A ping is on its way and its answer is awaited.
    Waiting {
        /// The nonce of the ping.
        nonce: u64,
        /// When the ping was sent.
        then: u64,
    },
    /// No ping is on its way.
    LastReceived {
        /// When the connection was last known to be alive.
        then: u64,
    },
}

impl OutboundPing {
    /// Whether a ping is to be sent at `now`: none is on its way, and more
    /// than `interval` has passed since the connection was last known alive.
    pub open spec fn due(self, now: u64, interval: u64) -> bool {
        self matches OutboundPing::LastReceived { then } && elapsed_between(then, now) > interval
    }

    /// The state after the writer looked at it at `now` with `nonce` at hand.
    pub open spec fn after_probe(self, now: u64, interval: u64, nonce: u64) -> OutboundPing {
        if self.due(now, interval) {
            OutboundPing::Waiting { nonce, then: now }
        } else {
            self
        }
    }

    /// The state after a pong with `nonce` came in at `now`.
    pub open spec fn after_reply(self, nonce: u64, now: u64) -> OutboundPing {
        match self {
            OutboundPing::Waiting { nonce: awaited, then } => if awaited == nonce {
                OutboundPing::LastReceived { then: now }
            } else {
                self
            },
            OutboundPing::LastReceived { then } => self,
        }
    }

    /// Whether at `now` a ping has gone unanswered for more than `timeout`.
    pub open spec fn lapsed(self, now: u64, timeout: u64) -> bool {
        self matches OutboundPing::Waiting { nonce, then } && elapsed_between(then, now) > timeout
    }

    /// From a connection known alive at `then`, once more than the interval
    /// has passed, the writer sends one ping and waits; while it waits it
    /// sends no other; a pong with another nonce changes nothing; and the
    /// pong with the nonce of the ping makes the connection known alive again.
    pub proof fn lemma_ping_cycle(
        then: u64,
        now: u64,
        interval: u64,
        nonce: u64,
        later: u64,
        second: u64,
        other: u64,
    )
        requires
            elapsed_between(then, now) > interval,
            other != nonce,
        ensures
            ({
                let alive = OutboundPing::LastReceived { then };
                let waiting = OutboundPing::Waiting { nonce, then: now };
                &&& alive.due(now, interval)
                &&& alive.after_probe(now, interval, nonce) == waiting
                &&& !waiting.due(later, interval)
                &&& waiting.after_probe(later, interval, second) == waiting
                &&& waiting.after_reply(other, later) == waiting
                &&& waiting.after_reply(nonce, later) == OutboundPing::LastReceived { then: later }
                &&& !alive.lapsed(later, interval)
            }),
    {
    }

    /// The state of a connection known alive at `now`.
    pub fn new(now: u64) -> (state: Self)
        ensures
            state == (OutboundPing::LastReceived { then: now }),
    {
        OutboundPing::LastReceived { then: now }
    }

    /// The writer's look at the state at `now`, with `nonce` at hand: where a
    /// ping is due, the state waits for the answer to `nonce` and the ping to
    /// send is returned; else nothing changes and nothing is to be sent.
    pub fn probe(&mut self, now: u64, interval: u64, nonce: u64) -> (ping: Option<Reply>)
        ensures
            *final(self) == old(self).after_probe(now, interval, nonce),
            ping == if old(self).due(now, interval) {
                Some(Reply::Ping(nonce))
            } else {
                None
            },
    {
        match *self {
            OutboundPing::LastReceived { then } => {
                let elapsed: u64 = if now >= then {
                    now - then
                } else {
                    0
                };
                if elapsed > interval {
                    *self = OutboundPing::Waiting { nonce, then: now };
                    Some(Reply::Ping(nonce))
                } else {
                    None
                }
            },
            OutboundPing::Waiting { nonce: _, then: _ } => None,
        }
    }

    /// The writer's look at the state at `now`. Where a ping is due it draws a
    /// nonce at random and does as [`OutboundPing::probe`] does with it;
    /// whatever nonce is drawn, the ping returned carries the nonce awaited.
    pub fn keep_alive(&mut self, now: u64, interval: u64) -> (ping: Option<Reply>)
        ensures
            match ping {
                Some(Reply::Ping(nonce)) => old(self).due(now, interval) && *final(self) == (
                OutboundPing::Waiting { nonce, then: now }),
                Some(_) => false,
                None => !old(self).due(now, interval) && *final(self) == *old(self),
            },
    {
        match *self {
            OutboundPing::LastReceived { then } => {
                let nonce: u64 = random_nonce();
                self.probe(now, interval, nonce)
            },
            OutboundPing::Waiting { nonce: _, then: _ } => None,
        }
    }

    /// Takes the nonce of a pong that came in at `now`: the one awaited makes
    /// the connection known alive at `now`, any other is ignored.
    pub fn confirm(&mut self, nonce: u64, now: u64)
        ensures
            *final(self) == old(self).after_reply(nonce, now),
    {
        match *self {
            OutboundPing::Waiting { nonce: awaited, then: _ } => {
                if awaited == nonce {
                    *self = OutboundPing::LastReceived { then: now };
                }
            },
            OutboundPing::LastReceived { then: _ } => {},
        }
    }

    /// Has the peer failed to answer a ping for more than `timeout` at `now`.
    pub fn timed_out(&self, now: u64, timeout: u64) -> (lapsed: bool)
        ensures
            lapsed == self.lapsed(now, timeout),
    {
        match *self {
            OutboundPing::Waiting { nonce: _, then } => {
                let elapsed: u64 = if now >= then {
                    now - then
                } else {
                    0
                };
                elapsed > timeout
            },
            OutboundPing::LastReceived { then: _ } => false,
        }
    }
}

/// What the metrics of a connection hold.
pub ghost struct MetricsModel {
    pub feeler: FeelerData,
    pub their_preferences: Preferences,
    pub timed_messages: Map<TimedMessage, MessageRate>,
    pub start_time: u64,
    pub outbound_ping_state: OutboundPing,
}

/// The counters after `event` came in at `now`: a block, a batch of headers
/// or a compact filter counts once for its kind, a list of addresses counts
/// once for each address, and no other message counts.
pub open spec fn counted(
    timed: Map<TimedMessage, MessageRate>,
    event: Event,
    now: u64,
) -> Map<TimedMessage, MessageRate> {
    match event {
        Event::Block => timed.insert(TimedMessage::Block, timed[TimedMessage::Block].after(1, now)),
        Event::Headers => timed.insert(
            TimedMessage::BlockHeaders,
            timed[TimedMessage::BlockHeaders].after(1, now),
        ),
        Event::CFilter => timed.insert(
            TimedMessage::CFilters,
            timed[TimedMessage::CFilters].after(1, now),
        ),
        Event::Addr(n) => timed.insert(
            TimedMessage::Addr,
            timed[TimedMessage::Addr].after(n as u64, now),
        ),
        Event::AddrV2(n) => timed.insert(
            TimedMessage::Addr,
            timed[TimedMessage::Addr].after(n as u64, now),
        ),
        _ => timed,
    }
}

impl MetricsModel {
    /// The metrics after the reader took `event` at `now`: the preferences
    /// follow an announcement, the counters a timed message, and the ping
    /// state a pong; the rest stays.
    pub open spec fn observed(self, event: Event, now: u64) -> MetricsModel {
        MetricsModel {
            their_preferences: self.their_preferences.after(event),
            timed_messages: counted(self.timed_messages, event, now),
            outbound_ping_state: match event {
                Event::Pong(nonce) => self.outbound_ping_state.after_reply(nonce, now),
                _ => self.outbound_ping_state,
            },
            ..self
        }
    }
}

/// Data collected during a connection that is continually updated in the background
#[derive(Debug, Clone, Copy)]
pub struct ConnectionMetrics {
    feeler: FeelerData,
    their_preferences: Preferences,
    timed_messages: TimedMessages,
    start_time: u64,
    outbound_ping_state: OutboundPing,
}

impl View for ConnectionMetrics {
    type V = MetricsModel;

    closed spec fn view(&self) -> MetricsModel {
        MetricsModel {
            feeler: self.feeler,
            their_preferences: self.their_preferences,
            timed_messages: self.timed_messages@,
            start_time: self.start_time,
            outbound_ping_state: self.outbound_ping_state,
        }
    }
}

impl ConnectionMetrics {
    /// The metrics of a connection whose handshake completed at `now`: what
    /// the handshake left, no message counted, and the peer known alive.
    pub fn new(completed: CompletedHandshake, now: u64) -> (metrics: Self)
        ensures
            metrics@.feeler == completed.feeler,
            metrics@.their_preferences == completed.their_preferences,
            forall|message: TimedMessage| #[trigger]
                metrics@.timed_messages[message] == MessageRate::NoneReceived,
            metrics@.start_time == now,
            metrics@.outbound_ping_state == (OutboundPing::LastReceived { then: now }),
    {
        ConnectionMetrics {
            feeler: completed.feeler,
            their_preferences: completed.their_preferences,
            timed_messages: TimedMessages::new(),
            start_time: now,
            outbound_ping_state: OutboundPing::new(now),
        }
    }

    /// Static data about the peer
    pub fn feeler_data(&self) -> (feeler: &FeelerData)
        ensures
            *feeler == self@.feeler,
    {
        &self.feeler
    }

    /// Their current preferences for message exchange.
    pub fn their_preferences(&self) -> (preferences: Preferences)
        ensures
            preferences == self@.their_preferences,
    {
        self.their_preferences
    }

    /// The message rate for a time-sensitive message
    pub fn message_rate(&self, timed_message: TimedMessage) -> (rate: MessageRate)
        ensures
            rate == self@.timed_messages[timed_message],
    {
        *self.timed_messages.message_rate(timed_message)
    }

    /// Time the connection has remained open.
    pub fn connection_time(&self, now: u64) -> (open: u64)
        ensures
            open == elapsed_between(self@.start_time, now),
    {
        if now >= self.start_time {
            now - self.start_time
        } else {
            0
        }
    }

    /// Has the connection failed to respond to a ping after the given duration.
    pub fn ping_timed_out(&self, now: u64, timeout: u64) -> (lapsed: bool)
        ensures
            lapsed == self@.outbound_ping_state.lapsed(now, timeout),
    {
        self.outbound_ping_state.timed_out(now, timeout)
    }

    /// What the reader does with a message that came in at `now`.
    pub fn observe(&mut self, event: Event, now: u64)
        ensures
            final(self)@ == old(self)@.observed(event, now),
    {
        match event {
            Event::SendHeaders => {
                self.their_preferences.sendheaders = true;
            },
            Event::SendAddrV2 => {
                self.their_preferences.sendaddrv2 = true;
            },
            Event::WtxidRelay => {
                self.their_preferences.sendwtxid = true;
            },
            Event::SendCmpct(cmpct) => {
                self.their_preferences.sendcmpct = cmpct;
            },
            Event::Block => {
                self.timed_messages.add_single(TimedMessage::Block, now);
            },
            Event::Headers => {
                self.timed_messages.add_single(TimedMessage::BlockHeaders, now);
            },
            Event::CFilter => {
                self.timed_messages.add_single(TimedMessage::CFilters, now);
            },
            Event::Addr(n) => {
                self.timed_messages.add_many(TimedMessage::Addr, n, now);
            },
            Event::AddrV2(n) => {
                self.timed_messages.add_many(TimedMessage::Addr, n, now);
            },
            Event::Pong(nonce) => {
                self.outbound_ping_state.confirm(nonce, now);
            },
            _ => {},
        }
    }

    /// What the writer does when it has nothing to send at `now`: where a
    /// ping is due, it is returned with a nonce drawn at random and its
    /// answer is awaited; else nothing changes.
    pub fn keep_alive(&mut self, now: u64, interval: u64) -> (ping: Option<Reply>)
        ensures
            match ping {
                Some(Reply::Ping(nonce)) => {
                    &&& old(self)@.outbound_ping_state.due(now, interval)
                    &&& final(self)@ == (MetricsModel {
                        outbound_ping_state: OutboundPing::Waiting { nonce, then: now },
                        ..old(self)@
                    })
                },
                Some(_) => false,
                None => !old(self)@.outbound_ping_state.due(now, interval) && final(self)@ == old(
                    self,
                )@,
            },
    {
        self.outbound_ping_state.keep_alive(now, interval)
    }
}

/// The hosts that name peers of the main network.
pub open spec fn bitcoin_seeds() -> Seq<&'static str> {
    seq![
        "seed.bitcoin.sipa.be",
        "dnsseed.bluematt.me",
        "dnsseed.bitcoin.dashjr.org",
        "seed.bitcoinstats.com",
        "seed.bitcoin.jonasschnelli.ch",
        "seed.btc.petertodd.org",
        "seed.bitcoin.sprovoost.nl",
        "dnsseed.emzy.de",
        "seed.bitcoin.wiz.biz",
    ]
}

/// The hosts that name peers of the signet network.
pub open spec fn signet_seeds() -> Seq<&'static str> {
    seq!["seed.signet.bitcoin.sprovoost.nl", "seed.signet.achownodes.xyz"]
}

/// DNS seed provider
pub trait SeedsExt {
    /// Whether seeds are known for this network.
    spec fn seeded(&self) -> bool;

    /// The seeds of this network.
    spec fn seed_hosts(&self) -> Seq<&'static str>;

    /// List DNS seeds
    fn seeds(&self) -> (hosts: Vec<&'static str>)
        requires
            self.seeded(),
        ensures
            hosts@ == self.seed_hosts(),
    ;
}

impl SeedsExt for Network {
    /// Seeds are known for the main network and for signet; a regression
    /// test network has none, and needs none.
    open spec fn seeded(&self) -> bool {
        *self is Bitcoin || *self is Signet || *self is Regtest
    }

    open spec fn seed_hosts(&self) -> Seq<&'static str> {
        match *self {
            Network::Bitcoin => bitcoin_seeds(),
            Network::Signet => signet_seeds(),
            _ => Seq::empty(),
        }
    }

    fn seeds(&self) -> (hosts: Vec<&'static str>) {
        let mut hosts: Vec<&'static str> = Vec::new();
        match *self {
            Network::Bitcoin => {
                hosts.push("seed.bitcoin.sipa.be");
                hosts.push("dnsseed.bluematt.me");
                hosts.push("dnsseed.bitcoin.dashjr.org");
                hosts.push("seed.bitcoinstats.com");
                hosts.push("seed.bitcoin.jonasschnelli.ch");
                hosts.push("seed.btc.petertodd.org");
                hosts.push("seed.bitcoin.sprovoost.nl");
                hosts.push("dnsseed.emzy.de");
                hosts.push("seed.bitcoin.wiz.biz");
                assert(hosts@ =~= bitcoin_seeds());
            },
            Network::Signet => {
                hosts.push("seed.signet.bitcoin.sprovoost.nl");
                hosts.push("seed.signet.achownodes.xyz");
                assert(hosts@ =~= signet_seeds());
            },
            _ => {
                assert(hosts@ =~= Seq::<&'static str>::empty());
            },
        }
        hosts
    }
}

} // verus!
