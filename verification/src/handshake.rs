use vstd::prelude::*;
use crate::message::Address;
use crate::message::Event;
use crate::message::Network;
use crate::message::PeerVersion;
use crate::message::Reply;
use crate::message::SendCmpct;
use crate::message::VersionMessage;
use crate::message::ADDRV2_VERSION;
use crate::message::MIN_PEER_PROTO_VERSION;
use crate::message::SENDHEADERS_VERSION;
use crate::message::SERVICES_NONE;
use crate::message::WTXID_RELAY_VERSION;
use crate::wire::services_include;
use crate::FeelerData;
use crate::Preferences;

verus! {

/// The fee filter of a new configuration, in satoshis per thousand virtual
/// bytes: the lowest rate at which transactions are relayed.
pub const BROADCAST_MIN_FEE: i64 = 1000;

/// Errors that occur during a handshake
#[derive(Debug, Clone, Copy, PartialEq, Eq)]
pub enum Error {
    /// The peer sent some irrelevant message
    IrrelevantMessage(Event),
    /// A circular connection was made
    ConnectionToSelf,
    /// The version the peer advertises is too low
    TooLowVersion(u32),
    /// The peer is missing a required service
    MissingService(u64),
}

/// What a configuration holds.
pub ghost struct ConfigModel {
    pub our_version: u32,
    pub our_services: u64,
    pub expected_version: u32,
    pub expected_services: u64,
    pub send_cmpct: SendCmpct,
    pub user_agent: Seq<char>,
    pub our_height: i32,
    pub fee_filter: i64,
    pub network: Network,
    pub request_addr: bool,
}

/// What a handshake holds between the peer's version and its acknowledgment.
pub ghost struct SessionModel {
    pub feeler: FeelerData,
    pub their_preferences: Preferences,
    pub fee_filter: i64,
    pub send_cmpct: SendCmpct,
    pub request_addr: bool,
}

/// The lowest version accepted of a peer: the configured one, but never below
/// the lowest that any peer may speak.
pub open spec fn version_floor(expected_version: u32) -> u32 {
    if expected_version >= MIN_PEER_PROTO_VERSION {
        expected_version
    } else {
        MIN_PEER_PROTO_VERSION
    }
}

/// The version that both sides speak: the lower of the two.
pub open spec fn effective_version(ours: u32, theirs: u32) -> u32 {
    if ours <= theirs {
        ours
    } else {
        theirs
    }
}

/// Whether every service in `required` is among those in `offered`.
pub open spec fn services_cover(offered: u64, required: u64) -> bool {
    (offered | required) == offered
}

/// Our clock minus theirs in seconds, held to what an `i64` can store.
pub open spec fn time_difference(ours: i64, theirs: i64) -> i64 {
    if ours - theirs > i64::MAX {
        i64::MAX
    } else if ours - theirs < i64::MIN {
        i64::MIN
    } else {
        (ours - theirs) as i64
    }
}

/// The messages sent once the peer's version is accepted, decided by the
/// effective version alone: first the opt-in to relay by witness transaction
/// id, then the opt-in to the second address format, each where the version
/// allows it; last the opt-in to announcements by header or, below its
/// version, the final alert in its place.
pub open spec fn upgrade_messages(effective: u32) -> Seq<Reply> {
    let wtxid = if effective >= WTXID_RELAY_VERSION {
        seq![Reply::WtxidRelay]
    } else {
        Seq::<Reply>::empty()
    };
    let addrv2 = if effective >= ADDRV2_VERSION {
        seq![Reply::SendAddrV2]
    } else {
        Seq::<Reply>::empty()
    };
    let last = if effective >= SENDHEADERS_VERSION {
        Reply::SendHeaders
    } else {
        Reply::FinalAlert
    };
    wtxid + addrv2 + seq![last]
}

/// The address that stands for "none" in a version message.
pub open spec fn unroutable(address: Address) -> bool {
    &&& address.services == SERVICES_NONE
    &&& address.port == 0
    &&& address.address@ == Seq::new(8, |i: int| 0u16)
}

impl ConfigModel {
    /// Why the first message of a peer ends the handshake, if it does: it is
    /// no version message; or it carries our own nonce; or its version is
    /// below the floor; or it lacks a required service. The first reason that
    /// holds, in this order, is the one returned.
    pub open spec fn refusal(self, event: Event, nonce: u64) -> Option<Error> {
        match event {
            Event::Version(theirs) => {
                if theirs.nonce == nonce {
                    Some(Error::ConnectionToSelf)
                } else if theirs.version < version_floor(self.expected_version) {
                    Some(Error::TooLowVersion(theirs.version))
                } else if !services_cover(theirs.services, self.expected_services) {
                    Some(Error::MissingService(theirs.services))
                } else {
                    None
                }
            },
            other => Some(Error::IrrelevantMessage(other)),
        }
    }

    /// The session that an accepted version opens at `unix_time`.
    pub open spec fn session(self, unix_time: i64, theirs: PeerVersion, nonce: u64) -> SessionModel {
        SessionModel {
            feeler: FeelerData {
                effective_version: effective_version(self.our_version, theirs.version),
                services: theirs.services,
                net_time_difference: time_difference(unix_time, theirs.timestamp),
                reported_height: theirs.start_height,
                nonce,
            },
            their_preferences: Preferences::unset(),
            fee_filter: self.fee_filter,
            send_cmpct: self.send_cmpct,
            request_addr: self.request_addr,
        }
    }
}

impl SessionModel {
    /// The messages sent when the peer acknowledges our version: the
    /// acknowledgment in return, our compact block preference, our fee filter
    /// and, where the configuration asked for it, a request for addresses.
    pub open spec fn finalization(self) -> Seq<Reply> {
        let fixed = seq![
            Reply::Verack,
            Reply::SendCmpct(self.send_cmpct),
            Reply::FeeFilter(self.fee_filter),
        ];
        if self.request_addr {
            fixed.push(Reply::GetAddr)
        } else {
            fixed
        }
    }
}

/// Build a connection according to a list of preferences
#[derive(Debug, Clone)]
pub struct ConnectionConfig {
    our_version: u32,
    our_services: u64,
    expected_version: u32,
    expected_services: u64,
    send_cmpct: SendCmpct,
    user_agent: String,
    our_height: i32,
    fee_filter: i64,
    network: Network,
    request_addr: bool,
}

impl View for ConnectionConfig {
    type V = ConfigModel;

    closed spec fn view(&self) -> ConfigModel {
        ConfigModel {
            our_version: self.our_version,
            our_services: self.our_services,
            expected_version: self.expected_version,
            expected_services: self.expected_services,
            send_cmpct: self.send_cmpct,
            user_agent: self.user_agent@,
            our_height: self.our_height,
            fee_filter: self.fee_filter,
            network: self.network,
            request_addr: self.request_addr,
        }
    }
}

impl ConnectionConfig {
    /// What a new configuration holds: the newest version on both sides, no
    /// service offered or required, mainnet, and nothing asked of the peer.
    pub open spec fn new_spec() -> ConfigModel {
        ConfigModel {
            our_version: WTXID_RELAY_VERSION,
            our_services: SERVICES_NONE,
            expected_version: WTXID_RELAY_VERSION,
            expected_services: SERVICES_NONE,
            send_cmpct: SendCmpct { send_compact: false, version: 0 },
            user_agent: "/SwiftSync:0.1.0/"@,
            our_height: 0,
            fee_filter: BROADCAST_MIN_FEE,
            network: Network::Bitcoin,
            request_addr: false,
        }
    }

    /// Start a new connection on the bitcoin network
    pub fn new() -> (config: Self)
        ensures
            config@ == ConnectionConfig::new_spec(),
    {
        ConnectionConfig {
            our_version: WTXID_RELAY_VERSION,
            our_services: SERVICES_NONE,
            expected_version: WTXID_RELAY_VERSION,
            expected_services: SERVICES_NONE,
            send_cmpct: SendCmpct { send_compact: false, version: 0 },
            user_agent: "/SwiftSync:0.1.0/".to_owned(),
            our_height: 0,
            fee_filter: BROADCAST_MIN_FEE,
            network: Network::Bitcoin,
            request_addr: false,
        }
    }

    /// Change the network
    pub fn change_network(self, network: Network) -> (config: Self)
        ensures
            config@ == (ConfigModel { network, ..self@ }),
    {
        let mut config = self;
        config.network = network;
        config
    }

    /// Fetch the current network
    pub fn network(&self) -> (network: Network)
        ensures
            network == self@.network,
    {
        self.network
    }

    /// Request the peer gossip new addresses at the beginning of the connection
    pub fn request_addr(self) -> (config: Self)
        ensures
            config@ == (ConfigModel { request_addr: true, ..self@ }),
    {
        let mut config = self;
        config.request_addr = true;
        config
    }

    /// Decrease the minimum accepted version
    pub fn decrease_version_requirement(self, protocol_version: u32) -> (config: Self)
        ensures
            config@ == (ConfigModel { expected_version: protocol_version, ..self@ }),
    {
        let mut config = self;
        config.expected_version = protocol_version;
        config
    }

    /// Set the requirement of what services the peer needs
    pub fn set_service_requirement(self, service_flags: u64) -> (config: Self)
        ensures
            config@ == (ConfigModel { expected_services: service_flags, ..self@ }),
    {
        let mut config = self;
        config.expected_services = service_flags;
        config
    }

    /// Offer services to the peer
    pub fn offer_services(self, service_flags: u64) -> (config: Self)
        ensures
            config@ == (ConfigModel { our_services: service_flags, ..self@ }),
    {
        let mut config = self;
        config.our_services = service_flags;
        config
    }

    /// Set a custom user agent describing this software
    pub fn user_agent(self, user_agent: String) -> (config: Self)
        ensures
            config@ == (ConfigModel { user_agent: user_agent@, ..self@ }),
    {
        let mut config = self;
        config.user_agent = user_agent;
        config
    }

    /// Advertise a compact block version
    pub fn send_cmpct(self, send_cmpct: SendCmpct) -> (config: Self)
        ensures
            config@ == (ConfigModel { send_cmpct, ..self@ }),
    {
        let mut config = self;
        config.send_cmpct = send_cmpct;
        config
    }

    /// Report a block chain height other than zero
    pub fn our_height(self, height: i32) -> (config: Self)
        ensures
            config@ == (ConfigModel { our_height: height, ..self@ }),
    {
        let mut config = self;
        config.our_height = height;
        config
    }

    /// Advertise the minimum fee rate required to gossip transactions, in
    /// satoshis per thousand virtual bytes. No fee rate is below zero.
    pub fn fee_filter(self, fee_filter: i64) -> (config: Self)
        requires
            fee_filter >= 0,
        ensures
            config@ == (ConfigModel { fee_filter, ..self@ }),
    {
        let mut config = self;
        config.fee_filter = fee_filter;
        config
    }

    /// The version message that opens a connection from this side at
    /// `unix_time`, seconds since the Unix epoch, under `nonce`. It names no
    /// address of either side and asks for no transaction relay.
    pub fn build_our_version(&self, unix_time: i64, nonce: u64) -> (version: VersionMessage)
        ensures
            version.version == self@.our_version,
            version.services == self@.our_services,
            version.timestamp == unix_time,
            unroutable(version.receiver),
            unroutable(version.sender),
            version.nonce == nonce,
            version.user_agent@ == self@.user_agent,
            version.start_height == self@.our_height,
            !version.relay,
    {
        let none = Address { services: SERVICES_NONE, address: [0u16; 8], port: 0 };
        assert(none.address@ =~= Seq::new(8, |i: int| 0u16));
        VersionMessage {
            version: self.our_version,
            services: self.our_services,
            timestamp: unix_time,
            receiver: none,
            sender: none,
            nonce,
            user_agent: self.user_agent.clone(),
            start_height: self.our_height,
            relay: false,
        }
    }

    /// Judges the first message of a peer, read at `unix_time` on a
    /// connection opened under `nonce`. A version message that passes opens
    /// the session and yields the upgrade messages to send; anything else
    /// ends the handshake with the reason.
    pub fn start_handshake(self, unix_time: i64, event: Event, nonce: u64) -> (started: Result<
        (InitializedHandshake, Vec<Reply>),
        Error,
    >)
        ensures
            match started {
                Ok((handshake, messages)) => {
                    &&& self@.refusal(event, nonce) is None
                    &&& event matches Event::Version(theirs)
                    &&& handshake@ == self@.session(unix_time, theirs, nonce)
                    &&& messages@ == upgrade_messages(handshake@.feeler.effective_version)
                },
                Err(e) => self@.refusal(event, nonce) == Some(e),
            },
    {
        let version = match event {
            Event::Version(version) => version,
            e => return Err(Error::IrrelevantMessage(e)),
        };
        if version.nonce == nonce {
            return Err(Error::ConnectionToSelf);
        }
        if version.version < self.expected_version || version.version < MIN_PEER_PROTO_VERSION {
            return Err(Error::TooLowVersion(version.version));
        }
        if !services_include(version.services, self.expected_services) {
            return Err(Error::MissingService(version.services));
        }
        let effective_version: u32 = if self.our_version <= version.version {
            self.our_version
        } else {
            version.version
        };
        let mut suggested_messages: Vec<Reply> = Vec::new();
        if effective_version >= WTXID_RELAY_VERSION {
            suggested_messages.push(Reply::WtxidRelay);
        }
        if effective_version >= ADDRV2_VERSION {
            suggested_messages.push(Reply::SendAddrV2);
        }
        if effective_version >= SENDHEADERS_VERSION {
            suggested_messages.push(Reply::SendHeaders);
        } else {
            suggested_messages.push(Reply::FinalAlert);
        }
        let net_time_difference: i64 = saturating_difference(unix_time, version.timestamp);
        let feeler = FeelerData {
            effective_version,
            services: version.services,
            net_time_difference,
            reported_height: version.start_height,
            nonce,
        };
        let handshake = InitializedHandshake {
            feeler,
            their_preferences: Preferences::new(),
            send_cmpct: self.send_cmpct,
            fee_filter: self.fee_filter,
            request_addr: self.request_addr,
        };
        assert(suggested_messages@ =~= upgrade_messages(effective_version));
        Ok((handshake, suggested_messages))
    }
}

impl Default for ConnectionConfig {
    fn default() -> (config: Self)
        ensures
            config@ == ConnectionConfig::new_spec(),
    {
        Self::new()
    }
}

/// `ours - theirs`, held to what an `i64` can store.
fn saturating_difference(ours: i64, theirs: i64) -> (difference: i64)
    ensures
        difference == time_difference(ours, theirs),
{
    match ours.checked_sub(theirs) {
        Some(difference) => difference,
        None => if theirs < 0 {
            i64::MAX
        } else {
            i64::MIN
        },
    }
}

/// A handshake between the peer's version and its acknowledgment.
#[derive(Debug, Clone)]
pub struct InitializedHandshake {
    feeler: FeelerData,
    their_preferences: Preferences,
    fee_filter: i64,
    send_cmpct: SendCmpct,
    request_addr: bool,
}

impl View for InitializedHandshake {
    type V = SessionModel;

    closed spec fn view(&self) -> SessionModel {
        SessionModel {
            feeler: self.feeler,
            their_preferences: self.their_preferences,
            fee_filter: self.fee_filter,
            send_cmpct: self.send_cmpct,
            request_addr: self.request_addr,
        }
    }
}

/// What a completed handshake leaves: the data of the connection and the
/// preferences the peer announced on the way.
#[derive(Debug, Clone, Copy, PartialEq, Eq, Structural)]
pub struct CompletedHandshake {
    /// The static data of the connection.
    pub feeler: FeelerData,
    /// What the peer announced before it acknowledged our version.
    pub their_preferences: Preferences,
}

impl InitializedHandshake {
    /// Takes the next message of the peer. An announcement of a preference is
    /// recorded and the handshake goes on; the acknowledgment of our version
    /// completes it and yields the messages to send last; any other message
    /// ends it, and the session is left as it was.
    pub fn negotiate(&mut self, event: Event) -> (outcome: Result<
        Option<(CompletedHandshake, Vec<Reply>)>,
        Error,
    >)
        ensures
            match outcome {
                Ok(Some((completed, messages))) => {
                    &&& event is Verack
                    &&& final(self)@ == old(self)@
                    &&& completed.feeler == old(self)@.feeler
                    &&& completed.their_preferences == old(self)@.their_preferences
                    &&& messages@ == old(self)@.finalization()
                },
                Ok(None) => {
                    &&& Preferences::announces(event)
                    &&& final(self)@ == (SessionModel {
                        their_preferences: old(self)@.their_preferences.after(event),
                        ..old(self)@
                    })
                },
                Err(e) => {
                    &&& !(event is Verack)
                    &&& !Preferences::announces(event)
                    &&& e == Error::IrrelevantMessage(event)
                    &&& final(self)@ == old(self)@
                },
            },
    {
        match event {
            Event::Verack => {
                let mut messages: Vec<Reply> = Vec::new();
                messages.push(Reply::Verack);
                messages.push(Reply::SendCmpct(self.send_cmpct));
                messages.push(Reply::FeeFilter(self.fee_filter));
                if self.request_addr {
                    messages.push(Reply::GetAddr);
                }
                assert(messages@ =~= self@.finalization());
                Ok(Some((
                    CompletedHandshake {
                        feeler: self.feeler,
                        their_preferences: self.their_preferences,
                    },
                    messages,
                )))
            },
            Event::WtxidRelay => {
                self.their_preferences.sendwtxid = true;
                Ok(None)
            },
            Event::SendAddrV2 => {
                self.their_preferences.sendaddrv2 = true;
                Ok(None)
            },
            Event::SendCmpct(cmpct) => {
                self.their_preferences.sendcmpct = cmpct;
                Ok(None)
            },
            Event::SendHeaders => {
                self.their_preferences.sendheaders = true;
                Ok(None)
            },
            e => Err(Error::IrrelevantMessage(e)),
        }
    }
}

/// A peer that does not carry our own nonce is turned away for its version
/// exactly where that version lies below the floor, whatever else it declares;
/// and where it offers the services required of it, its version alone decides
/// whether the handshake starts.
pub proof fn lemma_version_floor_decides(config: ConfigModel, theirs: PeerVersion, nonce: u64)
    requires
        theirs.nonce != nonce,
    ensures
        version_floor(config.expected_version) >= config.expected_version,
        version_floor(config.expected_version) >= MIN_PEER_PROTO_VERSION,
        version_floor(config.expected_version) == config.expected_version || version_floor(
            config.expected_version,
        ) == MIN_PEER_PROTO_VERSION,
        theirs.version < version_floor(config.expected_version) <==> config.refusal(
            Event::Version(theirs),
            nonce,
        ) == Some(Error::TooLowVersion(theirs.version)),
        services_cover(theirs.services, config.expected_services) ==> (config.refusal(
            Event::Version(theirs),
            nonce,
        ) is None <==> theirs.version >= version_floor(config.expected_version)),
{
}

/// A peer that carries our own nonce is a connection to ourselves, and is
/// turned away as such whatever its version and services are.
pub proof fn lemma_own_nonce_refused(config: ConfigModel, theirs: PeerVersion, nonce: u64)
    requires
        theirs.nonce == nonce,
    ensures
        config.refusal(Event::Version(theirs), nonce) == Some(Error::ConnectionToSelf),
{
}

/// The session of an accepted peer speaks the lower of the two versions, and
/// the upgrade messages hold, in their last place and nowhere else, exactly
/// one of the opt-in to announcements by header and the final alert: the
/// opt-in from its version on, the alert below it.
pub proof fn lemma_upgrade_messages(
    config: ConfigModel,
    unix_time: i64,
    theirs: PeerVersion,
    nonce: u64,
)
    ensures
        ({
            let effective = config.session(unix_time, theirs, nonce).feeler.effective_version;
            let messages = upgrade_messages(effective);
            &&& effective <= config.our_version
            &&& effective <= theirs.version
            &&& effective == config.our_version || effective == theirs.version
            &&& 1 <= messages.len() <= 3
            &&& messages.last() == if effective >= SENDHEADERS_VERSION {
                Reply::SendHeaders
            } else {
                Reply::FinalAlert
            }
            &&& forall|i: int|
                0 <= i < messages.len() - 1 ==> messages[i] != Reply::SendHeaders && messages[i]
                    != Reply::FinalAlert
            &&& messages.contains(Reply::SendHeaders) != messages.contains(Reply::FinalAlert)
        }),
{
    let effective = config.session(unix_time, theirs, nonce).feeler.effective_version;
    let messages = upgrade_messages(effective);
    assert(messages[messages.len() - 1] == messages.last());
    if effective >= SENDHEADERS_VERSION {
        assert(messages.contains(Reply::SendHeaders));
    } else {
        assert(messages.contains(Reply::FinalAlert));
    }
}

} // verus!
