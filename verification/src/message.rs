use vstd::prelude::*;
use bitcoin::p2p::message::NetworkMessage;
use crate::wire::alert_of;
use crate::wire::alert_payload;
use crate::wire::command_bytes;
use crate::wire::command_of;
use crate::wire::control_of;
use crate::wire::data_of;
use crate::wire::policy_of;
use crate::wire::version_of;
use crate::wire::control_event;
use crate::wire::data_event;
use crate::wire::message_of_reply;
use crate::wire::message_of_version;
use crate::wire::policy_event;
use crate::wire::reply_message;
use crate::wire::version_fields;
use crate::wire::version_message;

verus! {

/// The first protocol version of a peer.
pub const INIT_PROTO_VERSION: u32 = 209;

/// The lowest protocol version a peer may speak.
pub const MIN_PEER_PROTO_VERSION: u32 = 31800;

/// From this version on a `ping` carries a nonce and is answered by a `pong`.
pub const BIP0031_VERSION: u32 = 60000;

/// From this version on bloom filters are served only where the service is advertised.
pub const NO_BLOOM_VERSION: u32 = 70011;

/// From this version on a peer may ask for block announcements by header.
pub const SENDHEADERS_VERSION: u32 = 70012;

/// From this version on a peer may announce a minimum fee rate.
pub const FEEFILTER_VERSION: u32 = 70013;

/// From this version on a peer may relay compact blocks.
pub const SHORT_IDS_BLOCKS_VERSION: u32 = 70014;

/// From this version on an invalid compact block does not end the connection.
pub const INVALID_CB_NO_BAN_VERSION: u32 = 70015;

/// From this version on a peer may relay transactions by witness transaction id.
pub const WTXID_RELAY_VERSION: u32 = 70016;

/// From this version on a peer may ask for addresses in the second format.
pub const ADDRV2_VERSION: u32 = 70016;

/// No service.
pub const SERVICES_NONE: u64 = 0;

/// The peer serves the complete block chain.
pub const SERVICES_NETWORK: u64 = 1;

/// The peer serves witness data.
pub const SERVICES_WITNESS: u64 = 8;

/// The peer serves compact block filters.
pub const SERVICES_COMPACT_FILTERS: u64 = 64;

/// The peer serves the most recent blocks only.
pub const SERVICES_NETWORK_LIMITED: u64 = 1024;

/// The networks a connection can be made on.
#[derive(Debug, Clone, Copy, PartialEq, Eq, Structural, Hash)]
pub enum Network {
    /// Mainnet Bitcoin.
    Bitcoin,
    /// The third test network.
    Testnet,
    /// The fourth test network.
    Testnet4,
    /// The signet network.
    Signet,
    /// A local regression test network.
    Regtest,
}

impl Network {
    /// The four bytes that open every frame on this network.
    pub open spec fn magic(self) -> Seq<u8> {
        match self {
            Network::Bitcoin => seq![0xF9u8, 0xBEu8, 0xB4u8, 0xD9u8],
            Network::Testnet => seq![0x0Bu8, 0x11u8, 0x09u8, 0x07u8],
            Network::Testnet4 => seq![0x1Cu8, 0x16u8, 0x3Fu8, 0x28u8],
            Network::Signet => seq![0x0Au8, 0x03u8, 0xCFu8, 0x40u8],
            Network::Regtest => seq![0xFAu8, 0xBFu8, 0xB5u8, 0xDAu8],
        }
    }

    /// No two networks open their frames with the same bytes.
    pub proof fn lemma_magic_tells_networks_apart(self, other: Network)
        requires
            self != other,
        ensures
            self.magic() != other.magic(),
    {
        assert(self.magic()[0] != other.magic()[0] || self.magic()[1] != other.magic()[1]);
    }
}

/// A compact block relay preference.
#[derive(Debug, Clone, Copy, PartialEq, Eq, Structural)]
pub struct SendCmpct {
    /// Request to be sent compact blocks.
    pub send_compact: bool,
    /// Compact blocks protocol version number.
    pub version: u64,
}

/// A network address as a version message carries it.
#[derive(Debug, Clone, Copy, PartialEq, Eq)]
pub struct Address {
    /// Services of the node at this address.
    pub services: u64,
    /// The address in its sixteen-byte form, as eight groups.
    pub address: [u16; 8],
    /// The port.
    pub port: u16,
}

/// What a peer declares of itself in its version message, as far as the
/// negotiation reads it.
#[derive(Debug, Clone, Copy, PartialEq, Eq, Structural)]
pub struct PeerVersion {
    /// The protocol version the peer speaks.
    pub version: u32,
    /// The services the peer offers.
    pub services: u64,
    /// The peer's clock, in seconds since the Unix epoch.
    pub timestamp: i64,
    /// The nonce the peer drew for this connection.
    pub nonce: u64,
    /// The height of the peer's block chain.
    pub start_height: i32,
}

/// The version message this side sends.
#[derive(Debug, Clone, PartialEq, Eq)]
pub struct VersionMessage {
    /// The protocol version this side speaks.
    pub version: u32,
    /// The services this side offers.
    pub services: u64,
    /// This side's clock, in seconds since the Unix epoch.
    pub timestamp: i64,
    /// The address of the receiving peer.
    pub receiver: Address,
    /// The address of this side.
    pub sender: Address,
    /// The nonce drawn for this connection.
    pub nonce: u64,
    /// The name of this software.
    pub user_agent: String,
    /// The height of this side's block chain.
    pub start_height: i32,
    /// Whether the peer should relay transactions to this side.
    pub relay: bool,
}

/// What a version message holds.
pub ghost struct VersionModel {
    pub version: u32,
    pub services: u64,
    pub timestamp: i64,
    pub receiver: Address,
    pub sender: Address,
    pub nonce: u64,
    pub user_agent: Seq<char>,
    pub start_height: i32,
    pub relay: bool,
}

impl View for VersionMessage {
    type V = VersionModel;

    open spec fn view(&self) -> VersionModel {
        VersionModel {
            version: self.version,
            services: self.services,
            timestamp: self.timestamp,
            receiver: self.receiver,
            sender: self.sender,
            nonce: self.nonce,
            user_agent: self.user_agent@,
            start_height: self.start_height,
            relay: self.relay,
        }
    }
}

/// What the engine reads of a message that a peer sent.
#[derive(Debug, Clone, Copy, PartialEq, Eq)]
pub enum Event {
    /// `version`
    Version(PeerVersion),
    /// `verack`
    Verack,
    /// `wtxidrelay`
    WtxidRelay,
    /// `sendaddrv2`
    SendAddrV2,
    /// `sendheaders`
    SendHeaders,
    /// `sendcmpct`
    SendCmpct(SendCmpct),
    /// `feefilter`
    FeeFilter(i64),
    /// `getaddr`
    GetAddr,
    /// `ping` with its nonce
    Ping(u64),
    /// `pong` with its nonce
    Pong(u64),
    /// `mempool`
    MemPool,
    /// `filterclear`
    FilterClear,
    /// `filterload`
    FilterLoad,
    /// `filteradd`
    FilterAdd,
    /// `block`
    Block,
    /// `headers`
    Headers,
    /// `cfilter`
    CFilter,
    /// `addr` with the number of addresses
    Addr(usize),
    /// `addrv2` with the number of addresses
    AddrV2(usize),
    /// `inv` with the number of entries
    Inv(usize),
    /// `getdata` with the number of entries
    GetData(usize),
    /// `getblocks` with the number of locator hashes
    GetBlocks(usize),
    /// `getheaders` with the number of locator hashes
    GetHeaders(usize),
    /// `alert`; `last` tells whether it is the alert that ended the alert system
    Alert { last: bool },
    /// Any other message, with its command as a frame carries it: the name,
    /// filled up to twelve bytes with zero bytes.
    Other([u8; 12]),
}

/// A message that the engine asks to be sent.
#[derive(Debug, Clone, Copy, PartialEq, Eq, Structural)]
pub enum Reply {
    /// `verack`
    Verack,
    /// `wtxidrelay`
    WtxidRelay,
    /// `sendaddrv2`
    SendAddrV2,
    /// `sendheaders`
    SendHeaders,
    /// The alert that ended the alert system.
    FinalAlert,
    /// `sendcmpct`
    SendCmpct(SendCmpct),
    /// `feefilter`, in satoshis per thousand virtual bytes
    FeeFilter(i64),
    /// `getaddr`
    GetAddr,
    /// `ping` with its nonce
    Ping(u64),
}

/// The number of bytes of the final alert.
pub const FINAL_ALERT_LEN: usize = 96;

/// The alert that ended the alert system, as an `alert` message carries it
/// behind its length: it cancels all alerts before it, never expires, and
/// tells that the alert key is compromised. It is sent in place of an opt-in
/// to peers too old to know that alerts are gone.
pub const FINAL_ALERT: [u8; 96] = [
    0x01, 0x00, 0x00, 0x00, 0x00, 0x00, 0x00, 0x00, 0x00, 0x00, 0x00, 0x00,
    0xff, 0xff, 0xff, 0x7f, 0x00, 0x00, 0x00, 0x00, 0xff, 0xff, 0xff, 0x7f,
    0xfe, 0xff, 0xff, 0x7f, 0x01, 0xff, 0xff, 0xff, 0x7f, 0x00, 0x00, 0x00,
    0x00, 0xff, 0xff, 0xff, 0x7f, 0x00, 0xff, 0xff, 0xff, 0x7f, 0x00, 0x2f,
    0x55, 0x52, 0x47, 0x45, 0x4e, 0x54, 0x3a, 0x20, 0x41, 0x6c, 0x65, 0x72,
    0x74, 0x20, 0x6b, 0x65, 0x79, 0x20, 0x63, 0x6f, 0x6d, 0x70, 0x72, 0x6f,
    0x6d, 0x69, 0x73, 0x65, 0x64, 0x2c, 0x20, 0x75, 0x70, 0x67, 0x72, 0x61,
    0x64, 0x65, 0x20, 0x72, 0x65, 0x71, 0x75, 0x69, 0x72, 0x65, 0x64, 0x00,
];

/// The bytes of the final alert.
pub fn final_alert() -> (alert: Vec<u8>)
    ensures
        alert@ == FINAL_ALERT@,
{
    let mut alert: Vec<u8> = Vec::new();
    let mut i: usize = 0;
    while i < FINAL_ALERT_LEN
        invariant
            i <= FINAL_ALERT_LEN,
            alert@ == FINAL_ALERT@.subrange(0, i as int),
        decreases FINAL_ALERT_LEN - i,
    {
        alert.push(FINAL_ALERT[i]);
        i = i + 1;
        assert(alert@ =~= FINAL_ALERT@.subrange(0, i as int));
    }
    assert(alert@ =~= FINAL_ALERT@);
    alert
}

/// Whether `payload` is the final alert, byte for byte.
pub fn is_final_alert(payload: &[u8]) -> (last: bool)
    ensures
        last == (payload@ == FINAL_ALERT@),
{
    if payload.len() != FINAL_ALERT_LEN {
        return false;
    }
    let mut i: usize = 0;
    while i < FINAL_ALERT_LEN
        invariant
            i <= FINAL_ALERT_LEN,
            payload@.len() == FINAL_ALERT_LEN,
            payload@.subrange(0, i as int) == FINAL_ALERT@.subrange(0, i as int),
        decreases FINAL_ALERT_LEN - i,
    {
        if payload[i] != FINAL_ALERT[i] {
            return false;
        }
        i = i + 1;
        assert(payload@.subrange(0, i as int) =~= FINAL_ALERT@.subrange(0, i as int));
    }
    assert(payload@ =~= payload@.subrange(0, FINAL_ALERT_LEN as int));
    assert(FINAL_ALERT@ =~= FINAL_ALERT@.subrange(0, FINAL_ALERT_LEN as int));
    true
}

/// The twelve bytes of a command, as an array.
pub open spec fn command_array(bytes: Seq<u8>) -> [u8; 12] {
    [
        bytes[0],
        bytes[1],
        bytes[2],
        bytes[3],
        bytes[4],
        bytes[5],
        bytes[6],
        bytes[7],
        bytes[8],
        bytes[9],
        bytes[10],
        bytes[11],
    ]
}

impl Event {
    /// The event that a message gives, from what each reading of the message
    /// gave: its version fields where it is a version message; else the
    /// event of the reading that knew it, control before timed data before
    /// policy; else an alert, which is the final one where its payload is,
    /// byte for byte; else a message that the engine does not read, of which
    /// the command is kept.
    pub open spec fn assembled(
        version: Option<PeerVersion>,
        control: Option<Event>,
        data: Option<Event>,
        policy: Option<Event>,
        alert: Option<Seq<u8>>,
        command: [u8; 12],
    ) -> Event {
        if let Some(version) = version {
            Event::Version(version)
        } else if let Some(event) = control {
            event
        } else if let Some(event) = data {
            event
        } else if let Some(event) = policy {
            event
        } else if let Some(payload) = alert {
            Event::Alert { last: payload == FINAL_ALERT@ }
        } else {
            Event::Other(command)
        }
    }

    /// Puts the event of a message together from what each reading of the
    /// message gave; a reading that did not know the message gave nothing.
    pub fn from_parts(
        version: Option<PeerVersion>,
        control: Option<Event>,
        data: Option<Event>,
        policy: Option<Event>,
        alert: Option<Vec<u8>>,
        command: [u8; 12],
    ) -> (event: Event)
        ensures
            event == Event::assembled(
                version,
                control,
                data,
                policy,
                match alert {
                    Some(payload) => Some(payload@),
                    None => None,
                },
                command,
            ),
    {
        if let Some(version) = version {
            Event::Version(version)
        } else if let Some(event) = control {
            event
        } else if let Some(event) = data {
            event
        } else if let Some(event) = policy {
            event
        } else if let Some(payload) = alert {
            Event::Alert { last: is_final_alert(payload.as_slice()) }
        } else {
            Event::Other(command)
        }
    }

    /// The event of a message of the bitcoin crate: what its readings give,
    /// put together.
    pub open spec fn read(message: NetworkMessage) -> Event {
        Event::assembled(
            version_of(message),
            control_of(message),
            data_of(message),
            policy_of(message),
            alert_of(message),
            command_array(command_of(message)),
        )
    }

    /// What the engine reads of `message`: the event that the readings of
    /// the message give, put together as [`Event::from_parts`] does.
    pub fn of(message: &NetworkMessage) -> (event: Event)
        ensures
            event == Event::read(*message),
    {
        let name = command_bytes(message);
        let command: [u8; 12] = [
            name[0],
            name[1],
            name[2],
            name[3],
            name[4],
            name[5],
            name[6],
            name[7],
            name[8],
            name[9],
            name[10],
            name[11],
        ];
        assert(command@ =~= command_array(name@)@);
        Event::from_parts(
            version_fields(message),
            control_event(message),
            data_event(message),
            policy_event(message),
            alert_payload(message),
            command,
        )
    }
}

impl Reply {
    /// The payload that a reply carries where it is an alert: the bytes of
    /// the final alert for the final alert, none for any other reply.
    pub open spec fn alert(self) -> Seq<u8> {
        if self is FinalAlert {
            FINAL_ALERT@
        } else {
            Seq::empty()
        }
    }

    /// The message of the bitcoin crate that this reply stands for: the one
    /// that bitcoin holds for the reply, with the bytes of the final alert
    /// where the reply is the final alert.
    pub fn to_message(self) -> (message: NetworkMessage)
        ensures
            message == message_of_reply(self, self.alert()),
    {
        match self {
            Reply::FinalAlert => reply_message(self, final_alert()),
            _ => reply_message(self, Vec::new()),
        }
    }
}

impl VersionMessage {
    /// The message of the bitcoin crate that carries this version: the one
    /// that bitcoin holds for these fields.
    pub fn to_message(self) -> (message: NetworkMessage)
        ensures
            message == message_of_version(self@),
    {
        version_message(self)
    }
}

} // verus!
