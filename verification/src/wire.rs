//! The boundary to the bitcoin crate. Each function here makes one call into
//! it, or moves fields between its types and the library's; the contracts are
//! what the library takes on trust from that crate.
use vstd::prelude::*;
use bitcoin::consensus::encode::deserialize;
use bitcoin::consensus::encode::serialize;
use bitcoin::consensus::encode::Error as DecodeError;
use bitcoin::p2p::address::Address as WireAddress;
use bitcoin::p2p::message::NetworkMessage;
use bitcoin::p2p::message::RawNetworkMessage;
use bitcoin::p2p::message_compact_blocks::SendCmpct as WireSendCmpct;
use bitcoin::p2p::message_network::VersionMessage as WireVersion;
use bitcoin::p2p::Magic;
use bitcoin::p2p::ServiceFlags;
use crate::message::Event;
use crate::message::Network;
use crate::message::PeerVersion;
use crate::message::Reply;
use crate::message::SendCmpct;
use crate::message::VersionMessage;
use crate::message::VersionModel;
use crate::net::declared_length;
use crate::net::framed;
use crate::net::writable;

verus! {

/// `NetworkMessage` of bitcoin: a message of the protocol with all that it
/// carries. The proofs see nothing inside it; the engine reads it through
/// [`Event::of`] and hands it on as it is.
#[verifier::external_type_specification]
#[verifier::external_body]
pub struct ExNetworkMessage(bitcoin::p2p::message::NetworkMessage);

/// The error of bitcoin's consensus decoding: why a frame holds no message.
/// The proofs see nothing inside it.
#[verifier::external_type_specification]
#[verifier::external_body]
pub struct ExDecodeError(DecodeError);

/// The fields of a `version` message of bitcoin, nothing for any other message.
pub uninterp spec fn version_of(message: NetworkMessage) -> Option<PeerVersion>;

/// The event of a message of bitcoin that steers a connection, nothing for
/// any other message.
pub uninterp spec fn control_of(message: NetworkMessage) -> Option<Event>;

/// The event of a message of bitcoin whose arrival is timed, nothing for any
/// other message.
pub uninterp spec fn data_of(message: NetworkMessage) -> Option<Event>;

/// The event of a message of bitcoin that policy looks at, nothing for any
/// other message.
pub uninterp spec fn policy_of(message: NetworkMessage) -> Option<Event>;

/// The payload of an `alert` of bitcoin, nothing for any other message.
pub uninterp spec fn alert_of(message: NetworkMessage) -> Option<Seq<u8>>;

/// The command of a message of bitcoin as a frame carries it: the twelve
/// bytes that bitcoin writes for the message's `CommandString`.
pub uninterp spec fn command_of(message: NetworkMessage) -> Seq<u8>;

/// The indexes that a `getblocktxn` message of bitcoin asks for, nothing for
/// any other message.
pub uninterp spec fn indexes_of(message: NetworkMessage) -> Option<Seq<u64>>;

/// The bytes that bitcoin writes for the payload of a message.
pub uninterp spec fn payload_of(message: NetworkMessage) -> Seq<u8>;

/// The checksum that a frame carries for a payload: the first four bytes of
/// the double SHA-256 hash of the payload, as bitcoin computes it.
pub uninterp spec fn checksum_of(payload: Seq<u8>) -> Seq<u8>;

/// What bitcoin reads of a whole frame: the message it holds, or why it
/// holds none.
pub uninterp spec fn frame_message(frame: Seq<u8>) -> Result<NetworkMessage, DecodeError>;

/// `ServiceFlags::has` of bitcoin: whether every service in `required` is among
/// those in `offered`, that is whether adding the bits of `required` to
/// `offered` changes nothing.
#[verifier::external_body]
pub(crate) fn services_include(offered: u64, required: u64) -> (included: bool)
    ensures
        included == ((offered | required) == offered),
{
    ServiceFlags::from(offered).has(ServiceFlags::from(required))
}

/// `Magic::from` of bitcoin on the matching `Network`: the magic bytes of a
/// network, which are the constants that bitcoin's `Magic` holds for it.
#[verifier::external_body]
pub(crate) fn network_magic(network: Network) -> (magic: [u8; 4])
    ensures
        magic@ == network.magic(),
{
    let network = match network {
        Network::Bitcoin => bitcoin::Network::Bitcoin,
        Network::Testnet => bitcoin::Network::Testnet,
        Network::Testnet4 => bitcoin::Network::Testnet4,
        Network::Signet => bitcoin::Network::Signet,
        Network::Regtest => bitcoin::Network::Regtest,
    };
    Magic::from(network).to_bytes()
}

/// `random` of the rand crate that bitcoin re-exports: a number drawn anew at
/// each call, of which nothing is claimed.
#[verifier::external_body]
pub(crate) fn random_nonce() -> u64 {
    bitcoin::key::rand::random()
}

/// Reads the fields of a `version` message out of bitcoin's `NetworkMessage`;
/// nothing for any other message. The contract only names the result: it
/// depends on the message alone.
#[verifier::external_body]
pub(crate) fn version_fields(message: &NetworkMessage) -> (fields: Option<PeerVersion>)
    ensures
        fields == version_of(*message),
{
    match message {
        NetworkMessage::Version(v) => Some(PeerVersion {
            version: v.version,
            services: v.services.to_u64(),
            timestamp: v.timestamp,
            nonce: v.nonce,
            start_height: v.start_height,
        }),
        _ => None,
    }
}

/// Tells apart the variants of bitcoin's `NetworkMessage` that steer a
/// connection, moving their fields; nothing for the others. The contract only
/// names the result: it depends on the message alone.
#[verifier::external_body]
pub(crate) fn control_event(message: &NetworkMessage) -> (event: Option<Event>)
    ensures
        event == control_of(*message),
{
    Some(match message {
        NetworkMessage::Verack => Event::Verack,
        NetworkMessage::WtxidRelay => Event::WtxidRelay,
        NetworkMessage::SendAddrV2 => Event::SendAddrV2,
        NetworkMessage::SendHeaders => Event::SendHeaders,
        NetworkMessage::SendCmpct(c) => {
            Event::SendCmpct(SendCmpct { send_compact: c.send_compact, version: c.version })
        },
        NetworkMessage::FeeFilter(fee) => Event::FeeFilter(*fee),
        NetworkMessage::GetAddr => Event::GetAddr,
        NetworkMessage::Ping(nonce) => Event::Ping(*nonce),
        NetworkMessage::Pong(nonce) => Event::Pong(*nonce),
        _ => return None,
    })
}

/// Tells apart the variants of bitcoin's `NetworkMessage` whose arrival is
/// timed, keeping of a list of addresses its length; nothing for the others.
/// The contract only names the result: it depends on the message alone.
#[verifier::external_body]
pub(crate) fn data_event(message: &NetworkMessage) -> (event: Option<Event>)
    ensures
        event == data_of(*message),
{
    Some(match message {
        NetworkMessage::Block(_) => Event::Block,
        NetworkMessage::Headers(_) => Event::Headers,
        NetworkMessage::CFilter(_) => Event::CFilter,
        NetworkMessage::Addr(list) => Event::Addr(list.len()),
        NetworkMessage::AddrV2(list) => Event::AddrV2(list.len()),
        _ => return None,
    })
}

/// Tells apart the variants of bitcoin's `NetworkMessage` that policy looks
/// at, keeping of each list its length; nothing for the others. The contract
/// only names the result: it depends on the message alone.
#[verifier::external_body]
pub(crate) fn policy_event(message: &NetworkMessage) -> (event: Option<Event>)
    ensures
        event == policy_of(*message),
{
    Some(match message {
        NetworkMessage::MemPool => Event::MemPool,
        NetworkMessage::FilterClear => Event::FilterClear,
        NetworkMessage::FilterLoad(_) => Event::FilterLoad,
        NetworkMessage::FilterAdd(_) => Event::FilterAdd,
        NetworkMessage::Inv(list) => Event::Inv(list.len()),
        NetworkMessage::GetData(list) => Event::GetData(list.len()),
        NetworkMessage::GetBlocks(m) => Event::GetBlocks(m.locator_hashes.len()),
        NetworkMessage::GetHeaders(m) => Event::GetHeaders(m.locator_hashes.len()),
        _ => return None,
    })
}

/// The bytes of an `alert` of bitcoin's `NetworkMessage`; nothing for any
/// other message. The contract only names the result: it depends on the
/// message alone.
#[verifier::external_body]
pub(crate) fn alert_payload(message: &NetworkMessage) -> (payload: Option<Vec<u8>>)
    ensures
        match payload {
            Some(bytes) => alert_of(*message) == Some(bytes@),
            None => alert_of(*message) is None,
        },
{
    match message {
        NetworkMessage::Alert(payload) => Some(payload.clone()),
        _ => None,
    }
}

/// The message that bitcoin's `NetworkMessage` holds for a reply: the variant
/// of the same name with the same fields, and for the final alert the `alert`
/// variant with `alert` as its payload.
pub uninterp spec fn message_of_reply(reply: Reply, alert: Seq<u8>) -> NetworkMessage;

/// The `version` message that bitcoin's `NetworkMessage` holds for the fields
/// of a version.
pub uninterp spec fn message_of_version(version: VersionModel) -> NetworkMessage;

/// `NetworkMessage::command` and `serialize` of bitcoin: the command of a
/// message as a frame carries it. bitcoin writes a `CommandString` as twelve
/// bytes, the name and then zero bytes; the contract names them and states
/// their number.
#[verifier::external_body]
pub(crate) fn command_bytes(message: &NetworkMessage) -> (command: Vec<u8>)
    ensures
        command@ == command_of(*message),
        command@.len() == 12,
{
    serialize(&message.command())
}

/// Builds the variant of bitcoin's `NetworkMessage` that a reply stands for,
/// moving its fields; `alert` becomes the payload of the final alert. The
/// result is opaque, so the contract only names it: the same reply and the
/// same bytes give the same message.
#[verifier::external_body]
pub(crate) fn reply_message(reply: Reply, alert: Vec<u8>) -> (message: NetworkMessage)
    ensures
        message == message_of_reply(reply, alert@),
{
    match reply {
        Reply::Verack => NetworkMessage::Verack,
        Reply::WtxidRelay => NetworkMessage::WtxidRelay,
        Reply::SendAddrV2 => NetworkMessage::SendAddrV2,
        Reply::SendHeaders => NetworkMessage::SendHeaders,
        Reply::FinalAlert => NetworkMessage::Alert(alert),
        Reply::SendCmpct(c) => {
            let (send_compact, version) = (c.send_compact, c.version);
            NetworkMessage::SendCmpct(WireSendCmpct { send_compact, version })
        },
        Reply::FeeFilter(fee) => NetworkMessage::FeeFilter(fee),
        Reply::GetAddr => NetworkMessage::GetAddr,
        Reply::Ping(nonce) => NetworkMessage::Ping(nonce),
    }
}

/// Builds bitcoin's `version` message from the library's, field by field. The
/// result is opaque, so the contract only names it: the same fields give the
/// same message.
#[verifier::external_body]
pub(crate) fn version_message(v: VersionMessage) -> (message: NetworkMessage)
    ensures
        message == message_of_version(v@),
{
    let (to, from) = (v.receiver, v.sender);
    let (to_services, from_services) = (ServiceFlags::from(to.services), ServiceFlags::from(from.services));
    let receiver = WireAddress { services: to_services, address: to.address, port: to.port };
    let sender = WireAddress { services: from_services, address: from.address, port: from.port };
    NetworkMessage::Version(WireVersion {
        version: v.version,
        services: ServiceFlags::from(v.services),
        timestamp: v.timestamp,
        receiver,
        sender,
        nonce: v.nonce,
        user_agent: v.user_agent,
        start_height: v.start_height,
        relay: v.relay,
    })
}

/// The indexes of a `getblocktxn` of bitcoin's `NetworkMessage`; nothing for
/// any other message. The contract only names the result: it depends on the
/// message alone.
#[verifier::external_body]
pub(crate) fn requested_indexes(message: &NetworkMessage) -> (indexes: Option<Vec<u64>>)
    ensures
        match indexes {
            Some(list) => indexes_of(*message) == Some(list@),
            None => indexes_of(*message) is None,
        },
{
    match message {
        NetworkMessage::GetBlockTxn(request) => Some(request.txs_request.indexes.clone()),
        _ => None,
    }
}

/// `serialize` of bitcoin for a `NetworkMessage`: the bytes of the message's
/// payload. The contract only names them. bitcoin panics where it writes the
/// indexes of a `getblocktxn` that do not ascend or that hold the largest
/// `u64`: such a message is left out.
#[verifier::external_body]
pub(crate) fn payload_bytes(message: &NetworkMessage) -> (payload: Vec<u8>)
    requires
        writable(*message),
    ensures
        payload@ == payload_of(*message),
{
    serialize(message)
}

/// `RawNetworkMessage::new` and `serialize` of bitcoin: the frame of a message
/// for a network, as bitcoin writes it: the magic bytes; the command in
/// twelve bytes; the length of the payload in four bytes, least significant
/// first; the checksum of the payload; the payload. bitcoin panics where it
/// cannot write the payload, and on a payload that is longer than a `u32`
/// counts: such messages are left out.
#[verifier::external_body]
pub(crate) fn encode_frame(magic: [u8; 4], message: &NetworkMessage) -> (frame: Vec<u8>)
    requires
        writable(*message),
        payload_of(*message).len() <= u32::MAX,
    ensures
        framed(frame@, magic@, command_of(*message), payload_of(*message)),
{
    serialize(&RawNetworkMessage::new(Magic::from_bytes(magic), message.clone()))
}

/// `deserialize` of bitcoin for a `RawNetworkMessage`: the message that a
/// whole frame holds, or the error. The contract names the result. bitcoin
/// reads the 24 bytes of the header, then as many bytes as the header
/// declares, and fails where bytes are missing or left over, or where the
/// checksum in the header is not that of the bytes that follow it: success
/// is only possible on a frame of exactly that length with that checksum.
#[verifier::external_body]
pub(crate) fn decode_frame(frame: &[u8]) -> (decoded: Result<NetworkMessage, DecodeError>)
    ensures
        decoded == frame_message(frame@),
        decoded is Ok ==> frame@.len() >= 24 && frame@.len() == 24 + declared_length(frame@),
        decoded is Ok ==> frame@.subrange(20, 24) == checksum_of(
            frame@.subrange(24, frame@.len() as int),
        ),
{
    match deserialize::<RawNetworkMessage>(frame) {
        Ok(raw) => Ok(raw.into_payload()),
        Err(e) => Err(e),
    }
}

} // verus!
