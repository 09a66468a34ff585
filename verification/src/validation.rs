use vstd::prelude::*;
use bitcoin::p2p::message::NetworkMessage;
use crate::message::Event;

verus! {

/// The most entries an inventory or a list of addresses may hold.
pub const MAX_INV_SIZE: usize = 50_000;

/// The most locator hashes a request for blocks or headers may hold.
pub const MAX_LOCATOR_HASHES: usize = 101;

/// Whether a message belongs to the version negotiation and to nothing else.
pub open spec fn handshake_only(event: Event) -> bool {
    event is Verack || event is Version || event is SendAddrV2 || event is WtxidRelay
}

/// Whether a message is valid but discouraged: a message of the bloom filter
/// protocol or a request for the memory pool; a list or a locator longer than
/// peers agree to; or an alert other than the final one.
pub open spec fn discouraged(event: Event) -> bool {
    match event {
        Event::FilterClear => true,
        Event::FilterLoad => true,
        Event::FilterAdd => true,
        Event::MemPool => true,
        Event::Addr(n) => n > MAX_INV_SIZE,
        Event::AddrV2(n) => n > MAX_INV_SIZE,
        Event::Inv(n) => n > MAX_INV_SIZE,
        Event::GetData(n) => n > MAX_INV_SIZE,
        Event::GetBlocks(n) => n > MAX_LOCATOR_HASHES,
        Event::GetHeaders(n) => n > MAX_LOCATOR_HASHES,
        Event::Alert { last } => !last,
        _ => false,
    }
}

/// Validate messages from peers.
pub trait ValidationExt {
    /// This message is only involved in version negotiation.
    fn is_handshake_message(&self) -> bool;

    /// Is a message valid but discouraged to send.
    fn is_discouraged(&self) -> bool;

    /// Is the data present in a message invalid.
    fn is_malformed(&self) -> bool;
}

impl ValidationExt for Event {
    fn is_handshake_message(&self) -> (only: bool)
        ensures
            only == handshake_only(*self),
    {
        match *self {
            Event::Verack => true,
            Event::Version(_) => true,
            Event::SendAddrV2 => true,
            Event::WtxidRelay => true,
            _ => false,
        }
    }

    fn is_discouraged(&self) -> (discouraged: bool)
        ensures
            discouraged == self::discouraged(*self),
    {
        match *self {
            Event::FilterClear => true,
            Event::FilterLoad => true,
            Event::FilterAdd => true,
            Event::MemPool => true,
            Event::Addr(n) => n > MAX_INV_SIZE,
            Event::AddrV2(n) => n > MAX_INV_SIZE,
            Event::Inv(n) => n > MAX_INV_SIZE,
            Event::GetData(n) => n > MAX_INV_SIZE,
            Event::GetBlocks(n) => n > MAX_LOCATOR_HASHES,
            Event::GetHeaders(n) => n > MAX_LOCATOR_HASHES,
            Event::Alert { last } => !last,
            _ => false,
        }
    }

    fn is_malformed(&self) -> (malformed: bool)
        ensures
            !malformed,
    {
        false
    }
}

impl ValidationExt for NetworkMessage {
    /// As of the event that the engine reads of this message.
    fn is_handshake_message(&self) -> (only: bool)
        ensures
            only == handshake_only(Event::read(*self)),
    {
        Event::of(self).is_handshake_message()
    }

    /// As of the event that the engine reads of this message.
    fn is_discouraged(&self) -> (discouraged: bool)
        ensures
            discouraged == self::discouraged(Event::read(*self)),
    {
        Event::of(self).is_discouraged()
    }

    fn is_malformed(&self) -> (malformed: bool)
        ensures
            !malformed,
    {
        false
    }
}

} // verus!
