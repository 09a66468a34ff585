use vstd::prelude::*;
use std::time::Duration;
use bitcoin::consensus::encode::Error as DecodeError;
use bitcoin::p2p::message::NetworkMessage;
use crate::handshake;
use crate::handshake::upgrade_messages;
use crate::handshake::CompletedHandshake;
use crate::handshake::ConfigModel;
use crate::handshake::ConnectionConfig;
use crate::handshake::InitializedHandshake;
use crate::handshake::SessionModel;
use crate::message::Event;
use crate::message::Network;
use crate::message::Reply;
use crate::message::VersionMessage;
use crate::wire::decode_frame;
use crate::wire::encode_frame;
use crate::wire::checksum_of;
use crate::wire::command_of;
use crate::wire::frame_message;
use crate::wire::indexes_of;
use crate::wire::payload_bytes;
use crate::wire::payload_of;
use crate::wire::requested_indexes;
use crate::wire::network_magic;
use crate::ConnectionMetrics;
use crate::MetricsModel;
use crate::OutboundPing;
use crate::Preferences;

verus! {

/// The seconds a read may block before it fails, unless set otherwise.
pub const READ_TIMEOUT_SECS: u64 = 60;

/// The seconds of silence after which the peer is pinged, unless set otherwise.
pub const PING_INTERVAL_SECS: u64 = 30;

/// The bytes of a frame's header: magic, command, length and checksum.
pub const HEADER_LEN: usize = 24;

/// The duration that `Duration::from_secs` of std makes of a number of seconds.
pub uninterp spec fn duration_of_secs(secs: u64) -> Duration;

/// `Duration::from_secs` of std: the duration of that many whole seconds. The
/// contract only names it.
pub assume_specification[ Duration::from_secs ](secs: u64) -> (duration: Duration)
    ensures
        duration == duration_of_secs(secs),
;

/// The magic bytes that a frame opens with.
pub open spec fn declared_magic(frame: Seq<u8>) -> Seq<u8> {
    frame.subrange(0, 4)
}

/// The length of the payload that a frame's header declares: the four bytes
/// after magic and command, least significant first.
pub open spec fn declared_length(frame: Seq<u8>) -> int {
    frame[16] + 256 * frame[17] + 65536 * frame[18] + 16777216 * frame[19]
}

/// Whether a frame is as long as its header says: the header and then the
/// payload it declares, no byte missing and none left over.
pub open spec fn well_sized(frame: Seq<u8>) -> bool {
    frame.len() >= HEADER_LEN && frame.len() == HEADER_LEN + declared_length(frame)
}

/// Whether the checksum that a frame carries is that of the bytes that follow
/// its header.
pub open spec fn well_summed(frame: Seq<u8>) -> bool {
    frame.len() >= HEADER_LEN && frame.subrange(20, 24) == checksum_of(
        frame.subrange(HEADER_LEN as int, frame.len() as int),
    )
}

/// Whether `frame` is the frame of a payload under a command on the network
/// of the magic bytes: the magic bytes; the command in twelve bytes; the
/// length of the payload in four bytes, least significant first; the
/// checksum of the payload in four bytes; and the payload.
pub open spec fn framed(frame: Seq<u8>, magic: Seq<u8>, command: Seq<u8>, payload: Seq<u8>) -> bool {
    &&& frame.len() == HEADER_LEN + payload.len()
    &&& frame.subrange(0, 4) == magic
    &&& frame.subrange(4, 16) == command
    &&& declared_length(frame) == payload.len()
    &&& frame.subrange(20, 24) == checksum_of(payload)
    &&& frame.subrange(HEADER_LEN as int, frame.len() as int) == payload
}

/// Whether the indexes of a request for transactions of a block can be
/// written: each is larger than the one before it, and none is the largest
/// number there is, so that each can be written as its distance from the one
/// after the last.
pub open spec fn indexes_ascend(indexes: Seq<u64>) -> bool {
    &&& forall|i: int| 0 <= i < indexes.len() ==> indexes[i] < u64::MAX
    &&& forall|i: int| 0 <= i < indexes.len() - 1 ==> #[trigger] indexes[i] < indexes[i + 1]
}

/// Whether a message can be written: it asks for no transactions of a block,
/// or for indexes that ascend.
pub open spec fn writable(message: NetworkMessage) -> bool {
    indexes_of(message) matches Some(indexes) ==> indexes_ascend(indexes)
}

/// Whether each index is larger than the one before it and none is the
/// largest number there is.
pub fn indexes_in_order(indexes: &[u64]) -> (ascend: bool)
    ensures
        ascend == indexes_ascend(indexes@),
{
    let mut i: usize = 0;
    while i < indexes.len()
        invariant
            i <= indexes.len(),
            forall|k: int| 0 <= k < i ==> indexes@[k] < u64::MAX,
            forall|k: int| 0 <= k < i - 1 ==> #[trigger] indexes@[k] < indexes@[k + 1],
        decreases indexes.len() - i,
    {
        if indexes[i] == u64::MAX {
            return false;
        }
        if i > 0 && indexes[i - 1] >= indexes[i] {
            return false;
        }
        i = i + 1;
    }
    true
}

/// A frame of a payload is as long as its header says, opens with the magic
/// bytes it was made with, and carries the checksum of what follows its
/// header.
pub proof fn lemma_framed_is_well_formed(
    frame: Seq<u8>,
    magic: Seq<u8>,
    command: Seq<u8>,
    payload: Seq<u8>,
)
    requires
        framed(frame, magic, command, payload),
    ensures
        well_sized(frame),
        well_summed(frame),
        declared_magic(frame) == magic,
{
}

/// A payload has one frame under a command on a network: two frames of the
/// same payload, command and magic bytes are the same bytes.
pub proof fn lemma_frame_is_unique(
    one: Seq<u8>,
    other: Seq<u8>,
    magic: Seq<u8>,
    command: Seq<u8>,
    payload: Seq<u8>,
)
    requires
        framed(one, magic, command, payload),
        framed(other, magic, command, payload),
    ensures
        one == other,
{
    assert forall|i: int| 0 <= i < one.len() implies one[i] == other[i] by {
        if i < 4 {
            assert(one[i] == one.subrange(0, 4)[i]);
            assert(other[i] == other.subrange(0, 4)[i]);
        } else if i < 16 {
            assert(one[i] == one.subrange(4, 16)[i - 4]);
            assert(other[i] == other.subrange(4, 16)[i - 4]);
        } else if i < 20 {
        } else if i < 24 {
            assert(one[i] == one.subrange(20, 24)[i - 20]);
            assert(other[i] == other.subrange(20, 24)[i - 20]);
        } else {
            assert(one[i] == one.subrange(24, one.len() as int)[i - 24]);
            assert(other[i] == other.subrange(24, other.len() as int)[i - 24]);
        }
    }
    assert(one =~= other);
}

/// A frame that is as long as its header says is read from its first 24
/// bytes: they open with the same magic bytes and declare the bytes that
/// follow them.
pub proof fn lemma_header_of_frame(frame: Seq<u8>)
    requires
        well_sized(frame),
    ensures
        declared_magic(frame.subrange(0, HEADER_LEN as int)) == declared_magic(frame),
        declared_length(frame.subrange(0, HEADER_LEN as int)) == frame.len() - HEADER_LEN,
{
    let header = frame.subrange(0, HEADER_LEN as int);
    assert(declared_magic(header) =~= declared_magic(frame));
    assert(header[16] == frame[16]);
    assert(header[17] == frame[17]);
    assert(header[18] == frame[18]);
    assert(header[19] == frame[19]);
}

/// A frame that is as long as its header says is no longer so once bytes are
/// cut from its end: whatever the cut, the rest is too short for its header
/// or for the payload that the header declares.
pub proof fn lemma_truncated_frame(frame: Seq<u8>, kept: int)
    requires
        well_sized(frame),
        0 <= kept < frame.len(),
    ensures
        !well_sized(frame.subrange(0, kept)),
{
    let cut = frame.subrange(0, kept);
    if kept >= HEADER_LEN {
        assert(cut[16] == frame[16]);
        assert(cut[17] == frame[17]);
        assert(cut[18] == frame[18]);
        assert(cut[19] == frame[19]);
    }
}

/// Any change to the magic bytes of a frame leaves a frame that opens with
/// other magic bytes than before.
pub proof fn lemma_corrupt_magic(frame: Seq<u8>, at: int, byte: u8)
    requires
        frame.len() >= HEADER_LEN,
        0 <= at < 4,
        byte != frame[at],
    ensures
        declared_magic(frame.update(at, byte)) != declared_magic(frame),
{
    assert(declared_magic(frame.update(at, byte))[at] == byte);
    assert(declared_magic(frame)[at] == frame[at]);
}

/// Errors that occur during a connection.
#[derive(Debug)]
pub enum Error {
    /// A message was not deserialized according to the protocol.
    Deserialize(DecodeError),
    /// An error occurred during the version handshake.
    Handshake(handshake::Error),
    /// The peer sent magic that does not belong to the current network.
    UnexpectedMagic([u8; 4]),
    /// The peer did not send a version message.
    MissingVersion,
    /// A message to send has a payload of more bytes than a frame can declare.
    OversizedMessage(usize),
    /// A message to send asks for transactions of a block by indexes that do
    /// not ascend, or by the largest index there is.
    InvalidIndexes,
}

/// What the timeouts of a connection hold.
pub ghost struct TimeoutModel {
    pub read: Option<Duration>,
    pub write: Option<Duration>,
    pub ping_interval: Duration,
}

/// The timeouts of a connection: how long a read and a write may block, and
/// after how much silence the peer is pinged.
#[derive(Debug, Clone, Copy, PartialEq, Eq)]
pub struct TimeoutParams {
    read: Option<Duration>,
    write: Option<Duration>,
    ping_interval: Duration,
}

impl View for TimeoutParams {
    type V = TimeoutModel;

    closed spec fn view(&self) -> TimeoutModel {
        TimeoutModel { read: self.read, write: self.write, ping_interval: self.ping_interval }
    }
}

impl TimeoutParams {
    /// The timeouts of a connection for which none was set: reads give up
    /// after a minute, writes never, and the peer is pinged after half a
    /// minute of silence.
    pub open spec fn new_spec() -> TimeoutModel {
        TimeoutModel {
            read: Some(duration_of_secs(READ_TIMEOUT_SECS)),
            write: None,
            ping_interval: duration_of_secs(PING_INTERVAL_SECS),
        }
    }

    /// The timeouts of a connection for which none was set.
    pub fn new() -> (params: Self)
        ensures
            params@ == TimeoutParams::new_spec(),
    {
        TimeoutParams {
            read: Some(Duration::from_secs(READ_TIMEOUT_SECS)),
            write: None,
            ping_interval: Duration::from_secs(PING_INTERVAL_SECS),
        }
    }

    /// Lets a read block for `timeout` at most.
    pub fn read_timeout(&mut self, timeout: Duration)
        ensures
            final(self)@ == (TimeoutModel { read: Some(timeout), ..old(self)@ }),
    {
        self.read = Some(timeout)
    }

    /// Lets a write block for `timeout` at most.
    pub fn write_timeout(&mut self, timeout: Duration)
        ensures
            final(self)@ == (TimeoutModel { write: Some(timeout), ..old(self)@ }),
    {
        self.write = Some(timeout)
    }

    /// Pings the peer after each `every` of silence.
    pub fn ping_interval(&mut self, every: Duration)
        ensures
            final(self)@ == (TimeoutModel { ping_interval: every, ..old(self)@ }),
    {
        self.ping_interval = every
    }

    /// How long a read may block; forever where there is none.
    pub fn read_limit(&self) -> (limit: Option<Duration>)
        ensures
            limit == self@.read,
    {
        self.read
    }

    /// How long a write may block; forever where there is none.
    pub fn write_limit(&self) -> (limit: Option<Duration>)
        ensures
            limit == self@.write,
    {
        self.write
    }

    /// The silence after which the peer is pinged.
    pub fn ping_every(&self) -> (every: Duration)
        ensures
            every == self@.ping_interval,
    {
        self.ping_interval
    }
}

impl Default for TimeoutParams {
    fn default() -> (params: Self)
        ensures
            params@ == TimeoutParams::new_spec(),
    {
        Self::new()
    }
}

/// The writing side of the framing, for one network.
#[derive(Debug, Clone, Copy)]
pub enum WriteTransport {
    /// The plaintext framing, with the magic bytes of the network.
    V1([u8; 4]),
}

impl WriteTransport {
    /// The writing side for `network`.
    pub fn new(network: Network) -> (transport: Self)
        ensures
            transport.magic() == network.magic(),
    {
        WriteTransport::V1(network_magic(network))
    }

    /// The magic bytes that this side opens its frames with.
    pub open spec fn magic(self) -> Seq<u8> {
        match self {
            WriteTransport::V1(magic) => magic@,
        }
    }

    /// The frame of `network_message`: the bytes to write, whole and in
    /// order, to send it. The frame holds the magic bytes of this side, the
    /// command of the message, the length and the checksum of its payload,
    /// and the payload, as the bitcoin crate writes them. Two kinds of
    /// message have no frame and are turned away: one that asks for
    /// transactions of a block by indexes that cannot be written, and one
    /// whose payload is longer than the four bytes of a header can declare.
    pub fn write_message(&self, network_message: &NetworkMessage) -> (frame: Result<
        Vec<u8>,
        Error,
    >)
        ensures
            match frame {
                Ok(bytes) => {
                    &&& writable(*network_message)
                    &&& payload_of(*network_message).len() <= u32::MAX
                    &&& framed(
                        bytes@,
                        self.magic(),
                        command_of(*network_message),
                        payload_of(*network_message),
                    )
                    &&& well_sized(bytes@)
                    &&& declared_magic(bytes@) == self.magic()
                },
                Err(e) => if writable(*network_message) {
                    &&& payload_of(*network_message).len() > u32::MAX
                    &&& e matches Error::OversizedMessage(size)
                    &&& size == payload_of(*network_message).len()
                } else {
                    e is InvalidIndexes
                },
            },
    {
        if let Some(indexes) = requested_indexes(network_message) {
            if !indexes_in_order(indexes.as_slice()) {
                return Err(Error::InvalidIndexes);
            }
        }
        let size = payload_bytes(network_message).len();
        if size as u64 > u32::MAX as u64 {
            return Err(Error::OversizedMessage(size));
        }
        match self {
            WriteTransport::V1(magic) => {
                let frame = encode_frame(*magic, network_message);
                proof {
                    lemma_framed_is_well_formed(
                        frame@,
                        magic@,
                        command_of(*network_message),
                        payload_of(*network_message),
                    );
                }
                Ok(frame)
            },
        }
    }
}

/// The reading side of the framing, for one network.
#[derive(Debug, Clone, Copy)]
pub enum ReadTransport {
    /// The plaintext framing, with the magic bytes of the network.
    V1([u8; 4]),
}

impl ReadTransport {
    /// The reading side for `network`.
    pub fn new(network: Network) -> (transport: Self)
        ensures
            transport.magic() == network.magic(),
    {
        ReadTransport::V1(network_magic(network))
    }

    /// The magic bytes that this side expects frames to open with.
    pub open spec fn magic(self) -> Seq<u8> {
        match self {
            ReadTransport::V1(magic) => magic@,
        }
    }

    /// Reads a header: the number of bytes of payload that follow it, or the
    /// magic bytes it opens with where they are not those of this side.
    pub fn payload_length(&self, header: &[u8; 24]) -> (length: Result<u32, Error>)
        ensures
            match length {
                Ok(n) => declared_magic(header@) == self.magic() && n == declared_length(header@),
                Err(e) => {
                    &&& declared_magic(header@) != self.magic()
                    &&& e matches Error::UnexpectedMagic(found)
                    &&& found@ == declared_magic(header@)
                },
            },
    {
        match self {
            ReadTransport::V1(magic) => {
                if header[0] != magic[0] || header[1] != magic[1] || header[2] != magic[2]
                    || header[3] != magic[3] {
                    let found: [u8; 4] = [header[0], header[1], header[2], header[3]];
                    assert(found@ =~= declared_magic(header@));
                    return Err(Error::UnexpectedMagic(found));
                }
                assert(declared_magic(header@) =~= magic@);
                let b0: u32 = header[16] as u32;
                let b1: u32 = header[17] as u32;
                let b2: u32 = header[18] as u32;
                let b3: u32 = header[19] as u32;
                Ok(b0 + 256 * b1 + 65536 * b2 + 16777216 * b3)
            },
        }
    }

    /// Reads a whole frame: header and payload. A frame that opens with
    /// other magic bytes than those of this side is turned away for them. Any
    /// other frame is read by the bitcoin crate: the message is the one it
    /// reads of the frame, and where it reads none the frame fails to
    /// deserialize with its error. It reads none of a frame that is not as
    /// long as its header says.
    pub fn read_message(&self, frame: &[u8]) -> (message: Result<NetworkMessage, Error>)
        ensures
            match message {
                Ok(read) => {
                    &&& frame_message(frame@) == Ok::<NetworkMessage, DecodeError>(read)
                    &&& well_sized(frame@)
                    &&& well_summed(frame@)
                    &&& declared_magic(frame@) == self.magic()
                },
                Err(e) => if frame@.len() >= HEADER_LEN && declared_magic(frame@) != self.magic() {
                    e matches Error::UnexpectedMagic(found) && found@ == declared_magic(frame@)
                } else {
                    &&& e matches Error::Deserialize(why)
                    &&& frame_message(frame@) == Err::<NetworkMessage, DecodeError>(why)
                },
            },
            !well_sized(frame@) || !well_summed(frame@) ==> message is Err,
    {
        match self {
            ReadTransport::V1(magic) => {
                if frame.len() >= HEADER_LEN {
                    if frame[0] != magic[0] || frame[1] != magic[1] || frame[2] != magic[2]
                        || frame[3] != magic[3] {
                        let found: [u8; 4] = [frame[0], frame[1], frame[2], frame[3]];
                        assert(found@ =~= declared_magic(frame@));
                        return Err(Error::UnexpectedMagic(found));
                    }
                    assert(declared_magic(frame@) =~= magic@);
                }
                match decode_frame(frame) {
                    Ok(message) => Ok(message),
                    Err(e) => Err(Error::Deserialize(e)),
                }
            },
        }
    }
}

/// Where a handshake stands, as the proofs see it.
pub ghost enum Phase {
    /// Our version is sent and the peer's is awaited.
    AwaitingVersion { config: ConfigModel, unix_time: i64, nonce: u64 },
    /// The peer's version is accepted and its acknowledgment is awaited.
    Negotiating(SessionModel),
    /// The peer acknowledged our version.
    Completed(CompletedHandshake),
    /// The handshake ended without a connection.
    Failed(Error),
}

impl Phase {
    /// The next phase and the messages to send, after the peer sent `inbound`
    /// or, with none, closed the stream.
    ///
    /// While its version is awaited, a peer that closes the stream has sent
    /// no version; its first message is judged as a version, and opens the
    /// session or ends the handshake. During the session an announcement is
    /// recorded, the acknowledgment completes the handshake, and any other
    /// message ends it. A handshake that has completed or failed stays so.
    pub open spec fn step(self, inbound: Option<Event>) -> (Phase, Seq<Reply>) {
        match self {
            Phase::AwaitingVersion { config, unix_time, nonce } => match inbound {
                None => (Phase::Failed(Error::MissingVersion), Seq::empty()),
                Some(event) => match config.refusal(event, nonce) {
                    Some(e) => (Phase::Failed(Error::Handshake(e)), Seq::empty()),
                    None => {
                        let session = config.session(unix_time, event->Version_0, nonce);
                        (
                            Phase::Negotiating(session),
                            upgrade_messages(session.feeler.effective_version),
                        )
                    },
                },
            },
            Phase::Negotiating(session) => match inbound {
                None => (self, Seq::empty()),
                Some(event) => if event is Verack {
                    (
                        Phase::Completed(
                            CompletedHandshake {
                                feeler: session.feeler,
                                their_preferences: session.their_preferences,
                            },
                        ),
                        session.finalization(),
                    )
                } else if Preferences::announces(event) {
                    (
                        Phase::Negotiating(
                            SessionModel {
                                their_preferences: session.their_preferences.after(event),
                                ..session
                            },
                        ),
                        Seq::empty(),
                    )
                } else {
                    (
                        Phase::Failed(Error::Handshake(handshake::Error::IrrelevantMessage(event))),
                        Seq::empty(),
                    )
                },
            },
            Phase::Completed(completed) => (self, Seq::empty()),
            Phase::Failed(e) => (self, Seq::empty()),
        }
    }

    /// Whether the handshake has ended, well or not.
    pub open spec fn ended(self) -> bool {
        self is Completed || self is Failed
    }

    /// A handshake that has ended takes no further message: whatever comes
    /// in, it stays as it is and nothing is sent.
    pub proof fn lemma_ended_stays(self, inbound: Option<Event>)
        requires
            self.ended(),
        ensures
            self.step(inbound) == (self, Seq::<Reply>::empty()),
    {
    }

    /// A handshake completes on the acknowledgment of our version and on
    /// nothing else, and only from the session that the peer's version
    /// opened.
    pub proof fn lemma_completes_on_verack(self, inbound: Option<Event>)
        requires
            !self.ended(),
        ensures
            self.step(inbound).0 is Completed <==> self is Negotiating && inbound == Some(
                Event::Verack,
            ),
    {
    }
}

/// A handshake in progress: the state that the exchange of versions is in.
#[derive(Debug)]
pub enum Handshake {
    /// Our version is sent and the peer's is awaited.
    AwaitingVersion {
        /// What to negotiate.
        config: ConnectionConfig,
        /// When the handshake began, in seconds since the Unix epoch.
        unix_time: i64,
        /// The nonce of this connection.
        nonce: u64,
    },
    /// The peer's version is accepted and its acknowledgment is awaited.
    Negotiating(InitializedHandshake),
    /// The peer acknowledged our version.
    Completed(CompletedHandshake),
    /// The handshake ended without a connection.
    Failed(Error),
}

impl View for Handshake {
    type V = Phase;

    open spec fn view(&self) -> Phase {
        match *self {
            Handshake::AwaitingVersion { config, unix_time, nonce } => Phase::AwaitingVersion {
                config: config@,
                unix_time,
                nonce,
            },
            Handshake::Negotiating(session) => Phase::Negotiating(session@),
            Handshake::Completed(completed) => Phase::Completed(completed),
            Handshake::Failed(e) => Phase::Failed(e),
        }
    }
}

impl Handshake {
    /// Begins a handshake at `unix_time`, seconds since the Unix epoch, under
    /// `nonce`: the state that awaits the peer's version, and our version
    /// message, which is sent first.
    pub fn begin(config: ConnectionConfig, unix_time: i64, nonce: u64) -> (begun: (
        Handshake,
        VersionMessage,
    ))
        ensures
            begun.0@ == (Phase::AwaitingVersion { config: config@, unix_time, nonce }),
            begun.1.version == config@.our_version,
            begun.1.services == config@.our_services,
            begun.1.timestamp == unix_time,
            begun.1.nonce == nonce,
            begun.1.user_agent@ == config@.user_agent,
            begun.1.start_height == config@.our_height,
            handshake::unroutable(begun.1.receiver),
            handshake::unroutable(begun.1.sender),
            !begun.1.relay,
    {
        let version = config.build_our_version(unix_time, nonce);
        (Handshake::AwaitingVersion { config, unix_time, nonce }, version)
    }

    /// Takes what the peer sent next, or `None` where it closed the stream:
    /// the state that follows, and the messages to send before the next read.
    pub fn advance(self, inbound: Option<Event>) -> (next: (Handshake, Vec<Reply>))
        ensures
            next.0@ == self@.step(inbound).0,
            next.1@ == self@.step(inbound).1,
    {
        match self {
            Handshake::AwaitingVersion { config, unix_time, nonce } => match inbound {
                None => (Handshake::Failed(Error::MissingVersion), Vec::new()),
                Some(event) => match config.start_handshake(unix_time, event, nonce) {
                    Ok((session, messages)) => (Handshake::Negotiating(session), messages),
                    Err(e) => (Handshake::Failed(Error::Handshake(e)), Vec::new()),
                },
            },
            Handshake::Negotiating(session) => match inbound {
                None => (Handshake::Negotiating(session), Vec::new()),
                Some(event) => {
                    let mut session = session;
                    match session.negotiate(event) {
                        Ok(Some((completed, messages))) => (
                            Handshake::Completed(completed),
                            messages,
                        ),
                        Ok(None) => (Handshake::Negotiating(session), Vec::new()),
                        Err(e) => (Handshake::Failed(Error::Handshake(e)), Vec::new()),
                    }
                },
            },
            Handshake::Completed(completed) => (Handshake::Completed(completed), Vec::new()),
            Handshake::Failed(e) => (Handshake::Failed(e), Vec::new()),
        }
    }
}

/// Read messages from an open connection.
#[derive(Debug, Clone, Copy)]
pub struct ConnectionReader {
    transport: ReadTransport,
}

impl ConnectionReader {
    /// A reader of frames of `network`.
    pub fn new(network: Network) -> (reader: Self)
        ensures
            reader.magic() == network.magic(),
    {
        ConnectionReader { transport: ReadTransport::new(network) }
    }

    /// The magic bytes that this reader expects frames to open with.
    pub closed spec fn magic(self) -> Seq<u8> {
        self.transport.magic()
    }

    /// Reads a header: the number of bytes of payload to read after it, or
    /// the magic bytes it opens with where they are not those of the network.
    pub fn payload_length(&self, header: &[u8; 24]) -> (length: Result<u32, Error>)
        ensures
            match length {
                Ok(n) => declared_magic(header@) == self.magic() && n == declared_length(header@),
                Err(e) => {
                    &&& declared_magic(header@) != self.magic()
                    &&& e matches Error::UnexpectedMagic(found)
                    &&& found@ == declared_magic(header@)
                },
            },
    {
        self.transport.payload_length(header)
    }

    /// Reads the message of a whole frame that came in at `now`, and notes in
    /// `metrics` what it tells of the peer. The result is what
    /// [`ReadTransport::read_message`] gives for the frame. A message that is
    /// read is handed on as it is, and its event is observed; where the frame
    /// fails, the metrics stay as they were.
    pub fn read_message(&self, metrics: &mut ConnectionMetrics, frame: &[u8], now: u64) -> (message:
        Result<NetworkMessage, Error>)
        ensures
            match message {
                Ok(read) => {
                    &&& frame_message(frame@) == Ok::<NetworkMessage, DecodeError>(read)
                    &&& well_sized(frame@)
                    &&& well_summed(frame@)
                    &&& declared_magic(frame@) == self.magic()
                    &&& final(metrics)@ == old(metrics)@.observed(Event::read(read), now)
                },
                Err(e) => {
                    &&& final(metrics)@ == old(metrics)@
                    &&& if frame@.len() >= HEADER_LEN && declared_magic(frame@) != self.magic() {
                        e matches Error::UnexpectedMagic(found) && found@ == declared_magic(frame@)
                    } else {
                        &&& e matches Error::Deserialize(why)
                        &&& frame_message(frame@) == Err::<NetworkMessage, DecodeError>(why)
                    }
                },
            },
            !well_sized(frame@) || !well_summed(frame@) ==> message is Err,
    {
        let message = self.transport.read_message(frame)?;
        let event = Event::of(&message);
        metrics.observe(event, now);
        Ok(message)
    }
}

/// What ended the writer's wait on its queue of messages.
#[derive(Debug)]
pub enum Wake {
    /// A message was submitted.
    Message(NetworkMessage),
    /// Nothing was submitted for a second.
    Timeout,
    /// Every handle that could submit is gone.
    Disconnected,
}

/// What the writer does next.
#[derive(Debug)]
pub enum Turn {
    /// It frames and writes the message that was submitted.
    Send(NetworkMessage),
    /// It frames and writes a ping with this nonce.
    Probe(u64),
    /// It waits on its queue again.
    Rest,
    /// It ends.
    Exit,
}

/// The writer of an open connection: it sends what is submitted to it, and
/// pings the peer when the connection has been silent for too long.
#[derive(Debug, Clone, Copy)]
pub struct OpenWriter {
    transport: WriteTransport,
    ping_interval: u64,
}

impl OpenWriter {
    /// A writer of frames of `network` that pings the peer after more than
    /// `ping_interval` nanoseconds of silence.
    pub fn new(network: Network, ping_interval: u64) -> (writer: Self)
        ensures
            writer.magic() == network.magic(),
            writer.interval() == ping_interval,
    {
        OpenWriter { transport: WriteTransport::new(network), ping_interval }
    }

    /// The magic bytes that this writer opens its frames with.
    pub closed spec fn magic(self) -> Seq<u8> {
        self.transport.magic()
    }

    /// The silence after which this writer pings the peer.
    pub closed spec fn interval(self) -> u64 {
        self.ping_interval
    }

    /// The frame of `network_message`, as [`WriteTransport::write_message`]
    /// makes it, or why the message has no frame.
    pub fn write_message(&self, network_message: &NetworkMessage) -> (frame: Result<
        Vec<u8>,
        Error,
    >)
        ensures
            match frame {
                Ok(bytes) => {
                    &&& writable(*network_message)
                    &&& payload_of(*network_message).len() <= u32::MAX
                    &&& framed(
                        bytes@,
                        self.magic(),
                        command_of(*network_message),
                        payload_of(*network_message),
                    )
                    &&& well_sized(bytes@)
                    &&& declared_magic(bytes@) == self.magic()
                },
                Err(e) => if writable(*network_message) {
                    &&& payload_of(*network_message).len() > u32::MAX
                    &&& e matches Error::OversizedMessage(size)
                    &&& size == payload_of(*network_message).len()
                } else {
                    e is InvalidIndexes
                },
            },
    {
        self.transport.write_message(network_message)
    }

    /// One turn of the writer at `now`, after its wait on the queue ended. A
    /// message that was submitted is sent. When nothing was submitted, the
    /// peer is pinged where a ping is due, with a nonce drawn at random whose
    /// answer `metrics` then awaits. When nobody can submit any more, the
    /// writer ends. Only a ping changes the metrics.
    pub fn maintain_connection(&self, metrics: &mut ConnectionMetrics, wake: Wake, now: u64) -> (turn:
        Turn)
        ensures
            match wake {
                Wake::Message(submitted) => turn == Turn::Send(submitted) && final(metrics)@ == old(
                    metrics,
                )@,
                Wake::Timeout => if old(metrics)@.outbound_ping_state.due(now, self.interval()) {
                    &&& turn matches Turn::Probe(nonce)
                    &&& final(metrics)@ == (MetricsModel {
                        outbound_ping_state: OutboundPing::Waiting { nonce, then: now },
                        ..old(metrics)@
                    })
                } else {
                    turn is Rest && final(metrics)@ == old(metrics)@
                },
                Wake::Disconnected => turn is Exit && final(metrics)@ == old(metrics)@,
            },
    {
        match wake {
            Wake::Message(submitted) => Turn::Send(submitted),
            Wake::Timeout => match metrics.keep_alive(now, self.ping_interval) {
                Some(Reply::Ping(nonce)) => Turn::Probe(nonce),
                _ => Turn::Rest,
            },
            Wake::Disconnected => Turn::Exit,
        }
    }
}

} // verus!
