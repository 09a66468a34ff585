use vstd::prelude::*;

verus! {

/// A time-sensitive message
#[derive(Debug, Clone, Copy, PartialEq, Eq, Structural, Hash)]
pub enum TimedMessage {
    /// Block headers
    BlockHeaders,
    /// Compact block filters
    CFilters,
    /// Bitcoin blocks
    Block,
    /// Potential peers on the network
    Addr,
}

/// A rate as the two numbers it is the quotient of: messages per elapsed time.
#[derive(Debug, Clone, Copy, PartialEq, Eq, Structural)]
pub struct RateSample {
    /// Messages counted since the first one.
    pub count: u64,
    /// Nanoseconds between the first message and the moment of the query.
    pub elapsed: u64,
}

/// The rate at which a peer sends a particular message
#[derive(Debug, Clone, Copy, PartialEq, Eq, Structural)]
pub enum MessageRate {
    /// No message of this type has been received.
    NoneReceived,
    /// The total count of messages along with the first message of this type.
    Ongoing {
        /// Total count of messages
        count: u64,
        /// The time of the first message
        start: u64,
    },
}

/// The sum of two counts, held at the largest count that can be stored.
pub open spec fn capped_sum(a: u64, b: u64) -> u64 {
    if a + b > u64::MAX {
        u64::MAX
    } else {
        (a + b) as u64
    }
}

/// The time from `start` to `now`, zero where `now` is the earlier of the two.
pub open spec fn elapsed_between(start: u64, now: u64) -> u64 {
    if now >= start {
        (now - start) as u64
    } else {
        0
    }
}

impl MessageRate {
    /// The accumulator after `num_messages` more messages were seen at `now`.
    pub open spec fn after(self, num_messages: u64, now: u64) -> MessageRate {
        if num_messages == 0 {
            self
        } else {
            match self {
                MessageRate::NoneReceived => MessageRate::Ongoing { count: num_messages, start: now },
                MessageRate::Ongoing { count, start } => MessageRate::Ongoing {
                    count: capped_sum(count, num_messages),
                    start,
                },
            }
        }
    }

    /// The messages counted so far.
    pub open spec fn counted(self) -> u64 {
        match self {
            MessageRate::NoneReceived => 0,
            MessageRate::Ongoing { count, start } => count,
        }
    }

    /// The rate at `now`, absent before the first message.
    pub open spec fn sample(self, now: u64) -> Option<RateSample> {
        match self {
            MessageRate::NoneReceived => None,
            MessageRate::Ongoing { count, start } => Some(
                RateSample { count, elapsed: elapsed_between(start, now) },
            ),
        }
    }

    /// Whatever is counted later, the count never falls, and a measurement
    /// that has begun keeps the time of its first message.
    pub proof fn lemma_first_message_is_kept(self, num_messages: u64, now: u64)
        ensures
            self.after(num_messages, now).counted() >= self.counted(),
            self matches MessageRate::Ongoing { count, start } ==> self.after(num_messages, now)
                matches MessageRate::Ongoing { count: later, start: kept } && kept == start,
            self.after(0, now) == self,
    {
    }

    /// An accumulator that has seen no message.
    pub fn new() -> (rate: Self)
        ensures
            rate == MessageRate::NoneReceived,
    {
        MessageRate::NoneReceived
    }

    /// Counts one message seen at `now`.
    pub fn add_single_message(&mut self, now: u64)
        ensures
            *final(self) == old(self).after(1, now),
    {
        self.add_messages(1, now);
    }

    /// Counts `num_messages` messages seen at `now`. The first messages fix the
    /// start of the measurement; later ones only add to the count.
    pub fn add_messages(&mut self, num_messages: usize, now: u64)
        ensures
            *final(self) == old(self).after(num_messages as u64, now),
    {
        if num_messages == 0 {
            return ;
        }
        let added: u64 = num_messages as u64;
        match *self {
            MessageRate::NoneReceived => {
                *self = MessageRate::Ongoing { count: added, start: now };
            },
            MessageRate::Ongoing { count, start } => {
                *self = MessageRate::Ongoing { count: count.saturating_add(added), start };
            },
        }
    }

    /// The messages per second, recorded at the current time, as the count and
    /// the elapsed time whose quotient is the rate.
    pub fn messages_per_secs(&self, now: u64) -> (rate: Option<RateSample>)
        ensures
            rate == self.sample(now),
    {
        match *self {
            MessageRate::NoneReceived => None,
            MessageRate::Ongoing { count, start } => {
                let elapsed: u64 = if now >= start {
                    now - start
                } else {
                    0
                };
                Some(RateSample { count, elapsed })
            },
        }
    }

    /// The total number of these messages sent
    pub fn total_count(&self) -> (total: u32)
        ensures
            total == if self.counted() > u32::MAX {
                u32::MAX
            } else {
                self.counted() as u32
            },
    {
        match *self {
            MessageRate::NoneReceived => 0,
            MessageRate::Ongoing { count, start: _ } => {
                if count > u32::MAX as u64 {
                    u32::MAX
                } else {
                    count as u32
                }
            },
        }
    }
}

/// The rate of each time-sensitive message, one accumulator per kind.
#[derive(Debug, Clone, Copy, PartialEq, Eq, Structural)]
pub struct TimedMessages {
    block_headers: MessageRate,
    cfilters: MessageRate,
    block: MessageRate,
    addr: MessageRate,
}

impl View for TimedMessages {
    type V = Map<TimedMessage, MessageRate>;

    closed spec fn view(&self) -> Map<TimedMessage, MessageRate> {
        Map::new(
            |message: TimedMessage| true,
            |message: TimedMessage|
                match message {
                    TimedMessage::BlockHeaders => self.block_headers,
                    TimedMessage::CFilters => self.cfilters,
                    TimedMessage::Block => self.block,
                    TimedMessage::Addr => self.addr,
                },
        )
    }
}

impl Default for TimedMessages {
    fn default() -> (timed: Self)
        ensures
            forall|message: TimedMessage| #[trigger]
                timed@[message] == MessageRate::NoneReceived,
    {
        Self::new()
    }
}

impl TimedMessages {
    /// Every kind of timed message has an accumulator.
    pub proof fn lemma_total(self, message: TimedMessage)
        ensures
            self@.dom().contains(message),
    {
    }

    /// Accumulators for a connection that has seen no message yet.
    pub fn new() -> (timed: Self)
        ensures
            forall|message: TimedMessage| #[trigger]
                timed@[message] == MessageRate::NoneReceived,
            forall|message: TimedMessage| timed@.dom().contains(message),
    {
        TimedMessages {
            block_headers: MessageRate::new(),
            cfilters: MessageRate::new(),
            block: MessageRate::new(),
            addr: MessageRate::new(),
        }
    }

    /// Counts one message of the given kind seen at `now`.
    pub fn add_single(&mut self, message: TimedMessage, now: u64)
        ensures
            final(self)@ == old(self)@.insert(message, old(self)@[message].after(1, now)),
    {
        self.add_many(message, 1, now);
    }

    /// Counts `num_messages` messages of the given kind seen at `now`; the
    /// other kinds keep their accumulators.
    pub fn add_many(&mut self, message: TimedMessage, num_messages: usize, now: u64)
        ensures
            final(self)@ == old(self)@.insert(
                message,
                old(self)@[message].after(num_messages as u64, now),
            ),
    {
        match message {
            TimedMessage::BlockHeaders => self.block_headers.add_messages(num_messages, now),
            TimedMessage::CFilters => self.cfilters.add_messages(num_messages, now),
            TimedMessage::Block => self.block.add_messages(num_messages, now),
            TimedMessage::Addr => self.addr.add_messages(num_messages, now),
        }
        assert(self@ =~= old(self)@.insert(
            message,
            old(self)@[message].after(num_messages as u64, now),
        ));
    }

    /// The accumulator of the given kind.
    pub fn message_rate(&self, message: TimedMessage) -> (rate: &MessageRate)
        ensures
            *rate == self@[message],
    {
        match message {
            TimedMessage::BlockHeaders => &self.block_headers,
            TimedMessage::CFilters => &self.cfilters,
            TimedMessage::Block => &self.block,
            TimedMessage::Addr => &self.addr,
        }
    }
}

} // verus!
