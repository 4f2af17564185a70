//! The bounded channel between the producers and the consumer.
//!
//! A message is an opaque run of bytes. Two limits guard the channel: no
//! message may be longer than the configured ceiling, and no more than the
//! soft cap may be under way at once. The second limit is kept by the
//! occupancy counter: a producer reserves a place before it transmits and
//! gives the place back whenever the message does not go out.
//!
//! The producer's side is written down twice. [`directive`] is the protocol
//! itself, one decision at a time, for a driver that keeps the counter and the
//! transport elsewhere (in memory shared between processes, on a socket).
//! [`channel_send`] drives the same protocol against a [`Channel`], whose
//! counter and queue one owner holds; of that channel everything is stated
//! and proved.

use crate::counter::{admission, word_after_add, word_after_sub, Admission, OccupancyCounter};
use std::collections::VecDeque;
use vstd::prelude::*;

verus! {

/// The soft cap on queued messages where none is configured.
pub const MAX_COUNT: usize = 100;

/// The ceiling that a configured length stands for. A value that is not
/// positive means "no ceiling", and so does one beyond the machine's reach.
pub open spec fn effective_max_length(configured: i64) -> usize {
    if configured <= 0 || configured > usize::MAX {
        usize::MAX
    } else {
        configured as usize
    }
}

/// The ceiling on a message's length, from its configured value.
pub fn max_length(configured: i64) -> (ceiling: usize)
    ensures
        ceiling == effective_max_length(configured),
{
    if configured <= 0 {
        usize::MAX
    } else if configured as u64 > usize::MAX as u64 {
        usize::MAX
    } else {
        configured as usize
    }
}

/// Why a message was not sent.
#[derive(Clone, Copy, Debug, PartialEq, Eq, Structural)]
pub enum SendError {
    /// The message is longer than the ceiling. It was never queued.
    TooBig,
    /// The soft cap is reached. The message is dropped.
    Full,
    /// The transport failed: the consumer's end is gone.
    Transport,
    /// The channel has not been initialized.
    NotInitialized,
}

/// Why no message was received.
#[derive(Clone, Copy, Debug, PartialEq, Eq, Structural)]
pub enum RecvError {
    /// The transport failed: the channel is broken.
    Transport,
    /// The channel has not been initialized.
    NotInitialized,
}

/// Why the channel was not initialized.
#[derive(Clone, Copy, Debug, PartialEq, Eq, Structural)]
pub enum InitError {
    /// The channel was initialized before.
    AlreadyInitialized,
}

/// The condition of the transport.
#[derive(Clone, Copy, Debug, PartialEq, Eq, Structural)]
pub enum Link {
    /// Not set up yet.
    NotInitialized,
    /// Set up and working.
    Open,
    /// The consumer's end was torn down.
    Broken,
}

/// How an attempt to transmit ended.
#[derive(Clone, Copy, Debug, PartialEq, Eq, Structural)]
pub enum Transmission {
    /// The transport took the message.
    Delivered,
    /// There is no transport yet.
    NotInitialized,
    /// The transport refused the message.
    Failed,
}

/// How far a producer has come with one message.
#[derive(Clone, Copy, Debug)]
pub enum Progress {
    /// Nothing was done yet.
    Begin,
    /// A place was asked for; this is the counter's verdict.
    Reserved { verdict: Admission },
    /// The message was handed to the transport; this is how it ended.
    Transmitted { outcome: Transmission },
    /// The place was given back, because of `error`.
    Released { error: SendError },
}

/// What a producer does next.
#[derive(Clone, Copy, Debug)]
pub enum Directive {
    /// Add one to the occupancy counter and judge the value found.
    Reserve,
    /// Hand the message to the transport.
    Transmit,
    /// Take one from the occupancy counter; the message will not go out.
    Release { error: SendError },
    /// Stop, with this result.
    Finish { result: Result<(), SendError> },
}

/// The producer's protocol: check the length, reserve a place, transmit, and
/// give the place back unless the transport took the message.
pub open spec fn directive(max_length: usize, len: usize, progress: Progress) -> Directive {
    match progress {
        Progress::Begin => if len > max_length {
            Directive::Finish { result: Err(SendError::TooBig) }
        } else {
            Directive::Reserve
        },
        Progress::Reserved { verdict } => match verdict {
            Admission::Admitted => Directive::Transmit,
            Admission::Full => Directive::Release { error: SendError::Full },
        },
        Progress::Transmitted { outcome } => match outcome {
            Transmission::Delivered => Directive::Finish { result: Ok(()) },
            Transmission::NotInitialized => Directive::Release {
                error: SendError::NotInitialized,
            },
            Transmission::Failed => Directive::Release { error: SendError::Transport },
        },
        Progress::Released { error } => Directive::Finish { result: Err(error) },
    }
}

/// The steps that may still follow `progress`.
pub open spec fn steps_left(progress: Progress) -> nat {
    match progress {
        Progress::Begin => 3,
        Progress::Reserved { .. } => 2,
        Progress::Transmitted { .. } => 1,
        Progress::Released { .. } => 0,
    }
}

/// Says what a producer does next with a message of `len` bytes.
pub fn next_directive(max_length: usize, len: usize, progress: Progress) -> (next: Directive)
    ensures
        next == directive(max_length, len, progress),
{
    match progress {
        Progress::Begin => if len > max_length {
            Directive::Finish { result: Err(SendError::TooBig) }
        } else {
            Directive::Reserve
        },
        Progress::Reserved { verdict } => match verdict {
            Admission::Admitted => Directive::Transmit,
            Admission::Full => Directive::Release { error: SendError::Full },
        },
        Progress::Transmitted { outcome } => match outcome {
            Transmission::Delivered => Directive::Finish { result: Ok(()) },
            Transmission::NotInitialized => Directive::Release {
                error: SendError::NotInitialized,
            },
            Transmission::Failed => Directive::Release { error: SendError::Transport },
        },
        Progress::Released { error } => Directive::Finish { result: Err(error) },
    }
}

/// What came of an attempt to take a message from the transport.
#[derive(Clone, Copy, Debug, PartialEq, Eq, Structural)]
pub enum Arrival {
    /// A message came out.
    Message,
    /// Nothing is queued.
    Empty,
    /// The transport failed.
    Failed,
}

/// Whether the consumer takes one from the occupancy counter after
/// `arrival`: once for each message that came out, and never otherwise.
pub fn frees_place(arrival: Arrival) -> (frees: bool)
    ensures
        frees == (arrival == Arrival::Message),
{
    match arrival {
        Arrival::Message => true,
        Arrival::Empty | Arrival::Failed => false,
    }
}

/// A channel as a value: its limits, its count, and the messages under way,
/// oldest first.
pub struct ChannelState {
    pub max_length: usize,
    pub capacity: usize,
    pub count: usize,
    pub link: Link,
    pub in_flight: Seq<Seq<u8>>,
}

impl ChannelState {
    /// What holds of every channel that was made by `Channel::new` and
    /// changed by this module's operations: the count is within the cap, and
    /// on an open channel it is the number of messages under way. Where there
    /// is no transport nothing is under way.
    pub open spec fn wf(self) -> bool {
        &&& self.count <= self.capacity
        &&& self.link == Link::Open ==> self.count == self.in_flight.len()
        &&& self.link != Link::Open ==> self.in_flight.len() == 0
        &&& self.link == Link::NotInitialized ==> self.count == 0
    }

    /// The channel before it is initialized.
    pub open spec fn fresh(max_length: usize, capacity: usize) -> ChannelState {
        ChannelState {
            max_length,
            capacity,
            count: 0,
            link: Link::NotInitialized,
            in_flight: Seq::empty(),
        }
    }

    /// What a producer is told that offers a message of `len` bytes. The
    /// length is judged first, then the count, then the transport.
    pub open spec fn send_outcome(self, len: nat) -> Result<(), SendError> {
        if len > self.max_length {
            Err(SendError::TooBig)
        } else if self.count >= self.capacity {
            Err(SendError::Full)
        } else {
            match self.link {
                Link::NotInitialized => Err(SendError::NotInitialized),
                Link::Broken => Err(SendError::Transport),
                Link::Open => Ok(()),
            }
        }
    }

    /// The channel after a producer offered `segment`: one message more where
    /// it was taken, and no change at all where it was not.
    pub open spec fn after_send(self, segment: Seq<u8>) -> ChannelState {
        if self.send_outcome(segment.len()) is Ok {
            ChannelState {
                count: (self.count + 1) as usize,
                in_flight: self.in_flight.push(segment),
                ..self
            }
        } else {
            self
        }
    }

    /// What the consumer gets when it asks for a message without waiting.
    pub open spec fn recv_outcome(self) -> Result<Option<Seq<u8>>, RecvError> {
        match self.link {
            Link::NotInitialized => Err(RecvError::NotInitialized),
            Link::Broken => Err(RecvError::Transport),
            Link::Open => if self.in_flight.len() > 0 {
                Ok(Some(self.in_flight[0]))
            } else {
                Ok(None)
            },
        }
    }

    /// The channel after the consumer asked for a message: the oldest message
    /// is gone and the count is one less, where there was a message.
    pub open spec fn after_recv(self) -> ChannelState {
        if self.link == Link::Open && self.in_flight.len() > 0 {
            ChannelState {
                count: word_after_sub(self.count),
                in_flight: self.in_flight.subrange(1, self.in_flight.len() as int),
                ..self
            }
        } else {
            self
        }
    }

    /// Whether a consumer that waits for a message gets an answer: a message
    /// is queued, or there is no working transport to wait on.
    pub open spec fn recv_returns(self) -> bool {
        self.link != Link::Open || self.in_flight.len() > 0
    }

    /// The channel after `init_channel`.
    pub open spec fn after_init(self) -> ChannelState {
        if self.link == Link::NotInitialized {
            ChannelState { link: Link::Open, ..self }
        } else {
            self
        }
    }

    /// The channel after the consumer's end was torn down: what was under
    /// way is lost.
    pub open spec fn after_disconnect(self) -> ChannelState {
        if self.link == Link::Open {
            ChannelState { link: Link::Broken, in_flight: Seq::empty(), ..self }
        } else {
            self
        }
    }

    /// The channel after the consumer took `n` messages in a row.
    pub open spec fn after_recvs(self, n: nat) -> ChannelState
        decreases n,
    {
        if n == 0 {
            self
        } else {
            self.after_recv().after_recvs((n - 1) as nat)
        }
    }
}

/// The byte strings that a queue of messages holds.
pub open spec fn contents(queue: Seq<Vec<u8>>) -> Seq<Seq<u8>> {
    Seq::new(queue.len(), |i: int| queue[i]@)
}

/// A channel whose counter and queue one owner holds.
pub struct Channel {
    count: OccupancyCounter,
    max_length: usize,
    capacity: usize,
    link: Link,
    queue: VecDeque<Vec<u8>>,
}

impl View for Channel {
    type V = ChannelState;

    closed spec fn view(&self) -> ChannelState {
        ChannelState {
            max_length: self.max_length,
            capacity: self.capacity,
            count: self.count@,
            link: self.link,
            in_flight: contents(self.queue@),
        }
    }
}

impl Channel {
    /// A channel with the given limits that is not initialized yet.
    pub fn new(max_length: usize, capacity: usize) -> (channel: Channel)
        ensures
            channel@ == ChannelState::fresh(max_length, capacity),
    {
        let channel = Channel {
            count: OccupancyCounter::new(),
            max_length,
            capacity,
            link: Link::NotInitialized,
            queue: VecDeque::new(),
        };
        assert(contents(channel.queue@) =~= Seq::<Seq<u8>>::empty());
        channel
    }

    /// The ceiling on a message's length.
    pub fn max_length(&self) -> (ceiling: usize)
        ensures
            ceiling == self@.max_length,
    {
        self.max_length
    }

    /// The soft cap on queued messages.
    pub fn capacity(&self) -> (cap: usize)
        ensures
            cap == self@.capacity,
    {
        self.capacity
    }

    /// The value of the occupancy counter.
    pub fn count(&self) -> (count: usize)
        ensures
            count == self@.count,
    {
        self.count.value()
    }

    /// The number of messages that wait for the consumer.
    pub fn queued(&self) -> (n: usize)
        ensures
            n == self@.in_flight.len(),
    {
        self.queue.len()
    }

    /// The condition of the transport.
    pub fn link(&self) -> (link: Link)
        ensures
            link == self@.link,
    {
        self.link
    }

    /// Tears the consumer's end down. The messages that were under way are
    /// lost; the counter keeps its value.
    pub fn disconnect(&mut self)
        ensures
            final(self)@ == old(self)@.after_disconnect(),
    {
        match self.link {
            Link::Open => {
                self.link = Link::Broken;
                self.queue.clear();
                assert(contents(self.queue@) =~= Seq::<Seq<u8>>::empty());
            },
            Link::NotInitialized | Link::Broken => {},
        }
    }

    /// Hands `parcel` to the transport.
    fn transmit(&mut self, parcel: Vec<u8>) -> (outcome: Transmission)
        ensures
            outcome == match old(self)@.link {
                Link::NotInitialized => Transmission::NotInitialized,
                Link::Broken => Transmission::Failed,
                Link::Open => Transmission::Delivered,
            },
            final(self)@ == (if old(self)@.link == Link::Open {
                ChannelState { in_flight: old(self)@.in_flight.push(parcel@), ..old(self)@ }
            } else {
                old(self)@
            }),
    {
        match self.link {
            Link::NotInitialized => Transmission::NotInitialized,
            Link::Broken => Transmission::Failed,
            Link::Open => {
                let ghost before = self.queue@;
                self.queue.push_back(parcel);
                assert(contents(self.queue@) =~= contents(before).push(parcel@));
                Transmission::Delivered
            },
        }
    }
}

/// Sets the transport up. A channel is initialized once: a second call is
/// refused and changes nothing.
pub fn init_channel(channel: &mut Channel) -> (result: Result<(), InitError>)
    ensures
        result is Ok <==> old(channel)@.link == Link::NotInitialized,
        result is Err ==> result == Err::<(), InitError>(InitError::AlreadyInitialized),
        final(channel)@ == old(channel)@.after_init(),
{
    match channel.link {
        Link::NotInitialized => {
            channel.link = Link::Open;
            Ok(())
        },
        Link::Open | Link::Broken => Err(InitError::AlreadyInitialized),
    }
}

/// Offers `segment` to the channel without waiting. The length is checked
/// first; then a place is reserved; then the message is transmitted. A
/// message that is refused for any reason leaves the channel, its counter
/// included, exactly as it was.
pub fn channel_send(channel: &mut Channel, segment: Vec<u8>) -> (result: Result<(), SendError>)
    ensures
        result == old(channel)@.send_outcome(segment@.len()),
        final(channel)@ == old(channel)@.after_send(segment@),
{
    let ghost before = channel@;
    let ghost bytes = segment@;
    let len = segment.len();
    let mut parcel = Some(segment);
    let mut progress = Progress::Begin;
    loop
        invariant
            before == old(channel)@,
            bytes == segment@,
            len == bytes.len(),
            match progress {
                Progress::Begin => channel@ == before && parcel is Some && parcel->0@ == bytes,
                Progress::Reserved { verdict } => {
                    &&& len <= before.max_length
                    &&& verdict == admission(before.count, before.capacity)
                    &&& channel@ == ChannelState { count: word_after_add(before.count), ..before }
                    &&& parcel is Some
                    &&& parcel->0@ == bytes
                },
                Progress::Transmitted { outcome } => {
                    &&& len <= before.max_length
                    &&& before.count < before.capacity
                    &&& outcome == Transmission::Delivered <==> before.link == Link::Open
                    &&& outcome == Transmission::NotInitialized <==> before.link
                        == Link::NotInitialized
                    &&& outcome == Transmission::Delivered ==> channel@ == before.after_send(bytes)
                    &&& outcome != Transmission::Delivered ==> channel@ == ChannelState {
                        count: word_after_add(before.count),
                        ..before
                    }
                },
                Progress::Released { error } => {
                    &&& channel@ == before
                    &&& before.send_outcome(bytes.len()) == Err::<(), SendError>(error)
                },
            },
        decreases steps_left(progress),
    {
        match next_directive(channel.max_length, len, progress) {
            Directive::Reserve => {
                let verdict = channel.count.increment_and_check(channel.capacity);
                progress = Progress::Reserved { verdict };
            },
            Directive::Transmit => {
                let outcome = match parcel.take() {
                    Some(message) => channel.transmit(message),
                    None => Transmission::Failed,
                };
                progress = Progress::Transmitted { outcome };
            },
            Directive::Release { error } => {
                channel.count.decrement();
                progress = Progress::Released { error };
            },
            Directive::Finish { result } => {
                return result;
            },
        }
    }
}

/// Takes the oldest message, if one is queued, and frees its place.
pub fn channel_try_receive(channel: &mut Channel) -> (result: Result<Option<Vec<u8>>, RecvError>)
    ensures
        match result {
            Ok(Some(message)) => old(channel)@.recv_outcome() == Ok::<
                Option<Seq<u8>>,
                RecvError,
            >(Some(message@)),
            Ok(None) => old(channel)@.recv_outcome() == Ok::<Option<Seq<u8>>, RecvError>(None),
            Err(error) => old(channel)@.recv_outcome() == Err::<Option<Seq<u8>>, RecvError>(error),
        },
        final(channel)@ == old(channel)@.after_recv(),
{
    match channel.link {
        Link::NotInitialized => Err(RecvError::NotInitialized),
        Link::Broken => Err(RecvError::Transport),
        Link::Open => {
            let ghost before = channel.queue@;
            let taken = channel.queue.pop_front();
            let arrival = match taken {
                Some(_) => Arrival::Message,
                None => Arrival::Empty,
            };
            if frees_place(arrival) {
                channel.count.decrement();
            }
            assert(contents(channel.queue@) =~= (if before.len() > 0 {
                contents(before).subrange(1, before.len() as int)
            } else {
                contents(before)
            }));
            Ok(taken)
        },
    }
}

/// Takes the oldest message and frees its place. On a working transport the
/// consumer waits until a message is there, so the call is for a channel on
/// which the wait can end: one that holds a message, or one without a
/// working transport, which answers with the error.
pub fn channel_receive(channel: &mut Channel) -> (result: Result<Vec<u8>, RecvError>)
    requires
        old(channel)@.recv_returns(),
    ensures
        match result {
            Ok(message) => old(channel)@.recv_outcome() == Ok::<Option<Seq<u8>>, RecvError>(
                Some(message@),
            ),
            Err(error) => old(channel)@.recv_outcome() == Err::<Option<Seq<u8>>, RecvError>(error),
        },
        final(channel)@ == old(channel)@.after_recv(),
{
    match channel_try_receive(channel) {
        Ok(Some(message)) => Ok(message),
        Ok(None) => Err(RecvError::Transport),
        Err(error) => Err(error),
    }
}

/// The producers' end of the channel.
pub struct Sender;

impl Sender {
    /// Submits a finished segment. The call never waits; a segment that is
    /// not taken is dropped, and the result says why.
    pub fn send(&self, channel: &mut Channel, segment: Vec<u8>) -> (result: Result<(), SendError>)
        ensures
            result == old(channel)@.send_outcome(segment@.len()),
            final(channel)@ == old(channel)@.after_send(segment@),
    {
        channel_send(channel, segment)
    }
}

/// The consumer's end of the channel.
pub struct Receiver;

impl Receiver {
    /// Waits for the next segment; see `channel_receive`.
    pub fn recv(&self, channel: &mut Channel) -> (result: Result<Option<Vec<u8>>, RecvError>)
        requires
            old(channel)@.recv_returns(),
        ensures
            match result {
                Ok(Some(message)) => old(channel)@.recv_outcome() == Ok::<
                    Option<Seq<u8>>,
                    RecvError,
                >(Some(message@)),
                Ok(None) => false,
                Err(error) => old(channel)@.recv_outcome() == Err::<Option<Seq<u8>>, RecvError>(
                    error,
                ),
            },
            final(channel)@ == old(channel)@.after_recv(),
    {
        match channel_receive(channel) {
            Ok(message) => Ok(Some(message)),
            Err(error) => Err(error),
        }
    }

    /// Takes the next segment if one is queued; see `channel_try_receive`.
    pub fn try_recv(&self, channel: &mut Channel) -> (result: Result<Option<Vec<u8>>, RecvError>)
        ensures
            match result {
                Ok(Some(message)) => old(channel)@.recv_outcome() == Ok::<
                    Option<Seq<u8>>,
                    RecvError,
                >(Some(message@)),
                Ok(None) => old(channel)@.recv_outcome() == Ok::<Option<Seq<u8>>, RecvError>(None),
                Err(error) => old(channel)@.recv_outcome() == Err::<Option<Seq<u8>>, RecvError>(
                    error,
                ),
            },
            final(channel)@ == old(channel)@.after_recv(),
    {
        channel_try_receive(channel)
    }
}

/// A channel is well formed when it is made and stays so under every
/// operation.
pub proof fn lemma_operations_keep_channel_well_formed(
    max_length: usize,
    capacity: usize,
    state: ChannelState,
    segment: Seq<u8>,
)
    requires
        state.wf(),
    ensures
        ChannelState::fresh(max_length, capacity).wf(),
        state.after_init().wf(),
        state.after_send(segment).wf(),
        state.after_recv().wf(),
        state.after_disconnect().wf(),
{
}

/// A segment that is longer than the ceiling is refused as too big, whatever
/// else holds of the channel, and the counter and the queue stay as they
/// were.
pub proof fn lemma_oversize_segment_changes_nothing(state: ChannelState, segment: Seq<u8>)
    requires
        segment.len() > state.max_length,
    ensures
        state.send_outcome(segment.len()) == Err::<(), SendError>(SendError::TooBig),
        state.after_send(segment) == state,
{
}

/// While as many messages are under way as the cap allows, a segment of
/// permitted length is refused as full, and after the refusal the counter
/// stands where it stood, at the cap.
pub proof fn lemma_full_channel_refuses(state: ChannelState, segment: Seq<u8>)
    requires
        state.wf(),
        state.count == state.capacity,
        segment.len() <= state.max_length,
    ensures
        state.send_outcome(segment.len()) == Err::<(), SendError>(SendError::Full),
        state.after_send(segment) == state,
        state.after_send(segment).count <= state.capacity,
{
}

/// Taking `n` of the queued messages leaves the rest, in their order.
pub proof fn lemma_after_recvs(state: ChannelState, n: nat)
    requires
        state.link == Link::Open,
        n <= state.in_flight.len(),
    ensures
        state.after_recvs(n).link == Link::Open,
        state.after_recvs(n).in_flight == state.in_flight.subrange(
            n as int,
            state.in_flight.len() as int,
        ),
    decreases n,
{
    if n == 0 {
        assert(state.in_flight =~= state.in_flight.subrange(0, state.in_flight.len() as int));
    } else {
        let next = state.after_recv();
        lemma_after_recvs(next, (n - 1) as nat);
        assert(next.in_flight.subrange(n - 1, next.in_flight.len() as int)
            =~= state.in_flight.subrange(n as int, state.in_flight.len() as int));
    }
}

/// Messages leave in the order in which they came: the message at place `k`
/// of the queue is what the consumer receives after it took `k` others.
pub proof fn lemma_messages_leave_in_order(state: ChannelState, k: nat)
    requires
        state.link == Link::Open,
        k < state.in_flight.len(),
    ensures
        state.after_recvs(k).recv_outcome() == Ok::<Option<Seq<u8>>, RecvError>(
            Some(state.in_flight[k as int]),
        ),
{
    lemma_after_recvs(state, k);
}

/// A segment of permitted length that is offered to a working channel below
/// its cap is taken, and the consumer receives it once it has taken the
/// messages that were queued before it.
pub proof fn lemma_taken_segment_is_received(state: ChannelState, segment: Seq<u8>)
    requires
        state.wf(),
        state.link == Link::Open,
        state.count < state.capacity,
        segment.len() <= state.max_length,
    ensures
        state.send_outcome(segment.len()) is Ok,
        state.after_send(segment).after_recvs(state.in_flight.len()).recv_outcome() == Ok::<
            Option<Seq<u8>>,
            RecvError,
        >(Some(segment)),
{
    lemma_messages_leave_in_order(state.after_send(segment), state.in_flight.len());
}

} // verus!
