//! The UI → audio-thread command channel: a typed wrapper over an `rtrb`
//! single-producer/single-consumer ring. The UI side sends, the audio side
//! polls once per block; neither side blocks.

use vstd::prelude::*;

verus! {

/// A control message for the audio thread. `Copy`, so it never carries heap
/// state across the thread boundary.
#[derive(Debug, Clone, Copy, PartialEq, Eq, Structural)]
pub enum RecorderCommand {
    /// Stop capture and tear down the take.
    Stop,
    /// Toggle software monitoring of the input.
    SetMonitoring(bool),
    /// Mute or unmute a track in the monitor mix (capture continues).
    SetMute { track: usize, muted: bool },
}

/// Declares `rtrb::Producer`, the writing end of a ring.
#[verifier::external_type_specification]
#[verifier::external_body]
#[verifier::reject_recursive_types(T)]
pub struct ExProducer<T>(rtrb::Producer<T>);

/// Declares `rtrb::Consumer`, the reading end of a ring.
#[verifier::external_type_specification]
#[verifier::external_body]
#[verifier::reject_recursive_types(T)]
pub struct ExConsumer<T>(rtrb::Consumer<T>);

/// The number of slots of the ring a writing end belongs to: the capacity the
/// ring was made with (`producer.buffer().capacity()`).
pub uninterp spec fn producer_capacity(p: rtrb::Producer<RecorderCommand>) -> usize;

/// The number of slots of the ring a reading end belongs to: the capacity the
/// ring was made with (`consumer.buffer().capacity()`).
pub uninterp spec fn consumer_capacity(c: rtrb::Consumer<RecorderCommand>) -> usize;

/// The commands written into the ring through a writing end, oldest first,
/// since the ring was made.
pub uninterp spec fn written(p: rtrb::Producer<RecorderCommand>) -> Seq<RecorderCommand>;

/// The commands taken out of the ring through a reading end, oldest first,
/// since the ring was made.
pub uninterp spec fn taken(c: rtrb::Consumer<RecorderCommand>) -> Seq<RecorderCommand>;

/// Calls `rtrb::RingBuffer::new`, which creates an empty ring of `capacity`
/// slots and hands back its two ends; both ends report that capacity, and
/// nothing has yet been written or taken. What the ring later holds depends
/// on both sides and is not claimed. The ring's
/// storage is one allocation of `capacity` commands, which panics past
/// `isize::MAX` bytes; a command takes at most 16 bytes, so the bound below
/// keeps clear of that.
#[verifier::external_body]
fn ring_new(capacity: usize) -> (ends: (rtrb::Producer<RecorderCommand>, rtrb::Consumer<RecorderCommand>))
    requires
        capacity * 16 <= isize::MAX,
    ensures
        producer_capacity(ends.0) == capacity,
        consumer_capacity(ends.1) == capacity,
        written(ends.0) == Seq::<RecorderCommand>::empty(),
        taken(ends.1) == Seq::<RecorderCommand>::empty(),
{
    rtrb::RingBuffer::new(capacity)
}

/// Calls `rtrb::Producer::push`, reporting whether the command was enqueued.
/// Whether there was room depends on how many commands the other end has
/// already taken, which this end cannot see, so the result is left open.
/// When there was room, `cmd` is written into the next slot and the tail
/// advances, so it joins the commands written; when the ring was full,
/// `push` hands the command back and writes nothing. The ring keeps its
/// capacity either way.
#[verifier::external_body]
fn ring_push(p: &mut rtrb::Producer<RecorderCommand>, cmd: RecorderCommand) -> (ok: bool)
    ensures
        producer_capacity(*final(p)) == producer_capacity(*old(p)),
        written(*final(p)) == (if ok {
            written(*old(p)).push(cmd)
        } else {
            written(*old(p))
        }),
{
    p.push(cmd).is_ok()
}

/// Calls `rtrb::Consumer::pop`, giving the oldest pending command if any.
/// Which command, if any, is pending depends on the other end, so the result
/// is left open. A command handed out has been read from its slot and the
/// head advanced past it, so it joins the commands taken; on an empty ring
/// the head is left alone and nothing is taken. The ring keeps its capacity
/// either way.
#[verifier::external_body]
fn ring_pop(c: &mut rtrb::Consumer<RecorderCommand>) -> (cmd: Option<RecorderCommand>)
    ensures
        consumer_capacity(*final(c)) == consumer_capacity(*old(c)),
        taken(*final(c)) == (match cmd {
            Some(x) => taken(*old(c)).push(x),
            None => taken(*old(c)),
        }),
{
    c.pop().ok()
}

/// UI side of the command channel.
pub struct CommandTx(rtrb::Producer<RecorderCommand>);

/// Audio side of the command channel.
pub struct CommandRx(rtrb::Consumer<RecorderCommand>);

impl CommandTx {
    /// How many commands the channel can hold pending at once.
    pub closed spec fn slots(&self) -> usize {
        producer_capacity(self.0)
    }

    /// The commands queued through this end, oldest first.
    pub closed spec fn sent(&self) -> Seq<RecorderCommand> {
        written(self.0)
    }
}

impl CommandRx {
    /// How many commands the channel can hold pending at once.
    pub closed spec fn slots(&self) -> usize {
        consumer_capacity(self.0)
    }

    /// The commands received through this end, oldest first.
    pub closed spec fn received(&self) -> Seq<RecorderCommand> {
        taken(self.0)
    }
}

/// The number of slots a channel asked for `capacity` gets: at least one.
pub open spec fn channel_slots(capacity: usize) -> usize {
    if capacity >= 1 { capacity } else { 1 }
}

/// The capacity actually requested from the ring for a channel of `capacity`.
pub fn channel_capacity(capacity: usize) -> (n: usize)
    ensures
        n == channel_slots(capacity),
{
    if capacity >= 1 { capacity } else { 1 }
}

/// Create a command channel with room for `capacity` pending commands (at
/// least one). The ring is allocated in one piece, so `capacity` must keep
/// it within the address space.
pub fn command_channel(capacity: usize) -> (ends: (CommandTx, CommandRx))
    requires
        capacity * 16 <= isize::MAX,
    ensures
        ends.0.slots() == channel_slots(capacity),
        ends.1.slots() == channel_slots(capacity),
        ends.0.sent() == Seq::<RecorderCommand>::empty(),
        ends.1.received() == Seq::<RecorderCommand>::empty(),
{
    let (p, c) = ring_new(channel_capacity(capacity));
    (CommandTx(p), CommandRx(c))
}

impl CommandTx {
    /// Enqueue a command. Returns false if the queue is full, and then
    /// nothing is queued; when it returns true, `cmd` has joined the commands
    /// sent. The channel keeps its size.
    pub fn send(&mut self, cmd: RecorderCommand) -> (queued: bool)
        ensures
            final(self).slots() == old(self).slots(),
            final(self).sent() == (if queued {
                old(self).sent().push(cmd)
            } else {
                old(self).sent()
            }),
    {
        ring_push(&mut self.0, cmd)
    }
}

impl CommandRx {
    /// Pop the next command, if any. Never blocks. A command handed out joins
    /// the commands received; `None` takes nothing. The channel keeps its
    /// size.
    pub fn try_recv(&mut self) -> (cmd: Option<RecorderCommand>)
        ensures
            final(self).slots() == old(self).slots(),
            final(self).received() == (match cmd {
                Some(x) => old(self).received().push(x),
                None => old(self).received(),
            }),
    {
        ring_pop(&mut self.0)
    }
}

} // verus!
