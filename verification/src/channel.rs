//! The bounded first-in-first-out queue of key events between the input
//! poller and the renderer.

use vstd::prelude::*;
use crate::keys::KeyEvent;

verus! {

/// The capacity of the channel that `EventChannel::new` makes.
pub const CHANNEL_CAPACITY: usize = 1024;

/// The largest capacity that a channel can be made with. A buffer of so
/// many events fits the address space of every target.
pub const MAX_CHANNEL_CAPACITY: usize = 0x0100_0000;

/// A heap-allocated ring buffer of key events, `ringbuf::HeapRb`. Only the
/// four functions below look inside.
#[verifier::external_body]
pub struct EventQueue {
    inner: ringbuf::HeapRb<KeyEvent>,
}

/// The events that a ring buffer holds, eldest first.
pub uninterp spec fn queued(queue: EventQueue) -> Seq<KeyEvent>;

/// The capacity that a ring buffer was made with.
pub uninterp spec fn limit(queue: EventQueue) -> nat;

/// `ringbuf::HeapRb::new`: a ring buffer of the given capacity that holds
/// nothing. The call panics on a capacity of 0 and on one whose buffer
/// exceeds the address space; `requires` excludes both.
#[verifier::external_body]
fn queue_new(capacity: usize) -> (queue: EventQueue)
    requires
        0 < capacity <= MAX_CHANNEL_CAPACITY,
    ensures
        queued(queue) == Seq::<KeyEvent>::empty(),
        limit(queue) == capacity,
{
    EventQueue { inner: ringbuf::HeapRb::new(capacity) }
}

/// `ringbuf::traits::Producer::try_push` on a `HeapRb`: appends the event
/// behind the others unless the buffer is full; a full buffer is left as
/// it is and hands the event back, which is reported as `false`.
#[verifier::external_body]
fn queue_try_push(queue: &mut EventQueue, event: KeyEvent) -> (accepted: bool)
    ensures
        limit(*final(queue)) == limit(*old(queue)),
        accepted <==> queued(*old(queue)).len() < limit(*old(queue)),
        accepted ==> queued(*final(queue)) == queued(*old(queue)).push(event),
        !accepted ==> queued(*final(queue)) == queued(*old(queue)),
{
    ringbuf::traits::Producer::try_push(&mut queue.inner, event).is_ok()
}

/// `ringbuf::traits::Consumer::try_pop` on a `HeapRb`: removes the eldest
/// event and returns it; `None`, and nothing changes, when the buffer
/// holds nothing.
#[verifier::external_body]
fn queue_try_pop(queue: &mut EventQueue) -> (event: Option<KeyEvent>)
    ensures
        limit(*final(queue)) == limit(*old(queue)),
        event is Some <==> queued(*old(queue)).len() > 0,
        event matches Some(e) ==> e == queued(*old(queue))[0] && queued(*final(queue)) == queued(
            *old(queue),
        ).drop_first(),
        event is None ==> queued(*final(queue)) == queued(*old(queue)),
{
    ringbuf::traits::Consumer::try_pop(&mut queue.inner)
}

/// `ringbuf::traits::Observer::occupied_len` on a `HeapRb`: the number of
/// events held.
#[verifier::external_body]
fn queue_len(queue: &EventQueue) -> (n: usize)
    ensures
        n == queued(*queue).len(),
{
    ringbuf::traits::Observer::occupied_len(&queue.inner)
}

/// A bounded queue of key events. Neither end ever blocks: a push onto a
/// full channel and a pop from an empty one report so at once.
pub struct EventChannel {
    queue: EventQueue,
}

impl View for EventChannel {
    type V = Seq<KeyEvent>;

    /// The queued events, eldest first.
    closed spec fn view(&self) -> Seq<KeyEvent> {
        queued(self.queue)
    }
}

impl EventChannel {
    /// The number of events that the channel can hold.
    pub closed spec fn capacity(self) -> nat {
        limit(self.queue)
    }

    /// The channel holds no more than its capacity, which is positive.
    pub open spec fn wf(self) -> bool {
        self@.len() <= self.capacity() && self.capacity() > 0
    }

    /// An empty channel of the standard capacity.
    pub fn new() -> (channel: EventChannel)
        ensures
            channel.wf(),
            channel@ == Seq::<KeyEvent>::empty(),
            channel.capacity() == CHANNEL_CAPACITY,
    {
        EventChannel { queue: queue_new(CHANNEL_CAPACITY) }
    }

    /// An empty channel that can hold `capacity` events.
    pub fn with_capacity(capacity: usize) -> (channel: EventChannel)
        requires
            0 < capacity <= MAX_CHANNEL_CAPACITY,
        ensures
            channel.wf(),
            channel@ == Seq::<KeyEvent>::empty(),
            channel.capacity() == capacity,
    {
        EventChannel { queue: queue_new(capacity) }
    }

    /// The number of queued events.
    pub fn len(&self) -> (n: usize)
        ensures
            n == self@.len(),
    {
        queue_len(&self.queue)
    }

    /// Queues `event` behind the others and returns `true`; on a full
    /// channel returns `false` and changes nothing.
    pub fn try_push(&mut self, event: KeyEvent) -> (accepted: bool)
        requires
            old(self).wf(),
        ensures
            final(self).wf(),
            final(self).capacity() == old(self).capacity(),
            accepted <==> old(self)@.len() < old(self).capacity(),
            accepted ==> final(self)@ == old(self)@.push(event),
            !accepted ==> final(self)@ == old(self)@,
    {
        queue_try_push(&mut self.queue, event)
    }

    /// Takes the eldest event off the channel; `None` when the channel is
    /// empty.
    pub fn try_pop(&mut self) -> (event: Option<KeyEvent>)
        requires
            old(self).wf(),
        ensures
            final(self).wf(),
            final(self).capacity() == old(self).capacity(),
            event is Some <==> old(self)@.len() > 0,
            event matches Some(e) ==> e == old(self)@.first() && final(self)@ == old(
                self,
            )@.drop_first(),
            event is None ==> final(self)@ == old(self)@,
    {
        queue_try_pop(&mut self.queue)
    }
}

} // verus!
