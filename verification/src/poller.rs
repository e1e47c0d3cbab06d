//! The input poller's decisions: which events a new snapshot of the
//! pressed keys gives rise to, and when to stop.

use vstd::prelude::*;
use crate::channel::EventChannel;
use crate::keys::{Key, KeyEvent};

verus! {

/// One event, pressed or released as `pressed` says, for each key of `now`
/// that `before` does not hold, in the order of `now`.
pub open spec fn changes(now: Seq<Key>, before: Seq<Key>, pressed: bool) -> Seq<KeyEvent>
    decreases now.len(),
{
    if now.len() == 0 {
        Seq::empty()
    } else if before.contains(now.last()) {
        changes(now.drop_last(), before, pressed)
    } else {
        changes(now.drop_last(), before, pressed).push(KeyEvent { key: now.last(), pressed })
    }
}

/// The events of one tick: a press for each key that is down now and was
/// not before, then a release for each key that was down before and is not
/// now.
pub open spec fn tick_events(previous: Seq<Key>, current: Seq<Key>) -> Seq<KeyEvent> {
    changes(current, previous, true) + changes(previous, current, false)
}

/// The number of events out of `count` that a channel takes which holds
/// `held` events and has room for `capacity`.
pub open spec fn accepted(count: nat, held: nat, capacity: nat) -> nat {
    if held + count <= capacity {
        count
    } else {
        (capacity - held) as nat
    }
}

/// Whether `keys` holds `key`.
pub fn holds(keys: &Vec<Key>, key: Key) -> (found: bool)
    ensures
        found == keys@.contains(key),
{
    let mut i: usize = 0;
    while i < keys.len()
        invariant
            i <= keys@.len(),
            forall|j: int| 0 <= j < i ==> keys@[j] != key,
        decreases keys@.len() - i,
    {
        if keys[i] == key {
            return true;
        }
        i += 1;
    }
    false
}

/// Appends to `events` one event for each key of `now` that `before` does
/// not hold.
fn push_changes(events: &mut Vec<KeyEvent>, now: &Vec<Key>, before: &Vec<Key>, pressed: bool)
    ensures
        final(events)@ == old(events)@ + changes(now@, before@, pressed),
{
    let ghost start = events@;
    let mut i: usize = 0;
    assert(now@.take(0) =~= Seq::<Key>::empty());
    assert(start + Seq::<KeyEvent>::empty() =~= start);
    while i < now.len()
        invariant
            i <= now@.len(),
            events@ == start + changes(now@.take(i as int), before@, pressed),
        decreases now@.len() - i,
    {
        let key = now[i];
        proof {
            let upto = now@.take(i + 1);
            assert(upto.drop_last() =~= now@.take(i as int));
            assert(upto.last() == key);
        }
        if !holds(before, key) {
            events.push(KeyEvent { key, pressed });
            assert(events@ =~= start + changes(now@.take(i + 1), before@, pressed));
        }
        i += 1;
    }
    assert(now@.take(i as int) =~= now@);
}

/// The events that the step from the snapshot `previous` to the snapshot
/// `current` gives rise to: presses first, then releases.
pub fn diff_snapshots(previous: &Vec<Key>, current: &Vec<Key>) -> (events: Vec<KeyEvent>)
    ensures
        events@ == tick_events(previous@, current@),
{
    let mut events: Vec<KeyEvent> = Vec::new();
    push_changes(&mut events, current, previous, true);
    push_changes(&mut events, previous, current, false);
    assert(events@ =~= tick_events(previous@, current@));
    events
}

/// The poller's state: the last snapshot of the pressed keys, and the
/// number of events that a full channel made it drop.
pub struct InputPoller {
    pub previous: Vec<Key>,
    pub dropped: u64,
}

impl InputPoller {
    /// A poller that has seen no key and dropped no event.
    pub fn new() -> (poller: InputPoller)
        ensures
            poller.previous@ == Seq::<Key>::empty(),
            poller.dropped == 0,
    {
        InputPoller { previous: Vec::new(), dropped: 0 }
    }

    /// One tick: pushes the events of the step to the snapshot `current`
    /// onto the channel and keeps `current` as the last snapshot. An event
    /// that the full channel refuses is dropped and counted, up to the
    /// counter's limit. Returns whether the exit key is down, after which
    /// the caller stops polling.
    pub fn tick(&mut self, current: Vec<Key>, channel: &mut EventChannel) -> (exit: bool)
        requires
            old(channel).wf(),
        ensures
            exit == current@.contains(Key::Escape),
            final(self).previous@ == current@,
            final(channel).wf(),
            final(channel).capacity() == old(channel).capacity(),
            ({
                let events = tick_events(old(self).previous@, current@);
                let taken = accepted(events.len(), old(channel)@.len(), old(channel).capacity());
                &&& final(channel)@ == old(channel)@ + events.take(taken as int)
                &&& final(self).dropped == if old(self).dropped + (events.len() - taken)
                    <= u64::MAX {
                    (old(self).dropped + (events.len() - taken)) as u64
                } else {
                    u64::MAX
                }
            }),
    {
        let events = diff_snapshots(&self.previous, &current);
        let ghost held = channel@;
        let ghost capacity = channel.capacity();
        let ghost before = self.dropped;
        let mut i: usize = 0;
        assert(held + events@.take(0) =~= held);
        while i < events.len()
            invariant
                i <= events@.len(),
                channel.wf(),
                channel.capacity() == capacity,
                held.len() <= capacity,
                channel@ == held + events@.take(accepted(i as nat, held.len(), capacity) as int),
                self.dropped == if before + (i - accepted(i as nat, held.len(), capacity))
                    <= u64::MAX {
                    (before + (i - accepted(i as nat, held.len(), capacity))) as u64
                } else {
                    u64::MAX
                },
            decreases events@.len() - i,
        {
            let ghost taken = accepted(i as nat, held.len(), capacity);
            if channel.try_push(events[i]) {
                assert(taken == i);
                assert(channel@ =~= held + events@.take(i + 1));
            } else {
                if self.dropped < u64::MAX {
                    self.dropped += 1;
                }
            }
            i += 1;
        }
        let exit = holds(&current, Key::Escape);
        self.previous = current;
        exit
    }
}

} // verus!
