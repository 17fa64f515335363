//! What the controller tells the outside world, and the queue that carries it.

use vstd::prelude::*;

verus! {

/// Something that happened to the character during a tick.
#[derive(Clone, Copy, Debug, PartialEq, Eq, Structural)]
pub enum CharacterControllerEvent {
    /// The character just jumped.
    Jump,
    /// The character just landed on a surface.
    Landed,
    Moving,
    Stopped,
    Crouched,
    StoodUpright,
    /// The character just took a footstep.
    Stepped,
    StartedWallRunning,
    StoppedWallRunning,
    /// The character started sliding on the ground.
    StartedSliding,
    StoppedSliding,
}

/// The events waiting in a queue bounded by `capacity` (zero for no bound)
/// after `message` was sent to it: `message` comes last if there was room and
/// is dropped if there was none.
pub open spec fn enqueue(
    waiting: Seq<CharacterControllerEvent>,
    capacity: nat,
    message: CharacterControllerEvent,
) -> Seq<CharacterControllerEvent> {
    if (capacity == 0 || waiting.len() < capacity) && waiting.len() < usize::MAX {
        waiting.push(message)
    } else {
        waiting
    }
}

/// A first-in first-out queue of events with an optional bound. A bound of
/// zero means the queue may grow without limit. Sending to a full queue drops
/// the event that was being sent.
pub struct EventChannel {
    pending: Vec<CharacterControllerEvent>,
    capacity: usize,
}

impl EventChannel {
    /// The events waiting to be read, oldest first.
    pub closed spec fn view(&self) -> Seq<CharacterControllerEvent> {
        self.pending@
    }

    /// The bound the queue was made with; zero for none.
    pub closed spec fn spec_capacity(&self) -> nat {
        self.capacity as nat
    }

    /// The queue never holds more than its bound.
    pub closed spec fn wf(&self) -> bool {
        self.capacity > 0 ==> self.pending@.len() <= self.capacity
    }

    /// Whether one more event fits.
    pub open spec fn has_room(&self) -> bool {
        self.spec_capacity() == 0 || self@.len() < self.spec_capacity()
    }

    /// An empty queue bounded by `cap` events, or unbounded if `cap` is zero.
    pub fn with_capacity(cap: usize) -> (channel: Self)
        ensures
            channel.wf(),
            channel@ == Seq::<CharacterControllerEvent>::empty(),
            channel.spec_capacity() == cap,
    {
        EventChannel { pending: Vec::new(), capacity: cap }
    }

    /// Appends `message` if it fits and drops it otherwise. Returns whether
    /// the event was taken.
    pub fn send(&mut self, message: CharacterControllerEvent) -> (accepted: bool)
        requires
            old(self).wf(),
        ensures
            final(self).wf(),
            final(self).spec_capacity() == old(self).spec_capacity(),
            accepted == (old(self).has_room() && old(self)@.len() < usize::MAX),
            final(self)@ == enqueue(old(self)@, old(self).spec_capacity(), message),
    {
        if self.pending.len() == usize::MAX {
            return false;
        }
        if self.capacity == 0 || self.pending.len() < self.capacity {
            self.pending.push(message);
            true
        } else {
            false
        }
    }

    /// Takes the oldest waiting event, if there is one.
    pub fn get_message(&mut self) -> (message: Option<CharacterControllerEvent>)
        requires
            old(self).wf(),
        ensures
            final(self).wf(),
            final(self).spec_capacity() == old(self).spec_capacity(),
            old(self)@.len() == 0 ==> message is None && final(self)@ == old(self)@,
            old(self)@.len() > 0 ==> message == Some(old(self)@[0]) && final(self)@
                == old(self)@.subrange(1, old(self)@.len() as int),
    {
        if self.pending.len() == 0 {
            None
        } else {
            let first = self.pending.remove(0);
            Some(first)
        }
    }

    /// How many events are waiting.
    pub fn len(&self) -> (n: usize)
        ensures
            n == self@.len(),
    {
        self.pending.len()
    }

    /// The bound the queue was made with; zero for none.
    pub fn capacity(&self) -> (cap: usize)
        ensures
            cap == self.spec_capacity(),
    {
        self.capacity
    }

    /// A queue with a bound holds no more events than its bound.
    pub proof fn lemma_within_bound(&self)
        requires
            self.wf(),
        ensures
            self.spec_capacity() > 0 ==> self@.len() <= self.spec_capacity(),
    {
    }
}

/// Sending never disturbs what already waits: the events that waited still
/// wait, in their order, so that what was sent first is read first. A queue
/// with room takes the new event last; a full one stays as it is, and so
/// never grows beyond its bound.
pub proof fn lemma_queue_is_fifo(
    waiting: Seq<CharacterControllerEvent>,
    capacity: nat,
    message: CharacterControllerEvent,
)
    ensures
        ({
            let after = enqueue(waiting, capacity, message);
            &&& waiting.len() <= after.len() <= waiting.len() + 1
            &&& after.subrange(0, waiting.len() as int) == waiting
            &&& waiting.len() > 0 ==> after[0] == waiting[0]
            &&& after.len() > waiting.len() ==> after.last() == message
            &&& capacity > 0 && waiting.len() >= capacity ==> after == waiting
            &&& capacity > 0 && waiting.len() <= capacity ==> after.len() <= capacity
        }),
{
    let after = enqueue(waiting, capacity, message);
    assert(after.subrange(0, waiting.len() as int) =~= waiting);
}

} // verus!
