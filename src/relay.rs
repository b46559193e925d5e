//! The process-wide broadcast relay.
//!
//! Every published message is kept once, in a window of the last `capacity`
//! messages; each subscriber holds a cursor into the stream of everything ever
//! published. A subscriber that falls more than `capacity` messages behind
//! silently loses the oldest ones: delivery is lossy, never blocking and never
//! reordered.

use vstd::prelude::*;
use std::collections::VecDeque;

verus! {

/// A queue of at most `cap` items after `m` arrives, dropping the oldest on overflow.
pub open spec fn bounded_push<T>(q: Seq<T>, m: T, cap: nat) -> Seq<T> {
    if q.len() < cap {
        q.push(m)
    } else {
        q.drop_first().push(m)
    }
}

pub struct Relay<T> {
    capacity: usize,
    window: VecDeque<T>,
    published: u64,
    cursors: Vec<Option<u64>>,
    history: Ghost<Seq<T>>,
    joined: Ghost<Seq<nat>>,
}

impl<T> Relay<T> {
    /// The per-subscriber backlog bound.
    pub closed spec fn cap(&self) -> nat {
        self.capacity as nat
    }

    /// Everything published so far, in publish order.
    pub closed spec fn published(&self) -> Seq<T> {
        self.history@
    }

    /// Number of subscriber handles ever handed out (open or closed).
    pub closed spec fn slots(&self) -> nat {
        self.cursors@.len()
    }

    /// Whether handle `id` is subscribed.
    pub closed spec fn is_open(&self, id: int) -> bool {
        0 <= id < self.cursors@.len() && self.cursors@[id] is Some
    }

    /// How many messages had been published when handle `id` subscribed.
    pub closed spec fn joined_at(&self, id: int) -> nat {
        self.joined@[id]
    }

    closed spec fn cursor(&self, id: int) -> int {
        self.cursors@[id].unwrap() as int
    }

    closed spec fn window_start(&self) -> int {
        self.published as int - self.window@.len()
    }

    /// Position in `published()` of the next message handle `id` will receive.
    pub closed spec fn next_of(&self, id: int) -> int {
        if self.cursor(id) >= self.window_start() {
            self.cursor(id)
        } else {
            self.window_start()
        }
    }

    /// The messages waiting for handle `id`, oldest first.
    pub closed spec fn pending(&self, id: int) -> Seq<T> {
        self.history@.subrange(self.next_of(id), self.published as int)
    }

    pub closed spec fn wf(&self) -> bool {
        &&& self.capacity > 0
        &&& self.history@.len() == self.published as int
        &&& self.window@.len() == if self.published as int <= self.capacity as int {
            self.published as int
        } else {
            self.capacity as int
        }
        &&& forall|i: int|
            0 <= i < self.window@.len() ==> #[trigger] self.window@[i] == self.history@[self.window_start() + i]
        &&& self.joined@.len() == self.cursors@.len()
        &&& forall|id: int|
            #![trigger self.cursors@[id]]
            0 <= id < self.cursors@.len() && self.cursors@[id] is Some ==> self.joined@[id] <= self.cursor(id)
                <= self.published
    }

    /// A relay with no subscribers whose per-subscriber backlog holds `capacity` messages.
    pub fn new(capacity: usize) -> (r: Self)
        requires
            capacity > 0,
        ensures
            r.wf(),
            r.cap() == capacity,
            r.published() == Seq::<T>::empty(),
            r.slots() == 0,
    {
        Relay {
            capacity,
            window: VecDeque::new(),
            published: 0,
            cursors: Vec::new(),
            history: Ghost(Seq::empty()),
            joined: Ghost(Seq::empty()),
        }
    }

    pub fn capacity(&self) -> (c: usize)
        ensures
            c == self.cap(),
    {
        self.capacity
    }

    /// Number of messages published so far.
    pub fn published_count(&self) -> (n: u64)
        requires
            self.wf(),
        ensures
            n == self.published().len(),
    {
        self.published
    }

    /// Number of handles ever handed out.
    pub fn handles(&self) -> (n: usize)
        ensures
            n == self.slots(),
    {
        self.cursors.len()
    }

    pub fn is_subscribed(&self, id: usize) -> (b: bool)
        ensures
            b == self.is_open(id as int),
    {
        id < self.cursors.len() && self.cursors[id].is_some()
    }

    /// Registers a new receive queue; it sees only what is published from now on.
    pub fn subscribe(&mut self) -> (id: usize)
        requires
            old(self).wf(),
            old(self).slots() < usize::MAX,
        ensures
            final(self).wf(),
            id == old(self).slots(),
            final(self).slots() == old(self).slots() + 1,
            final(self).cap() == old(self).cap(),
            final(self).published() == old(self).published(),
            final(self).is_open(id as int),
            final(self).joined_at(id as int) == old(self).published().len(),
            final(self).pending(id as int) == Seq::<T>::empty(),
            forall|j: int|
                0 <= j < old(self).slots() ==> {
                    &&& final(self).is_open(j) == old(self).is_open(j)
                    &&& final(self).joined_at(j) == old(self).joined_at(j)
                    &&& final(self).pending(j) == old(self).pending(j)
                },
    {
        let id = self.cursors.len();
        self.cursors.push(Some(self.published));
        self.joined = Ghost(self.joined@.push(self.published as nat));
        proof {
            assert forall|j: int| 0 <= j < old(self).slots() implies final_cursor_same(old(self), self, j) by {
                assert(self.cursors@[j] == old(self).cursors@[j]);
            }
        }
        id
    }

    /// Closes handle `id`; its pending messages are discarded.
    pub fn unsubscribe(&mut self, id: usize)
        requires
            old(self).wf(),
            id < old(self).slots(),
        ensures
            final(self).wf(),
            !final(self).is_open(id as int),
            final(self).slots() == old(self).slots(),
            final(self).cap() == old(self).cap(),
            final(self).published() == old(self).published(),
            forall|j: int|
                0 <= j < old(self).slots() && j != id ==> {
                    &&& final(self).is_open(j) == old(self).is_open(j)
                    &&& final(self).joined_at(j) == old(self).joined_at(j)
                    &&& final(self).pending(j) == old(self).pending(j)
                },
    {
        self.cursors.set(id, None);
        proof {
            assert forall|j: int| 0 <= j < old(self).slots() && j != id implies final_cursor_same(old(self), self, j) by {
                assert(self.cursors@[j] == old(self).cursors@[j]);
            }
        }
    }

    /// Enqueues `msg` for every open subscriber, dropping a subscriber's oldest
    /// pending message when its backlog is full. With no subscriber nobody
    /// ever sees `msg`.
    pub fn publish(&mut self, msg: T)
        requires
            old(self).wf(),
            old(self).published().len() < u64::MAX,
        ensures
            final(self).wf(),
            final(self).published() == old(self).published().push(msg),
            final(self).slots() == old(self).slots(),
            final(self).cap() == old(self).cap(),
            forall|j: int|
                0 <= j < old(self).slots() ==> {
                    &&& final(self).is_open(j) == old(self).is_open(j)
                    &&& final(self).joined_at(j) == old(self).joined_at(j)
                },
            forall|j: int|
                old(self).is_open(j) ==> #[trigger] final(self).pending(j) == bounded_push(
                    old(self).pending(j),
                    msg,
                    old(self).cap(),
                ),
    {
        let ghost old_window = self.window@;
        if self.window.len() == self.capacity {
            self.window.pop_front();
        }
        self.window.push_back(msg);
        self.published = self.published + 1;
        self.history = Ghost(self.history@.push(msg));
        proof {
            let ws = self.window_start();
            assert forall|i: int| 0 <= i < self.window@.len() implies #[trigger] self.window@[i]
                == self.history@[ws + i] by {
                if i + 1 < self.window@.len() {
                    if old_window.len() == self.capacity {
                        assert(self.window@[i] == old_window[i + 1]);
                    } else {
                        assert(self.window@[i] == old_window[i]);
                    }
                }
            }
            assert forall|j: int| old(self).is_open(j) implies #[trigger] self.pending(j) == bounded_push(
                old(self).pending(j),
                msg,
                old(self).cap(),
            ) by {
                assert(self.cursors@[j] == old(self).cursors@[j]);
                let q = old(self).pending(j);
                if q.len() < old(self).cap() {
                    assert(self.pending(j) =~= q.push(msg));
                } else {
                    assert(self.pending(j) =~= q.drop_first().push(msg));
                }
            }
        }
    }

    /// Takes the oldest message pending for handle `id`, if any.
    pub fn recv(&mut self, id: usize) -> (r: Option<&T>)
        requires
            old(self).wf(),
            old(self).is_open(id as int),
        ensures
            final(self).wf(),
            final(self).slots() == old(self).slots(),
            final(self).cap() == old(self).cap(),
            final(self).published() == old(self).published(),
            old(self).pending(id as int).len() == 0 ==> r is None && final(self).pending(id as int)
                == old(self).pending(id as int),
            old(self).pending(id as int).len() > 0 ==> r == Some(&old(self).pending(id as int)[0])
                && final(self).pending(id as int) == old(self).pending(id as int).drop_first(),
            forall|j: int|
                0 <= j < old(self).slots() ==> {
                    &&& final(self).is_open(j) == old(self).is_open(j)
                    &&& final(self).joined_at(j) == old(self).joined_at(j)
                },
            forall|j: int|
                0 <= j < old(self).slots() && j != id ==> #[trigger] final(self).pending(j) == old(
                    self,
                ).pending(j),
    {
        let c = match self.cursors[id] {
            Some(c) => c,
            None => 0,
        };
        let start = self.published - self.window.len() as u64;
        let next = if c >= start {
            c
        } else {
            start
        };
        if next < self.published {
            self.cursors.set(id, Some(next + 1));
            proof {
                assert forall|j: int| 0 <= j < old(self).slots() && j != id implies final_cursor_same(old(self), self, j) by {
                    assert(self.cursors@[j] == old(self).cursors@[j]);
                }
                assert(self.pending(id as int) =~= old(self).pending(id as int).drop_first());
            }
            Some(&self.window[(next - start) as usize])
        } else {
            None
        }
    }
}

/// A subscriber never holds more than the relay's capacity of backlog.
pub proof fn lemma_backlog_bounded<T>(relay: &Relay<T>, id: int)
    requires
        relay.wf(),
        relay.is_open(id),
    ensures
        relay.pending(id).len() <= relay.cap(),
{
}

/// What a subscriber has pending is a run of consecutive messages that ends with
/// the latest publish and starts no earlier than its subscription: no message
/// published before it subscribed ever reaches it, and none is reordered.
pub proof fn lemma_no_backfill<T>(relay: &Relay<T>, id: int)
    requires
        relay.wf(),
        relay.is_open(id),
    ensures
        relay.joined_at(id) <= relay.published().len() - relay.pending(id).len(),
        relay.pending(id) == relay.published().subrange(
            relay.published().len() - relay.pending(id).len(),
            relay.published().len() as int,
        ),
{
    assert(relay.cursors@[id] is Some);
}

spec fn final_cursor_same<T>(a: &Relay<T>, b: &Relay<T>, j: int) -> bool {
    b.cursors@[j] == a.cursors@[j]
}

} // verus!
