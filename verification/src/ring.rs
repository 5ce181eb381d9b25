//! A bounded first-in first-out buffer with its own sequence counter.

use std::collections::VecDeque;
use vstd::prelude::*;

verus! {

/// Mathematical model of a [`RingBuffer`]: what it holds, oldest first, the
/// most it may hold, and the identifier it hands out next.
pub struct RingView<T> {
    pub entries: Seq<T>,
    pub capacity: nat,
    pub next_id: u64,
}

impl<T> RingView<T> {
    /// A ring never holds more than its capacity, and can hold something.
    pub open spec fn wf(self) -> bool {
        1 <= self.capacity && self.entries.len() <= self.capacity
    }

    /// The ring after `entry` was inserted: a full ring first loses its
    /// oldest entry.
    pub open spec fn insert(self, entry: T) -> RingView<T> {
        RingView {
            entries: if self.entries.len() >= self.capacity && self.entries.len() > 0 {
                self.entries.drop_first().push(entry)
            } else {
                self.entries.push(entry)
            },
            ..self
        }
    }

    /// The ring after one identifier was handed out. The counter wraps.
    pub open spec fn reserve(self) -> RingView<T> {
        RingView {
            next_id: if self.next_id == u64::MAX {
                0
            } else {
                (self.next_id + 1) as u64
            },
            ..self
        }
    }

    /// The ring after every entry of `batch` was inserted, first to last.
    pub open spec fn insert_all(self, batch: Seq<T>) -> RingView<T>
        decreases batch.len(),
    {
        if batch.len() == 0 {
            self
        } else {
            self.insert_all(batch.drop_last()).insert(batch.last())
        }
    }

    /// The ring after `n` identifiers were handed out.
    pub open spec fn reserve_many(self, n: nat) -> RingView<T>
        decreases n,
    {
        if n == 0 {
            self
        } else {
            self.reserve_many((n - 1) as nat).reserve()
        }
    }
}

/// Inserting entries keeps a ring within its capacity, and leaves capacity
/// and counter alone.
pub proof fn lemma_insert_all_wf<T>(ring: RingView<T>, batch: Seq<T>)
    requires
        ring.wf(),
    ensures
        ring.insert_all(batch).wf(),
        ring.insert_all(batch).capacity == ring.capacity,
        ring.insert_all(batch).next_id == ring.next_id,
    decreases batch.len(),
{
    if batch.len() > 0 {
        lemma_insert_all_wf(ring, batch.drop_last());
    }
}

/// A ring holds the latest of everything that it held and received, as many
/// as fit, in the order of arrival.
pub proof fn lemma_ring_holds_tail<T>(ring: RingView<T>, batch: Seq<T>)
    requires
        ring.wf(),
    ensures
        ({
            let all = ring.entries + batch;
            let out = ring.insert_all(batch).entries;
            &&& out.len() == if all.len() <= ring.capacity { all.len() } else { ring.capacity }
            &&& out == all.skip(all.len() - out.len())
        }),
    decreases batch.len(),
{
    let all = ring.entries + batch;
    let out = ring.insert_all(batch).entries;
    if batch.len() > 0 {
        let before = batch.drop_last();
        lemma_ring_holds_tail(ring, before);
        lemma_insert_all_wf(ring, before);
        let prev = ring.entries + before;
        let held = ring.insert_all(before);
        assert(all =~= prev.push(batch.last()));
        assert(out == held.insert(batch.last()).entries);
        if held.entries.len() >= ring.capacity {
            assert(out =~= all.skip(all.len() - ring.capacity));
        } else {
            assert(held.entries =~= prev);
            assert(out =~= all.skip(0));
        }
    } else {
        assert(all =~= ring.entries);
        assert(out =~= all.skip(0));
    }
}

/// While fewer entries arrive than fit, a ring keeps all of them behind what
/// it held.
pub proof fn lemma_ring_grows<T>(ring: RingView<T>, batch: Seq<T>)
    requires
        ring.wf(),
        ring.entries.len() + batch.len() <= ring.capacity,
    ensures
        ring.insert_all(batch).entries == ring.entries + batch,
{
    lemma_ring_holds_tail(ring, batch);
    assert((ring.entries + batch).skip(0) =~= ring.entries + batch);
}

/// Once at least as many entries arrived as the ring can hold, it holds
/// exactly the latest `capacity` of them, in the order of their arrival.
pub proof fn lemma_ring_keeps_latest<T>(ring: RingView<T>, batch: Seq<T>)
    requires
        ring.wf(),
        batch.len() >= ring.capacity,
    ensures
        ring.insert_all(batch).entries == batch.skip(batch.len() - ring.capacity),
{
    lemma_ring_holds_tail(ring, batch);
    let all = ring.entries + batch;
    assert(all.skip(all.len() - ring.capacity) =~= batch.skip(batch.len() - ring.capacity));
}

/// Identifiers are handed out in steps of one.
pub proof fn lemma_reserve_many<T>(ring: RingView<T>, n: nat)
    requires
        ring.next_id + n <= u64::MAX,
    ensures
        ring.reserve_many(n).next_id == ring.next_id + n,
        ring.reserve_many(n).entries == ring.entries,
        ring.reserve_many(n).capacity == ring.capacity,
    decreases n,
{
    if n > 0 {
        lemma_reserve_many(ring, (n - 1) as nat);
    }
}

/// Short of a wrap of the counter, a later identifier is larger than an
/// earlier one, so no identifier is handed out twice.
pub proof fn lemma_ids_strictly_increase<T>(ring: RingView<T>, earlier: nat, later: nat)
    requires
        earlier < later,
        ring.next_id + later <= u64::MAX,
    ensures
        ring.reserve_many(earlier).next_id < ring.reserve_many(later).next_id,
{
    lemma_reserve_many(ring, earlier);
    lemma_reserve_many(ring, later);
}

/// Bounded buffer that evicts its oldest entry when full, and numbers what
/// passes through it.
pub struct RingBuffer<T> {
    entries: VecDeque<T>,
    capacity: usize,
    next_id: u64,
}

impl<T> View for RingBuffer<T> {
    type V = RingView<T>;

    closed spec fn view(&self) -> RingView<T> {
        RingView {
            entries: self.entries@,
            capacity: self.capacity as nat,
            next_id: self.next_id,
        }
    }
}

impl<T> RingBuffer<T> {
    /// An empty ring for at most `capacity` entries, numbering from zero.
    /// A ring made for no entries at all still keeps the newest one.
    pub fn new(capacity: usize) -> (ring: Self)
        ensures
            ring@ == (RingView::<T> { entries: Seq::empty(), capacity: capacity as nat, next_id: 0 }),
    {
        RingBuffer { entries: VecDeque::new(), capacity, next_id: 0 }
    }

    /// Hands out the next identifier and advances the counter, wrapping at
    /// the top of the range.
    pub fn reserve_id(&mut self) -> (id: u64)
        ensures
            id == old(self)@.next_id,
            final(self)@ == old(self)@.reserve(),
            old(self)@.wf() ==> final(self)@.wf(),
    {
        let id = self.next_id;
        self.next_id = if id == u64::MAX {
            0
        } else {
            id + 1
        };
        id
    }

    /// Stores `entry` as the newest; a full ring first evicts its oldest.
    pub fn insert(&mut self, entry: T)
        ensures
            final(self)@ == old(self)@.insert(entry),
            old(self)@.wf() ==> final(self)@.wf(),
    {
        if self.entries.len() >= self.capacity {
            let _ = self.entries.pop_front();
        }
        self.entries.push_back(entry);
        assert(self@.entries =~= old(self)@.insert(entry).entries);
    }

    /// Number of entries held.
    pub fn len(&self) -> (n: usize)
        ensures
            n == self@.entries.len(),
    {
        self.entries.len()
    }

    /// The most entries this ring holds.
    pub fn capacity(&self) -> (c: usize)
        ensures
            c == self@.capacity,
    {
        self.capacity
    }

    /// The `i`-th oldest entry.
    pub fn get(&self, i: usize) -> (entry: &T)
        requires
            i < self@.entries.len(),
        ensures
            *entry == self@.entries[i as int],
    {
        &self.entries[i]
    }
}

} // verus!
