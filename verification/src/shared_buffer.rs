//! A fixed pool of independently held slots with LFU-style selection.
//!
//! One producer publishes successive artifacts into the pool; consumers
//! take the most recently published slot as "latest".  Slot choice follows
//! the per-slot `lfu` counter: a writer takes the least-recently-written
//! free slot, a reader the most recently published fresh slot.
//!
//! This module holds the slot-selection state machine with its invariants;
//! the blocking shell around it (one mutex and one condition variable) is
//! ordinary concurrency plumbing and lives with the embedding program.

use vstd::prelude::*;

verus! {

/// Book-keeping of one slot.
#[derive(Clone, Copy, Debug, PartialEq, Eq, Structural)]
pub struct BufferInfo {
    /// Raised on every finished write anywhere in the pool and reset on the
    /// slot just written, so a large value means least recently written.
    pub lfu: u64,
    /// The slot is exclusively held by a guard.
    pub occupied: bool,
    /// The slot holds a publication that no reader has taken as latest yet.
    pub is_new: bool,
}

/// Token for an exclusively held slot, returned by `read` and `write` and
/// surrendered to `read_finish` or `write_finish`.  Only this module can
/// build one.
pub struct SharedBufferLock {
    id: usize,
    is_read: bool,
}

impl SharedBufferLock {
    /// Index of the held slot.
    pub closed spec fn spec_id(&self) -> int {
        self.id as int
    }

    /// Whether the token was handed out by `read` rather than `write`.
    pub closed spec fn spec_is_read(&self) -> bool {
        self.is_read
    }

    /// Index of the held slot.
    pub fn id(&self) -> (r: usize)
        ensures
            r as int == self.spec_id(),
    {
        self.id
    }

    /// Whether the token was handed out by `read` rather than `write`.
    pub fn is_read(&self) -> (r: bool)
        ensures
            r == self.spec_is_read(),
    {
        self.is_read
    }
}

/// Number of occupied slots in a slot-info sequence.
pub open spec fn occupied_count(infos: Seq<BufferInfo>) -> int
    decreases infos.len(),
{
    if infos.len() == 0 {
        0
    } else {
        occupied_count(infos.drop_last()) + if infos.last().occupied {
            1int
        } else {
            0int
        }
    }
}

/// The occupied count lies between zero and the number of slots.
pub proof fn lemma_occupied_count_bounds(infos: Seq<BufferInfo>)
    ensures
        0 <= occupied_count(infos) <= infos.len(),
    decreases infos.len(),
{
    if infos.len() > 0 {
        lemma_occupied_count_bounds(infos.drop_last());
    }
}

/// With every slot free the occupied count is zero.
pub proof fn lemma_occupied_count_zero(infos: Seq<BufferInfo>)
    requires
        forall|i: int| 0 <= i < infos.len() ==> !infos[i].occupied,
    ensures
        occupied_count(infos) == 0,
    decreases infos.len(),
{
    if infos.len() > 0 {
        lemma_occupied_count_zero(infos.drop_last());
    }
}

/// A free slot means strictly fewer occupied slots than slots.
pub proof fn lemma_occupied_count_strict(infos: Seq<BufferInfo>, i: int)
    requires
        0 <= i < infos.len(),
        !infos[i].occupied,
    ensures
        occupied_count(infos) < infos.len(),
    decreases infos.len(),
{
    if i == infos.len() - 1 {
        lemma_occupied_count_bounds(infos.drop_last());
    } else {
        lemma_occupied_count_strict(infos.drop_last(), i);
    }
}

/// Updating one slot changes the occupied count by the difference of the
/// old and new occupied flags.
pub proof fn lemma_occupied_count_update(infos: Seq<BufferInfo>, i: int, x: BufferInfo)
    requires
        0 <= i < infos.len(),
    ensures
        occupied_count(infos.update(i, x)) == occupied_count(infos) - (if infos[i].occupied {
            1int
        } else {
            0int
        }) + (if x.occupied {
            1int
        } else {
            0int
        }),
    decreases infos.len(),
{
    let updated = infos.update(i, x);
    if i == infos.len() - 1 {
        assert(updated.drop_last() =~= infos.drop_last());
    } else {
        assert(updated.drop_last() =~= infos.drop_last().update(i, x));
        lemma_occupied_count_update(infos.drop_last(), i, x);
    }
}

/// Fewer occupied slots than slots means some slot is free.
pub proof fn lemma_occupied_count_free_slot(infos: Seq<BufferInfo>)
    requires
        occupied_count(infos) < infos.len(),
    ensures
        exists|i: int| 0 <= i < infos.len() && !infos[i].occupied,
    decreases infos.len(),
{
    if infos.last().occupied {
        lemma_occupied_count_bounds(infos.drop_last());
        lemma_occupied_count_free_slot(infos.drop_last());
        let j = choose|i: int| 0 <= i < infos.drop_last().len() && !infos.drop_last()[i].occupied;
        assert(!infos[j].occupied);
    } else {
        assert(!infos[infos.len() - 1].occupied);
    }
}

/// A slot a reader may take: free and freshly published.
pub open spec fn is_read_candidate(infos: Seq<BufferInfo>, i: int) -> bool {
    0 <= i < infos.len() && !infos[i].occupied && infos[i].is_new
}

/// The slot a reader takes: the read candidate with the smallest `lfu`
/// (the most recently published), ties broken by the lowest index.
pub open spec fn is_read_choice(infos: Seq<BufferInfo>, i: int) -> bool {
    &&& is_read_candidate(infos, i)
    &&& forall|j: int| is_read_candidate(infos, j) ==> infos[i].lfu <= infos[j].lfu
    &&& forall|j: int|
        is_read_candidate(infos, j) && infos[j].lfu == infos[i].lfu ==> i <= j
}

/// A slot a writer may take: any free slot.
pub open spec fn is_write_candidate(infos: Seq<BufferInfo>, i: int) -> bool {
    0 <= i < infos.len() && !infos[i].occupied
}

/// The slot a writer takes: the free slot with the largest `lfu` (the
/// least recently written), ties broken by the lowest index.
pub open spec fn is_write_choice(infos: Seq<BufferInfo>, i: int) -> bool {
    &&& is_write_candidate(infos, i)
    &&& forall|j: int| is_write_candidate(infos, j) ==> infos[j].lfu <= infos[i].lfu
    &&& forall|j: int|
        is_write_candidate(infos, j) && infos[j].lfu == infos[i].lfu ==> i <= j
}

/// The slot book-keeping after a write into slot `i` is published: every
/// counter is raised (saturating), then the written slot's is reset and
/// the slot is marked fresh and free.
pub open spec fn spec_publish(infos: Seq<BufferInfo>, i: int) -> Seq<BufferInfo> {
    Seq::new(
        infos.len(),
        |j: int|
            if j == i {
                BufferInfo { lfu: 0, occupied: false, is_new: true }
            } else {
                BufferInfo {
                    lfu: if infos[j].lfu == u64::MAX {
                        u64::MAX
                    } else {
                        (infos[j].lfu + 1) as u64
                    },
                    occupied: infos[j].occupied,
                    is_new: infos[j].is_new,
                }
            },
    )
}

/// An N-slot pool of independently held values with LFU-style selection.
pub struct SharedBuffer<T> {
    info: Vec<BufferInfo>,
    buffers: Vec<T>,
    live_readers: usize,
    live_writer: bool,
}

impl<T> SharedBuffer<T> {
    /// The slot book-keeping.
    pub closed spec fn infos(&self) -> Seq<BufferInfo> {
        self.info@
    }

    /// The slot payloads.
    pub closed spec fn contents(&self) -> Seq<T> {
        self.buffers@
    }

    /// Number of read guards handed out and not yet surrendered.
    pub closed spec fn readers(&self) -> int {
        self.live_readers as int
    }

    /// Whether a write guard is outstanding.
    pub closed spec fn writer_active(&self) -> bool {
        self.live_writer
    }

    /// Number of slots.
    pub open spec fn num_slots(&self) -> int {
        self.infos().len() as int
    }

    /// Well-formedness: payloads and book-keeping line up, and the occupied
    /// slots are exactly those held by outstanding guards.
    pub open spec fn wf(&self) -> bool {
        &&& self.infos().len() == self.contents().len()
        &&& self.infos().len() >= 2
        &&& occupied_count(self.infos()) == self.readers() + (if self.writer_active() {
            1int
        } else {
            0int
        })
    }

    /// Build a pool over the given initial payloads, all slots free, all
    /// counters zero, nothing published yet.
    pub fn new(buffers: Vec<T>) -> (r: SharedBuffer<T>)
        requires
            buffers@.len() >= 2,
        ensures
            r.wf(),
            r.contents() == buffers@,
            r.num_slots() == buffers@.len(),
            r.readers() == 0,
            !r.writer_active(),
            forall|i: int|
                0 <= i < r.num_slots() ==> r.infos()[i] == (BufferInfo {
                    lfu: 0,
                    occupied: false,
                    is_new: false,
                }),
    {
        let n = buffers.len();
        let mut info: Vec<BufferInfo> = Vec::new();
        let mut i: usize = 0;
        while i < n
            invariant
                i <= n,
                info@.len() == i,
                forall|j: int|
                    0 <= j < i ==> info@[j] == (BufferInfo {
                        lfu: 0,
                        occupied: false,
                        is_new: false,
                    }),
            decreases n - i,
        {
            info.push(BufferInfo { lfu: 0, occupied: false, is_new: false });
            i = i + 1;
        }
        proof {
            lemma_occupied_count_zero(info@);
        }
        SharedBuffer { info, buffers, live_readers: 0, live_writer: false }
    }

    /// Whether a fresh publication is waiting: the predicate a blocked
    /// reader waits on.
    pub fn check_condition(&self) -> (r: bool)
        ensures
            r == exists|i: int| 0 <= i < self.num_slots() && self.infos()[i].is_new,
    {
        let n = self.info.len();
        let mut i: usize = 0;
        while i < n
            invariant
                i <= n,
                n == self.num_slots(),
                forall|j: int| 0 <= j < i ==> !self.infos()[j].is_new,
            decreases n - i,
        {
            if self.info[i].is_new {
                return true;
            }
            i = i + 1;
        }
        false
    }

    /// Number of occupied slots.
    pub fn occupied_slots(&self) -> (r: usize)
        ensures
            r as int == occupied_count(self.infos()),
    {
        let n = self.info.len();
        let mut count: usize = 0;
        let mut i: usize = 0;
        while i < n
            invariant
                i <= n,
                n == self.infos().len(),
                count as int == occupied_count(self.infos().subrange(0, i as int)),
                count <= i,
            decreases n - i,
        {
            proof {
                assert(self.infos().subrange(0, i + 1).drop_last() =~= self.infos().subrange(
                    0,
                    i as int,
                ));
                assert(self.infos().subrange(0, i + 1).last() == self.infos()[i as int]);
            }
            if self.info[i].occupied {
                count = count + 1;
            }
            i = i + 1;
        }
        proof {
            assert(self.infos().subrange(0, n as int) =~= self.infos());
        }
        count
    }

    /// Number of read guards handed out and not yet surrendered.
    pub fn live_reader_count(&self) -> (r: usize)
        ensures
            r as int == self.readers(),
    {
        self.live_readers
    }

    /// Whether a write guard is outstanding.
    pub fn is_writing(&self) -> (r: bool)
        ensures
            r == self.writer_active(),
    {
        self.live_writer
    }

    /// Book-keeping of one slot.
    pub fn slot_info(&self, i: usize) -> (r: BufferInfo)
        requires
            i < self.num_slots(),
        ensures
            r == self.infos()[i as int],
    {
        self.info[i]
    }

    /// Number of slots.
    pub fn len(&self) -> (r: usize)
        requires
            self.wf(),
        ensures
            r as int == self.num_slots(),
    {
        self.info.len()
    }

    /// Pick and occupy the slot a reader takes, or report that nothing
    /// fresh is available.
    pub fn get_read_index(&mut self) -> (r: Option<usize>)
        requires
            old(self).wf(),
        ensures
            final(self).wf(),
            final(self).contents() == old(self).contents(),
            match r {
                None => {
                    &&& *final(self) == *old(self)
                    &&& forall|i: int| !is_read_candidate(old(self).infos(), i)
                },
                Some(i) => {
                    &&& is_read_choice(old(self).infos(), i as int)
                    &&& final(self).infos() == old(self).infos().update(
                        i as int,
                        BufferInfo {
                            lfu: old(self).infos()[i as int].lfu,
                            occupied: true,
                            is_new: false,
                        },
                    )
                    &&& final(self).readers() == old(self).readers() + 1
                    &&& final(self).writer_active() == old(self).writer_active()
                },
            },
    {
        let n = self.info.len();
        let mut best: usize = 0;
        let mut found = false;
        let mut i: usize = 0;
        while i < n
            invariant
                *self == *old(self),
                i <= n,
                n == self.infos().len(),
                found ==> is_read_candidate(self.infos(), best as int) && best < i,
                found ==> forall|j: int|
                    0 <= j < i && is_read_candidate(self.infos(), j) ==> self.infos()[best as int].lfu
                        <= self.infos()[j].lfu,
                found ==> forall|j: int|
                    0 <= j < i && is_read_candidate(self.infos(), j) && self.infos()[j].lfu
                        == self.infos()[best as int].lfu ==> best as int <= j,
                !found ==> forall|j: int| 0 <= j < i ==> !is_read_candidate(self.infos(), j),
            decreases n - i,
        {
            let candidate = !self.info[i].occupied && self.info[i].is_new;
            if candidate && (!found || self.info[i].lfu < self.info[best].lfu) {
                best = i;
                found = true;
            }
            i = i + 1;
        }
        if !found {
            return None;
        }
        proof {
            lemma_occupied_count_strict(self.infos(), best as int);
            lemma_occupied_count_update(
                self.infos(),
                best as int,
                BufferInfo { lfu: self.infos()[best as int].lfu, occupied: true, is_new: false },
            );
        }
        let mut entry = self.info[best];
        entry.occupied = true;
        entry.is_new = false;
        self.info.set(best, entry);
        self.live_readers = self.live_readers + 1;
        Some(best)
    }

    /// Pick and occupy the slot a writer takes.  The single producer and
    /// the bound on concurrent readers guarantee a free slot.
    pub fn get_write_index(&mut self) -> (r: usize)
        requires
            old(self).wf(),
            !old(self).writer_active(),
            old(self).readers() < old(self).num_slots(),
        ensures
            final(self).wf(),
            final(self).contents() == old(self).contents(),
            is_write_choice(old(self).infos(), r as int),
            final(self).infos() == old(self).infos().update(
                r as int,
                BufferInfo {
                    lfu: old(self).infos()[r as int].lfu,
                    occupied: true,
                    is_new: old(self).infos()[r as int].is_new,
                },
            ),
            final(self).readers() == old(self).readers(),
            final(self).writer_active(),
    {
        proof {
            lemma_occupied_count_free_slot(self.infos());
        }
        let n = self.info.len();
        let mut best: usize = 0;
        let mut found = false;
        let mut i: usize = 0;
        while i < n
            invariant
                *self == *old(self),
                i <= n,
                n == self.infos().len(),
                found ==> is_write_candidate(self.infos(), best as int) && best < i,
                found ==> forall|j: int|
                    0 <= j < i && is_write_candidate(self.infos(), j) ==> self.infos()[j].lfu
                        <= self.infos()[best as int].lfu,
                found ==> forall|j: int|
                    0 <= j < i && is_write_candidate(self.infos(), j) && self.infos()[j].lfu
                        == self.infos()[best as int].lfu ==> best as int <= j,
                !found ==> forall|j: int| 0 <= j < i ==> !is_write_candidate(self.infos(), j),
            decreases n - i,
        {
            let candidate = !self.info[i].occupied;
            if candidate && (!found || self.info[i].lfu > self.info[best].lfu) {
                best = i;
                found = true;
            }
            i = i + 1;
        }
        proof {
            if !found {
                lemma_occupied_count_free_slot(self.infos());
                let w = choose|k: int|
                    0 <= k < self.infos().len() && !self.infos()[k].occupied;
                assert(is_write_candidate(self.infos(), w));
                assert(false);
            }
            lemma_occupied_count_update(
                self.infos(),
                best as int,
                BufferInfo {
                    lfu: self.infos()[best as int].lfu,
                    occupied: true,
                    is_new: self.infos()[best as int].is_new,
                },
            );
        }
        let mut entry = self.info[best];
        entry.occupied = true;
        self.info.set(best, entry);
        self.live_writer = true;
        best
    }

    /// Take the latest publication for reading, or report that none is
    /// available (which, under the blocking shell, signals shutdown).
    pub fn read(&mut self) -> (r: Option<SharedBufferLock>)
        requires
            old(self).wf(),
        ensures
            final(self).wf(),
            final(self).contents() == old(self).contents(),
            match r {
                None => {
                    &&& *final(self) == *old(self)
                    &&& forall|i: int| !is_read_candidate(old(self).infos(), i)
                },
                Some(lock) => {
                    &&& lock.spec_is_read()
                    &&& is_read_choice(old(self).infos(), lock.spec_id())
                    &&& final(self).infos() == old(self).infos().update(
                        lock.spec_id(),
                        BufferInfo {
                            lfu: old(self).infos()[lock.spec_id()].lfu,
                            occupied: true,
                            is_new: false,
                        },
                    )
                    &&& final(self).readers() == old(self).readers() + 1
                    &&& final(self).writer_active() == old(self).writer_active()
                },
            },
    {
        match self.get_read_index() {
            None => None,
            Some(i) => Some(SharedBufferLock { id: i, is_read: true }),
        }
    }

    /// Take a slot for writing.
    pub fn write(&mut self) -> (lock: SharedBufferLock)
        requires
            old(self).wf(),
            !old(self).writer_active(),
            old(self).readers() < old(self).num_slots(),
        ensures
            final(self).wf(),
            final(self).contents() == old(self).contents(),
            !lock.spec_is_read(),
            is_write_choice(old(self).infos(), lock.spec_id()),
            final(self).infos() == old(self).infos().update(
                lock.spec_id(),
                BufferInfo {
                    lfu: old(self).infos()[lock.spec_id()].lfu,
                    occupied: true,
                    is_new: old(self).infos()[lock.spec_id()].is_new,
                },
            ),
            final(self).readers() == old(self).readers(),
            final(self).writer_active(),
    {
        let i = self.get_write_index();
        SharedBufferLock { id: i, is_read: false }
    }

    /// The payload of a held slot.
    pub fn get_buffer(&self, lock: &SharedBufferLock) -> (r: &T)
        requires
            self.wf(),
            0 <= lock.spec_id() < self.num_slots(),
        ensures
            *r == self.contents()[lock.spec_id()],
    {
        &self.buffers[lock.id]
    }

    /// Replace the payload of a slot held for writing.
    pub fn set_buffer(&mut self, lock: &SharedBufferLock, value: T)
        requires
            old(self).wf(),
            !lock.spec_is_read(),
            0 <= lock.spec_id() < old(self).num_slots(),
        ensures
            final(self).wf(),
            final(self).contents() == old(self).contents().update(lock.spec_id(), value),
            final(self).infos() == old(self).infos(),
            final(self).readers() == old(self).readers(),
            final(self).writer_active() == old(self).writer_active(),
    {
        self.buffers.set(lock.id, value);
    }

    /// Surrender a read guard: the slot becomes free again.
    pub fn read_finish(&mut self, lock: SharedBufferLock)
        requires
            old(self).wf(),
            lock.spec_is_read(),
            0 <= lock.spec_id() < old(self).num_slots(),
            old(self).infos()[lock.spec_id()].occupied,
            old(self).readers() >= 1,
        ensures
            final(self).wf(),
            final(self).contents() == old(self).contents(),
            final(self).infos() == old(self).infos().update(
                lock.spec_id(),
                BufferInfo {
                    lfu: old(self).infos()[lock.spec_id()].lfu,
                    occupied: false,
                    is_new: old(self).infos()[lock.spec_id()].is_new,
                },
            ),
            final(self).readers() == old(self).readers() - 1,
            final(self).writer_active() == old(self).writer_active(),
    {
        proof {
            lemma_occupied_count_update(
                self.infos(),
                lock.spec_id(),
                BufferInfo {
                    lfu: self.infos()[lock.spec_id()].lfu,
                    occupied: false,
                    is_new: self.infos()[lock.spec_id()].is_new,
                },
            );
        }
        let mut entry = self.info[lock.id];
        entry.occupied = false;
        self.info.set(lock.id, entry);
        self.live_readers = self.live_readers - 1;
    }

    /// Surrender a write guard, publishing the slot: every `lfu` counter
    /// is raised (saturating), then the written slot's is reset and the
    /// slot is marked fresh and free.
    pub fn write_finish(&mut self, lock: SharedBufferLock)
        requires
            old(self).wf(),
            !lock.spec_is_read(),
            0 <= lock.spec_id() < old(self).num_slots(),
            old(self).infos()[lock.spec_id()].occupied,
            old(self).writer_active(),
        ensures
            final(self).wf(),
            final(self).contents() == old(self).contents(),
            final(self).infos().len() == old(self).infos().len(),
            final(self).infos()[lock.spec_id()] == (BufferInfo {
                lfu: 0,
                occupied: false,
                is_new: true,
            }),
            forall|j: int|
                0 <= j < old(self).num_slots() && j != lock.spec_id() ==> final(self).infos()[j]
                    == (BufferInfo {
                    lfu: if old(self).infos()[j].lfu == u64::MAX {
                        u64::MAX
                    } else {
                        (old(self).infos()[j].lfu + 1) as u64
                    },
                    occupied: old(self).infos()[j].occupied,
                    is_new: old(self).infos()[j].is_new,
                }),
            forall|j: int|
                0 <= j < old(self).num_slots() && j != lock.spec_id()
                    ==> final(self).infos()[j].lfu >= 1,
            final(self).infos() == spec_publish(old(self).infos(), lock.spec_id()),
            final(self).readers() == old(self).readers(),
            !final(self).writer_active(),
    {
        let n = self.info.len();
        let ghost original = self.infos();
        let mut i: usize = 0;
        while i < n
            invariant
                i <= n,
                n == self.infos().len(),
                self.infos().len() == original.len(),
                original == old(self).infos(),
                original.len() == old(self).infos().len(),
                self.contents() == old(self).contents(),
                self.readers() == old(self).readers(),
                self.writer_active() == old(self).writer_active(),
                forall|j: int|
                    i <= j < original.len() ==> self.infos()[j] == original[j],
                forall|j: int|
                    0 <= j < i ==> self.infos()[j] == (BufferInfo {
                        lfu: if original[j].lfu == u64::MAX {
                            u64::MAX
                        } else {
                            (original[j].lfu + 1) as u64
                        },
                        occupied: original[j].occupied,
                        is_new: original[j].is_new,
                    }),
            decreases n - i,
        {
            let mut entry = self.info[i];
            if entry.lfu < u64::MAX {
                entry.lfu = entry.lfu + 1;
            }
            self.info.set(i, entry);
            i = i + 1;
        }
        let mut entry = self.info[lock.id];
        entry.lfu = 0;
        entry.occupied = false;
        entry.is_new = true;
        proof {
            lemma_occupied_count_same_occupancy(original, self.infos());
            lemma_occupied_count_update(
                self.infos(),
                lock.spec_id(),
                BufferInfo { lfu: 0, occupied: false, is_new: true },
            );
        }
        self.info.set(lock.id, entry);
        self.live_writer = false;
        proof {
            assert(self.infos() =~= spec_publish(original, lock.spec_id()));
        }
    }
}

/// Two slot-info sequences with the same occupied flags have the same
/// occupied count.
pub proof fn lemma_occupied_count_same_occupancy(a: Seq<BufferInfo>, b: Seq<BufferInfo>)
    requires
        a.len() == b.len(),
        forall|i: int| 0 <= i < a.len() ==> a[i].occupied == b[i].occupied,
    ensures
        occupied_count(a) == occupied_count(b),
    decreases a.len(),
{
    if a.len() > 0 {
        lemma_occupied_count_same_occupancy(a.drop_last(), b.drop_last());
    }
}

/// At most one more slot is occupied than there are live read guards: the
/// single writer accounts for the one.
pub proof fn lemma_occupancy_bound<T>(buf: &SharedBuffer<T>)
    requires
        buf.wf(),
    ensures
        occupied_count(buf.infos()) <= 1 + buf.readers(),
{
}

/// Freshness: the most recent completed write is what a reader takes
/// next.  Publishing slot `i` makes it the one and only read choice, so a
/// subsequent read returns the payload of the last completed write.
pub proof fn lemma_freshness(infos: Seq<BufferInfo>, i: int)
    requires
        0 <= i < infos.len(),
    ensures
        is_read_choice(spec_publish(infos, i), i),
        forall|k: int| is_read_choice(spec_publish(infos, i), k) ==> k == i,
{
    let published = spec_publish(infos, i);
    assert(is_read_candidate(published, i));
    assert forall|k: int| is_read_choice(published, k) implies k == i by {
        assert(published[k].lfu <= published[i].lfu);
    }
}

} // verus!
