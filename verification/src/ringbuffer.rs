//! A fixed-capacity circular buffer with overwrite-oldest semantics.
//!
//! The buffer bridges interrupt producers and the kernel consumer: `push`
//! never fails and never blocks; once the buffer is full it overwrites the
//! logically oldest unread entry, so under sustained overflow the buffer
//! degrades to "the most recent N items".  The platform shim is responsible
//! for sharing one buffer between contexts behind a short-critical-section
//! lock; the logic here is the whole of what that lock protects.

use vstd::prelude::*;

verus! {

/// What one `push` does to the buffered contents: append when there is
/// room, otherwise drop the oldest entry and append.
pub open spec fn push_model<Item>(s: Seq<Item>, capacity: nat, item: Item) -> Seq<Item> {
    if s.len() < capacity {
        s.push(item)
    } else {
        s.drop_first().push(item)
    }
}

/// The contents after pushing each of `items` in order onto `s`.
pub open spec fn push_all_model<Item>(s: Seq<Item>, capacity: nat, items: Seq<Item>) -> Seq<Item>
    decreases items.len(),
{
    if items.len() == 0 {
        s
    } else {
        push_model(push_all_model(s, capacity, items.drop_last()), capacity, items.last())
    }
}

/// The thread-unsafe innards of the ring buffer: a lazily grown backing
/// array, the index of the oldest unread item, and the number of unread
/// items.
pub struct RingBufferData<Item> {
    array: Vec<Item>,
    start: usize,
    count: usize,
    capacity: usize,
}

impl<Item> View for RingBufferData<Item> {
    type V = Seq<Item>;

    /// The unread items, oldest first.
    closed spec fn view(&self) -> Seq<Item> {
        Seq::new(
            self.count as nat,
            |i: int| self.array@[(self.start + i) % (self.capacity as int)],
        )
    }
}

impl<Item: Copy> RingBufferData<Item> {
    /// The fixed capacity the buffer was created with.
    pub closed spec fn cap(&self) -> nat {
        self.capacity as nat
    }

    /// The backing array grows from the front until it reaches the capacity,
    /// and the occupied range never runs past its end.
    pub closed spec fn well_formed(&self) -> bool {
        &&& 0 < self.capacity
        &&& self.count <= self.capacity
        &&& self.start < self.capacity
        &&& self.array.len() <= self.capacity
        &&& self.capacity <= usize::MAX / 2
        &&& (self.array.len() == self.capacity || self.start + self.count <= self.array.len())
    }

    pub fn new_with_capacity(capacity: usize) -> (r: Self)
        requires
            0 < capacity <= usize::MAX / 2,
        ensures
            r.well_formed(),
            r.cap() == capacity,
            r@ == Seq::<Item>::empty(),
    {
        RingBufferData { array: Vec::new(), start: 0, count: 0, capacity }
    }

    pub fn capacity(&self) -> (r: usize)
        ensures
            r == self.cap(),
    {
        self.capacity
    }

    pub fn size(&self) -> (r: usize)
        ensures
            r == self@.len(),
    {
        self.count
    }

    fn is_full(&self) -> (r: bool)
        ensures
            r == (self@.len() == self.cap()),
    {
        self.count == self.capacity
    }

    fn is_empty(&self) -> (r: bool)
        ensures
            r == (self@.len() == 0),
    {
        self.count == 0
    }

    fn wrap_index(&self, index: usize) -> (r: usize)
        requires
            self.well_formed(),
        ensures
            r == index as int % self.cap() as int,
    {
        index % self.capacity
    }

    fn write_position(&self) -> (r: usize)
        requires
            self.well_formed(),
            self.start + self.count <= usize::MAX,
        ensures
            r == (self.start + self.count) % self.cap() as int,
    {
        self.wrap_index(self.start + self.count)
    }

    fn read_position(&self) -> (r: usize)
        requires
            self.well_formed(),
        ensures
            r == self.start as int % self.cap() as int,
            r == self.start,
    {
        proof {
            lemma_mod_below(self.start as int, self.capacity as int);
        }
        self.wrap_index(self.start)
    }

    /// Append `item`; if the buffer is full, the oldest unread item is
    /// overwritten instead of blocking the producer.
    pub fn push(&mut self, item: Item)
        requires
            old(self).well_formed(),
        ensures
            final(self).well_formed(),
            final(self).cap() == old(self).cap(),
            final(self)@ == push_model(old(self)@, old(self).cap(), item),
    {
        proof {
            lemma_mod_in_window(self.start + self.count, self.capacity as int);
        }
        let index = self.write_position();

        if index == self.array.len() {
            self.array.push(item);
        } else {
            self.array[index] = item;
        }

        if self.is_full() {
            proof {
                lemma_mod_in_window(self.start + 1, self.capacity as int);
            }
            self.start = self.wrap_index(self.start + 1);
            proof {
                self.lemma_push_full(*old(self), index, item);
            }
        } else {
            self.count = self.count + 1;
            proof {
                self.lemma_push_roomy(*old(self), index, item);
            }
        }
    }

    /// Remove and return the oldest unread item, or `None` when nothing is
    /// pending.  Never blocks.
    pub fn poll(&mut self) -> (r: Option<Item>)
        requires
            old(self).well_formed(),
        ensures
            final(self).well_formed(),
            final(self).cap() == old(self).cap(),
            old(self)@.len() == 0 ==> r is None && final(self)@ == old(self)@,
            old(self)@.len() > 0 ==> r == Some(old(self)@[0]) && final(self)@ == old(self)@.drop_first(),
    {
        if self.is_empty() {
            None
        } else {
            let index = self.read_position();
            let item = self.array[index];
            proof {
                lemma_mod_in_window(self.start + 1, self.capacity as int);
            }
            self.start = self.wrap_index(self.start + 1);
            self.count = self.count - 1;
            proof {
                self.lemma_poll(*old(self));
            }
            Some(item)
        }
    }

    /// The buffer's central invariant, stated for callers: at most the
    /// fixed capacity of items is ever buffered.
    pub proof fn lemma_size_bounded(&self)
        requires
            self.well_formed(),
        ensures
            self@.len() <= self.cap(),
    {
    }

    /// Remove and return the oldest unread item.  The locked wrapper around
    /// this buffer spins until an item arrives; on the bare data an item must
    /// already be pending, since no producer can run meanwhile.
    pub fn pop(&mut self) -> (r: Item)
        requires
            old(self).well_formed(),
            old(self)@.len() > 0,
        ensures
            final(self).well_formed(),
            final(self).cap() == old(self).cap(),
            r == old(self)@[0],
            final(self)@ == old(self)@.drop_first(),
    {
        let r = self.poll();
        r.unwrap()
    }

    proof fn lemma_push_roomy(&self, pre: Self, index: usize, item: Item)
        requires
            pre.well_formed(),
            pre.count < pre.capacity,
            index == (pre.start + pre.count) % (pre.capacity as int),
            self.start == pre.start,
            self.count == pre.count + 1,
            self.capacity == pre.capacity,
            index == pre.array.len() ==> self.array@ == pre.array@.push(item),
            index < pre.array.len() ==> self.array@ == pre.array@.update(index as int, item),
        ensures
            self.well_formed(),
            self@ == push_model(pre@, pre.cap(), item),
    {
        let cap = pre.capacity as int;
        lemma_mod_in_window(pre.start + pre.count, cap);
        assert forall|i: int| 0 <= i < self.count implies self@[i] == pre@.push(item)[i] by {
            lemma_mod_in_window(pre.start + i, cap);
            lemma_mod_in_window(pre.start + pre.count, cap);
            if i < pre.count {
                lemma_mod_distinct_in_window(pre.start + i, pre.start + pre.count, cap);
            }
        }
        assert(self@ =~= push_model(pre@, pre.cap(), item));
    }

    proof fn lemma_push_full(&self, pre: Self, index: usize, item: Item)
        requires
            pre.well_formed(),
            pre.count == pre.capacity,
            index == (pre.start + pre.count) % (pre.capacity as int),
            self.start == (pre.start + 1) % (pre.capacity as int),
            self.count == pre.count,
            self.capacity == pre.capacity,
            index == pre.array.len() ==> self.array@ == pre.array@.push(item),
            index < pre.array.len() ==> self.array@ == pre.array@.update(index as int, item),
        ensures
            self.well_formed(),
            self@ == push_model(pre@, pre.cap(), item),
    {
        let cap = pre.capacity as int;
        // The buffer is full, so the backing array has reached the capacity
        // and the write lands inside it, on the oldest entry.
        assert(pre.array.len() == pre.capacity);
        assert(index == pre.start) by {
            lemma_mod_in_window(pre.start + pre.count, cap);
        }
        let target = pre@.drop_first().push(item);
        assert forall|i: int| 0 <= i < self.count implies self@[i] == target[i] by {
            lemma_mod_in_window(pre.start + 1, cap);
            lemma_mod_add_in_window(pre.start + 1, i, cap);
            lemma_mod_in_window(pre.start + 1 + i, cap);
            if i < pre.count - 1 {
                lemma_mod_in_window(pre.start + cap, cap);
                lemma_mod_distinct_in_window(pre.start + 1 + i, pre.start + cap, cap);
            }
        }
        assert(self@ =~= push_model(pre@, pre.cap(), item));
    }

    proof fn lemma_poll(&self, pre: Self)
        requires
            pre.well_formed(),
            pre.count > 0,
            self.start == (pre.start + 1) % (pre.capacity as int),
            self.count == pre.count - 1,
            self.capacity == pre.capacity,
            self.array == pre.array,
        ensures
            self.well_formed(),
            self@ == pre@.drop_first(),
    {
        let cap = pre.capacity as int;
        lemma_mod_in_window(pre.start + 1, cap);
        assert forall|i: int| 0 <= i < self.count implies self@[i] == pre@.drop_first()[i] by {
            lemma_mod_in_window(pre.start + 1, cap);
            lemma_mod_add_in_window(pre.start + 1, i, cap);
        }
        assert(self@ =~= pre@.drop_first());
    }
}

/// Pushing a sequence of items is one push and then the rest: the
/// front-first unfolding of `push_all_model`.
pub proof fn lemma_push_all_model_step<Item>(
    s: Seq<Item>,
    capacity: nat,
    item: Item,
    items: Seq<Item>,
)
    ensures
        push_all_model(s, capacity, seq![item] + items) == push_all_model(
            push_model(s, capacity, item),
            capacity,
            items,
        ),
    decreases items.len(),
{
    let started = push_model(s, capacity, item);
    if items.len() == 0 {
        assert((seq![item] + items) =~= seq![item]);
        assert(seq![item].drop_last() =~= Seq::<Item>::empty());
        assert(push_all_model(s, capacity, seq![item]) == push_model(
            push_all_model(s, capacity, Seq::<Item>::empty()),
            capacity,
            item,
        ));
        assert(push_all_model(started, capacity, items) == started);
    } else {
        let full = seq![item] + items;
        assert(full.drop_last() =~= seq![item] + items.drop_last());
        assert(full.last() == items.last());
        lemma_push_all_model_step(s, capacity, item, items.drop_last());
        assert(push_all_model(s, capacity, full) == push_model(
            push_all_model(s, capacity, full.drop_last()),
            capacity,
            full.last(),
        ));
        assert(push_all_model(started, capacity, items) == push_model(
            push_all_model(started, capacity, items.drop_last()),
            capacity,
            items.last(),
        ));
    }
}

/// FIFO ordering and the overwrite invariant, together.  Pushing any
/// sequence of items onto an empty buffer of a given capacity leaves exactly
/// the most recent `capacity` items, in push order: a sequence that fits is
/// kept whole (polls then return it in the order pushed), and pushing past
/// the capacity discards precisely the oldest surplus.
pub proof fn lemma_queue_retains_latest<Item>(capacity: nat, items: Seq<Item>)
    requires
        0 < capacity,
    ensures
        items.len() <= capacity ==> push_all_model(Seq::<Item>::empty(), capacity, items)
            == items,
        items.len() > capacity ==> push_all_model(Seq::<Item>::empty(), capacity, items)
            == items.skip(items.len() - capacity),
    decreases items.len(),
{
    if items.len() > 0 {
        let prefix = items.drop_last();
        lemma_queue_retains_latest(capacity, prefix);
        let q = push_all_model(Seq::<Item>::empty(), capacity, prefix);
        if prefix.len() < capacity {
            assert(q.push(items.last()) =~= items);
        } else if prefix.len() == capacity {
            assert(q.drop_first().push(items.last()) =~= items.skip(1));
        } else {
            assert(q == prefix.skip(prefix.len() - capacity));
            assert(q.drop_first().push(items.last())
                =~= items.skip(items.len() - capacity));
        }
    }
}

/// Reduction of `x % c` inside the window `[0, 2c)`, where a wrapped index
/// always lands.
proof fn lemma_mod_in_window(x: int, c: int)
    requires
        0 < c,
        0 <= x < 2 * c,
    ensures
        x % c == if x < c { x } else { x - c },
{
    assert(x % c == if x < c { x } else { x - c }) by (nonlinear_arith)
        requires 0 < c && 0 <= x < 2 * c;
}

proof fn lemma_mod_below(x: int, c: int)
    requires
        0 < c,
        0 <= x < c,
    ensures
        x % c == x,
{
    lemma_mod_in_window(x, c);
}

/// Two indices less than one window apart never wrap to the same slot.
proof fn lemma_mod_distinct_in_window(x: int, y: int, c: int)
    requires
        0 < c,
        0 <= x < 2 * c,
        0 <= y < 2 * c,
        x != y,
        y - x < c,
        x - y < c,
    ensures
        x % c != y % c,
{
    lemma_mod_in_window(x, c);
    lemma_mod_in_window(y, c);
}

/// Adding an offset below the capacity to a wrapped index and wrapping again
/// is the same as wrapping the plain sum.
proof fn lemma_mod_add_in_window(x: int, i: int, c: int)
    requires
        0 < c,
        0 <= x < 2 * c,
        0 <= i < c,
    ensures
        ((x % c) + i) % c == (x + i) % c,
{
    assert(((x % c) + i) % c == (x + i) % c) by (nonlinear_arith)
        requires 0 < c && 0 <= x < 2 * c && 0 <= i < c;
}

} // verus!
