//! A first-in first-out window that keeps the most recent `capacity` items,
//! newest at the front.

use std::collections::VecDeque;
use vstd::prelude::*;

verus! {

/// The window after `item` is pushed onto `s`: nothing changes when the
/// capacity is zero; otherwise the oldest item leaves when the window is full,
/// and `item` enters at the front.
pub open spec fn push_step<T>(s: Seq<T>, item: T, cap: nat) -> Seq<T> {
    if cap == 0 {
        s
    } else if s.len() >= cap {
        seq![item] + s.take(cap - 1)
    } else {
        seq![item] + s
    }
}

/// The item that pushing onto `s` evicts: the back item when the window is
/// full, else none.
pub open spec fn evicted_by_push<T>(s: Seq<T>, cap: nat) -> Option<T> {
    if cap > 0 && s.len() >= cap {
        Some(s.last())
    } else {
        None
    }
}

/// The window after each of `items` is pushed in turn onto `s`.
pub open spec fn pushes_from<T>(s: Seq<T>, items: Seq<T>, cap: nat) -> Seq<T>
    decreases items.len(),
{
    if items.len() == 0 {
        s
    } else {
        push_step(pushes_from(s, items.drop_last(), cap), items.last(), cap)
    }
}

/// The last `min(cap, items.len())` of `items`, most recent first.
pub open spec fn most_recent<T>(items: Seq<T>, cap: nat) -> Seq<T> {
    let k = if items.len() < cap { items.len() } else { cap };
    Seq::new(k, |i: int| items[items.len() - 1 - i])
}

/// A window of at most `capacity` items. Pushing the same item twice keeps
/// both occurrences. The buffer also remembers the item that its latest push
/// evicted, if that push evicted one.
pub struct FixedCircularBuffer<T> {
    buffer: VecDeque<T>,
    capacity: usize,
    evicted: Option<T>,
}

impl<T> View for FixedCircularBuffer<T> {
    type V = Seq<T>;

    /// The items held, front (most recent) first.
    closed spec fn view(&self) -> Seq<T> {
        self.buffer@
    }
}

impl<T> FixedCircularBuffer<T> {
    /// The buffer never holds more items than its capacity, and it has
    /// evicted an item only while it is full.
    pub open spec fn well_formed(&self) -> bool {
        &&& self@.len() <= self.cap()
        &&& self.evicted_item() is Some ==> self.cap() > 0 && self@.len() == self.cap()
    }

    /// The item that the latest push evicted; none when that push found
    /// room, or when items were removed since.
    pub closed spec fn evicted_item(&self) -> Option<T> {
        self.evicted
    }

    /// The capacity fixed at construction.
    pub closed spec fn cap(&self) -> nat {
        self.capacity as nat
    }

    /// An empty buffer; a capacity of zero is allowed and keeps it empty.
    pub fn new(capacity: usize) -> (r: Self)
        ensures
            r.well_formed(),
            r@ == Seq::<T>::empty(),
            r.cap() == capacity,
            r.evicted_item() is None,
    {
        FixedCircularBuffer { buffer: VecDeque::with_capacity(capacity), capacity, evicted: None }
    }

    /// Puts `item` at the front, first evicting the back item when the buffer
    /// is full, and remembers what was evicted. A buffer of capacity zero
    /// stays empty.
    pub fn push_front(&mut self, item: T)
        requires
            old(self).well_formed(),
        ensures
            final(self).well_formed(),
            final(self)@ == push_step(old(self)@, item, old(self).cap()),
            final(self).cap() == old(self).cap(),
            final(self).evicted_item() == evicted_by_push(old(self)@, old(self).cap()),
    {
        if self.capacity > 0 {
            if self.buffer.len() == self.capacity {
                self.evicted = self.buffer.pop_back();
            } else {
                self.evicted = None;
            }
            self.buffer.push_front(item);
        } else {
            self.evicted = None;
        }
        proof {
            assert(self.buffer@ =~= push_step(old(self)@, item, old(self).cap()));
        }
    }

    /// Removes and returns the back (oldest) item.
    pub fn pop_back(&mut self) -> (r: Option<T>)
        requires
            old(self).well_formed(),
        ensures
            final(self).well_formed(),
            final(self).cap() == old(self).cap(),
            final(self).evicted_item() is None,
            match r {
                Some(v) => {
                    &&& old(self)@.len() > 0
                    &&& v == old(self)@.last()
                    &&& final(self)@ == old(self)@.drop_last()
                },
                None => old(self)@.len() == 0 && final(self)@ == old(self)@,
            },
    {
        self.evicted = None;
        self.buffer.pop_back()
    }

    /// Removes every item; the capacity stays.
    pub fn clear(&mut self)
        requires
            old(self).well_formed(),
        ensures
            final(self).well_formed(),
            final(self)@ == Seq::<T>::empty(),
            final(self).cap() == old(self).cap(),
            final(self).evicted_item() is None,
    {
        self.evicted = None;
        self.buffer.clear();
    }

    /// The most recently pushed item.
    pub fn front(&self) -> (r: Option<&T>)
        ensures
            match r {
                Some(v) => self@.len() > 0 && *v == self@[0],
                None => self@.len() == 0,
            },
    {
        if self.buffer.len() == 0 {
            None
        } else {
            Some(&self.buffer[0])
        }
    }

    /// The item that the latest push evicted, if it evicted one.
    pub fn last_evicted(&self) -> (r: Option<&T>)
        ensures
            match r {
                Some(v) => self.evicted_item() == Some(*v),
                None => self.evicted_item() is None,
            },
    {
        match &self.evicted {
            Some(v) => Some(v),
            None => None,
        }
    }

    /// The item at position `i`, counted from the front (most recent).
    pub fn get(&self, i: usize) -> (r: &T)
        requires
            i < self@.len(),
        ensures
            *r == self@[i as int],
    {
        &self.buffer[i]
    }

    /// The number of items held.
    pub fn len(&self) -> (r: usize)
        ensures
            r == self@.len(),
    {
        self.buffer.len()
    }

    /// The capacity fixed at construction.
    pub fn capacity(&self) -> (r: usize)
        ensures
            r == self.cap(),
    {
        self.capacity
    }

    /// The least recently pushed item, the next to be evicted.
    pub fn back(&self) -> (r: Option<&T>)
        ensures
            match r {
                Some(v) => self@.len() > 0 && *v == self@.last(),
                None => self@.len() == 0,
            },
    {
        let n = self.buffer.len();
        if n == 0 {
            None
        } else {
            Some(&self.buffer[n - 1])
        }
    }

    /// The items, front (most recent) first, taken out of the buffer.
    pub fn into_vec(self) -> (r: Vec<T>)
        ensures
            r@ == self@,
    {
        let mut rest = self.buffer;
        let mut out: Vec<T> = Vec::new();
        while rest.len() > 0
            invariant
                out@ + rest@ == self@,
            decreases rest@.len(),
        {
            let ghost before = rest@;
            match rest.pop_front() {
                Some(v) => {
                    out.push(v);
                    proof {
                        assert(before == seq![v] + rest@);
                        assert(out@ + rest@ =~= self@);
                    }
                },
                None => {},
            }
        }
        assert(out@ =~= self@);
        out
    }
}

impl<T: Copy> FixedCircularBuffer<T> {
    /// A copy of the items, front (most recent) first.
    pub fn to_vec(&self) -> (r: Vec<T>)
        ensures
            r@ == self@,
    {
        let mut out: Vec<T> = Vec::new();
        let n = self.buffer.len();
        let mut i: usize = 0;
        while i < n
            invariant
                n == self@.len(),
                i <= n,
                out@ == self@.take(i as int),
            decreases n - i,
        {
            let v: T = *self.get(i);
            out.push(v);
            i = i + 1;
            assert(out@ =~= self@.take(i as int));
        }
        assert(out@ =~= self@);
        out
    }
}

/// Pushing onto a buffer within its capacity leaves it within its capacity,
/// whatever items are pushed.
pub proof fn lemma_pushes_stay_within_capacity<T>(s: Seq<T>, items: Seq<T>, cap: nat)
    requires
        s.len() <= cap,
    ensures
        pushes_from(s, items, cap).len() <= cap,
    decreases items.len(),
{
    if items.len() > 0 {
        lemma_pushes_stay_within_capacity(s, items.drop_last(), cap);
    }
}

/// Starting empty, the buffer holds exactly the most recent `cap` pushes,
/// newest first: older ones have been evicted in the order they came.
pub proof fn lemma_window_holds_most_recent<T>(items: Seq<T>, cap: nat)
    ensures
        pushes_from(Seq::<T>::empty(), items, cap) == most_recent(items, cap),
    decreases items.len(),
{
    if items.len() > 0 {
        let rest = items.drop_last();
        lemma_window_holds_most_recent(rest, cap);
        let prev = most_recent(rest, cap);
        assert(push_step(prev, items.last(), cap) =~= most_recent(items, cap));
    } else {
        assert(most_recent(items, cap) =~= Seq::<T>::empty());
    }
}

} // verus!
