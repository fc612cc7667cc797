//! Circular contingent buffer.

use vstd::prelude::*;

verus! {

/// What pushing `v` into a buffer of capacity `cap` holding `q` gives back: the value itself when
/// the capacity is zero, the oldest element when the buffer is full, nothing otherwise.
pub open spec fn push_out<T>(q: Seq<T>, cap: nat, v: T) -> Option<T> {
    if cap == 0 {
        Some(v)
    } else if q.len() < cap {
        None
    } else {
        Some(q[0])
    }
}

/// Elements of a buffer of capacity `cap` holding `q` after pushing `v`: the oldest element is
/// pushed out when the buffer is full, and nothing is kept when the capacity is zero.
pub open spec fn push_model<T>(q: Seq<T>, cap: nat, v: T) -> Seq<T> {
    if cap == 0 {
        q
    } else if q.len() < cap {
        q.push(v)
    } else {
        q.drop_first().push(v)
    }
}

/// Elements of a buffer of capacity `cap` holding `q` after pushing all of `xs`, in order.
pub open spec fn push_all_model<T>(q: Seq<T>, cap: nat, xs: Seq<T>) -> Seq<T>
    decreases xs.len(),
{
    if xs.len() == 0 {
        q
    } else {
        push_model(push_all_model(q, cap, xs.drop_last()), cap, xs.last())
    }
}

/// Number of elements a buffer holding `len` elements keeps when resized to `capacity`.
pub open spec fn kept(len: nat, capacity: nat) -> nat {
    if capacity < len {
        capacity
    } else {
        len
    }
}

/// A buffer of positive capacity `cap` that starts empty keeps the last `cap` pushed values, the
/// oldest first.
pub proof fn law_keeps_newest<T>(cap: nat, xs: Seq<T>)
    requires
        cap > 0,
    ensures
        push_all_model(Seq::<T>::empty(), cap, xs) == xs.subrange(
            if xs.len() > cap { xs.len() - cap } else { 0 },
            xs.len() as int,
        ),
    decreases xs.len(),
{
    if xs.len() > 0 {
        let ys = xs.drop_last();
        law_keeps_newest(cap, ys);
        let lo2 = if xs.len() > cap { xs.len() - cap } else { 0 };
        assert(push_all_model(Seq::<T>::empty(), cap, xs) =~= xs.subrange(lo2, xs.len() as int));
    }
}

/// A push gives an element back exactly when the buffer is full (a buffer of zero capacity is
/// always full).
pub proof fn law_full_iff_push_out<T>(q: Seq<T>, cap: nat, v: T)
    requires
        q.len() <= cap,
    ensures
        (q.len() == cap) <==> push_out(q, cap, v) is Some,
{
}

/// Resizing splits the elements into the kept ones followed by the returned ones: nothing is lost,
/// duplicated or reordered.
pub proof fn law_resize_splits<T>(q: Seq<T>, capacity: nat)
    ensures
        q.subrange(0, kept(q.len(), capacity) as int) + q.subrange(
            kept(q.len(), capacity) as int,
            q.len() as int,
        ) == q,
{
    let k = kept(q.len(), capacity) as int;
    assert(q.subrange(0, k) + q.subrange(k, q.len() as int) =~= q);
}

/// Circular contingent buffer.
///
/// The buffer keeps physical slots (allocated lazily, never more than the capacity), the index of
/// the slot that holds the oldest element and the number of elements.
pub struct RingBuffer<T> {
    buffer: Vec<Option<T>>,
    capacity: usize,
    len: usize,
    start: usize,
}

impl<T> RingBuffer<T> {
    /// Physical slots allocated so far.
    closed spec fn slots(&self) -> Seq<Option<T>> {
        self.buffer@
    }

    /// Capacity of the buffer.
    pub closed spec fn cap(&self) -> nat {
        self.capacity as nat
    }

    /// Index of the slot that holds the oldest element.
    closed spec fn head(&self) -> nat {
        self.start as nat
    }

    /// Number of elements.
    closed spec fn size(&self) -> nat {
        self.len as nat
    }

    /// Slot of the `i`-th element counting from the oldest one (for `0 <= i <= cap`).
    closed spec fn pos(&self, i: int) -> int {
        let s = self.head() + i;
        if s < self.cap() {
            s
        } else {
            s - self.cap()
        }
    }

    /// How far the slot `j` lies after the slot of the oldest element.
    closed spec fn offset(&self, j: int) -> int {
        if j >= self.head() {
            j - self.head()
        } else {
            j + self.cap() - self.head()
        }
    }

    /// Well-formedness: the slots of the elements, and the one that follows them, are allocated;
    /// a slot holds a value exactly when it holds an element.
    pub closed spec fn inv(&self) -> bool {
        &&& self.slots().len() <= self.cap()
        &&& self.size() <= self.cap()
        &&& self.cap() == 0 ==> self.head() == 0
        &&& self.cap() > 0 ==> self.head() < self.cap()
        &&& forall|i: int| 0 <= i < self.size() ==> #[trigger] self.pos(i) < self.slots().len()
        &&& self.cap() > 0 ==> self.pos(self.size() as int) <= self.slots().len()
        &&& forall|j: int|
            0 <= j < self.slots().len() ==> ((#[trigger] self.slots()[j]) is Some <==> self.offset(
                j,
            ) < self.size())
    }

    /// Elements of the buffer, the oldest first.
    pub closed spec fn items(&self) -> Seq<T> {
        Seq::new(self.size(), |i: int| self.slots()[self.pos(i)].unwrap())
    }

    /// A well-formed buffer holds at most as many elements as its capacity.
    pub proof fn lemma_len_le_cap(&self)
        requires
            self.inv(),
        ensures
            self@.len() <= self.cap(),
    {
    }

    /// In a well-formed buffer, fullness tells whether a push gives an element back: it does
    /// exactly when the buffer holds as many elements as its capacity.
    pub proof fn law_full_iff_push_gives_back(&self, value: T)
        requires
            self.inv(),
        ensures
            (self@.len() == self.cap()) <==> push_out(self@, self.cap(), value) is Some,
    {
    }

    proof fn lemma_pos_offset(&self)
        requires
            self.cap() > 0,
            self.head() < self.cap(),
        ensures
            forall|i: int|
                0 <= i < self.cap() ==> 0 <= #[trigger] self.pos(i) < self.cap() && self.offset(
                    self.pos(i),
                ) == i,
            forall|j: int|
                0 <= j < self.cap() ==> 0 <= #[trigger] self.offset(j) < self.cap() && self.pos(
                    self.offset(j),
                ) == j,
    {
    }

    /// Creates a new [`RingBuffer`].
    pub fn new(capacity: usize) -> (ring: RingBuffer<T>)
        ensures
            ring.inv(),
            ring.cap() == capacity,
            ring@ == Seq::<T>::empty(),
    {
        let buffer = Vec::with_capacity(capacity);
        let ring = RingBuffer { buffer, capacity, len: 0, start: 0 };
        proof {
            assert(ring@ =~= Seq::<T>::empty());
        }
        ring
    }

    /// Returns `true` if buffer is full.
    pub fn is_full(&self) -> (full: bool)
        ensures
            full == (self@.len() == self.cap()),
    {
        self.len == self.capacity
    }

    /// Returns `true` if buffer is empty.
    pub fn is_empty(&self) -> (empty: bool)
        ensures
            empty == (self@.len() == 0),
    {
        self.len() == 0
    }

    /// Returns number of elements in a buffer.
    pub fn len(&self) -> (len: usize)
        ensures
            len == self@.len(),
            self.inv() ==> len <= self.cap(),
    {
        self.len
    }

    /// Returns buffer's capacity.
    pub fn capacity(&self) -> (capacity: usize)
        ensures
            capacity == self.cap(),
    {
        self.capacity
    }

    /// Slot that follows the newest element.
    fn next_pos(&self) -> (p: usize)
        requires
            self.inv(),
            self.cap() > 0,
        ensures
            p == self.pos(self.size() as int),
            p < self.cap(),
    {
        if self.len < self.capacity - self.start {
            self.start + self.len
        } else {
            self.len - (self.capacity - self.start)
        }
    }

    /// Pushes new element to a buffer.
    ///
    /// Returns optional element that was pushed out from the buffer.
    ///
    /// If buffer has zero capacity, then the same element will be returned.
    pub fn push(&mut self, value: T) -> (out: Option<T>)
        requires
            old(self).inv(),
        ensures
            final(self).inv(),
            final(self).cap() == old(self).cap(),
            out == push_out(old(self)@, old(self).cap(), value),
            final(self)@ == push_model(old(self)@, old(self).cap(), value),
    {
        if self.capacity() == 0 {
            return Some(value);
        }
        let ghost s0 = *self;
        proof {
            s0.lemma_pos_offset();
        }
        let pos = self.next_pos();
        if pos == self.buffer.len() {
            self.buffer.push(None);
        }
        let ghost s1 = *self;
        proof {
            if s0.size() < s0.cap() {
                assert(s1.slots()[pos as int] is None) by {
                    if pos < s0.slots().len() {
                        assert(s0.offset(pos as int) == s0.size());
                    }
                }
            } else {
                assert(pos == s0.head());
                assert(s0.pos(0) == s0.head());
            }
        }
        let mut pushed_out = Some(value);
        self.buffer.set_and_swap(pos, &mut pushed_out);

        if self.is_full() {
            if self.start == self.capacity - 1 {
                self.start = 0;
            } else {
                self.start = self.start + 1;
            }
        } else {
            self.len = self.len + 1;
        }
        proof {
            self.lemma_pos_offset();
            if s0.size() < s0.cap() {
                assert forall|i: int| 0 <= i < self.size() implies #[trigger] self.pos(i)
                    < self.slots().len() by {
                    assert(self.pos(i) == s0.pos(i));
                }
                assert forall|j: int| 0 <= j < self.slots().len() implies ((
                #[trigger] self.slots()[j]) is Some <==> self.offset(j) < self.size()) by {
                    assert(self.offset(j) == s0.offset(j));
                    if j != pos {
                        assert(self.slots()[j] == s0.slots()[j]);
                        if self.offset(j) == s0.size() {
                            assert(s0.pos(s0.offset(j)) == j);
                        }
                    }
                }
                assert forall|i: int| 0 <= i < self.size() implies #[trigger] self.items()[i]
                    == s0@.push(value)[i] by {
                    assert(self.pos(i) == s0.pos(i));
                    if i < s0.size() {
                        assert(s0.offset(s0.pos(i)) == i);
                    }
                }
                assert(self@ =~= s0@.push(value));
            } else {
                assert forall|i: int| 0 <= i < self.size() implies #[trigger] self.pos(i)
                    < self.slots().len() by {
                    assert(s0.pos(s0.offset(self.pos(i))) == self.pos(i));
                }
                assert forall|j: int| 0 <= j < self.slots().len() implies ((
                #[trigger] self.slots()[j]) is Some <==> self.offset(j) < self.size()) by {
                    if j != pos {
                        assert(self.slots()[j] == s0.slots()[j]);
                        assert(s0.offset(j) < s0.size());
                    }
                }
                assert forall|i: int| 0 <= i < self.size() implies #[trigger] self.items()[i]
                    == s0@.drop_first().push(value)[i] by {
                    if i + 1 < s0.size() {
                        assert(self.pos(i) == s0.pos(i + 1));
                        assert(s0.offset(s0.pos(i + 1)) == i + 1);
                    } else {
                        assert(self.pos(i) == pos);
                    }
                }
                assert(self@ =~= s0@.drop_first().push(value));
            }
        }
        pushed_out
    }

    /// Pulls back the first element of a buffer.
    pub fn pull_back(&mut self) -> (out: Option<T>)
        requires
            old(self).inv(),
        ensures
            final(self).inv(),
            final(self).cap() == old(self).cap(),
            old(self)@.len() == 0 ==> out is None && final(self)@ == old(self)@,
            old(self)@.len() > 0 ==> out == Some(old(self)@[0]) && final(self)@ == old(
                self,
            )@.drop_first(),
    {
        if self.is_empty() {
            return None;
        }
        let ghost s0 = *self;
        proof {
            s0.lemma_pos_offset();
            assert(s0.pos(0) == s0.head());
        }
        let mut value = None;
        self.buffer.set_and_swap(self.start, &mut value);

        if self.start == self.capacity - 1 {
            self.start = 0;
        } else {
            self.start = self.start + 1;
        }
        self.len = self.len - 1;
        proof {
            self.lemma_pos_offset();
            assert forall|i: int| 0 <= i < self.size() implies #[trigger] self.pos(i)
                < self.slots().len() by {
                assert(self.pos(i) == s0.pos(i + 1));
            }
            assert(self.pos(self.size() as int) == s0.pos(s0.size() as int));
            assert forall|j: int| 0 <= j < self.slots().len() implies ((
            #[trigger] self.slots()[j]) is Some <==> self.offset(j) < self.size()) by {
                if j != s0.head() {
                    assert(self.slots()[j] == s0.slots()[j]);
                    assert(self.offset(j) == s0.offset(j) - 1);
                }
            }
            assert forall|i: int| 0 <= i < self.size() implies #[trigger] self.items()[i]
                == s0@.drop_first()[i] by {
                assert(self.pos(i) == s0.pos(i + 1));
                assert(s0.offset(s0.pos(i + 1)) == i + 1);
            }
            assert(self@ =~= s0@.drop_first());
        }
        value
    }

    /// Changes capacity of the ring buffer, returns elements, that do not fit.
    ///
    /// The buffer keeps its oldest elements, as many as the new capacity can hold, in order; the
    /// elements that follow them are returned, in order. Growing the buffer keeps every element.
    pub fn resize(&mut self, capacity: usize) -> (rest: Vec<T>)
        requires
            old(self).inv(),
        ensures
            final(self).inv(),
            final(self).cap() == capacity,
            final(self)@ == old(self)@.subrange(0, kept(old(self)@.len(), capacity as nat) as int),
            rest@ == old(self)@.subrange(
                kept(old(self)@.len(), capacity as nat) as int,
                old(self)@.len() as int,
            ),
    {
        if capacity == self.capacity {
            proof {
                assert(self@.subrange(0, self@.len() as int) =~= self@);
            }
            return Vec::new();
        }
        let ghost s0 = *self;
        let mut items: Vec<T> = Vec::new();
        while self.len > 0
            invariant
                self.inv(),
                self.cap() == s0.cap(),
                items@ + self@ == s0@,
            decreases self.size(),
        {
            let ghost before = self@;
            match self.pull_back() {
                Some(item) => {
                    items.push(item);
                    proof {
                        assert(items@ + self@ =~= s0@) by {
                            assert(before =~= seq![before[0]] + before.drop_first());
                        }
                    }
                },
                None => {},
            }
        }
        proof {
            assert(items@ =~= s0@);
        }
        let n = items.len();
        let k = if capacity < n {
            capacity
        } else {
            n
        };
        let rest = items.split_off(k);
        let mut buffer: Vec<Option<T>> = Vec::with_capacity(capacity);
        let mut i: usize = 0;
        while i < k
            invariant
                i <= k,
                buffer@.len() == i,
            decreases k - i,
        {
            buffer.push(None);
            i = i + 1;
        }
        while items.len() > 0
            invariant
                k <= s0@.len(),
                items@.len() <= k,
                items@ == s0@.subrange(0, items@.len() as int),
                buffer@.len() == k,
                forall|j: int| items@.len() <= j < k ==> #[trigger] buffer@[j] == Some(s0@[j]),
            decreases items@.len(),
        {
            let j = items.len() - 1;
            let x = items.pop().unwrap();
            proof {
                assert(x == s0@[j as int]);
                assert(items@ =~= s0@.subrange(0, items@.len() as int));
            }
            buffer.set(j, Some(x));
        }
        self.buffer = buffer;
        self.capacity = capacity;
        self.len = k;
        self.start = 0;
        proof {
            assert forall|j: int| 0 <= j < self.slots().len() implies ((
            #[trigger] self.slots()[j]) is Some <==> self.offset(j) < self.size()) by {
                assert(self.slots()[j] == Some(s0@[j]));
            }
            assert forall|i: int| 0 <= i < self.size() implies #[trigger] self.pos(i)
                < self.slots().len() by {
                assert(self.pos(i) == i);
            }
            assert forall|i: int| 0 <= i < self.size() implies #[trigger] self.items()[i]
                == s0@.subrange(0, k as int)[i] by {
                assert(self.pos(i) == i);
                assert(self.slots()[i] == Some(s0@[i]));
            }
            assert(self@ =~= s0@.subrange(0, k as int));
        }
        rest
    }

    /// Returns an iterator over a buffer.
    pub fn iter(&self) -> (iter: RingBufferIterator<'_, T>)
        ensures
            iter.source() == *self,
            iter.cursor() == 0,
    {
        RingBufferIterator::new(self)
    }
}

impl<T> View for RingBuffer<T> {
    type V = Seq<T>;

    /// Elements of the buffer, the oldest first.
    open spec fn view(&self) -> Seq<T> {
        self.items()
    }
}

impl<T> Default for RingBuffer<T> {
    /// Creates an empty [`RingBuffer`] with `0` capacity.
    fn default() -> (ring: Self)
        ensures
            ring.inv(),
            ring.cap() == 0,
            ring@ == Seq::<T>::empty(),
    {
        Self::new(0)
    }
}

/// Iterator over [`RingBuffer`].
pub struct RingBufferIterator<'a, T> {
    ring: &'a RingBuffer<T>,
    cursor: usize,
}

impl<'a, T> RingBufferIterator<'a, T> {
    /// Buffer this iterator walks over.
    pub closed spec fn source(&self) -> RingBuffer<T> {
        *self.ring
    }

    /// Number of elements the iterator has passed.
    pub closed spec fn cursor(&self) -> nat {
        self.cursor as nat
    }

    /// Creates a new iterator over a [`RingBuffer`].
    pub fn new(ring: &'a RingBuffer<T>) -> (iter: Self)
        ensures
            iter.source() == *ring,
            iter.cursor() == 0,
    {
        Self { ring, cursor: 0 }
    }

    /// Returns next element of a [`RingBuffer`] or [`None`] once all elements have been passed.
    pub fn next(&mut self) -> (item: Option<&'a T>)
        requires
            old(self).source().inv(),
            old(self).cursor() <= old(self).source()@.len(),
        ensures
            final(self).source() == old(self).source(),
            old(self).cursor() == old(self).source()@.len() ==> item is None && final(self).cursor()
                == old(self).cursor(),
            old(self).cursor() < old(self).source()@.len() ==> {
                &&& final(self).cursor() == old(self).cursor() + 1
                &&& item matches Some(r) && *r == old(self).source()@[old(self).cursor() as int]
            },
    {
        if self.cursor == self.ring.len {
            return None;
        }
        let ghost ring = *self.ring;
        proof {
            ring.lemma_pos_offset();
        }
        let pos = if self.cursor < self.ring.capacity - self.ring.start {
            self.ring.start + self.cursor
        } else {
            self.cursor - (self.ring.capacity - self.ring.start)
        };
        proof {
            assert(pos == ring.pos(self.cursor as int));
            assert(ring.offset(pos as int) == self.cursor);
        }
        self.cursor = self.cursor + 1;
        let element = &self.ring.buffer[pos];
        element.as_ref()
    }
}

} // verus!
