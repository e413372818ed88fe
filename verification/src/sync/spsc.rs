use vstd::prelude::*;

verus! {

/// A capacity the ring buffer can be built with: a power of two that fits the
/// `u32` indices.
pub open spec fn valid_capacity(cap: usize) -> bool {
    &&& 0 < cap <= 0x8000_0000
    &&& (cap as u32) & ((cap - 1) as u32) == 0
}

/// Single-producer single-consumer ring buffer.
///
/// One slot always stays free to tell a full buffer from an empty one, so at
/// most `CAP - 1` items are held at a time.
pub struct SpscQueue<T, const CAP: usize> {
    buf: [T; CAP],
    head: u32,
    tail: u32,
    dropped: u32,
    drop_detail: u32,
}

impl<T: Copy, const CAP: usize> SpscQueue<T, CAP> {
    /// `x` reduced into `0..CAP`, for `x < 2 * CAP`.
    pub open spec fn wrap(x: int) -> int {
        if x < CAP {
            x
        } else {
            x - CAP
        }
    }

    pub closed spec fn wf(&self) -> bool {
        &&& valid_capacity(CAP)
        &&& self.head < CAP
        &&& self.tail < CAP
    }

    /// Number of items held.
    pub closed spec fn spec_len(&self) -> nat {
        if self.head >= self.tail {
            (self.head - self.tail) as nat
        } else {
            (self.head + CAP - self.tail) as nat
        }
    }

    /// The items held, oldest first.
    pub closed spec fn contents(&self) -> Seq<T> {
        Seq::new(self.spec_len(), |i: int| self.buf@[Self::wrap(self.tail + i)])
    }

    /// Number of pushes refused because the buffer was full (wrapping).
    pub closed spec fn spec_dropped(&self) -> u32 {
        self.dropped
    }

    /// Extra drop count recorded by the producer (wrapping).
    pub closed spec fn spec_drop_detail(&self) -> u32 {
        self.drop_detail
    }

    /// An empty queue over `buf`, whose initial contents are never read.
    pub fn from_array(buf: [T; CAP]) -> (q: Self)
        requires
            valid_capacity(CAP),
        ensures
            q.wf(),
            q@ == Seq::<T>::empty(),
            q.spec_dropped() == 0,
            q.spec_drop_detail() == 0,
    {
        let q = Self { buf, head: 0, tail: 0, dropped: 0, drop_detail: 0 };
        assert(q.contents() =~= Seq::<T>::empty());
        q
    }

    /// Index mask: `CAP - 1`.
    fn mask(&self) -> (m: u32)
        requires
            self.wf(),
        ensures
            m == CAP - 1,
    {
        (CAP - 1) as u32
    }

    /// Producer side. Returns `false`, and counts a drop, when the buffer is
    /// full.
    pub fn push(&mut self, value: T) -> (accepted: bool)
        requires
            old(self).wf(),
        ensures
            final(self).wf(),
            accepted == (old(self)@.len() < CAP - 1),
            accepted ==> final(self)@ == old(self)@.push(value),
            accepted ==> final(self).spec_dropped() == old(self).spec_dropped(),
            !accepted ==> final(self)@ == old(self)@,
            !accepted ==> final(self).spec_dropped() == old(self).spec_dropped().wrapping_add(1),
            final(self).spec_drop_detail() == old(self).spec_drop_detail(),
    {
        let head = self.head;
        let tail = self.tail;
        let m = self.mask();
        let next: u32 = head + 1;
        let next_head = next & m;
        proof {
            let c = CAP as u32;
            assert(next & ((c - 1) as u32) == (if next == c { 0u32 } else { next })) by (bit_vector)
                requires
                    c & ((c - 1) as u32) == 0,
                    0 < c,
                    0 < next <= c,
            ;
        }
        if next_head == tail {
            self.dropped = self.dropped.wrapping_add(1);
            return false;
        }
        let ghost old_contents = self@;
        self.buf[head as usize] = value;
        self.head = next_head;
        proof {
            assert forall|i: int| 0 <= i < old_contents.len() implies self@[i]
                == old_contents[i] by {
                assert(Self::wrap(self.tail + i) != head);
            }
            assert(self@ =~= old_contents.push(value));
        }
        true
    }

    /// Consumer side. Takes the oldest item, if any.
    pub fn pop(&mut self) -> (item: Option<T>)
        requires
            old(self).wf(),
        ensures
            final(self).wf(),
            old(self)@.len() == 0 ==> item is None && final(self)@ == old(self)@,
            old(self)@.len() > 0 ==> item == Some(old(self)@[0]) && final(self)@ == old(
                self,
            )@.drop_first(),
            final(self).spec_dropped() == old(self).spec_dropped(),
            final(self).spec_drop_detail() == old(self).spec_drop_detail(),
    {
        let head = self.head;
        let tail = self.tail;
        if head == tail {
            return None;
        }
        let ghost old_contents = self@;
        let value = self.buf[tail as usize];
        let m = self.mask();
        let next: u32 = tail + 1;
        proof {
            let c = CAP as u32;
            assert(next & ((c - 1) as u32) == (if next == c { 0u32 } else { next })) by (bit_vector)
                requires
                    c & ((c - 1) as u32) == 0,
                    0 < c,
                    0 < next <= c,
            ;
        }
        self.tail = next & m;
        proof {
            assert(old_contents[0] == value);
            assert(self@ =~= old_contents.drop_first());
        }
        Some(value)
    }

    pub fn is_empty(&self) -> (empty: bool)
        requires
            self.wf(),
        ensures
            empty == (self@.len() == 0),
    {
        self.head == self.tail
    }

    /// Pushes refused because the buffer was full.
    pub fn dropped(&self) -> (n: u32)
        ensures
            n == self.spec_dropped(),
    {
        self.dropped
    }

    /// Adds `n` to the extra drop count (wrapping).
    pub fn mark_drop_detail(&mut self, n: u32)
        ensures
            final(self)@ == old(self)@,
            final(self).wf() == old(self).wf(),
            final(self).spec_dropped() == old(self).spec_dropped(),
            final(self).spec_drop_detail() == old(self).spec_drop_detail().wrapping_add(n),
    {
        self.drop_detail = self.drop_detail.wrapping_add(n);
    }

    pub fn drop_detail(&self) -> (n: u32)
        ensures
            n == self.spec_drop_detail(),
    {
        self.drop_detail
    }

    /// Never more than `CAP - 1` items are held.
    pub proof fn lemma_capacity_bound(&self)
        requires
            self.wf(),
        ensures
            self@.len() < CAP,
    {
    }
}

impl<T: Copy, const CAP: usize> View for SpscQueue<T, CAP> {
    type V = Seq<T>;

    closed spec fn view(&self) -> Seq<T> {
        self.contents()
    }
}

} // verus!
