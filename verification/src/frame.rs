use vstd::prelude::*;

verus! {

/// `x` reduced into `0..cap`, for `0 <= x < 2 * cap`.
pub open spec fn wrap(x: int, cap: int) -> int {
    if x < cap {
        x
    } else {
        x - cap
    }
}

proof fn lemma_wrap_mod(x: int, cap: int)
    requires
        cap > 0,
        0 <= x < 2 * cap,
    ensures
        x % cap == wrap(x, cap),
{
    if x < cap {
        vstd::arithmetic::div_mod::lemma_small_mod(x as nat, cap as nat);
    } else {
        vstd::arithmetic::div_mod::lemma_small_mod((x - cap) as nat, cap as nat);
        vstd::arithmetic::div_mod::lemma_mod_sub_multiples_vanish(x, cap);
    }
}

/// A simple ring buffer with dynamic backing storage.
#[derive(Debug, Clone)]
pub struct RingBuffer<T> {
    buf: Vec<T>,
    write_pos: usize,
    read_pos: usize,
    capacity: usize,
    count: usize,
}

/// The queue after pushing `s` onto `q` in a ring of capacity `cap`: the
/// newest `cap` items of `q + s`.
pub open spec fn ring_push_all<T>(q: Seq<T>, s: Seq<T>, cap: nat) -> Seq<T> {
    let all = q + s;
    if all.len() <= cap {
        all
    } else {
        all.skip(all.len() - cap)
    }
}

impl<T> View for RingBuffer<T> {
    type V = Seq<T>;

    /// The items available for reading, oldest first.
    closed spec fn view(&self) -> Seq<T> {
        Seq::new(
            self.count as nat,
            |i: int| self.buf@[wrap(self.read_pos + i, self.capacity as int)],
        )
    }
}

impl<T> RingBuffer<T> {
    /// Well-formedness of the internal positions.
    pub closed spec fn wf(&self) -> bool {
        &&& self.buf@.len() == self.capacity
        &&& self.count <= self.capacity
        &&& self.capacity == 0 ==> self.read_pos == 0 && self.write_pos == 0
        &&& self.capacity > 0 ==> {
            &&& self.read_pos < self.capacity
            &&& self.write_pos == wrap(self.read_pos + self.count, self.capacity as int)
        }
    }

    /// Number of items the buffer can hold.
    pub closed spec fn cap(&self) -> nat {
        self.capacity as nat
    }

    pub proof fn lemma_len_le_cap(&self)
        requires
            self.wf(),
        ensures
            self@.len() <= self.cap(),
    {
    }
}

impl<T: Copy + Default> RingBuffer<T> {
    /// Create a ring buffer that can hold `capacity` items.
    pub fn new(capacity: usize) -> (r: Self)
        ensures
            r.wf(),
            r.cap() == capacity,
            r@ == Seq::<T>::empty(),
    {
        let mut buf: Vec<T> = Vec::new();
        let mut i: usize = 0;
        while i < capacity
            invariant
                i <= capacity,
                buf@.len() == i,
            decreases capacity - i,
        {
            buf.push(T::default());
            i += 1;
        }
        let r = RingBuffer { buf, write_pos: 0, read_pos: 0, capacity, count: 0 };
        assert(r@ =~= Seq::<T>::empty());
        r
    }

    /// Push a single sample into the buffer.
    /// If the buffer is full the oldest sample is overwritten.
    pub fn push(&mut self, sample: T)
        requires
            old(self).wf(),
            old(self).cap() > 0,
        ensures
            final(self).wf(),
            final(self).cap() == old(self).cap(),
            final(self)@ == if old(self)@.len() == old(self).cap() {
                old(self)@.drop_first().push(sample)
            } else {
                old(self)@.push(sample)
            },
    {
        let ghost q = self@;
        let ghost cap = self.capacity as int;
        let w = self.write_pos;
        self.buf.set(w, sample);
        proof { lemma_wrap_mod(w + 1, cap); }
        self.write_pos = (w + 1) % self.capacity;
        if self.count == self.capacity {
            proof { lemma_wrap_mod(self.read_pos + 1, cap); }
            self.read_pos = (self.read_pos + 1) % self.capacity;
            assert(self@ =~= q.drop_first().push(sample));
        } else {
            self.count += 1;
            assert(self@ =~= q.push(sample));
        }
    }

    /// Push a slice of samples into the buffer.
    pub fn push_slice(&mut self, samples: &[T])
        requires
            old(self).wf(),
            old(self).cap() > 0 || samples@.len() == 0,
        ensures
            final(self).wf(),
            final(self).cap() == old(self).cap(),
            final(self)@ == ring_push_all(old(self)@, samples@, old(self).cap()),
    {
        let ghost q = self@;
        let ghost cap = self.cap();
        let mut i: usize = 0;
        assert(q + samples@.take(0) =~= q);
        while i < samples.len()
            invariant
                i <= samples@.len(),
                self.wf(),
                self.cap() == cap,
                cap > 0 || samples@.len() == 0,
                self@ == ring_push_all(q, samples@.take(i as int), cap),
            decreases samples@.len() - i,
        {
            self.push(samples[i]);
            proof {
                let s0 = samples@.take(i as int);
                let s1 = samples@.take(i + 1);
                assert(s1 =~= s0.push(samples@[i as int]));
                assert(q + s1 =~= (q + s0).push(samples@[i as int]));
                assert(self@ =~= ring_push_all(q, s1, cap));
            }
            i += 1;
        }
        assert(samples@.take(samples@.len() as int) =~= samples@);
    }

    /// Read up to `count` samples into `output`.
    /// Returns the number of samples actually read.
    pub fn read(&mut self, output: &mut [T], count: usize) -> (n: usize)
        requires
            old(self).wf(),
        ensures
            final(self).wf(),
            final(self).cap() == old(self).cap(),
            n as int == vstd::math::min(
                vstd::math::min(count as int, old(self)@.len() as int),
                old(output)@.len() as int,
            ),
            final(self)@ == old(self)@.skip(n as int),
            final(output)@.len() == old(output)@.len(),
            final(output)@.take(n as int) == old(self)@.take(n as int),
            final(output)@.skip(n as int) == old(output)@.skip(n as int),
    {
        let ghost q = self@;
        let ghost out0 = output@;
        let ghost cap = self.capacity as int;
        let mut to_read = count;
        if self.count < to_read {
            to_read = self.count;
        }
        if output.len() < to_read {
            to_read = output.len();
        }
        let mut i: usize = 0;
        while i < to_read
            invariant
                i <= to_read,
                to_read <= q.len(),
                to_read <= output@.len(),
                output@.len() == out0.len(),
                self.buf@.len() == self.capacity,
                self.capacity == cap,
                self.count as int == q.len(),
                cap > 0 ==> self.read_pos < cap,
                cap == 0 ==> self.read_pos == 0 && i == 0,
                cap > 0 ==> self.read_pos == wrap(
                    old(self).read_pos + i,
                    cap,
                ),
                self.buf == old(self).buf,
                self.write_pos == old(self).write_pos,
                old(self).wf(),
                q == old(self)@,
                forall|j: int| 0 <= j < i ==> output@[j] == q[j],
                forall|j: int| i <= j < output@.len() ==> output@[j] == out0[j],
            decreases to_read - i,
        {
            proof { lemma_wrap_mod(self.read_pos + 1, cap); }
            output[i] = self.buf[self.read_pos];
            self.read_pos = (self.read_pos + 1) % self.capacity;
            i += 1;
        }
        self.count = self.count - to_read;
        assert(self@ =~= q.skip(to_read as int));
        assert(output@.take(to_read as int) =~= q.take(to_read as int));
        assert(output@.skip(to_read as int) =~= out0.skip(to_read as int));
        to_read
    }

    /// Number of samples available for reading.
    pub fn available(&self) -> (n: usize)
        requires
            self.wf(),
        ensures
            n == self@.len(),
    {
        self.count
    }

    /// Reset the buffer to empty.
    pub fn clear(&mut self)
        requires
            old(self).wf(),
        ensures
            final(self).wf(),
            final(self).cap() == old(self).cap(),
            final(self)@ == Seq::<T>::empty(),
    {
        self.write_pos = 0;
        self.read_pos = 0;
        self.count = 0;
        assert(self@ =~= Seq::<T>::empty());
    }
}


/// Into a buffer with room for them, pushed items come out in the order
/// they went in: pushing `s` onto an empty buffer of capacity at least
/// `s.len()` makes `s` the readable contents.
pub proof fn lemma_fifo<T>(s: Seq<T>, cap: nat)
    requires
        s.len() <= cap,
    ensures
        ring_push_all(Seq::<T>::empty(), s, cap) == s,
{
    assert(Seq::<T>::empty() + s =~= s);
}

/// Pushing onto a full buffer keeps its size: the oldest items make room.
pub proof fn lemma_push_all_len<T>(q: Seq<T>, s: Seq<T>, cap: nat)
    ensures
        ring_push_all(q, s, cap).len() == vstd::math::min((q.len() + s.len()) as int, cap as int),
{
}

} // verus!
