//! Fixed-capacity ring of samples between the side that decodes and the side
//! that mixes. Positions run on as `usize` counters that wrap around; a
//! position is stored in slot `position % capacity`.
use vstd::prelude::*;
use vstd::wrapping::usize_specs::{wrapping_add, wrapping_sub};

verus! {

/// `a` and `b` lie less than `m` apart, so they fall in different slots.
proof fn lemma_mod_distinct(a: int, b: int, m: int)
    requires
        0 <= a < b < a + m,
        0 < m,
    ensures
        a % m != b % m,
{
    assert(a % m != b % m) by (nonlinear_arith)
        requires
            0 <= a < b < a + m,
            0 < m,
    ;
}

/// Slot of the position `k` places after `base`, counted without wrapping.
spec fn pos_slot(base: int, k: int, cap: int) -> int {
    (base + k) % cap
}

/// A ring of `capacity` samples, with a read position and a write position.
pub struct SampleRing<T> {
    data: Vec<T>,
    capacity: usize,
    read_index: usize,
    write_index: usize,
}

impl<T> SampleRing<T> {
    /// Number of slots.
    pub closed spec fn spec_capacity(&self) -> usize {
        self.capacity
    }

    /// Position of the next sample to read.
    pub closed spec fn spec_read_index(&self) -> usize {
        self.read_index
    }

    /// Position of the next sample to write.
    pub closed spec fn spec_write_index(&self) -> usize {
        self.write_index
    }

    /// The ring has slots, its storage has one per slot, and it never holds
    /// more samples than it has slots.
    pub closed spec fn wf(&self) -> bool {
        &&& self.capacity > 0
        &&& self.data@.len() == self.capacity
        &&& wrapping_sub(self.write_index, self.read_index) <= self.capacity
    }

    /// Number of samples held.
    pub open spec fn spec_len(&self) -> nat {
        wrapping_sub(self.spec_write_index(), self.spec_read_index()) as nat
    }

    /// Slot of the sample `k` places after the read position.
    closed spec fn slot_after_read(&self, k: int) -> int {
        (wrapping_add(self.read_index, k as usize) % self.capacity) as int
    }

    /// The next `capacity` positions from the read position stay below the
    /// end of the `usize` range, so none of them wraps around.
    pub open spec fn no_index_wrap(&self) -> bool {
        self.spec_read_index() + self.spec_capacity() <= usize::MAX + 1
    }
}

impl<T> View for SampleRing<T> {
    type V = Seq<T>;

    /// The samples held, oldest first.
    closed spec fn view(&self) -> Seq<T> {
        Seq::new(self.spec_len(), |k: int| self.data@[self.slot_after_read(k)])
    }
}

impl<T: Copy> SampleRing<T> {
    /// An empty ring of `capacity` slots, each filled with `fill`.
    pub fn new(capacity: usize, fill: T) -> (r: Self)
        requires
            capacity > 0,
        ensures
            r.wf(),
            r.spec_capacity() == capacity,
            r.spec_read_index() == 0,
            r.spec_write_index() == 0,
            r@ == Seq::<T>::empty(),
    {
        let mut data: Vec<T> = Vec::new();
        while data.len() < capacity
            invariant
                data.len() <= capacity,
            decreases capacity - data.len(),
        {
            data.push(fill);
        }
        let r = SampleRing { data, capacity, read_index: 0, write_index: 0 };
        assert(r@ =~= Seq::<T>::empty());
        r
    }

    /// Number of slots.
    pub fn capacity(&self) -> (c: usize)
        ensures
            c == self.spec_capacity(),
    {
        self.capacity
    }

    /// Number of samples that can be read.
    pub fn available_read(&self) -> (n: usize)
        requires
            self.wf(),
        ensures
            n == self.spec_len(),
            n == self@.len(),
            n <= self.spec_capacity(),
    {
        let held = self.write_index.wrapping_sub(self.read_index);
        if held < self.capacity {
            held
        } else {
            self.capacity
        }
    }

    /// Number of samples that can be written.
    pub fn available_write(&self) -> (n: usize)
        requires
            self.wf(),
        ensures
            n == self.spec_capacity() - self@.len(),
    {
        self.capacity - self.available_read()
    }

    /// Write as many of `samples` as there is room for, in order, and return
    /// how many were written.
    ///
    /// The count and the positions are exact in every state. Where no
    /// position wraps around (`no_index_wrap`), the samples held afterwards
    /// are those held before followed by the ones written.
    pub fn write(&mut self, samples: &[T]) -> (count: usize)
        requires
            old(self).wf(),
        ensures
            final(self).wf(),
            count == (if samples@.len() < old(self).spec_capacity() - old(self)@.len() {
                samples@.len() as int
            } else {
                old(self).spec_capacity() - old(self)@.len()
            }),
            final(self).spec_capacity() == old(self).spec_capacity(),
            final(self).spec_read_index() == old(self).spec_read_index(),
            final(self).spec_write_index() == wrapping_add(
                old(self).spec_write_index(),
                count,
            ),
            final(self)@.len() == old(self)@.len() + count,
            old(self).no_index_wrap() ==> final(self)@ == old(self)@ + samples@.subrange(
                0,
                count as int,
            ),
    {
        let ghost old_data = self.data@;
        let ghost len = self@.len();
        let write = self.write_index;
        let read = self.read_index;
        let held = write.wrapping_sub(read);
        let available = self.capacity - if held < self.capacity {
            held
        } else {
            self.capacity
        };
        let count = if samples.len() < available {
            samples.len()
        } else {
            available
        };
        let cap = self.capacity;
        let mut offset: usize = 0;
        while offset < count
            invariant
                cap == self.capacity,
                cap > 0,
                self.data@.len() == cap,
                self.read_index == read,
                self.write_index == write,
                held == wrapping_sub(write, read),
                held == len,
                len + count <= cap,
                count <= samples@.len(),
                offset <= count,
                old_data.len() == cap,
                read + cap <= usize::MAX + 1 ==> forall|k: int|
                    0 <= k < offset ==> #[trigger] self.data@[pos_slot(write as int, k, cap as int)]
                        == samples@[k],
                read + cap <= usize::MAX + 1 ==> forall|j: int|
                    0 <= j < len ==> #[trigger] self.data@[pos_slot(read as int, j, cap as int)]
                        == old_data[pos_slot(read as int, j, cap as int)],
            decreases count - offset,
        {
            let index = write.wrapping_add(offset) % cap;
            proof {
                if read + cap <= usize::MAX + 1 {
                    assert(write == read + held);
                    assert(index == pos_slot(write as int, offset as int, cap as int));
                    assert forall|k: int| 0 <= k < offset implies #[trigger] pos_slot(write as int, k, cap as int)
                        != pos_slot(write as int, offset as int, cap as int) by {
                        lemma_mod_distinct(write + k, write + offset, cap as int);
                    }
                    assert forall|j: int| 0 <= j < len implies #[trigger] pos_slot(read as int, j, cap as int)
                        != pos_slot(write as int, offset as int, cap as int) by {
                        lemma_mod_distinct(read + j, write + offset, cap as int);
                    }
                }
            }
            self.data.set(index, samples[offset]);
            offset = offset + 1;
        }
        self.write_index = write.wrapping_add(count);
        proof {
            assert(wrapping_sub(self.write_index, read) == len + count);
            if read + cap <= usize::MAX + 1 {
                let expected = old(self)@ + samples@.subrange(0, count as int);
                assert forall|k: int| 0 <= k < len + count implies #[trigger] self@[k]
                    == expected[k] by {
                    assert(wrapping_add(read, k as usize) == read + k);
                    if k < len {
                        assert(old(self)@[k] == old_data[pos_slot(read as int, k, cap as int)]);
                    } else {
                        assert(pos_slot(read as int, k, cap as int) == pos_slot(write as int, k - len, cap as int));
                        assert(self.data@[pos_slot(write as int, k - len, cap as int)] == samples@[k - len]);
                    }
                }
                assert(self@ =~= expected);
            }
        }
        count
    }

    /// Read up to `output.len()` samples, oldest first, into the front of
    /// `output`, and return how many were read; the rest of `output` is left
    /// as it was.
    pub fn read(&mut self, output: &mut [T]) -> (count: usize)
        requires
            old(self).wf(),
        ensures
            final(self).wf(),
            count == (if old(output)@.len() < old(self)@.len() {
                old(output)@.len() as int
            } else {
                old(self)@.len() as int
            }),
            final(output)@.len() == old(output)@.len(),
            final(output)@.subrange(0, count as int) == old(self)@.subrange(0, count as int),
            final(output)@.subrange(count as int, old(output)@.len() as int) == old(
                output,
            )@.subrange(count as int, old(output)@.len() as int),
            final(self)@ == old(self)@.subrange(count as int, old(self)@.len() as int),
            final(self).spec_capacity() == old(self).spec_capacity(),
            final(self).spec_write_index() == old(self).spec_write_index(),
            final(self).spec_read_index() == wrapping_add(old(self).spec_read_index(), count),
    {
        let ghost before = self@;
        let ghost out0 = output@;
        let read = self.read_index;
        let write = self.write_index;
        let held = write.wrapping_sub(read);
        let available = if held < self.capacity {
            held
        } else {
            self.capacity
        };
        let count = if output.len() < available {
            output.len()
        } else {
            available
        };
        let cap = self.capacity;
        let mut offset: usize = 0;
        while offset < count
            invariant
                cap == self.capacity,
                cap > 0,
                self.data@.len() == cap,
                self.read_index == read,
                self.write_index == write,
                before == self@,
                before.len() == held,
                count <= held,
                count <= out0.len(),
                output@.len() == out0.len(),
                offset <= count,
                forall|k: int| 0 <= k < offset ==> #[trigger] output@[k] == before[k],
                forall|k: int| offset <= k < out0.len() ==> #[trigger] output@[k] == out0[k],
            decreases count - offset,
        {
            let index = read.wrapping_add(offset) % cap;
            assert(before[offset as int] == self.data@[index as int]);
            output[offset] = self.data[index];
            offset = offset + 1;
        }
        self.read_index = read.wrapping_add(count);
        proof {
            assert(output@.subrange(0, count as int) =~= before.subrange(0, count as int));
            assert(output@.subrange(count as int, out0.len() as int) =~= out0.subrange(
                count as int,
                out0.len() as int,
            ));
            let expected = before.subrange(count as int, before.len() as int);
            assert(wrapping_sub(write, self.read_index) == held - count);
            assert forall|k: int| 0 <= k < held - count implies #[trigger] self@[k]
                == expected[k] by {
                assert(wrapping_add(self.read_index, k as usize) == wrapping_add(
                    read,
                    (count + k) as usize,
                ));
            }
            assert(self@ =~= expected);
        }
        count
    }
}

/// Every sample written is read back once, in order: where no position
/// wraps around, what a read returns after a write, followed by what the
/// ring still holds, is what it held before followed by what was written.
pub proof fn lemma_ring_fifo<T>(
    before: SampleRing<T>,
    samples: Seq<T>,
    written: nat,
    after_write: SampleRing<T>,
    out: Seq<T>,
    after_read: SampleRing<T>,
)
    requires
        before.wf(),
        before.no_index_wrap(),
        written <= samples.len(),
        after_write@ == before@ + samples.subrange(0, written as int),
        out.len() <= after_write@.len(),
        out == after_write@.subrange(0, out.len() as int),
        after_read@ == after_write@.subrange(out.len() as int, after_write@.len() as int),
    ensures
        out + after_read@ == before@ + samples.subrange(0, written as int),
        out.len() <= before@.len() ==> out == before@.subrange(0, out.len() as int),
{
    assert(out + after_read@ =~= after_write@);
    if out.len() <= before@.len() {
        assert(out =~= before@.subrange(0, out.len() as int));
    }
}

} // verus!
