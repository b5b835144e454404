//! Circular buffers for sample streams.
//!
//! The storage keeps every element twice, one copy in each half of a
//! doubled backing store, so that any logical range of at most one
//! capacity appears as a single contiguous slice no matter where it
//! wraps.  [`Circ`] is the mirrored store itself; [`Buffer`] adds the
//! read/write cursors and the sample accounting on top of it.
//!
//! The same contiguity is classically had by mapping one region of
//! backing memory twice at adjacent virtual addresses.  This store
//! keeps the two halves equal under a proved invariant instead, so it
//! offers the same zero-copy reads with no memory-mapping tricks and
//! no unsafe code, at the cost of writing each committed sample to
//! both halves.

use vstd::assert_seqs_equal;
use vstd::prelude::*;

use crate::Error;

verus! {

/// One memory page in bytes; buffer sizes must be a multiple of this.
pub const PAGE_SIZE: usize = 4096;

/// Whether `len` (in bytes) is accepted as the size of a ring holding
/// elements of type `T`: a positive multiple of one page and of the
/// element size, small enough that the doubled store can be addressed.
pub open spec fn circ_size_ok<T>(len: usize) -> bool {
    &&& len > 0
    &&& len % PAGE_SIZE == 0
    &&& vstd::layout::size_of::<T>() > 0
    &&& len as nat % vstd::layout::size_of::<T>() == 0
    &&& len <= usize::MAX / 2
}

/// Mirrored backing store for a circular buffer.
///
/// Holds `2 * capacity` elements and keeps the two halves identical:
/// element `i` always equals element `i + capacity`.  A logical range
/// of at most `capacity` elements starting anywhere in the first half
/// is therefore one contiguous slice of the store.
pub struct Circ<T> {
    data: Vec<T>,
    len_bytes: usize,
    cap: usize,
}

impl<T> Circ<T> {
    /// The whole doubled store, both halves: `2 * capacity()` elements.
    pub closed spec fn view(&self) -> Seq<T> {
        self.data@
    }

    /// Capacity in elements: how many samples the ring can hold.
    pub closed spec fn capacity(&self) -> usize {
        self.cap
    }

    /// Size in bytes of one half of the store.
    pub closed spec fn len(&self) -> usize {
        self.len_bytes
    }

    /// Well-formed: the store is doubled and the two halves agree.
    pub closed spec fn wf(&self) -> bool {
        &&& self.data@.len() == 2 * self.cap
        &&& 0 < self.cap
        &&& 2 * self.cap <= usize::MAX
        &&& forall|i: int|
            0 <= i < self.cap ==> #[trigger] self.data@[i] == self.data@[i + self.cap]
    }

    /// The index of the mirror copy of position `i`.
    pub open spec fn mirror(&self, i: int) -> int {
        if i < self.capacity() {
            i + self.capacity()
        } else {
            i - self.capacity()
        }
    }
}

impl<T: Copy + Default> Circ<T> {
    /// Create a mirrored store of `len` bytes per half.
    ///
    /// Succeeds exactly when `len` is a positive page multiple,
    /// divisible by the element size, and small enough to double.
    pub fn new(len: usize) -> (r: Result<Circ<T>, Error>)
        ensures
            circ_size_ok::<T>(len) <==> r is Ok,
            r matches Ok(c) ==> {
                &&& c.wf()
                &&& c.capacity() == len as nat / vstd::layout::size_of::<T>()
                &&& c.len() == len
            },
    {
        let sz = core::mem::size_of::<T>();
        if sz == 0 || len == 0 || len % PAGE_SIZE != 0 || len % sz != 0
            || len > usize::MAX / 2 {
            return Err(Error::new("invalid circular buffer size"));
        }
        let cap = len / sz;
        assert(cap * sz == len) by {
            vstd::arithmetic::div_mod::lemma_fundamental_div_mod(
                len as int, sz as int);
        };
        assert(0 < cap) by (nonlinear_arith)
            requires
                cap * sz == len,
                len > 0,
                sz > 0,
        ;
        let fill = T::default();
        let mut data: Vec<T> = Vec::new();
        let mut i: usize = 0;
        while i < 2 * cap
            invariant
                i <= 2 * cap,
                2 * cap <= usize::MAX,
                data@.len() == i,
                forall|k: int| 0 <= k < i ==> data@[k] == fill,
            decreases 2 * cap - i,
        {
            data.push(fill);
            i += 1;
        }
        Ok(Circ { data, len_bytes: len, cap })
    }
}

impl<T: Copy> Circ<T> {
    /// Number of samples the ring can hold.
    pub fn capacity_samples(&self) -> (c: usize)
        ensures
            c == self.capacity(),
    {
        self.cap
    }

    /// Size in bytes of one half of the store.
    pub fn len_in_bytes(&self) -> (l: usize)
        ensures
            l == self.len(),
    {
        self.len_bytes
    }

    /// The whole doubled store as one slice, both halves.
    pub fn full_buffer(&self) -> (s: &[T])
        ensures
            s@ == self.view(),
    {
        self.data.as_slice()
    }

    /// Store `v` at position `i`, updating both halves so the mirror
    /// property is kept.
    pub fn set(&mut self, i: usize, v: T)
        requires
            old(self).wf(),
            i < 2 * old(self).capacity(),
        ensures
            final(self).wf(),
            final(self).capacity() == old(self).capacity(),
            final(self).len() == old(self).len(),
            final(self).view() == old(self).view()
                .update(i as int, v)
                .update(old(self).mirror(i as int), v),
        no_unwind
    {
        let low = if i < self.cap { i } else { i - self.cap };
        *vstd::std_specs::vec::vec_index_mut(&mut self.data, low) = v;
        *vstd::std_specs::vec::vec_index_mut(&mut self.data, low + self.cap) = v;
        proof {
            assert_seqs_equal!(
                self.view(),
                old(self).view()
                    .update(i as int, v)
                    .update(old(self).mirror(i as int), v)
            );
        }
    }
}

/// Type-aware circular buffer: a mirrored store plus read and write
/// cursors, with all accounting in samples.
///
/// The `used` samples starting at `rpos` are readable, and the
/// `capacity - used` positions after them are writable.  Because the
/// store is mirrored, both regions are single contiguous slices.
pub struct Buffer<T> {
    rpos: usize,
    used: usize,
    circ: Circ<T>,
}

impl<T> Buffer<T> {
    /// Capacity in samples.
    pub closed spec fn spec_capacity(self) -> usize {
        self.circ.capacity()
    }

    /// The whole mirrored store behind this buffer.
    pub closed spec fn store(self) -> Seq<T> {
        self.circ.view()
    }

    /// The committed samples, oldest first: what a consumer may read.
    pub closed spec fn readable(self) -> Seq<T> {
        self.circ.view().subrange(self.rpos as int, self.rpos + self.used)
    }

    /// Where the writable region starts: right after the committed
    /// samples, wrapped back into the first half of the store.
    pub closed spec fn wpos(self) -> int {
        if self.rpos + self.used < self.circ.capacity() {
            self.rpos + self.used as int
        } else {
            self.rpos + self.used - self.circ.capacity()
        }
    }

    /// The free slots in write order: what a producer may fill.
    pub closed spec fn writable(self) -> Seq<T> {
        self.circ.view().subrange(
            self.wpos(),
            self.wpos() + (self.circ.capacity() - self.used),
        )
    }

    /// Cursor invariant: the read cursor stays inside one half of the
    /// store and at most a full capacity of samples is committed.
    #[verifier::type_invariant]
    pub closed spec fn inv(self) -> bool {
        &&& self.circ.wf()
        &&& self.rpos < self.circ.capacity()
        &&& self.used <= self.circ.capacity()
    }
}

impl<T: Copy + Default> Buffer<T> {
    /// Create an empty buffer over `size` bytes of backing store.
    ///
    /// Succeeds exactly when `size` is a positive page multiple,
    /// divisible by the sample size, and small enough to mirror; the
    /// capacity in samples is then `size` divided by the sample size.
    pub fn new(size: usize) -> (r: Result<Buffer<T>, Error>)
        ensures
            circ_size_ok::<T>(size) <==> r is Ok,
            r matches Ok(b) ==> {
                &&& b.spec_capacity() == size as nat / vstd::layout::size_of::<T>()
                &&& b.readable() =~= Seq::<T>::empty()
                &&& b.writable().len() == b.spec_capacity()
            },
    {
        let circ = match Circ::new(size) {
            Ok(c) => c,
            Err(e) => {
                return Err(e);
            },
        };
        let b = Buffer { rpos: 0usize, used: 0usize, circ };
        Ok(b)
    }
}

impl<T: Copy> Buffer<T> {
    /// Capacity in samples.
    pub fn capacity(&self) -> (c: usize)
        ensures
            c == self.spec_capacity(),
    {
        self.circ.capacity_samples()
    }

    /// Number of committed samples waiting to be consumed.
    pub fn used(&self) -> (u: usize)
        ensures
            u == self.readable().len(),
    {
        proof {
            use_type_invariant(&*self);
        }
        self.used
    }

    /// Free space in samples.
    pub fn free(&self) -> (f: usize)
        ensures
            f == self.writable().len(),
    {
        proof {
            use_type_invariant(&*self);
        }
        self.circ.capacity_samples() - self.used
    }

    /// Contiguous write capacity in samples.  The store is mirrored,
    /// so all free space is always writable in one slice.
    pub fn write_capacity(&self) -> (f: usize)
        ensures
            f == self.writable().len(),
    {
        self.free()
    }

    /// The readable region of the store: `end - start` equals the
    /// number of committed samples, and the range never leaves the
    /// doubled store, so the region is one contiguous slice.
    pub fn read_range(&self) -> (r: (usize, usize))
        ensures
            r.0 + self.readable().len() == r.1,
            r.1 <= self.store().len(),
            self.readable() == self.store().subrange(r.0 as int, r.1 as int),
    {
        proof {
            use_type_invariant(&*self);
        }
        (self.rpos, self.rpos + self.used)
    }

    /// The writable region of the store, analogously to `read_range`.
    pub fn write_range(&self) -> (r: (usize, usize))
        ensures
            r.0 + self.writable().len() == r.1,
            r.1 <= self.store().len(),
            self.writable() == self.store().subrange(r.0 as int, r.1 as int),
    {
        proof {
            use_type_invariant(&*self);
        }
        let cap = self.circ.capacity_samples();
        let p = self.rpos + self.used;
        let w = if p >= cap { p - cap } else { p };
        (w, w + (cap - self.used))
    }

    /// The committed samples as one contiguous slice, oldest first.
    pub fn read_buf(&self) -> (s: &[T])
        ensures
            s@ == self.readable(),
    {
        proof {
            use_type_invariant(&*self);
        }
        let (a, b) = self.read_range();
        vstd::slice::slice_subrange(self.circ.full_buffer(), a, b)
    }

    /// The writable slots as one contiguous slice, in write order.
    pub fn write_buf(&self) -> (s: &[T])
        ensures
            s@ == self.writable(),
    {
        proof {
            use_type_invariant(&*self);
        }
        let (a, b) = self.write_range();
        vstd::slice::slice_subrange(self.circ.full_buffer(), a, b)
    }

    /// Store `v` in slot `i` of the writable region.  Readable samples
    /// are untouched; nothing is committed until `produce`.
    pub fn write_at(&mut self, i: usize, v: T)
        requires
            i < old(self).writable().len(),
        ensures
            final(self).spec_capacity() == old(self).spec_capacity(),
            final(self).readable() == old(self).readable(),
            final(self).writable() == old(self).writable().update(i as int, v),
    {
        proof {
            use_type_invariant(&*self);
        }
        let cap = self.circ.capacity_samples();
        let p = self.rpos + self.used;
        let w = if p >= cap { p - cap } else { p };
        let j = w + i;
        self.circ.set(j, v);
        proof {
            assert_seqs_equal!(self.readable(), old(self).readable());
            assert_seqs_equal!(
                self.writable(),
                old(self).writable().update(i as int, v)
            );
        }
    }

    /// Commit `n` samples written to the writable region: they move,
    /// in order, to the end of the readable sequence.
    pub fn produce(&mut self, n: usize)
        requires
            n <= old(self).writable().len(),
        ensures
            final(self).spec_capacity() == old(self).spec_capacity(),
            final(self).readable() == old(self).readable()
                + old(self).writable().take(n as int),
            final(self).writable() == old(self).writable().skip(n as int),
    {
        proof {
            use_type_invariant(&*self);
        }
        self.used = self.used + n;
        proof {
            let c = self.circ.capacity() as int;
            assert_seqs_equal!(
                self.readable(),
                old(self).readable() + old(self).writable().take(n as int),
                k => {
                    if k >= old(self).used {
                        let a = old(self).rpos + k;
                        if a >= c {
                            assert(self.circ.view()[a - c] == self.circ.view()[a]);
                        }
                    }
                }
            );
            assert_seqs_equal!(
                self.writable(),
                old(self).writable().skip(n as int),
                k => {
                    let a = old(self).wpos() + n + k;
                    if a >= c {
                        assert(self.circ.view()[a - c] == self.circ.view()[a]);
                    }
                    if old(self).wpos() + n + k >= c && self.wpos() + k < c {
                        assert(self.circ.view()[self.wpos() + k]
                            == self.circ.view()[self.wpos() + k + c]);
                    }
                }
            );
        }
    }

    /// Release the `n` oldest readable samples, freeing their slots.
    pub fn consume(&mut self, n: usize)
        requires
            n <= old(self).readable().len(),
        ensures
            final(self).spec_capacity() == old(self).spec_capacity(),
            final(self).readable() == old(self).readable().skip(n as int),
            final(self).writable().len() == old(self).writable().len() + n,
            final(self).writable().take(old(self).writable().len() as int)
                == old(self).writable(),
    {
        proof {
            use_type_invariant(&*self);
        }
        let cap = self.circ.capacity_samples();
        let p = self.rpos + n;
        self.rpos = if p >= cap { p - cap } else { p };
        self.used = self.used - n;
        proof {
            let c = self.circ.capacity() as int;
            assert_seqs_equal!(
                self.readable(),
                old(self).readable().skip(n as int),
                k => {
                    let a = old(self).rpos + n + k;
                    if a >= c {
                        assert(self.circ.view()[a - c] == self.circ.view()[a]);
                    }
                }
            );
            assert_seqs_equal!(
                self.writable().take(old(self).writable().len() as int),
                old(self).writable()
            );
        }
    }
}

/// The sample accounting always partitions the capacity: however many
/// produces and consumes have run, `used + free == capacity`, and both
/// counts stay within `[0, capacity]`.
pub proof fn lemma_used_free_partition<T>(b: Buffer<T>)
    requires
        b.inv(),
    ensures
        b.readable().len() + b.writable().len() == b.spec_capacity(),
        b.readable().len() <= b.spec_capacity(),
        b.writable().len() <= b.spec_capacity(),
{
}

/// Committing samples and then releasing the ones that stood before
/// them leaves exactly the committed samples readable: a consumer
/// observes what the producer wrote, in order.
pub proof fn lemma_produce_consume_fifo<T>(prev: Seq<T>, written: Seq<T>)
    ensures
        (prev + written).skip(prev.len() as int) == written,
{
    assert_seqs_equal!((prev + written).skip(prev.len() as int), written);
}

} // verus!
