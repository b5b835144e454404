//! Typed sample streams between blocks.
//!
//! A [`Stream`] wraps one circular [`Buffer`]: the producing block
//! appends samples with [`Stream::write`], the consuming block looks
//! at [`Stream::read_buf`] and releases what it has processed with
//! [`Stream::consume`] or [`Stream::clear`].
//!
//! For dynamic wiring, a stream is carried inside the type-tagged
//! [`StreamType`]; recovering the typed stream checks the tag.

use vstd::assert_seqs_equal;
use vstd::prelude::*;

use crate::circular_buffer::circ_size_ok;
use crate::circular_buffer::Buffer;
use crate::circular_buffer::PAGE_SIZE;
use crate::Error;

verus! {

/// A typed sample stream between one producer and one consumer.
pub struct Stream<T> {
    buf: Buffer<T>,
}

impl<T> Stream<T> {
    /// The samples committed and not yet consumed, oldest first.
    pub closed spec fn readable(self) -> Seq<T> {
        self.buf.readable()
    }

    /// Capacity in samples.
    pub closed spec fn spec_capacity(self) -> usize {
        self.buf.spec_capacity()
    }

    /// Free space in samples.
    pub closed spec fn spec_free(self) -> int {
        self.buf.writable().len() as int
    }
}

impl<T: Copy + Default> Stream<T> {
    /// Create an empty stream over `size` bytes of ring storage.
    /// Succeeds exactly when the circular buffer accepts `size`.
    pub fn new(size: usize) -> (r: Result<Stream<T>, Error>)
        ensures
            circ_size_ok::<T>(size) <==> r is Ok,
            r matches Ok(s) ==> {
                &&& s.spec_capacity() == size as nat / vstd::layout::size_of::<T>()
                &&& s.readable() =~= Seq::<T>::empty()
                &&& s.spec_free() == s.spec_capacity()
            },
    {
        match Buffer::new(size) {
            Ok(buf) => Ok(Stream { buf }),
            Err(e) => Err(e),
        }
    }

    /// Create a one-page stream preloaded with the given samples.
    /// Succeeds exactly when a one-page ring accepts this sample type
    /// and the samples fit.
    pub fn from_slice(data: &[T]) -> (r: Result<Stream<T>, Error>)
        ensures
            r is Ok <==> (circ_size_ok::<T>(PAGE_SIZE)
                && data@.len() <= PAGE_SIZE as nat / vstd::layout::size_of::<T>()),
            r matches Ok(s) ==> s.readable() == data@,
    {
        let mut s = match Stream::new(PAGE_SIZE) {
            Ok(s) => s,
            Err(e) => {
                return Err(e);
            },
        };
        if data.len() > s.free() {
            return Err(Error::new("samples do not fit in one page"));
        }
        let n = s.write(data);
        proof {
            assert_seqs_equal!(s.readable(), data@);
        }
        Ok(s)
    }
}

impl<T: Copy> Stream<T> {
    /// Capacity in samples.
    pub fn capacity(&self) -> (c: usize)
        ensures
            c == self.spec_capacity(),
    {
        self.buf.capacity()
    }

    /// Number of readable samples.
    pub fn len(&self) -> (n: usize)
        ensures
            n == self.readable().len(),
    {
        self.buf.used()
    }

    /// Free space in samples.
    pub fn free(&self) -> (f: usize)
        ensures
            f == self.spec_free(),
    {
        self.buf.free()
    }

    /// Append as many samples from `data` as fit, committing them for
    /// the consumer; returns how many were taken.
    pub fn write(&mut self, data: &[T]) -> (n: usize)
        ensures
            n == if data@.len() <= old(self).spec_free() {
                data@.len() as int
            } else {
                old(self).spec_free()
            },
            final(self).readable() == old(self).readable() + data@.take(n as int),
            final(self).spec_capacity() == old(self).spec_capacity(),
            final(self).spec_free() == old(self).spec_free() - n,
    {
        let free = self.buf.free();
        let n = if data.len() <= free {
            data.len()
        } else {
            free
        };
        let mut k: usize = 0;
        while k < n
            invariant
                k <= n,
                n <= data@.len(),
                n <= self.buf.writable().len(),
                self.buf.spec_capacity() == old(self).buf.spec_capacity(),
                self.buf.readable() == old(self).buf.readable(),
                self.buf.writable().len() == old(self).buf.writable().len(),
                forall|i: int| 0 <= i < k ==> #[trigger] self.buf.writable()[i] == data@[i],
            decreases n - k,
        {
            self.buf.write_at(k, *vstd::slice::slice_index_get(data, k));
            k += 1;
        }
        self.buf.produce(n);
        proof {
            assert_seqs_equal!(
                final(self).readable(),
                old(self).readable() + data@.take(n as int)
            );
        }
        n
    }

    /// Append one sample, committing it for the consumer.
    pub fn push(&mut self, v: T)
        requires
            old(self).spec_free() >= 1,
        ensures
            final(self).readable() == old(self).readable().push(v),
            final(self).spec_capacity() == old(self).spec_capacity(),
            final(self).spec_free() == old(self).spec_free() - 1,
    {
        self.buf.write_at(0, v);
        self.buf.produce(1);
        proof {
            assert_seqs_equal!(
                final(self).readable(),
                old(self).readable().push(v)
            );
        }
    }

    /// The readable samples as one contiguous slice, oldest first.
    pub fn read_buf(&self) -> (s: &[T])
        ensures
            s@ == self.readable(),
    {
        self.buf.read_buf()
    }

    /// Release the `n` oldest readable samples.
    pub fn consume(&mut self, n: usize)
        requires
            n <= old(self).readable().len(),
        ensures
            final(self).readable() == old(self).readable().skip(n as int),
            final(self).spec_capacity() == old(self).spec_capacity(),
            final(self).spec_free() == old(self).spec_free() + n,
    {
        self.buf.consume(n);
    }

    /// Release every readable sample.
    pub fn clear(&mut self)
        ensures
            final(self).readable() =~= Seq::<T>::empty(),
            final(self).spec_capacity() == old(self).spec_capacity(),
            final(self).spec_free() == old(self).spec_free()
                + old(self).readable().len(),
    {
        let n = self.buf.used();
        self.buf.consume(n);
        proof {
            assert_seqs_equal!(final(self).readable(), Seq::<T>::empty());
        }
    }
}

/// The element type a dynamically wired stream carries.
#[derive(Clone, Copy, PartialEq, Eq, Structural, Debug)]
pub enum StreamTag {
    U8,
    U32,
}

/// A type-erased stream handle, tagged with its element type so that
/// wiring mismatches are caught when the typed view is recovered.
pub enum StreamType {
    U8(Stream<u8>),
    U32(Stream<u32>),
}

impl StreamType {
    /// The tag this handle was built with.
    pub open spec fn tag_spec(&self) -> StreamTag {
        match self {
            StreamType::U8(_) => StreamTag::U8,
            StreamType::U32(_) => StreamTag::U32,
        }
    }

    /// The tag this handle was built with.
    pub fn tag(&self) -> (t: StreamTag)
        ensures
            t == self.tag_spec(),
    {
        match self {
            StreamType::U8(_) => StreamTag::U8,
            StreamType::U32(_) => StreamTag::U32,
        }
    }

    /// How many samples wait unconsumed in the carried stream.
    pub open spec fn len_spec(&self) -> nat {
        match self {
            StreamType::U8(s) => s.readable().len(),
            StreamType::U32(s) => s.readable().len(),
        }
    }

    /// How many samples wait unconsumed in the carried stream.
    pub fn stream_len(&self) -> (n: usize)
        ensures
            n == self.len_spec(),
    {
        match self {
            StreamType::U8(s) => s.len(),
            StreamType::U32(s) => s.len(),
        }
    }
}

/// A sample type that dynamically wired streams can carry.  Recovering
/// a typed stream from a [`StreamType`] requires the tag to match.
pub trait Sample: Copy + Sized {
    /// The tag that marks streams of this sample type.
    spec fn tag_of() -> StreamTag;

    /// The tag that marks streams of this sample type.
    fn tag_of_exec() -> (t: StreamTag)
        ensures
            t == Self::tag_of(),
    ;

    /// A handle yields a stream of this type exactly when its tag
    /// matches.
    proof fn lemma_tag_stream(st: StreamType)
        ensures
            Self::stream_of(st) is Some <==> st.tag_spec() == Self::tag_of(),
    ;

    /// The typed stream inside a tagged handle, if the tag matches.
    spec fn stream_of(st: StreamType) -> Option<Stream<Self>>;

    /// The tagged handle around a typed stream.
    spec fn wrap(s: Stream<Self>) -> StreamType;

    /// Wrapping and recovering are inverse to each other.
    proof fn lemma_wrap_stream(s: Stream<Self>)
        ensures
            Self::stream_of(Self::wrap(s)) == Some(s),
            Self::wrap(s).tag_spec() == Self::tag_of(),
    ;

    /// Build a tagged handle around a typed stream.
    fn wrap_exec(s: Stream<Self>) -> (st: StreamType)
        ensures
            st == Self::wrap(s),
    ;

    /// Recover the typed stream behind a tagged handle whose tag is
    /// known to match.
    fn stream_mut(st: &mut StreamType) -> (s: &mut Stream<Self>)
        requires
            Self::stream_of(*old(st)) is Some,
        ensures
            Some(*s) == Self::stream_of(*old(st)),
            *final(st) == Self::wrap(*final(s)),
    ;
}

impl Sample for u8 {
    open spec fn tag_of() -> StreamTag {
        StreamTag::U8
    }

    fn tag_of_exec() -> (t: StreamTag) {
        StreamTag::U8
    }

    proof fn lemma_tag_stream(st: StreamType) {
    }

    open spec fn stream_of(st: StreamType) -> Option<Stream<u8>> {
        match st {
            StreamType::U8(s) => Some(s),
            _ => None,
        }
    }

    open spec fn wrap(s: Stream<u8>) -> StreamType {
        StreamType::U8(s)
    }

    proof fn lemma_wrap_stream(s: Stream<u8>) {
    }

    fn wrap_exec(s: Stream<u8>) -> (st: StreamType) {
        StreamType::U8(s)
    }

    fn stream_mut(st: &mut StreamType) -> (s: &mut Stream<u8>) {
        match st {
            StreamType::U8(s) => s,
            _ => vstd::pervasive::unreached(),
        }
    }
}

impl Sample for u32 {
    open spec fn tag_of() -> StreamTag {
        StreamTag::U32
    }

    fn tag_of_exec() -> (t: StreamTag) {
        StreamTag::U32
    }

    proof fn lemma_tag_stream(st: StreamType) {
    }

    open spec fn stream_of(st: StreamType) -> Option<Stream<u32>> {
        match st {
            StreamType::U32(s) => Some(s),
            _ => None,
        }
    }

    open spec fn wrap(s: Stream<u32>) -> StreamType {
        StreamType::U32(s)
    }

    proof fn lemma_wrap_stream(s: Stream<u32>) {
    }

    fn wrap_exec(s: Stream<u32>) -> (st: StreamType) {
        StreamType::U32(s)
    }

    fn stream_mut(st: &mut StreamType) -> (s: &mut Stream<u32>) {
        match st {
            StreamType::U32(s) => s,
            _ => vstd::pervasive::unreached(),
        }
    }
}

/// The tagged input streams a block reads from during `work`.
pub struct InputStreams {
    streams: Vec<StreamType>,
}

/// The tagged output streams a block writes to during `work`.
pub struct OutputStreams {
    streams: Vec<StreamType>,
}

impl InputStreams {
    /// The tagged handles, in wiring order.
    pub closed spec fn view(&self) -> Seq<StreamType> {
        self.streams@
    }

    /// No input streams.
    pub fn new() -> (r: InputStreams)
        ensures
            r@ =~= Seq::<StreamType>::empty(),
    {
        InputStreams { streams: Vec::new() }
    }

    /// Number of input streams.
    pub fn len(&self) -> (n: usize)
        ensures
            n == self@.len(),
    {
        self.streams.len()
    }

    /// Add a stream at the end of the wiring order.
    pub fn add(&mut self, st: StreamType)
        ensures
            final(self)@ == old(self)@.push(st),
    {
        self.streams.push(st);
    }

    /// Borrow the `n`-th tagged handle.
    pub fn get_mut(&mut self, n: usize) -> (st: &mut StreamType)
        requires
            n < old(self)@.len(),
        ensures
            *st == old(self)@[n as int],
            final(self)@ == old(self)@.update(n as int, *final(st)),
    {
        vstd::std_specs::vec::vec_index_mut(&mut self.streams, n)
    }

    /// The tag of the `n`-th stream.
    pub fn get_tag(&self, n: usize) -> (t: StreamTag)
        requires
            n < self@.len(),
        ensures
            t == self@[n as int].tag_spec(),
    {
        vstd::std_specs::vec::vec_index(&self.streams, n).tag()
    }

    /// Give the tagged handles back, in wiring order.
    pub fn into_streams(self) -> (v: Vec<StreamType>)
        ensures
            v@ == self@,
    {
        self.streams
    }
}

impl OutputStreams {
    /// The tagged handles, in wiring order.
    pub closed spec fn view(&self) -> Seq<StreamType> {
        self.streams@
    }

    /// No output streams.
    pub fn new() -> (r: OutputStreams)
        ensures
            r@ =~= Seq::<StreamType>::empty(),
    {
        OutputStreams { streams: Vec::new() }
    }

    /// Number of output streams.
    pub fn len(&self) -> (n: usize)
        ensures
            n == self@.len(),
    {
        self.streams.len()
    }

    /// Add a stream at the end of the wiring order.
    pub fn add(&mut self, st: StreamType)
        ensures
            final(self)@ == old(self)@.push(st),
    {
        self.streams.push(st);
    }

    /// Borrow the `n`-th tagged handle.
    pub fn get_mut(&mut self, n: usize) -> (st: &mut StreamType)
        requires
            n < old(self)@.len(),
        ensures
            *st == old(self)@[n as int],
            final(self)@ == old(self)@.update(n as int, *final(st)),
    {
        vstd::std_specs::vec::vec_index_mut(&mut self.streams, n)
    }

    /// The tag of the `n`-th stream.
    pub fn get_tag(&self, n: usize) -> (t: StreamTag)
        requires
            n < self@.len(),
        ensures
            t == self@[n as int].tag_spec(),
    {
        vstd::std_specs::vec::vec_index(&self.streams, n).tag()
    }

    /// Give the tagged handles back, in wiring order.
    pub fn into_streams(self) -> (v: Vec<StreamType>)
        ensures
            v@ == self@,
    {
        self.streams
    }
}

} // verus!
