//! A sink that records every sample it sees, for debugging.
//!
//! The recorded samples can be inspected, or printed by an outer
//! program; the sink itself only drains its input stream.

use vstd::assert_seqs_equal;
use vstd::prelude::*;

use crate::block::{Block, BlockRet};
use crate::stream::{InputStreams, OutputStreams, Sample, Stream};
use crate::Error;

verus! {

/// Sink block that consumes its input stream and keeps the samples it
/// observed, in arrival order.
pub struct DebugSink<T> {
    seen: Vec<T>,
}

impl<T> DebugSink<T> {
    /// Every sample this sink has observed, oldest first.
    pub closed spec fn view(&self) -> Seq<T> {
        self.seen@
    }
}

impl<T: Copy> DebugSink<T> {
    /// Create a new debug sink that has observed nothing.
    pub fn new() -> (r: DebugSink<T>)
        ensures
            r@ =~= Seq::<T>::empty(),
    {
        DebugSink { seen: Vec::new() }
    }

    /// The samples observed so far, oldest first.
    pub fn seen(&self) -> (s: &Vec<T>)
        ensures
            s@ == self@,
    {
        &self.seen
    }

    /// Append every readable sample of `src` to the record and
    /// consume all of them.
    pub fn drain(&mut self, src: &mut Stream<T>)
        ensures
            final(self)@ == old(self)@ + old(src).readable(),
            final(src).readable() =~= Seq::<T>::empty(),
            final(src).spec_capacity() == old(src).spec_capacity(),
            final(src).spec_free() == old(src).spec_free()
                + old(src).readable().len(),
    {
        let buf = src.read_buf();
        let n = buf.len();
        let mut k: usize = 0;
        while k < n
            invariant
                k <= n,
                n == src.readable().len(),
                src == old(src),
                self.seen@ == old(self).seen@ + src.readable().take(k as int),
            decreases n - k,
        {
            let s = src.read_buf();
            self.seen.push(*vstd::slice::slice_index_get(s, k));
            k += 1;
            proof {
                assert_seqs_equal!(
                    self.seen@,
                    old(self).seen@ + src.readable().take(k as int)
                );
            }
        }
        src.consume(n);
        proof {
            assert_seqs_equal!(final(self)@, old(self)@ + old(src).readable());
            assert_seqs_equal!(final(src).readable(), Seq::<T>::empty());
        }
    }
}

impl<T: Sample> Block for DebugSink<T> {
    fn block_name(&self) -> &'static str {
        "DebugSink"
    }

    /// Drain input stream `0`, recording every sample.  Succeeds, with
    /// "schedule me again", exactly when the wiring carries a first
    /// input stream of the matching tag; a sink never writes output.
    fn work(&mut self, r: &mut InputStreams, w: &mut OutputStreams) -> (ret: Result<
        BlockRet,
        Error,
    >)
        ensures
            ret is Ok <==> (old(r)@.len() >= 1 && old(r)@[0].tag_spec() == T::tag_of()),
            ret is Ok ==> (ret matches Ok(BlockRet::Again)),
            ret is Ok ==> ((T::stream_of(old(r)@[0]) matches Some(s)
                && final(self)@ == old(self)@ + s.readable())),
            ret is Ok ==> ((T::stream_of(final(r)@[0]) matches Some(s)
                && s.readable().len() == 0)),
            ret is Err ==> *final(self) == *old(self),
    {
        if r.len() < 1 {
            return Err(Error::new("DebugSink needs one input stream"));
        }
        if r.get_tag(0) != T::tag_of_exec() {
            return Err(Error::new("DebugSink wired to a stream of the wrong type"));
        }
        proof {
            T::lemma_tag_stream(r@[0]);
        }
        let src = crate::block::get_input::<T>(r, 0);
        self.drain(src);
        proof {
            T::lemma_wrap_stream(*src);
        }
        Ok(BlockRet::Again)
    }
}

} // verus!
