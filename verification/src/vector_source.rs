//! A source block that emits a fixed sequence of samples.
//!
//! Useful to feed a graph from memory: the block writes as much of
//! its remaining data as the output stream accepts each round, and
//! reports end-of-stream once everything has been emitted.

use vstd::prelude::*;

use crate::block::{Block, BlockRet};
use crate::stream::{InputStreams, OutputStreams, Sample};
use crate::Error;

verus! {

/// Source block emitting a fixed sequence of samples, then
/// end-of-stream.
pub struct VectorSource<T> {
    data: Vec<T>,
    pos: usize,
}

impl<T> VectorSource<T> {
    /// The whole sequence this source emits.
    pub closed spec fn view(&self) -> Seq<T> {
        self.data@
    }

    /// How many samples have been emitted so far.
    pub closed spec fn pos_spec(&self) -> int {
        self.pos as int
    }

    /// The emit cursor never passes the end of the data.
    #[verifier::type_invariant]
    pub closed spec fn inv(self) -> bool {
        self.pos <= self.data@.len()
    }
}

impl<T: Copy> VectorSource<T> {
    /// A source that will emit exactly `data`, in order.
    pub fn new(data: Vec<T>) -> (s: VectorSource<T>)
        ensures
            s@ == data@,
            s.pos_spec() == 0,
    {
        VectorSource { data, pos: 0 }
    }

    /// How many samples are still to be emitted.
    pub fn remaining(&self) -> (n: usize)
        ensures
            n == self@.len() - self.pos_spec(),
    {
        proof {
            use_type_invariant(&*self);
        }
        self.data.len() - self.pos
    }
}

impl<T: Sample> Block for VectorSource<T> {
    fn block_name(&self) -> &'static str {
        "VectorSource"
    }

    /// Emit as much of the remaining data as the output stream
    /// accepts; report end-of-stream once all of it is out.  Succeeds
    /// exactly when the wiring carries a first output stream of the
    /// matching tag.
    fn work(&mut self, r: &mut InputStreams, w: &mut OutputStreams) -> (ret: Result<
        BlockRet,
        Error,
    >)
        ensures
            ret is Ok <==> (old(w)@.len() >= 1 && old(w)@[0].tag_spec() == T::tag_of()),
            ret is Err ==> *final(self) == *old(self),
            final(self)@ == old(self)@,
            ret is Ok ==> ((T::stream_of(old(w)@[0]) matches Some(s0) && {
                let n = vstd::math::min(
                    old(self)@.len() - old(self).pos_spec(),
                    s0.spec_free(),
                );
                &&& final(self).pos_spec() == old(self).pos_spec() + n
                &&& (T::stream_of(final(w)@[0]) matches Some(s1)
                    && s1.readable() == s0.readable() + old(self)@.subrange(
                        old(self).pos_spec(),
                        old(self).pos_spec() + n,
                    ))
                &&& ((ret matches Ok(BlockRet::EOF)) <==> old(self).pos_spec() + n
                    == old(self)@.len())
            })),
    {
        if w.len() < 1 {
            return Err(Error::new("VectorSource needs one output stream"));
        }
        if w.get_tag(0) != T::tag_of_exec() {
            return Err(Error::new("VectorSource wired to a stream of the wrong type"));
        }
        proof {
            T::lemma_tag_stream(w@[0]);
            use_type_invariant(&*self);
        }
        let dst = crate::block::get_output::<T>(w, 0);
        let total = self.data.len();
        let chunk = vstd::slice::slice_subrange(self.data.as_slice(), self.pos, total);
        let n = dst.write(chunk);
        self.pos = self.pos + n;
        proof {
            T::lemma_wrap_stream(*dst);
            assert(old(self)@.subrange(
                old(self).pos_spec(),
                old(self)@.len() as int,
            ).take(n as int) =~= old(self)@.subrange(
                old(self).pos_spec(),
                old(self).pos_spec() + n,
            ));
        }
        if self.pos == total {
            Ok(BlockRet::EOF)
        } else {
            Ok(BlockRet::Again)
        }
    }
}

} // verus!
