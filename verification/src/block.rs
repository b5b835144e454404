//! The block contract.
//!
//! Blocks are the processing nodes of the framework.  Each does one
//! thing, and blocks are connected with streams to process the data.
//! The scheduler repeatedly calls [`Block::work`] until every block
//! has reported end-of-stream and all data has drained.

use vstd::prelude::*;

use crate::stream::{InputStreams, OutputStreams, Sample, Stream};
use crate::Error;

verus! {

/// Return type for all blocks: tells the scheduler whether more data
/// could still come out of this block.
#[derive(Clone, Copy, PartialEq, Eq, Structural, Debug)]
pub enum BlockRet {
    /// The normal return: schedule this block again, more data may or
    /// may not be coming.
    Again,
    /// The block will never produce more output: for example a file
    /// source that reached the end of its file.
    EOF,
}

/// The contract every block implements.
///
/// `work` reads a prefix of each input stream, writes zero or more
/// samples to each output stream (bounded by the writable space), and
/// consumes from the inputs exactly what it processed.  It must not
/// block: when no progress is possible it returns `BlockRet::Again`
/// and lets the scheduler try again after upstream progress.
pub trait Block {
    /// Descriptive name of the block (not of the instance), for
    /// diagnostics.
    fn block_name(&self) -> &'static str;

    /// Process available input, produce output, and report whether
    /// more data could ever follow.  A block works on the streams it
    /// was wired to: it never adds or removes streams.
    fn work(&mut self, r: &mut InputStreams, w: &mut OutputStreams) -> (ret: Result<
        BlockRet,
        Error,
    >)
        ensures
            final(r)@.len() == old(r)@.len(),
            final(w)@.len() == old(w)@.len(),
    ;
}

/// Get input stream `n`, cast into the requested sample type.
///
/// The wiring must carry a matching tag: a mismatch is a programming
/// error, which this contract rules out.
pub fn get_input<T: Sample>(r: &mut InputStreams, n: usize) -> (s: &mut Stream<T>)
    requires
        n < old(r)@.len(),
        T::stream_of(old(r)@[n as int]) is Some,
    ensures
        Some(*s) == T::stream_of(old(r)@[n as int]),
        final(r)@ == old(r)@.update(n as int, T::wrap(*final(s))),
{
    T::stream_mut(r.get_mut(n))
}

/// Get output stream `n`, cast into the requested sample type.
///
/// The wiring must carry a matching tag: a mismatch is a programming
/// error, which this contract rules out.
pub fn get_output<T: Sample>(w: &mut OutputStreams, n: usize) -> (s: &mut Stream<T>)
    requires
        n < old(w)@.len(),
        T::stream_of(old(w)@[n as int]) is Some,
    ensures
        Some(*s) == T::stream_of(old(w)@[n as int]),
        final(w)@ == old(w)@.update(n as int, T::wrap(*final(s))),
{
    T::stream_mut(w.get_mut(n))
}

} // verus!
