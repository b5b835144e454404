//! The graph scheduler.
//!
//! A [`Graph`] owns an ordered collection of blocks and the streams
//! that connect them, and drives every block's `work` until all
//! blocks have reported end-of-stream and all streams have drained,
//! the [`CancelToken`] is set, or a block fails.  Each block here is
//! wired to at most one input and one output stream, as the sinks,
//! sources and map blocks of this crate are.

use vstd::prelude::*;

use crate::block::{Block, BlockRet};
use crate::circular_buffer::circ_size_ok;
use crate::circular_buffer::PAGE_SIZE;
use crate::debug_sink::DebugSink;
use crate::map_block::{lemma_map_seq_append, map_seq, map_work, MapOne};
use crate::stream::{InputStreams, OutputStreams, Stream, StreamType};
use crate::Error;

verus! {

/// A shared flag used to request graceful termination of a graph run.
pub struct CancelToken {
    cancelled: bool,
}

impl CancelToken {
    /// Whether cancellation has been requested.
    pub closed spec fn is_cancelled_spec(&self) -> bool {
        self.cancelled
    }

    /// The state a token is in once cancellation was requested.
    pub closed spec fn spec_cancel(self) -> CancelToken {
        CancelToken { cancelled: true }
    }

    /// A fresh token: cancellation not requested.
    pub fn new() -> (t: CancelToken)
        ensures
            !t.is_cancelled_spec(),
    {
        CancelToken { cancelled: false }
    }

    /// Request cancellation.  The resulting state does not depend on
    /// the state before, so cancelling is idempotent.
    pub fn cancel(&mut self)
        ensures
            *final(self) == old(self).spec_cancel(),
            final(self).is_cancelled_spec(),
    {
        self.cancelled = true;
    }

    /// Whether cancellation has been requested.
    pub fn is_cancelled(&self) -> (b: bool)
        ensures
            b == self.is_cancelled_spec(),
    {
        self.cancelled
    }
}

/// Cancelling a token twice leaves exactly the state one cancel
/// leaves: calling `cancel` before, during or after other cancels
/// yields the same outcome.
pub proof fn lemma_cancel_idempotent(t: CancelToken)
    ensures
        t.spec_cancel().spec_cancel() == t.spec_cancel(),
        t.spec_cancel().is_cancelled_spec(),
{
}

/// One stream slot of the graph: the stream itself (absent only while
/// it is lent to a running block) and its wiring bookkeeping,
/// including whether the producing side is done for good.
struct StreamSlot {
    stream: Option<StreamType>,
    has_producer: bool,
    has_consumer: bool,
    producer_done: bool,
}

/// One scheduled block with its wiring.  `done` is set when the block
/// reported end-of-stream, or when end-of-stream propagated to it:
/// its producer is done and its input has drained.  `invocations`
/// counts this block's `work` calls, for the run statistics.
struct Entry<B> {
    block: B,
    done: bool,
    input_id: Option<usize>,
    output_id: Option<usize>,
    invocations: u64,
}

/// What a bounded run of the scheduler ended with.
#[derive(Clone, Copy, PartialEq, Eq, Structural, Debug)]
pub enum RunOutcome {
    /// Every block reported end-of-stream and every stream drained.
    Finished,
    /// The cancel token was set; the graph stopped promptly.
    Cancelled,
    /// The round budget ran out first; call `run` again to continue.
    Pending,
}

/// An ordered collection of blocks plus the streams wiring them
/// together and a cancel token.
pub struct Graph<B> {
    entries: Vec<Entry<B>>,
    streams: Vec<StreamSlot>,
    cancel: CancelToken,
    invocations: u64,
}

impl<B> Graph<B> {
    /// Wiring validity: every block's stream ids point at existing
    /// slots, and no block consumes its own output stream.
    pub closed spec fn wf(self) -> bool {
        forall|i: int|
            0 <= i < self.entries@.len() ==> {
                let e = #[trigger] self.entries@[i];
                &&& (e.input_id matches Some(id) ==> id < self.streams@.len())
                &&& (e.output_id matches Some(id) ==> id < self.streams@.len())
                &&& (e.input_id is Some ==> e.input_id != e.output_id)
            }
    }

    /// Whether every stream is in its slot: true between runs, and
    /// whenever no block is being driven.
    pub closed spec fn ready(self) -> bool {
        forall|i: int|
            0 <= i < self.streams@.len() ==> (#[trigger] self.streams@[i].stream) is Some
    }

    /// Whether every block is done: it reported end-of-stream itself,
    /// or end-of-stream propagated to it from upstream.
    pub closed spec fn all_done(self) -> bool {
        forall|i: int|
            0 <= i < self.entries@.len() ==> (#[trigger] self.entries@[i]).done
    }

    /// Whether every stream has drained.
    pub closed spec fn streams_empty(self) -> bool {
        forall|i: int|
            0 <= i < self.streams@.len() ==> ((#[trigger] self.streams@[i].stream) matches Some(
                st,
            ) ==> st.len_spec() == 0)
    }

    /// Whether cancellation has been requested.
    pub closed spec fn is_cancelled(self) -> bool {
        self.cancel.is_cancelled_spec()
    }

    /// How many times the graph has invoked a block's `work`.
    pub closed spec fn invocations_spec(self) -> u64 {
        self.invocations
    }

    /// The graph's cancel token.
    pub closed spec fn token_spec(self) -> CancelToken {
        self.cancel
    }

    /// The same graph with another cancel token.
    pub closed spec fn with_token(self, t: CancelToken) -> Graph<B> {
        Graph { cancel: t, ..self }
    }

    /// The blocks of the graph, in scheduling order.
    pub closed spec fn blocks_spec(self) -> Seq<B> {
        self.entries@.map_values(|e: Entry<B>| e.block)
    }

    /// How many times each block's `work` has been invoked, in
    /// scheduling order.
    pub closed spec fn invocation_counts(self) -> Seq<u64> {
        self.entries@.map_values(|e: Entry<B>| e.invocations)
    }

    /// How many stream slots the graph holds.
    pub closed spec fn n_streams(self) -> nat {
        self.streams@.len()
    }

    /// The stream in slot `id` (absent only while a block is being
    /// driven with it).
    pub closed spec fn stream_at(self, id: int) -> Option<StreamType> {
        self.streams@[id].stream
    }

    /// Whether some block already consumes from slot `id`.
    pub closed spec fn input_claimed(self, id: int) -> bool {
        self.streams@[id].has_consumer
    }

    /// Whether some block already produces into slot `id`.
    pub closed spec fn output_claimed(self, id: int) -> bool {
        self.streams@[id].has_producer
    }

    /// Whether the `i`-th block is done: it reported end-of-stream,
    /// or end-of-stream propagated to it.
    pub closed spec fn done_at(self, i: int) -> bool {
        self.entries@[i].done
    }

    /// Whether a block reading `input_id` and writing `output_id` can
    /// be wired: the ids name existing slots, each stream gets at
    /// most one consumer and one producer, and no block consumes its
    /// own output.
    pub open spec fn wiring_ok(
        self,
        input_id: Option<usize>,
        output_id: Option<usize>,
    ) -> bool {
        &&& (input_id matches Some(id) ==> id < self.n_streams() && !self.input_claimed(
            id as int,
        ))
        &&& (output_id matches Some(id) ==> id < self.n_streams() && !self.output_claimed(
            id as int,
        ))
        &&& (input_id is Some ==> input_id != output_id)
    }
}

impl<B: Block> Graph<B> {
    /// A new graph with no blocks, no streams, and a fresh token.
    pub fn new() -> (g: Graph<B>)
        ensures
            g.wf(),
            g.ready(),
            g.all_done(),
            g.streams_empty(),
            !g.is_cancelled(),
            g.invocations_spec() == 0,
    {
        Graph {
            entries: Vec::new(),
            streams: Vec::new(),
            cancel: CancelToken::new(),
            invocations: 0,
        }
    }

    /// Register a stream: a new slot is appended, holding `st`,
    /// claimed by no producer and no consumer, and the returned id
    /// names it.  Nothing else in the graph changes.
    pub fn add_stream(&mut self, st: StreamType) -> (id: usize)
        ensures
            old(self).wf() ==> final(self).wf(),
            old(self).ready() ==> final(self).ready(),
            final(self).is_cancelled() == old(self).is_cancelled(),
            id == old(self).n_streams(),
            final(self).n_streams() == old(self).n_streams() + 1,
            final(self).stream_at(id as int) == Some(st),
            !final(self).input_claimed(id as int),
            !final(self).output_claimed(id as int),
            forall|j: int|
                0 <= j < old(self).n_streams() ==> {
                    &&& #[trigger] final(self).stream_at(j) == old(self).stream_at(j)
                    &&& final(self).input_claimed(j) == old(self).input_claimed(j)
                    &&& final(self).output_claimed(j) == old(self).output_claimed(j)
                },
            final(self).blocks_spec() == old(self).blocks_spec(),
            final(self).invocation_counts() == old(self).invocation_counts(),
    {
        let id = self.streams.len();
        self.streams.push(
            StreamSlot {
                stream: Some(st),
                has_producer: false,
                has_consumer: false,
                producer_done: false,
            },
        );
        id
    }

    /// Add a block wired to input stream `input_id` and output stream
    /// `output_id` (either may be absent: a source has no input, a
    /// sink no output).  Rejects unknown ids, a block that would
    /// consume its own output, and a stream that already has a
    /// producer or a consumer: every stream is written by exactly one
    /// block and read by exactly one.
    pub fn add(
        &mut self,
        block: B,
        input_id: Option<usize>,
        output_id: Option<usize>,
    ) -> (r: Result<(), Error>)
        ensures
            old(self).wf() ==> final(self).wf(),
            final(self).is_cancelled() == old(self).is_cancelled(),
            old(self).ready() ==> final(self).ready(),
            r is Ok <==> old(self).wiring_ok(input_id, output_id),
            r is Err ==> *final(self) == *old(self),
            r is Ok ==> {
                &&& final(self).blocks_spec() == old(self).blocks_spec().push(block)
                &&& final(self).invocation_counts() == old(self).invocation_counts()
                    .push(0)
                &&& final(self).n_streams() == old(self).n_streams()
                &&& forall|j: int|
                    0 <= j < old(self).n_streams()
                        ==> #[trigger] final(self).stream_at(j) == old(self).stream_at(j)
                &&& (input_id matches Some(id) ==> final(self).input_claimed(id as int))
                &&& (output_id matches Some(id) ==> final(self).output_claimed(id as int))
            },
    {
        let n = self.streams.len();
        if let Some(id) = input_id {
            if id >= n {
                return Err(Error::new("unknown input stream id"));
            }
            if vstd::std_specs::vec::vec_index(&self.streams, id).has_consumer {
                return Err(Error::new("stream already has a consumer"));
            }
        }
        if let Some(id) = output_id {
            if id >= n {
                return Err(Error::new("unknown output stream id"));
            }
            if vstd::std_specs::vec::vec_index(&self.streams, id).has_producer {
                return Err(Error::new("stream already has a producer"));
            }
        }
        if let (Some(a), Some(b)) = (input_id, output_id) {
            if a == b {
                return Err(Error::new("a block may not consume its own output"));
            }
        }
        if let Some(id) = input_id {
            let slot = vstd::std_specs::vec::vec_index_mut(&mut self.streams, id);
            slot.has_consumer = true;
        }
        if let Some(id) = output_id {
            let slot = vstd::std_specs::vec::vec_index_mut(&mut self.streams, id);
            slot.has_producer = true;
        }
        self.entries.push(
            Entry { block, done: false, input_id, output_id, invocations: 0 },
        );
        Ok(())
    }

    /// Set the cancel token: the next scheduler checkpoint stops the
    /// run.  Idempotent, and touches nothing else in the graph.
    pub fn cancel(&mut self)
        ensures
            final(self).is_cancelled(),
            final(self).wf() == old(self).wf(),
            final(self).ready() == old(self).ready(),
            final(self).all_done() == old(self).all_done(),
            final(self).streams_empty() == old(self).streams_empty(),
            final(self).invocations_spec() == old(self).invocations_spec(),
            final(self).blocks_spec() == old(self).blocks_spec(),
            final(self).invocation_counts() == old(self).invocation_counts(),
    {
        self.cancel.cancel();
    }

    /// Whether cancellation has been requested.
    pub fn cancelled(&self) -> (b: bool)
        ensures
            b == self.is_cancelled(),
    {
        self.cancel.is_cancelled()
    }

    /// Borrow the graph's cancel token, to hand to whatever requests
    /// termination; nothing else in the graph changes through it.
    pub fn cancel_token(&mut self) -> (t: &mut CancelToken)
        ensures
            *t == old(self).token_spec(),
            *final(self) == old(self).with_token(*final(t)),
            final(self).wf() == old(self).wf(),
            final(self).ready() == old(self).ready(),
            final(self).all_done() == old(self).all_done(),
            final(self).streams_empty() == old(self).streams_empty(),
            final(self).invocations_spec() == old(self).invocations_spec(),
            final(self).blocks_spec() == old(self).blocks_spec(),
            final(self).invocation_counts() == old(self).invocation_counts(),
            final(self).is_cancelled() == final(t).is_cancelled_spec(),
    {
        &mut self.cancel
    }

    /// How many times the graph has invoked a block's `work`.
    pub fn invocation_count(&self) -> (n: u64)
        ensures
            n == self.invocations_spec(),
    {
        self.invocations
    }

    /// How many blocks the graph holds.
    pub fn n_blocks(&self) -> (n: usize)
        ensures
            n == self.blocks_spec().len(),
    {
        self.entries.len()
    }

    /// Look at the `i`-th block, in scheduling order.
    pub fn block_ref(&self, i: usize) -> (b: &B)
        requires
            i < self.blocks_spec().len(),
        ensures
            b == self.blocks_spec()[i as int],
    {
        &vstd::std_specs::vec::vec_index(&self.entries, i).block
    }

    /// Per-block run statistics: each block's name with how many
    /// times its `work` was invoked, in scheduling order.
    pub fn stats(&self) -> (v: Vec<(&'static str, u64)>)
        ensures
            v@.len() == self.invocation_counts().len(),
            forall|i: int|
                0 <= i < v@.len() ==> (#[trigger] v@[i]).1 == self.invocation_counts()[i],
    {
        let mut v: Vec<(&'static str, u64)> = Vec::new();
        let ne = self.entries.len();
        let mut i: usize = 0;
        while i < ne
            invariant
                i <= ne,
                ne == self.entries@.len(),
                v@.len() == i,
                forall|k: int|
                    0 <= k < i ==> (#[trigger] v@[k]).1 == self.invocation_counts()[k],
            decreases ne - i,
        {
            let e = vstd::std_specs::vec::vec_index(&self.entries, i);
            v.push((e.block.block_name(), e.invocations));
            i += 1;
        }
        v
    }

    /// Drive the blocks round-robin for at most `max_rounds` rounds.
    ///
    /// Stops with `Cancelled` as soon as the token is seen set, with
    /// `Finished` once every block has reported end-of-stream and all
    /// streams have drained, with `Pending` when the budget runs out
    /// first, and with the block's error when a `work` fails.  A
    /// cancelled or already-finished graph returns at once, invoking
    /// no block.
    pub fn run(&mut self, max_rounds: usize) -> (r: Result<RunOutcome, Error>)
        requires
            old(self).wf(),
            old(self).ready(),
        ensures
            final(self).wf(),
            r is Ok ==> final(self).ready(),
            old(self).is_cancelled() ==> ((r matches Ok(RunOutcome::Cancelled))
                && *final(self) == *old(self)),
            !old(self).is_cancelled() && old(self).all_done() && old(self).streams_empty()
                ==> ((r matches Ok(RunOutcome::Finished)) && *final(self) == *old(self)),
            r matches Ok(RunOutcome::Finished) ==> final(self).all_done()
                && final(self).streams_empty(),
            r matches Ok(RunOutcome::Cancelled) ==> final(self).is_cancelled(),
            final(self).invocations_spec() >= old(self).invocations_spec(),
            (r matches Ok(RunOutcome::Pending)) && max_rounds > 0
                && !old(self).all_done()
                && old(self).invocations_spec() < u64::MAX
                ==> final(self).invocations_spec() > old(self).invocations_spec(),
            forall|k: int|
                0 <= k < old(self).blocks_spec().len() && old(self).done_at(k)
                    ==> #[trigger] final(self).done_at(k),
    {
        let mut round: usize = 0;
        loop
            invariant
                self.wf(),
                self.ready(),
                round <= max_rounds,
                round == 0 ==> *self == *old(self),
                round >= 1 ==> !old(self).is_cancelled() && !(old(self).all_done()
                    && old(self).streams_empty()),
                self.invocations_spec() >= old(self).invocations_spec(),
                self.blocks_spec().len() == old(self).blocks_spec().len(),
                round >= 1 && !old(self).all_done()
                    && old(self).invocations_spec() < u64::MAX
                    ==> self.invocations_spec() > old(self).invocations_spec(),
                forall|k: int|
                    0 <= k < old(self).blocks_spec().len() && old(self).done_at(k)
                        ==> #[trigger] self.done_at(k),
            decreases max_rounds - round,
        {
            if self.cancelled() {
                return Ok(RunOutcome::Cancelled);
            }
            if self.finished() {
                return Ok(RunOutcome::Finished);
            }
            if round >= max_rounds {
                return Ok(RunOutcome::Pending);
            }
            match self.run_round() {
                Ok(()) => {},
                Err(e) => {
                    return Err(e);
                },
            }
            round += 1;
        }
    }

    /// Whether every block is done and every stream has drained.
    fn finished(&self) -> (b: bool)
        requires
            self.ready(),
        ensures
            b == (self.all_done() && self.streams_empty()),
    {
        let mut i: usize = 0;
        let ne = self.entries.len();
        while i < ne
            invariant
                i <= ne,
                ne == self.entries@.len(),
                forall|k: int| 0 <= k < i ==> (#[trigger] self.entries@[k]).done,
            decreases ne - i,
        {
            if !vstd::std_specs::vec::vec_index(&self.entries, i).done {
                return false;
            }
            i += 1;
        }
        let mut j: usize = 0;
        let ns = self.streams.len();
        while j < ns
            invariant
                j <= ns,
                ns == self.streams@.len(),
                self.ready(),
                forall|k: int|
                    0 <= k < j ==> ((#[trigger] self.streams@[k].stream) matches Some(st)
                        ==> st.len_spec() == 0),
            decreases ns - j,
        {
            let slot = vstd::std_specs::vec::vec_index(&self.streams, j);
            match &slot.stream {
                Some(st) => {
                    if st.stream_len() != 0 {
                        return false;
                    }
                },
                None => {
                    proof {
                        assert(false);
                    }
                },
            }
            j += 1;
        }
        true
    }

    /// One scheduler round: call `work` on every block not yet done,
    /// lending it its wired streams, then propagate end-of-stream:
    /// a block whose producer is done and whose input has drained is
    /// itself done, and its own output is then done too.  A round
    /// invokes at least one block unless every block is already done,
    /// and blocks never come back from being done.
    fn run_round(&mut self) -> (r: Result<(), Error>)
        requires
            old(self).wf(),
            old(self).ready(),
        ensures
            final(self).wf(),
            r is Ok ==> final(self).ready(),
            final(self).blocks_spec().len() == old(self).blocks_spec().len(),
            final(self).invocations_spec() >= old(self).invocations_spec(),
            !old(self).all_done() && old(self).invocations_spec() < u64::MAX
                ==> final(self).invocations_spec() > old(self).invocations_spec(),
            forall|k: int|
                0 <= k < old(self).blocks_spec().len() && old(self).done_at(k)
                    ==> #[trigger] final(self).done_at(k),
    {
        let ne = self.entries.len();
        let mut i: usize = 0;
        while i < ne
            invariant
                i <= ne,
                ne == self.entries@.len(),
                ne == old(self).entries@.len(),
                self.wf(),
                self.ready(),
                self.invocations_spec() >= old(self).invocations_spec(),
                forall|k: int|
                    i <= k < ne ==> (#[trigger] self.entries@[k]).done
                        == old(self).entries@[k].done,
                forall|k: int|
                    0 <= k < ne && old(self).entries@[k].done
                        ==> (#[trigger] self.entries@[k]).done,
                forall|k: int|
                    0 <= k < i && !old(self).entries@[k].done
                        && old(self).invocations_spec() < u64::MAX
                        ==> self.invocations_spec() > old(self).invocations_spec(),
            decreases ne - i,
        {
            let done = vstd::std_specs::vec::vec_index(&self.entries, i).done;
            let input_id = vstd::std_specs::vec::vec_index(&self.entries, i).input_id;
            let output_id = vstd::std_specs::vec::vec_index(&self.entries, i).output_id;
            if !done {
                let mut ins = InputStreams::new();
                let mut outs = OutputStreams::new();
                if let Some(id) = input_id {
                    let slot = vstd::std_specs::vec::vec_index_mut(&mut self.streams, id);
                    match slot.stream.take() {
                        Some(st) => ins.add(st),
                        None => {
                            proof {
                                assert(false);
                            }
                        },
                    }
                }
                if let Some(id) = output_id {
                    let slot = vstd::std_specs::vec::vec_index_mut(&mut self.streams, id);
                    match slot.stream.take() {
                        Some(st) => outs.add(st),
                        None => {
                            proof {
                                assert(false);
                            }
                        },
                    }
                }
                let entry = vstd::std_specs::vec::vec_index_mut(&mut self.entries, i);
                let res = entry.block.work(&mut ins, &mut outs);
                entry.invocations = if entry.invocations < u64::MAX {
                    entry.invocations + 1
                } else {
                    entry.invocations
                };
                if let Ok(BlockRet::EOF) = res {
                    entry.done = true;
                }
                let mut ins_back = ins.into_streams();
                if let Some(id) = input_id {
                    match ins_back.pop() {
                        Some(st) => {
                            let slot = vstd::std_specs::vec::vec_index_mut(
                                &mut self.streams,
                                id,
                            );
                            slot.stream = Some(st);
                        },
                        None => {
                            proof {
                                assert(false);
                            }
                        },
                    }
                }
                let mut outs_back = outs.into_streams();
                if let Some(id) = output_id {
                    match outs_back.pop() {
                        Some(st) => {
                            let slot = vstd::std_specs::vec::vec_index_mut(
                                &mut self.streams,
                                id,
                            );
                            slot.stream = Some(st);
                        },
                        None => {
                            proof {
                                assert(false);
                            }
                        },
                    }
                }
                self.invocations = if self.invocations < u64::MAX {
                    self.invocations + 1
                } else {
                    self.invocations
                };
                if let Err(e) = res {
                    proof {
                        assert(self.blocks_spec().len() == old(self).blocks_spec().len());
                        assert(forall|k: int|
                            0 <= k < old(self).blocks_spec().len() && old(self).done_at(k)
                                ==> #[trigger] self.done_at(k));
                    }
                    return Err(e);
                }
                if let Some(id) = input_id {
                    let upstream_done = vstd::std_specs::vec::vec_index(
                        &self.streams,
                        id,
                    ).producer_done;
                    let drained = match &vstd::std_specs::vec::vec_index(
                        &self.streams,
                        id,
                    ).stream {
                        Some(st) => st.stream_len() == 0,
                        None => false,
                    };
                    if upstream_done && drained {
                        let entry = vstd::std_specs::vec::vec_index_mut(
                            &mut self.entries,
                            i,
                        );
                        entry.done = true;
                    }
                }
                let now_done = vstd::std_specs::vec::vec_index(&self.entries, i).done;
                if now_done {
                    if let Some(id) = output_id {
                        let slot = vstd::std_specs::vec::vec_index_mut(
                            &mut self.streams,
                            id,
                        );
                        slot.producer_done = true;
                    }
                }
            }
            i += 1;
        }
        Ok(())
    }
}

/// Run a linear chain Source → Map → Sink to completion: every
/// sample of `xs`, mapped through the hook `m`, reaches the sink, in
/// order and nothing else, and the run ends once the source is
/// exhausted and the streams have drained.  The chain moves the data
/// in bounded rounds of at most one ring capacity each, so sequences
/// of any length flow through the fixed-size streams.
pub fn run_chain<T: Copy + Default, M: MapOne<T, T>>(
    xs: &[T],
    m: &mut M,
    sink: &mut DebugSink<T>,
) -> (r: Result<(), Error>)
    ensures
        circ_size_ok::<T>(PAGE_SIZE) <==> r is Ok,
        r is Ok ==> ({
            let mapped = map_seq(*old(m), xs@);
            &&& *final(m) == mapped.0
            &&& final(sink)@ == old(sink)@ + mapped.1
        }),
{
    let mut s1 = match Stream::<T>::new(PAGE_SIZE) {
        Ok(s) => s,
        Err(e) => {
            return Err(e);
        },
    };
    let mut s2 = match Stream::<T>::new(PAGE_SIZE) {
        Ok(s) => s,
        Err(e) => {
            return Err(e);
        },
    };
    let cap = s1.capacity();
    proof {
        let sz = vstd::layout::size_of::<T>() as int;
        if sz > PAGE_SIZE as int {
            vstd::arithmetic::div_mod::lemma_small_mod(
                PAGE_SIZE as nat,
                vstd::layout::size_of::<T>(),
            );
        }
        assert(PAGE_SIZE as int / sz >= 1) by (nonlinear_arith)
            requires
                0 < sz <= PAGE_SIZE as int,
        ;
    }
    let total = xs.len();
    let mut off: usize = 0;
    proof {
        assert(xs@.take(0) =~= Seq::<T>::empty());
        assert(old(sink)@ + map_seq(*old(m), Seq::<T>::empty()).1 =~= old(sink)@);
    }
    while off < total
        invariant
            off <= total,
            total == xs@.len(),
            cap >= 1,
            s1.spec_capacity() == cap,
            s2.spec_capacity() == cap,
            s1.readable().len() == 0,
            s2.readable().len() == 0,
            s1.spec_free() == cap,
            s2.spec_free() == cap,
            ({
                let mapped = map_seq(*old(m), xs@.take(off as int));
                &&& *m == mapped.0
                &&& sink@ == old(sink)@ + mapped.1
            }),
        decreases total - off,
    {
        let chunk = vstd::slice::slice_subrange(xs, off, total);
        let wrote = s1.write(chunk);
        proof {
            assert(s1.readable() =~= xs@.subrange(off as int, off + wrote));
        }
        let n = map_work(m, &mut s1, &mut s2);
        sink.drain(&mut s2);
        proof {
            let pre = map_seq(*old(m), xs@.take(off as int));
            lemma_map_seq_append(
                *old(m),
                xs@.take(off as int),
                xs@.subrange(off as int, off + wrote),
            );
            assert(xs@.take(off as int) + xs@.subrange(off as int, off + wrote)
                =~= xs@.take(off + wrote));
            let step = map_seq(pre.0, xs@.subrange(off as int, off + wrote));
            assert(xs@.subrange(off as int, off + wrote).take(n as int)
                =~= xs@.subrange(off as int, off + wrote));
            crate::map_block::lemma_map_seq_len(
                pre.0,
                xs@.subrange(off as int, off + wrote),
            );
            assert((old(sink)@ + pre.1) + step.1 =~= old(sink)@ + (pre.1 + step.1));
        }
        off += wrote;
    }
    proof {
        assert(xs@.take(total as int) =~= xs@);
    }
    Ok(())
}

} // verus!
