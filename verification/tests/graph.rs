//! Tests for the graph scheduler: chains, end-of-stream propagation,
//! cancellation, and wiring checks.

use rustradio::block::{Block, BlockRet};
use rustradio::debug_sink::DebugSink;
use rustradio::graph::{run_chain, CancelToken, Graph, RunOutcome};
use rustradio::map_block::{map_work, AddConst, MapOne};
use rustradio::single_pole_iir_filter::SinglePoleIIRFilter;
use rustradio::stream::{InputStreams, OutputStreams, Stream, StreamType};
use rustradio::vector_source::VectorSource;
use rustradio::Error;

/// The block shapes these tests schedule.
enum TestBlock {
    Source(VectorSource<u32>),
    Iir(SinglePoleIIRFilter<u32>),
    Sink(DebugSink<u32>),
}

impl Block for TestBlock {
    fn block_name(&self) -> &'static str {
        match self {
            TestBlock::Source(b) => b.block_name(),
            TestBlock::Iir(b) => b.block_name(),
            TestBlock::Sink(b) => b.block_name(),
        }
    }

    fn work(
        &mut self,
        r: &mut InputStreams,
        w: &mut OutputStreams,
    ) -> Result<BlockRet, Error> {
        match self {
            TestBlock::Source(b) => b.work(r, w),
            TestBlock::Iir(b) => b.work(r, w),
            TestBlock::Sink(b) => b.work(r, w),
        }
    }
}

fn source_to_sink_graph(data: Vec<u32>) -> Graph<TestBlock> {
    let mut g: Graph<TestBlock> = Graph::new();
    let s = Stream::<u32>::new(4096).unwrap();
    let id = g.add_stream(StreamType::U32(s));
    g.add(TestBlock::Source(VectorSource::new(data)), None, Some(id)).unwrap();
    g.add(TestBlock::Sink(DebugSink::new()), Some(id), None).unwrap();
    g
}

#[test]
fn graph_runs_source_to_sink() {
    let data: Vec<u32> = (0..3000).collect();
    let mut g = source_to_sink_graph(data.clone());
    // EOF propagates: once the source is done and the stream drains,
    // the sink is done too, within a couple of rounds.
    let outcome = g.run(16).unwrap();
    assert_eq!(outcome, RunOutcome::Finished);
    match g.block_ref(1) {
        TestBlock::Sink(sink) => assert_eq!(sink.seen().as_slice(), data.as_slice()),
        _ => panic!("sink expected"),
    }
    // Per-block statistics: both blocks ran, and the counts add up to
    // the graph-wide invocation count.
    let stats = g.stats();
    assert_eq!(stats.len(), 2);
    assert_eq!(stats[0].0, "VectorSource");
    assert_eq!(stats[1].0, "DebugSink");
    assert!(stats[0].1 >= 1);
    assert_eq!(stats[0].1 + stats[1].1, g.invocation_count());
}

#[test]
fn graph_finished_run_invokes_no_block() {
    let mut g = source_to_sink_graph(vec![1, 2, 3]);
    assert_eq!(g.run(16).unwrap(), RunOutcome::Finished);
    let invocations = g.invocation_count();
    // A finished graph returns at once and calls no block again.
    assert_eq!(g.run(16).unwrap(), RunOutcome::Finished);
    assert_eq!(g.invocation_count(), invocations);
}

#[test]
fn graph_cancel_before_run() {
    let mut g = source_to_sink_graph(vec![1, 2, 3]);
    g.cancel_token().cancel();
    assert_eq!(g.run(16).unwrap(), RunOutcome::Cancelled);
    // Nothing ran.
    assert_eq!(g.invocation_count(), 0);
    match g.block_ref(1) {
        TestBlock::Sink(sink) => assert!(sink.seen().is_empty()),
        _ => panic!("sink expected"),
    }
}

#[test]
fn graph_cancel_after_run() {
    let mut g = source_to_sink_graph(vec![1, 2, 3]);
    assert_eq!(g.run(16).unwrap(), RunOutcome::Finished);
    // Cancelling after the run is as good as cancelling before it:
    // the next run returns at once, with no further invocations.
    g.cancel();
    g.cancel();
    let invocations = g.invocation_count();
    assert_eq!(g.run(16).unwrap(), RunOutcome::Cancelled);
    assert_eq!(g.invocation_count(), invocations);
}

#[test]
fn graph_runs_iir_chain() {
    // Source → IIR(alpha = 1.0) → Sink: with a coefficient of one the
    // fixed-point filter passes whole-number samples through
    // unchanged, so the sink observes exactly the source sequence.
    let mut g: Graph<TestBlock> = Graph::new();
    let s1 = Stream::<u32>::new(4096).unwrap();
    let s2 = Stream::<u32>::new(4096).unwrap();
    let id1 = g.add_stream(StreamType::U32(s1));
    let id2 = g.add_stream(StreamType::U32(s2));
    let data: Vec<u32> = (0..2000).collect();
    let iir = SinglePoleIIRFilter::<u32>::new((1.0f32).to_bits()).unwrap();
    g.add(TestBlock::Source(VectorSource::new(data.clone())), None, Some(id1)).unwrap();
    g.add(TestBlock::Iir(iir), Some(id1), Some(id2)).unwrap();
    g.add(TestBlock::Sink(DebugSink::new()), Some(id2), None).unwrap();
    let outcome = g.run(16).unwrap();
    assert_eq!(outcome, RunOutcome::Finished);
    match g.block_ref(2) {
        TestBlock::Sink(sink) => assert_eq!(sink.seen().as_slice(), data.as_slice()),
        _ => panic!("sink expected"),
    }
}

#[test]
fn iir_fixed_point_half() {
    // alpha = 0.5 on whole-number samples: first output is half the
    // first sample (history starts at the default, zero).
    let mut iir = SinglePoleIIRFilter::<u32>::new((0.5f32).to_bits()).unwrap();
    assert_eq!(iir.process_one(&100), 50);
    assert_eq!(iir.process_one(&100), 75);
    // alpha = 0.0 holds the state forever.
    let mut hold = SinglePoleIIRFilter::<u32>::new((0.0f32).to_bits()).unwrap();
    assert_eq!(hold.process_one(&12345), 0);
}

#[test]
fn graph_pending_without_consumer() {
    // A lone source whose stream nobody drains fills it and then can
    // make no more progress: the budget runs out with work pending.
    let mut g: Graph<TestBlock> = Graph::new();
    let s = Stream::<u32>::new(4096).unwrap();
    let id = g.add_stream(StreamType::U32(s));
    let data: Vec<u32> = (0..3000).collect();
    g.add(TestBlock::Source(VectorSource::new(data)), None, Some(id)).unwrap();
    assert_eq!(g.run(4).unwrap(), RunOutcome::Pending);
}

#[test]
fn graph_cancel_between_rounds() {
    // Cancelling part-way through a long run stops the next round;
    // partial output stays in the sink.
    let data: Vec<u32> = (0..3000).collect();
    let mut g = source_to_sink_graph(data);
    assert_eq!(g.run(1).unwrap(), RunOutcome::Pending);
    g.cancel();
    let invocations = g.invocation_count();
    assert_eq!(g.run(16).unwrap(), RunOutcome::Cancelled);
    assert_eq!(g.invocation_count(), invocations);
    match g.block_ref(1) {
        TestBlock::Sink(sink) => {
            assert!(!sink.seen().is_empty());
            assert!(sink.seen().len() < 3000);
        },
        _ => panic!("sink expected"),
    }
}

#[test]
fn cancel_token_idempotent() {
    let mut t = CancelToken::new();
    assert!(!t.is_cancelled());
    t.cancel();
    assert!(t.is_cancelled());
    t.cancel();
    assert!(t.is_cancelled());
}

#[test]
fn graph_rejects_bad_wiring() {
    let mut g: Graph<TestBlock> = Graph::new();
    let s = Stream::<u32>::new(4096).unwrap();
    let id = g.add_stream(StreamType::U32(s));
    // Unknown ids.
    assert!(g.add(TestBlock::Sink(DebugSink::new()), Some(7), None).is_err());
    assert!(g.add(TestBlock::Source(VectorSource::new(vec![])), None, Some(7)).is_err());
    // A block may not consume its own output.
    assert!(
        g.add(TestBlock::Source(VectorSource::new(vec![])), Some(id), Some(id)).is_err()
    );
    // Exactly one producer and one consumer per stream.
    g.add(TestBlock::Sink(DebugSink::new()), Some(id), None).unwrap();
    assert!(g.add(TestBlock::Sink(DebugSink::new()), Some(id), None).is_err());
    g.add(TestBlock::Source(VectorSource::new(vec![])), None, Some(id)).unwrap();
    assert!(
        g.add(TestBlock::Source(VectorSource::new(vec![])), None, Some(id)).is_err()
    );
}

#[test]
fn graph_work_reports_wiring_type_errors() {
    // A sink of u8 samples wired to a u32 stream fails its work call,
    // and the failure aborts the run.
    let mut g: Graph<DebugSink<u8>> = Graph::new();
    let s = Stream::<u32>::new(4096).unwrap();
    let id = g.add_stream(StreamType::U32(s));
    g.add(DebugSink::new(), Some(id), None).unwrap();
    let r = g.run(4);
    assert!(r.is_err());
    assert_eq!(
        r.err().unwrap().message(),
        "DebugSink wired to a stream of the wrong type"
    );
}

#[test]
fn chain_maps_in_order() {
    // Source → Map(+5) → Sink: the sink observes exactly the mapped
    // sequence, in order, across many ring wraps.
    let data: Vec<u32> = (0..5000).collect();
    let mut m = AddConst::new(5);
    let mut sink: DebugSink<u32> = DebugSink::new();
    run_chain(data.as_slice(), &mut m, &mut sink).unwrap();
    let seen = sink.seen();
    assert_eq!(seen.len(), 5000);
    for (i, y) in seen.iter().enumerate() {
        assert_eq!(*y, (i as u32) + 5);
    }
}

#[test]
fn map_work_moves_what_fits() {
    let mut src: Stream<u32> = Stream::new(4096).unwrap();
    let mut dst: Stream<u32> = Stream::new(4096).unwrap();
    src.write(&[1, 2, 3]);
    let mut m = AddConst::new(100);
    let n = map_work(&mut m, &mut src, &mut dst);
    assert_eq!(n, 3);
    assert_eq!(src.len(), 0);
    assert_eq!(dst.read_buf(), &[101, 102, 103]);
}

#[test]
fn add_const_wraps() {
    let mut m = AddConst::new(10);
    assert_eq!(m.process_one(&u32::MAX), 9);
    assert_eq!(m.process_one(&1), 11);
}
