//! Tests for the block contract and the concrete blocks driven
//! directly through the tagged wiring handles.

use rustradio::block::{Block, BlockRet};
use rustradio::debug_sink::DebugSink;
use rustradio::stream::{InputStreams, OutputStreams, StreamType, Stream};
use rustradio::vector_source::VectorSource;

#[test]
fn debug_sink_records_and_consumes() {
    let mut r = InputStreams::new();
    let mut w = OutputStreams::new();
    let mut s = Stream::<u32>::new(4096).unwrap();
    s.write(&[4, 5, 6]);
    r.add(StreamType::U32(s));
    let mut sink: DebugSink<u32> = DebugSink::new();
    let ret = sink.work(&mut r, &mut w).unwrap();
    assert!(matches!(ret, BlockRet::Again));
    assert_eq!(sink.seen().as_slice(), &[4, 5, 6]);
    // The stream was drained in place.
    assert_eq!(sink.block_name(), "DebugSink");
    let mut again = sink;
    let ret = again.work(&mut r, &mut w).unwrap();
    assert!(matches!(ret, BlockRet::Again));
    assert_eq!(again.seen().as_slice(), &[4, 5, 6]);
}

#[test]
fn debug_sink_needs_an_input() {
    let mut r = InputStreams::new();
    let mut w = OutputStreams::new();
    let mut sink: DebugSink<u32> = DebugSink::new();
    let err = sink.work(&mut r, &mut w).err().unwrap();
    assert_eq!(err.message(), "DebugSink needs one input stream");
}

#[test]
fn vector_source_emits_then_eof() {
    let mut r = InputStreams::new();
    let mut w = OutputStreams::new();
    let s = Stream::<u8>::new(4096).unwrap();
    w.add(StreamType::U8(s));
    let mut src = VectorSource::new(vec![9u8, 8, 7]);
    assert_eq!(src.remaining(), 3);
    let ret = src.work(&mut r, &mut w).unwrap();
    assert!(matches!(ret, BlockRet::EOF));
    assert_eq!(src.remaining(), 0);
    assert_eq!(w.get_tag(0), rustradio::stream::StreamTag::U8);
}

#[test]
fn vector_source_fills_in_rounds() {
    // More data than one ring holds: the source emits a capacity per
    // round and reports end-of-stream only when everything is out.
    let mut r = InputStreams::new();
    let mut w = OutputStreams::new();
    let s = Stream::<u8>::new(4096).unwrap();
    w.add(StreamType::U8(s));
    let data: Vec<u8> = (0..6000u32).map(|i| (i & 0xff) as u8).collect();
    let mut src = VectorSource::new(data);
    let ret = src.work(&mut r, &mut w).unwrap();
    assert!(matches!(ret, BlockRet::Again));
    assert_eq!(src.remaining(), 6000 - 4096);
}
