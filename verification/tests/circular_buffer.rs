//! Tests for the circular buffer: construction, plain use, exact
//! fill, wrap behaviour, and typed samples.

use std::sync::{Arc, Mutex};

use rustradio::circular_buffer::Buffer;
use rustradio::Error;

#[test]
pub fn test_build() -> Result<(), Error> {
    let b = Arc::new(Mutex::new(Buffer::<u8>::new(4096)?));
    let i1 = b.lock().unwrap().read_buf().to_vec();
    let i2 = b.lock().unwrap().read_buf().to_vec();
    let w1 = b.lock().unwrap().write_buf().to_vec();
    let w2 = b.lock().unwrap().write_buf().to_vec();
    assert_eq!(i1, i2);
    assert_eq!(w1, w2);
    Ok(())
}

#[test]
pub fn test_typical() -> Result<(), Error> {
    let mut b: Buffer<u8> = Buffer::new(4096)?;

    // Initial.
    assert!(b.read_buf().is_empty());
    assert_eq!(b.write_buf().len(), 4096);

    // Write a byte.
    b.write_at(0, 123);
    b.produce(1);
    assert_eq!(b.read_buf(), vec![123]);
    assert_eq!(b.write_buf().len(), 4095);

    // Consume the byte.
    b.consume(1);
    assert!(b.read_buf().is_empty());
    assert_eq!(b.write_buf().len(), 4096);

    // Write towards the end bytes.
    {
        let n = 4000;
        for i in 0..n {
            b.write_at(i, (i & 0xff) as u8);
        }
        b.produce(n);
        assert_eq!(b.read_buf().len(), n);
        for i in 0..n {
            assert_eq!(b.read_buf()[i], (i & 0xff) as u8);
        }
        assert_eq!(b.write_buf().len(), 4096 - n);
    }
    b.consume(4000);

    // Write 100 bytes.
    {
        let n = 100;
        for i in 0..n {
            b.write_at(i, ((n - i) & 0xff) as u8);
        }
        b.produce(n);
        assert_eq!(b.read_buf().len(), n);
        for i in 0..n {
            assert_eq!(b.read_buf()[i], ((n - i) & 0xff) as u8);
        }
    }
    assert_eq!(b.read_buf().len(), 100);
    assert_eq!(b.write_buf().len(), 3996);
    Ok(())
}

#[test]
pub fn exact_overflow() -> Result<(), Error> {
    let mut b: Buffer<u8> = Buffer::new(4096)?;

    // Initial.
    assert!(b.read_buf().is_empty());
    assert_eq!(b.write_buf().len(), 4096);

    // Full.
    b.produce(4096);
    assert_eq!(b.read_buf().len(), 4096);
    assert_eq!(b.write_buf().len(), 0);

    // Empty again.
    b.consume(4096);
    assert!(b.read_buf().is_empty());
    assert_eq!(b.write_buf().len(), 4096);
    Ok(())
}

#[test]
pub fn test_float() -> Result<(), Error> {
    let mut b: Buffer<f32> = Buffer::new(4096)?;

    // Initial.
    assert!(b.read_buf().is_empty());
    assert_eq!(b.write_buf().len(), 1024);

    // Write a sample.
    b.write_at(0, 123.321);
    b.produce(1);
    assert_eq!(b.read_buf(), vec![123.321f32]);
    assert_eq!(b.write_buf().len(), 1023);

    // Consume the sample.
    b.consume(1);
    assert!(b.read_buf().is_empty());
    assert_eq!(b.write_buf().len(), 1024);

    // Write towards the end bytes.
    {
        let n = 1000;
        for i in 0..n {
            b.write_at(i, i as f32);
        }
        b.produce(n);
        assert_eq!(b.read_buf().len(), n);
        for i in 0..n {
            assert_eq!(b.read_buf()[i], i as f32);
        }
        assert_eq!(b.write_buf().len(), 24);
    }
    b.consume(1000);

    // Write 100 bytes.
    {
        let n = 100;
        for i in 0..n {
            b.write_at(i, (n - i) as f32);
        }
        b.produce(n);
        assert_eq!(b.read_buf().len(), n);
        for i in 0..n {
            assert_eq!(b.read_buf()[i], (n - i) as f32);
        }
    }
    assert_eq!(b.read_buf().len(), 100);
    assert_eq!(b.write_buf().len(), 1024 - 100);
    Ok(())
}

#[test]
fn rejects_bad_sizes() {
    // Not a page multiple.
    assert!(Buffer::<u8>::new(1000).is_err());
    // Zero.
    assert!(Buffer::<u8>::new(0).is_err());
    // Page multiples of any count are fine.
    assert!(Buffer::<u8>::new(8192).is_ok());
    assert_eq!(Buffer::<u8>::new(8192).unwrap().capacity(), 8192);
    // Not divisible by the sample size.
    assert!(Buffer::<[u8; 3]>::new(4096).is_err());
}

#[test]
fn long_stream_wraps_freely() -> Result<(), Error> {
    // Many produce/consume pairs, far beyond one capacity in total,
    // with wrap points falling at varying places inside batches.
    let mut b: Buffer<u8> = Buffer::new(4096)?;
    let mut expected: u8 = 0;
    let mut written: u8 = 0;
    let batch = 1000;
    for _round in 0..10_000 {
        for i in 0..batch {
            b.write_at(i, written);
            written = written.wrapping_add(1);
        }
        b.produce(batch);
        let got = b.read_buf();
        assert_eq!(got.len(), batch);
        for i in 0..batch {
            assert_eq!(got[i], expected);
            expected = expected.wrapping_add(1);
        }
        b.consume(batch);
        assert_eq!(b.read_buf().len(), 0);
        assert_eq!(b.write_buf().len(), 4096);
    }
    Ok(())
}
