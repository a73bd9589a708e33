//! Tests of the length-exact transport bookkeeping.

use j1407b::error::TransportError;
use j1407b::transport::ExactReader;
use j1407b::transport::SendBuffer;

#[test]
fn exact_read_from_one_byte_chunks() {
    // A stream may deliver one byte at a time; the reader still collects
    // exactly n bytes, without loss or duplication.
    let source: Vec<u8> = (0..23u8).collect();
    let mut reader = ExactReader::new(source.len());
    let mut cursor = 0usize;
    while !reader.complete() {
        let chunk = &source[cursor..cursor + 1];
        cursor += 1;
        reader.feed(chunk).unwrap();
    }
    assert_eq!(reader.take(), source);
}

#[test]
fn exact_read_from_uneven_chunks() {
    let source: Vec<u8> = (0..40u8).collect();
    let mut reader = ExactReader::new(source.len());
    let mut cursor = 0usize;
    for size in [3usize, 1, 17, 2, 11, 5, 1] {
        let take = size.min(reader.remaining());
        reader.feed(&source[cursor..cursor + take]).unwrap();
        cursor += take;
    }
    assert!(reader.complete());
    assert_eq!(reader.remaining(), 0);
    assert_eq!(reader.take(), source);
}

#[test]
fn early_close_fails_the_read() {
    // A zero-length read is the peer closing the stream: the reader fails
    // with ConnectionClosed instead of hanging or handing out a short
    // buffer.
    let mut reader = ExactReader::new(10);
    reader.feed(&[1, 2, 3]).unwrap();
    let outcome = reader.feed(&[]);
    assert_eq!(outcome, Err(TransportError::ConnectionClosed));
    assert!(!reader.complete());
    assert_eq!(reader.remaining(), 7);
}

#[test]
fn zero_byte_target_is_complete_at_once() {
    let reader = ExactReader::new(0);
    assert!(reader.complete());
    assert_eq!(reader.take(), Vec::<u8>::new());
}

#[test]
fn send_buffer_tracks_partial_writes() {
    let data = vec![10u8, 20, 30, 40, 50];
    let mut send = SendBuffer::new(data.clone());
    assert_eq!(send.unsent(), data.as_slice());
    send.advance(2).unwrap();
    assert_eq!(send.unsent(), &data[2..]);
    send.advance(3).unwrap();
    assert!(send.done());
    assert_eq!(send.unsent(), &[] as &[u8]);
}

#[test]
fn send_buffer_rejects_stalled_write() {
    let mut send = SendBuffer::new(vec![1u8, 2]);
    assert_eq!(send.advance(0), Err(TransportError::WriteError));
    assert_eq!(send.unsent(), &[1u8, 2]);
}
