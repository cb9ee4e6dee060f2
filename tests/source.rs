use std::sync::atomic::{AtomicBool, AtomicUsize, Ordering};
use std::sync::Arc;

use read_seek_source::{
    stream_len, ByteStream, MemoryStream, MemoryStreamError, ReadSeekSource, SeekFrom,
};

fn bytes(n: usize) -> Vec<u8> {
    (0..n).map(|i| (i % 251) as u8).collect()
}

/// A stream that counts the seeks made on it.
struct CountingStream {
    inner: MemoryStream,
    seeks: Arc<AtomicUsize>,
}

impl ByteStream for CountingStream {
    type Error = MemoryStreamError;

    fn read(&mut self, buf: &mut [u8]) -> Result<usize, MemoryStreamError> {
        self.inner.read(buf)
    }

    fn seek(&mut self, pos: SeekFrom) -> Result<u64, MemoryStreamError> {
        self.seeks.fetch_add(1, Ordering::SeqCst);
        self.inner.seek(pos)
    }
}

/// A stream that records when it is dropped.
struct DropWatch {
    inner: MemoryStream,
    dropped: Arc<AtomicBool>,
}

impl Drop for DropWatch {
    fn drop(&mut self) {
        self.dropped.store(true, Ordering::SeqCst);
    }
}

impl ByteStream for DropWatch {
    type Error = MemoryStreamError;

    fn read(&mut self, buf: &mut [u8]) -> Result<usize, MemoryStreamError> {
        self.inner.read(buf)
    }

    fn seek(&mut self, pos: SeekFrom) -> Result<u64, MemoryStreamError> {
        self.inner.seek(pos)
    }
}

#[test]
fn into_inner_hands_back_stream_for_release() {
    let dropped = Arc::new(AtomicBool::new(false));
    let mut src = ReadSeekSource::new(DropWatch {
        inner: MemoryStream::new(bytes(30)),
        dropped: dropped.clone(),
    });
    assert_eq!(src.seek(SeekFrom::Start(7)), Ok(7));
    assert_eq!(src.byte_len(), Some(30));
    let mut stream = src.into_inner();
    assert!(!dropped.load(Ordering::SeqCst));
    assert_eq!(stream.seek(SeekFrom::Current(0)), Ok(7));
    drop(stream);
    assert!(dropped.load(Ordering::SeqCst));
}

#[test]
fn into_inner_keeps_memory_stream_cursor() {
    let mut src = ReadSeekSource::new(MemoryStream::new(bytes(16)));
    let mut buf = [0u8; 5];
    assert_eq!(src.read(&mut buf), Ok(5));
    let mut stream = src.into_inner();
    assert_eq!(stream.read(&mut buf), Ok(5));
    assert_eq!(buf.to_vec(), bytes(16)[5..10].to_vec());
}

#[test]
fn thousand_bytes_length_survives_seek() {
    let mut src = ReadSeekSource::new(MemoryStream::new(bytes(1000)));
    assert_eq!(src.byte_len(), Some(1000));
    assert_eq!(src.seek(SeekFrom::Start(500)), Ok(500));
    assert_eq!(src.byte_len(), Some(1000));
    let mut buf = [0u8; 4];
    assert_eq!(src.read(&mut buf), Ok(4));
    assert_eq!(buf.to_vec(), bytes(1000)[500..504].to_vec());
}

#[test]
fn length_query_keeps_cursor() {
    let data = bytes(64);
    let src = ReadSeekSource::new(MemoryStream::new(data.clone()));
    let mut src = src;
    let mut buf = [0u8; 10];
    assert_eq!(src.read(&mut buf), Ok(10));
    assert_eq!(src.byte_len(), Some(64));
    assert_eq!(src.read(&mut buf), Ok(10));
    assert_eq!(buf.to_vec(), data[10..20].to_vec());
    assert_eq!(src.seek(SeekFrom::Current(0)), Ok(20));
}

#[test]
fn is_seekable_always_true() {
    let src = ReadSeekSource::new(MemoryStream::new(bytes(3)));
    assert!(src.is_seekable());
    let src = ReadSeekSource::new(MemoryStream::unseekable(bytes(3)));
    assert!(src.is_seekable());
    assert_eq!(src.byte_len(), None);
    assert!(src.is_seekable());
}

#[test]
fn failed_end_seek_gives_unknown_for_good() {
    let src = ReadSeekSource::new(MemoryStream::unseekable(bytes(100)));
    assert_eq!(src.byte_len(), None);
    assert_eq!(src.byte_len(), None);
    assert_eq!(src.byte_len(), None);
}

#[test]
fn unseekable_stream_still_reads() {
    let mut src = ReadSeekSource::new(MemoryStream::unseekable(bytes(8)));
    assert_eq!(src.byte_len(), None);
    let mut buf = [0u8; 5];
    assert_eq!(src.read(&mut buf), Ok(5));
    assert_eq!(buf.to_vec(), bytes(8)[0..5].to_vec());
    assert_eq!(src.seek(SeekFrom::Start(0)), Err(MemoryStreamError::Unsupported));
}

#[test]
fn read_from_start_fills_buffer_then_continues() {
    let data = bytes(300);
    let mut src = ReadSeekSource::new(MemoryStream::new(data.clone()));
    let mut first = [0u8; 120];
    assert_eq!(src.read(&mut first), Ok(120));
    assert_eq!(first.to_vec(), data[0..120].to_vec());
    let mut second = [0u8; 7];
    assert_eq!(src.read(&mut second), Ok(7));
    assert_eq!(second.to_vec(), data[120..127].to_vec());
}

#[test]
fn read_stops_at_end() {
    let mut src = ReadSeekSource::new(MemoryStream::new(bytes(5)));
    let mut buf = [9u8; 8];
    assert_eq!(src.read(&mut buf), Ok(5));
    assert_eq!(buf.to_vec(), vec![0, 1, 2, 3, 4, 9, 9, 9]);
    assert_eq!(src.read(&mut buf), Ok(0));
}

#[test]
fn end_seek_matches_length() {
    let mut src = ReadSeekSource::new(MemoryStream::new(bytes(777)));
    let end = src.seek(SeekFrom::End(0)).unwrap();
    assert_eq!(src.byte_len(), Some(end));
    assert_eq!(end, 777);
}

#[test]
fn length_query_at_end_keeps_cursor() {
    let mut src = ReadSeekSource::new(MemoryStream::new(bytes(40)));
    assert_eq!(src.seek(SeekFrom::End(0)), Ok(40));
    assert_eq!(src.byte_len(), Some(40));
    assert_eq!(src.seek(SeekFrom::Current(0)), Ok(40));
}

#[test]
fn empty_stream_has_length_zero() {
    let mut src = ReadSeekSource::new(MemoryStream::new(Vec::new()));
    assert_eq!(src.byte_len(), Some(0));
    let mut buf = [0u8; 3];
    assert_eq!(src.read(&mut buf), Ok(0));
}

#[test]
fn seek_offsets() {
    let mut src = ReadSeekSource::new(MemoryStream::new(bytes(50)));
    assert_eq!(src.seek(SeekFrom::Start(10)), Ok(10));
    assert_eq!(src.seek(SeekFrom::Current(5)), Ok(15));
    assert_eq!(src.seek(SeekFrom::Current(-15)), Ok(0));
    assert_eq!(src.seek(SeekFrom::End(-50)), Ok(0));
    assert_eq!(src.seek(SeekFrom::End(10)), Ok(60));
    let mut buf = [0u8; 2];
    assert_eq!(src.read(&mut buf), Ok(0));
    assert_eq!(src.byte_len(), Some(50));
    assert_eq!(src.seek(SeekFrom::Current(0)), Ok(60));
}

#[test]
fn negative_seek_is_rejected_and_keeps_cursor() {
    let mut src = ReadSeekSource::new(MemoryStream::new(bytes(20)));
    assert_eq!(src.seek(SeekFrom::Start(3)), Ok(3));
    assert_eq!(src.seek(SeekFrom::Current(-4)), Err(MemoryStreamError::InvalidOffset));
    assert_eq!(src.seek(SeekFrom::End(-21)), Err(MemoryStreamError::InvalidOffset));
    assert_eq!(src.seek(SeekFrom::Current(0)), Ok(3));
}

#[test]
fn overflowing_seek_is_rejected() {
    let mut s = MemoryStream::new(bytes(20));
    assert_eq!(s.seek(SeekFrom::Start(u64::MAX)), Ok(u64::MAX));
    assert_eq!(s.seek(SeekFrom::Current(1)), Err(MemoryStreamError::InvalidOffset));
}

#[test]
fn stream_len_restores_cursor() {
    let mut s = MemoryStream::new(bytes(90));
    assert_eq!(s.seek(SeekFrom::Start(33)), Ok(33));
    assert_eq!(stream_len(&mut s), Ok(90));
    assert_eq!(s.seek(SeekFrom::Current(0)), Ok(33));
}

#[test]
fn stream_len_fails_on_unseekable() {
    let mut s = MemoryStream::unseekable(bytes(9));
    assert_eq!(stream_len(&mut s), Err(MemoryStreamError::Unsupported));
}

#[test]
fn length_is_worked_out_once() {
    let seeks = Arc::new(AtomicUsize::new(0));
    let stream = CountingStream {
        inner: MemoryStream::new(bytes(200)),
        seeks: seeks.clone(),
    };
    let src = ReadSeekSource::new(stream);
    assert_eq!(src.byte_len(), Some(200));
    let after_first = seeks.load(Ordering::SeqCst);
    assert_eq!(after_first, 3);
    for _ in 0..10 {
        assert_eq!(src.byte_len(), Some(200));
    }
    assert_eq!(seeks.load(Ordering::SeqCst), after_first);
}

#[test]
fn length_at_end_takes_two_seeks() {
    let seeks = Arc::new(AtomicUsize::new(0));
    let mut inner = MemoryStream::new(bytes(12));
    assert_eq!(inner.seek(SeekFrom::End(0)), Ok(12));
    let src = ReadSeekSource::new(CountingStream {
        inner,
        seeks: seeks.clone(),
    });
    assert_eq!(src.byte_len(), Some(12));
    assert_eq!(seeks.load(Ordering::SeqCst), 2);
}
