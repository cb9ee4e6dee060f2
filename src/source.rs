use vstd::prelude::*;
use vstd::rwlock::{RwLock, RwLockPredicate};

use crate::stream::{full_read, lands, seek_target, stream_len, ByteStream, SeekFrom};

verus! {

/// What the stream's lock holds to: the stream keeps its bytes, its
/// reliability and whether it refuses seeks; its cursor stays an offset that
/// a seek can name; and where the stream's length is sure to be found, the
/// cursor is the one recorded here.
pub struct StreamInvariant {
    pub content: Seq<u8>,
    pub reliable: bool,
    pub refuses_seeks: bool,
    pub cursor: nat,
}

impl<T: ByteStream> RwLockPredicate<T> for StreamInvariant {
    open spec fn inv(self, s: T) -> bool {
        &&& s.content() == self.content
        &&& s.reliable() == self.reliable
        &&& s.refuses_seeks() == self.refuses_seeks
        &&& (s.cursor() <= u64::MAX || s.cursor() <= s.content().len())
        &&& (length_known(self.content.len(), self.reliable) ==> s.cursor() == self.cursor)
    }
}

/// Whether a stream of `size` bytes is sure to report its length.
pub open spec fn length_known(size: nat, reliable: bool) -> bool {
    reliable && size <= u64::MAX
}

/// Whether `r` is a truthful answer to a length query on a stream of `size`
/// bytes: the length itself, which a stream that refuses every seek cannot
/// give, or "unknown", only where the length is not sure to be found.
pub open spec fn reports_length(size: nat, reliable: bool, refuses_seeks: bool, r: Option<u64>) -> bool {
    match r {
        Some(n) => n == size && !refuses_seeks,
        None => !length_known(size, reliable),
    }
}

/// What the length cache may hold: nothing yet, the true length, or "unknown"
/// where the length is not sure to be found.
pub struct LengthInvariant {
    pub size: nat,
    pub reliable: bool,
    pub refuses_seeks: bool,
}

impl RwLockPredicate<Option<Option<u64>>> for LengthInvariant {
    open spec fn inv(self, v: Option<Option<u64>>) -> bool {
        match v {
            None => true,
            Some(answer) => reports_length(self.size, self.reliable, self.refuses_seeks, answer),
        }
    }
}

/// The offset that a successful seek to `pos` reports, where it does not
/// depend on the cursor.
pub open spec fn seek_offset(pos: SeekFrom, size: nat) -> Option<int> {
    match pos {
        SeekFrom::Start(n) => Some(n as int),
        SeekFrom::End(d) => Some(size + d),
        SeekFrom::Current(_) => None,
    }
}

/// Owns a stream and shares it across threads: reads and seeks take the
/// stream's lock, and the stream's length is worked out once and then served
/// from a cache that readers share.
pub struct ReadSeekSource<T: ByteStream> {
    inner: RwLock<T, StreamInvariant>,
    byte_len: RwLock<Option<Option<u64>>, LengthInvariant>,
}

impl<T: ByteStream> ReadSeekSource<T> {
    #[verifier::type_invariant]
    spec fn wf(&self) -> bool {
        self.byte_len.pred() == LengthInvariant {
            size: self.inner.pred().content.len(),
            reliable: self.inner.pred().reliable,
            refuses_seeks: self.inner.pred().refuses_seeks,
        }
    }

    /// The bytes of the wrapped stream.
    pub closed spec fn content(&self) -> Seq<u8> {
        self.inner.pred().content
    }

    /// Whether the wrapped stream is reliable.
    pub closed spec fn reliable(&self) -> bool {
        self.inner.pred().reliable
    }

    /// Whether the wrapped stream refuses every seek.
    pub closed spec fn refuses_seeks(&self) -> bool {
        self.inner.pred().refuses_seeks
    }

    /// The wrapped stream's cursor. It is tracked where the stream's length
    /// is sure to be found (`length_known`); elsewhere it says nothing.
    pub closed spec fn cursor(&self) -> nat {
        self.inner.pred().cursor
    }

    /// Whether the cursor view is tracked.
    pub open spec fn tracked_cursor(&self) -> bool {
        length_known(self.content().len(), self.reliable())
    }

    /// Takes ownership of `inner` and wraps it; nothing is read or sought.
    pub fn new(inner: T) -> (s: Self)
        requires
            inner.cursor() <= u64::MAX,
        ensures
            s.content() == inner.content(),
            s.reliable() == inner.reliable(),
            s.refuses_seeks() == inner.refuses_seeks(),
            s.cursor() == inner.cursor(),
    {
        let ghost pred = StreamInvariant {
            content: inner.content(),
            reliable: inner.reliable(),
            refuses_seeks: inner.refuses_seeks(),
            cursor: inner.cursor(),
        };
        let ghost cache_pred = LengthInvariant {
            size: pred.content.len(),
            reliable: pred.reliable,
            refuses_seeks: pred.refuses_seeks,
        };
        let inner = RwLock::new(inner, Ghost(pred));
        let byte_len = RwLock::new(None, Ghost(cache_pred));
        ReadSeekSource { inner, byte_len }
    }

    /// Gives the wrapped stream back, with its cursor where the source left it.
    /// The locks keep no destructor of what they hold, so this is how the
    /// stream is released.
    pub fn into_inner(self) -> (r: T)
        ensures
            r.content() == self.content(),
            r.reliable() == self.reliable(),
            r.refuses_seeks() == self.refuses_seeks(),
            self.tracked_cursor() ==> r.cursor() == self.cursor(),
    {
        let ReadSeekSource { inner, .. } = self;
        inner.into_inner()
    }

    /// Seeking is always offered.
    pub fn is_seekable(&self) -> (r: bool)
        ensures
            r,
    {
        true
    }

    /// The stream's length in bytes, or `None` where it could not be found.
    /// The first call works it out and puts the cursor back; the outcome,
    /// either way, is kept and handed to later calls. The call takes `&self`,
    /// so `cursor()` is the same after it, and the stream's lock holds the
    /// stream to that view wherever it is tracked.
    pub fn byte_len(&self) -> (r: Option<u64>)
        ensures
            reports_length(self.content().len(), self.reliable(), self.refuses_seeks(), r),
            self.refuses_seeks() ==> r is None,
    {
        proof {
            use_type_invariant(self);
        }
        let read_handle = self.byte_len.acquire_read();
        let cached = *read_handle.borrow();
        read_handle.release_read();
        if let Some(known) = cached {
            return known;
        }
        let (mut stream, stream_handle) = self.inner.acquire_write();
        let calculated = match stream_len(&mut stream) {
            Ok(len) => Some(len),
            Err(_) => None,
        };
        let (_, cache_handle) = self.byte_len.acquire_write();
        cache_handle.release_write(Some(calculated));
        stream_handle.release_write(stream);
        calculated
    }

    /// Reads up to `buf.len()` bytes from the stream's cursor into the front
    /// of `buf`, as the stream's own `read` does; a failure is passed on as it came.
    pub fn read(&mut self, buf: &mut [u8]) -> (r: Result<usize, T::Error>)
        ensures
            final(self).content() == old(self).content(),
            final(self).reliable() == old(self).reliable(),
            final(self).refuses_seeks() == old(self).refuses_seeks(),
            final(buf)@.len() == old(buf)@.len(),
            match r {
                Ok(n) => {
                    &&& n <= old(buf)@.len()
                    &&& exists|c: int|
                        #![trigger old(self).content().subrange(c, c + n)]
                        0 <= c && c + n <= old(self).content().len() && final(buf)@.subrange(
                            0,
                            n as int,
                        ) == old(self).content().subrange(c, c + n)
                    &&& forall|k: int|
                        n <= k < old(buf)@.len() ==> #[trigger] final(buf)@[k] == old(buf)@[k]
                },
                Err(_) => true,
            },
            old(self).reliable() ==> r is Ok,
            old(self).tracked_cursor() ==> match r {
                Ok(n) => {
                    &&& n == full_read(
                        old(buf)@.len() as int,
                        old(self).cursor() as int,
                        old(self).content().len() as int,
                    )
                    &&& final(self).cursor() == old(self).cursor() + n
                    &&& forall|k: int|
                        0 <= k < n ==> #[trigger] final(buf)@[k] == old(self).content()[old(
                            self,
                        ).cursor() + k]
                },
                Err(_) => false,
            },
    {
        proof {
            use_type_invariant(&*self);
        }
        let (mut stream, _handle) = self.inner.acquire_write();
        let ghost start = stream.cursor();
        let r = stream.read(buf);
        proof {
            if let Ok(n) = r {
                let c: int = if n == 0 { 0 } else { start as int };
                assert(buf@.subrange(0, n as int) =~= stream.content().subrange(c, c + n));
                assert(self.content().subrange(c, c + n) == stream.content().subrange(c, c + n));
            }
        }
        let ghost pred = StreamInvariant { cursor: stream.cursor(), ..self.inner.pred() };
        self.inner = RwLock::new(stream, Ghost(pred));
        r
    }

    /// Moves the stream's cursor as `pos` says and returns the new offset, as
    /// the stream's own `seek` does; a failure is passed on as it came.
    pub fn seek(&mut self, pos: SeekFrom) -> (r: Result<u64, T::Error>)
        ensures
            final(self).content() == old(self).content(),
            final(self).reliable() == old(self).reliable(),
            final(self).refuses_seeks() == old(self).refuses_seeks(),
            match (r, seek_offset(pos, old(self).content().len())) {
                (Ok(p), Some(t)) => p == t,
                _ => true,
            },
            old(self).refuses_seeks() ==> r is Err,
            old(self).reliable() && (match seek_offset(pos, old(self).content().len()) {
                Some(t) => lands(t),
                None => false,
            }) ==> r is Ok,
            old(self).tracked_cursor() ==> match r {
                Ok(p) => {
                    &&& p == seek_target(
                        pos,
                        old(self).cursor() as int,
                        old(self).content().len() as int,
                    )
                    &&& final(self).cursor() == p
                },
                Err(_) => final(self).cursor() == old(self).cursor(),
            },
            old(self).tracked_cursor() && lands(
                seek_target(pos, old(self).cursor() as int, old(self).content().len() as int),
            ) ==> r is Ok,
    {
        proof {
            use_type_invariant(&*self);
        }
        let (mut stream, _handle) = self.inner.acquire_write();
        let r = stream.seek(pos);
        let ghost pred = StreamInvariant { cursor: stream.cursor(), ..self.inner.pred() };
        self.inner = RwLock::new(stream, Ghost(pred));
        r
    }
}

} // verus!
