use vstd::prelude::*;

verus! {

/// A seek request: an offset from the start, from the end, or from the cursor.
#[derive(Clone, Copy, Debug, PartialEq, Eq, Structural)]
pub enum SeekFrom {
    Start(u64),
    End(i64),
    Current(i64),
}

/// The absolute offset that `pos` names, for a stream of `size` bytes whose
/// cursor stands at `cursor`.
pub open spec fn seek_target(pos: SeekFrom, cursor: int, size: int) -> int {
    match pos {
        SeekFrom::Start(n) => n as int,
        SeekFrom::End(d) => size + d,
        SeekFrom::Current(d) => cursor + d,
    }
}

/// A seek can only land on an offset that is not negative and fits a `u64`.
pub open spec fn lands(target: int) -> bool {
    0 <= target <= u64::MAX
}

/// How many bytes a read from `cursor` can still deliver.
pub open spec fn remaining(cursor: int, size: int) -> int {
    if cursor < size {
        size - cursor
    } else {
        0
    }
}

/// How many bytes a read of `want` bytes from `cursor` delivers on a reliable stream.
pub open spec fn full_read(want: int, cursor: int, size: int) -> int {
    if want < remaining(cursor, size) {
        want
    } else {
        remaining(cursor, size)
    }
}

/// A readable, seekable stream of bytes whose contents stay fixed while it lives.
///
/// The contract of each method is a demand on every implementation: a result
/// that is `Ok` is exact. A stream that calls itself `reliable` also never
/// fails a read, or a seek whose target lands, and fills a read buffer as far
/// as its bytes go.
pub trait ByteStream: Sized {
    /// What a failed read or seek reports.
    type Error;

    /// The stream's bytes, from offset 0 to the end.
    ///
    /// The default, like that of `cursor`, is one fixed unknown value shared
    /// by every stream that keeps it. It lets streams driven from outside
    /// verified code implement the trait, but such a stream cannot meet the
    /// contracts below once it reads a byte, and nothing proved here holds
    /// of it.
    open spec fn content(&self) -> Seq<u8> {
        arbitrary()
    }

    /// The offset the next read starts from; it may lie past the end.
    open spec fn cursor(&self) -> nat {
        arbitrary()
    }

    /// Whether reads and landing seeks always succeed and reads are never
    /// short. Only an implementation that says so is taken to be reliable.
    open spec fn reliable(&self) -> bool {
        false
    }

    /// Whether every seek fails, as on a pipe. Only an implementation that
    /// says so is taken to refuse seeks.
    open spec fn refuses_seeks(&self) -> bool {
        false
    }

    /// Reads up to `buf.len()` bytes from the cursor into the front of `buf`,
    /// moving the cursor past them. `Ok(0)` on a non-empty buffer is the end.
    fn read(&mut self, buf: &mut [u8]) -> (r: Result<usize, Self::Error>)
        ensures
            final(self).content() == old(self).content(),
            final(self).reliable() == old(self).reliable(),
            final(self).refuses_seeks() == old(self).refuses_seeks(),
            final(buf)@.len() == old(buf)@.len(),
            match r {
                Ok(n) => {
                    &&& n <= full_read(
                        old(buf)@.len() as int,
                        old(self).cursor() as int,
                        old(self).content().len() as int,
                    )
                    &&& final(self).cursor() == old(self).cursor() + n
                    &&& forall|k: int|
                        0 <= k < n ==> #[trigger] final(buf)@[k] == old(self).content()[old(
                            self,
                        ).cursor() + k]
                    &&& forall|k: int|
                        n <= k < old(buf)@.len() ==> #[trigger] final(buf)@[k] == old(buf)@[k]
                },
                Err(_) => final(self).cursor() == old(self).cursor(),
            },
            old(self).reliable() ==> (match r {
                Ok(n) => n == full_read(
                    old(buf)@.len() as int,
                    old(self).cursor() as int,
                    old(self).content().len() as int,
                ),
                Err(_) => false,
            }),
    ;

    /// Moves the cursor to the offset that `pos` names and returns that offset.
    fn seek(&mut self, pos: SeekFrom) -> (r: Result<u64, Self::Error>)
        ensures
            final(self).content() == old(self).content(),
            final(self).reliable() == old(self).reliable(),
            final(self).refuses_seeks() == old(self).refuses_seeks(),
            old(self).refuses_seeks() ==> r is Err,
            match r {
                Ok(p) => {
                    &&& p == seek_target(pos, old(self).cursor() as int, old(self).content().len() as int)
                    &&& final(self).cursor() == p
                },
                Err(_) => final(self).cursor() == old(self).cursor(),
            },
            old(self).reliable() && lands(
                seek_target(pos, old(self).cursor() as int, old(self).content().len() as int),
            ) ==> r is Ok,
    ;
}

/// The length of `stream`, found by seeking to its end and then back to where
/// the cursor stood; the cursor is left in place whenever this succeeds.
pub fn stream_len<T: ByteStream>(stream: &mut T) -> (r: Result<u64, T::Error>)
    ensures
        final(stream).content() == old(stream).content(),
        final(stream).reliable() == old(stream).reliable(),
        final(stream).refuses_seeks() == old(stream).refuses_seeks(),
        old(stream).refuses_seeks() ==> r is Err,
        final(stream).cursor() <= u64::MAX || final(stream).cursor() == old(stream).cursor(),
        match r {
            Ok(n) => {
                &&& n == old(stream).content().len()
                &&& final(stream).cursor() == old(stream).cursor()
            },
            Err(_) => true,
        },
        old(stream).reliable() && old(stream).content().len() <= u64::MAX && old(stream).cursor()
            <= u64::MAX ==> r is Ok,
{
    let old_pos = stream.seek(SeekFrom::Current(0))?;
    let len = stream.seek(SeekFrom::End(0))?;
    // Seeking back is only needed when the cursor did not already stand at the end.
    if old_pos != len {
        stream.seek(SeekFrom::Start(old_pos))?;
    }
    Ok(len)
}

/// Why a seek on a `MemoryStream` failed.
#[derive(Clone, Copy, Debug, PartialEq, Eq, Structural)]
pub enum MemoryStreamError {
    /// The target offset was negative or beyond what a `u64` holds.
    InvalidOffset,
    /// The stream was made without seek support.
    Unsupported,
}

/// A stream over bytes held in memory, with a cursor that may pass the end.
pub struct MemoryStream {
    data: Vec<u8>,
    pos: u64,
    seekable: bool,
}

impl MemoryStream {
    /// A seekable stream over `data`, with the cursor at the start.
    pub fn new(data: Vec<u8>) -> (s: MemoryStream)
        ensures
            s.content() == data@,
            s.cursor() == 0,
            s.reliable(),
            !s.refuses_seeks(),
    {
        MemoryStream { data, pos: 0, seekable: true }
    }

    /// A stream over `data` that reads like `new`'s but fails every seek, as a pipe does.
    pub fn unseekable(data: Vec<u8>) -> (s: MemoryStream)
        ensures
            s.content() == data@,
            s.cursor() == 0,
            !s.reliable(),
            s.refuses_seeks(),
    {
        MemoryStream { data, pos: 0, seekable: false }
    }
}

impl ByteStream for MemoryStream {
    type Error = MemoryStreamError;

    closed spec fn content(&self) -> Seq<u8> {
        self.data@
    }

    closed spec fn cursor(&self) -> nat {
        self.pos as nat
    }

    closed spec fn reliable(&self) -> bool {
        self.seekable
    }

    closed spec fn refuses_seeks(&self) -> bool {
        !self.seekable
    }

    fn read(&mut self, buf: &mut [u8]) -> (r: Result<usize, MemoryStreamError>) {
        let len = self.data.len();
        let start: usize = if self.pos < len as u64 {
            self.pos as usize
        } else {
            len
        };
        let avail: usize = len - start;
        let n: usize = if buf.len() < avail {
            buf.len()
        } else {
            avail
        };
        let mut i: usize = 0;
        while i < n
            invariant
                i <= n,
                n <= buf@.len(),
                self.data@ == old(self).data@,
                self.pos == old(self).pos,
                start + n <= len,
                len == self.data@.len(),
                buf@.len() == old(buf)@.len(),
                forall|k: int| 0 <= k < i ==> buf@[k] == self.data@[start + k],
                forall|k: int| i <= k < buf@.len() ==> buf@[k] == old(buf)@[k],
            decreases n - i,
        {
            buf[i] = self.data[start + i];
            i = i + 1;
        }
        if n > 0 {
            self.pos = (start + n) as u64;
        }
        Ok(n)
    }

    fn seek(&mut self, pos: SeekFrom) -> (r: Result<u64, MemoryStreamError>) {
        if !self.seekable {
            return Err(MemoryStreamError::Unsupported);
        }
        let target: i128 = match pos {
            SeekFrom::Start(n) => n as i128,
            SeekFrom::End(d) => self.data.len() as i128 + d as i128,
            SeekFrom::Current(d) => self.pos as i128 + d as i128,
        };
        if target < 0 || target > u64::MAX as i128 {
            return Err(MemoryStreamError::InvalidOffset);
        }
        self.pos = target as u64;
        Ok(self.pos)
    }
}

} // verus!
