//! A seekable byte source that serialises access to one stream across threads
//! and works out the stream's length once, without moving its cursor.

pub mod lemmas;
pub mod source;
pub mod stream;

pub use source::ReadSeekSource;
pub use stream::{stream_len, ByteStream, MemoryStream, MemoryStreamError, SeekFrom};
