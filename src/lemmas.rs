use vstd::prelude::*;

use crate::source::{length_known, reports_length, seek_offset};
use crate::stream::{full_read, SeekFrom};

verus! {

/// Length queries on one source agree: two answers that both give a length
/// give the same one; on a stream whose length is sure to be found every
/// answer is that length; and on a stream that refuses every seek every
/// answer is "unknown".
pub proof fn lemma_length_answers_agree(
    size: nat,
    reliable: bool,
    refuses_seeks: bool,
    r1: Option<u64>,
    r2: Option<u64>,
)
    requires
        reports_length(size, reliable, refuses_seeks, r1),
        reports_length(size, reliable, refuses_seeks, r2),
    ensures
        r1 is Some && r2 is Some ==> r1 == r2,
        length_known(size, reliable) ==> r1 == r2 && r1 == Some(size as u64),
        refuses_seeks ==> r1 == r2 && r1 is None,
{
    assert(refuses_seeks ==> r1 is None);
}

/// On a reliable stream of `size` bytes with the cursor at 0, a read into a
/// buffer of `m <= size` bytes delivers all `m` (`full_read`, which fixes the
/// count of `read` on such a stream), and the cursor then stands at `m`.
pub proof fn lemma_read_from_start_fills(m: nat, size: nat)
    requires
        m <= size,
    ensures
        full_read(m as int, 0, size as int) == m,
{
}

/// The offset that a successful `seek(End(0))` reports is the length that a
/// length query reports, whenever the query gives one; and on a stream whose
/// length is sure to be found the query gives it.
pub proof fn lemma_end_seek_is_length(
    size: nat,
    reliable: bool,
    refuses_seeks: bool,
    p: u64,
    r: Option<u64>,
)
    requires
        seek_offset(SeekFrom::End(0), size) == Some(p as int),
        reports_length(size, reliable, refuses_seeks, r),
    ensures
        r is Some ==> r == Some(p),
        length_known(size, reliable) ==> r == Some(p),
{
}

} // verus!
