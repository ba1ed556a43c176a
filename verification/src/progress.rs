use vstd::prelude::*;

verus! {

/// How many bytes of a download count as received once a chunk of
/// `chunk_len` bytes came in behind `downloaded` bytes: their sum, but no more
/// than the `total` that was announced.
pub open spec fn position_after(downloaded: int, chunk_len: int, total: int) -> int {
    if downloaded + chunk_len <= total {
        downloaded + chunk_len
    } else {
        total
    }
}

/// The position of a download after one more chunk, as `position_after`
/// states.
pub fn advance(downloaded: u64, chunk_len: usize, total: u64) -> (position: u64)
    ensures
        position == position_after(downloaded as int, chunk_len as int, total as int),
{
    if downloaded <= total && (chunk_len as u64) <= total - downloaded {
        downloaded + (chunk_len as u64)
    } else {
        total
    }
}

} // verus!
