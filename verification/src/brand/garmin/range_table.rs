//! The range table that xHD and later Garmin radars report.
//!
//! The body holds a version and the body length as 16-bit words, the number of
//! entries as a 32-bit word, and the distances in meters as 32-bit words.

use vstd::prelude::*;

use crate::bytes;
use crate::bytes::{get_le16, get_le32, to_signed32};
use crate::range;
use crate::range::Ranges;

verus! {

/// The most entries that a table can have.
pub const MAX_RANGE_ENTRIES: usize = 32;

/// Offset of the body length.
pub const LENGTH_OFFSET: usize = 2;

/// Offset of the number of entries.
pub const COUNT_OFFSET: usize = 4;

/// Offset of the first distance.
pub const RANGES_OFFSET: usize = 8;

/// The number of entries that a body declares.
pub open spec fn count(payload: Seq<u8>) -> int {
    bytes::le32(payload, 4)
}

/// Whether a body holds as many entries as it declares, at least one, and has
/// the length that it declares.
pub open spec fn is_table(payload: Seq<u8>) -> bool {
    &&& payload.len() >= RANGES_OFFSET
    &&& bytes::le16(payload, 2) == payload.len()
    &&& 1 <= count(payload) <= MAX_RANGE_ENTRIES
    &&& payload.len() >= RANGES_OFFSET + 4 * count(payload)
}

/// The distances that a body lists.
pub open spec fn distances(payload: Seq<u8>) -> Seq<i32> {
    Seq::new(
        count(payload) as nat,
        |i: int| bytes::signed32(bytes::le32(payload, RANGES_OFFSET + 4 * i)) as i32,
    )
}

/// Read the body of a range table message. `None` when it is malformed.
pub fn parse(payload: &[u8]) -> (r: Option<Ranges>)
    ensures
        r is Some <==> is_table(payload@),
        r matches Some(ranges) ==> {
            &&& range::sorted_from(ranges@, distances(payload@))
            &&& ranges@ == range::sorted(distances(payload@))
        },
{
    if payload.len() < RANGES_OFFSET {
        return None;
    }
    if get_le16(payload, LENGTH_OFFSET) as usize != payload.len() {
        return None;
    }
    let n: u32 = get_le32(payload, COUNT_OFFSET);
    if n == 0 || n > MAX_RANGE_ENTRIES as u32 {
        return None;
    }
    let entries: usize = n as usize;
    if payload.len() < RANGES_OFFSET + entries * 4 {
        return None;
    }
    let mut list: Vec<i32> = Vec::new();
    let mut i: usize = 0;
    while i < entries
        invariant
            i <= entries <= 32,
            entries == count(payload@),
            is_table(payload@),
            list@ == distances(payload@).take(i as int),
        decreases entries - i,
    {
        list.push(to_signed32(get_le32(payload, RANGES_OFFSET + i * 4)));
        i += 1;
        assert(list@ =~= distances(payload@).take(i as int));
    }
    assert(distances(payload@).take(i as int) =~= distances(payload@));
    Some(Ranges::new_by_distance(list.as_slice()))
}

/// A table reads back: every distance that was put into it is listed, in its place.
pub proof fn law_table_reads_back(payload: Seq<u8>, n: int, i: int, meters: int)
    requires
        0 <= i < n <= 32,
        payload.len() == 8 + 4 * n,
        payload[2] == payload.len() as int,
        payload[3] == 0,
        payload[4] == n && payload[5] == 0 && payload[6] == 0 && payload[7] == 0,
        0 <= meters < 0x8000_0000,
        payload[8 + 4 * i] == meters % 0x100,
        payload[9 + 4 * i] == meters / 0x100 % 0x100,
        payload[10 + 4 * i] == meters / 0x1_0000 % 0x100,
        payload[11 + 4 * i] == meters / 0x100_0000,
    ensures
        is_table(payload),
        distances(payload).len() == n,
        distances(payload)[i] == meters,
{
    let at = 8 + 4 * i;
    assert(payload[at + 1] == payload[9 + 4 * i]);
    assert(payload[at + 2] == payload[10 + 4 * i]);
    assert(payload[at + 3] == payload[11 + 4 * i]);
    assert(bytes::le32(payload, at) == meters);
}

} // verus!
