//! Heading, course, speed and position for Quantum radars.

use vstd::prelude::*;

use super::protocol::NAVDATA_SUB_ID;
use crate::bytes;
use crate::bytes::{push_le32, to_unsigned32};

verus! {

/// How the ship moves, in the units of the message.
#[derive(Clone, Copy, Debug, PartialEq, Eq, Structural)]
pub struct NavData {
    /// In ten thousandths of a radian.
    pub heading: Option<i32>,
    /// In ten thousandths of a radian.
    pub cog: Option<i32>,
    /// In decimeters per second.
    pub sog: Option<i32>,
    /// In ten millionths of a degree.
    pub position: Option<Position>,
}

/// A position.
#[derive(Clone, Copy, Debug, PartialEq, Eq, Structural)]
pub struct Position {
    pub lat: i32,
    pub lon: i32,
}

/// The bytes of a signed number.
pub open spec fn signed_bytes(x: int) -> Seq<u8> {
    bytes::le32_bytes(bytes::unsigned(x, 0x1_0000_0000))
}

/// A field, 0 where it is not known.
pub open spec fn field(x: Option<i32>) -> Seq<u8> {
    match x {
        Some(v) => signed_bytes(v as int),
        None => signed_bytes(0),
    }
}

/// Which fields are known: 1 for the heading, 4 for the course, 8 for the speed
/// and 16 for the position. 2 would be the speed through water.
pub open spec fn flags(n: NavData) -> int {
    (if n.heading is Some { 1int } else { 0 }) + (if n.cog is Some { 4int } else { 0 }) + (
    if n.sog is Some { 8int } else { 0 }) + (if n.position is Some { 16int } else { 0 })
}

/// The latitude of an optional position.
pub open spec fn lat(n: NavData) -> Option<i32> {
    match n.position {
        Some(p) => Some(p.lat),
        None => None,
    }
}

/// The longitude of an optional position.
pub open spec fn lon(n: NavData) -> Option<i32> {
    match n.position {
        Some(p) => Some(p.lon),
        None => None,
    }
}

/// The message: its id, the flags, the heading, the speed through water, which
/// is not known, the course, the speed and the position.
pub open spec fn navdata_message(n: NavData) -> Seq<u8> {
    bytes::le32_bytes(NAVDATA_SUB_ID as int) + bytes::le32_bytes(flags(n)) + field(n.heading)
        + signed_bytes(0) + field(n.cog) + field(n.sog) + field(lat(n)) + field(lon(n))
}

fn push_field(out: &mut Vec<u8>, x: Option<i32>)
    ensures
        final(out)@ == old(out)@ + field(x),
{
    match x {
        Some(v) => {
            push_le32(out, to_unsigned32(v));
        },
        None => {
            push_le32(out, 0);
        },
    }
}

/// Build the message.
pub fn build_navdata_message(n: &NavData) -> (r: Vec<u8>)
    ensures
        r@ == navdata_message(*n),
{
    let mut flags: u32 = 0;
    if n.heading.is_some() {
        flags += 1;
    }
    if n.cog.is_some() {
        flags += 4;
    }
    if n.sog.is_some() {
        flags += 8;
    }
    let mut lat: Option<i32> = None;
    let mut lon: Option<i32> = None;
    match n.position {
        Some(p) => {
            flags += 16;
            lat = Some(p.lat);
            lon = Some(p.lon);
        },
        None => {},
    }
    let mut buf: Vec<u8> = Vec::new();
    push_le32(&mut buf, NAVDATA_SUB_ID);
    push_le32(&mut buf, flags);
    push_field(&mut buf, n.heading);
    push_field(&mut buf, Some(0));
    push_field(&mut buf, n.cog);
    push_field(&mut buf, n.sog);
    push_field(&mut buf, lat);
    push_field(&mut buf, lon);
    assert(buf@ =~= navdata_message(*n));
    buf
}

/// The message has 32 bytes, and every field that is known is read back from
/// it.
#[verifier::spinoff_prover]
#[verifier::rlimit(30)]
pub proof fn law_navdata_reads_back(n: NavData)
    ensures
        navdata_message(n).len() == 32,
        bytes::le32(navdata_message(n), 4) == flags(n),
        n.heading matches Some(v) ==> bytes::signed32(bytes::le32(navdata_message(n), 8)) == v,
        n.cog matches Some(v) ==> bytes::signed32(bytes::le32(navdata_message(n), 16)) == v,
        n.sog matches Some(v) ==> bytes::signed32(bytes::le32(navdata_message(n), 20)) == v,
        n.position matches Some(p) ==> bytes::signed32(bytes::le32(navdata_message(n), 24))
            == p.lat && bytes::signed32(bytes::le32(navdata_message(n), 28)) == p.lon,
{
    let m = navdata_message(n);
    bytes::lemma_le32_round_trip(flags(n) as u32);
    assert(bytes::le32(m, 4) == bytes::le32(bytes::le32_bytes(flags(n)), 0));
    assert(m.subrange(8, 12) =~= field(n.heading));
    lemma_field(m, 8, n.heading);
    assert(m.subrange(16, 20) =~= field(n.cog));
    lemma_field(m, 16, n.cog);
    assert(m.subrange(20, 24) =~= field(n.sog));
    lemma_field(m, 20, n.sog);
    assert(m.subrange(24, 28) =~= field(lat(n)));
    lemma_field(m, 24, lat(n));
    assert(m.subrange(28, 32) =~= field(lon(n)));
    lemma_field(m, 28, lon(n));
}

proof fn lemma_field(m: Seq<u8>, at: int, x: Option<i32>)
    requires
        0 <= at <= m.len() - 4,
        m.subrange(at, at + 4) == field(x),
    ensures
        x matches Some(v) ==> bytes::signed32(bytes::le32(m, at)) == v,
{
    if x is Some {
        let v = x->0;
        let word = bytes::unsigned(v as int, 0x1_0000_0000);
        bytes::lemma_le32_round_trip(word as u32);
        bytes::lemma_signed32_round_trip(v);
        let f = m.subrange(at, at + 4);
        assert(bytes::le32(m, at) == bytes::le32(f, 0));
    }
}

/// A message says which of its fields are known: each has a bit, and the speed through
/// water is never known.
pub proof fn law_navdata_tells_what_is_known(n: NavData)
    ensures
        flags(n) % 2 == 1 <==> n.heading is Some,
        flags(n) / 2 % 2 == 0,
        flags(n) / 4 % 2 == 1 <==> n.cog is Some,
        flags(n) / 8 % 2 == 1 <==> n.sog is Some,
        flags(n) / 16 == 1 <==> n.position is Some,
        0 <= flags(n) < 32,
        bytes::holds32(navdata_message(n), 0, 0x28000018),
{
    let m = navdata_message(n);
    let id = bytes::le32_bytes(NAVDATA_SUB_ID as int);
    assert(m[0] == id[0] && m[1] == id[1] && m[2] == id[2] && m[3] == id[3]);
}

/// What is not known goes out as zero.
pub proof fn law_unknown_fields_are_zero(n: NavData)
    ensures
        n.heading is None ==> field(n.heading) == seq![0u8, 0, 0, 0],
        n.position is None ==> lat(n) is None && lon(n) is None,
{
    if n.heading is None {
        assert(field(n.heading) =~= seq![0u8, 0, 0, 0]);
    }
}

} // verus!
