//! Fixed-width integers in wire order.

use vstd::prelude::*;
use vstd::slice::*;

verus! {

/// The 16-bit little-endian number at offset `i`.
pub open spec fn le16(s: Seq<u8>, i: int) -> int {
    s[i] + 0x100 * s[i + 1]
}

/// The 32-bit little-endian number at offset `i`.
pub open spec fn le32(s: Seq<u8>, i: int) -> int {
    s[i] + 0x100 * s[i + 1] + 0x1_0000 * s[i + 2] + 0x100_0000 * s[i + 3]
}

/// The 64-bit little-endian number at offset `i`.
pub open spec fn le64(s: Seq<u8>, i: int) -> int {
    le32(s, i) + 0x1_0000_0000 * le32(s, i + 4)
}

/// The 16-bit big-endian number at offset `i`.
pub open spec fn be16(s: Seq<u8>, i: int) -> int {
    0x100 * s[i] + s[i + 1]
}

/// The 32-bit big-endian number at offset `i`.
pub open spec fn be32(s: Seq<u8>, i: int) -> int {
    0x100_0000 * s[i] + 0x1_0000 * s[i + 1] + 0x100 * s[i + 2] + s[i + 3]
}

/// A byte read as a two's complement number.
pub open spec fn signed8(x: int) -> int {
    if x < 0x80 { x } else { x - 0x100 }
}

/// A 16-bit word read as a two's complement number.
pub open spec fn signed16(x: int) -> int {
    if x < 0x8000 { x } else { x - 0x1_0000 }
}

/// A 32-bit word read as a two's complement number.
pub open spec fn signed32(x: int) -> int {
    if x < 0x8000_0000 { x } else { x - 0x1_0000_0000 }
}

/// The number that a two's complement word of `modulus` values holds for `x`.
pub open spec fn unsigned(x: int, modulus: int) -> int {
    x % modulus
}

/// Quotient rounded toward zero, for a positive divisor.
pub open spec fn quotient(x: int, d: int) -> int {
    if x >= 0 { x / d } else { -((-x) / d) }
}

/// The two bytes of a word, low byte first.
pub open spec fn le16_bytes(x: int) -> Seq<u8> {
    seq![(x % 0x100) as u8, (x / 0x100 % 0x100) as u8]
}

/// The four bytes of a word, low byte first.
pub open spec fn le32_bytes(x: int) -> Seq<u8> {
    seq![
        (x % 0x100) as u8,
        (x / 0x100 % 0x100) as u8,
        (x / 0x1_0000 % 0x100) as u8,
        (x / 0x100_0000 % 0x100) as u8,
    ]
}

/// The two bytes of a word, high byte first.
pub open spec fn be16_bytes(x: int) -> Seq<u8> {
    seq![(x / 0x100 % 0x100) as u8, (x % 0x100) as u8]
}

/// Reading back a 16-bit word gives the word that was written.
pub proof fn lemma_le16_round_trip(x: u16)
    ensures
        le16(le16_bytes(x as int), 0) == x,
{
}

/// Reading back a 32-bit word gives the word that was written.
pub proof fn lemma_le32_round_trip(x: u32)
    ensures
        le32(le32_bytes(x as int), 0) == x,
{
}

/// Reading back a big-endian word gives the word that was written.
pub proof fn lemma_be16_round_trip(x: u16)
    ensures
        be16(be16_bytes(x as int), 0) == x,
{
}

/// A signed word survives being stored as an unsigned one.
pub proof fn lemma_signed32_round_trip(x: i32)
    ensures
        signed32(unsigned(x as int, 0x1_0000_0000)) == x,
{
}

pub fn get_le16(data: &[u8], i: usize) -> (r: u16)
    requires
        i + 2 <= data@.len(),
    ensures
        r == le16(data@, i as int),
{
    data[i] as u16 + 0x100 * (data[i + 1] as u16)
}

pub fn get_le32(data: &[u8], i: usize) -> (r: u32)
    requires
        i + 4 <= data@.len(),
    ensures
        r == le32(data@, i as int),
{
    data[i] as u32 + 0x100 * (data[i + 1] as u32) + 0x1_0000 * (data[i + 2] as u32) + 0x100_0000
        * (data[i + 3] as u32)
}

pub fn get_le64(data: &[u8], i: usize) -> (r: u64)
    requires
        i + 8 <= data@.len(),
    ensures
        r == le64(data@, i as int),
{
    assert(data@.len() == data.len());
    let low: u32 = get_le32(data, i);
    let high: u32 = get_le32(data, i + 4);
    low as u64 + 0x1_0000_0000 * (high as u64)
}

pub fn get_be16(data: &[u8], i: usize) -> (r: u16)
    requires
        i + 2 <= data@.len(),
    ensures
        r == be16(data@, i as int),
{
    0x100 * (data[i] as u16) + data[i + 1] as u16
}

pub fn get_be32(data: &[u8], i: usize) -> (r: u32)
    requires
        i + 4 <= data@.len(),
    ensures
        r == be32(data@, i as int),
{
    0x100_0000 * (data[i] as u32) + 0x1_0000 * (data[i + 1] as u32) + 0x100 * (data[i + 2] as u32)
        + data[i + 3] as u32
}

pub fn to_signed16(x: u16) -> (r: i16)
    ensures
        r == signed16(x as int),
{
    if x < 0x8000 {
        x as i16
    } else {
        (x as i32 - 0x1_0000) as i16
    }
}

pub fn to_signed32(x: u32) -> (r: i32)
    ensures
        r == signed32(x as int),
{
    if x < 0x8000_0000 {
        x as i32
    } else {
        (x as i64 - 0x1_0000_0000) as i32
    }
}

pub fn to_unsigned32(x: i32) -> (r: u32)
    ensures
        r == unsigned(x as int, 0x1_0000_0000),
{
    if x >= 0 {
        x as u32
    } else {
        (x as i64 + 0x1_0000_0000) as u32
    }
}

/// The low 16 bits of `x`.
pub fn low_u16(x: i32) -> (r: u16)
    ensures
        r == unsigned(x as int, 0x1_0000),
{
    let u: u32 = to_unsigned32(x);
    let r: u16 = (u % 0x1_0000) as u16;
    proof {
        vstd::arithmetic::div_mod::lemma_mod_multiples_vanish(0x1_0000, x as int, 0x1_0000);
    }
    r
}

/// The low 8 bits of `x`.
pub fn low_u8(x: i32) -> (r: u8)
    ensures
        r == unsigned(x as int, 0x100),
{
    let u: u32 = to_unsigned32(x);
    let r: u8 = (u % 0x100) as u8;
    proof {
        vstd::arithmetic::div_mod::lemma_mod_multiples_vanish(0x100_0000, x as int, 0x100);
    }
    r
}

/// Quotient rounded toward zero.
pub fn divide(x: i32, d: i32) -> (r: i32)
    requires
        d > 0,
    ensures
        r == quotient(x as int, d as int),
{
    if x >= 0 {
        x / d
    } else {
        let n: i64 = -(x as i64);
        let q: i64 = n / (d as i64);
        assert(0 <= q <= n) by (nonlinear_arith)
            requires
                n >= 0,
                d > 0,
                q == n / (d as i64),
        ;
        (-q) as i32
    }
}

pub fn push_le16(out: &mut Vec<u8>, x: u16)
    ensures
        final(out)@ == old(out)@ + le16_bytes(x as int),
{
    out.push((x % 0x100) as u8);
    out.push((x / 0x100) as u8);
    assert(out@ =~= old(out)@ + le16_bytes(x as int));
}

pub fn push_le32(out: &mut Vec<u8>, x: u32)
    ensures
        final(out)@ == old(out)@ + le32_bytes(x as int),
{
    out.push((x % 0x100) as u8);
    out.push((x / 0x100 % 0x100) as u8);
    out.push((x / 0x1_0000 % 0x100) as u8);
    out.push((x / 0x100_0000 % 0x100) as u8);
    assert(out@ =~= old(out)@ + le32_bytes(x as int));
}

pub fn push_be16(out: &mut Vec<u8>, x: u16)
    ensures
        final(out)@ == old(out)@ + be16_bytes(x as int),
{
    out.push((x / 0x100) as u8);
    out.push((x % 0x100) as u8);
    assert(out@ =~= old(out)@ + be16_bytes(x as int));
}

/// Append all of `data`.
pub fn push_all(out: &mut Vec<u8>, data: &[u8])
    ensures
        final(out)@ == old(out)@ + data@,
{
    out.extend_from_slice(data);
    assert(out@ =~= old(out)@ + data@);
}

/// A copy of `data[from..to]`.
pub fn copy_range(data: &[u8], from: usize, to: usize) -> (r: Vec<u8>)
    requires
        from <= to <= data@.len(),
    ensures
        r@ == data@.subrange(from as int, to as int),
{
    slice_to_vec(slice_subrange(data, from, to))
}

/// Whether two byte strings are the same.
pub fn same_bytes(a: &[u8], b: &[u8]) -> (r: bool)
    ensures
        r == (a@ == b@),
{
    if a.len() != b.len() {
        return false;
    }
    let mut i: usize = 0;
    while i < a.len()
        invariant
            a@.len() == b@.len(),
            i <= a@.len(),
            forall|j: int| 0 <= j < i ==> a@[j] == b@[j],
        decreases a@.len() - i,
    {
        if a[i] != b[i] {
            return false;
        }
        i += 1;
    }
    assert(a@ =~= b@);
    true
}

/// Whether a 16-bit number stands at offset `i`, its low byte first.
pub open spec fn holds16(s: Seq<u8>, i: int, n: int) -> bool {
    0 <= n < 0x1_0000 && s[i] == n % 0x100 && s[i + 1] == n / 0x100
}

/// Whether a 32-bit number stands at offset `i`, its low byte first.
pub open spec fn holds32(s: Seq<u8>, i: int, n: int) -> bool {
    &&& 0 <= n < 0x1_0000_0000
    &&& s[i] == n % 0x100
    &&& s[i + 1] == n / 0x100 % 0x100
    &&& s[i + 2] == n / 0x1_0000 % 0x100
    &&& s[i + 3] == n / 0x100_0000
}

/// Whether a signed 16-bit number stands at offset `i`, its low byte first.
pub open spec fn holds_signed16(s: Seq<u8>, i: int, n: int) -> bool {
    -0x8000 <= n < 0x8000 && holds16(s, i, if n >= 0 { n } else { 0x1_0000 + n })
}

/// Whether a signed 32-bit number stands at offset `i`, its low byte first.
pub open spec fn holds_signed32(s: Seq<u8>, i: int, n: int) -> bool {
    -0x8000_0000 <= n < 0x8000_0000 && holds32(s, i, if n >= 0 { n } else { 0x1_0000_0000 + n })
}

proof fn lemma_long_reads_back(s: Seq<u8>, i: int, n: int)
    requires
        holds32(s, i, n),
    ensures
        le32(s, i) == n,
{
}

/// Numbers are read back as they stand, signed ones with their sign.
pub proof fn law_numbers_read_back(s: Seq<u8>, i: int, n: int)
    ensures
        holds16(s, i, n) ==> le16(s, i) == n,
        holds32(s, i, n) ==> le32(s, i) == n,
        holds_signed16(s, i, n) ==> signed16(le16(s, i)) == n,
        holds_signed32(s, i, n) ==> signed32(le32(s, i)) == n,
{
    if holds32(s, i, n) {
        lemma_long_reads_back(s, i, n);
    }
    if holds_signed32(s, i, n) {
        lemma_long_reads_back(s, i, if n >= 0 { n } else { 0x1_0000_0000 + n });
    }
}

/// A number of 64 bits is its low half, then its high half.
pub proof fn law_halves_read_back(s: Seq<u8>, i: int, low: int, high: int)
    requires
        holds32(s, i, low),
        holds32(s, i + 4, high),
    ensures
        le64(s, i) == low + 0x1_0000_0000 * high,
{
    lemma_long_reads_back(s, i, low);
    lemma_long_reads_back(s, i + 4, high);
}

/// A number with its high byte first is the one with its low byte first, backwards.
pub proof fn law_byte_orders_mirror(s: Seq<u8>, i: int)
    requires
        0 <= i,
        i + 4 <= s.len(),
    ensures
        be16(s, i) == le16(s.reverse(), s.len() - 2 - i),
        be32(s, i) == le32(s.reverse(), s.len() - 4 - i),
        le32(s, i) == le16(s, i) + 0x1_0000 * le16(s, i + 2),
        be32(s, i) == 0x1_0000 * be16(s, i) + be16(s, i + 2),
{
    let r = s.reverse();
    let j = s.len() - 4 - i;
    assert(r[j] == s[i + 3]);
    assert(r[j + 1] == s[i + 2]);
    assert(r[j + 2] == s[i + 1]);
    assert(r[j + 3] == s[i]);
}

/// Bytes hold the number that they were made for, and half the values of a signed byte are
/// negative.
pub proof fn law_bytes_hold_their_number(n: int, byte: u8)
    ensures
        0 <= n < 0x1_0000 ==> holds16(le16_bytes(n), 0, n) && be16_bytes(n)
            == le16_bytes(n).reverse(),
        0 <= n < 0x1_0000_0000 ==> holds32(le32_bytes(n), 0, n),
        -0x80 <= signed8(byte as int) < 0x80,
        (byte - signed8(byte as int)) % 0x100 == 0,
{
    assert(be16_bytes(n) =~= le16_bytes(n).reverse());
}

/// A quotient rounds toward zero: it is the greatest multiple within the number.
pub proof fn law_quotient_rounds_to_zero(x: int, d: int)
    requires
        d > 0,
    ensures
        quotient(-x, d) == -quotient(x, d),
        x >= 0 ==> d * quotient(x, d) <= x < d * (quotient(x, d) + 1),
{
    if x >= 0 {
        vstd::arithmetic::div_mod::lemma_fundamental_div_mod(x, d);
        vstd::arithmetic::div_mod::lemma_mod_bound(x, d);
        let q = x / d;
        assert(d * (q + 1) == d * q + d) by (nonlinear_arith);
    }
}

/// A number that is stored without its sign is read back with it.
pub proof fn law_signed_numbers_survive(x: int)
    ensures
        -0x80 <= x < 0x80 ==> signed8(unsigned(x, 0x100)) == x,
        -0x8000 <= x < 0x8000 ==> signed16(unsigned(x, 0x1_0000)) == x,
        -0x8000_0000 <= x < 0x8000_0000 ==> signed32(unsigned(x, 0x1_0000_0000)) == x,
        0 <= x < 0x100 ==> unsigned(x, 0x100) == x,
{
}

} // verus!
