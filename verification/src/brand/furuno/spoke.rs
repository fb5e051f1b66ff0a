//! Furuno spoke frames: header fields, sweep encodings and palette mapping.
//!
//! A frame holds a 16-byte header and a number of sweeps. Each sweep starts
//! with its angle and heading; the samples follow, raw or run-length encoded,
//! padded to a multiple of four bytes.

use vstd::prelude::*;
use vstd::slice::*;

use super::protocol::{
    wire_index_to_meters_for_unit, ENCODING_1_REPEAT_DEFAULT, ENCODING_3_REPEAT_DEFAULT,
    FRAME_HEADER_LEN, WIRE_UNIT_KM, WIRE_UNIT_NM,
};
use super::protocol;

verus! {

/// Header fields of a spoke frame.
#[derive(Clone, Copy, Debug, PartialEq, Eq, Structural)]
pub struct FurunoSpokeMetadata {
    pub sweep_count: u32,
    /// Samples per sweep on the wire.
    pub sweep_len: u32,
    /// How the samples are encoded, 0 to 3.
    pub encoding: u8,
    /// Whether the sweeps carry a heading.
    pub have_heading: u8,
    /// Distance in meters, 0 when the wire index is unknown.
    pub range: u32,
    /// 0 for range A, 1 for range B.
    pub radar_no: u8,
    /// Number of samples that cover the range; the rest lies beyond it.
    pub scale: u32,
}

/// A piece of an encoded sweep.
pub ghost enum Token {
    /// One sample.
    Literal(u8),
    /// The sample before, so many times.
    RepeatLast(nat),
    /// So many samples of the previous sweep, at the same place.
    CopyPrevious(nat),
}

/// A repeat count, where zero stands for the largest.
pub open spec fn run_length(count: u8, default: usize) -> nat {
    if count == 0 { default as nat } else { count as nat }
}

/// What a byte of an encoded sweep stands for.
pub open spec fn token(encoding: u8, b: u8) -> Token {
    if encoding == 3 {
        if b % 4 == 0 {
            Token::Literal(b)
        } else if b % 2 == 0 {
            Token::CopyPrevious(run_length(b / 4, ENCODING_3_REPEAT_DEFAULT))
        } else {
            Token::RepeatLast(run_length(b / 4, ENCODING_3_REPEAT_DEFAULT))
        }
    } else if b % 2 == 0 {
        Token::Literal(b)
    } else if encoding == 2 {
        Token::CopyPrevious(run_length(b / 2, ENCODING_1_REPEAT_DEFAULT))
    } else {
        Token::RepeatLast(run_length(b / 2, ENCODING_1_REPEAT_DEFAULT))
    }
}

/// The sample at place `i` of a sweep, zero beyond its end.
pub open spec fn sample_or_zero(s: Seq<u8>, i: int) -> u8 {
    if 0 <= i < s.len() { s[i] } else { 0 }
}

/// The samples `out` with those of one more token.
pub open spec fn extended(out: Seq<u8>, prev: Seq<u8>, t: Token) -> Seq<u8> {
    match t {
        Token::Literal(b) => out.push(b),
        Token::RepeatLast(n) => out + Seq::new(n, |i: int| sample_or_zero(out, out.len() - 1)),
        Token::CopyPrevious(n) => out + Seq::new(n, |i: int| sample_or_zero(prev, out.len() + i)),
    }
}

/// The samples of an encoded sweep, from byte `pos` on, after the samples
/// `out`; and the number of bytes read. Reading stops when `len` samples are
/// there or the bytes run out.
pub open spec fn decoded_from(
    encoding: u8,
    sweep: Seq<u8>,
    prev: Seq<u8>,
    len: int,
    pos: int,
    out: Seq<u8>,
) -> (Seq<u8>, int)
    decreases sweep.len() - pos,
{
    if out.len() < len && 0 <= pos < sweep.len() {
        decoded_from(
            encoding,
            sweep,
            prev,
            len,
            pos + 1,
            extended(out, prev, token(encoding, sweep[pos])),
        )
    } else {
        (out, pos)
    }
}

/// `n` rounded up to a multiple of four.
pub open spec fn aligned(n: int) -> int {
    (n + 3) / 4 * 4
}

/// The samples of a sweep and the number of bytes that it takes. Encoding 0 is
/// raw and takes all bytes; the first sweep of a frame in encoding 2 has no
/// predecessor and is in encoding 1.
pub open spec fn decoded(
    encoding: u8,
    first: bool,
    sweep: Seq<u8>,
    prev: Seq<u8>,
    len: int,
) -> (Seq<u8>, int) {
    if encoding == 0 {
        (sweep, sweep.len() as int)
    } else {
        let rle: u8 = if encoding == 2 && first { 1 } else { encoding };
        let (samples, used) = decoded_from(rle, sweep, prev, len, 0, Seq::empty());
        (samples, aligned(used))
    }
}

/// Samples filled up with zeros to at least `len`.
pub open spec fn padded(samples: Seq<u8>, len: int) -> Seq<u8> {
    if samples.len() < len {
        Seq::new(len as nat, |i: int| sample_or_zero(samples, i))
    } else {
        samples
    }
}

/// One decoded sweep.
pub ghost struct Sweep {
    pub angle: u16,
    pub heading: u16,
    pub samples: Seq<u8>,
}

/// The 13-bit number at offset `i`.
pub open spec fn angle_at(s: Seq<u8>, i: int) -> int {
    s[i] + 0x100 * (s[i + 1] % 0x20)
}

/// The decoded sweeps of a frame, given the bytes after the header, the number
/// of sweeps still to come and the samples of the sweep before.
pub open spec fn sweeps(
    encoding: u8,
    len: int,
    rest: Seq<u8>,
    count: nat,
    first: bool,
    prev: Seq<u8>,
) -> Seq<Sweep>
    decreases count,
{
    if count == 0 || rest.len() < 5 {
        Seq::empty()
    } else {
        let body = rest.skip(4);
        let (raw, used) = decoded(encoding, first, body, prev, len);
        let samples = padded(raw, len);
        seq![
            Sweep {
                angle: angle_at(rest, 0) as u16,
                heading: angle_at(rest, 2) as u16,
                samples,
            },
        ] + sweeps(encoding, len, body.skip(used), (count - 1) as nat, false, samples)
    }
}

/// Whether every sweep of a frame ends within the frame, padding included.
pub open spec fn sweeps_complete(
    encoding: u8,
    len: int,
    rest: Seq<u8>,
    count: nat,
    first: bool,
    prev: Seq<u8>,
) -> bool
    decreases count,
{
    count == 0 || rest.len() < 5 || {
        let body = rest.skip(4);
        let (raw, used) = decoded(encoding, first, body, prev, len);
        &&& used <= body.len()
        &&& sweeps_complete(
            encoding,
            len,
            body.skip(used),
            (count - 1) as nat,
            false,
            padded(raw, len),
        )
    }
}

/// The number of leading samples that a stretch draws from.
pub open spec fn effective_len(src: Seq<u8>, src_effective: int) -> int {
    if src_effective < 1 {
        1
    } else if src_effective < src.len() {
        src_effective
    } else {
        src.len() as int
    }
}

/// The first `src_effective` samples of `src`, stretched to `dst_len` samples
/// by taking the nearest: sample `i` stands for `i / dst_len` of the range.
pub open spec fn stretched(src: Seq<u8>, src_effective: int, dst_len: int) -> Seq<u8> {
    let effective = effective_len(src, src_effective);
    Seq::new(
        dst_len as nat,
        |i: int|
            if src.len() == 0 {
                0u8
            } else {
                src[i * effective / dst_len]
            },
    )
}

/// The palette index of a raw echo.
pub open spec fn palette_index(raw: u8, gain: u8, pixel_values: u8) -> u8 {
    let amplified = raw * gain / 4;
    let top: int = if pixel_values == 0 { 0 } else { pixel_values - 1 };
    (if amplified < top { amplified } else { top }) as u8
}

/// The palette indices of raw echoes. In a replay the last one is marked.
pub open spec fn palette(raw: Seq<u8>, gain: u8, pixel_values: u8, replay: bool) -> Seq<u8> {
    Seq::new(
        raw.len(),
        |i: int|
            if replay && i == raw.len() - 1 {
                64u8
            } else {
                palette_index(raw[i], gain, pixel_values)
            },
    )
}

/// The header fields of a spoke frame, when its range is set in kilometres or
/// not.
pub open spec fn metadata(data: Seq<u8>, metric: bool) -> FurunoSpokeMetadata {
    let sweep_len = data[10] + 0x100 * (data[11] % 8);
    let scale = data[14] + 0x100 * (data[15] % 8);
    let unit = if metric { WIRE_UNIT_KM } else { WIRE_UNIT_NM };
    let index = (data[12] % 0x40) as i32;
    FurunoSpokeMetadata {
        sweep_count: (data[9] / 2) as u32,
        sweep_len: sweep_len as u32,
        encoding: data[11] / 8 % 4,
        have_heading: data[11] / 0x20 % 2,
        range: match protocol::slot_meters(protocol::slots(unit), index) {
            Some(m) => m as u32,
            None => 0,
        },
        radar_no: radar_no(data),
        scale: (if scale == 0 { sweep_len } else { scale }) as u32,
    }
}

/// The dual-range identifier of a spoke frame.
pub open spec fn radar_no(data: Seq<u8>) -> u8 {
    data[15] / 0x40 % 2
}

/// Whether a frame is read with the unit of kilometres. Without a range B all
/// frames have the unit of range A.
pub open spec fn frame_metric(data: Seq<u8>, metric_a: bool, metric_b: Option<bool>) -> bool {
    if radar_no(data) == 1 && metric_b is Some { metric_b->0 } else { metric_a }
}

/// Read the header of a spoke frame. `metric_a` and `metric_b` tell whether
/// range A and range B are set in kilometres; a radar without range B has no
/// `metric_b`.
pub fn parse_metadata_header(data: &[u8], metric_a: bool, metric_b: Option<bool>) -> (r:
    FurunoSpokeMetadata)
    requires
        data@.len() >= FRAME_HEADER_LEN,
    ensures
        r == metadata(data@, frame_metric(data@, metric_a, metric_b)),
{
    let sweep_len: u32 = data[10] as u32 + 0x100 * ((data[11] % 8) as u32);
    let scale: u32 = data[14] as u32 + 0x100 * ((data[15] % 8) as u32);
    let radar_no: u8 = data[15] / 0x40 % 2;
    let metric = match metric_b {
        Some(m) if radar_no == 1 => m,
        _ => metric_a,
    };
    let unit: i32 = if metric {
        WIRE_UNIT_KM
    } else {
        WIRE_UNIT_NM
    };
    let index: i32 = (data[12] % 0x40) as i32;
    let meters = wire_index_to_meters_for_unit(index, unit);
    proof {
        protocol::lemma_slot_meters(unit, index, meters);
    }
    let range: u32 = match meters {
        Some(m) => m as u32,
        None => 0,
    };
    FurunoSpokeMetadata {
        sweep_count: (data[9] / 2) as u32,
        sweep_len,
        encoding: data[11] / 8 % 4,
        have_heading: data[11] / 0x20 % 2,
        range,
        radar_no,
        scale: if scale == 0 {
            sweep_len
        } else {
            scale
        },
    }
}

fn push_repeated(spoke: &mut Vec<u8>, count: usize)
    ensures
        final(spoke)@ == extended(old(spoke)@, Seq::empty(), Token::RepeatLast(count as nat)),
{
    let strength: u8 = if spoke.len() == 0 {
        0
    } else {
        spoke[spoke.len() - 1]
    };
    let mut i: usize = 0;
    while i < count
        invariant
            i <= count,
            strength == sample_or_zero(old(spoke)@, old(spoke)@.len() - 1),
            spoke@ == old(spoke)@ + Seq::new(i as nat, |k: int| strength),
        decreases count - i,
    {
        spoke.push(strength);
        i += 1;
        assert(spoke@ =~= old(spoke)@ + Seq::new(i as nat, |k: int| strength));
    }
    assert(spoke@ =~= extended(old(spoke)@, Seq::empty(), Token::RepeatLast(count as nat)));
}

fn push_copied(spoke: &mut Vec<u8>, prev: &[u8], count: usize)
    ensures
        final(spoke)@ == extended(old(spoke)@, prev@, Token::CopyPrevious(count as nat)),
{
    let mut i: usize = 0;
    while i < count
        invariant
            i <= count,
            spoke@ == extended(old(spoke)@, prev@, Token::CopyPrevious(i as nat)),
        decreases count - i,
    {
        let at: usize = spoke.len();
        let strength: u8 = if prev.len() > at {
            prev[at]
        } else {
            0
        };
        spoke.push(strength);
        i += 1;
        assert(spoke@ =~= extended(old(spoke)@, prev@, Token::CopyPrevious(i as nat)));
    }
    assert(spoke@ =~= extended(old(spoke)@, prev@, Token::CopyPrevious(count as nat)));
}

fn repeat_count(count: u8, default: usize) -> (r: usize)
    ensures
        r == run_length(count, default),
{
    if count == 0 {
        default
    } else {
        count as usize
    }
}

/// The number of bytes read never exceeds the bytes there are.
pub proof fn lemma_decoded_from_bounds(
    encoding: u8,
    sweep: Seq<u8>,
    prev: Seq<u8>,
    len: int,
    pos: int,
    out: Seq<u8>,
)
    requires
        0 <= pos <= sweep.len(),
    ensures
        pos <= decoded_from(encoding, sweep, prev, len, pos, out).1 <= sweep.len(),
    decreases sweep.len() - pos,
{
    if out.len() < len && pos < sweep.len() {
        lemma_decoded_from_bounds(
            encoding,
            sweep,
            prev,
            len,
            pos + 1,
            extended(out, prev, token(encoding, sweep[pos])),
        );
    }
}

fn decode_runs(encoding: u8, sweep: &[u8], prev: &[u8], sweep_len: usize) -> (r: (Vec<u8>, usize))
    ensures
        r.0@ == decoded_from(encoding, sweep@, prev@, sweep_len as int, 0, Seq::empty()).0,
        r.1 == decoded_from(encoding, sweep@, prev@, sweep_len as int, 0, Seq::empty()).1,
        r.1 <= sweep@.len(),
{
    let mut spoke: Vec<u8> = Vec::new();
    let mut used: usize = 0;
    while spoke.len() < sweep_len && used < sweep.len()
        invariant
            used <= sweep@.len(),
            decoded_from(encoding, sweep@, prev@, sweep_len as int, used as int, spoke@)
                == decoded_from(encoding, sweep@, prev@, sweep_len as int, 0, Seq::empty()),
        decreases sweep@.len() - used,
    {
        let b: u8 = sweep[used];
        let ghost before = spoke@;
        if encoding == 3 {
            if b % 4 == 0 {
                spoke.push(b);
            } else if b % 2 == 0 {
                push_copied(&mut spoke, prev, repeat_count(b / 4, ENCODING_3_REPEAT_DEFAULT));
            } else {
                push_repeated(&mut spoke, repeat_count(b / 4, ENCODING_3_REPEAT_DEFAULT));
            }
        } else if b % 2 == 0 {
            spoke.push(b);
        } else if encoding == 2 {
            push_copied(&mut spoke, prev, repeat_count(b / 2, ENCODING_1_REPEAT_DEFAULT));
        } else {
            push_repeated(&mut spoke, repeat_count(b / 2, ENCODING_1_REPEAT_DEFAULT));
        }
        assert(spoke@ == extended(before, prev@, token(encoding, b)));
        used += 1;
    }
    (spoke, used)
}

/// Encoding 0: raw samples.
pub fn decode_sweep_encoding_0(sweep: &[u8]) -> (r: (Vec<u8>, usize))
    ensures
        (r.0@, r.1 as int) == decoded(0, false, sweep@, Seq::empty(), 0),
{
    (slice_to_vec(sweep), sweep.len())
}

/// Encoding 1: literals and repeats.
pub fn decode_sweep_encoding_1(sweep: &[u8], sweep_len: usize) -> (r: (Vec<u8>, usize))
    requires
        sweep@.len() + 3 <= usize::MAX,
    ensures
        forall|prev: Seq<u8>|
            (r.0@, r.1 as int) == #[trigger] decoded(1, false, sweep@, prev, sweep_len as int),
{
    let none: Vec<u8> = Vec::new();
    let (spoke, used) = decode_runs(1, sweep, none.as_slice(), sweep_len);
    proof {
        assert forall|prev: Seq<u8>|
            #[trigger] decoded(1, false, sweep@, prev, sweep_len as int) == (
                spoke@,
                aligned(used as int),
            ) by {
            lemma_encoding_1_ignores_previous(
                sweep@,
                prev,
                none@,
                sweep_len as int,
                0,
                Seq::empty(),
            );
        }
    }
    (spoke, (used + 3) / 4 * 4)
}

proof fn lemma_encoding_1_ignores_previous(
    sweep: Seq<u8>,
    a: Seq<u8>,
    b: Seq<u8>,
    len: int,
    pos: int,
    out: Seq<u8>,
)
    requires
        0 <= pos <= sweep.len(),
    ensures
        decoded_from(1, sweep, a, len, pos, out) == decoded_from(1, sweep, b, len, pos, out),
    decreases sweep.len() - pos,
{
    if out.len() < len && pos < sweep.len() {
        let t = token(1, sweep[pos]);
        assert(extended(out, a, t) == extended(out, b, t));
        lemma_encoding_1_ignores_previous(sweep, a, b, len, pos + 1, extended(out, a, t));
    }
}

/// Encoding 2: literals and copies of the previous sweep.
pub fn decode_sweep_encoding_2(sweep: &[u8], prev_spoke: &[u8], sweep_len: usize) -> (r: (
    Vec<u8>,
    usize,
))
    requires
        sweep@.len() + 3 <= usize::MAX,
    ensures
        (r.0@, r.1 as int) == decoded(2, false, sweep@, prev_spoke@, sweep_len as int),
{
    let (spoke, used) = decode_runs(2, sweep, prev_spoke, sweep_len);
    (spoke, (used + 3) / 4 * 4)
}

/// Encoding 3: literals, repeats and copies of the previous sweep.
pub fn decode_sweep_encoding_3(sweep: &[u8], prev_spoke: &[u8], sweep_len: usize) -> (r: (
    Vec<u8>,
    usize,
))
    requires
        sweep@.len() + 3 <= usize::MAX,
    ensures
        (r.0@, r.1 as int) == decoded(3, false, sweep@, prev_spoke@, sweep_len as int),
{
    let (spoke, used) = decode_runs(3, sweep, prev_spoke, sweep_len);
    (spoke, (used + 3) / 4 * 4)
}

fn decode_sweep(encoding: u8, first: bool, sweep: &[u8], prev: &[u8], sweep_len: usize) -> (r: (
    Vec<u8>,
    usize,
))
    requires
        encoding <= 3,
        sweep@.len() + 3 <= usize::MAX,
    ensures
        (r.0@, r.1 as int) == decoded(encoding, first, sweep@, prev@, sweep_len as int),
{
    if encoding == 0 {
        decode_sweep_encoding_0(sweep)
    } else if encoding == 1 || (encoding == 2 && first) {
        let r = decode_sweep_encoding_1(sweep, sweep_len);
        assert((r.0@, r.1 as int) == decoded(1, false, sweep@, prev@, sweep_len as int));
        r
    } else if encoding == 2 {
        decode_sweep_encoding_2(sweep, prev, sweep_len)
    } else {
        decode_sweep_encoding_3(sweep, prev, sweep_len)
    }
}

fn pad(spoke: &mut Vec<u8>, len: usize)
    ensures
        final(spoke)@ == padded(old(spoke)@, len as int),
{
    while spoke.len() < len
        invariant
            old(spoke)@.len() <= spoke@.len(),
            spoke@.len() <= len || spoke@ == old(spoke)@,
            spoke@ == padded(old(spoke)@, spoke@.len() as int),
        decreases len - spoke@.len(),
    {
        let ghost before = spoke@;
        spoke.push(0);
        assert(spoke@ =~= padded(old(spoke)@, spoke@.len() as int));
    }
    assert(spoke@ =~= padded(old(spoke)@, len as int));
}

/// Stretch the first `src_effective` samples of a spoke to `dst_len` samples.
pub fn stretch_spoke(src: &[u8], src_effective: usize, dst_len: usize) -> (r: Vec<u8>)
    requires
        dst_len * effective_len(src@, src_effective as int) <= usize::MAX,
    ensures
        r@ == stretched(src@, src_effective as int, dst_len as int),
{
    let mut out: Vec<u8> = Vec::new();
    let effective: usize = if src_effective < 1 {
        1
    } else if src_effective < src.len() {
        src_effective
    } else {
        src.len()
    };
    let mut i: usize = 0;
    while i < dst_len
        invariant
            i <= dst_len,
            src@.len() == src.len(),
            effective == effective_len(src@, src_effective as int),
            dst_len * effective <= usize::MAX,
            out@ == stretched(src@, src_effective as int, dst_len as int).take(i as int),
        decreases dst_len - i,
    {
        let sample: u8 = if src.len() == 0 {
            0
        } else {
            assert(i * effective <= dst_len * effective) by (nonlinear_arith)
                requires
                    i < dst_len,
                    effective >= 0,
            ;
            let j: usize = i * effective / dst_len;
            assert(j < effective) by (nonlinear_arith)
                requires
                    i < dst_len,
                    effective > 0,
                    j == i * effective / (dst_len as int),
            ;
            src[j]
        };
        out.push(sample);
        i += 1;
        assert(out@ =~= stretched(src@, src_effective as int, dst_len as int).take(i as int));
    }
    assert(out@ =~= stretched(src@, src_effective as int, dst_len as int));
    out
}

/// Map raw echoes to palette indices.
pub fn map_to_palette(raw: &[u8], gain: u8, pixel_values: u8, replay: bool) -> (r: Vec<u8>)
    ensures
        r@ == palette(raw@, gain, pixel_values, replay),
{
    let top: u16 = if pixel_values == 0 {
        0
    } else {
        (pixel_values - 1) as u16
    };
    let mut out: Vec<u8> = Vec::new();
    let mut i: usize = 0;
    while i < raw.len()
        invariant
            i <= raw@.len() == raw.len(),
            top == if pixel_values == 0 { 0 } else { pixel_values - 1 },
            out@ == palette(raw@, gain, pixel_values, replay).take(i as int),
        decreases raw@.len() - i,
    {
        let sample: u8 = if replay && i == raw.len() - 1 {
            64
        } else {
            let b: u16 = raw[i] as u16;
            let g: u16 = gain as u16;
            assert(b * g <= 0xff * 0xff) by (nonlinear_arith)
                requires
                    b <= 0xff,
                    g <= 0xff,
            ;
            let amplified: u16 = b * g / 4;
            if amplified < top {
                amplified as u8
            } else {
                top as u8
            }
        };
        out.push(sample);
        i += 1;
        assert(out@ =~= palette(raw@, gain, pixel_values, replay).take(i as int));
    }
    assert(out@ =~= palette(raw@, gain, pixel_values, replay));
    out
}

/// A decoded sweep.
pub struct DecodedSweep {
    pub angle: u16,
    pub heading: u16,
    pub samples: Vec<u8>,
}

impl View for DecodedSweep {
    type V = Sweep;

    open spec fn view(&self) -> Sweep {
        Sweep { angle: self.angle, heading: self.heading, samples: self.samples@ }
    }
}

/// What a list of decoded sweeps holds.
pub open spec fn sweeps_view(s: Seq<DecodedSweep>) -> Seq<Sweep> {
    Seq::new(s.len(), |i: int| s[i]@)
}

/// Decode the sweeps of a frame, given the bytes after the header. `None` when
/// a sweep runs over the end of the frame.
pub fn decode_sweeps(encoding: u8, sweep_len: u32, rest: &[u8], count: u32, prev: &[u8]) -> (r:
    Option<Vec<DecodedSweep>>)
    requires
        encoding <= 3,
        rest@.len() + 3 <= usize::MAX,
    ensures
        r is Some <==> sweeps_complete(
            encoding,
            sweep_len as int,
            rest@,
            count as nat,
            true,
            prev@,
        ),
        r matches Some(v) ==> sweeps_view(v@) == sweeps(
            encoding,
            sweep_len as int,
            rest@,
            count as nat,
            true,
            prev@,
        ),
{
    let mut out: Vec<DecodedSweep> = Vec::new();
    let mut pos: usize = 0;
    let mut done: u32 = 0;
    let mut before: Vec<u8> = slice_to_vec(prev);
    let ghost whole = sweeps(encoding, sweep_len as int, rest@, count as nat, true, prev@);
    proof {
        assert(rest@.skip(0) =~= rest@);
        assert(sweeps_view(out@) + whole =~= whole);
    }
    while done < count && rest.len() - pos >= 5
        invariant
            encoding <= 3,
            done <= count,
            pos <= rest@.len() == rest.len(),
            rest@.len() + 3 <= usize::MAX,
            whole == sweeps(encoding, sweep_len as int, rest@, count as nat, true, prev@),
            sweeps_view(out@) + sweeps(
                encoding,
                sweep_len as int,
                rest@.skip(pos as int),
                (count - done) as nat,
                done == 0,
                before@,
            ) == whole,
            sweeps_complete(
                encoding,
                sweep_len as int,
                rest@.skip(pos as int),
                (count - done) as nat,
                done == 0,
                before@,
            ) <==> sweeps_complete(
                encoding,
                sweep_len as int,
                rest@,
                count as nat,
                true,
                prev@,
            ),
        decreases count - done,
    {
        let ghost here = rest@.skip(pos as int);
        let ghost listed = sweeps_view(out@);
        let angle: u16 = rest[pos] as u16 + 0x100 * ((rest[pos + 1] % 0x20) as u16);
        let heading: u16 = rest[pos + 2] as u16 + 0x100 * ((rest[pos + 3] % 0x20) as u16);
        pos += 4;
        let body = slice_subrange(rest, pos, rest.len());
        assert(body@ =~= here.skip(4));
        let (mut samples, used) = decode_sweep(
            encoding,
            done == 0,
            body,
            before.as_slice(),
            sweep_len as usize,
        );
        if used > body.len() {
            return None;
        }
        pad(&mut samples, sweep_len as usize);
        pos += used;
        done += 1;
        before = slice_to_vec(samples.as_slice());
        out.push(DecodedSweep { angle, heading, samples });
        proof {
            assert(here.skip(4).skip(used as int) =~= rest@.skip(pos as int));
            let item = out@.last()@;
            assert(sweeps_view(out@) =~= listed.push(item));
            let tail = sweeps(
                encoding,
                sweep_len as int,
                rest@.skip(pos as int),
                (count - done) as nat,
                false,
                before@,
            );
            assert(listed + (seq![item] + tail) =~= listed.push(item) + tail);
        }
    }
    proof {
        assert(sweeps_view(out@) + Seq::<Sweep>::empty() =~= sweeps_view(out@));
    }
    Some(out)
}

/// A stretched spoke has the wanted length, and each of its samples is one of
/// the source.
pub proof fn law_stretched(src: Seq<u8>, src_effective: int, dst_len: int)
    requires
        src.len() > 0,
        dst_len >= 0,
    ensures
        stretched(src, src_effective, dst_len).len() == dst_len,
        forall|i: int|
            0 <= i < dst_len ==> src.contains(
                #[trigger] stretched(src, src_effective, dst_len)[i],
            ),
{
    let effective = effective_len(src, src_effective);
    let out = stretched(src, src_effective, dst_len);
    assert forall|i: int| 0 <= i < dst_len implies src.contains(#[trigger] out[i]) by {
        let j = i * effective / dst_len;
        assert(0 <= j < effective) by (nonlinear_arith)
            requires
                0 <= i < dst_len,
                effective > 0,
                j == i * effective / dst_len,
        ;
        assert(src[j] == out[i]);
    }
}

/// Where the spoke has the wanted length and all of it counts, stretching it
/// changes nothing.
pub proof fn law_stretch_is_identity(src: Seq<u8>)
    ensures
        stretched(src, src.len() as int, src.len() as int) == src,
{
    let n = src.len() as int;
    let out = stretched(src, n, n);
    assert forall|i: int| 0 <= i < n implies #[trigger] out[i] == src[i] by {
        assert(i * n / n == i) by (nonlinear_arith)
            requires
                n > 0,
        ;
    }
    assert(out =~= src);
}

/// A palette index is below the number of pixel values, wherever there is one.
pub proof fn law_palette_in_range(raw: u8, gain: u8, pixel_values: u8)
    requires
        pixel_values > 0,
    ensures
        palette_index(raw, gain, pixel_values) < pixel_values,
{
    assert(0 <= raw * gain) by (nonlinear_arith);
}

/// Every sweep of a frame has at least `len` samples.
pub proof fn law_sweeps_padded(
    encoding: u8,
    len: int,
    rest: Seq<u8>,
    count: nat,
    first: bool,
    prev: Seq<u8>,
    i: int,
)
    requires
        0 <= i < sweeps(encoding, len, rest, count, first, prev).len(),
    ensures
        sweeps(encoding, len, rest, count, first, prev)[i].samples.len() >= len,
    decreases count,
{
    let body = rest.skip(4);
    let (raw, used) = decoded(encoding, first, body, prev, len);
    if i > 0 {
        law_sweeps_padded(
            encoding,
            len,
            body.skip(used),
            (count - 1) as nat,
            false,
            padded(raw, len),
            i - 1,
        );
    }
}

/// A header is read as it was made. Its eleven-bit numbers have their low byte first and
/// their three high bits beside other fields; the bits that have no meaning (`spare`) do
/// not matter. A range index that is in use stands for its distance, any other for none.
pub proof fn law_header_reads_back(
    data: Seq<u8>,
    metric: bool,
    sweep_count: int,
    sweep_len: int,
    encoding: int,
    heading: int,
    index: int,
    scale: int,
    radar_no: int,
    meters: Option<i32>,
    spare: (int, int, int, int, int),
)
    requires
        data.len() >= 16,
        0 <= sweep_count < 128,
        0 <= sweep_len < 2048,
        0 <= encoding < 4,
        0 <= heading < 2,
        0 <= index < 64,
        0 <= scale < 2048,
        0 <= radar_no < 2,
        protocol::distance_of(
            protocol::slots(if metric { WIRE_UNIT_KM } else { WIRE_UNIT_NM }),
            index as i32,
            meters,
        ),
        0 <= spare.0 < 2,
        0 <= spare.1 < 4,
        0 <= spare.2 < 4,
        0 <= spare.3 < 8,
        0 <= spare.4 < 2,
        data[9] == spare.0 + 2 * sweep_count,
        data[10] == sweep_len % 256,
        data[11] == sweep_len / 256 + 8 * encoding + 32 * heading + 64 * spare.1,
        data[12] == index + 64 * spare.2,
        data[14] == scale % 256,
        data[15] == scale / 256 + 8 * spare.3 + 64 * radar_no + 128 * spare.4,
    ensures
        ({
            let m = metadata(data, metric);
            &&& m.sweep_count == sweep_count
            &&& m.sweep_len == sweep_len
            &&& m.encoding == encoding
            &&& m.have_heading == heading
            &&& m.radar_no == radar_no
            &&& scale > 0 ==> m.scale == scale
            &&& scale == 0 ==> m.scale == sweep_len
            &&& m.range == match meters {
                Some(distance) => distance as int,
                None => 0,
            }
        }),
{
    let unit = if metric { WIRE_UNIT_KM } else { WIRE_UNIT_NM };
    assert(data[11] % 8 == sweep_len / 256);
    assert(data[11] / 8 % 4 == encoding);
    assert(data[11] / 32 % 2 == heading);
    assert(data[12] % 64 == index);
    assert(data[15] % 8 == scale / 256);
    assert(data[15] / 64 % 2 == radar_no);
    protocol::lemma_slot_meters(unit, index as i32, meters);
}

/// A frame is read in the unit of the range that it belongs to; without a second range,
/// in that of the first.
pub proof fn law_frame_has_unit_of_its_range(
    data: Seq<u8>,
    radar_no: int,
    low: int,
    high: int,
    metric_a: bool,
    metric_b: bool,
)
    requires
        data.len() >= 16,
        0 <= radar_no < 2,
        0 <= low < 64,
        0 <= high < 2,
        data[15] == low + 64 * radar_no + 128 * high,
    ensures
        frame_metric(data, metric_a, None) == metric_a,
        radar_no == 0 ==> frame_metric(data, metric_a, Some(metric_b)) == metric_a,
        radar_no == 1 ==> frame_metric(data, metric_a, Some(metric_b)) == metric_b,
{
    assert(data[15] as int / 64 % 2 == radar_no);
}

/// Whether a byte of an encoded sweep is a sample: even, and in encoding 3 a multiple of
/// four.
pub open spec fn is_sample(encoding: u8, b: u8) -> bool {
    b % 2 == 0 && (encoding == 3 ==> b % 4 == 0)
}

proof fn lemma_samples_decode(
    encoding: u8,
    sweep: Seq<u8>,
    prev: Seq<u8>,
    len: int,
    pos: int,
    n: int,
)
    requires
        1 <= encoding <= 3,
        0 <= pos <= n <= sweep.len(),
        n <= len,
        forall|i: int| 0 <= i < n ==> is_sample(encoding, #[trigger] sweep[i]),
    ensures
        decoded_from(encoding, sweep, prev, len, pos, sweep.take(pos)) == decoded_from(
            encoding,
            sweep,
            prev,
            len,
            n,
            sweep.take(n),
        ),
    decreases n - pos,
{
    if pos < n {
        assert(is_sample(encoding, sweep[pos]));
        assert(sweep.take(pos).push(sweep[pos]) =~= sweep.take(pos + 1));
        lemma_samples_decode(encoding, sweep, prev, len, pos + 1, n);
    }
}

/// Samples stand for themselves: a sweep that is nothing but samples decodes to its
/// first `len` bytes, and takes as many bytes, rounded up to a multiple of four.
pub proof fn law_samples_stand_for_themselves(
    encoding: u8,
    first: bool,
    sweep: Seq<u8>,
    prev: Seq<u8>,
    len: int,
)
    requires
        1 <= encoding <= 3,
        0 <= len <= sweep.len(),
        forall|i: int| 0 <= i < len ==> is_sample(encoding, #[trigger] sweep[i]),
    ensures
        decoded(encoding, first, sweep, prev, len).0 == sweep.take(len),
        len <= decoded(encoding, first, sweep, prev, len).1 < len + 4,
        decoded(encoding, first, sweep, prev, len).1 % 4 == 0,
{
    let rle: u8 = if encoding == 2 && first { 1 } else { encoding };
    assert forall|i: int| 0 <= i < len implies is_sample(rle, #[trigger] sweep[i]) by {
        assert(is_sample(encoding, sweep[i]));
    }
    assert(sweep.take(0) =~= Seq::<u8>::empty());
    lemma_samples_decode(rle, sweep, prev, len, 0, len);
}

/// Whether a byte says to repeat the sample before it `n` times. A count of zero stands
/// for the largest.
pub open spec fn says_repeat(encoding: u8, b: u8, n: int) -> bool {
    if encoding == 3 {
        (1 <= n < 64 && (b == 4 * n + 1 || b == 4 * n + 3)) || (n == 64 && (b == 1 || b == 3))
    } else {
        (1 <= n < 128 && b == 2 * n + 1) || (n == 128 && b == 1)
    }
}

/// Whether a byte says to take `n` samples from the sweep before. A count of zero stands
/// for the largest.
pub open spec fn says_copy(encoding: u8, b: u8, n: int) -> bool {
    if encoding == 3 {
        (1 <= n < 64 && b == 4 * n + 2) || (n == 64 && b == 2)
    } else {
        (1 <= n < 128 && b == 2 * n + 1) || (n == 128 && b == 1)
    }
}

/// A repetition brings the sample before it as often as it says, in encodings 1 and 3,
/// and in the first sweep of a frame in encoding 2.
pub proof fn law_repetition_is_expanded(
    encoding: u8,
    first: bool,
    samples: Seq<u8>,
    b: u8,
    n: int,
    prev: Seq<u8>,
)
    requires
        encoding == 1 || encoding == 3 || (encoding == 2 && first),
        samples.len() > 0,
        forall|i: int| 0 <= i < samples.len() ==> is_sample(encoding, #[trigger] samples[i]),
        says_repeat(encoding, b, n),
    ensures
        ({
            let (out, used) = decoded(
                encoding,
                first,
                samples.push(b),
                prev,
                samples.len() + n,
            );
            &&& out.len() == samples.len() + n
            &&& out.take(samples.len() as int) == samples
            &&& forall|i: int| samples.len() <= i < out.len() ==> #[trigger] out[i]
                == samples.last()
            &&& samples.len() + 1 <= used < samples.len() + 5
        }),
{
    let rle: u8 = if encoding == 2 && first { 1 } else { encoding };
    let sweep = samples.push(b);
    let k = samples.len() as int;
    let len = k + n;
    assert forall|i: int| 0 <= i < k implies is_sample(rle, #[trigger] sweep[i]) by {
        assert(is_sample(encoding, samples[i]));
    }
    assert(sweep.take(0) =~= Seq::<u8>::empty());
    assert(sweep.take(k) =~= samples);
    lemma_samples_decode(rle, sweep, prev, len, 0, k);
    assert(token(rle, b) == Token::RepeatLast(n as nat));
    let out = extended(samples, prev, Token::RepeatLast(n as nat));
    assert(decoded_from(rle, sweep, prev, len, k, samples) == decoded_from(
        rle,
        sweep,
        prev,
        len,
        k + 1,
        out,
    ));
    assert(out.take(k) =~= samples);
}

/// A copy brings as many samples of the sweep before as it says, from the same place on,
/// in encodings 2 and 3.
pub proof fn law_copy_is_expanded(
    encoding: u8,
    samples: Seq<u8>,
    b: u8,
    n: int,
    prev: Seq<u8>,
)
    requires
        encoding == 2 || encoding == 3,
        forall|i: int| 0 <= i < samples.len() ==> is_sample(encoding, #[trigger] samples[i]),
        says_copy(encoding, b, n),
        prev.len() >= samples.len() + n,
    ensures
        ({
            let (out, used) = decoded(
                encoding,
                false,
                samples.push(b),
                prev,
                samples.len() + n,
            );
            &&& out == samples + prev.subrange(samples.len() as int, samples.len() + n)
            &&& samples.len() + 1 <= used < samples.len() + 5
        }),
{
    let sweep = samples.push(b);
    let k = samples.len() as int;
    let len = k + n;
    assert(sweep.take(0) =~= Seq::<u8>::empty());
    assert(sweep.take(k) =~= samples);
    lemma_samples_decode(encoding, sweep, prev, len, 0, k);
    assert(token(encoding, b) == Token::CopyPrevious(n as nat));
    let out = extended(samples, prev, Token::CopyPrevious(n as nat));
    assert(out =~= samples + prev.subrange(k, k + n));
    assert(decoded_from(encoding, sweep, prev, len, k, samples) == decoded_from(
        encoding,
        sweep,
        prev,
        len,
        k + 1,
        out,
    ));
}

/// A frame is read sweep by sweep: one that begins with an angle, a heading and samples
/// gives that sweep, and then the sweeps of what comes behind it.
pub proof fn law_sweeps_follow_each_other(
    encoding: u8,
    head: Seq<u8>,
    samples: Seq<u8>,
    behind: Seq<u8>,
    count: nat,
    first: bool,
    prev: Seq<u8>,
    angle: int,
    heading: int,
    spare: (int, int),
)
    requires
        1 <= encoding <= 3,
        head.len() == 4,
        0 <= angle < 8192,
        0 <= heading < 8192,
        0 <= spare.0 < 8,
        0 <= spare.1 < 8,
        head[0] == angle % 256,
        head[1] == angle / 256 + 32 * spare.0,
        head[2] == heading % 256,
        head[3] == heading / 256 + 32 * spare.1,
        samples.len() > 0,
        samples.len() % 4 == 0,
        forall|i: int| 0 <= i < samples.len() ==> is_sample(encoding, #[trigger] samples[i]),
        count > 0,
    ensures
        sweeps(
            encoding,
            samples.len() as int,
            head + samples + behind,
            count,
            first,
            prev,
        ) == seq![
            Sweep { angle: angle as u16, heading: heading as u16, samples },
        ] + sweeps(
            encoding,
            samples.len() as int,
            behind,
            (count - 1) as nat,
            false,
            samples,
        ),
{
    let rest = head + samples + behind;
    let n = samples.len() as int;
    let body = rest.skip(4);
    assert(body =~= samples + behind);
    assert forall|i: int| 0 <= i < n implies is_sample(encoding, #[trigger] body[i]) by {
        assert(body[i] == samples[i]);
    }
    law_samples_stand_for_themselves(encoding, first, body, prev, n);
    assert(body.take(n) =~= samples);
    assert(decoded(encoding, first, body, prev, n).1 == n);
    assert(body.skip(n) =~= behind);
    assert(rest[0] == head[0] && rest[1] == head[1] && rest[2] == head[2] && rest[3] == head[3]);
}

/// A stretched spoke keeps distances: its sample `i` is the one of the source within
/// whose share of the range it lies.
pub proof fn law_stretch_keeps_distances(
    src: Seq<u8>,
    effective: int,
    dst_len: int,
    i: int,
    j: int,
)
    requires
        1 <= effective <= src.len(),
        0 <= i < dst_len,
        0 <= j < effective,
        j * dst_len <= i * effective < (j + 1) * dst_len,
    ensures
        stretched(src, effective, dst_len)[i] == src[j],
{
    assert(i * effective / dst_len == j) by (nonlinear_arith)
        requires
            dst_len > 0,
            j * dst_len <= i * effective < (j + 1) * dst_len,
    ;
}

/// A stronger echo never gets a lower palette index; no echo gets the lowest, and one
/// that would exceed the palette gets the highest.
pub proof fn law_palette_grows(a: u8, b: u8, gain: u8, pixel_values: u8)
    requires
        a <= b,
        pixel_values > 0,
    ensures
        palette_index(a, gain, pixel_values) <= palette_index(b, gain, pixel_values),
        palette_index(0, gain, pixel_values) == 0,
        a * gain >= 4 * pixel_values ==> palette_index(a, gain, pixel_values) == pixel_values - 1,
        a * gain < 4 * pixel_values ==> 4 * palette_index(a, gain, pixel_values) <= a * gain < 4
            * palette_index(a, gain, pixel_values) + 4,
{
    assert(0 <= a * gain <= b * gain) by (nonlinear_arith)
        requires
            0 <= a <= b,
            gain >= 0,
    ;
    assert(0 * gain == 0) by (nonlinear_arith);
}

/// The last sample of a replayed spoke is marked; every other sample depends on its own
/// echo alone.
pub proof fn law_palette_is_per_sample(
    raw: Seq<u8>,
    gain: u8,
    pixel_values: u8,
    replay: bool,
    i: int,
)
    requires
        0 <= i < raw.len(),
        replay ==> i < raw.len() - 1,
    ensures
        palette(raw, gain, pixel_values, replay).len() == raw.len(),
        palette(raw, gain, pixel_values, replay)[i] == palette(
            seq![raw[i]],
            gain,
            pixel_values,
            false,
        )[0],
        palette(raw, gain, pixel_values, true).last() == 64,
{
}

/// A sweep is silent beyond its end.
pub proof fn law_silence_beyond_the_end(s: Seq<u8>, i: int)
    ensures
        0 <= i < s.len() ==> sample_or_zero(s, i) == s[i],
        i < 0 || i >= s.len() ==> sample_or_zero(s, i) == 0,
{
}

} // verus!
