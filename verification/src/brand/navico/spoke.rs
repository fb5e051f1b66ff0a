//! Spokes from a Navico radar.

use vstd::prelude::*;
use vstd::slice::*;

use super::model::Model;
use super::protocol::{
    FRAME_HEADER_LENGTH, RADAR_LINE_HEADER_LENGTH, RADAR_LINE_LENGTH, SPOKE_DATA_LENGTH,
    VALID_SPOKE_STATUSES,
};
use crate::bytes;
use crate::bytes::{get_le16, get_le32};
use crate::radar;
use crate::radar::{DopplerMode, Legend, Spoke, SpokeView};

verus! {

/// Set in a heading that is relative to true north.
pub const HEADING_TRUE_FLAG: u16 = 0x4000;

/// The bits of a heading that hold the direction.
pub const HEADING_MASK: u16 = 0x0fff;

/// Whether a heading is relative to true north.
pub fn is_heading_true(x: u16) -> (r: bool)
    ensures
        r == (x & HEADING_TRUE_FLAG != 0),
{
    (x & HEADING_TRUE_FLAG) != 0
}

/// Whether a heading has no other bits than the direction and the flag.
pub fn is_valid_heading_value(x: u16) -> (r: bool)
    ensures
        r == (x % 0x4000 <= 0x0fff && x < 0x8000),
{
    let r = (x & 0xb000) == 0;
    assert((x & 0xb000 == 0) == (x % 0x4000 <= 0x0fff && x < 0x8000)) by (bit_vector);
    r
}

/// The direction in a heading that is relative to true north: 0x4000 up to
/// 0x4fff.
pub open spec fn true_heading(x: int) -> Option<u16> {
    if 0x4000 <= x <= 0x4fff { Some((x - 0x4000) as u16) } else { None }
}

/// The direction in a heading that is valid and relative to true north.
pub fn extract_heading_value(x: u16) -> (r: Option<u16>)
    ensures
        r == true_heading(x as int),
{
    let valid = is_valid_heading_value(x);
    let relative = is_heading_true(x);
    let direction: u16 = x & HEADING_MASK;
    assert(x < 0x8000 ==> (x & 0x4000 != 0) == (x >= 0x4000)) by (bit_vector);
    assert(x & 0x0fff == x % 0x1000) by (bit_vector);
    if valid && relative {
        Some(direction)
    } else {
        None
    }
}

// Sample lookup

/// The palette index for a sample of four bits.
pub open spec fn blob(legend: Legend, mode: DopplerMode, sample: int) -> int {
    match mode {
        DopplerMode::Off => sample,
        DopplerMode::Both => match (legend.doppler_approaching, legend.doppler_receding) {
            (Some(approaching), Some(receding)) => if sample == 0x0f {
                approaching.0 as int
            } else if sample == 0x0e {
                receding.0 as int
            } else if sample >= 0x08 {
                sample + 2
            } else {
                sample + 1
            },
            _ => 0,
        },
        DopplerMode::Approaching => match legend.doppler_approaching {
            Some(approaching) => if sample == 0x0f {
                approaching.0 as int
            } else {
                sample + 1
            },
            None => 0,
        },
    }
}

fn blob_of(legend: &Legend, mode: DopplerMode, sample: u8) -> (r: u8)
    requires
        sample < 16,
    ensures
        r == blob(*legend, mode, sample as int),
{
    match mode {
        DopplerMode::Off => sample,
        DopplerMode::Both => match (legend.doppler_approaching, legend.doppler_receding) {
            (Some(approaching), Some(receding)) => {
                if sample == 0x0f {
                    approaching.0
                } else if sample == 0x0e {
                    receding.0
                } else if sample >= 0x08 {
                    sample + 2
                } else {
                    sample + 1
                }
            },
            _ => 0,
        },
        DopplerMode::Approaching => match legend.doppler_approaching {
            Some(approaching) => {
                if sample == 0x0f {
                    approaching.0
                } else {
                    sample + 1
                }
            },
            None => 0,
        },
    }
}

/// The palette indices for each Doppler mode and each sample of four bits.
#[derive(Clone, Copy, Debug)]
pub struct PixelToBlob {
    pub normal: [u8; 16],
    pub both: [u8; 16],
    pub approaching: [u8; 16],
}

impl PixelToBlob {
    /// The table for a mode.
    pub open spec fn table(self, mode: DopplerMode) -> Seq<u8> {
        match mode {
            DopplerMode::Off => self.normal@,
            DopplerMode::Both => self.both@,
            DopplerMode::Approaching => self.approaching@,
        }
    }

    /// Whether the tables are those of a legend.
    pub open spec fn is_of(self, legend: Legend) -> bool {
        forall|mode: DopplerMode, sample: int|
            0 <= sample < 16 ==> (#[trigger] self.table(mode)[sample]) as int == blob(
                legend,
                mode,
                sample,
            )
    }
}

fn blob_row(legend: &Legend, mode: DopplerMode) -> (r: [u8; 16])
    ensures
        forall|sample: int|
            0 <= sample < 16 ==> (#[trigger] r@[sample]) as int == blob(*legend, mode, sample),
{
    let mut row: [u8; 16] = [0u8; 16];
    let mut sample: usize = 0;
    while sample < 16
        invariant
            sample <= 16,
            forall|k: int| 0 <= k < sample ==> (#[trigger] row@[k]) as int == blob(*legend, mode, k),
        decreases 16 - sample,
    {
        row[sample] = blob_of(legend, mode, sample as u8);
        sample += 1;
    }
    row
}

/// The palette indices for a legend.
pub fn pixel_to_blob(legend: &Legend) -> (r: PixelToBlob)
    ensures
        r.is_of(*legend),
{
    PixelToBlob {
        normal: blob_row(legend, DopplerMode::Off),
        both: blob_row(legend, DopplerMode::Both),
        approaching: blob_row(legend, DopplerMode::Approaching),
    }
}

/// The samples of a spoke: two for each byte, the low half first.
pub open spec fn samples(data: Seq<u8>, table: Seq<u8>) -> Seq<u8> {
    Seq::new(
        2 * data.len(),
        |i: int|
            table[if i % 2 == 0 { data[i / 2] as int % 16 } else { data[i / 2] as int / 16 }],
    )
}

/// The samples of a spoke.
pub fn process_spoke(spoke: &[u8], tables: &PixelToBlob, doppler: DopplerMode) -> (r: Vec<u8>)
    ensures
        r@ == samples(spoke@, tables.table(doppler)),
{
    let table: [u8; 16] = match doppler {
        DopplerMode::Off => tables.normal,
        DopplerMode::Both => tables.both,
        DopplerMode::Approaching => tables.approaching,
    };
    let ghost whole = samples(spoke@, table@);
    let mut out: Vec<u8> = Vec::new();
    let mut i: usize = 0;
    while i < spoke.len()
        invariant
            i <= spoke@.len(),
            whole == samples(spoke@, table@),
            out@ == whole.take(2 * i),
        decreases spoke@.len() - i,
    {
        let pixel: usize = spoke[i] as usize;
        assert((2 * i) / 2 == i && (2 * i) % 2 == 0);
        assert((2 * i + 1) / 2 == i && (2 * i + 1) % 2 == 1);
        out.push(table[pixel % 16]);
        out.push(table[pixel / 16]);
        i += 1;
        assert(out@ =~= whole.take(2 * i));
    }
    assert(whole.take(2 * i) =~= whole);
    out
}

/// A spoke has two samples for each byte.
pub proof fn law_two_samples_per_byte(data: Seq<u8>, table: Seq<u8>)
    ensures
        samples(data, table).len() == 2 * data.len(),
        data.len() == SPOKE_DATA_LENGTH ==> samples(data, table).len()
            == super::protocol::SPOKE_PIXEL_LEN,
{
}

// Headers

/// Whether a spoke header has the right length and a status of a valid spoke.
pub open spec fn header_valid(header: Seq<u8>) -> bool {
    header[0] == RADAR_LINE_HEADER_LENGTH && VALID_SPOKE_STATUSES@.contains(header[1])
}

/// The range in meters of a BR24 or 3G spoke: ten meters over the square root
/// of two, taken as 1.414, for each step.
pub open spec fn br24_range(header: Seq<u8>) -> int {
    bytes::le32(header, 12) % 0x100_0000 * 5000 / 707
}

/// The range in meters of a 4G or HALO spoke.
pub open spec fn gen4_range(header: Seq<u8>) -> int {
    let large = bytes::le16(header, 6);
    let small = bytes::le16(header, 12);
    if large == 0x80 {
        if small == 0xffff { 0 } else { small / 4 }
    } else {
        large * small / 512
    }
}

/// Whether a model sends the older spoke header.
pub open spec fn has_old_header(model: Model) -> bool {
    model == Model::BR24 || model == Model::Gen3
}

/// The range, direction and heading of a spoke; `None` when it is not valid.
pub open spec fn header_meaning(model: Model, header: Seq<u8>) -> Option<
    (u32, u16, Option<u16>),
> {
    if header_valid(header) {
        Some(
            (
                (if has_old_header(model) {
                    br24_range(header)
                } else {
                    gen4_range(header)
                }) as u32,
                (bytes::le16(header, 8) / 2) as u16,
                true_heading(bytes::le16(header, 10)),
            ),
        )
    } else {
        None
    }
}

fn is_header_valid(header: &[u8]) -> (r: bool)
    requires
        header@.len() == RADAR_LINE_HEADER_LENGTH,
    ensures
        r == header_valid(header@),
{
    let status: u8 = header[1];
    let known = status == 0x02 || status == 0x12 || status == 0xc2;
    proof {
        assert(VALID_SPOKE_STATUSES@[0] == 0x02 && VALID_SPOKE_STATUSES@[1] == 0x12
            && VALID_SPOKE_STATUSES@[2] == 0xc2);
        if known {
            assert(VALID_SPOKE_STATUSES@.contains(status));
        }
    }
    header[0] as usize == RADAR_LINE_HEADER_LENGTH && known
}

fn validate_4g_range(header: &[u8]) -> (r: u32)
    requires
        header@.len() == RADAR_LINE_HEADER_LENGTH,
    ensures
        r == gen4_range(header@),
{
    let large: u32 = get_le16(header, 6) as u32;
    let small: u32 = get_le16(header, 12) as u32;
    if large == 0x80 {
        if small == 0xffff {
            0
        } else {
            small / 4
        }
    } else {
        assert(0 <= large * small <= 0xffff * 0xffff) by (nonlinear_arith)
            requires
                large <= 0xffff,
                small <= 0xffff,
        ;
        large * small / 512
    }
}

fn validate_br24_range(header: &[u8]) -> (r: u32)
    requires
        header@.len() == RADAR_LINE_HEADER_LENGTH,
    ensures
        r == br24_range(header@),
{
    let steps: u64 = (get_le32(header, 12) % 0x100_0000) as u64;
    (steps * 5000 / 707) as u32
}

/// The range, direction and heading of a spoke.
pub fn validate_header(model: Model, header: &[u8]) -> (r: Option<(u32, u16, Option<u16>)>)
    requires
        header@.len() == RADAR_LINE_HEADER_LENGTH,
    ensures
        r == header_meaning(model, header@),
{
    if !is_header_valid(header) {
        return None;
    }
    let range: u32 = if model == Model::BR24 || model == Model::Gen3 {
        validate_br24_range(header)
    } else {
        validate_4g_range(header)
    };
    let angle: u16 = get_le16(header, 8) / 2;
    Some((range, angle, extract_heading_value(get_le16(header, 10))))
}

// Frames

/// The number of whole spokes in a data packet.
pub open spec fn frame_count(data: Seq<u8>) -> int {
    if data.len() < FRAME_HEADER_LENGTH + RADAR_LINE_LENGTH {
        0
    } else {
        (data.len() - FRAME_HEADER_LENGTH) / RADAR_LINE_LENGTH as int
    }
}

/// The bytes of spoke `i` of a data packet.
pub open spec fn frame_line(data: Seq<u8>, i: int) -> Seq<u8> {
    data.subrange(
        FRAME_HEADER_LENGTH + i * RADAR_LINE_LENGTH,
        FRAME_HEADER_LENGTH + (i + 1) * RADAR_LINE_LENGTH,
    )
}

/// The spoke in a run of bytes, where it is valid.
pub open spec fn line_spoke(model: Model, table: Seq<u8>, line: Seq<u8>) -> Seq<SpokeView> {
    match header_meaning(model, line.take(RADAR_LINE_HEADER_LENGTH as int)) {
        Some((range, angle, heading)) => seq![
            SpokeView {
                range,
                angle,
                heading,
                data: samples(line.skip(RADAR_LINE_HEADER_LENGTH as int), table),
            },
        ],
        None => Seq::empty(),
    }
}

/// The valid spokes among the first `n` of a data packet.
pub open spec fn frame_spokes(model: Model, table: Seq<u8>, data: Seq<u8>, n: nat) -> Seq<SpokeView>
    decreases n,
{
    if n == 0 {
        Seq::empty()
    } else {
        frame_spokes(model, table, data, (n - 1) as nat) + line_spoke(
            model,
            table,
            frame_line(data, n - 1),
        )
    }
}

/// The valid spokes of a data packet.
pub fn process_frame(
    data: &[u8],
    model: Model,
    tables: &PixelToBlob,
    doppler: DopplerMode,
) -> (r: Vec<Spoke>)
    ensures
        radar::spokes_view(r@) == frame_spokes(
            model,
            tables.table(doppler),
            data@,
            frame_count(data@) as nat,
        ),
{
    let mut spokes: Vec<Spoke> = Vec::new();
    assert(radar::spokes_view(spokes@) =~= Seq::<SpokeView>::empty());
    if data.len() < FRAME_HEADER_LENGTH + RADAR_LINE_LENGTH {
        return spokes;
    }
    let count: usize = (data.len() - FRAME_HEADER_LENGTH) / RADAR_LINE_LENGTH;
    let ghost table = tables.table(doppler);
    let mut i: usize = 0;
    while i < count
        invariant
            i <= count,
            count == (data@.len() - FRAME_HEADER_LENGTH) / RADAR_LINE_LENGTH as int,
            data@.len() >= FRAME_HEADER_LENGTH + RADAR_LINE_LENGTH,
            data@.len() == data.len(),
            table == tables.table(doppler),
            radar::spokes_view(spokes@) == frame_spokes(model, table, data@, i as nat),
        decreases count - i,
    {
        let at: usize = FRAME_HEADER_LENGTH + i * RADAR_LINE_LENGTH;
        let middle: usize = at + RADAR_LINE_HEADER_LENGTH;
        let end: usize = at + RADAR_LINE_LENGTH;
        let header = slice_subrange(data, at, middle);
        let ghost line = frame_line(data@, i as int);
        let ghost before = radar::spokes_view(spokes@);
        assert(header@ =~= line.take(RADAR_LINE_HEADER_LENGTH as int));
        match validate_header(model, header) {
            Some((range, angle, heading)) => {
                let body = slice_subrange(data, middle, end);
                assert(body@ =~= line.skip(RADAR_LINE_HEADER_LENGTH as int));
                let spoke = Spoke {
                    range,
                    angle,
                    heading,
                    data: process_spoke(body, tables, doppler),
                };
                proof {
                    radar::lemma_spokes_push(spokes@, spoke);
                }
                spokes.push(spoke);
                assert(radar::spokes_view(spokes@) =~= before + seq![spoke@]);
            },
            None => {
                assert(before + Seq::<SpokeView>::empty() =~= before);
            },
        }
        i += 1;
    }
    spokes
}

/// A spoke header reads back: the direction that was put into it, in steps of a 2048th of
/// a turn, and the heading where it was marked as true.
pub proof fn law_header_reads_back(model: Model, header: Seq<u8>, k: int, heading: int)
    requires
        header.len() == 24,
        header[0] == 24,
        header[1] == 0x02 || header[1] == 0x12 || header[1] == 0xc2,
        0 <= k < 0x8000,
        bytes::holds16(header, 8, 2 * k),
        bytes::holds16(header, 10, heading),
    ensures
        header_meaning(model, header) matches Some((range, angle, h)) && {
            &&& angle == k
            &&& 0x4000 <= heading < 0x5000 ==> h == Some((heading - 0x4000) as u16)
            &&& heading < 0x4000 || 0x5000 <= heading ==> h is None
        },
{
    bytes::law_numbers_read_back(header, 8, 2 * k);
    bytes::law_numbers_read_back(header, 10, heading);
    assert(VALID_SPOKE_STATUSES@[0] == 0x02 && VALID_SPOKE_STATUSES@[1] == 0x12
        && VALID_SPOKE_STATUSES@[2] == 0xc2);
}

/// A spoke of another status, or with another header length, is not taken.
pub proof fn law_other_spokes_are_dropped(model: Model, header: Seq<u8>)
    requires
        header.len() == 24,
        header[0] != 24 || header[1] != 0x02 && header[1] != 0x12 && header[1] != 0xc2,
    ensures
        header_meaning(model, header) is None,
{
    assert(forall|i: int|
        0 <= i < 3 ==> VALID_SPOKE_STATUSES@[i] == 0x02 || VALID_SPOKE_STATUSES@[i] == 0x12
            || VALID_SPOKE_STATUSES@[i] == 0xc2);
}

/// The range of a spoke in whole meters: for a BR24 or 3G a step is ten meters over the
/// square root of two, taken as 1.414; for others it is in quarters of a meter, or the
/// product of two numbers in 512ths.
pub proof fn law_header_tells_range(model: Model, header: Seq<u8>, steps: int, large: int, small: int)
    requires
        header.len() == 24,
        header[0] == 24,
        header[1] == 0x02 || header[1] == 0x12 || header[1] == 0xc2,
    ensures
        header_meaning(model, header) matches Some((range, angle, h)) && {
            let old = model == Model::BR24 || model == Model::Gen3;
            &&& old && 0 <= steps < 0x100_0000 && bytes::holds32(
                header,
                12,
                steps + 0x100_0000 * header[15],
            ) ==> 1414 * range <= 10_000 * steps < 1414 * (range + 1)
            &&& !old && bytes::holds16(header, 6, large) && bytes::holds16(header, 12, small) ==> {
                &&& large == 0x80 && small < 0xffff ==> 4 * range <= small < 4 * (range + 1)
                &&& large == 0x80 && small == 0xffff ==> range == 0
                &&& large != 0x80 ==> 512 * range <= large * small < 512 * (range + 1)
            }
        },
{
    assert(VALID_SPOKE_STATUSES@[0] == 0x02 && VALID_SPOKE_STATUSES@[1] == 0x12
        && VALID_SPOKE_STATUSES@[2] == 0xc2);
    bytes::law_numbers_read_back(header, 12, steps + 0x100_0000 * header[15]);
    bytes::law_numbers_read_back(header, 6, large);
    bytes::law_numbers_read_back(header, 12, small);
    let l = bytes::le16(header, 6);
    let s = bytes::le16(header, 12);
    assert(0 <= l * s <= 0xffff * 0xffff) by (nonlinear_arith)
        requires
            0 <= l <= 0xffff,
            0 <= s <= 0xffff,
    ;
}

/// Samples read back: a byte is its low half, then its high half.
pub proof fn law_samples_read_back(data: Seq<u8>, table: Seq<u8>, i: int, low: int, high: int)
    requires
        0 <= i < data.len(),
        0 <= low < 16,
        0 <= high < 16,
        data[i] == low + 16 * high,
    ensures
        samples(data, table)[2 * i] == table[low],
        samples(data, table)[2 * i + 1] == table[high],
{
    assert((2 * i) / 2 == i && (2 * i + 1) / 2 == i);
}

/// Without Doppler samples are what they are. With it, the highest are approaching
/// targets, the second highest receding ones where both are marked, and all others keep
/// their order.
pub proof fn law_samples_are_told_apart(
    legend: Legend,
    approaching: (u8, u8),
    receding: (u8, u8),
    s: int,
    t: int,
)
    requires
        legend.doppler_approaching == Some(approaching),
        legend.doppler_receding == Some(receding),
        0 <= s < t < 16,
    ensures
        blob(legend, DopplerMode::Off, s) == s,
        blob(legend, DopplerMode::Both, 15) == approaching.0,
        blob(legend, DopplerMode::Both, 14) == receding.0,
        blob(legend, DopplerMode::Approaching, 15) == approaching.0,
        t < 14 ==> s < blob(legend, DopplerMode::Both, s) < blob(legend, DopplerMode::Both, t) < 16,
        t < 15 ==> blob(legend, DopplerMode::Approaching, t) - blob(
            legend,
            DopplerMode::Approaching,
            s,
        ) == t - s,
        s < 15 ==> blob(legend, DopplerMode::Approaching, s) == s + 1,
{
}

/// Byte `j` of spoke `i` of a packet stands behind the packet's header of eight bytes and
/// the spokes before it, of 536 bytes each.
pub proof fn law_spokes_stand_in_line(data: Seq<u8>, i: int, j: int)
    requires
        0 <= i < frame_count(data),
        0 <= j < 536,
    ensures
        frame_line(data, i).len() == 536,
        frame_line(data, i)[j] == data[8 + 536 * i + j],
        data.len() >= 8 + 536 * frame_count(data),
        data.len() < 8 + 536 * (frame_count(data) + 1),
{
}

/// Valid spokes come out one by one, in the order of the packet.
pub proof fn law_spokes_come_in_order(
    model: Model,
    table: Seq<u8>,
    data: Seq<u8>,
    n: nat,
    i: int,
)
    requires
        n <= frame_count(data),
        forall|k: int|
            0 <= k < n ==> header_meaning(model, (#[trigger] frame_line(data, k)).take(24)) is Some,
        0 <= i < n,
    ensures
        ({
            let spokes = frame_spokes(model, table, data, n);
            let line = frame_line(data, i);
            &&& spokes.len() == n
            &&& header_meaning(model, line.take(24)) == Some(
                (spokes[i].range, spokes[i].angle, spokes[i].heading),
            )
            &&& spokes[i].data.len() == 1024
            &&& spokes[i].data == samples(line.skip(24), table)
        }),
    decreases n,
{
    if n > 1 && i < n - 1 {
        law_spokes_come_in_order(model, table, data, (n - 1) as nat, i);
    } else if n > 1 {
        law_spokes_come_in_order(model, table, data, (n - 1) as nat, 0);
    } else {
        assert(frame_spokes(model, table, data, 0) =~= Seq::<SpokeView>::empty());
    }
    law_spokes_stand_in_line(data, n - 1, 0);
    assert(header_meaning(model, frame_line(data, n - 1).take(24)) is Some);
}

/// A spoke that is not valid leaves the others as they are.
pub proof fn law_invalid_spokes_are_left_out(
    model: Model,
    table: Seq<u8>,
    data: Seq<u8>,
    n: nat,
)
    requires
        header_meaning(model, frame_line(data, n as int).take(24)) is None,
    ensures
        frame_spokes(model, table, data, n + 1) == frame_spokes(model, table, data, n),
{
    assert(frame_spokes(model, table, data, n + 1) =~= frame_spokes(model, table, data, n));
}

} // verus!
