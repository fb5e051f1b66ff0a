//! Status and image packets from a Koden radar.

use vstd::prelude::*;
use vstd::slice::*;

use super::locator;
use super::locator::is_image_packet;
use super::protocol;
use super::protocol::{actual_spoke_pixels, model_name, range_index_to_meters};
use super::protocol::{
    CMD_ANTENNA_SPEED, CMD_AUTO_GAIN_MODE, CMD_AUTO_STC_MODE, CMD_BLANKING_SECTOR,
    CMD_COARSE_TUNING, CMD_FINE_TUNING, CMD_FTC, CMD_GAIN, CMD_INTERFERENCE_REJECTION,
    CMD_MODEL_CODE, CMD_MODEL_INFO, CMD_PARK_ANGLE, CMD_PULSE_LENGTH, CMD_STC,
    CMD_TARGET_EXPANSION, CMD_TRANSMISSION_MODE, CMD_TRIGGER_DELAY, CMD_TUNING_MODE,
    CONTROL_PREFIX, IMG_MIN_SIZE, IMG_NUM_SPOKES, IMG_RANGE_INDEX, IMG_SAMPLES_PER_SPOKE,
    IMG_SPOKE_DATA, IMG_SPOKE_DATA_ROTATED, IMG_START_ANGLE, IMG_TOTAL_SPOKES, IMG_TRANSFER_TYPE,
    PACKET_END, RESP_POWER, RESP_WARMUP, SPOKES, STATUS_PREFIX, TRANSFER_NORMAL, TRANSFER_ROTATED,
    WARMUP_COMPLETE, WIRE_AUTO, WIRE_FALSE, WIRE_TRUE,
};
use crate::bytes;
use crate::bytes::{get_be16, get_be32, get_le16};
use crate::radar;
use crate::radar::{ControlId, Power, Spoke, SpokeView, Update};
use crate::text;
use crate::text::{owned, push_decimal};

verus! {

/// A control that shows a text, and the text.
pub struct TextUpdate {
    pub id: ControlId,
    pub text: String,
}

/// What a packet brings.
pub struct PacketOutcome {
    pub updates: Vec<Update>,
    pub text: Option<TextUpdate>,
    pub spokes: Vec<Spoke>,
}

/// What a packet brings.
pub ghost struct OutcomeView {
    pub updates: Seq<Update>,
    pub text: Option<(ControlId, Seq<char>)>,
    pub spokes: Seq<SpokeView>,
}

impl View for PacketOutcome {
    type V = OutcomeView;

    open spec fn view(&self) -> OutcomeView {
        OutcomeView {
            updates: self.updates@,
            text: match self.text {
                Some(t) => Some((t.id, t.text@)),
                None => None,
            },
            spokes: radar::spokes_view(self.spokes@),
        }
    }
}

/// Nothing.
pub open spec fn nothing() -> OutcomeView {
    OutcomeView { updates: Seq::empty(), text: None, spokes: Seq::empty() }
}

/// One control change.
pub open spec fn one(update: Update) -> OutcomeView {
    OutcomeView { updates: seq![update], ..nothing() }
}

/// A text to show.
pub open spec fn shows(id: ControlId, text: Seq<char>) -> OutcomeView {
    OutcomeView { text: Some((id, text)), ..nothing() }
}

/// Whether a control or status packet ends as it should.
pub open spec fn ended(data: Seq<u8>) -> bool {
    data.len() >= 3 && data.last() == PACKET_END
}

/// What a control response brings.
pub open spec fn control_response(data: Seq<u8>) -> OutcomeView {
    if !ended(data) {
        nothing()
    } else if data[1] == RESP_WARMUP {
        one(
            Update::Power(
                if data[2] == WARMUP_COMPLETE {
                    Power::Standby
                } else {
                    Power::Preparing
                },
            ),
        )
    } else if data[1] == RESP_POWER {
        one(Update::Power(Power::Preparing))
    } else {
        nothing()
    }
}

/// The sea state for a wire value.
pub open spec fn sea_state(wire: u8) -> i64 {
    if wire == 0x11 {
        1
    } else if wire == 0x22 {
        2
    } else {
        0
    }
}

/// The interference rejection for a wire value.
pub open spec fn rejection(wire: u8) -> i64 {
    if wire == 0x11 {
        1
    } else if wire == 0x22 {
        2
    } else if wire == 0x33 {
        3
    } else {
        0
    }
}

/// The serial number in a model info status, 0 where it is not there.
pub open spec fn serial_number(data: Seq<u8>) -> nat {
    if data.len() >= 8 { bytes::be32(data, 4) as nat } else { 0 }
}

/// What a one-byte status brings: command `cmd` with `value`.
pub open spec fn byte_status(cmd: u8, value: u8) -> OutcomeView {
    if cmd == CMD_GAIN {
        one(Update::Fraction { id: ControlId::Gain, raw: value })
    } else if cmd == CMD_STC {
        one(Update::Fraction { id: ControlId::Sea, raw: value })
    } else if cmd == CMD_FTC {
        one(Update::Fraction { id: ControlId::Rain, raw: value })
    } else if cmd == CMD_AUTO_GAIN_MODE {
        one(Update::AutoKept { id: ControlId::Gain, auto: value == WIRE_TRUE })
    } else if cmd == CMD_TARGET_EXPANSION {
        one(
            Update::Value {
                id: ControlId::TargetExpansion,
                value: if value == WIRE_FALSE { 1 } else { 0 },
            },
        )
    } else if cmd == CMD_AUTO_STC_MODE {
        one(Update::Value { id: ControlId::SeaState, value: sea_state(value) })
    } else if cmd == CMD_PULSE_LENGTH {
        one(Update::Value { id: ControlId::PulseWidth, value: value as i64 })
    } else if cmd == CMD_INTERFERENCE_REJECTION {
        one(Update::Value { id: ControlId::InterferenceRejection, value: rejection(value) })
    } else if cmd == CMD_TRANSMISSION_MODE {
        one(Update::Power(if value == WIRE_TRUE { Power::Transmit } else { Power::Standby }))
    } else if cmd == CMD_MODEL_CODE {
        shows(ControlId::ModelName, protocol::model_label(value))
    } else if cmd == CMD_TUNING_MODE {
        one(Update::AutoState { id: ControlId::Tune, auto: value == WIRE_AUTO })
    } else if cmd == CMD_COARSE_TUNING {
        one(Update::Value { id: ControlId::Tune, value: value as i64 })
    } else if cmd == CMD_FINE_TUNING {
        one(Update::Value { id: ControlId::TuneFine, value: value as i64 })
    } else if cmd == CMD_TRIGGER_DELAY {
        one(Update::Value { id: ControlId::DisplayTiming, value: value as i64 })
    } else if cmd == CMD_ANTENNA_SPEED {
        one(Update::Value { id: ControlId::ScanSpeed, value: value as i64 })
    } else {
        nothing()
    }
}

/// What a status response brings.
pub open spec fn status_response(data: Seq<u8>) -> OutcomeView {
    if !ended(data) {
        nothing()
    } else if data[1] == CMD_MODEL_INFO {
        if data.len() >= 4 {
            shows(ControlId::SerialNumber, text::decimal(serial_number(data)))
        } else {
            nothing()
        }
    } else if data[1] == CMD_BLANKING_SECTOR {
        if data.len() == 7 {
            one(
                Update::Sector {
                    id: ControlId::NoTransmitSector1,
                    start: bytes::be16(data, 2) as i64,
                    end: bytes::be16(data, 4) as i64,
                    enabled: bytes::be16(data, 2) != bytes::be16(data, 4),
                },
            )
        } else {
            nothing()
        }
    } else if data[1] == CMD_PARK_ANGLE {
        if data.len() == 5 {
            one(Update::Value { id: ControlId::ParkPosition, value: bytes::be16(data, 2) as i64 })
        } else {
            nothing()
        }
    } else if data.len() == 4 {
        byte_status(data[1], data[2])
    } else {
        nothing()
    }
}

// Images

/// Whether an image packet is of a kind that holds spokes.
pub open spec fn has_spokes(data: Seq<u8>) -> bool {
    data[IMG_TRANSFER_TYPE as int] == TRANSFER_NORMAL || data[IMG_TRANSFER_TYPE as int]
        == TRANSFER_ROTATED
}

/// The samples per spoke of an image packet.
pub open spec fn image_pixels(data: Seq<u8>) -> int {
    protocol::spoke_pixels(bytes::le16(data, IMG_SAMPLES_PER_SPOKE as int))
}

/// The spokes per revolution of an image packet.
pub open spec fn image_total(data: Seq<u8>) -> int {
    bytes::le16(data, IMG_TOTAL_SPOKES as int)
}

/// Where the samples of an image packet begin.
pub open spec fn image_offset(data: Seq<u8>) -> int {
    if data[IMG_TRANSFER_TYPE as int] == TRANSFER_ROTATED {
        IMG_SPOKE_DATA_ROTATED as int
    } else {
        IMG_SPOKE_DATA as int
    }
}

/// Whether the numbers of an image packet make sense.
pub open spec fn image_valid(data: Seq<u8>) -> bool {
    image_pixels(data) != 0 && data[IMG_NUM_SPOKES as int] != 0 && image_total(data) != 0
}

/// The number of spokes that an image packet holds whole.
pub open spec fn image_count(data: Seq<u8>) -> int {
    let room = data.len() - image_offset(data);
    let whole = if room < 0 { 0 } else { room / image_pixels(data) };
    if whole < data[IMG_NUM_SPOKES as int] { whole } else { data[IMG_NUM_SPOKES as int] as int }
}

/// The samples halved.
pub open spec fn halved(samples: Seq<u8>) -> Seq<u8> {
    Seq::new(samples.len(), |i: int| samples[i] / 2)
}

/// Spoke `i` of an image packet.
pub open spec fn image_spoke(data: Seq<u8>, heading: Option<u16>, i: int) -> SpokeView {
    let raw = (bytes::le16(data, IMG_START_ANGLE as int) + i) % 0x1_0000 % image_total(data);
    let start = image_offset(data) + i * image_pixels(data);
    SpokeView {
        range: protocol::range_meters(data[IMG_RANGE_INDEX as int] as int) as u32,
        angle: (raw * SPOKES / image_total(data)) as u16,
        heading,
        data: halved(data.subrange(start, start + image_pixels(data))),
    }
}

/// What an image packet brings. `heading` is where the bow points, in spokes.
pub open spec fn image_response(data: Seq<u8>, heading: Option<u16>) -> OutcomeView {
    if !has_spokes(data) {
        nothing()
    } else if !image_valid(data) {
        one(Update::Power(Power::Transmit))
    } else {
        OutcomeView {
            updates: seq![
                Update::Power(Power::Transmit),
                Update::Value {
                    id: ControlId::Range,
                    value: protocol::range_meters(data[IMG_RANGE_INDEX as int] as int) as i64,
                },
            ],
            text: None,
            spokes: Seq::new(image_count(data) as nat, |i: int| image_spoke(data, heading, i)),
        }
    }
}

/// What a packet brings.
pub open spec fn response(data: Seq<u8>, heading: Option<u16>) -> OutcomeView {
    if data.len() < 3 {
        nothing()
    } else if data[0] == CONTROL_PREFIX {
        control_response(data)
    } else if data[0] == STATUS_PREFIX {
        status_response(data)
    } else if locator::is_image(data) {
        image_response(data, heading)
    } else {
        nothing()
    }
}

fn no_outcome() -> (r: PacketOutcome)
    ensures
        r@ == nothing(),
{
    let r = PacketOutcome { updates: Vec::new(), text: None, spokes: Vec::new() };
    assert(r@.spokes =~= Seq::<SpokeView>::empty());
    assert(r@.updates =~= Seq::<Update>::empty());
    r
}

fn single(update: Update) -> (r: PacketOutcome)
    ensures
        r@ == one(update),
{
    let mut r = no_outcome();
    r.updates.push(update);
    assert(r@.updates =~= seq![update]);
    r
}

fn show(id: ControlId, text: String) -> (r: PacketOutcome)
    ensures
        r@ == shows(id, text@),
{
    let mut r = no_outcome();
    r.text = Some(TextUpdate { id, text });
    r
}

fn is_ended(data: &[u8]) -> (r: bool)
    ensures
        r == ended(data@),
{
    data.len() >= 3 && data[data.len() - 1] == PACKET_END
}

fn process_control_response(data: &[u8]) -> (r: PacketOutcome)
    ensures
        r@ == control_response(data@),
{
    if !is_ended(data) {
        return no_outcome();
    }
    match data[1] {
        RESP_WARMUP => {
            if data[2] == WARMUP_COMPLETE {
                single(Update::Power(Power::Standby))
            } else {
                single(Update::Power(Power::Preparing))
            }
        },
        RESP_POWER => single(Update::Power(Power::Preparing)),
        _ => no_outcome(),
    }
}

fn process_byte_status(cmd: u8, value: u8) -> (r: PacketOutcome)
    ensures
        r@ == byte_status(cmd, value),
{
    match cmd {
        CMD_GAIN => single(Update::Fraction { id: ControlId::Gain, raw: value }),
        CMD_STC => single(Update::Fraction { id: ControlId::Sea, raw: value }),
        CMD_FTC => single(Update::Fraction { id: ControlId::Rain, raw: value }),
        CMD_AUTO_GAIN_MODE => single(
            Update::AutoKept { id: ControlId::Gain, auto: value == WIRE_TRUE },
        ),
        CMD_TARGET_EXPANSION => {
            let on: i64 = if value == WIRE_FALSE {
                1
            } else {
                0
            };
            single(Update::Value { id: ControlId::TargetExpansion, value: on })
        },
        CMD_AUTO_STC_MODE => {
            let state: i64 = match value {
                0x11 => 1,
                0x22 => 2,
                _ => 0,
            };
            single(Update::Value { id: ControlId::SeaState, value: state })
        },
        CMD_PULSE_LENGTH => single(
            Update::Value { id: ControlId::PulseWidth, value: value as i64 },
        ),
        CMD_INTERFERENCE_REJECTION => {
            let level: i64 = match value {
                0x11 => 1,
                0x22 => 2,
                0x33 => 3,
                _ => 0,
            };
            single(Update::Value { id: ControlId::InterferenceRejection, value: level })
        },
        CMD_TRANSMISSION_MODE => {
            if value == WIRE_TRUE {
                single(Update::Power(Power::Transmit))
            } else {
                single(Update::Power(Power::Standby))
            }
        },
        CMD_MODEL_CODE => show(ControlId::ModelName, owned(model_name(value))),
        CMD_TUNING_MODE => single(
            Update::AutoState { id: ControlId::Tune, auto: value == WIRE_AUTO },
        ),
        CMD_COARSE_TUNING => single(Update::Value { id: ControlId::Tune, value: value as i64 }),
        CMD_FINE_TUNING => single(Update::Value { id: ControlId::TuneFine, value: value as i64 }),
        CMD_TRIGGER_DELAY => single(
            Update::Value { id: ControlId::DisplayTiming, value: value as i64 },
        ),
        CMD_ANTENNA_SPEED => single(
            Update::Value { id: ControlId::ScanSpeed, value: value as i64 },
        ),
        _ => no_outcome(),
    }
}

fn process_status_response(data: &[u8]) -> (r: PacketOutcome)
    ensures
        r@ == status_response(data@),
{
    if !is_ended(data) {
        return no_outcome();
    }
    match data[1] {
        CMD_MODEL_INFO => {
            if data.len() < 4 {
                return no_outcome();
            }
            let serial: u32 = if data.len() >= 8 {
                get_be32(data, 4)
            } else {
                0
            };
            let mut digits = String::new();
            push_decimal(&mut digits, serial as u64);
            assert(digits@ =~= text::decimal(serial_number(data@)));
            show(ControlId::SerialNumber, digits)
        },
        CMD_BLANKING_SECTOR => {
            if data.len() != 7 {
                return no_outcome();
            }
            let start: u16 = get_be16(data, 2);
            let end: u16 = get_be16(data, 4);
            single(
                Update::Sector {
                    id: ControlId::NoTransmitSector1,
                    start: start as i64,
                    end: end as i64,
                    enabled: start != end,
                },
            )
        },
        CMD_PARK_ANGLE => {
            if data.len() != 5 {
                return no_outcome();
            }
            single(
                Update::Value { id: ControlId::ParkPosition, value: get_be16(data, 2) as i64 },
            )
        },
        _ => {
            if data.len() != 4 {
                return no_outcome();
            }
            process_byte_status(data[1], data[2])
        },
    }
}

fn halve(samples: &[u8]) -> (r: Vec<u8>)
    ensures
        r@ == halved(samples@),
{
    let mut out: Vec<u8> = Vec::new();
    let mut i: usize = 0;
    while i < samples.len()
        invariant
            i <= samples@.len(),
            out@ == halved(samples@).take(i as int),
        decreases samples@.len() - i,
    {
        out.push(samples[i] / 2);
        i += 1;
        assert(out@ =~= halved(samples@).take(i as int));
    }
    assert(halved(samples@).take(i as int) =~= halved(samples@));
    out
}

fn process_image_data(data: &[u8], heading: Option<u16>) -> (r: PacketOutcome)
    requires
        data@.len() >= IMG_MIN_SIZE,
    ensures
        r@ == image_response(data@, heading),
{
    let transfer_type: u8 = data[IMG_TRANSFER_TYPE];
    if transfer_type != TRANSFER_NORMAL && transfer_type != TRANSFER_ROTATED {
        return no_outcome();
    }
    let mut outcome = single(Update::Power(Power::Transmit));
    let range: u32 = range_index_to_meters(data[IMG_RANGE_INDEX]);
    let num_spokes: u16 = data[IMG_NUM_SPOKES] as u16;
    let pixels: usize = actual_spoke_pixels(get_le16(data, IMG_SAMPLES_PER_SPOKE)) as usize;
    let total: u16 = get_le16(data, IMG_TOTAL_SPOKES);
    let start_angle: u16 = get_le16(data, IMG_START_ANGLE);
    if pixels == 0 || num_spokes == 0 || total == 0 {
        return outcome;
    }
    let offset: usize = if transfer_type == TRANSFER_ROTATED {
        IMG_SPOKE_DATA_ROTATED
    } else {
        IMG_SPOKE_DATA
    };
    outcome.updates.push(Update::Value { id: ControlId::Range, value: range as i64 });
    let room: usize = if data.len() < offset {
        0
    } else {
        (data.len() - offset) / pixels
    };
    let count: u16 = if room < num_spokes as usize {
        room as u16
    } else {
        num_spokes
    };
    let ghost whole = image_response(data@, heading).spokes;
    let mut spokes: Vec<Spoke> = Vec::new();
    assert(radar::spokes_view(spokes@) =~= whole.take(0));
    let mut i: u16 = 0;
    proof {
        if data@.len() >= offset {
            let space = data@.len() - offset;
            assert(count * pixels <= space) by (nonlinear_arith)
                requires
                    count <= space / (pixels as int),
                    pixels > 0,
                    space >= 0,
            ;
        }
    }
    while i < count
        invariant
            i <= count <= 255,
            count == image_count(data@),
            count > 0 ==> offset + count * pixels <= data@.len(),
            has_spokes(data@),
            image_valid(data@),
            pixels == image_pixels(data@),
            0 < pixels <= 960,
            offset == image_offset(data@),
            total == image_total(data@),
            total > 0,
            start_angle == bytes::le16(data@, IMG_START_ANGLE as int),
            range == protocol::range_meters(data@[IMG_RANGE_INDEX as int] as int),
            whole == image_response(data@, heading).spokes,
            radar::spokes_view(spokes@) == whole.take(i as int),
        decreases count - i,
    {
        let raw: u32 = (start_angle as u32 + i as u32) % 0x1_0000 % (total as u32);
        assert(raw * 4096 / (total as int) < 4096) by (nonlinear_arith)
            requires
                0 <= raw < total,
        ;
        let angle: u16 = (raw * 4096 / (total as u32)) as u16;
        assert((i + 1) * pixels <= count * pixels) by (nonlinear_arith)
            requires
                i + 1 <= count,
                pixels > 0,
        ;
        assert((i + 1) * pixels == i * pixels + pixels) by (nonlinear_arith);
        let start: usize = offset + (i as usize) * pixels;
        let spoke = Spoke {
            range,
            angle,
            heading,
            data: halve(slice_subrange(data, start, start + pixels)),
        };
        proof {
            radar::lemma_spokes_push(spokes@, spoke);
            assert(spoke@ == image_spoke(data@, heading, i as int));
        }
        spokes.push(spoke);
        i += 1;
        assert(radar::spokes_view(spokes@) =~= whole.take(i as int));
    }
    assert(whole.take(i as int) =~= whole);
    outcome.spokes = spokes;
    assert(outcome@.updates =~= image_response(data@, heading).updates);
    outcome
}

/// Process a packet. `heading` is where the bow points, in spokes.
pub fn process_packet(data: &[u8], heading: Option<u16>) -> (r: PacketOutcome)
    ensures
        r@ == response(data@, heading),
{
    if data.len() < 3 {
        return no_outcome();
    }
    match data[0] {
        CONTROL_PREFIX => process_control_response(data),
        STATUS_PREFIX => process_status_response(data),
        _ => {
            if is_image_packet(data) {
                process_image_data(data, heading)
            } else {
                no_outcome()
            }
        },
    }
}

/// Every spoke of an image packet has the same number of samples and a
/// direction below the spokes per revolution.
pub proof fn law_spokes_are_even(data: Seq<u8>, heading: Option<u16>, i: int)
    requires
        data.len() >= IMG_MIN_SIZE,
        image_valid(data),
        0 <= i < image_count(data),
    ensures
        image_spoke(data, heading, i).data.len() == image_pixels(data),
        image_spoke(data, heading, i).angle < SPOKES,
{
    let total = image_total(data);
    let raw = (bytes::le16(data, IMG_START_ANGLE as int) + i) % 0x1_0000 % total;
    assert(0 <= raw * 4096 / total < 4096) by (nonlinear_arith)
        requires
            0 <= raw < total,
    ;
    let pixels = image_pixels(data);
    let room = data.len() - image_offset(data);
    assert((i + 1) * pixels <= room) by (nonlinear_arith)
        requires
            0 <= i,
            i + 1 <= room / pixels,
            pixels > 0,
            room >= 0,
    ;
    assert((i + 1) * pixels == i * pixels + pixels) by (nonlinear_arith);
    assert(0 <= i * pixels) by (nonlinear_arith)
        requires
            i >= 0,
            pixels > 0,
    ;
}

/// The power state follows what the radar says: it prepares when it is switched on and
/// while it warms up, stands by when that is done and when transmission ends, and
/// transmits when transmission begins.
pub proof fn law_power_reports(value: u8, heading: Option<u16>)
    ensures
        response(seq![0x26u8, 0x70, value, 0x0d], heading) == one(Update::Power(Power::Preparing)),
        response(seq![0x26u8, 0x61, value, 0x0d], heading) == one(
            Update::Power(if value == 0x11 { Power::Standby } else { Power::Preparing }),
        ),
        response(seq![0x23u8, 0x74, value, 0x0d], heading) == one(
            Update::Power(if value == 0x11 { Power::Transmit } else { Power::Standby }),
        ),
{
}

/// A packet without its end changes nothing.
pub proof fn law_packets_must_end(data: Seq<u8>, heading: Option<u16>)
    requires
        data.len() >= 3,
        data[0] == 0x26 || data[0] == 0x23,
        data.last() != 0x0d,
    ensures
        response(data, heading) == nothing(),
{
}

/// The serial number of a model report is shown in decimal, its high byte first.
pub proof fn law_serial_number_is_shown(data: Seq<u8>, n: nat, heading: Option<u16>)
    requires
        data.len() >= 8,
        data[0] == 0x23,
        data[1] == 0x4e,
        data.last() == 0x0d,
        n < 0x1_0000_0000,
        data[4] == n / 0x100_0000,
        data[5] == n / 0x1_0000 % 0x100,
        data[6] == n / 0x100 % 0x100,
        data[7] == n % 0x100,
    ensures
        response(data, heading).text == Some((ControlId::SerialNumber, text::decimal(n))),
        response(data, heading).updates.len() == 0,
{
    assert(bytes::be32(data, 4) == n);
}

/// A spoke of an image packet points where its number says, as a share of the revolution,
/// and its samples are those of the packet, halved: spoke behind spoke, from where the
/// samples begin.
pub proof fn law_image_spokes_read_back(
    data: Seq<u8>,
    heading: Option<u16>,
    start_angle: int,
    total: int,
    pixels: int,
    i: int,
    k: int,
)
    requires
        data.len() >= 0x2c,
        data[0] == 0x7b && data[1] == 0x7b && data[2] == 0x7b && data[3] == 0x7b,
        data[0x0e] == 2 || data[0x0e] == 0x52,
        0 <= start_angle < 0x1_0000,
        data[0x2a] == start_angle % 0x100,
        data[0x2b] == start_angle / 0x100,
        0 < total < 0x1_0000,
        data[0x28] == total % 0x100,
        data[0x29] == total / 0x100,
        pixels == 240 || pixels == 480 || pixels == 960,
        data[0x26] == 0,
        data[0x27] == (if pixels == 240 {
            1int
        } else if pixels == 480 {
            2
        } else {
            4
        }),
        0 <= i < data[0x25],
        start_angle + i < total,
        0 <= k < pixels,
        (if data[0x0e] == 2 { 0x2cint } else { 0xa8 }) + (i + 1) * pixels <= data.len(),
    ensures
        ({
            let spokes = response(data, heading).spokes;
            let offset = if data[0x0e] == 2 { 0x2cint } else { 0xa8 };
            &&& i < spokes.len() <= data[0x25]
            &&& spokes[i].angle * total <= (start_angle + i) * 4096
            &&& (start_angle + i) * 4096 < (spokes[i].angle + 1) * total
            &&& spokes[i].heading == heading
            &&& spokes[i].data.len() == pixels
            &&& 2 * spokes[i].data[k] <= data[offset + i * pixels + k]
            &&& data[offset + i * pixels + k] <= 2 * spokes[i].data[k] + 1
        }),
{
    assert(data.take(4) =~= protocol::IMAGE_MARKER@);
    assert(bytes::le16(data, 0x2a) == start_angle);
    assert(bytes::le16(data, 0x28) == total);
    assert(image_pixels(data) == pixels);
    let offset = image_offset(data);
    let room = data.len() - offset;
    assert(0 <= i * pixels) by (nonlinear_arith)
        requires
            i >= 0,
            pixels > 0,
    ;
    assert((i + 1) * pixels == i * pixels + pixels) by (nonlinear_arith);
    assert(room / pixels >= i + 1) by (nonlinear_arith)
        requires
            pixels > 0,
            room >= (i + 1) * pixels,
    ;
    let raw = start_angle + i;
    assert(raw % 0x1_0000 % total == raw) by (nonlinear_arith)
        requires
            0 <= raw < total < 0x1_0000,
    ;
    let angle = raw * 4096 / total;
    assert(0 <= angle < 4096 && angle * total <= raw * 4096 < (angle + 1) * total)
        by (nonlinear_arith)
        requires
            0 <= raw < total,
            angle == raw * 4096 / total,
    ;
}

/// An image packet shows that the radar transmits, and its range in whole meters: the
/// range index counts eighths of a nautical mile by a table.
pub proof fn law_image_shows_range(data: Seq<u8>, heading: Option<u16>)
    requires
        data.len() >= 0x2c,
        data[0] == 0x7b && data[1] == 0x7b && data[2] == 0x7b && data[3] == 0x7b,
        data[0x0e] == 2 || data[0x0e] == 0x52,
        image_valid(data),
        data[0x10] < 20,
    ensures
        ({
            let r = response(data, heading);
            let eighths = protocol::RANGE_TABLE@[data[0x10] as int];
            &&& r.updates.len() == 2
            &&& r.updates[0] == Update::Power(Power::Transmit)
            &&& r.updates[1] matches Update::Value { id: ControlId::Range, value: meters } && 8
                * meters <= eighths * 1852 < 8 * (meters + 1)
            &&& forall|i: int|
                0 <= i < r.spokes.len() ==> 8 * (#[trigger] r.spokes[i]).range <= eighths * 1852
                    < 8 * (r.spokes[i].range + 1)
        }),
{
    assert(data.take(4) =~= protocol::IMAGE_MARKER@);
    assert(protocol::RANGE_TABLE@[data[0x10] as int] <= 768);
}

/// A model report without a whole serial number shows zero.
pub proof fn law_short_serial_number(data: Seq<u8>, heading: Option<u16>)
    requires
        4 <= data.len() < 8,
        data[0] == 0x23,
        data[1] == 0x4e,
        data.last() == 0x0d,
    ensures
        response(data, heading).text == Some((ControlId::SerialNumber, seq!['0'])),
{
    assert(text::decimal(0) =~= seq!['0']);
}

/// An image packet of another kind brings nothing, and one whose numbers make no sense only
/// shows that the radar transmits.
pub proof fn law_strange_images(data: Seq<u8>, heading: Option<u16>)
    requires
        data.len() >= 0x2c,
        data[0] == 0x7b && data[1] == 0x7b && data[2] == 0x7b && data[3] == 0x7b,
    ensures
        data[0x0e] != 2 && data[0x0e] != 0x52 ==> response(data, heading) == nothing(),
        (data[0x0e] == 2 || data[0x0e] == 0x52) && (data[0x25] == 0 || data[0x28] == 0 && data[0x29]
            == 0 || data[0x26] != 0) ==> response(data, heading) == one(
            Update::Power(Power::Transmit),
        ),
{
    assert(data.take(4) =~= protocol::IMAGE_MARKER@);
}

} // verus!
