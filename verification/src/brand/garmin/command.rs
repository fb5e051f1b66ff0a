//! Setting the controls of a Garmin radar.

use vstd::prelude::*;

use super::discovery;
use super::discovery::build_set_alias;
use super::protocol::{
    CDM_CONTROL_PORT, CMD_HD_SET_BEARING_ALIGNMENT, CMD_HD_SET_DITHER, CMD_HD_SET_FTC,
    CMD_HD_SET_GAIN, CMD_HD_SET_RAIN, CMD_HD_SET_RANGE_A, CMD_HD_SET_RPM_MODE, CMD_HD_SET_SEA,
    CMD_HD_SET_TRANSMIT, COMMAND_PORT, DEGREE_SCALE, GAIN_SCALE, GarminRadarType, MSG_AFC_MODE,
    MSG_AFC_TUNING_MODE, MSG_BEARING_ALIGNMENT, MSG_DITHER_MODE, MSG_NOISE_BLANKER,
    MSG_PARK_POSITION, MSG_RANGE_A, MSG_RANGE_A_AUTO_LEVEL, MSG_RANGE_A_DOPPLER_MODE,
    MSG_RANGE_A_GAIN, MSG_RANGE_A_GAIN_MODE, MSG_RANGE_A_PULSE_EXPANSION, MSG_RANGE_A_RAIN_GAIN,
    MSG_RANGE_A_RAIN_MODE, MSG_RANGE_A_SCAN_AVERAGE_MODE, MSG_RANGE_A_SCAN_AVERAGE_SENSITIVITY,
    MSG_RANGE_A_SEA_GAIN, MSG_RANGE_A_SEA_MODE, MSG_RANGE_A_SEA_STATE, MSG_RANGE_A_TARGET_SIZE,
    MSG_RANGE_B, MSG_RANGE_B_DOPPLER_MODE, MSG_RANGE_B_GAIN, MSG_RANGE_B_GAIN_MODE,
    MSG_RANGE_B_PULSE_EXPANSION, MSG_RANGE_B_RADAR_MODE, MSG_RANGE_B_RAIN_GAIN,
    MSG_RANGE_B_RAIN_MODE, MSG_RANGE_B_SCAN_AVERAGE_MODE, MSG_RANGE_B_SCAN_AVERAGE_SENSITIVITY,
    MSG_RANGE_B_SEA_GAIN, MSG_RANGE_B_SEA_MODE, MSG_RANGE_B_SEA_STATE, MSG_RANGE_B_TARGET_SIZE,
    MSG_RPM_MODE, MSG_SENTRY_MODE, MSG_SENTRY_TRANSMIT_TIME, MSG_TRANSMIT_CHANNEL_MODE,
    MSG_TRANSMIT_CHANNEL_SELECT, MSG_TRANSMIT_MODE, NoTxZone,
};
use super::report;
use super::report::{ReceiverView, Subject};
use crate::bytes;
use crate::bytes::{low_u16, low_u8, push_all, push_le32, to_unsigned32};
use crate::radar::{ControlId, ControlRequest, DopplerMode, Power, RangeId, SetError, Update};

verus! {

/// A packet for a radar, and the port that it goes to.
#[derive(Clone, Debug)]
pub struct Packet {
    pub port: u16,
    pub data: Vec<u8>,
}

/// What a packet is.
pub ghost struct PacketView {
    pub port: u16,
    pub data: Seq<u8>,
}

impl View for Packet {
    type V = PacketView;

    open spec fn view(&self) -> PacketView {
        PacketView { port: self.port, data: self.data@ }
    }
}

/// What a list of packets is.
pub open spec fn packets_view(packets: Seq<Packet>) -> Seq<PacketView> {
    Seq::new(packets.len(), |i: int| packets[i]@)
}

/// A message: its id, the length of the payload and the payload.
pub open spec fn frame(id: u32, payload: Seq<u8>) -> Seq<u8> {
    bytes::le32_bytes(id as int) + bytes::le32_bytes(payload.len() as int) + payload
}

/// Build a message with a one-byte value.
pub fn build_packet_9(packet_type: u32, value: u8) -> (r: [u8; 9])
    ensures
        r@ == frame(packet_type, seq![value]),
{
    let t: u32 = packet_type;
    let buf: [u8; 9] = [
        (t % 0x100) as u8,
        (t / 0x100 % 0x100) as u8,
        (t / 0x1_0000 % 0x100) as u8,
        (t / 0x100_0000 % 0x100) as u8,
        1,
        0,
        0,
        0,
        value,
    ];
    assert(buf@ =~= frame(packet_type, seq![value]));
    buf
}

/// Build a message with a two-byte value.
pub fn build_packet_10(packet_type: u32, value: u16) -> (r: [u8; 10])
    ensures
        r@ == frame(packet_type, bytes::le16_bytes(value as int)),
{
    let t: u32 = packet_type;
    let buf: [u8; 10] = [
        (t % 0x100) as u8,
        (t / 0x100 % 0x100) as u8,
        (t / 0x1_0000 % 0x100) as u8,
        (t / 0x100_0000 % 0x100) as u8,
        2,
        0,
        0,
        0,
        (value % 0x100) as u8,
        (value / 0x100 % 0x100) as u8,
    ];
    assert(buf@ =~= frame(packet_type, bytes::le16_bytes(value as int)));
    buf
}

/// Build a message with a four-byte value.
pub fn build_packet_12(packet_type: u32, value: u32) -> (r: [u8; 12])
    ensures
        r@ == frame(packet_type, bytes::le32_bytes(value as int)),
{
    let t: u32 = packet_type;
    let buf: [u8; 12] = [
        (t % 0x100) as u8,
        (t / 0x100 % 0x100) as u8,
        (t / 0x1_0000 % 0x100) as u8,
        (t / 0x100_0000 % 0x100) as u8,
        4,
        0,
        0,
        0,
        (value % 0x100) as u8,
        (value / 0x100 % 0x100) as u8,
        (value / 0x1_0000 % 0x100) as u8,
        (value / 0x100_0000 % 0x100) as u8,
    ];
    assert(buf@ =~= frame(packet_type, bytes::le32_bytes(value as int)));
    buf
}

/// A message for the command port.
pub open spec fn message(id: u32, payload: Seq<u8>) -> PacketView {
    PacketView { port: COMMAND_PORT, data: frame(id, payload) }
}

/// A message with a one-byte value.
pub open spec fn byte_message(id: u32, value: int) -> PacketView {
    message(id, seq![value as u8])
}

/// A message with a two-byte value.
pub open spec fn word_message(id: u32, value: int) -> PacketView {
    message(id, bytes::le16_bytes(value))
}

/// A message with a four-byte value.
pub open spec fn long_message(id: u32, value: int) -> PacketView {
    message(id, bytes::le32_bytes(value))
}

/// A message with a signed four-byte value.
pub open spec fn signed_message(id: u32, value: int) -> PacketView {
    long_message(id, bytes::unsigned(value, 0x1_0000_0000))
}

fn send_9(out: &mut Vec<Packet>, id: u32, value: u8)
    ensures
        packets_view(final(out)@) == packets_view(old(out)@).push(byte_message(id, value as int)),
{
    let mut data: Vec<u8> = Vec::new();
    push_all(&mut data, &build_packet_9(id, value));
    assert(data@ =~= frame(id, seq![value]));
    out.push(Packet { port: COMMAND_PORT, data });
    assert(packets_view(out@) =~= packets_view(old(out)@).push(byte_message(id, value as int)));
}

fn send_10(out: &mut Vec<Packet>, id: u32, value: u16)
    ensures
        packets_view(final(out)@) == packets_view(old(out)@).push(word_message(id, value as int)),
{
    let mut data: Vec<u8> = Vec::new();
    push_all(&mut data, &build_packet_10(id, value));
    assert(data@ =~= frame(id, bytes::le16_bytes(value as int)));
    out.push(Packet { port: COMMAND_PORT, data });
    assert(packets_view(out@) =~= packets_view(old(out)@).push(word_message(id, value as int)));
}

fn send_12(out: &mut Vec<Packet>, id: u32, value: u32)
    ensures
        packets_view(final(out)@) == packets_view(old(out)@).push(long_message(id, value as int)),
{
    let mut data: Vec<u8> = Vec::new();
    push_all(&mut data, &build_packet_12(id, value));
    assert(data@ =~= frame(id, bytes::le32_bytes(value as int)));
    out.push(Packet { port: COMMAND_PORT, data });
    assert(packets_view(out@) =~= packets_view(old(out)@).push(long_message(id, value as int)));
}

/// The value of a negative number survives the wire.
fn send_12_signed(out: &mut Vec<Packet>, id: u32, value: i32)
    ensures
        packets_view(final(out)@) == packets_view(old(out)@).push(signed_message(id, value as int)),
{
    send_12(out, id, to_unsigned32(value));
}

fn none() -> (r: Vec<Packet>)
    ensures
        packets_view(r@) == Seq::<PacketView>::empty(),
{
    let r: Vec<Packet> = Vec::new();
    assert(packets_view(r@) =~= Seq::<PacketView>::empty());
    r
}

/// A request to set a control of a Garmin radar.
#[derive(Clone, Copy, Debug, PartialEq, Eq, Structural)]
pub struct GarminRequest {
    pub request: ControlRequest,
    /// Whether the adjustment of automatic control is above one half.
    pub auto_high: bool,
    /// The adjustment of automatic control without its fraction.
    pub auto_level: u8,
    /// The value as an angle in degrees, without its fraction.
    pub degrees: i32,
    /// The end of a sector in degrees, without its fraction.
    pub end_degrees: i32,
}

impl GarminRequest {
    /// The value, 0 where there is none.
    pub open spec fn value(self) -> int {
        match self.request.number {
            Some(v) => v as int,
            None => 0,
        }
    }

    /// Whether the control is to be enabled. It is, unless said otherwise.
    pub open spec fn wants_enabled(self) -> bool {
        self.request.enabled != Some(false)
    }

    fn number(&self) -> (r: i32)
        ensures
            r == self.value(),
    {
        match self.request.number {
            Some(v) => v,
            None => 0,
        }
    }

    fn is_enabled(&self) -> (r: bool)
        ensures
            r == self.wants_enabled(),
    {
        match self.request.enabled {
            Some(e) => e,
            None => true,
        }
    }
}

/// The sender of commands for one range.
#[derive(Clone, Copy, Debug, PartialEq, Eq, Structural)]
pub struct Command {
    pub radar_type: GarminRadarType,
    pub range_b: bool,
}

/// The smaller of two numbers.
pub open spec fn smaller(a: int, b: int) -> int {
    if a < b { a } else { b }
}

/// The larger of two numbers.
pub open spec fn larger(a: int, b: int) -> int {
    if a > b { a } else { b }
}

/// The nearest 16-bit number.
pub open spec fn clamped16(x: int) -> int {
    larger(-0x8000, smaller(0x7fff, x))
}

/// The value as an unsigned 32-bit number.
pub open spec fn as_u32(x: int) -> int {
    bytes::unsigned(x, 0x1_0000_0000)
}

/// The low 16 bits of a value.
pub open spec fn as_u16(x: int) -> int {
    bytes::unsigned(x, 0x1_0000)
}

/// The low 8 bits of a value.
pub open spec fn as_u8(x: int) -> int {
    bytes::unsigned(x, 0x100)
}

/// 1 for true.
pub open spec fn flag(on: bool) -> int {
    if on { 1 } else { 0 }
}

/// The wire value of a Doppler mode. Approaching and both are the other way
/// round than in the Doppler control.
pub open spec fn doppler_wire(control: int) -> int {
    if control == DopplerMode::Both.value() {
        2
    } else if control == DopplerMode::Approaching.value() {
        1
    } else {
        0
    }
}

/// The wire value of an HD range, one less than the range.
pub open spec fn hd_wire_range(meters: int) -> int {
    if meters == 0 { 0 } else { meters - 1 }
}

impl Command {
    /// The id for this range, given those for ranges A and B.
    pub open spec fn id(self, a: u32, b: u32) -> u32 {
        if self.range_b { b } else { a }
    }

    /// The messages that set a no-transmit zone.
    pub open spec fn zone_messages(zone: NoTxZone, q: GarminRequest) -> Seq<PacketView> {
        if q.wants_enabled() {
            seq![
                byte_message(zone.ids().0, 1),
                signed_message(zone.ids().1, 32 * q.degrees),
                signed_message(zone.ids().2, 32 * q.end_degrees),
            ]
        } else {
            seq![byte_message(zone.ids().0, 0)]
        }
    }

    /// The messages that set a control of an HD radar.
    pub open spec fn hd_messages(self, q: GarminRequest) -> Seq<PacketView> {
        let value = q.value();
        let auto = q.request.wants_auto();
        match q.request.id {
            ControlId::Power => seq![
                word_message(CMD_HD_SET_TRANSMIT, 1 + flag(q.request.wants_transmit())),
            ],
            ControlId::Range => seq![long_message(CMD_HD_SET_RANGE_A, hd_wire_range(as_u32(value)))],
            ControlId::Gain => seq![
                long_message(CMD_HD_SET_GAIN, smaller(as_u32(value), 100) + 0x100 * flag(auto)),
            ],
            ControlId::BearingAlignment => seq![
                word_message(CMD_HD_SET_BEARING_ALIGNMENT, as_u16(clamped16(q.degrees as int))),
            ],
            ControlId::InterferenceRejection => seq![byte_message(CMD_HD_SET_DITHER, as_u8(value))],
            ControlId::Rain => seq![long_message(CMD_HD_SET_RAIN, as_u8(value))],
            ControlId::Sea => seq![
                message(
                    CMD_HD_SET_SEA,
                    bytes::le32_bytes(as_u8(value)) + bytes::le32_bytes(1 + flag(auto)),
                ),
            ],
            ControlId::ScanSpeed => seq![byte_message(CMD_HD_SET_RPM_MODE, as_u8(value))],
            ControlId::TargetExpansion => seq![
                message(CMD_HD_SET_FTC, seq![50u8, flag(value != 0) as u8]),
            ],
            _ => Seq::empty(),
        }
    }

    /// The messages that set a control of an enhanced radar.
    pub open spec fn xhd_messages(self, q: GarminRequest) -> Seq<PacketView> {
        let value = q.value();
        let auto = q.request.wants_auto();
        match q.request.id {
            ControlId::Power => seq![
                byte_message(MSG_TRANSMIT_MODE, flag(q.request.wants_transmit())),
            ],
            ControlId::Range => seq![long_message(self.id(MSG_RANGE_A, MSG_RANGE_B), as_u32(value))],
            ControlId::Gain => if auto {
                seq![
                    byte_message(self.id(MSG_RANGE_A_GAIN_MODE, MSG_RANGE_B_GAIN_MODE), 2),
                    byte_message(
                        self.id(MSG_RANGE_A_AUTO_LEVEL, MSG_RANGE_B_RADAR_MODE),
                        flag(q.auto_high),
                    ),
                ]
            } else {
                seq![
                    byte_message(self.id(MSG_RANGE_A_GAIN_MODE, MSG_RANGE_B_GAIN_MODE), 0),
                    word_message(
                        self.id(MSG_RANGE_A_GAIN, MSG_RANGE_B_GAIN),
                        smaller(100 * as_u32(value), 10_000),
                    ),
                ]
            },
            ControlId::BearingAlignment => seq![
                signed_message(MSG_BEARING_ALIGNMENT, 32 * q.degrees),
            ],
            ControlId::InterferenceRejection => seq![
                byte_message(MSG_DITHER_MODE, as_u8(value)),
                byte_message(MSG_NOISE_BLANKER, as_u8(value)),
            ],
            ControlId::Rain => if q.wants_enabled() {
                seq![
                    byte_message(self.id(MSG_RANGE_A_RAIN_MODE, MSG_RANGE_B_RAIN_MODE), 1),
                    word_message(
                        self.id(MSG_RANGE_A_RAIN_GAIN, MSG_RANGE_B_RAIN_GAIN),
                        100 * as_u8(value),
                    ),
                ]
            } else {
                seq![byte_message(self.id(MSG_RANGE_A_RAIN_MODE, MSG_RANGE_B_RAIN_MODE), 0)]
            },
            ControlId::Sea => if auto {
                seq![
                    byte_message(self.id(MSG_RANGE_A_SEA_MODE, MSG_RANGE_B_SEA_MODE), 2),
                    byte_message(
                        self.id(MSG_RANGE_A_SEA_STATE, MSG_RANGE_B_SEA_STATE),
                        q.auto_level as int,
                    ),
                ]
            } else if as_u8(value) == 0 {
                seq![byte_message(self.id(MSG_RANGE_A_SEA_MODE, MSG_RANGE_B_SEA_MODE), 0)]
            } else {
                seq![
                    byte_message(self.id(MSG_RANGE_A_SEA_MODE, MSG_RANGE_B_SEA_MODE), 1),
                    word_message(
                        self.id(MSG_RANGE_A_SEA_GAIN, MSG_RANGE_B_SEA_GAIN),
                        100 * as_u8(value),
                    ),
                ]
            },
            ControlId::ScanSpeed => seq![byte_message(MSG_RPM_MODE, 2 * as_u8(value))],
            ControlId::NoTransmitSector1 => Command::zone_messages(NoTxZone::One, q),
            ControlId::NoTransmitSector2 => Command::zone_messages(NoTxZone::Two, q),
            ControlId::TargetExpansion => seq![
                byte_message(
                    self.id(MSG_RANGE_A_PULSE_EXPANSION, MSG_RANGE_B_PULSE_EXPANSION),
                    flag(value != 0),
                ),
            ],
            ControlId::TargetBoost => seq![
                byte_message(
                    self.id(MSG_RANGE_A_TARGET_SIZE, MSG_RANGE_B_TARGET_SIZE),
                    as_u8(value),
                ),
            ],
            ControlId::ScanAverageMode => seq![
                byte_message(
                    self.id(MSG_RANGE_A_SCAN_AVERAGE_MODE, MSG_RANGE_B_SCAN_AVERAGE_MODE),
                    as_u8(value),
                ),
            ],
            ControlId::ScanAverageSensitivity => seq![
                word_message(
                    self.id(
                        MSG_RANGE_A_SCAN_AVERAGE_SENSITIVITY,
                        MSG_RANGE_B_SCAN_AVERAGE_SENSITIVITY,
                    ),
                    smaller(100 * as_u16(value), 10_000),
                ),
            ],
            ControlId::TimedIdle => seq![byte_message(MSG_SENTRY_MODE, flag(value != 0))],
            ControlId::TimedRun => seq![
                word_message(MSG_SENTRY_TRANSMIT_TIME, larger(as_u16(value), 1)),
            ],
            ControlId::Doppler => seq![
                byte_message(
                    self.id(MSG_RANGE_A_DOPPLER_MODE, MSG_RANGE_B_DOPPLER_MODE),
                    doppler_wire(value),
                ),
            ],
            ControlId::ParkPosition => seq![signed_message(MSG_PARK_POSITION, 32 * q.degrees)],
            ControlId::Tune => if auto {
                seq![byte_message(MSG_AFC_MODE, 1)]
            } else {
                seq![byte_message(MSG_AFC_MODE, 0), byte_message(MSG_AFC_TUNING_MODE, 1)]
            },
            ControlId::TransmitChannel => if auto {
                seq![byte_message(MSG_TRANSMIT_CHANNEL_MODE, 1)]
            } else {
                seq![
                    byte_message(MSG_TRANSMIT_CHANNEL_MODE, 0),
                    word_message(MSG_TRANSMIT_CHANNEL_SELECT, as_u16(larger(value, 1))),
                ]
            },
            _ => Seq::empty(),
        }
    }

    /// The messages that a request leads to. `name` is the value where it is a
    /// text. Controls that the radar does not have lead to none.
    pub open spec fn messages(self, q: GarminRequest, name: Option<Seq<char>>) -> Result<
        Seq<PacketView>,
        SetError,
    > {
        if q.request.id == ControlId::UserName {
            match name {
                Some(alias) => Ok(
                    seq![
                        PacketView {
                            port: CDM_CONTROL_PORT,
                            data: discovery::alias_packet(alias),
                        },
                    ],
                ),
                None => Ok(Seq::empty()),
            }
        } else if self.radar_type.supported() && q.request.id == ControlId::Power
            && !q.request.has_value {
            Err(SetError::NoNumber)
        } else if self.radar_type == GarminRadarType::HD {
            Ok(self.hd_messages(q))
        } else if self.radar_type == GarminRadarType::XHD {
            Ok(self.xhd_messages(q))
        } else {
            Ok(Seq::empty())
        }
    }

    /// Whether an angle fits its field.
    pub open spec fn angle_fits(degrees: i32) -> bool {
        i32::MIN <= 32 * degrees <= i32::MAX
    }

    /// Whether the numbers of a request can be computed with in their fields.
    pub open spec fn fits(self, q: GarminRequest) -> bool {
        self.radar_type == GarminRadarType::XHD ==> match q.request.id {
            ControlId::Gain => q.request.wants_auto() || 100 * as_u32(q.value()) <= u32::MAX,
            ControlId::ScanSpeed => 2 * as_u8(q.value()) <= u8::MAX,
            ControlId::ScanAverageSensitivity => 100 * as_u16(q.value()) <= u16::MAX,
            ControlId::BearingAlignment | ControlId::ParkPosition => Command::angle_fits(q.degrees),
            ControlId::NoTransmitSector1 | ControlId::NoTransmitSector2 => q.wants_enabled()
                ==> Command::angle_fits(q.degrees) && Command::angle_fits(q.end_degrees),
            _ => true,
        }
    }

    /// A sender for range A.
    pub fn new(radar_type: GarminRadarType) -> (r: Command)
        ensures
            r == (Command { radar_type, range_b: false }),
    {
        Command { radar_type, range_b: false }
    }

    /// A sender for range B.
    pub fn new_range_b(radar_type: GarminRadarType) -> (r: Command)
        ensures
            r == (Command { radar_type, range_b: true }),
    {
        Command { radar_type, range_b: true }
    }

    fn is_angle_usable(degrees: i32) -> (r: bool)
        ensures
            r == Command::angle_fits(degrees),
    {
        -0x400_0000 <= degrees && degrees < 0x400_0000
    }

    /// Whether the numbers of a request can be computed with in their fields.
    pub fn is_settable(&self, q: &GarminRequest) -> (r: bool)
        ensures
            r == self.fits(*q),
    {
        if self.radar_type != GarminRadarType::XHD {
            return true;
        }
        match q.request.id {
            ControlId::Gain => q.request.is_auto() || to_unsigned32(q.number()) <= u32::MAX / 100,
            ControlId::ScanSpeed => low_u8(q.number()) <= 127,
            ControlId::ScanAverageSensitivity => low_u16(q.number()) <= 655,
            ControlId::BearingAlignment | ControlId::ParkPosition => Command::is_angle_usable(
                q.degrees,
            ),
            ControlId::NoTransmitSector1 | ControlId::NoTransmitSector2 => !q.is_enabled() || (
            Command::is_angle_usable(q.degrees) && Command::is_angle_usable(q.end_degrees)),
            _ => true,
        }
    }

    fn pick(&self, a: u32, b: u32) -> (r: u32)
        ensures
            r == self.id(a, b),
    {
        if self.range_b {
            b
        } else {
            a
        }
    }

    fn set_no_transmit_zone(zone: NoTxZone, q: &GarminRequest) -> (r: Vec<Packet>)
        requires
            q.wants_enabled() ==> Command::angle_fits(q.degrees) && Command::angle_fits(
                q.end_degrees,
            ),
        ensures
            packets_view(r@) == Command::zone_messages(zone, *q),
    {
        let (mode, start_op, stop_op) = zone.opcodes();
        let mut out = none();
        if q.is_enabled() {
            send_9(&mut out, mode, 1);
            send_12_signed(&mut out, start_op, q.degrees * DEGREE_SCALE);
            send_12_signed(&mut out, stop_op, q.end_degrees * DEGREE_SCALE);
        } else {
            send_9(&mut out, mode, 0);
        }
        assert(packets_view(out@) =~= Command::zone_messages(zone, *q));
        out
    }

    fn set_gain(&self, q: &GarminRequest) -> (r: Vec<Packet>)
        requires
            self.radar_type == GarminRadarType::XHD,
            q.request.id == ControlId::Gain,
            self.fits(*q),
        ensures
            packets_view(r@) == self.xhd_messages(*q),
    {
        let mode_msg: u32 = self.pick(MSG_RANGE_A_GAIN_MODE, MSG_RANGE_B_GAIN_MODE);
        let mut out = none();
        if q.request.is_auto() {
            send_9(&mut out, mode_msg, 2);
            let high: u8 = if q.auto_high {
                1
            } else {
                0
            };
            send_9(&mut out, self.pick(MSG_RANGE_A_AUTO_LEVEL, MSG_RANGE_B_RADAR_MODE), high);
        } else {
            send_9(&mut out, mode_msg, 0);
            let level: u32 = to_unsigned32(q.number()) * (GAIN_SCALE as u32);
            let scaled: u16 = if level < 10_000 {
                level as u16
            } else {
                10_000
            };
            send_10(&mut out, self.pick(MSG_RANGE_A_GAIN, MSG_RANGE_B_GAIN), scaled);
        }
        assert(packets_view(out@) =~= self.xhd_messages(*q));
        out
    }

    fn set_rain(&self, q: &GarminRequest) -> (r: Vec<Packet>)
        requires
            q.request.id == ControlId::Rain,
        ensures
            packets_view(r@) == self.xhd_messages(*q),
    {
        let mode_msg: u32 = self.pick(MSG_RANGE_A_RAIN_MODE, MSG_RANGE_B_RAIN_MODE);
        let mut out = none();
        if q.is_enabled() {
            send_9(&mut out, mode_msg, 1);
            let level: u16 = (low_u8(q.number()) as u16) * GAIN_SCALE;
            send_10(&mut out, self.pick(MSG_RANGE_A_RAIN_GAIN, MSG_RANGE_B_RAIN_GAIN), level);
        } else {
            send_9(&mut out, mode_msg, 0);
        }
        assert(packets_view(out@) =~= self.xhd_messages(*q));
        out
    }

    fn set_sea(&self, q: &GarminRequest) -> (r: Vec<Packet>)
        requires
            q.request.id == ControlId::Sea,
        ensures
            packets_view(r@) == self.xhd_messages(*q),
    {
        let mode_msg: u32 = self.pick(MSG_RANGE_A_SEA_MODE, MSG_RANGE_B_SEA_MODE);
        let value: u8 = low_u8(q.number());
        let mut out = none();
        if q.request.is_auto() {
            send_9(&mut out, mode_msg, 2);
            let state_msg: u32 = self.pick(MSG_RANGE_A_SEA_STATE, MSG_RANGE_B_SEA_STATE);
            send_9(&mut out, state_msg, q.auto_level);
        } else if value == 0 {
            send_9(&mut out, mode_msg, 0);
        } else {
            send_9(&mut out, mode_msg, 1);
            let level: u16 = (value as u16) * GAIN_SCALE;
            send_10(&mut out, self.pick(MSG_RANGE_A_SEA_GAIN, MSG_RANGE_B_SEA_GAIN), level);
        }
        assert(packets_view(out@) =~= self.xhd_messages(*q));
        out
    }

    fn set_sea_hd(q: &GarminRequest) -> (r: Vec<Packet>)
        ensures
            packets_view(r@) == seq![
                message(
                    CMD_HD_SET_SEA,
                    bytes::le32_bytes(as_u8(q.value())) + bytes::le32_bytes(
                        1 + flag(q.request.wants_auto()),
                    ),
                ),
            ],
    {
        let mut data: Vec<u8> = Vec::new();
        let mode: u32 = if q.request.is_auto() {
            2
        } else {
            1
        };
        push_le32(&mut data, CMD_HD_SET_SEA);
        push_le32(&mut data, 8);
        push_le32(&mut data, low_u8(q.number()) as u32);
        push_le32(&mut data, mode);
        proof {
            let body = bytes::le32_bytes(as_u8(q.value())) + bytes::le32_bytes(
                1 + flag(q.request.wants_auto()),
            );
            assert(data@ =~= frame(CMD_HD_SET_SEA, body));
        }
        let r = vec![Packet { port: COMMAND_PORT, data }];
        assert(packets_view(r@) =~= seq![r@[0]@]);
        r
    }

    fn set_target_expansion_hd(on: bool) -> (r: Vec<Packet>)
        ensures
            packets_view(r@) == seq![message(CMD_HD_SET_FTC, seq![50u8, flag(on) as u8])],
    {
        let mut data: Vec<u8> = Vec::new();
        push_le32(&mut data, CMD_HD_SET_FTC);
        push_le32(&mut data, 2);
        data.push(50);
        data.push(
            if on {
                1
            } else {
                0
            },
        );
        assert(data@ =~= frame(CMD_HD_SET_FTC, seq![50u8, flag(on) as u8]));
        let r = vec![Packet { port: COMMAND_PORT, data }];
        assert(packets_view(r@) =~= seq![r@[0]@]);
        r
    }

    fn set_hd(&self, q: &GarminRequest) -> (r: Vec<Packet>)
        ensures
            packets_view(r@) == self.hd_messages(*q),
    {
        let value: i32 = q.number();
        let mut out = none();
        match q.request.id {
            ControlId::Power => {
                let mode: u16 = if q.request.is_transmit() {
                    2
                } else {
                    1
                };
                send_10(&mut out, CMD_HD_SET_TRANSMIT, mode);
            },
            ControlId::Range => {
                let meters: u32 = to_unsigned32(value);
                let wire: u32 = if meters == 0 {
                    0
                } else {
                    meters - 1
                };
                send_12(&mut out, CMD_HD_SET_RANGE_A, wire);
            },
            ControlId::Gain => {
                let level: u32 = to_unsigned32(value);
                let gain: u32 = if level < 100 {
                    level
                } else {
                    100
                };
                let packed: u32 = if q.request.is_auto() {
                    gain + 0x100
                } else {
                    gain
                };
                send_12(&mut out, CMD_HD_SET_GAIN, packed);
            },
            ControlId::BearingAlignment => {
                let degrees: i32 = if q.degrees < -0x8000 {
                    -0x8000
                } else if q.degrees > 0x7fff {
                    0x7fff
                } else {
                    q.degrees
                };
                send_10(&mut out, CMD_HD_SET_BEARING_ALIGNMENT, low_u16(degrees));
            },
            ControlId::InterferenceRejection => {
                send_9(&mut out, CMD_HD_SET_DITHER, low_u8(value));
            },
            ControlId::Rain => {
                send_12(&mut out, CMD_HD_SET_RAIN, low_u8(value) as u32);
            },
            ControlId::Sea => {
                return Command::set_sea_hd(q);
            },
            ControlId::ScanSpeed => {
                send_9(&mut out, CMD_HD_SET_RPM_MODE, low_u8(value));
            },
            ControlId::TargetExpansion => {
                return Command::set_target_expansion_hd(value != 0);
            },
            _ => {},
        }
        assert(packets_view(out@) =~= self.hd_messages(*q));
        out
    }

    fn set_doppler_mode(&self, value: i32) -> (r: Vec<Packet>)
        ensures
            packets_view(r@) == seq![
                byte_message(
                    self.id(MSG_RANGE_A_DOPPLER_MODE, MSG_RANGE_B_DOPPLER_MODE),
                    doppler_wire(value as int),
                ),
            ],
    {
        let wire: u8 = match value {
            1 => 2,
            2 => 1,
            _ => 0,
        };
        let mut out = none();
        send_9(&mut out, self.pick(MSG_RANGE_A_DOPPLER_MODE, MSG_RANGE_B_DOPPLER_MODE), wire);
        assert(packets_view(out@) =~= seq![
            byte_message(
                self.id(MSG_RANGE_A_DOPPLER_MODE, MSG_RANGE_B_DOPPLER_MODE),
                doppler_wire(value as int),
            ),
        ]);
        out
    }

    fn set_xhd(&self, q: &GarminRequest) -> (r: Vec<Packet>)
        requires
            self.radar_type == GarminRadarType::XHD,
            self.fits(*q),
        ensures
            packets_view(r@) == self.xhd_messages(*q),
    {
        let value: i32 = q.number();
        let on: u8 = if value != 0 {
            1
        } else {
            0
        };
        let auto = q.request.is_auto();
        let mut out = none();
        match q.request.id {
            ControlId::Power => {
                let mode: u8 = if q.request.is_transmit() {
                    1
                } else {
                    0
                };
                send_9(&mut out, MSG_TRANSMIT_MODE, mode);
            },
            ControlId::Range => {
                send_12(&mut out, self.pick(MSG_RANGE_A, MSG_RANGE_B), to_unsigned32(value));
            },
            ControlId::Gain => {
                return self.set_gain(q);
            },
            ControlId::BearingAlignment => {
                send_12_signed(&mut out, MSG_BEARING_ALIGNMENT, q.degrees * DEGREE_SCALE);
            },
            ControlId::InterferenceRejection => {
                send_9(&mut out, MSG_DITHER_MODE, low_u8(value));
                send_9(&mut out, MSG_NOISE_BLANKER, low_u8(value));
            },
            ControlId::Rain => {
                return self.set_rain(q);
            },
            ControlId::Sea => {
                return self.set_sea(q);
            },
            ControlId::ScanSpeed => {
                send_9(&mut out, MSG_RPM_MODE, low_u8(value) * 2);
            },
            ControlId::NoTransmitSector1 => {
                return Command::set_no_transmit_zone(NoTxZone::One, q);
            },
            ControlId::NoTransmitSector2 => {
                return Command::set_no_transmit_zone(NoTxZone::Two, q);
            },
            ControlId::TargetExpansion => {
                let id: u32 = self.pick(MSG_RANGE_A_PULSE_EXPANSION, MSG_RANGE_B_PULSE_EXPANSION);
                send_9(&mut out, id, on);
            },
            ControlId::TargetBoost => {
                let id: u32 = self.pick(MSG_RANGE_A_TARGET_SIZE, MSG_RANGE_B_TARGET_SIZE);
                send_9(&mut out, id, low_u8(value));
            },
            ControlId::ScanAverageMode => {
                let id: u32 = self.pick(
                    MSG_RANGE_A_SCAN_AVERAGE_MODE,
                    MSG_RANGE_B_SCAN_AVERAGE_MODE,
                );
                send_9(&mut out, id, low_u8(value));
            },
            ControlId::ScanAverageSensitivity => {
                let id: u32 = self.pick(
                    MSG_RANGE_A_SCAN_AVERAGE_SENSITIVITY,
                    MSG_RANGE_B_SCAN_AVERAGE_SENSITIVITY,
                );
                let level: u16 = low_u16(value) * GAIN_SCALE;
                let scaled: u16 = if level < 10_000 {
                    level
                } else {
                    10_000
                };
                send_10(&mut out, id, scaled);
            },
            ControlId::TimedIdle => {
                send_9(&mut out, MSG_SENTRY_MODE, on);
            },
            ControlId::TimedRun => {
                let given: u16 = low_u16(value);
                let seconds: u16 = if given > 1 {
                    given
                } else {
                    1
                };
                send_10(&mut out, MSG_SENTRY_TRANSMIT_TIME, seconds);
            },
            ControlId::Doppler => {
                return self.set_doppler_mode(value);
            },
            ControlId::ParkPosition => {
                send_12_signed(&mut out, MSG_PARK_POSITION, q.degrees * DEGREE_SCALE);
            },
            ControlId::Tune => {
                if auto {
                    send_9(&mut out, MSG_AFC_MODE, 1);
                } else {
                    send_9(&mut out, MSG_AFC_MODE, 0);
                    send_9(&mut out, MSG_AFC_TUNING_MODE, 1);
                }
            },
            ControlId::TransmitChannel => {
                if auto {
                    send_9(&mut out, MSG_TRANSMIT_CHANNEL_MODE, 1);
                } else {
                    send_9(&mut out, MSG_TRANSMIT_CHANNEL_MODE, 0);
                    let channel: i32 = if value > 1 {
                        value
                    } else {
                        1
                    };
                    send_10(&mut out, MSG_TRANSMIT_CHANNEL_SELECT, low_u16(channel));
                }
            },
            _ => {},
        }
        assert(packets_view(out@) =~= self.xhd_messages(*q));
        out
    }

    /// The packets that set a control. `name` is the value where it is a text.
    pub fn set_control(&self, q: &GarminRequest, name: Option<&str>) -> (r: Result<
        Vec<Packet>,
        SetError,
    >)
        requires
            self.fits(*q),
        ensures
            match (
                r,
                self.messages(
                    *q,
                    match name {
                        Some(n) => Some(n@),
                        None => None,
                    },
                ),
            ) {
                (Ok(packets), Ok(view)) => packets_view(packets@) == view,
                (Err(e), Err(f)) => e == f,
                _ => false,
            },
    {
        if q.request.id == ControlId::UserName {
            let r = match name {
                Some(alias) => vec![Packet { port: CDM_CONTROL_PORT, data: build_set_alias(alias) }],
                None => Vec::new(),
            };
            proof {
                if name is Some {
                    assert(packets_view(r@) =~= seq![r@[0]@]);
                } else {
                    assert(packets_view(r@) =~= Seq::<PacketView>::empty());
                }
            }
            return Ok(r);
        }
        if self.radar_type.is_supported() && q.request.id == ControlId::Power
            && !q.request.has_value {
            return Err(SetError::NoNumber);
        }
        match self.radar_type {
            GarminRadarType::HD => Ok(self.set_hd(q)),
            GarminRadarType::XHD => Ok(self.set_xhd(q)),
            _ => Ok(none()),
        }
    }
}

proof fn lemma_frame_id(id: u32, body: Seq<u8>)
    requires
        body.len() <= u32::MAX,
    ensures
        report::message_id(frame(id, body)) == id,
        bytes::le32(frame(id, body), 4) == body.len(),
        frame(id, body).skip(8) == body,
{
    let f = frame(id, body);
    assert(bytes::le32(f, 0) == bytes::le32(bytes::le32_bytes(id as int), 0));
    bytes::lemma_le32_round_trip(id);
    let n = body.len() as u32;
    assert(bytes::le32(f, 4) == bytes::le32(bytes::le32_bytes(n as int), 0));
    bytes::lemma_le32_round_trip(n);
    assert(f.skip(8) =~= body);
}

proof fn lemma_byte_reads_back(id: u32, byte: u8)
    ensures
        report::message_id(frame(id, seq![byte])) == id,
        report::value_of(frame(id, seq![byte])) == Ok::<u32, report::PacketError>(byte as u32),
{
    lemma_frame_id(id, seq![byte]);
}

proof fn lemma_word_reads_back(id: u32, word: u16)
    ensures
        report::message_id(frame(id, bytes::le16_bytes(word as int))) == id,
        report::value_of(frame(id, bytes::le16_bytes(word as int))) == Ok::<
            u32,
            report::PacketError,
        >(word as u32),
{
    let w = frame(id, bytes::le16_bytes(word as int));
    lemma_frame_id(id, bytes::le16_bytes(word as int));
    assert(bytes::le16(w, 8) == bytes::le16(bytes::le16_bytes(word as int), 0));
    bytes::lemma_le16_round_trip(word);
}

proof fn lemma_long_reads_back(id: u32, long: u32)
    ensures
        report::message_id(frame(id, bytes::le32_bytes(long as int))) == id,
        report::value_of(frame(id, bytes::le32_bytes(long as int))) == Ok::<
            u32,
            report::PacketError,
        >(long),
{
    let l = frame(id, bytes::le32_bytes(long as int));
    lemma_frame_id(id, bytes::le32_bytes(long as int));
    assert(bytes::le32(l, 8) == bytes::le32(bytes::le32_bytes(long as int), 0));
    bytes::lemma_le32_round_trip(long);
}

/// The same message id sets a value and reports it: reading back a message of
/// any length gives its id and its value.
pub proof fn law_messages_read_back(id: u32, byte: u8, word: u16, long: u32)
    ensures
        report::message_id(frame(id, seq![byte])) == id,
        report::value_of(frame(id, seq![byte])) == Ok::<u32, report::PacketError>(byte as u32),
        report::message_id(frame(id, bytes::le16_bytes(word as int))) == id,
        report::value_of(frame(id, bytes::le16_bytes(word as int))) == Ok::<
            u32,
            report::PacketError,
        >(word as u32),
        report::message_id(frame(id, bytes::le32_bytes(long as int))) == id,
        report::value_of(frame(id, bytes::le32_bytes(long as int))) == Ok::<
            u32,
            report::PacketError,
        >(long),
{
    lemma_byte_reads_back(id, byte);
    lemma_word_reads_back(id, word);
    lemma_long_reads_back(id, long);
}

/// An angle that is set comes back in the report as it was.
pub proof fn law_angle_comes_back(id: u32, degrees: i32)
    requires
        Command::angle_fits(degrees),
    ensures
        report::value_of(signed_message(id, 32 * degrees).data) matches Ok(v)
            && report::degrees(v) == degrees,
{
    let wire = bytes::unsigned(32 * degrees, 0x1_0000_0000);
    law_messages_read_back(id, 0, 0, wire as u32);
    bytes::lemma_signed32_round_trip((32 * degrees) as i32);
}

/// An enhanced radar that reports back the range that was set shows it, on the
/// range that it was set for.
pub proof fn law_range_comes_back(c: Command, q: GarminRequest, s: ReceiverView)
    requires
        c.radar_type == GarminRadarType::XHD,
        q.request.id == ControlId::Range,
        q.value() >= 0,
        c.range_b ==> s.range_b is Some,
    ensures
        c.xhd_messages(q).len() == 1,
        report::report_step(s, c.xhd_messages(q)[0].data) matches Ok(step) && {
            &&& step.range == if c.range_b { RangeId::B } else { RangeId::A }
            &&& step.updates == seq![
                Update::Value { id: ControlId::Range, value: q.value() as i64 },
            ]
        },
{
    let id = c.id(MSG_RANGE_A, MSG_RANGE_B);
    let range = if c.range_b { RangeId::B } else { RangeId::A };
    let value = as_u32(q.value()) as u32;
    lemma_long_reads_back(id, value);
    assert(report::subject(id) == Some((range, Subject::Range))) by {
        reveal(report::subject);
    }
    lemma_value_step(s, c.xhd_messages(q)[0].data, id, range, Subject::Range, value);
}

/// A Doppler mode that is set comes back as the same control value.
pub proof fn law_doppler_comes_back(c: Command, q: GarminRequest, s: ReceiverView)
    requires
        c.radar_type == GarminRadarType::XHD,
        q.request.id == ControlId::Doppler,
        0 <= q.value() <= 2,
        c.range_b ==> s.range_b is Some,
    ensures
        c.xhd_messages(q).len() == 1,
        report::report_step(s, c.xhd_messages(q)[0].data) matches Ok(step) && {
            &&& step.range == if c.range_b { RangeId::B } else { RangeId::A }
            &&& step.updates == seq![
                Update::Value { id: ControlId::Doppler, value: q.value() as i64 },
            ]
        },
{
    let id = c.id(MSG_RANGE_A_DOPPLER_MODE, MSG_RANGE_B_DOPPLER_MODE);
    let range = if c.range_b { RangeId::B } else { RangeId::A };
    let wire = doppler_wire(q.value()) as u8;
    lemma_byte_reads_back(id, wire);
    assert(report::subject(id) == Some((range, Subject::Doppler))) by {
        reveal(report::subject);
    }
    lemma_value_step(s, c.xhd_messages(q)[0].data, id, range, Subject::Doppler, wire as u32);
}

/// A message about a value leads to the step for that value.
proof fn lemma_value_step(
    s: ReceiverView,
    data: Seq<u8>,
    id: u32,
    range: RangeId,
    about: Subject,
    value: u32,
)
    requires
        data.len() >= 9,
        report::message_id(data) == id,
        id > super::protocol::MSG_HD_STATE,
        id != super::protocol::MSG_CAPABILITY,
        id != super::protocol::MSG_RANGE_TABLE,
        report::subject(id) == Some((range, about)),
        report::value_of(data) == Ok::<u32, report::PacketError>(value),
        range == RangeId::B ==> s.range_b is Some,
    ensures
        report::report_step(s, data) == Ok::<report::StepView, report::PacketError>(
            if range == RangeId::B {
                report::value_step_b(s, about, value)
            } else {
                report::value_step_a(s, about, value)
            },
        ),
{
}

/// A receiver that is told of a manual gain notes it for the range.
proof fn lemma_gain_mode_step(s: ReceiverView, id: u32, range: RangeId)
    requires
        id == (if range == RangeId::B { MSG_RANGE_B_GAIN_MODE } else { MSG_RANGE_A_GAIN_MODE }),
        range == RangeId::B ==> s.range_b is Some,
    ensures
        report::report_step(s, frame(id, seq![0u8])) matches Ok(step) && if range == RangeId::B {
            step.next.range_b matches Some(rs) && !rs.gain_auto
        } else {
            !step.next.range_a.gain_auto
        },
{
    lemma_byte_reads_back(id, 0);
    assert(report::subject(id) == Some((range, Subject::GainMode))) by {
        reveal(report::subject);
    }
    lemma_value_step(s, frame(id, seq![0u8]), id, range, Subject::GainMode, 0);
}

/// A receiver that knows of a manual gain shows the level that it is told.
proof fn lemma_gain_level_step(s: ReceiverView, id: u32, range: RangeId, value: int)
    requires
        id == (if range == RangeId::B { MSG_RANGE_B_GAIN } else { MSG_RANGE_A_GAIN }),
        if range == RangeId::B {
            s.range_b matches Some(rs) && !rs.gain_auto
        } else {
            !s.range_a.gain_auto
        },
        0 <= value <= 100,
    ensures
        report::report_step(s, frame(id, bytes::le16_bytes(100 * value))) matches Ok(step)
            && step.updates == seq![
            Update::Auto { id: ControlId::Gain, value: value as i64, flag: 0 },
        ],
{
    let data = frame(id, bytes::le16_bytes(100 * value));
    lemma_word_reads_back(id, (100 * value) as u16);
    assert(report::subject(id) == Some((range, Subject::GainLevel))) by {
        reveal(report::subject);
    }
    lemma_value_step(s, data, id, range, Subject::GainLevel, (100 * value) as u32);
}

/// The messages that set a manual gain.
proof fn lemma_gain_messages(c: Command, q: GarminRequest)
    requires
        q.request.id == ControlId::Gain,
        !q.request.wants_auto(),
        0 <= q.value() <= 100,
    ensures
        c.xhd_messages(q).len() == 2,
        c.xhd_messages(q)[0].data == frame(
            c.id(MSG_RANGE_A_GAIN_MODE, MSG_RANGE_B_GAIN_MODE),
            seq![0u8],
        ),
        c.xhd_messages(q)[1].data == frame(
            c.id(MSG_RANGE_A_GAIN, MSG_RANGE_B_GAIN),
            bytes::le16_bytes(100 * q.value()),
        ),
{
    assert(smaller(100 * as_u32(q.value()), 10_000) == 100 * q.value());
}

/// A manual gain of up to 100 that is set comes back as it was, and not as an
/// automatic one.
#[verifier::spinoff_prover]
pub proof fn law_gain_comes_back(c: Command, q: GarminRequest, s: ReceiverView)
    requires
        c.radar_type == GarminRadarType::XHD,
        q.request.id == ControlId::Gain,
        !q.request.wants_auto(),
        0 <= q.value() <= 100,
        c.range_b ==> s.range_b is Some,
    ensures
        c.xhd_messages(q).len() == 2,
        report::report_step(s, c.xhd_messages(q)[0].data) matches Ok(first)
            && report::report_step(first.next, c.xhd_messages(q)[1].data) matches Ok(second)
            && second.updates == seq![
            Update::Auto { id: ControlId::Gain, value: q.value() as i64, flag: 0 },
        ],
{
    let mode_id = c.id(MSG_RANGE_A_GAIN_MODE, MSG_RANGE_B_GAIN_MODE);
    let gain_id = c.id(MSG_RANGE_A_GAIN, MSG_RANGE_B_GAIN);
    let range = if c.range_b { RangeId::B } else { RangeId::A };
    lemma_gain_messages(c, q);
    lemma_gain_mode_step(s, mode_id, range);
    let first = report::report_step(s, frame(mode_id, seq![0u8]))->Ok_0;
    lemma_gain_level_step(first.next, gain_id, range, q.value());
}

/// The HD wire holds ranges less one: what is read back is what was set, except
/// for a range of zero.
pub proof fn law_hd_range_comes_back(meters: int)
    requires
        meters > 0,
    ensures
        hd_wire_range(meters) + 1 == meters,
        hd_wire_range(0) == 0,
{
}

proof fn lemma_byte_carries(id: u32, byte: u8)
    requires
        id < 0x1_0000,
    ensures
        report::carries(frame(id, seq![byte]), id as int, 1, byte as int),
{
}

proof fn lemma_word_carries(id: u32, word: int)
    requires
        id < 0x1_0000,
        0 <= word < 0x1_0000,
    ensures
        report::carries(frame(id, bytes::le16_bytes(word)), id as int, 2, word),
{
}

proof fn lemma_long_carries(id: u32, long: int)
    requires
        id < 0x1_0000,
        0 <= long < 0x1_0000_0000,
    ensures
        report::carries(frame(id, bytes::le32_bytes(long)), id as int, 4, long),
{
}

/// How a number is put on the wire: the message id, the width and how many units of the
/// wire make one of the control.
pub open spec fn on_the_wire(id: ControlId, range_b: bool) -> (int, int, int) {
    match id {
        ControlId::Rain => (if range_b { 0x0937 } else { 0x0934 }, 2, 100),
        ControlId::Sea => (if range_b { 0x093d } else { 0x093a }, 2, 100),
        ControlId::ScanSpeed => (0x0916, 1, 2),
        ControlId::TargetExpansion => (if range_b { 0x0963 } else { 0x0962 }, 1, 1),
        ControlId::TargetBoost => (if range_b { 0x0969 } else { 0x0968 }, 1, 1),
        ControlId::ScanAverageMode => (if range_b { 0x0971 } else { 0x0970 }, 1, 1),
        ControlId::InterferenceRejection => (0x0932, 1, 1),
        ControlId::TimedIdle => (0x0942, 1, 1),
        ControlId::TimedRun => (0x0944, 2, 1),
        ControlId::TransmitChannel => (0x0967, 2, 1),
        _ => (0, 0, 0),
    }
}

/// Whether each range has a control of its own.
pub open spec fn is_of_range(id: ControlId) -> bool {
    ||| id == ControlId::Rain
    ||| id == ControlId::Sea
    ||| id == ControlId::TargetExpansion
    ||| id == ControlId::TargetBoost
    ||| id == ControlId::ScanAverageMode
}

/// Whether a control can be set to a number.
pub open spec fn takes(q: GarminRequest, value: int) -> bool {
    match q.request.id {
        ControlId::Rain => q.wants_enabled() && 0 <= value < 256,
        ControlId::Sea => !q.request.wants_auto() && 0 < value < 256,
        ControlId::ScanSpeed => 0 <= value < 128,
        ControlId::TargetExpansion | ControlId::TimedIdle => 0 <= value <= 1,
        ControlId::TargetBoost
        | ControlId::ScanAverageMode
        | ControlId::InterferenceRejection => 0 <= value < 256,
        ControlId::TimedRun => 0 < value < 0x1_0000,
        ControlId::TransmitChannel => !q.request.wants_auto() && 0 < value < 0x1_0000,
        _ => false,
    }
}

/// A number that is set goes out under the message id of its control, in the units of the
/// wire.
pub proof fn law_numbers_are_sent(c: Command, q: GarminRequest)
    requires
        c.radar_type == GarminRadarType::XHD,
        takes(q, q.value()),
    ensures
        c.messages(q, None) matches Ok(list) && {
            let (id, width, unit) = on_the_wire(q.request.id, c.range_b);
            &&& list.len() > 0
            &&& list.last().port == 50101
            &&& report::carries(list.last().data, id, width, unit * q.value())
        },
{
    let v = q.value();
    let list = c.xhd_messages(q);
    let (id, width, unit) = on_the_wire(q.request.id, c.range_b);
    if width == 1 {
        lemma_byte_carries(id as u32, (unit * v) as u8);
        assert(list.last() == byte_message(id as u32, unit * v));
    } else {
        lemma_word_carries(id as u32, unit * v);
        assert(list.last() == word_message(id as u32, unit * v));
    }
}

/// A number that is set comes back: the radar that reports what was sent shows it, in the
/// control and on the range that it was set for.
pub proof fn law_numbers_come_back(c: Command, q: GarminRequest, s: ReceiverView)
    requires
        c.radar_type == GarminRadarType::XHD,
        takes(q, q.value()),
        c.range_b ==> s.range_b is Some,
    ensures
        ({
            &&& c.messages(q, None) matches Ok(list)
            &&& list.len() > 0
            &&& report::report_step(s, list.last().data) matches Ok(step)
            &&& step.range == if c.range_b && is_of_range(q.request.id) {
                RangeId::B
            } else {
                RangeId::A
            }
            &&& step.updates == seq![
                Update::Value { id: q.request.id, value: q.value() as i64 },
            ]
        }),
{
    law_numbers_are_sent(c, q);
    let v = q.value();
    let list = c.xhd_messages(q);
    let (id, width, unit) = on_the_wire(q.request.id, c.range_b);
    let range = if c.range_b && is_of_range(q.request.id) { RangeId::B } else { RangeId::A };
    report::law_numbers_are_shown(
        s,
        list.last().data,
        id,
        width,
        unit * v,
        range,
        q.request.id,
        unit,
    );
    let step = report::report_step(s, list.last().data)->Ok_0;
    let n = step.updates[0]->Value_value as int;
    assert(n == v) by (nonlinear_arith)
        requires
            unit > 0,
            unit * n <= unit * v < unit * (n + 1),
    ;
    assert(step.updates =~= seq![Update::Value { id: q.request.id, value: v as i64 }]);
}

/// Sensitivity goes out in hundredths, no more than a hundred.
pub proof fn law_sensitivity_is_sent(c: Command, q: GarminRequest)
    requires
        c.radar_type == GarminRadarType::XHD,
        q.request.id == ControlId::ScanAverageSensitivity,
        0 <= q.value() <= 100,
    ensures
        c.messages(q, None) matches Ok(list) && list.len() == 1 && report::carries(
            list[0].data,
            if c.range_b { 0x0973 } else { 0x0972 },
            2,
            100 * q.value(),
        ),
{
    lemma_word_carries(if c.range_b { 0x0973 } else { 0x0972 }, 100 * q.value());
}

/// Whether a control is left to the radar, or switched on, comes back from the first
/// message that sets it.
pub proof fn law_modes_come_back(c: Command, q: GarminRequest, s: ReceiverView)
    requires
        c.radar_type == GarminRadarType::XHD,
        q.request.id == ControlId::Tune || q.request.id == ControlId::TransmitChannel
            || q.request.id == ControlId::Sea || q.request.id == ControlId::Rain,
        c.range_b ==> s.range_b is Some,
    ensures
        ({
            let auto = q.request.auto == Some(true);
            let enabled = q.request.enabled != Some(false);
            &&& c.messages(q, None) matches Ok(list)
            &&& list.len() > 0
            &&& report::report_step(s, list[0].data) matches Ok(step)
            &&& step.range == if c.range_b && is_of_range(q.request.id) {
                RangeId::B
            } else {
                RangeId::A
            }
            &&& q.request.id == ControlId::Rain ==> step.updates == seq![
                Update::Enabled {
                    id: ControlId::Rain,
                    value: 0,
                    flag: if enabled { 1 } else { 0 },
                },
            ]
            &&& q.request.id != ControlId::Rain ==> step.updates == seq![
                Update::Auto {
                    id: q.request.id,
                    value: 0,
                    flag: if auto { 1 } else { 0 },
                },
            ]
        }),
{
    let auto = q.request.auto == Some(true);
    let id: u32 = match q.request.id {
        ControlId::Tune => 0x0920,
        ControlId::TransmitChannel => 0x0966,
        ControlId::Sea => if c.range_b { 0x093c } else { 0x0939 },
        _ => if c.range_b { 0x0936 } else { 0x0933 },
    };
    let value: u8 = match q.request.id {
        ControlId::Sea => if auto {
            2
        } else if as_u8(q.value()) == 0 {
            0
        } else {
            1
        },
        ControlId::Rain => if q.wants_enabled() { 1 } else { 0 },
        _ => if auto { 1 } else { 0 },
    };
    let list = c.xhd_messages(q);
    assert(list[0] == byte_message(id, value as int));
    lemma_byte_carries(id, value);
    report::law_modes_are_shown(s, list[0].data, id as int, 1, value as int);
}

/// Automatic gain comes back: it is shown as automatic with the level that was known.
pub proof fn law_automatic_gain_comes_back(c: Command, q: GarminRequest, s: ReceiverView)
    requires
        c.radar_type == GarminRadarType::XHD,
        q.request.id == ControlId::Gain,
        q.request.auto == Some(true),
        c.range_b ==> s.range_b is Some,
    ensures
        ({
            &&& c.messages(q, None) matches Ok(list)
            &&& list.len() == 2
            &&& report::report_step(s, list[0].data) matches Ok(step)
            &&& step.updates == seq![
                Update::Auto {
                    id: ControlId::Gain,
                    value: if c.range_b { s.range_b->0.gain_level } else { s.range_a.gain_level }
                        as i64,
                    flag: 1,
                },
            ]
            &&& report::carries(
                list[1].data,
                if c.range_b { 0x0956 } else { 0x091d },
                1,
                if q.auto_high { 1 } else { 0 },
            )
        }),
{
    let id = c.id(MSG_RANGE_A_GAIN_MODE, MSG_RANGE_B_GAIN_MODE);
    let range = if c.range_b { RangeId::B } else { RangeId::A };
    lemma_byte_reads_back(id, 2);
    lemma_byte_carries(if c.range_b { 0x0956 } else { 0x091d }, if q.auto_high { 1 } else { 0 });
    assert(report::subject(id) == Some((range, Subject::GainMode))) by {
        reveal(report::subject);
    }
    lemma_value_step(s, c.xhd_messages(q)[0].data, id, range, Subject::GainMode, 2);
}

/// A radar that is told to transmit, or to stand by, and says so, shows it.
pub proof fn law_power_comes_back(c: Command, q: GarminRequest, s: ReceiverView)
    requires
        c.radar_type == GarminRadarType::XHD,
        q.request.id == ControlId::Power,
        q.request.has_value,
    ensures
        ({
            &&& c.messages(q, None) matches Ok(list)
            &&& list.len() == 1
            &&& report::report_step(s, list[0].data) matches Ok(step)
            &&& step.updates == seq![
                Update::Power(
                    if q.request.power == Some(Power::Transmit) {
                        Power::Transmit
                    } else {
                        Power::Standby
                    },
                ),
            ]
        }),
{
    let on: u8 = if q.request.wants_transmit() { 1 } else { 0 };
    lemma_byte_carries(0x0919, on);
    report::law_power_is_shown(s, c.xhd_messages(q)[0].data, 0x0919, 1, on as int);
}

/// An angle that is set comes back, in the control that it was set for.
pub proof fn law_alignment_comes_back(c: Command, q: GarminRequest, s: ReceiverView)
    requires
        c.radar_type == GarminRadarType::XHD,
        q.request.id == ControlId::BearingAlignment || q.request.id == ControlId::ParkPosition,
        -0x400_0000 <= q.degrees < 0x400_0000,
    ensures
        ({
            &&& c.messages(q, None) matches Ok(list)
            &&& list.len() == 1
            &&& report::report_step(s, list[0].data) matches Ok(step)
            &&& step.updates == seq![
                Update::Value { id: q.request.id, value: q.degrees as i64 },
            ]
        }),
{
    let id: u32 = if q.request.id == ControlId::BearingAlignment { 0x0930 } else { 0x0931 };
    let wire = bytes::unsigned(32 * q.degrees, 0x1_0000_0000);
    lemma_long_carries(id, wire);
    assert(wire == if q.degrees >= 0 { 32 * q.degrees } else { 0x1_0000_0000 + 32 * q.degrees });
    report::law_angles_are_shown(s, c.xhd_messages(q)[0].data, id as int, q.degrees as int);
}

proof fn lemma_zone_step(s: ReceiverView, zone: NoTxZone, id: u32, part: int, data: Seq<u8>, v: u32)
    requires
        0 <= part < 3,
        id == (if part == 0 {
            zone.ids().0
        } else if part == 1 {
            zone.ids().1
        } else {
            zone.ids().2
        }),
        data.len() >= 9,
        report::message_id(data) == id,
        report::value_of(data) == Ok::<u32, report::PacketError>(v),
    ensures
        report::report_step(s, data) == Ok::<report::StepView, report::PacketError>(
            report::value_step_a(
                s,
                if part == 0 {
                    Subject::ZoneMode(zone)
                } else if part == 1 {
                    Subject::ZoneStart(zone)
                } else {
                    Subject::ZoneStop(zone)
                },
                v,
            ),
        ),
{
    assert(report::subject(id) == Some(
        (
            RangeId::A,
            if part == 0 {
                Subject::ZoneMode(zone)
            } else if part == 1 {
                Subject::ZoneStart(zone)
            } else {
                Subject::ZoneStop(zone)
            },
        ),
    )) by {
        reveal(report::subject);
    }
}

/// A no-transmit sector that is set comes back, with its start and its end, in the control
/// that it was set for.
#[verifier::rlimit(40)]
pub proof fn law_sector_comes_back(c: Command, q: GarminRequest, s: ReceiverView)
    requires
        c.radar_type == GarminRadarType::XHD,
        q.request.id == ControlId::NoTransmitSector1 || q.request.id
            == ControlId::NoTransmitSector2,
        q.request.enabled != Some(false),
        Command::angle_fits(q.degrees),
        Command::angle_fits(q.end_degrees),
    ensures
        ({
            &&& c.messages(q, None) matches Ok(list)
            &&& list.len() == 3
            &&& report::report_step(s, list[0].data) matches Ok(mode)
            &&& report::report_step(mode.next, list[1].data) matches Ok(start)
            &&& report::report_step(start.next, list[2].data) matches Ok(end)
            &&& end.updates == seq![
                Update::Sector {
                    id: q.request.id,
                    start: q.degrees as i64,
                    end: q.end_degrees as i64,
                    enabled: true,
                },
            ]
        }),
{
    let zone = if q.request.id == ControlId::NoTransmitSector1 { NoTxZone::One } else {
        NoTxZone::Two
    };
    let list = c.xhd_messages(q);
    let ids = zone.ids();
    assert(list == Command::zone_messages(zone, q));
    lemma_byte_reads_back(ids.0, 1);
    let a = bytes::unsigned(32 * q.degrees, 0x1_0000_0000) as u32;
    let b = bytes::unsigned(32 * q.end_degrees, 0x1_0000_0000) as u32;
    lemma_long_reads_back(ids.1, a);
    lemma_long_reads_back(ids.2, b);
    law_angle_comes_back(ids.1, q.degrees);
    law_angle_comes_back(ids.2, q.end_degrees);
    lemma_zone_step(s, zone, ids.0, 0, list[0].data, 1);
    let s1 = report::report_step(s, list[0].data)->Ok_0.next;
    lemma_zone_step(s1, zone, ids.1, 1, list[1].data, a);
    let s2 = report::report_step(s1, list[1].data)->Ok_0.next;
    lemma_zone_step(s2, zone, ids.2, 2, list[2].data, b);
}

/// A no-transmit sector that is switched off comes back as off.
pub proof fn law_sector_off_comes_back(c: Command, q: GarminRequest, s: ReceiverView)
    requires
        c.radar_type == GarminRadarType::XHD,
        q.request.id == ControlId::NoTransmitSector1 || q.request.id
            == ControlId::NoTransmitSector2,
        q.request.enabled == Some(false),
    ensures
        ({
            let zone = if q.request.id == ControlId::NoTransmitSector1 { NoTxZone::One } else {
                NoTxZone::Two
            };
            &&& c.messages(q, None) matches Ok(list)
            &&& list.len() == 1
            &&& report::report_step(s, list[0].data) matches Ok(step)
            &&& step.next.pending(zone) == report::PendingNoTxSector {
                enabled: Some(false),
                ..s.pending(zone)
            }
        }),
{
    let zone = if q.request.id == ControlId::NoTransmitSector1 { NoTxZone::One } else {
        NoTxZone::Two
    };
    let list = c.xhd_messages(q);
    lemma_byte_reads_back(zone.ids().0, 0);
    lemma_zone_step(s, zone, zone.ids().0, 0, list[0].data, 0);
}

/// What an HD radar is told: each control under its message id, with its number.
pub proof fn law_hd_numbers_are_sent(c: Command, q: GarminRequest)
    requires
        c.radar_type == GarminRadarType::HD,
        q.request.id == ControlId::Power ==> q.request.has_value,
        q.request.id == ControlId::BearingAlignment ==> -0x8000 <= q.degrees < 0x8000,
        q.request.id == ControlId::Range ==> q.value() > 0,
        q.request.id == ControlId::Gain ==> 0 <= q.value() <= 100,
        0 <= q.value() < 256 || q.request.id == ControlId::Range,
    ensures
        c.messages(q, None) matches Ok(list) && {
            let auto: int = if q.request.auto == Some(true) { 1 } else { 0 };
            let v = q.value();
            let goes = |id: int, width: int, wire: int|
                list.len() == 1 && list[0].port == 50101 && report::carries(
                    list[0].data,
                    id,
                    width,
                    wire,
                );
            &&& q.request.id == ControlId::Power ==> goes(
                0x02b2,
                2,
                if q.request.power == Some(Power::Transmit) { 2 } else { 1 },
            )
            &&& q.request.id == ControlId::Range ==> goes(0x02b3, 4, v - 1)
            &&& q.request.id == ControlId::Gain ==> goes(0x02b4, 4, v + 256 * auto)
            &&& q.request.id == ControlId::Rain ==> goes(0x02b6, 4, v)
            &&& q.request.id == ControlId::InterferenceRejection ==> goes(0x02be, 1, v)
            &&& q.request.id == ControlId::ScanSpeed ==> goes(0x02b9, 1, v)
            &&& q.request.id == ControlId::BearingAlignment ==> goes(
                0x02b7,
                2,
                if q.degrees >= 0 { q.degrees as int } else { 0x1_0000 + q.degrees },
            )
            &&& q.request.id == ControlId::TargetExpansion ==> list.len() == 1 && list[0].data
                == seq![0xfcu8, 0x02, 0, 0, 2, 0, 0, 0, 50, if v != 0 { 1 } else { 0 }]
            &&& q.request.id == ControlId::Sea ==> list.len() == 1 && list[0].data == seq![
                0xb5u8, 0x02, 0, 0, 8, 0, 0, 0, v as u8, 0, 0, 0, (1 + auto) as u8, 0, 0, 0,
            ]
        },
{
    let auto: int = if q.request.auto == Some(true) { 1 } else { 0 };
    let v = q.value();
    let list = c.hd_messages(q);
    match q.request.id {
        ControlId::Power => lemma_word_carries(0x02b2, 1 + flag(q.request.wants_transmit())),
        ControlId::Range => lemma_long_carries(0x02b3, v - 1),
        ControlId::Gain => lemma_long_carries(0x02b4, v + 256 * auto),
        ControlId::Rain => lemma_long_carries(0x02b6, v),
        ControlId::InterferenceRejection => lemma_byte_carries(0x02be, v as u8),
        ControlId::ScanSpeed => lemma_byte_carries(0x02b9, v as u8),
        ControlId::BearingAlignment => lemma_word_carries(0x02b7, as_u16(q.degrees as int)),
        _ => {},
    }
}

/// An alignment that an HD radar cannot take goes out as the nearest one that it can.
pub proof fn law_alignment_is_clamped(x: int)
    ensures
        -0x8000 <= clamped16(x) <= 0x7fff,
        -0x8000 <= x <= 0x7fff ==> clamped16(x) == x,
        x > 0x7fff ==> clamped16(x) == 0x7fff,
        x < -0x8000 ==> clamped16(x) == -0x8000,
{
}

/// A text goes to the control port as an alias, whatever the radar; of a radar that is not
/// supported nothing else can be set.
pub proof fn law_alias_goes_to_the_control_port(c: Command, q: GarminRequest, name: Seq<char>)
    requires
        q.request.id == ControlId::UserName,
    ensures
        c.messages(q, Some(name)) matches Ok(list) && list.len() == 1 && list[0].port == 50051
            && list[0].data == discovery::alias_packet(name),
        c.messages(q, None) matches Ok(list) && list.len() == 0,
{
}

} // verus!
