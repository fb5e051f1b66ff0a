//! Setting the controls of a Koden radar.

use vstd::prelude::*;

use super::protocol::{
    CMD_ANTENNA_SPEED, CMD_AUTO_GAIN_MODE, CMD_AUTO_STC_MODE, CMD_BLANKING_SECTOR,
    CMD_COARSE_TUNING, CMD_FINE_TUNING, CMD_FTC, CMD_GAIN, CMD_INTERFERENCE_REJECTION,
    CMD_PARK_ANGLE, CMD_PULSE_LENGTH, CMD_STC, CMD_TARGET_EXPANSION, CMD_TRANSFER_MODE,
    CMD_TRIGGER_DELAY, CMD_TUNING_MODE, CONTROL_PREFIX, PACKET_END, STATUS_PREFIX, WIRE_AUTO,
    WIRE_FALSE, WIRE_TRUE,
};
use super::report;
use crate::bytes;
use crate::bytes::{low_u8, push_be16};
use crate::radar::{ControlId, ControlRequest, Power, SetError, Update};

verus! {

/// A request to set a control of a Koden radar.
#[derive(Clone, Copy, Debug, PartialEq, Eq, Structural)]
pub struct KodenRequest {
    pub request: ControlRequest,
    /// The value that the control has now, without its fraction.
    pub current: Option<i32>,
    /// The value as a percentage, in 255ths of the whole.
    pub level: u8,
    /// The value as an angle, in 1024ths of a turn.
    pub angle: u16,
    /// The end of a sector, in 1024ths of a turn.
    pub end_angle: u16,
}

/// A packet with a one-byte value.
pub open spec fn byte_packet(cmd: u8, value: u8) -> Seq<u8> {
    seq![CONTROL_PREFIX, cmd, value, PACKET_END]
}

/// A packet with a two-byte value.
pub open spec fn word_packet(cmd: u8, value: u16) -> Seq<u8> {
    seq![CONTROL_PREFIX, cmd] + bytes::be16_bytes(value as int) + seq![PACKET_END]
}

/// A packet with a sector.
pub open spec fn sector_packet(start: u16, end: u16) -> Seq<u8> {
    seq![CONTROL_PREFIX, CMD_BLANKING_SECTOR] + bytes::be16_bytes(start as int)
        + bytes::be16_bytes(end as int) + seq![PACKET_END]
}

/// The wire value of a sea state.
pub open spec fn sea_state_wire(value: i32) -> u8 {
    if value == 1 {
        0x11
    } else if value == 2 {
        0x22
    } else {
        0
    }
}

/// The wire value of an interference rejection.
pub open spec fn rejection_wire(value: i32) -> u8 {
    if value == 1 {
        0x11
    } else if value == 2 {
        0x22
    } else if value == 3 {
        0x33
    } else {
        0
    }
}

/// The wire value of target expansion: on is 0.
pub open spec fn expansion_wire(value: i32) -> u8 {
    if value == 0 { WIRE_TRUE } else { WIRE_FALSE }
}

/// The low byte of a value.
pub open spec fn low(value: i32) -> u8 {
    bytes::unsigned(value as int, 0x100) as u8
}

/// The packets that set a control to `value`.
pub open spec fn packets_for(q: KodenRequest, value: i32) -> Seq<Seq<u8>> {
    match q.request.id {
        ControlId::Power => if value == Power::Transmit.value() {
            seq![byte_packet(CMD_TRANSFER_MODE, 0x22)]
        } else if value == Power::Standby.value() {
            seq![byte_packet(CMD_TRANSFER_MODE, 0)]
        } else {
            Seq::empty()
        },
        ControlId::Gain => if q.request.wants_auto() {
            seq![byte_packet(CMD_AUTO_GAIN_MODE, WIRE_TRUE)]
        } else {
            seq![byte_packet(CMD_AUTO_GAIN_MODE, WIRE_FALSE), byte_packet(CMD_GAIN, q.level)]
        },
        ControlId::Sea => seq![byte_packet(CMD_STC, q.level)],
        ControlId::Rain => seq![byte_packet(CMD_FTC, q.level)],
        ControlId::SeaState => seq![byte_packet(CMD_AUTO_STC_MODE, sea_state_wire(value))],
        ControlId::PulseWidth => seq![byte_packet(CMD_PULSE_LENGTH, low(value))],
        ControlId::InterferenceRejection => seq![
            byte_packet(CMD_INTERFERENCE_REJECTION, rejection_wire(value)),
        ],
        ControlId::TargetExpansion => seq![byte_packet(CMD_TARGET_EXPANSION, expansion_wire(value))],
        ControlId::Tune => if q.request.wants_auto() {
            seq![byte_packet(CMD_TUNING_MODE, WIRE_AUTO)]
        } else {
            seq![
                byte_packet(CMD_TUNING_MODE, WIRE_FALSE),
                byte_packet(CMD_COARSE_TUNING, low(value)),
            ]
        },
        ControlId::TuneFine => seq![byte_packet(CMD_FINE_TUNING, low(value))],
        ControlId::DisplayTiming => seq![byte_packet(CMD_TRIGGER_DELAY, low(value))],
        ControlId::ScanSpeed => seq![byte_packet(CMD_ANTENNA_SPEED, low(value))],
        ControlId::NoTransmitSector1 => seq![sector_packet(q.angle, q.end_angle)],
        ControlId::ParkPosition => seq![word_packet(CMD_PARK_ANGLE, q.angle)],
        _ => Seq::empty(),
    }
}

/// The packets that a request leads to. Controls that the radar does not have
/// lead to none.
pub open spec fn packets(q: KodenRequest) -> Result<Seq<Seq<u8>>, SetError> {
    match q.request.wanted(q.current) {
        Ok(value) => Ok(packets_for(q, value)),
        Err(e) => Err(e),
    }
}

/// What a list of packets holds.
pub open spec fn packets_view(list: Seq<Vec<u8>>) -> Seq<Seq<u8>> {
    Seq::new(list.len(), |i: int| list[i]@)
}

/// Build a packet with a one-byte value.
pub fn set_byte(cmd: u8, value: u8) -> (r: Vec<u8>)
    ensures
        r@ == byte_packet(cmd, value),
{
    vec![CONTROL_PREFIX, cmd, value, PACKET_END]
}

/// Build a packet with a two-byte value.
pub fn set_word(cmd: u8, value: u16) -> (r: Vec<u8>)
    ensures
        r@ == word_packet(cmd, value),
{
    let mut r: Vec<u8> = vec![CONTROL_PREFIX, cmd];
    push_be16(&mut r, value);
    r.push(PACKET_END);
    assert(r@ =~= word_packet(cmd, value));
    r
}

fn set_sector(start: u16, end: u16) -> (r: Vec<u8>)
    ensures
        r@ == sector_packet(start, end),
{
    let mut r: Vec<u8> = vec![CONTROL_PREFIX, CMD_BLANKING_SECTOR];
    push_be16(&mut r, start);
    push_be16(&mut r, end);
    r.push(PACKET_END);
    assert(r@ =~= sector_packet(start, end));
    r
}

fn just(packet: Vec<u8>) -> (r: Vec<Vec<u8>>)
    ensures
        packets_view(r@) == seq![packet@],
{
    let r = vec![packet];
    assert(packets_view(r@) =~= seq![packet@]);
    r
}

fn both(first: Vec<u8>, second: Vec<u8>) -> (r: Vec<Vec<u8>>)
    ensures
        packets_view(r@) == seq![first@, second@],
{
    let r = vec![first, second];
    assert(packets_view(r@) =~= seq![first@, second@]);
    r
}

fn no_packets() -> (r: Vec<Vec<u8>>)
    ensures
        packets_view(r@) == Seq::<Seq<u8>>::empty(),
{
    let r: Vec<Vec<u8>> = Vec::new();
    assert(packets_view(r@) =~= Seq::<Seq<u8>>::empty());
    r
}

/// The packets that set a control.
pub fn set_control(q: &KodenRequest) -> (r: Result<Vec<Vec<u8>>, SetError>)
    ensures
        match r {
            Ok(list) => packets(*q) == Ok::<Seq<Seq<u8>>, SetError>(packets_view(list@)),
            Err(e) => packets(*q) == Err::<Seq<Seq<u8>>, SetError>(e),
        },
{
    let value: i32 = match q.request.wanted_value(q.current) {
        Ok(v) => v,
        Err(e) => {
            return Err(e);
        },
    };
    Ok(
        match q.request.id {
            ControlId::Power => {
                if value == Power::Transmit.control_value() {
                    just(set_byte(CMD_TRANSFER_MODE, 0x22))
                } else if value == Power::Standby.control_value() {
                    just(set_byte(CMD_TRANSFER_MODE, 0))
                } else {
                    no_packets()
                }
            },
            ControlId::Gain => {
                if q.request.is_auto() {
                    just(set_byte(CMD_AUTO_GAIN_MODE, WIRE_TRUE))
                } else {
                    both(set_byte(CMD_AUTO_GAIN_MODE, WIRE_FALSE), set_byte(CMD_GAIN, q.level))
                }
            },
            ControlId::Sea => just(set_byte(CMD_STC, q.level)),
            ControlId::Rain => just(set_byte(CMD_FTC, q.level)),
            ControlId::SeaState => {
                let wire: u8 = match value {
                    1 => 0x11,
                    2 => 0x22,
                    _ => 0,
                };
                just(set_byte(CMD_AUTO_STC_MODE, wire))
            },
            ControlId::PulseWidth => just(set_byte(CMD_PULSE_LENGTH, low_u8(value))),
            ControlId::InterferenceRejection => {
                let wire: u8 = match value {
                    1 => 0x11,
                    2 => 0x22,
                    3 => 0x33,
                    _ => 0,
                };
                just(set_byte(CMD_INTERFERENCE_REJECTION, wire))
            },
            ControlId::TargetExpansion => {
                let wire: u8 = if value == 0 {
                    WIRE_TRUE
                } else {
                    WIRE_FALSE
                };
                just(set_byte(CMD_TARGET_EXPANSION, wire))
            },
            ControlId::Tune => {
                if q.request.is_auto() {
                    just(set_byte(CMD_TUNING_MODE, WIRE_AUTO))
                } else {
                    both(
                        set_byte(CMD_TUNING_MODE, WIRE_FALSE),
                        set_byte(CMD_COARSE_TUNING, low_u8(value)),
                    )
                }
            },
            ControlId::TuneFine => just(set_byte(CMD_FINE_TUNING, low_u8(value))),
            ControlId::DisplayTiming => just(set_byte(CMD_TRIGGER_DELAY, low_u8(value))),
            ControlId::ScanSpeed => just(set_byte(CMD_ANTENNA_SPEED, low_u8(value))),
            ControlId::NoTransmitSector1 => just(set_sector(q.angle, q.end_angle)),
            ControlId::ParkPosition => just(set_word(CMD_PARK_ANGLE, q.angle)),
            _ => no_packets(),
        },
    )
}

/// The status that tells what a packet set: the same bytes behind the status prefix.
pub open spec fn confirmation(packet: Seq<u8>) -> Seq<u8> {
    packet.update(0, STATUS_PREFIX)
}

/// A sea state, an interference rejection or a target expansion that the
/// control offers takes one packet, and comes back in the status as it was set.
pub proof fn law_lists_come_back(q: KodenRequest, value: i32, heading: Option<u16>)
    requires
        q.request.wanted(q.current) == Ok::<i32, SetError>(value),
        ({
            ||| q.request.id == ControlId::SeaState && 0 <= value <= 2
            ||| q.request.id == ControlId::InterferenceRejection && 0 <= value <= 3
            ||| q.request.id == ControlId::TargetExpansion && 0 <= value <= 1
        }),
    ensures
        packets(q) matches Ok(list) && list.len() == 1 && report::response(
            confirmation(list[0]),
            heading,
        ) == report::one(Update::Value { id: q.request.id, value: value as i64 }),
{
}

/// A sector takes one packet, and comes back in the status as it was set; it is off
/// when it is empty.
pub proof fn law_sector_comes_back(q: KodenRequest, heading: Option<u16>)
    requires
        q.request.id == ControlId::NoTransmitSector1,
        q.request.wanted(q.current) is Ok,
    ensures
        packets(q) matches Ok(list) && list.len() == 1 && report::response(
            confirmation(list[0]),
            heading,
        ) == report::one(
            Update::Sector {
                id: ControlId::NoTransmitSector1,
                start: q.angle as i64,
                end: q.end_angle as i64,
                enabled: q.angle != q.end_angle,
            },
        ),
{
    let p = confirmation(sector_packet(q.angle, q.end_angle));
    assert(bytes::be16(p, 2) == bytes::be16(bytes::be16_bytes(q.angle as int), 0));
    assert(bytes::be16(p, 4) == bytes::be16(bytes::be16_bytes(q.end_angle as int), 0));
    bytes::lemma_be16_round_trip(q.angle);
    bytes::lemma_be16_round_trip(q.end_angle);
}

/// The opcode on the wire for a control that takes one packet, or for the value of one
/// that can be automatic.
pub open spec fn opcode(id: ControlId) -> u8 {
    match id {
        ControlId::Gain => 0x47,
        ControlId::Sea => 0x53,
        ControlId::Rain => 0x46,
        ControlId::Tune => 0x55,
        ControlId::TuneFine => 0x54,
        ControlId::DisplayTiming => 0x44,
        ControlId::ScanSpeed => 0xa5,
        ControlId::PulseWidth => 0xa4,
        ControlId::SeaState => 0x80,
        ControlId::InterferenceRejection => 0x49,
        ControlId::TargetExpansion => 0x45,
        ControlId::NoTransmitSector1 => 0x9c,
        ControlId::ParkPosition => 0xaa,
        _ => 0,
    }
}

/// Every packet is framed: it begins with `&`, ends with a carriage return, and the last
/// one of a request carries the opcode of its control.
pub proof fn law_packets_are_framed(q: KodenRequest, i: int)
    requires
        packets(q) matches Ok(list) && 0 <= i < list.len(),
    ensures
        packets(q) matches Ok(list) && {
            &&& list[i].len() >= 4
            &&& list[i][0] == 0x26
            &&& list[i].last() == 0x0d
            &&& opcode(q.request.id) != 0 && (q.request.id != ControlId::Gain && q.request.id
                != ControlId::Tune || !q.request.wants_auto()) ==> list.last()[1] == opcode(
                q.request.id,
            )
        },
{
}

/// A level of gain, sea or rain that is set by hand comes back as the level of that
/// control.
pub proof fn law_levels_come_back(q: KodenRequest, heading: Option<u16>)
    requires
        q.request.wanted(q.current) is Ok,
        q.request.id == ControlId::Gain && !q.request.wants_auto() || q.request.id
            == ControlId::Sea || q.request.id == ControlId::Rain,
    ensures
        packets(q) matches Ok(list) && list.len() >= 1 && report::response(
            confirmation(list.last()),
            heading,
        ) == report::one(Update::Fraction { id: q.request.id, raw: q.level }),
{
}

/// Automatic gain and tuning come back: the first packet of a request switches it on or
/// off.
pub proof fn law_automatic_comes_back(q: KodenRequest, heading: Option<u16>)
    requires
        q.request.wanted(q.current) is Ok,
        q.request.id == ControlId::Gain || q.request.id == ControlId::Tune,
    ensures
        packets(q) matches Ok(list) && {
            let auto = q.request.auto == Some(true);
            let first = report::response(confirmation(list[0]), heading);
            &&& list.len() == if auto { 1int } else { 2int }
            &&& q.request.id == ControlId::Gain ==> first == report::one(
                Update::AutoKept { id: ControlId::Gain, auto },
            )
            &&& q.request.id == ControlId::Tune ==> first == report::one(
                Update::AutoState { id: ControlId::Tune, auto },
            )
        },
{
}

/// A number that takes a byte comes back as it was set.
pub proof fn law_bytes_come_back(q: KodenRequest, value: i32, heading: Option<u16>)
    requires
        q.request.wanted(q.current) == Ok::<i32, SetError>(value),
        0 <= value < 256,
        q.request.id == ControlId::PulseWidth || q.request.id == ControlId::TuneFine
            || q.request.id == ControlId::DisplayTiming || q.request.id == ControlId::ScanSpeed
            || q.request.id == ControlId::Tune && !q.request.wants_auto(),
    ensures
        packets(q) matches Ok(list) && list.len() >= 1 && report::response(
            confirmation(list.last()),
            heading,
        ) == report::one(Update::Value { id: q.request.id, value: value as i64 }),
{
}

/// The park position comes back as it was set.
pub proof fn law_park_position_comes_back(q: KodenRequest, heading: Option<u16>)
    requires
        q.request.wanted(q.current) is Ok,
        q.request.id == ControlId::ParkPosition,
    ensures
        packets(q) matches Ok(list) && list.len() == 1 && report::response(
            confirmation(list[0]),
            heading,
        ) == report::one(Update::Value { id: ControlId::ParkPosition, value: q.angle as i64 }),
{
    let p = confirmation(word_packet(CMD_PARK_ANGLE, q.angle));
    assert(bytes::be16(p, 2) == bytes::be16(bytes::be16_bytes(q.angle as int), 0));
    bytes::lemma_be16_round_trip(q.angle);
}

/// To transmit is to ask for images without end, which the keep-alive packet repeats; to
/// stand by is to ask for none. No other power state is sent.
pub proof fn law_power_packets(q: KodenRequest, value: i32)
    requires
        q.request.id == ControlId::Power,
        q.request.wanted(q.current) == Ok::<i32, SetError>(value),
    ensures
        packets(q) matches Ok(list) && {
            &&& value == 2 ==> list == seq![super::protocol::KEEPALIVE_PACKET@]
            &&& value == 1 ==> list == seq![seq![0x26u8, 0x69, 0x00, 0x0d]]
            &&& value != 1 && value != 2 ==> list.len() == 0
        },
{
    if value == 2 {
        assert(packets(q)->Ok_0[0] =~= super::protocol::KEEPALIVE_PACKET@);
    }
}

/// The choices of a list go out as steps of 0x11 from off on; target expansion is the
/// other way round.
pub proof fn law_choices_on_the_wire(q: KodenRequest, value: i32)
    requires
        q.request.wanted(q.current) == Ok::<i32, SetError>(value),
    ensures
        q.request.id == ControlId::SeaState && 0 <= value <= 2 ==> packets(q) == Ok::<
            Seq<Seq<u8>>,
            SetError,
        >(seq![seq![0x26u8, 0x80, (0x11 * value) as u8, 0x0d]]),
        q.request.id == ControlId::InterferenceRejection && 0 <= value <= 3 ==> packets(q) == Ok::<
            Seq<Seq<u8>>,
            SetError,
        >(seq![seq![0x26u8, 0x49, (0x11 * value) as u8, 0x0d]]),
        q.request.id == ControlId::TargetExpansion && 0 <= value <= 1 ==> packets(q) == Ok::<
            Seq<Seq<u8>>,
            SetError,
        >(seq![seq![0x26u8, 0x45, (0x11 * (1 - value)) as u8, 0x0d]]),
        q.request.id == ControlId::SeaState && !(0 <= value <= 2) || q.request.id
            == ControlId::InterferenceRejection && !(0 <= value <= 3) ==> packets(q)->Ok_0[0][2]
            == 0,
        q.request.id == ControlId::Tune && q.request.wants_auto() ==> packets(q)->Ok_0[0] == seq![
            0x26u8,
            0x41,
            0x22,
            0x0d,
        ],
        q.request.id == ControlId::Gain && q.request.wants_auto() ==> packets(q)->Ok_0[0] == seq![
            0x26u8,
            0x67,
            0x11,
            0x0d,
        ],
{
}

/// A request without a number is refused, unless it only switches to automatic or back,
/// which keeps the value that the control has.
pub proof fn law_requests_need_a_number(q: KodenRequest)
    requires
        q.request.number is None,
    ensures
        q.request.auto is None || q.request.has_value ==> packets(q) == Err::<
            Seq<Seq<u8>>,
            SetError,
        >(SetError::NoNumber),
        q.request.auto is Some && !q.request.has_value ==> packets(q) is Ok,
        q.request.auto == Some(false) && !q.request.has_value && q.request.id == ControlId::Tune && (
        q.current matches Some(v) && 0 <= v < 256) ==> packets(q)->Ok_0.last()[2]
            == q.current->0,
{
}

} // verus!
