//! The controls of a Garmin radar, by its capabilities.

use vstd::prelude::*;

use super::capabilities;
use super::capabilities::{cap, GarminCapabilities};
use super::protocol::GarminRadarType;
use crate::control;
use crate::control::{
    define, new_auto, new_half_turn, new_list, new_numeric, new_string, push_if, read_only,
    wire_scale_factor, wire_units, Bounds, Choices, Definition, Kind, Scale, Unit,
};
use crate::radar::ControlId;

verus! {

/// The controls of each range.
pub open spec fn range_controls(caps: Set<u32>) -> Seq<Definition> {
    let s = seq![control::text(ControlId::ModelName), control::text(ControlId::UserName)];
    let s = control::and_if(
        s,
        caps.contains(cap::RANGE_A_GAIN),
        control::auto_number(ControlId::Gain, 0, 100),
    );
    let s = control::and_if(
        s,
        caps.contains(cap::RANGE_A_RAIN_GAIN),
        control::number(ControlId::Rain, 0, 100),
    );
    let s = control::and_if(
        s,
        caps.contains(cap::RANGE_A_SEA_GAIN),
        control::auto_number(ControlId::Sea, 0, 100),
    );
    let s = control::and_if(
        s,
        capabilities::motionscope(caps),
        control::list(ControlId::Doppler, Choices::OffNormalApproaching),
    );
    let s = control::and_if(
        s,
        caps.contains(cap::PULSE_EXPANSION_A),
        control::list(ControlId::TargetExpansion, Choices::OffOn),
    );
    let s = control::and_if(
        s,
        caps.contains(cap::TARGET_SIZE_MODE_A),
        control::list(ControlId::TargetBoost, Choices::OffOn),
    );
    let average = caps.contains(cap::SCAN_AVERAGE_MODE_A);
    let s = control::and_if(
        s,
        average,
        control::list(ControlId::ScanAverageMode, Choices::OffLowMediumMediumHighHighVeryHigh),
    );
    control::and_if(
        s,
        average,
        control::scaled(
            control::number(ControlId::ScanAverageSensitivity, 0, 100),
            Scale::Milli(100_000),
            false,
        ),
    )
}

/// An angle relative to the bow.
pub open spec fn angle(id: ControlId) -> Definition {
    control::scaled(control::half_turn(id), Scale::DegreesPerRadian, false)
}

/// A sector relative to the bow.
pub open spec fn sector(id: ControlId) -> Definition {
    control::scaled(
        control::plain(id, Kind::Sector(Bounds::HalfTurn)),
        Scale::DegreesPerRadian,
        true,
    )
}

/// A number that only shows, from 0 to `max`.
pub open spec fn gauge(id: ControlId, max: int, unit: Unit, milli: i64) -> Definition {
    control::in_unit(
        control::scaled(control::shown(control::number(id, 0, max)), Scale::Milli(milli), false),
        unit,
    )
}

/// The controls of the whole antenna, added to `s`. An HD radar has target expansion
/// also without the capability.
pub open spec fn antenna_controls(
    s: Seq<Definition>,
    radar_type: GarminRadarType,
    caps: Set<u32>,
) -> Seq<Definition> {
    let xhd = radar_type == GarminRadarType::XHD;
    let s = control::and_if(
        s,
        caps.contains(cap::FRONT_OF_BOAT),
        angle(ControlId::BearingAlignment),
    );
    let s = control::and_if(
        s,
        caps.contains(cap::PARK_POSITION),
        angle(ControlId::ParkPosition),
    );
    let s = control::and_if(
        s,
        caps.contains(cap::AFC_MODE),
        control::auto_number(ControlId::Tune, 0, 100),
    );
    let s = control::and_if(
        s,
        caps.contains(cap::TRANSMIT_CHANNEL_MODE),
        control::auto_number(ControlId::TransmitChannel, 1, 4),
    );
    let s = control::and_if(
        s,
        caps.contains(cap::DITHER_MODE) || caps.contains(cap::NOISE_BLANKER_MODE),
        control::number(ControlId::InterferenceRejection, 0, 100),
    );
    let s = control::and_if(
        s,
        caps.contains(cap::RPM_MODE),
        control::number(ControlId::ScanSpeed, 0, 10),
    );
    let s = control::and_if(
        s,
        radar_type == GarminRadarType::HD && !caps.contains(cap::PULSE_EXPANSION_A),
        control::list(ControlId::TargetExpansion, Choices::OffOn),
    );
    let s = control::and_if(
        s,
        caps.contains(cap::NO_TX_ZONE_1_MODE) && xhd,
        sector(ControlId::NoTransmitSector1),
    );
    let s = control::and_if(
        s,
        caps.contains(cap::NO_TX_ZONE_2_MODE) && xhd,
        sector(ControlId::NoTransmitSector2),
    );
    let s = control::and_if(
        s,
        xhd,
        gauge(ControlId::OperatingTime, u32::MAX as int, Unit::Seconds, 1000),
    );
    let s = control::and_if(
        s,
        xhd,
        gauge(ControlId::TransmitTime, u32::MAX as int, Unit::Seconds, 1000),
    );
    let s = control::and_if(
        s,
        xhd,
        gauge(ControlId::MagnetronCurrent, u16::MAX as int, Unit::Amps, 1_000_000),
    );
    let s = control::and_if(
        s,
        xhd,
        gauge(ControlId::SupplyVoltage, u16::MAX as int, Unit::Volts, 10_000),
    );
    let s = control::and_if(
        s,
        xhd,
        gauge(ControlId::DeviceTemperature, u16::MAX as int, Unit::Celsius, 100_000),
    );
    let sentry = caps.contains(cap::SENTRY_MODE) && xhd;
    let s = control::and_if(s, sentry, control::list(ControlId::TimedIdle, Choices::OffOn));
    control::and_if(
        s,
        sentry,
        control::in_unit(control::number(ControlId::TimedRun, 1, 3600), Unit::Seconds),
    )
}

/// The controls of a range of a radar. Range B has those of a range only; the
/// others are on range A.
pub open spec fn definitions(
    radar_type: GarminRadarType,
    caps: Set<u32>,
    is_range_b: bool,
) -> Seq<Definition> {
    if is_range_b {
        range_controls(caps)
    } else {
        antenna_controls(range_controls(caps), radar_type, caps)
    }
}

fn new_angle(id: ControlId) -> (r: Definition)
    ensures
        r == angle(id),
{
    wire_scale_factor(new_half_turn(id), Scale::DegreesPerRadian, false)
}

fn new_sector(id: ControlId) -> (r: Definition)
    ensures
        r == sector(id),
{
    wire_scale_factor(define(id, Kind::Sector(Bounds::HalfTurn)), Scale::DegreesPerRadian, true)
}

fn new_gauge(id: ControlId, max: i64, unit: Unit, milli: i64) -> (r: Definition)
    requires
        0 <= max <= u32::MAX,
    ensures
        r == gauge(id, max as int, unit, milli),
{
    wire_units(
        wire_scale_factor(read_only(new_numeric(id, 0, max)), Scale::Milli(milli), false),
        unit,
    )
}

fn range_definitions(caps: &GarminCapabilities) -> (r: Vec<Definition>)
    ensures
        r@ == range_controls(caps@),
{
    let mut out: Vec<Definition> = vec![
        new_string(ControlId::ModelName),
        new_string(ControlId::UserName),
    ];
    push_if(&mut out, caps.has(cap::RANGE_A_GAIN), new_auto(ControlId::Gain, 0, 100));
    push_if(&mut out, caps.has(cap::RANGE_A_RAIN_GAIN), new_numeric(ControlId::Rain, 0, 100));
    push_if(&mut out, caps.has(cap::RANGE_A_SEA_GAIN), new_auto(ControlId::Sea, 0, 100));
    push_if(
        &mut out,
        caps.has_motionscope(),
        new_list(ControlId::Doppler, Choices::OffNormalApproaching),
    );
    push_if(
        &mut out,
        caps.has_pulse_expansion(),
        new_list(ControlId::TargetExpansion, Choices::OffOn),
    );
    push_if(
        &mut out,
        caps.has_target_size_mode(),
        new_list(ControlId::TargetBoost, Choices::OffOn),
    );
    let average = caps.has_scan_average();
    push_if(
        &mut out,
        average,
        new_list(ControlId::ScanAverageMode, Choices::OffLowMediumMediumHighHighVeryHigh),
    );
    push_if(
        &mut out,
        average,
        wire_scale_factor(
            new_numeric(ControlId::ScanAverageSensitivity, 0, 100),
            Scale::Milli(100_000),
            false,
        ),
    );
    out
}

/// The controls of a range of a radar.
pub fn new(radar_type: GarminRadarType, caps: &GarminCapabilities, is_range_b: bool) -> (r: Vec<
    Definition,
>)
    ensures
        r@ == definitions(radar_type, caps@, is_range_b),
{
    let mut out = range_definitions(caps);
    if is_range_b {
        return out;
    }
    let xhd = radar_type == GarminRadarType::XHD;
    push_if(&mut out, caps.has(cap::FRONT_OF_BOAT), new_angle(ControlId::BearingAlignment));
    push_if(&mut out, caps.has(cap::PARK_POSITION), new_angle(ControlId::ParkPosition));
    push_if(&mut out, caps.has_afc(), new_auto(ControlId::Tune, 0, 100));
    push_if(
        &mut out,
        caps.has_transmit_channel_select(),
        new_auto(ControlId::TransmitChannel, 1, 4),
    );
    push_if(
        &mut out,
        caps.has(cap::DITHER_MODE) || caps.has(cap::NOISE_BLANKER_MODE),
        new_numeric(ControlId::InterferenceRejection, 0, 100),
    );
    push_if(&mut out, caps.has(cap::RPM_MODE), new_numeric(ControlId::ScanSpeed, 0, 10));
    push_if(
        &mut out,
        radar_type == GarminRadarType::HD && !caps.has_pulse_expansion(),
        new_list(ControlId::TargetExpansion, Choices::OffOn),
    );
    push_if(
        &mut out,
        caps.has_no_tx_zone_1() && xhd,
        new_sector(ControlId::NoTransmitSector1),
    );
    push_if(
        &mut out,
        caps.has_no_tx_zone_2() && xhd,
        new_sector(ControlId::NoTransmitSector2),
    );
    push_if(
        &mut out,
        xhd,
        new_gauge(ControlId::OperatingTime, u32::MAX as i64, Unit::Seconds, 1000),
    );
    push_if(
        &mut out,
        xhd,
        new_gauge(ControlId::TransmitTime, u32::MAX as i64, Unit::Seconds, 1000),
    );
    push_if(
        &mut out,
        xhd,
        new_gauge(ControlId::MagnetronCurrent, u16::MAX as i64, Unit::Amps, 1_000_000),
    );
    push_if(
        &mut out,
        xhd,
        new_gauge(ControlId::SupplyVoltage, u16::MAX as i64, Unit::Volts, 10_000),
    );
    push_if(
        &mut out,
        xhd,
        new_gauge(ControlId::DeviceTemperature, u16::MAX as i64, Unit::Celsius, 100_000),
    );
    let sentry = caps.has_sentry_mode() && xhd;
    push_if(&mut out, sentry, new_list(ControlId::TimedIdle, Choices::OffOn));
    push_if(
        &mut out,
        sentry,
        wire_units(new_numeric(ControlId::TimedRun, 1, 3600), Unit::Seconds),
    );
    out
}

/// Range A has every control of range B.
pub proof fn law_range_a_has_all(radar_type: GarminRadarType, caps: Set<u32>, i: int)
    requires
        0 <= i < definitions(radar_type, caps, true).len(),
    ensures
        i < definitions(radar_type, caps, false).len(),
        definitions(radar_type, caps, false)[i] == definitions(radar_type, caps, true)[i],
{
    assert forall|s: Seq<Definition>, condition: bool, d: Definition| i < s.len() implies i
        < control::and_if(s, condition, d).len() && #[trigger] control::and_if(s, condition, d)[i]
        == s[i] by {
        reveal(control::and_if);
    }
    assert forall|s: Seq<Definition>, condition: bool, d: Definition|
        i < s.len() implies i < #[trigger] control::and_if(s, condition, d).len() by {
        reveal(control::and_if);
    }
}

proof fn lemma_range_controls_distinct(caps: Set<u32>)
    ensures
        control::distinct(range_controls(caps)),
        forall|id: ControlId| #[trigger] control::lists(range_controls(caps), id) <==> {
            ||| id == ControlId::ModelName
            ||| id == ControlId::UserName
            ||| id == ControlId::Gain && caps.contains(0x4c)
            ||| id == ControlId::Rain && caps.contains(0x50)
            ||| id == ControlId::Sea && caps.contains(0x53)
            ||| id == ControlId::Doppler && (caps.contains(0xa3) || caps.contains(0xa4))
            ||| id == ControlId::TargetExpansion && caps.contains(0xab)
            ||| id == ControlId::TargetBoost && caps.contains(0xbd)
            ||| id == ControlId::ScanAverageMode && caps.contains(0xca)
            ||| id == ControlId::ScanAverageSensitivity && caps.contains(0xca)
        },
{
    let s = seq![control::text(ControlId::ModelName), control::text(ControlId::UserName)];
    assert(s[0].id == ControlId::ModelName && s[1].id == ControlId::UserName);
    let s = control::lemma_and_if(
        s,
        caps.contains(cap::RANGE_A_GAIN),
        control::auto_number(ControlId::Gain, 0, 100),
    );
    let s = control::lemma_and_if(
        s,
        caps.contains(cap::RANGE_A_RAIN_GAIN),
        control::number(ControlId::Rain, 0, 100),
    );
    let s = control::lemma_and_if(
        s,
        caps.contains(cap::RANGE_A_SEA_GAIN),
        control::auto_number(ControlId::Sea, 0, 100),
    );
    let s = control::lemma_and_if(
        s,
        capabilities::motionscope(caps),
        control::list(ControlId::Doppler, Choices::OffNormalApproaching),
    );
    let s = control::lemma_and_if(
        s,
        caps.contains(cap::PULSE_EXPANSION_A),
        control::list(ControlId::TargetExpansion, Choices::OffOn),
    );
    let s = control::lemma_and_if(
        s,
        caps.contains(cap::TARGET_SIZE_MODE_A),
        control::list(ControlId::TargetBoost, Choices::OffOn),
    );
    let average = caps.contains(cap::SCAN_AVERAGE_MODE_A);
    let s = control::lemma_and_if(
        s,
        average,
        control::list(ControlId::ScanAverageMode, Choices::OffLowMediumMediumHighHighVeryHigh),
    );
    let s = control::lemma_and_if(
        s,
        average,
        control::scaled(
            control::number(ControlId::ScanAverageSensitivity, 0, 100),
            Scale::Milli(100_000),
            false,
        ),
    );
}

/// No control is listed twice.
pub proof fn law_controls_are_distinct(
    radar_type: GarminRadarType,
    caps: Set<u32>,
    is_range_b: bool,
)
    ensures
        control::distinct(definitions(radar_type, caps, is_range_b)),
{
    lemma_range_controls_distinct(caps);
    let s = range_controls(caps);
    let xhd = radar_type == GarminRadarType::XHD;
    let s = control::lemma_and_if(
        s,
        caps.contains(cap::FRONT_OF_BOAT),
        angle(ControlId::BearingAlignment),
    );
    let s = control::lemma_and_if(
        s,
        caps.contains(cap::PARK_POSITION),
        angle(ControlId::ParkPosition),
    );
    let s = control::lemma_and_if(
        s,
        caps.contains(cap::AFC_MODE),
        control::auto_number(ControlId::Tune, 0, 100),
    );
    let s = control::lemma_and_if(
        s,
        caps.contains(cap::TRANSMIT_CHANNEL_MODE),
        control::auto_number(ControlId::TransmitChannel, 1, 4),
    );
    let s = control::lemma_and_if(
        s,
        caps.contains(cap::DITHER_MODE) || caps.contains(cap::NOISE_BLANKER_MODE),
        control::number(ControlId::InterferenceRejection, 0, 100),
    );
    let s = control::lemma_and_if(
        s,
        caps.contains(cap::RPM_MODE),
        control::number(ControlId::ScanSpeed, 0, 10),
    );
    let s = control::lemma_and_if(
        s,
        radar_type == GarminRadarType::HD && !caps.contains(cap::PULSE_EXPANSION_A),
        control::list(ControlId::TargetExpansion, Choices::OffOn),
    );
    let s = control::lemma_and_if(
        s,
        caps.contains(cap::NO_TX_ZONE_1_MODE) && xhd,
        sector(ControlId::NoTransmitSector1),
    );
    let s = control::lemma_and_if(
        s,
        caps.contains(cap::NO_TX_ZONE_2_MODE) && xhd,
        sector(ControlId::NoTransmitSector2),
    );
    let s = control::lemma_and_if(
        s,
        xhd,
        gauge(ControlId::OperatingTime, u32::MAX as int, Unit::Seconds, 1000),
    );
    let s = control::lemma_and_if(
        s,
        xhd,
        gauge(ControlId::TransmitTime, u32::MAX as int, Unit::Seconds, 1000),
    );
    let s = control::lemma_and_if(
        s,
        xhd,
        gauge(ControlId::MagnetronCurrent, u16::MAX as int, Unit::Amps, 1_000_000),
    );
    let s = control::lemma_and_if(
        s,
        xhd,
        gauge(ControlId::SupplyVoltage, u16::MAX as int, Unit::Volts, 10_000),
    );
    let s = control::lemma_and_if(
        s,
        xhd,
        gauge(ControlId::DeviceTemperature, u16::MAX as int, Unit::Celsius, 100_000),
    );
    let sentry = caps.contains(cap::SENTRY_MODE) && xhd;
    let s = control::lemma_and_if(s, sentry, control::list(ControlId::TimedIdle, Choices::OffOn));
    let s = control::lemma_and_if(
        s,
        sentry,
        control::in_unit(control::number(ControlId::TimedRun, 1, 3600), Unit::Seconds),
    );
}

/// Whether a range of a radar has a control, by the numbers of its capabilities.
pub open spec fn has_control(
    radar_type: GarminRadarType,
    caps: Set<u32>,
    is_range_b: bool,
    id: ControlId,
) -> bool {
    let xhd = radar_type == GarminRadarType::XHD;
    match id {
        ControlId::ModelName | ControlId::UserName => true,
        ControlId::Gain => caps.contains(0x4c),
        ControlId::Rain => caps.contains(0x50),
        ControlId::Sea => caps.contains(0x53),
        ControlId::Doppler => caps.contains(0xa3) || caps.contains(0xa4),
        ControlId::TargetExpansion => caps.contains(0xab) || !is_range_b && radar_type
            == GarminRadarType::HD,
        ControlId::TargetBoost => caps.contains(0xbd),
        ControlId::ScanAverageMode | ControlId::ScanAverageSensitivity => caps.contains(0xca),
        ControlId::BearingAlignment => !is_range_b && caps.contains(0x1c),
        ControlId::ParkPosition => !is_range_b && caps.contains(0x1d),
        ControlId::Tune => !is_range_b && caps.contains(0x61),
        ControlId::TransmitChannel => !is_range_b && caps.contains(0xb2),
        ControlId::InterferenceRejection => !is_range_b && (caps.contains(0x37) || caps.contains(
            0x38,
        )),
        ControlId::ScanSpeed => !is_range_b && caps.contains(0x0c),
        ControlId::NoTransmitSector1 => !is_range_b && xhd && caps.contains(0x21),
        ControlId::NoTransmitSector2 => !is_range_b && xhd && caps.contains(0xbf),
        ControlId::TimedIdle | ControlId::TimedRun => !is_range_b && xhd && caps.contains(0x24),
        ControlId::OperatingTime
        | ControlId::TransmitTime
        | ControlId::MagnetronCurrent
        | ControlId::SupplyVoltage
        | ControlId::DeviceTemperature => !is_range_b && xhd,
        _ => false,
    }
}

/// A radar has a control where it reports the capability; those of the whole antenna are on
/// range A only.
#[verifier::rlimit(60)]
pub proof fn law_capabilities_bring_controls(
    radar_type: GarminRadarType,
    caps: Set<u32>,
    is_range_b: bool,
    id: ControlId,
)
    ensures
        control::lists(definitions(radar_type, caps, is_range_b), id) <==> has_control(
            radar_type,
            caps,
            is_range_b,
            id,
        ),
{
    lemma_range_controls_distinct(caps);
    let s = range_controls(caps);
    let xhd = radar_type == GarminRadarType::XHD;
    let s = control::lemma_and_if(
        s,
        caps.contains(cap::FRONT_OF_BOAT),
        angle(ControlId::BearingAlignment),
    );
    let s = control::lemma_and_if(
        s,
        caps.contains(cap::PARK_POSITION),
        angle(ControlId::ParkPosition),
    );
    let s = control::lemma_and_if(
        s,
        caps.contains(cap::AFC_MODE),
        control::auto_number(ControlId::Tune, 0, 100),
    );
    let s = control::lemma_and_if(
        s,
        caps.contains(cap::TRANSMIT_CHANNEL_MODE),
        control::auto_number(ControlId::TransmitChannel, 1, 4),
    );
    let s = control::lemma_and_if(
        s,
        caps.contains(cap::DITHER_MODE) || caps.contains(cap::NOISE_BLANKER_MODE),
        control::number(ControlId::InterferenceRejection, 0, 100),
    );
    let s = control::lemma_and_if(
        s,
        caps.contains(cap::RPM_MODE),
        control::number(ControlId::ScanSpeed, 0, 10),
    );
    let s = control::lemma_and_if(
        s,
        radar_type == GarminRadarType::HD && !caps.contains(cap::PULSE_EXPANSION_A),
        control::list(ControlId::TargetExpansion, Choices::OffOn),
    );
    let s = control::lemma_and_if(
        s,
        caps.contains(cap::NO_TX_ZONE_1_MODE) && xhd,
        sector(ControlId::NoTransmitSector1),
    );
    let s = control::lemma_and_if(
        s,
        caps.contains(cap::NO_TX_ZONE_2_MODE) && xhd,
        sector(ControlId::NoTransmitSector2),
    );
    let s = control::lemma_and_if(
        s,
        xhd,
        gauge(ControlId::OperatingTime, u32::MAX as int, Unit::Seconds, 1000),
    );
    let s = control::lemma_and_if(
        s,
        xhd,
        gauge(ControlId::TransmitTime, u32::MAX as int, Unit::Seconds, 1000),
    );
    let s = control::lemma_and_if(
        s,
        xhd,
        gauge(ControlId::MagnetronCurrent, u16::MAX as int, Unit::Amps, 1_000_000),
    );
    let s = control::lemma_and_if(
        s,
        xhd,
        gauge(ControlId::SupplyVoltage, u16::MAX as int, Unit::Volts, 10_000),
    );
    let s = control::lemma_and_if(
        s,
        xhd,
        gauge(ControlId::DeviceTemperature, u16::MAX as int, Unit::Celsius, 100_000),
    );
    let sentry = caps.contains(cap::SENTRY_MODE) && xhd;
    let s = control::lemma_and_if(s, sentry, control::list(ControlId::TimedIdle, Choices::OffOn));
    let s = control::lemma_and_if(
        s,
        sentry,
        control::in_unit(control::number(ControlId::TimedRun, 1, 3600), Unit::Seconds),
    );
}


/// What each control can be set to.
pub open spec fn takes(d: Definition) -> bool {
    let whole = |min: int, max: int| Bounds::Milli {
        min: (1000 * min) as i64,
        max: (1000 * max) as i64,
    };
    match d.id {
        ControlId::ModelName | ControlId::UserName => d.kind is Text,
        ControlId::Gain | ControlId::Sea | ControlId::Tune => d.kind == Kind::AutoNumber(
            whole(0, 100),
        ),
        ControlId::TransmitChannel => d.kind == Kind::AutoNumber(whole(1, 4)),
        ControlId::Rain | ControlId::InterferenceRejection => d.kind == Kind::Number(whole(0, 100)),
        ControlId::ScanAverageSensitivity => d.kind == Kind::Number(whole(0, 100)) && d.scale
            == Scale::Milli(100_000),
        ControlId::ScanSpeed => d.kind == Kind::Number(whole(0, 10)),
        ControlId::Doppler => d.kind == Kind::List(Choices::OffNormalApproaching),
        ControlId::TargetExpansion | ControlId::TargetBoost | ControlId::TimedIdle => d.kind
            == Kind::List(Choices::OffOn),
        ControlId::ScanAverageMode => d.kind == Kind::List(
            Choices::OffLowMediumMediumHighHighVeryHigh,
        ),
        ControlId::BearingAlignment | ControlId::ParkPosition => d.kind == Kind::Number(
            Bounds::HalfTurn,
        ) && d.scale == Scale::DegreesPerRadian && !d.signed,
        ControlId::NoTransmitSector1 | ControlId::NoTransmitSector2 => d.kind == Kind::Sector(
            Bounds::HalfTurn,
        ) && d.scale == Scale::DegreesPerRadian && d.signed,
        ControlId::OperatingTime | ControlId::TransmitTime => d.read_only && d.unit == Unit::Seconds
            && d.kind == Kind::Number(whole(0, 0xffff_ffff)) && d.scale == Scale::Milli(1000),
        ControlId::MagnetronCurrent => d.read_only && d.unit == Unit::Amps && d.kind == Kind::Number(
            whole(0, 0xffff),
        ) && d.scale == Scale::Milli(1_000_000),
        ControlId::SupplyVoltage => d.read_only && d.unit == Unit::Volts && d.kind == Kind::Number(
            whole(0, 0xffff),
        ) && d.scale == Scale::Milli(10_000),
        ControlId::DeviceTemperature => d.read_only && d.unit == Unit::Celsius && d.kind
            == Kind::Number(whole(0, 0xffff)) && d.scale == Scale::Milli(100_000),
        ControlId::TimedRun => d.kind == Kind::Number(whole(1, 3600)) && d.unit == Unit::Seconds,
        _ => true,
    }
}

/// Whether all controls of a list can be set to what they should.
pub open spec fn all_take(s: Seq<Definition>) -> bool {
    forall|i: int| 0 <= i < s.len() ==> takes(#[trigger] s[i])
}

/// Every control can be set to what it should, whatever the radar reports.
#[verifier::rlimit(60)]
pub proof fn law_controls_take(radar_type: GarminRadarType, caps: Set<u32>, is_range_b: bool)
    ensures
        all_take(definitions(radar_type, caps, is_range_b)),
{
    assert forall|s: Seq<Definition>, condition: bool, d: Definition|
        all_take(s) && takes(d) implies all_take(#[trigger] control::and_if(s, condition, d)) by {
        reveal(control::and_if);
    }
    assert(all_take(
        seq![control::text(ControlId::ModelName), control::text(ControlId::UserName)],
    ));
    assert(all_take(range_controls(caps)));
}

} // verus!
