//! Reports and spokes from a Garmin radar.

use vstd::prelude::*;
use vstd::slice::*;

use super::capabilities;
use super::capabilities::GarminCapabilities;
use super::protocol::{
    ANGLE_UNITS_PER_SPOKE, DEGREE_SCALE, DOPPLER_APPROACHING_START, DOPPLER_RECEDING_START,
    GAIN_SCALE, GMN_HEADER_LEN, GarminRadarType, HD_SPOKES_PER_PACKET, HD_SPOKE_HEADER_SIZE,
    HD_STATE_SPINNING_UP, HD_STATE_STANDBY, HD_STATE_TRANSMIT, HD_STATE_WARMING_UP,
    MSG_AFC_COARSE, MSG_AFC_MODE, MSG_AFC_PROGRESS, MSG_AFC_SETTING, MSG_AFC_TUNING_MODE,
    MSG_ANTENNA_SIZE, MSG_BEARING_ALIGNMENT, MSG_CAPABILITY, MSG_DEFAULT_DOPPLER_SENSITIVITY,
    MSG_DITHER_MODE, MSG_HD_SPOKE, MSG_HD_STATE, MSG_HEATER_VOLTAGE, MSG_HIGH_VOLTAGE,
    MSG_INPUT_VOLTAGE, MSG_MODULATOR_TIME, MSG_NOISE_BLANKER, MSG_NO_TX_ZONE_1_MODE,
    MSG_NO_TX_ZONE_1_START, MSG_NO_TX_ZONE_1_STOP, MSG_NO_TX_ZONE_2_MODE, MSG_NO_TX_ZONE_2_START,
    MSG_NO_TX_ZONE_2_STOP, MSG_OPERATION_TIME, MSG_PARK_POSITION, MSG_RANGE_A,
    MSG_RANGE_A_AUTO_LEVEL, MSG_RANGE_A_DOPPLER_MODE, MSG_RANGE_A_DOPPLER_SENSITIVITY,
    MSG_RANGE_A_GAIN, MSG_RANGE_A_GAIN_MODE, MSG_RANGE_A_PULSE_EXPANSION, MSG_RANGE_A_RAIN_GAIN,
    MSG_RANGE_A_RAIN_MODE, MSG_RANGE_A_SCAN_AVERAGE_MODE, MSG_RANGE_A_SCAN_AVERAGE_SENSITIVITY,
    MSG_RANGE_A_SEA_GAIN, MSG_RANGE_A_SEA_MODE, MSG_RANGE_A_SEA_STATE, MSG_RANGE_A_TARGET_SIZE,
    MSG_RANGE_B, MSG_RANGE_B_DOPPLER_MODE, MSG_RANGE_B_DOPPLER_SENSITIVITY, MSG_RANGE_B_GAIN,
    MSG_RANGE_B_GAIN_MODE, MSG_RANGE_B_PULSE_EXPANSION, MSG_RANGE_B_RADAR_MODE,
    MSG_RANGE_B_RAIN_GAIN, MSG_RANGE_B_RAIN_MODE, MSG_RANGE_B_SCAN_AVERAGE_MODE,
    MSG_RANGE_B_SCAN_AVERAGE_SENSITIVITY, MSG_RANGE_B_SEA_GAIN, MSG_RANGE_B_SEA_MODE,
    MSG_RANGE_B_SEA_STATE, MSG_RANGE_B_TARGET_SIZE, MSG_RANGE_MODE, MSG_RANGE_TABLE, MSG_RPM_MODE,
    MSG_SCANNER_STATE, MSG_SENTRY_MODE, MSG_SENTRY_STANDBY_TIME, MSG_SENTRY_TRANSMIT_TIME,
    MSG_STATE_CHANGE, MSG_SYSTEM_TEMPERATURE, MSG_TRANSMIT_CHANNEL_MAX, MSG_TRANSMIT_CHANNEL_MODE,
    MSG_TRANSMIT_CHANNEL_SELECT, MSG_TRANSMIT_CURRENT, MSG_TRANSMIT_MODE,
    MSG_TRANSMIT_MODE_CURRENT, MSG_TRANSMIT_POWER, MSG_TRANSMIT_TIME, NoTxZone, SPOKE_HEADER_SIZE,
    SPOKE_RANGE_INDICATOR_OFFSET, STATE_SPINNING_DOWN, STATE_SPINNING_UP, STATE_STANDBY,
    STATE_STARTING, STATE_STOPPING, STATE_TRANSMIT, STATE_WARMING_UP,
};
use super::range_table;
use crate::bytes;
use crate::bytes::{divide, get_le16, get_le32, to_signed16, to_signed32};
use crate::radar;
use crate::radar::{
    ControlId, DopplerMode, Legend, Power, RangeId, Spoke, SpokeView, Update, BYTE_LOOKUP_LENGTH,
};
use crate::range;
use crate::range::Ranges;

verus! {

/// Why a packet from the radar cannot be used.
#[derive(Clone, Copy, Debug, PartialEq, Eq, Structural)]
pub enum PacketError {
    /// A report without a whole header.
    ReportTooShort,
    /// A report without a value.
    ValueTooShort,
    HdSpokeTooShort,
    HdStatusTooShort,
    /// A spoke packet without a whole header.
    DataTooShort,
}

// Sample lookup

/// The first palette index of a direction and the number of indices.
pub open spec fn band(direction: Option<(u8, u8)>) -> (int, int) {
    match direction {
        Some((start, count)) => (start as int, count as int),
        None => (0, 0),
    }
}

/// The palette index for sub-level `sub` of a Doppler band.
pub open spec fn band_index(direction: Option<(u8, u8)>, sub: int) -> int {
    band(direction).0 + sub * band(direction).1 / 8
}

/// The palette index for sample `j`. HD samples stay as they are. Others are
/// halved; with Doppler on, 0xf0 to 0xf7 are approaching and 0xf8 to 0xff
/// receding, each spread evenly over its palette band.
pub open spec fn blob(legend: Legend, is_xhd: bool, doppler: bool, j: int) -> int {
    if !is_xhd {
        j
    } else if doppler && j >= DOPPLER_RECEDING_START {
        band_index(legend.doppler_receding, j - DOPPLER_RECEDING_START)
    } else if doppler && j >= DOPPLER_APPROACHING_START {
        band_index(legend.doppler_approaching, j - DOPPLER_APPROACHING_START)
    } else {
        j / 2
    }
}

/// Whether a palette band can be computed with in bytes.
pub open spec fn band_fits(direction: Option<(u8, u8)>) -> bool {
    7 * band(direction).1 <= u8::MAX && band_index(direction, 7) <= u8::MAX
}

/// Whether both palette bands can be computed with in bytes.
pub open spec fn bands_fit(legend: Legend) -> bool {
    band_fits(legend.doppler_approaching) && band_fits(legend.doppler_receding)
}

fn fits(direction: Option<(u8, u8)>) -> (r: bool)
    ensures
        r == band_fits(direction),
{
    match direction {
        Some((start, count)) => count <= 36 && start as u16 + 7 * (count as u16) / 8 <= 255,
        None => true,
    }
}

/// Whether both palette bands can be computed with in bytes.
pub fn is_legend_usable(legend: &Legend) -> (r: bool)
    ensures
        r == bands_fit(*legend),
{
    fits(legend.doppler_approaching) && fits(legend.doppler_receding)
}

fn level(direction: Option<(u8, u8)>, sub: u8) -> (r: u8)
    requires
        band_fits(direction),
        sub <= 7,
    ensures
        r == band_index(direction, sub as int),
{
    match direction {
        Some((start, count)) => {
            assert(sub * count <= 7 * count) by (nonlinear_arith)
                requires
                    sub <= 7,
                    count >= 0,
            ;
            start + sub * count / 8
        },
        None => 0,
    }
}

/// The palette index for every sample value.
pub fn pixel_to_blob(legend: &Legend, is_xhd: bool, doppler: bool) -> (r: [u8; 256])
    requires
        is_xhd && doppler ==> bands_fit(*legend),
    ensures
        forall|j: int| 0 <= j < 256 ==> (#[trigger] r@[j]) as int == blob(
            *legend,
            is_xhd,
            doppler,
            j,
        ),
{
    let mut lookup: [u8; 256] = [0u8; 256];
    let mut j: usize = 0;
    while j < BYTE_LOOKUP_LENGTH
        invariant
            j <= 256,
            is_xhd && doppler ==> bands_fit(*legend),
            forall|k: int|
                0 <= k < j ==> (#[trigger] lookup@[k]) as int == blob(*legend, is_xhd, doppler, k),
        decreases 256 - j,
    {
        let sample: u8 = j as u8;
        lookup[j] = if !is_xhd {
            sample
        } else if doppler && sample >= DOPPLER_RECEDING_START {
            level(legend.doppler_receding, sample - DOPPLER_RECEDING_START)
        } else if doppler && sample >= DOPPLER_APPROACHING_START {
            level(legend.doppler_approaching, sample - DOPPLER_APPROACHING_START)
        } else {
            sample / 2
        };
        j += 1;
    }
    lookup
}

/// The sample table for a legend.
pub open spec fn blob_table(legend: Legend, is_xhd: bool, doppler: bool) -> Seq<u8> {
    Seq::new(256, |j: int| blob(legend, is_xhd, doppler, j) as u8)
}

/// The samples that a run of bytes stands for.
pub open spec fn mapped(data: Seq<u8>, table: Seq<u8>) -> Seq<u8> {
    Seq::new(data.len(), |i: int| table[data[i] as int])
}

fn map_samples(data: &[u8], table: &[u8; 256]) -> (r: Vec<u8>)
    ensures
        r@ == mapped(data@, table@),
{
    let mut out: Vec<u8> = Vec::new();
    let mut i: usize = 0;
    while i < data.len()
        invariant
            i <= data@.len(),
            out@ == mapped(data@, table@).take(i as int),
        decreases data@.len() - i,
    {
        out.push(table[data[i] as usize]);
        i += 1;
        assert(out@ =~= mapped(data@, table@).take(i as int));
    }
    assert(mapped(data@, table@).take(i as int) =~= mapped(data@, table@));
    out
}

/// Whether bit `k` of a byte is set, counted from the low end.
pub open spec fn bit(byte: u8, k: int) -> bool {
    (byte >> (k as u8)) & 1 == 1
}

/// The samples of a packed HD spoke: eight for each byte, low bit first.
pub open spec fn unpacked(packed: Seq<u8>, table: Seq<u8>) -> Seq<u8> {
    Seq::new(
        8 * packed.len(),
        |i: int| table[if bit(packed[i / 8], i % 8) { 255int } else { 0int }],
    )
}

/// Unpack the samples of an HD spoke.
pub fn unpack_hd_spoke(packed: &[u8], pixel_to_blob: &[u8; 256]) -> (r: Vec<u8>)
    ensures
        r@ == unpacked(packed@, pixel_to_blob@),
{
    let ghost whole = unpacked(packed@, pixel_to_blob@);
    let mut samples: Vec<u8> = Vec::new();
    let mut i: usize = 0;
    while i < packed.len()
        invariant
            i <= packed@.len(),
            whole == unpacked(packed@, pixel_to_blob@),
            samples@ == whole.take(8 * i),
        decreases packed@.len() - i,
    {
        let byte: u8 = packed[i];
        let mut k: u8 = 0;
        while k < 8
            invariant
                i < packed@.len(),
                byte == packed@[i as int],
                k <= 8,
                whole == unpacked(packed@, pixel_to_blob@),
                samples@ == whole.take(8 * i + k),
            decreases 8 - k,
        {
            let value: u8 = if (byte >> k) & 1 == 1 {
                255
            } else {
                0
            };
            samples.push(pixel_to_blob[value as usize]);
            assert((8 * i + k) / 8 == i && (8 * i + k) % 8 == k);
            k += 1;
            assert(samples@ =~= whole.take(8 * i + k));
        }
        i += 1;
    }
    assert(whole.take(8 * i) =~= whole);
    samples
}

/// An HD spoke has eight samples for each byte, each the palette index of 0 or
/// of 255.
pub proof fn law_unpacked(packed: Seq<u8>, table: Seq<u8>)
    ensures
        unpacked(packed, table).len() == 8 * packed.len(),
        forall|i: int|
            0 <= i < 8 * packed.len() ==> unpacked(packed, table)[i] == table[0] || unpacked(
                packed,
                table,
            )[i] == table[255],
{
}

// Values

/// The value that a report holds: 1, 2 or 4 bytes long. Other lengths count
/// as 0.
pub open spec fn value_of(data: Seq<u8>) -> Result<u32, PacketError> {
    if data.len() < 9 {
        Err(PacketError::ValueTooShort)
    } else if bytes::le32(data, 4) == 1 {
        Ok(data[8] as u32)
    } else if bytes::le32(data, 4) == 2 {
        Ok(bytes::le16(data, 8) as u32)
    } else if bytes::le32(data, 4) == 4 {
        Ok(bytes::le32(data, 8) as u32)
    } else {
        Ok(0)
    }
}

/// Whether a report is as long as its value needs.
pub open spec fn value_complete(data: Seq<u8>) -> bool {
    data.len() >= 9 ==> {
        &&& bytes::le32(data, 4) == 2 ==> data.len() >= 10
        &&& bytes::le32(data, 4) == 4 ==> data.len() >= 12
    }
}

/// The value that a report holds.
pub fn extract_value(data: &[u8]) -> (r: Result<u32, PacketError>)
    requires
        value_complete(data@),
    ensures
        r == value_of(data@),
{
    if data.len() < 9 {
        return Err(PacketError::ValueTooShort);
    }
    match get_le32(data, 4) {
        1 => Ok(data[8] as u32),
        2 => Ok(get_le16(data, 8) as u32),
        4 => Ok(get_le32(data, 8)),
        _ => Ok(0),
    }
}

fn is_value_complete(data: &[u8]) -> (r: bool)
    ensures
        r == value_complete(data@),
{
    if data.len() < 9 {
        return true;
    }
    match get_le32(data, 4) {
        2 => data.len() >= 10,
        4 => data.len() >= 12,
        _ => true,
    }
}

/// Degrees from a signed angle value.
pub open spec fn degrees(value: u32) -> int {
    bytes::quotient(bytes::signed32(value as int), 32)
}

fn to_degrees(value: u32) -> (r: i64)
    ensures
        r == degrees(value),
{
    divide(to_signed32(value), DEGREE_SCALE) as i64
}

/// The Doppler mode for a wire value. Approaching and both are the other way
/// round than in the Doppler control.
pub open spec fn doppler_mode(value: u32) -> DopplerMode {
    if value == 1 {
        DopplerMode::Approaching
    } else if value == 2 {
        DopplerMode::Both
    } else {
        DopplerMode::Off
    }
}

fn to_doppler_mode(value: u32) -> (r: DopplerMode)
    ensures
        r == doppler_mode(value),
{
    match value {
        1 => DopplerMode::Approaching,
        2 => DopplerMode::Both,
        _ => DopplerMode::Off,
    }
}

/// The power state for a scanner state.
pub open spec fn scanner_power(state: u32) -> Power {
    if state == STATE_STANDBY {
        Power::Standby
    } else if state == STATE_TRANSMIT {
        Power::Transmit
    } else if state == STATE_WARMING_UP || state == STATE_SPINNING_UP || state == STATE_STARTING
        || state == STATE_STOPPING || state == STATE_SPINNING_DOWN {
        Power::Preparing
    } else {
        Power::Off
    }
}

fn to_scanner_power(state: u32) -> (r: Power)
    ensures
        r == scanner_power(state),
{
    match state {
        STATE_WARMING_UP => Power::Preparing,
        STATE_STANDBY => Power::Standby,
        STATE_SPINNING_UP | STATE_STARTING => Power::Preparing,
        STATE_TRANSMIT => Power::Transmit,
        STATE_STOPPING | STATE_SPINNING_DOWN => Power::Preparing,
        _ => Power::Off,
    }
}

/// The power state for an HD scanner state.
pub open spec fn hd_power(state: int) -> Power {
    if state == HD_STATE_STANDBY {
        Power::Standby
    } else if state == HD_STATE_TRANSMIT {
        Power::Transmit
    } else if state == HD_STATE_WARMING_UP || state == HD_STATE_SPINNING_UP {
        Power::Preparing
    } else {
        Power::Off
    }
}

fn to_hd_power(state: u16) -> (r: Power)
    ensures
        r == hd_power(state as int),
{
    match state {
        HD_STATE_WARMING_UP => Power::Preparing,
        HD_STATE_STANDBY => Power::Standby,
        HD_STATE_TRANSMIT => Power::Transmit,
        HD_STATE_SPINNING_UP => Power::Preparing,
        _ => Power::Off,
    }
}

// Message ids

/// What the value of a message is about.
#[derive(Clone, Copy, Debug, PartialEq, Eq, Structural)]
pub enum Subject {
    /// Nothing that a control shows.
    Unused,
    /// The value of a control.
    Plain(ControlId),
    /// Twice the value of a control.
    Doubled(ControlId),
    /// A hundred times the value of a control.
    Scaled(ControlId),
    /// The value of a control in 32nds of a degree.
    Angle(ControlId),
    /// Whether a control is automatic, which it is at the given value.
    AutoMode(ControlId, u32),
    /// Whether a control is enabled.
    EnabledMode(ControlId),
    Transmit,
    ScannerState,
    StateChange,
    Range,
    GainMode,
    GainLevel,
    Doppler,
    ZoneMode(NoTxZone),
    ZoneStart(NoTxZone),
    ZoneStop(NoTxZone),
}

/// What the value of a message with id `id` is about, and for which range;
/// `None` for messages that hold no value.
#[verifier::opaque]
pub open spec fn subject(id: u32) -> Option<(RangeId, Subject)> {
    if id == MSG_RANGE_B || id == MSG_RANGE_B_GAIN_MODE || id == MSG_RANGE_B_GAIN || id
        == MSG_RANGE_B_RADAR_MODE || id == MSG_RANGE_B_RAIN_MODE || id == MSG_RANGE_B_RAIN_GAIN
        || id == MSG_RANGE_B_SEA_MODE || id == MSG_RANGE_B_SEA_GAIN || id == MSG_RANGE_B_SEA_STATE
        || id == MSG_RANGE_B_DOPPLER_MODE || id == MSG_RANGE_B_PULSE_EXPANSION || id
        == MSG_RANGE_B_TARGET_SIZE || id == MSG_RANGE_B_SCAN_AVERAGE_MODE || id
        == MSG_RANGE_B_SCAN_AVERAGE_SENSITIVITY {
        Some((RangeId::B, subject_b(id)))
    } else {
        match subject_a(id) {
            Some(about) => Some((RangeId::A, about)),
            None => None,
        }
    }
}

/// What the messages for range B are about.
pub open spec fn subject_b(id: u32) -> Subject {
    if id == MSG_RANGE_B {
        Subject::Range
    } else if id == MSG_RANGE_B_GAIN_MODE {
        Subject::GainMode
    } else if id == MSG_RANGE_B_GAIN {
        Subject::GainLevel
    } else if id == MSG_RANGE_B_RAIN_MODE {
        Subject::EnabledMode(ControlId::Rain)
    } else if id == MSG_RANGE_B_RAIN_GAIN {
        Subject::Scaled(ControlId::Rain)
    } else if id == MSG_RANGE_B_SEA_MODE {
        Subject::AutoMode(ControlId::Sea, 2)
    } else if id == MSG_RANGE_B_SEA_GAIN {
        Subject::Scaled(ControlId::Sea)
    } else if id == MSG_RANGE_B_DOPPLER_MODE {
        Subject::Doppler
    } else if id == MSG_RANGE_B_PULSE_EXPANSION {
        Subject::Plain(ControlId::TargetExpansion)
    } else if id == MSG_RANGE_B_TARGET_SIZE {
        Subject::Plain(ControlId::TargetBoost)
    } else if id == MSG_RANGE_B_SCAN_AVERAGE_MODE {
        Subject::Plain(ControlId::ScanAverageMode)
    } else if id == MSG_RANGE_B_SCAN_AVERAGE_SENSITIVITY {
        Subject::Plain(ControlId::ScanAverageSensitivity)
    } else {
        Subject::Unused
    }
}

/// What the messages for range A and for the whole antenna are about.
pub open spec fn subject_a(id: u32) -> Option<Subject> {
    if id == MSG_RPM_MODE {
        Some(Subject::Doubled(ControlId::ScanSpeed))
    } else if id == MSG_TRANSMIT_MODE || id == MSG_TRANSMIT_MODE_CURRENT {
        Some(Subject::Transmit)
    } else if id == MSG_RANGE_A {
        Some(Subject::Range)
    } else if id == MSG_AFC_MODE {
        Some(Subject::AutoMode(ControlId::Tune, 1))
    } else if id == MSG_PARK_POSITION {
        Some(Subject::Angle(ControlId::ParkPosition))
    } else if id == MSG_INPUT_VOLTAGE {
        Some(Subject::Plain(ControlId::SupplyVoltage))
    } else if id == MSG_TRANSMIT_CURRENT {
        Some(Subject::Plain(ControlId::MagnetronCurrent))
    } else if id == MSG_SYSTEM_TEMPERATURE {
        Some(Subject::Plain(ControlId::DeviceTemperature))
    } else if id == MSG_OPERATION_TIME {
        Some(Subject::Plain(ControlId::OperatingTime))
    } else if id == MSG_TRANSMIT_TIME {
        Some(Subject::Plain(ControlId::TransmitTime))
    } else if id == MSG_RANGE_A_GAIN_MODE {
        Some(Subject::GainMode)
    } else if id == MSG_RANGE_A_GAIN {
        Some(Subject::GainLevel)
    } else if id == MSG_BEARING_ALIGNMENT {
        Some(Subject::Angle(ControlId::BearingAlignment))
    } else if id == MSG_NOISE_BLANKER {
        Some(Subject::Plain(ControlId::InterferenceRejection))
    } else if id == MSG_RANGE_A_RAIN_MODE {
        Some(Subject::EnabledMode(ControlId::Rain))
    } else if id == MSG_RANGE_A_RAIN_GAIN {
        Some(Subject::Scaled(ControlId::Rain))
    } else if id == MSG_RANGE_A_SEA_MODE {
        Some(Subject::AutoMode(ControlId::Sea, 2))
    } else if id == MSG_RANGE_A_SEA_GAIN {
        Some(Subject::Scaled(ControlId::Sea))
    } else if id == MSG_NO_TX_ZONE_1_MODE {
        Some(Subject::ZoneMode(NoTxZone::One))
    } else if id == MSG_NO_TX_ZONE_1_START {
        Some(Subject::ZoneStart(NoTxZone::One))
    } else if id == MSG_NO_TX_ZONE_1_STOP {
        Some(Subject::ZoneStop(NoTxZone::One))
    } else if id == MSG_NO_TX_ZONE_2_MODE {
        Some(Subject::ZoneMode(NoTxZone::Two))
    } else if id == MSG_NO_TX_ZONE_2_START {
        Some(Subject::ZoneStart(NoTxZone::Two))
    } else if id == MSG_NO_TX_ZONE_2_STOP {
        Some(Subject::ZoneStop(NoTxZone::Two))
    } else if id == MSG_RANGE_A_DOPPLER_MODE {
        Some(Subject::Doppler)
    } else if id == MSG_TRANSMIT_CHANNEL_MODE {
        Some(Subject::AutoMode(ControlId::TransmitChannel, 1))
    } else if id == MSG_TRANSMIT_CHANNEL_SELECT {
        Some(Subject::Plain(ControlId::TransmitChannel))
    } else if id == MSG_RANGE_A_PULSE_EXPANSION {
        Some(Subject::Plain(ControlId::TargetExpansion))
    } else if id == MSG_RANGE_A_TARGET_SIZE {
        Some(Subject::Plain(ControlId::TargetBoost))
    } else if id == MSG_RANGE_A_SCAN_AVERAGE_MODE {
        Some(Subject::Plain(ControlId::ScanAverageMode))
    } else if id == MSG_RANGE_A_SCAN_AVERAGE_SENSITIVITY {
        Some(Subject::Plain(ControlId::ScanAverageSensitivity))
    } else if id == MSG_SENTRY_MODE {
        Some(Subject::Plain(ControlId::TimedIdle))
    } else if id == MSG_SENTRY_TRANSMIT_TIME {
        Some(Subject::Plain(ControlId::TimedRun))
    } else if id == MSG_SCANNER_STATE {
        Some(Subject::ScannerState)
    } else if id == MSG_STATE_CHANGE {
        Some(Subject::StateChange)
    } else if id == MSG_DITHER_MODE || id == MSG_RANGE_MODE || id == MSG_AFC_SETTING || id
        == MSG_AFC_COARSE || id == MSG_AFC_TUNING_MODE || id == MSG_AFC_PROGRESS || id
        == MSG_ANTENNA_SIZE || id == MSG_TRANSMIT_POWER || id == MSG_HEATER_VOLTAGE || id
        == MSG_HIGH_VOLTAGE || id == MSG_MODULATOR_TIME || id == MSG_RANGE_A_AUTO_LEVEL || id
        == MSG_RANGE_A_SEA_STATE || id == MSG_RANGE_A_DOPPLER_SENSITIVITY || id
        == MSG_RANGE_B_DOPPLER_SENSITIVITY || id == MSG_DEFAULT_DOPPLER_SENSITIVITY || id
        == MSG_TRANSMIT_CHANNEL_MAX || id == MSG_SENTRY_STANDBY_TIME {
        Some(Subject::Unused)
    } else {
        None
    }
}

fn subject_of(id: u32) -> (r: Option<(RangeId, Subject)>)
    ensures
        r == subject(id),
{
    reveal(subject);
    let a = match id {
        MSG_RANGE_B => { return Some((RangeId::B, Subject::Range)); },
        MSG_RANGE_B_GAIN_MODE => { return Some((RangeId::B, Subject::GainMode)); },
        MSG_RANGE_B_GAIN => { return Some((RangeId::B, Subject::GainLevel)); },
        MSG_RANGE_B_RADAR_MODE => { return Some((RangeId::B, Subject::Unused)); },
        MSG_RANGE_B_RAIN_MODE => {
            return Some((RangeId::B, Subject::EnabledMode(ControlId::Rain)));
        },
        MSG_RANGE_B_RAIN_GAIN => { return Some((RangeId::B, Subject::Scaled(ControlId::Rain))); },
        MSG_RANGE_B_SEA_MODE => { return Some((RangeId::B, Subject::AutoMode(ControlId::Sea, 2))); },
        MSG_RANGE_B_SEA_GAIN => { return Some((RangeId::B, Subject::Scaled(ControlId::Sea))); },
        MSG_RANGE_B_SEA_STATE => { return Some((RangeId::B, Subject::Unused)); },
        MSG_RANGE_B_DOPPLER_MODE => { return Some((RangeId::B, Subject::Doppler)); },
        MSG_RANGE_B_PULSE_EXPANSION => {
            return Some((RangeId::B, Subject::Plain(ControlId::TargetExpansion)));
        },
        MSG_RANGE_B_TARGET_SIZE => {
            return Some((RangeId::B, Subject::Plain(ControlId::TargetBoost)));
        },
        MSG_RANGE_B_SCAN_AVERAGE_MODE => {
            return Some((RangeId::B, Subject::Plain(ControlId::ScanAverageMode)));
        },
        MSG_RANGE_B_SCAN_AVERAGE_SENSITIVITY => {
            return Some((RangeId::B, Subject::Plain(ControlId::ScanAverageSensitivity)));
        },
        MSG_RPM_MODE => Subject::Doubled(ControlId::ScanSpeed),
        MSG_TRANSMIT_MODE | MSG_TRANSMIT_MODE_CURRENT => Subject::Transmit,
        MSG_RANGE_A => Subject::Range,
        MSG_AFC_MODE => Subject::AutoMode(ControlId::Tune, 1),
        MSG_PARK_POSITION => Subject::Angle(ControlId::ParkPosition),
        MSG_INPUT_VOLTAGE => Subject::Plain(ControlId::SupplyVoltage),
        MSG_TRANSMIT_CURRENT => Subject::Plain(ControlId::MagnetronCurrent),
        MSG_SYSTEM_TEMPERATURE => Subject::Plain(ControlId::DeviceTemperature),
        MSG_OPERATION_TIME => Subject::Plain(ControlId::OperatingTime),
        MSG_TRANSMIT_TIME => Subject::Plain(ControlId::TransmitTime),
        MSG_RANGE_A_GAIN_MODE => Subject::GainMode,
        MSG_RANGE_A_GAIN => Subject::GainLevel,
        MSG_BEARING_ALIGNMENT => Subject::Angle(ControlId::BearingAlignment),
        MSG_NOISE_BLANKER => Subject::Plain(ControlId::InterferenceRejection),
        MSG_RANGE_A_RAIN_MODE => Subject::EnabledMode(ControlId::Rain),
        MSG_RANGE_A_RAIN_GAIN => Subject::Scaled(ControlId::Rain),
        MSG_RANGE_A_SEA_MODE => Subject::AutoMode(ControlId::Sea, 2),
        MSG_RANGE_A_SEA_GAIN => Subject::Scaled(ControlId::Sea),
        MSG_NO_TX_ZONE_1_MODE => Subject::ZoneMode(NoTxZone::One),
        MSG_NO_TX_ZONE_1_START => Subject::ZoneStart(NoTxZone::One),
        MSG_NO_TX_ZONE_1_STOP => Subject::ZoneStop(NoTxZone::One),
        MSG_NO_TX_ZONE_2_MODE => Subject::ZoneMode(NoTxZone::Two),
        MSG_NO_TX_ZONE_2_START => Subject::ZoneStart(NoTxZone::Two),
        MSG_NO_TX_ZONE_2_STOP => Subject::ZoneStop(NoTxZone::Two),
        MSG_RANGE_A_DOPPLER_MODE => Subject::Doppler,
        MSG_TRANSMIT_CHANNEL_MODE => Subject::AutoMode(ControlId::TransmitChannel, 1),
        MSG_TRANSMIT_CHANNEL_SELECT => Subject::Plain(ControlId::TransmitChannel),
        MSG_RANGE_A_PULSE_EXPANSION => Subject::Plain(ControlId::TargetExpansion),
        MSG_RANGE_A_TARGET_SIZE => Subject::Plain(ControlId::TargetBoost),
        MSG_RANGE_A_SCAN_AVERAGE_MODE => Subject::Plain(ControlId::ScanAverageMode),
        MSG_RANGE_A_SCAN_AVERAGE_SENSITIVITY => Subject::Plain(ControlId::ScanAverageSensitivity),
        MSG_SENTRY_MODE => Subject::Plain(ControlId::TimedIdle),
        MSG_SENTRY_TRANSMIT_TIME => Subject::Plain(ControlId::TimedRun),
        MSG_SCANNER_STATE => Subject::ScannerState,
        MSG_STATE_CHANGE => Subject::StateChange,
        MSG_DITHER_MODE
        | MSG_RANGE_MODE
        | MSG_AFC_SETTING
        | MSG_AFC_COARSE
        | MSG_AFC_TUNING_MODE
        | MSG_AFC_PROGRESS
        | MSG_ANTENNA_SIZE
        | MSG_TRANSMIT_POWER
        | MSG_HEATER_VOLTAGE
        | MSG_HIGH_VOLTAGE
        | MSG_MODULATOR_TIME
        | MSG_RANGE_A_AUTO_LEVEL
        | MSG_RANGE_A_SEA_STATE
        | MSG_RANGE_A_DOPPLER_SENSITIVITY
        | MSG_RANGE_B_DOPPLER_SENSITIVITY
        | MSG_DEFAULT_DOPPLER_SENSITIVITY
        | MSG_TRANSMIT_CHANNEL_MAX
        | MSG_SENTRY_STANDBY_TIME => Subject::Unused,
        _ => { return None; },
    };
    Some((RangeId::A, a))
}

// State

/// What is known of one range.
#[derive(Clone, Copy, Debug)]
pub struct RangeState {
    pub range_meters: u32,
    pub doppler: DopplerMode,
    pub gain_level: u32,
    pub gain_auto: bool,
    pub pixel_to_blob: [u8; 256],
}

/// What the state of a range is.
pub ghost struct RangeView {
    pub range_meters: u32,
    pub doppler: DopplerMode,
    pub gain_level: u32,
    pub gain_auto: bool,
    pub table: Seq<u8>,
}

impl View for RangeState {
    type V = RangeView;

    open spec fn view(&self) -> RangeView {
        RangeView {
            range_meters: self.range_meters,
            doppler: self.doppler,
            gain_level: self.gain_level,
            gain_auto: self.gain_auto,
            table: self.pixel_to_blob@,
        }
    }
}

/// What is known of a range before the first report.
pub open spec fn fresh(legend: Legend, is_xhd: bool) -> RangeView {
    RangeView {
        range_meters: 0,
        doppler: DopplerMode::Off,
        gain_level: 0,
        gain_auto: false,
        table: blob_table(legend, is_xhd, false),
    }
}

/// The parts of a no-transmit sector that arrived so far. They come in three
/// messages.
#[derive(Clone, Copy, Debug, PartialEq, Eq, Structural)]
pub struct PendingNoTxSector {
    pub enabled: Option<bool>,
    pub start: Option<i64>,
    pub end: Option<i64>,
}

/// The receiver of a radar's reports and spokes.
#[derive(Clone, Debug)]
pub struct GarminReportReceiver {
    pub spokes_per_revolution: u16,
    pub legend: Legend,
    pub radar_type: GarminRadarType,
    pub range_a: RangeState,
    pub range_b: Option<RangeState>,
    pub capabilities: GarminCapabilities,
    pub capabilities_seen: bool,
    pub range_table_seen: bool,
    pub no_tx_1: PendingNoTxSector,
    pub no_tx_2: PendingNoTxSector,
}

/// What the state of a receiver is.
pub ghost struct ReceiverView {
    pub spokes_per_revolution: u16,
    pub legend: Legend,
    pub radar_type: GarminRadarType,
    pub range_a: RangeView,
    pub range_b: Option<RangeView>,
    pub capabilities: Set<u32>,
    pub capabilities_seen: bool,
    pub range_table_seen: bool,
    pub no_tx_1: PendingNoTxSector,
    pub no_tx_2: PendingNoTxSector,
}

impl View for GarminReportReceiver {
    type V = ReceiverView;

    open spec fn view(&self) -> ReceiverView {
        ReceiverView {
            spokes_per_revolution: self.spokes_per_revolution,
            legend: self.legend,
            radar_type: self.radar_type,
            range_a: self.range_a@,
            range_b: match self.range_b {
                Some(rs) => Some(rs@),
                None => None,
            },
            capabilities: self.capabilities@,
            capabilities_seen: self.capabilities_seen,
            range_table_seen: self.range_table_seen,
            no_tx_1: self.no_tx_1,
            no_tx_2: self.no_tx_2,
        }
    }
}

impl ReceiverView {
    /// Whether the radar is an enhanced one.
    pub open spec fn is_xhd(self) -> bool {
        self.radar_type == GarminRadarType::XHD
    }

    /// The parts of a zone that arrived so far.
    pub open spec fn pending(self, zone: NoTxZone) -> PendingNoTxSector {
        match zone {
            NoTxZone::One => self.no_tx_1,
            NoTxZone::Two => self.no_tx_2,
        }
    }

    /// The state with other parts of a zone.
    pub open spec fn with_pending(self, zone: NoTxZone, parts: PendingNoTxSector) -> ReceiverView {
        match zone {
            NoTxZone::One => ReceiverView { no_tx_1: parts, ..self },
            NoTxZone::Two => ReceiverView { no_tx_2: parts, ..self },
        }
    }
}

/// The sector that the parts of a zone make up, once all are there.
pub open spec fn zone_updates(zone: NoTxZone, parts: PendingNoTxSector) -> Seq<Update> {
    match (parts.enabled, parts.start, parts.end) {
        (Some(enabled), Some(start), Some(end)) => seq![
            Update::Sector { id: zone.control(), start, end, enabled },
        ],
        _ => Seq::empty(),
    }
}

/// The state of a range after a value, and the control changes. `rebuild` is
/// the legend for a new sample table, where a new Doppler mode brings one.
pub open spec fn range_step(
    rs: RangeView,
    about: Subject,
    v: u32,
    rebuild: Option<(Legend, bool)>,
) -> (RangeView, Seq<Update>) {
    match about {
        Subject::Plain(id) => (rs, seq![Update::Value { id, value: v as i64 }]),
        Subject::Doubled(id) => (rs, seq![Update::Value { id, value: (v / 2) as i64 }]),
        Subject::Scaled(id) => (rs, seq![Update::Value { id, value: (v / 100) as i64 }]),
        Subject::Angle(id) => (rs, seq![Update::Value { id, value: degrees(v) as i64 }]),
        Subject::AutoMode(id, on) => (
            rs,
            seq![Update::Auto { id, value: 0, flag: if v == on { 1 } else { 0 } }],
        ),
        Subject::EnabledMode(id) => (
            rs,
            seq![Update::Enabled { id, value: 0, flag: if v == 1 { 1 } else { 0 } }],
        ),
        Subject::Transmit => (
            rs,
            seq![Update::Power(if v == 1 { Power::Transmit } else { Power::Standby })],
        ),
        Subject::ScannerState => (rs, seq![Update::Power(scanner_power(v))]),
        Subject::StateChange => (
            rs,
            if v / 1000 > 0 {
                seq![Update::Value { id: ControlId::WarmupTime, value: (v / 1000) as i64 }]
            } else {
                Seq::empty()
            },
        ),
        Subject::Range => (
            RangeView { range_meters: v, ..rs },
            seq![Update::Value { id: ControlId::Range, value: v as i64 }],
        ),
        Subject::GainMode => {
            let next = RangeView { gain_auto: v == 2, ..rs };
            (next, seq![gain_update(next)])
        },
        Subject::GainLevel => {
            let next = RangeView { gain_level: v / 100, ..rs };
            (next, seq![gain_update(next)])
        },
        Subject::Doppler => {
            let mode = doppler_mode(v);
            let table = match rebuild {
                Some((legend, is_xhd)) if mode != rs.doppler => blob_table(
                    legend,
                    is_xhd,
                    mode != DopplerMode::Off,
                ),
                _ => rs.table,
            };
            (
                RangeView { doppler: mode, table, ..rs },
                seq![Update::Value { id: ControlId::Doppler, value: mode.value() as i64 }],
            )
        },
        _ => (rs, Seq::empty()),
    }
}

/// The gain control for the state of a range.
pub open spec fn gain_update(rs: RangeView) -> Update {
    Update::Auto {
        id: ControlId::Gain,
        value: rs.gain_level as i64,
        flag: if rs.gain_auto { 1 } else { 0 },
    }
}

/// What a packet changes: the state, the controls of one range, and its spokes.
pub ghost struct StepView {
    pub next: ReceiverView,
    pub range: RangeId,
    pub updates: Seq<Update>,
    pub spokes: Seq<SpokeView>,
}

/// A packet that changes nothing.
pub open spec fn nothing(s: ReceiverView) -> StepView {
    StepView { next: s, range: RangeId::A, updates: Seq::empty(), spokes: Seq::empty() }
}

/// What a value about range A or the whole antenna changes.
pub open spec fn value_step_a(s: ReceiverView, about: Subject, v: u32) -> StepView {
    match about {
        Subject::ZoneMode(zone) => zone_step(
            s,
            zone,
            PendingNoTxSector { enabled: Some(v == 1), ..s.pending(zone) },
        ),
        Subject::ZoneStart(zone) => zone_step(
            s,
            zone,
            PendingNoTxSector { start: Some(degrees(v) as i64), ..s.pending(zone) },
        ),
        Subject::ZoneStop(zone) => zone_step(
            s,
            zone,
            PendingNoTxSector { end: Some(degrees(v) as i64), ..s.pending(zone) },
        ),
        _ => {
            let (range_a, updates) = range_step(s.range_a, about, v, Some((s.legend, s.is_xhd())));
            StepView {
                next: ReceiverView { range_a, ..s },
                range: RangeId::A,
                updates,
                spokes: Seq::empty(),
            }
        },
    }
}

/// What new parts of a zone change.
pub open spec fn zone_step(s: ReceiverView, zone: NoTxZone, parts: PendingNoTxSector) -> StepView {
    StepView {
        next: s.with_pending(zone, parts),
        range: RangeId::A,
        updates: zone_updates(zone, parts),
        spokes: Seq::empty(),
    }
}

/// What a value about range B changes. Without a range B it is dropped.
pub open spec fn value_step_b(s: ReceiverView, about: Subject, v: u32) -> StepView {
    match s.range_b {
        Some(rs) => {
            let (next, updates) = range_step(rs, about, v, None);
            StepView {
                next: ReceiverView { range_b: Some(next), ..s },
                range: RangeId::B,
                updates,
                spokes: Seq::empty(),
            }
        },
        None => nothing(s),
    }
}

// HD packets

/// The control changes of an HD status report.
pub open spec fn hd_status_updates(data: Seq<u8>) -> Seq<Update> {
    seq![Update::Power(hd_power(bytes::le16(data, 8)))] + (if bytes::le16(data, 10) > 0 {
        seq![
            Update::Value { id: ControlId::WarmupTime, value: bytes::le16(data, 10) as i64 },
        ]
    } else {
        Seq::empty()
    }) + seq![
        Update::Auto {
            id: ControlId::Gain,
            value: data[16] as i64,
            flag: if data[17] > 0 { 1 } else { 0 },
        },
        Update::Auto {
            id: ControlId::Sea,
            value: data[20] as i64,
            flag: if data[21] == 2 { 1 } else { 0 },
        },
        Update::Value { id: ControlId::Rain, value: data[24] as i64 },
        Update::Value {
            id: ControlId::BearingAlignment,
            value: bytes::signed16(bytes::le16(data, 28)) as i64,
        },
        Update::Value { id: ControlId::InterferenceRejection, value: data[31] as i64 },
        Update::Value { id: ControlId::ScanSpeed, value: data[40] as i64 },
    ]
}

/// The range of an HD spoke packet. The wire holds one less.
pub open spec fn hd_range(data: Seq<u8>) -> u32 {
    (bytes::le32(data, 16) + 1) as u32
}

/// The number of sample bytes of an HD spoke packet.
pub open spec fn hd_scan_length(data: Seq<u8>) -> int {
    bytes::le16(data, 10)
}

/// Whether an HD spoke packet holds all its samples.
pub open spec fn hd_spokes_complete(data: Seq<u8>) -> bool {
    data.len() - HD_SPOKE_HEADER_SIZE >= hd_scan_length(data)
}

/// Spoke `i` of the four in an HD spoke packet.
pub open spec fn hd_spoke(s: ReceiverView, data: Seq<u8>, i: int) -> SpokeView {
    let n = hd_scan_length(data) / 4;
    SpokeView {
        range: hd_range(data),
        angle: ((2 * bytes::le16(data, 8) + i) % (s.spokes_per_revolution as int)) as u16,
        heading: None,
        data: unpacked(
            data.subrange(HD_SPOKE_HEADER_SIZE + i * n, HD_SPOKE_HEADER_SIZE + i * n + n),
            s.range_a.table,
        ),
    }
}

/// The control changes for a range that came with a spoke.
pub open spec fn range_updates(before: u32, after: u32) -> Seq<Update> {
    if before != after {
        seq![Update::Value { id: ControlId::Range, value: after as i64 }]
    } else {
        Seq::empty()
    }
}

/// What an HD spoke packet changes.
pub open spec fn hd_spoke_step(s: ReceiverView, data: Seq<u8>) -> StepView {
    StepView {
        next: ReceiverView {
            range_a: RangeView { range_meters: hd_range(data), ..s.range_a },
            ..s
        },
        range: RangeId::A,
        updates: range_updates(s.range_a.range_meters, hd_range(data)),
        spokes: if hd_spokes_complete(data) {
            Seq::new(4, |i: int| hd_spoke(s, data, i))
        } else {
            Seq::empty()
        },
    }
}

// Enhanced spokes

/// The state of a range after a spoke, the control changes and the spoke. A
/// packet that is shorter than it declares is dropped; one without samples
/// only tells the range.
pub open spec fn spoke_step(rs: RangeView, spokes_per_revolution: u16, data: Seq<u8>) -> (
    RangeView,
    Seq<Update>,
    Seq<SpokeView>,
) {
    let range = bytes::le32(data, 16) as u32;
    if data.len() < SPOKE_HEADER_SIZE + bytes::le16(data, 26) {
        (rs, Seq::empty(), Seq::empty())
    } else {
        (
            RangeView { range_meters: range, ..rs },
            range_updates(rs.range_meters, range),
            if data.len() == SPOKE_HEADER_SIZE {
                Seq::empty()
            } else {
                seq![
                    SpokeView {
                        range,
                        angle: (bytes::le16(data, 12) / 8 % (spokes_per_revolution as int)) as u16,
                        heading: None,
                        data: mapped(data.skip(SPOKE_HEADER_SIZE as int), rs.table),
                    },
                ]
            },
        )
    }
}

/// Whether a spoke packet is for range B.
pub open spec fn is_for_b(data: Seq<u8>) -> bool {
    data[SPOKE_RANGE_INDICATOR_OFFSET as int] == 1
}

/// What a spoke packet changes.
pub open spec fn data_step(s: ReceiverView, data: Seq<u8>) -> Result<StepView, PacketError> {
    if data.len() < SPOKE_HEADER_SIZE {
        Err(PacketError::DataTooShort)
    } else if is_for_b(data) {
        match s.range_b {
            Some(rs) => {
                let (next, updates, spokes) = spoke_step(rs, s.spokes_per_revolution, data);
                Ok(
                    StepView {
                        next: ReceiverView { range_b: Some(next), ..s },
                        range: RangeId::B,
                        updates,
                        spokes,
                    },
                )
            },
            None => Ok(nothing(s)),
        }
    } else {
        let (next, updates, spokes) = spoke_step(s.range_a, s.spokes_per_revolution, data);
        Ok(
            StepView {
                next: ReceiverView { range_a: next, ..s },
                range: RangeId::A,
                updates,
                spokes,
            },
        )
    }
}

// Reports

/// The message id of a report.
pub open spec fn message_id(data: Seq<u8>) -> u32 {
    bytes::le32(data, 0) as u32
}

/// The payload of a report.
pub open spec fn payload(data: Seq<u8>) -> Seq<u8> {
    data.skip(GMN_HEADER_LEN as int)
}

/// Whether a report is an HD spoke packet for this radar.
pub open spec fn is_hd_spoke(s: ReceiverView, data: Seq<u8>) -> bool {
    message_id(data) == MSG_HD_SPOKE && s.radar_type == GarminRadarType::HD
}

/// Whether a report brings the range table. Only the first one counts.
pub open spec fn brings_ranges(s: ReceiverView, data: Seq<u8>) -> bool {
    &&& data.len() >= GMN_HEADER_LEN
    &&& message_id(data) == MSG_RANGE_TABLE
    &&& !s.range_table_seen
    &&& range_table::is_table(payload(data))
}

/// What a report changes.
pub open spec fn report_step(s: ReceiverView, data: Seq<u8>) -> Result<StepView, PacketError> {
    if data.len() < GMN_HEADER_LEN {
        Err(PacketError::ReportTooShort)
    } else if is_hd_spoke(s, data) {
        if data.len() < HD_SPOKE_HEADER_SIZE + 4 {
            Err(PacketError::HdSpokeTooShort)
        } else {
            Ok(hd_spoke_step(s, data))
        }
    } else if message_id(data) == MSG_HD_STATE {
        if data.len() < 48 {
            Err(PacketError::HdStatusTooShort)
        } else {
            Ok(StepView { updates: hd_status_updates(data), ..nothing(s) })
        }
    } else if message_id(data) == MSG_CAPABILITY {
        if capabilities::is_complete(payload(data)) {
            Ok(
                nothing(
                    ReceiverView {
                        capabilities: capabilities::reported(payload(data)),
                        capabilities_seen: true,
                        ..s
                    },
                ),
            )
        } else {
            Ok(nothing(s))
        }
    } else if message_id(data) == MSG_RANGE_TABLE {
        Ok(
            nothing(
                ReceiverView {
                    range_table_seen: s.range_table_seen || brings_ranges(s, data),
                    ..s
                },
            ),
        )
    } else {
        match subject(message_id(data)) {
            Some((RangeId::A, about)) => match value_of(data) {
                Ok(v) => Ok(value_step_a(s, about, v)),
                Err(e) => Err(e),
            },
            Some((RangeId::B, about)) => if s.range_b is None {
                Ok(nothing(s))
            } else {
                match value_of(data) {
                    Ok(v) => Ok(value_step_b(s, about, v)),
                    Err(e) => Err(e),
                }
            },
            None => Ok(nothing(s)),
        }
    }
}

/// Whether the numbers of a report can be computed with: values are as long as
/// they declare, ranges and angles do not overflow, and a new Doppler mode
/// finds room in the palette.
pub open spec fn report_fits(s: ReceiverView, data: Seq<u8>) -> bool {
    if data.len() < GMN_HEADER_LEN {
        true
    } else if is_hd_spoke(s, data) {
        data.len() >= HD_SPOKE_HEADER_SIZE + 4 ==> {
            &&& bytes::le32(data, 16) < u32::MAX
            &&& hd_spokes_complete(data) ==> s.spokes_per_revolution > 0 && bytes::le16(data, 8)
                <= 32766
        }
    } else if message_id(data) == MSG_HD_STATE {
        data.len() >= 48 ==> bytes::le32(data, 12) < u32::MAX
    } else {
        match subject(message_id(data)) {
            Some((RangeId::A, about)) => {
                &&& value_complete(data)
                &&& value_of(data) matches Ok(v) ==> {
                    about == Subject::Doppler && s.is_xhd() && doppler_mode(v) != s.range_a.doppler
                        && doppler_mode(v) != DopplerMode::Off ==> bands_fit(s.legend)
                }
            },
            Some((RangeId::B, about)) => s.range_b is Some ==> value_complete(data),
            None => true,
        }
    }
}

/// Whether the angle of a spoke packet can be computed with.
pub open spec fn data_fits(s: ReceiverView, data: Seq<u8>) -> bool {
    data.len() >= SPOKE_HEADER_SIZE && (is_for_b(data) ==> s.range_b is Some) && data.len()
        >= SPOKE_HEADER_SIZE + bytes::le16(data, 26) ==> s.spokes_per_revolution > 0
}

/// What a packet brings: changes of the controls of one range, its spokes, and
/// the distances that the radar can be set to.
pub struct PacketOutcome {
    pub range: RangeId,
    pub updates: Vec<Update>,
    pub spokes: Vec<Spoke>,
    pub ranges: Option<Ranges>,
}

impl PacketOutcome {
    /// Whether the outcome is that of a step to `next`.
    pub open spec fn is_of(&self, step: StepView, next: ReceiverView) -> bool {
        &&& step.next == next
        &&& step.range == self.range
        &&& step.updates == self.updates@
        &&& step.spokes == radar::spokes_view(self.spokes@)
    }
}

fn unchanged() -> (r: PacketOutcome)
    ensures
        forall|s: ReceiverView| #[trigger] r.is_of(nothing(s), s),
        r.ranges is None,
{
    let r = PacketOutcome {
        range: RangeId::A,
        updates: Vec::new(),
        spokes: Vec::new(),
        ranges: None,
    };
    assert(radar::spokes_view(r.spokes@) =~= Seq::<SpokeView>::empty());
    r
}

fn changed(range: RangeId, updates: Vec<Update>) -> (r: PacketOutcome)
    ensures
        forall|next: ReceiverView| #[trigger]
            r.is_of(StepView { next, range, updates: updates@, spokes: Seq::empty() }, next),
        r.ranges is None,
{
    let r = PacketOutcome { range, updates, spokes: Vec::new(), ranges: None };
    assert(radar::spokes_view(r.spokes@) =~= Seq::<SpokeView>::empty());
    r
}

fn range_change(before: u32, after: u32) -> (r: Vec<Update>)
    ensures
        r@ == range_updates(before, after),
{
    if before != after {
        vec![Update::Value { id: ControlId::Range, value: after as i64 }]
    } else {
        Vec::new()
    }
}

impl RangeState {
    /// What is known of a range before the first report.
    pub fn new(legend: &Legend, is_xhd: bool) -> (r: RangeState)
        ensures
            r@ == fresh(*legend, is_xhd),
    {
        let table = pixel_to_blob(legend, is_xhd, false);
        assert(table@ =~= blob_table(*legend, is_xhd, false));
        RangeState {
            range_meters: 0,
            doppler: DopplerMode::Off,
            gain_level: 0,
            gain_auto: false,
            pixel_to_blob: table,
        }
    }

    fn publish_gain_for(&self) -> (r: Update)
        ensures
            r == gain_update(self@),
    {
        Update::Auto {
            id: ControlId::Gain,
            value: self.gain_level as i64,
            flag: if self.gain_auto {
                1
            } else {
                0
            },
        }
    }

    fn set_doppler(&mut self, mode: DopplerMode, rebuild: Option<(Legend, bool)>)
        requires
            rebuild matches Some((legend, is_xhd)) ==> (is_xhd && mode != old(self).doppler && mode
                != DopplerMode::Off ==> bands_fit(legend)),
        ensures
            final(self)@ == (RangeView {
                doppler: mode,
                table: match rebuild {
                    Some((legend, is_xhd)) if mode != old(self).doppler => blob_table(
                        legend,
                        is_xhd,
                        mode != DopplerMode::Off,
                    ),
                    _ => old(self)@.table,
                },
                ..old(self)@
            }),
    {
        match rebuild {
            Some((legend, is_xhd)) => {
                if mode != self.doppler {
                    let doppler = mode != DopplerMode::Off;
                    self.pixel_to_blob = pixel_to_blob(&legend, is_xhd, doppler);
                    assert(self.pixel_to_blob@ =~= blob_table(legend, is_xhd, doppler));
                }
            },
            None => {},
        }
        self.doppler = mode;
    }

    fn take_value(&mut self, about: Subject, v: u32, rebuild: Option<(Legend, bool)>) -> (r: Vec<
        Update,
    >)
        requires
            about == Subject::Doppler ==> (rebuild matches Some((legend, is_xhd)) ==> (is_xhd
                && doppler_mode(v) != old(self).doppler && doppler_mode(v) != DopplerMode::Off
                ==> bands_fit(legend))),
        ensures
            (final(self)@, r@) == range_step(old(self)@, about, v, rebuild),
    {
        match about {
            Subject::Plain(id) => vec![Update::Value { id, value: v as i64 }],
            Subject::Doubled(id) => vec![Update::Value { id, value: (v / 2) as i64 }],
            Subject::Scaled(id) => vec![
                Update::Value { id, value: (v / (GAIN_SCALE as u32)) as i64 },
            ],
            Subject::Angle(id) => vec![Update::Value { id, value: to_degrees(v) }],
            Subject::AutoMode(id, on) => {
                let flag: u8 = if v == on {
                    1
                } else {
                    0
                };
                vec![Update::Auto { id, value: 0, flag }]
            },
            Subject::EnabledMode(id) => {
                let flag: u8 = if v == 1 {
                    1
                } else {
                    0
                };
                vec![Update::Enabled { id, value: 0, flag }]
            },
            Subject::Transmit => {
                let power = if v == 1 {
                    Power::Transmit
                } else {
                    Power::Standby
                };
                vec![Update::Power(power)]
            },
            Subject::ScannerState => vec![Update::Power(to_scanner_power(v))],
            Subject::StateChange => {
                let seconds: u32 = v / 1000;
                if seconds > 0 {
                    vec![Update::Value { id: ControlId::WarmupTime, value: seconds as i64 }]
                } else {
                    Vec::new()
                }
            },
            Subject::Range => {
                self.range_meters = v;
                vec![Update::Value { id: ControlId::Range, value: v as i64 }]
            },
            Subject::GainMode => {
                self.gain_auto = v == 2;
                vec![self.publish_gain_for()]
            },
            Subject::GainLevel => {
                self.gain_level = v / (GAIN_SCALE as u32);
                vec![self.publish_gain_for()]
            },
            Subject::Doppler => {
                let mode = to_doppler_mode(v);
                self.set_doppler(mode, rebuild);
                vec![Update::Value { id: ControlId::Doppler, value: mode.control_value() }]
            },
            _ => Vec::new(),
        }
    }

    fn process_spoke_for(&mut self, spokes_per_revolution: u16, data: &[u8]) -> (r: (
        Vec<Update>,
        Vec<Spoke>,
    ))
        requires
            data@.len() >= SPOKE_HEADER_SIZE,
            data@.len() >= SPOKE_HEADER_SIZE + bytes::le16(data@, 26) ==> spokes_per_revolution > 0,
        ensures
            (final(self)@, r.0@, radar::spokes_view(r.1@)) == spoke_step(
                old(self)@,
                spokes_per_revolution,
                data@,
            ),
    {
        let angle: u16 = get_le16(data, 12);
        let range_meters: u32 = get_le32(data, 16);
        let scan_length: usize = get_le16(data, 26) as usize;
        let mut spokes: Vec<Spoke> = Vec::new();
        assert(radar::spokes_view(spokes@) =~= Seq::<SpokeView>::empty());
        if data.len() < SPOKE_HEADER_SIZE + scan_length {
            return (Vec::new(), spokes);
        }
        let updates = range_change(self.range_meters, range_meters);
        self.range_meters = range_meters;
        if data.len() > SPOKE_HEADER_SIZE {
            let spoke_angle: u16 = (angle / ANGLE_UNITS_PER_SPOKE) % spokes_per_revolution;
            let samples = slice_subrange(data, SPOKE_HEADER_SIZE, data.len());
            assert(samples@ =~= data@.skip(SPOKE_HEADER_SIZE as int));
            let spoke = Spoke {
                range: range_meters,
                angle: spoke_angle,
                heading: None,
                data: map_samples(samples, &self.pixel_to_blob),
            };
            proof {
                radar::lemma_spokes_push(spokes@, spoke);
            }
            spokes.push(spoke);
            assert(Seq::<SpokeView>::empty().push(spoke@) =~= seq![spoke@]);
        }
        (updates, spokes)
    }
}

impl GarminReportReceiver {
    /// A receiver for a radar. More than 720 spokes tell an enhanced radar.
    pub fn new(spokes_per_revolution: u16, legend: Legend) -> (r: GarminReportReceiver)
        ensures
            ({
                let is_xhd = spokes_per_revolution > 720;
                r@ == (ReceiverView {
                    spokes_per_revolution,
                    legend,
                    radar_type: if is_xhd { GarminRadarType::XHD } else { GarminRadarType::HD },
                    range_a: fresh(legend, is_xhd),
                    range_b: None,
                    capabilities: if is_xhd {
                        Set::empty()
                    } else {
                        capabilities::LEGACY_HD_BITS@.to_set()
                    },
                    capabilities_seen: !is_xhd,
                    range_table_seen: false,
                    no_tx_1: PendingNoTxSector { enabled: None, start: None, end: None },
                    no_tx_2: PendingNoTxSector { enabled: None, start: None, end: None },
                })
            }),
    {
        let is_xhd = spokes_per_revolution > 720;
        let capabilities = if is_xhd {
            GarminCapabilities::empty()
        } else {
            GarminCapabilities::for_legacy_hd()
        };
        GarminReportReceiver {
            spokes_per_revolution,
            legend,
            radar_type: if is_xhd {
                GarminRadarType::XHD
            } else {
                GarminRadarType::HD
            },
            range_a: RangeState::new(&legend, is_xhd),
            range_b: None,
            capabilities,
            capabilities_seen: !is_xhd,
            range_table_seen: false,
            no_tx_1: PendingNoTxSector { enabled: None, start: None, end: None },
            no_tx_2: PendingNoTxSector { enabled: None, start: None, end: None },
        }
    }

    /// Attach a range B.
    pub fn set_range_b(&mut self, legend: Legend)
        ensures
            final(self)@ == (ReceiverView {
                range_b: Some(fresh(legend, old(self)@.is_xhd())),
                ..old(self)@
            }),
    {
        self.range_b = Some(RangeState::new(&legend, self.radar_type == GarminRadarType::XHD));
    }

    fn pending_no_tx(&self, zone: NoTxZone) -> (r: PendingNoTxSector)
        ensures
            r == self@.pending(zone),
    {
        match zone {
            NoTxZone::One => self.no_tx_1,
            NoTxZone::Two => self.no_tx_2,
        }
    }

    fn try_set_no_tx_sector(&mut self, zone: NoTxZone, parts: PendingNoTxSector) -> (r: Vec<Update>)
        ensures
            final(self)@ == old(self)@.with_pending(zone, parts),
            r@ == zone_updates(zone, parts),
    {
        match zone {
            NoTxZone::One => {
                self.no_tx_1 = parts;
            },
            NoTxZone::Two => {
                self.no_tx_2 = parts;
            },
        }
        match (parts.enabled, parts.start, parts.end) {
            (Some(enabled), Some(start), Some(end)) => vec![
                Update::Sector { id: zone.control_id(), start, end, enabled },
            ],
            _ => Vec::new(),
        }
    }

    fn process_value(&mut self, about: Subject, v: u32) -> (r: PacketOutcome)
        requires
            about == Subject::Doppler && old(self)@.is_xhd() && doppler_mode(v)
                != old(self).range_a.doppler && doppler_mode(v) != DopplerMode::Off ==> bands_fit(
                old(self).legend,
            ),
        ensures
            r.is_of(value_step_a(old(self)@, about, v), final(self)@),
            r.ranges is None,
    {
        match about {
            Subject::ZoneMode(zone) => {
                let parts = PendingNoTxSector { enabled: Some(v == 1), ..self.pending_no_tx(zone) };
                changed(RangeId::A, self.try_set_no_tx_sector(zone, parts))
            },
            Subject::ZoneStart(zone) => {
                let parts = PendingNoTxSector {
                    start: Some(to_degrees(v)),
                    ..self.pending_no_tx(zone)
                };
                changed(RangeId::A, self.try_set_no_tx_sector(zone, parts))
            },
            Subject::ZoneStop(zone) => {
                let parts = PendingNoTxSector {
                    end: Some(to_degrees(v)),
                    ..self.pending_no_tx(zone)
                };
                changed(RangeId::A, self.try_set_no_tx_sector(zone, parts))
            },
            _ => {
                let rebuild = Some((self.legend, self.radar_type == GarminRadarType::XHD));
                let mut state = self.range_a;
                let updates = state.take_value(about, v, rebuild);
                self.range_a = state;
                changed(RangeId::A, updates)
            },
        }
    }

    fn process_range_b_value(&mut self, about: Subject, v: u32) -> (r: PacketOutcome)
        requires
            old(self).range_b is Some,
        ensures
            r.is_of(value_step_b(old(self)@, about, v), final(self)@),
            r.ranges is None,
    {
        match self.range_b {
            Some(rs) => {
                let mut state = rs;
                let updates = state.take_value(about, v, None);
                self.range_b = Some(state);
                changed(RangeId::B, updates)
            },
            None => unchanged(),
        }
    }

    fn process_hd_status(&self, data: &[u8]) -> (r: PacketOutcome)
        requires
            data@.len() >= 48,
        ensures
            r.is_of(StepView { updates: hd_status_updates(data@), ..nothing(self@) }, self@),
            r.ranges is None,
    {
        let mut updates: Vec<Update> = Vec::new();
        updates.push(Update::Power(to_hd_power(get_le16(data, 8))));
        let warmup: u16 = get_le16(data, 10);
        if warmup > 0 {
            updates.push(Update::Value { id: ControlId::WarmupTime, value: warmup as i64 });
        }
        let gain_flag: u8 = if data[17] > 0 {
            1
        } else {
            0
        };
        let sea_flag: u8 = if data[21] == 2 {
            1
        } else {
            0
        };
        updates.push(Update::Auto { id: ControlId::Gain, value: data[16] as i64, flag: gain_flag });
        updates.push(Update::Auto { id: ControlId::Sea, value: data[20] as i64, flag: sea_flag });
        updates.push(Update::Value { id: ControlId::Rain, value: data[24] as i64 });
        let bearing: i16 = to_signed16(get_le16(data, 28));
        updates.push(Update::Value { id: ControlId::BearingAlignment, value: bearing as i64 });
        updates.push(
            Update::Value { id: ControlId::InterferenceRejection, value: data[31] as i64 },
        );
        updates.push(Update::Value { id: ControlId::ScanSpeed, value: data[40] as i64 });
        assert(updates@ =~= hd_status_updates(data@));
        changed(RangeId::A, updates)
    }

    fn process_hd_spoke(&mut self, data: &[u8]) -> (r: PacketOutcome)
        requires
            data@.len() >= HD_SPOKE_HEADER_SIZE + 4,
            is_hd_spoke(old(self)@, data@),
            report_fits(old(self)@, data@),
        ensures
            r.is_of(hd_spoke_step(old(self)@, data@), final(self)@),
            r.ranges is None,
    {
        let angle: u16 = get_le16(data, 8);
        let scan_length: usize = get_le16(data, 10) as usize;
        let range_meters: u32 = get_le32(data, 16) + 1;
        let ghost before = self@;
        let updates = range_change(self.range_a.range_meters, range_meters);
        self.range_a.range_meters = range_meters;
        let mut spokes: Vec<Spoke> = Vec::new();
        let ghost whole = Seq::new(4, |i: int| hd_spoke(before, data@, i));
        assert(radar::spokes_view(spokes@) =~= whole.take(0));
        if data.len() - HD_SPOKE_HEADER_SIZE < scan_length {
            assert(whole.take(0) =~= Seq::<SpokeView>::empty());
            return PacketOutcome { range: RangeId::A, updates, spokes, ranges: None };
        }
        let n: usize = scan_length / HD_SPOKES_PER_PACKET;
        let mut i: usize = 0;
        while i < HD_SPOKES_PER_PACKET
            invariant
                i <= 4,
                n == hd_scan_length(data@) / 4,
                angle == bytes::le16(data@, 8),
                angle <= 32766,
                range_meters == hd_range(data@),
                data@.len() - HD_SPOKE_HEADER_SIZE >= hd_scan_length(data@),
                before.spokes_per_revolution > 0,
                self.spokes_per_revolution == before.spokes_per_revolution,
                self.range_a.pixel_to_blob@ == before.range_a.table,
                self@ == hd_spoke_step(before, data@).next,
                whole == Seq::new(4, |k: int| hd_spoke(before, data@, k)),
                radar::spokes_view(spokes@) == whole.take(i as int),
            decreases 4 - i,
        {
            let spoke_angle: u16 = (angle * 2 + i as u16) % self.spokes_per_revolution;
            assert(i * n <= 3 * n) by (nonlinear_arith)
                requires
                    i <= 3,
                    n >= 0,
            ;
            let start: usize = HD_SPOKE_HEADER_SIZE + i * n;
            let packed = slice_subrange(data, start, start + n);
            let spoke = Spoke {
                range: range_meters,
                angle: spoke_angle,
                heading: None,
                data: unpack_hd_spoke(packed, &self.range_a.pixel_to_blob),
            };
            proof {
                radar::lemma_spokes_push(spokes@, spoke);
                assert(spoke@ == whole[i as int]);
            }
            spokes.push(spoke);
            i += 1;
            assert(radar::spokes_view(spokes@) =~= whole.take(i as int));
        }
        assert(whole.take(4) =~= whole);
        PacketOutcome { range: RangeId::A, updates, spokes, ranges: None }
    }

    fn process_capability(&mut self, data: &[u8]) -> (r: PacketOutcome)
        requires
            data@.len() >= GMN_HEADER_LEN,
            message_id(data@) == MSG_CAPABILITY,
        ensures
            r.is_of(report_step(old(self)@, data@)->Ok_0, final(self)@),
            r.ranges is None,
    {
        let body = slice_subrange(data, GMN_HEADER_LEN, data.len());
        assert(body@ =~= payload(data@));
        match GarminCapabilities::parse(body) {
            Some(caps) => {
                self.capabilities = caps;
                self.capabilities_seen = true;
            },
            None => {},
        }
        unchanged()
    }

    fn process_range_table(&mut self, data: &[u8]) -> (r: PacketOutcome)
        requires
            data@.len() >= GMN_HEADER_LEN,
            message_id(data@) == MSG_RANGE_TABLE,
        ensures
            r.is_of(report_step(old(self)@, data@)->Ok_0, final(self)@),
            r.ranges is Some <==> brings_ranges(old(self)@, data@),
            r.ranges matches Some(ranges) ==> range::sorted_from(
                ranges@,
                range_table::distances(payload(data@)),
            ),
    {
        let mut outcome = unchanged();
        assert(outcome.is_of(nothing(self@), self@));
        if !self.range_table_seen {
            let body = slice_subrange(data, GMN_HEADER_LEN, data.len());
            assert(body@ =~= payload(data@));
            match range_table::parse(body) {
                Some(ranges) => {
                    outcome.ranges = Some(ranges);
                    self.range_table_seen = true;
                },
                None => {},
            }
        }
        outcome
    }

    /// Process a report.
    pub fn process_report(&mut self, data: &[u8]) -> (r: Result<PacketOutcome, PacketError>)
        requires
            report_fits(old(self)@, data@),
        ensures
            match r {
                Ok(o) => {
                    &&& report_step(old(self)@, data@) matches Ok(step) && o.is_of(
                        step,
                        final(self)@,
                    )
                    &&& o.ranges is Some <==> brings_ranges(old(self)@, data@)
                    &&& o.ranges matches Some(ranges) ==> range::sorted_from(
                        ranges@,
                        range_table::distances(payload(data@)),
                    )
                },
                Err(e) => report_step(old(self)@, data@) == Err::<StepView, PacketError>(e)
                    && final(self)@ == old(self)@,
            },
    {
        if data.len() < GMN_HEADER_LEN {
            return Err(PacketError::ReportTooShort);
        }
        let id: u32 = get_le32(data, 0);
        if id == MSG_HD_SPOKE && self.radar_type == GarminRadarType::HD {
            if data.len() < HD_SPOKE_HEADER_SIZE + 4 {
                return Err(PacketError::HdSpokeTooShort);
            }
            return Ok(self.process_hd_spoke(data));
        }
        match id {
            MSG_HD_STATE => {
                if data.len() < 48 {
                    return Err(PacketError::HdStatusTooShort);
                }
                Ok(self.process_hd_status(data))
            },
            MSG_CAPABILITY => Ok(self.process_capability(data)),
            MSG_RANGE_TABLE => Ok(self.process_range_table(data)),
            _ => match subject_of(id) {
                Some((RangeId::A, about)) => match extract_value(data) {
                    Ok(v) => Ok(self.process_value(about, v)),
                    Err(e) => Err(e),
                },
                Some((RangeId::B, about)) => {
                    if self.range_b.is_none() {
                        return Ok(unchanged());
                    }
                    match extract_value(data) {
                        Ok(v) => Ok(self.process_range_b_value(about, v)),
                        Err(e) => Err(e),
                    }
                },
                None => Ok(unchanged()),
            },
        }
    }

    /// Process a spoke packet of an enhanced radar.
    pub fn process_data(&mut self, data: &[u8]) -> (r: Result<PacketOutcome, PacketError>)
        requires
            data_fits(old(self)@, data@),
        ensures
            match r {
                Ok(o) => {
                    &&& data_step(old(self)@, data@) matches Ok(step) && o.is_of(
                        step,
                        final(self)@,
                    )
                    &&& o.ranges is None
                },
                Err(e) => data_step(old(self)@, data@) == Err::<StepView, PacketError>(e)
                    && final(self)@ == old(self)@,
            },
    {
        if data.len() < SPOKE_HEADER_SIZE {
            return Err(PacketError::DataTooShort);
        }
        if data[SPOKE_RANGE_INDICATOR_OFFSET] == 1 {
            match self.range_b {
                Some(rs) => {
                    let mut state = rs;
                    let (updates, spokes) = state.process_spoke_for(
                        self.spokes_per_revolution,
                        data,
                    );
                    self.range_b = Some(state);
                    Ok(PacketOutcome { range: RangeId::B, updates, spokes, ranges: None })
                },
                None => Ok(unchanged()),
            }
        } else {
            let mut state = self.range_a;
            let (updates, spokes) = state.process_spoke_for(self.spokes_per_revolution, data);
            self.range_a = state;
            Ok(PacketOutcome { range: RangeId::A, updates, spokes, ranges: None })
        }
    }

    /// Whether the numbers of a report can be computed with.
    pub fn is_report_usable(&self, data: &[u8]) -> (r: bool)
        ensures
            r == report_fits(self@, data@),
    {
        if data.len() < GMN_HEADER_LEN {
            return true;
        }
        let id: u32 = get_le32(data, 0);
        if id == MSG_HD_SPOKE && self.radar_type == GarminRadarType::HD {
            if data.len() < HD_SPOKE_HEADER_SIZE + 4 {
                return true;
            }
            let complete = data.len() - HD_SPOKE_HEADER_SIZE >= get_le16(data, 10) as usize;
            return get_le32(data, 16) < u32::MAX && (!complete || (self.spokes_per_revolution > 0
                && get_le16(data, 8) <= 32766));
        }
        if id == MSG_HD_STATE {
            return data.len() < 48 || get_le32(data, 12) < u32::MAX;
        }
        match subject_of(id) {
            Some((RangeId::A, about)) => {
                if !is_value_complete(data) {
                    return false;
                }
                match extract_value(data) {
                    Ok(v) => {
                        let mode = to_doppler_mode(v);
                        !(about == Subject::Doppler && self.radar_type == GarminRadarType::XHD
                            && mode != self.range_a.doppler && mode != DopplerMode::Off)
                            || is_legend_usable(&self.legend)
                    },
                    Err(_) => true,
                }
            },
            Some((RangeId::B, _)) => self.range_b.is_none() || is_value_complete(data),
            None => true,
        }
    }

    /// Whether the angle of a spoke packet can be computed with.
    pub fn is_data_usable(&self, data: &[u8]) -> (r: bool)
        ensures
            r == data_fits(self@, data@),
    {
        if data.len() < SPOKE_HEADER_SIZE || self.spokes_per_revolution > 0 {
            return true;
        }
        let dropped = data[SPOKE_RANGE_INDICATOR_OFFSET] == 1 && self.range_b.is_none();
        dropped || data.len() < SPOKE_HEADER_SIZE + get_le16(data, 26) as usize
    }
}

/// Messages and spokes for range B never touch what is known of range A, and
/// are dropped when there is no range B.
pub proof fn law_range_b_is_separate(s: ReceiverView, about: Subject, v: u32)
    ensures
        value_step_b(s, about, v).next.range_a == s.range_a,
        s.range_b is None ==> value_step_b(s, about, v) == nothing(s),
        s.range_b is Some ==> value_step_b(s, about, v).range == RangeId::B,
{
}

/// Values about range A never touch what is known of range B.
pub proof fn law_range_a_is_separate(s: ReceiverView, about: Subject, v: u32)
    ensures
        value_step_a(s, about, v).next.range_b == s.range_b,
        value_step_a(s, about, v).range == RangeId::A,
{
}

/// A no-transmit sector is shown as soon as its mode, start and end have all
/// arrived, in whatever order.
pub proof fn law_sector_needs_all_parts(
    s: ReceiverView,
    zone: NoTxZone,
    mode: u32,
    start: u32,
    stop: u32,
)
    requires
        s.pending(zone) == (PendingNoTxSector { enabled: None, start: None, end: None }),
    ensures
        ({
            let shown = seq![
                Update::Sector {
                    id: zone.control(),
                    start: degrees(start) as i64,
                    end: degrees(stop) as i64,
                    enabled: mode == 1,
                },
            ];
            let m = value_step_a(s, Subject::ZoneMode(zone), mode);
            let ms = value_step_a(m.next, Subject::ZoneStart(zone), start);
            let mss = value_step_a(ms.next, Subject::ZoneStop(zone), stop);
            let t = value_step_a(s, Subject::ZoneStop(zone), stop);
            let ts = value_step_a(t.next, Subject::ZoneStart(zone), start);
            let tsm = value_step_a(ts.next, Subject::ZoneMode(zone), mode);
            &&& m.updates.len() == 0 && ms.updates.len() == 0 && mss.updates == shown
            &&& t.updates.len() == 0 && ts.updates.len() == 0 && tsm.updates == shown
            &&& mss.next == tsm.next
        }),
{
}

/// Once a range table was taken, no further one is.
pub proof fn law_first_range_table_counts(s: ReceiverView, first: Seq<u8>, second: Seq<u8>)
    requires
        brings_ranges(s, first),
    ensures
        report_step(s, first) matches Ok(step) && !brings_ranges(step.next, second),
{
}

// What reports mean

/// Whether a report carries a number of `width` bytes under a message id: the id and
/// the width as 32-bit words, then the number, each with its low byte first.
pub open spec fn carries(data: Seq<u8>, id: int, width: int, value: int) -> bool {
    &&& 0 <= id < 0x1_0000
    &&& width == 1 || width == 2 || width == 4
    &&& data.len() >= 8 + width
    &&& data[0] == id % 0x100 && data[1] == id / 0x100 && data[2] == 0 && data[3] == 0
    &&& data[4] == width && data[5] == 0 && data[6] == 0 && data[7] == 0
    &&& 0 <= value < 0x1_0000_0000
    &&& data[8] == value % 0x100
    &&& width == 1 ==> value < 0x100
    &&& width == 2 ==> value < 0x1_0000
    &&& width >= 2 ==> data[9] == value / 0x100 % 0x100
    &&& width == 4 ==> data[10] == value / 0x1_0000 % 0x100 && data[11] == value / 0x100_0000
}

/// A report says what was put into it.
pub proof fn law_reports_read_back(data: Seq<u8>, id: int, width: int, value: int)
    requires
        carries(data, id, width, value),
    ensures
        message_id(data) == id,
        value_of(data) == Ok::<u32, PacketError>(value as u32),
        value_complete(data),
{
}

/// The controls that show the number of a message: the message id, the range, the control
/// and how many units of the wire make one of the control.
pub open spec fn shown_by(id: int) -> Option<(RangeId, ControlId, int)> {
    if id == 0x0916 {
        Some((RangeId::A, ControlId::ScanSpeed, 2))
    } else if id == 0x091e {
        Some((RangeId::A, ControlId::Range, 1))
    } else if id == 0x091f {
        Some((RangeId::B, ControlId::Range, 1))
    } else if id == 0x09a3 {
        Some((RangeId::A, ControlId::SupplyVoltage, 1))
    } else if id == 0x09a7 {
        Some((RangeId::A, ControlId::MagnetronCurrent, 1))
    } else if id == 0x09a8 {
        Some((RangeId::A, ControlId::DeviceTemperature, 1))
    } else if id == 0x09aa {
        Some((RangeId::A, ControlId::OperatingTime, 1))
    } else if id == 0x09ac {
        Some((RangeId::A, ControlId::TransmitTime, 1))
    } else if id == 0x0932 {
        Some((RangeId::A, ControlId::InterferenceRejection, 1))
    } else if id == 0x0934 {
        Some((RangeId::A, ControlId::Rain, 100))
    } else if id == 0x0937 {
        Some((RangeId::B, ControlId::Rain, 100))
    } else if id == 0x093a {
        Some((RangeId::A, ControlId::Sea, 100))
    } else if id == 0x093d {
        Some((RangeId::B, ControlId::Sea, 100))
    } else if id == 0x0967 {
        Some((RangeId::A, ControlId::TransmitChannel, 1))
    } else if id == 0x0962 {
        Some((RangeId::A, ControlId::TargetExpansion, 1))
    } else if id == 0x0963 {
        Some((RangeId::B, ControlId::TargetExpansion, 1))
    } else if id == 0x0968 {
        Some((RangeId::A, ControlId::TargetBoost, 1))
    } else if id == 0x0969 {
        Some((RangeId::B, ControlId::TargetBoost, 1))
    } else if id == 0x0970 {
        Some((RangeId::A, ControlId::ScanAverageMode, 1))
    } else if id == 0x0971 {
        Some((RangeId::B, ControlId::ScanAverageMode, 1))
    } else if id == 0x0972 {
        Some((RangeId::A, ControlId::ScanAverageSensitivity, 1))
    } else if id == 0x0973 {
        Some((RangeId::B, ControlId::ScanAverageSensitivity, 1))
    } else if id == 0x0942 {
        Some((RangeId::A, ControlId::TimedIdle, 1))
    } else if id == 0x0944 {
        Some((RangeId::A, ControlId::TimedRun, 1))
    } else {
        None
    }
}

proof fn lemma_report(s: ReceiverView, data: Seq<u8>, id: int, width: int, value: int)
    requires
        carries(data, id, width, value),
        0x0916 <= id,
        id != 0x09b1 && id != 0x09b2,
        subject(id as u32) matches Some((range, about)) && (range == RangeId::B ==> s.range_b
            is Some),
    ensures
        report_step(s, data) == Ok::<StepView, PacketError>(
            match subject(id as u32) {
                Some((RangeId::B, about)) => value_step_b(s, about, value as u32),
                Some((RangeId::A, about)) => value_step_a(s, about, value as u32),
                None => nothing(s),
            },
        ),
{
    law_reports_read_back(data, id, width, value);
}

/// A number that the radar reports is shown by its control, on its range, in the units of
/// the control; nothing else is shown.
pub proof fn law_numbers_are_shown(
    s: ReceiverView,
    data: Seq<u8>,
    id: int,
    width: int,
    value: int,
    range: RangeId,
    control: ControlId,
    unit: int,
)
    requires
        carries(data, id, width, value),
        shown_by(id) == Some((range, control, unit)),
        range == RangeId::B ==> s.range_b is Some,
    ensures
        report_step(s, data) matches Ok(step) && {
            &&& step.range == range
            &&& step.spokes.len() == 0
            &&& step.updates.len() == 1
            &&& step.updates[0] matches Update::Value { id: shown, value: n } && shown == control
                && unit * n <= value < unit * (n + 1)
        },
{
    assert(subject(id as u32) matches Some((r, about)) && r == range && match about {
        Subject::Plain(c) => c == control && unit == 1,
        Subject::Doubled(c) => c == control && unit == 2,
        Subject::Scaled(c) => c == control && unit == 100,
        Subject::Range => control == ControlId::Range && unit == 1,
        _ => false,
    }) by {
        reveal(subject);
    }
    lemma_report(s, data, id, width, value);
}

/// A report without a range B to show it changes nothing.
pub proof fn law_reports_need_their_range(
    s: ReceiverView,
    data: Seq<u8>,
    id: int,
    width: int,
    value: int,
)
    requires
        carries(data, id, width, value),
        shown_by(id) matches Some(shown) && shown.0 == RangeId::B,
        s.range_b is None,
    ensures
        report_step(s, data) == Ok::<StepView, PacketError>(nothing(s)),
{
    law_reports_read_back(data, id, width, value);
    reveal(subject);
}

/// Tuning, sea clutter and the channel are automatic where the radar says so; rain
/// clutter is on where it says so.
pub proof fn law_modes_are_shown(
    s: ReceiverView,
    data: Seq<u8>,
    id: int,
    width: int,
    value: int,
)
    requires
        carries(data, id, width, value),
        id == 0x0920 || id == 0x0966 || id == 0x0939 || id == 0x093c || id == 0x0933 || id
            == 0x0936,
        id == 0x093c || id == 0x0936 ==> s.range_b is Some,
    ensures
        report_step(s, data) matches Ok(step) && {
            let auto = |c: ControlId, on: bool|
                seq![Update::Auto { id: c, value: 0, flag: if on { 1 } else { 0 } }];
            &&& step.range == if id == 0x093c || id == 0x0936 { RangeId::B } else { RangeId::A }
            &&& id == 0x0920 ==> step.updates == auto(ControlId::Tune, value == 1)
            &&& id == 0x0966 ==> step.updates == auto(ControlId::TransmitChannel, value == 1)
            &&& id == 0x0939 || id == 0x093c ==> step.updates == auto(ControlId::Sea, value == 2)
            &&& id == 0x0933 || id == 0x0936 ==> step.updates == seq![
                Update::Enabled {
                    id: ControlId::Rain,
                    value: 0,
                    flag: if value == 1 { 1 } else { 0 },
                },
            ]
        },
{
    assert(subject(id as u32) == Some(
        (
            if id == 0x093c || id == 0x0936 { RangeId::B } else { RangeId::A },
            if id == 0x0920 {
                Subject::AutoMode(ControlId::Tune, 1)
            } else if id == 0x0966 {
                Subject::AutoMode(ControlId::TransmitChannel, 1)
            } else if id == 0x0939 || id == 0x093c {
                Subject::AutoMode(ControlId::Sea, 2)
            } else {
                Subject::EnabledMode(ControlId::Rain)
            },
        ),
    )) by {
        reveal(subject);
    }
    lemma_report(s, data, id, width, value);
}

/// The power state is what the radar says of its scanner or of its transmitter.
pub proof fn law_power_is_shown(s: ReceiverView, data: Seq<u8>, id: int, width: int, value: int)
    requires
        carries(data, id, width, value),
        id == 0x0918 || id == 0x0919 || id == 0x0992,
    ensures
        report_step(s, data) matches Ok(step) && step.next == s && step.updates == seq![
            Update::Power(
                if id == 0x0992 {
                    if value == 3 {
                        Power::Standby
                    } else if value == 5 {
                        Power::Transmit
                    } else if value == 2 || value == 4 || value == 6 || value == 7 || value == 10 {
                        Power::Preparing
                    } else {
                        Power::Off
                    }
                } else if value == 1 {
                    Power::Transmit
                } else {
                    Power::Standby
                },
            ),
        ],
{
    assert(subject(id as u32) == Some(
        (RangeId::A, if id == 0x0992 { Subject::ScannerState } else { Subject::Transmit }),
    )) by {
        reveal(subject);
    }
    lemma_report(s, data, id, width, value);
    assert(s.range_a == RangeView { ..s.range_a });
}

/// Until a state change is due, the whole seconds that are left are shown.
pub proof fn law_state_change_is_shown(s: ReceiverView, data: Seq<u8>, width: int, value: int)
    requires
        carries(data, 0x0993, width, value),
    ensures
        report_step(s, data) matches Ok(step) && {
            &&& value < 1000 ==> step.updates.len() == 0
            &&& value >= 1000 ==> step.updates.len() == 1 && (step.updates[0] matches Update::Value {
                id: ControlId::WarmupTime,
                value: seconds,
            } && 1000 * seconds <= value < 1000 * (seconds + 1))
        },
{
    assert(subject(0x0993) == Some((RangeId::A, Subject::StateChange))) by {
        reveal(subject);
    }
    lemma_report(s, data, 0x0993, width, value);
}

/// An angle in 32nds of a degree is shown in degrees, by the control it belongs to.
pub proof fn law_angles_are_shown(s: ReceiverView, data: Seq<u8>, id: int, angle: int)
    requires
        id == 0x0930 || id == 0x0931,
        -0x400_0000 <= angle < 0x400_0000,
        carries(data, id, 4, if angle >= 0 { 32 * angle } else { 0x1_0000_0000 + 32 * angle }),
    ensures
        report_step(s, data) matches Ok(step) && step.updates == seq![
            Update::Value {
                id: if id == 0x0930 { ControlId::BearingAlignment } else { ControlId::ParkPosition },
                value: angle as i64,
            },
        ],
{
    assert(subject(id as u32) == Some(
        (
            RangeId::A,
            Subject::Angle(
                if id == 0x0930 { ControlId::BearingAlignment } else { ControlId::ParkPosition },
            ),
        ),
    )) by {
        reveal(subject);
    }
    let value = if angle >= 0 { 32 * angle } else { 0x1_0000_0000 + 32 * angle };
    lemma_report(s, data, id, 4, value);
    assert(degrees(value as u32) == angle);
}

/// What the radar says of gain is shown with what it said before: a mode with the last
/// level, a level with the last mode.
pub proof fn law_gain_is_shown(
    s: ReceiverView,
    mode: Seq<u8>,
    level: Seq<u8>,
    range: RangeId,
    automatic: int,
    hundredths: int,
)
    requires
        carries(mode, if range == RangeId::B { 0x0926 } else { 0x0924 }, 1, automatic),
        carries(level, if range == RangeId::B { 0x0927 } else { 0x0925 }, 2, hundredths),
        range == RangeId::B ==> s.range_b is Some,
    ensures
        ({
            let shown = seq![
                Update::Auto {
                    id: ControlId::Gain,
                    value: (hundredths / 100) as i64,
                    flag: if automatic == 2 { 1 } else { 0 },
                },
            ];
            &&& report_step(s, mode) matches Ok(first)
            &&& report_step(first.next, level) matches Ok(second)
            &&& second.updates == shown && second.range == range
            &&& report_step(s, level) matches Ok(early)
            &&& report_step(early.next, mode) matches Ok(late)
            &&& late.updates == shown && late.range == range
        }),
{
    let m: int = if range == RangeId::B { 0x0926 } else { 0x0924 };
    let l: int = if range == RangeId::B { 0x0927 } else { 0x0925 };
    assert(subject(m as u32) == Some((range, Subject::GainMode)) && subject(l as u32) == Some(
        (range, Subject::GainLevel),
    )) by {
        reveal(subject);
    }
    lemma_report(s, mode, m, 1, automatic);
    lemma_report(s, level, l, 2, hundredths);
    lemma_report(report_step(s, mode)->Ok_0.next, level, l, 2, hundredths);
    lemma_report(report_step(s, level)->Ok_0.next, mode, m, 1, automatic);
}

/// The Doppler mode that the radar says is shown, and samples are read in that mode from
/// there on: without Doppler they are halved, with it those from 0xf0 fall into the
/// palette band of approaching targets and those from 0xf8 into that of receding ones.
pub proof fn law_doppler_is_shown(
    s: ReceiverView,
    data: Seq<u8>,
    value: int,
    approaching: (u8, u8),
    receding: (u8, u8),
    j: int,
)
    requires
        carries(data, 0x0960, 1, value),
        s.is_xhd(),
        s.range_a.doppler != doppler_mode(value as u32),
        s.legend.doppler_approaching == Some(approaching),
        s.legend.doppler_receding == Some(receding),
        0 < approaching.1 <= 36,
        0 < receding.1 <= 36,
        approaching.0 + approaching.1 <= 256,
        receding.0 + receding.1 <= 256,
        0 <= j < 256,
    ensures
        report_step(s, data) matches Ok(step) && {
            let table = step.next.range_a.table;
            let on = value == 1 || value == 2;
            &&& step.next.range_b == s.range_b
            &&& step.updates == seq![
                Update::Value {
                    id: ControlId::Doppler,
                    value: if value == 1 {
                        2
                    } else if value == 2 {
                        1
                    } else {
                        0
                    },
                },
            ]
            &&& table.len() == 256
            &&& !on || j < 0xf0 ==> 2 * table[j] <= j <= 2 * table[j] + 1
            &&& on && 0xf0 <= j < 0xf8 ==> approaching.0 <= table[j] < approaching.0
                + approaching.1
            &&& on && 0xf8 <= j ==> receding.0 <= table[j] < receding.0 + receding.1
            &&& on && j != 0xf0 && j != 0xf8 && j > 0xf0 ==> table[j - 1] <= table[j]
            &&& on ==> table[0xf0] == approaching.0 && table[0xf8] == receding.0
        },
{
    assert(subject(0x0960) == Some((RangeId::A, Subject::Doppler))) by {
        reveal(subject);
    }
    lemma_report(s, data, 0x0960, 1, value);
    lemma_band(approaching);
    lemma_band(receding);
    let table = report_step(s, data)->Ok_0.next.range_a.table;
    assert(table == blob_table(s.legend, true, doppler_mode(value as u32) != DopplerMode::Off));
}

proof fn lemma_band(direction: (u8, u8))
    requires
        0 < direction.1 <= 36,
        direction.0 + direction.1 <= 256,
    ensures
        forall|sub: int|
            0 <= sub < 8 ==> direction.0 <= #[trigger] band_index(Some(direction), sub)
                < direction.0 + direction.1,
        forall|sub: int|
            0 < sub < 8 ==> band_index(Some(direction), sub - 1) <= #[trigger] band_index(
                Some(direction),
                sub,
            ),
        band_index(Some(direction), 0) == direction.0,
{
    let n = direction.1 as int;
    assert forall|sub: int| 0 <= sub < 8 implies direction.0 <= #[trigger] band_index(
        Some(direction),
        sub,
    ) < direction.0 + direction.1 by {
        assert(0 <= sub * n / 8 < n) by (nonlinear_arith)
            requires
                0 <= sub < 8,
                n > 0,
        ;
    }
    assert forall|sub: int| 0 < sub < 8 implies band_index(Some(direction), sub - 1)
        <= #[trigger] band_index(Some(direction), sub) by {
        assert((sub - 1) * n / 8 <= sub * n / 8) by (nonlinear_arith)
            requires
                0 < sub,
                n > 0,
        ;
    }
}

/// Before the first report an enhanced radar's samples are halved and an HD radar's are
/// taken as they are.
pub proof fn law_fresh_samples(legend: Legend, j: int)
    requires
        0 <= j < 256,
    ensures
        2 * fresh(legend, true).table[j] <= j <= 2 * fresh(legend, true).table[j] + 1,
        fresh(legend, false).table[j] == j,
        fresh(legend, true).table.len() == 256,
{
}

/// A spoke packet reads back: every field that was put into it is in the one spoke that it
/// gives, on the range that it names; its range is taken over, and shown where it is new.
pub proof fn law_spoke_packet_reads_back(
    s: ReceiverView,
    data: Seq<u8>,
    k: int,
    meters: int,
    n: int,
    i: int,
)
    requires
        0 <= k < s.spokes_per_revolution,
        8 * k < 0x1_0000,
        0 <= meters < 0x1_0000_0000,
        0 < n < 0x1_0000,
        0 <= i < n,
        data.len() == 36 + n,
        data[12] == 8 * k % 0x100,
        data[13] == 8 * k / 0x100,
        data[16] == meters % 0x100,
        data[17] == meters / 0x100 % 0x100,
        data[18] == meters / 0x1_0000 % 0x100,
        data[19] == meters / 0x100_0000,
        data[26] == n % 0x100,
        data[27] == n / 0x100,
        data[24] == 1 ==> s.range_b is Some,
    ensures
        data_step(s, data) matches Ok(step) && {
            let b = data[24] == 1;
            let before = if b { s.range_b->0 } else { s.range_a };
            let after = if b { step.next.range_b->0 } else { step.next.range_a };
            &&& step.range == if b { RangeId::B } else { RangeId::A }
            &&& step.spokes.len() == 1
            &&& step.spokes[0].angle == k
            &&& step.spokes[0].range == meters
            &&& step.spokes[0].heading is None
            &&& step.spokes[0].data.len() == n
            &&& step.spokes[0].data[i] == before.table[data[36 + i] as int]
            &&& after == RangeView { range_meters: meters as u32, ..before }
            &&& before.range_meters == meters ==> step.updates.len() == 0
            &&& before.range_meters != meters ==> step.updates == seq![
                Update::Value { id: ControlId::Range, value: meters as i64 },
            ]
            &&& b ==> step.next.range_a == s.range_a
            &&& !b ==> step.next.range_b == s.range_b
        },
{
    assert(bytes::le16(data, 12) == 8 * k);
    assert(bytes::le16(data, 26) == n);
    assert(bytes::le32(data, 16) == meters);
    assert(8 * k / 8 % (s.spokes_per_revolution as int) == k) by (nonlinear_arith)
        requires
            0 <= k < s.spokes_per_revolution,
    ;
}

/// The wire angles of one spoke are eight, and angles turn with the antenna.
pub proof fn law_spoke_angles_turn(s: ReceiverView, first: Seq<u8>, second: Seq<u8>)
    requires
        s.spokes_per_revolution > 0,
        first.len() > 36,
        first.len() >= 36 + bytes::le16(first, 26),
        first[24] == 0,
        second == first.update(12, second[12]).update(13, second[13]),
        bytes::le16(second, 12) == bytes::le16(first, 12) + 8,
    ensures
        ({
            &&& data_step(s, first) matches Ok(a)
            &&& data_step(s, second) matches Ok(b)
            &&& a.spokes.len() == 1 && b.spokes.len() == 1
            &&& b.spokes[0].data == a.spokes[0].data
            &&& b.spokes[0].angle == a.spokes[0].angle + 1 || (b.spokes[0].angle == 0
                && a.spokes[0].angle == s.spokes_per_revolution - 1)
        }),
{
    let x = bytes::le16(first, 12) / 8;
    let n = s.spokes_per_revolution as int;
    assert((x + 1) % n == x % n + 1 || ((x + 1) % n == 0 && x % n == n - 1)) by (nonlinear_arith)
        requires
            n > 0,
            x >= 0,
    ;
    assert(0 <= x % n < n) by (nonlinear_arith)
        requires
            n > 0,
            x >= 0,
    ;
    assert(0 <= (x + 1) % n < n) by (nonlinear_arith)
        requires
            n > 0,
            x >= 0,
    ;
    assert(first.skip(36) =~= second.skip(36));
}

/// A spoke packet that is cut short, or for a range that is not there, changes nothing.
pub proof fn law_unusable_spokes_are_dropped(s: ReceiverView, data: Seq<u8>)
    requires
        data.len() >= 36,
        data.len() < 36 + data[26] + 0x100 * data[27] || data[24] == 1 && s.range_b is None,
    ensures
        data_step(s, data) matches Ok(step) && step.next == s && step.updates.len() == 0
            && step.spokes.len() == 0,
{
    if s.range_b is Some {
        assert(s == ReceiverView { range_b: Some(s.range_b->0), ..s });
    }
}

/// The bit of a byte with value `weight`.
pub open spec fn weight_is_set(byte: u8, weight: int) -> bool {
    (byte as int) / weight % 2 == 1
}

proof fn lemma_bits(b: u8)
    ensures
        bit(b, 0) == weight_is_set(b, 1),
        bit(b, 1) == weight_is_set(b, 2),
        bit(b, 2) == weight_is_set(b, 4),
        bit(b, 3) == weight_is_set(b, 8),
        bit(b, 4) == weight_is_set(b, 16),
        bit(b, 5) == weight_is_set(b, 32),
        bit(b, 6) == weight_is_set(b, 64),
        bit(b, 7) == weight_is_set(b, 128),
{
    assert((b >> 0u8) & 1 == b % 2 && (b >> 1u8) & 1 == b / 2 % 2 && (b >> 2u8) & 1 == b / 4 % 2 && (
    b >> 3u8) & 1 == b / 8 % 2 && (b >> 4u8) & 1 == b / 16 % 2 && (b >> 5u8) & 1 == b / 32 % 2 && (b
        >> 6u8) & 1 == b / 64 % 2 && (b >> 7u8) & 1 == b / 128 % 2) by (bit_vector);
}

/// An HD spoke packet reads back: it gives four spokes, two to each step of the wire angle,
/// with the range that was put in, and each bit of the samples is one sample, full where it
/// is set and empty where it is not.
pub proof fn law_hd_spokes_read_back(
    s: ReceiverView,
    data: Seq<u8>,
    angle: int,
    meters: int,
    m: int,
    i: int,
    b: int,
)
    requires
        s.radar_type == GarminRadarType::HD,
        data.len() >= 56,
        data.len() >= 52 + 4 * m,
        data[0] == 0xa3 && data[1] == 0x02 && data[2] == 0 && data[3] == 0,
        0 <= angle <= 32766,
        data[8] == angle % 0x100,
        data[9] == angle / 0x100,
        0 <= m < 0x4000,
        data[10] == 4 * m % 0x100,
        data[11] == 4 * m / 0x100,
        0 < meters < 0x1_0000_0000,
        data[16] == (meters - 1) % 0x100,
        data[17] == (meters - 1) / 0x100 % 0x100,
        data[18] == (meters - 1) / 0x1_0000 % 0x100,
        data[19] == (meters - 1) / 0x100_0000,
        0 <= i < 4,
        2 * angle + i < s.spokes_per_revolution,
        0 <= b < m,
    ensures
        report_step(s, data) matches Ok(step) && {
            let spoke = step.spokes[i];
            let byte = data[52 + i * m + b];
            let sample = |k: int, weight: int|
                spoke.data[8 * b + k] == s.range_a.table[if weight_is_set(byte, weight) {
                    255
                } else {
                    0
                }];
            &&& step.spokes.len() == 4
            &&& step.range == RangeId::A
            &&& step.next.range_a.range_meters == meters
            &&& spoke.angle == 2 * angle + i
            &&& spoke.range == meters
            &&& spoke.data.len() == 8 * m
            &&& sample(0, 1) && sample(1, 2) && sample(2, 4) && sample(3, 8)
            &&& sample(4, 16) && sample(5, 32) && sample(6, 64) && sample(7, 128)
        },
{
    assert(message_id(data) == 0x02a3);
    assert(bytes::le16(data, 8) == angle);
    assert(hd_scan_length(data) == 4 * m);
    assert(hd_range(data) == meters);
    let n = s.spokes_per_revolution as int;
    assert((2 * angle + i) % n == 2 * angle + i) by (nonlinear_arith)
        requires
            0 <= 2 * angle + i < n,
    ;
    assert(0 <= i * m && i * m + m <= 4 * m) by (nonlinear_arith)
        requires
            0 <= i < 4,
            0 <= m,
    ;
    let part = data.subrange(52 + i * m, 52 + i * m + m);
    assert(part[b] == data[52 + i * m + b]);
    lemma_bits(part[b]);
    let spoke = report_step(s, data)->Ok_0.spokes[i];
    assert(spoke.data == unpacked(part, s.range_a.table));
    assert(spoke.data[8 * b + 0] == s.range_a.table[if bit(part[b], 0) { 255 } else { 0 }]);
    assert(spoke.data[8 * b + 1] == s.range_a.table[if bit(part[b], 1) { 255 } else { 0 }]);
    assert(spoke.data[8 * b + 2] == s.range_a.table[if bit(part[b], 2) { 255 } else { 0 }]);
    assert(spoke.data[8 * b + 3] == s.range_a.table[if bit(part[b], 3) { 255 } else { 0 }]);
    assert(spoke.data[8 * b + 4] == s.range_a.table[if bit(part[b], 4) { 255 } else { 0 }]);
    assert(spoke.data[8 * b + 5] == s.range_a.table[if bit(part[b], 5) { 255 } else { 0 }]);
    assert(spoke.data[8 * b + 6] == s.range_a.table[if bit(part[b], 6) { 255 } else { 0 }]);
    assert(spoke.data[8 * b + 7] == s.range_a.table[if bit(part[b], 7) { 255 } else { 0 }]);
}

/// An HD status report reads back: the state, the seconds of warmup, the levels of gain,
/// sea and rain, the alignment, the interference filter and the speed that were put in.
pub proof fn law_hd_status_reads_back(
    s: ReceiverView,
    data: Seq<u8>,
    state: int,
    warmup: int,
    alignment: int,
)
    requires
        data.len() >= 48,
        data[0] == 0xa5 && data[1] == 0x02 && data[2] == 0 && data[3] == 0,
        0 <= state < 0x1_0000,
        data[8] == state % 0x100 && data[9] == state / 0x100,
        0 <= warmup < 0x1_0000,
        data[10] == warmup % 0x100 && data[11] == warmup / 0x100,
        -0x8000 <= alignment < 0x8000,
        data[28] == alignment % 0x100 && data[29] == alignment / 0x100 % 0x100,
    ensures
        report_step(s, data) matches Ok(step) && {
            let n = if warmup > 0 { 2int } else { 1 };
            &&& step.next == s
            &&& step.updates.len() == n + 6
            &&& step.updates[0] == Update::Power(
                if state == 3 {
                    Power::Standby
                } else if state == 4 {
                    Power::Transmit
                } else if state == 1 || state == 5 {
                    Power::Preparing
                } else {
                    Power::Off
                },
            )
            &&& warmup > 0 ==> step.updates[1] == (Update::Value {
                id: ControlId::WarmupTime,
                value: warmup as i64,
            })
            &&& step.updates[n] == (Update::Auto {
                id: ControlId::Gain,
                value: data[16] as i64,
                flag: if data[17] > 0 { 1 } else { 0 },
            })
            &&& step.updates[n + 1] == (Update::Auto {
                id: ControlId::Sea,
                value: data[20] as i64,
                flag: if data[21] == 2 { 1 } else { 0 },
            })
            &&& step.updates[n + 2] == (Update::Value { id: ControlId::Rain, value: data[24] as i64 })
            &&& step.updates[n + 3] == (Update::Value {
                id: ControlId::BearingAlignment,
                value: alignment as i64,
            })
            &&& step.updates[n + 4] == (Update::Value {
                id: ControlId::InterferenceRejection,
                value: data[31] as i64,
            })
            &&& step.updates[n + 5] == (Update::Value {
                id: ControlId::ScanSpeed,
                value: data[40] as i64,
            })
        },
{
    assert(message_id(data) == 0x02a5);
    assert(bytes::le16(data, 8) == state);
    assert(bytes::le16(data, 10) == warmup);
    assert(bytes::signed16(bytes::le16(data, 28)) == alignment);
}

/// Every report of a number can be used; so can an HD spoke packet whose angle is in
/// bounds, and a spoke packet, as soon as the number of spokes is known.
pub proof fn law_reports_can_be_used(
    s: ReceiverView,
    data: Seq<u8>,
    id: int,
    width: int,
    value: int,
)
    ensures
        carries(data, id, width, value) && shown_by(id) is Some ==> report_fits(s, data),
        s.radar_type == GarminRadarType::HD && data.len() >= 56 && bytes::holds32(data, 0, 0x02a3)
            && s.spokes_per_revolution >= 1 && bytes::le16(data, 8) <= 32766 && bytes::le32(data, 16)
            < 0xffff_ffff ==> report_fits(s, data),
        data.len() >= 48 && bytes::holds32(data, 0, 0x02a5) && bytes::le32(data, 12) < 0xffff_ffff
            && s.radar_type == GarminRadarType::HD ==> report_fits(s, data),
        s.spokes_per_revolution >= 1 ==> data_fits(s, data),
        data.len() < 8 ==> report_fits(s, data),
{
    if carries(data, id, width, value) && shown_by(id) is Some {
        law_reports_read_back(data, id, width, value);
        reveal(subject);
    }
    bytes::law_numbers_read_back(data, 0, 0x02a3);
    bytes::law_numbers_read_back(data, 0, 0x02a5);
}

/// Reports that are too short are errors.
pub proof fn law_short_reports_are_errors(s: ReceiverView, data: Seq<u8>)
    ensures
        data.len() < 8 ==> report_step(s, data) == Err::<StepView, PacketError>(
            PacketError::ReportTooShort,
        ),
        data.len() < 36 ==> data_step(s, data) == Err::<StepView, PacketError>(
            PacketError::DataTooShort,
        ),
        8 <= data.len() < 56 && bytes::holds32(data, 0, 0x02a3) && s.radar_type
            == GarminRadarType::HD ==> report_step(s, data) == Err::<StepView, PacketError>(
            PacketError::HdSpokeTooShort,
        ),
        8 <= data.len() < 48 && bytes::holds32(data, 0, 0x02a5) ==> report_step(s, data) == Err::<
            StepView,
            PacketError,
        >(PacketError::HdStatusTooShort),
        data.len() == 8 && bytes::holds32(data, 0, 0x0919) ==> report_step(s, data) == Err::<
            StepView,
            PacketError,
        >(PacketError::ValueTooShort),
{
    bytes::law_numbers_read_back(data, 0, 0x02a3);
    bytes::law_numbers_read_back(data, 0, 0x02a5);
    bytes::law_numbers_read_back(data, 0, 0x0919);
    reveal(subject);
}

/// The capabilities that a radar reports are taken over, and a range table is taken once.
pub proof fn law_capabilities_are_taken_over(s: ReceiverView, data: Seq<u8>)
    requires
        data.len() >= 56,
    ensures
        bytes::holds32(data, 0, 0x09b1) ==> (report_step(s, data) matches Ok(step)
            && step.next.capabilities == capabilities::reported(data.skip(8))
            && step.next.capabilities_seen && step.updates.len() == 0 && step.next.range_a
            == s.range_a),
        bytes::holds32(data, 0, 0x09b2) && range_table::is_table(data.skip(8)) ==> (report_step(
            s,
            data,
        ) matches Ok(step) && step.next.range_table_seen && step.next.capabilities
            == s.capabilities) && (brings_ranges(s, data) <==> !s.range_table_seen),
{
    bytes::law_numbers_read_back(data, 0, 0x09b1);
    bytes::law_numbers_read_back(data, 0, 0x09b2);
}

/// An HD spoke packet that is cut short still tells the range, but gives no spokes.
pub proof fn law_short_hd_spokes_are_dropped(s: ReceiverView, data: Seq<u8>, n: int, meters: int)
    requires
        s.radar_type == GarminRadarType::HD,
        data.len() >= 56,
        bytes::holds32(data, 0, 0x02a3),
        bytes::holds16(data, 10, n),
        data.len() < 52 + n,
        0 < meters < 0x1_0000_0000,
        bytes::holds32(data, 16, meters - 1),
    ensures
        report_step(s, data) matches Ok(step) && step.spokes.len() == 0
            && step.next.range_a.range_meters == meters && step.range == RangeId::A,
{
    bytes::law_numbers_read_back(data, 0, 0x02a3);
    bytes::law_numbers_read_back(data, 10, n);
    bytes::law_numbers_read_back(data, 16, meters - 1);
}

/// A message that is not known changes nothing, on range A.
pub proof fn law_unknown_messages_change_nothing(s: ReceiverView, data: Seq<u8>, id: int)
    requires
        data.len() >= 8,
        bytes::holds32(data, 0, id),
        id < 0x02a3 || 0x02a5 < id < 0x0900 || id > 0x0a00,
    ensures
        report_step(s, data) matches Ok(step) && step.next == s && step.range == RangeId::A
            && step.updates.len() == 0 && step.spokes.len() == 0,
{
    bytes::law_numbers_read_back(data, 0, id);
    reveal(subject);
}

} // verus!
