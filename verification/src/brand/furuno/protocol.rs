//! Furuno NavNet wire format: opcodes, packets, range slots and frame headers.
//!
//! A command line is `$`, a mode character, a hexadecimal opcode and decimal
//! arguments. A *wire index* is the firmware's slot number for a range; it is
//! not in order of distance. A *wire unit* is 0 for nautical miles and 1 for
//! kilometres.

use vstd::prelude::*;

use crate::text;
use crate::text::{has_text, same_text, starts_with};

verus! {

/// Number of spokes per revolution (13-bit angle).
pub const SPOKES: usize = 8192;

/// Number of samples in a spoke as handed on. Shorter spokes are stretched.
pub const SPOKE_LEN: usize = 1024;

/// Number of echo intensity levels.
pub const PIXEL_VALUES: u8 = 252;

/// Base port of all NavNet services.
pub const BASE_PORT: u16 = 10000;

/// UDP port of the beacons.
pub const BEACON_PORT: u16 = 10010;

/// UDP port of the spoke data.
pub const DATA_PORT: u16 = 10024;

/// Length of the shortest beacon report.
pub const BEACON_REPORT_LENGTH_MIN: usize = 24;

/// Length of the model report.
pub const MODEL_REPORT_LENGTH: usize = 170;

/// Announces this software; holds the text `MAYARA`.
pub const ANNOUNCE_MAYARA_PACKET: [u8; 32] = [
    0x1, 0x0, 0x0, 0x1, 0x0, 0x0, 0x0, 0x0, 0x0, 0x1, 0x0, 0x18, 0x1, 0x0, 0x0, 0x0, 0x4d, 0x41,
    0x59, 0x41, 0x52, 0x41, 0x0, 0x0, 0x1, 0x1, 0x0, 0x2, 0x0, 0x1, 0x0, 0x12,
];

/// Asks for a beacon report.
pub const REQUEST_BEACON_PACKET: [u8; 16] = [
    0x01, 0x00, 0x00, 0x01, 0x00, 0x00, 0x00, 0x00, 0x01, 0x01, 0x00, 0x08, 0x01, 0x00, 0x00, 0x00,
];

/// Asks for a model report.
pub const REQUEST_MODEL_PACKET: [u8; 16] = [
    0x01, 0x00, 0x00, 0x01, 0x00, 0x00, 0x00, 0x00, 0x14, 0x01, 0x00, 0x08, 0x01, 0x00, 0x00, 0x00,
];

/// First bytes of a beacon report.
pub const BEACON_REPORT_HEADER: [u8; 11] = [
    0x1, 0x0, 0x0, 0x1, 0x0, 0x0, 0x0, 0x0, 0x0, 0x1, 0x0,
];

/// Login message; the text reads `COPYRIGHT (C) 2001 FURUNO ELECTRIC CO.,LTD. `.
pub const LOGIN_MESSAGE: [u8; 56] = [
    0x8, 0x1, 0x0, 0x38, 0x1, 0x0, 0x0, 0x0, 0x0, 0x1, 0x0, 0x0, 0x43, 0x4f, 0x50, 0x59, 0x52,
    0x49, 0x47, 0x48, 0x54, 0x20, 0x28, 0x43, 0x29, 0x20, 0x32, 0x30, 0x30, 0x31, 0x20, 0x46,
    0x55, 0x52, 0x55, 0x4e, 0x4f, 0x20, 0x45, 0x4c, 0x45, 0x43, 0x54, 0x52, 0x49, 0x43, 0x20,
    0x43, 0x4f, 0x2e, 0x2c, 0x4c, 0x54, 0x44, 0x2e, 0x20,
];

/// Header of the reply to a login. The port offset follows, high byte first.
pub const LOGIN_EXPECTED_HEADER: [u8; 8] = [0x9, 0x1, 0x0, 0xc, 0x1, 0x0, 0x0, 0x0];

/// Beacon report: length of the rest and name of the radar.
#[derive(Clone, Debug)]
pub struct FurunoRadarReport {
    pub length: u8,
    /// Zero-terminated unless it fills all 8 bytes.
    pub name: Vec<u8>,
}

/// Model report: model name and serial number, each zero-terminated unless it
/// fills all 32 bytes.
#[derive(Clone, Debug)]
pub struct FurunoRadarModelReport {
    pub model: Vec<u8>,
    pub serial_no: Vec<u8>,
}

/// All known Furuno radar models.
#[derive(Clone, Copy, Debug, PartialEq, Eq, Structural)]
pub enum RadarModel {
    Unknown,
    FAR21x7,
    DRS,
    FAR14x7,
    DRS4DL,
    FAR3000,
    DRS4DNXT,
    DRS6ANXT,
    DRS6AXCLASS,
    FAR15x3,
    FAR14x6,
    DRS4W,
    DRS12ANXT,
    DRS25ANXT,
}

impl RadarModel {
    /// The display name of the model.
    pub open spec fn label(self) -> Seq<char> {
        match self {
            RadarModel::Unknown => "Unknown"@,
            RadarModel::FAR21x7 => "FAR21x7"@,
            RadarModel::DRS => "DRS"@,
            RadarModel::FAR14x7 => "FAR14x7"@,
            RadarModel::DRS4DL => "DRS4DL"@,
            RadarModel::FAR3000 => "FAR3000"@,
            RadarModel::DRS4DNXT => "DRS4DNXT"@,
            RadarModel::DRS6ANXT => "DRS6ANXT"@,
            RadarModel::DRS6AXCLASS => "DRS6AXCLASS"@,
            RadarModel::FAR15x3 => "FAR15x3"@,
            RadarModel::FAR14x6 => "FAR14x6"@,
            RadarModel::DRS4W => "DRS4W"@,
            RadarModel::DRS12ANXT => "DRS12ANXT"@,
            RadarModel::DRS25ANXT => "DRS25ANXT"@,
        }
    }

    /// The display name of the model.
    pub fn name(&self) -> (r: &'static str)
        ensures
            r@ == self.label(),
    {
        match self {
            RadarModel::Unknown => "Unknown",
            RadarModel::FAR21x7 => "FAR21x7",
            RadarModel::DRS => "DRS",
            RadarModel::FAR14x7 => "FAR14x7",
            RadarModel::DRS4DL => "DRS4DL",
            RadarModel::FAR3000 => "FAR3000",
            RadarModel::DRS4DNXT => "DRS4DNXT",
            RadarModel::DRS6ANXT => "DRS6ANXT",
            RadarModel::DRS6AXCLASS => "DRS6AXCLASS",
            RadarModel::FAR15x3 => "FAR15x3",
            RadarModel::FAR14x6 => "FAR14x6",
            RadarModel::DRS4W => "DRS4W",
            RadarModel::DRS12ANXT => "DRS12ANXT",
            RadarModel::DRS25ANXT => "DRS25ANXT",
        }
    }

    /// The model that carries a firmware part number.
    pub open spec fn of_part_number(part: Seq<char>) -> RadarModel {
        if part == "0359235"@ {
            RadarModel::DRS
        } else if part == "0359255"@ {
            RadarModel::FAR14x7
        } else if part == "0359204"@ {
            RadarModel::FAR21x7
        } else if part == "0359321"@ {
            RadarModel::FAR14x7
        } else if part == "0359338"@ {
            RadarModel::DRS4DL
        } else if part == "0359367"@ {
            RadarModel::DRS4DL
        } else if part == "0359281"@ {
            RadarModel::FAR3000
        } else if part == "0359286"@ {
            RadarModel::FAR3000
        } else if part == "0359477"@ {
            RadarModel::FAR3000
        } else if part == "0359360"@ {
            RadarModel::DRS4DNXT
        } else if part == "0359421"@ {
            RadarModel::DRS6ANXT
        } else if part == "0359329"@ {
            RadarModel::DRS4W
        } else if part == "0359355"@ {
            RadarModel::DRS6AXCLASS
        } else if part == "0359344"@ {
            RadarModel::FAR15x3
        } else if part == "0359397"@ {
            RadarModel::FAR14x6
        } else if part == "0359560"@ {
            RadarModel::FAR21x7
        } else {
            RadarModel::Unknown
        }
    }

    /// The model for the 7-digit firmware part number of a module report.
    pub fn from_part_number(part: &str) -> (r: RadarModel)
        ensures
            r == RadarModel::of_part_number(part@),
    {
        if same_text(part, "0359235") {
            RadarModel::DRS
        } else if same_text(part, "0359255") {
            RadarModel::FAR14x7
        } else if same_text(part, "0359204") {
            RadarModel::FAR21x7
        } else if same_text(part, "0359321") {
            RadarModel::FAR14x7
        } else if same_text(part, "0359338") {
            RadarModel::DRS4DL
        } else if same_text(part, "0359367") {
            RadarModel::DRS4DL
        } else if same_text(part, "0359281") {
            RadarModel::FAR3000
        } else if same_text(part, "0359286") {
            RadarModel::FAR3000
        } else if same_text(part, "0359477") {
            RadarModel::FAR3000
        } else if same_text(part, "0359360") {
            RadarModel::DRS4DNXT
        } else if same_text(part, "0359421") {
            RadarModel::DRS6ANXT
        } else if same_text(part, "0359329") {
            RadarModel::DRS4W
        } else if same_text(part, "0359355") {
            RadarModel::DRS6AXCLASS
        } else if same_text(part, "0359344") {
            RadarModel::FAR15x3
        } else if same_text(part, "0359397") {
            RadarModel::FAR14x6
        } else if same_text(part, "0359560") {
            RadarModel::FAR21x7
        } else {
            RadarModel::Unknown
        }
    }

    /// The model that a model report names.
    pub open spec fn of_model_name(name: Seq<char>) -> RadarModel {
        if text::contains_text(name, "DRS4D-NXT"@) || text::contains_text(name, "DRS4DNXT"@) {
            RadarModel::DRS4DNXT
        } else if text::contains_text(name, "DRS6A-NXT"@) || text::contains_text(name, "DRS6ANXT"@) {
            RadarModel::DRS6ANXT
        } else if text::contains_text(name, "DRS12A-NXT"@) || text::contains_text(name, "DRS12ANXT"@) {
            RadarModel::DRS12ANXT
        } else if text::contains_text(name, "DRS25A-NXT"@) || text::contains_text(name, "DRS25ANXT"@) {
            RadarModel::DRS25ANXT
        } else if text::contains_text(name, "DRS6A"@) && text::contains_text(name, "CLASS"@) {
            RadarModel::DRS6AXCLASS
        } else if text::contains_text(name, "DRS4W"@) {
            RadarModel::DRS4W
        } else if text::contains_text(name, "DRS4DL"@) {
            RadarModel::DRS4DL
        } else if text::begins_with(name, "DRS"@) {
            RadarModel::DRS
        } else if text::contains_text(name, "FAR-21"@) || text::contains_text(name, "FAR21"@) {
            RadarModel::FAR21x7
        } else if text::contains_text(name, "FAR-14"@) && text::contains_text(name, "7"@) {
            RadarModel::FAR14x7
        } else if text::contains_text(name, "FAR-14"@) && text::contains_text(name, "6"@) {
            RadarModel::FAR14x6
        } else if text::contains_text(name, "FAR-15"@) || text::contains_text(name, "FAR15"@) {
            RadarModel::FAR15x3
        } else if text::contains_text(name, "FAR-3"@) || text::contains_text(name, "FAR3"@) {
            RadarModel::FAR3000
        } else {
            RadarModel::Unknown
        }
    }

    /// The model for the name in a model report. Parts of the name decide, so
    /// `DRS4D-NXT` and `DRS4DNXT` are the same.
    pub fn from_model_name(name: &str) -> (r: RadarModel)
        ensures
            r == RadarModel::of_model_name(name@),
    {
        if has_text(name, "DRS4D-NXT") || has_text(name, "DRS4DNXT") {
            RadarModel::DRS4DNXT
        } else if has_text(name, "DRS6A-NXT") || has_text(name, "DRS6ANXT") {
            RadarModel::DRS6ANXT
        } else if has_text(name, "DRS12A-NXT") || has_text(name, "DRS12ANXT") {
            RadarModel::DRS12ANXT
        } else if has_text(name, "DRS25A-NXT") || has_text(name, "DRS25ANXT") {
            RadarModel::DRS25ANXT
        } else if has_text(name, "DRS6A") && has_text(name, "CLASS") {
            RadarModel::DRS6AXCLASS
        } else if has_text(name, "DRS4W") {
            RadarModel::DRS4W
        } else if has_text(name, "DRS4DL") {
            RadarModel::DRS4DL
        } else if starts_with(name, "DRS") {
            RadarModel::DRS
        } else if has_text(name, "FAR-21") || has_text(name, "FAR21") {
            RadarModel::FAR21x7
        } else if has_text(name, "FAR-14") && has_text(name, "7") {
            RadarModel::FAR14x7
        } else if has_text(name, "FAR-14") && has_text(name, "6") {
            RadarModel::FAR14x6
        } else if has_text(name, "FAR-15") || has_text(name, "FAR15") {
            RadarModel::FAR15x3
        } else if has_text(name, "FAR-3") || has_text(name, "FAR3") {
            RadarModel::FAR3000
        } else {
            RadarModel::Unknown
        }
    }

    /// Whether the transmitter is weak and echoes need amplification.
    pub open spec fn low_power(self) -> bool {
        self == RadarModel::DRS4W || self == RadarModel::DRS
    }

    /// Whether the transmitter is weak and echoes need amplification.
    pub fn is_low_power(&self) -> (r: bool)
        ensures
            r == self.low_power(),
    {
        matches!(*self, RadarModel::DRS4W | RadarModel::DRS)
    }

    /// Whether the model belongs to the DRS-NXT family.
    pub open spec fn nxt(self) -> bool {
        ||| self == RadarModel::DRS4DNXT
        ||| self == RadarModel::DRS6ANXT
        ||| self == RadarModel::DRS12ANXT
        ||| self == RadarModel::DRS25ANXT
    }

    /// Whether the model belongs to the DRS-NXT family.
    pub fn is_nxt(&self) -> (r: bool)
        ensures
            r == self.nxt(),
    {
        matches!(
            *self,
            RadarModel::DRS4DNXT
                | RadarModel::DRS6ANXT
                | RadarModel::DRS12ANXT
                | RadarModel::DRS25ANXT
        )
    }
}

/// Mode character of a command line.
#[derive(Clone, Copy, Debug, PartialEq, Eq, Structural)]
pub enum CommandMode {
    /// Write a control value.
    Write,
    /// Read a control value.
    Request,
    /// Notification by the radar.
    New,
    /// Reserved.
    X,
    /// Reserved.
    E,
    /// Reserved.
    O,
}

impl CommandMode {
    /// The mode character.
    pub open spec fn letter(self) -> char {
        match self {
            CommandMode::Write => 'S',
            CommandMode::Request => 'R',
            CommandMode::New => 'N',
            CommandMode::X => 'X',
            CommandMode::E => 'E',
            CommandMode::O => 'O',
        }
    }

    /// The mode character.
    pub fn to_char(&self) -> (r: char)
        ensures
            r == self.letter(),
    {
        match self {
            CommandMode::Write => 'S',
            CommandMode::Request => 'R',
            CommandMode::New => 'N',
            CommandMode::X => 'X',
            CommandMode::E => 'E',
            CommandMode::O => 'O',
        }
    }

    /// The mode for the code of a mode character; `New` for any other byte.
    pub open spec fn of_byte(item: u8) -> CommandMode {
        match item {
            0x53 => CommandMode::Write,
            0x52 => CommandMode::Request,
            0x4e => CommandMode::New,
            0x58 => CommandMode::X,
            0x45 => CommandMode::E,
            0x4f => CommandMode::O,
            _ => CommandMode::New,
        }
    }
}

impl From<u8> for CommandMode {
    /// The mode for the code of a mode character.
    fn from(item: u8) -> (r: CommandMode) {
        match item {
            0x53 => CommandMode::Write,
            0x52 => CommandMode::Request,
            0x4e => CommandMode::New,
            0x58 => CommandMode::X,
            0x45 => CommandMode::E,
            0x4f => CommandMode::O,
            _ => CommandMode::New,
        }
    }
}

impl vstd::std_specs::convert::FromSpecImpl<u8> for CommandMode {
    open spec fn obeys_from_spec() -> bool {
        true
    }

    open spec fn from_spec(item: u8) -> CommandMode {
        CommandMode::of_byte(item)
    }
}

/// Opcode of a command line.
#[derive(Clone, Copy, Debug, PartialEq, Eq, Structural)]
pub enum CommandId {
    /// `0x60` — Connection control.
    Connect,
    /// `0x61` — Display mode.
    DispMode,
    /// `0x62` — Range selection: `$S62,<wire_index>,<wire_unit>,<drid>`.
    Range,
    /// `0x63` — Gain control: `$S63,<auto>,<value>,<drid>,<auto_val>,0`.
    Gain,
    /// `0x64` — Sea clutter: `$S64,<auto>,<value>,<auto_val>,<drid>,0,0`.
    Sea,
    /// `0x65` — Rain clutter: `$S65,<mode>,<value>,0,<drid>,0,0`.
    Rain,
    /// `0x66` — Custom picture (requested after every set).
    CustomPictureAll,
    /// `0x67` — Signal processing (multi-purpose): feature 0 = IR, feature 3 = NR.
    SignalProcessing,
    /// `0x68` — Pulse width.
    PulseWidth,
    /// `0x69` — Power status / timed idle (watchman).
    Status,
    /// `0x6D` — Unknown.
    U6D,
    /// `0x6E` — Antenna type (read-only, 7 params).
    AntennaType,
    /// `0x70` — Guard zone alarm status: `$N70,<count>,<status0>,<status1>`.
    GuardStatus,
    /// `0x75` — Tuning: `$S75,<auto>,<value>,<drid>`.
    Tune,
    /// `0x76` — Tune indicator feedback (read-only).
    TuneIndicator,
    /// `0x77` — No-transmit sector (sector blanking).
    BlindSector,
    /// `0x7D` — Radar alarm: `$N7D,<type>,<d1>,<d2>,<d3>`.
    /// Generic across all Furuno models; idle = `$N7D,0,0,0,0`.
    Alarm,
    /// `0x80` — Attenuation.
    Att,
    /// `0x83` — Main bang suppression.
    MainBangSize,
    /// `0x84` — Antenna height.
    AntennaHeight,
    /// `0x85` — Near STC curve.
    NearSTC,
    /// `0x86` — Middle STC curve.
    MiddleSTC,
    /// `0x87` — Far STC curve.
    FarSTC,
    /// `0x88` — Ring suppression.
    RingSuppression,
    /// `0x89` — Scan speed (NXT: 0 = 24 RPM, 2 = Auto).
    ScanSpeed,
    /// `0x8A` — Antenna switch.
    AntennaSwitch,
    /// `0x8D` — Antenna number.
    AntennaNo,
    /// `0x8E` — Operating hours (read-only).
    OnTime,
    /// `0x8F` — Transmit hours (read-only).
    TxTime,
    /// `0x96` — Firmware/model query.
    Modules,
    /// `0x98` — Guard zone mode: `$S98,<mode>,<param>,<zoneIndex>`.
    GuardMode,
    /// `0x99` — Guard zone fan parameters:
    /// `$S99,<zoneNo>,<startAngle>,<endAngle>,<innerRange>,<outerRange>`.
    GuardFan,
    /// `0x9E` — Drift.
    Drift,
    /// `0xA3` — Trail mode.
    TrailMode,
    /// `0xAA` — Conning position.
    ConningPosition,
    /// `0xAC` — Wake-up count.
    WakeUpCount,
    /// `0xAF` — ARPA subsystem alarm/status bitmask: `$NAF,<bits>`.
    ArpaAlarm,
    /// `0xB8` — IMO/Tile echo format switch (NXT only).
    /// `$SB8,1` = request Tile format, `$SB8,0` = request IMO format.
    /// From firmware `rmMakeComImoEchoSwitch` at libNAVNETDLL.so.
    ImoEchoSwitch,
    /// `0xD2` — STC range.
    STCRange,
    /// `0xD3` — Custom memory.
    CustomMemory,
    /// `0xD4` — Build-up time.
    BuildUpTime,
    /// `0xD5` — Display unit information.
    DisplayUnitInformation,
    /// `0xE1` — Trail processing.
    TrailProcess,
    /// `0xE0` — Custom ATF settings.
    CustomATFSettings,
    /// `0xE3` — Alive check (keepalive ping).
    AliveCheck,
    /// `0xE8` — Anti-jamming filter: `$SE8,<value>`. Supported on all Furuno models.
    JammingAble,
    /// `0xEA` — ATF settings (NXT, 6 params).
    ATFSettings,
    /// `0xED` — Bird mode (NXT: 0 = Off, 1 = Low, 2 = Med, 3 = High).
    BirdMode,
    /// `0xEE` — Target Separation / RezBoost (beam sharpening).
    RezBoost,
    /// `0xEF` — Target Analyzer / Doppler mode.
    TargetAnalyzer,
    /// `0xF0` — Auto acquire.
    AutoAcquire,
    /// `0xF5` — NN3 hardware diagnostics (frequent, read-only).
    NN3Command,
    /// `0xFE` — Range select (24-arg form).
    RangeSelect,
}

impl CommandId {
    /// The opcode on the wire.
    pub open spec fn code(self) -> u8 {
        match self {
            CommandId::Connect => 0x60,
            CommandId::DispMode => 0x61,
            CommandId::Range => 0x62,
            CommandId::Gain => 0x63,
            CommandId::Sea => 0x64,
            CommandId::Rain => 0x65,
            CommandId::CustomPictureAll => 0x66,
            CommandId::SignalProcessing => 0x67,
            CommandId::PulseWidth => 0x68,
            CommandId::Status => 0x69,
            CommandId::U6D => 0x6D,
            CommandId::AntennaType => 0x6E,
            CommandId::GuardStatus => 0x70,
            CommandId::Tune => 0x75,
            CommandId::TuneIndicator => 0x76,
            CommandId::BlindSector => 0x77,
            CommandId::Alarm => 0x7D,
            CommandId::Att => 0x80,
            CommandId::MainBangSize => 0x83,
            CommandId::AntennaHeight => 0x84,
            CommandId::NearSTC => 0x85,
            CommandId::MiddleSTC => 0x86,
            CommandId::FarSTC => 0x87,
            CommandId::RingSuppression => 0x88,
            CommandId::ScanSpeed => 0x89,
            CommandId::AntennaSwitch => 0x8A,
            CommandId::AntennaNo => 0x8D,
            CommandId::OnTime => 0x8E,
            CommandId::TxTime => 0x8F,
            CommandId::Modules => 0x96,
            CommandId::GuardMode => 0x98,
            CommandId::GuardFan => 0x99,
            CommandId::Drift => 0x9E,
            CommandId::TrailMode => 0xA3,
            CommandId::ConningPosition => 0xAA,
            CommandId::WakeUpCount => 0xAC,
            CommandId::ArpaAlarm => 0xAF,
            CommandId::ImoEchoSwitch => 0xB8,
            CommandId::STCRange => 0xD2,
            CommandId::CustomMemory => 0xD3,
            CommandId::BuildUpTime => 0xD4,
            CommandId::DisplayUnitInformation => 0xD5,
            CommandId::TrailProcess => 0xE1,
            CommandId::CustomATFSettings => 0xE0,
            CommandId::AliveCheck => 0xE3,
            CommandId::JammingAble => 0xE8,
            CommandId::ATFSettings => 0xEA,
            CommandId::BirdMode => 0xED,
            CommandId::RezBoost => 0xEE,
            CommandId::TargetAnalyzer => 0xEF,
            CommandId::AutoAcquire => 0xF0,
            CommandId::NN3Command => 0xF5,
            CommandId::RangeSelect => 0xFE,
        }
    }

    /// The opcode on the wire.
    pub fn to_u8(self) -> (r: u8)
        ensures
            r == self.code(),
    {
        match self {
            CommandId::Connect => 0x60,
            CommandId::DispMode => 0x61,
            CommandId::Range => 0x62,
            CommandId::Gain => 0x63,
            CommandId::Sea => 0x64,
            CommandId::Rain => 0x65,
            CommandId::CustomPictureAll => 0x66,
            CommandId::SignalProcessing => 0x67,
            CommandId::PulseWidth => 0x68,
            CommandId::Status => 0x69,
            CommandId::U6D => 0x6D,
            CommandId::AntennaType => 0x6E,
            CommandId::GuardStatus => 0x70,
            CommandId::Tune => 0x75,
            CommandId::TuneIndicator => 0x76,
            CommandId::BlindSector => 0x77,
            CommandId::Alarm => 0x7D,
            CommandId::Att => 0x80,
            CommandId::MainBangSize => 0x83,
            CommandId::AntennaHeight => 0x84,
            CommandId::NearSTC => 0x85,
            CommandId::MiddleSTC => 0x86,
            CommandId::FarSTC => 0x87,
            CommandId::RingSuppression => 0x88,
            CommandId::ScanSpeed => 0x89,
            CommandId::AntennaSwitch => 0x8A,
            CommandId::AntennaNo => 0x8D,
            CommandId::OnTime => 0x8E,
            CommandId::TxTime => 0x8F,
            CommandId::Modules => 0x96,
            CommandId::GuardMode => 0x98,
            CommandId::GuardFan => 0x99,
            CommandId::Drift => 0x9E,
            CommandId::TrailMode => 0xA3,
            CommandId::ConningPosition => 0xAA,
            CommandId::WakeUpCount => 0xAC,
            CommandId::ArpaAlarm => 0xAF,
            CommandId::ImoEchoSwitch => 0xB8,
            CommandId::STCRange => 0xD2,
            CommandId::CustomMemory => 0xD3,
            CommandId::BuildUpTime => 0xD4,
            CommandId::DisplayUnitInformation => 0xD5,
            CommandId::TrailProcess => 0xE1,
            CommandId::CustomATFSettings => 0xE0,
            CommandId::AliveCheck => 0xE3,
            CommandId::JammingAble => 0xE8,
            CommandId::ATFSettings => 0xEA,
            CommandId::BirdMode => 0xED,
            CommandId::RezBoost => 0xEE,
            CommandId::TargetAnalyzer => 0xEF,
            CommandId::AutoAcquire => 0xF0,
            CommandId::NN3Command => 0xF5,
            CommandId::RangeSelect => 0xFE,
        }
    }

    /// The command for an opcode on the wire.
    pub fn from_u8(code: u8) -> (r: Option<CommandId>)
        ensures
            r matches Some(c) ==> c.code() == code,
            r is None ==> forall|c: CommandId| #[trigger] c.code() != code,
    {
        match code {
            0x60 => Some(CommandId::Connect),
            0x61 => Some(CommandId::DispMode),
            0x62 => Some(CommandId::Range),
            0x63 => Some(CommandId::Gain),
            0x64 => Some(CommandId::Sea),
            0x65 => Some(CommandId::Rain),
            0x66 => Some(CommandId::CustomPictureAll),
            0x67 => Some(CommandId::SignalProcessing),
            0x68 => Some(CommandId::PulseWidth),
            0x69 => Some(CommandId::Status),
            0x6D => Some(CommandId::U6D),
            0x6E => Some(CommandId::AntennaType),
            0x70 => Some(CommandId::GuardStatus),
            0x75 => Some(CommandId::Tune),
            0x76 => Some(CommandId::TuneIndicator),
            0x77 => Some(CommandId::BlindSector),
            0x7D => Some(CommandId::Alarm),
            0x80 => Some(CommandId::Att),
            0x83 => Some(CommandId::MainBangSize),
            0x84 => Some(CommandId::AntennaHeight),
            0x85 => Some(CommandId::NearSTC),
            0x86 => Some(CommandId::MiddleSTC),
            0x87 => Some(CommandId::FarSTC),
            0x88 => Some(CommandId::RingSuppression),
            0x89 => Some(CommandId::ScanSpeed),
            0x8A => Some(CommandId::AntennaSwitch),
            0x8D => Some(CommandId::AntennaNo),
            0x8E => Some(CommandId::OnTime),
            0x8F => Some(CommandId::TxTime),
            0x96 => Some(CommandId::Modules),
            0x98 => Some(CommandId::GuardMode),
            0x99 => Some(CommandId::GuardFan),
            0x9E => Some(CommandId::Drift),
            0xA3 => Some(CommandId::TrailMode),
            0xAA => Some(CommandId::ConningPosition),
            0xAC => Some(CommandId::WakeUpCount),
            0xAF => Some(CommandId::ArpaAlarm),
            0xB8 => Some(CommandId::ImoEchoSwitch),
            0xD2 => Some(CommandId::STCRange),
            0xD3 => Some(CommandId::CustomMemory),
            0xD4 => Some(CommandId::BuildUpTime),
            0xD5 => Some(CommandId::DisplayUnitInformation),
            0xE1 => Some(CommandId::TrailProcess),
            0xE0 => Some(CommandId::CustomATFSettings),
            0xE3 => Some(CommandId::AliveCheck),
            0xE8 => Some(CommandId::JammingAble),
            0xEA => Some(CommandId::ATFSettings),
            0xED => Some(CommandId::BirdMode),
            0xEE => Some(CommandId::RezBoost),
            0xEF => Some(CommandId::TargetAnalyzer),
            0xF0 => Some(CommandId::AutoAcquire),
            0xF5 => Some(CommandId::NN3Command),
            0xFE => Some(CommandId::RangeSelect),
            _ => None,
        }
    }
}

/// No two commands share an opcode.
pub proof fn law_opcodes_distinct(a: CommandId, b: CommandId)
    requires
        a.code() == b.code(),
    ensures
        a == b,
{
}

/// Reading the code of a mode character gives the mode back.
pub proof fn law_mode_letters(mode: CommandMode)
    ensures
        CommandMode::of_byte(mode.letter() as u8) == mode,
{
}

/// Wire unit of nautical miles.
pub const WIRE_UNIT_NM: i32 = 0;

/// Wire unit of kilometres.
pub const WIRE_UNIT_KM: i32 = 1;

/// Wire index and distance in meters of each nautical range slot.
pub const WIRE_INDEX_TABLE: [(i32, i32); 22] = [
    (21, 116),    // 1/16 nm
    (0, 231),     // 1/8 nm
    (1, 463),     // 1/4 nm
    (2, 926),     // 1/2 nm
    (3, 1389),    // 3/4 nm
    (4, 1852),    // 1 nm
    (5, 2778),    // 1.5 nm
    (6, 3704),    // 2 nm
    (7, 5556),    // 3 nm
    (8, 7408),    // 4 nm
    (9, 11112),   // 6 nm
    (10, 14816),  // 8 nm
    (11, 22224),  // 12 nm
    (12, 29632),  // 16 nm
    (13, 44448),  // 24 nm
    (14, 59264),  // 32 nm
    (19, 66672),  // 36 nm
    (15, 88896),  // 48 nm
    (20, 118528), // 64 nm
    (16, 133344), // 72 nm
    (17, 177792), // 96 nm
    (18, 222240), // 120 nm
];

/// Wire index and distance in meters of each metric range slot. The nearest
/// nautical slot has no metric counterpart.
pub const WIRE_INDEX_TABLE_KM: [(i32, i32); 21] = [
    (0, 125),     // 0.125 km
    (1, 250),     // 0.25 km
    (2, 500),     // 0.5 km
    (3, 750),     // 0.75 km
    (4, 1000),    // 1 km
    (5, 1500),    // 1.5 km
    (6, 2000),    // 2 km
    (7, 3000),    // 3 km
    (8, 4000),    // 4 km
    (9, 6000),    // 6 km
    (10, 8000),   // 8 km
    (11, 12000),  // 12 km
    (12, 16000),  // 16 km
    (13, 24000),  // 24 km
    (14, 32000),  // 32 km
    (19, 36000),  // 36 km
    (15, 48000),  // 48 km
    (20, 64000),  // 64 km
    (16, 72000),  // 72 km
    (17, 96000),  // 96 km
    (18, 120000), // 120 km
];

/// The distance between two positions.
pub open spec fn gap(a: int, b: int) -> int {
    if a >= b { a - b } else { b - a }
}

/// Whether slot `i` is the first of those nearest to `meters`.
pub open spec fn nearest_slot(table: Seq<(i32, i32)>, meters: i32, i: int) -> bool {
    &&& 0 <= i < table.len()
    &&& forall|j: int|
        0 <= j < table.len() ==> gap(table[i].1 as int, meters as int) <= gap(
            (#[trigger] table[j]).1 as int,
            meters as int,
        )
    &&& forall|j: int|
        0 <= j < i ==> gap(table[i].1 as int, meters as int) < gap(
            (#[trigger] table[j]).1 as int,
            meters as int,
        )
}

/// Whether `index` is the wire index of the slot nearest to `meters`; the first
/// such slot counts, and an empty table stands for wire index 15.
pub open spec fn nearest_index(table: Seq<(i32, i32)>, meters: i32, index: i32) -> bool {
    if table.len() == 0 {
        index == 15
    } else {
        exists|i: int| #[trigger] nearest_slot(table, meters, i) && table[i].0 == index
    }
}

/// The range slots of a wire unit.
pub open spec fn slots(wire_unit: i32) -> Seq<(i32, i32)> {
    if wire_unit == WIRE_UNIT_KM {
        WIRE_INDEX_TABLE_KM@
    } else {
        WIRE_INDEX_TABLE@
    }
}

/// Whether some slot of the table has this distance.
pub open spec fn has_distance(table: Seq<(i32, i32)>, meters: i32) -> bool {
    exists|i: int| 0 <= i < table.len() && (#[trigger] table[i]).1 == meters
}

/// The distance of the slot with this wire index.
pub open spec fn distance_of(table: Seq<(i32, i32)>, index: i32, r: Option<i32>) -> bool {
    match r {
        Some(m) => table.contains((index, m)),
        None => forall|i: int| 0 <= i < table.len() ==> (#[trigger] table[i]).0 != index,
    }
}

/// The distance of the slot with this wire index, if there is one.
pub open spec fn slot_meters(table: Seq<(i32, i32)>, index: i32) -> Option<i32> {
    if exists|i: int| 0 <= i < table.len() && (#[trigger] table[i]).0 == index {
        Some(table[choose|i: int| 0 <= i < table.len() && (#[trigger] table[i]).0 == index].1)
    } else {
        None
    }
}

/// The wire unit that a distance is set in: kilometres where a metric slot has
/// exactly this distance, nautical miles otherwise.
pub open spec fn unit_for(meters: i32) -> i32 {
    if has_distance(WIRE_INDEX_TABLE_KM@, meters) { WIRE_UNIT_KM } else { WIRE_UNIT_NM }
}

fn lookup_wire_index(table: &[(i32, i32)], meters: i32) -> (r: i32)
    ensures
        nearest_index(table@, meters, r),
{
    if table.len() == 0 {
        return 15;
    }
    let mut best: usize = 0;
    let mut i: usize = 1;
    while i < table.len()
        invariant
            1 <= i <= table@.len(),
            nearest_slot(table@.take(i as int), meters, best as int),
        decreases table@.len() - i,
    {
        let ghost seen = table@.take(i as int);
        let ghost more = table@.take(i + 1);
        assert(forall|j: int| 0 <= j < i ==> more[j] == seen[j]);
        if distance_between(table[i].1, meters) < distance_between(table[best].1, meters) {
            best = i;
        }
        i += 1;
    }
    assert(table@.take(i as int) =~= table@);
    assert(nearest_slot(table@, meters, best as int));
    table[best].0
}

fn distance_between(a: i32, b: i32) -> (r: i64)
    ensures
        r == gap(a as int, b as int),
{
    if a >= b {
        a as i64 - b as i64
    } else {
        b as i64 - a as i64
    }
}

fn find_wire_index(table: &[(i32, i32)], wire_index: i32) -> (r: Option<i32>)
    ensures
        distance_of(table@, wire_index, r),
{
    let mut i: usize = 0;
    while i < table.len()
        invariant
            i <= table@.len(),
            forall|j: int| 0 <= j < i ==> (#[trigger] table@[j]).0 != wire_index,
        decreases table@.len() - i,
    {
        if table[i].0 == wire_index {
            assert(table@[i as int] == (wire_index, table@[i as int].1));
            return Some(table[i].1);
        }
        i += 1;
    }
    None
}

/// The wire index of the nautical slot nearest to a distance.
pub fn meters_to_wire_index(meters: i32) -> (r: i32)
    ensures
        nearest_index(WIRE_INDEX_TABLE@, meters, r),
{
    lookup_wire_index(&WIRE_INDEX_TABLE, meters)
}

/// The wire index of the metric slot nearest to a distance.
pub fn meters_to_wire_index_km(meters: i32) -> (r: i32)
    ensures
        nearest_index(WIRE_INDEX_TABLE_KM@, meters, r),
{
    lookup_wire_index(&WIRE_INDEX_TABLE_KM, meters)
}

/// The wire index of the slot nearest to a distance, in a wire unit. Any unit
/// but kilometres counts as nautical.
pub fn meters_to_wire_index_for_unit(meters: i32, wire_unit: i32) -> (r: i32)
    ensures
        nearest_index(slots(wire_unit), meters, r),
{
    if wire_unit == WIRE_UNIT_KM {
        meters_to_wire_index_km(meters)
    } else {
        meters_to_wire_index(meters)
    }
}

/// The distance of a nautical slot.
pub fn wire_index_to_meters(wire_index: i32) -> (r: Option<i32>)
    ensures
        distance_of(WIRE_INDEX_TABLE@, wire_index, r),
{
    find_wire_index(&WIRE_INDEX_TABLE, wire_index)
}

/// The distance of a metric slot.
pub fn wire_index_to_meters_km(wire_index: i32) -> (r: Option<i32>)
    ensures
        distance_of(WIRE_INDEX_TABLE_KM@, wire_index, r),
{
    find_wire_index(&WIRE_INDEX_TABLE_KM, wire_index)
}

/// The distance of a slot, in a wire unit.
pub fn wire_index_to_meters_for_unit(wire_index: i32, wire_unit: i32) -> (r: Option<i32>)
    ensures
        distance_of(slots(wire_unit), wire_index, r),
{
    if wire_unit == WIRE_UNIT_KM {
        wire_index_to_meters_km(wire_index)
    } else {
        wire_index_to_meters(wire_index)
    }
}

/// The wire unit that a distance is set in.
pub fn wire_unit_for_meters(meters: i32) -> (r: i32)
    ensures
        r == unit_for(meters),
{
    let table: &[(i32, i32)] = &WIRE_INDEX_TABLE_KM;
    let mut i: usize = 0;
    while i < table.len()
        invariant
            table@ == WIRE_INDEX_TABLE_KM@,
            i <= table@.len(),
            forall|j: int| 0 <= j < i ==> (#[trigger] table@[j]).1 != meters,
        decreases table@.len() - i,
    {
        if table[i].1 == meters {
            return WIRE_UNIT_KM;
        }
        i += 1;
    }
    WIRE_UNIT_NM
}

/// Whether no wire index and no distance occurs twice.
pub open spec fn distinct_slots(table: Seq<(i32, i32)>) -> bool {
    forall|i: int, j: int|
        0 <= i < j < table.len() ==> (#[trigger] table[i]).0 != (#[trigger] table[j]).0
            && table[i].1 != table[j].1
}

/// In either unit every slot has a wire index and a distance of its own.
pub proof fn law_slots_distinct(wire_unit: i32)
    ensures
        distinct_slots(slots(wire_unit)),
{
}

/// The wire index nearest to a distance is unique.
pub proof fn law_nearest_index_unique(wire_unit: i32, meters: i32, a: i32, b: i32)
    requires
        nearest_index(slots(wire_unit), meters, a),
        nearest_index(slots(wire_unit), meters, b),
    ensures
        a == b,
{
    let table = slots(wire_unit);
    let i = choose|i: int| #[trigger] nearest_slot(table, meters, i) && table[i].0 == a;
    let j = choose|j: int| #[trigger] nearest_slot(table, meters, j) && table[j].0 == b;
    assert(i == j);
}

/// The distance of a wire index is unique.
pub proof fn law_distance_unique(wire_unit: i32, index: i32, a: Option<i32>, b: Option<i32>)
    requires
        distance_of(slots(wire_unit), index, a),
        distance_of(slots(wire_unit), index, b),
    ensures
        a == b,
{
    law_slots_distinct(wire_unit);
    let table = slots(wire_unit);
    if a is Some {
        let i = choose|i: int| 0 <= i < table.len() && table[i] == (index, a->0);
        assert(table[i].0 == index);
        if b is Some {
            let j = choose|j: int| 0 <= j < table.len() && table[j] == (index, b->0);
            assert(table[j].0 == index);
        }
    } else if b is Some {
        let j = choose|j: int| 0 <= j < table.len() && table[j] == (index, b->0);
        assert(table[j].0 == index);
    }
}

/// The distance of a wire index, and that it is positive.
pub proof fn lemma_slot_meters(wire_unit: i32, index: i32, r: Option<i32>)
    requires
        distance_of(slots(wire_unit), index, r),
    ensures
        r == slot_meters(slots(wire_unit), index),
        r matches Some(m) ==> m > 0,
{
    law_slots_distinct(wire_unit);
    let table = slots(wire_unit);
    if r is Some {
        let i = choose|i: int| 0 <= i < table.len() && table[i] == (index, r->0);
        assert(table[i].0 == index);
        assert(table[i].1 > 0);
    }
}

/// Asking for the distance of a slot selects that slot: the wire index nearest
/// to the distance of wire index `index` is `index`.
pub proof fn law_wire_index_round_trip(wire_unit: i32, index: i32, meters: i32)
    requires
        distance_of(slots(wire_unit), index, Some(meters)),
    ensures
        nearest_index(slots(wire_unit), meters, index),
{
    law_slots_distinct(wire_unit);
    let table = slots(wire_unit);
    let i = choose|i: int| 0 <= i < table.len() && table[i] == (index, meters);
    assert(nearest_slot(table, meters, i));
}

/// A distance of either table survives the way to the radar and back: in the
/// unit that it is set in, the slot nearest to it has exactly this distance.
pub proof fn law_supported_distance_round_trip(meters: i32, index: i32)
    requires
        has_distance(WIRE_INDEX_TABLE@, meters) || has_distance(WIRE_INDEX_TABLE_KM@, meters),
        nearest_index(slots(unit_for(meters)), meters, index),
    ensures
        distance_of(slots(unit_for(meters)), index, Some(meters)),
{
    let table = slots(unit_for(meters));
    assert(has_distance(table, meters));
    let i = choose|i: int| 0 <= i < table.len() && (#[trigger] table[i]).1 == meters;
    let k = choose|k: int| #[trigger] nearest_slot(table, meters, k) && table[k].0 == index;
    assert(gap(table[i].1 as int, meters as int) == 0);
    assert(table[k].1 == meters);
    assert(table[k] == (index, meters));
}

/// First byte of a spoke frame.
pub const FRAME_MAGIC: u8 = 0x02;

/// Length of the spoke frame header.
pub const FRAME_HEADER_LEN: usize = 16;

/// Repeat count that a zero count stands for in encodings 1 and 2.
pub const ENCODING_1_REPEAT_DEFAULT: usize = 0x80;

/// Repeat count that a zero count stands for in encoding 3.
pub const ENCODING_3_REPEAT_DEFAULT: usize = 0x40;

/// Gain applied to the echoes of low-power radars.
pub const ECHO_GAIN_LOW_POWER: u8 = 2;

/// Gain applied to the echoes of all other radars.
pub const ECHO_GAIN_DEFAULT: u8 = 1;

/// A wire index stands for as many nautical miles in one unit as for kilometres in the
/// other, up to rounding to whole meters.
pub proof fn law_units_run_parallel(i: int, j: int)
    requires
        0 <= i < WIRE_INDEX_TABLE@.len(),
        0 <= j < WIRE_INDEX_TABLE_KM@.len(),
        WIRE_INDEX_TABLE@[i].0 == WIRE_INDEX_TABLE_KM@[j].0,
    ensures
        -1000 < 1000 * WIRE_INDEX_TABLE@[i].1 - 1852 * WIRE_INDEX_TABLE_KM@[j].1 < 1000,
{
}

/// The slots are listed nearest first.
pub proof fn law_slots_increase(wire_unit: i32, i: int, j: int)
    requires
        0 <= i < j < slots(wire_unit).len(),
    ensures
        slots(wire_unit)[i].1 < slots(wire_unit)[j].1,
    decreases j - i,
{
    let t = slots(wire_unit);
    assert(t[j - 1].1 < t[j].1);
    if i + 1 < j {
        law_slots_increase(wire_unit, i, j - 1);
    }
}

proof fn lemma_nearest_slot_exists(table: Seq<(i32, i32)>, meters: i32, n: int) -> (r: int)
    requires
        0 < n <= table.len(),
    ensures
        nearest_slot(table.take(n), meters, r),
    decreases n,
{
    if n == 1 {
        0
    } else {
        let before = lemma_nearest_slot_exists(table, meters, n - 1);
        let t = table.take(n);
        let u = table.take(n - 1);
        assert forall|j: int| 0 <= j < n - 1 implies #[trigger] t[j] == u[j] by {}
        if gap(t[n - 1].1 as int, meters as int) < gap(t[before].1 as int, meters as int) {
            n - 1
        } else {
            before
        }
    }
}

/// Every distance has a nearest slot.
pub proof fn lemma_nearest_index_exists(wire_unit: i32, meters: i32)
    ensures
        exists|index: i32| #[trigger] nearest_index(slots(wire_unit), meters, index),
{
    let table = slots(wire_unit);
    let i = lemma_nearest_slot_exists(table, meters, table.len() as int);
    assert(table.take(table.len() as int) =~= table);
    assert(nearest_index(table, meters, table[i].0));
}

/// The commands by their opcodes on the wire.
pub proof fn law_opcodes(c: CommandId)
    ensures
        c == CommandId::Connect <==> c.code() == 0x60,
        c == CommandId::DispMode <==> c.code() == 0x61,
        c == CommandId::Range <==> c.code() == 0x62,
        c == CommandId::Gain <==> c.code() == 0x63,
        c == CommandId::Sea <==> c.code() == 0x64,
        c == CommandId::Rain <==> c.code() == 0x65,
        c == CommandId::CustomPictureAll <==> c.code() == 0x66,
        c == CommandId::SignalProcessing <==> c.code() == 0x67,
        c == CommandId::PulseWidth <==> c.code() == 0x68,
        c == CommandId::Status <==> c.code() == 0x69,
        c == CommandId::U6D <==> c.code() == 0x6D,
        c == CommandId::AntennaType <==> c.code() == 0x6E,
        c == CommandId::GuardStatus <==> c.code() == 0x70,
        c == CommandId::Tune <==> c.code() == 0x75,
        c == CommandId::TuneIndicator <==> c.code() == 0x76,
        c == CommandId::BlindSector <==> c.code() == 0x77,
        c == CommandId::Alarm <==> c.code() == 0x7D,
        c == CommandId::Att <==> c.code() == 0x80,
        c == CommandId::MainBangSize <==> c.code() == 0x83,
        c == CommandId::AntennaHeight <==> c.code() == 0x84,
        c == CommandId::NearSTC <==> c.code() == 0x85,
        c == CommandId::MiddleSTC <==> c.code() == 0x86,
        c == CommandId::FarSTC <==> c.code() == 0x87,
        c == CommandId::RingSuppression <==> c.code() == 0x88,
        c == CommandId::ScanSpeed <==> c.code() == 0x89,
        c == CommandId::AntennaSwitch <==> c.code() == 0x8A,
        c == CommandId::AntennaNo <==> c.code() == 0x8D,
        c == CommandId::OnTime <==> c.code() == 0x8E,
        c == CommandId::TxTime <==> c.code() == 0x8F,
        c == CommandId::Modules <==> c.code() == 0x96,
        c == CommandId::GuardMode <==> c.code() == 0x98,
        c == CommandId::GuardFan <==> c.code() == 0x99,
        c == CommandId::Drift <==> c.code() == 0x9E,
        c == CommandId::TrailMode <==> c.code() == 0xA3,
        c == CommandId::ConningPosition <==> c.code() == 0xAA,
        c == CommandId::WakeUpCount <==> c.code() == 0xAC,
        c == CommandId::ArpaAlarm <==> c.code() == 0xAF,
        c == CommandId::ImoEchoSwitch <==> c.code() == 0xB8,
        c == CommandId::STCRange <==> c.code() == 0xD2,
        c == CommandId::CustomMemory <==> c.code() == 0xD3,
        c == CommandId::BuildUpTime <==> c.code() == 0xD4,
        c == CommandId::DisplayUnitInformation <==> c.code() == 0xD5,
        c == CommandId::TrailProcess <==> c.code() == 0xE1,
        c == CommandId::CustomATFSettings <==> c.code() == 0xE0,
        c == CommandId::AliveCheck <==> c.code() == 0xE3,
        c == CommandId::JammingAble <==> c.code() == 0xE8,
        c == CommandId::ATFSettings <==> c.code() == 0xEA,
        c == CommandId::BirdMode <==> c.code() == 0xED,
        c == CommandId::RezBoost <==> c.code() == 0xEE,
        c == CommandId::TargetAnalyzer <==> c.code() == 0xEF,
        c == CommandId::AutoAcquire <==> c.code() == 0xF0,
        c == CommandId::NN3Command <==> c.code() == 0xF5,
        c == CommandId::RangeSelect <==> c.code() == 0xFE,
{
}

/// The models by the firmware part numbers that they carry: a number stands for one model,
/// and all others stand for none.
pub proof fn law_part_numbers(part: Seq<char>)
    ensures
        RadarModel::of_part_number("0359235"@) == RadarModel::DRS,
        RadarModel::of_part_number("0359255"@) == RadarModel::FAR14x7,
        RadarModel::of_part_number("0359204"@) == RadarModel::FAR21x7,
        RadarModel::of_part_number("0359321"@) == RadarModel::FAR14x7,
        RadarModel::of_part_number("0359338"@) == RadarModel::DRS4DL,
        RadarModel::of_part_number("0359367"@) == RadarModel::DRS4DL,
        RadarModel::of_part_number("0359281"@) == RadarModel::FAR3000,
        RadarModel::of_part_number("0359286"@) == RadarModel::FAR3000,
        RadarModel::of_part_number("0359477"@) == RadarModel::FAR3000,
        RadarModel::of_part_number("0359360"@) == RadarModel::DRS4DNXT,
        RadarModel::of_part_number("0359421"@) == RadarModel::DRS6ANXT,
        RadarModel::of_part_number("0359329"@) == RadarModel::DRS4W,
        RadarModel::of_part_number("0359355"@) == RadarModel::DRS6AXCLASS,
        RadarModel::of_part_number("0359344"@) == RadarModel::FAR15x3,
        RadarModel::of_part_number("0359397"@) == RadarModel::FAR14x6,
        RadarModel::of_part_number("0359560"@) == RadarModel::FAR21x7,
        part.len() != 7 ==> RadarModel::of_part_number(part) == RadarModel::Unknown,
        part.len() >= 4 && part[3] != '9' ==> RadarModel::of_part_number(part)
            == RadarModel::Unknown,
{
    reveal_strlit("0359235");
    reveal_strlit("0359255");
    reveal_strlit("0359204");
    reveal_strlit("0359321");
    reveal_strlit("0359338");
    reveal_strlit("0359367");
    reveal_strlit("0359281");
    reveal_strlit("0359286");
    reveal_strlit("0359477");
    reveal_strlit("0359360");
    reveal_strlit("0359421");
    reveal_strlit("0359329");
    reveal_strlit("0359355");
    reveal_strlit("0359344");
    reveal_strlit("0359397");
    reveal_strlit("0359560");
    let key = |s: Seq<char>| (s[4], s[5], s[6]);
    assert(key("0359235"@) == ('2', '3', '5') && "0359235"@[3] == '9');
    assert(key("0359255"@) == ('2', '5', '5') && "0359255"@[3] == '9');
    assert(key("0359204"@) == ('2', '0', '4') && "0359204"@[3] == '9');
    assert(key("0359321"@) == ('3', '2', '1') && "0359321"@[3] == '9');
    assert(key("0359338"@) == ('3', '3', '8') && "0359338"@[3] == '9');
    assert(key("0359367"@) == ('3', '6', '7') && "0359367"@[3] == '9');
    assert(key("0359281"@) == ('2', '8', '1') && "0359281"@[3] == '9');
    assert(key("0359286"@) == ('2', '8', '6') && "0359286"@[3] == '9');
    assert(key("0359477"@) == ('4', '7', '7') && "0359477"@[3] == '9');
    assert(key("0359360"@) == ('3', '6', '0') && "0359360"@[3] == '9');
    assert(key("0359421"@) == ('4', '2', '1') && "0359421"@[3] == '9');
    assert(key("0359329"@) == ('3', '2', '9') && "0359329"@[3] == '9');
    assert(key("0359355"@) == ('3', '5', '5') && "0359355"@[3] == '9');
    assert(key("0359344"@) == ('3', '4', '4') && "0359344"@[3] == '9');
    assert(key("0359397"@) == ('3', '9', '7') && "0359397"@[3] == '9');
    assert(key("0359560"@) == ('5', '6', '0') && "0359560"@[3] == '9');
}

/// A radar of the NXT family is recognised by its name, with the hyphen and without it.
pub proof fn law_nxt_names(name: Seq<char>)
    ensures
        ({
            let m = RadarModel::of_model_name(name);
            let has = |a: Seq<char>, b: Seq<char>|
                text::contains_text(name, a) || text::contains_text(name, b);
            &&& m == RadarModel::DRS4DNXT <==> has("DRS4D-NXT"@, "DRS4DNXT"@)
            &&& m == RadarModel::DRS6ANXT ==> has("DRS6A-NXT"@, "DRS6ANXT"@)
            &&& m == RadarModel::DRS12ANXT ==> has("DRS12A-NXT"@, "DRS12ANXT"@)
            &&& m == RadarModel::DRS25ANXT ==> has("DRS25A-NXT"@, "DRS25ANXT"@)
            &&& m.nxt() <==> has("DRS4D-NXT"@, "DRS4DNXT"@) || has("DRS6A-NXT"@, "DRS6ANXT"@) || has(
                "DRS12A-NXT"@,
                "DRS12ANXT"@,
            ) || has("DRS25A-NXT"@, "DRS25ANXT"@)
        }),
{
}

/// A name without a part of the NXT family is that of an older radar, by what it holds.
pub proof fn law_older_names(name: Seq<char>)
    requires
        !RadarModel::of_model_name(name).nxt(),
    ensures
        ({
            let m = RadarModel::of_model_name(name);
            let class = text::contains_text(name, "DRS6A"@) && text::contains_text(name, "CLASS"@);
            let w = text::contains_text(name, "DRS4W"@);
            let dl = text::contains_text(name, "DRS4DL"@);
            let drs = text::begins_with(name, "DRS"@);
            let commercial = !class && !w && !dl && !drs;
            let far21 = text::contains_text(name, "FAR-21"@) || text::contains_text(name, "FAR21"@);
            let far14 = text::contains_text(name, "FAR-14"@);
            let far15 = text::contains_text(name, "FAR-15"@) || text::contains_text(name, "FAR15"@);
            let far3 = text::contains_text(name, "FAR-3"@) || text::contains_text(name, "FAR3"@);
            let seven = text::contains_text(name, "7"@);
            let six = text::contains_text(name, "6"@);
            &&& class <==> m == RadarModel::DRS6AXCLASS
            &&& !class && w <==> m == RadarModel::DRS4W
            &&& !class && !w && dl <==> m == RadarModel::DRS4DL
            &&& !class && !w && !dl && drs <==> m == RadarModel::DRS
            &&& commercial && far21 <==> m == RadarModel::FAR21x7
            &&& commercial && !far21 && far14 && seven <==> m == RadarModel::FAR14x7
            &&& commercial && !far21 && far14 && !seven && six <==> m == RadarModel::FAR14x6
            &&& commercial && !far21 && !far14 && far15 <==> m == RadarModel::FAR15x3 && !far14
            &&& commercial && !far21 && !far14 && !far15 && far3 <==> m == RadarModel::FAR3000
                && !far14
        }),
{
}

/// A wire index has a distance where a slot has that index, and no distance where none has.
pub proof fn law_slots_have_distances(table: Seq<(i32, i32)>, i: int, index: i32)
    ensures
        0 <= i < table.len() ==> distance_of(table, table[i].0, Some(table[i].1)) && !distance_of(
            table,
            table[i].0,
            None,
        ),
        (forall|k: int| 0 <= k < table.len() ==> (#[trigger] table[k]).0 != index) ==> distance_of(
            table,
            index,
            None,
        ),
{
    if 0 <= i < table.len() {
        assert(table[i] == (table[i].0, table[i].1));
    }
}

} // verus!
