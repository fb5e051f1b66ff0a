//! Garmin Marine Network messages.
//!
//! Legacy HD radars use message ids from `0x02a3` on, enhanced radars (xHD and
//! later) ids from `0x0911` on. A packet is the message id, the length of the
//! payload, both as 32-bit words, and the payload.

use vstd::prelude::*;

use crate::radar::ControlId;

verus! {

/// UDP port for the CDM heartbeat group (`0xC382`).
pub const CDM_HEARTBEAT_PORT: u16 = 50050;

/// UDP port for the radar settings/status report stream (`0xC3B4`).
pub const REPORT_PORT: u16 = 50100;

/// UDP port for unicast control commands sent from the MFD to the radar (`0xC3B5`).
pub const COMMAND_PORT: u16 = 50101;

/// UDP port for the spoke (sweep) data stream (`0xC3B6`).
pub const DATA_PORT: u16 = 50102;

/// Length of the GMN packet header in bytes.
pub const GMN_HEADER_LEN: usize = 8;

/// HD radars use 720 spokes per revolution (half a degree each).
pub const HD_SPOKES_PER_REVOLUTION: usize = 720;

/// HD radars pack 1-bit binary samples, up to 2016 samples per spoke (252 bytes x 8 bits).
pub const HD_MAX_SPOKE_LEN: usize = 2016;

/// HD spoke packet header is 52 bytes; samples follow at offset +52.
pub const HD_SPOKE_HEADER_SIZE: usize = 52;

/// HD packs 4 spokes per UDP packet (the spoke index is `angle*2 + i` for `i in 0..4`).
pub const HD_SPOKES_PER_PACKET: usize = 4;

/// HD has 1-bit binary data, expanded to 0 or 255 by the unpacker.
pub const HD_PIXEL_VALUES: u8 = 2;

/// Enhanced-protocol radars use 1440 spokes per revolution (a quarter of a degree each).
pub const SPOKES_PER_REVOLUTION: usize = 1440;

/// Enhanced-protocol radars use 8-bit grayscale samples, up to about 705 samples per spoke.
pub const MAX_SPOKE_LEN: usize = 705;

/// Enhanced spoke packet header is 36 bytes; samples follow at offset +36.
pub const SPOKE_HEADER_SIZE: usize = 36;

/// Wire offset of the range indicator byte in the spoke header.
pub const SPOKE_RANGE_INDICATOR_OFFSET: usize = 24;

/// Enhanced protocol encodes spoke angles in 1/8 degree units, so the wire angle ranges `0..11520` (= 1440 x 8).
pub const ANGLE_UNITS_PER_SPOKE: u16 = 8;

/// Enhanced 8-bit samples are halved to make room for legend / marker pixels in the rendered output.
pub const PIXEL_VALUES: u8 = 128;

/// First sample byte value in the Fantom MotionScope "approaching" band.
pub const DOPPLER_APPROACHING_START: u8 = 0xF0;

/// First sample byte value in the "receding" band (0xF8-0xFF, 248-255).
pub const DOPPLER_RECEDING_START: u8 = 0xF8;

/// Number of intensity sub-levels per Doppler direction on the wire (8), and per direction in the legend after the /2 halving (4).
pub const DOPPLER_LEVELS_PER_DIRECTION: u8 = 4;

/// Most enhanced-protocol angle fields (bearing alignment, no-TX zone start/stop, park position) are encoded as `int32 LE` in degrees x 32.
pub const DEGREE_SCALE: i32 = 32;

/// Enhanced-protocol gain, sea, and rain levels are reported and accepted as `uint16 LE` in `0..=10000`, percent times 100.
pub const GAIN_SCALE: u16 = 100;

/// CDM "V2 heartbeat" announcement.
pub const MSG_CDM_HEARTBEAT: u32 = 0x038e;

/// Offset (within the heartbeat payload, after the 8-byte GMN header) of the `version_marker` byte.
pub const CDM_OFFSET_VERSION_MARKER: usize = 0;

/// Offset of the `product_id` u16 within the heartbeat payload.
pub const CDM_OFFSET_PRODUCT_ID: usize = 2;

/// Offset of the `simulator_mode` byte within the heartbeat payload.
pub const CDM_OFFSET_SIMULATOR_MODE: usize = 4;

/// Offset of the `product_subtype` byte within the heartbeat payload.
pub const CDM_OFFSET_PRODUCT_SUBTYPE: usize = 5;

/// HD spoke data (short form), 4 spokes packed per packet.
pub const MSG_HD_SPOKE: u32 = 0x02a3;

/// HD AFC status update.
pub const MSG_HD_AFC_STATUS: u32 = 0x02a4;

/// HD radar state (state code, warmup countdown, range, gain, sea/rain clutter, bearing, crosstalk, scan speed).
pub const MSG_HD_STATE: u32 = 0x02a5;

/// HD scanner identification / version packet.
pub const MSG_HD_SCANNER_ID: u32 = 0x02a6;

/// HD composite settings report (about 88 bytes).
pub const MSG_HD_SETTINGS: u32 = 0x02a7;

/// HD cumulative transmit time (seconds).
pub const MSG_HD_TRANSMIT_TIME: u32 = 0x02aa;

/// HD rotation speed (RPM x 100).
pub const MSG_HD_ROTATION_SPEED: u32 = 0x02ab;

/// HD system temperature (raw x 25).
pub const MSG_HD_SYSTEM_TEMP: u32 = 0x02ac;

/// HD antenna size report.
pub const MSG_HD_ANTENNA_SIZE: u32 = 0x02ad;

/// HD capability report (determines whether the radar uses 720/1-bit or 1440/8-bit spoke data).
pub const MSG_HD_CAPABILITY: u32 = 0x02ae;

/// Set transmit mode.
pub const CMD_HD_SET_TRANSMIT: u32 = 0x02b2;

/// Set range A (single-range mode).
pub const CMD_HD_SET_RANGE_A: u32 = 0x02b3;

/// Set range A gain.
pub const CMD_HD_SET_GAIN: u32 = 0x02b4;

/// Set range A sea clutter.
pub const CMD_HD_SET_SEA: u32 = 0x02b5;

/// Set range A rain clutter gain.
pub const CMD_HD_SET_RAIN: u32 = 0x02b6;

/// Set front-of-boat / bearing alignment.
pub const CMD_HD_SET_BEARING_ALIGNMENT: u32 = 0x02b7;

/// Set rotation speed mode (0=normal, 1=slow).
pub const CMD_HD_SET_RPM_MODE: u32 = 0x02b9;

/// Set dither mode (interference rejection).
pub const CMD_HD_SET_DITHER: u32 = 0x02be;

/// Request settings report (triggers a `MSG_HD_SETTINGS` reply).
pub const CMD_HD_REQUEST_SETTINGS: u32 = 0x02ee;

/// Set FTC gain (single-range).
pub const CMD_HD_SET_FTC: u32 = 0x02fc;

/// Scan type (1 = single range).
pub const MSG_SCAN_TYPE: u32 = 0x0911;

/// RPM mode (0=normal, 1=slow).
pub const MSG_RPM_MODE: u32 = 0x0916;

/// Total spoke count (typically 2400).
pub const MSG_SPOKE_TOTAL: u32 = 0x0917;

/// Current transmit mode (companion to `0x0919`).
pub const MSG_TRANSMIT_MODE_CURRENT: u32 = 0x0918;

/// Set transmit mode (0=standby, 1=transmit).
pub const MSG_TRANSMIT_MODE: u32 = 0x0919;

/// Dither / interference rejection mode.
pub const MSG_DITHER_MODE: u32 = 0x091b;

/// Range mode (0=single, 1=dual).
pub const MSG_RANGE_MODE: u32 = 0x091c;

/// Range A radar mode / auto-gain level (0=auto low, 1=auto high).
pub const MSG_RANGE_A_AUTO_LEVEL: u32 = 0x091d;

/// Set range A in meters (uint32 LE).
pub const MSG_RANGE_A: u32 = 0x091e;

/// Range B in meters (dual-range mode).
pub const MSG_RANGE_B: u32 = 0x091f;

/// AFC mode (0=manual, 1=auto).
pub const MSG_AFC_MODE: u32 = 0x0920;

/// AFC setting (uint16 LE).
pub const MSG_AFC_SETTING: u32 = 0x0921;

/// AFC coarse value (uint16 LE).
pub const MSG_AFC_COARSE: u32 = 0x0922;

/// Range A gain mode (0=manual, 2=auto).
pub const MSG_RANGE_A_GAIN_MODE: u32 = 0x0924;

/// Range A gain level (uint16 LE, 0..10000 = 0..100% x 100).
pub const MSG_RANGE_A_GAIN: u32 = 0x0925;

/// Range B gain mode (dual-range).
pub const MSG_RANGE_B_GAIN_MODE: u32 = 0x0926;

/// Range B gain level (dual-range).
pub const MSG_RANGE_B_GAIN: u32 = 0x0927;

/// AFC tuning mode / trigger.
pub const MSG_AFC_TUNING_MODE: u32 = 0x092f;

/// Front-of-boat / bearing alignment.
pub const MSG_BEARING_ALIGNMENT: u32 = 0x0930;

/// Park position.
pub const MSG_PARK_POSITION: u32 = 0x0931;

/// Noise blanker / crosstalk rejection mode.
pub const MSG_NOISE_BLANKER: u32 = 0x0932;

/// Range A rain filter control mode (0=off, 1=on).
pub const MSG_RANGE_A_RAIN_MODE: u32 = 0x0933;

/// Range A rain filter gain (uint16 LE, gain x 100).
pub const MSG_RANGE_A_RAIN_GAIN: u32 = 0x0934;

/// Range B rain filter control mode (dual-range).
pub const MSG_RANGE_B_RAIN_MODE: u32 = 0x0936;

/// Range B rain filter gain (dual-range).
pub const MSG_RANGE_B_RAIN_GAIN: u32 = 0x0937;

/// Range A sea clutter mode (0=off, 1=manual, 2=auto).
pub const MSG_RANGE_A_SEA_MODE: u32 = 0x0939;

/// Range A sea clutter gain (uint16 LE, gain x 100).
pub const MSG_RANGE_A_SEA_GAIN: u32 = 0x093a;

/// Range A sea state (0=calm, 1=moderate, 2=rough).
pub const MSG_RANGE_A_SEA_STATE: u32 = 0x093b;

/// Range B sea clutter mode (dual-range).
pub const MSG_RANGE_B_SEA_MODE: u32 = 0x093c;

/// Range B sea clutter gain (dual-range).
pub const MSG_RANGE_B_SEA_GAIN: u32 = 0x093d;

/// Range B sea state (dual-range).
pub const MSG_RANGE_B_SEA_STATE: u32 = 0x093e;

/// No-transmit zone 1 mode (0=off, 1=on).
pub const MSG_NO_TX_ZONE_1_MODE: u32 = 0x093f;

/// No-transmit zone 1 start angle.
pub const MSG_NO_TX_ZONE_1_START: u32 = 0x0940;

/// No-transmit zone 1 stop angle.
pub const MSG_NO_TX_ZONE_1_STOP: u32 = 0x0941;

/// Sentry / timed transmit mode (0=off, 1=on).
pub const MSG_SENTRY_MODE: u32 = 0x0942;

/// Sentry standby time in seconds (uint16 LE).
pub const MSG_SENTRY_STANDBY_TIME: u32 = 0x0943;

/// Sentry transmit time in seconds (uint16 LE).
pub const MSG_SENTRY_TRANSMIT_TIME: u32 = 0x0944;

/// Antenna size (uint16 LE).
pub const MSG_ANTENNA_SIZE: u32 = 0x0950;

/// Range B radar mode / auto-gain level (dual-range).
pub const MSG_RANGE_B_RADAR_MODE: u32 = 0x0956;

/// Transmit channel mode.
pub const MSG_TRANSMIT_CHANNEL_MODE: u32 = 0x0966;

/// Transmit channel select (uint16 LE, 1-based channel number).
pub const MSG_TRANSMIT_CHANNEL_SELECT: u32 = 0x0967;

/// Transmit channel max (uint16 LE).
pub const MSG_TRANSMIT_CHANNEL_MAX: u32 = 0x09b6;

/// No-transmit zone 2 mode (0=off, 1=on).
pub const MSG_NO_TX_ZONE_2_MODE: u32 = 0x096a;

/// No-transmit zone 2 start angle.
pub const MSG_NO_TX_ZONE_2_START: u32 = 0x096b;

/// No-transmit zone 2 stop angle.
pub const MSG_NO_TX_ZONE_2_STOP: u32 = 0x096c;

/// Range A scan mode / MotionScope (Doppler).
pub const MSG_RANGE_A_DOPPLER_MODE: u32 = 0x0960;

/// Range B scan mode (dual-range Doppler).
pub const MSG_RANGE_B_DOPPLER_MODE: u32 = 0x0961;

/// Range A pulse expansion mode (0=off, 1=on).
pub const MSG_RANGE_A_PULSE_EXPANSION: u32 = 0x0962;

/// Range B pulse expansion mode (dual-range).
pub const MSG_RANGE_B_PULSE_EXPANSION: u32 = 0x0963;

/// Range A target size mode.
pub const MSG_RANGE_A_TARGET_SIZE: u32 = 0x0968;

/// Range B target size mode (dual-range).
pub const MSG_RANGE_B_TARGET_SIZE: u32 = 0x0969;

/// Range A Doppler sensitivity (uint16 LE).
pub const MSG_RANGE_A_DOPPLER_SENSITIVITY: u32 = 0x096d;

/// Range B Doppler sensitivity (uint16 LE).
pub const MSG_RANGE_B_DOPPLER_SENSITIVITY: u32 = 0x096e;

/// Range A scan average mode (0=off, 1=on).
pub const MSG_RANGE_A_SCAN_AVERAGE_MODE: u32 = 0x0970;

/// Range B scan average mode (dual-range).
pub const MSG_RANGE_B_SCAN_AVERAGE_MODE: u32 = 0x0971;

/// Range A scan average sensitivity (uint16 LE).
pub const MSG_RANGE_A_SCAN_AVERAGE_SENSITIVITY: u32 = 0x0972;

/// Range B scan average sensitivity (uint16 LE).
pub const MSG_RANGE_B_SCAN_AVERAGE_SENSITIVITY: u32 = 0x0973;

/// Scanner state.
pub const MSG_SCANNER_STATE: u32 = 0x0992;

/// Milliseconds until the next state change.
pub const MSG_STATE_CHANGE: u32 = 0x0993;

/// Spoke (sweep) data.
pub const MSG_SPOKE: u32 = 0x0998;

/// AFC tuning progress (0..100%).
pub const MSG_AFC_PROGRESS: u32 = 0x099a;

/// Error message.
pub const MSG_ERROR_MESSAGE: u32 = 0x099b;

/// Maximum range in meters.
pub const MSG_MAX_RANGE: u32 = 0x099f;

/// Transmit power.
pub const MSG_TRANSMIT_POWER: u32 = 0x09a2;

/// Input voltage (uint16 LE).
pub const MSG_INPUT_VOLTAGE: u32 = 0x09a3;

/// Heater voltage (uint16 LE).
pub const MSG_HEATER_VOLTAGE: u32 = 0x09a4;

/// High voltage (uint16 LE).
pub const MSG_HIGH_VOLTAGE: u32 = 0x09a6;

/// Transmit current (uint16 LE).
pub const MSG_TRANSMIT_CURRENT: u32 = 0x09a7;

/// System temperature (uint16 LE).
pub const MSG_SYSTEM_TEMPERATURE: u32 = 0x09a8;

/// Cumulative operation time in seconds.
pub const MSG_OPERATION_TIME: u32 = 0x09aa;

/// Cumulative modulator time in seconds.
pub const MSG_MODULATOR_TIME: u32 = 0x09ab;

/// Cumulative transmit time in seconds.
pub const MSG_TRANSMIT_TIME: u32 = 0x09ac;

/// Capability bitmap.
pub const MSG_CAPABILITY: u32 = 0x09b1;

/// Range table.
pub const MSG_RANGE_TABLE: u32 = 0x09b2;

/// Default Doppler sensitivity (uint16 LE).
pub const MSG_DEFAULT_DOPPLER_SENSITIVITY: u32 = 0x09b7;

/// Warmup — transmitter is heating up.
pub const STATE_WARMING_UP: u32 = 2;

/// Standby — radar ready but not transmitting.
pub const STATE_STANDBY: u32 = 3;

/// Spinning up — antenna accelerating before transmit.
pub const STATE_SPINNING_UP: u32 = 4;

/// Transmitting — actively scanning.
pub const STATE_TRANSMIT: u32 = 5;

/// Stopping — shutdown requested.
pub const STATE_STOPPING: u32 = 6;

/// Spinning down — antenna decelerating.
pub const STATE_SPINNING_DOWN: u32 = 7;

/// Starting — initial startup.
pub const STATE_STARTING: u32 = 10;

/// HD warming up.
pub const HD_STATE_WARMING_UP: u16 = 1;

/// HD standby.
pub const HD_STATE_STANDBY: u16 = 3;

/// HD transmitting.
pub const HD_STATE_TRANSMIT: u16 = 4;

/// HD spinning up.
pub const HD_STATE_SPINNING_UP: u16 = 5;

/// Product data response.
pub const MSG_CDM_PRODUCT_DATA: u32 = 0x0392;

/// Product data request.
pub const MSG_CDM_PRODUCT_DATA_REQUEST: u32 = 0x0391;

/// Set the name that the user gave a device.
pub const MSG_CDM_SET_ALIAS: u32 = 0x0393;

/// Port that takes a device's new name.
pub const CDM_CONTROL_PORT: u16 = 50051;

/// Supported Garmin radar types.
#[derive(Clone, Copy, Debug, PartialEq, Eq, Structural)]
pub enum GarminRadarType {
    /// 720 spokes, 1-bit samples.
    HD,
    /// 1440 spokes, 8-bit samples.
    XHD,
    /// Not supported.
    XHD2,
    /// Not supported.
    XHD3,
    /// Not supported.
    Fantom,
}

impl GarminRadarType {
    /// The name of the type.
    pub open spec fn label(self) -> Seq<char> {
        match self {
            GarminRadarType::HD => "HD"@,
            GarminRadarType::XHD => "xHD"@,
            GarminRadarType::XHD2 => "xHD2"@,
            GarminRadarType::XHD3 => "xHD3"@,
            GarminRadarType::Fantom => "Fantom"@,
        }
    }

    /// The name of the type.
    pub fn name(&self) -> (r: &'static str)
        ensures
            r@ == self.label(),
    {
        match self {
            GarminRadarType::HD => "HD",
            GarminRadarType::XHD => "xHD",
            GarminRadarType::XHD2 => "xHD2",
            GarminRadarType::XHD3 => "xHD3",
            GarminRadarType::Fantom => "Fantom",
        }
    }

    /// The number of spokes per revolution.
    pub fn spokes_per_revolution(&self) -> (r: usize)
        ensures
            r == if *self == GarminRadarType::HD {
                HD_SPOKES_PER_REVOLUTION
            } else {
                SPOKES_PER_REVOLUTION
            },
    {
        match self {
            GarminRadarType::HD => HD_SPOKES_PER_REVOLUTION,
            _ => SPOKES_PER_REVOLUTION,
        }
    }

    /// The maximum spoke length.
    pub fn max_spoke_len(&self) -> (r: usize)
        ensures
            r == if *self == GarminRadarType::HD {
                HD_MAX_SPOKE_LEN
            } else {
                MAX_SPOKE_LEN
            },
    {
        match self {
            GarminRadarType::HD => HD_MAX_SPOKE_LEN,
            _ => MAX_SPOKE_LEN,
        }
    }

    /// The number of pixel values.
    pub fn pixel_values(&self) -> (r: u8)
        ensures
            r == if *self == GarminRadarType::HD {
                HD_PIXEL_VALUES
            } else {
                PIXEL_VALUES
            },
    {
        match self {
            GarminRadarType::HD => HD_PIXEL_VALUES,
            _ => PIXEL_VALUES,
        }
    }

    /// Whether radars of this type are supported.
    pub open spec fn supported(self) -> bool {
        self == GarminRadarType::HD || self == GarminRadarType::XHD
    }

    /// Whether radars of this type are supported.
    pub fn is_supported(&self) -> (r: bool)
        ensures
            r == self.supported(),
    {
        match self {
            GarminRadarType::HD | GarminRadarType::XHD => true,
            _ => false,
        }
    }
}

/// One of the two no-transmit zones. Every enhanced radar has the first; the
/// second is there where the radar reports it as a capability.
#[derive(Clone, Copy, Debug, PartialEq, Eq, Structural)]
pub enum NoTxZone {
    One,
    Two,
}

impl NoTxZone {
    /// The message ids for the mode, the start and the end of the zone.
    pub open spec fn ids(self) -> (u32, u32, u32) {
        match self {
            NoTxZone::One => (MSG_NO_TX_ZONE_1_MODE, MSG_NO_TX_ZONE_1_START, MSG_NO_TX_ZONE_1_STOP),
            NoTxZone::Two => (MSG_NO_TX_ZONE_2_MODE, MSG_NO_TX_ZONE_2_START, MSG_NO_TX_ZONE_2_STOP),
        }
    }

    /// The message ids for the mode, the start and the end of the zone.
    pub fn opcodes(self) -> (r: (u32, u32, u32))
        ensures
            r == self.ids(),
    {
        match self {
            NoTxZone::One => (MSG_NO_TX_ZONE_1_MODE, MSG_NO_TX_ZONE_1_START, MSG_NO_TX_ZONE_1_STOP),
            NoTxZone::Two => (MSG_NO_TX_ZONE_2_MODE, MSG_NO_TX_ZONE_2_START, MSG_NO_TX_ZONE_2_STOP),
        }
    }

    /// The number of the zone.
    pub fn number(self) -> (r: u8)
        ensures
            r == if self == NoTxZone::One { 1u8 } else { 2u8 },
    {
        match self {
            NoTxZone::One => 1,
            NoTxZone::Two => 2,
        }
    }

    /// The control that shows the zone.
    pub open spec fn control(self) -> ControlId {
        match self {
            NoTxZone::One => ControlId::NoTransmitSector1,
            NoTxZone::Two => ControlId::NoTransmitSector2,
        }
    }

    /// The control that shows the zone.
    pub fn control_id(self) -> (r: ControlId)
        ensures
            r == self.control(),
    {
        match self {
            NoTxZone::One => ControlId::NoTransmitSector1,
            NoTxZone::Two => ControlId::NoTransmitSector2,
        }
    }
}

} // verus!
