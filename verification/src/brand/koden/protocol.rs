//! Koden packets.
//!
//! Everything goes over one UDP port. The first byte tells what a packet is:
//! `&` a control packet, `#` a status packet, and four `{` an image packet with
//! spokes. Control and status packets end with a carriage return.

use vstd::prelude::*;

verus! {

/// Spokes per revolution.
pub const SPOKES: usize = 4096;

/// Maximum number of samples per spoke.
pub const SPOKE_LEN: usize = 960;

/// Number of pixel values. Samples are halved.
pub const PIXEL_VALUES: u8 = 128;

/// UDP port for everything.
pub const RADAR_PORT: u16 = 10001;

/// Seconds between keep-alive packets.
pub const KEEPALIVE_INTERVAL_SECS: u64 = 10;

/// Seconds of silence after which a radar counts as lost.
pub const RADAR_LOST_TIMEOUT_SECS: u64 = 15;

/// Start of a control packet, `&`.
pub const CONTROL_PREFIX: u8 = 0x26;

/// Start of a status packet, `#`.
pub const STATUS_PREFIX: u8 = 0x23;

/// Start of an image packet.
pub const IMAGE_MARKER: [u8; 4] = [0x7b, 0x7b, 0x7b, 0x7b];

/// End of a control or status packet.
pub const PACKET_END: u8 = 0x0d;

pub const WIRE_FALSE: u8 = 0x00;

pub const WIRE_TRUE: u8 = 0x11;

pub const WIRE_AUTO: u8 = 0x22;

/// Control response: seconds of warmup left.
pub const RESP_WARMUP: u8 = 0x61;

/// Control response: error.
pub const RESP_ERROR: u8 = 0x65;

/// Control response: power is on.
pub const RESP_POWER: u8 = 0x70;

/// Warmup value that stands for completion.
pub const WARMUP_COMPLETE: u8 = 0x11;

pub const CMD_HEADING_LINE: u8 = 0x30;

pub const CMD_TUNING_MODE: u8 = 0x41;

pub const CMD_TRIGGER_DELAY: u8 = 0x44;

pub const CMD_TARGET_EXPANSION: u8 = 0x45;

pub const CMD_FTC: u8 = 0x46;

pub const CMD_GAIN: u8 = 0x47;

pub const CMD_INTERFERENCE_REJECTION: u8 = 0x49;

pub const CMD_MODEL_INFO: u8 = 0x4e;

pub const CMD_STC: u8 = 0x53;

pub const CMD_FINE_TUNING: u8 = 0x54;

pub const CMD_COARSE_TUNING: u8 = 0x55;

pub const CMD_TUNING_METER: u8 = 0x63;

pub const CMD_WRITE_IP: u8 = 0x64;

pub const CMD_SYSTEM_ERROR: u8 = 0x65;

pub const CMD_AUTO_GAIN_MODE: u8 = 0x67;

pub const CMD_TRANSFER_MODE: u8 = 0x69;

pub const CMD_MODEL_CODE: u8 = 0x72;

pub const CMD_TRANSMISSION_MODE: u8 = 0x74;

pub const CMD_AUTO_STC_MODE: u8 = 0x80;

pub const CMD_AUTO_GAIN_PRESET: u8 = 0x81;

pub const CMD_MANUAL_GAIN_PRESET: u8 = 0x82;

pub const CMD_AUTO_STC_PRESET: u8 = 0x83;

pub const CMD_MANUAL_STC_PRESET: u8 = 0x84;

pub const CMD_AUTO_TUNE_PRESET: u8 = 0x85;

pub const CMD_MANUAL_TUNE_PRESET: u8 = 0x86;

pub const CMD_HARBOR_STC_PRESET: u8 = 0x87;

pub const CMD_STC_CURVE_PRESET: u8 = 0x88;

pub const CMD_INFO_BLOCK: u8 = 0x9a;

pub const CMD_BLANKING_SECTOR: u8 = 0x9c;

pub const CMD_PULSE_LENGTH: u8 = 0xa4;

pub const CMD_ANTENNA_SPEED: u8 = 0xa5;

pub const CMD_MAC_ADDRESS: u8 = 0xa7;

pub const CMD_SET_IP: u8 = 0xa8;

pub const CMD_RECEIVED_IP: u8 = 0xa9;

pub const CMD_PARK_ANGLE: u8 = 0xaa;

pub const CMD_KEEPALIVE_ACK: u8 = 0xab;

pub const CMD_DEMO_MODE: u8 = 0xac;

pub const CMD_TRANSFER_SIZE: u8 = 0xad;

pub const CMD_BROADCAST_SETTING: u8 = 0xff;

/// Request for what the radar is, sent at the start: broadcast setting, info
/// block, MAC address, model info and model code.
pub const STARTUP_REQUEST: [u8; 20] = [
    0x26, 0xff, 0x11, 0x0d, 0x26, 0x9a, 0x11, 0x0d, 0x26, 0xa7, 0x11, 0x0d, 0x24, 0x4e, 0x11, 0x0d,
    0x26, 0x72, 0xff, 0x0d,
];

/// Keep-alive packet.
pub const KEEPALIVE_PACKET: [u8; 4] = [0x26, 0x69, 0x22, 0x0d];

/// Image packet: kind of transfer.
pub const IMG_TRANSFER_TYPE: usize = 0x0e;

/// Image packet: index of the range.
pub const IMG_RANGE_INDEX: usize = 0x10;

/// Image packet: number of spokes in the packet.
pub const IMG_NUM_SPOKES: usize = 0x25;

/// Image packet: samples per spoke.
pub const IMG_SAMPLES_PER_SPOKE: usize = 0x26;

/// Image packet: spokes per revolution.
pub const IMG_TOTAL_SPOKES: usize = 0x28;

/// Image packet: direction of the first spoke.
pub const IMG_START_ANGLE: usize = 0x2a;

/// Image packet: samples in a normal transfer.
pub const IMG_SPOKE_DATA: usize = 0x2c;

/// Image packet: samples in a rotated transfer.
pub const IMG_SPOKE_DATA_ROTATED: usize = 0xa8;

pub const TRANSFER_NORMAL: u8 = 2;

pub const TRANSFER_ROTATED: u8 = 0x52;

/// Length of an image packet without samples.
pub const IMG_MIN_SIZE: usize = 0x2c;

/// The ranges by index, in eighths of a nautical mile.
pub const RANGE_TABLE: [u32; 20] = [
    1, 2, 4, 6, 8, 12, 16, 24, 32, 48, 64, 96, 128, 192, 256, 288, 384, 512, 576, 768,
];

/// Meters in a nautical mile.
pub const NM_TO_METERS: u32 = 1852;

/// The whole meters of a range index. Unknown indices count as the farthest.
pub open spec fn range_meters(index: int) -> int {
    RANGE_TABLE@[if 0 <= index < 20 { index } else { 19 }] * NM_TO_METERS / 8
}

/// The whole meters of a range index.
pub fn range_index_to_meters(index: u8) -> (r: u32)
    ensures
        r == range_meters(index as int),
{
    let i: usize = if index < 20 {
        index as usize
    } else {
        19
    };
    let eighths: u32 = RANGE_TABLE[i];
    assert(eighths <= 768);
    eighths * NM_TO_METERS / 8
}

/// A farther range index stands for a farther range.
pub proof fn law_ranges_increase(i: int, j: int)
    requires
        0 <= i < j < 20,
    ensures
        range_meters(i) < range_meters(j),
    decreases j - i,
{
    assert forall|k: int| 0 <= k < 19 implies #[trigger] range_meters(k) < range_meters(k + 1) by {
    }
    if i + 1 < j {
        law_ranges_increase(i + 1, j);
    }
}

/// The samples per spoke for the number on the wire, 0 when it is unknown.
pub open spec fn spoke_pixels(wire: int) -> int {
    if wire == 0x100 {
        0xf0
    } else if wire == 0x200 {
        0x1e0
    } else if wire == 0x400 {
        0x3c0
    } else {
        0
    }
}

/// The samples per spoke for the number on the wire.
pub fn actual_spoke_pixels(wire_samples: u16) -> (r: u16)
    ensures
        r == spoke_pixels(wire_samples as int),
{
    match wire_samples {
        0x100 => 0xf0,
        0x200 => 0x1e0,
        0x400 => 0x3c0,
        _ => 0,
    }
}

/// The name of a model.
pub open spec fn model_label(code: u8) -> Seq<char> {
    match code {
        0 => "MDS-50R 2kW Dome"@,
        1 => "MDS-51R 4kW Dome"@,
        2 => "MDS-52R 4kW Open Array"@,
        3 => "MDS-61R 6kW Open Array"@,
        4 => "MDS-62R 12kW Open Array"@,
        5 => "MDS-63R 25kW Open Array"@,
        6 => "MDS-1R/8R 2kW Dome"@,
        10 => "MDS-10R 4kW Open Array"@,
        14 => "MDS-9R 4kW Dome"@,
        15 => "MDS-5R Interface"@,
        _ => "Unknown"@,
    }
}

/// The name of a model.
pub fn model_name(code: u8) -> (r: &'static str)
    ensures
        r@ == model_label(code),
{
    match code {
        0 => "MDS-50R 2kW Dome",
        1 => "MDS-51R 4kW Dome",
        2 => "MDS-52R 4kW Open Array",
        3 => "MDS-61R 6kW Open Array",
        4 => "MDS-62R 12kW Open Array",
        5 => "MDS-63R 25kW Open Array",
        6 => "MDS-1R/8R 2kW Dome",
        10 => "MDS-10R 4kW Open Array",
        14 => "MDS-9R 4kW Dome",
        15 => "MDS-5R Interface",
        _ => "Unknown",
    }
}

/// The models by their codes.
pub proof fn law_model_codes()
    ensures
        model_label(0) == "MDS-50R 2kW Dome"@,
        model_label(1) == "MDS-51R 4kW Dome"@,
        model_label(2) == "MDS-52R 4kW Open Array"@,
        model_label(3) == "MDS-61R 6kW Open Array"@,
        model_label(4) == "MDS-62R 12kW Open Array"@,
        model_label(5) == "MDS-63R 25kW Open Array"@,
        model_label(6) == "MDS-1R/8R 2kW Dome"@,
        model_label(10) == "MDS-10R 4kW Open Array"@,
        model_label(14) == "MDS-9R 4kW Dome"@,
        model_label(15) == "MDS-5R Interface"@,
        forall|code: u8| 6 < code < 10 || 10 < code < 14 || 15 < code ==> #[trigger] model_label(code)
            == "Unknown"@,
{
}

/// Spokes have 15 samples for every 16 that the wire counts.
pub proof fn law_spoke_pixels(wire: int)
    ensures
        spoke_pixels(wire) != 0 <==> wire == 256 || wire == 512 || wire == 1024,
        spoke_pixels(wire) != 0 ==> 16 * spoke_pixels(wire) == 15 * wire,
{
}

/// A range index that is not known counts as the farthest, and the nearest is an eighth of
/// a nautical mile.
pub proof fn law_unknown_ranges_are_farthest(index: int)
    ensures
        index >= 20 ==> range_meters(index) == range_meters(19),
        range_meters(0) == 231,
        range_meters(4) == 1852,
        range_meters(19) == 96 * 1852,
{
}

} // verus!
