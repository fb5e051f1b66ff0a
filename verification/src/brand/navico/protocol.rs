//! Navico packets.
//!
//! A packet begins with an opcode of two bytes, the low one first. The high one
//! is the category: state reports, controls or queries.

use vstd::prelude::*;

pub mod tlv;

verus! {

/// Spokes per revolution.
pub const SPOKES_PER_REVOLUTION: usize = 2048;

/// Spoke numbers on the wire; only every other one is in use.
pub const SPOKES_RAW: u16 = 4096;

/// Samples per spoke.
pub const SPOKE_PIXEL_LEN: usize = 1024;

/// Bytes of samples per spoke, two samples each.
pub const SPOKE_DATA_LENGTH: usize = 512;

/// Spokes in a full data packet.
pub const SPOKES_PER_FRAME: usize = 32;

/// Header of a data packet.
pub const FRAME_HEADER_LENGTH: usize = 8;

/// Header of a spoke in a data packet.
pub const RADAR_LINE_HEADER_LENGTH: usize = 24;

/// A spoke in a data packet.
pub const RADAR_LINE_LENGTH: usize = 536;

/// Query for beacons.
pub const DISCOVERY_QUERY_PACKET: [u8; 2] = [0x01, 0xb1];

/// Start of a beacon.
pub const BEACON_RESPONSE_HEADER: [u8; 2] = [0x01, 0xb2];

/// Beacon: a group of radar services.
pub const RADAR_SERVICE_TYPE: u16 = 0x0010;

/// Beacon: the service for spokes.
pub const SPOKE_DATA_SUBTYPE: u16 = 0x0010;

/// Beacon: the service for commands.
pub const COMMAND_SUBTYPE: u16 = 0x0011;

/// Beacon: the service for reports.
pub const REPORT_SUBTYPE: u16 = 0x0012;

/// Category of controls.
pub const CATEGORY_CONTROL: u8 = 0xc1;

/// Category of queries.
pub const CATEGORY_QUERY: u8 = 0xc2;

/// Category of state reports.
pub const CATEGORY_STATE: u8 = 0xc4;

/// Category of acknowledgements.
pub const CATEGORY_ACK: u8 = 0xc6;

/// State report: power.
pub const STATE_MODE: u8 = 0x01;

/// State report: range, gain, clutter and mode.
pub const STATE_SETUP: u8 = 0x02;

/// State report: scanner type and firmware.
pub const STATE_PROPERTIES: u8 = 0x03;

/// State report: alignment, height, light and sectors.
pub const STATE_CONFIG: u8 = 0x04;

/// State report: installation, as entries.
pub const STATE_INSTALLATION: u8 = 0x06;

/// State report: sea state, scan speed, side lobes and Doppler.
pub const STATE_SETUP_EXTENDED: u8 = 0x08;

/// State report: features, as entries.
pub const STATE_FEATURES: u8 = 0x09;

/// Installation entry: name.
pub const INSTALLATION_NAME: u16 = 0;

/// Installation entry: where the antenna is.
pub const INSTALLATION_ANTENNA_GEOMETRY: u16 = 1;

/// Installation entry: sectors without transmission.
pub const INSTALLATION_SECTOR_BLANKING: u16 = 3;

/// Request for the scanner type and firmware.
pub const REQUEST_STATE_PROPERTIES: [u8; 2] = [0x04, 0xc2];

/// Request for the other state reports.
pub const REQUEST_STATE_BATCH: [u8; 2] = [0x01, 0xc2];

/// Request to stay on scanner A.
pub const COMMAND_STAY_ON_A: [u8; 2] = [0xa0, 0xc1];

/// Spoke status bytes of valid spokes.
pub const VALID_SPOKE_STATUSES: [u8; 3] = [0x02, 0x12, 0xc2];

/// Milliseconds between requests for reports.
pub const REPORT_REQUEST_INTERVAL: u64 = 5000;

/// Milliseconds without information packets of our own after another sender's.
pub const INFO_BY_OTHERS_TIMEOUT: u64 = 10_000;

/// Milliseconds between looks at the information packets of our own.
pub const INFO_BY_US_INTERVAL: u64 = 100;

} // verus!
