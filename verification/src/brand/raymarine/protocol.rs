//! Raymarine packets.
//!
//! Quantum radars are solid-state, RD radars have a magnetron. A report begins
//! with its id as a 32-bit word.

use vstd::prelude::*;

verus! {

/// Quantum attributes/capabilities message.
pub const MSG_QUANTUM_ATTRIBUTES: u32 = 0x280001;

/// Quantum status report (controls state).
pub const MSG_QUANTUM_STATUS: u32 = 0x280002;

/// Quantum spoke (scan) data.
pub const MSG_QUANTUM_SPOKE: u32 = 0x280003;

/// Quantum radar mode report.
pub const MSG_QUANTUM_MODE: u32 = 0x280005;

/// Quantum WiFi signal strength.
pub const MSG_QUANTUM_SIGNAL: u32 = 0x280006;

/// Quantum feature flags (8 bytes: msg_id + u32 bitfield).
pub const MSG_QUANTUM_FEATURES: u32 = 0x280007;

/// Quantum parameters (per-range-channel tuning).
pub const MSG_QUANTUM_PARAMETERS: u32 = 0x280008;

/// Quantum Doppler status.
pub const MSG_QUANTUM_DOPPLER_STATUS: u32 = 0x280030;

/// RD (analogue) status report.
pub const MSG_RD_STATUS: u32 = 0x010001;

/// RD HD status report.
pub const MSG_RD_STATUS_HD: u32 = 0x018801;

/// RD fixed capabilities report.
pub const MSG_RD_FIXED: u32 = 0x010002;

/// RD spoke (scan) data.
pub const MSG_RD_SPOKE: u32 = 0x010003;

/// RD serial number / info report.
pub const MSG_RD_INFO: u32 = 0x010006;

/// 1-second keep-alive for Quantum (12 bytes, contains "Radar").
pub const HEARTBEAT_QUANTUM_1S: [u8; 12] = [
    0x00, 0x00, 0x28, 0x00, 0x52, 0x61, 0x64, 0x61, 0x72, 0x00, 0x00, 0x00,
];

/// 5-second extended keep-alive for Quantum (36 bytes).
pub const HEARTBEAT_QUANTUM_5S: [u8; 36] = [
    0x03, 0x89, 0x28, 0x00, 0x00, 0x00, 0x00, 0x00, 0x00, 0x00, 0x00, 0x00, 0x00, 0x00, 0x00, 0x00,
    0x00, 0x00, 0x00, 0x00, 0x00, 0x00, 0x00, 0x00, 0x9e, 0x03, 0x00, 0x00, 0xb4, 0x00, 0x00, 0x00,
    0x00, 0x00, 0x00, 0x00,
];

/// 1-second keep-alive for RD/E120 (12 bytes, contains "RADAR").
pub const HEARTBEAT_RD_1S: [u8; 12] = [
    0x00, 0x80, 0x01, 0x00, 0x52, 0x41, 0x44, 0x41, 0x52, 0x00, 0x00, 0x00,
];

/// 5-second extended keep-alive for RD/E120 (36 bytes).
pub const HEARTBEAT_RD_5S: [u8; 36] = [
    0x03, 0x89, 0x01, 0x00, 0x00, 0x00, 0x00, 0x00, 0x00, 0x00, 0x00, 0x00, 0x00, 0x00, 0x00, 0x00,
    0x00, 0x00, 0x00, 0x00, 0x68, 0x01, 0x00, 0x00, 0x9e, 0x03, 0x00, 0x00, 0xb4, 0x00, 0x00, 0x00,
    0x00, 0x00, 0x00, 0x00,
];

pub const FEATURE_ANALOGUE: u32 = 0x1;

pub const FEATURE_DIGITAL: u32 = 0x4;

pub const FEATURE_QUANTUM: u32 = 0x10;

pub const FEATURE_EDOME: u32 = 0x200;

pub const FEATURE_BIRD_MODE: u32 = 0x400;

pub const FEATURE_NO_DUAL_RANGE_RESTRICTIONS: u32 = 0x800;

pub const FEATURE_MARPA: u32 = 0x4000;

pub const FEATURE_DUAL_RANGE_MARPA: u32 = 0x10000;

pub const FEATURE_MARPA_BEYOND_12NM: u32 = 0x20000;

pub const FEATURE_AUTO_RAIN: u32 = 0x40000;

pub const FEATURE_DOPPLER: u32 = 0x80000;

pub const FEATURE_DOPPLER_AUTO_ACQUIRE: u32 = 0x100000;

pub const FEATURE_CYCLONE: u32 = 0x800000;

pub const FEATURE_DOPPLER_BIRD_MODE: u32 = 0x2000000;

/// Quantum: 250 spokes per revolution.
pub const QUANTUM_SPOKES_PER_REVOLUTION: u16 = 250;

/// RD: 2048 spokes per revolution.
pub const RD_SPOKES_PER_REVOLUTION: u16 = 2048;

/// Quantum: maximum 252 samples per spoke.
pub const QUANTUM_MAX_SPOKE_LEN: usize = 252;

/// RD HD: maximum 1024 samples per spoke.
pub const RD_HD_MAX_SPOKE_LEN: usize = 1024;

/// RD non-HD: 512 samples per spoke.
pub const RD_MAX_SPOKE_LEN: usize = 512;

/// RLE escape byte in spoke data.
pub const RLE_MARKER: u8 = 0x5c;

/// Spoke pixel value for Doppler receding targets.
pub const DOPPLER_RECEDING: u8 = 0xfe;

/// Spoke pixel value for Doppler approaching targets.
pub const DOPPLER_APPROACHING: u8 = 0xff;

/// NavData sub-ID (prepended to the 32-byte payload).
pub const NAVDATA_SUB_ID: u32 = 0x28000018;

/// NavData interval.
pub const NAVDATA_INTERVAL_MS: u64 = 100;

} // verus!
