//! Capability bit numbers.

use vstd::prelude::*;

verus! {

// Operational
pub const RANGE_MODE: u32 = 0x02;
pub const RANGE_MODE_TOGGLE: u32 = 0x09;
pub const RPM_MODE: u32 = 0x0c;
pub const TRANSMIT_MODE: u32 = 0x13;
pub const FRONT_OF_BOAT: u32 = 0x1c;
pub const PARK_POSITION: u32 = 0x1d;
pub const RESTORE_DEFAULTS: u32 = 0x20;
pub const NO_TX_ZONE_1_MODE: u32 = 0x21;
pub const NO_TX_ZONE_1_START: u32 = 0x22;
pub const NO_TX_ZONE_1_STOP: u32 = 0x23;
pub const SENTRY_MODE: u32 = 0x24;
pub const SENTRY_TRANSMIT_TIME: u32 = 0x28;
pub const SENTRY_STANDBY_TIME: u32 = 0x29;
pub const DITHER_MODE: u32 = 0x37;
pub const NOISE_BLANKER_MODE: u32 = 0x38;

// Range A
pub const RANGE_A: u32 = 0x4a;
pub const RANGE_A_GAIN_MODE: u32 = 0x4b;
pub const RANGE_A_GAIN: u32 = 0x4c;
pub const RANGE_A_RAIN_CONTROL: u32 = 0x4e;
pub const RANGE_A_RAIN_MODE: u32 = 0x4f;
pub const RANGE_A_RAIN_GAIN: u32 = 0x50;
pub const RANGE_A_SEA_MODE: u32 = 0x51;
pub const RANGE_A_SEA_STATE: u32 = 0x52;
pub const RANGE_A_SEA_GAIN: u32 = 0x53;

// Range B (dual range)
pub const RANGE_B: u32 = 0x56;
pub const RANGE_B_GAIN_MODE: u32 = 0x57;
pub const RANGE_B_GAIN: u32 = 0x58;
pub const RANGE_B_RAIN_CONTROL: u32 = 0x5a;
pub const RANGE_B_RAIN_MODE: u32 = 0x5b;
pub const RANGE_B_RAIN_GAIN: u32 = 0x5c;
pub const RANGE_B_SEA_MODE: u32 = 0x5d;
pub const RANGE_B_SEA_STATE: u32 = 0x5e;
pub const RANGE_B_SEA_GAIN: u32 = 0x5f;

// AFC
pub const AFC_MODE: u32 = 0x61;
pub const AFC_SETTING: u32 = 0x62;
pub const AFC_COARSE: u32 = 0x65;

// Hardware
pub const ANTENNA_SIZE: u32 = 0x9c;

// Doppler / MotionScope (Fantom)
pub const DOPPLER_RANGE_A: u32 = 0xa3;
pub const DOPPLER_RANGE_B: u32 = 0xa4;
pub const DOPPLER_SENSITIVITY_A: u32 = 0xc3;
pub const DOPPLER_SENSITIVITY_B: u32 = 0xc4;

// Echo trails (xHD2+ / Fantom)
pub const ECHO_TRAIL_MODE_A: u32 = 0xa6;
pub const ECHO_TRAIL_TIME_A: u32 = 0xa7;
pub const ECHO_TRAIL_MODE_B: u32 = 0xa8;
pub const ECHO_TRAIL_TIME_B: u32 = 0xa9;

// Pulse expansion (xHD2+)
pub const PULSE_EXPANSION_A: u32 = 0xab;
pub const PULSE_EXPANSION_B: u32 = 0xac;

// Transmit channel (Fantom Pro / Solid State)
pub const TRANSMIT_CHANNEL_MODE: u32 = 0xb2;
pub const TRANSMIT_CHANNEL_SELECT: u32 = 0xb5;

// Target size (xHD2 / Fantom)
pub const TARGET_SIZE_MODE_A: u32 = 0xbd;
pub const TARGET_SIZE_MODE_B: u32 = 0xbe;

// Second no-transmit zone (Fantom Pro)
pub const NO_TX_ZONE_2_MODE: u32 = 0xbf;
pub const NO_TX_ZONE_2_START: u32 = 0xc0;
pub const NO_TX_ZONE_2_STOP: u32 = 0xc1;

// Misc
pub const CROSSTALK_LEVEL: u32 = 0xc5;
pub const SCAN_AVERAGE_MODE_A: u32 = 0xca;
pub const SCAN_AVERAGE_MODE_B: u32 = 0xcb;
pub const SCAN_AVERAGE_SENSITIVITY_A: u32 = 0xcc;
pub const SCAN_AVERAGE_SENSITIVITY_B: u32 = 0xcd;
pub const POWER_SAVE_MODE: u32 = 0xd2;

} // verus!
