//! Entry types of the feature report.

use vstd::prelude::*;

verus! {

/// Operating modes, as a mask of 4 bytes.
pub const SUPPORTED_USE_MODES: u8 = 2;

/// Interference rejection levels, as a mask.
pub const INTERFERENCE_REJECT: u8 = 3;

/// Noise rejection levels, as a mask.
pub const NOISE_REJECT: u8 = 4;

/// Target expansion levels, as a mask.
pub const TARGET_BOOST: u8 = 5;

/// Sea clutter curves.
pub const STC_CURVE: u8 = 6;

/// Target separation levels, as a mask.
pub const BEAM_SHARPENING: u8 = 7;

/// Scan speeds, as a mask.
pub const FAST_SCAN: u8 = 8;

/// Least and greatest side lobe gain, two bytes each.
pub const SIDELOBE_GAIN_RANGE: u8 = 9;

/// Antenna types: one zero byte for a dome, a count and sizes otherwise.
pub const SUPPORTED_ANTENNAS: u8 = 10;

/// Least and greatest range in decimeters, four bytes each.
pub const INSTRUMENTED_RANGE: u8 = 11;

/// Local interference rejection levels, as a mask.
pub const LOCAL_INTERFERENCE_REJECT: u8 = 12;

pub const MODE_CUSTOM: u32 = 0x01;

pub const MODE_HARBOR: u32 = 0x02;

pub const MODE_OFFSHORE: u32 = 0x04;

pub const MODE_WEATHER: u32 = 0x08;

pub const MODE_BIRD: u32 = 0x10;

pub const MODE_DOPPLER: u32 = 0x20;

pub const MODE_BUOY: u32 = 0x40;

} // verus!
