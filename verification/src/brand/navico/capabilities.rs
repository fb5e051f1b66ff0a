//! What a HALO radar tells of its features.
//!
//! The report is a list of entries: a type, a reserved byte, a length and so
//! many bytes. Only HALO radars send it.

use vstd::prelude::*;
use vstd::slice::*;

use super::protocol::tlv;
use crate::bytes;
use crate::bytes::get_le32;

verus! {

/// The features of a radar.
#[derive(Clone, Copy, Debug, PartialEq, Eq, Structural)]
pub struct NavicoCapabilities {
    /// Operating modes, as a mask.
    pub supported_modes_mask: u32,
    /// Interference rejection levels, as a mask.
    pub interference_reject_mask: u8,
    /// Noise rejection levels, as a mask.
    pub noise_reject_mask: u8,
    /// Target expansion levels, as a mask.
    pub target_boost_mask: u8,
    /// Target separation levels, as a mask.
    pub beam_sharpening_mask: u8,
    /// Scan speeds, as a mask.
    pub scan_speed_mask: u8,
    pub sidelobe_gain_min: u8,
    pub sidelobe_gain_max: u8,
    /// Least range in decimeters.
    pub instrumented_range_min_dm: u32,
    /// Greatest range in decimeters.
    pub instrumented_range_max_dm: u32,
    /// Local interference rejection levels, as a mask.
    pub local_interference_mask: u8,
    /// Whether the antenna is a dome, not an open array.
    pub is_dome: bool,
}

/// What is taken for granted where a report does not say otherwise.
pub open spec fn unspecified() -> NavicoCapabilities {
    NavicoCapabilities {
        supported_modes_mask: 0,
        interference_reject_mask: 0,
        noise_reject_mask: 0,
        target_boost_mask: 0,
        beam_sharpening_mask: 0,
        scan_speed_mask: 0,
        sidelobe_gain_min: 0,
        sidelobe_gain_max: 255,
        instrumented_range_min_dm: 0,
        instrumented_range_max_dm: 0,
        local_interference_mask: 0,
        is_dome: true,
    }
}

/// The features after one entry. Entries of other types, or that are too short,
/// change nothing.
pub open spec fn absorbed(
    caps: NavicoCapabilities,
    entry: u8,
    payload: Seq<u8>,
) -> NavicoCapabilities {
    if entry == tlv::SUPPORTED_USE_MODES && payload.len() >= 4 {
        NavicoCapabilities { supported_modes_mask: bytes::le32(payload, 0) as u32, ..caps }
    } else if entry == tlv::INTERFERENCE_REJECT && payload.len() > 0 {
        NavicoCapabilities { interference_reject_mask: payload[0], ..caps }
    } else if entry == tlv::NOISE_REJECT && payload.len() > 0 {
        NavicoCapabilities { noise_reject_mask: payload[0], ..caps }
    } else if entry == tlv::TARGET_BOOST && payload.len() > 0 {
        NavicoCapabilities { target_boost_mask: payload[0], ..caps }
    } else if entry == tlv::BEAM_SHARPENING && payload.len() > 0 {
        NavicoCapabilities { beam_sharpening_mask: payload[0], ..caps }
    } else if entry == tlv::FAST_SCAN && payload.len() > 0 {
        NavicoCapabilities { scan_speed_mask: payload[0], ..caps }
    } else if entry == tlv::SIDELOBE_GAIN_RANGE && payload.len() >= 4 {
        NavicoCapabilities { sidelobe_gain_min: payload[0], sidelobe_gain_max: payload[2], ..caps }
    } else if entry == tlv::SUPPORTED_ANTENNAS {
        NavicoCapabilities { is_dome: payload.len() == 1 && payload[0] == 0, ..caps }
    } else if entry == tlv::INSTRUMENTED_RANGE && payload.len() >= 8 {
        NavicoCapabilities {
            instrumented_range_min_dm: bytes::le32(payload, 0) as u32,
            instrumented_range_max_dm: bytes::le32(payload, 4) as u32,
            ..caps
        }
    } else if entry == tlv::LOCAL_INTERFERENCE_REJECT && payload.len() > 0 {
        NavicoCapabilities { local_interference_mask: payload[0], ..caps }
    } else {
        caps
    }
}

/// The features after a list of entries. An entry that is cut off ends the
/// list.
pub open spec fn features_from(caps: NavicoCapabilities, data: Seq<u8>) -> NavicoCapabilities
    decreases data.len(),
{
    if data.len() < 3 || data.len() < 3 + data[2] {
        caps
    } else {
        let end = 3 + data[2] as int;
        features_from(absorbed(caps, data[0], data.subrange(3, end)), data.skip(end))
    }
}

/// The features that a report tells.
pub open spec fn features(data: Seq<u8>) -> NavicoCapabilities {
    features_from(unspecified(), data)
}

impl NavicoCapabilities {
    fn absorb(&mut self, entry: u8, payload: &[u8])
        ensures
            *final(self) == absorbed(*old(self), entry, payload@),
    {
        if entry == tlv::SUPPORTED_USE_MODES && payload.len() >= 4 {
            self.supported_modes_mask = get_le32(payload, 0);
        } else if entry == tlv::INTERFERENCE_REJECT && payload.len() > 0 {
            self.interference_reject_mask = payload[0];
        } else if entry == tlv::NOISE_REJECT && payload.len() > 0 {
            self.noise_reject_mask = payload[0];
        } else if entry == tlv::TARGET_BOOST && payload.len() > 0 {
            self.target_boost_mask = payload[0];
        } else if entry == tlv::BEAM_SHARPENING && payload.len() > 0 {
            self.beam_sharpening_mask = payload[0];
        } else if entry == tlv::FAST_SCAN && payload.len() > 0 {
            self.scan_speed_mask = payload[0];
        } else if entry == tlv::SIDELOBE_GAIN_RANGE && payload.len() >= 4 {
            self.sidelobe_gain_min = payload[0];
            self.sidelobe_gain_max = payload[2];
        } else if entry == tlv::SUPPORTED_ANTENNAS {
            self.is_dome = payload.len() == 1 && payload[0] == 0;
        } else if entry == tlv::INSTRUMENTED_RANGE && payload.len() >= 8 {
            self.instrumented_range_min_dm = get_le32(payload, 0);
            self.instrumented_range_max_dm = get_le32(payload, 4);
        } else if entry == tlv::LOCAL_INTERFERENCE_REJECT && payload.len() > 0 {
            self.local_interference_mask = payload[0];
        }
    }

    /// Read a feature report, without its opcode.
    pub fn parse(data: &[u8]) -> (r: NavicoCapabilities)
        ensures
            r == features(data@),
    {
        let mut caps = NavicoCapabilities {
            supported_modes_mask: 0,
            interference_reject_mask: 0,
            noise_reject_mask: 0,
            target_boost_mask: 0,
            beam_sharpening_mask: 0,
            scan_speed_mask: 0,
            sidelobe_gain_min: 0,
            sidelobe_gain_max: 255,
            instrumented_range_min_dm: 0,
            instrumented_range_max_dm: 0,
            local_interference_mask: 0,
            is_dome: true,
        };
        let mut offset: usize = 0;
        assert(data@.skip(0) =~= data@);
        while data.len() - offset >= 3
            invariant_except_break
                offset <= data@.len(),
                data@.len() == data.len(),
                features_from(caps, data@.skip(offset as int)) == features(data@),
            ensures
                caps == features(data@),
            decreases data@.len() - offset,
        {
            let ghost rest = data@.skip(offset as int);
            let n: usize = data[offset + 2] as usize;
            if n > data.len() - offset - 3 {
                break;
            }
            let end: usize = offset + 3 + n;
            caps.absorb(data[offset], slice_subrange(data, offset + 3, end));
            proof {
                assert(rest.subrange(3, 3 + n) =~= data@.subrange(offset + 3, end as int));
                assert(rest.skip(3 + n) =~= data@.skip(end as int));
            }
            offset = end;
        }
        caps
    }

    /// Whether Doppler mode is supported.
    pub fn has_doppler(&self) -> (r: bool)
        ensures
            r == (self.supported_modes_mask & tlv::MODE_DOPPLER != 0),
    {
        self.supported_modes_mask & tlv::MODE_DOPPLER != 0
    }

    /// Whether bird mode is supported.
    pub fn has_bird_mode(&self) -> (r: bool)
        ensures
            r == (self.supported_modes_mask & tlv::MODE_BIRD != 0),
    {
        self.supported_modes_mask & tlv::MODE_BIRD != 0
    }

    /// The least range in meters.
    pub fn range_min_m(&self) -> (r: i32)
        ensures
            r == self.instrumented_range_min_dm / 10,
    {
        (self.instrumented_range_min_dm / 10) as i32
    }

    /// The greatest range in meters.
    pub fn range_max_m(&self) -> (r: i32)
        ensures
            r == self.instrumented_range_max_dm / 10,
    {
        (self.instrumented_range_max_dm / 10) as i32
    }
}

/// A list is read entry by entry: the first one is taken in, then the rest is
/// read.
pub proof fn law_entries_are_read_in_order(
    caps: NavicoCapabilities,
    kind: u8,
    reserved: u8,
    payload: Seq<u8>,
    rest: Seq<u8>,
)
    requires
        payload.len() <= 255,
    ensures
        features_from(
            caps,
            seq![kind, reserved, payload.len() as u8] + payload + rest,
        ) == features_from(absorbed(caps, kind, payload), rest),
{
    let data = seq![kind, reserved, payload.len() as u8] + payload + rest;
    let end = 3 + payload.len() as int;
    assert(data.subrange(3, end) =~= payload);
    assert(data.skip(end) =~= rest);
}

/// Entries of unknown types change nothing.
pub proof fn law_unknown_entries_are_skipped(caps: NavicoCapabilities, kind: u8, payload: Seq<u8>)
    requires
        kind < tlv::SUPPORTED_USE_MODES || kind == tlv::STC_CURVE || kind
            > tlv::LOCAL_INTERFERENCE_REJECT,
    ensures
        absorbed(caps, kind, payload) == caps,
{
}

/// What each entry tells, by its type, and that it tells nothing else.
pub proof fn law_entries_tell_features(
    caps: NavicoCapabilities,
    payload: Seq<u8>,
    first: int,
    second: int,
)
    requires
        payload.len() >= 8,
        bytes::holds32(payload, 0, first),
        bytes::holds32(payload, 4, second),
    ensures
        absorbed(caps, 2, payload) == (NavicoCapabilities {
            supported_modes_mask: first as u32,
            ..caps
        }),
        absorbed(caps, 3, payload) == (NavicoCapabilities {
            interference_reject_mask: payload[0],
            ..caps
        }),
        absorbed(caps, 4, payload) == (NavicoCapabilities { noise_reject_mask: payload[0], ..caps }),
        absorbed(caps, 5, payload) == (NavicoCapabilities { target_boost_mask: payload[0], ..caps }),
        absorbed(caps, 7, payload) == (NavicoCapabilities {
            beam_sharpening_mask: payload[0],
            ..caps
        }),
        absorbed(caps, 8, payload) == (NavicoCapabilities { scan_speed_mask: payload[0], ..caps }),
        absorbed(caps, 9, payload) == (NavicoCapabilities {
            sidelobe_gain_min: payload[0],
            sidelobe_gain_max: payload[2],
            ..caps
        }),
        absorbed(caps, 11, payload) == (NavicoCapabilities {
            instrumented_range_min_dm: first as u32,
            instrumented_range_max_dm: second as u32,
            ..caps
        }),
        absorbed(caps, 12, payload) == (NavicoCapabilities {
            local_interference_mask: payload[0],
            ..caps
        }),
        !absorbed(caps, 10, payload).is_dome,
        absorbed(caps, 10, seq![0u8]).is_dome,
{
    bytes::law_numbers_read_back(payload, 0, first);
    bytes::law_numbers_read_back(payload, 4, second);
}

/// An entry that is cut off tells nothing, and neither does what is left of a header.
pub proof fn law_cut_off_entries_end_the_list(caps: NavicoCapabilities, data: Seq<u8>)
    requires
        data.len() < 3 || data.len() < 3 + data[2],
    ensures
        features_from(caps, data) == caps,
{
}

} // verus!
