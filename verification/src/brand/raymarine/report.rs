//! Reports from a Raymarine radar.

use vstd::prelude::*;

use super::protocol::{
    DOPPLER_APPROACHING, DOPPLER_RECEDING, FEATURE_ANALOGUE, FEATURE_AUTO_RAIN, FEATURE_BIRD_MODE,
    FEATURE_CYCLONE, FEATURE_DIGITAL, FEATURE_DOPPLER, FEATURE_DOPPLER_AUTO_ACQUIRE,
    FEATURE_DOPPLER_BIRD_MODE, FEATURE_DUAL_RANGE_MARPA, FEATURE_MARPA, FEATURE_QUANTUM,
    MSG_QUANTUM_ATTRIBUTES, MSG_QUANTUM_DOPPLER_STATUS, MSG_QUANTUM_FEATURES, MSG_QUANTUM_SPOKE,
    MSG_QUANTUM_STATUS, MSG_RD_FIXED, MSG_RD_INFO, MSG_RD_SPOKE, MSG_RD_STATUS, MSG_RD_STATUS_HD,
};
use crate::bytes;
use crate::bytes::get_le32;
use crate::radar::{Legend, BYTE_LOOKUP_LENGTH};

verus! {

// Sample lookup

/// The palette index of a direction, 0 where there is none.
pub open spec fn first_of(direction: Option<(u8, u8)>) -> int {
    match direction {
        Some((start, _)) => start as int,
        None => 0,
    }
}

/// The palette index for sample `j`: halved where the palette has 128 colors or
/// more. With Doppler on, 0xff is approaching and 0xfe receding.
pub open spec fn blob(legend: Legend, doppler: bool, j: int) -> int {
    if doppler && j == DOPPLER_APPROACHING {
        first_of(legend.doppler_approaching)
    } else if doppler && j == DOPPLER_RECEDING {
        first_of(legend.doppler_receding)
    } else if legend.pixel_colors >= 128 {
        j / 2
    } else {
        j
    }
}

fn blob_row(legend: &Legend, doppler: bool) -> (r: [u8; 256])
    ensures
        forall|j: int| 0 <= j < 256 ==> (#[trigger] r@[j]) as int == blob(*legend, doppler, j),
{
    let approaching: u8 = match legend.doppler_approaching {
        Some((start, _)) => start,
        None => 0,
    };
    let receding: u8 = match legend.doppler_receding {
        Some((start, _)) => start,
        None => 0,
    };
    let mut row: [u8; 256] = [0u8; 256];
    let mut j: usize = 0;
    while j < BYTE_LOOKUP_LENGTH
        invariant
            j <= 256,
            approaching == first_of(legend.doppler_approaching),
            receding == first_of(legend.doppler_receding),
            forall|k: int| 0 <= k < j ==> (#[trigger] row@[k]) as int == blob(*legend, doppler, k),
        decreases 256 - j,
    {
        let sample: u8 = j as u8;
        row[j] = if doppler && sample == DOPPLER_APPROACHING {
            approaching
        } else if doppler && sample == DOPPLER_RECEDING {
            receding
        } else if legend.pixel_colors >= 128 {
            sample / 2
        } else {
            sample
        };
        j += 1;
    }
    row
}

/// The palette indices for every sample value, without and with Doppler.
#[derive(Clone, Copy, Debug)]
pub struct PixelToBlob {
    pub normal: [u8; 256],
    pub doppler: [u8; 256],
}

/// The palette indices for a legend.
pub fn pixel_to_blob(legend: &Legend) -> (r: PixelToBlob)
    ensures
        forall|j: int|
            0 <= j < 256 ==> (#[trigger] r.normal@[j]) as int == blob(*legend, false, j),
        forall|j: int|
            0 <= j < 256 ==> (#[trigger] r.doppler@[j]) as int == blob(*legend, true, j),
{
    PixelToBlob { normal: blob_row(legend, false), doppler: blob_row(legend, true) }
}

// Features

/// The features that a radar reports once after it was connected.
#[derive(Clone, Copy, Debug, PartialEq, Eq, Structural)]
pub struct FeatureFlags {
    pub raw: u32,
}

impl FeatureFlags {
    /// Whether any bit of `mask` is set.
    pub open spec fn has(self, mask: u32) -> bool {
        self.raw & mask != 0
    }

    fn has_flag(&self, mask: u32) -> (r: bool)
        ensures
            r == self.has(mask),
    {
        (self.raw & mask) != 0
    }

    pub fn is_quantum(&self) -> (r: bool)
        ensures
            r == self.has(FEATURE_QUANTUM),
    {
        self.has_flag(FEATURE_QUANTUM)
    }

    pub fn is_cyclone(&self) -> (r: bool)
        ensures
            r == self.has(FEATURE_CYCLONE),
    {
        self.has_flag(FEATURE_CYCLONE)
    }

    pub fn has_doppler(&self) -> (r: bool)
        ensures
            r == self.has(FEATURE_DOPPLER),
    {
        self.has_flag(FEATURE_DOPPLER)
    }

    pub fn has_doppler_auto_acquire(&self) -> (r: bool)
        ensures
            r == self.has(FEATURE_DOPPLER_AUTO_ACQUIRE),
    {
        self.has_flag(FEATURE_DOPPLER_AUTO_ACQUIRE)
    }

    pub fn has_doppler_bird_mode(&self) -> (r: bool)
        ensures
            r == self.has(FEATURE_DOPPLER_BIRD_MODE),
    {
        self.has_flag(FEATURE_DOPPLER_BIRD_MODE)
    }

    pub fn has_bird_mode(&self) -> (r: bool)
        ensures
            r == self.has(FEATURE_BIRD_MODE),
    {
        self.has_flag(FEATURE_BIRD_MODE)
    }

    pub fn has_auto_rain(&self) -> (r: bool)
        ensures
            r == self.has(FEATURE_AUTO_RAIN),
    {
        self.has_flag(FEATURE_AUTO_RAIN)
    }

    pub fn has_marpa(&self) -> (r: bool)
        ensures
            r == self.has(FEATURE_MARPA),
    {
        self.has_flag(FEATURE_MARPA)
    }

    pub fn has_dual_range_marpa(&self) -> (r: bool)
        ensures
            r == self.has(FEATURE_DUAL_RANGE_MARPA),
    {
        self.has_flag(FEATURE_DUAL_RANGE_MARPA)
    }

    pub fn is_analogue(&self) -> (r: bool)
        ensures
            r == self.has(FEATURE_ANALOGUE),
    {
        self.has_flag(FEATURE_ANALOGUE)
    }

    pub fn is_digital(&self) -> (r: bool)
        ensures
            r == self.has(FEATURE_DIGITAL),
    {
        self.has_flag(FEATURE_DIGITAL)
    }
}

/// Doppler and bird mode are reported separately: setting one does not touch the
/// other.
pub proof fn law_features_are_separate(raw: u32)
    ensures
        (FeatureFlags { raw: raw | FEATURE_DOPPLER }).has(FEATURE_DOPPLER),
        (FeatureFlags { raw: raw | FEATURE_BIRD_MODE }).has(FEATURE_BIRD_MODE),
        (FeatureFlags { raw: raw | FEATURE_DOPPLER }).has(FEATURE_BIRD_MODE) == (FeatureFlags {
            raw,
        }).has(FEATURE_BIRD_MODE),
        (FeatureFlags { raw: raw | FEATURE_BIRD_MODE }).has(FEATURE_DOPPLER) == (FeatureFlags {
            raw,
        }).has(FEATURE_DOPPLER),
{
    assert((raw | 0x80000) & 0x80000 != 0) by (bit_vector);
    assert((raw | 0x400) & 0x400 != 0) by (bit_vector);
    assert((raw | 0x80000) & 0x400 == raw & 0x400) by (bit_vector);
    assert((raw | 0x400) & 0x80000 == raw & 0x80000) by (bit_vector);
}

// Reports

/// What a report is about.
#[derive(Clone, Copy, Debug, PartialEq, Eq, Structural)]
pub enum ReportKind {
    RdStatus,
    RdFixed,
    RdFrame,
    RdInfo,
    QuantumInfo,
    QuantumStatus,
    QuantumFrame,
    QuantumFeatures,
    QuantumDoppler,
    /// Nothing that is looked at.
    Other,
}

/// What a report with id `id` is about.
pub open spec fn kind_of(id: u32) -> ReportKind {
    if id == MSG_RD_STATUS || id == MSG_RD_STATUS_HD {
        ReportKind::RdStatus
    } else if id == MSG_RD_FIXED {
        ReportKind::RdFixed
    } else if id == MSG_RD_SPOKE {
        ReportKind::RdFrame
    } else if id == MSG_RD_INFO {
        ReportKind::RdInfo
    } else if id == MSG_QUANTUM_ATTRIBUTES {
        ReportKind::QuantumInfo
    } else if id == MSG_QUANTUM_STATUS {
        ReportKind::QuantumStatus
    } else if id == MSG_QUANTUM_SPOKE {
        ReportKind::QuantumFrame
    } else if id == MSG_QUANTUM_FEATURES {
        ReportKind::QuantumFeatures
    } else if id == MSG_QUANTUM_DOPPLER_STATUS {
        ReportKind::QuantumDoppler
    } else {
        ReportKind::Other
    }
}

/// What a report is about. `None` when it has no whole id.
pub fn process_report(data: &[u8]) -> (r: Option<ReportKind>)
    ensures
        r == if data@.len() < 4 {
            None
        } else {
            Some(kind_of(bytes::le32(data@, 0) as u32))
        },
{
    if data.len() < 4 {
        return None;
    }
    Some(
        match get_le32(data, 0) {
            MSG_RD_STATUS | MSG_RD_STATUS_HD => ReportKind::RdStatus,
            MSG_RD_FIXED => ReportKind::RdFixed,
            MSG_RD_SPOKE => ReportKind::RdFrame,
            MSG_RD_INFO => ReportKind::RdInfo,
            MSG_QUANTUM_ATTRIBUTES => ReportKind::QuantumInfo,
            MSG_QUANTUM_STATUS => ReportKind::QuantumStatus,
            MSG_QUANTUM_SPOKE => ReportKind::QuantumFrame,
            MSG_QUANTUM_FEATURES => ReportKind::QuantumFeatures,
            MSG_QUANTUM_DOPPLER_STATUS => ReportKind::QuantumDoppler,
            _ => ReportKind::Other,
        },
    )
}

/// What is known of a radar.
#[derive(Clone, Copy, Debug, PartialEq, Eq, Structural)]
pub struct RaymarineState {
    pub features: FeatureFlags,
    pub features_seen: bool,
    /// Whether the radar marks Doppler returns.
    pub doppler: bool,
    pub heartbeat_counter: u32,
}

/// The state after a feature report. Only the first whole one counts.
pub open spec fn features_state(s: RaymarineState, data: Seq<u8>) -> RaymarineState {
    if data.len() < 8 || s.features_seen {
        s
    } else {
        let features = FeatureFlags { raw: bytes::le32(data, 4) as u32 };
        RaymarineState {
            features,
            features_seen: true,
            doppler: features.has(FEATURE_DOPPLER),
            ..s
        }
    }
}

/// Which keep-alive packets a radar is sent.
pub open spec fn heartbeat(s: RaymarineState, has_sender: bool) -> Heartbeat {
    Heartbeat { short: has_sender, extended: has_sender && s.heartbeat_counter % 5 == 0 }
}

/// The state with one keep-alive more.
pub open spec fn counted(s: RaymarineState) -> RaymarineState {
    RaymarineState { heartbeat_counter: (s.heartbeat_counter + 1) as u32, ..s }
}

/// Which keep-alive packets to send.
#[derive(Clone, Copy, Debug, PartialEq, Eq, Structural)]
pub struct Heartbeat {
    pub short: bool,
    pub extended: bool,
}

impl RaymarineState {
    /// Nothing known. `doppler` is what the model is expected to do.
    pub fn new(doppler: bool) -> (r: RaymarineState)
        ensures
            r == (RaymarineState {
                features: FeatureFlags { raw: 0 },
                features_seen: false,
                doppler,
                heartbeat_counter: 0,
            }),
    {
        RaymarineState {
            features: FeatureFlags { raw: 0 },
            features_seen: false,
            doppler,
            heartbeat_counter: 0,
        }
    }

    /// Process a feature report. Returns whether the palette and the sample
    /// tables have to be made anew, since the radar marks Doppler returns now
    /// or does not any more.
    pub fn process_features(&mut self, data: &[u8]) -> (r: bool)
        ensures
            *final(self) == features_state(*old(self), data@),
            r == (final(self).doppler != old(self).doppler),
    {
        if data.len() < 8 || self.features_seen {
            return false;
        }
        let features = FeatureFlags { raw: get_le32(data, 4) };
        let changed = features.has_doppler() != self.doppler;
        self.doppler = features.has_doppler();
        self.features = features;
        self.features_seen = true;
        changed
    }

    /// Which keep-alive packets to send, once a second: the short one always,
    /// the extended one every fifth time. Without a sender there are none.
    pub fn send_heartbeat(&self, has_sender: bool) -> (r: Heartbeat)
        ensures
            r == heartbeat(*self, has_sender),
    {
        Heartbeat { short: has_sender, extended: has_sender && self.heartbeat_counter % 5 == 0 }
    }

    /// Count a keep-alive, once all its packets were sent. One that failed is not
    /// counted, and is tried again.
    pub fn heartbeat_sent(&mut self)
        requires
            old(self).heartbeat_counter < u32::MAX,
        ensures
            *final(self) == counted(*old(self)),
    {
        self.heartbeat_counter += 1;
    }
}

/// Of five keep-alives that were sent, one after the other, exactly one is extended.
pub proof fn law_one_heartbeat_in_five_is_extended(s: RaymarineState, i: int)
    requires
        s.heartbeat_counter % 5 == 0,
        0 <= i < 5,
        s.heartbeat_counter + i <= u32::MAX,
    ensures
        heartbeat(
            RaymarineState { heartbeat_counter: (s.heartbeat_counter + i) as u32, ..s },
            true,
        ) == (Heartbeat { short: true, extended: i == 0 }),
{
}

/// Once the features were taken, no further report changes them.
pub proof fn law_first_features_count(s: RaymarineState, first: Seq<u8>, second: Seq<u8>)
    requires
        first.len() >= 8,
    ensures
        features_state(features_state(s, first), second) == features_state(s, first),
{
}

/// Samples are halved where the palette has room for half of them, and taken as they are
/// where it has not; with Doppler the highest is an approaching target and the second
/// highest a receding one, and no other changes.
pub proof fn law_samples_are_told_apart(
    legend: Legend,
    approaching: (u8, u8),
    receding: (u8, u8),
    j: int,
)
    requires
        legend.doppler_approaching == Some(approaching),
        legend.doppler_receding == Some(receding),
        0 <= j < 256,
    ensures
        legend.pixel_colors >= 128 ==> 2 * blob(legend, false, j) <= j <= 2 * blob(legend, false, j)
            + 1,
        legend.pixel_colors < 128 ==> blob(legend, false, j) == j,
        blob(legend, true, 0xff) == approaching.0,
        blob(legend, true, 0xfe) == receding.0,
        j < 0xfe ==> blob(legend, true, j) == blob(legend, false, j),
{
}

/// What reports are about, by the ids that stand in them.
pub proof fn law_reports_are_told_apart(data: Seq<u8>, id: int)
    requires
        data.len() >= 4,
        bytes::holds32(data, 0, id),
    ensures
        ({
            let kind = kind_of(bytes::le32(data, 0) as u32);
            &&& id == 0x010001 || id == 0x018801 <==> kind == ReportKind::RdStatus
            &&& id == 0x010002 <==> kind == ReportKind::RdFixed
            &&& id == 0x010003 <==> kind == ReportKind::RdFrame
            &&& id == 0x010006 <==> kind == ReportKind::RdInfo
            &&& id == 0x280001 <==> kind == ReportKind::QuantumInfo
            &&& id == 0x280002 <==> kind == ReportKind::QuantumStatus
            &&& id == 0x280003 <==> kind == ReportKind::QuantumFrame
            &&& id == 0x280007 <==> kind == ReportKind::QuantumFeatures
            &&& id == 0x280030 <==> kind == ReportKind::QuantumDoppler
        }),
{
    bytes::law_numbers_read_back(data, 0, id);
}

/// A feature is there where its bit is set: a mask of one bit is that bit of the number.
pub proof fn law_features_are_bits(raw: u32)
    ensures
        ({
            let f = FeatureFlags { raw };
            &&& f.has(0x1) <==> raw % 2 == 1
            &&& f.has(0x4) <==> raw / 0x4 % 2 == 1
            &&& f.has(0x10) <==> raw / 0x10 % 2 == 1
            &&& f.has(0x400) <==> raw / 0x400 % 2 == 1
            &&& f.has(0x4000) <==> raw / 0x4000 % 2 == 1
            &&& f.has(0x10000) <==> raw / 0x10000 % 2 == 1
            &&& f.has(0x40000) <==> raw / 0x40000 % 2 == 1
            &&& f.has(0x80000) <==> raw / 0x80000 % 2 == 1
            &&& f.has(0x100000) <==> raw / 0x100000 % 2 == 1
            &&& f.has(0x800000) <==> raw / 0x800000 % 2 == 1
            &&& f.has(0x2000000) <==> raw / 0x2000000 % 2 == 1
        }),
{
    assert((raw & 0x1 != 0) == (raw % 2 == 1) && (raw & 0x4 != 0) == (raw / 0x4 % 2 == 1) && (raw
        & 0x10 != 0) == (raw / 0x10 % 2 == 1) && (raw & 0x400 != 0) == (raw / 0x400 % 2 == 1) && (
    raw & 0x4000 != 0) == (raw / 0x4000 % 2 == 1) && (raw & 0x10000 != 0) == (raw / 0x10000 % 2
        == 1) && (raw & 0x40000 != 0) == (raw / 0x40000 % 2 == 1) && (raw & 0x80000 != 0) == (raw
        / 0x80000 % 2 == 1) && (raw & 0x100000 != 0) == (raw / 0x100000 % 2 == 1) && (raw & 0x800000
        != 0) == (raw / 0x800000 % 2 == 1) && (raw & 0x2000000 != 0) == (raw / 0x2000000 % 2 == 1))
        by (bit_vector);
}

/// The features that a radar reports are taken over as they stand, and Doppler returns are
/// marked from there on where it reports that it marks them.
pub proof fn law_features_read_back(s: RaymarineState, data: Seq<u8>, raw: int)
    requires
        data.len() >= 8,
        !s.features_seen,
        bytes::holds32(data, 4, raw),
    ensures
        ({
            let next = features_state(s, data);
            &&& next.features.raw == raw
            &&& next.features_seen
            &&& next.doppler <==> raw / 0x80000 % 2 == 1
            &&& next.heartbeat_counter == s.heartbeat_counter
        }),
{
    bytes::law_numbers_read_back(data, 4, raw);
    law_features_are_bits(raw as u32);
}

/// Keep-alives are counted one by one: the fifth one behind an extended one is extended
/// again, and without a sender there are none.
pub proof fn law_heartbeats_are_counted(s: RaymarineState)
    requires
        s.heartbeat_counter < u32::MAX - 5,
    ensures
        counted(s).heartbeat_counter == s.heartbeat_counter + 1,
        counted(s).features == s.features && counted(s).doppler == s.doppler
            && counted(s).features_seen == s.features_seen,
        heartbeat(s, true).extended == heartbeat(
            counted(counted(counted(counted(counted(s))))),
            true,
        ).extended,
        heartbeat(s, true).extended ==> !heartbeat(counted(s), true).extended,
        !heartbeat(s, false).short && !heartbeat(s, false).extended,
        heartbeat(s, true).short,
{
}

} // verus!
