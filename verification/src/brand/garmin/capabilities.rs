//! The capabilities that a Garmin radar reports.
//!
//! xHD and later radars report 320 bits, as five 64-bit words behind an 8-byte
//! header. Bit `b` is bit `b % 64` of word `b / 64`. Legacy HD radars report
//! nothing; their capabilities are fixed.

use vstd::prelude::*;

use crate::bytes;
use crate::bytes::get_le64;

pub mod cap;

verus! {

/// Number of 64-bit words on the wire.
pub const CAP_WORDS: usize = 5;

/// Offset of the first word.
pub const CAP_BODY_FIRST_WORD_OFFSET: usize = 8;

/// Length of a capability message body.
pub const CAP_BODY_TOTAL_LEN: usize = 48;

/// Number of capability bits.
pub const CAP_BITS: u32 = 320;

/// The capabilities of a legacy HD radar.
pub const LEGACY_HD_BITS: [u32; 24] = [
    cap::RANGE_MODE,
    cap::RANGE_MODE_TOGGLE,
    cap::RPM_MODE,
    cap::TRANSMIT_MODE,
    cap::FRONT_OF_BOAT,
    cap::PARK_POSITION,
    cap::NO_TX_ZONE_1_MODE,
    cap::NO_TX_ZONE_1_START,
    cap::NO_TX_ZONE_1_STOP,
    cap::SENTRY_MODE,
    cap::SENTRY_TRANSMIT_TIME,
    cap::SENTRY_STANDBY_TIME,
    cap::DITHER_MODE,
    cap::NOISE_BLANKER_MODE,
    cap::RANGE_A,
    cap::RANGE_A_GAIN_MODE,
    cap::RANGE_A_GAIN,
    cap::RANGE_A_RAIN_GAIN,
    cap::RANGE_A_SEA_MODE,
    cap::RANGE_A_SEA_STATE,
    cap::RANGE_A_SEA_GAIN,
    cap::AFC_MODE,
    cap::AFC_SETTING,
    cap::AFC_COARSE,
];

/// The capabilities of a radar.
#[derive(Clone, Copy, Debug, PartialEq, Eq)]
pub struct GarminCapabilities {
    pub bits: [u64; 5],
}

/// Whether bit `shift` of a word is set.
pub open spec fn bit_of(word: u64, shift: u32) -> bool {
    (word >> (shift as u64)) & 1 != 0
}

/// Whether bit `bit` is set in five words.
pub open spec fn has_bit(words: Seq<u64>, bit: u32) -> bool {
    bit < CAP_BITS && bit_of(words[bit as int / 64], bit % 64)
}

/// Whether a capability message body is long enough.
pub open spec fn is_complete(payload: Seq<u8>) -> bool {
    payload.len() >= CAP_BODY_TOTAL_LEN
}

/// The set of capabilities that a message body reports.
pub open spec fn reported(payload: Seq<u8>) -> Set<u32> {
    Set::new(
        |bit: u32|
            bit < CAP_BITS && bit_of(bytes::le64(payload, 8 + 8 * (bit as int / 64)) as u64, bit % 64),
    )
}

impl View for GarminCapabilities {
    type V = Set<u32>;

    open spec fn view(&self) -> Set<u32> {
        Set::new(|bit: u32| has_bit(self.bits@, bit))
    }
}

proof fn lemma_empty_word(shift: u32)
    by (bit_vector)
    ensures
        (0u64 >> (shift as u64)) & 1 == 0,
{
}

proof fn lemma_set_bit(word: u64, s: u64, t: u64)
    by (bit_vector)
    requires
        s < 64,
        t < 64,
    ensures
        ((word | (1u64 << s)) >> t) & 1 != 0 <==> (word >> t) & 1 != 0 || t == s,
{
}

/// Whether the radar marks Doppler returns on any range.
pub open spec fn motionscope(caps: Set<u32>) -> bool {
    caps.contains(cap::DOPPLER_RANGE_A) || caps.contains(cap::DOPPLER_RANGE_B)
}

/// Whether the Doppler sensitivity can be set.
pub open spec fn doppler_sensitivity(caps: Set<u32>) -> bool {
    caps.contains(cap::DOPPLER_SENSITIVITY_A) || caps.contains(cap::DOPPLER_SENSITIVITY_B)
}

impl GarminCapabilities {
    /// No capabilities.
    pub fn empty() -> (r: GarminCapabilities)
        ensures
            r@ == Set::<u32>::empty(),
    {
        let r = GarminCapabilities { bits: [0u64, 0, 0, 0, 0] };
        proof {
            assert forall|bit: u32| !r@.contains(bit) by {
                lemma_empty_word(bit % 64);
            }
            assert(r@ =~= Set::<u32>::empty());
        }
        r
    }

    /// The capabilities of a legacy HD radar.
    pub fn for_legacy_hd() -> (r: GarminCapabilities)
        ensures
            r@ == LEGACY_HD_BITS@.to_set(),
    {
        let mut caps = GarminCapabilities::empty();
        let mut i: usize = 0;
        while i < 24
            invariant
                i <= 24,
                forall|bit: u32|
                    caps@.contains(bit) <==> exists|k: int|
                        0 <= k < i && #[trigger] LEGACY_HD_BITS@[k] == bit,
            decreases 24 - i,
        {
            let bit: u32 = LEGACY_HD_BITS[i];
            let ghost before = caps@;
            caps.set(bit);
            i += 1;
            proof {
                assert(LEGACY_HD_BITS@[i - 1] == bit);
                assert(bit < CAP_BITS);
                assert forall|b: u32|
                    caps@.contains(b) <==> exists|k: int|
                        0 <= k < i && #[trigger] LEGACY_HD_BITS@[k] == b by {
                    if before.contains(b) {
                        let k = choose|k: int| 0 <= k < i - 1 && LEGACY_HD_BITS@[k] == b;
                        assert(LEGACY_HD_BITS@[k] == b);
                    }
                }
            }
        }
        proof {
            assert forall|bit: u32| caps@.contains(bit) <==> LEGACY_HD_BITS@.to_set().contains(
                bit,
            ) by {
                if caps@.contains(bit) {
                    let k = choose|k: int| 0 <= k < i && LEGACY_HD_BITS@[k] == bit;
                    assert(LEGACY_HD_BITS@.contains(bit));
                }
            }
            assert(caps@ =~= LEGACY_HD_BITS@.to_set());
        }
        caps
    }

    /// Read a capability message body.
    pub fn parse(payload: &[u8]) -> (r: Option<GarminCapabilities>)
        ensures
            r is Some <==> is_complete(payload@),
            r matches Some(caps) ==> caps@ == reported(payload@),
    {
        if payload.len() < CAP_BODY_TOTAL_LEN {
            return None;
        }
        let bits: [u64; 5] = [
            get_le64(payload, 8),
            get_le64(payload, 16),
            get_le64(payload, 24),
            get_le64(payload, 32),
            get_le64(payload, 40),
        ];
        let caps = GarminCapabilities { bits };
        assert(caps@ =~= reported(payload@));
        Some(caps)
    }

    /// Whether the radar has a capability. Bits that do not exist are not set.
    pub fn has(&self, bit: u32) -> (r: bool)
        ensures
            r == self@.contains(bit),
    {
        if bit >= CAP_BITS {
            return false;
        }
        let word: usize = (bit / 64) as usize;
        let shift: u64 = (bit % 64) as u64;
        (self.bits[word] >> shift) & 1 != 0
    }

    /// Add a capability. Bits that do not exist are left out.
    pub fn set(&mut self, bit: u32)
        ensures
            final(self)@ == if bit < CAP_BITS {
                old(self)@.insert(bit)
            } else {
                old(self)@
            },
    {
        let word: usize = (bit / 64) as usize;
        let shift: u64 = (bit % 64) as u64;
        if word < CAP_WORDS {
            let before: u64 = self.bits[word];
            let after: u64 = before | (1u64 << shift);
            self.bits[word] = after;
            proof {
                assert forall|b: u32| self@.contains(b) <==> old(self)@.contains(b) || b == bit by {
                    lemma_set_bit(before, shift, (b % 64) as u64);
                }
                assert(self@ =~= old(self)@.insert(bit));
            }
        }
    }

    pub fn has_dual_range(&self) -> (r: bool)
        ensures
            r == self@.contains(cap::RANGE_B),
    {
        self.has(cap::RANGE_B)
    }

    pub fn has_motionscope(&self) -> (r: bool)
        ensures
            r == motionscope(self@),
    {
        self.has(cap::DOPPLER_RANGE_A) || self.has(cap::DOPPLER_RANGE_B)
    }

    pub fn has_doppler_sensitivity(&self) -> (r: bool)
        ensures
            r == doppler_sensitivity(self@),
    {
        self.has(cap::DOPPLER_SENSITIVITY_A) || self.has(cap::DOPPLER_SENSITIVITY_B)
    }

    pub fn has_echo_trails(&self) -> (r: bool)
        ensures
            r == self@.contains(cap::ECHO_TRAIL_MODE_A),
    {
        self.has(cap::ECHO_TRAIL_MODE_A)
    }

    pub fn has_pulse_expansion(&self) -> (r: bool)
        ensures
            r == self@.contains(cap::PULSE_EXPANSION_A),
    {
        self.has(cap::PULSE_EXPANSION_A)
    }

    pub fn has_target_size_mode(&self) -> (r: bool)
        ensures
            r == self@.contains(cap::TARGET_SIZE_MODE_A),
    {
        self.has(cap::TARGET_SIZE_MODE_A)
    }

    pub fn has_no_tx_zone_1(&self) -> (r: bool)
        ensures
            r == self@.contains(cap::NO_TX_ZONE_1_MODE),
    {
        self.has(cap::NO_TX_ZONE_1_MODE)
    }

    pub fn has_no_tx_zone_2(&self) -> (r: bool)
        ensures
            r == self@.contains(cap::NO_TX_ZONE_2_MODE),
    {
        self.has(cap::NO_TX_ZONE_2_MODE)
    }

    pub fn has_sentry_mode(&self) -> (r: bool)
        ensures
            r == self@.contains(cap::SENTRY_MODE),
    {
        self.has(cap::SENTRY_MODE)
    }

    pub fn has_afc(&self) -> (r: bool)
        ensures
            r == self@.contains(cap::AFC_MODE),
    {
        self.has(cap::AFC_MODE)
    }

    pub fn has_open_array_antenna(&self) -> (r: bool)
        ensures
            r == self@.contains(cap::ANTENNA_SIZE),
    {
        self.has(cap::ANTENNA_SIZE)
    }

    pub fn has_scan_average(&self) -> (r: bool)
        ensures
            r == self@.contains(cap::SCAN_AVERAGE_MODE_A),
    {
        self.has(cap::SCAN_AVERAGE_MODE_A)
    }

    pub fn has_power_save(&self) -> (r: bool)
        ensures
            r == self@.contains(cap::POWER_SAVE_MODE),
    {
        self.has(cap::POWER_SAVE_MODE)
    }

    pub fn has_transmit_channel_select(&self) -> (r: bool)
        ensures
            r == self@.contains(cap::TRANSMIT_CHANNEL_MODE),
    {
        self.has(cap::TRANSMIT_CHANNEL_MODE)
    }

    /// Whether the radar reports any capability of the Fantom class.
    pub fn is_fantom(&self) -> (r: bool)
        ensures
            r == (motionscope(self@) || doppler_sensitivity(self@)),
    {
        self.has_motionscope() || self.has_doppler_sensitivity()
    }
}

/// Legacy HD radars have one range, no Doppler and no second no-transmit zone.
pub proof fn law_legacy_hd_is_basic()
    ensures
        !LEGACY_HD_BITS@.to_set().contains(cap::RANGE_B),
        !motionscope(LEGACY_HD_BITS@.to_set()),
        !doppler_sensitivity(LEGACY_HD_BITS@.to_set()),
        !LEGACY_HD_BITS@.to_set().contains(cap::NO_TX_ZONE_2_MODE),
{
    assert forall|k: int| 0 <= k < 24 implies #[trigger] LEGACY_HD_BITS@[k] < cap::RANGE_B
        || LEGACY_HD_BITS@[k] == cap::AFC_MODE || LEGACY_HD_BITS@[k] == cap::AFC_SETTING
        || LEGACY_HD_BITS@[k] == cap::AFC_COARSE by {}
}

/// The value of bit `k` of a byte.
pub open spec fn weight(k: int) -> int {
    if k == 0 {
        1
    } else if k == 1 {
        2
    } else if k == 2 {
        4
    } else if k == 3 {
        8
    } else if k == 4 {
        16
    } else if k == 5 {
        32
    } else if k == 6 {
        64
    } else {
        128
    }
}

proof fn lemma_byte_bit(b: u8)
    ensures
        (b >> 0u8) & 1 == b % 2,
        (b >> 1u8) & 1 == b / 2 % 2,
        (b >> 2u8) & 1 == b / 4 % 2,
        (b >> 3u8) & 1 == b / 8 % 2,
        (b >> 4u8) & 1 == b / 16 % 2,
        (b >> 5u8) & 1 == b / 32 % 2,
        (b >> 6u8) & 1 == b / 64 % 2,
        (b >> 7u8) & 1 == b / 128 % 2,
{
    assert((b >> 0u8) & 1 == b % 2 && (b >> 1u8) & 1 == b / 2 % 2 && (b >> 2u8) & 1 == b / 4 % 2 && (
    b >> 3u8) & 1 == b / 8 % 2 && (b >> 4u8) & 1 == b / 16 % 2 && (b >> 5u8) & 1 == b / 32 % 2 && (b
        >> 6u8) & 1 == b / 64 % 2 && (b >> 7u8) & 1 == b / 128 % 2) by (bit_vector);
}

proof fn lemma_word_bit(
    w: u64,
    b0: u8,
    b1: u8,
    b2: u8,
    b3: u8,
    b4: u8,
    b5: u8,
    b6: u8,
    b7: u8,
    s: u64,
)
    by (bit_vector)
    requires
        s < 64,
        w == b0 + 0x100 * b1 + 0x1_0000 * b2 + 0x100_0000 * b3 + 0x1_0000_0000 * b4
            + 0x100_0000_0000 * b5 + 0x1_0000_0000_0000 * b6 + 0x100_0000_0000_0000 * b7,
    ensures
        (w >> s) & 1 == (if s < 8 {
            (b0 >> (s as u8)) & 1
        } else if s < 16 {
            (b1 >> ((s - 8) as u8)) & 1
        } else if s < 24 {
            (b2 >> ((s - 16) as u8)) & 1
        } else if s < 32 {
            (b3 >> ((s - 24) as u8)) & 1
        } else if s < 40 {
            (b4 >> ((s - 32) as u8)) & 1
        } else if s < 48 {
            (b5 >> ((s - 40) as u8)) & 1
        } else if s < 56 {
            (b6 >> ((s - 48) as u8)) & 1
        } else {
            (b7 >> ((s - 56) as u8)) & 1
        }),
{
}

/// The capabilities are bits in the order of the bytes, eight to each from the low end:
/// a capability is reported where its bit is set.
pub proof fn law_capabilities_are_numbered(payload: Seq<u8>, capability: u32)
    requires
        payload.len() >= 48,
    ensures
        capability >= 320 ==> !reported(payload).contains(capability),
        capability < 320 ==> (reported(payload).contains(capability) <==> payload[8 + capability
            as int / 8] as int / weight(capability as int % 8) % 2 == 1),
{
    if capability < 320 {
        let q = capability as int / 64;
        let at = 8 + 8 * q;
        let s = capability % 64;
        let word = bytes::le64(payload, at) as u64;
        assert(bytes::le64(payload, at) == bytes::le32(payload, at) + 0x1_0000_0000 * bytes::le32(
            payload,
            at + 4,
        ));
        lemma_word_bit(
            word,
            payload[at],
            payload[at + 1],
            payload[at + 2],
            payload[at + 3],
            payload[at + 4],
            payload[at + 5],
            payload[at + 6],
            payload[at + 7],
            s as u64,
        );
        let b = payload[8 + capability as int / 8];
        assert(8 + capability as int / 8 == at + s as int / 8);
        lemma_byte_bit(b);
    }
}

/// A message of forty-eight bytes is complete, and a shorter one is not.
pub proof fn law_capabilities_take_48_bytes(payload: Seq<u8>)
    ensures
        is_complete(payload) <==> payload.len() >= 48,
{
}

} // verus!
