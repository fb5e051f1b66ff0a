//! Garmin radars.

use mayara::brand::garmin::capabilities::{cap, GarminCapabilities};
use mayara::brand::garmin::command::{
    build_packet_10, build_packet_12, build_packet_9, Command, GarminRequest,
};
use mayara::brand::garmin::discovery;
use mayara::brand::garmin::discovery::product_name;
use mayara::brand::garmin::locator::{
    detect_model_name, hd_ranges, GarminLocator, LocatorAction,
};
use mayara::brand::garmin::protocol;
use mayara::brand::garmin::protocol::{
    GarminRadarType, NoTxZone, CMD_HD_SET_RANGE_A, MSG_BEARING_ALIGNMENT, MSG_CAPABILITY,
    MSG_CDM_HEARTBEAT, MSG_HD_SETTINGS, MSG_HD_SPOKE, MSG_HD_STATE,
    MSG_NO_TX_ZONE_1_MODE, MSG_NO_TX_ZONE_1_START, MSG_NO_TX_ZONE_1_STOP, MSG_NO_TX_ZONE_2_MODE,
    MSG_NO_TX_ZONE_2_START, MSG_NO_TX_ZONE_2_STOP, MSG_RANGE_A, MSG_RANGE_A_GAIN,
    MSG_RANGE_A_GAIN_MODE, MSG_RANGE_B, MSG_RANGE_TABLE, MSG_SCANNER_STATE, MSG_TRANSMIT_MODE,
};
use mayara::brand::garmin::range_table;
use mayara::brand::garmin::report::{
    extract_value, is_legend_usable, pixel_to_blob, unpack_hd_spoke, GarminReportReceiver,
    PacketError,
};
use mayara::brand::garmin::settings;
use mayara::radar::{
    ControlId, ControlRequest, Legend, Power, RangeId, Update, BYTE_LOOKUP_LENGTH,
};


/// Capability message body of a GMR xHD: a header, then five 64-bit words.
const SAMPLE_0X09B1_BODY: [u8; 48] = [
    // header
    0x01, 0x00, 0x30, 0x00, 0x9d, 0x00, 0x0a, 0x00, // word 0
    0xdf, 0xfe, 0xff, 0xff, 0xff, 0xff, 0xff, 0xff, // word 1
    0xff, 0xff, 0xff, 0xff, 0xff, 0xff, 0xff, 0xff, // word 2
    0xfd, 0xff, 0xff, 0x07, 0x00, 0x00, 0x00, 0x00, // word 3
    0x00, 0x00, 0x00, 0x00, 0x00, 0x00, 0x00, 0x00, // word 4
    0x00, 0x00, 0x00, 0x00, 0x00, 0x00, 0x00, 0x00,
];

#[test]
fn parse_xhd_capability_message() {
    let caps = GarminCapabilities::parse(&SAMPLE_0X09B1_BODY).unwrap();

    // Word 0 = 0xfffffffffffffedf — almost everything in the basic
    // 0..63 range is supported.
    assert!(caps.has(cap::TRANSMIT_MODE));
    assert!(caps.has(cap::RPM_MODE));
    assert!(caps.has(cap::FRONT_OF_BOAT));
    assert!(caps.has(cap::SENTRY_MODE));

    // Word 1 = 0xffffffffffffffff — every bit in the 64..127 range
    // is set, which covers range A, range B, AFC, and the open
    // array antenna size bit. The captured GMR xHD reports dual
    // range capability even though that's usually attributed to
    // xHD2+ — the MFD appears to set the entire word
    // unconditionally.
    assert!(caps.has(cap::RANGE_A));
    assert!(caps.has(cap::RANGE_A_GAIN));
    assert!(caps.has(cap::RANGE_A_SEA_GAIN));
    assert!(caps.has_dual_range());
    assert!(caps.has_afc());

    // Word 2 = 0x0000_0007_ffff_fffd — bit 0 set, bits 2..26 set,
    // everything above unset. Bit 0 of word 2 is caps bit 128 (no
    // named feature in our table), bits 2..26 cover caps bits
    // 130..154 — none of which map to echo trails (0xa6=166),
    // pulse expansion (0xab=171), or any of the other Fantom
    // features. So the captured xHD has none of those.
    assert!(!caps.has_echo_trails());
    assert!(!caps.has_pulse_expansion());

    // Word 3+ are zero — no Fantom MotionScope, no second no-TX
    // zone, no Doppler sensitivity.
    assert!(!caps.has_motionscope());
    assert!(!caps.has_doppler_sensitivity());
    assert!(!caps.is_fantom());
    assert!(!caps.has_no_tx_zone_2());
}

#[test]
fn parse_too_short_returns_none() {
    assert!(GarminCapabilities::parse(&[0u8; 47]).is_none());
}

#[test]
fn legacy_hd_capabilities_match_expected() {
    let caps = GarminCapabilities::for_legacy_hd();
    // The legacy bitmap covers single range, gain, clutter, sentry,
    // dither, no-TX zone 1.
    assert!(caps.has(cap::TRANSMIT_MODE));
    assert!(caps.has(cap::RANGE_A));
    assert!(caps.has(cap::RANGE_A_GAIN));
    assert!(caps.has(cap::RANGE_A_SEA_GAIN));
    assert!(caps.has(cap::RANGE_A_RAIN_GAIN));
    assert!(caps.has(cap::SENTRY_MODE));
    assert!(caps.has(cap::DITHER_MODE));
    assert!(caps.has(cap::NO_TX_ZONE_1_MODE));
    // HD has no dual range, no Doppler, no second no-TX zone.
    assert!(!caps.has_dual_range());
    assert!(!caps.has_motionscope());
    assert!(!caps.has_no_tx_zone_2());
}

#[test]
fn no_tx_zone_2_accessor_checks_bit_0xbf() {
    // Bit 0xbf (191) is in word 2 (191/64=2) at bit 63 (191%64=63),
    // i.e. the high bit of the third u64. Set just that bit and
    // verify the convenience accessor finds it without seeing any
    // other zone 2 bits.
    let mut caps = GarminCapabilities::empty();
    caps.set(cap::NO_TX_ZONE_2_MODE);
    assert!(caps.has_no_tx_zone_2());
    assert!(!caps.has_no_tx_zone_1());
    assert!(!caps.has_motionscope());
}

#[test]
fn empty_caps_have_nothing() {
    let caps = GarminCapabilities::empty();
    assert!(!caps.has(cap::TRANSMIT_MODE));
    assert!(!caps.has(cap::RANGE_A));
    assert!(!caps.has_dual_range());
    assert!(!caps.is_fantom());
}



#[test]
fn build_packet_9_layout() {
    // 0x919 = MSG_TRANSMIT_MODE; payload `1` puts the radar in
    // transmit mode.
    let buf = build_packet_9(MSG_TRANSMIT_MODE, 1);
    assert_eq!(
        buf,
        [
            0x19, 0x09, 0x00, 0x00, // packet_type = 0x0919
            0x01, 0x00, 0x00, 0x00, // payload_len = 1
            0x01, // value
        ]
    );
}

#[test]
fn build_packet_10_layout() {
    // 0x925 = MSG_RANGE_A_GAIN; gain × 100, e.g. 50 % → 5000.
    let buf = build_packet_10(MSG_RANGE_A_GAIN, 5000);
    assert_eq!(
        buf,
        [
            0x25, 0x09, 0x00, 0x00, // packet_type = 0x0925
            0x02, 0x00, 0x00, 0x00, // payload_len = 2
            0x88, 0x13, // value = 5000 LE
        ]
    );
}

#[test]
fn build_packet_12_layout() {
    // 0x91e = MSG_RANGE_A; range in meters direct (no off-by-one
    // for enhanced protocol). 3704 m = 2 NM, the same value reported in the
    // captured pcap.
    let buf = build_packet_12(MSG_RANGE_A, 3704);
    assert_eq!(
        buf,
        [
            0x1e, 0x09, 0x00, 0x00, // packet_type = 0x091e
            0x04, 0x00, 0x00, 0x00, // payload_len = 4
            0x78, 0x0e, 0x00, 0x00, // value = 3704 LE
        ]
    );
}

#[test]
fn build_packet_12_signed_negative_via_unsigned_cast() {
    // Bearing alignment of -45 degrees is encoded as -45 * 32 = -1440, which goes
    // out in two's complement as 0xFFFFFA60.
    let value = -1440_i32;
    let buf = build_packet_12(MSG_BEARING_ALIGNMENT, value as u32);
    assert_eq!(
        buf,
        [
            0x30, 0x09, 0x00, 0x00, // packet_type = 0x0930
            0x04, 0x00, 0x00, 0x00, // payload_len = 4
            0x60, 0xfa, 0xff, 0xff, // value = -1440 i32 LE = 0xFFFFFA60
        ]
    );
}

#[test]
fn build_packet_12_hd_range_off_by_one() {
    // Legacy HD wire encodes meters - 1; the framing is that of the enhanced path.
    let buf = build_packet_12(CMD_HD_SET_RANGE_A, 1851);
    assert_eq!(buf[4..8], [0x04, 0x00, 0x00, 0x00]);
    assert_eq!(buf[0..4], CMD_HD_SET_RANGE_A.to_le_bytes());
    assert_eq!(buf[8..12], 1851u32.to_le_bytes());
}

#[test]
fn no_tx_zone_opcodes_match_protocol() {
    // Zone 1 = 0x093f / 0x0940 / 0x0941 — every enhanced-protocol radar.
    assert_eq!(
        NoTxZone::One.opcodes(),
        (
            MSG_NO_TX_ZONE_1_MODE,
            MSG_NO_TX_ZONE_1_START,
            MSG_NO_TX_ZONE_1_STOP,
        )
    );
    // Zone 2 = 0x096a / 0x096b / 0x096c — Fantom Pro / multi-zone.
    assert_eq!(
        NoTxZone::Two.opcodes(),
        (
            MSG_NO_TX_ZONE_2_MODE,
            MSG_NO_TX_ZONE_2_START,
            MSG_NO_TX_ZONE_2_STOP,
        )
    );
    // Sanity-check the literal hex values too — these are the bytes
    // that hit the wire and they're easy to typo.
    assert_eq!(NoTxZone::One.opcodes(), (0x093f, 0x0940, 0x0941));
    assert_eq!(NoTxZone::Two.opcodes(), (0x096a, 0x096b, 0x096c));
}



/// Heartbeat body of a GMR xHD.
const SAMPLE_BODY: [u8; 26] = [
    0x02, 0x00, // version=2, padding
    0xd0, 0x06, // product_id = 0x06d0
    0x00, // simulator_mode = 0
    0x05, // product_subtype = 5
    0x02, // syc_group_id = 2
    0x01, // constant
    0x01, 0x00, 0x00, 0x00, // service_count + padding
    0x01, 0x00, 0x02, 0x00, // service class/inst/version/reserved
    0xa0, 0x0a, 0xd4, 0x08, // service_id = 0x08d40aa0
    0x01, 0x04, 0x9b, 0x05, 0x00, 0x00, // tail (sequence)
];

#[test]
fn parse_captured_xhd_heartbeat() {
    let hb = discovery::parse(&SAMPLE_BODY).expect("should parse");
    assert_eq!(hb.version, 2);
    assert_eq!(hb.product_id, 0x06d0);
    assert_eq!(hb.simulator_mode, 0);
    assert_eq!(hb.product_subtype, 5);
    assert_eq!(product_name(hb.product_id), Some("GMR xHD"));
}

#[test]
fn parse_returns_none_on_short_body() {
    assert!(discovery::parse(&[]).is_none());
    assert!(discovery::parse(&[0u8; 11]).is_none());
}

#[test]
fn parse_rejects_wrong_version() {
    let mut body = SAMPLE_BODY;
    body[protocol::CDM_OFFSET_VERSION_MARKER] = 1;
    assert!(discovery::parse(&body).is_none());
}

#[test]
fn product_name_known_models() {
    assert_eq!(product_name(0x06d0), Some("GMR xHD"));
    assert_eq!(product_name(0x01fd), Some("GMR 18 HD"));
    assert_eq!(product_name(0x0195), Some("GMR 24 HD"));
    assert_eq!(product_name(0x9999), None);
}



#[test]
fn detect_radar_type_recognizes_hd_packets() {
    assert_eq!(
        GarminLocator::detect_radar_type(MSG_HD_SPOKE),
        Some(GarminRadarType::HD)
    );
    assert_eq!(
        GarminLocator::detect_radar_type(MSG_HD_STATE),
        Some(GarminRadarType::HD)
    );
    assert_eq!(
        GarminLocator::detect_radar_type(MSG_HD_SETTINGS),
        Some(GarminRadarType::HD)
    );
}

#[test]
fn detect_radar_type_recognizes_xhd_packets() {
    assert_eq!(
        GarminLocator::detect_radar_type(MSG_RANGE_A),
        Some(GarminRadarType::XHD)
    );
    assert_eq!(
        GarminLocator::detect_radar_type(MSG_TRANSMIT_MODE),
        Some(GarminRadarType::XHD)
    );
    assert_eq!(
        GarminLocator::detect_radar_type(MSG_SCANNER_STATE),
        Some(GarminRadarType::XHD)
    );
}

#[test]
fn detect_radar_type_returns_none_for_unrelated_packets() {
    // The CDM heartbeat is handled separately, not via detect_radar_type.
    assert_eq!(GarminLocator::detect_radar_type(MSG_CDM_HEARTBEAT), None);
    assert_eq!(GarminLocator::detect_radar_type(0xdeadbeef), None);
}

#[test]
fn hd_ranges_contains_metric_and_nautical_fractions() {
    let ranges = hd_ranges();
    let distances: Vec<i32> = ranges.all.iter().map(|r| r.distance()).collect();
    // Smallest is the 232 m (1/8 NM) entry shared by both tables.
    assert!(distances.contains(&232));
    // Both 250 m (metric) and 463 m (1/4 NM) appear, exercising the
    // dedupe path.
    assert!(distances.contains(&250));
    assert!(distances.contains(&463));
    // The largest entry is 88896 m (48 NM) — well within i32.
    assert!(distances.contains(&88896));
    // Ranges are sorted and deduped by new_by_distance.
    for w in distances.windows(2) {
        assert!(w[0] < w[1], "ranges should be sorted and deduped");
    }
}

#[test]
fn radar_type_supported_only_for_hd_and_xhd() {
    assert!(GarminRadarType::HD.is_supported());
    assert!(GarminRadarType::XHD.is_supported());
    assert!(!GarminRadarType::XHD2.is_supported());
    assert!(!GarminRadarType::XHD3.is_supported());
    assert!(!GarminRadarType::Fantom.is_supported());
}

#[test]
fn detect_model_name_from_capabilities() {
    // Plain xHD — no advanced bits
    let mut caps = GarminCapabilities::empty();
    caps.set(cap::TRANSMIT_MODE);
    assert_eq!(
        detect_model_name(GarminRadarType::XHD, &caps),
        "Garmin xHD"
    );

    // xHD2 — has pulse expansion
    caps.set(cap::PULSE_EXPANSION_A);
    assert_eq!(
        detect_model_name(GarminRadarType::XHD, &caps),
        "Garmin xHD2"
    );

    // Fantom — has Doppler
    caps.set(cap::DOPPLER_RANGE_A);
    assert_eq!(
        detect_model_name(GarminRadarType::XHD, &caps),
        "Garmin Fantom"
    );

    // Fantom Pro — has TX channel select
    caps.set(cap::TRANSMIT_CHANNEL_MODE);
    assert_eq!(
        detect_model_name(GarminRadarType::XHD, &caps),
        "Garmin Fantom Pro"
    );

    // HD is always HD
    assert_eq!(
        detect_model_name(GarminRadarType::HD, &caps),
        "Garmin HD"
    );
}



/// Range table message body of a GMR xHD.
const SAMPLE_0X09B2_BODY: [u8; 72] = [
    0x01, 0x00, 0x48, 0x00, 0x10, 0x00, 0x00, 0x00, // version=1, length=72, count=16
    0xe8, 0x00, 0x00, 0x00, // 232 m   (1/8 NM)
    0xcf, 0x01, 0x00, 0x00, // 463 m   (1/4 NM)
    0x9e, 0x03, 0x00, 0x00, // 926 m   (1/2 NM)
    0x6d, 0x05, 0x00, 0x00, // 1389 m  (3/4 NM)
    0x3c, 0x07, 0x00, 0x00, // 1852 m  (1 NM)
    0xda, 0x0a, 0x00, 0x00, // 2778 m  (1.5 NM)
    0x78, 0x0e, 0x00, 0x00, // 3704 m  (2 NM)
    0xb4, 0x15, 0x00, 0x00, // 5556 m  (3 NM)
    0xf0, 0x1c, 0x00, 0x00, // 7408 m  (4 NM)
    0x68, 0x2b, 0x00, 0x00, // 11112 m (6 NM)
    0xe0, 0x39, 0x00, 0x00, // 14816 m (8 NM)
    0xd0, 0x56, 0x00, 0x00, // 22224 m (12 NM)
    0xc0, 0x73, 0x00, 0x00, // 29632 m (16 NM)
    0xa0, 0xad, 0x00, 0x00, // 44448 m (24 NM)
    0x70, 0x04, 0x01, 0x00, // 66672 m (36 NM)
    0x40, 0x5b, 0x01, 0x00, // 88896 m (48 NM exactly)
];

#[test]
fn parse_captured_xhd_range_table() {
    let ranges = range_table::parse(&SAMPLE_0X09B2_BODY).expect("should parse");
    let distances: Vec<i32> = ranges.all.iter().map(|r| r.distance()).collect();
    assert_eq!(
        distances,
        vec![
            232, 463, 926, 1389, 1852, 2778, 3704, 5556, 7408, 11112, 14816, 22224, 29632,
            44448, 66672, 88896,
        ]
    );
}

#[test]
fn parse_returns_none_on_short_payload() {
    assert!(range_table::parse(&[]).is_none());
    assert!(range_table::parse(&[0u8; 7]).is_none());
    // Count says 4 entries but only 12 bytes of data → truncated.
    let payload = [
        0x01, 0x00, 0x18, 0x00, // header
        0x04, 0x00, 0x00, 0x00, // count = 4
        0x00, 0x01, 0x00, 0x00, // range 1 only
    ];
    assert!(range_table::parse(&payload).is_none());
}

#[test]
fn parse_rejects_zero_or_huge_count() {
    let mut payload = [0u8; 16];
    payload[0] = 1;
    // count = 0 → reject
    assert!(range_table::parse(&payload).is_none());
    // count > range_table::MAX_RANGE_ENTRIES → reject
    payload[range_table::COUNT_OFFSET] = (range_table::MAX_RANGE_ENTRIES as u32 + 1) as u8;
    assert!(range_table::parse(&payload).is_none());
}



fn identity_lookup() -> [u8; BYTE_LOOKUP_LENGTH] {
    let mut lookup = [0u8; BYTE_LOOKUP_LENGTH];
    for j in 0..BYTE_LOOKUP_LENGTH {
        lookup[j] = j as u8;
    }
    lookup
}

/// Build a minimal `Legend` for tests. `pixel_to_blob` ignores the
/// legend's contents and only branches on the `is_xhd` flag, so
/// every field can be left empty.
fn empty_legend() -> Legend {
    Legend { pixel_colors: 0, doppler_approaching: None, doppler_receding: None }
}

#[test]
fn unpack_hd_spoke_expands_each_bit() {
    // Two bytes = 16 bits = 16 samples. Bit 0 (LSB) of byte 0 first.
    let packed = [0b1010_1010, 0b0000_1111];
    let samples = unpack_hd_spoke(&packed, &identity_lookup());
    assert_eq!(samples.len(), 16);
    // Byte 0: 10101010 → LSB first → 0,1,0,1,0,1,0,1
    assert_eq!(&samples[..8], &[0, 255, 0, 255, 0, 255, 0, 255]);
    // Byte 1: 00001111 → LSB first → 1,1,1,1,0,0,0,0
    assert_eq!(&samples[8..], &[255, 255, 255, 255, 0, 0, 0, 0]);
}

#[test]
fn unpack_hd_spoke_empty_input() {
    let samples = unpack_hd_spoke(&[], &identity_lookup());
    assert!(samples.is_empty());
}

#[test]
fn pixel_to_blob_xhd_halves_intensity() {
    let lookup = pixel_to_blob(&empty_legend(), true, false);
    assert_eq!(lookup[0], 0);
    assert_eq!(lookup[2], 1);
    assert_eq!(lookup[200], 100);
    assert_eq!(lookup[254], 127);
    assert_eq!(lookup[255], 127);
}

#[test]
fn pixel_to_blob_hd_passes_through() {
    let lookup = pixel_to_blob(&empty_legend(), false, false);
    assert_eq!(lookup[0], 0);
    assert_eq!(lookup[1], 1);
    assert_eq!(lookup[128], 128);
    assert_eq!(lookup[255], 255);
}

#[test]
fn pixel_to_blob_xhd_doppler_maps_bands() {
    // Build a minimal legend with 4 Doppler entries per direction.
    // The approaching band starts at index 120, receding at 124.
    let mut legend = empty_legend();
    legend.doppler_approaching = Some((120, 4));
    legend.doppler_receding = Some((124, 4));
    let lookup = pixel_to_blob(&legend, true, true);

    // Normal intensity: 0x00–0xEF halved.
    assert_eq!(lookup[0x00], 0, "zero stays zero");
    assert_eq!(lookup[0x02], 1, "low normal → 1");
    assert_eq!(lookup[0xEF], 0xEF / 2, "top of normal band");

    // Approaching band: 0xF0–0xF7 → 4 legend indices.
    // 8 wire sub-levels mapped to 4 legend entries via sub*4/8:
    // sub 0,1 → idx 0; sub 2,3 → idx 1; sub 4,5 → idx 2; sub 6,7 → idx 3
    assert_eq!(lookup[0xF0], 120);
    assert_eq!(lookup[0xF1], 120);
    assert_eq!(lookup[0xF2], 121);
    assert_eq!(lookup[0xF3], 121);
    assert_eq!(lookup[0xF6], 123);
    assert_eq!(lookup[0xF7], 123);

    // Receding band: 0xF8–0xFF → 4 legend indices.
    assert_eq!(lookup[0xF8], 124);
    assert_eq!(lookup[0xF9], 124);
    assert_eq!(lookup[0xFE], 127);
    assert_eq!(lookup[0xFF], 127);
}

fn request(id: ControlId, number: i32) -> GarminRequest {
    GarminRequest {
        request: ControlRequest {
            id,
            has_value: true,
            number: Some(number),
            power: None,
            auto: None,
            enabled: None,
            end: None,
        },
        auto_high: false,
        auto_level: 0,
        degrees: number,
        end_degrees: 0,
    }
}

/// The messages that set a control.
fn messages(c: &Command, q: &GarminRequest) -> Vec<Vec<u8>> {
    assert!(c.is_settable(q));
    c.set_control(q, None).unwrap().into_iter().map(|p| p.data).collect()
}

fn frame(id: u32, payload: &[u8]) -> Vec<u8> {
    let mut data = id.to_le_bytes().to_vec();
    data.extend_from_slice(&(payload.len() as u32).to_le_bytes());
    data.extend_from_slice(payload);
    data
}

#[test]
fn enhanced_controls_are_set() {
    let a = Command::new(GarminRadarType::XHD);
    let b = Command::new_range_b(GarminRadarType::XHD);
    assert_eq!(
        messages(&a, &request(ControlId::Range, 3704)),
        vec![build_packet_12(MSG_RANGE_A, 3704).to_vec()]
    );
    assert_eq!(
        messages(&b, &request(ControlId::Range, 3704)),
        vec![build_packet_12(MSG_RANGE_B, 3704).to_vec()]
    );
    assert_eq!(
        messages(&a, &request(ControlId::Gain, 50)),
        vec![
            build_packet_9(MSG_RANGE_A_GAIN_MODE, 0).to_vec(),
            build_packet_10(MSG_RANGE_A_GAIN, 5000).to_vec()
        ]
    );
    assert_eq!(
        messages(&a, &request(ControlId::BearingAlignment, -45)),
        vec![build_packet_12(MSG_BEARING_ALIGNMENT, 0xffff_fa60).to_vec()]
    );
    let mut zone = request(ControlId::NoTransmitSector1, 10);
    zone.end_degrees = 20;
    assert_eq!(
        messages(&a, &zone),
        vec![
            build_packet_9(MSG_NO_TX_ZONE_1_MODE, 1).to_vec(),
            build_packet_12(MSG_NO_TX_ZONE_1_START, 320).to_vec(),
            build_packet_12(MSG_NO_TX_ZONE_1_STOP, 640).to_vec()
        ]
    );
    zone.request.enabled = Some(false);
    assert_eq!(messages(&a, &zone), vec![build_packet_9(MSG_NO_TX_ZONE_1_MODE, 0).to_vec()]);
    assert!(!a.is_settable(&request(ControlId::BearingAlignment, i32::MAX)));

    let mut transmit = request(ControlId::Power, 2);
    transmit.request.power = Some(Power::Transmit);
    assert_eq!(messages(&a, &transmit), vec![build_packet_9(MSG_TRANSMIT_MODE, 1).to_vec()]);
}

#[test]
fn hd_controls_are_set() {
    let hd = Command::new(GarminRadarType::HD);
    assert_eq!(
        messages(&hd, &request(ControlId::Range, 1852)),
        vec![build_packet_12(CMD_HD_SET_RANGE_A, 1851).to_vec()]
    );
    assert_eq!(
        messages(&hd, &request(ControlId::Range, 0)),
        vec![build_packet_12(CMD_HD_SET_RANGE_A, 0).to_vec()]
    );
}

#[test]
fn settings_read_back() {
    let mut r = GarminReportReceiver::new(1440, empty_legend());
    let a = Command::new(GarminRadarType::XHD);
    for data in messages(&a, &request(ControlId::Range, 5556)) {
        assert!(r.is_report_usable(&data));
        let outcome = r.process_report(&data).unwrap();
        assert_eq!(outcome.range, RangeId::A);
        assert_eq!(
            outcome.updates,
            vec![Update::Value { id: ControlId::Range, value: 5556 }]
        );
    }
    let mut last = Vec::new();
    for data in messages(&a, &request(ControlId::Gain, 42)) {
        last = r.process_report(&data).unwrap().updates;
    }
    assert_eq!(last, vec![Update::Auto { id: ControlId::Gain, value: 42, flag: 0 }]);
    // A report for range B is dropped while there is none.
    let data = build_packet_12(MSG_RANGE_B, 100);
    assert!(r.process_report(&data).unwrap().updates.is_empty());
    r.set_range_b(empty_legend());
    let outcome = r.process_report(&data).unwrap();
    assert_eq!(outcome.range, RangeId::B);
    assert_eq!(outcome.updates.len(), 1);
}

#[test]
fn sectors_need_all_their_parts() {
    let mut r = GarminReportReceiver::new(1440, empty_legend());
    let first = r.process_report(&build_packet_9(MSG_NO_TX_ZONE_1_MODE, 1)).unwrap();
    assert!(first.updates.is_empty());
    let second = r.process_report(&build_packet_12(MSG_NO_TX_ZONE_1_START, 320)).unwrap();
    assert!(second.updates.is_empty());
    let third = r.process_report(&build_packet_12(MSG_NO_TX_ZONE_1_STOP, 640)).unwrap();
    assert_eq!(
        third.updates,
        vec![Update::Sector {
            id: ControlId::NoTransmitSector1,
            start: 10,
            end: 20,
            enabled: true
        }]
    );
}

#[test]
fn values_are_extracted() {
    assert_eq!(extract_value(&build_packet_9(1, 200)), Ok(200));
    assert_eq!(extract_value(&build_packet_10(1, 60000)), Ok(60000));
    assert_eq!(extract_value(&build_packet_12(1, 0xdeadbeef)), Ok(0xdeadbeef));
    assert_eq!(extract_value(&[0; 8]), Err(PacketError::ValueTooShort));
    let mut r = GarminReportReceiver::new(1440, empty_legend());
    assert!(matches!(r.process_report(&[0; 7]), Err(PacketError::ReportTooShort)));
    assert!(matches!(r.process_data(&[0; 7]), Err(PacketError::DataTooShort)));
    assert!(is_legend_usable(&empty_legend()));
}

#[test]
fn radars_are_registered_once() {
    let mut locator = GarminLocator::new();
    let caps = frame(MSG_CAPABILITY, &SAMPLE_0X09B1_BODY);
    let table = frame(MSG_RANGE_TABLE, &SAMPLE_0X09B2_BODY);
    let beat = frame(MSG_CDM_HEARTBEAT, &SAMPLE_BODY);
    assert!(matches!(locator.process_report(&beat, 1), LocatorAction::AskProductData));
    assert!(matches!(locator.process_report(&beat, 1), LocatorAction::Nothing));
    assert!(matches!(locator.process_report(&caps, 1), LocatorAction::Nothing));
    // Another radar does not complete it.
    assert!(matches!(locator.process_report(&table, 2), LocatorAction::Nothing));
    match locator.process_report(&table, 1) {
        LocatorAction::Register(r) => {
            assert_eq!(r.radar_type, GarminRadarType::XHD);
            assert_eq!(r.model_name, "GMR xHD");
            assert_eq!(r.user_name, "GMR xHD");
            assert_eq!(r.range_b.unwrap().1, "GMR xHD B");
            assert_eq!(r.ranges.all.len(), 16);
            assert!(!r.doppler);
        }
        _ => panic!("not registered"),
    }
    assert!(matches!(locator.process_report(&table, 1), LocatorAction::Nothing));
    // An HD radar has nothing to wait for.
    let state = frame(MSG_HD_STATE, &[0; 4]);
    assert!(matches!(locator.process_report(&state, 3), LocatorAction::Register(_)));
    assert!(matches!(locator.process_report(&state, 3), LocatorAction::Nothing));
}

#[test]
fn devices_are_named() {
    let mut body = [0u8; 66];
    body[4..7].copy_from_slice(b"GMR");
    body[0x23..0x27].copy_from_slice(b"Mast");
    let names = discovery::parse_product_data(&body).unwrap();
    assert_eq!(names.device_name, "GMR");
    assert_eq!(names.device_alias, "Mast");
    assert!(discovery::parse_product_data(&body[..65]).is_none());
    let packet = discovery::build_set_alias("Mast");
    assert_eq!(packet.len(), 40);
    assert_eq!(packet[4..8], [32, 0, 0, 0]);
    assert_eq!(packet[8..13], *b"Mast\0");
    assert_eq!(discovery::build_product_data_request(), [0x91, 0x03, 0, 0, 0, 0, 0, 0]);
}

#[test]
fn controls_follow_capabilities() {
    let caps = GarminCapabilities::for_legacy_hd();
    let a = settings::new(GarminRadarType::HD, &caps, false);
    let b = settings::new(GarminRadarType::HD, &caps, true);
    assert!(a.len() > b.len());
    assert!(b.iter().all(|d| a.contains(d)));

    // No control is listed twice, also where the capability and the type both bring it.
    let mut all = GarminCapabilities::for_legacy_hd();
    for bit in 0..320 {
        all.set(bit);
    }
    for caps in [&GarminCapabilities::empty(), &caps, &all] {
        for radar_type in [GarminRadarType::HD, GarminRadarType::XHD] {
            for is_range_b in [false, true] {
                let list = settings::new(radar_type, caps, is_range_b);
                for (i, d) in list.iter().enumerate() {
                    assert!(list[..i].iter().all(|e| e.id != d.id));
                }
            }
        }
    }
    let expands = |radar_type, caps: &GarminCapabilities| {
        let list = settings::new(radar_type, caps, false);
        list.iter().filter(|d| d.id == ControlId::TargetExpansion).count()
    };
    assert_eq!(expands(GarminRadarType::HD, &all), 1);
    assert_eq!(expands(GarminRadarType::HD, &GarminCapabilities::empty()), 1);
    assert_eq!(expands(GarminRadarType::XHD, &all), 1);
    assert_eq!(expands(GarminRadarType::XHD, &GarminCapabilities::empty()), 0);
}
