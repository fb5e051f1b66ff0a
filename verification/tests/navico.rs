//! Navico radars.

use mayara::brand::navico::capabilities::NavicoCapabilities;
use mayara::brand::navico::info::{
    build_heading_packet, build_navigation_packet, build_speed_packet, InfoKind, Information,
    Motion,
};
use mayara::brand::navico::locator::{
    parse_gen3plus_beacon, process_locator_report, scanner_name,
};
use mayara::brand::navico::model::{keeps_ranges, HaloMode};
use mayara::brand::navico::report::{NavicoState, RangeLimits, ReportError, Schedule};
use mayara::brand::navico::spoke::{
    extract_heading_value, is_heading_true, is_valid_heading_value, pixel_to_blob, process_frame,
    process_spoke, validate_header,
};
use mayara::brand::navico::Model;
use mayara::radar::{Address, ControlId, DopplerMode, Legend, Power, Update};


#[test]
fn parse_empty() {
    let caps = NavicoCapabilities::parse(&[]);
    assert_eq!(caps.supported_modes_mask, 0);
    assert_eq!(caps.instrumented_range_min_dm, 0);
    assert!(caps.is_dome);
}

#[test]
fn parse_supported_modes() {
    // Type 2, reserved 0, length 4, payload 0x37 0x00 0x00 0x00
    let data = [0x02, 0x00, 0x04, 0x37, 0x00, 0x00, 0x00];
    let caps = NavicoCapabilities::parse(&data);
    assert_eq!(caps.supported_modes_mask, 0x37);
    assert!(caps.has_doppler()); // bit 5
    assert!(caps.has_bird_mode()); // bit 4
}

#[test]
fn parse_instrumented_range() {
    // Type 11, reserved 0, length 8
    // min=500dm (50m), max=888960dm (88896m ≈ 48 NM)
    let mut data = vec![0x0B, 0x00, 0x08];
    data.extend_from_slice(&500u32.to_le_bytes());
    data.extend_from_slice(&888960u32.to_le_bytes());
    let caps = NavicoCapabilities::parse(&data);
    assert_eq!(caps.instrumented_range_min_dm, 500);
    assert_eq!(caps.instrumented_range_max_dm, 888960);
    assert_eq!(caps.range_min_m(), 50);
    assert_eq!(caps.range_max_m(), 88896);
}

#[test]
fn parse_level_features() {
    // Byte0 is a bitmask of supported values.
    // IR: 0x0F=0b1111 → values 0,1,2,3
    // NR: 0x07=0b0111 → values 0,1,2
    // FS: 0x0F=0b1111 → values 0,1,2,3
    let data = [
        0x03, 0x00, 0x05, 0x0F, 0x00, 0x00, 0x83, 0x80, // IR: mask 0x0F
        0x04, 0x00, 0x05, 0x07, 0x00, 0x00, 0x03, 0x00, // NR: mask 0x07
        0x08, 0x00, 0x05, 0x0F, 0x00, 0x00, 0x82, 0x80, // FS: mask 0x0F
    ];
    let caps = NavicoCapabilities::parse(&data);
    assert_eq!(caps.interference_reject_mask, 0x0F);
    assert_eq!(caps.noise_reject_mask, 0x07);
    assert_eq!(caps.scan_speed_mask, 0x0F);
}

#[test]
fn parse_dome_antenna() {
    let data = [0x0A, 0x00, 0x01, 0x00]; // Type 10, len 1, payload 0x00
    let caps = NavicoCapabilities::parse(&data);
    assert!(caps.is_dome);
}

#[test]
fn parse_open_array_antenna() {
    // Type 10, len 5: count=2, sizes=[1800mm, 2400mm]
    let data = [0x0A, 0x00, 0x05, 0x02, 0x08, 0x07, 0x60, 0x09];
    let caps = NavicoCapabilities::parse(&data);
    assert!(!caps.is_dome);
}

#[test]
fn unknown_types_skipped() {
    // Type 99 (unknown), len 3, some payload, followed by type 2
    let data = [
        0x63, 0x00, 0x03, 0xAA, 0xBB, 0xCC, // unknown type 99
        0x02, 0x00, 0x04, 0x37, 0x00, 0x00, 0x00, // modes
    ];
    let caps = NavicoCapabilities::parse(&data);
    assert_eq!(caps.supported_modes_mask, 0x37);
}



/// Shorthand for an address.
fn address(ip: [u8; 4], port: u16) -> Address {
    Address { a: ip[0], b: ip[1], c: ip[2], d: ip[3], port }
}

/// The address at a fixed offset of a packet.
fn address_at(packet: &[u8], at: usize) -> Address {
    address(
        [packet[at], packet[at + 1], packet[at + 2], packet[at + 3]],
        u16::from_be_bytes([packet[at + 4], packet[at + 5]]),
    )
}

// Real 4G dual-range beacon (222 bytes) — serial 1403302452, IP 169.254.24.199
const BEACON_4G: [u8; 222] = [
    0x01, 0xB2, 0x31, 0x34, 0x30, 0x33, 0x33, 0x30, 0x32, 0x34, 0x35, 0x32, 0x00, 0x00, 0x00,
    0x00, 0x00, 0x00, 0xA9, 0xFE, 0x18, 0xC7, 0x01, 0x01, 0x06, 0x00, 0xFD, 0xFF, 0x20, 0x01,
    0x02, 0x00, 0x10, 0x00, 0x00, 0x00, 0xA9, 0xFE, 0x18, 0xC7, 0x17, 0x60, 0x11, 0x00, 0x00,
    0x00, 0xEC, 0x06, 0x07, 0x16, 0x1A, 0x26, 0x1F, 0x00, 0x20, 0x01, 0x02, 0x00, 0x10, 0x00,
    0x00, 0x00, 0xEC, 0x06, 0x07, 0x17, 0x1A, 0x1C, 0x11, 0x00, 0x00, 0x00, 0xEC, 0x06, 0x07,
    0x18, 0x1A, 0x1D, 0x10, 0x00, 0x20, 0x01, 0x03, 0x00, 0x10, 0x00, 0x00, 0x00, 0xEC, 0x06,
    0x07, 0x08, 0x1A, 0x16, 0x11, 0x00, 0x00, 0x00, 0xEC, 0x06, 0x07, 0x0A, 0x1A, 0x18, 0x12,
    0x00, 0x00, 0x00, 0xEC, 0x06, 0x07, 0x09, 0x1A, 0x17, 0x10, 0x00, 0x20, 0x02, 0x03, 0x00,
    0x10, 0x00, 0x00, 0x00, 0xEC, 0x06, 0x07, 0x0D, 0x1A, 0x01, 0x11, 0x00, 0x00, 0x00, 0xEC,
    0x06, 0x07, 0x0E, 0x1A, 0x02, 0x12, 0x00, 0x00, 0x00, 0xEC, 0x06, 0x07, 0x0F, 0x1A, 0x03,
    0x12, 0x00, 0x20, 0x01, 0x03, 0x00, 0x10, 0x00, 0x00, 0x00, 0xEC, 0x06, 0x07, 0x12, 0x1A,
    0x20, 0x11, 0x00, 0x00, 0x00, 0xEC, 0x06, 0x07, 0x14, 0x1A, 0x22, 0x12, 0x00, 0x00, 0x00,
    0xEC, 0x06, 0x07, 0x13, 0x1A, 0x21, 0x12, 0x00, 0x20, 0x02, 0x03, 0x00, 0x10, 0x00, 0x00,
    0x00, 0xEC, 0x06, 0x07, 0x0C, 0x1A, 0x04, 0x11, 0x00, 0x00, 0x00, 0xEC, 0x06, 0x07, 0x0D,
    0x1A, 0x05, 0x12, 0x00, 0x00, 0x00, 0xEC, 0x06, 0x07, 0x0E, 0x1A, 0x06,
];

// Real HALO 20+ dual-range beacon (222 bytes) — serial 129848770, IP 192.168.1.10
const BEACON_HALO20P: [u8; 222] = [
    0x01, 0xB2, 0x31, 0x32, 0x39, 0x38, 0x34, 0x38, 0x37, 0x37, 0x30, 0x00, 0x00, 0x00, 0x00,
    0x00, 0x00, 0x00, 0xC0, 0xA8, 0x01, 0x0A, 0x01, 0x33, 0x06, 0x00, 0xFD, 0xFF, 0x20, 0x01,
    0x02, 0x00, 0x10, 0x00, 0x00, 0x00, 0xEC, 0x06, 0x07, 0x0C, 0x17, 0x70, 0x11, 0x00, 0x00,
    0x00, 0xEC, 0x06, 0x07, 0x16, 0x1A, 0x26, 0x1F, 0x00, 0x20, 0x01, 0x02, 0x00, 0x10, 0x00,
    0x00, 0x00, 0xEC, 0x06, 0x07, 0x17, 0x1A, 0x1C, 0x11, 0x00, 0x00, 0x00, 0xEC, 0x06, 0x07,
    0x18, 0x1A, 0x1D, 0x10, 0x00, 0x20, 0x01, 0x03, 0x00, 0x10, 0x00, 0x00, 0x00, 0xEC, 0x06,
    0x07, 0x08, 0x1A, 0x16, 0x11, 0x00, 0x00, 0x00, 0xEC, 0x06, 0x07, 0x0A, 0x1A, 0x18, 0x12,
    0x00, 0x00, 0x00, 0xEC, 0x06, 0x07, 0x09, 0x1A, 0x17, 0x10, 0x00, 0x20, 0x02, 0x03, 0x00,
    0x10, 0x00, 0x00, 0x00, 0xEC, 0x06, 0x07, 0x0D, 0x17, 0x71, 0x11, 0x00, 0x00, 0x00, 0xEC,
    0x06, 0x07, 0x0E, 0x17, 0x72, 0x12, 0x00, 0x00, 0x00, 0xEC, 0x06, 0x07, 0x0D, 0x17, 0x73,
    0x12, 0x00, 0x20, 0x01, 0x03, 0x00, 0x10, 0x00, 0x00, 0x00, 0xEC, 0x06, 0x07, 0x12, 0x1A,
    0x20, 0x11, 0x00, 0x00, 0x00, 0xEC, 0x06, 0x07, 0x14, 0x1A, 0x22, 0x12, 0x00, 0x00, 0x00,
    0xEC, 0x06, 0x07, 0x13, 0x1A, 0x21, 0x12, 0x00, 0x20, 0x02, 0x03, 0x00, 0x10, 0x00, 0x00,
    0x00, 0xEC, 0x06, 0x07, 0x0D, 0x17, 0x74, 0x11, 0x00, 0x00, 0x00, 0xEC, 0x06, 0x07, 0x0F,
    0x17, 0x75, 0x12, 0x00, 0x00, 0x00, 0xEC, 0x06, 0x07, 0x0D, 0x17, 0x76,
];

// Real HALO 24 dual-range beacon (222 bytes) — serial 1902501034, IP 10.56.0.24
const BEACON_HALO24: [u8; 222] = [
    0x01, 0xB2, 0x31, 0x39, 0x30, 0x32, 0x35, 0x30, 0x31, 0x30, 0x33, 0x34, 0x00, 0x00, 0x00,
    0x00, 0x00, 0x00, 0x0A, 0x38, 0x00, 0x18, 0x31, 0x31, 0x06, 0x00, 0xFD, 0xFF, 0x20, 0x01,
    0x02, 0x00, 0x10, 0x00, 0x00, 0x00, 0xEC, 0x06, 0x09, 0x30, 0x1B, 0x90, 0x11, 0x00, 0x00,
    0x00, 0xEC, 0x06, 0x07, 0x16, 0x1A, 0x26, 0x1F, 0x00, 0x20, 0x01, 0x02, 0x00, 0x10, 0x00,
    0x00, 0x00, 0xEC, 0x06, 0x09, 0x31, 0x1B, 0x91, 0x11, 0x00, 0x00, 0x00, 0xEC, 0x06, 0x09,
    0x32, 0x1B, 0x92, 0x10, 0x00, 0x20, 0x01, 0x03, 0x00, 0x10, 0x00, 0x00, 0x00, 0xEC, 0x06,
    0x09, 0x33, 0x1B, 0x93, 0x11, 0x00, 0x00, 0x00, 0xEC, 0x06, 0x09, 0x34, 0x1B, 0x94, 0x12,
    0x00, 0x00, 0x00, 0xEC, 0x06, 0x09, 0x33, 0x1B, 0x95, 0x10, 0x00, 0x20, 0x02, 0x03, 0x00,
    0x10, 0x00, 0x00, 0x00, 0xEC, 0x06, 0x09, 0x35, 0x1B, 0x96, 0x11, 0x00, 0x00, 0x00, 0xEC,
    0x06, 0x09, 0x36, 0x1B, 0x97, 0x12, 0x00, 0x00, 0x00, 0xEC, 0x06, 0x09, 0x35, 0x1B, 0x98,
    0x12, 0x00, 0x20, 0x01, 0x03, 0x00, 0x10, 0x00, 0x00, 0x00, 0xEC, 0x06, 0x09, 0x33, 0x1B,
    0x99, 0x11, 0x00, 0x00, 0x00, 0xEC, 0x06, 0x09, 0x37, 0x1B, 0x9A, 0x12, 0x00, 0x00, 0x00,
    0xEC, 0x06, 0x09, 0x33, 0x1B, 0x9B, 0x12, 0x00, 0x20, 0x02, 0x03, 0x00, 0x10, 0x00, 0x00,
    0x00, 0xEC, 0x06, 0x09, 0x35, 0x1B, 0x9C, 0x11, 0x00, 0x00, 0x00, 0xEC, 0x06, 0x09, 0x38,
    0x1B, 0x9D, 0x12, 0x00, 0x00, 0x00, 0xEC, 0x06, 0x09, 0x35, 0x1B, 0x9E,
];

#[test]
fn parse_4g_beacon() {
    let beacon = parse_gen3plus_beacon(&BEACON_4G).unwrap();

    assert_eq!(beacon.serial_no, "1403302452");
    assert_eq!(
        beacon.radar_addr,
        address([169, 254, 24, 199], 257)
    );
    assert_eq!(beacon.num_devices, 6);
    assert_eq!(beacon.scanners.len(), 2);

    // Radar A
    assert_eq!(
        beacon.scanners[0].data,
        address([236, 6, 7, 8], 6678)
    );
    assert_eq!(
        beacon.scanners[0].send,
        address([236, 6, 7, 10], 6680)
    );
    assert_eq!(
        beacon.scanners[0].report,
        address([236, 6, 7, 9], 6679)
    );

    // Radar B
    assert_eq!(
        beacon.scanners[1].data,
        address([236, 6, 7, 13], 6657)
    );
    assert_eq!(
        beacon.scanners[1].send,
        address([236, 6, 7, 14], 6658)
    );
    assert_eq!(
        beacon.scanners[1].report,
        address([236, 6, 7, 15], 6659)
    );
}

#[test]
fn parse_halo20p_beacon() {
    let beacon = parse_gen3plus_beacon(&BEACON_HALO20P).unwrap();

    assert_eq!(beacon.serial_no, "129848770");
    assert_eq!(
        beacon.radar_addr,
        address([192, 168, 1, 10], 307)
    );
    assert_eq!(beacon.num_devices, 6);
    assert_eq!(beacon.scanners.len(), 2);

    // Radar A — same multicast group as 4G for the A scanner
    assert_eq!(
        beacon.scanners[0].data,
        address([236, 6, 7, 8], 6678)
    );
    assert_eq!(
        beacon.scanners[0].send,
        address([236, 6, 7, 10], 6680)
    );
    assert_eq!(
        beacon.scanners[0].report,
        address([236, 6, 7, 9], 6679)
    );

    // Radar B — HALO 20+ uses different ports for B than 4G
    assert_eq!(
        beacon.scanners[1].data,
        address([236, 6, 7, 13], 6001)
    );
    assert_eq!(
        beacon.scanners[1].send,
        address([236, 6, 7, 14], 6002)
    );
    assert_eq!(
        beacon.scanners[1].report,
        address([236, 6, 7, 13], 6003)
    );
}

#[test]
fn parse_halo24_beacon() {
    let beacon = parse_gen3plus_beacon(&BEACON_HALO24).unwrap();

    assert_eq!(beacon.serial_no, "1902501034");
    assert_eq!(
        beacon.radar_addr,
        address([10, 56, 0, 24], 12593)
    );
    assert_eq!(beacon.num_devices, 6);
    assert_eq!(beacon.scanners.len(), 2);

    // Radar A — HALO 24 uses 236.6.9.x subnet and 7000+ ports
    assert_eq!(
        beacon.scanners[0].data,
        address([236, 6, 9, 51], 7059)
    );
    assert_eq!(
        beacon.scanners[0].send,
        address([236, 6, 9, 52], 7060)
    );
    assert_eq!(
        beacon.scanners[0].report,
        address([236, 6, 9, 51], 7061)
    );

    // Radar B
    assert_eq!(
        beacon.scanners[1].data,
        address([236, 6, 9, 53], 7062)
    );
    assert_eq!(
        beacon.scanners[1].send,
        address([236, 6, 9, 54], 7063)
    );
    assert_eq!(
        beacon.scanners[1].report,
        address([236, 6, 9, 53], 7064)
    );
}

/// In a beacon of a radar with two ranges the addresses have fixed places. The header
/// takes 78 bytes, and each scanner 36: ten, then three addresses with four between.
#[test]
fn dynamic_parser_matches_fixed_structs() {
    for (name, packet) in [
        ("4G", &BEACON_4G[..]),
        ("HALO 20+", &BEACON_HALO20P[..]),
        ("HALO 24", &BEACON_HALO24[..]),
    ] {
        let beacon = parse_gen3plus_beacon(packet).expect(name);
        for i in 0..2 {
            let at = 78 + 36 * i;
            assert_eq!(beacon.scanners[i].data, address_at(packet, at + 10), "{}", name);
            assert_eq!(beacon.scanners[i].send, address_at(packet, at + 20), "{}", name);
            assert_eq!(beacon.scanners[i].report, address_at(packet, at + 30), "{}", name);
        }
    }
}

// Real BR24 beacon (98 bytes) — serial 1047300043, IP 169.254.210.23
const BEACON_BR24: [u8; 98] = [
    0x01, 0xB2, 0x31, 0x30, 0x34, 0x37, 0x33, 0x30, 0x30, 0x30, 0x34, 0x33, 0x00, 0x00, 0x00,
    0x00, 0x00, 0x00, 0xA9, 0xFE, 0xD2, 0x17, 0x01, 0x01, 0x02, 0x00, 0x12, 0x00, 0x20, 0x01,
    0x03, 0x00, 0x12, 0x00, 0x00, 0x00, 0xEC, 0x06, 0x07, 0x13, 0x1A, 0x21, 0x11, 0x00, 0x00,
    0x00, 0xEC, 0x06, 0x07, 0x14, 0x1A, 0x22, 0x10, 0x00, 0x00, 0x00, 0xEC, 0x06, 0x07, 0x12,
    0x1A, 0x20, 0x10, 0x00, 0x20, 0x01, 0x03, 0x00, 0x12, 0x00, 0x00, 0x00, 0xEC, 0x06, 0x07,
    0x09, 0x1A, 0x17, 0x11, 0x00, 0x00, 0x00, 0xEC, 0x06, 0x07, 0x0A, 0x1A, 0x18, 0x10, 0x00,
    0x00, 0x00, 0xEC, 0x06, 0x07, 0x08, 0x1A, 0x16,
];

#[test]
fn parse_br24_beacon() {
    let beacon = parse_gen3plus_beacon(&BEACON_BR24).unwrap();

    assert_eq!(beacon.serial_no, "1047300043");
    assert_eq!(
        beacon.radar_addr,
        address([169, 254, 210, 23], 257)
    );
    assert_eq!(beacon.num_devices, 2);
    assert_eq!(beacon.scanners.len(), 1);

    // Single scanner — service_type 0x0010 is the radar
    assert_eq!(
        beacon.scanners[0].data,
        address([236, 6, 7, 8], 6678)
    );
    assert_eq!(
        beacon.scanners[0].send,
        address([236, 6, 7, 10], 6680)
    );
    assert_eq!(
        beacon.scanners[0].report,
        address([236, 6, 7, 9], 6679)
    );
}

// Real BR24 NorthStar beacon (98 bytes) — serial 0924A10745, IP 169.254.174.127
const BEACON_BR24_NORTHSTAR: [u8; 98] = [
    0x01, 0xB2, 0x30, 0x39, 0x32, 0x34, 0x41, 0x31, 0x30, 0x37, 0x34, 0x35, 0x00, 0x00, 0x00,
    0x00, 0x00, 0x00, 0xA9, 0xFE, 0xAE, 0x7F, 0x01, 0x01, 0x02, 0x00, 0x12, 0x00, 0x20, 0x01,
    0x03, 0x00, 0x12, 0x00, 0x00, 0x00, 0xEC, 0x06, 0x07, 0x13, 0x1A, 0x21, 0x11, 0x00, 0x00,
    0x00, 0xEC, 0x06, 0x07, 0x14, 0x1A, 0x22, 0x10, 0x00, 0x00, 0x00, 0xEC, 0x06, 0x07, 0x12,
    0x1A, 0x20, 0x10, 0x00, 0x20, 0x01, 0x03, 0x00, 0x12, 0x00, 0x00, 0x00, 0xEC, 0x06, 0x07,
    0x09, 0x1A, 0x17, 0x11, 0x00, 0x00, 0x00, 0xEC, 0x06, 0x07, 0x0A, 0x1A, 0x18, 0x10, 0x00,
    0x00, 0x00, 0xEC, 0x06, 0x07, 0x08, 0x1A, 0x16,
];

#[test]
fn parse_br24_northstar_beacon() {
    let beacon = parse_gen3plus_beacon(&BEACON_BR24_NORTHSTAR).unwrap();

    assert_eq!(beacon.serial_no, "0924A10745");
    assert_eq!(
        beacon.radar_addr,
        address([169, 254, 174, 127], 257)
    );
    assert_eq!(beacon.num_devices, 2);
    assert_eq!(beacon.scanners.len(), 1);

    // Same service addresses as the other BR24 — all BR24s use the same multicast group
    assert_eq!(
        beacon.scanners[0].data,
        address([236, 6, 7, 8], 6678)
    );
    assert_eq!(
        beacon.scanners[0].send,
        address([236, 6, 7, 10], 6680)
    );
    assert_eq!(
        beacon.scanners[0].report,
        address([236, 6, 7, 9], 6679)
    );
}

#[test]
fn parse_truncated_beacon_returns_none() {
    // Too short for header
    assert!(parse_gen3plus_beacon(&BEACON_4G[..25]).is_none());
    // Empty
    assert!(parse_gen3plus_beacon(&[]).is_none());
}

#[test]
fn parse_truncated_services_returns_partial() {
    // Truncate mid-way through device 3 (radar A) — should still parse
    // the non-radar device groups but find no radar scanners
    let beacon = parse_gen3plus_beacon(&BEACON_4G[..80]);
    assert!(beacon.is_some());
    let beacon = beacon.unwrap();
    assert_eq!(beacon.serial_no, "1403302452");
    // May have 0 scanners since the radar device entry is incomplete
}

#[test]
fn beacons_are_heard_once() {
    assert!(process_locator_report(&BEACON_4G, false).is_some());
    assert!(process_locator_report(&BEACON_4G, true).is_none());
    assert!(process_locator_report(&[0x01, 0xb1], false).is_none());
    assert_eq!(scanner_name(0, 2), Some("A"));
    assert_eq!(scanner_name(1, 2), Some("B"));
    assert_eq!(scanner_name(0, 1), None);
}

#[test]
fn navico_models_have_names() {
    for model in [Model::BR24, Model::Gen3, Model::Gen4, Model::Halo24, Model::Halo20Plus] {
        assert_eq!(Model::new(model.name()), model);
    }
    assert_eq!(Model::new("nothing"), Model::Unknown);
    assert!(Model::Halo6000.is_halo());
    assert!(!Model::Gen4.is_halo());
    assert!(!keeps_ranges("HALO"));
    assert!(!keeps_ranges("nothing"));
    assert!(keeps_ranges("HALO24"));
    assert_eq!(HaloMode::from_u8(6), Some(HaloMode::BirdPlus));
    assert_eq!(HaloMode::from_u8(7), None);
    assert_eq!(HaloMode::Weather.name(), "Weather");
}

/// A properties report of a scanner type.
fn properties(scanner_type: u32) -> Vec<u8> {
    let mut data = vec![0u8; 129];
    data[0] = 0x03;
    data[1] = 0xc4;
    data[16..18].copy_from_slice(&77u16.to_le_bytes());
    data[30..34].copy_from_slice(&scanner_type.to_le_bytes());
    data[34..38].copy_from_slice(&1234u32.to_le_bytes());
    data[42..46].copy_from_slice(&666720u32.to_le_bytes());
    data[50] = 3;
    data[54] = 9;
    data[58] = 0x4d;
    data[90] = 0x31;
    data
}

fn features() -> Vec<u8> {
    let mut data = vec![0x09, 0xc4, 0x0b, 0x00, 0x08];
    data.extend_from_slice(&500u32.to_le_bytes());
    data.extend_from_slice(&888960u32.to_le_bytes());
    data
}

/// A scanner type of a model.
fn scanner_type(model: Model) -> u32 {
    (0..256).find(|n| Model::from_scanner_type(*n) == model).unwrap()
}

#[test]
fn older_radar_is_set_up_at_once() {
    let mut s = NavicoState::new();
    let outcome = s.process_report(&properties(scanner_type(Model::Gen4))).unwrap();
    assert_eq!(outcome.model, Some(Model::Gen4));
    let setup = outcome.setup.unwrap();
    assert_eq!(setup.limits, Some(RangeLimits { min: 50, max: 66672 }));
    assert_eq!(
        outcome.updates,
        vec![Update::Value { id: ControlId::TransmitTime, value: 1234 }]
    );
    assert_eq!(outcome.texts[0].text, "3.9.77 M 1");
    // The same report again is no news.
    let again = s.process_report(&properties(scanner_type(Model::Gen4))).unwrap();
    assert!(again.model.is_none() && again.setup.is_none());
}

#[test]
fn halo_is_set_up_in_either_order() {
    let halo = properties(scanner_type(Model::Halo24));
    let limits = Some(RangeLimits { min: 50, max: 88896 });

    let mut s = NavicoState::new();
    assert!(s.process_report(&halo).unwrap().setup.is_none());
    assert!(s.awaiting_capabilities);
    assert_eq!(s.process_report(&features()).unwrap().setup.unwrap().limits, limits);

    let mut t = NavicoState::new();
    assert!(t.process_report(&features()).unwrap().setup.is_none());
    assert_eq!(t.process_report(&halo).unwrap().setup.unwrap().limits, limits);
    assert_eq!(s, t);
}

#[test]
fn navico_reports_change_controls() {
    let mut s = NavicoState::new();
    let mut mode = vec![0u8; 18];
    mode[..3].copy_from_slice(&[0x01, 0xc4, 2]);
    // Not before the radar is set up.
    assert!(s.process_report(&mode).unwrap().updates.is_empty());
    s.process_report(&properties(scanner_type(Model::Gen4))).unwrap();
    assert_eq!(
        s.process_report(&mode).unwrap().updates,
        vec![Update::Power(Power::Transmit)]
    );
    mode[2] = 3;
    assert!(matches!(s.process_report(&mode), Err(ReportError::UnknownStatus(3))));
    assert!(matches!(s.process_report(&mode[..17]), Err(ReportError::WrongLength)));
    assert!(matches!(s.process_report(&[0x01]), Err(ReportError::TooShort)));
    assert!(matches!(
        s.process_report(&[0x11, 0xc6, 1]),
        Err(ReportError::StrangeContent)
    ));
    assert!(s.process_report(&[0x11, 0xc6, 0]).is_ok());

    let mut setup = vec![0u8; 99];
    setup[..2].copy_from_slice(&[0x02, 0xc4]);
    setup[2..6].copy_from_slice(&18520i32.to_le_bytes());
    setup[8] = 1;
    setup[12] = 40;
    setup[17] = 9;
    let updates = s.process_report(&setup).unwrap().updates;
    assert_eq!(updates[0], Update::Value { id: ControlId::Range, value: 18520 });
    assert_eq!(updates[1], Update::Auto { id: ControlId::Gain, value: 40, flag: 1 });
    assert_eq!(updates[2], Update::Auto { id: ControlId::Sea, value: 9, flag: 0 });
    assert_eq!(updates.len(), 7);

    let mut extended = vec![0u8; 21];
    extended[..2].copy_from_slice(&[0x08, 0xc4]);
    extended[18] = 9;
    assert!(matches!(
        s.process_report(&extended),
        Err(ReportError::UnknownDoppler(9))
    ));
    extended[18] = 1;
    extended[19] = 0x34;
    extended[20] = 0x12;
    let updates = s.process_report(&extended).unwrap().updates;
    assert_eq!(updates[0], Update::Value { id: ControlId::Doppler, value: 1 });
    assert_eq!(
        updates[1],
        Update::Value { id: ControlId::DopplerSpeedThreshold, value: 0x1234 }
    );
    assert_eq!(s.doppler, DopplerMode::Both);
}

#[test]
fn bird_plus_is_a_variant() {
    let mut s = NavicoState::new();
    s.process_report(&properties(scanner_type(Model::Halo24))).unwrap();
    s.process_report(&features()).unwrap();
    let mut extended = vec![0u8; 24];
    extended[..2].copy_from_slice(&[0x08, 0xc4]);
    extended[22] = 5;
    extended[23] = 1;
    let updates = s.process_report(&extended).unwrap().updates;
    assert!(updates.contains(&Update::Value { id: ControlId::Mode, value: 6 }));
    assert!(updates.contains(&Update::Allowed { id: ControlId::ScanSpeed, allowed: false }));
    assert!(s.has_use_mode_from_ext);
    // The plain setup report does not change it back.
    let mut setup = vec![0u8; 99];
    setup[..2].copy_from_slice(&[0x02, 0xc4]);
    setup[7] = 5;
    let updates = s.process_report(&setup).unwrap().updates;
    assert!(!updates.contains(&Update::Value { id: ControlId::Mode, value: 5 }));
}

#[test]
fn installation_entries_are_read() {
    let mut s = NavicoState::new();
    s.process_report(&properties(scanner_type(Model::Gen4))).unwrap();
    let mut data = vec![0x06, 0xc4, 0, 0, 5, 0];
    data.extend_from_slice(b"boat\0");
    data.extend_from_slice(&[3, 0, 6, 0, 1, 1, 0x0a, 0, 0xff, 0xff]);
    data.extend_from_slice(&[1, 0, 9, 0, 1]);
    let outcome = s.process_report(&data).unwrap();
    assert_eq!(outcome.texts[0].text, "boat");
    assert_eq!(
        outcome.updates,
        vec![Update::Sector {
            id: ControlId::NoTransmitSector1,
            start: 10,
            end: -1,
            enabled: true
        }]
    );
}

#[test]
fn requests_and_information_are_timed() {
    let mut s = Schedule::new(100);
    assert_eq!(s.next(), 100);
    assert!(!s.wants_reports(99) && !s.wants_info(99));
    // What failed is wanted still.
    assert!(s.wants_reports(100));
    assert!(s.wants_reports(100));
    s.reports_requested();
    assert!(!s.wants_reports(100));
    assert!(s.wants_info(100));
    s.info_sent();
    assert!(!s.wants_info(100));
    assert_eq!(s.next(), 200);
    s.process_info(150, true);
    assert_eq!(s.info_send, 200);
    s.process_info(150, false);
    assert_eq!(s.info_send, 10_150);
    assert_eq!(s.next(), 5100);
}

#[test]
fn information_packets_are_laid_out() {
    let heading = build_heading_packet(0x0102, 0x0807060504030201, 0x1234);
    assert_eq!(heading.len(), 72);
    assert_eq!(heading[..4], *b"NKOE");
    assert_eq!(heading[8..10], [1, 2]);
    assert_eq!(heading[40..48], [1, 2, 3, 4, 5, 6, 7, 8]);
    assert_eq!(heading[65..67], [0x34, 0x12]);
    let navigation = build_navigation_packet(0, 0, 0x1234, 0x5678);
    assert_eq!(navigation.len(), 72);
    assert_eq!(navigation[65..], [0xfc, 0x34, 0x12, 0x78, 0x56, 0xff, 0xff]);
    let speed = build_speed_packet(0x1234, 0x5678);
    assert_eq!(speed.len(), 23);
    assert_eq!(speed[6..8], [0x34, 0x12]);
    assert_eq!(speed[14..16], [0x78, 0x56]);

    let mut info = Information::new();
    let motion = Motion {
        heading: Some(1),
        has_course: true,
        cog: 2,
        sog_cm: 3,
        sog_dm: 4,
        cog_tenths: 5,
    };
    let first = info.send_info_packets(1000, 0, &motion);
    assert!(first.heading.is_some() && first.navigation.is_some() && first.speed.is_some());
    assert_eq!(info, Information::new());

    // A packet that failed is tried again, and those behind it; its number is used up.
    let mut broken = info;
    broken.info_packets_sent(1000, &motion, Some(InfoKind::Navigation));
    assert_eq!(broken.counter, 2);
    assert_eq!(broken.last_heading, Some(1000));
    assert_eq!(broken.last_navigation, None);
    assert_eq!(broken.last_speed, None);
    let again = broken.send_info_packets(1000, 0, &motion);
    assert!(again.heading.is_none() && again.navigation.is_some() && again.speed.is_some());
    let mut mute = info;
    mute.info_packets_sent(1000, &motion, Some(InfoKind::Heading));
    assert_eq!(mute, Information { counter: 1, ..info });

    info.info_packets_sent(1000, &motion, None);
    assert_eq!(info.counter, 2);
    let soon = info.send_info_packets(1001, 0, &motion);
    assert!(soon.heading.is_none() && soon.navigation.is_none() && soon.speed.is_none());
    let unknown = Motion { heading: None, has_course: false, ..motion };
    let later = info.send_info_packets(9000, 0, &unknown);
    assert!(later.heading.is_none() && later.speed.is_none());
    info.info_packets_sent(9000, &unknown, None);
    assert_eq!(info.last_heading, Some(9000));
    assert_eq!(info.counter, 2);
}

#[test]
fn headings_are_checked() {
    assert!(is_heading_true(0x4000));
    assert!(!is_heading_true(0x0123));
    assert_eq!(extract_heading_value(0x4123), Some(0x0123));
    assert_eq!(extract_heading_value(0x0123), None);
    assert!(!is_valid_heading_value(0x8000));
}

fn line(status: u8, large: u16, small: u16) -> Vec<u8> {
    let mut header = vec![0u8; 24];
    header[0] = 24;
    header[1] = status;
    header[6..8].copy_from_slice(&large.to_le_bytes());
    header[8..10].copy_from_slice(&1000u16.to_le_bytes());
    header[10..12].copy_from_slice(&0x4123u16.to_le_bytes());
    header[12..14].copy_from_slice(&small.to_le_bytes());
    header
}

#[test]
fn spoke_headers_tell_the_range() {
    let heading = Some(0x0123);
    assert_eq!(
        validate_header(Model::Gen4, &line(0x02, 0x80, 400)),
        Some((100, 500, heading))
    );
    assert_eq!(
        validate_header(Model::Gen4, &line(0x12, 0x80, 0xffff)),
        Some((0, 500, heading))
    );
    assert_eq!(
        validate_header(Model::Halo24, &line(0x02, 512, 300)),
        Some((300, 500, heading))
    );
    assert_eq!(
        validate_header(Model::BR24, &line(0x02, 0, 1414)),
        Some((10000, 500, heading))
    );
    assert_eq!(validate_header(Model::Gen4, &line(0x03, 0x80, 400)), None);
    let mut short = line(0x02, 0x80, 400);
    short[0] = 23;
    assert_eq!(validate_header(Model::Gen4, &short), None);
}

#[test]
fn navico_frames_become_spokes() {
    let legend = Legend {
        pixel_colors: 16,
        doppler_approaching: Some((20, 1)),
        doppler_receding: Some((21, 1)),
    };
    let tables = pixel_to_blob(&legend);
    assert_eq!(process_spoke(&[0xf3, 0xe9], &tables, DopplerMode::Off), vec![3, 15, 9, 14]);
    assert_eq!(process_spoke(&[0xf3, 0xe9], &tables, DopplerMode::Both), vec![4, 20, 11, 21]);
    assert_eq!(
        process_spoke(&[0xf3, 0xe9], &tables, DopplerMode::Approaching),
        vec![4, 20, 10, 15]
    );
    let mut data = vec![0u8; 8];
    data.extend(line(0x02, 0x80, 400));
    data.extend(vec![0x21; 512]);
    data.extend(line(0x03, 0x80, 400));
    data.extend(vec![0x21; 512]);
    let spokes = process_frame(&data, Model::Gen4, &tables, DopplerMode::Off);
    assert_eq!(spokes.len(), 1);
    assert_eq!(spokes[0].range, 100);
    assert_eq!(spokes[0].data.len(), 1024);
    assert_eq!(spokes[0].data[..4], [1, 2, 1, 2]);
    assert!(process_frame(&data[..500], Model::Gen4, &tables, DopplerMode::Off).is_empty());
}
