//! Raymarine radars.

use mayara::brand::raymarine::navdata::{build_navdata_message, NavData, Position};
use mayara::brand::raymarine::protocol::{
    FEATURE_BIRD_MODE, FEATURE_DOPPLER, MSG_QUANTUM_FEATURES, MSG_RD_STATUS_HD, NAVDATA_SUB_ID,
};
use mayara::brand::raymarine::report::{
    pixel_to_blob, process_report, FeatureFlags, RaymarineState, ReportKind,
};
use mayara::radar::Legend;

#[test]
fn navdata_is_laid_out() {
    let message = build_navdata_message(&NavData {
        heading: Some(0x01020304),
        cog: None,
        sog: Some(-1),
        position: Some(Position { lat: 5, lon: -2 }),
    });
    assert_eq!(message.len(), 32);
    assert_eq!(message[0..4], NAVDATA_SUB_ID.to_le_bytes());
    assert_eq!(message[4..8], 25u32.to_le_bytes());
    assert_eq!(message[8..12], [4, 3, 2, 1]);
    assert_eq!(message[12..20], [0; 8]);
    assert_eq!(message[20..24], (-1i32).to_le_bytes());
    assert_eq!(message[24..28], 5i32.to_le_bytes());
    assert_eq!(message[28..32], (-2i32).to_le_bytes());
}

#[test]
fn reports_are_told_apart() {
    assert_eq!(process_report(&[1, 2, 3]), None);
    assert_eq!(
        process_report(&MSG_QUANTUM_FEATURES.to_le_bytes()),
        Some(ReportKind::QuantumFeatures)
    );
    assert_eq!(process_report(&MSG_RD_STATUS_HD.to_le_bytes()), Some(ReportKind::RdStatus));
    assert_eq!(process_report(&[0; 9]), Some(ReportKind::Other));
}

fn features(raw: u32) -> Vec<u8> {
    let mut data = MSG_QUANTUM_FEATURES.to_le_bytes().to_vec();
    data.extend_from_slice(&raw.to_le_bytes());
    data
}

#[test]
fn raymarine_first_features_count() {
    let mut s = RaymarineState::new(false);
    assert!(!s.process_features(&features(FEATURE_DOPPLER)[..7]));
    assert!(!s.features_seen);
    assert!(s.process_features(&features(FEATURE_DOPPLER)));
    assert!(s.doppler && s.features_seen);
    assert!(!s.process_features(&features(0)));
    assert!(s.doppler);

    let both = FeatureFlags { raw: FEATURE_DOPPLER | FEATURE_BIRD_MODE };
    assert!(both.has_doppler() && both.has_bird_mode());
    assert!(!both.is_quantum() && !both.has_marpa() && !both.is_cyclone());
    let bird = FeatureFlags { raw: FEATURE_BIRD_MODE };
    assert!(!bird.has_doppler() && bird.has_bird_mode());
}

#[test]
fn heartbeats_take_turns() {
    let mut s = RaymarineState::new(false);
    // One that failed is tried again as it was.
    assert!(s.send_heartbeat(true).extended);
    assert!(s.send_heartbeat(true).extended);
    let mut extended: Vec<bool> = Vec::new();
    for _ in 0..11 {
        let beat = s.send_heartbeat(true);
        assert!(beat.short);
        extended.push(beat.extended);
        s.heartbeat_sent();
    }
    let fifth: Vec<bool> = (0..11).map(|i| i % 5 == 0).collect();
    assert_eq!(extended, fifth);
    assert_eq!(s.heartbeat_counter, 11);
    let none = s.send_heartbeat(false);
    assert!(!none.short && !none.extended);
    assert_eq!(s.heartbeat_counter, 11);
}

#[test]
fn samples_are_halved_for_large_palettes() {
    let mut legend = Legend {
        pixel_colors: 127,
        doppler_approaching: Some((120, 1)),
        doppler_receding: Some((124, 1)),
    };
    let tables = pixel_to_blob(&legend);
    assert_eq!((tables.normal[0], tables.normal[200], tables.normal[255]), (0, 200, 255));
    assert_eq!(tables.doppler[0xff], 120);
    assert_eq!(tables.doppler[0xfe], 124);
    legend.pixel_colors = 128;
    legend.doppler_receding = None;
    let tables = pixel_to_blob(&legend);
    assert_eq!((tables.normal[0], tables.normal[200], tables.normal[255]), (0, 100, 127));
    assert_eq!(tables.doppler[0xff], 120);
    assert_eq!(tables.doppler[0xfe], 0);
}
