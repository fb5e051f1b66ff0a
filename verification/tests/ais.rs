//! AIS vessels.

use mayara::ais::{
    AisVessel, AisVesselApi, AisVesselStore, Dimensions, Position, AIS_TIMEOUT, BROADCAST_DELAY,
};
use mayara::json::{Json, Member, Number};

fn n(value: f64) -> Number {
    Number { bits: value.to_bits() }
}

fn number(value: f64) -> Json {
    Json::Number(n(value))
}

fn text(value: &str) -> Json {
    Json::Text(value.to_string())
}

fn object(members: Vec<(&str, Json)>) -> Json {
    Json::Object(
        members
            .into_iter()
            .map(|(key, value)| Member { key: key.to_string(), value })
            .collect(),
    )
}

fn value(path: &str, value: Json) -> Json {
    object(vec![("path", text(path)), ("value", value)])
}

/// One update with the given values.
fn updates(values: Vec<Json>) -> Json {
    Json::Array(vec![object(vec![("values", Json::Array(values))])])
}

fn position(latitude: f64, longitude: f64) -> Json {
    object(vec![("latitude", number(latitude)), ("longitude", number(longitude))])
}

fn position_update(latitude: f64, longitude: f64) -> Json {
    updates(vec![value("navigation.position", position(latitude, longitude))])
}

#[test]
fn test_extract_mmsi() {
    assert_eq!(
        AisVesselStore::extract_mmsi("vessels.urn:mrn:imo:mmsi:227334400"),
        Some("227334400".to_string())
    );
    assert_eq!(
        AisVesselStore::extract_mmsi("vessels.urn:mrn:imo:mmsi:538011344"),
        Some("538011344".to_string())
    );
    assert_eq!(AisVesselStore::extract_mmsi("vessels.self"), None);
    assert_eq!(AisVesselStore::extract_mmsi("invalid"), None);
}

#[test]
fn test_extract_mmsi_edge_cases() {
    // Empty string
    assert_eq!(AisVesselStore::extract_mmsi(""), None);
    // mmsi: without digits
    assert_eq!(AisVesselStore::extract_mmsi("mmsi:"), None);
    // mmsi: with non-digit suffix
    assert_eq!(AisVesselStore::extract_mmsi("mmsi:abc"), None);
    // Multiple mmsi: patterns (takes first)
    assert_eq!(
        AisVesselStore::extract_mmsi("mmsi:123mmsi:456"),
        Some("123".to_string())
    );
}

#[test]
fn test_dimensions_has_any() {
    let empty = Dimensions::default();
    assert!(!empty.has_any());

    let with_length = Dimensions {
        length: Some(n(12.0)),
        ..Default::default()
    };
    assert!(with_length.has_any());

    let with_beam = Dimensions {
        beam: Some(n(4.0)),
        ..Default::default()
    };
    assert!(with_beam.has_any());

    let with_from_bow = Dimensions {
        from_bow: Some(n(7.0)),
        ..Default::default()
    };
    assert!(with_from_bow.has_any());

    let with_from_center = Dimensions {
        from_center: Some(n(-1.0)),
        ..Default::default()
    };
    assert!(with_from_center.has_any());

    let full = Dimensions {
        length: Some(n(12.0)),
        beam: Some(n(4.0)),
        from_bow: Some(n(7.0)),
        from_center: Some(n(-1.0)),
    };
    assert!(full.has_any());
}

#[test]
fn test_ais_vessel_new() {
    let vessel = AisVessel::new("123456789".to_string(), 7);
    assert_eq!(vessel.mmsi, "123456789");
    assert!(vessel.name.is_none());
    assert!(vessel.position.is_none());
    assert!(vessel.cog.is_none());
    assert!(vessel.sog.is_none());
    assert_eq!(vessel.status, "Active");
    assert!(!vessel.dimensions.has_any());
    assert_eq!(vessel.last_update, 7);
}

#[test]
fn test_update_from_signalk_position() {
    let mut vessel = AisVessel::new("123456789".to_string(), 0);
    let updates = position_update(52.3676, 4.9041);

    let changed = vessel.update_from_signalk(&updates, 1);
    assert!(changed);
    assert_eq!(
        vessel.position,
        Some(Position {
            latitude: n(52.3676),
            longitude: n(4.9041)
        })
    );

    // Same position should not report change
    let changed = vessel.update_from_signalk(&updates, 2);
    assert!(!changed);
    assert_eq!(vessel.last_update, 2);
}

#[test]
fn test_update_from_signalk_cog_sog() {
    let mut vessel = AisVessel::new("123456789".to_string(), 0);
    let updates = updates(vec![
        value("navigation.courseOverGroundTrue", number(1.5708)),
        value("navigation.speedOverGround", number(5.14)),
    ]);

    let changed = vessel.update_from_signalk(&updates, 0);
    assert!(changed);
    assert_eq!(vessel.cog, Some(n(1.5708)));
    assert_eq!(vessel.sog, Some(n(5.14)));
}

#[test]
fn test_update_from_signalk_dimensions() {
    let mut vessel = AisVessel::new("123456789".to_string(), 0);
    let updates = updates(vec![
        value("design.length", object(vec![("overall", number(25.0))])),
        value("design.beam", number(6.0)),
        value("sensors.ais.fromBow", number(15.0)),
        value("sensors.ais.fromCenter", number(-1.5)),
    ]);

    let changed = vessel.update_from_signalk(&updates, 0);
    assert!(changed);
    assert_eq!(vessel.dimensions.length, Some(n(25.0)));
    assert_eq!(vessel.dimensions.beam, Some(n(6.0)));
    assert_eq!(vessel.dimensions.from_bow, Some(n(15.0)));
    assert_eq!(vessel.dimensions.from_center, Some(n(-1.5)));
}

#[test]
fn test_update_from_signalk_name() {
    let mut vessel = AisVessel::new("123456789".to_string(), 0);
    let updates = updates(vec![value("", object(vec![("name", text("TEST VESSEL"))]))]);

    let changed = vessel.update_from_signalk(&updates, 0);
    assert!(changed);
    assert_eq!(vessel.name, Some("TEST VESSEL".to_string()));

    // Same name should not report change
    let changed = vessel.update_from_signalk(&updates, 0);
    assert!(!changed);
}

#[test]
fn test_update_from_signalk_accumulates_data() {
    let mut vessel = AisVessel::new("123456789".to_string(), 0);

    // First update: position only
    vessel.update_from_signalk(&position_update(52.0, 4.0), 0);

    // Second update: name only
    let updates2 = updates(vec![value("", object(vec![("name", text("MY VESSEL"))]))]);
    vessel.update_from_signalk(&updates2, 0);

    // Both should be present
    assert_eq!(
        vessel.position,
        Some(Position {
            latitude: n(52.0),
            longitude: n(4.0)
        })
    );
    assert_eq!(vessel.name, Some("MY VESSEL".to_string()));
}

#[test]
fn test_update_from_signalk_invalid_data() {
    let mut vessel = AisVessel::new("123456789".to_string(), 0);

    // Empty updates array
    let changed = vessel.update_from_signalk(&Json::Array(vec![]), 0);
    assert!(!changed);

    // Missing values key
    let without_values = Json::Array(vec![object(vec![("foo", text("bar"))])]);
    let changed = vessel.update_from_signalk(&without_values, 0);
    assert!(!changed);

    // Invalid position (missing latitude)
    let incomplete = updates(vec![value(
        "navigation.position",
        object(vec![("longitude", number(4.0))]),
    )]);
    let changed = vessel.update_from_signalk(&incomplete, 0);
    assert!(!changed);
    assert!(vessel.position.is_none());
}

#[test]
fn test_ais_vessel_api_from_vessel() {
    let mut vessel = AisVessel::new("123456789".to_string(), 0);
    vessel.name = Some("TEST".to_string());
    vessel.position = Some(Position {
        latitude: n(52.0),
        longitude: n(4.0),
    });
    vessel.cog = Some(n(1.5));
    vessel.sog = Some(n(5.0));

    let api = AisVesselApi::from(&vessel);
    assert_eq!(api.mmsi, "123456789");
    assert_eq!(api.name, Some("TEST".to_string()));
    assert_eq!(
        api.position,
        Some(Position {
            latitude: n(52.0),
            longitude: n(4.0)
        })
    );
    assert_eq!(api.cog, Some(n(1.5)));
    assert_eq!(api.sog, Some(n(5.0)));
    assert_eq!(api.status, "Active");
    // No dimensions set, so should be None
    assert!(api.dimensions.is_none());
}

#[test]
fn test_ais_vessel_api_includes_dimensions_when_set() {
    let mut vessel = AisVessel::new("123456789".to_string(), 0);
    vessel.dimensions.length = Some(n(25.0));

    let api = AisVesselApi::from(&vessel);
    assert!(api.dimensions.is_some());
    assert_eq!(api.dimensions.as_ref().unwrap().length, Some(n(25.0)));
}

#[test]
fn test_store_update_creates_vessel() {
    let mut store = AisVesselStore::new();
    let changed = store.update(
        "vessels.urn:mrn:imo:mmsi:123456789",
        &position_update(52.0, 4.0),
        0,
    );
    assert!(changed);

    let active = store.get_all_active();
    assert_eq!(active.len(), 1);
    assert_eq!(active[0].mmsi, "123456789");
}

#[test]
fn test_store_update_invalid_context() {
    let mut store = AisVesselStore::new();

    // vessels.self has no MMSI
    let changed = store.update("vessels.self", &position_update(52.0, 4.0), 0);
    assert!(!changed);

    let active = store.get_all_active();
    assert!(active.is_empty());
}

#[test]
fn test_store_get_all_active_filters_lost() {
    let mut store = AisVesselStore::new();

    // Add two vessels
    let updates = position_update(52.0, 4.0);
    store.update("vessels.urn:mrn:imo:mmsi:111111111", &updates, 0);
    store.update("vessels.urn:mrn:imo:mmsi:222222222", &updates, 0);

    // Mark one as lost manually
    for v in store.vessels.iter_mut() {
        if v.mmsi == "111111111" {
            v.status = "Lost".to_string();
        }
    }

    let active = store.get_all_active();
    assert_eq!(active.len(), 1);
    assert_eq!(active[0].mmsi, "222222222");
}

#[test]
fn test_store_schedules_broadcast_on_change() {
    let mut store = AisVesselStore::new();
    let changed = store.update(
        "vessels.urn:mrn:imo:mmsi:123456789",
        &position_update(52.0, 4.0),
        0,
    );
    assert!(changed);

    // Verify vessel is scheduled for broadcast
    assert!(store.pending_broadcast.iter().any(|p| p.mmsi == "123456789"));
}

#[test]
fn test_store_flush_broadcasts_after_delay() {
    let mut store = AisVesselStore::new();
    store.update(
        "vessels.urn:mrn:imo:mmsi:123456789",
        &position_update(52.0, 4.0),
        1_000,
    );

    // Before the delay is over, nothing should be broadcast yet
    let early = store.flush_pending_broadcasts(1_000 + BROADCAST_DELAY - 1);
    assert_eq!(early.count, 0);
    assert!(early.broadcasts.is_empty());

    // Now flush should broadcast
    let delivery = store.flush_pending_broadcasts(1_000 + BROADCAST_DELAY);
    assert_eq!(delivery.count, 1);
    assert_eq!(delivery.broadcasts.len(), 1);
    assert_eq!(delivery.broadcasts[0].path, "vessels.123456789");
    assert_eq!(delivery.broadcasts[0].vessel.mmsi, "123456789");
}

#[test]
fn test_store_coalesces_rapid_updates() {
    let mut store = AisVesselStore::new();

    // Send three rapid updates for the same vessel
    let updates1 = updates(vec![value("navigation.speedOverGround", number(5.0))]);
    let updates2 = updates(vec![value("navigation.courseOverGroundTrue", number(1.5))]);
    let updates3 = position_update(52.0, 4.0);

    store.update("vessels.urn:mrn:imo:mmsi:123456789", &updates1, 0);
    store.update("vessels.urn:mrn:imo:mmsi:123456789", &updates2, 1);
    store.update("vessels.urn:mrn:imo:mmsi:123456789", &updates3, 2);

    // Only one pending broadcast should be scheduled
    assert_eq!(store.pending_broadcast.len(), 1);
    assert_eq!(store.pending_broadcast[0].time, BROADCAST_DELAY);

    // Flush should broadcast once with all accumulated data
    let delivery = store.flush_pending_broadcasts(BROADCAST_DELAY);
    assert_eq!(delivery.count, 1);
    assert_eq!(delivery.broadcasts.len(), 1);
    let vessel = &delivery.broadcasts[0].vessel;
    assert_eq!(vessel.sog, Some(n(5.0)));
    assert_eq!(vessel.cog, Some(n(1.5)));
    assert!(vessel.position.is_some());

    // No more messages
    assert_eq!(store.flush_pending_broadcasts(BROADCAST_DELAY).count, 0);
}

#[test]
fn test_store_no_broadcast_when_unchanged() {
    let mut store = AisVesselStore::new();
    let updates = position_update(52.0, 4.0);

    // First update schedules broadcast
    store.update("vessels.urn:mrn:imo:mmsi:123456789", &updates, 0);

    // Let the broadcast happen
    store.flush_pending_broadcasts(BROADCAST_DELAY);

    // Same update should not schedule another broadcast
    let changed = store.update("vessels.urn:mrn:imo:mmsi:123456789", &updates, 0);
    assert!(!changed);
    assert!(store.pending_broadcast.is_empty());
}

#[test]
fn test_position_equality() {
    let pos1 = Position {
        latitude: n(52.0),
        longitude: n(4.0),
    };
    let pos2 = Position {
        latitude: n(52.0),
        longitude: n(4.0),
    };
    let pos3 = Position {
        latitude: n(52.1),
        longitude: n(4.0),
    };

    assert_eq!(pos1, pos2);
    assert_ne!(pos1, pos3);
}

#[test]
fn test_dimensions_equality() {
    let dim1 = Dimensions {
        length: Some(n(25.0)),
        beam: Some(n(6.0)),
        from_bow: None,
        from_center: None,
    };
    let dim2 = Dimensions {
        length: Some(n(25.0)),
        beam: Some(n(6.0)),
        from_bow: None,
        from_center: None,
    };
    let dim3 = Dimensions {
        length: Some(n(30.0)),
        beam: Some(n(6.0)),
        from_bow: None,
        from_center: None,
    };

    assert_eq!(dim1, dim2);
    assert_ne!(dim1, dim3);
}

#[test]
fn numbers_compare_as_doubles() {
    for (a, b) in [
        (0.0, -0.0),
        (1.5, 1.5),
        (1.5, -1.5),
        (f64::INFINITY, f64::INFINITY),
        (f64::INFINITY, f64::NEG_INFINITY),
        (f64::NAN, f64::NAN),
        (f64::NAN, 0.0),
        (f64::MIN_POSITIVE, 0.0),
    ] {
        assert_eq!(n(a) == n(b), a == b, "{} {}", a, b);
    }
    assert!(n(f64::NAN).is_nan());
    assert!(!n(f64::NEG_INFINITY).is_nan());
}

#[test]
fn values_of_an_update_are_taken_in_order() {
    let mut vessel = AisVessel::new("1".to_string(), 0);
    let message = updates(vec![
        value("navigation.speedOverGround", number(5.0)),
        value("navigation.headingTrue", number(0.25)),
        value("navigation.speedOverGround", number(6.0)),
        value("navigation.unknown", number(1.0)),
        object(vec![]),
    ]);
    assert!(vessel.update_from_signalk(&message, 3));
    assert_eq!(vessel.sog, Some(n(6.0)));
    assert_eq!(vessel.heading, Some(n(0.25)));
    // Two values for the same field: the message is news again.
    assert!(vessel.update_from_signalk(&message, 4));
    // What is no list of updates changes nothing but the time.
    assert!(!vessel.update_from_signalk(&Json::Null, 5));
    assert!(!vessel.update_from_signalk(&Json::Bool(true), 5));
    assert_eq!(vessel.last_update, 5);
}

#[test]
fn first_member_with_a_key_counts() {
    let json = object(vec![("a", number(1.0)), ("b", text("x")), ("a", number(2.0))]);
    assert_eq!(json.get("a").unwrap().as_number(), Some(n(1.0)));
    assert_eq!(json.get("b").unwrap().as_str(), Some("x"));
    assert!(json.get("c").is_none());
    assert!(json.as_array().is_none());
    assert!(Json::Array(vec![]).as_array().is_some());
    assert!(number(1.0).get("a").is_none());
}

#[test]
fn vessels_time_out() {
    let mut store = AisVesselStore::new();
    let message = position_update(52.0, 4.0);
    store.update("mmsi:1", &message, 0);
    store.update("mmsi:2", &message, 10);
    store.update("mmsi:3", &message, 0);
    // The third is heard of again, though nothing changed.
    let times: Vec<u64> = store.pending_broadcast.iter().map(|p| p.time).collect();
    assert!(!store.update("mmsi:3", &message, 10));
    let after: Vec<u64> = store.pending_broadcast.iter().map(|p| p.time).collect();
    assert_eq!(times, after);
    assert_eq!(store.vessels[2].last_update, 10);

    let none = store.check_timeouts(AIS_TIMEOUT);
    assert_eq!(none.count, 0);
    assert_eq!(store.vessels.len(), 3);

    let lost = store.check_timeouts(AIS_TIMEOUT + 1);
    assert_eq!(lost.count, 1);
    assert_eq!(lost.broadcasts.len(), 1);
    assert_eq!(lost.broadcasts[0].path, "vessels.1");
    assert_eq!(lost.broadcasts[0].vessel.status, "Lost");
    assert_eq!(store.vessels.len(), 2);
    assert_eq!(store.check_timeouts(AIS_TIMEOUT + 1).count, 0);

    // Its broadcast was scheduled, but there is nothing left to send.
    assert_eq!(store.pending_broadcast.len(), 3);
    let delivery = store.flush_pending_broadcasts(AIS_TIMEOUT + 1);
    assert_eq!(delivery.count, 2);
    assert!(store.pending_broadcast.is_empty());
    let paths: Vec<&str> = delivery.broadcasts.iter().map(|b| b.path.as_str()).collect();
    assert_eq!(paths, vec!["vessels.2", "vessels.3"]);
}
