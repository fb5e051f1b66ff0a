//! The emulated radar.

use mayara::brand::emulator::report::{batch_interval_ms, kept_units, EmulatorState, Reaction};
use mayara::brand::emulator::settings::{emulator_ranges, new, EMULATOR_RANGES};
use mayara::radar::{ControlId, ControlRequest, Power, Update};

fn request(id: ControlId, number: Option<i32>) -> ControlRequest {
    ControlRequest {
        id,
        has_value: number.is_some(),
        number,
        power: None,
        auto: None,
        enabled: None,
        end: None,
    }
}

#[test]
fn batches_make_a_revolution() {
    let mut s = EmulatorState::new();
    assert!(s.transmitting);
    assert_eq!(s.current_range, 926);
    let mut spokes = Vec::new();
    for _ in 0..64 {
        spokes.extend(s.next_batch());
    }
    let all: Vec<u16> = (0..2048).collect();
    assert_eq!(spokes, all);
    assert_eq!(s.current_spoke, 0);
    assert_eq!(s.rotation_count, 1);
    assert_eq!(batch_interval_ms(), 39);
}

#[test]
fn emulator_requests_are_handled() {
    let mut s = EmulatorState::new();
    let off = s.handle_control_update(&request(ControlId::Power, Some(0)), 0);
    assert_eq!(off, Reaction::Show(Update::Power(Power::Off)));
    assert!(!s.transmitting);
    let on = s.handle_control_update(&request(ControlId::Power, Some(2)), 0);
    assert_eq!(on, Reaction::Show(Update::Power(Power::Transmit)));
    assert!(s.transmitting);
    let standby = s.handle_control_update(&request(ControlId::Power, Some(1)), 0);
    assert_eq!(standby, Reaction::Show(Update::Power(Power::Standby)));
    let other = s.handle_control_update(&request(ControlId::Power, Some(9)), 0);
    assert_eq!(other, Reaction::Nothing);
    let range = s.handle_control_update(&request(ControlId::Range, Some(1852)), 1852);
    assert_eq!(range, Reaction::Show(Update::Value { id: ControlId::Range, value: 1852 }));
    assert_eq!(s.current_range, 1852);
    let gain = s.handle_control_update(&request(ControlId::Gain, Some(1)), 1);
    assert_eq!(gain, Reaction::Forward);
    assert_eq!(kept_units(&request(ControlId::RangeUnits, Some(1))), Some(1));
    assert_eq!(kept_units(&request(ControlId::Gain, Some(1))), None);
}

#[test]
fn emulator_ranges_are_sorted() {
    let ranges = emulator_ranges();
    let distances: Vec<i32> = ranges.all.iter().map(|r| r.distance()).collect();
    assert_eq!(distances, EMULATOR_RANGES.to_vec());
    assert!(distances.windows(2).all(|w| w[0] < w[1]));
    assert!(!new().is_empty());
}
