//! Koden radars.

use mayara::brand::koden::command::{set_byte, set_control, set_word, KodenRequest};
use mayara::brand::koden::locator::{is_image_packet, process_locator_report};
use mayara::brand::koden::protocol::{
    actual_spoke_pixels, model_name, range_index_to_meters, CMD_AUTO_GAIN_MODE,
    CMD_BLANKING_SECTOR, CMD_GAIN, CMD_INTERFERENCE_REJECTION, CMD_MODEL_CODE, CMD_MODEL_INFO,
    CMD_PARK_ANGLE, CMD_TARGET_EXPANSION, CMD_TRANSFER_MODE, CMD_TRANSMISSION_MODE, RESP_POWER,
    RESP_WARMUP,
};
use mayara::brand::koden::report::process_packet;
use mayara::brand::koden::settings;
use mayara::radar::{ControlId, ControlRequest, Power, SetError, Update};

fn request(id: ControlId, number: i32) -> KodenRequest {
    KodenRequest {
        request: ControlRequest {
            id,
            has_value: true,
            number: Some(number),
            power: None,
            auto: None,
            enabled: None,
            end: None,
        },
        current: None,
        level: 128,
        angle: 0x0123,
        end_angle: 0x03ff,
    }
}

fn updates(data: &[u8]) -> Vec<Update> {
    process_packet(data, None).updates
}

#[test]
fn ranges_come_from_the_table() {
    assert_eq!(range_index_to_meters(0), 231);
    assert_eq!(range_index_to_meters(4), 1852);
    assert_eq!(range_index_to_meters(19), 177792);
    assert_eq!(range_index_to_meters(200), 177792);
    for i in 0..19 {
        assert!(range_index_to_meters(i) < range_index_to_meters(i + 1));
    }
    assert_eq!(actual_spoke_pixels(0x100), 240);
    assert_eq!(actual_spoke_pixels(0x200), 480);
    assert_eq!(actual_spoke_pixels(0x400), 960);
    assert_eq!(actual_spoke_pixels(0x300), 0);
    assert_eq!(model_name(10), "MDS-10R 4kW Open Array");
    assert_eq!(model_name(99), "Unknown");
}

#[test]
fn packets_are_recognised() {
    assert!(process_locator_report(&[0x26, RESP_POWER, 0x0d]));
    assert!(process_locator_report(&[0x23, CMD_MODEL_CODE, 1, 0x0d]));
    assert!(!process_locator_report(&[0x23, CMD_GAIN, 1, 0x0d]));
    assert!(!process_locator_report(&[0x26, RESP_POWER]));
    let mut image = vec![0x7b; 0x2c];
    assert!(is_image_packet(&image));
    assert!(process_locator_report(&image));
    image.pop();
    assert!(!is_image_packet(&image));
}

#[test]
fn control_responses_tell_the_power() {
    let warm = updates(&[0x26, RESP_WARMUP, 0x11, 0x0d]);
    assert_eq!(warm, vec![Update::Power(Power::Standby)]);
    let cold = updates(&[0x26, RESP_WARMUP, 0x30, 0x0d]);
    assert_eq!(cold, vec![Update::Power(Power::Preparing)]);
    let on = updates(&[0x26, RESP_POWER, 0x0d]);
    assert_eq!(on, vec![Update::Power(Power::Preparing)]);
    assert!(updates(&[0x26, RESP_POWER, 0x00]).is_empty());
    assert!(updates(&[0x26, RESP_POWER]).is_empty());
}

#[test]
fn status_responses_change_controls() {
    let status = |cmd: u8, value: u8| updates(&[0x23, cmd, value, 0x0d]);
    assert_eq!(
        status(CMD_GAIN, 200),
        vec![Update::Fraction { id: ControlId::Gain, raw: 200 }]
    );
    assert_eq!(
        status(CMD_AUTO_GAIN_MODE, 0x11),
        vec![Update::AutoKept { id: ControlId::Gain, auto: true }]
    );
    // On the wire 0 is on.
    assert_eq!(
        status(CMD_TARGET_EXPANSION, 0),
        vec![Update::Value { id: ControlId::TargetExpansion, value: 1 }]
    );
    assert_eq!(
        status(CMD_TARGET_EXPANSION, 0x11),
        vec![Update::Value { id: ControlId::TargetExpansion, value: 0 }]
    );
    assert_eq!(
        status(CMD_INTERFERENCE_REJECTION, 0x33),
        vec![Update::Value { id: ControlId::InterferenceRejection, value: 3 }]
    );
    assert_eq!(
        status(CMD_TRANSMISSION_MODE, 0x11),
        vec![Update::Power(Power::Transmit)]
    );
    assert_eq!(
        updates(&[0x23, CMD_BLANKING_SECTOR, 1, 2, 3, 4, 0x0d]),
        vec![Update::Sector {
            id: ControlId::NoTransmitSector1,
            start: 0x0102,
            end: 0x0304,
            enabled: true
        }]
    );
    assert_eq!(
        updates(&[0x23, CMD_PARK_ANGLE, 1, 2, 0x0d]),
        vec![Update::Value { id: ControlId::ParkPosition, value: 0x0102 }]
    );
    let info = process_packet(&[0x23, CMD_MODEL_INFO, 0x41, 1, 0, 1, 0, 2, 0x0d], None);
    let text = info.text.unwrap();
    assert_eq!((text.id, text.text.as_str()), (ControlId::SerialNumber, "65538"));
    let code = process_packet(&[0x23, CMD_MODEL_CODE, 2, 0x0d], None);
    assert_eq!(code.text.unwrap().text, "MDS-52R 4kW Open Array");
}

#[test]
fn images_become_spokes() {
    let mut data = vec![0u8; 0x2c];
    data[..4].copy_from_slice(&[0x7b; 4]);
    data[0x0e] = 2;
    data[0x10] = 4;
    data[0x25] = 3;
    data[0x27] = 1;
    data[0x29] = 4;
    data[0x2a] = 0xff;
    data[0x2b] = 3;
    data.extend_from_slice(&[200; 240]);
    data.extend_from_slice(&[100; 240]);
    data.extend_from_slice(&[50; 100]);
    let outcome = process_packet(&data, Some(7));
    assert_eq!(outcome.updates[0], Update::Power(Power::Transmit));
    assert_eq!(outcome.updates[1], Update::Value { id: ControlId::Range, value: 1852 });
    // The third spoke is not whole.
    assert_eq!(outcome.spokes.len(), 2);
    assert_eq!(outcome.spokes[0].angle, 1023 * 4);
    assert_eq!(outcome.spokes[1].angle, 0);
    assert_eq!(outcome.spokes[0].heading, Some(7));
    assert_eq!(outcome.spokes[0].data, vec![100; 240]);
    assert_eq!(outcome.spokes[1].data, vec![50; 240]);
    data[0x0e] = 1;
    assert!(process_packet(&data, None).updates.is_empty());
    data[0x0e] = 2;
    data[0x25] = 0;
    assert_eq!(updates(&data), vec![Update::Power(Power::Transmit)]);
}

#[test]
fn controls_are_set() {
    assert_eq!(set_byte(1, 2), vec![0x26, 1, 2, 0x0d]);
    assert_eq!(set_word(1, 0x0203), vec![0x26, 1, 2, 3, 0x0d]);
    assert_eq!(
        set_control(&request(ControlId::Power, 2)).unwrap(),
        vec![vec![0x26, CMD_TRANSFER_MODE, 0x22, 0x0d]]
    );
    assert_eq!(
        set_control(&request(ControlId::Power, 1)).unwrap(),
        vec![vec![0x26, CMD_TRANSFER_MODE, 0, 0x0d]]
    );
    assert!(set_control(&request(ControlId::Power, 0)).unwrap().is_empty());
    assert_eq!(
        set_control(&request(ControlId::Gain, 50)).unwrap(),
        vec![
            vec![0x26, CMD_AUTO_GAIN_MODE, 0, 0x0d],
            vec![0x26, CMD_GAIN, 128, 0x0d]
        ]
    );
    assert_eq!(
        set_control(&request(ControlId::TargetExpansion, 1)).unwrap(),
        vec![vec![0x26, CMD_TARGET_EXPANSION, 0, 0x0d]]
    );
    assert_eq!(
        set_control(&request(ControlId::NoTransmitSector1, 0)).unwrap(),
        vec![vec![0x26, CMD_BLANKING_SECTOR, 1, 0x23, 3, 0xff, 0x0d]]
    );
    assert!(set_control(&request(ControlId::Doppler, 0)).unwrap().is_empty());
    let mut none = request(ControlId::Sea, 0);
    none.request.number = None;
    assert!(matches!(set_control(&none), Err(SetError::NoNumber)));
    assert_eq!(settings::new().len(), 16);
}

#[test]
fn what_was_set_comes_back() {
    let choices = [
        (ControlId::TargetExpansion, 2),
        (ControlId::SeaState, 3),
        (ControlId::InterferenceRejection, 4),
    ];
    for (id, count) in choices {
        for value in 0..count {
            let sent = set_control(&request(id, value)).unwrap();
            assert_eq!(sent.len(), 1);
            let mut status = sent[0].clone();
            status[0] = 0x23;
            assert_eq!(updates(&status), vec![Update::Value { id, value: value as i64 }]);
        }
    }
}
