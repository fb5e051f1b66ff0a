//! Furuno radars.

use mayara::brand::furuno::command::{
    is_settable, is_zone_computable, Command, CommandLine, ControlSet, ControlState, Zone,
};
use mayara::brand::furuno::line::{is_wide_mode, parse_hex_byte, parse_line, ReportError};
use mayara::brand::furuno::locator::{login_port, process_locator_report, LocatorOutcome};
use mayara::brand::furuno::protocol::{
    meters_to_wire_index, meters_to_wire_index_for_unit, meters_to_wire_index_km,
    wire_index_to_meters, wire_index_to_meters_for_unit, wire_index_to_meters_km,
    wire_unit_for_meters, CommandId, CommandMode, RadarModel, BASE_PORT, BEACON_REPORT_HEADER,
    LOGIN_EXPECTED_HEADER, WIRE_INDEX_TABLE, WIRE_INDEX_TABLE_KM,
};
use mayara::brand::furuno::report::{FrameContext, FurunoReportReceiver, ReceiveAddressType};
use mayara::brand::furuno::session::{Action, DataSocket, Event, Session};
use mayara::brand::furuno::settings::{
    capabilities, get_ranges_by_model, is_serial_cuttable, update_when_model_known,
};
use mayara::brand::furuno::spoke::{
    decode_sweep_encoding_0, decode_sweep_encoding_1, decode_sweep_encoding_2,
    decode_sweep_encoding_3, map_to_palette, parse_metadata_header, stretch_spoke,
};
use mayara::brand::furuno::status::{is_well_formed, Number, Pulse, ReportAction};
use mayara::radar::{ControlId, ControlRequest, Power, RangeId, SetError, Update};

const MODELS: [RadarModel; 6] = [
    RadarModel::Unknown,
    RadarModel::DRS,
    RadarModel::DRS4W,
    RadarModel::DRS4DNXT,
    RadarModel::FAR21x7,
    RadarModel::FAR3000,
];

fn request(id: ControlId, number: i32) -> ControlRequest {
    ControlRequest {
        id,
        has_value: true,
        number: Some(number),
        power: None,
        auto: None,
        enabled: None,
        end: None,
    }
}

fn state() -> ControlState {
    let zone = Zone { start: 0, end: 0, enabled: false };
    ControlState {
        current: None,
        transmitting: false,
        timed_idle: None,
        timed_run: None,
        range: None,
        zone1: zone,
        zone2: zone,
    }
}

fn command(dual_range_id: i32, all: bool) -> Command {
    Command {
        dual_range_id,
        controls: ControlSet {
            pulse_width: all,
            tune: all,
            scan_speed: all,
            main_bang_suppression: all,
            bird_mode: all,
        },
    }
}

/// The first line that setting a control sends.
fn set(c: &Command, q: &ControlRequest, s: &ControlState) -> String {
    assert!(is_settable(q, s));
    c.set_control(q, s).unwrap()[0].message()
}

fn numbers(values: &[i64]) -> Vec<Number> {
    values.iter().map(|v| Number { whole: *v, exact: true }).collect()
}

fn value(range: RangeId, id: ControlId, value: i64) -> ReportAction {
    ReportAction::Change { range, update: Update::Value { id, value } }
}

/// What a report with numbers alone changes.
fn report(
    receiver: &mut FurunoReportReceiver,
    command: CommandId,
    values: &[i64],
) -> Result<Vec<ReportAction>, ReportError> {
    let fields: Vec<String> = values.iter().map(|v| v.to_string()).collect();
    let n = numbers(values);
    assert!(is_well_formed(receiver.model_known, command, &n));
    receiver.process_report(command, &fields, &n).map(|o| o.actions)
}

#[test]
fn wire_indices_are_looked_up() {
    assert_eq!(wire_index_to_meters(21), Some(116));
    assert_eq!(wire_index_to_meters(19), Some(66672));
    assert_eq!(wire_index_to_meters(22), None);
    assert_eq!(wire_index_to_meters_km(19), Some(36000));
    assert_eq!(wire_index_to_meters_km(21), None);
    assert_eq!(meters_to_wire_index(66672), 19);
    assert_eq!(meters_to_wire_index(-5), 21);
    assert_eq!(meters_to_wire_index(i32::MAX), 18);
    assert_eq!(meters_to_wire_index_km(0), 0);
    assert_eq!(meters_to_wire_index_for_unit(12000, 1), 11);
    // Halfway between 231 and 463 the first of the table counts.
    assert_eq!(meters_to_wire_index(347), 0);
    assert_eq!(wire_unit_for_meters(12000), 1);
    assert_eq!(wire_unit_for_meters(11112), 0);
}

#[test]
fn wire_tables_round_trip() {
    for (index, meters) in WIRE_INDEX_TABLE {
        assert_eq!(wire_index_to_meters_for_unit(index, 0), Some(meters));
        assert_eq!(meters_to_wire_index_for_unit(meters, 0), index);
    }
    for (index, meters) in WIRE_INDEX_TABLE_KM {
        assert_eq!(wire_index_to_meters_for_unit(index, 1), Some(meters));
        assert_eq!(meters_to_wire_index_for_unit(meters, 1), index);
    }
}

#[test]
fn opcodes_and_modes_round_trip() {
    for code in 0..=255u8 {
        if let Some(id) = CommandId::from_u8(code) {
            assert_eq!(id.to_u8(), code);
        }
    }
    assert_eq!(CommandId::from_u8(0x63), Some(CommandId::Gain));
    assert_eq!(CommandId::from_u8(0xff), None);
    for mode in [
        CommandMode::Write,
        CommandMode::Request,
        CommandMode::New,
        CommandMode::X,
        CommandMode::E,
        CommandMode::O,
    ] {
        assert_eq!(CommandMode::from(mode.to_char() as u8), mode);
    }
    assert_eq!(CommandMode::from(0u8), CommandMode::New);
}

#[test]
fn furuno_models_have_names() {
    assert_eq!(RadarModel::from_model_name("DRS4D-NXT"), RadarModel::DRS4DNXT);
    assert_eq!(RadarModel::from_model_name("nothing"), RadarModel::Unknown);
    assert!(RadarModel::DRS4DNXT.is_nxt());
    assert!(!RadarModel::DRS4W.is_nxt());
    assert!(RadarModel::DRS4W.is_low_power());
    assert!(RadarModel::DRS.is_low_power());
    assert!(!RadarModel::FAR3000.is_low_power());
    assert_eq!(RadarModel::from_part_number("no such part"), RadarModel::Unknown);
}

#[test]
fn report_lines_are_taken_apart() {
    let line = parse_line("noise$N63,1,50,0,80,0\r\n").unwrap().unwrap();
    assert_eq!(line.command, CommandId::Gain);
    assert_eq!(line.fields, vec!["1", "50", "0", "80", "0"]);
    let line = parse_line("$N96").unwrap().unwrap();
    assert_eq!(line.command, CommandId::Modules);
    assert!(line.fields.is_empty());
    assert!(parse_line("no dollar").unwrap().is_none());
    assert!(parse_line("$NFF,1").unwrap().is_none());
    assert!(matches!(parse_line("$S63,1"), Err(ReportError::NotAReport)));
    assert!(matches!(parse_line("$"), Err(ReportError::NotAReport)));
    assert!(matches!(parse_line("$Nxyz"), Err(ReportError::BadOpcode)));
    assert!(matches!(parse_line("$N"), Err(ReportError::BadOpcode)));
    assert!(is_wide_mode("$\u{e9}"));
    assert!(!is_wide_mode("$N\u{e9}"));
    assert_eq!(parse_hex_byte("+f"), Some(15));
    assert_eq!(parse_hex_byte("1ff"), None);
    assert_eq!(parse_hex_byte(""), None);
}

#[test]
fn commands_are_written() {
    let line = CommandLine {
        mode: CommandMode::Write,
        id: CommandId::Gain,
        args: vec![0, -5, i32::MIN],
    };
    assert_eq!(line.message(), "$S63,0,-5,-2147483648\r\n");
    assert_eq!(line.message_with_commas(2), "$S63,0,-5,-2147483648,,\n");

    let a = command(0, false);
    let b = command(1, false);
    let s = state();
    assert_eq!(set(&a, &request(ControlId::Gain, 50), &s), "$S63,0,50,0,80,0\r\n");
    assert_eq!(set(&b, &request(ControlId::Sea, 7), &s), "$S64,0,7,50,1,0,0\r\n");
    assert_eq!(set(&b, &request(ControlId::Rain, 7), &s), "$S65,0,7,0,1,0,0\r\n");
    assert_eq!(set(&b, &request(ControlId::Range, 11112), &s), "$S62,9,0,1\r\n");
    assert_eq!(set(&a, &request(ControlId::Range, 36000), &s), "$S62,19,1,0\r\n");
    assert_eq!(set(&a, &request(ControlId::RangeUnits, 1), &s), "$S62,11,1,0\r\n");
    assert_eq!(set(&a, &request(ControlId::MainBangSuppression, 50), &s), "$S83,127,0\r\n");
    assert_eq!(set(&a, &request(ControlId::NoiseRejection, 1), &s), "$S67,0,3,1,0\r\n");
    assert_eq!(set(&a, &request(ControlId::InterferenceRejection, 1), &s), "$S67,0,0,2,0\r\n");
    assert_eq!(set(&a, &request(ControlId::AntennaHeight, 3), &s), "$S84,0,3,0\r\n");
    assert_eq!(set(&a, &request(ControlId::ScanSpeed, 2), &s), "$S89,2,0\r\n");
    assert_eq!(set(&b, &request(ControlId::Tune, 9), &s), "$S75,0,9,1\r\n");
    assert_eq!(set(&a, &request(ControlId::TimedRun, 590), &s), "$S69,1,0,0,590,60,0\r\n");
}

#[test]
fn power_and_automatic_values_are_set() {
    let a = command(0, false);
    let s = ControlState {
        timed_idle: Some(1),
        timed_run: Some(120),
        transmitting: true,
        ..state()
    };
    let on = ControlRequest { power: Some(Power::Transmit), ..request(ControlId::Power, 2) };
    assert_eq!(set(&a, &on, &s), "$S69,2,0,1,120,480,0\r\n");
    let off = ControlRequest { power: None, ..request(ControlId::Power, 9) };
    assert_eq!(set(&a, &off, &s), "$S69,1,0,1,120,480,0\r\n");
    assert_eq!(set(&a, &request(ControlId::TimedIdle, 0), &s), "$S69,2,0,0,120,480,0\r\n");

    // A request for automatic control alone keeps the value.
    let auto = ControlRequest {
        has_value: false,
        number: None,
        auto: Some(true),
        ..request(ControlId::Gain, 0)
    };
    let current = ControlState { current: Some(33), ..state() };
    assert_eq!(set(&a, &auto, &current), "$S63,1,33,0,80,0\r\n");
    let nothing = ControlRequest { auto: None, ..auto };
    assert!(matches!(a.set_control(&nothing, &current), Err(SetError::NoNumber)));
}

#[test]
fn sectors_are_set_together() {
    let a = command(0, false);
    let s = ControlState { zone1: Zone { start: 10, end: 20, enabled: true }, ..state() };
    let q = ControlRequest {
        end: Some(30),
        enabled: Some(true),
        ..request(ControlId::NoTransmitSector2, 350)
    };
    assert_eq!(set(&a, &q, &s), "$S77,1,10,10,350,40\r\n");
    assert!(!is_zone_computable(&Zone { start: i32::MIN, end: i32::MAX, enabled: true }));
    let huge = request(ControlId::MainBangSuppression, i32::MAX);
    assert!(!is_settable(&huge, &s));
}

#[test]
fn reports_are_requested() {
    let lines: Vec<String> = command(0, true).init().iter().map(|c| c.message()).collect();
    assert_eq!(lines[0], "$R96\r\n");
    assert_eq!(lines[1], "$R8E,0\r\n");
    assert_eq!(lines[5], "$R68\r\n");
    assert_eq!(lines.last().unwrap(), "$REF\r\n");
    assert_eq!(lines.len(), 18);
    let few = command(0, false).init();
    assert_eq!(few.len(), 9);
    let regular = command(0, false).send_report_requests();
    assert_eq!(regular.len(), 10);
    assert_eq!(regular[0].id, CommandId::AliveCheck);
    assert_eq!(regular[1].id, CommandId::Modules);
}

#[test]
fn furuno_reports_change_controls() {
    let mut r = FurunoReportReceiver::new();
    r.model_known = true;
    let gain = report(&mut r, CommandId::Gain, &[1, 60, 1, 80, 0]).unwrap();
    assert_eq!(
        gain,
        vec![ReportAction::SetAutoFromField {
            range: RangeId::A,
            id: ControlId::Gain,
            field: 1,
            auto: 1
        }]
    );
    let range = report(&mut r, CommandId::Range, &[10, 0, 1]).unwrap();
    assert_eq!(range[0], value(RangeId::A, ControlId::Range, 14816));
    assert_eq!(range[1], value(RangeId::A, ControlId::RangeUnits, 0));
    assert_eq!(
        report(&mut r, CommandId::Range, &[21, 1, 0]),
        Err(ReportError::UnknownRange { index: 21, unit: 1 })
    );
    assert_eq!(
        report(&mut r, CommandId::Gain, &[1]),
        Err(ReportError::TooFewFields { command: CommandId::Gain, count: 1 })
    );
    let bang = report(&mut r, CommandId::MainBangSize, &[127, 0]).unwrap();
    assert_eq!(bang, vec![value(RangeId::A, ControlId::MainBangSuppression, 49)]);
    let doppler = report(&mut r, CommandId::TargetAnalyzer, &[1, 1, 0]).unwrap();
    assert_eq!(doppler, vec![value(RangeId::A, ControlId::Doppler, 2)]);
    let echo = report(&mut r, CommandId::SignalProcessing, &[0, 3, 1, 0]).unwrap();
    assert_eq!(echo, vec![value(RangeId::A, ControlId::NoiseRejection, 1)]);
    let reply = report(&mut r, CommandId::SignalProcessing, &[0, 2, 0]).unwrap();
    assert_eq!(reply, vec![value(RangeId::A, ControlId::InterferenceRejection, 1)]);
    let pulse = report(&mut r, CommandId::PulseWidth, &[4, 0, 0, 0, 0]).unwrap();
    assert_eq!(pulse, vec![ReportAction::NamePulse { range: RangeId::A, pulse: Pulse::M3 }]);
    assert_eq!(Pulse::M3.name(), "M3");
    assert_eq!(report(&mut r, CommandId::AliveCheck, &[]).unwrap(), vec![]);
    assert!(!is_well_formed(true, CommandId::OnTime, &[]));
}

#[test]
fn ranges_transmit_together() {
    let mut r = FurunoReportReceiver::new();
    r.model_known = true;
    r.set_range_b();
    let status = report(&mut r, CommandId::Status, &[2, 1, 1, 30, 0, 0]).unwrap();
    let transmit = Update::Power(Power::Transmit);
    assert_eq!(status[0], ReportAction::Change { range: RangeId::B, update: transmit });
    assert_eq!(status[1], value(RangeId::B, ControlId::TimedIdle, 1));
    assert_eq!(
        status[2],
        ReportAction::SetFromField { range: RangeId::B, id: ControlId::TimedRun, field: 3 }
    );
    assert_eq!(status[3], ReportAction::Change { range: RangeId::A, update: transmit });
    let sea = report(&mut r, CommandId::Sea, &[0, 5, 0, 1, 0, 0]).unwrap();
    assert_eq!(
        sea,
        vec![ReportAction::SetAutoFromField {
            range: RangeId::B,
            id: ControlId::Sea,
            field: 1,
            auto: 0
        }]
    );
}

#[test]
fn model_is_taken_from_the_modules() {
    let mut r = FurunoReportReceiver::new();
    let fields = vec!["0359360-01.07".to_string(), "0".to_string()];
    let n = numbers(&[0, 0]);
    let outcome = r.process_report(CommandId::Modules, &fields, &n).unwrap();
    assert!(r.model_known);
    let model = outcome.model.unwrap();
    assert_eq!(model.version, "01.07");
    assert_eq!(model.model, RadarModel::DRS4DNXT);
    assert_eq!(r.model, model.model);
    // Only the first report counts.
    let again = r.process_report(CommandId::Modules, &fields, &n).unwrap();
    assert!(again.model.is_none());
}

#[test]
fn sweeps_are_decoded() {
    assert_eq!(decode_sweep_encoding_0(&[1, 2, 3]), (vec![1, 2, 3], 3));
    // A literal, three repeats of it, a literal.
    assert_eq!(
        decode_sweep_encoding_1(&[10, 7, 20, 0xff, 0xff], 5),
        (vec![10, 10, 10, 10, 20], 4)
    );
    // A repeat count of zero stands for 128.
    assert_eq!(decode_sweep_encoding_1(&[10, 1], 100).0.len(), 129);
    // Two samples of the sweep before.
    assert_eq!(
        decode_sweep_encoding_2(&[10, 5, 20, 0], &[1, 2, 3], 4),
        (vec![10, 2, 3, 20], 4)
    );
    // A literal, two copies, three repeats of the last.
    assert_eq!(
        decode_sweep_encoding_3(&[8, 10, 13], &[1, 2, 4], 6),
        (vec![8, 2, 4, 4, 4, 4], 4)
    );
    assert_eq!(decode_sweep_encoding_3(&[2], &[9], 3).0.len(), 64);
}

#[test]
fn spokes_are_stretched_and_mapped() {
    assert_eq!(stretch_spoke(&[1, 2, 3, 4], 2, 8), vec![1, 1, 1, 1, 2, 2, 2, 2]);
    assert_eq!(stretch_spoke(&[1, 2, 3, 4], 4, 4), vec![1, 2, 3, 4]);
    assert_eq!(stretch_spoke(&[1, 2, 3, 4], 4, 2), vec![1, 3]);
    assert_eq!(stretch_spoke(&[1, 2, 3, 4, 5], 3, 2), vec![1, 2]);
    assert_eq!(stretch_spoke(&[1, 2], 0, 4), vec![1, 1, 1, 1]);
    assert_eq!(stretch_spoke(&[], 5, 3), vec![0, 0, 0]);
    assert_eq!(map_to_palette(&[0, 100, 252], 1, 64, false), vec![0, 25, 63]);
    assert_eq!(map_to_palette(&[0, 100, 252], 2, 64, true), vec![0, 50, 64]);
}

fn frame(encoding: u8, range_b: bool, sweeps: &[[u8; 8]]) -> Vec<u8> {
    let mut data = vec![0u8; 16];
    data[0] = 0x02;
    data[9] = (sweeps.len() as u8) << 1;
    data[10] = 4;
    data[11] = encoding << 3 | 0x20;
    data[12] = 4;
    data[14] = 4;
    data[15] = if range_b { 0x40 } else { 0 };
    for s in sweeps {
        data.extend_from_slice(s);
    }
    data
}

#[test]
fn furuno_frames_become_spokes() {
    let ctx = FrameContext {
        metric_a: false,
        metric_b: true,
        pixel_values_a: 64,
        pixel_values_b: 64,
        heading: Some(5),
        replay: false,
    };
    let data = frame(1, false, &[[1, 2, 3, 4, 40, 7, 0, 0], [2, 2, 3, 4, 80, 7, 0, 0]]);
    let m = parse_metadata_header(&data, false, None);
    assert_eq!((m.sweep_count, m.sweep_len, m.encoding, m.have_heading), (2, 4, 1, 1));
    assert_eq!((m.range, m.radar_no, m.scale), (1852, 0, 4));

    let mut r = FurunoReportReceiver::new();
    r.set_range_b();
    assert!(r.is_frame_complete(&data, &ctx));
    let f = r.process_frame(&data, &ctx).unwrap();
    assert_eq!(f.range, RangeId::A);
    assert_eq!(f.spokes.len(), 2);
    assert_eq!(f.spokes[0].angle, 0x0201);
    assert_eq!(f.spokes[0].heading, Some(0x0403));
    assert_eq!(f.spokes[0].range, 1852);
    assert_eq!(f.spokes[0].data.len(), 1024);
    assert_eq!(r.prev_spoke_a, vec![80, 80, 80, 80]);
    assert!(r.prev_spoke_b.is_empty());

    // Range B has its own unit and its own sweep before.
    let data = frame(3, true, &[[1, 2, 3, 4, 18, 0, 0, 0]]);
    let f = r.process_frame(&data, &ctx).unwrap();
    assert_eq!(f.range, RangeId::B);
    assert_eq!(f.spokes[0].range, 1000);
    assert_eq!(r.prev_spoke_b, vec![0, 0, 0, 0]);
    assert_eq!(r.prev_spoke_a, vec![80, 80, 80, 80]);

    assert!(r.process_frame(&[0x03; 20], &ctx).is_none());
    assert!(r.process_frame(&[0x02; 15], &ctx).is_none());
}

#[test]
fn models_have_ranges_and_capabilities() {
    for model in MODELS {
        let ranges = get_ranges_by_model(&model);
        assert!(!ranges.is_empty());
        for meters in ranges {
            let unit = wire_unit_for_meters(meters);
            let index = meters_to_wire_index_for_unit(meters, unit);
            assert_eq!(wire_index_to_meters_for_unit(index, unit), Some(meters));
        }
        let _ = capabilities(&model);
    }
    assert!(is_serial_cuttable("123456"));
    let setup = update_when_model_known(RadarModel::DRS4DNXT, "01.07", true, Some("123456"), false);
    assert_eq!(setup.model_name, "DRS4DNXT");
    assert_eq!(setup.user_name.as_deref(), Some("DRS4DNXT 3456"));
    assert_eq!(setup.firmware_version, "01.07");
    assert!(setup.dual_range);
    // A flag that was set stays set, whatever the model.
    for (had, has) in [(false, false), (true, true)] {
        let setup = update_when_model_known(RadarModel::DRS, "", false, None, had);
        assert_eq!(setup.dual_range, has);
        assert_eq!(setup.user_name, None);
    }
}

#[test]
fn beacons_are_recognised() {
    let mut beacon = vec![0u8; 32];
    beacon[..11].copy_from_slice(&BEACON_REPORT_HEADER);
    beacon[11] = 24;
    beacon[16..22].copy_from_slice(b"RD003R");
    assert!(matches!(
        process_locator_report(&beacon),
        LocatorOutcome::Beacon(Some(name)) if name == "RD003R"
    ));
    beacon[11] = 25;
    assert!(matches!(process_locator_report(&beacon), LocatorOutcome::LengthMismatch));
    beacon[16] = 0;
    assert!(matches!(process_locator_report(&beacon), LocatorOutcome::Nothing));

    let mut model = vec![0u8; 170];
    model[24..33].copy_from_slice(b"DRS4D-NXT");
    model[120..126].copy_from_slice(b"006424");
    match process_locator_report(&model) {
        LocatorOutcome::Found(f) => {
            assert_eq!(f.model_name, "DRS4D-NXT");
            assert_eq!(f.serial_no.as_deref(), Some("006424"));
            assert!(f.dual_range);
            assert_eq!(f.user_name, "DRS4D-NXT 006424");
            assert_eq!(f.user_name_b.as_deref(), Some("DRS4D-NXT 006424 B"));
        }
        _ => panic!("no radar"),
    }
    assert!(matches!(process_locator_report(&[0; 3]), LocatorOutcome::Nothing));
    assert_eq!(login_port(&LOGIN_EXPECTED_HEADER, &[0, 100, 0, 0]), Some(BASE_PORT + 100));
    assert_eq!(login_port(&[0; 8], &[0, 100, 0, 0]), None);
}

#[test]
fn connection_takes_its_course() {
    let both = ReceiveAddressType::Both;
    assert!(both.want_multicast() && both.want_broadcast());
    assert!(!ReceiveAddressType::Broadcast.want_multicast());
    assert!(Session::start(both, false, false, true, false).is_none());
    let mut s = Session::start(both, true, true, true, false).unwrap();

    assert_eq!(s.next(Event::Deadline), Action::RequestReports);
    assert_eq!(s.next(Event::Line(2)), Action::Nothing);
    assert_eq!(s.next(Event::Line(3)), Action::TakeReport);
    assert_eq!(s.next(Event::Report(false)), Action::Nothing);
    assert_eq!(s.next(Event::Report(true)), Action::Init);
    assert_eq!(s.next(Event::Report(true)), Action::Nothing);
    assert_eq!(s.next(Event::Control(RangeId::A)), Action::SendControl(0));
    assert_eq!(s.next(Event::Control(RangeId::B)), Action::Nothing);

    assert_eq!(s.next(Event::Data(DataSocket::Broadcast, false)), Action::Nothing);
    assert!(s.multicast_open);
    assert_eq!(s.next(Event::Data(DataSocket::Broadcast, true)), Action::TakeFrame);
    assert!(!s.multicast_open);
    assert_eq!(s.receive_type, ReceiveAddressType::Broadcast);
    assert_eq!(s.next(Event::Data(DataSocket::Multicast, true)), Action::Nothing);
    assert_eq!(s.next(Event::Failure), Action::Reconnect);
    assert_eq!(s.next(Event::Shutdown), Action::Leave);

    let mut replay = Session::start(both, true, false, false, true).unwrap();
    assert_eq!(replay.next(Event::Deadline), Action::Nothing);
    assert_eq!(replay.next(Event::Report(true)), Action::Nothing);
    assert_eq!(replay.next(Event::Control(RangeId::B)), Action::SendControl(1));
}
