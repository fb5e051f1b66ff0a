//! What a Furuno radar can do, by model.

use vstd::prelude::*;
use vstd::string::*;
use vstd::utf8::*;

use super::protocol;
use super::protocol::{RadarModel, WIRE_INDEX_TABLE, WIRE_INDEX_TABLE_KM};
use crate::control;
use crate::control::{
    define, new_auto, new_list, new_numeric, new_string, wire_units, Bounds, Choices, Definition,
    Kind, Unit,
};
use crate::radar::ControlId;
use crate::range;
use crate::range::Ranges;

verus! {

/// The abilities of a model.
#[derive(Clone, Copy, Debug, PartialEq, Eq, Structural)]
pub struct Capabilities {
    pub auto_gain: bool,
    pub auto_sea: bool,
    pub auto_rain: bool,
    pub dual_range: bool,
    pub scan_speed: bool,
    pub sector_blanking: bool,
    pub main_bang_suppression: bool,
    pub rez_boost: bool,
    pub bird_mode: bool,
    /// Marks moving targets.
    pub target_analyzer: bool,
    pub target_analyzer_rain: bool,
    pub noise_rejection: bool,
    /// Number of levels, 0 where there is no interference rejection.
    pub interference_rejection_levels: u8,
    pub tune: bool,
    pub antenna_height: bool,
    pub watchman: bool,
    pub pulse_width: bool,
}

/// Whether a model is one of the older commercial radars.
pub open spec fn basic_far(model: RadarModel) -> bool {
    model == RadarModel::FAR21x7 || model == RadarModel::FAR14x7 || model == RadarModel::FAR14x6
}

/// Whether a model is one of the newer commercial radars.
pub open spec fn newer_far(model: RadarModel) -> bool {
    model == RadarModel::FAR15x3 || model == RadarModel::FAR3000
}

/// The abilities of a model.
pub open spec fn abilities(model: RadarModel) -> Capabilities {
    let far = basic_far(model) || newer_far(model);
    Capabilities {
        auto_gain: !far && model != RadarModel::DRS4DL,
        auto_sea: !basic_far(model),
        auto_rain: !basic_far(model),
        dual_range: model.nxt(),
        scan_speed: model.nxt(),
        sector_blanking: model.nxt(),
        main_bang_suppression: model.nxt(),
        rez_boost: model.nxt(),
        bird_mode: model.nxt() || model == RadarModel::DRS6AXCLASS,
        target_analyzer: model.nxt(),
        target_analyzer_rain: model.nxt(),
        noise_rejection: model.nxt() || newer_far(model),
        interference_rejection_levels: if far {
            4
        } else if model.nxt() || model == RadarModel::DRS4DL {
            2
        } else {
            0
        },
        tune: true,
        antenna_height: model.nxt(),
        watchman: model.nxt(),
        pulse_width: far || model == RadarModel::DRS4DL || model == RadarModel::DRS6AXCLASS,
    }
}

/// The abilities of a model.
pub fn capabilities(model: &RadarModel) -> (r: Capabilities)
    ensures
        r == abilities(*model),
{
    match model {
        RadarModel::DRS4DNXT
        | RadarModel::DRS6ANXT
        | RadarModel::DRS12ANXT
        | RadarModel::DRS25ANXT => Capabilities {
            auto_gain: true,
            auto_sea: true,
            auto_rain: true,
            dual_range: true,
            scan_speed: true,
            sector_blanking: true,
            main_bang_suppression: true,
            rez_boost: true,
            bird_mode: true,
            target_analyzer: true,
            target_analyzer_rain: true,
            noise_rejection: true,
            interference_rejection_levels: 2,
            tune: true,
            antenna_height: true,
            watchman: true,
            pulse_width: false,
        },
        RadarModel::DRS6AXCLASS => Capabilities {
            auto_gain: true,
            auto_sea: true,
            auto_rain: true,
            dual_range: false,
            scan_speed: false,
            sector_blanking: false,
            main_bang_suppression: false,
            rez_boost: false,
            bird_mode: true,
            target_analyzer: false,
            target_analyzer_rain: false,
            noise_rejection: false,
            interference_rejection_levels: 0,
            tune: true,
            antenna_height: false,
            watchman: false,
            pulse_width: true,
        },
        RadarModel::DRS4DL => Capabilities {
            auto_gain: false,
            auto_sea: true,
            auto_rain: true,
            dual_range: false,
            scan_speed: false,
            sector_blanking: false,
            main_bang_suppression: false,
            rez_boost: false,
            bird_mode: false,
            target_analyzer: false,
            target_analyzer_rain: false,
            noise_rejection: false,
            interference_rejection_levels: 2,
            tune: true,
            antenna_height: false,
            watchman: false,
            pulse_width: true,
        },
        RadarModel::DRS | RadarModel::DRS4W => Capabilities {
            auto_gain: true,
            auto_sea: true,
            auto_rain: true,
            dual_range: false,
            scan_speed: false,
            sector_blanking: false,
            main_bang_suppression: false,
            rez_boost: false,
            bird_mode: false,
            target_analyzer: false,
            target_analyzer_rain: false,
            noise_rejection: false,
            interference_rejection_levels: 0,
            tune: true,
            antenna_height: false,
            watchman: false,
            pulse_width: false,
        },
        RadarModel::FAR21x7 | RadarModel::FAR14x7 | RadarModel::FAR14x6 => Capabilities {
            auto_gain: false,
            auto_sea: false,
            auto_rain: false,
            dual_range: false,
            scan_speed: false,
            sector_blanking: false,
            main_bang_suppression: false,
            rez_boost: false,
            bird_mode: false,
            target_analyzer: false,
            target_analyzer_rain: false,
            noise_rejection: false,
            interference_rejection_levels: 4,
            tune: true,
            antenna_height: false,
            watchman: false,
            pulse_width: true,
        },
        RadarModel::FAR15x3 | RadarModel::FAR3000 => Capabilities {
            auto_gain: false,
            auto_sea: true,
            auto_rain: true,
            dual_range: false,
            scan_speed: false,
            sector_blanking: false,
            main_bang_suppression: false,
            rez_boost: false,
            bird_mode: false,
            target_analyzer: false,
            target_analyzer_rain: false,
            noise_rejection: true,
            interference_rejection_levels: 4,
            tune: true,
            antenna_height: false,
            watchman: false,
            pulse_width: true,
        },
        RadarModel::Unknown => Capabilities {
            auto_gain: true,
            auto_sea: true,
            auto_rain: true,
            dual_range: false,
            scan_speed: false,
            sector_blanking: false,
            main_bang_suppression: false,
            rez_boost: false,
            bird_mode: false,
            target_analyzer: false,
            target_analyzer_rain: false,
            noise_rejection: false,
            interference_rejection_levels: 0,
            tune: true,
            antenna_height: false,
            watchman: false,
            pulse_width: false,
        },
    }
}

/// Nautical ranges of the DRS-NXT series.
pub const RANGE_TABLE_DRS_NXT: [i32; 18] = [
    116, 231, 463, 926, 1389, 1852, 2778, 3704, 5556, 7408, 11112, 14816, 22224, 29632, 44448,
    59264, 66672, 88896,
];

/// Nautical ranges of the DRS12A-NXT and DRS25A-NXT.
pub const RANGE_TABLE_DRS_NXT_EXTENDED: [i32; 21] = [
    116, 231, 463, 926, 1389, 1852, 2778, 3704, 5556, 7408, 11112, 14816, 22224, 29632, 44448,
    59264, 66672, 88896, 118528, 133344, 177792,
];

/// Metric ranges of the DRS-NXT series.
pub const RANGE_TABLE_DRS_NXT_KM: [i32; 18] = [
    125, 250, 500, 750, 1000, 1500, 2000, 3000, 4000, 6000, 8000, 12000, 16000, 24000, 32000,
    36000, 48000, 64000,
];

/// Metric ranges of the DRS12A-NXT and DRS25A-NXT.
pub const RANGE_TABLE_DRS_NXT_EXTENDED_KM: [i32; 20] = [
    125, 250, 500, 750, 1000, 1500, 2000, 3000, 4000, 6000, 8000, 12000, 16000, 24000, 32000,
    36000, 48000, 64000, 72000, 96000,
];

/// Metric ranges of the standard DRS series.
pub const RANGE_TABLE_DRS_KM: [i32; 20] = [
    125, 250, 500, 750, 1000, 1500, 2000, 3000, 4000, 6000, 8000, 12000, 16000, 24000, 32000,
    36000, 48000, 64000, 72000, 96000,
];

/// Metric ranges of the FAR series.
pub const RANGE_TABLE_FAR_KM: [i32; 17] = [
    125, 250, 500, 750, 1000, 1500, 2000, 3000, 4000, 6000, 8000, 12000, 16000, 24000, 32000,
    48000, 96000,
];

/// Nautical ranges of the DRS4W.
pub const RANGE_TABLE_DRS4W: [i32; 11] = [
    1389, 1852, 2778, 3704, 5556, 7408, 11112, 14816, 22224, 29632, 44448,
];

/// Metric ranges of the DRS4W.
pub const RANGE_TABLE_DRS4W_KM: [i32; 11] = [
    750, 1000, 1500, 2000, 3000, 4000, 6000, 8000, 12000, 16000, 24000,
];

/// Nautical ranges of the standard DRS series.
pub const RANGE_TABLE_DRS: [i32; 17] = [
    116, 231, 463, 926, 1389, 1852, 2778, 3704, 5556, 7408, 11112, 14816, 22224, 29632, 44448,
    59264, 66672,
];

/// Nautical ranges of the FAR series.
pub const RANGE_TABLE_FAR: [i32; 17] = [
    231, 463, 926, 1389, 1852, 2778, 3704, 5556, 7408, 11112, 14816, 22224, 29632, 44448,
    59264, 88896, 177792,
];

/// The nautical ranges of a model.
pub open spec fn nautical_ranges(model: RadarModel) -> Seq<i32> {
    match model {
        RadarModel::DRS12ANXT | RadarModel::DRS25ANXT => RANGE_TABLE_DRS_NXT_EXTENDED@,
        RadarModel::DRS4DNXT | RadarModel::DRS6ANXT => RANGE_TABLE_DRS_NXT@,
        RadarModel::DRS4W => RANGE_TABLE_DRS4W@,
        _ => if basic_far(model) || newer_far(model) {
            RANGE_TABLE_FAR@
        } else {
            RANGE_TABLE_DRS@
        },
    }
}

/// The metric ranges of a model.
pub open spec fn metric_ranges(model: RadarModel) -> Seq<i32> {
    match model {
        RadarModel::DRS12ANXT | RadarModel::DRS25ANXT => RANGE_TABLE_DRS_NXT_EXTENDED_KM@,
        RadarModel::DRS4DNXT | RadarModel::DRS6ANXT => RANGE_TABLE_DRS_NXT_KM@,
        RadarModel::DRS4W => RANGE_TABLE_DRS4W_KM@,
        _ => if basic_far(model) || newer_far(model) {
            RANGE_TABLE_FAR_KM@
        } else {
            RANGE_TABLE_DRS_KM@
        },
    }
}

fn joined(a: &[i32], b: &[i32]) -> (r: Vec<i32>)
    ensures
        r@ == a@ + b@,
{
    let mut r: Vec<i32> = Vec::new();
    r.extend_from_slice(a);
    r.extend_from_slice(b);
    assert(r@ =~= a@ + b@);
    r
}

/// The ranges of a model, nautical and metric.
pub fn get_ranges_by_model(model: &RadarModel) -> (r: Vec<i32>)
    ensures
        r@ == nautical_ranges(*model) + metric_ranges(*model),
{
    match model {
        RadarModel::DRS12ANXT | RadarModel::DRS25ANXT => joined(
            &RANGE_TABLE_DRS_NXT_EXTENDED,
            &RANGE_TABLE_DRS_NXT_EXTENDED_KM,
        ),
        RadarModel::DRS4DNXT | RadarModel::DRS6ANXT => joined(
            &RANGE_TABLE_DRS_NXT,
            &RANGE_TABLE_DRS_NXT_KM,
        ),
        RadarModel::FAR21x7
        | RadarModel::FAR3000
        | RadarModel::FAR15x3
        | RadarModel::FAR14x6
        | RadarModel::FAR14x7 => joined(&RANGE_TABLE_FAR, &RANGE_TABLE_FAR_KM),
        RadarModel::DRS4W => joined(&RANGE_TABLE_DRS4W, &RANGE_TABLE_DRS4W_KM),
        RadarModel::Unknown
        | RadarModel::DRS
        | RadarModel::DRS4DL
        | RadarModel::DRS6AXCLASS => joined(&RANGE_TABLE_DRS, &RANGE_TABLE_DRS_KM),
    }
}

/// A change to the set of controls.
#[derive(Clone, Copy, Debug, PartialEq, Eq, Structural)]
pub enum DefinitionChange {
    /// Replace the definition of a control; its value stays.
    Redefine(Definition),
    /// Add a control.
    Add(Definition),
}

/// What follows from knowing the model.
pub struct ModelSetup {
    pub model_name: &'static str,
    /// A new user name, where the user has not chosen one.
    pub user_name: Option<String>,
    pub ranges: Ranges,
    pub changes: Vec<DefinitionChange>,
    /// Value of the firmware version control.
    pub firmware_version: String,
    pub dual_range: bool,
}

/// The controls that every Furuno radar has from the start.
pub open spec fn first_definitions() -> Seq<Definition> {
    let time = |id: ControlId|
        Definition {
            read_only: true,
            unit: Unit::Seconds,
            ..control::number(id, 0, 999999999)
        };
    seq![
        control::text(ControlId::UserName),
        control::number(ControlId::Gain, 0, 100),
        control::number(ControlId::Sea, 0, 100),
        control::number(ControlId::Rain, 0, 100),
        time(ControlId::OperatingTime),
        time(ControlId::TransmitTime),
        control::text(ControlId::SerialNumber),
        control::list(ControlId::RangeUnits, Choices::NauticalMetric),
    ]
}

/// The controls that every Furuno radar has from the start. More are added when
/// the model is known.
pub fn new() -> (r: Vec<Definition>)
    ensures
        r@ == first_definitions(),
{
    let mut operating = new_numeric(ControlId::OperatingTime, 0, 999999999);
    operating.read_only = true;
    operating.unit = Unit::Seconds;
    let mut transmit = new_numeric(ControlId::TransmitTime, 0, 999999999);
    transmit.read_only = true;
    transmit.unit = Unit::Seconds;
    let r: Vec<Definition> = vec![
        new_string(ControlId::UserName),
        new_numeric(ControlId::Gain, 0, 100),
        new_numeric(ControlId::Sea, 0, 100),
        new_numeric(ControlId::Rain, 0, 100),
        operating,
        transmit,
        new_string(ControlId::SerialNumber),
        new_list(ControlId::RangeUnits, Choices::NauticalMetric),
    ];
    assert(r@ =~= first_definitions());
    r
}

/// A control that the model may leave to the radar.
pub open spec fn level(id: ControlId, auto: bool) -> DefinitionChange {
    DefinitionChange::Redefine(
        if auto { control::auto_number(id, 0, 100) } else { control::number(id, 0, 100) },
    )
}

/// A no-transmit sector.
pub open spec fn blanked(id: ControlId) -> DefinitionChange {
    DefinitionChange::Add(
        Definition {
            offset: -1i64,
            unit: Unit::Degrees,
            has_enabled: true,
            ..control::plain(id, Kind::Sector(control::whole(-180, 180)))
        },
    )
}

/// The list `s`, followed by `more` if `condition` holds.
#[verifier::opaque]
pub open spec fn and_if(
    s: Seq<DefinitionChange>,
    condition: bool,
    more: Seq<DefinitionChange>,
) -> Seq<DefinitionChange> {
    if condition { s + more } else { s }
}

/// Add a control.
pub open spec fn added(d: Definition) -> DefinitionChange {
    DefinitionChange::Add(d)
}

/// The changes to the set of controls that follow from the abilities of a
/// model.
pub open spec fn control_changes(cap: Capabilities) -> Seq<DefinitionChange> {
    let s = seq![
        level(ControlId::Gain, cap.auto_gain),
        level(ControlId::Sea, cap.auto_sea),
        level(ControlId::Rain, cap.auto_rain),
        added(control::text(ControlId::FirmwareVersion)),
    ];
    let s = and_if(
        s,
        cap.pulse_width,
        seq![added(control::text(ControlId::PulseWidth))],
    );
    let s = and_if(
        s,
        cap.tune,
        seq![added(control::auto_number(ControlId::Tune, 0, 2000))],
    );
    let s = and_if(
        s,
        cap.sector_blanking,
        seq![blanked(ControlId::NoTransmitSector1), blanked(ControlId::NoTransmitSector2)],
    );
    let s = and_if(
        s,
        cap.scan_speed,
        seq![added(control::list(ControlId::ScanSpeed, Choices::NormalFastAuto))],
    );
    let s = and_if(
        s,
        cap.main_bang_suppression,
        seq![added(control::number(ControlId::MainBangSuppression, 0, 100))],
    );
    let s = and_if(
        s,
        cap.antenna_height,
        seq![
            added(
                control::in_unit(control::number(ControlId::AntennaHeight, 0, 30), Unit::Meters),
            ),
        ],
    );
    let s = and_if(
        s,
        cap.interference_rejection_levels == 2,
        seq![added(control::list(ControlId::InterferenceRejection, Choices::OffOn))],
    );
    let s = and_if(
        s,
        cap.interference_rejection_levels == 4,
        seq![added(control::list(ControlId::InterferenceRejection, Choices::OffLowMediumHigh))],
    );
    let s = and_if(
        s,
        cap.noise_rejection,
        seq![added(control::list(ControlId::NoiseRejection, Choices::OffOn))],
    );
    let s = and_if(
        s,
        cap.rez_boost,
        seq![added(control::list(ControlId::TargetSeparation, Choices::OffLowMediumHigh))],
    );
    let s = and_if(
        s,
        cap.bird_mode,
        seq![added(control::list(ControlId::BirdMode, Choices::OffLowMediumHigh))],
    );
    let s = and_if(
        s,
        cap.target_analyzer,
        seq![
            added(
                control::list(
                    ControlId::Doppler,
                    if cap.target_analyzer_rain {
                        Choices::OffTargetRain
                    } else {
                        Choices::OffTarget
                    },
                ),
            ),
        ],
    );
    and_if(
        s,
        cap.watchman,
        seq![
            added(control::list(ControlId::TimedIdle, Choices::OffOn)),
            added(
                control::in_unit(control::number(ControlId::TimedRun, 10, 120), Unit::Seconds),
            ),
        ],
    )
}

fn push_level(out: &mut Vec<DefinitionChange>, id: ControlId, auto: bool)
    ensures
        final(out)@ == old(out)@.push(level(id, auto)),
{
    if auto {
        out.push(DefinitionChange::Redefine(new_auto(id, 0, 100)));
    } else {
        out.push(DefinitionChange::Redefine(new_numeric(id, 0, 100)));
    }
}

fn push_if(out: &mut Vec<DefinitionChange>, condition: bool, d: Definition)
    ensures
        final(out)@ == and_if(old(out)@, condition, seq![added(d)]),
{
    reveal(and_if);
    if condition {
        out.push(DefinitionChange::Add(d));
    }
    assert(out@ =~= and_if(old(out)@, condition, seq![added(d)]));
}

fn push_both_if(out: &mut Vec<DefinitionChange>, condition: bool, a: Definition, b: Definition)
    ensures
        final(out)@ == and_if(old(out)@, condition, seq![added(a), added(b)]),
{
    reveal(and_if);
    if condition {
        out.push(DefinitionChange::Add(a));
        out.push(DefinitionChange::Add(b));
    }
    assert(out@ =~= and_if(old(out)@, condition, seq![added(a), added(b)]));
}

fn new_sector(id: ControlId) -> (r: Definition)
    ensures
        added(r) == blanked(id),
{
    let mut d = define(id, Kind::Sector(Bounds::Milli { min: -180000, max: 180000 }));
    d.offset = -1;
    d.unit = Unit::Degrees;
    d.has_enabled = true;
    d
}

#[verifier::spinoff_prover]
#[verifier::rlimit(30)]
fn changes_for(cap: &Capabilities) -> (r: Vec<DefinitionChange>)
    ensures
        r@ == control_changes(*cap),
{
    let mut out: Vec<DefinitionChange> = Vec::new();
    push_level(&mut out, ControlId::Gain, cap.auto_gain);
    push_level(&mut out, ControlId::Sea, cap.auto_sea);
    push_level(&mut out, ControlId::Rain, cap.auto_rain);
    out.push(DefinitionChange::Add(new_string(ControlId::FirmwareVersion)));
    assert(out@ =~= seq![
        level(ControlId::Gain, cap.auto_gain),
        level(ControlId::Sea, cap.auto_sea),
        level(ControlId::Rain, cap.auto_rain),
        added(control::text(ControlId::FirmwareVersion)),
    ]);
    push_if(&mut out, cap.pulse_width, new_string(ControlId::PulseWidth));
    push_if(&mut out, cap.tune, new_auto(ControlId::Tune, 0, 2000));
    push_both_if(
        &mut out,
        cap.sector_blanking,
        new_sector(ControlId::NoTransmitSector1),
        new_sector(ControlId::NoTransmitSector2),
    );
    push_if(&mut out, cap.scan_speed, new_list(ControlId::ScanSpeed, Choices::NormalFastAuto));
    push_if(
        &mut out,
        cap.main_bang_suppression,
        new_numeric(ControlId::MainBangSuppression, 0, 100),
    );
    push_if(
        &mut out,
        cap.antenna_height,
        wire_units(new_numeric(ControlId::AntennaHeight, 0, 30), Unit::Meters),
    );
    push_if(
        &mut out,
        cap.interference_rejection_levels == 2,
        new_list(ControlId::InterferenceRejection, Choices::OffOn),
    );
    push_if(
        &mut out,
        cap.interference_rejection_levels == 4,
        new_list(ControlId::InterferenceRejection, Choices::OffLowMediumHigh),
    );
    push_if(
        &mut out,
        cap.noise_rejection,
        new_list(ControlId::NoiseRejection, Choices::OffOn),
    );
    push_if(
        &mut out,
        cap.rez_boost,
        new_list(ControlId::TargetSeparation, Choices::OffLowMediumHigh),
    );
    push_if(
        &mut out,
        cap.bird_mode,
        new_list(ControlId::BirdMode, Choices::OffLowMediumHigh),
    );
    let doppler = if cap.target_analyzer_rain {
        Choices::OffTargetRain
    } else {
        Choices::OffTarget
    };
    push_if(&mut out, cap.target_analyzer, new_list(ControlId::Doppler, doppler));
    push_both_if(
        &mut out,
        cap.watchman,
        new_list(ControlId::TimedIdle, Choices::OffOn),
        wire_units(new_numeric(ControlId::TimedRun, 10, 120), Unit::Seconds),
    );
    out
}

/// Where the last four bytes of a text begin.
pub open spec fn tail_start(serial: Seq<char>) -> int {
    let n = encode_utf8(serial).len();
    if n < 4 { 0 } else { n - 4 }
}

/// The last four bytes of a text.
pub open spec fn tail_text(serial: Seq<char>) -> Seq<char> {
    decode_utf8(encode_utf8(serial).skip(tail_start(serial)))
}

/// The user name that a radar gets when the user has not chosen one: the model
/// and the end of the serial number.
pub open spec fn default_user_name(model: RadarModel, serial: Option<Seq<char>>) -> Seq<char> {
    match serial {
        Some(s) => model.label() + seq![' '] + tail_text(s),
        None => model.label(),
    }
}

/// Whether the last four bytes of a serial number begin with a character.
pub fn is_serial_cuttable(serial_no: &str) -> (r: bool)
    ensures
        r == is_char_boundary(encode_utf8(serial_no@), tail_start(serial_no@)),
{
    let n: usize = serial_no.as_bytes().len();
    if n < 4 {
        serial_no.is_char_boundary(0)
    } else {
        serial_no.is_char_boundary(n - 4)
    }
}

fn serial_tail(serial_no: &str) -> (r: &str)
    requires
        is_char_boundary(encode_utf8(serial_no@), tail_start(serial_no@)),
    ensures
        r@ == tail_text(serial_no@),
{
    let n: usize = serial_no.as_bytes().len();
    let at: usize = if n < 4 {
        0
    } else {
        n - 4
    };
    let (_, tail) = serial_no.split_at(at);
    proof {
        assert(encode_utf8(serial_no@).skip(at as int) =~= encode_utf8(serial_no@).subrange(
            at as int,
            encode_utf8(serial_no@).len() as int,
        ));
        encode_utf8_decode_utf8(tail@);
    }
    tail
}

/// What follows from knowing the model: names, ranges and controls.
/// `user_name_is_key` tells that the user has not chosen a name, and `had_dual_range`
/// that the radar was known to have two ranges before, which stays known.
pub fn update_when_model_known(
    model: RadarModel,
    version: &str,
    user_name_is_key: bool,
    serial_no: Option<&str>,
    had_dual_range: bool,
) -> (r: ModelSetup)
    requires
        serial_no matches Some(s) ==> is_char_boundary(encode_utf8(s@), tail_start(s@)),
    ensures
        r.model_name@ == model.label(),
        r.user_name is Some <==> user_name_is_key,
        r.user_name matches Some(n) ==> n@ == default_user_name(
            model,
            match serial_no {
                Some(s) => Some(s@),
                None => None,
            },
        ),
        range::sorted_from(r.ranges@, nautical_ranges(model) + metric_ranges(model)),
        r.changes@ == control_changes(abilities(model)),
        r.firmware_version@ == version@,
        r.dual_range == (had_dual_range || abilities(model).dual_range),
{
    let model_name = model.name();
    let user_name = if user_name_is_key {
        let mut name = String::from_str(model_name);
        match serial_no {
            Some(s) => {
                name.push(' ');
                name.append(serial_tail(s));
                assert(name@ =~= default_user_name(model, Some(s@)));
            },
            None => {},
        }
        Some(name)
    } else {
        None
    };
    let cap = capabilities(&model);
    ModelSetup {
        model_name,
        user_name,
        ranges: Ranges::new_by_distance(get_ranges_by_model(&model).as_slice()),
        changes: changes_for(&cap),
        firmware_version: String::from_str(version),
        dual_range: had_dual_range || cap.dual_range,
    }
}

proof fn lemma_listed(table: Seq<i32>, slots: Seq<(i32, i32)>, shift: int, n: int)
    requires
        0 <= shift,
        0 <= n <= table.len(),
        n + shift <= slots.len(),
        forall|i: int| 0 <= i < n ==> #[trigger] table[i] == slots[i + shift].1,
    ensures
        forall|i: int| 0 <= i < n ==> protocol::has_distance(slots, #[trigger] table[i]),
{
    assert forall|i: int| 0 <= i < n implies protocol::has_distance(
        slots,
        #[trigger] table[i],
    ) by {
        assert(slots[i + shift].1 == table[i]);
    }
}

/// Every range of a model can be set exactly: its nautical ranges are distances
/// of nautical slots and its metric ranges of metric slots.
pub proof fn law_ranges_are_slots(model: RadarModel)
    ensures
        forall|i: int|
            0 <= i < nautical_ranges(model).len() ==> protocol::has_distance(
                WIRE_INDEX_TABLE@,
                #[trigger] nautical_ranges(model)[i],
            ),
        forall|i: int|
            0 <= i < metric_ranges(model).len() ==> protocol::has_distance(
                WIRE_INDEX_TABLE_KM@,
                #[trigger] metric_ranges(model)[i],
            ),
{
    lemma_listed(RANGE_TABLE_DRS_NXT_EXTENDED@, WIRE_INDEX_TABLE@, 0, 21);
    lemma_listed(RANGE_TABLE_DRS_NXT@, WIRE_INDEX_TABLE@, 0, 18);
    lemma_listed(RANGE_TABLE_DRS@, WIRE_INDEX_TABLE@, 0, 17);
    lemma_listed(RANGE_TABLE_DRS4W@, WIRE_INDEX_TABLE@, 4, 11);
    lemma_listed(RANGE_TABLE_FAR@, WIRE_INDEX_TABLE@, 1, 15);
    assert(WIRE_INDEX_TABLE@[17].1 == RANGE_TABLE_FAR@[15]);
    assert(WIRE_INDEX_TABLE@[20].1 == RANGE_TABLE_FAR@[16]);
    lemma_listed(RANGE_TABLE_DRS_NXT_EXTENDED_KM@, WIRE_INDEX_TABLE_KM@, 0, 20);
    lemma_listed(RANGE_TABLE_DRS_NXT_KM@, WIRE_INDEX_TABLE_KM@, 0, 18);
    lemma_listed(RANGE_TABLE_DRS_KM@, WIRE_INDEX_TABLE_KM@, 0, 20);
    lemma_listed(RANGE_TABLE_DRS4W_KM@, WIRE_INDEX_TABLE_KM@, 3, 11);
    lemma_listed(RANGE_TABLE_FAR_KM@, WIRE_INDEX_TABLE_KM@, 0, 15);
    assert(WIRE_INDEX_TABLE_KM@[16].1 == RANGE_TABLE_FAR_KM@[15]);
    assert(WIRE_INDEX_TABLE_KM@[19].1 == RANGE_TABLE_FAR_KM@[16]);
}

/// Whether changes add a control.
pub open spec fn adds(changes: Seq<DefinitionChange>, id: ControlId) -> bool {
    exists|i: int|
        0 <= i < changes.len() && (#[trigger] changes[i] matches DefinitionChange::Add(d) && d.id
            == id)
}

proof fn lemma_adds(s: Seq<DefinitionChange>, condition: bool, more: Seq<DefinitionChange>)
    ensures
        forall|id: ControlId| #[trigger]
            adds(and_if(s, condition, more), id) == (adds(s, id) || condition && adds(more, id)),
{
    reveal(and_if);
    let r = and_if(s, condition, more);
    assert forall|id: ControlId| #[trigger] adds(r, id) == (adds(s, id) || condition && adds(
        more,
        id,
    )) by {
        if adds(s, id) {
            let i = choose|i: int|
                0 <= i < s.len() && (#[trigger] s[i] matches DefinitionChange::Add(d) && d.id == id);
            assert(r[i] == s[i]);
        }
        if condition && adds(more, id) {
            let i = choose|i: int|
                0 <= i < more.len() && (#[trigger] more[i] matches DefinitionChange::Add(d) && d.id
                    == id);
            assert(r[s.len() + i] == more[i]);
        }
        if adds(r, id) {
            let i = choose|i: int|
                0 <= i < r.len() && (#[trigger] r[i] matches DefinitionChange::Add(d) && d.id == id);
            if i < s.len() {
                assert(s[i] == r[i]);
            } else {
                assert(more[i - s.len()] == r[i]);
            }
        }
    }
}

proof fn lemma_adds_one(more: Seq<DefinitionChange>, d: Definition)
    requires
        more == seq![added(d)],
    ensures
        forall|id: ControlId| #[trigger] adds(more, id) == (d.id == id),
{
    assert(more[0] == DefinitionChange::Add(d));
}

proof fn lemma_adds_two(more: Seq<DefinitionChange>, a: DefinitionChange, b: DefinitionChange)
    requires
        a is Add,
        b is Add,
        more == seq![a, b],
    ensures
        forall|id: ControlId| #[trigger]
            adds(more, id) == (a->Add_0.id == id || b->Add_0.id == id),
{
    assert(more[0] == a && more[1] == b);
}

/// Whether a model with these abilities has a control that radars do not have from the
/// start.
pub open spec fn has_control(cap: Capabilities, id: ControlId) -> bool {
    match id {
        ControlId::FirmwareVersion => true,
        ControlId::PulseWidth => cap.pulse_width,
        ControlId::Tune => cap.tune,
        ControlId::NoTransmitSector1 | ControlId::NoTransmitSector2 => cap.sector_blanking,
        ControlId::ScanSpeed => cap.scan_speed,
        ControlId::MainBangSuppression => cap.main_bang_suppression,
        ControlId::AntennaHeight => cap.antenna_height,
        ControlId::InterferenceRejection => cap.interference_rejection_levels == 2
            || cap.interference_rejection_levels == 4,
        ControlId::NoiseRejection => cap.noise_rejection,
        ControlId::TargetSeparation => cap.rez_boost,
        ControlId::BirdMode => cap.bird_mode,
        ControlId::Doppler => cap.target_analyzer,
        ControlId::TimedIdle | ControlId::TimedRun => cap.watchman,
        _ => false,
    }
}

/// A model has a control where it has the ability.
#[verifier::rlimit(60)]
pub proof fn law_abilities_bring_controls(cap: Capabilities, id: ControlId)
    ensures
        adds(control_changes(cap), id) <==> has_control(cap, id),
{
    let s = seq![
        level(ControlId::Gain, cap.auto_gain),
        level(ControlId::Sea, cap.auto_sea),
        level(ControlId::Rain, cap.auto_rain),
        added(control::text(ControlId::FirmwareVersion)),
    ];
    assert(s[3] is Add);
    assert(forall|id: ControlId| #[trigger] adds(s, id) == (id == ControlId::FirmwareVersion));
    let more = seq![added(control::text(ControlId::PulseWidth))];
    lemma_adds(s, cap.pulse_width, more);
    lemma_adds_one(
        more,
        control::text(ControlId::PulseWidth),
    );
    let s = and_if(s, cap.pulse_width, more);
    let more = seq![added(control::auto_number(ControlId::Tune, 0, 2000))];
    lemma_adds(s, cap.tune, more);
    lemma_adds_one(
        more,
        control::auto_number(ControlId::Tune, 0, 2000),
    );
    let s = and_if(s, cap.tune, more);
    let more = seq![blanked(ControlId::NoTransmitSector1), blanked(ControlId::NoTransmitSector2)];
    lemma_adds(s, cap.sector_blanking, more);
    lemma_adds_two(
        more,
        blanked(ControlId::NoTransmitSector1),
        blanked(ControlId::NoTransmitSector2),
    );
    let s = and_if(s, cap.sector_blanking, more);
    let more = seq![added(control::list(ControlId::ScanSpeed, Choices::NormalFastAuto))];
    lemma_adds(s, cap.scan_speed, more);
    lemma_adds_one(
        more,
        control::list(ControlId::ScanSpeed, Choices::NormalFastAuto),
    );
    let s = and_if(s, cap.scan_speed, more);
    let more = seq![added(control::number(ControlId::MainBangSuppression, 0, 100))];
    lemma_adds(s, cap.main_bang_suppression, more);
    lemma_adds_one(
        more,
        control::number(ControlId::MainBangSuppression, 0, 100),
    );
    let s = and_if(s, cap.main_bang_suppression, more);
    let more = seq![
            added(
                control::in_unit(control::number(ControlId::AntennaHeight, 0, 30), Unit::Meters),
            ),
        ];
    lemma_adds(s, cap.antenna_height, more);
    lemma_adds_one(
        more,
        control::in_unit(control::number(ControlId::AntennaHeight, 0, 30), Unit::Meters),
    );
    let s = and_if(s, cap.antenna_height, more);
    let more = seq![added(control::list(ControlId::InterferenceRejection, Choices::OffOn))];
    lemma_adds(s, cap.interference_rejection_levels == 2, more);
    lemma_adds_one(
        more,
        control::list(ControlId::InterferenceRejection, Choices::OffOn),
    );
    let s = and_if(s, cap.interference_rejection_levels == 2, more);
    let more = seq![added(control::list(ControlId::InterferenceRejection, Choices::OffLowMediumHigh))];
    lemma_adds(s, cap.interference_rejection_levels == 4, more);
    lemma_adds_one(
        more,
        control::list(ControlId::InterferenceRejection, Choices::OffLowMediumHigh),
    );
    let s = and_if(s, cap.interference_rejection_levels == 4, more);
    let more = seq![added(control::list(ControlId::NoiseRejection, Choices::OffOn))];
    lemma_adds(s, cap.noise_rejection, more);
    lemma_adds_one(
        more,
        control::list(ControlId::NoiseRejection, Choices::OffOn),
    );
    let s = and_if(s, cap.noise_rejection, more);
    let more = seq![added(control::list(ControlId::TargetSeparation, Choices::OffLowMediumHigh))];
    lemma_adds(s, cap.rez_boost, more);
    lemma_adds_one(
        more,
        control::list(ControlId::TargetSeparation, Choices::OffLowMediumHigh),
    );
    let s = and_if(s, cap.rez_boost, more);
    let more = seq![added(control::list(ControlId::BirdMode, Choices::OffLowMediumHigh))];
    lemma_adds(s, cap.bird_mode, more);
    lemma_adds_one(
        more,
        control::list(ControlId::BirdMode, Choices::OffLowMediumHigh),
    );
    let s = and_if(s, cap.bird_mode, more);
    let more = seq![
            added(
                control::list(
                    ControlId::Doppler,
                    if cap.target_analyzer_rain {
                        Choices::OffTargetRain
                    } else {
                        Choices::OffTarget
                    },
                ),
            ),
        ];
    lemma_adds(s, cap.target_analyzer, more);
    lemma_adds_one(
        more,
        control::list(
                    ControlId::Doppler,
                    if cap.target_analyzer_rain {
                        Choices::OffTargetRain
                    } else {
                        Choices::OffTarget
                    },
                ),
    );
    let s = and_if(s, cap.target_analyzer, more);
    let more = seq![
            added(control::list(ControlId::TimedIdle, Choices::OffOn)),
            added(
                control::in_unit(control::number(ControlId::TimedRun, 10, 120), Unit::Seconds),
            ),
        ];
    lemma_adds(s, cap.watchman, more);
    lemma_adds_two(
        more,
        added(control::list(ControlId::TimedIdle, Choices::OffOn)),
        added(
                control::in_unit(control::number(ControlId::TimedRun, 10, 120), Unit::Seconds),
            ),
    );
    let s = and_if(s, cap.watchman, more);
}

/// The levels that every radar has can be left to it where the model has the ability.
pub proof fn law_abilities_make_automatic(cap: Capabilities)
    ensures
        ({
            let c = control_changes(cap);
            let is = |i: int, id: ControlId, auto: bool|
                c[i] matches DefinitionChange::Redefine(d) && d.id == id && (d.kind is AutoNumber
                    <==> auto) && (d.kind is Number <==> !auto);
            &&& c.len() >= 4
            &&& is(0, ControlId::Gain, cap.auto_gain)
            &&& is(1, ControlId::Sea, cap.auto_sea)
            &&& is(2, ControlId::Rain, cap.auto_rain)
        }),
{
    assert forall|s: Seq<DefinitionChange>, condition: bool, more: Seq<DefinitionChange>|
        s.len() >= 4 implies (#[trigger] and_if(s, condition, more)).len() >= 4 && and_if(
        s,
        condition,
        more,
    )[0] == s[0] && and_if(s, condition, more)[1] == s[1] && and_if(s, condition, more)[2]
        == s[2] by {
        reveal(and_if);
    }
}

/// What the families can do: the NXT radars what the older ones cannot, and the commercial
/// ones leave gain to nobody.
pub proof fn law_abilities_of_families(model: RadarModel)
    ensures
        ({
            let a = abilities(model);
            let nxt = model == RadarModel::DRS4DNXT || model == RadarModel::DRS6ANXT || model
                == RadarModel::DRS12ANXT || model == RadarModel::DRS25ANXT;
            let basic = model == RadarModel::FAR21x7 || model == RadarModel::FAR14x7 || model
                == RadarModel::FAR14x6;
            let newer = model == RadarModel::FAR15x3 || model == RadarModel::FAR3000;
            &&& a.dual_range == nxt && a.scan_speed == nxt && a.sector_blanking == nxt
            &&& a.main_bang_suppression == nxt && a.rez_boost == nxt && a.target_analyzer == nxt
            &&& a.target_analyzer_rain == nxt && a.antenna_height == nxt && a.watchman == nxt
            &&& a.bird_mode <==> nxt || model == RadarModel::DRS6AXCLASS
            &&& a.noise_rejection <==> nxt || newer
            &&& a.auto_sea == !basic && a.auto_rain == !basic
            &&& a.auto_gain <==> !basic && !newer && model != RadarModel::DRS4DL
            &&& basic || newer ==> a.interference_rejection_levels == 4 && a.pulse_width
            &&& nxt || model == RadarModel::DRS4DL ==> a.interference_rejection_levels == 2
            &&& nxt ==> !a.pulse_width
            &&& a.tune
        }),
{
}

/// A radar that is not named is called by its model and the last four characters of its
/// serial number.
pub proof fn law_serial_number_names(model: RadarModel, serial: Seq<char>)
    requires
        is_ascii_chars(serial),
        serial.len() >= 4,
    ensures
        default_user_name(model, Some(serial)) == model.label() + seq![' '] + serial.skip(
            serial.len() - 4,
        ),
        default_user_name(model, None) == model.label(),
{
    let tail = serial.skip(serial.len() - 4);
    is_ascii_chars_encode_utf8(serial);
    assert(is_ascii_chars(tail)) by {
        is_ascii_chars_nat_bound(serial);
        assert forall|i: int| 0 <= i < tail.len() implies '\0' <= #[trigger] tail[i] <= '\u{7f}' by {
            assert(tail[i] == serial[serial.len() - 4 + i]);
        }
    }
    is_ascii_chars_encode_utf8(tail);
    assert(encode_utf8(serial).skip(tail_start(serial)) =~= encode_utf8(tail));
    encode_utf8_decode_utf8(tail);
}

/// What each control that is added or defined anew can be set to.
pub open spec fn takes(c: DefinitionChange) -> bool {
    let whole = |min: int, max: int| Bounds::Milli {
        min: (1000 * min) as i64,
        max: (1000 * max) as i64,
    };
    let d = match c {
        DefinitionChange::Add(d) => d,
        DefinitionChange::Redefine(d) => d,
    };
    match d.id {
        ControlId::Gain | ControlId::Sea | ControlId::Rain => d.kind == Kind::AutoNumber(
            whole(0, 100),
        ) || d.kind == Kind::Number(whole(0, 100)),
        ControlId::Tune => d.kind == Kind::AutoNumber(whole(0, 2000)),
        ControlId::NoTransmitSector1 | ControlId::NoTransmitSector2 => d.kind == Kind::Sector(
            whole(-180, 180),
        ) && d.unit == Unit::Degrees && d.has_enabled && d.offset == -1,
        ControlId::ScanSpeed => d.kind == Kind::List(Choices::NormalFastAuto),
        ControlId::MainBangSuppression => d.kind == Kind::Number(whole(0, 100)),
        ControlId::AntennaHeight => d.kind == Kind::Number(whole(0, 30)) && d.unit == Unit::Meters,
        ControlId::InterferenceRejection => d.kind == Kind::List(Choices::OffOn) || d.kind
            == Kind::List(Choices::OffLowMediumHigh),
        ControlId::NoiseRejection | ControlId::TimedIdle => d.kind == Kind::List(Choices::OffOn),
        ControlId::TargetSeparation | ControlId::BirdMode => d.kind == Kind::List(
            Choices::OffLowMediumHigh,
        ),
        ControlId::TimedRun => d.kind == Kind::Number(whole(10, 120)) && d.unit == Unit::Seconds,
        _ => true,
    }
}

/// Whether all changes of a list lead to what they should.
pub open spec fn all_take(s: Seq<DefinitionChange>) -> bool {
    forall|i: int| 0 <= i < s.len() ==> takes(#[trigger] s[i])
}

/// Every control can be set to what it should, whatever the model can do.
#[verifier::rlimit(60)]
pub proof fn law_controls_take(cap: Capabilities)
    ensures
        all_take(control_changes(cap)),
{
    assert forall|s: Seq<DefinitionChange>, condition: bool, more: Seq<DefinitionChange>|
        all_take(s) && all_take(more) implies all_take(#[trigger] and_if(s, condition, more)) by {
        reveal(and_if);
        let r = and_if(s, condition, more);
        assert forall|i: int| 0 <= i < r.len() implies takes(#[trigger] r[i]) by {
            if i < s.len() {
                assert(r[i] == s[i]);
            } else {
                assert(r[i] == more[i - s.len()]);
            }
        }
    }
}

/// The ranges of the families: the commercial radars share one list, the NXT radars have two
/// by size, the wireless one has its own, and the others share the last.
pub proof fn law_ranges_of_families(model: RadarModel)
    ensures
        ({
            let large = model == RadarModel::DRS12ANXT || model == RadarModel::DRS25ANXT;
            let small = model == RadarModel::DRS4DNXT || model == RadarModel::DRS6ANXT;
            let far = model == RadarModel::FAR21x7 || model == RadarModel::FAR14x7 || model
                == RadarModel::FAR14x6 || model == RadarModel::FAR15x3 || model
                == RadarModel::FAR3000;
            let w = model == RadarModel::DRS4W;
            &&& large ==> nautical_ranges(model) == RANGE_TABLE_DRS_NXT_EXTENDED@
                && metric_ranges(model) == RANGE_TABLE_DRS_NXT_EXTENDED_KM@
            &&& small ==> nautical_ranges(model) == RANGE_TABLE_DRS_NXT@ && metric_ranges(model)
                == RANGE_TABLE_DRS_NXT_KM@
            &&& w ==> nautical_ranges(model) == RANGE_TABLE_DRS4W@ && metric_ranges(model)
                == RANGE_TABLE_DRS4W_KM@
            &&& far ==> nautical_ranges(model) == RANGE_TABLE_FAR@ && metric_ranges(model)
                == RANGE_TABLE_FAR_KM@
            &&& !large && !small && !w && !far ==> nautical_ranges(model) == RANGE_TABLE_DRS@
                && metric_ranges(model) == RANGE_TABLE_DRS_KM@
        }),
{
}

} // verus!
