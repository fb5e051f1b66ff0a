//! The controls and ranges of the emulated radar.

use vstd::prelude::*;

use crate::control;
use crate::control::{
    define, new_auto, new_list, new_numeric, new_string, read_only, wire_scale_factor, wire_units,
    Bounds, Choices, Definition, Kind, Scale, Unit,
};
use crate::radar::ControlId;
use crate::range;
use crate::range::Ranges;

verus! {

/// The distances that the radar can be set to, in meters.
pub const EMULATOR_RANGES: [i32; 40] = [
    50, 57, 75, 100, 115, 231, 250, 463, 500, 750, 926, 1000, 1389, 1500, 1852, 2000, 2778, 3000,
    3704, 4000, 5556, 6000, 7408, 8000, 11112, 12000, 14816, 16000, 22224, 24000, 29632, 36000,
    44448, 48000, 59264, 64000, 66672, 72000, 74080, 88896,
];

/// The farthest range.
pub const MAX_RANGE: i64 = 88896;

/// The user name and the model name.
pub const EMULATOR_NAME: &'static str = "Emulator HALO";

/// The serial number.
pub const EMULATOR_SERIAL: &'static str = "EMU00001";

/// The firmware version.
pub const EMULATOR_FIRMWARE: &'static str = "1.0.0 (emulator)";

/// A control in 255ths of its range on the wire.
pub open spec fn fraction(d: Definition) -> Definition {
    control::scaled(d, Scale::Milli(2550), false)
}

/// A control with a smallest step in thousandths.
pub open spec fn stepped(d: Definition, step_milli: i64) -> Definition {
    Definition { step_milli, ..d }
}

/// The controls.
pub open spec fn definitions() -> Seq<Definition> {
    seq![
        control::text(ControlId::UserName),
        control::text(ControlId::ModelName),
        control::text(ControlId::SerialNumber),
        control::text(ControlId::FirmwareVersion),
        control::in_unit(control::number(ControlId::Range, 0, MAX_RANGE as int), Unit::Meters),
        fraction(control::auto_number(ControlId::Gain, 0, 100)),
        fraction(control::auto_number(ControlId::Sea, 0, 100)),
        fraction(control::number(ControlId::Rain, 0, 100)),
        control::list(ControlId::InterferenceRejection, Choices::OffLowMediumHigh),
        control::list(ControlId::TargetBoost, Choices::OffLowHigh),
        control::list(ControlId::TargetExpansion, Choices::OffLowMediumHigh),
        control::list(ControlId::ScanSpeed, Choices::NormalMediumMediumPlusFast),
        fraction(control::auto_number(ControlId::SideLobeSuppression, 0, 100)),
        control::list(ControlId::NoiseRejection, Choices::OffLowMediumHigh),
        control::list(ControlId::TargetSeparation, Choices::OffLowMediumHigh),
        control::list(ControlId::Doppler, Choices::OffNormalApproaching),
        control::in_unit(
            stepped(
                control::plain(
                    ControlId::DopplerSpeedThreshold,
                    Kind::Number(Bounds::Milli { min: 0, max: 15_940 }),
                ),
                10,
            ),
            Unit::MetersPerSecond,
        ),
        control::in_unit(
            stepped(
                control::scaled(
                    control::number(ControlId::AntennaHeight, 0, 60),
                    Scale::Milli(1_000_000),
                    false,
                ),
                100,
            ),
            Unit::Meters,
        ),
        control::in_unit(
            Definition {
                offset: -1i64,
                ..control::scaled(
                    control::number(ControlId::BearingAlignment, -180, 180),
                    Scale::Milli(10_000),
                    true,
                )
            },
            Unit::Degrees,
        ),
        control::in_unit(
            control::shown(control::number(ControlId::TransmitTime, 0, 999_999)),
            Unit::Hours,
        ),
        control::list(ControlId::RangeUnits, Choices::NauticalMetricMixed),
    ]
}

fn as_fraction(d: Definition) -> (r: Definition)
    ensures
        r == fraction(d),
{
    wire_scale_factor(d, Scale::Milli(2550), false)
}

fn wire_scale_step(d: Definition, step_milli: i64) -> (r: Definition)
    ensures
        r == stepped(d, step_milli),
{
    Definition { step_milli, ..d }
}

/// The controls.
pub fn new() -> (r: Vec<Definition>)
    ensures
        r@ == definitions(),
{
    vec![
        new_string(ControlId::UserName),
        new_string(ControlId::ModelName),
        new_string(ControlId::SerialNumber),
        new_string(ControlId::FirmwareVersion),
        wire_units(new_numeric(ControlId::Range, 0, MAX_RANGE), Unit::Meters),
        as_fraction(new_auto(ControlId::Gain, 0, 100)),
        as_fraction(new_auto(ControlId::Sea, 0, 100)),
        as_fraction(new_numeric(ControlId::Rain, 0, 100)),
        new_list(ControlId::InterferenceRejection, Choices::OffLowMediumHigh),
        new_list(ControlId::TargetBoost, Choices::OffLowHigh),
        new_list(ControlId::TargetExpansion, Choices::OffLowMediumHigh),
        new_list(ControlId::ScanSpeed, Choices::NormalMediumMediumPlusFast),
        as_fraction(new_auto(ControlId::SideLobeSuppression, 0, 100)),
        new_list(ControlId::NoiseRejection, Choices::OffLowMediumHigh),
        new_list(ControlId::TargetSeparation, Choices::OffLowMediumHigh),
        new_list(ControlId::Doppler, Choices::OffNormalApproaching),
        wire_units(
            wire_scale_step(
                define(
                    ControlId::DopplerSpeedThreshold,
                    Kind::Number(Bounds::Milli { min: 0, max: 15_940 }),
                ),
                10,
            ),
            Unit::MetersPerSecond,
        ),
        wire_units(
            wire_scale_step(
                wire_scale_factor(
                    new_numeric(ControlId::AntennaHeight, 0, 60),
                    Scale::Milli(1_000_000),
                    false,
                ),
                100,
            ),
            Unit::Meters,
        ),
        wire_units(
            Definition {
                offset: -1,
                ..wire_scale_factor(
                    new_numeric(ControlId::BearingAlignment, -180, 180),
                    Scale::Milli(10_000),
                    true,
                )
            },
            Unit::Degrees,
        ),
        wire_units(read_only(new_numeric(ControlId::TransmitTime, 0, 999_999)), Unit::Hours),
        new_list(ControlId::RangeUnits, Choices::NauticalMetricMixed),
    ]
}

/// The distances that the radar can be set to.
pub fn emulator_ranges() -> (r: Ranges)
    ensures
        r@ == EMULATOR_RANGES@,
{
    let r = Ranges::new_by_distance(&EMULATOR_RANGES);
    proof {
        law_ranges_increase();
        assert(range::sorted_from(EMULATOR_RANGES@, EMULATOR_RANGES@));
        range::lemma_sorted_from_unique(r@, EMULATOR_RANGES@, EMULATOR_RANGES@);
    }
    r
}

/// The ranges are listed nearest first, and the farthest one bounds the range
/// control.
pub proof fn law_ranges_increase()
    ensures
        range::increasing(EMULATOR_RANGES@),
        EMULATOR_RANGES@.last() == MAX_RANGE,
{
    let s = EMULATOR_RANGES@;
    assert forall|i: int| 0 <= i < 39 implies #[trigger] s[i] < s[i + 1] by {}
    assert forall|i: int, j: int| 0 <= i < j < 40 implies s[i] < s[j] by {
        lemma_steps(s, i, j);
    }
}

proof fn lemma_steps(s: Seq<i32>, i: int, j: int)
    requires
        forall|k: int| 0 <= k < s.len() - 1 ==> #[trigger] s[k] < s[k + 1],
        0 <= i < j < s.len(),
    ensures
        s[i] < s[j],
    decreases j - i,
{
    if i + 1 < j {
        lemma_steps(s, i, j - 1);
        assert(s[j - 1] < s[j - 1 + 1]);
    }
}

/// What the controls can be set to.
pub proof fn law_controls_take(i: int)
    requires
        0 <= i < definitions().len(),
    ensures
        ({
            let d = definitions()[i];
            let up_to = |max: int| Bounds::Milli { min: 0, max: (1000 * max) as i64 };
            &&& d.id == ControlId::Gain || d.id == ControlId::Sea || d.id
                == ControlId::SideLobeSuppression ==> d.kind == Kind::AutoNumber(up_to(100))
                && d.scale == Scale::Milli(2550)
            &&& d.id == ControlId::Rain ==> d.kind == Kind::Number(up_to(100)) && d.scale
                == Scale::Milli(2550)
            &&& d.id == ControlId::Range ==> d.kind == Kind::Number(up_to(88896)) && d.unit
                == Unit::Meters
            &&& d.id == ControlId::InterferenceRejection || d.id == ControlId::TargetExpansion
                || d.id == ControlId::NoiseRejection || d.id == ControlId::TargetSeparation ==> d.kind
                == Kind::List(Choices::OffLowMediumHigh)
            &&& d.id == ControlId::TargetBoost ==> d.kind == Kind::List(Choices::OffLowHigh)
            &&& d.id == ControlId::ScanSpeed ==> d.kind == Kind::List(
                Choices::NormalMediumMediumPlusFast,
            )
            &&& d.id == ControlId::Doppler ==> d.kind == Kind::List(Choices::OffNormalApproaching)
            &&& d.id == ControlId::RangeUnits ==> d.kind == Kind::List(Choices::NauticalMetricMixed)
            &&& d.id == ControlId::DopplerSpeedThreshold ==> d.kind == Kind::Number(
                Bounds::Milli { min: 0, max: 15_940 },
            ) && d.step_milli == 10 && d.unit == Unit::MetersPerSecond
            &&& d.id == ControlId::AntennaHeight ==> d.kind == Kind::Number(up_to(60)) && d.unit
                == Unit::Meters && d.scale == Scale::Milli(1_000_000) && d.step_milli == 100
            &&& d.id == ControlId::BearingAlignment ==> d.kind == Kind::Number(
                Bounds::Milli { min: -180_000i64, max: 180_000 },
            ) && d.unit == Unit::Degrees && d.signed && d.offset == -1 && d.scale == Scale::Milli(
                10_000,
            )
            &&& d.id == ControlId::TransmitTime ==> d.kind == Kind::Number(up_to(999_999)) && d.unit
                == Unit::Hours
            &&& d.read_only <==> d.id == ControlId::TransmitTime
        }),
        definitions().len() == 21,
{
}

/// No control is listed twice.
pub proof fn law_controls_are_distinct(i: int, j: int)
    requires
        0 <= i < j < definitions().len(),
    ensures
        definitions()[i].id != definitions()[j].id,
{
}

} // verus!
