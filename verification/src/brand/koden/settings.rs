//! The controls of a Koden radar.

use vstd::prelude::*;

use crate::control;
use crate::control::{
    define, new_auto, new_half_turn, new_list, new_numeric, new_string, read_only,
    wire_scale_factor, Bounds, Choices, Definition, Kind, Scale,
};
use crate::radar::ControlId;

verus! {

/// An angle in 1024ths of a turn, with an offset of -1 on the wire.
pub open spec fn turned(d: Definition, signed: bool) -> Definition {
    Definition { offset: -1i64, ..control::scaled(d, Scale::TurnStepsPerRadian, signed) }
}

/// The controls.
pub open spec fn definitions() -> Seq<Definition> {
    seq![
        control::text(ControlId::UserName),
        control::shown(control::text(ControlId::ModelName)),
        control::shown(control::text(ControlId::SerialNumber)),
        control::auto_number(ControlId::Gain, 0, 100),
        control::number(ControlId::Sea, 0, 100),
        control::number(ControlId::Rain, 0, 100),
        control::list(ControlId::SeaState, Choices::ManualAutoHarbor),
        control::list(ControlId::InterferenceRejection, Choices::OffLowMediumHigh),
        control::list(ControlId::TargetExpansion, Choices::OffOn),
        control::list(ControlId::ScanSpeed, Choices::NormalFast),
        control::auto_number(ControlId::Tune, 0, 255),
        control::number(ControlId::TuneFine, 0, 15),
        control::list(ControlId::PulseWidth, Choices::ShortLong),
        control::number(ControlId::DisplayTiming, 0, 124),
        turned(
            control::plain(ControlId::NoTransmitSector1, Kind::Sector(Bounds::HalfTurn)),
            true,
        ),
        turned(control::half_turn(ControlId::ParkPosition), false),
    ]
}

fn turn(d: Definition, signed: bool) -> (r: Definition)
    ensures
        r == turned(d, signed),
{
    Definition { offset: -1, ..wire_scale_factor(d, Scale::TurnStepsPerRadian, signed) }
}

/// The controls.
pub fn new() -> (r: Vec<Definition>)
    ensures
        r@ == definitions(),
{
    vec![
        new_string(ControlId::UserName),
        read_only(new_string(ControlId::ModelName)),
        read_only(new_string(ControlId::SerialNumber)),
        new_auto(ControlId::Gain, 0, 100),
        new_numeric(ControlId::Sea, 0, 100),
        new_numeric(ControlId::Rain, 0, 100),
        new_list(ControlId::SeaState, Choices::ManualAutoHarbor),
        new_list(ControlId::InterferenceRejection, Choices::OffLowMediumHigh),
        new_list(ControlId::TargetExpansion, Choices::OffOn),
        new_list(ControlId::ScanSpeed, Choices::NormalFast),
        new_auto(ControlId::Tune, 0, 255),
        new_numeric(ControlId::TuneFine, 0, 15),
        new_list(ControlId::PulseWidth, Choices::ShortLong),
        new_numeric(ControlId::DisplayTiming, 0, 124),
        turn(define(ControlId::NoTransmitSector1, Kind::Sector(Bounds::HalfTurn)), true),
        turn(new_half_turn(ControlId::ParkPosition), false),
    ]
}

/// Every control that can be set has a command of its own, and none is listed twice.
pub proof fn law_controls_have_commands(i: int, j: int)
    requires
        0 <= i < definitions().len(),
        0 <= j < definitions().len(),
    ensures
        definitions()[i].kind is Text || super::command::opcode(definitions()[i].id) != 0,
        i != j ==> definitions()[i].id != definitions()[j].id,
        i != j && !(definitions()[i].kind is Text) && !(definitions()[j].kind is Text)
            ==> super::command::opcode(definitions()[i].id) != super::command::opcode(
            definitions()[j].id,
        ),
{
}

/// What the controls can be set to.
pub proof fn law_controls_take(i: int)
    requires
        0 <= i < definitions().len(),
    ensures
        ({
            let d = definitions()[i];
            let up_to = |max: int| Bounds::Milli { min: 0, max: (1000 * max) as i64 };
            &&& d.id == ControlId::Gain ==> d.kind == Kind::AutoNumber(up_to(100))
            &&& d.id == ControlId::Sea || d.id == ControlId::Rain ==> d.kind == Kind::Number(
                up_to(100),
            )
            &&& d.id == ControlId::Tune ==> d.kind == Kind::AutoNumber(up_to(255))
            &&& d.id == ControlId::TuneFine ==> d.kind == Kind::Number(up_to(15))
            &&& d.id == ControlId::DisplayTiming ==> d.kind == Kind::Number(up_to(124))
            &&& d.id == ControlId::SeaState ==> d.kind == Kind::List(Choices::ManualAutoHarbor)
            &&& d.id == ControlId::InterferenceRejection ==> d.kind == Kind::List(
                Choices::OffLowMediumHigh,
            )
            &&& d.id == ControlId::TargetExpansion ==> d.kind == Kind::List(Choices::OffOn)
            &&& d.id == ControlId::ScanSpeed ==> d.kind == Kind::List(Choices::NormalFast)
            &&& d.id == ControlId::PulseWidth ==> d.kind == Kind::List(Choices::ShortLong)
            &&& d.id == ControlId::NoTransmitSector1 ==> d.kind == Kind::Sector(Bounds::HalfTurn)
                && d.signed && d.offset == -1 && d.scale == Scale::TurnStepsPerRadian
            &&& d.id == ControlId::ParkPosition ==> d.kind == Kind::Number(Bounds::HalfTurn)
                && !d.signed && d.offset == -1 && d.scale == Scale::TurnStepsPerRadian
            &&& d.read_only <==> d.id == ControlId::ModelName || d.id == ControlId::SerialNumber
        }),
        definitions().len() == 16,
{
}

} // verus!
