//! What Furuno report lines change.
//!
//! The fields of a report are decimal numbers, some with a fraction. The rules
//! here read them as whole numbers; where a field's own value becomes the value
//! of a control, the action names the field.

use vstd::prelude::*;

use super::line;
use super::line::{find_char, ReportError};
use super::protocol;
use super::protocol::{
    wire_index_to_meters_for_unit, CommandId, RadarModel, WIRE_UNIT_KM,
};
use super::report::FurunoReportReceiver;
use crate::radar::{ControlId, Power, RangeId, Update};
use crate::text::{chars_of, text_of};

verus! {

/// The number in a field: its value without the fraction, and whether there was
/// no fraction. A value too large for `whole` is cut off at its ends.
#[derive(Clone, Copy, Debug, PartialEq, Eq, Structural)]
pub struct Number {
    pub whole: i64,
    pub exact: bool,
}

/// `x` brought into the bounds.
pub open spec fn clamped(x: int, low: int, high: int) -> int {
    if x < low {
        low
    } else if x > high {
        high
    } else {
        x
    }
}

impl Number {
    /// Whether the field holds exactly this number.
    pub open spec fn equals(self, n: int) -> bool {
        self.exact && self.whole == n
    }

    /// The field as a 32-bit number.
    pub open spec fn as_i32(self) -> i32 {
        clamped(self.whole as int, i32::MIN as int, i32::MAX as int) as i32
    }

    /// The field as a byte.
    pub open spec fn as_u8(self) -> u8 {
        clamped(self.whole as int, 0, 0xff) as u8
    }

    fn is(&self, n: i64) -> (r: bool)
        ensures
            r == self.equals(n as int),
    {
        self.exact && self.whole == n
    }

    fn to_i32(&self) -> (r: i32)
        ensures
            r == self.as_i32(),
    {
        if self.whole < i32::MIN as i64 {
            i32::MIN
        } else if self.whole > i32::MAX as i64 {
            i32::MAX
        } else {
            self.whole as i32
        }
    }

    fn to_u8(&self) -> (r: u8)
        ensures
            r == self.as_u8(),
    {
        if self.whole < 0 {
            0
        } else if self.whole > 0xff {
            0xff
        } else {
            self.whole as u8
        }
    }
}

/// The pulse that the radar sends.
#[derive(Clone, Copy, Debug, PartialEq, Eq, Structural)]
pub enum Pulse {
    S1,
    S2,
    M1,
    M2,
    M3,
    L,
    Unknown,
}

impl Pulse {
    /// The display name of the pulse.
    pub open spec fn label(self) -> Seq<char> {
        match self {
            Pulse::S1 => "S1"@,
            Pulse::S2 => "S2"@,
            Pulse::M1 => "M1"@,
            Pulse::M2 => "M2"@,
            Pulse::M3 => "M3"@,
            Pulse::L => "L"@,
            Pulse::Unknown => "Unknown"@,
        }
    }

    /// The display name of the pulse.
    pub fn name(&self) -> (r: &'static str)
        ensures
            r@ == self.label(),
    {
        match self {
            Pulse::S1 => "S1",
            Pulse::S2 => "S2",
            Pulse::M1 => "M1",
            Pulse::M2 => "M2",
            Pulse::M3 => "M3",
            Pulse::L => "L",
            Pulse::Unknown => "Unknown",
        }
    }

    /// The pulse with this number.
    pub open spec fn numbered(n: i32) -> Pulse {
        match n {
            0 => Pulse::S1,
            1 => Pulse::S2,
            2 => Pulse::M1,
            3 => Pulse::M2,
            4 => Pulse::M3,
            5 => Pulse::L,
            _ => Pulse::Unknown,
        }
    }

    fn from_number(n: i32) -> (r: Pulse)
        ensures
            r == Pulse::numbered(n),
    {
        match n {
            0 => Pulse::S1,
            1 => Pulse::S2,
            2 => Pulse::M1,
            3 => Pulse::M2,
            4 => Pulse::M3,
            5 => Pulse::L,
            _ => Pulse::Unknown,
        }
    }
}

/// Something that a report changes.
#[derive(Clone, Copy, Debug, PartialEq, Eq, Structural)]
pub enum ReportAction {
    /// Change a control of a range.
    Change { range: RangeId, update: Update },
    /// Set a control of a range to the value of a field.
    SetFromField { range: RangeId, id: ControlId, field: usize },
    /// The same, together with the automatic flag.
    SetAutoFromField { range: RangeId, id: ControlId, field: usize, auto: u8 },
    /// Set a sector of range A from the fields with its start and width in
    /// degrees; it ends at their sum, less a full turn where it exceeds one.
    SectorFromFields { id: ControlId, start: usize, width: usize, enabled: bool },
    /// Name the pulse of a range.
    NamePulse { range: RangeId, pulse: Pulse },
}

/// A model that a report identified.
pub struct ModelReport {
    pub model: RadarModel,
    /// Firmware version.
    pub version: String,
}

/// What a report changes.
pub struct ReportOutcome {
    pub actions: Vec<ReportAction>,
    /// Set when the report identified the model; the controls and ranges of
    /// every range then follow the model.
    pub model: Option<ModelReport>,
}

/// The number in field `i`, zero where there is none.
pub open spec fn field(numbers: Seq<Number>, i: int) -> Number {
    if 0 <= i < numbers.len() { numbers[i] } else { Number { whole: 0, exact: true } }
}

/// The field that holds the dual-range identifier.
pub open spec fn drid_field(command: CommandId, count: nat) -> int {
    match command {
        CommandId::Status => 1,
        CommandId::Gain | CommandId::Range | CommandId::Tune => 2,
        CommandId::Sea | CommandId::Rain => 3,
        _ => count - 1,
    }
}

/// The dual-range identifier of a report; 0 where there is no range B.
pub open spec fn drid(has_b: bool, command: CommandId, numbers: Seq<Number>) -> u8 {
    if has_b { field(numbers, drid_field(command, numbers.len())).as_u8() } else { 0 }
}

/// The range that a report is about: range B where the radar has one and the
/// report names it.
pub open spec fn target(has_b: bool, command: CommandId, numbers: Seq<Number>) -> RangeId {
    if drid(has_b, command, numbers) == 1 && has_b { RangeId::B } else { RangeId::A }
}

/// The other range.
pub open spec fn other(range: RangeId) -> RangeId {
    match range {
        RangeId::A => RangeId::B,
        RangeId::B => RangeId::A,
    }
}

/// Set a control of range A.
pub open spec fn set_a(id: ControlId, value: int) -> ReportAction {
    set(RangeId::A, id, value)
}

/// Set a control of a range.
pub open spec fn set(range: RangeId, id: ControlId, value: int) -> ReportAction {
    ReportAction::Change { range, update: Update::Value { id, value: value as i64 } }
}

/// The power state in a status report.
pub open spec fn reported_power(n: Number) -> Power {
    if n.equals(0) {
        Power::Preparing
    } else if n.equals(1) {
        Power::Standby
    } else if n.equals(2) {
        Power::Transmit
    } else {
        Power::Off
    }
}

/// What a status report changes. The ranges transmit together, so both have the
/// power state.
pub open spec fn status_actions(has_b: bool, n: Seq<Number>) -> Seq<ReportAction> {
    let range = target(has_b, CommandId::Status, n);
    let power = Update::Power(reported_power(n[0]));
    seq![ReportAction::Change { range, update: power }] + (if n.len() >= 5 {
        seq![
            set(range, ControlId::TimedIdle, n[2].as_i32() as int),
            ReportAction::SetFromField { range, id: ControlId::TimedRun, field: 3 },
        ]
    } else {
        Seq::empty()
    }) + (if has_b {
        seq![ReportAction::Change { range: other(range), update: power }]
    } else {
        Seq::empty()
    })
}

/// What a signal processing report changes. The reply to a setting has a zero
/// in front.
pub open spec fn signal_actions(n: Seq<Number>) -> Seq<ReportAction> {
    let at: int = if n.len() >= 4 && n[0].equals(0) { 1 } else { 0 };
    let feature = n[at].as_i32();
    let value = n[at + 1].as_i32();
    if feature == 0 {
        seq![set_a(ControlId::InterferenceRejection, if value == 2 { 1 } else { 0 })]
    } else if feature == 3 {
        seq![set_a(ControlId::NoiseRejection, if value == 1 { 1 } else { 0 })]
    } else {
        Seq::empty()
    }
}

/// What a range report changes.
pub open spec fn range_actions(has_b: bool, n: Seq<Number>) -> Result<
    Seq<ReportAction>,
    ReportError,
> {
    let index = n[0].as_i32();
    let unit = n[1].as_i32();
    let range = target(has_b, CommandId::Range, n);
    match protocol::slot_meters(protocol::slots(unit), index) {
        None => Err(ReportError::UnknownRange { index, unit }),
        Some(m) => Ok(
            seq![
                set(range, ControlId::Range, m as int),
                set(range, ControlId::RangeUnits, if unit == WIRE_UNIT_KM { 1 } else { 0 }),
            ],
        ),
    }
}

/// The number of fields that a report needs to be accepted.
pub open spec fn fields_needed(command: CommandId) -> nat {
    match command {
        CommandId::Status
        | CommandId::ScanSpeed
        | CommandId::MainBangSize
        | CommandId::RezBoost
        | CommandId::BirdMode => 1,
        CommandId::Gain
        | CommandId::Sea
        | CommandId::Rain
        | CommandId::SignalProcessing
        | CommandId::TargetAnalyzer => 2,
        CommandId::Range => 3,
        CommandId::BlindSector => 5,
        _ => 0,
    }
}

/// What a report changes, but for the model.
pub open spec fn report_actions(has_b: bool, command: CommandId, n: Seq<Number>) -> Result<
    Seq<ReportAction>,
    ReportError,
> {
    let range = target(has_b, command, n);
    if n.len() < fields_needed(command) {
        Err(ReportError::TooFewFields { command, count: n.len() as usize })
    } else {
        match command {
            CommandId::Status => Ok(status_actions(has_b, n)),
            CommandId::Gain => Ok(
                seq![
                    ReportAction::SetAutoFromField {
                        range,
                        id: ControlId::Gain,
                        field: 1,
                        auto: n[0].as_u8(),
                    },
                ],
            ),
            CommandId::Sea => Ok(
                seq![
                    ReportAction::SetAutoFromField {
                        range,
                        id: ControlId::Sea,
                        field: 1,
                        auto: n[0].as_u8(),
                    },
                ],
            ),
            CommandId::Rain => Ok(
                seq![
                    ReportAction::SetAutoFromField {
                        range,
                        id: ControlId::Rain,
                        field: 1,
                        auto: n[0].as_u8(),
                    },
                ],
            ),
            CommandId::ScanSpeed => Ok(seq![field_a(ControlId::ScanSpeed)]),
            CommandId::BlindSector => Ok(
                seq![
                    ReportAction::SectorFromFields {
                        id: ControlId::NoTransmitSector1,
                        start: 1,
                        width: 2,
                        enabled: !n[2].equals(0),
                    },
                    ReportAction::SectorFromFields {
                        id: ControlId::NoTransmitSector2,
                        start: 3,
                        width: 4,
                        enabled: !n[0].equals(0),
                    },
                ],
            ),
            CommandId::Range => range_actions(has_b, n),
            CommandId::OnTime => Ok(seq![field_a(ControlId::OperatingTime)]),
            CommandId::TxTime => Ok(seq![field_a(ControlId::TransmitTime)]),
            CommandId::MainBangSize => Ok(
                seq![
                    set_a(
                        ControlId::MainBangSuppression,
                        crate::bytes::quotient(n[0].as_i32() * 100, 255),
                    ),
                ],
            ),
            CommandId::SignalProcessing => Ok(signal_actions(n)),
            CommandId::RezBoost => Ok(seq![field_a(ControlId::TargetSeparation)]),
            CommandId::BirdMode => Ok(seq![field_a(ControlId::BirdMode)]),
            CommandId::TargetAnalyzer => Ok(
                seq![
                    set_a(
                        ControlId::Doppler,
                        if n[0].as_i32() == 0 {
                            0
                        } else if n[1].as_i32() == 0 {
                            1
                        } else {
                            2
                        },
                    ),
                ],
            ),
            CommandId::Tune => Ok(
                if n.len() >= 2 {
                    seq![
                        ReportAction::SetAutoFromField {
                            range,
                            id: ControlId::Tune,
                            field: 1,
                            auto: n[0].as_u8(),
                        },
                    ]
                } else {
                    Seq::empty()
                },
            ),
            CommandId::PulseWidth => Ok(
                if n.len() >= 1 {
                    seq![
                        ReportAction::NamePulse { range, pulse: Pulse::numbered(n[0].as_i32()) },
                    ]
                } else {
                    Seq::empty()
                },
            ),
            _ => Ok(Seq::empty()),
        }
    }
}

/// Set a control of range A to the first field.
pub open spec fn field_a(id: ControlId) -> ReportAction {
    ReportAction::SetFromField { range: RangeId::A, id, field: 0 }
}

/// The model and firmware version in the first field of a module report: part
/// number, dash, version.
pub open spec fn module_meaning(first: Seq<char>) -> Option<(RadarModel, Seq<char>)> {
    let dash = line::position(first, '-');
    if dash < first.len() {
        Some((RadarModel::of_part_number(first.take(dash)), first.skip(dash + 1)))
    } else {
        None
    }
}

fn target_range(has_b: bool, command: CommandId, numbers: &[Number]) -> (r: RangeId)
    ensures
        r == target(has_b, command, numbers@),
{
    if !has_b {
        return RangeId::A;
    }
    let count: usize = numbers.len();
    let drid: u8 = match command {
        CommandId::Status => if count > 1 {
            numbers[1].to_u8()
        } else {
            0
        },
        CommandId::Gain | CommandId::Range | CommandId::Tune => if count > 2 {
            numbers[2].to_u8()
        } else {
            0
        },
        CommandId::Sea | CommandId::Rain => if count > 3 {
            numbers[3].to_u8()
        } else {
            0
        },
        _ => if count > 0 {
            numbers[count - 1].to_u8()
        } else {
            0
        },
    };
    if drid == 1 {
        RangeId::B
    } else {
        RangeId::A
    }
}

fn change(range: RangeId, id: ControlId, value: i64) -> (r: ReportAction)
    ensures
        r == set(range, id, value as int),
{
    ReportAction::Change { range, update: Update::Value { id, value } }
}

fn process_status(has_b: bool, n: &[Number]) -> (r: Vec<ReportAction>)
    requires
        n@.len() >= 1,
    ensures
        r@ == status_actions(has_b, n@),
{
    let range = target_range(has_b, CommandId::Status, n);
    let power = if n[0].is(0) {
        Power::Preparing
    } else if n[0].is(1) {
        Power::Standby
    } else if n[0].is(2) {
        Power::Transmit
    } else {
        Power::Off
    };
    let update = Update::Power(power);
    let mut out: Vec<ReportAction> = Vec::new();
    out.push(ReportAction::Change { range, update });
    if n.len() >= 5 {
        out.push(change(range, ControlId::TimedIdle, n[2].to_i32() as i64));
        out.push(ReportAction::SetFromField { range, id: ControlId::TimedRun, field: 3 });
    }
    if has_b {
        let second = match range {
            RangeId::A => RangeId::B,
            RangeId::B => RangeId::A,
        };
        out.push(ReportAction::Change { range: second, update });
    }
    assert(out@ =~= status_actions(has_b, n@));
    out
}

fn process_signal(n: &[Number]) -> (r: Vec<ReportAction>)
    requires
        n@.len() >= 2,
    ensures
        r@ == signal_actions(n@),
{
    let at: usize = if n.len() >= 4 && n[0].is(0) {
        1
    } else {
        0
    };
    let feature: i32 = n[at].to_i32();
    let value: i32 = n[at + 1].to_i32();
    let mut out: Vec<ReportAction> = Vec::new();
    if feature == 0 {
        let on: i64 = if value == 2 {
            1
        } else {
            0
        };
        out.push(change(RangeId::A, ControlId::InterferenceRejection, on));
    } else if feature == 3 {
        let on: i64 = if value == 1 {
            1
        } else {
            0
        };
        out.push(change(RangeId::A, ControlId::NoiseRejection, on));
    }
    assert(out@ =~= signal_actions(n@));
    out
}

fn process_range(has_b: bool, n: &[Number]) -> (r: Result<Vec<ReportAction>, ReportError>)
    requires
        n@.len() >= 3,
    ensures
        match r {
            Ok(v) => range_actions(has_b, n@) == Ok::<Seq<ReportAction>, ReportError>(v@),
            Err(e) => range_actions(has_b, n@) == Err::<Seq<ReportAction>, ReportError>(e),
        },
{
    let index: i32 = n[0].to_i32();
    let unit: i32 = n[1].to_i32();
    let meters = wire_index_to_meters_for_unit(index, unit);
    proof {
        protocol::lemma_slot_meters(unit, index, meters);
    }
    match meters {
        None => Err(ReportError::UnknownRange { index, unit }),
        Some(m) => {
            let range = target_range(has_b, CommandId::Range, n);
            let units: i64 = if unit == WIRE_UNIT_KM {
                1
            } else {
                0
            };
            let mut out: Vec<ReportAction> = Vec::new();
            out.push(change(range, ControlId::Range, m as i64));
            out.push(change(range, ControlId::RangeUnits, units));
            assert(out@ =~= range_actions(has_b, n@)->Ok_0);
            Ok(out)
        },
    }
}

fn one(action: ReportAction) -> (r: Vec<ReportAction>)
    ensures
        r@ == seq![action],
{
    let mut out: Vec<ReportAction> = Vec::new();
    out.push(action);
    assert(out@ =~= seq![action]);
    out
}

fn first_field(id: ControlId) -> (r: Vec<ReportAction>)
    ensures
        r@ == seq![field_a(id)],
{
    one(ReportAction::SetFromField { range: RangeId::A, id, field: 0 })
}

fn needed(command: CommandId) -> (r: usize)
    ensures
        r == fields_needed(command),
{
    match command {
        CommandId::Status
        | CommandId::ScanSpeed
        | CommandId::MainBangSize
        | CommandId::RezBoost
        | CommandId::BirdMode => 1,
        CommandId::Gain
        | CommandId::Sea
        | CommandId::Rain
        | CommandId::SignalProcessing
        | CommandId::TargetAnalyzer => 2,
        CommandId::Range => 3,
        CommandId::BlindSector => 5,
        _ => 0,
    }
}

/// Whether the rules are defined on a report: those about time and modules have
/// a field, and the main bang size is not beyond all measure.
pub open spec fn well_formed(model_known: bool, command: CommandId, n: Seq<Number>) -> bool {
    &&& (command == CommandId::OnTime || command == CommandId::TxTime) ==> n.len() >= 1
    &&& (command == CommandId::Modules && !model_known) ==> n.len() >= 1
    &&& (command == CommandId::MainBangSize && n.len() >= 1) ==> i32::MIN <= n[0].as_i32() * 100
        <= i32::MAX
}

/// Whether the rules are defined on a report.
pub fn is_well_formed(model_known: bool, command: CommandId, n: &[Number]) -> (r: bool)
    ensures
        r == well_formed(model_known, command, n@),
{
    match command {
        CommandId::OnTime | CommandId::TxTime => n.len() >= 1,
        CommandId::Modules => model_known || n.len() >= 1,
        CommandId::MainBangSize => {
            if n.len() == 0 {
                true
            } else {
                let v: i64 = n[0].to_i32() as i64;
                v * 100 >= i32::MIN as i64 && v * 100 <= i32::MAX as i64
            }
        },
        _ => true,
    }
}

fn auto_action(has_b: bool, command: CommandId, id: ControlId, n: &[Number]) -> (r: Vec<
    ReportAction,
>)
    requires
        n@.len() >= 2,
    ensures
        r@ == seq![
            ReportAction::SetAutoFromField {
                range: target(has_b, command, n@),
                id,
                field: 1,
                auto: n@[0].as_u8(),
            },
        ],
{
    let range = target_range(has_b, command, n);
    one(ReportAction::SetAutoFromField { range, id, field: 1, auto: n[0].to_u8() })
}

fn actions_of(has_b: bool, command: CommandId, n: &[Number]) -> (r: Result<
    Vec<ReportAction>,
    ReportError,
>)
    requires
        well_formed(true, command, n@),
    ensures
        match r {
            Ok(v) => report_actions(has_b, command, n@) == Ok::<Seq<ReportAction>, ReportError>(
                v@,
            ),
            Err(e) => report_actions(has_b, command, n@) == Err::<Seq<ReportAction>, ReportError>(
                e,
            ),
        },
{
    if n.len() < needed(command) {
        return Err(ReportError::TooFewFields { command, count: n.len() });
    }
    let actions: Vec<ReportAction> = match command {
        CommandId::Status => process_status(has_b, n),
        CommandId::Gain => auto_action(has_b, command, ControlId::Gain, n),
        CommandId::Sea => auto_action(has_b, command, ControlId::Sea, n),
        CommandId::Rain => auto_action(has_b, command, ControlId::Rain, n),
        CommandId::ScanSpeed => first_field(ControlId::ScanSpeed),
        CommandId::BlindSector => {
            let mut out = one(
                ReportAction::SectorFromFields {
                    id: ControlId::NoTransmitSector1,
                    start: 1,
                    width: 2,
                    enabled: !n[2].is(0),
                },
            );
            out.push(
                ReportAction::SectorFromFields {
                    id: ControlId::NoTransmitSector2,
                    start: 3,
                    width: 4,
                    enabled: !n[0].is(0),
                },
            );
            assert(out@ =~= report_actions(has_b, command, n@)->Ok_0);
            out
        },
        CommandId::Range => {
            return process_range(has_b, n);
        },
        CommandId::OnTime => first_field(ControlId::OperatingTime),
        CommandId::TxTime => first_field(ControlId::TransmitTime),
        CommandId::MainBangSize => {
            let percent: i32 = crate::bytes::divide(n[0].to_i32() * 100, 255);
            one(change(RangeId::A, ControlId::MainBangSuppression, percent as i64))
        },
        CommandId::SignalProcessing => process_signal(n),
        CommandId::RezBoost => first_field(ControlId::TargetSeparation),
        CommandId::BirdMode => first_field(ControlId::BirdMode),
        CommandId::TargetAnalyzer => {
            let value: i64 = if n[0].to_i32() == 0 {
                0
            } else if n[1].to_i32() == 0 {
                1
            } else {
                2
            };
            one(change(RangeId::A, ControlId::Doppler, value))
        },
        CommandId::Tune => if n.len() >= 2 {
            auto_action(has_b, command, ControlId::Tune, n)
        } else {
            Vec::new()
        },
        CommandId::PulseWidth => if n.len() >= 1 {
            let range = target_range(has_b, command, n);
            one(ReportAction::NamePulse { range, pulse: Pulse::from_number(n[0].to_i32()) })
        } else {
            Vec::new()
        },
        _ => Vec::new(),
    };
    Ok(actions)
}

fn parse_modules(first: &str) -> (r: Option<ModelReport>)
    ensures
        r is Some <==> module_meaning(first@) is Some,
        r matches Some(m) ==> module_meaning(first@) == Some((m.model, m.version@)),
{
    let chars = chars_of(first);
    assert(chars@.skip(0) =~= chars@);
    let dash: usize = find_char(chars.as_slice(), '-', 0);
    if dash == chars.len() {
        return None;
    }
    let part = text_of(vstd::slice::slice_subrange(chars.as_slice(), 0, dash));
    let version = text_of(vstd::slice::slice_subrange(chars.as_slice(), dash + 1, chars.len()));
    assert(part@ =~= first@.take(dash as int));
    assert(version@ =~= first@.skip(dash + 1));
    Some(ModelReport { model: RadarModel::from_part_number(part.as_str()), version })
}

impl FurunoReportReceiver {
    /// Process a report. `fields` are the fields of the report line, `numbers`
    /// the numbers in them, zero for a field that holds none.
    pub fn process_report(&mut self, command: CommandId, fields: &Vec<String>, numbers: &[Number])
        -> (r: Result<ReportOutcome, ReportError>)
        requires
            fields@.len() == numbers@.len(),
            well_formed(old(self).model_known, command, numbers@),
        ensures
            match r {
                Ok(o) => report_actions(old(self).has_range_b, command, numbers@) == Ok::<
                    Seq<ReportAction>,
                    ReportError,
                >(o.actions@),
                Err(e) => report_actions(old(self).has_range_b, command, numbers@) == Err::<
                    Seq<ReportAction>,
                    ReportError,
                >(e),
            },
            r matches Ok(o) ==> match o.model {
                Some(m) => {
                    &&& command == CommandId::Modules && !old(self).model_known
                    &&& module_meaning(fields@[0]@) == Some((m.model, m.version@))
                },
                None => {
                    ||| command != CommandId::Modules || old(self).model_known
                    ||| module_meaning(fields@[0]@) is None
                },
            },
            *final(self) == (FurunoReportReceiver {
                model_known: old(self).model_known || command == CommandId::Modules,
                model: if command == CommandId::Modules && !old(self).model_known
                    && module_meaning(fields@[0]@) is Some {
                    (module_meaning(fields@[0]@)->0).0
                } else {
                    old(self).model
                },
                ..*old(self)
            }),
    {
        if let CommandId::Modules = command {
            let mut model: Option<ModelReport> = None;
            if !self.model_known {
                self.model_known = true;
                model = parse_modules(fields[0].as_str());
                match &model {
                    Some(m) => {
                        self.model = m.model;
                    },
                    None => {},
                }
            }
            return Ok(ReportOutcome { actions: Vec::new(), model });
        }
        match actions_of(self.has_range_b, command, numbers) {
            Ok(actions) => Ok(ReportOutcome { actions, model: None }),
            Err(e) => Err(e),
        }
    }
}

/// A radar without a second range is told of changes to range A only.
pub proof fn law_single_range(command: CommandId, numbers: Seq<Number>, i: int)
    requires
        report_actions(false, command, numbers) is Ok,
        0 <= i < report_actions(false, command, numbers)->Ok_0.len(),
    ensures
        match report_actions(false, command, numbers)->Ok_0[i] {
            ReportAction::Change { range, .. } => range == RangeId::A,
            ReportAction::SetFromField { range, .. } => range == RangeId::A,
            ReportAction::SetAutoFromField { range, .. } => range == RangeId::A,
            ReportAction::SectorFromFields { .. } => true,
            ReportAction::NamePulse { range, .. } => range == RangeId::A,
        },
{
}

/// After a status report both ranges of a dual-range radar have the same power
/// state.
pub proof fn law_ranges_transmit_together(numbers: Seq<Number>, range: RangeId)
    requires
        numbers.len() >= 1,
    ensures
        status_actions(true, numbers).contains(
            ReportAction::Change {
                range,
                update: Update::Power(reported_power(numbers[0])),
            },
        ),
{
    let all = status_actions(true, numbers);
    let t = target(true, CommandId::Status, numbers);
    if range == t {
        assert(all[0] == ReportAction::Change {
            range,
            update: Update::Power(reported_power(numbers[0])),
        });
    } else {
        assert(all[all.len() - 1] == ReportAction::Change {
            range,
            update: Update::Power(reported_power(numbers[0])),
        });
    }
}

/// A wire range that is reported is the distance that asks for it: setting the
/// reported distance in the reported unit selects the same slot.
pub proof fn law_reported_range_selects_itself(has_b: bool, numbers: Seq<Number>)
    requires
        numbers.len() >= 3,
        range_actions(has_b, numbers) is Ok,
    ensures
        protocol::nearest_index(
            protocol::slots(numbers[1].as_i32()),
            protocol::slot_meters(
                protocol::slots(numbers[1].as_i32()),
                numbers[0].as_i32(),
            )->0,
            numbers[0].as_i32(),
        ),
{
    let unit = numbers[1].as_i32();
    let index = numbers[0].as_i32();
    let table = protocol::slots(unit);
    let i = choose|i: int| 0 <= i < table.len() && (#[trigger] table[i]).0 == index;
    assert(table[i] == (index, table[i].1));
    assert(protocol::distance_of(table, index, Some(table[i].1)));
    protocol::law_wire_index_round_trip(unit, index, table[i].1);
}

/// The power states on the wire: 0 prepares, 1 stands by, 2 transmits, and any other
/// number is off. The first action of a status report sets it.
pub proof fn law_power_states(has_b: bool, numbers: Seq<Number>)
    requires
        numbers.len() >= 1,
    ensures
        ({
            &&& report_actions(has_b, CommandId::Status, numbers) matches Ok(actions)
            &&& actions.len()
            >= 1
            &&& actions[0] matches ReportAction::Change { range, update }
            &&& {
            &&& update == Update::Power(
                if !numbers[0].exact {
                    Power::Off
                } else if numbers[0].whole == 0 {
                    Power::Preparing
                } else if numbers[0].whole == 1 {
                    Power::Standby
                } else if numbers[0].whole == 2 {
                    Power::Transmit
                } else {
                    Power::Off
                },
            )
            &&& range == RangeId::B <==> has_b && numbers.len() >= 2 && numbers[1].whole == 1
        }
        }),
{
}

/// A report on gain, sea, rain or tuning sets that control, from its second field, with
/// the automatic flag of the first; the range is named in a field of its own.
pub proof fn law_level_reports(has_b: bool, command: CommandId, numbers: Seq<Number>)
    requires
        numbers.len() >= 4,
        command == CommandId::Gain || command == CommandId::Sea || command == CommandId::Rain
            || command == CommandId::Tune,
        0 <= numbers[0].whole < 256,
    ensures
        ({
            &&& report_actions(has_b, command, numbers) matches Ok(actions)
            &&& actions.len() == 1
            &&& actions[0] matches ReportAction::SetAutoFromField { range, id, field, auto }
            &&& {
            &&& field == 1
            &&& auto == numbers[0].whole
            &&& command == CommandId::Gain ==> id == ControlId::Gain
            &&& command == CommandId::Sea ==> id == ControlId::Sea
            &&& command == CommandId::Rain ==> id == ControlId::Rain
            &&& command == CommandId::Tune ==> id == ControlId::Tune
            &&& command == CommandId::Gain || command == CommandId::Tune ==> (range == RangeId::B
                <==> has_b && numbers[2].whole == 1)
            &&& command == CommandId::Sea || command == CommandId::Rain ==> (range == RangeId::B
                <==> has_b && numbers[3].whole == 1)
        }
        }),
{
}

/// A report on one number of the whole antenna shows it as it is.
pub proof fn law_number_reports(has_b: bool, command: CommandId, numbers: Seq<Number>)
    requires
        numbers.len() >= 1,
    ensures
        ({
            let shown = report_actions(has_b, command, numbers);
            let first = |id: ControlId|
                Ok::<Seq<ReportAction>, ReportError>(
                    seq![ReportAction::SetFromField { range: RangeId::A, id, field: 0 }],
                );
            &&& command == CommandId::ScanSpeed ==> shown == first(ControlId::ScanSpeed)
            &&& command == CommandId::OnTime ==> shown == first(ControlId::OperatingTime)
            &&& command == CommandId::TxTime ==> shown == first(ControlId::TransmitTime)
            &&& command == CommandId::RezBoost ==> shown == first(ControlId::TargetSeparation)
            &&& command == CommandId::BirdMode ==> shown == first(ControlId::BirdMode)
        }),
{
}

/// A main bang size of 255ths is shown in percent: all is 100, nothing is 0, and more is
/// never less.
pub proof fn law_main_bang_in_percent(has_b: bool, a: Seq<Number>, b: Seq<Number>)
    requires
        a.len() >= 1,
        b.len() >= 1,
        0 <= a[0].whole <= b[0].whole <= 255,
    ensures
        ({
            &&& report_actions(has_b, CommandId::MainBangSize, a) matches Ok(first)
            &&& report_actions(
            has_b,
            CommandId::MainBangSize,
            b,
        ) matches Ok(second)
            &&& first.len() == 1
            &&& second.len() == 1
            &&& first[0] matches ReportAction::Change { range: RangeId::A, update: Update::Value {
            id: ControlId::MainBangSuppression,
            value: low,
        } }
            &&& second[0] matches ReportAction::Change { range: RangeId::A, update: Update::Value {
            id: ControlId::MainBangSuppression,
            value: high,
        } }
            &&& {
            &&& 0 <= low <= high <= 100
            &&& a[0].whole == 0 ==> low == 0
            &&& b[0].whole == 255 ==> high == 100
            &&& 255 * low <= 100 * a[0].whole < 255 * (low + 1)
        }
        }),
{
    assert(a[0].as_i32() == a[0].whole);
    assert(b[0].as_i32() == b[0].whole);
    let low = crate::bytes::quotient(a[0].as_i32() * 100, 255);
    let high = crate::bytes::quotient(b[0].as_i32() * 100, 255);
    assert(255 * low <= 100 * a[0].whole < 255 * (low + 1));
    assert(0 <= low <= high <= 100);
}

/// The pulses are numbered from short to long, and each has a name of its own.
pub proof fn law_pulses_are_numbered(has_b: bool, a: i32, b: i32)
    requires
        0 <= a <= 5,
        0 <= b <= 5,
    ensures
        Pulse::numbered(a).label() == Pulse::numbered(b).label() <==> a == b,
        Pulse::numbered(a) != Pulse::Unknown,
        Pulse::numbered(0) == Pulse::S1,
        Pulse::numbered(5) == Pulse::L,
        report_actions(
            has_b,
            CommandId::PulseWidth,
            seq![Number { whole: a as i64, exact: true }, Number { whole: 0, exact: true }],
        ) == Ok::<Seq<ReportAction>, ReportError>(
            seq![ReportAction::NamePulse { range: RangeId::A, pulse: Pulse::numbered(a) }],
        ),
{
    reveal_strlit("S1");
    reveal_strlit("S2");
    reveal_strlit("M1");
    reveal_strlit("M2");
    reveal_strlit("M3");
    reveal_strlit("L");
    assert("S1"@[0] == 'S' && "S1"@[1] == '1');
    assert("S2"@[0] == 'S' && "S2"@[1] == '2');
    assert("M1"@[0] == 'M' && "M1"@[1] == '1');
    assert("M2"@[0] == 'M' && "M2"@[1] == '2');
    assert("M3"@[0] == 'M' && "M3"@[1] == '3');
    assert("L"@.len() == 1);
}

/// A module report is taken apart at its first dash: the part number in front of it names
/// the model, and the version stands behind it.
pub proof fn law_module_report_is_taken_apart(part: Seq<char>, version: Seq<char>)
    requires
        !part.contains('-'),
    ensures
        module_meaning(part + seq!['-'] + version) == Some(
            (RadarModel::of_part_number(part), version),
        ),
{
    let s = part + seq!['-'] + version;
    assert forall|i: int| 0 <= i < part.len() implies s[i] != '-' by {
        assert(s[i] == part[i]);
        assert(part.contains(part[i]));
    }
    line::lemma_position(s, '-', part.len() as int);
    assert(s.take(part.len() as int) =~= part);
    assert(s.skip(part.len() as int + 1) =~= version);
}

/// A range report shows the distance of its slot and its unit, on the range that it
/// names.
pub proof fn law_range_reports(
    has_b: bool,
    index: i32,
    unit: i32,
    drid: i32,
    meters: i32,
)
    requires
        unit == 0 || unit == 1,
        drid == 0 || drid == 1,
        if unit == 1 {
            protocol::WIRE_INDEX_TABLE_KM@.contains((index, meters))
        } else {
            protocol::WIRE_INDEX_TABLE@.contains((index, meters))
        },
    ensures
        ({
            let range = if has_b && drid == 1 { RangeId::B } else { RangeId::A };
            let numbers = seq![
                Number { whole: index as i64, exact: true },
                Number { whole: unit as i64, exact: true },
                Number { whole: drid as i64, exact: true },
            ];
            report_actions(has_b, CommandId::Range, numbers) == Ok::<
                Seq<ReportAction>,
                ReportError,
            >(
                seq![
                    ReportAction::Change {
                        range,
                        update: Update::Value { id: ControlId::Range, value: meters as i64 },
                    },
                    ReportAction::Change {
                        range,
                        update: Update::Value { id: ControlId::RangeUnits, value: unit as i64 },
                    },
                ],
            )
        }),
{
    protocol::lemma_slot_meters(unit, index, Some(meters));
}

/// A part number without a dash tells no model.
pub proof fn law_module_without_dash(first: Seq<char>)
    requires
        forall|i: int| 0 <= i < first.len() ==> first[i] != '-',
    ensures
        module_meaning(first) is None,
{
    line::lemma_position(first, '-', first.len() as int);
}

} // verus!
