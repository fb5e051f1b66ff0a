//! Definitions of radar controls.

use vstd::prelude::*;

use crate::radar::ControlId;

verus! {

/// The lists that a control can offer.
#[derive(Clone, Copy, Debug, PartialEq, Eq, Structural)]
pub enum Choices {
    ManualAutoHarbor,
    NauticalMetric,
    NauticalMetricMixed,
    NormalFast,
    NormalFastAuto,
    NormalMediumMediumPlusFast,
    OffLowHigh,
    OffLowMediumHigh,
    OffLowMediumMediumHighHighVeryHigh,
    OffNormalApproaching,
    OffOn,
    OffTarget,
    OffTargetRain,
    ShortLong,
}

impl Choices {
    /// The number of entries.
    pub open spec fn count(self) -> nat {
        match self {
            Choices::ManualAutoHarbor => 3,
            Choices::NauticalMetric => 2,
            Choices::NauticalMetricMixed => 3,
            Choices::NormalFast => 2,
            Choices::NormalFastAuto => 3,
            Choices::NormalMediumMediumPlusFast => 4,
            Choices::OffLowHigh => 3,
            Choices::OffLowMediumHigh => 4,
            Choices::OffLowMediumMediumHighHighVeryHigh => 6,
            Choices::OffNormalApproaching => 3,
            Choices::OffOn => 2,
            Choices::OffTarget => 2,
            Choices::OffTargetRain => 3,
            Choices::ShortLong => 2,
        }
    }

    /// The display name of entry `i`.
    pub open spec fn entry(self, i: int) -> Seq<char> {
        match self {
            Choices::ManualAutoHarbor => if i == 0 {
                "Manual"@
            } else if i == 1 {
                "Auto"@
            } else {
                "Harbor"@
            },
            Choices::NauticalMetric | Choices::NauticalMetricMixed => if i == 0 {
                "Nautical"@
            } else if i == 1 {
                "Metric"@
            } else {
                "Mixed"@
            },
            Choices::NormalFast | Choices::NormalFastAuto => if i == 0 {
                "Normal"@
            } else if i == 1 {
                "Fast"@
            } else {
                "Auto"@
            },
            Choices::NormalMediumMediumPlusFast => if i == 0 {
                "Normal"@
            } else if i == 1 {
                "Medium"@
            } else if i == 2 {
                "Medium Plus"@
            } else {
                "Fast"@
            },
            Choices::OffLowHigh => if i == 0 {
                "Off"@
            } else if i == 1 {
                "Low"@
            } else {
                "High"@
            },
            Choices::OffLowMediumHigh => if i == 0 {
                "Off"@
            } else if i == 1 {
                "Low"@
            } else if i == 2 {
                "Medium"@
            } else {
                "High"@
            },
            Choices::OffLowMediumMediumHighHighVeryHigh => if i == 0 {
                "Off"@
            } else if i == 1 {
                "Low"@
            } else if i == 2 {
                "Medium"@
            } else if i == 3 {
                "Medium High"@
            } else if i == 4 {
                "High"@
            } else {
                "Very High"@
            },
            Choices::OffNormalApproaching => if i == 0 {
                "Off"@
            } else if i == 1 {
                "Normal"@
            } else {
                "Approaching"@
            },
            Choices::OffOn => if i == 0 {
                "Off"@
            } else {
                "On"@
            },
            Choices::OffTarget | Choices::OffTargetRain => if i == 0 {
                "Off"@
            } else if i == 1 {
                "Target"@
            } else {
                "Rain"@
            },
            Choices::ShortLong => if i == 0 {
                "Short"@
            } else {
                "Long"@
            },
        }
    }

    /// The display names.
    pub fn names(&self) -> (r: Vec<&'static str>)
        ensures
            r@.len() == self.count(),
            forall|i: int| 0 <= i < r@.len() ==> (#[trigger] r@[i])@ == self.entry(i),
    {
        match self {
            Choices::ManualAutoHarbor => vec!["Manual", "Auto", "Harbor"],
            Choices::NauticalMetric => vec!["Nautical", "Metric"],
            Choices::NauticalMetricMixed => vec!["Nautical", "Metric", "Mixed"],
            Choices::NormalFast => vec!["Normal", "Fast"],
            Choices::NormalFastAuto => vec!["Normal", "Fast", "Auto"],
            Choices::NormalMediumMediumPlusFast => vec!["Normal", "Medium", "Medium Plus", "Fast"],
            Choices::OffLowHigh => vec!["Off", "Low", "High"],
            Choices::OffLowMediumHigh => vec!["Off", "Low", "Medium", "High"],
            Choices::OffLowMediumMediumHighHighVeryHigh => vec![
                "Off",
                "Low",
                "Medium",
                "Medium High",
                "High",
                "Very High",
            ],
            Choices::OffNormalApproaching => vec!["Off", "Normal", "Approaching"],
            Choices::OffOn => vec!["Off", "On"],
            Choices::OffTarget => vec!["Off", "Target"],
            Choices::OffTargetRain => vec!["Off", "Target", "Rain"],
            Choices::ShortLong => vec!["Short", "Long"],
        }
    }
}

/// The bounds of a number.
#[derive(Clone, Copy, Debug, PartialEq, Eq, Structural)]
pub enum Bounds {
    /// From `min` to `max` thousandths.
    Milli { min: i64, max: i64 },
    /// Half a turn either way, in radians.
    HalfTurn,
}

/// What a control holds.
#[derive(Clone, Copy, Debug, PartialEq, Eq, Structural)]
pub enum Kind {
    Text,
    Number(Bounds),
    /// A number that can also be left to the radar.
    AutoNumber(Bounds),
    Sector(Bounds),
    List(Choices),
}

/// The unit of the wire.
#[derive(Clone, Copy, Debug, PartialEq, Eq, Structural)]
pub enum Unit {
    Plain,
    Amps,
    Celsius,
    Degrees,
    Hours,
    Meters,
    MetersPerSecond,
    Seconds,
    Volts,
}

/// How many wire steps make up one of the control.
#[derive(Clone, Copy, Debug, PartialEq, Eq, Structural)]
pub enum Scale {
    /// So many thousandths.
    Milli(i64),
    /// Degrees for radians.
    DegreesPerRadian,
    /// 1024ths of a turn for radians.
    TurnStepsPerRadian,
}

/// The definition of a control.
#[derive(Clone, Copy, Debug, PartialEq, Eq, Structural)]
pub struct Definition {
    pub id: ControlId,
    pub kind: Kind,
    pub read_only: bool,
    pub unit: Unit,
    pub scale: Scale,
    /// Whether the wire value is signed.
    pub signed: bool,
    /// What is added to the wire value when it is negative or not, in steps.
    pub offset: i64,
    /// Smallest step of the control in thousandths, 0 where it has none.
    pub step_milli: i64,
    /// Whether the control has a switch.
    pub has_enabled: bool,
}

/// A control of this kind, with nothing special about it.
pub open spec fn plain(id: ControlId, kind: Kind) -> Definition {
    Definition {
        id,
        kind,
        read_only: false,
        unit: Unit::Plain,
        scale: Scale::Milli(1000),
        signed: false,
        offset: 0,
        step_milli: 0,
        has_enabled: false,
    }
}

/// A text.
pub open spec fn text(id: ControlId) -> Definition {
    plain(id, Kind::Text)
}

/// A number from `min` to `max`.
pub open spec fn number(id: ControlId, min: int, max: int) -> Definition {
    plain(id, Kind::Number(whole(min, max)))
}

/// A number from `min` to `max` that can be left to the radar.
pub open spec fn auto_number(id: ControlId, min: int, max: int) -> Definition {
    plain(id, Kind::AutoNumber(whole(min, max)))
}

/// A list.
pub open spec fn list(id: ControlId, choices: Choices) -> Definition {
    plain(id, Kind::List(choices))
}

/// A number of half a turn either way.
pub open spec fn half_turn(id: ControlId) -> Definition {
    plain(id, Kind::Number(Bounds::HalfTurn))
}

/// A control whose wire value is in `unit`.
pub open spec fn in_unit(d: Definition, unit: Unit) -> Definition {
    Definition { unit, ..d }
}

/// A control that only shows.
pub open spec fn shown(d: Definition) -> Definition {
    Definition { read_only: true, ..d }
}

/// A control with another scale on the wire.
pub open spec fn scaled(d: Definition, scale: Scale, signed: bool) -> Definition {
    Definition { scale, signed, ..d }
}

/// The list `s`, followed by `d` if `condition` holds.
#[verifier::opaque]
pub open spec fn and_if(s: Seq<Definition>, condition: bool, d: Definition) -> Seq<Definition> {
    if condition { s.push(d) } else { s }
}

/// Whether a list has a control.
pub open spec fn lists(s: Seq<Definition>, id: ControlId) -> bool {
    exists|i: int| 0 <= i < s.len() && #[trigger] s[i].id == id
}

/// Whether no control is listed twice.
pub open spec fn distinct(s: Seq<Definition>) -> bool {
    forall|i: int, j: int|
        0 <= i < j < s.len() ==> #[trigger] s[i].id != #[trigger] s[j].id
}

/// A list stays distinct when a control is added that it does not have.
pub proof fn lemma_and_if(s: Seq<Definition>, condition: bool, d: Definition) -> (r: Seq<
    Definition,
>)
    requires
        distinct(s),
        condition ==> !lists(s, d.id),
    ensures
        r == and_if(s, condition, d),
        distinct(r),
        forall|id: ControlId| #[trigger]
            lists(r, id) == (lists(s, id) || condition && d.id == id),
{
    reveal(and_if);
    let r = and_if(s, condition, d);
    if condition {
        assert(r[s.len() as int].id == d.id);
        assert forall|id: ControlId| #[trigger] lists(r, id) == (lists(s, id) || d.id == id) by {
            if lists(s, id) {
                let i = choose|i: int| 0 <= i < s.len() && #[trigger] s[i].id == id;
                assert(r[i].id == id);
            }
        }
    }    r
}

/// Bounds in whole numbers.
pub open spec fn whole(min: int, max: int) -> Bounds {
    Bounds::Milli { min: (1000 * min) as i64, max: (1000 * max) as i64 }
}

/// Define a control with nothing special about it.
pub fn define(id: ControlId, kind: Kind) -> (r: Definition)
    ensures
        r == plain(id, kind),
{
    Definition {
        id,
        kind,
        read_only: false,
        unit: Unit::Plain,
        scale: Scale::Milli(1000),
        signed: false,
        offset: 0,
        step_milli: 0,
        has_enabled: false,
    }
}

/// Define a text.
pub fn new_string(id: ControlId) -> (r: Definition)
    ensures
        r == text(id),
{
    define(id, Kind::Text)
}

/// Define a number from `min` to `max`.
pub fn new_numeric(id: ControlId, min: i64, max: i64) -> (r: Definition)
    requires
        i64::MIN <= 1000 * min <= i64::MAX,
        i64::MIN <= 1000 * max <= i64::MAX,
    ensures
        r == number(id, min as int, max as int),
{
    define(id, Kind::Number(Bounds::Milli { min: 1000 * min, max: 1000 * max }))
}

/// Define a number from `min` to `max` that can be left to the radar.
pub fn new_auto(id: ControlId, min: i64, max: i64) -> (r: Definition)
    requires
        i64::MIN <= 1000 * min <= i64::MAX,
        i64::MIN <= 1000 * max <= i64::MAX,
    ensures
        r == auto_number(id, min as int, max as int),
{
    define(id, Kind::AutoNumber(Bounds::Milli { min: 1000 * min, max: 1000 * max }))
}

/// Define a list.
pub fn new_list(id: ControlId, choices: Choices) -> (r: Definition)
    ensures
        r == list(id, choices),
{
    define(id, Kind::List(choices))
}

/// Define a number of half a turn either way.
pub fn new_half_turn(id: ControlId) -> (r: Definition)
    ensures
        r == half_turn(id),
{
    define(id, Kind::Number(Bounds::HalfTurn))
}

/// Give the wire value of a control a unit.
pub fn wire_units(d: Definition, unit: Unit) -> (r: Definition)
    ensures
        r == in_unit(d, unit),
{
    Definition { unit, ..d }
}

/// Let a control only show.
pub fn read_only(d: Definition) -> (r: Definition)
    ensures
        r == shown(d),
{
    Definition { read_only: true, ..d }
}

/// Give the wire value of a control another scale.
pub fn wire_scale_factor(d: Definition, scale: Scale, signed: bool) -> (r: Definition)
    ensures
        r == scaled(d, scale, signed),
{
    Definition { scale, signed, ..d }
}

/// Append `d` if `condition` holds.
pub fn push_if(out: &mut Vec<Definition>, condition: bool, d: Definition)
    ensures
        final(out)@ == and_if(old(out)@, condition, d),
{
    reveal(and_if);
    if condition {
        out.push(d);
    }
}

/// What the lists offer, in their order.
pub proof fn law_choices()
    ensures
        Choices::ManualAutoHarbor.count() == 3,
        Choices::ManualAutoHarbor.entry(0) == "Manual"@,
        Choices::ManualAutoHarbor.entry(1) == "Auto"@,
        Choices::ManualAutoHarbor.entry(2) == "Harbor"@,
        Choices::NauticalMetric.count() == 2,
        Choices::NauticalMetric.entry(0) == "Nautical"@,
        Choices::NauticalMetric.entry(1) == "Metric"@,
        Choices::NauticalMetricMixed.count() == 3,
        Choices::NauticalMetricMixed.entry(0) == "Nautical"@,
        Choices::NauticalMetricMixed.entry(1) == "Metric"@,
        Choices::NauticalMetricMixed.entry(2) == "Mixed"@,
        Choices::NormalFast.count() == 2,
        Choices::NormalFast.entry(0) == "Normal"@,
        Choices::NormalFast.entry(1) == "Fast"@,
        Choices::NormalFastAuto.count() == 3,
        Choices::NormalFastAuto.entry(0) == "Normal"@,
        Choices::NormalFastAuto.entry(1) == "Fast"@,
        Choices::NormalFastAuto.entry(2) == "Auto"@,
        Choices::NormalMediumMediumPlusFast.count() == 4,
        Choices::NormalMediumMediumPlusFast.entry(0) == "Normal"@,
        Choices::NormalMediumMediumPlusFast.entry(1) == "Medium"@,
        Choices::NormalMediumMediumPlusFast.entry(2) == "Medium Plus"@,
        Choices::NormalMediumMediumPlusFast.entry(3) == "Fast"@,
        Choices::OffLowHigh.count() == 3,
        Choices::OffLowHigh.entry(0) == "Off"@,
        Choices::OffLowHigh.entry(1) == "Low"@,
        Choices::OffLowHigh.entry(2) == "High"@,
        Choices::OffLowMediumHigh.count() == 4,
        Choices::OffLowMediumHigh.entry(0) == "Off"@,
        Choices::OffLowMediumHigh.entry(1) == "Low"@,
        Choices::OffLowMediumHigh.entry(2) == "Medium"@,
        Choices::OffLowMediumHigh.entry(3) == "High"@,
        Choices::OffLowMediumMediumHighHighVeryHigh.count() == 6,
        Choices::OffLowMediumMediumHighHighVeryHigh.entry(0) == "Off"@,
        Choices::OffLowMediumMediumHighHighVeryHigh.entry(1) == "Low"@,
        Choices::OffLowMediumMediumHighHighVeryHigh.entry(2) == "Medium"@,
        Choices::OffLowMediumMediumHighHighVeryHigh.entry(3) == "Medium High"@,
        Choices::OffLowMediumMediumHighHighVeryHigh.entry(4) == "High"@,
        Choices::OffLowMediumMediumHighHighVeryHigh.entry(5) == "Very High"@,
        Choices::OffNormalApproaching.count() == 3,
        Choices::OffNormalApproaching.entry(0) == "Off"@,
        Choices::OffNormalApproaching.entry(1) == "Normal"@,
        Choices::OffNormalApproaching.entry(2) == "Approaching"@,
        Choices::OffOn.count() == 2,
        Choices::OffOn.entry(0) == "Off"@,
        Choices::OffOn.entry(1) == "On"@,
        Choices::OffTarget.count() == 2,
        Choices::OffTarget.entry(0) == "Off"@,
        Choices::OffTarget.entry(1) == "Target"@,
        Choices::OffTargetRain.count() == 3,
        Choices::OffTargetRain.entry(0) == "Off"@,
        Choices::OffTargetRain.entry(1) == "Target"@,
        Choices::OffTargetRain.entry(2) == "Rain"@,
        Choices::ShortLong.count() == 2,
        Choices::ShortLong.entry(0) == "Short"@,
        Choices::ShortLong.entry(1) == "Long"@,
{
}

/// A control is what it was made as: its bounds are in thousandths, and what is not said of
/// it is not so.
pub proof fn law_definitions(id: ControlId, min: int, max: int, choices: Choices)
    requires
        -1_000_000_000 <= min <= max <= 4_294_967_295,
    ensures
        number(id, min, max).kind == Kind::Number(
            Bounds::Milli { min: (1000 * min) as i64, max: (1000 * max) as i64 },
        ),
        auto_number(id, min, max).kind == Kind::AutoNumber(
            Bounds::Milli { min: (1000 * min) as i64, max: (1000 * max) as i64 },
        ),
        list(id, choices).kind == Kind::List(choices),
        text(id).kind == Kind::Text,
        half_turn(id).kind == Kind::Number(Bounds::HalfTurn),
        number(id, min, max).id == id && auto_number(id, min, max).id == id && list(id, choices).id
            == id && text(id).id == id && half_turn(id).id == id,
        forall|kind: Kind| {
            let d = #[trigger] plain(id, kind);
            !d.read_only && d.unit == Unit::Plain && d.scale == Scale::Milli(1000) && !d.signed
                && d.offset == 0 && d.step_milli == 0 && !d.has_enabled
        },
        shown(number(id, min, max)).read_only,
        shown(number(id, min, max)).kind == number(id, min, max).kind,
{
}

/// Adding a control under a condition adds it at the end where the condition holds.
pub proof fn law_conditional_controls(s: Seq<Definition>, d: Definition)
    ensures
        and_if(s, true, d) == s.push(d),
        and_if(s, false, d) == s,
{
    reveal(and_if);
}

} // verus!
