//! What every radar brand shares: controls, updates, spokes and ranges.

use vstd::prelude::*;

verus! {

/// Number of values of a sample byte, and of entries in a sample lookup table.
pub const BYTE_LOOKUP_LENGTH: usize = 256;

/// The controls that a radar can have.
#[derive(Clone, Copy, Debug, PartialEq, Eq, Structural, Hash)]
pub enum ControlId {
    AccentLight,
    AntennaForward,
    AntennaHeight,
    AntennaStarboard,
    BearingAlignment,
    BirdMode,
    DeviceTemperature,
    DisplayTiming,
    Doppler,
    DopplerSpeedThreshold,
    FirmwareVersion,
    Gain,
    GuardZone1,
    GuardZone2,
    InterferenceRejection,
    LocalInterferenceRejection,
    MagnetronCurrent,
    MainBangSuppression,
    Mode,
    ModelName,
    NoTransmitSector1,
    NoTransmitSector2,
    NoTransmitSector3,
    NoTransmitSector4,
    NoiseRejection,
    OperatingTime,
    ParkPosition,
    Power,
    PulseWidth,
    Rain,
    Range,
    RangeUnits,
    ScanAverageMode,
    ScanAverageSensitivity,
    ScanSpeed,
    Sea,
    SeaState,
    SerialNumber,
    SideLobeSuppression,
    SupplyVoltage,
    TargetBoost,
    TargetExpansion,
    TargetSeparation,
    TimedIdle,
    TimedRun,
    TransmitChannel,
    TransmitTime,
    Tune,
    TuneFine,
    UserName,
    WarmupTime,
}

/// The power state of a radar.
#[derive(Clone, Copy, Debug, PartialEq, Eq, Structural)]
pub enum Power {
    Off,
    Standby,
    Transmit,
    Preparing,
}

impl Power {
    /// The value of the power control for this state.
    pub open spec fn value(self) -> int {
        match self {
            Power::Off => 0,
            Power::Standby => 1,
            Power::Transmit => 2,
            Power::Preparing => 3,
        }
    }

    /// The value of the power control for this state.
    pub fn control_value(self) -> (r: i32)
        ensures
            r == self.value(),
    {
        match self {
            Power::Off => 0,
            Power::Standby => 1,
            Power::Transmit => 2,
            Power::Preparing => 3,
        }
    }
}

/// Which Doppler returns a radar marks.
#[derive(Clone, Copy, Debug, PartialEq, Eq, Structural)]
pub enum DopplerMode {
    Off,
    Both,
    Approaching,
}

impl DopplerMode {
    /// The value of the Doppler control for this mode.
    pub open spec fn value(self) -> int {
        match self {
            DopplerMode::Off => 0,
            DopplerMode::Both => 1,
            DopplerMode::Approaching => 2,
        }
    }

    /// The value of the Doppler control for this mode.
    pub fn control_value(self) -> (r: i64)
        ensures
            r == self.value(),
    {
        match self {
            DopplerMode::Off => 0,
            DopplerMode::Both => 1,
            DopplerMode::Approaching => 2,
        }
    }

    /// The mode that a Doppler control value stands for, if any.
    pub open spec fn of_value(value: int) -> Option<DopplerMode> {
        if value == 0 {
            Some(DopplerMode::Off)
        } else if value == 1 {
            Some(DopplerMode::Both)
        } else if value == 2 {
            Some(DopplerMode::Approaching)
        } else {
            None
        }
    }

    /// The mode that a Doppler control value stands for.
    pub fn from_value(value: u8) -> (r: Option<DopplerMode>)
        ensures
            r == DopplerMode::of_value(value as int),
    {
        match value {
            0 => Some(DopplerMode::Off),
            1 => Some(DopplerMode::Both),
            2 => Some(DopplerMode::Approaching),
            _ => None,
        }
    }
}

/// One of the two ranges of a dual-range radar. A single-range radar has only A.
#[derive(Clone, Copy, Debug, PartialEq, Eq, Structural)]
pub enum RangeId {
    A,
    B,
}

/// A change of one control.
#[derive(Clone, Copy, Debug, PartialEq, Eq, Structural)]
pub enum Update {
    /// The power state.
    Power(Power),
    /// A new value, in wire units.
    Value { id: ControlId, value: i64 },
    /// A new value together with the automatic flag of the wire.
    Auto { id: ControlId, value: i64, flag: u8 },
    /// A new value together with the adjustment that applies in automatic mode.
    AutoAdjust { id: ControlId, value: i64, adjust: i64 },
    /// A new automatic flag; the value stays.
    AutoState { id: ControlId, auto: bool },
    /// A new automatic flag, set together with the value that the control has,
    /// or with 0 where it has none.
    AutoKept { id: ControlId, auto: bool },
    /// A new value together with the enabled flag of the wire.
    Enabled { id: ControlId, value: i64, flag: u8 },
    /// A sector from `start` to `end`.
    Sector { id: ControlId, start: i64, end: i64, enabled: bool },
    /// A value in 255ths of the whole.
    Fraction { id: ControlId, raw: u8 },
    /// Whether the user may set the control.
    Allowed { id: ControlId, allowed: bool },
}

/// A control change for one of the two ranges.
#[derive(Clone, Copy, Debug, PartialEq, Eq, Structural)]
pub struct Routed {
    pub range: RangeId,
    pub update: Update,
}

/// An IPv4 address and a port.
#[derive(Clone, Copy, Debug, PartialEq, Eq, Structural)]
pub struct Address {
    pub a: u8,
    pub b: u8,
    pub c: u8,
    pub d: u8,
    pub port: u16,
}

impl Address {
    /// The address `a.b.c.d` with a port.
    pub fn new(a: u8, b: u8, c: u8, d: u8, port: u16) -> (r: Address)
        ensures
            r == (Address { a, b, c, d, port }),
    {
        Address { a, b, c, d, port }
    }
}

/// A request to set a control.
#[derive(Clone, Copy, Debug, PartialEq, Eq, Structural)]
pub struct ControlRequest {
    pub id: ControlId,
    /// Whether the request holds a value.
    pub has_value: bool,
    /// The value without its fraction, where it is a number.
    pub number: Option<i32>,
    /// The power state that the value names, where it names one.
    pub power: Option<Power>,
    /// Whether the control is to be automatic.
    pub auto: Option<bool>,
    /// Whether the control is to be enabled.
    pub enabled: Option<bool>,
    /// The end of a sector, in the unit of the value and without its fraction.
    pub end: Option<i32>,
}

/// Why a control cannot be set.
#[derive(Clone, Copy, Debug, PartialEq, Eq, Structural)]
pub enum SetError {
    /// The request holds no number.
    NoNumber,
    /// The radar has no such setting.
    CannotSet(ControlId),
}

impl ControlRequest {
    /// The number that a request stands for. A request that only switches
    /// automatic control on or off stands for the current value.
    pub open spec fn wanted(self, current: Option<i32>) -> Result<i32, SetError> {
        match self.number {
            Some(v) => Ok(v),
            None => if self.auto is Some && !self.has_value {
                Ok(
                    match current {
                        Some(v) => v,
                        None => 0,
                    },
                )
            } else {
                Err(SetError::NoNumber)
            },
        }
    }

    /// The number that a request stands for, given the current value.
    pub fn wanted_value(&self, current: Option<i32>) -> (r: Result<i32, SetError>)
        ensures
            r == self.wanted(current),
    {
        match self.number {
            Some(v) => Ok(v),
            None => if self.auto.is_some() && !self.has_value {
                Ok(
                    match current {
                        Some(v) => v,
                        None => 0,
                    },
                )
            } else {
                Err(SetError::NoNumber)
            },
        }
    }

    /// Whether automatic control is asked for.
    pub open spec fn wants_auto(self) -> bool {
        self.auto == Some(true)
    }

    /// Whether automatic control is asked for.
    pub fn is_auto(&self) -> (r: bool)
        ensures
            r == self.wants_auto(),
    {
        match self.auto {
            Some(a) => a,
            None => false,
        }
    }

    /// Whether transmission is asked for; any other power state stops it.
    pub open spec fn wants_transmit(self) -> bool {
        self.power == Some(Power::Transmit)
    }

    /// Whether transmission is asked for.
    pub fn is_transmit(&self) -> (r: bool)
        ensures
            r == self.wants_transmit(),
    {
        match self.power {
            Some(Power::Transmit) => true,
            _ => false,
        }
    }
}

/// The palette layout that sample lookup tables map into. The Doppler fields
/// hold the first palette index of the direction and the number of indices.
#[derive(Clone, Copy, Debug, PartialEq, Eq)]
pub struct Legend {
    pub pixel_colors: u8,
    pub doppler_approaching: Option<(u8, u8)>,
    pub doppler_receding: Option<(u8, u8)>,
}

/// One line of samples from the antenna outward.
#[derive(Clone, Debug, PartialEq, Eq)]
pub struct Spoke {
    /// Distance of the last sample, in meters.
    pub range: u32,
    /// Direction relative to the bow, in spokes.
    pub angle: u16,
    /// Heading that came with the spoke, in spokes.
    pub heading: Option<u16>,
    pub data: Vec<u8>,
}

/// What a spoke holds.
pub ghost struct SpokeView {
    pub range: u32,
    pub angle: u16,
    pub heading: Option<u16>,
    pub data: Seq<u8>,
}

impl View for Spoke {
    type V = SpokeView;

    open spec fn view(&self) -> SpokeView {
        SpokeView { range: self.range, angle: self.angle, heading: self.heading, data: self.data@ }
    }
}

/// What a list of spokes holds.
pub open spec fn spokes_view(spokes: Seq<Spoke>) -> Seq<SpokeView> {
    Seq::new(spokes.len(), |i: int| spokes[i]@)
}

/// The view of a list that grew by one spoke.
pub proof fn lemma_spokes_push(spokes: Seq<Spoke>, spoke: Spoke)
    ensures
        spokes_view(spokes.push(spoke)) == spokes_view(spokes).push(spoke@),
{
    assert(spokes_view(spokes.push(spoke)) =~= spokes_view(spokes).push(spoke@));
}

/// The values of the power and the Doppler control.
pub proof fn law_control_values(mode: DopplerMode)
    ensures
        Power::Off.value() == 0 && Power::Standby.value() == 1 && Power::Transmit.value() == 2
            && Power::Preparing.value() == 3,
        DopplerMode::Off.value() == 0 && DopplerMode::Both.value() == 1
            && DopplerMode::Approaching.value() == 2,
        DopplerMode::of_value(mode.value()) == Some(mode),
        DopplerMode::of_value(3) is None && DopplerMode::of_value(-1) is None,
{
}

/// A request stands for its number; without one it stands for the value that the control
/// has where it only switches automatic control, and for nothing otherwise.
pub proof fn law_requests(q: ControlRequest, current: Option<i32>)
    ensures
        q.number matches Some(v) ==> q.wanted(current) == Ok::<i32, SetError>(v),
        q.number is None && q.auto is Some && !q.has_value ==> q.wanted(current) == Ok::<
            i32,
            SetError,
        >(if current is Some { current->0 } else { 0 }),
        q.number is None && (q.auto is None || q.has_value) ==> q.wanted(current) is Err,
        q.wants_auto() <==> q.auto == Some(true),
        q.wants_transmit() <==> q.power == Some(Power::Transmit),
{
}

} // verus!
