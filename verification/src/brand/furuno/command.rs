//! Commands to a Furuno radar.

use vstd::prelude::*;

use super::line;
use super::protocol;
use super::protocol::{
    meters_to_wire_index_for_unit, wire_unit_for_meters, CommandId, CommandMode, WIRE_UNIT_KM,
    WIRE_UNIT_NM,
};
use super::status;
use crate::bytes;
use crate::radar::{ControlId, ControlRequest, Power, RangeId, SetError, Update};
use crate::text;
use crate::text::{push_hex, push_signed};

verus! {

/// A command line.
#[derive(Clone, Debug, PartialEq, Eq)]
pub struct CommandLine {
    pub mode: CommandMode,
    pub id: CommandId,
    pub args: Vec<i32>,
}

/// What a command line holds.
pub ghost struct CommandView {
    pub mode: CommandMode,
    pub id: CommandId,
    pub args: Seq<i32>,
}

impl View for CommandLine {
    type V = CommandView;

    open spec fn view(&self) -> CommandView {
        CommandView { mode: self.mode, id: self.id, args: self.args@ }
    }
}

/// What a list of command lines holds.
pub open spec fn commands_view(c: Seq<CommandLine>) -> Seq<CommandView> {
    Seq::new(c.len(), |i: int| c[i]@)
}

/// Arguments in decimal, each after a comma.
pub open spec fn argument_text(args: Seq<i32>) -> Seq<char>
    decreases args.len(),
{
    if args.len() == 0 {
        Seq::empty()
    } else {
        argument_text(args.drop_last()) + seq![','] + text::signed_decimal(args.last() as int)
    }
}

/// The text of a command line. It ends with `commas` empty arguments, and with
/// a full line end only when there are none.
pub open spec fn message_text(c: CommandView, commas: nat) -> Seq<char> {
    seq!['$', c.mode.letter()] + text::hex_byte(c.id.code() as int) + argument_text(c.args)
        + Seq::new(commas, |i: int| ',') + (if commas == 0 {
        seq!['\r', '\n']
    } else {
        seq!['\n']
    })
}

impl CommandLine {
    /// The text of the command line with so many empty arguments at its end.
    pub fn message_with_commas(&self, commas: u32) -> (r: String)
        ensures
            r@ == message_text(self@, commas as nat),
    {
        let mut message = String::new();
        message.push('$');
        message.push(self.mode.to_char());
        push_hex(&mut message, self.id.to_u8());
        let ghost head = seq!['$', self.mode.letter()] + text::hex_byte(self.id.code() as int);
        assert(message@ =~= head);
        let mut i: usize = 0;
        assert(argument_text(self.args@.take(0)) =~= Seq::<char>::empty());
        while i < self.args.len()
            invariant
                i <= self.args@.len(),
                message@ =~= head + argument_text(self.args@.take(i as int)),
            decreases self.args@.len() - i,
        {
            message.push(',');
            push_signed(&mut message, self.args[i]);
            i += 1;
            assert(self.args@.take(i as int).drop_last() =~= self.args@.take(i - 1));
        }
        assert(self.args@.take(i as int) =~= self.args@);
        let ghost body = message@;
        let mut k: u32 = 0;
        while k < commas
            invariant
                k <= commas,
                message@ =~= body + Seq::new(k as nat, |j: int| ','),
            decreases commas - k,
        {
            message.push(',');
            k += 1;
        }
        if commas == 0 {
            message.push('\r');
        }
        message.push('\n');
        assert(message@ =~= message_text(self@, commas as nat));
        message
    }

    /// The text of the command line.
    pub fn message(&self) -> (r: String)
        ensures
            r@ == message_text(self@, 0),
    {
        self.message_with_commas(0)
    }
}

/// A no-transmit sector in degrees.
#[derive(Clone, Copy, Debug, PartialEq, Eq, Structural)]
pub struct Zone {
    pub start: i32,
    pub end: i32,
    pub enabled: bool,
}

/// The state of the controls that commands depend on. The values are those of
/// the range that a command is for, without their fractions.
#[derive(Clone, Copy, Debug, PartialEq, Eq, Structural)]
pub struct ControlState {
    /// Value of the control that is being set.
    pub current: Option<i32>,
    /// Whether the power control says that the radar transmits.
    pub transmitting: bool,
    pub timed_idle: Option<i32>,
    pub timed_run: Option<i32>,
    pub range: Option<i32>,
    /// The no-transmit sectors; off and empty where there are none.
    pub zone1: Zone,
    pub zone2: Zone,
}

/// The controls that a radar has.
#[derive(Clone, Copy, Debug, PartialEq, Eq, Structural)]
pub struct ControlSet {
    pub pulse_width: bool,
    pub tune: bool,
    pub scan_speed: bool,
    pub main_bang_suppression: bool,
    pub bird_mode: bool,
}

/// Sends commands to a radar.
#[derive(Clone, Copy, Debug, PartialEq, Eq, Structural)]
pub struct Command {
    /// 0 while range A is being set, 1 for range B.
    pub dual_range_id: i32,
    /// The controls that the radar has.
    pub controls: ControlSet,
}

/// The width of a sector in degrees, clockwise from its start to its end.
pub open spec fn zone_width(z: Zone) -> int {
    if z.end >= z.start { z.end - z.start } else { 360 + z.end - z.start }
}

/// The arguments that blank the given sectors. The first sector is on wherever
/// it has a width; the second has a switch.
pub open spec fn blind_sector_args(z1: Zone, z2: Zone) -> Seq<i32> {
    seq![
        if z2.enabled && zone_width(z2) > 0 { 1i32 } else { 0i32 },
        z1.start,
        zone_width(z1) as i32,
        z2.start,
        zone_width(z2) as i32,
    ]
}

/// The seconds of a ten-minute cycle that remain for standby, at least 60.
pub open spec fn standby_period(transmit: int) -> int {
    if 600 - transmit < 60 { 60 } else { 600 - transmit }
}

/// A value, or another where there is none.
pub open spec fn value_or(v: Option<i32>, default: i32) -> i32 {
    match v {
        Some(x) => x,
        None => default,
    }
}

/// The arguments of a status command.
pub open spec fn status_args(transmit: bool, drid: i32, idle: i32, run: i32) -> Seq<i32> {
    seq![if transmit { 2i32 } else { 1i32 }, drid, idle, run, standby_period(run as int) as i32, 0]
}

/// The wire index nearest to a distance in a unit.
pub open spec fn chosen_index(meters: i32, unit: i32) -> i32 {
    choose|index: i32| protocol::nearest_index(protocol::slots(unit), meters, index)
}

/// The command that sets a control and its arguments.
pub open spec fn set_args(request: ControlRequest, drid: i32, state: ControlState) -> Result<
    (CommandId, Seq<i32>),
    SetError,
> {
    match request.wanted(state.current) {
        Err(e) => Err(e),
        Ok(value) => {
            let auto = if request.wants_auto() { 1i32 } else { 0i32 };
            let zone = Zone {
                start: value,
                end: value_or(request.end, 0),
                enabled: request.enabled == Some(true),
            };
            match request.id {
                ControlId::Power => if request.has_value {
                    Ok(
                        (
                            CommandId::Status,
                            status_args(
                                request.wants_transmit(),
                                drid,
                                value_or(state.timed_idle, 0),
                                value_or(state.timed_run, 60),
                            ),
                        ),
                    )
                } else {
                    Err(SetError::NoNumber)
                },
                ControlId::TimedIdle => Ok(
                    (
                        CommandId::Status,
                        status_args(state.transmitting, drid, value, value_or(state.timed_run, 60)),
                    ),
                ),
                ControlId::TimedRun => Ok(
                    (
                        CommandId::Status,
                        status_args(state.transmitting, drid, value_or(state.timed_idle, 0), value),
                    ),
                ),
                ControlId::Range => {
                    let unit = protocol::unit_for(value);
                    Ok((CommandId::Range, seq![chosen_index(value, unit), unit, drid]))
                },
                ControlId::RangeUnits => {
                    let unit = if value == 1 { WIRE_UNIT_KM } else { WIRE_UNIT_NM };
                    Ok(
                        (
                            CommandId::Range,
                            seq![chosen_index(value_or(state.range, 11112), unit), unit, drid],
                        ),
                    )
                },
                ControlId::Gain => Ok((CommandId::Gain, seq![auto, value, drid, 80, 0])),
                ControlId::Sea => Ok((CommandId::Sea, seq![auto, value, 50, drid, 0, 0])),
                ControlId::Rain => Ok((CommandId::Rain, seq![auto, value, 0, drid, 0, 0])),
                ControlId::NoTransmitSector1 => Ok(
                    (CommandId::BlindSector, blind_sector_args(zone, state.zone2)),
                ),
                ControlId::NoTransmitSector2 => Ok(
                    (CommandId::BlindSector, blind_sector_args(state.zone1, zone)),
                ),
                ControlId::ScanSpeed => Ok((CommandId::ScanSpeed, seq![value, 0])),
                ControlId::Tune => Ok((CommandId::Tune, seq![auto, value, drid])),
                ControlId::AntennaHeight => Ok((CommandId::AntennaHeight, seq![0, value, 0])),
                ControlId::MainBangSuppression => Ok(
                    (
                        CommandId::MainBangSize,
                        seq![bytes::quotient(value * 255, 100) as i32, 0],
                    ),
                ),
                ControlId::NoiseRejection => Ok(
                    (CommandId::SignalProcessing, seq![0, 3, if value > 0 { 1i32 } else { 0i32 }, 0]),
                ),
                ControlId::InterferenceRejection => Ok(
                    (CommandId::SignalProcessing, seq![0, 0, if value > 0 { 2i32 } else { 0i32 }, 0]),
                ),
                ControlId::TargetSeparation => Ok((CommandId::RezBoost, seq![value, 0])),
                ControlId::BirdMode => Ok((CommandId::BirdMode, seq![value, 0])),
                ControlId::Doppler => Ok(
                    (
                        CommandId::TargetAnalyzer,
                        if value == 1 {
                            seq![1, 0, 0]
                        } else if value == 2 {
                            seq![1, 1, 0]
                        } else {
                            seq![0, 0, 0]
                        },
                    ),
                ),
                _ => Err(SetError::CannotSet(request.id)),
            }
        },
    }
}

/// Whether the sums that setting a control takes fit in 32 bits.
pub open spec fn settable(request: ControlRequest, state: ControlState) -> bool {
    request.wanted(state.current) matches Ok(value) ==> {
        let zone = Zone {
            start: value,
            end: value_or(request.end, 0),
            enabled: request.enabled == Some(true),
        };
        match request.id {
            ControlId::Power | ControlId::TimedIdle => 600 - value_or(state.timed_run, 60)
                <= i32::MAX,
            ControlId::TimedRun => 600 - value <= i32::MAX,
            ControlId::MainBangSuppression => i32::MIN <= value * 255 <= i32::MAX,
            ControlId::NoTransmitSector1 => zone_fits(zone) && zone_fits(state.zone2),
            ControlId::NoTransmitSector2 => zone_fits(state.zone1) && zone_fits(zone),
            _ => true,
        }
    }
}

/// Whether the width of a sector can be computed in 32 bits.
pub open spec fn zone_fits(z: Zone) -> bool {
    if z.end >= z.start {
        z.end - z.start <= i32::MAX
    } else {
        360 + z.end <= i32::MAX && i32::MIN <= 360 + z.end - z.start <= i32::MAX
    }
}

/// Whether the width of a sector can be computed in 32 bits.
pub fn is_zone_computable(z: &Zone) -> (r: bool)
    ensures
        r == zone_fits(*z),
{
    let start: i64 = z.start as i64;
    let end: i64 = z.end as i64;
    if end >= start {
        end - start <= i32::MAX as i64
    } else {
        360 + end <= i32::MAX as i64 && 360 + end - start >= i32::MIN as i64 && 360 + end - start
            <= i32::MAX as i64
    }
}

/// Whether the sums that setting a control takes fit in 32 bits.
pub fn is_settable(request: &ControlRequest, state: &ControlState) -> (r: bool)
    ensures
        r == settable(*request, *state),
{
    let value: i32 = match request.wanted_value(state.current) {
        Ok(v) => v,
        Err(_) => {
            return true;
        },
    };
    let zone = request_zone(request, value);
    match request.id {
        ControlId::Power | ControlId::TimedIdle => 600 - (or_value(state.timed_run, 60) as i64)
            <= i32::MAX as i64,
        ControlId::TimedRun => 600 - (value as i64) <= i32::MAX as i64,
        ControlId::MainBangSuppression => {
            let scaled: i64 = value as i64 * 255;
            scaled >= i32::MIN as i64 && scaled <= i32::MAX as i64
        },
        ControlId::NoTransmitSector1 => is_zone_computable(&zone) && is_zone_computable(
            &state.zone2,
        ),
        ControlId::NoTransmitSector2 => is_zone_computable(&state.zone1) && is_zone_computable(
            &zone,
        ),
        _ => true,
    }
}

fn or_value(v: Option<i32>, default: i32) -> (r: i32)
    ensures
        r == value_or(v, default),
{
    match v {
        Some(x) => x,
        None => default,
    }
}

fn request_zone(request: &ControlRequest, value: i32) -> (r: Zone)
    ensures
        r == (Zone {
            start: value,
            end: value_or(request.end, 0),
            enabled: request.enabled == Some(true),
        }),
{
    let enabled = match request.enabled {
        Some(e) => e,
        None => false,
    };
    Zone { start: value, end: or_value(request.end, 0), enabled }
}

fn width(z: &Zone) -> (r: i32)
    requires
        zone_fits(*z),
    ensures
        r == zone_width(*z),
{
    if z.end >= z.start {
        z.end - z.start
    } else {
        360 + z.end - z.start
    }
}

fn fill_blind_sector(z1: &Zone, z2: &Zone) -> (r: Vec<i32>)
    requires
        zone_fits(*z1),
        zone_fits(*z2),
    ensures
        r@ == blind_sector_args(*z1, *z2),
{
    let s1_width: i32 = width(z1);
    let s2_width: i32 = width(z2);
    let s2_enable: i32 = if z2.enabled && s2_width > 0 {
        1
    } else {
        0
    };
    let r: Vec<i32> = vec![s2_enable, z1.start, s1_width, z2.start, s2_width];
    assert(r@ =~= blind_sector_args(*z1, *z2));
    r
}

fn status_command(transmit: bool, drid: i32, idle: i32, run: i32) -> (r: Vec<i32>)
    requires
        600 - run <= i32::MAX,
    ensures
        r@ == status_args(transmit, drid, idle, run),
{
    let status: i32 = if transmit {
        2
    } else {
        1
    };
    let stop: i32 = if 600 - run < 60 {
        60
    } else {
        600 - run
    };
    let r: Vec<i32> = vec![status, drid, idle, run, stop, 0];
    assert(r@ =~= status_args(transmit, drid, idle, run));
    r
}

fn range_command(meters: i32, unit: i32, drid: i32) -> (r: Vec<i32>)
    requires
        unit == WIRE_UNIT_KM || unit == WIRE_UNIT_NM,
    ensures
        r@ == seq![chosen_index(meters, unit), unit, drid],
{
    let index: i32 = meters_to_wire_index_for_unit(meters, unit);
    proof {
        protocol::law_nearest_index_unique(unit, meters, index, chosen_index(meters, unit));
    }
    let r: Vec<i32> = vec![index, unit, drid];
    assert(r@ =~= seq![chosen_index(meters, unit), unit, drid]);
    r
}

/// Build the arguments for setting a control.
pub fn build_set(request: &ControlRequest, drid: i32, state: &ControlState) -> (r: Result<
    (CommandId, Vec<i32>),
    SetError,
>)
    requires
        settable(*request, *state),
    ensures
        match r {
            Ok(c) => set_args(*request, drid, *state) == Ok::<(CommandId, Seq<i32>), SetError>(
                (c.0, c.1@),
            ),
            Err(e) => set_args(*request, drid, *state) == Err::<(CommandId, Seq<i32>), SetError>(e),
        },
{
    let value: i32 = match request.wanted_value(state.current) {
        Ok(v) => v,
        Err(e) => {
            return Err(e);
        },
    };
    let auto: i32 = if request.is_auto() {
        1
    } else {
        0
    };
    let zone = request_zone(request, value);
    let ghost wanted = set_args(*request, drid, *state);
    let (id, args): (CommandId, Vec<i32>) = match request.id {
        ControlId::Power => {
            if !request.has_value {
                return Err(SetError::NoNumber);
            }
            (
                CommandId::Status,
                status_command(
                    request.is_transmit(),
                    drid,
                    or_value(state.timed_idle, 0),
                    or_value(state.timed_run, 60),
                ),
            )
        },
        ControlId::TimedIdle => (
            CommandId::Status,
            status_command(state.transmitting, drid, value, or_value(state.timed_run, 60)),
        ),
        ControlId::TimedRun => (
            CommandId::Status,
            status_command(state.transmitting, drid, or_value(state.timed_idle, 0), value),
        ),
        ControlId::Range => (
            CommandId::Range,
            range_command(value, wire_unit_for_meters(value), drid),
        ),
        ControlId::RangeUnits => {
            let unit: i32 = if value == 1 {
                WIRE_UNIT_KM
            } else {
                WIRE_UNIT_NM
            };
            (CommandId::Range, range_command(or_value(state.range, 11112), unit, drid))
        },
        ControlId::Gain => (CommandId::Gain, vec![auto, value, drid, 80, 0]),
        ControlId::Sea => (CommandId::Sea, vec![auto, value, 50, drid, 0, 0]),
        ControlId::Rain => (CommandId::Rain, vec![auto, value, 0, drid, 0, 0]),
        ControlId::NoTransmitSector1 => (
            CommandId::BlindSector,
            fill_blind_sector(&zone, &state.zone2),
        ),
        ControlId::NoTransmitSector2 => (
            CommandId::BlindSector,
            fill_blind_sector(&state.zone1, &zone),
        ),
        ControlId::ScanSpeed => (CommandId::ScanSpeed, vec![value, 0]),
        ControlId::Tune => (CommandId::Tune, vec![auto, value, drid]),
        ControlId::AntennaHeight => (CommandId::AntennaHeight, vec![0, value, 0]),
        ControlId::MainBangSuppression => (
            CommandId::MainBangSize,
            vec![bytes::divide(value * 255, 100), 0],
        ),
        ControlId::NoiseRejection => {
            let enabled: i32 = if value > 0 {
                1
            } else {
                0
            };
            (CommandId::SignalProcessing, vec![0, 3, enabled, 0])
        },
        ControlId::InterferenceRejection => {
            let enabled: i32 = if value > 0 {
                2
            } else {
                0
            };
            (CommandId::SignalProcessing, vec![0, 0, enabled, 0])
        },
        ControlId::TargetSeparation => (CommandId::RezBoost, vec![value, 0]),
        ControlId::BirdMode => (CommandId::BirdMode, vec![value, 0]),
        ControlId::Doppler => {
            let enabled: i32 = if value == 1 || value == 2 {
                1
            } else {
                0
            };
            let mode: i32 = if value == 2 {
                1
            } else {
                0
            };
            (CommandId::TargetAnalyzer, vec![enabled, mode, 0])
        },
        _ => {
            return Err(SetError::CannotSet(request.id));
        },
    };
    assert(args@ =~= (wanted->Ok_0).1);
    Ok((id, args))
}

/// A request without arguments.
pub open spec fn ask(id: CommandId) -> CommandView {
    CommandView { mode: CommandMode::Request, id, args: Seq::empty() }
}

/// A request with arguments.
pub open spec fn ask_with(id: CommandId, args: Seq<i32>) -> CommandView {
    CommandView { mode: CommandMode::Request, id, args }
}

/// The list `s`, if `condition` holds.
pub open spec fn only_if(condition: bool, s: Seq<CommandView>) -> Seq<CommandView> {
    if condition { s } else { Seq::empty() }
}

/// The requests for the state of all controls that the radar has.
pub open spec fn init_commands(c: ControlSet) -> Seq<CommandView> {
    seq![
        ask(CommandId::Modules),
        ask_with(CommandId::OnTime, seq![0]),
        ask_with(CommandId::TxTime, seq![0]),
        ask(CommandId::Status),
        ask(CommandId::Range),
    ] + only_if(c.pulse_width, seq![ask(CommandId::PulseWidth)]) + seq![
        ask(CommandId::Gain),
        ask(CommandId::Sea),
        ask(CommandId::Rain),
    ] + only_if(c.tune, seq![ask(CommandId::Tune)]) + only_if(
        c.scan_speed,
        seq![ask(CommandId::ScanSpeed)],
    ) + only_if(
        c.main_bang_suppression,
        seq![ask_with(CommandId::MainBangSize, seq![0, 0])],
    ) + seq![ask(CommandId::BlindSector)] + only_if(
        c.bird_mode,
        seq![
            ask_with(CommandId::SignalProcessing, seq![0, 3]),
            ask_with(CommandId::SignalProcessing, seq![0, 0]),
            ask(CommandId::RezBoost),
            ask(CommandId::BirdMode),
            ask(CommandId::TargetAnalyzer),
        ],
    )
}

fn push_ask(out: &mut Vec<CommandLine>, id: CommandId, args: Vec<i32>)
    ensures
        commands_view(final(out)@) == commands_view(old(out)@).push(ask_with(id, args@)),
{
    out.push(CommandLine { mode: CommandMode::Request, id, args });
    assert(commands_view(out@) =~= commands_view(old(out)@).push(ask_with(id, args@)));
}

fn push_request(out: &mut Vec<CommandLine>, id: CommandId)
    ensures
        commands_view(final(out)@) == commands_view(old(out)@).push(ask(id)),
{
    push_ask(out, id, Vec::new());
    assert(ask_with(id, Seq::empty()) == ask(id));
}

fn numbers1(a: i32) -> (r: Vec<i32>)
    ensures
        r@ == seq![a],
{
    let r: Vec<i32> = vec![a];
    assert(r@ =~= seq![a]);
    r
}

fn numbers2(a: i32, b: i32) -> (r: Vec<i32>)
    ensures
        r@ == seq![a, b],
{
    let r: Vec<i32> = vec![a, b];
    assert(r@ =~= seq![a, b]);
    r
}

impl Command {
    /// The commands that set a control: the setting itself and the requests
    /// that follow every setting.
    pub open spec fn set_commands(self, request: ControlRequest, state: ControlState) -> Result<
        Seq<CommandView>,
        SetError,
    > {
        match set_args(request, self.dual_range_id, state) {
            Ok((id, args)) => Ok(
                seq![
                    CommandView { mode: CommandMode::Write, id, args },
                    ask(CommandId::CustomPictureAll),
                ] + only_if(self.controls.pulse_width, seq![ask(CommandId::PulseWidth)]),
            ),
            Err(e) => Err(e),
        }
    }

    /// The requests for the state of all controls.
    #[verifier::spinoff_prover]
    #[verifier::rlimit(30)]
    pub fn init(&self) -> (r: Vec<CommandLine>)
        ensures
            commands_view(r@) == init_commands(self.controls),
    {
        let mut out: Vec<CommandLine> = Vec::new();
        push_request(&mut out, CommandId::Modules);
        push_ask(&mut out, CommandId::OnTime, numbers1(0));
        push_ask(&mut out, CommandId::TxTime, numbers1(0));
        push_request(&mut out, CommandId::Status);
        push_request(&mut out, CommandId::Range);
        if self.controls.pulse_width {
            push_request(&mut out, CommandId::PulseWidth);
        }
        push_request(&mut out, CommandId::Gain);
        push_request(&mut out, CommandId::Sea);
        push_request(&mut out, CommandId::Rain);
        if self.controls.tune {
            push_request(&mut out, CommandId::Tune);
        }
        if self.controls.scan_speed {
            push_request(&mut out, CommandId::ScanSpeed);
        }
        if self.controls.main_bang_suppression {
            push_ask(&mut out, CommandId::MainBangSize, numbers2(0, 0));
        }
        push_request(&mut out, CommandId::BlindSector);
        if self.controls.bird_mode {
            push_ask(&mut out, CommandId::SignalProcessing, numbers2(0, 3));
            push_ask(&mut out, CommandId::SignalProcessing, numbers2(0, 0));
            push_request(&mut out, CommandId::RezBoost);
            push_request(&mut out, CommandId::BirdMode);
            push_request(&mut out, CommandId::TargetAnalyzer);
        }
        assert(commands_view(out@) =~= init_commands(self.controls));
        out
    }

    /// The requests that are sent at regular intervals.
    pub fn send_report_requests(&self) -> (r: Vec<CommandLine>)
        ensures
            commands_view(r@) == seq![ask(CommandId::AliveCheck)] + init_commands(self.controls),
    {
        let mut out: Vec<CommandLine> = Vec::new();
        push_request(&mut out, CommandId::AliveCheck);
        let mut rest = self.init();
        let ghost all = rest@;
        let ghost first = out@;
        out.append(&mut rest);
        assert(commands_view(first) =~= seq![ask(CommandId::AliveCheck)]);
        assert(commands_view(out@) =~= commands_view(first) + commands_view(all));
        assert(commands_view(out@) =~= seq![ask(CommandId::AliveCheck)] + commands_view(all));
        out
    }

    /// The commands that set a control.
    pub fn set_control(&self, request: &ControlRequest, state: &ControlState) -> (r: Result<
        Vec<CommandLine>,
        SetError,
    >)
        requires
            settable(*request, *state),
        ensures
            match r {
                Ok(v) => self.set_commands(*request, *state) == Ok::<Seq<CommandView>, SetError>(
                    commands_view(v@),
                ),
                Err(e) => self.set_commands(*request, *state) == Err::<Seq<CommandView>, SetError>(
                    e,
                ),
            },
    {
        match build_set(request, self.dual_range_id, state) {
            Err(e) => Err(e),
            Ok((id, args)) => {
                let mut out: Vec<CommandLine> = Vec::new();
                out.push(CommandLine { mode: CommandMode::Write, id, args });
                push_request(&mut out, CommandId::CustomPictureAll);
                if self.controls.pulse_width {
                    push_request(&mut out, CommandId::PulseWidth);
                }
                assert(commands_view(out@) =~= self.set_commands(*request, *state)->Ok_0);
                Ok(out)
            },
        }
    }
}

/// A whole number as it comes back in a report.
pub open spec fn echoed(args: Seq<i32>) -> Seq<status::Number> {
    Seq::new(args.len(), |i: int| status::Number { whole: args[i] as i64, exact: true })
}

/// Setting a distance of the range tables and hearing the radar report the same
/// arguments gives that distance back.
pub proof fn law_range_comes_back(
    request: ControlRequest,
    state: ControlState,
    has_b: bool,
    drid: i32,
)
    requires
        request.id == ControlId::Range,
        request.number is Some,
        protocol::has_distance(protocol::WIRE_INDEX_TABLE@, request.number->0)
            || protocol::has_distance(protocol::WIRE_INDEX_TABLE_KM@, request.number->0),
    ensures
        ({
            let meters = request.number->0;
            let (id, args) = set_args(request, drid, state)->Ok_0;
            let range = status::target(has_b, CommandId::Range, echoed(args));
            &&& id == CommandId::Range
            &&& status::report_actions(has_b, id, echoed(args)) == Ok::<
                Seq<status::ReportAction>,
                super::line::ReportError,
            >(
                seq![
                    status::set(range, ControlId::Range, meters as int),
                    status::set(
                        range,
                        ControlId::RangeUnits,
                        if protocol::unit_for(meters) == WIRE_UNIT_KM { 1 } else { 0 },
                    ),
                ],
            )
        }),
{
    let meters = request.number->0;
    let unit = protocol::unit_for(meters);
    let table = protocol::slots(unit);
    let index = chosen_index(meters, unit);
    assert(protocol::has_distance(table, meters));
    let i = choose|i: int| 0 <= i < table.len() && (#[trigger] table[i]).1 == meters;
    assert(table[i] == (table[i].0, meters));
    protocol::law_wire_index_round_trip(unit, table[i].0, meters);
    protocol::law_supported_distance_round_trip(meters, index);
    protocol::lemma_slot_meters(unit, index, Some(meters));
}

/// Setting the target analyzer and hearing it echoed gives its value back.
pub proof fn law_doppler_comes_back(
    request: ControlRequest,
    state: ControlState,
    has_b: bool,
    drid: i32,
)
    requires
        request.id == ControlId::Doppler,
        request.number is Some,
        0 <= request.number->0 <= 2,
    ensures
        ({
            let (id, args) = set_args(request, drid, state)->Ok_0;
            status::report_actions(has_b, id, echoed(args)) == Ok::<
                Seq<status::ReportAction>,
                super::line::ReportError,
            >(seq![status::set_a(ControlId::Doppler, request.number->0 as int)])
        }),
{
}

/// Setting noise or interference rejection and hearing it echoed gives back
/// whether it is on.
pub proof fn law_rejection_comes_back(
    request: ControlRequest,
    state: ControlState,
    has_b: bool,
    drid: i32,
)
    requires
        request.id == ControlId::NoiseRejection || request.id
            == ControlId::InterferenceRejection,
        request.number is Some,
    ensures
        ({
            let (id, args) = set_args(request, drid, state)->Ok_0;
            status::report_actions(has_b, id, echoed(args)) == Ok::<
                Seq<status::ReportAction>,
                super::line::ReportError,
            >(seq![status::set_a(request.id, if request.number->0 > 0 { 1 } else { 0 })])
        }),
{
}

/// A main bang suppression percentage comes back as set or one percent less.
pub proof fn law_main_bang_comes_back(
    request: ControlRequest,
    state: ControlState,
    has_b: bool,
    drid: i32,
)
    requires
        request.id == ControlId::MainBangSuppression,
        request.number is Some,
        0 <= request.number->0 <= 100,
    ensures
        ({
            let percent = request.number->0;
            let (id, args) = set_args(request, drid, state)->Ok_0;
            let back = bytes::quotient(echoed(args)[0].as_i32() * 100, 255);
            &&& status::report_actions(has_b, id, echoed(args)) == Ok::<
                Seq<status::ReportAction>,
                super::line::ReportError,
            >(seq![status::set_a(ControlId::MainBangSuppression, back)])
            &&& percent - 1 <= back <= percent
        }),
{
}

/// A sector's width takes its start to its end.
pub proof fn law_zone_width(z: Zone)
    requires
        0 <= z.start < 360,
        0 <= z.end < 360,
    ensures
        (z.start + zone_width(z)) % 360 == z.end as int,
        0 <= zone_width(z) < 360,
{
}

/// The range that is set with a dual-range identifier, on a radar with or without two.
pub open spec fn set_range(has_b: bool, drid: i32) -> RangeId {
    if has_b && drid == 1 { RangeId::B } else { RangeId::A }
}

/// Setting the power and hearing the radar report the same arguments gives the power
/// state back, on the range that it was set for, and leaves the timed transmission as it
/// was.
pub proof fn law_power_comes_back(
    request: ControlRequest,
    state: ControlState,
    has_b: bool,
    drid: i32,
)
    requires
        request.id == ControlId::Power,
        request.has_value,
        request.wanted(state.current) is Ok,
        drid == 0 || drid == 1,
    ensures
        ({
            let range = set_range(has_b, drid);
            let wanted = if request.power == Some(Power::Transmit) {
                Power::Transmit
            } else {
                Power::Standby
            };
            &&& set_args(request, drid, state) matches Ok((id, args))
            &&& status::report_actions(has_b, id, echoed(args)) matches Ok(actions)
            &&& actions.len() >= 3
            &&& {
                &&& actions[0] == status::ReportAction::Change {
                    range,
                    update: Update::Power(wanted),
                }
                &&& state.timed_idle matches Some(idle) ==> actions[1] == status::set(
                    range,
                    ControlId::TimedIdle,
                    idle as int,
                )
                &&& actions[2] matches status::ReportAction::SetFromField {
                    range: at,
                    id: ControlId::TimedRun,
                    field,
                } && at == range && field < args.len() && (state.timed_run matches Some(run)
                    ==> args[field as int] == run)
            }
        }),
{
}

/// Setting the timed transmission and hearing it echoed gives it back, and whether the
/// radar transmits stays.
pub proof fn law_timed_transmission_comes_back(
    request: ControlRequest,
    state: ControlState,
    has_b: bool,
    drid: i32,
)
    requires
        request.id == ControlId::TimedIdle || request.id == ControlId::TimedRun,
        request.number is Some,
        drid == 0 || drid == 1,
    ensures
        ({
            let range = set_range(has_b, drid);
            let value = request.number->0;
            &&& set_args(request, drid, state) matches Ok((id, args))
            &&& status::report_actions(has_b, id, echoed(args)) matches Ok(actions)
            &&& actions.len() >= 3
            &&& {
                &&& actions[0] == status::ReportAction::Change {
                    range,
                    update: Update::Power(
                        if state.transmitting { Power::Transmit } else { Power::Standby },
                    ),
                }
                &&& request.id == ControlId::TimedIdle ==> actions[1] == status::set(
                    range,
                    ControlId::TimedIdle,
                    value as int,
                )
                &&& request.id == ControlId::TimedRun ==> ({
                    &&& actions[2] matches status::ReportAction::SetFromField {
                        range: at,
                        id: ControlId::TimedRun,
                        field,
                    }
                    &&& at == range
                    &&& args[field as int] == value
                })
            }
        }),
{
}

/// In a cycle of ten minutes the radar stands by for what remains after transmission, but
/// never for less than a minute.
pub proof fn law_cycle_takes_ten_minutes(transmit: bool, drid: i32, idle: i32, run: i32)
    requires
        0 <= run <= 600,
    ensures
        ({
            let args = status_args(transmit, drid, idle, run);
            &&& args.len() == 6
            &&& args[4] >= 60
            &&& args[3] + args[4] >= 600
            &&& args[4] > 60 ==> args[3] + args[4] == 600
        }),
{
}

/// Setting gain, sea, rain or tuning and hearing it echoed gives back the value, whether
/// it is automatic, and the range that it was set for.
pub proof fn law_levels_come_back(
    request: ControlRequest,
    state: ControlState,
    has_b: bool,
    drid: i32,
)
    requires
        request.id == ControlId::Gain || request.id == ControlId::Sea || request.id
            == ControlId::Rain || request.id == ControlId::Tune,
        request.number is Some,
        drid == 0 || drid == 1,
    ensures
        ({
            &&& set_args(request, drid, state) matches Ok((id, args))
            &&& status::report_actions(
            has_b,
            id,
            echoed(args),
        ) matches Ok(actions)
            &&& actions.len() == 1
            &&& actions[0] matches status::ReportAction::SetAutoFromField {
            range,
            id: control,
            field,
            auto,
        }
            &&& {
            &&& range == set_range(has_b, drid)
            &&& control == request.id
            &&& field < args.len() && args[field as int] == request.number->0
            &&& auto == if request.auto == Some(true) { 1int } else { 0int }
        }
        }),
{
}

/// Setting the antenna speed, the resolution or the bird mode and hearing it echoed gives
/// the value back.
pub proof fn law_numbers_come_back(
    request: ControlRequest,
    state: ControlState,
    has_b: bool,
    drid: i32,
)
    requires
        request.id == ControlId::ScanSpeed || request.id == ControlId::TargetSeparation
            || request.id == ControlId::BirdMode,
        request.number is Some,
    ensures
        ({
            &&& set_args(request, drid, state) matches Ok((id, args))
            &&& status::report_actions(
            has_b,
            id,
            echoed(args),
        ) matches Ok(actions)
            &&& actions.len() == 1
            &&& actions[0] matches status::ReportAction::SetFromField {
            range: RangeId::A,
            id: control,
            field,
        }
            &&& control == request.id
            &&& field < args.len()
            &&& args[field as int]
            == request.number->0
        }),
{
}

/// Setting a sector and hearing it echoed gives its start and end back; the other sector
/// stays as it was. The first sector is on where it is not empty, the second where it was
/// enabled too.
pub proof fn law_sectors_come_back(
    request: ControlRequest,
    state: ControlState,
    has_b: bool,
    drid: i32,
)
    requires
        request.id == ControlId::NoTransmitSector1 || request.id == ControlId::NoTransmitSector2,
        request.number is Some,
        request.end is Some,
        0 <= request.number->0 < 360,
        0 <= request.end->0 < 360,
        0 <= state.zone1.start < 360,
        0 <= state.zone1.end < 360,
        0 <= state.zone2.start < 360,
        0 <= state.zone2.end < 360,
    ensures
        ({
            let zone = Zone {
                start: request.number->0,
                end: request.end->0,
                enabled: request.enabled == Some(true),
            };
            let first = if request.id == ControlId::NoTransmitSector1 { zone } else { state.zone1 };
            let second = if request.id == ControlId::NoTransmitSector2 { zone } else { state.zone2 };
            ({
                &&& set_args(request, drid, state) matches Ok((id, args))
                &&& args.len() == 5
                &&& status::report_actions(has_b, id, echoed(args)) matches Ok(actions)
                &&& actions.len() == 2
                &&& actions[0]
                matches status::ReportAction::SectorFromFields {
                id: ControlId::NoTransmitSector1,
                start: start1,
                width: width1,
                enabled: enabled1,
            }
                &&& actions[1] matches status::ReportAction::SectorFromFields {
                id: ControlId::NoTransmitSector2,
                start: start2,
                width: width2,
                enabled: enabled2,
            }
                &&& {
                &&& args[start1 as int] == first.start
                &&& (args[start1 as int] + args[width1 as int]) % 360 == first.end
                &&& enabled1 == (first.start != first.end)
                &&& args[start2 as int] == second.start
                &&& (args[start2 as int] + args[width2 as int]) % 360 == second.end
                &&& enabled2 == (second.enabled && second.start != second.end)
            }
            })
        }),
{
}

/// Changing the unit keeps the range as near as the slots of the new unit allow.
pub proof fn law_new_unit_keeps_range(request: ControlRequest, state: ControlState, drid: i32)
    requires
        request.id == ControlId::RangeUnits,
        request.number == Some(0i32) || request.number == Some(1i32),
        state.range is Some,
    ensures
        set_args(request, drid, state) matches Ok((id, args)) && {
            &&& id == CommandId::Range
            &&& args.len() == 3
            &&& args[1] == request.number->0
            &&& args[2] == drid
            &&& protocol::nearest_index(
                if request.number == Some(1i32) {
                    protocol::WIRE_INDEX_TABLE_KM@
                } else {
                    protocol::WIRE_INDEX_TABLE@
                },
                state.range->0,
                args[0],
            )
        },
{
    let unit = request.number->0;
    protocol::lemma_nearest_index_exists(unit, state.range->0);
}

/// A setting is written first; then the radar is asked for all that it changed.
pub proof fn law_setting_is_written_first(
    c: Command,
    request: ControlRequest,
    state: ControlState,
)
    requires
        set_args(request, c.dual_range_id, state) is Ok,
    ensures
        c.set_commands(request, state) matches Ok(list) && list.len() >= 2 && {
            &&& list[0].mode == CommandMode::Write
            &&& (list[0].id, list[0].args) == set_args(request, c.dual_range_id, state)->Ok_0
            &&& forall|i: int| 1 <= i < list.len() ==> (#[trigger] list[i]).mode
                == CommandMode::Request
            &&& list[1].id == CommandId::CustomPictureAll
            &&& list.len() == if c.controls.pulse_width { 3int } else { 2int }
            &&& c.controls.pulse_width ==> list[2].id == CommandId::PulseWidth
        },
{
}

/// What the arguments of a command are as fields.
pub open spec fn argument_fields(args: Seq<i32>) -> Seq<Seq<char>> {
    Seq::new(args.len(), |i: int| text::signed_decimal(args[i] as int))
}

proof fn lemma_first_argument(args: Seq<i32>)
    requires
        args.len() > 0,
    ensures
        argument_text(args) == seq![','] + text::signed_decimal(args[0] as int) + argument_text(
            args.drop_first(),
        ),
    decreases args.len(),
{
    if args.len() == 1 {
        assert(args.drop_last() =~= Seq::<i32>::empty());
        assert(args.drop_first() =~= Seq::<i32>::empty());
        assert(argument_text(Seq::<i32>::empty()) =~= Seq::<char>::empty());
        assert(argument_text(args) =~= seq![','] + text::signed_decimal(args[0] as int)
            + argument_text(args.drop_first()));
    } else {
        lemma_first_argument(args.drop_last());
        assert(args.drop_last().drop_first() =~= args.drop_first().drop_last());
        assert(args.drop_first().last() == args.last());
        assert(argument_text(args) =~= seq![','] + text::signed_decimal(args[0] as int)
            + argument_text(args.drop_first()));
    }
}

proof fn lemma_no_comma(n: int, i: int)
    requires
        0 <= i < text::signed_decimal(n).len(),
    ensures
        text::signed_decimal(n)[i] == '-' || '0' <= text::signed_decimal(n)[i] <= '9',
        '0' <= text::signed_decimal(n).last() <= '9',
{
    let s = text::signed_decimal(n);
    if n < 0 {
        let d = text::decimal((-n) as nat);
        text::law_decimal_reads_back((-n) as nat, i - 1);
        text::law_decimal_reads_back((-n) as nat, d.len() - 1);
        assert(s.last() == d.last());
    } else {
        text::law_decimal_reads_back(n as nat, i);
        text::law_decimal_reads_back(n as nat, s.len() - 1);
    }
}

proof fn lemma_parts(head: Seq<char>, args: Seq<i32>)
    requires
        forall|i: int| 0 <= i < head.len() ==> head[i] != ',',
    ensures
        line::comma_parts(head + argument_text(args)) == seq![head] + argument_fields(args),
    decreases args.len(),
{
    let s = head + argument_text(args);
    if args.len() == 0 {
        assert(s =~= head);
        line::lemma_position(s, ',', s.len() as int);
        assert(seq![head] + argument_fields(args) =~= seq![head]);
    } else {
        lemma_first_argument(args);
        let next = text::signed_decimal(args[0] as int);
        let rest = args.drop_first();
        let n = head.len() as int;
        assert(s[n] == ',');
        line::lemma_position(s, ',', n);
        assert(s.take(n) =~= head);
        assert(s.skip(n + 1) =~= next + argument_text(rest));
        assert forall|i: int| 0 <= i < next.len() implies next[i] != ',' by {
            lemma_no_comma(args[0] as int, i);
        }
        lemma_parts(next, rest);
        assert(argument_fields(args) =~= seq![next] + argument_fields(rest));
        assert(seq![head] + (seq![next] + argument_fields(rest)) =~= seq![head] + argument_fields(
            args,
        ));
    }
}

proof fn lemma_hex_reads_back(n: int)
    requires
        0 <= n < 256,
    ensures
        line::hex_number(text::hex_byte(n)) == Some(n),
        text::hex_byte(n).len() > 0,
        forall|i: int|
            0 <= i < text::hex_byte(n).len() ==> text::hex_byte(n)[i] != ','
                && text::hex_byte(n)[i] != '\n',
{
    let s = text::hex_byte(n);
    reveal_with_fuel(line::hex_value, 3);
    assert('0' as int == 0x30 && '9' as int == 0x39 && 'A' as int == 0x41 && 'F' as int == 0x46
        && 'a' as int == 0x61 && '+' as int == 0x2b && ',' as int == 0x2c && '\n' as int == 0x0a);
    if n < 16 {
        assert(s.drop_last() =~= Seq::<char>::empty());
    } else {
        assert(s.drop_last() =~= seq![text::digit(n / 16)]);
        assert(s.drop_last().drop_last() =~= Seq::<char>::empty());
    }
    assert(s[0] != '+');
}

/// A line reads back: the report of a command has its opcode, and its arguments as fields,
/// each the number that was written.
pub proof fn law_lines_read_back(id: CommandId, args: Seq<i32>, i: int)
    ensures
        ({
            let c = CommandView { mode: CommandMode::New, id, args };
            &&& line::line_meaning(message_text(c, 0)) matches Ok(Some((command, fields)))
            &&& command == id
            &&& fields.len() == args.len()
            &&& 0 <= i < args.len() && args[i] >= 0 ==> text::value_of_digits(fields[i]) == args[i]
            &&& 0 <= i < args.len() && args[i] < 0 ==> fields[i][0] == '-'
                && text::value_of_digits(fields[i].drop_first()) == -args[i]
        }),
{
    let c = CommandView { mode: CommandMode::New, id, args };
    let code = id.code() as int;
    let hex = text::hex_byte(code);
    let body = hex + argument_text(args);
    let line = message_text(c, 0);
    lemma_hex_reads_back(code);
    lemma_parts(hex, args);
    assert(line =~= seq!['$', 'N'] + body + seq!['\r', '\n']);
    line::lemma_position(line, '$', 0);
    assert(line::from_dollar(line) =~= line);
    let tail = line.skip(2);
    assert(tail =~= body + seq!['\r', '\n']);
    assert(tail.take(tail.len() - 2) =~= body);
    assert(body.last() != '\n') by {
        if args.len() == 0 {
            assert(body =~= hex);
        } else {
            let last = text::signed_decimal(args.last() as int);
            text::law_signed_decimal_reads_back(args.last() as int);
            lemma_some_digits(args.last() as int);
            lemma_no_comma(args.last() as int, 0);
            assert(body.last() == last.last());
            assert('\n' as int == 0x0a && '0' as int == 0x30);
        }
    }
    assert(line::without_line_end(body) == body);
    assert(line::without_line_end(tail) == body);
    let parts = line::comma_parts(body);
    assert(parts[0] == hex);
    assert(parts.drop_first() =~= argument_fields(args));
    let found = choose|x: CommandId| #[trigger] x.code() == code;
    assert(id.code() == code);
    super::protocol::law_opcodes_distinct(found, id);
    if 0 <= i < args.len() {
        text::law_signed_decimal_reads_back(args[i] as int);
    }
}

proof fn lemma_some_digits(n: int)
    ensures
        text::signed_decimal(n).len() > 0,
{
    if n < 0 {
        text::law_decimal_reads_back((-n) as nat, 0);
    } else {
        text::law_decimal_reads_back(n as nat, 0);
    }
}

/// Whether a list asks for a report.
pub open spec fn asks(list: Seq<CommandView>, id: CommandId) -> bool {
    exists|i: int| 0 <= i < list.len() && (#[trigger] list[i]).id == id
}

proof fn lemma_asks(a: Seq<CommandView>, b: Seq<CommandView>)
    ensures
        forall|id: CommandId| #[trigger] asks(a + b, id) == (asks(a, id) || asks(b, id)),
{
    let r = a + b;
    assert forall|id: CommandId| #[trigger] asks(r, id) == (asks(a, id) || asks(b, id)) by {
        if asks(a, id) {
            let i = choose|i: int| 0 <= i < a.len() && (#[trigger] a[i]).id == id;
            assert(r[i].id == id);
        }
        if asks(b, id) {
            let i = choose|i: int| 0 <= i < b.len() && (#[trigger] b[i]).id == id;
            assert(r[a.len() + i].id == id);
        }
        if asks(r, id) {
            let i = choose|i: int| 0 <= i < r.len() && (#[trigger] r[i]).id == id;
            if i < a.len() {
                assert(a[i].id == id);
            } else {
                assert(b[i - a.len()].id == id);
            }
        }
    }
}

/// The first requests ask for the state of every control that the radar has, and of no
/// other.
#[verifier::rlimit(60)]
pub proof fn law_init_asks_for_controls(c: ControlSet, id: CommandId)
    ensures
        asks(init_commands(c), id) <==> match id {
            CommandId::Modules
            | CommandId::OnTime
            | CommandId::TxTime
            | CommandId::Status
            | CommandId::Range
            | CommandId::Gain
            | CommandId::Sea
            | CommandId::Rain
            | CommandId::BlindSector => true,
            CommandId::PulseWidth => c.pulse_width,
            CommandId::Tune => c.tune,
            CommandId::ScanSpeed => c.scan_speed,
            CommandId::MainBangSize => c.main_bang_suppression,
            CommandId::SignalProcessing
            | CommandId::RezBoost
            | CommandId::BirdMode
            | CommandId::TargetAnalyzer => c.bird_mode,
            _ => false,
        },
{
    let a = seq![
        ask(CommandId::Modules),
        ask_with(CommandId::OnTime, seq![0]),
        ask_with(CommandId::TxTime, seq![0]),
        ask(CommandId::Status),
        ask(CommandId::Range),
    ];
    let b = only_if(c.pulse_width, seq![ask(CommandId::PulseWidth)]);
    let d = seq![ask(CommandId::Gain), ask(CommandId::Sea), ask(CommandId::Rain)];
    let e = only_if(c.tune, seq![ask(CommandId::Tune)]);
    let f = only_if(c.scan_speed, seq![ask(CommandId::ScanSpeed)]);
    let g = only_if(c.main_bang_suppression, seq![ask_with(CommandId::MainBangSize, seq![0, 0])]);
    let h = seq![ask(CommandId::BlindSector)];
    let k = only_if(
        c.bird_mode,
        seq![
            ask_with(CommandId::SignalProcessing, seq![0, 3]),
            ask_with(CommandId::SignalProcessing, seq![0, 0]),
            ask(CommandId::RezBoost),
            ask(CommandId::BirdMode),
            ask(CommandId::TargetAnalyzer),
        ],
    );
    lemma_asks(a, b);
    lemma_asks(a + b, d);
    lemma_asks(a + b + d, e);
    lemma_asks(a + b + d + e, f);
    lemma_asks(a + b + d + e + f, g);
    lemma_asks(a + b + d + e + f + g, h);
    lemma_asks(a + b + d + e + f + g + h, k);
    assert(init_commands(c) == a + b + d + e + f + g + h + k);
    assert(a[0].id == CommandId::Modules && a[1].id == CommandId::OnTime && a[2].id
        == CommandId::TxTime && a[3].id == CommandId::Status && a[4].id == CommandId::Range);
    assert(d[0].id == CommandId::Gain && d[1].id == CommandId::Sea && d[2].id == CommandId::Rain);
    assert(h[0].id == CommandId::BlindSector);
    assert(c.pulse_width ==> b[0].id == CommandId::PulseWidth);
    assert(c.tune ==> e[0].id == CommandId::Tune);
    assert(c.scan_speed ==> f[0].id == CommandId::ScanSpeed);
    assert(c.main_bang_suppression ==> g[0].id == CommandId::MainBangSize);
    assert(c.bird_mode ==> k[0].id == CommandId::SignalProcessing && k[2].id == CommandId::RezBoost
        && k[3].id == CommandId::BirdMode && k[4].id == CommandId::TargetAnalyzer);
}

} // verus!
