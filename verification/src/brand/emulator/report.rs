//! The state of the emulated radar.

use vstd::prelude::*;

use crate::radar::{ControlId, ControlRequest, Power, Update};

verus! {

/// Spokes per revolution.
pub const EMULATOR_SPOKES: u16 = 2048;

/// Samples per spoke.
pub const EMULATOR_SPOKE_LEN: usize = 1024;

/// Milliseconds per revolution.
pub const ROTATION_TIME_MS: u64 = 2500;

/// Spokes that are made at once.
pub const SPOKES_PER_BATCH: u16 = 32;

/// The range at the start, half a nautical mile.
pub const INITIAL_RANGE: u32 = 926;

/// The state of the emulated radar.
#[derive(Clone, Copy, Debug, PartialEq, Eq, Structural)]
pub struct EmulatorState {
    pub transmitting: bool,
    /// In meters.
    pub current_range: u32,
    /// The spoke that comes next.
    pub current_spoke: u16,
    pub rotation_count: u32,
}

/// What is to be done about a request.
#[derive(Clone, Copy, Debug, PartialEq, Eq, Structural)]
pub enum Reaction {
    Nothing,
    /// Show a new value.
    Show(Update),
    /// Hand the request to the command sender.
    Forward,
}

/// The state and the reaction for a request. `range` is the value as a
/// distance in meters.
pub open spec fn request_step(s: EmulatorState, q: ControlRequest, range: u32) -> (
    EmulatorState,
    Reaction,
) {
    match q.id {
        ControlId::Power => match q.number {
            Some(2) => (
                EmulatorState { transmitting: true, ..s },
                Reaction::Show(Update::Power(Power::Transmit)),
            ),
            Some(1) => (
                EmulatorState { transmitting: false, ..s },
                Reaction::Show(Update::Power(Power::Standby)),
            ),
            Some(0) => (
                EmulatorState { transmitting: false, ..s },
                Reaction::Show(Update::Power(Power::Off)),
            ),
            _ => (s, Reaction::Nothing),
        },
        ControlId::Range => match q.number {
            Some(_) => (
                EmulatorState { current_range: range, ..s },
                Reaction::Show(Update::Value { id: ControlId::Range, value: range as i64 }),
            ),
            None => (s, Reaction::Nothing),
        },
        _ => (s, Reaction::Forward),
    }
}

/// The spoke `i` places behind the next one.
pub open spec fn spoke_after(s: EmulatorState, i: int) -> int {
    (s.current_spoke + i) % EMULATOR_SPOKES as int
}

/// Whether the next `n` spokes reach the end of a revolution.
pub open spec fn wraps(s: EmulatorState, n: int) -> bool {
    s.current_spoke + n >= EMULATOR_SPOKES
}

impl EmulatorState {
    /// Whether the next spoke exists.
    pub open spec fn well_formed(self) -> bool {
        self.current_spoke < EMULATOR_SPOKES
    }

    /// The state at the start: transmitting.
    pub fn new() -> (r: EmulatorState)
        ensures
            r == (EmulatorState {
                transmitting: true,
                current_range: INITIAL_RANGE,
                current_spoke: 0,
                rotation_count: 0,
            }),
            r.well_formed(),
    {
        EmulatorState {
            transmitting: true,
            current_range: INITIAL_RANGE,
            current_spoke: 0,
            rotation_count: 0,
        }
    }

    /// Process a request. `range` is the value as a distance in meters.
    pub fn handle_control_update(&mut self, q: &ControlRequest, range: u32) -> (r: Reaction)
        ensures
            (*final(self), r) == request_step(*old(self), *q, range),
            old(self).well_formed() ==> final(self).well_formed(),
    {
        match q.id {
            ControlId::Power => match q.number {
                Some(2) => {
                    self.transmitting = true;
                    Reaction::Show(Update::Power(Power::Transmit))
                },
                Some(1) => {
                    self.transmitting = false;
                    Reaction::Show(Update::Power(Power::Standby))
                },
                Some(0) => {
                    self.transmitting = false;
                    Reaction::Show(Update::Power(Power::Off))
                },
                _ => Reaction::Nothing,
            },
            ControlId::Range => match q.number {
                Some(_) => {
                    self.current_range = range;
                    Reaction::Show(Update::Value { id: ControlId::Range, value: range as i64 })
                },
                None => Reaction::Nothing,
            },
            _ => Reaction::Forward,
        }
    }

    /// The spokes to make now. A batch that reaches the end of a revolution
    /// counts it, and goes on with spoke 0.
    pub fn next_batch(&mut self) -> (r: Vec<u16>)
        requires
            old(self).well_formed(),
            old(self).rotation_count < u32::MAX,
        ensures
            final(self).well_formed(),
            r@ == Seq::new(
                SPOKES_PER_BATCH as nat,
                |i: int| spoke_after(*old(self), i) as u16,
            ),
            *final(self) == (EmulatorState {
                current_spoke: spoke_after(*old(self), SPOKES_PER_BATCH as int) as u16,
                rotation_count: if wraps(*old(self), SPOKES_PER_BATCH as int) {
                    (old(self).rotation_count + 1) as u32
                } else {
                    old(self).rotation_count
                },
                ..*old(self)
            }),
    {
        let ghost whole = Seq::new(
            SPOKES_PER_BATCH as nat,
            |i: int| spoke_after(*old(self), i) as u16,
        );
        let mut spokes: Vec<u16> = Vec::new();
        let mut i: u16 = 0;
        assert(spokes@ =~= whole.take(0));
        while i < SPOKES_PER_BATCH
            invariant
                i <= 32,
                old(self).well_formed(),
                old(self).rotation_count < u32::MAX,
                self.current_spoke == spoke_after(*old(self), i as int),
                self.rotation_count == if wraps(*old(self), i as int) {
                    old(self).rotation_count + 1
                } else {
                    old(self).rotation_count as int
                },
                self.transmitting == old(self).transmitting,
                self.current_range == old(self).current_range,
                whole == Seq::new(
                    SPOKES_PER_BATCH as nat,
                    |k: int| spoke_after(*old(self), k) as u16,
                ),
                spokes@ == whole.take(i as int),
            decreases 32 - i,
        {
            spokes.push(self.current_spoke);
            let next: u16 = (self.current_spoke + 1) % EMULATOR_SPOKES;
            if next < self.current_spoke {
                self.rotation_count += 1;
            }
            self.current_spoke = next;
            i += 1;
            assert(spokes@ =~= whole.take(i as int));
        }
        assert(whole.take(i as int) =~= whole);
        spokes
    }
}

/// Milliseconds between batches.
pub fn batch_interval_ms() -> (r: u64)
    ensures
        r == ROTATION_TIME_MS / (EMULATOR_SPOKES as u64 / SPOKES_PER_BATCH as u64),
        r == 39,
{
    ROTATION_TIME_MS / (EMULATOR_SPOKES as u64 / SPOKES_PER_BATCH as u64)
}

/// What the command sender keeps of a request: only the range units, where they
/// are a number.
pub fn kept_units(q: &ControlRequest) -> (r: Option<i32>)
    ensures
        r == if q.id == ControlId::RangeUnits {
            q.number
        } else {
            None
        },
{
    match q.id {
        ControlId::RangeUnits => q.number,
        _ => None,
    }
}

/// A revolution takes 64 batches: as many bring the radar back to the spoke
/// that it began with.
pub proof fn law_batches_make_a_revolution(s: EmulatorState)
    requires
        s.well_formed(),
    ensures
        64 * SPOKES_PER_BATCH == EMULATOR_SPOKES,
        spoke_after(s, 64 * SPOKES_PER_BATCH) == s.current_spoke,
        wraps(s, 64 * SPOKES_PER_BATCH),
{
}

/// The radar shows the power state that it is set to, and transmits in that of transmission
/// only; nothing else changes.
pub proof fn law_power_is_taken_over(s: EmulatorState, q: ControlRequest, range: u32, p: Power)
    requires
        q.id == ControlId::Power,
        p == Power::Off || p == Power::Standby || p == Power::Transmit,
        q.number == Some(
            if p == Power::Off {
                0i32
            } else if p == Power::Standby {
                1i32
            } else {
                2i32
            },
        ),
    ensures
        request_step(s, q, range).1 == Reaction::Show(Update::Power(p)),
        request_step(s, q, range).0.transmitting <==> p == Power::Transmit,
        request_step(s, q, range).0.current_range == s.current_range,
        request_step(s, q, range).0.current_spoke == s.current_spoke,
        request_step(s, q, range).0.rotation_count == s.rotation_count,
{
}

/// The radar takes over the range that it is set to, and shows it; of other controls it
/// only hands the request on.
pub proof fn law_range_is_taken_over(s: EmulatorState, q: ControlRequest, range: u32)
    ensures
        q.id == ControlId::Range && q.number is Some ==> {
            let (next, reaction) = request_step(s, q, range);
            &&& next.current_range == range
            &&& next.transmitting == s.transmitting
            &&& next.current_spoke == s.current_spoke
            &&& reaction == Reaction::Show(
                Update::Value { id: ControlId::Range, value: range as i64 },
            )
        },
        (q.id == ControlId::Range || q.id == ControlId::Power) && q.number is None ==> request_step(
            s,
            q,
            range,
        ) == (s, Reaction::Nothing),
        q.id != ControlId::Range && q.id != ControlId::Power ==> request_step(s, q, range) == (
            s,
            Reaction::Forward,
        ),
{
}

/// Spokes follow each other, and the last of a revolution is followed by spoke 0.
pub proof fn law_spokes_follow_each_other(s: EmulatorState, i: int)
    requires
        s.well_formed(),
        0 <= i < 2048,
    ensures
        spoke_after(s, 0) == s.current_spoke,
        0 <= spoke_after(s, i) < 2048,
        spoke_after(s, i) == 2047 ==> spoke_after(s, i + 1) == 0,
        spoke_after(s, i) < 2047 ==> spoke_after(s, i + 1) == spoke_after(s, i) + 1,
        wraps(s, i) <==> spoke_after(s, i) < s.current_spoke || i == 2048,
{
}

} // verus!
