//! What a Furuno radar reports: spoke frames and report lines.

use vstd::prelude::*;
use vstd::slice::*;

use super::protocol::{
    RadarModel, ECHO_GAIN_DEFAULT, ECHO_GAIN_LOW_POWER, FRAME_HEADER_LEN, FRAME_MAGIC, SPOKE_LEN,
};
use super::spoke;
use super::spoke::{
    decode_sweeps, map_to_palette, parse_metadata_header, stretch_spoke, DecodedSweep,
    FurunoSpokeMetadata,
};
use crate::radar;
use crate::radar::{ControlId, Power, RangeId, Spoke, Update};

verus! {

/// How spoke data reaches us. A radar sends it either way; once one way works
/// the other is given up.
#[derive(Clone, Copy, Debug, PartialEq, Eq, Structural)]
pub enum ReceiveAddressType {
    Both,
    Multicast,
    Broadcast,
}

impl ReceiveAddressType {
    /// Whether to listen for multicast data.
    pub fn want_multicast(&self) -> (r: bool)
        ensures
            r == (*self != ReceiveAddressType::Broadcast),
    {
        matches!(*self, ReceiveAddressType::Both | ReceiveAddressType::Multicast)
    }

    /// Whether to listen for broadcast data.
    pub fn want_broadcast(&self) -> (r: bool)
        ensures
            r == (*self != ReceiveAddressType::Multicast),
    {
        matches!(*self, ReceiveAddressType::Both | ReceiveAddressType::Broadcast)
    }
}

/// What is known of the ranges when a frame arrives.
#[derive(Clone, Copy, Debug)]
pub struct FrameContext {
    /// Whether range A is set in kilometres.
    pub metric_a: bool,
    /// Whether range B is set in kilometres.
    pub metric_b: bool,
    /// Number of pixel values of range A.
    pub pixel_values_a: u8,
    /// Number of pixel values of range B.
    pub pixel_values_b: u8,
    /// True heading of the vessel in spokes, for frames that carry none.
    pub heading: Option<u16>,
    /// Whether a recording is being replayed.
    pub replay: bool,
}

/// The spokes of one frame.
pub struct Frame {
    pub range: RangeId,
    pub spokes: Vec<Spoke>,
    /// Control changes that a replay derives from the frame.
    pub updates: Vec<Update>,
}

/// State of the reception from one radar.
pub struct FurunoReportReceiver {
    /// Whether the radar has a second range.
    pub has_range_b: bool,
    pub model_known: bool,
    pub model: RadarModel,
    pub receive_type: ReceiveAddressType,
    /// Samples of the last sweep of range A. The two ranges take turns on one
    /// stream, and each sweep may refer to the one before of the same range.
    pub prev_spoke_a: Vec<u8>,
    pub prev_spoke_b: Vec<u8>,
    pub prev_angle_a: u16,
    pub prev_angle_b: u16,
}

/// Whether the bytes are a spoke frame.
pub open spec fn is_frame(data: Seq<u8>) -> bool {
    data.len() >= FRAME_HEADER_LEN && data[0] == FRAME_MAGIC
}

/// The gain that is applied to the echoes of a model.
pub open spec fn echo_gain(model: RadarModel) -> u8 {
    if model.low_power() { ECHO_GAIN_LOW_POWER } else { ECHO_GAIN_DEFAULT }
}

/// The spoke that a sweep turns into.
pub open spec fn spoke_of(
    sweep: spoke::Sweep,
    m: FurunoSpokeMetadata,
    model: RadarModel,
    pixel_values: u8,
    ctx: FrameContext,
) -> radar::SpokeView {
    radar::SpokeView {
        range: m.range,
        angle: sweep.angle,
        heading: if m.have_heading > 0 { Some(sweep.heading) } else { ctx.heading },
        data: spoke::palette(
            spoke::stretched(sweep.samples, m.scale as int, SPOKE_LEN as int),
            echo_gain(model),
            pixel_values,
            ctx.replay,
        ),
    }
}

/// The control changes of a replayed frame.
pub open spec fn replay_updates(m: FurunoSpokeMetadata, count: nat, replay: bool) -> Seq<Update> {
    if replay && count > 0 {
        seq![
            Update::Value { id: ControlId::Range, value: m.range as i64 },
            Update::Power(Power::Transmit),
        ]
    } else {
        Seq::empty()
    }
}

impl FurunoReportReceiver {
    /// The range that a frame belongs to.
    pub open spec fn frame_range(&self, data: Seq<u8>) -> RangeId {
        if spoke::radar_no(data) == 1 && self.has_range_b { RangeId::B } else { RangeId::A }
    }

    /// The header fields of a frame.
    pub open spec fn frame_metadata(&self, data: Seq<u8>, ctx: FrameContext) -> FurunoSpokeMetadata {
        spoke::metadata(
            data,
            spoke::frame_metric(
                data,
                ctx.metric_a,
                if self.has_range_b { Some(ctx.metric_b) } else { None },
            ),
        )
    }

    /// The samples of the last sweep of a range.
    pub open spec fn previous(&self, range: RangeId) -> Seq<u8> {
        match range {
            RangeId::A => self.prev_spoke_a@,
            RangeId::B => self.prev_spoke_b@,
        }
    }

    /// The sweeps of a frame.
    pub open spec fn frame_sweeps(&self, data: Seq<u8>, ctx: FrameContext) -> Seq<spoke::Sweep> {
        let m = self.frame_metadata(data, ctx);
        spoke::sweeps(
            m.encoding,
            m.sweep_len as int,
            data.skip(FRAME_HEADER_LEN as int),
            m.sweep_count as nat,
            true,
            self.previous(self.frame_range(data)),
        )
    }

    /// Whether every sweep of a frame ends within the frame.
    pub open spec fn frame_complete(&self, data: Seq<u8>, ctx: FrameContext) -> bool {
        let m = self.frame_metadata(data, ctx);
        is_frame(data) ==> spoke::sweeps_complete(
            m.encoding,
            m.sweep_len as int,
            data.skip(FRAME_HEADER_LEN as int),
            m.sweep_count as nat,
            true,
            self.previous(self.frame_range(data)),
        )
    }

    /// The spokes of a frame.
    pub open spec fn frame_spokes(&self, data: Seq<u8>, ctx: FrameContext) -> Seq<
        radar::SpokeView,
    > {
        let m = self.frame_metadata(data, ctx);
        let all = self.frame_sweeps(data, ctx);
        let pixel_values = match self.frame_range(data) {
            RangeId::A => ctx.pixel_values_a,
            RangeId::B => ctx.pixel_values_b,
        };
        Seq::new(all.len(), |i: int| spoke_of(all[i], m, self.model, pixel_values, ctx))
    }

    /// Whether the two receivers agree on all but the sweeps of one range.
    pub open spec fn same_but_sweeps(&self, other: &FurunoReportReceiver, range: RangeId) -> bool {
        &&& self.has_range_b == other.has_range_b
        &&& self.model_known == other.model_known
        &&& self.model == other.model
        &&& self.receive_type == other.receive_type
        &&& range == RangeId::B ==> self.prev_spoke_a@ == other.prev_spoke_a@
            && self.prev_angle_a == other.prev_angle_a
        &&& range == RangeId::A ==> self.prev_spoke_b@ == other.prev_spoke_b@
            && self.prev_angle_b == other.prev_angle_b
    }

    /// The angle of the last sweep of a range.
    pub open spec fn last_angle(&self, range: RangeId) -> u16 {
        match range {
            RangeId::A => self.prev_angle_a,
            RangeId::B => self.prev_angle_b,
        }
    }

    /// Reception from a radar of which nothing is known yet.
    pub fn new() -> (r: FurunoReportReceiver)
        ensures
            !r.has_range_b,
            !r.model_known,
            r.model == RadarModel::Unknown,
            r.receive_type == ReceiveAddressType::Both,
            r.prev_spoke_a@ == Seq::<u8>::empty(),
            r.prev_spoke_b@ == Seq::<u8>::empty(),
            r.prev_angle_a == 0,
            r.prev_angle_b == 0,
    {
        FurunoReportReceiver {
            has_range_b: false,
            model_known: false,
            model: RadarModel::Unknown,
            receive_type: ReceiveAddressType::Both,
            prev_spoke_a: Vec::new(),
            prev_spoke_b: Vec::new(),
            prev_angle_a: 0,
            prev_angle_b: 0,
        }
    }

    /// Attach the second range.
    pub fn set_range_b(&mut self)
        ensures
            final(self).has_range_b,
            *final(self) == (FurunoReportReceiver { has_range_b: true, ..*old(self) }),
    {
        self.has_range_b = true;
    }

    fn read_frame(&self, data: &[u8], ctx: &FrameContext) -> (r: Option<Vec<DecodedSweep>>)
        requires
            is_frame(data@),
        ensures
            r is Some <==> self.frame_complete(data@, *ctx),
            r matches Some(v) ==> spoke::sweeps_view(v@) == self.frame_sweeps(data@, *ctx),
    {
        let metric_b = if self.has_range_b {
            Some(ctx.metric_b)
        } else {
            None
        };
        let m = parse_metadata_header(data, ctx.metric_a, metric_b);
        let rest = slice_subrange(data, FRAME_HEADER_LEN, data.len());
        assert(rest@ =~= data@.skip(FRAME_HEADER_LEN as int));
        assert(rest@.len() + 3 <= data.len());
        if m.radar_no == 1 && self.has_range_b {
            decode_sweeps(
                m.encoding,
                m.sweep_len,
                rest,
                m.sweep_count,
                self.prev_spoke_b.as_slice(),
            )
        } else {
            decode_sweeps(
                m.encoding,
                m.sweep_len,
                rest,
                m.sweep_count,
                self.prev_spoke_a.as_slice(),
            )
        }
    }

    /// Whether every sweep of a frame ends within the frame.
    pub fn is_frame_complete(&self, data: &[u8], ctx: &FrameContext) -> (r: bool)
        ensures
            r == self.frame_complete(data@, *ctx),
    {
        if data.len() < FRAME_HEADER_LEN || data[0] != FRAME_MAGIC {
            return true;
        }
        self.read_frame(data, ctx).is_some()
    }

    fn build_spoke(&self, m: &FurunoSpokeMetadata, sweep: &DecodedSweep, pixel_values: u8, ctx:
        &FrameContext) -> (r: Spoke)
        requires
            m.scale < 0x800,
        ensures
            r@ == spoke_of(sweep@, *m, self.model, pixel_values, *ctx),
    {
        let gain: u8 = if self.model.is_low_power() {
            ECHO_GAIN_LOW_POWER
        } else {
            ECHO_GAIN_DEFAULT
        };
        proof {
            let n = spoke::effective_len(sweep.samples@, m.scale as int);
            assert(SPOKE_LEN * n <= usize::MAX) by (nonlinear_arith)
                requires
                    SPOKE_LEN == 1024,
                    n <= 0x800,
            ;
        }
        let stretched = stretch_spoke(sweep.samples.as_slice(), m.scale as usize, SPOKE_LEN);
        let heading = if m.have_heading > 0 {
            Some(sweep.heading)
        } else {
            ctx.heading
        };
        Spoke {
            range: m.range,
            angle: sweep.angle,
            heading,
            data: map_to_palette(stretched.as_slice(), gain, pixel_values, ctx.replay),
        }
    }

    /// Process a spoke frame. Anything else is dropped.
    pub fn process_frame(&mut self, data: &[u8], ctx: &FrameContext) -> (r: Option<Frame>)
        requires
            old(self).frame_complete(data@, *ctx),
        ensures
            r is Some <==> is_frame(data@),
            r is None ==> *final(self) == *old(self),
            r matches Some(f) ==> {
                let all = old(self).frame_sweeps(data@, *ctx);
                let m = old(self).frame_metadata(data@, *ctx);
                &&& f.range == old(self).frame_range(data@)
                &&& radar::spokes_view(f.spokes@) == old(self).frame_spokes(data@, *ctx)
                &&& f.updates@ == replay_updates(m, all.len(), ctx.replay)
                &&& final(self).same_but_sweeps(old(self), f.range)
                &&& final(self).previous(f.range) == if all.len() == 0 {
                    old(self).previous(f.range)
                } else {
                    all.last().samples
                }
                &&& final(self).last_angle(f.range) == if all.len() == 0 {
                    old(self).last_angle(f.range)
                } else {
                    all.last().angle
                }
            },
    {
        if data.len() < FRAME_HEADER_LEN || data[0] != FRAME_MAGIC {
            return None;
        }
        let metric_b = if self.has_range_b {
            Some(ctx.metric_b)
        } else {
            None
        };
        let m = parse_metadata_header(data, ctx.metric_a, metric_b);
        let is_range_b = m.radar_no == 1 && self.has_range_b;
        let pixel_values: u8 = if is_range_b {
            ctx.pixel_values_b
        } else {
            ctx.pixel_values_a
        };
        let mut sweeps = match self.read_frame(data, ctx) {
            Some(v) => v,
            None => {
                return None;
            },
        };
        let ghost all = self.frame_sweeps(data@, *ctx);
        assert(forall|i: int| 0 <= i < all.len() ==> #[trigger] all[i] == sweeps@[i]@);
        let mut spokes: Vec<Spoke> = Vec::new();
        let mut i: usize = 0;
        while i < sweeps.len()
            invariant
                i <= sweeps@.len(),
                m.scale < 0x800,
                spoke::sweeps_view(sweeps@) == all,
                spokes@.len() == i,
                forall|k: int|
                    0 <= k < i ==> (#[trigger] spokes@[k])@ == spoke_of(
                        sweeps@[k]@,
                        m,
                        self.model,
                        pixel_values,
                        *ctx,
                    ),
            decreases sweeps@.len() - i,
        {
            spokes.push(self.build_spoke(&m, &sweeps[i], pixel_values, ctx));
            i += 1;
        }
        let mut updates: Vec<Update> = Vec::new();
        if ctx.replay && sweeps.len() > 0 {
            updates.push(Update::Value { id: ControlId::Range, value: m.range as i64 });
            updates.push(Update::Power(Power::Transmit));
        }
        assert(updates@ =~= replay_updates(m, all.len(), ctx.replay));
        assert(radar::spokes_view(spokes@) =~= self.frame_spokes(data@, *ctx));
        match sweeps.pop() {
            Some(last) => {
                assert(last@ == all.last());
                if is_range_b {
                    self.prev_angle_b = last.angle;
                    self.prev_spoke_b = last.samples;
                } else {
                    self.prev_angle_a = last.angle;
                    self.prev_spoke_a = last.samples;
                }
            },
            None => {},
        }
        let range = if is_range_b {
            RangeId::B
        } else {
            RangeId::A
        };
        Some(Frame { range, spokes, updates })
    }
}

/// Frames of one range leave the sweeps of the other alone: what a later frame
/// of the other range decodes to does not depend on them.
pub proof fn law_ranges_are_independent(
    before: &FurunoReportReceiver,
    after: &FurunoReportReceiver,
    range: RangeId,
    data: Seq<u8>,
    ctx: FrameContext,
)
    requires
        after.same_but_sweeps(before, range),
        before.frame_range(data) != range,
    ensures
        after.frame_spokes(data, ctx) == before.frame_spokes(data, ctx),
        after.frame_complete(data, ctx) == before.frame_complete(data, ctx),
{
}

/// Every spoke that is handed on has the full spoke length.
pub proof fn law_spoke_length(
    receiver: &FurunoReportReceiver,
    data: Seq<u8>,
    ctx: FrameContext,
    i: int,
)
    requires
        0 <= i < receiver.frame_spokes(data, ctx).len(),
    ensures
        receiver.frame_spokes(data, ctx)[i].data.len() == SPOKE_LEN,
{
}

/// A frame belongs to range B where the radar has one and the frame names it.
pub proof fn law_frame_names_its_range(
    receiver: &FurunoReportReceiver,
    data: Seq<u8>,
    radar_no: int,
    low: int,
    high: int,
)
    requires
        data.len() >= 16,
        0 <= radar_no < 2,
        0 <= low < 64,
        0 <= high < 2,
        data[15] == low + 64 * radar_no + 128 * high,
    ensures
        receiver.frame_range(data) == RangeId::B <==> radar_no == 1 && receiver.has_range_b,
{
    assert(data[15] / 64 % 2 == radar_no);
}

/// The sweeps of a frame are those behind its header of 16 bytes, and a sweep may refer
/// to the last one of the same range.
pub proof fn law_sweeps_come_behind_the_header(
    receiver: &FurunoReportReceiver,
    header: Seq<u8>,
    body: Seq<u8>,
    ctx: FrameContext,
)
    requires
        header.len() == 16,
    ensures
        ({
            let data = header + body;
            let m = receiver.frame_metadata(data, ctx);
            receiver.frame_sweeps(data, ctx) == spoke::sweeps(
                m.encoding,
                m.sweep_len as int,
                body,
                m.sweep_count as nat,
                true,
                if receiver.frame_range(data) == RangeId::B {
                    receiver.prev_spoke_b@
                } else {
                    receiver.prev_spoke_a@
                },
            )
        }),
{
    assert((header + body).skip(16) =~= body);
}

/// Every sweep gives a spoke with its own direction and the range of the frame. The
/// heading is that of the sweep where the frame says that it has one, and else where the
/// bow points.
pub proof fn law_spokes_follow_sweeps(
    receiver: &FurunoReportReceiver,
    data: Seq<u8>,
    ctx: FrameContext,
    i: int,
)
    requires
        0 <= i < receiver.frame_sweeps(data, ctx).len(),
    ensures
        ({
            let sweep = receiver.frame_sweeps(data, ctx)[i];
            let m = receiver.frame_metadata(data, ctx);
            let spoke = receiver.frame_spokes(data, ctx)[i];
            &&& receiver.frame_spokes(data, ctx).len() == receiver.frame_sweeps(data, ctx).len()
            &&& spoke.angle == sweep.angle
            &&& spoke.range == m.range
            &&& m.have_heading == 1 ==> spoke.heading == Some(sweep.heading)
            &&& m.have_heading == 0 ==> spoke.heading == ctx.heading
        }),
{
}

/// Sample `k` of a sweep that has the full spoke length and covers the range becomes
/// sample `k` of the spoke: a quarter of the echo, or half of it for a weak transmitter,
/// cut off at the palette of its range.
pub proof fn law_full_sweep_becomes_spoke(
    receiver: &FurunoReportReceiver,
    data: Seq<u8>,
    ctx: FrameContext,
    i: int,
    k: int,
)
    requires
        0 <= i < receiver.frame_sweeps(data, ctx).len(),
        receiver.frame_sweeps(data, ctx)[i].samples.len() == 1024,
        receiver.frame_metadata(data, ctx).scale == 1024,
        !ctx.replay,
        0 <= k < 1024,
        ctx.pixel_values_a > 0,
        ctx.pixel_values_b > 0,
    ensures
        ({
            let echo = receiver.frame_sweeps(data, ctx)[i].samples[k];
            let sample = receiver.frame_spokes(data, ctx)[i].data[k];
            let top = if receiver.frame_range(data) == RangeId::B {
                ctx.pixel_values_b - 1
            } else {
                ctx.pixel_values_a - 1
            };
            let weak = receiver.model == RadarModel::DRS4W || receiver.model == RadarModel::DRS;
            let share = if weak { echo / 2 } else { echo / 4 };
            &&& receiver.frame_spokes(data, ctx)[i].data.len() == 1024
            &&& sample == if share < top { share as int } else { top }
        }),
{
    let samples = receiver.frame_sweeps(data, ctx)[i].samples;
    spoke::law_stretch_keeps_distances(samples, 1024, 1024, k, k);
}

/// A replayed frame with spokes shows its range and that the radar transmits; any other
/// frame changes no control.
pub proof fn law_replay_shows_range(m: FurunoSpokeMetadata, count: nat)
    ensures
        replay_updates(m, count, false).len() == 0,
        replay_updates(m, 0, true).len() == 0,
        count > 0 ==> replay_updates(m, count, true).contains(
            Update::Value { id: ControlId::Range, value: m.range as i64 },
        ) && replay_updates(m, count, true).contains(Update::Power(Power::Transmit)),
{
    if count > 0 {
        let u = replay_updates(m, count, true);
        assert(u[0] == Update::Value { id: ControlId::Range, value: m.range as i64 });
        assert(u[1] == Update::Power(Power::Transmit));
    }
}

} // verus!
