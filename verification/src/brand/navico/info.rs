//! Heading, course and speed for HALO radars.
//!
//! A HALO radar needs to know how the ship moves to mark Doppler returns. Where
//! nobody else tells it, these packets do.

use vstd::prelude::*;

use crate::bytes;
use crate::bytes::{push_all, push_be16, push_le16, push_le32};

verus! {

/// Milliseconds between heading packets.
pub const HEADING_INTERVAL: u64 = 100;

/// Milliseconds between navigation packets.
pub const NAVIGATION_INTERVAL: u64 = 250;

/// Milliseconds between speed packets.
pub const SPEED_INTERVAL: u64 = 250;

/// Start of a heading or navigation packet.
pub const INFO_MARKER: [u8; 8] = [0x4e, 0x4b, 0x4f, 0x45, 0, 1, 0x90, 0x02];

/// Behind the counter of a heading or navigation packet.
pub const U01_DEFAULT: [u8; 26] = [
    0, 0, 0x10, 0, 0, 0x14, 0, 0, 4, 0, 0, 0, 0, 0, 5, 0x3c, 0, 0, 0, 0, 0, 0, 0, 0, 0, 0x20,
];

/// Marks a heading packet.
pub const HEADING_KIND: [u8; 4] = [0x12, 0xf1, 0x01, 0x00];

/// Marks a navigation packet.
pub const NAVIGATION_KIND: [u8; 4] = [0x02, 0xf8, 0x01, 0x00];

/// Behind the time of a heading or navigation packet.
pub const INFO_FILLER: [u8; 17] = [0x02, 0, 0, 0, 0, 0, 0, 0, 0, 0, 0, 0, 0, 0, 0, 0, 0xff];

/// End of a heading packet.
pub const HEADING_U07_DEFAULT: [u8; 5] = [0xff, 0x7f, 0x79, 0xf8, 0xfc];

/// Start of a speed packet.
pub const SPEED_MARKER: [u8; 6] = [0x01, 0xd3, 0x01, 0x00, 0x00, 0x00];

/// Between the speed and the course of a speed packet.
pub const SPEED_U00: [u8; 6] = [0x00, 0x00, 0x01, 0x00, 0x00, 0x00];

/// End of a speed packet.
pub const SPEED_U02: [u8; 7] = [0x00, 0x00, 0x01, 0x33, 0x00, 0x00, 0x00];

/// The start that heading and navigation packets share: a counter, a kind and
/// the time in milliseconds.
pub open spec fn info_head(counter: u16, kind: Seq<u8>, epoch: u64) -> Seq<u8> {
    INFO_MARKER@ + bytes::be16_bytes(counter as int) + U01_DEFAULT@ + kind + bytes::le32_bytes(
        (epoch % 0x1_0000_0000) as int,
    ) + bytes::le32_bytes((epoch / 0x1_0000_0000) as int) + INFO_FILLER@
}

/// A heading packet. A heading of 0xf800 is a whole turn.
pub open spec fn heading_packet(counter: u16, epoch: u64, heading: u16) -> Seq<u8> {
    info_head(counter, HEADING_KIND@, epoch) + bytes::le16_bytes(heading as int)
        + HEADING_U07_DEFAULT@
}

/// A navigation packet, with the course in the unit of a heading and the speed
/// in centimeters per second.
pub open spec fn navigation_packet(counter: u16, epoch: u64, cog: u16, sog: u16) -> Seq<u8> {
    info_head(counter, NAVIGATION_KIND@, epoch) + seq![0xfcu8] + bytes::le16_bytes(cog as int)
        + bytes::le16_bytes(sog as int) + seq![0xffu8, 0xffu8]
}

/// A speed packet, with the speed in decimeters per second and the course in
/// tenths of a degree.
pub open spec fn speed_packet(sog: u16, cog: u16) -> Seq<u8> {
    SPEED_MARKER@ + bytes::le16_bytes(sog as int) + SPEED_U00@ + bytes::le16_bytes(cog as int)
        + SPEED_U02@
}

fn push_head(out: &mut Vec<u8>, counter: u16, kind: &[u8], epoch: u64)
    ensures
        final(out)@ == old(out)@ + info_head(counter, kind@, epoch),
{
    push_all(out, &INFO_MARKER);
    push_be16(out, counter);
    push_all(out, &U01_DEFAULT);
    push_all(out, kind);
    push_le32(out, (epoch % 0x1_0000_0000) as u32);
    push_le32(out, (epoch / 0x1_0000_0000) as u32);
    push_all(out, &INFO_FILLER);
    assert(out@ =~= old(out)@ + info_head(counter, kind@, epoch));
}

/// Build a heading packet.
pub fn build_heading_packet(counter: u16, epoch: u64, heading: u16) -> (r: Vec<u8>)
    ensures
        r@ == heading_packet(counter, epoch, heading),
{
    let mut out: Vec<u8> = Vec::new();
    push_head(&mut out, counter, &HEADING_KIND, epoch);
    push_le16(&mut out, heading);
    push_all(&mut out, &HEADING_U07_DEFAULT);
    assert(out@ =~= heading_packet(counter, epoch, heading));
    out
}

/// Build a navigation packet.
pub fn build_navigation_packet(counter: u16, epoch: u64, cog: u16, sog: u16) -> (r: Vec<u8>)
    ensures
        r@ == navigation_packet(counter, epoch, cog, sog),
{
    let mut out: Vec<u8> = Vec::new();
    push_head(&mut out, counter, &NAVIGATION_KIND, epoch);
    out.push(0xfc);
    push_le16(&mut out, cog);
    push_le16(&mut out, sog);
    out.push(0xff);
    out.push(0xff);
    assert(out@ =~= navigation_packet(counter, epoch, cog, sog));
    out
}

/// Build a speed packet.
pub fn build_speed_packet(sog: u16, cog: u16) -> (r: Vec<u8>)
    ensures
        r@ == speed_packet(sog, cog),
{
    let mut out: Vec<u8> = Vec::new();
    push_all(&mut out, &SPEED_MARKER);
    push_le16(&mut out, sog);
    push_all(&mut out, &SPEED_U00);
    push_le16(&mut out, cog);
    push_all(&mut out, &SPEED_U02);
    assert(out@ =~= speed_packet(sog, cog));
    out
}

/// Heading and navigation packets have 72 bytes, speed packets 23.
pub proof fn law_packet_lengths(counter: u16, epoch: u64, heading: u16, sog: u16)
    ensures
        heading_packet(counter, epoch, heading).len() == 72,
        navigation_packet(counter, epoch, heading, sog).len() == 72,
        speed_packet(sog, heading).len() == 23,
{
}

/// How the ship moves, in the units of the packets.
#[derive(Clone, Copy, Debug, PartialEq, Eq, Structural)]
pub struct Motion {
    /// The heading, where it is known.
    pub heading: Option<u16>,
    /// Whether the speed and the course are known.
    pub has_course: bool,
    /// The course for navigation packets.
    pub cog: u16,
    /// The speed in centimeters per second.
    pub sog_cm: u16,
    /// The speed in decimeters per second.
    pub sog_dm: u16,
    /// The course in tenths of a degree.
    pub cog_tenths: u16,
}

/// The packets that tell a radar how the ship moves, in the order of sending.
#[derive(Clone, Copy, Debug, PartialEq, Eq, Structural)]
pub enum InfoKind {
    Heading,
    Navigation,
    Speed,
}

/// When packets were last looked at, and how many were numbered.
#[derive(Clone, Copy, Debug, PartialEq, Eq, Structural)]
pub struct Information {
    pub counter: u16,
    pub last_heading: Option<u64>,
    pub last_navigation: Option<u64>,
    pub last_speed: Option<u64>,
}

/// The packets to send now.
pub struct InfoPackets {
    pub heading: Option<Vec<u8>>,
    pub navigation: Option<Vec<u8>>,
    /// Goes to both speed addresses.
    pub speed: Option<Vec<u8>>,
}

/// Whether `interval` milliseconds have passed since `last`.
pub open spec fn due(last: Option<u64>, now: u64, interval: u64) -> bool {
    match last {
        Some(t) => now - t >= interval,
        None => true,
    }
}

fn is_due(last: Option<u64>, now: u64, interval: u64) -> (r: bool)
    requires
        interval > 0,
    ensures
        r == due(last, now, interval),
{
    match last {
        Some(t) => now >= t && now - t >= interval,
        None => true,
    }
}

/// The bytes of an optional packet.
pub open spec fn packet_view(p: Option<Vec<u8>>) -> Option<Seq<u8>> {
    match p {
        Some(v) => Some(v@),
        None => None,
    }
}

impl Information {
    /// Whether a heading packet is to be sent.
    pub open spec fn sends_heading(self, now: u64, m: Motion) -> bool {
        due(self.last_heading, now, HEADING_INTERVAL) && m.heading is Some
    }

    /// Whether a navigation packet is to be sent.
    pub open spec fn sends_navigation(self, now: u64, m: Motion) -> bool {
        due(self.last_navigation, now, NAVIGATION_INTERVAL) && m.has_course
    }

    /// Whether a speed packet is to be sent.
    pub open spec fn sends_speed(self, now: u64, m: Motion) -> bool {
        due(self.last_speed, now, SPEED_INTERVAL) && m.has_course
    }

    /// Whether a packet of a kind is to be sent.
    pub open spec fn sends(self, now: u64, m: Motion, kind: InfoKind) -> bool {
        match kind {
            InfoKind::Heading => self.sends_heading(now, m),
            InfoKind::Navigation => self.sends_navigation(now, m),
            InfoKind::Speed => self.sends_speed(now, m),
        }
    }

    /// What is known once sending ended, with the packet that failed, where one did.
    /// Packets are numbered when they are handed to the socket, and noted when they
    /// were sent.
    pub open spec fn after_sending(
        self,
        now: u64,
        m: Motion,
        failed: Option<InfoKind>,
    ) -> Information {
        let at_heading = failed == Some(InfoKind::Heading) && self.sends_heading(now, m);
        let at_navigation = failed == Some(InfoKind::Navigation) && self.sends_navigation(now, m);
        let at_speed = failed == Some(InfoKind::Speed) && self.sends_speed(now, m);
        Information {
            counter: if !at_heading && self.sends_navigation(now, m) {
                next_counter(self.second_counter(now, m))
            } else {
                self.second_counter(now, m)
            },
            last_heading: if due(self.last_heading, now, HEADING_INTERVAL) && !at_heading {
                Some(now)
            } else {
                self.last_heading
            },
            last_navigation: if due(self.last_navigation, now, NAVIGATION_INTERVAL)
                && !at_heading && !at_navigation {
                Some(now)
            } else {
                self.last_navigation
            },
            last_speed: if due(self.last_speed, now, SPEED_INTERVAL) && !at_heading
                && !at_navigation && !at_speed {
                Some(now)
            } else {
                self.last_speed
            },
        }
    }

    /// The counter of the navigation packet.
    pub open spec fn second_counter(self, now: u64, m: Motion) -> u16 {
        if self.sends_heading(now, m) { next_counter(self.counter) } else { self.counter }
    }

    /// Nothing sent yet.
    pub fn new() -> (r: Information)
        ensures
            r == (Information {
                counter: 0,
                last_heading: None,
                last_navigation: None,
                last_speed: None,
            }),
    {
        Information { counter: 0, last_heading: None, last_navigation: None, last_speed: None }
    }

    /// The packets to send at `now` milliseconds, in the order heading, navigation,
    /// speed; `epoch` is the time of day in milliseconds.
    pub fn send_info_packets(&self, now: u64, epoch: u64, m: &Motion) -> (r: InfoPackets)
        ensures
            packet_view(r.heading) == if self.sends_heading(now, *m) {
                Some(heading_packet(self.counter, epoch, m.heading->0))
            } else {
                None
            },
            packet_view(r.navigation) == if self.sends_navigation(now, *m) {
                Some(
                    navigation_packet(self.second_counter(now, *m), epoch, m.cog, m.sog_cm),
                )
            } else {
                None
            },
            packet_view(r.speed) == if self.sends_speed(now, *m) {
                Some(speed_packet(m.sog_dm, m.cog_tenths))
            } else {
                None
            },
    {
        let mut packets = InfoPackets { heading: None, navigation: None, speed: None };
        let mut counter: u16 = self.counter;
        if is_due(self.last_heading, now, HEADING_INTERVAL) {
            match m.heading {
                Some(heading) => {
                    packets.heading = Some(build_heading_packet(counter, epoch, heading));
                    counter = counter.wrapping_add(1);
                },
                None => {},
            }
        }
        if is_due(self.last_navigation, now, NAVIGATION_INTERVAL) && m.has_course {
            packets.navigation = Some(build_navigation_packet(counter, epoch, m.cog, m.sog_cm));
        }
        if is_due(self.last_speed, now, SPEED_INTERVAL) && m.has_course {
            packets.speed = Some(build_speed_packet(m.sog_dm, m.cog_tenths));
        }
        packets
    }

    /// Take note of how sending went: `failed` is the packet that could not be sent,
    /// where there was one. Nothing was sent behind it. What was due counts as done up
    /// to there, also where nothing was known to send.
    pub fn info_packets_sent(&mut self, now: u64, m: &Motion, failed: Option<InfoKind>)
        ensures
            *final(self) == old(self).after_sending(now, *m, failed),
    {
        let heading_due = is_due(self.last_heading, now, HEADING_INTERVAL);
        let navigation_due = is_due(self.last_navigation, now, NAVIGATION_INTERVAL);
        let speed_due = is_due(self.last_speed, now, SPEED_INTERVAL);
        if heading_due {
            if m.heading.is_some() {
                self.counter = self.counter.wrapping_add(1);
                if failed == Some(InfoKind::Heading) {
                    return ;
                }
            }
            self.last_heading = Some(now);
        }
        if navigation_due {
            if m.has_course {
                self.counter = self.counter.wrapping_add(1);
                if failed == Some(InfoKind::Navigation) {
                    return ;
                }
            }
            self.last_navigation = Some(now);
        }
        if speed_due && !(m.has_course && failed == Some(InfoKind::Speed)) {
            self.last_speed = Some(now);
        }
    }
}

/// A packet that could not be sent is due again at once, and so are those behind it.
pub proof fn law_failed_packet_is_tried_again(
    s: Information,
    now: u64,
    m: Motion,
    failed: InfoKind,
)
    requires
        s.sends(now, m, failed),
    ensures
        s.after_sending(now, m, Some(failed)).sends(now, m, failed),
        failed == InfoKind::Heading ==> {
            let after = s.after_sending(now, m, Some(failed));
            &&& after.last_navigation == s.last_navigation
            &&& after.last_speed == s.last_speed
        },
        failed == InfoKind::Navigation ==> s.after_sending(now, m, Some(failed)).last_speed
            == s.last_speed,
{
}

/// After all packets were sent, none is due again at that time.
pub proof fn law_sent_packets_wait(s: Information, now: u64, m: Motion, kind: InfoKind)
    ensures
        !s.after_sending(now, m, None).sends(now, m, kind),
{
}

/// The counter behind another. It starts over after 65535.
pub open spec fn next_counter(counter: u16) -> u16 {
    if counter == u16::MAX { 0 } else { (counter + 1) as u16 }
}

/// A heading packet tells its number, the time and the heading, and is marked as one.
pub proof fn law_heading_is_told(counter: u16, epoch: u64, heading: u16)
    ensures
        ({
            let p = heading_packet(counter, epoch, heading);
            &&& p[0] == 0x4e && p[1] == 0x4b && p[2] == 0x4f && p[3] == 0x45
            &&& bytes::be16(p, 8) == counter
            &&& p[36] == 0x12 && p[37] == 0xf1
            &&& bytes::le64(p, 40) == epoch
            &&& bytes::holds16(p, 65, heading as int)
        }),
{
    let p = heading_packet(counter, epoch, heading);
    lemma_head(counter, HEADING_KIND@, epoch);
    let h = info_head(counter, HEADING_KIND@, epoch);
    assert(forall|i: int| 0 <= i < 65 ==> p[i] == h[i]);
}

proof fn lemma_head(counter: u16, kind: Seq<u8>, epoch: u64)
    requires
        kind.len() == 4,
    ensures
        ({
            let h = info_head(counter, kind, epoch);
            &&& h.len() == 65
            &&& h[0] == 0x4e && h[1] == 0x4b && h[2] == 0x4f && h[3] == 0x45
            &&& bytes::be16(h, 8) == counter
            &&& h[36] == kind[0] && h[37] == kind[1]
            &&& bytes::le64(h, 40) == epoch
        }),
{
    let h = info_head(counter, kind, epoch);
    let low = (epoch % 0x1_0000_0000) as u32;
    let high = (epoch / 0x1_0000_0000) as u32;
    bytes::lemma_le32_round_trip(low);
    bytes::lemma_le32_round_trip(high);
    assert(bytes::le32(h, 40) == bytes::le32(bytes::le32_bytes(low as int), 0));
    assert(bytes::le32(h, 44) == bytes::le32(bytes::le32_bytes(high as int), 0));
}

/// A navigation packet tells its number, the time, the course and the speed, and is marked
/// as one.
pub proof fn law_navigation_is_told(counter: u16, epoch: u64, cog: u16, sog: u16)
    ensures
        ({
            let p = navigation_packet(counter, epoch, cog, sog);
            &&& p[0] == 0x4e && p[1] == 0x4b && p[2] == 0x4f && p[3] == 0x45
            &&& bytes::be16(p, 8) == counter
            &&& p[36] == 0x02 && p[37] == 0xf8
            &&& bytes::le64(p, 40) == epoch
            &&& p[65] == 0xfc
            &&& bytes::holds16(p, 66, cog as int)
            &&& bytes::holds16(p, 68, sog as int)
        }),
{
    let p = navigation_packet(counter, epoch, cog, sog);
    lemma_head(counter, NAVIGATION_KIND@, epoch);
    let h = info_head(counter, NAVIGATION_KIND@, epoch);
    assert(forall|i: int| 0 <= i < 65 ==> p[i] == h[i]);
}

/// A speed packet tells the speed and the course.
pub proof fn law_speed_is_told(sog: u16, cog: u16)
    ensures
        ({
            let p = speed_packet(sog, cog);
            &&& p[0] == 0x01 && p[1] == 0xd3
            &&& bytes::holds16(p, 6, sog as int)
            &&& bytes::holds16(p, 14, cog as int)
        }),
{
}

/// Packets are numbered one behind the other: a navigation packet that is sent behind a
/// heading packet has the next number, and the next packet the one behind.
pub proof fn law_packets_are_numbered(s: Information, now: u64, m: Motion)
    ensures
        ({
            let heading: int = if s.sends_heading(now, m) { 1 } else { 0 };
            let navigation: int = if s.sends_navigation(now, m) { 1 } else { 0 };
            &&& s.second_counter(now, m) == (s.counter + heading) % 0x1_0000
            &&& s.after_sending(now, m, None).counter == (s.counter + heading + navigation)
                % 0x1_0000
        }),
{
}

/// Headings are told ten times a second, course and speed four times, where they are known.
pub proof fn law_packets_keep_their_pace(s: Information, now: u64, later: u64, m: Motion)
    requires
        now <= later,
        m.heading is Some,
        m.has_course,
        s.last_heading is None && s.last_navigation is None && s.last_speed is None,
    ensures
        ({
            let after = s.after_sending(now, m, None);
            &&& s.sends_heading(now, m) && s.sends_navigation(now, m) && s.sends_speed(now, m)
            &&& after.sends_heading(later, m) <==> later - now >= 100
            &&& after.sends_navigation(later, m) <==> later - now >= 250
            &&& after.sends_speed(later, m) <==> later - now >= 250
        }),
{
}

} // verus!
