//! The course of one connection to a Furuno radar: what to do next when a socket, a
//! timer or a client has something.

use vstd::prelude::*;

use super::report::ReceiveAddressType;
use crate::radar::RangeId;

verus! {

/// The shortest line that is a report, in bytes: the line end alone is none.
pub const MIN_REPORT_LEN: usize = 3;

/// One of the two ways in which spoke data arrives.
#[derive(Clone, Copy, Debug, PartialEq, Eq, Structural)]
pub enum DataSocket {
    Multicast,
    Broadcast,
}

/// What happened.
#[derive(Clone, Copy, Debug, PartialEq, Eq, Structural)]
pub enum Event {
    /// The server is to stop.
    Shutdown,
    /// The time for report requests has come.
    Deadline,
    /// A line of the given length was read.
    Line(usize),
    /// A line was taken in as a report, with or without success.
    Report(bool),
    /// A client sets a control of a range.
    Control(RangeId),
    /// A datagram came in; the flag says whether it is the radar's own.
    Data(DataSocket, bool),
    /// A socket failed, or a control could not be sent.
    Failure,
}

/// What to do.
#[derive(Clone, Copy, Debug, PartialEq, Eq, Structural)]
pub enum Action {
    Nothing,
    /// Stop for good.
    Leave,
    /// Close the connection, and try again later.
    Reconnect,
    /// Send the regular requests.
    RequestReports,
    /// Take the line in as a report.
    TakeReport,
    /// Send the first requests.
    Init,
    /// Send a control with the dual range id of its range.
    SendControl(i32),
    /// Take the datagram in as a spoke frame.
    TakeFrame,
}

/// State of one connection.
#[derive(Clone, Copy, Debug, PartialEq, Eq, Structural)]
pub struct Session {
    /// Whether commands can be sent: not while a recording is replayed.
    pub has_sender: bool,
    /// Whether the radar has a second range.
    pub has_range_b: bool,
    pub first_report_received: bool,
    pub receive_type: ReceiveAddressType,
    pub multicast_open: bool,
    pub broadcast_open: bool,
}

/// The way of receiving that a socket stands for.
pub open spec fn only(socket: DataSocket) -> ReceiveAddressType {
    match socket {
        DataSocket::Multicast => ReceiveAddressType::Multicast,
        DataSocket::Broadcast => ReceiveAddressType::Broadcast,
    }
}

/// The dual range id of a range.
pub open spec fn dual_range_id(range: RangeId) -> i32 {
    match range {
        RangeId::A => 0,
        RangeId::B => 1,
    }
}

/// Whether the socket is open.
pub open spec fn open(s: Session, socket: DataSocket) -> bool {
    match socket {
        DataSocket::Multicast => s.multicast_open,
        DataSocket::Broadcast => s.broadcast_open,
    }
}

/// The state once spoke data came in on a socket: the other one is given up.
pub open spec fn settled(s: Session, socket: DataSocket) -> Session {
    match socket {
        DataSocket::Multicast => Session {
            receive_type: ReceiveAddressType::Multicast,
            broadcast_open: false,
            ..s
        },
        DataSocket::Broadcast => Session {
            receive_type: ReceiveAddressType::Broadcast,
            multicast_open: false,
            ..s
        },
    }
}

/// The next state and what to do.
pub open spec fn step(s: Session, event: Event) -> (Session, Action) {
    match event {
        Event::Shutdown => (s, Action::Leave),
        Event::Deadline => (s, if s.has_sender { Action::RequestReports } else { Action::Nothing }),
        Event::Line(len) => (
            s,
            if len >= MIN_REPORT_LEN { Action::TakeReport } else { Action::Nothing },
        ),
        Event::Report(ok) => if ok && !s.first_report_received {
            (
                Session { first_report_received: true, ..s },
                if s.has_sender { Action::Init } else { Action::Nothing },
            )
        } else {
            (s, Action::Nothing)
        },
        Event::Control(range) => (
            s,
            if range == RangeId::A || s.has_range_b {
                Action::SendControl(dual_range_id(range))
            } else {
                Action::Nothing
            },
        ),
        Event::Data(socket, own) => if own && open(s, socket) {
            (settled(s, socket), Action::TakeFrame)
        } else {
            (s, Action::Nothing)
        },
        Event::Failure => (s, Action::Reconnect),
    }
}

impl Session {
    /// A connection whose data sockets were opened as far as they could. There is none
    /// without a data socket.
    pub fn start(
        receive_type: ReceiveAddressType,
        multicast_open: bool,
        broadcast_open: bool,
        has_sender: bool,
        has_range_b: bool,
    ) -> (r: Option<Session>)
        ensures
            r == if multicast_open || broadcast_open {
                Some(
                    Session {
                        has_sender,
                        has_range_b,
                        first_report_received: false,
                        receive_type,
                        multicast_open,
                        broadcast_open,
                    },
                )
            } else {
                None
            },
    {
        if multicast_open || broadcast_open {
            Some(
                Session {
                    has_sender,
                    has_range_b,
                    first_report_received: false,
                    receive_type,
                    multicast_open,
                    broadcast_open,
                },
            )
        } else {
            None
        }
    }

    /// Takes in what happened, and says what to do.
    pub fn next(&mut self, event: Event) -> (r: Action)
        ensures
            (*final(self), r) == step(*old(self), event),
    {
        match event {
            Event::Shutdown => Action::Leave,
            Event::Deadline => if self.has_sender {
                Action::RequestReports
            } else {
                Action::Nothing
            },
            Event::Line(len) => if len >= MIN_REPORT_LEN {
                Action::TakeReport
            } else {
                Action::Nothing
            },
            Event::Report(ok) => {
                if ok && !self.first_report_received {
                    self.first_report_received = true;
                    if self.has_sender {
                        return Action::Init;
                    }
                }
                Action::Nothing
            },
            Event::Control(RangeId::A) => Action::SendControl(0),
            Event::Control(RangeId::B) => if self.has_range_b {
                Action::SendControl(1)
            } else {
                Action::Nothing
            },
            Event::Data(DataSocket::Multicast, own) => {
                if own && self.multicast_open {
                    self.receive_type = ReceiveAddressType::Multicast;
                    self.broadcast_open = false;
                    return Action::TakeFrame;
                }
                Action::Nothing
            },
            Event::Data(DataSocket::Broadcast, own) => {
                if own && self.broadcast_open {
                    self.receive_type = ReceiveAddressType::Broadcast;
                    self.multicast_open = false;
                    return Action::TakeFrame;
                }
                Action::Nothing
            },
            Event::Failure => Action::Reconnect,
        }
    }
}

/// The state after a row of events.
pub open spec fn after(s: Session, events: Seq<Event>) -> Session
    decreases events.len(),
{
    if events.len() == 0 {
        s
    } else {
        step(after(s, events.drop_last()), events.last()).0
    }
}

/// The first requests are sent once: after the first report that was taken in nothing
/// makes the radar get them again.
pub proof fn law_init_is_sent_once(s: Session, events: Seq<Event>, event: Event)
    requires
        s.first_report_received,
    ensures
        step(after(s, events), event).1 != Action::Init,
    decreases events.len(),
{
    lemma_first_report_stays(s, events);
}

proof fn lemma_first_report_stays(s: Session, events: Seq<Event>)
    requires
        s.first_report_received,
    ensures
        after(s, events).first_report_received,
    decreases events.len(),
{
    if events.len() > 0 {
        lemma_first_report_stays(s, events.drop_last());
    }
}

/// One way of receiving is kept: once spoke data came in on a socket, that socket stays
/// open and the other stays closed, whatever happens.
pub proof fn law_one_way_is_kept(s: Session, socket: DataSocket, events: Seq<Event>)
    requires
        open(s, socket),
    ensures
        ({
            let t = after(step(s, Event::Data(socket, true)).0, events);
            let other = if socket == DataSocket::Multicast {
                DataSocket::Broadcast
            } else {
                DataSocket::Multicast
            };
            open(t, socket) && !open(t, other) && t.receive_type == only(socket)
        }),
    decreases events.len(),
{
    if events.len() > 0 {
        law_one_way_is_kept(s, socket, events.drop_last());
    }
}

/// Datagrams of others are ignored.
pub proof fn law_foreign_data_is_ignored(s: Session, socket: DataSocket)
    ensures
        step(s, Event::Data(socket, false)) == (s, Action::Nothing),
{
}

/// A control goes to its range: as the first range for A, as the second for B where there
/// is one.
pub proof fn law_controls_go_to_their_range(s: Session)
    ensures
        step(s, Event::Control(RangeId::A)) == (s, Action::SendControl(0)),
        s.has_range_b ==> step(s, Event::Control(RangeId::B)) == (s, Action::SendControl(1)),
        !s.has_range_b ==> step(s, Event::Control(RangeId::B)) == (s, Action::Nothing),
{
}

/// Nothing is asked of a radar that cannot be sent to; one that can is asked for its state
/// when its first report was understood, and for reports when their time has come.
pub proof fn law_requests_need_a_sender(s: Session, event: Event)
    ensures
        !s.has_sender ==> step(s, event).1 != Action::Init && step(s, event).1
            != Action::RequestReports,
        s.has_sender ==> step(s, Event::Deadline).1 == Action::RequestReports,
        s.has_sender && !s.first_report_received ==> step(s, Event::Report(true)).1 == Action::Init,
        step(s, Event::Report(false)) == (s, Action::Nothing),
        step(s, Event::Failure).1 == Action::Reconnect,
        step(s, event).1 == Action::Leave <==> event == Event::Shutdown,
{
}

/// A line is a report where it holds more than its end.
pub proof fn law_empty_lines_are_skipped(s: Session, len: usize)
    ensures
        step(s, Event::Line(len)).1 == if len <= 2 { Action::Nothing } else { Action::TakeReport },
        step(s, Event::Line(len)).0 == s,
{
}

} // verus!
