//! The connection state machine as a mathematical value: what its state
//! is, and what every event makes of it.

use vstd::prelude::*;
use crate::apci::{FrameView, UFunction};
use crate::window::{seq_add, seq_distance};

verus! {

/// Window sizes and timer values of a connection. Times are in
/// milliseconds.
#[derive(Debug, Clone, Copy, PartialEq, Eq, Structural)]
pub struct ApciParameters {
    /// Largest number of sent I-frames that may wait for acknowledgement
    pub k: u16,
    /// Number of received I-frames after which an acknowledgement is sent
    pub w: u16,
    /// Time allowed for establishing the connection
    pub t0: u32,
    /// Time allowed for the acknowledgement of a sent frame
    pub t1: u32,
    /// Time after which received I-frames are acknowledged
    pub t2: u32,
    /// Idle time after which a test frame is sent
    pub t3: u32,
}

impl ApciParameters {
    /// Parameters that the protocol admits: `1 <= w < k <= 2^14` and
    /// `t2 < t1`.
    pub open spec fn valid(self) -> bool {
        1 <= self.w && self.w < self.k && self.k <= 16384 && self.t2 < self.t1
    }

    /// Whether the protocol admits these parameters.
    pub fn is_valid(&self) -> (r: bool)
        ensures
            r == self.valid(),
    {
        1 <= self.w && self.w < self.k && self.k <= 16384 && self.t2 < self.t1
    }
}

impl Default for ApciParameters {
    /// k = 12, w = 8, t0 = 30 s, t1 = 15 s, t2 = 10 s, t3 = 20 s.
    fn default() -> (p: Self)
        ensures
            p == (ApciParameters { k: 12, w: 8, t0: 30_000, t1: 15_000, t2: 10_000, t3: 20_000 }),
            p.valid(),
    {
        ApciParameters { k: 12, w: 8, t0: 30_000, t1: 15_000, t2: 10_000, t3: 20_000 }
    }
}

/// The data-transfer state of a connection.
#[derive(Debug, Clone, Copy, PartialEq, Eq, Hash, Structural)]
pub enum LinkState {
    /// No channel yet
    Idle,
    /// Channel open, data transfer stopped: only U-frames are permitted
    Stopped,
    /// Data transfer started
    Started,
    /// STOPDT-act sent, confirmation awaited
    WaitingUnconfirmedStopped,
    /// STARTDT-act sent, confirmation awaited
    WaitingUnconfirmedStarted,
    /// Connection closed
    Closed,
}

/// Why a connection was closed.
#[derive(Debug, Clone, Copy, PartialEq, Eq, Hash, Structural)]
pub enum CloseReason {
    /// An I-frame arrived while data transfer was not started.
    UnexpectedIFrame,
    /// An I-frame arrived whose send sequence number was not the expected
    /// one.
    OutOfOrder,
    /// A frame acknowledged what was not sent or not outstanding.
    BadAcknowledgement,
    /// The channel was not established in time (t0).
    ConnectTimeout,
    /// A frame was not answered in time (t1).
    AckTimeout,
}

/// What an event meant to the owner of the machine, as a mathematical
/// value.
pub enum IndicationView {
    /// Nothing to report.
    Nothing,
    /// The connection is now closed, for the given reason.
    Closed { reason: CloseReason },
    /// The peer asks for data transfer to start (STARTDT-act). The owner
    /// answers with `confirm_start` where it admits the peer.
    StartRequested,
    /// The peer confirmed the start of data transfer (STARTDT-con).
    StartConfirmed,
    /// The peer stopped data transfer (STOPDT-act), which was confirmed.
    StopRequested,
    /// The peer confirmed the stop of data transfer (STOPDT-con).
    StopConfirmed,
    /// The stop of data transfer was not confirmed in time and is taken
    /// as done.
    StopTimedOut,
    /// An I-frame arrived in order; these are the octets of its ASDU.
    Data { asdu: Seq<u8> },
}

/// A sent I-frame that waits for its acknowledgement, as a mathematical
/// value.
pub struct SentView {
    /// The send sequence number of the frame
    pub seq: u16,
    /// The octets of its ASDU
    pub bytes: Seq<u8>,
    /// When it was sent
    pub send_time: u64,
}

/// The time that has passed at `now` since `since`.
pub open spec fn elapsed(now: u64, since: u64) -> int {
    if now >= since {
        now - since
    } else {
        0
    }
}

/// Whether a timer of `limit` milliseconds that was started at `since` has
/// run out at `now`.
pub open spec fn expired(now: u64, since: u64, limit: u32) -> bool {
    elapsed(now, since) >= limit
}

/// The connection state machine as a mathematical value.
#[verifier::ext_equal]
pub struct LinkView {
    /// Window sizes and timer values
    pub params: ApciParameters,
    /// Data-transfer state
    pub state: LinkState,
    /// N(S): the sequence number of the next I-frame to send
    pub send_seq: u16,
    /// N(R): the sequence number expected of the next I-frame to arrive
    pub recv_seq: u16,
    /// The last N(R) that was sent to the peer
    pub ack_sent: u16,
    /// The number of received I-frames that are not acknowledged yet
    pub unacked: u16,
    /// The sent I-frames that are not acknowledged yet, oldest first
    pub buffer: Seq<SentView>,
    /// The time, as last told
    pub now: u64,
    /// When the wait for the channel began (t0)
    pub t0_from: u64,
    /// From when the oldest unacknowledged I-frame is timed (t1)
    pub t1_from: u64,
    /// When the unanswered STARTDT-act or STOPDT-act was sent (t1)
    pub u_sent: u64,
    /// When the unanswered TESTFR-act was sent, if one is (t1)
    pub test_sent: Option<u64>,
    /// When the last I-frame arrived (t2)
    pub last_rcv: u64,
    /// When the last frame was sent or arrived (t3)
    pub last_activity: u64,
    /// The frames to write to the channel, in order
    pub out: Seq<FrameView>,
}

impl LinkView {
    /// The machine before the channel is open.
    pub open spec fn initial(params: ApciParameters, now: u64) -> LinkView {
        LinkView {
            params,
            state: LinkState::Idle,
            send_seq: 0,
            recv_seq: 0,
            ack_sent: 0,
            unacked: 0,
            buffer: Seq::empty(),
            now,
            t0_from: now,
            t1_from: now,
            u_sent: now,
            test_sent: None,
            last_rcv: now,
            last_activity: now,
            out: Seq::empty(),
        }
    }

    /// The sequence number of the oldest unacknowledged I-frame, N(S) where
    /// there is none.
    pub open spec fn base(self) -> int {
        seq_add(self.send_seq as int, -(self.buffer.len() as int))
    }

    /// The send window is in order: at most `k` frames wait, and their
    /// sequence numbers run without gap up to the one before N(S).
    pub open spec fn window_in_order(self) -> bool {
        &&& self.buffer.len() <= self.params.k
        &&& forall|i: int|
            0 <= i < self.buffer.len() ==> (#[trigger] self.buffer[i]).seq == seq_add(
                self.send_seq as int,
                i - self.buffer.len(),
            )
    }

    /// The receive side is in order: the last acknowledgement sent lies
    /// `unacked` steps before N(R), and fewer than `w` frames wait for one.
    pub open spec fn receive_in_order(self) -> bool {
        &&& self.unacked < self.params.w
        &&& seq_distance(self.ack_sent as int, self.recv_seq as int) == self.unacked
    }

    /// The invariant of the machine.
    pub open spec fn wf(self) -> bool {
        &&& self.params.valid()
        &&& self.send_seq < 32768
        &&& self.recv_seq < 32768
        &&& self.ack_sent < 32768
        &&& self.window_in_order()
        &&& self.receive_in_order()
        &&& forall|i: int| 0 <= i < self.buffer.len() ==> (#[trigger] self.buffer[i]).bytes.len() <= 249
        &&& forall|i: int| 0 <= i < self.out.len() ==> (#[trigger] self.out[i]).wf()
        &&& (self.state is Closed ==> self.buffer.len() == 0)
    }

    /// The channel is open and not closed yet.
    pub open spec fn is_open(self) -> bool {
        !(self.state is Idle) && !(self.state is Closed)
    }

    /// The machine after it was told the time. Time does not run backwards.
    pub open spec fn advance(self, now: u64) -> LinkView {
        LinkView {
            now: if now > self.now {
                now
            } else {
                self.now
            },
            ..self
        }
    }

    /// The machine after it put `f` among the frames to write.
    pub open spec fn emit(self, f: FrameView) -> LinkView {
        LinkView { out: self.out.push(f), last_activity: self.now, ..self }
    }

    /// The machine after the connection was closed: the send buffer is
    /// discarded and no timer runs.
    pub open spec fn closed(self) -> LinkView {
        LinkView { state: LinkState::Closed, buffer: Seq::empty(), test_sent: None, ..self }
    }

    /// The machine after N(R) went out to the peer, in an S-frame or an
    /// I-frame.
    pub open spec fn acknowledged(self) -> LinkView {
        LinkView { ack_sent: self.recv_seq, unacked: 0, ..self }
    }

    /// The machine after it acknowledged, with an S-frame, what it had
    /// received and not acknowledged.
    pub open spec fn flush_ack(self) -> LinkView {
        if self.unacked > 0 {
            self.emit(FrameView::S { recv_seq: self.recv_seq }).acknowledged()
        } else {
            self
        }
    }

    /// The machine after data transfer started. What was received and not
    /// acknowledged is acknowledged at once.
    pub open spec fn started(self) -> LinkView {
        (LinkView { state: LinkState::Started, ..self }).flush_ack()
    }

    /// The machine after it sent a TESTFR-act.
    pub open spec fn send_test(self) -> LinkView {
        (LinkView { test_sent: Some(self.now), ..self }).emit(
            FrameView::U { function: UFunction::TestFrAct },
        )
    }

    /// The channel opened: an idle machine is now stopped.
    pub open spec fn open(self) -> LinkView {
        if self.state is Idle {
            LinkView { state: LinkState::Stopped, last_activity: self.now, ..self }
        } else {
            self
        }
    }

    /// Whether the application's request to start data transfer is sent:
    /// only a stopped machine sends it.
    pub open spec fn may_request_start(self) -> bool {
        self.state is Stopped
    }

    /// The application asks to start data transfer.
    pub open spec fn request_start(self) -> LinkView {
        if self.may_request_start() {
            (LinkView {
                state: LinkState::WaitingUnconfirmedStarted,
                u_sent: self.now,
                ..self
            }).emit(FrameView::U { function: UFunction::StartDtAct })
        } else {
            self
        }
    }

    /// Whether the application's request to stop data transfer is sent:
    /// only a started machine sends it.
    pub open spec fn may_request_stop(self) -> bool {
        self.state is Started
    }

    /// The application asks to stop data transfer.
    pub open spec fn request_stop(self) -> LinkView {
        if self.may_request_stop() {
            (LinkView {
                state: LinkState::WaitingUnconfirmedStopped,
                u_sent: self.now,
                ..self
            }).emit(FrameView::U { function: UFunction::StopDtAct })
        } else {
            self
        }
    }

    /// Whether a start that the peer asked for can be confirmed.
    pub open spec fn may_confirm_start(self) -> bool {
        self.state is Stopped || self.state is Started
    }

    /// The owner admits the peer that asked for data transfer to start.
    pub open spec fn confirm_start(self) -> LinkView {
        if self.may_confirm_start() {
            self.emit(FrameView::U { function: UFunction::StartDtCon }).started()
        } else {
            self
        }
    }

    /// Whether an ASDU of these octets can be sent now: data transfer is
    /// started, the window is not full, and the ASDU fits in an APDU.
    pub open spec fn can_send(self, asdu: Seq<u8>) -> bool {
        self.state is Started && self.buffer.len() < self.params.k && asdu.len() <= 249
    }

    /// The application sends an ASDU: an I-frame with N(S) and N(R) goes
    /// out and waits in the send buffer, N(S) moves on, and what was
    /// received is thereby acknowledged.
    pub open spec fn enqueue(self, asdu: Seq<u8>) -> LinkView {
        if self.can_send(asdu) {
            (LinkView {
                send_seq: seq_add(self.send_seq as int, 1) as u16,
                buffer: self.buffer.push(
                    SentView { seq: self.send_seq, bytes: asdu, send_time: self.now },
                ),
                t1_from: if self.buffer.len() == 0 {
                    self.now
                } else {
                    self.t1_from
                },
                ..self
            }).emit(
                FrameView::I { send_seq: self.send_seq, recv_seq: self.recv_seq, asdu },
            ).acknowledged()
        } else {
            self
        }
    }

    /// Whether the peer may acknowledge with `nr`: it lies between the
    /// oldest unacknowledged I-frame and N(S).
    pub open spec fn ack_valid(self, nr: u16) -> bool {
        nr < 32768 && seq_distance(self.base(), nr as int) <= self.buffer.len()
    }

    /// The machine after the peer acknowledged with `nr`: the frames before
    /// `nr` leave the send buffer, and the oldest that stays is timed from
    /// when it was sent.
    pub open spec fn apply_ack(self, nr: u16) -> LinkView {
        let rest = self.buffer.skip(seq_distance(self.base(), nr as int));
        LinkView {
            buffer: rest,
            t1_from: if rest.len() > 0 {
                rest[0].send_time
            } else {
                self.t1_from
            },
            ..self
        }
    }

    /// Whether I-frames are accepted in this state.
    pub open spec fn accepts_data(self) -> bool {
        self.state is Started || self.state is WaitingUnconfirmedStopped
    }

    /// An I-frame arrived.
    pub open spec fn on_i_frame(self, send_seq: u16, recv_seq: u16, asdu: Seq<u8>) -> (
        LinkView,
        IndicationView,
    ) {
        if !self.accepts_data() {
            (self.closed(), IndicationView::Closed { reason: CloseReason::UnexpectedIFrame })
        } else if send_seq != self.recv_seq {
            (self.closed(), IndicationView::Closed { reason: CloseReason::OutOfOrder })
        } else if !self.ack_valid(recv_seq) {
            (self.closed(), IndicationView::Closed { reason: CloseReason::BadAcknowledgement })
        } else {
            let counted = LinkView {
                recv_seq: seq_add(self.recv_seq as int, 1) as u16,
                unacked: (self.unacked + 1) as u16,
                last_rcv: self.now,
                ..self.apply_ack(recv_seq)
            };
            (
                if counted.unacked >= counted.params.w {
                    counted.flush_ack()
                } else {
                    counted
                },
                IndicationView::Data { asdu },
            )
        }
    }

    /// An S-frame arrived.
    pub open spec fn on_s_frame(self, recv_seq: u16) -> (LinkView, IndicationView) {
        if !self.ack_valid(recv_seq) {
            (self.closed(), IndicationView::Closed { reason: CloseReason::BadAcknowledgement })
        } else {
            (self.apply_ack(recv_seq), IndicationView::Nothing)
        }
    }

    /// A U-frame arrived.
    pub open spec fn on_u_frame(self, function: UFunction) -> (LinkView, IndicationView) {
        match function {
            UFunction::StartDtAct => if self.may_confirm_start() {
                (self, IndicationView::StartRequested)
            } else {
                (self, IndicationView::Nothing)
            },
            UFunction::StartDtCon => if self.state is WaitingUnconfirmedStarted {
                (self.started(), IndicationView::StartConfirmed)
            } else {
                (self, IndicationView::Nothing)
            },
            UFunction::StopDtAct => if self.state is Started {
                (
                    (LinkView { state: LinkState::Stopped, ..self.flush_ack() }).emit(
                        FrameView::U { function: UFunction::StopDtCon },
                    ),
                    IndicationView::StopRequested,
                )
            } else if self.state is Stopped {
                (
                    self.emit(FrameView::U { function: UFunction::StopDtCon }),
                    IndicationView::Nothing,
                )
            } else {
                (self, IndicationView::Nothing)
            },
            UFunction::StopDtCon => if self.state is WaitingUnconfirmedStopped {
                (LinkView { state: LinkState::Stopped, ..self }, IndicationView::StopConfirmed)
            } else {
                (self, IndicationView::Nothing)
            },
            UFunction::TestFrAct => (
                self.emit(FrameView::U { function: UFunction::TestFrCon }),
                IndicationView::Nothing,
            ),
            UFunction::TestFrCon => (
                LinkView { test_sent: None, t1_from: self.now, u_sent: self.now, ..self },
                IndicationView::Nothing,
            ),
        }
    }

    /// A frame arrived. A machine without an open channel ignores it.
    pub open spec fn on_frame(self, f: FrameView) -> (LinkView, IndicationView) {
        if !self.is_open() {
            (self, IndicationView::Nothing)
        } else {
            let heard = LinkView { last_activity: self.now, ..self };
            match f {
                FrameView::I { send_seq, recv_seq, asdu } => heard.on_i_frame(
                    send_seq,
                    recv_seq,
                    asdu,
                ),
                FrameView::S { recv_seq } => heard.on_s_frame(recv_seq),
                FrameView::U { function } => heard.on_u_frame(function),
            }
        }
    }

    /// Whether a sent frame has waited for its answer longer than t1: the
    /// TESTFR-act, the oldest I-frame, or the STARTDT-act or STOPDT-act.
    pub open spec fn t1_due(self) -> bool {
        ||| (self.test_sent matches Some(at) && expired(self.now, at, self.params.t1))
        ||| (self.buffer.len() > 0 && expired(self.now, self.t1_from, self.params.t1))
        ||| ((self.state is WaitingUnconfirmedStarted || self.state is WaitingUnconfirmedStopped)
            && expired(self.now, self.u_sent, self.params.t1))
    }

    /// The machine after t1 was started anew for the frames that wait for
    /// an answer.
    pub open spec fn rearm_t1(self) -> LinkView {
        LinkView { t1_from: self.now, u_sent: self.now, ..self }
    }

    /// What t1 asks for: with a TESTFR-act unanswered the connection closes;
    /// an unconfirmed stop is taken as done; otherwise a TESTFR-act goes
    /// out and t1 starts anew.
    pub open spec fn on_t1(self) -> (LinkView, IndicationView) {
        if !self.is_open() || !self.t1_due() {
            (self, IndicationView::Nothing)
        } else if self.test_sent is Some {
            (self.closed(), IndicationView::Closed { reason: CloseReason::AckTimeout })
        } else if self.state is WaitingUnconfirmedStopped && expired(
            self.now,
            self.u_sent,
            self.params.t1,
        ) {
            (LinkView { state: LinkState::Stopped, ..self }, IndicationView::StopTimedOut)
        } else {
            (self.rearm_t1().send_test(), IndicationView::Nothing)
        }
    }

    /// Whether received I-frames have waited for their acknowledgement
    /// longer than t2.
    pub open spec fn t2_due(self) -> bool {
        self.is_open() && self.unacked > 0 && expired(self.now, self.last_rcv, self.params.t2)
    }

    /// What t2 asks for: an S-frame with N(R).
    pub open spec fn on_t2(self) -> LinkView {
        if self.t2_due() {
            self.flush_ack()
        } else {
            self
        }
    }

    /// Whether the connection has been idle longer than t3 with no
    /// TESTFR-act unanswered.
    pub open spec fn t3_due(self) -> bool {
        self.is_open() && self.test_sent is None && expired(
            self.now,
            self.last_activity,
            self.params.t3,
        )
    }

    /// What t3 asks for: a TESTFR-act.
    pub open spec fn on_t3(self) -> LinkView {
        if self.t3_due() {
            self.send_test()
        } else {
            self
        }
    }

    /// Time passed: the machine is told the time and does what its timers
    /// ask for.
    pub open spec fn tick(self, now: u64) -> (LinkView, IndicationView) {
        let told = self.advance(now);
        if told.state is Idle {
            if expired(told.now, told.t0_from, told.params.t0) {
                (told.closed(), IndicationView::Closed { reason: CloseReason::ConnectTimeout })
            } else {
                (told, IndicationView::Nothing)
            }
        } else {
            let (after_t1, indication) = told.on_t1();
            (after_t1.on_t2().on_t3(), indication)
        }
    }
}

/// What can happen to the machine.
pub enum Event {
    /// The channel opened.
    Opened,
    /// The connection is closed, by the application or by the peer.
    Close,
    /// The application asks to start data transfer.
    RequestStart,
    /// The application asks to stop data transfer.
    RequestStop,
    /// The owner admits the peer that asked for data transfer to start.
    ConfirmStart,
    /// The application sends an ASDU.
    Enqueue { asdu: Seq<u8> },
    /// A frame arrived.
    Frame { frame: FrameView },
    /// The machine is told the time; its timers do not run.
    Clock { now: u64 },
    /// Time passed: the machine is told the time and its timers run.
    Tick { now: u64 },
}

impl LinkView {
    /// The machine after an event.
    pub open spec fn step(self, e: Event) -> LinkView {
        match e {
            Event::Opened => self.open(),
            Event::Close => self.closed(),
            Event::RequestStart => self.request_start(),
            Event::RequestStop => self.request_stop(),
            Event::ConfirmStart => self.confirm_start(),
            Event::Enqueue { asdu } => self.enqueue(asdu),
            Event::Frame { frame } => self.on_frame(frame).0,
            Event::Clock { now } => self.advance(now),
            Event::Tick { now } => self.tick(now).0,
        }
    }

    /// The machine after a sequence of events.
    pub open spec fn run(self, events: Seq<Event>) -> LinkView
        decreases events.len(),
    {
        if events.len() == 0 {
            self
        } else {
            self.run(events.drop_last()).step(events.last())
        }
    }
}

} // verus!
