//! The connection state machine: data-transfer state, send and receive
//! sequence numbers, the window of unacknowledged I-frames and the four
//! timers.
//!
//! The machine does no I/O. Its owner hands it what happens (the channel
//! opened, a frame arrived, time passed, the application wants to send) and
//! takes from it the frames to write and an indication of what the event
//! meant. `model` holds the machine as a mathematical value, `LinkView`,
//! whose functions say for every event what the next state is; `laws` holds
//! what is proved of it.

pub mod laws;
pub mod model;

use vstd::prelude::*;
use crate::apci::{Frame, FrameView, UFunction};
use crate::bytes::copy_of;
use crate::link::laws::{enqueue_keeps_wf, on_frame_keeps_wf, on_t1_keeps_wf, tick_keeps_wf};
use crate::link::model::{expired, SentView};
pub use crate::link::model::{
    ApciParameters, CloseReason, Event, IndicationView, LinkState, LinkView,
};
use crate::window::{distance, next_seq, seq_add};

verus! {

/// What an event meant to the owner of the machine.
#[derive(Debug, PartialEq, Eq)]
pub enum Indication {
    /// Nothing to report.
    Nothing,
    /// The connection is now closed, for the given reason.
    Closed { reason: CloseReason },
    /// The peer asks for data transfer to start (STARTDT-act). The owner
    /// answers with `confirm_start` where it admits the peer.
    StartRequested,
    /// The peer confirmed the start of data transfer (STARTDT-con).
    StartConfirmed,
    /// The peer stopped data transfer (STOPDT-act), which was confirmed.
    StopRequested,
    /// The peer confirmed the stop of data transfer (STOPDT-con).
    StopConfirmed,
    /// The stop of data transfer was not confirmed in time and is taken
    /// as done.
    StopTimedOut,
    /// An I-frame arrived in order; these are the octets of its ASDU.
    Data { asdu: Vec<u8> },
}

impl View for Indication {
    type V = IndicationView;

    open spec fn view(&self) -> IndicationView {
        match *self {
            Indication::Nothing => IndicationView::Nothing,
            Indication::Closed { reason } => IndicationView::Closed { reason },
            Indication::StartRequested => IndicationView::StartRequested,
            Indication::StartConfirmed => IndicationView::StartConfirmed,
            Indication::StopRequested => IndicationView::StopRequested,
            Indication::StopConfirmed => IndicationView::StopConfirmed,
            Indication::StopTimedOut => IndicationView::StopTimedOut,
            Indication::Data { asdu } => IndicationView::Data { asdu: asdu@ },
        }
    }
}

/// A sent I-frame that waits for its acknowledgement.
#[derive(Debug)]
pub struct SentFrame {
    /// The send sequence number of the frame
    pub seq: u16,
    /// The octets of its ASDU
    pub bytes: Vec<u8>,
    /// When it was sent
    pub send_time: u64,
}

impl View for SentFrame {
    type V = SentView;

    open spec fn view(&self) -> SentView {
        SentView { seq: self.seq, bytes: self.bytes@, send_time: self.send_time }
    }
}

fn has_expired(now: u64, since: u64, limit: u32) -> (r: bool)
    ensures
        r == expired(now, since, limit),
{
    if now >= since {
        now - since >= limit as u64
    } else {
        limit == 0
    }
}

/// A connection state machine.
#[derive(Debug)]
pub struct Link {
    params: ApciParameters,
    state: LinkState,
    send_seq: u16,
    recv_seq: u16,
    ack_sent: u16,
    unacked: u16,
    buffer: Vec<SentFrame>,
    now: u64,
    t0_from: u64,
    t1_from: u64,
    u_sent: u64,
    test_sent: Option<u64>,
    last_rcv: u64,
    last_activity: u64,
    out: Vec<Frame>,
}

impl View for Link {
    type V = LinkView;

    closed spec fn view(&self) -> LinkView {
        LinkView {
            params: self.params,
            state: self.state,
            send_seq: self.send_seq,
            recv_seq: self.recv_seq,
            ack_sent: self.ack_sent,
            unacked: self.unacked,
            buffer: self.buffer@.map_values(|f: SentFrame| f@),
            now: self.now,
            t0_from: self.t0_from,
            t1_from: self.t1_from,
            u_sent: self.u_sent,
            test_sent: self.test_sent,
            last_rcv: self.last_rcv,
            last_activity: self.last_activity,
            out: self.out@.map_values(|f: Frame| f@),
        }
    }
}

impl Link {
    /// A machine with the given parameters, before the channel is open.
    /// `None` where the protocol does not admit the parameters.
    pub fn new(params: ApciParameters, now: u64) -> (r: Option<Self>)
        ensures
            r is Some == params.valid(),
            r matches Some(link) ==> link@ == LinkView::initial(params, now) && link@.wf(),
    {
        if !params.is_valid() {
            return None;
        }
        let link = Link {
            params,
            state: LinkState::Idle,
            send_seq: 0,
            recv_seq: 0,
            ack_sent: 0,
            unacked: 0,
            buffer: Vec::new(),
            now,
            t0_from: now,
            t1_from: now,
            u_sent: now,
            test_sent: None,
            last_rcv: now,
            last_activity: now,
            out: Vec::new(),
        };
        assert(link@ =~= LinkView::initial(params, now));
        Some(link)
    }

    /// The data-transfer state.
    pub fn state(&self) -> (s: LinkState)
        ensures
            s == self@.state,
    {
        self.state
    }

    /// The parameters.
    pub fn params(&self) -> (p: ApciParameters)
        ensures
            p == self@.params,
    {
        self.params
    }

    /// N(S): the sequence number of the next I-frame to send.
    pub fn send_seq(&self) -> (s: u16)
        ensures
            s == self@.send_seq,
    {
        self.send_seq
    }

    /// N(R): the sequence number expected of the next I-frame to arrive.
    pub fn recv_seq(&self) -> (s: u16)
        ensures
            s == self@.recv_seq,
    {
        self.recv_seq
    }

    /// The last N(R) that was sent to the peer.
    pub fn ack_sent(&self) -> (s: u16)
        ensures
            s == self@.ack_sent,
    {
        self.ack_sent
    }

    /// The number of received I-frames that are not acknowledged yet.
    pub fn unacked_rcv_count(&self) -> (n: u16)
        ensures
            n == self@.unacked,
    {
        self.unacked
    }

    /// The number of sent I-frames that are not acknowledged yet.
    pub fn send_buffer_len(&self) -> (n: usize)
        ensures
            n == self@.buffer.len(),
    {
        self.buffer.len()
    }

    /// The time, as last told.
    pub fn now(&self) -> (t: u64)
        ensures
            t == self@.now,
    {
        self.now
    }

    /// Whether the send window is full.
    pub fn is_window_full(&self) -> (r: bool)
        ensures
            r == (self@.buffer.len() >= self@.params.k),
    {
        self.buffer.len() >= self.params.k as usize
    }

    /// Tell the machine the time, without running its timers.
    pub fn set_time(&mut self, now: u64)
        requires
            old(self)@.wf(),
        ensures
            final(self)@ == old(self)@.advance(now),
            final(self)@.wf(),
    {
        if now > self.now {
            self.now = now;
        }
        assert(self@ =~= old(self)@.advance(now));
    }

    fn emit(&mut self, f: Frame)
        requires
            f@.wf(),
        ensures
            final(self)@ == old(self)@.emit(f@),
    {
        self.out.push(f);
        self.last_activity = self.now;
        assert(self@.out =~= old(self)@.out.push(f@));
        assert(self@ =~= old(self)@.emit(f@));
    }

    fn flush_ack(&mut self)
        requires
            old(self)@.recv_seq < 32768,
        ensures
            final(self)@ == old(self)@.flush_ack(),
    {
        if self.unacked > 0 {
            self.emit(Frame::S { recv_seq: self.recv_seq });
            self.ack_sent = self.recv_seq;
            self.unacked = 0;
        }
        assert(self@ =~= old(self)@.flush_ack());
    }

    fn send_test(&mut self)
        ensures
            final(self)@ == old(self)@.send_test(),
    {
        self.test_sent = Some(self.now);
        self.emit(Frame::U { function: UFunction::TestFrAct });
        assert(self@ =~= old(self)@.send_test());
    }

    fn enter_closed(&mut self)
        ensures
            final(self)@ == old(self)@.closed(),
    {
        self.state = LinkState::Closed;
        self.buffer = Vec::new();
        self.test_sent = None;
        assert(self@.buffer =~= Seq::<SentView>::empty());
        assert(self@ =~= old(self)@.closed());
    }

    fn enter_started(&mut self)
        requires
            old(self)@.recv_seq < 32768,
        ensures
            final(self)@ == old(self)@.started(),
    {
        self.state = LinkState::Started;
        self.flush_ack();
    }

    /// The channel opened.
    pub fn open(&mut self)
        requires
            old(self)@.wf(),
        ensures
            final(self)@ == old(self)@.open(),
            final(self)@.wf(),
    {
        if self.state == LinkState::Idle {
            self.state = LinkState::Stopped;
            self.last_activity = self.now;
        }
        assert(self@ =~= old(self)@.open());
    }

    /// Close the connection: the send buffer is discarded and no timer
    /// runs any more.
    pub fn close(&mut self)
        requires
            old(self)@.wf(),
        ensures
            final(self)@ == old(self)@.closed(),
            final(self)@.wf(),
    {
        self.enter_closed();
    }

    /// Ask the peer to start data transfer (STARTDT-act). Returns whether
    /// the request went out, which it does from the stopped state only.
    pub fn request_start(&mut self) -> (sent: bool)
        requires
            old(self)@.wf(),
        ensures
            sent == old(self)@.may_request_start(),
            final(self)@ == old(self)@.request_start(),
            final(self)@.wf(),
    {
        if self.state != LinkState::Stopped {
            return false;
        }
        self.state = LinkState::WaitingUnconfirmedStarted;
        self.u_sent = self.now;
        self.emit(Frame::U { function: UFunction::StartDtAct });
        true
    }

    /// Ask the peer to stop data transfer (STOPDT-act). Returns whether the
    /// request went out, which it does from the started state only.
    pub fn request_stop(&mut self) -> (sent: bool)
        requires
            old(self)@.wf(),
        ensures
            sent == old(self)@.may_request_stop(),
            final(self)@ == old(self)@.request_stop(),
            final(self)@.wf(),
    {
        if self.state != LinkState::Started {
            return false;
        }
        self.state = LinkState::WaitingUnconfirmedStopped;
        self.u_sent = self.now;
        self.emit(Frame::U { function: UFunction::StopDtAct });
        true
    }

    /// Admit the peer that asked for data transfer to start: STARTDT-con
    /// goes out and data transfer is started. Returns whether it did, which
    /// is from the stopped and the started state only.
    pub fn confirm_start(&mut self) -> (confirmed: bool)
        requires
            old(self)@.wf(),
        ensures
            confirmed == old(self)@.may_confirm_start(),
            final(self)@ == old(self)@.confirm_start(),
            final(self)@.wf(),
    {
        if self.state != LinkState::Stopped && self.state != LinkState::Started {
            return false;
        }
        self.emit(Frame::U { function: UFunction::StartDtCon });
        self.enter_started();
        true
    }

    /// Send an ASDU in an I-frame. Returns `false`, with nothing changed,
    /// where data transfer is not started, the send window is full or the
    /// ASDU is longer than 249 octets; the caller tries again later.
    pub fn enqueue(&mut self, asdu: &[u8]) -> (sent: bool)
        requires
            old(self)@.wf(),
        ensures
            sent == old(self)@.can_send(asdu@),
            final(self)@ == old(self)@.enqueue(asdu@),
            final(self)@.wf(),
    {
        if self.state != LinkState::Started || self.buffer.len() >= self.params.k as usize
            || asdu.len() > 249 {
            return false;
        }
        let seq: u16 = self.send_seq;
        if self.buffer.len() == 0 {
            self.t1_from = self.now;
        }
        self.buffer.push(SentFrame { seq, bytes: copy_of(asdu), send_time: self.now });
        self.send_seq = next_seq(seq);
        assert(self@.buffer =~= old(self)@.buffer.push(
            SentView { seq, bytes: asdu@, send_time: self.now },
        ));
        self.emit(Frame::I { send_seq: seq, recv_seq: self.recv_seq, asdu: copy_of(asdu) });
        self.ack_sent = self.recv_seq;
        self.unacked = 0;
        assert(self@ =~= old(self)@.enqueue(asdu@));
        proof {
            enqueue_keeps_wf(old(self)@, asdu@);
        }
        true
    }

    fn ack_valid(&self, nr: u16) -> (r: bool)
        requires
            self@.wf(),
        ensures
            r == self@.ack_valid(nr),
    {
        if nr >= 32768 {
            return false;
        }
        let base: u16 = self.base_seq();
        distance(base, nr) as usize <= self.buffer.len()
    }

    fn base_seq(&self) -> (base: u16)
        requires
            self@.wf(),
        ensures
            base == self@.base(),
            base < 32768,
    {
        let len: u16 = self.buffer.len() as u16;
        if self.send_seq >= len {
            self.send_seq - len
        } else {
            32768 - len + self.send_seq
        }
    }

    fn apply_ack(&mut self, nr: u16)
        requires
            old(self)@.wf(),
            old(self)@.ack_valid(nr),
        ensures
            final(self)@ == old(self)@.apply_ack(nr),
    {
        let base: u16 = self.base_seq();
        let acked: usize = distance(base, nr) as usize;
        let rest: Vec<SentFrame> = self.buffer.split_off(acked);
        self.buffer = rest;
        if self.buffer.len() > 0 {
            self.t1_from = self.buffer[0].send_time;
        }
        assert(self@.buffer =~= old(self)@.buffer.skip(acked as int));
        assert(self@ =~= old(self)@.apply_ack(nr));
    }

    fn on_i_frame(&mut self, send_seq: u16, recv_seq: u16, asdu: Vec<u8>) -> (r: Indication)
        requires
            old(self)@.wf(),
        ensures
            (final(self)@, r@) == old(self)@.on_i_frame(send_seq, recv_seq, asdu@),
    {
        if self.state != LinkState::Started && self.state != LinkState::WaitingUnconfirmedStopped {
            self.enter_closed();
            return Indication::Closed { reason: CloseReason::UnexpectedIFrame };
        }
        if send_seq != self.recv_seq {
            self.enter_closed();
            return Indication::Closed { reason: CloseReason::OutOfOrder };
        }
        if !self.ack_valid(recv_seq) {
            self.enter_closed();
            return Indication::Closed { reason: CloseReason::BadAcknowledgement };
        }
        self.apply_ack(recv_seq);
        self.recv_seq = next_seq(self.recv_seq);
        self.unacked = self.unacked + 1;
        self.last_rcv = self.now;
        let ghost counted = self@;
        assert(counted =~= (LinkView {
            recv_seq: seq_add(old(self)@.recv_seq as int, 1) as u16,
            unacked: (old(self)@.unacked + 1) as u16,
            last_rcv: old(self)@.now,
            ..old(self)@.apply_ack(recv_seq)
        }));
        if self.unacked >= self.params.w {
            self.flush_ack();
        }
        Indication::Data { asdu }
    }

    fn on_s_frame(&mut self, recv_seq: u16) -> (r: Indication)
        requires
            old(self)@.wf(),
        ensures
            (final(self)@, r@) == old(self)@.on_s_frame(recv_seq),
    {
        if !self.ack_valid(recv_seq) {
            self.enter_closed();
            return Indication::Closed { reason: CloseReason::BadAcknowledgement };
        }
        self.apply_ack(recv_seq);
        Indication::Nothing
    }

    fn on_u_frame(&mut self, function: UFunction) -> (r: Indication)
        requires
            old(self)@.wf(),
        ensures
            (final(self)@, r@) == old(self)@.on_u_frame(function),
    {
        match function {
            UFunction::StartDtAct => {
                if self.state == LinkState::Stopped || self.state == LinkState::Started {
                    Indication::StartRequested
                } else {
                    Indication::Nothing
                }
            },
            UFunction::StartDtCon => {
                if self.state == LinkState::WaitingUnconfirmedStarted {
                    self.enter_started();
                    Indication::StartConfirmed
                } else {
                    Indication::Nothing
                }
            },
            UFunction::StopDtAct => {
                if self.state == LinkState::Started {
                    self.flush_ack();
                    self.state = LinkState::Stopped;
                    self.emit(Frame::U { function: UFunction::StopDtCon });
                    Indication::StopRequested
                } else if self.state == LinkState::Stopped {
                    self.emit(Frame::U { function: UFunction::StopDtCon });
                    Indication::Nothing
                } else {
                    Indication::Nothing
                }
            },
            UFunction::StopDtCon => {
                if self.state == LinkState::WaitingUnconfirmedStopped {
                    self.state = LinkState::Stopped;
                    assert(self@ =~= (LinkView { state: LinkState::Stopped, ..old(self)@ }));
                    Indication::StopConfirmed
                } else {
                    Indication::Nothing
                }
            },
            UFunction::TestFrAct => {
                self.emit(Frame::U { function: UFunction::TestFrCon });
                Indication::Nothing
            },
            UFunction::TestFrCon => {
                self.test_sent = None;
                self.t1_from = self.now;
                self.u_sent = self.now;
                assert(self@ =~= (LinkView {
                    test_sent: None,
                    t1_from: old(self)@.now,
                    u_sent: old(self)@.now,
                    ..old(self)@
                }));
                Indication::Nothing
            },
        }
    }

    /// A frame arrived. The result says what it meant; the frames to answer
    /// with wait in the output.
    pub fn handle_frame(&mut self, frame: Frame) -> (r: Indication)
        requires
            old(self)@.wf(),
        ensures
            (final(self)@, r@) == old(self)@.on_frame(frame@),
            final(self)@.wf(),
    {
        proof {
            on_frame_keeps_wf(self@, frame@);
        }
        if self.state == LinkState::Idle || self.state == LinkState::Closed {
            return Indication::Nothing;
        }
        self.last_activity = self.now;
        assert(self@ =~= (LinkView { last_activity: old(self)@.now, ..old(self)@ }));
        match frame {
            Frame::I { send_seq, recv_seq, asdu } => self.on_i_frame(send_seq, recv_seq, asdu),
            Frame::S { recv_seq } => self.on_s_frame(recv_seq),
            Frame::U { function } => self.on_u_frame(function),
        }
    }

    fn t1_due(&self) -> (r: bool)
        requires
            self@.wf(),
        ensures
            r == self@.t1_due(),
    {
        let t1: u32 = self.params.t1;
        let test: bool = match self.test_sent {
            Some(at) => has_expired(self.now, at, t1),
            None => false,
        };
        let oldest: bool = self.buffer.len() > 0 && has_expired(self.now, self.t1_from, t1);
        let waiting: bool = (self.state == LinkState::WaitingUnconfirmedStarted || self.state
            == LinkState::WaitingUnconfirmedStopped) && has_expired(self.now, self.u_sent, t1);
        test || oldest || waiting
    }

    fn on_t1(&mut self) -> (r: Indication)
        requires
            old(self)@.wf(),
        ensures
            (final(self)@, r@) == old(self)@.on_t1(),
    {
        if self.state == LinkState::Idle || self.state == LinkState::Closed || !self.t1_due() {
            return Indication::Nothing;
        }
        if self.test_sent.is_some() {
            self.enter_closed();
            return Indication::Closed { reason: CloseReason::AckTimeout };
        }
        if self.state == LinkState::WaitingUnconfirmedStopped && has_expired(
            self.now,
            self.u_sent,
            self.params.t1,
        ) {
            self.state = LinkState::Stopped;
            assert(self@ =~= (LinkView { state: LinkState::Stopped, ..old(self)@ }));
            return Indication::StopTimedOut;
        }
        self.t1_from = self.now;
        self.u_sent = self.now;
        assert(self@ =~= old(self)@.rearm_t1());
        self.send_test();
        Indication::Nothing
    }

    /// Time passed: tell the machine the time and let it do what its timers
    /// ask for. The result says whether the connection closed or a stop
    /// timed out; the frames to send wait in the output.
    pub fn tick(&mut self, now: u64) -> (r: Indication)
        requires
            old(self)@.wf(),
        ensures
            (final(self)@, r@) == old(self)@.tick(now),
            final(self)@.wf(),
    {
        proof {
            tick_keeps_wf(self@, now);
        }
        self.set_time(now);
        if self.state == LinkState::Idle {
            if has_expired(self.now, self.t0_from, self.params.t0) {
                self.enter_closed();
                return Indication::Closed { reason: CloseReason::ConnectTimeout };
            }
            return Indication::Nothing;
        }
        let r = self.on_t1();
        let open: bool = self.state != LinkState::Idle && self.state != LinkState::Closed;
        if open && self.unacked > 0 && has_expired(self.now, self.last_rcv, self.params.t2) {
            proof {
                on_t1_keeps_wf(old(self)@.advance(now));
            }
            self.flush_ack();
        }
        if open && self.test_sent.is_none() && has_expired(
            self.now,
            self.last_activity,
            self.params.t3,
        ) {
            self.send_test();
        }
        r
    }

    /// Whether frames wait to be written to the channel.
    pub fn has_output(&self) -> (r: bool)
        ensures
            r == (self@.out.len() > 0),
    {
        self.out.len() > 0
    }

    /// Take the frames that wait to be written to the channel, in order.
    pub fn take_frames(&mut self) -> (frames: Vec<Frame>)
        requires
            old(self)@.wf(),
        ensures
            frames@.map_values(|f: Frame| f@) == old(self)@.out,
            final(self)@ == (LinkView { out: Seq::empty(), ..old(self)@ }),
            final(self)@.wf(),
            forall|i: int| 0 <= i < frames@.len() ==> (#[trigger] frames@[i])@.wf(),
    {
        let mut frames: Vec<Frame> = Vec::new();
        std::mem::swap(&mut frames, &mut self.out);
        assert(self@.out =~= Seq::<FrameView>::empty());
        assert(self@ =~= (LinkView { out: Seq::empty(), ..old(self)@ }));
        assert forall|i: int| 0 <= i < frames@.len() implies (#[trigger] frames@[i])@.wf() by {
            assert(old(self)@.out[i] == frames@[i]@);
        }
        frames
    }
}

} // verus!
