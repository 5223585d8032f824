//! What holds of the connection state machine: its invariant, which every
//! event keeps, and the laws of the send window, of the receive sequence
//! number, of acknowledgements and of the timers.

use vstd::prelude::*;
use crate::apci::{FrameView, UFunction};
use crate::link::model::{ApciParameters, CloseReason, Event, IndicationView, LinkState, LinkView};
use crate::window::{
    add_distance, before_within_window, distance_step, not_before_when_behind, seq_add,
    seq_add_add, seq_before, seq_distance,
};

verus! {

/// Sending an ASDU keeps the invariant.
pub proof fn enqueue_keeps_wf(v: LinkView, asdu: Seq<u8>)
    requires
        v.wf(),
    ensures
        v.enqueue(asdu).wf(),
{
    if v.can_send(asdu) {
        let w = v.enqueue(asdu);
        assert forall|i: int| 0 <= i < w.buffer.len() implies (#[trigger] w.buffer[i]).seq
            == seq_add(w.send_seq as int, i - w.buffer.len()) by {
            if i < v.buffer.len() {
                assert(w.buffer[i] == v.buffer[i]);
            }
        }
    }
}

/// An acknowledgement that the machine accepts keeps the invariant.
pub proof fn apply_ack_keeps_wf(v: LinkView, nr: u16)
    requires
        v.wf(),
        v.ack_valid(nr),
    ensures
        v.apply_ack(nr).wf(),
        v.apply_ack(nr).buffer.len() == v.buffer.len() - seq_distance(v.base(), nr as int),
{
    let d = seq_distance(v.base(), nr as int);
    let w = v.apply_ack(nr);
    assert(w.buffer.len() == v.buffer.len() - d);
    assert forall|i: int| 0 <= i < w.buffer.len() implies (#[trigger] w.buffer[i]).seq == seq_add(
        w.send_seq as int,
        i - w.buffer.len(),
    ) && w.buffer[i].bytes.len() <= 249 by {
        assert(w.buffer[i] == v.buffer[i + d]);
    }
}

/// An acknowledgement that the machine accepts takes from the send buffer
/// exactly the frames whose sequence number is strictly before it.
pub proof fn ack_removes_frames_before(v: LinkView, nr: u16)
    requires
        v.wf(),
        v.ack_valid(nr),
    ensures
        v.apply_ack(nr).buffer == v.buffer.skip(seq_distance(v.base(), nr as int)),
        forall|i: int|
            0 <= i < v.buffer.len() ==> (seq_before((#[trigger] v.buffer[i]).seq as int, nr as int)
                <==> i < seq_distance(v.base(), nr as int)),
{
    let d = seq_distance(v.base(), nr as int);
    let len = v.buffer.len() as int;
    let base = v.base();
    add_distance(base, nr as int);
    assert forall|i: int| 0 <= i < v.buffer.len() implies (seq_before(
        (#[trigger] v.buffer[i]).seq as int,
        nr as int,
    ) <==> i < d) by {
        seq_add_add(v.send_seq as int, -len, i);
        assert(v.buffer[i].seq == seq_add(base, i));
        before_within_window(base, i, d);
    }
}

/// Putting a frame among those to write keeps the invariant.
pub(crate) proof fn emit_keeps_wf(v: LinkView, f: FrameView)
    requires
        v.wf(),
        f.wf(),
    ensures
        v.emit(f).wf(),
{
    let w = v.emit(f);
    assert forall|i: int| 0 <= i < w.out.len() implies (#[trigger] w.out[i]).wf() by {
        if i < v.out.len() {
            assert(w.out[i] == v.out[i]);
        }
    }
}

/// The invariant but for the count of unacknowledged I-frames, which may
/// have reached `w`: the state between counting a frame and acknowledging.
pub open spec fn counted_wf(v: LinkView) -> bool {
    &&& v.params.valid()
    &&& v.send_seq < 32768
    &&& v.recv_seq < 32768
    &&& v.ack_sent < 32768
    &&& v.window_in_order()
    &&& v.unacked <= v.params.w
    &&& seq_distance(v.ack_sent as int, v.recv_seq as int) == v.unacked
    &&& forall|i: int| 0 <= i < v.buffer.len() ==> (#[trigger] v.buffer[i]).bytes.len() <= 249
    &&& forall|i: int| 0 <= i < v.out.len() ==> (#[trigger] v.out[i]).wf()
    &&& (v.state is Closed ==> v.buffer.len() == 0)
}

/// Flushing the acknowledgement restores the invariant.
pub(crate) proof fn flush_ack_keeps_wf(v: LinkView)
    requires
        counted_wf(v),
        v.unacked > 0 || v.wf(),
    ensures
        v.flush_ack().wf(),
{
    if v.unacked > 0 {
        let f = FrameView::S { recv_seq: v.recv_seq };
        let e = v.emit(f);
        let w = v.flush_ack();
        assert(w.out == v.out.push(f));
        assert forall|i: int| 0 <= i < w.out.len() implies (#[trigger] w.out[i]).wf() by {
            if i < v.out.len() {
                assert(w.out[i] == v.out[i]);
            }
        }
        assert(w.buffer == v.buffer);
        assert(w.ack_sent == w.recv_seq && w.unacked == 0);
    }
}

/// Starting data transfer keeps the invariant.
pub(crate) proof fn started_keeps_wf(v: LinkView)
    requires
        v.wf(),
        !(v.state is Closed),
    ensures
        v.started().wf(),
{
    let s = LinkView { state: LinkState::Started, ..v };
    assert(s.wf());
    flush_ack_keeps_wf(s);
}

/// Closing keeps the invariant.
pub(crate) proof fn closed_keeps_wf(v: LinkView)
    requires
        v.wf(),
    ensures
        v.closed().wf(),
{
}

/// Counting an I-frame that arrived in order leaves the receive side one
/// step on.
pub(crate) proof fn counting_keeps_order(v: LinkView, nr: u16)
    requires
        v.wf(),
        v.ack_valid(nr),
    ensures
        counted_wf(
            LinkView {
                recv_seq: seq_add(v.recv_seq as int, 1) as u16,
                unacked: (v.unacked + 1) as u16,
                last_rcv: v.now,
                ..v.apply_ack(nr)
            },
        ),
{
    apply_ack_keeps_wf(v, nr);
    let a = v.apply_ack(nr);
    distance_step(v.ack_sent as int, v.recv_seq as int);
    let c = LinkView {
        recv_seq: seq_add(v.recv_seq as int, 1) as u16,
        unacked: (v.unacked + 1) as u16,
        last_rcv: v.now,
        ..a
    };
    assert(c.buffer == a.buffer);
    assert(c.out == a.out);
    assert(c.window_in_order());
}

/// An I-frame that arrives keeps the invariant.
pub(crate) proof fn on_i_frame_keeps_wf(v: LinkView, send_seq: u16, recv_seq: u16, asdu: Seq<u8>)
    requires
        v.wf(),
    ensures
        v.on_i_frame(send_seq, recv_seq, asdu).0.wf(),
{
    closed_keeps_wf(v);
    if v.accepts_data() && send_seq == v.recv_seq && v.ack_valid(recv_seq) {
        counting_keeps_order(v, recv_seq);
        let counted = LinkView {
            recv_seq: seq_add(v.recv_seq as int, 1) as u16,
            unacked: (v.unacked + 1) as u16,
            last_rcv: v.now,
            ..v.apply_ack(recv_seq)
        };
        if counted.unacked >= counted.params.w {
            flush_ack_keeps_wf(counted);
        } else {
            assert(counted.wf());
        }
    }
}

/// A U-frame that arrives keeps the invariant.
pub(crate) proof fn on_u_frame_keeps_wf(v: LinkView, function: UFunction)
    requires
        v.wf(),
        v.is_open(),
    ensures
        v.on_u_frame(function).0.wf(),
{
    match function {
        UFunction::StartDtAct => {},
        UFunction::StartDtCon => {
            started_keeps_wf(v);
        },
        UFunction::StopDtAct => {
            flush_ack_keeps_wf(v);
            let stopped = LinkView { state: LinkState::Stopped, ..v.flush_ack() };
            assert(stopped.wf());
            emit_keeps_wf(stopped, FrameView::U { function: UFunction::StopDtCon });
            emit_keeps_wf(v, FrameView::U { function: UFunction::StopDtCon });
        },
        UFunction::StopDtCon => {
            let stopped = LinkView { state: LinkState::Stopped, ..v };
            assert(stopped.wf());
        },
        UFunction::TestFrAct => {
            emit_keeps_wf(v, FrameView::U { function: UFunction::TestFrCon });
        },
        UFunction::TestFrCon => {
            let w = LinkView { test_sent: None, t1_from: v.now, u_sent: v.now, ..v };
            assert(w.wf());
        },
    }
}

/// A frame that arrives keeps the invariant.
pub proof fn on_frame_keeps_wf(v: LinkView, f: FrameView)
    requires
        v.wf(),
    ensures
        v.on_frame(f).0.wf(),
{
    if v.is_open() {
        let heard = LinkView { last_activity: v.now, ..v };
        assert(heard.wf());
        match f {
            FrameView::I { send_seq, recv_seq, asdu } => {
                on_i_frame_keeps_wf(heard, send_seq, recv_seq, asdu);
            },
            FrameView::S { recv_seq } => {
                closed_keeps_wf(heard);
                if heard.ack_valid(recv_seq) {
                    apply_ack_keeps_wf(heard, recv_seq);
                }
            },
            FrameView::U { function } => {
                on_u_frame_keeps_wf(heard, function);
            },
        }
    }
}

/// Sending a TESTFR-act keeps the invariant.
pub(crate) proof fn send_test_keeps_wf(v: LinkView)
    requires
        v.wf(),
    ensures
        v.send_test().wf(),
{
    let t = LinkView { test_sent: Some(v.now), ..v };
    assert(t.wf());
    emit_keeps_wf(t, FrameView::U { function: UFunction::TestFrAct });
}

/// What t1 asks for keeps the invariant.
pub(crate) proof fn on_t1_keeps_wf(v: LinkView)
    requires
        v.wf(),
    ensures
        v.on_t1().0.wf(),
{
    closed_keeps_wf(v);
    assert(v.rearm_t1().wf());
    send_test_keeps_wf(v.rearm_t1());
    let stopped = LinkView { state: LinkState::Stopped, ..v };
    if !(v.state is Closed) {
        assert(stopped.wf());
    }
}

/// What t2 and t3 ask for keeps the invariant.
pub(crate) proof fn on_t2_t3_keeps_wf(v: LinkView)
    requires
        v.wf(),
    ensures
        v.on_t2().wf(),
        v.on_t2().on_t3().wf(),
{
    flush_ack_keeps_wf(v);
    send_test_keeps_wf(v.on_t2());
}

/// The passing of time keeps the invariant.
pub proof fn tick_keeps_wf(v: LinkView, now: u64)
    requires
        v.wf(),
    ensures
        v.tick(now).0.wf(),
{
    let told = v.advance(now);
    assert(told.wf());
    closed_keeps_wf(told);
    if !(told.state is Idle) {
        on_t1_keeps_wf(told);
        on_t2_t3_keeps_wf(told.on_t1().0);
    }
}

/// The requests of the application keep the invariant.
pub(crate) proof fn requests_keep_wf(v: LinkView)
    requires
        v.wf(),
    ensures
        v.open().wf(),
        v.request_start().wf(),
        v.request_stop().wf(),
        v.confirm_start().wf(),
{
    if v.state is Idle {
        let o = LinkView { state: LinkState::Stopped, last_activity: v.now, ..v };
        assert(o.wf());
    }
    if v.may_request_start() {
        let r = LinkView { state: LinkState::WaitingUnconfirmedStarted, u_sent: v.now, ..v };
        assert(r.wf());
        emit_keeps_wf(r, FrameView::U { function: UFunction::StartDtAct });
    }
    if v.may_request_stop() {
        let r = LinkView { state: LinkState::WaitingUnconfirmedStopped, u_sent: v.now, ..v };
        assert(r.wf());
        emit_keeps_wf(r, FrameView::U { function: UFunction::StopDtAct });
    }
    if v.may_confirm_start() {
        let f = FrameView::U { function: UFunction::StartDtCon };
        emit_keeps_wf(v, f);
        started_keeps_wf(v.emit(f));
    }
}

/// Every event keeps the invariant.
pub proof fn step_keeps_wf(v: LinkView, e: Event)
    requires
        v.wf(),
    ensures
        v.step(e).wf(),
{
    requests_keep_wf(v);
    closed_keeps_wf(v);
    match e {
        Event::Enqueue { asdu } => enqueue_keeps_wf(v, asdu),
        Event::Frame { frame } => on_frame_keeps_wf(v, frame),
        Event::Tick { now } => tick_keeps_wf(v, now),
        _ => {},
    }
}

/// Whatever happens to a connection, in whatever order: at most `k` sent
/// I-frames wait for their acknowledgement, and their sequence numbers run
/// without gap, modulo 2^15, up to the one before N(S).
pub proof fn send_window_stays_in_order(params: ApciParameters, start: u64, events: Seq<Event>)
    requires
        params.valid(),
    ensures
        ({
            let v = LinkView::initial(params, start).run(events);
            &&& v.wf()
            &&& v.buffer.len() <= params.k
            &&& forall|i: int|
                0 <= i < v.buffer.len() ==> (#[trigger] v.buffer[i]).seq == seq_add(
                    v.send_seq as int,
                    i - v.buffer.len(),
                )
        }),
    decreases events.len(),
{
    if events.len() > 0 {
        send_window_stays_in_order(params, start, events.drop_last());
        let before = LinkView::initial(params, start).run(events.drop_last());
        step_keeps_wf(before, events.last());
        params_never_change(before, events.last());
        run_keeps_params(LinkView::initial(params, start), events.drop_last());
    }
}

/// No event changes the parameters.
pub proof fn params_never_change(v: LinkView, e: Event)
    ensures
        v.step(e).params == v.params,
{
}

/// No sequence of events changes the parameters.
pub proof fn run_keeps_params(v: LinkView, events: Seq<Event>)
    ensures
        v.run(events).params == v.params,
    decreases events.len(),
{
    if events.len() > 0 {
        run_keeps_params(v, events.drop_last());
        params_never_change(v.run(events.drop_last()), events.last());
    }
}

/// An I-frame that arrives in order, while data is accepted and with an
/// acknowledgement that the machine accepts, moves N(R) on by exactly one
/// and is delivered; an I-frame with any other send sequence number closes
/// the connection, whatever the state of an open connection is.
pub proof fn in_order_receipt(v: LinkView, send_seq: u16, recv_seq: u16, asdu: Seq<u8>)
    requires
        v.wf(),
        v.is_open(),
    ensures
        ({
            let f = FrameView::I { send_seq, recv_seq, asdu };
            let (w, indication) = v.on_frame(f);
            &&& send_seq != v.recv_seq ==> w.state is Closed && indication is Closed
            &&& send_seq != v.recv_seq && v.accepts_data() ==> indication
                == (IndicationView::Closed { reason: CloseReason::OutOfOrder })
            &&& send_seq == v.recv_seq && v.accepts_data() && v.ack_valid(recv_seq) ==> w.recv_seq
                == seq_add(v.recv_seq as int, 1) && w.state == v.state && indication
                == (IndicationView::Data { asdu })
        }),
{
}

/// How the acknowledgement that was last sent may move from one state to
/// the next: it stays or moves to the new N(R), at most `w` steps ahead,
/// never backwards, and never beyond N(R).
pub open spec fn ack_moved_forward(v: LinkView, w: LinkView) -> bool {
    &&& w.ack_sent == v.ack_sent || w.ack_sent == w.recv_seq
    &&& seq_distance(v.ack_sent as int, w.ack_sent as int) <= v.params.w
    &&& !seq_before(w.ack_sent as int, v.ack_sent as int)
    &&& !seq_before(w.recv_seq as int, w.ack_sent as int)
    &&& seq_distance(w.ack_sent as int, w.recv_seq as int) == w.unacked
}

/// The receive side of the invariant.
pub open spec fn receive_side_ok(v: LinkView) -> bool {
    &&& v.params.valid()
    &&& v.recv_seq < 32768
    &&& v.ack_sent < 32768
    &&& v.unacked <= v.params.w
    &&& seq_distance(v.ack_sent as int, v.recv_seq as int) == v.unacked
}

/// A step that leaves the receive side alone moves the acknowledgement
/// forward, by nothing.
pub(crate) proof fn ack_kept(v: LinkView, w: LinkView)
    requires
        receive_side_ok(v),
        v.unacked < v.params.w,
        w.recv_seq == v.recv_seq,
        w.ack_sent == v.ack_sent,
        w.unacked == v.unacked,
    ensures
        ack_moved_forward(v, w),
{
    not_before_when_behind(v.ack_sent as int, v.recv_seq as int);
    not_before_when_behind(v.ack_sent as int, v.ack_sent as int);
}

/// A step that acknowledges what was received moves the acknowledgement
/// forward, to N(R).
pub(crate) proof fn ack_flushed(v: LinkView, w: LinkView)
    requires
        receive_side_ok(v),
        w.recv_seq == v.recv_seq,
        w.ack_sent == v.recv_seq,
        w.unacked == 0,
    ensures
        ack_moved_forward(v, w),
{
    not_before_when_behind(v.ack_sent as int, v.recv_seq as int);
    not_before_when_behind(v.recv_seq as int, v.recv_seq as int);
}

/// Flushing the acknowledgement moves it forward.
pub(crate) proof fn flush_moves_forward(v: LinkView)
    requires
        receive_side_ok(v),
        v.unacked > 0 || v.unacked < v.params.w,
    ensures
        ack_moved_forward(v, v.flush_ack()),
        receive_side_ok(v.flush_ack()),
        v.flush_ack().unacked < v.params.w,
        v.flush_ack().params == v.params,
{
    if v.unacked > 0 {
        ack_flushed(v, v.flush_ack());
    } else {
        ack_kept(v, v);
    }
}

/// Two moves forward that together stay within `w` steps are one move
/// forward.
pub(crate) proof fn ack_moves_compose(v: LinkView, m: LinkView, w: LinkView)
    requires
        receive_side_ok(v),
        v.unacked < v.params.w,
        m.params == v.params,
        m.recv_seq == v.recv_seq,
        m.ack_sent == v.ack_sent,
        m.unacked == v.unacked,
        ack_moved_forward(m, w),
    ensures
        ack_moved_forward(v, w),
{
}

/// An I-frame that arrives moves the acknowledgement forward.
pub(crate) proof fn i_frame_moves_forward(v: LinkView, send_seq: u16, recv_seq: u16, asdu: Seq<u8>)
    requires
        v.wf(),
    ensures
        ack_moved_forward(v, v.on_i_frame(send_seq, recv_seq, asdu).0),
{
    let w = v.on_i_frame(send_seq, recv_seq, asdu).0;
    if v.accepts_data() && send_seq == v.recv_seq && v.ack_valid(recv_seq) {
        let counted = LinkView {
            recv_seq: seq_add(v.recv_seq as int, 1) as u16,
            unacked: (v.unacked + 1) as u16,
            last_rcv: v.now,
            ..v.apply_ack(recv_seq)
        };
        distance_step(v.ack_sent as int, v.recv_seq as int);
        not_before_when_behind(v.ack_sent as int, counted.recv_seq as int);
        not_before_when_behind(v.ack_sent as int, v.ack_sent as int);
        not_before_when_behind(counted.recv_seq as int, counted.recv_seq as int);
        if counted.unacked >= counted.params.w {
            assert(w.ack_sent == counted.recv_seq && w.unacked == 0 && w.recv_seq
                == counted.recv_seq);
        } else {
            assert(w == counted);
        }
    } else {
        assert(w == v.closed());
        ack_kept(v, w);
    }
}

/// A U-frame that arrives moves the acknowledgement forward.
pub(crate) proof fn u_frame_moves_forward(v: LinkView, function: UFunction)
    requires
        v.wf(),
    ensures
        ack_moved_forward(v, v.on_u_frame(function).0),
{
    let w = v.on_u_frame(function).0;
    flush_moves_forward(v);
    let s = LinkView { state: LinkState::Started, ..v };
    flush_moves_forward(s);
    match function {
        UFunction::StartDtCon => {
            if v.state is WaitingUnconfirmedStarted {
                assert(w == s.flush_ack());
                ack_moves_compose(v, s, w);
            } else {
                ack_kept(v, w);
            }
        },
        UFunction::StopDtAct => {
            if v.state is Started {
                let f = v.flush_ack();
                assert(w.ack_sent == f.ack_sent && w.recv_seq == f.recv_seq && w.unacked
                    == f.unacked);
            } else {
                ack_kept(v, w);
            }
        },
        _ => {
            ack_kept(v, w);
        },
    }
}

/// A frame that arrives moves the acknowledgement forward.
pub(crate) proof fn frame_moves_forward(v: LinkView, f: FrameView)
    requires
        v.wf(),
    ensures
        ack_moved_forward(v, v.on_frame(f).0),
{
    if v.is_open() {
        let heard = LinkView { last_activity: v.now, ..v };
        assert(heard.wf());
        match f {
            FrameView::I { send_seq, recv_seq, asdu } => {
                i_frame_moves_forward(heard, send_seq, recv_seq, asdu);
            },
            FrameView::S { recv_seq } => {
                ack_kept(heard, heard.on_s_frame(recv_seq).0);
            },
            FrameView::U { function } => {
                u_frame_moves_forward(heard, function);
            },
        }
    } else {
        ack_kept(v, v);
    }
}

/// The passing of time moves the acknowledgement forward.
pub(crate) proof fn tick_moves_forward(v: LinkView, now: u64)
    requires
        v.wf(),
    ensures
        ack_moved_forward(v, v.tick(now).0),
{
    let told = v.advance(now);
    let w = v.tick(now).0;
    if told.state is Idle {
        ack_kept(v, w);
    } else {
        let a = told.on_t1().0;
        assert(a.recv_seq == v.recv_seq && a.ack_sent == v.ack_sent && a.unacked == v.unacked
            && a.params == v.params);
        let b = a.on_t2();
        flush_moves_forward(a);
        ack_kept(a, a);
        assert(ack_moved_forward(a, b));
        assert(w.recv_seq == b.recv_seq && w.ack_sent == b.ack_sent && w.unacked == b.unacked);
        ack_moves_compose(v, a, w);
    }
}

/// The requests of the application move the acknowledgement forward.
pub(crate) proof fn requests_move_forward(v: LinkView)
    requires
        v.wf(),
    ensures
        ack_moved_forward(v, v.open()),
        ack_moved_forward(v, v.closed()),
        ack_moved_forward(v, v.request_start()),
        ack_moved_forward(v, v.request_stop()),
        ack_moved_forward(v, v.confirm_start()),
{
    ack_kept(v, v.open());
    ack_kept(v, v.closed());
    ack_kept(v, v.request_start());
    ack_kept(v, v.request_stop());
    if v.may_confirm_start() {
        let e = v.emit(FrameView::U { function: UFunction::StartDtCon });
        let s = LinkView { state: LinkState::Started, ..e };
        flush_moves_forward(s);
        ack_moves_compose(v, s, v.confirm_start());
    } else {
        ack_kept(v, v);
    }
}

/// Sending an ASDU moves the acknowledgement forward: the I-frame carries
/// N(R).
pub(crate) proof fn enqueue_moves_forward(v: LinkView, asdu: Seq<u8>)
    requires
        v.wf(),
    ensures
        ack_moved_forward(v, v.enqueue(asdu)),
{
    if v.can_send(asdu) {
        ack_flushed(v, v.enqueue(asdu));
    } else {
        ack_kept(v, v);
    }
}

/// The acknowledgement that was last sent never moves backwards and never
/// overtakes N(R): after any event it is where it was or at the new N(R),
/// which lies at most `w` steps ahead of where it was.
pub proof fn ack_sent_is_monotonic(v: LinkView, e: Event)
    requires
        v.wf(),
    ensures
        ack_moved_forward(v, v.step(e)),
{
    requests_move_forward(v);
    match e {
        Event::Enqueue { asdu } => enqueue_moves_forward(v, asdu),
        Event::Frame { frame } => frame_moves_forward(v, frame),
        Event::Tick { now } => tick_moves_forward(v, now),
        _ => {},
    }
}

/// When t2 has run out with received I-frames unacknowledged, and t1 does
/// not close the connection, the passing of time emits exactly one S-frame,
/// which carries N(R), and leaves nothing unacknowledged.
pub proof fn t2_expiry_acknowledges(v: LinkView, now: u64)
    requires
        v.wf(),
        v.advance(now).t2_due(),
        !(v.tick(now).0.state is Closed),
    ensures
        ({
            let w = v.tick(now).0;
            let emitted = w.out.skip(v.out.len() as int);
            &&& w.unacked == 0
            &&& w.ack_sent == v.recv_seq
            &&& exists|i: int|
                0 <= i < emitted.len() && #[trigger] emitted[i] == (FrameView::S {
                    recv_seq: v.recv_seq,
                })
            &&& forall|i: int, j: int|
                0 <= i < emitted.len() && 0 <= j < emitted.len() && (#[trigger] emitted[i]) is S
                    && (#[trigger] emitted[j]) is S ==> i == j
        }),
{
    let told = v.advance(now);
    let after_t1 = told.on_t1().0;
    let after_t2 = after_t1.on_t2();
    let w = after_t2.on_t3();
    let emitted = w.out.skip(v.out.len() as int);
    let s = FrameView::S { recv_seq: v.recv_seq };
    let at = after_t1.out.len() - v.out.len();
    assert(after_t2.out == after_t1.out.push(s));
    assert(emitted[at] == s);
}

/// A machine that is stopped or started, as one is that never asks for a
/// start or a stop itself, stays so under the frames that arrive, unless it
/// closes: a start that the peer asks for leaves the state as it is, a stop
/// that the peer asks for stops a started machine, data arrives at a started
/// machine only, and nothing else changes the state.
pub proof fn passive_machine_under_frames(v: LinkView, f: FrameView)
    requires
        v.wf(),
        v.state is Stopped || v.state is Started,
    ensures
        ({
            let (w, indication) = v.on_frame(f);
            &&& w.wf()
            &&& w.params == v.params
            &&& match indication {
                IndicationView::Closed { reason } => w.state is Closed,
                IndicationView::StartRequested => w.state == v.state && w.may_confirm_start(),
                IndicationView::StopRequested => v.state is Started && w.state is Stopped,
                IndicationView::Data { asdu } => v.state is Started && w.state is Started,
                IndicationView::Nothing => w.state == v.state,
                _ => false,
            }
        }),
{
    on_frame_keeps_wf(v, f);
}

/// A machine that is stopped or started stays so as time passes, unless it
/// closes.
pub proof fn passive_machine_under_time(v: LinkView, now: u64)
    requires
        v.wf(),
        v.state is Stopped || v.state is Started,
    ensures
        ({
            let (w, indication) = v.tick(now);
            &&& w.wf()
            &&& w.params == v.params
            &&& match indication {
                IndicationView::Closed { reason } => w.state is Closed,
                IndicationView::Nothing => w.state == v.state,
                _ => false,
            }
        }),
{
    tick_keeps_wf(v, now);
}

/// Sending an ASDU changes neither the state nor the parameters.
pub proof fn enqueue_keeps_state(v: LinkView, asdu: Seq<u8>)
    requires
        v.wf(),
    ensures
        v.enqueue(asdu).wf(),
        v.enqueue(asdu).state == v.state,
        v.enqueue(asdu).params == v.params,
{
    enqueue_keeps_wf(v, asdu);
}

} // verus!
