use lib60870::apci::{Frame, UFunction};
use lib60870::link::{ApciParameters, CloseReason, Indication, Link, LinkState};

fn params() -> ApciParameters {
    ApciParameters::default()
}

fn u(function: UFunction) -> Frame {
    Frame::U { function }
}

fn started() -> Link {
    let mut link = Link::new(params(), 0).unwrap();
    link.open();
    assert!(link.request_start());
    assert_eq!(link.handle_frame(u(UFunction::StartDtCon)), Indication::StartConfirmed);
    assert_eq!(link.take_frames(), vec![u(UFunction::StartDtAct)]);
    link
}

fn data(send_seq: u16, recv_seq: u16) -> Frame {
    Frame::I { send_seq, recv_seq, asdu: vec![0xC8, 1, 3, 0, 1, 0, send_seq as u8] }
}

#[test]
fn default_parameters() {
    let p = ApciParameters::default();
    assert_eq!((p.k, p.w), (12, 8));
    assert_eq!((p.t0, p.t1, p.t2, p.t3), (30_000, 15_000, 10_000, 20_000));
    assert!(p.is_valid());
}

#[test]
fn parameters_are_checked() {
    let ok = |k, w, t1, t2| ApciParameters { k, w, t0: 1, t1, t2, t3: 1 }.is_valid();
    assert!(ok(2, 1, 2, 1));
    assert!(ok(16384, 16383, 2, 1));
    assert!(!ok(16385, 8, 2, 1));
    assert!(!ok(12, 0, 2, 1));
    assert!(!ok(12, 12, 2, 1));
    assert!(!ok(8, 12, 2, 1));
    assert!(!ok(12, 8, 10, 10));
    assert!(!ok(12, 8, 10, 15));
    assert!(Link::new(ApciParameters { k: 8, w: 12, ..params() }, 0).is_none());
    assert!(Link::new(params(), 0).is_some());
}

#[test]
fn states_and_transitions() {
    let mut link = Link::new(params(), 0).unwrap();
    assert_eq!(link.state(), LinkState::Idle);
    // nothing is sent and nothing is heard before the channel is open
    assert!(!link.request_start());
    assert!(!link.confirm_start());
    assert_eq!(link.handle_frame(u(UFunction::TestFrAct)), Indication::Nothing);
    assert!(!link.has_output());
    link.open();
    assert_eq!(link.state(), LinkState::Stopped);
    assert!(!link.request_stop());
    assert!(link.request_start());
    assert_eq!(link.state(), LinkState::WaitingUnconfirmedStarted);
    assert!(!link.request_start());
    assert!(!link.enqueue(&[1]));
    assert_eq!(link.handle_frame(u(UFunction::StartDtCon)), Indication::StartConfirmed);
    assert_eq!(link.state(), LinkState::Started);
    assert!(link.request_stop());
    assert_eq!(link.state(), LinkState::WaitingUnconfirmedStopped);
    assert_eq!(link.handle_frame(u(UFunction::StopDtCon)), Indication::StopConfirmed);
    assert_eq!(link.state(), LinkState::Stopped);
    assert_eq!(
        link.take_frames(),
        vec![u(UFunction::StartDtAct), u(UFunction::StopDtAct)]
    );
    link.close();
    assert_eq!(link.state(), LinkState::Closed);
    link.open();
    assert_eq!(link.state(), LinkState::Closed);
}

#[test]
fn peer_start_needs_the_owner() {
    let mut link = Link::new(params(), 0).unwrap();
    link.open();
    assert_eq!(link.handle_frame(u(UFunction::StartDtAct)), Indication::StartRequested);
    assert_eq!(link.state(), LinkState::Stopped);
    assert!(!link.has_output());
    assert!(link.confirm_start());
    assert_eq!(link.state(), LinkState::Started);
    assert_eq!(link.take_frames(), vec![u(UFunction::StartDtCon)]);
    // asked again, confirmed again
    assert_eq!(link.handle_frame(u(UFunction::StartDtAct)), Indication::StartRequested);
    assert!(link.confirm_start());
    assert_eq!(link.take_frames(), vec![u(UFunction::StartDtCon)]);
    assert_eq!(link.handle_frame(u(UFunction::StopDtAct)), Indication::StopRequested);
    assert_eq!(link.state(), LinkState::Stopped);
    assert_eq!(link.handle_frame(u(UFunction::StopDtAct)), Indication::Nothing);
    assert_eq!(link.take_frames(), vec![u(UFunction::StopDtCon), u(UFunction::StopDtCon)]);
}

#[test]
fn unexpected_confirmations_are_ignored() {
    let mut link = started();
    assert_eq!(link.handle_frame(u(UFunction::StartDtCon)), Indication::Nothing);
    assert_eq!(link.handle_frame(u(UFunction::StopDtCon)), Indication::Nothing);
    assert_eq!(link.handle_frame(u(UFunction::TestFrCon)), Indication::Nothing);
    assert_eq!(link.state(), LinkState::Started);
    assert!(!link.has_output());
}

#[test]
fn send_numbers_count_up_and_wrap() {
    let mut link = Link::new(ApciParameters { k: 3, w: 2, ..params() }, 0).unwrap();
    link.open();
    link.request_start();
    link.handle_frame(u(UFunction::StartDtCon));
    link.take_frames();
    for n in 0..40000u32 {
        let seq = (n % 32768) as u16;
        assert_eq!(link.send_seq(), seq);
        assert!(link.enqueue(&[n as u8]));
        assert_eq!(
            link.take_frames(),
            vec![Frame::I { send_seq: seq, recv_seq: 0, asdu: vec![n as u8] }]
        );
        assert_eq!(link.send_buffer_len(), 1);
        let next = ((n + 1) % 32768) as u16;
        assert_eq!(link.handle_frame(Frame::S { recv_seq: next }), Indication::Nothing);
        assert_eq!(link.send_buffer_len(), 0);
    }
    assert_eq!(link.send_seq(), (40000u32 % 32768) as u16);
}

#[test]
fn acknowledgement_takes_the_frames_before_it() {
    let mut link = started();
    for i in 0..5u8 {
        assert!(link.enqueue(&[i]));
    }
    assert_eq!(link.send_buffer_len(), 5);
    // nothing new
    assert_eq!(link.handle_frame(Frame::S { recv_seq: 0 }), Indication::Nothing);
    assert_eq!(link.send_buffer_len(), 5);
    assert_eq!(link.handle_frame(Frame::S { recv_seq: 3 }), Indication::Nothing);
    assert_eq!(link.send_buffer_len(), 2);
    // an acknowledgement in an I-frame
    assert!(matches!(link.handle_frame(data(0, 4)), Indication::Data { .. }));
    assert_eq!(link.send_buffer_len(), 1);
    assert_eq!(link.handle_frame(Frame::S { recv_seq: 5 }), Indication::Nothing);
    assert_eq!(link.send_buffer_len(), 0);
    assert!(!link.is_window_full());
}

#[test]
fn acknowledgement_of_what_was_not_sent_closes() {
    let mut link = started();
    assert!(link.enqueue(&[1]));
    assert_eq!(
        link.handle_frame(Frame::S { recv_seq: 2 }),
        Indication::Closed { reason: CloseReason::BadAcknowledgement }
    );
    assert_eq!(link.state(), LinkState::Closed);
    assert_eq!(link.send_buffer_len(), 0);

    let mut link = started();
    assert!(link.enqueue(&[1]));
    assert!(link.enqueue(&[2]));
    assert_eq!(link.handle_frame(Frame::S { recv_seq: 2 }), Indication::Nothing);
    // what was acknowledged before is not outstanding any more
    assert_eq!(
        link.handle_frame(Frame::S { recv_seq: 1 }),
        Indication::Closed { reason: CloseReason::BadAcknowledgement }
    );

    let mut link = started();
    assert_eq!(
        link.handle_frame(Frame::S { recv_seq: 40000 }),
        Indication::Closed { reason: CloseReason::BadAcknowledgement }
    );
    let mut link = started();
    assert_eq!(
        link.handle_frame(data(0, 1)),
        Indication::Closed { reason: CloseReason::BadAcknowledgement }
    );
}

#[test]
fn receive_number_advances_by_one() {
    let mut link = started();
    for n in 0..20u16 {
        assert_eq!(link.recv_seq(), n);
        match link.handle_frame(data(n, 0)) {
            Indication::Data { asdu } => assert_eq!(asdu[6], n as u8),
            other => panic!("unexpected {:?}", other),
        }
        assert_eq!(link.recv_seq(), n + 1);
    }
    assert_eq!(
        link.handle_frame(data(25, 0)),
        Indication::Closed { reason: CloseReason::OutOfOrder }
    );
    assert_eq!(link.state(), LinkState::Closed);
    // a repeated frame is out of order too
    let mut link = started();
    assert!(matches!(link.handle_frame(data(0, 0)), Indication::Data { .. }));
    assert_eq!(
        link.handle_frame(data(0, 0)),
        Indication::Closed { reason: CloseReason::OutOfOrder }
    );
}

#[test]
fn data_while_not_started_closes() {
    let mut link = Link::new(params(), 0).unwrap();
    link.open();
    assert_eq!(
        link.handle_frame(data(0, 0)),
        Indication::Closed { reason: CloseReason::UnexpectedIFrame }
    );
    let mut link = Link::new(params(), 0).unwrap();
    link.open();
    link.request_start();
    assert_eq!(
        link.handle_frame(data(0, 0)),
        Indication::Closed { reason: CloseReason::UnexpectedIFrame }
    );
    // until the stop is confirmed data still arrives
    let mut link = started();
    link.request_stop();
    assert!(matches!(link.handle_frame(data(0, 0)), Indication::Data { .. }));
}

#[test]
fn acknowledgement_goes_out_with_the_wth_frame_or_an_i_frame() {
    let mut link = started();
    for n in 0..7u16 {
        link.handle_frame(data(n, 0));
        assert_eq!(link.unacked_rcv_count(), n + 1);
        assert_eq!(link.ack_sent(), 0);
    }
    assert!(!link.has_output());
    link.handle_frame(data(7, 0));
    assert_eq!(link.take_frames(), vec![Frame::S { recv_seq: 8 }]);
    assert_eq!(link.unacked_rcv_count(), 0);
    assert_eq!(link.ack_sent(), 8);
    link.handle_frame(data(8, 0));
    link.handle_frame(data(9, 0));
    assert_eq!(link.unacked_rcv_count(), 2);
    assert!(link.enqueue(&[5]));
    assert_eq!(
        link.take_frames(),
        vec![Frame::I { send_seq: 0, recv_seq: 10, asdu: vec![5] }]
    );
    assert_eq!(link.unacked_rcv_count(), 0);
    assert_eq!(link.ack_sent(), 10);
    // nothing is left for t2
    assert_eq!(link.tick(60_000), Indication::Nothing);
}

#[test]
fn t2_acknowledges_once() {
    let mut link = started();
    link.set_time(1_000);
    link.handle_frame(data(0, 0));
    link.set_time(4_000);
    link.handle_frame(data(1, 0));
    // t2 runs from the last frame
    assert_eq!(link.tick(11_000), Indication::Nothing);
    assert!(!link.has_output());
    assert_eq!(link.tick(13_999), Indication::Nothing);
    assert!(!link.has_output());
    assert_eq!(link.tick(14_000), Indication::Nothing);
    assert_eq!(link.take_frames(), vec![Frame::S { recv_seq: 2 }]);
    assert_eq!(link.unacked_rcv_count(), 0);
    assert_eq!(link.tick(14_001), Indication::Nothing);
    assert_eq!(link.tick(24_001), Indication::Nothing);
    assert!(!link.has_output());
}

#[test]
fn t1_tests_the_peer_and_then_closes() {
    let mut link = started();
    link.set_time(1_000);
    assert!(link.enqueue(&[1]));
    link.set_time(2_000);
    assert!(link.enqueue(&[2]));
    link.take_frames();
    assert_eq!(link.tick(15_999), Indication::Nothing);
    assert!(!link.has_output());
    // the oldest frame has waited t1
    assert_eq!(link.tick(16_000), Indication::Nothing);
    assert_eq!(link.take_frames(), vec![u(UFunction::TestFrAct)]);
    assert_eq!(link.tick(30_999), Indication::Nothing);
    assert_eq!(link.tick(31_000), Indication::Closed { reason: CloseReason::AckTimeout });
    assert_eq!(link.state(), LinkState::Closed);
    assert_eq!(link.send_buffer_len(), 0);
}

#[test]
fn t1_restarts_from_the_oldest_frame_that_stays() {
    let mut link = started();
    link.set_time(1_000);
    assert!(link.enqueue(&[1]));
    link.set_time(9_000);
    assert!(link.enqueue(&[2]));
    link.take_frames();
    link.set_time(10_000);
    assert_eq!(link.handle_frame(Frame::S { recv_seq: 1 }), Indication::Nothing);
    assert_eq!(link.tick(23_999), Indication::Nothing);
    assert!(!link.has_output());
    assert_eq!(link.tick(24_000), Indication::Nothing);
    assert_eq!(link.take_frames(), vec![u(UFunction::TestFrAct)]);
}

#[test]
fn unanswered_start_is_tested() {
    let mut link = Link::new(params(), 0).unwrap();
    link.open();
    link.set_time(5_000);
    assert!(link.request_start());
    link.take_frames();
    assert_eq!(link.tick(19_999), Indication::Nothing);
    assert!(!link.has_output());
    assert_eq!(link.tick(20_000), Indication::Nothing);
    assert_eq!(link.take_frames(), vec![u(UFunction::TestFrAct)]);
    assert_eq!(link.tick(35_000), Indication::Closed { reason: CloseReason::AckTimeout });
}

#[test]
fn unanswered_stop_is_taken_as_done() {
    let mut link = started();
    link.set_time(5_000);
    assert!(link.request_stop());
    assert_eq!(link.tick(19_999), Indication::Nothing);
    assert_eq!(link.tick(20_000), Indication::StopTimedOut);
    assert_eq!(link.state(), LinkState::Stopped);
}

#[test]
fn t3_sends_a_test_frame_when_idle() {
    let mut link = Link::new(params(), 0).unwrap();
    // no channel, no keepalive
    assert_eq!(link.tick(25_000), Indication::Nothing);
    assert!(!link.has_output());
    link.open();
    assert_eq!(link.tick(44_999), Indication::Nothing);
    assert!(!link.has_output());
    assert_eq!(link.tick(45_000), Indication::Nothing);
    assert_eq!(link.take_frames(), vec![u(UFunction::TestFrAct)]);
    link.set_time(50_000);
    assert_eq!(link.handle_frame(u(UFunction::TestFrCon)), Indication::Nothing);
    // traffic restarts t3
    assert_eq!(link.tick(69_999), Indication::Nothing);
    assert!(!link.has_output());
    assert_eq!(link.tick(70_000), Indication::Nothing);
    assert_eq!(link.take_frames(), vec![u(UFunction::TestFrAct)]);
}

#[test]
fn t0_closes_an_idle_link() {
    let mut link = Link::new(params(), 100).unwrap();
    assert_eq!(link.tick(30_099), Indication::Nothing);
    assert_eq!(link.state(), LinkState::Idle);
    assert_eq!(link.tick(30_100), Indication::Closed { reason: CloseReason::ConnectTimeout });
    assert_eq!(link.state(), LinkState::Closed);
}

#[test]
fn time_does_not_run_backwards() {
    let mut link = started();
    link.set_time(5_000);
    assert_eq!(link.now(), 5_000);
    link.set_time(4_000);
    assert_eq!(link.now(), 5_000);
    assert_eq!(link.tick(3_000), Indication::Nothing);
    assert_eq!(link.now(), 5_000);
}

#[test]
fn start_flushes_the_acknowledgement() {
    let mut link = started();
    link.handle_frame(data(0, 0));
    link.handle_frame(data(1, 0));
    assert_eq!(link.handle_frame(u(UFunction::StopDtAct)), Indication::StopRequested);
    // what was received is acknowledged before the stop is confirmed
    assert_eq!(
        link.take_frames(),
        vec![Frame::S { recv_seq: 2 }, u(UFunction::StopDtCon)]
    );
    assert_eq!(link.unacked_rcv_count(), 0);
}

#[test]
fn too_long_an_asdu_is_not_sent() {
    let mut link = started();
    assert!(!link.enqueue(&[0; 250]));
    assert!(link.enqueue(&[0; 249]));
    assert_eq!(link.send_buffer_len(), 1);
    assert_eq!(link.send_seq(), 1);
}
