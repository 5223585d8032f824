use lib60870::asdu::{Asdu, AsduError};
use lib60870::client::{check_host_name, Connection, ConnectionBuilder, Polled};
use lib60870::link::{ApciParameters, LinkState};
use lib60870::time::Timestamp;
use lib60870::types::{CauseOfTransmission, ConnectionEvent, TypeId};

const STARTDT_CON: [u8; 6] = [0x68, 0x04, 0x0B, 0, 0, 0];

fn started() -> Connection {
    let mut conn = ConnectionBuilder::new("127.0.0.1", 2404).originator_address(3).build().unwrap();
    conn.connecting(0);
    assert_eq!(conn.channel_opened(0), ConnectionEvent::Opened);
    conn.send_start_dt();
    assert_eq!(conn.take_output(), vec![0x68, 0x04, 0x07, 0, 0, 0]);
    conn.receive(&STARTDT_CON);
    assert!(matches!(conn.poll(), Polled::Event { event: ConnectionEvent::StartDtCon }));
    conn
}

#[test]
fn test_connection_builder() {
    let conn = ConnectionBuilder::new("127.0.0.1", 2404)
        .originator_address(3)
        .connect_timeout_ms(5000)
        .build();
    assert!(conn.is_some());
}

#[test]
fn test_connection_create() {
    let conn = Connection::new("127.0.0.1", 2404);
    assert!(conn.is_some());
}

#[test]
fn builder_sets_the_configuration() {
    let conn = ConnectionBuilder::new("rtu.example", 19998)
        .originator_address(3)
        .connect_timeout_ms(5000)
        .build()
        .unwrap();
    assert_eq!(conn.hostname(), "rtu.example");
    assert_eq!(conn.port(), 19998);
    assert_eq!(conn.originator_address(), 3);
    assert_eq!(conn.connect_timeout_ms(), 5000);
    assert_eq!(conn.state(), LinkState::Idle);
    let conn = Connection::new("rtu", 2404).unwrap();
    assert_eq!(conn.originator_address(), 0);
    assert_eq!(conn.connect_timeout_ms(), 30_000);
    assert_eq!(conn.link().params().k, 12);
    assert_eq!(conn.link().params().w, 8);
    assert_eq!(conn.link().params().t1, 15_000);
    assert_eq!(conn.link().params().t2, 10_000);
    assert_eq!(conn.link().params().t3, 20_000);
}

#[test]
fn host_names_are_checked() {
    assert!(check_host_name("127.0.0.1"));
    assert!(check_host_name("a"));
    assert!(check_host_name("höst"));
    assert!(!check_host_name(""));
    assert!(!check_host_name("\0"));
    assert!(!check_host_name("ab\0cd"));
    assert!(Connection::new("", 2404).is_none());
    assert!(ConnectionBuilder::new("a\0", 2404).build().is_none());
}

#[test]
fn connect_timeout_fails_the_connection() {
    let mut conn = ConnectionBuilder::new("rtu", 2404).connect_timeout_ms(5000).build().unwrap();
    conn.connecting(1_000);
    assert_eq!(conn.tick(5_999), None);
    assert_eq!(conn.state(), LinkState::Idle);
    assert_eq!(conn.tick(6_000), Some(ConnectionEvent::Failed));
    assert_eq!(conn.state(), LinkState::Closed);
    assert_eq!(conn.tick(7_000), None);
}

#[test]
fn channel_events() {
    let mut conn = Connection::new("rtu", 2404).unwrap();
    assert_eq!(conn.channel_failed(), ConnectionEvent::Failed);
    assert_eq!(conn.state(), LinkState::Closed);
    let mut conn = started();
    assert_eq!(conn.channel_closed(), ConnectionEvent::Closed);
    assert_eq!(conn.state(), LinkState::Closed);
    assert!(!conn.send_test_command(1));
}

#[test]
fn commands_need_started_data_transfer() {
    let mut conn = Connection::new("rtu", 2404).unwrap();
    assert!(!conn.send_interrogation(CauseOfTransmission::Activation, 1, 20));
    conn.channel_opened(0);
    assert!(!conn.send_interrogation(CauseOfTransmission::Activation, 1, 20));
    conn.send_start_dt();
    assert!(!conn.send_interrogation(CauseOfTransmission::Activation, 1, 20));
    conn.take_output();
    conn.receive(&STARTDT_CON);
    conn.poll();
    assert!(conn.send_interrogation(CauseOfTransmission::Activation, 1, 20));
    assert_eq!(
        conn.take_output(),
        vec![0x68, 0x0E, 0, 0, 0, 0, 0x64, 0x01, 0x06, 0x00, 0x01, 0x00, 0x00, 0x00, 0x00, 0x14]
    );
}

#[test]
fn commands_have_the_standard_octets() {
    let mut conn = started();
    assert!(conn.send_counter_interrogation(CauseOfTransmission::Activation, 0x1234, 5));
    assert_eq!(
        conn.take_output(),
        vec![0x68, 0x0E, 0, 0, 0, 0, 0x65, 0x01, 0x06, 0x03, 0x34, 0x12, 0, 0, 0, 5]
    );
    let time = Timestamp::from_ms(1709251198765);
    assert!(conn.send_clock_sync(1, &time));
    assert_eq!(
        conn.take_output(),
        vec![
            0x68, 0x14, 2, 0, 0, 0, 0x67, 0x01, 0x06, 0x03, 0x01, 0x00, 0, 0, 0, 0x8D, 0xE5, 59,
            23, 29, 2, 24
        ]
    );
    assert!(conn.send_test_command(2));
    assert_eq!(
        conn.take_output(),
        vec![0x68, 0x0F, 4, 0, 0, 0, 0x68, 0x01, 0x06, 0x03, 0x02, 0x00, 0, 0, 0, 0xAA, 0x55]
    );
    assert!(conn.send_test_command_with_time(2, 0x0102, &time));
    assert_eq!(
        conn.take_output(),
        vec![
            0x68, 0x16, 6, 0, 0, 0, 0x6B, 0x01, 0x06, 0x03, 0x02, 0x00, 0, 0, 0, 0x02, 0x01, 0x8D,
            0xE5, 59, 23, 29, 2, 24
        ]
    );
    assert!(conn.send_single_command(CauseOfTransmission::Activation, 1, 0x030201, true, true, 3));
    assert_eq!(
        conn.take_output(),
        vec![0x68, 0x0E, 8, 0, 0, 0, 0x2D, 0x01, 0x06, 0x03, 0x01, 0x00, 0x01, 0x02, 0x03, 0x8D]
    );
    assert!(conn.send_single_command(CauseOfTransmission::Deactivation, 1, 7, false, false, 0));
    assert_eq!(
        conn.take_output(),
        vec![0x68, 0x0E, 10, 0, 0, 0, 0x2D, 0x01, 0x08, 0x03, 0x01, 0x00, 7, 0, 0, 0x00]
    );
}

#[test]
fn single_command_rejects_what_does_not_fit() {
    let mut conn = started();
    assert!(!conn.send_single_command(CauseOfTransmission::Activation, 1, 0x1000000, true, false, 0));
    assert!(!conn.send_single_command(CauseOfTransmission::Activation, 1, 1, true, false, 32));
    assert_eq!(conn.take_output(), Vec::<u8>::new());
    assert_eq!(conn.link().send_seq(), 0);
}

#[test]
fn illegal_asdu_is_not_sent() {
    let mut conn = started();
    let empty = Asdu::new(TypeId::SinglePoint, false, CauseOfTransmission::Spontaneous, 0, 1, false, false);
    assert!(!conn.send_asdu(&empty));
    assert_eq!(conn.take_output(), Vec::<u8>::new());
    assert_eq!(conn.link().send_buffer_len(), 0);
}

#[test]
fn send_window_full_until_acknowledged() {
    let mut conn = started();
    for i in 0..12 {
        assert!(!conn.is_transmit_buffer_full());
        assert!(conn.send_test_command(1), "command {}", i);
    }
    assert!(conn.is_transmit_buffer_full());
    // the thirteenth does not go out
    assert!(!conn.send_test_command(1));
    assert_eq!(conn.link().send_buffer_len(), 12);
    assert_eq!(conn.link().send_seq(), 12);
    assert_eq!(conn.take_output().len(), 12 * 17);
    // the peer acknowledges the first
    conn.receive(&[0x68, 0x04, 0x01, 0x00, 0x02, 0x00]);
    assert!(matches!(conn.poll(), Polled::Progress));
    assert_eq!(conn.link().send_buffer_len(), 11);
    assert!(!conn.is_transmit_buffer_full());
    assert!(conn.send_test_command(1));
    let out = conn.take_output();
    // N(S) = 12
    assert_eq!(&out[..6], &[0x68, 0x0F, 24, 0, 0, 0]);
    assert!(conn.is_transmit_buffer_full());
}

#[test]
fn keepalive_after_idle_time() {
    let mut conn = started();
    assert_eq!(conn.tick(19_999), None);
    assert_eq!(conn.take_output(), Vec::<u8>::new());
    assert_eq!(conn.tick(20_000), None);
    assert_eq!(conn.take_output(), vec![0x68, 0x04, 0x43, 0x00, 0x00, 0x00]);
    // the peer answers in time
    conn.tick(34_000);
    conn.receive(&[0x68, 0x04, 0x83, 0x00, 0x00, 0x00]);
    assert!(matches!(conn.poll(), Polled::Progress));
    assert_eq!(conn.tick(35_000), None);
    assert_eq!(conn.state(), LinkState::Started);
}

#[test]
fn keepalive_without_answer_closes() {
    let mut conn = started();
    assert_eq!(conn.tick(20_000), None);
    assert_eq!(conn.take_output(), vec![0x68, 0x04, 0x43, 0x00, 0x00, 0x00]);
    assert_eq!(conn.tick(34_999), None);
    assert_eq!(conn.state(), LinkState::Started);
    assert_eq!(conn.tick(35_000), Some(ConnectionEvent::Closed));
    assert_eq!(conn.state(), LinkState::Closed);
}

#[test]
fn peer_test_frame_is_answered() {
    let mut conn = started();
    conn.receive(&[0x68, 0x04, 0x43, 0x00, 0x00, 0x00]);
    assert!(matches!(conn.poll(), Polled::Progress));
    assert_eq!(conn.take_output(), vec![0x68, 0x04, 0x83, 0x00, 0x00, 0x00]);
}

#[test]
fn malformed_frame_closes_the_client() {
    let mut conn = started();
    conn.receive(&[0x69, 0x04, 0x07, 0x00, 0x00, 0x00]);
    assert!(matches!(conn.poll(), Polled::Event { event: ConnectionEvent::Closed }));
    assert_eq!(conn.state(), LinkState::Closed);
    assert!(matches!(conn.poll(), Polled::Idle));
}

#[test]
fn out_of_order_i_frame_closes_the_client() {
    let mut conn = started();
    conn.receive(&[0x68, 0x0E, 2, 0, 0, 0, 0x64, 0x01, 0x07, 0x00, 0x01, 0x00, 0, 0, 0, 0x14]);
    assert!(matches!(conn.poll(), Polled::Event { event: ConnectionEvent::Closed }));
    assert_eq!(conn.state(), LinkState::Closed);
}

#[test]
fn received_asdus_are_decoded_or_dropped() {
    let mut conn = started();
    conn.receive(&[0x68, 0x0E, 0, 0, 0, 0, 0x01, 0x01, 0x03, 0x00, 0x01, 0x00, 5, 0, 0, 0x81]);
    match conn.poll() {
        Polled::Asdu { asdu } => {
            assert_eq!(asdu.type_id(), Some(TypeId::SinglePoint));
            assert_eq!(asdu.element_count(), 1);
        }
        other => panic!("unexpected {:?}", other),
    }
    // two objects announced, one there
    conn.receive(&[0x68, 0x0E, 2, 0, 0, 0, 0x01, 0x02, 0x03, 0x00, 0x01, 0x00, 5, 0, 0, 0x81]);
    assert!(matches!(conn.poll(), Polled::Dropped { error: AsduError::SizeMismatch }));
    assert_eq!(conn.dropped_count(), 1);
    // the connection stays open and N(R) has moved on for both
    assert_eq!(conn.state(), LinkState::Started);
    assert_eq!(conn.link().recv_seq(), 2);
    conn.receive(&[0x68, 0x06, 4, 0, 0, 0, 0x01, 0x01]);
    assert!(matches!(conn.poll(), Polled::Dropped { error: AsduError::TooShort }));
    assert_eq!(conn.dropped_count(), 2);
}

#[test]
fn acknowledgement_after_w_frames() {
    let mut conn = started();
    let mut frame = vec![0x68, 0x0E, 0, 0, 0, 0, 0x01, 0x01, 0x03, 0x00, 0x01, 0x00, 5, 0, 0, 0x01];
    for i in 0u8..7 {
        frame[2] = 2 * i;
        conn.receive(&frame);
        assert!(matches!(conn.poll(), Polled::Asdu { .. }));
        assert_eq!(conn.take_output(), Vec::<u8>::new());
    }
    assert_eq!(conn.link().unacked_rcv_count(), 7);
    frame[2] = 14;
    conn.receive(&frame);
    assert!(matches!(conn.poll(), Polled::Asdu { .. }));
    // the eighth frame is acknowledged at once
    assert_eq!(conn.take_output(), vec![0x68, 0x04, 0x01, 0x00, 0x10, 0x00]);
    assert_eq!(conn.link().unacked_rcv_count(), 0);
    assert_eq!(conn.link().ack_sent(), 8);
}

#[test]
fn stop_is_confirmed_or_times_out() {
    let mut conn = started();
    conn.send_stop_dt();
    assert_eq!(conn.take_output(), vec![0x68, 0x04, 0x13, 0x00, 0x00, 0x00]);
    assert_eq!(conn.state(), LinkState::WaitingUnconfirmedStopped);
    conn.receive(&[0x68, 0x04, 0x23, 0x00, 0x00, 0x00]);
    assert!(matches!(conn.poll(), Polled::Event { event: ConnectionEvent::StopDtCon }));
    assert_eq!(conn.state(), LinkState::Stopped);

    let mut conn = started();
    conn.tick(1_000);
    conn.send_stop_dt();
    conn.take_output();
    assert_eq!(conn.tick(15_999), None);
    assert_eq!(conn.state(), LinkState::WaitingUnconfirmedStopped);
    assert_eq!(conn.tick(16_000), None);
    assert_eq!(conn.state(), LinkState::Stopped);
}

#[test]
fn close_discards_everything() {
    let mut conn = started();
    assert!(conn.send_test_command(1));
    conn.receive(&[0x68, 0x04]);
    conn.close();
    assert_eq!(conn.state(), LinkState::Closed);
    assert_eq!(conn.link().send_buffer_len(), 0);
    assert!(matches!(conn.poll(), Polled::Idle));
    assert!(!conn.send_test_command(1));
}

#[test]
fn shutdown_stops_and_then_closes() {
    let mut conn = started();
    assert!(conn.shutdown());
    assert!(conn.is_shutting_down());
    assert_eq!(conn.take_output(), vec![0x68, 0x04, 0x13, 0x00, 0x00, 0x00]);
    assert_eq!(conn.state(), LinkState::WaitingUnconfirmedStopped);
    conn.receive(&[0x68, 0x04, 0x23, 0x00, 0x00, 0x00]);
    assert!(matches!(conn.poll(), Polled::Event { event: ConnectionEvent::Closed }));
    assert_eq!(conn.state(), LinkState::Closed);
    assert!(!conn.is_shutting_down());
}

#[test]
fn shutdown_closes_after_t1_without_confirmation() {
    let mut conn = started();
    conn.tick(2_000);
    assert!(conn.shutdown());
    conn.take_output();
    assert_eq!(conn.tick(16_999), None);
    assert_eq!(conn.state(), LinkState::WaitingUnconfirmedStopped);
    assert_eq!(conn.tick(17_000), Some(ConnectionEvent::Closed));
    assert_eq!(conn.state(), LinkState::Closed);
}

#[test]
fn shutdown_of_a_stopped_connection_closes_at_once() {
    let mut conn = Connection::new("rtu", 2404).unwrap();
    conn.channel_opened(0);
    assert!(!conn.shutdown());
    assert_eq!(conn.state(), LinkState::Closed);
    assert_eq!(conn.take_output(), Vec::<u8>::new());
}

#[test]
fn window_sizes_and_timers_can_be_set() {
    let params = ApciParameters { k: 2, w: 1, t0: 1_000, t1: 3_000, t2: 1_000, t3: 5_000 };
    let mut conn =
        ConnectionBuilder::new("rtu", 2404).apci_parameters(params).build().unwrap();
    assert_eq!(conn.connect_timeout_ms(), 1_000);
    assert_eq!(conn.link().params(), params);
    conn.channel_opened(0);
    conn.send_start_dt();
    conn.receive(&STARTDT_CON);
    conn.poll();
    conn.take_output();
    assert!(conn.send_test_command(1));
    assert!(conn.send_test_command(1));
    assert!(!conn.send_test_command(1));
    // every received frame is acknowledged at once with w = 1
    conn.take_output();
    conn.receive(&[0x68, 0x0E, 0, 0, 4, 0, 0x01, 0x01, 0x03, 0x00, 0x01, 0x00, 5, 0, 0, 0x81]);
    assert!(matches!(conn.poll(), Polled::Asdu { .. }));
    assert_eq!(conn.take_output(), vec![0x68, 0x04, 0x01, 0x00, 0x02, 0x00]);
    // parameters that the protocol does not admit
    let bad = ApciParameters { k: 8, w: 8, ..params };
    assert!(ConnectionBuilder::new("rtu", 2404).apci_parameters(bad).build().is_none());
    let bad = ApciParameters { t2: 3_000, ..params };
    assert!(ConnectionBuilder::new("rtu", 2404).apci_parameters(bad).build().is_none());
}
