use lib60870::asdu::Asdu;
use lib60870::client::Connection;
use lib60870::link::{ApciParameters, LinkState};
use lib60870::server::{Enqueued, MasterConnection, Server, ServerBuilder, ServerPolled};
use lib60870::types::{CauseOfTransmission, Quality, ServerMode, TypeId};

const STARTDT_ACT: [u8; 6] = [0x68, 0x04, 0x07, 0, 0, 0];
const STARTDT_CON: [u8; 6] = [0x68, 0x04, 0x0B, 0, 0, 0];
const STOPDT_ACT: [u8; 6] = [0x68, 0x04, 0x13, 0, 0, 0];
const STOPDT_CON: [u8; 6] = [0x68, 0x04, 0x23, 0, 0, 0];
const TESTFR_ACT: [u8; 6] = [0x68, 0x04, 0x43, 0, 0, 0];
const TESTFR_CON: [u8; 6] = [0x68, 0x04, 0x83, 0, 0, 0];

fn running(mode: ServerMode) -> Server {
    let mut server = ServerBuilder::new().server_mode(mode).build().unwrap();
    server.start();
    server
}

fn started_peer(server: &mut Server, key: u32) -> MasterConnection {
    let peer = server.accept(key, 0).unwrap();
    server.receive(peer, &STARTDT_ACT);
    assert!(matches!(server.poll(peer), ServerPolled::Activated { connection } if connection == peer));
    assert_eq!(server.take_output(peer), STARTDT_CON.to_vec());
    peer
}

#[test]
fn test_server_builder() {
    let server = ServerBuilder::new()
        .local_address("127.0.0.1")
        .local_port(2404)
        .queue_sizes(10, 10)
        .build();
    assert!(server.is_some());
}

#[test]
fn test_server_create() {
    let server = Server::new();
    assert!(server.is_some());
}

#[test]
fn server_builder_sets_the_configuration() {
    let server = ServerBuilder::new()
        .local_address("10.1.2.3")
        .local_port(19998)
        .server_mode(ServerMode::MultipleRedundancyGroups)
        .build()
        .unwrap();
    assert_eq!(server.local_address(), "10.1.2.3");
    assert_eq!(server.local_port(), 19998);
    assert_eq!(server.server_mode(), ServerMode::MultipleRedundancyGroups);
    assert!(!server.is_running());
    assert_eq!(server.connection_count(), 0);
    let default = ServerBuilder::default().build().unwrap();
    assert_eq!(default.local_address(), "0.0.0.0");
    assert_eq!(default.local_port(), 2404);
    assert_eq!(default.server_mode(), ServerMode::SingleRedundancyGroup);
}

#[test]
fn server_builder_refuses_a_bad_address() {
    assert!(ServerBuilder::new().local_address("").build().is_none());
    assert!(ServerBuilder::new().local_address("127.0\0.0.1").build().is_none());
}

#[test]
fn server_admits_peers_only_while_running() {
    let mut server = Server::new().unwrap();
    assert!(server.accept(0, 0).is_none());
    server.start();
    assert!(server.is_running());
    let first = server.accept(0, 0).unwrap();
    let second = server.accept(0, 0).unwrap();
    assert_eq!(first.id, 0);
    assert_eq!(second.id, 1);
    assert_eq!(server.connection_count(), 2);
    assert_eq!(server.connection_at(0), Some(first));
    assert_eq!(server.connection_at(1), Some(second));
    assert_eq!(server.connection_at(2), None);
    assert_eq!(server.connection_state(first), Some(LinkState::Stopped));
    server.stop();
    assert!(!server.is_running());
    assert_eq!(server.connection_count(), 0);
    assert_eq!(server.connection_state(first), None);
    assert!(server.accept(0, 0).is_none());
}

#[test]
fn handshake_startdt_is_confirmed() {
    let mut client = Connection::new("127.0.0.1", 2404).unwrap();
    let mut server = running(ServerMode::SingleRedundancyGroup);
    client.connecting(0);
    client.channel_opened(0);
    let peer = server.accept(0, 0).unwrap();
    // the server emits nothing on its own
    assert_eq!(server.take_output(peer), Vec::<u8>::new());
    assert_eq!(client.state(), LinkState::Stopped);

    client.send_start_dt();
    let request = client.take_output();
    assert_eq!(request, STARTDT_ACT.to_vec());
    assert_eq!(client.state(), LinkState::WaitingUnconfirmedStarted);

    server.receive(peer, &request);
    assert!(matches!(server.poll(peer), ServerPolled::Activated { connection } if connection == peer));
    assert!(matches!(server.poll(peer), ServerPolled::Idle));
    let answer = server.take_output(peer);
    assert_eq!(answer, STARTDT_CON.to_vec());
    assert_eq!(server.connection_state(peer), Some(LinkState::Started));

    client.receive(&answer);
    match client.poll() {
        lib60870::client::Polled::Event { event } => {
            assert_eq!(event, lib60870::types::ConnectionEvent::StartDtCon)
        }
        other => panic!("unexpected {:?}", other),
    }
    assert_eq!(client.state(), LinkState::Started);
}

#[test]
fn interrogation_is_confirmed_terminated_and_acknowledged() {
    let mut client = Connection::new("rtu", 2404).unwrap();
    let mut server = running(ServerMode::SingleRedundancyGroup);
    client.channel_opened(0);
    let peer = server.accept(0, 0).unwrap();
    client.send_start_dt();
    server.receive(peer, &client.take_output());
    server.poll(peer);
    client.receive(&server.take_output(peer));
    client.poll();

    assert!(client.send_interrogation(CauseOfTransmission::Activation, 1, 20));
    let request = client.take_output();
    assert_eq!(
        request,
        vec![0x68, 0x0E, 0, 0, 0, 0, 0x64, 0x01, 0x06, 0x00, 0x01, 0x00, 0x00, 0x00, 0x00, 0x14]
    );

    server.receive(peer, &request);
    let asdu = match server.poll(peer) {
        ServerPolled::Interrogation { connection, asdu, qoi } => {
            assert_eq!(connection, peer);
            assert_eq!(qoi, 20);
            assert_eq!(asdu.type_id(), Some(TypeId::Interrogation));
            assert_eq!(asdu.cot(), Some(CauseOfTransmission::Activation));
            assert_eq!(asdu.common_address(), 1);
            asdu
        }
        other => panic!("unexpected {:?}", other),
    };
    assert!(peer.send_act_con(&mut server, &asdu, false));
    assert!(peer.send_act_term(&mut server, &asdu));
    assert!(server.send_next(peer));
    assert!(server.send_next(peer));
    assert!(!server.send_next(peer));
    let answers = server.take_output(peer);
    assert_eq!(
        answers,
        vec![
            // ACT_CON with N(S)=0, N(R)=1
            0x68, 0x0E, 0x00, 0x00, 0x02, 0x00, 0x64, 0x01, 0x07, 0x00, 0x01, 0x00, 0x00, 0x00,
            0x00, 0x14,
            // ACT_TERM with N(S)=1, N(R)=1
            0x68, 0x0E, 0x02, 0x00, 0x02, 0x00, 0x64, 0x01, 0x0A, 0x00, 0x01, 0x00, 0x00, 0x00,
            0x00, 0x14,
        ]
    );

    client.receive(&answers);
    match client.poll() {
        lib60870::client::Polled::Asdu { asdu } => {
            assert_eq!(asdu.cot(), Some(CauseOfTransmission::ActivationCon))
        }
        other => panic!("unexpected {:?}", other),
    }
    match client.poll() {
        lib60870::client::Polled::Asdu { asdu } => {
            assert_eq!(asdu.cot(), Some(CauseOfTransmission::ActivationTermination))
        }
        other => panic!("unexpected {:?}", other),
    }
    assert_eq!(client.link().unacked_rcv_count(), 2);
    // two frames are fewer than w = 8: nothing goes out before t2 has run
    assert_eq!(client.tick(9_999), None);
    assert_eq!(client.take_output(), Vec::<u8>::new());
    assert_eq!(client.tick(10_000), None);
    assert_eq!(client.take_output(), vec![0x68, 0x04, 0x01, 0x00, 0x04, 0x00]);
    assert_eq!(client.link().unacked_rcv_count(), 0);
    assert_eq!(client.link().ack_sent(), 2);
}

#[test]
fn redundancy_second_peer_waits_for_the_first_to_drop() {
    let mut server = running(ServerMode::SingleRedundancyGroup);
    let first = server.accept(0, 0).unwrap();
    let second = server.accept(0, 0).unwrap();

    server.receive(first, &STARTDT_ACT);
    assert!(matches!(server.poll(first), ServerPolled::Activated { .. }));
    assert_eq!(server.take_output(first), STARTDT_CON.to_vec());

    server.receive(second, &STARTDT_ACT);
    assert!(matches!(server.poll(second), ServerPolled::Progress));
    assert_eq!(server.take_output(second), Vec::<u8>::new());
    assert_eq!(server.connection_state(second), Some(LinkState::Stopped));
    assert!(server.is_start_pending(second));

    // the first peer's channel drops: the second is answered
    assert_eq!(server.connection_closed(first), Some(second));
    assert_eq!(server.take_output(second), STARTDT_CON.to_vec());
    assert_eq!(server.connection_state(second), Some(LinkState::Started));
    assert!(!server.is_start_pending(second));
    assert_eq!(server.connection_state(first), None);
    assert_eq!(server.connection_count(), 1);
}

#[test]
fn redundancy_the_first_to_wait_is_the_first_to_start() {
    let mut server = running(ServerMode::SingleRedundancyGroup);
    let a = started_peer(&mut server, 0);
    let b = server.accept(0, 0).unwrap();
    let c = server.accept(0, 0).unwrap();
    server.receive(c, &STARTDT_ACT);
    server.receive(b, &STARTDT_ACT);
    assert!(matches!(server.poll(c), ServerPolled::Progress));
    assert!(matches!(server.poll(b), ServerPolled::Progress));
    // b connected before c
    assert_eq!(server.connection_closed(a), Some(b));
    assert_eq!(server.connection_closed(b), Some(c));
    assert_eq!(server.connection_closed(c), None);
    assert_eq!(server.connection_count(), 0);
}

#[test]
fn redundancy_a_peer_that_stops_makes_room() {
    let mut server = running(ServerMode::SingleRedundancyGroup);
    let a = started_peer(&mut server, 0);
    let b = server.accept(0, 0).unwrap();
    server.receive(b, &STARTDT_ACT);
    assert!(matches!(server.poll(b), ServerPolled::Progress));
    server.receive(a, &STOPDT_ACT);
    match server.poll(a) {
        ServerPolled::Deactivated { connection, promoted } => {
            assert_eq!(connection, a);
            assert_eq!(promoted, Some(b));
        }
        other => panic!("unexpected {:?}", other),
    }
    assert_eq!(server.take_output(a), STOPDT_CON.to_vec());
    assert_eq!(server.take_output(b), STARTDT_CON.to_vec());
    assert_eq!(server.connection_state(a), Some(LinkState::Stopped));
    assert_eq!(server.connection_state(b), Some(LinkState::Started));
}

#[test]
fn every_connection_is_a_group_of_its_own() {
    let mut server = running(ServerMode::ConnectionIsRedundancyGroup);
    let a = started_peer(&mut server, 0);
    let b = started_peer(&mut server, 0);
    assert_eq!(server.connection_state(a), Some(LinkState::Started));
    assert_eq!(server.connection_state(b), Some(LinkState::Started));
    // spontaneous data goes to every active connection, numbered for each
    assert_eq!(
        server.send_measured_scaled(CauseOfTransmission::Periodic, 1, 100, 42, Quality::good()),
        Enqueued::Queued
    );
    assert!(server.send_next(a));
    assert!(!server.send_next(a));
    assert!(server.send_next(b));
    let expected = vec![
        0x68, 0x10, 0x00, 0x00, 0x00, 0x00, 0x0B, 0x01, 0x01, 0x00, 0x01, 0x00, 100, 0, 0, 42, 0,
        0,
    ];
    assert_eq!(server.take_output(a), expected);
    assert_eq!(server.take_output(b), expected);
    assert_eq!(server.connection_closed(a), None);
    assert_eq!(server.connection_state(b), Some(LinkState::Started));
}

#[test]
fn several_groups_have_one_active_peer_each() {
    let mut server = running(ServerMode::MultipleRedundancyGroups);
    let a1 = started_peer(&mut server, 7);
    let b1 = started_peer(&mut server, 9);
    let a2 = server.accept(7, 0).unwrap();
    server.receive(a2, &STARTDT_ACT);
    assert!(matches!(server.poll(a2), ServerPolled::Progress));
    assert!(server.is_start_pending(a2));
    // the other group is not touched when b1 drops
    assert_eq!(server.connection_closed(b1), None);
    assert!(server.is_start_pending(a2));
    assert_eq!(server.connection_closed(a1), Some(a2));
    assert_eq!(server.connection_state(a2), Some(LinkState::Started));
}

#[test]
fn malformed_frame_closes_the_peer() {
    let mut server = running(ServerMode::SingleRedundancyGroup);
    let peer = server.accept(0, 0).unwrap();
    server.receive(peer, &[0x69, 0x04, 0x07, 0x00, 0x00, 0x00]);
    match server.poll(peer) {
        ServerPolled::Closed { connection, promoted } => {
            assert_eq!(connection, peer);
            assert_eq!(promoted, None);
        }
        other => panic!("unexpected {:?}", other),
    }
    assert_eq!(server.connection_count(), 0);
    assert!(matches!(server.poll(peer), ServerPolled::Idle));
}

#[test]
fn i_frame_while_stopped_closes_the_peer() {
    let mut server = running(ServerMode::SingleRedundancyGroup);
    let peer = server.accept(0, 0).unwrap();
    server.receive(
        peer,
        &[0x68, 0x0E, 0, 0, 0, 0, 0x64, 0x01, 0x06, 0x00, 0x01, 0x00, 0x00, 0x00, 0x00, 0x14],
    );
    assert!(matches!(server.poll(peer), ServerPolled::Closed { .. }));
    assert_eq!(server.connection_state(peer), None);
}

#[test]
fn out_of_order_i_frame_closes_the_peer() {
    let mut server = running(ServerMode::SingleRedundancyGroup);
    let peer = started_peer(&mut server, 0);
    // N(S) = 1 where 0 is expected
    server.receive(
        peer,
        &[0x68, 0x0E, 2, 0, 0, 0, 0x64, 0x01, 0x06, 0x00, 0x01, 0x00, 0x00, 0x00, 0x00, 0x14],
    );
    assert!(matches!(server.poll(peer), ServerPolled::Closed { .. }));
    assert_eq!(server.connection_count(), 0);
}

#[test]
fn test_frames_are_answered() {
    let mut server = running(ServerMode::SingleRedundancyGroup);
    let peer = server.accept(0, 0).unwrap();
    server.receive(peer, &TESTFR_ACT);
    assert!(matches!(server.poll(peer), ServerPolled::Progress));
    assert_eq!(server.take_output(peer), TESTFR_CON.to_vec());
}

#[test]
fn idle_peer_is_tested_and_closed_without_answer() {
    let mut server = running(ServerMode::SingleRedundancyGroup);
    let peer = server.accept(0, 1_000).unwrap();
    assert!(matches!(server.tick(peer, 20_999), ServerPolled::Idle));
    assert_eq!(server.take_output(peer), Vec::<u8>::new());
    assert!(matches!(server.tick(peer, 21_000), ServerPolled::Idle));
    assert_eq!(server.take_output(peer), TESTFR_ACT.to_vec());
    assert!(matches!(server.tick(peer, 35_999), ServerPolled::Idle));
    match server.tick(peer, 36_000) {
        ServerPolled::Closed { connection, promoted } => {
            assert_eq!(connection, peer);
            assert_eq!(promoted, None);
        }
        other => panic!("unexpected {:?}", other),
    }
    assert_eq!(server.connection_count(), 0);
    assert!(matches!(server.tick(peer, 40_000), ServerPolled::Idle));
}

#[test]
fn spontaneous_data_waits_for_an_active_peer() {
    let mut server = running(ServerMode::SingleRedundancyGroup);
    assert_eq!(
        server.send_single_point(
            CauseOfTransmission::Spontaneous,
            3,
            0x010203,
            true,
            Quality::invalid()
        ),
        Enqueued::Queued
    );
    let peer = server.accept(0, 0).unwrap();
    // a stopped peer sends nothing
    assert!(!server.send_next(peer));
    server.receive(peer, &STARTDT_ACT);
    server.poll(peer);
    server.take_output(peer);
    assert!(server.send_next(peer));
    assert_eq!(
        server.take_output(peer),
        vec![0x68, 0x0E, 0, 0, 0, 0, 0x01, 0x01, 0x03, 0x00, 0x03, 0x00, 0x03, 0x02, 0x01, 0x81]
    );
}

#[test]
fn measured_float_is_sent_as_its_bits() {
    let mut server = running(ServerMode::SingleRedundancyGroup);
    let peer = started_peer(&mut server, 0);
    // 1.5 as an IEEE 754 single
    assert_eq!(
        server.send_measured_float(
            CauseOfTransmission::Spontaneous,
            1,
            5,
            1.5f32.to_bits(),
            Quality::overflow()
        ),
        Enqueued::Queued
    );
    assert!(server.send_next(peer));
    assert_eq!(
        server.take_output(peer),
        vec![
            0x68, 0x12, 0, 0, 0, 0, 0x0D, 0x01, 0x03, 0x00, 0x01, 0x00, 5, 0, 0, 0x00, 0x00, 0xC0,
            0x3F, 0x01
        ]
    );
}

#[test]
fn convenience_senders_reject_a_long_address() {
    let mut server = running(ServerMode::SingleRedundancyGroup);
    assert_eq!(
        server.send_single_point(CauseOfTransmission::Spontaneous, 1, 0x1000000, true, Quality::good()),
        Enqueued::Rejected
    );
    assert_eq!(
        server.send_measured_scaled(CauseOfTransmission::Spontaneous, 1, 0x1000000, 1, Quality::good()),
        Enqueued::Rejected
    );
    assert_eq!(
        server.send_measured_float(CauseOfTransmission::Spontaneous, 1, 0x1000000, 1, Quality::good()),
        Enqueued::Rejected
    );
    let empty = Asdu::new(
        TypeId::SinglePoint,
        false,
        CauseOfTransmission::Spontaneous,
        0,
        1,
        false,
        false,
    );
    assert_eq!(server.enqueue_asdu(&empty), Enqueued::Rejected);
}

#[test]
fn low_priority_overflow_drops_the_oldest() {
    let mut server = ServerBuilder::new().queue_sizes(2, 2).build().unwrap();
    server.start();
    for value in 1..=2 {
        assert_eq!(
            server.send_measured_scaled(CauseOfTransmission::Spontaneous, 1, 10, value, Quality::good()),
            Enqueued::Queued
        );
    }
    assert_eq!(
        server.send_measured_scaled(CauseOfTransmission::Spontaneous, 1, 10, 3, Quality::good()),
        Enqueued::Overflowed
    );
    let peer = started_peer(&mut server, 0);
    assert!(server.send_next(peer));
    assert!(server.send_next(peer));
    assert!(!server.send_next(peer));
    let out = server.take_output(peer);
    // values 2 and 3 are left, in this order
    assert_eq!(out.len(), 36);
    assert_eq!(out[15], 2);
    assert_eq!(out[18 + 15], 3);
}

#[test]
fn high_priority_goes_first_and_is_refused_when_full() {
    let mut server = ServerBuilder::new().queue_sizes(5, 1).build().unwrap();
    server.start();
    let peer = started_peer(&mut server, 0);
    assert_eq!(
        server.send_measured_scaled(CauseOfTransmission::Spontaneous, 1, 10, 1, Quality::good()),
        Enqueued::Queued
    );
    let mut answer = Asdu::new(
        TypeId::Interrogation,
        false,
        CauseOfTransmission::Activation,
        0,
        1,
        false,
        false,
    );
    assert!(answer.add_element(0, &[20]));
    assert!(peer.send_act_con(&mut server, &answer, true));
    // the class has room for one
    assert!(!peer.send_act_term(&mut server, &answer));
    assert!(server.send_next(peer));
    assert!(server.send_next(peer));
    let out = server.take_output(peer);
    // first the negative confirmation, then the measured value
    assert_eq!(&out[..16], &[0x68, 0x0E, 0, 0, 0, 0, 0x64, 0x01, 0x47, 0, 1, 0, 0, 0, 0, 20]);
    assert_eq!(out[16 + 6], 0x0B);
}

#[test]
fn answers_are_refused_for_unknown_or_stopped_peers() {
    let mut server = running(ServerMode::SingleRedundancyGroup);
    let stopped = server.accept(0, 0).unwrap();
    let mut asdu = Asdu::new(
        TypeId::Interrogation,
        false,
        CauseOfTransmission::Activation,
        0,
        1,
        false,
        false,
    );
    assert!(asdu.add_element(0, &[20]));
    assert!(!stopped.send_asdu(&mut server, &asdu));
    let unknown = MasterConnection { id: 99 };
    assert!(!unknown.send_asdu(&mut server, &asdu));
    assert!(!server.send_next(unknown));
    assert_eq!(server.take_output(unknown), Vec::<u8>::new());
    server.receive(unknown, &STARTDT_ACT);
    assert!(matches!(server.poll(unknown), ServerPolled::Idle));
}

#[test]
fn clock_sync_is_handed_on_with_its_time() {
    let mut server = running(ServerMode::SingleRedundancyGroup);
    let peer = started_peer(&mut server, 0);
    server.receive(
        peer,
        &[
            0x68, 0x14, 0, 0, 0, 0, 0x67, 0x01, 0x06, 0x00, 0x01, 0x00, 0, 0, 0, 0x8D, 0xE5, 59,
            23, 29, 2, 24,
        ],
    );
    match server.poll(peer) {
        ServerPolled::ClockSync { connection, asdu, time } => {
            assert_eq!(connection, peer);
            assert_eq!(asdu.type_id(), Some(TypeId::ClockSync));
            assert_eq!(time.as_ms(), 1709251198765);
        }
        other => panic!("unexpected {:?}", other),
    }
}

#[test]
fn unknown_type_is_answered_negative() {
    let mut server = running(ServerMode::SingleRedundancyGroup);
    let peer = started_peer(&mut server, 0);
    // type 200 is not supported; test flag set
    server.receive(peer, &[0x68, 0x0B, 0, 0, 0, 0, 200, 0x01, 0x86, 0x05, 0x01, 0x00, 0xEE]);
    match server.poll(peer) {
        ServerPolled::Rejected { connection, asdu } => {
            assert_eq!(connection, peer);
            assert_eq!(asdu.type_id(), None);
            assert_eq!(asdu.type_id_raw(), 200);
        }
        other => panic!("unexpected {:?}", other),
    }
    assert_eq!(
        server.take_output(peer),
        vec![0x68, 0x0B, 0, 0, 0x02, 0, 200, 0x01, 0xC7, 0x05, 0x01, 0x00, 0xEE]
    );
    assert_eq!(server.connection_state(peer), Some(LinkState::Started));
}

#[test]
fn malformed_command_is_dropped_and_answered() {
    let mut server = running(ServerMode::SingleRedundancyGroup);
    let peer = started_peer(&mut server, 0);
    // a single command with two octets of body where one is due
    server.receive(peer, &[0x68, 0x0F, 0, 0, 0, 0, 45, 0x01, 0x06, 0x00, 0x01, 0x00, 1, 0, 0, 1, 1]);
    match server.poll(peer) {
        ServerPolled::Dropped { connection, error } => {
            assert_eq!(connection, peer);
            assert_eq!(error, lib60870::asdu::AsduError::SizeMismatch);
        }
        other => panic!("unexpected {:?}", other),
    }
    // unknown type id (44), negative
    assert_eq!(
        server.take_output(peer),
        vec![0x68, 0x0F, 0, 0, 0x02, 0, 45, 0x01, 0x6C, 0x00, 0x01, 0x00, 1, 0, 0, 1, 1]
    );
    // a malformed monitor value is dropped without answer
    server.receive(peer, &[0x68, 0x0B, 0x02, 0, 0x02, 0, 1, 0x01, 0x03, 0x00, 0x01, 0x00, 1]);
    assert!(matches!(server.poll(peer), ServerPolled::Dropped { .. }));
    assert_eq!(server.take_output(peer), Vec::<u8>::new());
    assert_eq!(server.connection_state(peer), Some(LinkState::Started));
}

#[test]
fn server_parameters_and_dropped_count() {
    let params = ApciParameters { k: 3, w: 2, t0: 1_000, t1: 3_000, t2: 1_000, t3: 5_000 };
    let mut server = ServerBuilder::new().apci_parameters(params).build().unwrap();
    server.start();
    let peer = started_peer(&mut server, 0);
    // idle for t3 = 5 s
    assert!(matches!(server.tick(peer, 5_000), ServerPolled::Idle));
    assert_eq!(server.take_output(peer), TESTFR_ACT.to_vec());
    server.receive(peer, &TESTFR_CON);
    assert!(matches!(server.poll(peer), ServerPolled::Progress));
    assert_eq!(server.dropped_count(peer), 0);
    server.receive(peer, &[0x68, 0x0B, 0, 0, 0, 0, 1, 0x01, 0x03, 0x00, 0x01, 0x00, 1]);
    assert!(matches!(server.poll(peer), ServerPolled::Dropped { .. }));
    assert_eq!(server.dropped_count(peer), 1);
    assert_eq!(server.dropped_count(MasterConnection { id: 77 }), 0);
    let bad = ApciParameters { w: 3, ..params };
    assert!(ServerBuilder::new().apci_parameters(bad).build().is_none());
}

#[test]
fn refused_command_comes_back_negative() {
    let mut server = running(ServerMode::SingleRedundancyGroup);
    let peer = started_peer(&mut server, 0);
    server.receive(
        peer,
        &[0x68, 0x0E, 0, 0, 0, 0, 0x2D, 0x01, 0x06, 0x00, 0x01, 0x00, 7, 0, 0, 0x01],
    );
    let asdu = match server.poll(peer) {
        ServerPolled::Asdu { connection, asdu } => {
            assert_eq!(connection, peer);
            asdu
        }
        other => panic!("unexpected {:?}", other),
    };
    assert!(server.refuse(peer, &asdu));
    assert!(server.send_next(peer));
    assert_eq!(
        server.take_output(peer),
        vec![0x68, 0x0E, 0, 0, 0x02, 0, 0x2D, 0x01, 0x6C, 0x00, 0x01, 0x00, 7, 0, 0, 0x01]
    );
}
