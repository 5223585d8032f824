use lib60870::types::{
    CauseOfTransmission, ConnectionEvent, PeerConnectionEvent, Quality, ServerMode, TypeId,
    DEFAULT_PORT, DEFAULT_TLS_PORT, QOI_STATION, QUALITY_BLOCKED, QUALITY_ELAPSED_TIME_INVALID,
    QUALITY_INVALID, QUALITY_NOT_TOPICAL, QUALITY_OVERFLOW, QUALITY_RESERVED1, QUALITY_RESERVED2,
    QUALITY_SUBSTITUTED,
};

#[test]
fn constants_have_the_standard_values() {
    assert_eq!(DEFAULT_PORT, 2404);
    assert_eq!(DEFAULT_TLS_PORT, 19998);
    assert_eq!(QOI_STATION, 20);
}

#[test]
fn cause_of_transmission_raw_values() {
    assert_eq!(CauseOfTransmission::Periodic.as_raw(), 1);
    assert_eq!(CauseOfTransmission::Background.as_raw(), 2);
    assert_eq!(CauseOfTransmission::Spontaneous.as_raw(), 3);
    assert_eq!(CauseOfTransmission::Initialized.as_raw(), 4);
    assert_eq!(CauseOfTransmission::Request.as_raw(), 5);
    assert_eq!(CauseOfTransmission::Activation.as_raw(), 6);
    assert_eq!(CauseOfTransmission::ActivationCon.as_raw(), 7);
    assert_eq!(CauseOfTransmission::Deactivation.as_raw(), 8);
    assert_eq!(CauseOfTransmission::DeactivationCon.as_raw(), 9);
    assert_eq!(CauseOfTransmission::ActivationTermination.as_raw(), 10);
    assert_eq!(CauseOfTransmission::ReturnRemote.as_raw(), 11);
    assert_eq!(CauseOfTransmission::ReturnLocal.as_raw(), 12);
    assert_eq!(CauseOfTransmission::InterrogatedByStation.as_raw(), 20);
    assert_eq!(CauseOfTransmission::UnknownType.as_raw(), 44);
    assert_eq!(CauseOfTransmission::UnknownCot.as_raw(), 45);
    assert_eq!(CauseOfTransmission::UnknownCa.as_raw(), 46);
    assert_eq!(CauseOfTransmission::UnknownIoa.as_raw(), 47);
}

#[test]
fn cause_of_transmission_round_trip() {
    let mut known = 0;
    for raw in 0u32..256 {
        match CauseOfTransmission::from_raw(raw) {
            Some(c) => {
                assert_eq!(c.as_raw(), raw);
                known += 1;
            }
            None => {}
        }
    }
    assert_eq!(known, 17);
    assert_eq!(CauseOfTransmission::from_raw(6), Some(CauseOfTransmission::Activation));
    assert_eq!(CauseOfTransmission::from_raw(0), None);
    assert_eq!(CauseOfTransmission::from_raw(13), None);
    assert_eq!(CauseOfTransmission::from_raw(48), None);
}

#[test]
fn type_id_raw_values() {
    assert_eq!(TypeId::SinglePoint.as_raw(), 1);
    assert_eq!(TypeId::DoublePoint.as_raw(), 3);
    assert_eq!(TypeId::StepPosition.as_raw(), 5);
    assert_eq!(TypeId::Bitstring32.as_raw(), 7);
    assert_eq!(TypeId::MeasuredNormalized.as_raw(), 9);
    assert_eq!(TypeId::MeasuredScaled.as_raw(), 11);
    assert_eq!(TypeId::MeasuredFloat.as_raw(), 13);
    assert_eq!(TypeId::IntegratedTotals.as_raw(), 15);
    assert_eq!(TypeId::SinglePointTime.as_raw(), 30);
    assert_eq!(TypeId::DoublePointTime.as_raw(), 31);
    assert_eq!(TypeId::MeasuredScaledTime.as_raw(), 35);
    assert_eq!(TypeId::MeasuredFloatTime.as_raw(), 36);
    assert_eq!(TypeId::SingleCommand.as_raw(), 45);
    assert_eq!(TypeId::DoubleCommand.as_raw(), 46);
    assert_eq!(TypeId::RegulatingStep.as_raw(), 47);
    assert_eq!(TypeId::SetpointNormalized.as_raw(), 48);
    assert_eq!(TypeId::SetpointScaled.as_raw(), 49);
    assert_eq!(TypeId::SetpointFloat.as_raw(), 50);
    assert_eq!(TypeId::SingleCommandTime.as_raw(), 58);
    assert_eq!(TypeId::EndOfInit.as_raw(), 70);
    assert_eq!(TypeId::Interrogation.as_raw(), 100);
    assert_eq!(TypeId::CounterInterrogation.as_raw(), 101);
    assert_eq!(TypeId::Read.as_raw(), 102);
    assert_eq!(TypeId::ClockSync.as_raw(), 103);
    assert_eq!(TypeId::TestCommand.as_raw(), 104);
    assert_eq!(TypeId::ResetProcess.as_raw(), 105);
    assert_eq!(TypeId::TestCommandTime.as_raw(), 107);
}

#[test]
fn type_id_round_trip() {
    let mut known = 0;
    for raw in 0u32..300 {
        match TypeId::from_raw(raw) {
            Some(t) => {
                assert_eq!(t.as_raw(), raw);
                known += 1;
            }
            None => {}
        }
    }
    assert_eq!(known, 27);
    assert_eq!(TypeId::from_raw(0x64), Some(TypeId::Interrogation));
    assert_eq!(TypeId::from_raw(0), None);
    assert_eq!(TypeId::from_raw(2), None);
    assert_eq!(TypeId::from_raw(106), None);
}

#[test]
fn type_id_names() {
    assert_eq!(TypeId::SinglePoint.name(), "M_SP_NA_1");
    assert_eq!(TypeId::SinglePointTime.name(), "M_SP_TB_1");
    assert_eq!(TypeId::MeasuredFloatTime.name(), "M_ME_TF_1");
    assert_eq!(TypeId::Interrogation.name(), "C_IC_NA_1");
    assert_eq!(TypeId::TestCommandTime.name(), "C_TS_TA_1");
    assert_eq!(TypeId::ResetProcess.name(), "C_RP_NA_1");
}

#[test]
fn quality_flags_in_order() {
    assert_eq!(QUALITY_OVERFLOW, 0x01);
    assert_eq!(QUALITY_RESERVED1, 0x02);
    assert_eq!(QUALITY_RESERVED2, 0x04);
    assert_eq!(QUALITY_ELAPSED_TIME_INVALID, 0x08);
    assert_eq!(QUALITY_BLOCKED, 0x10);
    assert_eq!(QUALITY_SUBSTITUTED, 0x20);
    assert_eq!(QUALITY_NOT_TOPICAL, 0x40);
    assert_eq!(QUALITY_INVALID, 0x80);
    assert_eq!(Quality::overflow().bits(), 0x01);
    assert_eq!(Quality::reserved1().bits(), 0x02);
    assert_eq!(Quality::reserved2().bits(), 0x04);
    assert_eq!(Quality::elapsed_time_invalid().bits(), 0x08);
    assert_eq!(Quality::blocked().bits(), 0x10);
    assert_eq!(Quality::substituted().bits(), 0x20);
    assert_eq!(Quality::not_topical().bits(), 0x40);
    assert_eq!(Quality::invalid().bits(), 0x80);
    assert_eq!(Quality::all().bits(), 0xff);
}

#[test]
fn quality_good_is_no_flag() {
    assert_eq!(Quality::good().bits(), 0);
    assert_eq!(Quality::default(), Quality::good());
    assert_eq!(Quality::empty(), Quality::good());
    assert!(Quality::good().is_good());
    assert!(Quality::good().is_empty());
    assert!(!Quality::invalid().is_good());
}

#[test]
fn quality_set_operations() {
    let q = Quality::blocked().union(Quality::invalid());
    assert_eq!(q.bits(), 0x90);
    assert!(q.contains(Quality::blocked()));
    assert!(q.contains(Quality::invalid()));
    assert!(!q.contains(Quality::overflow()));
    assert!(q.intersects(Quality::blocked().union(Quality::overflow())));
    assert!(!q.intersects(Quality::overflow()));
    assert_eq!(q.intersection(Quality::blocked()).bits(), 0x10);
    assert_eq!(q.difference(Quality::blocked()).bits(), 0x80);
    let mut r = Quality::good();
    r.insert(Quality::substituted());
    r.insert(Quality::overflow());
    assert_eq!(r.bits(), 0x21);
    r.remove(Quality::overflow());
    assert_eq!(r.bits(), 0x20);
    assert_eq!(Quality::from_bits(0x41), Some(Quality::not_topical().union(Quality::overflow())));
    assert_eq!(Quality::from_bits_truncate(0xf0).bits(), 0xf0);
}

#[test]
fn connection_event_from_raw() {
    assert_eq!(ConnectionEvent::from_raw(0), Some(ConnectionEvent::Opened));
    assert_eq!(ConnectionEvent::from_raw(1), Some(ConnectionEvent::Closed));
    assert_eq!(ConnectionEvent::from_raw(2), Some(ConnectionEvent::StartDtCon));
    assert_eq!(ConnectionEvent::from_raw(3), Some(ConnectionEvent::StopDtCon));
    assert_eq!(ConnectionEvent::from_raw(4), Some(ConnectionEvent::Failed));
    assert_eq!(ConnectionEvent::from_raw(5), None);
}

#[test]
fn peer_connection_event_from_raw() {
    assert_eq!(PeerConnectionEvent::from_raw(0), Some(PeerConnectionEvent::Opened));
    assert_eq!(PeerConnectionEvent::from_raw(1), Some(PeerConnectionEvent::Closed));
    assert_eq!(PeerConnectionEvent::from_raw(2), Some(PeerConnectionEvent::Activated));
    assert_eq!(PeerConnectionEvent::from_raw(3), Some(PeerConnectionEvent::Deactivated));
    assert_eq!(PeerConnectionEvent::from_raw(4), None);
}

#[test]
fn server_mode_raw_values() {
    assert_eq!(ServerMode::SingleRedundancyGroup.as_raw(), 0);
    assert_eq!(ServerMode::ConnectionIsRedundancyGroup.as_raw(), 1);
    assert_eq!(ServerMode::MultipleRedundancyGroups.as_raw(), 2);
    assert_eq!(ServerMode::default(), ServerMode::SingleRedundancyGroup);
}
