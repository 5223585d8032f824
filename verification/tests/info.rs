use lib60870::info::command::{
    CounterInterrogation, DoubleCommand, RegulatingStep, SetpointFloat, SetpointNormalized,
    SetpointScaled, TestCommand, TEST_PATTERN,
};
use lib60870::info::monitor::{Bitstring32, EndOfInit, IntegratedTotals, StepPosition};
use lib60870::info::{
    DoublePoint, DoublePointValue, InfoObject, MeasuredFloat, MeasuredNormalized, MeasuredScaled,
    SingleCommand, SinglePoint,
};
use lib60870::types::{Quality, TypeId};

#[test]
fn double_point_value_from_raw() {
    assert_eq!(DoublePointValue::from_raw(0), DoublePointValue::Intermediate);
    assert_eq!(DoublePointValue::from_raw(1), DoublePointValue::Off);
    assert_eq!(DoublePointValue::from_raw(2), DoublePointValue::On);
    assert_eq!(DoublePointValue::from_raw(3), DoublePointValue::Indeterminate);
    assert_eq!(DoublePointValue::from_raw(4), DoublePointValue::Indeterminate);
    assert_eq!(DoublePointValue::from_raw(u32::MAX), DoublePointValue::Indeterminate);
    for raw in 0..4 {
        assert_eq!(DoublePointValue::from_raw(raw).as_raw(), raw);
    }
}

#[test]
fn single_point_octet() {
    let p = SinglePoint::from_raw(7, &[0x91]).unwrap();
    assert_eq!(p.ioa, 7);
    assert!(p.value);
    assert_eq!(p.quality.bits(), 0x90);
    assert_eq!(p.to_raw(), vec![0x91]);
    // the reserved bits below the quality flags are not part of the object
    let p = SinglePoint::from_raw(7, &[0x0E]).unwrap();
    assert!(!p.value);
    assert_eq!(p.quality, Quality::good());
    assert_eq!(p.to_raw(), vec![0x00]);
    assert_eq!(SinglePoint::from_raw(7, &[]), None);
    let q = SinglePoint { ioa: 1, value: true, quality: Quality::overflow().union(Quality::invalid()) };
    assert_eq!(q.to_raw(), vec![0x81]);
}

#[test]
fn double_point_octet() {
    for (octet, value) in [
        (0x00u8, DoublePointValue::Intermediate),
        (0x01, DoublePointValue::Off),
        (0x02, DoublePointValue::On),
        (0x03, DoublePointValue::Indeterminate),
    ] {
        let p = DoublePoint::from_raw(1, &[octet | 0x40]).unwrap();
        assert_eq!(p.value, value);
        assert_eq!(p.quality, Quality::not_topical());
        assert_eq!(p.to_raw(), vec![octet | 0x40]);
    }
    assert_eq!(DoublePoint::from_raw(1, &[]), None);
}

#[test]
fn measured_scaled_octets() {
    for (value, lo, hi) in
        [(0i16, 0u8, 0u8), (1, 1, 0), (-1, 0xFF, 0xFF), (256, 0, 1), (32767, 0xFF, 0x7F), (-32768, 0, 0x80), (-2, 0xFE, 0xFF)]
    {
        let m = MeasuredScaled { ioa: 3, value, quality: Quality::overflow() };
        assert_eq!(m.to_raw(), vec![lo, hi, 0x01]);
        assert_eq!(MeasuredScaled::from_raw(3, &[lo, hi, 0x01]), Some(m));
    }
    assert_eq!(MeasuredScaled::from_raw(3, &[1, 2]), None);
}

#[test]
fn measured_scaled_round_trip_of_every_value() {
    for value in i16::MIN..=i16::MAX {
        let m = MeasuredScaled { ioa: 0, value, quality: Quality::good() };
        assert_eq!(MeasuredScaled::from_raw(0, &m.to_raw()), Some(m));
    }
}

#[test]
fn measured_normalized_octets() {
    let m = MeasuredNormalized { ioa: 3, value: -16384, quality: Quality::blocked() };
    assert_eq!(m.to_raw(), vec![0x00, 0xC0, 0x10]);
    assert_eq!(MeasuredNormalized::from_raw(3, &[0x00, 0xC0, 0x10]), Some(m));
    assert_eq!(MeasuredNormalized::from_raw(3, &[]), None);
    // in floating point the value is value / 32768
    assert_eq!(m.value as f32 / 32768.0, -0.5);
}

#[test]
fn measured_float_octets() {
    for value in [0.0f32, 1.5, -2.25, f32::MAX, f32::MIN_POSITIVE] {
        let m = MeasuredFloat { ioa: 1, value: value.to_bits(), quality: Quality::invalid() };
        let raw = m.to_raw();
        assert_eq!(&raw[..4], &value.to_le_bytes());
        assert_eq!(raw[4], 0x80);
        let back = MeasuredFloat::from_raw(1, &raw).unwrap();
        assert_eq!(back, m);
        assert_eq!(f32::from_bits(back.value), value);
    }
    assert_eq!(MeasuredFloat::from_raw(1, &[0, 0, 0, 0]), None);
    let m = MeasuredFloat { ioa: 1, value: 0x01020304, quality: Quality::good() };
    assert_eq!(m.to_raw(), vec![0x04, 0x03, 0x02, 0x01, 0x00]);
}

#[test]
fn single_command_octet() {
    let c = SingleCommand::from_raw(2, &[0x8D]).unwrap();
    assert!(c.state);
    assert!(c.select);
    assert_eq!(c.qualifier, 3);
    assert_eq!(c.to_raw(), vec![0x8D]);
    let c = SingleCommand::from_raw(2, &[0x02]).unwrap();
    assert!(!c.state);
    assert!(!c.select);
    assert_eq!(c.qualifier, 0);
    let c = SingleCommand { ioa: 2, state: false, select: true, qualifier: 31 };
    assert_eq!(c.to_raw(), vec![0xFC]);
    assert_eq!(SingleCommand::from_raw(2, &c.to_raw()), Some(c));
    // only five bits of the qualifier travel
    let c = SingleCommand { ioa: 2, state: true, select: false, qualifier: 33 };
    assert_eq!(c.to_raw(), vec![0x05]);
    assert_eq!(SingleCommand::from_raw(2, &[]), None);
}

#[test]
fn object_bodies_by_type() {
    let o = InfoObject::from_body(TypeId::DoublePointTime, 4, &[0x12, 1, 2, 3, 4, 5, 6, 7]);
    assert_eq!(
        o,
        Some(InfoObject::DoublePoint(DoublePoint {
            ioa: 4,
            value: DoublePointValue::On,
            quality: Quality::blocked()
        }))
    );
    // a body that is too short
    assert_eq!(InfoObject::from_body(TypeId::DoublePointTime, 4, &[0x12, 1, 2]), None);
    assert_eq!(InfoObject::from_body(TypeId::MeasuredFloat, 4, &[1, 2, 3, 4]), None);
    assert!(InfoObject::from_body(TypeId::Read, 4, &[]).is_some());
    let unknown = InfoObject::Unknown { type_id: 200, ioa: 4 };
    assert_eq!(unknown.to_body(), None);
    assert_eq!(unknown.ioa(), 4);
    let o = InfoObject::MeasuredFloat(MeasuredFloat { ioa: 1, value: 7, quality: Quality::good() });
    assert_eq!(o.to_body(), Some((TypeId::MeasuredFloat, vec![7, 0, 0, 0, 0])));
    assert_eq!(o.ioa(), 1);
}

#[test]
fn step_position_is_a_signed_seven_bit_number() {
    for (value, octet) in [(0i8, 0x00u8), (1, 0x01), (63, 0x3F), (-1, 0x7F), (-64, 0x40)] {
        let p = StepPosition { ioa: 1, value, transient: false, quality: Quality::good() };
        assert_eq!(p.to_raw(), vec![octet, 0]);
        assert_eq!(StepPosition::from_raw(1, &[octet, 0]), Some(p));
        let t = StepPosition { transient: true, ..p };
        assert_eq!(t.to_raw(), vec![octet | 0x80, 0]);
        assert_eq!(StepPosition::from_raw(1, &[octet | 0x80, 0]), Some(t));
    }
    assert_eq!(StepPosition::from_raw(1, &[0]), None);
}

#[test]
fn integrated_totals_octets() {
    for (value, octets) in [
        (0i32, [0u8, 0, 0, 0]),
        (1, [1, 0, 0, 0]),
        (-1, [0xFF, 0xFF, 0xFF, 0xFF]),
        (i32::MAX, [0xFF, 0xFF, 0xFF, 0x7F]),
        (i32::MIN, [0, 0, 0, 0x80]),
        (0x01020304, [4, 3, 2, 1]),
    ] {
        let c = IntegratedTotals {
            ioa: 1,
            value,
            sequence: 31,
            carry: false,
            adjusted: true,
            invalid: false,
        };
        let mut body = octets.to_vec();
        body.push(0x5F);
        assert_eq!(c.to_raw(), body);
        assert_eq!(IntegratedTotals::from_raw(1, &body), Some(c));
    }
    assert_eq!(IntegratedTotals::from_raw(1, &[0, 0, 0, 0]), None);
}

#[test]
fn command_octets() {
    let c = DoubleCommand { ioa: 1, state: 2, select: true, qualifier: 31 };
    assert_eq!(c.to_raw(), vec![0xFE]);
    assert_eq!(DoubleCommand::from_raw(1, &[0xFE]), Some(c));
    let c = RegulatingStep { ioa: 1, step: 1, select: false, qualifier: 2 };
    assert_eq!(c.to_raw(), vec![0x09]);
    assert_eq!(RegulatingStep::from_raw(1, &[0x09]), Some(c));
    let c = CounterInterrogation { ioa: 0, request: 5, freeze: 3 };
    assert_eq!(c.to_raw(), vec![0xC5]);
    assert_eq!(CounterInterrogation::from_raw(0, &[0xC5]), Some(c));
    let c = SetpointScaled { ioa: 1, value: -2, qualifier: 5, select: true };
    assert_eq!(c.to_raw(), vec![0xFE, 0xFF, 0x85]);
    assert_eq!(SetpointScaled::from_raw(1, &[0xFE, 0xFF, 0x85]), Some(c));
    let c = SetpointNormalized { ioa: 1, value: 1, qualifier: 0, select: false };
    assert_eq!(c.to_raw(), vec![0x01, 0x00, 0x00]);
    let c = SetpointFloat { ioa: 1, value: 1.5f32.to_bits(), qualifier: 0, select: true };
    assert_eq!(c.to_raw(), vec![0x00, 0x00, 0xC0, 0x3F, 0x80]);
    assert_eq!(SetpointFloat::from_raw(1, &c.to_raw()), Some(c));
    assert_eq!(TEST_PATTERN, 0x55AA);
    assert_eq!(TestCommand::new(0).to_raw(), vec![0xAA, 0x55]);
    assert_eq!(Bitstring32 { ioa: 1, value: 1, quality: Quality::good() }.to_raw(), vec![1, 0, 0, 0, 0]);
    assert_eq!(EndOfInit { ioa: 0, cause: 1, local_change: false }.to_raw(), vec![1]);
    assert_eq!(EndOfInit::from_raw(0, &[]), None);
}
