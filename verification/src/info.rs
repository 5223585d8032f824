//! Information objects: the values that an ASDU carries, each under its
//! information object address.
//!
//! An object travels as its address and a body whose layout the ASDU's type
//! fixes. This module holds the measured values, the single command and
//! `InfoObject`, the object of any type; `monitor` and `command` hold the
//! other types of the two directions.

pub mod command;
pub mod monitor;

use vstd::prelude::*;
use crate::info::command::{
    ClockSync, CounterInterrogation, DoubleCommand, Interrogation, Read, RegulatingStep,
    ResetProcess, SetpointFloat, SetpointNormalized, SetpointScaled, TestCommand, TestCommandTime,
};
use crate::info::monitor::{Bitstring32, EndOfInit, IntegratedTotals, StepPosition};
use crate::types::{Quality, TypeId};

verus! {

/// Information object address (IOA), three octets on the wire.
pub type Ioa = u32;

/// The number of octets in the body of one information object of type `t`,
/// the address not counted.
pub open spec fn body_size(t: TypeId) -> nat {
    match t {
        TypeId::SinglePoint => 1,
        TypeId::SinglePointTime => 8,
        TypeId::DoublePoint => 1,
        TypeId::DoublePointTime => 8,
        TypeId::StepPosition => 2,
        TypeId::Bitstring32 => 5,
        TypeId::MeasuredNormalized => 3,
        TypeId::MeasuredScaled => 3,
        TypeId::MeasuredScaledTime => 10,
        TypeId::MeasuredFloat => 5,
        TypeId::MeasuredFloatTime => 12,
        TypeId::IntegratedTotals => 5,
        TypeId::EndOfInit => 1,
        TypeId::SingleCommand => 1,
        TypeId::SingleCommandTime => 8,
        TypeId::DoubleCommand => 1,
        TypeId::RegulatingStep => 1,
        TypeId::SetpointNormalized => 3,
        TypeId::SetpointScaled => 3,
        TypeId::SetpointFloat => 5,
        TypeId::Interrogation => 1,
        TypeId::CounterInterrogation => 1,
        TypeId::Read => 0,
        TypeId::ClockSync => 7,
        TypeId::TestCommand => 2,
        TypeId::TestCommandTime => 9,
        TypeId::ResetProcess => 1,
    }
}

/// Whether the body of an object of type `t` ends in a seven-octet time tag.
pub open spec fn has_time_tag(t: TypeId) -> bool {
    match t {
        TypeId::SinglePointTime
        | TypeId::DoublePointTime
        | TypeId::MeasuredScaledTime
        | TypeId::MeasuredFloatTime
        | TypeId::SingleCommandTime
        | TypeId::ClockSync
        | TypeId::TestCommandTime => true,
        _ => false,
    }
}

/// The number of octets in the body of one information object of type `t`.
pub fn element_size(t: TypeId) -> (n: usize)
    ensures
        n == body_size(t),
        n <= 12,
        has_time_tag(t) ==> n >= 7,
{
    match t {
        TypeId::SinglePoint => 1,
        TypeId::SinglePointTime => 8,
        TypeId::DoublePoint => 1,
        TypeId::DoublePointTime => 8,
        TypeId::StepPosition => 2,
        TypeId::Bitstring32 => 5,
        TypeId::MeasuredNormalized => 3,
        TypeId::MeasuredScaled => 3,
        TypeId::MeasuredScaledTime => 10,
        TypeId::MeasuredFloat => 5,
        TypeId::MeasuredFloatTime => 12,
        TypeId::IntegratedTotals => 5,
        TypeId::EndOfInit => 1,
        TypeId::SingleCommand => 1,
        TypeId::SingleCommandTime => 8,
        TypeId::DoubleCommand => 1,
        TypeId::RegulatingStep => 1,
        TypeId::SetpointNormalized => 3,
        TypeId::SetpointScaled => 3,
        TypeId::SetpointFloat => 5,
        TypeId::Interrogation => 1,
        TypeId::CounterInterrogation => 1,
        TypeId::Read => 0,
        TypeId::ClockSync => 7,
        TypeId::TestCommand => 2,
        TypeId::TestCommandTime => 9,
        TypeId::ResetProcess => 1,
    }
}

/// Whether the body of an object of type `t` ends in a time tag.
pub fn time_tagged(t: TypeId) -> (r: bool)
    ensures
        r == has_time_tag(t),
{
    match t {
        TypeId::SinglePointTime
        | TypeId::DoublePointTime
        | TypeId::MeasuredScaledTime
        | TypeId::MeasuredFloatTime
        | TypeId::SingleCommandTime
        | TypeId::ClockSync
        | TypeId::TestCommandTime => true,
        _ => false,
    }
}

/// The signed 16-bit value that two octets hold, low octet first.
pub open spec fn i16_of_octets(lo: u8, hi: u8) -> i16 {
    if lo + 256 * hi >= 32768 {
        (lo + 256 * hi - 65536) as i16
    } else {
        (lo + 256 * hi) as i16
    }
}

/// The two octets that hold a signed 16-bit value, low octet first.
pub open spec fn octets_of_i16(v: i16) -> Seq<u8> {
    if v < 0 {
        seq![((v + 65536) % 256) as u8, ((v + 65536) / 256) as u8]
    } else {
        seq![(v % 256) as u8, (v / 256) as u8]
    }
}

/// The unsigned 32-bit value that four octets hold, low octet first.
pub open spec fn u32_of_octets(b0: u8, b1: u8, b2: u8, b3: u8) -> u32 {
    (b0 + 256 * b1 + 65536 * b2 + 16777216 * b3) as u32
}

/// The four octets that hold an unsigned 32-bit value, low octet first.
pub open spec fn octets_of_u32(v: u32) -> Seq<u8> {
    seq![
        (v % 256) as u8,
        ((v / 256) % 256) as u8,
        ((v / 65536) % 256) as u8,
        (v / 16777216) as u8,
    ]
}

/// The unsigned 16-bit value that two octets hold, low octet first.
pub open spec fn u16_of_octets(lo: u8, hi: u8) -> u16 {
    (lo + 256 * hi) as u16
}

/// The two octets that hold an unsigned 16-bit value, low octet first.
pub open spec fn octets_of_u16(v: u16) -> Seq<u8> {
    seq![(v % 256) as u8, (v / 256) as u8]
}

/// The signed 32-bit value that four octets hold, low octet first.
pub open spec fn i32_of_octets(b0: u8, b1: u8, b2: u8, b3: u8) -> i32 {
    if b3 >= 128 {
        (b0 + 256 * b1 + 65536 * b2 + 16777216 * b3 - 4294967296) as i32
    } else {
        (b0 + 256 * b1 + 65536 * b2 + 16777216 * b3) as i32
    }
}

/// The four octets that hold a signed 32-bit value, low octet first.
pub open spec fn octets_of_i32(v: i32) -> Seq<u8> {
    if v < 0 {
        octets_of_u32((v + 4294967296) as u32)
    } else {
        octets_of_u32(v as u32)
    }
}

pub(crate) fn read_u16(lo: u8, hi: u8) -> (v: u16)
    ensures
        v == u16_of_octets(lo, hi),
{
    lo as u16 + 256 * (hi as u16)
}

pub(crate) fn write_u16(out: &mut Vec<u8>, v: u16)
    ensures
        final(out)@ == old(out)@ + octets_of_u16(v),
{
    out.push((v % 256) as u8);
    out.push((v / 256) as u8);
    assert(out@ == old(out)@ + octets_of_u16(v));
}

pub(crate) fn read_i32(b0: u8, b1: u8, b2: u8, b3: u8) -> (v: i32)
    ensures
        v == i32_of_octets(b0, b1, b2, b3),
{
    let wide: i64 = b0 as i64 + 256 * (b1 as i64) + 65536 * (b2 as i64) + 16777216 * (b3 as i64);
    if b3 >= 128 {
        (wide - 4294967296) as i32
    } else {
        wide as i32
    }
}

pub(crate) fn write_i32(out: &mut Vec<u8>, v: i32)
    ensures
        final(out)@ == old(out)@ + octets_of_i32(v),
{
    let wide: i64 = if v < 0 {
        v as i64 + 4294967296
    } else {
        v as i64
    };
    write_u32(out, wide as u32);
}

pub(crate) fn read_i16(lo: u8, hi: u8) -> (v: i16)
    ensures
        v == i16_of_octets(lo, hi),
{
    let wide: i32 = lo as i32 + 256 * (hi as i32);
    if wide >= 32768 {
        (wide - 65536) as i16
    } else {
        wide as i16
    }
}

pub(crate) fn write_i16(out: &mut Vec<u8>, v: i16)
    ensures
        final(out)@ == old(out)@ + octets_of_i16(v),
{
    let wide: i32 = if v < 0 {
        v as i32 + 65536
    } else {
        v as i32
    };
    out.push((wide % 256) as u8);
    out.push((wide / 256) as u8);
    assert(out@ == old(out)@ + octets_of_i16(v));
}

pub(crate) fn read_u32(b0: u8, b1: u8, b2: u8, b3: u8) -> (v: u32)
    ensures
        v == u32_of_octets(b0, b1, b2, b3),
{
    b0 as u32 + 256 * (b1 as u32) + 65536 * (b2 as u32) + 16777216 * (b3 as u32)
}

pub(crate) fn write_u32(out: &mut Vec<u8>, v: u32)
    ensures
        final(out)@ == old(out)@ + octets_of_u32(v),
{
    out.push((v % 256) as u8);
    out.push(((v / 256) % 256) as u8);
    out.push(((v / 65536) % 256) as u8);
    out.push((v / 16777216) as u8);
    assert(out@ == old(out)@ + octets_of_u32(v));
}

/// Single-point information (boolean status).
///
/// Used for status indications like switch positions and alarm states. Its
/// body is one octet: the value in the lowest bit, the quality flags
/// blocked, substituted, not topical and invalid in the upper four.
#[derive(Debug, Clone, Copy, PartialEq, Eq)]
pub struct SinglePoint {
    /// Information object address
    pub ioa: Ioa,
    /// Boolean value (true = ON, false = OFF)
    pub value: bool,
    /// Quality descriptor
    pub quality: Quality,
}

impl SinglePoint {
    /// The object at `ioa` whose body is the octet `siq`.
    pub open spec fn of_octet(ioa: Ioa, siq: u8) -> SinglePoint {
        SinglePoint {
            ioa,
            value: siq % 2 == 1,
            quality: Quality { bits: (siq - siq % 16) as u8 },
        }
    }

    /// The body octet. Quality flags below the upper four are left out.
    pub open spec fn octet(self) -> u8 {
        (self.quality.bits - self.quality.bits % 16 + if self.value {
            1int
        } else {
            0int
        }) as u8
    }

    /// An object that its body octet holds in full.
    pub open spec fn wf(self) -> bool {
        self.quality.bits % 16 == 0
    }

    /// Read the object at `ioa` from its body. `None` where the body is
    /// empty.
    pub fn from_raw(ioa: Ioa, body: &[u8]) -> (r: Option<Self>)
        ensures
            body@.len() >= 1 ==> r == Some(Self::of_octet(ioa, body@[0])),
            body@.len() == 0 ==> r is None,
    {
        if body.len() < 1 {
            return None;
        }
        let siq: u8 = body[0];
        Some(
            SinglePoint {
                ioa,
                value: siq % 2 == 1,
                quality: Quality::from_bits_truncate(siq - siq % 16),
            },
        )
    }

    /// The body of the object.
    pub fn to_raw(&self) -> (body: Vec<u8>)
        ensures
            body@ == seq![self.octet()],
    {
        let flags: u8 = self.quality.bits();
        let value: u8 = if self.value {
            1
        } else {
            0
        };
        let mut body: Vec<u8> = Vec::new();
        body.push(flags - flags % 16 + value);
        assert(body@ == seq![self.octet()]);
        body
    }
}

/// Double-point state values.
#[derive(Debug, Clone, Copy, PartialEq, Eq, Hash, Structural)]
pub enum DoublePointValue {
    /// Indeterminate or intermediate state
    Intermediate,
    /// Determined state OFF
    Off,
    /// Determined state ON
    On,
    /// Indeterminate state
    Indeterminate,
}

impl DoublePointValue {
    /// The two-bit number that stands for the state.
    pub open spec fn raw_value(self) -> u32 {
        match self {
            Self::Intermediate => 0,
            Self::Off => 1,
            Self::On => 2,
            Self::Indeterminate => 3,
        }
    }

    /// The state that a number stands for: every number above 2 stands for
    /// the indeterminate state.
    pub open spec fn of_raw(raw: u32) -> DoublePointValue {
        if raw == 0 {
            Self::Intermediate
        } else if raw == 1 {
            Self::Off
        } else if raw == 2 {
            Self::On
        } else {
            Self::Indeterminate
        }
    }

    /// Create from raw value.
    pub fn from_raw(raw: u32) -> (v: Self)
        ensures
            v == Self::of_raw(raw),
            raw <= 3 ==> v.raw_value() == raw,
            raw > 3 ==> v == DoublePointValue::Indeterminate,
    {
        match raw {
            0 => Self::Intermediate,
            1 => Self::Off,
            2 => Self::On,
            _ => Self::Indeterminate,
        }
    }

    /// The two-bit number that stands for the state.
    #[verifier::when_used_as_spec(raw_value)]
    pub fn as_raw(self) -> (raw: u32)
        ensures
            raw == self.raw_value(),
            raw <= 3,
    {
        match self {
            Self::Intermediate => 0,
            Self::Off => 1,
            Self::On => 2,
            Self::Indeterminate => 3,
        }
    }
}

/// Double-point information (two-bit status).
///
/// Used for equipment with distinct ON/OFF states where intermediate
/// positions need to be detected. Its body is one octet: the state in the
/// lowest two bits, quality flags in the upper four.
#[derive(Debug, Clone, Copy, PartialEq, Eq)]
pub struct DoublePoint {
    /// Information object address
    pub ioa: Ioa,
    /// Double-point value
    pub value: DoublePointValue,
    /// Quality descriptor
    pub quality: Quality,
}

impl DoublePoint {
    /// The object at `ioa` whose body is the octet `diq`.
    pub open spec fn of_octet(ioa: Ioa, diq: u8) -> DoublePoint {
        DoublePoint {
            ioa,
            value: DoublePointValue::of_raw((diq % 4) as u32),
            quality: Quality { bits: (diq - diq % 16) as u8 },
        }
    }

    /// The body octet. Quality flags below the upper four are left out.
    pub open spec fn octet(self) -> u8 {
        (self.quality.bits - self.quality.bits % 16 + self.value.raw_value()) as u8
    }

    /// An object that its body octet holds in full.
    pub open spec fn wf(self) -> bool {
        self.quality.bits % 16 == 0
    }

    /// Read the object at `ioa` from its body. `None` where the body is
    /// empty.
    pub fn from_raw(ioa: Ioa, body: &[u8]) -> (r: Option<Self>)
        ensures
            body@.len() >= 1 ==> r == Some(Self::of_octet(ioa, body@[0])),
            body@.len() == 0 ==> r is None,
    {
        if body.len() < 1 {
            return None;
        }
        let diq: u8 = body[0];
        Some(
            DoublePoint {
                ioa,
                value: DoublePointValue::from_raw((diq % 4) as u32),
                quality: Quality::from_bits_truncate(diq - diq % 16),
            },
        )
    }

    /// The body of the object.
    pub fn to_raw(&self) -> (body: Vec<u8>)
        ensures
            body@ == seq![self.octet()],
    {
        let flags: u8 = self.quality.bits();
        let mut body: Vec<u8> = Vec::new();
        body.push(flags - flags % 16 + self.value.as_raw() as u8);
        assert(body@ == seq![self.octet()]);
        body
    }
}

/// Measured value with scaled representation.
///
/// The value is a 16-bit signed integer (-32768 to 32767). Its body is the
/// value in two octets, low octet first, and the quality octet.
#[derive(Debug, Clone, Copy, PartialEq, Eq)]
pub struct MeasuredScaled {
    /// Information object address
    pub ioa: Ioa,
    /// Scaled value (-32768 to 32767)
    pub value: i16,
    /// Quality descriptor
    pub quality: Quality,
}

impl MeasuredScaled {
    /// The object at `ioa` whose body starts with the three octets given.
    pub open spec fn of_octets(ioa: Ioa, lo: u8, hi: u8, qds: u8) -> MeasuredScaled {
        MeasuredScaled { ioa, value: i16_of_octets(lo, hi), quality: Quality { bits: qds } }
    }

    /// The three octets of the body.
    pub open spec fn octets(self) -> Seq<u8> {
        octets_of_i16(self.value) + seq![self.quality.bits]
    }

    /// Read the object at `ioa` from its body. `None` where the body has
    /// fewer than three octets.
    pub fn from_raw(ioa: Ioa, body: &[u8]) -> (r: Option<Self>)
        ensures
            body@.len() >= 3 ==> r == Some(Self::of_octets(ioa, body@[0], body@[1], body@[2])),
            body@.len() < 3 ==> r is None,
    {
        if body.len() < 3 {
            return None;
        }
        Some(
            MeasuredScaled {
                ioa,
                value: read_i16(body[0], body[1]),
                quality: Quality::from_bits_truncate(body[2]),
            },
        )
    }

    /// The body of the object.
    pub fn to_raw(&self) -> (body: Vec<u8>)
        ensures
            body@ == self.octets(),
    {
        let mut body: Vec<u8> = Vec::new();
        write_i16(&mut body, self.value);
        body.push(self.quality.bits());
        assert(body@ == self.octets());
        body
    }
}

/// Measured value with normalized representation.
///
/// The value counts steps of 2^-15: -32768 stands for -1.0, 32767 for just
/// under 1.0. Its body is the value in two octets, low octet first, and the
/// quality octet.
#[derive(Debug, Clone, Copy, PartialEq, Eq)]
pub struct MeasuredNormalized {
    /// Information object address
    pub ioa: Ioa,
    /// Normalized value in steps of 2^-15
    pub value: i16,
    /// Quality descriptor
    pub quality: Quality,
}

impl MeasuredNormalized {
    /// The object at `ioa` whose body starts with the three octets given.
    pub open spec fn of_octets(ioa: Ioa, lo: u8, hi: u8, qds: u8) -> MeasuredNormalized {
        MeasuredNormalized { ioa, value: i16_of_octets(lo, hi), quality: Quality { bits: qds } }
    }

    /// The three octets of the body.
    pub open spec fn octets(self) -> Seq<u8> {
        octets_of_i16(self.value) + seq![self.quality.bits]
    }

    /// Read the object at `ioa` from its body. `None` where the body has
    /// fewer than three octets.
    pub fn from_raw(ioa: Ioa, body: &[u8]) -> (r: Option<Self>)
        ensures
            body@.len() >= 3 ==> r == Some(Self::of_octets(ioa, body@[0], body@[1], body@[2])),
            body@.len() < 3 ==> r is None,
    {
        if body.len() < 3 {
            return None;
        }
        Some(
            MeasuredNormalized {
                ioa,
                value: read_i16(body[0], body[1]),
                quality: Quality::from_bits_truncate(body[2]),
            },
        )
    }

    /// The body of the object.
    pub fn to_raw(&self) -> (body: Vec<u8>)
        ensures
            body@ == self.octets(),
    {
        let mut body: Vec<u8> = Vec::new();
        write_i16(&mut body, self.value);
        body.push(self.quality.bits());
        assert(body@ == self.octets());
        body
    }
}

/// Measured value with short floating point representation.
///
/// The value is held as the 32 bits of an IEEE 754 single-precision number.
/// Its body is those bits in four octets, low octet first, and the quality
/// octet.
#[derive(Debug, Clone, Copy, PartialEq, Eq)]
pub struct MeasuredFloat {
    /// Information object address
    pub ioa: Ioa,
    /// The bits of the floating point value
    pub value: u32,
    /// Quality descriptor
    pub quality: Quality,
}

impl MeasuredFloat {
    /// The object at `ioa` whose body is the five octets given.
    pub open spec fn of_octets(ioa: Ioa, b0: u8, b1: u8, b2: u8, b3: u8, qds: u8) -> MeasuredFloat {
        MeasuredFloat { ioa, value: u32_of_octets(b0, b1, b2, b3), quality: Quality { bits: qds } }
    }

    /// The five octets of the body.
    pub open spec fn octets(self) -> Seq<u8> {
        octets_of_u32(self.value) + seq![self.quality.bits]
    }

    /// Read the object at `ioa` from its body. `None` where the body has
    /// fewer than five octets.
    pub fn from_raw(ioa: Ioa, body: &[u8]) -> (r: Option<Self>)
        ensures
            body@.len() >= 5 ==> r == Some(
                Self::of_octets(ioa, body@[0], body@[1], body@[2], body@[3], body@[4]),
            ),
            body@.len() < 5 ==> r is None,
    {
        if body.len() < 5 {
            return None;
        }
        Some(
            MeasuredFloat {
                ioa,
                value: read_u32(body[0], body[1], body[2], body[3]),
                quality: Quality::from_bits_truncate(body[4]),
            },
        )
    }

    /// The body of the object.
    pub fn to_raw(&self) -> (body: Vec<u8>)
        ensures
            body@ == self.octets(),
    {
        let mut body: Vec<u8> = Vec::new();
        write_u32(&mut body, self.value);
        body.push(self.quality.bits());
        assert(body@ == self.octets());
        body
    }
}

/// Single command (switch ON/OFF).
///
/// Its body is one octet: the state in the lowest bit, the qualifier in bits
/// 2 to 6, the select flag in the highest bit.
#[derive(Debug, Clone, Copy, PartialEq, Eq)]
pub struct SingleCommand {
    /// Information object address
    pub ioa: Ioa,
    /// Command state (true = ON, false = OFF)
    pub state: bool,
    /// Select/Execute flag (true = select, false = execute)
    pub select: bool,
    /// Qualifier of command (0 = no additional definition), below 32
    pub qualifier: u8,
}

impl SingleCommand {
    /// The command at `ioa` whose body is the octet `sco`.
    pub open spec fn of_octet(ioa: Ioa, sco: u8) -> SingleCommand {
        SingleCommand {
            ioa,
            state: sco % 2 == 1,
            select: sco >= 128,
            qualifier: ((sco / 4) % 32) as u8,
        }
    }

    /// The body octet. Of the qualifier the lowest five bits are taken.
    pub open spec fn octet(self) -> u8 {
        ((if self.state {
            1int
        } else {
            0int
        }) + 4 * (self.qualifier % 32) + (if self.select {
            128int
        } else {
            0int
        })) as u8
    }

    /// A command that its body octet holds in full.
    pub open spec fn wf(self) -> bool {
        self.qualifier < 32
    }

    /// Read the command at `ioa` from its body. `None` where the body is
    /// empty.
    pub fn from_raw(ioa: Ioa, body: &[u8]) -> (r: Option<Self>)
        ensures
            body@.len() >= 1 ==> r == Some(Self::of_octet(ioa, body@[0])),
            body@.len() == 0 ==> r is None,
    {
        if body.len() < 1 {
            return None;
        }
        let sco: u8 = body[0];
        Some(
            SingleCommand {
                ioa,
                state: sco % 2 == 1,
                select: sco >= 128,
                qualifier: (sco / 4) % 32,
            },
        )
    }

    /// The body of the command.
    pub fn to_raw(&self) -> (body: Vec<u8>)
        ensures
            body@ == seq![self.octet()],
    {
        let state: u8 = if self.state {
            1
        } else {
            0
        };
        let select: u8 = if self.select {
            128
        } else {
            0
        };
        let mut body: Vec<u8> = Vec::new();
        body.push(state + 4 * (self.qualifier % 32) + select);
        assert(body@ == seq![self.octet()]);
        body
    }
}

/// Parsed information object from an ASDU.
#[derive(Debug, Clone, Copy, PartialEq, Eq)]
pub enum InfoObject {
    /// Single-point information
    SinglePoint(SinglePoint),
    /// Double-point information
    DoublePoint(DoublePoint),
    /// Step position information
    StepPosition(StepPosition),
    /// Bitstring of 32 bits
    Bitstring32(Bitstring32),
    /// Measured value, normalized
    MeasuredNormalized(MeasuredNormalized),
    /// Measured value, scaled
    MeasuredScaled(MeasuredScaled),
    /// Measured value, floating point
    MeasuredFloat(MeasuredFloat),
    /// Integrated totals
    IntegratedTotals(IntegratedTotals),
    /// End of initialization
    EndOfInit(EndOfInit),
    /// Single command
    SingleCommand(SingleCommand),
    /// Double command
    DoubleCommand(DoubleCommand),
    /// Regulating step command
    RegulatingStep(RegulatingStep),
    /// Set point command, normalized
    SetpointNormalized(SetpointNormalized),
    /// Set point command, scaled
    SetpointScaled(SetpointScaled),
    /// Set point command, floating point
    SetpointFloat(SetpointFloat),
    /// Interrogation command
    Interrogation(Interrogation),
    /// Counter interrogation command
    CounterInterrogation(CounterInterrogation),
    /// Read command
    Read(Read),
    /// Clock synchronization command
    ClockSync(ClockSync),
    /// Test command
    TestCommand(TestCommand),
    /// Test command with time tag
    TestCommandTime(TestCommandTime),
    /// Reset process command
    ResetProcess(ResetProcess),
    /// An object of a type that is not supported: its address is known, its
    /// body is not read
    Unknown {
        /// Raw type ID value from the ASDU
        type_id: u32,
        /// Information object address
        ioa: Ioa,
    },
}

impl InfoObject {
    /// The object of type `t` at `ioa` with the given body. Of a body that
    /// ends in the time tag of a value in monitor direction or of a single
    /// command, the tag is left out.
    pub open spec fn of_body(t: TypeId, ioa: Ioa, body: Seq<u8>) -> InfoObject {
        match t {
            TypeId::SinglePoint | TypeId::SinglePointTime => InfoObject::SinglePoint(SinglePoint::of_octet(ioa, body[0])),
            TypeId::DoublePoint | TypeId::DoublePointTime => InfoObject::DoublePoint(DoublePoint::of_octet(ioa, body[0])),
            TypeId::StepPosition => InfoObject::StepPosition(StepPosition::of_octets(ioa, body[0], body[1])),
            TypeId::Bitstring32 => InfoObject::Bitstring32(Bitstring32::of_octets(ioa, body[0], body[1], body[2], body[3], body[4])),
            TypeId::MeasuredNormalized => InfoObject::MeasuredNormalized(MeasuredNormalized::of_octets(ioa, body[0], body[1], body[2])),
            TypeId::MeasuredScaled | TypeId::MeasuredScaledTime => InfoObject::MeasuredScaled(MeasuredScaled::of_octets(ioa, body[0], body[1], body[2])),
            TypeId::MeasuredFloat | TypeId::MeasuredFloatTime => InfoObject::MeasuredFloat(MeasuredFloat::of_octets(ioa, body[0], body[1], body[2], body[3], body[4])),
            TypeId::IntegratedTotals => InfoObject::IntegratedTotals(IntegratedTotals::of_octets(ioa, body[0], body[1], body[2], body[3], body[4])),
            TypeId::EndOfInit => InfoObject::EndOfInit(EndOfInit::of_octet(ioa, body[0])),
            TypeId::SingleCommand | TypeId::SingleCommandTime => InfoObject::SingleCommand(SingleCommand::of_octet(ioa, body[0])),
            TypeId::DoubleCommand => InfoObject::DoubleCommand(DoubleCommand::of_octet(ioa, body[0])),
            TypeId::RegulatingStep => InfoObject::RegulatingStep(RegulatingStep::of_octet(ioa, body[0])),
            TypeId::SetpointNormalized => InfoObject::SetpointNormalized(SetpointNormalized::of_octets(ioa, body[0], body[1], body[2])),
            TypeId::SetpointScaled => InfoObject::SetpointScaled(SetpointScaled::of_octets(ioa, body[0], body[1], body[2])),
            TypeId::SetpointFloat => InfoObject::SetpointFloat(SetpointFloat::of_octets(ioa, body[0], body[1], body[2], body[3], body[4])),
            TypeId::Interrogation => InfoObject::Interrogation(Interrogation::of_octet(ioa, body[0])),
            TypeId::CounterInterrogation => InfoObject::CounterInterrogation(CounterInterrogation::of_octet(ioa, body[0])),
            TypeId::Read => InfoObject::Read(Read { ioa }),
            TypeId::ClockSync => InfoObject::ClockSync(ClockSync::of_octets(ioa, body)),
            TypeId::TestCommand => InfoObject::TestCommand(TestCommand::of_octets(ioa, body[0], body[1])),
            TypeId::TestCommandTime => InfoObject::TestCommandTime(TestCommandTime::of_octets(ioa, body)),
            TypeId::ResetProcess => InfoObject::ResetProcess(ResetProcess::of_octet(ioa, body[0])),
        }
    }

    /// The address of the object.
    pub open spec fn ioa_of(self) -> Ioa {
        match self {
            InfoObject::SinglePoint(o) => o.ioa,
            InfoObject::DoublePoint(o) => o.ioa,
            InfoObject::StepPosition(o) => o.ioa,
            InfoObject::Bitstring32(o) => o.ioa,
            InfoObject::MeasuredNormalized(o) => o.ioa,
            InfoObject::MeasuredScaled(o) => o.ioa,
            InfoObject::MeasuredFloat(o) => o.ioa,
            InfoObject::IntegratedTotals(o) => o.ioa,
            InfoObject::EndOfInit(o) => o.ioa,
            InfoObject::SingleCommand(o) => o.ioa,
            InfoObject::DoubleCommand(o) => o.ioa,
            InfoObject::RegulatingStep(o) => o.ioa,
            InfoObject::SetpointNormalized(o) => o.ioa,
            InfoObject::SetpointScaled(o) => o.ioa,
            InfoObject::SetpointFloat(o) => o.ioa,
            InfoObject::Interrogation(o) => o.ioa,
            InfoObject::CounterInterrogation(o) => o.ioa,
            InfoObject::Read(o) => o.ioa,
            InfoObject::ClockSync(o) => o.ioa,
            InfoObject::TestCommand(o) => o.ioa,
            InfoObject::TestCommandTime(o) => o.ioa,
            InfoObject::ResetProcess(o) => o.ioa,
            InfoObject::Unknown { type_id, ioa } => ioa,
        }
    }

    /// The type without time tag that carries the object; none for an
    /// object of a type that is not supported.
    pub open spec fn type_of(self) -> Option<TypeId> {
        match self {
            InfoObject::SinglePoint(o) => Some(TypeId::SinglePoint),
            InfoObject::DoublePoint(o) => Some(TypeId::DoublePoint),
            InfoObject::StepPosition(o) => Some(TypeId::StepPosition),
            InfoObject::Bitstring32(o) => Some(TypeId::Bitstring32),
            InfoObject::MeasuredNormalized(o) => Some(TypeId::MeasuredNormalized),
            InfoObject::MeasuredScaled(o) => Some(TypeId::MeasuredScaled),
            InfoObject::MeasuredFloat(o) => Some(TypeId::MeasuredFloat),
            InfoObject::IntegratedTotals(o) => Some(TypeId::IntegratedTotals),
            InfoObject::EndOfInit(o) => Some(TypeId::EndOfInit),
            InfoObject::SingleCommand(o) => Some(TypeId::SingleCommand),
            InfoObject::DoubleCommand(o) => Some(TypeId::DoubleCommand),
            InfoObject::RegulatingStep(o) => Some(TypeId::RegulatingStep),
            InfoObject::SetpointNormalized(o) => Some(TypeId::SetpointNormalized),
            InfoObject::SetpointScaled(o) => Some(TypeId::SetpointScaled),
            InfoObject::SetpointFloat(o) => Some(TypeId::SetpointFloat),
            InfoObject::Interrogation(o) => Some(TypeId::Interrogation),
            InfoObject::CounterInterrogation(o) => Some(TypeId::CounterInterrogation),
            InfoObject::Read(o) => Some(TypeId::Read),
            InfoObject::ClockSync(o) => Some(TypeId::ClockSync),
            InfoObject::TestCommand(o) => Some(TypeId::TestCommand),
            InfoObject::TestCommandTime(o) => Some(TypeId::TestCommandTime),
            InfoObject::ResetProcess(o) => Some(TypeId::ResetProcess),
            InfoObject::Unknown { type_id, ioa } => None,
        }
    }

    /// The body of the object; empty for `Unknown`.
    pub open spec fn body_of(self) -> Seq<u8> {
        match self {
            InfoObject::SinglePoint(o) => seq![o.octet()],
            InfoObject::DoublePoint(o) => seq![o.octet()],
            InfoObject::StepPosition(o) => o.octets(),
            InfoObject::Bitstring32(o) => o.octets(),
            InfoObject::MeasuredNormalized(o) => o.octets(),
            InfoObject::MeasuredScaled(o) => o.octets(),
            InfoObject::MeasuredFloat(o) => o.octets(),
            InfoObject::IntegratedTotals(o) => o.octets(),
            InfoObject::EndOfInit(o) => seq![o.octet()],
            InfoObject::SingleCommand(o) => seq![o.octet()],
            InfoObject::DoubleCommand(o) => seq![o.octet()],
            InfoObject::RegulatingStep(o) => seq![o.octet()],
            InfoObject::SetpointNormalized(o) => o.octets(),
            InfoObject::SetpointScaled(o) => o.octets(),
            InfoObject::SetpointFloat(o) => o.octets(),
            InfoObject::Interrogation(o) => seq![o.octet()],
            InfoObject::CounterInterrogation(o) => seq![o.octet()],
            InfoObject::Read(o) => Seq::empty(),
            InfoObject::ClockSync(o) => o.octets(),
            InfoObject::TestCommand(o) => o.octets(),
            InfoObject::TestCommandTime(o) => o.octets(),
            InfoObject::ResetProcess(o) => seq![o.octet()],
            InfoObject::Unknown { type_id, ioa } => Seq::empty(),
        }
    }

    /// An object that its body holds in full.
    pub open spec fn wf(self) -> bool {
        match self {
            InfoObject::SinglePoint(o) => o.wf(),
            InfoObject::DoublePoint(o) => o.wf(),
            InfoObject::StepPosition(o) => o.wf(),
            InfoObject::IntegratedTotals(o) => o.wf(),
            InfoObject::EndOfInit(o) => o.wf(),
            InfoObject::SingleCommand(o) => o.wf(),
            InfoObject::DoubleCommand(o) => o.wf(),
            InfoObject::RegulatingStep(o) => o.wf(),
            InfoObject::SetpointNormalized(o) => o.wf(),
            InfoObject::SetpointScaled(o) => o.wf(),
            InfoObject::SetpointFloat(o) => o.wf(),
            InfoObject::CounterInterrogation(o) => o.wf(),
            InfoObject::Unknown { type_id, ioa } => false,
            _ => true,
        }
    }

    /// Read the object of type `t` at `ioa` from its body. `None` where the
    /// body is shorter than the bodies of the type are.
    pub fn from_body(t: TypeId, ioa: Ioa, body: &[u8]) -> (r: Option<Self>)
        ensures
            r is Some == (body@.len() >= body_size(t)),
            r matches Some(o) ==> o == Self::of_body(t, ioa, body@),
    {
        if body.len() < element_size(t) {
            return None;
        }
        match t {
            TypeId::SinglePoint | TypeId::SinglePointTime => match SinglePoint::from_raw(ioa, body) {
                Some(o) => Some(InfoObject::SinglePoint(o)),
                None => None,
            },
            TypeId::DoublePoint | TypeId::DoublePointTime => match DoublePoint::from_raw(ioa, body) {
                Some(o) => Some(InfoObject::DoublePoint(o)),
                None => None,
            },
            TypeId::StepPosition => match StepPosition::from_raw(ioa, body) {
                Some(o) => Some(InfoObject::StepPosition(o)),
                None => None,
            },
            TypeId::Bitstring32 => match Bitstring32::from_raw(ioa, body) {
                Some(o) => Some(InfoObject::Bitstring32(o)),
                None => None,
            },
            TypeId::MeasuredNormalized => match MeasuredNormalized::from_raw(ioa, body) {
                Some(o) => Some(InfoObject::MeasuredNormalized(o)),
                None => None,
            },
            TypeId::MeasuredScaled | TypeId::MeasuredScaledTime => match MeasuredScaled::from_raw(ioa, body) {
                Some(o) => Some(InfoObject::MeasuredScaled(o)),
                None => None,
            },
            TypeId::MeasuredFloat | TypeId::MeasuredFloatTime => match MeasuredFloat::from_raw(ioa, body) {
                Some(o) => Some(InfoObject::MeasuredFloat(o)),
                None => None,
            },
            TypeId::IntegratedTotals => match IntegratedTotals::from_raw(ioa, body) {
                Some(o) => Some(InfoObject::IntegratedTotals(o)),
                None => None,
            },
            TypeId::EndOfInit => match EndOfInit::from_raw(ioa, body) {
                Some(o) => Some(InfoObject::EndOfInit(o)),
                None => None,
            },
            TypeId::SingleCommand | TypeId::SingleCommandTime => match SingleCommand::from_raw(ioa, body) {
                Some(o) => Some(InfoObject::SingleCommand(o)),
                None => None,
            },
            TypeId::DoubleCommand => match DoubleCommand::from_raw(ioa, body) {
                Some(o) => Some(InfoObject::DoubleCommand(o)),
                None => None,
            },
            TypeId::RegulatingStep => match RegulatingStep::from_raw(ioa, body) {
                Some(o) => Some(InfoObject::RegulatingStep(o)),
                None => None,
            },
            TypeId::SetpointNormalized => match SetpointNormalized::from_raw(ioa, body) {
                Some(o) => Some(InfoObject::SetpointNormalized(o)),
                None => None,
            },
            TypeId::SetpointScaled => match SetpointScaled::from_raw(ioa, body) {
                Some(o) => Some(InfoObject::SetpointScaled(o)),
                None => None,
            },
            TypeId::SetpointFloat => match SetpointFloat::from_raw(ioa, body) {
                Some(o) => Some(InfoObject::SetpointFloat(o)),
                None => None,
            },
            TypeId::Interrogation => match Interrogation::from_raw(ioa, body) {
                Some(o) => Some(InfoObject::Interrogation(o)),
                None => None,
            },
            TypeId::CounterInterrogation => match CounterInterrogation::from_raw(ioa, body) {
                Some(o) => Some(InfoObject::CounterInterrogation(o)),
                None => None,
            },
            TypeId::Read => match Read::from_raw(ioa, body) {
                Some(o) => Some(InfoObject::Read(o)),
                None => None,
            },
            TypeId::ClockSync => match ClockSync::from_raw(ioa, body) {
                Some(o) => Some(InfoObject::ClockSync(o)),
                None => None,
            },
            TypeId::TestCommand => match TestCommand::from_raw(ioa, body) {
                Some(o) => Some(InfoObject::TestCommand(o)),
                None => None,
            },
            TypeId::TestCommandTime => match TestCommandTime::from_raw(ioa, body) {
                Some(o) => Some(InfoObject::TestCommandTime(o)),
                None => None,
            },
            TypeId::ResetProcess => match ResetProcess::from_raw(ioa, body) {
                Some(o) => Some(InfoObject::ResetProcess(o)),
                None => None,
            },
        }
    }

    /// The type that carries the object and the object's body. `None` for
    /// `Unknown`, which has no body to write.
    pub fn to_body(&self) -> (r: Option<(TypeId, Vec<u8>)>)
        ensures
            match r {
                Some((t, body)) => self.type_of() == Some(t) && body@ == self.body_of()
                    && body@.len() == body_size(t),
                None => self.type_of() is None,
            },
    {
        match self {
            InfoObject::SinglePoint(o) => Some((TypeId::SinglePoint, o.to_raw())),
            InfoObject::DoublePoint(o) => Some((TypeId::DoublePoint, o.to_raw())),
            InfoObject::StepPosition(o) => Some((TypeId::StepPosition, o.to_raw())),
            InfoObject::Bitstring32(o) => Some((TypeId::Bitstring32, o.to_raw())),
            InfoObject::MeasuredNormalized(o) => Some((TypeId::MeasuredNormalized, o.to_raw())),
            InfoObject::MeasuredScaled(o) => Some((TypeId::MeasuredScaled, o.to_raw())),
            InfoObject::MeasuredFloat(o) => Some((TypeId::MeasuredFloat, o.to_raw())),
            InfoObject::IntegratedTotals(o) => Some((TypeId::IntegratedTotals, o.to_raw())),
            InfoObject::EndOfInit(o) => Some((TypeId::EndOfInit, o.to_raw())),
            InfoObject::SingleCommand(o) => Some((TypeId::SingleCommand, o.to_raw())),
            InfoObject::DoubleCommand(o) => Some((TypeId::DoubleCommand, o.to_raw())),
            InfoObject::RegulatingStep(o) => Some((TypeId::RegulatingStep, o.to_raw())),
            InfoObject::SetpointNormalized(o) => Some((TypeId::SetpointNormalized, o.to_raw())),
            InfoObject::SetpointScaled(o) => Some((TypeId::SetpointScaled, o.to_raw())),
            InfoObject::SetpointFloat(o) => Some((TypeId::SetpointFloat, o.to_raw())),
            InfoObject::Interrogation(o) => Some((TypeId::Interrogation, o.to_raw())),
            InfoObject::CounterInterrogation(o) => Some((TypeId::CounterInterrogation, o.to_raw())),
            InfoObject::Read(o) => Some((TypeId::Read, o.to_raw())),
            InfoObject::ClockSync(o) => Some((TypeId::ClockSync, o.to_raw())),
            InfoObject::TestCommand(o) => Some((TypeId::TestCommand, o.to_raw())),
            InfoObject::TestCommandTime(o) => Some((TypeId::TestCommandTime, o.to_raw())),
            InfoObject::ResetProcess(o) => Some((TypeId::ResetProcess, o.to_raw())),
            InfoObject::Unknown { type_id, ioa } => None,
        }
    }

    /// The address of the object.
    pub fn ioa(&self) -> (ioa: Ioa)
        ensures
            ioa == self.ioa_of(),
    {
        match self {
            InfoObject::SinglePoint(o) => o.ioa,
            InfoObject::DoublePoint(o) => o.ioa,
            InfoObject::StepPosition(o) => o.ioa,
            InfoObject::Bitstring32(o) => o.ioa,
            InfoObject::MeasuredNormalized(o) => o.ioa,
            InfoObject::MeasuredScaled(o) => o.ioa,
            InfoObject::MeasuredFloat(o) => o.ioa,
            InfoObject::IntegratedTotals(o) => o.ioa,
            InfoObject::EndOfInit(o) => o.ioa,
            InfoObject::SingleCommand(o) => o.ioa,
            InfoObject::DoubleCommand(o) => o.ioa,
            InfoObject::RegulatingStep(o) => o.ioa,
            InfoObject::SetpointNormalized(o) => o.ioa,
            InfoObject::SetpointScaled(o) => o.ioa,
            InfoObject::SetpointFloat(o) => o.ioa,
            InfoObject::Interrogation(o) => o.ioa,
            InfoObject::CounterInterrogation(o) => o.ioa,
            InfoObject::Read(o) => o.ioa,
            InfoObject::ClockSync(o) => o.ioa,
            InfoObject::TestCommand(o) => o.ioa,
            InfoObject::TestCommandTime(o) => o.ioa,
            InfoObject::ResetProcess(o) => o.ioa,
            InfoObject::Unknown { type_id, ioa } => *ioa,
        }
    }
}

/// Round trip of a signed 16-bit value through its two octets.
pub proof fn i16_round_trip(v: i16)
    ensures
        octets_of_i16(v).len() == 2,
        i16_of_octets(octets_of_i16(v)[0], octets_of_i16(v)[1]) == v,
{
}

/// Round trip of two octets through the signed 16-bit value they hold.
pub proof fn i16_octets_round_trip(lo: u8, hi: u8)
    ensures
        octets_of_i16(i16_of_octets(lo, hi)) == seq![lo, hi],
{
}

/// Round trip of an unsigned 32-bit value through its four octets.
pub proof fn u32_round_trip(v: u32)
    ensures
        octets_of_u32(v).len() == 4,
        u32_of_octets(
            octets_of_u32(v)[0],
            octets_of_u32(v)[1],
            octets_of_u32(v)[2],
            octets_of_u32(v)[3],
        ) == v,
{
}

/// Round trip of an unsigned 16-bit value through its two octets.
pub proof fn u16_round_trip(v: u16)
    ensures
        octets_of_u16(v).len() == 2,
        u16_of_octets(octets_of_u16(v)[0], octets_of_u16(v)[1]) == v,
{
}

/// Round trip of a signed 32-bit value through its four octets.
pub proof fn i32_round_trip(v: i32)
    ensures
        octets_of_i32(v).len() == 4,
        i32_of_octets(
            octets_of_i32(v)[0],
            octets_of_i32(v)[1],
            octets_of_i32(v)[2],
            octets_of_i32(v)[3],
        ) == v,
{
    let u: u32 = if v < 0 {
        (v + 4294967296) as u32
    } else {
        v as u32
    };
    u32_round_trip(u);
    let o = octets_of_u32(u);
    assert(octets_of_i32(v) == o);
    assert(o[3] == u / 16777216);
    assert(o[3] >= 128 <==> u >= 2147483648);
    assert(o[0] + 256 * o[1] + 65536 * o[2] + 16777216 * o[3] == u);
}

/// Reading the body of a `SinglePoint` gives it back.
proof fn single_point_round_trip(m: SinglePoint)
    requires
        m.wf(),
    ensures
        SinglePoint::of_octet(m.ioa, (seq![m.octet()])[0]) == m,
{
}

/// Reading the body of a `DoublePoint` gives it back.
proof fn double_point_round_trip(m: DoublePoint)
    requires
        m.wf(),
    ensures
        DoublePoint::of_octet(m.ioa, (seq![m.octet()])[0]) == m,
{
}

/// Reading the body of a `StepPosition` gives it back.
proof fn step_position_round_trip(m: StepPosition)
    requires
        m.wf(),
    ensures
        StepPosition::of_octets(m.ioa, (m.octets())[0], (m.octets())[1]) == m,
{
}

/// Reading the body of a `Bitstring32` gives it back.
proof fn bitstring32_round_trip(m: Bitstring32)
    ensures
        Bitstring32::of_octets(m.ioa, (m.octets())[0], (m.octets())[1], (m.octets())[2], (m.octets())[3], (m.octets())[4]) == m,
{
    u32_round_trip(m.value);
}

/// Reading the body of a `MeasuredNormalized` gives it back.
proof fn measured_normalized_round_trip(m: MeasuredNormalized)
    ensures
        MeasuredNormalized::of_octets(m.ioa, (m.octets())[0], (m.octets())[1], (m.octets())[2]) == m,
{
    i16_round_trip(m.value);
}

/// Reading the body of a `MeasuredScaled` gives it back.
proof fn measured_scaled_round_trip(m: MeasuredScaled)
    ensures
        MeasuredScaled::of_octets(m.ioa, (m.octets())[0], (m.octets())[1], (m.octets())[2]) == m,
{
    i16_round_trip(m.value);
}

/// Reading the body of a `MeasuredFloat` gives it back.
proof fn measured_float_round_trip(m: MeasuredFloat)
    ensures
        MeasuredFloat::of_octets(m.ioa, (m.octets())[0], (m.octets())[1], (m.octets())[2], (m.octets())[3], (m.octets())[4]) == m,
{
    u32_round_trip(m.value);
}

/// Reading the body of an `IntegratedTotals` gives it back.
proof fn integrated_totals_round_trip(m: IntegratedTotals)
    requires
        m.wf(),
    ensures
        IntegratedTotals::of_octets(m.ioa, (m.octets())[0], (m.octets())[1], (m.octets())[2], (m.octets())[3], (m.octets())[4]) == m,
{
    i32_round_trip(m.value);
}

/// Reading the body of an `EndOfInit` gives it back.
proof fn end_of_init_round_trip(m: EndOfInit)
    requires
        m.wf(),
    ensures
        EndOfInit::of_octet(m.ioa, (seq![m.octet()])[0]) == m,
{
}

/// Reading the body of a `SingleCommand` gives it back.
proof fn single_command_round_trip(m: SingleCommand)
    requires
        m.wf(),
    ensures
        SingleCommand::of_octet(m.ioa, (seq![m.octet()])[0]) == m,
{
}

/// Reading the body of a `DoubleCommand` gives it back.
proof fn double_command_round_trip(m: DoubleCommand)
    requires
        m.wf(),
    ensures
        DoubleCommand::of_octet(m.ioa, (seq![m.octet()])[0]) == m,
{
}

/// Reading the body of a `RegulatingStep` gives it back.
proof fn regulating_step_round_trip(m: RegulatingStep)
    requires
        m.wf(),
    ensures
        RegulatingStep::of_octet(m.ioa, (seq![m.octet()])[0]) == m,
{
}

/// Reading the body of a `SetpointNormalized` gives it back.
proof fn setpoint_normalized_round_trip(m: SetpointNormalized)
    requires
        m.wf(),
    ensures
        SetpointNormalized::of_octets(m.ioa, (m.octets())[0], (m.octets())[1], (m.octets())[2]) == m,
{
    i16_round_trip(m.value);
}

/// Reading the body of a `SetpointScaled` gives it back.
proof fn setpoint_scaled_round_trip(m: SetpointScaled)
    requires
        m.wf(),
    ensures
        SetpointScaled::of_octets(m.ioa, (m.octets())[0], (m.octets())[1], (m.octets())[2]) == m,
{
    i16_round_trip(m.value);
}

/// Reading the body of a `SetpointFloat` gives it back.
proof fn setpoint_float_round_trip(m: SetpointFloat)
    requires
        m.wf(),
    ensures
        SetpointFloat::of_octets(m.ioa, (m.octets())[0], (m.octets())[1], (m.octets())[2], (m.octets())[3], (m.octets())[4]) == m,
{
    u32_round_trip(m.value);
}

/// Reading the body of an `Interrogation` gives it back.
proof fn interrogation_round_trip(m: Interrogation)
    ensures
        Interrogation::of_octet(m.ioa, (seq![m.octet()])[0]) == m,
{
}

/// Reading the body of a `CounterInterrogation` gives it back.
proof fn counter_interrogation_round_trip(m: CounterInterrogation)
    requires
        m.wf(),
    ensures
        CounterInterrogation::of_octet(m.ioa, (seq![m.octet()])[0]) == m,
{
}

/// Reading the body of a `Read` gives it back.
proof fn read_round_trip(m: Read)
    ensures
        (Read { ioa: m.ioa }) == m,
{
}

/// Reading the body of a `ClockSync` gives it back.
proof fn clock_sync_round_trip(m: ClockSync)
    ensures
        ClockSync::of_octets(m.ioa, (m.octets())) == m,
{
    m.time.has_seven_octets();
    m.time.octets_are_the_tag(m.time@);
}

/// Reading the body of a `TestCommand` gives it back.
proof fn test_command_round_trip(m: TestCommand)
    ensures
        TestCommand::of_octets(m.ioa, (m.octets())[0], (m.octets())[1]) == m,
{
    u16_round_trip(m.pattern);
}

/// Reading the body of a `TestCommandTime` gives it back.
proof fn test_command_time_round_trip(m: TestCommandTime)
    ensures
        TestCommandTime::of_octets(m.ioa, (m.octets())) == m,
{
    u16_round_trip(m.counter);
    m.time.has_seven_octets();
    m.time.octets_are_the_tag(m.time@);
    assert(m.octets().subrange(2, 9) =~= m.time@);
}

/// Reading the body of a `ResetProcess` gives it back.
proof fn reset_process_round_trip(m: ResetProcess)
    ensures
        ResetProcess::of_octet(m.ioa, (seq![m.octet()])[0]) == m,
{
}

/// Round trip of an object through its body: reading the body of an object
/// that its body holds in full gives the object back.
pub proof fn object_round_trip(o: InfoObject)
    requires
        o.wf(),
    ensures
        o.type_of() matches Some(t) && InfoObject::of_body(t, o.ioa_of(), o.body_of()) == o,
{
    match o {
        InfoObject::SinglePoint(m) => {
            single_point_round_trip(m);
        },
        InfoObject::DoublePoint(m) => {
            double_point_round_trip(m);
        },
        InfoObject::StepPosition(m) => {
            step_position_round_trip(m);
        },
        InfoObject::Bitstring32(m) => {
            bitstring32_round_trip(m);
        },
        InfoObject::MeasuredNormalized(m) => {
            measured_normalized_round_trip(m);
        },
        InfoObject::MeasuredScaled(m) => {
            measured_scaled_round_trip(m);
        },
        InfoObject::MeasuredFloat(m) => {
            measured_float_round_trip(m);
        },
        InfoObject::IntegratedTotals(m) => {
            integrated_totals_round_trip(m);
        },
        InfoObject::EndOfInit(m) => {
            end_of_init_round_trip(m);
        },
        InfoObject::SingleCommand(m) => {
            single_command_round_trip(m);
        },
        InfoObject::DoubleCommand(m) => {
            double_command_round_trip(m);
        },
        InfoObject::RegulatingStep(m) => {
            regulating_step_round_trip(m);
        },
        InfoObject::SetpointNormalized(m) => {
            setpoint_normalized_round_trip(m);
        },
        InfoObject::SetpointScaled(m) => {
            setpoint_scaled_round_trip(m);
        },
        InfoObject::SetpointFloat(m) => {
            setpoint_float_round_trip(m);
        },
        InfoObject::Interrogation(m) => {
            interrogation_round_trip(m);
        },
        InfoObject::CounterInterrogation(m) => {
            counter_interrogation_round_trip(m);
        },
        InfoObject::Read(m) => {
            read_round_trip(m);
        },
        InfoObject::ClockSync(m) => {
            clock_sync_round_trip(m);
        },
        InfoObject::TestCommand(m) => {
            test_command_round_trip(m);
        },
        InfoObject::TestCommandTime(m) => {
            test_command_time_round_trip(m);
        },
        InfoObject::ResetProcess(m) => {
            reset_process_round_trip(m);
        },
        InfoObject::Unknown { type_id, ioa } => {},
    }
}

} // verus!
