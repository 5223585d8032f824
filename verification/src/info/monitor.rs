//! Information objects in monitor direction that go beyond the plain
//! measured values: step positions, bit strings, counters and the end of
//! initialization.

use vstd::prelude::*;
use crate::info::{
    i32_of_octets, octets_of_i32, octets_of_u32, read_i32, read_u32, u32_of_octets, write_i32,
    write_u32, Ioa,
};
use crate::types::Quality;

verus! {

/// Step position information, as of a transformer tap.
///
/// Its body is two octets: the position in the lower seven bits of the
/// first, as a signed number, with the transient flag on top; then the
/// quality octet.
#[derive(Debug, Clone, Copy, PartialEq, Eq)]
pub struct StepPosition {
    /// Information object address
    pub ioa: Ioa,
    /// Position (-64 to 63)
    pub value: i8,
    /// The equipment is in transient state
    pub transient: bool,
    /// Quality descriptor
    pub quality: Quality,
}

impl StepPosition {
    /// The object at `ioa` whose body is the two octets given.
    pub open spec fn of_octets(ioa: Ioa, vti: u8, qds: u8) -> StepPosition {
        StepPosition {
            ioa,
            value: (if vti % 128 >= 64 {
                vti % 128 - 128
            } else {
                (vti % 128) as int
            }) as i8,
            transient: vti >= 128,
            quality: Quality { bits: qds },
        }
    }

    /// The two octets of the body. Of the position the lower seven bits are
    /// taken.
    pub open spec fn octets(self) -> Seq<u8> {
        seq![
            ((self.value as int) % 128 + if self.transient {
                128int
            } else {
                0int
            }) as u8,
            self.quality.bits,
        ]
    }

    /// An object that its body holds in full.
    pub open spec fn wf(self) -> bool {
        -64 <= self.value <= 63
    }

    /// Read the object at `ioa` from its body. `None` where the body has
    /// fewer than two octets.
    pub fn from_raw(ioa: Ioa, body: &[u8]) -> (r: Option<Self>)
        ensures
            body@.len() >= 2 ==> r == Some(Self::of_octets(ioa, body@[0], body@[1])),
            body@.len() < 2 ==> r is None,
    {
        if body.len() < 2 {
            return None;
        }
        let low: u8 = body[0] % 128;
        let value: i8 = if low >= 64 {
            (low as i16 - 128) as i8
        } else {
            low as i8
        };
        Some(
            StepPosition {
                ioa,
                value,
                transient: body[0] >= 128,
                quality: Quality::from_bits_truncate(body[1]),
            },
        )
    }

    /// The body of the object.
    pub fn to_raw(&self) -> (body: Vec<u8>)
        ensures
            body@ == self.octets(),
    {
        let value: i16 = self.value as i16;
        let low: i16 = if value < 0 {
            value + 128
        } else {
            value
        };
        let transient: u8 = if self.transient {
            128
        } else {
            0
        };
        let mut body: Vec<u8> = Vec::new();
        body.push(low as u8 + transient);
        body.push(self.quality.bits());
        assert(body@ == self.octets());
        body
    }
}

/// Bitstring of 32 bits.
///
/// Its body is the bits in four octets, low octet first, and the quality
/// octet.
#[derive(Debug, Clone, Copy, PartialEq, Eq)]
pub struct Bitstring32 {
    /// Information object address
    pub ioa: Ioa,
    /// The 32 bits
    pub value: u32,
    /// Quality descriptor
    pub quality: Quality,
}

impl Bitstring32 {
    /// The object at `ioa` whose body is the five octets given.
    pub open spec fn of_octets(ioa: Ioa, b0: u8, b1: u8, b2: u8, b3: u8, qds: u8) -> Bitstring32 {
        Bitstring32 { ioa, value: u32_of_octets(b0, b1, b2, b3), quality: Quality { bits: qds } }
    }

    /// The five octets of the body.
    pub open spec fn octets(self) -> Seq<u8> {
        octets_of_u32(self.value) + seq![self.quality.bits]
    }

    /// Read the object at `ioa` from its body. `None` where the body has
    /// fewer than five octets.
    pub fn from_raw(ioa: Ioa, body: &[u8]) -> (r: Option<Self>)
        ensures
            body@.len() >= 5 ==> r == Some(
                Self::of_octets(ioa, body@[0], body@[1], body@[2], body@[3], body@[4]),
            ),
            body@.len() < 5 ==> r is None,
    {
        if body.len() < 5 {
            return None;
        }
        Some(
            Bitstring32 {
                ioa,
                value: read_u32(body[0], body[1], body[2], body[3]),
                quality: Quality::from_bits_truncate(body[4]),
            },
        )
    }

    /// The body of the object.
    pub fn to_raw(&self) -> (body: Vec<u8>)
        ensures
            body@ == self.octets(),
    {
        let mut body: Vec<u8> = Vec::new();
        write_u32(&mut body, self.value);
        body.push(self.quality.bits());
        assert(body@ == self.octets());
        body
    }
}

/// Integrated totals: a counter reading.
///
/// Its body is the reading in four octets, low octet first, as a signed
/// number, and one octet with the sequence number in the lower five bits
/// and above it the flags carry, adjusted and invalid.
#[derive(Debug, Clone, Copy, PartialEq, Eq)]
pub struct IntegratedTotals {
    /// Information object address
    pub ioa: Ioa,
    /// Counter reading
    pub value: i32,
    /// Sequence number (0 to 31)
    pub sequence: u8,
    /// The counter overflowed in the integration period
    pub carry: bool,
    /// The counter was adjusted since the last reading
    pub adjusted: bool,
    /// The reading is invalid
    pub invalid: bool,
}

impl IntegratedTotals {
    /// The object at `ioa` whose body is the five octets given.
    pub open spec fn of_octets(ioa: Ioa, b0: u8, b1: u8, b2: u8, b3: u8, flags: u8) -> IntegratedTotals {
        IntegratedTotals {
            ioa,
            value: i32_of_octets(b0, b1, b2, b3),
            sequence: (flags % 32) as u8,
            carry: (flags / 32) % 2 == 1,
            adjusted: (flags / 64) % 2 == 1,
            invalid: flags >= 128,
        }
    }

    /// The octet with the sequence number and the flags. Of the sequence
    /// number the lower five bits are taken.
    pub open spec fn flags_octet(self) -> u8 {
        (self.sequence % 32 + (if self.carry {
            32int
        } else {
            0int
        }) + (if self.adjusted {
            64int
        } else {
            0int
        }) + (if self.invalid {
            128int
        } else {
            0int
        })) as u8
    }

    /// The five octets of the body.
    pub open spec fn octets(self) -> Seq<u8> {
        octets_of_i32(self.value) + seq![self.flags_octet()]
    }

    /// An object that its body holds in full.
    pub open spec fn wf(self) -> bool {
        self.sequence < 32
    }

    /// Read the object at `ioa` from its body. `None` where the body has
    /// fewer than five octets.
    pub fn from_raw(ioa: Ioa, body: &[u8]) -> (r: Option<Self>)
        ensures
            body@.len() >= 5 ==> r == Some(
                Self::of_octets(ioa, body@[0], body@[1], body@[2], body@[3], body@[4]),
            ),
            body@.len() < 5 ==> r is None,
    {
        if body.len() < 5 {
            return None;
        }
        let flags: u8 = body[4];
        Some(
            IntegratedTotals {
                ioa,
                value: read_i32(body[0], body[1], body[2], body[3]),
                sequence: flags % 32,
                carry: (flags / 32) % 2 == 1,
                adjusted: (flags / 64) % 2 == 1,
                invalid: flags >= 128,
            },
        )
    }

    /// The body of the object.
    pub fn to_raw(&self) -> (body: Vec<u8>)
        ensures
            body@ == self.octets(),
    {
        let carry: u8 = if self.carry {
            32
        } else {
            0
        };
        let adjusted: u8 = if self.adjusted {
            64
        } else {
            0
        };
        let invalid: u8 = if self.invalid {
            128
        } else {
            0
        };
        let mut body: Vec<u8> = Vec::new();
        write_i32(&mut body, self.value);
        body.push(self.sequence % 32 + carry + adjusted + invalid);
        assert(body@ == self.octets());
        body
    }
}

/// End of initialization.
///
/// Its body is one octet: the cause of initialization in the lower seven
/// bits, and on top the flag that local parameters were changed.
#[derive(Debug, Clone, Copy, PartialEq, Eq)]
pub struct EndOfInit {
    /// Information object address
    pub ioa: Ioa,
    /// Cause of initialization (0 to 127)
    pub cause: u8,
    /// Initialization after a change of local parameters
    pub local_change: bool,
}

impl EndOfInit {
    /// The object at `ioa` whose body is the octet `coi`.
    pub open spec fn of_octet(ioa: Ioa, coi: u8) -> EndOfInit {
        EndOfInit { ioa, cause: (coi % 128) as u8, local_change: coi >= 128 }
    }

    /// The body octet. Of the cause the lower seven bits are taken.
    pub open spec fn octet(self) -> u8 {
        (self.cause % 128 + if self.local_change {
            128int
        } else {
            0int
        }) as u8
    }

    /// An object that its body octet holds in full.
    pub open spec fn wf(self) -> bool {
        self.cause < 128
    }

    /// Read the object at `ioa` from its body. `None` where the body is
    /// empty.
    pub fn from_raw(ioa: Ioa, body: &[u8]) -> (r: Option<Self>)
        ensures
            body@.len() >= 1 ==> r == Some(Self::of_octet(ioa, body@[0])),
            body@.len() == 0 ==> r is None,
    {
        if body.len() < 1 {
            return None;
        }
        Some(EndOfInit { ioa, cause: body[0] % 128, local_change: body[0] >= 128 })
    }

    /// The body of the object.
    pub fn to_raw(&self) -> (body: Vec<u8>)
        ensures
            body@ == seq![self.octet()],
    {
        let flag: u8 = if self.local_change {
            128
        } else {
            0
        };
        let mut body: Vec<u8> = Vec::new();
        body.push(self.cause % 128 + flag);
        assert(body@ == seq![self.octet()]);
        body
    }
}

} // verus!
