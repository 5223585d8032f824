//! Information objects in control direction: commands, set points and the
//! system commands.

use vstd::prelude::*;
use crate::info::{
    i16_of_octets, octets_of_i16, octets_of_u16, octets_of_u32, read_i16, read_u16, read_u32,
    u16_of_octets, u32_of_octets, write_i16, write_u16, write_u32, Ioa,
};
use crate::time::Timestamp;

verus! {

/// The pattern that a test command carries.
pub const TEST_PATTERN: u16 = 0x55AA;

/// Double command (switch ON/OFF with a checked state).
///
/// Its body is one octet: the state in the lowest two bits, the qualifier in
/// bits 2 to 6, the select flag in the highest bit.
#[derive(Debug, Clone, Copy, PartialEq, Eq)]
pub struct DoubleCommand {
    /// Information object address
    pub ioa: Ioa,
    /// Command state (1 = OFF, 2 = ON; 0 and 3 are not permitted)
    pub state: u8,
    /// Select/Execute flag (true = select, false = execute)
    pub select: bool,
    /// Qualifier of command (0 = no additional definition), below 32
    pub qualifier: u8,
}

impl DoubleCommand {
    /// The command at `ioa` whose body is the octet given.
    pub open spec fn of_octet(ioa: Ioa, octet: u8) -> DoubleCommand {
        DoubleCommand {
            ioa,
            state: (octet % 4) as u8,
            select: octet >= 128,
            qualifier: ((octet / 4) % 32) as u8,
        }
    }

    /// The body octet. Of the state the lowest two bits are taken, of the
    /// qualifier the lowest five.
    pub open spec fn octet(self) -> u8 {
        (self.state % 4 + 4 * (self.qualifier % 32) + (if self.select {
            128int
        } else {
            0int
        })) as u8
    }

    /// A command that its body octet holds in full.
    pub open spec fn wf(self) -> bool {
        self.state < 4 && self.qualifier < 32
    }

    /// Read the command at `ioa` from its body. `None` where the body is
    /// empty.
    pub fn from_raw(ioa: Ioa, body: &[u8]) -> (r: Option<Self>)
        ensures
            body@.len() >= 1 ==> r == Some(Self::of_octet(ioa, body@[0])),
            body@.len() == 0 ==> r is None,
    {
        if body.len() < 1 {
            return None;
        }
        let octet: u8 = body[0];
        Some(
            DoubleCommand {
                ioa,
                state: octet % 4,
                select: octet >= 128,
                qualifier: (octet / 4) % 32,
            },
        )
    }

    /// The body of the command.
    pub fn to_raw(&self) -> (body: Vec<u8>)
        ensures
            body@ == seq![self.octet()],
    {
        let select: u8 = if self.select {
            128
        } else {
            0
        };
        let mut body: Vec<u8> = Vec::new();
        body.push(self.state % 4 + 4 * (self.qualifier % 32) + select);
        assert(body@ == seq![self.octet()]);
        body
    }
}

/// Regulating step command.
///
/// Its body is one octet: the step in the lowest two bits, the qualifier in
/// bits 2 to 6, the select flag in the highest bit.
#[derive(Debug, Clone, Copy, PartialEq, Eq)]
pub struct RegulatingStep {
    /// Information object address
    pub ioa: Ioa,
    /// Step (1 = next step lower, 2 = next step higher; 0 and 3 are not permitted)
    pub step: u8,
    /// Select/Execute flag (true = select, false = execute)
    pub select: bool,
    /// Qualifier of command (0 = no additional definition), below 32
    pub qualifier: u8,
}

impl RegulatingStep {
    /// The command at `ioa` whose body is the octet given.
    pub open spec fn of_octet(ioa: Ioa, octet: u8) -> RegulatingStep {
        RegulatingStep {
            ioa,
            step: (octet % 4) as u8,
            select: octet >= 128,
            qualifier: ((octet / 4) % 32) as u8,
        }
    }

    /// The body octet. Of the step the lowest two bits are taken, of the
    /// qualifier the lowest five.
    pub open spec fn octet(self) -> u8 {
        (self.step % 4 + 4 * (self.qualifier % 32) + (if self.select {
            128int
        } else {
            0int
        })) as u8
    }

    /// A command that its body octet holds in full.
    pub open spec fn wf(self) -> bool {
        self.step < 4 && self.qualifier < 32
    }

    /// Read the command at `ioa` from its body. `None` where the body is
    /// empty.
    pub fn from_raw(ioa: Ioa, body: &[u8]) -> (r: Option<Self>)
        ensures
            body@.len() >= 1 ==> r == Some(Self::of_octet(ioa, body@[0])),
            body@.len() == 0 ==> r is None,
    {
        if body.len() < 1 {
            return None;
        }
        let octet: u8 = body[0];
        Some(
            RegulatingStep {
                ioa,
                step: octet % 4,
                select: octet >= 128,
                qualifier: (octet / 4) % 32,
            },
        )
    }

    /// The body of the command.
    pub fn to_raw(&self) -> (body: Vec<u8>)
        ensures
            body@ == seq![self.octet()],
    {
        let select: u8 = if self.select {
            128
        } else {
            0
        };
        let mut body: Vec<u8> = Vec::new();
        body.push(self.step % 4 + 4 * (self.qualifier % 32) + select);
        assert(body@ == seq![self.octet()]);
        body
    }
}

/// Set point command with a normalized value.
///
/// Its body is the value in two octets, low octet first, and one octet with
/// the qualifier in the lower seven bits and the select flag on top.
#[derive(Debug, Clone, Copy, PartialEq, Eq)]
pub struct SetpointNormalized {
    /// Information object address
    pub ioa: Ioa,
    /// Normalized value in steps of 2^-15
    pub value: i16,
    /// Qualifier of set point (0 = default), below 128
    pub qualifier: u8,
    /// Select/Execute flag (true = select, false = execute)
    pub select: bool,
}

impl SetpointNormalized {
    /// The command at `ioa` whose body starts with the three octets given.
    pub open spec fn of_octets(ioa: Ioa, lo: u8, hi: u8, qos: u8) -> SetpointNormalized {
        SetpointNormalized {
            ioa,
            value: i16_of_octets(lo, hi),
            qualifier: (qos % 128) as u8,
            select: qos >= 128,
        }
    }

    /// The octet with the qualifier and the select flag. Of the qualifier
    /// the lower seven bits are taken.
    pub open spec fn qualifier_octet(self) -> u8 {
        (self.qualifier % 128 + if self.select {
            128int
        } else {
            0int
        }) as u8
    }

    /// The three octets of the body.
    pub open spec fn octets(self) -> Seq<u8> {
        octets_of_i16(self.value) + seq![self.qualifier_octet()]
    }

    /// A command that its body holds in full.
    pub open spec fn wf(self) -> bool {
        self.qualifier < 128
    }

    /// Read the command at `ioa` from its body. `None` where the body has
    /// fewer than three octets.
    pub fn from_raw(ioa: Ioa, body: &[u8]) -> (r: Option<Self>)
        ensures
            body@.len() >= 3 ==> r == Some(Self::of_octets(ioa, body@[0], body@[1], body@[2])),
            body@.len() < 3 ==> r is None,
    {
        if body.len() < 3 {
            return None;
        }
        Some(
            SetpointNormalized {
                ioa,
                value: read_i16(body[0], body[1]),
                qualifier: body[2] % 128,
                select: body[2] >= 128,
            },
        )
    }

    /// The body of the command.
    pub fn to_raw(&self) -> (body: Vec<u8>)
        ensures
            body@ == self.octets(),
    {
        let select: u8 = if self.select {
            128
        } else {
            0
        };
        let mut body: Vec<u8> = Vec::new();
        write_i16(&mut body, self.value);
        body.push(self.qualifier % 128 + select);
        assert(body@ == self.octets());
        body
    }
}

/// Set point command with a scaled value.
///
/// Its body is the value in two octets, low octet first, and one octet with
/// the qualifier in the lower seven bits and the select flag on top.
#[derive(Debug, Clone, Copy, PartialEq, Eq)]
pub struct SetpointScaled {
    /// Information object address
    pub ioa: Ioa,
    /// Scaled value (-32768 to 32767)
    pub value: i16,
    /// Qualifier of set point (0 = default), below 128
    pub qualifier: u8,
    /// Select/Execute flag (true = select, false = execute)
    pub select: bool,
}

impl SetpointScaled {
    /// The command at `ioa` whose body starts with the three octets given.
    pub open spec fn of_octets(ioa: Ioa, lo: u8, hi: u8, qos: u8) -> SetpointScaled {
        SetpointScaled {
            ioa,
            value: i16_of_octets(lo, hi),
            qualifier: (qos % 128) as u8,
            select: qos >= 128,
        }
    }

    /// The octet with the qualifier and the select flag. Of the qualifier
    /// the lower seven bits are taken.
    pub open spec fn qualifier_octet(self) -> u8 {
        (self.qualifier % 128 + if self.select {
            128int
        } else {
            0int
        }) as u8
    }

    /// The three octets of the body.
    pub open spec fn octets(self) -> Seq<u8> {
        octets_of_i16(self.value) + seq![self.qualifier_octet()]
    }

    /// A command that its body holds in full.
    pub open spec fn wf(self) -> bool {
        self.qualifier < 128
    }

    /// Read the command at `ioa` from its body. `None` where the body has
    /// fewer than three octets.
    pub fn from_raw(ioa: Ioa, body: &[u8]) -> (r: Option<Self>)
        ensures
            body@.len() >= 3 ==> r == Some(Self::of_octets(ioa, body@[0], body@[1], body@[2])),
            body@.len() < 3 ==> r is None,
    {
        if body.len() < 3 {
            return None;
        }
        Some(
            SetpointScaled {
                ioa,
                value: read_i16(body[0], body[1]),
                qualifier: body[2] % 128,
                select: body[2] >= 128,
            },
        )
    }

    /// The body of the command.
    pub fn to_raw(&self) -> (body: Vec<u8>)
        ensures
            body@ == self.octets(),
    {
        let select: u8 = if self.select {
            128
        } else {
            0
        };
        let mut body: Vec<u8> = Vec::new();
        write_i16(&mut body, self.value);
        body.push(self.qualifier % 128 + select);
        assert(body@ == self.octets());
        body
    }
}

/// Set point command with a short floating point value.
///
/// The value is held as the 32 bits of an IEEE 754 single-precision number.
/// Its body is those bits in four octets, low octet first, and one octet
/// with the qualifier in the lower seven bits and the select flag on top.
#[derive(Debug, Clone, Copy, PartialEq, Eq)]
pub struct SetpointFloat {
    /// Information object address
    pub ioa: Ioa,
    /// The bits of the floating point value
    pub value: u32,
    /// Qualifier of set point (0 = default), below 128
    pub qualifier: u8,
    /// Select/Execute flag (true = select, false = execute)
    pub select: bool,
}

impl SetpointFloat {
    /// The command at `ioa` whose body is the five octets given.
    pub open spec fn of_octets(ioa: Ioa, b0: u8, b1: u8, b2: u8, b3: u8, qos: u8) -> SetpointFloat {
        SetpointFloat {
            ioa,
            value: u32_of_octets(b0, b1, b2, b3),
            qualifier: (qos % 128) as u8,
            select: qos >= 128,
        }
    }

    /// The octet with the qualifier and the select flag. Of the qualifier
    /// the lower seven bits are taken.
    pub open spec fn qualifier_octet(self) -> u8 {
        (self.qualifier % 128 + if self.select {
            128int
        } else {
            0int
        }) as u8
    }

    /// The five octets of the body.
    pub open spec fn octets(self) -> Seq<u8> {
        octets_of_u32(self.value) + seq![self.qualifier_octet()]
    }

    /// A command that its body holds in full.
    pub open spec fn wf(self) -> bool {
        self.qualifier < 128
    }

    /// Read the command at `ioa` from its body. `None` where the body has
    /// fewer than five octets.
    pub fn from_raw(ioa: Ioa, body: &[u8]) -> (r: Option<Self>)
        ensures
            body@.len() >= 5 ==> r == Some(
                Self::of_octets(ioa, body@[0], body@[1], body@[2], body@[3], body@[4]),
            ),
            body@.len() < 5 ==> r is None,
    {
        if body.len() < 5 {
            return None;
        }
        Some(
            SetpointFloat {
                ioa,
                value: read_u32(body[0], body[1], body[2], body[3]),
                qualifier: body[4] % 128,
                select: body[4] >= 128,
            },
        )
    }

    /// The body of the command.
    pub fn to_raw(&self) -> (body: Vec<u8>)
        ensures
            body@ == self.octets(),
    {
        let select: u8 = if self.select {
            128
        } else {
            0
        };
        let mut body: Vec<u8> = Vec::new();
        write_u32(&mut body, self.value);
        body.push(self.qualifier % 128 + select);
        assert(body@ == self.octets());
        body
    }
}

/// Interrogation command.
///
/// Its body is one octet, the qualifier.
#[derive(Debug, Clone, Copy, PartialEq, Eq)]
pub struct Interrogation {
    /// Information object address
    pub ioa: Ioa,
    /// Qualifier of interrogation (20 = station interrogation)
    pub qualifier: u8,
}

impl Interrogation {
    /// The command at `ioa` whose body is the octet given.
    pub open spec fn of_octet(ioa: Ioa, octet: u8) -> Interrogation {
        Interrogation { ioa, qualifier: octet }
    }

    /// The body octet.
    pub open spec fn octet(self) -> u8 {
        self.qualifier
    }

    /// Read the command at `ioa` from its body. `None` where the body is
    /// empty.
    pub fn from_raw(ioa: Ioa, body: &[u8]) -> (r: Option<Self>)
        ensures
            body@.len() >= 1 ==> r == Some(Self::of_octet(ioa, body@[0])),
            body@.len() == 0 ==> r is None,
    {
        if body.len() < 1 {
            return None;
        }
        Some(Interrogation { ioa, qualifier: body[0] })
    }

    /// The body of the command.
    pub fn to_raw(&self) -> (body: Vec<u8>)
        ensures
            body@ == seq![self.octet()],
    {
        let mut body: Vec<u8> = Vec::new();
        body.push(self.qualifier);
        body
    }
}

/// Counter interrogation command.
///
/// Its body is one octet: the request in the lower six bits, the freeze
/// code in the upper two.
#[derive(Debug, Clone, Copy, PartialEq, Eq)]
pub struct CounterInterrogation {
    /// Information object address
    pub ioa: Ioa,
    /// Request (0 to 63; 5 = general request)
    pub request: u8,
    /// Freeze code (0 to 3)
    pub freeze: u8,
}

impl CounterInterrogation {
    /// The command at `ioa` whose body is the octet `qcc`.
    pub open spec fn of_octet(ioa: Ioa, qcc: u8) -> CounterInterrogation {
        CounterInterrogation { ioa, request: (qcc % 64) as u8, freeze: (qcc / 64) as u8 }
    }

    /// The body octet. Of the request the lower six bits are taken, of the
    /// freeze code the lower two.
    pub open spec fn octet(self) -> u8 {
        (self.request % 64 + 64 * (self.freeze % 4)) as u8
    }

    /// A command that its body octet holds in full.
    pub open spec fn wf(self) -> bool {
        self.request < 64 && self.freeze < 4
    }

    /// Read the command at `ioa` from its body. `None` where the body is
    /// empty.
    pub fn from_raw(ioa: Ioa, body: &[u8]) -> (r: Option<Self>)
        ensures
            body@.len() >= 1 ==> r == Some(Self::of_octet(ioa, body@[0])),
            body@.len() == 0 ==> r is None,
    {
        if body.len() < 1 {
            return None;
        }
        Some(CounterInterrogation { ioa, request: body[0] % 64, freeze: body[0] / 64 })
    }

    /// The body of the command.
    pub fn to_raw(&self) -> (body: Vec<u8>)
        ensures
            body@ == seq![self.octet()],
    {
        let mut body: Vec<u8> = Vec::new();
        body.push(self.request % 64 + 64 * (self.freeze % 4));
        assert(body@ == seq![self.octet()]);
        body
    }
}

/// Read command. It has no body.
#[derive(Debug, Clone, Copy, PartialEq, Eq)]
pub struct Read {
    /// Information object address
    pub ioa: Ioa,
}

impl Read {
    /// Read the command at `ioa` from its body, of which nothing is
    /// needed.
    pub fn from_raw(ioa: Ioa, body: &[u8]) -> (r: Option<Self>)
        ensures
            r == Some(Read { ioa }),
    {
        Some(Read { ioa })
    }

    /// The body of the command: empty.
    pub fn to_raw(&self) -> (body: Vec<u8>)
        ensures
            body@ == Seq::<u8>::empty(),
    {
        Vec::new()
    }
}

/// Clock synchronization command.
///
/// Its body is the time, a tag of seven octets.
#[derive(Debug, Clone, Copy, PartialEq, Eq)]
pub struct ClockSync {
    /// Information object address
    pub ioa: Ioa,
    /// The time to set
    pub time: Timestamp,
}

impl ClockSync {
    /// The command at `ioa` whose body starts with the seven octets of the
    /// time.
    pub open spec fn of_octets(ioa: Ioa, body: Seq<u8>) -> ClockSync {
        ClockSync { ioa, time: Timestamp::of_octets(body) }
    }

    /// The seven octets of the body.
    pub open spec fn octets(self) -> Seq<u8> {
        self.time@
    }

    /// Read the command at `ioa` from its body. `None` where the body has
    /// fewer than seven octets.
    pub fn from_raw(ioa: Ioa, body: &[u8]) -> (r: Option<Self>)
        ensures
            body@.len() >= 7 ==> r == Some(Self::of_octets(ioa, body@)),
            body@.len() < 7 ==> r is None,
    {
        if body.len() < 7 {
            return None;
        }
        let octets: [u8; 7] = [body[0], body[1], body[2], body[3], body[4], body[5], body[6]];
        let time = Timestamp::from_bytes(octets);
        proof {
            assert(octets@.subrange(0, 7) =~= body@.subrange(0, 7));
            Timestamp::same_start(octets@, body@);
        }
        Some(ClockSync { ioa, time })
    }

    /// The body of the command.
    pub fn to_raw(&self) -> (body: Vec<u8>)
        ensures
            body@ == self.octets(),
            body@.len() == 7,
    {
        let octets: [u8; 7] = self.time.to_bytes();
        let body: Vec<u8> = crate::bytes::copy_of(octets.as_slice());
        proof {
            self.time.has_seven_octets();
        }
        body
    }
}

/// Test command.
///
/// Its body is a fixed pattern of two octets, low octet first.
#[derive(Debug, Clone, Copy, PartialEq, Eq)]
pub struct TestCommand {
    /// Information object address
    pub ioa: Ioa,
    /// The pattern; `TEST_PATTERN` in a valid test command
    pub pattern: u16,
}

impl TestCommand {
    /// The command at `ioa` whose body is the two octets given.
    pub open spec fn of_octets(ioa: Ioa, lo: u8, hi: u8) -> TestCommand {
        TestCommand { ioa, pattern: u16_of_octets(lo, hi) }
    }

    /// The two octets of the body.
    pub open spec fn octets(self) -> Seq<u8> {
        octets_of_u16(self.pattern)
    }

    /// The test command at `ioa` with the fixed pattern.
    pub fn new(ioa: Ioa) -> (c: Self)
        ensures
            c == (TestCommand { ioa, pattern: TEST_PATTERN }),
    {
        TestCommand { ioa, pattern: TEST_PATTERN }
    }

    /// Whether the command carries the fixed pattern.
    pub fn is_valid(&self) -> (r: bool)
        ensures
            r == (self.pattern == TEST_PATTERN),
    {
        self.pattern == TEST_PATTERN
    }

    /// Read the command at `ioa` from its body. `None` where the body has
    /// fewer than two octets.
    pub fn from_raw(ioa: Ioa, body: &[u8]) -> (r: Option<Self>)
        ensures
            body@.len() >= 2 ==> r == Some(Self::of_octets(ioa, body@[0], body@[1])),
            body@.len() < 2 ==> r is None,
    {
        if body.len() < 2 {
            return None;
        }
        Some(TestCommand { ioa, pattern: read_u16(body[0], body[1]) })
    }

    /// The body of the command.
    pub fn to_raw(&self) -> (body: Vec<u8>)
        ensures
            body@ == self.octets(),
    {
        let mut body: Vec<u8> = Vec::new();
        write_u16(&mut body, self.pattern);
        body
    }
}

/// Test command with time tag.
///
/// Its body is a test sequence counter in two octets, low octet first, and
/// the time, a tag of seven octets.
#[derive(Debug, Clone, Copy, PartialEq, Eq)]
pub struct TestCommandTime {
    /// Information object address
    pub ioa: Ioa,
    /// Test sequence counter
    pub counter: u16,
    /// The time of the test
    pub time: Timestamp,
}

impl TestCommandTime {
    /// The command at `ioa` whose body starts with the nine octets given.
    pub open spec fn of_octets(ioa: Ioa, body: Seq<u8>) -> TestCommandTime {
        TestCommandTime {
            ioa,
            counter: u16_of_octets(body[0], body[1]),
            time: Timestamp::of_octets(body.subrange(2, 9)),
        }
    }

    /// The nine octets of the body.
    pub open spec fn octets(self) -> Seq<u8> {
        octets_of_u16(self.counter) + self.time@
    }

    /// Read the command at `ioa` from its body. `None` where the body has
    /// fewer than nine octets.
    pub fn from_raw(ioa: Ioa, body: &[u8]) -> (r: Option<Self>)
        ensures
            body@.len() >= 9 ==> r == Some(Self::of_octets(ioa, body@)),
            body@.len() < 9 ==> r is None,
    {
        if body.len() < 9 {
            return None;
        }
        let octets: [u8; 7] = [body[2], body[3], body[4], body[5], body[6], body[7], body[8]];
        let time = Timestamp::from_bytes(octets);
        proof {
            assert(octets@.subrange(0, 7) =~= body@.subrange(2, 9).subrange(0, 7));
            Timestamp::same_start(octets@, body@.subrange(2, 9));
        }
        Some(TestCommandTime { ioa, counter: read_u16(body[0], body[1]), time })
    }

    /// The body of the command.
    pub fn to_raw(&self) -> (body: Vec<u8>)
        ensures
            body@ == self.octets(),
            body@.len() == 9,
    {
        let octets: [u8; 7] = self.time.to_bytes();
        let mut body: Vec<u8> = Vec::new();
        write_u16(&mut body, self.counter);
        crate::bytes::append(&mut body, octets.as_slice());
        proof {
            self.time.has_seven_octets();
        }
        body
    }
}

/// Reset process command.
///
/// Its body is one octet, the qualifier.
#[derive(Debug, Clone, Copy, PartialEq, Eq)]
pub struct ResetProcess {
    /// Information object address
    pub ioa: Ioa,
    /// Qualifier of reset process (1 = general reset)
    pub qualifier: u8,
}

impl ResetProcess {
    /// The command at `ioa` whose body is the octet given.
    pub open spec fn of_octet(ioa: Ioa, octet: u8) -> ResetProcess {
        ResetProcess { ioa, qualifier: octet }
    }

    /// The body octet.
    pub open spec fn octet(self) -> u8 {
        self.qualifier
    }

    /// Read the command at `ioa` from its body. `None` where the body is
    /// empty.
    pub fn from_raw(ioa: Ioa, body: &[u8]) -> (r: Option<Self>)
        ensures
            body@.len() >= 1 ==> r == Some(Self::of_octet(ioa, body@[0])),
            body@.len() == 0 ==> r is None,
    {
        if body.len() < 1 {
            return None;
        }
        Some(ResetProcess { ioa, qualifier: body[0] })
    }

    /// The body of the command.
    pub fn to_raw(&self) -> (body: Vec<u8>)
        ensures
            body@ == seq![self.octet()],
    {
        let mut body: Vec<u8> = Vec::new();
        body.push(self.qualifier);
        body
    }
}

} // verus!
