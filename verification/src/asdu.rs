//! Application Service Data Unit (ASDU).
//!
//! An ASDU is six octets of data unit identifier and the information
//! objects, all of one type:
//!
//! ```text
//! type | SQ + count | T + P/N + cause | originator | common address (2) | objects
//! ```
//!
//! With the sequence flag SQ set, only the first object carries its address
//! and the others follow at consecutive addresses; with it clear, each object
//! carries its own address.

use vstd::prelude::*;
use crate::bytes::{append, copy_of, copy_range};
use crate::info::{
    body_size, element_size, has_time_tag, object_round_trip, time_tagged, InfoObject, Ioa,
};
use crate::time::Timestamp;
use crate::types::{CauseOfTransmission, TypeId};

verus! {

/// The largest number of objects in one ASDU.
pub const MAX_ELEMENTS: u8 = 127;

/// The largest information object address.
pub const MAX_IOA: u32 = 0xFF_FFFF;

/// The three octets of an information object address, low octet first.
pub open spec fn ioa_octets(ioa: Ioa) -> Seq<u8> {
    seq![(ioa % 256) as u8, ((ioa / 256) % 256) as u8, ((ioa / 65536) % 256) as u8]
}

/// The information object address that three octets hold.
pub open spec fn ioa_of_octets(b0: u8, b1: u8, b2: u8) -> Ioa {
    (b0 + 256 * b1 + 65536 * b2) as u32
}

/// The length of the objects of an ASDU with `count` objects of type `t`.
pub open spec fn payload_len(t: TypeId, sequence: bool, count: nat) -> nat {
    if count == 0 {
        0
    } else if sequence {
        3 + count * body_size(t)
    } else {
        count * (3 + body_size(t))
    }
}

/// An ASDU as a mathematical value.
#[verifier::ext_equal]
pub struct AsduView {
    /// Type identification octet
    pub type_id: u8,
    /// Sequence flag (SQ)
    pub sequence: bool,
    /// Number of objects
    pub count: u8,
    /// Cause of transmission, six bits
    pub cause: u8,
    /// Negative confirmation flag (P/N)
    pub negative: bool,
    /// Test flag (T)
    pub test: bool,
    /// Originator address
    pub originator: u8,
    /// Common address of the station
    pub common_address: u16,
    /// The objects as they travel
    pub payload: Seq<u8>,
}

impl AsduView {
    /// The type of the objects, where it is a supported one.
    pub open spec fn known_type(self) -> Option<TypeId> {
        TypeId::of_raw(self.type_id as u32)
    }

    /// The data are consistent: at most 127 objects, a cause of six bits,
    /// objects that fit in an ASDU and, for a supported type, have the
    /// length that the type and the count give.
    pub open spec fn wf(self) -> bool {
        &&& self.count <= MAX_ELEMENTS
        &&& self.cause < 64
        &&& self.payload.len() <= 243
        &&& (self.known_type() matches Some(t) ==> self.payload.len() == payload_len(
            t,
            self.sequence,
            self.count as nat,
        ))
    }

    /// An ASDU that can travel: consistent, with at least one object.
    pub open spec fn legal(self) -> bool {
        self.wf() && self.count >= 1
    }

    /// The variable structure qualifier octet: the count in the lower seven
    /// bits, the sequence flag on top.
    pub open spec fn vsq(self) -> u8 {
        (self.count % 128 + if self.sequence {
            128int
        } else {
            0int
        }) as u8
    }

    /// The cause of transmission octet: the cause in the lower six bits, the
    /// negative and test flags above.
    pub open spec fn cause_octet(self) -> u8 {
        (self.cause % 64 + (if self.negative {
            64int
        } else {
            0int
        }) + (if self.test {
            128int
        } else {
            0int
        })) as u8
    }

    /// The six octets in front of the objects.
    pub open spec fn header(self) -> Seq<u8> {
        seq![
            self.type_id,
            self.vsq(),
            self.cause_octet(),
            self.originator,
            (self.common_address % 256) as u8,
            (self.common_address / 256) as u8,
        ]
    }

    /// The ASDU as it travels.
    pub open spec fn encoding(self) -> Seq<u8> {
        self.header() + self.payload
    }

    /// Where the body of object `i` starts among the objects, for bodies of
    /// `n` octets.
    pub open spec fn body_start(self, n: nat, i: int) -> int {
        if self.sequence {
            3 + i * n
        } else {
            i * (3 + n) + 3
        }
    }

    /// The address of object `i`, for bodies of `n` octets.
    pub open spec fn element_ioa(self, n: nat, i: int) -> Ioa {
        if self.sequence {
            (ioa_of_octets(self.payload[0], self.payload[1], self.payload[2]) + i) as u32
        } else {
            ioa_of_octets(
                self.payload[i * (3 + n)],
                self.payload[i * (3 + n) + 1],
                self.payload[i * (3 + n) + 2],
            )
        }
    }

    /// The body of object `i`, for bodies of `n` octets.
    pub open spec fn element_body(self, n: nat, i: int) -> Seq<u8> {
        self.payload.subrange(self.body_start(n, i), self.body_start(n, i) + n)
    }

    /// Object `i` of an ASDU of type `t`.
    pub open spec fn object(self, t: TypeId, i: int) -> InfoObject {
        InfoObject::of_body(
            t,
            self.element_ioa(body_size(t), i),
            self.element_body(body_size(t), i),
        )
    }

    /// Whether the objects of an ASDU of a type that is not supported can
    /// be told apart: in a sequence by the address of the first, otherwise
    /// by the length that they have in common.
    pub open spec fn locatable(self) -> bool {
        &&& self.count >= 1
        &&& self.payload.len() >= 3
        &&& (self.sequence || (self.payload.len() % (self.count as nat) == 0
            && self.payload.len() / (self.count as nat) >= 3))
    }

    /// The length of the bodies of the objects of a type that is not
    /// supported, as far as it matters for telling them apart: what is left
    /// of the common length of the objects besides the address.
    pub open spec fn inferred_body_size(self) -> nat {
        if self.sequence {
            0
        } else {
            (self.payload.len() / (self.count as nat) - 3) as nat
        }
    }

    /// The objects of the ASDU, in order.
    ///
    /// Of a supported type they are read from their bodies, provided that
    /// the data are consistent. Of another type they are `Unknown` objects
    /// with their addresses, provided that they can be told apart.
    /// Otherwise there are none.
    pub open spec fn objects(self) -> Seq<InfoObject> {
        match self.known_type() {
            Some(t) => if self.wf() {
                Seq::new(self.count as nat, |i: int| self.object(t, i))
            } else {
                Seq::empty()
            },
            None => if self.locatable() {
                Seq::new(
                    self.count as nat,
                    |i: int|
                        InfoObject::Unknown {
                            type_id: self.type_id as u32,
                            ioa: self.element_ioa(self.inferred_body_size(), i),
                        },
                )
            } else {
                Seq::empty()
            },
        }
    }

    /// Whether an object at `ioa` with the given body can be added: the type
    /// is supported and the body has its length, the address has three
    /// octets and, in a sequence, follows the last one, and the ASDU stays
    /// within 127 objects and 249 octets.
    pub open spec fn accepts(self, ioa: Ioa, body: Seq<u8>) -> bool {
        &&& self.known_type() matches Some(t)
        &&& body.len() == body_size(t)
        &&& ioa <= MAX_IOA
        &&& self.count < MAX_ELEMENTS
        &&& (self.sequence && self.count > 0 ==> ioa == self.element_ioa(
            body_size(t),
            self.count as int,
        ))
        &&& self.payload.len() + self.added(ioa, body).len() <= 243
    }

    /// The octets that adding an object at `ioa` with the given body
    /// appends: the address, unless the object continues a sequence, and
    /// the body.
    pub open spec fn added(self, ioa: Ioa, body: Seq<u8>) -> Seq<u8> {
        if self.sequence && self.count > 0 {
            body
        } else {
            ioa_octets(ioa) + body
        }
    }

    /// The ASDU with one more object.
    pub open spec fn with_element(self, ioa: Ioa, body: Seq<u8>) -> AsduView {
        AsduView {
            count: (self.count + 1) as u8,
            payload: self.payload + self.added(ioa, body),
            ..self
        }
    }
}

/// Why a byte string is no legal ASDU.
#[derive(Debug, Clone, Copy, PartialEq, Eq, Hash, Structural)]
pub enum AsduError {
    /// Fewer than the six octets of the data unit identifier.
    TooShort,
    /// More than 249 octets.
    TooLong,
    /// The count of objects is zero.
    NoElements,
    /// The objects do not have the length that type and count give.
    SizeMismatch,
}

/// What a byte string holds, read as an ASDU.
pub open spec fn parse_asdu(b: Seq<u8>) -> Result<AsduView, AsduError> {
    if b.len() < 6 {
        Err(AsduError::TooShort)
    } else if b.len() > 249 {
        Err(AsduError::TooLong)
    } else {
        let v = AsduView {
            type_id: b[0],
            sequence: b[1] >= 128,
            count: (b[1] % 128) as u8,
            cause: (b[2] % 64) as u8,
            negative: (b[2] / 64) % 2 == 1,
            test: b[2] >= 128,
            originator: b[3],
            common_address: (b[4] + 256 * b[5]) as u16,
            payload: b.subrange(6, b.len() as int),
        };
        if v.count == 0 {
            Err(AsduError::NoElements)
        } else if !v.wf() {
            Err(AsduError::SizeMismatch)
        } else {
            Ok(v)
        }
    }
}

/// An owned ASDU (Application Service Data Unit).
///
/// The value holds the data unit identifier in fields and the objects as
/// they travel, so it can be stored and passed around freely.
#[derive(Debug, PartialEq, Eq)]
pub struct Asdu {
    type_id: u8,
    sequence: bool,
    count: u8,
    cause: u8,
    negative: bool,
    test: bool,
    originator: u8,
    common_address: u16,
    payload: Vec<u8>,
}

impl View for Asdu {
    type V = AsduView;

    closed spec fn view(&self) -> AsduView {
        AsduView {
            type_id: self.type_id,
            sequence: self.sequence,
            count: self.count,
            cause: self.cause,
            negative: self.negative,
            test: self.test,
            originator: self.originator,
            common_address: self.common_address,
            payload: self.payload@,
        }
    }
}

impl Clone for Asdu {
    fn clone(&self) -> (r: Self)
        ensures
            r@ == self@,
    {
        Asdu {
            type_id: self.type_id,
            sequence: self.sequence,
            count: self.count,
            cause: self.cause,
            negative: self.negative,
            test: self.test,
            originator: self.originator,
            common_address: self.common_address,
            payload: copy_of(self.payload.as_slice()),
        }
    }
}

/// The length of `count` objects of type `t`, computed.
fn objects_len(t: TypeId, sequence: bool, count: u8) -> (n: usize)
    requires
        count <= 128,
    ensures
        n == payload_len(t, sequence, count as nat),
        n <= 1920,
{
    let size: usize = element_size(t);
    let count: usize = count as usize;
    assert(count * size <= 128 * 12 && count * (3 + size) <= 128 * 15) by (nonlinear_arith)
        requires
            count <= 128,
            size <= 12,
    ;
    if count == 0 {
        0
    } else if sequence {
        3 + count * size
    } else {
        count * (3 + size)
    }
}

fn read_ioa(b0: u8, b1: u8, b2: u8) -> (ioa: Ioa)
    ensures
        ioa == ioa_of_octets(b0, b1, b2),
        ioa <= 0xFF_FFFF,
{
    b0 as u32 + 256 * (b1 as u32) + 65536 * (b2 as u32)
}

fn write_ioa(out: &mut Vec<u8>, ioa: Ioa)
    ensures
        final(out)@ == old(out)@ + ioa_octets(ioa),
{
    out.push((ioa % 256) as u8);
    out.push(((ioa / 256) % 256) as u8);
    out.push(((ioa / 65536) % 256) as u8);
    assert(out@ == old(out)@ + ioa_octets(ioa));
}

/// The objects of a consistent ASDU lie within its payload.
pub proof fn element_within_payload(v: AsduView, t: TypeId, i: int)
    requires
        v.wf(),
        v.known_type() == Some(t),
        0 <= i < v.count,
    ensures
        3 <= v.body_start(body_size(t), i),
        v.body_start(body_size(t), i) + body_size(t) <= v.payload.len(),
        !v.sequence ==> v.body_start(body_size(t), i) == i * (3 + body_size(t)) + 3,
        v.sequence ==> v.body_start(body_size(t), i) == 3 + i * body_size(t),
        0 <= i * (3 + body_size(t)),
        0 <= i * body_size(t),
{
    let n = body_size(t) as int;
    let c = v.count as int;
    assert(0 <= i * n && (i + 1) * n <= c * n && i * n + n == (i + 1) * n) by (nonlinear_arith)
        requires
            0 <= i < c,
            0 <= n,
    ;
    assert(0 <= i * (3 + n) && (i + 1) * (3 + n) <= c * (3 + n) && i * (3 + n) + 3 + n == (i
        + 1) * (3 + n)) by (nonlinear_arith)
        requires
            0 <= i < c,
            0 <= n,
    ;
}

impl Asdu {
    /// An ASDU of the given type without objects yet.
    pub fn new(
        type_id: TypeId,
        sequence: bool,
        cot: CauseOfTransmission,
        originator: u8,
        common_address: u16,
        test: bool,
        negative: bool,
    ) -> (a: Self)
        ensures
            a@ == (AsduView {
                type_id: type_id.raw_value() as u8,
                sequence,
                count: 0,
                cause: cot.raw_value() as u8,
                negative,
                test,
                originator,
                common_address,
                payload: Seq::empty(),
            }),
            a@.known_type() == Some(type_id),
            a@.wf(),
    {
        proof {
            type_id.of_raw_value();
        }
        Asdu {
            type_id: type_id.as_raw() as u8,
            sequence,
            count: 0,
            cause: cot.as_raw() as u8,
            negative,
            test,
            originator,
            common_address,
            payload: Vec::new(),
        }
    }

    /// Read an ASDU from the octets that an I-frame carries.
    ///
    /// `Ok` exactly for the legal ASDUs: at least the six octets of the data
    /// unit identifier, at most 249 octets, at least one object and, for a
    /// supported type, objects of the length that type and count give.
    pub fn decode(bytes: &[u8]) -> (r: Result<Self, AsduError>)
        ensures
            match r {
                Ok(a) => parse_asdu(bytes@) == Ok::<AsduView, AsduError>(a@) && a@.legal(),
                Err(e) => parse_asdu(bytes@) == Err::<AsduView, AsduError>(e),
            },
    {
        let n: usize = bytes.len();
        if n < 6 {
            return Err(AsduError::TooShort);
        }
        if n > 249 {
            return Err(AsduError::TooLong);
        }
        let a = Asdu {
            type_id: bytes[0],
            sequence: bytes[1] >= 128,
            count: bytes[1] % 128,
            cause: bytes[2] % 64,
            negative: (bytes[2] / 64) % 2 == 1,
            test: bytes[2] >= 128,
            originator: bytes[3],
            common_address: bytes[4] as u16 + 256 * (bytes[5] as u16),
            payload: copy_range(bytes, 6, n),
        };
        if a.count == 0 {
            return Err(AsduError::NoElements);
        }
        match TypeId::from_raw(a.type_id as u32) {
            Some(t) => {
                if objects_len(t, a.sequence, a.count) != n - 6 {
                    return Err(AsduError::SizeMismatch);
                }
            },
            None => {},
        }
        Ok(a)
    }

    /// The octets of the ASDU as an I-frame carries them.
    pub fn encode(&self) -> (out: Vec<u8>)
        ensures
            out@ == self@.encoding(),
            out@.len() == 6 + self@.payload.len(),
    {
        let mut out: Vec<u8> = Vec::new();
        out.push(self.type_id);
        out.push(self.vsq_octet());
        out.push(self.cause_octet());
        out.push(self.originator);
        out.push((self.common_address % 256) as u8);
        out.push((self.common_address / 256) as u8);
        assert(out@ == self@.header());
        append(&mut out, self.payload.as_slice());
        out
    }

    fn vsq_octet(&self) -> (o: u8)
        ensures
            o == self@.vsq(),
    {
        let flag: u8 = if self.sequence {
            128
        } else {
            0
        };
        self.count % 128 + flag
    }

    fn cause_octet(&self) -> (o: u8)
        ensures
            o == self@.cause_octet(),
    {
        let negative: u8 = if self.negative {
            64
        } else {
            0
        };
        let test: u8 = if self.test {
            128
        } else {
            0
        };
        self.cause % 64 + negative + test
    }

    /// Whether the data are consistent (see `AsduView::wf`).
    pub fn is_consistent(&self) -> (r: bool)
        ensures
            r == self@.wf(),
    {
        if self.count > MAX_ELEMENTS || self.cause >= 64 || self.payload.len() > 243 {
            return false;
        }
        match TypeId::from_raw(self.type_id as u32) {
            Some(t) => objects_len(t, self.sequence, self.count) == self.payload.len(),
            None => true,
        }
    }

    /// Whether the ASDU can travel: consistent, with at least one object.
    pub fn is_legal(&self) -> (r: bool)
        ensures
            r == self@.legal(),
    {
        self.is_consistent() && self.count >= 1
    }

    /// Get the type identification of this ASDU.
    pub fn type_id(&self) -> (r: Option<TypeId>)
        ensures
            r == self@.known_type(),
    {
        TypeId::from_raw(self.type_id as u32)
    }

    /// Get the raw type identification value.
    pub fn type_id_raw(&self) -> (r: u32)
        ensures
            r == self@.type_id,
    {
        self.type_id as u32
    }

    /// Get the cause of transmission.
    pub fn cot(&self) -> (r: Option<CauseOfTransmission>)
        ensures
            r == CauseOfTransmission::of_raw(self@.cause as u32),
    {
        CauseOfTransmission::from_raw(self.cause as u32)
    }

    /// Get the raw cause of transmission value.
    pub fn cot_raw(&self) -> (r: u32)
        ensures
            r == self@.cause,
    {
        self.cause as u32
    }

    /// Get the common address (station address).
    pub fn common_address(&self) -> (r: u16)
        ensures
            r == self@.common_address,
    {
        self.common_address
    }

    /// Get the originator address.
    pub fn originator_address(&self) -> (r: u8)
        ensures
            r == self@.originator,
    {
        self.originator
    }

    /// Get the number of information objects in this ASDU.
    pub fn element_count(&self) -> (r: usize)
        ensures
            r == self@.count,
    {
        self.count as usize
    }

    /// Check if this is a test ASDU.
    pub fn is_test(&self) -> (r: bool)
        ensures
            r == self@.test,
    {
        self.test
    }

    /// Check if this is a negative confirmation.
    pub fn is_negative(&self) -> (r: bool)
        ensures
            r == self@.negative,
    {
        self.negative
    }

    /// Check if this ASDU uses a sequence (compact) format.
    ///
    /// In sequence format, only the first IOA is transmitted and subsequent
    /// objects have consecutive addresses.
    pub fn is_sequence(&self) -> (r: bool)
        ensures
            r == self@.sequence,
    {
        self.sequence
    }

    /// Set the cause of transmission.
    pub fn set_cot(&mut self, cot: CauseOfTransmission)
        ensures
            final(self)@ == (AsduView { cause: cot.raw_value() as u8, ..old(self)@ }),
    {
        self.cause = cot.as_raw() as u8;
    }

    /// Set or clear the negative confirmation flag.
    pub fn set_negative(&mut self, negative: bool)
        ensures
            final(self)@ == (AsduView { negative, ..old(self)@ }),
    {
        self.negative = negative;
    }

    /// Set the originator address.
    pub fn set_originator(&mut self, originator: u8)
        ensures
            final(self)@ == (AsduView { originator, ..old(self)@ }),
    {
        self.originator = originator;
    }

    /// Add an object at `ioa` with the given body.
    ///
    /// Returns `false` and leaves the ASDU as it is where the object cannot
    /// be added (see `AsduView::accepts`); the caller then starts another
    /// ASDU.
    pub fn add_element(&mut self, ioa: Ioa, body: &[u8]) -> (added: bool)
        requires
            old(self)@.wf(),
        ensures
            added == old(self)@.accepts(ioa, body@),
            added ==> final(self)@ == old(self)@.with_element(ioa, body@),
            !added ==> final(self)@ == old(self)@,
            final(self)@.wf(),
    {
        let t: TypeId = match TypeId::from_raw(self.type_id as u32) {
            Some(t) => t,
            None => {
                return false;
            },
        };
        let size: usize = element_size(t);
        if body.len() != size || ioa > MAX_IOA || self.count >= MAX_ELEMENTS {
            return false;
        }
        let continues: bool = self.sequence && self.count > 0;
        if continues {
            proof {
                element_within_payload(self@, t, 0);
            }
            let first: Ioa = read_ioa(self.payload[0], self.payload[1], self.payload[2]);
            if ioa != first + self.count as u32 {
                return false;
            }
        }
        let extra: usize = if continues {
            size
        } else {
            3 + size
        };
        if self.payload.len() + extra > 243 {
            return false;
        }
        proof {
            with_element_is_legal(old(self)@, ioa, body@);
        }
        if !continues {
            write_ioa(&mut self.payload, ioa);
        }
        append(&mut self.payload, body);
        self.count = self.count + 1;
        assert(self@.payload == old(self)@.payload + old(self)@.added(ioa, body@));
        true
    }

    /// Add an information object.
    ///
    /// Returns `false` and leaves the ASDU as it is where the object is not
    /// of the ASDU's type or cannot be added (see `AsduView::accepts`).
    pub fn add_object(&mut self, object: &InfoObject) -> (added: bool)
        requires
            old(self)@.wf(),
        ensures
            added == (object.type_of() is Some && object.type_of() == old(self)@.known_type()
                && old(self)@.accepts(object.ioa_of(), object.body_of())),
            added ==> final(self)@ == old(self)@.with_element(object.ioa_of(), object.body_of()),
            !added ==> final(self)@ == old(self)@,
            final(self)@.wf(),
    {
        match object.to_body() {
            Some((t, body)) => {
                if self.type_id as u32 != t.as_raw() {
                    proof {
                        if let Some(own) = self@.known_type() {
                            assert(own.raw_value() == self@.type_id);
                        }
                    }
                    return false;
                }
                proof {
                    t.of_raw_value();
                }
                self.add_element(object.ioa(), body.as_slice())
            },
            None => false,
        }
    }

    /// The address of object `index`.
    pub fn element_ioa(&self, index: usize) -> (ioa: Ioa)
        requires
            self@.wf(),
            self@.known_type() is Some,
            index < self@.count,
        ensures
            ioa == self@.element_ioa(body_size(self@.known_type().unwrap()), index as int),
    {
        let t: TypeId = TypeId::from_raw(self.type_id as u32).unwrap();
        let size: usize = element_size(t);
        proof {
            element_within_payload(self@, t, index as int);
            element_within_payload(self@, t, 0);
        }
        if self.sequence {
            read_ioa(self.payload[0], self.payload[1], self.payload[2]) + index as u32
        } else {
            assert(index * (3 + size) <= 127 * 15) by (nonlinear_arith)
                requires
                    index <= 127,
                    size <= 12,
            ;
            let at: usize = index * (3 + size);
            read_ioa(self.payload[at], self.payload[at + 1], self.payload[at + 2])
        }
    }

    /// The body of object `index`.
    pub fn element_body(&self, index: usize) -> (body: Vec<u8>)
        requires
            self@.wf(),
            self@.known_type() is Some,
            index < self@.count,
        ensures
            body@ == self@.element_body(body_size(self@.known_type().unwrap()), index as int),
            body@.len() == body_size(self@.known_type().unwrap()),
    {
        let t: TypeId = TypeId::from_raw(self.type_id as u32).unwrap();
        let size: usize = element_size(t);
        proof {
            element_within_payload(self@, t, index as int);
        }
        assert(index * (3 + size) <= 127 * 15 && index * size <= 127 * 12) by (nonlinear_arith)
            requires
                index <= 127,
                size <= 12,
        ;
        let start: usize = if self.sequence {
            3 + index * size
        } else {
            index * (3 + size) + 3
        };
        copy_range(self.payload.as_slice(), start, start + size)
    }

    /// Get an information object element by index: its address and the
    /// octets of its body.
    ///
    /// `None` where the index is not below the number of objects, the type
    /// is not supported or the data are not consistent.
    pub fn get_element_raw(&self, index: usize) -> (r: Option<(Ioa, Vec<u8>)>)
        ensures
            r is Some == (self@.wf() && self@.known_type() is Some && index < self@.count),
            r matches Some((ioa, body)) ==> ioa == self@.element_ioa(
                body_size(self@.known_type().unwrap()),
                index as int,
            ) && body@ == self@.element_body(
                body_size(self@.known_type().unwrap()),
                index as int,
            ),
    {
        if index >= self.count as usize || self.type_id().is_none() || !self.is_consistent() {
            return None;
        }
        Some((self.element_ioa(index), self.element_body(index)))
    }

    /// The time tag of object `index`: the last seven octets of its body,
    /// where the type has a time tag.
    pub fn element_time(&self, index: usize) -> (time: Option<Timestamp>)
        requires
            self@.wf(),
            self@.known_type() is Some,
            index < self@.count,
        ensures
            ({
                let t = self@.known_type().unwrap();
                let body = self@.element_body(body_size(t), index as int);
                match time {
                    Some(tag) => has_time_tag(t) && tag@ == body.subrange(
                        body.len() - 7,
                        body.len() as int,
                    ),
                    None => !has_time_tag(t),
                }
            }),
    {
        let t: TypeId = TypeId::from_raw(self.type_id as u32).unwrap();
        if !time_tagged(t) {
            return None;
        }
        let body: Vec<u8> = self.element_body(index);
        let size: usize = element_size(t);
        let at: usize = size - 7;
        let tag = Timestamp::from_bytes(
            [
                body[at],
                body[at + 1],
                body[at + 2],
                body[at + 3],
                body[at + 4],
                body[at + 5],
                body[at + 6],
            ],
        );
        proof {
            tag.has_seven_octets();
            assert(tag@ =~= body@.subrange(body@.len() - 7, body@.len() as int));
        }
        Some(tag)
    }

    /// Parse all information objects from this ASDU.
    ///
    /// Returns one object for each element, in order. Of a type that is not
    /// supported the objects are returned as `InfoObject::Unknown`, with
    /// their addresses. Where the objects cannot be told apart the result
    /// is empty (see `AsduView::objects`).
    pub fn parse_objects(&self) -> (objects: Vec<InfoObject>)
        ensures
            objects@ == self@.objects(),
    {
        match TypeId::from_raw(self.type_id as u32) {
            Some(t) => self.parse_known(t),
            None => self.parse_unknown(),
        }
    }

    /// The objects of an ASDU of the supported type `t`.
    fn parse_known(&self, t: TypeId) -> (objects: Vec<InfoObject>)
        requires
            self@.known_type() == Some(t),
        ensures
            objects@ == self@.objects(),
    {
        let mut objects: Vec<InfoObject> = Vec::new();
        if !self.is_consistent() {
            return objects;
        }
        let count: usize = self.count as usize;
        let mut i: usize = 0;
        while i < count
            invariant
                self@.wf(),
                self@.known_type() == Some(t),
                count == self@.count,
                i <= count,
                objects@.len() == i,
                forall|j: int| 0 <= j < i ==> #[trigger] objects@[j] == self@.object(t, j),
            decreases count - i,
        {
            let ioa: Ioa = self.element_ioa(i);
            let body: Vec<u8> = self.element_body(i);
            match InfoObject::from_body(t, ioa, body.as_slice()) {
                Some(object) => {
                    objects.push(object);
                },
                None => {},
            }
            i = i + 1;
        }
        assert(objects@ =~= self@.objects());
        objects
    }

    /// The objects of an ASDU of a type that is not supported.
    fn parse_unknown(&self) -> (objects: Vec<InfoObject>)
        requires
            self@.known_type() is None,
        ensures
            objects@ == self@.objects(),
    {
        let mut objects: Vec<InfoObject> = Vec::new();
        let count: usize = self.count as usize;
        let len: usize = self.payload.len();
        if count == 0 || len < 3 {
            return objects;
        }
        if !self.sequence && (len % count != 0 || len / count < 3) {
            return objects;
        }
        let stride: usize = if self.sequence {
            3
        } else {
            len / count
        };
        let ghost n = self@.inferred_body_size();
        if !self.sequence {
            assert(stride * count == len) by (nonlinear_arith)
                requires
                    count > 0,
                    stride == len / count,
                    len % count == 0,
            ;
        }
        let first: Ioa = read_ioa(self.payload[0], self.payload[1], self.payload[2]);
        let mut i: usize = 0;
        while i < count
            invariant
                self@.locatable(),
                count == self@.count,
                len == self@.payload.len(),
                n == self@.inferred_body_size(),
                stride == 3 + n,
                !self@.sequence ==> stride * count == len,
                first == ioa_of_octets(self@.payload[0], self@.payload[1], self@.payload[2]),
                i <= count,
                objects@.len() == i,
                forall|j: int|
                    0 <= j < i ==> #[trigger] objects@[j] == (InfoObject::Unknown {
                        type_id: self@.type_id as u32,
                        ioa: self@.element_ioa(n, j),
                    }),
            decreases count - i,
        {
            let ioa: Ioa = if self.sequence {
                first + i as u32
            } else {
                assert(i * stride + stride <= stride * count) by (nonlinear_arith)
                    requires
                        i < count,
                ;
                let at: usize = i * stride;
                read_ioa(self.payload[at], self.payload[at + 1], self.payload[at + 2])
            };
            objects.push(InfoObject::Unknown { type_id: self.type_id as u32, ioa });
            i = i + 1;
        }
        assert(objects@ =~= self@.objects());
        objects
    }
}

/// Round trip: reading the octets of a legal ASDU gives the ASDU back.
pub proof fn asdu_decode_of_encode(v: AsduView)
    requires
        v.legal(),
    ensures
        parse_asdu(v.encoding()) == Ok::<AsduView, AsduError>(v),
{
    let b = v.encoding();
    assert(b.len() == 6 + v.payload.len());
    assert(b[0] == v.type_id && b[1] == v.vsq() && b[2] == v.cause_octet() && b[3]
        == v.originator);
    assert(b[4] == v.common_address % 256 && b[5] == v.common_address / 256);
    assert(b.subrange(6, b.len() as int) =~= v.payload);
    let parsed = AsduView {
        type_id: b[0],
        sequence: b[1] >= 128,
        count: (b[1] % 128) as u8,
        cause: (b[2] % 64) as u8,
        negative: (b[2] / 64) % 2 == 1,
        test: b[2] >= 128,
        originator: b[3],
        common_address: (b[4] + 256 * b[5]) as u16,
        payload: b.subrange(6, b.len() as int),
    };
    assert(parsed =~= v);
}

/// Bit-exactness: a byte string that reads as an ASDU is the encoding of
/// that ASDU, octet for octet.
pub proof fn asdu_encode_of_decode(b: Seq<u8>)
    requires
        parse_asdu(b) is Ok,
    ensures
        parse_asdu(b)->Ok_0.encoding() == b,
        parse_asdu(b)->Ok_0.legal(),
{
    let v = parse_asdu(b)->Ok_0;
    let e = v.encoding();
    assert(e.len() == b.len());
    assert forall|i: int| 0 <= i < b.len() implies e[i] == b[i] by {
        if i >= 6 {
            assert(e[i] == v.payload[i - 6]);
        }
    }
    assert(e =~= b);
}

/// Round trip of an address of three octets through its octets.
pub proof fn ioa_round_trip(ioa: Ioa)
    requires
        ioa <= 0xFF_FFFF,
    ensures
        ioa_of_octets(ioa_octets(ioa)[0], ioa_octets(ioa)[1], ioa_octets(ioa)[2]) == ioa,
{
}

/// One more object makes the objects longer by its body and, unless it
/// continues a sequence, by its address.
pub proof fn payload_len_grows(t: TypeId, sequence: bool, count: nat)
    ensures
        payload_len(t, sequence, count + 1) == payload_len(t, sequence, count) + body_size(t) + (
        if sequence && count > 0 {
            0int
        } else {
            3int
        }),
{
    let n = body_size(t);
    assert((count + 1) * n == count * n + n) by (nonlinear_arith);
    assert((count + 1) * (3 + n) == count * (3 + n) + 3 + n) by (nonlinear_arith);
    if count == 0 {
        assert(count * n == 0 && count * (3 + n) == 0) by (nonlinear_arith)
            requires
                count == 0,
        ;
    }
}

/// Adding an object that an ASDU accepts gives a legal ASDU of the same
/// type.
pub proof fn with_element_is_legal(v: AsduView, ioa: Ioa, body: Seq<u8>)
    requires
        v.wf(),
        v.accepts(ioa, body),
    ensures
        v.with_element(ioa, body).legal(),
        v.with_element(ioa, body).known_type() == v.known_type(),
        v.with_element(ioa, body).count == v.count + 1,
{
    let t = v.known_type().unwrap();
    payload_len_grows(t, v.sequence, v.count as nat);
    let w = v.with_element(ioa, body);
    assert(w.payload.len() == v.payload.len() + v.added(ioa, body).len());
    assert(v.payload.len() == payload_len(t, v.sequence, v.count as nat));
}

/// Adding an object to a consistent ASDU and reading the last object gives
/// the address and the body back.
pub proof fn added_element_is_last(v: AsduView, ioa: Ioa, body: Seq<u8>)
    requires
        v.wf(),
        v.accepts(ioa, body),
    ensures
        v.with_element(ioa, body).element_ioa(
            body_size(v.known_type().unwrap()),
            v.count as int,
        ) == ioa,
        v.with_element(ioa, body).element_body(
            body_size(v.known_type().unwrap()),
            v.count as int,
        ) == body,
{
    let t = v.known_type().unwrap();
    let n = body_size(t);
    let c = v.count as int;
    let w = v.with_element(ioa, body);
    with_element_is_legal(v, ioa, body);
    payload_len_grows(t, v.sequence, v.count as nat);
    element_within_payload(w, t, c);
    let start = w.body_start(n, c);
    assert(start + n == w.payload.len());
    assert(w.element_body(n, c) =~= body);
    if v.sequence && c > 0 {
        element_within_payload(v, t, 0);
        assert(w.payload[0] == v.payload[0] && w.payload[1] == v.payload[1] && w.payload[2]
            == v.payload[2]);
    } else {
        let at = start - 3;
        assert(at == v.payload.len());
        assert(w.payload[at] == ioa_octets(ioa)[0]);
        assert(w.payload[at + 1] == ioa_octets(ioa)[1]);
        assert(w.payload[at + 2] == ioa_octets(ioa)[2]);
        ioa_round_trip(ioa);
    }
}

/// Adding an object to a consistent ASDU leaves the objects before it as
/// they are.
pub proof fn added_element_keeps_others(v: AsduView, ioa: Ioa, body: Seq<u8>, i: int)
    requires
        v.wf(),
        v.accepts(ioa, body),
        0 <= i < v.count,
    ensures
        v.with_element(ioa, body).element_ioa(body_size(v.known_type().unwrap()), i)
            == v.element_ioa(body_size(v.known_type().unwrap()), i),
        v.with_element(ioa, body).element_body(body_size(v.known_type().unwrap()), i)
            == v.element_body(body_size(v.known_type().unwrap()), i),
{
    let t = v.known_type().unwrap();
    let n = body_size(t);
    let w = v.with_element(ioa, body);
    element_within_payload(v, t, i);
    element_within_payload(v, t, 0);
    let from = v.body_start(n, i);
    assert(w.body_start(n, i) == from);
    assert(w.payload[0] == v.payload[0] && w.payload[1] == v.payload[1] && w.payload[2]
        == v.payload[2]);
    assert(w.payload[from - 3] == v.payload[from - 3]);
    assert(w.payload[from - 2] == v.payload[from - 2]);
    assert(w.payload[from - 1] == v.payload[from - 1]);
    assert(w.element_body(n, i) =~= v.element_body(n, i));
}

/// Round trip of objects through an ASDU: after an object was added, the
/// objects of the ASDU are those that it had and the one added.
pub proof fn added_object_is_parsed(v: AsduView, o: InfoObject)
    requires
        v.wf(),
        o.wf(),
        o.type_of() == v.known_type(),
        v.accepts(o.ioa_of(), o.body_of()),
    ensures
        v.with_element(o.ioa_of(), o.body_of()).objects() == v.objects().push(o),
{
    let t = v.known_type().unwrap();
    let w = v.with_element(o.ioa_of(), o.body_of());
    with_element_is_legal(v, o.ioa_of(), o.body_of());
    added_element_is_last(v, o.ioa_of(), o.body_of());
    object_round_trip(o);
    assert(w.object(t, v.count as int) == o);
    assert forall|i: int| 0 <= i < v.count implies w.object(t, i) == v.object(t, i) by {
        added_element_keeps_others(v, o.ioa_of(), o.body_of(), i);
    }
    assert(w.objects() =~= v.objects().push(o));
}

} // verus!
