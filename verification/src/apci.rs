//! APCI framing: the six-octet header of every APDU and the three frame
//! formats told apart by its control field.
//!
//! An APDU is the start octet `0x68`, a length octet `L` (the APDU's length
//! minus 2, between 4 and 253), four control octets and, in an I-frame,
//! `L - 4` octets of ASDU.

use vstd::prelude::*;
use crate::bytes::{append, copy_of, copy_range};

verus! {

/// The octet every APDU starts with.
pub const START_OCTET: u8 = 0x68;

/// The largest ASDU that fits in an APDU.
pub const MAX_ASDU_SIZE: usize = 249;

/// The function of a U-frame.
#[derive(Debug, Clone, Copy, PartialEq, Eq, Hash, Structural)]
pub enum UFunction {
    /// Start data transfer, activation
    StartDtAct,
    /// Start data transfer, confirmation
    StartDtCon,
    /// Stop data transfer, activation
    StopDtAct,
    /// Stop data transfer, confirmation
    StopDtCon,
    /// Test frame, activation
    TestFrAct,
    /// Test frame, confirmation
    TestFrCon,
}

impl UFunction {
    /// The first control octet of the U-frame with this function.
    pub open spec fn control_octet(self) -> u8 {
        match self {
            Self::StartDtAct => 0x07,
            Self::StartDtCon => 0x0B,
            Self::StopDtAct => 0x13,
            Self::StopDtCon => 0x23,
            Self::TestFrAct => 0x43,
            Self::TestFrCon => 0x83,
        }
    }

    /// The function that a first control octet stands for, if any.
    pub open spec fn of_octet(octet: u8) -> Option<UFunction> {
        if octet == 0x07 {
            Some(Self::StartDtAct)
        } else if octet == 0x0B {
            Some(Self::StartDtCon)
        } else if octet == 0x13 {
            Some(Self::StopDtAct)
        } else if octet == 0x23 {
            Some(Self::StopDtCon)
        } else if octet == 0x43 {
            Some(Self::TestFrAct)
        } else if octet == 0x83 {
            Some(Self::TestFrCon)
        } else {
            None
        }
    }

    /// The first control octet of the U-frame with this function.
    pub fn as_octet(self) -> (octet: u8)
        ensures
            octet == self.control_octet(),
    {
        match self {
            Self::StartDtAct => 0x07,
            Self::StartDtCon => 0x0B,
            Self::StopDtAct => 0x13,
            Self::StopDtCon => 0x23,
            Self::TestFrAct => 0x43,
            Self::TestFrCon => 0x83,
        }
    }

    /// The function that a first control octet stands for, if any.
    pub fn from_octet(octet: u8) -> (r: Option<Self>)
        ensures
            r == Self::of_octet(octet),
    {
        match octet {
            0x07 => Some(Self::StartDtAct),
            0x0B => Some(Self::StartDtCon),
            0x13 => Some(Self::StopDtAct),
            0x23 => Some(Self::StopDtCon),
            0x43 => Some(Self::TestFrAct),
            0x83 => Some(Self::TestFrCon),
            _ => None,
        }
    }
}

/// A frame as a mathematical value.
pub enum FrameView {
    /// Information frame
    I { send_seq: u16, recv_seq: u16, asdu: Seq<u8> },
    /// Supervisory frame
    S { recv_seq: u16 },
    /// Unnumbered frame
    U { function: UFunction },
}

/// An APCI frame.
#[derive(Debug, PartialEq, Eq)]
pub enum Frame {
    /// Information frame: carries an ASDU, the sender's N(S) and N(R).
    I { send_seq: u16, recv_seq: u16, asdu: Vec<u8> },
    /// Supervisory frame: acknowledges with N(R).
    S { recv_seq: u16 },
    /// Unnumbered frame: one of the six control functions.
    U { function: UFunction },
}

impl View for Frame {
    type V = FrameView;

    open spec fn view(&self) -> FrameView {
        match *self {
            Frame::I { send_seq, recv_seq, asdu } => FrameView::I {
                send_seq,
                recv_seq,
                asdu: asdu@,
            },
            Frame::S { recv_seq } => FrameView::S { recv_seq },
            Frame::U { function } => FrameView::U { function },
        }
    }
}

impl Clone for Frame {
    fn clone(&self) -> (r: Self)
        ensures
            r@ == self@,
    {
        match self {
            Frame::I { send_seq, recv_seq, asdu } => Frame::I {
                send_seq: *send_seq,
                recv_seq: *recv_seq,
                asdu: copy_of(asdu.as_slice()),
            },
            Frame::S { recv_seq } => Frame::S { recv_seq: *recv_seq },
            Frame::U { function } => Frame::U { function: *function },
        }
    }
}

/// Why a byte string is no APDU.
#[derive(Debug, Clone, Copy, PartialEq, Eq, Hash, Structural)]
pub enum FrameError {
    /// The first octet is not `0x68`.
    BadStart,
    /// The length octet is below 4 or above 253, or an S- or U-frame is
    /// longer than its control field.
    BadLength,
    /// The control field claims a U-frame with none of the six functions.
    BadControl,
}

/// What the start of a byte stream holds, as a mathematical value.
pub enum DecodedView {
    /// Not enough octets yet to tell.
    Incomplete,
    /// A frame, made of the first `used` octets.
    Complete { frame: FrameView, used: nat },
    /// No APDU starts like this.
    Invalid { error: FrameError },
}

/// What the start of a byte stream holds.
#[derive(Debug, PartialEq, Eq)]
pub enum Decoded {
    /// Not enough octets yet to tell.
    Incomplete,
    /// A frame, made of the first `used` octets.
    Complete { frame: Frame, used: usize },
    /// No APDU starts like this.
    Invalid { error: FrameError },
}

impl View for Decoded {
    type V = DecodedView;

    open spec fn view(&self) -> DecodedView {
        match *self {
            Decoded::Incomplete => DecodedView::Incomplete,
            Decoded::Complete { frame, used } => DecodedView::Complete {
                frame: frame@,
                used: used as nat,
            },
            Decoded::Invalid { error } => DecodedView::Invalid { error },
        }
    }
}

/// The two control octets that carry a sequence number: the number shifted
/// left by one bit, low octet first.
pub open spec fn seq_octets(s: u16) -> Seq<u8> {
    seq![((2 * s) % 256) as u8, ((2 * s) / 256) as u8]
}

/// The sequence number that two control octets carry.
pub open spec fn octets_seq(lo: u8, hi: u8) -> u16 {
    ((lo + 256 * hi) / 2) as u16
}

impl FrameView {
    /// A frame that can be sent: its sequence numbers are below 2^15 and its
    /// ASDU fits in an APDU.
    pub open spec fn wf(self) -> bool {
        match self {
            FrameView::I { send_seq, recv_seq, asdu } => send_seq < 32768 && recv_seq < 32768
                && asdu.len() <= MAX_ASDU_SIZE,
            FrameView::S { recv_seq } => recv_seq < 32768,
            FrameView::U { function } => true,
        }
    }

    /// The four control octets.
    pub open spec fn control(self) -> Seq<u8> {
        match self {
            FrameView::I { send_seq, recv_seq, asdu } => seq_octets(send_seq) + seq_octets(
                recv_seq,
            ),
            FrameView::S { recv_seq } => seq![1u8, 0u8] + seq_octets(recv_seq),
            FrameView::U { function } => seq![function.control_octet(), 0u8, 0u8, 0u8],
        }
    }

    /// What follows the control field.
    pub open spec fn payload(self) -> Seq<u8> {
        match self {
            FrameView::I { send_seq, recv_seq, asdu } => asdu,
            FrameView::S { recv_seq } => Seq::empty(),
            FrameView::U { function } => Seq::empty(),
        }
    }

    /// The APDU: start octet, length octet, control octets, payload.
    pub open spec fn encoding(self) -> Seq<u8> {
        seq![START_OCTET, (4 + self.payload().len()) as u8] + self.control() + self.payload()
    }
}

/// What the start of the byte stream `b` holds.
pub open spec fn parse_frame(b: Seq<u8>) -> DecodedView {
    if b.len() < 1 {
        DecodedView::Incomplete
    } else if b[0] != START_OCTET {
        DecodedView::Invalid { error: FrameError::BadStart }
    } else if b.len() < 2 {
        DecodedView::Incomplete
    } else if b[1] < 4 || b[1] > 253 {
        DecodedView::Invalid { error: FrameError::BadLength }
    } else if b.len() < 2 + b[1] {
        DecodedView::Incomplete
    } else if b[2] % 2 == 0 {
        DecodedView::Complete {
            frame: FrameView::I {
                send_seq: octets_seq(b[2], b[3]),
                recv_seq: octets_seq(b[4], b[5]),
                asdu: b.subrange(6, 2 + b[1]),
            },
            used: (2 + b[1]) as nat,
        }
    } else if b[1] != 4 {
        DecodedView::Invalid { error: FrameError::BadLength }
    } else if b[2] % 4 == 1 {
        DecodedView::Complete {
            frame: FrameView::S { recv_seq: octets_seq(b[4], b[5]) },
            used: 6,
        }
    } else {
        match UFunction::of_octet(b[2]) {
            Some(function) => DecodedView::Complete { frame: FrameView::U { function }, used: 6 },
            None => DecodedView::Invalid { error: FrameError::BadControl },
        }
    }
}

fn push_seq(out: &mut Vec<u8>, s: u16)
    requires
        s < 32768,
    ensures
        final(out)@ == old(out)@ + seq_octets(s),
{
    let doubled: u16 = s * 2;
    out.push((doubled % 256) as u8);
    out.push((doubled / 256) as u8);
    assert(out@ == old(out)@ + seq_octets(s));
}

fn read_seq(lo: u8, hi: u8) -> (s: u16)
    ensures
        s == octets_seq(lo, hi),
        s < 32768,
{
    let wide: u32 = lo as u32 + 256 * (hi as u32);
    (wide / 2) as u16
}

impl Frame {
    /// The APDU of an I-frame with the given sequence numbers and ASDU.
    pub fn encode_i(send_seq: u16, recv_seq: u16, asdu: &[u8]) -> (out: Vec<u8>)
        requires
            send_seq < 32768,
            recv_seq < 32768,
            asdu@.len() <= 249,
        ensures
            out@ == (FrameView::I { send_seq, recv_seq, asdu: asdu@ }).encoding(),
            out@.len() == 6 + asdu@.len(),
    {
        let mut out: Vec<u8> = Vec::new();
        out.push(START_OCTET);
        out.push((4 + asdu.len()) as u8);
        push_seq(&mut out, send_seq);
        push_seq(&mut out, recv_seq);
        append(&mut out, asdu);
        assert(out@ == (FrameView::I { send_seq, recv_seq, asdu: asdu@ }).encoding());
        out
    }

    /// The APDU of an S-frame that acknowledges with `recv_seq`.
    pub fn encode_s(recv_seq: u16) -> (out: Vec<u8>)
        requires
            recv_seq < 32768,
        ensures
            out@ == (FrameView::S { recv_seq }).encoding(),
            out@.len() == 6,
    {
        let mut out: Vec<u8> = Vec::new();
        out.push(START_OCTET);
        out.push(4);
        out.push(1);
        out.push(0);
        push_seq(&mut out, recv_seq);
        assert(out@ == (FrameView::S { recv_seq }).encoding());
        out
    }

    /// The APDU of the U-frame with the given function.
    pub fn encode_u(function: UFunction) -> (out: Vec<u8>)
        ensures
            out@ == (FrameView::U { function }).encoding(),
            out@.len() == 6,
    {
        let mut out: Vec<u8> = Vec::new();
        out.push(START_OCTET);
        out.push(4);
        out.push(function.as_octet());
        out.push(0);
        out.push(0);
        out.push(0);
        assert(out@ == (FrameView::U { function }).encoding());
        out
    }

    /// The APDU of this frame.
    pub fn encode(&self) -> (out: Vec<u8>)
        requires
            self@.wf(),
        ensures
            out@ == self@.encoding(),
    {
        match self {
            Frame::I { send_seq, recv_seq, asdu } => Frame::encode_i(
                *send_seq,
                *recv_seq,
                asdu.as_slice(),
            ),
            Frame::S { recv_seq } => Frame::encode_s(*recv_seq),
            Frame::U { function } => Frame::encode_u(*function),
        }
    }

    /// Read one frame from the start of `buf`.
    ///
    /// `Incomplete` asks for more octets; `Complete` gives the frame and the
    /// number of octets it was made of; `Invalid` means that no APDU starts
    /// like `buf`, which is fatal for the connection.
    pub fn decode(buf: &[u8]) -> (r: Decoded)
        ensures
            r@ == parse_frame(buf@),
    {
        let n: usize = buf.len();
        if n < 1 {
            return Decoded::Incomplete;
        }
        if buf[0] != START_OCTET {
            return Decoded::Invalid { error: FrameError::BadStart };
        }
        if n < 2 {
            return Decoded::Incomplete;
        }
        let length: u8 = buf[1];
        if length < 4 || length > 253 {
            return Decoded::Invalid { error: FrameError::BadLength };
        }
        let used: usize = 2 + length as usize;
        if n < used {
            return Decoded::Incomplete;
        }
        let first: u8 = buf[2];
        if first % 2 == 0 {
            let send_seq: u16 = read_seq(buf[2], buf[3]);
            let recv_seq: u16 = read_seq(buf[4], buf[5]);
            let asdu: Vec<u8> = copy_range(buf, 6, used);
            return Decoded::Complete { frame: Frame::I { send_seq, recv_seq, asdu }, used };
        }
        if length != 4 {
            return Decoded::Invalid { error: FrameError::BadLength };
        }
        if first % 4 == 1 {
            let recv_seq: u16 = read_seq(buf[4], buf[5]);
            return Decoded::Complete { frame: Frame::S { recv_seq }, used };
        }
        match UFunction::from_octet(first) {
            Some(function) => Decoded::Complete { frame: Frame::U { function }, used },
            None => Decoded::Invalid { error: FrameError::BadControl },
        }
    }
}

/// The octets of a sequence of frames, one APDU after the other.
pub open spec fn encode_all(frames: Seq<FrameView>) -> Seq<u8>
    decreases frames.len(),
{
    if frames.len() == 0 {
        Seq::empty()
    } else {
        encode_all(frames.drop_last()) + frames.last().encoding()
    }
}

/// The octets of a sequence of frames, one APDU after the other.
pub fn encode_frames(frames: &Vec<Frame>) -> (out: Vec<u8>)
    requires
        forall|i: int| 0 <= i < frames@.len() ==> (#[trigger] frames@[i])@.wf(),
    ensures
        out@ == encode_all(frames@.map_values(|f: Frame| f@)),
{
    let ghost views = frames@.map_values(|f: Frame| f@);
    let mut out: Vec<u8> = Vec::new();
    let mut i: usize = 0;
    while i < frames.len()
        invariant
            i <= frames@.len(),
            views == frames@.map_values(|f: Frame| f@),
            forall|j: int| 0 <= j < frames@.len() ==> (#[trigger] frames@[j])@.wf(),
            out@ == encode_all(views.take(i as int)),
        decreases frames@.len() - i,
    {
        let apdu: Vec<u8> = frames[i].encode();
        append(&mut out, apdu.as_slice());
        proof {
            let next = views.take(i + 1);
            assert(next.drop_last() == views.take(i as int));
            assert(next.last() == frames@[i as int]@);
        }
        i = i + 1;
    }
    assert(views.take(i as int) == views);
    out
}

/// Cuts a byte stream into frames: it holds the octets that have arrived and
/// belong to no complete frame yet.
#[derive(Debug)]
pub struct FrameReader {
    pending: Vec<u8>,
}

impl View for FrameReader {
    type V = Seq<u8>;

    /// The octets that have arrived and are not read yet.
    closed spec fn view(&self) -> Seq<u8> {
        self.pending@
    }
}

/// The octets that stay in front of the reader after it read what
/// `parse_frame` tells of them: a frame is taken out, an incomplete start
/// stays, and what is no APDU is discarded, since nothing can be read after
/// it.
pub open spec fn unread_after(b: Seq<u8>) -> Seq<u8> {
    match parse_frame(b) {
        DecodedView::Incomplete => b,
        DecodedView::Complete { frame, used } => b.skip(used as int),
        DecodedView::Invalid { error } => Seq::empty(),
    }
}

impl FrameReader {
    /// A reader in front of which nothing has arrived.
    pub fn new() -> (r: Self)
        ensures
            r@ == Seq::<u8>::empty(),
    {
        FrameReader { pending: Vec::new() }
    }

    /// The number of octets that have arrived and are not read yet.
    pub fn len(&self) -> (n: usize)
        ensures
            n == self@.len(),
    {
        self.pending.len()
    }

    /// More octets arrived.
    pub fn push(&mut self, bytes: &[u8])
        ensures
            final(self)@ == old(self)@ + bytes@,
    {
        append(&mut self.pending, bytes);
    }

    /// Forget what has arrived.
    pub fn clear(&mut self)
        ensures
            final(self)@ == Seq::<u8>::empty(),
    {
        self.pending.clear();
    }

    /// Read the next frame.
    pub fn next_frame(&mut self) -> (r: Decoded)
        ensures
            r@ == parse_frame(old(self)@),
            final(self)@ == unread_after(old(self)@),
    {
        let r = Frame::decode(self.pending.as_slice());
        match r {
            Decoded::Incomplete => {},
            Decoded::Complete { frame: _, used } => {
                let rest: Vec<u8> = copy_range(self.pending.as_slice(), used, self.pending.len());
                self.pending = rest;
            },
            Decoded::Invalid { error: _ } => {
                self.pending.clear();
            },
        }
        r
    }
}

/// What `decode` gives is a frame that can be sent again, made of exactly the
/// octets that the length octet announces.
pub proof fn parsed_frame_is_wf(b: Seq<u8>)
    requires
        parse_frame(b) is Complete,
    ensures
        parse_frame(b)->frame.wf(),
        parse_frame(b)->used == 2 + b[1],
        6 <= parse_frame(b)->used <= b.len(),
        parse_frame(b)->used <= 255,
{
}

/// Round trip: decoding the APDU of a frame gives the frame back, and uses
/// all of the APDU.
pub proof fn decode_of_encode(f: FrameView)
    requires
        f.wf(),
    ensures
        parse_frame(f.encoding()) == (DecodedView::Complete {
            frame: f,
            used: f.encoding().len(),
        }),
{
    decode_of_encode_then(f, Seq::empty());
    assert(f.encoding() + Seq::<u8>::empty() == f.encoding());
}

/// Framing: what follows an APDU in the stream does not change how the APDU
/// is read.
pub proof fn decode_of_encode_then(f: FrameView, rest: Seq<u8>)
    requires
        f.wf(),
    ensures
        parse_frame(f.encoding() + rest) == (DecodedView::Complete {
            frame: f,
            used: f.encoding().len(),
        }),
{
    let b = f.encoding() + rest;
    let e = f.encoding();
    assert(e.len() == 6 + f.payload().len());
    assert(b[0] == 0x68 && b[1] == 4 + f.payload().len());
    match f {
        FrameView::I { send_seq, recv_seq, asdu } => {
            assert(b[2] == seq_octets(send_seq)[0]);
            assert(b[3] == seq_octets(send_seq)[1]);
            assert(b[4] == seq_octets(recv_seq)[0]);
            assert(b[5] == seq_octets(recv_seq)[1]);
            assert(b.subrange(6, 2 + b[1]) == asdu);
        },
        FrameView::S { recv_seq } => {
            assert(b[2] == 1 && b[3] == 0);
            assert(b[4] == seq_octets(recv_seq)[0]);
            assert(b[5] == seq_octets(recv_seq)[1]);
        },
        FrameView::U { function } => {
            assert(b[2] == function.control_octet());
        },
    }
}

/// Bit-exactness: an APDU is the only byte string that decodes, in full, to
/// its frame, provided that it is written as `encoding` writes it: an
/// I-frame's low control bits clear, an S-frame's first control octets `01 00`,
/// a U-frame's last three control octets zero.
pub proof fn encode_of_decode(b: Seq<u8>)
    requires
        parse_frame(b) is Complete,
        parse_frame(b)->used == b.len(),
        b[4] % 2 == 0,
        parse_frame(b)->frame is S ==> b[2] == 1 && b[3] == 0,
        parse_frame(b)->frame is U ==> b[3] == 0 && b[4] == 0 && b[5] == 0,
    ensures
        parse_frame(b)->frame.encoding() == b,
{
    let f = parse_frame(b)->frame;
    let e = f.encoding();
    assert(e.len() == b.len());
    assert forall|i: int| 0 <= i < b.len() implies e[i] == b[i] by {
        match f {
            FrameView::I { send_seq, recv_seq, asdu } => {
                if i >= 6 {
                    assert(e[i] == asdu[i - 6]);
                }
            },
            FrameView::S { recv_seq } => {},
            FrameView::U { function } => {},
        }
    }
    assert(e == b);
}

} // verus!
