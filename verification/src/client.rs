//! The client (controlling station, master): one connection to a server.
//!
//! A `Connection` does no I/O. Its owner opens the channel and tells the
//! connection (`channel_opened`), hands it the octets that arrive
//! (`receive`) and the time (`tick`), asks it what the octets meant
//! (`poll`, one frame at a time), and writes what it wants written
//! (`take_output`).

use vstd::prelude::*;
use vstd::string::StrSliceExecFns;
use crate::apci::{encode_all, encode_frames, parse_frame, Decoded, DecodedView, Frame, FrameReader};
use crate::asdu::{ioa_octets, parse_asdu, Asdu, AsduError, AsduView};
use crate::info::{body_size, element_size, Ioa, SingleCommand};
use crate::link::laws::params_never_change;
use crate::link::{
    ApciParameters, CloseReason, Event, Indication, IndicationView, Link, LinkState, LinkView,
};
use crate::time::Timestamp;
use crate::types::{CauseOfTransmission, ConnectionEvent, TypeId};

verus! {

/// A host name that a connection can be made to: not empty, and without a
/// NUL character.
pub open spec fn is_host_name(s: Seq<char>) -> bool {
    s.len() > 0 && forall|i: int| 0 <= i < s.len() ==> s[i] != '\0'
}

/// Whether `s` is a host name that a connection can be made to.
pub fn check_host_name(s: &str) -> (r: bool)
    ensures
        r == is_host_name(s@),
{
    let n: usize = s.unicode_len();
    if n == 0 {
        return false;
    }
    let mut i: usize = 0;
    while i < n
        invariant
            n == s@.len(),
            i <= n,
            forall|j: int| 0 <= j < i ==> s@[j] != '\0',
        decreases n - i,
    {
        if s.get_char(i) == '\0' {
            return false;
        }
        i = i + 1;
    }
    true
}

/// The ASDU with the single object at `ioa` with the given body.
pub open spec fn single_object(
    t: TypeId,
    cot: CauseOfTransmission,
    originator: u8,
    common_address: u16,
    ioa: Ioa,
    body: Seq<u8>,
) -> AsduView {
    AsduView {
        type_id: t.raw_value() as u8,
        sequence: false,
        count: 1,
        cause: cot.raw_value() as u8,
        negative: false,
        test: false,
        originator,
        common_address,
        payload: ioa_octets(ioa) + body,
    }
}

/// The ASDU with the single object at `ioa` with the given body.
pub fn single_object_asdu(
    t: TypeId,
    cot: CauseOfTransmission,
    originator: u8,
    common_address: u16,
    ioa: Ioa,
    body: &[u8],
) -> (a: Asdu)
    requires
        body@.len() == body_size(t),
        ioa <= 0xFF_FFFF,
    ensures
        a@ == single_object(t, cot, originator, common_address, ioa, body@),
        a@.legal(),
        a@.known_type() == Some(t),
{
    let mut a = Asdu::new(t, false, cot, originator, common_address, false, false);
    let ghost empty = a@;
    let size: usize = element_size(t);
    let added: bool = a.add_element(ioa, body);
    assert(empty.accepts(ioa, body@));
    assert(a@ =~= single_object(t, cot, originator, common_address, ioa, body@));
    a
}

/// Builder for configuring a connection.
#[derive(Debug)]
pub struct ConnectionBuilder {
    hostname: String,
    port: i32,
    originator_address: u8,
    params: ApciParameters,
}

/// The configuration of a connection, as a mathematical value.
pub struct ConfigView {
    /// Name or address of the server
    pub hostname: Seq<char>,
    /// TCP port of the server
    pub port: i32,
    /// Originator address put into sent ASDUs
    pub originator_address: u8,
    /// Window sizes and timers; t0 is the time allowed for establishing
    /// the channel
    pub params: ApciParameters,
}

impl View for ConnectionBuilder {
    type V = ConfigView;

    closed spec fn view(&self) -> ConfigView {
        ConfigView {
            hostname: self.hostname@,
            port: self.port,
            originator_address: self.originator_address,
            params: self.params,
        }
    }
}

/// The window sizes and timers that a connection has unless others are
/// set: k = 12, w = 8, t0 = 30 s, t1 = 15 s, t2 = 10 s, t3 = 20 s.
pub open spec fn default_parameters() -> ApciParameters {
    ApciParameters { k: 12, w: 8, t0: 30_000, t1: 15_000, t2: 10_000, t3: 20_000 }
}

impl ConnectionBuilder {
    /// Create a new connection builder: originator address 0, the default
    /// window sizes and timers.
    pub fn new(hostname: &str, port: u16) -> (b: Self)
        ensures
            b@ == (ConfigView {
                hostname: hostname@,
                port: port as i32,
                originator_address: 0,
                params: default_parameters(),
            }),
    {
        ConnectionBuilder {
            hostname: hostname.to_owned(),
            port: port as i32,
            originator_address: 0,
            params: ApciParameters::default(),
        }
    }

    /// Set the originator address (0-255).
    pub fn originator_address(self, oa: u8) -> (b: Self)
        ensures
            b@ == (ConfigView { originator_address: oa, ..self@ }),
    {
        let mut b = self;
        b.originator_address = oa;
        b
    }

    /// Set the connection timeout (t0) in milliseconds.
    pub fn connect_timeout_ms(self, timeout: u32) -> (b: Self)
        ensures
            b@ == (ConfigView {
                params: ApciParameters { t0: timeout, ..self@.params },
                ..self@
            }),
    {
        let mut b = self;
        b.params.t0 = timeout;
        b
    }

    /// Set the window sizes and all timers.
    pub fn apci_parameters(self, params: ApciParameters) -> (b: Self)
        ensures
            b@ == (ConfigView { params, ..self@ }),
    {
        let mut b = self;
        b.params = params;
        b
    }

    /// Build the connection: idle, nothing sent or received. `None` where
    /// the host name is empty or holds a NUL character, or the protocol
    /// does not admit the window sizes and timers.
    pub fn build(self) -> (r: Option<Connection>)
        ensures
            r is Some == (is_host_name(self@.hostname) && self@.params.valid()),
            r matches Some(c) ==> c@ == ConnectionView::initial(self@) && c.wf(),
    {
        if !check_host_name(self.hostname.as_str()) {
            return None;
        }
        let link: Link = match Link::new(self.params, 0) {
            Some(link) => link,
            None => {
                return None;
            },
        };
        Some(
            Connection {
                hostname: self.hostname,
                port: self.port,
                originator_address: self.originator_address,
                link,
                reader: FrameReader::new(),
                dropped: 0,
                closing: false,
            },
        )
    }
}

/// What the next frame in front of a connection meant, as a mathematical
/// value.
pub enum PolledView {
    /// No complete frame has arrived: there is nothing to do until more
    /// octets arrive.
    Idle,
    /// A frame was read and dealt with; there is nothing to report.
    Progress,
    /// The state of the connection changed.
    Event { event: ConnectionEvent },
    /// An ASDU arrived.
    Asdu { asdu: AsduView },
    /// An I-frame arrived whose content is no legal ASDU. It was counted
    /// and dropped; the connection stays open.
    Dropped { error: AsduError },
}

/// What the next frame in front of a connection meant.
#[derive(Debug)]
pub enum Polled {
    /// No complete frame has arrived: there is nothing to do until more
    /// octets arrive.
    Idle,
    /// A frame was read and dealt with; there is nothing to report.
    Progress,
    /// The state of the connection changed.
    Event { event: ConnectionEvent },
    /// An ASDU arrived.
    Asdu { asdu: Asdu },
    /// An I-frame arrived whose content is no legal ASDU. It was counted
    /// and dropped; the connection stays open.
    Dropped { error: AsduError },
}

impl View for Polled {
    type V = PolledView;

    open spec fn view(&self) -> PolledView {
        match *self {
            Polled::Idle => PolledView::Idle,
            Polled::Progress => PolledView::Progress,
            Polled::Event { event } => PolledView::Event { event },
            Polled::Asdu { asdu } => PolledView::Asdu { asdu: asdu@ },
            Polled::Dropped { error } => PolledView::Dropped { error },
        }
    }
}

/// A client connection as a mathematical value.
pub struct ConnectionView {
    /// The configuration
    pub config: ConfigView,
    /// The connection state machine
    pub link: LinkView,
    /// The octets that have arrived and are not read yet
    pub pending: Seq<u8>,
    /// The number of I-frames dropped because their content was no legal
    /// ASDU
    pub dropped: u64,
    /// The connection is shutting down: it closes once the stop of data
    /// transfer is confirmed or has timed out
    pub closing: bool,
}

impl ConnectionView {
    /// The connection as `build` makes it.
    pub open spec fn initial(config: ConfigView) -> ConnectionView {
        ConnectionView {
            config,
            link: LinkView::initial(config.params, 0),
            pending: Seq::empty(),
            dropped: 0,
            closing: false,
        }
    }

    /// The connection after it was closed.
    pub open spec fn closed(self) -> ConnectionView {
        ConnectionView {
            link: self.link.closed(),
            pending: Seq::empty(),
            closing: false,
            ..self
        }
    }

    /// Whether a shutdown has to wait: data transfer is started and must be
    /// stopped first.
    pub open spec fn shutdown_waits(self) -> bool {
        self.link.may_request_stop()
    }

    /// The application asks to shut the connection down: where data
    /// transfer is started, STOPDT-act goes out and the connection closes
    /// once the stop is confirmed or has timed out; otherwise it closes at
    /// once.
    pub open spec fn shutdown(self) -> ConnectionView {
        if self.shutdown_waits() {
            ConnectionView { link: self.link.request_stop(), closing: true, ..self }
        } else {
            self.closed()
        }
    }

    /// What the content of an I-frame means to the application.
    pub open spec fn deliver(self, asdu: Seq<u8>) -> (ConnectionView, PolledView) {
        match parse_asdu(asdu) {
            Ok(a) => (self, PolledView::Asdu { asdu: a }),
            Err(error) => (
                ConnectionView {
                    dropped: if self.dropped < u64::MAX {
                        (self.dropped + 1) as u64
                    } else {
                        self.dropped
                    },
                    ..self
                },
                PolledView::Dropped { error },
            ),
        }
    }

    /// What an indication of the state machine means to the application.
    pub open spec fn report(self, indication: IndicationView) -> (ConnectionView, PolledView) {
        match indication {
            IndicationView::Closed { reason } => (
                ConnectionView { pending: Seq::empty(), closing: false, ..self },
                PolledView::Event { event: ConnectionEvent::Closed },
            ),
            IndicationView::StartConfirmed => (
                self,
                PolledView::Event { event: ConnectionEvent::StartDtCon },
            ),
            IndicationView::StopConfirmed => if self.closing {
                (self.closed(), PolledView::Event { event: ConnectionEvent::Closed })
            } else {
                (self, PolledView::Event { event: ConnectionEvent::StopDtCon })
            },
            IndicationView::Data { asdu } => self.deliver(asdu),
            _ => (self, PolledView::Progress),
        }
    }

    /// Read the next frame: what is no APDU closes an open connection; a
    /// frame goes to the state machine, and what that indicates is
    /// reported.
    pub open spec fn poll(self) -> (ConnectionView, PolledView) {
        match parse_frame(self.pending) {
            DecodedView::Incomplete => (self, PolledView::Idle),
            DecodedView::Invalid { error } => if self.link.is_open() {
                (self.closed(), PolledView::Event { event: ConnectionEvent::Closed })
            } else {
                (ConnectionView { pending: Seq::empty(), ..self }, PolledView::Progress)
            },
            DecodedView::Complete { frame, used } => {
                let (link, indication) = self.link.on_frame(frame);
                (ConnectionView { link, pending: self.pending.skip(used as int), ..self }).report(
                    indication,
                )
            },
        }
    }

    /// What the passing of time means to the application: a channel that
    /// was not established in time has failed, a connection that the
    /// timers close is closed, and a connection that is shutting down
    /// closes when the stop of data transfer has timed out.
    pub open spec fn tick(self, now: u64) -> (ConnectionView, Option<ConnectionEvent>) {
        let (link, indication) = self.link.tick(now);
        match indication {
            IndicationView::Closed { reason } => (
                ConnectionView { link, pending: Seq::empty(), closing: false, ..self },
                Some(
                    if reason == CloseReason::ConnectTimeout {
                        ConnectionEvent::Failed
                    } else {
                        ConnectionEvent::Closed
                    },
                ),
            ),
            IndicationView::StopTimedOut => if self.closing {
                ((ConnectionView { link, ..self }).closed(), Some(ConnectionEvent::Closed))
            } else {
                (ConnectionView { link, ..self }, None)
            },
            _ => (ConnectionView { link, ..self }, None),
        }
    }

    /// The connection after the application sent an ASDU.
    pub open spec fn send(self, asdu: AsduView) -> ConnectionView {
        if asdu.legal() {
            ConnectionView { link: self.link.enqueue(asdu.encoding()), ..self }
        } else {
            self
        }
    }

    /// Whether an ASDU goes out: it is legal, data transfer is started and
    /// the send window is not full.
    pub open spec fn can_send(self, asdu: AsduView) -> bool {
        asdu.legal() && self.link.can_send(asdu.encoding())
    }

    /// The interrogation command.
    pub open spec fn interrogation(self, cot: CauseOfTransmission, ca: u16, qoi: u8) -> AsduView {
        single_object(TypeId::Interrogation, cot, self.config.originator_address, ca, 0, seq![qoi])
    }

    /// The counter interrogation command.
    pub open spec fn counter_interrogation(
        self,
        cot: CauseOfTransmission,
        ca: u16,
        qcc: u8,
    ) -> AsduView {
        single_object(
            TypeId::CounterInterrogation,
            cot,
            self.config.originator_address,
            ca,
            0,
            seq![qcc],
        )
    }

    /// The clock synchronization command.
    pub open spec fn clock_sync(self, ca: u16, time: Seq<u8>) -> AsduView {
        single_object(
            TypeId::ClockSync,
            CauseOfTransmission::Activation,
            self.config.originator_address,
            ca,
            0,
            time,
        )
    }

    /// The test command, with its fixed test pattern.
    pub open spec fn test_command(self, ca: u16) -> AsduView {
        single_object(
            TypeId::TestCommand,
            CauseOfTransmission::Activation,
            self.config.originator_address,
            ca,
            0,
            seq![0xAAu8, 0x55u8],
        )
    }

    /// The test command with a test sequence counter and a time tag.
    pub open spec fn test_command_with_time(self, ca: u16, tsc: u16, time: Seq<u8>) -> AsduView {
        single_object(
            TypeId::TestCommandTime,
            CauseOfTransmission::Activation,
            self.config.originator_address,
            ca,
            0,
            seq![(tsc % 256) as u8, (tsc / 256) as u8] + time,
        )
    }

    /// The single command.
    pub open spec fn single_command(
        self,
        cot: CauseOfTransmission,
        ca: u16,
        command: SingleCommand,
    ) -> AsduView {
        single_object(
            TypeId::SingleCommand,
            cot,
            self.config.originator_address,
            ca,
            command.ioa,
            seq![command.octet()],
        )
    }
}

/// A client connection.
///
/// This represents a connection to a server (slave/RTU): its
/// configuration, its state machine and the octets that have arrived and
/// are not read yet.
#[derive(Debug)]
pub struct Connection {
    hostname: String,
    port: i32,
    originator_address: u8,
    link: Link,
    reader: FrameReader,
    dropped: u64,
    closing: bool,
}

impl View for Connection {
    type V = ConnectionView;

    closed spec fn view(&self) -> ConnectionView {
        ConnectionView {
            config: ConfigView {
                hostname: self.hostname@,
                port: self.port,
                originator_address: self.originator_address,
                params: self.link@.params,
            },
            link: self.link@,
            pending: self.reader@,
            dropped: self.dropped,
            closing: self.closing,
        }
    }
}

impl Connection {
    /// The invariant of a connection: that of its state machine.
    pub open spec fn wf(&self) -> bool {
        self@.link.wf()
    }

    /// Create a new connection with default settings. `None` where the
    /// host name is empty or holds a NUL character.
    pub fn new(hostname: &str, port: u16) -> (r: Option<Self>)
        ensures
            r is Some == is_host_name(hostname@),
            r matches Some(c) ==> c.wf() && c@ == ConnectionView::initial(
                ConfigView {
                    hostname: hostname@,
                    port: port as i32,
                    originator_address: 0,
                    params: default_parameters(),
                },
            ),
    {
        ConnectionBuilder::new(hostname, port).build()
    }

    /// The name or address of the server.
    pub fn hostname(&self) -> (s: &str)
        ensures
            s@ == self@.config.hostname,
    {
        self.hostname.as_str()
    }

    /// The TCP port of the server.
    pub fn port(&self) -> (p: i32)
        ensures
            p == self@.config.port,
    {
        self.port
    }

    /// The originator address put into sent ASDUs.
    pub fn originator_address(&self) -> (oa: u8)
        ensures
            oa == self@.config.originator_address,
    {
        self.originator_address
    }

    /// The time allowed for establishing the channel, in milliseconds.
    pub fn connect_timeout_ms(&self) -> (t: u32)
        ensures
            t == self@.link.params.t0,
    {
        self.link.params().t0
    }

    /// The data-transfer state.
    pub fn state(&self) -> (s: LinkState)
        ensures
            s == self@.link.state,
    {
        self.link.state()
    }

    /// The connection state machine.
    pub fn link(&self) -> (l: &Link)
        ensures
            l@ == self@.link,
    {
        &self.link
    }

    /// The number of I-frames dropped because their content was no legal
    /// ASDU.
    pub fn dropped_count(&self) -> (n: u64)
        ensures
            n == self@.dropped,
    {
        self.dropped
    }

    /// The wait for the channel begins at `now`: from then on t0 runs.
    pub fn connecting(&mut self, now: u64)
        requires
            old(self).wf(),
            old(self)@.link.state is Idle,
        ensures
            final(self).wf(),
            final(self)@ == (ConnectionView {
                link: LinkView::initial(old(self)@.link.params, now),
                pending: Seq::empty(),
                closing: false,
                ..old(self)@
            }),
    {
        let params = self.link.params();
        match Link::new(params, now) {
            Some(link) => {
                self.link = link;
            },
            None => {},
        }
        self.reader.clear();
        self.closing = false;
    }

    /// The channel is open: the connection is now stopped, and the
    /// application is to be told `Opened`.
    pub fn channel_opened(&mut self, now: u64) -> (event: ConnectionEvent)
        requires
            old(self).wf(),
        ensures
            final(self).wf(),
            final(self)@ == (ConnectionView {
                link: old(self)@.link.advance(now).open(),
                ..old(self)@
            }),
            event == ConnectionEvent::Opened,
    {
        self.link.set_time(now);
        self.link.open();
        ConnectionEvent::Opened
    }

    /// The channel could not be opened: the connection is closed, and the
    /// application is to be told `Failed`.
    pub fn channel_failed(&mut self) -> (event: ConnectionEvent)
        requires
            old(self).wf(),
        ensures
            final(self).wf(),
            final(self)@ == old(self)@.closed(),
            event == ConnectionEvent::Failed,
    {
        self.link.close();
        self.reader.clear();
        self.closing = false;
        ConnectionEvent::Failed
    }

    /// The peer closed the channel: the connection is closed, and the
    /// application is to be told `Closed`.
    pub fn channel_closed(&mut self) -> (event: ConnectionEvent)
        requires
            old(self).wf(),
        ensures
            final(self).wf(),
            final(self)@ == old(self)@.closed(),
            event == ConnectionEvent::Closed,
    {
        self.link.close();
        self.reader.clear();
        self.closing = false;
        ConnectionEvent::Closed
    }

    /// Close the connection: the state is closed, the send buffer is
    /// discarded and no timer runs any more.
    pub fn close(&mut self)
        requires
            old(self).wf(),
        ensures
            final(self).wf(),
            final(self)@ == old(self)@.closed(),
    {
        self.link.close();
        self.reader.clear();
        self.closing = false;
    }

    /// Shut the connection down in order: where data transfer is started,
    /// STOPDT-act goes out and the connection closes once the stop is
    /// confirmed or, after t1, has timed out; otherwise the connection
    /// closes at once. Returns whether the connection waits for the stop.
    pub fn shutdown(&mut self) -> (waits: bool)
        requires
            old(self).wf(),
        ensures
            final(self).wf(),
            waits == old(self)@.shutdown_waits(),
            final(self)@ == old(self)@.shutdown(),
    {
        if self.link.request_stop() {
            self.closing = true;
            true
        } else {
            self.link.close();
            self.reader.clear();
            self.closing = false;
            false
        }
    }

    /// Whether the connection is shutting down.
    pub fn is_shutting_down(&self) -> (r: bool)
        ensures
            r == self@.closing,
    {
        self.closing
    }

    /// Send STARTDT (start data transfer) activation.
    ///
    /// This must be called after connecting to enable data transfer. It
    /// goes out from the stopped state only.
    pub fn send_start_dt(&mut self)
        requires
            old(self).wf(),
        ensures
            final(self).wf(),
            final(self)@ == (ConnectionView {
                link: old(self)@.link.request_start(),
                ..old(self)@
            }),
    {
        let _ = self.link.request_start();
    }

    /// Send STOPDT (stop data transfer) activation. It goes out from the
    /// started state only.
    pub fn send_stop_dt(&mut self)
        requires
            old(self).wf(),
        ensures
            final(self).wf(),
            final(self)@ == (ConnectionView { link: old(self)@.link.request_stop(), ..old(self)@ }),
    {
        let _ = self.link.request_stop();
    }

    /// Send an ASDU. Returns `false`, with nothing changed, where the ASDU
    /// is not legal, data transfer is not started or the send window is
    /// full.
    pub fn send_asdu(&mut self, asdu: &Asdu) -> (sent: bool)
        requires
            old(self).wf(),
        ensures
            final(self).wf(),
            sent == old(self)@.can_send(asdu@),
            final(self)@ == old(self)@.send(asdu@),
            !sent ==> final(self)@ == old(self)@,
    {
        if !asdu.is_legal() {
            return false;
        }
        let bytes: Vec<u8> = asdu.encode();
        self.link.enqueue(bytes.as_slice())
    }

    /// Send a general interrogation command.
    ///
    /// # Arguments
    /// * `cot` - Cause of transmission (usually `Activation`)
    /// * `ca` - Common address (station address)
    /// * `qoi` - Qualifier of interrogation (use `QOI_STATION` for station interrogation)
    pub fn send_interrogation(&mut self, cot: CauseOfTransmission, ca: u16, qoi: u8) -> (sent: bool)
        requires
            old(self).wf(),
        ensures
            final(self).wf(),
            sent == old(self)@.can_send(old(self)@.interrogation(cot, ca, qoi)),
            final(self)@ == old(self)@.send(old(self)@.interrogation(cot, ca, qoi)),
    {
        let body: [u8; 1] = [qoi];
        let asdu = single_object_asdu(
            TypeId::Interrogation,
            cot,
            self.originator_address,
            ca,
            0,
            body.as_slice(),
        );
        assert(body@ == seq![qoi]);
        self.send_asdu(&asdu)
    }

    /// Send a counter interrogation command.
    pub fn send_counter_interrogation(&mut self, cot: CauseOfTransmission, ca: u16, qcc: u8) -> (sent: bool)
        requires
            old(self).wf(),
        ensures
            final(self).wf(),
            sent == old(self)@.can_send(old(self)@.counter_interrogation(cot, ca, qcc)),
            final(self)@ == old(self)@.send(old(self)@.counter_interrogation(cot, ca, qcc)),
    {
        let body: [u8; 1] = [qcc];
        let asdu = single_object_asdu(
            TypeId::CounterInterrogation,
            cot,
            self.originator_address,
            ca,
            0,
            body.as_slice(),
        );
        assert(body@ == seq![qcc]);
        self.send_asdu(&asdu)
    }

    /// Send a clock synchronization command.
    pub fn send_clock_sync(&mut self, ca: u16, time: &Timestamp) -> (sent: bool)
        requires
            old(self).wf(),
        ensures
            final(self).wf(),
            sent == old(self)@.can_send(old(self)@.clock_sync(ca, time@)),
            final(self)@ == old(self)@.send(old(self)@.clock_sync(ca, time@)),
    {
        let body: [u8; 7] = time.to_bytes();
        proof {
            time.has_seven_octets();
        }
        let asdu = single_object_asdu(
            TypeId::ClockSync,
            CauseOfTransmission::Activation,
            self.originator_address,
            ca,
            0,
            body.as_slice(),
        );
        self.send_asdu(&asdu)
    }

    /// Send a test command.
    pub fn send_test_command(&mut self, ca: u16) -> (sent: bool)
        requires
            old(self).wf(),
        ensures
            final(self).wf(),
            sent == old(self)@.can_send(old(self)@.test_command(ca)),
            final(self)@ == old(self)@.send(old(self)@.test_command(ca)),
    {
        let body: [u8; 2] = [0xAA, 0x55];
        let asdu = single_object_asdu(
            TypeId::TestCommand,
            CauseOfTransmission::Activation,
            self.originator_address,
            ca,
            0,
            body.as_slice(),
        );
        assert(body@ == seq![0xAAu8, 0x55u8]);
        self.send_asdu(&asdu)
    }

    /// Send a test command with timestamp.
    pub fn send_test_command_with_time(&mut self, ca: u16, tsc: u16, time: &Timestamp) -> (sent: bool)
        requires
            old(self).wf(),
        ensures
            final(self).wf(),
            sent == old(self)@.can_send(old(self)@.test_command_with_time(ca, tsc, time@)),
            final(self)@ == old(self)@.send(old(self)@.test_command_with_time(ca, tsc, time@)),
    {
        let tag: [u8; 7] = time.to_bytes();
        proof {
            time.has_seven_octets();
        }
        let body: [u8; 9] = [
            (tsc % 256) as u8,
            (tsc / 256) as u8,
            tag[0],
            tag[1],
            tag[2],
            tag[3],
            tag[4],
            tag[5],
            tag[6],
        ];
        assert(body@ == seq![(tsc % 256) as u8, (tsc / 256) as u8] + time@);
        let asdu = single_object_asdu(
            TypeId::TestCommandTime,
            CauseOfTransmission::Activation,
            self.originator_address,
            ca,
            0,
            body.as_slice(),
        );
        self.send_asdu(&asdu)
    }

    /// Send a single command (C_SC_NA_1).
    ///
    /// # Arguments
    /// * `cot` - Cause of transmission
    /// * `ca` - Common address
    /// * `ioa` - Information object address
    /// * `state` - Command state (true = ON, false = OFF)
    /// * `select` - Select/Execute (true = select, false = execute)
    /// * `qualifier` - Qualifier (0 = no additional definition)
    ///
    /// Returns `false`, with nothing changed, also where the address has
    /// more than three octets or the qualifier more than five bits.
    pub fn send_single_command(
        &mut self,
        cot: CauseOfTransmission,
        ca: u16,
        ioa: u32,
        state: bool,
        select: bool,
        qualifier: u8,
    ) -> (sent: bool)
        requires
            old(self).wf(),
        ensures
            final(self).wf(),
            ({
                let command = SingleCommand { ioa, state, select, qualifier };
                let asdu = old(self)@.single_command(cot, ca, command);
                let valid = ioa <= 0xFF_FFFF && qualifier < 32;
                &&& sent == (valid && old(self)@.can_send(asdu))
                &&& valid ==> final(self)@ == old(self)@.send(asdu)
                &&& !valid ==> final(self)@ == old(self)@
            }),
    {
        if ioa > 0xFF_FFFF || qualifier >= 32 {
            return false;
        }
        let command = SingleCommand { ioa, state, select, qualifier };
        let body: Vec<u8> = command.to_raw();
        let asdu = single_object_asdu(
            TypeId::SingleCommand,
            cot,
            self.originator_address,
            ca,
            ioa,
            body.as_slice(),
        );
        self.send_asdu(&asdu)
    }

    /// Check if the transmit buffer is full.
    pub fn is_transmit_buffer_full(&self) -> (full: bool)
        ensures
            full == (self@.link.buffer.len() >= self@.link.params.k),
    {
        self.link.is_window_full()
    }

    /// Octets arrived from the channel. They wait until `poll` reads them.
    pub fn receive(&mut self, bytes: &[u8])
        requires
            old(self).wf(),
        ensures
            final(self).wf(),
            final(self)@ == (ConnectionView {
                pending: old(self)@.pending + bytes@,
                ..old(self)@
            }),
    {
        self.reader.push(bytes);
    }

    fn deliver(&mut self, asdu: Vec<u8>) -> (r: Polled)
        requires
            old(self).wf(),
        ensures
            final(self).wf(),
            (final(self)@, r@) == old(self)@.deliver(asdu@),
    {
        match Asdu::decode(asdu.as_slice()) {
            Ok(a) => Polled::Asdu { asdu: a },
            Err(error) => {
                if self.dropped < u64::MAX {
                    self.dropped = self.dropped + 1;
                }
                Polled::Dropped { error }
            },
        }
    }

    /// Read the next frame that has arrived and tell what it meant. The
    /// owner calls this until it returns `Idle`.
    pub fn poll(&mut self) -> (r: Polled)
        requires
            old(self).wf(),
        ensures
            final(self).wf(),
            (final(self)@, r@) == old(self)@.poll(),
    {
        match self.reader.next_frame() {
            Decoded::Incomplete => Polled::Idle,
            Decoded::Invalid { error: _ } => {
                let state = self.link.state();
                if state != LinkState::Idle && state != LinkState::Closed {
                    self.link.close();
                    self.closing = false;
                    Polled::Event { event: ConnectionEvent::Closed }
                } else {
                    Polled::Progress
                }
            },
            Decoded::Complete { frame, used: _ } => {
                match self.link.handle_frame(frame) {
                    Indication::Closed { reason: _ } => {
                        self.reader.clear();
                        self.closing = false;
                        Polled::Event { event: ConnectionEvent::Closed }
                    },
                    Indication::StartConfirmed => Polled::Event {
                        event: ConnectionEvent::StartDtCon,
                    },
                    Indication::StopConfirmed => {
                        if self.closing {
                            self.link.close();
                            self.reader.clear();
                            self.closing = false;
                            Polled::Event { event: ConnectionEvent::Closed }
                        } else {
                            Polled::Event { event: ConnectionEvent::StopDtCon }
                        }
                    },
                    Indication::Data { asdu } => self.deliver(asdu),
                    _ => Polled::Progress,
                }
            },
        }
    }

    /// Time passed: the timers run. The result is the event to tell the
    /// application, if there is one.
    pub fn tick(&mut self, now: u64) -> (event: Option<ConnectionEvent>)
        requires
            old(self).wf(),
        ensures
            final(self).wf(),
            (final(self)@, event) == old(self)@.tick(now),
    {
        proof {
            params_never_change(self@.link, Event::Tick { now });
        }
        match self.link.tick(now) {
            Indication::Closed { reason } => {
                self.reader.clear();
                self.closing = false;
                if reason == CloseReason::ConnectTimeout {
                    Some(ConnectionEvent::Failed)
                } else {
                    Some(ConnectionEvent::Closed)
                }
            },
            Indication::StopTimedOut => {
                if self.closing {
                    self.link.close();
                    self.reader.clear();
                    self.closing = false;
                    Some(ConnectionEvent::Closed)
                } else {
                    None
                }
            },
            _ => None,
        }
    }

    /// Take the octets to write to the channel: the frames that wait, one
    /// APDU after the other.
    pub fn take_output(&mut self) -> (out: Vec<u8>)
        requires
            old(self).wf(),
        ensures
            final(self).wf(),
            out@ == encode_all(old(self)@.link.out),
            final(self)@ == (ConnectionView {
                link: LinkView { out: Seq::empty(), ..old(self)@.link },
                ..old(self)@
            }),
    {
        let frames: Vec<Frame> = self.link.take_frames();
        encode_frames(&frames)
    }
}

} // verus!
