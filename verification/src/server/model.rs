//! The server as a mathematical value: its peers, their redundancy groups
//! and queues, and what every event makes of them.

use vstd::prelude::*;
use crate::apci::{parse_frame, DecodedView};
use crate::asdu::{parse_asdu, AsduError, AsduView};
use crate::client::single_object;
use crate::info::{MeasuredFloat, MeasuredScaled, SinglePoint};
use crate::link::model::{ApciParameters, IndicationView, LinkView};
use crate::queue::{capacity_of, QueueView};
use crate::server::{Enqueued, MasterConnection};
use crate::types::{CauseOfTransmission, ServerMode, TypeId};

verus! {

/// One peer of the server, as a mathematical value.
pub struct PeerView {
    /// The number of the connection
    pub id: u32,
    /// The redundancy group of the peer
    pub group: u32,
    /// The connection state machine
    pub link: LinkView,
    /// The octets that have arrived and are not read yet
    pub pending: Seq<u8>,
    /// The peer asked to start data transfer and waits for its group to
    /// have no active peer
    pub start_pending: bool,
    /// The number of I-frames dropped because their content was no legal
    /// ASDU
    pub dropped: u64,
}

impl PeerView {
    /// The peer has data transfer started.
    pub open spec fn is_active(self) -> bool {
        self.link.state is Started
    }

    /// The invariant of a peer: that of its state machine, which is stopped
    /// or started; a peer that waits to start is stopped.
    pub open spec fn wf(self) -> bool {
        &&& self.link.wf()
        &&& (self.link.state is Stopped || self.link.state is Started)
        &&& (self.start_pending ==> self.link.state is Stopped)
    }
}

/// One redundancy group, as a mathematical value.
pub struct GroupView {
    /// The key of the group
    pub key: u32,
    /// The ASDUs that wait to be sent to the active peer of the group
    pub queue: QueueView,
}

/// The configuration of a server, as a mathematical value.
pub struct ServerConfigView {
    /// The configured size of the low-priority class of each queue
    pub max_low_priority_queue: i32,
    /// The configured size of the high-priority class of each queue
    pub max_high_priority_queue: i32,
    /// The local address to bind to
    pub local_address: Seq<char>,
    /// The local port to listen on
    pub local_port: i32,
    /// How peers are admitted to data transfer
    pub server_mode: ServerMode,
    /// Window sizes and timers of every connection
    pub params: ApciParameters,
}

/// The group that a new peer belongs to: the one group there is, a group
/// of its own, or the group that the owner names.
pub open spec fn group_of(mode: ServerMode, id: u32, key: u32) -> u32 {
    match mode {
        ServerMode::SingleRedundancyGroup => 0,
        ServerMode::ConnectionIsRedundancyGroup => id,
        ServerMode::MultipleRedundancyGroups => key,
    }
}

/// An empty queue of the configured sizes.
pub open spec fn empty_queue(config: ServerConfigView) -> QueueView {
    QueueView {
        low: Seq::empty(),
        high: Seq::empty(),
        max_low: capacity_of(config.max_low_priority_queue),
        max_high: capacity_of(config.max_high_priority_queue),
    }
}

/// A server as a mathematical value.
pub struct ServerView {
    /// The configuration
    pub config: ServerConfigView,
    /// Whether the server admits peers
    pub running: bool,
    /// The connected peers, in the order in which they connected
    pub peers: Seq<PeerView>,
    /// The redundancy groups
    pub groups: Seq<GroupView>,
    /// The number that the next connection gets
    pub next_id: u32,
}

impl ServerView {
    /// The server as `build` makes it: not running, without peers. In the
    /// single-group mode the one group is there from the start, so that
    /// what is queued before a peer connects waits for it; in the other
    /// modes a group comes with its first peer.
    pub open spec fn initial(config: ServerConfigView) -> ServerView {
        ServerView {
            config,
            running: false,
            peers: Seq::empty(),
            groups: if config.server_mode is SingleRedundancyGroup {
                seq![GroupView { key: 0, queue: empty_queue(config) }]
            } else {
                Seq::empty()
            },
            next_id: 0,
        }
    }

    /// Whether `i` is the place of the peer with number `id`.
    pub open spec fn is_peer(self, i: int, id: u32) -> bool {
        0 <= i < self.peers.len() && self.peers[i].id == id
    }

    /// The place of the peer with number `id`, if it is connected.
    pub open spec fn peer_index(self, id: u32) -> Option<int> {
        if exists|i: int| self.is_peer(i, id) {
            Some(choose|i: int| self.is_peer(i, id))
        } else {
            None
        }
    }

    /// Whether `g` is the place of the group with key `key`.
    pub open spec fn is_group(self, g: int, key: u32) -> bool {
        0 <= g < self.groups.len() && self.groups[g].key == key
    }

    /// The place of the group with key `key`, if there is one.
    pub open spec fn group_index(self, key: u32) -> Option<int> {
        if exists|g: int| self.is_group(g, key) {
            Some(choose|g: int| self.is_group(g, key))
        } else {
            None
        }
    }

    /// Whether the peer at `j` is an active peer of `group`.
    pub open spec fn is_active_in(self, j: int, group: u32) -> bool {
        0 <= j < self.peers.len() && self.peers[j].group == group && self.peers[j].is_active()
    }

    /// Whether `group` has an active peer.
    pub open spec fn has_active(self, group: u32) -> bool {
        exists|j: int| self.is_active_in(j, group)
    }

    /// Whether the peer at `j` is a peer of `group` that waits to start.
    pub open spec fn is_pending_in(self, j: int, group: u32) -> bool {
        0 <= j < self.peers.len() && self.peers[j].group == group && self.peers[j].start_pending
    }

    /// Whether the peer at `j` is the first peer of `group` that waits to
    /// start.
    pub open spec fn is_first_pending(self, j: int, group: u32) -> bool {
        self.is_pending_in(j, group) && forall|k: int| 0 <= k < j ==> !self.is_pending_in(k, group)
    }

    /// The place of the first peer of `group` that waits to start.
    pub open spec fn first_pending(self, group: u32) -> Option<int> {
        if exists|j: int| self.is_first_pending(j, group) {
            Some(choose|j: int| self.is_first_pending(j, group))
        } else {
            None
        }
    }

    /// The peers are in order: each is well formed, every number is given
    /// once and lies below the next to give, and every peer is in the
    /// group that the mode gives it.
    pub open spec fn peers_ok(self) -> bool {
        &&& forall|i: int| 0 <= i < self.peers.len() ==> (#[trigger] self.peers[i]).wf()
        &&& forall|i: int|
            0 <= i < self.peers.len() ==> (#[trigger] self.peers[i]).id < self.next_id
        &&& forall|i: int, j: int|
            0 <= i < self.peers.len() && 0 <= j < self.peers.len() && i != j ==> (
            #[trigger] self.peers[i]).id != (#[trigger] self.peers[j]).id
        &&& forall|i: int|
            0 <= i < self.peers.len() ==> (#[trigger] self.peers[i]).group == group_of(
                self.config.server_mode,
                self.peers[i].id,
                self.peers[i].group,
            )
        &&& forall|i: int|
            0 <= i < self.peers.len() ==> (#[trigger] self.peers[i]).link.params
                == self.config.params
    }

    /// The groups are in order: every key is there once, every queue keeps
    /// within the configured sizes, and every peer has its group.
    pub open spec fn groups_ok(self) -> bool {
        &&& forall|g: int, h: int|
            0 <= g < self.groups.len() && 0 <= h < self.groups.len() && g != h ==> (
            #[trigger] self.groups[g]).key != (#[trigger] self.groups[h]).key
        &&& forall|g: int|
            0 <= g < self.groups.len() ==> (#[trigger] self.groups[g]).queue.wf()
                && self.groups[g].queue.max_low == capacity_of(self.config.max_low_priority_queue)
                && self.groups[g].queue.max_high == capacity_of(
                self.config.max_high_priority_queue,
            )
        &&& forall|i: int|
            0 <= i < self.peers.len() ==> self.group_index((#[trigger] self.peers[i]).group)
                is Some
    }

    /// Admission is in order: no group has two active peers, and a peer
    /// waits to start only while its group has an active peer.
    pub open spec fn admission_ok(self) -> bool {
        &&& forall|i: int, j: int|
            0 <= i < self.peers.len() && 0 <= j < self.peers.len() && i != j && (
            #[trigger] self.peers[i]).group == (#[trigger] self.peers[j]).group
                && self.peers[i].is_active() ==> !self.peers[j].is_active()
        &&& forall|i: int|
            0 <= i < self.peers.len() && (#[trigger] self.peers[i]).start_pending
                ==> self.has_active(self.peers[i].group)
    }

    /// The invariant of the server.
    pub open spec fn wf(self) -> bool {
        &&& self.config.params.valid()
        &&& self.peers_ok()
        &&& self.groups_ok()
        &&& self.admission_ok()
    }
}

impl ServerView {
    /// The server with the peer at `i` replaced.
    pub open spec fn with_peer(self, i: int, peer: PeerView) -> ServerView {
        ServerView { peers: self.peers.update(i, peer), ..self }
    }

    /// The invariant but for the peers of `group` that wait to start, which
    /// may wait though the group has no active peer: the state between the
    /// loss of the active peer and the promotion of the next.
    pub open spec fn wf_but(self, group: u32) -> bool {
        &&& self.config.params.valid()
        &&& self.peers_ok()
        &&& self.groups_ok()
        &&& forall|i: int, j: int|
            0 <= i < self.peers.len() && 0 <= j < self.peers.len() && i != j && (
            #[trigger] self.peers[i]).group == (#[trigger] self.peers[j]).group
                && self.peers[i].is_active() ==> !self.peers[j].is_active()
        &&& forall|i: int|
            0 <= i < self.peers.len() && (#[trigger] self.peers[i]).start_pending
                && self.peers[i].group != group ==> self.has_active(self.peers[i].group)
    }

    /// The peer as it is after it was admitted: STARTDT-con went out and
    /// data transfer is started.
    pub open spec fn admitted(peer: PeerView) -> PeerView {
        PeerView { link: peer.link.confirm_start(), start_pending: false, ..peer }
    }

    /// Where `group` has no active peer, the first of its peers that waits
    /// to start is admitted. The result names the peer that was admitted.
    pub open spec fn promote(self, group: u32) -> (ServerView, Option<MasterConnection>) {
        if self.has_active(group) {
            (self, None)
        } else {
            match self.first_pending(group) {
                Some(j) => (
                    self.with_peer(j, Self::admitted(self.peers[j])),
                    Some(MasterConnection { id: self.peers[j].id }),
                ),
                None => (self, None),
            }
        }
    }
}

/// What the next frame in front of a peer meant, as a mathematical value.
pub enum ServerPolledView {
    /// No complete frame has arrived, or the connection is not known:
    /// there is nothing to do until more octets arrive.
    Idle,
    /// A frame was read and dealt with; there is nothing to report.
    Progress,
    /// The peer was admitted to data transfer.
    Activated { connection: MasterConnection },
    /// The peer stopped data transfer. Where another peer of its group
    /// waited to start, that peer was admitted.
    Deactivated { connection: MasterConnection, promoted: Option<MasterConnection> },
    /// The connection was closed and is gone. Where the group lost its
    /// active peer and another waited to start, that peer was admitted.
    Closed { connection: MasterConnection, promoted: Option<MasterConnection> },
    /// An interrogation command arrived.
    Interrogation { connection: MasterConnection, asdu: AsduView, qoi: u8 },
    /// A clock synchronization command arrived.
    ClockSync { connection: MasterConnection, asdu: AsduView, time: Seq<u8> },
    /// Another ASDU of a supported type arrived.
    Asdu { connection: MasterConnection, asdu: AsduView },
    /// An ASDU of a type that is not supported arrived. It was answered
    /// with a negative activation confirmation, where the send window had
    /// room.
    Rejected { connection: MasterConnection, asdu: AsduView },
    /// An I-frame arrived whose content is no legal ASDU. It was counted
    /// and dropped; the connection stays open.
    Dropped { connection: MasterConnection, error: AsduError },
}

/// The answer to a command that is not carried out: the command as it
/// arrived, with the given cause and the negative flag in place of its
/// cause; the test flag stays.
pub open spec fn negative_reply(bytes: Seq<u8>, cause: CauseOfTransmission) -> Seq<u8> {
    bytes.update(
        2,
        (cause.raw_value() + 64 + if bytes[2] >= 128 {
            128int
        } else {
            0int
        }) as u8,
    )
}

/// Whether a type identification octet stands for a supported command.
pub open spec fn is_command_octet(octet: u8) -> bool {
    TypeId::of_raw(octet as u32) matches Some(t) && t.is_command()
}

impl PeerView {
    /// The peer with one more dropped I-frame counted.
    pub open spec fn count_dropped(self) -> PeerView {
        PeerView {
            dropped: if self.dropped < u64::MAX {
                (self.dropped + 1) as u64
            } else {
                self.dropped
            },
            ..self
        }
    }

    /// What the content of an I-frame means.
    ///
    /// A legal ASDU of a supported type is handed on: an interrogation with
    /// its qualifier, a clock synchronization with its time, anything else
    /// as it is. A legal ASDU of another type is answered with a negative
    /// activation confirmation. What is no legal ASDU is counted and
    /// dropped; a supported command whose objects do not have the length
    /// of its type is also answered, negative, with the cause "unknown
    /// type".
    pub open spec fn deliver(self, bytes: Seq<u8>) -> (PeerView, ServerPolledView) {
        let connection = MasterConnection { id: self.id };
        match parse_asdu(bytes) {
            Ok(asdu) => match asdu.known_type() {
                Some(t) => if t == TypeId::Interrogation {
                    (
                        self,
                        ServerPolledView::Interrogation { connection, asdu, qoi: asdu.payload[3] },
                    )
                } else if t == TypeId::ClockSync {
                    (
                        self,
                        ServerPolledView::ClockSync {
                            connection,
                            asdu,
                            time: asdu.payload.subrange(3, 10),
                        },
                    )
                } else {
                    (self, ServerPolledView::Asdu { connection, asdu })
                },
                None => (
                    PeerView {
                        link: self.link.enqueue(
                            negative_reply(bytes, CauseOfTransmission::ActivationCon),
                        ),
                        ..self
                    },
                    ServerPolledView::Rejected { connection, asdu },
                ),
            },
            Err(error) => (
                if error == AsduError::SizeMismatch && is_command_octet(bytes[0]) {
                    PeerView {
                        link: self.link.enqueue(
                            negative_reply(bytes, CauseOfTransmission::UnknownType),
                        ),
                        ..self.count_dropped()
                    }
                } else {
                    self.count_dropped()
                },
                ServerPolledView::Dropped { connection, error },
            ),
        }
    }
}

impl ServerView {
    /// The server without the peer at `i`. Where every connection is a
    /// group of its own, the group goes with the peer.
    pub open spec fn without_peer(self, i: int) -> ServerView {
        ServerView {
            peers: self.peers.remove(i),
            groups: if self.config.server_mode is ConnectionIsRedundancyGroup {
                match self.group_index(self.peers[i].group) {
                    Some(g) => self.groups.remove(g),
                    None => self.groups,
                }
            } else {
                self.groups
            },
            ..self
        }
    }

    /// The connection of the peer at `i` is closed: the peer is gone, with
    /// what it had to send and what had arrived from it, and where its
    /// group is left without active peer, the first peer of the group that
    /// waits to start is admitted.
    pub open spec fn close_peer(self, i: int) -> (ServerView, Option<MasterConnection>) {
        self.without_peer(i).promote(self.peers[i].group)
    }

    /// Whether a peer can connect: the server is running and has a number
    /// left to give.
    pub open spec fn can_accept(self) -> bool {
        self.running && self.next_id < u32::MAX
    }

    /// The peer that connects at `now` and names the group `key`.
    pub open spec fn new_peer(self, key: u32, now: u64) -> PeerView {
        PeerView {
            id: self.next_id,
            group: group_of(self.config.server_mode, self.next_id, key),
            link: LinkView::initial(self.config.params, now).open(),
            pending: Seq::empty(),
            start_pending: false,
            dropped: 0,
        }
    }

    /// A peer connects: it gets the next number, is stopped, and its group
    /// is made where it is not there yet.
    pub open spec fn accept(self, key: u32, now: u64) -> ServerView {
        if self.can_accept() {
            let peer = self.new_peer(key, now);
            ServerView {
                peers: self.peers.push(peer),
                groups: if self.group_index(peer.group) is Some {
                    self.groups
                } else {
                    self.groups.push(
                        GroupView { key: peer.group, queue: empty_queue(self.config) },
                    )
                },
                next_id: (self.next_id + 1) as u32,
                ..self
            }
        } else {
            self
        }
    }

    /// Whether the group of the peer at `i` has an active peer other than
    /// that one.
    pub open spec fn has_other_active(self, i: int) -> bool {
        exists|j: int| j != i && self.is_active_in(j, self.peers[i].group)
    }

    /// What the state machine of the peer at `i` indicated leads to, where
    /// `heard` is the peer after the frame.
    ///
    /// A connection that closed is gone. A peer that asks to start is
    /// admitted where its group has no other active peer, and waits
    /// otherwise. A peer that stops makes room for the first of its group
    /// that waits. The content of an I-frame is delivered.
    pub open spec fn after_indication(self, i: int, heard: PeerView, indication: IndicationView) -> (
        ServerView,
        ServerPolledView,
    ) {
        let connection = MasterConnection { id: self.peers[i].id };
        match indication {
            IndicationView::Closed { reason } => {
                let (after, promoted) = self.close_peer(i);
                (after, ServerPolledView::Closed { connection, promoted })
            },
            IndicationView::StartRequested => if self.has_other_active(i) {
                (
                    self.with_peer(i, PeerView { start_pending: true, ..heard }),
                    ServerPolledView::Progress,
                )
            } else {
                (
                    self.with_peer(i, Self::admitted(heard)),
                    ServerPolledView::Activated { connection },
                )
            },
            IndicationView::StopRequested => {
                let (after, promoted) = self.with_peer(i, heard).promote(self.peers[i].group);
                (after, ServerPolledView::Deactivated { connection, promoted })
            },
            IndicationView::Data { asdu } => {
                let (delivered, polled) = heard.deliver(asdu);
                (self.with_peer(i, delivered), polled)
            },
            _ => (self.with_peer(i, heard), ServerPolledView::Progress),
        }
    }

    /// Read the next frame in front of the peer at `i`: what is no APDU
    /// closes the connection; a frame goes to the state machine of the
    /// peer, and what that indicates is dealt with.
    pub open spec fn poll_at(self, i: int) -> (ServerView, ServerPolledView) {
        let peer = self.peers[i];
        let connection = MasterConnection { id: peer.id };
        match parse_frame(peer.pending) {
            DecodedView::Incomplete => (self, ServerPolledView::Idle),
            DecodedView::Invalid { error } => {
                let (after, promoted) = self.close_peer(i);
                (after, ServerPolledView::Closed { connection, promoted })
            },
            DecodedView::Complete { frame, used } => {
                let (link, indication) = peer.link.on_frame(frame);
                self.after_indication(
                    i,
                    PeerView { link, pending: peer.pending.skip(used as int), ..peer },
                    indication,
                )
            },
        }
    }

    /// Time passed for the peer at `i`: its timers run. A connection that
    /// they close is gone.
    pub open spec fn tick_at(self, i: int, now: u64) -> (ServerView, ServerPolledView) {
        let peer = self.peers[i];
        let connection = MasterConnection { id: peer.id };
        let (link, indication) = peer.link.tick(now);
        match indication {
            IndicationView::Closed { reason } => {
                let (after, promoted) = self.close_peer(i);
                (after, ServerPolledView::Closed { connection, promoted })
            },
            _ => (self.with_peer(i, PeerView { link, ..peer }), ServerPolledView::Idle),
        }
    }
}

impl ServerView {
    /// Whether `i` is the place of a peer.
    pub open spec fn has_peer_at(self, i: int) -> bool {
        0 <= i < self.peers.len()
    }

    /// Octets arrived from the peer at `i`.
    pub open spec fn receive_at(self, i: int, bytes: Seq<u8>) -> ServerView {
        self.with_peer(i, PeerView { pending: self.peers[i].pending + bytes, ..self.peers[i] })
    }

    /// The server after the frames that the peer at `i` had to write were
    /// taken.
    pub open spec fn taken_at(self, i: int) -> ServerView {
        self.with_peer(
            i,
            PeerView {
                link: LinkView { out: Seq::empty(), ..self.peers[i].link },
                ..self.peers[i]
            },
        )
    }

    /// Whether the peer at `i` can send the next entry of the queue at
    /// `g`: the peer is active, its send window has room, and an entry
    /// waits.
    pub open spec fn can_send_next(self, i: int, g: int) -> bool {
        self.peers[i].is_active() && self.peers[i].link.buffer.len()
            < self.config.params.k
            && self.groups[g].queue.front() is Some
    }

    /// The peer at `i` sends the next entry of the queue at `g`. An entry
    /// that does not fit in an APDU is dropped.
    pub open spec fn send_next_at(self, i: int, g: int) -> ServerView {
        if self.can_send_next(i, g) {
            let asdu = self.groups[g].queue.front().unwrap().1;
            ServerView {
                peers: self.peers.update(
                    i,
                    PeerView {
                        link: self.peers[i].link.enqueue(asdu.encoding()),
                        ..self.peers[i]
                    },
                ),
                groups: self.groups.update(
                    g,
                    GroupView { queue: self.groups[g].queue.without_front(), ..self.groups[g] },
                ),
                ..self
            }
        } else {
            self
        }
    }

    /// Whether the ASDU is queued at high priority for the peer at `i`: it
    /// is legal, the peer is active, and the class has room.
    pub open spec fn can_reply(self, i: int, g: int, asdu: AsduView) -> bool {
        asdu.legal() && self.peers[i].is_active() && self.groups[g].queue.has_room_high()
    }

    /// The server after an answer was handed to it for the peer at `i`,
    /// whose group is at `g`.
    pub open spec fn reply_at(self, i: int, g: int, asdu: AsduView) -> ServerView {
        if self.can_reply(i, g, asdu) {
            ServerView {
                groups: self.groups.update(
                    g,
                    GroupView { queue: self.groups[g].queue.with_high(asdu), ..self.groups[g] },
                ),
                ..self
            }
        } else {
            self
        }
    }

    /// The server after spontaneous data was handed to it: a legal ASDU
    /// goes into the low-priority class of every group.
    pub open spec fn enqueue(self, asdu: AsduView) -> ServerView {
        if asdu.legal() {
            ServerView {
                groups: Seq::new(
                    self.groups.len(),
                    |g: int|
                        GroupView {
                            queue: self.groups[g].queue.with_low(asdu),
                            ..self.groups[g]
                        },
                ),
                ..self
            }
        } else {
            self
        }
    }

    /// Whether the queue of some group drops an entry for the ASDU.
    pub open spec fn overflows(self, asdu: AsduView) -> bool {
        exists|g: int|
            0 <= g < self.groups.len() && (#[trigger] self.groups[g]).queue.evicted_by(asdu)
                is Some
    }

    /// What becomes of spontaneous data that is handed to the server.
    pub open spec fn enqueued(self, asdu: AsduView) -> Enqueued {
        if !asdu.legal() {
            Enqueued::Rejected
        } else if self.overflows(asdu) {
            Enqueued::Overflowed
        } else {
            Enqueued::Queued
        }
    }

    /// The server after it was stopped: it does not run, its peers are
    /// gone, and its queues are empty.
    pub open spec fn stopped(self) -> ServerView {
        ServerView {
            running: false,
            peers: Seq::empty(),
            groups: Self::initial(self.config).groups,
            ..self
        }
    }

    /// The single-point information that `send_single_point` queues.
    pub open spec fn single_point(
        cot: CauseOfTransmission,
        ca: u16,
        point: SinglePoint,
    ) -> AsduView {
        single_object(TypeId::SinglePoint, cot, 0, ca, point.ioa, seq![point.octet()])
    }

    /// The scaled measured value that `send_measured_scaled` queues.
    pub open spec fn measured_scaled(
        cot: CauseOfTransmission,
        ca: u16,
        value: MeasuredScaled,
    ) -> AsduView {
        single_object(TypeId::MeasuredScaled, cot, 0, ca, value.ioa, value.octets())
    }

    /// The short floating point measured value that `send_measured_float`
    /// queues.
    pub open spec fn measured_float(
        cot: CauseOfTransmission,
        ca: u16,
        value: MeasuredFloat,
    ) -> AsduView {
        single_object(TypeId::MeasuredFloat, cot, 0, ca, value.ioa, value.octets())
    }
}

} // verus!
