//! The server (controlled station, slave): the connections of its peers,
//! their admission to data transfer, and the outbound queues.
//!
//! Peers are gathered in redundancy groups. In each group at most one peer
//! has data transfer started; a peer that asks to start while another of
//! its group is active waits, and takes over when the group has no active
//! peer any more. Which group a peer belongs to follows from the server
//! mode: one group for all, one group for each connection, or the group
//! that the owner names when the peer connects.
//!
//! A `Server` does no I/O. Its owner accepts channels and tells the server
//! (`accept`), hands it the octets that arrive on each (`receive`) and the
//! time (`tick`), asks it what the octets meant (`poll`, one frame at a
//! time), lets it send what is queued (`send_next`) and writes what it
//! wants written (`take_output`). `model` holds the server as a
//! mathematical value, `ServerView`; `laws` holds what is proved of it.

pub mod laws;
pub mod model;

use vstd::prelude::*;
use crate::apci::{encode_all, encode_frames, Decoded, Frame, FrameReader, FrameView};
use crate::asdu::{element_within_payload, Asdu, AsduError, AsduView};
use crate::bytes::copy_of;
use crate::client::{check_host_name, default_parameters, is_host_name, single_object_asdu};
use crate::info::{MeasuredFloat, MeasuredScaled, SinglePoint};
use crate::link::laws::{enqueue_keeps_state, passive_machine_under_frames};
use crate::link::{ApciParameters, Indication, Link, LinkState};
use crate::queue::{capacity_of, fifo_within_class, OutboundQueue};
use crate::server::laws::{
    accept_keeps_wf, first_pending_is, group_index_is, peer_index_is, poll_keeps_wf,
    promote_restores_wf, queues_keep_wf, same_activity_keeps_wf, stop_keeps_wf_but,
    tick_at_keeps_wf, without_peer_keeps_wf,
};
pub use crate::server::model::{
    GroupView, PeerView, ServerConfigView, ServerPolledView, ServerView,
};
use crate::server::model::negative_reply;
use crate::time::Timestamp;
use crate::types::{CauseOfTransmission, Quality, ServerMode, TypeId, DEFAULT_PORT};

verus! {

/// A connection from a master (client) to this server: the name under which
/// the server knows one of its peers.
///
/// It is handed out when the peer connects and with what arrives from the
/// peer, and is used to send responses. Once the peer's connection is
/// closed the name stands for nothing: what is sent under it is refused.
#[derive(Debug, Clone, Copy, PartialEq, Eq, Hash, Structural)]
pub struct MasterConnection {
    /// The number of the connection, counted from when the server was built
    pub id: u32,
}

impl MasterConnection {
    /// Send an ASDU to this connection: it is queued at high priority (see
    /// `Server::send_asdu`).
    pub fn send_asdu(&self, server: &mut Server, asdu: &Asdu) -> (queued: bool)
        requires
            old(server)@.wf(),
        ensures
            final(server)@.wf(),
            match old(server)@.peer_index(self.id) {
                Some(i) => {
                    let g = old(server)@.group_index(old(server)@.peers[i].group).unwrap();
                    queued == old(server)@.can_reply(i, g, asdu@) && final(server)@ == old(
                        server,
                    )@.reply_at(i, g, asdu@)
                },
                None => !queued && final(server)@ == old(server)@,
            },
    {
        server.send_asdu(*self, asdu)
    }

    /// Send an activation confirmation (ACT_CON).
    ///
    /// `negative` should be `true` for negative confirmation.
    pub fn send_act_con(&self, server: &mut Server, asdu: &Asdu, negative: bool) -> (queued: bool)
        requires
            old(server)@.wf(),
        ensures
            final(server)@.wf(),
            ({
                let answer = AsduView {
                    cause: CauseOfTransmission::ActivationCon.raw_value() as u8,
                    negative,
                    ..asdu@
                };
                match old(server)@.peer_index(self.id) {
                    Some(i) => {
                        let g = old(server)@.group_index(old(server)@.peers[i].group).unwrap();
                        queued == old(server)@.can_reply(i, g, answer) && final(server)@ == old(
                            server,
                        )@.reply_at(i, g, answer)
                    },
                    None => !queued && final(server)@ == old(server)@,
                }
            }),
    {
        server.send_act_con(*self, asdu, negative)
    }

    /// Send an activation termination (ACT_TERM).
    pub fn send_act_term(&self, server: &mut Server, asdu: &Asdu) -> (queued: bool)
        requires
            old(server)@.wf(),
        ensures
            final(server)@.wf(),
            ({
                let answer = AsduView {
                    cause: CauseOfTransmission::ActivationTermination.raw_value() as u8,
                    negative: false,
                    ..asdu@
                };
                match old(server)@.peer_index(self.id) {
                    Some(i) => {
                        let g = old(server)@.group_index(old(server)@.peers[i].group).unwrap();
                        queued == old(server)@.can_reply(i, g, answer) && final(server)@ == old(
                            server,
                        )@.reply_at(i, g, answer)
                    },
                    None => !queued && final(server)@ == old(server)@,
                }
            }),
    {
        server.send_act_term(*self, asdu)
    }
}

/// What the next frame in front of a peer meant.
#[derive(Debug)]
pub enum ServerPolled {
    /// No complete frame has arrived, or the connection is not known:
    /// there is nothing to do until more octets arrive.
    Idle,
    /// A frame was read and dealt with; there is nothing to report.
    Progress,
    /// The peer was admitted to data transfer.
    Activated { connection: MasterConnection },
    /// The peer stopped data transfer. Where another peer of its group
    /// waited to start, that peer was admitted.
    Deactivated { connection: MasterConnection, promoted: Option<MasterConnection> },
    /// The connection was closed and is gone. Where the group lost its
    /// active peer and another waited to start, that peer was admitted.
    Closed { connection: MasterConnection, promoted: Option<MasterConnection> },
    /// An interrogation command arrived.
    Interrogation { connection: MasterConnection, asdu: Asdu, qoi: u8 },
    /// A clock synchronization command arrived.
    ClockSync { connection: MasterConnection, asdu: Asdu, time: Timestamp },
    /// Another ASDU of a supported type arrived.
    Asdu { connection: MasterConnection, asdu: Asdu },
    /// An ASDU of a type that is not supported arrived. It was answered
    /// with a negative activation confirmation, where the send window had
    /// room.
    Rejected { connection: MasterConnection, asdu: Asdu },
    /// An I-frame arrived whose content is no legal ASDU. It was counted
    /// and dropped; the connection stays open.
    Dropped { connection: MasterConnection, error: AsduError },
}

impl View for ServerPolled {
    type V = ServerPolledView;

    open spec fn view(&self) -> ServerPolledView {
        match *self {
            ServerPolled::Idle => ServerPolledView::Idle,
            ServerPolled::Progress => ServerPolledView::Progress,
            ServerPolled::Activated { connection } => ServerPolledView::Activated { connection },
            ServerPolled::Deactivated { connection, promoted } => ServerPolledView::Deactivated {
                connection,
                promoted,
            },
            ServerPolled::Closed { connection, promoted } => ServerPolledView::Closed {
                connection,
                promoted,
            },
            ServerPolled::Interrogation { connection, asdu, qoi } => ServerPolledView::Interrogation {
                connection,
                asdu: asdu@,
                qoi,
            },
            ServerPolled::ClockSync { connection, asdu, time } => ServerPolledView::ClockSync {
                connection,
                asdu: asdu@,
                time: time@,
            },
            ServerPolled::Asdu { connection, asdu } => ServerPolledView::Asdu {
                connection,
                asdu: asdu@,
            },
            ServerPolled::Rejected { connection, asdu } => ServerPolledView::Rejected {
                connection,
                asdu: asdu@,
            },
            ServerPolled::Dropped { connection, error } => ServerPolledView::Dropped {
                connection,
                error,
            },
        }
    }
}

/// What became of an ASDU that was handed to the server for its queues.
#[derive(Debug, Clone, Copy, PartialEq, Eq, Hash, Structural)]
pub enum Enqueued {
    /// The ASDU is not legal: nothing was queued.
    Rejected,
    /// The ASDU waits in the queue of every group.
    Queued,
    /// The ASDU was handed to every group, and the queue of at least one
    /// group dropped an entry for it.
    Overflowed,
}

/// Builder for creating a server.
#[derive(Debug)]
pub struct ServerBuilder {
    max_low_priority_queue: i32,
    max_high_priority_queue: i32,
    local_address: String,
    local_port: i32,
    server_mode: ServerMode,
    params: ApciParameters,
}

impl View for ServerBuilder {
    type V = ServerConfigView;

    closed spec fn view(&self) -> ServerConfigView {
        ServerConfigView {
            max_low_priority_queue: self.max_low_priority_queue,
            max_high_priority_queue: self.max_high_priority_queue,
            local_address: self.local_address@,
            local_port: self.local_port,
            server_mode: self.server_mode,
            params: self.params,
        }
    }
}

impl ServerBuilder {
    /// Create a new server builder with default settings: queues of 10
    /// entries in each class, all local addresses, port 2404, a single
    /// redundancy group.
    pub fn new() -> (b: Self)
        ensures
            b@ == (ServerConfigView {
                max_low_priority_queue: 10,
                max_high_priority_queue: 10,
                local_address: "0.0.0.0"@,
                local_port: 2404,
                server_mode: ServerMode::SingleRedundancyGroup,
                params: default_parameters(),
            }),
    {
        ServerBuilder {
            max_low_priority_queue: 10,
            max_high_priority_queue: 10,
            local_address: "0.0.0.0".to_owned(),
            local_port: DEFAULT_PORT as i32,
            server_mode: ServerMode::SingleRedundancyGroup,
            params: ApciParameters::default(),
        }
    }

    /// Set the maximum queue sizes. A negative size stands for no room.
    pub fn queue_sizes(self, low_priority: i32, high_priority: i32) -> (b: Self)
        ensures
            b@ == (ServerConfigView {
                max_low_priority_queue: low_priority,
                max_high_priority_queue: high_priority,
                ..self@
            }),
    {
        let mut b = self;
        b.max_low_priority_queue = low_priority;
        b.max_high_priority_queue = high_priority;
        b
    }

    /// Set the local address to bind to.
    pub fn local_address(self, address: &str) -> (b: Self)
        ensures
            b@ == (ServerConfigView { local_address: address@, ..self@ }),
    {
        let mut b = self;
        b.local_address = address.to_owned();
        b
    }

    /// Set the local port to listen on.
    pub fn local_port(self, port: u16) -> (b: Self)
        ensures
            b@ == (ServerConfigView { local_port: port as i32, ..self@ }),
    {
        let mut b = self;
        b.local_port = port as i32;
        b
    }

    /// Set the server mode.
    pub fn server_mode(self, mode: ServerMode) -> (b: Self)
        ensures
            b@ == (ServerConfigView { server_mode: mode, ..self@ }),
    {
        let mut b = self;
        b.server_mode = mode;
        b
    }

    /// Set the window sizes and timers of every connection.
    pub fn apci_parameters(self, params: ApciParameters) -> (b: Self)
        ensures
            b@ == (ServerConfigView { params, ..self@ }),
    {
        let mut b = self;
        b.params = params;
        b
    }

    /// Build the server: not running, without peers. `None` where the
    /// local address is empty or holds a NUL character, or the protocol
    /// does not admit the window sizes and timers.
    pub fn build(self) -> (r: Option<Server>)
        ensures
            r is Some == (is_host_name(self@.local_address) && self@.params.valid()),
            r matches Some(s) ==> s@ == ServerView::initial(self@) && s@.wf(),
    {
        if !check_host_name(self.local_address.as_str()) || !self.params.is_valid() {
            return None;
        }
        let mut groups: Vec<Group> = Vec::new();
        if self.server_mode == ServerMode::SingleRedundancyGroup {
            groups.push(
                Group {
                    key: 0,
                    queue: OutboundQueue::new(
                        capacity(self.max_low_priority_queue),
                        capacity(self.max_high_priority_queue),
                    ),
                },
            );
        }
        let server = Server {
            max_low_priority_queue: self.max_low_priority_queue,
            max_high_priority_queue: self.max_high_priority_queue,
            local_address: self.local_address,
            local_port: self.local_port,
            server_mode: self.server_mode,
            params: self.params,
            running: false,
            peers: Vec::new(),
            groups,
            next_id: 0,
        };
        assert(server@.peers =~= Seq::<PeerView>::empty());
        assert(server@.groups =~= ServerView::initial(self@).groups);
        Some(server)
    }
}

impl Default for ServerBuilder {
    fn default() -> (b: Self)
        ensures
            b@ == (ServerConfigView {
                max_low_priority_queue: 10,
                max_high_priority_queue: 10,
                local_address: "0.0.0.0"@,
                local_port: 2404,
                server_mode: ServerMode::SingleRedundancyGroup,
                params: default_parameters(),
            }),
    {
        ServerBuilder::new()
    }
}

/// A server.
#[derive(Debug)]
pub struct Server {
    max_low_priority_queue: i32,
    max_high_priority_queue: i32,
    local_address: String,
    local_port: i32,
    server_mode: ServerMode,
    params: ApciParameters,
    running: bool,
    peers: Vec<Peer>,
    groups: Vec<Group>,
    next_id: u32,
}

impl View for Server {
    type V = ServerView;

    closed spec fn view(&self) -> ServerView {
        ServerView {
            config: ServerConfigView {
                max_low_priority_queue: self.max_low_priority_queue,
                max_high_priority_queue: self.max_high_priority_queue,
                local_address: self.local_address@,
                local_port: self.local_port,
                server_mode: self.server_mode,
                params: self.params,
            },
            running: self.running,
            peers: self.peers@.map_values(|p: Peer| p@),
            groups: self.groups@.map_values(|g: Group| g@),
            next_id: self.next_id,
        }
    }
}

impl Server {
    /// Create a new server with default settings.
    pub fn new() -> (r: Option<Self>)
        ensures
            r matches Some(s) && s@.wf() && s@ == ServerView::initial(
                ServerConfigView {
                    max_low_priority_queue: 10,
                    max_high_priority_queue: 10,
                    local_address: "0.0.0.0"@,
                    local_port: 2404,
                    server_mode: ServerMode::SingleRedundancyGroup,
                    params: default_parameters(),
                },
            ),
    {
        proof {
            reveal_strlit("0.0.0.0");
        }
        ServerBuilder::new().build()
    }

    /// Start the server: from now on peers can connect.
    pub fn start(&mut self)
        requires
            old(self)@.wf(),
        ensures
            final(self)@ == (ServerView { running: true, ..old(self)@ }),
            final(self)@.wf(),
    {
        self.running = true;
        proof {
            queues_keep_wf(old(self)@, self@);
        }
    }

    /// Stop the server: no peer can connect any more, the peers that are
    /// connected are gone, and the queues are empty. The owner closes the
    /// channels.
    pub fn stop(&mut self)
        requires
            old(self)@.wf(),
        ensures
            final(self)@ == old(self)@.stopped(),
            final(self)@.wf(),
    {
        self.running = false;
        self.peers = Vec::new();
        let mut groups: Vec<Group> = Vec::new();
        if self.server_mode == ServerMode::SingleRedundancyGroup {
            groups.push(
                Group {
                    key: 0,
                    queue: OutboundQueue::new(
                        capacity(self.max_low_priority_queue),
                        capacity(self.max_high_priority_queue),
                    ),
                },
            );
        }
        self.groups = groups;
        assert(self@.peers =~= Seq::<PeerView>::empty());
        assert(self@.groups =~= ServerView::initial(old(self)@.config).groups);
    }

    /// Whether the server admits peers.
    pub fn is_running(&self) -> (r: bool)
        ensures
            r == self@.running,
    {
        self.running
    }

    /// The server mode.
    pub fn server_mode(&self) -> (m: ServerMode)
        ensures
            m == self@.config.server_mode,
    {
        self.server_mode
    }

    /// The local address to bind to.
    pub fn local_address(&self) -> (a: &str)
        ensures
            a@ == self@.config.local_address,
    {
        self.local_address.as_str()
    }

    /// The local port to listen on.
    pub fn local_port(&self) -> (p: i32)
        ensures
            p == self@.config.local_port,
    {
        self.local_port
    }

    /// A peer connected at `now`. In the mode of several redundancy groups
    /// `key` names its group; in the other modes the key has no meaning.
    /// The result names the connection; `None` where the server is not
    /// running or has no number left to give.
    pub fn accept(&mut self, key: u32, now: u64) -> (r: Option<MasterConnection>)
        requires
            old(self)@.wf(),
        ensures
            final(self)@ == old(self)@.accept(key, now),
            final(self)@.wf(),
            match r {
                Some(c) => old(self)@.can_accept() && c.id == old(self)@.next_id,
                None => !old(self)@.can_accept(),
            },
    {
        proof {
            accept_keeps_wf(self@, key, now);
        }
        if !self.running || self.next_id == u32::MAX {
            return None;
        }
        let id: u32 = self.next_id;
        let group: u32 = match self.server_mode {
            ServerMode::SingleRedundancyGroup => 0,
            ServerMode::ConnectionIsRedundancyGroup => id,
            ServerMode::MultipleRedundancyGroups => key,
        };
        let mut link: Link = match Link::new(self.params, now) {
            Some(link) => link,
            None => {
                return None;
            },
        };
        link.open();
        if self.find_group(group).is_none() {
            self.groups.push(
                Group {
                    key: group,
                    queue: OutboundQueue::new(
                        capacity(self.max_low_priority_queue),
                        capacity(self.max_high_priority_queue),
                    ),
                },
            );
        }
        self.peers.push(
            Peer {
                id,
                group,
                link,
                reader: FrameReader::new(),
                start_pending: false,
                dropped: 0,
            },
        );
        self.next_id = id + 1;
        assert(self@.peers =~= old(self)@.accept(key, now).peers);
        assert(self@.groups =~= old(self)@.accept(key, now).groups);
        Some(MasterConnection { id })
    }

    /// Octets arrived from a peer. They wait until `poll` reads them. What
    /// arrives under a name that stands for no connection is dropped.
    pub fn receive(&mut self, connection: MasterConnection, bytes: &[u8])
        requires
            old(self)@.wf(),
        ensures
            final(self)@.wf(),
            match old(self)@.peer_index(connection.id) {
                Some(i) => final(self)@ == old(self)@.receive_at(i, bytes@),
                None => final(self)@ == old(self)@,
            },
    {
        match self.find_peer(connection.id) {
            Some(i) => {
                let mut peer = self.take_peer(i);
                peer.reader.push(bytes);
                self.put_peer(i, peer);
                assert(self@.peers =~= old(self)@.receive_at(i as int, bytes@).peers);
                proof {
                    same_activity_keeps_wf(
                        old(self)@,
                        i as int,
                        self@.peers[i as int],
                        self@.peers[i as int].group,
                    );
                }
            },
            None => {},
        }
    }

    /// Read the next frame that has arrived from a peer and tell what it
    /// meant. The owner calls this until it returns `Idle`.
    pub fn poll(&mut self, connection: MasterConnection) -> (r: ServerPolled)
        requires
            old(self)@.wf(),
        ensures
            final(self)@.wf(),
            match old(self)@.peer_index(connection.id) {
                Some(i) => (final(self)@, r@) == old(self)@.poll_at(i),
                None => final(self)@ == old(self)@ && r@ is Idle,
            },
    {
        let i: usize = match self.find_peer(connection.id) {
            Some(i) => i,
            None => {
                return ServerPolled::Idle;
            },
        };
        proof {
            poll_keeps_wf(self@, i as int);
        }
        let group: u32 = self.peers[i].group;
        let other_active: bool = self.has_other_active(group, Some(i));
        let ghost before = self@;
        let mut peer = self.take_peer(i);
        let connection = MasterConnection { id: peer.id };
        match peer.reader.next_frame() {
            Decoded::Incomplete => {
                self.put_peer(i, peer);
                assert(self@.peers =~= before.peers);
                ServerPolled::Idle
            },
            Decoded::Invalid { error: _ } => {
                let promoted = self.finish_close(group, Ghost(before), Ghost(i as int));
                ServerPolled::Closed { connection, promoted }
            },
            Decoded::Complete { frame, used: _ } => {
                let ghost seen = frame@;
                let indication = peer.link.handle_frame(frame);
                self.apply_indication(
                    i,
                    peer,
                    indication,
                    other_active,
                    Ghost(before),
                    Ghost(seen),
                )
            },
        }
    }

    /// Time passed for a peer: its timers run. The result is `Closed`
    /// where they close the connection and `Idle` otherwise.
    pub fn tick(&mut self, connection: MasterConnection, now: u64) -> (r: ServerPolled)
        requires
            old(self)@.wf(),
        ensures
            final(self)@.wf(),
            match old(self)@.peer_index(connection.id) {
                Some(i) => (final(self)@, r@) == old(self)@.tick_at(i, now),
                None => final(self)@ == old(self)@ && r@ is Idle,
            },
    {
        let i: usize = match self.find_peer(connection.id) {
            Some(i) => i,
            None => {
                return ServerPolled::Idle;
            },
        };
        proof {
            tick_at_keeps_wf(self@, i as int, now);
        }
        let ghost before = self@;
        let mut peer = self.take_peer(i);
        let group: u32 = peer.group;
        let connection = MasterConnection { id: peer.id };
        match peer.link.tick(now) {
            Indication::Closed { reason: _ } => {
                let promoted = self.finish_close(group, Ghost(before), Ghost(i as int));
                ServerPolled::Closed { connection, promoted }
            },
            _ => {
                self.put_peer(i, peer);
                assert(self@.peers =~= before.tick_at(i as int, now).0.peers);
                ServerPolled::Idle
            },
        }
    }

    /// The channel of a peer was closed: the peer is gone, and where its
    /// group is left without active peer, the first peer of the group that
    /// waits to start is admitted. The result names the peer that was
    /// admitted.
    pub fn connection_closed(&mut self, connection: MasterConnection) -> (promoted: Option<
        MasterConnection,
    >)
        requires
            old(self)@.wf(),
        ensures
            final(self)@.wf(),
            match old(self)@.peer_index(connection.id) {
                Some(i) => (final(self)@, promoted) == old(self)@.close_peer(i),
                None => final(self)@ == old(self)@ && promoted is None,
            },
    {
        let i: usize = match self.find_peer(connection.id) {
            Some(i) => i,
            None => {
                return None;
            },
        };
        let ghost before = self@;
        let peer = self.take_peer(i);
        self.finish_close(peer.group, Ghost(before), Ghost(i as int))
    }

    /// Take the octets to write to the channel of a peer: the frames that
    /// wait, one APDU after the other.
    pub fn take_output(&mut self, connection: MasterConnection) -> (out: Vec<u8>)
        requires
            old(self)@.wf(),
        ensures
            final(self)@.wf(),
            match old(self)@.peer_index(connection.id) {
                Some(i) => out@ == encode_all(old(self)@.peers[i].link.out) && final(self)@
                    == old(self)@.taken_at(i),
                None => out@.len() == 0 && final(self)@ == old(self)@,
            },
    {
        match self.find_peer(connection.id) {
            Some(i) => {
                let mut peer = self.take_peer(i);
                let frames: Vec<Frame> = peer.link.take_frames();
                self.put_peer(i, peer);
                assert(self@.peers =~= old(self)@.taken_at(i as int).peers);
                proof {
                    same_activity_keeps_wf(
                        old(self)@,
                        i as int,
                        self@.peers[i as int],
                        self@.peers[i as int].group,
                    );
                }
                encode_frames(&frames)
            },
            None => Vec::new(),
        }
    }

    /// Let a peer send the next ASDU that waits in the queue of its group:
    /// the oldest of high priority, or where there is none the oldest of
    /// low priority. Returns `false`, with nothing changed, where the peer
    /// is not active, its send window is full or nothing waits. The owner
    /// calls this until it returns `false`.
    pub fn send_next(&mut self, connection: MasterConnection) -> (sent: bool)
        requires
            old(self)@.wf(),
        ensures
            final(self)@.wf(),
            match old(self)@.peer_index(connection.id) {
                Some(i) => {
                    let g = old(self)@.group_index(old(self)@.peers[i].group).unwrap();
                    sent == old(self)@.can_send_next(i, g) && final(self)@ == old(
                        self,
                    )@.send_next_at(i, g)
                },
                None => !sent && final(self)@ == old(self)@,
            },
    {
        let i: usize = match self.find_peer(connection.id) {
            Some(i) => i,
            None => {
                return false;
            },
        };
        let g: usize = match self.find_group(self.peers[i].group) {
            Some(g) => g,
            None => {
                return false;
            },
        };
        if self.peers[i].link.state() != LinkState::Started || self.peers[i].link.is_window_full()
            || self.groups[g].queue.is_empty() {
            return false;
        }
        let ghost before = self@;
        let mut group = self.take_group(g);
        let entry = group.queue.dequeue();
        self.put_group(g, group);
        match entry {
            Some((_, asdu)) => {
                let bytes: Vec<u8> = asdu.encode();
                let mut peer = self.take_peer(i);
                let _ = peer.link.enqueue(bytes.as_slice());
                self.put_peer(i, peer);
                assert(self@.peers =~= before.send_next_at(i as int, g as int).peers);
                assert(self@.groups =~= before.send_next_at(i as int, g as int).groups);
                proof {
                    enqueue_keeps_state(before.peers[i as int].link, bytes@);
                    queues_keep_wf(before, self@);
                }
                true
            },
            None => false,
        }
    }

    /// Enqueue an ASDU to be sent to all connected clients.
    ///
    /// This is used to send spontaneous data updates: the ASDU goes into
    /// the low-priority class of the queue of every redundancy group. The
    /// result says whether it was queued, and whether a queue dropped an
    /// entry for it.
    pub fn enqueue_asdu(&mut self, asdu: &Asdu) -> (r: Enqueued)
        requires
            old(self)@.wf(),
        ensures
            final(self)@.wf(),
            final(self)@ == old(self)@.enqueue(asdu@),
            r == old(self)@.enqueued(asdu@),
    {
        if !asdu.is_legal() {
            return Enqueued::Rejected;
        }
        let ghost before = self@;
        let mut overflowed: bool = false;
        let mut g: usize = 0;
        while g < self.groups.len()
            invariant
                before.wf(),
                g <= self@.groups.len(),
                self@.groups.len() == before.groups.len(),
                self@.config == before.config,
                self@.running == before.running,
                self@.next_id == before.next_id,
                self@.peers == before.peers,
                forall|h: int|
                    0 <= h < g ==> #[trigger] self@.groups[h] == (GroupView {
                        queue: before.groups[h].queue.with_low(asdu@),
                        ..before.groups[h]
                    }),
                forall|h: int| g <= h < self@.groups.len() ==> #[trigger] self@.groups[h] == before.groups[h],
                overflowed == exists|h: int|
                    0 <= h < g && (#[trigger] before.groups[h]).queue.evicted_by(asdu@) is Some,
            decreases self@.groups.len() - g,
        {
            let ghost at_start = self@;
            let mut group = self.take_group(g);
            let evicted: Option<Asdu> = group.queue.enqueue_low(asdu.clone());
            if evicted.is_some() {
                overflowed = true;
            }
            self.put_group(g, group);
            assert(self@.groups =~= at_start.groups.update(
                g as int,
                GroupView {
                    queue: before.groups[g as int].queue.with_low(asdu@),
                    ..before.groups[g as int]
                },
            ));
            g = g + 1;
        }
        assert(self@.groups =~= before.enqueue(asdu@).groups);
        proof {
            assert forall|h: int| 0 <= h < before.groups.len() implies (#[trigger] before.groups[h]).queue.with_low(
                asdu@,
            ).wf() by {
                fifo_within_class(before.groups[h].queue, asdu@);
            }
            queues_keep_wf(before, self@);
        }
        if overflowed {
            Enqueued::Overflowed
        } else {
            Enqueued::Queued
        }
    }

    /// Send a single-point information value.
    ///
    /// This is a convenience method that creates and enqueues an ASDU with
    /// the one object. An address of more than three octets is rejected.
    pub fn send_single_point(
        &mut self,
        cot: CauseOfTransmission,
        ca: u16,
        ioa: u32,
        value: bool,
        quality: Quality,
    ) -> (r: Enqueued)
        requires
            old(self)@.wf(),
        ensures
            final(self)@.wf(),
            ({
                let asdu = ServerView::single_point(cot, ca, SinglePoint { ioa, value, quality });
                if ioa <= 0xFF_FFFF {
                    final(self)@ == old(self)@.enqueue(asdu) && r == old(self)@.enqueued(asdu)
                } else {
                    final(self)@ == old(self)@ && r == Enqueued::Rejected
                }
            }),
    {
        if ioa > 0xFF_FFFF {
            return Enqueued::Rejected;
        }
        let body: Vec<u8> = (SinglePoint { ioa, value, quality }).to_raw();
        let asdu = single_object_asdu(TypeId::SinglePoint, cot, 0, ca, ioa, body.as_slice());
        self.enqueue_asdu(&asdu)
    }

    /// Send a measured scaled value.
    ///
    /// This is a convenience method that creates and enqueues an ASDU with
    /// the one object. An address of more than three octets is rejected.
    pub fn send_measured_scaled(
        &mut self,
        cot: CauseOfTransmission,
        ca: u16,
        ioa: u32,
        value: i16,
        quality: Quality,
    ) -> (r: Enqueued)
        requires
            old(self)@.wf(),
        ensures
            final(self)@.wf(),
            ({
                let asdu = ServerView::measured_scaled(
                    cot,
                    ca,
                    MeasuredScaled { ioa, value, quality },
                );
                if ioa <= 0xFF_FFFF {
                    final(self)@ == old(self)@.enqueue(asdu) && r == old(self)@.enqueued(asdu)
                } else {
                    final(self)@ == old(self)@ && r == Enqueued::Rejected
                }
            }),
    {
        if ioa > 0xFF_FFFF {
            return Enqueued::Rejected;
        }
        let body: Vec<u8> = (MeasuredScaled { ioa, value, quality }).to_raw();
        let asdu = single_object_asdu(TypeId::MeasuredScaled, cot, 0, ca, ioa, body.as_slice());
        self.enqueue_asdu(&asdu)
    }

    /// Send a measured float value, given as the bits of the IEEE 754
    /// single-precision number.
    ///
    /// This is a convenience method that creates and enqueues an ASDU with
    /// the one object. An address of more than three octets is rejected.
    pub fn send_measured_float(
        &mut self,
        cot: CauseOfTransmission,
        ca: u16,
        ioa: u32,
        value: u32,
        quality: Quality,
    ) -> (r: Enqueued)
        requires
            old(self)@.wf(),
        ensures
            final(self)@.wf(),
            ({
                let asdu = ServerView::measured_float(
                    cot,
                    ca,
                    MeasuredFloat { ioa, value, quality },
                );
                if ioa <= 0xFF_FFFF {
                    final(self)@ == old(self)@.enqueue(asdu) && r == old(self)@.enqueued(asdu)
                } else {
                    final(self)@ == old(self)@ && r == Enqueued::Rejected
                }
            }),
    {
        if ioa > 0xFF_FFFF {
            return Enqueued::Rejected;
        }
        let body: Vec<u8> = (MeasuredFloat { ioa, value, quality }).to_raw();
        let asdu = single_object_asdu(TypeId::MeasuredFloat, cot, 0, ca, ioa, body.as_slice());
        self.enqueue_asdu(&asdu)
    }

    /// Queue an answer for a peer, at high priority. Returns `false`, with
    /// nothing changed, where the connection is not known or not active,
    /// the ASDU is not legal or the high-priority class is full.
    pub fn send_asdu(&mut self, connection: MasterConnection, asdu: &Asdu) -> (queued: bool)
        requires
            old(self)@.wf(),
        ensures
            final(self)@.wf(),
            match old(self)@.peer_index(connection.id) {
                Some(i) => {
                    let g = old(self)@.group_index(old(self)@.peers[i].group).unwrap();
                    queued == old(self)@.can_reply(i, g, asdu@) && final(self)@ == old(
                        self,
                    )@.reply_at(i, g, asdu@)
                },
                None => !queued && final(self)@ == old(self)@,
            },
    {
        let i: usize = match self.find_peer(connection.id) {
            Some(i) => i,
            None => {
                return false;
            },
        };
        let g: usize = match self.find_group(self.peers[i].group) {
            Some(g) => g,
            None => {
                return false;
            },
        };
        if !asdu.is_legal() || self.peers[i].link.state() != LinkState::Started {
            return false;
        }
        let ghost before = self@;
        let mut group = self.take_group(g);
        let queued: bool = group.queue.enqueue_high(asdu.clone());
        self.put_group(g, group);
        assert(self@.groups =~= before.reply_at(i as int, g as int, asdu@).groups);
        proof {
            queues_keep_wf(before, self@);
        }
        queued
    }

    /// Queue an activation confirmation (ACT_CON) for a peer: the ASDU
    /// with the cause "activation confirmation" and the negative flag as
    /// given.
    pub fn send_act_con(&mut self, connection: MasterConnection, asdu: &Asdu, negative: bool) -> (queued:
        bool)
        requires
            old(self)@.wf(),
        ensures
            final(self)@.wf(),
            ({
                let answer = AsduView {
                    cause: CauseOfTransmission::ActivationCon.raw_value() as u8,
                    negative,
                    ..asdu@
                };
                match old(self)@.peer_index(connection.id) {
                    Some(i) => {
                        let g = old(self)@.group_index(old(self)@.peers[i].group).unwrap();
                        queued == old(self)@.can_reply(i, g, answer) && final(self)@ == old(
                            self,
                        )@.reply_at(i, g, answer)
                    },
                    None => !queued && final(self)@ == old(self)@,
                }
            }),
    {
        let mut answer: Asdu = asdu.clone();
        answer.set_cot(CauseOfTransmission::ActivationCon);
        answer.set_negative(negative);
        self.send_asdu(connection, &answer)
    }

    /// Queue an activation termination (ACT_TERM) for a peer: the ASDU
    /// with the cause "activation termination", not negative.
    pub fn send_act_term(&mut self, connection: MasterConnection, asdu: &Asdu) -> (queued: bool)
        requires
            old(self)@.wf(),
        ensures
            final(self)@.wf(),
            ({
                let answer = AsduView {
                    cause: CauseOfTransmission::ActivationTermination.raw_value() as u8,
                    negative: false,
                    ..asdu@
                };
                match old(self)@.peer_index(connection.id) {
                    Some(i) => {
                        let g = old(self)@.group_index(old(self)@.peers[i].group).unwrap();
                        queued == old(self)@.can_reply(i, g, answer) && final(self)@ == old(
                            self,
                        )@.reply_at(i, g, answer)
                    },
                    None => !queued && final(self)@ == old(self)@,
                }
            }),
    {
        let mut answer: Asdu = asdu.clone();
        answer.set_cot(CauseOfTransmission::ActivationTermination);
        answer.set_negative(false);
        self.send_asdu(connection, &answer)
    }

    /// Refuse a command that the application did not take: the ASDU with
    /// the cause "unknown type" and the negative flag is queued for the
    /// peer at high priority.
    pub fn refuse(&mut self, connection: MasterConnection, asdu: &Asdu) -> (queued: bool)
        requires
            old(self)@.wf(),
        ensures
            final(self)@.wf(),
            ({
                let answer = AsduView {
                    cause: CauseOfTransmission::UnknownType.raw_value() as u8,
                    negative: true,
                    ..asdu@
                };
                match old(self)@.peer_index(connection.id) {
                    Some(i) => {
                        let g = old(self)@.group_index(old(self)@.peers[i].group).unwrap();
                        queued == old(self)@.can_reply(i, g, answer) && final(self)@ == old(
                            self,
                        )@.reply_at(i, g, answer)
                    },
                    None => !queued && final(self)@ == old(self)@,
                }
            }),
    {
        let mut answer: Asdu = asdu.clone();
        answer.set_cot(CauseOfTransmission::UnknownType);
        answer.set_negative(true);
        self.send_asdu(connection, &answer)
    }

    /// The number of connected peers.
    pub fn connection_count(&self) -> (n: usize)
        ensures
            n == self@.peers.len(),
    {
        self.peers.len()
    }

    /// The connection at place `index`, in the order in which the peers
    /// connected.
    pub fn connection_at(&self, index: usize) -> (r: Option<MasterConnection>)
        ensures
            match r {
                Some(c) => index < self@.peers.len() && c.id == self@.peers[index as int].id,
                None => index >= self@.peers.len(),
            },
    {
        if index < self.peers.len() {
            Some(MasterConnection { id: self.peers[index].id })
        } else {
            None
        }
    }

    /// The data-transfer state of a connection, if it is known.
    pub fn connection_state(&self, connection: MasterConnection) -> (r: Option<LinkState>)
        requires
            self@.wf(),
        ensures
            match self@.peer_index(connection.id) {
                Some(i) => r == Some(self@.peers[i].link.state),
                None => r is None,
            },
    {
        match self.find_peer(connection.id) {
            Some(i) => Some(self.peers[i].link.state()),
            None => None,
        }
    }

    /// Whether a connection is known and waits to be admitted to data
    /// transfer.
    pub fn is_start_pending(&self, connection: MasterConnection) -> (r: bool)
        requires
            self@.wf(),
        ensures
            r == (self@.peer_index(connection.id) matches Some(i) && self@.peers[i].start_pending),
    {
        match self.find_peer(connection.id) {
            Some(i) => self.peers[i].start_pending,
            None => false,
        }
    }

    /// The number of I-frames of a connection that were dropped because
    /// their content was no legal ASDU; 0 for a connection that is not
    /// known.
    pub fn dropped_count(&self, connection: MasterConnection) -> (n: u64)
        requires
            self@.wf(),
        ensures
            match self@.peer_index(connection.id) {
                Some(i) => n == self@.peers[i].dropped,
                None => n == 0,
            },
    {
        match self.find_peer(connection.id) {
            Some(i) => self.peers[i].dropped,
            None => 0,
        }
    }
}

/// One peer of the server.
#[derive(Debug)]
pub struct Peer {
    id: u32,
    group: u32,
    link: Link,
    reader: FrameReader,
    start_pending: bool,
    dropped: u64,
}

impl View for Peer {
    type V = PeerView;

    closed spec fn view(&self) -> PeerView {
        PeerView {
            id: self.id,
            group: self.group,
            link: self.link@,
            pending: self.reader@,
            start_pending: self.start_pending,
            dropped: self.dropped,
        }
    }
}

impl Peer {
    fn deliver(&mut self, bytes: Vec<u8>) -> (r: ServerPolled)
        requires
            old(self)@.link.wf(),
        ensures
            (final(self)@, r@) == old(self)@.deliver(bytes@),
    {
        let connection = MasterConnection { id: self.id };
        match Asdu::decode(bytes.as_slice()) {
            Ok(asdu) => match asdu.type_id() {
                Some(t) => {
                    if t == TypeId::Interrogation {
                        proof {
                            element_within_payload(asdu@, t, 0);
                        }
                        let body: Vec<u8> = asdu.element_body(0);
                        let qoi: u8 = body[0];
                        ServerPolled::Interrogation { connection, asdu, qoi }
                    } else if t == TypeId::ClockSync {
                        proof {
                            element_within_payload(asdu@, t, 0);
                        }
                        match asdu.element_time(0) {
                            Some(time) => {
                                assert(time@ =~= asdu@.payload.subrange(3, 10));
                                ServerPolled::ClockSync { connection, asdu, time }
                            },
                            None => ServerPolled::Asdu { connection, asdu },
                        }
                    } else {
                        ServerPolled::Asdu { connection, asdu }
                    }
                },
                None => {
                    let reply = make_negative_reply(&bytes, CauseOfTransmission::ActivationCon);
                    let _ = self.link.enqueue(reply.as_slice());
                    ServerPolled::Rejected { connection, asdu }
                },
            },
            Err(error) => {
                if self.dropped < u64::MAX {
                    self.dropped = self.dropped + 1;
                }
                if error == AsduError::SizeMismatch {
                    match TypeId::from_raw(bytes[0] as u32) {
                        Some(t) => {
                            if is_command_type(t) {
                                let reply = make_negative_reply(
                                    &bytes,
                                    CauseOfTransmission::UnknownType,
                                );
                                let _ = self.link.enqueue(reply.as_slice());
                            }
                        },
                        None => {},
                    }
                }
                ServerPolled::Dropped { connection, error }
            },
        }
    }
}

/// One redundancy group.
#[derive(Debug)]
pub struct Group {
    key: u32,
    queue: OutboundQueue,
}

impl View for Group {
    type V = GroupView;

    closed spec fn view(&self) -> GroupView {
        GroupView { key: self.key, queue: self.queue@ }
    }
}

impl Server {
    /// The place of the peer with number `id`, if it is connected.
    fn find_peer(&self, id: u32) -> (r: Option<usize>)
        requires
            self@.peers_ok(),
        ensures
            match r {
                Some(i) => self@.peer_index(id) == Some(i as int),
                None => self@.peer_index(id) is None,
            },
            r matches Some(i) ==> self@.is_peer(i as int, id),
            r is None ==> forall|i: int| !self@.is_peer(i, id),
    {
        let mut i: usize = 0;
        while i < self.peers.len()
            invariant
                self@.peers_ok(),
                i <= self.peers@.len(),
                forall|j: int| 0 <= j < i ==> !self@.is_peer(j, id),
            decreases self.peers@.len() - i,
        {
            if self.peers[i].id == id {
                proof {
                    assert(self@.is_peer(i as int, id));
                    peer_index_is(self@, i as int, id);
                }
                return Some(i);
            }
            i = i + 1;
        }
        assert(forall|j: int| !self@.is_peer(j, id));
        None
    }

    /// The place of the group with key `key`, if there is one.
    fn find_group(&self, key: u32) -> (r: Option<usize>)
        requires
            self@.groups_ok(),
        ensures
            match r {
                Some(g) => self@.group_index(key) == Some(g as int),
                None => self@.group_index(key) is None,
            },
            r matches Some(g) ==> self@.is_group(g as int, key),
            r is None ==> forall|g: int| !self@.is_group(g, key),
    {
        let mut g: usize = 0;
        while g < self.groups.len()
            invariant
                self@.groups_ok(),
                g <= self.groups@.len(),
                forall|h: int| 0 <= h < g ==> !self@.is_group(h, key),
            decreases self.groups@.len() - g,
        {
            if self.groups[g].key == key {
                proof {
                    assert(self@.is_group(g as int, key));
                    group_index_is(self@, g as int, key);
                }
                return Some(g);
            }
            g = g + 1;
        }
        assert(forall|h: int| !self@.is_group(h, key));
        None
    }

    /// Whether `group` has an active peer, the one at `but` not counted.
    fn has_other_active(&self, group: u32, but: Option<usize>) -> (r: bool)
        ensures
            r == exists|j: int| (but matches Some(b) ==> j != b) && self@.is_active_in(j, group),
            but is None ==> r == self@.has_active(group),
    {
        let mut j: usize = 0;
        while j < self.peers.len()
            invariant
                j <= self.peers@.len(),
                forall|k: int|
                    0 <= k < j && (but matches Some(b) ==> k != b) ==> !self@.is_active_in(
                        k,
                        group,
                    ),
            decreases self.peers@.len() - j,
        {
            let excluded: bool = match but {
                Some(b) => b == j,
                None => false,
            };
            if !excluded && self.peers[j].group == group && self.peers[j].link.state()
                == LinkState::Started {
                assert(self@.is_active_in(j as int, group));
                return true;
            }
            j = j + 1;
        }
        false
    }

    /// The place of the first peer of `group` that waits to start.
    fn find_first_pending(&self, group: u32) -> (r: Option<usize>)
        ensures
            match r {
                Some(j) => self@.first_pending(group) == Some(j as int),
                None => self@.first_pending(group) is None,
            },
            r matches Some(j) ==> self@.is_first_pending(j as int, group),
    {
        let mut j: usize = 0;
        while j < self.peers.len()
            invariant
                j <= self.peers@.len(),
                forall|k: int| 0 <= k < j ==> !self@.is_pending_in(k, group),
            decreases self.peers@.len() - j,
        {
            if self.peers[j].group == group && self.peers[j].start_pending {
                proof {
                    assert(self@.is_first_pending(j as int, group));
                    first_pending_is(self@, j as int, group);
                }
                return Some(j);
            }
            j = j + 1;
        }
        assert(forall|k: int| !self@.is_first_pending(k, group));
        None
    }

    /// Take the peer at `i` out.
    fn take_peer(&mut self, i: usize) -> (peer: Peer)
        requires
            i < old(self)@.peers.len(),
        ensures
            peer@ == old(self)@.peers[i as int],
            final(self)@ == (ServerView { peers: old(self)@.peers.remove(i as int), ..old(self)@ }),
    {
        let peer = self.peers.remove(i);
        assert(self@.peers =~= old(self)@.peers.remove(i as int));
        peer
    }

    /// Put a peer in at `i`.
    fn put_peer(&mut self, i: usize, peer: Peer)
        requires
            i <= old(self)@.peers.len(),
        ensures
            final(self)@ == (ServerView {
                peers: old(self)@.peers.insert(i as int, peer@),
                ..old(self)@
            }),
    {
        self.peers.insert(i, peer);
        assert(self@.peers =~= old(self)@.peers.insert(i as int, peer@));
    }

    /// Take the group at `g` out.
    fn take_group(&mut self, g: usize) -> (group: Group)
        requires
            g < old(self)@.groups.len(),
        ensures
            group@ == old(self)@.groups[g as int],
            final(self)@ == (ServerView {
                groups: old(self)@.groups.remove(g as int),
                ..old(self)@
            }),
    {
        let group = self.groups.remove(g);
        assert(self@.groups =~= old(self)@.groups.remove(g as int));
        group
    }

    /// Put a group in at `g`.
    fn put_group(&mut self, g: usize, group: Group)
        requires
            g <= old(self)@.groups.len(),
        ensures
            final(self)@ == (ServerView {
                groups: old(self)@.groups.insert(g as int, group@),
                ..old(self)@
            }),
    {
        self.groups.insert(g, group);
        assert(self@.groups =~= old(self)@.groups.insert(g as int, group@));
    }

    /// Where `group` has no active peer, admit the first of its peers that
    /// waits to start.
    fn promote(&mut self, group: u32) -> (r: Option<MasterConnection>)
        requires
            old(self)@.wf_but(group),
        ensures
            (final(self)@, r) == old(self)@.promote(group),
            final(self)@.wf(),
    {
        proof {
            promote_restores_wf(self@, group);
        }
        if self.has_other_active(group, None) {
            return None;
        }
        match self.find_first_pending(group) {
            Some(j) => {
                let mut peer = self.take_peer(j);
                let id: u32 = peer.id;
                let _ = peer.link.confirm_start();
                peer.start_pending = false;
                self.put_peer(j, peer);
                assert(self@.peers =~= old(self)@.peers.update(
                    j as int,
                    ServerView::admitted(old(self)@.peers[j as int]),
                ));
                Some(MasterConnection { id })
            },
            None => None,
        }
    }

    /// Finish the closing of a connection whose peer, which was at `i`, is
    /// taken out already.
    fn finish_close(&mut self, group: u32, Ghost(before): Ghost<ServerView>, Ghost(i): Ghost<int>) -> (promoted:
        Option<MasterConnection>)
        requires
            before.wf(),
            0 <= i < before.peers.len(),
            before.peers[i].group == group,
            old(self)@ == (ServerView { peers: before.peers.remove(i), ..before }),
        ensures
            (final(self)@, promoted) == before.close_peer(i),
            final(self)@.wf(),
    {
        proof {
            without_peer_keeps_wf(before, i);
        }
        if self.server_mode == ServerMode::ConnectionIsRedundancyGroup {
            match position_of_group(&self.groups, group) {
                Some(g) => {
                    proof {
                        assert(before.is_group(g as int, group));
                        group_index_is(before, g as int, group);
                    }
                    let _ = self.groups.remove(g);
                    assert(self@.groups =~= before.groups.remove(g as int));
                },
                None => {
                    assert(forall|h: int| !before.is_group(h, group));
                },
            }
        }
        assert(self@ == before.without_peer(i));
        self.promote(group)
    }

    /// Deal with what the state machine of the peer that was at `i`, and is
    /// taken out, indicated.
    fn apply_indication(
        &mut self,
        i: usize,
        peer: Peer,
        indication: Indication,
        other_active: bool,
        Ghost(before): Ghost<ServerView>,
        Ghost(frame): Ghost<FrameView>,
    ) -> (r: ServerPolled)
        requires
            before.wf(),
            i < before.peers.len(),
            old(self)@ == (ServerView { peers: before.peers.remove(i as int), ..before }),
            other_active == before.has_other_active(i as int),
            (peer@.link, indication@) == before.peers[i as int].link.on_frame(frame),
            peer@.id == before.peers[i as int].id,
            peer@.group == before.peers[i as int].group,
            peer@.start_pending == before.peers[i as int].start_pending,
        ensures
            (final(self)@, r@) == before.after_indication(i as int, peer@, indication@),
    {
        let mut peer = peer;
        let ghost heard = peer@;
        let group: u32 = peer.group;
        let connection = MasterConnection { id: peer.id };
        proof {
            passive_machine_under_frames(before.peers[i as int].link, frame);
        }
        match indication {
            Indication::Closed { reason: _ } => {
                let promoted = self.finish_close(group, Ghost(before), Ghost(i as int));
                ServerPolled::Closed { connection, promoted }
            },
            Indication::StartRequested => {
                if other_active {
                    peer.start_pending = true;
                    self.put_peer(i, peer);
                    assert(self@.peers =~= before.peers.update(
                        i as int,
                        PeerView { start_pending: true, ..heard },
                    ));
                    ServerPolled::Progress
                } else {
                    let _ = peer.link.confirm_start();
                    peer.start_pending = false;
                    self.put_peer(i, peer);
                    assert(self@.peers =~= before.peers.update(
                        i as int,
                        ServerView::admitted(heard),
                    ));
                    ServerPolled::Activated { connection }
                }
            },
            Indication::StopRequested => {
                proof {
                    stop_keeps_wf_but(before, i as int, heard);
                }
                self.put_peer(i, peer);
                assert(self@.peers =~= before.peers.update(i as int, heard));
                let promoted = self.promote(group);
                ServerPolled::Deactivated { connection, promoted }
            },
            Indication::Data { asdu } => {
                let polled = peer.deliver(asdu);
                self.put_peer(i, peer);
                assert(self@.peers =~= before.peers.update(i as int, heard.deliver(asdu@).0));
                polled
            },
            _ => {
                self.put_peer(i, peer);
                assert(self@.peers =~= before.peers.update(i as int, heard));
                ServerPolled::Progress
            },
        }
    }
}

/// The capacity that a configured queue size stands for.
fn capacity(size: i32) -> (n: usize)
    ensures
        n == capacity_of(size),
{
    if size < 0 {
        0
    } else {
        size as usize
    }
}

/// The answer to a command that is not carried out.
fn make_negative_reply(bytes: &Vec<u8>, cause: CauseOfTransmission) -> (reply: Vec<u8>)
    requires
        bytes@.len() >= 3,
    ensures
        reply@ == negative_reply(bytes@, cause),
{
    let mut reply: Vec<u8> = copy_of(bytes.as_slice());
    let test: u8 = if bytes[2] >= 128 {
        128
    } else {
        0
    };
    reply.set(2, cause.as_raw() as u8 + 64 + test);
    reply
}

/// Whether the type travels in control direction.
fn is_command_type(t: TypeId) -> (r: bool)
    ensures
        r == t.is_command(),
{
    let raw: u32 = t.as_raw();
    (45 <= raw && raw <= 69) || (100 <= raw && raw <= 107)
}

/// The place of the group with key `key` among `groups`.
fn position_of_group(groups: &Vec<Group>, key: u32) -> (r: Option<usize>)
    ensures
        match r {
            Some(g) => g < groups@.len() && groups@[g as int]@.key == key,
            None => forall|h: int| 0 <= h < groups@.len() ==> groups@[h]@.key != key,
        },
{
    let mut g: usize = 0;
    while g < groups.len()
        invariant
            g <= groups@.len(),
            forall|h: int| 0 <= h < g ==> groups@[h]@.key != key,
        decreases groups@.len() - g,
    {
        if groups[g].key == key {
            return Some(g);
        }
        g = g + 1;
    }
    None
}

} // verus!
