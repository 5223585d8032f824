//! What holds of the server: its invariant, which every event keeps, and
//! the laws of admission to data transfer.

use vstd::prelude::*;
use crate::apci::{parse_frame, DecodedView};
use crate::link::laws::{
    enqueue_keeps_state, passive_machine_under_frames, passive_machine_under_time, step_keeps_wf,
};
use crate::link::model::{Event, IndicationView, LinkView};
use crate::server::model::{negative_reply, PeerView, ServerView};
use crate::types::CauseOfTransmission;

verus! {

/// Of the peers with one number there is one.
pub proof fn peer_index_is(s: ServerView, i: int, id: u32)
    requires
        s.peers_ok(),
        s.is_peer(i, id),
    ensures
        s.peer_index(id) == Some(i),
{
    let c = choose|c: int| s.is_peer(c, id);
    assert(s.peers[c].id == s.peers[i].id);
}

/// Of the groups with one key there is one.
pub proof fn group_index_is(s: ServerView, g: int, key: u32)
    requires
        s.groups_ok(),
        s.is_group(g, key),
    ensures
        s.group_index(key) == Some(g),
{
    let c = choose|c: int| s.is_group(c, key);
    assert(s.groups[c].key == s.groups[g].key);
}

/// The first peer of a group that waits to start is one peer.
pub proof fn first_pending_is(s: ServerView, j: int, group: u32)
    requires
        s.is_first_pending(j, group),
    ensures
        s.first_pending(group) == Some(j),
{
    let c = choose|c: int| s.is_first_pending(c, group);
    if c < j {
        assert(!s.is_pending_in(c, group));
    }
    if j < c {
        assert(!s.is_pending_in(j, group));
    }
}

/// Replacing a peer by one that is as active as it was, and waits to start
/// only if it did, keeps the invariant.
pub(crate) proof fn same_activity_keeps_wf(s: ServerView, i: int, peer: PeerView, group: u32)
    requires
        0 <= i < s.peers.len(),
        peer.wf(),
        peer.id == s.peers[i].id,
        peer.group == s.peers[i].group,
        peer.link.params == s.config.params,
        peer.is_active() == s.peers[i].is_active(),
        peer.start_pending ==> s.peers[i].start_pending,
    ensures
        s.wf() ==> s.with_peer(i, peer).wf(),
        s.wf_but(group) ==> s.with_peer(i, peer).wf_but(group),
{
    let t = s.with_peer(i, peer);
    assert forall|key: u32| s.has_active(key) implies t.has_active(key) by {
        let j = choose|j: int| s.is_active_in(j, key);
        assert(t.is_active_in(j, key));
    }
    assert forall|key: u32, g: int| s.is_group(g, key) implies t.is_group(g, key) by {}
    if s.peers_ok() && s.groups_ok() {
        assert forall|k: int| 0 <= k < t.peers.len() implies t.group_index(
            (#[trigger] t.peers[k]).group,
        ) is Some by {
            let key = s.peers[k].group;
            assert(s.group_index(key) is Some);
            let g = choose|g: int| s.is_group(g, key);
            assert(t.is_group(g, key));
        }
    }
}

/// Admitting a peer whose group has no active peer restores the invariant.
pub(crate) proof fn admission_restores_wf(s: ServerView, i: int, group: u32)
    requires
        s.wf_but(group),
        0 <= i < s.peers.len(),
        s.peers[i].group == group,
        s.peers[i].link.may_confirm_start(),
        forall|j: int| s.is_active_in(j, group) ==> j == i,
    ensures
        s.with_peer(i, ServerView::admitted(s.peers[i])).wf(),
        ServerView::admitted(s.peers[i]).is_active(),
{
    let peer = ServerView::admitted(s.peers[i]);
    let t = s.with_peer(i, peer);
    step_keeps_wf(s.peers[i].link, Event::ConfirmStart);
    assert(peer.wf());
    assert(t.is_active_in(i, group));
    assert forall|key: u32| s.has_active(key) implies t.has_active(key) by {
        let j = choose|j: int| s.is_active_in(j, key);
        assert(t.is_active_in(j, key));
    }
    assert forall|k: int| 0 <= k < t.peers.len() implies t.group_index(
        (#[trigger] t.peers[k]).group,
    ) is Some by {
        let key = s.peers[k].group;
        assert(s.group_index(key) is Some);
        let g = choose|g: int| s.is_group(g, key);
        assert(t.is_group(g, key));
    }
    assert forall|a: int, b: int|
        0 <= a < t.peers.len() && 0 <= b < t.peers.len() && a != b && (#[trigger] t.peers[a]).group
            == (#[trigger] t.peers[b]).group && t.peers[a].is_active() implies !t.peers[b].is_active() by {
        if a == i {
            if t.peers[b].is_active() {
                assert(s.is_active_in(b, group));
            }
        } else if b == i {
            assert(s.is_active_in(a, group));
        } else {
            assert(s.peers[a].group == s.peers[b].group);
        }
    }
    assert forall|k: int| 0 <= k < t.peers.len() && (#[trigger] t.peers[k]).start_pending implies t.has_active(
        t.peers[k].group,
    ) by {
        if t.peers[k].group == group {
            assert(t.is_active_in(i, group));
        } else {
            assert(s.peers[k].start_pending);
            assert(s.has_active(s.peers[k].group));
        }
    }
}

/// Promotion restores the invariant.
pub proof fn promote_restores_wf(s: ServerView, group: u32)
    requires
        s.wf_but(group),
    ensures
        s.promote(group).0.wf(),
{
    if s.has_active(group) {
        assert(s.wf());
    } else {
        match s.first_pending(group) {
            Some(j) => {
                assert(s.is_first_pending(j, group));
                assert(s.peers[j].wf());
                assert forall|k: int| s.is_active_in(k, group) implies k == j by {
                    assert(s.has_active(group));
                }
                admission_restores_wf(s, j, group);
            },
            None => {
                assert forall|i: int|
                    0 <= i < s.peers.len() && (#[trigger] s.peers[i]).start_pending implies s.has_active(
                    s.peers[i].group,
                ) by {
                    if s.peers[i].group == group {
                        assert(s.is_pending_in(i, group));
                        least_pending(s, i, group);
                    }
                }
            },
        }
    }
}

/// Where a peer of a group waits to start, there is a first one.
pub(crate) proof fn least_pending(s: ServerView, i: int, group: u32)
    requires
        s.is_pending_in(i, group),
    ensures
        exists|j: int| s.is_first_pending(j, group),
    decreases i,
{
    if exists|k: int| 0 <= k < i && s.is_pending_in(k, group) {
        let k = choose|k: int| 0 <= k < i && s.is_pending_in(k, group);
        least_pending(s, k, group);
    } else {
        assert(s.is_first_pending(i, group));
    }
}

/// What the content of an I-frame means leaves the peer as active as it
/// was.
pub(crate) proof fn deliver_keeps_peer(peer: PeerView, bytes: Seq<u8>)
    requires
        peer.wf(),
    ensures
        ({
            let after = peer.deliver(bytes).0;
            &&& after.wf()
            &&& after.id == peer.id
            &&& after.group == peer.group
            &&& after.link.params == peer.link.params
            &&& after.is_active() == peer.is_active()
            &&& after.start_pending == peer.start_pending
            &&& after.pending == peer.pending
        }),
{
    enqueue_keeps_state(
        peer.link,
        negative_reply(bytes, CauseOfTransmission::ActivationCon),
    );
    enqueue_keeps_state(
        peer.link,
        negative_reply(bytes, CauseOfTransmission::UnknownType),
    );
}

/// Without one of its peers the server keeps its invariant, but that peers
/// of the group of the one that is gone may wait without an active peer.
pub proof fn without_peer_keeps_wf(s: ServerView, i: int)
    requires
        s.wf(),
        0 <= i < s.peers.len(),
    ensures
        s.without_peer(i).wf_but(s.peers[i].group),
{
    let t = s.without_peer(i);
    let gone = s.peers[i];
    assert forall|k: int| 0 <= k < t.peers.len() implies #[trigger] t.peers[k] == s.peers[if k < i {
        k
    } else {
        k + 1
    }] by {}
    // the groups of the peers that stay are still there
    assert forall|k: int| 0 <= k < t.peers.len() implies t.group_index(
        (#[trigger] t.peers[k]).group,
    ) is Some by {
        let k0 = if k < i {
            k
        } else {
            k + 1
        };
        let key = s.peers[k0].group;
        assert(s.group_index(key) is Some);
        let h = choose|h: int| s.is_group(h, key);
        if s.config.server_mode is ConnectionIsRedundancyGroup {
            assert(s.peers[k0].id != s.peers[i].id);
            match s.group_index(gone.group) {
                Some(g) => {
                    assert(s.is_group(g, gone.group));
                    assert(h != g);
                    let h1 = if h < g {
                        h
                    } else {
                        h - 1
                    };
                    assert(t.is_group(h1, key));
                },
                None => {
                    assert(t.is_group(h, key));
                },
            }
        } else {
            assert(t.is_group(h, key));
        }
    }
    // the peers that wait in other groups still have their active peer
    assert forall|k: int|
        0 <= k < t.peers.len() && (#[trigger] t.peers[k]).start_pending && t.peers[k].group
            != gone.group implies t.has_active(t.peers[k].group) by {
        let k0 = if k < i {
            k
        } else {
            k + 1
        };
        let key = s.peers[k0].group;
        assert(s.peers[k0].start_pending);
        assert(s.has_active(key));
        let j = choose|j: int| s.is_active_in(j, key);
        assert(j != i);
        let j1 = if j < i {
            j
        } else {
            j - 1
        };
        assert(t.is_active_in(j1, key));
    }
}

/// With one more peer, stopped and not waiting, the server keeps its
/// invariant.
pub proof fn accept_keeps_wf(s: ServerView, key: u32, now: u64)
    requires
        s.wf(),
    ensures
        s.accept(key, now).wf(),
{
    if s.can_accept() {
        let t = s.accept(key, now);
        let peer = s.new_peer(key, now);
        let n = s.peers.len() as int;
        assert(LinkView::initial(s.config.params, now).wf());
        assert(peer.wf());
        assert forall|k: int| 0 <= k < t.peers.len() implies #[trigger] t.peers[k] == (if k < n {
            s.peers[k]
        } else {
            peer
        }) by {}
        assert forall|k: int| 0 <= k < t.peers.len() implies t.group_index(
            (#[trigger] t.peers[k]).group,
        ) is Some by {
            let group = t.peers[k].group;
            if k < n {
                assert(s.group_index(group) is Some);
                let h = choose|h: int| s.is_group(h, group);
                assert(t.is_group(h, group));
            } else if s.group_index(group) is Some {
                let h = choose|h: int| s.is_group(h, group);
                assert(t.is_group(h, group));
            } else {
                assert(t.is_group(s.groups.len() as int, group));
            }
        }
        assert forall|g: int, h: int|
            0 <= g < t.groups.len() && 0 <= h < t.groups.len() && g != h implies (
        #[trigger] t.groups[g]).key != (#[trigger] t.groups[h]).key by {
            if s.group_index(peer.group) is None {
                if g == s.groups.len() {
                    assert(!s.is_group(h, peer.group));
                }
                if h == s.groups.len() {
                    assert(!s.is_group(g, peer.group));
                }
            }
        }
        assert forall|k: int|
            0 <= k < t.peers.len() && (#[trigger] t.peers[k]).start_pending implies t.has_active(
            t.peers[k].group,
        ) by {
            assert(k < n);
            assert(s.has_active(s.peers[k].group));
            let j = choose|j: int| s.is_active_in(j, s.peers[k].group);
            assert(t.is_active_in(j, t.peers[k].group));
        }
    }
}

/// Reading the next frame in front of a peer keeps the invariant.
pub proof fn poll_keeps_wf(s: ServerView, i: int)
    requires
        s.wf(),
        0 <= i < s.peers.len(),
    ensures
        s.poll_at(i).0.wf(),
{
    let peer = s.peers[i];
    assert(peer.wf());
    without_peer_keeps_wf(s, i);
    promote_restores_wf(s.without_peer(i), peer.group);
    match parse_frame(peer.pending) {
        DecodedView::Complete { frame, used } => {
            let (link, indication) = peer.link.on_frame(frame);
            let heard = PeerView { link, pending: peer.pending.skip(used as int), ..peer };
            passive_machine_under_frames(peer.link, frame);
            match indication {
                IndicationView::Closed { reason } => {},
                IndicationView::StartRequested => {
                    if s.has_other_active(i) {
                        let j = choose|j: int| j != i && s.is_active_in(j, peer.group);
                        assert(!peer.is_active());
                        let waiting = PeerView { start_pending: true, ..heard };
                        start_waiting_keeps_wf(s, i, waiting, j);
                    } else {
                        let relaxed = s.with_peer(i, heard);
                        same_activity_keeps_wf(s, i, heard, peer.group);
                        assert(relaxed.wf_but(peer.group));
                        assert forall|j: int| relaxed.is_active_in(j, peer.group) implies j
                            == i by {
                            if j != i {
                                assert(s.is_active_in(j, peer.group));
                            }
                        }
                        admission_restores_wf(relaxed, i, peer.group);
                        assert(relaxed.with_peer(i, ServerView::admitted(heard)).peers
                            =~= s.with_peer(i, ServerView::admitted(heard)).peers);
                    }
                },
                IndicationView::StopRequested => {
                    stop_keeps_wf_but(s, i, heard);
                    promote_restores_wf(s.with_peer(i, heard), peer.group);
                },
                IndicationView::Data { asdu } => {
                    deliver_keeps_peer(heard, asdu);
                    same_activity_keeps_wf(s, i, heard.deliver(asdu).0, peer.group);
                },
                _ => {
                    same_activity_keeps_wf(s, i, heard, peer.group);
                },
            }
        },
        _ => {},
    }
}

/// A peer that starts to wait, while another of its group is active, keeps
/// the invariant.
pub(crate) proof fn start_waiting_keeps_wf(s: ServerView, i: int, waiting: PeerView, j: int)
    requires
        s.wf(),
        0 <= i < s.peers.len(),
        waiting.wf(),
        waiting.start_pending,
        waiting.id == s.peers[i].id,
        waiting.group == s.peers[i].group,
        waiting.link.params == s.config.params,
        !s.peers[i].is_active(),
        j != i,
        s.is_active_in(j, waiting.group),
    ensures
        s.with_peer(i, waiting).wf(),
{
    let t = s.with_peer(i, waiting);
    assert forall|key: u32| s.has_active(key) implies t.has_active(key) by {
        let a = choose|a: int| s.is_active_in(a, key);
        assert(t.is_active_in(a, key));
    }
    assert(t.is_active_in(j, waiting.group));
    assert forall|k: int| 0 <= k < t.peers.len() implies t.group_index(
        (#[trigger] t.peers[k]).group,
    ) is Some by {
        let key = s.peers[k].group;
        assert(s.group_index(key) is Some);
        let g = choose|g: int| s.is_group(g, key);
        assert(t.is_group(g, key));
    }
}

/// A peer that stops keeps the invariant, but that peers of its group may
/// wait without an active peer.
pub(crate) proof fn stop_keeps_wf_but(s: ServerView, i: int, stopped: PeerView)
    requires
        s.wf(),
        0 <= i < s.peers.len(),
        stopped.wf(),
        !stopped.is_active(),
        !stopped.start_pending,
        stopped.id == s.peers[i].id,
        stopped.group == s.peers[i].group,
        stopped.link.params == s.config.params,
    ensures
        s.with_peer(i, stopped).wf_but(stopped.group),
{
    let t = s.with_peer(i, stopped);
    assert forall|k: int| 0 <= k < t.peers.len() implies t.group_index(
        (#[trigger] t.peers[k]).group,
    ) is Some by {
        let key = s.peers[k].group;
        assert(s.group_index(key) is Some);
        let g = choose|g: int| s.is_group(g, key);
        assert(t.is_group(g, key));
    }
    assert forall|k: int|
        0 <= k < t.peers.len() && (#[trigger] t.peers[k]).start_pending && t.peers[k].group
            != stopped.group implies t.has_active(t.peers[k].group) by {
        let key = s.peers[k].group;
        assert(s.peers[k].start_pending);
        assert(s.has_active(key));
        let a = choose|a: int| s.is_active_in(a, key);
        assert(t.is_active_in(a, key));
    }
}

/// The passing of time keeps the invariant.
pub proof fn tick_at_keeps_wf(s: ServerView, i: int, now: u64)
    requires
        s.wf(),
        0 <= i < s.peers.len(),
    ensures
        s.tick_at(i, now).0.wf(),
{
    let peer = s.peers[i];
    assert(peer.wf());
    without_peer_keeps_wf(s, i);
    promote_restores_wf(s.without_peer(i), peer.group);
    passive_machine_under_time(peer.link, now);
    let (link, indication) = peer.link.tick(now);
    if !(indication is Closed) {
        same_activity_keeps_wf(s, i, PeerView { link, ..peer }, peer.group);
    }
}

/// Changing the queues within their sizes, and the peers as `same_activity`
/// allows, keeps the invariant.
pub(crate) proof fn queues_keep_wf(s: ServerView, t: ServerView)
    requires
        s.wf(),
        t.config == s.config,
        t.next_id == s.next_id,
        t.peers.len() == s.peers.len(),
        forall|i: int|
            0 <= i < s.peers.len() ==> (#[trigger] t.peers[i]).wf() && t.peers[i].id
                == s.peers[i].id && t.peers[i].group == s.peers[i].group
                && t.peers[i].link.params == s.config.params && t.peers[i].is_active()
                == s.peers[i].is_active() && t.peers[i].start_pending == s.peers[i].start_pending,
        t.groups.len() == s.groups.len(),
        forall|g: int|
            0 <= g < s.groups.len() ==> (#[trigger] t.groups[g]).key == s.groups[g].key
                && t.groups[g].queue.wf() && t.groups[g].queue.max_low
                == s.groups[g].queue.max_low && t.groups[g].queue.max_high
                == s.groups[g].queue.max_high,
    ensures
        t.wf(),
{
    assert forall|key: u32| s.has_active(key) implies t.has_active(key) by {
        let j = choose|j: int| s.is_active_in(j, key);
        assert(t.is_active_in(j, key));
    }
    assert forall|k: int| 0 <= k < t.peers.len() implies t.group_index(
        (#[trigger] t.peers[k]).group,
    ) is Some by {
        let key = s.peers[k].group;
        assert(s.group_index(key) is Some);
        let g = choose|g: int| s.is_group(g, key);
        assert(t.is_group(g, key));
    }
    assert forall|k: int| 0 <= k < t.peers.len() && (#[trigger] t.peers[k]).start_pending implies t.has_active(
        t.peers[k].group,
    ) by {
        assert(s.peers[k].start_pending);
        assert(s.has_active(s.peers[k].group));
    }
    assert forall|a: int, b: int|
        0 <= a < t.peers.len() && 0 <= b < t.peers.len() && a != b && (#[trigger] t.peers[a]).group
            == (#[trigger] t.peers[b]).group && t.peers[a].is_active() implies !t.peers[b].is_active() by {
        assert(s.peers[a].group == s.peers[b].group);
    }
}

/// In every redundancy group at most one peer has data transfer started.
pub proof fn one_active_peer_in_a_group(s: ServerView, i: int, j: int)
    requires
        s.wf(),
        0 <= i < s.peers.len(),
        0 <= j < s.peers.len(),
        s.peers[i].group == s.peers[j].group,
        s.peers[i].is_active(),
        s.peers[j].is_active(),
    ensures
        i == j,
{
}

/// With a single redundancy group, at most one peer of the server has data
/// transfer started.
pub proof fn single_group_has_one_active_peer(s: ServerView, i: int, j: int)
    requires
        s.wf(),
        s.config.server_mode is SingleRedundancyGroup,
        0 <= i < s.peers.len(),
        0 <= j < s.peers.len(),
        s.peers[i].is_active(),
        s.peers[j].is_active(),
    ensures
        i == j,
{
    assert(s.peers[i].group == 0 && s.peers[j].group == 0);
}

/// A peer waits to be admitted only while another peer of its group is
/// active.
pub proof fn waiting_peer_has_active_peer(s: ServerView, i: int)
    requires
        s.wf(),
        0 <= i < s.peers.len(),
        s.peers[i].start_pending,
    ensures
        !s.peers[i].is_active(),
        exists|j: int| j != i && s.is_active_in(j, s.peers[i].group),
{
    assert(s.peers[i].wf());
    assert(s.has_active(s.peers[i].group));
    let j = choose|j: int| s.is_active_in(j, s.peers[i].group);
    assert(j != i && s.is_active_in(j, s.peers[i].group));
}

} // verus!
