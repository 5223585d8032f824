//! The outbound queue of a redundancy group: ASDUs that wait to be sent, in
//! two priority classes.
//!
//! High priority holds interrogation replies and command confirmations, low
//! priority spontaneous data. High priority drains first; within a class
//! the order is first in, first out. Both classes are bounded: a full
//! low-priority class drops its oldest entry for a new one, a full
//! high-priority class refuses the new one.

use std::collections::VecDeque;
use vstd::prelude::*;
use crate::asdu::{Asdu, AsduView};

verus! {

/// The priority class of a queued ASDU.
#[derive(Debug, Clone, Copy, PartialEq, Eq, Hash, Structural)]
pub enum Priority {
    /// Spontaneous data
    Low,
    /// Interrogation replies and command confirmations
    High,
}

/// The capacity that a configured queue size stands for: a negative size
/// stands for no room at all.
pub open spec fn capacity_of(size: i32) -> nat {
    if size < 0 {
        0
    } else {
        size as nat
    }
}

/// An outbound queue as a mathematical value.
pub struct QueueView {
    /// The low-priority entries, oldest first
    pub low: Seq<AsduView>,
    /// The high-priority entries, oldest first
    pub high: Seq<AsduView>,
    /// The largest number of low-priority entries
    pub max_low: nat,
    /// The largest number of high-priority entries
    pub max_high: nat,
}

impl QueueView {
    /// Neither class holds more than its capacity.
    pub open spec fn wf(self) -> bool {
        self.low.len() <= self.max_low && self.high.len() <= self.max_high
    }

    /// The number of entries.
    pub open spec fn len(self) -> nat {
        self.low.len() + self.high.len()
    }

    /// The low-priority entry that makes room for a new one: the new one
    /// itself where the class has no room at all, the oldest where the
    /// class is full, none otherwise.
    pub open spec fn evicted_by(self, asdu: AsduView) -> Option<AsduView> {
        if self.max_low == 0 {
            Some(asdu)
        } else if self.low.len() >= self.max_low {
            Some(self.low[0])
        } else {
            None
        }
    }

    /// The queue after a low-priority ASDU was put in.
    pub open spec fn with_low(self, asdu: AsduView) -> QueueView {
        if self.max_low == 0 {
            self
        } else if self.low.len() >= self.max_low {
            QueueView { low: self.low.skip(1).push(asdu), ..self }
        } else {
            QueueView { low: self.low.push(asdu), ..self }
        }
    }

    /// Whether the high-priority class has room.
    pub open spec fn has_room_high(self) -> bool {
        self.high.len() < self.max_high
    }

    /// The queue after a high-priority ASDU was offered.
    pub open spec fn with_high(self, asdu: AsduView) -> QueueView {
        if self.has_room_high() {
            QueueView { high: self.high.push(asdu), ..self }
        } else {
            self
        }
    }

    /// The entry that leaves next, with its class: the oldest of high
    /// priority, or where there is none the oldest of low priority.
    pub open spec fn front(self) -> Option<(Priority, AsduView)> {
        if self.high.len() > 0 {
            Some((Priority::High, self.high[0]))
        } else if self.low.len() > 0 {
            Some((Priority::Low, self.low[0]))
        } else {
            None
        }
    }

    /// The queue after the next entry left.
    pub open spec fn without_front(self) -> QueueView {
        if self.high.len() > 0 {
            QueueView { high: self.high.skip(1), ..self }
        } else if self.low.len() > 0 {
            QueueView { low: self.low.skip(1), ..self }
        } else {
            self
        }
    }
}

/// An outbound queue.
#[derive(Debug)]
pub struct OutboundQueue {
    low: VecDeque<Asdu>,
    high: VecDeque<Asdu>,
    max_low: usize,
    max_high: usize,
}

impl View for OutboundQueue {
    type V = QueueView;

    closed spec fn view(&self) -> QueueView {
        QueueView {
            low: self.low@.map_values(|a: Asdu| a@),
            high: self.high@.map_values(|a: Asdu| a@),
            max_low: self.max_low as nat,
            max_high: self.max_high as nat,
        }
    }
}

impl OutboundQueue {
    /// An empty queue with room for the given numbers of entries.
    pub fn new(max_low: usize, max_high: usize) -> (q: Self)
        ensures
            q@ == (QueueView {
                low: Seq::empty(),
                high: Seq::empty(),
                max_low: max_low as nat,
                max_high: max_high as nat,
            }),
            q@.wf(),
    {
        let q = OutboundQueue { low: VecDeque::new(), high: VecDeque::new(), max_low, max_high };
        assert(q@.low =~= Seq::empty());
        assert(q@.high =~= Seq::empty());
        q
    }

    /// The number of low-priority entries.
    pub fn low_len(&self) -> (n: usize)
        ensures
            n == self@.low.len(),
    {
        self.low.len()
    }

    /// The number of high-priority entries.
    pub fn high_len(&self) -> (n: usize)
        ensures
            n == self@.high.len(),
    {
        self.high.len()
    }

    /// Whether the queue holds no entry.
    pub fn is_empty(&self) -> (r: bool)
        ensures
            r == (self@.len() == 0),
    {
        self.low.len() == 0 && self.high.len() == 0
    }

    /// Put a low-priority ASDU in. Where the class is full its oldest entry
    /// is dropped to make room, and where it has no room at all the new
    /// ASDU is dropped; the result is what was dropped.
    pub fn enqueue_low(&mut self, asdu: Asdu) -> (evicted: Option<Asdu>)
        requires
            old(self)@.wf(),
        ensures
            final(self)@.wf(),
            final(self)@ == old(self)@.with_low(asdu@),
            match evicted {
                Some(e) => old(self)@.evicted_by(asdu@) == Some(e@),
                None => old(self)@.evicted_by(asdu@) is None,
            },
    {
        if self.max_low == 0 {
            return Some(asdu);
        }
        let evicted: Option<Asdu> = if self.low.len() >= self.max_low {
            self.low.pop_front()
        } else {
            None
        };
        self.low.push_back(asdu);
        assert(self@.low =~= old(self)@.with_low(asdu@).low);
        assert(self@.high =~= old(self)@.high);
        evicted
    }

    /// Offer a high-priority ASDU. Returns `false`, with nothing changed,
    /// where the class is full.
    pub fn enqueue_high(&mut self, asdu: Asdu) -> (queued: bool)
        requires
            old(self)@.wf(),
        ensures
            final(self)@.wf(),
            queued == old(self)@.has_room_high(),
            final(self)@ == old(self)@.with_high(asdu@),
    {
        if self.high.len() >= self.max_high {
            return false;
        }
        self.high.push_back(asdu);
        assert(self@.high =~= old(self)@.high.push(asdu@));
        assert(self@.low =~= old(self)@.low);
        true
    }

    /// Whether an entry waits, and of which class the next one is.
    pub fn front_priority(&self) -> (r: Option<Priority>)
        ensures
            match r {
                Some(p) => self@.front() matches Some(f) && f.0 == p,
                None => self@.front() is None,
            },
    {
        if self.high.len() > 0 {
            Some(Priority::High)
        } else if self.low.len() > 0 {
            Some(Priority::Low)
        } else {
            None
        }
    }

    /// Take the next entry out: the oldest of high priority, or where there
    /// is none the oldest of low priority.
    pub fn dequeue(&mut self) -> (r: Option<(Priority, Asdu)>)
        requires
            old(self)@.wf(),
        ensures
            final(self)@.wf(),
            final(self)@ == old(self)@.without_front(),
            match r {
                Some((p, a)) => old(self)@.front() == Some((p, a@)),
                None => old(self)@.front() is None,
            },
    {
        if self.high.len() > 0 {
            let a = self.high.pop_front();
            assert(self@.high =~= old(self)@.high.skip(1));
            assert(self@.low =~= old(self)@.low);
            match a {
                Some(a) => Some((Priority::High, a)),
                None => None,
            }
        } else if self.low.len() > 0 {
            let a = self.low.pop_front();
            assert(self@.low =~= old(self)@.low.skip(1));
            assert(self@.high =~= old(self)@.high);
            match a {
                Some(a) => Some((Priority::Low, a)),
                None => None,
            }
        } else {
            None
        }
    }

    /// Drop all entries.
    pub fn clear(&mut self)
        ensures
            final(self)@ == (QueueView { low: Seq::empty(), high: Seq::empty(), ..old(self)@ }),
            final(self)@.wf(),
    {
        self.low.clear();
        self.high.clear();
        assert(self@.low =~= Seq::empty());
        assert(self@.high =~= Seq::empty());
    }
}

/// High priority drains first: while a high-priority entry waits, the next
/// entry to leave is the oldest of them, and the low-priority entries stay
/// as they are.
pub proof fn high_priority_drains_first(q: QueueView)
    requires
        q.high.len() > 0,
    ensures
        q.front() == Some((Priority::High, q.high[0])),
        q.without_front().low == q.low,
        q.without_front().high == q.high.skip(1),
{
}

/// First in, first out within a class: an ASDU put into a queue with room
/// leaves after all the entries of its class that were there before it.
pub proof fn fifo_within_class(q: QueueView, asdu: AsduView)
    requires
        q.wf(),
    ensures
        q.has_room_high() ==> q.with_high(asdu).high == q.high.push(asdu),
        q.low.len() < q.max_low ==> q.with_low(asdu).low == q.low.push(asdu),
        q.with_low(asdu).wf(),
        q.with_high(asdu).wf(),
        q.with_low(asdu).high == q.high,
        q.with_high(asdu).low == q.low,
{
}

} // verus!
