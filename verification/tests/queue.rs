use lib60870::asdu::Asdu;
use lib60870::queue::{OutboundQueue, Priority};
use lib60870::types::{CauseOfTransmission, TypeId};

fn numbered(n: u8) -> Asdu {
    let mut asdu =
        Asdu::new(TypeId::SinglePoint, false, CauseOfTransmission::Spontaneous, 0, 1, false, false);
    assert!(asdu.add_element(n as u32, &[1]));
    asdu
}

#[test]
fn queue_is_first_in_first_out_with_high_priority_first() {
    let mut q = OutboundQueue::new(4, 4);
    assert!(q.is_empty());
    assert_eq!(q.front_priority(), None);
    assert_eq!(q.enqueue_low(numbered(1)), None);
    assert_eq!(q.enqueue_low(numbered(2)), None);
    assert_eq!(q.front_priority(), Some(Priority::Low));
    assert!(q.enqueue_high(numbered(3)));
    assert!(q.enqueue_high(numbered(4)));
    assert_eq!(q.enqueue_low(numbered(5)), None);
    assert_eq!(q.low_len(), 3);
    assert_eq!(q.high_len(), 2);
    assert_eq!(q.front_priority(), Some(Priority::High));
    assert_eq!(q.dequeue(), Some((Priority::High, numbered(3))));
    assert_eq!(q.dequeue(), Some((Priority::High, numbered(4))));
    assert_eq!(q.dequeue(), Some((Priority::Low, numbered(1))));
    assert!(q.enqueue_high(numbered(6)));
    assert_eq!(q.dequeue(), Some((Priority::High, numbered(6))));
    assert_eq!(q.dequeue(), Some((Priority::Low, numbered(2))));
    assert_eq!(q.dequeue(), Some((Priority::Low, numbered(5))));
    assert_eq!(q.dequeue(), None);
    assert!(q.is_empty());
}

#[test]
fn full_low_priority_drops_its_oldest() {
    let mut q = OutboundQueue::new(2, 1);
    assert_eq!(q.enqueue_low(numbered(1)), None);
    assert_eq!(q.enqueue_low(numbered(2)), None);
    assert_eq!(q.enqueue_low(numbered(3)), Some(numbered(1)));
    assert_eq!(q.enqueue_low(numbered(4)), Some(numbered(2)));
    assert_eq!(q.low_len(), 2);
    assert_eq!(q.dequeue(), Some((Priority::Low, numbered(3))));
    assert_eq!(q.dequeue(), Some((Priority::Low, numbered(4))));
}

#[test]
fn full_high_priority_refuses() {
    let mut q = OutboundQueue::new(2, 1);
    assert!(q.enqueue_high(numbered(1)));
    assert!(!q.enqueue_high(numbered(2)));
    assert_eq!(q.high_len(), 1);
    assert_eq!(q.dequeue(), Some((Priority::High, numbered(1))));
    assert!(q.enqueue_high(numbered(2)));
}

#[test]
fn queue_without_room() {
    let mut q = OutboundQueue::new(0, 0);
    assert_eq!(q.enqueue_low(numbered(1)), Some(numbered(1)));
    assert!(!q.enqueue_high(numbered(2)));
    assert!(q.is_empty());
    assert_eq!(q.dequeue(), None);
}

#[test]
fn clear_drops_all_entries() {
    let mut q = OutboundQueue::new(3, 3);
    q.enqueue_low(numbered(1));
    q.enqueue_high(numbered(2));
    q.clear();
    assert!(q.is_empty());
    assert_eq!(q.enqueue_low(numbered(3)), None);
    assert_eq!(q.low_len(), 1);
}
