use bytes::Bytes;
use termcall::queue::InboundQueue;

fn message(text: &'static str) -> Bytes {
    Bytes::from_static(text.as_bytes())
}

#[test]
fn new_queue_is_empty() {
    let mut queue = InboundQueue::new();
    assert!(queue.is_empty());
    assert_eq!(queue.len(), 0);
    assert_eq!(queue.take(), None);
}

#[test]
fn capacity_is_one() {
    assert_eq!(InboundQueue::CAPACITY, 1);
}

#[test]
fn one_offer_one_take() {
    let mut queue = InboundQueue::new();
    assert_eq!(queue.offer(message("first")), None);
    assert!(!queue.is_empty());
    assert_eq!(queue.len(), 1);
    assert_eq!(queue.take(), Some(message("first")));
    assert!(queue.is_empty());
    assert_eq!(queue.take(), None);
}

#[test]
fn two_frames_before_dequeue_leave_the_second() {
    let mut queue = InboundQueue::new();
    assert_eq!(queue.offer(message("first")), None);
    assert_eq!(queue.offer(message("second")), Some(message("first")));
    assert_eq!(queue.len(), 1);
    assert_eq!(queue.take(), Some(message("second")));
    assert_eq!(queue.take(), None);
}

#[test]
fn many_offers_leave_the_newest() {
    let mut queue = InboundQueue::new();
    let mut dropped = 0;
    for i in 0..100u8 {
        if queue.offer(Bytes::from(vec![i])).is_some() {
            dropped += 1;
        }
        assert_eq!(queue.len(), 1);
    }
    assert_eq!(dropped, 99);
    assert_eq!(queue.take(), Some(Bytes::from(vec![99u8])));
    assert!(queue.is_empty());
}

#[test]
fn queue_is_usable_again_after_take() {
    let mut queue = InboundQueue::new();
    queue.offer(message("a"));
    assert_eq!(queue.take(), Some(message("a")));
    assert_eq!(queue.offer(message("b")), None);
    assert_eq!(queue.take(), Some(message("b")));
}
