use sfy::{AxlPacket, Degrees, OutboundQueue, QUEUE_CAPACITY};

fn segment(n: u16) -> AxlPacket {
    AxlPacket {
        timestamp: 1_000 * n as i64,
        position_time: n as u32,
        lat: Degrees::from_bits(n as u64),
        lon: Degrees::from_bits(n as u64 + 1),
        data: vec![n, n + 1, n + 2],
    }
}

#[test]
fn capacity_is_thirty_two() {
    assert_eq!(QUEUE_CAPACITY, 32);
    assert_eq!(OutboundQueue::new().capacity(), 32);
}

#[test]
fn new_queue_is_empty() {
    let mut queue = OutboundQueue::new();
    assert_eq!(queue.len(), 0);
    assert!(!queue.is_full());
    assert_eq!(queue.dequeue(), None);
    assert_eq!(queue.len(), 0);
}

#[test]
fn one_in_one_out() {
    let mut queue = OutboundQueue::new();
    assert_eq!(queue.enqueue(segment(7)), Ok(()));
    assert_eq!(queue.len(), 1);
    assert_eq!(queue.dequeue(), Some(segment(7)));
    assert_eq!(queue.len(), 0);
    assert_eq!(queue.dequeue(), None);
}

#[test]
fn queue_backpressure() {
    let mut queue = OutboundQueue::new();
    for n in 0..32 {
        assert_eq!(queue.enqueue(segment(n)), Ok(()));
        assert_eq!(queue.len(), n as usize + 1);
    }
    assert!(queue.is_full());
    assert_eq!(queue.enqueue(segment(32)), Err(segment(32)));
    assert_eq!(queue.len(), 32);
    assert_eq!(queue.dequeue(), Some(segment(0)));
    assert!(!queue.is_full());
    assert_eq!(queue.enqueue(segment(33)), Ok(()));
    assert_eq!(queue.len(), 32);
    assert_eq!(queue.enqueue(segment(34)), Err(segment(34)));
}

#[test]
fn a_refused_segment_leaves_the_queue_as_it_was() {
    let mut queue = OutboundQueue::new();
    for n in 0..32 {
        queue.enqueue(segment(n)).unwrap();
    }
    for n in 100..110 {
        assert_eq!(queue.enqueue(segment(n)), Err(segment(n)));
    }
    for n in 0..32 {
        assert_eq!(queue.dequeue(), Some(segment(n)));
    }
    assert_eq!(queue.dequeue(), None);
}

#[test]
fn end_to_end_scenario() {
    let mut queue = OutboundQueue::new();
    for n in 0..32 {
        assert_eq!(queue.enqueue(segment(n)), Ok(()));
    }
    for n in 0..10 {
        assert_eq!(queue.dequeue(), Some(segment(n)));
    }
    for n in 32..42 {
        assert_eq!(queue.enqueue(segment(n)), Ok(()));
    }
    assert_eq!(queue.len(), 32);
    assert_eq!(queue.enqueue(segment(42)), Err(segment(42)));
    for n in 10..42 {
        assert_eq!(queue.dequeue(), Some(segment(n)));
    }
    assert_eq!(queue.dequeue(), None);
    assert_eq!(queue.len(), 0);
}

#[test]
fn order_holds_while_the_ring_wraps() {
    let mut queue = OutboundQueue::new();
    let mut next_in: u16 = 0;
    let mut next_out: u16 = 0;
    for round in 0..200 {
        let burst = 1 + round % 5;
        for _ in 0..burst {
            if queue.enqueue(segment(next_in)).is_ok() {
                next_in += 1;
            }
        }
        for _ in 0..(round % 4) {
            if let Some(packet) = queue.dequeue() {
                assert_eq!(packet, segment(next_out));
                next_out += 1;
            }
        }
        assert_eq!(queue.len(), (next_in - next_out) as usize);
    }
    while let Some(packet) = queue.dequeue() {
        assert_eq!(packet, segment(next_out));
        next_out += 1;
    }
    assert_eq!(next_in, next_out);
}
