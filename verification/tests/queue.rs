use lib::intercom::queue::Queue;
use lib::intercom::{FanoutReport, ReceiveResult};

#[test]
fn new_queue_is_empty() {
    let mut q: Queue<u32, 4> = Queue::new();
    assert!(q.is_empty());
    assert!(!q.is_full());
    assert_eq!(q.len(), 0);
    assert_eq!(q.pop(), None);
    assert_eq!(q.take_lost(), 0);
}

#[test]
fn messages_come_out_in_push_order() {
    let mut q: Queue<u32, 4> = Queue::new();
    assert!(!q.push_overwrite_oldest(10));
    assert!(!q.push_overwrite_oldest(20));
    assert!(!q.push_overwrite_oldest(30));
    assert_eq!(q.len(), 3);
    assert_eq!(q.pop(), Some(10));
    assert_eq!(q.pop(), Some(20));
    assert_eq!(q.pop(), Some(30));
    assert_eq!(q.pop(), None);
    assert!(q.is_empty());
}

#[test]
fn full_queue_drops_oldest_and_counts_it() {
    let mut q: Queue<u8, 2> = Queue::new();
    assert!(!q.push_overwrite_oldest(1));
    assert!(!q.push_overwrite_oldest(2));
    assert!(q.is_full());
    assert!(q.push_overwrite_oldest(3));
    assert!(q.push_overwrite_oldest(4));
    assert!(q.is_full());
    assert_eq!(q.len(), 2);
    assert_eq!(q.take_lost(), 2);
    assert_eq!(q.take_lost(), 0);
    assert_eq!(q.pop(), Some(3));
    assert_eq!(q.pop(), Some(4));
    assert_eq!(q.pop(), None);
}

#[test]
fn queue_keeps_the_latest_capacity_messages() {
    let mut q: Queue<u32, 8> = Queue::new();
    for m in 0..100u32 {
        q.push_overwrite_oldest(m);
    }
    assert_eq!(q.len(), 8);
    assert_eq!(q.take_lost(), 92);
    for m in 92..100u32 {
        assert_eq!(q.pop(), Some(m));
    }
    assert!(q.is_empty());
}

#[test]
fn interleaved_push_and_pop_wrap_the_buffer() {
    let mut q: Queue<u16, 4> = Queue::new();
    let mut next_in: u16 = 0;
    let mut next_out: u16 = 0;
    for round in 0..50u16 {
        for _ in 0..3 {
            assert!(!q.push_overwrite_oldest(next_in));
            next_in += 1;
        }
        for _ in 0..3 {
            assert_eq!(q.pop(), Some(next_out));
            next_out += 1;
        }
        assert!(q.is_empty(), "round {}", round);
    }
    assert_eq!(q.take_lost(), 0);
}

#[test]
fn capacity_one_queue_always_holds_the_newest() {
    let mut q: Queue<i64, 1> = Queue::new();
    assert!(!q.push_overwrite_oldest(-5));
    assert!(q.is_full());
    assert!(q.push_overwrite_oldest(7));
    assert_eq!(q.pop(), Some(7));
    assert_eq!(q.take_lost(), 1);
}

#[test]
fn receive_results_carry_message_and_loss() {
    let e: ReceiveResult<u32> = ReceiveResult::empty(3);
    assert_eq!(e.message, None);
    assert_eq!(e.lost, 3);
    let m = ReceiveResult::message(42u32, 1);
    assert_eq!(m.message, Some(42));
    assert_eq!(m.lost, 1);
}

#[test]
fn fanout_report_starts_clear() {
    let r = FanoutReport::default();
    assert_eq!(r.overwritten_mask, 0);
}
