use pool_manager::key::Pubkey;
use pool_manager::queue::{RewardEvent, RewardQueue};

fn event(n: u8) -> RewardEvent {
    RewardEvent { rewarder: Pubkey { bytes: [n; 32] }, ts: n as i64, locked: n % 2 == 0 }
}

fn ring(len: u32) -> RewardQueue {
    let mut queue = RewardQueue::from_parts(0, 0, Vec::new());
    queue.resize(len);
    queue
}

#[test]
fn a_fresh_ring_is_empty() {
    let queue = ring(4);
    assert_eq!(queue.capacity(), 4);
    assert_eq!(queue.head(), 0);
    assert_eq!(queue.tail(), 0);
    assert!(queue.can_append());
    assert_eq!(*queue.get(2), RewardEvent::default());
    assert_eq!(RewardEvent::default().rewarder, Pubkey { bytes: [0; 32] });
    assert_eq!(RewardEvent::default().ts, 0);
    assert!(!RewardEvent::default().locked);
}

#[test]
fn append_counts_up_and_keeps_one_slot_spare() {
    let mut queue = ring(3);
    let mut counters = Vec::new();
    for n in 0..6u8 {
        assert_eq!(queue.append(event(n)), Ok(n as u32));
        counters.push((queue.head(), queue.tail()));
    }
    assert_eq!(counters, vec![(1, 0), (2, 0), (3, 1), (4, 2), (5, 3), (6, 4)]);
    assert_eq!(*queue.events(), vec![event(3), event(4), event(5)]);
}

#[test]
fn an_event_reads_back_until_the_ring_comes_round() {
    let mut queue = ring(3);
    let cursor = queue.append(event(9)).unwrap();
    queue.append(event(1)).unwrap();
    queue.append(event(2)).unwrap();
    assert_eq!(*queue.get(cursor), event(9));
    queue.append(event(3)).unwrap();
    assert_eq!(*queue.get(cursor), event(3));
}

#[test]
fn a_ring_of_one_slot_keeps_the_last_event() {
    let mut queue = ring(1);
    assert_eq!(queue.append(event(1)), Ok(0));
    assert_eq!((queue.head(), queue.tail()), (1, 1));
    assert_eq!(queue.append(event(2)), Ok(1));
    assert_eq!((queue.head(), queue.tail()), (2, 2));
    assert_eq!(*queue.get(0), event(2));
}

#[test]
fn slots_repeat_with_the_capacity() {
    let queue = ring(5);
    assert_eq!(queue.index_of(0), 0);
    assert_eq!(queue.index_of(4), 4);
    assert_eq!(queue.index_of(5), 0);
    assert_eq!(queue.index_of(u32::MAX), (u32::MAX % 5) as usize);
}

#[test]
fn resizing_keeps_the_first_slots() {
    let mut queue = RewardQueue::from_parts(3, 1, vec![event(1), event(2), event(3)]);
    queue.resize(2);
    assert_eq!(*queue.events(), vec![event(1), event(2)]);
    queue.resize(4);
    assert_eq!(
        *queue.events(),
        vec![event(1), event(2), RewardEvent::default(), RewardEvent::default()]
    );
    assert_eq!((queue.head(), queue.tail()), (3, 1));
}

#[test]
fn a_ring_without_slots_or_cursors_takes_no_event() {
    assert!(!ring(0).can_append());
    assert!(!RewardQueue::from_parts(u32::MAX, 5, vec![event(1), event(2)]).can_append());
    assert!(RewardQueue::from_parts(u32::MAX - 1, u32::MAX - 2, vec![event(1), event(2)])
        .can_append());
    assert!(!RewardQueue::from_parts(0, u32::MAX, vec![event(1)]).can_append());
}
