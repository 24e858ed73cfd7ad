use fsevent_watch::event::RawEvent;
use fsevent_watch::flags::EVENT_ITEM_CREATED;
use fsevent_watch::queue::EventQueue;

fn created(id: u64, path: &str) -> RawEvent {
    RawEvent { id, flags: EVENT_ITEM_CREATED, path: String::from(path) }
}

#[test]
fn new_queue_is_empty() {
    let mut queue = EventQueue::new();
    assert!(queue.is_empty());
    assert_eq!(queue.len(), 0);
    assert_eq!(queue.poll_all(), Vec::<RawEvent>::new());
}

#[test]
fn drain_returns_ids_10_11_12_in_order_and_once() {
    let mut queue = EventQueue::new();
    queue.push_batch(vec![created(10, "/w/a"), created(11, "/w/b"), created(12, "/w/c")]);
    assert!(!queue.is_empty());
    assert_eq!(queue.len(), 3);
    let drained = queue.poll_all();
    assert_eq!(drained, vec![created(10, "/w/a"), created(11, "/w/b"), created(12, "/w/c")]);
    assert!(queue.is_empty());
    assert_eq!(queue.poll_all(), Vec::<RawEvent>::new());
}

#[test]
fn batches_come_out_in_the_order_they_went_in() {
    let mut queue = EventQueue::new();
    queue.push_batch(vec![created(1, "/a"), created(2, "/b")]);
    queue.push_batch(Vec::new());
    queue.push_batch(vec![created(3, "/c")]);
    queue.push(created(4, "/d"));
    let ids: Vec<u64> = queue.poll_all().iter().map(|e| e.id).collect();
    assert_eq!(ids, vec![1, 2, 3, 4]);
}

#[test]
fn drain_hands_out_only_what_came_since_the_last_drain() {
    let mut queue = EventQueue::new();
    queue.push(created(1, "/a"));
    assert_eq!(queue.poll_all(), vec![created(1, "/a")]);
    queue.push(created(2, "/b"));
    queue.push(created(3, "/c"));
    assert_eq!(queue.poll_all(), vec![created(2, "/b"), created(3, "/c")]);
    assert!(queue.is_empty());
}

#[test]
fn equal_events_are_each_kept() {
    let mut queue = EventQueue::new();
    queue.push(created(5, "/same"));
    queue.push(created(5, "/same"));
    assert_eq!(queue.len(), 2);
    assert_eq!(queue.poll_all(), vec![created(5, "/same"), created(5, "/same")]);
}
