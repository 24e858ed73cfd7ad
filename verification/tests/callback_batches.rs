use fsevent_watch::callback::{batch_calls, decode_batch, deliveries, DecodedBatch, Delivery};
use fsevent_watch::event::{decode_event, decode_path, NativeEvent, PathError, RawEvent};
use fsevent_watch::flags::{
    EVENT_ITEM_CREATED, EVENT_ITEM_MODIFIED, EVENT_ITEM_REMOVED, EVENT_ITEM_RENAMED,
    EVENT_MUST_SCAN_SUBDIRS,
};
use fsevent_watch::kind::Kind;

fn native(id: u64, flags: u32, path: &[u8]) -> NativeEvent {
    NativeEvent { id, flags, path: path.to_vec() }
}

fn raw(id: u64, flags: u32, path: &str) -> RawEvent {
    RawEvent { id, flags, path: String::from(path) }
}

fn call(id: u64, kind: Kind, path: &str) -> Delivery {
    Delivery { id, kind, path: String::from(path) }
}

#[test]
fn decode_path_reads_ascii() {
    assert_eq!(decode_path(b"/tmp/watched/a.txt"), Ok(String::from("/tmp/watched/a.txt")));
}

#[test]
fn decode_path_reads_multibyte_text() {
    let bytes = "/tmp/été/日本語/🦀".as_bytes();
    assert_eq!(decode_path(bytes), Ok(String::from("/tmp/été/日本語/🦀")));
}

#[test]
fn decode_path_of_nothing_is_the_empty_path() {
    assert_eq!(decode_path(b""), Ok(String::new()));
}

#[test]
fn decode_path_refuses_bytes_that_are_not_text() {
    assert_eq!(decode_path(&[0x2f, 0xff, 0x2f]), Err(PathError::NotText));
    assert_eq!(decode_path(&[0xc3]), Err(PathError::NotText));
    assert_eq!(decode_path(&[0xed, 0xa0, 0x80]), Err(PathError::NotText));
    assert_eq!(decode_path(&[0xc0, 0xaf]), Err(PathError::NotText));
}

#[test]
fn decode_event_keeps_id_and_flags() {
    let event = decode_event(&native(42, EVENT_ITEM_CREATED, b"/a/b"));
    assert_eq!(event, Ok(raw(42, EVENT_ITEM_CREATED, "/a/b")));
}

#[test]
fn decode_event_refuses_a_malformed_path() {
    assert_eq!(decode_event(&native(1, 0, &[0x80])), Err(PathError::NotText));
}

#[test]
fn decode_batch_keeps_the_order_of_the_events() {
    let batch = vec![
        native(10, EVENT_ITEM_CREATED, b"/w/a"),
        native(11, EVENT_ITEM_MODIFIED, b"/w/b"),
        native(12, EVENT_ITEM_REMOVED, b"/w/c"),
    ];
    let decoded = decode_batch(&batch);
    assert_eq!(
        decoded,
        DecodedBatch {
            events: vec![
                raw(10, EVENT_ITEM_CREATED, "/w/a"),
                raw(11, EVENT_ITEM_MODIFIED, "/w/b"),
                raw(12, EVENT_ITEM_REMOVED, "/w/c"),
            ],
            malformed_at: None,
        }
    );
    assert!(decoded.new_events_available());
}

#[test]
fn decode_batch_stops_at_the_first_malformed_path() {
    let batch = vec![
        native(1, EVENT_ITEM_CREATED, b"/w/a"),
        native(2, EVENT_ITEM_CREATED, &[0x2f, 0xfe]),
        native(3, EVENT_ITEM_CREATED, b"/w/c"),
        native(4, EVENT_ITEM_CREATED, &[0xff]),
    ];
    let decoded = decode_batch(&batch);
    assert_eq!(decoded.events, vec![raw(1, EVENT_ITEM_CREATED, "/w/a")]);
    assert_eq!(decoded.malformed_at, Some(1));
    assert!(!decoded.new_events_available());
}

#[test]
fn decode_batch_with_a_malformed_first_event_delivers_nothing() {
    let batch = vec![native(1, EVENT_ITEM_CREATED, &[0xff]), native(2, 0, b"/ok")];
    let decoded = decode_batch(&batch);
    assert_eq!(decoded.events, Vec::<RawEvent>::new());
    assert_eq!(decoded.malformed_at, Some(0));
    assert!(!decoded.new_events_available());
}

#[test]
fn empty_batch_is_not_announced() {
    let decoded = decode_batch(&Vec::new());
    assert_eq!(decoded.events, Vec::<RawEvent>::new());
    assert_eq!(decoded.malformed_at, None);
    assert!(!decoded.new_events_available());
}

#[test]
fn one_event_batch_is_announced() {
    let decoded = decode_batch(&vec![native(5, 0, b"/w")]);
    assert_eq!(decoded.events.len(), 1);
    assert!(decoded.new_events_available());
}

#[test]
fn one_event_gives_one_call_per_kind() {
    let event = raw(7, EVENT_ITEM_CREATED | EVENT_ITEM_MODIFIED, "/w/new");
    assert_eq!(
        deliveries(&event, false),
        vec![call(7, Kind::CREATE, "/w/new"), call(7, Kind::MODIFY, "/w/new")]
    );
}

#[test]
fn event_without_classified_bits_gives_no_call() {
    assert_eq!(deliveries(&raw(7, 0x0001_0000, "/w/file"), true), Vec::<Delivery>::new());
}

#[test]
fn renamed_event_follows_the_probe() {
    let event = raw(9, EVENT_ITEM_RENAMED, "/w/moved");
    assert_eq!(deliveries(&event, true), vec![call(9, Kind::CREATE, "/w/moved")]);
    assert_eq!(deliveries(&event, false), vec![call(9, Kind::DELETE, "/w/moved")]);
}

#[test]
fn calls_of_a_batch_follow_the_ids_10_11_12() {
    let events = vec![
        raw(10, EVENT_ITEM_CREATED, "/w/a"),
        raw(11, EVENT_ITEM_CREATED | EVENT_ITEM_MODIFIED, "/w/b"),
        raw(12, EVENT_MUST_SCAN_SUBDIRS, "/w"),
    ];
    let calls = batch_calls(&events, &vec![false, false, false]);
    assert_eq!(
        calls,
        vec![
            call(10, Kind::CREATE, "/w/a"),
            call(11, Kind::CREATE, "/w/b"),
            call(11, Kind::MODIFY, "/w/b"),
            call(12, Kind::OVERFLOW, "/w"),
        ]
    );
    let ids: Vec<u64> = calls.iter().map(|c| c.id).collect();
    assert_eq!(ids, vec![10, 11, 11, 12]);
}

#[test]
fn batch_calls_read_each_events_own_answer() {
    let events = vec![
        raw(1, EVENT_ITEM_RENAMED, "/w/from"),
        raw(2, EVENT_ITEM_RENAMED, "/w/to"),
    ];
    assert_eq!(
        batch_calls(&events, &vec![false, true]),
        vec![call(1, Kind::DELETE, "/w/from"), call(2, Kind::CREATE, "/w/to")]
    );
}

#[test]
fn batch_calls_take_a_missing_answer_as_absent() {
    let events = vec![
        raw(1, EVENT_ITEM_RENAMED, "/w/x"),
        raw(2, EVENT_ITEM_RENAMED, "/w/y"),
    ];
    assert_eq!(
        batch_calls(&events, &vec![true]),
        vec![call(1, Kind::CREATE, "/w/x"), call(2, Kind::DELETE, "/w/y")]
    );
    assert_eq!(
        batch_calls(&events, &Vec::new()),
        vec![call(1, Kind::DELETE, "/w/x"), call(2, Kind::DELETE, "/w/y")]
    );
}

#[test]
fn batch_calls_of_two_batches_concatenate() {
    let first = vec![raw(1, EVENT_ITEM_CREATED, "/w/a"), raw(2, EVENT_ITEM_RENAMED, "/w/b")];
    let second = vec![raw(3, EVENT_ITEM_REMOVED, "/w/c")];
    let mut whole = first.clone();
    whole.extend(second.clone());
    let mut expected = batch_calls(&first, &vec![false, true]);
    expected.extend(batch_calls(&second, &vec![false]));
    assert_eq!(batch_calls(&whole, &vec![false, true, false]), expected);
}

#[test]
fn empty_batch_gives_no_call() {
    assert_eq!(batch_calls(&Vec::new(), &Vec::new()), Vec::<Delivery>::new());
}
