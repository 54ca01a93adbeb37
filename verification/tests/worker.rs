use window_clipboard::store::SelectionStore;
use window_clipboard::worker::{
    Event, IncrState, PropertyNotify, PropertyState, Request, SelectionRequest, Worker,
    INCR_CHUNK_SIZE, INLINE_RESERVE,
};

const TARGETS: u32 = 302;
const UTF8_STRING: u32 = 303;
const INCR: u32 = 304;
const CLIPBOARD: u32 = 300;
const PRIMARY: u32 = 1;

fn request(selection: u32, target: u32, property: u32) -> SelectionRequest {
    SelectionRequest { time: 42, requestor: 70, selection, target, property }
}

fn deleted(atom: u32) -> PropertyNotify {
    PropertyNotify { window: 70, atom, state: PropertyState::Deleted }
}

fn describe(requests: &[Request]) -> Vec<String> {
    requests.iter().map(|r| format!("{:?}", r)).collect()
}

fn notify_of(r: &SelectionRequest) -> String {
    format!(
        "{:?}",
        Request::SendSelectionNotify {
            time: r.time,
            requestor: r.requestor,
            selection: r.selection,
            target: r.target,
            property: r.property,
        }
    )
}

#[test]
fn chunk_size_and_reserve_constants() {
    assert_eq!(INCR_CHUNK_SIZE, 4000);
    assert_eq!(INLINE_RESERVE, 24);
}

#[test]
fn request_for_a_selection_that_is_not_offered_gets_no_answer() {
    let mut worker = Worker::new(TARGETS, INCR, 1000);
    let store = SelectionStore::new();
    assert!(worker.serve(&store, &request(CLIPBOARD, UTF8_STRING, 9)).is_empty());
    assert!(worker.serve(&store, &request(CLIPBOARD, TARGETS, 9)).is_empty());
    assert_eq!(worker.transfers(), 0);
}

#[test]
fn targets_request_lists_targets_and_the_offered_target() {
    let mut worker = Worker::new(TARGETS, INCR, 1000);
    let mut store = SelectionStore::new();
    store.insert(CLIPBOARD, UTF8_STRING, b"hello".to_vec());
    let r = request(CLIPBOARD, TARGETS, 9);
    let out = worker.serve(&store, &r);
    assert_eq!(
        describe(&out),
        vec![
            format!(
                "{:?}",
                Request::ChangeProperty32 {
                    window: 70,
                    property: 9,
                    type_: 4,
                    items: vec![TARGETS, UTF8_STRING],
                }
            ),
            notify_of(&r),
            format!("{:?}", Request::Flush),
        ]
    );
    assert_eq!(worker.transfers(), 0);
}

#[test]
fn small_value_is_sent_in_one_piece() {
    let mut worker = Worker::new(TARGETS, INCR, 1000);
    let mut store = SelectionStore::new();
    store.insert(CLIPBOARD, UTF8_STRING, b"hello".to_vec());
    let r = request(CLIPBOARD, UTF8_STRING, 9);
    let out = worker.serve(&store, &r);
    assert_eq!(
        describe(&out),
        vec![
            format!(
                "{:?}",
                Request::ChangeProperty8 {
                    window: 70,
                    property: 9,
                    type_: UTF8_STRING,
                    data: b"hello".to_vec(),
                }
            ),
            notify_of(&r),
            format!("{:?}", Request::Flush),
        ]
    );
    assert_eq!(worker.transfers(), 0);
    assert_eq!(worker.transfer(9), None);
}

#[test]
fn large_value_starts_an_incremental_transfer() {
    let mut worker = Worker::new(TARGETS, INCR, 1000);
    let mut store = SelectionStore::new();
    store.insert(CLIPBOARD, UTF8_STRING, vec![b'x'; 5000]);
    let r = request(CLIPBOARD, UTF8_STRING, 9);
    let out = worker.serve(&store, &r);
    assert_eq!(
        describe(&out),
        vec![
            format!("{:?}", Request::WatchProperty { window: 70, event_mask: 1 << 22 }),
            format!(
                "{:?}",
                Request::ChangeProperty32 { window: 70, property: 9, type_: INCR, items: vec![] }
            ),
            notify_of(&r),
            format!("{:?}", Request::Flush),
        ]
    );
    assert_eq!(worker.transfers(), 1);
    assert_eq!(
        worker.transfer(9),
        Some(IncrState { selection: CLIPBOARD, requestor: 70, property: 9, pos: 0 })
    );
}

#[test]
fn inline_threshold_is_strictly_below_maximum_minus_reserve() {
    let mut store = SelectionStore::new();
    let r = request(CLIPBOARD, UTF8_STRING, 9);

    store.insert(CLIPBOARD, UTF8_STRING, vec![0; 975]);
    let mut worker = Worker::new(TARGETS, INCR, 1000);
    assert_eq!(worker.serve(&store, &r).len(), 3);
    assert_eq!(worker.transfers(), 0);

    store.insert(CLIPBOARD, UTF8_STRING, vec![0; 976]);
    let mut worker = Worker::new(TARGETS, INCR, 1000);
    assert_eq!(worker.serve(&store, &r).len(), 4);
    assert_eq!(worker.transfers(), 1);
}

#[test]
fn a_maximum_below_the_reserve_never_sends_in_one_piece() {
    let mut store = SelectionStore::new();
    store.insert(CLIPBOARD, UTF8_STRING, Vec::new());
    let r = request(CLIPBOARD, UTF8_STRING, 9);
    for max in [0usize, 10, 23, 24] {
        let mut worker = Worker::new(TARGETS, INCR, max);
        assert_eq!(worker.serve(&store, &r).len(), 4);
        assert_eq!(worker.transfers(), 1);
    }
    let mut worker = Worker::new(TARGETS, INCR, 25);
    assert_eq!(worker.serve(&store, &r).len(), 3);
    assert_eq!(worker.transfers(), 0);
}

#[test]
fn increments_are_four_thousand_bytes_then_the_rest_then_empty() {
    let value: Vec<u8> = (0..9000u32).map(|i| (i % 251) as u8).collect();
    let mut worker = Worker::new(TARGETS, INCR, 1000);
    let mut store = SelectionStore::new();
    store.insert(CLIPBOARD, UTF8_STRING, value.clone());
    let _ = worker.serve(&store, &request(CLIPBOARD, UTF8_STRING, 9));

    let expected = [(0usize, 4000usize), (4000, 8000), (8000, 9000), (9000, 9000)];
    for (i, (from, to)) in expected.iter().enumerate() {
        let out = worker.advance(&store, &deleted(9));
        assert_eq!(
            describe(&out),
            vec![
                format!(
                    "{:?}",
                    Request::ChangeProperty8 {
                        window: 70,
                        property: 9,
                        type_: UTF8_STRING,
                        data: value[*from..*to].to_vec(),
                    }
                ),
                format!("{:?}", Request::Flush),
            ]
        );
        if i < 3 {
            assert_eq!(worker.transfer(9).unwrap().pos, *to);
        } else {
            assert_eq!(worker.transfer(9), None);
        }
    }
    assert!(worker.advance(&store, &deleted(9)).is_empty());
}

#[test]
fn property_changes_that_are_no_deletion_of_a_transfer_are_passed_over() {
    let mut worker = Worker::new(TARGETS, INCR, 1000);
    let mut store = SelectionStore::new();
    store.insert(CLIPBOARD, UTF8_STRING, vec![b'x'; 5000]);
    let _ = worker.serve(&store, &request(CLIPBOARD, UTF8_STRING, 9));
    let new_value = PropertyNotify { window: 70, atom: 9, state: PropertyState::NewValue };
    assert!(worker.advance(&store, &new_value).is_empty());
    assert!(worker.advance(&store, &deleted(8)).is_empty());
    assert_eq!(worker.transfer(9).unwrap().pos, 0);
}

#[test]
fn a_transfer_whose_selection_is_no_longer_offered_is_left_alone() {
    let mut worker = Worker::new(TARGETS, INCR, 1000);
    let mut store = SelectionStore::new();
    store.insert(CLIPBOARD, UTF8_STRING, vec![b'x'; 5000]);
    let _ = worker.serve(&store, &request(CLIPBOARD, UTF8_STRING, 9));
    store.remove(CLIPBOARD);
    assert!(worker.advance(&store, &deleted(9)).is_empty());
    assert_eq!(worker.transfers(), 1);
}

#[test]
fn a_transfer_beyond_the_end_of_a_shorter_value_ends_with_the_empty_increment() {
    let mut worker = Worker::new(TARGETS, INCR, 1000);
    let mut store = SelectionStore::new();
    store.insert(CLIPBOARD, UTF8_STRING, vec![b'x'; 9000]);
    let _ = worker.serve(&store, &request(CLIPBOARD, UTF8_STRING, 9));
    let _ = worker.advance(&store, &deleted(9));
    let _ = worker.advance(&store, &deleted(9));
    assert_eq!(worker.transfer(9).unwrap().pos, 8000);
    store.insert(CLIPBOARD, UTF8_STRING, vec![b'y'; 100]);
    let out = worker.advance(&store, &deleted(9));
    assert_eq!(
        describe(&out),
        vec![
            format!(
                "{:?}",
                Request::ChangeProperty8 {
                    window: 70,
                    property: 9,
                    type_: UTF8_STRING,
                    data: vec![],
                }
            ),
            format!("{:?}", Request::Flush),
        ]
    );
    assert_eq!(worker.transfers(), 0);
}

#[test]
fn cancel_drops_the_transfer_recorded_for_the_selection() {
    let mut worker = Worker::new(TARGETS, INCR, 1000);
    let mut store = SelectionStore::new();
    store.insert(CLIPBOARD, UTF8_STRING, vec![b'x'; 5000]);
    store.insert(PRIMARY, UTF8_STRING, vec![b'y'; 5000]);
    let _ = worker.serve(&store, &request(CLIPBOARD, UTF8_STRING, 9));
    let _ = worker.serve(&store, &request(PRIMARY, UTF8_STRING, 10));
    assert_eq!(worker.transfers(), 2);
    worker.cancel(CLIPBOARD);
    assert_eq!(worker.transfer(9), None);
    assert!(worker.transfer(10).is_some());
    worker.cancel(CLIPBOARD);
    assert_eq!(worker.transfers(), 1);
    worker.cancel_all(&vec![CLIPBOARD, PRIMARY, 77]);
    assert_eq!(worker.transfers(), 0);
}

#[test]
fn a_turn_applies_cancellations_before_the_event() {
    let mut worker = Worker::new(TARGETS, INCR, 1000);
    let mut store = SelectionStore::new();
    store.insert(CLIPBOARD, UTF8_STRING, vec![b'x'; 5000]);
    let none: Vec<u32> = Vec::new();
    let start = Event::SelectionRequest(request(CLIPBOARD, UTF8_STRING, 9));
    assert_eq!(worker.run(&mut store, &none, &start).len(), 4);
    assert_eq!(worker.run(&mut store, &none, &Event::PropertyNotify(deleted(9))).len(), 2);
    assert_eq!(worker.transfer(9).unwrap().pos, 4000);

    store.insert(CLIPBOARD, UTF8_STRING, vec![b'z'; 5000]);
    let out = worker.run(&mut store, &vec![CLIPBOARD], &Event::PropertyNotify(deleted(9)));
    assert!(out.is_empty());
    assert_eq!(worker.transfers(), 0);

    // A cancellation that arrives with the request itself does not undo it.
    let out = worker.run(&mut store, &vec![CLIPBOARD], &start);
    assert_eq!(out.len(), 4);
    assert_eq!(worker.transfer(9).unwrap().pos, 0);
    assert!(worker.run(&mut store, &none, &Event::Other).is_empty());
    assert_eq!(worker.transfers(), 1);
}

#[test]
fn selection_clear_withdraws_offer_and_transfer() {
    let mut worker = Worker::new(TARGETS, INCR, 1000);
    let mut store = SelectionStore::new();
    store.insert(CLIPBOARD, UTF8_STRING, vec![b'x'; 5000]);
    store.insert(PRIMARY, UTF8_STRING, b"p".to_vec());
    let none: Vec<u32> = Vec::new();
    let _ = worker.run(
        &mut store,
        &none,
        &Event::SelectionRequest(request(CLIPBOARD, UTF8_STRING, 9)),
    );
    let out = worker.run(&mut store, &none, &Event::SelectionClear { selection: CLIPBOARD });
    assert!(out.is_empty());
    assert!(!store.contains(CLIPBOARD));
    assert!(store.contains(PRIMARY));
    assert_eq!(worker.transfers(), 0);
    let again = Event::SelectionRequest(request(CLIPBOARD, UTF8_STRING, 9));
    assert!(worker.run(&mut store, &none, &again).is_empty());
}

#[test]
fn a_skipped_turn_still_cancels_and_drops_a_lost_selection() {
    let mut worker = Worker::new(TARGETS, INCR, 1000);
    let mut store = SelectionStore::new();
    store.insert(CLIPBOARD, UTF8_STRING, vec![b'x'; 5000]);
    store.insert(PRIMARY, UTF8_STRING, vec![b'y'; 5000]);
    let _ = worker.serve(&store, &request(CLIPBOARD, UTF8_STRING, 9));
    let _ = worker.serve(&store, &request(PRIMARY, UTF8_STRING, 10));
    worker.skip(&vec![PRIMARY], &Event::PropertyNotify(deleted(9)));
    assert_eq!(worker.transfer(10), None);
    assert_eq!(worker.transfer(9).unwrap().pos, 0);
    worker.skip(&Vec::new(), &Event::SelectionClear { selection: CLIPBOARD });
    assert_eq!(worker.transfers(), 0);
    assert!(store.contains(CLIPBOARD));
}

#[test]
fn clear_gives_up_one_selection_only() {
    let mut worker = Worker::new(TARGETS, INCR, 1000);
    let mut store = SelectionStore::new();
    store.insert(CLIPBOARD, UTF8_STRING, b"c".to_vec());
    store.insert(PRIMARY, UTF8_STRING, b"p".to_vec());
    worker.clear(&mut store, PRIMARY);
    assert!(store.contains(CLIPBOARD));
    assert!(!store.contains(PRIMARY));
}
