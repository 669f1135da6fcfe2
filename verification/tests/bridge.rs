use asset_fs::error::Error;
use asset_fs::error::Response;
use asset_fs::wasm::file_loaded;
use asset_fs::wasm::load_file;
use asset_fs::wasm::try_file_loaded;
use asset_fs::wasm::try_load_file;
use asset_fs::wasm::Completion;
use asset_fs::wasm::PendingRequests;
use asset_fs::wasm::SIZE_UNAVAILABLE;
use std::cell::RefCell;
use std::rc::Rc;

type Callback = Box<dyn FnOnce(Response)>;

type Log = Rc<RefCell<Vec<(&'static str, Response)>>>;

fn tagged(log: &Log, tag: &'static str) -> Callback {
    let sink = log.clone();
    Box::new(move |response: Response| sink.borrow_mut().push((tag, response)))
}

#[test]
fn sentinel_is_minus_one() {
    assert_eq!(SIZE_UNAVAILABLE, -1);
}

#[test]
fn new_table_has_nothing_in_flight() {
    let table: PendingRequests<Callback> = PendingRequests::new();
    assert_eq!(table.len(), 0);
    assert!(!table.is_pending(0));
    assert!(!table.is_pending(u32::MAX));
}

#[test]
fn issuing_stores_the_callback_without_invoking_it() {
    let log: Log = Rc::new(RefCell::new(Vec::new()));
    let mut table = PendingRequests::new();
    load_file(&mut table, 1, tagged(&log, "a"));
    assert!(table.is_pending(1));
    assert_eq!(table.len(), 1);
    assert!(log.borrow().is_empty());
}

#[test]
fn issuing_keeps_every_request_in_flight() {
    let log: Log = Rc::new(RefCell::new(Vec::new()));
    let mut table = PendingRequests::new();
    load_file(&mut table, 10, tagged(&log, "ten"));
    load_file(&mut table, 20, tagged(&log, "twenty"));
    load_file(&mut table, 30, tagged(&log, "thirty"));
    assert_eq!(table.len(), 3);
    assert!(table.is_pending(10));
    assert!(table.is_pending(20));
    assert!(table.is_pending(30));
    file_loaded(&mut table, 10, SIZE_UNAVAILABLE).deliver();
    file_loaded(&mut table, 20, SIZE_UNAVAILABLE).deliver();
    file_loaded(&mut table, 30, SIZE_UNAVAILABLE).deliver();
    let tags: Vec<&str> = log.borrow().iter().map(|entry| entry.0).collect();
    assert_eq!(tags, vec!["ten", "twenty", "thirty"]);
}

#[test]
fn notification_drains_its_entry_and_no_other() {
    let log: Log = Rc::new(RefCell::new(Vec::new()));
    let mut table = PendingRequests::new();
    load_file(&mut table, 4, tagged(&log, "four"));
    load_file(&mut table, 5, tagged(&log, "five"));
    let completion = file_loaded(&mut table, 4, 0);
    assert!(!table.is_pending(4));
    assert!(table.is_pending(5));
    assert_eq!(table.len(), 1);
    completion.deliver();
    assert_eq!(log.borrow().len(), 1);
    assert_eq!(log.borrow()[0].0, "four");
}

#[test]
fn second_notification_finds_nothing_in_flight() {
    let log: Log = Rc::new(RefCell::new(Vec::new()));
    let mut table = PendingRequests::new();
    load_file(&mut table, 8, tagged(&log, "eight"));
    file_loaded(&mut table, 8, SIZE_UNAVAILABLE).deliver();
    assert!(!table.is_pending(8));
    assert_eq!(table.len(), 0);
    assert_eq!(log.borrow().len(), 1);
}

#[test]
fn sentinel_size_yields_download_failed_and_no_buffer() {
    let log: Log = Rc::new(RefCell::new(Vec::new()));
    let mut table = PendingRequests::new();
    load_file(&mut table, 2, tagged(&log, "two"));
    let completion = file_loaded(&mut table, 2, -1);
    assert!(matches!(completion.response, Err(Error::DownloadFailed)));
    completion.deliver();
    let log = log.borrow();
    assert_eq!(log.len(), 1);
    assert!(matches!(log[0].1, Err(Error::DownloadFailed)));
}

#[test]
fn reported_size_yields_a_zeroed_buffer_of_that_size() {
    let log: Log = Rc::new(RefCell::new(Vec::new()));
    let mut table = PendingRequests::new();
    load_file(&mut table, 2, tagged(&log, "two"));
    let completion = file_loaded(&mut table, 2, 5);
    assert_eq!(completion.response.as_ref().unwrap(), &vec![0u8; 5]);
}

#[test]
fn size_zero_yields_an_empty_buffer_not_a_failure() {
    let log: Log = Rc::new(RefCell::new(Vec::new()));
    let mut table = PendingRequests::new();
    load_file(&mut table, 0, tagged(&log, "zero"));
    let completion = file_loaded(&mut table, 0, 0);
    assert!(completion.response.as_ref().unwrap().is_empty());
    completion.deliver();
    assert!(log.borrow()[0].1.as_ref().unwrap().is_empty());
}

#[test]
fn filled_buffer_reaches_the_callback_unchanged() {
    let log: Log = Rc::new(RefCell::new(Vec::new()));
    let mut table = PendingRequests::new();
    load_file(&mut table, 77, tagged(&log, "asset"));
    let mut completion = file_loaded(&mut table, 77, 4);
    if let Ok(buffer) = completion.response.as_mut() {
        buffer.copy_from_slice(&[222, 173, 190, 239]);
    }
    completion.deliver();
    let log = log.borrow();
    assert_eq!(log.len(), 1);
    assert_eq!(log[0].0, "asset");
    assert_eq!(log[0].1.as_ref().unwrap(), &vec![222u8, 173, 190, 239]);
}

#[test]
fn requests_complete_in_any_order() {
    let log: Log = Rc::new(RefCell::new(Vec::new()));
    let mut table = PendingRequests::new();
    load_file(&mut table, 1, tagged(&log, "first"));
    load_file(&mut table, 2, tagged(&log, "second"));
    load_file(&mut table, 3, tagged(&log, "third"));
    file_loaded(&mut table, 3, 1).deliver();
    file_loaded(&mut table, 1, SIZE_UNAVAILABLE).deliver();
    file_loaded(&mut table, 2, 2).deliver();
    let log = log.borrow();
    assert_eq!(log.len(), 3);
    assert_eq!(log[0].0, "third");
    assert_eq!(log[0].1.as_ref().unwrap(), &vec![0u8]);
    assert_eq!(log[1].0, "first");
    assert!(matches!(log[1].1, Err(Error::DownloadFailed)));
    assert_eq!(log[2].0, "second");
    assert_eq!(log[2].1.as_ref().unwrap(), &vec![0u8, 0]);
    assert_eq!(table.len(), 0);
}

#[test]
fn identifier_can_be_issued_again_once_drained() {
    let log: Log = Rc::new(RefCell::new(Vec::new()));
    let mut table = PendingRequests::new();
    load_file(&mut table, 6, tagged(&log, "old"));
    file_loaded(&mut table, 6, SIZE_UNAVAILABLE).deliver();
    load_file(&mut table, 6, tagged(&log, "new"));
    assert!(table.is_pending(6));
    file_loaded(&mut table, 6, 0).deliver();
    let tags: Vec<&str> = log.borrow().iter().map(|entry| entry.0).collect();
    assert_eq!(tags, vec!["old", "new"]);
}

#[test]
fn extreme_identifiers_are_kept_apart() {
    let log: Log = Rc::new(RefCell::new(Vec::new()));
    let mut table = PendingRequests::new();
    load_file(&mut table, 0, tagged(&log, "lowest"));
    load_file(&mut table, u32::MAX, tagged(&log, "highest"));
    assert_eq!(table.len(), 2);
    file_loaded(&mut table, u32::MAX, SIZE_UNAVAILABLE).deliver();
    assert!(table.is_pending(0));
    assert_eq!(log.borrow()[0].0, "highest");
}

#[test]
fn completion_delivers_exactly_once() {
    let log: Log = Rc::new(RefCell::new(Vec::new()));
    let completion = Completion {
        callback: tagged(&log, "direct"),
        response: Ok(vec![42]),
    };
    completion.deliver();
    let log = log.borrow();
    assert_eq!(log.len(), 1);
    assert_eq!(log[0].1.as_ref().unwrap(), &vec![42u8]);
}

#[test]
fn callback_may_issue_a_request_while_it_is_being_completed() {
    let table: Rc<RefCell<PendingRequests<Callback>>> =
        Rc::new(RefCell::new(PendingRequests::new()));
    let log: Log = Rc::new(RefCell::new(Vec::new()));
    let inner_table = table.clone();
    let inner_log = log.clone();
    let chained: Callback = Box::new(move |response: Response| {
        inner_log.borrow_mut().push(("outer", response));
        let follow_up = tagged(&inner_log, "follow-up");
        load_file(&mut inner_table.borrow_mut(), 2, follow_up);
    });
    load_file(&mut table.borrow_mut(), 1, chained);
    let completion = file_loaded(&mut table.borrow_mut(), 1, SIZE_UNAVAILABLE);
    completion.deliver();
    assert!(table.borrow().is_pending(2));
    assert!(!table.borrow().is_pending(1));
    let completion = file_loaded(&mut table.borrow_mut(), 2, 0);
    completion.deliver();
    let tags: Vec<&str> = log.borrow().iter().map(|entry| entry.0).collect();
    assert_eq!(tags, vec!["outer", "follow-up"]);
}

#[test]
fn identifier_in_flight_is_refused_and_its_callback_kept() {
    let log: Log = Rc::new(RefCell::new(Vec::new()));
    let mut table = PendingRequests::new();
    load_file(&mut table, 5, tagged(&log, "first"));
    let refused = try_load_file(&mut table, 5, tagged(&log, "second"));
    assert!(refused.is_some());
    assert_eq!(table.len(), 1);
    assert!(log.borrow().is_empty());
    file_loaded(&mut table, 5, SIZE_UNAVAILABLE).deliver();
    assert_eq!(log.borrow().len(), 1);
    assert_eq!(log.borrow()[0].0, "first");
    let unused = refused.unwrap();
    unused(Ok(vec![1]));
    assert_eq!(log.borrow().len(), 2);
    assert_eq!(log.borrow()[1].0, "second");
}

#[test]
fn fresh_identifier_is_accepted_by_the_checked_issue() {
    let log: Log = Rc::new(RefCell::new(Vec::new()));
    let mut table = PendingRequests::new();
    assert!(try_load_file(&mut table, 5, tagged(&log, "first")).is_none());
    assert!(try_load_file(&mut table, 6, tagged(&log, "second")).is_none());
    assert_eq!(table.len(), 2);
    assert!(table.is_pending(5));
    assert!(table.is_pending(6));
    assert!(log.borrow().is_empty());
}

#[test]
fn spurious_notification_is_detected_and_changes_nothing() {
    let log: Log = Rc::new(RefCell::new(Vec::new()));
    let mut table = PendingRequests::new();
    load_file(&mut table, 1, tagged(&log, "one"));
    assert!(try_file_loaded(&mut table, 2, 4).is_none());
    assert!(try_file_loaded(&mut table, 2, SIZE_UNAVAILABLE).is_none());
    assert_eq!(table.len(), 1);
    assert!(table.is_pending(1));
    assert!(log.borrow().is_empty());
}

#[test]
fn repeated_notification_is_detected() {
    let log: Log = Rc::new(RefCell::new(Vec::new()));
    let mut table = PendingRequests::new();
    load_file(&mut table, 9, tagged(&log, "nine"));
    let first = try_file_loaded(&mut table, 9, 2);
    assert_eq!(first.as_ref().unwrap().response.as_ref().unwrap(), &vec![0u8, 0]);
    first.unwrap().deliver();
    assert!(try_file_loaded(&mut table, 9, 2).is_none());
    assert_eq!(table.len(), 0);
    assert_eq!(log.borrow().len(), 1);
}

#[test]
fn checked_notification_maps_the_sentinel_to_download_failed() {
    let log: Log = Rc::new(RefCell::new(Vec::new()));
    let mut table = PendingRequests::new();
    load_file(&mut table, 3, tagged(&log, "three"));
    let completion = try_file_loaded(&mut table, 3, -1).unwrap();
    assert!(matches!(completion.response, Err(Error::DownloadFailed)));
    completion.deliver();
    assert!(matches!(log.borrow()[0].1, Err(Error::DownloadFailed)));
}
