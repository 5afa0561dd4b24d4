use std::sync::atomic::{AtomicBool, Ordering};
use std::sync::Mutex;
use yttui::dispatcher::{run_search, try_recv, DispatchError, Received, SearchDispatcher};
use yttui::search::{SearchBackend, SearchError, SearchResult, SortOrder, VideoDuration};

/// Backend that heeds its cancel flag.
struct CancelBackend {
    cancel_observed: Mutex<bool>,
}

impl SearchBackend for CancelBackend {
    fn search(
        &self,
        query: &str,
        _count: u32,
        _sort: SortOrder,
        cancel: &AtomicBool,
    ) -> Result<Vec<SearchResult>, SearchError> {
        if cancel.load(Ordering::SeqCst) {
            *self.cancel_observed.lock().unwrap() = true;
            return Err(SearchError::Cancelled);
        }
        Ok(vec![SearchResult {
            id: format!("for-{query}"),
            title: query.to_string(),
            channel: None,
            duration: VideoDuration::Seconds(60),
        }])
    }
}

/// Backend that returns immediately. Used when we only care about
/// seq bookkeeping, not interleaving.
#[derive(Clone)]
struct InstantBackend;

impl SearchBackend for InstantBackend {
    fn search(
        &self,
        query: &str,
        _count: u32,
        _sort: SortOrder,
        _cancel: &AtomicBool,
    ) -> Result<Vec<SearchResult>, SearchError> {
        Ok(vec![SearchResult {
            id: query.to_string(),
            title: query.to_string(),
            channel: None,
            duration: VideoDuration::Seconds(0),
        }])
    }
}

/// Backend that records what it was asked.
struct RecordingBackend {
    asked: Mutex<Vec<(String, u32, SortOrder)>>,
}

impl SearchBackend for RecordingBackend {
    fn search(
        &self,
        query: &str,
        count: u32,
        sort: SortOrder,
        _cancel: &AtomicBool,
    ) -> Result<Vec<SearchResult>, SearchError> {
        self.asked.lock().unwrap().push((query.to_string(), count, sort));
        Ok(vec![])
    }
}

fn no_cancel() -> AtomicBool {
    AtomicBool::new(false)
}

#[test]
fn dispatch_error_wraps_search_error_via_from() {
    let se = SearchError::Cancelled;
    let de: DispatchError = se.into();
    assert!(matches!(de, DispatchError::Search(SearchError::Cancelled)));
}

#[test]
fn dispatch_error_worker_panicked_renders_a_useful_message() {
    let de = DispatchError::WorkerPanicked;
    let s = de.to_string();
    assert!(s.contains("worker"));
    assert!(s.contains("crashed") || s.contains("panic"));
}

#[test]
fn dispatch_advances_seq_monotonically() {
    let mut d = SearchDispatcher::new(InstantBackend);
    assert_eq!(d.current_seq(), 0);
    let _p1 = d.dispatch("a".into(), 1, false);
    assert_eq!(d.current_seq(), 1);
    let _p2 = d.dispatch("b".into(), 1, false);
    assert_eq!(d.current_seq(), 2);
}

#[test]
fn outcome_is_tagged_with_dispatch_seq() {
    let mut d = SearchDispatcher::new(InstantBackend);
    let p1 = d.dispatch("a".into(), 1, false);
    let p2 = d.dispatch("b".into(), 1, false);
    let (seq1, out1) = run_search(d.backend(), &p1, &no_cancel());
    let (seq2, out2) = run_search(d.backend(), &p2, &no_cancel());
    assert_eq!(seq1, 1);
    assert_eq!(seq2, 2);
    assert_eq!(out1.unwrap()[0].id, "a");
    assert_eq!(out2.unwrap()[0].id, "b");
}

#[test]
fn cancel_bumps_seq_and_trips_flag() {
    let backend = CancelBackend { cancel_observed: Mutex::new(false) };
    let mut d = SearchDispatcher::new(backend);
    let mut p = d.dispatch("a".into(), 1, false);
    let before = d.current_seq();
    d.cancel(&mut p);
    assert!(p.cancelled);
    assert_eq!(d.current_seq(), before + 1);
    let flag = AtomicBool::new(p.cancelled);
    let (_seq, outcome) = run_search(d.backend(), &p, &flag);
    assert!(matches!(outcome, Err(SearchError::Cancelled)));
    assert!(*d.backend().cancel_observed.lock().unwrap());
}

#[test]
fn stale_result_is_identifiable_via_seq_compare() {
    let mut d = SearchDispatcher::new(InstantBackend);
    let p1 = d.dispatch("a".into(), 1, false);
    let _p2 = d.dispatch("b".into(), 1, false);
    let (seq1, _) = run_search(d.backend(), &p1, &no_cancel());
    assert_ne!(seq1, d.current_seq());
}

#[test]
fn cancel_then_new_dispatch_invalidates_old_seq() {
    let mut d = SearchDispatcher::new(InstantBackend);
    let mut p1 = d.dispatch("a".into(), 1, false);
    d.cancel(&mut p1);
    let p2 = d.dispatch("b".into(), 1, false);

    let (p1_seq, _) = run_search(d.backend(), &p1, &no_cancel());
    let (p2_seq, _) = run_search(d.backend(), &p2, &no_cancel());

    assert_eq!(p1_seq, 1);
    assert_eq!(p2_seq, 3);
    assert_eq!(d.current_seq(), 3);
    assert_ne!(p1_seq, d.current_seq(), "p1 must read as stale");
    assert_eq!(p2_seq, d.current_seq(), "p2 must read as fresh");
}

#[test]
fn a_search_asks_for_what_was_dispatched() {
    let mut d = SearchDispatcher::new(RecordingBackend { asked: Mutex::new(vec![]) });
    let p1 = d.dispatch("rust".into(), 7, true);
    let p2 = d.dispatch("vim".into(), 50, false);
    assert_eq!(run_search(d.backend(), &p1, &no_cancel()), (1, Ok(vec![])));
    assert_eq!(run_search(d.backend(), &p2, &no_cancel()), (2, Ok(vec![])));
    assert_eq!(
        *d.backend().asked.lock().unwrap(),
        vec![
            ("rust".to_string(), 7, SortOrder::Date),
            ("vim".to_string(), 50, SortOrder::Relevance),
        ]
    );
}

#[test]
fn a_closed_channel_is_a_panicked_worker() {
    assert_eq!(try_recv(Received::Disconnected), Err(DispatchError::WorkerPanicked));
    assert_eq!(try_recv(Received::Nothing), Ok(None));
    assert_eq!(try_recv(Received::Outcome((3, Ok(vec![])))), Ok(Some((3, Ok(vec![])))));
}
