use reclaim::store::{CandidateStore, SelectOptions, SelectStatus};

fn searched(path: &str, prefix: &str) -> SelectOptions {
    SelectOptions::new(path.to_owned(), prefix.to_owned(), "[wait]".to_owned(), SelectStatus::Searched)
}

fn snapshot(store: &CandidateStore) -> Vec<(String, String, String, SelectStatus)> {
    let mut all = Vec::new();
    let mut i = 0;
    while i < store.len() {
        let e = store.get(i);
        all.push((e.path, e.prefix, e.end, e.status));
        i += 1;
    }
    all
}

#[test]
fn append_issues_consecutive_stable_indices() {
    let mut store = CandidateStore::new();
    assert_eq!(store.len(), 0);
    assert_eq!(store.append(searched("a", "[Node]")), 0);
    assert_eq!(store.append(searched("b", "[Rust]")), 1);
    assert_eq!(store.len(), 2);
    assert_eq!(store.get(0).path, "a");
    assert_eq!(store.get(1).path, "b");
    assert_eq!(store.get(0).end, "[wait]");
    assert_eq!(store.get(0).status, SelectStatus::Searched);
}

#[test]
fn lifecycle_advances_searched_live_deleting_deleted() {
    let mut store = CandidateStore::new();
    store.append(searched("a", "[Node]"));
    assert_eq!(store.get(0).status, SelectStatus::Searched);
    assert!(store.mark_live(0, "[1.00Mb]".to_owned()));
    assert_eq!(store.get(0).status, SelectStatus::Live);
    assert_eq!(store.get(0).end, "[1.00Mb]");
    assert!(store.request_delete(0));
    assert_eq!(store.get(0).status, SelectStatus::Deleting);
    assert_eq!(store.get(0).end, "[Removing]");
    assert!(store.finish_delete(0, true, ""));
    assert_eq!(store.get(0).status, SelectStatus::Deleted);
    assert_eq!(store.get(0).end, "[Removed]");
    // identity never changes along the way
    assert_eq!(store.get(0).path, "a");
    assert_eq!(store.get(0).prefix, "[Node]");
}

#[test]
fn no_backward_transition_is_ever_observable() {
    let mut store = CandidateStore::new();
    store.append(searched("a", "[Node]"));
    store.mark_live(0, "[1.00Mb]".to_owned());
    store.request_delete(0);
    store.finish_delete(0, true, "");
    // every attempt to move backward is refused and changes nothing
    assert!(!store.set_status(0, SelectStatus::Live));
    assert!(!store.set_status(0, SelectStatus::Searched));
    assert!(!store.set_status(0, SelectStatus::Deleting));
    assert!(!store.mark_live(0, "[9.99Mb]".to_owned()));
    assert!(!store.request_delete(0));
    assert!(!store.finish_delete(0, false, "again"));
    assert_eq!(store.get(0).status, SelectStatus::Deleted);
    assert_eq!(store.get(0).end, "[Removed]");
}

#[test]
fn set_status_takes_only_forward_steps() {
    let mut store = CandidateStore::new();
    store.append(searched("a", "[Node]"));
    assert!(store.set_status(0, SelectStatus::Calculating));
    assert_eq!(store.get(0).status, SelectStatus::Calculating);
    assert!(!store.set_status(0, SelectStatus::Searched));
    assert!(store.set_status(0, SelectStatus::Deleted));
    assert_eq!(store.get(0).status, SelectStatus::Deleted);
    assert!(!store.set_status(0, SelectStatus::System));
}

#[test]
fn system_entries_never_transition() {
    let mut store = CandidateStore::new();
    store.append(SelectOptions::new("Exit".to_owned(), "".to_owned(), "".to_owned(), SelectStatus::System));
    assert!(!store.set_status(0, SelectStatus::Searched));
    assert!(!store.set_status(0, SelectStatus::Live));
    assert!(!store.set_status(0, SelectStatus::Deleted));
    assert!(!store.mark_live(0, "[1.00Mb]".to_owned()));
    assert!(!store.request_delete(0));
    assert!(!store.finish_delete(0, true, ""));
    assert_eq!(store.get(0).status, SelectStatus::System);
    assert_eq!(store.get(0).path, "Exit");
    // the degenerate forward step to the same status is allowed
    assert!(store.set_status(0, SelectStatus::System));
    assert_eq!(store.get(0).status, SelectStatus::System);
}

#[test]
fn deleting_a_non_live_candidate_is_a_noop() {
    let mut store = CandidateStore::new();
    store.append(searched("a", "[Node]"));
    store.append(searched("b", "[Rust]"));
    store.mark_live(1, "[2.00Mb]".to_owned());
    store.request_delete(1);
    store.append(SelectOptions::new("Exit".to_owned(), "".to_owned(), "".to_owned(), SelectStatus::System));
    let before = snapshot(&store);

    assert!(!store.request_delete(0));  // still Searched
    assert!(!store.request_delete(1));  // already Deleting
    assert!(!store.request_delete(2));  // System
    assert!(!store.request_delete(3));  // out of range
    assert_eq!(snapshot(&store), before);

    store.finish_delete(1, true, "");
    let before = snapshot(&store);
    assert!(!store.request_delete(1));  // already Deleted
    assert_eq!(snapshot(&store), before);
}

#[test]
fn failed_deletion_still_finishes_with_an_error_annotation() {
    // the backing path disappeared underneath a Live candidate: deletion
    // fails, the entry still ends Deleted with a non-empty error text, and
    // no other candidate is disturbed
    let mut store = CandidateStore::new();
    store.append(searched("gone", "[Node]"));
    store.append(searched("other", "[Rust]"));
    store.mark_live(0, "[3.10Mb]".to_owned());
    store.mark_live(1, "[4.20Mb]".to_owned());
    assert!(store.request_delete(0));
    assert!(store.finish_delete(0, false, "No such file or directory"));
    assert_eq!(store.get(0).status, SelectStatus::Deleted);
    assert_eq!(store.get(0).end, "[ErrNo such file or directory]");
    assert!(store.get(0).end.len() > "[Err]".len());
    // the sibling candidate is untouched and still deletable
    assert_eq!(store.get(1).status, SelectStatus::Live);
    assert_eq!(store.get(1).end, "[4.20Mb]");
    assert!(store.request_delete(1));
}

#[test]
fn annotations_may_change_without_touching_status_or_identity() {
    let mut store = CandidateStore::new();
    store.append(searched("a", "[Node]"));
    assert!(store.set_annotation(0, "[probing]".to_owned()));
    assert_eq!(store.get(0).end, "[probing]");
    assert_eq!(store.get(0).status, SelectStatus::Searched);
    assert_eq!(store.get(0).path, "a");
    assert!(!store.set_annotation(1, "[nope]".to_owned()));
    assert_eq!(store.len(), 1);
}

#[test]
fn mark_live_touches_only_searched_entries() {
    let mut store = CandidateStore::new();
    store.append(searched("a", "[Node]"));
    store.mark_live(0, "[1.00Mb]".to_owned());
    // a second, stale estimate changes nothing
    assert!(!store.mark_live(0, "[8.88Mb]".to_owned()));
    assert_eq!(store.get(0).end, "[1.00Mb]");
    assert!(!store.mark_live(7, "[1.00Mb]".to_owned()));
}
