use asyncgit::{AsyncGitNotification, FetchDecision, JobEvent, JobSlot};

#[test]
fn new_slot_has_no_result() {
    let slot: JobSlot<u32, Vec<u8>> = JobSlot::new(AsyncGitNotification::CommitFiles);
    assert_eq!(slot.current(), None);
    assert!(!slot.is_pending());
    assert_eq!(slot.kind(), AsyncGitNotification::CommitFiles);
}

#[test]
fn repeated_fetch_dispatches_once() {
    let mut slot: JobSlot<u32, Vec<u8>> = JobSlot::new(AsyncGitNotification::Status);
    assert_eq!(slot.fetch(5), FetchDecision::Dispatch);
    assert!(slot.is_pending());
    assert_eq!(slot.fetch(5), FetchDecision::Skip);
    // a different request is dropped too while one is in flight
    assert_eq!(slot.fetch(6), FetchDecision::Skip);
    let ev: JobEvent<String> = slot.complete(Ok(vec![1, 2]));
    assert_eq!(ev, JobEvent::Finished(AsyncGitNotification::Status));
    assert!(!slot.is_pending());
    assert_eq!(slot.current(), Some((5, vec![1, 2])));
    // the cached answer is not computed again
    assert_eq!(slot.fetch(5), FetchDecision::Skip);
    assert_eq!(slot.fetch(6), FetchDecision::Dispatch);
}

#[test]
fn failed_query_keeps_last_result() {
    let mut slot: JobSlot<u32, Vec<u8>> = JobSlot::new(AsyncGitNotification::Diff);
    assert_eq!(slot.fetch(1), FetchDecision::Dispatch);
    let ev: JobEvent<String> = slot.complete(Ok(vec![9]));
    assert_eq!(ev.kind(), AsyncGitNotification::Diff);
    assert_eq!(slot.fetch(2), FetchDecision::Dispatch);
    let ev: JobEvent<String> = slot.complete(Err("object not found".to_string()));
    assert_eq!(ev, JobEvent::Failed(AsyncGitNotification::Diff, "object not found".to_string()));
    assert!(!slot.is_pending());
    assert_eq!(slot.current(), Some((1, vec![9])));
}
