use reqreply::signal_queue::{SharedSignalQueue, WaitVerdict};

#[test]
fn new_queue_is_empty() {
    let queue = SharedSignalQueue::new();
    assert!(queue.is_empty());
    assert_eq!(queue.len(), 0);
}

#[test]
fn append_keeps_arrival_order() {
    let mut queue = SharedSignalQueue::new();
    queue.append("AAAA".to_string());
    queue.append("BBB".to_string());
    queue.append("CCC".to_string());
    assert_eq!(queue.len(), 3);
    let taken = queue.take_all();
    assert_eq!(taken, vec!["AAAA".to_string(), "BBB".to_string(), "CCC".to_string()]);
    assert!(queue.is_empty());
}

#[test]
fn waiter_proceeds_only_with_data() {
    // The wait-predicate re-check: a wakeup of an empty queue sends the
    // waiter back to waiting; data releases it.
    let mut queue = SharedSignalQueue::new();
    assert_eq!(queue.assess_wakeup(false), WaitVerdict::KeepWaiting);
    queue.append("DDD".to_string());
    assert_eq!(queue.assess_wakeup(false), WaitVerdict::Proceed);
}

#[test]
fn elapsed_bound_is_reported_and_queue_unchanged() {
    let mut queue = SharedSignalQueue::new();
    assert_eq!(queue.assess_wakeup(true), WaitVerdict::TimedOut);
    assert_eq!(queue.len(), 0);
    queue.append("EEE".to_string());
    // The timeout outcome is reported even when data raced in.
    assert_eq!(queue.assess_wakeup(true), WaitVerdict::TimedOut);
    assert_eq!(queue.len(), 1);
}

#[test]
fn interleaved_appends_lose_nothing() {
    // Two producers' batches, serialized as the lock admits them in
    // some interleaving: every record lands, none twice.
    let first = vec!["AAAA".to_string(), "BBB".to_string(), "CCC".to_string()];
    let second = vec!["DDD".to_string(), "EEE".to_string(), "FFF".to_string()];
    let mut queue = SharedSignalQueue::new();
    queue.append(first[0].clone());
    queue.append(second[0].clone());
    queue.append(second[1].clone());
    queue.append(first[1].clone());
    queue.append(first[2].clone());
    queue.append(second[2].clone());
    assert_eq!(queue.len(), first.len() + second.len());
    let mut taken = queue.take_all();
    taken.sort();
    let mut expected: Vec<String> = first.iter().chain(second.iter()).cloned().collect();
    expected.sort();
    assert_eq!(taken, expected);
}

#[test]
fn batch_append_lands_behind_existing_records() {
    let mut queue = SharedSignalQueue::new();
    queue.append("GGG".to_string());
    queue.append_all(vec!["HHH".to_string(), "III".to_string()]);
    let taken = queue.take_all();
    assert_eq!(taken, vec!["GGG".to_string(), "HHH".to_string(), "III".to_string()]);
}

#[test]
fn take_all_on_empty_queue_returns_nothing() {
    let mut queue = SharedSignalQueue::new();
    let taken = queue.take_all();
    assert_eq!(taken.len(), 0);
}
