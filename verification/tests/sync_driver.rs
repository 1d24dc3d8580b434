use oxybot::sync::{SyncAction, SyncDriver, SyncError, SyncEvent, SyncPhase, SyncRequest};

fn request(since: Option<&str>) -> SyncRequest {
    SyncRequest { since: since.map(|s| s.to_string()), lazy_load_members: true }
}

fn catch_up(initial: Option<&str>, failures: usize, cursor: &str) -> (SyncDriver, Vec<SyncAction>) {
    let (mut driver, first) = SyncDriver::start(initial.map(|s| s.to_string()));
    let mut actions = vec![first];
    for _ in 0..failures {
        let (next, action) = driver.step(SyncEvent::RoundFailed);
        driver = next;
        actions.push(action);
    }
    let (driver, action) = driver.step(SyncEvent::RoundSucceeded(cursor.to_string()));
    actions.push(action);
    (driver, actions)
}

fn listening(cursor: &str) -> SyncDriver {
    let (driver, _) = catch_up(None, 0, cursor);
    let (driver, _) = driver.step(SyncEvent::Persisted);
    driver
}

#[test]
fn start_asks_for_a_round() {
    let (driver, action) = SyncDriver::start(None);
    assert_eq!(driver, SyncDriver { phase: SyncPhase::CatchUp, since: None });
    assert_eq!(action, SyncAction::RequestRound(request(None)));
    assert!(!driver.is_listening());
    assert_eq!(driver.failure(), None);
}

#[test]
fn start_uses_the_restored_cursor() {
    let (driver, action) = SyncDriver::start(Some("s42".to_string()));
    assert_eq!(driver.since, Some("s42".to_string()));
    assert_eq!(action, SyncAction::RequestRound(request(Some("s42"))));
}

#[test]
fn requests_load_members_lazily() {
    assert!(SyncRequest::from_cursor(None).lazy_load_members);
    assert_eq!(SyncRequest::from_cursor(Some("t".to_string())), request(Some("t")));
}

#[test]
fn catch_up_without_failure() {
    let (driver, actions) = catch_up(None, 0, "s1");
    assert_eq!(
        actions,
        vec![SyncAction::RequestRound(request(None)), SyncAction::Persist("s1".to_string())]
    );
    assert_eq!(driver.phase, SyncPhase::CatchUpPersisting);
    assert_eq!(driver.since, Some("s1".to_string()));
}

#[test]
fn catch_up_retries_until_success() {
    for failures in [1usize, 3, 17] {
        let (driver, actions) = catch_up(Some("s0"), failures, "s9");
        assert_eq!(actions.len(), failures + 2);
        let attempts = actions
            .iter()
            .filter(|action| matches!(action, SyncAction::RequestRound(_)))
            .count();
        assert_eq!(attempts, failures + 1);
        for action in &actions[..failures + 1] {
            assert_eq!(*action, SyncAction::RequestRound(request(Some("s0"))));
        }
        let persisted: Vec<&SyncAction> =
            actions.iter().filter(|action| matches!(action, SyncAction::Persist(_))).collect();
        assert_eq!(persisted, vec![&SyncAction::Persist("s9".to_string())]);
        assert_eq!(actions[failures + 1], SyncAction::Persist("s9".to_string()));
        assert_eq!(driver.phase, SyncPhase::CatchUpPersisting);
    }
}

#[test]
fn catch_up_ends_by_listening() {
    let (driver, _) = catch_up(Some("s0"), 2, "s1");
    assert!(!driver.is_listening());
    let (driver, action) = driver.step(SyncEvent::Persisted);
    assert_eq!(action, SyncAction::Listen(request(Some("s1"))));
    assert_eq!(driver, SyncDriver { phase: SyncPhase::SteadyState, since: Some("s1".to_string()) });
    assert!(driver.is_listening());
}

#[test]
fn catch_up_persist_failure_stops() {
    let (driver, _) = catch_up(None, 0, "s1");
    let (driver, action) = driver.step(SyncEvent::PersistFailed);
    assert_eq!(action, SyncAction::Stop(SyncError::Persist));
    assert_eq!(driver.phase, SyncPhase::Failed(SyncError::Persist));
    assert_eq!(driver.failure(), Some(SyncError::Persist));
    assert!(!driver.is_listening());
}

#[test]
fn listening_persists_every_round() {
    let mut driver = listening("s1");
    for cursor in ["s2", "s3", "s4"] {
        let (next, action) = driver.step(SyncEvent::RoundSucceeded(cursor.to_string()));
        assert_eq!(action, SyncAction::Persist(cursor.to_string()));
        assert_eq!(next.phase, SyncPhase::SteadyStatePersisting);
        assert_eq!(next.since, Some(cursor.to_string()));
        assert!(next.is_listening());
        let (next, action) = next.step(SyncEvent::Persisted);
        assert_eq!(action, SyncAction::Continue);
        assert_eq!(next.phase, SyncPhase::SteadyState);
        assert_eq!(next.since, Some(cursor.to_string()));
        driver = next;
    }
}

#[test]
fn listening_round_failure_stops() {
    let driver = listening("s1");
    let (driver, action) = driver.step(SyncEvent::RoundFailed);
    assert_eq!(action, SyncAction::Stop(SyncError::Transport));
    assert_eq!(driver.phase, SyncPhase::Failed(SyncError::Transport));
    assert_eq!(driver.failure(), Some(SyncError::Transport));
    assert_eq!(driver.since, Some("s1".to_string()));
}

#[test]
fn listening_persist_failure_stops() {
    let driver = listening("s1");
    let (driver, _) = driver.step(SyncEvent::RoundSucceeded("s2".to_string()));
    let (driver, action) = driver.step(SyncEvent::PersistFailed);
    assert_eq!(action, SyncAction::Stop(SyncError::Persist));
    assert_eq!(driver.phase, SyncPhase::Failed(SyncError::Persist));
}

#[test]
fn stopped_driver_stays_stopped() {
    let driver = listening("s1");
    let (mut driver, _) = driver.step(SyncEvent::RoundFailed);
    let events = [
        SyncEvent::RoundSucceeded("s2".to_string()),
        SyncEvent::RoundFailed,
        SyncEvent::Persisted,
        SyncEvent::PersistFailed,
    ];
    for event in events {
        let (next, action) = driver.step(event);
        assert_eq!(action, SyncAction::Stop(SyncError::Transport));
        assert_eq!(next.phase, SyncPhase::Failed(SyncError::Transport));
        driver = next;
    }
}

#[test]
fn sync_event_out_of_turn_changes_nothing() {
    let (driver, _) = SyncDriver::start(Some("s0".to_string()));
    let before = driver.clone();
    let (driver, action) = driver.step(SyncEvent::Persisted);
    assert_eq!(action, SyncAction::Wait);
    assert_eq!(driver, before);
    let (driver, action) = driver.step(SyncEvent::PersistFailed);
    assert_eq!(action, SyncAction::Wait);
    assert_eq!(driver, before);

    let (driver, _) = driver.step(SyncEvent::RoundSucceeded("s1".to_string()));
    let before = driver.clone();
    let (driver, action) = driver.step(SyncEvent::RoundFailed);
    assert_eq!(action, SyncAction::Wait);
    assert_eq!(driver, before);
    let (driver, action) = driver.step(SyncEvent::RoundSucceeded("s2".to_string()));
    assert_eq!(action, SyncAction::Wait);
    assert_eq!(driver, before);

    let driver = listening("s1");
    let before = driver.clone();
    let (driver, action) = driver.step(SyncEvent::Persisted);
    assert_eq!(action, SyncAction::Wait);
    assert_eq!(driver, before);
}

#[test]
fn sync_errors_in_words() {
    assert_eq!(SyncError::Transport.describe(), "a sync round failed");
    assert_eq!(SyncError::Persist.describe(), "the sync token could not be persisted");
}
