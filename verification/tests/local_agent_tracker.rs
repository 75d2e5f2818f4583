use bitfun_logic::clock::Timestamp;
use bitfun_logic::local_agent::tracker::{TaskRegistration, TaskResultTracker, TurnOutcome};
use bitfun_logic::local_agent::types::LocalAgentTaskStatus;
use std::time::{Duration, Instant};

fn registration(turn_id: &str, session_id: &str) -> TaskRegistration {
    TaskRegistration {
        turn_id: turn_id.to_string(),
        session_id: session_id.to_string(),
        session_name: "Worker".to_string(),
    }
}

fn at(nanos: u128) -> Timestamp {
    Timestamp { before_epoch: false, nanos }
}

#[test]
fn registered_task_is_running_until_completed() {
    let mut tracker = TaskResultTracker::default();
    tracker.register(TaskRegistration {
        turn_id: "turn-1".to_string(),
        session_id: "session-1".to_string(),
        session_name: "Worker".to_string(),
    });

    let before = tracker.query("turn-1").expect("task should exist");
    assert_eq!(before.status, LocalAgentTaskStatus::Running);

    tracker.record_outcome(
        "session-1",
        TurnOutcome::Completed {
            turn_id: "turn-1".to_string(),
            final_response: "done".to_string(),
        },
    );

    let after = tracker.query("turn-1").expect("task should exist");
    assert_eq!(after.status, LocalAgentTaskStatus::Completed);
    assert_eq!(after.final_response.as_deref(), Some("done"));
}

#[test]
fn register_prunes_expired_tasks() {
    let mut tracker = TaskResultTracker::with_ttl(Duration::from_millis(1).as_nanos());

    tracker.register(TaskRegistration {
        turn_id: "expired-turn".to_string(),
        session_id: "session-1".to_string(),
        session_name: "Worker".to_string(),
    });

    let start = Instant::now();
    while start.elapsed() < Duration::from_millis(10) {}

    tracker.register(TaskRegistration {
        turn_id: "fresh-turn".to_string(),
        session_id: "session-1".to_string(),
        session_name: "Worker".to_string(),
    });

    assert!(tracker.query("expired-turn").is_none());
    assert!(tracker.query("fresh-turn").is_some());
}

#[test]
fn default_ttl_does_not_prune_active_tasks() {
    let mut tracker = TaskResultTracker::default();

    tracker.register(TaskRegistration {
        turn_id: "active-turn".to_string(),
        session_id: "session-1".to_string(),
        session_name: "Worker".to_string(),
    });
    tracker.register(TaskRegistration {
        turn_id: "another-turn".to_string(),
        session_id: "session-1".to_string(),
        session_name: "Worker".to_string(),
    });

    assert!(tracker.query("active-turn").is_some());
    assert!(tracker.query("another-turn").is_some());
}

#[test]
fn outcome_of_another_session_is_ignored() {
    let mut tracker = TaskResultTracker::default();
    tracker.register(registration("turn-1", "session-1"));
    assert!(!tracker.record_outcome(
        "session-2",
        TurnOutcome::Failed { turn_id: "turn-1".to_string(), error: "boom".to_string() },
    ));
    assert_eq!(tracker.query("turn-1").unwrap().status, LocalAgentTaskStatus::Running);
    assert!(!tracker.record_outcome("session-1", TurnOutcome::Cancelled { turn_id: "unknown".to_string() }));
    assert!(tracker.query("unknown").is_none());
}

#[test]
fn failure_and_cancellation_are_recorded() {
    let mut tracker = TaskResultTracker::default();
    tracker.register(registration("a", "s"));
    tracker.register(registration("b", "s"));
    assert!(tracker.record_outcome("s", TurnOutcome::Failed { turn_id: "a".to_string(), error: "boom".to_string() }));
    assert!(tracker.record_outcome("s", TurnOutcome::Cancelled { turn_id: "b".to_string() }));
    let a = tracker.query("a").unwrap();
    assert_eq!(a.status, LocalAgentTaskStatus::Failed);
    assert_eq!(a.error.as_deref(), Some("boom"));
    assert_eq!(a.final_response, None);
    let b = tracker.query("b").unwrap();
    assert_eq!(b.status, LocalAgentTaskStatus::Cancelled);
    assert_eq!(b.error, None);
    assert_eq!(tracker.settled("a").unwrap().status, LocalAgentTaskStatus::Failed);
}

#[test]
fn settled_is_none_while_running_or_unknown() {
    let mut tracker = TaskResultTracker::default();
    tracker.register(registration("a", "s"));
    assert!(tracker.settled("a").is_none());
    assert!(tracker.settled("zzz").is_none());
}

#[test]
fn query_or_not_found_answers_unknown_turns() {
    let tracker = TaskResultTracker::default();
    let r = tracker.query_or_not_found("nope");
    assert_eq!(r.status, LocalAgentTaskStatus::NotFound);
    assert_eq!(r.turn_id, "nope");
    assert_eq!(r.session_id, None);
    assert_eq!(r.session_name, None);
}

#[test]
fn pruning_at_given_times_keeps_recent_and_future_tasks() {
    let mut tracker = TaskResultTracker::with_ttl(100);
    tracker.register_at(registration("future", "s"), at(5_000));
    tracker.register_at(registration("old", "s"), at(1_000));
    tracker.register_at(registration("recent", "s"), at(1_050));
    // at 1_150 the task from 1_000 is 150 old, the one from 1_050 exactly 100
    tracker.prune_expired_at(100, at(1_150));
    assert!(tracker.query("old").is_none());
    assert!(tracker.query("recent").is_some());
    assert!(tracker.query("future").is_some());
}

#[test]
fn pruning_counts_time_across_the_epoch() {
    let mut tracker = TaskResultTracker::with_ttl(1_000);
    tracker.register_at(registration("before", "s"), Timestamp { before_epoch: true, nanos: 600 });
    tracker.prune_expired_at(1_000, at(300));
    assert!(tracker.query("before").is_some());
    tracker.prune_expired_at(1_000, at(500));
    assert!(tracker.query("before").is_none());
}

#[test]
fn registering_again_resets_the_turn() {
    let mut tracker = TaskResultTracker::default();
    tracker.register(registration("t", "s"));
    tracker.record_outcome("s", TurnOutcome::Completed { turn_id: "t".to_string(), final_response: "x".to_string() });
    tracker.register(registration("t", "s2"));
    let r = tracker.query("t").unwrap();
    assert_eq!(r.status, LocalAgentTaskStatus::Running);
    assert_eq!(r.session_id.as_deref(), Some("s2"));
}
