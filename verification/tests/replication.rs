use std::sync::Arc;
use std::time::Duration;

use loth::engine::{EngineSettings, LothEngine};
use loth::replication::{
    build_updates, queue_closed, retry_backoff, RelationshipTuple, ReplicationEvent,
    ReplicationSettings, ReplicationWorker, WorkerAction, WorkerPhase,
};
use loth::types::AuthError;

fn tuple(id: &str) -> RelationshipTuple {
    RelationshipTuple::new("tenant", id, "member", "user", "u1")
}

fn settings(max_batch: usize, max_retries: usize) -> ReplicationSettings {
    ReplicationSettings { max_batch, max_retries, ..ReplicationSettings::default() }
}

fn down() -> AuthError {
    AuthError::spicedb_status("write_relationships", "down".to_string())
}

fn ids(worker: &ReplicationWorker) -> Vec<String> {
    worker.batch().iter().map(|u| u.relationship.resource.object_id.clone()).collect()
}

#[test]
fn tuple_uses_arc_str() {
    let t = RelationshipTuple::new("tenant", "t1", "member", "user", "u1");
    assert_eq!(&*t.resource_type, "tenant");
    assert_eq!(&*t.subject_id, "u1");
}

#[test]
fn tuple_takes_any_shared_text() {
    let shared: Arc<str> = Arc::from("t1");
    let t = RelationshipTuple::new(String::from("tenant"), shared, "member", "user", "u1");
    assert_eq!(&*t.resource_type, "tenant");
    assert_eq!(&*t.resource_id, "t1");
    assert_eq!(&*t.relation, "member");
    assert_eq!(&*t.subject_type, "user");
    assert_eq!(t, tuple("t1"));
    assert_eq!(t.clone(), t);
    assert_ne!(ReplicationEvent::Upsert(t.clone()), ReplicationEvent::Delete(t));
}

#[test]
fn default_settings() {
    let s = ReplicationSettings::default();
    assert_eq!(s.max_batch, 256);
    assert_eq!(s.flush_interval, Duration::from_millis(10));
    assert_eq!(s.max_retries, 8);
    assert_eq!(s.base_backoff, Duration::from_millis(25));
    assert_eq!(s.clone().max_batch, 256);
}

#[test]
fn events_become_updates_in_order() {
    let updates = build_updates(vec![
        ReplicationEvent::Upsert(tuple("t1")),
        ReplicationEvent::Delete(tuple("t2")),
    ])
    .expect("updates");
    assert_eq!(updates.len(), 2);
    assert_eq!(updates[0].operation, 2);
    assert_eq!(updates[0].relationship.resource.object_type, "tenant");
    assert_eq!(updates[0].relationship.resource.object_id, "t1");
    assert_eq!(updates[0].relationship.relation, "member");
    assert_eq!(updates[0].relationship.subject.object.object_type, "user");
    assert_eq!(updates[0].relationship.subject.object.object_id, "u1");
    assert_eq!(updates[0].relationship.subject.optional_relation, "");
    assert_eq!(updates[1].operation, 3);
    assert_eq!(updates[1].relationship.resource.object_id, "t2");
    assert!(build_updates(Vec::new()).expect("updates").is_empty());
}

#[test]
fn replication_writes_what_the_engine_writes() {
    let engine = LothEngine::new(String::new(), None, EngineSettings::default()).unwrap();
    let update = build_updates(vec![ReplicationEvent::Upsert(tuple("t1"))]).unwrap().remove(0);
    let request = engine.register_relation(None, "tenant", "t1", "member", "user", "u1").unwrap();
    assert_eq!(format!("{update:?}"), format!("{:?}", request.updates[0]));
    let update = build_updates(vec![ReplicationEvent::Delete(tuple("t1"))]).unwrap().remove(0);
    let request = engine.revoke_relation(None, "tenant", "t1", "member", "user", "u1").unwrap();
    assert_eq!(format!("{update:?}"), format!("{:?}", request.updates[0]));
}

#[test]
fn backoff_doubles_up_to_the_tenth_retry() {
    let base = Duration::from_millis(25);
    assert_eq!(retry_backoff(base, 1), Some(Duration::from_millis(50)));
    assert_eq!(retry_backoff(base, 2), Some(Duration::from_millis(100)));
    assert_eq!(retry_backoff(base, 9), Some(Duration::from_millis(12_800)));
    assert_eq!(retry_backoff(base, 10), Some(Duration::from_millis(25_600)));
    assert_eq!(retry_backoff(base, 11), Some(Duration::from_millis(25_600)));
    assert_eq!(retry_backoff(base, usize::MAX), Some(Duration::from_millis(25_600)));
    assert_eq!(retry_backoff(Duration::MAX, 0), Some(Duration::MAX));
    assert_eq!(retry_backoff(Duration::MAX, 1), None);
    assert_eq!(retry_backoff(Duration::ZERO, 10), Some(Duration::ZERO));
}

#[test]
fn full_batch_is_written() {
    let mut w = ReplicationWorker::new(settings(2, 0));
    assert_eq!(w.phase(), WorkerPhase::Collecting);
    assert_eq!(w.settings().max_batch, 2);
    let action = w.on_received(ReplicationEvent::Upsert(tuple("t1")));
    assert!(matches!(action, WorkerAction::Wait { rearm: false }));
    let action = w.on_received(ReplicationEvent::Delete(tuple("t2")));
    assert!(matches!(action, WorkerAction::Write));
    assert_eq!(w.phase(), WorkerPhase::Writing);
    assert_eq!(ids(&w), vec!["t1", "t2"]);
    assert!(matches!(w.on_written(), WorkerAction::Wait { rearm: true }));
    assert_eq!(w.phase(), WorkerPhase::Collecting);
    assert!(w.batch().is_empty());
}

#[test]
fn batch_limit_of_none_works_as_one() {
    for limit in [0, 1] {
        let mut w = ReplicationWorker::new(settings(limit, 0));
        let action = w.on_received(ReplicationEvent::Upsert(tuple("t1")));
        assert!(matches!(action, WorkerAction::Write));
    }
}

#[test]
fn timer_flushes_what_is_gathered() {
    let mut w = ReplicationWorker::new(settings(9, 0));
    assert!(matches!(w.on_timer(), WorkerAction::Wait { rearm: true }));
    w.on_received(ReplicationEvent::Upsert(tuple("t1")));
    assert!(matches!(w.on_timer(), WorkerAction::Write));
    assert_eq!(ids(&w), vec!["t1"]);
    assert!(matches!(w.on_written(), WorkerAction::Wait { rearm: true }));
}

#[test]
fn shutdown_flushes_then_stops() {
    let mut w = ReplicationWorker::new(settings(9, 0));
    w.on_received(ReplicationEvent::Upsert(tuple("t1")));
    assert!(matches!(w.on_shutdown(), WorkerAction::Write));
    assert_eq!(ids(&w), vec!["t1"]);
    assert!(matches!(w.on_written(), WorkerAction::Stop));
    assert_eq!(w.phase(), WorkerPhase::Stopped);
}

#[test]
fn idle_worker_stops_at_once() {
    let mut w = ReplicationWorker::new(settings(9, 0));
    assert!(matches!(w.on_shutdown(), WorkerAction::Stop));
    assert_eq!(w.phase(), WorkerPhase::Stopped);
    let mut w = ReplicationWorker::new(settings(9, 0));
    assert!(matches!(w.on_queue_closed(), WorkerAction::Stop));
}

#[test]
fn closed_queue_is_drained() {
    let mut w = ReplicationWorker::new(settings(9, 0));
    w.on_received(ReplicationEvent::Upsert(tuple("t1")));
    w.on_received(ReplicationEvent::Upsert(tuple("t2")));
    assert!(matches!(w.on_queue_closed(), WorkerAction::Write));
    assert_eq!(ids(&w), vec!["t1", "t2"]);
    assert!(matches!(w.on_written(), WorkerAction::Stop));
}

#[test]
fn failed_batch_is_retried_then_written() {
    let mut w = ReplicationWorker::new(settings(1, 2));
    w.on_received(ReplicationEvent::Upsert(tuple("t1")));
    match w.on_write_failed(down()) {
        WorkerAction::Sleep(backoff) => assert_eq!(backoff, Some(Duration::from_millis(50))),
        other => panic!("{other:?}"),
    }
    assert_eq!(w.phase(), WorkerPhase::BackingOff);
    assert!(matches!(w.on_backoff_elapsed(), WorkerAction::Write));
    match w.on_write_failed(down()) {
        WorkerAction::Sleep(backoff) => assert_eq!(backoff, Some(Duration::from_millis(100))),
        other => panic!("{other:?}"),
    }
    w.on_backoff_elapsed();
    assert_eq!(ids(&w), vec!["t1"]);
    assert!(matches!(w.on_written(), WorkerAction::Wait { rearm: true }));
    // A new batch has all its retries again.
    w.on_received(ReplicationEvent::Upsert(tuple("t2")));
    match w.on_write_failed(down()) {
        WorkerAction::Sleep(backoff) => assert_eq!(backoff, Some(Duration::from_millis(50))),
        other => panic!("{other:?}"),
    }
}

#[test]
fn used_up_retries_fail_closed() {
    let mut w = ReplicationWorker::new(settings(1, 1));
    w.on_received(ReplicationEvent::Upsert(tuple("t1")));
    assert!(matches!(w.on_write_failed(down()), WorkerAction::Sleep(_)));
    w.on_backoff_elapsed();
    match w.on_write_failed(down()) {
        WorkerAction::FailClosed { fatal, error } => {
            assert_eq!(fatal.to_text(), "SpiceDB gRPC status while write_relationships: down");
            assert_eq!(
                error.to_text(),
                "Invalid input: replication failed permanently (fail-closed)"
            );
        }
        other => panic!("{other:?}"),
    }
    assert_eq!(w.phase(), WorkerPhase::Failed);
}

#[test]
fn no_retries_fail_at_once() {
    let mut w = ReplicationWorker::new(settings(1, 0));
    w.on_received(ReplicationEvent::Upsert(tuple("t1")));
    assert!(matches!(w.on_write_failed(down()), WorkerAction::FailClosed { .. }));
}

#[test]
fn overlong_backoff_is_none() {
    let mut w = ReplicationWorker::new(ReplicationSettings {
        base_backoff: Duration::MAX,
        ..settings(1, 1)
    });
    w.on_received(ReplicationEvent::Upsert(tuple("t1")));
    assert!(matches!(w.on_write_failed(down()), WorkerAction::Sleep(None)));
}

#[test]
fn shutdown_survives_a_retry() {
    let mut w = ReplicationWorker::new(settings(9, 3));
    w.on_received(ReplicationEvent::Upsert(tuple("t1")));
    w.on_shutdown();
    w.on_write_failed(down());
    w.on_backoff_elapsed();
    assert!(matches!(w.on_written(), WorkerAction::Stop));
}

#[test]
fn closed_queue_error() {
    assert_eq!(queue_closed().to_text(), "Invalid input: replication queue closed");
}
